use vstd::prelude::*;
use vstd::utf8::encode_utf8;

verus! {

/// Bounds for exponential backoff between retried attempts.
#[derive(Debug, Clone, Copy, PartialEq, Eq, Structural)]
pub struct RetryConfig {
    pub max_retries: u32,
    pub base_delay_ms: u64,
    pub max_delay_ms: u64,
}

impl RetryConfig {
    /// Three retries, starting at one second and capped at one minute.
    pub open spec fn default_spec() -> RetryConfig {
        RetryConfig { max_retries: 3, base_delay_ms: 1000, max_delay_ms: 60000 }
    }
}

impl Default for RetryConfig {
    fn default() -> (r: Self)
        ensures
            r == RetryConfig::default_spec(),
    {
        RetryConfig { max_retries: 3, base_delay_ms: 1000, max_delay_ms: 60000 }
    }
}

/// Failures of an HTTP fetch, each terminal for the fetch that met it.
#[derive(Debug, Clone, PartialEq, Eq)]
pub enum HttpError {
    /// The server answered 404.
    NotFound(String),
    /// The server kept answering 429 or 403 until the retry budget ran out.
    RateLimited { retry_after_secs: Option<u64>, message: String },
    /// The request could not be sent or no response came.
    RequestFailed(String),
    /// A 200 body did not decode into the expected shape.
    DeserializationFailed(String),
    /// Any other status.
    UnexpectedStatus { status: u16, message: String },
    MaxRetriesExceeded,
}

/// Headers sent with a request, with keys unique, and an optional retry
/// policy that replaces the default one.
#[derive(Debug, Clone)]
pub struct RequestConfig {
    headers: Vec<(String, String)>,
    retry_config: Option<RetryConfig>,
}

/// The header map that a list of (key, value) pairs stands for.
pub open spec fn header_map(h: Seq<(String, String)>) -> Map<Seq<char>, Seq<char>>
    decreases h.len(),
{
    if h.len() == 0 {
        Map::empty()
    } else {
        header_map(h.drop_last()).insert(h.last().0@, h.last().1@)
    }
}

/// Keys of a header list are pairwise distinct.
pub open spec fn keys_unique(h: Seq<(String, String)>) -> bool {
    forall|i: int, j: int| 0 <= i < j < h.len() ==> (#[trigger] h[i]).0@ != (#[trigger] h[j]).0@
}

/// Base64 text (standard alphabet, padded) of a byte sequence.
pub uninterp spec fn base64_of(bytes: Seq<u8>) -> Seq<char>;

/// Relies on base64's STANDARD engine `encode`: the padded standard-alphabet
/// encoding of the bytes, which depends on the bytes alone.
#[verifier::external_body]
fn encode_base64(bytes: &[u8]) -> (r: String)
    ensures
        r@ == base64_of(bytes@),
{
    base64::Engine::encode(&base64::engine::general_purpose::STANDARD, bytes)
}

proof fn lemma_header_map_update(h: Seq<(String, String)>, i: int, k: String, v: String)
    requires
        0 <= i < h.len(),
        h[i].0@ == k@,
        keys_unique(h),
    ensures
        header_map(h.update(i, (k, v))) == header_map(h).insert(k@, v@),
        keys_unique(h.update(i, (k, v))),
    decreases h.len(),
{
    let u = h.update(i, (k, v));
    if i == h.len() - 1 {
        assert(u.drop_last() =~= h.drop_last());
        assert(header_map(h).insert(k@, v@) =~= header_map(h.drop_last()).insert(k@, v@));
    } else {
        assert(u.drop_last() =~= h.drop_last().update(i, (k, v)));
        assert forall|a: int, b: int| 0 <= a < b < h.drop_last().len() implies (
        #[trigger] h.drop_last()[a]).0@ != (#[trigger] h.drop_last()[b]).0@ by {
            assert(h.drop_last()[a] == h[a] && h.drop_last()[b] == h[b]);
        }
        lemma_header_map_update(h.drop_last(), i, k, v);
        assert(h.last().0@ != k@) by {
            assert(h[h.len() - 1] == h.last());
        }
        assert(header_map(u) =~= header_map(h).insert(k@, v@));
    }
}

proof fn lemma_header_map_absent(h: Seq<(String, String)>, k: Seq<char>)
    requires
        forall|i: int| 0 <= i < h.len() ==> (#[trigger] h[i]).0@ != k,
    ensures
        !header_map(h).contains_key(k),
    decreases h.len(),
{
    if h.len() > 0 {
        assert(h.last() == h[h.len() - 1]);
        lemma_header_map_absent(h.drop_last(), k);
    }
}

impl RequestConfig {
    /// The headers as a map from key to value.
    pub closed spec fn headers_spec(&self) -> Map<Seq<char>, Seq<char>> {
        header_map(self.headers@)
    }

    /// The request's own retry policy, if any.
    pub closed spec fn retry_spec(&self) -> Option<RetryConfig> {
        self.retry_config
    }

    /// The request's own retry policy, if any.
    pub fn retry_config(&self) -> (r: Option<RetryConfig>)
        ensures
            r == self.retry_spec(),
    {
        self.retry_config
    }

    pub closed spec fn wf(&self) -> bool {
        keys_unique(self.headers@)
    }

    /// No headers and no retry policy of its own.
    pub fn new() -> (r: Self)
        ensures
            r.wf(),
            r.headers_spec() == Map::<Seq<char>, Seq<char>>::empty(),
            r.retry_spec().is_none(),
    {
        RequestConfig { headers: Vec::new(), retry_config: None }
    }

    /// Sets a header, replacing the value of an existing header of that key.
    pub fn with_header(self, key: &str, value: &str) -> (r: Self)
        requires
            self.wf(),
        ensures
            r.wf(),
            r.headers_spec() == self.headers_spec().insert(key@, value@),
            r.retry_spec() == self.retry_spec(),
    {
        let mut this = self;
        let k = key.to_owned();
        let v = value.to_owned();
        let mut i: usize = 0;
        while i < this.headers.len()
            invariant
                i <= this.headers@.len(),
                this == self,
                keys_unique(this.headers@),
                k@ == key@,
                v@ == value@,
                forall|j: int| 0 <= j < i ==> (#[trigger] this.headers@[j]).0@ != key@,
            decreases this.headers@.len() - i,
        {
            if this.headers[i].0 == k {
                proof {
                    lemma_header_map_update(this.headers@, i as int, k, v);
                }
                this.headers.set(i, (k, v));
                return this;
            }
            i = i + 1;
        }
        let ghost before = this.headers@;
        proof {
            lemma_header_map_absent(before, key@);
        }
        this.headers.push((k, v));
        proof {
            assert(this.headers@.drop_last() =~= before);
            assert forall|a: int, b: int| 0 <= a < b < this.headers@.len() implies (
            #[trigger] this.headers@[a]).0@ != (#[trigger] this.headers@[b]).0@ by {
                assert(this.headers@[a] == before[a]);
                if b < before.len() {
                    assert(this.headers@[b] == before[b]);
                }
            }
        }
        this
    }

    /// Sets the X-API-Key header.
    pub fn with_api_key(self, api_key: &str) -> (r: Self)
        requires
            self.wf(),
        ensures
            r.wf(),
            r.headers_spec() == self.headers_spec().insert("X-API-Key"@, api_key@),
            r.retry_spec() == self.retry_spec(),
    {
        self.with_header("X-API-Key", api_key)
    }

    /// Sets the Authorization header to a bearer token.
    pub fn with_bearer_token(self, token: &str) -> (r: Self)
        requires
            self.wf(),
        ensures
            r.wf(),
            r.headers_spec() == self.headers_spec().insert("Authorization"@, "Bearer "@ + token@),
            r.retry_spec() == self.retry_spec(),
    {
        let value = "Bearer ".to_owned().concat(token);
        self.with_header("Authorization", value.as_str())
    }

    /// Sets the Authorization header to basic credentials: the base64 text
    /// of the UTF-8 bytes of `username:password`.
    pub fn with_basic_auth(self, username: &str, password: &str) -> (r: Self)
        requires
            self.wf(),
        ensures
            r.wf(),
            r.headers_spec() == self.headers_spec().insert(
                "Authorization"@,
                "Basic "@ + base64_of(encode_utf8(username@ + ":"@ + password@)),
            ),
            r.retry_spec() == self.retry_spec(),
    {
        let credentials = username.to_owned().concat(":").concat(password);
        let encoded = encode_base64(credentials.as_str().as_bytes());
        let value = "Basic ".to_owned().concat(encoded.as_str());
        self.with_header("Authorization", value.as_str())
    }

    /// Uses this retry policy instead of the default one.
    pub fn with_retry_config(self, config: RetryConfig) -> (r: Self)
        requires
            self.wf(),
        ensures
            r.wf(),
            r.headers_spec() == self.headers_spec(),
            r.retry_spec() == Some(config),
    {
        let mut this = self;
        this.retry_config = Some(config);
        this
    }

    /// Number of headers.
    pub fn header_count(&self) -> (r: usize)
        requires
            self.wf(),
        ensures
            r == self.headers_spec().len(),
    {
        proof {
            lemma_header_map_len(self.headers@);
        }
        self.headers.len()
    }

    /// The value of the header with this key, if set.
    pub fn header(&self, key: &str) -> (r: Option<String>)
        requires
            self.wf(),
        ensures
            r.is_some() == self.headers_spec().contains_key(key@),
            r.is_some() ==> r.unwrap()@ == self.headers_spec()[key@],
    {
        let k = key.to_owned();
        let mut i: usize = 0;
        while i < self.headers.len()
            invariant
                i <= self.headers@.len(),
                keys_unique(self.headers@),
                k@ == key@,
                forall|j: int| 0 <= j < i ==> (#[trigger] self.headers@[j]).0@ != key@,
            decreases self.headers@.len() - i,
        {
            if self.headers[i].0 == k {
                proof {
                    lemma_header_map_lookup(self.headers@, i as int);
                }
                return Some(self.headers[i].1.clone());
            }
            i = i + 1;
        }
        proof {
            lemma_header_map_absent(self.headers@, key@);
        }
        None
    }

    /// The header pairs, in the order they were first set.
    pub fn headers(&self) -> (r: Vec<(String, String)>)
        requires
            self.wf(),
        ensures
            keys_unique(r@),
            header_map(r@) == self.headers_spec(),
    {
        let mut out: Vec<(String, String)> = Vec::new();
        let mut i: usize = 0;
        while i < self.headers.len()
            invariant
                i <= self.headers@.len(),
                out@.len() == i,
                forall|j: int| 0 <= j < i ==> (#[trigger] out@[j]).0@ == self.headers@[j].0@
                    && out@[j].1@ == self.headers@[j].1@,
            decreases self.headers@.len() - i,
        {
            let k = self.headers[i].0.clone();
            let v = self.headers[i].1.clone();
            out.push((k, v));
            i = i + 1;
        }
        proof {
            lemma_header_map_same(out@, self.headers@);
        }
        out
    }

    /// The retry policy to use: this config's own, else the default.
    pub fn effective_retry(&self) -> (r: RetryConfig)
        ensures
            r == match self.retry_spec() {
                Some(c) => c,
                None => RetryConfig::default_spec(),
            },
    {
        match self.retry_config {
            Some(c) => c,
            None => RetryConfig::default(),
        }
    }
}

proof fn lemma_header_map_lookup(h: Seq<(String, String)>, i: int)
    requires
        0 <= i < h.len(),
        keys_unique(h),
    ensures
        header_map(h).contains_key(h[i].0@),
        header_map(h)[h[i].0@] == h[i].1@,
    decreases h.len(),
{
    if i < h.len() - 1 {
        assert(h.drop_last()[i] == h[i]);
        assert forall|a: int, b: int| 0 <= a < b < h.drop_last().len() implies (
        #[trigger] h.drop_last()[a]).0@ != (#[trigger] h.drop_last()[b]).0@ by {
            assert(h.drop_last()[a] == h[a] && h.drop_last()[b] == h[b]);
        }
        lemma_header_map_lookup(h.drop_last(), i);
        assert(h.last() == h[h.len() - 1]);
    }
}

proof fn lemma_header_map_same(a: Seq<(String, String)>, b: Seq<(String, String)>)
    requires
        a.len() == b.len(),
        forall|j: int| 0 <= j < a.len() ==> (#[trigger] a[j]).0@ == b[j].0@ && a[j].1@ == b[j].1@,
        keys_unique(b),
    ensures
        header_map(a) == header_map(b),
        keys_unique(a),
    decreases a.len(),
{
    if a.len() > 0 {
        let (da, db) = (a.drop_last(), b.drop_last());
        assert forall|j: int| 0 <= j < da.len() implies (#[trigger] da[j]).0@ == db[j].0@
            && da[j].1@ == db[j].1@ by {
            assert(da[j] == a[j] && db[j] == b[j]);
        }
        assert forall|x: int, y: int| 0 <= x < y < db.len() implies (#[trigger] db[x]).0@ != (
        #[trigger] db[y]).0@ by {
            assert(db[x] == b[x] && db[y] == b[y]);
        }
        lemma_header_map_same(da, db);
        assert(a.last() == a[a.len() - 1] && b.last() == b[b.len() - 1]);
    }
    assert forall|x: int, y: int| 0 <= x < y < a.len() implies (#[trigger] a[x]).0@ != (
    #[trigger] a[y]).0@ by {
        assert(a[x].0@ == b[x].0@ && a[y].0@ == b[y].0@);
    }
}

proof fn lemma_header_map_len(h: Seq<(String, String)>)
    requires
        keys_unique(h),
    ensures
        header_map(h).len() == h.len(),
        header_map(h).dom().finite(),
    decreases h.len(),
{
    if h.len() > 0 {
        let d = h.drop_last();
        assert forall|a: int, b: int| 0 <= a < b < d.len() implies (#[trigger] d[a]).0@ != (
        #[trigger] d[b]).0@ by {
            assert(d[a] == h[a] && d[b] == h[b]);
        }
        lemma_header_map_len(d);
        assert forall|i: int| 0 <= i < d.len() implies (#[trigger] d[i]).0@ != h.last().0@ by {
            assert(d[i] == h[i]);
            assert(h.last() == h[h.len() - 1]);
        }
        lemma_header_map_absent(d, h.last().0@);
    }
}

} // verus!
