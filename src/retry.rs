use vstd::prelude::*;
use crate::http::{HttpError, RetryConfig};

verus! {

/// What one HTTP attempt produced, as handed over by the transport.
#[derive(Debug, Clone, PartialEq, Eq)]
pub enum AttemptOutcome {
    /// The request could not be sent or no response came.
    TransportFailed(String),
    /// A response: its status, its `Retry-After` in whole seconds when the
    /// header was present and readable, and its body text.
    Response { status: u16, retry_after_secs: Option<u64>, body: String },
}

/// What the fetch loop does after an attempt.
#[derive(Debug, Clone, PartialEq, Eq)]
pub enum RetryDecision {
    /// Status 200: decode the body and return it.
    Decode,
    /// Stop with this error.
    Fail(HttpError),
    /// Wait this long, acquire a new permit and try again.
    Retry { delay_ms: u64 },
}

pub const STATUS_OK: u16 = 200;
pub const STATUS_FORBIDDEN: u16 = 403;
pub const STATUS_NOT_FOUND: u16 = 404;
pub const STATUS_TOO_MANY_REQUESTS: u16 = 429;

/// 429 and 403 both mean the endpoint is throttling us.
pub open spec fn is_rate_limit_status(status: u16) -> bool {
    status == STATUS_TOO_MANY_REQUESTS || status == STATUS_FORBIDDEN
}

/// The outcome is a response with this status.
pub open spec fn has_status(o: AttemptOutcome, code: u16) -> bool {
    match o {
        AttemptOutcome::Response { status, .. } => status == code,
        AttemptOutcome::TransportFailed(_) => false,
    }
}

/// `base * 2^n`.
pub open spec fn exponential_delay(base: nat, n: nat) -> nat
    decreases n,
{
    if n == 0 {
        base
    } else {
        2 * exponential_delay(base, (n - 1) as nat)
    }
}

/// Backoff before the retry that follows attempt `attempt` (counted from 1):
/// `min(base_delay * 2^(attempt-1), max_delay)`.
pub open spec fn backoff_spec(policy: RetryConfig, attempt: nat) -> nat {
    let e = exponential_delay(policy.base_delay_ms as nat, (attempt - 1) as nat);
    if e < policy.max_delay_ms {
        e
    } else {
        policy.max_delay_ms as nat
    }
}

/// Delay asked for by a `Retry-After` of `secs` seconds, in milliseconds,
/// saturating at the largest `u64`.
pub open spec fn retry_after_ms_spec(secs: u64) -> u64 {
    if secs * 1000 <= u64::MAX {
        (secs * 1000) as u64
    } else {
        u64::MAX
    }
}

/// The decision after attempt number `attempt` with this outcome.
pub open spec fn decide_spec(attempt: nat, policy: RetryConfig, outcome: AttemptOutcome) -> RetryDecision {
    match outcome {
        AttemptOutcome::TransportFailed(m) => RetryDecision::Fail(HttpError::RequestFailed(m)),
        AttemptOutcome::Response { status, retry_after_secs, body } => {
            if status == STATUS_OK {
                RetryDecision::Decode
            } else if status == STATUS_NOT_FOUND {
                RetryDecision::Fail(HttpError::NotFound(body))
            } else if is_rate_limit_status(status) {
                if attempt > policy.max_retries {
                    RetryDecision::Fail(HttpError::RateLimited { retry_after_secs, message: body })
                } else {
                    match retry_after_secs {
                        Some(s) => RetryDecision::Retry { delay_ms: retry_after_ms_spec(s) },
                        None => RetryDecision::Retry {
                            delay_ms: backoff_spec(policy, attempt) as u64,
                        },
                    }
                }
            } else {
                RetryDecision::Fail(HttpError::UnexpectedStatus { status, message: body })
            }
        },
    }
}

/// Text that stands for a response body that could not be read: it
/// names what the status means.
pub open spec fn missing_body_spec(status: u16) -> Seq<char> {
    if status == STATUS_NOT_FOUND {
        "No error message"@
    } else if is_rate_limit_status(status) {
        "Rate limit exceeded"@
    } else {
        "Unknown error"@
    }
}

/// The body text to use when a response's body could not be read.
pub fn missing_body_text(status: u16) -> (r: &'static str)
    ensures
        r@ == missing_body_spec(status),
{
    if status == STATUS_NOT_FOUND {
        "No error message"
    } else if status == STATUS_TOO_MANY_REQUESTS || status == STATUS_FORBIDDEN {
        "Rate limit exceeded"
    } else {
        "Unknown error"
    }
}

/// Backoff delay in milliseconds before the retry that follows attempt
/// `attempt`: `min(base_delay * 2^(attempt-1), max_delay)`, computed without
/// overflow.
pub fn backoff_delay_ms(policy: &RetryConfig, attempt: u64) -> (r: u64)
    requires
        attempt >= 1,
    ensures
        r as nat == backoff_spec(*policy, attempt as nat),
{
    let max = policy.max_delay_ms;
    let mut d: u64 = if policy.base_delay_ms < max { policy.base_delay_ms } else { max };
    let mut k: u64 = 0;
    while k < attempt - 1
        invariant
            k <= attempt - 1,
            max == policy.max_delay_ms,
            d as nat == backoff_spec(*policy, (k + 1) as nat),
        decreases attempt - 1 - k,
    {
        let ghost e = exponential_delay(policy.base_delay_ms as nat, k as nat);
        assert(exponential_delay(policy.base_delay_ms as nat, (k + 1) as nat) == 2 * e);
        if d >= max {
            d = max;
        } else if d > max / 2 {
            d = max;
        } else {
            d = d * 2;
        }
        k = k + 1;
    }
    d
}

/// Milliseconds for a `Retry-After` of `secs` seconds, saturating.
pub fn retry_after_ms(secs: u64) -> (r: u64)
    ensures
        r == retry_after_ms_spec(secs),
{
    if secs <= u64::MAX / 1000 {
        secs * 1000
    } else {
        u64::MAX
    }
}

/// Classifies the outcome of attempt number `attempt` (counted from 1).
///
/// A transport failure, a 404 or any status other than 200, 403 and 429 is
/// terminal; 200 asks for the body to be decoded; 429 and 403 retry after
/// the server's `Retry-After` or the exponential backoff, until `attempt`
/// exceeds `max_retries`, and then fail as rate limited.
pub fn decide(attempt: u64, policy: &RetryConfig, outcome: AttemptOutcome) -> (r: RetryDecision)
    requires
        attempt >= 1,
    ensures
        r == decide_spec(attempt as nat, *policy, outcome),
{
    match outcome {
        AttemptOutcome::TransportFailed(m) => RetryDecision::Fail(HttpError::RequestFailed(m)),
        AttemptOutcome::Response { status, retry_after_secs, body } => {
            if status == STATUS_OK {
                RetryDecision::Decode
            } else if status == STATUS_NOT_FOUND {
                RetryDecision::Fail(HttpError::NotFound(body))
            } else if status == STATUS_TOO_MANY_REQUESTS || status == STATUS_FORBIDDEN {
                if attempt > policy.max_retries as u64 {
                    RetryDecision::Fail(HttpError::RateLimited { retry_after_secs, message: body })
                } else {
                    match retry_after_secs {
                        Some(s) => RetryDecision::Retry { delay_ms: retry_after_ms(s) },
                        None => RetryDecision::Retry { delay_ms: backoff_delay_ms(policy, attempt) },
                    }
                }
            } else {
                RetryDecision::Fail(HttpError::UnexpectedStatus { status, message: body })
            }
        },
    }
}

/// The fetch loop run against a sequence of attempt outcomes, from attempt
/// number `attempt` on: how many attempts were made, and the decision that
/// ended the loop (`None` when the outcomes ran out first).
pub open spec fn run_spec(policy: RetryConfig, outcomes: Seq<AttemptOutcome>, attempt: nat) -> (
    nat,
    Option<RetryDecision>,
)
    decreases outcomes.len() + 1 - attempt,
{
    if attempt == 0 || attempt > outcomes.len() {
        ((attempt - 1) as nat, None)
    } else {
        let d = decide_spec(attempt, policy, outcomes[attempt - 1]);
        if d is Retry {
            run_spec(policy, outcomes, attempt + 1)
        } else {
            (attempt, Some(d))
        }
    }
}

/// The decision state of one fetch: which attempt comes next, under which
/// policy.
pub struct FetchRetry {
    attempt: u64,
    policy: RetryConfig,
    done: bool,
}

impl FetchRetry {
    /// Number of the attempt about to be made (from 1).
    pub closed spec fn attempt_spec(&self) -> nat {
        self.attempt as nat
    }

    pub closed spec fn policy_spec(&self) -> RetryConfig {
        self.policy
    }

    /// Whether the loop has reached its final decision.
    pub closed spec fn done_spec(&self) -> bool {
        self.done
    }

    pub closed spec fn wf(&self) -> bool {
        1 <= self.attempt <= self.policy.max_retries as nat + 1
    }

    /// Before the first attempt.
    pub fn new(policy: RetryConfig) -> (r: Self)
        ensures
            r.wf(),
            r.attempt_spec() == 1,
            r.attempt_spec() <= r.policy_spec().max_retries + 1,
            r.policy_spec() == policy,
            !r.done_spec(),
    {
        FetchRetry { attempt: 1, policy, done: false }
    }

    /// Number of the attempt about to be made (from 1).
    pub fn attempt(&self) -> (r: u64)
        ensures
            r as nat == self.attempt_spec(),
    {
        self.attempt
    }

    /// Whether the loop has reached its final decision.
    pub fn is_done(&self) -> (r: bool)
        ensures
            r == self.done_spec(),
    {
        self.done
    }

    /// Hands in the outcome of the current attempt and returns what to do.
    /// On a retry the attempt number advances; attempts never go beyond
    /// `max_retries + 1`.
    pub fn on_outcome(&mut self, outcome: AttemptOutcome) -> (r: RetryDecision)
        requires
            old(self).wf(),
            !old(self).done_spec(),
        ensures
            final(self).wf(),
            1 <= final(self).attempt_spec() <= final(self).policy_spec().max_retries + 1,
            final(self).policy_spec() == old(self).policy_spec(),
            r == decide_spec(old(self).attempt_spec(), old(self).policy_spec(), outcome),
            r is Retry ==> final(self).attempt_spec() == old(self).attempt_spec() + 1
                && !final(self).done_spec(),
            !(r is Retry) ==> final(self).attempt_spec() == old(self).attempt_spec()
                && final(self).done_spec(),
    {
        let r = decide(self.attempt, &self.policy, outcome);
        match r {
            RetryDecision::Retry { .. } => {
                self.attempt = self.attempt + 1;
            },
            _ => {
                self.done = true;
            },
        }
        r
    }
}

/// No fetch makes more than `max_retries + 1` attempts, whatever the
/// endpoint answers.
pub proof fn lemma_attempts_bounded(policy: RetryConfig, outcomes: Seq<AttemptOutcome>, attempt: nat)
    requires
        1 <= attempt <= policy.max_retries + 1,
    ensures
        run_spec(policy, outcomes, attempt).0 <= policy.max_retries + 1,
    decreases outcomes.len() + 1 - attempt,
{
    if attempt <= outcomes.len() {
        let d = decide_spec(attempt, policy, outcomes[attempt - 1]);
        if d is Retry {
            lemma_attempts_bounded(policy, outcomes, attempt + 1);
        }
    }
}

/// Against an endpoint that always answers 429, a fetch makes exactly
/// `max_retries + 1` attempts and then fails as rate limited.
pub proof fn lemma_always_throttled_exhausts_retries(
    policy: RetryConfig,
    outcomes: Seq<AttemptOutcome>,
)
    requires
        outcomes.len() >= policy.max_retries + 1,
        forall|i: int| 0 <= i < outcomes.len() ==> has_status(#[trigger] outcomes[i], STATUS_TOO_MANY_REQUESTS),
    ensures
        run_spec(policy, outcomes, 1).0 == policy.max_retries + 1,
        run_spec(policy, outcomes, 1).1 matches Some(RetryDecision::Fail(HttpError::RateLimited { .. })),
{
    lemma_throttled_from(policy, outcomes, 1);
}

proof fn lemma_throttled_from(policy: RetryConfig, outcomes: Seq<AttemptOutcome>, attempt: nat)
    requires
        1 <= attempt <= policy.max_retries + 1,
        outcomes.len() >= policy.max_retries + 1,
        forall|i: int| 0 <= i < outcomes.len() ==> has_status(#[trigger] outcomes[i], STATUS_TOO_MANY_REQUESTS),
    ensures
        run_spec(policy, outcomes, attempt).0 == policy.max_retries + 1,
        run_spec(policy, outcomes, attempt).1 matches Some(RetryDecision::Fail(HttpError::RateLimited { .. })),
    decreases policy.max_retries + 1 - attempt,
{
    let o = outcomes[attempt - 1];
    if attempt <= policy.max_retries {
        assert(decide_spec(attempt, policy, o) is Retry);
        lemma_throttled_from(policy, outcomes, attempt + 1);
    }
}

/// Against an endpoint that answers 404, a fetch makes exactly one attempt
/// and fails as not found.
pub proof fn lemma_not_found_is_terminal(policy: RetryConfig, outcomes: Seq<AttemptOutcome>)
    requires
        outcomes.len() >= 1,
        has_status(outcomes[0], STATUS_NOT_FOUND),
    ensures
        run_spec(policy, outcomes, 1).0 == 1,
        run_spec(policy, outcomes, 1).1 matches Some(RetryDecision::Fail(HttpError::NotFound(_))),
{
}

/// An ASCII decimal digit.
pub open spec fn is_digit(c: char) -> bool {
    '0' <= c && c <= '9'
}

/// The number written by a string of decimal digits.
pub open spec fn digits_value(s: Seq<char>) -> nat
    decreases s.len(),
{
    if s.len() == 0 {
        0
    } else {
        digits_value(s.drop_last()) * 10 + (s.last() as nat - '0' as nat) as nat
    }
}

/// The digits of an unsigned number: the text after one optional `+`.
pub open spec fn unsigned_digits(s: Seq<char>) -> Seq<char> {
    if s.len() > 0 && s[0] == '+' {
        s.drop_first()
    } else {
        s
    }
}

/// Reading of a text as a `u64`: an optional `+`, then one or more decimal
/// digits whose value fits in 64 bits.
pub open spec fn parse_u64_spec(s: Seq<char>) -> Option<u64> {
    let d = unsigned_digits(s);
    if d.len() > 0 && (forall|i: int| 0 <= i < d.len() ==> is_digit(#[trigger] d[i]))
        && digits_value(d) <= u64::MAX {
        Some(digits_value(d) as u64)
    } else {
        None
    }
}

proof fn lemma_digits_value_grows(d: Seq<char>, k: int)
    requires
        0 <= k <= d.len(),
        forall|i: int| 0 <= i < d.len() ==> is_digit(#[trigger] d[i]),
    ensures
        digits_value(d.take(k)) <= digits_value(d),
    decreases d.len() - k,
{
    if k < d.len() {
        lemma_digits_value_grows(d, k + 1);
        assert(d.take(k + 1).drop_last() =~= d.take(k));
        assert(d.take(k + 1).last() == d[k]);
        assert(is_digit(d[k]));
    } else {
        assert(d.take(k) =~= d);
    }
}

/// Reads a `Retry-After` header value as whole seconds, the way `u64`'s
/// `from_str` reads it; `None` for anything else (an HTTP date, say).
pub fn parse_retry_after(value: &str) -> (r: Option<u64>)
    ensures
        r == parse_u64_spec(value@),
{
    let n = value.unicode_len();
    let mut start: usize = 0;
    if n > 0 && value.get_char(0) == '+' {
        start = 1;
    }
    let ghost d = unsigned_digits(value@);
    assert(d =~= value@.subrange(start as int, n as int));
    if start == n {
        return None;
    }
    let mut v: u64 = 0;
    let mut i: usize = start;
    while i < n
        invariant
            start <= i <= n,
            n == value@.len(),
            d == value@.subrange(start as int, n as int),
            d == unsigned_digits(value@),
            forall|j: int| 0 <= j < i - start ==> is_digit(#[trigger] d[j]),
            v as nat == digits_value(d.take(i - start)),
        decreases n - i,
    {
        let c = value.get_char(i);
        assert(c == d[i - start]);
        if !('0' <= c && c <= '9') {
            assert(!is_digit(d[i - start]));
            return None;
        }
        let digit = (c as u32 - '0' as u32) as u64;
        assert(d.take(i - start + 1).drop_last() =~= d.take(i - start));
        assert(d.take(i - start + 1).last() == c);
        if v > (u64::MAX - digit) / 10 {
            proof {
                assert(v * 10 + digit > u64::MAX) by (nonlinear_arith)
                    requires v > (u64::MAX - digit) / 10, digit <= 9;
                assert(digits_value(d.take(i - start + 1)) == v * 10 + digit);
                if forall|j: int| 0 <= j < d.len() ==> is_digit(#[trigger] d[j]) {
                    lemma_digits_value_grows(d, i - start + 1);
                    assert(digits_value(d) > u64::MAX);
                }
            }
            return None;
        }
        v = v * 10 + digit;
        i = i + 1;
    }
    assert(d.take(n - start) =~= d);
    Some(v)
}

} // verus!
