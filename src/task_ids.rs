//! Identifiers of tasks whose work is fixed by a kind and a numeric key, so
//! that the same work always gets the same identifier.

use vstd::prelude::*;
use crate::queue::TaskPriority;
use crate::text::{digits_of, digit_char, int_text, with_number};

verus! {

/// Kinds of task addressed by one numeric key.
#[derive(Debug, Clone, Copy, PartialEq, Eq, Structural)]
pub enum TaskKind {
    /// AniList fetch addressed by MyAnimeList id.
    AniListFetchByMalId,
    /// AniList fetch addressed by AniList id.
    AniListFetch,
    /// Picture download for an AniList entry.
    AniListPictures,
    /// Refresh of a MyAnimeList entry.
    MalUpdate,
    /// Picture download for a MyAnimeList entry.
    MalPictures,
    /// Characters of an entry.
    Characters,
    /// Staff of an entry.
    Staff,
    /// Episodes of an entry.
    Episodes,
    /// Videos of an entry.
    Videos,
    /// Statistics of an entry.
    Statistics,
    /// Extra information of an entry.
    MoreInfo,
    /// Recommendations of an entry.
    Recommendations,
    /// Picture list of an entry.
    Pictures,
}

/// The identifier prefix of a kind.
pub open spec fn prefix_of(kind: TaskKind) -> Seq<char> {
    match kind {
        TaskKind::AniListFetchByMalId => "anilist_fetch_mal_"@,
        TaskKind::AniListFetch => "anilist_fetch_"@,
        TaskKind::AniListPictures => "fetch_anilist_anime_pictures_"@,
        TaskKind::MalUpdate => "mal_update_"@,
        TaskKind::MalPictures => "fetch_anime_pictures_"@,
        TaskKind::Characters => "fetch_characters_"@,
        TaskKind::Staff => "fetch_staff_"@,
        TaskKind::Episodes => "fetch_episodes_"@,
        TaskKind::Videos => "fetch_videos_"@,
        TaskKind::Statistics => "fetch_statistics_"@,
        TaskKind::MoreInfo => "fetch_moreinfo_"@,
        TaskKind::Recommendations => "fetch_recommendations_"@,
        TaskKind::Pictures => "fetch_pictures_"@,
    }
}

fn prefix(kind: TaskKind) -> (r: &'static str)
    ensures
        r@ == prefix_of(kind),
{
    match kind {
        TaskKind::AniListFetchByMalId => "anilist_fetch_mal_",
        TaskKind::AniListFetch => "anilist_fetch_",
        TaskKind::AniListPictures => "fetch_anilist_anime_pictures_",
        TaskKind::MalUpdate => "mal_update_",
        TaskKind::MalPictures => "fetch_anime_pictures_",
        TaskKind::Characters => "fetch_characters_",
        TaskKind::Staff => "fetch_staff_",
        TaskKind::Episodes => "fetch_episodes_",
        TaskKind::Videos => "fetch_videos_",
        TaskKind::Statistics => "fetch_statistics_",
        TaskKind::MoreInfo => "fetch_moreinfo_",
        TaskKind::Recommendations => "fetch_recommendations_",
        TaskKind::Pictures => "fetch_pictures_",
    }
}

impl TaskKind {
    /// The priority tasks of a kind run at: updates are urgent, direct
    /// fetches normal, pictures and extended data background work.
    pub open spec fn priority_spec(self) -> TaskPriority {
        match self {
            TaskKind::MalUpdate => TaskPriority::High,
            TaskKind::AniListFetchByMalId | TaskKind::AniListFetch => TaskPriority::Normal,
            _ => TaskPriority::Low,
        }
    }

    /// The priority tasks of this kind run at.
    pub fn priority(&self) -> (r: TaskPriority)
        ensures
            r == self.priority_spec(),
    {
        match self {
            TaskKind::MalUpdate => TaskPriority::High,
            TaskKind::AniListFetchByMalId | TaskKind::AniListFetch => TaskPriority::Normal,
            _ => TaskPriority::Low,
        }
    }
}

/// The identifier of the task of `kind` for `key`: the kind's prefix
/// followed by the key in decimal.
pub fn task_id(kind: TaskKind, key: i64) -> (r: String)
    ensures
        r@ == prefix_of(kind) + int_text(key as int),
{
    with_number(prefix(kind), key)
}

proof fn lemma_digits_nonempty(n: nat)
    ensures
        digits_of(n).len() >= 1,
        n >= 10 ==> digits_of(n).len() >= 2,
    decreases n,
{
    if n >= 10 {
        lemma_digits_nonempty(n / 10);
    }
}

proof fn lemma_digits_injective(a: nat, b: nat)
    requires
        digits_of(a) == digits_of(b),
    ensures
        a == b,
    decreases a,
{
    lemma_digits_nonempty(a);
    lemma_digits_nonempty(b);
    lemma_digits_nonempty(a / 10);
    lemma_digits_nonempty(b / 10);
    if a >= 10 && b >= 10 {
        assert(digits_of(a).last() == digit_char(a % 10));
        assert(digits_of(b).last() == digit_char(b % 10));
        assert(digits_of(a).drop_last() =~= digits_of(a / 10));
        assert(digits_of(b).drop_last() =~= digits_of(b / 10));
        lemma_digits_injective(a / 10, b / 10);
    } else if a < 10 && b < 10 {
        assert(digits_of(a)[0] == digit_char(a));
        assert(digits_of(b)[0] == digit_char(b));
    } else {
        assert(digits_of(a).len() != digits_of(b).len());
    }
}

/// Identical work gets the same identifier, and within one kind different
/// keys get different identifiers.
pub proof fn lemma_task_id_identifies_work(kind: TaskKind, a: i64, b: i64)
    ensures
        (prefix_of(kind) + int_text(a as int) == prefix_of(kind) + int_text(b as int)) == (a == b),
{
    let p = prefix_of(kind);
    if p + int_text(a as int) == p + int_text(b as int) {
        let (ta, tb) = (int_text(a as int), int_text(b as int));
        assert(ta =~= (p + ta).subrange(p.len() as int, (p + ta).len() as int));
        assert(tb =~= (p + tb).subrange(p.len() as int, (p + tb).len() as int));
        assert(ta == tb);
        if a < 0 && b < 0 {
            assert(digits_of((-a) as nat) =~= ta.drop_first());
            assert(digits_of((-b) as nat) =~= tb.drop_first());
            lemma_digits_injective((-a) as nat, (-b) as nat);
        } else if a >= 0 && b >= 0 {
            lemma_digits_injective(a as nat, b as nat);
        } else if a < 0 {
            lemma_digits_nonempty(b as nat);
            assert(ta[0] == '-');
            assert(tb[0] != '-') by {
                if b >= 10 {
                    assert(digits_of(b as nat) =~= digits_of((b / 10) as nat).push(digit_char((b % 10) as nat)));
                    lemma_first_digit(b as nat);
                } else {
                    lemma_first_digit(b as nat);
                }
            }
        } else {
            lemma_first_digit(a as nat);
            assert(tb[0] == '-');
        }
    }
}

proof fn lemma_first_digit(n: nat)
    ensures
        digits_of(n).len() >= 1,
        digits_of(n)[0] != '-',
    decreases n,
{
    lemma_digits_nonempty(n);
    if n >= 10 {
        lemma_first_digit(n / 10);
        assert(digits_of(n)[0] == digits_of(n / 10)[0]);
    }
}

} // verus!
