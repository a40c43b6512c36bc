//! Grouping related entries by relation type, for both sources.

use vstd::prelude::*;
use crate::anilist_model::{MediaConnection, MediaEdge, MediaTitle};
use crate::mal_model::{MalRelatedAnime, MalRelatedManga, Relation, RelationEntry};
use crate::anilist_convert::text_or;
use crate::text::{int_text, lower_of, lowercase, with_number};

verus! {

/// Two entries hold the same values.
pub open spec fn same_entry(a: RelationEntry, b: RelationEntry) -> bool {
    &&& a.id == b.id
    &&& a.mal_id == b.mal_id
    &&& a.entry_type@ == b.entry_type@
    &&& a.name@ == b.name@
    &&& a.url@ == b.url@
}

fn copy_entry(e: &RelationEntry) -> (r: RelationEntry)
    ensures
        same_entry(r, *e),
{
    RelationEntry {
        id: e.id,
        mal_id: e.mal_id,
        entry_type: e.entry_type.clone(),
        name: e.name.clone(),
        url: e.url.clone(),
    }
}

/// The entries of the pairs whose relation type is `t`, in order.
pub open spec fn entries_of_type(ps: Seq<(String, RelationEntry)>, t: Seq<char>) -> Seq<RelationEntry>
    decreases ps.len(),
{
    if ps.len() == 0 {
        Seq::empty()
    } else if ps.last().0@ == t {
        entries_of_type(ps.drop_last(), t).push(ps.last().1)
    } else {
        entries_of_type(ps.drop_last(), t)
    }
}

/// `r` has the entries of `ps` grouped by relation type: one relation per
/// type that occurs, each holding that type's entries in their order.
pub open spec fn grouped(r: Seq<Relation>, ps: Seq<(String, RelationEntry)>) -> bool {
    &&& forall|i: int, j: int|
        0 <= i < j < r.len() ==> (#[trigger] r[i]).relation@ != (#[trigger] r[j]).relation@
    &&& forall|k: int| 0 <= k < r.len() ==> (#[trigger] r[k]).id is None && r[k].entry@.len()
        == entries_of_type(ps, r[k].relation@).len() && forall|j: int|
        0 <= j < r[k].entry@.len() ==> same_entry(
            #[trigger] r[k].entry@[j],
            entries_of_type(ps, r[k].relation@)[j],
        )
    &&& forall|p: int| 0 <= p < ps.len() ==> has_relation(r, (#[trigger] ps[p]).0@)
}

/// Some relation of `r` has type `t`.
pub open spec fn has_relation(r: Seq<Relation>, t: Seq<char>) -> bool {
    exists|k: int| 0 <= k < r.len() && (#[trigger] r[k]).relation@ == t
}

/// Some text of `ts` equals `t`.
pub open spec fn covers(ts: Seq<String>, t: Seq<char>) -> bool {
    exists|k: int| 0 <= k < ts.len() && (#[trigger] ts[k])@ == t
}

fn contains_text(ts: &Vec<String>, t: &String) -> (r: bool)
    ensures
        r == covers(ts@, t@),
{
    let mut i: usize = 0;
    while i < ts.len()
        invariant
            i <= ts@.len(),
            forall|k: int| 0 <= k < i ==> (#[trigger] ts@[k])@ != t@,
        decreases ts@.len() - i,
    {
        if ts[i] == *t {
            return true;
        }
        i = i + 1;
    }
    false
}

fn entries_for(ps: &Vec<(String, RelationEntry)>, t: &String) -> (r: Vec<RelationEntry>)
    ensures
        r@.len() == entries_of_type(ps@, t@).len(),
        forall|j: int| 0 <= j < r@.len() ==> same_entry(#[trigger] r@[j], entries_of_type(ps@, t@)[j]),
{
    let mut out: Vec<RelationEntry> = Vec::new();
    let mut i: usize = 0;
    while i < ps.len()
        invariant
            i <= ps@.len(),
            out@.len() == entries_of_type(ps@.take(i as int), t@).len(),
            forall|j: int|
                0 <= j < out@.len() ==> same_entry(
                    #[trigger] out@[j],
                    entries_of_type(ps@.take(i as int), t@)[j],
                ),
        decreases ps@.len() - i,
    {
        let ghost before = entries_of_type(ps@.take(i as int), t@);
        assert(ps@.take(i + 1).drop_last() =~= ps@.take(i as int));
        assert(ps@.take(i + 1).last() == ps@[i as int]);
        if ps[i].0 == *t {
            out.push(copy_entry(&ps[i].1));
        }
        proof {
            let after = entries_of_type(ps@.take(i + 1), t@);
            assert forall|j: int| 0 <= j < out@.len() implies same_entry(
                #[trigger] out@[j],
                after[j],
            ) by {
                if j < before.len() {
                    assert(after[j] == before[j]);
                }
            }
        }
        i = i + 1;
    }
    assert(ps@.take(ps@.len() as int) =~= ps@);
    out
}

/// Groups (relation type, entry) pairs by type: the types in order of first
/// appearance, each with its entries in order.
pub fn group_relations(ps: &Vec<(String, RelationEntry)>) -> (r: Vec<Relation>)
    ensures
        grouped(r@, ps@),
{
    let mut types: Vec<String> = Vec::new();
    let mut i: usize = 0;
    while i < ps.len()
        invariant
            i <= ps@.len(),
            forall|a: int, b: int|
                0 <= a < b < types@.len() ==> (#[trigger] types@[a])@ != (#[trigger] types@[b])@,
            forall|p: int| 0 <= p < i ==> covers(types@, (#[trigger] ps@[p]).0@),
        decreases ps@.len() - i,
    {
        if !contains_text(&types, &ps[i].0) {
            let ghost before = types@;
            types.push(ps[i].0.clone());
            proof {
                assert forall|p: int| 0 <= p < i + 1 implies covers(types@, (#[trigger] ps@[p]).0@) by {
                    if p < i {
                        let k = choose|k: int| 0 <= k < before.len() && (#[trigger] before[k])@ == ps@[p].0@;
                        assert(types@[k] == before[k]);
                    } else {
                        assert(types@[before.len() as int]@ == ps@[p].0@);
                    }
                }
                assert forall|a: int, b: int|
                    0 <= a < b < types@.len() implies (#[trigger] types@[a])@ != (
                    #[trigger] types@[b])@ by {
                    assert(types@[a] == before[a]);
                    if b < before.len() {
                        assert(types@[b] == before[b]);
                    }
                }
            }
        }
        i = i + 1;
    }
    let mut out: Vec<Relation> = Vec::new();
    let mut k: usize = 0;
    while k < types.len()
        invariant
            k <= types@.len(),
            out@.len() == k,
            forall|p: int| 0 <= p < ps@.len() ==> covers(types@, (#[trigger] ps@[p]).0@),
            forall|m: int| 0 <= m < k ==> (#[trigger] out@[m]).relation@ == types@[m]@,
            forall|a: int, b: int|
                0 <= a < b < types@.len() ==> (#[trigger] types@[a])@ != (#[trigger] types@[b])@,
            forall|m: int| 0 <= m < out@.len() ==> (#[trigger] out@[m]).id is None && out@[m].entry@.len()
                == entries_of_type(ps@, out@[m].relation@).len() && forall|j: int|
                0 <= j < out@[m].entry@.len() ==> same_entry(
                    #[trigger] out@[m].entry@[j],
                    entries_of_type(ps@, out@[m].relation@)[j],
                ),
        decreases types@.len() - k,
    {
        let t = types[k].clone();
        let entry = entries_for(ps, &t);
        out.push(Relation { id: None, relation: t, entry });
        k = k + 1;
    }
    proof {
        assert forall|a: int, b: int| 0 <= a < b < out@.len() implies (#[trigger] out@[a]).relation@
            != (#[trigger] out@[b]).relation@ by {
            assert(out@[a].relation@ == types@[a]@ && out@[b].relation@ == types@[b]@);
        }
        assert forall|p: int| 0 <= p < ps@.len() implies has_relation(out@, (#[trigger] ps@[p]).0@) by {
            assert(covers(types@, ps@[p].0@));
            let m = choose|m: int| 0 <= m < types@.len() && (#[trigger] types@[m])@ == ps@[p].0@;
            assert(out@[m].relation@ == types@[m]@);
        }
    }
    out
}

/// The pair that a MyAnimeList related item gives: its formatted relation
/// type, and an entry of kind `kind` whose URL is `base` and the node id.
pub open spec fn mal_pair_ok(
    p: (String, RelationEntry),
    relation: Seq<char>,
    id: i32,
    title: Seq<char>,
    kind: Seq<char>,
    base: Seq<char>,
) -> bool {
    &&& p.0@ == relation
    &&& p.1.id is None
    &&& p.1.mal_id == id
    &&& p.1.entry_type@ == kind
    &&& p.1.name@ == title
    &&& p.1.url@ == base + int_text(id as int)
}

pub open spec fn anime_pair_ok(p: (String, RelationEntry), r: MalRelatedAnime) -> bool {
    mal_pair_ok(
        p,
        r.relation_type_formatted@,
        r.node.id,
        r.node.title@,
        "anime"@,
        "https://myanimelist.net/anime/"@,
    )
}

pub open spec fn manga_pair_ok(p: (String, RelationEntry), r: MalRelatedManga) -> bool {
    mal_pair_ok(
        p,
        r.relation_type_formatted@,
        r.node.id,
        r.node.title@,
        "manga"@,
        "https://myanimelist.net/manga/"@,
    )
}

fn mal_pair(relation: &String, id: i32, title: &String, kind: &str, base: &str) -> (r: (
    String,
    RelationEntry,
))
    ensures
        mal_pair_ok(r, relation@, id, title@, kind@, base@),
{
    (
        relation.clone(),
        RelationEntry {
            id: None,
            mal_id: id,
            entry_type: kind.to_owned(),
            name: title.clone(),
            url: with_number(base, id as i64),
        },
    )
}

/// MyAnimeList relations grouped by formatted relation type: the related
/// anime first, then the related manga, each entry linking to its page.
pub fn convert_mal_relations(
    anime_relations: &[MalRelatedAnime],
    manga_relations: &[MalRelatedManga],
) -> (r: Vec<Relation>)
    ensures
        exists|ps: Seq<(String, RelationEntry)>|
            ps.len() == anime_relations@.len() + manga_relations@.len() && (forall|i: int|
                0 <= i < anime_relations@.len() ==> anime_pair_ok(
                    #[trigger] ps[i],
                    anime_relations@[i],
                )) && (forall|j: int|
                0 <= j < manga_relations@.len() ==> manga_pair_ok(
                    ps[anime_relations@.len() + j],
                    #[trigger] manga_relations@[j],
                )) && grouped(r@, ps),
{
    let mut ps: Vec<(String, RelationEntry)> = Vec::new();
    let mut i: usize = 0;
    while i < anime_relations.len()
        invariant
            i <= anime_relations@.len(),
            ps@.len() == i,
            forall|k: int| 0 <= k < i ==> anime_pair_ok(#[trigger] ps@[k], anime_relations@[k]),
        decreases anime_relations@.len() - i,
    {
        let rel = &anime_relations[i];
        ps.push(
            mal_pair(
                &rel.relation_type_formatted,
                rel.node.id,
                &rel.node.title,
                "anime",
                "https://myanimelist.net/anime/",
            ),
        );
        i = i + 1;
    }
    let n = anime_relations.len();
    let mut j: usize = 0;
    while j < manga_relations.len()
        invariant
            n == anime_relations@.len(),
            j <= manga_relations@.len(),
            ps@.len() == n + j,
            forall|k: int| 0 <= k < n ==> anime_pair_ok(#[trigger] ps@[k], anime_relations@[k]),
            forall|k: int| 0 <= k < j ==> manga_pair_ok(ps@[n + k], #[trigger] manga_relations@[k]),
        decreases manga_relations@.len() - j,
    {
        let rel = &manga_relations[j];
        ps.push(
            mal_pair(
                &rel.relation_type_formatted,
                rel.node.id,
                &rel.node.title,
                "manga",
                "https://myanimelist.net/manga/",
            ),
        );
        j = j + 1;
    }
    let r = group_relations(&ps);
    assert(grouped(r@, ps@));
    r
}

/// The AniList edges that carry both a relation type and a node, in order.
pub open spec fn relation_edges(es: Seq<MediaEdge>) -> Seq<MediaEdge>
    decreases es.len(),
{
    if es.len() == 0 {
        es
    } else if es.last().relation_type is Some && es.last().node is Some {
        relation_edges(es.drop_last()).push(es.last())
    } else {
        relation_edges(es.drop_last())
    }
}

/// Display name of a related AniList entry: its romaji title, else its
/// English title, else "Unknown" and its id.
pub open spec fn related_name(t: Option<MediaTitle>, id: i32) -> Seq<char> {
    let unknown = "Unknown "@ + int_text(id as int);
    match t {
        Some(t) => match t.romaji {
            Some(r) => r@,
            None => match t.english {
                Some(e) => e@,
                None => unknown,
            },
        },
        None => unknown,
    }
}

/// The pair that an AniList relation edge gives.
pub open spec fn anilist_pair_ok(p: (String, RelationEntry), e: MediaEdge) -> bool {
    &&& e.relation_type matches Some(t)
    &&& e.node matches Some(n)
    &&& p.0@ == t@
    &&& p.1.id is None
    &&& p.1.mal_id == n.id
    &&& p.1.entry_type@ == lower_of(text_or(n.media_type, "ANIME"@))
    &&& p.1.name@ == related_name(n.title, n.id)
    &&& p.1.url@ == "https://anilist.co/anime/"@ + int_text(n.id as int)
}

fn related_title(t: &Option<MediaTitle>, id: i32) -> (r: String)
    ensures
        r@ == related_name(*t, id),
{
    match t {
        Some(MediaTitle { romaji: Some(r), .. }) => r.clone(),
        Some(MediaTitle { romaji: None, english: Some(e), .. }) => e.clone(),
        _ => with_number("Unknown ", id as i64),
    }
}

fn anilist_pair(e: &MediaEdge) -> (r: Option<(String, RelationEntry)>)
    ensures
        (e.relation_type is Some && e.node is Some) ==> (r matches Some(p) && anilist_pair_ok(p, *e)),
        !(e.relation_type is Some && e.node is Some) ==> r is None,
{
    match (&e.relation_type, &e.node) {
        (Some(t), Some(n)) => {
            let kind = match &n.media_type {
                Some(m) => lowercase(m.as_str()),
                None => lowercase("ANIME"),
            };
            Some(
                (
                    t.clone(),
                    RelationEntry {
                        id: None,
                        mal_id: n.id,
                        entry_type: kind,
                        name: related_title(&n.title, n.id),
                        url: with_number("https://anilist.co/anime/", n.id as i64),
                    },
                ),
            )
        },
        _ => None,
    }
}

/// AniList relations grouped by relation type, from the edges that carry a
/// type and a node; none when the connection or its edges are absent.
pub fn convert_anilist_relations(relations: &Option<MediaConnection>) -> (r: Vec<Relation>)
    ensures
        match relations {
            Some(MediaConnection { edges: Some(es) }) => exists|ps: Seq<(String, RelationEntry)>|
                ps.len() == relation_edges(es@).len() && (forall|i: int|
                    0 <= i < ps.len() ==> anilist_pair_ok(
                        #[trigger] ps[i],
                        relation_edges(es@)[i],
                    )) && grouped(r@, ps),
            _ => r@.len() == 0,
        },
{
    match relations {
        Some(MediaConnection { edges: Some(es) }) => {
            let mut ps: Vec<(String, RelationEntry)> = Vec::new();
            let mut i: usize = 0;
            while i < es.len()
                invariant
                    i <= es@.len(),
                    ps@.len() == relation_edges(es@.take(i as int)).len(),
                    forall|k: int|
                        0 <= k < ps@.len() ==> anilist_pair_ok(
                            #[trigger] ps@[k],
                            relation_edges(es@.take(i as int))[k],
                        ),
                decreases es@.len() - i,
            {
                let ghost before = relation_edges(es@.take(i as int));
                assert(es@.take(i + 1).drop_last() =~= es@.take(i as int));
                assert(es@.take(i + 1).last() == es@[i as int]);
                match anilist_pair(&es[i]) {
                    Some(p) => ps.push(p),
                    None => {},
                }
                proof {
                    let after = relation_edges(es@.take(i + 1));
                    assert forall|k: int| 0 <= k < ps@.len() implies anilist_pair_ok(
                        #[trigger] ps@[k],
                        after[k],
                    ) by {
                        if k < before.len() {
                            assert(after[k] == before[k]);
                        }
                    }
                }
                i = i + 1;
            }
            assert(es@.take(es@.len() as int) =~= es@);
            let r = group_relations(&ps);
            assert(grouped(r@, ps@));
            r
        },
        _ => Vec::new(),
    }
}

} // verus!
