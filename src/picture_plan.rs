//! Which picture downloads to queue for one image set of an entity, and
//! with which tags.

use vstd::prelude::*;
use crate::mal_model::Image;
use crate::text::{int_text, with_number};

verus! {

/// One picture download to queue.
#[derive(Debug, Clone)]
pub struct ImageDownload {
    pub url: String,
    pub tags: Vec<String>,
}

/// The texts of a list of strings.
pub open spec fn texts(v: Seq<String>) -> Seq<Seq<char>> {
    v.map_values(|s: String| s@)
}

/// Tags of an entity's image: entity type, entity id, category, and the
/// sub-category when there is one.
pub open spec fn entity_tags_spec(
    entity_type: Seq<char>,
    entity_id: i32,
    category: Seq<char>,
    sub_category: Option<Seq<char>>,
) -> Seq<Seq<char>> {
    let base = seq![entity_type, int_text(entity_id as int), category];
    match sub_category {
        Some(s) => base.push(s),
        None => base,
    }
}

fn copy_texts(v: &Vec<String>) -> (r: Vec<String>)
    ensures
        texts(r@) == texts(v@),
{
    let mut out: Vec<String> = Vec::new();
    let mut i: usize = 0;
    while i < v.len()
        invariant
            i <= v@.len(),
            out@.len() == i,
            forall|k: int| 0 <= k < i ==> (#[trigger] out@[k])@ == v@[k]@,
        decreases v@.len() - i,
    {
        out.push(v[i].clone());
        i = i + 1;
    }
    assert(texts(out@) =~= texts(v@));
    out
}

/// The tags of an entity's image.
pub fn entity_tags(entity_type: &str, entity_id: i32, category: &str, sub_category: Option<&str>) -> (r:
    Vec<String>)
    ensures
        texts(r@) == entity_tags_spec(
            entity_type@,
            entity_id,
            category@,
            match sub_category {
                Some(s) => Some(s@),
                None => None,
            },
        ),
{
    let mut tags: Vec<String> = Vec::new();
    tags.push(entity_type.to_owned());
    tags.push(with_number("", entity_id as i64));
    tags.push(category.to_owned());
    match sub_category {
        Some(s) => tags.push(s.to_owned()),
        None => {},
    }
    proof {
        reveal_strlit("");
        assert(""@ + int_text(entity_id as int) =~= int_text(entity_id as int));
    }
    assert(texts(tags@) =~= entity_tags_spec(
        entity_type@,
        entity_id,
        category@,
        match sub_category {
            Some(s) => Some(s@),
            None => None,
        },
    ));
    tags
}

/// The downloads that an image gives, as (URL, tags): the main picture
/// when present; the large one when present and different from the main
/// one, tagged "large"; the small one when present and different from both,
/// tagged "small" after the tags of the large one.
pub open spec fn downloads_spec(main: Seq<char>, large: Seq<char>, small: Seq<char>, tags: Seq<
    Seq<char>,
>) -> Seq<(Seq<char>, Seq<Seq<char>>)> {
    let has_main = main.len() > 0;
    let has_large = large.len() > 0 && large != main;
    let has_small = small.len() > 0 && small != main && small != large;
    let large_tags = if has_large {
        tags.push("large"@)
    } else {
        tags
    };
    let first = if has_main {
        seq![(main, tags)]
    } else {
        Seq::empty()
    };
    let second = if has_large {
        first.push((large, large_tags))
    } else {
        first
    };
    if has_small {
        second.push((small, large_tags.push("small"@)))
    } else {
        second
    }
}

/// A download as (URL, tags) texts.
pub open spec fn download_view(d: ImageDownload) -> (Seq<char>, Seq<Seq<char>>) {
    (d.url@, texts(d.tags@))
}

/// Plans the downloads of one image set, each carrying `tags`.
pub fn plan_image_downloads(image: &Image, tags: Vec<String>) -> (r: Vec<ImageDownload>)
    ensures
        r@.map_values(|d: ImageDownload| download_view(d)) == downloads_spec(
            image.image_url@,
            image.large_image_url@,
            image.small_image_url@,
            texts(tags@),
        ),
{
    let ghost t0 = texts(tags@);
    let mut tags = tags;
    let mut out: Vec<ImageDownload> = Vec::new();
    let has_main = !image.image_url.as_str().is_empty();
    if has_main {
        out.push(ImageDownload { url: image.image_url.clone(), tags: copy_texts(&tags) });
    }
    let has_large = !image.large_image_url.as_str().is_empty() && image.large_image_url
        != image.image_url;
    if has_large {
        tags.push("large".to_owned());
        assert(texts(tags@) =~= t0.push("large"@));
        out.push(ImageDownload { url: image.large_image_url.clone(), tags: copy_texts(&tags) });
    }
    let has_small = !image.small_image_url.as_str().is_empty() && image.small_image_url
        != image.image_url && image.small_image_url != image.large_image_url;
    if has_small {
        let ghost before = texts(tags@);
        let mut small_tags = copy_texts(&tags);
        small_tags.push("small".to_owned());
        assert(texts(small_tags@) =~= before.push("small"@));
        out.push(ImageDownload { url: image.small_image_url.clone(), tags: small_tags });
    }
    assert(out@.map_values(|d: ImageDownload| download_view(d)) =~= downloads_spec(
        image.image_url@,
        image.large_image_url@,
        image.small_image_url@,
        t0,
    ));
    out
}

} // verus!
