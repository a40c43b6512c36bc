//! Reading AniList values into the unified record parts.

use vstd::prelude::*;
use crate::anilist_model::{
    CharacterConnection, CharacterEdge, CharacterImage, CharacterName, StaffConnection, StaffEdge,
    StaffImage, StaffName, StaffNode,
};
use crate::mal_convert::{blank_image, url_or_empty};
use crate::mal_model::{
    Character, CharacterInfo, Image, Images, MediaType, Season, Source, Staff, StaffInfo, Status,
    VoiceActor, VoiceActorInfo,
};
use crate::text::{is_text, upper_of, uppercase};

verus! {

/// The media type of an AniList format; Unknown for any other format.
pub open spec fn anilist_format_name(format: Seq<char>) -> Option<MediaType> {
    if format == "TV"@ || format == "TV_SHORT"@ {
        Some(MediaType::TV)
    } else if format == "OVA"@ {
        Some(MediaType::OVA)
    } else if format == "MOVIE"@ {
        Some(MediaType::Movie)
    } else if format == "SPECIAL"@ {
        Some(MediaType::Special)
    } else if format == "ONA"@ {
        Some(MediaType::ONA)
    } else if format == "MUSIC"@ {
        Some(MediaType::Music)
    } else {
        Some(MediaType::Unknown)
    }
}

/// The media type of an AniList format; Unknown for any other format.
pub fn parse_anilist_format(format: &str) -> (r: Option<MediaType>)
    ensures
        r == anilist_format_name(format@),
{
    let t = format.to_owned();
    if is_text(&t, "TV") || is_text(&t, "TV_SHORT") {
        Some(MediaType::TV)
    } else if is_text(&t, "OVA") {
        Some(MediaType::OVA)
    } else if is_text(&t, "MOVIE") {
        Some(MediaType::Movie)
    } else if is_text(&t, "SPECIAL") {
        Some(MediaType::Special)
    } else if is_text(&t, "ONA") {
        Some(MediaType::ONA)
    } else if is_text(&t, "MUSIC") {
        Some(MediaType::Music)
    } else {
        Some(MediaType::Unknown)
    }
}

/// The airing status of an AniList status; cancelled shows count as finished.
pub open spec fn anilist_status_name(status: Seq<char>) -> Option<Status> {
    if status == "FINISHED"@ || status == "CANCELLED"@ {
        Some(Status::FinishedAiring)
    } else if status == "RELEASING"@ {
        Some(Status::CurrentlyAiring)
    } else if status == "NOT_YET_RELEASED"@ {
        Some(Status::NotYetAired)
    } else {
        None
    }
}

/// The airing status of an AniList status; cancelled shows count as finished.
pub fn parse_anilist_status(status: &str) -> (r: Option<Status>)
    ensures
        r == anilist_status_name(status@),
{
    let t = status.to_owned();
    if is_text(&t, "FINISHED") || is_text(&t, "CANCELLED") {
        Some(Status::FinishedAiring)
    } else if is_text(&t, "RELEASING") {
        Some(Status::CurrentlyAiring)
    } else if is_text(&t, "NOT_YET_RELEASED") {
        Some(Status::NotYetAired)
    } else {
        None
    }
}

/// The source material of an AniList source; Other for any other source.
pub open spec fn anilist_source_name(source: Seq<char>) -> Option<Source> {
    if source == "ORIGINAL"@ || source == "ANIME"@ {
        Some(Source::Original)
    } else if source == "MANGA"@ || source == "DOUJINSHI"@ || source == "COMIC"@ {
        Some(Source::Manga)
    } else if source == "LIGHT_NOVEL"@ {
        Some(Source::LightNovel)
    } else if source == "VISUAL_NOVEL"@ {
        Some(Source::VisualNovel)
    } else if source == "VIDEO_GAME"@ || source == "GAME"@ {
        Some(Source::Game)
    } else if source == "NOVEL"@ || source == "WEB_NOVEL"@ {
        Some(Source::Novel)
    } else if source == "PICTURE_BOOK"@ {
        Some(Source::PictureBook)
    } else {
        Some(Source::Other)
    }
}

/// The source material of an AniList source; Other for any other source.
pub fn parse_anilist_source(source: &str) -> (r: Option<Source>)
    ensures
        r == anilist_source_name(source@),
{
    let t = source.to_owned();
    if is_text(&t, "ORIGINAL") || is_text(&t, "ANIME") {
        Some(Source::Original)
    } else if is_text(&t, "MANGA") || is_text(&t, "DOUJINSHI") || is_text(&t, "COMIC") {
        Some(Source::Manga)
    } else if is_text(&t, "LIGHT_NOVEL") {
        Some(Source::LightNovel)
    } else if is_text(&t, "VISUAL_NOVEL") {
        Some(Source::VisualNovel)
    } else if is_text(&t, "VIDEO_GAME") || is_text(&t, "GAME") {
        Some(Source::Game)
    } else if is_text(&t, "NOVEL") || is_text(&t, "WEB_NOVEL") {
        Some(Source::Novel)
    } else if is_text(&t, "PICTURE_BOOK") {
        Some(Source::PictureBook)
    } else {
        Some(Source::Other)
    }
}

/// The season an uppercase name stands for.
pub open spec fn anilist_season_name(u: Seq<char>) -> Option<Season> {
    if u == "SPRING"@ {
        Some(Season::Spring)
    } else if u == "SUMMER"@ {
        Some(Season::Summer)
    } else if u == "FALL"@ || u == "AUTUMN"@ {
        Some(Season::Fall)
    } else if u == "WINTER"@ {
        Some(Season::Winter)
    } else {
        None
    }
}

/// The season an uppercase name stands for.
pub fn season_from_uppercase(u: &str) -> (r: Option<Season>)
    ensures
        r == anilist_season_name(u@),
{
    let t = u.to_owned();
    if is_text(&t, "SPRING") {
        Some(Season::Spring)
    } else if is_text(&t, "SUMMER") {
        Some(Season::Summer)
    } else if is_text(&t, "FALL") || is_text(&t, "AUTUMN") {
        Some(Season::Fall)
    } else if is_text(&t, "WINTER") {
        Some(Season::Winter)
    } else {
        None
    }
}

/// The season of an AniList name, compared without regard to case.
pub fn parse_anilist_season(season: &str) -> (r: Option<Season>)
    ensures
        r == anilist_season_name(upper_of(season@)),
{
    let u = uppercase(season);
    season_from_uppercase(u.as_str())
}

/// An image with every URL empty, for records that have none.
fn empty_image() -> (r: Image)
    ensures
        blank_image(r),
{
    Image { image_url: String::new(), small_image_url: String::new(), large_image_url: String::new() }
}

/// Images with every URL empty, for records that have none.
pub fn default_images() -> (r: Images)
    ensures
        blank_image(r.jpg),
        blank_image(r.webp),
{
    Images { jpg: empty_image(), webp: empty_image() }
}

/// The text held by an optional string, empty when absent.
fn text_of(o: &Option<String>) -> (r: String)
    ensures
        r@ == url_or_empty(*o),
{
    match o {
        Some(s) => s.clone(),
        None => String::new(),
    }
}

/// The text held by an optional string, or `fallback` when absent.
pub open spec fn text_or(o: Option<String>, fallback: Seq<char>) -> Seq<char> {
    match o {
        Some(s) => s@,
        None => fallback,
    }
}

fn text_or_else(o: &Option<String>, fallback: &str) -> (r: String)
    ensures
        r@ == text_or(*o, fallback@),
{
    match o {
        Some(s) => s.clone(),
        None => fallback.to_owned(),
    }
}

/// Unified images from an AniList large and medium picture: the JPEG set
/// uses the large one as main and large picture and the medium one as small
/// picture; the WebP set is empty.
pub open spec fn portrait_matches(i: Images, large: Seq<char>, medium: Seq<char>) -> bool {
    &&& i.jpg.image_url@ == large
    &&& i.jpg.small_image_url@ == medium
    &&& i.jpg.large_image_url@ == large
    &&& blank_image(i.webp)
}

fn portrait(large: &Option<String>, medium: &Option<String>) -> (r: Images)
    ensures
        portrait_matches(r, url_or_empty(*large), url_or_empty(*medium)),
{
    Images {
        jpg: Image {
            image_url: text_of(large),
            small_image_url: text_of(medium),
            large_image_url: text_of(large),
        },
        webp: empty_image(),
    }
}

pub open spec fn character_large(i: Option<CharacterImage>) -> Seq<char> {
    match i {
        Some(i) => url_or_empty(i.large),
        None => Seq::empty(),
    }
}

pub open spec fn character_medium(i: Option<CharacterImage>) -> Seq<char> {
    match i {
        Some(i) => url_or_empty(i.medium),
        None => Seq::empty(),
    }
}

pub open spec fn character_full_name(n: Option<CharacterName>) -> Seq<char> {
    match n {
        Some(n) => url_or_empty(n.full),
        None => Seq::empty(),
    }
}

pub open spec fn staff_large(i: Option<StaffImage>) -> Seq<char> {
    match i {
        Some(i) => url_or_empty(i.large),
        None => Seq::empty(),
    }
}

pub open spec fn staff_medium(i: Option<StaffImage>) -> Seq<char> {
    match i {
        Some(i) => url_or_empty(i.medium),
        None => Seq::empty(),
    }
}

pub open spec fn staff_full_name(n: Option<StaffName>) -> Seq<char> {
    match n {
        Some(n) => url_or_empty(n.full),
        None => Seq::empty(),
    }
}

fn character_portrait(i: &Option<CharacterImage>) -> (r: Images)
    ensures
        portrait_matches(r, character_large(*i), character_medium(*i)),
{
    match i {
        Some(img) => portrait(&img.large, &img.medium),
        None => portrait(&None, &None),
    }
}

fn staff_portrait(i: &Option<StaffImage>) -> (r: Images)
    ensures
        portrait_matches(r, staff_large(*i), staff_medium(*i)),
{
    match i {
        Some(img) => portrait(&img.large, &img.medium),
        None => portrait(&None, &None),
    }
}

fn character_name(n: &Option<CharacterName>) -> (r: String)
    ensures
        r@ == character_full_name(*n),
{
    match n {
        Some(n) => text_of(&n.full),
        None => String::new(),
    }
}

fn staff_name(n: &Option<StaffName>) -> (r: String)
    ensures
        r@ == staff_full_name(*n),
{
    match n {
        Some(n) => text_of(&n.full),
        None => String::new(),
    }
}

/// A voice actor built from an AniList staff node; the language defaults
/// to "Unknown".
pub open spec fn voice_actor_matches(v: VoiceActor, n: StaffNode) -> bool {
    &&& v.person.mal_id == n.id
    &&& v.person.url@ == url_or_empty(n.site_url)
    &&& portrait_matches(v.person.images, staff_large(n.image), staff_medium(n.image))
    &&& v.person.name@ == staff_full_name(n.name)
    &&& v.language@ == text_or(n.language, "Unknown"@)
}

/// A character built from an AniList character edge that has a node; the
/// role defaults to "BACKGROUND" and the voice actors keep their order.
pub open spec fn character_matches(c: Character, e: CharacterEdge) -> bool {
    &&& e.node matches Some(n)
    &&& c.character.mal_id == n.id
    &&& c.character.url@ == url_or_empty(n.site_url)
    &&& portrait_matches(c.character.images, character_large(n.image), character_medium(n.image))
    &&& c.character.name@ == character_full_name(n.name)
    &&& c.role@ == text_or(e.role, "BACKGROUND"@)
    &&& c.voice_actors@.len() == e.voice_actors@.len()
    &&& forall|i: int|
        0 <= i < c.voice_actors@.len() ==> voice_actor_matches(
            #[trigger] c.voice_actors@[i],
            e.voice_actors@[i],
        )
}

/// Staff built from an AniList staff edge that has a node; the role, when
/// present, is the only position.
pub open spec fn staff_matches(s: Staff, e: StaffEdge) -> bool {
    &&& e.node matches Some(n)
    &&& s.person.mal_id == n.id
    &&& s.person.url@ == url_or_empty(n.site_url)
    &&& portrait_matches(s.person.images, staff_large(n.image), staff_medium(n.image))
    &&& s.person.name@ == staff_full_name(n.name)
    &&& match e.role {
        Some(r) => s.positions@.len() == 1 && s.positions@[0]@ == r@,
        None => s.positions@.len() == 0,
    }
}

/// The character edges that carry a node, in order.
pub open spec fn characters_with_node(es: Seq<CharacterEdge>) -> Seq<CharacterEdge>
    decreases es.len(),
{
    if es.len() == 0 {
        es
    } else if es.last().node is Some {
        characters_with_node(es.drop_last()).push(es.last())
    } else {
        characters_with_node(es.drop_last())
    }
}

/// The staff edges that carry a node, in order.
pub open spec fn staff_with_node(es: Seq<StaffEdge>) -> Seq<StaffEdge>
    decreases es.len(),
{
    if es.len() == 0 {
        es
    } else if es.last().node is Some {
        staff_with_node(es.drop_last()).push(es.last())
    } else {
        staff_with_node(es.drop_last())
    }
}

fn voice_actor(n: &StaffNode) -> (r: VoiceActor)
    ensures
        voice_actor_matches(r, *n),
{
    VoiceActor {
        person: VoiceActorInfo {
            mal_id: n.id,
            url: text_of(&n.site_url),
            images: staff_portrait(&n.image),
            name: staff_name(&n.name),
        },
        language: text_or_else(&n.language, "Unknown"),
    }
}

fn character_of(e: &CharacterEdge) -> (r: Option<Character>)
    ensures
        e.node is None ==> r is None,
        e.node is Some ==> (r matches Some(c) && character_matches(c, *e)),
{
    match &e.node {
        None => None,
        Some(node) => {
            let mut voice_actors: Vec<VoiceActor> = Vec::new();
            let mut i: usize = 0;
            while i < e.voice_actors.len()
                invariant
                    i <= e.voice_actors@.len(),
                    voice_actors@.len() == i,
                    forall|j: int|
                        0 <= j < i ==> voice_actor_matches(
                            #[trigger] voice_actors@[j],
                            e.voice_actors@[j],
                        ),
                decreases e.voice_actors@.len() - i,
            {
                voice_actors.push(voice_actor(&e.voice_actors[i]));
                i = i + 1;
            }
            Some(Character {
                character: CharacterInfo {
                    mal_id: node.id,
                    url: text_of(&node.site_url),
                    images: character_portrait(&node.image),
                    name: character_name(&node.name),
                },
                role: text_or_else(&e.role, "BACKGROUND"),
                voice_actors,
            })
        },
    }
}

fn staff_of(e: &StaffEdge) -> (r: Option<Staff>)
    ensures
        e.node is None ==> r is None,
        e.node is Some ==> (r matches Some(s) && staff_matches(s, *e)),
{
    match &e.node {
        None => None,
        Some(node) => {
            let mut positions: Vec<String> = Vec::new();
            match &e.role {
                Some(r) => positions.push(r.clone()),
                None => {},
            }
            Some(Staff {
                person: StaffInfo {
                    mal_id: node.id,
                    url: text_of(&node.site_url),
                    images: staff_portrait(&node.image),
                    name: staff_name(&node.name),
                },
                positions,
            })
        },
    }
}

/// The characters of an AniList character connection: one per edge that
/// has a node, in edge order; none when the connection or its edges are
/// absent.
pub fn convert_anilist_characters(characters: &Option<CharacterConnection>) -> (r: Vec<Character>)
    ensures
        match characters {
            Some(CharacterConnection { edges: Some(es) }) => {
                &&& r@.len() == characters_with_node(es@).len()
                &&& forall|i: int|
                    0 <= i < r@.len() ==> character_matches(
                        #[trigger] r@[i],
                        characters_with_node(es@)[i],
                    )
            },
            _ => r@.len() == 0,
        },
{
    let mut out: Vec<Character> = Vec::new();
    match characters {
        Some(CharacterConnection { edges: Some(es) }) => {
            let mut i: usize = 0;
            while i < es.len()
                invariant
                    i <= es@.len(),
                    out@.len() == characters_with_node(es@.take(i as int)).len(),
                    forall|j: int|
                        0 <= j < out@.len() ==> character_matches(
                            #[trigger] out@[j],
                            characters_with_node(es@.take(i as int))[j],
                        ),
                decreases es@.len() - i,
            {
                let ghost before = characters_with_node(es@.take(i as int));
                assert(es@.take(i + 1).drop_last() =~= es@.take(i as int));
                assert(es@.take(i + 1).last() == es@[i as int]);
                match character_of(&es[i]) {
                    Some(c) => {
                        out.push(c);
                    },
                    None => {},
                }
                proof {
                    let after = characters_with_node(es@.take(i + 1));
                    assert forall|j: int| 0 <= j < out@.len() implies character_matches(
                        #[trigger] out@[j],
                        after[j],
                    ) by {
                        if j < before.len() {
                            assert(after[j] == before[j]);
                        }
                    }
                }
                i = i + 1;
            }
            assert(es@.take(es@.len() as int) =~= es@);
        },
        _ => {},
    }
    out
}

/// The staff of an AniList staff connection: one per edge that has a node,
/// in edge order; none when the connection or its edges are absent.
pub fn convert_anilist_staff(staff: &Option<StaffConnection>) -> (r: Vec<Staff>)
    ensures
        match staff {
            Some(StaffConnection { edges: Some(es) }) => {
                &&& r@.len() == staff_with_node(es@).len()
                &&& forall|i: int|
                    0 <= i < r@.len() ==> staff_matches(#[trigger] r@[i], staff_with_node(es@)[i])
            },
            _ => r@.len() == 0,
        },
{
    let mut out: Vec<Staff> = Vec::new();
    match staff {
        Some(StaffConnection { edges: Some(es) }) => {
            let mut i: usize = 0;
            while i < es.len()
                invariant
                    i <= es@.len(),
                    out@.len() == staff_with_node(es@.take(i as int)).len(),
                    forall|j: int|
                        0 <= j < out@.len() ==> staff_matches(
                            #[trigger] out@[j],
                            staff_with_node(es@.take(i as int))[j],
                        ),
                decreases es@.len() - i,
            {
                let ghost before = staff_with_node(es@.take(i as int));
                assert(es@.take(i + 1).drop_last() =~= es@.take(i as int));
                assert(es@.take(i + 1).last() == es@[i as int]);
                match staff_of(&es[i]) {
                    Some(s) => {
                        out.push(s);
                    },
                    None => {},
                }
                proof {
                    let after = staff_with_node(es@.take(i + 1));
                    assert forall|j: int| 0 <= j < out@.len() implies staff_matches(
                        #[trigger] out@[j],
                        after[j],
                    ) by {
                        if j < before.len() {
                            assert(after[j] == before[j]);
                        }
                    }
                }
                i = i + 1;
            }
            assert(es@.take(es@.len() as int) =~= es@);
        },
        _ => {},
    }
    out
}

} // verus!
