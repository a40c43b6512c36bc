//! Reading MyAnimeList and Jikan values into the unified record parts.

use vstd::prelude::*;
use crate::mal_model::{
    DayOfTheWeek, Image, Images, JikanImage, JikanImages, MediaType, NSFW, Rating, Season, Source,
    Status,
};
use crate::text::{is_text, lower_of, lowercase};

verus! {

/// The media type a lowercase MyAnimeList name stands for; Unknown for any other name.
pub open spec fn media_type_name(l: Seq<char>) -> Option<MediaType> {
    if l == "tv"@ {
        Some(MediaType::TV)
    } else if l == "ova"@ {
        Some(MediaType::OVA)
    } else if l == "movie"@ {
        Some(MediaType::Movie)
    } else if l == "special"@ {
        Some(MediaType::Special)
    } else if l == "ona"@ {
        Some(MediaType::ONA)
    } else if l == "music"@ {
        Some(MediaType::Music)
    } else {
        Some(MediaType::Unknown)
    }
}

/// The media type a lowercase MyAnimeList name stands for; Unknown for any other name.
pub fn media_type_from_lowercase(l: &str) -> (r: Option<MediaType>)
    ensures
        r == media_type_name(l@),
{
    let t = l.to_owned();
    if is_text(&t, "tv") {
        Some(MediaType::TV)
    } else if is_text(&t, "ova") {
        Some(MediaType::OVA)
    } else if is_text(&t, "movie") {
        Some(MediaType::Movie)
    } else if is_text(&t, "special") {
        Some(MediaType::Special)
    } else if is_text(&t, "ona") {
        Some(MediaType::ONA)
    } else if is_text(&t, "music") {
        Some(MediaType::Music)
    } else {
        Some(MediaType::Unknown)
    }
}

/// The content rating flag a MyAnimeList name stands for.
pub open spec fn nsfw_name(s: Seq<char>) -> Option<NSFW> {
    if s == "white"@ {
        Some(NSFW::White)
    } else if s == "gray"@ {
        Some(NSFW::Gray)
    } else if s == "black"@ {
        Some(NSFW::Black)
    } else {
        None
    }
}

/// The content rating flag a MyAnimeList name stands for.
pub fn parse_nsfw(s: &str) -> (r: Option<NSFW>)
    ensures
        r == nsfw_name(s@),
{
    let t = s.to_owned();
    if is_text(&t, "white") {
        Some(NSFW::White)
    } else if is_text(&t, "gray") {
        Some(NSFW::Gray)
    } else if is_text(&t, "black") {
        Some(NSFW::Black)
    } else {
        None
    }
}

/// The source material a MyAnimeList name stands for; Other for any other name.
pub open spec fn source_name(s: Seq<char>) -> Option<Source> {
    if s == "original"@ {
        Some(Source::Original)
    } else if s == "manga"@ {
        Some(Source::Manga)
    } else if s == "4_koma_manga"@ {
        Some(Source::FourKomaManga)
    } else if s == "web_manga"@ {
        Some(Source::WebManga)
    } else if s == "digital_manga"@ {
        Some(Source::DigitalManga)
    } else if s == "novel"@ {
        Some(Source::Novel)
    } else if s == "light_novel"@ {
        Some(Source::LightNovel)
    } else if s == "visual_novel"@ {
        Some(Source::VisualNovel)
    } else if s == "game"@ {
        Some(Source::Game)
    } else if s == "card_game"@ {
        Some(Source::CardGame)
    } else if s == "book"@ {
        Some(Source::Book)
    } else if s == "picture_book"@ {
        Some(Source::PictureBook)
    } else if s == "radio"@ {
        Some(Source::Radio)
    } else if s == "music"@ {
        Some(Source::Music)
    } else {
        Some(Source::Other)
    }
}

/// The source material a MyAnimeList name stands for; Other for any other name.
pub fn parse_source(s: &str) -> (r: Option<Source>)
    ensures
        r == source_name(s@),
{
    let t = s.to_owned();
    if is_text(&t, "original") {
        Some(Source::Original)
    } else if is_text(&t, "manga") {
        Some(Source::Manga)
    } else if is_text(&t, "4_koma_manga") {
        Some(Source::FourKomaManga)
    } else if is_text(&t, "web_manga") {
        Some(Source::WebManga)
    } else if is_text(&t, "digital_manga") {
        Some(Source::DigitalManga)
    } else if is_text(&t, "novel") {
        Some(Source::Novel)
    } else if is_text(&t, "light_novel") {
        Some(Source::LightNovel)
    } else if is_text(&t, "visual_novel") {
        Some(Source::VisualNovel)
    } else if is_text(&t, "game") {
        Some(Source::Game)
    } else if is_text(&t, "card_game") {
        Some(Source::CardGame)
    } else if is_text(&t, "book") {
        Some(Source::Book)
    } else if is_text(&t, "picture_book") {
        Some(Source::PictureBook)
    } else if is_text(&t, "radio") {
        Some(Source::Radio)
    } else if is_text(&t, "music") {
        Some(Source::Music)
    } else {
        Some(Source::Other)
    }
}

/// The airing status a MyAnimeList name stands for.
pub open spec fn status_name(s: Seq<char>) -> Option<Status> {
    if s == "finished_airing"@ {
        Some(Status::FinishedAiring)
    } else if s == "currently_airing"@ {
        Some(Status::CurrentlyAiring)
    } else if s == "not_yet_aired"@ {
        Some(Status::NotYetAired)
    } else {
        None
    }
}

/// The airing status a MyAnimeList name stands for.
pub fn parse_status(s: &str) -> (r: Option<Status>)
    ensures
        r == status_name(s@),
{
    let t = s.to_owned();
    if is_text(&t, "finished_airing") {
        Some(Status::FinishedAiring)
    } else if is_text(&t, "currently_airing") {
        Some(Status::CurrentlyAiring)
    } else if is_text(&t, "not_yet_aired") {
        Some(Status::NotYetAired)
    } else {
        None
    }
}

/// The audience rating a MyAnimeList name stands for.
pub open spec fn rating_name(s: Seq<char>) -> Option<Rating> {
    if s == "g"@ {
        Some(Rating::G)
    } else if s == "pg"@ {
        Some(Rating::PG)
    } else if s == "pg_13"@ {
        Some(Rating::PG13)
    } else if s == "r"@ {
        Some(Rating::R17Plus)
    } else if s == "r+"@ {
        Some(Rating::RPlus)
    } else if s == "rx"@ {
        Some(Rating::Rx)
    } else {
        None
    }
}

/// The audience rating a MyAnimeList name stands for.
pub fn parse_rating(s: &str) -> (r: Option<Rating>)
    ensures
        r == rating_name(s@),
{
    let t = s.to_owned();
    if is_text(&t, "g") {
        Some(Rating::G)
    } else if is_text(&t, "pg") {
        Some(Rating::PG)
    } else if is_text(&t, "pg_13") {
        Some(Rating::PG13)
    } else if is_text(&t, "r") {
        Some(Rating::R17Plus)
    } else if is_text(&t, "r+") {
        Some(Rating::RPlus)
    } else if is_text(&t, "rx") {
        Some(Rating::Rx)
    } else {
        None
    }
}

/// The season a lowercase name stands for.
pub open spec fn season_name(l: Seq<char>) -> Option<Season> {
    if l == "spring"@ {
        Some(Season::Spring)
    } else if l == "summer"@ {
        Some(Season::Summer)
    } else if l == "fall"@ || l == "autumn"@ {
        Some(Season::Fall)
    } else if l == "winter"@ {
        Some(Season::Winter)
    } else {
        None
    }
}

/// The season a lowercase name stands for.
pub fn season_from_lowercase(l: &str) -> (r: Option<Season>)
    ensures
        r == season_name(l@),
{
    let t = l.to_owned();
    if is_text(&t, "spring") {
        Some(Season::Spring)
    } else if is_text(&t, "summer") {
        Some(Season::Summer)
    } else if is_text(&t, "fall") || is_text(&t, "autumn") {
        Some(Season::Fall)
    } else if is_text(&t, "winter") {
        Some(Season::Winter)
    } else {
        None
    }
}

/// The broadcast day a lowercase name stands for; Other for any other name.
pub open spec fn day_name(l: Seq<char>) -> Option<DayOfTheWeek> {
    if l == "sundays"@ || l == "sunday"@ {
        Some(DayOfTheWeek::Sundays)
    } else if l == "mondays"@ || l == "monday"@ {
        Some(DayOfTheWeek::Mondays)
    } else if l == "tuesdays"@ || l == "tuesday"@ {
        Some(DayOfTheWeek::Tuesdays)
    } else if l == "wednesdays"@ || l == "wednesday"@ {
        Some(DayOfTheWeek::Wednesdays)
    } else if l == "thursdays"@ || l == "thursday"@ {
        Some(DayOfTheWeek::Thursdays)
    } else if l == "fridays"@ || l == "friday"@ {
        Some(DayOfTheWeek::Fridays)
    } else if l == "saturdays"@ || l == "saturday"@ {
        Some(DayOfTheWeek::Saturdays)
    } else {
        Some(DayOfTheWeek::Other)
    }
}

/// The broadcast day a lowercase name stands for; Other for any other name.
pub fn day_from_lowercase(l: &str) -> (r: Option<DayOfTheWeek>)
    ensures
        r == day_name(l@),
{
    let t = l.to_owned();
    if is_text(&t, "sundays") || is_text(&t, "sunday") {
        Some(DayOfTheWeek::Sundays)
    } else if is_text(&t, "mondays") || is_text(&t, "monday") {
        Some(DayOfTheWeek::Mondays)
    } else if is_text(&t, "tuesdays") || is_text(&t, "tuesday") {
        Some(DayOfTheWeek::Tuesdays)
    } else if is_text(&t, "wednesdays") || is_text(&t, "wednesday") {
        Some(DayOfTheWeek::Wednesdays)
    } else if is_text(&t, "thursdays") || is_text(&t, "thursday") {
        Some(DayOfTheWeek::Thursdays)
    } else if is_text(&t, "fridays") || is_text(&t, "friday") {
        Some(DayOfTheWeek::Fridays)
    } else if is_text(&t, "saturdays") || is_text(&t, "saturday") {
        Some(DayOfTheWeek::Saturdays)
    } else {
        Some(DayOfTheWeek::Other)
    }
}

/// The media type of a MyAnimeList name, compared without regard to case.
pub fn parse_media_type(s: &str) -> (r: Option<MediaType>)
    ensures
        r == media_type_name(lower_of(s@)),
{
    let l = lowercase(s);
    media_type_from_lowercase(l.as_str())
}

/// The season of a name, compared without regard to case.
pub fn parse_season(s: &str) -> (r: Option<Season>)
    ensures
        r == season_name(lower_of(s@)),
{
    let l = lowercase(s);
    season_from_lowercase(l.as_str())
}

/// The broadcast day of a name, compared without regard to case.
pub fn parse_day_of_week(s: &str) -> (r: Option<DayOfTheWeek>)
    ensures
        r == day_name(lower_of(s@)),
{
    let l = lowercase(s);
    day_from_lowercase(l.as_str())
}

/// An image with every URL empty.
pub open spec fn blank_image(i: Image) -> bool {
    i.image_url@.len() == 0 && i.small_image_url@.len() == 0 && i.large_image_url@.len() == 0
}

fn empty_image() -> (r: Image)
    ensures
        blank_image(r),
{
    Image { image_url: String::new(), small_image_url: String::new(), large_image_url: String::new() }
}

/// Images with every URL empty, for records that have none.
pub fn default_images() -> (r: Images)
    ensures
        blank_image(r.jpg),
        blank_image(r.webp),
{
    Images { jpg: empty_image(), webp: empty_image() }
}

/// The text of an optional URL: the URL, or empty when absent.
pub open spec fn url_or_empty(u: Option<String>) -> Seq<char> {
    match u {
        Some(s) => s@,
        None => Seq::empty(),
    }
}

/// The unified image whose URLs are those of a Jikan image, empty where absent.
pub open spec fn image_matches(i: Image, j: JikanImage) -> bool {
    &&& i.image_url@ == url_or_empty(j.image_url)
    &&& i.small_image_url@ == url_or_empty(j.small_image_url)
    &&& i.large_image_url@ == url_or_empty(j.large_image_url)
}

fn text_or_empty(u: Option<String>) -> (r: String)
    ensures
        r@ == url_or_empty(u),
{
    match u {
        Some(s) => s,
        None => String::new(),
    }
}

fn convert_jikan_image(j: JikanImage) -> (r: Image)
    ensures
        image_matches(r, j),
{
    Image {
        image_url: text_or_empty(j.image_url),
        small_image_url: text_or_empty(j.small_image_url),
        large_image_url: text_or_empty(j.large_image_url),
    }
}

/// Jikan's JPEG and WebP image sets as unified images, absent URLs empty.
pub fn convert_jikan_images(jikan_images: JikanImages) -> (r: Images)
    ensures
        image_matches(r.jpg, jikan_images.jpg),
        image_matches(r.webp, jikan_images.webp),
{
    Images { jpg: convert_jikan_image(jikan_images.jpg), webp: convert_jikan_image(jikan_images.webp) }
}

} // verus!
