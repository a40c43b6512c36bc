use media_collector::anilist_convert::{
    parse_anilist_format, parse_anilist_season, parse_anilist_source, parse_anilist_status,
    season_from_uppercase,
};
use media_collector::mal_convert::{
    convert_jikan_images, day_from_lowercase, default_images, media_type_from_lowercase,
    parse_day_of_week, parse_media_type, parse_nsfw, parse_rating, parse_season, parse_source,
    parse_status, season_from_lowercase,
};
use media_collector::mal_model::{
    DayOfTheWeek, JikanImage, JikanImages, MediaType, Rating, Season, Source, Status, NSFW,
};

#[test]
fn mal_names() {
    assert_eq!(parse_media_type("TV"), Some(MediaType::TV));
    assert_eq!(parse_media_type("Movie"), Some(MediaType::Movie));
    assert_eq!(parse_media_type("tv_special"), Some(MediaType::Unknown));
    assert_eq!(media_type_from_lowercase("ona"), Some(MediaType::ONA));
    assert_eq!(media_type_from_lowercase("ONA"), Some(MediaType::Unknown));
    assert_eq!(parse_nsfw("gray"), Some(NSFW::Gray));
    assert_eq!(parse_nsfw("pink"), None);
    assert_eq!(parse_source("4_koma_manga"), Some(Source::FourKomaManga));
    assert_eq!(parse_source("mixed_media"), Some(Source::Other));
    assert_eq!(parse_status("currently_airing"), Some(Status::CurrentlyAiring));
    assert_eq!(parse_status("hiatus"), None);
    assert_eq!(parse_rating("r+"), Some(Rating::RPlus));
    assert_eq!(parse_rating("r"), Some(Rating::R17Plus));
    assert_eq!(parse_rating("pg_13"), Some(Rating::PG13));
    assert_eq!(parse_rating("R"), None);
}

#[test]
fn seasons_and_days_ignore_case() {
    assert_eq!(parse_season("Autumn"), Some(Season::Fall));
    assert_eq!(parse_season("WINTER"), Some(Season::Winter));
    assert_eq!(parse_season("monsoon"), None);
    assert_eq!(season_from_lowercase("fall"), Some(Season::Fall));
    assert_eq!(season_from_lowercase("Fall"), None);
    assert_eq!(parse_day_of_week("Monday"), Some(DayOfTheWeek::Mondays));
    assert_eq!(parse_day_of_week("SATURDAYS"), Some(DayOfTheWeek::Saturdays));
    assert_eq!(parse_day_of_week("someday"), Some(DayOfTheWeek::Other));
    assert_eq!(day_from_lowercase("Sunday"), Some(DayOfTheWeek::Other));
}

#[test]
fn anilist_names() {
    assert_eq!(parse_anilist_format("TV_SHORT"), Some(MediaType::TV));
    assert_eq!(parse_anilist_format("tv"), Some(MediaType::Unknown));
    assert_eq!(parse_anilist_status("CANCELLED"), Some(Status::FinishedAiring));
    assert_eq!(parse_anilist_status("HIATUS"), None);
    assert_eq!(parse_anilist_source("DOUJINSHI"), Some(Source::Manga));
    assert_eq!(parse_anilist_source("WEB_NOVEL"), Some(Source::Novel));
    assert_eq!(parse_anilist_source("UNKNOWN"), Some(Source::Other));
    assert_eq!(parse_anilist_season("spring"), Some(Season::Spring));
    assert_eq!(parse_anilist_season("Autumn"), Some(Season::Fall));
    assert_eq!(season_from_uppercase("spring"), None);
}

#[test]
fn images() {
    let d = default_images();
    assert!(d.jpg.image_url.is_empty() && d.webp.large_image_url.is_empty());
    let j = JikanImages {
        jpg: JikanImage {
            image_url: Some("a.jpg".to_string()),
            small_image_url: None,
            large_image_url: Some("b.jpg".to_string()),
        },
        webp: JikanImage { image_url: None, small_image_url: Some("s.webp".to_string()), large_image_url: None },
    };
    let i = convert_jikan_images(j);
    assert_eq!(i.jpg.image_url, "a.jpg");
    assert_eq!(i.jpg.small_image_url, "");
    assert_eq!(i.jpg.large_image_url, "b.jpg");
    assert_eq!(i.webp.small_image_url, "s.webp");
    assert_eq!(i.webp.image_url, "");
}
