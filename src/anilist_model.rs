//! Response shapes of the AniList GraphQL API.

use vstd::prelude::*;

verus! {

#[derive(Debug, Clone)]
pub struct GraphQLResponse<T> {
    pub data: Option<T>,
    pub errors: Vec<GraphQLError>,
}

#[derive(Debug, Clone)]
pub struct GraphQLError {
    pub message: String,
    pub locations: Vec<ErrorLocation>,
}

#[derive(Debug, Clone)]
pub struct ErrorLocation {
    pub line: i32,
    pub column: i32,
}

#[derive(Debug, Clone)]
pub struct MediaData {
    pub media: AniListMedia,
}

#[derive(Debug, Clone)]
pub struct AniListMedia {
    pub id: i32,
    pub id_mal: Option<i32>,
    pub title: MediaTitle,
    pub media_type: Option<String>,
    pub format: Option<String>,
    pub status: Option<String>,
    pub description: Option<String>,
    pub start_date: Option<FuzzyDate>,
    pub end_date: Option<FuzzyDate>,
    pub season: Option<String>,
    pub season_year: Option<i32>,
    pub episodes: Option<i32>,
    pub duration: Option<i32>,
    pub country_of_origin: Option<String>,
    pub is_licensed: Option<bool>,
    pub source: Option<String>,
    pub hashtag: Option<String>,
    pub trailer: Option<MediaTrailer>,
    pub updated_at: Option<i64>,
    pub cover_image: Option<MediaCoverImage>,
    pub banner_image: Option<String>,
    pub genres: Vec<String>,
    pub synonyms: Vec<String>,
    pub average_score: Option<i32>,
    pub mean_score: Option<i32>,
    pub popularity: Option<i32>,
    pub is_locked: Option<bool>,
    pub trending: Option<i32>,
    pub favourites: Option<i32>,
    pub tags: Vec<MediaTag>,
    pub relations: Option<MediaConnection>,
    pub characters: Option<CharacterConnection>,
    pub staff: Option<StaffConnection>,
    pub studios: Option<StudioConnection>,
    pub is_favourite: Option<bool>,
    pub is_favourite_blocked: Option<bool>,
    pub is_adult: Option<bool>,
    pub next_airing_episode: Option<AiringSchedule>,
    pub external_links: Vec<MediaExternalLink>,
    pub streaming_episodes: Vec<MediaStreamingEpisode>,
    pub rankings: Option<Vec<MediaRank>>,
    pub stats: Option<MediaStats>,
    pub site_url: Option<String>,
}

#[derive(Debug, Clone)]
pub struct MediaTitle {
    pub romaji: Option<String>,
    pub english: Option<String>,
    pub native: Option<String>,
    pub user_preferred: Option<String>,
}

#[derive(Debug, Clone)]
pub struct FuzzyDate {
    pub year: Option<i32>,
    pub month: Option<i32>,
    pub day: Option<i32>,
}

#[derive(Debug, Clone)]
pub struct MediaTrailer {
    pub id: Option<String>,
    pub site: Option<String>,
    pub thumbnail: Option<String>,
}

#[derive(Debug, Clone)]
pub struct MediaCoverImage {
    pub extra_large: Option<String>,
    pub large: Option<String>,
    pub medium: Option<String>,
    pub color: Option<String>,
}

#[derive(Debug, Clone)]
pub struct MediaTag {
    pub id: i32,
    pub name: String,
    pub description: Option<String>,
    pub category: Option<String>,
    pub rank: Option<i32>,
    pub is_general_spoiler: Option<bool>,
    pub is_media_spoiler: Option<bool>,
    pub is_adult: Option<bool>,
}

#[derive(Debug, Clone)]
pub struct MediaConnection {
    pub edges: Option<Vec<MediaEdge>>,
}

#[derive(Debug, Clone)]
pub struct MediaEdge {
    pub id: Option<i32>,
    pub relation_type: Option<String>,
    pub node: Option<MediaNode>,
}

#[derive(Debug, Clone)]
pub struct MediaNode {
    pub id: i32,
    pub id_mal: Option<i32>,
    pub title: Option<MediaTitle>,
    pub media_type: Option<String>,
    pub format: Option<String>,
    pub cover_image: Option<MediaCoverImage>,
}

#[derive(Debug, Clone)]
pub struct CharacterConnection {
    pub edges: Option<Vec<CharacterEdge>>,
}

#[derive(Debug, Clone)]
pub struct CharacterEdge {
    pub id: Option<i32>,
    pub role: Option<String>,
    pub node: Option<CharacterNode>,
    pub voice_actors: Vec<StaffNode>,
}

#[derive(Debug, Clone)]
pub struct CharacterNode {
    pub id: i32,
    pub name: Option<CharacterName>,
    pub image: Option<CharacterImage>,
    pub site_url: Option<String>,
}

#[derive(Debug, Clone)]
pub struct CharacterName {
    pub first: Option<String>,
    pub middle: Option<String>,
    pub last: Option<String>,
    pub full: Option<String>,
    pub native: Option<String>,
    pub alternative: Vec<String>,
}

#[derive(Debug, Clone)]
pub struct CharacterImage {
    pub large: Option<String>,
    pub medium: Option<String>,
}

#[derive(Debug, Clone)]
pub struct StaffConnection {
    pub edges: Option<Vec<StaffEdge>>,
}

#[derive(Debug, Clone)]
pub struct StaffEdge {
    pub id: Option<i32>,
    pub role: Option<String>,
    pub node: Option<StaffNode>,
}

#[derive(Debug, Clone)]
pub struct StaffNode {
    pub id: i32,
    pub name: Option<StaffName>,
    pub language: Option<String>,
    pub image: Option<StaffImage>,
    pub site_url: Option<String>,
}

#[derive(Debug, Clone)]
pub struct StaffName {
    pub first: Option<String>,
    pub middle: Option<String>,
    pub last: Option<String>,
    pub full: Option<String>,
    pub native: Option<String>,
}

#[derive(Debug, Clone)]
pub struct StaffImage {
    pub large: Option<String>,
    pub medium: Option<String>,
}

#[derive(Debug, Clone)]
pub struct StudioConnection {
    pub edges: Option<Vec<StudioEdge>>,
}

#[derive(Debug, Clone)]
pub struct StudioEdge {
    pub is_main: bool,
    pub node: Option<StudioNode>,
}

#[derive(Debug, Clone)]
pub struct StudioNode {
    pub id: i32,
    pub name: String,
    pub is_animation_studio: bool,
    pub site_url: Option<String>,
}

#[derive(Debug, Clone)]
pub struct AiringSchedule {
    pub airing_at: i64,
    pub time_until_airing: i64,
    pub episode: i32,
}

#[derive(Debug, Clone)]
pub struct MediaExternalLink {
    pub id: i32,
    pub url: String,
    pub site: String,
}

#[derive(Debug, Clone)]
pub struct MediaStreamingEpisode {
    pub title: Option<String>,
    pub thumbnail: Option<String>,
    pub url: Option<String>,
    pub site: Option<String>,
}

#[derive(Debug, Clone)]
pub struct MediaRank {
    pub id: i32,
    pub rank: i32,
    pub rank_type: String,
    pub format: String,
    pub year: Option<i32>,
    pub season: Option<String>,
    pub all_time: Option<bool>,
    pub context: String,
}

#[derive(Debug, Clone)]
pub struct MediaStats {
    pub score_distribution: Option<Vec<ScoreDistribution>>,
    pub status_distribution: Option<Vec<StatusDistribution>>,
}

#[derive(Debug, Clone)]
pub struct ScoreDistribution {
    pub score: Option<i32>,
    pub amount: Option<i32>,
}

#[derive(Debug, Clone)]
pub struct StatusDistribution {
    pub status: Option<String>,
    pub amount: Option<i32>,
}

#[derive(Debug, Clone)]
pub struct PageData {
    pub page: Page,
}

#[derive(Debug, Clone)]
pub struct Page {
    pub page_info: Option<PageInfo>,
    pub media: Vec<AniListMedia>,
}

#[derive(Debug, Clone)]
pub struct PageInfo {
    pub total: Option<i32>,
    pub per_page: Option<i32>,
    pub current_page: Option<i32>,
    pub last_page: Option<i32>,
    pub has_next_page: Option<bool>,
}

#[derive(Debug, Clone)]
pub struct AniListTag {
    pub id: i32,
    pub name: String,
    pub description: Option<String>,
    pub category: Option<String>,
    pub rank: i32,
    pub is_spoiler: bool,
}

#[derive(Debug, Clone)]
pub struct AniListAiringSchedule {
    pub airing_at: i64,
    pub time_until_airing: i64,
    pub episode: i32,
}

} // verus!
