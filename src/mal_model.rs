//! Shapes of the MyAnimeList and Jikan APIs, and the unified record parts built from them.

use vstd::prelude::*;

verus! {

#[derive(Debug, Clone)]
pub struct MalPicture {
    pub medium: Option<String>,
    pub large: Option<String>,
}

#[derive(Debug, Clone)]
pub struct MalAlternativeTitles {
    pub synonyms: Option<Vec<String>>,
    pub en: Option<String>,
    pub ja: Option<String>,
}

#[derive(Debug, Clone)]
pub struct MalGenre {
    pub id: i32,
    pub name: String,
}

#[derive(Debug, Clone)]
pub struct MalSeason {
    pub year: i32,
    pub season: String,
}

#[derive(Debug, Clone)]
pub struct MalBroadcast {
    pub day_of_the_week: Option<String>,
    pub start_time: Option<String>,
}

#[derive(Debug, Clone)]
pub struct MalStudio {
    pub id: i32,
    pub name: String,
}

#[derive(Debug, Clone)]
pub struct MalRelatedAnime {
    pub node: MalNode,
    pub relation_type: String,
    pub relation_type_formatted: String,
}

#[derive(Debug, Clone)]
pub struct MalRelatedManga {
    pub node: MalNode,
    pub relation_type: String,
    pub relation_type_formatted: String,
}

#[derive(Debug, Clone)]
pub struct MalNode {
    pub id: i32,
    pub title: String,
    pub main_picture: Option<MalPicture>,
}

#[derive(Debug, Clone)]
pub struct MalStatistics {
    pub num_list_users: i32,
    pub status: MalStatusStats,
}

#[derive(Debug, Clone)]
pub struct MalStatusStats {
    pub watching: Option<i32>,
    pub completed: Option<i32>,
    pub on_hold: Option<i32>,
    pub dropped: Option<i32>,
    pub plan_to_watch: Option<i32>,
}

#[derive(Debug, Clone)]
pub struct JikanImages {
    pub jpg: JikanImage,
    pub webp: JikanImage,
}

#[derive(Debug, Clone)]
pub struct JikanImage {
    pub image_url: Option<String>,
    pub small_image_url: Option<String>,
    pub large_image_url: Option<String>,
}

#[derive(Debug, Clone)]
pub struct JikanTrailer {
    pub youtube_id: Option<String>,
    pub url: Option<String>,
    pub embed_url: Option<String>,
}

#[derive(Debug, Clone)]
pub struct JikanTitle {
    pub title_type: String,
    pub title: String,
}

#[derive(Debug, Clone)]
pub struct JikanAired {
    pub from: Option<String>,
    pub to: Option<String>,
}

#[derive(Debug, Clone)]
pub struct JikanBroadcast {
    pub day: Option<String>,
    pub time: Option<String>,
    pub timezone: Option<String>,
    pub string: Option<String>,
}

#[derive(Debug, Clone)]
pub struct JikanEntity {
    pub mal_id: i32,
    pub entity_type: String,
    pub name: String,
    pub url: String,
}

#[derive(Debug, Clone)]
pub struct JikanRelation {
    pub relation: String,
    pub entry: Vec<JikanRelationEntry>,
}

#[derive(Debug, Clone)]
pub struct JikanRelationEntry {
    pub mal_id: i32,
    pub entry_type: String,
    pub name: String,
    pub url: String,
}

#[derive(Debug, Clone)]
pub struct JikanTheme {
    pub openings: Vec<String>,
    pub endings: Vec<String>,
}

#[derive(Debug, Clone)]
pub struct JikanExternal {
    pub name: String,
    pub url: String,
}

#[derive(Debug, Clone)]
pub struct JikanStreaming {
    pub name: String,
    pub url: String,
}

#[derive(Debug, Clone)]
pub struct Title {
    pub id: Option<i32>,
    pub title_type: String,
    pub title: String,
}

#[derive(Debug, Clone)]
pub struct Images {
    pub jpg: Image,
    pub webp: Image,
}

#[derive(Debug, Clone)]
pub struct Image {
    pub image_url: String,
    pub small_image_url: String,
    pub large_image_url: String,
}

#[derive(Debug, Clone, Copy, PartialEq, Eq, Structural)]
pub enum Rating {
    G,
    PG,
    PG13,
    R17Plus,
    RPlus,
    Rx,
}

#[derive(Debug, Clone, Copy, PartialEq, Eq, Structural)]
pub enum Status {
    FinishedAiring,
    CurrentlyAiring,
    NotYetAired,
}

#[derive(Debug, Clone, Copy, PartialEq, Eq, Structural)]
pub enum Source {
    Other,
    Original,
    Manga,
    FourKomaManga,
    WebManga,
    DigitalManga,
    Novel,
    LightNovel,
    VisualNovel,
    Game,
    CardGame,
    Book,
    PictureBook,
    Radio,
    Music,
}

#[derive(Debug, Clone, Copy, PartialEq, Eq, Structural)]
pub enum MediaType {
    TV,
    OVA,
    Movie,
    Special,
    ONA,
    Music,
    Unknown,
}

#[derive(Debug, Clone)]
pub struct Studio {
    pub id: Option<i32>,
    pub mal_id: i32,
    pub studio_type: String,
    pub name: String,
    pub url: String,
}

#[derive(Debug, Clone)]
pub struct Broadcast {
    pub day: Option<DayOfTheWeek>,
    pub time: Option<String>,
    pub timezone: Option<String>,
    pub string: Option<String>,
}

#[derive(Debug, Clone, Copy, PartialEq, Eq, Structural)]
pub enum DayOfTheWeek {
    Sundays,
    Mondays,
    Tuesdays,
    Wednesdays,
    Thursdays,
    Fridays,
    Saturdays,
    Other,
}

#[derive(Debug, Clone)]
pub struct Genre {
    pub id: Option<i32>,
    pub mal_id: i32,
    pub genre_type: String,
    pub name: String,
    pub url: String,
}

#[derive(Debug, Clone)]
pub struct Themes {
    pub id: Option<i32>,
    pub mal_id: i32,
    pub theme_type: String,
    pub name: String,
    pub url: String,
}

#[derive(Debug, Clone)]
pub struct Streaming {
    pub id: Option<i32>,
    pub name: String,
    pub url: String,
}

#[derive(Debug, Clone)]
pub struct Licensors {
    pub id: Option<i32>,
    pub mal_id: i32,
    pub licensor_type: String,
    pub name: String,
    pub url: String,
}

#[derive(Debug, Clone)]
pub struct External {
    pub id: Option<i32>,
    pub name: String,
    pub url: String,
}

#[derive(Debug, Clone)]
pub struct Producer {
    pub id: Option<i32>,
    pub mal_id: i32,
    pub producer_type: String,
    pub name: String,
    pub url: String,
}

#[derive(Debug, Clone, Copy, PartialEq, Eq, Structural)]
pub enum Season {
    Spring,
    Summer,
    Fall,
    Winter,
}

#[derive(Debug, Clone)]
pub struct Relation {
    pub id: Option<i32>,
    pub relation: String,
    pub entry: Vec<RelationEntry>,
}

#[derive(Debug, Clone)]
pub struct RelationEntry {
    pub id: Option<i32>,
    pub mal_id: i32,
    pub entry_type: String,
    pub name: String,
    pub url: String,
}

#[derive(Debug, Clone, Default)]
pub struct Theme {
    pub openings: Vec<String>,
    pub endings: Vec<String>,
}

#[derive(Debug, Clone)]
pub struct Trailer {
    pub youtube_id: Option<String>,
    pub url: Option<String>,
    pub embed_url: Option<String>,
}

#[derive(Debug, Clone)]
pub struct Demographic {
    pub id: Option<i32>,
    pub mal_id: i32,
    pub demographic_type: String,
    pub name: String,
    pub url: String,
}

#[derive(Debug, Clone, Copy, PartialEq, Eq, Structural)]
pub enum NSFW {
    White,
    Gray,
    Black,
}

#[derive(Debug, Clone)]
pub struct Character {
    pub character: CharacterInfo,
    pub role: String,
    pub voice_actors: Vec<VoiceActor>,
}

#[derive(Debug, Clone)]
pub struct CharacterInfo {
    pub mal_id: i32,
    pub url: String,
    pub images: Images,
    pub name: String,
}

#[derive(Debug, Clone)]
pub struct VoiceActor {
    pub person: VoiceActorInfo,
    pub language: String,
}

#[derive(Debug, Clone)]
pub struct VoiceActorInfo {
    pub mal_id: i32,
    pub url: String,
    pub images: Images,
    pub name: String,
}

#[derive(Debug, Clone)]
pub struct Staff {
    pub person: StaffInfo,
    pub positions: Vec<String>,
}

#[derive(Debug, Clone)]
pub struct StaffInfo {
    pub mal_id: i32,
    pub url: String,
    pub images: Images,
    pub name: String,
}

#[derive(Debug, Clone)]
pub struct Videos {
    pub promo: Vec<VideoPromoInfo>,
    pub episodes: Vec<VideoEpisodeInfo>,
    pub music_videos: Vec<VideoMusicInfo>,
}

#[derive(Debug, Clone)]
pub struct VideoPromoInfo {
    pub title: String,
    pub trailer: VideoTrailer,
}

#[derive(Debug, Clone)]
pub struct VideoEpisodeInfo {
    pub mal_id: i32,
    pub url: String,
    pub title: String,
    pub episode: String,
    pub images: Images,
}

#[derive(Debug, Clone)]
pub struct VideoTrailer {
    pub youtube_id: Option<String>,
    pub url: Option<String>,
    pub embed_url: Option<String>,
    pub images: Option<Images>,
}

#[derive(Debug, Clone)]
pub struct VideoMusicInfo {
    pub title: String,
    pub video: VideoTrailer,
    pub meta: VideoMusicMeta,
}

#[derive(Debug, Clone)]
pub struct VideoMusicMeta {
    pub title: Option<String>,
    pub author: Option<String>,
}

#[derive(Debug, Clone)]
pub struct Recommendation {
    pub entry: RecommendationInfo,
    pub url: String,
    pub votes: i32,
}

#[derive(Debug, Clone)]
pub struct RecommendationInfo {
    pub mal_id: i32,
    pub url: String,
    pub images: Images,
    pub title: String,
}

} // verus!
