//! Persisted payloads of the AniList tasks.

use vstd::prelude::*;

verus! {

#[derive(Debug, Clone)]
pub struct FetchAnimePayload {
    pub mal_id: Option<u32>,
    pub anilist_id: Option<u32>,
    pub with_pictures: bool,
}

#[derive(Debug, Clone)]
pub struct FetchAniListAnimePicturesPayload {
    pub anilist_id: u32,
}

#[derive(Debug, Clone)]
pub struct SearchAnimePayload {
    pub query: String,
    pub page: u32,
    pub per_page: u32,
}

} // verus!
