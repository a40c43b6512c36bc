//! Inputs and persisted payloads of the MyAnimeList tasks.

use vstd::prelude::*;

verus! {

#[derive(Debug, Clone)]
pub struct FetchAnimeInput {
    pub anime_id: u32,
}

#[derive(Debug, Clone)]
pub struct BatchFetchPayload {
    pub anime_ids: Vec<u32>,
}

#[derive(Debug, Clone)]
pub struct FetchAnimePayload {
    pub anime_id: u32,
    pub with_jikan: bool,
    pub with_pictures: bool,
    pub full_fetch: bool,
}

#[derive(Debug, Clone)]
pub struct FetchAnimePicturesPayload {
    pub anime_id: u32,
}

#[derive(Debug, Clone)]
pub struct SearchAnimePayload {
    pub query: String,
    pub limit: Option<u32>,
}

#[derive(Debug, Clone)]
pub struct UpdateAnimePayload {
    pub anime_id: u32,
    pub with_jikan: bool,
}

} // verus!
