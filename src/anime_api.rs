//! Request and response bodies of the anime REST routes.

use vstd::prelude::*;

verus! {

#[derive(Debug, Clone)]
pub struct FetchAnimeRequest {
    pub anime_id: u32,
    pub with_jikan: bool,
}

#[derive(Debug, Clone)]
pub struct SearchAnimeRequest {
    pub query: String,
    pub limit: u32,
}

#[derive(Debug, Clone)]
pub struct UpdateAnimeRequest {
    pub anime_id: u32,
    pub with_jikan: bool,
}

#[derive(Debug, Clone)]
pub struct BatchFetchRequest {
    pub anime_ids: Vec<u32>,
    pub with_jikan: bool,
}

#[derive(Debug, Clone)]
pub struct FetchExtendedDataRequest {
    pub anime_id: u32,
    pub fetch_characters: bool,
    pub fetch_staff: bool,
    pub fetch_episodes: bool,
}

#[derive(Debug, Clone)]
pub struct TaskQueuedResponse {
    pub message: String,
    pub task_type: String,
}

#[derive(Debug, Clone)]
pub struct ErrorResponse {
    pub error: String,
}

} // verus!
