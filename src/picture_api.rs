//! Request and response bodies of the picture REST routes.

use vstd::prelude::*;
use crate::picture::PictureStats;

verus! {

#[derive(Debug, Clone)]
pub struct FetchPictureRequest {
    pub url: String,
    pub filename: Option<String>,
    pub tags: Vec<String>,
    pub entity_type: Option<String>,
    pub entity_id: Option<String>,
}

#[derive(Debug, Clone)]
pub struct BatchFetchPicturesRequest {
    pub urls: Vec<String>,
    pub tags: Vec<String>,
}

#[derive(Debug, Clone)]
pub struct GetPicturesQuery {
    pub entity_type: Option<String>,
    pub entity_id: Option<String>,
    pub tag: Option<String>,
    pub status: Option<String>,
    pub limit: i64,
}

#[derive(Debug, Clone)]
pub struct TaskQueuedResponse {
    pub message: String,
    pub task_type: String,
}

#[derive(Debug, Clone)]
pub struct StatsResponse {
    pub stats: PictureStats,
}

#[derive(Debug, Clone)]
pub struct ErrorResponse {
    pub error: String,
}

} // verus!
