//! Picture records and the payload of the picture fetch task.

use vstd::prelude::*;

verus! {

/// Status of a picture download
#[derive(Debug, Clone)]
pub enum PictureStatus {
    Pending,
    Downloading,
    Completed,
    Failed { error: String },
}

/// Statistics about downloaded pictures
#[derive(Debug, Clone)]
pub struct PictureStats {
    pub total_pictures: u64,
    pub completed: u64,
    pub pending: u64,
    pub failed: u64,
    pub total_size_bytes: u64,
    pub by_entity_type: Vec<EntityTypeStats>,
}

#[derive(Debug, Clone)]
pub struct EntityTypeStats {
    pub entity_type: String,
    pub count: u64,
}

#[derive(Debug, Clone)]
pub struct FetchPicturePayload {
    pub url: String,
    pub storage_path: String,
    pub filename: Option<String>,
    pub tags: Vec<String>,
    pub entity_type: Option<String>,
    pub entity_id: Option<String>,
}

} // verus!
