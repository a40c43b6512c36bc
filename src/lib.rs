//! Core of a media metadata collector.
//!
//! The scheduling core: task priorities and the status lifecycle (`queue`),
//! a priority-then-FIFO task structure (`heap`), the worker's state machine
//! (`worker`), retry and backoff decisions for rate-limited HTTP fetches
//! (`http`, `retry`), per-endpoint rate limiting (`limiter`) and task
//! identifiers (`task_ids`).
//!
//! Around it: configuration rules (`config`), the shapes of the source APIs
//! and of the unified records (`anilist_model`, `mal_model` and the other
//! model modules), and the conversions between them (`mal_convert`,
//! `anilist_convert`, `relations`, `picture_files`, `picture_plan`).

pub mod queue;
pub mod heap;
pub mod worker;
pub mod http;
pub mod retry;
pub mod limiter;
pub mod task_ids;
pub mod module;
pub mod config;
pub mod text;
pub mod anilist_model;
pub mod anilist_tasks;
pub mod anilist_convert;
pub mod mal_model;
pub mod mal_tasks;
pub mod mal_convert;
pub mod relations;
pub mod picture;
pub mod picture_files;
pub mod picture_plan;
pub mod anime_api;
pub mod health_api;
pub mod picture_api;
pub mod database;
pub mod enum_parse;
