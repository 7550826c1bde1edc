//! Resources of the Radarr-like server family (movies).

use vstd::prelude::*;

use super::{CustomFormat, Language, Quality, StatusMessage};

verus! {

/// One page of the download queue.
pub struct Queue {
    pub page: i64,
    pub page_size: i64,
    pub sort_key: String,
    pub sort_direction: String,
    pub total_records: i64,
    pub records: Vec<Record>,
}

/// One entry of the download queue. The nested movie object is not kept.
pub struct Record {
    pub id: i64,
    pub movie_id: i64,
    pub languages: Option<Vec<Language>>,
    pub quality: Option<Quality>,
    pub custom_formats: Option<Vec<CustomFormat>>,
    pub custom_format_score: Option<i64>,
    pub size: i64,
    pub title: String,
    pub sizeleft: i64,
    pub timeleft: String,
    pub estimated_completion_time: String,
    pub added: String,
    pub status: String,
    pub tracked_download_status: String,
    pub tracked_download_state: String,
    pub status_messages: Vec<StatusMessage>,
    pub error_message: Option<String>,
    pub download_id: String,
    pub protocol: String,
    pub download_client: String,
    pub download_client_has_post_import_category: bool,
    pub indexer: String,
    pub output_path: Option<String>,
}

/// A movie, the media item that a queue entry belongs to.
pub struct Movie {
    pub id: i64,
    pub title: String,
    pub original_title: String,
    pub sort_title: String,
    pub status: String,
    pub overview: String,
    pub year: i64,
    pub path: String,
    pub has_file: bool,
    pub movie_file_id: Option<i64>,
    pub monitored: bool,
}

} // verus!
