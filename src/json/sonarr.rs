//! Resources of the Sonarr-like server family (series and episodes).

use vstd::prelude::*;

use super::{CustomFormat, Language, StatusMessage};

verus! {

/// One page of the download queue.
pub struct Queue {
    pub page: i64,
    pub page_size: i64,
    pub sort_key: String,
    pub sort_direction: String,
    pub total_records: i64,
    pub records: Vec<Record>,
}

/// One entry of the download queue. The nested series, episode and quality
/// objects carry fractional numbers and are not kept.
pub struct Record {
    pub id: i64,
    pub series_id: i64,
    pub episode_id: i64,
    pub season_number: i64,
    pub languages: Option<Vec<Language>>,
    pub custom_formats: Option<Vec<CustomFormat>>,
    pub custom_format_score: Option<i64>,
    pub size: i64,
    pub title: String,
    pub sizeleft: i64,
    pub timeleft: String,
    pub estimated_completion_time: Option<String>,
    pub added: String,
    pub status: String,
    pub tracked_download_status: String,
    pub tracked_download_state: String,
    pub status_messages: Vec<StatusMessage>,
    pub error_message: Option<String>,
    pub download_id: String,
    pub protocol: String,
    pub download_client: String,
    pub download_client_has_post_import_category: bool,
    pub indexer: String,
    pub output_path: Option<String>,
    pub episode_has_file: bool,
}

/// An episode, the media item that a queue entry belongs to.
pub struct Episode {
    pub id: i64,
    pub series_id: i64,
    pub tvdb_id: i64,
    pub episode_file_id: Option<i64>,
    pub season_number: i64,
    pub episode_number: i64,
    pub title: Option<String>,
    pub air_date: String,
    pub air_date_utc: String,
    pub overview: String,
    pub has_file: bool,
    pub monitored: bool,
}

} // verus!
