//! Cleanup of failed downloads and imports in the queue of a Sonarr-like or
//! Radarr-like media server.

pub mod adapter;
pub mod api;
pub mod cleanup;
pub mod cli;
pub mod decimal;
pub mod json;
pub mod record;
