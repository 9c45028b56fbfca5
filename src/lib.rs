//! A media-library catalog: classification of files, the asset table and its
//! queries, the folder scanner's batching, the change watcher's decisions and
//! the bookkeeping of background artifact jobs.

mod asset;
mod catalog;
mod generate;
mod laws;
mod media;
mod query;
mod response;
mod scan;
mod schema;
mod thumbnail;
mod watcher;
mod waveform;

pub use asset::{Asset, AssetMetadata, AssetView, FileEntry, WAVEFORM_BARS};
pub use catalog::{Catalog, CatalogView};
pub use generate::{
    Artifact, GenerationJob, ProgressEvent, THUMBNAIL_WIDTH, ThumbnailPlan, WorkItem,
    cancelled_job_starts_nothing, thumbnail_height, thumbnail_plan, worker_threads,
};
pub use laws::{
    generated_waveform_is_storable, recording_pending_thumbnails_leaves_none,
    rename_pair_moves_row, rename_to_nonmedia_removes_row, scan_is_idempotent,
    stored_waveforms_are_empty_or_complete,
};
pub use media::{MediaKind, classify_extension, get_media_type, media_kind_of_lower};
pub use query::{
    KindFilter, PaginatedResponse, QueryError, asset_matches, contains_ignoring_case,
    get_assets_paginated, get_count_assets,
};
pub use response::{ApiResponse, DependencyStatus};
pub use scan::{SCAN_BATCH, ScanBatcher, ScanProgress};
pub use schema::is_schema_valid;
pub use thumbnail::{ThumbnailError, generate_thumbnail_buffer};
pub use watcher::{FsEvent, FsEventKind, ObservedPath, WatchAction, WatchSession, entry_of};
pub use waveform::{UNIT_PEAK, waveform_from_peaks};
