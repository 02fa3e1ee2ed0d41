//! Sorting a tree of photos and videos into a year-partitioned archive.
//!
//! The library holds the decisions: which files count as media, which capture
//! date a file gets, where a file goes, when it is a duplicate, and how a run is
//! tallied. Touching the filesystem is left to the caller, which performs the
//! actions that the organizing engine asks for and reports what happened.
pub mod types;
pub mod text;
pub mod scanner;
pub mod date_utils;
pub mod hasher;
pub mod organizer;
pub mod engine;

pub use types::{
    AppTab, CaptureTime, FileType, OrganizationResult, OrganizeSettings, OrganizeUpdate,
    PhotoFile, ProcessState, ScanUpdate,
};
pub use scanner::{classify, is_photo, is_video};
pub use date_utils::{
    choose_capture_time, extract_photo_date, extract_video_date, resolve_photo_date, CaptureFields,
};
pub use hasher::calculate_file_hash;
pub use organizer::{
    category_folder, get_unique_target_path, target_structure, validate_directories,
    DirectoryError,
};
pub use engine::{Action, Event, Organizer, Phase};
