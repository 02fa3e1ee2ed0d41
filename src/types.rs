use vstd::prelude::*;

verus! {

/// The two kinds of media that the archive holds.
#[derive(Debug, Clone, Copy, PartialEq, Eq, Structural)]
pub enum FileType {
    Photo,
    Video,
}

/// A UTC calendar date and time of day, as read from embedded metadata or
/// from the filesystem's modification time.
#[derive(Debug, Clone, Copy, PartialEq, Eq, Structural)]
pub struct CaptureTime {
    pub year: i32,
    pub month: u32,
    pub day: u32,
    pub hour: u32,
    pub minute: u32,
    pub second: u32,
}

impl CaptureTime {
    /// Every field lies in its calendar range.
    pub open spec fn wf(&self) -> bool {
        &&& 1 <= self.month <= 12
        &&& 1 <= self.day <= 31
        &&& self.hour <= 23
        &&& self.minute <= 59
        &&& self.second <= 59
    }
}

/// One media file found under the source root.
#[derive(Debug, Clone)]
pub struct PhotoFile {
    /// Location of the file, `/`-separated.
    pub path: String,
    /// Best-known capture time.
    pub date_taken: CaptureTime,
    /// The capture time came from a secondary metadata field or from the
    /// modification time, not from the original-capture field.
    pub is_approximate: bool,
    pub file_type: FileType,
    /// Content digest, filled only when a same-named file already sits at the
    /// destination.
    pub hash: Option<String>,
}

/// What one run of the organizing engine works with.
#[derive(Debug, Clone)]
pub struct OrganizeSettings {
    /// The archive root, `/`-separated.
    pub target_dir: String,
    /// Plan only: nothing on disk is changed.
    pub dry_run: bool,
}

/// Tally of one run.
#[derive(Debug, Clone)]
pub struct OrganizationResult {
    pub processed_files: usize,
    pub moved_files: usize,
    pub photos_moved: usize,
    pub videos_moved: usize,
    pub duplicates_found: usize,
    /// Photos placed, by calendar year.
    pub photos_per_year: std::collections::BTreeMap<i32, usize>,
    /// Videos placed, by calendar year.
    pub videos_per_year: std::collections::BTreeMap<i32, usize>,
    pub errors: Vec<String>,
    pub warnings: Vec<String>,
}

impl OrganizationResult {
    /// A tally with nothing counted.
    pub fn new() -> (r: OrganizationResult)
        ensures
            r.is_empty(),
    {
        OrganizationResult {
            processed_files: 0,
            moved_files: 0,
            photos_moved: 0,
            videos_moved: 0,
            duplicates_found: 0,
            photos_per_year: std::collections::BTreeMap::new(),
            videos_per_year: std::collections::BTreeMap::new(),
            errors: Vec::new(),
            warnings: Vec::new(),
        }
    }

    pub open spec fn is_empty(&self) -> bool {
        &&& self.processed_files == 0
        &&& self.moved_files == 0
        &&& self.photos_moved == 0
        &&& self.videos_moved == 0
        &&& self.duplicates_found == 0
        &&& self.photos_per_year@ == Map::<i32, usize>::empty()
        &&& self.videos_per_year@ == Map::<i32, usize>::empty()
        &&& self.errors@.len() == 0
        &&& self.warnings@.len() == 0
    }

    /// Every record handed to the engine ended in exactly one of: placed as a
    /// new file, placed as a duplicate, or one error message.
    pub open spec fn balanced(&self) -> bool {
        self.processed_files == self.moved_files + self.duplicates_found + self.errors@.len()
    }
}

impl Default for OrganizationResult {
    fn default() -> (r: OrganizationResult)
        ensures
            r.is_empty(),
    {
        OrganizationResult::new()
    }
}

/// The screens of the interactive front end.
#[derive(Debug, Clone, Copy, PartialEq, Eq, Structural)]
pub enum AppTab {
    Organize,
    Settings,
}

/// Where the front end stands in a session.
#[derive(Debug, Clone)]
pub enum ProcessState {
    Idle,
    Analyzing,
    AnalyzeComplete(Vec<PhotoFile>),
    Organizing,
}

/// Message from a background scan to the front end.
#[derive(Debug, Clone)]
pub enum ScanUpdate {
    Complete(Vec<PhotoFile>),
    Error(String),
}

/// Message from a background organizing run to the front end.
#[derive(Debug, Clone)]
pub enum OrganizeUpdate {
    Complete(OrganizationResult),
}

} // verus!
