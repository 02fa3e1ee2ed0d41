use vstd::prelude::*;
use crate::types::{CaptureTime, FileType, OrganizationResult, OrganizeSettings, PhotoFile};
use crate::text::{file_name, file_name_spec, join, join_spec, signed_decimal, signed_to_string};
use vstd::multiset::Multiset;
use vstd::seq_lib::seq_to_set_is_finite;
use crate::organizer::{
    allocated_path, category_folder, category_name, get_unique_target_path, name_set, texts,
};

verus! {

broadcast use vstd::laws_cmp::group_laws_cmp, vstd::multiset::group_multiset_axioms,
    vstd::multiset::group_multiset_properties;

// ---------------------------------------------------------------------------
// Models
// ---------------------------------------------------------------------------

pub struct RecordView {
    pub path: Seq<char>,
    pub date_taken: CaptureTime,
    pub is_approximate: bool,
    pub file_type: FileType,
    pub hash: Option<Seq<char>>,
}

impl View for PhotoFile {
    type V = RecordView;

    open spec fn view(&self) -> RecordView {
        RecordView {
            path: self.path@,
            date_taken: self.date_taken,
            is_approximate: self.is_approximate,
            file_type: self.file_type,
            hash: match self.hash {
                Some(h) => Some(h@),
                None => None,
            },
        }
    }
}

pub struct ResultView {
    pub processed: nat,
    pub moved: nat,
    pub photos: nat,
    pub videos: nat,
    pub duplicates: nat,
    pub photos_per_year: Map<i32, usize>,
    pub videos_per_year: Map<i32, usize>,
    pub errors: Seq<Seq<char>>,
    pub warnings: Seq<Seq<char>>,
}

impl View for OrganizationResult {
    type V = ResultView;

    open spec fn view(&self) -> ResultView {
        ResultView {
            processed: self.processed_files as nat,
            moved: self.moved_files as nat,
            photos: self.photos_moved as nat,
            videos: self.videos_moved as nat,
            duplicates: self.duplicates_found as nat,
            photos_per_year: self.photos_per_year@,
            videos_per_year: self.videos_per_year@,
            errors: texts(self.errors@),
            warnings: texts(self.warnings@),
        }
    }
}

/// Where the engine stands within the record it is working on.
#[derive(Debug, Clone, Copy, PartialEq, Eq, Structural)]
pub enum Phase {
    /// No record in hand.
    Idle,
    /// Waiting for the year directory to be created.
    CreatingDir,
    /// Waiting to learn whether the standard destination exists.
    Probing,
    /// Waiting for the digests of the source and of the file at the standard
    /// destination.
    Hashing,
    /// Waiting for the names present in the directory that receives the file.
    Listing,
    /// Waiting for the destination's directory to be made ready.
    PreparingParent,
    /// Waiting for the outcome of renaming the source to its destination.
    Renaming,
    /// Waiting for the outcome of copying the source to its destination.
    Copying,
    /// Waiting for the outcome of deleting the source after a copy.
    Removing,
}

/// What the caller is asked to do next.
#[derive(Debug, Clone)]
pub enum Action {
    /// Create a directory and its missing parents; answer `DirCreated`.
    CreateDir { dir: String },
    /// Tell whether a path exists; answer `Probed`.
    CheckExists { path: String },
    /// Digest the two files' contents; answer `Hashed`.
    HashFiles { source: String, existing: String },
    /// List the names in a directory (none where it does not exist); answer
    /// `Listed`, with the reason where it could not be read.
    ListDir { dir: String },
    /// Create a directory where it is missing, ignoring failure; answer
    /// `ParentReady`.
    EnsureParent { dir: String },
    /// Rename a file; answer `Renamed`.
    Rename { from: String, to: String },
    /// Copy a file's bytes; answer `Copied`.
    Copy { from: String, to: String },
    /// Delete a file; answer `Removed`.
    RemoveFile { path: String },
    /// Dry run: the record would be moved from `from` to `to`; it is finished.
    Simulated { from: String, to: String },
    /// The record is finished.
    Done,
}

pub enum ActionView {
    CreateDir(Seq<char>),
    CheckExists(Seq<char>),
    HashFiles(Seq<char>, Seq<char>),
    ListDir(Seq<char>),
    EnsureParent(Seq<char>),
    Rename(Seq<char>, Seq<char>),
    Copy(Seq<char>, Seq<char>),
    RemoveFile(Seq<char>),
    Simulated(Seq<char>, Seq<char>),
    Done,
}

impl View for Action {
    type V = ActionView;

    open spec fn view(&self) -> ActionView {
        match self {
            Action::CreateDir { dir } => ActionView::CreateDir(dir@),
            Action::CheckExists { path } => ActionView::CheckExists(path@),
            Action::HashFiles { source, existing } => ActionView::HashFiles(source@, existing@),
            Action::ListDir { dir } => ActionView::ListDir(dir@),
            Action::EnsureParent { dir } => ActionView::EnsureParent(dir@),
            Action::Rename { from, to } => ActionView::Rename(from@, to@),
            Action::Copy { from, to } => ActionView::Copy(from@, to@),
            Action::RemoveFile { path } => ActionView::RemoveFile(path@),
            Action::Simulated { from, to } => ActionView::Simulated(from@, to@),
            Action::Done => ActionView::Done,
        }
    }
}

/// What the caller reports after doing what it was asked.
#[derive(Debug)]
pub enum Event {
    DirCreated(Result<(), String>),
    Probed(bool),
    /// The source's digest or why it could not be read; the existing file's
    /// digest, `None` where it could not be read.
    Hashed { source: Result<String, String>, existing: Option<String> },
    Listed(Result<Vec<String>, String>),
    ParentReady,
    Renamed(Result<(), String>),
    Copied(Result<(), String>),
    Removed(Result<(), String>),
}

pub open spec fn unit_outcome(r: Result<(), String>) -> Result<(), Seq<char>> {
    match r {
        Ok(_) => Ok(()),
        Err(e) => Err(e@),
    }
}

pub enum EventView {
    DirCreated(Result<(), Seq<char>>),
    Probed(bool),
    Hashed(Result<Seq<char>, Seq<char>>, Option<Seq<char>>),
    Listed(Result<Set<Seq<char>>, Seq<char>>),
    ParentReady,
    Renamed(Result<(), Seq<char>>),
    Copied(Result<(), Seq<char>>),
    Removed(Result<(), Seq<char>>),
}

impl View for Event {
    type V = EventView;

    open spec fn view(&self) -> EventView {
        match self {
            Event::DirCreated(r) => EventView::DirCreated(unit_outcome(*r)),
            Event::Probed(b) => EventView::Probed(*b),
            Event::Hashed { source, existing } => EventView::Hashed(
                match source {
                    Ok(h) => Ok(h@),
                    Err(e) => Err(e@),
                },
                match existing {
                    Some(h) => Some(h@),
                    None => None,
                },
            ),
            Event::Listed(listing) => EventView::Listed(
                match listing {
                    Ok(names) => Ok(name_set(names@)),
                    Err(e) => Err(e@),
                },
            ),
            Event::ParentReady => EventView::ParentReady,
            Event::Renamed(r) => EventView::Renamed(unit_outcome(*r)),
            Event::Copied(r) => EventView::Copied(unit_outcome(*r)),
            Event::Removed(r) => EventView::Removed(unit_outcome(*r)),
        }
    }
}

/// The event that answers the action of each phase.
pub open spec fn answers(phase: Phase, e: EventView) -> bool {
    match phase {
        Phase::Idle => false,
        Phase::CreatingDir => e is DirCreated,
        Phase::Probing => e is Probed,
        Phase::Hashing => e is Hashed,
        Phase::Listing => e is Listed,
        Phase::PreparingParent => e is ParentReady,
        Phase::Renaming => e is Renamed,
        Phase::Copying => e is Copied,
        Phase::Removing => e is Removed,
    }
}

// ---------------------------------------------------------------------------
// Messages
// ---------------------------------------------------------------------------

pub open spec fn dir_error_msg(dir: Seq<char>, e: Seq<char>) -> Seq<char> {
    "Failed to create dir "@ + dir + ": "@ + e
}

pub open spec fn source_hash_msg(path: Seq<char>, e: Seq<char>) -> Seq<char> {
    "Failed to hash source "@ + path + ": "@ + e
}

pub open spec fn existing_hash_msg(path: Seq<char>) -> Seq<char> {
    "Could not hash existing file "@ + path + ", treating as name collision"@
}

pub open spec fn list_error_msg(dir: Seq<char>, e: Seq<char>) -> Seq<char> {
    "Failed to list "@ + dir + ": "@ + e
}

pub open spec fn move_error_msg(
    path: Seq<char>,
    dest: Seq<char>,
    e: Seq<char>,
    copy_e: Seq<char>,
) -> Seq<char> {
    "Failed to move "@ + path + " to "@ + dest + ": "@ + e + " (Copy also failed: "@ + copy_e
        + ")"@
}

pub open spec fn cleanup_msg(path: Seq<char>, e: Seq<char>) -> Seq<char> {
    "Copied but failed to delete source "@ + path + ": "@ + e
}

fn text2(a: &str, b: &str) -> (r: String)
    ensures
        r@ == a@ + b@,
{
    let mut r = String::from_str(a);
    r.append(b);
    r
}

fn text4(a: &str, b: &str, c: &str, d: &str) -> (r: String)
    ensures
        r@ == a@ + b@ + c@ + d@,
{
    let mut r = String::from_str(a);
    r.append(b);
    r.append(c);
    r.append(d);
    r
}

// ---------------------------------------------------------------------------
// Tally
// ---------------------------------------------------------------------------

/// One more file for `year`.
pub open spec fn bump(m: Map<i32, usize>, year: i32) -> Map<i32, usize> {
    m.insert(year, ((if m.contains_key(year) { m[year] as int } else { 0 }) + 1) as usize)
}

/// The tally after a record was placed: as a duplicate, or as a new file of
/// its category and year.
pub open spec fn tally(r: ResultView, ft: FileType, year: i32, duplicate: bool) -> ResultView {
    if duplicate {
        ResultView { duplicates: r.duplicates + 1, ..r }
    } else {
        match ft {
            FileType::Photo => ResultView {
                moved: r.moved + 1,
                photos: r.photos + 1,
                photos_per_year: bump(r.photos_per_year, year),
                ..r
            },
            FileType::Video => ResultView {
                moved: r.moved + 1,
                videos: r.videos + 1,
                videos_per_year: bump(r.videos_per_year, year),
                ..r
            },
        }
    }
}

pub open spec fn with_error(r: ResultView, msg: Seq<char>) -> ResultView {
    ResultView { errors: r.errors.push(msg), ..r }
}

pub open spec fn with_warning(r: ResultView, msg: Seq<char>) -> ResultView {
    ResultView { warnings: r.warnings.push(msg), ..r }
}

/// The per-year map counts exactly the years in `placed`, one for each file
/// of the category; so the category's total is the sum of the map's counts.
pub open spec fn years_match(m: Map<i32, usize>, placed: Multiset<i32>, total: nat) -> bool {
    &&& placed.len() == total
    &&& forall|y: i32| #[trigger] placed.count(y) == (if m.contains_key(y) { m[y] as nat } else { 0 })
}

/// The counters of a tally agree with each other. `open` is 1 while a record
/// is in hand and 0 between records.
pub open spec fn tally_consistent(r: ResultView, open: nat) -> bool {
    &&& r.processed == r.moved + r.duplicates + r.errors.len() + open
    &&& r.moved == r.photos + r.videos
}

// ---------------------------------------------------------------------------
// The engine
// ---------------------------------------------------------------------------

/// The organizing engine: it takes the records one at a time, asks its caller
/// to perform filesystem work through `Action`s, decides from the reported
/// `Event`s where each file goes, and keeps the tally of the run.
pub struct Organizer {
    pub settings: OrganizeSettings,
    pub result: OrganizationResult,
    pub phase: Phase,
    /// The record in hand (the last one, between records).
    pub record: PhotoFile,
    /// `<target>/<category>/<year>` of the record in hand.
    pub year_dir: String,
    /// The directory that receives the record.
    pub dest_dir: String,
    /// The standard destination, and once allocated the final one.
    pub dest: String,
    /// Whether the record's content equals the file already at its standard
    /// destination.
    pub duplicate: bool,
    /// Why the rename failed, while a copy is tried instead.
    pub rename_error: String,
    /// The years of the photos placed so far, one for each photo.
    pub photo_years: Ghost<Multiset<i32>>,
    /// The years of the videos placed so far, one for each video.
    pub video_years: Ghost<Multiset<i32>>,
}

pub struct EngineView {
    pub target: Seq<char>,
    pub dry_run: bool,
    pub result: ResultView,
    pub phase: Phase,
    pub record: RecordView,
    pub year_dir: Seq<char>,
    pub dest_dir: Seq<char>,
    pub dest: Seq<char>,
    pub duplicate: bool,
    pub rename_error: Seq<char>,
}

impl View for Organizer {
    type V = EngineView;

    open spec fn view(&self) -> EngineView {
        EngineView {
            target: self.settings.target_dir@,
            dry_run: self.settings.dry_run,
            result: self.result@,
            phase: self.phase,
            record: self.record@,
            year_dir: self.year_dir@,
            dest_dir: self.dest_dir@,
            dest: self.dest@,
            duplicate: self.duplicate,
            rename_error: self.rename_error@,
        }
    }
}

/// `<target>/<Photos|Videos>/<year>` of a record.
pub open spec fn year_dir_of(target: Seq<char>, rec: RecordView) -> Seq<char> {
    join_spec(
        join_spec(target, category_name(rec.file_type)),
        signed_decimal(rec.date_taken.year as int),
    )
}

/// The engine on taking a new record.
pub open spec fn begin_spec(v: EngineView, rec: RecordView) -> (EngineView, ActionView) {
    let year_dir = year_dir_of(v.target, rec);
    let standard = join_spec(year_dir, file_name_spec(rec.path));
    let next = EngineView {
        result: ResultView { processed: v.result.processed + 1, ..v.result },
        phase: if v.dry_run { Phase::Probing } else { Phase::CreatingDir },
        record: rec,
        year_dir: year_dir,
        dest_dir: year_dir,
        dest: standard,
        duplicate: false,
        ..v
    };
    (next, if v.dry_run { ActionView::CheckExists(standard) } else { ActionView::CreateDir(year_dir) })
}

/// The record is placed: it is tallied and the engine is free again.
pub open spec fn finished(v: EngineView) -> EngineView {
    EngineView {
        phase: Phase::Idle,
        result: tally(v.result, v.record.file_type, v.record.date_taken.year, v.duplicate),
        ..v
    }
}

/// The destination is decided: a dry run ends here, a live run moves the file.
pub open spec fn place(v: EngineView) -> (EngineView, ActionView) {
    if v.dry_run {
        (finished(v), ActionView::Simulated(v.record.path, v.dest))
    } else {
        (EngineView { phase: Phase::PreparingParent, ..v }, ActionView::EnsureParent(v.dest_dir))
    }
}

/// The record failed with an error message; the engine is free again.
pub open spec fn failed(v: EngineView, msg: Seq<char>) -> (EngineView, ActionView) {
    (EngineView { phase: Phase::Idle, result: with_error(v.result, msg), ..v }, ActionView::Done)
}

/// The engine on an event that answers its last action.
pub open spec fn step(v: EngineView, e: EventView) -> (EngineView, ActionView) {
    let rec = v.record;
    match e {
        EventView::DirCreated(Ok(_)) => (
            EngineView { phase: Phase::Probing, ..v },
            ActionView::CheckExists(v.dest),
        ),
        EventView::DirCreated(Err(m)) => failed(v, dir_error_msg(v.year_dir, m)),
        EventView::Probed(exists) => if exists {
            (EngineView { phase: Phase::Hashing, ..v }, ActionView::HashFiles(rec.path, v.dest))
        } else {
            place(v)
        },
        EventView::Hashed(Err(m), _) => failed(v, source_hash_msg(rec.path, m)),
        EventView::Hashed(Ok(h), existing) => {
            let duplicate = existing == Some(h);
            let dir = if duplicate { join_spec(v.target, "Duplicates"@) } else { v.year_dir };
            let result = if existing is None {
                with_warning(v.result, existing_hash_msg(v.dest))
            } else {
                v.result
            };
            (
                EngineView {
                    phase: Phase::Listing,
                    result: result,
                    record: RecordView { hash: Some(h), ..rec },
                    duplicate: duplicate,
                    dest_dir: dir,
                    ..v
                },
                ActionView::ListDir(dir),
            )
        },
        EventView::Listed(Err(m)) => failed(v, list_error_msg(v.dest_dir, m)),
        EventView::Listed(Ok(names)) => {
            // Beside a file of other content, the standard name is known to be taken.
            let taken = if v.duplicate { names } else { names.insert(file_name_spec(rec.path)) };
            place(EngineView { dest: allocated_path(v.dest_dir, rec.path, taken), ..v })
        },
        EventView::ParentReady => (
            EngineView { phase: Phase::Renaming, ..v },
            ActionView::Rename(rec.path, v.dest),
        ),
        EventView::Renamed(Ok(_)) => (finished(v), ActionView::Done),
        EventView::Renamed(Err(m)) => (
            EngineView { phase: Phase::Copying, rename_error: m, ..v },
            ActionView::Copy(rec.path, v.dest),
        ),
        EventView::Copied(Ok(_)) => (
            EngineView { phase: Phase::Removing, ..v },
            ActionView::RemoveFile(rec.path),
        ),
        EventView::Copied(Err(m)) => failed(v, move_error_msg(rec.path, v.dest, v.rename_error, m)),
        EventView::Removed(Ok(_)) => (finished(v), ActionView::Done),
        EventView::Removed(Err(m)) => {
            let done = finished(v);
            (
                EngineView { result: with_warning(done.result, cleanup_msg(rec.path, m)), ..done },
                ActionView::Done,
            )
        },
    }
}

/// An action that changes the filesystem.
pub open spec fn writes(a: ActionView) -> bool {
    a is CreateDir || a is EnsureParent || a is Rename || a is Copy || a is RemoveFile
}

impl Organizer {
    /// The tally is consistent, each category's count is the sum of its year
    /// map, and the destinations in hand agree with the record.
    pub open spec fn wf(&self) -> bool {
        &&& self.counts_ok()
        &&& (self.phase == Phase::CreatingDir || self.phase == Phase::Probing || self.phase
            == Phase::Hashing || self.phase == Phase::Listing) ==> self.dest@ == join_spec(
            self.year_dir@,
            file_name_spec(self.record.path@),
        )
        &&& (self.phase == Phase::Listing && !self.duplicate) ==> self.dest_dir@ == self.year_dir@
    }

    /// The tally is consistent, each category's count is the sum of its year
    /// map, and a dry run stays clear of the phases that write.
    pub open spec fn counts_ok(&self) -> bool {
        &&& tally_consistent(self.result@, if self.phase == Phase::Idle { 0 } else { 1 })
        &&& years_match(self.result.photos_per_year@, self.photo_years@, self.result.photos_moved as nat)
        &&& years_match(self.result.videos_per_year@, self.video_years@, self.result.videos_moved as nat)
        &&& self.settings.dry_run ==> (self.phase == Phase::Idle || self.phase == Phase::Probing
            || self.phase == Phase::Hashing || self.phase == Phase::Listing)
    }

    /// An engine with nothing counted yet.
    pub fn new(settings: OrganizeSettings) -> (r: Organizer)
        ensures
            r.wf(),
            r.phase == Phase::Idle,
            r.result.is_empty(),
            r@.target == settings.target_dir@,
            r@.dry_run == settings.dry_run,
    {
        let r = Organizer {
            settings,
            result: OrganizationResult::new(),
            phase: Phase::Idle,
            record: PhotoFile {
                path: String::new(),
                date_taken: CaptureTime { year: 1970, month: 1, day: 1, hour: 0, minute: 0, second: 0 },
                is_approximate: false,
                file_type: FileType::Photo,
                hash: None,
            },
            year_dir: String::new(),
            dest_dir: String::new(),
            dest: String::new(),
            duplicate: false,
            rename_error: String::new(),
            photo_years: Ghost(Multiset::empty()),
            video_years: Ghost(Multiset::empty()),
        };
        assert(texts(r.result.errors@) =~= Seq::empty());
        r
    }

    fn push_error(&mut self, msg: String)
        ensures
            final(self)@ == (EngineView { result: with_error(old(self)@.result, msg@), ..old(self)@ }),
            final(self).phase == old(self).phase,
            final(self).record == old(self).record,
            final(self).result.errors@.len() == old(self).result.errors@.len() + 1,
            final(self).result.photos_per_year == old(self).result.photos_per_year,
            final(self).result.videos_per_year == old(self).result.videos_per_year,
            final(self).photo_years == old(self).photo_years,
            final(self).video_years == old(self).video_years,
            final(self).dest == old(self).dest,
            final(self).dest_dir == old(self).dest_dir,
            final(self).year_dir == old(self).year_dir,
            final(self).duplicate == old(self).duplicate,
    {
        self.result.errors.push(msg);
        assert(texts(self.result.errors@) =~= texts(old(self).result.errors@).push(msg@));
    }

    fn push_warning(&mut self, msg: String)
        ensures
            final(self)@ == (EngineView { result: with_warning(old(self)@.result, msg@), ..old(self)@ }),
            final(self).phase == old(self).phase,
            final(self).record == old(self).record,
            final(self).result.errors == old(self).result.errors,
            final(self).result.photos_per_year == old(self).result.photos_per_year,
            final(self).result.videos_per_year == old(self).result.videos_per_year,
            final(self).photo_years == old(self).photo_years,
            final(self).video_years == old(self).video_years,
            final(self).dest == old(self).dest,
            final(self).dest_dir == old(self).dest_dir,
            final(self).year_dir == old(self).year_dir,
            final(self).duplicate == old(self).duplicate,
    {
        self.result.warnings.push(msg);
        assert(texts(self.result.warnings@) =~= texts(old(self).result.warnings@).push(msg@));
    }

    /// Tallies the record in hand as placed and frees the engine.
    fn finish(&mut self)
        requires
            old(self).counts_ok(),
            old(self).phase != Phase::Idle,
        ensures
            final(self)@ == finished(old(self)@),
            final(self).wf(),
    {
        let year = self.record.date_taken.year;
        if self.duplicate {
            self.result.duplicates_found = self.result.duplicates_found + 1;
        } else {
            self.result.moved_files = self.result.moved_files + 1;
            match self.record.file_type {
                FileType::Photo => {
                    self.result.photos_moved = self.result.photos_moved + 1;
                    let n: usize = match self.result.photos_per_year.get(&year) {
                        Some(c) => *c,
                        None => 0,
                    };
                    assert(self.photo_years@.count(year) <= self.photo_years@.len());
                    self.result.photos_per_year.insert(year, n + 1);
                    self.photo_years = Ghost(self.photo_years@.insert(year));
                },
                FileType::Video => {
                    self.result.videos_moved = self.result.videos_moved + 1;
                    let n: usize = match self.result.videos_per_year.get(&year) {
                        Some(c) => *c,
                        None => 0,
                    };
                    assert(self.video_years@.count(year) <= self.video_years@.len());
                    self.result.videos_per_year.insert(year, n + 1);
                    self.video_years = Ghost(self.video_years@.insert(year));
                },
            }
        }
        self.phase = Phase::Idle;
    }

    /// Continues once the destination is decided.
    fn place(&mut self) -> (r: Action)
        requires
            old(self).counts_ok(),
            old(self).phase != Phase::Idle,
        ensures
            (final(self)@, r@) == place(old(self)@),
            final(self).wf(),
    {
        if self.settings.dry_run {
            self.finish();
            Action::Simulated { from: self.record.path.clone(), to: self.dest.clone() }
        } else {
            self.phase = Phase::PreparingParent;
            Action::EnsureParent { dir: self.dest_dir.clone() }
        }
    }

    /// Ends the record in hand with an error.
    fn fail(&mut self, msg: String) -> (r: Action)
        requires
            old(self).counts_ok(),
            old(self).phase != Phase::Idle,
        ensures
            (final(self)@, r@) == failed(old(self)@, msg@),
            final(self).wf(),
    {
        self.push_error(msg);
        self.phase = Phase::Idle;
        Action::Done
    }

    /// Takes the next record. In a live run the year directory is created
    /// first; in a dry run the engine goes straight to looking at the standard
    /// destination.
    pub fn begin(&mut self, record: PhotoFile) -> (r: Action)
        requires
            old(self).wf(),
            old(self).phase == Phase::Idle,
            old(self).result.processed_files < usize::MAX,
        ensures
            final(self).wf(),
            (final(self)@, r@) == begin_spec(old(self)@, record@),
            old(self).settings.dry_run ==> !writes(r@),
    {
        self.result.processed_files = self.result.processed_files + 1;
        let year = signed_to_string(record.date_taken.year);
        let cat_dir = join(self.settings.target_dir.as_str(), category_folder(record.file_type));
        let year_dir = join(cat_dir.as_str(), year.as_str());
        let name = file_name(record.path.as_str());
        let standard = join(year_dir.as_str(), name.as_str());
        self.dest_dir = year_dir.clone();
        self.year_dir = year_dir;
        self.dest = standard;
        self.duplicate = false;
        self.record = record;
        if self.settings.dry_run {
            self.phase = Phase::Probing;
            Action::CheckExists { path: self.dest.clone() }
        } else {
            self.phase = Phase::CreatingDir;
            Action::CreateDir { dir: self.year_dir.clone() }
        }
    }

    /// Takes the caller's report on the last action and says what to do next.
    /// `Done` and `Simulated` end the record.
    pub fn advance(&mut self, event: Event) -> (r: Action)
        requires
            old(self).wf(),
            answers(old(self).phase, event@),
        ensures
            final(self).wf(),
            (final(self)@, r@) == step(old(self)@, event@),
            old(self).settings.dry_run ==> !writes(r@),
            (old(self).phase == Phase::Listing && !old(self).duplicate && (event@ matches EventView::Listed(Ok(_))))
                ==> final(self).dest@ != old(self).dest@,
    {
        match event {
            Event::DirCreated(Ok(())) => {
                self.phase = Phase::Probing;
                Action::CheckExists { path: self.dest.clone() }
            },
            Event::DirCreated(Err(e)) => {
                let msg = text4("Failed to create dir ", self.year_dir.as_str(), ": ", e.as_str());
                self.fail(msg)
            },
            Event::Probed(exists) => {
                if exists {
                    self.phase = Phase::Hashing;
                    Action::HashFiles { source: self.record.path.clone(), existing: self.dest.clone() }
                } else {
                    self.place()
                }
            },
            Event::Hashed { source: Err(e), existing: _ } => {
                let msg = text4("Failed to hash source ", self.record.path.as_str(), ": ", e.as_str());
                self.fail(msg)
            },
            Event::Hashed { source: Ok(h), existing } => {
                let duplicate = match &existing {
                    Some(x) => *x == h,
                    None => false,
                };
                if existing.is_none() {
                    let msg = text2(
                        text2("Could not hash existing file ", self.dest.as_str()).as_str(),
                        ", treating as name collision",
                    );
                    self.push_warning(msg);
                }
                if duplicate {
                    self.dest_dir = join(self.settings.target_dir.as_str(), "Duplicates");
                } else {
                    self.dest_dir = self.year_dir.clone();
                }
                self.duplicate = duplicate;
                self.record.hash = Some(h);
                self.phase = Phase::Listing;
                Action::ListDir { dir: self.dest_dir.clone() }
            },
            Event::Listed(Err(e)) => {
                let msg = text4("Failed to list ", self.dest_dir.as_str(), ": ", e.as_str());
                self.fail(msg)
            },
            Event::Listed(Ok(names)) => {
                let mut names = names;
                if !self.duplicate {
                    let known = file_name(self.record.path.as_str());
                    let ghost before = names@;
                    names.push(known);
                    proof {
                        lemma_name_set_push(before, names@.last());
                        assert(names@ == before.push(names@.last()));
                    }
                }
                let ghost standard = self.dest@;
                self.dest = get_unique_target_path(self.dest_dir.as_str(), self.record.path.as_str(), &names);
                proof {
                    if !self.duplicate {
                        seq_to_set_is_finite(texts(names@));
                        crate::organizer::lemma_allocation_fresh_and_increasing(self.record.path@, name_set(names@));
                        lemma_join_injective(
                            self.year_dir@,
                            crate::organizer::allocated_name(file_name_spec(self.record.path@), name_set(names@)),
                            file_name_spec(self.record.path@),
                        );
                        assert(self.dest@ != standard);
                    }
                }
                self.place()
            },
            Event::ParentReady => {
                self.phase = Phase::Renaming;
                Action::Rename { from: self.record.path.clone(), to: self.dest.clone() }
            },
            Event::Renamed(Ok(())) => {
                self.finish();
                Action::Done
            },
            Event::Renamed(Err(e)) => {
                self.rename_error = e;
                self.phase = Phase::Copying;
                Action::Copy { from: self.record.path.clone(), to: self.dest.clone() }
            },
            Event::Copied(Ok(())) => {
                self.phase = Phase::Removing;
                Action::RemoveFile { path: self.record.path.clone() }
            },
            Event::Copied(Err(e)) => {
                let head = text4("Failed to move ", self.record.path.as_str(), " to ", self.dest.as_str());
                let tail = text4(": ", self.rename_error.as_str(), " (Copy also failed: ", e.as_str());
                let msg = text2(text2(head.as_str(), tail.as_str()).as_str(), ")");
                assert(msg@ =~= move_error_msg(self.record.path@, self.dest@, self.rename_error@, e@));
                self.fail(msg)
            },
            Event::Removed(Ok(())) => {
                self.finish();
                Action::Done
            },
            Event::Removed(Err(e)) => {
                self.finish();
                let msg = text4("Copied but failed to delete source ", self.record.path.as_str(), ": ", e.as_str());
                self.push_warning(msg);
                Action::Done
            },
        }
    }

    /// The tally so far.
    pub fn result(&self) -> (r: &OrganizationResult)
        ensures
            r == &self.result,
    {
        &self.result
    }

    /// Ends the run and hands over its tally.
    pub fn into_result(self) -> (r: OrganizationResult)
        ensures
            r@ == self.result@,
    {
        self.result
    }
}


/// Between records, every record handed to the engine is counted once as
/// placed, once as a duplicate, or by one error message.
pub proof fn lemma_tally_balanced(o: &Organizer)
    requires
        o.wf(),
        o.phase == Phase::Idle,
    ensures
        o.result.balanced(),
{
}

/// Where a same-named file already sits at the standard destination: equal
/// digests send the record to `Duplicates` and count it as a duplicate once
/// placed; differing or unreadable digests keep it in its year directory,
/// where it is counted as a new file under a name that differs from the one
/// already there.
pub proof fn lemma_duplicate_routing(v: EngineView, h: Seq<char>, existing: Option<Seq<char>>, taken: Set<Seq<char>>)
    requires
        v.phase == Phase::Hashing,
        taken.finite(),
    ensures
        ({
            let (n, a) = step(v, EventView::Hashed(Ok(h), existing));
            let (placed, _) = step(n, EventView::Listed(Ok(taken)));
            let known = taken.insert(file_name_spec(v.record.path));
            let counted = tally(n.result, v.record.file_type, v.record.date_taken.year, n.duplicate);
            &&& existing == Some(h) ==> {
                &&& a == ActionView::ListDir(join_spec(v.target, "Duplicates"@))
                &&& counted.duplicates == v.result.duplicates + 1
                &&& counted.moved == v.result.moved
            }
            &&& existing != Some(h) ==> {
                &&& a == ActionView::ListDir(v.year_dir)
                &&& counted.duplicates == v.result.duplicates
                &&& counted.moved == v.result.moved + 1
                &&& placed.dest == join_spec(
                    v.year_dir,
                    crate::organizer::allocated_name(file_name_spec(v.record.path), known),
                )
                &&& crate::organizer::allocated_name(file_name_spec(v.record.path), known)
                    != file_name_spec(v.record.path)
            }
        }),
{
    crate::organizer::lemma_allocation_fresh_and_increasing(
        v.record.path,
        taken.insert(file_name_spec(v.record.path)),
    );
}

/// Adding a name to a listing adds it to the set of names.
proof fn lemma_name_set_push(v: Seq<String>, s: String)
    ensures
        name_set(v.push(s)) == name_set(v).insert(s@),
{
    let w = v.push(s);
    assert(texts(w) =~= texts(v).push(s@));
    assert forall|x: Seq<char>| name_set(w).contains(x) <==> name_set(v).insert(s@).contains(x) by {
        if name_set(w).contains(x) {
            let i = choose|i: int| 0 <= i < texts(w).len() && texts(w)[i] == x;
            if i < v.len() {
                assert(texts(v)[i] == x);
            }
        }
        if name_set(v).contains(x) {
            let i = choose|i: int| 0 <= i < texts(v).len() && texts(v)[i] == x;
            assert(texts(w)[i] == x);
        }
        if x == s@ {
            assert(texts(w)[v.len() as int] == x);
        }
    }
    assert(name_set(w) =~= name_set(v).insert(s@));
}

/// Within one directory, different names give different paths.
pub proof fn lemma_join_injective(dir: Seq<char>, a: Seq<char>, b: Seq<char>)
    requires
        a != b,
    ensures
        join_spec(dir, a) != join_spec(dir, b),
{
    let pre = if dir.len() == 0 {
        Seq::<char>::empty()
    } else if dir.last() == '/' {
        dir
    } else {
        dir + seq!['/']
    };
    assert(join_spec(dir, a) =~= pre + a);
    assert(join_spec(dir, b) =~= pre + b);
    if pre + a == pre + b {
        assert(a =~= (pre + a).subrange(pre.len() as int, (pre + a).len() as int));
        assert(b =~= (pre + b).subrange(pre.len() as int, (pre + b).len() as int));
    }
}

/// A dry run counts a record exactly as a live run in which creating the year
/// directory and the move succeed: from the same record and the same tally,
/// both reach the same state once the record is taken, and both leave the same
/// tally once its destination is decided.
pub proof fn lemma_dry_run_counts_as_live(v: EngineView, rec: RecordView)
    ensures
        ({
            let dry = begin_spec(EngineView { dry_run: true, ..v }, rec).0;
            let live = step(begin_spec(EngineView { dry_run: false, ..v }, rec).0, EventView::DirCreated(Ok(()))).0;
            live == EngineView { dry_run: false, ..dry }
        }),
        v.phase != Phase::Idle ==> ({
            let dry = place(EngineView { dry_run: true, ..v }).0;
            let live = step(
                step(place(EngineView { dry_run: false, ..v }).0, EventView::ParentReady).0,
                EventView::Renamed(Ok(())),
            ).0;
            live == EngineView { dry_run: false, ..dry }
        }),
{
}

} // verus!
