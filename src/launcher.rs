//! The launcher's state: versions, installation path, release notes, and the
//! progress of an install.
//!
//! An install runs as a sequence of outside steps. The launcher decides which
//! step comes next from the event that the previous one produced; the caller
//! performs the step and reports back.
use vstd::prelude::*;
use vstd::string::StringExecFns;
use crate::release::{display_pair, shown_pair, FetchError, VersionInfo};

verus! {

/// Endpoint that describes the latest published release.
pub const RELEASE_URL: &'static str = "https://api.github.com/repos/makscee/arena-of-ideas/releases/latest";
/// Client identification that the release endpoint requires.
pub const USER_AGENT: &'static str = "ArenaOfIdeasLauncher";
/// Location of the update archive.
pub const DOWNLOAD_URL: &'static str = "https://github.com/makscee/arena-of-ideas/releases/download/v1.8.2/arena-of-ideas-windows-v1.8.2.zip";
/// File name of the downloaded archive inside the installation path.
pub const ARCHIVE_FILE_NAME: &'static str = "arena-of-ideas.zip";
/// Directory inside the installation path that the archive is extracted to.
pub const INSTALL_DIR_NAME: &'static str = "arena-of-ideas";
/// Shown for a version that is not known yet.
pub const LOADING: &'static str = "loading...";
/// Installation path used until the user picks another.
pub const DEFAULT_PATH: &'static str = "E:\\Games\\Launcher";

/// Where an install attempt stands.
#[derive(PartialEq, Eq, Structural, Clone, Copy, Debug)]
pub enum InstallState {
    Idle,
    Downloading,
    WritingArchive,
    Extracting,
    Cleanup,
    Done,
    Aborted,
}

/// What the last outside step reported, or the user's request to install.
#[derive(PartialEq, Eq, Structural, Clone, Copy, Debug)]
pub enum InstallEvent {
    Requested,
    Downloaded,
    ArchiveWritten,
    Extracted,
    ArchiveRemoved,
    Failed,
}

/// The outside step to perform next.
#[derive(PartialEq, Eq, Structural, Clone, Copy, Debug)]
pub enum InstallAction {
    Nothing,
    Download,
    WriteArchive,
    Extract,
    RemoveArchive,
}

impl InstallState {
    /// An install is under way.
    pub open spec fn spec_in_progress(self) -> bool {
        match self {
            InstallState::Downloading | InstallState::WritingArchive
            | InstallState::Extracting | InstallState::Cleanup => true,
            _ => false,
        }
    }

    /// Whether an install is under way.
    pub fn in_progress(&self) -> (r: bool)
        ensures
            r == self.spec_in_progress(),
    {
        match self {
            InstallState::Downloading | InstallState::WritingArchive
            | InstallState::Extracting | InstallState::Cleanup => true,
            _ => false,
        }
    }
}

/// The state and step that follow `s` on event `e`. A request starts a
/// download unless an install is under way; each completed step leads to the
/// next; a failure aborts a running install; any other event changes nothing.
pub open spec fn next_install(s: InstallState, e: InstallEvent) -> (InstallState, InstallAction) {
    match (s, e) {
        (InstallState::Idle, InstallEvent::Requested)
        | (InstallState::Done, InstallEvent::Requested)
        | (InstallState::Aborted, InstallEvent::Requested) => (InstallState::Downloading, InstallAction::Download),
        (InstallState::Downloading, InstallEvent::Downloaded) => (InstallState::WritingArchive, InstallAction::WriteArchive),
        (InstallState::WritingArchive, InstallEvent::ArchiveWritten) => (InstallState::Extracting, InstallAction::Extract),
        (InstallState::Extracting, InstallEvent::Extracted) => (InstallState::Cleanup, InstallAction::RemoveArchive),
        (InstallState::Cleanup, InstallEvent::ArchiveRemoved) => (InstallState::Done, InstallAction::Nothing),
        (_, InstallEvent::Failed) => if s.spec_in_progress() {
            (InstallState::Aborted, InstallAction::Nothing)
        } else {
            (s, InstallAction::Nothing)
        },
        _ => (s, InstallAction::Nothing),
    }
}

/// Everything the launcher shows and tracks.
pub struct Launcher {
    pub current_version: String,
    pub latest_version: String,
    pub path: String,
    pub release_notes: String,
    pub install: InstallState,
}

impl Launcher {
    /// The launcher before the latest release is known.
    pub fn new() -> (r: Launcher)
        ensures
            r.current_version@ == LOADING@,
            r.latest_version@ == LOADING@,
            r.path@ == DEFAULT_PATH@,
            r.release_notes@ == Seq::<char>::empty(),
            r.install == InstallState::Idle,
    {
        Launcher {
            current_version: String::from_str(LOADING),
            latest_version: String::from_str(LOADING),
            path: String::from_str(DEFAULT_PATH),
            release_notes: String::new(),
            install: InstallState::Idle,
        }
    }

    /// Records the outcome of fetching the latest release: its version and
    /// notes, or the error's headline and explanation in their place.
    pub fn apply_fetch(&mut self, outcome: Result<VersionInfo, FetchError>)
        ensures
            (final(self).latest_version@, final(self).release_notes@) == shown_pair(outcome),
            final(self).current_version == old(self).current_version,
            final(self).path == old(self).path,
            final(self).install == old(self).install,
    {
        let (version, notes) = display_pair(outcome);
        self.latest_version = version;
        self.release_notes = notes;
    }

    /// Whether the installed version differs from the latest one.
    pub fn update_available(&self) -> (r: bool)
        ensures
            r == (self.current_version@ != self.latest_version@),
    {
        self.current_version != self.latest_version
    }

    /// Replaces the installation path.
    pub fn set_path(&mut self, path: String)
        ensures
            final(self).path == path,
            final(self).current_version == old(self).current_version,
            final(self).latest_version == old(self).latest_version,
            final(self).release_notes == old(self).release_notes,
            final(self).install == old(self).install,
    {
        self.path = path;
    }

    /// Advances the install on event `e` and returns the step to perform next.
    pub fn on_install_event(&mut self, e: InstallEvent) -> (a: InstallAction)
        ensures
            (final(self).install, a) == next_install(old(self).install, e),
            old(self).install.spec_in_progress() && e == InstallEvent::Requested
                ==> final(self).install == old(self).install && a == InstallAction::Nothing,
            final(self).current_version == old(self).current_version,
            final(self).latest_version == old(self).latest_version,
            final(self).path == old(self).path,
            final(self).release_notes == old(self).release_notes,
    {
        let s = self.install;
        let (next, action) = match e {
            InstallEvent::Requested => if s.in_progress() {
                (s, InstallAction::Nothing)
            } else {
                (InstallState::Downloading, InstallAction::Download)
            },
            InstallEvent::Downloaded => if s == InstallState::Downloading {
                (InstallState::WritingArchive, InstallAction::WriteArchive)
            } else {
                (s, InstallAction::Nothing)
            },
            InstallEvent::ArchiveWritten => if s == InstallState::WritingArchive {
                (InstallState::Extracting, InstallAction::Extract)
            } else {
                (s, InstallAction::Nothing)
            },
            InstallEvent::Extracted => if s == InstallState::Extracting {
                (InstallState::Cleanup, InstallAction::RemoveArchive)
            } else {
                (s, InstallAction::Nothing)
            },
            InstallEvent::ArchiveRemoved => if s == InstallState::Cleanup {
                (InstallState::Done, InstallAction::Nothing)
            } else {
                (s, InstallAction::Nothing)
            },
            InstallEvent::Failed => if s.in_progress() {
                (InstallState::Aborted, InstallAction::Nothing)
            } else {
                (s, InstallAction::Nothing)
            },
        };
        self.install = next;
        action
    }
}

impl Default for Launcher {
    fn default() -> (r: Launcher)
        ensures
            r.current_version@ == LOADING@,
            r.latest_version@ == LOADING@,
            r.path@ == DEFAULT_PATH@,
            r.release_notes@ == Seq::<char>::empty(),
            r.install == InstallState::Idle,
    {
        Launcher::new()
    }
}

} // verus!
