//! Data shared about game instances: generational identifiers, run status,
//! world/server summaries, and the cached content-update decision.
//!
//! Mod loaders and game versions are carried as plain strings; a cached
//! update status is only meaningful for the loader and version it was
//! computed against.

use vstd::prelude::*;

verus! {

/// A generational index naming one instance; `dangling` names none.
#[derive(Debug, Clone, Copy, PartialEq, Eq, PartialOrd, Ord, Hash, Structural)]
pub struct InstanceID {
    pub index: usize,
    pub generation: usize,
}

impl InstanceID {
    /// The identifier that never names a live instance.
    pub fn dangling() -> (r: Self)
        ensures
            r.index == usize::MAX,
            r.generation == usize::MAX,
    {
        Self { index: usize::MAX, generation: usize::MAX }
    }
}

/// A generational index naming one piece of content inside an instance.
#[derive(Debug, Clone, Copy, PartialEq, Eq, PartialOrd, Ord, Hash, Structural)]
pub struct InstanceContentID {
    pub index: usize,
    pub generation: usize,
}

impl InstanceContentID {
    /// The identifier that never names live content.
    pub fn dangling() -> (r: Self)
        ensures
            r.index == usize::MAX,
            r.generation == usize::MAX,
    {
        Self { index: usize::MAX, generation: usize::MAX }
    }
}

/// Whether an instance's game process is currently running.
#[derive(Clone, Copy, Debug, PartialEq, Eq, Structural)]
pub enum InstanceStatus {
    NotRunning,
    Launching,
    Running,
}

/// A saved world of an instance, as shown in its world list.
#[derive(Debug, Clone)]
pub struct InstanceWorldSummary {
    pub title: String,
    pub subtitle: String,
    pub level_path: String,
    pub last_played: i64,
    pub png_icon: Option<Vec<u8>>,
}

/// A remembered multiplayer server of an instance.
#[derive(Debug, Clone)]
pub struct InstanceServerSummary {
    pub name: String,
    pub ip: String,
    pub png_icon: Option<Vec<u8>>,
}

/// What is known about updating one piece of content.
#[derive(Debug, Clone, Copy, PartialEq, Eq, Structural)]
pub enum ContentUpdateStatus {
    Unknown,
    ManualInstall,
    ErrorNotFound,
    ErrorInvalidHash,
    AlreadyUpToDate,
    Modrinth,
}

impl ContentUpdateStatus {
    /// An update can be performed exactly when one is known to exist on the
    /// content platform.
    pub fn can_update(&self) -> (r: bool)
        ensures
            r == (*self is Modrinth),
    {
        match self {
            ContentUpdateStatus::Modrinth => true,
            _ => false,
        }
    }
}

/// A content-update status together with the loader and game version it was
/// computed for; against any other pair it says nothing.
#[derive(Debug, Clone)]
pub struct ContentUpdateContext {
    status: ContentUpdateStatus,
    for_loader: String,
    for_version: String,
}

impl ContentUpdateContext {
    pub closed spec fn spec_status(&self) -> ContentUpdateStatus {
        self.status
    }

    pub closed spec fn spec_loader(&self) -> Seq<char> {
        self.for_loader@
    }

    pub closed spec fn spec_version(&self) -> Seq<char> {
        self.for_version@
    }

    pub fn new(status: ContentUpdateStatus, for_loader: String, for_version: String) -> (r: Self)
        ensures
            r.spec_status() == status,
            r.spec_loader() == for_loader@,
            r.spec_version() == for_version@,
    {
        Self { status, for_loader, for_version }
    }

    /// The cached status, if it was computed for exactly this loader and
    /// version; `Unknown` otherwise.
    pub fn status_if_matches(&self, loader: &String, version: &String) -> (r: ContentUpdateStatus)
        ensures
            r == if self.spec_loader() == loader@ && self.spec_version() == version@ {
                self.spec_status()
            } else {
                ContentUpdateStatus::Unknown
            },
    {
        if *loader == self.for_loader && *version == self.for_version {
            self.status
        } else {
            ContentUpdateStatus::Unknown
        }
    }

    /// Whether an update can be performed now, for this loader and version.
    pub fn can_update(&self, loader: &String, version: &String) -> (r: bool)
        ensures
            r == (self.spec_loader() == loader@ && self.spec_version() == version@
                && self.spec_status() is Modrinth),
    {
        let m = *loader == self.for_loader && *version == self.for_version;
        m && self.status.can_update()
    }
}

} // verus!
