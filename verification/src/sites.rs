//! Exploration sites: what a site is, the expedition tasks a corporation can
//! run there, and the private journal a command center keeps about places.

use vstd::prelude::*;

use crate::ids::EntityId;

verus! {

/// Machinery a restoration consumes.
pub const RESTORE_MACHINERY: u32 = 12;
/// Electronics a restoration consumes.
pub const RESTORE_ELECTRONICS: u32 = 8;
/// Longest journal note, in characters.
pub const JOURNAL_NOTE_CHARS: usize = 400;
/// Most journal entries one corporation keeps.
pub const JOURNAL_LIMIT: usize = 256;

/// What a site is.
#[derive(Debug, Clone, Copy, PartialEq, Eq, Structural)]
pub enum SiteKind {
    Derelict,
    Station,
    Asteroids,
    Anomaly,
    Precursor,
}

/// Work an expedition can do at a site.
#[derive(Debug, Clone, Copy, PartialEq, Eq, Structural)]
pub enum ExpeditionTask {
    Investigate,
    Recover,
    Restore,
    /// Explicit choices: ordinary travel never opts into deep or risky work.
    Study,
    Extract,
}

impl ExpeditionTask {
    /// Whole seconds on site the task takes.
    pub fn seconds(self) -> (s: u32)
        ensures
            s == match self {
                ExpeditionTask::Investigate => 20u32,
                ExpeditionTask::Recover => 30u32,
                ExpeditionTask::Restore => 60u32,
                ExpeditionTask::Study => 60u32,
                ExpeditionTask::Extract => 45u32,
            },
    {
        match self {
            ExpeditionTask::Investigate => 20,
            ExpeditionTask::Recover => 30,
            ExpeditionTask::Restore => 60,
            ExpeditionTask::Study => 60,
            ExpeditionTask::Extract => 45,
        }
    }
}

/// What a deep task needs sent to the site.
#[derive(Debug, Clone, Copy, PartialEq, Eq, Structural)]
pub enum StudyRequirement {
    Scout,
    ResearchTeam,
    FuelledFreighter,
    ShieldedFreighter,
}

/// What a journal entry is about.
#[derive(Debug, Clone, Copy, PartialEq, Eq, Structural)]
pub enum JournalKind {
    Site,
    System,
}

/// A private command-center annotation about a place.
#[derive(Debug, Clone, PartialEq, Eq)]
pub struct JournalEntry {
    pub id: EntityId,
    pub kind: JournalKind,
    pub pinned: bool,
    pub note: String,
}

/// An expedition sent to do one task at one site.
#[derive(Debug, Clone, Copy, PartialEq, Eq, Structural)]
pub struct ExpeditionAssignment {
    pub site: EntityId,
    pub task: ExpeditionTask,
}

} // verus!
