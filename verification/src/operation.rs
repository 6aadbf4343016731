//! Repeatable contracts and syndicate operations: their lifecycle states,
//! issuers, scopes, per-participant contribution tallies, and the midgame
//! stage ladder.

use vstd::prelude::*;

use crate::ids::{EntityId, PlayerId, SyndicateId};

verus! {

/// The kind of follow-up job a briefing offers.
#[derive(Debug, Clone, Copy, PartialEq, Eq, PartialOrd, Ord, Structural)]
pub enum FollowUpKind {
    Escort,
    Salvage,
    Production,
    Patrol,
    DangerousFreight,
    GuardedSalvage,
    Depot,
    Stronghold,
    CounterRaidTrace,
    CounterRaidAssault,
    CounterRaidRecovery,
    SiteRecovery,
    CombatPreparation,
}

/// Private linkage between the stages of a counter-raid.
#[derive(Debug, Clone, Copy, PartialEq, Eq, Structural)]
pub struct CounterRaid {
    pub raid: EntityId,
    pub home: EntityId,
    pub source: EntityId,
}

/// Published, immutable contract terms.
#[derive(Debug, Clone, PartialEq, Eq)]
pub struct OperationBriefing {
    pub follow_up: FollowUpKind,
    pub title: String,
    pub difficulty: String,
    pub suitable_fleets: String,
    pub summary: String,
    pub variant: u8,
}

/// Physical encounter bookkeeping (never part of the player's view).
#[derive(Debug, Clone, PartialEq, Eq)]
pub struct FollowUpEncounter {
    pub protected_fleet: Option<EntityId>,
    pub staged_at_home: bool,
    pub launched: bool,
    pub pirates: Vec<EntityId>,
}

/// An operation's lifecycle state.
#[derive(Debug, Clone, Copy, PartialEq, Eq, Structural)]
pub enum OperationState {
    Offered,
    Active,
    Completed,
    Failed,
    Expired,
    Abandoned,
}

impl OperationState {
    /// A terminal state accepts no further progress.
    pub fn terminal(self) -> (r: bool)
        ensures
            r == !(self == OperationState::Offered || self == OperationState::Active),
    {
        match self {
            OperationState::Completed | OperationState::Failed | OperationState::Expired
            | OperationState::Abandoned => true,
            _ => false,
        }
    }
}

/// Who posted an operation.
#[derive(Debug, Clone, Copy, PartialEq, Eq, Structural)]
pub enum OperationIssuer {
    Authority,
    Market,
    SurveyOffice,
    SalvageOffice,
    RegionalCouncil,
    Syndicate,
}

/// Who may take an operation.
#[derive(Debug, Clone, Copy, PartialEq, Eq, Structural)]
pub enum OperationScope {
    Private { player: PlayerId },
    Public,
    Syndicate { syndicate: SyndicateId },
}

/// Whether an operation in `state` under `scope` takes `player` (a member of
/// `syndicate`, if any): never once it has ended; a private operation only
/// its owner, a public one anybody, a syndicate one only that syndicate's
/// members.
pub open spec fn spec_accepts(
    state: OperationState,
    scope: OperationScope,
    player: PlayerId,
    syndicate: Option<SyndicateId>,
) -> bool {
    (state == OperationState::Offered || state == OperationState::Active) && match scope {
        OperationScope::Private { player: owner } => owner == player,
        OperationScope::Public => true,
        OperationScope::Syndicate { syndicate: sid } => syndicate == Some(sid),
    }
}

/// Does an operation in `state` under `scope` accept `player`?
pub fn accepts(
    state: OperationState,
    scope: OperationScope,
    player: PlayerId,
    syndicate: Option<SyndicateId>,
) -> (r: bool)
    ensures
        r == spec_accepts(state, scope, player, syndicate),
{
    !state.terminal() && match scope {
        OperationScope::Private { player: owner } => owner == player,
        OperationScope::Public => true,
        OperationScope::Syndicate { syndicate: sid } => match syndicate {
            Some(s) => s == sid,
            None => false,
        },
    }
}

/// One participant's contribution tally.
#[derive(Debug, Clone, Copy, PartialEq, Eq, Structural)]
pub struct Contribution {
    pub progress: u32,
    pub goods: u32,
    pub combat: u32,
    pub exploration: u32,
    pub escort: u32,
}

impl Contribution {
    /// The participant's total score: the sum of every tally.
    pub fn score(self) -> (s: u64)
        ensures
            s == self.progress + self.goods + self.combat + self.exploration + self.escort,
    {
        self.progress as u64 + self.goods as u64 + self.combat as u64 + self.exploration as u64
            + self.escort as u64
    }
}

/// The midgame stage ladder.
#[derive(Debug, Clone, Copy, PartialEq, Eq, Structural)]
pub enum MidgameStage {
    HomeDevelopment,
    Exploration,
    Specialization,
    FirstColony,
    TradeNetwork,
    ContestedExpansion,
    RegionalPower,
}

impl MidgameStage {
    /// The stage's position on the ladder (0 = home development).
    pub fn ordinal(self) -> (n: u8)
        ensures
            n == match self {
                MidgameStage::HomeDevelopment => 0u8,
                MidgameStage::Exploration => 1,
                MidgameStage::Specialization => 2,
                MidgameStage::FirstColony => 3,
                MidgameStage::TradeNetwork => 4,
                MidgameStage::ContestedExpansion => 5,
                MidgameStage::RegionalPower => 6,
            },
    {
        match self {
            MidgameStage::HomeDevelopment => 0,
            MidgameStage::Exploration => 1,
            MidgameStage::Specialization => 2,
            MidgameStage::FirstColony => 3,
            MidgameStage::TradeNetwork => 4,
            MidgameStage::ContestedExpansion => 5,
            MidgameStage::RegionalPower => 6,
        }
    }
}

impl Default for MidgameStage {
    /// Every corporation starts at home development.
    fn default() -> (s: Self)
        ensures
            s == MidgameStage::HomeDevelopment,
    {
        MidgameStage::HomeDevelopment
    }
}

} // verus!
