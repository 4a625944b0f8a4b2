//! Scheduled events of guilds.

use vstd::prelude::*;
use crate::gateway::events::Unimplemented;

verus! {

/// The id of a scheduled event.
pub struct GuildScheduledEventId(pub String);

/// Who can see a scheduled event.
#[derive(Clone, Copy, Debug, PartialEq, Eq, Structural, Hash)]
pub enum GuildeScheduledEventPrivacyLevel {
    GuildOnly,
}

impl GuildeScheduledEventPrivacyLevel {
    /// The integer this value travels as.
    pub open spec fn spec_code(self) -> u64 {
        match self {
            GuildeScheduledEventPrivacyLevel::GuildOnly => 2,
        }
    }

    pub fn code(&self) -> (r: u64)
        ensures
            r == self.spec_code(),
    {
        match self {
            GuildeScheduledEventPrivacyLevel::GuildOnly => 2,
        }
    }

    /// The value that travels as `code`, if any.
    pub fn from_code(code: u64) -> (r: Option<GuildeScheduledEventPrivacyLevel>)
        ensures
            r matches Some(x) ==> x.spec_code() == code,
            r is None ==> forall|x: GuildeScheduledEventPrivacyLevel| x.spec_code() != code,
    {
        if code == 2 {
            Some(GuildeScheduledEventPrivacyLevel::GuildOnly)
        } else {
            None
        }
    }
}

/// The id of what a scheduled event takes place in.
pub struct EntityId(pub String);

/// Where a scheduled event takes place.
#[derive(Clone, Copy, Debug, PartialEq, Eq, Structural, Hash)]
pub enum GuildScheduledEventEntityType {
    StageInstance,
    Voice,
    External,
}

impl GuildScheduledEventEntityType {
    /// The integer this value travels as.
    pub open spec fn spec_code(self) -> u64 {
        match self {
            GuildScheduledEventEntityType::StageInstance => 1,
            GuildScheduledEventEntityType::Voice => 2,
            GuildScheduledEventEntityType::External => 3,
        }
    }

    pub fn code(&self) -> (r: u64)
        ensures
            r == self.spec_code(),
    {
        match self {
            GuildScheduledEventEntityType::StageInstance => 1,
            GuildScheduledEventEntityType::Voice => 2,
            GuildScheduledEventEntityType::External => 3,
        }
    }

    /// The value that travels as `code`, if any.
    pub fn from_code(code: u64) -> (r: Option<GuildScheduledEventEntityType>)
        ensures
            r matches Some(x) ==> x.spec_code() == code,
            r is None ==> forall|x: GuildScheduledEventEntityType| x.spec_code() != code,
    {
        if code == 1 {
            Some(GuildScheduledEventEntityType::StageInstance)
        } else if code == 2 {
            Some(GuildScheduledEventEntityType::Voice)
        } else if code == 3 {
            Some(GuildScheduledEventEntityType::External)
        } else {
            None
        }
    }
}

/// How far a scheduled event has come.
#[derive(Clone, Copy, Debug, PartialEq, Eq, Structural, Hash)]
pub enum GuildScheduledEventStatus {
    Scheduled,
    Active,
    Completed,
    Canceled,
}

impl GuildScheduledEventStatus {
    /// The integer this value travels as.
    pub open spec fn spec_code(self) -> u64 {
        match self {
            GuildScheduledEventStatus::Scheduled => 1,
            GuildScheduledEventStatus::Active => 2,
            GuildScheduledEventStatus::Completed => 3,
            GuildScheduledEventStatus::Canceled => 4,
        }
    }

    pub fn code(&self) -> (r: u64)
        ensures
            r == self.spec_code(),
    {
        match self {
            GuildScheduledEventStatus::Scheduled => 1,
            GuildScheduledEventStatus::Active => 2,
            GuildScheduledEventStatus::Completed => 3,
            GuildScheduledEventStatus::Canceled => 4,
        }
    }

    /// The value that travels as `code`, if any.
    pub fn from_code(code: u64) -> (r: Option<GuildScheduledEventStatus>)
        ensures
            r matches Some(x) ==> x.spec_code() == code,
            r is None ==> forall|x: GuildScheduledEventStatus| x.spec_code() != code,
    {
        if code == 1 {
            Some(GuildScheduledEventStatus::Scheduled)
        } else if code == 2 {
            Some(GuildScheduledEventStatus::Active)
        } else if code == 3 {
            Some(GuildScheduledEventStatus::Completed)
        } else if code == 4 {
            Some(GuildScheduledEventStatus::Canceled)
        } else {
            None
        }
    }
}

/// Where an external event takes place.
pub struct GuildScheduledEventEntityMetadata {
    pub location: Option<String>,
}

/// A user who subscribed to a scheduled event.
pub struct GuildScheduledEventUser {
    pub guild_scheduled_event_id: GuildScheduledEventId,
    pub user: Unimplemented,
    pub member: Option<Unimplemented>,
}

} // verus!
