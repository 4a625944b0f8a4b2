//! Teams of developers.

use vstd::prelude::*;
use crate::gateway::events::Unimplemented;
use crate::objects::{ImageHash, UserId};

verus! {

/// The id of a team.
pub struct TeamId(pub String);

/// A group of developers who share applications.
pub struct Team {
    pub icon: Option<ImageHash>,
    pub id: TeamId,
    pub members: Vec<TeamMember>,
    pub name: String,
    pub owner_user_id: UserId,
}

/// A member of a team.
pub struct TeamMember {
    pub membership_state: MembershipState,
    pub team_id: TeamId,
    pub user: Unimplemented,
    pub role: Role,
}

/// The role of a member in a team.
#[derive(Clone, Copy, Debug, PartialEq, Eq, Structural, Hash)]
pub enum Role {
    Admin,
    Developer,
    ReadOnly,
}

/// Whether a member accepted the invitation to a team.
#[derive(Clone, Copy, Debug, PartialEq, Eq, Structural, Hash)]
pub enum MembershipState {
    Invited,
    Accepted,
}

} // verus!
