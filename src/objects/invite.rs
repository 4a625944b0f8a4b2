//! Invitations.

use vstd::prelude::*;

verus! {

/// An invitation to a guild or a channel.
#[derive(Clone, Copy, Debug, PartialEq, Eq, Structural, Hash)]
pub struct Invite {}

/// What an invitation leads to.
#[derive(Clone, Copy, Debug, PartialEq, Eq, Structural, Hash)]
pub enum InviteType {
    Guild,
    GroupDm,
    Friend,
}

impl InviteType {
    /// The integer this value travels as.
    pub open spec fn spec_code(self) -> u64 {
        match self {
            InviteType::Guild => 0,
            InviteType::GroupDm => 1,
            InviteType::Friend => 2,
        }
    }

    pub fn code(&self) -> (r: u64)
        ensures
            r == self.spec_code(),
    {
        match self {
            InviteType::Guild => 0,
            InviteType::GroupDm => 1,
            InviteType::Friend => 2,
        }
    }

    /// The value that travels as `code`, if any.
    pub fn from_code(code: u64) -> (r: Option<InviteType>)
        ensures
            r matches Some(x) ==> x.spec_code() == code,
            r is None ==> forall|x: InviteType| x.spec_code() != code,
    {
        if code == 0 {
            Some(InviteType::Guild)
        } else if code == 1 {
            Some(InviteType::GroupDm)
        } else if code == 2 {
            Some(InviteType::Friend)
        } else {
            None
        }
    }
}

/// What a voice-channel invitation shows.
#[derive(Clone, Copy, Debug, PartialEq, Eq, Structural, Hash)]
pub enum InviteTargetType {
    Stream,
    EmbeddedApplication,
}

impl InviteTargetType {
    /// The integer this value travels as.
    pub open spec fn spec_code(self) -> u64 {
        match self {
            InviteTargetType::Stream => 1,
            InviteTargetType::EmbeddedApplication => 2,
        }
    }

    pub fn code(&self) -> (r: u64)
        ensures
            r == self.spec_code(),
    {
        match self {
            InviteTargetType::Stream => 1,
            InviteTargetType::EmbeddedApplication => 2,
        }
    }

    /// The value that travels as `code`, if any.
    pub fn from_code(code: u64) -> (r: Option<InviteTargetType>)
        ensures
            r matches Some(x) ==> x.spec_code() == code,
            r is None ==> forall|x: InviteTargetType| x.spec_code() != code,
    {
        if code == 1 {
            Some(InviteTargetType::Stream)
        } else if code == 2 {
            Some(InviteTargetType::EmbeddedApplication)
        } else {
            None
        }
    }
}

/// Details of an invitation.
#[derive(Clone, Copy, Debug, PartialEq, Eq, Structural, Hash)]
pub struct InviteMetadata {}

/// The stage an invitation leads to.
#[derive(Clone, Copy, Debug, PartialEq, Eq, Structural, Hash)]
pub struct InviteStageInstanceObject {}

} // verus!
