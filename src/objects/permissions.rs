//! Roles and their permissions.

use vstd::prelude::*;
use crate::flags::Permissions;
use crate::objects::application::ApplicationId;
use crate::objects::{ImageHash, IntegrationId};

verus! {

/// A set of permissions that members of a guild can hold.
pub struct Role {
    pub id: RoleId,
    pub name: String,
    pub color: Rgb,
    pub hoist: bool,
    pub icon: Option<ImageHash>,
    pub unicode_emoji: Option<String>,
    pub position: u64,
    pub permissions: Permissions,
    pub managed: bool,
    pub mentionable: bool,
    pub tags: Option<RoleTags>,
    pub flags: RoleFlags,
}

/// The id of a role.
pub struct RoleId(pub String);

/// A colour as red, green and blue.
#[derive(Clone, Copy, Debug, PartialEq, Eq, Structural, Hash)]
pub struct Rgb(pub u8, pub u8, pub u8);

/// What a role is tied to.
pub struct RoleTags {
    pub bot_id: Option<ApplicationId>,
    pub integration_id: Option<IntegrationId>,
    pub premium_subscriber: bool,
    pub subscription_listing_id: Option<String>,
    pub available_for_purchase: bool,
    pub guild_connections: bool,
}

/// The flags of a role.
#[derive(Clone, Copy, Debug, PartialEq, Eq, Structural, Hash)]
pub enum RoleFlags {
    InPrompt,
}

impl RoleFlags {
    /// The integer this value travels as.
    pub open spec fn spec_code(self) -> u64 {
        match self {
            RoleFlags::InPrompt => 1,
        }
    }

    pub fn code(&self) -> (r: u64)
        ensures
            r == self.spec_code(),
    {
        match self {
            RoleFlags::InPrompt => 1,
        }
    }

    /// The value that travels as `code`, if any.
    pub fn from_code(code: u64) -> (r: Option<RoleFlags>)
        ensures
            r matches Some(x) ==> x.spec_code() == code,
            r is None ==> forall|x: RoleFlags| x.spec_code() != code,
    {
        if code == 1 {
            Some(RoleFlags::InPrompt)
        } else {
            None
        }
    }
}

} // verus!
