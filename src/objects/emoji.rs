//! Emoji.

use vstd::prelude::*;
use crate::gateway::events::Unimplemented;
use crate::objects::permissions::RoleId;

verus! {

/// A custom or standard emoji.
pub struct Emoji {
    pub id: Option<EmojiId>,
    pub name: Option<String>,
    pub roles: Vec<RoleId>,
    pub user: Option<Unimplemented>,
    pub require_colons: Option<bool>,
    pub managed: Option<bool>,
    pub animated: Option<bool>,
    pub available: Option<bool>,
}

/// The id of an emoji.
pub struct EmojiId(pub String);

} // verus!
