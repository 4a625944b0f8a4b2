//! Guild templates.

use vstd::prelude::*;

verus! {

/// The code of a guild template.
pub struct GuildTemplateId(pub String);

} // verus!
