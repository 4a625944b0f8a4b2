//! Stage instances.

use vstd::prelude::*;

verus! {

/// A live stage of a stage channel.
#[derive(Clone, Copy, Debug, PartialEq, Eq, Structural, Hash)]
pub struct StageInstance {}

} // verus!
