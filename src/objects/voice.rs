//! Voice regions.

use vstd::prelude::*;

verus! {

/// A region that voice servers run in.
#[derive(Clone, Copy, Debug, PartialEq, Eq, Structural, Hash)]
pub struct VoiceRegion {}

} // verus!
