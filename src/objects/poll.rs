//! Polls in messages.

use vstd::prelude::*;

verus! {

/// A poll in a message.
#[derive(Clone, Copy, Debug, PartialEq, Eq, Structural, Hash)]
pub struct Poll {}

/// The request that creates a poll.
#[derive(Clone, Copy, Debug, PartialEq, Eq, Structural, Hash)]
pub struct PollCreateRequest {}

/// How a poll is laid out.
#[derive(Clone, Copy, Debug, PartialEq, Eq, Structural, Hash)]
pub enum LayoutType {
    Default,
}

impl LayoutType {
    /// The integer this value travels as.
    pub open spec fn spec_code(self) -> u64 {
        match self {
            LayoutType::Default => 1,
        }
    }

    pub fn code(&self) -> (r: u64)
        ensures
            r == self.spec_code(),
    {
        match self {
            LayoutType::Default => 1,
        }
    }

    /// The value that travels as `code`, if any.
    pub fn from_code(code: u64) -> (r: Option<LayoutType>)
        ensures
            r matches Some(x) ==> x.spec_code() == code,
            r is None ==> forall|x: LayoutType| x.spec_code() != code,
    {
        if code == 1 {
            Some(LayoutType::Default)
        } else {
            None
        }
    }
}

/// The text or emoji of a poll's question or answer.
#[derive(Clone, Copy, Debug, PartialEq, Eq, Structural, Hash)]
pub struct PollMedia {}

/// An answer of a poll.
#[derive(Clone, Copy, Debug, PartialEq, Eq, Structural, Hash)]
pub struct PollAnswer {}

/// The counts of a poll's answers.
#[derive(Clone, Copy, Debug, PartialEq, Eq, Structural, Hash)]
pub struct PollAnswers {}

} // verus!
