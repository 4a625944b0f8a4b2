//! Interactions with applications.

use vstd::prelude::*;

verus! {

/// A user's interaction with an application.
#[derive(Clone, Copy, Debug, PartialEq, Eq, Structural, Hash)]
pub struct Interaction {}

/// What kind of interaction it is.
#[derive(Clone, Copy, Debug, PartialEq, Eq, Structural, Hash)]
pub enum InteractionType {
    Ping,
    ApplicationCommand,
    MessageComponent,
    ApplicationCommandAutocomplete,
    ModalSubmit,
}

impl InteractionType {
    /// The integer this value travels as.
    pub open spec fn spec_code(self) -> u64 {
        match self {
            InteractionType::Ping => 1,
            InteractionType::ApplicationCommand => 2,
            InteractionType::MessageComponent => 3,
            InteractionType::ApplicationCommandAutocomplete => 4,
            InteractionType::ModalSubmit => 5,
        }
    }

    pub fn code(&self) -> (r: u64)
        ensures
            r == self.spec_code(),
    {
        match self {
            InteractionType::Ping => 1,
            InteractionType::ApplicationCommand => 2,
            InteractionType::MessageComponent => 3,
            InteractionType::ApplicationCommandAutocomplete => 4,
            InteractionType::ModalSubmit => 5,
        }
    }

    /// The value that travels as `code`, if any.
    pub fn from_code(code: u64) -> (r: Option<InteractionType>)
        ensures
            r matches Some(x) ==> x.spec_code() == code,
            r is None ==> forall|x: InteractionType| x.spec_code() != code,
    {
        if code == 1 {
            Some(InteractionType::Ping)
        } else if code == 2 {
            Some(InteractionType::ApplicationCommand)
        } else if code == 3 {
            Some(InteractionType::MessageComponent)
        } else if code == 4 {
            Some(InteractionType::ApplicationCommandAutocomplete)
        } else if code == 5 {
            Some(InteractionType::ModalSubmit)
        } else {
            None
        }
    }
}

/// Where an interaction can be used.
#[derive(Clone, Copy, Debug, PartialEq, Eq, Structural, Hash)]
pub enum InteractionContextType {
    Guild,
    BotDm,
    PrivateChannel,
}

impl InteractionContextType {
    /// The integer this value travels as.
    pub open spec fn spec_code(self) -> u64 {
        match self {
            InteractionContextType::Guild => 0,
            InteractionContextType::BotDm => 1,
            InteractionContextType::PrivateChannel => 2,
        }
    }

    pub fn code(&self) -> (r: u64)
        ensures
            r == self.spec_code(),
    {
        match self {
            InteractionContextType::Guild => 0,
            InteractionContextType::BotDm => 1,
            InteractionContextType::PrivateChannel => 2,
        }
    }

    /// The value that travels as `code`, if any.
    pub fn from_code(code: u64) -> (r: Option<InteractionContextType>)
        ensures
            r matches Some(x) ==> x.spec_code() == code,
            r is None ==> forall|x: InteractionContextType| x.spec_code() != code,
    {
        if code == 0 {
            Some(InteractionContextType::Guild)
        } else if code == 1 {
            Some(InteractionContextType::BotDm)
        } else if code == 2 {
            Some(InteractionContextType::PrivateChannel)
        } else {
            None
        }
    }
}

} // verus!
