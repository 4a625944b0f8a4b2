//! Application commands.

use vstd::prelude::*;

verus! {

/// The id of a command.
pub struct ApplicationCommandId(pub String);

/// The name of a command.
pub struct Name(pub String);

/// The description of a command.
pub struct Description(pub String);

/// The version of a command.
pub struct Version(pub String);

/// How a command is invoked.
#[derive(Clone, Copy, Debug, PartialEq, Eq, Structural, Hash)]
pub enum ApplicationCommandType {
    ChatInput,
    User,
    Message,
}

impl ApplicationCommandType {
    /// The integer this value travels as.
    pub open spec fn spec_code(self) -> u64 {
        match self {
            ApplicationCommandType::ChatInput => 1,
            ApplicationCommandType::User => 2,
            ApplicationCommandType::Message => 3,
        }
    }

    pub fn code(&self) -> (r: u64)
        ensures
            r == self.spec_code(),
    {
        match self {
            ApplicationCommandType::ChatInput => 1,
            ApplicationCommandType::User => 2,
            ApplicationCommandType::Message => 3,
        }
    }

    /// The value that travels as `code`, if any.
    pub fn from_code(code: u64) -> (r: Option<ApplicationCommandType>)
        ensures
            r matches Some(x) ==> x.spec_code() == code,
            r is None ==> forall|x: ApplicationCommandType| x.spec_code() != code,
    {
        if code == 1 {
            Some(ApplicationCommandType::ChatInput)
        } else if code == 2 {
            Some(ApplicationCommandType::User)
        } else if code == 3 {
            Some(ApplicationCommandType::Message)
        } else {
            None
        }
    }
}

/// The name of a command's option.
pub struct OptionName(pub String);

/// The description of a command's option.
pub struct OptionDescription(pub String);

/// The type of a command's option.
#[derive(Clone, Copy, Debug, PartialEq, Eq, Structural, Hash)]
pub enum ApplicationCommandOptionType {
    SubCommand,
    SubCommandGroup,
    String,
    Integer,
    Boolean,
    User,
    Channel,
    Role,
    Mentionable,
    Number,
    Attachment,
}

impl ApplicationCommandOptionType {
    /// The integer this value travels as.
    pub open spec fn spec_code(self) -> u64 {
        match self {
            ApplicationCommandOptionType::SubCommand => 1,
            ApplicationCommandOptionType::SubCommandGroup => 2,
            ApplicationCommandOptionType::String => 3,
            ApplicationCommandOptionType::Integer => 4,
            ApplicationCommandOptionType::Boolean => 5,
            ApplicationCommandOptionType::User => 6,
            ApplicationCommandOptionType::Channel => 7,
            ApplicationCommandOptionType::Role => 8,
            ApplicationCommandOptionType::Mentionable => 9,
            ApplicationCommandOptionType::Number => 10,
            ApplicationCommandOptionType::Attachment => 11,
        }
    }

    pub fn code(&self) -> (r: u64)
        ensures
            r == self.spec_code(),
    {
        match self {
            ApplicationCommandOptionType::SubCommand => 1,
            ApplicationCommandOptionType::SubCommandGroup => 2,
            ApplicationCommandOptionType::String => 3,
            ApplicationCommandOptionType::Integer => 4,
            ApplicationCommandOptionType::Boolean => 5,
            ApplicationCommandOptionType::User => 6,
            ApplicationCommandOptionType::Channel => 7,
            ApplicationCommandOptionType::Role => 8,
            ApplicationCommandOptionType::Mentionable => 9,
            ApplicationCommandOptionType::Number => 10,
            ApplicationCommandOptionType::Attachment => 11,
        }
    }

    /// The value that travels as `code`, if any.
    pub fn from_code(code: u64) -> (r: Option<ApplicationCommandOptionType>)
        ensures
            r matches Some(x) ==> x.spec_code() == code,
            r is None ==> forall|x: ApplicationCommandOptionType| x.spec_code() != code,
    {
        if code == 1 {
            Some(ApplicationCommandOptionType::SubCommand)
        } else if code == 2 {
            Some(ApplicationCommandOptionType::SubCommandGroup)
        } else if code == 3 {
            Some(ApplicationCommandOptionType::String)
        } else if code == 4 {
            Some(ApplicationCommandOptionType::Integer)
        } else if code == 5 {
            Some(ApplicationCommandOptionType::Boolean)
        } else if code == 6 {
            Some(ApplicationCommandOptionType::User)
        } else if code == 7 {
            Some(ApplicationCommandOptionType::Channel)
        } else if code == 8 {
            Some(ApplicationCommandOptionType::Role)
        } else if code == 9 {
            Some(ApplicationCommandOptionType::Mentionable)
        } else if code == 10 {
            Some(ApplicationCommandOptionType::Number)
        } else if code == 11 {
            Some(ApplicationCommandOptionType::Attachment)
        } else {
            None
        }
    }
}

/// The name of a choice of an option.
pub struct ChoiceName(pub String);

} // verus!
