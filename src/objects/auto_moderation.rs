//! Automatic moderation rules.

use vstd::prelude::*;
use crate::objects::permissions::RoleId;
use crate::objects::{ChannelId, GuildId};

verus! {

/// A rule that moderates a guild's messages.
pub struct AutoModerationRule {
    pub id: AutoModerationRuleId,
    pub guild_id: GuildId,
    pub name: String,
    pub creator_id: CreatorId,
    pub event_type: EventType,
    pub trigger_type: TriggerType,
    pub trigger_metadata: TriggerMetadata,
    pub actions: Vec<AutoModerationAction>,
    pub enabled: bool,
    pub exempt_roles: Vec<RoleId>,
    pub exempt_channels: Vec<ChannelId>,
}

/// The id of a rule.
pub struct AutoModerationRuleId(pub String);

/// The id of the user who created something.
pub struct CreatorId(pub String);

/// What sets a rule off.
#[derive(Clone, Copy, Debug, PartialEq, Eq, Structural, Hash)]
pub enum TriggerType {
    Keyword,
    Spam,
    KeywordPreset,
    MentionSpam,
}

impl TriggerType {
    /// The integer this value travels as.
    pub open spec fn spec_code(self) -> u64 {
        match self {
            TriggerType::Keyword => 1,
            TriggerType::Spam => 3,
            TriggerType::KeywordPreset => 4,
            TriggerType::MentionSpam => 5,
        }
    }

    pub fn code(&self) -> (r: u64)
        ensures
            r == self.spec_code(),
    {
        match self {
            TriggerType::Keyword => 1,
            TriggerType::Spam => 3,
            TriggerType::KeywordPreset => 4,
            TriggerType::MentionSpam => 5,
        }
    }

    /// The value that travels as `code`, if any.
    pub fn from_code(code: u64) -> (r: Option<TriggerType>)
        ensures
            r matches Some(x) ==> x.spec_code() == code,
            r is None ==> forall|x: TriggerType| x.spec_code() != code,
    {
        if code == 1 {
            Some(TriggerType::Keyword)
        } else if code == 3 {
            Some(TriggerType::Spam)
        } else if code == 4 {
            Some(TriggerType::KeywordPreset)
        } else if code == 5 {
            Some(TriggerType::MentionSpam)
        } else {
            None
        }
    }
}

/// What a rule looks for.
pub struct TriggerMetadata {
    pub keyword_filter: Vec<String>,
    pub regex_patterns: Vec<String>,
    pub presets: Vec<KeywordPresetType>,
    pub allow_list: Vec<String>,
    pub mention_total_limit: u8,
    pub mention_raid_protection_enabled: bool,
}

/// A predefined list of words.
#[derive(Clone, Copy, Debug, PartialEq, Eq, Structural, Hash)]
pub enum KeywordPresetType {
    Profanity,
    SexualContent,
    Slurs,
}

impl KeywordPresetType {
    /// The integer this value travels as.
    pub open spec fn spec_code(self) -> u64 {
        match self {
            KeywordPresetType::Profanity => 1,
            KeywordPresetType::SexualContent => 2,
            KeywordPresetType::Slurs => 3,
        }
    }

    pub fn code(&self) -> (r: u64)
        ensures
            r == self.spec_code(),
    {
        match self {
            KeywordPresetType::Profanity => 1,
            KeywordPresetType::SexualContent => 2,
            KeywordPresetType::Slurs => 3,
        }
    }

    /// The value that travels as `code`, if any.
    pub fn from_code(code: u64) -> (r: Option<KeywordPresetType>)
        ensures
            r matches Some(x) ==> x.spec_code() == code,
            r is None ==> forall|x: KeywordPresetType| x.spec_code() != code,
    {
        if code == 1 {
            Some(KeywordPresetType::Profanity)
        } else if code == 2 {
            Some(KeywordPresetType::SexualContent)
        } else if code == 3 {
            Some(KeywordPresetType::Slurs)
        } else {
            None
        }
    }
}

/// When a rule is checked.
#[derive(Clone, Copy, Debug, PartialEq, Eq, Structural, Hash)]
pub enum EventType {
    MessageSend,
}

impl EventType {
    /// The integer this value travels as.
    pub open spec fn spec_code(self) -> u64 {
        match self {
            EventType::MessageSend => 1,
        }
    }

    pub fn code(&self) -> (r: u64)
        ensures
            r == self.spec_code(),
    {
        match self {
            EventType::MessageSend => 1,
        }
    }

    /// The value that travels as `code`, if any.
    pub fn from_code(code: u64) -> (r: Option<EventType>)
        ensures
            r matches Some(x) ==> x.spec_code() == code,
            r is None ==> forall|x: EventType| x.spec_code() != code,
    {
        if code == 1 {
            Some(EventType::MessageSend)
        } else {
            None
        }
    }
}

/// What a rule does; the member `type` of the wire form is `kind` here.
pub struct AutoModerationAction {
    pub kind: ActionType,
    pub metadata: Option<ActionMetadata>,
}

/// What kind of action a rule takes.
#[derive(Clone, Copy, Debug, PartialEq, Eq, Structural, Hash)]
pub enum ActionType {
    BlockMessage,
    SendAlertMessage,
    Timeout,
}

impl ActionType {
    /// The integer this value travels as.
    pub open spec fn spec_code(self) -> u64 {
        match self {
            ActionType::BlockMessage => 1,
            ActionType::SendAlertMessage => 2,
            ActionType::Timeout => 3,
        }
    }

    pub fn code(&self) -> (r: u64)
        ensures
            r == self.spec_code(),
    {
        match self {
            ActionType::BlockMessage => 1,
            ActionType::SendAlertMessage => 2,
            ActionType::Timeout => 3,
        }
    }

    /// The value that travels as `code`, if any.
    pub fn from_code(code: u64) -> (r: Option<ActionType>)
        ensures
            r matches Some(x) ==> x.spec_code() == code,
            r is None ==> forall|x: ActionType| x.spec_code() != code,
    {
        if code == 1 {
            Some(ActionType::BlockMessage)
        } else if code == 2 {
            Some(ActionType::SendAlertMessage)
        } else if code == 3 {
            Some(ActionType::Timeout)
        } else {
            None
        }
    }
}

/// The details of an action.
pub struct ActionMetadata {
    pub channel_id: ChannelId,
    pub duration_seconds: u32,
    pub custom_message: Option<String>,
}

} // verus!
