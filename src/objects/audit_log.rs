//! Audit logs.

use vstd::prelude::*;
use crate::objects::application::{ApplicationId, IntegrationType};
use crate::objects::{ChannelId, MessageId};

verus! {

/// The id of an audit log entry.
pub struct AuditLogEntryId(pub String);

/// What an audit log entry records.
#[derive(Clone, Copy, Debug, PartialEq, Eq, Structural, Hash)]
pub enum AuditLogEvent {
    GuildUpdate,
    ChannelCreate,
    ChannelUpdate,
    ChannelDelete,
    ChannelOverwriteCreate,
    ChannelOverwriteUpdate,
    ChannelOverwriteDelete,
    MemberKick,
    MemberPrune,
    MemberBanAdd,
    MemberBanRemove,
    MemberUpdate,
    MemberRoleUpdate,
    MemberMove,
    MemberDisconnect,
    BotAdd,
    RoleCreate,
    RoleUpdate,
    RoleDelete,
    InviteCreate,
    InviteUpdate,
    InviteDelete,
    WebhookCreate,
    WebhookUpdate,
    WebhookDelete,
    EmojiCreate,
    EmojiUpdate,
    EmojiDelete,
    MessageDelete,
    MessageBulkDelete,
    MessagePin,
    MessageUnpin,
    IntegrationCreate,
    IntegrationUpdate,
    IntegrationDelete,
    StageInstanceCreate,
    StageInstanceUpdate,
    StageInstanceDelete,
    StickerCreate,
    StickerUpdate,
    StickerDelete,
    GuildScheduledEventCreate,
    GuildScheduledEventUpdate,
    GuildScheduledEventDelete,
    ThreadCreate,
    ThreadUpdate,
    ThreadDelete,
    ApplicationCommandPermissionUpdate,
    AutoModerationRuleCreate,
    AutoModerationRuleUpdate,
    AutoModerationRuleDelete,
    AutoModerationBlockMessage,
    AutoModerationFlagToChannel,
    AutoModerationUserCommunicationDisabled,
    CreatorMonetizationRequestCreated,
    CreatorMonetizationTermsAccepted,
    OnboardingPromptCreate,
    OnboardingPromptUpdate,
    OnboardingPromptDelete,
    OnboardingCreate,
    OnboardingUpdate,
    HomeSettingsCreate,
    HomeSettingsUpdate,
}

impl AuditLogEvent {
    /// The integer this value travels as.
    pub open spec fn spec_code(self) -> u64 {
        match self {
            AuditLogEvent::GuildUpdate => 1,
            AuditLogEvent::ChannelCreate => 10,
            AuditLogEvent::ChannelUpdate => 11,
            AuditLogEvent::ChannelDelete => 12,
            AuditLogEvent::ChannelOverwriteCreate => 13,
            AuditLogEvent::ChannelOverwriteUpdate => 14,
            AuditLogEvent::ChannelOverwriteDelete => 15,
            AuditLogEvent::MemberKick => 20,
            AuditLogEvent::MemberPrune => 21,
            AuditLogEvent::MemberBanAdd => 22,
            AuditLogEvent::MemberBanRemove => 23,
            AuditLogEvent::MemberUpdate => 24,
            AuditLogEvent::MemberRoleUpdate => 25,
            AuditLogEvent::MemberMove => 26,
            AuditLogEvent::MemberDisconnect => 27,
            AuditLogEvent::BotAdd => 28,
            AuditLogEvent::RoleCreate => 30,
            AuditLogEvent::RoleUpdate => 31,
            AuditLogEvent::RoleDelete => 32,
            AuditLogEvent::InviteCreate => 40,
            AuditLogEvent::InviteUpdate => 41,
            AuditLogEvent::InviteDelete => 42,
            AuditLogEvent::WebhookCreate => 50,
            AuditLogEvent::WebhookUpdate => 51,
            AuditLogEvent::WebhookDelete => 52,
            AuditLogEvent::EmojiCreate => 60,
            AuditLogEvent::EmojiUpdate => 61,
            AuditLogEvent::EmojiDelete => 62,
            AuditLogEvent::MessageDelete => 72,
            AuditLogEvent::MessageBulkDelete => 73,
            AuditLogEvent::MessagePin => 74,
            AuditLogEvent::MessageUnpin => 75,
            AuditLogEvent::IntegrationCreate => 80,
            AuditLogEvent::IntegrationUpdate => 81,
            AuditLogEvent::IntegrationDelete => 82,
            AuditLogEvent::StageInstanceCreate => 83,
            AuditLogEvent::StageInstanceUpdate => 84,
            AuditLogEvent::StageInstanceDelete => 85,
            AuditLogEvent::StickerCreate => 90,
            AuditLogEvent::StickerUpdate => 91,
            AuditLogEvent::StickerDelete => 92,
            AuditLogEvent::GuildScheduledEventCreate => 100,
            AuditLogEvent::GuildScheduledEventUpdate => 101,
            AuditLogEvent::GuildScheduledEventDelete => 102,
            AuditLogEvent::ThreadCreate => 110,
            AuditLogEvent::ThreadUpdate => 111,
            AuditLogEvent::ThreadDelete => 112,
            AuditLogEvent::ApplicationCommandPermissionUpdate => 121,
            AuditLogEvent::AutoModerationRuleCreate => 140,
            AuditLogEvent::AutoModerationRuleUpdate => 141,
            AuditLogEvent::AutoModerationRuleDelete => 142,
            AuditLogEvent::AutoModerationBlockMessage => 143,
            AuditLogEvent::AutoModerationFlagToChannel => 144,
            AuditLogEvent::AutoModerationUserCommunicationDisabled => 145,
            AuditLogEvent::CreatorMonetizationRequestCreated => 150,
            AuditLogEvent::CreatorMonetizationTermsAccepted => 151,
            AuditLogEvent::OnboardingPromptCreate => 163,
            AuditLogEvent::OnboardingPromptUpdate => 164,
            AuditLogEvent::OnboardingPromptDelete => 165,
            AuditLogEvent::OnboardingCreate => 166,
            AuditLogEvent::OnboardingUpdate => 167,
            AuditLogEvent::HomeSettingsCreate => 190,
            AuditLogEvent::HomeSettingsUpdate => 191,
        }
    }

    pub fn code(&self) -> (r: u64)
        ensures
            r == self.spec_code(),
    {
        match self {
            AuditLogEvent::GuildUpdate => 1,
            AuditLogEvent::ChannelCreate => 10,
            AuditLogEvent::ChannelUpdate => 11,
            AuditLogEvent::ChannelDelete => 12,
            AuditLogEvent::ChannelOverwriteCreate => 13,
            AuditLogEvent::ChannelOverwriteUpdate => 14,
            AuditLogEvent::ChannelOverwriteDelete => 15,
            AuditLogEvent::MemberKick => 20,
            AuditLogEvent::MemberPrune => 21,
            AuditLogEvent::MemberBanAdd => 22,
            AuditLogEvent::MemberBanRemove => 23,
            AuditLogEvent::MemberUpdate => 24,
            AuditLogEvent::MemberRoleUpdate => 25,
            AuditLogEvent::MemberMove => 26,
            AuditLogEvent::MemberDisconnect => 27,
            AuditLogEvent::BotAdd => 28,
            AuditLogEvent::RoleCreate => 30,
            AuditLogEvent::RoleUpdate => 31,
            AuditLogEvent::RoleDelete => 32,
            AuditLogEvent::InviteCreate => 40,
            AuditLogEvent::InviteUpdate => 41,
            AuditLogEvent::InviteDelete => 42,
            AuditLogEvent::WebhookCreate => 50,
            AuditLogEvent::WebhookUpdate => 51,
            AuditLogEvent::WebhookDelete => 52,
            AuditLogEvent::EmojiCreate => 60,
            AuditLogEvent::EmojiUpdate => 61,
            AuditLogEvent::EmojiDelete => 62,
            AuditLogEvent::MessageDelete => 72,
            AuditLogEvent::MessageBulkDelete => 73,
            AuditLogEvent::MessagePin => 74,
            AuditLogEvent::MessageUnpin => 75,
            AuditLogEvent::IntegrationCreate => 80,
            AuditLogEvent::IntegrationUpdate => 81,
            AuditLogEvent::IntegrationDelete => 82,
            AuditLogEvent::StageInstanceCreate => 83,
            AuditLogEvent::StageInstanceUpdate => 84,
            AuditLogEvent::StageInstanceDelete => 85,
            AuditLogEvent::StickerCreate => 90,
            AuditLogEvent::StickerUpdate => 91,
            AuditLogEvent::StickerDelete => 92,
            AuditLogEvent::GuildScheduledEventCreate => 100,
            AuditLogEvent::GuildScheduledEventUpdate => 101,
            AuditLogEvent::GuildScheduledEventDelete => 102,
            AuditLogEvent::ThreadCreate => 110,
            AuditLogEvent::ThreadUpdate => 111,
            AuditLogEvent::ThreadDelete => 112,
            AuditLogEvent::ApplicationCommandPermissionUpdate => 121,
            AuditLogEvent::AutoModerationRuleCreate => 140,
            AuditLogEvent::AutoModerationRuleUpdate => 141,
            AuditLogEvent::AutoModerationRuleDelete => 142,
            AuditLogEvent::AutoModerationBlockMessage => 143,
            AuditLogEvent::AutoModerationFlagToChannel => 144,
            AuditLogEvent::AutoModerationUserCommunicationDisabled => 145,
            AuditLogEvent::CreatorMonetizationRequestCreated => 150,
            AuditLogEvent::CreatorMonetizationTermsAccepted => 151,
            AuditLogEvent::OnboardingPromptCreate => 163,
            AuditLogEvent::OnboardingPromptUpdate => 164,
            AuditLogEvent::OnboardingPromptDelete => 165,
            AuditLogEvent::OnboardingCreate => 166,
            AuditLogEvent::OnboardingUpdate => 167,
            AuditLogEvent::HomeSettingsCreate => 190,
            AuditLogEvent::HomeSettingsUpdate => 191,
        }
    }

    /// The value that travels as `code`, if any.
    pub fn from_code(code: u64) -> (r: Option<AuditLogEvent>)
        ensures
            r matches Some(x) ==> x.spec_code() == code,
            r is None ==> forall|x: AuditLogEvent| x.spec_code() != code,
    {
        if code == 1 {
            Some(AuditLogEvent::GuildUpdate)
        } else if code == 10 {
            Some(AuditLogEvent::ChannelCreate)
        } else if code == 11 {
            Some(AuditLogEvent::ChannelUpdate)
        } else if code == 12 {
            Some(AuditLogEvent::ChannelDelete)
        } else if code == 13 {
            Some(AuditLogEvent::ChannelOverwriteCreate)
        } else if code == 14 {
            Some(AuditLogEvent::ChannelOverwriteUpdate)
        } else if code == 15 {
            Some(AuditLogEvent::ChannelOverwriteDelete)
        } else if code == 20 {
            Some(AuditLogEvent::MemberKick)
        } else if code == 21 {
            Some(AuditLogEvent::MemberPrune)
        } else if code == 22 {
            Some(AuditLogEvent::MemberBanAdd)
        } else if code == 23 {
            Some(AuditLogEvent::MemberBanRemove)
        } else if code == 24 {
            Some(AuditLogEvent::MemberUpdate)
        } else if code == 25 {
            Some(AuditLogEvent::MemberRoleUpdate)
        } else if code == 26 {
            Some(AuditLogEvent::MemberMove)
        } else if code == 27 {
            Some(AuditLogEvent::MemberDisconnect)
        } else if code == 28 {
            Some(AuditLogEvent::BotAdd)
        } else if code == 30 {
            Some(AuditLogEvent::RoleCreate)
        } else if code == 31 {
            Some(AuditLogEvent::RoleUpdate)
        } else if code == 32 {
            Some(AuditLogEvent::RoleDelete)
        } else if code == 40 {
            Some(AuditLogEvent::InviteCreate)
        } else if code == 41 {
            Some(AuditLogEvent::InviteUpdate)
        } else if code == 42 {
            Some(AuditLogEvent::InviteDelete)
        } else if code == 50 {
            Some(AuditLogEvent::WebhookCreate)
        } else if code == 51 {
            Some(AuditLogEvent::WebhookUpdate)
        } else if code == 52 {
            Some(AuditLogEvent::WebhookDelete)
        } else if code == 60 {
            Some(AuditLogEvent::EmojiCreate)
        } else if code == 61 {
            Some(AuditLogEvent::EmojiUpdate)
        } else if code == 62 {
            Some(AuditLogEvent::EmojiDelete)
        } else if code == 72 {
            Some(AuditLogEvent::MessageDelete)
        } else if code == 73 {
            Some(AuditLogEvent::MessageBulkDelete)
        } else if code == 74 {
            Some(AuditLogEvent::MessagePin)
        } else if code == 75 {
            Some(AuditLogEvent::MessageUnpin)
        } else if code == 80 {
            Some(AuditLogEvent::IntegrationCreate)
        } else if code == 81 {
            Some(AuditLogEvent::IntegrationUpdate)
        } else if code == 82 {
            Some(AuditLogEvent::IntegrationDelete)
        } else if code == 83 {
            Some(AuditLogEvent::StageInstanceCreate)
        } else if code == 84 {
            Some(AuditLogEvent::StageInstanceUpdate)
        } else if code == 85 {
            Some(AuditLogEvent::StageInstanceDelete)
        } else if code == 90 {
            Some(AuditLogEvent::StickerCreate)
        } else if code == 91 {
            Some(AuditLogEvent::StickerUpdate)
        } else if code == 92 {
            Some(AuditLogEvent::StickerDelete)
        } else if code == 100 {
            Some(AuditLogEvent::GuildScheduledEventCreate)
        } else if code == 101 {
            Some(AuditLogEvent::GuildScheduledEventUpdate)
        } else if code == 102 {
            Some(AuditLogEvent::GuildScheduledEventDelete)
        } else if code == 110 {
            Some(AuditLogEvent::ThreadCreate)
        } else if code == 111 {
            Some(AuditLogEvent::ThreadUpdate)
        } else if code == 112 {
            Some(AuditLogEvent::ThreadDelete)
        } else if code == 121 {
            Some(AuditLogEvent::ApplicationCommandPermissionUpdate)
        } else if code == 140 {
            Some(AuditLogEvent::AutoModerationRuleCreate)
        } else if code == 141 {
            Some(AuditLogEvent::AutoModerationRuleUpdate)
        } else if code == 142 {
            Some(AuditLogEvent::AutoModerationRuleDelete)
        } else if code == 143 {
            Some(AuditLogEvent::AutoModerationBlockMessage)
        } else if code == 144 {
            Some(AuditLogEvent::AutoModerationFlagToChannel)
        } else if code == 145 {
            Some(AuditLogEvent::AutoModerationUserCommunicationDisabled)
        } else if code == 150 {
            Some(AuditLogEvent::CreatorMonetizationRequestCreated)
        } else if code == 151 {
            Some(AuditLogEvent::CreatorMonetizationTermsAccepted)
        } else if code == 163 {
            Some(AuditLogEvent::OnboardingPromptCreate)
        } else if code == 164 {
            Some(AuditLogEvent::OnboardingPromptUpdate)
        } else if code == 165 {
            Some(AuditLogEvent::OnboardingPromptDelete)
        } else if code == 166 {
            Some(AuditLogEvent::OnboardingCreate)
        } else if code == 167 {
            Some(AuditLogEvent::OnboardingUpdate)
        } else if code == 190 {
            Some(AuditLogEvent::HomeSettingsCreate)
        } else if code == 191 {
            Some(AuditLogEvent::HomeSettingsUpdate)
        } else {
            None
        }
    }
}

/// Details of an audit log entry; the member `type` of the wire form is `kind` here.
pub struct OptionalAuditEntryInfo {
    pub application_id: ApplicationId,
    pub auto_moderation_rule_name: String,
    pub auto_moderation_rule_trigger_type: String,
    pub channel_id: ChannelId,
    pub count: u64,
    pub delete_member_days: u64,
    pub id: String,
    pub members_removed: u64,
    pub message_id: MessageId,
    pub role_name: Option<String>,
    pub kind: OverwrittenType,
    pub integration_type: IntegrationType,
}

/// What a permission overwrite applies to.
#[derive(Clone, Copy, Debug, PartialEq, Eq, Structural, Hash)]
pub enum OverwrittenType {
    Role,
    Member,
}

impl OverwrittenType {
    /// The integer this value travels as.
    pub open spec fn spec_code(self) -> u64 {
        match self {
            OverwrittenType::Role => 0,
            OverwrittenType::Member => 1,
        }
    }

    pub fn code(&self) -> (r: u64)
        ensures
            r == self.spec_code(),
    {
        match self {
            OverwrittenType::Role => 0,
            OverwrittenType::Member => 1,
        }
    }

    /// The value that travels as `code`, if any.
    pub fn from_code(code: u64) -> (r: Option<OverwrittenType>)
        ensures
            r matches Some(x) ==> x.spec_code() == code,
            r is None ==> forall|x: OverwrittenType| x.spec_code() != code,
    {
        if code == 0 {
            Some(OverwrittenType::Role)
        } else if code == 1 {
            Some(OverwrittenType::Member)
        } else {
            None
        }
    }
}

} // verus!
