//! The objects of the REST API and of the gateway's events: plain data.

use vstd::prelude::*;

pub mod application;
pub mod application_command;
pub mod application_role_connection_metadata;
pub mod audit_log;
pub mod auto_moderation;
pub mod channel;
pub mod emoji;
pub mod guild_scheduled_event;
pub mod guild_template;
pub mod interactions;
pub mod invite;
pub mod permissions;
pub mod poll;
pub mod stage_instance;
pub mod sticker;
pub mod team;
pub mod voice;
pub mod webhook;

verus! {

/// The hash that names an image on the content network.
pub struct ImageHash(pub String);

/// A text in each language the service offers.
pub struct Translation<T> {
    /// Written as `id`.
    pub indonesian: T,
    /// Written as `da`.
    pub danish: T,
    /// Written as `de`.
    pub german: T,
    /// Written as `en-GB`.
    pub english_uk: T,
    /// Written as `en-US`.
    pub english_us: T,
    /// Written as `es-ES`.
    pub spanish: T,
    /// Written as `es-419`.
    pub spanish_latam: T,
    /// Written as `fr`.
    pub french: T,
    /// Written as `hr`.
    pub croatian: T,
    /// Written as `it`.
    pub italian: T,
    /// Written as `lt`.
    pub lithuanian: T,
    /// Written as `hu`.
    pub hungarian: T,
    /// Written as `nl`.
    pub dutch: T,
    /// Written as `no`.
    pub norwegian: T,
    /// Written as `pl`.
    pub polish: T,
    /// Written as `pt-BR`.
    pub portuguese_brazilian: T,
    /// Written as `ro`.
    pub romanian_romania: T,
    /// Written as `fi`.
    pub finnish: T,
    /// Written as `sv-SE`.
    pub swedish: T,
    /// Written as `vi`.
    pub vietnamese: T,
    /// Written as `tr`.
    pub turkish: T,
    /// Written as `cs`.
    pub czech: T,
    /// Written as `el`.
    pub greek: T,
    /// Written as `bg`.
    pub bulgarian: T,
    /// Written as `ru`.
    pub russian: T,
    /// Written as `uk`.
    pub ukrainian: T,
    /// Written as `hi`.
    pub hindi: T,
    /// Written as `th`.
    pub thai: T,
    /// Written as `zh-CN`.
    pub chinese_china: T,
    /// Written as `ja`.
    pub japanese: T,
    /// Written as `zh-TW`.
    pub chinese_taiwan: T,
    /// Written as `ko`.
    pub korean: T,
}

/// The id of a user.
pub struct UserId(pub String);

/// The id of a guild.
pub struct GuildId(pub String);

/// The id of a channel.
pub struct ChannelId(pub String);

/// The id of a message.
pub struct MessageId(pub String);

/// The id of an integration.
pub struct IntegrationId(pub String);

} // verus!
