//! Applications and how they are installed.

use vstd::prelude::*;
use crate::flags::Permissions;

verus! {

/// Where an application can be installed.
#[derive(Clone, Copy, Debug, PartialEq, Eq, Structural, Hash)]
pub enum IntegrationType {
    GuildInstall,
    UserInstall,
}

impl IntegrationType {
    /// The integer this value travels as.
    pub open spec fn spec_code(self) -> u64 {
        match self {
            IntegrationType::GuildInstall => 0,
            IntegrationType::UserInstall => 1,
        }
    }

    pub fn code(&self) -> (r: u64)
        ensures
            r == self.spec_code(),
    {
        match self {
            IntegrationType::GuildInstall => 0,
            IntegrationType::UserInstall => 1,
        }
    }

    /// The value that travels as `code`, if any.
    pub fn from_code(code: u64) -> (r: Option<IntegrationType>)
        ensures
            r matches Some(x) ==> x.spec_code() == code,
            r is None ==> forall|x: IntegrationType| x.spec_code() != code,
    {
        if code == 0 {
            Some(IntegrationType::GuildInstall)
        } else if code == 1 {
            Some(IntegrationType::UserInstall)
        } else {
            None
        }
    }
}

/// The install settings of each installation context.
pub struct IntegrationTypesConfigurationMap {
    pub guild_install: IntegrationTypeConfiguration,
    pub user_install: IntegrationTypeConfiguration,
}

/// The install settings of one installation context.
pub struct IntegrationTypeConfiguration {
    pub oauth2_install_params: Option<InstallParams>,
}

/// A tag that describes an application.
pub struct Tag(pub String);

/// The id of a stock-keeping unit.
pub struct SkuId(pub String);

/// The id of an application.
pub struct ApplicationId(pub String);

/// What an application asks for when it is added to a guild.
pub struct InstallParams {
    pub scopes: Vec<Scopes>,
    pub permissions: Permissions,
}

/// An OAuth2 scope.
#[derive(Clone, Copy, Debug, PartialEq, Eq, Structural, Hash)]
pub enum Scopes {
    ActivitiesRead,
    ActivitiesWrite,
    ApplicationsBuildsRead,
    ApplicationsBuildsUpload,
    ApplicationsCommands,
    ApplicationsCommandsUpdate,
    ApplicationsCommandsPermissionsUpdate,
    ApplicationsEntitlements,
    ApplicationsStoreUpdate,
    Bot,
    Connections,
    DmChannelsRead,
    Email,
    GdmJoin,
    Guilds,
    GuildsJoin,
    GuildsMembersRead,
    Identify,
    MessagesRead,
    RelationshipsRead,
    RoleConnectionsWrite,
    Rpc,
    RpcActivitiesWrite,
    RpcNotificationsRead,
    RpcVoiceRead,
    RpcVoiceWrite,
    Voice,
    WebhookIncoming,
}

} // verus!
