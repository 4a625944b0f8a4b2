//! Sets of named flags that travel as one integer.

use vstd::prelude::*;

verus! {

/// Every bit that names a gateway intent.
pub const ALL_GATEWAY_INTENTS: u64 = 0x331ffff;

/// One gateway intent.
#[derive(Clone, Copy, Debug, PartialEq, Eq, Structural, Hash)]
pub enum GatewayIntent {
    Guilds,
    GuildMembers,
    GuildModeration,
    GuildEmojisAndStickers,
    GuildIntegrations,
    GuildWebhooks,
    GuildInvites,
    GuildVoiceStates,
    GuildPresences,
    GuildMessages,
    GuildMessageReactions,
    GuildMessageTyping,
    DirectMessages,
    DirectMessageReactions,
    DirectMessageTyping,
    MessageContent,
    GuildScheduledEvents,
    AutoModerationConfiguration,
    AutoModerationExecution,
    GuildMessagePolls,
    DirectMessagePolls,
}

impl GatewayIntent {
    /// The bits of a list of flags, together.
    pub open spec fn union_of(flags: Seq<GatewayIntent>) -> u64
        decreases flags.len(),
    {
        if flags.len() == 0 {
            0
        } else {
            GatewayIntent::union_of(flags.drop_last()) | flags.last().spec_bit()
        }
    }

    /// The bit that stands for this flag.
    pub open spec fn spec_bit(self) -> u64 {
        match self {
            GatewayIntent::Guilds => 0x1,
            GatewayIntent::GuildMembers => 0x2,
            GatewayIntent::GuildModeration => 0x4,
            GatewayIntent::GuildEmojisAndStickers => 0x8,
            GatewayIntent::GuildIntegrations => 0x10,
            GatewayIntent::GuildWebhooks => 0x20,
            GatewayIntent::GuildInvites => 0x40,
            GatewayIntent::GuildVoiceStates => 0x80,
            GatewayIntent::GuildPresences => 0x100,
            GatewayIntent::GuildMessages => 0x200,
            GatewayIntent::GuildMessageReactions => 0x400,
            GatewayIntent::GuildMessageTyping => 0x800,
            GatewayIntent::DirectMessages => 0x1000,
            GatewayIntent::DirectMessageReactions => 0x2000,
            GatewayIntent::DirectMessageTyping => 0x4000,
            GatewayIntent::MessageContent => 0x8000,
            GatewayIntent::GuildScheduledEvents => 0x10000,
            GatewayIntent::AutoModerationConfiguration => 0x100000,
            GatewayIntent::AutoModerationExecution => 0x200000,
            GatewayIntent::GuildMessagePolls => 0x1000000,
            GatewayIntent::DirectMessagePolls => 0x2000000,
        }
    }

    pub fn bit(&self) -> (r: u64)
        ensures
            r == self.spec_bit(),
            r & ALL_GATEWAY_INTENTS == r,
    {
        let r: u64 = match self {
            GatewayIntent::Guilds => 0x1,
            GatewayIntent::GuildMembers => 0x2,
            GatewayIntent::GuildModeration => 0x4,
            GatewayIntent::GuildEmojisAndStickers => 0x8,
            GatewayIntent::GuildIntegrations => 0x10,
            GatewayIntent::GuildWebhooks => 0x20,
            GatewayIntent::GuildInvites => 0x40,
            GatewayIntent::GuildVoiceStates => 0x80,
            GatewayIntent::GuildPresences => 0x100,
            GatewayIntent::GuildMessages => 0x200,
            GatewayIntent::GuildMessageReactions => 0x400,
            GatewayIntent::GuildMessageTyping => 0x800,
            GatewayIntent::DirectMessages => 0x1000,
            GatewayIntent::DirectMessageReactions => 0x2000,
            GatewayIntent::DirectMessageTyping => 0x4000,
            GatewayIntent::MessageContent => 0x8000,
            GatewayIntent::GuildScheduledEvents => 0x10000,
            GatewayIntent::AutoModerationConfiguration => 0x100000,
            GatewayIntent::AutoModerationExecution => 0x200000,
            GatewayIntent::GuildMessagePolls => 0x1000000,
            GatewayIntent::DirectMessagePolls => 0x2000000,
        };
        assert(r & ALL_GATEWAY_INTENTS == r) by (bit_vector)
            requires
                r == 0x1 || r == 0x2 || r == 0x4 || r == 0x8 || r == 0x10 || r == 0x20 || r == 0x40 || r == 0x80 || r == 0x100 || r == 0x200 || r == 0x400 || r == 0x800 || r == 0x1000 || r == 0x2000 || r == 0x4000 || r == 0x8000 || r == 0x10000 || r == 0x100000 || r == 0x200000 || r == 0x1000000 || r == 0x2000000;
        r
    }
}

/// The capabilities a client declares when it identifies: a set of flags that travels as one integer, the sum of the
/// flags' bits. Bits that name no flag are dropped when the set is read.
#[derive(Clone, Copy, Debug, PartialEq, Eq, Structural)]
pub struct GatewayIntents {
    bits: u64,
}

impl View for GatewayIntents {
    type V = u64;

    closed spec fn view(&self) -> u64 {
        self.bits
    }
}

impl GatewayIntents {
    /// A set holds only bits that name a flag.
    #[verifier::type_invariant]
    spec fn known_only(self) -> bool {
        self.bits & ALL_GATEWAY_INTENTS == self.bits
    }

    /// The set read from the integer `bits`.
    pub closed spec fn spec_from_bits(bits: u64) -> Self {
        GatewayIntents { bits: bits & ALL_GATEWAY_INTENTS }
    }

    /// The set with no flag.
    pub fn empty() -> (r: Self)
        ensures
            r@ == 0,
    {
        assert(0u64 & ALL_GATEWAY_INTENTS == 0u64) by (bit_vector);
        GatewayIntents { bits: 0 }
    }

    /// The set of the flags whose bits `bits` holds.
    pub fn from_bits(bits: u64) -> (r: Self)
        ensures
            r@ == bits & ALL_GATEWAY_INTENTS,
            r == Self::spec_from_bits(bits),
    {
        assert((bits & ALL_GATEWAY_INTENTS) & ALL_GATEWAY_INTENTS == bits & ALL_GATEWAY_INTENTS) by (bit_vector);
        GatewayIntents { bits: bits & ALL_GATEWAY_INTENTS }
    }

    /// The integer that the set travels as; reading it gives the set back.
    pub fn bits(&self) -> (r: u64)
        ensures
            r == self@,
            Self::spec_from_bits(r) == *self,
    {
        proof {
            use_type_invariant(self);
        }
        self.bits
    }

    pub fn contains(&self, flag: GatewayIntent) -> (r: bool)
        ensures
            r == (self@ & flag.spec_bit() == flag.spec_bit()),
    {
        let b = flag.bit();
        self.bits & b == b
    }

    pub fn insert(&mut self, flag: GatewayIntent)
        ensures
            final(self)@ == old(self)@ | flag.spec_bit(),
    {
        proof {
            use_type_invariant(&*self);
        }
        let b = flag.bit();
        let old_bits = self.bits;
        assert((old_bits | b) & ALL_GATEWAY_INTENTS == (old_bits | b)) by (bit_vector)
            requires
                old_bits & ALL_GATEWAY_INTENTS == old_bits,
                b & ALL_GATEWAY_INTENTS == b;
        self.bits = old_bits | b;
    }

    /// The set of the given flags.
    pub fn from_flags(flags: &Vec<GatewayIntent>) -> (r: Self)
        ensures
            r@ == GatewayIntent::union_of(flags@),
            forall|i: int| 0 <= i < flags@.len() ==> #[trigger] (r@ & flags@[i].spec_bit())
                == flags@[i].spec_bit(),
    {
        let mut r = Self::empty();
        let mut i: usize = 0;
        while i < flags.len()
            invariant
                i <= flags@.len(),
                forall|k: int| 0 <= k < i ==> #[trigger] (r@ & flags@[k].spec_bit())
                    == flags@[k].spec_bit(),
                r@ == GatewayIntent::union_of(flags@.subrange(0, i as int)),
            decreases flags@.len() - i,
        {
            let ghost before = r@;
            let b = flags[i].bit();
            r.insert(flags[i]);
            assert forall|k: int| 0 <= k < i implies #[trigger] (r@ & flags@[k].spec_bit())
                == flags@[k].spec_bit() by {
                let c = flags@[k].spec_bit();
                assert((before | b) & c == c) by (bit_vector)
                    requires
                        before & c == c;
            }
            assert((before | b) & b == b) by (bit_vector);
            assert(flags@.subrange(0, i + 1).drop_last() =~= flags@.subrange(0, i as int));
            i = i + 1;
        }
        assert(flags@.subrange(0, flags@.len() as int) =~= flags@);
        r
    }
}

/// Every bit that names a application flag.
pub const ALL_APPLICATION_FLAGS: u64 = 0x8ff040;

/// One application flag.
#[derive(Clone, Copy, Debug, PartialEq, Eq, Structural, Hash)]
pub enum ApplicationFlag {
    ApplicationAutoModerationRuleCreateBadge,
    GatewayPresence,
    GatewayPresenceLimited,
    GatewayGuildMembers,
    GatewayGuildMembersLimited,
    VerificationPendingGuildLimit,
    Embedded,
    GatewayMessageContent,
    GatewayMessagecontentLimited,
    ApplicationCommandBadge,
}

impl ApplicationFlag {
    /// The bits of a list of flags, together.
    pub open spec fn union_of(flags: Seq<ApplicationFlag>) -> u64
        decreases flags.len(),
    {
        if flags.len() == 0 {
            0
        } else {
            ApplicationFlag::union_of(flags.drop_last()) | flags.last().spec_bit()
        }
    }

    /// The bit that stands for this flag.
    pub open spec fn spec_bit(self) -> u64 {
        match self {
            ApplicationFlag::ApplicationAutoModerationRuleCreateBadge => 0x40,
            ApplicationFlag::GatewayPresence => 0x1000,
            ApplicationFlag::GatewayPresenceLimited => 0x2000,
            ApplicationFlag::GatewayGuildMembers => 0x4000,
            ApplicationFlag::GatewayGuildMembersLimited => 0x8000,
            ApplicationFlag::VerificationPendingGuildLimit => 0x10000,
            ApplicationFlag::Embedded => 0x20000,
            ApplicationFlag::GatewayMessageContent => 0x40000,
            ApplicationFlag::GatewayMessagecontentLimited => 0x80000,
            ApplicationFlag::ApplicationCommandBadge => 0x800000,
        }
    }

    pub fn bit(&self) -> (r: u64)
        ensures
            r == self.spec_bit(),
            r & ALL_APPLICATION_FLAGS == r,
    {
        let r: u64 = match self {
            ApplicationFlag::ApplicationAutoModerationRuleCreateBadge => 0x40,
            ApplicationFlag::GatewayPresence => 0x1000,
            ApplicationFlag::GatewayPresenceLimited => 0x2000,
            ApplicationFlag::GatewayGuildMembers => 0x4000,
            ApplicationFlag::GatewayGuildMembersLimited => 0x8000,
            ApplicationFlag::VerificationPendingGuildLimit => 0x10000,
            ApplicationFlag::Embedded => 0x20000,
            ApplicationFlag::GatewayMessageContent => 0x40000,
            ApplicationFlag::GatewayMessagecontentLimited => 0x80000,
            ApplicationFlag::ApplicationCommandBadge => 0x800000,
        };
        assert(r & ALL_APPLICATION_FLAGS == r) by (bit_vector)
            requires
                r == 0x40 || r == 0x1000 || r == 0x2000 || r == 0x4000 || r == 0x8000 || r == 0x10000 || r == 0x20000 || r == 0x40000 || r == 0x80000 || r == 0x800000;
        r
    }
}

/// The public flags of an application: a set of flags that travels as one integer, the sum of the
/// flags' bits. Bits that name no flag are dropped when the set is read.
#[derive(Clone, Copy, Debug, PartialEq, Eq, Structural)]
pub struct ApplicationFlags {
    bits: u64,
}

impl View for ApplicationFlags {
    type V = u64;

    closed spec fn view(&self) -> u64 {
        self.bits
    }
}

impl ApplicationFlags {
    /// A set holds only bits that name a flag.
    #[verifier::type_invariant]
    spec fn known_only(self) -> bool {
        self.bits & ALL_APPLICATION_FLAGS == self.bits
    }

    /// The set read from the integer `bits`.
    pub closed spec fn spec_from_bits(bits: u64) -> Self {
        ApplicationFlags { bits: bits & ALL_APPLICATION_FLAGS }
    }

    /// The set with no flag.
    pub fn empty() -> (r: Self)
        ensures
            r@ == 0,
    {
        assert(0u64 & ALL_APPLICATION_FLAGS == 0u64) by (bit_vector);
        ApplicationFlags { bits: 0 }
    }

    /// The set of the flags whose bits `bits` holds.
    pub fn from_bits(bits: u64) -> (r: Self)
        ensures
            r@ == bits & ALL_APPLICATION_FLAGS,
            r == Self::spec_from_bits(bits),
    {
        assert((bits & ALL_APPLICATION_FLAGS) & ALL_APPLICATION_FLAGS == bits & ALL_APPLICATION_FLAGS) by (bit_vector);
        ApplicationFlags { bits: bits & ALL_APPLICATION_FLAGS }
    }

    /// The integer that the set travels as; reading it gives the set back.
    pub fn bits(&self) -> (r: u64)
        ensures
            r == self@,
            Self::spec_from_bits(r) == *self,
    {
        proof {
            use_type_invariant(self);
        }
        self.bits
    }

    pub fn contains(&self, flag: ApplicationFlag) -> (r: bool)
        ensures
            r == (self@ & flag.spec_bit() == flag.spec_bit()),
    {
        let b = flag.bit();
        self.bits & b == b
    }

    pub fn insert(&mut self, flag: ApplicationFlag)
        ensures
            final(self)@ == old(self)@ | flag.spec_bit(),
    {
        proof {
            use_type_invariant(&*self);
        }
        let b = flag.bit();
        let old_bits = self.bits;
        assert((old_bits | b) & ALL_APPLICATION_FLAGS == (old_bits | b)) by (bit_vector)
            requires
                old_bits & ALL_APPLICATION_FLAGS == old_bits,
                b & ALL_APPLICATION_FLAGS == b;
        self.bits = old_bits | b;
    }

    /// The set of the given flags.
    pub fn from_flags(flags: &Vec<ApplicationFlag>) -> (r: Self)
        ensures
            r@ == ApplicationFlag::union_of(flags@),
            forall|i: int| 0 <= i < flags@.len() ==> #[trigger] (r@ & flags@[i].spec_bit())
                == flags@[i].spec_bit(),
    {
        let mut r = Self::empty();
        let mut i: usize = 0;
        while i < flags.len()
            invariant
                i <= flags@.len(),
                forall|k: int| 0 <= k < i ==> #[trigger] (r@ & flags@[k].spec_bit())
                    == flags@[k].spec_bit(),
                r@ == ApplicationFlag::union_of(flags@.subrange(0, i as int)),
            decreases flags@.len() - i,
        {
            let ghost before = r@;
            let b = flags[i].bit();
            r.insert(flags[i]);
            assert forall|k: int| 0 <= k < i implies #[trigger] (r@ & flags@[k].spec_bit())
                == flags@[k].spec_bit() by {
                let c = flags@[k].spec_bit();
                assert((before | b) & c == c) by (bit_vector)
                    requires
                        before & c == c;
            }
            assert((before | b) & b == b) by (bit_vector);
            assert(flags@.subrange(0, i + 1).drop_last() =~= flags@.subrange(0, i as int));
            i = i + 1;
        }
        assert(flags@.subrange(0, flags@.len() as int) =~= flags@);
        r
    }
}

/// Every bit that names a permission.
pub const ALL_PERMISSIONS: u64 = 0x27fffffffffff;

/// One permission.
#[derive(Clone, Copy, Debug, PartialEq, Eq, Structural, Hash)]
pub enum Permission {
    CreateInstantInvite,
    KickMembers,
    BanMembers,
    Administrator,
    ManageChannels,
    ManageGuild,
    AddReactions,
    ViewAuditLog,
    PrioritySpeaker,
    Stream,
    ViewChannel,
    SendMessages,
    SendTtsMessages,
    ManageMessages,
    EmbedLinks,
    AttachFiles,
    ReadMessageHistory,
    MentionEveryone,
    UseExternalEmojis,
    ViewGuildInsights,
    Connect,
    Speak,
    MuteMembers,
    DeafenMembers,
    MoveMembers,
    UseVad,
    ChangeNickname,
    ManageNicknames,
    ManageRoles,
    ManageWebhooks,
    ManageGuildExpressions,
    UseApplicationCommands,
    RequestToSpeak,
    ManageEvents,
    ManageThreads,
    CreatePublicThreads,
    CreatePrivateThreads,
    UseExternalStickers,
    SendMessagesInThreads,
    UseEmbeddedActivities,
    ModerateMembers,
    ViewCreatorMonetizationAnalytics,
    UseSoundboard,
    CreateGuildExpressions,
    CreateEvents,
    UseExternalSounds,
    SendVoiceMessages,
    SendPolls,
}

impl Permission {
    /// The bits of a list of flags, together.
    pub open spec fn union_of(flags: Seq<Permission>) -> u64
        decreases flags.len(),
    {
        if flags.len() == 0 {
            0
        } else {
            Permission::union_of(flags.drop_last()) | flags.last().spec_bit()
        }
    }

    /// The bit that stands for this flag.
    pub open spec fn spec_bit(self) -> u64 {
        match self {
            Permission::CreateInstantInvite => 0x1,
            Permission::KickMembers => 0x2,
            Permission::BanMembers => 0x4,
            Permission::Administrator => 0x8,
            Permission::ManageChannels => 0x10,
            Permission::ManageGuild => 0x20,
            Permission::AddReactions => 0x40,
            Permission::ViewAuditLog => 0x80,
            Permission::PrioritySpeaker => 0x100,
            Permission::Stream => 0x200,
            Permission::ViewChannel => 0x400,
            Permission::SendMessages => 0x800,
            Permission::SendTtsMessages => 0x1000,
            Permission::ManageMessages => 0x2000,
            Permission::EmbedLinks => 0x4000,
            Permission::AttachFiles => 0x8000,
            Permission::ReadMessageHistory => 0x10000,
            Permission::MentionEveryone => 0x20000,
            Permission::UseExternalEmojis => 0x40000,
            Permission::ViewGuildInsights => 0x80000,
            Permission::Connect => 0x100000,
            Permission::Speak => 0x200000,
            Permission::MuteMembers => 0x400000,
            Permission::DeafenMembers => 0x800000,
            Permission::MoveMembers => 0x1000000,
            Permission::UseVad => 0x2000000,
            Permission::ChangeNickname => 0x4000000,
            Permission::ManageNicknames => 0x8000000,
            Permission::ManageRoles => 0x10000000,
            Permission::ManageWebhooks => 0x20000000,
            Permission::ManageGuildExpressions => 0x40000000,
            Permission::UseApplicationCommands => 0x80000000,
            Permission::RequestToSpeak => 0x100000000,
            Permission::ManageEvents => 0x200000000,
            Permission::ManageThreads => 0x400000000,
            Permission::CreatePublicThreads => 0x800000000,
            Permission::CreatePrivateThreads => 0x1000000000,
            Permission::UseExternalStickers => 0x2000000000,
            Permission::SendMessagesInThreads => 0x4000000000,
            Permission::UseEmbeddedActivities => 0x8000000000,
            Permission::ModerateMembers => 0x10000000000,
            Permission::ViewCreatorMonetizationAnalytics => 0x20000000000,
            Permission::UseSoundboard => 0x40000000000,
            Permission::CreateGuildExpressions => 0x80000000000,
            Permission::CreateEvents => 0x100000000000,
            Permission::UseExternalSounds => 0x200000000000,
            Permission::SendVoiceMessages => 0x400000000000,
            Permission::SendPolls => 0x2000000000000,
        }
    }

    pub fn bit(&self) -> (r: u64)
        ensures
            r == self.spec_bit(),
            r & ALL_PERMISSIONS == r,
    {
        let r: u64 = match self {
            Permission::CreateInstantInvite => 0x1,
            Permission::KickMembers => 0x2,
            Permission::BanMembers => 0x4,
            Permission::Administrator => 0x8,
            Permission::ManageChannels => 0x10,
            Permission::ManageGuild => 0x20,
            Permission::AddReactions => 0x40,
            Permission::ViewAuditLog => 0x80,
            Permission::PrioritySpeaker => 0x100,
            Permission::Stream => 0x200,
            Permission::ViewChannel => 0x400,
            Permission::SendMessages => 0x800,
            Permission::SendTtsMessages => 0x1000,
            Permission::ManageMessages => 0x2000,
            Permission::EmbedLinks => 0x4000,
            Permission::AttachFiles => 0x8000,
            Permission::ReadMessageHistory => 0x10000,
            Permission::MentionEveryone => 0x20000,
            Permission::UseExternalEmojis => 0x40000,
            Permission::ViewGuildInsights => 0x80000,
            Permission::Connect => 0x100000,
            Permission::Speak => 0x200000,
            Permission::MuteMembers => 0x400000,
            Permission::DeafenMembers => 0x800000,
            Permission::MoveMembers => 0x1000000,
            Permission::UseVad => 0x2000000,
            Permission::ChangeNickname => 0x4000000,
            Permission::ManageNicknames => 0x8000000,
            Permission::ManageRoles => 0x10000000,
            Permission::ManageWebhooks => 0x20000000,
            Permission::ManageGuildExpressions => 0x40000000,
            Permission::UseApplicationCommands => 0x80000000,
            Permission::RequestToSpeak => 0x100000000,
            Permission::ManageEvents => 0x200000000,
            Permission::ManageThreads => 0x400000000,
            Permission::CreatePublicThreads => 0x800000000,
            Permission::CreatePrivateThreads => 0x1000000000,
            Permission::UseExternalStickers => 0x2000000000,
            Permission::SendMessagesInThreads => 0x4000000000,
            Permission::UseEmbeddedActivities => 0x8000000000,
            Permission::ModerateMembers => 0x10000000000,
            Permission::ViewCreatorMonetizationAnalytics => 0x20000000000,
            Permission::UseSoundboard => 0x40000000000,
            Permission::CreateGuildExpressions => 0x80000000000,
            Permission::CreateEvents => 0x100000000000,
            Permission::UseExternalSounds => 0x200000000000,
            Permission::SendVoiceMessages => 0x400000000000,
            Permission::SendPolls => 0x2000000000000,
        };
        assert(r & ALL_PERMISSIONS == r) by (bit_vector)
            requires
                r == 0x1 || r == 0x2 || r == 0x4 || r == 0x8 || r == 0x10 || r == 0x20 || r == 0x40 || r == 0x80 || r == 0x100 || r == 0x200 || r == 0x400 || r == 0x800 || r == 0x1000 || r == 0x2000 || r == 0x4000 || r == 0x8000 || r == 0x10000 || r == 0x20000 || r == 0x40000 || r == 0x80000 || r == 0x100000 || r == 0x200000 || r == 0x400000 || r == 0x800000 || r == 0x1000000 || r == 0x2000000 || r == 0x4000000 || r == 0x8000000 || r == 0x10000000 || r == 0x20000000 || r == 0x40000000 || r == 0x80000000 || r == 0x100000000 || r == 0x200000000 || r == 0x400000000 || r == 0x800000000 || r == 0x1000000000 || r == 0x2000000000 || r == 0x4000000000 || r == 0x8000000000 || r == 0x10000000000 || r == 0x20000000000 || r == 0x40000000000 || r == 0x80000000000 || r == 0x100000000000 || r == 0x200000000000 || r == 0x400000000000 || r == 0x2000000000000;
        r
    }
}

/// The permissions of a role or a member: a set of flags that travels as one integer, the sum of the
/// flags' bits. Bits that name no flag are dropped when the set is read.
#[derive(Clone, Copy, Debug, PartialEq, Eq, Structural)]
pub struct Permissions {
    bits: u64,
}

impl View for Permissions {
    type V = u64;

    closed spec fn view(&self) -> u64 {
        self.bits
    }
}

impl Permissions {
    /// A set holds only bits that name a flag.
    #[verifier::type_invariant]
    spec fn known_only(self) -> bool {
        self.bits & ALL_PERMISSIONS == self.bits
    }

    /// The set read from the integer `bits`.
    pub closed spec fn spec_from_bits(bits: u64) -> Self {
        Permissions { bits: bits & ALL_PERMISSIONS }
    }

    /// The set with no flag.
    pub fn empty() -> (r: Self)
        ensures
            r@ == 0,
    {
        assert(0u64 & ALL_PERMISSIONS == 0u64) by (bit_vector);
        Permissions { bits: 0 }
    }

    /// The set of the flags whose bits `bits` holds.
    pub fn from_bits(bits: u64) -> (r: Self)
        ensures
            r@ == bits & ALL_PERMISSIONS,
            r == Self::spec_from_bits(bits),
    {
        assert((bits & ALL_PERMISSIONS) & ALL_PERMISSIONS == bits & ALL_PERMISSIONS) by (bit_vector);
        Permissions { bits: bits & ALL_PERMISSIONS }
    }

    /// The integer that the set travels as; reading it gives the set back.
    pub fn bits(&self) -> (r: u64)
        ensures
            r == self@,
            Self::spec_from_bits(r) == *self,
    {
        proof {
            use_type_invariant(self);
        }
        self.bits
    }

    pub fn contains(&self, flag: Permission) -> (r: bool)
        ensures
            r == (self@ & flag.spec_bit() == flag.spec_bit()),
    {
        let b = flag.bit();
        self.bits & b == b
    }

    pub fn insert(&mut self, flag: Permission)
        ensures
            final(self)@ == old(self)@ | flag.spec_bit(),
    {
        proof {
            use_type_invariant(&*self);
        }
        let b = flag.bit();
        let old_bits = self.bits;
        assert((old_bits | b) & ALL_PERMISSIONS == (old_bits | b)) by (bit_vector)
            requires
                old_bits & ALL_PERMISSIONS == old_bits,
                b & ALL_PERMISSIONS == b;
        self.bits = old_bits | b;
    }

    /// The set of the given flags.
    pub fn from_flags(flags: &Vec<Permission>) -> (r: Self)
        ensures
            r@ == Permission::union_of(flags@),
            forall|i: int| 0 <= i < flags@.len() ==> #[trigger] (r@ & flags@[i].spec_bit())
                == flags@[i].spec_bit(),
    {
        let mut r = Self::empty();
        let mut i: usize = 0;
        while i < flags.len()
            invariant
                i <= flags@.len(),
                forall|k: int| 0 <= k < i ==> #[trigger] (r@ & flags@[k].spec_bit())
                    == flags@[k].spec_bit(),
                r@ == Permission::union_of(flags@.subrange(0, i as int)),
            decreases flags@.len() - i,
        {
            let ghost before = r@;
            let b = flags[i].bit();
            r.insert(flags[i]);
            assert forall|k: int| 0 <= k < i implies #[trigger] (r@ & flags@[k].spec_bit())
                == flags@[k].spec_bit() by {
                let c = flags@[k].spec_bit();
                assert((before | b) & c == c) by (bit_vector)
                    requires
                        before & c == c;
            }
            assert((before | b) & b == b) by (bit_vector);
            assert(flags@.subrange(0, i + 1).drop_last() =~= flags@.subrange(0, i as int));
            i = i + 1;
        }
        assert(flags@.subrange(0, flags@.len() as int) =~= flags@);
        r
    }
}

} // verus!
