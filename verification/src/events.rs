//! The event feed: which kinds of event the cache takes in.
//!
//! The cache only decides whether an event is merged; the merge itself is
//! done by whoever owns the event's payload, through the cache's own writes.

use crate::cache::Cache;
use vstd::prelude::*;

verus! {

/// The kinds of event the platform's feed carries.
#[derive(Clone, Copy, Debug, PartialEq, Eq, Structural)]
pub enum EventKind {
    AutoModerationActionExecution,
    AutoModerationRuleCreate,
    AutoModerationRuleDelete,
    AutoModerationRuleUpdate,
    BanAdd,
    BanRemove,
    ChannelCreate,
    ChannelDelete,
    ChannelPinsUpdate,
    ChannelUpdate,
    CommandPermissionsUpdate,
    GatewayHeartbeat,
    GatewayHeartbeatAck,
    GatewayHello,
    GatewayInvalidateSession,
    GatewayReconnect,
    GiftCodeUpdate,
    GuildAuditLogEntryCreate,
    GuildCreate,
    GuildDelete,
    GuildEmojisUpdate,
    GuildIntegrationsUpdate,
    GuildScheduledEventCreate,
    GuildScheduledEventDelete,
    GuildScheduledEventUpdate,
    GuildScheduledEventUserAdd,
    GuildScheduledEventUserRemove,
    GuildStickersUpdate,
    GuildUpdate,
    IntegrationCreate,
    IntegrationDelete,
    IntegrationUpdate,
    InteractionCreate,
    InviteCreate,
    InviteDelete,
    MemberAdd,
    MemberChunk,
    MemberRemove,
    MemberUpdate,
    MessageCreate,
    MessageDelete,
    MessageDeleteBulk,
    MessageUpdate,
    PresenceUpdate,
    PresencesReplace,
    ReactionAdd,
    ReactionRemove,
    ReactionRemoveAll,
    ReactionRemoveEmoji,
    Ready,
    Resumed,
    RoleCreate,
    RoleDelete,
    RoleUpdate,
    ShardConnected,
    ShardConnecting,
    ShardDisconnected,
    ShardIdentifying,
    ShardPayload,
    ShardReconnecting,
    ShardResuming,
    StageInstanceCreate,
    StageInstanceDelete,
    StageInstanceUpdate,
    ThreadCreate,
    ThreadDelete,
    ThreadListSync,
    ThreadMemberUpdate,
    ThreadMembersUpdate,
    ThreadUpdate,
    TypingStart,
    UnavailableGuild,
    UserUpdate,
    VoiceServerUpdate,
    VoiceStateUpdate,
    WebhooksUpdate,
}

/// What to do with an event.
#[derive(Clone, Copy, Debug, PartialEq, Eq, Structural)]
pub enum Dispatch {
    /// The cache does not track this kind of event.
    Ignore,
    /// The event is to be merged into the cache.
    Merge,
}

/// The kinds of event the cache tracks: the life of messages, guilds, roles,
/// channels and threads, the emojis of a guild, and members that change or
/// leave.
pub open spec fn tracked_kinds() -> Set<EventKind> {
    set![
        EventKind::MessageCreate,
        EventKind::MessageDelete,
        EventKind::MessageDeleteBulk,
        EventKind::MessageUpdate,
        EventKind::GuildCreate,
        EventKind::GuildDelete,
        EventKind::RoleCreate,
        EventKind::RoleDelete,
        EventKind::RoleUpdate,
        EventKind::ChannelCreate,
        EventKind::ChannelDelete,
        EventKind::ChannelUpdate,
        EventKind::ThreadCreate,
        EventKind::ThreadDelete,
        EventKind::ThreadUpdate,
        EventKind::ThreadListSync,
        EventKind::GuildEmojisUpdate,
        EventKind::MemberRemove,
        EventKind::MemberUpdate,
    ]
}

impl EventKind {
    /// What to do with an event of this kind.
    pub open spec fn dispatch(self) -> Dispatch {
        if tracked_kinds().contains(self) {
            Dispatch::Merge
        } else {
            Dispatch::Ignore
        }
    }
}

impl Cache {
    /// Says what to do with an event of kind `kind`. An event of a kind that
    /// is not tracked is ignored, and no kind is an error. The cache itself
    /// is not changed: a merge goes through its writes.
    pub fn update(&self, kind: EventKind) -> (dispatch: Dispatch)
        ensures
            dispatch == kind.dispatch(),
    {
        match kind {
            EventKind::MessageCreate
            | EventKind::MessageDelete
            | EventKind::MessageDeleteBulk
            | EventKind::MessageUpdate => Dispatch::Merge,
            EventKind::GuildCreate | EventKind::GuildDelete => Dispatch::Merge,
            EventKind::RoleCreate
            | EventKind::RoleDelete
            | EventKind::RoleUpdate => Dispatch::Merge,
            EventKind::ChannelCreate
            | EventKind::ChannelDelete
            | EventKind::ChannelUpdate => Dispatch::Merge,
            EventKind::ThreadCreate
            | EventKind::ThreadDelete
            | EventKind::ThreadUpdate
            | EventKind::ThreadListSync => Dispatch::Merge,
            EventKind::GuildEmojisUpdate => Dispatch::Merge,
            EventKind::MemberRemove | EventKind::MemberUpdate => Dispatch::Merge,
            _ => Dispatch::Ignore,
        }
    }
}

} // verus!
