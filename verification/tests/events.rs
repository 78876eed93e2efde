use starboard::cache::Cache;
use starboard::events::{Dispatch, EventKind};

#[test]
fn events_of_the_kinds_the_cache_follows_are_merged() {
    let cache = Cache::new();
    let merged = [
        EventKind::MessageCreate,
        EventKind::MessageDelete,
        EventKind::MessageDeleteBulk,
        EventKind::MessageUpdate,
        EventKind::GuildCreate,
        EventKind::GuildDelete,
        EventKind::RoleCreate,
        EventKind::RoleDelete,
        EventKind::RoleUpdate,
        EventKind::ChannelCreate,
        EventKind::ChannelDelete,
        EventKind::ChannelUpdate,
        EventKind::ThreadCreate,
        EventKind::ThreadDelete,
        EventKind::ThreadUpdate,
        EventKind::ThreadListSync,
        EventKind::GuildEmojisUpdate,
        EventKind::MemberRemove,
        EventKind::MemberUpdate,
    ];
    for kind in merged {
        assert_eq!(cache.update(kind), Dispatch::Merge, "{:?}", kind);
    }
}

#[test]
fn other_events_are_ignored() {
    let cache = Cache::new();
    let other = [
        EventKind::AutoModerationActionExecution,
        EventKind::AutoModerationRuleCreate,
        EventKind::AutoModerationRuleDelete,
        EventKind::AutoModerationRuleUpdate,
        EventKind::BanAdd,
        EventKind::BanRemove,
        EventKind::ChannelPinsUpdate,
        EventKind::CommandPermissionsUpdate,
        EventKind::GatewayHeartbeat,
        EventKind::GatewayHeartbeatAck,
        EventKind::GatewayHello,
        EventKind::GatewayInvalidateSession,
        EventKind::GatewayReconnect,
        EventKind::GiftCodeUpdate,
        EventKind::GuildAuditLogEntryCreate,
        EventKind::GuildIntegrationsUpdate,
        EventKind::GuildScheduledEventCreate,
        EventKind::GuildScheduledEventDelete,
        EventKind::GuildScheduledEventUpdate,
        EventKind::GuildScheduledEventUserAdd,
        EventKind::GuildScheduledEventUserRemove,
        EventKind::GuildStickersUpdate,
        EventKind::GuildUpdate,
        EventKind::IntegrationCreate,
        EventKind::IntegrationDelete,
        EventKind::IntegrationUpdate,
        EventKind::InteractionCreate,
        EventKind::InviteCreate,
        EventKind::InviteDelete,
        EventKind::MemberAdd,
        EventKind::MemberChunk,
        EventKind::PresenceUpdate,
        EventKind::PresencesReplace,
        EventKind::ReactionAdd,
        EventKind::ReactionRemove,
        EventKind::ReactionRemoveAll,
        EventKind::ReactionRemoveEmoji,
        EventKind::Ready,
        EventKind::Resumed,
        EventKind::ShardConnected,
        EventKind::ShardConnecting,
        EventKind::ShardDisconnected,
        EventKind::ShardIdentifying,
        EventKind::ShardPayload,
        EventKind::ShardReconnecting,
        EventKind::ShardResuming,
        EventKind::StageInstanceCreate,
        EventKind::StageInstanceDelete,
        EventKind::StageInstanceUpdate,
        EventKind::ThreadMemberUpdate,
        EventKind::ThreadMembersUpdate,
        EventKind::TypingStart,
        EventKind::UnavailableGuild,
        EventKind::UserUpdate,
        EventKind::VoiceServerUpdate,
        EventKind::VoiceStateUpdate,
        EventKind::WebhooksUpdate,
    ];
    for kind in other {
        assert_eq!(cache.update(kind), Dispatch::Ignore, "{:?}", kind);
    }
}
