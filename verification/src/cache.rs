//! The cache itself: the stores it is made of, its view, and the reads and
//! writes that everything else goes through.

use crate::backing::{
    guild_entries, guild_map_get, guild_map_insert, guild_map_merge_channel, guild_map_new,
    guild_map_remove, marker_cache_get, marker_cache_new, marker_cache_set, marker_capacity,
    marker_order, member_cache_get, member_cache_insert, member_cache_new, member_entries,
    message_cache_get, message_cache_insert, message_cache_new, message_entries, premium_entries,
    premium_map_get, premium_map_insert, premium_map_new, response_cache_get,
    response_cache_insert, response_cache_new, response_entries, user_cache_get,
    user_cache_insert, user_cache_new, user_entries, webhook_entries, webhook_map_get,
    webhook_map_insert, webhook_map_new, webhook_map_remove,
};
use crate::constants::{
    MAX_MEMBERS, MAX_MESSAGES, MAX_STORED_AUTO_DELETES, MAX_STORED_RESPONSES, MAX_USERS,
    MEMBERS_TTI, MESSAGES_TTI, STORED_RESPONSES_TTI, USERS_TTI,
};
use crate::marks::{
    lemma_order_marked, lemma_order_touched, order_marked, order_touched, order_well_formed,
};
use crate::model::{
    CachedGuild, CachedMember, CachedMessage, CachedUser, Channel, ChannelKind, GuildView, Webhook,
};
use cached::SizedCache;
use dashmap::DashMap;
use moka::sync::Cache as IdleCache;
use std::sync::Arc;
use vstd::prelude::*;

verus! {

/// What a cache holds.
///
/// `guilds`, `webhooks` and `premium` are what is stored: an entry stays until
/// it is replaced or removed. `users`, `members` and `messages` are the
/// entries last written: each may have expired or been evicted since, so a
/// lookup finds the entry given here or nothing. In these three an entry of
/// `None` records that the remote API knows no such entity. `responses` are
/// entries last written, too. `auto_deleted` are the posts marked as deleted
/// automatically, the most recently used first, of which there are never more
/// than `auto_deleted_limit`.
pub struct CacheView {
    pub guilds: Map<u64, GuildView>,
    pub webhooks: Map<u64, Arc<Webhook>>,
    pub users: Map<u64, Option<Arc<CachedUser>>>,
    pub members: Map<(u64, u64), Option<Arc<CachedMember>>>,
    pub messages: Map<u64, Option<Arc<CachedMessage>>>,
    pub premium: Map<i64, bool>,
    pub responses: Map<u64, u64>,
    pub auto_deleted: Seq<u64>,
    pub auto_deleted_limit: usize,
}

impl CacheView {
    /// A cache that holds nothing.
    pub open spec fn empty() -> CacheView {
        CacheView {
            guilds: Map::empty(),
            webhooks: Map::empty(),
            users: Map::empty(),
            members: Map::empty(),
            messages: Map::empty(),
            premium: Map::empty(),
            responses: Map::empty(),
            auto_deleted: Seq::empty(),
            auto_deleted_limit: MAX_STORED_AUTO_DELETES,
        }
    }

    /// The aggregate of guild `guild_id`, if it is cached.
    pub open spec fn guild(self, guild_id: u64) -> Option<GuildView> {
        if self.guilds.contains_key(guild_id) {
            Some(self.guilds[guild_id])
        } else {
            None
        }
    }

    /// The webhook stored under `webhook_id`, if there is one.
    pub open spec fn webhook(self, webhook_id: u64) -> Option<Arc<Webhook>> {
        if self.webhooks.contains_key(webhook_id) {
            Some(self.webhooks[webhook_id])
        } else {
            None
        }
    }

    /// The cache with `guild` as the aggregate of guild `guild_id`.
    pub open spec fn with_guild(self, guild_id: u64, guild: GuildView) -> CacheView {
        CacheView { guilds: self.guilds.insert(guild_id, guild), ..self }
    }

    /// The cache without guild `guild_id`.
    pub open spec fn without_guild(self, guild_id: u64) -> CacheView {
        CacheView { guilds: self.guilds.remove(guild_id), ..self }
    }

    /// The cache after `channel` was merged into guild `guild_id`: unchanged
    /// where that guild is not cached.
    pub open spec fn with_channel(self, guild_id: u64, channel: Channel) -> CacheView {
        if self.guilds.contains_key(guild_id) {
            self.with_guild(guild_id, self.guilds[guild_id].with_channel(channel))
        } else {
            self
        }
    }

    /// The cache with `webhook` stored under `webhook_id`.
    pub open spec fn with_webhook(self, webhook_id: u64, webhook: Arc<Webhook>) -> CacheView {
        CacheView { webhooks: self.webhooks.insert(webhook_id, webhook), ..self }
    }

    /// The cache with nothing stored under `webhook_id`.
    pub open spec fn without_webhook(self, webhook_id: u64) -> CacheView {
        CacheView { webhooks: self.webhooks.remove(webhook_id), ..self }
    }

    /// The cache after `entry` was written to the user cache under `user_id`.
    pub open spec fn with_user(self, user_id: u64, entry: Option<Arc<CachedUser>>) -> CacheView {
        CacheView { users: self.users.insert(user_id, entry), ..self }
    }

    /// The cache after `entry` was written to the member cache under the pair
    /// of `guild_id` and `user_id`.
    pub open spec fn with_member(
        self,
        guild_id: u64,
        user_id: u64,
        entry: Option<Arc<CachedMember>>,
    ) -> CacheView {
        CacheView { members: self.members.insert((guild_id, user_id), entry), ..self }
    }

    /// The cache after `entry` was written to the message cache under
    /// `message_id`.
    pub open spec fn with_message(
        self,
        message_id: u64,
        entry: Option<Arc<CachedMessage>>,
    ) -> CacheView {
        CacheView { messages: self.messages.insert(message_id, entry), ..self }
    }

    /// The cache with `flag` stored as the premium flag of guild `guild_id`.
    pub open spec fn with_premium(self, guild_id: i64, flag: bool) -> CacheView {
        CacheView { premium: self.premium.insert(guild_id, flag), ..self }
    }

    /// The cache after `response_id` was written to the response cache under
    /// `message_id`.
    pub open spec fn with_response(self, message_id: u64, response_id: u64) -> CacheView {
        CacheView { responses: self.responses.insert(message_id, response_id), ..self }
    }

    /// The cache after post `post_id` was marked as deleted automatically:
    /// a post that is marked already stays where it is; a new one goes to the
    /// front, and the one at the back, which was used least recently, leaves
    /// where that makes one too many.
    pub open spec fn with_auto_deleted(self, post_id: u64) -> CacheView {
        CacheView {
            auto_deleted: order_marked(self.auto_deleted, post_id, self.auto_deleted_limit),
            ..self
        }
    }

    /// The cache after post `post_id` was asked about: a post that is marked
    /// moves to the front.
    pub open spec fn with_auto_deleted_asked(self, post_id: u64) -> CacheView {
        CacheView { auto_deleted: order_touched(self.auto_deleted, post_id), ..self }
    }

    /// The marks are within their limit, which is the one that every cache is
    /// made with, and no post is marked twice.
    pub open spec fn marks_well_formed(self) -> bool {
        self.auto_deleted_limit == MAX_STORED_AUTO_DELETES && order_well_formed(
            self.auto_deleted,
            self.auto_deleted_limit,
        )
    }
}

/// The cache: guild aggregates and webhooks, kept until replaced, and users,
/// members and messages, each kept until it has lain idle for too long.
pub struct Cache {
    guilds: DashMap<u64, CachedGuild>,
    webhooks: DashMap<u64, Arc<Webhook>>,
    messages: IdleCache<u64, Option<Arc<CachedMessage>>>,
    users: IdleCache<u64, Option<Arc<CachedUser>>>,
    members: IdleCache<(u64, u64), Option<Arc<CachedMember>>>,
    guild_premium: DashMap<i64, bool>,
    responses: IdleCache<u64, u64>,
    auto_deleted_posts: SizedCache<u64, ()>,
}

impl View for Cache {
    type V = CacheView;

    closed spec fn view(&self) -> CacheView {
        CacheView {
            guilds: guild_entries(self.guilds),
            webhooks: webhook_entries(self.webhooks),
            users: user_entries(self.users),
            members: member_entries(self.members),
            messages: message_entries(self.messages),
            premium: premium_entries(self.guild_premium),
            responses: response_entries(self.responses),
            auto_deleted: marker_order(self.auto_deleted_posts),
            auto_deleted_limit: marker_capacity(self.auto_deleted_posts),
        }
    }
}

impl Cache {
    /// A cache that holds nothing.
    pub fn new() -> (cache: Cache)
        ensures
            cache@ == CacheView::empty(),
            cache@.marks_well_formed(),
    {
        Cache {
            guilds: guild_map_new(),
            webhooks: webhook_map_new(),
            messages: message_cache_new(MAX_MESSAGES, MESSAGES_TTI),
            users: user_cache_new(MAX_USERS, USERS_TTI),
            members: member_cache_new(MAX_MEMBERS, MEMBERS_TTI),
            guild_premium: premium_map_new(),
            responses: response_cache_new(MAX_STORED_RESPONSES, STORED_RESPONSES_TTI),
            auto_deleted_posts: marker_cache_new(MAX_STORED_AUTO_DELETES),
        }
    }

    /// A copy of the aggregate of guild `guild_id`, if it is cached.
    pub fn guild(&self, guild_id: u64) -> (found: Option<CachedGuild>)
        ensures
            found is Some <==> self@.guilds.contains_key(guild_id),
            found matches Some(guild) ==> guild@ == self@.guilds[guild_id] && guild@.finite(),
    {
        let found = guild_map_get(&self.guilds, guild_id);
        proof {
            if found is Some {
                found->0.lemma_finite();
            }
        }
        found
    }

    /// Stores `guild` as the aggregate of guild `guild_id`, in place of any
    /// earlier one.
    pub fn insert_guild(&mut self, guild_id: u64, guild: CachedGuild)
        ensures
            final(self)@ == old(self)@.with_guild(guild_id, guild@),
    {
        guild_map_insert(&mut self.guilds, guild_id, guild);
    }

    /// Forgets guild `guild_id` with all that its aggregate holds.
    pub fn remove_guild(&mut self, guild_id: u64)
        ensures
            final(self)@ == old(self)@.without_guild(guild_id),
    {
        guild_map_remove(&mut self.guilds, guild_id);
    }

    /// Merges a fetched channel into the aggregate of guild `guild_id`. Does
    /// nothing where that guild is not cached.
    pub fn merge_channel(&mut self, guild_id: u64, channel: &Channel)
        ensures
            final(self)@ == old(self)@.with_channel(guild_id, *channel),
    {
        guild_map_merge_channel(&mut self.guilds, guild_id, channel);
    }

    /// The webhook stored under `webhook_id`, if there is one.
    pub fn webhook(&self, webhook_id: u64) -> (found: Option<Arc<Webhook>>)
        ensures
            found == self@.webhook(webhook_id),
    {
        webhook_map_get(&self.webhooks, webhook_id)
    }

    /// Stores `webhook` under `webhook_id`, in place of any earlier one.
    pub fn insert_webhook(&mut self, webhook_id: u64, webhook: &Arc<Webhook>)
        ensures
            final(self)@ == old(self)@.with_webhook(webhook_id, *webhook),
    {
        webhook_map_insert(&mut self.webhooks, webhook_id, webhook);
    }

    /// Removes what is stored under `webhook_id`.
    pub fn remove_webhook(&mut self, webhook_id: u64)
        ensures
            final(self)@ == old(self)@.without_webhook(webhook_id),
    {
        webhook_map_remove(&mut self.webhooks, webhook_id);
    }

    /// Looks `user_id` up in the user cache. An answer is the entry last
    /// written under it; no answer is owed, since entries expire.
    pub fn user_entry(&self, user_id: u64) -> (found: Option<Option<Arc<CachedUser>>>)
        ensures
            found matches Some(entry) ==> self@.users.contains_key(user_id) && entry
                == self@.users[user_id],
    {
        user_cache_get(&self.users, user_id)
    }

    /// Writes `entry` to the user cache under `user_id`.
    pub fn store_user(&mut self, user_id: u64, entry: &Option<Arc<CachedUser>>)
        ensures
            final(self)@ == old(self)@.with_user(user_id, *entry),
    {
        user_cache_insert(&mut self.users, user_id, entry);
    }

    /// Looks a member up in the member cache; see `user_entry`.
    pub fn member_entry(&self, guild_id: u64, user_id: u64) -> (found: Option<
        Option<Arc<CachedMember>>,
    >)
        ensures
            found matches Some(entry) ==> self@.members.contains_key((guild_id, user_id)) && entry
                == self@.members[(guild_id, user_id)],
    {
        member_cache_get(&self.members, (guild_id, user_id))
    }

    /// Writes `entry` to the member cache under the pair of `guild_id` and
    /// `user_id`.
    pub fn store_member(&mut self, guild_id: u64, user_id: u64, entry: &Option<Arc<CachedMember>>)
        ensures
            final(self)@ == old(self)@.with_member(guild_id, user_id, *entry),
    {
        member_cache_insert(&mut self.members, (guild_id, user_id), entry);
    }

    /// Looks `message_id` up in the message cache; see `user_entry`.
    pub fn message_entry(&self, message_id: u64) -> (found: Option<Option<Arc<CachedMessage>>>)
        ensures
            found matches Some(entry) ==> self@.messages.contains_key(message_id) && entry
                == self@.messages[message_id],
    {
        message_cache_get(&self.messages, message_id)
    }

    /// Writes `entry` to the message cache under `message_id`.
    pub fn store_message(&mut self, message_id: u64, entry: &Option<Arc<CachedMessage>>)
        ensures
            final(self)@ == old(self)@.with_message(message_id, *entry),
    {
        message_cache_insert(&mut self.messages, message_id, entry);
    }

    /// The premium flag stored for guild `guild_id`, if there is one.
    pub fn guild_premium(&self, guild_id: i64) -> (found: Option<bool>)
        ensures
            found is Some <==> self@.premium.contains_key(guild_id),
            found matches Some(flag) ==> flag == self@.premium[guild_id],
    {
        premium_map_get(&self.guild_premium, guild_id)
    }

    /// Stores the premium flag of guild `guild_id`.
    pub fn set_guild_premium(&mut self, guild_id: i64, flag: bool)
        ensures
            final(self)@ == old(self)@.with_premium(guild_id, flag),
    {
        premium_map_insert(&mut self.guild_premium, guild_id, flag);
    }

    /// Looks up the response that was sent to message `message_id`; see
    /// `user_entry`.
    pub fn response(&self, message_id: u64) -> (found: Option<u64>)
        ensures
            found matches Some(response_id) ==> self@.responses.contains_key(message_id)
                && response_id == self@.responses[message_id],
    {
        response_cache_get(&self.responses, message_id)
    }

    /// Remembers that message `response_id` was sent in response to message
    /// `message_id`.
    pub fn store_response(&mut self, message_id: u64, response_id: u64)
        ensures
            final(self)@ == old(self)@.with_response(message_id, response_id),
    {
        response_cache_insert(&mut self.responses, message_id, response_id);
    }

    /// Marks post `post_id` as deleted automatically. Marks that are well
    /// formed stay so, and then the post is marked.
    pub fn mark_auto_deleted(&mut self, post_id: u64)
        ensures
            final(self)@ == old(self)@.with_auto_deleted(post_id),
            old(self)@.marks_well_formed() ==> final(self)@.marks_well_formed(),
            old(self)@.marks_well_formed() ==> final(self)@.auto_deleted.contains(post_id),
    {
        proof {
            if self@.marks_well_formed() {
                lemma_order_marked(
                    marker_order(self.auto_deleted_posts),
                    post_id,
                    marker_capacity(self.auto_deleted_posts),
                );
            }
        }
        marker_cache_set(&mut self.auto_deleted_posts, post_id);
    }

    /// Whether post `post_id` is marked as deleted automatically. Asking
    /// counts as a use of the mark. Marks that are well formed stay so.
    pub fn was_auto_deleted(&mut self, post_id: u64) -> (marked: bool)
        ensures
            marked == old(self)@.auto_deleted.contains(post_id),
            final(self)@ == old(self)@.with_auto_deleted_asked(post_id),
            old(self)@.marks_well_formed() ==> final(self)@.marks_well_formed(),
    {
        proof {
            if self@.marks_well_formed() {
                lemma_order_touched(
                    marker_order(self.auto_deleted_posts),
                    post_id,
                    marker_capacity(self.auto_deleted_posts),
                );
            }
        }
        marker_cache_get(&mut self.auto_deleted_posts, post_id)
    }

    /// Whether guild `guild_id` is cached and has an emoji `emoji_id`.
    pub fn guild_emoji_exists(&self, guild_id: u64, emoji_id: u64) -> (exists: bool)
        ensures
            exists == (self@.guilds.contains_key(guild_id)
                && self@.guilds[guild_id].emojis.contains_key(emoji_id)),
    {
        match self.guild(guild_id) {
            Some(guild) => guild.emojis.contains_key(&emoji_id),
            None => false,
        }
    }

    /// Whether emoji `emoji_id` of guild `guild_id` is animated; `None` where
    /// the guild is not cached or has no such emoji.
    pub fn is_emoji_animated(&self, guild_id: u64, emoji_id: u64) -> (animated: Option<bool>)
        ensures
            animated == (if self@.guilds.contains_key(guild_id)
                && self@.guilds[guild_id].emojis.contains_key(emoji_id) {
                Some(self@.guilds[guild_id].emojis[emoji_id])
            } else {
                None
            }),
    {
        match self.guild(guild_id) {
            Some(guild) => match guild.emojis.get(&emoji_id) {
                Some(flag) => Some(*flag),
                None => None,
            },
            None => None,
        }
    }

    /// Whether channel `channel_id` is cached in guild `guild_id` as a forum.
    pub fn is_channel_forum(&self, guild_id: u64, channel_id: u64) -> (forum: bool)
        ensures
            forum == (self@.guilds.contains_key(guild_id)
                && self@.guilds[guild_id].channels.contains_key(channel_id)
                && self@.guilds[guild_id].channels[channel_id].kind == ChannelKind::GuildForum),
    {
        match self.guild(guild_id) {
            Some(guild) => match guild.channels.get(&channel_id) {
                Some(channel) => channel.kind == ChannelKind::GuildForum,
                None => false,
            },
            None => false,
        }
    }
}

} // verus!
