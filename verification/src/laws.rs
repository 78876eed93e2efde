//! What holds of the cache and the cooldowns across calls.

use crate::ancestry::{Link, Trail};
use crate::marks::{lemma_order_marked, lemma_order_touched};
use crate::cache::CacheView;
use crate::console::{kept_after, UserGuild};
use crate::cooldowns::{spec_pair_key, Windows};
use crate::fog::{
    answer_or_fetch, looked_up, member_answer, message_answer, message_looked_up, user_answer,
    webhook_answer, MessageResult,
};
use crate::model::{
    cached_user, CachedMember, CachedMessage, CachedUser, Channel, GuildView, Member, Message,
    Webhook,
};
use crate::ordering::{comes_before, in_order, lemma_sorted, sorted};
use crate::picker::{is_category, lemma_owner_is_found, owner};
use crate::remote::{FetchError, Fetched, Request, Step};
use crate::resolver::{ChannelReply, NsfwLookup};
use std::sync::Arc;
use vstd::prelude::*;

verus! {

/// An entry that a lookup finds is the answer, and nothing is fetched.
pub proof fn law_entry_found_is_answer<T>(entry: T, request: Request)
    ensures
        answer_or_fetch(Some(entry), request) == Step::Done(Ok(entry)),
        answer_or_fetch(Some(entry), request) !is Fetch,
{
}

/// Two lookups of one key in a row, both answered from the cache, give the
/// same answer: the entry last written under the key.
pub proof fn law_hits_agree<K, T>(
    entries: Map<K, T>,
    key: K,
    request: Request,
    first: Step<T>,
    second: Step<T>,
)
    requires
        looked_up(entries, key, request, first),
        looked_up(entries, key, request, second),
        first !is Fetch,
        second !is Fetch,
    ensures
        first == second,
        first == Step::Done(Ok(entries[key])),
{
}

/// As `law_hits_agree`, for messages.
pub proof fn law_message_hits_agree(
    entries: Map<u64, Option<Arc<CachedMessage>>>,
    channel_id: u64,
    message_id: u64,
    first: Step<MessageResult>,
    second: Step<MessageResult>,
)
    requires
        message_looked_up(entries, channel_id, message_id, first),
        message_looked_up(entries, channel_id, message_id, second),
        first !is Fetch,
        second !is Fetch,
    ensures
        first == second,
{
}

/// A stored webhook is the answer whenever the cache is allowed to answer,
/// and nothing is fetched; where it is not allowed to, the webhook is
/// fetched although it is stored.
pub proof fn law_webhook_hit_repeats(cache: CacheView, webhook_id: u64)
    requires
        cache.webhooks.contains_key(webhook_id),
    ensures
        cache.webhook_lookup(webhook_id, true) == Step::Done(
            Ok(Some(cache.webhooks[webhook_id])),
        ),
        cache.webhook_lookup(webhook_id, false) == Step::<Option<Arc<Webhook>>>::Fetch(
            Request::Webhook(webhook_id),
        ),
{
}

/// Once the API has answered that a user does not exist, that is what the
/// user cache holds for it: a lookup that is answered from the cache answers
/// that there is none, and nothing is fetched.
pub proof fn law_absent_user_is_cached(
    cache: CacheView,
    user_id: u64,
    error: FetchError,
    next: Step<Option<Arc<CachedUser>>>,
)
    requires
        error.is_not_found(),
        looked_up(
            cache.after_user(user_id, Fetched::Failed(error)).users,
            user_id,
            Request::User(user_id),
            next,
        ),
        next !is Fetch,
    ensures
        user_answer(Fetched::Failed(error)) == Ok::<Option<Arc<CachedUser>>, FetchError>(None),
        cache.after_user(user_id, Fetched::Failed(error)).users[user_id] is None,
        next == Step::<Option<Arc<CachedUser>>>::Done(Ok(None)),
{
}

/// As `law_absent_user_is_cached`, for a member that does not exist or may
/// not be read.
pub proof fn law_absent_member_is_cached(
    cache: CacheView,
    guild_id: u64,
    user_id: u64,
    error: FetchError,
    next: Step<Option<Arc<CachedMember>>>,
)
    requires
        error.is_not_found() || error.is_forbidden(),
        looked_up(
            cache.after_member(guild_id, user_id, Fetched::Failed(error)).members,
            (guild_id, user_id),
            Request::Member { guild_id, user_id },
            next,
        ),
        next !is Fetch,
    ensures
        member_answer(Fetched::Failed(error)) == Ok::<Option<Arc<CachedMember>>, FetchError>(
            None,
        ),
        cache.after_member(guild_id, user_id, Fetched::Failed(error)).members[(
            guild_id,
            user_id,
        )] is None,
        next == Step::<Option<Arc<CachedMember>>>::Done(Ok(None)),
{
}

/// As `law_absent_user_is_cached`, for a message that does not exist.
pub proof fn law_absent_message_is_cached(
    cache: CacheView,
    channel_id: u64,
    message_id: u64,
    error: FetchError,
    next: Step<MessageResult>,
)
    requires
        error.is_not_found(),
        message_looked_up(
            cache.after_message(message_id, Fetched::Failed(error)).messages,
            channel_id,
            message_id,
            next,
        ),
        next !is Fetch,
    ensures
        message_answer(Fetched::Failed(error)) == Ok::<MessageResult, FetchError>(
            MessageResult::Missing,
        ),
        cache.after_message(message_id, Fetched::Failed(error)).messages[message_id] is None,
        next == Step::Done(Ok(MessageResult::Missing)),
{
}

/// A fetch that fails in any way but those that say that the entity is not
/// there is answered with the failure and leaves the cache as it was, so that
/// the next call fetches again.
pub proof fn law_failure_is_not_cached(
    cache: CacheView,
    guild_id: u64,
    id: u64,
    other_id: u64,
    error: FetchError,
)
    requires
        !error.is_not_found(),
    ensures
        user_answer(Fetched::Failed(error)) == Err::<Option<Arc<CachedUser>>, FetchError>(error),
        cache.after_user(id, Fetched::Failed(error)) == cache,
        webhook_answer(Fetched::Failed(error)) == Err::<Option<Arc<Webhook>>, FetchError>(error),
        cache.after_webhook(id, Fetched::Failed(error)) == cache,
        !error.is_forbidden() ==> member_answer(Fetched::Failed(error)) == Err::<
            Option<Arc<CachedMember>>,
            FetchError,
        >(error),
        !error.is_forbidden() ==> cache.after_member(guild_id, id, Fetched::Failed(error)) == cache,
        !error.is_forbidden() ==> message_answer(Fetched::Failed(error)) == Err::<
            MessageResult,
            FetchError,
        >(error),
        cache.after_message(id, Fetched::Failed(error)) == cache,
        cache.after_resolution(guild_id, Some(ChannelReply::Channel(Fetched::Failed(error))))
            == cache,
        cache.parent_step(guild_id, id, Some(ChannelReply::Channel(Fetched::Failed(error))))
            == Step::<Option<u64>>::Done(Err(error)),
{
}

/// A member that was fetched brings its user into the user cache, under the
/// user's id: which is the id asked for, wherever the API answers with the
/// member that was asked for.
pub proof fn law_member_brings_user(cache: CacheView, guild_id: u64, user_id: u64, member: Member)
    ensures
        ({
            let after = cache.after_member(guild_id, user_id, Fetched::Found(member));
            &&& after.users.contains_key(member.user.id)
            &&& after.users[member.user.id] == Some(Arc::new(cached_user(member.user)))
            &&& after.members.contains_key((guild_id, user_id))
            &&& after.members[(guild_id, user_id)] is Some
        }),
{
}

/// A message that answers an interaction is answered and cached under the
/// user who invoked the interaction, not under the author the API reports;
/// and that user is written to the user cache.
pub proof fn law_interaction_author(cache: CacheView, message_id: u64, message: Message)
    requires
        message.interaction is Some,
    ensures
        ({
            let invoker = message.interaction->0.user;
            let after = cache.after_message(message_id, Fetched::Found(message));
            &&& message.effective_author() == invoker
            &&& message_answer(Fetched::Found(message)) matches Ok(MessageResult::Found(cached))
                && cached.author_id == invoker.id
            &&& after.messages[message_id] matches Some(cached) && cached.author_id == invoker.id
            &&& after.users[invoker.id] == Some(Arc::new(cached_user(invoker)))
        }),
{
}

/// That a message may not be read is answered, and changes nothing in the
/// cache: so where the message cache had no entry for the message, the next
/// lookup asks for a fetch again.
pub proof fn law_forbidden_is_not_cached(
    cache: CacheView,
    channel_id: u64,
    message_id: u64,
    error: FetchError,
    next: Step<MessageResult>,
)
    requires
        error.is_forbidden(),
        !cache.messages.contains_key(message_id),
        message_looked_up(
            cache.after_message(message_id, Fetched::Failed(error)).messages,
            channel_id,
            message_id,
            next,
        ),
    ensures
        message_answer(Fetched::Failed(error)) == Ok::<MessageResult, FetchError>(
            MessageResult::Forbidden,
        ),
        cache.after_message(message_id, Fetched::Failed(error)) == cache,
        next == Step::<MessageResult>::Fetch(Request::Message { channel_id, message_id }),
{
}

/// A thread that the index of a cached guild lists resolves to its indexed
/// parent, with no fetch and no change, unless the guild caches the thread
/// as a channel of its own, which then stands for itself.
pub proof fn law_indexed_thread_resolves(cache: CacheView, guild_id: u64, thread_id: u64)
    requires
        cache.guilds.contains_key(guild_id),
        cache.guilds[guild_id].active_thread_parents.contains_key(thread_id),
        !cache.guilds[guild_id].channels.contains_key(thread_id),
    ensures
        cache.parent_step(guild_id, thread_id, None) == Step::<Option<u64>>::Done(
            Ok(Some(cache.guilds[guild_id].active_thread_parents[thread_id])),
        ),
        cache.after_resolution(guild_id, None) == cache,
{
}

/// Whether a channel of a guild that is not cached is age-restricted cannot
/// be said, and nothing is fetched to find out.
pub proof fn law_unknown_guild_is_not_fetched(cache: CacheView, guild_id: u64, channel_id: u64)
    requires
        !cache.guilds.contains_key(guild_id),
    ensures
        cache.nsfw_lookup(guild_id, channel_id) == NsfwLookup::NoGuild,
        cache.nsfw_step(guild_id, channel_id, None) == Step::<Option<bool>>::Done(Ok(None)),
{
}

/// A channel of another guild, or of none, is not found: the resolution
/// answers that there is no such channel, and nothing of it is cached.
pub proof fn law_other_guild_is_not_found(
    cache: CacheView,
    guild_id: u64,
    channel_id: u64,
    channel: Channel,
)
    requires
        channel.guild_id != Some(guild_id),
        !channel.kind.is_thread(),
    ensures
        ({
            let reply = ChannelReply::Channel(Fetched::Found(channel));
            &&& cache.parent_step(guild_id, channel_id, Some(reply)) == Step::<Option<u64>>::Done(
                Ok(None),
            )
            &&& cache.nsfw_step(guild_id, channel_id, Some(reply)) == Step::<Option<bool>>::Done(
                Ok(None),
            )
            &&& cache.membership_step(guild_id, channel_id, Some(reply)) == Step::<bool>::Done(
                Ok(false),
            )
            &&& cache.after_resolution(guild_id, Some(reply)) == cache
        }),
{
}

/// A merge keeps what was known of a channel wherever the fetched channel
/// does not report it, and takes what the fetched channel reports.
pub proof fn law_merge_keeps_what_was_known(guild: GuildView, channel: Channel)
    requires
        guild.channels.contains_key(channel.id),
    ensures
        ({
            let before = guild.channels[channel.id];
            let after = guild.with_channel(channel).channels[channel.id];
            &&& channel.name is None ==> after.name == before.name
            &&& channel.position is None ==> after.position == before.position
            &&& channel.nsfw is None ==> after.is_nsfw == before.is_nsfw
            &&& channel.name is Some ==> after.name == channel.name
            &&& channel.position is Some ==> after.position == channel.position
            &&& channel.nsfw is Some ==> after.is_nsfw == channel.nsfw
            &&& after.kind == channel.kind
            &&& after.parent_id == channel.parent_id
        }),
        forall|other: u64|
            other != channel.id ==> guild.with_channel(channel).channels.contains_key(other)
                == guild.channels.contains_key(other),
        guild.with_channel(channel).active_thread_parents == guild.active_thread_parents,
        guild.with_channel(channel).emojis == guild.emojis,
{
}

/// A channel that was resolved by fetching is in the guild's channel map
/// afterwards, where the guild is cached.
pub proof fn law_resolved_channel_is_cached(cache: CacheView, guild_id: u64, reply: ChannelReply)
    requires
        cache.guilds.contains_key(guild_id),
        CacheView::resolved_for(guild_id, reply) is Some,
    ensures
        cache.after_resolution(guild_id, Some(reply)).has_channel(
            guild_id,
            CacheView::resolved_for(guild_id, reply)->0.id,
        ),
{
}

/// The ancestry of a thread that lives under a channel that lives under a
/// category is the thread, the channel and the category, in this order.
pub proof fn law_ancestry_order(guild: GuildView, thread_id: u64, channel_id: u64, category_id: u64)
    requires
        guild.finite(),
        thread_id != channel_id,
        thread_id != category_id,
        channel_id != category_id,
        guild.active_thread_parents.contains_key(thread_id),
        guild.active_thread_parents[thread_id] == channel_id,
        !guild.active_thread_parents.contains_key(channel_id),
        guild.channels.contains_key(channel_id),
        guild.channels[channel_id].parent_id == Some(category_id),
        !guild.active_thread_parents.contains_key(category_id),
        guild.channels.contains_key(category_id),
        guild.channels[category_id].parent_id is None,
    ensures
        guild.trail(thread_id, Seq::empty()) == Trail::Complete(
            seq![thread_id, channel_id, category_id],
        ),
{
    let one = Seq::<u64>::empty().push(thread_id);
    let two = one.push(channel_id);
    let three = two.push(category_id);
    assert(!Seq::<u64>::empty().contains(thread_id));
    assert(!one.contains(channel_id));
    assert(!two.contains(category_id));
    assert(guild.trail(category_id, two) == Trail::Complete(three));
    assert(guild.trail(channel_id, one) == guild.trail(category_id, two));
    assert(guild.trail(thread_id, Seq::empty()) == guild.trail(channel_id, one));
    assert(three =~= seq![thread_id, channel_id, category_id]);
}

/// A walk lists no channel twice, wherever it ends.
pub proof fn law_ancestry_lists_once(guild: GuildView, cursor: u64, visited: Seq<u64>)
    requires
        guild.finite(),
        visited.no_duplicates(),
    ensures
        match guild.trail(cursor, visited) {
            Trail::Complete(chain) => chain.no_duplicates() && visited.is_prefix_of(chain),
            Trail::Pending(chain) => chain.no_duplicates() && visited.is_prefix_of(chain)
                && chain.len() > 0,
        },
    decreases guild.unvisited(visited).len(),
{
    if !visited.contains(cursor) {
        if let Link::Parent(parent_id) = guild.link(cursor) {
            guild.lemma_visit(cursor, visited);
            law_ancestry_lists_once(guild, parent_id, visited.push(cursor));
        }
    }
}

/// Once the API has answered that a webhook does not exist, the answer is
/// that there is none, and the webhook that was stored is gone.
pub proof fn law_missing_webhook_is_evicted(cache: CacheView, webhook_id: u64, error: FetchError)
    requires
        error.is_not_found(),
    ensures
        webhook_answer(Fetched::Failed(error)) == Ok::<Option<Arc<Webhook>>, FetchError>(None),
        !cache.after_webhook(webhook_id, Fetched::Failed(error)).webhooks.contains_key(webhook_id),
        cache.after_webhook(webhook_id, Fetched::Failed(error)).webhook(webhook_id) is None,
{
}

/// A cycle that takes place resets every key: no window is left, so each
/// key has all its triggers again, and with a limit of one or more its next
/// trigger is permitted, however many were recorded before.
pub proof fn law_cycle_resets(
    before: Windows,
    key: u128,
    limit: u64,
    next: Windows,
    permitted: bool,
)
    requires
        limit >= 1,
        before.cycled_if(true).triggered(key, limit, next, permitted),
    ensures
        before.cycled_if(true).left(key, limit) == limit,
        permitted,
        next.tokens[key] == limit - 1,
{
}

/// A trigger keeps every window within the limit.
pub proof fn law_windows_stay_within(
    before: Windows,
    key: u128,
    limit: u64,
    after: Windows,
    permitted: bool,
)
    requires
        before.within(limit),
        before.triggered(key, limit, after, permitted),
    ensures
        after.within(limit),
        before.cycled_if(true).within(limit),
{
}

/// Within a limit of one, a key that was just triggered with leave is spent:
/// it has no trigger left.
pub proof fn law_limit_of_one_is_spent(before: Windows, key: u128, after: Windows)
    requires
        before.within(1),
        before.triggered(key, 1, after, true),
    ensures
        after.left(key, 1) == 0,
{
}

/// Marking a post keeps the marks within their limit and without a post
/// marked twice, and leaves the post marked.
pub proof fn law_marks_stay_bounded(cache: CacheView, post_id: u64)
    requires
        cache.marks_well_formed(),
    ensures
        cache.with_auto_deleted(post_id).marks_well_formed(),
        cache.with_auto_deleted(post_id).auto_deleted.contains(post_id),
{
    lemma_order_marked(cache.auto_deleted, post_id, cache.auto_deleted_limit);
}

/// Asking about a post keeps the marks within their limit and without a
/// post marked twice, marks no post and unmarks none.
pub proof fn law_asking_keeps_marks(cache: CacheView, post_id: u64, other: u64)
    requires
        cache.marks_well_formed(),
    ensures
        cache.with_auto_deleted_asked(post_id).marks_well_formed(),
        cache.with_auto_deleted_asked(post_id).auto_deleted.contains(other)
            == cache.auto_deleted.contains(other),
{
    lemma_order_touched(cache.auto_deleted, post_id, cache.auto_deleted_limit);
}

/// In the order that channels are shown in, every category stands before
/// every channel that is none.
pub proof fn law_categories_come_first(channels: Seq<Channel>, category: int, other: int)
    requires
        in_order(channels, true),
        0 <= category < channels.len(),
        0 <= other < channels.len(),
        is_category(channels[category]),
        !is_category(channels[other]),
    ensures
        category < other,
{
    if other < category {
        assert(comes_before(channels[category], channels[other], true));
    }
}

/// A channel is shown under a category of the id that it names as its
/// parent, wherever there is such a category among the channels.
pub proof fn law_channel_is_shown_under_its_category(
    channels: Seq<Channel>,
    category: int,
    channel: int,
)
    requires
        0 <= category < channels.len(),
        0 <= channel < channels.len(),
        is_category(sorted(channels, true)[category]),
        !is_category(sorted(channels, true)[channel]),
        sorted(channels, true)[channel].parent_id == Some(sorted(channels, true)[category].id),
    ensures
        owner(sorted(channels, true), channel) matches Some(found) && is_category(
            sorted(channels, true)[found],
        ) && sorted(channels, true)[found].id == sorted(channels, true)[category].id,
{
    let shown = sorted(channels, true);
    lemma_sorted(channels, true);
    law_categories_come_first(shown, category, channel);
    lemma_owner_is_found(shown, channel, channel as nat, category);
}

/// Guilds that are kept stay the ones kept, whatever is listed later: the
/// guilds of a user are found out once.
pub proof fn law_guilds_are_kept(
    kept: Map<u64, UserGuild>,
    reply: Option<Option<Vec<UserGuild>>>,
)
    ensures
        kept_after(Some(kept), reply) == Some(kept),
{
}

/// Different pairs of ids have different keys.
pub proof fn law_pair_keys_differ(first: u64, second: u64, other_first: u64, other_second: u64)
    requires
        spec_pair_key(first, second) == spec_pair_key(other_first, other_second),
    ensures
        first == other_first,
        second == other_second,
{
}

} // verus!
