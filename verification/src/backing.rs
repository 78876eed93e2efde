//! The concurrent maps and expiring caches that hold the cached records, and
//! what this crate takes for granted of them.
//!
//! Each store is given a name for what it holds, and each call into it a
//! function of its own whose contract is stated over that name. None of these
//! contracts is proved: they are read off the sources of `dashmap`, `moka` and
//! `cached`.
//! A store is only ever changed through `&mut`, so the name of a store that is
//! borrowed shared stays what it was.

use crate::marks::{order_marked, order_touched};
use crate::model::{
    CachedGuild, CachedMember, CachedMessage, CachedUser, Channel, GuildView, Webhook,
};
use cached::{Cached, SizedCache};
use dashmap::DashMap;
use moka::sync::Cache as IdleCache;
use std::sync::Arc;
use std::time::Duration;
use vstd::prelude::*;

verus! {

/// `dashmap::DashMap`, a hash map sharded over locks. Nothing inside it is
/// visible to the verifier.
#[verifier::external_type_specification]
#[verifier::external_body]
#[verifier::reject_recursive_types(K)]
#[verifier::reject_recursive_types(V)]
#[verifier::reject_recursive_types(S)]
pub struct ExDashMap<K, V, S>(DashMap<K, V, S>);

/// `moka::sync::Cache`, a bounded cache whose entries expire. Nothing inside
/// it is visible to the verifier.
#[verifier::external_type_specification]
#[verifier::external_body]
#[verifier::reject_recursive_types(K)]
#[verifier::reject_recursive_types(V)]
#[verifier::reject_recursive_types(S)]
pub struct ExIdleCache<K, V, S>(IdleCache<K, V, S>);

/// `cached::SizedCache`, a map that holds up to a given number of keys and
/// then evicts the one least recently used. Nothing inside it is visible to
/// the verifier.
#[verifier::external_type_specification]
#[verifier::external_body]
#[verifier::reject_recursive_types(K)]
#[verifier::reject_recursive_types(V)]
pub struct ExSizedCache<K, V>(SizedCache<K, V>);

/// The longest time to idle that `moka` accepts, in seconds: a thousand years
/// of 365 days.
pub const MAX_IDLE_SECS: u64 = 31_536_000_000;

/// The guilds a guild map holds, each by its view.
pub uninterp spec fn guild_entries(map: DashMap<u64, CachedGuild>) -> Map<u64, GuildView>;

/// The webhooks a webhook map holds.
pub uninterp spec fn webhook_entries(map: DashMap<u64, Arc<Webhook>>) -> Map<u64, Arc<Webhook>>;

/// The premium flags a flag map holds.
pub uninterp spec fn premium_entries(map: DashMap<i64, bool>) -> Map<i64, bool>;

/// For each user id, the entry last written to a user cache. The cache may
/// have dropped any of them since (an entry expires when it lies idle, and is
/// evicted when the cache is full): a lookup finds the entry named here, or
/// nothing.
pub uninterp spec fn user_entries(cache: IdleCache<u64, Option<Arc<CachedUser>>>) -> Map<
    u64,
    Option<Arc<CachedUser>>,
>;

/// For each pair of guild id and user id, the entry last written to a member
/// cache; see `user_entries`.
pub uninterp spec fn member_entries(cache: IdleCache<(u64, u64), Option<Arc<CachedMember>>>) -> Map<
    (u64, u64),
    Option<Arc<CachedMember>>,
>;

/// For each message id, the entry last written to a message cache; see
/// `user_entries`.
pub uninterp spec fn message_entries(cache: IdleCache<u64, Option<Arc<CachedMessage>>>) -> Map<
    u64,
    Option<Arc<CachedMessage>>,
>;

/// For each message id, the entry last written to a response cache; see
/// `user_entries`.
pub uninterp spec fn response_entries(cache: IdleCache<u64, u64>) -> Map<u64, u64>;

/// The keys a marker cache holds, the most recently used first.
pub uninterp spec fn marker_order(cache: SizedCache<u64, ()>) -> Seq<u64>;

/// The number of keys a marker cache was made to hold.
pub uninterp spec fn marker_capacity(cache: SizedCache<u64, ()>) -> usize;

/// `DashMap::new`: a map that holds nothing.
#[verifier::external_body]
pub(crate) fn guild_map_new() -> (map: DashMap<u64, CachedGuild>)
    ensures
        guild_entries(map) =~= Map::empty(),
{
    DashMap::new()
}

/// `DashMap::get`, and a clone of what it refers to: a copy of the guild
/// stored under `guild_id`, if there is one.
#[verifier::external_body]
pub(crate) fn guild_map_get(map: &DashMap<u64, CachedGuild>, guild_id: u64) -> (found: Option<
    CachedGuild,
>)
    ensures
        found is Some <==> guild_entries(*map).contains_key(guild_id),
        found matches Some(guild) ==> guild@ == guild_entries(*map)[guild_id],
{
    map.get(&guild_id).map(|entry| entry.value().clone())
}

/// `DashMap::insert`: `guild` is stored under `guild_id`, in place of what was
/// there.
#[verifier::external_body]
pub(crate) fn guild_map_insert(
    map: &mut DashMap<u64, CachedGuild>,
    guild_id: u64,
    guild: CachedGuild,
)
    ensures
        guild_entries(*final(map)) == guild_entries(*old(map)).insert(guild_id, guild@),
{
    map.insert(guild_id, guild);
}

/// `DashMap::remove`: nothing is stored under `guild_id` any more.
#[verifier::external_body]
pub(crate) fn guild_map_remove(map: &mut DashMap<u64, CachedGuild>, guild_id: u64)
    ensures
        guild_entries(*final(map)) == guild_entries(*old(map)).remove(guild_id),
{
    map.remove(&guild_id);
}

/// `DashMap::alter`, with `CachedGuild::with_channel` as the function applied:
/// the guild stored under `guild_id` is replaced by itself with `channel`
/// merged in; a map that stores none under `guild_id` is left as it is.
#[verifier::external_body]
pub(crate) fn guild_map_merge_channel(
    map: &mut DashMap<u64, CachedGuild>,
    guild_id: u64,
    channel: &Channel,
)
    ensures
        guild_entries(*final(map)) == (if guild_entries(*old(map)).contains_key(guild_id) {
            guild_entries(*old(map)).insert(
                guild_id,
                guild_entries(*old(map))[guild_id].with_channel(*channel),
            )
        } else {
            guild_entries(*old(map))
        }),
{
    map.alter(&guild_id, |_, guild| guild.with_channel(channel));
}

/// `DashMap::new`: a map that holds nothing.
#[verifier::external_body]
pub(crate) fn webhook_map_new() -> (map: DashMap<u64, Arc<Webhook>>)
    ensures
        webhook_entries(map) =~= Map::empty(),
{
    DashMap::new()
}

/// `DashMap::get`, and a clone of the `Arc` it refers to: the webhook stored
/// under `webhook_id`, if there is one.
#[verifier::external_body]
pub(crate) fn webhook_map_get(map: &DashMap<u64, Arc<Webhook>>, webhook_id: u64) -> (found: Option<
    Arc<Webhook>,
>)
    ensures
        found is Some <==> webhook_entries(*map).contains_key(webhook_id),
        found matches Some(webhook) ==> webhook == webhook_entries(*map)[webhook_id],
{
    map.get(&webhook_id).map(|entry| entry.value().clone())
}

/// `DashMap::insert`, with a clone of the `Arc`: `webhook` is stored under
/// `webhook_id`, in place of what was there.
#[verifier::external_body]
pub(crate) fn webhook_map_insert(
    map: &mut DashMap<u64, Arc<Webhook>>,
    webhook_id: u64,
    webhook: &Arc<Webhook>,
)
    ensures
        webhook_entries(*final(map)) == webhook_entries(*old(map)).insert(webhook_id, *webhook),
{
    map.insert(webhook_id, webhook.clone());
}

/// `DashMap::remove`: nothing is stored under `webhook_id` any more.
#[verifier::external_body]
pub(crate) fn webhook_map_remove(map: &mut DashMap<u64, Arc<Webhook>>, webhook_id: u64)
    ensures
        webhook_entries(*final(map)) == webhook_entries(*old(map)).remove(webhook_id),
{
    map.remove(&webhook_id);
}

/// `DashMap::new`: a map that holds nothing.
#[verifier::external_body]
pub(crate) fn premium_map_new() -> (map: DashMap<i64, bool>)
    ensures
        premium_entries(map) =~= Map::empty(),
{
    DashMap::new()
}

/// `DashMap::get`, and a copy of what it refers to: the flag stored under
/// `guild_id`, if there is one.
#[verifier::external_body]
pub(crate) fn premium_map_get(map: &DashMap<i64, bool>, guild_id: i64) -> (found: Option<bool>)
    ensures
        found is Some <==> premium_entries(*map).contains_key(guild_id),
        found matches Some(flag) ==> flag == premium_entries(*map)[guild_id],
{
    map.get(&guild_id).map(|entry| *entry.value())
}

/// `DashMap::insert`: `flag` is stored under `guild_id`, in place of what was
/// there.
#[verifier::external_body]
pub(crate) fn premium_map_insert(map: &mut DashMap<i64, bool>, guild_id: i64, flag: bool)
    ensures
        premium_entries(*final(map)) == premium_entries(*old(map)).insert(guild_id, flag),
{
    map.insert(guild_id, flag);
}

/// `moka::sync::Cache::builder`, `max_capacity`, `time_to_idle` and `build`: a
/// cache to which nothing was written yet. `build` panics on a time to idle
/// of more than a thousand years.
#[verifier::external_body]
pub(crate) fn user_cache_new(capacity: u64, idle_secs: u64) -> (cache: IdleCache<
    u64,
    Option<Arc<CachedUser>>,
>)
    requires
        idle_secs <= MAX_IDLE_SECS,
    ensures
        user_entries(cache) =~= Map::empty(),
{
    IdleCache::builder().max_capacity(capacity).time_to_idle(Duration::from_secs(idle_secs)).build()
}

/// `moka::sync::Cache::get`: the entry last written under `user_id`, or
/// nothing. When it is nothing the source does not let one tell: the entry may
/// have expired or been evicted.
#[verifier::external_body]
pub(crate) fn user_cache_get(
    cache: &IdleCache<u64, Option<Arc<CachedUser>>>,
    user_id: u64,
) -> (found: Option<Option<Arc<CachedUser>>>)
    ensures
        found matches Some(entry) ==> user_entries(*cache).contains_key(user_id) && entry
            == user_entries(*cache)[user_id],
{
    cache.get(&user_id)
}

/// `moka::sync::Cache::insert`, with a clone of the entry: `entry` is the last
/// one written under `user_id`.
#[verifier::external_body]
pub(crate) fn user_cache_insert(
    cache: &mut IdleCache<u64, Option<Arc<CachedUser>>>,
    user_id: u64,
    entry: &Option<Arc<CachedUser>>,
)
    ensures
        user_entries(*final(cache)) == user_entries(*old(cache)).insert(user_id, *entry),
{
    cache.insert(user_id, entry.clone());
}

/// `moka::sync::Cache::builder`, `max_capacity`, `time_to_idle` and `build`;
/// see `user_cache_new`.
#[verifier::external_body]
pub(crate) fn member_cache_new(capacity: u64, idle_secs: u64) -> (cache: IdleCache<
    (u64, u64),
    Option<Arc<CachedMember>>,
>)
    requires
        idle_secs <= MAX_IDLE_SECS,
    ensures
        member_entries(cache) =~= Map::empty(),
{
    IdleCache::builder().max_capacity(capacity).time_to_idle(Duration::from_secs(idle_secs)).build()
}

/// `moka::sync::Cache::get`: the entry last written under `key`, or nothing;
/// see `user_cache_get`.
#[verifier::external_body]
pub(crate) fn member_cache_get(
    cache: &IdleCache<(u64, u64), Option<Arc<CachedMember>>>,
    key: (u64, u64),
) -> (found: Option<Option<Arc<CachedMember>>>)
    ensures
        found matches Some(entry) ==> member_entries(*cache).contains_key(key) && entry
            == member_entries(*cache)[key],
{
    cache.get(&key)
}

/// `moka::sync::Cache::insert`, with a clone of the entry: `entry` is the last
/// one written under `key`.
#[verifier::external_body]
pub(crate) fn member_cache_insert(
    cache: &mut IdleCache<(u64, u64), Option<Arc<CachedMember>>>,
    key: (u64, u64),
    entry: &Option<Arc<CachedMember>>,
)
    ensures
        member_entries(*final(cache)) == member_entries(*old(cache)).insert(key, *entry),
{
    cache.insert(key, entry.clone());
}

/// `moka::sync::Cache::builder`, `max_capacity`, `time_to_idle` and `build`;
/// see `user_cache_new`.
#[verifier::external_body]
pub(crate) fn message_cache_new(capacity: u64, idle_secs: u64) -> (cache: IdleCache<
    u64,
    Option<Arc<CachedMessage>>,
>)
    requires
        idle_secs <= MAX_IDLE_SECS,
    ensures
        message_entries(cache) =~= Map::empty(),
{
    IdleCache::builder().max_capacity(capacity).time_to_idle(Duration::from_secs(idle_secs)).build()
}

/// `moka::sync::Cache::get`: the entry last written under `message_id`, or
/// nothing; see `user_cache_get`.
#[verifier::external_body]
pub(crate) fn message_cache_get(
    cache: &IdleCache<u64, Option<Arc<CachedMessage>>>,
    message_id: u64,
) -> (found: Option<Option<Arc<CachedMessage>>>)
    ensures
        found matches Some(entry) ==> message_entries(*cache).contains_key(message_id) && entry
            == message_entries(*cache)[message_id],
{
    cache.get(&message_id)
}

/// `moka::sync::Cache::insert`, with a clone of the entry: `entry` is the last
/// one written under `message_id`.
#[verifier::external_body]
pub(crate) fn message_cache_insert(
    cache: &mut IdleCache<u64, Option<Arc<CachedMessage>>>,
    message_id: u64,
    entry: &Option<Arc<CachedMessage>>,
)
    ensures
        message_entries(*final(cache)) == message_entries(*old(cache)).insert(message_id, *entry),
{
    cache.insert(message_id, entry.clone());
}

/// `moka::sync::Cache::builder`, `max_capacity`, `time_to_idle` and `build`;
/// see `user_cache_new`.
#[verifier::external_body]
pub(crate) fn response_cache_new(capacity: u64, idle_secs: u64) -> (cache: IdleCache<u64, u64>)
    requires
        idle_secs <= MAX_IDLE_SECS,
    ensures
        response_entries(cache) =~= Map::empty(),
{
    IdleCache::builder().max_capacity(capacity).time_to_idle(Duration::from_secs(idle_secs)).build()
}

/// `moka::sync::Cache::get`: the entry last written under `message_id`, or
/// nothing; see `user_cache_get`.
#[verifier::external_body]
pub(crate) fn response_cache_get(cache: &IdleCache<u64, u64>, message_id: u64) -> (found: Option<
    u64,
>)
    ensures
        found matches Some(entry) ==> response_entries(*cache).contains_key(message_id) && entry
            == response_entries(*cache)[message_id],
{
    cache.get(&message_id)
}

/// `moka::sync::Cache::insert`: `response_id` is the last entry written under
/// `message_id`.
#[verifier::external_body]
pub(crate) fn response_cache_insert(
    cache: &mut IdleCache<u64, u64>,
    message_id: u64,
    response_id: u64,
)
    ensures
        response_entries(*final(cache)) == response_entries(*old(cache)).insert(
            message_id,
            response_id,
        ),
{
    cache.insert(message_id, response_id);
}

/// `SizedCache::with_size`: a cache for `size` keys that holds none. The
/// source panics on a size of zero.
#[verifier::external_body]
pub(crate) fn marker_cache_new(size: usize) -> (cache: SizedCache<u64, ()>)
    requires
        size > 0,
    ensures
        marker_capacity(cache) == size,
        marker_order(cache) =~= Seq::empty(),
{
    SizedCache::with_size(size)
}

/// `Cached::cache_get` of `SizedCache`: whether `key` is held. The source
/// moves a key that it finds to the front of its list.
#[verifier::external_body]
pub(crate) fn marker_cache_get(cache: &mut SizedCache<u64, ()>, key: u64) -> (held: bool)
    ensures
        held == marker_order(*old(cache)).contains(key),
        marker_order(*final(cache)) == order_touched(marker_order(*old(cache)), key),
        marker_capacity(*final(cache)) == marker_capacity(*old(cache)),
{
    cache.cache_get(&key).is_some()
}

/// `Cached::cache_set` of `SizedCache`: `key` is held. The source leaves a
/// key that it holds in its place, pushes a new one to the front of its list,
/// and then removes the key at the back if it holds more than its capacity.
#[verifier::external_body]
pub(crate) fn marker_cache_set(cache: &mut SizedCache<u64, ()>, key: u64)
    ensures
        marker_order(*final(cache)) == order_marked(
            marker_order(*old(cache)),
            key,
            marker_capacity(*old(cache)),
        ),
        marker_capacity(*final(cache)) == marker_capacity(*old(cache)),
{
    cache.cache_set(key, ());
}

} // verus!
