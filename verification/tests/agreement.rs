use starboard::cache::Cache;
use starboard::constants::MAX_STORED_AUTO_DELETES;
use starboard::cooldowns::{DynamicCooldown, FixedCooldown};
use starboard::model::CachedGuild;
use std::collections::HashMap;

/// A small generator of numbers that look random, the same in every run.
struct Numbers(u64);

impl Numbers {
    fn next(&mut self, below: u64) -> u64 {
        self.0 = self.0.wrapping_mul(6364136223846793005).wrapping_add(1442695040888963407);
        (self.0 >> 33) % below
    }
}

fn marked(order: &mut Vec<u64>, post: u64) {
    if !order.contains(&post) {
        order.insert(0, post);
        if order.len() > MAX_STORED_AUTO_DELETES {
            order.pop();
        }
    }
}

fn asked(order: &mut Vec<u64>, post: u64) -> bool {
    match order.iter().position(|held| *held == post) {
        Some(at) => {
            order.remove(at);
            order.insert(0, post);
            true
        }
        None => false,
    }
}

#[test]
fn the_marks_go_by_their_order_of_use() {
    let mut numbers = Numbers(7);
    let mut cache = Cache::new();
    let mut order: Vec<u64> = Vec::new();
    for _ in 0..20_000 {
        let post = numbers.next(160);
        if numbers.next(3) == 0 {
            assert_eq!(cache.was_auto_deleted(post), asked(&mut order, post));
        } else {
            cache.mark_auto_deleted(post);
            marked(&mut order, post);
        }
    }
    for post in 0..160 {
        let expected = order.contains(&post);
        asked(&mut order, post);
        assert_eq!(cache.was_auto_deleted(post), expected, "post {}", post);
    }
}

#[test]
fn a_fixed_cooldown_counts_down_per_key() {
    let mut numbers = Numbers(11);
    let mut cooldown = FixedCooldown::new(5, 600_000);
    let mut used: HashMap<u128, u64> = HashMap::new();
    for _ in 0..2_000 {
        let key = numbers.next(40) as u128;
        let count = used.entry(key).or_insert(0);
        let permitted = cooldown.trigger(key).is_none();
        assert_eq!(permitted, *count < 5, "key {}", key);
        if permitted {
            *count += 1;
        }
    }
}

#[test]
fn a_dynamic_cooldown_counts_down_per_key() {
    let mut numbers = Numbers(13);
    let mut cooldown = DynamicCooldown::new(600_000);
    let mut left: HashMap<u128, u64> = HashMap::new();
    for _ in 0..2_000 {
        let key = numbers.next(40) as u128;
        let limit = 1 + key as u64 % 4;
        let tokens = left.entry(key).or_insert(limit);
        let permitted = cooldown.trigger(key, limit, 600_000).is_none();
        assert_eq!(permitted, *tokens > 0, "key {}", key);
        if permitted {
            *tokens -= 1;
        }
    }
}

#[test]
fn the_guild_map_agrees_with_a_map() {
    let mut numbers = Numbers(17);
    let mut cache = Cache::new();
    let mut model: HashMap<u64, HashMap<u64, bool>> = HashMap::new();
    for _ in 0..3_000 {
        let guild_id = numbers.next(12);
        match numbers.next(3) {
            0 => {
                let mut guild = CachedGuild::new();
                let emoji = numbers.next(5);
                guild.emojis.insert(emoji, emoji % 2 == 0);
                model.insert(guild_id, guild.emojis.clone());
                cache.insert_guild(guild_id, guild);
            }
            1 => {
                model.remove(&guild_id);
                cache.remove_guild(guild_id);
            }
            _ => {
                let found = cache.guild(guild_id).map(|guild| guild.emojis);
                assert_eq!(found, model.get(&guild_id).cloned());
            }
        }
    }
}

#[test]
fn the_expiring_caches_agree_with_a_map_while_nothing_expires() {
    let mut numbers = Numbers(19);
    let mut cache = Cache::new();
    let mut responses: HashMap<u64, u64> = HashMap::new();
    let mut premium: HashMap<i64, bool> = HashMap::new();
    for _ in 0..3_000 {
        let key = numbers.next(50);
        match numbers.next(4) {
            0 => {
                let value = numbers.next(1_000);
                responses.insert(key, value);
                cache.store_response(key, value);
            }
            1 => assert_eq!(cache.response(key), responses.get(&key).copied()),
            2 => {
                let flag = numbers.next(2) == 0;
                premium.insert(key as i64, flag);
                cache.set_guild_premium(key as i64, flag);
            }
            _ => assert_eq!(cache.guild_premium(key as i64), premium.get(&(key as i64)).copied()),
        }
    }
}
