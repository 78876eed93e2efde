//! The sizes and periods the cache and the cooldowns are built with.

use vstd::prelude::*;

verus! {

/// How many message entries the message cache holds.
pub const MAX_MESSAGES: u64 = 10_000;

/// Seconds a message entry may lie idle before it expires.
pub const MESSAGES_TTI: u64 = 3_600;

/// How many user entries the user cache holds.
pub const MAX_USERS: u64 = 10_000;

/// Seconds a user entry may lie idle before it expires.
pub const USERS_TTI: u64 = 3_600;

/// How many member entries the member cache holds.
pub const MAX_MEMBERS: u64 = 10_000;

/// Seconds a member entry may lie idle before it expires.
pub const MEMBERS_TTI: u64 = 3_600;

/// How many responses the response cache holds.
pub const MAX_STORED_RESPONSES: u64 = 100;

/// Seconds a response may lie idle before it expires.
pub const STORED_RESPONSES_TTI: u64 = 300;

/// How many posts are remembered as deleted automatically.
pub const MAX_STORED_AUTO_DELETES: usize = 100;

/// Seconds between two cycles of the cooldowns.
pub const CYCLE_PERIOD: u64 = 3_600;

/// How many automatic stars one channel may get per period.
pub const AUTOSTAR_COOLDOWN_LIMIT: u64 = 5;

/// The period of the automatic-star cooldown, in milliseconds.
pub const AUTOSTAR_COOLDOWN_MILLIS: u64 = 20_000;

/// How many edits of old messages one channel may get per period.
pub const OLD_MESSAGE_EDIT_LIMIT: u64 = 1;

/// The period of the old-message cooldown, in milliseconds.
pub const OLD_MESSAGE_EDIT_MILLIS: u64 = 10_000;

/// How many refreshes of experience one user may get per guild and period.
pub const XP_REFRESH_LIMIT: u64 = 1;

/// The period of the experience cooldown, in milliseconds.
pub const XP_REFRESH_MILLIS: u64 = 60_000;

} // verus!
