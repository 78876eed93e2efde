//! What a starboard does with a message, and which guilds are premium.

use crate::cache::{Cache, CacheView};
use vstd::prelude::*;

verus! {

/// What a starboard does with one message.
#[derive(Clone, Copy, Debug, PartialEq, Eq, Structural)]
pub enum MessageStatus {
    /// Leave things as they are.
    NoAction,
    /// Take the message off the starboard.
    Remove,
    /// Put the message on the starboard, or keep it there.
    Send,
    /// Show the message as trashed.
    Trash,
}

/// What a starboard asks of a message.
#[derive(Clone, Copy, Debug, PartialEq, Eq, Structural)]
pub struct Starboard {
    pub id: i32,
    /// The points from which on a message is shown.
    pub required: i32,
    /// The points down to which a message is taken off.
    pub required_remove: i32,
}

/// What is recorded of a message that a starboard looks at.
#[derive(Clone, Debug, PartialEq, Eq)]
pub struct StarredMessage {
    pub is_nsfw: bool,
    pub trashed: bool,
    pub frozen: bool,
    /// The starboards that the message was forced to.
    pub forced_to: Vec<i32>,
}

/// The status of a message on a starboard.
///
/// While it is not known whether the starboard's channel is age-restricted,
/// nothing is done. Else the first of these that applies decides: an
/// age-restricted message is taken off a starboard that is not; a trashed
/// message is shown as trashed; a message forced to this starboard is shown;
/// a frozen message is left alone; a message with the required points is
/// shown; one with no more points than the lower bound is taken off.
pub open spec fn message_status(
    starboard_nsfw: Option<bool>,
    starboard: Starboard,
    message: StarredMessage,
    points: i32,
) -> MessageStatus {
    if starboard_nsfw is None {
        MessageStatus::NoAction
    } else if message.is_nsfw && !starboard_nsfw->0 {
        MessageStatus::Remove
    } else if message.trashed {
        MessageStatus::Trash
    } else if message.forced_to@.contains(starboard.id) {
        MessageStatus::Send
    } else if message.frozen {
        MessageStatus::NoAction
    } else if points >= starboard.required {
        MessageStatus::Send
    } else if points <= starboard.required_remove {
        MessageStatus::Remove
    } else {
        MessageStatus::NoAction
    }
}

/// Whether `ids` lists `id`.
fn lists(ids: &Vec<i32>, id: i32) -> (found: bool)
    ensures
        found == ids@.contains(id),
{
    let mut i: usize = 0;
    while i < ids.len()
        invariant
            i <= ids.len(),
            forall|j: int| 0 <= j < i ==> ids@[j] != id,
        decreases ids.len() - i,
    {
        if ids[i] == id {
            return true;
        }
        i += 1;
    }
    false
}

/// Decides what `starboard` does with `message`, which has `points` points,
/// given whether the starboard's channel is age-restricted as
/// `Cache::fog_channel_nsfw` has resolved it.
pub fn get_message_status(
    starboard_nsfw: Option<bool>,
    starboard: &Starboard,
    message: &StarredMessage,
    points: i32,
) -> (status: MessageStatus)
    ensures
        status == message_status(starboard_nsfw, *starboard, *message, points),
{
    let starboard_nsfw = match starboard_nsfw {
        Some(nsfw) => nsfw,
        None => {
            return MessageStatus::NoAction;
        },
    };
    if message.is_nsfw && !starboard_nsfw {
        MessageStatus::Remove
    } else if message.trashed {
        MessageStatus::Trash
    } else if lists(&message.forced_to, starboard.id) {
        MessageStatus::Send
    } else if message.frozen {
        MessageStatus::NoAction
    } else if points >= starboard.required {
        MessageStatus::Send
    } else if points <= starboard.required_remove {
        MessageStatus::Remove
    } else {
        MessageStatus::NoAction
    }
}

impl CacheView {
    /// Whether guild `guild_id` counts as premium: as its stored flag says
    /// where the stored flag may be used, and else it does.
    pub open spec fn is_premium(self, guild_id: i64, allow_cache: bool) -> bool {
        if allow_cache && self.premium.contains_key(guild_id) {
            self.premium[guild_id]
        } else {
            true
        }
    }

    /// The cache after guild `guild_id` was asked about: an answer that was
    /// not taken from the stored flag is stored.
    pub open spec fn after_premium(self, guild_id: i64, allow_cache: bool) -> CacheView {
        if allow_cache && self.premium.contains_key(guild_id) {
            self
        } else {
            self.with_premium(guild_id, true)
        }
    }
}

/// Whether guild `guild_id` is premium. With `allow_cache` the stored flag is
/// the answer where there is one; else every guild is, and that is stored.
pub fn is_guild_premium(cache: &mut Cache, guild_id: i64, allow_cache: bool) -> (premium: bool)
    ensures
        premium == old(cache)@.is_premium(guild_id, allow_cache),
        final(cache)@ == old(cache)@.after_premium(guild_id, allow_cache),
{
    if allow_cache {
        match cache.guild_premium(guild_id) {
            Some(flag) => {
                return flag;
            },
            None => {},
        }
    }
    let is_premium = true;
    cache.set_guild_premium(guild_id, is_premium);
    is_premium
}

} // verus!
