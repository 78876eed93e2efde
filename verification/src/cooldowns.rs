//! Cooldowns: how often something may happen per key, counted in windows.
//!
//! A fixed cooldown gives every key the same number of triggers per period; a
//! dynamic one takes both with each trigger. The mappings behind them are
//! `floodgate`'s, which read the clock: so a contract here says what holds
//! whenever the call is made. What does not depend on the clock is that a
//! cycle forgets every window, and that a cooldown with a period of zero is
//! cycled whenever it is asked to.
//!
//! A key is a `u128`, wide enough for two ids: see `pair_key`.

use crate::constants::{
    AUTOSTAR_COOLDOWN_LIMIT, AUTOSTAR_COOLDOWN_MILLIS, CYCLE_PERIOD, OLD_MESSAGE_EDIT_LIMIT,
    OLD_MESSAGE_EDIT_MILLIS, XP_REFRESH_LIMIT, XP_REFRESH_MILLIS,
};
use floodgate::{DynamicMapping, FixedMapping};
use std::time::Duration;
use vstd::prelude::*;

verus! {

/// `floodgate::FixedMapping`, a map from keys to windows of one capacity and
/// period. Nothing inside it is visible to the verifier.
#[verifier::external_type_specification]
#[verifier::external_body]
#[verifier::reject_recursive_types(K)]
pub struct ExFixedMapping<K: Eq + std::hash::Hash + Clone + Send + Sync + 'static>(FixedMapping<K>);

/// `floodgate::DynamicMapping`, a map from keys to windows that each have a
/// capacity and period of their own. Nothing inside it is visible to the
/// verifier.
#[verifier::external_type_specification]
#[verifier::external_body]
#[verifier::reject_recursive_types(K)]
pub struct ExDynamicMapping<K: Eq + std::hash::Hash + Clone + Send + Sync + 'static>(
    DynamicMapping<K>,
);

/// For each key that a fixed mapping holds a window of, the triggers that
/// window had left when it was last touched.
pub uninterp spec fn fixed_tokens(mapping: FixedMapping<u128>) -> Map<u128, u64>;

/// The capacity that a fixed mapping was made with.
pub uninterp spec fn fixed_capacity(mapping: FixedMapping<u128>) -> u64;

/// The period that a fixed mapping was made with, in milliseconds.
pub uninterp spec fn fixed_period(mapping: FixedMapping<u128>) -> u64;

/// For each key that a dynamic mapping holds a window of, the triggers that
/// window had left when it was last touched.
pub uninterp spec fn dynamic_tokens(mapping: DynamicMapping<u128>) -> Map<u128, u64>;

/// The cycle period that a dynamic mapping was made with, in milliseconds.
pub uninterp spec fn dynamic_period(mapping: DynamicMapping<u128>) -> u64;

/// The windows of a cooldown.
pub struct Windows {
    /// For each key that has a window, the triggers it had left when it was
    /// last touched.
    pub tokens: Map<u128, u64>,
}

impl Windows {
    /// No windows.
    pub open spec fn none() -> Windows {
        Windows { tokens: Map::empty() }
    }

    /// The triggers that `key` had left when its window was last touched. A
    /// key without a window has all the `capacity` that its window would be
    /// made with.
    pub open spec fn left(self, key: u128, capacity: u64) -> u64 {
        if self.tokens.contains_key(key) {
            self.tokens[key]
        } else {
            capacity
        }
    }

    /// What a trigger of `key` may make of these windows, and when it is
    /// permitted.
    ///
    /// A window is made for `key` where it has none. It is refilled to
    /// `capacity` first if its period is over, which the clock decides. Then
    /// a trigger is permitted, and used up, if one is left. No other window
    /// changes.
    pub open spec fn triggered(
        self,
        key: u128,
        capacity: u64,
        after: Windows,
        permitted: bool,
    ) -> bool {
        &&& after.tokens.dom() == self.tokens.dom().insert(key)
        &&& forall|other: u128|
            other != key && self.tokens.contains_key(other) ==> #[trigger] after.tokens[other]
                == self.tokens[other]
        &&& permitted ==> (self.left(key, capacity) > 0 && after.tokens[key] + 1 == self.left(
            key,
            capacity,
        )) || (capacity > 0 && after.tokens[key] + 1 == capacity)
        &&& !permitted ==> after.tokens[key] == 0 && (self.left(key, capacity) == 0 || capacity
            == 0)
        &&& self.left(key, capacity) > 0 && capacity > 0 ==> permitted
    }

    /// No window has more triggers left than `limit`: as in every fixed
    /// cooldown, whose windows are made with `limit` triggers and refilled
    /// to as many.
    pub open spec fn within(self, limit: u64) -> bool {
        forall|key: u128| self.tokens.contains_key(key) ==> #[trigger] self.tokens[key] <= limit
    }

    /// The windows after a call that may have cycled them: a cycle that
    /// takes place leaves no window.
    pub open spec fn cycled_if(self, cycled: bool) -> Windows {
        if cycled {
            Windows::none()
        } else {
            self
        }
    }
}

/// `FixedMapping::new`, with the period turned from milliseconds into a
/// `Duration`: a mapping of the given capacity and period that holds no
/// window.
#[verifier::external_body]
fn fixed_mapping_new(capacity: u64, period_millis: u64) -> (mapping: FixedMapping<u128>)
    ensures
        fixed_capacity(mapping) == capacity,
        fixed_period(mapping) == period_millis,
        fixed_tokens(mapping) =~= Map::empty(),
{
    FixedMapping::new(capacity, Duration::from_millis(period_millis))
}

/// `FixedMapping::trigger`: `None` where the trigger is permitted, else the
/// time to wait. The source makes a window with all its triggers for a key
/// that has none; refills the window if more than its period has passed since
/// it was last refilled; and takes one trigger off if one is left.
#[verifier::external_body]
fn fixed_mapping_trigger(mapping: &mut FixedMapping<u128>, key: u128) -> (retry_after: Option<
    Duration,
>)
    ensures
        fixed_capacity(*final(mapping)) == fixed_capacity(*old(mapping)),
        fixed_period(*final(mapping)) == fixed_period(*old(mapping)),
        (Windows { tokens: fixed_tokens(*old(mapping)) }).triggered(
            key,
            fixed_capacity(*old(mapping)),
            Windows { tokens: fixed_tokens(*final(mapping)) },
            retry_after is None,
        ),
{
    mapping.trigger(&key)
}

/// `FixedMapping::cycle`: whether the cycle took place. The source refuses a
/// cycle while less than 0.95 of the period has passed since the last one, or
/// since the mapping was made: so the clock decides, except where the period
/// is zero, of which no time is less, and every cycle takes place. A cycle
/// that takes place swaps the two halves of the mapping and empties the one
/// that was current. The source only ever makes a window in the current half,
/// so the other half is empty whenever a cycle starts, and a cycle leaves no
/// window.
#[verifier::external_body]
fn fixed_mapping_cycle(mapping: &mut FixedMapping<u128>) -> (cycled: bool)
    ensures
        fixed_capacity(*final(mapping)) == fixed_capacity(*old(mapping)),
        fixed_period(*final(mapping)) == fixed_period(*old(mapping)),
        fixed_period(*old(mapping)) == 0 ==> cycled,
        (Windows { tokens: fixed_tokens(*final(mapping)) }) == (Windows {
            tokens: fixed_tokens(*old(mapping)),
        }).cycled_if(cycled),
{
    mapping.cycle()
}

/// `DynamicMapping::new`, with the period turned from milliseconds into a
/// `Duration`: a mapping of the given cycle period that holds no window.
#[verifier::external_body]
fn dynamic_mapping_new(cycle_millis: u64) -> (mapping: DynamicMapping<u128>)
    ensures
        dynamic_period(mapping) == cycle_millis,
        dynamic_tokens(mapping) =~= Map::empty(),
{
    DynamicMapping::new(Duration::from_millis(cycle_millis))
}

/// `DynamicMapping::trigger`, with the period turned from milliseconds into
/// a `Duration`: as `FixedMapping::trigger`, but the window of `key` is
/// given `capacity` and the period first. The period lies within the cycle
/// period of the mapping: the source asserts that in a debug build, and with
/// that it has nothing left to panic on.
#[verifier::external_body]
fn dynamic_mapping_trigger(
    mapping: &mut DynamicMapping<u128>,
    key: u128,
    capacity: u64,
    period_millis: u64,
) -> (retry_after: Option<Duration>)
    requires
        period_millis <= dynamic_period(*old(mapping)),
    ensures
        dynamic_period(*final(mapping)) == dynamic_period(*old(mapping)),
        (Windows { tokens: dynamic_tokens(*old(mapping)) }).triggered(
            key,
            capacity,
            Windows { tokens: dynamic_tokens(*final(mapping)) },
            retry_after is None,
        ),
    no_unwind
{
    mapping.trigger(&key, capacity, Duration::from_millis(period_millis))
}

/// `DynamicMapping::cycle`: as `FixedMapping::cycle`, with the cycle period
/// in the place of the period. The source has nothing to panic on.
#[verifier::external_body]
fn dynamic_mapping_cycle(mapping: &mut DynamicMapping<u128>) -> (cycled: bool)
    ensures
        dynamic_period(*final(mapping)) == dynamic_period(*old(mapping)),
        dynamic_period(*old(mapping)) == 0 ==> cycled,
        (Windows { tokens: dynamic_tokens(*final(mapping)) }) == (Windows {
            tokens: dynamic_tokens(*old(mapping)),
        }).cycled_if(cycled),
    no_unwind
{
    mapping.cycle()
}

/// The key for a pair of ids: `first` in the upper 64 bits, `second` in the
/// lower.
pub open spec fn spec_pair_key(first: u64, second: u64) -> u128 {
    (first * 0x1_0000_0000_0000_0000 + second) as u128
}

/// The key for a pair of ids. Different pairs have different keys.
#[verifier::when_used_as_spec(spec_pair_key)]
pub fn pair_key(first: u64, second: u64) -> (key: u128)
    ensures
        key == spec_pair_key(first, second),
        key == first * 0x1_0000_0000_0000_0000 + second,
{
    let high: u128 = first as u128;
    let low: u128 = second as u128;
    high * 0x1_0000_0000_0000_0000u128 + low
}

/// The key for an id and a signed number: as `pair_key`, with the number
/// counted up from the least `i32`.
pub open spec fn spec_numbered_key(id: u64, number: i32) -> u128 {
    spec_pair_key(id, (number + 0x8000_0000) as u64)
}

/// The key for an id and a signed number. Different pairs have different
/// keys.
#[verifier::when_used_as_spec(spec_numbered_key)]
pub fn numbered_key(id: u64, number: i32) -> (key: u128)
    ensures
        key == spec_numbered_key(id, number),
{
    let shifted: i64 = number as i64 + 0x8000_0000i64;
    pair_key(id, shifted as u64)
}

/// A cooldown that gives every key the same number of triggers per period.
pub struct FixedCooldown {
    mapping: FixedMapping<u128>,
}

impl View for FixedCooldown {
    type V = Windows;

    closed spec fn view(&self) -> Windows {
        Windows { tokens: fixed_tokens(self.mapping) }
    }
}

impl FixedCooldown {
    /// How many triggers each key has per period.
    pub closed spec fn limit(&self) -> u64 {
        fixed_capacity(self.mapping)
    }

    /// The period, in milliseconds.
    pub closed spec fn period_millis(&self) -> u64 {
        fixed_period(self.mapping)
    }

    /// A cooldown of `limit` triggers per `period_millis` milliseconds and
    /// key.
    pub fn new(limit: u64, period_millis: u64) -> (cooldown: FixedCooldown)
        ensures
            cooldown.limit() == limit,
            cooldown.period_millis() == period_millis,
            cooldown@ == Windows::none(),
            cooldown@.within(limit),
    {
        FixedCooldown { mapping: fixed_mapping_new(limit, period_millis) }
    }

    /// Records one occurrence for `key`: `None` where it is permitted, and
    /// else the time until the window of `key` is refilled.
    pub fn trigger(&mut self, key: u128) -> (retry_after: Option<Duration>)
        ensures
            final(self).limit() == old(self).limit(),
            final(self).period_millis() == old(self).period_millis(),
            old(self)@.triggered(key, old(self).limit(), final(self)@, retry_after is None),
            old(self)@.within(old(self).limit()) ==> final(self)@.within(old(self).limit()),
    {
        fixed_mapping_trigger(&mut self.mapping, key)
    }

    /// Cycles the cooldown, and says whether it did. A cycle takes place
    /// where the last one, or the making of the cooldown, is 0.95 of the
    /// period ago or more: so a cooldown with a period of zero is cycled by
    /// every call, and of any other the clock decides. A cycle that takes
    /// place leaves no window.
    pub fn cycle(&mut self) -> (cycled: bool)
        ensures
            final(self).limit() == old(self).limit(),
            final(self).period_millis() == old(self).period_millis(),
            old(self).period_millis() == 0 ==> cycled,
            final(self)@ == old(self)@.cycled_if(cycled),
            old(self)@.within(old(self).limit()) ==> final(self)@.within(old(self).limit()),
    {
        fixed_mapping_cycle(&mut self.mapping)
    }
}

/// A cooldown that takes the number of triggers and the period with each
/// trigger.
pub struct DynamicCooldown {
    cycle_millis: u64,
    mapping: DynamicMapping<u128>,
}

impl View for DynamicCooldown {
    type V = Windows;

    closed spec fn view(&self) -> Windows {
        Windows { tokens: dynamic_tokens(self.mapping) }
    }
}

impl DynamicCooldown {
    /// The cycle period that is kept beside the mapping is the one that the
    /// mapping was made with.
    #[verifier::type_invariant]
    spec fn kept_period(self) -> bool {
        self.cycle_millis == dynamic_period(self.mapping)
    }

    /// The cycle period, which is also the longest period that a trigger may
    /// come with, in milliseconds.
    pub closed spec fn spec_cycle_millis(&self) -> u64 {
        self.cycle_millis
    }

    #[verifier::when_used_as_spec(spec_cycle_millis)]
    pub fn cycle_millis(&self) -> (millis: u64)
        ensures
            millis == self.spec_cycle_millis(),
    {
        self.cycle_millis
    }

    /// A cooldown that is to be cycled every `cycle_millis` milliseconds.
    pub fn new(cycle_millis: u64) -> (cooldown: DynamicCooldown)
        ensures
            cooldown.cycle_millis() == cycle_millis,
            cooldown@ == Windows::none(),
    {
        DynamicCooldown { cycle_millis, mapping: dynamic_mapping_new(cycle_millis) }
    }

    /// Records one occurrence for `key`, whose window has `limit` triggers
    /// per `period_millis` milliseconds: `None` where it is permitted, and
    /// else the time until the window is refilled.
    pub fn trigger(&mut self, key: u128, limit: u64, period_millis: u64) -> (retry_after: Option<
        Duration,
    >)
        requires
            period_millis <= old(self).cycle_millis(),
        ensures
            final(self).cycle_millis() == old(self).cycle_millis(),
            old(self)@.triggered(key, limit, final(self)@, retry_after is None),
    {
        proof {
            use_type_invariant(&*self);
        }
        dynamic_mapping_trigger(&mut self.mapping, key, limit, period_millis)
    }

    /// Cycles the cooldown, and says whether it did. A cycle takes place
    /// where the last one, or the making of the cooldown, is 0.95 of the
    /// cycle period ago or more: so a cooldown with a cycle period of zero is
    /// cycled by every call, and of any other the clock decides. A cycle that
    /// takes place leaves no window.
    pub fn cycle(&mut self) -> (cycled: bool)
        ensures
            final(self).cycle_millis() == old(self).cycle_millis(),
            old(self).cycle_millis() == 0 ==> cycled,
            final(self)@ == old(self)@.cycled_if(cycled),
    {
        proof {
            use_type_invariant(&*self);
        }
        dynamic_mapping_cycle(&mut self.mapping)
    }
}

/// Which of the cooldowns a tick has cycled.
#[derive(Clone, Copy, Debug, PartialEq, Eq, Structural)]
pub struct Cycled {
    pub autostar_send: bool,
    pub starboard_custom_cooldown: bool,
    pub old_message_edit: bool,
    pub xp_refresh: bool,
}

/// The cooldowns of the service.
pub struct Cooldowns {
    /// Seconds to let pass between two calls of `cycle`.
    pub cycle_period: u64,
    /// Automatic stars, per channel.
    pub autostar_send: FixedCooldown,
    /// The cooldowns that starboards set themselves, per user and starboard:
    /// see `numbered_key`.
    pub starboard_custom_cooldown: DynamicCooldown,
    /// Edits of old messages, per channel.
    pub old_message_edit: FixedCooldown,
    /// Refreshes of experience, per user and guild: see `pair_key`.
    pub xp_refresh: FixedCooldown,
}

impl Cooldowns {
    /// Whether these are the cooldowns as `new` makes them.
    pub open spec fn fresh(&self) -> bool {
        &&& self.cycle_period == CYCLE_PERIOD
        &&& self.autostar_send.limit() == AUTOSTAR_COOLDOWN_LIMIT
        &&& self.autostar_send.period_millis() == AUTOSTAR_COOLDOWN_MILLIS
        &&& self.autostar_send@ == Windows::none()
        &&& self.starboard_custom_cooldown.cycle_millis() == CYCLE_PERIOD * 1000
        &&& self.starboard_custom_cooldown@ == Windows::none()
        &&& self.old_message_edit.limit() == OLD_MESSAGE_EDIT_LIMIT
        &&& self.old_message_edit.period_millis() == OLD_MESSAGE_EDIT_MILLIS
        &&& self.old_message_edit@ == Windows::none()
        &&& self.xp_refresh.limit() == XP_REFRESH_LIMIT
        &&& self.xp_refresh.period_millis() == XP_REFRESH_MILLIS
        &&& self.xp_refresh@ == Windows::none()
    }

    /// The cooldowns, none of which has a window yet.
    pub fn new() -> (cooldowns: Cooldowns)
        ensures
            cooldowns.fresh(),
    {
        Cooldowns {
            cycle_period: CYCLE_PERIOD,
            autostar_send: FixedCooldown::new(AUTOSTAR_COOLDOWN_LIMIT, AUTOSTAR_COOLDOWN_MILLIS),
            starboard_custom_cooldown: DynamicCooldown::new(CYCLE_PERIOD * 1000),
            old_message_edit: FixedCooldown::new(OLD_MESSAGE_EDIT_LIMIT, OLD_MESSAGE_EDIT_MILLIS),
            xp_refresh: FixedCooldown::new(XP_REFRESH_LIMIT, XP_REFRESH_MILLIS),
        }
    }

    /// One tick: cycles every cooldown in turn, and says which of them it
    /// cycled. Each cooldown is cycled as its own `cycle` says: one with a
    /// period of zero by every tick, and any other if the clock has it due.
    pub fn cycle(&mut self) -> (cycled: Cycled)
        ensures
            final(self).cycle_period == old(self).cycle_period,
            final(self).autostar_send.limit() == old(self).autostar_send.limit(),
            final(self).old_message_edit.limit() == old(self).old_message_edit.limit(),
            final(self).xp_refresh.limit() == old(self).xp_refresh.limit(),
            final(self).autostar_send.period_millis() == old(self).autostar_send.period_millis(),
            final(self).old_message_edit.period_millis() == old(
                self,
            ).old_message_edit.period_millis(),
            final(self).xp_refresh.period_millis() == old(self).xp_refresh.period_millis(),
            final(self).starboard_custom_cooldown.cycle_millis() == old(
                self,
            ).starboard_custom_cooldown.cycle_millis(),
            old(self).autostar_send.period_millis() == 0 ==> cycled.autostar_send,
            old(self).starboard_custom_cooldown.cycle_millis() == 0
                ==> cycled.starboard_custom_cooldown,
            old(self).old_message_edit.period_millis() == 0 ==> cycled.old_message_edit,
            old(self).xp_refresh.period_millis() == 0 ==> cycled.xp_refresh,
            final(self).autostar_send@ == old(self).autostar_send@.cycled_if(cycled.autostar_send),
            final(self).starboard_custom_cooldown@ == old(
                self,
            ).starboard_custom_cooldown@.cycled_if(cycled.starboard_custom_cooldown),
            final(self).old_message_edit@ == old(self).old_message_edit@.cycled_if(
                cycled.old_message_edit,
            ),
            final(self).xp_refresh@ == old(self).xp_refresh@.cycled_if(cycled.xp_refresh),
    {
        let autostar_send = self.autostar_send.cycle();
        let starboard_custom_cooldown = self.starboard_custom_cooldown.cycle();
        let old_message_edit = self.old_message_edit.cycle();
        let xp_refresh = self.xp_refresh.cycle();
        Cycled { autostar_send, starboard_custom_cooldown, old_message_edit, xp_refresh }
    }
}

/// What the task that cycles the cooldowns does next: it sleeps.
#[derive(Clone, Copy, Debug, PartialEq, Eq, Structural)]
pub struct Sleep {
    /// For how many seconds to sleep.
    pub secs: u64,
    /// Which cooldowns were cycled before.
    pub cycled: Cycled,
}

impl Cooldowns {
    /// One turn of the task that cycles the cooldowns. The task sleeps for
    /// the cycle period, cycles every cooldown, and sleeps again, for as long
    /// as the process lives: it is called first with `slept` unset, and again
    /// after every sleep. Nothing is cycled before the first sleep; after a
    /// sleep each cooldown is cycled as `cycle` says.
    pub fn start(&mut self, slept: bool) -> (next: Sleep)
        ensures
            next.secs == old(self).cycle_period,
            final(self).cycle_period == old(self).cycle_period,
            !slept ==> !next.cycled.autostar_send && !next.cycled.starboard_custom_cooldown
                && !next.cycled.old_message_edit && !next.cycled.xp_refresh,
            slept && old(self).autostar_send.period_millis() == 0 ==> next.cycled.autostar_send,
            slept && old(self).starboard_custom_cooldown.cycle_millis() == 0
                ==> next.cycled.starboard_custom_cooldown,
            slept && old(self).old_message_edit.period_millis() == 0
                ==> next.cycled.old_message_edit,
            slept && old(self).xp_refresh.period_millis() == 0 ==> next.cycled.xp_refresh,
            final(self).autostar_send.limit() == old(self).autostar_send.limit(),
            final(self).old_message_edit.limit() == old(self).old_message_edit.limit(),
            final(self).xp_refresh.limit() == old(self).xp_refresh.limit(),
            final(self).autostar_send.period_millis() == old(self).autostar_send.period_millis(),
            final(self).old_message_edit.period_millis() == old(
                self,
            ).old_message_edit.period_millis(),
            final(self).xp_refresh.period_millis() == old(self).xp_refresh.period_millis(),
            final(self).starboard_custom_cooldown.cycle_millis() == old(
                self,
            ).starboard_custom_cooldown.cycle_millis(),
            final(self).autostar_send@ == old(self).autostar_send@.cycled_if(
                next.cycled.autostar_send,
            ),
            final(self).starboard_custom_cooldown@ == old(
                self,
            ).starboard_custom_cooldown@.cycled_if(next.cycled.starboard_custom_cooldown),
            final(self).old_message_edit@ == old(self).old_message_edit@.cycled_if(
                next.cycled.old_message_edit,
            ),
            final(self).xp_refresh@ == old(self).xp_refresh@.cycled_if(next.cycled.xp_refresh),
    {
        let cycled = if slept {
            self.cycle()
        } else {
            Cycled {
                autostar_send: false,
                starboard_custom_cooldown: false,
                old_message_edit: false,
                xp_refresh: false,
            }
        };
        Sleep { secs: self.cycle_period, cycled }
    }
}

impl Default for Cooldowns {
    fn default() -> (cooldowns: Cooldowns)
        ensures
            cooldowns.fresh(),
    {
        Cooldowns::new()
    }
}

} // verus!
