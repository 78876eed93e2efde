//! The order in which channels are shown: categories first, then text
//! channels, then voice channels, each group by position; and threads by
//! position alone. Channels that tie stay in the order they came in.

use crate::model::{Channel, ChannelKind};
use vstd::multiset::Multiset;
use vstd::prelude::*;

verus! {

impl ChannelKind {
    /// Where channels of this kind stand among the others: categories before
    /// all, voice and stage channels after all.
    pub open spec fn spec_rank(self) -> i8 {
        match self {
            ChannelKind::GuildCategory => -1i8,
            ChannelKind::GuildVoice => 1i8,
            ChannelKind::GuildStageVoice => 1i8,
            _ => 0i8,
        }
    }

    #[verifier::when_used_as_spec(spec_rank)]
    pub fn rank(self) -> (rank: i8)
        ensures
            rank == self.spec_rank(),
    {
        match self {
            ChannelKind::GuildCategory => -1,
            ChannelKind::GuildVoice => 1,
            ChannelKind::GuildStageVoice => 1,
            _ => 0,
        }
    }
}

/// What channels are ordered by: their rank, then their position. A channel
/// without a position comes before those that have one.
pub open spec fn spec_channel_sort_key(channel: &Channel) -> (i8, Option<i32>) {
    (channel.kind.rank(), channel.position)
}

#[verifier::when_used_as_spec(spec_channel_sort_key)]
pub fn channel_sort_key(channel: &Channel) -> (key: (i8, Option<i32>))
    ensures
        key == spec_channel_sort_key(channel),
{
    (channel.kind.rank(), channel.position)
}

/// Whether one position comes strictly before another.
pub open spec fn position_before(a: Option<i32>, b: Option<i32>) -> bool {
    match (a, b) {
        (None, Some(_)) => true,
        (Some(x), Some(y)) => x < y,
        _ => false,
    }
}

/// Whether one key comes strictly before another: by rank, and among equal
/// ranks by position.
pub open spec fn key_before(a: (i8, Option<i32>), b: (i8, Option<i32>)) -> bool {
    a.0 < b.0 || (a.0 == b.0 && position_before(a.1, b.1))
}

/// What `channel` is ordered by: its sort key where channels are ranked, and
/// its position alone where they are not, as threads are.
pub open spec fn order_key(channel: Channel, ranked: bool) -> (i8, Option<i32>) {
    if ranked {
        channel_sort_key(&channel)
    } else {
        (0i8, channel.position)
    }
}

/// Whether `a` has to come before `b`.
pub open spec fn comes_before(a: Channel, b: Channel, ranked: bool) -> bool {
    key_before(order_key(a, ranked), order_key(b, ranked))
}

/// `channels`, which are in order, with `channel` put in front of the first
/// of them that does not have to come before it.
pub open spec fn placed(channel: Channel, channels: Seq<Channel>, ranked: bool) -> Seq<Channel>
    decreases channels.len(),
{
    if channels.len() == 0 {
        seq![channel]
    } else if comes_before(channels[0], channel, ranked) {
        seq![channels[0]] + placed(channel, channels.drop_first(), ranked)
    } else {
        seq![channel] + channels
    }
}

/// `channels` in order: each channel before those that have to come after
/// it, and channels that tie in the order they came in.
pub open spec fn sorted(channels: Seq<Channel>, ranked: bool) -> Seq<Channel>
    decreases channels.len(),
{
    if channels.len() == 0 {
        channels
    } else {
        placed(channels[0], sorted(channels.drop_first(), ranked), ranked)
    }
}

/// Whether no channel of `channels` stands behind one that has to come after
/// it.
pub open spec fn in_order(channels: Seq<Channel>, ranked: bool) -> bool {
    forall|i: int, j: int|
        0 <= i < j < channels.len() ==> !comes_before(channels[j], channels[i], ranked)
}

/// Putting a channel where the first `at` channels have to come before it
/// and the next one does not is putting it at `at`.
pub proof fn lemma_placed_at(channel: Channel, channels: Seq<Channel>, ranked: bool, at: int)
    requires
        0 <= at <= channels.len(),
        forall|i: int| 0 <= i < at ==> comes_before(channels[i], channel, ranked),
        at < channels.len() ==> !comes_before(channels[at], channel, ranked),
    ensures
        placed(channel, channels, ranked) == channels.insert(at, channel),
    decreases at,
{
    if at == 0 {
        assert(channels.insert(0, channel) =~= seq![channel] + channels);
    } else {
        let rest = channels.drop_first();
        assert forall|i: int| 0 <= i < at - 1 implies comes_before(rest[i], channel, ranked) by {
            assert(rest[i] == channels[i + 1]);
        }
        lemma_placed_at(channel, rest, ranked, at - 1);
        assert(channels.insert(at, channel) =~= seq![channels[0]] + rest.insert(at - 1, channel));
    }
}

/// Placing a channel keeps the order, and adds just that channel.
pub proof fn lemma_placed(channel: Channel, channels: Seq<Channel>, ranked: bool)
    requires
        in_order(channels, ranked),
    ensures
        in_order(placed(channel, channels, ranked), ranked),
        placed(channel, channels, ranked).to_multiset() == channels.to_multiset().insert(channel),
        placed(channel, channels, ranked).len() == channels.len() + 1,
    decreases channels.len(),
{
    broadcast use vstd::seq_lib::group_to_multiset_ensures;

    let out = placed(channel, channels, ranked);
    if channels.len() == 0 {
        assert(channels =~= Seq::empty());
        assert(out =~= Seq::empty().push(channel));
    } else if comes_before(channels[0], channel, ranked) {
        let rest = channels.drop_first();
        assert forall|i: int, j: int| 0 <= i < j < rest.len() implies !comes_before(
            rest[j],
            rest[i],
            ranked,
        ) by {
            assert(rest[i] == channels[i + 1] && rest[j] == channels[j + 1]);
        }
        lemma_placed(channel, rest, ranked);
        let tail = placed(channel, rest, ranked);
        assert(out == seq![channels[0]] + tail);
        assert forall|j: int| 0 <= j < tail.len() implies !comes_before(
            tail[j],
            channels[0],
            ranked,
        ) by {
            assert(tail.to_multiset().count(tail[j]) > 0);
            if tail[j] != channel {
                assert(rest.to_multiset().count(tail[j]) > 0);
                let k = choose|k: int| 0 <= k < rest.len() && rest[k] == tail[j];
                assert(rest[k] == channels[k + 1]);
            }
        }
        assert forall|i: int, j: int| 0 <= i < j < out.len() implies !comes_before(
            out[j],
            out[i],
            ranked,
        ) by {
            if i == 0 {
                assert(out[j] == tail[j - 1]);
            } else {
                assert(out[i] == tail[i - 1] && out[j] == tail[j - 1]);
            }
        }
        assert(channels =~= seq![channels[0]] + rest);
        vstd::seq_lib::lemma_multiset_commutative(seq![channels[0]], rest);
        vstd::seq_lib::lemma_multiset_commutative(seq![channels[0]], tail);
        assert(out.to_multiset() =~= channels.to_multiset().insert(channel));
    } else {
        assert(out == seq![channel] + channels);
        assert forall|i: int, j: int| 0 <= i < j < out.len() implies !comes_before(
            out[j],
            out[i],
            ranked,
        ) by {
            if i == 0 {
                assert(out[j] == channels[j - 1]);
                if j - 1 > 0 {
                    assert(!comes_before(channels[j - 1], channels[0], ranked));
                }
            } else {
                assert(out[i] == channels[i - 1] && out[j] == channels[j - 1]);
            }
        }
        vstd::seq_lib::lemma_multiset_commutative(seq![channel], channels);
        assert(seq![channel].to_multiset() =~= Multiset::empty().insert(channel));
        assert(out.to_multiset() =~= channels.to_multiset().insert(channel));
    }
}

/// Sorting puts the channels in order and neither drops nor adds one.
pub proof fn lemma_sorted(channels: Seq<Channel>, ranked: bool)
    ensures
        in_order(sorted(channels, ranked), ranked),
        sorted(channels, ranked).to_multiset() == channels.to_multiset(),
        sorted(channels, ranked).len() == channels.len(),
    decreases channels.len(),
{
    broadcast use vstd::seq_lib::group_to_multiset_ensures;

    if channels.len() == 0 {
    } else {
        let rest = channels.drop_first();
        lemma_sorted(rest, ranked);
        lemma_placed(channels[0], sorted(rest, ranked), ranked);
        assert(channels =~= seq![channels[0]] + rest);
        vstd::seq_lib::lemma_multiset_commutative(seq![channels[0]], rest);
        assert(seq![channels[0]].to_multiset() =~= Multiset::empty().insert(channels[0]));
        assert(sorted(channels, ranked).to_multiset() =~= channels.to_multiset());
    }
}

/// Whether `a` has to come before `b`.
fn before(a: &Channel, b: &Channel, ranked: bool) -> (yes: bool)
    ensures
        yes == comes_before(*a, *b, ranked),
{
    let rank_a: i8 = if ranked {
        a.kind.rank()
    } else {
        0
    };
    let rank_b: i8 = if ranked {
        b.kind.rank()
    } else {
        0
    };
    if rank_a != rank_b {
        rank_a < rank_b
    } else {
        match (a.position, b.position) {
            (None, Some(_)) => true,
            (Some(x), Some(y)) => x < y,
            _ => false,
        }
    }
}

/// Sorts channels: by rank and position where `ranked`, by position alone
/// where not. Channels that tie stay in the order they came in.
pub fn sort_channels(channels: Vec<Channel>, ranked: bool) -> (out: Vec<Channel>)
    ensures
        out@ == sorted(channels@, ranked),
        in_order(out@, ranked),
        out@.to_multiset() == channels@.to_multiset(),
        out@.len() == channels@.len(),
{
    let mut left = channels;
    let mut out: Vec<Channel> = Vec::new();
    proof {
        assert(channels@.skip(channels@.len() as int) =~= Seq::empty());
    }
    while left.len() > 0
        invariant
            left@ == channels@.take(left@.len() as int),
            left@.len() <= channels@.len(),
            out@ == sorted(channels@.skip(left@.len() as int), ranked),
        decreases left@.len(),
    {
        let ghost suffix = channels@.skip(left@.len() as int);
        let channel = left.pop().unwrap();
        proof {
            let shorter = channels@.skip(left@.len() as int);
            assert(shorter[0] == channel);
            assert(shorter.drop_first() =~= suffix);
            assert(left@ =~= channels@.take(left@.len() as int));
        }
        let mut at: usize = 0;
        while at < out.len() && before(&out[at], &channel, ranked)
            invariant
                at <= out@.len(),
                forall|i: int| 0 <= i < at ==> comes_before(out@[i], channel, ranked),
            decreases out@.len() - at,
        {
            at += 1;
        }
        proof {
            lemma_placed_at(channel, out@, ranked, at as int);
        }
        out.insert(at, channel);
    }
    proof {
        assert(channels@.skip(0) =~= channels@);
        lemma_sorted(channels@, ranked);
    }
    out
}

} // verus!
