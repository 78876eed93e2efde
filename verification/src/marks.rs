//! The order in which a bounded store of marks keeps its keys: the most
//! recently used first, so that the one used least recently is the one to
//! leave.

use vstd::prelude::*;

verus! {

/// The order of the keys after `key` was looked up: a key that is held moves
/// to the front.
pub open spec fn order_touched(order: Seq<u64>, key: u64) -> Seq<u64> {
    if order.contains(key) {
        seq![key] + order.remove_value(key)
    } else {
        order
    }
}

/// The order of the keys after `key` was set, among at most `capacity` keys:
/// a key that is held stays where it is; a new key goes to the front, and the
/// key at the back leaves where that makes one too many.
pub open spec fn order_marked(order: Seq<u64>, key: u64, capacity: usize) -> Seq<u64> {
    if order.contains(key) {
        order
    } else if order.len() + 1 > capacity {
        (seq![key] + order).drop_last()
    } else {
        seq![key] + order
    }
}

/// An order of keys as a marker cache for `capacity` keys keeps it: no more
/// keys than that, and none twice.
pub open spec fn order_well_formed(order: Seq<u64>, capacity: usize) -> bool {
    order.len() <= capacity && order.no_duplicates()
}

/// Setting a key keeps the order well formed, and the key is held after.
pub proof fn lemma_order_marked(order: Seq<u64>, key: u64, capacity: usize)
    requires
        order_well_formed(order, capacity),
        capacity > 0,
    ensures
        order_well_formed(order_marked(order, key, capacity), capacity),
        order_marked(order, key, capacity).contains(key),
{
    let after = order_marked(order, key, capacity);
    if !order.contains(key) {
        let pushed = seq![key] + order;
        assert(pushed[0] == key);
        assert forall|i: int, j: int|
            0 <= i < pushed.len() && 0 <= j < pushed.len() && i != j implies pushed[i]
            != pushed[j] by {
            if i > 0 && j > 0 {
                assert(pushed[i] == order[i - 1] && pushed[j] == order[j - 1]);
            } else if i > 0 {
                assert(pushed[i] == order[i - 1]);
            } else {
                assert(pushed[j] == order[j - 1]);
            }
        }
        assert(after[0] == key);
    }
}

/// Looking a key up keeps the order well formed, and holds the keys that
/// were held before and no others.
pub proof fn lemma_order_touched(order: Seq<u64>, key: u64, capacity: usize)
    requires
        order_well_formed(order, capacity),
    ensures
        order_well_formed(order_touched(order, key), capacity),
        forall|other: u64| order_touched(order, key).contains(other) == order.contains(other),
{
    let after = order_touched(order, key);
    order.index_of_first_ensures(key);
    if order.contains(key) {
        let at = order.index_of_first(key)->0;
        let rest = order.remove(at);
        order.remove_ensures(at);
        assert(after == seq![key] + rest);
        assert(after[0] == key);
        assert forall|i: int| 0 <= i < rest.len() implies rest[i] != key && order.contains(
            rest[i],
        ) by {
            if i < at {
                assert(rest[i] == order[i]);
            } else {
                assert(rest[i] == order[i + 1]);
            }
        }
        assert forall|i: int, j: int|
            0 <= i < rest.len() && 0 <= j < rest.len() && i != j implies rest[i] != rest[j] by {
            let a = if i < at {
                i
            } else {
                i + 1
            };
            let b = if j < at {
                j
            } else {
                j + 1
            };
            assert(rest[i] == order[a] && rest[j] == order[b]);
        }
        assert forall|i: int, j: int|
            0 <= i < after.len() && 0 <= j < after.len() && i != j implies after[i]
            != after[j] by {
            if i > 0 {
                assert(after[i] == rest[i - 1]);
            }
            if j > 0 {
                assert(after[j] == rest[j - 1]);
            }
        }
        assert forall|other: u64| after.contains(other) == order.contains(other) by {
            if order.contains(other) {
                let k = choose|k: int| 0 <= k < order.len() && order[k] == other;
                if k == at {
                    assert(after[0] == other);
                } else if k < at {
                    assert(rest[k] == other);
                    assert(after[k + 1] == other);
                } else {
                    assert(rest[k - 1] == other);
                    assert(after[k] == other);
                }
            }
            if after.contains(other) {
                let k = choose|k: int| 0 <= k < after.len() && after[k] == other;
                if k > 0 {
                    assert(after[k] == rest[k - 1]);
                    assert(order.contains(rest[k - 1]));
                }
            }
        }
    }
}

} // verus!
