//! The model of a lookahead buffer: what is staged ahead of the cursor, and
//! what the source has yet to give.
//!
//! The operations of the buffer are functions on [`Lookahead`]. The laws at
//! the end of the module say what a consumer sees of them: which item comes
//! at which place, and what is dropped where a refill overwrites staged
//! slots.

use vstd::prelude::*;

verus! {

/// What a source with `rest` left to give returns on its `i`-th draw from
/// now, counting from zero: its items in order, and the end marker on every
/// draw after the last of them.
pub open spec fn source_item<T>(rest: Seq<T>, i: int) -> Option<T> {
    if 0 <= i < rest.len() {
        Some(rest[i])
    } else {
        None
    }
}

/// The results of the next `n` draws from a source with `rest` left to give.
pub open spec fn source_items<T>(rest: Seq<T>, n: nat) -> Seq<Option<T>> {
    Seq::new(n, |i: int| source_item(rest, i))
}

/// What a source with `rest` left to give still has to give after `n` draws.
pub open spec fn source_after<T>(rest: Seq<T>, n: nat) -> Seq<T> {
    if n < rest.len() {
        rest.skip(n as int)
    } else {
        Seq::empty()
    }
}

/// The state of a lookahead buffer, as far as a consumer can tell.
///
/// `staged` holds the slots from the cursor to the end of the staging array,
/// in order: the items that were drawn from the source and not yet handed
/// out. A slot holds `None` where the source had run dry when the slot was
/// filled, or where `None` was put back. `rest` is what the source has yet to
/// give. The cursor is `capacity - staged.len()`.
#[verifier::ext_equal]
pub struct Lookahead<T> {
    pub capacity: nat,
    pub staged: Seq<Option<T>>,
    pub rest: Seq<T>,
}

impl<T> Lookahead<T> {
    /// The buffer has at least one slot, and no more is staged than it has
    /// slots.
    pub open spec fn wf(self) -> bool {
        &&& 1 <= self.capacity
        &&& self.staged.len() <= self.capacity
    }

    /// The number of slots already handed out.
    pub open spec fn cursor(self) -> nat {
        (self.capacity - self.staged.len()) as nat
    }

    /// The `i`-th item that the consumer would get, counting from zero, if
    /// nothing were dropped on the way: the staged slots, then what the source
    /// gives.
    pub open spec fn upcoming(self, i: int) -> Option<T> {
        if i < self.staged.len() {
            self.staged[i]
        } else {
            source_item(self.rest, i - self.staged.len())
        }
    }

    /// The buffer with the cursor at `at` and every slot behind it drawn
    /// afresh from the source. What was staged before is gone.
    pub open spec fn refill_from(self, at: nat) -> Self {
        Lookahead {
            capacity: self.capacity,
            staged: source_items(self.rest, (self.capacity - at) as nat),
            rest: source_after(self.rest, (self.capacity - at) as nat),
        }
    }

    /// A new buffer of `capacity` slots over a source with `items` to give:
    /// every slot is drawn from the source at once.
    pub open spec fn fresh(capacity: nat, items: Seq<T>) -> Self {
        Lookahead { capacity, staged: Seq::empty(), rest: items }.refill_from(0)
    }

    /// The buffer once `k` slots are asked for ahead of the cursor. Where
    /// fewer than `k` are left, all slots are refilled from the source, and
    /// what was still staged is dropped.
    pub open spec fn demand(self, k: nat) -> Self {
        if self.cursor() + k > self.capacity {
            self.refill_from(0)
        } else {
            self
        }
    }

    /// The buffer after its next item was taken.
    pub open spec fn after_next(self) -> Self {
        let ready = self.demand(1);
        Lookahead { capacity: ready.capacity, staged: ready.staged.drop_first(), rest: ready.rest }
    }

    /// The buffer after `n` items were taken, one by one.
    pub open spec fn after_nexts(self, n: nat) -> Self
        decreases n,
    {
        if n == 0 {
            self
        } else {
            self.after_next().after_nexts((n - 1) as nat)
        }
    }

    /// The buffer after `v` was put back. With the cursor above zero the slot
    /// before it takes `v`. With the cursor at zero there is no such slot: all
    /// slots but the first are refilled from the source, and the first takes
    /// `v`, so that everything staged before is dropped.
    pub open spec fn put_back(self, v: Option<T>) -> Self {
        let room = if self.cursor() > 0 {
            self
        } else {
            self.refill_from(1)
        };
        Lookahead { capacity: room.capacity, staged: seq![v] + room.staged, rest: room.rest }
    }

    /// The number of upcoming items that `demand(k)` drops.
    pub open spec fn dropped_by_demand(self, k: nat) -> nat {
        if self.cursor() + k > self.capacity {
            self.staged.len()
        } else {
            0
        }
    }

    /// The number of upcoming items that `put_back` drops.
    pub open spec fn dropped_by_put_back(self) -> nat {
        if self.cursor() > 0 {
            0
        } else {
            self.staged.len()
        }
    }
}

/// A refill keeps nothing of what was staged: whatever the cursor it is made
/// from, the items that come after it are those that the source had to give.
pub proof fn law_refill_starts_at_source<T>(m: Lookahead<T>, at: nat, i: int)
    requires
        at <= m.capacity,
        0 <= i,
    ensures
        m.refill_from(at).wf() <==> 1 <= m.capacity,
        m.refill_from(at).cursor() == at,
        m.refill_from(at).upcoming(i) == source_item(m.rest, i),
{
}

/// Asking for `k` slots leaves the upcoming items as they were, but for the
/// staged ones that a refill drops from their front. Asking for one slot
/// drops nothing.
pub proof fn law_demand_drops_front<T>(m: Lookahead<T>, k: nat, i: int)
    requires
        m.wf(),
        0 <= i,
    ensures
        m.demand(k).wf(),
        k <= m.capacity ==> k <= m.demand(k).staged.len(),
        m.demand(k).upcoming(i) == m.upcoming(i + m.dropped_by_demand(k)),
        k <= 1 ==> m.dropped_by_demand(k) == 0,
{
    law_refill_starts_at_source(m, 0, i);
}

/// Taking an item hands out the first upcoming one and moves all others one
/// place forward.
pub proof fn law_next_shifts<T>(m: Lookahead<T>, i: int)
    requires
        m.wf(),
        0 <= i,
    ensures
        m.after_next().wf(),
        m.after_next().upcoming(i) == m.upcoming(i + 1),
{
    law_demand_drops_front(m, 1, i + 1);
    law_demand_drops_front(m, 1, 0);
}

/// Taking `n` items, one by one, moves the upcoming items `n` places
/// forward: the item taken after them is the one that stood at place `n`.
pub proof fn law_nexts_shift<T>(m: Lookahead<T>, n: nat, i: int)
    requires
        m.wf(),
        0 <= i,
    ensures
        m.after_nexts(n).wf(),
        m.after_nexts(n).upcoming(i) == m.upcoming(n + i),
    decreases n,
{
    if n > 0 {
        law_next_shifts(m, n - 1 + i);
        law_nexts_shift(m.after_next(), (n - 1) as nat, i);
    }
}

/// A new buffer replays its source: whatever its capacity, the item taken
/// after `k` others is the source's item at place `k`, and the end marker
/// once the source has no item at that place. So taking as many items as the
/// source has gives them all in their order, and every take after that gives
/// the end marker.
pub proof fn law_next_replays_source<T>(capacity: nat, items: Seq<T>, k: nat)
    requires
        1 <= capacity,
    ensures
        Lookahead::fresh(capacity, items).wf(),
        Lookahead::fresh(capacity, items).cursor() == 0,
        Lookahead::fresh(capacity, items).upcoming(k as int) == source_item(items, k as int),
        Lookahead::fresh(capacity, items).after_nexts(k).upcoming(0) == source_item(
            items,
            k as int,
        ),
{
    let empty = Lookahead { capacity, staged: Seq::empty(), rest: items };
    law_refill_starts_at_source(empty, 0, k as int);
    law_nexts_shift(Lookahead::fresh(capacity, items), k, 0);
}

/// Peeking twice gives the same item. A peek asks for one slot: that leaves
/// every upcoming item in its place, and asking again leaves the buffer as
/// the first time left it.
pub proof fn law_peek_is_idempotent<T>(m: Lookahead<T>, i: int)
    requires
        m.wf(),
        0 <= i,
    ensures
        m.demand(1).wf(),
        m.demand(1).upcoming(i) == m.upcoming(i),
        m.demand(1).demand(1) == m.demand(1),
{
    law_demand_drops_front(m, 1, i);
}

/// After a look at the next `k` items, taking `k` items gives those that
/// were seen, in their order. The look asks for `k` slots and shows the first
/// `k` staged ones; the item taken after `j` others is the one shown at place
/// `j`.
pub proof fn law_peeked_items_come_next<T>(m: Lookahead<T>, k: nat, j: nat)
    requires
        m.wf(),
        j < k <= m.capacity,
    ensures
        m.demand(k).after_nexts(j).upcoming(0) == m.demand(k).staged.take(k as int)[j as int],
{
    law_demand_drops_front(m, k, 0);
    law_nexts_shift(m.demand(k), j, 0);
}

/// An item that is put back is the next one taken, whatever it is, the end
/// marker too. The items after it are those that were upcoming before, but
/// for the staged ones that were dropped where the cursor stood at zero.
pub proof fn law_put_back_comes_next<T>(m: Lookahead<T>, v: Option<T>, i: int)
    requires
        m.wf(),
        0 <= i,
    ensures
        m.put_back(v).wf(),
        m.put_back(v).upcoming(0) == v,
        m.put_back(v).upcoming(i + 1) == m.upcoming(i + m.dropped_by_put_back()),
        m.cursor() > 0 ==> m.put_back(v).after_next() == m,
{
    law_refill_starts_at_source(m, 1, i);
    if m.cursor() > 0 {
        assert((seq![v] + m.staged).drop_first() =~= m.staged);
    }
}

} // verus!
