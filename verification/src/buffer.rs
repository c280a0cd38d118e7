//! The buffer itself: an iterator, a staging array and a cursor.
//!
//! What the buffer does is stated over [`Lookahead`], the model of its
//! state. The model needs to know what the wrapped iterator has yet to give.
//! vstd states that of an iterator by `remaining()`, and only where the
//! iterator `obeys_prophetic_iter_laws()`, so each operation says what it
//! does to the model for such an iterator. What an operation does without
//! drawing from the iterator is stated for every iterator: which staged slot
//! it returns, and that a value put back is the next one taken.

use crate::cursor::Cursor;
use crate::lookahead::{
    law_demand_drops_front, source_after, source_item, source_items, Lookahead,
};
use vstd::prelude::*;
use vstd::std_specs::iter::{IteratorSpec, IteratorSpecImpl};

verus! {

/// An iterator that lets its consumer look at the next few values before
/// taking them, and put a value back.
///
/// The buffer owns the iterator `Iter` and a staging array of `BUFSIZE`
/// slots. The slots from the cursor to the end of the array hold the values
/// that were drawn from the iterator and not yet handed out.
///
/// `BUFSIZE` has to be at least one more than the farthest that the consumer
/// looks ahead. Whenever more slots are asked for than are left ahead of the
/// cursor, the whole array is drawn afresh from the iterator and what was
/// still staged is dropped. Taking and peeking one value at a time asks for
/// one slot and so drops nothing; `peek_value` of a greater width can, and
/// `put_back` does when the cursor stands at the first slot.
pub struct PutBackPeekMore<Iter, const BUFSIZE: usize> where Iter: Iterator {
    /// The iterator to consume.
    iter: Iter,
    /// The staging array. The slots before the cursor hold nothing of
    /// meaning.
    peek: [Option<Iter::Item>; BUFSIZE],
    /// The first slot that was not handed out yet.
    fizz: Cursor<BUFSIZE>,
}

/// What a slot holds before anything was drawn into it.
fn vacant<T>(_slot: usize) -> (content: Option<T>)
    ensures
        content is None,
{
    None
}

/// An array of slots to be filled, made by `core::array::from_fn`. Nothing
/// is claimed of what the slots hold.
#[verifier::external_body]
fn unfilled<T, const N: usize>() -> [Option<T>; N] {
    core::array::from_fn(vacant)
}

/// Draws one value for each slot from `from` to the end of the array, in
/// order. The slots before `from` stay as they are.
fn fill<Iter: Iterator, const N: usize>(
    iter: &mut Iter,
    slots: &mut [Option<Iter::Item>; N],
    from: usize,
)
    requires
        from <= N,
    ensures
        (*final(iter)).obeys_prophetic_iter_laws() == (*old(iter)).obeys_prophetic_iter_laws(),
        forall|j: int| 0 <= j < from ==> final(slots)@[j] == old(slots)@[j],
        (*old(iter)).obeys_prophetic_iter_laws() ==> ({
            &&& final(slots)@.subrange(from as int, N as int) == source_items(
                (*old(iter)).remaining(),
                (N - from) as nat,
            )
            &&& (*final(iter)).remaining() == source_after(
                (*old(iter)).remaining(),
                (N - from) as nat,
            )
        }),
{
    let mut i: usize = from;
    while i < N
        invariant
            from <= i <= N,
            (*iter).obeys_prophetic_iter_laws() == (*old(iter)).obeys_prophetic_iter_laws(),
            forall|j: int| 0 <= j < from ==> slots@[j] == old(slots)@[j],
            (*old(iter)).obeys_prophetic_iter_laws() ==> ({
                &&& forall|j: int|
                    from <= j < i ==> slots@[j] == source_item((*old(iter)).remaining(), j - from)
                &&& (*iter).remaining() == source_after(
                    (*old(iter)).remaining(),
                    (i - from) as nat,
                )
            }),
        decreases N - i,
    {
        let item = iter.next();
        slots[i] = item;
        i += 1;
    }
}

impl<Iter, const BUFSIZE: usize> PutBackPeekMore<Iter, BUFSIZE> where Iter: Iterator {
    /// The iterator that the buffer draws from, as it stands now.
    pub closed spec fn source(&self) -> Iter {
        self.iter
    }

    /// The source keeps to the laws that vstd states of iterators: it gives
    /// the values of its `remaining()` in order, and `None` from then on.
    pub open spec fn lawful(&self) -> bool {
        self.source().obeys_prophetic_iter_laws()
    }

    /// The slots from the cursor to the end of the staging array.
    pub closed spec fn staged(&self) -> Seq<Option<Iter::Item>> {
        self.peek@.subrange(self.fizz.index(), BUFSIZE as int)
    }

    /// The slots before the cursor. What they hold was handed out or dropped:
    /// it has no part in what the buffer produces.
    pub closed spec fn spent(&self) -> Seq<Option<Iter::Item>> {
        self.peek@.subrange(0, self.fizz.index())
    }

    /// The model of the buffer, given what its source has yet to give.
    pub open spec fn lookahead(&self, rest: Seq<Iter::Item>) -> Lookahead<Iter::Item> {
        Lookahead { capacity: BUFSIZE as nat, staged: self.staged(), rest }
    }

    /// The buffer has at least one slot, and its cursor is within the staging
    /// array. This holds of every buffer; each operation states it of the
    /// buffer that it leaves, so that proofs can use it.
    pub open spec fn wf(&self) -> bool {
        &&& 1 <= BUFSIZE
        &&& self.spent().len() + self.staged().len() == BUFSIZE
    }

    /// Create a new iterator. Every slot is drawn from `iter` at once.
    ///
    /// A buffer needs a slot to hand a value out of, so `BUFSIZE` is one or
    /// more.
    pub fn new(iter: Iter) -> (buffer: Self)
        requires
            1 <= BUFSIZE,
        ensures
            buffer.wf(),
            buffer.spent().len() == 0,
            buffer.lawful() == iter.obeys_prophetic_iter_laws(),
            iter.obeys_prophetic_iter_laws() ==> buffer.lookahead(buffer.source().remaining())
                == Lookahead::fresh(BUFSIZE as nat, iter.remaining()),
    {
        let mut iter = iter;
        let mut peek: [Option<Iter::Item>; BUFSIZE] = unfilled();
        fill(&mut iter, &mut peek, 0);
        Self { iter, peek, fizz: Cursor::start() }
    }

    /// The position of the cursor: the number of slots, counted from the
    /// start of the staging array, that hold nothing of meaning.
    pub fn cursor(&self) -> (at: usize)
        ensures
            self.wf(),
            at == self.spent().len(),
    {
        proof {
            use_type_invariant(&self.fizz);
        }
        self.fizz.get()
    }

    /// The slots from the cursor to the end of the staging array: what was
    /// drawn and not yet handed out, in the order in which it will be. The
    /// buffer stays as it is.
    pub fn staged_slots(&self) -> (out: &[Option<Iter::Item>])
        ensures
            self.wf(),
            out@ == self.staged(),
    {
        proof {
            use_type_invariant(&self.fizz);
        }
        let at = self.fizz.get();
        &self.peek[at..BUFSIZE]
    }

    /// Look at the next value of the iterator without consuming it.
    ///
    /// Where no slot is staged, every slot is drawn afresh first; nothing is
    /// dropped by that, and a second look gives the same value.
    ///
    /// In verified code that has `IteratorSpec` in scope, write the call as
    /// `PutBackPeekMore::peek(&mut buffer)`: a call with a dot finds the
    /// specification function `peek` of that trait first.
    pub fn peek(&mut self) -> (out: &Option<Iter::Item>)
        ensures
            final(self).wf(),
            final(self).lawful() == old(self).lawful(),
            0 < final(self).staged().len() && *out == final(self).staged()[0],
            0 < old(self).staged().len() ==> *final(self) == *old(self),
            old(self).staged().len() == 0 ==> final(self).staged().len() == BUFSIZE,
            old(self).lawful() ==> ({
                let before = old(self).lookahead(old(self).source().remaining());
                let after = final(self).lookahead(final(self).source().remaining());
                &&& *out == before.upcoming(0)
                &&& after == before.demand(1)
            }),
    {
        proof {
            use_type_invariant(&self.fizz);
            law_demand_drops_front(self.lookahead(self.source().remaining()), 1, 0);
        }
        self.demand(1);
        &self.peek[self.fizz.get()]
    }

    /// Look at the next `amount` values of the iterator without consuming
    /// them.
    ///
    /// The values are the first `amount` staged slots of the buffer as the
    /// call leaves it. Where fewer than `amount` slots were staged, the call
    /// has drawn every slot afresh and dropped them. The array has no more
    /// than `BUFSIZE` slots to show, so `amount` is `BUFSIZE` at most.
    pub fn peek_value(&mut self, amount: usize) -> (out: &[Option<Iter::Item>])
        requires
            amount <= BUFSIZE,
        ensures
            final(self).wf(),
            final(self).lawful() == old(self).lawful(),
            amount <= final(self).staged().len(),
            out@ == final(self).staged().take(amount as int),
            amount <= old(self).staged().len() ==> *final(self) == *old(self),
            amount > old(self).staged().len() ==> final(self).staged().len() == BUFSIZE,
            old(self).lawful() ==> ({
                let before = old(self).lookahead(old(self).source().remaining());
                let after = final(self).lookahead(final(self).source().remaining());
                after == before.demand(amount as nat)
            }),
    {
        self.demand(amount);
        let at = self.fizz.get();
        &self.peek[at..at + amount]
    }

    /// Makes sure that `val` slots are staged ahead of the cursor, as far as
    /// the array has that many: where fewer are staged, every slot is drawn
    /// afresh and the cursor stands at the first slot.
    pub(crate) fn demand(&mut self, val: usize)
        ensures
            final(self).wf(),
            val <= BUFSIZE ==> val <= final(self).staged().len(),
            val <= old(self).staged().len() ==> *final(self) == *old(self),
            val > old(self).staged().len() ==> final(self).staged().len() == BUFSIZE,
            final(self).lawful() == old(self).lawful(),
            old(self).lawful() ==> ({
                let before = old(self).lookahead(old(self).source().remaining());
                let after = final(self).lookahead(final(self).source().remaining());
                after == before.demand(val as nat)
            }),
    {
        proof {
            use_type_invariant(&self.fizz);
        }
        if val > BUFSIZE - self.fizz.get() {
            self.write_over_start();
        }
    }

    /// Replaces every slot with a value drawn from the iterator, and moves
    /// the cursor to the first slot.
    pub(crate) fn write_over_start(&mut self)
        ensures
            final(self).wf(),
            final(self).staged().len() == BUFSIZE,
            final(self).lawful() == old(self).lawful(),
            old(self).lawful() ==> ({
                let before = old(self).lookahead(old(self).source().remaining());
                let after = final(self).lookahead(final(self).source().remaining());
                after == before.refill_from(0)
            }),
    {
        self.write_over_val(0);
    }

    /// Replaces every slot from `val` on with a value drawn from the
    /// iterator, and moves the cursor to `val`. The slots before `val` keep
    /// what they held, whichever side of the cursor they stood on.
    pub(crate) fn write_over_val(&mut self, val: usize)
        requires
            val <= BUFSIZE,
        ensures
            final(self).wf(),
            final(self).staged().len() == BUFSIZE - val,
            final(self).spent() == (old(self).spent() + old(self).staged()).take(val as int),
            final(self).lawful() == old(self).lawful(),
            old(self).lawful() ==> ({
                let before = old(self).lookahead(old(self).source().remaining());
                let after = final(self).lookahead(final(self).source().remaining());
                after == before.refill_from(val as nat)
            }),
    {
        proof {
            use_type_invariant(&self.fizz);
        }
        let ghost before = *self;
        fill(&mut self.iter, &mut self.peek, val);
        self.fizz.set(val);
        assert(self.spent() =~= (before.spent() + before.staged()).take(val as int));
    }

    /// Change the next consumed value of the iterator.
    ///
    /// With the cursor above zero, `val` takes the slot before it. With the
    /// cursor at zero there is no such slot: every slot but the first is
    /// drawn afresh from the iterator and the first takes `val`, so that all
    /// that was staged is dropped. The cursor then stands at zero again: it
    /// is never moved below.
    pub fn put_back(&mut self, val: Option<Iter::Item>)
        ensures
            final(self).wf(),
            final(self).lawful() == old(self).lawful(),
            0 < final(self).staged().len() && final(self).staged()[0] == val,
            0 < old(self).spent().len() ==> ({
                &&& final(self).staged() == seq![val] + old(self).staged()
                &&& final(self).spent() == old(self).spent().drop_last()
                &&& final(self).source() == old(self).source()
            }),
            old(self).spent().len() == 0 ==> final(self).staged().len() == BUFSIZE,
            old(self).lawful() ==> ({
                let before = old(self).lookahead(old(self).source().remaining());
                let after = final(self).lookahead(final(self).source().remaining());
                after == before.put_back(val)
            }),
    {
        proof {
            use_type_invariant(&self.fizz);
        }
        if self.fizz.get() == 0 {
            self.write_over_val(1);
        }
        let at = self.fizz.get() - 1;
        self.peek[at] = val;
        self.fizz.retreat();
    }
}

impl<Iter, const BUFSIZE: usize> Iterator for PutBackPeekMore<Iter, BUFSIZE> where Iter: Iterator {
    type Item = Iter::Item;

    /// Consume the iterator: takes the first upcoming value out of its slot,
    /// which is left empty, and moves the cursor past it. Every other slot
    /// stays as it was, and nothing is drawn from the iterator. Where no slot
    /// is staged, every slot is drawn afresh first, and the value comes out
    /// of the first slot; nothing is dropped by that.
    fn next(&mut self) -> (out: Option<Iter::Item>)
        ensures
            final(self).wf(),
            final(self).lawful() == old(self).lawful(),
            0 < final(self).spent().len() && final(self).spent().last() is None,
            0 < old(self).staged().len() ==> ({
                &&& out == old(self).staged()[0]
                &&& final(self).staged() == old(self).staged().drop_first()
                &&& final(self).spent() == old(self).spent().push(None)
                &&& final(self).source() == old(self).source()
            }),
            old(self).staged().len() == 0 ==> final(self).spent().len() == 1,
            old(self).lawful() ==> ({
                let before = old(self).lookahead(old(self).source().remaining());
                let after = final(self).lookahead(final(self).source().remaining());
                &&& out == before.upcoming(0)
                &&& after == before.after_next()
            }),
    {
        proof {
            use_type_invariant(&self.fizz);
            law_demand_drops_front(self.lookahead(self.source().remaining()), 1, 0);
        }
        self.demand(1);
        let at = self.fizz.get();
        let out = self.peek[at].take();
        self.fizz.advance();
        out
    }
}

/// As an iterator the buffer promises nothing through the iterator laws of
/// vstd: those are for iterators that give `None` for ever once they gave it,
/// and after a put-back the buffer may give a value again. What `next`
/// returns is stated by its own contract.
impl<Iter, const BUFSIZE: usize> IteratorSpecImpl for PutBackPeekMore<Iter, BUFSIZE> where Iter: Iterator {
    open spec fn obeys_prophetic_iter_laws(&self) -> bool {
        false
    }

    open spec fn remaining(&self) -> Seq<Iter::Item> {
        Seq::empty()
    }

    open spec fn will_return_none(&self) -> bool {
        false
    }

    open spec fn decrease(&self) -> Option<nat> {
        None
    }

    open spec fn initial_value_relation(&self, init: &Self) -> bool {
        true
    }

    open spec fn peek(&self, index: int) -> Option<Iter::Item> {
        None
    }
}

} // verus!
