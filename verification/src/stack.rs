//! The bounded byte stack: a fixed row of optional slots and the index of
//! the next free one.

use vstd::prelude::*;

verus! {

/// Number of byte slots in one stack; a push beyond it overflows.
pub const CAPACITY: usize = 127;

/// Why a push or a pop was refused; the stack is unchanged in either case.
#[derive(Clone, Copy, Debug, PartialEq, Eq, Structural)]
pub enum StackError {
    /// A push found all `CAPACITY` slots taken.
    Overflow,
    /// A pop found no stored byte.
    Underflow,
}

/// A stack of at most `CAPACITY` bytes.
///
/// `slots` always has exactly `CAPACITY` entries; `top` is both the count of
/// stored bytes and the index of the next free slot. Every slot below `top`
/// holds a byte, every slot at or above it is vacant.
pub struct BoundedStack {
    slots: Vec<Option<u8>>,
    top: usize,
}

impl View for BoundedStack {
    type V = Seq<u8>;

    /// The stored bytes, bottom of the stack first.
    closed spec fn view(&self) -> Seq<u8> {
        Seq::new(self.top as nat, |i: int| self.slots@[i].unwrap())
    }
}

impl BoundedStack {
    /// The invariant of the data model: the row has exactly `CAPACITY`
    /// slots, `top` never passes the end, every slot below `top` is
    /// occupied and every slot at or above `top` is vacant.
    pub closed spec fn wf(&self) -> bool {
        &&& self.slots@.len() == CAPACITY
        &&& self.top <= CAPACITY
        &&& forall|i: int| 0 <= i < self.top ==> self.slots@[i] is Some
        &&& forall|i: int| self.top <= i < CAPACITY ==> self.slots@[i] is None
    }

    /// A freshly opened stack: all slots vacant, nothing stored.
    pub fn new() -> (stack: BoundedStack)
        ensures
            stack.wf(),
            stack@ == Seq::<u8>::empty(),
    {
        let mut slots: Vec<Option<u8>> = Vec::new();
        while slots.len() < CAPACITY
            invariant
                slots@.len() <= CAPACITY,
                forall|i: int| 0 <= i < slots@.len() ==> slots@[i] is None,
            decreases CAPACITY - slots@.len(),
        {
            slots.push(None);
        }
        let stack = BoundedStack { slots, top: 0 };
        proof {
            assert(stack@ =~= Seq::<u8>::empty());
        }
        stack
    }

    /// Stores `value` in the next free slot and advances `top`; fails with
    /// `Overflow`, changing nothing, exactly when the stack is full.
    pub fn push(&mut self, value: u8) -> (r: Result<(), StackError>)
        requires
            old(self).wf(),
        ensures
            final(self).wf(),
            old(self)@.len() < CAPACITY ==> r == Ok::<(), StackError>(())
                && final(self)@ == old(self)@.push(value),
            old(self)@.len() == CAPACITY ==> r == Err::<(), StackError>(StackError::Overflow)
                && final(self)@ == old(self)@,
    {
        if self.top == CAPACITY {
            return Err(StackError::Overflow);
        }
        let t = self.top;
        self.slots[t] = Some(value);
        self.top = t + 1;
        proof {
            assert(self@ =~= old(self)@.push(value));
        }
        Ok(())
    }

    /// Retreats `top` and takes the byte out of the slot it now names,
    /// leaving that slot vacant; fails with `Underflow`, changing nothing,
    /// exactly when the stack is empty. Emptiness is checked before `top`
    /// moves, so no out-of-range slot is ever touched.
    pub fn pop(&mut self) -> (r: Result<u8, StackError>)
        requires
            old(self).wf(),
        ensures
            final(self).wf(),
            old(self)@.len() > 0 ==> r == Ok::<u8, StackError>(old(self)@.last())
                && final(self)@ == old(self)@.drop_last(),
            old(self)@.len() == 0 ==> r == Err::<u8, StackError>(StackError::Underflow)
                && final(self)@ == old(self)@,
    {
        if self.top == 0 {
            return Err(StackError::Underflow);
        }
        let t = self.top - 1;
        let slot = self.slots[t];
        self.slots[t] = None;
        self.top = t;
        proof {
            assert(self@ =~= old(self)@.drop_last());
        }
        Ok(slot.unwrap())
    }
}

} // verus!
