//! The laws of the stack, stated over the same sequence model that the
//! contracts of push and pop use, and proved once and for all.

use vstd::prelude::*;

verus! {

/// The bytes that `count` successive pops yield from a stack holding
/// `stored`, in the order they come out: most recent first.
pub open spec fn popped_values(stored: Seq<u8>, count: nat) -> Seq<u8>
    decreases count,
{
    if count == 0 {
        Seq::empty()
    } else {
        seq![stored.last()] + popped_values(stored.drop_last(), (count - 1) as nat)
    }
}

/// What a stack holding `stored` still holds after `count` successive pops.
pub open spec fn remaining_after_pops(stored: Seq<u8>, count: nat) -> Seq<u8>
    decreases count,
{
    if count == 0 {
        stored
    } else {
        remaining_after_pops(stored.drop_last(), (count - 1) as nat)
    }
}

/// LIFO law: after pushing the bytes of `pushed` in order on top of
/// `below`, popping once per pushed byte yields exactly the pushed bytes in
/// reverse order — each pop returns the most recently pushed byte not yet
/// popped — and leaves precisely `below` on the stack.
pub proof fn lemma_lifo(below: Seq<u8>, pushed: Seq<u8>)
    ensures
        popped_values(below + pushed, pushed.len()) == pushed.reverse(),
        remaining_after_pops(below + pushed, pushed.len()) == below,
    decreases pushed.len(),
{
    if pushed.len() == 0 {
        assert(below + pushed =~= below);
        assert(pushed.reverse() =~= Seq::<u8>::empty());
    } else {
        let whole = below + pushed;
        let rest = pushed.drop_last();
        assert(whole.last() == pushed.last());
        assert(whole.drop_last() =~= below + rest);
        lemma_lifo(below, rest);
        assert(popped_values(whole, pushed.len()) =~= seq![pushed.last()] + rest.reverse());
        assert(pushed.reverse() =~= seq![pushed.last()] + rest.reverse());
    }
}

/// Round-trip law: pushing a byte and popping at once returns that very
/// byte and restores the stack exactly — same count, same remaining
/// contents.
pub proof fn lemma_push_then_pop(stored: Seq<u8>, value: u8)
    ensures
        stored.push(value).last() == value,
        stored.push(value).drop_last() == stored,
{
    assert(stored.push(value).drop_last() =~= stored);
}

/// Serialization law: once the session's lock has put some order on a
/// batch of pushes, popping as many times as bytes were pushed returns
/// every pushed byte exactly once — none lost, none duplicated — and
/// leaves the stack empty, whatever the order of the batch was.
pub proof fn lemma_serialized_batch(pushed: Seq<u8>)
    ensures
        popped_values(pushed, pushed.len()) == pushed.reverse(),
        popped_values(pushed, pushed.len()).to_multiset() == pushed.to_multiset(),
        remaining_after_pops(pushed, pushed.len()) == Seq::<u8>::empty(),
{
    assert(Seq::<u8>::empty() + pushed =~= pushed);
    lemma_lifo(Seq::<u8>::empty(), pushed);
    pushed.lemma_reverse_to_multiset();
}

} // verus!
