//! One opened device session: its stack behind a two-state lock, and the
//! routing of recognized control requests to push or pop.

use vstd::prelude::*;
use crate::stack::BoundedStack;
use crate::stack::StackError;
use crate::stack::CAPACITY;

verus! {

/// The two states of a session's lock.
#[derive(Clone, Copy, Debug, PartialEq, Eq, Structural)]
pub enum GuardState {
    /// The lock is free; an operation may acquire it.
    Idle,
    /// The lock is taken; a caller is operating on the stack.
    Held,
}

/// Owns one `BoundedStack` exclusively and serializes access to it.
///
/// The guard is a two-state machine: `acquire` moves `Idle` to `Held`,
/// `release` moves `Held` back to `Idle`, and the stack is touched only
/// while the lock is held. Exclusive ownership (`&mut`) stands in for the
/// blocking of a contended lock: a second caller gets the guard only after
/// the first is done with it.
pub struct SessionGuard {
    state: GuardState,
    stack: BoundedStack,
}

impl View for SessionGuard {
    type V = Seq<u8>;

    /// The guarded stack's stored bytes, bottom first.
    closed spec fn view(&self) -> Seq<u8> {
        self.stack@
    }
}

impl SessionGuard {
    /// The guarded stack keeps its own invariant.
    pub closed spec fn wf(&self) -> bool {
        self.stack.wf()
    }

    /// The lock is free.
    pub closed spec fn is_idle(&self) -> bool {
        self.state is Idle
    }

    /// A guard around a freshly opened, empty stack, with the lock free.
    fn new() -> (guard: SessionGuard)
        ensures
            guard.wf(),
            guard.is_idle(),
            guard@ == Seq::<u8>::empty(),
    {
        SessionGuard { state: GuardState::Idle, stack: BoundedStack::new() }
    }

    /// Takes the free lock; the stack is untouched.
    fn acquire(&mut self)
        requires
            old(self).is_idle(),
            old(self).wf(),
        ensures
            !final(self).is_idle(),
            final(self).wf(),
            final(self)@ == old(self)@,
    {
        self.state = GuardState::Held;
    }

    /// Returns the held lock; the stack is untouched.
    fn release(&mut self)
        requires
            !old(self).is_idle(),
            old(self).wf(),
        ensures
            final(self).is_idle(),
            final(self).wf(),
            final(self)@ == old(self)@,
    {
        self.state = GuardState::Idle;
    }

    /// Pushes while the lock is held; only the stack changes.
    fn push_locked(&mut self, value: u8) -> (r: Result<(), StackError>)
        requires
            !old(self).is_idle(),
            old(self).wf(),
        ensures
            !final(self).is_idle(),
            final(self).wf(),
            old(self)@.len() < CAPACITY ==> r == Ok::<(), StackError>(())
                && final(self)@ == old(self)@.push(value),
            old(self)@.len() == CAPACITY ==> r == Err::<(), StackError>(StackError::Overflow)
                && final(self)@ == old(self)@,
    {
        self.stack.push(value)
    }

    /// Pops while the lock is held; only the stack changes.
    fn pop_locked(&mut self) -> (r: Result<u8, StackError>)
        requires
            !old(self).is_idle(),
            old(self).wf(),
        ensures
            !final(self).is_idle(),
            final(self).wf(),
            old(self)@.len() > 0 ==> r == Ok::<u8, StackError>(old(self)@.last())
                && final(self)@ == old(self)@.drop_last(),
            old(self)@.len() == 0 ==> r == Err::<u8, StackError>(StackError::Underflow)
                && final(self)@ == old(self)@,
    {
        self.stack.pop()
    }
}

/// One opened device session: exactly one guarded stack, created empty at
/// open and discarded at close. Sessions share nothing with one another.
pub struct Session {
    guard: SessionGuard,
}

impl View for Session {
    type V = Seq<u8>;

    /// The session's stored bytes, bottom first.
    closed spec fn view(&self) -> Seq<u8> {
        self.guard@
    }
}

impl Session {
    /// Between requests the stack invariant holds and the lock is free.
    pub closed spec fn wf(&self) -> bool {
        self.guard.wf() && self.guard.is_idle()
    }

    /// Serializes one push: takes the lock, pushes, returns the lock.
    pub fn push(&mut self, value: u8) -> (r: Result<(), StackError>)
        requires
            old(self).wf(),
        ensures
            final(self).wf(),
            old(self)@.len() < CAPACITY ==> r == Ok::<(), StackError>(())
                && final(self)@ == old(self)@.push(value),
            old(self)@.len() == CAPACITY ==> r == Err::<(), StackError>(StackError::Overflow)
                && final(self)@ == old(self)@,
    {
        self.guard.acquire();
        let r = self.guard.push_locked(value);
        self.guard.release();
        r
    }

    /// Serializes one pop: takes the lock, pops, returns the lock.
    pub fn pop(&mut self) -> (r: Result<u8, StackError>)
        requires
            old(self).wf(),
        ensures
            final(self).wf(),
            old(self)@.len() > 0 ==> r == Ok::<u8, StackError>(old(self)@.last())
                && final(self)@ == old(self)@.drop_last(),
            old(self)@.len() == 0 ==> r == Err::<u8, StackError>(StackError::Underflow)
                && final(self)@ == old(self)@,
    {
        self.guard.acquire();
        let r = self.guard.pop_locked();
        self.guard.release();
        r
    }
}

/// Opens a session: a fresh, empty, independent stack behind a free lock.
pub fn open_session() -> (session: Session)
    ensures
        session.wf(),
        session@ == Seq::<u8>::empty(),
{
    Session { guard: SessionGuard::new() }
}

/// One recognized control request, as the external dispatcher hands it
/// over: a byte to store, or a demand for the most recent one. An
/// unrecognized request code never reaches the core.
#[derive(Clone, Copy, Debug, PartialEq, Eq, Structural)]
pub enum Request {
    /// Store the byte carried by the request.
    Insert(u8),
    /// Remove and return the most recently stored byte.
    Pop,
}

/// What a handled request yields on success: a bare acknowledgement for an
/// insert, the removed byte for a pop.
#[derive(Clone, Copy, Debug, PartialEq, Eq, Structural)]
pub enum Reply {
    /// The byte was stored.
    Inserted,
    /// The most recent byte, removed from the stack.
    Popped(u8),
}

impl Session {
    /// Routes one recognized request to the serialized push or pop and
    /// relays the outcome.
    pub fn handle(&mut self, request: Request) -> (r: Result<Reply, StackError>)
        requires
            old(self).wf(),
        ensures
            final(self).wf(),
            (match request {
                Request::Insert(value) => {
                    &&& old(self)@.len() < CAPACITY ==> r == Ok::<Reply, StackError>(
                        Reply::Inserted,
                    ) && final(self)@ == old(self)@.push(value)
                    &&& old(self)@.len() == CAPACITY ==> r == Err::<Reply, StackError>(
                        StackError::Overflow,
                    ) && final(self)@ == old(self)@
                },
                Request::Pop => {
                    &&& old(self)@.len() > 0 ==> r == Ok::<Reply, StackError>(
                        Reply::Popped(old(self)@.last()),
                    ) && final(self)@ == old(self)@.drop_last()
                    &&& old(self)@.len() == 0 ==> r == Err::<Reply, StackError>(
                        StackError::Underflow,
                    ) && final(self)@ == old(self)@
                },
            }),
    {
        match request {
            Request::Insert(value) => match self.push(value) {
                Ok(()) => Ok(Reply::Inserted),
                Err(e) => Err(e),
            },
            Request::Pop => match self.pop() {
                Ok(byte) => Ok(Reply::Popped(byte)),
                Err(e) => Err(e),
            },
        }
    }
}

} // verus!
