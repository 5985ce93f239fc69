//! The lock protocol of a mutex built on the kernel's "futex" call.
//!
//! The lock word is shared with other threads, so nothing can be said of
//! what a read of it returns. What is fixed, and stated here, is what the
//! lock does with each value it reads, and which kernel call it asks for
//! when it has to wait or to wake a waiter.

use vstd::prelude::*;
use core::sync::atomic::AtomicU32;
use core::sync::atomic::Ordering;
use crate::sys::call::{Op, Syscall};
use crate::sys::types::{FUTEX_PRIVATE, FUTEX_WAIT, FUTEX_WAKE};

verus! {

/// The lock word of a free lock.
pub const UNLOCKED: u32 = 0;

/// The lock word of a lock that is held with no other thread waiting.
pub const LOCKED: u32 = 1;

/// The lock word of a lock that is held with other threads waiting.
pub const CONTENDED: u32 = 2;

/// How many times the lock word is read again before a thread gives up
/// spinning on a held lock.
pub const SPINS: u32 = 100;

/// The futex operation that waits for the lock word to change: private to
/// the process where the lock is only used within one.
pub open spec fn spec_wait_op(single_process: bool) -> i32 {
    if single_process {
        128
    } else {
        0
    }
}

/// The futex operation that wakes waiters: private to the process where
/// the lock is only used within one.
pub open spec fn spec_wake_op(single_process: bool) -> i32 {
    if single_process {
        129
    } else {
        1
    }
}

/// Whether a thread that read `state` with `spin` reads left goes on
/// spinning: only while the lock is held uncontended and reads are left.
pub open spec fn spec_keeps_spinning(state: u32, spin: u32) -> bool {
    state == LOCKED && spin != 0
}

/// Decides whether to go on spinning.
pub fn keeps_spinning(state: u32, spin: u32) -> (b: bool)
    ensures
        b == spec_keeps_spinning(state, spin),
{
    state == LOCKED && spin != 0
}

/// Whether a thread that last read `state` has to mark the lock as
/// contended before it waits: not if it already is.
pub fn must_mark(state: u32) -> (b: bool)
    ensures
        b == (state != CONTENDED),
{
    state != CONTENDED
}

/// Whether the previous lock word says that the lock was free, so that the
/// thread that replaced it now holds the lock.
pub fn took_lock(previous: u32) -> (b: bool)
    ensures
        b == (previous == UNLOCKED),
{
    previous == UNLOCKED
}

/// Whether the previous lock word says that a thread is waiting, so that
/// the thread that released the lock has to wake one.
pub fn needs_wake(previous: u32) -> (b: bool)
    ensures
        b == (previous == CONTENDED),
{
    previous == CONTENDED
}

/// Whether the exchange of "free" for "held" went through, so that the
/// thread that made it holds the lock.
pub fn exchange_took_lock(exchange: Result<u32, u32>) -> (b: bool)
    ensures
        b == (exchange is Ok),
{
    match exchange {
        Ok(_) => true,
        Err(_) => false,
    }
}

/// The lock word that a failed exchange of "free" for "held" found: the
/// state with which a thread goes on after the exchange; none where the
/// exchange went through and the lock is taken.
pub fn found_after_exchange(exchange: Result<u32, u32>) -> (found: Option<u32>)
    ensures
        found == match exchange {
            Ok(_) => None::<u32>,
            Err(state) => Some(state),
        },
{
    match exchange {
        Ok(_) => None,
        Err(state) => Some(state),
    }
}

/// Whether a thread that read `state` after spinning first tries to take
/// the lock without marking it as contended: only where the lock looks
/// free.
pub fn looks_free(state: u32) -> (b: bool)
    ensures
        b == (state == UNLOCKED),
{
    state == UNLOCKED
}

/// What an attempt to take the lock comes to.
#[derive(Debug)]
pub enum LockStep {
    /// The lock is held by the caller.
    Locked,
    /// The lock is held by another thread and marked as contended: the
    /// host is to make this call, which waits for the lock word to change,
    /// and then go on with [`Futex::lock_woken`].
    Wait(Syscall),
}

/// Calls `core::hint::spin_loop`, which tells the processor that the thread
/// is in a busy-wait loop. The call returns nothing and nothing is claimed
/// of it.
#[verifier::external_body]
fn spin_hint() {
    core::hint::spin_loop()
}

/// A lock word together with the protocol that makes a lock of it.
pub struct Futex<const SINGLE_PROCESS: bool> {
    futex_word: AtomicU32,
}

impl<const SINGLE_PROCESS: bool> Futex<SINGLE_PROCESS> {
    /// The lock word of this lock.
    pub closed spec fn spec_word(&self) -> AtomicU32 {
        self.futex_word
    }

    /// A free lock. The lock word is shared memory of which nothing is
    /// stated: that it starts as [`UNLOCKED`] is what the constructor hands
    /// to the atomic, not a clause.
    pub fn new() -> Self {
        Futex { futex_word: AtomicU32::new(UNLOCKED) }
    }

    /// The lock word, whose address the host hands to the kernel with each
    /// futex call.
    pub fn word(&self) -> (w: &AtomicU32)
        ensures
            *w == self.spec_word(),
    {
        &self.futex_word
    }

    /// The futex operation that waits for the lock word to change.
    pub fn wait_op() -> (op: i32)
        ensures
            op == spec_wait_op(SINGLE_PROCESS),
    {
        if SINGLE_PROCESS {
            FUTEX_WAIT + FUTEX_PRIVATE
        } else {
            FUTEX_WAIT
        }
    }

    /// The futex operation that wakes waiters.
    pub fn wake_op() -> (op: i32)
        ensures
            op == spec_wake_op(SINGLE_PROCESS),
    {
        if SINGLE_PROCESS {
            FUTEX_WAKE + FUTEX_PRIVATE
        } else {
            FUTEX_WAKE
        }
    }

    /// The address of the lock word is the host's to know; the call names
    /// the operation and the value.
    pub fn futex_wait(&self, want: u32) -> (c: Syscall)
        ensures
            c.op == (Op::Futex { op: spec_wait_op(SINGLE_PROCESS), val: want }),
            c.data@ == Seq::<u8>::empty(),
    {
        Syscall::plain(Op::Futex { op: Self::wait_op(), val: want })
    }

    /// The call that wakes one waiter.
    pub fn futex_wake(&self) -> (c: Syscall)
        ensures
            c.op == (Op::Futex { op: spec_wake_op(SINGLE_PROCESS), val: 1 }),
            c.data@ == Seq::<u8>::empty(),
    {
        Syscall::plain(Op::Futex { op: Self::wake_op(), val: 1 })
    }

    /// What marking the lock as contended came to, given the lock word
    /// that the mark replaced: the lock is taken where the word said
    /// "free"; otherwise the thread waits for the word to change from
    /// "contended".
    pub fn after_mark(&self, previous: u32) -> (step: LockStep)
        ensures
            step is Locked <==> previous == UNLOCKED,
            step matches LockStep::Wait(c) ==> c.op == (Op::Futex {
                op: spec_wait_op(SINGLE_PROCESS),
                val: CONTENDED,
            }) && c.data@ == Seq::<u8>::empty(),
    {
        if took_lock(previous) {
            // It went from free to contended: the lock is taken.
            LockStep::Locked
        } else {
            LockStep::Wait(self.futex_wait(CONTENDED))
        }
    }

    /// What releasing the lock came to, given the lock word that the
    /// release replaced: where the word said "contended", the call that
    /// wakes one waiter; otherwise nothing.
    pub fn after_release(&self, previous: u32) -> (c: Option<Syscall>)
        ensures
            c is Some <==> previous == CONTENDED,
            c is Some ==> c->Some_0.op == (Op::Futex {
                op: spec_wake_op(SINGLE_PROCESS),
                val: 1,
            }) && c->Some_0.data@ == Seq::<u8>::empty(),
    {
        if needs_wake(previous) {
            Some(self.wake())
        } else {
            None
        }
    }

    /// Takes the lock if it is free; says whether it did. The answer is
    /// that of [`exchange_took_lock`] on what the exchange of "free" for
    /// "held" on the lock word returned.
    pub fn try_lock(&self) -> bool {
        exchange_took_lock(
            self.futex_word.compare_exchange(
                UNLOCKED,
                LOCKED,
                Ordering::Acquire,
                Ordering::Relaxed,
            ),
        )
    }

    /// Takes the lock, or says which call to wait with: the wait for the
    /// lock word to change from "contended". Where the exchange of "free"
    /// for "held" goes through, the lock is taken; otherwise the answer is
    /// that of [`Self::lock_contended`].
    pub fn lock(&self) -> (step: LockStep)
        ensures
            step matches LockStep::Wait(c) ==> c.op == (Op::Futex {
                op: spec_wait_op(SINGLE_PROCESS),
                val: CONTENDED,
            }) && c.data@ == Seq::<u8>::empty(),
    {
        match found_after_exchange(
            self.futex_word.compare_exchange(
                UNLOCKED,
                LOCKED,
                Ordering::Acquire,
                Ordering::Relaxed,
            ),
        ) {
            Some(_) => self.lock_contended(),
            None => LockStep::Locked,
        }
    }

    /// Takes a lock that was found held. Spins first in case the lock is
    /// released quickly; if it then looks free, tries to take it without
    /// marking it as contended; otherwise, or where that try fails, goes on
    /// as [`Self::mark_or_wait`] says with the state last read.
    pub fn lock_contended(&self) -> (step: LockStep)
        ensures
            step matches LockStep::Wait(c) ==> c.op == (Op::Futex {
                op: spec_wait_op(SINGLE_PROCESS),
                val: CONTENDED,
            }) && c.data@ == Seq::<u8>::empty(),
    {
        let mut state: u32 = self.spin();
        if looks_free(state) {
            match found_after_exchange(
                self.futex_word.compare_exchange(
                    UNLOCKED,
                    LOCKED,
                    Ordering::Acquire,
                    Ordering::Relaxed,
                ),
            ) {
                None => {
                    return LockStep::Locked;
                },
                Some(found) => {
                    state = found;
                },
            }
        }
        self.mark_or_wait(state)
    }

    /// Goes on after the wait has returned, whatever it returned: spins
    /// again, then goes on as [`Self::mark_or_wait`] says with the state
    /// last read.
    pub fn lock_woken(&self) -> (step: LockStep)
        ensures
            step matches LockStep::Wait(c) ==> c.op == (Op::Futex {
                op: spec_wait_op(SINGLE_PROCESS),
                val: CONTENDED,
            }) && c.data@ == Seq::<u8>::empty(),
    {
        let state: u32 = self.spin();
        self.mark_or_wait(state)
    }

    /// Goes on with the lock word last read as `state`. Where `state` says
    /// that the lock is contended already, the thread waits without
    /// touching the lock word. Otherwise it marks the lock as contended,
    /// and the answer is that of [`Self::after_mark`] on the lock word that
    /// the mark replaced.
    fn mark_or_wait(&self, state: u32) -> (step: LockStep)
        ensures
            state == CONTENDED ==> step is Wait,
            step matches LockStep::Wait(c) ==> c.op == (Op::Futex {
                op: spec_wait_op(SINGLE_PROCESS),
                val: CONTENDED,
            }) && c.data@ == Seq::<u8>::empty(),
    {
        if must_mark(state) {
            self.after_mark(self.futex_word.swap(CONTENDED, Ordering::Acquire))
        } else {
            LockStep::Wait(self.futex_wait(CONTENDED))
        }
    }

    /// Reads the lock word until the lock is free or contended, or until
    /// the reads run out; returns what was last read. Whether to read
    /// again is what [`keeps_spinning`] says of each state read.
    pub fn spin(&self) -> u32 {
        let mut spin: u32 = SPINS;
        loop
            invariant
                spin <= SPINS,
            decreases spin,
        {
            let state: u32 = self.futex_word.load(Ordering::Relaxed);
            if !keeps_spinning(state, spin) {
                return state;
            }
            spin_hint();
            spin -= 1;
        }
    }

    /// Releases the lock. Where a thread was waiting, hands out the call
    /// that wakes one: that thread marks the lock as contended again when
    /// it takes it, so that the others are woken in their turn. The answer
    /// is that of [`Self::after_release`] on the lock word that the release
    /// replaced.
    pub fn unlock(&self) -> (c: Option<Syscall>)
        ensures
            c is Some ==> c->Some_0.op == (Op::Futex {
                op: spec_wake_op(SINGLE_PROCESS),
                val: 1,
            }) && c->Some_0.data@ == Seq::<u8>::empty(),
    {
        self.after_release(self.futex_word.swap(UNLOCKED, Ordering::Release))
    }

    /// The call that wakes one waiter.
    pub fn wake(&self) -> (c: Syscall)
        ensures
            c.op == (Op::Futex { op: spec_wake_op(SINGLE_PROCESS), val: 1 }),
            c.data@ == Seq::<u8>::empty(),
    {
        self.futex_wake()
    }
}

} // verus!
