//! A single-flight slot for a lazily created chat thread.

use vstd::prelude::*;

verus! {

/// What the slot holds.
#[derive(Clone, Copy, Debug, PartialEq, Eq, Structural)]
pub enum Slot {
    /// No thread yet, and nobody is creating one.
    Empty,
    /// One caller is creating the thread; the others wait for it.
    Creating,
    /// The thread exists and is reused from now on.
    Ready(u64),
}

/// What a caller that needs the thread is told to do.
#[derive(Clone, Copy, Debug, PartialEq, Eq, Structural)]
pub enum Lookup {
    /// The thread exists: use it, nothing remote happens.
    Hit(u64),
    /// This caller creates the thread.
    Create,
    /// Another caller is creating the thread: wait for its outcome.
    Wait,
}

/// The slot after one more caller asked for the thread.
pub open spec fn slot_after_acquire(slot: Slot) -> Slot {
    match slot {
        Slot::Empty => Slot::Creating,
        _ => slot,
    }
}

/// What the caller that asks for the thread is told.
pub open spec fn lookup_of(slot: Slot) -> Lookup {
    match slot {
        Slot::Empty => Lookup::Create,
        Slot::Creating => Lookup::Wait,
        Slot::Ready(id) => Lookup::Hit(id),
    }
}

/// The slot after a creation ended with a thread: the first thread that was
/// ever recorded stays.
pub open spec fn slot_after_created(slot: Slot, id: u64) -> Slot {
    match slot {
        Slot::Ready(_) => slot,
        _ => Slot::Ready(id),
    }
}

/// The slot after the creating caller failed: free for another attempt.
pub open spec fn slot_after_failed(slot: Slot) -> Slot {
    match slot {
        Slot::Creating => Slot::Empty,
        _ => slot,
    }
}

/// What `n` callers are told that ask for the thread one after another while
/// no creation ends.
pub open spec fn lookups(slot: Slot, n: nat) -> Seq<Lookup>
    decreases n,
{
    if n == 0 {
        Seq::empty()
    } else {
        seq![lookup_of(slot)] + lookups(slot_after_acquire(slot), (n - 1) as nat)
    }
}

/// The slot after `n` callers asked for the thread while no creation ended.
pub open spec fn slot_after_lookups(slot: Slot, n: nat) -> Slot
    decreases n,
{
    if n == 0 {
        slot
    } else {
        slot_after_lookups(slot_after_acquire(slot), (n - 1) as nat)
    }
}

/// How many of the callers were told to create the thread.
pub open spec fn creations(told: Seq<Lookup>) -> nat
    decreases told.len(),
{
    if told.len() == 0 {
        0
    } else {
        creations(told.drop_last()) + if told.last() == Lookup::Create {
            1nat
        } else {
            0nat
        }
    }
}

/// A lazily created thread, created at most once however many callers need
/// it at the same time.
pub struct ThreadCache {
    slot: Slot,
}

impl View for ThreadCache {
    type V = Slot;

    closed spec fn view(&self) -> Slot {
        self.slot
    }
}

impl ThreadCache {
    /// An empty cache.
    pub fn new() -> (cache: Self)
        ensures
            cache@ == Slot::Empty,
    {
        ThreadCache { slot: Slot::Empty }
    }

    /// Asks for the thread on behalf of one caller.
    pub fn acquire(&mut self) -> (lookup: Lookup)
        ensures
            lookup == lookup_of(old(self)@),
            final(self)@ == slot_after_acquire(old(self)@),
    {
        match self.slot {
            Slot::Empty => {
                self.slot = Slot::Creating;
                Lookup::Create
            },
            Slot::Creating => Lookup::Wait,
            Slot::Ready(id) => Lookup::Hit(id),
        }
    }

    /// The thread, once it exists.
    pub fn get(&self) -> (thread: Option<u64>)
        ensures
            thread == match self@ {
                Slot::Ready(id) => Some(id),
                _ => None::<u64>,
            },
    {
        match self.slot {
            Slot::Ready(id) => Some(id),
            _ => None,
        }
    }

    /// Records that a creation ended with thread `id`, and returns the
    /// thread to use: the one recorded first.
    pub fn created(&mut self, id: u64) -> (thread: u64)
        ensures
            final(self)@ == slot_after_created(old(self)@, id),
            final(self)@ == Slot::Ready(thread),
    {
        match self.slot {
            Slot::Ready(first) => first,
            _ => {
                self.slot = Slot::Ready(id);
                id
            },
        }
    }

    /// Records that the creating caller failed: the next caller tries anew.
    pub fn failed(&mut self)
        ensures
            final(self)@ == slot_after_failed(old(self)@),
    {
        match self.slot {
            Slot::Creating => {
                self.slot = Slot::Empty;
            },
            _ => {},
        }
    }
}

/// Creations are counted part by part.
proof fn lemma_creations_split(head: Seq<Lookup>, tail: Seq<Lookup>)
    ensures
        creations(head + tail) == creations(head) + creations(tail),
    decreases tail.len(),
{
    if tail.len() == 0 {
        assert(head + tail =~= head);
    } else {
        lemma_creations_split(head, tail.drop_last());
        assert((head + tail).drop_last() =~= head + tail.drop_last());
    }
}

/// One caller that is told `told` counts as a creation exactly when it is
/// told to create.
proof fn lemma_creations_one(told: Lookup)
    ensures
        creations(seq![told]) == if told == Lookup::Create {
            1nat
        } else {
            0nat
        },
{
    assert(seq![told].drop_last() =~= Seq::<Lookup>::empty());
    assert(creations(Seq::<Lookup>::empty()) == 0);
}

/// Once the slot is no longer empty, callers leave it as it is, and each of
/// them is told the same.
proof fn lemma_later_lookups(slot: Slot, n: nat)
    requires
        slot != Slot::Empty,
    ensures
        slot_after_lookups(slot, n) == slot,
        lookups(slot, n).len() == n,
        forall|i: int| 0 <= i < n ==> lookups(slot, n)[i] == lookup_of(slot),
        creations(lookups(slot, n)) == 0,
    decreases n,
{
    if n > 0 {
        let rest = lookups(slot, (n - 1) as nat);
        lemma_later_lookups(slot, (n - 1) as nat);
        lemma_creations_split(seq![lookup_of(slot)], rest);
        lemma_creations_one(lookup_of(slot));
    }
}

/// Single flight. Of any number of callers that need the thread while none
/// exists and no creation has ended, exactly one is told to create it, the
/// first; all the others are told to wait for that creation.
pub proof fn lemma_single_flight(n: nat)
    requires
        n >= 1,
    ensures
        lookups(Slot::Empty, n).len() == n,
        lookups(Slot::Empty, n)[0] == Lookup::Create,
        forall|i: int| 1 <= i < n ==> lookups(Slot::Empty, n)[i] == Lookup::Wait,
        creations(lookups(Slot::Empty, n)) == 1,
        slot_after_lookups(Slot::Empty, n) == Slot::Creating,
{
    let told = lookups(Slot::Empty, n);
    let rest = lookups(Slot::Creating, (n - 1) as nat);
    lemma_later_lookups(Slot::Creating, (n - 1) as nat);
    assert(told =~= seq![Lookup::Create] + rest);
    assert forall|i: int| 1 <= i < n implies told[i] == Lookup::Wait by {
        assert(told[i] == rest[i - 1]);
    }
    lemma_creations_split(seq![Lookup::Create], rest);
    lemma_creations_one(Lookup::Create);
}

/// One outcome for all. When the creation ends with a thread, every caller
/// of that flight, whichever thread it reports and in whatever order the
/// callers go on, is handed the thread that was recorded first, and so is
/// every caller that comes later.
pub proof fn lemma_one_thread_for_all(slot: Slot, first: u64, later: u64)
    ensures
        slot_after_created(slot_after_created(slot, first), later) == slot_after_created(
            slot,
            first,
        ),
        slot_after_created(slot, first) is Ready,
        slot is Ready ==> slot_after_created(slot, first) == slot,
        lookup_of(slot_after_created(slot, first)) is Hit,
        slot_after_acquire(slot_after_created(slot, first)) == slot_after_created(slot, first),
        slot_after_failed(slot_after_created(slot, first)) == slot_after_created(slot, first),
{
}

/// A failed creation is not kept: the slot is empty again, and the next
/// caller is told to create the thread.
pub proof fn lemma_failure_is_not_kept(n: nat)
    requires
        n >= 1,
    ensures
        slot_after_failed(slot_after_lookups(Slot::Empty, n)) == Slot::Empty,
        lookup_of(slot_after_failed(slot_after_lookups(Slot::Empty, n))) == Lookup::Create,
{
    lemma_single_flight(n);
}

} // verus!
