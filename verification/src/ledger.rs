//! The ledger: the register set against the views that are live.
//!
//! The register is one number; the views are many objects. A [`Ledger`]
//! keeps both, so that what the number claims can be held against what is
//! live. Events move a ledger exactly as the operations on the register move
//! the register, and the laws below say what follows for every run of events.

use vstd::prelude::*;
use crate::borrow_state::after_read_acquire;
use crate::borrow_state::after_read_release;
use crate::borrow_state::after_write_acquire;
use crate::borrow_state::after_write_release;
use crate::borrow_state::zone;
use crate::borrow_state::Zone;
use crate::borrow_state::UNUSED;
use crate::borrow_state::WRITING;

verus! {

/// Something that can happen to a guarded value.
pub enum Event {
    /// A shared view is asked for.
    AcquireRead,
    /// The exclusive view is asked for.
    AcquireWrite,
    /// A live shared view ends.
    ReleaseRead,
    /// The live exclusive view ends.
    ReleaseWrite,
}

/// The register together with the number of live views of each kind.
pub struct Ledger {
    /// The value of the register.
    pub bits: usize,
    /// The number of live shared views.
    pub readers: nat,
    /// The number of live exclusive views.
    pub writers: nat,
}

impl Ledger {
    /// The ledger of a value that was never borrowed.
    pub open spec fn fresh() -> Ledger {
        Ledger { bits: UNUSED, readers: 0, writers: 0 }
    }

    /// Whether `event` takes effect: a request, if the register grants it; the
    /// end of a view, if such a view is live.
    pub open spec fn granted(self, event: Event) -> bool {
        match event {
            Event::AcquireRead => after_read_acquire(self.bits) is Some,
            Event::AcquireWrite => after_write_acquire(self.bits) is Some,
            Event::ReleaseRead => self.readers > 0,
            Event::ReleaseWrite => self.writers > 0,
        }
    }

    /// The ledger after `event`. An event that does not take effect changes
    /// nothing.
    pub open spec fn step(self, event: Event) -> Ledger {
        if !self.granted(event) {
            self
        } else {
            match event {
                Event::AcquireRead => Ledger {
                    bits: after_read_acquire(self.bits)->0,
                    readers: self.readers + 1,
                    writers: self.writers,
                },
                Event::AcquireWrite => Ledger {
                    bits: after_write_acquire(self.bits)->0,
                    readers: self.readers,
                    writers: self.writers + 1,
                },
                Event::ReleaseRead => Ledger {
                    bits: after_read_release(self.bits),
                    readers: (self.readers - 1) as nat,
                    writers: self.writers,
                },
                Event::ReleaseWrite => Ledger {
                    bits: after_write_release(self.bits),
                    readers: self.readers,
                    writers: (self.writers - 1) as nat,
                },
            }
        }
    }

    /// The ledger after a run of events, first to last.
    pub open spec fn run(self, events: Seq<Event>) -> Ledger
        decreases events.len(),
    {
        if events.len() == 0 {
            self
        } else {
            self.run(events.drop_last()).step(events.last())
        }
    }

    /// The register tells the truth about the views: either no writer is
    /// live and the register counts the readers, or exactly one writer is
    /// live, no reader is, and the register holds the sentinel.
    pub open spec fn faithful(self) -> bool {
        ||| self.writers == 0 && self.bits == self.readers && self.bits < WRITING
        ||| self.writers == 1 && self.readers == 0 && self.bits == WRITING
    }
}

/// A value that was never borrowed starts out with a faithful ledger.
pub proof fn lemma_fresh_is_faithful()
    ensures
        Ledger::fresh().faithful(),
{
}

/// In a faithful ledger the zone of the register tells which views are
/// live: none, readers only, or the one writer.
pub proof fn lemma_zone_tells_the_views(ledger: Ledger)
    requires
        ledger.faithful(),
    ensures
        zone(ledger.bits) is Unused <==> ledger.readers == 0 && ledger.writers == 0,
        zone(ledger.bits) is Reading <==> ledger.readers > 0,
        zone(ledger.bits) is Writing <==> ledger.writers == 1,
{
}

/// One event keeps a faithful ledger faithful, as long as the reader count
/// stays below the sentinel.
pub proof fn lemma_step_keeps_faithful(ledger: Ledger, event: Event)
    requires
        ledger.faithful(),
        event is AcquireRead ==> ledger.readers + 1 < WRITING,
    ensures
        ledger.step(event).faithful(),
        ledger.step(event).readers <= ledger.readers + 1,
{
}

/// At every instant of a run that starts from a faithful ledger, the ledger
/// is faithful: at most one writer is live, never beside a reader, and while
/// none is, the register equals the number of live readers.
pub proof fn lemma_run_keeps_faithful(ledger: Ledger, events: Seq<Event>)
    requires
        ledger.faithful(),
        ledger.readers + events.len() < WRITING,
    ensures
        forall|i: int|
            0 <= i <= events.len() ==> (#[trigger] ledger.run(events.take(i))).faithful(),
        forall|i: int|
            0 <= i <= events.len() ==> (#[trigger] ledger.run(events.take(i))).readers
                <= ledger.readers + i,
    decreases events.len(),
{
    assert forall|i: int| 0 <= i <= events.len() implies {
        &&& (#[trigger] ledger.run(events.take(i))).faithful()
        &&& ledger.run(events.take(i)).readers <= ledger.readers + i
    } by {
        if i > 0 {
            let head = events.take(i - 1);
            lemma_run_keeps_faithful(ledger, head);
            assert(head.take(i - 1) == head);
            assert(events.take(i).drop_last() == head);
            assert(events.take(i).last() == events[i - 1]);
            lemma_step_keeps_faithful(ledger.run(head), events[i - 1]);
        } else {
            assert(events.take(0).len() == 0);
        }
    }
}

/// While no exclusive view is asked for, no request for a shared view is
/// refused, and at every instant the register equals the number of live
/// shared views.
pub proof fn lemma_readers_never_refused(ledger: Ledger, events: Seq<Event>)
    requires
        ledger.faithful(),
        ledger.writers == 0,
        forall|i: int| 0 <= i < events.len() ==> !(events[i] is AcquireWrite),
        ledger.readers + events.len() < WRITING,
    ensures
        forall|i: int|
            0 <= i <= events.len() ==> {
                let now = #[trigger] ledger.run(events.take(i));
                now.writers == 0 && now.bits == now.readers
            },
        forall|i: int|
            0 <= i < events.len() && events[i] is AcquireRead ==> (#[trigger] ledger.run(
                events.take(i),
            )).granted(Event::AcquireRead),
    decreases events.len(),
{
    lemma_run_keeps_faithful(ledger, events);
    assert forall|i: int| 0 <= i <= events.len() implies (#[trigger] ledger.run(
        events.take(i),
    )).writers == 0 by {
        if i > 0 {
            let head = events.take(i - 1);
            lemma_readers_never_refused(ledger, head);
            assert(head.take(i - 1) == head);
            assert(ledger.run(head.take(i - 1)).writers == 0);
            assert(events.take(i).drop_last() == head);
            assert(events.take(i).last() == events[i - 1]);
            assert(ledger.run(events.take(i)) == ledger.run(head).step(events[i - 1]));
        } else {
            assert(events.take(0).len() == 0);
        }
    }
}

/// At most one exclusive view is live, and while it is, every further
/// request for the exclusive view is refused and changes nothing.
pub proof fn lemma_one_writer_at_most(ledger: Ledger)
    requires
        ledger.faithful(),
    ensures
        ledger.writers <= 1,
        ledger.writers == 1 ==> !ledger.granted(Event::AcquireWrite) && ledger.step(
            Event::AcquireWrite,
        ) == ledger,
{
}

/// While the exclusive view is live, every request for a shared view is
/// refused and changes nothing.
pub proof fn lemma_writer_refuses_readers(ledger: Ledger)
    requires
        ledger.faithful(),
        ledger.writers == 1,
    ensures
        !ledger.granted(Event::AcquireRead),
        ledger.step(Event::AcquireRead) == ledger,
{
}

/// While a shared view is live, every request for the exclusive view is
/// refused and changes nothing.
pub proof fn lemma_readers_refuse_writer(ledger: Ledger)
    requires
        ledger.faithful(),
        ledger.readers > 0,
    ensures
        !ledger.granted(Event::AcquireWrite),
        ledger.step(Event::AcquireWrite) == ledger,
{
}

/// The end of the exclusive view frees the value at once: the very next
/// request, of either kind, is granted.
pub proof fn lemma_write_release_reopens(ledger: Ledger)
    requires
        ledger.faithful(),
        ledger.writers == 1,
    ensures
        ledger.step(Event::ReleaseWrite) == Ledger::fresh(),
        ledger.step(Event::ReleaseWrite).granted(Event::AcquireWrite),
        ledger.step(Event::ReleaseWrite).granted(Event::AcquireRead),
{
}

/// The end of the last shared view frees the value at once: the very next
/// request for the exclusive view is granted.
pub proof fn lemma_last_read_release_reopens(ledger: Ledger)
    requires
        ledger.faithful(),
        ledger.readers == 1,
    ensures
        ledger.step(Event::ReleaseRead) == Ledger::fresh(),
        ledger.step(Event::ReleaseRead).granted(Event::AcquireWrite),
{
}

} // verus!
