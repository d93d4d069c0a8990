//! The borrow-state register, shared between threads.
//!
//! [`SharedBorrowState`] keeps the register in an atomic integer, so that
//! any number of threads can work on it through a shared reference. Every
//! operation takes effect in a single atomic step, in sequentially consistent
//! order, and no thread ever waits for another: what the threads do to one
//! register is one run of events, as [`crate::ledger`] describes them.
//!
//! What the register holds at any instant is decided by all the threads that
//! work on it, so no operation here can promise what it will meet. Each
//! reports the value it met instead, and what it does with that value is
//! decided by the functions of [`crate::borrow_state`], which are proved for
//! every value.

use vstd::prelude::*;
use std::sync::atomic::AtomicUsize;
use std::sync::atomic::Ordering;
use crate::borrow_state::after_read_acquire;
use crate::borrow_state::after_write_acquire;
use crate::borrow_state::read_attempt;
use crate::borrow_state::write_outcome;
use crate::borrow_state::UNUSED;
use crate::borrow_state::WRITING;

verus! {

/// The register in an atomic integer.
pub struct SharedBorrowState {
    bits: AtomicUsize,
}

/// `AtomicUsize::fetch_update` with [`read_attempt`] as the update and
/// sequentially consistent ordering on both sides.
///
/// The standard library reads the value, asks the update for its successor
/// and installs it with a compare-and-exchange, starting over whenever
/// another thread changed the value in between. It answers `Ok` with the
/// value that was replaced if the update gave a successor for it, and `Err`
/// with the value it met if the update gave none. Believed, not proved.
#[verifier::external_body]
fn fetch_update_read(bits: &AtomicUsize) -> (outcome: Result<usize, usize>)
    ensures
        match outcome {
            Ok(previous) => after_read_acquire(previous) is Some,
            Err(previous) => after_read_acquire(previous) is None,
        },
{
    bits.fetch_update(Ordering::SeqCst, Ordering::SeqCst, read_attempt)
}

impl SharedBorrowState {
    /// A register with no live claim.
    pub fn new() -> SharedBorrowState {
        SharedBorrowState { bits: AtomicUsize::new(UNUSED) }
    }

    /// The value the register held at the instant it was read.
    pub fn load(&self) -> usize {
        self.bits.load(Ordering::SeqCst)
    }

    /// Tries to add a shared claim. `Ok` says that the claim was granted and
    /// names the value it replaced by the next one up; `Err` says that it was
    /// refused and names the value that refused it, which is the sentinel.
    ///
    /// The attempt is repeated for as long as other threads change the
    /// register under it, and is given up only against the exclusive claim.
    pub fn try_acquire_read(&self) -> (outcome: Result<usize, usize>)
        ensures
            match outcome {
                Ok(previous) => after_read_acquire(previous) is Some,
                Err(met) => after_read_acquire(met) is None,
            },
    {
        fetch_update_read(&self.bits)
    }

    /// Tries to take the exclusive claim. `Ok` says that the claim was
    /// granted and names the value it replaced by the sentinel, which is
    /// [`UNUSED`]; `Err` says that it was refused and names the value that
    /// refused it.
    ///
    /// One exchange of [`UNUSED`] for [`WRITING`] is tried and never repeated:
    /// a register that holds anything else refuses the claim as it stands.
    pub fn try_acquire_write(&self) -> (outcome: Result<usize, usize>)
        ensures
            match outcome {
                Ok(previous) => after_write_acquire(previous) is Some,
                Err(met) => after_write_acquire(met) is None,
            },
    {
        let exchanged = self.bits.compare_exchange(
            UNUSED,
            WRITING,
            Ordering::SeqCst,
            Ordering::SeqCst,
        );
        write_outcome(exchanged)
    }

    /// Ends one shared claim: takes one off the register. Returns the value
    /// the register held before, which lies in the reading zone whenever the
    /// claim that ends was in fact live.
    pub fn release_read(&self) -> (last: usize) {
        self.bits.fetch_sub(1, Ordering::SeqCst)
    }

    /// Ends the exclusive claim: sets the register to [`UNUSED`]. Returns the
    /// value the register held before, which is [`WRITING`] whenever the
    /// claim that ends was in fact live.
    pub fn release_write(&self) -> (last: usize) {
        self.bits.swap(UNUSED, Ordering::SeqCst)
    }
}

} // verus!
