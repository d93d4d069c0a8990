//! The borrow-state register.
//!
//! A guarded value is protected by a single unsigned integer. Its value falls
//! in one of three zones: [`UNUSED`] while nobody holds a claim, a count of
//! readers while shared claims are live, and the all-ones sentinel
//! [`WRITING`] while the one exclusive claim is live. Every transition of the
//! register is a function of the value it held before, so the transitions are
//! stated here once, as specification functions over plain integers, and the
//! executable operations are proved against them.

use vstd::prelude::*;

verus! {

/// Register value while no claim is live.
pub const UNUSED: usize = 0;

/// Register value while the exclusive claim is live: every bit set.
pub const WRITING: usize = usize::MAX;

/// The three zones a register value can lie in.
#[derive(Clone, Copy, PartialEq, Eq, Debug, Structural)]
pub enum Zone {
    /// No claim is live.
    Unused,
    /// One or more shared claims are live; the value is their number.
    Reading,
    /// The exclusive claim is live.
    Writing,
}

/// The zone of a register value. Being a function, it places every value in
/// exactly one zone.
pub open spec fn zone(bits: usize) -> Zone {
    if bits == UNUSED {
        Zone::Unused
    } else if bits == WRITING {
        Zone::Writing
    } else {
        Zone::Reading
    }
}

/// The value a shared claim moves the register to, or `None` where it is
/// refused. A shared claim is refused only against the exclusive claim;
/// otherwise the count goes up by one.
///
/// The count has a ceiling: from one below the sentinel the next value up is
/// the sentinel itself. A register never gets there in practice, and the laws
/// that speak of counts leave that value out.
pub open spec fn after_read_acquire(bits: usize) -> Option<usize> {
    if bits == WRITING {
        None
    } else {
        Some((bits + 1) as usize)
    }
}

/// The value an exclusive claim moves the register to, or `None` where it is
/// refused. Any live claim, shared or exclusive, refuses it.
pub open spec fn after_write_acquire(bits: usize) -> Option<usize> {
    if bits == UNUSED {
        Some(WRITING)
    } else {
        None
    }
}

/// The value the register holds once one shared claim has ended.
pub open spec fn after_read_release(bits: usize) -> usize
    recommends
        zone(bits) is Reading,
{
    (bits - 1) as usize
}

/// The value the register holds once the exclusive claim has ended.
pub open spec fn after_write_release(bits: usize) -> usize
    recommends
        zone(bits) is Writing,
{
    UNUSED
}

/// Tells the zone of a register value.
pub fn classify(bits: usize) -> (z: Zone)
    ensures
        z == zone(bits),
{
    if bits == UNUSED {
        Zone::Unused
    } else if bits == WRITING {
        Zone::Writing
    } else {
        Zone::Reading
    }
}

/// Decides a shared claim from the value observed in the register: the value
/// to move the register to, or `None` when the claim is refused.
///
/// Adding one to the observed value blindly would wrap the sentinel around to
/// [`UNUSED`]; the sentinel is therefore tested first. A caller that works on
/// a register shared with others installs the answer only if the register
/// still holds `observed`, and asks again otherwise.
pub fn read_attempt(observed: usize) -> (next: Option<usize>)
    ensures
        next == after_read_acquire(observed),
{
    if observed == WRITING {
        None
    } else {
        Some(observed + 1)
    }
}

/// Decides an exclusive claim from the value the register held when the
/// exchange of [`UNUSED`] for [`WRITING`] was tried: granted only if it held
/// exactly [`UNUSED`]. No second try is ever needed, since any other value
/// already refuses the claim.
pub fn write_granted(previous: usize) -> (granted: bool)
    ensures
        granted == after_write_acquire(previous).is_some(),
{
    previous == UNUSED
}

/// A claim that is granted and then ended leaves the register as it was:
/// the register keeps no trace of the views that have come and gone.
pub proof fn lemma_release_undoes_acquire(bits: usize)
    ensures
        bits + 1 < WRITING ==> (after_read_acquire(bits) matches Some(next) && zone(next) is Reading
            && after_read_release(next) == bits),
        bits == UNUSED ==> (after_write_acquire(bits) matches Some(next) && zone(next) is Writing
            && after_write_release(next) == bits),
{
}

/// The register, held by a single owner.
pub struct BorrowState {
    bits: usize,
}

impl BorrowState {
    /// The value the register holds.
    pub closed spec fn bits(&self) -> usize {
        self.bits
    }

    /// A register with no live claim.
    pub fn new() -> (state: BorrowState)
        ensures
            state.bits() == UNUSED,
    {
        BorrowState { bits: UNUSED }
    }

    /// Reads the register.
    pub fn load(&self) -> (bits: usize)
        ensures
            bits == self.bits(),
    {
        self.bits
    }

    /// Tries to add a shared claim. Returns whether it was granted; a refused
    /// claim leaves the register as it was.
    pub fn try_acquire_read(&mut self) -> (granted: bool)
        ensures
            granted == after_read_acquire(old(self).bits()).is_some(),
            final(self).bits() == match after_read_acquire(old(self).bits()) {
                Some(next) => next,
                None => old(self).bits(),
            },
    {
        match read_attempt(self.bits) {
            Some(next) => {
                self.bits = next;
                true
            },
            None => false,
        }
    }

    /// Tries to take the exclusive claim. Returns whether it was granted; a
    /// refused claim leaves the register as it was.
    pub fn try_acquire_write(&mut self) -> (granted: bool)
        ensures
            granted == after_write_acquire(old(self).bits()).is_some(),
            final(self).bits() == match after_write_acquire(old(self).bits()) {
                Some(next) => next,
                None => old(self).bits(),
            },
    {
        if write_granted(self.bits) {
            self.bits = WRITING;
            true
        } else {
            false
        }
    }

    /// Ends one shared claim.
    pub fn release_read(&mut self)
        requires
            zone(old(self).bits()) is Reading,
        ensures
            final(self).bits() == after_read_release(old(self).bits()),
    {
        self.bits = self.bits - 1;
    }

    /// Ends the exclusive claim.
    pub fn release_write(&mut self)
        requires
            zone(old(self).bits()) is Writing,
        ensures
            final(self).bits() == after_write_release(old(self).bits()),
    {
        self.bits = UNUSED;
    }
}

/// The outcome of an exclusive claim, told from the answer of the one
/// exchange of [`UNUSED`] for [`WRITING`] that was tried. Whichever way the
/// exchange answered, it names the value the register held, and that value
/// alone decides: `Ok` of it where it grants the claim, `Err` of it where it
/// refuses.
pub open spec fn after_write_exchange(exchanged: Result<usize, usize>) -> Result<usize, usize> {
    let previous = match exchanged {
        Ok(previous) => previous,
        Err(previous) => previous,
    };
    if after_write_acquire(previous) is Some {
        Ok(previous)
    } else {
        Err(previous)
    }
}

/// Tells the outcome of an exclusive claim from the answer of the exchange
/// of [`UNUSED`] for [`WRITING`]: `Ok` with the value that was replaced when
/// the claim is granted, `Err` with the value that was met when it is not.
pub fn write_outcome(exchanged: Result<usize, usize>) -> (outcome: Result<usize, usize>)
    ensures
        outcome == after_write_exchange(exchanged),
        match outcome {
            Ok(previous) => after_write_acquire(previous) is Some,
            Err(met) => after_write_acquire(met) is None,
        },
{
    let previous = match exchanged {
        Ok(previous) => previous,
        Err(previous) => previous,
    };
    if write_granted(previous) {
        Ok(previous)
    } else {
        Err(previous)
    }
}

} // verus!
