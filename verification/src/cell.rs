//! The lending cell and the guard that a borrow hands out.

use vstd::prelude::*;
use crate::error::{BorrowError, Error, LendError, ReclaimError};
use crate::state::CellState;

verus! {

/// The cell: the slot for the lent address and the busy flag.
///
/// Each operation touches one field at a time, in the order in which a shared
/// cell would: the slot and the flag are never written together.
pub struct FfiCell {
    held: Option<usize>,
    busy: bool,
}

/// The right to use the address that a borrow took out of a cell. It ends only
/// by [`FfiGuard::release`].
pub struct FfiGuard {
    addr: usize,
}

impl View for FfiCell {
    type V = CellState;

    closed spec fn view(&self) -> CellState {
        CellState { held: self.held, busy: self.busy }
    }
}

impl View for FfiGuard {
    type V = usize;

    /// The address that the guard owns.
    closed spec fn view(&self) -> usize {
        self.addr
    }
}

impl FfiGuard {
    /// The address that the guard owns.
    pub fn address(&self) -> (addr: usize)
        ensures
            addr == self@,
    {
        self.addr
    }

    /// Ends the borrow: puts the address back into the slot of `cell`, then
    /// clears its busy flag. The slot must be free and the flag set, as the
    /// borrow left them.
    pub fn release(self, cell: &mut FfiCell)
        requires
            old(cell)@.awaits_release(),
        ensures
            final(cell)@ == old(cell)@.after_release(self@),
    {
        let _ = cell.claim_slot(self.addr);
        let _ = cell.swap_busy(false);
    }
}

impl FfiCell {
    /// A cell that holds nothing and is not busy.
    pub fn new() -> (cell: FfiCell)
        ensures
            cell@ == CellState::vacant(),
    {
        FfiCell { held: None, busy: false }
    }

    /// The address in the slot, if there is one.
    pub fn held_address(&self) -> (held: Option<usize>)
        ensures
            held == self@.held,
    {
        self.held
    }

    /// Whether a borrow is outstanding.
    pub fn is_busy(&self) -> (busy: bool)
        ensures
            busy == self@.busy,
    {
        self.busy
    }

    /// Writes `addr` into the slot if the slot is free, and says what the slot
    /// held before otherwise.
    fn claim_slot(&mut self, addr: usize) -> (r: Result<(), usize>)
        ensures
            r == match old(self)@.held {
                Some(other) => Err::<(), usize>(other),
                None => Ok(()),
            },
            final(self)@ == old(self)@.claim_slot(addr),
    {
        match self.held {
            Some(other) => Err(other),
            None => {
                self.held = Some(addr);
                Ok(())
            },
        }
    }

    /// Empties the slot and hands out what it held.
    fn take_slot(&mut self) -> (prev: Option<usize>)
        ensures
            prev == old(self)@.held,
            final(self)@ == old(self)@.take_slot(),
    {
        let prev = self.held;
        self.held = None;
        prev
    }

    /// Sets the busy flag and hands out what it was.
    fn swap_busy(&mut self, busy: bool) -> (prev: bool)
        ensures
            prev == old(self)@.busy,
            final(self)@ == old(self)@.set_busy(busy),
    {
        let prev = self.busy;
        self.busy = busy;
        prev
    }

    /// Lends `addr` to the cell.
    ///
    /// The look at the busy flag comes first and only words the refusal; the
    /// claim on the slot is what decides.
    pub fn try_lend(&mut self, addr: usize) -> (r: Result<(), LendError>)
        ensures
            r == old(self)@.lend_outcome(),
            final(self)@ == old(self)@.after_lend(addr),
    {
        if self.is_busy() {
            return Err(LendError::AlreadyLent);
        }
        match self.claim_slot(addr) {
            Ok(()) => Ok(()),
            Err(_) => Err(LendError::AlreadyHasLoan),
        }
    }

    /// Lends `addr` to a cell that can take it.
    pub fn lend(&mut self, addr: usize)
        requires
            old(self)@.lend_outcome() is Ok,
        ensures
            final(self)@ == CellState::lent(addr),
    {
        let _ = self.try_lend(addr);
    }

    /// Claims the busy flag, then takes the address out of the slot and hands
    /// it to a guard.
    pub fn try_borrow(&mut self) -> (r: Result<FfiGuard, BorrowError>)
        ensures
            match r {
                Ok(guard) => old(self)@.borrow_outcome() == Ok::<usize, BorrowError>(guard@),
                Err(e) => old(self)@.borrow_outcome() == Err::<usize, BorrowError>(e),
            },
            final(self)@ == old(self)@.after_borrow(),
    {
        if self.swap_busy(true) {
            Err(BorrowError::AlreadyBorrowed)
        } else {
            match self.take_slot() {
                Some(addr) => Ok(FfiGuard { addr }),
                None => Err(BorrowError::Unavailable),
            }
        }
    }

    /// Borrows from a cell that holds an address and is not busy.
    pub fn borrow(&mut self) -> (guard: FfiGuard)
        requires
            old(self)@.borrow_outcome() is Ok,
        ensures
            old(self)@ == CellState::lent(guard@),
            final(self)@ == CellState::borrowed(),
    {
        self.try_borrow().unwrap()
    }

    /// Withdraws the address from the cell, unless a borrow is outstanding.
    pub fn try_reclaim(&mut self) -> (r: Result<(), ReclaimError>)
        requires
            old(self)@.reclaimable(),
        ensures
            r == old(self)@.reclaim_outcome(),
            final(self)@ == old(self)@.after_reclaim(),
    {
        if self.is_busy() {
            Err(ReclaimError::InUse)
        } else {
            let _ = self.take_slot();
            Ok(())
        }
    }

    /// Withdraws the address from a cell that holds one and is not busy.
    pub fn reclaim(&mut self)
        requires
            old(self)@.held is Some,
            !old(self)@.busy,
        ensures
            final(self)@ == CellState::vacant(),
    {
        let _ = self.try_reclaim();
    }

    /// Lends `addr`, runs `f` on the cell, and reclaims on the way out,
    /// whatever `f` returned. Where the cell cannot take the loan, `f` is not
    /// run and the cell is left as it was.
    ///
    /// `f` must leave the cell holding an address and not busy: a guard that
    /// it took must have been released.
    pub fn try_run<R, F: FnOnce(&mut FfiCell) -> R>(&mut self, addr: usize, f: F) -> (r: Result<
        R,
        Error,
    >)
        requires
            old(self)@.lend_outcome() is Ok ==> forall|c: &mut FfiCell|
                (*c)@ == CellState::lent(addr) ==> f.requires((c,)),
            old(self)@.lend_outcome() is Ok ==> forall|c: &mut FfiCell, out: R|
                (*c)@ == CellState::lent(addr) && f.ensures((c,), out) ==> (*final(c))@.held is Some
                    && !(*final(c))@.busy,
        ensures
            r is Ok <==> old(self)@.lend_outcome() is Ok,
            r matches Ok(out) ==> exists|c: &mut FfiCell|
                (*c)@ == CellState::lent(addr) && #[trigger] f.ensures((c,), out),
            r is Ok ==> final(self)@ == CellState::vacant(),
            r matches Err(e) ==> e == Error::LendError(old(self)@.lend_outcome()->Err_0),
            r is Err ==> final(self)@ == old(self)@,
    {
        match self.try_lend(addr) {
            Err(e) => Err(Error::from(e)),
            Ok(()) => {
                let out = f(self);
                let ghost returned = out;
                self.reclaim();
                let r = Ok(out);
                assert(r->Ok_0 == returned);
                r
            },
        }
    }

    /// Lends `addr` to a cell that can take it, runs `f` on the cell, and
    /// reclaims on the way out.
    pub fn run<R, F: FnOnce(&mut FfiCell) -> R>(&mut self, addr: usize, f: F) -> (out: R)
        requires
            old(self)@.lend_outcome() is Ok,
            forall|c: &mut FfiCell| (*c)@ == CellState::lent(addr) ==> f.requires((c,)),
            forall|c: &mut FfiCell, out: R|
                (*c)@ == CellState::lent(addr) && f.ensures((c,), out) ==> (*final(c))@.held is Some
                    && !(*final(c))@.busy,
        ensures
            exists|c: &mut FfiCell| (*c)@ == CellState::lent(addr) && #[trigger] f.ensures((c,), out),
            final(self)@ == CellState::vacant(),
    {
        self.try_run(addr, f).unwrap()
    }
}

impl Default for FfiCell {
    fn default() -> (cell: FfiCell)
        ensures
            cell@ == CellState::vacant(),
    {
        FfiCell::new()
    }
}

} // verus!
