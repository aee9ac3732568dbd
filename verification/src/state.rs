//! The cell's state as a plain value, and what each operation makes of it.

use vstd::prelude::*;
use crate::error::{BorrowError, LendError, ReclaimError};

verus! {

/// The two fields of a cell: the address it holds, if any, and whether a
/// borrow is outstanding.
pub struct CellState {
    pub held: Option<usize>,
    pub busy: bool,
}

impl CellState {
    /// Nothing lent, nothing borrowed.
    pub open spec fn vacant() -> CellState {
        CellState { held: None, busy: false }
    }

    /// Holding `addr`, ready to be borrowed or reclaimed.
    pub open spec fn lent(addr: usize) -> CellState {
        CellState { held: Some(addr), busy: false }
    }

    /// The address is checked out to a guard.
    pub open spec fn borrowed() -> CellState {
        CellState { held: None, busy: true }
    }

    /// A state in which the cell may rest between operations: never both an
    /// address in the slot and the busy flag set.
    pub open spec fn stable(self) -> bool {
        !(self.held is Some && self.busy)
    }

    /// One step on the slot: write `addr` if the slot is empty, else leave it.
    pub open spec fn claim_slot(self, addr: usize) -> CellState {
        if self.held is None {
            CellState { held: Some(addr), busy: self.busy }
        } else {
            self
        }
    }

    /// One step on the slot: empty it.
    pub open spec fn take_slot(self) -> CellState {
        CellState { held: None, busy: self.busy }
    }

    /// One step on the flag: set it to `busy`.
    pub open spec fn set_busy(self, busy: bool) -> CellState {
        CellState { held: self.held, busy }
    }

    /// What lending answers in this state.
    pub open spec fn lend_outcome(self) -> Result<(), LendError> {
        if self.busy {
            Err(LendError::AlreadyLent)
        } else if self.held is Some {
            Err(LendError::AlreadyHasLoan)
        } else {
            Ok(())
        }
    }

    /// The state after an attempt to lend `addr`.
    pub open spec fn after_lend(self, addr: usize) -> CellState {
        if self.lend_outcome() is Ok {
            CellState { held: Some(addr), busy: self.busy }
        } else {
            self
        }
    }

    /// What borrowing answers in this state: the address handed to the guard,
    /// or the conflict.
    pub open spec fn borrow_outcome(self) -> Result<usize, BorrowError> {
        if self.busy {
            Err(BorrowError::AlreadyBorrowed)
        } else {
            match self.held {
                Some(addr) => Ok(addr),
                None => Err(BorrowError::Unavailable),
            }
        }
    }

    /// The state after an attempt to borrow. A borrow that claims the flag and
    /// then finds no address keeps the flag.
    pub open spec fn after_borrow(self) -> CellState {
        if self.busy {
            self
        } else {
            CellState::borrowed()
        }
    }

    /// Whether a guard can be returned: its slot is free and its claim on the
    /// flag still stands.
    pub open spec fn awaits_release(self) -> bool {
        self.held is None && self.busy
    }

    /// The state after the guard for `addr` was returned.
    pub open spec fn after_release(self, addr: usize) -> CellState {
        CellState::lent(addr)
    }

    /// Whether reclaiming has an answer: a cell that is neither busy nor
    /// holding an address has nothing to reclaim.
    pub open spec fn reclaimable(self) -> bool {
        self.busy || self.held is Some
    }

    /// What reclaiming answers in this state.
    pub open spec fn reclaim_outcome(self) -> Result<(), ReclaimError> {
        if self.busy {
            Err(ReclaimError::InUse)
        } else {
            Ok(())
        }
    }

    /// The state after an attempt to reclaim.
    pub open spec fn after_reclaim(self) -> CellState {
        if self.busy {
            self
        } else {
            CellState::vacant()
        }
    }
}

} // verus!
