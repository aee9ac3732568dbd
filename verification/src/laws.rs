//! What holds of the cell's operations taken one after another.
//!
//! Each law is stated over [`CellState`] and the transition functions that the
//! operations of [`crate::FfiCell`] promise to follow.

use vstd::prelude::*;
use crate::error::{BorrowError, LendError, ReclaimError};
use crate::state::CellState;

verus! {

/// A vacant cell holds nothing, is not busy, and takes any loan.
pub proof fn lemma_vacant_is_idle()
    ensures
        CellState::vacant().held is None,
        !CellState::vacant().busy,
        CellState::vacant().stable(),
        CellState::vacant().lend_outcome() is Ok,
{
}

/// No operation leads from a stable state to one with both an address in the
/// slot and the busy flag set: the address is never on offer while a guard
/// owns it.
pub proof fn lemma_operations_keep_stable(s: CellState, addr: usize)
    requires
        s.stable(),
    ensures
        s.after_lend(addr).stable(),
        s.after_borrow().stable(),
        s.after_release(addr).stable(),
        s.after_reclaim().stable(),
{
}

/// The cell moves only along its cycle: a lend takes it from vacant to lent, a
/// borrow from lent to borrowed, a release from borrowed back to lent, a
/// reclaim from lent to vacant. Every other attempt is refused and leaves the
/// state as it was, but for a borrow of a vacant cell, which keeps the flag.
pub proof fn lemma_cycle_has_no_other_edges(s: CellState, addr: usize)
    requires
        s.stable(),
    ensures
        s.lend_outcome() is Ok <==> s == CellState::vacant(),
        s.lend_outcome() is Ok ==> s.after_lend(addr) == CellState::lent(addr),
        s.lend_outcome() is Err ==> s.after_lend(addr) == s,
        s.borrow_outcome() is Ok <==> s.held is Some,
        s.borrow_outcome() is Ok ==> s == CellState::lent(s.borrow_outcome()->Ok_0)
            && s.after_borrow() == CellState::borrowed(),
        s.borrow_outcome() is Err ==> s.after_borrow() == s || s == CellState::vacant(),
        s.awaits_release() <==> s == CellState::borrowed(),
        s.awaits_release() ==> s.after_release(addr) == CellState::lent(addr),
        s.reclaim_outcome() is Ok && s.reclaimable() <==> s.held is Some,
        s.held is Some ==> s.after_reclaim() == CellState::vacant(),
        s.reclaim_outcome() is Err ==> s.after_reclaim() == s,
{
}

/// A borrow that follows a successful lend hands out the address that was
/// lent.
pub proof fn lemma_borrow_yields_lent_address(s: CellState, addr: usize)
    requires
        s.lend_outcome() is Ok,
    ensures
        s.after_lend(addr) == CellState::lent(addr),
        s.after_lend(addr).borrow_outcome() == Ok::<usize, BorrowError>(addr),
{
}

/// A lend that is refused leaves the cell as it was, and so does a second
/// lend after a first: the cell keeps the first address.
pub proof fn lemma_second_lend_refused(s: CellState, first: usize, second: usize)
    requires
        s.lend_outcome() is Ok,
    ensures
        s.after_lend(first).lend_outcome() == Err::<(), LendError>(LendError::AlreadyHasLoan),
        s.after_lend(first).after_lend(second) == s.after_lend(first),
{
}

/// While a guard is out the slot is empty and the cell is busy, and neither a
/// lend nor a second borrow gets through.
pub proof fn lemma_guard_excludes_others(s: CellState, addr: usize)
    requires
        s.borrow_outcome() is Ok,
    ensures
        s.after_borrow() == CellState::borrowed(),
        s.after_borrow().held is None,
        s.after_borrow().busy,
        s.after_borrow().lend_outcome() == Err::<(), LendError>(LendError::AlreadyLent),
        s.after_borrow().after_lend(addr) == s.after_borrow(),
        s.after_borrow().borrow_outcome() == Err::<usize, BorrowError>(
            BorrowError::AlreadyBorrowed,
        ),
        s.after_borrow().after_borrow() == s.after_borrow(),
{
}

/// Releasing the guard undoes the borrow: the slot holds the address that the
/// guard took, and the cell is no longer busy.
pub proof fn lemma_release_undoes_borrow(s: CellState)
    requires
        s.borrow_outcome() is Ok,
    ensures
        s.after_borrow().awaits_release(),
        s.after_borrow().after_release(s.borrow_outcome()->Ok_0) == s,
        s.after_borrow().after_release(s.borrow_outcome()->Ok_0).held == Some(
            s.borrow_outcome()->Ok_0,
        ),
        !s.after_borrow().after_release(s.borrow_outcome()->Ok_0).busy,
{
}

/// Reclaiming while a guard is out is refused as in use and changes nothing.
pub proof fn lemma_reclaim_refused_while_borrowed(s: CellState)
    requires
        s.borrow_outcome() is Ok,
    ensures
        s.after_borrow().reclaimable(),
        s.after_borrow().reclaim_outcome() == Err::<(), ReclaimError>(ReclaimError::InUse),
        s.after_borrow().after_reclaim() == s.after_borrow(),
{
}

/// Reclaiming once the guard is back succeeds and empties the cell.
pub proof fn lemma_reclaim_after_release(s: CellState)
    requires
        s.borrow_outcome() is Ok,
    ensures
        s.after_borrow().after_release(s.borrow_outcome()->Ok_0).reclaimable(),
        s.after_borrow().after_release(s.borrow_outcome()->Ok_0).reclaim_outcome() is Ok,
        s.after_borrow().after_release(s.borrow_outcome()->Ok_0).after_reclaim()
            == CellState::vacant(),
{
}

/// A borrow from a cell that holds nothing and is not busy is refused as
/// unavailable and keeps its claim on the busy flag: from there on every lend,
/// borrow and reclaim is refused.
pub proof fn lemma_borrow_of_vacant_sticks(addr: usize)
    ensures
        CellState::vacant().borrow_outcome() == Err::<usize, BorrowError>(
            BorrowError::Unavailable,
        ),
        CellState::vacant().after_borrow() == CellState::borrowed(),
        CellState::borrowed().lend_outcome() is Err,
        CellState::borrowed().borrow_outcome() is Err,
        CellState::borrowed().reclaim_outcome() is Err,
{
}

} // verus!
