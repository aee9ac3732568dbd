//! Two callers at once.
//!
//! A lend is two steps, each on one field: a look at the busy flag, then a
//! claim on the slot. A borrow is two steps as well: a claim on the busy flag,
//! then taking the slot's address. When two callers share a cell their steps
//! interleave in any order. A schedule says, step by step, which of the two
//! moves next; a caller that has its answer no longer moves. The laws here
//! hold of every schedule.

use vstd::prelude::*;
use crate::error::{BorrowError, LendError};
use crate::state::CellState;

verus! {

/// How far a lend has come.
pub enum LendStage {
    /// About to look at the busy flag.
    Checking,
    /// About to claim the slot.
    Claiming,
    /// Answered.
    Done(Result<(), LendError>),
}

/// How far a borrow has come.
pub enum BorrowStage {
    /// About to claim the busy flag.
    Claiming,
    /// Holds the flag, about to take the slot's address.
    Taking,
    /// Answered, with the address for the guard.
    Done(Result<usize, BorrowError>),
}

/// The next step of a lend of `addr` that stands at `stage`.
pub open spec fn lend_step(cell: CellState, stage: LendStage, addr: usize) -> (CellState, LendStage) {
    match stage {
        LendStage::Checking => if cell.busy {
            (cell, LendStage::Done(Err(LendError::AlreadyLent)))
        } else {
            (cell, LendStage::Claiming)
        },
        LendStage::Claiming => if cell.held is None {
            (cell.claim_slot(addr), LendStage::Done(Ok(())))
        } else {
            (cell.claim_slot(addr), LendStage::Done(Err(LendError::AlreadyHasLoan)))
        },
        LendStage::Done(_) => (cell, stage),
    }
}

/// The next step of a borrow that stands at `stage`.
pub open spec fn borrow_step(cell: CellState, stage: BorrowStage) -> (CellState, BorrowStage) {
    match stage {
        BorrowStage::Claiming => if cell.busy {
            (cell.set_busy(true), BorrowStage::Done(Err(BorrowError::AlreadyBorrowed)))
        } else {
            (cell.set_busy(true), BorrowStage::Taking)
        },
        BorrowStage::Taking => match cell.held {
            Some(addr) => (cell.take_slot(), BorrowStage::Done(Ok(addr))),
            None => (cell.take_slot(), BorrowStage::Done(Err(BorrowError::Unavailable))),
        },
        BorrowStage::Done(_) => (cell, stage),
    }
}

/// A caller left alone takes its two steps and gets what the operation
/// promises, with the cell as the operation leaves it.
pub proof fn lemma_steps_make_operation(cell: CellState, addr: usize)
    ensures
        ({
            let (mid, stage) = lend_step(cell, LendStage::Checking, addr);
            lend_step(mid, stage, addr)
        }) == (cell.after_lend(addr), LendStage::Done(cell.lend_outcome())),
        ({
            let (mid, stage) = borrow_step(cell, BorrowStage::Claiming);
            borrow_step(mid, stage)
        }) == (cell.after_borrow(), BorrowStage::Done(cell.borrow_outcome())),
{
}

/// The look at the busy flag does not bind the claim that follows it. A
/// lender that looked while the cell held `lent` and was idle still gets the
/// slot after a borrower has emptied it: its address then stands in the slot
/// under the borrower's flag, and the borrower's guard cannot be returned.
pub proof fn lemma_early_look_does_not_bind(lent: usize, late: usize)
    ensures
        ({
            let (c1, lender) = lend_step(CellState::lent(lent), LendStage::Checking, late);
            let (c2, borrower) = borrow_step(c1, BorrowStage::Claiming);
            let (c3, borrower) = borrow_step(c2, borrower);
            let (c4, lender) = lend_step(c3, lender, late);
            &&& borrower == BorrowStage::Done(Ok(lent))
            &&& lender == LendStage::Done(Ok(()))
            &&& c4 == CellState { held: Some(late), busy: true }
            &&& !c4.stable()
            &&& !c4.awaits_release()
        }),
{
}

/// How many of the steps in `schedule` belong to the caller `who`.
pub open spec fn moves_of(schedule: Seq<bool>, who: bool) -> nat
    decreases schedule.len(),
{
    if schedule.len() == 0 {
        0
    } else {
        moves_of(schedule.drop_last(), who) + if schedule.last() == who {
            1nat
        } else {
            0nat
        }
    }
}

/// Two lends under way on one cell.
pub struct LendRace {
    pub cell: CellState,
    pub first: LendStage,
    pub second: LendStage,
}

/// Two borrows under way on one cell.
pub struct BorrowRace {
    pub cell: CellState,
    pub first: BorrowStage,
    pub second: BorrowStage,
}

/// Where two lenders stand, of `a` and of `b`, after `schedule` on a cell that
/// began vacant. `true` in the schedule moves the first lender, `false` the
/// second.
pub open spec fn lend_race(a: usize, b: usize, schedule: Seq<bool>) -> LendRace
    decreases schedule.len(),
{
    if schedule.len() == 0 {
        LendRace {
            cell: CellState::vacant(),
            first: LendStage::Checking,
            second: LendStage::Checking,
        }
    } else {
        let before = lend_race(a, b, schedule.drop_last());
        if schedule.last() {
            let (cell, first) = lend_step(before.cell, before.first, a);
            LendRace { cell, first, second: before.second }
        } else {
            let (cell, second) = lend_step(before.cell, before.second, b);
            LendRace { cell, first: before.first, second }
        }
    }
}

/// Where two borrowers stand after `schedule` on a cell that began holding
/// `addr`. `true` in the schedule moves the first borrower, `false` the
/// second.
pub open spec fn borrow_race(addr: usize, schedule: Seq<bool>) -> BorrowRace
    decreases schedule.len(),
{
    if schedule.len() == 0 {
        BorrowRace {
            cell: CellState::lent(addr),
            first: BorrowStage::Claiming,
            second: BorrowStage::Claiming,
        }
    } else {
        let before = borrow_race(addr, schedule.drop_last());
        if schedule.last() {
            let (cell, first) = borrow_step(before.cell, before.first);
            BorrowRace { cell, first, second: before.second }
        } else {
            let (cell, second) = borrow_step(before.cell, before.second);
            BorrowRace { cell, first: before.first, second }
        }
    }
}

/// The lender of `mine` has won and the other has not.
spec fn lend_won(cell: CellState, winner: LendStage, mine: usize, loser: LendStage) -> bool {
    &&& cell.held == Some(mine)
    &&& winner == LendStage::Done(Ok(()))
    &&& loser != LendStage::Done(Ok(()))
    &&& loser is Done ==> loser == LendStage::Done(Err(LendError::AlreadyHasLoan))
}

spec fn lend_race_inv(r: LendRace, a: usize, b: usize, moved_first: nat, moved_second: nat) -> bool {
    &&& !r.cell.busy
    &&& moved_first >= 1 ==> r.first != LendStage::Checking
    &&& moved_first >= 2 ==> r.first is Done
    &&& moved_second >= 1 ==> r.second != LendStage::Checking
    &&& moved_second >= 2 ==> r.second is Done
    &&& match r.cell.held {
        None => !(r.first is Done) && !(r.second is Done),
        Some(_) => lend_won(r.cell, r.first, a, r.second) || lend_won(
            r.cell,
            r.second,
            b,
            r.first,
        ),
    }
}

proof fn lemma_lend_race_inv(a: usize, b: usize, schedule: Seq<bool>)
    ensures
        lend_race_inv(
            lend_race(a, b, schedule),
            a,
            b,
            moves_of(schedule, true),
            moves_of(schedule, false),
        ),
    decreases schedule.len(),
{
    if schedule.len() > 0 {
        lemma_lend_race_inv(a, b, schedule.drop_last());
    }
}

/// The borrower in `winner` holds the flag and the other does not.
spec fn borrow_won(cell: CellState, winner: BorrowStage, addr: usize, loser: BorrowStage) -> bool {
    &&& (winner == BorrowStage::Taking && cell.held == Some(addr)) || (winner == BorrowStage::Done(
        Ok(addr),
    ) && cell.held is None)
    &&& loser == BorrowStage::Claiming || loser == BorrowStage::Done(
        Err(BorrowError::AlreadyBorrowed),
    )
}

spec fn borrow_race_inv(r: BorrowRace, addr: usize, moved_first: nat, moved_second: nat) -> bool {
    &&& moved_first >= 1 ==> r.first != BorrowStage::Claiming
    &&& moved_first >= 2 ==> r.first is Done
    &&& moved_second >= 1 ==> r.second != BorrowStage::Claiming
    &&& moved_second >= 2 ==> r.second is Done
    &&& if r.cell.busy {
        borrow_won(r.cell, r.first, addr, r.second) || borrow_won(r.cell, r.second, addr, r.first)
    } else {
        &&& r.cell.held == Some(addr)
        &&& r.first == BorrowStage::Claiming
        &&& r.second == BorrowStage::Claiming
    }
}

proof fn lemma_borrow_race_inv(addr: usize, schedule: Seq<bool>)
    ensures
        borrow_race_inv(
            borrow_race(addr, schedule),
            addr,
            moves_of(schedule, true),
            moves_of(schedule, false),
        ),
    decreases schedule.len(),
{
    if schedule.len() > 0 {
        lemma_borrow_race_inv(addr, schedule.drop_last());
    }
}

/// At no point of any schedule have both lenders succeeded, and the busy flag
/// and the slot never stand set together.
pub proof fn lemma_lend_race_never_two_winners(a: usize, b: usize, schedule: Seq<bool>)
    ensures
        !(lend_race(a, b, schedule).first == LendStage::Done(Ok(())) && lend_race(
            a,
            b,
            schedule,
        ).second == LendStage::Done(Ok(()))),
        lend_race(a, b, schedule).cell.stable(),
{
    lemma_lend_race_inv(a, b, schedule);
}

/// Once each of two lenders on a vacant cell has had its two steps, in
/// whatever order, exactly one has succeeded and the cell holds its address;
/// the other was refused because the cell already had a loan.
pub proof fn lemma_lend_race_one_winner(a: usize, b: usize, schedule: Seq<bool>)
    requires
        moves_of(schedule, true) >= 2,
        moves_of(schedule, false) >= 2,
    ensures
        ({
            let end = lend_race(a, b, schedule);
            ||| {
                &&& end.first == LendStage::Done(Ok(()))
                &&& end.second == LendStage::Done(Err(LendError::AlreadyHasLoan))
                &&& end.cell == CellState::lent(a)
            }
            ||| {
                &&& end.second == LendStage::Done(Ok(()))
                &&& end.first == LendStage::Done(Err(LendError::AlreadyHasLoan))
                &&& end.cell == CellState::lent(b)
            }
        }),
{
    lemma_lend_race_inv(a, b, schedule);
}

/// At no point of any schedule have both borrowers been handed the address.
pub proof fn lemma_borrow_race_never_two_guards(addr: usize, schedule: Seq<bool>)
    ensures
        !(borrow_race(addr, schedule).first is Done && borrow_race(addr, schedule).first->Done_0 is Ok
            && borrow_race(addr, schedule).second is Done && borrow_race(
            addr,
            schedule,
        ).second->Done_0 is Ok),
{
    lemma_borrow_race_inv(addr, schedule);
}

/// Once each of two borrowers on a cell that holds `addr` has had its two
/// steps, in whatever order, exactly one was handed `addr` and the other was
/// refused because the address was already borrowed; the cell is left
/// borrowed.
pub proof fn lemma_borrow_race_one_winner(addr: usize, schedule: Seq<bool>)
    requires
        moves_of(schedule, true) >= 2,
        moves_of(schedule, false) >= 2,
    ensures
        ({
            let end = borrow_race(addr, schedule);
            &&& end.cell == CellState::borrowed()
            &&& {
                ||| {
                    &&& end.first == BorrowStage::Done(Ok(addr))
                    &&& end.second == BorrowStage::Done(Err(BorrowError::AlreadyBorrowed))
                }
                ||| {
                    &&& end.second == BorrowStage::Done(Ok(addr))
                    &&& end.first == BorrowStage::Done(Err(BorrowError::AlreadyBorrowed))
                }
            }
        }),
{
    lemma_borrow_race_inv(addr, schedule);
}

} // verus!
