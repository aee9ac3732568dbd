//! Any number of callers at once.
//!
//! Every caller runs the cell's operations one single-field step at a time,
//! and the steps of all callers interleave freely. Whatever the callers choose
//! to do and in whatever order they move, the address is in at most one
//! caller's hands at any time, the busy flag is set for as long as it is, and
//! it is an address that was lent.

use vstd::prelude::*;
use crate::race::{borrow_step, lend_step, BorrowStage, LendStage};
use crate::state::CellState;

verus! {

/// What one caller is in the middle of.
pub enum Caller {
    /// Between operations.
    Resting,
    /// In a lend of the given address.
    Lending(LendStage, usize),
    /// In a borrow.
    Borrowing(BorrowStage),
    /// Owns a guard for the given address.
    Holding(usize),
    /// Releasing its guard: the address is back in the slot, the busy flag is
    /// still to be cleared.
    Returning(usize),
    /// In a reclaim: found the cell not busy, about to empty the slot.
    Reclaiming,
    /// Stopped on a state that correct use rules out: a release that found the
    /// slot taken or the flag clear, a reclaim that found nothing to take.
    Stopped,
}

/// What a resting caller does next.
pub enum Intent {
    Lend(usize),
    Borrow,
    Reclaim,
}

/// The cell and its callers.
pub struct Crowd {
    pub cell: CellState,
    pub callers: Seq<Caller>,
}

/// One move: the caller `who` takes its next step, and begins `intent` if it
/// is resting.
pub struct Move {
    pub who: int,
    pub intent: Intent,
}

/// Where a caller stands once its lend has taken a step.
pub open spec fn lending(stage: LendStage, addr: usize) -> Caller {
    if stage is Done {
        Caller::Resting
    } else {
        Caller::Lending(stage, addr)
    }
}

/// Where a caller stands once its borrow has taken a step.
pub open spec fn borrowing(stage: BorrowStage) -> Caller {
    match stage {
        BorrowStage::Done(Ok(addr)) => Caller::Holding(addr),
        BorrowStage::Done(Err(_)) => Caller::Resting,
        _ => Caller::Borrowing(stage),
    }
}

/// The next step of one caller on the cell. A caller that holds a guard
/// releases it: first the slot, then the flag.
pub open spec fn caller_step(cell: CellState, caller: Caller, intent: Intent) -> (CellState, Caller) {
    match caller {
        Caller::Resting => match intent {
            Intent::Lend(addr) => {
                let (next, stage) = lend_step(cell, LendStage::Checking, addr);
                (next, lending(stage, addr))
            },
            Intent::Borrow => {
                let (next, stage) = borrow_step(cell, BorrowStage::Claiming);
                (next, borrowing(stage))
            },
            Intent::Reclaim => if cell.busy {
                (cell, Caller::Resting)
            } else {
                (cell, Caller::Reclaiming)
            },
        },
        Caller::Lending(stage, addr) => {
            let (next, stage) = lend_step(cell, stage, addr);
            (next, lending(stage, addr))
        },
        Caller::Borrowing(stage) => {
            let (next, stage) = borrow_step(cell, stage);
            (next, borrowing(stage))
        },
        Caller::Holding(addr) => if cell.held is None {
            (cell.claim_slot(addr), Caller::Returning(addr))
        } else {
            (cell, Caller::Stopped)
        },
        Caller::Returning(_) => if cell.busy {
            (cell.set_busy(false), Caller::Resting)
        } else {
            (cell, Caller::Stopped)
        },
        Caller::Reclaiming => if cell.held is Some {
            (cell.take_slot(), Caller::Resting)
        } else {
            (cell, Caller::Stopped)
        },
        Caller::Stopped => (cell, Caller::Stopped),
    }
}

/// `count` resting callers around a vacant cell, after `moves`.
pub open spec fn crowd_after(count: nat, moves: Seq<Move>) -> Crowd
    decreases moves.len(),
{
    if moves.len() == 0 {
        Crowd { cell: CellState::vacant(), callers: Seq::new(count, |i: int| Caller::Resting) }
    } else {
        let before = crowd_after(count, moves.drop_last());
        let who = moves.last().who;
        if 0 <= who < before.callers.len() {
            let (cell, caller) = caller_step(before.cell, before.callers[who], moves.last().intent);
            Crowd { cell, callers: before.callers.update(who, caller) }
        } else {
            before
        }
    }
}

/// The caller's claim on the busy flag stands: it is about to take the
/// address, owns it, or is handing it back.
pub open spec fn claims_flag(caller: Caller) -> bool {
    caller == Caller::Borrowing(BorrowStage::Taking) || caller is Holding || caller is Returning
}

spec fn crowd_inv(crowd: Crowd, count: nat) -> bool {
    &&& crowd.callers.len() == count
    &&& forall|i: int|
        0 <= i < crowd.callers.len() ==> !(#[trigger] crowd.callers[i] matches Caller::Borrowing(
            BorrowStage::Done(_),
        ))
    &&& forall|i: int|
        0 <= i < crowd.callers.len() && claims_flag(#[trigger] crowd.callers[i]) ==> crowd.cell.busy
    &&& forall|i: int, j: int|
        0 <= i < crowd.callers.len() && 0 <= j < crowd.callers.len() && claims_flag(
            #[trigger] crowd.callers[i],
        ) && claims_flag(#[trigger] crowd.callers[j]) ==> i == j
}

proof fn lemma_crowd_inv(count: nat, moves: Seq<Move>)
    ensures
        crowd_inv(crowd_after(count, moves), count),
    decreases moves.len(),
{
    if moves.len() > 0 {
        lemma_crowd_inv(count, moves.drop_last());
    }
}

/// However many callers there are and however their steps interleave, no two
/// of them own a guard at once.
pub proof fn lemma_one_holder_at_a_time(count: nat, moves: Seq<Move>, i: int, j: int)
    requires
        0 <= i < count,
        0 <= j < count,
        crowd_after(count, moves).callers[i] is Holding,
        crowd_after(count, moves).callers[j] is Holding,
    ensures
        i == j,
{
    lemma_crowd_inv(count, moves);
}

/// For as long as a caller owns a guard, the cell is busy: every other borrow
/// and every reclaim that begins meanwhile is refused.
pub proof fn lemma_holder_keeps_cell_busy(count: nat, moves: Seq<Move>, i: int)
    requires
        0 <= i < count,
        crowd_after(count, moves).callers[i] is Holding,
    ensures
        crowd_after(count, moves).cell.busy,
        crowd_after(count, moves).cell.borrow_outcome() is Err,
        crowd_after(count, moves).cell.reclaim_outcome() is Err,
{
    lemma_crowd_inv(count, moves);
}

/// Whether some move in `moves` asks to lend `addr`.
pub open spec fn was_offered(moves: Seq<Move>, addr: usize) -> bool {
    exists|k: int| 0 <= k < moves.len() && (#[trigger] moves[k]).intent == Intent::Lend(addr)
}

/// The address that a caller carries, if it carries one.
pub open spec fn carried(caller: Caller) -> Option<usize> {
    match caller {
        Caller::Lending(_, addr) => Some(addr),
        Caller::Holding(addr) => Some(addr),
        Caller::Returning(addr) => Some(addr),
        _ => None,
    }
}

spec fn offered_inv(crowd: Crowd, moves: Seq<Move>) -> bool {
    &&& crowd.cell.held matches Some(addr) ==> was_offered(moves, addr)
    &&& forall|i: int|
        0 <= i < crowd.callers.len() && carried(#[trigger] crowd.callers[i]) is Some
            ==> was_offered(moves, carried(crowd.callers[i])->Some_0)
}

proof fn lemma_offered_grows(moves: Seq<Move>, addr: usize)
    requires
        moves.len() > 0,
        was_offered(moves.drop_last(), addr),
    ensures
        was_offered(moves, addr),
{
    let k = choose|k: int|
        0 <= k < moves.drop_last().len() && (#[trigger] moves.drop_last()[k]).intent == Intent::Lend(
            addr,
        );
    assert(moves[k] == moves.drop_last()[k]);
}

proof fn lemma_offered_inv(count: nat, moves: Seq<Move>)
    ensures
        offered_inv(crowd_after(count, moves), moves),
    decreases moves.len(),
{
    if moves.len() > 0 {
        let earlier = moves.drop_last();
        lemma_offered_inv(count, earlier);
        lemma_crowd_inv(count, earlier);
        let before = crowd_after(count, earlier);
        let after = crowd_after(count, moves);
        assert forall|addr: usize| was_offered(earlier, addr) implies was_offered(moves, addr) by {
            lemma_offered_grows(moves, addr);
        }
        if let Intent::Lend(addr) = moves.last().intent {
            assert(moves[moves.len() - 1].intent == Intent::Lend(addr));
        }
        if before.cell.held is Some {
            assert(was_offered(moves, before.cell.held->Some_0));
        }
        assert forall|i: int|
            0 <= i < after.callers.len() && carried(#[trigger] after.callers[i]) is Some implies was_offered(
            moves,
            carried(after.callers[i])->Some_0,
        ) by {
            if carried(before.callers[i]) is Some {
                assert(was_offered(earlier, carried(before.callers[i])->Some_0));
                assert(was_offered(moves, carried(before.callers[i])->Some_0));
            }
        }
    }
}

/// The address that a guard owns is one that some caller asked to lend: the
/// cell hands out nothing but what it was given.
pub proof fn lemma_guard_owns_offered_address(count: nat, moves: Seq<Move>, i: int, addr: usize)
    requires
        0 <= i < count,
        crowd_after(count, moves).callers[i] == Caller::Holding(addr),
    ensures
        was_offered(moves, addr),
{
    lemma_crowd_inv(count, moves);
    lemma_offered_inv(count, moves);
}

} // verus!
