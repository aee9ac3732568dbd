//! A handoff cell for lending an address across a boundary the owner cannot
//! audit, and taking it back afterwards.
//!
//! The cell is a two-field state machine: an optional held address and a busy
//! flag. The owner lends an address, a callee borrows it through a guard,
//! releases the guard, and the owner reclaims. The cell never dereferences the
//! address: it only stores, clears and hands it out. Every transition is
//! specified over [`CellState`], the protocol laws are proved in `laws`, the
//! races between two callers that interleave their single-field steps are
//! settled in `race`, and `crowd` shows that among any number of callers at
//! most one owns a guard at a time.

pub mod cell;
pub mod crowd;
pub mod error;
pub mod laws;
pub mod race;
pub mod state;

pub use cell::{FfiCell, FfiGuard};
pub use error::{BorrowError, Error, LendError, ReclaimError};
pub use state::CellState;
