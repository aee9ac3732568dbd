//! The conflicts that the cell reports, and their wording.

use vstd::prelude::*;
use vstd::std_specs::convert::FromSpecImpl;

verus! {

/// Why an address could not be lent to the cell.
#[non_exhaustive]
#[derive(Debug, Clone, Copy, PartialEq, Eq, Structural)]
pub enum LendError {
    /// A borrow is outstanding.
    AlreadyLent,
    /// The cell already holds an address.
    AlreadyHasLoan,
}

/// Why the cell's address could not be borrowed.
#[non_exhaustive]
#[derive(Debug, Clone, Copy, PartialEq, Eq, Structural)]
pub enum BorrowError {
    /// The cell holds no address.
    Unavailable,
    /// A borrow is already outstanding.
    AlreadyBorrowed,
}

/// Why the cell's address could not be reclaimed.
#[non_exhaustive]
#[derive(Debug, Clone, Copy, PartialEq, Eq, Structural)]
pub enum ReclaimError {
    /// A borrow is outstanding.
    InUse,
}

/// A conflict met while running an operation under a loan.
#[non_exhaustive]
#[derive(Debug, Clone, Copy, PartialEq, Eq, Structural)]
pub enum Error {
    LendError(LendError),
    BorrowError(BorrowError),
}

impl LendError {
    /// The text of the diagnostic.
    pub open spec fn text(self) -> Seq<char> {
        match self {
            LendError::AlreadyLent =>
                "cannot lend value to ffi-cell because it currently has one and it is already lent out"@,
            LendError::AlreadyHasLoan => "cannot lend value to ffi-cell because it already has one"@,
        }
    }

    /// The diagnostic for this conflict.
    pub fn message(&self) -> (s: String)
        ensures
            s@ == self.text(),
    {
        match self {
            LendError::AlreadyLent =>
                "cannot lend value to ffi-cell because it currently has one and it is already lent out".to_owned(),
            LendError::AlreadyHasLoan =>
                "cannot lend value to ffi-cell because it already has one".to_owned(),
        }
    }
}

impl BorrowError {
    /// The text of the diagnostic.
    pub open spec fn text(self) -> Seq<char> {
        match self {
            BorrowError::Unavailable =>
                "cannot borrow value from ffi-cell because the cell does not have a value"@,
            BorrowError::AlreadyBorrowed =>
                "cannot borrow value from ffi-cell because the cell's value is already lent out"@,
        }
    }

    /// The diagnostic for this conflict.
    pub fn message(&self) -> (s: String)
        ensures
            s@ == self.text(),
    {
        match self {
            BorrowError::Unavailable =>
                "cannot borrow value from ffi-cell because the cell does not have a value".to_owned(),
            BorrowError::AlreadyBorrowed =>
                "cannot borrow value from ffi-cell because the cell's value is already lent out".to_owned(),
        }
    }
}

impl ReclaimError {
    /// The text of the diagnostic.
    pub open spec fn text(self) -> Seq<char> {
        match self {
            ReclaimError::InUse =>
                "cannot reclaim value from ffi-cell because it is currently in use"@,
        }
    }

    /// The diagnostic for this conflict.
    pub fn message(&self) -> (s: String)
        ensures
            s@ == self.text(),
    {
        match self {
            ReclaimError::InUse =>
                "cannot reclaim value from ffi-cell because it is currently in use".to_owned(),
        }
    }
}

impl Error {
    /// The text of the diagnostic: that of the conflict inside.
    pub open spec fn text(self) -> Seq<char> {
        match self {
            Error::LendError(e) => e.text(),
            Error::BorrowError(e) => e.text(),
        }
    }

    /// The diagnostic for this conflict.
    pub fn message(&self) -> (s: String)
        ensures
            s@ == self.text(),
    {
        match self {
            Error::LendError(e) => e.message(),
            Error::BorrowError(e) => e.message(),
        }
    }
}

impl From<LendError> for Error {
    fn from(e: LendError) -> (r: Error) {
        Error::LendError(e)
    }
}

impl FromSpecImpl<LendError> for Error {
    open spec fn obeys_from_spec() -> bool {
        true
    }

    open spec fn from_spec(e: LendError) -> Error {
        Error::LendError(e)
    }
}

impl From<BorrowError> for Error {
    fn from(e: BorrowError) -> (r: Error) {
        Error::BorrowError(e)
    }
}

impl FromSpecImpl<BorrowError> for Error {
    open spec fn obeys_from_spec() -> bool {
        true
    }

    open spec fn from_spec(e: BorrowError) -> Error {
        Error::BorrowError(e)
    }
}

} // verus!
