use ffi_cell::{BorrowError, Error, LendError, ReclaimError};

#[test]
fn lend_conflicts_are_worded() {
    assert_eq!(
        LendError::AlreadyLent.message(),
        "cannot lend value to ffi-cell because it currently has one and it is already lent out"
    );
    assert_eq!(
        LendError::AlreadyHasLoan.message(),
        "cannot lend value to ffi-cell because it already has one"
    );
}

#[test]
fn borrow_conflicts_are_worded() {
    assert_eq!(
        BorrowError::Unavailable.message(),
        "cannot borrow value from ffi-cell because the cell does not have a value"
    );
    assert_eq!(
        BorrowError::AlreadyBorrowed.message(),
        "cannot borrow value from ffi-cell because the cell's value is already lent out"
    );
}

#[test]
fn reclaim_conflict_is_worded() {
    assert_eq!(
        ReclaimError::InUse.message(),
        "cannot reclaim value from ffi-cell because it is currently in use"
    );
}

#[test]
fn wrapped_conflict_is_worded_as_the_conflict_inside() {
    assert_eq!(
        Error::LendError(LendError::AlreadyHasLoan).message(),
        LendError::AlreadyHasLoan.message()
    );
    assert_eq!(
        Error::BorrowError(BorrowError::Unavailable).message(),
        "cannot borrow value from ffi-cell because the cell does not have a value"
    );
}

#[test]
fn conflicts_convert_into_the_wrapping_error() {
    assert_eq!(
        Error::from(LendError::AlreadyLent),
        Error::LendError(LendError::AlreadyLent)
    );
    assert_eq!(
        Error::from(BorrowError::AlreadyBorrowed),
        Error::BorrowError(BorrowError::AlreadyBorrowed)
    );
    let e: Error = LendError::AlreadyHasLoan.into();
    assert_eq!(e, Error::LendError(LendError::AlreadyHasLoan));
}
