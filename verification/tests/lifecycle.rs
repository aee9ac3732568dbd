use ffi_cell::{BorrowError, Error, FfiCell, LendError, ReclaimError};

#[test]
fn test() {
    let mut cell = FfiCell::default();
    assert!(
        cell.held_address().is_none(),
        "new cell should have null pointer"
    );
    assert!(!cell.is_busy(), "new cell should not be in use");

    let mut objects: Vec<i32> = vec![0, 0, 0, 42];
    let value_ptr: usize = 3;

    cell.lend(value_ptr);
    let ptr = cell.held_address();
    assert!(ptr.is_some(), "after loan, pointer should not be null");
    assert_eq!(ptr, Some(value_ptr), "value in cell should match lent value");
    assert!(!cell.is_busy(), "cell should not be in use until borrowed");

    let num = cell.borrow();
    let num_ptr = num.address();
    assert!(cell.is_busy(), "cell should be in use after borrowed");
    assert_eq!(num_ptr, value_ptr, "borrowed value should match stored value");
    assert_eq!(objects[num_ptr], 42);
    assert!(
        cell.held_address().is_none(),
        "cell should have null pointer while guard exists"
    );

    num.release(&mut cell);
    let ptr = cell.held_address();
    assert!(
        ptr.is_some(),
        "cell should not have null pointer after guard is dropped"
    );
    assert_eq!(
        ptr,
        Some(value_ptr),
        "cell's pointer after guard is dropped should match the original pointer"
    );

    cell.reclaim();
    assert!(
        cell.held_address().is_none(),
        "cell should have null pointer after value is reclaimed"
    );

    cell.run(value_ptr, |cell: &mut FfiCell| {
        assert!(
            cell.held_address().is_some(),
            "cell should not have null pointer at start of run"
        );
        assert!(!cell.is_busy(), "cell should not be in-use at start of run");

        let num = cell.borrow();
        let num_ptr = num.address();
        assert!(
            cell.held_address().is_none(),
            "cell should have null pointer while value is borrowed"
        );
        assert!(cell.is_busy(), "cell should be in-use while value is borrowed");
        assert_eq!(num_ptr, value_ptr, "guard's pointer should match original");
        objects[num_ptr] += 1;
        num.release(cell);
    });
    assert_eq!(objects[value_ptr], 43);

    assert!(
        cell.held_address().is_none(),
        "cell should have null pointer after run is complete"
    );
    assert!(!cell.is_busy(), "cell should not be in use after run is complete");
}

#[test]
fn new_cell_holds_nothing_and_is_idle() {
    let cell = FfiCell::new();
    assert_eq!(cell.held_address(), None);
    assert!(!cell.is_busy());
    let cell = FfiCell::default();
    assert_eq!(cell.held_address(), None);
    assert!(!cell.is_busy());
}

#[test]
fn borrow_after_lend_yields_the_lent_address() {
    let mut cell = FfiCell::new();
    assert_eq!(cell.try_lend(0x7f00_1000), Ok(()));
    assert_eq!(cell.held_address(), Some(0x7f00_1000));
    let guard = cell.try_borrow().expect("a lent cell can be borrowed");
    assert_eq!(guard.address(), 0x7f00_1000);
}

#[test]
fn outstanding_guard_hides_the_address() {
    let mut cell = FfiCell::new();
    cell.lend(77);
    let guard = cell.borrow();
    assert_eq!(cell.held_address(), None);
    assert!(cell.is_busy());
    assert_eq!(guard.address(), 77);
}

#[test]
fn release_puts_the_address_back() {
    let mut cell = FfiCell::new();
    cell.lend(77);
    let guard = cell.borrow();
    guard.release(&mut cell);
    assert_eq!(cell.held_address(), Some(77));
    assert!(!cell.is_busy());
}

#[test]
fn reclaim_after_release_empties_the_cell() {
    let mut cell = FfiCell::new();
    cell.lend(5);
    let guard = cell.borrow();
    guard.release(&mut cell);
    assert_eq!(cell.try_reclaim(), Ok(()));
    assert_eq!(cell.held_address(), None);
    assert!(!cell.is_busy());
}

#[test]
fn reclaim_while_borrowed_is_refused_and_changes_nothing() {
    let mut cell = FfiCell::new();
    cell.lend(5);
    let guard = cell.borrow();
    assert_eq!(cell.try_reclaim(), Err(ReclaimError::InUse));
    assert_eq!(cell.held_address(), None);
    assert!(cell.is_busy());
    guard.release(&mut cell);
    assert_eq!(cell.held_address(), Some(5));
}

#[test]
fn reclaim_without_a_borrow_empties_the_cell() {
    let mut cell = FfiCell::new();
    cell.lend(9);
    cell.reclaim();
    assert_eq!(cell.held_address(), None);
    assert!(!cell.is_busy());
    assert_eq!(cell.try_lend(10), Ok(()));
    assert_eq!(cell.held_address(), Some(10));
}

#[test]
fn run_lends_for_the_call_and_reclaims_after() {
    let mut cell = FfiCell::new();
    let seen = cell.run(31, |c: &mut FfiCell| {
        let at_start = (c.held_address(), c.is_busy());
        let guard = c.borrow();
        let inside = (c.held_address(), c.is_busy());
        let addr = guard.address();
        guard.release(c);
        (at_start, inside, addr)
    });
    assert_eq!(seen, ((Some(31), false), (None, true), 31));
    assert_eq!(cell.held_address(), None);
    assert!(!cell.is_busy());
}

#[test]
fn try_run_returns_what_the_operation_returns() {
    let mut cell = FfiCell::new();
    let r = cell.try_run(8, |c: &mut FfiCell| c.held_address().map(|a| a * 2));
    assert_eq!(r, Ok(Some(16)));
    assert_eq!(cell.held_address(), None);
    assert!(!cell.is_busy());
}

#[test]
fn try_run_on_a_lent_cell_is_refused_and_skips_the_operation() {
    let mut cell = FfiCell::new();
    cell.lend(1);
    let mut ran = false;
    let r = cell.try_run(2, |_c: &mut FfiCell| {
        ran = true;
    });
    assert_eq!(r, Err(Error::LendError(LendError::AlreadyHasLoan)));
    assert!(!ran);
    assert_eq!(cell.held_address(), Some(1));
    assert!(!cell.is_busy());
}

#[test]
fn try_run_while_borrowed_is_refused() {
    let mut cell = FfiCell::new();
    cell.lend(1);
    let guard = cell.borrow();
    let r = cell.try_run(2, |_c: &mut FfiCell| 0);
    assert_eq!(r, Err(Error::LendError(LendError::AlreadyLent)));
    assert_eq!(cell.held_address(), None);
    assert!(cell.is_busy());
    guard.release(&mut cell);
    assert_eq!(cell.held_address(), Some(1));
}

#[test]
fn of_two_lenders_one_succeeds() {
    let mut cell = FfiCell::new();
    let first = cell.try_lend(100);
    let second = cell.try_lend(200);
    assert_eq!(first, Ok(()));
    assert_eq!(second, Err(LendError::AlreadyHasLoan));
    assert_eq!(cell.held_address(), Some(100));
}

#[test]
fn of_two_borrowers_one_succeeds() {
    let mut cell = FfiCell::new();
    cell.lend(100);
    let first = cell.try_borrow();
    let second = cell.try_borrow();
    assert_eq!(first.map(|g| g.address()), Ok(100));
    assert_eq!(second.map(|g| g.address()), Err(BorrowError::AlreadyBorrowed));
    assert_eq!(cell.held_address(), None);
    assert!(cell.is_busy());
}

#[test]
fn borrowed_value_is_read_released_and_reclaimed() {
    let objects: Vec<i32> = vec![42];
    let mut cell = FfiCell::new();
    assert_eq!(cell.try_lend(0), Ok(()));
    let guard = cell.try_borrow().expect("the cell holds the value");
    assert_eq!(objects[guard.address()], 42);
    guard.release(&mut cell);
    assert_eq!(cell.try_reclaim(), Ok(()));
    assert_eq!(cell.held_address(), None);
    assert!(!cell.is_busy());
}

#[test]
fn second_lend_is_refused_and_first_address_stays() {
    let mut cell = FfiCell::new();
    assert_eq!(cell.try_lend(11), Ok(()));
    assert_eq!(cell.try_lend(22), Err(LendError::AlreadyHasLoan));
    assert_eq!(cell.held_address(), Some(11));
    assert!(!cell.is_busy());
}

#[test]
fn lend_while_borrowed_is_refused_as_already_lent() {
    let mut cell = FfiCell::new();
    cell.lend(11);
    let guard = cell.borrow();
    assert_eq!(cell.try_lend(22), Err(LendError::AlreadyLent));
    assert_eq!(cell.held_address(), None);
    assert!(cell.is_busy());
    guard.release(&mut cell);
    assert_eq!(cell.held_address(), Some(11));
}

#[test]
fn borrow_of_a_vacant_cell_is_unavailable_and_keeps_the_flag() {
    let mut cell = FfiCell::new();
    assert_eq!(
        cell.try_borrow().map(|g| g.address()),
        Err(BorrowError::Unavailable)
    );
    assert_eq!(cell.held_address(), None);
    assert!(cell.is_busy());
    assert_eq!(cell.try_lend(1), Err(LendError::AlreadyLent));
    assert_eq!(
        cell.try_borrow().map(|g| g.address()),
        Err(BorrowError::AlreadyBorrowed)
    );
    assert_eq!(cell.try_reclaim(), Err(ReclaimError::InUse));
}

#[test]
fn address_zero_is_an_address_like_any_other() {
    let mut cell = FfiCell::new();
    cell.lend(0);
    assert_eq!(cell.held_address(), Some(0));
    let guard = cell.borrow();
    assert_eq!(guard.address(), 0);
    guard.release(&mut cell);
    assert_eq!(cell.held_address(), Some(0));
    cell.reclaim();
    assert_eq!(cell.held_address(), None);
}

#[test]
fn cell_can_be_lent_again_after_reclaim() {
    let mut cell = FfiCell::new();
    for addr in [4usize, 8, usize::MAX] {
        cell.lend(addr);
        let guard = cell.borrow();
        assert_eq!(guard.address(), addr);
        guard.release(&mut cell);
        cell.reclaim();
        assert_eq!(cell.held_address(), None);
        assert!(!cell.is_busy());
    }
}
