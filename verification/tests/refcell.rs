use crust_of_rust::refcell::RefCell;

#[test]
fn test_refcell_borrow() {
    let cell = RefCell::new(42);
    let val = cell.borrow();
    assert_eq!(*val.get(), 42);
}

#[test]
fn test_refcell_mut_borrow() {
    let mut cell = RefCell::new(100);
    {
        let val = cell.borrow_mut();
        *val += 23;
    } // mutable borrow ends here
    assert_eq!(*cell.borrow().get(), 123);
}

#[test]
fn test_refcell_multiple_borrows() {
    let cell = RefCell::new(77);
    let a = cell.borrow();
    let b = cell.borrow();
    assert_eq!(*a.get(), 77);
    assert_eq!(*b.get(), 77);
}

#[test]
fn test_refcell_borrow_drop() {
    let mut cell = RefCell::new(200);

    {
        let _shared1 = cell.borrow();
        let _shared2 = cell.borrow();
    } // both shared borrows dropped

    {
        let mut_borrow = cell.borrow_mut();
        *mut_borrow += 1;
    }

    assert_eq!(*cell.borrow().get(), 201);
}
