use crust_of_rust::cell::Cell;

#[derive(Clone, Copy, Debug, PartialEq)]
struct Small(u8);

#[test]
fn test_cell_valid() {
    let mut x = Cell::new(42);
    assert_eq!(x.get(), 42);

    x.set(89);
    assert_eq!(x.get(), 89);
}

#[test]
fn test_cell_multiple_sets() {
    let mut x = Cell::new(0);
    for i in 1..10 {
        x.set(i);
        assert_eq!(x.get(), i);
    }
}

#[test]
fn test_cell_copy_type() {
    let mut c = Cell::new(Small(7));
    assert_eq!(c.get(), Small(7));

    c.set(Small(99));
    assert_eq!(c.get(), Small(99));
}

#[test]
fn test_cell_independent_instances() {
    let mut a = Cell::new(1);
    let mut b = Cell::new(2);

    assert_eq!(a.get(), 1);
    assert_eq!(b.get(), 2);

    a.set(10);
    b.set(20);

    assert_eq!(a.get(), 10);
    assert_eq!(b.get(), 20);
}

#[test]
fn test_cell_replaces_previous_value() {
    let mut c = Cell::new(5);
    assert_eq!(c.get(), 5);

    c.set(999);
    assert_eq!(c.get(), 999);

    c.set(-3);
    assert_eq!(c.get(), -3);
}
