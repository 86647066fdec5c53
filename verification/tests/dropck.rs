use crust_of_rust::dropck::Foo;

#[test]
fn test_foo_valid() {
    let x = 43;
    let b = Foo::new(x);
    println!("{}", *b.get());
}

#[test]
fn test_foo_may_dangle() {
    // `Foo` declares no destructor, so the borrow of `y` it holds ends at
    // `b`'s last use and does not block reading `y` afterwards.
    let mut y = 42;
    let b = Foo::new(&mut y);
    println!("{}", y);
}

#[test]
fn test_foo_get_mut() {
    let mut b = Foo::new(5);
    *b.get_mut() += 1;
    assert_eq!(*b.get(), 6);
}
