use crust_of_rust::variance::strtok;

#[test]
fn test_strtok_valid() {
    let mut x = "hello world";
    let hello = strtok(&mut x, ' ');
    assert_eq!(hello, "hello");
    assert_eq!(x, "world");
}

#[test]
fn test_strtok_no_delimiter() {
    let mut x = "plain";
    let tok = strtok(&mut x, ';');
    assert_eq!(tok, "plain");
    assert_eq!(x, "");
}

#[test]
fn test_strtok_repeated() {
    let mut x = "a,b,c";
    assert_eq!(strtok(&mut x, ','), "a");
    assert_eq!(strtok(&mut x, ','), "b");
    assert_eq!(strtok(&mut x, ','), "c");
    assert_eq!(x, "");
}

#[test]
fn test_strtok_wide_delimiter() {
    let mut x = "left→right";
    let tok = strtok(&mut x, '→');
    assert_eq!(tok, "left");
    assert_eq!(x, "right");
}
