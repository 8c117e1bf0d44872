use suitey_rust_example::{add, combined_add};

#[test]
fn test_combined_add() {
    assert_eq!(combined_add(1, 2), 3);
}

#[test]
fn combined_add_agrees_with_add() {
    for (a, b) in [(0, 0), (-1, 1), (2, 3), (-20, -22), (i32::MAX, i32::MIN)] {
        assert_eq!(combined_add(a, b), add(a, b));
    }
    assert_eq!(combined_add(-20, -22), -42);
}
