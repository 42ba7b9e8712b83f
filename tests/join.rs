use custom_async::join::Join;

#[test]
fn join_keeps_argument_order_when_second_finishes_first() {
    let mut join: Join<&str, &str> = Join::new();
    assert!(join.wants_first() && join.wants_second());
    assert_eq!(join.advance(None, Some("A")), None);
    assert!(join.wants_first());
    assert!(!join.wants_second());
    assert_eq!(join.advance(Some("B"), None), Some(("B", "A")));
}

#[test]
fn join_keeps_argument_order_when_first_finishes_first() {
    let mut join: Join<u32, String> = Join::new();
    assert_eq!(join.advance(Some(7), None), None);
    assert_eq!(join.advance(None, None), None);
    assert_eq!(join.advance(None, Some("x".to_string())), Some((7, "x".to_string())));
}

#[test]
fn join_completes_when_both_finish_together() {
    let mut join: Join<i32, i32> = Join::new();
    assert_eq!(join.advance(Some(1), Some(2)), Some((1, 2)));
}

#[test]
fn join_is_drained_after_completion() {
    let mut join: Join<i32, i32> = Join::new();
    assert_eq!(join.advance(Some(1), Some(2)), Some((1, 2)));
    assert!(join.wants_first() && join.wants_second());
    assert_eq!(join.advance(None, None), None);
}

#[test]
fn nested_joins_keep_order_of_four() {
    let mut left: Join<char, char> = Join::new();
    let mut right: Join<char, char> = Join::new();
    let mut top: Join<(char, char), (char, char)> = Join::new();
    // Completion order: d, b, c, a.
    let r = right.advance(None, Some('d'));
    assert_eq!(top.advance(None, r), None);
    let l = left.advance(None, Some('b'));
    assert_eq!(top.advance(l, None), None);
    let r = right.advance(Some('c'), None);
    assert_eq!(top.advance(None, r), None);
    let l = left.advance(Some('a'), None);
    let ((a, b), (c, d)) = top.advance(l, None).unwrap();
    assert_eq!((a, b, c, d), ('a', 'b', 'c', 'd'));
}
