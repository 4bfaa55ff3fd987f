use pessoas::codec::join_stack;
use pessoas::codec::split_stack;

fn strings(items: &[&str]) -> Vec<String> {
    items.iter().map(|s| s.to_string()).collect()
}

#[test]
fn round_trip_two_items() {
    let stack = Some(strings(&["a", "b"]));
    let joined = join_stack(&stack);
    assert_eq!(joined, "a | b");
    let back = split_stack(&joined);
    assert_eq!(back, Some(strings(&["a", "b"])));
}

#[test]
fn round_trip_longer_items() {
    let stack = Some(strings(&["Rust", "Go", "PostgreSQL"]));
    let joined = join_stack(&stack);
    assert_eq!(joined, "Rust | Go | PostgreSQL");
    assert_eq!(split_stack(&joined), Some(strings(&["Rust", "Go", "PostgreSQL"])));
}

#[test]
fn absent_stack_joins_to_empty() {
    assert_eq!(join_stack(&None), "");
}

#[test]
fn empty_stack_joins_to_empty() {
    assert_eq!(join_stack(&Some(Vec::new())), "");
}

#[test]
fn empty_string_reads_as_absent() {
    assert_eq!(split_stack(""), None);
}

#[test]
fn single_item_round_trip() {
    let joined = join_stack(&Some(strings(&["solo"])));
    assert_eq!(joined, "solo");
    assert_eq!(split_stack(&joined), Some(strings(&["solo"])));
}

#[test]
fn split_keeps_trailing_empty_piece() {
    assert_eq!(split_stack("a | "), Some(strings(&["a", ""])));
}

#[test]
fn split_keeps_leading_empty_piece() {
    assert_eq!(split_stack(" | a"), Some(strings(&["", "a"])));
}

#[test]
fn split_without_separator_is_one_piece() {
    assert_eq!(split_stack("plain"), Some(strings(&["plain"])));
}

#[test]
fn pipe_without_spaces_is_not_a_separator() {
    assert_eq!(split_stack("a|b"), Some(strings(&["a|b"])));
}
