use collab_editor::edit::apply_edit_bytes;
use collab_editor::types::user_color;

fn apply(content: &str, position: usize, delete: usize, insert: &str) -> String {
    let buf = content.as_bytes().to_vec();
    let ins = insert.as_bytes().to_vec();
    let out = apply_edit_bytes(&buf, position, delete, &ins);
    String::from_utf8(out).unwrap()
}

#[test]
fn insert_into_middle() {
    assert_eq!(apply("hello", 2, 0, "xy"), "hexyllo");
}

#[test]
fn insert_at_start_and_end() {
    assert_eq!(apply("hello", 0, 0, ">"), ">hello");
    assert_eq!(apply("hello", 5, 0, "!"), "hello!");
}

#[test]
fn delete_within_bounds() {
    assert_eq!(apply("hello", 1, 3, ""), "ho");
}

#[test]
fn delete_clamped_to_length() {
    // delete runs past the end: clamped to what is there
    assert_eq!(apply("hello", 3, 10, ""), "hel");
}

#[test]
fn delete_then_insert_composes() {
    assert_eq!(apply("hello", 2, 2, "LL"), "heLLo");
}

#[test]
fn position_beyond_end_drops_whole_change() {
    // one past the end is still in bounds for an insert ...
    assert_eq!(apply("hello", 5, 0, "x"), "hellox");
    // ... but len + 1 is out of bounds and the change is dropped
    assert_eq!(apply("hello", 6, 0, "x"), "hello");
    assert_eq!(apply("hello", 6, 3, "x"), "hello");
}

#[test]
fn empty_insert_and_zero_delete_is_noop() {
    assert_eq!(apply("hello", 2, 0, ""), "hello");
}

#[test]
fn edit_on_empty_content() {
    assert_eq!(apply("", 0, 0, "hi"), "hi");
    assert_eq!(apply("", 1, 0, "hi"), "");
    assert_eq!(apply("", 0, 4, ""), "");
}

#[test]
fn palette_cycles_every_ten() {
    assert_eq!(user_color(0), "#FF6B6B");
    assert_eq!(user_color(1), "#4ECDC4");
    assert_eq!(user_color(9), "#FD79A8");
    // the eleventh connection repeats the first color
    assert_eq!(user_color(10), "#FF6B6B");
    assert_eq!(user_color(23), user_color(3));
}
