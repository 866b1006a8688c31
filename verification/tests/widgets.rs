//! The widget state: list cursor wrapping and the input buffer.

use kafka2i::widgets::{Direction, InputBuffer, InputEvent, UIList};

fn list(items: &[&str]) -> UIList {
    UIList::new(
        String::from("Topics"),
        items.iter().map(|s| String::from(*s)).collect(),
    )
}

#[test]
fn list_cursor_wraps_both_ways() {
    let mut l = list(&["a", "b", "c"]);
    assert_eq!(l.state(), None);
    l.handle_down();
    assert_eq!(l.state(), Some(0));
    l.handle_down();
    l.handle_down();
    assert_eq!(l.state(), Some(2));
    l.handle_down();
    assert_eq!(l.state(), Some(0));
    l.handle_up();
    assert_eq!(l.state(), Some(2));
    l.handle_up();
    assert_eq!(l.state(), Some(1));
}

#[test]
fn list_up_from_nothing_selects_first() {
    let mut l = list(&["a", "b"]);
    l.handle_up();
    assert_eq!(l.state(), Some(0));
}

#[test]
fn empty_list_selects_nothing() {
    let mut l = list(&[]);
    l.handle_down();
    assert_eq!(l.state(), None);
    l.handle_up();
    assert_eq!(l.state(), None);
    assert_eq!(l.selected_item(), None);
}

#[test]
fn list_update_replaces_items_and_clears_cursor() {
    let mut l = list(&["a", "b"]);
    l.handle_down();
    assert_eq!(l.selected_item(), Some(String::from("a")));
    l.update(vec![String::from("x")]);
    assert_eq!(l.state(), None);
    assert_eq!(l.selected_item(), None);
    assert_eq!(l.items, vec![String::from("x")]);
    assert_eq!(l.name(), "Topics");
}

#[test]
fn list_sideways_keys_do_not_move_the_cursor() {
    let mut l = list(&["a", "b"]);
    l.handle_navigation(&Direction::DOWN);
    l.handle_navigation(&Direction::LEFT);
    l.handle_navigation(&Direction::RIGHT);
    assert_eq!(l.state(), Some(0));
}

#[test]
fn input_buffer_editing() {
    let mut b = InputBuffer::new();
    for c in "ofset".chars() {
        b.apply(InputEvent::NewChar(c));
    }
    // walk back and fix the typo
    b.apply(InputEvent::MoveCursor(Direction::LEFT));
    b.apply(InputEvent::MoveCursor(Direction::LEFT));
    b.apply(InputEvent::MoveCursor(Direction::LEFT));
    b.apply(InputEvent::NewChar('f'));
    assert_eq!(b.value().as_str(), "offset");
    b.apply(InputEvent::RemovePrevChar);
    assert_eq!(b.value().as_str(), "ofset");
    b.apply(InputEvent::RemoveNextChar);
    assert_eq!(b.value().as_str(), "ofet");
    b.apply(InputEvent::Reset);
    assert_eq!(b.value().as_str(), "");
    assert_eq!(b.cursor, 0);
}

#[test]
fn input_buffer_edges() {
    let mut b = InputBuffer::new();
    b.apply(InputEvent::RemovePrevChar);
    b.apply(InputEvent::RemoveNextChar);
    b.apply(InputEvent::MoveCursor(Direction::LEFT));
    b.apply(InputEvent::MoveCursor(Direction::RIGHT));
    assert_eq!(b.value().as_str(), "");
    b.apply(InputEvent::NewChar('a'));
    b.apply(InputEvent::MoveCursor(Direction::UP));
    b.apply(InputEvent::MoveCursor(Direction::DOWN));
    assert_eq!(b.cursor, 1);
}
