use catalog_tui::input::{KeyInput, SearchBuffer};
use catalog_tui::stateful_list::StatefulList;

fn strings(items: &[&str]) -> Vec<String> {
    items.iter().map(|s| String::from(*s)).collect()
}

#[test]
fn with_items_selects_first() {
    let l = StatefulList::with_items(strings(&["a", "b", "c"]));
    assert_eq!(l.selected(), Some(0));
}

#[test]
fn with_items_empty_selects_nothing() {
    let l = StatefulList::with_items(Vec::new());
    assert_eq!(l.selected(), None);
}

#[test]
fn next_cycles_back_to_start() {
    // Cyclic invariant: len calls of next return to the starting index.
    let mut l = StatefulList::with_items(strings(&["a", "b", "c"]));
    l.next();
    assert_eq!(l.selected(), Some(1));
    l.next();
    assert_eq!(l.selected(), Some(2));
    l.next();
    assert_eq!(l.selected(), Some(0));
}

#[test]
fn previous_cycles_back_to_start() {
    let mut l = StatefulList::with_items(strings(&["a", "b", "c"]));
    l.previous();
    assert_eq!(l.selected(), Some(2));
    l.previous();
    assert_eq!(l.selected(), Some(1));
    l.previous();
    assert_eq!(l.selected(), Some(0));
}

#[test]
fn navigation_on_empty_list_is_noop() {
    let mut l = StatefulList::with_items(Vec::new());
    l.next();
    assert_eq!(l.selected(), None);
    l.previous();
    assert_eq!(l.selected(), None);
}

#[test]
fn get_list_wraps_rows_to_width() {
    // Four cells minus the two border cells leave a wrap width of two, so
    // the two words move onto separate lines.
    let l = StatefulList::with_items(strings(&["ab cd"]));
    let rows = l.get_list(4);
    assert_eq!(rows.len(), 1);
    assert_eq!(rows[0], "ab\ncd");
}

#[test]
fn get_list_keeps_short_rows() {
    let l = StatefulList::with_items(strings(&["ab", "cd"]));
    let rows = l.get_list(40);
    assert_eq!(rows, strings(&["ab", "cd"]));
}

#[test]
fn search_buffer_edits_at_cursor() {
    let mut b = SearchBuffer::new();
    assert!(b.is_empty());
    b.handle_key(KeyInput::Char('a'));
    b.handle_key(KeyInput::Char('b'));
    assert_eq!(b.value(), "ab");
    b.handle_key(KeyInput::Left);
    b.handle_key(KeyInput::Char('c'));
    assert_eq!(b.value(), "acb");
    b.handle_key(KeyInput::Backspace);
    assert_eq!(b.value(), "ab");
    assert!(!b.is_empty());
}

#[test]
fn search_buffer_ignores_moves_at_edges() {
    let mut b = SearchBuffer::new();
    b.handle_key(KeyInput::Backspace);
    b.handle_key(KeyInput::Left);
    b.handle_key(KeyInput::Right);
    assert!(b.is_empty());
    b.handle_key(KeyInput::Char('x'));
    b.handle_key(KeyInput::Right);
    b.handle_key(KeyInput::Enter);
    b.handle_key(KeyInput::Other);
    assert_eq!(b.value(), "x");
}
