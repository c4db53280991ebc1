use command_manager::config::NameConfig;
use command_manager::cursor::CursorPosition;
use command_manager::list::{State, StatefulList, TabsState};

fn list_of(n: usize) -> StatefulList<String> {
    StatefulList::with_items((0..n).map(|i| format!("item {}", i)).collect())
}

#[test]
fn next_cycles_back_to_start() {
    for n in 1..6 {
        for start in 0..n {
            let mut l = list_of(n);
            l.selected = Some(start);
            for _ in 0..n {
                l.next();
            }
            assert_eq!(l.selected, Some(start));
            for _ in 0..n {
                l.previous();
            }
            assert_eq!(l.selected, Some(start));
        }
    }
}

#[test]
fn next_then_previous_is_identity_across_wrap() {
    let mut l = list_of(3);
    l.selected = Some(2);
    l.next();
    assert_eq!(l.selected, Some(0));
    l.previous();
    assert_eq!(l.selected, Some(2));
    l.selected = Some(1);
    l.next();
    l.previous();
    assert_eq!(l.selected, Some(1));
}

#[test]
fn first_step_selects_first_item() {
    let mut l = list_of(4);
    l.next();
    assert_eq!(l.selected, Some(0));
    l.unselect();
    l.previous();
    assert_eq!(l.selected, Some(0));
    l.previous();
    assert_eq!(l.selected, Some(3));
}

#[test]
fn empty_list_does_not_move() {
    let mut l = list_of(0);
    l.next();
    assert_eq!(l.selected, None);
    l.previous();
    assert_eq!(l.selected, None);
    assert_eq!(l.current(), 0);
}

#[test]
fn current_item_follows_selection() {
    let mut l = list_of(3);
    assert_eq!(l.current_item(), "item 0");
    l.selected = Some(2);
    assert_eq!(l.current(), 2);
    assert_eq!(l.current_item(), "item 2");
}

#[test]
fn tabs_wrap_both_ways() {
    let mut t = TabsState::new(&NameConfig::new());
    assert_eq!(t.titles, vec!["Tab 1", "Tab 2", "Tab 3"]);
    t.previous();
    assert_eq!(t.index, 2);
    t.next();
    assert_eq!(t.index, 0);
    t.next();
    assert_eq!(t.index, 1);
}

#[test]
fn cursor_fill_then_clear_returns_to_anchor() {
    for w in 3..12 {
        let mut c = CursorPosition::new(4, 7, w, Vec::new());
        for i in 0..w {
            c.push_inc(char::from(b'a' + (i % 26) as u8));
        }
        assert_eq!(c.input.len(), w);
        for _ in 0..w {
            c.pop_dec();
        }
        assert_eq!((c.x, c.y), (4, 7));
        assert!(c.input.is_empty());
    }
}

#[test]
fn cursor_wraps_at_field_end() {
    let mut c = CursorPosition::new(1, 1, 4, Vec::new());
    c.push_inc('a');
    c.push_inc('b');
    assert_eq!((c.x, c.y), (3, 1));
    c.push_inc('c');
    assert_eq!((c.x, c.y), (1, 2));
    c.pop_dec();
    assert_eq!((c.x, c.y), (4, 1));
    assert_eq!(c.input, vec!['a', 'b']);
}

#[test]
fn cursor_width_two_keeps_a_line() {
    let mut c = CursorPosition::new(0, 0, 2, Vec::new());
    c.push_inc('a');
    c.push_inc('b');
    c.pop_dec();
    c.pop_dec();
    assert_eq!((c.x, c.y), (0, 1));
}

#[test]
fn cursor_narrow_field_always_wraps() {
    let mut c = CursorPosition::new(5, 0, 1, Vec::new());
    c.push_inc('a');
    assert_eq!((c.x, c.y), (5, 1));
    c.pop_dec();
    assert_eq!((c.x, c.y), (5, 1));
    c.pop_dec();
    assert_eq!((c.x, c.y), (5, 1));
}
