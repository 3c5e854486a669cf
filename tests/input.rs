use soundboard::input::Input;
use soundboard::key::Key;

fn typed(s: &str, max: usize) -> Input {
    let mut i = Input::new(" T ".to_string(), max, true);
    for c in s.chars() {
        i.handle_key_event(Key::Char(c));
    }
    i
}

#[test]
fn typing_appends_at_cursor() {
    let i = typed("héllo", 10);
    assert_eq!(i.get_text(), "héllo");
    assert_eq!(i.get_character_index(), 5);
}

#[test]
fn typing_stops_at_max_length() {
    let i = typed("abcdef", 3);
    assert_eq!(i.get_text(), "abc");
    assert_eq!(i.get_character_index(), 3);
}

#[test]
fn newline_is_ignored() {
    let i = typed("a\nb", 10);
    assert_eq!(i.get_text(), "ab");
}

#[test]
fn cursor_moves_and_inserts_in_middle() {
    let mut i = typed("ac", 10);
    i.handle_key_event(Key::Left);
    i.handle_key_event(Key::Char('b'));
    assert_eq!(i.get_text(), "abc");
    assert_eq!(i.get_character_index(), 2);
    i.handle_key_event(Key::Left);
    i.handle_key_event(Key::Left);
    i.handle_key_event(Key::Left);
    assert_eq!(i.get_character_index(), 0);
    for _ in 0..5 {
        i.handle_key_event(Key::Right);
    }
    assert_eq!(i.get_character_index(), 3);
}

#[test]
fn backspace_erases_before_cursor() {
    let mut i = typed("abc", 10);
    i.handle_key_event(Key::Left);
    i.handle_key_event(Key::Backspace);
    assert_eq!(i.get_text(), "ac");
    assert_eq!(i.get_character_index(), 1);
    i.handle_key_event(Key::Left);
    i.handle_key_event(Key::Backspace);
    assert_eq!(i.get_text(), "ac");
    assert_eq!(i.get_character_index(), 0);
}

#[test]
fn set_character_index_clamps() {
    let mut i = typed("abcd", 10);
    i.set_character_index(2);
    assert_eq!(i.get_character_index(), 2);
    i.set_character_index(99);
    assert_eq!(i.get_character_index(), 4);
}

#[test]
fn clear_and_active_flags() {
    let mut i = typed("abcd", 10);
    i.clear();
    assert_eq!(i.get_text(), "");
    assert_eq!(i.get_character_index(), 0);
    assert!(i.get_active());
    i.switch_active();
    assert!(!i.get_active());
    i.set_active(true);
    assert!(i.get_active());
    assert_eq!(i.get_name(), " T ");
}

#[test]
fn visible_range_keeps_cursor_in_view() {
    let mut i = typed("abcdefghij", 20);
    assert_eq!(i.visible_range(6), (6, 10));
    assert_eq!(i.visible_range(40), (0, 10));
    assert_eq!(i.visible_range(1), (10, 10));
    i.set_character_index(3);
    assert_eq!(i.visible_range(4), (1, 3));
}

#[test]
fn equality_ignores_cursor() {
    let a = typed("abc", 10);
    let mut b = typed("abc", 10);
    b.set_character_index(1);
    assert!(a == b);
    let c = typed("abd", 10);
    assert!(a != c);
    let mut d = typed("abc", 10);
    d.switch_active();
    assert!(a != d);
}
