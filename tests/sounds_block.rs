use soundboard::key::Key;
use soundboard::sound::Playback;
use soundboard::sound_item::SoundItem;
use soundboard::sounds_block::SoundsBlock;

fn item(id: u32, name: &str, volume: i64) -> SoundItem {
    SoundItem::new(
        id,
        name.to_string(),
        format!("{}.mp3", name),
        volume,
        "x".to_string(),
        false,
        false,
        true,
    )
}

fn block_of(n: u32) -> SoundsBlock {
    let mut b = SoundsBlock::default();
    for i in 0..n {
        b.add_sound(item(i, &format!("s{}", i), 50));
    }
    b
}

fn selected_flags(b: &SoundsBlock) -> Vec<usize> {
    b.get_sounds()
        .iter()
        .enumerate()
        .filter(|(_, s)| s.is_selected())
        .map(|(i, _)| i)
        .collect()
}

#[test]
fn ten_entries_down_four_times_shifts_window() {
    let mut b = block_of(10);
    b.handle_resize(8);
    assert_eq!((b.get_lower_bound(), b.get_upper_bound()), (0, 3));
    for _ in 0..4 {
        b.handle_key_event(Key::Down);
    }
    assert_eq!(b.get_selected_index(), Some(4));
    assert_eq!(selected_flags(&b), vec![4]);
    assert_eq!((b.get_lower_bound(), b.get_upper_bound()), (1, 4));
}

#[test]
fn deleting_only_entry_empties_list() {
    let mut b = block_of(1);
    b.handle_resize(30);
    let removed = b.handle_key_event(Key::Char('d'));
    assert_eq!(removed.map(|s| s.get_name().to_string()), Some("s0".to_string()));
    assert_eq!(b.len(), 0);
    assert_eq!((b.get_lower_bound(), b.get_upper_bound()), (0, 0));
    assert_eq!(b.get_selected_index(), None);
    assert!(b.handle_key_event(Key::Up).is_none());
    assert!(b.handle_key_event(Key::Down).is_none());
    assert!(b.handle_key_event(Key::PageDown).is_none());
    assert!(b.handle_key_event(Key::PageUp).is_none());
    assert!(b.handle_key_event(Key::Char('d')).is_none());
    assert_eq!(b.len(), 0);
    assert_eq!((b.get_lower_bound(), b.get_upper_bound()), (0, 0));
    assert_eq!(b.get_selected_index(), None);
}

#[test]
fn volume_steps_clamp_at_full() {
    let mut b = SoundsBlock::default();
    b.add_sound(item(0, "a", 48));
    b.handle_key_event(Key::Right);
    assert_eq!(b.get_sounds()[0].get_volume(), 53);
    for _ in 0..10 {
        b.handle_key_event(Key::Right);
        assert!(b.get_sounds()[0].get_volume() <= 100);
    }
    assert_eq!(b.get_sounds()[0].get_volume(), 100);
}

#[test]
fn volume_steps_clamp_at_zero() {
    let mut b = SoundsBlock::default();
    b.add_sound(item(0, "a", 7));
    b.handle_key_event(Key::Left);
    assert_eq!(b.get_sounds()[0].get_volume(), 2);
    b.handle_key_event(Key::Left);
    assert_eq!(b.get_sounds()[0].get_volume(), 0);
}

#[test]
fn space_then_ensemble_toggle() {
    let mut b = block_of(2);
    b.handle_key_event(Key::Char(' '));
    assert!(b.get_sounds()[0].is_active());
    assert!(b.get_sounds()[0].is_playing());
    assert!(!b.get_sounds()[1].is_active());
    b.handle_key_event(Key::Enter);
    assert!(!b.get_sounds()[0].is_playing());
    assert!(b.get_sounds()[0].is_active());
    assert!(!b.get_sounds()[1].is_playing());
    b.handle_key_event(Key::Enter);
    assert!(b.get_sounds()[0].is_playing());
    assert!(!b.get_sounds()[1].is_playing());
}

#[test]
fn previous_at_first_stays() {
    let mut b = block_of(3);
    assert_eq!(b.select_previous_sound(), 0);
    assert_eq!(b.get_selected_index(), Some(0));
    assert_eq!(selected_flags(&b), vec![0]);
}

#[test]
fn next_at_last_stays() {
    let mut b = block_of(3);
    assert_eq!(b.select_next_sound(), 1);
    assert_eq!(b.select_next_sound(), 2);
    assert_eq!(b.select_next_sound(), 2);
    assert_eq!(selected_flags(&b), vec![2]);
}

#[test]
fn navigation_on_empty_list_returns_zero() {
    let mut b = SoundsBlock::default();
    assert_eq!(b.select_previous_sound(), 0);
    assert_eq!(b.select_next_sound(), 0);
    assert_eq!(b.get_selected_index(), None);
}

#[test]
fn up_shifts_window_back() {
    let mut b = block_of(10);
    b.handle_resize(7);
    for _ in 0..5 {
        b.handle_key_event(Key::Down);
    }
    assert_eq!((b.get_lower_bound(), b.get_upper_bound()), (3, 5));
    for _ in 0..3 {
        b.handle_key_event(Key::Up);
    }
    assert_eq!(b.get_selected_index(), Some(2));
    assert_eq!((b.get_lower_bound(), b.get_upper_bound()), (2, 4));
}

#[test]
fn page_down_and_up() {
    let mut b = block_of(10);
    b.handle_resize(8);
    b.handle_key_event(Key::PageDown);
    assert_eq!((b.get_lower_bound(), b.get_upper_bound()), (2, 5));
    b.handle_key_event(Key::PageDown);
    assert_eq!((b.get_lower_bound(), b.get_upper_bound()), (4, 7));
    b.handle_key_event(Key::PageDown);
    assert_eq!((b.get_lower_bound(), b.get_upper_bound()), (6, 9));
    b.handle_key_event(Key::PageDown);
    assert_eq!((b.get_lower_bound(), b.get_upper_bound()), (6, 9));
    b.handle_key_event(Key::PageUp);
    assert_eq!((b.get_lower_bound(), b.get_upper_bound()), (4, 7));
    b.handle_key_event(Key::PageUp);
    b.handle_key_event(Key::PageUp);
    assert_eq!((b.get_lower_bound(), b.get_upper_bound()), (0, 3));
    b.handle_key_event(Key::PageUp);
    assert_eq!((b.get_lower_bound(), b.get_upper_bound()), (0, 3));
    assert_eq!(b.get_selected_index(), Some(0));
}

#[test]
fn page_down_clamps_at_end() {
    let mut b = block_of(5);
    b.handle_resize(8);
    b.handle_key_event(Key::PageDown);
    assert_eq!((b.get_lower_bound(), b.get_upper_bound()), (2, 4));
}

#[test]
fn one_row_window_does_not_page() {
    let mut b = block_of(4);
    b.handle_resize(3);
    assert_eq!((b.get_lower_bound(), b.get_upper_bound()), (0, 0));
    b.handle_key_event(Key::PageDown);
    assert_eq!((b.get_lower_bound(), b.get_upper_bound()), (0, 0));
}

#[test]
fn resize_small_heights_show_one_row() {
    let mut b = block_of(6);
    b.handle_resize(0);
    assert_eq!((b.get_lower_bound(), b.get_upper_bound()), (0, 0));
    b.handle_resize(5);
    assert_eq!((b.get_lower_bound(), b.get_upper_bound()), (0, 0));
    b.handle_resize(100);
    assert_eq!((b.get_lower_bound(), b.get_upper_bound()), (0, 5));
}

#[test]
fn resize_pulls_selection_into_window() {
    let mut b = block_of(10);
    b.handle_resize(20);
    for _ in 0..6 {
        b.handle_key_event(Key::Down);
    }
    b.handle_resize(7);
    assert_eq!((b.get_lower_bound(), b.get_upper_bound()), (0, 2));
    assert_eq!(b.get_selected_index(), Some(2));
    assert_eq!(selected_flags(&b), vec![2]);
}

#[test]
fn resize_empty_list_zeroes_window() {
    let mut b = SoundsBlock::default();
    b.handle_resize(40);
    assert_eq!((b.get_lower_bound(), b.get_upper_bound()), (0, 0));
}

#[test]
fn delete_middle_selects_next() {
    let mut b = block_of(5);
    b.handle_resize(20);
    b.handle_key_event(Key::Down);
    b.handle_key_event(Key::Down);
    let removed = b.handle_key_event(Key::Char('d')).unwrap();
    assert_eq!(removed.get_name(), "s2");
    assert_eq!(b.len(), 4);
    assert_eq!(b.get_selected_index(), Some(2));
    assert_eq!(b.get_sounds()[2].get_name(), "s3");
    assert_eq!(selected_flags(&b), vec![2]);
    assert_eq!((b.get_lower_bound(), b.get_upper_bound()), (0, 3));
}

#[test]
fn delete_last_selects_previous() {
    let mut b = block_of(3);
    b.handle_resize(20);
    b.handle_key_event(Key::Down);
    b.handle_key_event(Key::Down);
    let removed = b.delete_selected_sound_from_list().unwrap();
    assert_eq!(removed.get_name(), "s2");
    assert_eq!(b.get_selected_index(), Some(1));
    assert_eq!(b.get_sounds()[1].get_name(), "s1");
    assert_eq!(selected_flags(&b), vec![1]);
    assert_eq!((b.get_lower_bound(), b.get_upper_bound()), (0, 1));
}

#[test]
fn delete_above_window_shifts_it() {
    let mut b = block_of(10);
    b.handle_resize(7);
    b.handle_key_event(Key::Down);
    b.handle_key_event(Key::Down);
    for _ in 0..3 {
        b.handle_key_event(Key::PageDown);
    }
    assert_eq!((b.get_lower_bound(), b.get_upper_bound()), (3, 5));
    assert_eq!(b.get_selected_index(), Some(2));
    b.handle_key_event(Key::Char('d'));
    assert_eq!((b.get_lower_bound(), b.get_upper_bound()), (2, 4));
    assert_eq!(b.get_selected_index(), Some(2));
    assert_eq!(b.get_sounds()[2].get_name(), "s3");
}

#[test]
fn delete_in_one_row_window_at_end() {
    let mut b = block_of(3);
    b.handle_resize(1);
    b.handle_key_event(Key::Down);
    b.handle_key_event(Key::Down);
    assert_eq!((b.get_lower_bound(), b.get_upper_bound()), (2, 2));
    b.handle_key_event(Key::Char('d'));
    assert_eq!((b.get_lower_bound(), b.get_upper_bound()), (1, 1));
    assert_eq!(b.get_selected_index(), Some(1));
}

#[test]
fn added_entries_keep_single_selection() {
    let mut b = SoundsBlock::default();
    b.add_sound(SoundItem::new(0, "a".to_string(), "a".to_string(), 50, "x".to_string(), true, false, false));
    b.add_sound(SoundItem::new(1, "b".to_string(), "b".to_string(), 50, "x".to_string(), true, false, false));
    assert_eq!(selected_flags(&b), vec![0]);
    assert_eq!(b.get_selected_index(), Some(0));
}

#[test]
fn new_keeps_first_flagged_entry() {
    let v = vec![
        SoundItem::new(0, "a".to_string(), "a".to_string(), 50, "x".to_string(), false, false, false),
        SoundItem::new(1, "b".to_string(), "b".to_string(), 50, "x".to_string(), true, false, false),
        SoundItem::new(2, "c".to_string(), "c".to_string(), 50, "x".to_string(), true, false, false),
    ];
    let b = SoundsBlock::new(v);
    assert_eq!(b.get_selected_index(), Some(1));
    assert_eq!(selected_flags(&b), vec![1]);
    assert_eq!((b.get_lower_bound(), b.get_upper_bound()), (0, 2));
}

#[test]
fn new_selects_first_when_none_flagged() {
    let v: Vec<SoundItem> = (0..8).map(|i| item(i, &format!("s{}", i), 50)).collect();
    let b = SoundsBlock::new(v);
    assert_eq!(b.get_selected_index(), Some(0));
    assert_eq!(selected_flags(&b), vec![0]);
    assert_eq!((b.get_lower_bound(), b.get_upper_bound()), (0, 4));
}

#[test]
fn set_sounds_pulls_window_inside() {
    let mut b = block_of(10);
    b.handle_resize(20);
    b.handle_key_event(Key::PageDown);
    b.set_sounds(vec![item(0, "a", 50), item(1, "b", 50)]);
    assert_eq!(b.get_upper_bound(), 1);
    assert!(b.get_lower_bound() <= 1);
    assert_eq!(selected_flags(&b), vec![0]);
    b.set_sounds(Vec::new());
    assert_eq!((b.get_lower_bound(), b.get_upper_bound()), (0, 0));
    assert_eq!(b.get_selected_index(), None);
}

#[test]
fn silent_entries_never_play() {
    let mut b = SoundsBlock::default();
    b.add_sound(SoundItem::new(0, "a".to_string(), "a".to_string(), 50, "x".to_string(), false, false, false));
    b.handle_key_event(Key::Char(' '));
    assert!(b.get_sounds()[0].is_active());
    assert!(!b.get_sounds()[0].is_playing());
    assert_eq!(b.get_sounds()[0].get_playback(), Playback::Silent);
    b.handle_key_event(Key::Enter);
    assert!(!b.get_sounds()[0].is_playing());
}

#[test]
fn contains_sound_matches_name_and_path() {
    let b = block_of(2);
    assert!(b.contains_sound(&"s1".to_string(), &"s1.mp3".to_string()));
    assert!(!b.contains_sound(&"s1".to_string(), &"s0.mp3".to_string()));
    assert!(!b.contains_sound(&"s9".to_string(), &"s1.mp3".to_string()));
}

#[test]
fn rows_for_height_takes_frame_off() {
    assert_eq!(SoundsBlock::rows_for_height(10, 20), 6);
    assert_eq!(SoundsBlock::rows_for_height(2, 20), 1);
    assert_eq!(SoundsBlock::rows_for_height(50, 3), 3);
}

#[test]
fn resize_pulls_selection_above_window_down() {
    let mut b = block_of(10);
    b.handle_resize(8);
    b.handle_key_event(Key::PageDown);
    assert_eq!((b.get_lower_bound(), b.get_upper_bound()), (2, 5));
    assert_eq!(b.get_selected_index(), Some(0));
    b.handle_resize(8);
    assert_eq!(b.get_selected_index(), Some(5));
    assert_eq!(selected_flags(&b), vec![5]);
}

#[test]
fn volume_bars_round_to_tenths() {
    assert_eq!(item(0, "a", 48).volume_bars(), 5);
    assert_eq!(item(0, "a", 44).volume_bars(), 4);
    assert_eq!(item(0, "a", 100).volume_bars(), 10);
    assert_eq!(item(0, "a", 0).volume_bars(), 0);
}

#[test]
fn delete_on_last_window_row_keeps_selection_visible() {
    let mut b = block_of(10);
    b.handle_resize(8);
    for _ in 0..5 {
        b.handle_key_event(Key::Down);
    }
    assert_eq!((b.get_lower_bound(), b.get_upper_bound()), (2, 5));
    assert_eq!(b.get_selected_index(), Some(5));
    let removed = b.handle_key_event(Key::Char('d')).unwrap();
    assert_eq!(removed.get_name(), "s5");
    assert_eq!((b.get_lower_bound(), b.get_upper_bound()), (2, 5));
    assert_eq!(b.get_selected_index(), Some(5));
    assert_eq!(b.get_sounds()[5].get_name(), "s6");
    assert_eq!(selected_flags(&b), vec![5]);
}

#[test]
fn delete_in_one_row_window_with_next_entry() {
    let mut b = block_of(3);
    b.handle_resize(1);
    b.handle_key_event(Key::Down);
    assert_eq!((b.get_lower_bound(), b.get_upper_bound()), (1, 1));
    b.handle_key_event(Key::Char('d'));
    assert_eq!((b.get_lower_bound(), b.get_upper_bound()), (1, 1));
    assert_eq!(b.get_selected_index(), Some(1));
    assert_eq!(b.get_sounds()[1].get_name(), "s2");
}
