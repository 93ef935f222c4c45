use std::collections::BTreeMap;
use std::collections::VecDeque;

use tickeys::core_graphics::{
    event_mask_bit, CGEventField, CGEventTapLocation, CGEventTapOptions, CGEventTapPlacement,
    CGEventType, CGWindowLevelKey,
};
use tickeys::repeat_filter::RepeatFilter;
use tickeys::scheme::AudioScheme;
use tickeys::shortcut::{matches_key_seqs, open_settings_key_seqs, should_open_settings};
use tickeys::tickeys::{keycode_from_event_field, Tickeys};

fn drum_scheme() -> AudioScheme {
    let mut map = BTreeMap::new();
    map.insert(36u8, 6u8);
    map.insert(49u8, 4u8);
    map.insert(51u8, 5u8);
    AudioScheme {
        name: "drum".to_string(),
        display_name: "Drum".to_string(),
        files: vec![
            "1.wav".to_string(),
            "2.wav".to_string(),
            "3.wav".to_string(),
            "4.wav".to_string(),
            "space.wav".to_string(),
            "backspace.wav".to_string(),
            "enter.wav".to_string(),
        ],
        non_unique_count: 4,
        key_audio_map: map,
    }
}

fn loaded() -> Tickeys {
    let mut t = Tickeys::new(vec![1, 2, 3, 4]);
    t.load_scheme(&drum_scheme(), vec![101, 102, 103, 104, 105, 106, 107]);
    t
}

fn deque(keys: &[u8]) -> VecDeque<u8> {
    keys.iter().copied().collect()
}

#[test]
fn event_codes_match_the_system_numbers() {
    assert_eq!(CGEventType::kCGEventKeyDown.code(), 10);
    assert_eq!(CGEventType::kCGEventTapDisabledByUserInput.code(), 0xFFFF_FFFF);
    assert_eq!(CGEventField::kCGKeyboardEventKeycode.code(), 9);
    assert_eq!(CGEventField::kCGScrollWheelEventMomentumPhase.code(), 123);
    assert_eq!(CGEventTapLocation::kCGHIDEventTap.code(), 0);
    assert_eq!(CGEventTapPlacement::kCGHeadInsertEventTap.code(), 0);
    assert_eq!(CGEventTapOptions::kCGEventTapOptionListenOnly.code(), 1);
    assert_eq!(CGWindowLevelKey::kCGFloatingWindowLevelKey.code(), 5);
    assert_eq!(CGWindowLevelKey::kCGNumberOfWindowLevelKeys.code(), 21);
}

#[test]
fn event_type_from_code_round_trips() {
    assert_eq!(CGEventType::from_code(10), Some(CGEventType::kCGEventKeyDown));
    assert_eq!(CGEventType::from_code(0xFFFF_FFFE), Some(CGEventType::kCGEventTapDisabledByTimeout));
    assert_eq!(CGEventType::from_code(8), None);
}

#[test]
fn key_down_mask_has_bit_ten() {
    assert_eq!(event_mask_bit(CGEventType::kCGEventKeyDown), 1024);
    assert_eq!(event_mask_bit(CGEventType::kCGEventNull), 1);
}

#[test]
fn keycode_is_low_byte_of_field() {
    assert_eq!(keycode_from_event_field(9), 9);
    assert_eq!(keycode_from_event_field(300), 44);
    assert_eq!(keycode_from_event_field(-1), 255);
}

#[test]
fn mapped_key_plays_its_own_sound_on_oldest_source() {
    let mut t = loaded();
    assert_eq!(t.handle_keydown_at(36, 1000), Some((1, 107)));
    assert_eq!(t.handle_keydown_at(49, 2000), Some((2, 105)));
}

#[test]
fn unmapped_keys_share_first_sounds() {
    let mut t = loaded();
    assert_eq!(t.sound_index_of(0), Some(0));
    assert_eq!(t.sound_index_of(5), Some(1));
    assert_eq!(t.sound_index_of(51), Some(5));
    assert_eq!(t.handle_keydown_at(5, 1000), Some((1, 102)));
    assert_eq!(t.handle_keydown_at(7, 2000), Some((2, 104)));
}

#[test]
fn nothing_plays_before_a_scheme_is_loaded() {
    let mut t = Tickeys::new(vec![1, 2, 3, 4]);
    assert_eq!(t.sound_index_of(3), None);
    assert_eq!(t.handle_keydown_at(3, 1000), None);
    assert_eq!(t.get_last_keys(), &deque(&[3]));
}

#[test]
fn quick_repeat_of_same_key_is_silent() {
    let mut t = loaded();
    assert_eq!(t.handle_keydown_at(0, 1000), Some((1, 101)));
    assert_eq!(t.handle_keydown_at(0, 1119), None);
    assert_eq!(t.handle_keydown_at(0, 1239), Some((2, 101)));
    assert_eq!(t.handle_keydown_at(1, 1240), Some((3, 102)));
}

#[test]
fn immediate_repeat_by_the_clock_is_silent() {
    let mut t = loaded();
    let first = t.handle_keydown(0);
    let second = t.handle_keydown(0);
    assert_eq!(first, Some((1, 101)));
    assert_eq!(second, None);
}

#[test]
fn index_past_loaded_sounds_plays_nothing() {
    let mut t = Tickeys::new(vec![9]);
    let mut scheme = drum_scheme();
    scheme.files.truncate(2);
    t.load_scheme(&scheme, vec![201, 202]);
    assert_eq!(t.handle_keydown_at(36, 1000), None);
    assert_eq!(t.handle_keydown_at(1, 2000), Some((9, 202)));
}

#[test]
fn last_keys_keep_six_most_recent() {
    let mut t = loaded();
    for (i, k) in [1u8, 2, 3, 4, 5, 6, 7, 8].iter().enumerate() {
        t.handle_keydown_at(*k, 1000 * (i as u64 + 1));
    }
    assert_eq!(t.get_last_keys(), &deque(&[3, 4, 5, 6, 7, 8]));
}

#[test]
fn repeat_filter_checks_key_and_window() {
    let mut f = RepeatFilter::new();
    assert!(!f.check_at(5, 10));
    assert!(f.check_at(5, 100));
    assert!(!f.check_at(6, 150));
    assert!(!f.check_at(6, 270));
    assert!(f.check_at(6, 389));
}

#[test]
fn repeat_filter_by_the_clock() {
    let mut f = RepeatFilter::new();
    f.is_too_frequent(12);
    assert!(f.is_too_frequent(12));
    assert!(!f.is_too_frequent(13));
}

#[test]
fn qaz123_opens_settings() {
    assert!(should_open_settings(&deque(&[12, 0, 6, 18, 19, 20])));
    assert!(should_open_settings(&deque(&[12, 0, 6, 83, 84, 85])));
    assert!(!should_open_settings(&deque(&[12, 0, 6, 18, 19, 21])));
    assert!(!should_open_settings(&deque(&[0, 6, 18, 19, 20])));
}

#[test]
fn settings_sequences_are_qaz123() {
    let seqs = open_settings_key_seqs();
    assert_eq!(seqs, vec![vec![12, 0, 6, 18, 19, 20], vec![12, 0, 6, 83, 84, 85]]);
}

#[test]
fn search_gives_up_at_first_longer_sequence() {
    let seqs = vec![vec![1, 2, 3, 4, 5, 6, 7], vec![9]];
    assert!(!matches_key_seqs(&deque(&[1, 9]), &seqs));
    let seqs = vec![vec![9], vec![1, 2, 3, 4, 5, 6, 7]];
    assert!(matches_key_seqs(&deque(&[1, 9]), &seqs));
    let seqs: Vec<Vec<u8>> = vec![vec![]];
    assert!(matches_key_seqs(&deque(&[]), &seqs));
}

#[test]
fn muted_keys_are_remembered_but_silent() {
    let mut t = loaded();
    t.set_mute(true);
    assert_eq!(t.handle_keydown_at(36, 1000), None);
    assert_eq!(t.get_last_keys(), &deque(&[36]));
    t.set_mute(false);
    assert_eq!(t.handle_keydown_at(36, 1050), None);
    assert_eq!(t.handle_keydown_at(36, 2000), Some((1, 107)));
}
