use macro_buddy::hotkey::HotkeyWatcher;
use macro_buddy::jitter::{calculate_interval, interval_for_offset, MIN_INTERVAL_MS};
use macro_buddy::keys::{str_to_key, str_to_keycode};

#[test]
fn zero_variance_returns_base_exactly() {
    for base in [0u64, 50, 100, 1000, u64::MAX] {
        assert_eq!(calculate_interval(base, 0), base);
    }
}

#[test]
fn jittered_interval_stays_in_bounds() {
    for _ in 0..2000 {
        let r = calculate_interval(1000, 200);
        assert!((800..=1200).contains(&r));
    }
    for _ in 0..2000 {
        let r = calculate_interval(150, 100);
        assert!((100..=250).contains(&r));
    }
}

#[test]
fn jittered_interval_varies() {
    let first = calculate_interval(1000, 500);
    let varied = (0..200).any(|_| calculate_interval(1000, 500) != first);
    assert!(varied);
}

#[test]
fn offset_is_applied_and_clamped() {
    assert_eq!(interval_for_offset(1000, -150), 850);
    assert_eq!(interval_for_offset(1000, 150), 1150);
    assert_eq!(interval_for_offset(120, -100), MIN_INTERVAL_MS);
    assert_eq!(interval_for_offset(u64::MAX, 5), u64::MAX);
}

#[test]
fn action_key_symbols_resolve() {
    assert_eq!(str_to_key("1"), Some('1'));
    assert_eq!(str_to_key("5"), Some('5'));
    assert_eq!(str_to_key("e"), Some('e'));
    assert_eq!(str_to_key("Q"), Some('q'));
    assert_eq!(str_to_key("T"), Some('t'));
    assert_eq!(str_to_key("6"), None);
    assert_eq!(str_to_key("y"), None);
    assert_eq!(str_to_key(""), None);
    assert_eq!(str_to_key("11"), None);
}

#[test]
fn hotkey_symbols_resolve() {
    assert_eq!(str_to_keycode("F1"), Some(1));
    assert_eq!(str_to_keycode("F9"), Some(9));
    assert_eq!(str_to_keycode("F10"), Some(10));
    assert_eq!(str_to_keycode("F12"), Some(12));
    assert_eq!(str_to_keycode("F13"), None);
    assert_eq!(str_to_keycode("F0"), None);
    assert_eq!(str_to_keycode("f1"), None);
    assert_eq!(str_to_keycode(""), None);
}

#[test]
fn held_hotkey_toggles_once() {
    let mut w = HotkeyWatcher::new();
    let flips = [true, true, true, true, true].iter().filter(|&&p| w.observe(p)).count();
    assert_eq!(flips, 1);
}

#[test]
fn each_new_press_toggles() {
    let mut w = HotkeyWatcher::new();
    let readings = [false, true, true, false, true, false, false, true];
    let flips: Vec<bool> = readings.iter().map(|&p| w.observe(p)).collect();
    assert_eq!(flips, vec![false, true, false, false, true, false, false, true]);
}
