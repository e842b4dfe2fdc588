use owl_dial::actions::usb::{Action, TriggerType};
use owl_dial::buttons::ButtonState;
use owl_dial::keyboard::{UsbState, UsbStep, TAP_MILLIS};

fn keys(s: &UsbState) -> [u8; 6] {
    s.active_keys()
}

#[test]
fn add_key_uses_first_free_slot() {
    let mut s = UsbState::new();
    s.add_key(0x68);
    s.add_key(0x69);
    assert_eq!(keys(&s), [0x68, 0x69, 0, 0, 0, 0]);
    s.remove_key(0x68);
    s.add_key(0x04);
    assert_eq!(keys(&s), [0x04, 0x69, 0, 0, 0, 0]);
}

#[test]
fn add_key_twice_holds_once() {
    let mut s = UsbState::new();
    s.add_key(0x6A);
    s.add_key(0x6A);
    assert_eq!(keys(&s), [0x6A, 0, 0, 0, 0, 0]);
}

#[test]
fn add_key_when_full_changes_nothing() {
    let mut s = UsbState::new();
    for k in 1..=6 {
        s.add_key(k);
    }
    assert_eq!(keys(&s), [1, 2, 3, 4, 5, 6]);
    s.add_key(7);
    assert_eq!(keys(&s), [1, 2, 3, 4, 5, 6]);
    assert!(!s.contains(7));
}

#[test]
fn remove_missing_key_changes_nothing() {
    let mut s = UsbState::new();
    s.add_key(9);
    s.remove_key(8);
    assert_eq!(keys(&s), [9, 0, 0, 0, 0, 0]);
}

#[test]
fn zero_key_changes_nothing() {
    let mut s = UsbState::new();
    s.add_key(3);
    s.add_key(0);
    s.remove_key(0);
    assert_eq!(keys(&s), [3, 0, 0, 0, 0, 0]);
}

#[test]
fn toggle_key_flips() {
    let mut s = UsbState::new();
    s.toggle_key(0x6A);
    assert!(s.contains(0x6A));
    s.toggle_key(0x6A);
    assert!(!s.contains(0x6A));
    assert_eq!(keys(&s), [0; 6]);
}

#[test]
fn tap_restores_keys() {
    let mut s = UsbState::new();
    s.add_key(5);
    let before = keys(&s);
    let steps = s.keyboard_action(Action { trigger: TriggerType::Press, keycode: 0x68 }, ButtonState::Pressed);
    assert_eq!(
        steps,
        vec![
            UsbStep::Report([5, 0x68, 0, 0, 0, 0]),
            UsbStep::Pause(TAP_MILLIS),
            UsbStep::Report([5, 0, 0, 0, 0, 0]),
        ]
    );
    assert_eq!(keys(&s), before);
}

#[test]
fn released_tap_reports_unchanged_keys() {
    let mut s = UsbState::new();
    let steps = s.keyboard_action(Action { trigger: TriggerType::Press, keycode: 0x68 }, ButtonState::Released);
    assert_eq!(steps, vec![UsbStep::Report([0; 6])]);
}

#[test]
fn hold_follows_the_button() {
    let mut s = UsbState::new();
    let a = Action { trigger: TriggerType::Hold, keycode: 0x04 };
    assert_eq!(s.keyboard_action(a, ButtonState::Pressed), vec![UsbStep::Report([0x04, 0, 0, 0, 0, 0])]);
    assert_eq!(s.keyboard_action(a, ButtonState::Released), vec![UsbStep::Report([0; 6])]);
}

#[test]
fn toggle_acts_on_press_only() {
    let mut s = UsbState::new();
    let a = Action { trigger: TriggerType::Toggle, keycode: 0x6A };
    assert_eq!(s.keyboard_action(a, ButtonState::Pressed), vec![UsbStep::Report([0x6A, 0, 0, 0, 0, 0])]);
    assert_eq!(s.keyboard_action(a, ButtonState::Released), vec![]);
    assert_eq!(s.keyboard_action(a, ButtonState::Pressed), vec![UsbStep::Report([0; 6])]);
}
