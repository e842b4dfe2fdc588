use owl_dial::buttons::{Button, ButtonState, BUTTON_COUNT};
use owl_dial::scanner::{select_levels, ButtonService};

#[test]
fn button_indices() {
    assert_eq!(Button::Button1.to_index(), 0);
    assert_eq!(Button::Button5.to_index(), 4);
    assert_eq!(Button::PageLeft.to_index(), 5);
    assert_eq!(Button::PageRight.to_index(), 6);
}

#[test]
fn index_round_trip() {
    for i in 0..BUTTON_COUNT {
        assert_eq!(Button::from_index(i).to_index(), i);
    }
    assert_eq!(Button::from_index(5), Button::PageLeft);
    assert_eq!(Button::from_index(6), Button::PageRight);
}

#[test]
fn button_state_from_reading() {
    assert_eq!(ButtonState::from(true), ButtonState::Pressed);
    assert_eq!(ButtonState::from(false), ButtonState::Released);
}

#[test]
fn select_levels_are_the_channel_bits() {
    assert_eq!(select_levels(0), [false, false, false]);
    assert_eq!(select_levels(1), [true, false, false]);
    assert_eq!(select_levels(2), [false, true, false]);
    assert_eq!(select_levels(5), [true, false, true]);
    assert_eq!(select_levels(6), [false, true, true]);
}

#[test]
fn scanner_reports_changes_only() {
    let mut s = ButtonService::new();
    assert_eq!(s.channel(), 0);
    assert_eq!(s.step(true), Some((Button::Button1, ButtonState::Pressed)));
    assert_eq!(s.channel(), 1);
    assert_eq!(s.step(false), None);
    for _ in 2..7 {
        assert_eq!(s.step(false), None);
    }
    assert_eq!(s.channel(), 0);
    // still down: no report
    assert_eq!(s.step(true), None);
    for _ in 1..7 {
        s.step(false);
    }
    assert_eq!(s.step(false), Some((Button::Button1, ButtonState::Released)));
}

#[test]
fn scanner_cycles_through_seven_channels() {
    let mut s = ButtonService::new();
    let mut seen = Vec::new();
    for _ in 0..7 {
        seen.push(s.channel());
        let e = s.step(true);
        assert!(e.is_some());
    }
    assert_eq!(seen, vec![0, 1, 2, 3, 4, 5, 6]);
    assert_eq!(s.channel(), 0);
}

#[test]
fn scanner_reports_page_buttons() {
    let mut s = ButtonService::new();
    for _ in 0..5 {
        s.step(false);
    }
    assert_eq!(s.step(true), Some((Button::PageLeft, ButtonState::Pressed)));
    assert_eq!(s.step(true), Some((Button::PageRight, ButtonState::Pressed)));
}
