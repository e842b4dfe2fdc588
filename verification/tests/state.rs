use owl_dial::actions::usb::{Action as UsbAction, TriggerType};
use owl_dial::buttons::{Button, ButtonState};
use owl_dial::indicator::{action_sent, mqtt_connection_error, Indication, IndicatorAction};
use owl_dial::state::{Effect, StateManager, PAGE_CHANGE_SIGNAL_MILLIS};

fn right_fire() -> Vec<Effect> {
    vec![Effect::Indicate(IndicatorAction {
        left: Indication::Off,
        right: Indication::SingleFire(PAGE_CHANGE_SIGNAL_MILLIS),
    })]
}

fn left_fire() -> Vec<Effect> {
    vec![Effect::Indicate(IndicatorAction {
        left: Indication::SingleFire(PAGE_CHANGE_SIGNAL_MILLIS),
        right: Indication::Off,
    })]
}

#[test]
fn starts_on_first_page() {
    assert_eq!(StateManager::new().current_page(), 0);
}

#[test]
fn page_right_wraps_around() {
    let mut m = StateManager::new();
    assert_eq!(m.handle_signal(Button::PageRight, ButtonState::Pressed, None, true), right_fire());
    assert_eq!(m.current_page(), 1);
    m.handle_signal(Button::PageRight, ButtonState::Pressed, None, true);
    assert_eq!(m.current_page(), 2);
    m.handle_signal(Button::PageRight, ButtonState::Pressed, None, true);
    assert_eq!(m.current_page(), 0);
}

#[test]
fn page_left_wraps_around() {
    let mut m = StateManager::new();
    assert_eq!(m.handle_signal(Button::PageLeft, ButtonState::Pressed, None, true), left_fire());
    assert_eq!(m.current_page(), 2);
    m.handle_signal(Button::PageLeft, ButtonState::Pressed, None, true);
    assert_eq!(m.current_page(), 1);
}

#[test]
fn right_then_left_comes_back() {
    let mut m = StateManager::new();
    m.handle_signal(Button::PageRight, ButtonState::Pressed, None, true);
    m.handle_signal(Button::PageLeft, ButtonState::Pressed, None, true);
    assert_eq!(m.current_page(), 0);
}

#[test]
fn page_release_does_nothing() {
    let mut m = StateManager::new();
    assert_eq!(m.handle_signal(Button::PageRight, ButtonState::Released, None, true), vec![]);
    assert_eq!(m.current_page(), 0);
}

#[test]
fn lamp_press_publishes_mapped_dial() {
    let mut m = StateManager::new();
    let effects = m.handle_signal(Button::Button2, ButtonState::Pressed, Some(5), true);
    assert_eq!(
        effects,
        vec![
            Effect::ClearDialCount,
            Effect::CancelIndication,
            Effect::PublishMqtt { topic: "phone/button/btn1", payload: "50".to_string() },
        ]
    );
}

#[test]
fn press_without_dial_publishes_empty_payload() {
    let mut m = StateManager::new();
    let effects = m.handle_signal(Button::Button5, ButtonState::Pressed, None, true);
    assert_eq!(
        effects,
        vec![
            Effect::ClearDialCount,
            Effect::CancelIndication,
            Effect::PublishMqtt { topic: "phone/button/btn3", payload: String::new() },
        ]
    );
}

#[test]
fn plain_dial_publishes_count() {
    let mut m = StateManager::new();
    let effects = m.handle_signal(Button::Button5, ButtonState::Pressed, Some(7), true);
    assert_eq!(effects[2], Effect::PublishMqtt { topic: "phone/button/btn3", payload: "7".to_string() });
}

#[test]
fn disconnected_press_shows_error() {
    let mut m = StateManager::new();
    let effects = m.handle_signal(Button::Button1, ButtonState::Pressed, Some(3), false);
    assert_eq!(
        effects,
        vec![Effect::ClearDialCount, Effect::CancelIndication, Effect::Indicate(mqtt_connection_error())]
    );
}

#[test]
fn mqtt_release_does_nothing() {
    let mut m = StateManager::new();
    assert_eq!(m.handle_signal(Button::Button1, ButtonState::Released, Some(3), true), vec![]);
}

#[test]
fn usb_page_sends_key_on_press_and_release() {
    let mut m = StateManager::new();
    m.handle_signal(Button::PageRight, ButtonState::Pressed, None, true);
    let hold = UsbAction { trigger: TriggerType::Hold, keycode: 0x6A };
    assert_eq!(
        m.handle_signal(Button::Button3, ButtonState::Pressed, None, true),
        vec![Effect::Indicate(action_sent()), Effect::SendUsb(hold, ButtonState::Pressed)]
    );
    assert_eq!(
        m.handle_signal(Button::Button3, ButtonState::Released, None, true),
        vec![Effect::Indicate(action_sent()), Effect::SendUsb(hold, ButtonState::Released)]
    );
}

#[test]
fn event_page_sends_names() {
    let mut m = StateManager::new();
    m.handle_signal(Button::PageLeft, ButtonState::Pressed, None, true);
    assert_eq!(m.current_page(), 2);
    let effects = m.handle_signal(Button::Button1, ButtonState::Pressed, Some(3), true);
    assert_eq!(effects[2], Effect::PublishMqtt { topic: "owlimatronic/event", payload: "hello".to_string() });
    let effects = m.handle_signal(Button::Button1, ButtonState::Pressed, Some(9), true);
    assert_eq!(effects[2], Effect::PublishMqtt { topic: "owlimatronic/event", payload: String::new() });
    assert_eq!(m.handle_signal(Button::Button2, ButtonState::Pressed, Some(3), true), vec![]);
}

#[test]
fn dial_fits_only_where_a_range_needs_it() {
    let mut m = StateManager::new();
    assert!(!m.accepts_dial(Button::Button1, ButtonState::Pressed, Some(0)));
    assert!(m.accepts_dial(Button::Button1, ButtonState::Pressed, Some(1)));
    assert!(m.accepts_dial(Button::Button1, ButtonState::Released, Some(0)));
    assert!(m.accepts_dial(Button::Button5, ButtonState::Pressed, Some(0)));
    assert!(m.accepts_dial(Button::PageLeft, ButtonState::Pressed, Some(0)));
    m.handle_signal(Button::PageRight, ButtonState::Pressed, None, true);
    assert!(m.accepts_dial(Button::Button1, ButtonState::Pressed, Some(0)));
}

#[test]
fn plain_dial_publishes_zero_count() {
    let mut m = StateManager::new();
    let effects = m.handle_signal(Button::Button5, ButtonState::Pressed, Some(0), true);
    assert_eq!(effects[2], Effect::PublishMqtt { topic: "phone/button/btn3", payload: "0".to_string() });
}

#[test]
fn action_buttons_leave_the_page() {
    let mut m = StateManager::new();
    m.handle_signal(Button::PageRight, ButtonState::Pressed, None, true);
    m.handle_signal(Button::Button4, ButtonState::Pressed, None, true);
    m.handle_signal(Button::Button4, ButtonState::Released, None, true);
    assert_eq!(m.current_page(), 1);
    m.handle_signal(Button::PageLeft, ButtonState::Released, None, true);
    assert_eq!(m.current_page(), 1);
}
