use owl_dial::dial::DialEvent::{ModeEdge, Pulse};
use owl_dial::dial::{count_kept_indication, count_timeout, CountTimeout, DialEvent, DialSession, DialStep, KEEP_COUNT_MILLIS};
use owl_dial::indicator::{
    action_sent, indication_program, mqtt_connection_error, wifi_connection_failed, Indication, IndicatorAction,
    LoopingIndication, OnCancel, PinStep,
};
use owl_dial::mqtt_link::{advance, connection_active, first_stage, failure_message, on_link_event, subscribed_topic, subscription_identifier, LinkAction, LinkEvent, SessionStage};
use owl_dial::usb_device::MyDeviceHandler;
use owl_dial::util::{decode, encode, OptionalAtomicU8, NONE_VALUE};

#[test]
fn dial_counts_pulses() {
    let mut d = DialSession::new();
    assert_eq!(d.on_event(DialEvent::Pulse(100)), DialStep::Counted);
    assert_eq!(d.on_event(DialEvent::Pulse(90)), DialStep::Counted);
    assert_eq!(d.count(), 2);
    assert_eq!(d.on_event(DialEvent::ModeEdge(false)), DialStep::Finished);
    assert_eq!(d.finish(), Some(2));
}

#[test]
fn dial_ignores_fast_pulses() {
    let mut d = DialSession::new();
    assert_eq!(d.on_event(DialEvent::Pulse(84)), DialStep::Ignored);
    assert_eq!(d.on_event(DialEvent::Pulse(85)), DialStep::Counted);
    assert_eq!(d.count(), 1);
}

#[test]
fn dial_bounce_goes_on() {
    let mut d = DialSession::new();
    d.on_event(DialEvent::Pulse(200));
    assert_eq!(d.on_event(DialEvent::ModeEdge(true)), DialStep::Bounced);
    assert_eq!(d.count(), 1);
}

#[test]
fn dial_stops_after_ten() {
    let mut d = DialSession::new();
    for _ in 0..10 {
        assert_eq!(d.on_event(DialEvent::Pulse(100)), DialStep::Counted);
    }
    assert_eq!(d.on_event(DialEvent::Pulse(100)), DialStep::Finished);
    assert_eq!(d.finish(), Some(10));
}

#[test]
fn empty_dial_keeps_nothing() {
    let d = DialSession::new();
    assert_eq!(d.finish(), None);
}

#[test]
fn kept_count_lights_and_timeout() {
    assert_eq!(
        count_kept_indication(),
        IndicatorAction { left: Indication::SingleFire(KEEP_COUNT_MILLIS), right: Indication::Off }
    );
    assert_eq!(count_timeout(7, 7), CountTimeout::Forget);
    assert_eq!(count_timeout(8, 7), CountTimeout::StopWatching);
}

#[test]
fn single_fire_builder() {
    assert_eq!(
        IndicatorAction::single_fire(None, Some(200)),
        IndicatorAction { left: Indication::Off, right: Indication::SingleFire(200) }
    );
    assert_eq!(
        IndicatorAction::single_fire(Some(1000), Some(1000)),
        IndicatorAction { left: Indication::SingleFire(1000), right: Indication::SingleFire(1000) }
    );
}

#[test]
fn signal_lights() {
    let blink = |on, off| Indication::Looping(LoopingIndication { time_on: on, time_off: off, count: 3 });
    assert_eq!(mqtt_connection_error(), IndicatorAction { left: Indication::Off, right: blink(100, 500) });
    assert_eq!(wifi_connection_failed(), IndicatorAction { left: Indication::Off, right: blink(500, 100) });
    assert_eq!(action_sent(), IndicatorAction { left: Indication::Off, right: Indication::SingleFire(100) });
}

#[test]
fn indication_programs() {
    assert_eq!(indication_program(&Indication::Off), vec![PinStep::Off]);
    assert_eq!(
        indication_program(&Indication::SingleFire(100)),
        vec![PinStep::On, PinStep::Wait(100, OnCancel::Proceed), PinStep::Off]
    );
    let l = LoopingIndication { time_on: 100, time_off: 500, count: 2 };
    let blink = [PinStep::On, PinStep::Wait(100, OnCancel::OffAndStop), PinStep::Off, PinStep::Wait(500, OnCancel::Stop)];
    let mut expected = blink.to_vec();
    expected.extend_from_slice(&blink);
    assert_eq!(indication_program(&Indication::Looping(l)), expected);
    let none = LoopingIndication { time_on: 1, time_off: 1, count: 0 };
    assert_eq!(indication_program(&Indication::Looping(none)), vec![]);
}

#[test]
fn optional_byte_round_trip() {
    let a = OptionalAtomicU8::new(None);
    assert_eq!(a.load(), None);
    a.store(Some(4));
    assert_eq!(a.load(), Some(4));
    a.store(None);
    assert_eq!(a.load(), None);
    a.store(Some(0));
    assert_eq!(a.load(), Some(0));
    // the reserved byte reads back as none
    a.store(Some(NONE_VALUE));
    assert_eq!(a.load(), None);
    assert_eq!(OptionalAtomicU8::new(Some(9)).load(), Some(9));
    assert_eq!(encode(None), 255);
    assert_eq!(decode(encode(Some(17))), Some(17));
}

#[test]
fn usb_device_follows_bus() {
    let mut h = MyDeviceHandler::new();
    assert!(!h.is_configured());
    h.configured(true);
    assert!(h.is_configured());
    h.addressed(3);
    assert!(!h.is_configured());
    h.configured(true);
    h.reset();
    assert!(!h.is_configured());
    h.configured(true);
    h.enabled(true);
    assert!(!h.is_configured());
    h.configured(true);
    h.configured(false);
    assert!(!h.is_configured());
}

#[test]
fn mqtt_decisions() {
    assert_eq!(on_link_event(LinkEvent::Message), LinkAction::Publish);
    assert_eq!(on_link_event(LinkEvent::PingResponse), LinkAction::Continue);
    assert_eq!(on_link_event(LinkEvent::OtherPacket), LinkAction::Continue);
    assert_eq!(on_link_event(LinkEvent::PollError), LinkAction::Fail(SessionStage::Poll));
    assert_eq!(on_link_event(LinkEvent::Idle), LinkAction::Ping);
    assert_eq!(failure_message(SessionStage::TcpConnect), "tcp connect failed");
    assert_eq!(failure_message(SessionStage::MqttConnect), "mqtt connect failed");
    assert_eq!(failure_message(SessionStage::Subscribe), "subscribe failed");
    assert_eq!(failure_message(SessionStage::Poll), "poll failed");
    assert_eq!(subscription_identifier(true), Some(42));
    assert_eq!(subscription_identifier(false), None);
    assert_eq!(subscribed_topic(), "owlimatronic/event");
}

#[test]
fn fast_pulse_inserted_changes_nothing() {
    let run = |events: &[DialEvent]| {
        let mut d = DialSession::new();
        for e in events {
            if d.on_event(*e) == DialStep::Finished {
                return d.finish();
            }
        }
        None
    };
    let events = [Pulse(120), Pulse(100), ModeEdge(true), Pulse(300), ModeEdge(false)];
    let with_fast = [Pulse(120), Pulse(40), Pulse(100), ModeEdge(true), Pulse(300), ModeEdge(false)];
    assert_eq!(run(&events), Some(3));
    assert_eq!(run(&with_fast), Some(3));
}

#[test]
fn mqtt_session_stages() {
    let s = first_stage();
    assert_eq!(s, SessionStage::TcpConnect);
    assert!(!connection_active(s));
    assert_eq!(advance(s, false), Err(SessionStage::TcpConnect));
    let s = advance(s, true).unwrap();
    assert_eq!(s, SessionStage::MqttConnect);
    assert_eq!(advance(s, false), Err(SessionStage::MqttConnect));
    let s = advance(s, true).unwrap();
    assert_eq!(s, SessionStage::Subscribe);
    assert!(!connection_active(s));
    assert_eq!(advance(s, false), Err(SessionStage::Subscribe));
    let s = advance(s, true).unwrap();
    assert_eq!(s, SessionStage::Poll);
    assert!(connection_active(s));
    assert_eq!(advance(s, true), Ok(SessionStage::Poll));
}
