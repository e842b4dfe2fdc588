use usbd_hid::descriptor::KeyboardUsage;
use owl_dial::actions::mqtt::{DialMode, DialOptions, DialValue, MapRangeOptions, MapValuesOptions};
use owl_dial::actions::usb::TriggerType;
use owl_dial::actions::{mqtt, pages, usb, Action};
use owl_dial::decimal::format_i32;

fn lamp_options() -> MapRangeOptions {
    MapRangeOptions { required: false, out_min: 10, out_max: 100 }
}

#[test]
fn map_value_sends_lowest_count_to_out_min() {
    assert_eq!(lamp_options().map_value(1), 10);
}

#[test]
fn map_value_sends_highest_count_to_out_max() {
    assert_eq!(lamp_options().map_value(10), 100);
}

#[test]
fn map_value_is_linear_in_between() {
    let o = lamp_options();
    assert_eq!(o.map_value(2), 20);
    assert_eq!(o.map_value(5), 50);
    assert_eq!(o.map_value(9), 90);
}

#[test]
fn map_value_rounds_toward_zero() {
    let o = MapRangeOptions { required: false, out_min: 0, out_max: 100 };
    // 1 * 100 / 9 = 11.1
    assert_eq!(o.map_value(2), 11);
    let n = MapRangeOptions { required: false, out_min: 0, out_max: -5 };
    // 1 * -5 / 9 = -0.55, toward zero
    assert_eq!(n.map_value(2), 0);
    assert_eq!(n.map_value(10), -5);
}

#[test]
fn map_value_descending_range() {
    let o = MapRangeOptions { required: false, out_min: 100, out_max: 10 };
    assert_eq!(o.map_value(1), 100);
    assert_eq!(o.map_value(2), 90);
    assert_eq!(o.map_value(10), 10);
}

#[test]
fn map_value_beyond_ten_extrapolates() {
    assert_eq!(lamp_options().map_value(11), 110);
    assert_eq!(lamp_options().map_value(255), 2550);
}

#[test]
fn map_value_narrows_to_i32() {
    let o = MapRangeOptions { required: false, out_min: 0, out_max: i32::MAX };
    // 254 * (2^31 - 1) / 9 + 0 does not fit in i32: it wraps as `as i32` does.
    let wide: i64 = 254i64 * (i32::MAX as i64) / 9;
    assert_eq!(o.map_value(255), wide as i32);
}

#[test]
fn new_action_has_plain_dial() {
    let a = mqtt::Action::new("phone/button/btn3");
    assert_eq!(a.topic, "phone/button/btn3");
    assert_eq!(a.dial, DialMode::Normal(DialOptions { required: false }));
}

#[test]
fn new_lamp_control_maps_onto_ten_to_hundred() {
    let a = mqtt::Action::new_lamp_control("phone/button/btn0");
    assert_eq!(a.topic, "phone/button/btn0");
    assert_eq!(a.dial, DialMode::MapRange(lamp_options()));
}

#[test]
fn action_map_value_per_dial_mode() {
    let plain = mqtt::Action::new("t");
    assert_eq!(plain.map_value(7), DialValue::Number(7));
    let unused = mqtt::Action { dial: DialMode::Unused, topic: "t" };
    assert_eq!(unused.map_value(3), DialValue::Text(""));
    let lamp = mqtt::Action::new_lamp_control("t");
    assert_eq!(lamp.map_value(3), DialValue::Number(30));
    let named = mqtt::Action {
        dial: DialMode::MapValues(MapValuesOptions {
            required: true,
            values: &[(1, "one"), (2, "two"), (2, "again")],
        }),
        topic: "t",
    };
    assert_eq!(named.map_value(2), DialValue::Text("two"));
    assert_eq!(named.map_value(9), DialValue::Text(""));
}

#[test]
fn dial_value_text() {
    assert_eq!(DialValue::Number(-42).to_text(), "-42");
    assert_eq!(DialValue::Number(0).to_text(), "0");
    assert_eq!(DialValue::Text("sweep").to_text(), "sweep");
}

#[test]
fn format_i32_matches_display() {
    for v in [0, 7, 10, 99, 100, 12345, -1, -10, -305, i32::MAX, i32::MIN] {
        assert_eq!(format_i32(v), v.to_string());
    }
}

#[test]
fn page_table_first_page_controls_lamps() {
    let p = pages();
    assert_eq!(p.len(), 3);
    for (slot, topic) in ["phone/button/btn0", "phone/button/btn1", "phone/button/btn2", "phone/button/btn3"]
        .iter()
        .enumerate()
    {
        assert_eq!(p[0].actions[slot], Action::Mqtt(mqtt::Action::new_lamp_control(topic)));
    }
    assert_eq!(p[0].actions[4], Action::Mqtt(mqtt::Action::new("phone/button/btn3")));
}

#[test]
fn page_table_second_page_sends_hid_keycodes() {
    let p = pages();
    let key = |trigger, keycode| Action::Usb(usb::Action { trigger, keycode });
    assert_eq!(p[1].actions[0], key(TriggerType::Press, 0x68));
    assert_eq!(p[1].actions[1], key(TriggerType::Press, 0x69));
    assert_eq!(p[1].actions[2], key(TriggerType::Hold, 0x6A));
    assert_eq!(p[1].actions[3], key(TriggerType::Toggle, 0x6A));
    assert_eq!(p[1].actions[4], key(TriggerType::Hold, 0x04));
}

#[test]
fn page_table_keycodes_match_usbd_hid() {
    let p = pages();
    let code = |a: &Action| match a {
        Action::Usb(u) => u.keycode,
        _ => panic!("not a USB action"),
    };
    assert_eq!(code(&p[1].actions[0]), KeyboardUsage::KeyboardF13 as u8);
    assert_eq!(code(&p[1].actions[1]), KeyboardUsage::KeyboardF14 as u8);
    assert_eq!(code(&p[1].actions[2]), KeyboardUsage::KeyboardF15 as u8);
    assert_eq!(code(&p[1].actions[4]), KeyboardUsage::KeyboardAa as u8);
}

#[test]
fn page_table_third_page_sends_event_names() {
    let p = pages();
    match p[2].actions[0] {
        Action::Mqtt(a) => {
            assert_eq!(a.topic, "owlimatronic/event");
            match a.dial {
                DialMode::MapValues(o) => {
                    assert!(o.required);
                    assert_eq!(
                        o.values,
                        &[
                            (1, "yap"),
                            (2, "test"),
                            (3, "hello"),
                            (4, "shocked"),
                            (5, "pick_up"),
                            (6, "panic"),
                            (7, "sweep"),
                        ]
                    );
                }
                _ => panic!("not a value map"),
            }
            assert_eq!(a.map_value(5), DialValue::Text("pick_up"));
        }
        _ => panic!("not an MQTT action"),
    }
    for slot in 1..5 {
        assert_eq!(p[2].actions[slot], Action::Unassigned);
    }
}
