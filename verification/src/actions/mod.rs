//! What each button of each page does.

use vstd::prelude::*;

pub mod mqtt;
pub mod usb;

use mqtt::{DialMode, MapRangeOptions, MapValuesOptions};
use usb::TriggerType;

verus! {

/// What one button does.
#[derive(Debug, Clone, Copy, PartialEq, Eq)]
pub enum Action {
    /// The button does nothing.
    Unassigned,
    Mqtt(mqtt::Action),
    Usb(usb::Action),
}

/// The actions of the five buttons on one page.
#[derive(Debug, Clone, Copy, PartialEq, Eq)]
pub struct Page {
    pub actions: [Action; 5],
}

/// The number of pages in the table that `pages` builds.
pub const PAGE_COUNT: usize = 3;

/// The number of buttons on each page.
pub const BUTTONS_PER_PAGE: usize = 5;

/// The names that the event action sends, by dial count.
pub open spec fn event_names() -> Seq<(u32, Seq<char>)> {
    seq![
        (1u32, "yap"@),
        (2u32, "test"@),
        (3u32, "hello"@),
        (4u32, "shocked"@),
        (5u32, "pick_up"@),
        (6u32, "panic"@),
        (7u32, "sweep"@),
    ]
}

/// `a` is a lamp control action on `topic`.
pub open spec fn is_lamp_action(a: Action, topic: Seq<char>) -> bool {
    &&& a matches Action::Mqtt(m)
    &&& m.topic@ == topic
    &&& m.dial == DialMode::MapRange(MapRangeOptions { required: false, out_min: 10, out_max: 100 })
}

/// `a` is an MQTT action on `topic` with a plain dial that is not required.
pub open spec fn is_plain_action(a: Action, topic: Seq<char>) -> bool {
    &&& a matches Action::Mqtt(m)
    &&& m.topic@ == topic
    &&& m.dial == DialMode::Normal(mqtt::DialOptions { required: false })
}

/// `a` sends `keycode` to the USB host on `trigger`.
pub open spec fn is_key_action(a: Action, trigger: TriggerType, keycode: u8) -> bool {
    a == Action::Usb(usb::Action { trigger, keycode })
}

/// `a` is the event action: it sends the name of the dial count to `owlimatronic/event`,
/// and needs a dial count.
pub open spec fn is_event_action(a: Action) -> bool {
    &&& a matches Action::Mqtt(m)
    &&& m.topic@ == "owlimatronic/event"@
    &&& m.dial matches DialMode::MapValues(o)
    &&& o.required
    &&& o.values@.len() == event_names().len()
    &&& forall|i: int|
        0 <= i < event_names().len() ==> o.values@[i].0 == event_names()[i].0 && o.values@[i].1@
            == event_names()[i].1
}

/// The page table: lamps and a plain topic on the first page, function keys on the second,
/// the event action on the third.
pub open spec fn is_page_table(pages: Seq<Page>) -> bool {
    &&& pages.len() == PAGE_COUNT
    &&& is_lamp_action(pages[0].actions@[0], "phone/button/btn0"@)
    &&& is_lamp_action(pages[0].actions@[1], "phone/button/btn1"@)
    &&& is_lamp_action(pages[0].actions@[2], "phone/button/btn2"@)
    &&& is_lamp_action(pages[0].actions@[3], "phone/button/btn3"@)
    &&& is_plain_action(pages[0].actions@[4], "phone/button/btn3"@)
    &&& is_key_action(pages[1].actions@[0], TriggerType::Press, 0x68)
    &&& is_key_action(pages[1].actions@[1], TriggerType::Press, 0x69)
    &&& is_key_action(pages[1].actions@[2], TriggerType::Hold, 0x6A)
    &&& is_key_action(pages[1].actions@[3], TriggerType::Toggle, 0x6A)
    &&& is_key_action(pages[1].actions@[4], TriggerType::Hold, 0x04)
    &&& is_event_action(pages[2].actions@[0])
    &&& pages[2].actions@[1] == Action::Unassigned
    &&& pages[2].actions@[2] == Action::Unassigned
    &&& pages[2].actions@[3] == Action::Unassigned
    &&& pages[2].actions@[4] == Action::Unassigned
}

fn event_values() -> (r: &'static [(u32, &'static str)])
    ensures
        r@.len() == event_names().len(),
        forall|i: int|
            0 <= i < event_names().len() ==> r@[i].0 == event_names()[i].0 && r@[i].1@
                == event_names()[i].1,
{
    &[
        (1, "yap"),
        (2, "test"),
        (3, "hello"),
        (4, "shocked"),
        (5, "pick_up"),
        (6, "panic"),
        (7, "sweep"),
    ]
}

/// The page table.
pub fn pages() -> (r: Vec<Page>)
    ensures
        is_page_table(r@),
{
    let mut pages: Vec<Page> = Vec::new();
    pages.push(
        Page {
            actions: [
                Action::Mqtt(mqtt::Action::new_lamp_control("phone/button/btn0")),
                Action::Mqtt(mqtt::Action::new_lamp_control("phone/button/btn1")),
                Action::Mqtt(mqtt::Action::new_lamp_control("phone/button/btn2")),
                Action::Mqtt(mqtt::Action::new_lamp_control("phone/button/btn3")),
                Action::Mqtt(mqtt::Action::new("phone/button/btn3")),
            ],
        },
    );
    pages.push(
        Page {
            actions: [
                Action::Usb(usb::Action { trigger: TriggerType::Press, keycode: usb::keycode_f13() }),
                Action::Usb(usb::Action { trigger: TriggerType::Press, keycode: usb::keycode_f14() }),
                Action::Usb(usb::Action { trigger: TriggerType::Hold, keycode: usb::keycode_f15() }),
                Action::Usb(usb::Action { trigger: TriggerType::Toggle, keycode: usb::keycode_f15() }),
                Action::Usb(usb::Action { trigger: TriggerType::Hold, keycode: usb::keycode_a() }),
            ],
        },
    );
    pages.push(
        Page {
            actions: [
                Action::Mqtt(
                    mqtt::Action {
                        topic: "owlimatronic/event",
                        dial: DialMode::MapValues(
                            MapValuesOptions { required: true, values: event_values() },
                        ),
                    },
                ),
                Action::Unassigned,
                Action::Unassigned,
                Action::Unassigned,
                Action::Unassigned,
            ],
        },
    );
    pages
}

} // verus!
