//! What button events do: page changes, and the action of the button on the current page.
//!
//! The manager decides; it hands back the effects for the caller to carry out.

use vstd::prelude::*;

use crate::actions::{is_page_table, pages, Action, Page, PAGE_COUNT};
use crate::actions::{mqtt, usb};
use crate::buttons::{button_index, Button, ButtonState};
use crate::indicator::{action_sent, mqtt_connection_error, Indication, IndicatorAction, LoopingIndication};

verus! {

/// How long the light on the side of a page change fires, in milliseconds.
pub const PAGE_CHANGE_SIGNAL_MILLIS: u64 = 200;

/// Something for the caller to do after an event.
#[derive(Debug, Clone, PartialEq, Eq)]
pub enum Effect {
    /// Show this on the lights.
    Indicate(IndicatorAction),
    /// Forget the kept dial count.
    ClearDialCount,
    /// Cut short what the lights show.
    CancelIndication,
    /// Publish `payload` on `topic`.
    PublishMqtt { topic: &'static str, payload: String },
    /// Send a USB action for a button state to the keyboard.
    SendUsb(usb::Action, ButtonState),
}

/// The page after `page` among `count` pages, the first after the last.
pub open spec fn next_page(page: int, count: int) -> int {
    (page + 1) % count
}

/// The page before `page` among `count` pages, the last before the first.
pub open spec fn previous_page(page: int, count: int) -> int {
    (page + count - 1) % count
}

/// The page after a button event on `page`: a press of the right page button moves to the
/// next page, of the left one to the previous page; every other event leaves the page.
pub open spec fn page_after(page: int, button: Button, state: ButtonState) -> int {
    if state == ButtonState::Pressed && button == Button::PageRight {
        next_page(page, PAGE_COUNT as int)
    } else if state == ButtonState::Pressed && button == Button::PageLeft {
        previous_page(page, PAGE_COUNT as int)
    } else {
        page
    }
}

/// The effects of a button event on the pages: a press of a page button fires the light on
/// its side; every other event has none.
pub open spec fn page_effects(button: Button, state: ButtonState) -> Seq<Effect> {
    if state == ButtonState::Pressed && button == Button::PageRight {
        seq![
            Effect::Indicate(
                IndicatorAction { left: Indication::Off, right: Indication::SingleFire(PAGE_CHANGE_SIGNAL_MILLIS) },
            ),
        ]
    } else if state == ButtonState::Pressed && button == Button::PageLeft {
        seq![
            Effect::Indicate(
                IndicatorAction { left: Indication::SingleFire(PAGE_CHANGE_SIGNAL_MILLIS), right: Indication::Off },
            ),
        ]
    } else {
        Seq::empty()
    }
}

/// The payload of an MQTT action: the text of the dial count's value, or empty with no count.
pub open spec fn payload_text(a: mqtt::Action, dial: Option<u8>) -> Seq<char> {
    match dial {
        Some(c) => a.dial.dial_value(c).text(),
        None => Seq::empty(),
    }
}

/// `e` publishes `payload` on `topic`.
pub open spec fn is_publish(e: Effect, topic: &'static str, payload: Seq<char>) -> bool {
    e matches Effect::PublishMqtt { topic: t, payload: p } && t == topic && p@ == payload
}

/// The lights when the MQTT connection is down.
pub open spec fn connection_error_lights() -> IndicatorAction {
    IndicatorAction {
        left: Indication::Off,
        right: Indication::Looping(LoopingIndication { time_on: 100, time_off: 500, count: 3 }),
    }
}

/// The lights when an action is sent.
pub open spec fn action_sent_lights() -> IndicatorAction {
    IndicatorAction { left: Indication::Off, right: Indication::SingleFire(100) }
}

/// The effects of an MQTT action on a press: forget the dial count and cut short the lights,
/// then publish the payload, or show the connection error when the connection is down.
pub open spec fn mqtt_effects_ok(
    r: Seq<Effect>,
    a: mqtt::Action,
    dial: Option<u8>,
    connected: bool,
) -> bool {
    &&& r.len() == 3
    &&& r[0] == Effect::ClearDialCount
    &&& r[1] == Effect::CancelIndication
    &&& if connected {
        is_publish(r[2], a.topic, payload_text(a, dial))
    } else {
        r[2] == Effect::Indicate(connection_error_lights())
    }
}

/// The effects of a button event on an action button whose action is `action`.
pub open spec fn button_effects_ok(
    r: Seq<Effect>,
    action: Action,
    state: ButtonState,
    dial: Option<u8>,
    connected: bool,
) -> bool {
    match action {
        Action::Unassigned => r.len() == 0,
        Action::Usb(u) => r == seq![Effect::Indicate(action_sent_lights()), Effect::SendUsb(u, state)],
        Action::Mqtt(a) => if state == ButtonState::Pressed {
            mqtt_effects_ok(r, a, dial, connected)
        } else {
            r.len() == 0
        },
    }
}

/// The page being shown, and the page table.
pub struct StateManager {
    current_page_index: usize,
    pages: Vec<Page>,
}

/// The state of the manager as plain values.
pub struct StateView {
    /// The index of the current page.
    pub page: nat,
    /// The page table.
    pub pages: Seq<Page>,
}

impl View for StateManager {
    type V = StateView;

    closed spec fn view(&self) -> StateView {
        StateView { page: self.current_page_index as nat, pages: self.pages@ }
    }
}

impl StateManager {
    /// The current page is one of the table's, and the table is the device's.
    pub open spec fn wf(&self) -> bool {
        &&& is_page_table(self@.pages)
        &&& self@.page < self@.pages.len()
    }

    /// The action that an action button runs on the current page.
    pub open spec fn action_of(&self, button: Button) -> Action {
        self@.pages[self@.page as int].actions@[button_index(button)]
    }

    /// The dial count can be given with this event: only a press of an action button whose
    /// MQTT action maps the count reads it, and a range map needs a count of at least one.
    pub open spec fn dial_fits(&self, button: Button, state: ButtonState, dial: Option<u8>) -> bool {
        !button.is_page_button() && state == ButtonState::Pressed ==> match (self.action_of(button), dial) {
            (Action::Mqtt(a), Some(c)) => a.dial.accepts(c),
            _ => true,
        }
    }

    /// Whether the dial count can be given with this event.
    pub fn accepts_dial(&self, button: Button, state: ButtonState, dial: Option<u8>) -> (r: bool)
        requires
            self.wf(),
        ensures
            r == self.dial_fits(button, state, dial),
    {
        if button == Button::PageLeft || button == Button::PageRight || state != ButtonState::Pressed {
            return true;
        }
        match (&self.pages[self.current_page_index].actions[button.to_index()], dial) {
            (Action::Mqtt(a), Some(c)) => match &a.dial {
                mqtt::DialMode::MapRange(o) => c >= mqtt::DIAL_IN_MIN && o.out_max as i64 - o.out_min as i64
                    <= i32::MAX as i64 && o.out_max as i64 - o.out_min as i64 >= i32::MIN as i64,
                _ => true,
            },
            _ => true,
        }
    }

    /// The first page of the page table.
    pub fn new() -> (r: Self)
        ensures
            r.wf(),
            r@.page == 0,
    {
        StateManager { current_page_index: 0, pages: pages() }
    }

    /// The index of the current page.
    pub fn current_page(&self) -> (r: usize)
        ensures
            r == self@.page,
    {
        self.current_page_index
    }

    /// Handles a button event: the page buttons change the page on a press; the other
    /// buttons run their action on the current page. `dial` is the kept dial count and
    /// `connected` whether the MQTT connection is up; an MQTT action reads them.
    pub fn handle_signal(
        &mut self,
        button: Button,
        state: ButtonState,
        dial: Option<u8>,
        connected: bool,
    ) -> (r: Vec<Effect>)
        requires
            old(self).wf(),
            old(self).dial_fits(button, state, dial),
        ensures
            final(self).wf(),
            final(self)@.pages == old(self)@.pages,
            final(self)@.page == page_after(old(self)@.page as int, button, state),
            if button.is_page_button() {
                r@ == page_effects(button, state)
            } else {
                &&& final(self)@.page == old(self)@.page
                &&& button_effects_ok(
                    r@,
                    old(self)@.pages[old(self)@.page as int].actions@[button_index(button)],
                    state,
                    dial,
                    connected,
                )
            },
    {
        match button {
            Button::PageRight | Button::PageLeft => self.handle_page_event(button, state),
            _ => self.handle_button_event(button, state, dial, connected),
        }
    }

    fn handle_page_event(&mut self, button: Button, state: ButtonState) -> (r: Vec<Effect>)
        requires
            old(self).wf(),
        ensures
            final(self).wf(),
            final(self)@.pages == old(self)@.pages,
            final(self)@.page == page_after(old(self)@.page as int, button, state),
            r@ == page_effects(button, state),
    {
        let mut effects: Vec<Effect> = Vec::new();
        if state != ButtonState::Pressed {
            return effects;
        }
        let page_count = self.pages.len();
        match button {
            Button::PageRight => {
                effects.push(
                    Effect::Indicate(IndicatorAction::single_fire(None, Some(PAGE_CHANGE_SIGNAL_MILLIS))),
                );
                self.current_page_index = (self.current_page_index + 1) % page_count;
            },
            Button::PageLeft => {
                effects.push(
                    Effect::Indicate(IndicatorAction::single_fire(Some(PAGE_CHANGE_SIGNAL_MILLIS), None)),
                );
                self.current_page_index = (self.current_page_index + page_count - 1) % page_count;
            },
            _ => {},
        }
        effects
    }

    fn handle_button_event(
        &mut self,
        button: Button,
        state: ButtonState,
        dial: Option<u8>,
        connected: bool,
    ) -> (r: Vec<Effect>)
        requires
            old(self).wf(),
            !button.is_page_button(),
            old(self).dial_fits(button, state, dial),
        ensures
            final(self)@ == old(self)@,
            button_effects_ok(
                r@,
                old(self)@.pages[old(self)@.page as int].actions@[button_index(button)],
                state,
                dial,
                connected,
            ),
    {
        let page = &self.pages[self.current_page_index];
        let action = &page.actions[button.to_index()];
        match action {
            Action::Mqtt(mqtt_action) => {
                if state != ButtonState::Pressed {
                    return Vec::new();
                }
                run_mqtt_action(mqtt_action, dial, connected)
            },
            Action::Usb(usb_action) => run_usb_action(*usb_action, state),
            Action::Unassigned => Vec::new(),
        }
    }
}

/// The effects of running an MQTT action with the kept dial count `dial`.
fn run_mqtt_action(action: &mqtt::Action, dial: Option<u8>, connected: bool) -> (r: Vec<Effect>)
    requires
        dial matches Some(c) ==> action.dial.accepts(c),
    ensures
        mqtt_effects_ok(r@, *action, dial, connected),
{
    let payload = match dial {
        Some(count) => action.map_value(count).to_text(),
        None => String::new(),
    };
    let mut effects: Vec<Effect> = Vec::new();
    effects.push(Effect::ClearDialCount);
    effects.push(Effect::CancelIndication);
    if !connected {
        effects.push(Effect::Indicate(mqtt_connection_error()));
        return effects;
    }
    effects.push(Effect::PublishMqtt { topic: action.topic, payload });
    effects
}

/// The effects of running a USB action: the light shows that an action was sent, and the
/// keyboard gets the action with the button state.
fn run_usb_action(action: usb::Action, state: ButtonState) -> (r: Vec<Effect>)
    ensures
        r@ == seq![Effect::Indicate(action_sent_lights()), Effect::SendUsb(action, state)],
{
    let mut effects: Vec<Effect> = Vec::new();
    effects.push(Effect::Indicate(action_sent()));
    effects.push(Effect::SendUsb(action, state));
    effects
}

/// A press of the right page button then the left one, or the left then the right, comes
/// back to the same page; three presses in one direction go round the table; every event
/// keeps the page in the table; releases and other buttons leave the page alone.
pub proof fn lemma_page_events(page: int, button: Button)
    requires
        0 <= page < PAGE_COUNT,
    ensures
        page_after(page_after(page, Button::PageRight, ButtonState::Pressed), Button::PageLeft, ButtonState::Pressed) == page,
        page_after(page_after(page, Button::PageLeft, ButtonState::Pressed), Button::PageRight, ButtonState::Pressed) == page,
        page_after(
            page_after(page_after(page, Button::PageRight, ButtonState::Pressed), Button::PageRight, ButtonState::Pressed),
            Button::PageRight,
            ButtonState::Pressed,
        ) == page,
        0 <= page_after(page, button, ButtonState::Pressed) < PAGE_COUNT,
        page_after(page, button, ButtonState::Released) == page,
        !button.is_page_button() ==> page_after(page, button, ButtonState::Pressed) == page,
{
    lemma_page_navigation(page);
}

/// A USB action button sends its action with the state of the event itself, pressed or
/// released, for every trigger, after lighting the right light for 100 ms; an unassigned
/// button does nothing; an MQTT action does nothing on a release.
pub proof fn lemma_button_events_carry_their_state(
    r: Seq<Effect>,
    action: Action,
    state: ButtonState,
    dial: Option<u8>,
    connected: bool,
)
    requires
        button_effects_ok(r, action, state, dial, connected),
    ensures
        action matches Action::Usb(u) ==> r.len() == 2 && r[0] == Effect::Indicate(
            IndicatorAction { left: Indication::Off, right: Indication::SingleFire(100) },
        ) && r[1] == Effect::SendUsb(u, state),
        action == Action::Unassigned ==> r.len() == 0,
        (action matches Action::Mqtt(_)) && state == ButtonState::Released ==> r.len() == 0,
{
}

/// Going right and then left, or left and then right, comes back to the same page; three
/// steps in one direction go round the table.
pub proof fn lemma_page_navigation(page: int)
    requires
        0 <= page < PAGE_COUNT,
    ensures
        previous_page(next_page(page, PAGE_COUNT as int), PAGE_COUNT as int) == page,
        next_page(previous_page(page, PAGE_COUNT as int), PAGE_COUNT as int) == page,
        next_page(next_page(next_page(page, PAGE_COUNT as int), PAGE_COUNT as int), PAGE_COUNT as int) == page,
        0 <= next_page(page, PAGE_COUNT as int) < PAGE_COUNT,
        0 <= previous_page(page, PAGE_COUNT as int) < PAGE_COUNT,
{
}

} // verus!
