//! The buttons of the device and their states.

use vstd::prelude::*;

verus! {

/// The number of buttons, the two page buttons included.
pub const BUTTON_COUNT: usize = 7;

/// A button: five action buttons and two that change the page.
#[derive(Debug, Clone, Copy, PartialEq, Eq, Structural)]
pub enum Button {
    PageLeft,
    PageRight,
    Button1,
    Button2,
    Button3,
    Button4,
    Button5,
}

/// Whether a button is down.
#[derive(Debug, Clone, Copy, PartialEq, Eq, Structural)]
pub enum ButtonState {
    Pressed,
    Released,
}

/// The index of a button: its multiplexer channel, and for an action button its slot on a
/// page.
pub open spec fn button_index(b: Button) -> int {
    match b {
        Button::Button1 => 0,
        Button::Button2 => 1,
        Button::Button3 => 2,
        Button::Button4 => 3,
        Button::Button5 => 4,
        Button::PageLeft => 5,
        Button::PageRight => 6,
    }
}

/// The button at an index below `BUTTON_COUNT`.
pub open spec fn button_at(index: int) -> Button
    recommends
        0 <= index < BUTTON_COUNT,
{
    if index == 0 {
        Button::Button1
    } else if index == 1 {
        Button::Button2
    } else if index == 2 {
        Button::Button3
    } else if index == 3 {
        Button::Button4
    } else if index == 4 {
        Button::Button5
    } else if index == 5 {
        Button::PageLeft
    } else {
        Button::PageRight
    }
}

/// The state that a reading gives: down is pressed.
pub open spec fn state_of(pressed: bool) -> ButtonState {
    if pressed {
        ButtonState::Pressed
    } else {
        ButtonState::Released
    }
}

impl Button {
    /// The button at `index`, which must be below `BUTTON_COUNT`.
    pub fn from_index(index: usize) -> (r: Self)
        requires
            index < BUTTON_COUNT,
        ensures
            r == button_at(index as int),
    {
        match index {
            0 => Button::Button1,
            1 => Button::Button2,
            2 => Button::Button3,
            3 => Button::Button4,
            4 => Button::Button5,
            5 => Button::PageLeft,
            _ => Button::PageRight,
        }
    }

    /// The index of the button.
    pub fn to_index(self) -> (r: usize)
        ensures
            r == button_index(self),
    {
        match self {
            Button::Button1 => 0,
            Button::Button2 => 1,
            Button::Button3 => 2,
            Button::Button4 => 3,
            Button::Button5 => 4,
            Button::PageLeft => 5,
            Button::PageRight => 6,
        }
    }

    /// Whether this button changes the page.
    pub open spec fn is_page_button(self) -> bool {
        self == Button::PageLeft || self == Button::PageRight
    }
}

/// Every button has an index below `BUTTON_COUNT`, and `button_at` gives it back.
pub proof fn lemma_index_round_trip(b: Button)
    ensures
        0 <= button_index(b) < BUTTON_COUNT,
        button_at(button_index(b)) == b,
{
}

/// Every index below `BUTTON_COUNT` names a button whose index it is.
pub proof fn lemma_button_round_trip(index: int)
    requires
        0 <= index < BUTTON_COUNT,
    ensures
        button_index(button_at(index)) == index,
{
}

/// The action buttons are those whose index is below five, that is, a slot on a page.
pub proof fn lemma_action_buttons_have_slots(b: Button)
    ensures
        !b.is_page_button() <==> button_index(b) < 5,
{
}

impl From<bool> for ButtonState {
    /// `true` (down) is pressed, `false` released.
    fn from(value: bool) -> (r: Self) {
        if value {
            ButtonState::Pressed
        } else {
            ButtonState::Released
        }
    }
}

impl vstd::std_specs::convert::FromSpecImpl<bool> for ButtonState {
    open spec fn obeys_from_spec() -> bool {
        true
    }

    open spec fn from_spec(v: bool) -> ButtonState {
        state_of(v)
    }
}

} // verus!
