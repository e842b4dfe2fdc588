//! Scanning the buttons through the multiplexer, one channel per step.
//!
//! Each step selects a channel, reads whether its button is down, reports a change, and moves
//! to the next channel.

use vstd::prelude::*;

use crate::buttons::{button_at, state_of, Button, ButtonState, BUTTON_COUNT};

verus! {

/// The levels of the three select lines for a channel: line `i` is high when bit `i` of the
/// channel is set.
pub open spec fn select_line(channel: usize, line: usize) -> bool {
    (channel >> line) & 1 == 1
}

/// The levels of the three select lines of the multiplexer for `channel`.
pub fn select_levels(channel: usize) -> (r: [bool; 3])
    ensures
        forall|i: int| 0 <= i < 3 ==> r@[i] == select_line(channel, i as usize),
{
    let r = [
        (channel & (1usize << 0usize)) != 0,
        (channel & (1usize << 1usize)) != 0,
        (channel & (1usize << 2usize)) != 0,
    ];
    assert(((channel & (1usize << 0usize)) != 0) == ((channel >> 0usize) & 1 == 1)) by (bit_vector);
    assert(((channel & (1usize << 1usize)) != 0) == ((channel >> 1usize) & 1 == 1)) by (bit_vector);
    assert(((channel & (1usize << 2usize)) != 0) == ((channel >> 2usize) & 1 == 1)) by (bit_vector);
    r
}

/// The scanning state: the channel to read next, and the last state read on each channel.
#[derive(Debug, Clone, Copy, PartialEq, Eq)]
pub struct ButtonService {
    channel: usize,
    last_buttons_state: [bool; 8],
}

/// What the scanner knows, as plain values.
pub struct ButtonServiceView {
    /// The channel to read next.
    pub channel: nat,
    /// Whether the button of each channel was down at its last reading.
    pub pressed: Seq<bool>,
}

impl View for ButtonService {
    type V = ButtonServiceView;

    closed spec fn view(&self) -> ButtonServiceView {
        ButtonServiceView { channel: self.channel as nat, pressed: self.last_buttons_state@ }
    }
}

impl ButtonService {
    /// The scanner is on a button's channel, and keeps a reading for each of its eight slots.
    pub open spec fn wf(&self) -> bool {
        &&& self@.channel < BUTTON_COUNT
        &&& self@.pressed.len() == 8
    }

    /// A scanner at channel 0 with every button up.
    pub fn new() -> (r: Self)
        ensures
            r.wf(),
            r@.channel == 0,
            r@.pressed.len() == 8,
            forall|i: int| 0 <= i < 8 ==> !r@.pressed[i],
    {
        ButtonService { channel: 0, last_buttons_state: [false; 8] }
    }

    /// The channel to select before the next reading.
    pub fn channel(&self) -> (r: usize)
        ensures
            r == self@.channel,
    {
        self.channel
    }

    /// Takes the reading of the current channel (`true` when its button is down): reports the
    /// button and its new state when it differs from the last reading, remembers it, and
    /// moves to the next channel, after the last coming back to the first.
    pub fn step(&mut self, is_pressed: bool) -> (r: Option<(Button, ButtonState)>)
        requires
            old(self).wf(),
        ensures
            final(self).wf(),
            final(self)@.channel == (old(self)@.channel + 1) % (BUTTON_COUNT as nat),
            final(self)@.pressed == old(self)@.pressed.update(old(self)@.channel as int, is_pressed),
            r == (if old(self)@.pressed[old(self)@.channel as int] != is_pressed {
                Some((button_at(old(self)@.channel as int), state_of(is_pressed)))
            } else {
                None
            }),
    {
        let channel = self.channel;
        let mut event = None;
        if self.last_buttons_state[channel] != is_pressed {
            event = Some((Button::from_index(channel), ButtonState::from(is_pressed)));
            self.last_buttons_state[channel] = is_pressed;
        }
        self.channel = (channel + 1) % BUTTON_COUNT;
        assert(self.last_buttons_state@ =~= old(self)@.pressed.update(channel as int, is_pressed));
        event
    }
}

} // verus!
