//! Actions that send a key to the USB host.

use vstd::prelude::*;

use usbd_hid::descriptor::KeyboardUsage;

verus! {

/// When the key of a USB action is sent.
#[derive(Debug, Clone, Copy, PartialEq, Eq, Structural)]
pub enum TriggerType {
    /// A press taps the key; a release does nothing.
    Press,
    /// A press toggles the key between held and released; a release does nothing.
    Toggle,
    /// The key is held while the button is.
    Hold,
}

/// A key and when to send it.
#[derive(Debug, Clone, Copy, PartialEq, Eq, Structural)]
pub struct Action {
    pub trigger: TriggerType,
    pub keycode: u8,
}

/// The HID usage code of `usbd_hid::descriptor::KeyboardUsage::KeyboardF13`, which that
/// enum declares as 0x68.
#[verifier::external_body]
pub(crate) fn keycode_f13() -> (r: u8)
    ensures
        r == 0x68,
{
    KeyboardUsage::KeyboardF13 as u8
}

/// The HID usage code of `usbd_hid::descriptor::KeyboardUsage::KeyboardF14`, which that
/// enum declares as 0x69.
#[verifier::external_body]
pub(crate) fn keycode_f14() -> (r: u8)
    ensures
        r == 0x69,
{
    KeyboardUsage::KeyboardF14 as u8
}

/// The HID usage code of `usbd_hid::descriptor::KeyboardUsage::KeyboardF15`, which that
/// enum declares as 0x6A.
#[verifier::external_body]
pub(crate) fn keycode_f15() -> (r: u8)
    ensures
        r == 0x6A,
{
    KeyboardUsage::KeyboardF15 as u8
}

/// The HID usage code of `usbd_hid::descriptor::KeyboardUsage::KeyboardAa` (the A key), which
/// that enum declares as 0x04.
#[verifier::external_body]
pub(crate) fn keycode_a() -> (r: u8)
    ensures
        r == 0x04,
{
    KeyboardUsage::KeyboardAa as u8
}

} // verus!
