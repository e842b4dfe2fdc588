//! Whether the USB device is configured by the host, as the bus events say.

use vstd::prelude::*;

verus! {

/// Follows the USB bus events: the device is configured only between the host's
/// configuration and the next enable, disable, reset or address change.
#[derive(Debug, Clone, Copy, PartialEq, Eq)]
pub struct MyDeviceHandler {
    configured: bool,
}

impl View for MyDeviceHandler {
    type V = bool;

    closed spec fn view(&self) -> bool {
        self.configured
    }
}

impl MyDeviceHandler {
    /// Not configured.
    pub fn new() -> (r: Self)
        ensures
            !r@,
    {
        MyDeviceHandler { configured: false }
    }

    /// Whether the host has configured the device.
    pub fn is_configured(&self) -> (r: bool)
        ensures
            r == self@,
    {
        self.configured
    }

    /// The device was enabled or disabled: not configured.
    pub fn enabled(&mut self, enabled: bool)
        ensures
            !final(self)@,
    {
        self.configured = false;
    }

    /// The bus was reset: not configured.
    pub fn reset(&mut self)
        ensures
            !final(self)@,
    {
        self.configured = false;
    }

    /// The host gave the device an address: not configured yet.
    pub fn addressed(&mut self, addr: u8)
        ensures
            !final(self)@,
    {
        self.configured = false;
    }

    /// The host configured or unconfigured the device.
    pub fn configured(&mut self, configured: bool)
        ensures
            final(self)@ == configured,
    {
        self.configured = configured;
    }
}

} // verus!
