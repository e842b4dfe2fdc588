//! Button, dial and indicator logic of a desk controller.

pub mod actions;
pub mod buttons;
pub mod decimal;
pub mod dial;
pub mod indicator;
pub mod keyboard;
pub mod mqtt_link;
pub mod scanner;
pub mod state;
pub mod usb_device;
pub mod util;
