//! The receiver board: radio, keyboard output and NeoPixel.
pub mod hid;
pub mod neopixel;
pub mod radio;
pub mod state;

pub use neopixel::rssi_to_brightness;
pub use state::{orchestrate, Events, State};
