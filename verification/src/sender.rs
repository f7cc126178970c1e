//! The sender board: key matrix, radio, NeoPixel and battery.
pub mod battery;
pub mod keyboard;
pub mod neopixel;
pub mod radio;
pub mod startup;
pub mod state;

pub use neopixel::rssi_to_brightness;
pub use state::{orchestrate, Events, State};
