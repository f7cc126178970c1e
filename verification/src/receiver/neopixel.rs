//! The receiver's NeoPixel: signal strength in green.
use vstd::prelude::*;

use crate::led::{scale_rssi, Color};

verus! {

/// Signal strength, in dBm, at and below which the pixel is at its dimmest.
pub const WEAKEST_DBM: i16 = -100;

/// Signal strength, in dBm, at and above which the pixel is at its brightest.
pub const STRONGEST_DBM: i16 = -40;

/// Level at power-up, before anything has been received.
pub const START_BRIGHTNESS: u8 = 8;

/// Without a packet for so long the pixel goes dark.
pub const SIGNAL_TIMEOUT_MS: u64 = 3000;

/// Maps a signal strength in dBm to a brightness: from -100 to -40 dBm onto 1 to 255, clamped
/// outside that range.
pub fn rssi_to_brightness(rssi: i16) -> (level: u8)
    ensures
        level == crate::led::brightness(rssi as int, -100, -40),
{
    scale_rssi(rssi, WEAKEST_DBM, STRONGEST_DBM)
}

/// What came of waiting for a signal strength.
#[derive(Clone, Copy, Debug, PartialEq, Eq, Structural)]
pub enum PixelEvent {
    Rssi(i16),
    /// No signal strength came in time.
    Quiet,
}

/// The NeoPixel task: the level that the pixel is lit at.
#[derive(Clone, Copy, Debug, PartialEq, Eq, Structural)]
pub struct NeoPixel {
    pub brightness: u8,
}

impl NeoPixel {
    /// The task after an event: lit for the signal strength, or dark.
    pub open spec fn next(self, event: PixelEvent) -> NeoPixel {
        match event {
            PixelEvent::Rssi(rssi) => NeoPixel {
                brightness: crate::led::brightness(rssi as int, -100, -40) as u8,
            },
            PixelEvent::Quiet => NeoPixel { brightness: 0 },
        }
    }

    /// The colour to write for an event: nothing is written that the pixel already shows.
    pub open spec fn shows(self, event: PixelEvent) -> Option<Color> {
        let level = self.next(event).brightness;
        if level != self.brightness {
            Some(Color::green(level))
        } else {
            None
        }
    }

    /// The task at power-up, and the dim colour that it opens with.
    pub fn new() -> (started: (Self, Color))
        ensures
            started.0 == (NeoPixel { brightness: 8 }),
            started.1 == Color::green(8),
    {
        (NeoPixel { brightness: START_BRIGHTNESS }, Color::green(START_BRIGHTNESS))
    }

    /// What to do next: wait for a signal strength, for so many milliseconds at most.
    pub fn request(&self) -> (ms: u64)
        ensures
            ms == 3000,
    {
        SIGNAL_TIMEOUT_MS
    }

    /// Takes in an event, and says what to write for it.
    pub fn advance(&mut self, event: PixelEvent) -> (show: Option<Color>)
        ensures
            *final(self) == old(self).next(event),
            show == old(self).shows(event),
    {
        let level: u8 = match event {
            PixelEvent::Rssi(rssi) => rssi_to_brightness(rssi),
            PixelEvent::Quiet => 0,
        };
        if level != self.brightness {
            self.brightness = level;
            Some(Color::green(level))
        } else {
            None
        }
    }
}

/// The task, and the colour of the pixel, after these events.
pub open spec fn pixel_run(
    task: NeoPixel,
    lit: Color,
    events: Seq<PixelEvent>,
) -> (NeoPixel, Color)
    decreases events.len(),
{
    if events.len() == 0 {
        (task, lit)
    } else {
        let (reached, shown) = pixel_run(task, lit, events.drop_last());
        (
            reached.next(events.last()),
            match reached.shows(events.last()) {
                Some(color) => color,
                None => shown,
            },
        )
    }
}

/// The pixel always shows the latest packet: after any events it is lit in green, at the level of
/// the last signal strength, and dark if the last wait brought none.
pub proof fn law_pixel_shows_latest(events: Seq<PixelEvent>)
    ensures
        ({
            let (task, lit) = pixel_run(NeoPixel { brightness: 8 }, Color::green(8), events);
            &&& lit == Color::green(task.brightness)
            &&& events.len() > 0 ==> lit == (match events.last() {
                PixelEvent::Rssi(rssi) => Color::green(
                    crate::led::brightness(rssi as int, -100, -40) as u8,
                ),
                PixelEvent::Quiet => Color::off(),
            })
        }),
    decreases events.len(),
{
    if events.len() > 0 {
        law_pixel_shows_latest(events.drop_last());
    }
}

/// The receiver's scale runs from -100 to -40 dBm, 255 levels over 60 dB, rounded down; every signal
/// is shown at level 1 at least.
pub proof fn law_receiver_scale(rssi: i16, level: u8)
    requires
        call_ensures(rssi_to_brightness, (rssi,), level),
    ensures
        rssi <= -100 ==> level == 1,
        rssi >= -40 ==> level == 255,
        -100 < rssi < -40 ==> 60 * level <= 255 * (rssi + 100) < 60 * (level + 1),
{
}

/// A signal strength is shown as it is, weaker or stronger than the last, and silence turns the
/// pixel dark; the colour is written if and only if it is not there yet. A signal is waited for
/// three seconds at a time, whatever is shown.
pub proof fn law_pixel_follows_signal(
    task: &mut NeoPixel,
    event: PixelEvent,
    level: u8,
    show: Option<Color>,
    ms: u64,
)
    requires
        event matches PixelEvent::Rssi(rssi) ==> call_ensures(rssi_to_brightness, (rssi,), level),
        event == PixelEvent::Quiet ==> level == 0,
        call_ensures(NeoPixel::request, (&*old(task),), ms),
        call_ensures(NeoPixel::advance, (task, event), show),
    ensures
        final(task).brightness == level,
        show == (if level == old(task).brightness {
            None
        } else {
            Some(Color { r: 0, g: level, b: 0 })
        }),
        ms == 3000,
{
}

} // verus!
