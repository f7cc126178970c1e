//! Colours of the single NeoPixel, the frames it is made to show, and the brightness scale.
use vstd::prelude::*;

verus! {

/// A NeoPixel colour, one byte per channel.
#[derive(Clone, Copy, Debug, PartialEq, Eq, Structural)]
pub struct Color {
    pub r: u8,
    pub g: u8,
    pub b: u8,
}

impl Color {
    /// The dark pixel.
    #[verifier::allow_in_spec]
    pub fn off() -> (color: Color)
        returns
            (Color { r: 0, g: 0, b: 0 }),
    {
        Color { r: 0, g: 0, b: 0 }
    }

    /// Pure red of the given level.
    #[verifier::allow_in_spec]
    pub fn red(level: u8) -> (color: Color)
        returns
            (Color { r: level, g: 0, b: 0 }),
    {
        Color { r: level, g: 0, b: 0 }
    }

    /// Pure green of the given level.
    #[verifier::allow_in_spec]
    pub fn green(level: u8) -> (color: Color)
        returns
            (Color { r: 0, g: level, b: 0 }),
    {
        Color { r: 0, g: level, b: 0 }
    }

    /// Pure blue of the given level.
    #[verifier::allow_in_spec]
    pub fn blue(level: u8) -> (color: Color)
        returns
            (Color { r: 0, g: 0, b: level }),
    {
        Color { r: 0, g: 0, b: level }
    }
}

/// A colour, and how long it is held before the next step.
#[derive(Clone, Copy, Debug, PartialEq, Eq, Structural)]
pub struct Frame {
    pub color: Color,
    pub hold_ms: u64,
}

/// The colour that is lit once `frames` have been shown on a pixel that was lit in `lit`.
pub open spec fn lit_after(lit: Color, frames: Seq<Frame>) -> Color {
    if frames.len() == 0 {
        lit
    } else {
        frames.last().color
    }
}

/// Brightness of a signal strength on the scale that takes `weakest` (and below) to 1 and
/// `strongest` (and above) to 255, and is linear, rounded down but never below 1, in between.
pub open spec fn brightness(rssi: int, weakest: int, strongest: int) -> int {
    if rssi <= weakest {
        1
    } else if rssi >= strongest {
        255
    } else {
        let level = (rssi - weakest) * 255 / (strongest - weakest);
        if level < 1 {
            1
        } else {
            level
        }
    }
}

/// Maps a signal strength in dBm to a brightness on the scale from `weakest` to `strongest`.
pub fn scale_rssi(rssi: i16, weakest: i16, strongest: i16) -> (level: u8)
    requires
        weakest < strongest,
    ensures
        level == brightness(rssi as int, weakest as int, strongest as int),
{
    let span: i32 = strongest as i32 - weakest as i32;
    let above: i32 = rssi as i32 - weakest as i32;
    if above <= 0 {
        1
    } else if above >= span {
        255
    } else {
        proof {
            lemma_share_of_span(above as int, span as int);
        }
        let level: i32 = above * 255 / span;
        if level < 1 {
            1
        } else {
            level as u8
        }
    }
}

/// A part of a span, in 255ths of the span, rounded down.
proof fn lemma_share_of_span(part: int, span: int)
    by (nonlinear_arith)
    requires
        0 < part < span,
    ensures
        0 <= part * 255 / span <= 255,
{
}

/// A stronger signal is never shown dimmer, and every signal is shown at some level from 1 to 255.
pub proof fn law_brightness_monotone(weaker: int, stronger: int, weakest: int, strongest: int)
    requires
        weaker <= stronger,
        weakest < strongest,
    ensures
        1 <= brightness(weaker, weakest, strongest) <= brightness(stronger, weakest, strongest)
            <= 255,
{
    let span = strongest - weakest;
    let a = weaker - weakest;
    let b = stronger - weakest;
    if 0 < a < span {
        lemma_share_of_span(a, span);
    }
    if 0 < b < span {
        lemma_share_of_span(b, span);
    }
    if 0 < a && b < span {
        assert(a * 255 / span <= b * 255 / span) by (nonlinear_arith)
            requires
                0 < a <= b < span,
        ;
    }
}

/// A part of a span lies between its share, in 255ths and rounded down, and the next one.
proof fn lemma_share_is_rounded_down(part: int, span: int)
    by (nonlinear_arith)
    requires
        0 < part < span,
    ensures
        (part * 255 / span) * span <= part * 255 < (part * 255 / span + 1) * span,
{
}

/// The scale takes its lower end, and all below, to 1 and its upper end, and all above, to 255. In
/// between a level stands for the 255ths of the span that the signal has fully reached, and the
/// lowest level for less than one of them as well.
pub proof fn law_brightness_is_linear(rssi: i16, weakest: i16, strongest: i16, level: u8)
    requires
        weakest < strongest,
        call_ensures(scale_rssi, (rssi, weakest, strongest), level),
    ensures
        level == brightness(rssi as int, weakest as int, strongest as int),
        level >= 1,
        rssi <= weakest ==> level == 1,
        rssi >= strongest ==> level == 255,
        weakest < rssi < strongest ==> {
            &&& (rssi - weakest) * 255 < (level + 1) * (strongest - weakest)
            &&& level * (strongest - weakest) <= (rssi - weakest) * 255 || level == 1
        },
{
    if weakest < rssi < strongest {
        let part = rssi - weakest;
        let span = strongest - weakest;
        lemma_share_of_span(part, span);
        lemma_share_is_rounded_down(part, span);
        if part * 255 / span < 1 {
            assert((part * 255 / span + 1) * span <= 2 * span) by (nonlinear_arith)
                requires
                    part * 255 / span < 1,
                    span > 0,
            ;
        }
    }
}

/// Each colour is of one channel alone, at the level that was asked for.
pub proof fn law_colors_are_pure(level: u8, off: Color, red: Color, green: Color, blue: Color)
    requires
        call_ensures(Color::off, (), off),
        call_ensures(Color::red, (level,), red),
        call_ensures(Color::green, (level,), green),
        call_ensures(Color::blue, (level,), blue),
    ensures
        off.r == 0 && off.g == 0 && off.b == 0,
        red.r == level && red.g == 0 && red.b == 0,
        green.r == 0 && green.g == level && green.b == 0,
        blue.r == 0 && blue.g == 0 && blue.b == level,
{
}

} // verus!
