//! The battery monitor.
//!
//! A divider halves the battery voltage ahead of the converter, which reads 4096 steps of 3.3 V:
//! a reading `adc` stands for `adc * 3.3 * 2 / 4096` volts.
use vstd::prelude::*;

use crate::sender::neopixel::{AlarmRound, NeoPixel, PixelPhase, PixelRequest};
use crate::sender::radio::RadioPacket;

verus! {

/// Rest between two checks of the battery.
pub const CHECK_INTERVAL_MS: u64 = 60_000;

/// Steps of the converter over its reference voltage.
pub const ADC_STEPS: u32 = 4096;

/// Ten times the reference voltage of the converter.
pub const REFERENCE_DECIVOLTS: u32 = 33;

/// Ratio of the divider.
pub const DIVIDER: u32 = 2;

/// Ten times the voltage at and below which the battery is low.
pub const LOW_DECIVOLTS: u32 = 32;

/// A reading stands for at most 3.2 volts. Both sides are in tenths of a volt, times 4096.
pub open spec fn is_low(adc: u16) -> bool {
    adc * 33 * 2 <= 32 * 4096
}

/// Tells whether a converter reading means a low battery.
pub fn battery_low(adc: u16) -> (low: bool)
    ensures
        low == is_low(adc),
{
    adc as u32 * REFERENCE_DECIVOLTS * DIVIDER <= LOW_DECIVOLTS * ADC_STEPS
}

/// What the monitor does after one attempt to read the converter.
#[derive(Clone, Copy, Debug, PartialEq, Eq, Structural)]
pub enum BatteryStep {
    /// The battery is low: alert, then rest for so many milliseconds.
    Alert(u64),
    /// The battery is well, or could not be read: rest for so many milliseconds.
    Rest(u64),
}

impl BatteryStep {
    /// The rest, in milliseconds, ahead of the next read.
    pub open spec fn rest_ms(self) -> u64 {
        match self {
            BatteryStep::Alert(ms) => ms,
            BatteryStep::Rest(ms) => ms,
        }
    }

    /// What is carried out for the step, in order: for an alert the pixel is warned, then the
    /// alert goes to the radio; the rest comes last.
    pub open spec fn outputs(self) -> Seq<BatteryOutput> {
        match self {
            BatteryStep::Alert(ms) => seq![
                BatteryOutput::WarnPixel,
                BatteryOutput::Radio(RadioPacket::BatteryLow),
                BatteryOutput::Wait(ms),
            ],
            BatteryStep::Rest(ms) => seq![BatteryOutput::Wait(ms)],
        }
    }

    /// The output at an index, up to the end. An output is carried out once the one before it is
    /// done.
    pub fn output(&self, index: usize) -> (output: Option<BatteryOutput>)
        ensures
            output == (if index < self.outputs().len() {
                Some(self.outputs()[index as int])
            } else {
                None
            }),
    {
        match self {
            BatteryStep::Alert(ms) => match index {
                0 => Some(BatteryOutput::WarnPixel),
                1 => Some(BatteryOutput::Radio(RadioPacket::BatteryLow)),
                2 => Some(BatteryOutput::Wait(*ms)),
                _ => None,
            },
            BatteryStep::Rest(ms) => match index {
                0 => Some(BatteryOutput::Wait(*ms)),
                _ => None,
            },
        }
    }
}

/// Something that the monitor has carried out.
#[derive(Clone, Copy, Debug, PartialEq, Eq, Structural)]
pub enum BatteryOutput {
    /// Raise the battery alert for the NeoPixel.
    WarnPixel,
    /// Hand a packet to the radio.
    Radio(RadioPacket),
    /// Rest for so many milliseconds.
    Wait(u64),
}

/// The step after one attempt to read the converter: an alert for a low battery, and in any case a
/// rest of 60 seconds. A failed read, `None`, tells nothing of the battery.
pub open spec fn step_after(reading: Option<u16>) -> BatteryStep {
    match reading {
        None => BatteryStep::Rest(60_000),
        Some(adc) => if is_low(adc) {
            BatteryStep::Alert(60_000)
        } else {
            BatteryStep::Rest(60_000)
        },
    }
}

/// Decides about one attempt to read the converter; a failed read is `None`.
pub fn battery_step(reading: Option<u16>) -> (step: BatteryStep)
    ensures
        step == step_after(reading),
{
    match reading {
        None => BatteryStep::Rest(CHECK_INTERVAL_MS),
        Some(adc) => {
            if battery_low(adc) {
                BatteryStep::Alert(CHECK_INTERVAL_MS)
            } else {
                BatteryStep::Rest(CHECK_INTERVAL_MS)
            }
        },
    }
}

/// How long the monitor rests, in milliseconds, over a series of reads.
pub open spec fn total_rest_ms(readings: Seq<Option<u16>>) -> int
    decreases readings.len(),
{
    if readings.len() == 0 {
        0
    } else {
        total_rest_ms(readings.drop_last()) + step_after(readings.last()).rest_ms()
    }
}

/// The converter is read every 60 seconds: whatever the reads bring, failures among them, the
/// monitor rests for 60 seconds after each of them.
pub proof fn law_reads_a_minute_apart(readings: Seq<Option<u16>>)
    ensures
        total_rest_ms(readings) == 60_000 * readings.len(),
        forall|i: int|
            0 <= i < readings.len() ==> step_after(#[trigger] readings[i]).rest_ms() == 60_000,
    decreases readings.len(),
{
    if readings.len() > 0 {
        law_reads_a_minute_apart(readings.drop_last());
    }
}

/// The monitor has one threshold: the readings up to 1985 are low, and no others.
pub proof fn law_battery_threshold(adc: u16)
    ensures
        is_low(adc) <==> adc <= 1985,
{
}

/// A battery that stays low keeps the alarm going. Alerts are taken one check interval apart, give
/// or take `slack` microseconds; as long as a round of the alarm, from the poll to the look at the
/// clock, fits in what 30 seconds leave of that, the alarm does not end.
pub proof fn law_low_battery_keeps_alarm(
    brightness: u8,
    last_alert_us: u64,
    rounds: Seq<AlarmRound>,
    slack: int,
)
    requires
        forall|i: int|
            0 <= i < rounds.len() ==> {
                let latest = crate::sender::neopixel::latest_alert(
                    last_alert_us,
                    rounds.take(i + 1),
                );
                &&& (#[trigger] rounds[i]).polled_us - latest <= CHECK_INTERVAL_MS * 1000 + slack
                &&& rounds[i].checked_us - rounds[i].polled_us <= 30_000_000 - slack
            },
    ensures
        crate::sender::neopixel::after_rounds(
            NeoPixel { brightness, phase: PixelPhase::Alarm { last_alert_us } },
            rounds,
        ).asks() == PixelRequest::PollAlarm,
{
    crate::sender::neopixel::law_alarm_lasts(brightness, last_alert_us, rounds);
}

/// The monitor alerts if and only if a reading stands for at most 3.2 volts, which are the readings
/// up to 1985. A failed read never alerts. Whatever the read brought, the next one is a minute away.
pub proof fn law_alerts_at_and_below_threshold(reading: Option<u16>, step: BatteryStep)
    requires
        call_ensures(battery_step, (reading,), step),
    ensures
        step == (match reading {
            Some(adc) if adc * 33 * 2 <= 32 * 4096 => BatteryStep::Alert(60_000),
            _ => BatteryStep::Rest(60_000),
        }),
        step is Alert <==> (reading matches Some(adc) && adc <= 1985),
{
}

/// The reading alone tells whether the battery is low, and the step follows it.
pub proof fn law_step_follows_reading(adc: u16, low: bool, step: BatteryStep)
    requires
        call_ensures(battery_low, (adc,), low),
        call_ensures(battery_step, (Some(adc),), step),
    ensures
        low <==> adc <= 1985,
        low <==> step is Alert,
{
}

/// A battery that runs down goes on alerting: where one reading alerts, every lower one does too.
pub proof fn law_lower_readings_alert(
    higher: u16,
    lower: u16,
    at_higher: BatteryStep,
    at_lower: BatteryStep,
)
    requires
        lower <= higher,
        call_ensures(battery_step, (Some(higher),), at_higher),
        call_ensures(battery_step, (Some(lower),), at_lower),
    ensures
        at_higher is Alert ==> at_lower is Alert,
{
}

/// An alert warns the pixel first, then goes to the radio, and both come ahead of the rest; without
/// an alert there is the rest alone. Nothing comes after the rest.
pub proof fn law_alert_goes_to_pixel_and_radio(
    reading: Option<u16>,
    step: BatteryStep,
    index: usize,
    output: Option<BatteryOutput>,
)
    requires
        call_ensures(battery_step, (reading,), step),
        call_ensures(BatteryStep::output, (&step, index), output),
    ensures
        ({
            let low = reading matches Some(adc) && adc <= 1985;
            &&& output == Some(BatteryOutput::WarnPixel) <==> low && index == 0
            &&& output == Some(BatteryOutput::Radio(RadioPacket::BatteryLow)) <==> low && index == 1
            &&& output == Some(BatteryOutput::Wait(60_000)) <==> index == (if low {
                2
            } else {
                0int
            })
            &&& output is None <==> index > (if low {
                2
            } else {
                0int
            })
        }),
{
}

/// Any step is carried out as it says: an alert ahead of its rest, and a rest by itself.
pub proof fn law_rest_comes_last(step: BatteryStep, index: usize, output: Option<BatteryOutput>)
    requires
        call_ensures(BatteryStep::output, (&step, index), output),
    ensures
        output == (match (step, index) {
            (BatteryStep::Alert(_), 0) => Some(BatteryOutput::WarnPixel),
            (BatteryStep::Alert(_), 1) => Some(BatteryOutput::Radio(RadioPacket::BatteryLow)),
            (BatteryStep::Alert(ms), 2) => Some(BatteryOutput::Wait(ms)),
            (BatteryStep::Rest(ms), 0) => Some(BatteryOutput::Wait(ms)),
            _ => None,
        }),
{
}

} // verus!
