//! The sender's NeoPixel: signal strength in blue, key flashes, and the battery alarm.
use vstd::prelude::*;

use crate::led::{scale_rssi, Color, Frame};

verus! {

/// Signal strength, in dBm, at and below which the pixel is at its dimmest.
pub const WEAKEST_DBM: i16 = -90;

/// Signal strength, in dBm, at and above which the pixel is at its brightest.
pub const STRONGEST_DBM: i16 = -40;

/// Level of the boot, key and alarm colours.
pub const FLASH_LEVEL: u8 = 32;

/// How often the pixel flashes at power-up.
pub const BOOT_FLASHES: u64 = 5;

/// Duration of each half of a boot flash.
pub const BOOT_HALF_MS: u64 = 150;

/// Duration of a key flash.
pub const KEY_FLASH_MS: u64 = 200;

/// Duration of each half of an alarm flash.
pub const ALARM_HALF_MS: u64 = 300;

/// Without a signal for so long the pixel goes dark.
pub const SIGNAL_TIMEOUT_MS: u64 = 1000;

/// Without a battery alert for longer than this the alarm ends.
pub const ALARM_TIMEOUT_US: u64 = 90_000_000;

/// Maps a signal strength in dBm to a brightness: from -90 to -40 dBm onto 1 to 255, clamped
/// outside that range.
pub fn rssi_to_brightness(rssi: i16) -> (level: u8)
    ensures
        level == crate::led::brightness(rssi as int, -90, -40),
{
    scale_rssi(rssi, WEAKEST_DBM, STRONGEST_DBM)
}

/// The colour that a key flashes in: red for key 0, green for any other.
pub open spec fn key_color(key: u8) -> Color {
    if key == 0 {
        Color::red(FLASH_LEVEL)
    } else {
        Color::green(FLASH_LEVEL)
    }
}

/// Something to show on the pixel.
#[derive(Clone, Copy, Debug, PartialEq, Eq, Structural)]
pub enum Show {
    /// Leave the pixel as it is.
    Nothing,
    /// Five green flashes on a dark pixel.
    Boot,
    /// A colour that stays.
    Steady(Color),
    /// A short flash for a key, and the colour that comes back after it.
    Flash { key: u8, back: Color },
    /// One red alarm flash, with the flash of a key ahead of it where there is one.
    Alarm { lead: Option<u8> },
}

impl Show {
    /// The frames to be shown, in order. A frame that is held for no time stays.
    pub open spec fn frames(self) -> Seq<Frame> {
        match self {
            Show::Nothing => Seq::empty(),
            Show::Boot => Seq::new(
                (2 * BOOT_FLASHES + 1) as nat,
                |i: int|
                    if i == 0 {
                        Frame { color: Color::off(), hold_ms: 0 }
                    } else if i % 2 == 1 {
                        Frame { color: Color::green(FLASH_LEVEL), hold_ms: BOOT_HALF_MS }
                    } else {
                        Frame { color: Color::off(), hold_ms: BOOT_HALF_MS }
                    },
            ),
            Show::Steady(color) => seq![Frame { color, hold_ms: 0 }],
            Show::Flash { key, back } => seq![
                Frame { color: key_color(key), hold_ms: KEY_FLASH_MS },
                Frame { color: back, hold_ms: 0 },
            ],
            Show::Alarm { lead } => {
                let alarm = seq![
                    Frame { color: Color::red(FLASH_LEVEL), hold_ms: ALARM_HALF_MS },
                    Frame { color: Color::off(), hold_ms: ALARM_HALF_MS },
                ];
                match lead {
                    Some(key) => seq![Frame { color: key_color(key), hold_ms: KEY_FLASH_MS }]
                        + alarm,
                    None => alarm,
                }
            },
        }
    }

    /// The frame at an index, up to the end of the show.
    pub fn frame(&self, index: usize) -> (frame: Option<Frame>)
        ensures
            frame == (if index < self.frames().len() {
                Some(self.frames()[index as int])
            } else {
                None
            }),
    {
        let off = Color::off();
        match self {
            Show::Nothing => None,
            Show::Boot => {
                if index as u64 > 2 * BOOT_FLASHES {
                    None
                } else if index == 0 {
                    Some(Frame { color: off, hold_ms: 0 })
                } else if index % 2 == 1 {
                    Some(Frame { color: Color::green(FLASH_LEVEL), hold_ms: BOOT_HALF_MS })
                } else {
                    Some(Frame { color: off, hold_ms: BOOT_HALF_MS })
                }
            },
            Show::Steady(color) => {
                if index == 0 {
                    Some(Frame { color: *color, hold_ms: 0 })
                } else {
                    None
                }
            },
            Show::Flash { key, back } => {
                if index == 0 {
                    Some(key_frame(*key))
                } else if index == 1 {
                    Some(Frame { color: *back, hold_ms: 0 })
                } else {
                    None
                }
            },
            Show::Alarm { lead } => {
                let alarm = [
                    Frame { color: Color::red(FLASH_LEVEL), hold_ms: ALARM_HALF_MS },
                    Frame { color: off, hold_ms: ALARM_HALF_MS },
                ];
                match lead {
                    Some(key) => {
                        if index == 0 {
                            Some(key_frame(*key))
                        } else if index <= 2 {
                            Some(alarm[index - 1])
                        } else {
                            None
                        }
                    },
                    None => {
                        if index < 2 {
                            Some(alarm[index])
                        } else {
                            None
                        }
                    },
                }
            },
        }
    }
}

/// The flash of a key.
fn key_frame(key: u8) -> (frame: Frame)
    ensures
        frame == (Frame { color: key_color(key), hold_ms: KEY_FLASH_MS }),
{
    let color = if key == 0 {
        Color::red(FLASH_LEVEL)
    } else {
        Color::green(FLASH_LEVEL)
    };
    Frame { color, hold_ms: KEY_FLASH_MS }
}

/// Where the NeoPixel task stands.
#[derive(Clone, Copy, Debug, PartialEq, Eq, Structural)]
pub enum PixelPhase {
    /// About to look for a battery alert, which comes before everything else.
    Checking,
    /// Waiting for a signal strength or a key.
    Waiting,
    /// In the alarm, ahead of an alarm flash. Times are in microseconds since power-up.
    Alarm { last_alert_us: u64 },
    /// In the alarm, after an alarm flash.
    Flashed { last_alert_us: u64 },
}

/// What the NeoPixel task asks for next.
#[derive(Clone, Copy, Debug, PartialEq, Eq, Structural)]
pub enum PixelRequest {
    /// Take the battery alert, if there is one, and the time.
    PollBattery,
    /// Wait for a signal strength, for so many milliseconds at most, or for a key.
    AwaitSignal(u64),
    /// Take the battery alert and the key, as far as there are any, and the time.
    PollAlarm,
    /// Take the time.
    ReadClock,
}

/// What came of a request.
#[derive(Clone, Copy, Debug, PartialEq, Eq, Structural)]
pub enum PixelEvent {
    BatteryPolled { low: bool, now_us: u64 },
    Rssi(i16),
    /// No signal strength came in time.
    Quiet,
    Key(u8),
    AlarmPolled { low: bool, key: Option<u8>, now_us: u64 },
    Clock { now_us: u64 },
}

/// The NeoPixel task. An event that does not answer the pending request leaves it as it is.
#[derive(Clone, Copy, Debug, PartialEq, Eq, Structural)]
pub struct NeoPixel {
    /// Level of the signal strength on display; 0 without a recent signal.
    pub brightness: u8,
    pub phase: PixelPhase,
}

/// The level at which a signal strength is shown.
pub open spec fn level_of(rssi: i16) -> u8 {
    crate::led::brightness(rssi as int, -90, -40) as u8
}

impl NeoPixel {
    /// What is asked for in this phase.
    pub open spec fn asks(self) -> PixelRequest {
        match self.phase {
            PixelPhase::Checking => PixelRequest::PollBattery,
            PixelPhase::Waiting => PixelRequest::AwaitSignal(SIGNAL_TIMEOUT_MS),
            PixelPhase::Alarm { .. } => PixelRequest::PollAlarm,
            PixelPhase::Flashed { .. } => PixelRequest::ReadClock,
        }
    }

    /// The clock has not gone back behind the last alert.
    pub open spec fn timely(self, event: PixelEvent) -> bool {
        match (self.phase, event) {
            (
                PixelPhase::Flashed { last_alert_us },
                PixelEvent::Clock { now_us },
            ) => last_alert_us <= now_us,
            _ => true,
        }
    }

    /// The task after an event.
    pub open spec fn next(self, event: PixelEvent) -> NeoPixel {
        match (self.phase, event) {
            (PixelPhase::Checking, PixelEvent::BatteryPolled { low, now_us }) => NeoPixel {
                phase: if low {
                    PixelPhase::Alarm { last_alert_us: now_us }
                } else {
                    PixelPhase::Waiting
                },
                ..self
            },
            (PixelPhase::Waiting, PixelEvent::Rssi(rssi)) => NeoPixel {
                brightness: level_of(rssi),
                phase: PixelPhase::Checking,
            },
            (PixelPhase::Waiting, PixelEvent::Quiet) => NeoPixel {
                brightness: 0,
                phase: PixelPhase::Checking,
            },
            (PixelPhase::Waiting, PixelEvent::Key(_)) => NeoPixel {
                phase: PixelPhase::Checking,
                ..self
            },
            (
                PixelPhase::Alarm { last_alert_us },
                PixelEvent::AlarmPolled { low, key: _, now_us },
            ) => NeoPixel {
                phase: PixelPhase::Flashed {
                    last_alert_us: if low {
                        now_us
                    } else {
                        last_alert_us
                    },
                },
                ..self
            },
            (PixelPhase::Flashed { last_alert_us }, PixelEvent::Clock { now_us }) => NeoPixel {
                phase: if now_us - last_alert_us > ALARM_TIMEOUT_US {
                    PixelPhase::Checking
                } else {
                    PixelPhase::Alarm { last_alert_us }
                },
                ..self
            },
            _ => self,
        }
    }

    /// What an event brings onto the pixel.
    pub open spec fn shows(self, event: PixelEvent) -> Show {
        match (self.phase, event) {
            (PixelPhase::Waiting, PixelEvent::Rssi(rssi)) => if level_of(rssi) != self.brightness {
                Show::Steady(Color::blue(level_of(rssi)))
            } else {
                Show::Nothing
            },
            (PixelPhase::Waiting, PixelEvent::Quiet) => if self.brightness != 0 {
                Show::Steady(Color::off())
            } else {
                Show::Nothing
            },
            (PixelPhase::Waiting, PixelEvent::Key(key)) => Show::Flash {
                key,
                back: Color::blue(self.brightness),
            },
            (PixelPhase::Alarm { .. }, PixelEvent::AlarmPolled { key, .. }) => Show::Alarm {
                lead: key,
            },
            (PixelPhase::Flashed { last_alert_us }, PixelEvent::Clock { now_us }) => if now_us
                - last_alert_us > ALARM_TIMEOUT_US {
                Show::Steady(Color::blue(self.brightness))
            } else {
                Show::Nothing
            },
            _ => Show::Nothing,
        }
    }

    /// The task at power-up, and the flashes that it opens with.
    pub fn new() -> (started: (Self, Show))
        ensures
            started.0 == (NeoPixel { brightness: 0, phase: PixelPhase::Checking }),
            started.1 == Show::Boot,
    {
        (NeoPixel { brightness: 0, phase: PixelPhase::Checking }, Show::Boot)
    }

    /// What to do next.
    pub fn request(&self) -> (request: PixelRequest)
        ensures
            request == self.asks(),
    {
        match self.phase {
            PixelPhase::Checking => PixelRequest::PollBattery,
            PixelPhase::Waiting => PixelRequest::AwaitSignal(SIGNAL_TIMEOUT_MS),
            PixelPhase::Alarm { .. } => PixelRequest::PollAlarm,
            PixelPhase::Flashed { .. } => PixelRequest::ReadClock,
        }
    }

    /// Takes in what came of the request, and says what to show for it.
    pub fn advance(&mut self, event: PixelEvent) -> (show: Show)
        requires
            old(self).timely(event),
        ensures
            *final(self) == old(self).next(event),
            show == old(self).shows(event),
    {
        match self.phase {
            PixelPhase::Checking => {
                if let PixelEvent::BatteryPolled { low, now_us } = event {
                    self.phase = if low {
                        PixelPhase::Alarm { last_alert_us: now_us }
                    } else {
                        PixelPhase::Waiting
                    };
                }
                Show::Nothing
            },
            PixelPhase::Waiting => self.take_signal(event),
            PixelPhase::Alarm { last_alert_us } => {
                if let PixelEvent::AlarmPolled { low, key, now_us } = event {
                    let last_alert_us: u64 = if low {
                        now_us
                    } else {
                        last_alert_us
                    };
                    self.phase = PixelPhase::Flashed { last_alert_us };
                    Show::Alarm { lead: key }
                } else {
                    Show::Nothing
                }
            },
            PixelPhase::Flashed { last_alert_us } => {
                if let PixelEvent::Clock { now_us } = event {
                    if now_us - last_alert_us > ALARM_TIMEOUT_US {
                        self.phase = PixelPhase::Checking;
                        Show::Steady(Color::blue(self.brightness))
                    } else {
                        self.phase = PixelPhase::Alarm { last_alert_us };
                        Show::Nothing
                    }
                } else {
                    Show::Nothing
                }
            },
        }
    }

    /// The part of `advance` that runs outside the alarm.
    fn take_signal(&mut self, event: PixelEvent) -> (show: Show)
        requires
            old(self).phase == PixelPhase::Waiting,
        ensures
            *final(self) == old(self).next(event),
            show == old(self).shows(event),
    {
        match event {
            PixelEvent::Rssi(rssi) => {
                self.phase = PixelPhase::Checking;
                let level: u8 = rssi_to_brightness(rssi);
                if level != self.brightness {
                    self.brightness = level;
                    Show::Steady(Color::blue(level))
                } else {
                    Show::Nothing
                }
            },
            PixelEvent::Quiet => {
                self.phase = PixelPhase::Checking;
                if self.brightness != 0 {
                    self.brightness = 0;
                    Show::Steady(Color::off())
                } else {
                    Show::Nothing
                }
            },
            PixelEvent::Key(key) => {
                self.phase = PixelPhase::Checking;
                Show::Flash { key, back: Color::blue(self.brightness) }
            },
            _ => Show::Nothing,
        }
    }
}

/// The task, and the colour of the pixel, after these events.
pub open spec fn pixel_run(
    task: NeoPixel,
    lit: Color,
    events: Seq<PixelEvent>,
) -> (NeoPixel, Color)
    decreases events.len(),
{
    if events.len() == 0 {
        (task, lit)
    } else {
        let (reached, shown) = pixel_run(task, lit, events.drop_last());
        (
            reached.next(events.last()),
            crate::led::lit_after(shown, reached.shows(events.last()).frames()),
        )
    }
}

/// Outside the alarm the pixel always shows the signal strength, in blue: after any events since
/// the boot flashes, key flashes and alarms among them, it is lit at the level that the task
/// holds, and dark where that level is 0.
pub proof fn law_pixel_shows_signal(before: Color, events: Seq<PixelEvent>)
    ensures
        ({
            let started = NeoPixel { brightness: 0, phase: PixelPhase::Checking };
            let booted = crate::led::lit_after(before, Show::Boot.frames());
            let (task, lit) = pixel_run(started, booted, events);
            match task.phase {
                PixelPhase::Checking | PixelPhase::Waiting => lit == Color::blue(task.brightness),
                PixelPhase::Alarm { .. } => true,
                PixelPhase::Flashed { .. } => lit == Color::off(),
            }
        }),
    decreases events.len(),
{
    if events.len() > 0 {
        law_pixel_shows_signal(before, events.drop_last());
    }
}

/// One round of the alarm: the poll, the flash, and the look at the clock.
pub struct AlarmRound {
    pub low: bool,
    pub key: Option<u8>,
    pub polled_us: u64,
    pub checked_us: u64,
}

/// The task after one round of the alarm.
pub open spec fn after_round(task: NeoPixel, round: AlarmRound) -> NeoPixel {
    task.next(
        PixelEvent::AlarmPolled { low: round.low, key: round.key, now_us: round.polled_us },
    ).next(PixelEvent::Clock { now_us: round.checked_us })
}

/// The task after a series of rounds of the alarm.
pub open spec fn after_rounds(task: NeoPixel, rounds: Seq<AlarmRound>) -> NeoPixel
    decreases rounds.len(),
{
    if rounds.len() == 0 {
        task
    } else {
        after_round(after_rounds(task, rounds.drop_last()), rounds.last())
    }
}

/// The time of the latest alert, if `last_alert_us` was the latest ahead of these rounds.
pub open spec fn latest_alert(last_alert_us: u64, rounds: Seq<AlarmRound>) -> u64
    decreases rounds.len(),
{
    if rounds.len() == 0 {
        last_alert_us
    } else if rounds.last().low {
        rounds.last().polled_us
    } else {
        latest_alert(last_alert_us, rounds.drop_last())
    }
}

/// The alarm goes on for as long as no look at the clock finds the latest alert more than 90
/// seconds old.
pub proof fn law_alarm_lasts(brightness: u8, last_alert_us: u64, rounds: Seq<AlarmRound>)
    requires
        forall|i: int|
            0 <= i < rounds.len() ==> (#[trigger] rounds[i]).checked_us - latest_alert(
                last_alert_us,
                rounds.take(i + 1),
            ) <= 90_000_000,
    ensures
        after_rounds(
            NeoPixel { brightness, phase: PixelPhase::Alarm { last_alert_us } },
            rounds,
        ) == (NeoPixel {
            brightness,
            phase: PixelPhase::Alarm { last_alert_us: latest_alert(last_alert_us, rounds) },
        }),
    decreases rounds.len(),
{
    if rounds.len() > 0 {
        let earlier = rounds.drop_last();
        assert forall|i: int| 0 <= i < earlier.len() implies (#[trigger] earlier[i]).checked_us
            - latest_alert(last_alert_us, earlier.take(i + 1)) <= 90_000_000 by {
            assert(earlier.take(i + 1) =~= rounds.take(i + 1));
            assert(rounds[i].checked_us - latest_alert(last_alert_us, rounds.take(i + 1))
                <= 90_000_000);
        }
        law_alarm_lasts(brightness, last_alert_us, earlier);
        assert(rounds.take(rounds.len() as int) =~= rounds);
        assert(rounds[rounds.len() - 1] == rounds.last());
    }
}

/// The alarm ends at the first look at the clock that finds the latest alert more than 90 seconds
/// old, and the pixel is then lit at the level that it had before the alarm.
pub proof fn law_alarm_ends(brightness: u8, last_alert_us: u64, round: AlarmRound)
    requires
        round.checked_us - latest_alert(last_alert_us, seq![round]) > 90_000_000,
    ensures
        ({
            let alarmed = NeoPixel { brightness, phase: PixelPhase::Alarm { last_alert_us } };
            let flashed = alarmed.next(
                PixelEvent::AlarmPolled { low: round.low, key: round.key, now_us: round.polled_us },
            );
            let clock = PixelEvent::Clock { now_us: round.checked_us };
            &&& after_round(alarmed, round) == (NeoPixel {
                brightness,
                phase: PixelPhase::Checking,
            })
            &&& flashed.shows(clock) == Show::Steady(Color::blue(brightness))
        }),
{
    reveal_with_fuel(latest_alert, 2);
    assert(seq![round].drop_last() =~= Seq::empty());
}

/// An alert is taken ahead of signals and keys: with one pending the task goes into the alarm, and
/// the next thing on the pixel is an alarm flash.
pub proof fn law_alert_comes_first(brightness: u8, now_us: u64, polled: PixelEvent)
    requires
        polled is AlarmPolled,
    ensures
        ({
            let task = NeoPixel { brightness, phase: PixelPhase::Checking };
            let alert = PixelEvent::BatteryPolled { low: true, now_us };
            &&& task.shows(alert) == Show::Nothing
            &&& task.next(alert).asks() == PixelRequest::PollAlarm
            &&& task.next(alert).shows(polled) == (Show::Alarm { lead: polled->key })
        }),
{
}

/// The sender's scale runs from -90 to -40 dBm, 255 levels over 50 dB, rounded down; every signal is
/// shown at level 1 at least.
pub proof fn law_sender_scale(rssi: i16, level: u8)
    requires
        call_ensures(rssi_to_brightness, (rssi,), level),
    ensures
        rssi <= -90 ==> level == 1,
        rssi >= -40 ==> level == 255,
        -90 < rssi < -40 ==> 50 * level <= 255 * (rssi + 90) < 50 * (level + 1),
{
}

/// The show at power-up: on a dark pixel, five times 150 ms of green and 150 ms of dark.
pub proof fn law_boot_flashes(index: usize, frame: Option<Frame>)
    requires
        call_ensures(Show::frame, (&Show::Boot, index), frame),
    ensures
        frame is Some <==> index <= 10,
        frame matches Some(f) ==> {
            &&& f.hold_ms == (if index == 0 {
                0u64
            } else {
                150
            })
            &&& f.color.r == 0 && f.color.b == 0
            &&& f.color.g == (if index % 2 == 1 {
                32u8
            } else {
                0
            })
        },
{
}

/// The show for a key: 200 ms of red for key 0 and of green for any other, and then, to stay, the
/// colour that was there before.
pub proof fn law_key_flash(key: u8, back: Color, index: usize, frame: Option<Frame>)
    requires
        call_ensures(Show::frame, (&(Show::Flash { key, back }), index), frame),
    ensures
        frame is Some <==> index <= 1,
        index == 0 ==> frame == Some(
            Frame {
                color: if key == 0 {
                    (Color { r: 32, g: 0, b: 0 })
                } else {
                    (Color { r: 0, g: 32, b: 0 })
                },
                hold_ms: 200,
            },
        ),
        index == 1 ==> frame == Some(Frame { color: back, hold_ms: 0 }),
{
}

/// The show of the alarm: 300 ms of red and 300 ms of dark, with the flash of a key, if there is
/// one, ahead of them and not in their place.
pub proof fn law_alarm_flash(lead: Option<u8>, index: usize, frame: Option<Frame>)
    requires
        call_ensures(Show::frame, (&(Show::Alarm { lead }), index), frame),
    ensures
        ({
            let red_at = if lead is Some {
                1int
            } else {
                0
            };
            &&& frame is Some <==> index <= red_at + 1
            &&& index == red_at ==> frame == Some(
                Frame { color: Color { r: 32, g: 0, b: 0 }, hold_ms: 300 },
            )
            &&& index == red_at + 1 ==> frame == Some(
                Frame { color: Color { r: 0, g: 0, b: 0 }, hold_ms: 300 },
            )
            &&& index < red_at ==> frame == Some(
                Frame {
                    color: if lead == Some(0u8) {
                        (Color { r: 32, g: 0, b: 0 })
                    } else {
                        (Color { r: 0, g: 32, b: 0 })
                    },
                    hold_ms: 200,
                },
            )
        }),
{
}

/// A colour that stays is written once, and nothing is written where the pixel is left as it is.
pub proof fn law_steady_show(
    color: Color,
    index: usize,
    frame: Option<Frame>,
    nothing: Option<Frame>,
)
    requires
        call_ensures(Show::frame, (&Show::Steady(color), index), frame),
        call_ensures(Show::frame, (&Show::Nothing, index), nothing),
    ensures
        nothing is None,
        frame is Some <==> index == 0,
        frame matches Some(f) ==> f.color == color && f.hold_ms == 0,
{
}

/// The frames of a show are those that can be asked for one by one.
pub proof fn law_frames_one_by_one(show: Show, index: usize, frame: Option<Frame>)
    requires
        call_ensures(Show::frame, (&show, index), frame),
    ensures
        frame is Some <==> index < show.frames().len(),
        frame matches Some(f) ==> f == show.frames()[index as int],
{
}

/// An event answers a request.
pub open spec fn answers(request: PixelRequest, event: PixelEvent) -> bool {
    match request {
        PixelRequest::PollBattery => event is BatteryPolled,
        PixelRequest::AwaitSignal(_) => event is Rssi || event is Quiet || event is Key,
        PixelRequest::PollAlarm => event is AlarmPolled,
        PixelRequest::ReadClock => event is Clock,
    }
}

/// The task asks for what its phase needs, and takes in nothing else: an event that does not answer
/// the request changes nothing and shows nothing. A signal is waited for one second at a time.
pub proof fn law_only_answers_count(
    task: &mut NeoPixel,
    request: PixelRequest,
    event: PixelEvent,
    show: Show,
)
    requires
        call_ensures(NeoPixel::request, (&*old(task),), request),
        call_ensures(NeoPixel::advance, (task, event), show),
    ensures
        request == PixelRequest::PollBattery <==> old(task).phase == PixelPhase::Checking,
        request == PixelRequest::AwaitSignal(1000) <==> old(task).phase == PixelPhase::Waiting,
        request == PixelRequest::PollAlarm <==> old(task).phase is Alarm,
        request == PixelRequest::ReadClock <==> old(task).phase is Flashed,
        !answers(request, event) ==> *final(task) == *old(task) && show == Show::Nothing,
        answers(request, event) ==> final(task).phase != old(task).phase,
{
}

/// A signal strength is shown as it is, whatever level was held before: the level held becomes that
/// of the new strength, weaker or stronger, and a blue of that level is written if and only if it
/// is not there yet. The battery is looked at next.
pub proof fn law_strength_is_shown(task: &mut NeoPixel, rssi: i16, level: u8, show: Show)
    requires
        old(task).phase == PixelPhase::Waiting,
        call_ensures(rssi_to_brightness, (rssi,), level),
        call_ensures(NeoPixel::advance, (task, PixelEvent::Rssi(rssi)), show),
    ensures
        final(task).brightness == level,
        final(task).phase == PixelPhase::Checking,
        show == (if level == old(task).brightness {
            Show::Nothing
        } else {
            Show::Steady(Color { r: 0, g: 0, b: level })
        }),
{
}

/// Without a signal the pixel goes dark, and is written to only if it was lit.
pub proof fn law_quiet_goes_dark(task: &mut NeoPixel, show: Show)
    requires
        old(task).phase == PixelPhase::Waiting,
        call_ensures(NeoPixel::advance, (task, PixelEvent::Quiet), show),
    ensures
        final(task).brightness == 0,
        final(task).phase == PixelPhase::Checking,
        show == (if old(task).brightness == 0 {
            Show::Nothing
        } else {
            Show::Steady(Color { r: 0, g: 0, b: 0 })
        }),
{
}

/// A confirmed key flashes, and the signal strength comes back unchanged.
pub proof fn law_key_is_flashed(task: &mut NeoPixel, key: u8, show: Show)
    requires
        old(task).phase == PixelPhase::Waiting,
        call_ensures(NeoPixel::advance, (task, PixelEvent::Key(key)), show),
    ensures
        final(task).brightness == old(task).brightness,
        final(task).phase == PixelPhase::Checking,
        show == (Show::Flash { key, back: Color { r: 0, g: 0, b: old(task).brightness } }),
{
}

/// With an alert pending the alarm begins, dated to the poll; with none there is no alarm, at any
/// time and at any level, and the task goes on to wait for a signal or a key. Either way the poll
/// itself shows nothing and keeps the level.
pub proof fn law_no_alarm_without_alert(
    task: &mut NeoPixel,
    low: bool,
    now_us: u64,
    show: Show,
    request: PixelRequest,
)
    requires
        old(task).phase == PixelPhase::Checking,
        call_ensures(NeoPixel::advance, (task, PixelEvent::BatteryPolled { low, now_us }), show),
        call_ensures(NeoPixel::request, (&*final(task),), request),
    ensures
        show == Show::Nothing,
        final(task).brightness == old(task).brightness,
        !low ==> request == PixelRequest::AwaitSignal(1000),
        low ==> request == PixelRequest::PollAlarm && final(task).phase == (PixelPhase::Alarm {
            last_alert_us: now_us,
        }),
{
}

/// A poll in the alarm brings one alarm flash, with the key that was confirmed ahead of it. A new
/// alert is dated to the poll, and without one the last alert keeps its date.
pub proof fn law_alarm_poll(
    task: &mut NeoPixel,
    last_alert_us: u64,
    low: bool,
    key: Option<u8>,
    now_us: u64,
    show: Show,
)
    requires
        old(task).phase == (PixelPhase::Alarm { last_alert_us }),
        call_ensures(NeoPixel::advance, (task, PixelEvent::AlarmPolled { low, key, now_us }), show),
    ensures
        show == (Show::Alarm { lead: key }),
        final(task).brightness == old(task).brightness,
        low ==> final(task).phase == (PixelPhase::Flashed { last_alert_us: now_us }),
        !low ==> final(task).phase == (PixelPhase::Flashed { last_alert_us }),
{
}

/// After a flash the alarm ends if and only if the last alert is more than 90 seconds old. It then
/// gives the level back that it found; else it goes on as it was.
pub proof fn law_alarm_clock(task: &mut NeoPixel, last_alert_us: u64, now_us: u64, show: Show)
    requires
        last_alert_us <= now_us,
        old(task).phase == (PixelPhase::Flashed { last_alert_us }),
        call_ensures(NeoPixel::advance, (task, PixelEvent::Clock { now_us }), show),
    ensures
        final(task).brightness == old(task).brightness,
        now_us > last_alert_us + 90_000_000 ==> final(task).phase == PixelPhase::Checking && show
            == Show::Steady(Color { r: 0, g: 0, b: old(task).brightness }),
        now_us <= last_alert_us + 90_000_000 ==> final(task).phase == (PixelPhase::Alarm {
            last_alert_us,
        }) && show == Show::Nothing,
{
}

/// The pixel shows the latest signal. After any events since the boot flashes, if the last one
/// answered the wait: a signal strength leaves the pixel in blue at the level of exactly that
/// strength, silence leaves it dark, and a key leaves it as it was lit before the flash.
pub proof fn law_pixel_shows_latest(before: Color, events: Seq<PixelEvent>)
    requires
        events.len() > 0,
    ensures
        ({
            let started = NeoPixel { brightness: 0, phase: PixelPhase::Checking };
            let booted = crate::led::lit_after(before, Show::Boot.frames());
            let (waiting, was_lit) = pixel_run(started, booted, events.drop_last());
            let (_, lit) = pixel_run(started, booted, events);
            waiting.phase == PixelPhase::Waiting ==> match events.last() {
                PixelEvent::Rssi(rssi) => lit == (Color {
                    r: 0,
                    g: 0,
                    b: crate::led::brightness(rssi as int, -90, -40) as u8,
                }),
                PixelEvent::Quiet => lit == (Color { r: 0, g: 0, b: 0 }),
                _ => lit == was_lit,
            }
        }),
{
    law_pixel_shows_signal(before, events.drop_last());
}

/// An event reports a low battery, at this time.
pub open spec fn alerts_at(event: PixelEvent, us: u64) -> bool {
    match event {
        PixelEvent::BatteryPolled { low, now_us } => low && now_us == us,
        PixelEvent::AlarmPolled { low, now_us, .. } => low && now_us == us,
        _ => false,
    }
}

/// There is no alarm out of nothing: whenever the task is in the alarm, a poll has found a low
/// battery at the very time that the alarm is dated to.
pub proof fn law_alarm_needs_alert(before: Color, events: Seq<PixelEvent>, alert_us: u64)
    ensures
        ({
            let started = NeoPixel { brightness: 0, phase: PixelPhase::Checking };
            let (task, _) = pixel_run(started, before, events);
            task.phase == (PixelPhase::Alarm { last_alert_us: alert_us }) || task.phase == (
            PixelPhase::Flashed { last_alert_us: alert_us }) ==> exists|i: int|
                0 <= i < events.len() && alerts_at(#[trigger] events[i], alert_us)
        }),
    decreases events.len(),
{
    if events.len() > 0 {
        let earlier = events.drop_last();
        let started = NeoPixel { brightness: 0, phase: PixelPhase::Checking };
        law_alarm_needs_alert(before, earlier, alert_us);
        let (reached, _) = pixel_run(started, before, earlier);
        let (task, _) = pixel_run(started, before, events);
        if task.phase == (PixelPhase::Alarm { last_alert_us: alert_us }) || task.phase == (
        PixelPhase::Flashed { last_alert_us: alert_us }) {
            if alerts_at(events.last(), alert_us) {
                assert(alerts_at(events[events.len() - 1], alert_us));
            } else {
                let i = choose|i: int|
                    0 <= i < earlier.len() && alerts_at(#[trigger] earlier[i], alert_us);
                assert(earlier[i] == events[i]);
            }
        }
    }
}

/// Alarms leave no trace: through any polls and looks at the clock, and as many alarms as they
/// bring, the level stays, and outside the alarm the pixel is lit in that level as before.
pub proof fn law_alarm_gives_signal_back(brightness: u8, events: Seq<PixelEvent>)
    requires
        forall|i: int|
            0 <= i < events.len() ==> !(#[trigger] events[i] is Rssi || events[i] is Quiet
                || events[i] is Key),
    ensures
        ({
            let blue = Color { r: 0, g: 0, b: brightness };
            let (task, lit) = pixel_run(
                NeoPixel { brightness, phase: PixelPhase::Checking },
                blue,
                events,
            );
            &&& task.brightness == brightness
            &&& task.phase == PixelPhase::Checking || task.phase == PixelPhase::Waiting ==> lit
                == blue
            &&& task.phase is Flashed ==> lit == (Color { r: 0, g: 0, b: 0 })
        }),
    decreases events.len(),
{
    if events.len() > 0 {
        let earlier = events.drop_last();
        assert forall|i: int| 0 <= i < earlier.len() implies !(#[trigger] earlier[i] is Rssi
            || earlier[i] is Quiet || earlier[i] is Key) by {
            assert(earlier[i] == events[i]);
        }
        law_alarm_gives_signal_back(brightness, earlier);
        assert(events.last() == events[events.len() - 1]);
    }
}

} // verus!
