//! The keyboard output: each tap is a key-down report, a short hold, and a key-up report.
use vstd::prelude::*;

verus! {

/// Keyboard usage codes of the keys, by key index: left arrow, right arrow.
pub const KEY_MAP: [u8; 2] = [0x50, 0x4F];

/// How long a key is held: long enough to be registered once, too short to repeat.
pub const TAP_HOLD_MS: u64 = 30;

/// A keyboard input report.
#[derive(Clone, Copy, Debug, PartialEq, Eq)]
pub struct KeyboardReport {
    pub modifier: u8,
    pub reserved: u8,
    pub leds: u8,
    pub keycodes: [u8; 6],
}

impl KeyboardReport {
    /// The report that has one key down and no modifier.
    #[verifier::allow_in_spec]
    pub fn down(keycode: u8) -> (report: KeyboardReport)
        returns
            (KeyboardReport {
                modifier: 0,
                reserved: 0,
                leds: 0,
                keycodes: [keycode, 0, 0, 0, 0, 0],
            }),
    {
        KeyboardReport { modifier: 0, reserved: 0, leds: 0, keycodes: [keycode, 0, 0, 0, 0, 0] }
    }

    /// The report that has no key down.
    #[verifier::allow_in_spec]
    pub fn up() -> (report: KeyboardReport)
        returns
            (KeyboardReport { modifier: 0, reserved: 0, leds: 0, keycodes: [0, 0, 0, 0, 0, 0] }),
    {
        KeyboardReport { modifier: 0, reserved: 0, leds: 0, keycodes: [0, 0, 0, 0, 0, 0] }
    }
}

/// Where the keyboard task stands.
#[derive(Clone, Copy, Debug, PartialEq, Eq, Structural)]
pub enum HidPhase {
    /// Waiting for a key to tap.
    Idle,
    /// Writing the key-down report of this usage code.
    Pressing(u8),
    /// The key is down.
    Holding,
    /// Writing the key-up report.
    Releasing,
}

/// What the keyboard task asks for next.
#[derive(Clone, Copy, Debug, PartialEq, Eq)]
pub enum HidAction {
    /// Wait for the next key to tap.
    AwaitKey,
    /// Write a report to the host.
    Write(KeyboardReport),
    /// Wait for so many milliseconds.
    Hold(u64),
}

/// What came of an action.
#[derive(Clone, Copy, Debug, PartialEq, Eq, Structural)]
pub enum HidEvent {
    /// The key of this index is to be tapped.
    Key(u8),
    /// The write is over, and whether it worked.
    Written(bool),
    /// The hold is over.
    Held,
}

/// The keyboard task. An event that does not answer the pending action leaves it as it is.
#[derive(Clone, Copy, Debug, PartialEq, Eq, Structural)]
pub struct HidTask {
    pub phase: HidPhase,
}

/// The usage code of a key, if the map has one.
pub open spec fn keycode_of(key: u8) -> Option<u8> {
    if key < KEY_MAP@.len() {
        Some(KEY_MAP@[key as int])
    } else {
        None
    }
}

impl HidTask {
    /// What is asked for in this phase.
    pub open spec fn asks(self) -> HidAction {
        match self.phase {
            HidPhase::Idle => HidAction::AwaitKey,
            HidPhase::Pressing(keycode) => HidAction::Write(KeyboardReport::down(keycode)),
            HidPhase::Holding => HidAction::Hold(TAP_HOLD_MS),
            HidPhase::Releasing => HidAction::Write(KeyboardReport::up()),
        }
    }

    /// The task after an event: a key of the map is pressed, held and released; a key outside the
    /// map is passed over; a failed write gives up the tap.
    pub open spec fn next(self, event: HidEvent) -> HidTask {
        let phase = match (self.phase, event) {
            (HidPhase::Idle, HidEvent::Key(key)) => match keycode_of(key) {
                Some(keycode) => HidPhase::Pressing(keycode),
                None => HidPhase::Idle,
            },
            (HidPhase::Pressing(_), HidEvent::Written(true)) => HidPhase::Holding,
            (HidPhase::Pressing(_), HidEvent::Written(false)) => HidPhase::Idle,
            (HidPhase::Holding, HidEvent::Held) => HidPhase::Releasing,
            (HidPhase::Releasing, HidEvent::Written(_)) => HidPhase::Idle,
            _ => self.phase,
        };
        HidTask { phase }
    }

    /// The task starts with no key to tap.
    pub fn new() -> (task: Self)
        ensures
            task.phase == HidPhase::Idle,
    {
        HidTask { phase: HidPhase::Idle }
    }

    /// What to do next.
    pub fn action(&self) -> (action: HidAction)
        ensures
            action == self.asks(),
    {
        match self.phase {
            HidPhase::Idle => HidAction::AwaitKey,
            HidPhase::Pressing(keycode) => HidAction::Write(KeyboardReport::down(keycode)),
            HidPhase::Holding => HidAction::Hold(TAP_HOLD_MS),
            HidPhase::Releasing => HidAction::Write(KeyboardReport::up()),
        }
    }

    /// Takes in what came of the action.
    pub fn advance(&mut self, event: HidEvent)
        ensures
            *final(self) == old(self).next(event),
    {
        match self.phase {
            HidPhase::Idle => {
                if let HidEvent::Key(key) = event {
                    if (key as usize) < KEY_MAP.len() {
                        self.phase = HidPhase::Pressing(KEY_MAP[key as usize]);
                    }
                }
            },
            HidPhase::Pressing(_) => {
                if let HidEvent::Written(ok) = event {
                    self.phase = if ok {
                        HidPhase::Holding
                    } else {
                        HidPhase::Idle
                    };
                }
            },
            HidPhase::Holding => {
                if let HidEvent::Held = event {
                    self.phase = HidPhase::Releasing;
                }
            },
            HidPhase::Releasing => {
                if let HidEvent::Written(_) = event {
                    self.phase = HidPhase::Idle;
                }
            },
        }
    }
}

/// The task after these events, and the reports that reached the host.
pub open spec fn hid_run(task: HidTask, events: Seq<HidEvent>) -> (HidTask, Seq<KeyboardReport>)
    decreases events.len(),
{
    if events.len() == 0 {
        (task, Seq::empty())
    } else {
        let (reached, reports) = hid_run(task, events.drop_last());
        let reports = match (reached.asks(), events.last()) {
            (HidAction::Write(report), HidEvent::Written(true)) => reports.push(report),
            _ => reports,
        };
        (reached.next(events.last()), reports)
    }
}

/// The host sees a key down: the last report that reached it is not the key-up report.
pub open spec fn key_is_down(reports: Seq<KeyboardReport>) -> bool {
    reports.len() > 0 && reports.last() != KeyboardReport::up()
}

/// No write of a key-up report failed.
pub open spec fn releases_work(events: Seq<HidEvent>) -> bool {
    forall|i: int|
        0 <= i < events.len() && hid_run(
            HidTask { phase: HidPhase::Idle },
            events.take(i),
        ).0.phase == HidPhase::Releasing ==> #[trigger] events[i] != HidEvent::Written(false)
}

/// No key sticks: whatever keys come in and whatever key-down reports fail, whenever the task waits
/// for the next key the host sees none down, as long as the key-up reports get through.
pub proof fn law_no_stuck_key(events: Seq<HidEvent>)
    requires
        releases_work(events),
    ensures
        ({
            let (task, reports) = hid_run(HidTask { phase: HidPhase::Idle }, events);
            match task.phase {
                HidPhase::Idle | HidPhase::Pressing(_) => !key_is_down(reports),
                HidPhase::Holding | HidPhase::Releasing => true,
            }
        }),
    decreases events.len(),
{
    if events.len() > 0 {
        let earlier = events.drop_last();
        assert forall|i: int|
            0 <= i < earlier.len() && hid_run(
                HidTask { phase: HidPhase::Idle },
                earlier.take(i),
            ).0.phase == HidPhase::Releasing implies #[trigger] earlier[i] != HidEvent::Written(
            false,
        ) by {
            assert(earlier.take(i) =~= events.take(i));
            assert(earlier[i] == events[i]);
        }
        law_no_stuck_key(earlier);
        assert(events.take(events.len() - 1) =~= earlier);
        assert(events[events.len() - 1] == events.last());
    }
}

/// A run over two stretches of events is the run over the first, and then over the second from
/// where the first ended.
proof fn lemma_hid_run_in_two(task: HidTask, first: Seq<HidEvent>, second: Seq<HidEvent>)
    ensures
        ({
            let (middle, early) = hid_run(task, first);
            let (reached, late) = hid_run(middle, second);
            hid_run(task, first + second) == (reached, early + late)
        }),
    decreases second.len(),
{
    let (middle, early) = hid_run(task, first);
    if second.len() == 0 {
        assert(first + second =~= first);
        assert(early + hid_run(middle, second).1 =~= early);
    } else {
        lemma_hid_run_in_two(task, first, second.drop_last());
        assert((first + second).drop_last() =~= first + second.drop_last());
        assert((first + second).last() == second.last());
        let (reached, late) = hid_run(middle, second.drop_last());
        if let HidAction::Write(report) = reached.asks() {
            assert((early + late).push(report) =~= early + late.push(report));
        }
    }
}

/// The events of one tap whose writes work.
pub open spec fn tap_events(key: u8) -> Seq<HidEvent> {
    match keycode_of(key) {
        Some(_) => seq![
            HidEvent::Key(key),
            HidEvent::Written(true),
            HidEvent::Held,
            HidEvent::Written(true),
        ],
        None => seq![HidEvent::Key(key)],
    }
}

/// The events of a series of taps whose writes work.
pub open spec fn all_tap_events(keys: Seq<u8>) -> Seq<HidEvent>
    decreases keys.len(),
{
    if keys.len() == 0 {
        Seq::empty()
    } else {
        all_tap_events(keys.drop_last()) + tap_events(keys.last())
    }
}

/// What the host is to see of a series of taps: each key of the map down and up again, and nothing
/// of any other key.
pub open spec fn typed(keys: Seq<u8>) -> Seq<KeyboardReport>
    decreases keys.len(),
{
    if keys.len() == 0 {
        Seq::empty()
    } else {
        match keycode_of(keys.last()) {
            Some(keycode) => typed(keys.drop_last()) + seq![
                KeyboardReport::down(keycode),
                KeyboardReport::up(),
            ],
            None => typed(keys.drop_last()),
        }
    }
}

/// Each tap is whole: as long as the writes work, the host sees exactly one key-down and one key-up
/// report for each key of the map, in order, and the task is ready for the next key.
pub proof fn law_taps_are_whole(keys: Seq<u8>)
    ensures
        hid_run(HidTask { phase: HidPhase::Idle }, all_tap_events(keys)) == (
            HidTask { phase: HidPhase::Idle },
            typed(keys),
        ),
    decreases keys.len(),
{
    let idle = HidTask { phase: HidPhase::Idle };
    if keys.len() > 0 {
        law_taps_are_whole(keys.drop_last());
        let tap = tap_events(keys.last());
        lemma_hid_run_in_two(idle, all_tap_events(keys.drop_last()), tap);
        reveal_with_fuel(hid_run, 5);
        if let Some(keycode) = keycode_of(keys.last()) {
            assert(tap.drop_last() =~= seq![
                HidEvent::Key(keys.last()),
                HidEvent::Written(true),
                HidEvent::Held,
            ]);
            assert(tap.drop_last().drop_last() =~= seq![
                HidEvent::Key(keys.last()),
                HidEvent::Written(true),
            ]);
            assert(tap.drop_last().drop_last().drop_last() =~= seq![HidEvent::Key(keys.last())]);
            assert(tap.drop_last().drop_last().drop_last().drop_last() =~= Seq::empty());
            assert(hid_run(idle, tap).1 =~= seq![
                KeyboardReport::down(keycode),
                KeyboardReport::up(),
            ]);
        } else {
            assert(tap.drop_last() =~= Seq::empty());
            assert(typed(keys.drop_last()) + hid_run(idle, tap).1 =~= typed(keys.drop_last()));
        }
    }
}

/// The key map: key 0 presses the left arrow, key 1 the right arrow, alone and without a modifier,
/// and any other key is passed over.
pub proof fn law_key_map(task: &mut HidTask, key: u8, action: HidAction)
    requires
        old(task).phase == HidPhase::Idle,
        call_ensures(HidTask::advance, (task, HidEvent::Key(key)), ()),
        call_ensures(HidTask::action, (&*final(task),), action),
    ensures
        key >= 2 ==> action == HidAction::AwaitKey,
        key < 2 ==> {
            &&& action is Write
            &&& action->Write_0.keycodes@ == seq![
                if key == 0 {
                    0x50u8
                } else {
                    0x4F
                },
                0,
                0,
                0,
                0,
                0,
            ]
            &&& action->Write_0.modifier == 0
            &&& action->Write_0.reserved == 0
            &&& action->Write_0.leds == 0
        },
{
}

/// A key that reached the host is held for 30 milliseconds and then released, with nothing left
/// down; a key that did not reach it is given up, and so is a release.
pub proof fn law_tap_runs_its_course(
    task: &mut HidTask,
    action: HidAction,
    event: HidEvent,
    after: HidAction,
)
    requires
        call_ensures(HidTask::action, (&*old(task),), action),
        call_ensures(HidTask::advance, (task, event), ()),
        call_ensures(HidTask::action, (&*final(task),), after),
    ensures
        old(task).phase == HidPhase::Idle <==> action == HidAction::AwaitKey,
        old(task).phase == HidPhase::Holding <==> action == HidAction::Hold(30),
        old(task).phase matches HidPhase::Pressing(keycode) ==> {
            &&& action is Write
            &&& action->Write_0.keycodes@ == seq![keycode, 0, 0, 0, 0, 0]
            &&& action->Write_0.modifier == 0
            &&& action->Write_0.reserved == 0
            &&& action->Write_0.leds == 0
            &&& event == HidEvent::Written(true) ==> after == HidAction::Hold(30)
            &&& event == HidEvent::Written(false) ==> after == HidAction::AwaitKey
        },
        old(task).phase == HidPhase::Holding && event == HidEvent::Held ==> {
            &&& final(task).phase == HidPhase::Releasing
            &&& after is Write
        },
        old(task).phase == HidPhase::Releasing ==> {
            &&& action is Write
            &&& action->Write_0.keycodes@ == seq![0u8, 0, 0, 0, 0, 0]
            &&& action->Write_0.modifier == 0
            &&& action->Write_0.reserved == 0
            &&& action->Write_0.leds == 0
            &&& event is Written ==> after == HidAction::AwaitKey
        },
        (match action {
            HidAction::AwaitKey => !(event is Key),
            HidAction::Write(_) => !(event is Written),
            HidAction::Hold(_) => !(event is Held),
        }) ==> *final(task) == *old(task),
{
}

/// The report of a key has that key down and no other; the other report has none.
pub proof fn law_reports(keycode: u8, down: KeyboardReport, up: KeyboardReport)
    requires
        call_ensures(KeyboardReport::down, (keycode,), down),
        call_ensures(KeyboardReport::up, (), up),
    ensures
        down.keycodes@ == seq![keycode, 0, 0, 0, 0, 0],
        up.keycodes@ == seq![0u8, 0, 0, 0, 0, 0],
        down.modifier == 0 && down.reserved == 0 && down.leds == 0,
        up.modifier == 0 && up.reserved == 0 && up.leds == 0,
{
}

} // verus!
