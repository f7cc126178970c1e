//! The one-row, two-column key matrix.
//!
//! A column is driven low while the other floats; the row, pulled up, then reads low exactly when
//! the key of that column is down.
use vstd::prelude::*;

use crate::sender::radio::RadioPacket;
use crate::sender::state::{Events, State};

verus! {

/// Rest between two scans of the matrix.
pub const SCAN_INTERVAL_MS: u64 = 10;

/// Time that a driven column is given before the row is read.
pub const SETTLE_US: u64 = 50;

/// A key that went down or up between two scans.
#[derive(Clone, Copy, Debug, PartialEq, Eq, Structural)]
pub struct KeyChange {
    pub key: u8,
    pub pressed: bool,
}

impl KeyChange {
    /// The event for the orchestrator.
    pub fn event(&self) -> (event: Events)
        ensures
            event == Events::KeyPressed(self.key, self.pressed),
    {
        Events::KeyPressed(self.key, self.pressed)
    }

    /// The packet for the radio.
    pub fn radio_packet(&self) -> (packet: RadioPacket)
        ensures
            packet == RadioPacket::KeyEvent(self.key, self.pressed),
    {
        RadioPacket::KeyEvent(self.key, self.pressed)
    }
}

/// The scanner: the keys as the last scan found them.
#[derive(Clone, Copy, Debug, PartialEq, Eq)]
pub struct Scanner {
    pub prev: [bool; 2],
}

/// The change that a scan reports of one key, if any.
pub open spec fn change_of(key: u8, before: bool, now: bool) -> Option<KeyChange> {
    if now != before {
        Some(KeyChange { key, pressed: now })
    } else {
        None
    }
}

impl Scanner {
    /// Before the first scan every key counts as up.
    pub fn new() -> (scanner: Self)
        ensures
            scanner.prev@ == seq![false, false],
    {
        Scanner { prev: [false, false] }
    }

    /// Takes the row levels read with column 0 and then column 1 driven, and reports the keys
    /// that changed, in the order of their index.
    pub fn scan(&mut self, row_high: [bool; 2]) -> (changes: [Option<KeyChange>; 2])
        ensures
            final(self).prev@ == seq![!row_high@[0], !row_high@[1]],
            changes@ == seq![
                change_of(0, old(self).prev@[0], !row_high@[0]),
                change_of(1, old(self).prev@[1], !row_high@[1]),
            ],
    {
        let states: [bool; 2] = [!row_high[0], !row_high[1]];
        let mut changes: [Option<KeyChange>; 2] = [None, None];
        let mut i: usize = 0;
        while i < 2
            invariant
                i <= 2,
                forall|k: int|
                    0 <= k < 2 ==> changes@[k] == (if k < i {
                        change_of(k as u8, self.prev@[k], states@[k])
                    } else {
                        None
                    }),
            decreases 2 - i,
        {
            if states[i] != self.prev[i] {
                changes[i] = Some(KeyChange { key: i as u8, pressed: states[i] });
            }
            i = i + 1;
        }
        self.prev = states;
        changes
    }
}

/// How one key stands after `readings`, if it stood as `before` says ahead of them.
pub open spec fn latest(before: bool, readings: Seq<bool>) -> bool {
    if readings.len() == 0 {
        before
    } else {
        readings.last()
    }
}

/// The changes that are reported of one key over a series of scans.
pub open spec fn key_changes(key: u8, before: bool, readings: Seq<bool>) -> Seq<KeyChange>
    decreases readings.len(),
{
    if readings.len() == 0 {
        Seq::empty()
    } else {
        let earlier = readings.drop_last();
        match change_of(key, latest(before, earlier), readings.last()) {
            Some(change) => key_changes(key, before, earlier).push(change),
            None => key_changes(key, before, earlier),
        }
    }
}

/// Over any series of readings, the changes of one key alternate between down and up, beginning with
/// the opposite of how the key stood; each names that key, and the last one leaves the key as the
/// last reading found it.
proof fn lemma_changes_alternate(key: u8, before: bool, readings: Seq<bool>)
    ensures
        forall|i: int|
            0 <= i < key_changes(key, before, readings).len() ==> (#[trigger] key_changes(
                key,
                before,
                readings,
            )[i]) == (KeyChange { key, pressed: (i % 2 == 0) != before }),
        latest(before, readings) == (before != (key_changes(key, before, readings).len() % 2
            == 1)),
    decreases readings.len(),
{
    if readings.len() > 0 {
        lemma_changes_alternate(key, before, readings.drop_last());
    }
}

/// The changes among what a scan reports, in order.
pub open spec fn reported(changes: Seq<Option<KeyChange>>) -> Seq<KeyChange>
    decreases changes.len(),
{
    if changes.len() == 0 {
        Seq::empty()
    } else {
        match changes.last() {
            Some(change) => reported(changes.drop_last()).push(change),
            None => reported(changes.drop_last()),
        }
    }
}

/// The events for the orchestrator of a series of changes.
pub open spec fn events_of(changes: Seq<KeyChange>) -> Seq<Events> {
    changes.map_values(|c: KeyChange| Events::KeyPressed(c.key, c.pressed))
}

/// The packets for the radio of a series of changes.
pub open spec fn packets_of(changes: Seq<KeyChange>) -> Seq<RadioPacket> {
    changes.map_values(|c: KeyChange| RadioPacket::KeyEvent(c.key, c.pressed))
}

/// Something that the scanner hands out.
#[derive(Clone, Copy, Debug, PartialEq, Eq, Structural)]
pub enum Message {
    /// For the orchestrator.
    Event(Events),
    /// For the radio.
    Radio(RadioPacket),
}

/// What is handed out for a series of changes: of each change the event, and then the packet.
pub open spec fn messages(changes: Seq<KeyChange>) -> Seq<Message> {
    Seq::new(
        2 * changes.len(),
        |i: int|
            if i % 2 == 0 {
                Message::Event(events_of(changes)[i / 2])
            } else {
                Message::Radio(packets_of(changes)[i / 2])
            },
    )
}

/// The message at an index of what is handed out for one scan, up to the end. A message is handed
/// out once the one before it has been taken.
pub fn message(changes: &[Option<KeyChange>; 2], index: usize) -> (message: Option<Message>)
    ensures
        message == (if index < messages(reported(changes@)).len() {
            Some(messages(reported(changes@))[index as int])
        } else {
            None
        }),
{
    proof {
        lemma_reported_of_two(changes@);
    }
    let position: usize = index / 2;
    let change = match changes[0] {
        Some(first) => if position == 0 {
            Some(first)
        } else if position == 1 {
            changes[1]
        } else {
            None
        },
        None => if position == 0 {
            changes[1]
        } else {
            None
        },
    };
    match change {
        Some(change) => if index % 2 == 0 {
            Some(Message::Event(change.event()))
        } else {
            Some(Message::Radio(change.radio_packet()))
        },
        None => None,
    }
}

/// What one scan of two keys reports, spelled out.
proof fn lemma_reported_of_two(changes: Seq<Option<KeyChange>>)
    requires
        changes.len() == 2,
    ensures
        reported(changes) == (match (changes[0], changes[1]) {
            (Some(a), Some(b)) => seq![a, b],
            (Some(a), None) => seq![a],
            (None, Some(b)) => seq![b],
            (None, None) => Seq::empty(),
        }),
{
    reveal_with_fuel(reported, 3);
    assert(changes.drop_last() =~= seq![changes[0]]);
    assert(changes.drop_last().drop_last() =~= Seq::empty());
}

/// The changes that one scan reports.
pub open spec fn scan_changes(before: Seq<bool>, now: Seq<bool>) -> Seq<KeyChange> {
    reported(seq![change_of(0, before[0], now[0]), change_of(1, before[1], now[1])])
}

/// How the keys stand after a series of scans, if they stood as `before` says ahead of them.
pub open spec fn last_found(before: Seq<bool>, scans: Seq<Seq<bool>>) -> Seq<bool> {
    if scans.len() == 0 {
        before
    } else {
        scans.last()
    }
}

/// The changes that a series of scans reports.
pub open spec fn all_changes(before: Seq<bool>, scans: Seq<Seq<bool>>) -> Seq<KeyChange>
    decreases scans.len(),
{
    if scans.len() == 0 {
        Seq::empty()
    } else {
        let earlier = scans.drop_last();
        all_changes(before, earlier) + scan_changes(last_found(before, earlier), scans.last())
    }
}

/// The readings of one key over a series of scans.
pub open spec fn column(scans: Seq<Seq<bool>>, key: u8) -> Seq<bool> {
    scans.map_values(|scan: Seq<bool>| scan[key as int])
}

/// Scans report of the two keys of the matrix and of no others, and what they report of one key
/// are the changes in the readings of that key.
pub proof fn law_scans_report_each_key(before: Seq<bool>, scans: Seq<Seq<bool>>, key: u8)
    requires
        key < 2,
    ensures
        forall|i: int|
            0 <= i < all_changes(before, scans).len() ==> (#[trigger] all_changes(
                before,
                scans,
            )[i]).key < 2,
        all_changes(before, scans).filter(|c: KeyChange| c.key == key) == key_changes(
            key,
            before[key as int],
            column(scans, key),
        ),
    decreases scans.len(),
{
    let of_key = |c: KeyChange| c.key == key;
    reveal(Seq::filter);
    if scans.len() > 0 {
        let earlier = scans.drop_last();
        law_scans_report_each_key(before, earlier, key);
        let found = last_found(before, earlier);
        let now = scans.last();
        let first = change_of(0, found[0], now[0]);
        let second = change_of(1, found[1], now[1]);
        lemma_reported_of_two(seq![first, second]);
        let changes = scan_changes(found, now);
        Seq::filter_distributes_over_add(all_changes(before, earlier), changes, of_key);
        assert(column(scans, key).drop_last() =~= column(earlier, key));
        reveal_with_fuel(Seq::filter, 3);
        if changes.len() == 2 {
            assert(changes.drop_last() =~= seq![changes[0]]);
            assert(changes.drop_last().drop_last() =~= Seq::empty());
        } else if changes.len() == 1 {
            assert(changes.drop_last() =~= Seq::empty());
        }
        let own = if key == 0 {
            first
        } else {
            second
        };
        let expected = match own {
            Some(change) => seq![change],
            None => Seq::empty(),
        };
        assert(changes.filter(of_key) =~= expected);
        assert(latest(before[key as int], column(earlier, key)) == found[key as int]);
        assert(key_changes(key, before[key as int], column(earlier, key)) + expected
            =~= key_changes(key, before[key as int], column(scans, key)));
    }
}

/// Over any series of scans, what is reported of one key alternates between down and up, beginning
/// with the opposite of how the key stood, and leaves the key as the last scan found it.
pub proof fn law_reports_alternate(before: Seq<bool>, scans: Seq<Seq<bool>>, key: u8)
    requires
        key < 2,
    ensures
        ({
            let stood = before[key as int];
            let reports = all_changes(before, scans).filter(|c: KeyChange| c.key == key);
            &&& forall|i: int|
                0 <= i < reports.len() ==> (#[trigger] reports[i]) == (KeyChange {
                    key,
                    pressed: (i % 2 == 0) != stood,
                })
            &&& last_found(before, scans)[key as int] == (stood != (reports.len() % 2 == 1))
        }),
{
    law_scans_report_each_key(before, scans, key);
    lemma_changes_alternate(key, before[key as int], column(scans, key));
}

/// What is handed out over a series of scans: the messages of each scan in turn.
pub open spec fn all_messages(before: Seq<bool>, scans: Seq<Seq<bool>>) -> Seq<Message>
    decreases scans.len(),
{
    if scans.len() == 0 {
        Seq::empty()
    } else {
        let earlier = scans.drop_last();
        all_messages(before, earlier) + messages(
            scan_changes(last_found(before, earlier), scans.last()),
        )
    }
}

/// The events among some messages, in order: what the orchestrator's queue gets of them.
pub open spec fn event_queue(messages: Seq<Message>) -> Seq<Events>
    decreases messages.len(),
{
    if messages.len() == 0 {
        Seq::empty()
    } else {
        match messages.last() {
            Message::Event(event) => event_queue(messages.drop_last()).push(event),
            Message::Radio(_) => event_queue(messages.drop_last()),
        }
    }
}

/// The packets among some messages, in order: what the radio's queue gets of them.
pub open spec fn radio_queue(messages: Seq<Message>) -> Seq<RadioPacket>
    decreases messages.len(),
{
    if messages.len() == 0 {
        Seq::empty()
    } else {
        match messages.last() {
            Message::Event(_) => radio_queue(messages.drop_last()),
            Message::Radio(packet) => radio_queue(messages.drop_last()).push(packet),
        }
    }
}

/// The messages of all scans are the messages of all changes.
proof fn lemma_messages_of_scans(before: Seq<bool>, scans: Seq<Seq<bool>>)
    ensures
        all_messages(before, scans) == messages(all_changes(before, scans)),
    decreases scans.len(),
{
    if scans.len() == 0 {
        assert(messages(all_changes(before, scans)) =~= Seq::empty());
    } else {
        let earlier = scans.drop_last();
        lemma_messages_of_scans(before, earlier);
        let a = all_changes(before, earlier);
        let b = scan_changes(last_found(before, earlier), scans.last());
        let both = messages(a) + messages(b);
        assert forall|i: int| 0 <= i < both.len() implies both[i] == messages(a + b)[i] by {
            if i >= messages(a).len() {
                let k = i - 2 * a.len();
                assert(i / 2 == a.len() + k / 2 && i % 2 == k % 2);
            }
        }
        assert(both =~= messages(a + b));
    }
}

/// What has gone into each queue after the first `n` messages of a series of changes.
proof fn lemma_queues(changes: Seq<KeyChange>, n: int)
    requires
        0 <= n <= messages(changes).len(),
    ensures
        event_queue(messages(changes).take(n)) == events_of(changes).take((n + 1) / 2),
        radio_queue(messages(changes).take(n)) == packets_of(changes).take(n / 2),
    decreases n,
{
    let all = messages(changes);
    if n == 0 {
        assert(events_of(changes).take(0) =~= Seq::empty());
        assert(packets_of(changes).take(0) =~= Seq::empty());
    } else {
        lemma_queues(changes, n - 1);
        assert(all.take(n).drop_last() =~= all.take(n - 1));
        assert(all.take(n).last() == all[n - 1]);
        let k = (n - 1) / 2;
        if (n - 1) % 2 == 0 {
            assert(events_of(changes).take(k).push(events_of(changes)[k]) =~= events_of(
                changes,
            ).take(k + 1));
        } else {
            assert(packets_of(changes).take(k).push(packets_of(changes)[k]) =~= packets_of(
                changes,
            ).take(k + 1));
        }
    }
}

/// An event and a packet tell of the same change.
pub open spec fn same_change(event: Events, packet: RadioPacket) -> bool {
    let Events::KeyPressed(key, pressed) = event;
    packet == RadioPacket::KeyEvent(key, pressed)
}

/// Both queues get every change, once and in order, the event ahead of the packet. Over any scans,
/// and wherever the scanner has got to, be it held up by a full queue after `n` messages: the
/// events are those of the first changes, the packets are those of the first changes, there are as
/// many events as packets or one more, and the event and the packet at the same place tell of the
/// same change. After all messages, no change is missing from either queue.
pub proof fn law_queues_pair_up(before: Seq<bool>, scans: Seq<Seq<bool>>, n: int)
    requires
        0 <= n <= all_messages(before, scans).len(),
    ensures
        ({
            let changes = all_changes(before, scans);
            let handed_out = all_messages(before, scans).take(n);
            let events = event_queue(handed_out);
            let packets = radio_queue(handed_out);
            &&& events == events_of(changes).take((n + 1) / 2)
            &&& packets == packets_of(changes).take(n / 2)
            &&& packets.len() <= events.len() <= packets.len() + 1
            &&& forall|i: int|
                0 <= i < packets.len() ==> same_change(#[trigger] events[i], packets[i])
            &&& n == all_messages(before, scans).len() ==> events == events_of(changes) && packets
                == packets_of(changes)
        }),
{
    lemma_messages_of_scans(before, scans);
    let changes = all_changes(before, scans);
    lemma_queues(changes, n);
    if n == messages(changes).len() {
        assert(events_of(changes).take(changes.len() as int) =~= events_of(changes));
        assert(packets_of(changes).take(changes.len() as int) =~= packets_of(changes));
    }
}

/// The state of the sender after a series of scans, each handing its events to the orchestrator.
pub open spec fn state_after_scans(state: State, before: Seq<bool>, scans: Seq<Seq<bool>>) -> State
    decreases scans.len(),
{
    if scans.len() == 0 {
        state
    } else {
        let earlier = scans.drop_last();
        state_after_scans(state, before, earlier).after_all(
            events_of(scan_changes(last_found(before, earlier), scans.last())),
        )
    }
}

/// A state that agrees with the scanner goes on agreeing with it: after any series of scans the
/// state shows each key as the last scan found it.
pub proof fn law_state_follows_keys(state: State, before: Seq<bool>, scans: Seq<Seq<bool>>)
    requires
        state.key0_pressed == before[0],
        state.key1_pressed == before[1],
    ensures
        ({
            let found = last_found(before, scans);
            let reached = state_after_scans(state, before, scans);
            reached.key0_pressed == found[0] && reached.key1_pressed == found[1]
        }),
    decreases scans.len(),
{
    if scans.len() > 0 {
        let earlier = scans.drop_last();
        law_state_follows_keys(state, before, earlier);
        let found = last_found(before, earlier);
        let now = scans.last();
        lemma_reported_of_two(
            seq![change_of(0, found[0], now[0]), change_of(1, found[1], now[1])],
        );
        let events = events_of(scan_changes(found, now));
        reveal_with_fuel(State::after_all, 3);
        if events.len() == 2 {
            assert(events.drop_last() =~= seq![Events::KeyPressed(0, now[0])]);
        } else if events.len() == 1 {
            assert(events.drop_last() =~= Seq::empty());
        }
    }
}

/// A scan reports a key if and only if it is not as the last scan found it. The row reads low where
/// the key is down; the report names the key by its column and says how it is now, and the scanner
/// remembers that.
pub proof fn law_scan_reports_changes(
    scanner: &mut Scanner,
    row_high: [bool; 2],
    changes: [Option<KeyChange>; 2],
    column: int,
)
    requires
        0 <= column < 2,
        call_ensures(Scanner::scan, (scanner, row_high), changes),
    ensures
        final(scanner).prev@[column] == !row_high@[column],
        changes@[column] is Some <==> old(scanner).prev@[column] == row_high@[column],
        changes@[column] matches Some(change) ==> change.key == column && change.pressed
            == !row_high@[column],
{
}

/// What is handed out of a scan: the changes in the order of the keys, each first as an event and
/// then as a packet, and nothing else.
pub proof fn law_changes_are_handed_out(
    changes: [Option<KeyChange>; 2],
    index: usize,
    handed_out: Option<Message>,
)
    requires
        call_ensures(message, (&changes, index), handed_out),
    ensures
        ({
            let told = |change: KeyChange, first: int| {
                &&& index == first ==> handed_out == Some(
                    Message::Event(Events::KeyPressed(change.key, change.pressed)),
                )
                &&& index == first + 1 ==> handed_out == Some(
                    Message::Radio(RadioPacket::KeyEvent(change.key, change.pressed)),
                )
            };
            match (changes@[0], changes@[1]) {
                (Some(a), Some(b)) => told(a, 0) && told(b, 2) && (handed_out is None <==> index >= 4),
                (Some(a), None) => told(a, 0) && (handed_out is None <==> index >= 2),
                (None, Some(b)) => told(b, 0) && (handed_out is None <==> index >= 2),
                (None, None) => handed_out is None,
            }
        }),
{
    lemma_reported_of_two(changes@);
}

/// The event and the packet of a change tell of its key and of how it is now.
pub proof fn law_change_is_told(change: KeyChange, event: Events, packet: RadioPacket)
    requires
        call_ensures(KeyChange::event, (&change,), event),
        call_ensures(KeyChange::radio_packet, (&change,), packet),
    ensures
        event == Events::KeyPressed(change.key, change.pressed),
        packet == RadioPacket::KeyEvent(change.key, change.pressed),
{
}

} // verus!
