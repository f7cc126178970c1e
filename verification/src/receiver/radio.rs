//! What the receiver makes of a radio packet.
use vstd::prelude::*;

use crate::packet::{packet_data, packet_rssi, Address};
use crate::receiver::state::Events;

verus! {

/// What is passed on of one packet.
#[derive(Clone, Copy, Debug, PartialEq, Eq, Structural)]
pub struct Reception {
    pub event: Events,
    pub rssi: Option<i16>,
    /// The key to tap. A release taps nothing: each press is a whole tap by itself, so a release
    /// that gets lost leaves no key stuck.
    pub tap: Option<u8>,
}

/// Something that the receiver hands out for a packet.
#[derive(Clone, Copy, Debug, PartialEq, Eq, Structural)]
pub enum Output {
    /// For the orchestrator.
    Event(Events),
    /// For the NeoPixel: the signal strength.
    Rssi(i16),
    /// For the keyboard: the key to tap.
    Tap(u8),
}

impl Reception {
    /// What is handed out for the packet, in order: the event, the signal strength if there is
    /// one, and the key to tap if there is one.
    pub open spec fn outputs(self) -> Seq<Output> {
        let strength = match self.rssi {
            Some(rssi) => seq![Output::Rssi(rssi)],
            None => Seq::empty(),
        };
        let press = match self.tap {
            Some(key) => seq![Output::Tap(key)],
            None => Seq::empty(),
        };
        seq![Output::Event(self.event)] + strength + press
    }

    /// The output at an index, up to the end. An output is handed out once the one before it has
    /// been taken.
    pub fn output(&self, index: usize) -> (output: Option<Output>)
        ensures
            output == (if index < self.outputs().len() {
                Some(self.outputs()[index as int])
            } else {
                None
            }),
    {
        let tap = match self.tap {
            Some(key) => Some(Output::Tap(key)),
            None => None,
        };
        match (index, self.rssi) {
            (0, _) => Some(Output::Event(self.event)),
            (1, Some(rssi)) => Some(Output::Rssi(rssi)),
            (1, None) => tap,
            (2, Some(_)) => tap,
            _ => None,
        }
    }
}

/// What a payload says: of at least two bytes, the first is the key index and the second is not 0
/// if the key went down. Anything shorter is passed over.
pub open spec fn reception(data: Seq<u8>, rssi: Option<i16>) -> Option<Reception> {
    if data.len() >= 2 {
        Some(
            Reception {
                event: Events::RadioReceived(data[0], data[1] != 0),
                rssi,
                tap: if data[1] != 0 {
                    Some(data[0])
                } else {
                    None
                },
            },
        )
    } else {
        None
    }
}

/// Reads a payload that was heard at a signal strength.
pub fn decode(data: &[u8], rssi: Option<i16>) -> (received: Option<Reception>)
    ensures
        received == reception(data@, rssi),
{
    if data.len() >= 2 {
        let key_index: u8 = data[0];
        let pressed = data[1] != 0;
        let tap = if pressed {
            Some(key_index)
        } else {
            None
        };
        Some(Reception { event: Events::RadioReceived(key_index, pressed), rssi, tap })
    } else {
        None
    }
}

/// Reads a packet of the driver.
pub fn receive(packet: &rfm69_async::Packet) -> (received: Option<Reception>)
    ensures
        received == reception(
            crate::packet::packet_contents(*packet).data,
            crate::packet::packet_contents(*packet).rssi,
        ),
{
    decode(packet_data(packet), packet_rssi(packet))
}

/// The receiver's own address.
pub fn own_address() -> (address: Address)
    ensures
        address == Address::Unicast(2),
{
    Address::Unicast(2)
}

/// The keys that a series of payloads taps, in order.
pub open spec fn taps(payloads: Seq<Seq<u8>>) -> Seq<u8>
    decreases payloads.len(),
{
    if payloads.len() == 0 {
        Seq::empty()
    } else {
        match reception(payloads.last(), None) {
            Some(Reception { tap: Some(key), .. }) => taps(payloads.drop_last()).push(key),
            _ => taps(payloads.drop_last()),
        }
    }
}

/// The events that a series of payloads hands to the orchestrator, in order.
pub open spec fn events(payloads: Seq<Seq<u8>>) -> Seq<Events>
    decreases payloads.len(),
{
    if payloads.len() == 0 {
        Seq::empty()
    } else {
        match reception(payloads.last(), None) {
            Some(received) => events(payloads.drop_last()).push(received.event),
            None => events(payloads.drop_last()),
        }
    }
}

/// A payload, and the signal strength that it was heard at.
pub struct Heard {
    pub data: Seq<u8>,
    pub rssi: Option<i16>,
}

/// What is handed out for a series of payloads: the outputs of each in turn.
pub open spec fn all_outputs(heard: Seq<Heard>) -> Seq<Output>
    decreases heard.len(),
{
    if heard.len() == 0 {
        Seq::empty()
    } else {
        match reception(heard.last().data, heard.last().rssi) {
            Some(received) => all_outputs(heard.drop_last()) + received.outputs(),
            None => all_outputs(heard.drop_last()),
        }
    }
}

/// The events among some outputs, in order: what the orchestrator's queue gets of them.
pub open spec fn event_queue(outputs: Seq<Output>) -> Seq<Events>
    decreases outputs.len(),
{
    if outputs.len() == 0 {
        Seq::empty()
    } else {
        match outputs.last() {
            Output::Event(event) => event_queue(outputs.drop_last()).push(event),
            _ => event_queue(outputs.drop_last()),
        }
    }
}

/// The keys to tap among some outputs, in order: what the keyboard's queue gets of them.
pub open spec fn tap_queue(outputs: Seq<Output>) -> Seq<u8>
    decreases outputs.len(),
{
    if outputs.len() == 0 {
        Seq::empty()
    } else {
        match outputs.last() {
            Output::Tap(key) => tap_queue(outputs.drop_last()).push(key),
            _ => tap_queue(outputs.drop_last()),
        }
    }
}

/// The keys that events name as pressed, in order.
pub open spec fn pressed_keys(events: Seq<Events>) -> Seq<u8>
    decreases events.len(),
{
    if events.len() == 0 {
        Seq::empty()
    } else {
        let Events::RadioReceived(key, pressed) = events.last();
        if pressed {
            pressed_keys(events.drop_last()).push(key)
        } else {
            pressed_keys(events.drop_last())
        }
    }
}

/// One more output goes to the end of its own queue.
proof fn lemma_queues_push(outputs: Seq<Output>, output: Output)
    ensures
        event_queue(outputs.push(output)) == (match output {
            Output::Event(event) => event_queue(outputs).push(event),
            _ => event_queue(outputs),
        }),
        tap_queue(outputs.push(output)) == (match output {
            Output::Tap(key) => tap_queue(outputs).push(key),
            _ => tap_queue(outputs),
        }),
{
    assert(outputs.push(output).drop_last() =~= outputs);
}

/// The queues after the first `n` outputs of one reception, on top of some earlier outputs.
proof fn lemma_queues_of_one(earlier: Seq<Output>, received: Reception, n: int)
    requires
        0 <= n <= received.outputs().len(),
    ensures
        ({
            let handed_out = earlier + received.outputs().take(n);
            &&& event_queue(handed_out) == (if n == 0 {
                event_queue(earlier)
            } else {
                event_queue(earlier).push(received.event)
            })
            &&& tap_queue(handed_out) == (if n == received.outputs().len() && received.tap is Some {
                tap_queue(earlier).push(received.tap->0)
            } else {
                tap_queue(earlier)
            })
        }),
    decreases n,
{
    let own = received.outputs();
    if n == 0 {
        assert(earlier + own.take(0) =~= earlier);
    } else {
        lemma_queues_of_one(earlier, received, n - 1);
        assert(earlier + own.take(n) =~= (earlier + own.take(n - 1)).push(own[n - 1]));
        lemma_queues_push(earlier + own.take(n - 1), own[n - 1]);
    }
}

/// The two queues over all outputs of a series of payloads.
proof fn lemma_whole_queues(heard: Seq<Heard>)
    ensures
        event_queue(all_outputs(heard)) == events(heard.map_values(|h: Heard| h.data)),
        tap_queue(all_outputs(heard)) == taps(heard.map_values(|h: Heard| h.data)),
        pressed_keys(events(heard.map_values(|h: Heard| h.data))) == taps(
            heard.map_values(|h: Heard| h.data),
        ),
    decreases heard.len(),
{
    let payloads = heard.map_values(|h: Heard| h.data);
    if heard.len() > 0 {
        let earlier = heard.drop_last();
        lemma_whole_queues(earlier);
        assert(payloads.drop_last() =~= earlier.map_values(|h: Heard| h.data));
        if let Some(received) = reception(heard.last().data, heard.last().rssi) {
            let own = received.outputs();
            lemma_queues_of_one(all_outputs(earlier), received, own.len() as int);
            assert(own.take(own.len() as int) =~= own);
            assert(events(payloads).drop_last() =~= events(payloads.drop_last()));
        }
    }
}

/// A key reaches the keyboard only after its event has reached the orchestrator. Over any payloads,
/// and wherever the receiver has got to, be it held up by a full queue after `n` outputs: the events
/// handed out are those of the first payloads, and the keys handed out are the keys that these
/// events name as pressed, in order, but for the last one where its turn has not come yet. After
/// all outputs, no event and no key is missing.
pub proof fn law_event_comes_before_tap(heard: Seq<Heard>, n: int)
    requires
        0 <= n <= all_outputs(heard).len(),
    ensures
        ({
            let payloads = heard.map_values(|h: Heard| h.data);
            let handed_out = all_outputs(heard).take(n);
            let pressed = pressed_keys(event_queue(handed_out));
            &&& event_queue(handed_out).is_prefix_of(events(payloads))
            &&& tap_queue(handed_out) == pressed || (pressed.len() > 0 && tap_queue(handed_out)
                == pressed.drop_last())
            &&& n == all_outputs(heard).len() ==> event_queue(handed_out) == events(payloads)
                && tap_queue(handed_out) == taps(payloads)
        }),
    decreases heard.len(),
{
    let payloads = heard.map_values(|h: Heard| h.data);
    let all = all_outputs(heard);
    lemma_whole_queues(heard);
    if n == all.len() {
        assert(all.take(n) =~= all);
    } else {
        let earlier = heard.drop_last();
        let before = all_outputs(earlier);
        let earlier_payloads = earlier.map_values(|h: Heard| h.data);
        assert(payloads.drop_last() =~= earlier_payloads);
        lemma_whole_queues(earlier);
        if n <= before.len() {
            law_event_comes_before_tap(earlier, n);
            assert(all.take(n) =~= before.take(n));
        } else {
            let received = reception(heard.last().data, heard.last().rssi)->0;
            lemma_queues_of_one(before, received, n - before.len());
            assert(all.take(n) =~= before + received.outputs().take(n - before.len()));
            assert(event_queue(before).push(received.event).drop_last() =~= event_queue(before));
            let pressed = pressed_keys(event_queue(before).push(received.event));
            if received.tap is Some {
                assert(pressed.drop_last() =~= pressed_keys(event_queue(before)));
            }
        }
    }
}

/// A payload that taps a key.
pub open spec fn is_press(payload: Seq<u8>) -> bool {
    payload.len() >= 2 && payload[1] != 0
}

/// What the keyboard is given does not depend on releases: with any release, or any payload that
/// is too short, lost on the way, the keys that are tapped and their order stay the same.
pub proof fn law_lost_release_changes_no_tap(payloads: Seq<Seq<u8>>, lost: int)
    requires
        0 <= lost < payloads.len(),
        !is_press(payloads[lost]),
    ensures
        taps(payloads.remove(lost)) == taps(payloads),
    decreases payloads.len(),
{
    let left = payloads.remove(lost);
    if lost == payloads.len() - 1 {
        assert(left =~= payloads.drop_last());
    } else {
        law_lost_release_changes_no_tap(payloads.drop_last(), lost);
        assert(left.drop_last() =~= payloads.drop_last().remove(lost));
        assert(left.last() == payloads.last());
    }
}

/// One tap per press: as many keys are tapped as payloads are presses, and each payload taps the
/// key that it names or nothing.
pub proof fn law_one_tap_per_press(payloads: Seq<Seq<u8>>)
    ensures
        taps(payloads) == payloads.filter(|p: Seq<u8>| is_press(p)).map_values(
            |p: Seq<u8>| p[0],
        ),
    decreases payloads.len(),
{
    let press = |p: Seq<u8>| is_press(p);
    let key = |p: Seq<u8>| p[0];
    reveal(Seq::filter);
    if payloads.len() > 0 {
        law_one_tap_per_press(payloads.drop_last());
        let earlier = payloads.drop_last().filter(press);
        if is_press(payloads.last()) {
            assert(earlier.push(payloads.last()).map_values(key) =~= earlier.map_values(key).push(
                payloads.last()[0],
            ));
        }
    } else {
        assert(payloads.filter(press).map_values(key) =~= Seq::empty());
    }
}

/// A payload is read as it was written: its first byte names the key, its second tells whether the
/// key went down, which alone taps it, and the strength is the one that it was heard at. Further
/// bytes do not matter, and a payload without these two is passed over.
pub proof fn law_payload_is_read(data: &[u8], rssi: Option<i16>, received: Option<Reception>)
    requires
        call_ensures(decode, (data, rssi), received),
    ensures
        received is None <==> data@.len() < 2,
        received matches Some(said) ==> {
            &&& said.event == Events::RadioReceived(data@[0], data@[1] != 0)
            &&& said.rssi == rssi
            &&& said.tap == (if data@[1] == 0 {
                None
            } else {
                Some(data@[0])
            })
        },
{
}

/// A packet of the driver is read by its payload and by the strength that it was heard at.
pub proof fn law_packet_is_read(
    packet: &rfm69_async::Packet,
    key: u8,
    flag: u8,
    rest: Seq<u8>,
    received: Option<Reception>,
)
    requires
        crate::packet::packet_contents(*packet).data == seq![key, flag] + rest,
        call_ensures(receive, (packet,), received),
    ensures
        received matches Some(said) && {
            &&& said.event == Events::RadioReceived(key, flag != 0)
            &&& said.rssi == crate::packet::packet_contents(*packet).rssi
            &&& said.tap is Some <==> flag != 0
            &&& said.tap matches Some(tapped) ==> tapped == key
        },
{
    let data = crate::packet::packet_contents(*packet).data;
    assert(data[0] == key && data[1] == flag);
}

/// A packet of fewer than two bytes is passed over, and no other.
pub proof fn law_short_packet_is_passed_over(
    packet: &rfm69_async::Packet,
    received: Option<Reception>,
)
    requires
        call_ensures(receive, (packet,), received),
    ensures
        received is None <==> crate::packet::packet_contents(*packet).data.len() < 2,
{
}

/// What was received is handed out whole, each part once and to its own task: the event first, then
/// the strength if there is one, then the key if there is one.
pub proof fn law_reception_is_handed_out(
    received: Reception,
    index: usize,
    output: Option<Output>,
)
    requires
        call_ensures(Reception::output, (&received, index), output),
    ensures
        ({
            let tap_at = if received.rssi is Some {
                2int
            } else {
                1
            };
            &&& output == Some(Output::Event(received.event)) <==> index == 0
            &&& output is Some && output->0 is Rssi <==> index == 1 && received.rssi is Some
            &&& output matches Some(Output::Rssi(rssi)) ==> Some(rssi) == received.rssi
            &&& output is Some && output->0 is Tap <==> index == tap_at && received.tap is Some
            &&& output matches Some(Output::Tap(key)) ==> Some(key) == received.tap
            &&& output is None <==> index > tap_at || (index == tap_at && received.tap is None)
        }),
{
}

/// The strengths among some outputs, in order: what the NeoPixel is told of them.
pub open spec fn strength_queue(outputs: Seq<Output>) -> Seq<i16>
    decreases outputs.len(),
{
    if outputs.len() == 0 {
        Seq::empty()
    } else {
        match outputs.last() {
            Output::Rssi(rssi) => strength_queue(outputs.drop_last()).push(rssi),
            _ => strength_queue(outputs.drop_last()),
        }
    }
}

/// The strengths among two stretches of outputs.
proof fn lemma_strengths_in_two(first: Seq<Output>, second: Seq<Output>)
    ensures
        strength_queue(first + second) == strength_queue(first) + strength_queue(second),
    decreases second.len(),
{
    if second.len() == 0 {
        assert(first + second =~= first);
        assert(strength_queue(first) + strength_queue(second) =~= strength_queue(first));
    } else {
        lemma_strengths_in_two(first, second.drop_last());
        assert((first + second).drop_last() =~= first + second.drop_last());
        assert((first + second).last() == second.last());
        if let Output::Rssi(rssi) = second.last() {
            assert(strength_queue(first) + strength_queue(second.drop_last()).push(rssi) =~= (
            strength_queue(first) + strength_queue(second.drop_last())).push(rssi));
        }
    }
}

/// The NeoPixel is told the strengths that the packets were heard at: over any payloads, the
/// strengths handed out are, in order, those of the payloads that are read, as far as they have one,
/// and no others.
pub proof fn law_strengths_are_handed_out(heard: Seq<Heard>)
    ensures
        strength_queue(all_outputs(heard)) == heard.filter(
            |h: Heard| h.data.len() >= 2 && h.rssi is Some,
        ).map_values(|h: Heard| h.rssi->0),
    decreases heard.len(),
{
    let strong = |h: Heard| h.data.len() >= 2 && h.rssi is Some;
    let strength = |h: Heard| h.rssi->0;
    reveal(Seq::filter);
    if heard.len() == 0 {
        assert(heard.filter(strong).map_values(strength) =~= Seq::empty());
    } else {
        let earlier = heard.drop_last();
        law_strengths_are_handed_out(earlier);
        let last = heard.last();
        if let Some(received) = reception(last.data, last.rssi) {
            let own = received.outputs();
            lemma_strengths_in_two(all_outputs(earlier), own);
            reveal_with_fuel(strength_queue, 4);
            let told = match last.rssi {
                Some(rssi) => seq![rssi],
                None => Seq::empty(),
            };
            if own.len() == 3 {
                assert(own.drop_last().drop_last() =~= seq![own[0]]);
                assert(own.drop_last().drop_last().drop_last() =~= Seq::empty());
            } else if own.len() == 2 {
                assert(own.drop_last() =~= seq![own[0]]);
                assert(own.drop_last().drop_last() =~= Seq::empty());
            } else {
                assert(own.drop_last() =~= Seq::empty());
            }
            assert(strength_queue(own) =~= told);
            assert(heard.filter(strong).map_values(strength) =~= earlier.filter(
                strong,
            ).map_values(strength) + told);
        }
    }
}

/// One event per packet: over any payloads, the orchestrator gets, in order, the key and the
/// direction that each payload that is read begins with, and no others.
pub proof fn law_one_event_per_packet(payloads: Seq<Seq<u8>>)
    ensures
        events(payloads) == payloads.filter(|p: Seq<u8>| p.len() >= 2).map_values(
            |p: Seq<u8>| Events::RadioReceived(p[0], p[1] != 0),
        ),
    decreases payloads.len(),
{
    let read = |p: Seq<u8>| p.len() >= 2;
    let event = |p: Seq<u8>| Events::RadioReceived(p[0], p[1] != 0);
    reveal(Seq::filter);
    if payloads.len() > 0 {
        law_one_event_per_packet(payloads.drop_last());
        let earlier = payloads.drop_last().filter(read);
        if payloads.last().len() >= 2 {
            assert(earlier.push(payloads.last()).map_values(event) =~= earlier.map_values(
                event,
            ).push(event(payloads.last())));
        }
    } else {
        assert(payloads.filter(read).map_values(event) =~= Seq::empty());
    }
}

} // verus!
