//! What holds of the two boards together.
use vstd::prelude::*;

use crate::led::{Color, Frame};
use crate::packet::Address;
use crate::receiver::hid::{HidPhase, HidTask, KeyboardReport};
use crate::receiver::radio::Reception;
use crate::sender::battery::{BatteryOutput, BatteryStep};
use crate::sender::keyboard::KeyChange;
use crate::sender::neopixel::{NeoPixel, PixelEvent, PixelPhase, PixelRequest, Show};
use crate::sender::radio::{RadioEvent, RadioPacket, RadioPhase, RadioTask, Reply, ReplyOutput};

verus! {

/// What the sender says of a key is what the receiver reads: the packet that the sender makes of a
/// key event, heard at any signal strength, is passed on as that event with that strength, and taps
/// the key if and only if it went down.
pub proof fn law_key_event_arrives(key: u8, pressed: bool, rssi: Option<i16>)
    ensures
        crate::receiver::radio::reception(RadioPacket::KeyEvent(key, pressed).bytes(), rssi)
            == Some(
            Reception {
                event: crate::receiver::state::Events::RadioReceived(key, pressed),
                rssi,
                tap: if pressed {
                    Some(key)
                } else {
                    None
                },
            },
        ),
{
}

/// Battery alerts and boot announcements type nothing: the receiver counts them as packets, and the
/// key that they seem to name is not in the key map.
pub proof fn law_alerts_type_nothing(packet: RadioPacket, rssi: Option<i16>)
    requires
        packet == RadioPacket::BatteryLow || packet == RadioPacket::Boot,
    ensures
        crate::receiver::radio::reception(packet.bytes(), rssi) is Some,
        crate::receiver::hid::typed(crate::receiver::radio::taps(seq![packet.bytes()]))
            == Seq::<KeyboardReport>::empty(),
{
    let payloads = seq![packet.bytes()];
    reveal_with_fuel(crate::receiver::radio::taps, 2);
    reveal_with_fuel(crate::receiver::hid::typed, 2);
    assert(payloads.drop_last() =~= Seq::empty());
    let keys = crate::receiver::radio::taps(payloads);
    assert(keys =~= seq![packet.bytes()[0]]);
    assert(keys.drop_last() =~= Seq::empty());
}

/// The payloads of a series of packets.
pub open spec fn payloads(packets: Seq<RadioPacket>) -> Seq<Seq<u8>> {
    packets.map_values(|packet: RadioPacket| packet.bytes())
}

/// The payloads of a series of key changes.
pub open spec fn payloads_of(changes: Seq<KeyChange>) -> Seq<Seq<u8>> {
    payloads(crate::sender::keyboard::packets_of(changes))
}

/// What the host is to see of a series of key changes: a whole tap for each press, and nothing for
/// a release.
pub open spec fn typed_for(changes: Seq<KeyChange>) -> Seq<KeyboardReport>
    decreases changes.len(),
{
    if changes.len() == 0 {
        Seq::empty()
    } else {
        let earlier = typed_for(changes.drop_last());
        if changes.last().pressed {
            earlier + seq![
                KeyboardReport::down(
                    if changes.last().key == 0 {
                        0x50
                    } else {
                        0x4F
                    },
                ),
                KeyboardReport::up(),
            ]
        } else {
            earlier
        }
    }
}

/// From scan to host: whatever the two keys do over any scans, the packets that the scanner puts in
/// the radio's queue have the receiver type the left arrow for each press of key 0 and the right
/// arrow for each press of key 1, in order, each as a whole tap, and nothing else.
pub proof fn law_scans_reach_the_host(before: Seq<bool>, scans: Seq<Seq<bool>>)
    ensures
        ({
            let messages = crate::sender::keyboard::all_messages(before, scans);
            let packets = crate::sender::keyboard::radio_queue(messages);
            crate::receiver::hid::hid_run(
                HidTask { phase: HidPhase::Idle },
                crate::receiver::hid::all_tap_events(
                    crate::receiver::radio::taps(payloads(packets)),
                ),
            ) == (
                HidTask { phase: HidPhase::Idle },
                typed_for(crate::sender::keyboard::all_changes(before, scans)),
            )
        }),
{
    let messages = crate::sender::keyboard::all_messages(before, scans);
    crate::sender::keyboard::law_queues_pair_up(before, scans, messages.len() as int);
    assert(messages.take(messages.len() as int) =~= messages);
    crate::sender::keyboard::law_scans_report_each_key(before, scans, 0);
    law_presses_reach_the_host(crate::sender::keyboard::all_changes(before, scans));
}

/// From key change to host: the packets of any changes of the two keys have the receiver type the
/// left arrow for each press of key 0 and the right arrow for each press of key 1, in order, each
/// as a whole tap, and nothing else.
pub proof fn law_presses_reach_the_host(changes: Seq<KeyChange>)
    requires
        forall|i: int| 0 <= i < changes.len() ==> (#[trigger] changes[i]).key < 2,
    ensures
        crate::receiver::hid::hid_run(
            HidTask { phase: HidPhase::Idle },
            crate::receiver::hid::all_tap_events(
                crate::receiver::radio::taps(payloads_of(changes)),
            ),
        ) == (HidTask { phase: HidPhase::Idle }, typed_for(changes)),
{
    lemma_typed_for(changes);
    crate::receiver::hid::law_taps_are_whole(crate::receiver::radio::taps(payloads_of(changes)));
}

/// The keys that the packets of a series of key changes tap are typed as `typed_for` says.
proof fn lemma_typed_for(changes: Seq<KeyChange>)
    requires
        forall|i: int| 0 <= i < changes.len() ==> (#[trigger] changes[i]).key < 2,
    ensures
        crate::receiver::hid::typed(crate::receiver::radio::taps(payloads_of(changes)))
            == typed_for(changes),
    decreases changes.len(),
{
    let payloads = payloads_of(changes);
    if changes.len() > 0 {
        let earlier = changes.drop_last();
        assert forall|i: int| 0 <= i < earlier.len() implies (#[trigger] earlier[i]).key < 2 by {
            assert(earlier[i] == changes[i]);
        }
        lemma_typed_for(earlier);
        assert(payloads.drop_last() =~= payloads_of(earlier));
        let last = changes.last();
        assert(last == changes[changes.len() - 1]);
        law_key_event_arrives(last.key, last.pressed, None);
        if last.pressed {
            let keys = crate::receiver::radio::taps(payloads);
            assert(keys.drop_last() =~= crate::receiver::radio::taps(payloads_of(earlier)));
        }
    }
}

/// As long as no packet is lost, the receiver shows the keys as the sender does: over any scans, the
/// events that the scanner hands out and the packets that it hands out leave the two states with
/// the same keys down.
pub proof fn law_boards_agree(
    sender: crate::sender::state::State,
    receiver: crate::receiver::state::State,
    before: Seq<bool>,
    scans: Seq<Seq<bool>>,
)
    requires
        sender.key0_pressed == receiver.key0_pressed,
        sender.key1_pressed == receiver.key1_pressed,
    ensures
        ({
            let messages = crate::sender::keyboard::all_messages(before, scans);
            let there = sender.after_all(crate::sender::keyboard::event_queue(messages));
            let here = receiver.after_all(
                crate::receiver::radio::events(
                    payloads(crate::sender::keyboard::radio_queue(messages)),
                ),
            );
            there.key0_pressed == here.key0_pressed && there.key1_pressed == here.key1_pressed
        }),
{
    let messages = crate::sender::keyboard::all_messages(before, scans);
    crate::sender::keyboard::law_queues_pair_up(before, scans, messages.len() as int);
    assert(messages.take(messages.len() as int) =~= messages);
    lemma_boards_agree(sender, receiver, crate::sender::keyboard::all_changes(before, scans));
}

/// The two states after any series of key changes.
proof fn lemma_boards_agree(
    sender: crate::sender::state::State,
    receiver: crate::receiver::state::State,
    changes: Seq<KeyChange>,
)
    requires
        sender.key0_pressed == receiver.key0_pressed,
        sender.key1_pressed == receiver.key1_pressed,
    ensures
        ({
            let there = sender.after_all(crate::sender::keyboard::events_of(changes));
            let here = receiver.after_all(
                crate::receiver::radio::events(payloads_of(changes)),
            );
            there.key0_pressed == here.key0_pressed && there.key1_pressed == here.key1_pressed
        }),
    decreases changes.len(),
{
    if changes.len() > 0 {
        let earlier = changes.drop_last();
        lemma_boards_agree(sender, receiver, earlier);
        assert(crate::sender::keyboard::events_of(changes).drop_last()
            =~= crate::sender::keyboard::events_of(earlier));
        let last = changes.last();
        law_key_event_arrives(last.key, last.pressed, None);
        assert(payloads_of(changes).drop_last() =~= payloads_of(earlier));
        let heard = crate::receiver::radio::events(payloads_of(changes));
        assert(heard.drop_last() =~= crate::receiver::radio::events(payloads_of(earlier)));
    }
}

/// What the sender puts into a packet of the driver, under any address, the receiver reads out of
/// it: a key event as that event, which taps the key if and only if it went down, and the two
/// markers as presses of keys that no board has.
pub proof fn law_sent_is_received(
    packet: RadioPacket,
    own_address: Address,
    made: rfm69_async::Packet,
    received: Option<Reception>,
)
    requires
        call_ensures(RadioPacket::to_packet, (&packet, own_address), made),
        call_ensures(crate::receiver::radio::receive, (&made,), received),
    ensures
        received matches Some(said) && {
            let (key, pressed) = match packet {
                RadioPacket::KeyEvent(key, pressed) => (key, pressed),
                RadioPacket::BatteryLow => (0xFFu8, true),
                RadioPacket::Boot => (0xFEu8, true),
            };
            &&& said.event == crate::receiver::state::Events::RadioReceived(key, pressed)
            &&& said.tap is Some <==> pressed
            &&& said.tap matches Some(tapped) ==> tapped == key
            &&& said.rssi is None
        },
{
}

/// The pixel of the sender shows what the receiver reports: the strength in a reply that the
/// listening radio heard becomes, on a pixel that waits for it, the level of exactly that strength,
/// and the pixel is written to in blue unless it is lit so already.
pub proof fn law_reported_strength_is_shown(
    radio: &mut RadioTask,
    packet: &rfm69_async::Packet,
    rssi: i8,
    key: u8,
    rest: Seq<u8>,
    reply: Reply,
    told: i16,
    pixel: &mut NeoPixel,
    show: Show,
)
    requires
        old(radio).phase == RadioPhase::Listening,
        crate::packet::packet_contents(*packet).data == seq![rssi as u8, key] + rest,
        call_ensures(RadioTask::advance, (radio, RadioEvent::Listened(Some(packet))), Some(reply)),
        call_ensures(Reply::output, (&reply, 0), Some(ReplyOutput::Rssi(told))),
        old(pixel).phase == PixelPhase::Waiting,
        call_ensures(NeoPixel::advance, (pixel, PixelEvent::Rssi(told)), show),
    ensures
        rssi <= -90 ==> final(pixel).brightness == 1,
        rssi >= -40 ==> final(pixel).brightness == 255,
        -90 < rssi < -40 ==> {
            let level = final(pixel).brightness;
            50 * level <= 255 * (rssi + 90) < 50 * (level + 1)
        },
        show == Show::Nothing <==> final(pixel).brightness == old(pixel).brightness,
        show != Show::Nothing ==> show == Show::Steady(
            Color { r: 0, g: 0, b: final(pixel).brightness },
        ),
{
    crate::sender::radio::law_reply_reads_back(rssi, key, rest);
}

/// A key that the receiver confirms flashes on the sender: red for key 0, green for key 1, for 200
/// milliseconds, and then the signal strength is back.
pub proof fn law_confirmed_key_flashes(
    radio: &mut RadioTask,
    packet: &rfm69_async::Packet,
    rssi: i8,
    key: u8,
    rest: Seq<u8>,
    reply: Reply,
    told: u8,
    pixel: &mut NeoPixel,
    show: Show,
    flash: Option<Frame>,
    back: Option<Frame>,
)
    requires
        key == 0 || key == 1,
        old(radio).phase == RadioPhase::Listening,
        crate::packet::packet_contents(*packet).data == seq![rssi as u8, key] + rest,
        call_ensures(RadioTask::advance, (radio, RadioEvent::Listened(Some(packet))), Some(reply)),
        call_ensures(Reply::output, (&reply, 1), Some(ReplyOutput::Flash(told))),
        old(pixel).phase == PixelPhase::Waiting,
        call_ensures(NeoPixel::advance, (pixel, PixelEvent::Key(told)), show),
        call_ensures(Show::frame, (&show, 0), flash),
        call_ensures(Show::frame, (&show, 1), back),
    ensures
        key == 0 ==> flash == Some(Frame { color: Color { r: 32, g: 0, b: 0 }, hold_ms: 200 }),
        key == 1 ==> flash == Some(Frame { color: Color { r: 0, g: 32, b: 0 }, hold_ms: 200 }),
        back == Some(
            Frame { color: Color { r: 0, g: 0, b: old(pixel).brightness }, hold_ms: 0 },
        ),
{
    crate::sender::radio::law_reply_reads_back(rssi, key, rest);
}

/// The alarm follows the battery: with the pixel warned or not as the monitor has it, a pixel that
/// looks for an alert goes into the alarm if and only if the reading was at most 3.2 volts, and
/// exactly then an alert goes on the air.
pub proof fn law_alarm_follows_battery(
    adc: u16,
    step: BatteryStep,
    first: Option<BatteryOutput>,
    second: Option<BatteryOutput>,
    pixel: &mut NeoPixel,
    now_us: u64,
    show: Show,
    request: PixelRequest,
)
    requires
        call_ensures(crate::sender::battery::battery_step, (Some(adc),), step),
        call_ensures(BatteryStep::output, (&step, 0), first),
        call_ensures(BatteryStep::output, (&step, 1), second),
        old(pixel).phase == PixelPhase::Checking,
        call_ensures(
            NeoPixel::advance,
            (
                pixel,
                PixelEvent::BatteryPolled { low: first == Some(BatteryOutput::WarnPixel), now_us },
            ),
            show,
        ),
        call_ensures(NeoPixel::request, (&*final(pixel),), request),
    ensures
        request == PixelRequest::PollAlarm <==> adc * 33 * 2 <= 32 * 4096,
        request == PixelRequest::AwaitSignal(1000) <==> adc * 33 * 2 > 32 * 4096,
        second == Some(BatteryOutput::Radio(RadioPacket::BatteryLow)) <==> adc * 33 * 2 <= 32
            * 4096,
        final(pixel).brightness == old(pixel).brightness,
{
}

/// No two boards share an address: the sender with its jumper, the sender without, and the receiver.
pub proof fn law_addresses_differ(with_jumper: Address, without: Address, receiver: Address)
    requires
        call_ensures(crate::sender::startup::own_address, (true,), with_jumper),
        call_ensures(crate::sender::startup::own_address, (false,), without),
        call_ensures(crate::receiver::radio::own_address, (), receiver),
    ensures
        with_jumper == Address::Unicast(3),
        without == Address::Unicast(1),
        receiver == Address::Unicast(2),
{
}

} // verus!
