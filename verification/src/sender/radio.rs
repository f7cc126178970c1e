//! The sender's radio: what goes on the air, what a reply says, and the duty cycle that keeps
//! the radio asleep between packets.
use vstd::prelude::*;

use crate::packet::{broadcast, packet_data, Address, PacketContents};

verus! {

/// How long the sender listens for a reply to a packet.
pub const REPLY_TIMEOUT_MS: u64 = 500;

/// Both payload bytes of a battery alert.
pub const BATTERY_LOW_MARKER: u8 = 0xFF;

/// Both payload bytes of a boot announcement.
pub const BOOT_MARKER: u8 = 0xFE;

/// Something to be put on the air.
#[derive(Clone, Copy, Debug, PartialEq, Eq, Structural)]
pub enum RadioPacket {
    /// Key index, and whether the key is now down.
    KeyEvent(u8, bool),
    BatteryLow,
    Boot,
}

impl RadioPacket {
    /// The payload bytes.
    pub open spec fn bytes(self) -> Seq<u8> {
        match self {
            RadioPacket::KeyEvent(key, pressed) => seq![
                key,
                if pressed {
                    1u8
                } else {
                    0u8
                },
            ],
            RadioPacket::BatteryLow => seq![BATTERY_LOW_MARKER, BATTERY_LOW_MARKER],
            RadioPacket::Boot => seq![BOOT_MARKER, BOOT_MARKER],
        }
    }

    /// Encodes the packet's payload.
    pub fn payload(&self) -> (payload: [u8; 2])
        ensures
            payload@ == self.bytes(),
    {
        match self {
            RadioPacket::KeyEvent(key, pressed) => [
                *key,
                if *pressed {
                    1
                } else {
                    0
                },
            ],
            RadioPacket::BatteryLow => [BATTERY_LOW_MARKER, BATTERY_LOW_MARKER],
            RadioPacket::Boot => [BOOT_MARKER, BOOT_MARKER],
        }
    }

    /// The driver packet: a broadcast from `own_address` that asks for no acknowledgement.
    pub fn to_packet(&self, own_address: Address) -> (packet: rfm69_async::Packet)
        ensures
            crate::packet::packet_contents(packet) == (PacketContents {
                src: own_address,
                dst: Address::Broadcast,
                ack: None,
                data: self.bytes(),
                rssi: None,
            }),
    {
        broadcast(own_address, self.payload())
    }
}

/// What the receiver reports back after a packet.
#[derive(Clone, Copy, Debug, PartialEq, Eq, Structural)]
pub struct Reply {
    /// Signal strength in dBm at which the receiver heard the packet.
    pub rssi: i16,
    /// The key to flash for, where the reply names a key of the matrix.
    pub flash: Option<u8>,
}

/// Something that a reply tells the NeoPixel.
#[derive(Clone, Copy, Debug, PartialEq, Eq, Structural)]
pub enum ReplyOutput {
    Rssi(i16),
    Flash(u8),
}

impl Reply {
    /// What the reply tells the NeoPixel, in order: the signal strength, and then the key, if any.
    pub open spec fn outputs(self) -> Seq<ReplyOutput> {
        match self.flash {
            Some(key) => seq![ReplyOutput::Rssi(self.rssi), ReplyOutput::Flash(key)],
            None => seq![ReplyOutput::Rssi(self.rssi)],
        }
    }

    /// The output at an index, up to the end.
    pub fn output(&self, index: usize) -> (output: Option<ReplyOutput>)
        ensures
            output == (if index < self.outputs().len() {
                Some(self.outputs()[index as int])
            } else {
                None
            }),
    {
        match index {
            0 => Some(ReplyOutput::Rssi(self.rssi)),
            1 => match self.flash {
                Some(key) => Some(ReplyOutput::Flash(key)),
                None => None,
            },
            _ => None,
        }
    }
}

/// A byte read as a two's complement number.
pub open spec fn signed(byte: u8) -> int {
    if byte < 128 {
        byte as int
    } else {
        byte - 256
    }
}

/// What the payload of a reply says: a payload of at least two bytes holds the signal strength as
/// a signed byte, and then a key index, which counts if the matrix has that key.
pub open spec fn reply_in(data: Seq<u8>) -> Option<Reply> {
    if data.len() >= 2 {
        Some(
            Reply {
                rssi: signed(data[0]) as i16,
                flash: if data[1] <= 1 {
                    Some(data[1])
                } else {
                    None
                },
            },
        )
    } else {
        None
    }
}

/// Reads the payload of a reply.
pub fn decode_reply(data: &[u8]) -> (reply: Option<Reply>)
    ensures
        reply == reply_in(data@),
{
    if data.len() >= 2 {
        let level: u8 = data[0];
        let rssi: i16 = level as i8 as i16;
        assert(level < 128 ==> level as i8 as i16 == level) by (bit_vector);
        assert(level >= 128 ==> level as i8 as i16 == level - 256) by (bit_vector);
        let key: u8 = data[1];
        let flash = if key <= 1 {
            Some(key)
        } else {
            None
        };
        Some(Reply { rssi, flash })
    } else {
        None
    }
}

/// Where the radio task stands.
#[derive(Clone, Copy, Debug, PartialEq, Eq, Structural)]
pub enum RadioPhase {
    /// The radio sleeps; the task waits for something to send.
    Asleep,
    /// A packet is being put on the air.
    Sending(RadioPacket),
    /// The radio listens for a reply.
    Listening,
    /// The radio is being put back to sleep.
    Retiring,
}

/// What the radio task asks for next.
#[derive(Clone, Copy, Debug, PartialEq, Eq, Structural)]
pub enum RadioAction {
    /// Wait for the next packet to send.
    AwaitPacket,
    /// Wake the radio and send.
    Transmit(RadioPacket),
    /// Listen for one packet, for so many milliseconds at most.
    Listen(u64),
    /// Put the radio to sleep.
    Sleep,
}

/// What came of an action.
pub enum RadioEvent<'a> {
    /// A packet is to be sent.
    Dequeued(RadioPacket),
    /// The transmission is over, whether or not it worked.
    Transmitted,
    /// Listening is over: with a packet, or with an error or a timeout.
    Listened(Option<&'a rfm69_async::Packet>),
    /// The radio has been told to sleep, whether or not that worked.
    Slept,
}

/// The duty cycle of the sender's radio. An event that does not answer the pending action leaves
/// the task as it is.
#[derive(Clone, Copy, Debug, PartialEq, Eq, Structural)]
pub struct RadioTask {
    pub phase: RadioPhase,
}

impl RadioTask {
    /// What is asked for in this phase.
    pub open spec fn asks(self) -> RadioAction {
        match self.phase {
            RadioPhase::Asleep => RadioAction::AwaitPacket,
            RadioPhase::Sending(packet) => RadioAction::Transmit(packet),
            RadioPhase::Listening => RadioAction::Listen(REPLY_TIMEOUT_MS),
            RadioPhase::Retiring => RadioAction::Sleep,
        }
    }

    /// The task after an event. Boot announcements go on the air before the duty cycle begins; one
    /// that turns up in the queue is not transmitted, only listened for.
    pub open spec fn next(self, event: RadioEvent) -> RadioTask {
        match (self.phase, event) {
            (RadioPhase::Asleep, RadioEvent::Dequeued(RadioPacket::Boot)) => RadioTask {
                phase: RadioPhase::Listening,
            },
            (RadioPhase::Asleep, RadioEvent::Dequeued(packet)) => RadioTask {
                phase: RadioPhase::Sending(packet),
            },
            (RadioPhase::Sending(_), RadioEvent::Transmitted) => RadioTask {
                phase: RadioPhase::Listening,
            },
            (RadioPhase::Listening, RadioEvent::Listened(_)) => RadioTask {
                phase: RadioPhase::Retiring,
            },
            (RadioPhase::Retiring, RadioEvent::Slept) => RadioTask { phase: RadioPhase::Asleep },
            _ => self,
        }
    }

    /// What an event lets the other tasks know.
    pub open spec fn learns(self, event: RadioEvent) -> Option<Reply> {
        match (self.phase, event) {
            (RadioPhase::Listening, RadioEvent::Listened(Some(packet))) => reply_in(
                crate::packet::packet_contents(*packet).data,
            ),
            _ => None,
        }
    }

    /// The task starts with the radio asleep.
    pub fn new() -> (task: Self)
        ensures
            task.phase == RadioPhase::Asleep,
    {
        RadioTask { phase: RadioPhase::Asleep }
    }

    /// What to do next.
    pub fn action(&self) -> (action: RadioAction)
        ensures
            action == self.asks(),
    {
        match self.phase {
            RadioPhase::Asleep => RadioAction::AwaitPacket,
            RadioPhase::Sending(packet) => RadioAction::Transmit(packet),
            RadioPhase::Listening => RadioAction::Listen(REPLY_TIMEOUT_MS),
            RadioPhase::Retiring => RadioAction::Sleep,
        }
    }

    /// Takes in what came of the action. A reply is handed out for the NeoPixel to show.
    pub fn advance(&mut self, event: RadioEvent) -> (reply: Option<Reply>)
        ensures
            *final(self) == old(self).next(event),
            reply == old(self).learns(event),
    {
        let mut reply = None;
        match self.phase {
            RadioPhase::Asleep => {
                if let RadioEvent::Dequeued(packet) = event {
                    self.phase = match packet {
                        RadioPacket::Boot => RadioPhase::Listening,
                        RadioPacket::KeyEvent(_, _) | RadioPacket::BatteryLow => {
                            RadioPhase::Sending(packet)
                        },
                    };
                }
            },
            RadioPhase::Sending(_) => {
                if let RadioEvent::Transmitted = event {
                    self.phase = RadioPhase::Listening;
                }
            },
            RadioPhase::Listening => {
                if let RadioEvent::Listened(heard) = event {
                    if let Some(packet) = heard {
                        reply = decode_reply(packet_data(packet));
                    }
                    self.phase = RadioPhase::Retiring;
                }
            },
            RadioPhase::Retiring => {
                if let RadioEvent::Slept = event {
                    self.phase = RadioPhase::Asleep;
                }
            },
        }
        reply
    }
}

/// Different packets have different payloads: a key event of any index is told apart from the
/// battery alert, from the boot announcement and from every other key event.
pub proof fn law_payloads_distinct(a: RadioPacket, b: RadioPacket)
    requires
        a.bytes() == b.bytes(),
    ensures
        a == b,
{
    assert(a.bytes()[0] == b.bytes()[0]);
    assert(a.bytes()[1] == b.bytes()[1]);
}

/// A reply that carries a signal strength of one signed byte, and then a key index, is read back
/// as that signal strength, and as a flash for that key if the matrix has it.
pub proof fn law_reply_reads_back(rssi: i8, key: u8, rest: Seq<u8>)
    ensures
        reply_in(seq![rssi as u8, key] + rest) == Some(
            Reply {
                rssi: rssi as i16,
                flash: if key == 0 || key == 1 {
                    Some(key)
                } else {
                    None
                },
            },
        ),
{
    let byte = rssi as u8;
    assert(rssi >= 0 ==> rssi as u8 == rssi) by (bit_vector);
    assert(rssi < 0 ==> rssi as u8 == rssi + 256) by (bit_vector);
    let data = seq![byte, key] + rest;
    assert(data[0] == byte && data[1] == key);
}

/// Whether the radio is awake once an action has been carried out.
pub open spec fn awake_after(awake: bool, action: RadioAction) -> bool {
    match action {
        RadioAction::AwaitPacket => awake,
        RadioAction::Transmit(_) => true,
        RadioAction::Listen(_) => true,
        RadioAction::Sleep => false,
    }
}

/// The task, and whether the radio is awake, after the pending actions have been carried out one
/// by one with these outcomes.
pub open spec fn radio_run(
    task: RadioTask,
    awake: bool,
    events: Seq<RadioEvent>,
) -> (RadioTask, bool)
    decreases events.len(),
{
    if events.len() == 0 {
        (task, awake)
    } else {
        let (reached, was_awake) = radio_run(task, awake, events.drop_last());
        (reached.next(events.last()), awake_after(was_awake, reached.asks()))
    }
}

/// Whatever happens on the air, the radio sleeps whenever the task waits for something to send.
pub proof fn law_radio_sleeps_between_packets(events: Seq<RadioEvent>)
    ensures
        ({
            let (task, awake) = radio_run(
                RadioTask { phase: RadioPhase::Asleep },
                false,
                events,
            );
            task.asks() == RadioAction::AwaitPacket ==> !awake
        }),
    decreases events.len(),
{
    if events.len() > 0 {
        law_radio_sleeps_between_packets(events.drop_last());
    }
}

/// One packet takes one round: a packet other than a boot announcement is transmitted once, the
/// task then listens once for half a second, puts the radio to sleep and waits for the next
/// packet, whatever was heard.
pub proof fn law_one_round_per_packet(packet: RadioPacket, heard: Option<&rfm69_async::Packet>)
    ensures
        ({
            let idle = RadioTask { phase: RadioPhase::Asleep };
            let taken = idle.next(RadioEvent::Dequeued(packet));
            let sent = if packet == RadioPacket::Boot {
                taken
            } else {
                taken.next(RadioEvent::Transmitted)
            };
            let listened = sent.next(RadioEvent::Listened(heard));
            &&& packet != RadioPacket::Boot ==> taken.asks() == RadioAction::Transmit(packet)
            &&& sent.asks() == RadioAction::Listen(500)
            &&& listened.asks() == RadioAction::Sleep
            &&& listened.next(RadioEvent::Slept) == idle
        }),
{
}

/// The payloads on the air: a key event is the key index and then 1 or 0, a battery alert is twice
/// 0xFF, and a boot announcement is twice 0xFE. They reach every node in range, under the sender's
/// own address, and nobody is to acknowledge them.
pub proof fn law_packets_on_the_air(
    packet: RadioPacket,
    own_address: Address,
    payload: [u8; 2],
    made: rfm69_async::Packet,
)
    requires
        call_ensures(RadioPacket::payload, (&packet,), payload),
        call_ensures(RadioPacket::to_packet, (&packet, own_address), made),
    ensures
        payload@[0] == (match packet {
            RadioPacket::KeyEvent(key, _) => key,
            RadioPacket::BatteryLow => 0xFF,
            RadioPacket::Boot => 0xFE,
        }),
        payload@[1] == (match packet {
            RadioPacket::KeyEvent(_, true) => 1u8,
            RadioPacket::KeyEvent(_, false) => 0,
            RadioPacket::BatteryLow => 0xFF,
            RadioPacket::Boot => 0xFE,
        }),
        crate::packet::packet_contents(made).data == payload@,
        crate::packet::packet_contents(made).src == own_address,
        crate::packet::packet_contents(made).dst == Address::Broadcast,
        crate::packet::packet_contents(made).ack is None,
{
}

/// What a listening radio hears is handed on as it was said: of a payload that begins with a signal
/// strength and a key index, that strength, and that key if the matrix has it. The radio then goes
/// to sleep.
pub proof fn law_reply_is_handed_on(
    task: &mut RadioTask,
    packet: &rfm69_async::Packet,
    rssi: i8,
    key: u8,
    rest: Seq<u8>,
    reply: Option<Reply>,
)
    requires
        old(task).phase == RadioPhase::Listening,
        crate::packet::packet_contents(*packet).data == seq![rssi as u8, key] + rest,
        call_ensures(RadioTask::advance, (task, RadioEvent::Listened(Some(packet))), reply),
    ensures
        reply matches Some(said) && said.rssi == rssi && said.flash == (if key == 0 || key == 1 {
            Some(key)
        } else {
            None
        }),
        final(task).phase == RadioPhase::Retiring,
{
    law_reply_reads_back(rssi, key, rest);
}

/// Nothing else is handed on: neither a payload of fewer than two bytes, nor an error or a timeout,
/// nor a packet that was not listened for.
pub proof fn law_only_replies_are_handed_on(
    task: &mut RadioTask,
    event: RadioEvent,
    reply: Option<Reply>,
)
    requires
        call_ensures(RadioTask::advance, (task, event), reply),
    ensures
        reply is Some <==> {
            &&& old(task).phase == RadioPhase::Listening
            &&& event matches RadioEvent::Listened(Some(packet))
            &&& crate::packet::packet_contents(*packet).data.len() >= 2
        },
{
}

/// A payload by itself is read like a reply that was heard: too short, or a strength and a key.
pub proof fn law_reply_payload(data: &[u8], reply: Option<Reply>)
    requires
        call_ensures(decode_reply, (data,), reply),
    ensures
        reply is None <==> data@.len() < 2,
        reply matches Some(said) ==> {
            &&& -128 <= said.rssi <= 127
            &&& (said.rssi - data@[0]) % 256 == 0
            &&& said.flash is Some <==> data@[1] <= 1
            &&& said.flash matches Some(key) ==> key == data@[1]
        },
{
}

/// A reply tells the NeoPixel its signal strength, then its key if it has one, and nothing more.
pub proof fn law_reply_tells_strength_and_key(
    reply: Reply,
    index: usize,
    output: Option<ReplyOutput>,
)
    requires
        call_ensures(Reply::output, (&reply, index), output),
    ensures
        output == Some(ReplyOutput::Rssi(reply.rssi)) <==> index == 0,
        output is Some && output->0 is Flash <==> index == 1 && reply.flash is Some,
        output matches Some(ReplyOutput::Flash(key)) ==> Some(key) == reply.flash,
        output is None <==> index >= 2 || (index == 1 && reply.flash is None),
{
}

/// An event answers an action.
pub open spec fn answers(action: RadioAction, event: RadioEvent) -> bool {
    match action {
        RadioAction::AwaitPacket => event is Dequeued,
        RadioAction::Transmit(_) => event is Transmitted,
        RadioAction::Listen(_) => event is Listened,
        RadioAction::Sleep => event is Slept,
    }
}

/// The round of the radio, action by action: each answer leads on to the next action, and an event
/// that does not answer the pending action leaves everything as it is.
pub proof fn law_radio_goes_round(
    task: &mut RadioTask,
    action: RadioAction,
    event: RadioEvent,
    reply: Option<Reply>,
    after: RadioAction,
)
    requires
        call_ensures(RadioTask::action, (&*old(task),), action),
        call_ensures(RadioTask::advance, (task, event), reply),
        call_ensures(RadioTask::action, (&*final(task),), after),
    ensures
        !answers(action, event) ==> *final(task) == *old(task) && after == action && reply is None,
        answers(action, event) ==> match action {
            RadioAction::AwaitPacket => after == (match event {
                RadioEvent::Dequeued(RadioPacket::Boot) => RadioAction::Listen(500),
                _ => RadioAction::Transmit(event->Dequeued_0),
            }),
            RadioAction::Transmit(_) => after == RadioAction::Listen(500),
            RadioAction::Listen(_) => after == RadioAction::Sleep,
            RadioAction::Sleep => after == RadioAction::AwaitPacket,
        },
        action == RadioAction::AwaitPacket <==> old(task).phase == RadioPhase::Asleep,
        action is Listen <==> old(task).phase == RadioPhase::Listening,
        action is Listen ==> action == RadioAction::Listen(500),
        action == RadioAction::Sleep <==> old(task).phase == RadioPhase::Retiring,
        action matches RadioAction::Transmit(packet) ==> old(task).phase == RadioPhase::Sending(
            packet,
        ),
{
}

} // verus!
