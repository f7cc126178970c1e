//! Radio packets: node addresses, and the packet type of the `rfm69_async` driver.
use vstd::prelude::*;

verus! {

/// Address of a radio node.
#[derive(Clone, Copy, Debug, PartialEq, Eq, Structural)]
pub enum Address {
    Broadcast,
    Unicast(u8),
}

/// What a driver packet carries. `ack` holds the number of retries where an acknowledgement is
/// asked for.
pub struct PacketContents {
    pub src: Address,
    pub dst: Address,
    pub ack: Option<u8>,
    pub data: Seq<u8>,
    pub rssi: Option<i16>,
}

/// The driver's packet, `rfm69_async::Packet`. It is opaque here; `packet_contents` names what
/// it carries.
#[verifier::external_type_specification]
#[verifier::external_body]
pub struct ExPacket(rfm69_async::Packet);

/// What a driver packet carries.
pub uninterp spec fn packet_contents(packet: rfm69_async::Packet) -> PacketContents;

/// The longest payload, in bytes, that a driver packet takes.
pub const MAX_PAYLOAD: usize = 61;

/// Calls `rfm69_async::Packet::new`.
///
/// Trusted: the driver refuses a payload of more than 61 bytes and nothing else; a packet that it
/// makes carries the addresses, the acknowledgement flag and the payload as they were given, and
/// no signal strength.
#[verifier::external_body]
fn new_packet(src: Address, dst: Address, ack: Option<u8>, data: &[u8]) -> (packet: Option<
    rfm69_async::Packet,
>)
    ensures
        packet is Some <==> data@.len() <= MAX_PAYLOAD,
        packet matches Some(p) ==> packet_contents(p) == (PacketContents {
            src,
            dst,
            ack,
            data: data@,
            rssi: None,
        }),
{
    let src = match src {
        Address::Broadcast => rfm69_async::Address::Broadcast,
        Address::Unicast(node) => rfm69_async::Address::Unicast(node),
    };
    let dst = match dst {
        Address::Broadcast => rfm69_async::Address::Broadcast,
        Address::Unicast(node) => rfm69_async::Address::Unicast(node),
    };
    let flags = match ack {
        None => rfm69_async::Flags::None,
        Some(retries) => rfm69_async::Flags::Ack(retries),
    };
    rfm69_async::Packet::new(src, dst, flags, data).ok()
}

/// Reads the `data` field of `rfm69_async::Packet`.
///
/// Trusted: the slice holds the payload that the packet carries.
#[verifier::external_body]
pub(crate) fn packet_data(packet: &rfm69_async::Packet) -> (data: &[u8])
    ensures
        data@ == packet_contents(*packet).data,
{
    packet.data.as_slice()
}

/// Reads the `rssi` field of `rfm69_async::Packet`.
///
/// Trusted: the result is the signal strength that the packet carries.
#[verifier::external_body]
pub(crate) fn packet_rssi(packet: &rfm69_async::Packet) -> (rssi: Option<i16>)
    ensures
        rssi == packet_contents(*packet).rssi,
{
    packet.rssi
}

/// A packet from `src` to every node in range that asks for no acknowledgement.
pub fn broadcast(src: Address, payload: [u8; 2]) -> (packet: rfm69_async::Packet)
    ensures
        packet_contents(packet) == (PacketContents {
            src,
            dst: Address::Broadcast,
            ack: None,
            data: payload@,
            rssi: None,
        }),
{
    new_packet(src, Address::Broadcast, None, payload.as_slice()).unwrap()
}

/// A broadcast carries its payload and its source to every node, asks nobody to acknowledge it, and
/// has not been heard yet.
pub proof fn law_broadcast_reaches_all(src: Address, payload: [u8; 2], packet: rfm69_async::Packet)
    requires
        call_ensures(broadcast, (src, payload), packet),
    ensures
        packet_contents(packet).src == src,
        packet_contents(packet).dst == Address::Broadcast,
        packet_contents(packet).ack is None,
        packet_contents(packet).data == seq![payload@[0], payload@[1]],
        packet_contents(packet).rssi is None,
{
}

} // verus!
