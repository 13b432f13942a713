//! The datagram value type.

use vstd::prelude::*;

verus! {

use vstd::slice::slice_subrange;
use vstd::slice::slice_to_vec;

/// Mathematical model of a [`Packet`]: the payload as a byte sequence and the
/// remote endpoint as plain values.
pub struct PacketModel {
    pub buffer: Seq<u8>,
    pub address: Seq<char>,
    pub port: u16,
    pub version: u8,
}

/// A single datagram together with its remote endpoint. Immutable once
/// constructed: ownership moves whole from the queue to transmission to sink
/// delivery, and no operation of the library mutates one in place.
pub struct Packet {
    /// The datagram's payload, exactly as received or as handed to `send`.
    pub buffer: Vec<u8>,
    /// Textual representation of the remote IP address.
    pub address: String,
    /// The remote port.
    pub port: u16,
    /// 4 for an IPv4 remote endpoint, 6 for an IPv6 one. For outbound packets
    /// this is supplied by the caller and not validated against `address`.
    pub version: u8,
}

impl View for Packet {
    type V = PacketModel;

    open spec fn view(&self) -> PacketModel {
        PacketModel {
            buffer: self.buffer@,
            address: self.address@,
            port: self.port,
            version: self.version,
        }
    }
}

/// The packet that the receive loop constructs for an inbound datagram:
/// the payload is kept at its exact length, the endpoint is the remote
/// peer's, and the version is derived from the peer's address family.
pub open spec fn incoming_model(
    buffer: Seq<u8>,
    address: Seq<char>,
    port: u16,
    is_ipv4: bool,
) -> PacketModel {
    PacketModel { buffer, address, port, version: if is_ipv4 { 4 } else { 6 } }
}

/// The payload of one received datagram: the first `size` bytes of the
/// receive buffer — the exact received length, never the buffer's full
/// extent.
pub fn received_payload(buf: &[u8], size: usize) -> (r: Vec<u8>)
    requires
        size <= buf@.len(),
    ensures
        r@ == buf@.subrange(0, size as int),
{
    slice_to_vec(slice_subrange(buf, 0, size))
}

impl Packet {
    /// Builds the packet delivered to the incoming sink for one received
    /// datagram. `is_ipv4` reports the address family of the remote peer.
    pub fn from_datagram(buffer: Vec<u8>, address: String, port: u16, is_ipv4: bool) -> (p: Packet)
        ensures
            p@ == incoming_model(buffer@, address@, port, is_ipv4),
    {
        Packet { buffer, address, port, version: if is_ipv4 { 4 } else { 6 } }
    }
}

} // verus!
