//! The header fields that the decoder reads, and where they lie on the wire.
//!
//! The layout is stated here over plain bytes. The reading itself is done by
//! `pnet`'s packet views, behind the three functions at the end of this file.

use pnet::packet::ethernet::EthernetPacket;
use pnet::packet::ipv4::Ipv4Packet;
use pnet::packet::tcp::TcpPacket;
use vstd::prelude::*;

verus! {

/// Length of an Ethernet II header: two hardware addresses and the ethertype.
pub const ETHERNET_HEADER_LEN: usize = 14;

/// Length of an IPv4 header without options.
pub const IPV4_MIN_HEADER_LEN: usize = 20;

/// Length of a TCP header without options.
pub const TCP_MIN_HEADER_LEN: usize = 20;

/// The ethertype of IPv4.
pub const ETHERTYPE_IPV4: u16 = 0x0800;

/// The IPv4 protocol number of TCP.
pub const PROTOCOL_TCP: u8 = 6;

/// The number that two bytes spell, the more significant one first.
pub open spec fn be16(high: u8, low: u8) -> u16 {
    (high * 256 + low) as u16
}

/// The ethertype of a frame: bytes 12 and 13 (meant for frames of at least
/// `ETHERNET_HEADER_LEN` bytes).
pub open spec fn ethertype(frame: Seq<u8>) -> u16 {
    be16(frame[12], frame[13])
}

/// The header length that an IPv4 packet declares, in 32-bit words: the low
/// four bits of byte 0.
pub open spec fn ipv4_header_words(packet: Seq<u8>) -> u8 {
    (packet[0] % 16) as u8
}

/// The protocol that an IPv4 packet carries: byte 9.
pub open spec fn ipv4_protocol(packet: Seq<u8>) -> u8 {
    packet[9]
}

/// The source address of an IPv4 packet: bytes 12 to 15.
pub open spec fn ipv4_source(packet: Seq<u8>) -> Seq<u8> {
    packet.subrange(12, 16)
}

/// The destination port of a TCP segment: bytes 2 and 3.
pub open spec fn tcp_destination(segment: Seq<u8>) -> u16 {
    be16(segment[2], segment[3])
}

/// What the decoder reads of an IPv4 header.
pub struct Ipv4Fields {
    /// Declared header length, in 32-bit words.
    pub header_words: u8,
    /// Number of the protocol carried.
    pub protocol: u8,
    /// Source address, first octet first.
    pub source: [u8; 4],
}

/// Reads the ethertype of `frame` with `EthernetPacket::new` and
/// `get_ethertype`. Believed of them: the view is refused exactly when the
/// frame is shorter than an Ethernet header, and the ethertype is the
/// big-endian number in bytes 12 and 13.
#[verifier::external_body]
pub(crate) fn read_ethertype(frame: &[u8]) -> (r: Option<u16>)
    ensures
        r is Some <==> frame@.len() >= ETHERNET_HEADER_LEN,
        r matches Some(t) ==> t == ethertype(frame@),
{
    match EthernetPacket::new(frame) {
        Some(view) => Some(view.get_ethertype().0),
        None => None,
    }
}

/// Reads the fields of the IPv4 header at the start of `packet` with
/// `Ipv4Packet::new`, `get_header_length`, `get_next_level_protocol` and
/// `get_source`. Believed of them: the view is refused exactly when the
/// bytes are fewer than an IPv4 header without options, the header length is
/// the low half of byte 0, the protocol is byte 9, and the source address is
/// bytes 12 to 15 in order.
#[verifier::external_body]
pub(crate) fn read_ipv4(packet: &[u8]) -> (r: Option<Ipv4Fields>)
    ensures
        r is Some <==> packet@.len() >= IPV4_MIN_HEADER_LEN,
        r matches Some(h) ==> h.header_words == ipv4_header_words(packet@) && h.protocol
            == ipv4_protocol(packet@) && h.source@ == ipv4_source(packet@),
{
    match Ipv4Packet::new(packet) {
        Some(view) => Some(
            Ipv4Fields {
                header_words: view.get_header_length(),
                protocol: view.get_next_level_protocol().0,
                source: view.get_source().octets(),
            },
        ),
        None => None,
    }
}

/// Reads the destination port of the TCP header at the start of `segment`
/// with `TcpPacket::new` and `get_destination`. Believed of them: the view
/// is refused exactly when the bytes are fewer than a TCP header without
/// options, and the destination port is the big-endian number in bytes 2
/// and 3.
#[verifier::external_body]
pub(crate) fn read_tcp_destination(segment: &[u8]) -> (r: Option<u16>)
    ensures
        r is Some <==> segment@.len() >= TCP_MIN_HEADER_LEN,
        r matches Some(port) ==> port == tcp_destination(segment@),
{
    match TcpPacket::new(segment) {
        Some(view) => Some(view.get_destination()),
        None => None,
    }
}

} // verus!
