//! From a captured frame to the source address and destination port of the
//! TCP segment inside it.

use crate::address::{octets_value, Ipv4Address};
use crate::wire::{
    ethertype, ipv4_header_words, ipv4_protocol, ipv4_source, read_ethertype, read_ipv4,
    read_tcp_destination, tcp_destination, ETHERNET_HEADER_LEN, ETHERTYPE_IPV4,
    IPV4_MIN_HEADER_LEN, PROTOCOL_TCP, TCP_MIN_HEADER_LEN,
};
use vstd::prelude::*;
use vstd::slice::slice_subrange;

verus! {

/// What the sensor keeps of a TCP segment.
#[derive(Clone, Copy, Debug, PartialEq, Eq, Structural)]
pub struct DecodedSegment {
    pub source_ip: Ipv4Address,
    pub destination_port: u16,
}

/// Why a frame was not decoded.
#[derive(Clone, Copy, Debug, PartialEq, Eq, Structural)]
pub enum DecodeOutcome {
    /// The frame does not declare IPv4 as its protocol (a frame too short to
    /// declare any protocol included).
    NotIPv4,
    /// What follows the Ethernet header is shorter than any IPv4 header.
    TruncatedIPv4,
    /// The IPv4 packet does not carry TCP.
    NotTCP,
    /// The IPv4 packet is shorter than the header length it declares.
    TruncatedIPv4Header,
    /// What follows the IPv4 header is shorter than any TCP header.
    TruncatedTCP,
}

/// The bytes of `frame` that follow its Ethernet header.
pub open spec fn ip_packet_of(frame: Seq<u8>) -> Seq<u8> {
    frame.skip(ETHERNET_HEADER_LEN as int)
}

/// The header length that an IPv4 packet declares, in bytes.
pub open spec fn ipv4_header_len(packet: Seq<u8>) -> int {
    ipv4_header_words(packet) * 4
}

/// The bytes of an IPv4 packet that follow its header as declared.
pub open spec fn tcp_segment_of(packet: Seq<u8>) -> Seq<u8> {
    packet.skip(ipv4_header_len(packet))
}

/// The address that the four octets of `octets` spell.
pub open spec fn address_of(octets: Seq<u8>) -> Ipv4Address {
    Ipv4Address { bits: octets_value(octets[0], octets[1], octets[2], octets[3]) as u32 }
}

/// What decoding makes of a frame. The tests are made in this order, and the
/// first that fails names the outcome.
pub open spec fn decode_frame(frame: Seq<u8>) -> Result<DecodedSegment, DecodeOutcome> {
    let packet = ip_packet_of(frame);
    let segment = tcp_segment_of(packet);
    if frame.len() < ETHERNET_HEADER_LEN || ethertype(frame) != ETHERTYPE_IPV4 {
        Err(DecodeOutcome::NotIPv4)
    } else if packet.len() < IPV4_MIN_HEADER_LEN {
        Err(DecodeOutcome::TruncatedIPv4)
    } else if ipv4_protocol(packet) != PROTOCOL_TCP {
        Err(DecodeOutcome::NotTCP)
    } else if packet.len() < ipv4_header_len(packet) {
        Err(DecodeOutcome::TruncatedIPv4Header)
    } else if segment.len() < TCP_MIN_HEADER_LEN {
        Err(DecodeOutcome::TruncatedTCP)
    } else {
        Ok(
            DecodedSegment {
                source_ip: address_of(ipv4_source(packet)),
                destination_port: tcp_destination(segment),
            },
        )
    }
}

/// Decodes one captured frame.
///
/// Never fails otherwise than by returning an outcome: any bytes may be
/// handed in.
pub fn decode(frame: &[u8]) -> (r: Result<DecodedSegment, DecodeOutcome>)
    ensures
        r == decode_frame(frame@),
{
    match read_ethertype(frame) {
        Some(declared) => {
            if declared != ETHERTYPE_IPV4 {
                return Err(DecodeOutcome::NotIPv4);
            }
        },
        None => {
            return Err(DecodeOutcome::NotIPv4);
        },
    }
    let packet: &[u8] = slice_subrange(frame, ETHERNET_HEADER_LEN, frame.len());
    let header = match read_ipv4(packet) {
        Some(h) => h,
        None => {
            return Err(DecodeOutcome::TruncatedIPv4);
        },
    };
    if header.protocol != PROTOCOL_TCP {
        return Err(DecodeOutcome::NotTCP);
    }
    let header_len: usize = header.header_words as usize * 4;
    if packet.len() < header_len {
        return Err(DecodeOutcome::TruncatedIPv4Header);
    }
    let segment: &[u8] = slice_subrange(packet, header_len, packet.len());
    let destination_port: u16 = match read_tcp_destination(segment) {
        Some(port) => port,
        None => {
            return Err(DecodeOutcome::TruncatedTCP);
        },
    };
    let source_ip = Ipv4Address::from_octets(
        header.source[0],
        header.source[1],
        header.source[2],
        header.source[3],
    );
    Ok(DecodedSegment { source_ip, destination_port })
}

/// No malformed frame is decoded: a frame that does not declare IPv4, an
/// IPv4 packet shorter than the smallest header or than the header it
/// declares, and a TCP segment shorter than the smallest TCP header are each
/// turned down with an outcome.
pub proof fn lemma_malformed_frames_are_rejected(frame: Seq<u8>)
    ensures
        frame.len() < ETHERNET_HEADER_LEN || ethertype(frame) != ETHERTYPE_IPV4 ==> decode_frame(
            frame,
        ) == Err::<DecodedSegment, DecodeOutcome>(DecodeOutcome::NotIPv4),
        ip_packet_of(frame).len() < IPV4_MIN_HEADER_LEN ==> decode_frame(frame) is Err,
        ip_packet_of(frame).len() < ipv4_header_len(ip_packet_of(frame)) ==> decode_frame(
            frame,
        ) is Err,
        tcp_segment_of(ip_packet_of(frame)).len() < TCP_MIN_HEADER_LEN ==> decode_frame(
            frame,
        ) is Err,
{
}

/// A segment is decoded only out of a frame that holds all it claims to
/// hold: an Ethernet header that declares IPv4, then an IPv4 header of the
/// declared length that declares TCP, then at least a whole TCP header.
pub proof fn lemma_decoded_frames_are_whole(frame: Seq<u8>)
    requires
        decode_frame(frame) is Ok,
    ensures
        ethertype(frame) == ETHERTYPE_IPV4,
        ipv4_protocol(ip_packet_of(frame)) == PROTOCOL_TCP,
        ip_packet_of(frame).len() >= IPV4_MIN_HEADER_LEN,
        frame.len() >= ETHERNET_HEADER_LEN + ipv4_header_len(ip_packet_of(frame))
            + TCP_MIN_HEADER_LEN,
{
}

} // verus!
