use pnet::packet::ethernet::{EtherTypes, MutableEthernetPacket};
use pnet::packet::ip::IpNextHeaderProtocols;
use pnet::packet::ipv4::MutableIpv4Packet;
use pnet::packet::tcp::MutableTcpPacket;
use rust_ids::address::Ipv4Address;
use rust_ids::decoder::{decode, DecodeOutcome, DecodedSegment};

/// A frame written byte by byte: Ethernet header, IPv4 header of `ihl` words
/// (at least five), then `tcp`.
fn raw_frame(ethertype: u16, ihl: u8, protocol: u8, source: [u8; 4], tcp: &[u8]) -> Vec<u8> {
    let mut frame = vec![0u8; 14];
    frame[0..6].copy_from_slice(&[0xaa, 0xbb, 0xcc, 0xdd, 0xee, 0xff]);
    frame[6..12].copy_from_slice(&[0x11, 0x22, 0x33, 0x44, 0x55, 0x66]);
    frame[12] = (ethertype >> 8) as u8;
    frame[13] = (ethertype & 0xff) as u8;
    let header_len = (ihl as usize) * 4;
    let mut ip = vec![0u8; header_len.max(20)];
    ip[0] = 0x40 | (ihl & 0x0f);
    ip[8] = 64;
    ip[9] = protocol;
    ip[12..16].copy_from_slice(&source);
    ip[16..20].copy_from_slice(&[192, 168, 1, 1]);
    ip.truncate(header_len.max(20));
    frame.extend_from_slice(&ip);
    frame.extend_from_slice(tcp);
    frame
}

fn raw_tcp(source_port: u16, destination_port: u16) -> Vec<u8> {
    let mut tcp = vec![0u8; 20];
    tcp[0] = (source_port >> 8) as u8;
    tcp[1] = (source_port & 0xff) as u8;
    tcp[2] = (destination_port >> 8) as u8;
    tcp[3] = (destination_port & 0xff) as u8;
    tcp[12] = 0x50;
    tcp
}

/// The same kind of frame, written through the packet builders of `pnet`.
fn built_frame(source: [u8; 4], destination_port: u16, options_words: usize) -> Vec<u8> {
    let ip_header = 20 + 4 * options_words;
    let mut bytes = vec![0u8; 14 + ip_header + 20];
    {
        let mut ethernet = MutableEthernetPacket::new(&mut bytes[..]).unwrap();
        ethernet.set_ethertype(EtherTypes::Ipv4);
    }
    {
        let mut ip = MutableIpv4Packet::new(&mut bytes[14..]).unwrap();
        ip.set_version(4);
        ip.set_header_length((5 + options_words) as u8);
        ip.set_total_length((ip_header + 20) as u16);
        ip.set_ttl(64);
        ip.set_next_level_protocol(IpNextHeaderProtocols::Tcp);
        ip.set_source(source.into());
        ip.set_destination([192, 168, 1, 1].into());
    }
    {
        let mut tcp = MutableTcpPacket::new(&mut bytes[14 + ip_header..]).unwrap();
        tcp.set_source(40000);
        tcp.set_destination(destination_port);
        tcp.set_data_offset(5);
    }
    bytes
}

#[test]
fn decodes_a_plain_tcp_frame() {
    let frame = raw_frame(0x0800, 5, 6, [10, 0, 0, 5], &raw_tcp(51000, 443));
    assert_eq!(
        decode(&frame),
        Ok(DecodedSegment {
            source_ip: Ipv4Address::from_octets(10, 0, 0, 5),
            destination_port: 443,
        })
    );
}

#[test]
fn decodes_what_the_packet_builders_wrote() {
    let frame = built_frame([172, 16, 254, 3], 8080, 0);
    let segment = decode(&frame).unwrap();
    assert_eq!(segment.source_ip, Ipv4Address::from_octets(172, 16, 254, 3));
    assert_eq!(segment.source_ip.bits, 0xac10_fe03);
    assert_eq!(segment.destination_port, 8080);
}

#[test]
fn decoded_fields_come_from_their_own_bytes() {
    // Source and destination differ in every octet and both ports differ, so
    // a reader that took the wrong offset would be caught.
    let frame = raw_frame(0x0800, 5, 6, [1, 2, 3, 4], &raw_tcp(0x1234, 0xabcd));
    let segment = decode(&frame).unwrap();
    assert_eq!(segment.source_ip.octets(), [1, 2, 3, 4]);
    assert_eq!(segment.destination_port, 0xabcd);
}

#[test]
fn skips_ipv4_options_before_the_tcp_header() {
    let frame = built_frame([10, 1, 2, 3], 22, 3);
    assert_eq!(
        decode(&frame),
        Ok(DecodedSegment {
            source_ip: Ipv4Address::from_octets(10, 1, 2, 3),
            destination_port: 22,
        })
    );
    let raw = raw_frame(0x0800, 15, 6, [10, 1, 2, 3], &raw_tcp(1, 65535));
    assert_eq!(raw.len(), 14 + 60 + 20);
    assert_eq!(decode(&raw).unwrap().destination_port, 65535);
}

#[test]
fn rejects_a_frame_that_is_not_ipv4() {
    let arp = raw_frame(0x0806, 5, 6, [10, 0, 0, 5], &raw_tcp(1, 2));
    assert_eq!(decode(&arp), Err(DecodeOutcome::NotIPv4));
    let ipv6 = raw_frame(0x86dd, 5, 6, [10, 0, 0, 5], &raw_tcp(1, 2));
    assert_eq!(decode(&ipv6), Err(DecodeOutcome::NotIPv4));
}

#[test]
fn rejects_a_frame_shorter_than_an_ethernet_header() {
    assert_eq!(decode(&[]), Err(DecodeOutcome::NotIPv4));
    assert_eq!(decode(&[0u8; 13]), Err(DecodeOutcome::NotIPv4));
    let mut claims_ipv4 = vec![0u8; 13];
    claims_ipv4[12] = 0x08;
    assert_eq!(decode(&claims_ipv4), Err(DecodeOutcome::NotIPv4));
}

#[test]
fn rejects_an_ipv4_payload_shorter_than_any_header() {
    let whole = raw_frame(0x0800, 5, 6, [10, 0, 0, 5], &raw_tcp(1, 2));
    assert_eq!(decode(&whole[..14]), Err(DecodeOutcome::TruncatedIPv4));
    assert_eq!(decode(&whole[..14 + 19]), Err(DecodeOutcome::TruncatedIPv4));
}

#[test]
fn twenty_byte_buffer_claiming_ipv4_is_truncated() {
    let mut buffer = vec![0u8; 20];
    buffer[12] = 0x08;
    buffer[13] = 0x00;
    buffer[14] = 0x45;
    assert_eq!(decode(&buffer), Err(DecodeOutcome::TruncatedIPv4));
}

#[test]
fn rejects_a_packet_that_is_not_tcp() {
    let udp = raw_frame(0x0800, 5, 17, [10, 0, 0, 5], &raw_tcp(1, 2));
    assert_eq!(decode(&udp), Err(DecodeOutcome::NotTCP));
    let icmp = raw_frame(0x0800, 5, 1, [10, 0, 0, 5], &[]);
    assert_eq!(decode(&icmp), Err(DecodeOutcome::NotTCP));
}

#[test]
fn protocol_is_tested_before_the_declared_length() {
    // Declares 60 bytes of header, holds 20, and carries UDP.
    let mut frame = raw_frame(0x0800, 5, 17, [10, 0, 0, 5], &[]);
    frame[14] = 0x4f;
    assert_eq!(decode(&frame), Err(DecodeOutcome::NotTCP));
}

#[test]
fn rejects_a_payload_shorter_than_its_declared_header() {
    // Declares 15 words (60 bytes) of header but holds 20 + 20 bytes.
    let mut frame = raw_frame(0x0800, 5, 6, [10, 0, 0, 5], &raw_tcp(1, 2));
    frame[14] = 0x4f;
    assert_eq!(decode(&frame), Err(DecodeOutcome::TruncatedIPv4Header));
    // One byte short of a declared 24-byte header.
    let mut short = raw_frame(0x0800, 5, 6, [10, 0, 0, 5], &[0, 0, 0]);
    short[14] = 0x46;
    assert_eq!(short.len(), 14 + 23);
    assert_eq!(decode(&short), Err(DecodeOutcome::TruncatedIPv4Header));
}

#[test]
fn rejects_a_tcp_segment_shorter_than_any_header() {
    let whole = raw_frame(0x0800, 5, 6, [10, 0, 0, 5], &raw_tcp(1, 2));
    assert_eq!(decode(&whole[..14 + 20]), Err(DecodeOutcome::TruncatedTCP));
    assert_eq!(decode(&whole[..whole.len() - 1]), Err(DecodeOutcome::TruncatedTCP));
    // The options use up the bytes that a plain header would leave to TCP.
    let mut with_options = whole.clone();
    with_options[14] = 0x46;
    assert_eq!(decode(&with_options), Err(DecodeOutcome::TruncatedTCP));
}

#[test]
fn only_the_low_half_of_the_first_byte_is_the_header_length() {
    // Version nibble 0xf, header length 5: the version is not looked at.
    let mut frame = raw_frame(0x0800, 5, 6, [10, 0, 0, 5], &raw_tcp(1, 2222));
    frame[14] = 0xf5;
    assert_eq!(decode(&frame).unwrap().destination_port, 2222);
}

#[test]
fn a_declared_header_shorter_than_five_words_is_taken_at_its_word() {
    // Header length 0: the TCP header is read from the start of the packet.
    let mut frame = raw_frame(0x0800, 5, 6, [10, 0, 0, 5], &raw_tcp(1, 2));
    frame[14] = 0x40;
    frame[14 + 2] = 0x01;
    frame[14 + 3] = 0xbb;
    assert_eq!(
        decode(&frame),
        Ok(DecodedSegment {
            source_ip: Ipv4Address::from_octets(10, 0, 0, 5),
            destination_port: 443,
        })
    );
}

#[test]
fn decoding_is_deterministic_and_leaves_the_frame_alone() {
    let frame = raw_frame(0x0800, 6, 6, [8, 8, 4, 4], &raw_tcp(9, 53));
    let copy = frame.clone();
    let first = decode(&frame);
    let second = decode(&frame);
    assert_eq!(first, second);
    assert_eq!(frame, copy);
}

#[test]
fn no_prefix_of_a_good_frame_decodes() {
    let frame = built_frame([10, 0, 0, 5], 80, 2);
    assert!(decode(&frame).is_ok());
    for len in 0..frame.len() {
        let outcome = decode(&frame[..len]);
        let expected = if len < 14 {
            DecodeOutcome::NotIPv4
        } else if len < 14 + 20 {
            DecodeOutcome::TruncatedIPv4
        } else if len < 14 + 28 {
            DecodeOutcome::TruncatedIPv4Header
        } else {
            DecodeOutcome::TruncatedTCP
        };
        assert_eq!(outcome, Err(expected));
    }
}
