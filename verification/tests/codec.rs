use pmtu::compute_checksum;
use pmtu::decode_reply_length;
use pmtu::encode_echo_request;
use pmtu::v4;
use pmtu::v6;

#[test]
fn checksum_round_trip_encoded() {
    for len in [0u16, 1, 2, 7, 100, 548, 1000, 1471, 1472] {
        let pkt = encode_echo_request(len);
        assert_eq!(compute_checksum(&pkt), 0, "length {}", len);
    }
}

#[test]
fn encode_layout() {
    let pkt = encode_echo_request(3);
    assert_eq!(pkt.len(), 11);
    assert_eq!(pkt[0], 8);
    assert_eq!(pkt[1], 0);
    assert_eq!(pkt[4], 0);
    assert_eq!(pkt[5], 0);
    assert_eq!(pkt[6], 0);
    assert_eq!(pkt[7], 3);
    assert_eq!(&pkt[8..], &[9, 9, 9]);
}

#[test]
fn encode_sequence_marker_is_size() {
    let pkt = encode_echo_request(1472);
    assert_eq!(pkt.len(), 1480);
    assert_eq!(pkt[6], 5);
    assert_eq!(pkt[7], 192);
    let pkt = encode_echo_request(548);
    assert_eq!(pkt[6], 2);
    assert_eq!(pkt[7], 36);
}

#[test]
fn checksum_exact_values() {
    assert_eq!(compute_checksum(&[]), 0xFFFF);
    assert_eq!(compute_checksum(&[0x00, 0x01, 0xF2, 0x03]), 0x0DFB);
    assert_eq!(compute_checksum(&[0x01, 0x02, 0x03]), 0xFBFD);
    assert_eq!(compute_checksum(&[0xFF, 0xFF, 0xFF, 0xFF]), 0x0000);
}

#[test]
fn decode_bare_reply() {
    let mut buf = vec![0u8; 8];
    buf.extend(std::iter::repeat(9).take(100));
    assert_eq!(decode_reply_length(&buf, false), Some(100));
}

#[test]
fn decode_wrapped_reply() {
    let mut buf = vec![0x45u8; 20];
    buf.extend_from_slice(&[0u8; 8]);
    buf.extend(std::iter::repeat(9).take(64));
    assert_eq!(decode_reply_length(&buf, true), Some(64));
    assert_eq!(decode_reply_length(&buf, false), None);
}

#[test]
fn decode_rejects_non_reply() {
    let buf = vec![8u8, 0, 0, 0, 0, 0, 0, 0];
    assert_eq!(decode_reply_length(&buf, false), None);
    let buf = vec![0u8, 1, 0, 0, 0, 0, 0, 0];
    assert_eq!(decode_reply_length(&buf, false), None);
}

#[test]
fn decode_rejects_short_buffers() {
    assert_eq!(decode_reply_length(&[], false), None);
    assert_eq!(decode_reply_length(&[0u8; 7], false), None);
    assert_eq!(decode_reply_length(&[0u8; 27], true), None);
    assert_eq!(decode_reply_length(&[0u8; 8], false), Some(0));
}

#[test]
fn v4_parses_reply_fields() {
    let buf = [0u8, 0, 0xAA, 0xBB, 0x12, 0x34, 0x05, 0xC0];
    assert_eq!(v4(&buf), Some((0x1234, 0x05C0)));
}

#[test]
fn v4_rejects_request_and_short() {
    let buf = [8u8, 0, 0, 0, 0, 0, 0, 0];
    assert_eq!(v4(&buf), None);
    assert_eq!(v4(&[0u8; 7]), None);
}

#[test]
fn v6_parses_reply_fields() {
    let buf = [129u8, 0, 0, 0, 0, 7, 0, 99];
    assert_eq!(v6(&buf), Some((7, 99)));
    let buf = [128u8, 0, 0, 0, 0, 7, 0, 99];
    assert_eq!(v6(&buf), None);
}

#[test]
fn platform_length_math() {
    let buf = [0u8; 36];
    assert_eq!(pmtu::unix::v4(&buf), 28);
    assert_eq!(pmtu::unix::v6(&buf), 28);
    assert_eq!(pmtu::darwin::v4(&buf), 8);
    let buf = [0u8; 56];
    assert_eq!(pmtu::darwin::v6(&buf), 8);
}

#[test]
fn pnet_checksum_matches_encoded_field() {
    for len in [0u16, 5, 64, 548, 1472] {
        let pkt = encode_echo_request(len);
        let icmp = pnet_packet::icmp::IcmpPacket::new(&pkt).unwrap();
        let reference = pnet_packet::icmp::checksum(&icmp);
        let stored = u16::from_be_bytes([pkt[2], pkt[3]]);
        assert_eq!(reference, stored, "length {}", len);
    }
}

#[test]
fn pnet_parses_encoded_request() {
    let pkt = encode_echo_request(32);
    let req = pnet_packet::icmp::echo_request::EchoRequestPacket::new(&pkt).unwrap();
    assert_eq!(req.get_icmp_type(), pnet_packet::icmp::IcmpTypes::EchoRequest);
    assert_eq!(req.get_sequence_number(), 32);
}

#[test]
fn parser_reads_pnet_built_reply() {
    let mut buf = vec![0u8; 16];
    {
        let mut reply =
            pnet_packet::icmp::echo_reply::MutableEchoReplyPacket::new(&mut buf).unwrap();
        reply.set_icmp_type(pnet_packet::icmp::IcmpTypes::EchoReply);
        reply.set_identifier(7);
        reply.set_sequence_number(99);
    }
    assert_eq!(v4(&buf), Some((7, 99)));
    assert_eq!(decode_reply_length(&buf, false), Some(8));
}
