use traceroute::error::ErrorKind;
use traceroute::probe::build_probe;

#[test]
fn build_fills_header_fields() {
    let probe = build_probe(1, 0x1234, 0xabcd, 64).unwrap();
    assert_eq!(probe.ttl, 1);
    assert_eq!(probe.identifier, 0x1234);
    assert_eq!(probe.sequence, 0xabcd);
    assert_eq!(probe.bytes.len(), 64);
    assert_eq!(probe.bytes[0], 8); // echo request
    assert_eq!(probe.bytes[1], 0); // code
    assert_eq!(probe.bytes[4], 0x12);
    assert_eq!(probe.bytes[5], 0x34);
    assert_eq!(probe.bytes[6], 0xab);
    assert_eq!(probe.bytes[7], 0xcd);
    for i in 8..64 {
        assert_eq!(probe.bytes[i], 0);
    }
}

#[test]
fn build_rejects_buffer_below_minimal_header() {
    let r = build_probe(1, 0, 1, 7);
    assert!(matches!(r, Err(ErrorKind::BufferTooSmall)));
    let r = build_probe(1, 0, 1, 0);
    assert!(matches!(r, Err(ErrorKind::BufferTooSmall)));
}

#[test]
fn build_accepts_minimal_header_buffer() {
    let probe = build_probe(1, 0, 1, 8).unwrap();
    assert_eq!(probe.bytes.len(), 8);
}

#[test]
fn checksum_has_exact_expected_value() {
    // Buffer: type 8, code 0, identifier 0, sequence 1, zero payload.
    // Word sum with the checksum word as zero: 0x0800 + 0x0000 + 0x0001
    // = 0x0801; its one's complement is 0xf7fe.
    let probe = build_probe(1, 0, 1, 64).unwrap();
    assert_eq!(probe.checksum, 0xf7fe);
    assert_eq!(probe.bytes[2], 0xf7);
    assert_eq!(probe.bytes[3], 0xfe);
}

#[test]
fn checksum_recompute_over_emitted_bytes_matches() {
    let probe = build_probe(1, 0, 1, 64).unwrap();
    assert_eq!(probe.recompute_checksum(), probe.checksum);
    let other = build_probe(1, 0x00ff, 0x7a01, 32).unwrap();
    assert_eq!(other.recompute_checksum(), other.checksum);
}

#[test]
fn build_accepts_largest_datagram_buffer() {
    // The largest buffer a probe may be built in: the 65535-byte bound of
    // the IP packet that carries the datagram.
    let probe = build_probe(1, 0, 1, 65535).unwrap();
    assert_eq!(probe.bytes.len(), 65535);
    assert_eq!(probe.recompute_checksum(), probe.checksum);
}

#[test]
fn emitted_bytes_parse_as_echo_request() {
    // The buffer the library builds must read back, through an independent
    // packet parser, as the echo request it claims to be.
    let probe = build_probe(1, 0x0102, 0x0304, 64).unwrap();
    let parsed = pnet_packet::icmp::echo_request::EchoRequestPacket::new(&probe.bytes).unwrap();
    assert_eq!(parsed.get_icmp_type(), pnet_packet::icmp::IcmpTypes::EchoRequest);
    assert_eq!(parsed.get_icmp_code().0, 0);
    assert_eq!(parsed.get_identifier(), 0x0102);
    assert_eq!(parsed.get_sequence_number(), 0x0304);
    assert_eq!(parsed.get_checksum(), probe.checksum);
}

#[test]
fn build_is_deterministic() {
    let a = build_probe(3, 7, 42, 64).unwrap();
    let b = build_probe(3, 7, 42, 64).unwrap();
    assert_eq!(a.bytes, b.bytes);
    assert_eq!(a.checksum, b.checksum);
}
