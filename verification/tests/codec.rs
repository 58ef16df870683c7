use rping::packet::{ICMPEchoPacket, IPv4Header, WireError};

#[test]
fn encode_is_big_endian_throughout() {
    let header = ICMPEchoPacket {
        message_type: 8,
        message_code: 0,
        checksum: 0xE5CA,
        identifier: 0x1234,
        sequence_num: 0x0102,
    };
    assert_eq!(
        header.encode(),
        vec![0x08, 0x00, 0xE5, 0xCA, 0x12, 0x34, 0x01, 0x02]
    );
}

#[test]
fn icmp_codec_round_trips() {
    let cases = [
        (0u8, 0u8, 0u16, 0u16),
        (8, 0, 0x1234, 1),
        (128, 0, 0xFFFF, 0xFFFF),
        (11, 3, 0xBEEF, 0x8000),
    ];
    for (message_type, message_code, identifier, sequence_num) in cases {
        let header = ICMPEchoPacket {
            message_type,
            message_code,
            checksum: 0xA55A,
            identifier,
            sequence_num,
        };
        let decoded = ICMPEchoPacket::decode(&header.encode(), 0).unwrap();
        assert_eq!(decoded, header);
    }
}

#[test]
fn icmp_decode_reads_from_the_given_offset() {
    let buf = [
        0xAAu8, 0xBB, 0xCC, // three bytes of padding before the header
        0x00, 0x00, 0xE5, 0xCA, 0x12, 0x34, 0x00, 0x01,
    ];
    let decoded = ICMPEchoPacket::decode(&buf, 3).unwrap();
    assert_eq!(decoded.message_type, 0);
    assert_eq!(decoded.message_code, 0);
    assert_eq!(decoded.checksum, 0xE5CA);
    assert_eq!(decoded.identifier, 0x1234);
    assert_eq!(decoded.sequence_num, 1);
}

#[test]
fn icmp_decode_rejects_a_short_buffer() {
    let buf = [0u8; 10];
    assert_eq!(
        ICMPEchoPacket::decode(&buf, 3),
        Err(WireError::MalformedPacket)
    );
    assert_eq!(
        ICMPEchoPacket::decode(&buf[..7], 0),
        Err(WireError::MalformedPacket)
    );
    assert!(ICMPEchoPacket::decode(&buf, 2).is_ok());
}

#[test]
fn ipv4_decode_reads_every_field() {
    let buf = [
        0x45u8, 0x10, // version 4 / IHL 5, TOS
        0x00, 0x1C, // total length 28
        0xAB, 0xCD, // identification
        0x40, 0x00, // flags and fragment offset
        0x40, 0x01, // TTL 64, protocol ICMP
        0xE5, 0xCA, // header checksum
        10, 0, 0, 1, // source
        10, 0, 0, 2, // destination
    ];
    let header = IPv4Header::decode(&buf).unwrap();
    assert_eq!(header.version_and_header_len, 0x45);
    assert_eq!(header.type_of_service, 0x10);
    assert_eq!(header.datagram_length, 28);
    assert_eq!(header.ip_identifier, 0xABCD);
    assert_eq!(header.flags_and_5frag_offset, 0x40);
    assert_eq!(header.rest_of_frag_offset, 0x00);
    assert_eq!(header.ttl, 64);
    assert_eq!(header.protocol, 1);
    assert_eq!(header.checksum, 0xE5CA);
    assert_eq!(header.source_ip, 0x0A000001);
    assert_eq!(header.destination_ip, 0x0A000002);
}

#[test]
fn ipv4_decode_rejects_a_short_buffer() {
    let buf = [0x45u8; 19];
    assert_eq!(IPv4Header::decode(&buf), Err(WireError::MalformedPacket));
}

#[test]
fn payload_offset_is_four_times_the_header_length_nibble() {
    for nibble in 5u8..=15 {
        let header = IPv4Header {
            version_and_header_len: 0x40 | nibble,
            type_of_service: 0,
            datagram_length: 0,
            ip_identifier: 0,
            flags_and_5frag_offset: 0,
            rest_of_frag_offset: 0,
            ttl: 0,
            protocol: 0,
            checksum: 0,
            source_ip: 0,
            destination_ip: 0,
        };
        let offset = header.payload_offset();
        assert_eq!(offset, 4 * nibble);
        assert_eq!(offset % 4, 0);
        assert!(offset >= 20);
    }
}
