use harbinger::error::TcpError;
use harbinger::flags::TcpFlags;
use harbinger::tcp::{Tcp, TcpBuilder};

fn get_tcp() -> Tcp {
    Tcp {
        source_port: 49320,
        dest_port: 8080,
        seq_num: 305419896,
        ack_num: 2271560481,
        flags: TcpFlags::from_byte(TcpFlags::SYN | TcpFlags::ACK),
        window_size: 255,
        checksum: 61453,
    }
}

#[test]
fn tcp_test_tcp_headers_from_bytes() {
    let raw_bytes: [u8; 20] = [
        0xC0, 0xA8, // Source Port: 49320
        0x1F, 0x90, // Destination Port: 8080
        0x12, 0x34, 0x56, 0x78, // Sequence Number: 305419896
        0x87, 0x65, 0x43, 0x21, // Acknowledgment Number: 2271560481
        0x50, // Data offset 5, reserved 0
        0x02, // Flags: SYN
        0x00, 0xFF, // Window Size: 255
        0xF0, 0x0D, // Checksum: 61453
        0x00, 0x00, // Urgent Pointer: 0
    ];

    let headers = Tcp::try_from(&raw_bytes[..]).unwrap();

    assert_eq!(headers.source_port, 49320);
    assert_eq!(headers.dest_port, 8080);
    assert_eq!(headers.seq_num, 305419896);
    assert_eq!(headers.ack_num, 2271560481);
    assert!(headers.flags.contains(TcpFlags::SYN));
    assert_eq!(headers.window_size, 255);
    assert_eq!(headers.checksum, 61453);
}

#[test]
fn tcp_test_tcp_headers_to_bytes() {
    let raw_bytes = get_tcp().to_bytes();

    assert_eq!(
        raw_bytes,
        [
            0xC0, 0xA8, // Source Port: 49320
            0x1F, 0x90, // Destination Port: 8080
            0x12, 0x34, 0x56, 0x78, // Sequence Number: 305419896
            0x87, 0x65, 0x43, 0x21, // Acknowledgment Number: 2271560481
            0x50, // Data offset 5, reserved 0
            0x12, // Flags: SYN, ACK
            0x00, 0xFF, // Window Size: 255
            0xF0, 0x0D, // Checksum: 61453
            0x00, 0x00, // Urgent Pointer: 0
        ]
    )
}

#[test]
fn tcp_test_headers_build_packet_payload() {
    let payload = b"GET / HTTP/1.1\r\nHost: example.com\r\n\r\n";
    let packet = get_tcp().build_packet(payload);

    assert_eq!(&packet[20..], payload);
    assert_eq!(packet.len(), 20 + payload.len());
}

#[test]
fn tcp_test_tcp_checksum_calculation() {
    let src_ip = [192, 168, 1, 1];
    let dst_ip = [192, 168, 1, 2];
    let payload = b"Hello, TCP!";

    let checksum = get_tcp().calculate_checksum(src_ip, dst_ip, payload).unwrap();
    assert_ne!(checksum, 0);
}

#[test]
fn tcp_known_vector_decodes() {
    let raw_bytes: [u8; 20] = [
        0xC0, 0xA8, 0x1F, 0x90, 0x12, 0x34, 0x56, 0x78, 0x87, 0x65, 0x43, 0x21, 0x50, 0x18, 0x00,
        0xFF, 0xF0, 0x0D, 0x00, 0x00,
    ];
    let headers = Tcp::try_from(&raw_bytes[..]).unwrap();
    assert_eq!(headers.source_port, 49320);
    assert_eq!(headers.dest_port, 8080);
    assert_eq!(headers.seq_num, 305419896);
    assert_eq!(headers.ack_num, 2271560481);
    // 0x18 is ACK (0x10) with PSH (0x08); SYN is 0x02.
    assert!(headers.flags.contains(TcpFlags::ACK));
    assert!(headers.flags.contains(TcpFlags::PSH));
    assert!(!headers.flags.contains(TcpFlags::SYN));
    assert_eq!(headers.flags.bits(), 0x18);
    assert_eq!(headers.to_bytes(), raw_bytes);
    assert_eq!(headers.window_size, 255);
    assert_eq!(headers.checksum, 0xF00D);
}

#[test]
fn tcp_round_trip_keeps_every_field() {
    let original = get_tcp();
    let bytes = original.to_bytes();
    let decoded = Tcp::try_from(&bytes[..]).unwrap();
    assert_eq!(decoded, original);

    let other = Tcp {
        source_port: 0,
        dest_port: 65535,
        seq_num: u32::MAX,
        ack_num: 1,
        flags: TcpFlags::from_byte(0xFF),
        window_size: 0,
        checksum: 0x0102,
    };
    assert_eq!(Tcp::try_from(&other.to_bytes()[..]).unwrap(), other);
}

#[test]
fn tcp_short_input_is_malformed() {
    let bytes = [0u8; 19];
    for len in 0..20 {
        assert_eq!(Tcp::try_from(&bytes[..len]), Err(TcpError::MalformedHeader));
    }
}

#[test]
fn tcp_decode_ignores_bytes_after_the_header() {
    let mut bytes = get_tcp().to_bytes().to_vec();
    bytes.extend_from_slice(b"tail");
    assert_eq!(Tcp::try_from(&bytes[..]).unwrap(), get_tcp());
}

#[test]
fn tcp_sample_checksum_value() {
    let checksum = get_tcp()
        .calculate_checksum([192, 168, 1, 1], [192, 168, 1, 2], b"Hello, TCP!")
        .unwrap();
    assert_eq!(checksum, 28518);
}

#[test]
fn tcp_checksum_ignores_stored_checksum() {
    let mut cleared = get_tcp();
    cleared.checksum = 0;
    let payload = b"Hello, TCP!";
    assert_eq!(
        cleared.calculate_checksum([192, 168, 1, 1], [192, 168, 1, 2], payload),
        get_tcp().calculate_checksum([192, 168, 1, 1], [192, 168, 1, 2], payload)
    );
}

#[test]
fn tcp_all_zero_checksum_is_not_trivial() {
    let zero = Tcp {
        source_port: 0,
        dest_port: 0,
        seq_num: 0,
        ack_num: 0,
        flags: TcpFlags::empty(),
        window_size: 0,
        checksum: 0,
    };
    assert_eq!(zero.calculate_checksum([0, 0, 0, 0], [0, 0, 0, 0], b""), Ok(45029));
}

#[test]
fn tcp_odd_payload_checksum_pads_with_zero() {
    let src = [10, 0, 0, 1];
    let dst = [10, 0, 0, 2];
    let mut header = get_tcp();
    header.checksum = 0;
    assert_eq!(header.calculate_checksum(src, dst, b"abc"), Ok(49919));
    // The padded payload is one byte longer, so its pseudo-header length is one more.
    let padded = header.calculate_checksum(src, dst, b"abc\0").unwrap();
    assert_eq!(padded, 49919 - 1);
}

#[test]
fn tcp_checksum_length_limit() {
    let header = get_tcp();
    let longest = vec![0u8; 65515];
    assert!(header.calculate_checksum([1, 2, 3, 4], [5, 6, 7, 8], &longest).is_ok());
    let too_long = vec![0u8; 65516];
    assert_eq!(
        header.calculate_checksum([1, 2, 3, 4], [5, 6, 7, 8], &too_long),
        Err(TcpError::LengthOverflow)
    );
    assert_eq!(
        header.verify_checksum([1, 2, 3, 4], [5, 6, 7, 8], &too_long),
        Err(TcpError::LengthOverflow)
    );
}

#[test]
fn tcp_builder_defaults() {
    let tcp = TcpBuilder::new().build([127, 0, 0, 1], [127, 0, 0, 1], b"").unwrap();
    assert_eq!(tcp.source_port, 0);
    assert_eq!(tcp.dest_port, 0);
    assert_eq!(tcp.seq_num, 0);
    assert_eq!(tcp.ack_num, 0);
    assert!(tcp.flags.is_empty());
    assert_eq!(tcp.window_size, 1024);
    assert_eq!(tcp.checksum, 44514);
}

#[test]
fn tcp_builder_sets_fields_and_checksum() {
    let payload = b"Hello, TCP!";
    let tcp = TcpBuilder::new()
        .source_port(0)
        .dest_port(0)
        .seq_num(305419896)
        .ack_num(2271560481)
        .flags(TcpFlags::from_byte(TcpFlags::SYN))
        .window_size(255)
        .build([127, 0, 0, 1], [127, 0, 0, 1], payload)
        .unwrap();
    assert_eq!(tcp.seq_num, 305419896);
    assert_eq!(tcp.ack_num, 2271560481);
    assert_eq!(tcp.flags.bits(), TcpFlags::SYN);
    assert_eq!(tcp.window_size, 255);
    assert_eq!(tcp.checksum, 54528);
    assert_eq!(tcp.verify_checksum([127, 0, 0, 1], [127, 0, 0, 1], payload), Ok(()));
}

#[test]
fn tcp_builder_rejects_overlong_payload() {
    let payload = vec![7u8; 65516];
    assert_eq!(
        TcpBuilder::new().build([127, 0, 0, 1], [127, 0, 0, 1], &payload),
        Err(TcpError::LengthOverflow)
    );
}

#[test]
fn tcp_verify_detects_mismatch() {
    let payload = b"Hello, TCP!";
    let src = [192, 168, 1, 1];
    let dst = [192, 168, 1, 2];
    let mut tcp = get_tcp();
    assert_eq!(tcp.verify_checksum(src, dst, payload), Err(TcpError::ChecksumMismatch));
    tcp.checksum = 28518;
    assert_eq!(tcp.verify_checksum(src, dst, payload), Ok(()));
    assert_eq!(tcp.verify_checksum(src, dst, b"Hello, TCP?"), Err(TcpError::ChecksumMismatch));
}

#[test]
fn tcp_parse_packet_splits_header_and_text() {
    let packet = get_tcp().build_packet(b"hello");
    let (tcp, payload) = Tcp::parse_packet(&packet).unwrap();
    assert_eq!(tcp, get_tcp());
    assert_eq!(payload, Some(String::from("hello")));

    let bare = get_tcp().to_bytes();
    let (tcp, payload) = Tcp::parse_packet(&bare).unwrap();
    assert_eq!(tcp, get_tcp());
    assert_eq!(payload, None);
}

#[test]
fn tcp_parse_packet_replaces_invalid_utf8() {
    let packet = get_tcp().build_packet(&[b'o', b'k', 0xFF]);
    let (_, payload) = Tcp::parse_packet(&packet).unwrap();
    assert_eq!(payload, Some(String::from("ok\u{FFFD}")));
}

#[test]
fn tcp_header_view_matches_fields() {
    let header = get_tcp().header();
    assert_eq!(header.flags, 0x12);
    assert_eq!(header.checksum, 61453);
    assert_eq!(Tcp::from_header(header), get_tcp());
}

#[test]
fn tcp_render_lists_fields() {
    assert_eq!(
        get_tcp().render(),
        "TCP Header:\n    Source Port: 49320\n    Destination Port: 8080\n    Sequence Number: 305419896\n    Acknowledge Number: 2271560481\n    Flags: SYN | ACK 18"
    );
}

#[test]
fn tcp_parse_packet_short_input_is_malformed() {
    let bytes = get_tcp().to_bytes();
    for len in 0..20 {
        assert_eq!(Tcp::parse_packet(&bytes[..len]), Err(TcpError::MalformedHeader));
    }
}
