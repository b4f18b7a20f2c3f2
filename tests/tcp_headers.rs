use harbinger::error::TcpError;
use harbinger::tcp_headers::TcpHeader;

const TEST_HEADERS: TcpHeader = TcpHeader {
    source_port: 49320,
    dest_port: 8080,
    seq_num: 305419896,
    ack_num: 2271560481,
    flags: 0x18, // SYN + ACK
    window_size: 255,
    checksum: 61453, // 0xF00D
};

#[test]
fn tcp_headers_test_tcp_headers_from_bytes() {
    let raw_bytes: [u8; 20] = [
        0xC0, 0xA8, // Source Port: 49320
        0x1F, 0x90, // Destination Port: 8080
        0x12, 0x34, 0x56, 0x78, // Sequence Number: 305419896
        0x87, 0x65, 0x43, 0x21, // Acknowledgment Number: 2271560481
        0x50, // Data offset 5, reserved 0
        0x18, // Flags: PSH, ACK
        0x00, 0xFF, // Window Size: 255
        0xF0, 0x0D, // Checksum: 61453
        0x00, 0x00, // Urgent Pointer: 0
    ];

    let headers = TcpHeader::from_bytes(&raw_bytes).unwrap();

    assert_eq!(headers.source_port, 49320);
    assert_eq!(headers.dest_port, 8080);
    assert_eq!(headers.seq_num, 305419896);
    assert_eq!(headers.ack_num, 2271560481);
    assert_eq!(headers.flags, 0x18);
    assert_eq!(headers.window_size, 255);
    assert_eq!(headers.checksum, 61453);
}

#[test]
fn tcp_headers_test_tcp_headers_to_bytes() {
    let raw_bytes = TEST_HEADERS.to_bytes();

    assert_eq!(
        raw_bytes,
        [
            0xC0, 0xA8, // Source Port: 49320
            0x1F, 0x90, // Destination Port: 8080
            0x12, 0x34, 0x56, 0x78, // Sequence Number: 305419896
            0x87, 0x65, 0x43, 0x21, // Acknowledgment Number: 2271560481
            0x50, // Data offset 5, reserved 0
            0x18, // Flags: PSH, ACK
            0x00, 0xFF, // Window Size: 255
            0xF0, 0x0D, // Checksum: 61453
            0x00, 0x00, // Urgent Pointer: 0
        ]
    )
}

#[test]
fn tcp_headers_test_headers_build_packet_payload() {
    let payload = b"GET / HTTP/1.1\r\nHost: example.com\r\n\r\n";
    let packet = TEST_HEADERS.build_packet(payload);

    assert_eq!(&packet[20..], payload);
    assert_eq!(packet.len(), 20 + payload.len());
}

#[test]
fn tcp_headers_test_tcp_checksum_calculation() {
    let src_ip = [192, 168, 1, 1];
    let dst_ip = [192, 168, 1, 2];
    let payload = b"Hello, TCP!";

    let checksum = TEST_HEADERS.calculate_checksum(src_ip, dst_ip, payload).unwrap();
    assert_ne!(checksum, 0);
}

#[test]
fn tcp_headers_short_input_gives_none() {
    let bytes = [0xAAu8; 19];
    for len in 0..20 {
        assert_eq!(TcpHeader::from_bytes(&bytes[..len]), None);
    }
}

#[test]
fn tcp_headers_round_trip() {
    let bytes = TEST_HEADERS.to_bytes();
    assert_eq!(TcpHeader::from_bytes(&bytes), Some(TEST_HEADERS));
}

#[test]
fn tcp_headers_flags_come_from_offset_thirteen() {
    let mut bytes = TEST_HEADERS.to_bytes();
    bytes[12] = 0x5F;
    bytes[13] = 0x01;
    assert_eq!(TcpHeader::from_bytes(&bytes).unwrap().flags, 0x01);
}

#[test]
fn tcp_headers_sample_checksum_value() {
    let checksum = TEST_HEADERS
        .calculate_checksum([192, 168, 1, 1], [192, 168, 1, 2], b"Hello, TCP!")
        .unwrap();
    assert_eq!(checksum, 28512);
}

#[test]
fn tcp_headers_to_be_bytes_writes_checksum() {
    let payload = b"Hello, TCP!";
    let bytes = TEST_HEADERS.to_be_bytes([192, 168, 1, 1], [192, 168, 1, 2], payload).unwrap();
    assert_eq!(&bytes[16..18], &28512u16.to_be_bytes());
    assert_eq!(&bytes[..16], &TEST_HEADERS.to_bytes()[..16]);
    assert_eq!(&bytes[18..], &[0, 0]);
    let too_long = vec![0u8; 65516];
    assert_eq!(
        TEST_HEADERS.to_be_bytes([192, 168, 1, 1], [192, 168, 1, 2], &too_long),
        Err(TcpError::LengthOverflow)
    );
}
