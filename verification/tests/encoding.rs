use raw_packet::checksum::internet_checksum;
use raw_packet::packet::{ipv4_addr, Packet, TcpPacket, UdpPacket};
use raw_packet::socket::RawSocket;

fn be16(buf: &[u8], i: usize) -> u32 {
    (buf[i] as u32) * 0x100 + (buf[i + 1] as u32)
}

fn be32(buf: &[u8], i: usize) -> u32 {
    (buf[i] as u32) * 0x1000000 + (buf[i + 1] as u32) * 0x10000 + (buf[i + 2] as u32) * 0x100
        + (buf[i + 3] as u32)
}

#[test]
fn ipv4_addr_host_order() {
    assert_eq!(ipv4_addr(127, 0, 0, 1), 0x7f00_0001);
    assert_eq!(ipv4_addr(10, 0, 0, 1), 0x0a00_0001);
    assert_eq!(ipv4_addr(255, 255, 255, 255), 0xffff_ffff);
    assert_eq!(ipv4_addr(0, 0, 0, 0), 0);
}

#[test]
fn checksum_self_verification() {
    // A 20-byte IPv4 header with the checksum field (bytes 10 and 11)
    // zeroed; inserting the computed checksum and re-running the routine
    // must yield zero.
    let mut header: Vec<u8> = vec![
        0x45, 0x00, 0x00, 0x27, 0x00, 0x00, 0x00, 0x00, 0x40, 0x11, 0x00, 0x00, 0x0a, 0x00, 0x00,
        0x01, 0x7f, 0x00, 0x00, 0x01,
    ];
    let c = internet_checksum(&header);
    header[10] = (c >> 8) as u8;
    header[11] = (c & 0xff) as u8;
    assert_eq!(internet_checksum(&header), 0);

    // The same property on a second, unrelated header.
    let mut header2: Vec<u8> = vec![
        0x45, 0x00, 0x05, 0xdc, 0x1c, 0x46, 0x40, 0x00, 0x40, 0x06, 0x00, 0x00, 0xac, 0x10, 0x0a,
        0x63, 0xac, 0x10, 0x0a, 0x0c,
    ];
    let c2 = internet_checksum(&header2);
    header2[10] = (c2 >> 8) as u8;
    header2[11] = (c2 & 0xff) as u8;
    assert_eq!(internet_checksum(&header2), 0);
}

#[test]
fn udp_scenario_hello_world() {
    // UDP from 10.0.0.1:4333 to 127.0.0.1:8080, payload "hello world"
    // (11 bytes), TTL 64.
    let socket = RawSocket::new(ipv4_addr(10, 0, 0, 1), 4333);
    let buf = socket.encode_udp_packet(ipv4_addr(127, 0, 0, 1), 8080, b"hello world", 64);

    assert_eq!(buf.len(), 39);
    assert_eq!(be16(&buf, 2), 39); // IPv4 total length
    assert_eq!(be16(&buf, 24), 19); // UDP length: 8 + 11

    // The embedded IPv4 header passes checksum verification.
    assert_eq!(internet_checksum(&buf[..20]), 0);

    // The full expected wire format, byte for byte.
    let mut expected: Vec<u8> = vec![
        0x45, 0x00, 0x00, 0x27, 0x00, 0x00, 0x00, 0x00, 0x40, 0x11, 0xf1, 0xc4, 0x0a, 0x00, 0x00,
        0x01, 0x7f, 0x00, 0x00, 0x01, 0x10, 0xed, 0x1f, 0x90, 0x00, 0x13, 0x00, 0x00,
    ];
    expected.extend_from_slice(b"hello world");
    assert_eq!(buf, expected);
}

#[test]
fn tcp_scenario_ack_mirrors_seq() {
    // TCP variant with sequence number 1000 and window size 4096: the
    // acknowledgment-number field mirrors the sequence number, and the IP
    // protocol field carries the UDP protocol number, both as emitted.
    let socket = RawSocket::new(ipv4_addr(10, 0, 0, 1), 4333);
    let buf = socket.encode_tcp_packet(ipv4_addr(127, 0, 0, 1), 8080, b"hi", 64, 1000, 4096);

    assert_eq!(buf.len(), 42);
    assert_eq!(be16(&buf, 2), 42); // IPv4 total length: 20 + 20 + 2
    assert_eq!(buf[9], 17); // protocol field, as emitted
    assert_eq!(be32(&buf, 24), 1000); // sequence number
    assert_eq!(be32(&buf, 28), 1000); // acknowledgment number mirrors it
    assert_eq!(be16(&buf, 34), 4096); // window size
    assert_eq!(internet_checksum(&buf[..20]), 0);
    assert_eq!(&buf[40..], b"hi");
}

#[test]
fn encode_buffer_lengths() {
    // For payload lengths 0, 1 and 1472 (near a typical MTU), the buffer
    // is exactly 20 + transport-header-length + L bytes, and the length
    // fields decode to the computed values.
    let src = ipv4_addr(192, 168, 0, 2);
    let dst = ipv4_addr(192, 168, 0, 1);
    for l in [0usize, 1, 1472] {
        let payload = vec![0xabu8; l];

        let udp = UdpPacket::new(src, 1111, dst, 2222, &payload, 64).encode();
        assert_eq!(udp.len(), 28 + l);
        assert_eq!(be16(&udp, 2) as usize, 28 + l);
        assert_eq!(be16(&udp, 24) as usize, 8 + l);
        assert_eq!(internet_checksum(&udp[..20]), 0);

        let tcp = TcpPacket::new(src, 1111, dst, 2222, &payload, 64, 7, 512).encode();
        assert_eq!(tcp.len(), 40 + l);
        assert_eq!(be16(&tcp, 2) as usize, 40 + l);
        assert_eq!(internet_checksum(&tcp[..20]), 0);
    }
}

#[test]
fn encode_is_deterministic() {
    // Two encodings with identical inputs are byte-identical: no hidden
    // timestamp, random field, or other per-call state.
    let src = ipv4_addr(10, 0, 0, 1);
    let dst = ipv4_addr(127, 0, 0, 1);

    let udp = UdpPacket::new(src, 4333, dst, 8080, b"hello world", 64);
    assert_eq!(udp.encode(), udp.encode());
    let udp_again = UdpPacket::new(src, 4333, dst, 8080, b"hello world", 64);
    assert_eq!(udp.encode(), udp_again.encode());

    let tcp = TcpPacket::new(src, 4333, dst, 8080, b"hello world", 64, 1000, 4096);
    assert_eq!(tcp.encode(), tcp.encode());
    let tcp_again = TcpPacket::new(src, 4333, dst, 8080, b"hello world", 64, 1000, 4096);
    assert_eq!(tcp.encode(), tcp_again.encode());
}

#[test]
fn trait_encode_matches_inherent_encode() {
    let tcp = TcpPacket::new(ipv4_addr(1, 2, 3, 4), 5, ipv4_addr(5, 6, 7, 8), 9, b"x", 32, 77, 88);
    let via_trait = Packet::encode(&tcp);
    assert_eq!(via_trait, tcp.encode());
}
