//! Byte-exact encoding of raw IPv4 datagrams carrying a UDP or TCP
//! transport header: every multi-byte field in network byte order, and the
//! IPv4 header checksum computed over the header with its checksum field
//! zeroed.
//!
//! Both variants stamp the UDP protocol number into the IP header, and the
//! TCP variant mirrors its sequence number into the acknowledgment field;
//! callers rely on the emitted layout exactly as it is.

use crate::checksum::{
    checksum_spec, internet_checksum, lemma_checksum_self_verifies, with_checksum,
};
use vstd::arithmetic::div_mod::{lemma_add_mod_noop_right, lemma_div_denominator, lemma_fundamental_div_mod};
use vstd::prelude::*;
use vstd::slice::{slice_index_get, slice_to_vec};

verus! {

/// The IPv4 protocol number for UDP, as written into the protocol field of
/// every packet this encoder produces (the TCP variant included).
pub const PROTOCOL_UDP: u8 = 17;

/// The value of a 16-bit length field covering `base` header bytes plus a
/// payload of length `l`, truncated to 16 bits as the encoder writes it.
pub open spec fn len_field(base: int, l: int) -> u16 {
    (((base + l) % 0x10000) as u16)
}

/// The 20 bytes of an IPv4 header with no options: version 4, header
/// length 5, zero type-of-service, identification, and flags/fragment
/// offset, and the given length, TTL, protocol, checksum and addresses.
pub open spec fn ip_header_bytes(
    total_len: u16,
    ttl: u8,
    protocol: u8,
    ck: u16,
    src_addr: u32,
    dst_addr: u32,
) -> Seq<u8> {
    seq![
        0x45u8,
        0x00,
        (total_len / 0x100) as u8,
        (total_len % 0x100) as u8,
        0x00,
        0x00,
        0x00,
        0x00,
        ttl,
        protocol,
        (ck / 0x100) as u8,
        (ck % 0x100) as u8,
        (src_addr / 0x1000000) as u8,
        ((src_addr / 0x10000) % 0x100) as u8,
        ((src_addr / 0x100) % 0x100) as u8,
        (src_addr % 0x100) as u8,
        (dst_addr / 0x1000000) as u8,
        ((dst_addr / 0x10000) % 0x100) as u8,
        ((dst_addr / 0x100) % 0x100) as u8,
        (dst_addr % 0x100) as u8,
    ]
}

/// The 8 bytes of a UDP header: ports, length, and a zero checksum (left
/// uncomputed by this encoder, as the UDP specification permits).
pub open spec fn udp_header_bytes(src_port: u16, dst_port: u16, udp_len: u16) -> Seq<u8> {
    seq![
        (src_port / 0x100) as u8,
        (src_port % 0x100) as u8,
        (dst_port / 0x100) as u8,
        (dst_port % 0x100) as u8,
        (udp_len / 0x100) as u8,
        (udp_len % 0x100) as u8,
        0x00,
        0x00,
    ]
}

/// The 20 bytes of a TCP header with no options: ports, sequence and
/// acknowledgment numbers, window size, and zero data-offset, flags,
/// checksum and urgent-pointer fields.
pub open spec fn tcp_header_bytes(
    src_port: u16,
    dst_port: u16,
    seq_number: u32,
    ack_number: u32,
    window_size: u16,
) -> Seq<u8> {
    seq![
        (src_port / 0x100) as u8,
        (src_port % 0x100) as u8,
        (dst_port / 0x100) as u8,
        (dst_port % 0x100) as u8,
        (seq_number / 0x1000000) as u8,
        ((seq_number / 0x10000) % 0x100) as u8,
        ((seq_number / 0x100) % 0x100) as u8,
        (seq_number % 0x100) as u8,
        (ack_number / 0x1000000) as u8,
        ((ack_number / 0x10000) % 0x100) as u8,
        ((ack_number / 0x100) % 0x100) as u8,
        (ack_number % 0x100) as u8,
        0x00,
        0x00,
        (window_size / 0x100) as u8,
        (window_size % 0x100) as u8,
        0x00,
        0x00,
        0x00,
        0x00,
    ]
}

/// The full encoding of a UDP packet: IPv4 header (total length 28 + L,
/// checksum computed over the zero-checksum header), UDP header, payload.
pub open spec fn udp_encoding(
    src_addr: u32,
    src_port: u16,
    dst_addr: u32,
    dst_port: u16,
    payload: Seq<u8>,
    ttl: u8,
) -> Seq<u8> {
    let total_len = len_field(28, payload.len() as int);
    let ck = checksum_spec(ip_header_bytes(total_len, ttl, PROTOCOL_UDP, 0, src_addr, dst_addr));
    ip_header_bytes(total_len, ttl, PROTOCOL_UDP, ck, src_addr, dst_addr)
        + udp_header_bytes(src_port, dst_port, len_field(8, payload.len() as int)) + payload
}

/// The full encoding of a TCP packet: IPv4 header (total length 40 + L,
/// UDP protocol number), TCP header with the acknowledgment number equal
/// to the sequence number, payload.
pub open spec fn tcp_encoding(
    src_addr: u32,
    src_port: u16,
    dst_addr: u32,
    dst_port: u16,
    payload: Seq<u8>,
    ttl: u8,
    seq_number: u32,
    window_size: u16,
) -> Seq<u8> {
    let total_len = len_field(40, payload.len() as int);
    let ck = checksum_spec(ip_header_bytes(total_len, ttl, PROTOCOL_UDP, 0, src_addr, dst_addr));
    ip_header_bytes(total_len, ttl, PROTOCOL_UDP, ck, src_addr, dst_addr)
        + tcp_header_bytes(src_port, dst_port, seq_number, seq_number, window_size) + payload
}

/// A packet that can be encoded into its exact wire-format bytes.
pub trait Packet {
    /// The wire-format byte sequence this packet encodes to.
    spec fn encoding(&self) -> Seq<u8>;

    /// Encodes the packet into a newly allocated buffer.
    fn encode(&self) -> (r: Vec<u8>)
        ensures
            r@ == self.encoding(),
    ;
}

/// A UDP datagram to encode: source and destination identity, payload and
/// TTL. Addresses are IPv4 addresses as 32-bit host-order integers.
pub struct UdpPacket {
    pub src_addr: u32,
    pub src_port: u16,
    pub dst_addr: u32,
    pub dst_port: u16,
    pub payload: Vec<u8>,
    pub ttl: u8,
}

impl UdpPacket {
    pub fn new(
        src_addr: u32,
        src_port: u16,
        dst_addr: u32,
        dst_port: u16,
        payload: &[u8],
        ttl: u8,
    ) -> (r: Self)
        ensures
            r.src_addr == src_addr,
            r.src_port == src_port,
            r.dst_addr == dst_addr,
            r.dst_port == dst_port,
            r.payload@ == payload@,
            r.ttl == ttl,
    {
        Self { src_addr, src_port, dst_addr, dst_port, payload: slice_to_vec(payload), ttl }
    }
}

impl Packet for UdpPacket {
    open spec fn encoding(&self) -> Seq<u8> {
        udp_encoding(self.src_addr, self.src_port, self.dst_addr, self.dst_port, self.payload@, self.ttl)
    }

    fn encode(&self) -> (r: Vec<u8>) {
        let total_len = length_field(28, self.payload.len());
        let transport = udp_header_vec(
            self.src_port,
            self.dst_port,
            length_field(8, self.payload.len()),
        );
        assemble(
            total_len,
            self.ttl,
            PROTOCOL_UDP,
            self.src_addr,
            self.dst_addr,
            &transport,
            self.payload.as_slice(),
        )
    }
}

/// A TCP segment to encode: identity, payload, TTL, sequence number and
/// window size. Addresses are IPv4 addresses as 32-bit host-order
/// integers.
pub struct TcpPacket {
    pub src_addr: u32,
    pub src_port: u16,
    pub dst_addr: u32,
    pub dst_port: u16,
    pub payload: Vec<u8>,
    pub ttl: u8,
    pub seq_number: u32,
    pub window_size: u16,
}

impl TcpPacket {
    pub fn new(
        src_addr: u32,
        src_port: u16,
        dst_addr: u32,
        dst_port: u16,
        payload: &[u8],
        ttl: u8,
        seq_number: u32,
        window_size: u16,
    ) -> (r: Self)
        ensures
            r.src_addr == src_addr,
            r.src_port == src_port,
            r.dst_addr == dst_addr,
            r.dst_port == dst_port,
            r.payload@ == payload@,
            r.ttl == ttl,
            r.seq_number == seq_number,
            r.window_size == window_size,
    {
        Self {
            src_addr,
            src_port,
            dst_addr,
            dst_port,
            payload: slice_to_vec(payload),
            ttl,
            seq_number,
            window_size,
        }
    }

    pub fn encode(&self) -> (r: Vec<u8>)
        ensures
            r@ == tcp_encoding(
                self.src_addr,
                self.src_port,
                self.dst_addr,
                self.dst_port,
                self.payload@,
                self.ttl,
                self.seq_number,
                self.window_size,
            ),
    {
        let total_len = length_field(40, self.payload.len());
        let transport = tcp_header_vec(
            self.src_port,
            self.dst_port,
            self.seq_number,
            self.seq_number,
            self.window_size,
        );
        assemble(
            total_len,
            self.ttl,
            PROTOCOL_UDP,
            self.src_addr,
            self.dst_addr,
            &transport,
            self.payload.as_slice(),
        )
    }
}

impl Packet for TcpPacket {
    open spec fn encoding(&self) -> Seq<u8> {
        tcp_encoding(
            self.src_addr,
            self.src_port,
            self.dst_addr,
            self.dst_port,
            self.payload@,
            self.ttl,
            self.seq_number,
            self.window_size,
        )
    }

    fn encode(&self) -> (r: Vec<u8>) {
        TcpPacket::encode(self)
    }
}

/// The 32-bit host-order value of the dotted-decimal IPv4 address
/// `a.b.c.d`.
pub open spec fn ipv4_value(a: u8, b: u8, c: u8, d: u8) -> u32 {
    (a * 0x1000000 + b * 0x10000 + c * 0x100 + d) as u32
}

/// Builds the 32-bit host-order value of the IPv4 address `a.b.c.d`.
pub fn ipv4_addr(a: u8, b: u8, c: u8, d: u8) -> (r: u32)
    ensures
        r == ipv4_value(a, b, c, d),
{
    (a as u32) * 0x1000000 + (b as u32) * 0x10000 + (c as u32) * 0x100 + (d as u32)
}

/// Computes a 16-bit length field: `base` header bytes plus the payload
/// length, truncated to 16 bits.
fn length_field(base: u16, l: usize) -> (r: u16)
    requires
        base <= 0x100,
    ensures
        r == len_field(base as int, l as int),
{
    proof {
        lemma_add_mod_noop_right(base as int, l as int, 0x10000);
    }
    (((l % 0x10000) + base as usize) % 0x10000) as u16
}

/// Appends two bytes in big-endian (network) order.
fn push_be16(v: &mut Vec<u8>, x: u16)
    ensures
        final(v)@ == old(v)@ + seq![(x / 0x100) as u8, (x % 0x100) as u8],
{
    v.push((x / 0x100) as u8);
    v.push((x % 0x100) as u8);
    proof {
        assert(v@ =~= old(v)@ + seq![(x / 0x100) as u8, (x % 0x100) as u8]);
    }
}

/// Appends four bytes in big-endian (network) order.
fn push_be32(v: &mut Vec<u8>, x: u32)
    ensures
        final(v)@ == old(v)@ + seq![
            (x / 0x1000000) as u8,
            ((x / 0x10000) % 0x100) as u8,
            ((x / 0x100) % 0x100) as u8,
            (x % 0x100) as u8,
        ],
{
    v.push((x / 0x1000000) as u8);
    v.push(((x / 0x10000) % 0x100) as u8);
    v.push(((x / 0x100) % 0x100) as u8);
    v.push((x % 0x100) as u8);
    proof {
        assert(v@ =~= old(v)@ + seq![
            (x / 0x1000000) as u8,
            ((x / 0x10000) % 0x100) as u8,
            ((x / 0x100) % 0x100) as u8,
            (x % 0x100) as u8,
        ]);
    }
}

/// Appends a byte slice.
fn append_slice(v: &mut Vec<u8>, data: &[u8])
    ensures
        final(v)@ == old(v)@ + data@,
{
    let len = data.len();
    let mut i: usize = 0;
    while i < len
        invariant
            data@.len() == len,
            i <= len,
            v@ == old(v)@ + data@.subrange(0, i as int),
        decreases len - i,
    {
        let b = *slice_index_get(data, i);
        v.push(b);
        proof {
            assert(v@ =~= old(v)@ + data@.subrange(0, i + 1));
        }
        i = i + 1;
    }
    proof {
        assert(data@.subrange(0, len as int) =~= data@);
    }
}

/// Builds the 20-byte IPv4 header field by field.
fn ip_header_vec(
    total_len: u16,
    ttl: u8,
    protocol: u8,
    ck: u16,
    src_addr: u32,
    dst_addr: u32,
) -> (r: Vec<u8>)
    ensures
        r@ == ip_header_bytes(total_len, ttl, protocol, ck, src_addr, dst_addr),
{
    let mut v: Vec<u8> = Vec::new();
    v.push(0x45);
    v.push(0x00);
    push_be16(&mut v, total_len);
    v.push(0x00);
    v.push(0x00);
    v.push(0x00);
    v.push(0x00);
    v.push(ttl);
    v.push(protocol);
    push_be16(&mut v, ck);
    push_be32(&mut v, src_addr);
    push_be32(&mut v, dst_addr);
    proof {
        assert(v@ =~= ip_header_bytes(total_len, ttl, protocol, ck, src_addr, dst_addr));
    }
    v
}

/// Builds the 8-byte UDP header field by field.
fn udp_header_vec(src_port: u16, dst_port: u16, udp_len: u16) -> (r: Vec<u8>)
    ensures
        r@ == udp_header_bytes(src_port, dst_port, udp_len),
{
    let mut v: Vec<u8> = Vec::new();
    push_be16(&mut v, src_port);
    push_be16(&mut v, dst_port);
    push_be16(&mut v, udp_len);
    v.push(0x00);
    v.push(0x00);
    proof {
        assert(v@ =~= udp_header_bytes(src_port, dst_port, udp_len));
    }
    v
}

/// Builds the 20-byte TCP header field by field.
fn tcp_header_vec(
    src_port: u16,
    dst_port: u16,
    seq_number: u32,
    ack_number: u32,
    window_size: u16,
) -> (r: Vec<u8>)
    ensures
        r@ == tcp_header_bytes(src_port, dst_port, seq_number, ack_number, window_size),
{
    let mut v: Vec<u8> = Vec::new();
    push_be16(&mut v, src_port);
    push_be16(&mut v, dst_port);
    push_be32(&mut v, seq_number);
    push_be32(&mut v, ack_number);
    v.push(0x00);
    v.push(0x00);
    push_be16(&mut v, window_size);
    v.push(0x00);
    v.push(0x00);
    v.push(0x00);
    v.push(0x00);
    proof {
        assert(v@ =~= tcp_header_bytes(src_port, dst_port, seq_number, ack_number, window_size));
    }
    v
}

/// A 16-bit value is recovered from its two big-endian bytes.
proof fn lemma_be16_decode(x: u16)
    ensures
        (x / 0x100) * 0x100 + x % 0x100 == x,
{
    lemma_fundamental_div_mod(x as int, 0x100);
}

/// A 32-bit value is recovered from its four big-endian bytes.
proof fn lemma_be32_decode(x: u32)
    ensures
        (x / 0x1000000) * 0x1000000 + ((x / 0x10000) % 0x100) * 0x10000 + ((x / 0x100) % 0x100)
            * 0x100 + x % 0x100 == x,
{
    lemma_fundamental_div_mod(x as int, 0x100);
    lemma_fundamental_div_mod(x as int / 0x100, 0x100);
    lemma_fundamental_div_mod(x as int / 0x10000, 0x100);
    lemma_div_denominator(x as int, 0x100, 0x100);
    lemma_div_denominator(x as int, 0x10000, 0x100);
}

/// The encoded UDP buffer is exactly 20 + 8 + L bytes for a payload of
/// length L, and its total-length and UDP-length fields, decoded from
/// network byte order, equal 28 + L and 8 + L (modulo 2^16).
pub proof fn lemma_udp_encoding_lengths(
    src_addr: u32,
    src_port: u16,
    dst_addr: u32,
    dst_port: u16,
    payload: Seq<u8>,
    ttl: u8,
)
    ensures
        ({
            let e = udp_encoding(src_addr, src_port, dst_addr, dst_port, payload, ttl);
            &&& e.len() == 28 + payload.len()
            &&& e[2] * 0x100 + e[3] == (28 + payload.len()) % 0x10000
            &&& e[24] * 0x100 + e[25] == (8 + payload.len()) % 0x10000
        }),
{
    lemma_be16_decode(len_field(28, payload.len() as int));
    lemma_be16_decode(len_field(8, payload.len() as int));
}

/// The encoded TCP buffer is exactly 20 + 20 + L bytes for a payload of
/// length L, and its total-length field, decoded from network byte order,
/// equals 40 + L (modulo 2^16).
pub proof fn lemma_tcp_encoding_lengths(
    src_addr: u32,
    src_port: u16,
    dst_addr: u32,
    dst_port: u16,
    payload: Seq<u8>,
    ttl: u8,
    seq_number: u32,
    window_size: u16,
)
    ensures
        ({
            let e = tcp_encoding(
                src_addr,
                src_port,
                dst_addr,
                dst_port,
                payload,
                ttl,
                seq_number,
                window_size,
            );
            &&& e.len() == 40 + payload.len()
            &&& e[2] * 0x100 + e[3] == (40 + payload.len()) % 0x10000
        }),
{
    lemma_be16_decode(len_field(40, payload.len() as int));
}

/// The TCP variant mirrors the sequence number: both the sequence-number
/// field (bytes 24..28) and the acknowledgment-number field (bytes 28..32)
/// of the encoded buffer decode to `seq_number`.
pub proof fn lemma_tcp_ack_mirrors_seq(
    src_addr: u32,
    src_port: u16,
    dst_addr: u32,
    dst_port: u16,
    payload: Seq<u8>,
    ttl: u8,
    seq_number: u32,
    window_size: u16,
)
    ensures
        ({
            let e = tcp_encoding(
                src_addr,
                src_port,
                dst_addr,
                dst_port,
                payload,
                ttl,
                seq_number,
                window_size,
            );
            &&& e[24] * 0x1000000 + e[25] * 0x10000 + e[26] * 0x100 + e[27] == seq_number
            &&& e[28] * 0x1000000 + e[29] * 0x10000 + e[30] * 0x100 + e[31] == seq_number
        }),
{
    lemma_be32_decode(seq_number);
}

/// Encoding is deterministic: the bytes are a function of the packet's
/// fields alone, so two packets with equal fields encode identically.
pub proof fn lemma_udp_encoding_deterministic(a: UdpPacket, b: UdpPacket)
    requires
        a.src_addr == b.src_addr,
        a.src_port == b.src_port,
        a.dst_addr == b.dst_addr,
        a.dst_port == b.dst_port,
        a.payload@ == b.payload@,
        a.ttl == b.ttl,
    ensures
        a.encoding() == b.encoding(),
{
}

/// Encoding is deterministic: the bytes are a function of the packet's
/// fields alone, so two packets with equal fields encode identically.
pub proof fn lemma_tcp_encoding_deterministic(a: TcpPacket, b: TcpPacket)
    requires
        a.src_addr == b.src_addr,
        a.src_port == b.src_port,
        a.dst_addr == b.dst_addr,
        a.dst_port == b.dst_port,
        a.payload@ == b.payload@,
        a.ttl == b.ttl,
        a.seq_number == b.seq_number,
        a.window_size == b.window_size,
    ensures
        a.encoding() == b.encoding(),
{
}

/// The IPv4 header emitted at the front of every encoded buffer passes
/// checksum verification: running the checksum over the header with its
/// checksum field in place yields zero.
pub proof fn lemma_emitted_ip_header_verifies(
    total_len: u16,
    ttl: u8,
    protocol: u8,
    src_addr: u32,
    dst_addr: u32,
)
    ensures
        ({
            let zeroed = ip_header_bytes(total_len, ttl, protocol, 0, src_addr, dst_addr);
            let ck = checksum_spec(zeroed);
            checksum_spec(ip_header_bytes(total_len, ttl, protocol, ck, src_addr, dst_addr)) == 0
        }),
{
    let zeroed = ip_header_bytes(total_len, ttl, protocol, 0, src_addr, dst_addr);
    let ck = checksum_spec(zeroed);
    lemma_checksum_self_verifies(zeroed);
    assert(with_checksum(zeroed, ck) =~= ip_header_bytes(
        total_len,
        ttl,
        protocol,
        ck,
        src_addr,
        dst_addr,
    ));
}

/// The first 20 bytes of an encoded UDP packet are its IPv4 header, and
/// they pass checksum verification.
pub proof fn lemma_udp_packet_header_verifies(
    src_addr: u32,
    src_port: u16,
    dst_addr: u32,
    dst_port: u16,
    payload: Seq<u8>,
    ttl: u8,
)
    ensures
        checksum_spec(
            udp_encoding(src_addr, src_port, dst_addr, dst_port, payload, ttl).subrange(0, 20),
        ) == 0,
{
    let total_len = len_field(28, payload.len() as int);
    let ck = checksum_spec(ip_header_bytes(total_len, ttl, PROTOCOL_UDP, 0, src_addr, dst_addr));
    lemma_emitted_ip_header_verifies(total_len, ttl, PROTOCOL_UDP, src_addr, dst_addr);
    assert(udp_encoding(src_addr, src_port, dst_addr, dst_port, payload, ttl).subrange(0, 20)
        =~= ip_header_bytes(total_len, ttl, PROTOCOL_UDP, ck, src_addr, dst_addr));
}

/// The first 20 bytes of an encoded TCP packet are its IPv4 header, and
/// they pass checksum verification.
pub proof fn lemma_tcp_packet_header_verifies(
    src_addr: u32,
    src_port: u16,
    dst_addr: u32,
    dst_port: u16,
    payload: Seq<u8>,
    ttl: u8,
    seq_number: u32,
    window_size: u16,
)
    ensures
        checksum_spec(
            tcp_encoding(
                src_addr,
                src_port,
                dst_addr,
                dst_port,
                payload,
                ttl,
                seq_number,
                window_size,
            ).subrange(0, 20),
        ) == 0,
{
    let total_len = len_field(40, payload.len() as int);
    let ck = checksum_spec(ip_header_bytes(total_len, ttl, PROTOCOL_UDP, 0, src_addr, dst_addr));
    lemma_emitted_ip_header_verifies(total_len, ttl, PROTOCOL_UDP, src_addr, dst_addr);
    assert(tcp_encoding(src_addr, src_port, dst_addr, dst_port, payload, ttl, seq_number, window_size)
        .subrange(0, 20) =~= ip_header_bytes(total_len, ttl, PROTOCOL_UDP, ck, src_addr, dst_addr));
}

/// Assembles [IPv4 header][transport header][payload], with the IPv4
/// checksum computed over the header with a zeroed checksum field and then
/// written into it.
fn assemble(
    total_len: u16,
    ttl: u8,
    protocol: u8,
    src_addr: u32,
    dst_addr: u32,
    transport: &Vec<u8>,
    payload: &[u8],
) -> (r: Vec<u8>)
    ensures
        r@ == ip_header_bytes(
            total_len,
            ttl,
            protocol,
            checksum_spec(ip_header_bytes(total_len, ttl, protocol, 0, src_addr, dst_addr)),
            src_addr,
            dst_addr,
        ) + transport@ + payload@,
{
    let zeroed = ip_header_vec(total_len, ttl, protocol, 0, src_addr, dst_addr);
    let ck = internet_checksum(zeroed.as_slice());
    let mut packet = ip_header_vec(total_len, ttl, protocol, ck, src_addr, dst_addr);
    append_slice(&mut packet, transport.as_slice());
    append_slice(&mut packet, payload);
    packet
}

} // verus!
