//! The raw-socket transmission path. The transmitter owns an immutable
//! source identity, encodes a packet per send, and maps the outcomes of
//! the two kernel-level steps — socket creation and the send call — to the
//! caller-visible result. The system calls themselves live outside this
//! library; the decisions about their return values are made here.

use crate::packet::{tcp_encoding, udp_encoding, Packet, TcpPacket, UdpPacket};
use vstd::prelude::*;

verus! {

broadcast use vstd::string::to_string_from_display_ensures_for_str;

/// Why a raw send failed: the raw socket could not be opened, or the
/// kernel-level send call reported an error.
#[derive(Clone, Copy, Debug, PartialEq, Eq, Structural)]
pub enum SendError {
    SocketCreationFailure,
    SendFailure,
}

impl SendError {
    /// A human-readable description of the failure.
    pub fn message(&self) -> (r: String)
        ensures
            self is SocketCreationFailure ==> r@ == "Failed to create raw socket"@,
            self is SendFailure ==> r@ == "Failed to send packet"@,
    {
        match self {
            SendError::SocketCreationFailure => "Failed to create raw socket".to_string(),
            SendError::SendFailure => "Failed to send packet".to_string(),
        }
    }
}

/// A raw-socket transmitter identity: the source address and port stamped
/// into every packet it encodes. The address is a 32-bit host-order
/// integer. No socket descriptor is held across sends; one is acquired and
/// released per send, outside this library.
pub struct RawSocket {
    pub src_addr: u32,
    pub src_port: u16,
}

impl RawSocket {
    pub fn new(src_addr: u32, src_port: u16) -> (r: Self)
        ensures
            r.src_addr == src_addr,
            r.src_port == src_port,
    {
        Self { src_addr, src_port }
    }

    /// Encodes the UDP datagram that a send to `dst_addr:dst_port` with
    /// `payload` and `ttl` transmits, stamped with this identity.
    pub fn encode_udp_packet(&self, dst_addr: u32, dst_port: u16, payload: &[u8], ttl: u8) -> (r:
        Vec<u8>)
        ensures
            r@ == udp_encoding(self.src_addr, self.src_port, dst_addr, dst_port, payload@, ttl),
    {
        UdpPacket::new(self.src_addr, self.src_port, dst_addr, dst_port, payload, ttl).encode()
    }

    /// Encodes the TCP segment that a send to `dst_addr:dst_port` with
    /// `payload`, `ttl`, `seq_number` and `window_size` transmits, stamped
    /// with this identity.
    pub fn encode_tcp_packet(
        &self,
        dst_addr: u32,
        dst_port: u16,
        payload: &[u8],
        ttl: u8,
        seq_number: u32,
        window_size: u16,
    ) -> (r: Vec<u8>)
        ensures
            r@ == tcp_encoding(
                self.src_addr,
                self.src_port,
                dst_addr,
                dst_port,
                payload@,
                ttl,
                seq_number,
                window_size,
            ),
    {
        TcpPacket::new(
            self.src_addr,
            self.src_port,
            dst_addr,
            dst_port,
            payload,
            ttl,
            seq_number,
            window_size,
        ).encode()
    }
}

/// Maps the descriptor returned by raw-socket creation to the
/// caller-visible result: a negative descriptor means the socket could not
/// be opened, and is reported as a failure rather than aborting.
pub fn socket_creation_result(socket_fd: i32) -> (r: Result<(), SendError>)
    ensures
        r is Ok <==> socket_fd >= 0,
        r is Err ==> r->Err_0 is SocketCreationFailure,
{
    if socket_fd < 0 {
        Err(SendError::SocketCreationFailure)
    } else {
        Ok(())
    }
}

/// Maps the count returned by the kernel send call to the caller-visible
/// result: a negative count means the transmission failed, and is reported
/// as a failure rather than aborting.
pub fn send_call_result(sent: isize) -> (r: Result<(), SendError>)
    ensures
        r is Ok <==> sent >= 0,
        r is Err ==> r->Err_0 is SendFailure,
{
    if sent < 0 {
        Err(SendError::SendFailure)
    } else {
        Ok(())
    }
}

} // verus!
