use raw_packet::socket::{send_call_result, socket_creation_result, RawSocket, SendError};

#[test]
fn transmitter_identity_is_kept() {
    let socket = RawSocket::new(0x0a00_0001, 4333);
    assert_eq!(socket.src_addr, 0x0a00_0001);
    assert_eq!(socket.src_port, 4333);
}

#[test]
fn socket_creation_failure_is_reported() {
    // A denied or exhausted raw-socket acquisition surfaces as a failure
    // value, never as an abort.
    let r = socket_creation_result(-1);
    assert!(matches!(r, Err(SendError::SocketCreationFailure)));
    assert_eq!(r.unwrap_err().message().as_str(), "Failed to create raw socket");
}

#[test]
fn send_failure_is_reported() {
    let r = send_call_result(-1);
    assert!(matches!(r, Err(SendError::SendFailure)));
    assert_eq!(r.unwrap_err().message().as_str(), "Failed to send packet");
}

#[test]
fn successful_steps_are_ok() {
    assert!(socket_creation_result(0).is_ok());
    assert!(socket_creation_result(3).is_ok());
    assert!(send_call_result(0).is_ok());
    assert!(send_call_result(39).is_ok());
}
