//! The verified mapping from the queue core's error types onto the
//! channel's own, checked on concrete values, one per variant.

use evented_channel::{SendError, TrySendError};

#[test]
fn queue_send_disconnect_maps_to_disconnected() {
    let e = mio::channel::SendError::Disconnected(5);
    assert!(matches!(SendError::from_queue(e), SendError::Disconnected));
}

#[test]
fn queue_send_io_failure_maps_to_io() {
    let io = std::io::Error::new(std::io::ErrorKind::Other, "transport failed");
    let e = mio::channel::SendError::<i32>::Io(io);
    match SendError::from_queue(e) {
        SendError::Io(inner) => assert_eq!(inner.to_string(), "transport failed"),
        _ => panic!("expected the transport failure to surface"),
    }
}

#[test]
fn queue_try_send_full_keeps_the_value() {
    let e = mio::channel::TrySendError::Full(7);
    match TrySendError::from_queue(e) {
        TrySendError::Full(v) => assert_eq!(v, 7),
        _ => panic!("expected full"),
    }
}

#[test]
fn queue_try_send_disconnect_keeps_the_value() {
    let e = mio::channel::TrySendError::Disconnected(9);
    match TrySendError::from_queue(e) {
        TrySendError::Disconnected(v) => assert_eq!(v, 9),
        _ => panic!("expected disconnected"),
    }
}

#[test]
fn queue_try_send_io_failure_maps_to_io() {
    let io = std::io::Error::new(std::io::ErrorKind::Other, "transport failed");
    let e = mio::channel::TrySendError::<i32>::Io(io);
    assert!(matches!(TrySendError::from_queue(e), TrySendError::Io(_)));
}
