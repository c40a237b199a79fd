use flo_client::error::Error;
use flo_client::peer::{PeerMessage, PeerPoll, PeerStream, Polled};
use flo_client::types::Frame;
use std::cell::Cell;

fn frame(tag: u8) -> Frame {
    Frame {
        type_id: tag,
        payload: vec![tag, tag],
    }
}

#[test]
fn new_peer_stream_is_open() {
    let stream = PeerStream::new(7);
    assert_eq!(stream.player_id(), 7);
    assert!(!stream.is_closed());
}

#[test]
fn queued_frame_goes_first_and_socket_is_not_asked() {
    let mut stream = PeerStream::new(7);
    let asked = Cell::new(false);
    let res = stream.poll_next(
        || Polled::Ready(Some(frame(1))),
        || {
            asked.set(true);
            Polled::Ready(Some(Ok(frame(2))))
        },
    );
    assert_eq!(
        res,
        PeerPoll {
            item: Polled::Ready(Some(Ok(PeerMessage::Outgoing(frame(1))))),
            wake: false
        }
    );
    assert!(!asked.get());
    assert!(!stream.is_closed());
}

#[test]
fn incoming_frame_when_queue_is_idle() {
    let mut stream = PeerStream::new(7);
    let res = stream.poll_next(|| Polled::Pending, || Polled::Ready(Some(Ok(frame(2)))));
    assert_eq!(
        res.item,
        Polled::Ready(Some(Ok(PeerMessage::Incoming(frame(2)))))
    );
    assert!(!res.wake);
    let res = stream.poll_next(|| Polled::Ready(None), || Polled::Ready(Some(Ok(frame(3)))));
    assert_eq!(
        res.item,
        Polled::Ready(Some(Ok(PeerMessage::Incoming(frame(3)))))
    );
}

#[test]
fn pending_and_end_of_socket() {
    let mut stream = PeerStream::new(7);
    let res = stream.poll_next(|| Polled::Pending, || Polled::Pending);
    assert_eq!(
        res,
        PeerPoll {
            item: Polled::Pending,
            wake: false
        }
    );
    let res = stream.poll_next(|| Polled::Pending, || Polled::Ready(None));
    assert_eq!(
        res,
        PeerPoll {
            item: Polled::Ready(None),
            wake: false
        }
    );
    assert!(!stream.is_closed());
}

#[test]
fn socket_error_closes_the_stream() {
    let mut stream = PeerStream::new(7);
    let res = stream.poll_next(
        || Polled::Pending,
        || Polled::Ready(Some(Err(Error::Net("reset".to_string())))),
    );
    assert_eq!(
        res,
        PeerPoll {
            item: Polled::Ready(Some(Err(Error::Net("reset".to_string())))),
            wake: true
        }
    );
    assert!(stream.is_closed());
    let asked = Cell::new(false);
    let res = stream.poll_next(
        || {
            asked.set(true);
            Polled::Ready(Some(frame(1)))
        },
        || {
            asked.set(true);
            Polled::Ready(Some(Ok(frame(2))))
        },
    );
    assert_eq!(
        res,
        PeerPoll {
            item: Polled::Ready(None),
            wake: false
        }
    );
    assert!(!asked.get());
    assert_eq!(stream.player_id(), 7);
}
