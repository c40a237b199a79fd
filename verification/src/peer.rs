//! A node's view of one connected player: frames queued for the player and
//! frames arriving from the player, merged into one stream of messages.

use crate::error::Error;
use crate::types::Frame;
use vstd::prelude::*;

verus! {

/// The outcome of asking a source for its next item without waiting.
#[derive(Debug, PartialEq, Eq)]
pub enum Polled<T> {
    Ready(T),
    Pending,
}

#[derive(Debug, PartialEq, Eq)]
pub enum PeerMessage {
    Outgoing(Frame),
    Incoming(Frame),
}

/// The outcome of polling a peer stream.
#[derive(Debug, PartialEq, Eq)]
pub struct PeerPoll {
    pub item: Polled<Option<Result<PeerMessage, Error>>>,
    /// The stream wants to be polled again at once.
    pub wake: bool,
}

#[derive(Debug)]
pub struct PeerStream {
    player_id: i32,
    closed: bool,
}

/// The queue has a frame ready.
pub open spec fn frame_ready(outgoing: Polled<Option<Frame>>) -> bool {
    outgoing matches Polled::Ready(Some(_))
}

/// What polling an open peer stream gives, from what its two sources gave.
/// A queued frame goes first, and the socket is then not looked at. An
/// error on the socket is handed on once and closes the stream.
pub open spec fn merged(
    outgoing: Polled<Option<Frame>>,
    incoming: Polled<Option<Result<Frame, Error>>>,
) -> (bool, PeerPoll) {
    match outgoing {
        Polled::Ready(Some(frame)) => (
            false,
            PeerPoll { item: Polled::Ready(Some(Ok(PeerMessage::Outgoing(frame)))), wake: false },
        ),
        _ => match incoming {
            Polled::Pending => (false, PeerPoll { item: Polled::Pending, wake: false }),
            Polled::Ready(None) => (false, PeerPoll { item: Polled::Ready(None), wake: false }),
            Polled::Ready(Some(Ok(frame))) => (
                false,
                PeerPoll { item: Polled::Ready(Some(Ok(PeerMessage::Incoming(frame)))), wake: false },
            ),
            Polled::Ready(Some(Err(e))) => (
                true,
                PeerPoll { item: Polled::Ready(Some(Err(e))), wake: true },
            ),
        },
    }
}

impl PeerStream {
    pub closed spec fn spec_player_id(&self) -> i32 {
        self.player_id
    }

    pub closed spec fn spec_is_closed(&self) -> bool {
        self.closed
    }

    /// An open stream for the player.
    pub fn new(player_id: i32) -> (res: Self)
        ensures
            res.spec_player_id() == player_id,
            !res.spec_is_closed(),
    {
        PeerStream { player_id, closed: false }
    }

    #[verifier::when_used_as_spec(spec_player_id)]
    pub fn player_id(&self) -> (res: i32)
        ensures
            res == self.spec_player_id(),
    {
        self.player_id
    }

    #[verifier::when_used_as_spec(spec_is_closed)]
    pub fn is_closed(&self) -> (res: bool)
        ensures
            res == self.spec_is_closed(),
    {
        self.closed
    }

    /// Polls the stream. A closed stream has ended and asks neither
    /// source. An open one asks the queue, and the socket only if the
    /// queue had no frame ready.
    pub fn poll_next<O, I>(&mut self, poll_outgoing: O, poll_incoming: I) -> (res: PeerPoll) where
        O: FnOnce() -> Polled<Option<Frame>>,
        I: FnOnce() -> Polled<Option<Result<Frame, Error>>>,

        requires
            !old(self).spec_is_closed() ==> poll_outgoing.requires(()) && poll_incoming.requires(()),
        ensures
            final(self).spec_player_id() == old(self).spec_player_id(),
            old(self).spec_is_closed() ==> final(self).spec_is_closed() && res == (PeerPoll {
                item: Polled::Ready(None),
                wake: false,
            }),
            !old(self).spec_is_closed() ==> exists|
                outgoing: Polled<Option<Frame>>,
                incoming: Polled<Option<Result<Frame, Error>>>,
            |
                {
                    &&& poll_outgoing.ensures((), outgoing)
                    &&& (frame_ready(outgoing) || poll_incoming.ensures((), incoming))
                    &&& (final(self).spec_is_closed(), res) == merged(outgoing, incoming)
                },
    {
        if self.closed {
            return PeerPoll { item: Polled::Ready(None), wake: false };
        }
        let outgoing = poll_outgoing();
        if let Polled::Ready(Some(frame)) = outgoing {
            let res = PeerPoll {
                item: Polled::Ready(Some(Ok(PeerMessage::Outgoing(frame)))),
                wake: false,
            };
            proof {
                assert((false, res) == merged(outgoing, Polled::Pending));
            }
            return res;
        }
        let incoming = poll_incoming();
        let res = match incoming {
            Polled::Pending => PeerPoll { item: Polled::Pending, wake: false },
            Polled::Ready(None) => PeerPoll { item: Polled::Ready(None), wake: false },
            Polled::Ready(Some(Ok(frame))) => PeerPoll {
                item: Polled::Ready(Some(Ok(PeerMessage::Incoming(frame)))),
                wake: false,
            },
            Polled::Ready(Some(Err(e))) => {
                self.closed = true;
                PeerPoll { item: Polled::Ready(Some(Err(e))), wake: true }
            },
        };
        proof {
            assert((self.closed, res) == merged(outgoing, incoming));
        }
        res
    }
}

/// With no frame queued, an error on the socket closes the stream and is
/// handed on.
pub proof fn lemma_error_closes(outgoing: Polled<Option<Frame>>, e: Error)
    requires
        !frame_ready(outgoing),
    ensures
        merged(outgoing, Polled::Ready(Some(Err(e)))).0,
        merged(outgoing, Polled::Ready(Some(Err(e)))).1.item == Polled::<
            Option<Result<PeerMessage, Error>>,
        >::Ready(Some(Err(e))),
{
}

} // verus!
