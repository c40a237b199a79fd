//! The game-phase connection to a node: the handshake's outcome and the
//! worker's reaction to each thing that can happen on the connection.

use crate::error::{ClientConnectRejectReason, Error};
use crate::token::NodeConnectToken;
use crate::types::Frame;
use std::collections::HashMap;
use vstd::prelude::*;

verus! {

/// Per-player readiness inside a game.
#[derive(Debug, Clone, Copy, PartialEq, Eq, Structural)]
pub enum SlotClientStatus {
    Pending,
    Connected,
    Joined,
    Loading,
    Loaded,
    Disconnected,
    Left,
}

#[derive(Debug, Clone, Copy, PartialEq, Eq, Structural)]
pub enum NodeGameStatus {
    Created,
    Waiting,
    Loading,
    Running,
    Ended,
}

#[derive(Debug, Clone, Copy, PartialEq, Eq, Structural)]
pub struct SlotClientStatusUpdate {
    pub player_id: i32,
    pub game_id: i32,
    pub status: SlotClientStatus,
}

/// The state of a game as the node hands it to a client that connects.
#[derive(Debug, Clone, PartialEq, Eq)]
pub struct NodeGameStatusSnapshot {
    pub game_id: i32,
    pub game_status: NodeGameStatus,
    pub player_game_client_status_map: HashMap<i32, SlotClientStatus>,
}

#[derive(Debug, Clone, PartialEq, Eq)]
pub struct GameStatusUpdate {
    pub game_id: i32,
    pub status: NodeGameStatus,
    pub updated_player_game_client_status_map: HashMap<i32, SlotClientStatus>,
}

/// An in-game protocol packet, tunneled unchanged.
#[derive(Debug, Clone, PartialEq, Eq)]
pub struct W3gsPacket {
    pub type_id: u8,
    pub payload: Vec<u8>,
}

#[derive(Debug, Clone, Copy, PartialEq, Eq, Structural)]
pub struct Version {
    pub major: i32,
    pub minor: i32,
    pub patch: i32,
}

/// The first packet a client sends to a node.
#[derive(Debug, Clone, PartialEq, Eq)]
pub struct ClientConnect {
    pub version: Version,
    pub token: Vec<u8>,
}

/// The node's answer to `ClientConnect`, decoded.
#[derive(Debug, PartialEq, Eq)]
pub enum HandshakeReply {
    Accept { player_id: i32, version: Version, status: NodeGameStatusSnapshot },
    Reject { reason: ClientConnectRejectReason, message: String },
    /// An accept whose body could not be decoded.
    Malformed,
    /// Any other packet.
    Other,
}

/// A frame received from the node after the handshake, decoded.
#[derive(Debug, PartialEq, Eq)]
pub enum NodeFrame {
    W3gs(W3gsPacket),
    UpdateSlotClientStatus(SlotClientStatusUpdate),
    UpdateSlotClientStatusReject { player_id: i32, game_id: i32 },
    NodeGameStatusUpdate(GameStatusUpdate),
    /// A known packet whose body could not be decoded.
    Malformed,
    /// A packet of a type that the client does not handle.
    Unrecognized(Frame),
}

/// A frame bound for the node, before it is encoded.
#[derive(Debug, PartialEq, Eq)]
pub enum NodeRequest {
    UpdateSlotClientStatus { status: SlotClientStatus },
    W3gs(W3gsPacket),
}

#[derive(Debug, PartialEq, Eq)]
pub enum NodeStreamEvent {
    SlotClientStatusUpdate(SlotClientStatusUpdate),
    GameInitialStatus(NodeGameStatusSnapshot),
    GameStatusUpdate(GameStatusUpdate),
    Disconnected,
}

/// One thing that happened on the connection.
#[derive(Debug, PartialEq, Eq)]
pub enum WorkerInput {
    /// The owner dropped the stream.
    ScopeLeft,
    /// A frame arrived from the node.
    Incoming(NodeFrame),
    /// Reading from the node failed, or the node closed the stream.
    RecvFailed(Error),
    /// The receiver of in-game packets is gone.
    W3gsReceiverGone,
    /// A handle enqueued a frame.
    Outgoing(NodeRequest),
    /// Every handle is gone.
    OutgoingClosed,
    /// Writing a frame to the node failed.
    SendFailed(Error),
}

/// What the worker's caller does besides publishing events.
#[derive(Debug, PartialEq, Eq)]
pub enum NodeCommand {
    /// Hand the packet to the receiver of in-game packets.
    ForwardW3gs(W3gsPacket),
    /// Write the frame to the node.
    SendFrame(NodeRequest),
}

/// The worker's reaction to one input.
#[derive(Debug, PartialEq, Eq)]
pub struct WorkerStep {
    /// Events to publish, in order.
    pub events: Vec<NodeStreamEvent>,
    pub command: Option<NodeCommand>,
    /// The worker is done: close the outgoing queue, write what it still
    /// holds, flush the socket and stop.
    pub exit: bool,
}

/// Where a worker stands.
pub enum WorkerPhase {
    /// Connected; the initial status is not published yet.
    Init(NodeGameStatusSnapshot),
    Running,
    Stopped,
}

/// `WorkerStep` as plain values.
pub struct StepView {
    pub phase: WorkerPhase,
    pub events: Seq<NodeStreamEvent>,
    pub command: Option<NodeCommand>,
    pub exit: bool,
}

/// The events that a frame other than an in-game packet leads to, or the
/// error that ends the worker.
pub open spec fn node_frame_events(frame: NodeFrame) -> Result<Seq<NodeStreamEvent>, Error> {
    match frame {
        NodeFrame::UpdateSlotClientStatus(update) => Ok(
            seq![NodeStreamEvent::SlotClientStatusUpdate(update)],
        ),
        NodeFrame::UpdateSlotClientStatusReject { .. } => Ok(seq![NodeStreamEvent::Disconnected]),
        NodeFrame::NodeGameStatusUpdate(update) => Ok(seq![NodeStreamEvent::GameStatusUpdate(update)]),
        NodeFrame::Malformed => Err(Error::MalformedPacket),
        NodeFrame::W3gs(_) => Ok(seq![]),
        NodeFrame::Unrecognized(_) => Ok(seq![]),
    }
}

pub open spec fn quiet(phase: WorkerPhase) -> StepView {
    StepView { phase, events: seq![], command: None, exit: false }
}

pub open spec fn leave(events: Seq<NodeStreamEvent>) -> StepView {
    StepView { phase: WorkerPhase::Stopped, events, command: None, exit: true }
}

/// The reaction of a running worker to `input`. The worker leaves on
/// anything that ends the session, and a disconnect is the last thing it
/// publishes.
pub open spec fn running_step(input: WorkerInput) -> StepView {
    match input {
        WorkerInput::ScopeLeft => leave(seq![]),
        WorkerInput::Incoming(NodeFrame::W3gs(packet)) => StepView {
            command: Some(NodeCommand::ForwardW3gs(packet)),
            ..quiet(WorkerPhase::Running)
        },
        WorkerInput::Incoming(NodeFrame::UpdateSlotClientStatusReject { .. }) => leave(
            seq![NodeStreamEvent::Disconnected],
        ),
        WorkerInput::Incoming(frame) => match node_frame_events(frame) {
            Ok(events) => StepView { events, ..quiet(WorkerPhase::Running) },
            Err(_) => leave(seq![]),
        },
        WorkerInput::RecvFailed(_) => leave(seq![NodeStreamEvent::Disconnected]),
        WorkerInput::W3gsReceiverGone => leave(seq![]),
        WorkerInput::Outgoing(request) => StepView {
            command: Some(NodeCommand::SendFrame(request)),
            ..quiet(WorkerPhase::Running)
        },
        WorkerInput::OutgoingClosed => leave(seq![]),
        WorkerInput::SendFailed(_) => leave(seq![NodeStreamEvent::Disconnected]),
    }
}

/// The reaction of a worker in `phase` to `input`. A worker that has not
/// published the initial status yet does so first; one that has stopped
/// does nothing more.
pub open spec fn worker_step(phase: WorkerPhase, input: WorkerInput) -> StepView {
    match phase {
        WorkerPhase::Init(status) => StepView {
            events: seq![NodeStreamEvent::GameInitialStatus(status)] + running_step(input).events,
            ..running_step(input)
        },
        WorkerPhase::Running => running_step(input),
        WorkerPhase::Stopped => quiet(WorkerPhase::Stopped),
    }
}

/// What the handshake comes to, given the node's reply.
pub open spec fn handshake_outcome(reply: HandshakeReply) -> Result<
    (i32, NodeGameStatusSnapshot),
    Error,
> {
    match reply {
        HandshakeReply::Accept { player_id, status, .. } => Ok((player_id, status)),
        HandshakeReply::Reject { reason, message } => Err(
            Error::NodeConnectionRejected(reason, message),
        ),
        HandshakeReply::Malformed => Err(Error::MalformedPacket),
        HandshakeReply::Other => Err(Error::UnexpectedPacket),
    }
}

/// A connection to a game node that has passed the handshake.
#[derive(Debug)]
pub struct NodeStream {
    game_id: i32,
    player_id: i32,
    token: Vec<u8>,
    initial_status: Option<NodeGameStatusSnapshot>,
    stopped: bool,
}

/// What a user of the stream needs to send frames to the node.
#[derive(Debug, Clone, PartialEq, Eq)]
pub struct NodeStreamHandle {
    game_id: i32,
    player_id: i32,
}

impl WorkerStep {
    pub open spec fn view_in(&self, phase: WorkerPhase) -> StepView {
        StepView { phase, events: self.events@, command: self.command, exit: self.exit }
    }
}

impl NodeStreamHandle {
    pub closed spec fn spec_game_id(&self) -> i32 {
        self.game_id
    }

    pub closed spec fn spec_player_id(&self) -> i32 {
        self.player_id
    }

    #[verifier::when_used_as_spec(spec_game_id)]
    pub fn game_id(&self) -> (res: i32)
        ensures
            res == self.spec_game_id(),
    {
        self.game_id
    }

    #[verifier::when_used_as_spec(spec_player_id)]
    pub fn player_id(&self) -> (res: i32)
        ensures
            res == self.spec_player_id(),
    {
        self.player_id
    }

    /// The frame that reports the local client's slot status, to be put on
    /// the outgoing queue. Never fails.
    pub fn report_slot_status(&mut self, status: SlotClientStatus) -> (res: Result<NodeRequest, Error>)
        ensures
            res == Ok::<NodeRequest, Error>(NodeRequest::UpdateSlotClientStatus { status }),
            *final(self) == *old(self),
    {
        Ok(NodeRequest::UpdateSlotClientStatus { status })
    }

    /// The frame that tunnels an in-game packet, to be put on the outgoing
    /// queue. Never fails.
    pub fn send_w3gs(&mut self, pkt: W3gsPacket) -> (res: Result<NodeRequest, Error>)
        ensures
            res == Ok::<NodeRequest, Error>(NodeRequest::W3gs(pkt)),
            *final(self) == *old(self),
    {
        Ok(NodeRequest::W3gs(pkt))
    }
}

impl NodeStream {
    pub closed spec fn spec_game_id(&self) -> i32 {
        self.game_id
    }

    pub closed spec fn spec_player_id(&self) -> i32 {
        self.player_id
    }

    /// The bytes of the token that the stream was opened with.
    pub closed spec fn token(&self) -> Seq<u8> {
        self.token@
    }

    pub closed spec fn phase(&self) -> WorkerPhase {
        if self.stopped {
            WorkerPhase::Stopped
        } else {
            match self.initial_status {
                Some(status) => WorkerPhase::Init(status),
                None => WorkerPhase::Running,
            }
        }
    }

    /// The packet that opens the handshake.
    pub fn client_connect(version: Version, token: &NodeConnectToken) -> (res: ClientConnect)
        ensures
            res.version == version,
            res.token@ == token@,
    {
        ClientConnect { version, token: token.to_vec() }
    }

    /// Concludes the handshake that was opened with `token`: an accept
    /// gives a stream for the accepted game and player whose worker has
    /// the initial status still to publish; a reject, or any other reply,
    /// gives the matching error and no stream.
    pub fn connect(token: NodeConnectToken, reply: HandshakeReply) -> (res: Result<Self, Error>)
        ensures
            match handshake_outcome(reply) {
                Ok((player_id, status)) => res matches Ok(stream) && stream.spec_game_id()
                    == status.game_id && stream.spec_player_id() == player_id && stream.token()
                    == token@ && stream.phase() == WorkerPhase::Init(status),
                Err(e) => res matches Err(err) && err == e,
            },
    {
        match reply {
            HandshakeReply::Accept { player_id, version: _, status } => Ok(
                NodeStream {
                    game_id: status.game_id,
                    player_id,
                    token: token.to_vec(),
                    initial_status: Some(status),
                    stopped: false,
                },
            ),
            HandshakeReply::Reject { reason, message } => Err(
                Error::NodeConnectionRejected(reason, message),
            ),
            HandshakeReply::Malformed => Err(Error::MalformedPacket),
            HandshakeReply::Other => Err(Error::UnexpectedPacket),
        }
    }

    /// A handle for the stream's game and player.
    pub fn handle(&self) -> (res: NodeStreamHandle)
        ensures
            res.spec_game_id() == self.spec_game_id(),
            res.spec_player_id() == self.spec_player_id(),
    {
        NodeStreamHandle { game_id: self.game_id, player_id: self.player_id }
    }

    /// Turns a frame of the node that is no in-game packet into events.
    pub fn handle_node_frame(frame: NodeFrame) -> (res: Result<Vec<NodeStreamEvent>, Error>)
        ensures
            match node_frame_events(frame) {
                Ok(events) => res matches Ok(v) && v@ == events,
                Err(e) => res matches Err(err) && err == e,
            },
    {
        let mut events: Vec<NodeStreamEvent> = Vec::new();
        match frame {
            NodeFrame::UpdateSlotClientStatus(update) => {
                events.push(NodeStreamEvent::SlotClientStatusUpdate(update));
            },
            NodeFrame::UpdateSlotClientStatusReject { .. } => {
                events.push(NodeStreamEvent::Disconnected);
            },
            NodeFrame::NodeGameStatusUpdate(update) => {
                events.push(NodeStreamEvent::GameStatusUpdate(update));
            },
            NodeFrame::Malformed => {
                return Err(Error::MalformedPacket);
            },
            NodeFrame::W3gs(_) => {},
            NodeFrame::Unrecognized(_) => {},
        }
        proof {
            assert(events@ =~= node_frame_events(frame).unwrap());
        }
        Ok(events)
    }

    /// Publishes the initial status, if that is still to do.
    pub fn start(&mut self) -> (events: Vec<NodeStreamEvent>)
        ensures
            final(self).spec_game_id() == old(self).spec_game_id(),
            final(self).spec_player_id() == old(self).spec_player_id(),
            final(self).token() == old(self).token(),
            match old(self).phase() {
                WorkerPhase::Init(status) => final(self).phase() == WorkerPhase::Running
                    && events@ == seq![NodeStreamEvent::GameInitialStatus(status)],
                _ => final(self).phase() == old(self).phase() && events@ == Seq::<
                    NodeStreamEvent,
                >::empty(),
            },
    {
        let mut events: Vec<NodeStreamEvent> = Vec::new();
        if !self.stopped {
            if let Some(status) = self.initial_status.take() {
                events.push(NodeStreamEvent::GameInitialStatus(status));
                proof {
                    assert(events@ =~= seq![NodeStreamEvent::GameInitialStatus(status)]);
                }
            }
        }
        events
    }

    /// The worker's reaction to one input.
    pub fn worker(&mut self, input: WorkerInput) -> (step: WorkerStep)
        ensures
            final(self).spec_game_id() == old(self).spec_game_id(),
            final(self).spec_player_id() == old(self).spec_player_id(),
            final(self).token() == old(self).token(),
            step.view_in(final(self).phase()) == worker_step(old(self).phase(), input),
    {
        if self.stopped {
            return WorkerStep { events: Vec::new(), command: None, exit: false };
        }
        let mut events: Vec<NodeStreamEvent> = self.start();
        let ghost started = events@;
        let mut command: Option<NodeCommand> = None;
        let mut exit: bool = false;
        match input {
            WorkerInput::ScopeLeft => {
                exit = true;
            },
            WorkerInput::Incoming(NodeFrame::W3gs(packet)) => {
                command = Some(NodeCommand::ForwardW3gs(packet));
            },
            WorkerInput::Incoming(NodeFrame::UpdateSlotClientStatusReject { .. }) => {
                events.push(NodeStreamEvent::Disconnected);
                exit = true;
            },
            WorkerInput::Incoming(frame) => {
                match Self::handle_node_frame(frame) {
                    Ok(mut more) => {
                        events.append(&mut more);
                    },
                    Err(_) => {
                        exit = true;
                    },
                }
            },
            WorkerInput::RecvFailed(_) => {
                events.push(NodeStreamEvent::Disconnected);
                exit = true;
            },
            WorkerInput::W3gsReceiverGone => {
                exit = true;
            },
            WorkerInput::Outgoing(request) => {
                command = Some(NodeCommand::SendFrame(request));
            },
            WorkerInput::OutgoingClosed => {
                exit = true;
            },
            WorkerInput::SendFailed(_) => {
                events.push(NodeStreamEvent::Disconnected);
                exit = true;
            },
        }
        self.stopped = exit;
        proof {
            assert(events@ =~= started + running_step(input).events);
            assert(events@ =~= worker_step(old(self).phase(), input).events);
        }
        WorkerStep { events, command, exit }
    }
}

} // verus!
