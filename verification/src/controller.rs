//! The coordinator: the one place where events from the local control socket,
//! the lobby stream and the node registry meet.
//!
//! The coordinator itself performs no I/O. Each handler takes one event,
//! updates the coordinator's cells and returns the actions that the caller
//! has to carry out, in order.

use crate::error::Error;
use crate::types::{
    Disconnect, DisconnectReason, Frame, GameStartedEvent, LobbyGameInfo, OutgoingMessage,
    PingUpdate, PlayerSession, PlayerSessionUpdateEvent,
};
use std::collections::HashMap;
use std::sync::Arc;
use vstd::prelude::*;

verus! {

broadcast use vstd::std_specs::hash::group_hash_axioms;

/// What the local control socket reports.
#[derive(Debug, PartialEq, Eq)]
pub enum WsEvent {
    /// The UI asks for a lobby connection, authenticated with `token`.
    ConnectLobbyEvent { token: String },
    /// The UI wants a frame forwarded to the lobby.
    LobbyFrameEvent(Frame),
    /// The socket worker failed.
    WorkerErrorEvent(Error),
}

/// What a lobby stream reports. The `u64` of the two closing events is the
/// id of the connection that the stream belonged to.
#[derive(Debug, PartialEq, Eq)]
pub enum ControllerStreamEvent {
    ConnectedEvent,
    DisconnectedEvent(u64),
    ConnectionErrorEvent(u64, Error),
    PlayerSessionUpdateEvent(PlayerSessionUpdateEvent),
    GameInfoUpdateEvent(Option<Arc<LobbyGameInfo>>),
    GameStartingEvent { game_id: i32 },
    GameStartedEvent(GameStartedEvent),
}

/// What the coordinator reports outward.
#[derive(Debug, PartialEq, Eq)]
pub enum ControllerEvent {
    ConnectedEvent,
    DisconnectedEvent,
    GameStartedEvent(GameStartedEvent, Arc<LobbyGameInfo>),
    GameInfoUpdateEvent(Option<Arc<LobbyGameInfo>>),
    WsWorkerErrorEvent(Error),
}

/// A frame bound for the lobby server, before it is encoded.
#[derive(Debug, PartialEq, Eq)]
pub enum LobbyFrame {
    /// A frame that the UI handed over, passed through unchanged.
    Raw(Frame),
    /// Round-trip times measured from this client, by node id.
    PingMapUpdate { game_id: i32, ping_map: HashMap<i32, u32> },
    /// The local game version and map hash that the lobby needs to start.
    GameStartPlayerClientInfo { game_id: i32, war3_version: String, map_sha1: [u8; 20] },
}

/// An irregularity that is logged at error level and otherwise dropped.
#[derive(Debug, PartialEq, Eq)]
pub enum Diagnostic {
    ServerConnection(Error),
    NoActiveSession,
    GameInfoUnavailable { node_id: i32, game_id: i32 },
}

/// One thing for the caller of a handler to do.
#[derive(Debug, PartialEq, Eq)]
pub enum Action {
    /// Open the lobby stream of connection `id` and authenticate with `token`.
    OpenLobbyConn { id: u64, token: String },
    /// Drop connection `id`, which closes its stream.
    CloseLobbyConn { id: u64 },
    /// Enqueue `frame` on the frame sender of connection `conn_id`. Should
    /// that fail, carry out what `ControllerClient::frame_send_failed` gives.
    SendLobbyFrame { conn_id: u64, frame: LobbyFrame },
    /// Send `message` to the UI behind connection `conn_id`. A failure
    /// means that the browser window was closed, and is ignored.
    SendWs { conn_id: u64, message: OutgoingMessage },
    /// Hand an event to the coordinator's owner.
    Emit(ControllerEvent),
    /// Look up the local game version and the SHA-1 of the map at
    /// `map_path`, off the event loop, then call
    /// `ControllerClient::game_start_version` and
    /// `ControllerClient::send_client_info`.
    QueryClientInfo { game_id: i32, map_path: String },
    /// Log at error level.
    LogError(Diagnostic),
}

/// A lobby connection: the epoch tag under which its stream reports.
#[derive(Debug, PartialEq, Eq)]
pub struct LobbyConn {
    id: u64,
}

impl LobbyConn {
    pub closed spec fn spec_id(&self) -> u64 {
        self.id
    }

    #[verifier::when_used_as_spec(spec_id)]
    pub fn id(&self) -> (res: u64)
        ensures
            res == self.spec_id(),
    {
        self.id
    }
}

/// The coordinator's cells as plain values.
pub struct ControllerView {
    /// The id that the next connection gets.
    pub next_id: u64,
    /// The id of the live connection, if there is one.
    pub conn: Option<u64>,
    pub session: Option<PlayerSession>,
    pub game_info: Option<Arc<LobbyGameInfo>>,
}

/// The id after `id`; the counter wraps.
pub open spec fn next_conn_id(id: u64) -> u64 {
    if id == u64::MAX {
        0
    } else {
        (id + 1) as u64
    }
}

/// The cells after the connection `id` was asked to leave: it leaves if it
/// is the live one, and nothing changes otherwise.
pub open spec fn without_conn(s: ControllerView, id: u64) -> ControllerView {
    if s.conn == Some(id) {
        ControllerView { conn: None, ..s }
    } else {
        s
    }
}

/// The cells after the connection `id` ended, by a disconnect or by an
/// error: if it is the live one it leaves and takes the session with it,
/// and nothing changes otherwise.
pub open spec fn without_live(s: ControllerView, id: u64) -> ControllerView {
    if s.conn == Some(id) {
        ControllerView { conn: None, session: None, ..s }
    } else {
        s
    }
}

/// The actions that removing connection `id` asks for.
pub open spec fn close_actions(s: ControllerView, id: u64) -> Seq<Action> {
    if s.conn == Some(id) {
        seq![Action::CloseLobbyConn { id }]
    } else {
        seq![]
    }
}

/// Send `frame` on the live connection, or discard it when there is none.
pub open spec fn dispatch_frame(s: ControllerView, frame: LobbyFrame) -> Seq<Action> {
    match s.conn {
        Some(conn_id) => seq![Action::SendLobbyFrame { conn_id, frame }],
        None => seq![],
    }
}

/// The reaction to a game-start notice: a query for the local client's
/// data when the cached game is the one that starts, nothing otherwise.
pub open spec fn game_start_actions(s: ControllerView, game_id: i32) -> Seq<Action> {
    match s.game_info {
        Some(info) if info.game_id == game_id => seq![
            Action::QueryClientInfo { game_id, map_path: info.map_path },
        ],
        _ => seq![],
    }
}

/// Cells and actions after an event of the local control socket.
pub open spec fn ws_step(s: ControllerView, e: WsEvent) -> (ControllerView, Seq<Action>) {
    match e {
        WsEvent::ConnectLobbyEvent { token } => (
            ControllerView { next_id: next_conn_id(s.next_id), conn: Some(s.next_id), ..s },
            match s.conn {
                Some(previous) => seq![
                    Action::CloseLobbyConn { id: previous },
                    Action::OpenLobbyConn { id: s.next_id, token },
                ],
                None => seq![Action::OpenLobbyConn { id: s.next_id, token }],
            },
        ),
        WsEvent::LobbyFrameEvent(frame) => (s, dispatch_frame(s, LobbyFrame::Raw(frame))),
        WsEvent::WorkerErrorEvent(err) => (
            s,
            seq![Action::Emit(ControllerEvent::WsWorkerErrorEvent(err))],
        ),
    }
}

/// Cells and actions after an event of the lobby stream.
pub open spec fn stream_step(s: ControllerView, e: ControllerStreamEvent) -> (
    ControllerView,
    Seq<Action>,
) {
    match e {
        ControllerStreamEvent::ConnectedEvent => (
            s,
            seq![Action::Emit(ControllerEvent::ConnectedEvent)],
        ),
        ControllerStreamEvent::DisconnectedEvent(id) => (
            without_live(s, id),
            if s.conn == Some(id) {
                seq![
                    Action::CloseLobbyConn { id },
                    Action::Emit(ControllerEvent::DisconnectedEvent),
                ]
            } else {
                seq![]
            },
        ),
        ControllerStreamEvent::ConnectionErrorEvent(id, err) => (
            without_live(s, id),
            (seq![Action::LogError(Diagnostic::ServerConnection(err))] + close_actions(
                s,
                id,
            )).push(Action::Emit(ControllerEvent::DisconnectedEvent)),
        ),
        ControllerStreamEvent::PlayerSessionUpdateEvent(PlayerSessionUpdateEvent::Full(session)) => (
            ControllerView { session: Some(session), ..s },
            seq![],
        ),
        ControllerStreamEvent::PlayerSessionUpdateEvent(
            PlayerSessionUpdateEvent::Partial(update),
        ) => match s.session {
            Some(current) => (
                ControllerView {
                    session: Some(
                        PlayerSession { game_id: update.game_id, status: update.status, ..current },
                    ),
                    ..s
                },
                seq![],
            ),
            None => (s, seq![Action::LogError(Diagnostic::NoActiveSession)]),
        },
        ControllerStreamEvent::GameInfoUpdateEvent(game_info) => (
            ControllerView { game_info, ..s },
            seq![Action::Emit(ControllerEvent::GameInfoUpdateEvent(game_info))],
        ),
        ControllerStreamEvent::GameStartingEvent { game_id } => (s, game_start_actions(s, game_id)),
        ControllerStreamEvent::GameStartedEvent(started) => (
            s,
            match s.game_info {
                Some(info) => seq![Action::Emit(ControllerEvent::GameStartedEvent(started, info))],
                None => seq![
                    Action::LogError(
                        Diagnostic::GameInfoUnavailable {
                            node_id: started.node_id,
                            game_id: started.game_id,
                        },
                    ),
                ],
            },
        ),
    }
}

/// `a` uploads the one measurement `node_id -> ping` for `game_id` on
/// connection `conn_id`.
pub open spec fn is_ping_upload(a: Action, conn_id: u64, game_id: i32, node_id: i32, ping: u32) -> bool {
    match a {
        Action::SendLobbyFrame { conn_id: c, frame: LobbyFrame::PingMapUpdate { game_id: g, ping_map } } => {
            c == conn_id && g == game_id && ping_map@ == Map::<i32, u32>::empty().insert(node_id, ping)
        },
        _ => false,
    }
}

/// `a` carries a ping-map upload.
pub open spec fn carries_ping_map(a: Action) -> bool {
    a matches Action::SendLobbyFrame { frame: LobbyFrame::PingMapUpdate { .. }, .. }
}

/// `a` tells the UI behind connection `conn_id` that the lobby connection
/// was lost for an unknown reason.
pub open spec fn is_disconnect_notice(a: Action, conn_id: u64) -> bool {
    match a {
        Action::SendWs { conn_id: c, message: OutgoingMessage::Disconnect(d) } => {
            c == conn_id && d.reason == DisconnectReason::Unknown && d.message@
                == "Connection closed unexpectedly."@
        },
        _ => false,
    }
}

/// What a ping update asks for, given the game id that the live
/// connection's stream reports: nothing without a connection; else the
/// update for the UI, followed by an upload when the probe succeeded and
/// the stream is in a game.
pub open spec fn ping_reaction(
    s: ControllerView,
    update: PingUpdate,
    stream_game_id: Option<i32>,
    actions: Seq<Action>,
) -> bool {
    match s.conn {
        None => actions.len() == 0,
        Some(conn_id) => {
            &&& actions.len() >= 1
            &&& actions[0] == Action::SendWs { conn_id, message: OutgoingMessage::PingUpdate(update) }
            &&& match (update.ping, stream_game_id) {
                (Some(ping), Some(game_id)) => actions.len() == 2 && is_ping_upload(
                    actions[1],
                    conn_id,
                    game_id,
                    update.node_id,
                    ping,
                ),
                _ => actions.len() == 1,
            }
        },
    }
}

/// Shares a game snapshot with one more reader.
///
/// Trusted: calls `Arc::clone`, which returns another pointer to the same
/// allocation, so the new handle reads the same snapshot as `info`.
#[verifier::external_body]
fn share_game_info(info: &Arc<LobbyGameInfo>) -> (res: Arc<LobbyGameInfo>)
    ensures
        res == *info,
{
    Arc::clone(info)
}

/// The coordinator state: the live lobby connection, the player session and
/// the joined game, with the counter that numbers connections.
#[derive(Debug)]
pub struct ControllerClient {
    id_counter: u64,
    conn: Option<LobbyConn>,
    current_game_info: Option<Arc<LobbyGameInfo>>,
    current_session: Option<PlayerSession>,
}

/// Read access to the coordinator's session and game.
#[derive(Debug, Clone, Copy)]
pub struct ControllerClientHandle<'a>(&'a ControllerClient);

impl View for ControllerClient {
    type V = ControllerView;

    closed spec fn view(&self) -> ControllerView {
        ControllerView {
            next_id: self.id_counter,
            conn: match self.conn {
                Some(c) => Some(c.id),
                None => None,
            },
            session: self.current_session,
            game_info: self.current_game_info,
        }
    }
}

impl<'a> ControllerClientHandle<'a> {
    /// The coordinator that this handle reads.
    pub closed spec fn client(&self) -> ControllerClient {
        *self.0
    }

    /// The snapshot of the joined game, if the player has joined one.
    pub fn current_game_info(&self) -> (res: Option<Arc<LobbyGameInfo>>)
        ensures
            res == self.client()@.game_info,
    {
        match &self.0.current_game_info {
            Some(info) => Some(share_game_info(info)),
            None => None,
        }
    }

    /// Applies `f` to the player session, if there is one.
    pub fn with_player_session<F, R>(&self, f: F) -> (res: Option<R>) where
        F: FnOnce(&PlayerSession) -> R,

        requires
            self.client()@.session matches Some(session) ==> f.requires((&session,)),
        ensures
            match self.client()@.session {
                Some(session) => res matches Some(r) && f.ensures((&session,), r),
                None => res is None,
            },
    {
        match &self.0.current_session {
            Some(session) => Some(f(session)),
            None => None,
        }
    }
}

impl ControllerClient {
    /// A coordinator with no connection, no session and no game, whose first
    /// connection gets id 0.
    pub fn init() -> (res: Self)
        ensures
            res@ == (ControllerView { next_id: 0, conn: None, session: None, game_info: None }),
    {
        ControllerClient { id_counter: 0, conn: None, current_game_info: None, current_session: None }
    }

    /// A handle for reading the session and the game.
    pub fn handle(&self) -> (res: ControllerClientHandle<'_>)
        ensures
            res.client() == *self,
    {
        ControllerClientHandle(self)
    }

    /// The live connection, if there is one.
    pub fn conn(&self) -> (res: Option<&LobbyConn>)
        ensures
            match res {
                Some(c) => self@.conn == Some(c.id()),
                None => self@.conn is None,
            },
    {
        self.conn.as_ref()
    }

    /// The id of the live connection, if there is one.
    pub fn conn_id(&self) -> (res: Option<u64>)
        ensures
            res == self@.conn,
    {
        match &self.conn {
            Some(c) => Some(c.id),
            None => None,
        }
    }

    /// Sends `frame` on the live connection; without one the frame is
    /// discarded. The returned action obliges the caller to report a failed
    /// send to the UI (see `frame_send_failed`).
    pub fn send_frame_or_disconnect_ws(&self, frame: LobbyFrame) -> (actions: Vec<Action>)
        ensures
            actions@ == dispatch_frame(self@, frame),
    {
        let mut actions: Vec<Action> = Vec::new();
        if let Some(conn) = &self.conn {
            actions.push(Action::SendLobbyFrame { conn_id: conn.id, frame });
        }
        proof {
            assert(actions@ =~= dispatch_frame(self@, frame));
        }
        actions
    }

    /// What follows a failed frame send on connection `conn_id`: the UI
    /// behind that connection is told that the connection was lost.
    pub fn frame_send_failed(conn_id: u64) -> (action: Action)
        ensures
            is_disconnect_notice(action, conn_id),
    {
        Action::SendWs {
            conn_id,
            message: OutgoingMessage::Disconnect(
                Disconnect {
                    reason: DisconnectReason::Unknown,
                    message: "Connection closed unexpectedly.".to_owned(),
                },
            ),
        }
    }

    /// Reacts to an event of the local control socket.
    pub fn handle_ws_event(&mut self, event: WsEvent) -> (actions: Vec<Action>)
        ensures
            final(self)@ == ws_step(old(self)@, event).0,
            actions@ == ws_step(old(self)@, event).1,
    {
        match event {
            WsEvent::ConnectLobbyEvent { token } => {
                let mut actions: Vec<Action> = Vec::new();
                let id: u64 = self.id_counter;
                self.id_counter = if id == u64::MAX {
                    0
                } else {
                    id + 1
                };
                if let Some(previous) = self.conn.take() {
                    actions.push(Action::CloseLobbyConn { id: previous.id });
                }
                self.conn = Some(LobbyConn { id });
                actions.push(Action::OpenLobbyConn { id, token });
                proof {
                    assert(actions@ =~= ws_step(old(self)@, event).1);
                }
                actions
            },
            WsEvent::LobbyFrameEvent(frame) => self.send_frame_or_disconnect_ws(
                LobbyFrame::Raw(frame),
            ),
            WsEvent::WorkerErrorEvent(err) => {
                let mut actions: Vec<Action> = Vec::new();
                actions.push(Action::Emit(ControllerEvent::WsWorkerErrorEvent(err)));
                proof {
                    assert(actions@ =~= ws_step(old(self)@, event).1);
                }
                actions
            },
        }
    }

    /// Takes the live connection out if its id is `id`.
    fn remove_conn(&mut self, id: u64) -> (res: Option<LobbyConn>)
        ensures
            final(self)@ == without_conn(old(self)@, id),
            match res {
                Some(conn) => old(self)@.conn == Some(id) && conn.id == id,
                None => old(self)@.conn != Some(id),
            },
    {
        let current: Option<u64> = self.conn_id();
        if current == Some(id) {
            self.conn.take()
        } else {
            None
        }
    }

    /// Reacts to an event of the lobby stream.
    pub fn handle_stream_event(&mut self, event: ControllerStreamEvent) -> (actions: Vec<Action>)
        ensures
            final(self)@ == stream_step(old(self)@, event).0,
            actions@ == stream_step(old(self)@, event).1,
    {
        let mut actions: Vec<Action> = Vec::new();
        match event {
            ControllerStreamEvent::ConnectedEvent => {
                actions.push(Action::Emit(ControllerEvent::ConnectedEvent));
            },
            ControllerStreamEvent::DisconnectedEvent(id) => {
                if let Some(removed) = self.remove_conn(id) {
                    self.current_session = None;
                    actions.push(Action::CloseLobbyConn { id: removed.id });
                    actions.push(Action::Emit(ControllerEvent::DisconnectedEvent));
                }
            },
            ControllerStreamEvent::ConnectionErrorEvent(id, err) => {
                actions.push(Action::LogError(Diagnostic::ServerConnection(err)));
                if let Some(removed) = self.remove_conn(id) {
                    self.current_session = None;
                    actions.push(Action::CloseLobbyConn { id: removed.id });
                }
                actions.push(Action::Emit(ControllerEvent::DisconnectedEvent));
            },
            ControllerStreamEvent::PlayerSessionUpdateEvent(update) => match update {
                PlayerSessionUpdateEvent::Full(session) => {
                    self.current_session = Some(session);
                },
                PlayerSessionUpdateEvent::Partial(update) => {
                    match self.current_session.take() {
                        Some(current) => {
                            self.current_session = Some(
                                PlayerSession {
                                    player_id: current.player_id,
                                    player_name: current.player_name,
                                    game_id: update.game_id,
                                    status: update.status,
                                },
                            );
                        },
                        None => {
                            actions.push(Action::LogError(Diagnostic::NoActiveSession));
                        },
                    }
                },
            },
            ControllerStreamEvent::GameInfoUpdateEvent(game_info) => {
                let shared: Option<Arc<LobbyGameInfo>> = match &game_info {
                    Some(info) => Some(share_game_info(info)),
                    None => None,
                };
                self.current_game_info = game_info;
                actions.push(Action::Emit(ControllerEvent::GameInfoUpdateEvent(shared)));
            },
            ControllerStreamEvent::GameStartingEvent { game_id } => {
                actions = self.handle_game_start(game_id);
            },
            ControllerStreamEvent::GameStartedEvent(started) => {
                match &self.current_game_info {
                    Some(info) => {
                        let shared = share_game_info(info);
                        actions.push(Action::Emit(ControllerEvent::GameStartedEvent(started, shared)));
                    },
                    None => {
                        actions.push(
                            Action::LogError(
                                Diagnostic::GameInfoUnavailable {
                                    node_id: started.node_id,
                                    game_id: started.game_id,
                                },
                            ),
                        );
                    },
                }
            },
        }
        proof {
            assert(actions@ =~= stream_step(old(self)@, event).1);
        }
        actions
    }

    /// Reacts to a round-trip measurement. `stream_game_id` is the game id
    /// that the live connection's stream reports at this moment.
    pub fn handle_ping_update(&self, update: PingUpdate, stream_game_id: Option<i32>) -> (actions:
        Vec<Action>)
        ensures
            ping_reaction(self@, update, stream_game_id, actions@),
    {
        let mut actions: Vec<Action> = Vec::new();
        let conn_id: u64 = match &self.conn {
            Some(conn) => conn.id,
            None => {
                return actions;
            },
        };
        actions.push(Action::SendWs { conn_id, message: OutgoingMessage::PingUpdate(update) });
        if let Some(ping) = update.ping {
            if let Some(game_id) = stream_game_id {
                let mut ping_map: HashMap<i32, u32> = HashMap::new();
                ping_map.insert(update.node_id, ping);
                actions.push(
                    Action::SendLobbyFrame {
                        conn_id,
                        frame: LobbyFrame::PingMapUpdate { game_id, ping_map },
                    },
                );
            }
        }
        actions
    }

    /// First step of a game start: asks for the local client's data when
    /// the cached game is the one that starts. A notice for any other game,
    /// or with no game cached, is stale and ignored.
    pub fn handle_game_start(&self, game_id: i32) -> (actions: Vec<Action>)
        ensures
            actions@ == game_start_actions(self@, game_id),
    {
        let mut actions: Vec<Action> = Vec::new();
        if let Some(info) = &self.current_game_info {
            if info.game_id == game_id {
                actions.push(Action::QueryClientInfo { game_id, map_path: info.map_path.clone() });
            }
        }
        proof {
            assert(actions@ =~= game_start_actions(self@, game_id));
        }
        actions
    }

    /// Second step of a game start: the version of the local game binary,
    /// or `War3NotLocated` when the platform knows of none.
    pub fn game_start_version(version: Option<String>) -> (res: Result<String, Error>)
        ensures
            res == match version {
                Some(v) => Ok::<String, Error>(v),
                None => Err::<String, Error>(Error::War3NotLocated),
            },
    {
        match version {
            Some(v) => Ok(v),
            None => Err(Error::War3NotLocated),
        }
    }

    /// Last step of a game start: reports version and map hash to the lobby
    /// on the live connection. A failed map lookup abandons the start and is
    /// handed back for logging.
    pub fn send_client_info(
        &self,
        game_id: i32,
        war3_version: String,
        map_sha1: Result<[u8; 20], Error>,
    ) -> (res: Result<Vec<Action>, Error>)
        ensures
            match map_sha1 {
                Ok(sha1) => res matches Ok(actions) && actions@ == dispatch_frame(
                    self@,
                    LobbyFrame::GameStartPlayerClientInfo { game_id, war3_version, map_sha1: sha1 },
                ),
                Err(e) => res == Err::<Vec<Action>, Error>(e),
            },
    {
        match map_sha1 {
            Ok(sha1) => Ok(
                self.send_frame_or_disconnect_ws(
                    LobbyFrame::GameStartPlayerClientInfo { game_id, war3_version, map_sha1: sha1 },
                ),
            ),
            Err(e) => Err(e),
        }
    }
}

} // verus!
