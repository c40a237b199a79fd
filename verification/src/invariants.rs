//! What holds of the coordinator in every state and after every event.

use crate::controller::{
    carries_ping_map, ping_reaction, stream_step, ws_step, Action, ControllerEvent,
    ControllerStreamEvent, ControllerView, Diagnostic, WsEvent,
};
use crate::types::{LobbyGameInfo, PingUpdate};
use std::sync::Arc;
use vstd::prelude::*;

verus! {

/// The connections that a caller holds open as a set of ids.
pub open spec fn conn_set(conn: Option<u64>) -> Set<u64> {
    match conn {
        Some(id) => Set::<u64>::empty().insert(id),
        None => Set::<u64>::empty(),
    }
}

/// The open connections after the caller carried out `a`.
pub open spec fn after_action(live: Set<u64>, a: Action) -> Set<u64> {
    match a {
        Action::OpenLobbyConn { id, .. } => live.insert(id),
        Action::CloseLobbyConn { id } => live.remove(id),
        _ => live,
    }
}

/// The open connections after the caller carried out the first `k` of
/// `actions`, having started with `live`.
pub open spec fn live_after(live: Set<u64>, actions: Seq<Action>, k: int) -> Set<u64>
    decreases k,
{
    if k <= 0 {
        live
    } else {
        after_action(live_after(live, actions, k - 1), actions[k - 1])
    }
}

pub open spec fn at_most_one(live: Set<u64>) -> bool {
    forall|a: u64, b: u64| live.contains(a) && live.contains(b) ==> a == b
}

/// A caller that holds exactly the coordinator's connection open, and
/// carries out the actions of a control-socket event one by one, holds at
/// most one connection open at every moment, and in the end again exactly
/// the coordinator's.
pub proof fn lemma_single_conn_ws(s: ControllerView, e: WsEvent)
    ensures
        forall|k: int|
            0 <= k <= ws_step(s, e).1.len() ==> at_most_one(
                #[trigger] live_after(conn_set(s.conn), ws_step(s, e).1, k),
            ),
        live_after(conn_set(s.conn), ws_step(s, e).1, ws_step(s, e).1.len() as int) == conn_set(
            ws_step(s, e).0.conn,
        ),
{
    reveal_with_fuel(live_after, 4);
    let actions = ws_step(s, e).1;
    let live = conn_set(s.conn);
    assert(actions.len() <= 2);
    assert(live_after(live, actions, actions.len() as int) =~= conn_set(ws_step(s, e).0.conn));
    assert forall|k: int| 0 <= k <= actions.len() implies at_most_one(
        #[trigger] live_after(live, actions, k),
    ) by {
        assert(k == 0 || k == 1 || k == 2);
    }
}

/// The same for an event of the lobby stream.
pub proof fn lemma_single_conn_stream(s: ControllerView, e: ControllerStreamEvent)
    ensures
        forall|k: int|
            0 <= k <= stream_step(s, e).1.len() ==> at_most_one(
                #[trigger] live_after(conn_set(s.conn), stream_step(s, e).1, k),
            ),
        live_after(conn_set(s.conn), stream_step(s, e).1, stream_step(s, e).1.len() as int)
            == conn_set(stream_step(s, e).0.conn),
{
    reveal_with_fuel(live_after, 5);
    let actions = stream_step(s, e).1;
    let live = conn_set(s.conn);
    assert(actions.len() <= 3);
    assert(live_after(live, actions, actions.len() as int) =~= conn_set(
        stream_step(s, e).0.conn,
    ));
    assert forall|k: int| 0 <= k <= actions.len() implies at_most_one(
        #[trigger] live_after(live, actions, k),
    ) by {
        assert(k == 0 || k == 1 || k == 2 || k == 3);
    }
}

/// The ids handed out so far lie below the counter.
pub open spec fn ids_below_counter(s: ControllerView) -> bool {
    s.conn matches Some(id) ==> id < s.next_id
}

/// A connect request gives the new connection the counter's value, which
/// no live connection bears as long as the counter has not wrapped; and the
/// ids stay below the counter until it does.
pub proof fn lemma_connect_takes_fresh_id(s: ControllerView, token: String)
    requires
        ids_below_counter(s),
    ensures
        ws_step(s, WsEvent::ConnectLobbyEvent { token }).0.conn == Some(s.next_id),
        s.conn != Some(s.next_id),
        s.next_id < u64::MAX ==> ids_below_counter(
            ws_step(s, WsEvent::ConnectLobbyEvent { token }).0,
        ),
{
}

/// No event but a connect request changes the counter, and none but a
/// connect request brings a connection to life.
pub proof fn lemma_only_connect_opens(s: ControllerView, w: WsEvent, e: ControllerStreamEvent)
    ensures
        stream_step(s, e).0.next_id == s.next_id,
        stream_step(s, e).0.conn == s.conn || stream_step(s, e).0.conn is None,
        !(w is ConnectLobbyEvent) ==> ws_step(s, w).0 == s,
        ids_below_counter(s) ==> ids_below_counter(stream_step(s, e).0),
{
}

/// A connection error that names another connection than the live one
/// changes none of the coordinator's cells.
pub proof fn lemma_stale_connection_error_ignored(s: ControllerView, id: u64, err: crate::error::Error)
    requires
        s.conn != Some(id),
    ensures
        stream_step(s, ControllerStreamEvent::ConnectionErrorEvent(id, err)).0 == s,
{
}

/// A disconnect that names another connection than the live one changes
/// none of the coordinator's cells, whatever they hold.
pub proof fn lemma_stale_disconnect_ignored(s: ControllerView, id: u64)
    requires
        s.conn != Some(id),
    ensures
        stream_step(s, ControllerStreamEvent::DisconnectedEvent(id)).0 == s,
{
}

/// A disconnect that names another connection than the live one asks for
/// no action: nothing is closed and nothing is reported outward.
pub proof fn lemma_stale_disconnect_silent(s: ControllerView, id: u64)
    requires
        s.conn != Some(id),
    ensures
        stream_step(s, ControllerStreamEvent::DisconnectedEvent(id)).1 == Seq::<Action>::empty(),
{
}

/// In whatever state the disconnect of the live connection arrives, it
/// leaves the coordinator without session and without connection, and is
/// reported outward once.
pub proof fn lemma_disconnect_clears(s: ControllerView, id: u64)
    requires
        s.conn == Some(id),
    ensures
        stream_step(s, ControllerStreamEvent::DisconnectedEvent(id)).0.session is None,
        stream_step(s, ControllerStreamEvent::DisconnectedEvent(id)).0.conn is None,
        stream_step(s, ControllerStreamEvent::DisconnectedEvent(id)).1 == seq![
            Action::CloseLobbyConn { id },
            Action::Emit(ControllerEvent::DisconnectedEvent),
        ],
{
}

/// In whatever state an error of the live connection arrives, it leaves
/// the coordinator without session and without connection, and is reported
/// outward as one disconnect.
pub proof fn lemma_connection_error_clears(s: ControllerView, id: u64, err: crate::error::Error)
    requires
        s.conn == Some(id),
    ensures
        stream_step(s, ControllerStreamEvent::ConnectionErrorEvent(id, err)).0.session is None,
        stream_step(s, ControllerStreamEvent::ConnectionErrorEvent(id, err)).0.conn is None,
        stream_step(s, ControllerStreamEvent::ConnectionErrorEvent(id, err)).0.game_info
            == s.game_info,
        stream_step(s, ControllerStreamEvent::ConnectionErrorEvent(id, err)).1 == seq![
            Action::LogError(Diagnostic::ServerConnection(err)),
            Action::CloseLobbyConn { id },
            Action::Emit(ControllerEvent::DisconnectedEvent),
        ],
{
    assert(stream_step(s, ControllerStreamEvent::ConnectionErrorEvent(id, err)).1 =~= seq![
        Action::LogError(Diagnostic::ServerConnection(err)),
        Action::CloseLobbyConn { id },
        Action::Emit(ControllerEvent::DisconnectedEvent),
    ]);
}

/// The cached game changes only by a game-info update of the lobby stream,
/// and then to the snapshot that the update carries, as a whole.
pub proof fn lemma_game_info_replaced_whole(s: ControllerView, e: ControllerStreamEvent)
    ensures
        stream_step(s, e).0.game_info == match e {
            ControllerStreamEvent::GameInfoUpdateEvent(game_info) => game_info,
            _ => s.game_info,
        },
{
}

/// No event of the control socket touches the cached game or the session.
pub proof fn lemma_ws_keeps_game_and_session(s: ControllerView, e: WsEvent)
    ensures
        ws_step(s, e).0.game_info == s.game_info,
        ws_step(s, e).0.session == s.session,
{
}

/// A ping update leads to a ping-map upload if and only if the probe
/// succeeded, a lobby connection is live and its stream reports a game.
pub proof fn lemma_ping_upload_gate(
    s: ControllerView,
    update: PingUpdate,
    stream_game_id: Option<i32>,
    actions: Seq<Action>,
)
    requires
        ping_reaction(s, update, stream_game_id, actions),
    ensures
        (exists|i: int| 0 <= i < actions.len() && carries_ping_map(#[trigger] actions[i])) <==> (
        update.ping is Some && s.conn is Some && stream_game_id is Some),
{
    if update.ping is Some && s.conn is Some && stream_game_id is Some {
        assert(carries_ping_map(actions[1]));
    }
}

/// No event of the control socket or of the lobby stream leads to a
/// ping-map upload.
pub proof fn lemma_only_pings_upload(s: ControllerView, w: WsEvent, e: ControllerStreamEvent)
    ensures
        forall|i: int| 0 <= i < ws_step(s, w).1.len() ==> !carries_ping_map(#[trigger] ws_step(s, w).1[i]),
        forall|i: int|
            0 <= i < stream_step(s, e).1.len() ==> !carries_ping_map(
                #[trigger] stream_step(s, e).1[i],
            ),
{
}

/// An event of any of the coordinator's three sources.
pub enum Event {
    Ws(WsEvent),
    Stream(ControllerStreamEvent),
    /// A ping update, with the game id that the stream reported with it.
    Ping(PingUpdate, Option<i32>),
}

/// The cells after one event. A ping update is handled on a shared
/// borrow and changes none of them.
pub open spec fn event_step(s: ControllerView, e: Event) -> ControllerView {
    match e {
        Event::Ws(w) => ws_step(s, w).0,
        Event::Stream(x) => stream_step(s, x).0,
        Event::Ping(_, _) => s,
    }
}

/// The cells after the first `k` of `events` were handled one after the
/// other, starting from `s`.
pub open spec fn view_after(s: ControllerView, events: Seq<Event>, k: int) -> ControllerView
    decreases k,
{
    if k <= 0 {
        s
    } else {
        event_step(view_after(s, events, k - 1), events[k - 1])
    }
}

/// The snapshot that the last game-info update among the first `k` of
/// `events` carried, or `initial` if there was none.
pub open spec fn last_delivered(
    initial: Option<Arc<LobbyGameInfo>>,
    events: Seq<Event>,
    k: int,
) -> Option<Arc<LobbyGameInfo>>
    decreases k,
{
    if k <= 0 {
        initial
    } else {
        match events[k - 1] {
            Event::Stream(ControllerStreamEvent::GameInfoUpdateEvent(game_info)) => game_info,
            _ => last_delivered(initial, events, k - 1),
        }
    }
}

/// After any sequence of events from the three sources, in whatever order
/// they were interleaved, the cached game is the snapshot that the last
/// game-info update delivered, whole, or the one held at the start if none
/// was delivered. A reader therefore sees delivered snapshots only, each no
/// older than the one it saw before.
pub proof fn lemma_game_info_is_last_delivered(s: ControllerView, events: Seq<Event>, k: int)
    requires
        0 <= k <= events.len(),
    ensures
        view_after(s, events, k).game_info == last_delivered(s.game_info, events, k),
    decreases k,
{
    if k > 0 {
        lemma_game_info_is_last_delivered(s, events, k - 1);
    }
}

/// After any sequence of events that ends in the disconnect of the then
/// live connection, the coordinator holds neither session nor connection.
pub proof fn lemma_trace_ending_in_disconnect(
    s: ControllerView,
    events: Seq<Event>,
    k: int,
    id: u64,
)
    requires
        1 <= k <= events.len(),
        events[k - 1] == Event::Stream(ControllerStreamEvent::DisconnectedEvent(id)),
        view_after(s, events, k - 1).conn == Some(id),
    ensures
        view_after(s, events, k).session is None,
        view_after(s, events, k).conn is None,
{
}

} // verus!
