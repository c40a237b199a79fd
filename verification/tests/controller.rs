use flo_client::controller::{
    Action, ControllerClient, ControllerEvent, ControllerStreamEvent, Diagnostic, LobbyFrame,
    WsEvent,
};
use flo_client::error::Error;
use flo_client::types::{
    Disconnect, DisconnectReason, Frame, GameStartedEvent, LobbyGameInfo, OutgoingMessage,
    PingUpdate, PlayerInfo, PlayerSession, PlayerSessionUpdate, PlayerSessionUpdateEvent,
    PlayerStatus,
};
use std::collections::HashMap;
use std::sync::Arc;

fn connect(token: &str) -> WsEvent {
    WsEvent::ConnectLobbyEvent {
        token: token.to_string(),
    }
}

fn zero_token() -> String {
    String::from_utf8(vec![0u8; 16]).unwrap()
}

fn session(player_id: i32, status: PlayerStatus) -> PlayerSession {
    PlayerSession {
        player_id,
        player_name: "player".to_string(),
        game_id: None,
        status,
    }
}

fn game(game_id: i32) -> Arc<LobbyGameInfo> {
    let mut players: HashMap<i32, PlayerInfo> = HashMap::new();
    players.insert(
        7,
        PlayerInfo {
            id: 7,
            name: "player".to_string(),
        },
    );
    Arc::new(LobbyGameInfo {
        game_id,
        map_path: "maps/frozenthrone/(2)echoisles.w3x".to_string(),
        map_sha1: [9u8; 20],
        map_checksum: 0xdead_beef,
        players,
        host_player: None,
    })
}

fn emitted(actions: &[Action]) -> Vec<&ControllerEvent> {
    let mut out = Vec::new();
    for action in actions {
        if let Action::Emit(event) = action {
            out.push(event);
        }
    }
    out
}

#[test]
fn init_is_empty() {
    let client = ControllerClient::init();
    assert_eq!(client.conn_id(), None);
    assert_eq!(client.handle().current_game_info(), None);
    assert_eq!(client.handle().with_player_session(|s| s.player_id), None);
}

#[test]
fn clean_connect_session_disconnect() {
    let mut client = ControllerClient::init();
    let mut all: Vec<Action> = Vec::new();
    all.extend(client.handle_ws_event(connect(&zero_token())));
    assert_eq!(
        all,
        vec![Action::OpenLobbyConn {
            id: 0,
            token: zero_token()
        }]
    );
    assert_eq!(client.conn_id(), Some(0));
    all.extend(client.handle_stream_event(ControllerStreamEvent::ConnectedEvent));
    all.extend(client.handle_stream_event(
        ControllerStreamEvent::PlayerSessionUpdateEvent(PlayerSessionUpdateEvent::Full(session(
            7,
            PlayerStatus::Idle,
        ))),
    ));
    assert_eq!(
        client.handle().with_player_session(|s| (s.player_id, s.status)),
        Some((7, PlayerStatus::Idle))
    );
    all.extend(client.handle_stream_event(ControllerStreamEvent::DisconnectedEvent(0)));
    assert_eq!(
        emitted(&all),
        vec![
            &ControllerEvent::ConnectedEvent,
            &ControllerEvent::DisconnectedEvent
        ]
    );
    assert_eq!(client.handle().with_player_session(|s| s.player_id), None);
    assert_eq!(client.conn_id(), None);
    assert_eq!(all[2], Action::CloseLobbyConn { id: 0 });
}

#[test]
fn stale_disconnect_keeps_the_connection() {
    let mut client = ControllerClient::init();
    client.handle_ws_event(connect("a"));
    client.handle_stream_event(ControllerStreamEvent::ConnectedEvent);
    let second = client.handle_ws_event(connect("b"));
    assert_eq!(
        second,
        vec![
            Action::CloseLobbyConn { id: 0 },
            Action::OpenLobbyConn {
                id: 1,
                token: "b".to_string()
            }
        ]
    );
    client.handle_stream_event(ControllerStreamEvent::PlayerSessionUpdateEvent(
        PlayerSessionUpdateEvent::Full(session(7, PlayerStatus::Idle)),
    ));
    client.handle_stream_event(ControllerStreamEvent::GameInfoUpdateEvent(Some(game(10))));
    let actions = client.handle_stream_event(ControllerStreamEvent::DisconnectedEvent(0));
    assert_eq!(client.conn_id(), Some(1));
    assert_eq!(client.handle().with_player_session(|s| s.player_id), Some(7));
    assert_eq!(client.handle().current_game_info(), Some(game(10)));
    assert!(!actions
        .iter()
        .any(|a| matches!(a, Action::Emit(ControllerEvent::DisconnectedEvent))));
    assert_eq!(actions, vec![]);
    let actions = client.handle_stream_event(ControllerStreamEvent::DisconnectedEvent(1));
    assert_eq!(
        actions,
        vec![
            Action::CloseLobbyConn { id: 1 },
            Action::Emit(ControllerEvent::DisconnectedEvent)
        ]
    );
    assert_eq!(client.conn_id(), None);
    assert_eq!(client.handle().with_player_session(|s| s.player_id), None);
    assert_eq!(client.handle().current_game_info(), Some(game(10)));
}

#[test]
fn disconnect_without_connection_is_ignored() {
    let mut client = ControllerClient::init();
    client.handle_stream_event(ControllerStreamEvent::PlayerSessionUpdateEvent(
        PlayerSessionUpdateEvent::Full(session(7, PlayerStatus::Idle)),
    ));
    assert_eq!(
        client.handle_stream_event(ControllerStreamEvent::DisconnectedEvent(0)),
        vec![]
    );
    assert_eq!(client.conn_id(), None);
    assert_eq!(client.handle().with_player_session(|s| s.player_id), Some(7));
}

#[test]
fn stale_connection_error_changes_nothing() {
    let mut client = ControllerClient::init();
    client.handle_ws_event(connect("a"));
    client.handle_ws_event(connect("b"));
    client.handle_stream_event(ControllerStreamEvent::PlayerSessionUpdateEvent(
        PlayerSessionUpdateEvent::Full(session(7, PlayerStatus::Idle)),
    ));
    client.handle_stream_event(ControllerStreamEvent::GameInfoUpdateEvent(Some(game(10))));
    let actions = client.handle_stream_event(ControllerStreamEvent::ConnectionErrorEvent(
        0,
        Error::StreamClosed,
    ));
    assert_eq!(
        actions,
        vec![
            Action::LogError(Diagnostic::ServerConnection(Error::StreamClosed)),
            Action::Emit(ControllerEvent::DisconnectedEvent)
        ]
    );
    assert_eq!(client.conn_id(), Some(1));
    assert_eq!(client.handle().with_player_session(|s| s.player_id), Some(7));
    assert_eq!(client.handle().current_game_info(), Some(game(10)));
}

#[test]
fn connection_error_of_the_live_connection_drops_it() {
    let mut client = ControllerClient::init();
    client.handle_ws_event(connect("a"));
    client.handle_stream_event(ControllerStreamEvent::PlayerSessionUpdateEvent(
        PlayerSessionUpdateEvent::Full(session(7, PlayerStatus::Idle)),
    ));
    let actions = client.handle_stream_event(ControllerStreamEvent::ConnectionErrorEvent(
        0,
        Error::Net("reset".to_string()),
    ));
    assert_eq!(
        actions,
        vec![
            Action::LogError(Diagnostic::ServerConnection(Error::Net("reset".to_string()))),
            Action::CloseLobbyConn { id: 0 },
            Action::Emit(ControllerEvent::DisconnectedEvent)
        ]
    );
    assert_eq!(client.conn_id(), None);
    assert_eq!(client.handle().with_player_session(|s| s.player_id), None);
}

#[test]
fn partial_update_without_session_is_dropped() {
    let mut client = ControllerClient::init();
    let actions = client.handle_stream_event(ControllerStreamEvent::PlayerSessionUpdateEvent(
        PlayerSessionUpdateEvent::Partial(PlayerSessionUpdate {
            game_id: Some(42),
            status: PlayerStatus::InGame,
        }),
    ));
    assert_eq!(actions, vec![Action::LogError(Diagnostic::NoActiveSession)]);
    assert_eq!(client.handle().with_player_session(|s| s.player_id), None);
}

#[test]
fn partial_update_changes_game_and_status_only() {
    let mut client = ControllerClient::init();
    client.handle_stream_event(ControllerStreamEvent::PlayerSessionUpdateEvent(
        PlayerSessionUpdateEvent::Full(session(7, PlayerStatus::Idle)),
    ));
    let actions = client.handle_stream_event(ControllerStreamEvent::PlayerSessionUpdateEvent(
        PlayerSessionUpdateEvent::Partial(PlayerSessionUpdate {
            game_id: Some(42),
            status: PlayerStatus::InGame,
        }),
    ));
    assert_eq!(actions, vec![]);
    let seen = client.handle().with_player_session(|s| s.clone());
    assert_eq!(
        seen,
        Some(PlayerSession {
            player_id: 7,
            player_name: "player".to_string(),
            game_id: Some(42),
            status: PlayerStatus::InGame,
        })
    );
}

#[test]
fn game_start_for_another_game_is_ignored() {
    let mut client = ControllerClient::init();
    client.handle_ws_event(connect("a"));
    let update = client.handle_stream_event(ControllerStreamEvent::GameInfoUpdateEvent(Some(
        game(10),
    )));
    assert_eq!(
        update,
        vec![Action::Emit(ControllerEvent::GameInfoUpdateEvent(Some(game(10))))]
    );
    let actions =
        client.handle_stream_event(ControllerStreamEvent::GameStartingEvent { game_id: 11 });
    assert_eq!(actions, vec![]);
    assert_eq!(client.handle_game_start(11), vec![]);
}

#[test]
fn game_start_without_game_is_ignored() {
    let mut client = ControllerClient::init();
    client.handle_ws_event(connect("a"));
    let actions =
        client.handle_stream_event(ControllerStreamEvent::GameStartingEvent { game_id: 10 });
    assert_eq!(actions, vec![]);
}

#[test]
fn game_start_for_the_joined_game_reports_client_info() {
    let mut client = ControllerClient::init();
    client.handle_ws_event(connect("a"));
    client.handle_stream_event(ControllerStreamEvent::GameInfoUpdateEvent(Some(game(10))));
    let actions =
        client.handle_stream_event(ControllerStreamEvent::GameStartingEvent { game_id: 10 });
    assert_eq!(
        actions,
        vec![Action::QueryClientInfo {
            game_id: 10,
            map_path: "maps/frozenthrone/(2)echoisles.w3x".to_string()
        }]
    );
    let version = ControllerClient::game_start_version(Some("1.32.8".to_string())).unwrap();
    let sent = client.send_client_info(10, version, Ok([3u8; 20])).unwrap();
    assert_eq!(
        sent,
        vec![Action::SendLobbyFrame {
            conn_id: 0,
            frame: LobbyFrame::GameStartPlayerClientInfo {
                game_id: 10,
                war3_version: "1.32.8".to_string(),
                map_sha1: [3u8; 20]
            }
        }]
    );
}

#[test]
fn game_start_without_local_game_fails() {
    assert_eq!(
        ControllerClient::game_start_version(None),
        Err(Error::War3NotLocated)
    );
    assert_eq!(
        ControllerClient::game_start_version(Some("1.32".to_string())),
        Ok("1.32".to_string())
    );
}

#[test]
fn game_start_with_unreadable_map_is_abandoned() {
    let mut client = ControllerClient::init();
    client.handle_ws_event(connect("a"));
    let res = client.send_client_info(
        10,
        "1.32.8".to_string(),
        Err(Error::MapUnavailable("missing".to_string())),
    );
    assert_eq!(res, Err(Error::MapUnavailable("missing".to_string())));
}

#[test]
fn client_info_without_connection_is_discarded() {
    let client = ControllerClient::init();
    assert_eq!(
        client.send_client_info(10, "1.32.8".to_string(), Ok([3u8; 20])),
        Ok(vec![])
    );
}

#[test]
fn ping_upload_gating() {
    let mut client = ControllerClient::init();
    client.handle_ws_event(connect("a"));
    let ping = PingUpdate {
        node_id: 3,
        ping: Some(42),
    };
    let first = client.handle_ping_update(ping, None);
    assert_eq!(
        first,
        vec![Action::SendWs {
            conn_id: 0,
            message: OutgoingMessage::PingUpdate(ping)
        }]
    );
    client.handle_stream_event(ControllerStreamEvent::PlayerSessionUpdateEvent(
        PlayerSessionUpdateEvent::Full(PlayerSession {
            game_id: Some(10),
            ..session(7, PlayerStatus::InGame)
        }),
    ));
    client.handle_stream_event(ControllerStreamEvent::GameInfoUpdateEvent(Some(game(10))));
    let stream_game_id = client.handle().with_player_session(|s| s.game_id).unwrap();
    assert_eq!(stream_game_id, Some(10));
    let second = client.handle_ping_update(ping, stream_game_id);
    let mut ping_map: HashMap<i32, u32> = HashMap::new();
    ping_map.insert(3, 42);
    assert_eq!(
        second,
        vec![
            Action::SendWs {
                conn_id: 0,
                message: OutgoingMessage::PingUpdate(ping)
            },
            Action::SendLobbyFrame {
                conn_id: 0,
                frame: LobbyFrame::PingMapUpdate {
                    game_id: 10,
                    ping_map
                }
            }
        ]
    );
}

#[test]
fn failed_ping_is_not_uploaded() {
    let mut client = ControllerClient::init();
    client.handle_ws_event(connect("a"));
    let ping = PingUpdate {
        node_id: 3,
        ping: None,
    };
    assert_eq!(
        client.handle_ping_update(ping, Some(10)),
        vec![Action::SendWs {
            conn_id: 0,
            message: OutgoingMessage::PingUpdate(ping)
        }]
    );
}

#[test]
fn ping_without_connection_goes_nowhere() {
    let client = ControllerClient::init();
    let ping = PingUpdate {
        node_id: 3,
        ping: Some(42),
    };
    assert_eq!(client.handle_ping_update(ping, Some(10)), vec![]);
}

#[test]
fn lobby_frame_is_forwarded_on_the_live_connection() {
    let mut client = ControllerClient::init();
    let frame = Frame {
        type_id: 5,
        payload: vec![1, 2, 3],
    };
    assert_eq!(
        client.handle_ws_event(WsEvent::LobbyFrameEvent(frame.clone())),
        vec![]
    );
    client.handle_ws_event(connect("a"));
    client.handle_ws_event(connect("b"));
    assert_eq!(
        client.handle_ws_event(WsEvent::LobbyFrameEvent(frame.clone())),
        vec![Action::SendLobbyFrame {
            conn_id: 1,
            frame: LobbyFrame::Raw(frame.clone())
        }]
    );
    assert_eq!(
        client.send_frame_or_disconnect_ws(LobbyFrame::Raw(frame.clone())),
        vec![Action::SendLobbyFrame {
            conn_id: 1,
            frame: LobbyFrame::Raw(frame)
        }]
    );
}

#[test]
fn failed_frame_send_disconnects_the_ui() {
    assert_eq!(
        ControllerClient::frame_send_failed(4),
        Action::SendWs {
            conn_id: 4,
            message: OutgoingMessage::Disconnect(Disconnect {
                reason: DisconnectReason::Unknown,
                message: "Connection closed unexpectedly.".to_string()
            })
        }
    );
}

#[test]
fn ws_worker_error_is_forwarded() {
    let mut client = ControllerClient::init();
    assert_eq!(
        client.handle_ws_event(WsEvent::WorkerErrorEvent(Error::Ws("bind".to_string()))),
        vec![Action::Emit(ControllerEvent::WsWorkerErrorEvent(Error::Ws(
            "bind".to_string()
        )))]
    );
    assert_eq!(client.conn_id(), None);
}

#[test]
fn game_started_needs_game_info() {
    let mut client = ControllerClient::init();
    let started = GameStartedEvent {
        node_id: 2,
        game_id: 10,
        player_token: vec![1u8; 16],
    };
    assert_eq!(
        client.handle_stream_event(ControllerStreamEvent::GameStartedEvent(started.clone())),
        vec![Action::LogError(Diagnostic::GameInfoUnavailable {
            node_id: 2,
            game_id: 10
        })]
    );
    client.handle_stream_event(ControllerStreamEvent::GameInfoUpdateEvent(Some(game(10))));
    assert_eq!(
        client.handle_stream_event(ControllerStreamEvent::GameStartedEvent(started.clone())),
        vec![Action::Emit(ControllerEvent::GameStartedEvent(
            started,
            game(10)
        ))]
    );
}

#[test]
fn game_info_is_replaced_as_a_whole() {
    let mut client = ControllerClient::init();
    let first = game(10);
    client.handle_stream_event(ControllerStreamEvent::GameInfoUpdateEvent(Some(first.clone())));
    let seen = client.handle().current_game_info().unwrap();
    assert!(Arc::ptr_eq(&seen, &first));
    client.handle_stream_event(ControllerStreamEvent::GameInfoUpdateEvent(Some(game(11))));
    assert_eq!(seen.game_id, 10);
    assert_eq!(client.handle().current_game_info().unwrap().game_id, 11);
    client.handle_stream_event(ControllerStreamEvent::ConnectedEvent);
    client.handle_stream_event(ControllerStreamEvent::DisconnectedEvent(0));
    assert_eq!(client.handle().current_game_info().unwrap().game_id, 11);
    let cleared = client.handle_stream_event(ControllerStreamEvent::GameInfoUpdateEvent(None));
    assert_eq!(
        cleared,
        vec![Action::Emit(ControllerEvent::GameInfoUpdateEvent(None))]
    );
    assert_eq!(client.handle().current_game_info(), None);
}

#[test]
fn connection_ids_count_up() {
    let mut client = ControllerClient::init();
    for expected in 0u64..5 {
        client.handle_ws_event(connect("t"));
        assert_eq!(client.conn_id(), Some(expected));
    }
    client.handle_stream_event(ControllerStreamEvent::DisconnectedEvent(4));
    assert_eq!(client.conn_id(), None);
    client.handle_ws_event(connect("t"));
    assert_eq!(client.conn_id(), Some(5));
}

#[test]
fn live_connection_is_readable() {
    let mut client = ControllerClient::init();
    assert!(client.conn().is_none());
    client.handle_ws_event(connect("a"));
    client.handle_ws_event(connect("b"));
    assert_eq!(client.conn().map(|c| c.id()), Some(1));
    client.handle_stream_event(ControllerStreamEvent::DisconnectedEvent(1));
    assert!(client.conn().is_none());
}

#[test]
fn reads_see_the_last_delivered_game() {
    let mut client = ControllerClient::init();
    client.handle_ws_event(connect("a"));
    let mut seen: Vec<Arc<LobbyGameInfo>> = Vec::new();
    for game_id in [10, 11, 12] {
        client.handle_stream_event(ControllerStreamEvent::GameInfoUpdateEvent(Some(game(
            game_id,
        ))));
        client.handle_ws_event(connect("b"));
        client.handle_ping_update(
            PingUpdate {
                node_id: 3,
                ping: Some(42),
            },
            Some(game_id),
        );
        client.handle_stream_event(ControllerStreamEvent::ConnectedEvent);
        let read = client.handle().current_game_info().unwrap();
        assert_eq!(read, game(game_id));
        assert_eq!(client.handle().current_game_info().unwrap(), read);
        seen.push(read);
    }
    assert_eq!(seen[0], game(10));
    assert_eq!(seen[1], game(11));
    assert_eq!(seen[2], game(12));
}
