//! Plain data exchanged between the lobby, the coordinator and the local UI.

use std::collections::HashMap;
use vstd::prelude::*;

verus! {

/// What a player is doing, as the lobby sees it.
#[derive(Debug, Clone, Copy, PartialEq, Eq, Structural)]
pub enum PlayerStatus {
    Idle,
    Connecting,
    Joining,
    InGame,
}

/// The authenticated identity inside the current lobby connection.
#[derive(Debug, Clone, PartialEq, Eq)]
pub struct PlayerSession {
    pub player_id: i32,
    pub player_name: String,
    pub game_id: Option<i32>,
    pub status: PlayerStatus,
}

/// The two fields of a session that the lobby updates in place.
#[derive(Debug, Clone, PartialEq, Eq)]
pub struct PlayerSessionUpdate {
    pub game_id: Option<i32>,
    pub status: PlayerStatus,
}

#[derive(Debug, Clone, PartialEq, Eq)]
pub enum PlayerSessionUpdateEvent {
    Full(PlayerSession),
    Partial(PlayerSessionUpdate),
}

#[derive(Debug, Clone, PartialEq, Eq)]
pub struct PlayerInfo {
    pub id: i32,
    pub name: String,
}

/// Snapshot of the game the player has joined. A snapshot is shared
/// read-only and replaced as a whole.
#[derive(Debug, Clone, PartialEq, Eq)]
pub struct LobbyGameInfo {
    pub game_id: i32,
    pub map_path: String,
    pub map_sha1: [u8; 20],
    pub map_checksum: u32,
    pub players: HashMap<i32, PlayerInfo>,
    pub host_player: Option<PlayerInfo>,
}

/// The lobby's notice that a match runs on a node, with the credential for it.
#[derive(Debug, Clone, PartialEq, Eq)]
pub struct GameStartedEvent {
    pub node_id: i32,
    pub game_id: i32,
    pub player_token: Vec<u8>,
}

/// A length-prefixed, type-tagged binary message.
#[derive(Debug, Clone, PartialEq, Eq)]
pub struct Frame {
    pub type_id: u8,
    pub payload: Vec<u8>,
}

/// One round-trip measurement to a game node; `None` when the probe failed.
#[derive(Debug, Clone, Copy, PartialEq, Eq, Structural)]
pub struct PingUpdate {
    pub node_id: i32,
    pub ping: Option<u32>,
}

#[derive(Debug, Clone, Copy, PartialEq, Eq, Structural)]
pub enum DisconnectReason {
    Unknown,
    Multi,
    Maintenance,
}

#[derive(Debug, Clone, PartialEq, Eq)]
pub struct Disconnect {
    pub reason: DisconnectReason,
    pub message: String,
}

/// A message for the local UI.
#[derive(Debug, Clone, PartialEq, Eq)]
pub enum OutgoingMessage {
    PingUpdate(PingUpdate),
    Disconnect(Disconnect),
}

} // verus!
