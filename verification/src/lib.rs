//! Connection coordinator core of a game-hosting desktop agent: the routing
//! rules between the local control socket, the lobby connection and the game
//! node connection, stated as transition functions with proved contracts.

pub mod error;
pub mod token;
pub mod types;
pub mod controller;
pub mod invariants;
pub mod node;
pub mod node_trace;
pub mod config;
pub mod peer;
