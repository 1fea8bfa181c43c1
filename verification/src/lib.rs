//! The lobby server of the multiplayer game Tabletop Club, which is responsible
//! for keeping track of multiplayer lobbies.
//!
//! Clients either host or join rooms with unique four letter room codes. Once two
//! clients have joined the same room, they can send each other WebRTC messages so
//! that they can establish a direct peer-to-peer connection with each other.
//!
//! This library holds the rules of the server: what the messages mean, and how
//! the server, the lobby, the rooms and the players react to what happens. It
//! does not do any I/O by itself.

pub mod close_code;
pub mod config;
pub mod config_file;
pub mod connection;
pub mod identifiers;
pub mod int_map;
pub mod laws;
pub mod lobby;
pub mod message;
pub mod player;
pub mod profanity;
mod random;
pub mod room;
pub mod room_code;
pub mod server;
pub mod text;
