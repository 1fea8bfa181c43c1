//! What the server promises, in terms of what happens to it and what it does.
//!
//! The laws in these modules do not speak of how the other modules put their
//! contracts together: they say what the reactions have to be like, with the
//! texts, the numbers and the entries written out.

pub mod closing;
pub mod codes;
pub mod config;
pub mod connection;
pub mod in_room;
pub mod joining;
pub mod lobby;
pub mod messages;
pub mod parsing;
pub mod room;
pub mod text;
