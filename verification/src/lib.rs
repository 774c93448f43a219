//! The LURK text-adventure protocol: message layout and wire encoding,
//! the server's game state and per-client session rules, and the pieces of
//! the `lurkalyzer` client that decide rather than draw.

pub mod protocol;
pub mod codec;
pub mod game;
pub mod text;
pub mod session;
pub mod client;
pub mod sheep;
pub mod basic;
pub mod layout;
