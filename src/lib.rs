//! Packet definitions and the replay core that checks recorded captures
//! decode exactly, byte for byte.
pub mod auth;
pub mod catalog;
pub mod classify;
pub mod common;
pub mod general;
pub mod recipe;
pub mod replay;
pub mod session;
pub mod wire;
