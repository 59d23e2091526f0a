//! Client core for a chat service reached over a secure WebSocket: the wire
//! protocol, its codec, the connection supervisor and the chat log model.

pub mod chat;
pub mod codec;
pub mod config;
pub mod json;
pub mod protocol;
pub mod socket;
