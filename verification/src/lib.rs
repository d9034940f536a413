//! Signalling core of a multi-party media service: room rosters, the room
//! registry, the hub that fans notifications out inside a room, and the
//! per-connection session state machine.
//!
//! Nothing here performs I/O. Every operation that needs the media engine,
//! the presence store or the client connection is expressed as a value that
//! the embedding program carries out, handing the outcome back as a value.

pub mod identifier;
pub mod media;
pub mod view;
pub mod webrtc;
pub mod websocket;
