//! A bridge from a racing game's telemetry to a positional-audio link.
//!
//! The game tells where the player and the camera are, who the player is and
//! on which server; a voice-chat client reads the link to place voices in
//! space and to decide who shares a room. This library is the part between
//! the two that decides: it decodes frames, keeps the session's state, derives
//! identity and context, and says what is to be written to the link, sent to
//! the game and shown to the observer.
//!
//! The library does no I/O. A runner owns the sockets, the shared memory, the
//! link and the clock; it hands every event to a [`session::Session`] and
//! performs the [`event::Effect`]s that come back, in order.
//!
//! * [`position`]: positions and directions, as bit patterns of their numbers.
//! * [`event`]: the messages between game, session and observer, and the effects.
//! * [`codec`]: the binary position frame, and the verdict on control messages.
//! * [`identity`]: identity and context strings, and the obfuscation of server
//!   identifiers.
//! * [`link`]: the adapter of the positional-audio link.
//! * [`tcp_server`]: the socket pipeline.
//! * [`mp_telemetry_data`]: the telemetry record and its layout.
//! * [`maniaplanet_telemetry`]: the polling pipeline.
//! * [`session`]: the coordinator that runs one of the two pipelines.
//! * [`window`]: whether the observer's window is shown.
//! * [`text`]: numerals for the strings above, and the counter behind the nonce.

pub mod codec;
pub mod event;
pub mod identity;
pub mod link;
pub mod maniaplanet_telemetry;
pub mod mp_telemetry_data;
pub mod position;
pub mod session;
pub mod tcp_server;
pub mod text;
pub mod window;
