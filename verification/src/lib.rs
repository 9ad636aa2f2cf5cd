//! A card server's protocol, without the sockets.
//!
//! Messages travel in frames: a length prefix, then a payload
//! ([`frame`]). A frame is read piece by piece as the stream delivers it,
//! each fill of a buffer against a timer ([`fill`], [`reader`]). The two
//! ends of a connection decide what a message means to them
//! ([`session`]); the server keeps its live sessions in a table by
//! identifier ([`registry`]) and runs one loop per session
//! ([`dispatch`]) that answers from the games on offer ([`game`],
//! [`server`]).
//!
//! Beside the protocol stands the sink of the programs' events: which
//! events are shown where ([`filter`]), and how they are written out
//! ([`render`], [`subscriber`]).
//!
//! Nothing here reads or writes. Whoever owns the sockets, the files and
//! the clock performs each step and reports what came of it.

pub mod dispatch;
pub mod error;
pub mod filter;
pub mod fill;
pub mod frame;
pub mod game;
pub mod message;
pub mod reader;
pub mod registry;
pub mod render;
pub mod server;
pub mod session;
pub mod subscriber;
pub mod text;
