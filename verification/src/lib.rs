//! A small request/response protocol over a byte stream: length-prefixed,
//! big-endian frames, the codec that reads and writes them, and the replies a
//! server computes.

pub mod codec_lemmas;
pub mod lines;
pub mod protocol;
pub mod raw;
pub mod server;
pub mod text;
pub mod wire;

use vstd::prelude::*;

verus! {

/// The address a server listens on, and a client connects to, when none is given.
pub const DEFAULT_SERVER_ADDR: &'static str = "127.0.0.1:4000";

} // verus!
