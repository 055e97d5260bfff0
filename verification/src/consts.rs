//! Protocol-wide constants and the session role.

use vstd::prelude::*;

verus! {

/// Wire protocol version byte.
pub type Version = u8;

/// The only defined protocol version.
pub const VERSION_0: Version = 0x0;

/// A 16-bit logical stream identifier.
pub type StreamId = u16;

/// Capacity of each per-stream inbound frame channel.
pub const FRAME_BUFFER_SIZE: usize = 1024;

/// First stream id handed out by a client-mode session (client ids are odd).
pub const ODD_STREAM_ID_START: StreamId = 0x01;

/// First stream id handed out by a server-mode session (server ids are even).
pub const EVEN_STREAM_ID_START: StreamId = 0x02;

/// The role a session was constructed in. Client-mode sessions originate
/// odd stream ids, server-mode sessions even ones.
#[derive(Debug, Clone, Copy, PartialEq, Eq, Structural)]
pub enum MultiplexerMode {
    Client,
    Server,
}

impl MultiplexerMode {
    /// The first id this role hands out: 1 for a client, 2 for a server.
    pub open spec fn spec_starting_id(self) -> StreamId {
        match self {
            MultiplexerMode::Client => ODD_STREAM_ID_START,
            MultiplexerMode::Server => EVEN_STREAM_ID_START,
        }
    }

    /// The first id this role hands out: 1 for a client, 2 for a server.
    pub fn get_starting_id(&self) -> (r: StreamId)
        ensures
            r == self.spec_starting_id(),
    {
        match self {
            MultiplexerMode::Client => ODD_STREAM_ID_START,
            MultiplexerMode::Server => EVEN_STREAM_ID_START,
        }
    }

    /// The role's name, for diagnostics.
    pub fn name(&self) -> (r: &'static str)
        ensures
            self is Client ==> r@ == "Client"@,
            self is Server ==> r@ == "Server"@,
    {
        match self {
            MultiplexerMode::Client => "Client",
            MultiplexerMode::Server => "Server",
        }
    }
}

} // verus!
