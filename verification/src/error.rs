//! The error kinds the multiplexer core distinguishes.

use vstd::prelude::*;

verus! {

/// Everything that can go wrong inside the multiplexer.
///
/// Decoder errors (`InvalidCmd`, `InvalidVersion`) end the session; per-stream
/// errors stay with their stream. `Io` carries the message of a transport
/// failure observed by the host.
#[derive(Debug, Clone, PartialEq, Eq)]
pub enum Error {
    /// The decoder saw a command byte outside the defined set.
    InvalidCmd(u8),
    /// The decoder saw a version byte other than zero.
    InvalidVersion(u8),
    /// A payload of more than 65 535 bytes was handed to the encoder.
    PayloadTooLong,
    /// The outbound message channel was closed, or the completion signal
    /// was dropped before the frame reached the wire.
    MessageSendFail,
    /// A frame did not reach the wire within the five-second bound.
    MessageSendTooLong,
    /// `open` after shutdown, or `accept` after the creation queue closed.
    ConnectionClosed,
    /// The id allocator's counter saturated.
    StreamLimitExceeded,
    /// A handle for this id is already registered.
    DuplicateStream(u16),
    /// No handle is registered for this id.
    StreamNotFound(u16),
    /// The per-stream inbound send failed: the reader is gone.
    SendFrameFailed(u16),
    /// An invariant was violated; indicates a bug.
    Internal(String),
    /// A transport I/O failure, by its message.
    Io(String),
}

} // verus!
