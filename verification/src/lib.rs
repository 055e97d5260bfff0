//! A stream multiplexer core: it turns one reliable, ordered, bidirectional
//! byte transport into many independent logical streams.
//!
//! Peers exchange fixed-header frames (`[ver][cmd][stream_id][payload_len][payload]`)
//! and keep per-stream state to open, carry and tear down streams. This crate
//! holds the verified core: the frame codec, the stream-id allocator, the
//! stream registry with its frame-dispatch rules, the per-stream endpoint
//! state machine, and the session facade. The host embeds these behind an
//! async transport and channel plumbing.

pub mod allocate;
pub mod codec;
pub mod consts;
pub mod error;
pub mod frame;
pub mod manager;
pub mod multiplexer;
pub mod stream;

pub use multiplexer::Multiplexer;
pub use stream::Stream;
