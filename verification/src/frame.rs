//! Frames: the smallest wire unit, a six-byte header plus payload.

use vstd::prelude::*;

use crate::consts::{StreamId, Version, VERSION_0};
use crate::error::Error;

verus! {

/// Bytes in an encoded header: version, cmd, stream id (2), payload length (2).
pub const HEADER_LENGTH: usize = 6;

/// The 16-bit payload-length field of a header.
pub type DataLength = u16;

/// A frame command.
#[derive(Debug, Clone, Copy, PartialEq, Eq, Structural)]
pub enum Cmd {
    /// To establish a new stream.
    Syn,
    /// To acknowledge a received frame.
    Ack,
    /// To close a stream.
    Fin,
    /// To send a payload.
    Push,
}

impl Cmd {
    /// The byte this command is encoded as.
    pub open spec fn spec_byte(self) -> u8 {
        match self {
            Cmd::Syn => 0x01,
            Cmd::Ack => 0x02,
            Cmd::Fin => 0x03,
            Cmd::Push => 0x04,
        }
    }

    /// Encode this command as its wire byte.
    pub fn as_byte(&self) -> (r: u8)
        ensures
            r == self.spec_byte(),
    {
        match self {
            Cmd::Syn => 0x01,
            Cmd::Ack => 0x02,
            Cmd::Fin => 0x03,
            Cmd::Push => 0x04,
        }
    }

    /// Whether a byte denotes a command.
    pub open spec fn byte_valid(value: u8) -> bool {
        1 <= value <= 4
    }

    /// The command a valid byte denotes.
    pub open spec fn spec_from_byte(value: u8) -> Cmd
        recommends
            Cmd::byte_valid(value),
    {
        if value == 1 {
            Cmd::Syn
        } else if value == 2 {
            Cmd::Ack
        } else if value == 3 {
            Cmd::Fin
        } else {
            Cmd::Push
        }
    }

    /// Decode a command byte; bytes outside `1..=4` are invalid.
    pub fn try_from(value: u8) -> (r: Result<Cmd, Error>)
        ensures
            Cmd::byte_valid(value) ==> r == Ok::<Cmd, Error>(Cmd::spec_from_byte(value)),
            !Cmd::byte_valid(value) ==> r == Err::<Cmd, Error>(Error::InvalidCmd(value)),
    {
        match value {
            0x01 => Ok(Cmd::Syn),
            0x02 => Ok(Cmd::Ack),
            0x03 => Ok(Cmd::Fin),
            0x04 => Ok(Cmd::Push),
            _ => Err(Error::InvalidCmd(value)),
        }
    }
}

/// A frame header:
/// version - 1 byte, cmd - 1 byte, stream_id - 2 bytes, payload_len - 2 bytes.
#[derive(Debug, Clone, Copy, PartialEq, Eq, Structural)]
pub struct Header {
    pub version: Version,
    pub cmd: Cmd,
    pub stream_id: StreamId,
    pub payload_len: DataLength,
}

impl Header {
    /// Build a header from its four fields.
    pub fn new(version: Version, cmd: Cmd, stream_id: StreamId, payload_len: DataLength) -> (r:
        Self)
        ensures
            r == (Header { version, cmd, stream_id, payload_len }),
    {
        Self { version, cmd, stream_id, payload_len }
    }
}

/// A frame: header plus payload bytes.
#[derive(Debug, Clone, PartialEq, Eq)]
pub struct Frame {
    pub header: Header,
    pub payload: Vec<u8>,
}

/// The mathematical content of a frame: what the wire carries.
/// The version is always zero and the payload length is the payload's,
/// so neither is repeated here.
pub struct FrameView {
    pub cmd: Cmd,
    pub stream_id: StreamId,
    pub payload: Seq<u8>,
}

impl FrameView {
    /// A frame view that fits the wire format: at most 65 535 payload bytes.
    pub open spec fn wf(self) -> bool {
        self.payload.len() <= 0xFFFF
    }
}

impl View for Frame {
    type V = FrameView;

    open spec fn view(&self) -> FrameView {
        FrameView { cmd: self.header.cmd, stream_id: self.header.stream_id, payload: self.payload@ }
    }
}

impl Frame {
    /// A well-formed frame: version zero, and the header's payload length
    /// is the payload's actual length.
    pub open spec fn wf(self) -> bool {
        &&& self.header.version == VERSION_0
        &&& self.header.payload_len == self.payload@.len()
    }

    /// Frame length in bytes: header plus payload.
    pub fn len(&self) -> (r: usize)
        ensures
            r == self.header.payload_len + HEADER_LENGTH,
    {
        self.header.payload_len as usize + HEADER_LENGTH
    }

    /// A SYN frame, to open a stream.
    pub fn new_syn(stream_id: StreamId) -> (r: Self)
        ensures
            r.wf(),
            r@ == (FrameView { cmd: Cmd::Syn, stream_id, payload: Seq::<u8>::empty() }),
    {
        let r = Self { header: Header::new(VERSION_0, Cmd::Syn, stream_id, 0), payload: Vec::new() };
        proof {
            assert(r@.payload =~= Seq::<u8>::empty());
        }
        r
    }

    /// A FIN frame, to close a stream.
    pub fn new_fin(stream_id: StreamId) -> (r: Self)
        ensures
            r.wf(),
            r@ == (FrameView { cmd: Cmd::Fin, stream_id, payload: Seq::<u8>::empty() }),
    {
        let r = Self { header: Header::new(VERSION_0, Cmd::Fin, stream_id, 0), payload: Vec::new() };
        proof {
            assert(r@.payload =~= Seq::<u8>::empty());
        }
        r
    }

    /// An ACK frame, to acknowledge a received frame.
    pub fn new_ack(stream_id: StreamId) -> (r: Self)
        ensures
            r.wf(),
            r@ == (FrameView { cmd: Cmd::Ack, stream_id, payload: Seq::<u8>::empty() }),
    {
        let r = Self { header: Header::new(VERSION_0, Cmd::Ack, stream_id, 0), payload: Vec::new() };
        proof {
            assert(r@.payload =~= Seq::<u8>::empty());
        }
        r
    }

    /// A PUSH frame, to send data. The header's length field holds the
    /// payload length whenever the data fits the 16-bit field; the payload
    /// always carries all of the data, and the encoder rejects oversized
    /// payloads.
    pub fn new_push(stream_id: StreamId, data: &[u8]) -> (r: Self)
        ensures
            r@ == (FrameView { cmd: Cmd::Push, stream_id, payload: data@ }),
            data@.len() <= 0xFFFF ==> r.wf(),
            r.header.version == VERSION_0,
    {
        let mut payload: Vec<u8> = Vec::new();
        let mut i: usize = 0;
        while i < data.len()
            invariant
                i <= data.len(),
                payload@ == data@.take(i as int),
            decreases data.len() - i,
        {
            payload.push(data[i]);
            i += 1;
        }
        proof {
            assert(payload@ =~= data@);
        }
        let payload_len: u16 = #[verifier::truncate] (data.len() as u16);
        Self { header: Header::new(VERSION_0, Cmd::Push, stream_id, payload_len), payload }
    }
}

} // verus!
