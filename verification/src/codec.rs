//! The frame codec: encoding and decoding frames on a growable byte buffer.
//!
//! The codec is stateless between frames. The decoder never consumes bytes
//! until a full frame is ready, so a buffer holding a partial frame is left
//! untouched and decoding can resume when more bytes arrive.

use vstd::prelude::*;

use crate::consts::VERSION_0;
use crate::error::Error;
use crate::frame::{Cmd, Frame, FrameView, Header, HEADER_LENGTH};

verus! {

/// The bytes a frame occupies on the wire: version, command, stream id
/// big-endian, payload length big-endian, then the payload itself.
pub open spec fn spec_encode(f: FrameView) -> Seq<u8>
    recommends
        f.wf(),
{
    seq![
        VERSION_0,
        f.cmd.spec_byte(),
        (f.stream_id / 256) as u8,
        (f.stream_id % 256) as u8,
        (((f.payload.len() as u16) / 256) as u8),
        (((f.payload.len() as u16) % 256) as u8),
    ] + f.payload
}

/// What decoding a byte buffer yields: `Ok(None)` when no full frame is
/// available yet, `Ok(Some((frame, rest)))` when a frame is complete, and an
/// error when the header is malformed. Decoding consumes nothing unless a
/// full frame is ready.
pub open spec fn spec_decode(b: Seq<u8>) -> Result<Option<(FrameView, Seq<u8>)>, Error> {
    if b.len() < HEADER_LENGTH {
        Ok(None)
    } else if b[0] != VERSION_0 {
        Err(Error::InvalidVersion(b[0]))
    } else if !Cmd::byte_valid(b[1]) {
        Err(Error::InvalidCmd(b[1]))
    } else {
        let plen = (b[4] as int) * 256 + (b[5] as int);
        if b.len() < HEADER_LENGTH + plen {
            Ok(None)
        } else {
            let f = FrameView {
                cmd: Cmd::spec_from_byte(b[1]),
                stream_id: ((b[2] as int) * 256 + (b[3] as int)) as u16,
                payload: b.subrange(HEADER_LENGTH as int, HEADER_LENGTH + plen),
            };
            Ok(Some((f, b.skip(HEADER_LENGTH + plen))))
        }
    }
}

/// Encoder and decoder for the six-byte-header frame format.
pub struct FrameCodec;

impl FrameCodec {
    /// Serialize a frame onto the end of `buf`: header fields in order, both
    /// 16-bit fields big-endian, then the payload. Payloads over 65 535 bytes
    /// are rejected and the buffer is left unchanged.
    pub fn encode(&mut self, frame: Frame, buf: &mut Vec<u8>) -> (r: Result<(), Error>)
        ensures
            match r {
                Ok(()) => frame@.wf() && final(buf)@ == old(buf)@ + spec_encode(frame@),
                Err(e) => !frame@.wf() && e == Error::PayloadTooLong && final(buf)@ == old(buf)@,
            },
    {
        let payload_len = frame.payload.len();
        if payload_len > 0xFFFF {
            return Err(Error::PayloadTooLong);
        }
        let plen16: u16 = payload_len as u16;
        buf.reserve(HEADER_LENGTH + payload_len);
        buf.push(VERSION_0);
        buf.push(frame.header.cmd.as_byte());
        buf.push((frame.header.stream_id / 256) as u8);
        buf.push((frame.header.stream_id % 256) as u8);
        buf.push((plen16 / 256) as u8);
        buf.push((plen16 % 256) as u8);
        let ghost with_header = buf@;
        let mut i: usize = 0;
        while i < frame.payload.len()
            invariant
                i <= frame.payload.len(),
                buf@ == with_header + frame.payload@.take(i as int),
            decreases frame.payload.len() - i,
        {
            buf.push(frame.payload[i]);
            i += 1;
        }
        proof {
            assert(buf@ =~= old(buf)@ + spec_encode(frame@));
        }
        Ok(())
    }

    /// Try to extract one frame from the front of `buf`.
    ///
    /// With fewer than six bytes, or fewer than the full frame the header
    /// announces, nothing is consumed and `Ok(None)` asks for more bytes.
    /// A bad version or command byte is an error and consumes nothing.
    /// Otherwise the frame's bytes are removed from `buf` and the frame is
    /// returned.
    pub fn decode(&mut self, buf: &mut Vec<u8>) -> (r: Result<Option<Frame>, Error>)
        ensures
            match r {
                Ok(None) => {
                    &&& spec_decode(old(buf)@) == Ok::<Option<(FrameView, Seq<u8>)>, Error>(None)
                    &&& final(buf)@ == old(buf)@
                },
                Ok(Some(f)) => {
                    &&& spec_decode(old(buf)@) matches Ok(Some((fv, rest)))
                        && f@ == fv
                        && final(buf)@ == rest
                    &&& f.wf()
                },
                Err(e) => {
                    &&& spec_decode(old(buf)@) == Err::<Option<(FrameView, Seq<u8>)>, Error>(e)
                    &&& final(buf)@ == old(buf)@
                },
            },
    {
        if buf.len() < HEADER_LENGTH {
            return Ok(None);
        }
        let version = buf[0];
        if version != VERSION_0 {
            return Err(Error::InvalidVersion(version));
        }
        let cmd = match Cmd::try_from(buf[1]) {
            Ok(c) => c,
            Err(e) => {
                return Err(e);
            },
        };
        let stream_id: u16 = (buf[2] as u16) * 256 + (buf[3] as u16);
        let payload_len: u16 = (buf[4] as u16) * 256 + (buf[5] as u16);

        let frame_len: usize = HEADER_LENGTH + payload_len as usize;
        if buf.len() < frame_len {
            // make room for the rest of the frame up front
            buf.reserve(frame_len - buf.len());
            return Ok(None);
        }

        let rest = buf.split_off(frame_len);
        let payload = buf.split_off(HEADER_LENGTH);
        *buf = rest;
        proof {
            assert(payload@ =~= old(buf)@.subrange(
                HEADER_LENGTH as int,
                HEADER_LENGTH + payload_len as int,
            ));
        }
        Ok(Some(Frame { header: Header::new(version, cmd, stream_id, payload_len), payload }))
    }
}

/// Law: decoding a buffer that starts with an encoded frame yields exactly
/// that frame and leaves exactly the trailing bytes, whatever they are. This
/// is the step case behind decoding any concatenation of encoded frames.
pub proof fn lemma_decode_encode(f: FrameView, rest: Seq<u8>)
    requires
        f.wf(),
    ensures
        spec_decode(spec_encode(f) + rest) == Ok::<Option<(FrameView, Seq<u8>)>, Error>(
            Some((f, rest)),
        ),
{
    let b = spec_encode(f) + rest;
    let plen = f.payload.len() as int;
    assert(b.len() == HEADER_LENGTH + plen + rest.len());
    assert(b[0] == VERSION_0);
    assert(b[1] == f.cmd.spec_byte());
    assert(Cmd::byte_valid(b[1]));
    assert(Cmd::spec_from_byte(b[1]) == f.cmd);
    assert(b[2] == (f.stream_id / 256) as u8);
    assert(b[3] == (f.stream_id % 256) as u8);
    assert((b[2] as int) * 256 + (b[3] as int) == f.stream_id) by {
        assert(f.stream_id / 256 < 256);
        assert((f.stream_id / 256) * 256 + f.stream_id % 256 == f.stream_id) by (nonlinear_arith);
    }
    let len16 = f.payload.len() as u16;
    assert(b[4] == (len16 / 256) as u8);
    assert(b[5] == (len16 % 256) as u8);
    assert((b[4] as int) * 256 + (b[5] as int) == plen) by {
        assert(len16 == plen);
        assert(len16 / 256 < 256);
        assert((len16 / 256) * 256 + len16 % 256 == len16) by (nonlinear_arith);
    }
    assert(b.subrange(HEADER_LENGTH as int, HEADER_LENGTH + plen) =~= f.payload);
    assert(b.skip(HEADER_LENGTH + plen) =~= rest);
}

/// Law: for any frame, decoding its encoding gives the frame back and leaves
/// an empty buffer.
pub proof fn lemma_encode_decode_roundtrip(f: FrameView)
    requires
        f.wf(),
    ensures
        spec_decode(spec_encode(f)) == Ok::<Option<(FrameView, Seq<u8>)>, Error>(
            Some((f, Seq::<u8>::empty())),
        ),
{
    assert(spec_encode(f) + Seq::<u8>::empty() =~= spec_encode(f));
    lemma_decode_encode(f, Seq::<u8>::empty());
}

/// Law: any strict prefix of an encoded frame decodes to "need more" — the
/// decoder asks for more bytes and consumes nothing.
pub proof fn lemma_decode_prefix_needs_more(f: FrameView, n: int)
    requires
        f.wf(),
        0 <= n < HEADER_LENGTH + f.payload.len(),
    ensures
        spec_decode(spec_encode(f).take(n)) == Ok::<Option<(FrameView, Seq<u8>)>, Error>(None),
{
    let b = spec_encode(f).take(n);
    if n < HEADER_LENGTH {
    } else {
        assert(b[0] == VERSION_0);
        assert(b[1] == f.cmd.spec_byte());
        assert(Cmd::byte_valid(b[1]));
        let len16 = f.payload.len() as u16;
        assert(b[4] == (len16 / 256) as u8);
        assert(b[5] == (len16 % 256) as u8);
        assert((b[4] as int) * 256 + (b[5] as int) == f.payload.len() as int) by {
            assert(len16 == f.payload.len() as int);
            assert(len16 / 256 < 256);
            assert((len16 / 256) * 256 + len16 % 256 == len16) by (nonlinear_arith);
        }
        assert(b.len() < HEADER_LENGTH + f.payload.len());
    }
}

/// Law: bytes accepted by a stream's write surface cross the wire intact.
/// The write path packs the caller's bytes, unchanged, into one PUSH frame;
/// this law says the codec then carries that frame's payload byte-for-byte,
/// so the peer's reader sees exactly what was written.
pub proof fn lemma_pushed_bytes_cross_intact(stream_id: u16, data: Seq<u8>)
    requires
        data.len() <= 0xFFFF,
    ensures
        ({
            let f = FrameView { cmd: Cmd::Push, stream_id, payload: data };
            spec_decode(spec_encode(f)) == Ok::<Option<(FrameView, Seq<u8>)>, Error>(
                Some((f, Seq::<u8>::empty())),
            )
        }),
{
    lemma_encode_decode_roundtrip(FrameView { cmd: Cmd::Push, stream_id, payload: data });
}

/// The concatenation of the encodings of a sequence of frames.
pub open spec fn spec_encode_all(fs: Seq<FrameView>) -> Seq<u8>
    decreases fs.len(),
{
    if fs.len() == 0 {
        Seq::<u8>::empty()
    } else {
        spec_encode(fs[0]) + spec_encode_all(fs.drop_first())
    }
}

/// All the frames the decoder extracts from a buffer, in order, stopping at
/// the first "need more" or error.
pub open spec fn spec_decode_all(b: Seq<u8>) -> Seq<FrameView>
    decreases b.len(),
{
    match spec_decode(b) {
        Ok(Some((f, rest))) => if rest.len() < b.len() {
            seq![f] + spec_decode_all(rest)
        } else {
            seq![f]
        },
        _ => Seq::<FrameView>::empty(),
    }
}

/// Law: a buffer holding the concatenation of encoded frames decodes to
/// exactly those frames, in order.
pub proof fn lemma_decode_all_concat(fs: Seq<FrameView>)
    requires
        forall|i: int| 0 <= i < fs.len() ==> (#[trigger] fs[i]).wf(),
    ensures
        spec_decode_all(spec_encode_all(fs)) == fs,
    decreases fs.len(),
{
    if fs.len() == 0 {
        assert(spec_encode_all(fs).len() < HEADER_LENGTH);
        assert(spec_decode_all(spec_encode_all(fs)) =~= fs);
    } else {
        let tail = fs.drop_first();
        let tail_bytes = spec_encode_all(tail);
        let b = spec_encode(fs[0]) + tail_bytes;
        assert(spec_encode_all(fs) == b);
        lemma_decode_encode(fs[0], tail_bytes);
        assert(tail_bytes.len() < b.len());
        lemma_decode_all_concat(tail);
        assert(spec_decode_all(b) == seq![fs[0]] + spec_decode_all(tail_bytes));
        assert(seq![fs[0]] + tail =~= fs);
    }
}

} // verus!
