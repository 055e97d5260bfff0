//! The per-stream endpoint: a byte-level read and write surface over the
//! stream's inbound frame channel and the shared outbound message channel.
//!
//! The endpoint here is the stream's state machine: permissions, the
//! buffered inbound bytes, the single in-flight write, and the close latch.
//! Each step function takes what the host observed on its channels (a
//! delivered frame, a poll result of the in-flight send) and decides the
//! outcome; the host performs the sends and wake-ups the outcome asks for.

use vstd::prelude::*;

use crate::consts::StreamId;
use crate::error::Error;
use crate::frame::{Cmd, Frame, FrameView};

verus! {

/// The read/write permission pair of a stream endpoint. Losing R rejects
/// further reads, losing W further writes; once neither R nor W remains the
/// whole pair is lost and the endpoint asks the close handler to evict it.
#[derive(Debug, Clone, Copy, PartialEq, Eq, Structural)]
pub struct StreamPerms {
    pub read: bool,
    pub write: bool,
}

impl StreamPerms {
    /// The read permission alone.
    pub fn r() -> (p: StreamPerms)
        ensures
            p == (StreamPerms { read: true, write: false }),
    {
        StreamPerms { read: true, write: false }
    }

    /// The write permission alone.
    pub fn w() -> (p: StreamPerms)
        ensures
            p == (StreamPerms { read: false, write: true }),
    {
        StreamPerms { read: false, write: true }
    }

    /// Both permissions, the state a stream starts in.
    pub fn rw() -> (p: StreamPerms)
        ensures
            p == (StreamPerms { read: true, write: true }),
    {
        StreamPerms { read: true, write: true }
    }
}

/// The mathematical state of a stream endpoint.
pub struct StreamView {
    pub stream_id: StreamId,
    pub perms: StreamPerms,
    pub read_buf: Seq<u8>,
    pub write_in_flight: bool,
    pub close_sent: bool,
}

impl StreamView {
    /// Validity of an endpoint state: once the FIN latch is set, W has been
    /// revoked. `Stream::new` establishes this and every step preserves it.
    pub open spec fn inv(self) -> bool {
        self.close_sent ==> !self.perms.write
    }

    /// How denying permissions steps the state: the named permissions are
    /// removed, and the returned flag says whether the endpoint no longer
    /// holds the full RW pair and must ask the close handler to evict it.
    pub open spec fn spec_deny(self, perm: StreamPerms) -> (StreamView, bool) {
        let perms = StreamPerms {
            read: self.perms.read && !perm.read,
            write: self.perms.write && !perm.write,
        };
        (StreamView { perms, ..self }, !(perms.read && perms.write))
    }

    /// How `close` steps the state: the first call latches, revokes W and
    /// emits one FIN; later calls do nothing. The third component says
    /// whether the close handler must be signalled.
    pub open spec fn spec_close(self) -> (StreamView, bool, bool) {
        if self.close_sent {
            (self, false, false)
        } else {
            let latched = StreamView { close_sent: true, ..self };
            let (stepped, signal) = latched.spec_deny(StreamPerms { read: false, write: true });
            (stepped, true, signal)
        }
    }

    /// How dropping the endpoint steps the state: a FIN is emitted only if W
    /// was still held, and both permissions are revoked, which always leaves
    /// the endpoint signalling the close handler.
    pub open spec fn spec_drop(self) -> (StreamView, bool, bool) {
        let emit_fin = self.perms.write;
        let (stepped, signal) = self.spec_deny(StreamPerms { read: true, write: true });
        (stepped, emit_fin, signal)
    }
}

/// What a read attempt found in the endpoint's own state.
#[derive(Debug, PartialEq, Eq)]
pub enum ReadStep {
    /// R was lost: the read fails with a broken-pipe error.
    Denied,
    /// Buffered bytes were available; here is the requested prefix.
    Data(Vec<u8>),
    /// The buffer is empty: the host must poll the inbound channel.
    NeedPoll,
}

/// What the host observed when it polled the inbound frame channel, and, if
/// that was pending, the peer-close one-shot.
#[derive(Debug, PartialEq, Eq)]
pub enum ReadEvent {
    /// A frame was delivered.
    Frame(Frame),
    /// The inbound channel is closed: no more frames will ever arrive.
    Closed,
    /// No frame yet; `peer_fin` says whether the peer-close one-shot had
    /// already fired.
    Pending { peer_fin: bool },
}

/// What an inbound-channel observation means for the read in progress.
#[derive(Debug, PartialEq, Eq, Structural)]
pub enum ReadResolution {
    /// The delivered payload is buffered: attempt the read again.
    Continue,
    /// End of stream: a zero-byte read, not an error. When `signal_close`
    /// is set the endpoint lost its RW pair and the close handler must be
    /// signalled.
    Eof { signal_close: bool },
    /// Nothing to report; suspend until woken by either source.
    Pending,
}

/// The poll result of the in-flight outbound send, as the host observed it.
#[derive(Debug, PartialEq, Eq)]
pub enum FlightPoll {
    /// The send has not completed yet.
    Pending,
    /// The send completed with the egress task's result.
    Done(Result<usize, Error>),
}

/// The outcome of a write attempt.
#[derive(Debug, PartialEq, Eq)]
pub enum WriteStep {
    /// W was lost: the write fails with a broken-pipe error.
    Denied,
    /// The bytes were accepted: the host must enqueue `frame` as the new
    /// in-flight send and report `len` bytes written.
    Accepted { len: usize, frame: Frame },
    /// The previous send is still in flight; suspend.
    Pending,
    /// The previous send failed; surface the error.
    Failed(Error),
}

/// The outcome of a flush attempt.
#[derive(Debug, PartialEq, Eq)]
pub enum FlushStep {
    /// No send remains in flight.
    Flushed,
    /// The in-flight send has not completed; suspend.
    Pending,
    /// The in-flight send failed; surface the error.
    Failed(Error),
}

/// What `close` or a drop asks of the host: emit one FIN frame
/// (fire-and-forget), and/or signal the close handler with this stream's id.
#[derive(Debug, PartialEq, Eq, Structural)]
pub struct CloseEffect {
    pub emit_fin: bool,
    pub signal_close: bool,
}

/// The outcome of a shutdown attempt: how the in-flight send resolved, and
/// the close effects once it is no longer pending.
#[derive(Debug, PartialEq, Eq)]
pub struct ShutdownStep {
    pub flush: FlushStep,
    pub emit_fin: bool,
    pub signal_close: bool,
}

/// One logical stream endpoint's state machine.
pub struct Stream {
    stream_id: StreamId,
    perms: StreamPerms,
    read_buf: Vec<u8>,
    write_in_flight: bool,
    close_sent: bool,
}

impl View for Stream {
    type V = StreamView;

    closed spec fn view(&self) -> StreamView {
        StreamView {
            stream_id: self.stream_id,
            perms: self.perms,
            read_buf: self.read_buf@,
            write_in_flight: self.write_in_flight,
            close_sent: self.close_sent,
        }
    }
}

impl Stream {
    /// A fresh endpoint: both permissions held, nothing buffered, no send in
    /// flight, FIN not yet sent.
    pub fn new(stream_id: StreamId) -> (r: Self)
        ensures
            r@ == (StreamView {
                stream_id,
                perms: StreamPerms { read: true, write: true },
                read_buf: Seq::<u8>::empty(),
                write_in_flight: false,
                close_sent: false,
            }),
    {
        let r = Self {
            stream_id,
            perms: StreamPerms::rw(),
            read_buf: Vec::new(),
            write_in_flight: false,
            close_sent: false,
        };
        proof {
            assert(r@.read_buf =~= Seq::<u8>::empty());
        }
        r
    }

    /// This endpoint's stream id.
    pub fn stream_id(&self) -> (r: StreamId)
        ensures
            r == self@.stream_id,
    {
        self.stream_id
    }

    /// The permissions the endpoint currently holds.
    pub fn perms(&self) -> (r: StreamPerms)
        ensures
            r == self@.perms,
    {
        self.perms
    }

    /// Revoke permissions. Returns whether the endpoint no longer holds the
    /// RW pair, in which case the host signals the close handler so the
    /// registry can mark the stream as awaiting teardown.
    pub fn deny_perm(&mut self, perm: StreamPerms) -> (signal_close: bool)
        ensures
            (final(self)@, signal_close) == old(self)@.spec_deny(perm),
    {
        self.perms = StreamPerms {
            read: self.perms.read && !perm.read,
            write: self.perms.write && !perm.write,
        };
        !(self.perms.read && self.perms.write)
    }

    /// Close the local write half. Idempotent: only the first call revokes W
    /// and asks for a FIN; `emit_fin` is set on that call alone.
    pub fn close(&mut self) -> (r: CloseEffect)
        ensures
            (final(self)@, r.emit_fin, r.signal_close) == old(self)@.spec_close(),
    {
        if self.close_sent {
            return CloseEffect { emit_fin: false, signal_close: false };
        }
        self.close_sent = true;
        let signal_close = self.deny_perm(StreamPerms::w());
        CloseEffect { emit_fin: true, signal_close }
    }

    /// Release the endpoint: a FIN is owed only if W was still held, and
    /// both permissions are revoked, so the close handler is always
    /// signalled.
    pub fn on_drop(&mut self) -> (r: CloseEffect)
        ensures
            (final(self)@, r.emit_fin, r.signal_close) == old(self)@.spec_drop(),
    {
        let emit_fin = self.perms.write;
        let signal_close = self.deny_perm(StreamPerms::rw());
        CloseEffect { emit_fin, signal_close }
    }

    /// One read attempt against the endpoint's own state: a broken pipe if R
    /// was lost, up to `max_len` buffered bytes if any are waiting, and
    /// otherwise a request to poll the inbound channel.
    pub fn read_step(&mut self, max_len: usize) -> (r: ReadStep)
        ensures
            !old(self)@.perms.read ==> r == ReadStep::Denied && final(self)@ == old(self)@,
            old(self)@.perms.read && old(self)@.read_buf.len() == 0 ==> r == ReadStep::NeedPoll
                && final(self)@ == old(self)@,
            old(self)@.perms.read && old(self)@.read_buf.len() > 0 ==> ({
                let n = if max_len <= old(self)@.read_buf.len() {
                    max_len as int
                } else {
                    old(self)@.read_buf.len() as int
                };
                &&& (r matches ReadStep::Data(d) && d@ == old(self)@.read_buf.take(n))
                &&& final(self)@ == (StreamView {
                    read_buf: old(self)@.read_buf.skip(n),
                    ..old(self)@
                })
            }),
    {
        if !self.perms.read {
            return ReadStep::Denied;
        }
        if self.read_buf.len() == 0 {
            return ReadStep::NeedPoll;
        }
        let n = if max_len <= self.read_buf.len() {
            max_len
        } else {
            self.read_buf.len()
        };
        let mut data = self.read_buf.split_off(n);
        core::mem::swap(&mut self.read_buf, &mut data);
        proof {
            assert(data@ =~= old(self)@.read_buf.take(n as int));
            assert(self.read_buf@ =~= old(self)@.read_buf.skip(n as int));
        }
        ReadStep::Data(data)
    }

    /// Resolve an observation of the inbound channel. A delivered frame's
    /// payload replaces the read buffer and the read is retried; a closed
    /// channel is EOF; a pending channel is EOF once the peer's FIN one-shot
    /// has fired (revoking R), and otherwise suspends the read.
    pub fn read_event(&mut self, ev: ReadEvent) -> (r: ReadResolution)
        ensures
            (ev matches ReadEvent::Frame(f)) ==> ({
                &&& r == ReadResolution::Continue
                &&& (ev matches ReadEvent::Frame(f) && final(self)@ == (StreamView {
                    read_buf: f.payload@,
                    ..old(self)@
                }))
            }),
            ev is Closed ==> r == (ReadResolution::Eof { signal_close: false }) && final(self)@
                == old(self)@,
            ev == (ReadEvent::Pending { peer_fin: true }) ==> ({
                let (stepped, signal) = old(self)@.spec_deny(
                    StreamPerms { read: true, write: false },
                );
                r == (ReadResolution::Eof { signal_close: signal }) && final(self)@ == stepped
            }),
            ev == (ReadEvent::Pending { peer_fin: false }) ==> r == ReadResolution::Pending
                && final(self)@ == old(self)@,
    {
        match ev {
            ReadEvent::Frame(f) => {
                self.read_buf = f.payload;
                ReadResolution::Continue
            },
            ReadEvent::Closed => ReadResolution::Eof { signal_close: false },
            ReadEvent::Pending { peer_fin } => {
                if peer_fin {
                    let signal_close = self.deny_perm(StreamPerms::r());
                    ReadResolution::Eof { signal_close }
                } else {
                    ReadResolution::Pending
                }
            },
        }
    }

    /// One write attempt. Writes are serialized through a single in-flight
    /// send: with none in flight the bytes are accepted at once — the host
    /// enqueues the returned PUSH frame — and acknowledged optimistically
    /// with their full length; with one in flight, its poll result decides
    /// whether to chain the new send, suspend, or surface the failure.
    /// `flight` is the poll of the in-flight send, present exactly when one
    /// is in flight; on failure the spent send stays with the host.
    pub fn write_step(&mut self, data: &[u8], flight: Option<FlightPoll>) -> (r: WriteStep)
        requires
            old(self)@.write_in_flight <==> flight is Some,
        ensures
            !old(self)@.perms.write ==> r == WriteStep::Denied && final(self)@ == old(self)@,
            old(self)@.perms.write && (flight is None || (flight matches Some(
                FlightPoll::Done(res),
            ) && res is Ok)) ==> ({
                &&& (r matches WriteStep::Accepted { len, frame } && len == data@.len() && frame@
                    == (FrameView { cmd: Cmd::Push, stream_id: old(self)@.stream_id, payload: data@ })
                    && (data@.len() <= 0xFFFF ==> frame.wf()))
                &&& final(self)@ == (StreamView { write_in_flight: true, ..old(self)@ })
            }),
            old(self)@.perms.write && flight == Some(FlightPoll::Pending) ==> r
                == WriteStep::Pending && final(self)@ == old(self)@,
            old(self)@.perms.write && (flight matches Some(FlightPoll::Done(res)) && res is Err)
                ==> ({
                &&& (flight matches Some(FlightPoll::Done(res)) && r == WriteStep::Failed(
                    res->Err_0,
                ))
                &&& final(self)@ == old(self)@
            }),
    {
        if !self.perms.write {
            return WriteStep::Denied;
        }
        match flight {
            None => {
                self.write_in_flight = true;
                WriteStep::Accepted {
                    len: data.len(),
                    frame: Frame::new_push(self.stream_id, data),
                }
            },
            Some(FlightPoll::Pending) => WriteStep::Pending,
            Some(FlightPoll::Done(res)) => match res {
                Ok(_) => {
                    self.write_in_flight = true;
                    WriteStep::Accepted {
                        len: data.len(),
                        frame: Frame::new_push(self.stream_id, data),
                    }
                },
                Err(e) => WriteStep::Failed(e),
            },
        }
    }

    /// One flush attempt: drive the in-flight send to completion. With none
    /// in flight there is nothing to wait for; a completed send — in either
    /// outcome — clears the in-flight state.
    pub fn flush_step(&mut self, flight: Option<FlightPoll>) -> (r: FlushStep)
        requires
            old(self)@.write_in_flight <==> flight is Some,
        ensures
            flight is None ==> r == FlushStep::Flushed && final(self)@ == old(self)@,
            flight == Some(FlightPoll::Pending) ==> r == FlushStep::Pending && final(self)@ == old(
                self,
            )@,
            (flight matches Some(FlightPoll::Done(res))) ==> ({
                &&& (flight matches Some(FlightPoll::Done(res)) && r == (match res {
                    Ok(_) => FlushStep::Flushed,
                    Err(e) => FlushStep::Failed(e),
                }))
                &&& final(self)@ == (StreamView { write_in_flight: false, ..old(self)@ })
            }),
    {
        match flight {
            None => FlushStep::Flushed,
            Some(FlightPoll::Pending) => FlushStep::Pending,
            Some(FlightPoll::Done(res)) => {
                self.write_in_flight = false;
                match res {
                    Ok(_) => FlushStep::Flushed,
                    Err(e) => FlushStep::Failed(e),
                }
            },
        }
    }

    /// One shutdown attempt: drive the in-flight send as `flush_step` does,
    /// and once it is no longer pending — in either outcome — run the
    /// idempotent `close`, which owes a FIN on its first call.
    pub fn shutdown_step(&mut self, flight: Option<FlightPoll>) -> (r: ShutdownStep)
        requires
            old(self)@.write_in_flight <==> flight is Some,
        ensures
            flight == Some(FlightPoll::Pending) ==> r == (ShutdownStep {
                flush: FlushStep::Pending,
                emit_fin: false,
                signal_close: false,
            }) && final(self)@ == old(self)@,
            flight is None ==> ({
                let (stepped, emit_fin, signal_close) = old(self)@.spec_close();
                r == (ShutdownStep { flush: FlushStep::Flushed, emit_fin, signal_close })
                    && final(self)@ == stepped
            }),
            (flight matches Some(FlightPoll::Done(res))) ==> ({
                let drained = StreamView { write_in_flight: false, ..old(self)@ };
                let (stepped, emit_fin, signal_close) = drained.spec_close();
                &&& (flight matches Some(FlightPoll::Done(res)) && r == (ShutdownStep {
                    flush: match res {
                        Ok(_) => FlushStep::Flushed,
                        Err(e) => FlushStep::Failed(e),
                    },
                    emit_fin,
                    signal_close,
                }))
                &&& final(self)@ == stepped
            }),
    {
        let flush = self.flush_step(flight);
        match flush {
            FlushStep::Pending => ShutdownStep {
                flush: FlushStep::Pending,
                emit_fin: false,
                signal_close: false,
            },
            _ => {
                let effect = self.close();
                ShutdownStep {
                    flush,
                    emit_fin: effect.emit_fin,
                    signal_close: effect.signal_close,
                }
            },
        }
    }
}

/// Law: `close` is idempotent. However often it is called, only the first
/// call emits a FIN: a second call emits none and leaves the state as it
/// was.
pub proof fn lemma_close_idempotent(s: StreamView)
    ensures
        s.spec_close().1 ==> !s.close_sent,
        s.spec_close().0.spec_close().1 == false,
        s.spec_close().0.spec_close().0 == s.spec_close().0,
{
}

/// Law: dropping an endpoint that already closed emits no second FIN — the
/// close revoked W, and a drop only owes a FIN while W is still held.
pub proof fn lemma_close_then_drop_one_fin(s: StreamView)
    requires
        s.inv(),
    ensures
        s.spec_close().0.spec_drop().1 == false,
{
}

/// Law: every step of the endpoint keeps its validity: W stays revoked once
/// the FIN latch is set.
pub proof fn lemma_steps_preserve_inv(s: StreamView, perm: StreamPerms)
    requires
        s.inv(),
    ensures
        s.spec_deny(perm).0.inv(),
        s.spec_close().0.inv(),
        s.spec_drop().0.inv(),
{
}

} // verus!
