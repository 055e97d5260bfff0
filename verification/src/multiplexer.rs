//! The session facade: one multiplexer bound to one transport, in client or
//! server mode.
//!
//! The facade owns the id allocator, the stream registry and the shutdown
//! latch, and decides everything about opening, accepting and closing
//! streams. The host wires it to the transport: it sends the frames these
//! decisions return, runs the three background tasks (egress writer, ingress
//! reader, close handler) and forwards their observations here.

use vstd::prelude::*;

use crate::allocate::{AllocatorView, StreamIdAllocator};
use crate::consts::{MultiplexerMode, StreamId};
use crate::error::Error;
use crate::frame::{Cmd, Frame, FrameView};
use crate::manager::{DispatchAction, StreamHandle, StreamManager};
use crate::stream::{Stream, StreamPerms, StreamView};

verus! {

/// The mathematical state of a session.
pub struct MultiplexerView {
    pub mode: MultiplexerMode,
    pub allocator: AllocatorView,
    pub streams: Map<StreamId, StreamHandle>,
    pub is_shutdown: bool,
    pub shutdown_latched: bool,
}

impl MultiplexerView {
    /// Validity of a session: the allocator keeps its parity discipline and
    /// belongs to this session's role.
    pub open spec fn wf(self) -> bool {
        &&& self.allocator.wf()
        &&& self.allocator.start == self.mode.spec_starting_id()
    }

    /// The state every session starts in for a given role.
    pub open spec fn initial(mode: MultiplexerMode) -> MultiplexerView {
        MultiplexerView {
            mode,
            allocator: AllocatorView {
                start: mode.spec_starting_id(),
                curr: mode.spec_starting_id(),
                free_list: Seq::<StreamId>::empty(),
            },
            streams: Map::<StreamId, StreamHandle>::empty(),
            is_shutdown: false,
            shutdown_latched: false,
        }
    }
}

/// One multiplexer session: role, id allocator, stream registry and the
/// shutdown latch.
pub struct Multiplexer {
    mode: MultiplexerMode,
    id_ca: StreamIdAllocator,
    stream_manager: StreamManager,
    is_shutdown: bool,
    shutdown_latched: bool,
}

impl View for Multiplexer {
    type V = MultiplexerView;

    closed spec fn view(&self) -> MultiplexerView {
        MultiplexerView {
            mode: self.mode,
            allocator: self.id_ca@,
            streams: self.stream_manager@,
            is_shutdown: self.is_shutdown,
            shutdown_latched: self.shutdown_latched,
        }
    }
}

impl Multiplexer {
    fn new(mode: MultiplexerMode) -> (r: Self)
        ensures
            r@ == MultiplexerView::initial(mode),
            r@.wf(),
    {
        Self {
            mode,
            id_ca: StreamIdAllocator::new(&mode),
            stream_manager: StreamManager::new(),
            is_shutdown: false,
            shutdown_latched: false,
        }
    }

    /// A server-mode session: it originates even stream ids, starting at 2.
    pub fn server() -> (r: Self)
        ensures
            r@ == MultiplexerView::initial(MultiplexerMode::Server),
            r@.wf(),
    {
        Self::new(MultiplexerMode::Server)
    }

    /// A client-mode session: it originates odd stream ids, starting at 1.
    pub fn client() -> (r: Self)
        ensures
            r@ == MultiplexerView::initial(MultiplexerMode::Client),
            r@.wf(),
    {
        Self::new(MultiplexerMode::Client)
    }

    /// The role this session was constructed in.
    pub fn mode(&self) -> (r: MultiplexerMode)
        ensures
            r == self@.mode,
    {
        self.mode
    }

    /// Whether the session has been shut down.
    pub fn is_shutdown(&self) -> (r: bool)
        ensures
            r == self@.is_shutdown,
    {
        self.is_shutdown
    }

    /// Whether a handle is registered for this id. The host uses this after
    /// `soft_remove_stream` to learn whether the handle was evicted, and
    /// then releases the stream's channel endpoints.
    pub fn has_stream(&self, stream_id: StreamId) -> (r: bool)
        ensures
            r == self@.streams.contains_key(stream_id),
    {
        self.stream_manager.has_stream(stream_id)
    }

    /// Open a new locally initiated stream: allocate an id, register a
    /// handle with an armed ACK waiter, and hand back the fresh endpoint
    /// together with the SYN frame to send. The host sends the SYN and must
    /// then await the peer's ACK before giving the endpoint out.
    ///
    /// Rejected with `ConnectionClosed` after shutdown; allocation may fail
    /// with `StreamLimitExceeded`; a recycled id whose handle is somehow
    /// still live fails with `DuplicateStream` (and the id stays taken, as a
    /// bug should stay visible).
    pub fn open(&mut self) -> (r: Result<(Stream, Frame), Error>)
        ensures
            old(self)@.wf() ==> final(self)@.wf(),
            old(self)@.is_shutdown ==> r == Err::<(Stream, Frame), Error>(Error::ConnectionClosed)
                && final(self)@ == old(self)@,
            !old(self)@.is_shutdown ==> ({
                let (a1, ar) = old(self)@.allocator.spec_alloc();
                match ar {
                    Err(e) => r == Err::<(Stream, Frame), Error>(e) && final(self)@ == old(self)@,
                    Ok(id) => {
                        if old(self)@.streams.contains_key(id) {
                            r == Err::<(Stream, Frame), Error>(Error::DuplicateStream(id))
                                && final(self)@ == (MultiplexerView { allocator: a1, ..old(self)@ })
                        } else {
                            &&& (r matches Ok((s, f)) && s@ == (StreamView {
                                stream_id: id,
                                perms: StreamPerms { read: true, write: true },
                                read_buf: Seq::<u8>::empty(),
                                write_in_flight: false,
                                close_sent: false,
                            }) && f.wf() && f@ == (FrameView {
                                cmd: Cmd::Syn,
                                stream_id: id,
                                payload: Seq::<u8>::empty(),
                            }))
                            &&& final(self)@ == (MultiplexerView {
                                allocator: a1,
                                streams: old(self)@.streams.insert(id, StreamHandle::initial(true)),
                                ..old(self)@
                            })
                        }
                    },
                }
            }),
    {
        if self.is_shutdown {
            return Err(Error::ConnectionClosed);
        }

        let stream_id = match self.id_ca.allocate() {
            Ok(id) => id,
            Err(e) => {
                return Err(e);
            },
        };

        match self.stream_manager.add_stream(stream_id, true) {
            Ok(()) => {},
            Err(e) => {
                return Err(e);
            },
        }

        Ok((Stream::new(stream_id), Frame::new_syn(stream_id)))
    }

    /// Accept the peer-initiated stream whose SYN put `stream_id` on the
    /// creation queue: register a handle with no ACK waiter, and hand back
    /// the fresh endpoint together with the ACK frame to send.
    pub fn accept(&mut self, stream_id: StreamId) -> (r: Result<(Stream, Frame), Error>)
        ensures
            old(self)@.wf() ==> final(self)@.wf(),
            old(self)@.streams.contains_key(stream_id) ==> r == Err::<(Stream, Frame), Error>(
                Error::DuplicateStream(stream_id),
            ) && final(self)@ == old(self)@,
            !old(self)@.streams.contains_key(stream_id) ==> ({
                &&& (r matches Ok((s, f)) && s@ == (StreamView {
                    stream_id,
                    perms: StreamPerms { read: true, write: true },
                    read_buf: Seq::<u8>::empty(),
                    write_in_flight: false,
                    close_sent: false,
                }) && f.wf() && f@ == (FrameView {
                    cmd: Cmd::Ack,
                    stream_id,
                    payload: Seq::<u8>::empty(),
                }))
                &&& final(self)@ == (MultiplexerView {
                    streams: old(self)@.streams.insert(stream_id, StreamHandle::initial(false)),
                    ..old(self)@
                })
            }),
    {
        match self.stream_manager.add_stream(stream_id, false) {
            Ok(()) => {},
            Err(e) => {
                return Err(e);
            },
        }

        Ok((Stream::new(stream_id), Frame::new_ack(stream_id)))
    }

    /// Dispatch an inbound frame to the registry; the returned action is what
    /// the host's ingress task must carry out. Dispatch errors are benign
    /// races with teardown and the ingress task ignores them.
    pub fn dispatch_frame(&mut self, frame: Frame) -> (r: Result<DispatchAction, Error>)
        ensures
            old(self)@.wf() ==> final(self)@.wf(),
            final(self)@ == (MultiplexerView { streams: final(self)@.streams, ..old(self)@ }),
            ({
                let id = frame.header.stream_id;
                let m = old(self)@.streams;
                let fm = final(self)@.streams;
                match frame.header.cmd {
                    Cmd::Syn => r == Ok::<DispatchAction, Error>(
                        DispatchAction::EnqueueCreation(id),
                    ) && fm == m,
                    Cmd::Ack => {
                        if !m.contains_key(id) {
                            r == Err::<DispatchAction, Error>(Error::StreamNotFound(id)) && fm == m
                        } else if m[id].awaiting_fin {
                            r == Ok::<DispatchAction, Error>(DispatchAction::RemoveAndFree(id))
                                && fm == m.remove(id)
                        } else if m[id].has_ack_waiter {
                            r == Ok::<DispatchAction, Error>(DispatchAction::FireAck(id)) && fm
                                == m.insert(id, StreamHandle { has_ack_waiter: false, ..m[id] })
                        } else {
                            (r matches Err(Error::Internal(_))) && fm == m
                        }
                    },
                    Cmd::Fin => {
                        if !m.contains_key(id) {
                            r == Err::<DispatchAction, Error>(Error::StreamNotFound(id)) && fm == m
                        } else if m[id].awaiting_fin {
                            r == Ok::<DispatchAction, Error>(DispatchAction::RemoveAndFree(id))
                                && fm == m.remove(id)
                        } else if m[id].has_fin_waiter {
                            r == Ok::<DispatchAction, Error>(DispatchAction::FreeAndFireFin(id))
                                && fm == m.insert(
                                id,
                                StreamHandle { has_fin_waiter: false, ..m[id] },
                            )
                        } else {
                            (r matches Err(Error::Internal(_))) && fm == m
                        }
                    },
                    Cmd::Push => {
                        if !m.contains_key(id) {
                            r == Err::<DispatchAction, Error>(Error::StreamNotFound(id)) && fm == m
                        } else {
                            (r matches Ok(DispatchAction::DeliverPush(g)) && g == frame) && fm == m
                        }
                    },
                }
            }),
    {
        self.stream_manager.dispatch_frame(frame)
    }

    /// Note that a stream lost its RW pair: while the peer's FIN is still
    /// outstanding its handle is marked as awaiting the peer's terminal FIN
    /// or ACK, and once that FIN was already consumed the handle is evicted.
    /// The host's close handler calls this on the stream's signal.
    pub fn soft_remove_stream(&mut self, stream_id: StreamId) -> (r: Result<(), Error>)
        ensures
            old(self)@.wf() ==> final(self)@.wf(),
            final(self)@ == (MultiplexerView { streams: final(self)@.streams, ..old(self)@ }),
            match r {
                Ok(()) => {
                    &&& old(self)@.streams.contains_key(stream_id)
                    &&& old(self)@.streams[stream_id].has_fin_waiter ==> final(self)@.streams
                        == old(self)@.streams.insert(
                        stream_id,
                        StreamHandle { awaiting_fin: true, ..old(self)@.streams[stream_id] },
                    )
                    &&& !old(self)@.streams[stream_id].has_fin_waiter ==> final(self)@.streams
                        == old(self)@.streams.remove(stream_id)
                },
                Err(e) => {
                    &&& e == Error::StreamNotFound(stream_id)
                    &&& !old(self)@.streams.contains_key(stream_id)
                    &&& final(self)@.streams == old(self)@.streams
                },
            },
    {
        self.stream_manager.soft_remove_stream(stream_id)
    }

    /// Recycle an evicted stream's id; the host's close handler calls this
    /// on the registry's free request. Peer-originated ids are ignored.
    pub fn free_stream_id(&mut self, stream_id: StreamId)
        ensures
            old(self)@.wf() ==> final(self)@.wf(),
            final(self)@ == (MultiplexerView {
                allocator: old(self)@.allocator.spec_free(stream_id),
                ..old(self)@
            }),
    {
        self.id_ca.free(stream_id)
    }

    /// Close the session. Idempotent by a one-shot latch: the first call
    /// sets the shutdown flag and returns true, telling the host to
    /// broadcast shutdown to the three background tasks; later calls do
    /// nothing.
    pub fn close(&mut self) -> (broadcast_shutdown: bool)
        ensures
            old(self)@.wf() ==> final(self)@.wf(),
            broadcast_shutdown == !old(self)@.shutdown_latched,
            final(self)@ == (MultiplexerView {
                is_shutdown: old(self)@.is_shutdown || !old(self)@.shutdown_latched,
                shutdown_latched: true,
                ..old(self)@
            }),
    {
        if self.shutdown_latched {
            return false;
        }
        self.shutdown_latched = true;
        self.is_shutdown = true;
        true
    }
}

} // verus!
