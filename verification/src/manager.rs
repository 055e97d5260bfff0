//! The stream registry: per-stream handles and the rules for dispatching an
//! inbound frame to the right one.
//!
//! The registry decides what each inbound frame means for the per-stream
//! state; the host then carries out the returned action on its channels
//! (enqueue an id for `accept`, fire a one-shot, deliver a payload, recycle
//! an id).

use std::collections::HashMap;

use vstd::prelude::*;

use crate::consts::StreamId;
use crate::error::Error;
use crate::frame::{Cmd, Frame};

verus! {

broadcast use vstd::std_specs::hash::group_hash_axioms;

/// The registry's record of one live stream.
///
/// `has_fin_waiter` and `has_ack_waiter` say whether the one-shot senders
/// for "peer FIN observed" and "peer ACK observed" are still unconsumed;
/// the ACK waiter exists only for locally opened streams. `awaiting_fin`
/// marks a stream whose local side already sent FIN and now waits for the
/// peer's FIN or ACK to finish teardown.
#[derive(Debug, Clone, Copy, PartialEq, Eq, Structural)]
pub struct StreamHandle {
    pub has_fin_waiter: bool,
    pub has_ack_waiter: bool,
    pub awaiting_fin: bool,
}

impl StreamHandle {
    /// The record a stream starts with: both waiters armed as requested,
    /// not yet awaiting teardown.
    pub open spec fn initial(has_ack_waiter: bool) -> StreamHandle {
        StreamHandle { has_fin_waiter: true, has_ack_waiter, awaiting_fin: false }
    }
}

/// What the host must do after a frame was dispatched.
#[derive(Debug, PartialEq, Eq)]
pub enum DispatchAction {
    /// An inbound SYN: put the id on the queue `accept` reads from.
    EnqueueCreation(StreamId),
    /// An inbound ACK completed a locally initiated close: the handle is
    /// gone; ask the close handler to recycle the id.
    RemoveAndFree(StreamId),
    /// An inbound ACK answered a local `open`: fire the ACK one-shot.
    FireAck(StreamId),
    /// An inbound FIN closed the peer's half: ask the close handler to
    /// recycle the id, and fire the peer-FIN one-shot.
    FreeAndFireFin(StreamId),
    /// An inbound PUSH: send the frame on the stream's inbound channel.
    DeliverPush(Frame),
}

/// Registry of live per-stream handles, keyed by stream id.
pub struct StreamManager {
    streams: HashMap<StreamId, StreamHandle>,
}

impl View for StreamManager {
    type V = Map<StreamId, StreamHandle>;

    closed spec fn view(&self) -> Map<StreamId, StreamHandle> {
        self.streams@
    }
}

impl StreamManager {
    /// An empty registry.
    pub fn new() -> (r: Self)
        ensures
            r@ == Map::<StreamId, StreamHandle>::empty(),
    {
        Self { streams: HashMap::new() }
    }

    /// Whether a handle is registered for this id.
    pub fn has_stream(&self, stream_id: StreamId) -> (r: bool)
        ensures
            r == self@.contains_key(stream_id),
    {
        self.streams.contains_key(&stream_id)
    }

    /// Register a handle for a newly opened or accepted stream. The FIN
    /// waiter is always armed; the ACK waiter only for locally opened
    /// streams. Fails with `DuplicateStream` if the id is already live.
    pub fn add_stream(&mut self, stream_id: StreamId, has_ack_waiter: bool) -> (r: Result<
        (),
        Error,
    >)
        ensures
            match r {
                Ok(()) => {
                    &&& !old(self)@.contains_key(stream_id)
                    &&& final(self)@ == old(self)@.insert(
                        stream_id,
                        StreamHandle::initial(has_ack_waiter),
                    )
                },
                Err(e) => {
                    &&& e == Error::DuplicateStream(stream_id)
                    &&& old(self)@.contains_key(stream_id)
                    &&& final(self)@ == old(self)@
                },
            },
    {
        if self.streams.contains_key(&stream_id) {
            return Err(Error::DuplicateStream(stream_id));
        }
        let handle = StreamHandle { has_fin_waiter: true, has_ack_waiter, awaiting_fin: false };
        self.streams.insert(stream_id, handle);
        Ok(())
    }

    /// Note that a stream's local endpoint lost its permissions. While the
    /// peer's FIN is still outstanding the handle stays, marked
    /// `awaiting_fin`, so the peer's terminal FIN or ACK can finish
    /// teardown; once the peer's FIN was already consumed, local teardown is
    /// confirmed on both ends and the handle is evicted. Fails with
    /// `StreamNotFound` on an id with no live handle.
    pub fn soft_remove_stream(&mut self, stream_id: StreamId) -> (r: Result<(), Error>)
        ensures
            match r {
                Ok(()) => {
                    &&& old(self)@.contains_key(stream_id)
                    &&& old(self)@[stream_id].has_fin_waiter ==> final(self)@ == old(
                        self,
                    )@.insert(
                        stream_id,
                        StreamHandle { awaiting_fin: true, ..old(self)@[stream_id] },
                    )
                    &&& !old(self)@[stream_id].has_fin_waiter ==> final(self)@ == old(
                        self,
                    )@.remove(stream_id)
                },
                Err(e) => {
                    &&& e == Error::StreamNotFound(stream_id)
                    &&& !old(self)@.contains_key(stream_id)
                    &&& final(self)@ == old(self)@
                },
            },
    {
        let handle = match self.streams.get(&stream_id) {
            Some(h) => *h,
            None => {
                return Err(Error::StreamNotFound(stream_id));
            },
        };
        if handle.has_fin_waiter {
            self.streams.insert(stream_id, StreamHandle { awaiting_fin: true, ..handle });
        } else {
            self.streams.remove(&stream_id);
        }
        Ok(())
    }

    /// Decide what an inbound frame means, by its command.
    ///
    /// SYN queues the id for `accept`. ACK either completes a locally
    /// initiated close (`awaiting_fin`: the handle is removed and the id
    /// recycled) or consumes the ACK waiter of a local `open`. FIN on a
    /// stream already awaiting teardown is likewise terminal — either a FIN
    /// or an ACK completes a locally initiated close — and evicts the
    /// handle; otherwise it consumes the FIN waiter and recycles the id.
    /// PUSH is handed back for delivery on the stream's inbound channel.
    /// Unknown ids fail with `StreamNotFound`; a missing waiter is an
    /// `Internal` fault.
    pub fn dispatch_frame(&mut self, frame: Frame) -> (r: Result<DispatchAction, Error>)
        ensures
            ({
                let id = frame.header.stream_id;
                let m = old(self)@;
                let fm = final(self)@;
                match frame.header.cmd {
                    Cmd::Syn => r == Ok::<DispatchAction, Error>(
                        DispatchAction::EnqueueCreation(id),
                    ) && fm == m,
                    Cmd::Ack => {
                        if !m.contains_key(id) {
                            r == Err::<DispatchAction, Error>(Error::StreamNotFound(id)) && fm == m
                        } else if m[id].awaiting_fin {
                            r == Ok::<DispatchAction, Error>(DispatchAction::RemoveAndFree(id))
                                && fm == m.remove(id)
                        } else if m[id].has_ack_waiter {
                            r == Ok::<DispatchAction, Error>(DispatchAction::FireAck(id)) && fm
                                == m.insert(id, StreamHandle { has_ack_waiter: false, ..m[id] })
                        } else {
                            (r matches Err(Error::Internal(_))) && fm == m
                        }
                    },
                    Cmd::Fin => {
                        if !m.contains_key(id) {
                            r == Err::<DispatchAction, Error>(Error::StreamNotFound(id)) && fm == m
                        } else if m[id].awaiting_fin {
                            r == Ok::<DispatchAction, Error>(DispatchAction::RemoveAndFree(id))
                                && fm == m.remove(id)
                        } else if m[id].has_fin_waiter {
                            r == Ok::<DispatchAction, Error>(DispatchAction::FreeAndFireFin(id))
                                && fm == m.insert(
                                id,
                                StreamHandle { has_fin_waiter: false, ..m[id] },
                            )
                        } else {
                            (r matches Err(Error::Internal(_))) && fm == m
                        }
                    },
                    Cmd::Push => {
                        if !m.contains_key(id) {
                            r == Err::<DispatchAction, Error>(Error::StreamNotFound(id)) && fm == m
                        } else {
                            (r matches Ok(DispatchAction::DeliverPush(g)) && g == frame) && fm == m
                        }
                    },
                }
            }),
    {
        let stream_id = frame.header.stream_id;

        match frame.header.cmd {
            Cmd::Syn => Ok(DispatchAction::EnqueueCreation(stream_id)),
            Cmd::Ack => {
                let handle = match self.streams.get(&stream_id) {
                    Some(h) => *h,
                    None => {
                        return Err(Error::StreamNotFound(stream_id));
                    },
                };

                if handle.awaiting_fin {
                    self.streams.remove(&stream_id);
                    return Ok(DispatchAction::RemoveAndFree(stream_id));
                }

                if !handle.has_ack_waiter {
                    return Err(Error::Internal(String::from_str("remote ack tx not found")));
                }
                self.streams.insert(stream_id, StreamHandle { has_ack_waiter: false, ..handle });
                Ok(DispatchAction::FireAck(stream_id))
            },
            Cmd::Fin => {
                let handle = match self.streams.get(&stream_id) {
                    Some(h) => *h,
                    None => {
                        return Err(Error::StreamNotFound(stream_id));
                    },
                };

                if handle.awaiting_fin {
                    self.streams.remove(&stream_id);
                    return Ok(DispatchAction::RemoveAndFree(stream_id));
                }

                if !handle.has_fin_waiter {
                    return Err(Error::Internal(String::from_str("remote fin tx not found")));
                }
                self.streams.insert(stream_id, StreamHandle { has_fin_waiter: false, ..handle });
                Ok(DispatchAction::FreeAndFireFin(stream_id))
            },
            Cmd::Push => {
                if !self.streams.contains_key(&stream_id) {
                    return Err(Error::StreamNotFound(stream_id));
                }
                Ok(DispatchAction::DeliverPush(frame))
            },
        }
    }
}

} // verus!
