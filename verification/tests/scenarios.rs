//! End-to-end scenarios: two sessions joined by a pair of byte wires, driven
//! the way the async host drives the library — encode onto the wire, decode
//! from it, dispatch, and step the stream endpoints.

use std::collections::VecDeque;

use mux::codec::FrameCodec;
use mux::error::Error;
use mux::frame::Frame;
use mux::manager::DispatchAction;
use mux::multiplexer::Multiplexer;
use mux::stream::{FlightPoll, FlushStep, ReadEvent, ReadResolution, ReadStep, Stream, WriteStep};

/// One session together with the queues its background tasks would service.
struct Host {
    mux: Multiplexer,
    /// Bytes travelling toward the peer.
    wire_out: Vec<u8>,
    /// Ids of inbound SYNs, consumed by `accept`.
    creation: VecDeque<u16>,
    /// Fired "peer ACK observed" one-shots.
    acks: VecDeque<u16>,
    /// Fired "peer FIN observed" one-shots.
    fins: Vec<u16>,
    /// Per-stream inbound frame queues (the bounded channels).
    inbound: Vec<(u16, VecDeque<Frame>)>,
}

impl Host {
    fn client() -> Host {
        Host {
            mux: Multiplexer::client(),
            wire_out: Vec::new(),
            creation: VecDeque::new(),
            acks: VecDeque::new(),
            fins: Vec::new(),
            inbound: Vec::new(),
        }
    }

    fn server() -> Host {
        Host {
            mux: Multiplexer::server(),
            wire_out: Vec::new(),
            creation: VecDeque::new(),
            acks: VecDeque::new(),
            fins: Vec::new(),
            inbound: Vec::new(),
        }
    }

    fn send_frame(&mut self, frame: Frame) {
        FrameCodec.encode(frame, &mut self.wire_out).unwrap();
    }

    fn open_stream(&mut self) -> Stream {
        let (stream, syn) = self.mux.open().expect("client open failed");
        self.inbound.push((stream.stream_id(), VecDeque::new()));
        self.send_frame(syn);
        stream
    }

    fn accept_next(&mut self) -> Stream {
        let id = self.creation.pop_front().expect("server accept failed");
        let (stream, ack) = self.mux.accept(id).expect("server accept failed");
        self.inbound.push((id, VecDeque::new()));
        self.send_frame(ack);
        stream
    }

    fn queue_mut(&mut self, id: u16) -> &mut VecDeque<Frame> {
        let idx = self.inbound.iter().position(|(i, _)| *i == id).expect("no inbound queue");
        &mut self.inbound[idx].1
    }

    fn dispatch(&mut self, frame: Frame) {
        match self.mux.dispatch_frame(frame) {
            Ok(DispatchAction::EnqueueCreation(id)) => self.creation.push_back(id),
            Ok(DispatchAction::RemoveAndFree(id)) => self.mux.free_stream_id(id),
            Ok(DispatchAction::FireAck(id)) => self.acks.push_back(id),
            Ok(DispatchAction::FreeAndFireFin(id)) => {
                self.mux.free_stream_id(id);
                self.fins.push(id);
            },
            Ok(DispatchAction::DeliverPush(f)) => {
                let id = f.header.stream_id;
                self.queue_mut(id).push_back(f);
            },
            // a frame for a vanished stream is a benign race with teardown
            Err(_) => {},
        }
    }

    /// The ingress task: decode every complete frame the peer has written
    /// and dispatch it.
    fn pump_from(&mut self, peer_wire: &mut Vec<u8>) {
        let mut codec = FrameCodec;
        while let Some(frame) = codec.decode(peer_wire).expect("decode failed") {
            self.dispatch(frame);
        }
    }

    /// The ingress task under backpressure: deliver frames only while the
    /// one live stream's bounded inbound queue has room, then stall,
    /// leaving the remaining bytes unread on the wire.
    fn pump_bounded(&mut self, peer_wire: &mut Vec<u8>, capacity: usize) -> usize {
        let mut codec = FrameCodec;
        let mut delivered = 0;
        loop {
            if self.inbound[0].1.len() >= capacity {
                return delivered;
            }
            match codec.decode(peer_wire).expect("decode failed") {
                Some(frame) => {
                    self.dispatch(frame);
                    delivered += 1;
                },
                None => return delivered,
            }
        }
    }

    /// One blocking read: step the endpoint, feeding it frames from its
    /// inbound queue, until it yields data, EOF (`Ok` with no bytes), a
    /// broken pipe, or would suspend with nothing pending.
    fn read(&mut self, stream: &mut Stream, max: usize) -> Result<Vec<u8>, &'static str> {
        loop {
            match stream.read_step(max) {
                ReadStep::Denied => return Err("broken pipe"),
                ReadStep::Data(d) => return Ok(d),
                ReadStep::NeedPoll => {
                    let id = stream.stream_id();
                    if let Some(frame) = self.queue_mut(id).pop_front() {
                        assert_eq!(stream.read_event(ReadEvent::Frame(frame)), ReadResolution::Continue);
                    } else if self.fins.contains(&id) {
                        match stream.read_event(ReadEvent::Pending { peer_fin: true }) {
                            ReadResolution::Eof { signal_close } => {
                                if signal_close {
                                    let _ = self.mux.soft_remove_stream(id);
                                }
                                return Ok(Vec::new());
                            },
                            _ => panic!("peer FIN must end the read"),
                        }
                    } else {
                        assert_eq!(
                            stream.read_event(ReadEvent::Pending { peer_fin: false }),
                            ReadResolution::Pending
                        );
                        return Err("would block");
                    }
                },
            }
        }
    }

    /// A `write_all` followed by `flush`: accept the bytes, put the PUSH
    /// frame on the wire (the egress task runs synchronously here), and
    /// complete the in-flight send.
    fn write_flush(&mut self, stream: &mut Stream, data: &[u8]) {
        match stream.write_step(data, None) {
            WriteStep::Accepted { len, frame } => {
                assert_eq!(len, data.len());
                let written = frame.len();
                self.send_frame(frame);
                match stream.flush_step(Some(FlightPoll::Done(Ok(written)))) {
                    FlushStep::Flushed => {},
                    _ => panic!("flush failed"),
                }
            },
            _ => panic!("client write failed"),
        }
    }

    /// Dropping the endpoint: emit a FIN if W was still held, and signal the
    /// close handler.
    fn drop_stream(&mut self, mut stream: Stream) {
        let id = stream.stream_id();
        let effect = stream.on_drop();
        if effect.emit_fin {
            self.send_frame(Frame::new_fin(id));
        }
        if effect.signal_close {
            let _ = self.mux.soft_remove_stream(id);
        }
        self.inbound.retain(|(i, _)| *i != id);
    }
}

#[test]
fn round_trip() {
    let mut c = Host::client();
    let mut s = Host::server();

    let mut cs = c.open_stream();
    s.pump_from(&mut c.wire_out);
    let mut ss = s.accept_next();
    c.pump_from(&mut s.wire_out);
    assert_eq!(c.acks.pop_front(), Some(1), "open must see the peer ack");

    c.write_flush(&mut cs, b"hello");
    s.pump_from(&mut c.wire_out);
    assert_eq!(s.read(&mut ss, 5).unwrap(), b"hello");

    s.write_flush(&mut ss, b"hello");
    c.pump_from(&mut s.wire_out);
    assert_eq!(c.read(&mut cs, 5).unwrap(), b"hello");

    c.drop_stream(cs);
    s.pump_from(&mut c.wire_out);
    assert_eq!(s.read(&mut ss, 5).unwrap(), Vec::<u8>::new(), "peer FIN reads as EOF");
}

#[test]
fn many_streams() {
    let mut c = Host::client();
    let mut s = Host::server();
    let total: usize = 1 << 20;

    for i in 0..total {
        let mut cs = c.open_stream();
        s.pump_from(&mut c.wire_out);
        let mut ss = s.accept_next();
        c.pump_from(&mut s.wire_out);
        assert!(c.acks.pop_front().is_some(), "client open failed");

        let msg = format!("hello server stream {i}").into_bytes();
        c.write_flush(&mut cs, &msg);
        s.pump_from(&mut c.wire_out);
        let got = s.read(&mut ss, msg.len()).expect("read failed");
        s.write_flush(&mut ss, &got);
        s.drop_stream(ss);

        c.pump_from(&mut s.wire_out);
        let buf = c.read(&mut cs, msg.len()).expect("client read failed");
        assert_eq!(buf, msg, "mismatch on stream {i}");
        c.drop_stream(cs);
        s.pump_from(&mut c.wire_out);

        c.fins.clear();
        s.fins.clear();
    }

    assert!(c.mux.close());
}

#[test]
fn parity_of_first_ids() {
    let mut c = Host::client();
    let mut s = Host::server();

    let c1 = c.open_stream();
    let c2 = c.open_stream();
    let c3 = c.open_stream();
    assert_eq!(
        (c1.stream_id(), c2.stream_id(), c3.stream_id()),
        (1, 3, 5),
        "first client ids"
    );

    let s1 = s.open_stream();
    let s2 = s.open_stream();
    let s3 = s.open_stream();
    assert_eq!(
        (s1.stream_id(), s2.stream_id(), s3.stream_id()),
        (2, 4, 6),
        "first server ids"
    );
}

#[test]
fn backpressure() {
    let capacity = mux::consts::FRAME_BUFFER_SIZE;
    let total = 2000;

    let mut c = Host::client();
    let mut s = Host::server();
    let mut cs = c.open_stream();
    s.pump_from(&mut c.wire_out);
    let mut ss = s.accept_next();
    c.pump_from(&mut s.wire_out);
    c.acks.pop_front().unwrap();

    // the peer writes 2000 frames without the local reader consuming
    for _ in 0..total {
        s.write_flush(&mut ss, b"x");
    }

    // the local ingress stalls once the per-stream queue is full
    let delivered = c.pump_bounded(&mut s.wire_out, capacity);
    assert_eq!(delivered, capacity, "ingress must stall at the channel bound");
    assert!(!s.wire_out.is_empty(), "the rest must still sit on the wire");

    // once the reader consumes, the ingress resumes and everything arrives
    let mut received = 0;
    while received < total {
        match c.read(&mut cs, 1) {
            Ok(b) => {
                assert_eq!(b, b"x");
                received += 1;
            },
            Err("would block") => {
                let more = c.pump_bounded(&mut s.wire_out, capacity);
                assert!(more > 0, "ingress must resume once the reader consumed");
            },
            Err(e) => panic!("read failed: {e}"),
        }
    }
    assert_eq!(received, total);
    assert!(s.wire_out.is_empty());
}

#[test]
fn peer_fin_before_data_drain() {
    let mut c = Host::client();
    let mut s = Host::server();
    let mut cs = c.open_stream();
    s.pump_from(&mut c.wire_out);
    let mut ss = s.accept_next();
    c.pump_from(&mut s.wire_out);
    c.acks.pop_front().unwrap();

    // the peer writes "abc" then drops
    s.write_flush(&mut ss, b"abc");
    s.drop_stream(ss);
    c.pump_from(&mut s.wire_out);

    // the local read yields the data first, then EOF, not an error
    assert_eq!(c.read(&mut cs, 16).unwrap(), b"abc");
    assert_eq!(c.read(&mut cs, 16).unwrap(), Vec::<u8>::new());
}

#[test]
fn zero_byte_push_delivers_no_bytes_and_no_eof() {
    let mut c = Host::client();
    let mut s = Host::server();
    let mut cs = c.open_stream();
    s.pump_from(&mut c.wire_out);
    let mut ss = s.accept_next();
    c.pump_from(&mut s.wire_out);
    c.acks.pop_front().unwrap();

    s.write_flush(&mut ss, b"");
    c.pump_from(&mut s.wire_out);
    // the reader gets no bytes, but the stream is not at EOF
    assert_eq!(c.read(&mut cs, 16), Err("would block"));
}

#[test]
fn open_after_close_is_rejected() {
    let mut c = Host::client();
    assert!(c.mux.close(), "first close must broadcast the shutdown");
    assert!(!c.mux.close(), "close is idempotent");
    assert!(matches!(c.mux.open(), Err(Error::ConnectionClosed)));
}

#[test]
fn accepting_a_live_id_twice_is_a_duplicate() {
    let mut s = Host::server();
    assert!(s.mux.accept(9).is_ok());
    assert!(matches!(s.mux.accept(9), Err(Error::DuplicateStream(9))));
}

#[test]
fn frames_for_unknown_streams_are_not_found() {
    let mut c = Host::client();
    assert!(matches!(
        c.mux.dispatch_frame(Frame::new_push(42, b"data")),
        Err(Error::StreamNotFound(42))
    ));
    assert!(matches!(
        c.mux.dispatch_frame(Frame::new_fin(42)),
        Err(Error::StreamNotFound(42))
    ));
    assert!(matches!(
        c.mux.dispatch_frame(Frame::new_ack(42)),
        Err(Error::StreamNotFound(42))
    ));
}

#[test]
fn second_ack_without_a_waiter_is_internal() {
    let mut c = Host::client();
    let _cs = c.open_stream();
    assert!(matches!(
        c.mux.dispatch_frame(Frame::new_ack(1)),
        Ok(DispatchAction::FireAck(1))
    ));
    assert!(matches!(c.mux.dispatch_frame(Frame::new_ack(1)), Err(Error::Internal(_))));
}

#[test]
fn stream_close_emits_exactly_one_fin() {
    let mut cs = Stream::new(1);
    let first = cs.close();
    assert!(first.emit_fin);
    let second = cs.close();
    assert!(!second.emit_fin);
    let third = cs.close();
    assert!(!third.emit_fin);
    // a later drop owes no second FIN either
    let effect = cs.on_drop();
    assert!(!effect.emit_fin);
    assert!(effect.signal_close);
}

#[test]
fn write_after_close_is_broken_pipe() {
    let mut cs = Stream::new(1);
    cs.close();
    assert_eq!(cs.write_step(b"data", None), WriteStep::Denied);
}

#[test]
fn failed_send_surfaces_on_the_next_write() {
    let mut cs = Stream::new(1);
    let first = cs.write_step(b"data", None);
    assert!(matches!(first, WriteStep::Accepted { len: 4, .. }));
    // the egress task reports the five-second bound was missed
    let second = cs.write_step(b"more", Some(FlightPoll::Done(Err(Error::MessageSendTooLong))));
    assert_eq!(second, WriteStep::Failed(Error::MessageSendTooLong));
}

#[test]
fn pending_send_suspends_write_and_flush() {
    let mut cs = Stream::new(1);
    assert!(matches!(cs.write_step(b"a", None), WriteStep::Accepted { .. }));
    assert_eq!(cs.write_step(b"b", Some(FlightPoll::Pending)), WriteStep::Pending);
    assert_eq!(cs.flush_step(Some(FlightPoll::Pending)), FlushStep::Pending);
    assert_eq!(cs.flush_step(Some(FlightPoll::Done(Ok(7)))), FlushStep::Flushed);
    // nothing is in flight anymore
    assert_eq!(cs.flush_step(None), FlushStep::Flushed);
}

#[test]
fn open_fails_once_ids_exhaust() {
    let mut c = Host::client();
    for _ in 0..32767 {
        c.open_stream();
    }
    assert!(matches!(c.mux.open(), Err(Error::StreamLimitExceeded)));
}

#[test]
fn id_of_a_closed_stream_is_reused() {
    let mut c = Host::client();
    let mut s = Host::server();

    let cs = c.open_stream();
    assert_eq!(cs.stream_id(), 1);
    s.pump_from(&mut c.wire_out);
    let ss = s.accept_next();
    c.pump_from(&mut s.wire_out);
    c.acks.pop_front().unwrap();

    // the server side drops first, then the client side
    s.drop_stream(ss);
    c.pump_from(&mut s.wire_out);
    c.drop_stream(cs);
    s.pump_from(&mut c.wire_out);
    c.fins.clear();

    // the originator reuses the recycled id
    let cs2 = c.open_stream();
    assert_eq!(cs2.stream_id(), 1);
    s.pump_from(&mut c.wire_out);
    let ss2 = s.accept_next();
    assert_eq!(ss2.stream_id(), 1);
}
