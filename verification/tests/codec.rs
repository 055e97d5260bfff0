use mux::codec::FrameCodec;
use mux::error::Error;
use mux::frame::{Cmd, Frame, Header, HEADER_LENGTH};

#[test]
fn encode_decode_roundtrip() {
    let mut codec = FrameCodec;
    let mut buf: Vec<u8> = Vec::new();

    let frames = [
        Frame::new_syn(1),
        Frame::new_push(1, b"hello"),
        Frame::new_push(2, b"world"),
        Frame::new_fin(1),
    ];

    let mut decoded = Vec::new();

    for frame in frames {
        codec.encode(frame, &mut buf).unwrap();
        while let Some(f) = codec.decode(&mut buf).unwrap() {
            decoded.push(f);
        }
    }

    assert_eq!(decoded.len(), 4);
    assert_eq!(decoded[0].header.cmd, Cmd::Syn);
    assert_eq!(decoded[1].header.cmd, Cmd::Push);
    assert_eq!(decoded[1].payload, b"hello");
    assert_eq!(decoded[2].payload, b"world");
    assert_eq!(decoded[3].header.cmd, Cmd::Fin);
}

#[test]
fn decode_partial_frame_returns_none() {
    let mut codec = FrameCodec;

    let frame = Frame::new_push(1, b"hello");
    let mut buf = Vec::new();
    codec.encode(frame, &mut buf).unwrap();

    buf.truncate(buf.len() - 1);

    let result = codec.decode(&mut buf).unwrap();
    assert!(result.is_none(), "Partial frame should return None");
}

#[test]
fn partial_frame_completes_when_last_byte_arrives() {
    let mut codec = FrameCodec;

    let frame = Frame::new_push(1, b"hello");
    let mut buf = Vec::new();
    codec.encode(frame.clone(), &mut buf).unwrap();
    assert_eq!(buf.len(), 11);
    let last = buf[10];

    buf.truncate(10);
    assert!(codec.decode(&mut buf).unwrap().is_none());
    // nothing was consumed
    assert_eq!(buf.len(), 10);

    buf.push(last);
    let decoded = codec.decode(&mut buf).unwrap().unwrap();
    assert_eq!(decoded, frame);
    assert!(buf.is_empty());
}

#[test]
fn zero_byte_push_is_legal() {
    let mut codec = FrameCodec;
    let mut buf = Vec::new();
    codec.encode(Frame::new_push(7, b""), &mut buf).unwrap();
    assert_eq!(buf.len(), HEADER_LENGTH);
    let f = codec.decode(&mut buf).unwrap().unwrap();
    assert_eq!(f.header.cmd, Cmd::Push);
    assert_eq!(f.header.stream_id, 7);
    assert!(f.payload.is_empty());
}

#[test]
fn max_payload_is_legal_and_one_more_fails() {
    let mut codec = FrameCodec;

    let data = vec![0xabu8; 65535];
    let mut buf = Vec::new();
    codec.encode(Frame::new_push(1, &data), &mut buf).unwrap();
    assert_eq!(buf.len(), HEADER_LENGTH + 65535);
    let f = codec.decode(&mut buf).unwrap().unwrap();
    assert_eq!(f.payload, data);

    let too_long = vec![0u8; 65536];
    let mut buf2 = Vec::new();
    let r = codec.encode(Frame::new_push(1, &too_long), &mut buf2);
    assert!(matches!(r, Err(Error::PayloadTooLong)));
    assert!(buf2.is_empty());
}

#[test]
fn bad_version_byte_fails_decode() {
    let mut codec = FrameCodec;
    let mut buf = vec![0x01u8, 0x01, 0x00, 0x01, 0x00, 0x00];
    let r = codec.decode(&mut buf);
    assert!(matches!(r, Err(Error::InvalidVersion(0x01))));
    assert_eq!(buf.len(), 6);
}

#[test]
fn bad_cmd_byte_fails_decode() {
    let mut codec = FrameCodec;
    let mut buf = vec![0x00u8, 0x05, 0x00, 0x01, 0x00, 0x00];
    let r = codec.decode(&mut buf);
    assert!(matches!(r, Err(Error::InvalidCmd(0x05))));

    assert!(matches!(Cmd::try_from(0), Err(Error::InvalidCmd(0))));
    assert_eq!(Cmd::try_from(1).unwrap(), Cmd::Syn);
    assert_eq!(Cmd::try_from(2).unwrap(), Cmd::Ack);
    assert_eq!(Cmd::try_from(3).unwrap(), Cmd::Fin);
    assert_eq!(Cmd::try_from(4).unwrap(), Cmd::Push);
}

#[test]
fn header_layout_is_big_endian() {
    let mut codec = FrameCodec;
    let mut buf = Vec::new();
    let frame = Frame {
        header: Header::new(0, Cmd::Push, 0x0102, 2),
        payload: vec![0xaa, 0xbb],
    };
    codec.encode(frame, &mut buf).unwrap();
    assert_eq!(buf, vec![0x00, 0x04, 0x01, 0x02, 0x00, 0x02, 0xaa, 0xbb]);
}

#[test]
fn frame_len_counts_header_and_payload() {
    assert_eq!(Frame::new_push(1, b"hello").len(), 11);
    assert_eq!(Frame::new_syn(1).len(), HEADER_LENGTH);
    assert_eq!(Frame::new_ack(2).len(), HEADER_LENGTH);
    assert_eq!(Frame::new_fin(3).len(), HEADER_LENGTH);
}
