use boomnet::buffer::ReadBuffer;
use boomnet::error::ProtocolError;
use boomnet::ws::decoder::decode_next;
use boomnet::ws::decoder::parse_frame;
use boomnet::ws::encoder::encode_frame;
use boomnet::ws::encoder::send;
use boomnet::ws::frame::WebsocketFrame;
use boomnet::ws::frame::OP_BINARY;
use boomnet::ws::frame::OP_CLOSE;
use boomnet::ws::frame::OP_CONTINUATION;
use boomnet::ws::frame::OP_PING;
use boomnet::ws::frame::OP_PONG;
use boomnet::ws::frame::OP_TEXT;

fn payload_of(size: usize) -> Vec<u8> {
    (0..size).map(|i| (i * 31 + 7) as u8).collect()
}

fn roundtrip(fin: bool, op: u8, size: usize, key: [u8; 4]) -> (WebsocketFrame, usize, usize) {
    let payload = payload_of(size);
    let mut out = Vec::new();
    encode_frame(&mut out, fin, op, Some(&payload), &key);
    let (frame, used) = parse_frame(&out).unwrap().unwrap();
    (frame, used, out.len())
}

#[test]
fn encodes_the_rfc_hello_example() {
    let mut out = Vec::new();
    encode_frame(&mut out, true, OP_TEXT, Some(b"Hello"), &[0x37, 0xfa, 0x21, 0x3d]);
    assert_eq!(out, [0x81, 0x85, 0x37, 0xfa, 0x21, 0x3d, 0x7f, 0x9f, 0x4d, 0x51, 0x58]);
}

#[test]
fn decodes_the_rfc_hello_examples() {
    let unmasked = [0x81, 0x05, 0x48, 0x65, 0x6c, 0x6c, 0x6f];
    assert_eq!(
        parse_frame(&unmasked),
        Ok(Some((WebsocketFrame::Text(true, b"Hello".to_vec()), 7)))
    );
    let masked = [0x81, 0x85, 0x37, 0xfa, 0x21, 0x3d, 0x7f, 0x9f, 0x4d, 0x51, 0x58];
    assert_eq!(
        parse_frame(&masked),
        Ok(Some((WebsocketFrame::Text(true, b"Hello".to_vec()), 11)))
    );
    let fragment = [0x01, 0x03, 0x48, 0x65, 0x6c];
    assert_eq!(
        parse_frame(&fragment),
        Ok(Some((WebsocketFrame::Text(false, b"Hel".to_vec()), 5)))
    );
    let rest = [0x80, 0x02, 0x6c, 0x6f];
    assert_eq!(
        parse_frame(&rest),
        Ok(Some((WebsocketFrame::Continuation(true, b"lo".to_vec()), 4)))
    );
}

#[test]
fn absent_body_is_an_empty_payload() {
    let mut out = Vec::new();
    encode_frame(&mut out, true, OP_BINARY, None, &[1, 2, 3, 4]);
    assert_eq!(out, [0x82, 0x80, 1, 2, 3, 4]);
    let mut same = Vec::new();
    encode_frame(&mut same, true, OP_BINARY, Some(b""), &[1, 2, 3, 4]);
    assert_eq!(same, out);
}

#[test]
fn fin_and_opcode_share_the_first_byte() {
    let mut out = Vec::new();
    encode_frame(&mut out, false, OP_TEXT, None, &[0; 4]);
    assert_eq!(out[0], 0x01);
    out.clear();
    encode_frame(&mut out, true, OP_PONG, None, &[0; 4]);
    assert_eq!(out[0], 0x8a);
    out.clear();
    encode_frame(&mut out, true, 0xf1, None, &[0; 4]);
    assert_eq!(out[0], 0x81);
}

#[test]
fn length_uses_the_narrowest_encoding() {
    let key = [9, 8, 7, 6];
    let mut out = Vec::new();
    encode_frame(&mut out, true, OP_BINARY, Some(&payload_of(125)), &key);
    assert_eq!(out[1], 0x80 | 125);
    assert_eq!(out.len(), 2 + 4 + 125);
    out.clear();
    encode_frame(&mut out, true, OP_BINARY, Some(&payload_of(126)), &key);
    assert_eq!(&out[1..4], [0x80 | 126, 0x00, 0x7e]);
    assert_eq!(out.len(), 4 + 4 + 126);
    out.clear();
    encode_frame(&mut out, true, OP_BINARY, Some(&payload_of(256)), &key);
    assert_eq!(&out[1..4], [0xfe, 0x01, 0x00]);
    out.clear();
    encode_frame(&mut out, true, OP_BINARY, Some(&payload_of(65535)), &key);
    assert_eq!(&out[1..4], [0xfe, 0xff, 0xff]);
    assert_eq!(out.len(), 4 + 4 + 65535);
    out.clear();
    encode_frame(&mut out, true, OP_BINARY, Some(&payload_of(65536)), &key);
    assert_eq!(&out[1..10], [0xff, 0, 0, 0, 0, 0, 1, 0, 0]);
    assert_eq!(out.len(), 10 + 4 + 65536);
}

#[test]
fn roundtrip_at_the_length_boundaries() {
    for size in [0usize, 1, 125, 126, 65535, 65536] {
        for fin in [true, false] {
            for op in [OP_TEXT, OP_BINARY, OP_CONTINUATION] {
                let (frame, used, len) = roundtrip(fin, op, size, [0xde, 0xad, 0xbe, 0xef]);
                assert_eq!(used, len);
                assert_eq!(frame, WebsocketFrame::from_parts(fin, op, payload_of(size)).unwrap());
            }
        }
    }
}

#[test]
fn roundtrip_of_control_frames() {
    for size in [0usize, 1, 125] {
        for op in [OP_PING, OP_PONG, OP_CLOSE] {
            let (frame, used, len) = roundtrip(true, op, size, [1, 2, 3, 4]);
            assert_eq!(used, len);
            assert_eq!(frame, WebsocketFrame::from_parts(true, op, payload_of(size)).unwrap());
        }
    }
}

#[test]
fn masking_roundtrip_for_every_kind_of_key() {
    for key in [[0u8; 4], [0xff; 4], [0x00, 0xff, 0x00, 0xff], [0x12, 0x34, 0x56, 0x78]] {
        for size in [0usize, 1, 3, 4, 5, 127, 1000] {
            let (frame, _, _) = roundtrip(true, OP_BINARY, size, key);
            assert_eq!(frame, WebsocketFrame::Binary(true, payload_of(size)));
        }
    }
}

#[test]
fn zero_key_leaves_the_payload_as_it_is() {
    let mut out = Vec::new();
    encode_frame(&mut out, true, OP_TEXT, Some(b"abc"), &[0; 4]);
    assert_eq!(out, [0x81, 0x83, 0, 0, 0, 0, b'a', b'b', b'c']);
    out.clear();
    encode_frame(&mut out, true, OP_TEXT, Some(b"abcde"), &[0xff; 4]);
    assert_eq!(out, [0x81, 0x85, 0xff, 0xff, 0xff, 0xff, !b'a', !b'b', !b'c', !b'd', !b'e']);
}

#[test]
fn send_masks_with_a_key_of_its_own() {
    let mut out = b"..".to_vec();
    send(&mut out, true, OP_TEXT, Some(b"hello world"));
    assert_eq!(&out[..2], b"..");
    assert_eq!(out.len(), 2 + 2 + 4 + 11);
    assert_eq!(out[2], 0x81);
    assert_eq!(out[3], 0x80 | 11);
    assert_eq!(
        parse_frame(&out[2..]),
        Ok(Some((WebsocketFrame::Text(true, b"hello world".to_vec()), 17)))
    );
}

#[test]
fn incomplete_frames_are_not_ready() {
    let mut out = Vec::new();
    encode_frame(&mut out, true, OP_TEXT, Some(&payload_of(300)), &[5, 6, 7, 8]);
    for cut in [0usize, 1, 2, 3, 4, 7, 8, 100, out.len() - 1] {
        assert_eq!(parse_frame(&out[..cut]), Ok(None));
    }
    assert!(parse_frame(&out).unwrap().is_some());
    let long = [0x82u8, 0x7f, 0, 0, 0, 0, 0, 1];
    assert_eq!(parse_frame(&long), Ok(None));
}

#[test]
fn decoder_ignores_what_follows_the_frame() {
    let mut out = Vec::new();
    encode_frame(&mut out, true, OP_TEXT, Some(b"one"), &[1, 1, 1, 1]);
    let first = out.len();
    encode_frame(&mut out, true, OP_TEXT, Some(b"two"), &[2, 2, 2, 2]);
    out.push(0x81);
    assert_eq!(
        parse_frame(&out),
        Ok(Some((WebsocketFrame::Text(true, b"one".to_vec()), first)))
    );
}

#[test]
fn oversized_control_frames_are_violations() {
    for op in [OP_CLOSE, OP_PING, OP_PONG] {
        assert_eq!(parse_frame(&[0x80 | op, 126]), Err(ProtocolError::ProtocolViolation));
        assert_eq!(parse_frame(&[0x80 | op, 127]), Err(ProtocolError::ProtocolViolation));
        assert_eq!(parse_frame(&[0x80 | op, 0x80 | 126]), Err(ProtocolError::ProtocolViolation));
        let mut big = vec![0x80 | op, 126, 0, 126];
        big.extend_from_slice(&payload_of(126));
        assert_eq!(parse_frame(&big), Err(ProtocolError::ProtocolViolation));
        let mut fits = vec![0x80 | op, 125];
        fits.extend_from_slice(&payload_of(125));
        assert_eq!(
            parse_frame(&fits),
            Ok(Some((WebsocketFrame::from_parts(true, op, payload_of(125)).unwrap(), 127)))
        );
    }
    assert_eq!(
        ProtocolError::ProtocolViolation.description(),
        "websocket protocol violation"
    );
}

#[test]
fn fragmented_control_frames_are_violations() {
    assert_eq!(parse_frame(&[OP_PING, 0]), Err(ProtocolError::ProtocolViolation));
    assert_eq!(parse_frame(&[OP_CLOSE, 0]), Err(ProtocolError::ProtocolViolation));
    assert_eq!(parse_frame(&[OP_PONG, 2, 1, 2]), Err(ProtocolError::ProtocolViolation));
}

#[test]
fn unknown_opcodes_and_reserved_bits_are_violations() {
    for op in [3u8, 4, 5, 6, 7, 11, 12, 13, 14, 15] {
        assert_eq!(parse_frame(&[0x80 | op, 0]), Err(ProtocolError::ProtocolViolation));
    }
    for reserved in [0x10u8, 0x20, 0x40, 0x70] {
        assert_eq!(parse_frame(&[0x80 | reserved | OP_TEXT, 0]), Err(ProtocolError::ProtocolViolation));
    }
}

#[test]
fn from_parts_knows_the_six_opcodes() {
    assert_eq!(WebsocketFrame::from_parts(true, 0, vec![1]), Some(WebsocketFrame::Continuation(true, vec![1])));
    assert_eq!(WebsocketFrame::from_parts(false, 1, vec![]), Some(WebsocketFrame::Text(false, vec![])));
    assert_eq!(WebsocketFrame::from_parts(true, 2, vec![2]), Some(WebsocketFrame::Binary(true, vec![2])));
    assert_eq!(WebsocketFrame::from_parts(true, 8, vec![]), Some(WebsocketFrame::Close(true, vec![])));
    assert_eq!(WebsocketFrame::from_parts(true, 9, vec![3]), Some(WebsocketFrame::Ping(true, vec![3])));
    assert_eq!(WebsocketFrame::from_parts(true, 10, vec![4]), Some(WebsocketFrame::Pong(true, vec![4])));
    assert_eq!(WebsocketFrame::from_parts(true, 3, vec![]), None);
    assert_eq!(WebsocketFrame::from_parts(true, 16, vec![]), None);
}

#[test]
fn decode_next_consumes_whole_frames_only() {
    let mut wire = Vec::new();
    encode_frame(&mut wire, true, OP_TEXT, Some(b"one"), &[1, 2, 3, 4]);
    encode_frame(&mut wire, true, OP_BINARY, Some(b"two!"), &[4, 3, 2, 1]);
    let mut buffer = ReadBuffer::new(64);
    assert_eq!(decode_next(&mut buffer), Ok(None));
    assert_eq!(buffer.append(&wire[..5]), Ok(()));
    assert_eq!(decode_next(&mut buffer), Ok(None));
    assert_eq!(buffer.available(), 5);
    assert_eq!(buffer.append(&wire[5..]), Ok(()));
    assert_eq!(decode_next(&mut buffer), Ok(Some(WebsocketFrame::Text(true, b"one".to_vec()))));
    assert_eq!(buffer.available(), 10);
    assert_eq!(decode_next(&mut buffer), Ok(Some(WebsocketFrame::Binary(true, b"two!".to_vec()))));
    assert_eq!(buffer.available(), 0);
    assert_eq!(decode_next(&mut buffer), Ok(None));
}

#[test]
fn decode_next_leaves_an_invalid_frame_in_place() {
    let mut buffer = ReadBuffer::new(64);
    assert_eq!(buffer.append(&[0x89, 126, 0, 200]), Ok(()));
    assert_eq!(decode_next(&mut buffer), Err(ProtocolError::ProtocolViolation));
    assert_eq!(buffer.view(), [0x89, 126, 0, 200]);
    assert_eq!(decode_next(&mut buffer), Err(ProtocolError::ProtocolViolation));
}
