use boomnet::error::Progress;
use boomnet::error::ProtocolError;
use boomnet::ws::decoder::parse_frame;
use boomnet::ws::encoder::encode_frame;
use boomnet::ws::frame::WebsocketFrame;
use boomnet::ws::frame::OP_BINARY;
use boomnet::ws::frame::OP_CLOSE;
use boomnet::ws::frame::OP_PING;
use boomnet::ws::frame::OP_PONG;
use boomnet::ws::frame::OP_TEXT;
use boomnet::ws::websocket::Websocket;

const ACCEPT: &[u8] = b"HTTP/1.1 101 Switching Protocols\r\nUpgrade: websocket\r\n\r\n";

fn frames_in(wire: &[u8]) -> Vec<WebsocketFrame> {
    let mut frames = Vec::new();
    let mut at = 0;
    while at < wire.len() {
        let (frame, used) = parse_frame(&wire[at..]).unwrap().unwrap();
        frames.push(frame);
        at += used;
    }
    frames
}

fn server_frame(fin: bool, op: u8, payload: &[u8]) -> Vec<u8> {
    let mut wire = vec![(if fin { 0x80 } else { 0 }) | op];
    if payload.len() <= 125 {
        wire.push(payload.len() as u8);
    } else if payload.len() <= 65535 {
        wire.push(126);
        wire.extend_from_slice(&(payload.len() as u16).to_be_bytes());
    } else {
        wire.push(127);
        wire.extend_from_slice(&(payload.len() as u64).to_be_bytes());
    }
    wire.extend_from_slice(payload);
    wire
}

fn connected() -> Websocket {
    let mut ws = Websocket::new("example.com", "/ws", 1 << 20);
    let mut out = Vec::new();
    assert_eq!(ws.perform_handshake(&mut out), Ok(Progress::WouldBlock));
    assert_eq!(ws.read(ACCEPT), Ok(()));
    assert_eq!(ws.perform_handshake(&mut out), Ok(Progress::WouldBlock));
    assert!(ws.handshake_complete());
    assert_eq!(ws.perform_handshake(&mut out), Ok(Progress::Ready));
    ws
}

#[test]
fn messages_sent_before_completion_are_queued() {
    let mut ws = Websocket::new("example.com", "/ws", 1024);
    let mut out = Vec::new();
    ws.send(&mut out, true, OP_TEXT, Some(b"subscribe"));
    assert!(out.is_empty());
    assert!(!ws.handshake_complete());
    assert_eq!(ws.perform_handshake(&mut out), Ok(Progress::WouldBlock));
    assert!(out.starts_with(b"GET /ws HTTP/1.1\r\n"));
    let request = out.len();
    ws.send(&mut out, true, OP_BINARY, Some(b"early"));
    assert_eq!(out.len(), request);
}

#[test]
fn queued_messages_go_out_in_order_once_completed() {
    let mut ws = Websocket::new("example.com", "/ws", 1024);
    let mut out = Vec::new();
    ws.send(&mut out, true, OP_TEXT, Some(b"one"));
    assert_eq!(ws.perform_handshake(&mut out), Ok(Progress::WouldBlock));
    ws.send(&mut out, false, OP_BINARY, Some(b"two"));
    ws.send(&mut out, true, OP_TEXT, None);
    out.clear();
    assert_eq!(ws.read(ACCEPT), Ok(()));
    assert_eq!(ws.perform_handshake(&mut out), Ok(Progress::WouldBlock));
    assert!(ws.handshake_complete());
    ws.send(&mut out, true, OP_TEXT, Some(b"four"));
    assert_eq!(
        frames_in(&out),
        vec![
            WebsocketFrame::Text(true, b"one".to_vec()),
            WebsocketFrame::Binary(false, b"two".to_vec()),
            WebsocketFrame::Text(true, Vec::new()),
            WebsocketFrame::Text(true, b"four".to_vec()),
        ]
    );
    out.clear();
    assert_eq!(ws.perform_handshake(&mut out), Ok(Progress::Ready));
    assert!(out.is_empty());
}

#[test]
fn queued_and_direct_messages_look_the_same() {
    let mut early = Websocket::new("example.com", "/ws", 1024);
    let mut early_out = Vec::new();
    assert_eq!(early.perform_handshake(&mut early_out), Ok(Progress::WouldBlock));
    early.send(&mut early_out, true, OP_TEXT, Some(b"same message"));
    early_out.clear();
    assert_eq!(early.read(ACCEPT), Ok(()));
    assert_eq!(early.perform_handshake(&mut early_out), Ok(Progress::WouldBlock));
    let mut late = connected();
    let mut late_out = Vec::new();
    late.send(&mut late_out, true, OP_TEXT, Some(b"same message"));
    assert_eq!(early_out.len(), late_out.len());
    assert_eq!(early_out[..2], late_out[..2]);
    assert_eq!(frames_in(&early_out), frames_in(&late_out));
}

#[test]
fn refused_upgrade_fails_the_connection() {
    let mut ws = Websocket::new("example.com", "/ws", 1024);
    let mut out = Vec::new();
    ws.send(&mut out, true, OP_TEXT, Some(b"never sent"));
    assert_eq!(ws.perform_handshake(&mut out), Ok(Progress::WouldBlock));
    out.clear();
    assert_eq!(ws.read(b"HTTP/1.1 404 Not Found\r\n\r\n"), Ok(()));
    assert_eq!(ws.perform_handshake(&mut out), Err(ProtocolError::UpgradeRefused(404)));
    assert!(!ws.handshake_complete());
    assert!(out.is_empty());
}

#[test]
fn echo_of_a_256_byte_text_frame() {
    let mut ws = Websocket::new("example.com", "/echo", 4096);
    let mut out = Vec::new();
    let message = [90u8; 256];
    ws.send(&mut out, true, OP_TEXT, Some(&message));
    let mut to_client: Vec<u8> = Vec::new();
    let mut received = Vec::new();
    let mut accepted = false;
    let mut echoed = false;
    let mut cycles = 0;
    while received.is_empty() && cycles < 10 {
        cycles += 1;
        let progress = ws.perform_handshake(&mut out).unwrap();
        if progress == Progress::Ready {
            let batch = ws.receive_batch(&mut out);
            assert_eq!(batch.outcome, Ok(()));
            received.extend(batch.frames);
        }
        if !out.is_empty() {
            if !accepted {
                assert!(out.starts_with(b"GET /echo HTTP/1.1\r\n"));
                assert!(out.ends_with(b"\r\n\r\n"));
                to_client.extend_from_slice(ACCEPT);
                accepted = true;
            } else {
                assert!(!echoed);
                for frame in frames_in(&out) {
                    match frame {
                        WebsocketFrame::Text(fin, payload) => {
                            to_client.extend_from_slice(&server_frame(fin, OP_TEXT, &payload))
                        }
                        other => panic!("unexpected frame {:?}", other),
                    }
                }
                echoed = true;
            }
            out.clear();
        }
        if !to_client.is_empty() {
            assert_eq!(ws.read(&to_client), Ok(()));
            to_client.clear();
        }
    }
    assert_eq!(received, vec![WebsocketFrame::Text(true, message.to_vec())]);
    assert!(cycles < 10);
    let batch = ws.receive_batch(&mut out);
    assert!(batch.frames.is_empty());
    assert_eq!(batch.outcome, Ok(()));
}

#[test]
fn receive_before_completion_does_nothing() {
    let mut ws = Websocket::new("example.com", "/ws", 1024);
    let mut out = Vec::new();
    ws.send(&mut out, true, OP_TEXT, Some(b"queued"));
    let batch = ws.receive_batch(&mut out);
    assert!(batch.frames.is_empty());
    assert_eq!(batch.outcome, Ok(()));
    assert!(out.is_empty());
}

#[test]
fn batch_holds_every_whole_frame() {
    let mut ws = connected();
    let mut out = Vec::new();
    let mut wire = server_frame(true, OP_TEXT, b"a");
    wire.extend_from_slice(&server_frame(false, OP_BINARY, b"bc"));
    wire.extend_from_slice(&server_frame(true, 0, b"def"));
    wire.extend_from_slice(&server_frame(true, OP_PONG, b""));
    let partial = server_frame(true, OP_TEXT, b"incomplete");
    wire.extend_from_slice(&partial[..5]);
    assert_eq!(ws.read(&wire), Ok(()));
    let batch = ws.receive_batch(&mut out);
    assert_eq!(batch.outcome, Ok(()));
    assert_eq!(
        batch.frames,
        vec![
            WebsocketFrame::Text(true, b"a".to_vec()),
            WebsocketFrame::Binary(false, b"bc".to_vec()),
            WebsocketFrame::Continuation(true, b"def".to_vec()),
            WebsocketFrame::Pong(true, Vec::new()),
        ]
    );
    assert!(out.is_empty());
    assert_eq!(ws.read(&partial[5..]), Ok(()));
    let batch = ws.receive_batch(&mut out);
    assert_eq!(batch.frames, vec![WebsocketFrame::Text(true, b"incomplete".to_vec())]);
}

#[test]
fn ping_mid_batch_is_answered_by_one_pong() {
    let mut ws = connected();
    let mut out = Vec::new();
    let mut wire = server_frame(true, OP_TEXT, b"before");
    wire.extend_from_slice(&server_frame(true, OP_PING, b"are you there"));
    wire.extend_from_slice(&server_frame(true, OP_TEXT, b"after"));
    assert_eq!(ws.read(&wire), Ok(()));
    let batch = ws.receive_batch(&mut out);
    assert_eq!(batch.outcome, Ok(()));
    assert_eq!(
        batch.frames,
        vec![
            WebsocketFrame::Text(true, b"before".to_vec()),
            WebsocketFrame::Text(true, b"after".to_vec()),
        ]
    );
    assert_eq!(out[0], 0x80 | OP_PONG);
    assert_eq!(out[1], 0x80 | 13);
    assert_eq!(frames_in(&out), vec![WebsocketFrame::Pong(true, b"are you there".to_vec())]);
}

#[test]
fn every_ping_gets_its_own_pong() {
    let mut ws = connected();
    let mut out = Vec::new();
    let mut wire = server_frame(true, OP_PING, b"1");
    wire.extend_from_slice(&server_frame(true, OP_PING, b""));
    wire.extend_from_slice(&server_frame(true, OP_BINARY, b"x"));
    wire.extend_from_slice(&server_frame(true, OP_PING, b"3"));
    assert_eq!(ws.read(&wire), Ok(()));
    let batch = ws.receive_batch(&mut out);
    assert_eq!(batch.frames, vec![WebsocketFrame::Binary(true, b"x".to_vec())]);
    assert_eq!(
        frames_in(&out),
        vec![
            WebsocketFrame::Pong(true, b"1".to_vec()),
            WebsocketFrame::Pong(true, Vec::new()),
            WebsocketFrame::Pong(true, b"3".to_vec()),
        ]
    );
}

#[test]
fn masked_frames_from_the_peer_are_unmasked() {
    let mut ws = connected();
    let mut out = Vec::new();
    let mut wire = Vec::new();
    encode_frame(&mut wire, true, OP_TEXT, Some(b"masked"), &[0xff, 0x00, 0xaa, 0x55]);
    assert_eq!(ws.read(&wire), Ok(()));
    let batch = ws.receive_batch(&mut out);
    assert_eq!(batch.frames, vec![WebsocketFrame::Text(true, b"masked".to_vec())]);
}

#[test]
fn close_frame_ends_the_batch() {
    let mut ws = connected();
    let mut out = Vec::new();
    let mut wire = server_frame(true, OP_TEXT, b"last words");
    wire.extend_from_slice(&server_frame(true, OP_CLOSE, &[0x03, 0xe8]));
    wire.extend_from_slice(&server_frame(true, OP_TEXT, b"too late"));
    assert_eq!(ws.read(&wire), Ok(()));
    let batch = ws.receive_batch(&mut out);
    assert_eq!(batch.frames, vec![WebsocketFrame::Text(true, b"last words".to_vec())]);
    assert_eq!(batch.outcome, Err(ProtocolError::ClosedByPeer));
    assert!(out.is_empty());
    assert_eq!(ProtocolError::ClosedByPeer.description(), "connection closed by peer");
}

#[test]
fn oversized_control_frame_is_rejected_whole() {
    let mut ws = connected();
    let mut out = Vec::new();
    let mut wire = server_frame(true, OP_TEXT, b"fine");
    wire.extend_from_slice(&[0x80 | OP_PING, 126, 0, 126]);
    wire.extend_from_slice(&[7u8; 126]);
    assert_eq!(ws.read(&wire), Ok(()));
    let batch = ws.receive_batch(&mut out);
    assert_eq!(batch.frames, vec![WebsocketFrame::Text(true, b"fine".to_vec())]);
    assert_eq!(batch.outcome, Err(ProtocolError::ProtocolViolation));
    assert!(out.is_empty());
    let again = ws.receive_batch(&mut out);
    assert!(again.frames.is_empty());
    assert_eq!(again.outcome, Err(ProtocolError::ProtocolViolation));
}

#[test]
fn frame_bytes_beyond_capacity_are_an_error() {
    let mut ws = Websocket::new("example.com", "/ws", 8);
    let mut out = Vec::new();
    assert_eq!(ws.perform_handshake(&mut out), Ok(Progress::WouldBlock));
    assert_eq!(ws.read(ACCEPT), Ok(()));
    assert_eq!(ws.perform_handshake(&mut out), Ok(Progress::WouldBlock));
    assert_eq!(ws.read(&server_frame(true, OP_TEXT, b"123456")), Ok(()));
    assert_eq!(ws.read(b"x"), Err(ProtocolError::CapacityExceeded));
    let batch = ws.receive_batch(&mut out);
    assert_eq!(batch.frames, vec![WebsocketFrame::Text(true, b"123456".to_vec())]);
    assert_eq!(ws.read(b"x"), Ok(()));
}

#[test]
fn read_size_follows_the_handshake() {
    let mut ws = Websocket::new("example.com", "/ws", 64);
    let mut out = Vec::new();
    assert_eq!(ws.read_size(), 0);
    assert_eq!(ws.perform_handshake(&mut out), Ok(Progress::WouldBlock));
    assert_eq!(ws.read_size(), 1);
    assert_eq!(ws.read(ACCEPT), Ok(()));
    assert_eq!(ws.read_size(), 1);
    assert_eq!(ws.perform_handshake(&mut out), Ok(Progress::WouldBlock));
    assert_eq!(ws.read_size(), 64);
    assert_eq!(ws.read(&server_frame(true, OP_TEXT, b"12345678")), Ok(()));
    assert_eq!(ws.read_size(), 54);
}
