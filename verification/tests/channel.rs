use bian_rs::channel::{
    decide_frame, Channel, ChannelAction, ChannelEvent, ChannelState, Frame, FrameDecision, ScriptedChannel,
    MAX_CONNECT_ATTEMPTS,
};
use bian_rs::error::APIError;
use bian_rs::response::WebsocketResponse;
use bian_rs::stream::StreamMode;

fn hello() -> Frame {
    Frame::Text("\"hello\"".to_string())
}

#[test]
fn keepalive_is_transparent() {
    let frames = vec![Frame::Ping(vec![]), Frame::Ping(vec![9]), hello(), Frame::Ping(vec![])];
    let mut socket = ScriptedChannel::open(StreamMode::Single, frames);
    let message = socket.read_stream_single().unwrap();
    assert_eq!(message, "\"hello\"");
    assert_eq!(socket.cursor, 3);
    assert_eq!(socket.sent.len(), 2);
    assert!(socket.sent.iter().all(|f| matches!(f, Frame::Pong(p) if p.is_empty())));
    assert_eq!(socket.channel.state, ChannelState::Open);

    let next = socket.read_stream_single();
    assert!(matches!(next, Err(APIError::WSClientError(m)) if m == "connection closed by peer"));
    assert_eq!(socket.cursor, 4);
    assert_eq!(socket.sent.len(), 3);
    assert_eq!(socket.channel.state, ChannelState::Closed);
}

#[test]
fn raw_text_is_delivered_unchanged() {
    let frames = vec![Frame::Ping(vec![]), Frame::Ping(vec![]), Frame::Text("hello".to_string()), Frame::Ping(vec![])];
    let mut socket = ScriptedChannel::open(StreamMode::Single, frames);
    assert_eq!(socket.read_text().unwrap(), "hello");
    assert_eq!((socket.cursor, socket.sent.len()), (3, 2));
}

#[test]
fn messages_come_in_the_order_of_the_frames() {
    let frames = vec![
        Frame::Text("1".to_string()),
        Frame::Ping(vec![]),
        Frame::Text("2".to_string()),
        Frame::Text("3".to_string()),
    ];
    let mut socket = ScriptedChannel::open(StreamMode::Single, frames);
    assert_eq!(socket.read_stream_single().unwrap(), "1");
    assert_eq!(socket.read_stream_single().unwrap(), "2");
    assert_eq!(socket.read_stream_single().unwrap(), "3");
    assert_eq!(socket.sent.len(), 1);
}

#[test]
fn other_frames_are_violations() {
    for frame in [Frame::Binary(vec![1]), Frame::Pong(vec![]), Frame::Close] {
        let mut socket = ScriptedChannel::open(StreamMode::Single, vec![Frame::Ping(vec![]), frame, hello()]);
        let got = socket.read_stream_single();
        assert!(matches!(got, Err(APIError::WSClientError(m)) if m == "unexpected frame"));
        assert_eq!(socket.cursor, 2);
        assert_eq!(socket.channel.state, ChannelState::Closed);
        let again = socket.read_stream_single();
        assert!(matches!(again, Err(APIError::WSClientError(m)) if m == "channel is closed"));
        assert_eq!(socket.cursor, 2);
    }
}

#[test]
fn undecodable_message_closes_the_channel() {
    let mut socket = ScriptedChannel::open(StreamMode::Combined, vec![hello(), hello()]);
    assert!(matches!(socket.read_stream_multi(), Err(APIError::DecodeError(_))));
    assert_eq!(socket.channel.state, ChannelState::Closed);
    assert_eq!(socket.cursor, 1);
    assert!(matches!(socket.read_stream_multi(), Err(APIError::WSClientError(_))));
}

#[test]
fn combined_read_unwraps_the_envelope() {
    let frames = vec![
        Frame::Ping(vec![]),
        Frame::Text(r#"{"stream":"btcusdt@trade","data":{"p":"1.5"}}"#.to_string()),
    ];
    let mut socket = ScriptedChannel::open(StreamMode::Combined, frames);
    assert_eq!(socket.read_stream_multi().unwrap(), r#"{"p":"1.5"}"#);
}

#[test]
fn closing_sends_one_close_frame() {
    let mut socket = ScriptedChannel::open(StreamMode::Single, vec![hello()]);
    socket.close_stream();
    assert_eq!(socket.channel.state, ChannelState::Closed);
    assert!(matches!(socket.sent.as_slice(), [Frame::Close]));
    socket.close_stream();
    assert_eq!(socket.sent.len(), 1);
    assert!(socket.read_stream_single().is_err());
    assert_eq!(socket.cursor, 0);
}

#[test]
fn frame_decisions() {
    assert!(matches!(decide_frame(&Frame::Text("x".to_string())), FrameDecision::Deliver(t) if t == "x"));
    assert!(matches!(decide_frame(&Frame::Ping(vec![1])), FrameDecision::AnswerPing));
    assert!(matches!(decide_frame(&Frame::Pong(vec![1])), FrameDecision::Violation));
    assert!(matches!(decide_frame(&Frame::Binary(vec![])), FrameDecision::Violation));
    assert!(matches!(decide_frame(&Frame::Close), FrameDecision::Violation));
}

#[test]
fn handshake_is_tried_a_bounded_number_of_times() {
    assert_eq!(MAX_CONNECT_ATTEMPTS, 3);
    let mut channel = Channel::new(StreamMode::Single);
    assert_eq!(channel.state, ChannelState::Connecting);
    assert!(matches!(channel.advance(ChannelEvent::ConnectFailed("a".to_string())), ChannelAction::Dial));
    assert!(matches!(channel.advance(ChannelEvent::ConnectFailed("b".to_string())), ChannelAction::Dial));
    let last = channel.advance(ChannelEvent::ConnectFailed("c".to_string()));
    assert!(matches!(last, ChannelAction::Fail(APIError::WSConnectError(m)) if m == "c"));
    assert_eq!(channel.state, ChannelState::Closed);
    assert!(matches!(channel.advance(ChannelEvent::Connected), ChannelAction::Fail(APIError::WSClientError(_))));
    assert_eq!(channel.state, ChannelState::Closed);
}

#[test]
fn open_channel_follows_the_events() {
    let mut channel = Channel::new(StreamMode::Combined);
    assert!(matches!(channel.advance(ChannelEvent::ConnectFailed("x".to_string())), ChannelAction::Dial));
    assert!(matches!(channel.advance(ChannelEvent::Connected), ChannelAction::Ready));
    assert!(channel.is_open());
    assert_eq!(channel.mode, StreamMode::Combined);
    assert!(matches!(channel.advance(ChannelEvent::Received(Frame::Ping(vec![]))), ChannelAction::SendPong));
    assert!(channel.is_open());
    let delivered = channel.advance(ChannelEvent::Received(Frame::Text("m".to_string())));
    assert!(matches!(delivered, ChannelAction::Deliver(t) if t == "m"));
    assert!(channel.is_open());
    assert!(matches!(channel.advance(ChannelEvent::CloseRequested), ChannelAction::SendClose));
    assert_eq!(channel.state, ChannelState::Closed);
}

#[test]
fn failures_close_an_open_channel() {
    let opened = || {
        let mut channel = Channel::new(StreamMode::Single);
        channel.advance(ChannelEvent::Connected);
        channel
    };
    let mut channel = opened();
    let action = channel.advance(ChannelEvent::ReadFailed("reset".to_string()));
    assert!(matches!(action, ChannelAction::Fail(APIError::WSClientError(m)) if m == "reset"));
    assert_eq!(channel.state, ChannelState::Closed);

    let mut channel = opened();
    let action = channel.advance(ChannelEvent::PongFailed("broken pipe".to_string()));
    assert!(matches!(action, ChannelAction::Fail(APIError::WSClientError(m)) if m == "broken pipe"));
    assert_eq!(channel.state, ChannelState::Closed);

    let mut channel = opened();
    let action = channel.advance(ChannelEvent::DecodeFailed("bad".to_string()));
    assert!(matches!(action, ChannelAction::Fail(APIError::DecodeError(m)) if m == "bad"));
    assert_eq!(channel.state, ChannelState::Closed);

    let mut channel = opened();
    let action = channel.advance(ChannelEvent::Received(Frame::Binary(vec![0])));
    assert!(matches!(action, ChannelAction::Fail(APIError::WSClientError(m)) if m == "unexpected frame"));
    assert_eq!(channel.state, ChannelState::Closed);

    let mut channel = opened();
    let action = channel.advance(ChannelEvent::Connected);
    assert!(matches!(action, ChannelAction::Fail(APIError::WSClientError(m)) if m == "unexpected event"));
    assert_eq!(channel.state, ChannelState::Closed);
}
