//! The rules of a streaming channel: what each event does to its state, how
//! keepalive frames are answered without the caller noticing, and a channel
//! over a prepared list of frames on which those rules can be run.

use vstd::prelude::*;
use vstd::string::*;
use crate::error::{APIError, BianResult, Failure};
use crate::json::{payload, payload_text};
use crate::response::WebsocketResponse;
use crate::stream::StreamMode;

verus! {

/// A WebSocket frame, as far as the channel tells frames apart.
#[derive(Debug, Clone)]
pub enum Frame {
    Text(String),
    Binary(Vec<u8>),
    Ping(Vec<u8>),
    Pong(Vec<u8>),
    Close,
}

/// The mathematical content of a [`Frame`].
pub enum FrameModel {
    Text(Seq<char>),
    Binary(Seq<u8>),
    Ping(Seq<u8>),
    Pong(Seq<u8>),
    Close,
}

impl View for Frame {
    type V = FrameModel;

    open spec fn view(&self) -> FrameModel {
        match self {
            Frame::Text(s) => FrameModel::Text(s@),
            Frame::Binary(b) => FrameModel::Binary(b@),
            Frame::Ping(b) => FrameModel::Ping(b@),
            Frame::Pong(b) => FrameModel::Pong(b@),
            Frame::Close => FrameModel::Close,
        }
    }
}

/// The models of a list of frames, in order.
pub open spec fn frame_models(frames: Seq<Frame>) -> Seq<FrameModel> {
    Seq::new(frames.len(), |i: int| frames[i]@)
}

/// What the channel does with an incoming frame.
#[derive(Debug, Clone)]
pub enum FrameDecision {
    /// A text frame: its text is the next message.
    Deliver(String),
    /// A ping: answer with a pong and read on; the caller sees nothing.
    AnswerPing,
    /// Any other frame: the peer broke the protocol.
    Violation,
}

/// The mathematical content of a [`FrameDecision`].
pub enum DecisionModel {
    Deliver(Seq<char>),
    AnswerPing,
    Violation,
}

impl View for FrameDecision {
    type V = DecisionModel;

    open spec fn view(&self) -> DecisionModel {
        match self {
            FrameDecision::Deliver(s) => DecisionModel::Deliver(s@),
            FrameDecision::AnswerPing => DecisionModel::AnswerPing,
            FrameDecision::Violation => DecisionModel::Violation,
        }
    }
}

/// The decision for a frame: text is delivered, a ping is answered, and
/// everything else is a violation.
pub open spec fn frame_decision(frame: FrameModel) -> DecisionModel {
    match frame {
        FrameModel::Text(s) => DecisionModel::Deliver(s),
        FrameModel::Ping(_) => DecisionModel::AnswerPing,
        _ => DecisionModel::Violation,
    }
}

/// Decides what to do with an incoming frame.
pub fn decide_frame(frame: &Frame) -> (d: FrameDecision)
    ensures
        d@ == frame_decision(frame@),
{
    match frame {
        Frame::Text(s) => FrameDecision::Deliver(s.clone()),
        Frame::Ping(_) => FrameDecision::AnswerPing,
        _ => FrameDecision::Violation,
    }
}

/// How often the handshake is tried before the channel gives up.
pub const MAX_CONNECT_ATTEMPTS: usize = 3;

/// The state of a channel.
#[derive(Debug, Clone, Copy, PartialEq, Eq, Structural)]
pub enum ChannelState {
    /// The handshake has not succeeded yet.
    Connecting,
    /// Frames can be read.
    Open,
    /// Closed on request or after a failure; nothing can be read any more.
    Closed,
}

/// What happened on the socket, or what the caller asked for.
#[derive(Debug, Clone)]
pub enum ChannelEvent {
    /// The handshake succeeded.
    Connected,
    /// The handshake failed, with the transport's message.
    ConnectFailed(String),
    /// A frame arrived.
    Received(Frame),
    /// Reading a frame failed, with the transport's message.
    ReadFailed(String),
    /// Sending a pong failed, with the transport's message.
    PongFailed(String),
    /// A delivered message did not decode, with the decoder's message.
    DecodeFailed(String),
    /// The caller asked to close the channel.
    CloseRequested,
}

/// The mathematical content of a [`ChannelEvent`].
pub enum EventModel {
    Connected,
    ConnectFailed(Seq<char>),
    Received(FrameModel),
    ReadFailed(Seq<char>),
    PongFailed(Seq<char>),
    DecodeFailed(Seq<char>),
    CloseRequested,
}

impl View for ChannelEvent {
    type V = EventModel;

    open spec fn view(&self) -> EventModel {
        match self {
            ChannelEvent::Connected => EventModel::Connected,
            ChannelEvent::ConnectFailed(s) => EventModel::ConnectFailed(s@),
            ChannelEvent::Received(f) => EventModel::Received(f@),
            ChannelEvent::ReadFailed(s) => EventModel::ReadFailed(s@),
            ChannelEvent::PongFailed(s) => EventModel::PongFailed(s@),
            ChannelEvent::DecodeFailed(s) => EventModel::DecodeFailed(s@),
            ChannelEvent::CloseRequested => EventModel::CloseRequested,
        }
    }
}

/// What the owner of the socket has to do next.
#[derive(Debug)]
pub enum ChannelAction {
    /// Try the handshake again.
    Dial,
    /// The channel is open; wait for the caller to read.
    Ready,
    /// Send a pong with an empty payload, then read the next frame.
    SendPong,
    /// Hand this text to the caller as the next message.
    Deliver(String),
    /// Send a close frame.
    SendClose,
    /// Report this failure to the caller.
    Fail(APIError),
}

/// The mathematical content of a [`ChannelAction`].
pub enum ActionModel {
    Dial,
    Ready,
    SendPong,
    Deliver(Seq<char>),
    SendClose,
    Fail(Failure),
}

impl View for ChannelAction {
    type V = ActionModel;

    open spec fn view(&self) -> ActionModel {
        match self {
            ChannelAction::Dial => ActionModel::Dial,
            ChannelAction::Ready => ActionModel::Ready,
            ChannelAction::SendPong => ActionModel::SendPong,
            ChannelAction::Deliver(s) => ActionModel::Deliver(s@),
            ChannelAction::SendClose => ActionModel::SendClose,
            ChannelAction::Fail(e) => ActionModel::Fail(e@),
        }
    }
}

/// The message of the failure that a read on a closed channel reports.
pub open spec fn closed_text() -> Seq<char> {
    "channel is closed"@
}

/// The message of the failure that a frame other than text or ping causes.
pub open spec fn violation_text() -> Seq<char> {
    "unexpected frame"@
}

/// The message of the failure that an event out of place causes.
pub open spec fn misplaced_text() -> Seq<char> {
    "unexpected event"@
}

/// The state of a channel together with the number of failed handshakes.
pub struct ChannelModel {
    pub state: ChannelState,
    pub attempts: nat,
}

/// The transition of a channel: the state after an event, and the action the
/// event calls for.
///
/// While connecting, a failed handshake is tried again until
/// [`MAX_CONNECT_ATTEMPTS`] have failed; then the channel closes with a
/// connect failure. While open, text is delivered, a ping is answered, a
/// close request sends a close frame and closes, and every failure closes
/// the channel and is reported. Once closed, every event is answered with a
/// failure and changes nothing.
pub open spec fn transition(before: ChannelModel, event: EventModel) -> (
    ChannelModel,
    ActionModel,
) {
    match before.state {
        ChannelState::Connecting => match event {
            EventModel::Connected => (
                ChannelModel { state: ChannelState::Open, attempts: before.attempts },
                ActionModel::Ready,
            ),
            EventModel::ConnectFailed(message) => if before.attempts + 1 < MAX_CONNECT_ATTEMPTS {
                (
                    ChannelModel {
                        state: ChannelState::Connecting,
                        attempts: before.attempts + 1,
                    },
                    ActionModel::Dial,
                )
            } else {
                (
                    ChannelModel { state: ChannelState::Closed, attempts: before.attempts },
                    ActionModel::Fail(Failure::WsConnect(message)),
                )
            },
            EventModel::CloseRequested => (
                ChannelModel { state: ChannelState::Closed, attempts: before.attempts },
                ActionModel::Fail(Failure::WsClient(closed_text())),
            ),
            _ => (
                ChannelModel { state: ChannelState::Closed, attempts: before.attempts },
                ActionModel::Fail(Failure::WsClient(misplaced_text())),
            ),
        },
        ChannelState::Open => {
            let closed = ChannelModel { state: ChannelState::Closed, attempts: before.attempts };
            match event {
                EventModel::Received(frame) => match frame_decision(frame) {
                    DecisionModel::Deliver(text) => (before, ActionModel::Deliver(text)),
                    DecisionModel::AnswerPing => (before, ActionModel::SendPong),
                    DecisionModel::Violation => (
                        closed,
                        ActionModel::Fail(Failure::WsClient(violation_text())),
                    ),
                },
                EventModel::ReadFailed(message) => (
                    closed,
                    ActionModel::Fail(Failure::WsClient(message)),
                ),
                EventModel::PongFailed(message) => (
                    closed,
                    ActionModel::Fail(Failure::WsClient(message)),
                ),
                EventModel::DecodeFailed(message) => (
                    closed,
                    ActionModel::Fail(Failure::Decode(message)),
                ),
                EventModel::CloseRequested => (closed, ActionModel::SendClose),
                _ => (closed, ActionModel::Fail(Failure::WsClient(misplaced_text()))),
            }
        },
        ChannelState::Closed => (before, ActionModel::Fail(Failure::WsClient(closed_text()))),
    }
}

/// A channel: its state, how its messages are framed, and how many
/// handshakes have failed so far.
#[derive(Debug, Clone, Copy)]
pub struct Channel {
    pub state: ChannelState,
    pub mode: StreamMode,
    pub attempts: usize,
}

impl View for Channel {
    type V = ChannelModel;

    open spec fn view(&self) -> ChannelModel {
        ChannelModel { state: self.state, attempts: self.attempts as nat }
    }
}

impl Channel {
    /// A channel that has not connected yet.
    pub fn new(mode: StreamMode) -> (c: Channel)
        ensures
            c.state == ChannelState::Connecting,
            c.mode == mode,
            c.attempts == 0,
    {
        Channel { state: ChannelState::Connecting, mode, attempts: 0 }
    }

    /// Whether frames can be read.
    pub fn is_open(&self) -> (open: bool)
        ensures
            open == (self.state == ChannelState::Open),
    {
        match self.state {
            ChannelState::Open => true,
            _ => false,
        }
    }

    /// Takes an event in: moves to the next state and says what to do. The
    /// mode never changes.
    pub fn advance(&mut self, event: ChannelEvent) -> (action: ChannelAction)
        ensures
            (final(self)@, action@) == transition(old(self)@, event@),
            final(self).mode == old(self).mode,
    {
        match self.state {
            ChannelState::Connecting => match event {
                ChannelEvent::Connected => {
                    self.state = ChannelState::Open;
                    ChannelAction::Ready
                },
                ChannelEvent::ConnectFailed(message) => {
                    if self.attempts < MAX_CONNECT_ATTEMPTS - 1 {
                        self.attempts = self.attempts + 1;
                        ChannelAction::Dial
                    } else {
                        self.state = ChannelState::Closed;
                        ChannelAction::Fail(APIError::WSConnectError(message))
                    }
                },
                ChannelEvent::CloseRequested => {
                    self.state = ChannelState::Closed;
                    ChannelAction::Fail(
                        APIError::WSClientError(String::from_str("channel is closed")),
                    )
                },
                _ => {
                    self.state = ChannelState::Closed;
                    ChannelAction::Fail(
                        APIError::WSClientError(String::from_str("unexpected event")),
                    )
                },
            },
            ChannelState::Open => match event {
                ChannelEvent::Received(frame) => match decide_frame(&frame) {
                    FrameDecision::Deliver(text) => ChannelAction::Deliver(text),
                    FrameDecision::AnswerPing => ChannelAction::SendPong,
                    FrameDecision::Violation => {
                        self.state = ChannelState::Closed;
                        ChannelAction::Fail(
                            APIError::WSClientError(String::from_str("unexpected frame")),
                        )
                    },
                },
                ChannelEvent::ReadFailed(message) => {
                    self.state = ChannelState::Closed;
                    ChannelAction::Fail(APIError::WSClientError(message))
                },
                ChannelEvent::PongFailed(message) => {
                    self.state = ChannelState::Closed;
                    ChannelAction::Fail(APIError::WSClientError(message))
                },
                ChannelEvent::DecodeFailed(message) => {
                    self.state = ChannelState::Closed;
                    ChannelAction::Fail(APIError::DecodeError(message))
                },
                ChannelEvent::CloseRequested => {
                    self.state = ChannelState::Closed;
                    ChannelAction::SendClose
                },
                _ => {
                    self.state = ChannelState::Closed;
                    ChannelAction::Fail(
                        APIError::WSClientError(String::from_str("unexpected event")),
                    )
                },
            },
            ChannelState::Closed => ChannelAction::Fail(
                APIError::WSClientError(String::from_str("channel is closed")),
            ),
        }
    }
}

/// The number of pings in a row that a list of frames holds from a position
/// on.
pub open spec fn leading_pings(frames: Seq<FrameModel>, from: int) -> nat
    decreases frames.len() - from,
{
    if 0 <= from < frames.len() && frames[from] is Ping {
        1 + leading_pings(frames, from + 1)
    } else {
        0
    }
}

/// A run of pongs with empty payloads.
pub open spec fn pongs(count: nat) -> Seq<FrameModel> {
    Seq::new(count, |i: int| FrameModel::Pong(Seq::empty()))
}

/// The message of the failure that the end of the frames causes.
pub open spec fn exhausted_text() -> Seq<char> {
    "connection closed by peer"@
}

/// A channel over a prepared list of incoming frames. It reads the frames in
/// order, starting at `cursor`, and records every frame it sends in `sent`.
/// The end of the list stands for a peer that has closed the socket.
#[derive(Debug)]
pub struct ScriptedChannel {
    pub channel: Channel,
    pub frames: Vec<Frame>,
    pub cursor: usize,
    pub sent: Vec<Frame>,
}

/// What one read of a channel over prepared frames comes to.
pub struct ReadModel {
    /// The position after the read.
    pub cursor: int,
    /// The state after the read.
    pub state: ChannelState,
    /// How many pongs the read has sent.
    pub pongs: nat,
    /// The text that was read, or the failure.
    pub outcome: Result<Seq<char>, Failure>,
}

/// One read of the next text frame. On an open channel the read answers
/// every ping before the first frame that is no ping, consumes that frame
/// and nothing after it, and delivers it if it is text. If it is no text, or
/// the frames end first, the channel closes with a failure. On a channel
/// that is not open the read fails and touches nothing.
pub open spec fn read_model(
    state: ChannelState,
    frames: Seq<FrameModel>,
    cursor: int,
) -> ReadModel {
    if state != ChannelState::Open {
        ReadModel {
            cursor,
            state,
            pongs: 0,
            outcome: Err(Failure::WsClient(closed_text())),
        }
    } else {
        let answered = leading_pings(frames, cursor);
        let at = cursor + answered;
        if 0 <= at < frames.len() {
            match frames[at] {
                FrameModel::Text(text) => ReadModel {
                    cursor: at + 1,
                    state: ChannelState::Open,
                    pongs: answered,
                    outcome: Ok(text),
                },
                _ => ReadModel {
                    cursor: at + 1,
                    state: ChannelState::Closed,
                    pongs: answered,
                    outcome: Err(Failure::WsClient(violation_text())),
                },
            }
        } else {
            ReadModel {
                cursor: at,
                state: ChannelState::Closed,
                pongs: answered,
                outcome: Err(Failure::WsClient(exhausted_text())),
            }
        }
    }
}

/// What a read of a message owes, from the channel before it to the channel
/// after it: the frames, the mode and the count of handshakes stay; the
/// cursor, the pongs sent and the text are those of [`read_model`]; the text
/// is decoded as `mode` calls for, and a text that does not decode closes
/// the channel with a decode failure.
pub open spec fn is_read_of(
    before: ScriptedChannel,
    after: ScriptedChannel,
    res: BianResult<String>,
    mode: StreamMode,
) -> bool {
    let m = read_model(before.channel.state, frame_models(before.frames@), before.cursor as int);
    &&& after.frames == before.frames
    &&& after.channel.mode == before.channel.mode
    &&& after.channel.attempts == before.channel.attempts
    &&& after.cursor == m.cursor
    &&& frame_models(after.sent@) == frame_models(before.sent@) + pongs(m.pongs)
    &&& match m.outcome {
        Ok(text) => match payload_text(mode, text) {
            Some(p) => res matches Ok(got) && got@ == p && after.channel.state
                == ChannelState::Open,
            None => res matches Err(e) && e@ is Decode && after.channel.state
                == ChannelState::Closed,
        },
        Err(failure) => res matches Err(e) && e@ == failure && after.channel.state == m.state,
    }
}

/// What closing owes: the channel is closed, an open channel has sent one
/// close frame and any other channel nothing, and the rest is untouched.
pub open spec fn is_close_of(before: ScriptedChannel, after: ScriptedChannel) -> bool {
    &&& after.channel.state == ChannelState::Closed
    &&& after.channel.mode == before.channel.mode
    &&& after.channel.attempts == before.channel.attempts
    &&& after.frames == before.frames
    &&& after.cursor == before.cursor
    &&& frame_models(after.sent@) == if before.channel.state == ChannelState::Open {
        frame_models(before.sent@).push(FrameModel::Close)
    } else {
        frame_models(before.sent@)
    }
}

impl ScriptedChannel {
    /// An open channel at the start of the given frames.
    pub fn open(mode: StreamMode, frames: Vec<Frame>) -> (c: ScriptedChannel)
        ensures
            c.channel.state == ChannelState::Open,
            c.channel.mode == mode,
            c.frames == frames,
            c.cursor == 0,
            c.sent@.len() == 0,
    {
        ScriptedChannel {
            channel: Channel { state: ChannelState::Open, mode, attempts: 0 },
            frames,
            cursor: 0,
            sent: Vec::new(),
        }
    }

    /// Reads the next text frame, answering the pings before it.
    pub fn read_text(&mut self) -> (res: BianResult<String>)
        ensures
            final(self).frames == old(self).frames,
            final(self).channel.mode == old(self).channel.mode,
            final(self).channel.attempts == old(self).channel.attempts,
            ({
                let m = read_model(
                    old(self).channel.state,
                    frame_models(old(self).frames@),
                    old(self).cursor as int,
                );
                &&& final(self).cursor == m.cursor
                &&& final(self).channel.state == m.state
                &&& frame_models(final(self).sent@) == frame_models(old(self).sent@) + pongs(
                    m.pongs,
                )
                &&& match res {
                    Ok(text) => m.outcome == Ok::<Seq<char>, Failure>(text@),
                    Err(e) => m.outcome == Err::<Seq<char>, Failure>(e@),
                }
            }),
    {
        let ghost models = frame_models(self.frames@);
        let ghost start = self.cursor as int;
        let ghost log = frame_models(self.sent@);
        if !self.channel.is_open() {
            return Err(APIError::WSClientError(String::from_str("channel is closed")));
        }
        let ghost mut answered: nat = 0;
        while self.cursor < self.frames.len()
            invariant
                self.frames == old(self).frames,
                self.channel.mode == old(self).channel.mode,
                self.channel.attempts == old(self).channel.attempts,
                self.channel.state == ChannelState::Open,
                old(self).channel.state == ChannelState::Open,
                models == frame_models(old(self).frames@),
                start == old(self).cursor,
                log == frame_models(old(self).sent@),
                self.cursor == start + answered,
                leading_pings(models, start) == answered + leading_pings(
                    models,
                    self.cursor as int,
                ),
                frame_models(self.sent@) == log + pongs(answered),
            decreases self.frames.len() - self.cursor,
        {
            let position = self.cursor;
            match decide_frame(&self.frames[position]) {
                FrameDecision::AnswerPing => {
                    let ghost before = frame_models(self.sent@);
                    self.sent.push(Frame::Pong(Vec::new()));
                    self.cursor = position + 1;
                    proof {
                        assert(frame_models(self.sent@) =~= before.push(
                            FrameModel::Pong(Seq::empty()),
                        ));
                        answered = answered + 1;
                    }
                },
                FrameDecision::Deliver(text) => {
                    self.cursor = position + 1;
                    return Ok(text);
                },
                FrameDecision::Violation => {
                    self.cursor = position + 1;
                    self.channel.state = ChannelState::Closed;
                    return Err(APIError::WSClientError(String::from_str("unexpected frame")));
                },
            }
        }
        self.channel.state = ChannelState::Closed;
        Err(APIError::WSClientError(String::from_str("connection closed by peer")))
    }

    /// Reads the next message and takes its payload out, as the mode of the
    /// read calls for. A message that does not decode closes the channel.
    pub fn read_payload(&mut self, mode: StreamMode) -> (res: BianResult<String>)
        ensures
            is_read_of(*old(self), *final(self), res, mode),
    {
        match self.read_text() {
            Ok(text) => match payload(mode, text.as_str()) {
                Ok(p) => Ok(p),
                Err(e) => {
                    self.channel.state = ChannelState::Closed;
                    Err(e)
                },
            },
            Err(e) => Err(e),
        }
    }

    /// Closes the channel. An open channel sends a close frame first; a
    /// channel that is not open only becomes closed.
    pub fn close(&mut self)
        ensures
            is_close_of(*old(self), *final(self)),
    {
        if self.channel.is_open() {
            let ghost before = frame_models(self.sent@);
            self.sent.push(Frame::Close);
            proof {
                assert(frame_models(self.sent@) =~= before.push(FrameModel::Close));
            }
        }
        self.channel.state = ChannelState::Closed;
    }
}

/// Keepalive is invisible: when the frames from the cursor on are some pings
/// and then a text frame, one read of an open channel delivers that text,
/// has answered exactly those pings, and stops right behind the text frame,
/// so that whatever follows is left for the next read.
pub proof fn lemma_keepalive_is_transparent(
    frames: Seq<FrameModel>,
    cursor: int,
    pings: nat,
    text: Seq<char>,
)
    requires
        0 <= cursor,
        cursor + pings < frames.len(),
        forall|i: int| cursor <= i < cursor + pings ==> frames[i] is Ping,
        frames[cursor + pings] == FrameModel::Text(text),
    ensures
        leading_pings(frames, cursor) == pings,
        read_model(ChannelState::Open, frames, cursor) == (ReadModel {
            cursor: cursor + pings + 1,
            state: ChannelState::Open,
            pongs: pings,
            outcome: Ok(text),
        }),
    decreases pings,
{
    if pings > 0 {
        assert forall|i: int| cursor + 1 <= i < cursor + 1 + (pings - 1) implies frames[i]
            is Ping by {}
        lemma_keepalive_is_transparent(frames, cursor + 1, (pings - 1) as nat, text);
    }
}

/// The frames that [`leading_pings`] counts are pings, and the frame behind
/// them, if there is one, is none.
pub proof fn lemma_leading_pings_end(frames: Seq<FrameModel>, from: int)
    requires
        0 <= from,
    ensures
        forall|i: int| from <= i < from + leading_pings(frames, from) ==> frames[i] is Ping,
        from + leading_pings(frames, from) <= frames.len() || leading_pings(frames, from) == 0,
        from + leading_pings(frames, from) < frames.len() ==> !(frames[from + leading_pings(
            frames,
            from,
        )] is Ping),
    decreases frames.len() - from,
{
    if from < frames.len() && frames[from] is Ping {
        lemma_leading_pings_end(frames, from + 1);
    }
}

/// Messages come in the order of the frames: what a read delivers is the
/// first frame at or behind the cursor that is no ping, and the read stops
/// right behind it. No frame is skipped but pings, and none is read twice.
pub proof fn lemma_read_delivers_the_next_frame(
    frames: Seq<FrameModel>,
    cursor: int,
    text: Seq<char>,
)
    requires
        0 <= cursor,
        read_model(ChannelState::Open, frames, cursor).outcome == Ok::<Seq<char>, Failure>(text),
    ensures
        ({
            let m = read_model(ChannelState::Open, frames, cursor);
            &&& cursor < m.cursor <= frames.len()
            &&& m.state == ChannelState::Open
            &&& frames[m.cursor - 1] == FrameModel::Text(text)
            &&& m.pongs == m.cursor - 1 - cursor
            &&& forall|i: int| cursor <= i < m.cursor - 1 ==> frames[i] is Ping
        }),
{
    lemma_leading_pings_end(frames, cursor);
}

/// A closed channel stays closed: whatever happens, the state does not
/// change and the answer is a failure.
pub proof fn lemma_closed_is_final(before: ChannelModel, event: EventModel)
    requires
        before.state == ChannelState::Closed,
    ensures
        transition(before, event).0 == before,
        transition(before, event).1 == ActionModel::Fail(Failure::WsClient(closed_text())),
{
}

/// The handshake is bounded: a channel that is connecting never counts
/// [`MAX_CONNECT_ATTEMPTS`] failures or more, and the failure that would be
/// the last closes it.
pub proof fn lemma_handshake_is_bounded(before: ChannelModel, message: Seq<char>)
    requires
        before.state == ChannelState::Connecting,
        before.attempts < MAX_CONNECT_ATTEMPTS,
    ensures
        ({
            let (after, action) = transition(before, EventModel::ConnectFailed(message));
            &&& after.attempts < MAX_CONNECT_ATTEMPTS
            &&& if before.attempts + 1 < MAX_CONNECT_ATTEMPTS {
                after.state == ChannelState::Connecting && after.attempts == before.attempts + 1
                    && action == ActionModel::Dial
            } else {
                after.state == ChannelState::Closed && action == ActionModel::Fail(
                    Failure::WsConnect(message),
                )
            }
        }),
{
}

impl WebsocketResponse<String> for ScriptedChannel {
    /// Reads the next message of a single-topic channel: the message itself,
    /// as compact JSON text.
    fn read_stream_single(&mut self) -> (res: BianResult<String>)
        ensures
            is_read_of(*old(self), *final(self), res, StreamMode::Single),
    {
        self.read_payload(StreamMode::Single)
    }

    /// Reads the next message of a combined channel: the `data` member of
    /// its envelope, as compact JSON text.
    fn read_stream_multi(&mut self) -> (res: BianResult<String>)
        ensures
            is_read_of(*old(self), *final(self), res, StreamMode::Combined),
    {
        self.read_payload(StreamMode::Combined)
    }

    /// Closes the channel; an open channel sends a close frame first.
    fn close_stream(&mut self)
        ensures
            is_close_of(*old(self), *final(self)),
    {
        self.close()
    }
}

} // verus!
