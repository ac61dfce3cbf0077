//! The rules of one subscriber's session: what is sent on connect, what each
//! inbound message and each broadcast leads to, and when the session ends.
//!
//! The caller owns the connection. It reports what it read and carries out
//! the action it is given.

use vstd::prelude::*;
use crate::registry::PadSnapshot;
use crate::tokens::{FuriganaSegment, Token};

verus! {

/// Number of messages that the broadcast channel holds for slow subscribers.
pub const HUB_CAPACITY: usize = 2048;

/// `serde_json::Value`: any JSON value. Nothing here looks inside one; a
/// request identifier is carried from the request to its reply as it came.
#[verifier::external_type_specification]
#[verifier::external_body]
pub struct ExJsonValue(serde_json::Value);

/// A decoded message of a subscriber.
#[derive(Debug, PartialEq, Eq)]
pub enum ClientMsg {
    Ping,
    GetState,
    Tokenize { text: String, block_index: i64 },
    GetFurigana { text: String, line_index: i64, request_id: Option<serde_json::Value> },
    /// A message of a kind that is not known.
    Unknown,
}

/// The reply to a tokenise request.
#[derive(Debug, PartialEq, Eq)]
pub struct TokensReply {
    pub block_index: i64,
    pub text: String,
    pub tokens: Vec<Token>,
    pub token_source: &'static str,
    pub mecab_available: bool,
    pub yomitan_api_available: bool,
}

/// The reply to a furigana request.
#[derive(Debug, PartialEq, Eq)]
pub struct FuriganaReply {
    pub line_index: i64,
    pub text: String,
    pub segments: Vec<FuriganaSegment>,
    pub mecab_available: bool,
    pub yomitan_api_available: bool,
    pub request_id: Option<serde_json::Value>,
}

/// A message sent to one subscriber in reply or on connect.
#[derive(Debug, PartialEq, Eq)]
pub enum ServerMsg {
    Pong,
    /// The state of one device, in reply to a state request.
    GamepadState(PadSnapshot),
    /// A device that is known when the subscriber connects, with its state.
    GamepadConnected(PadSnapshot),
    Tokens(TokensReply),
    Furigana(FuriganaReply),
}

/// What the broadcast channel hands to a subscriber.
#[derive(Debug, PartialEq, Eq)]
pub enum HubInput {
    /// The next message.
    Message(String),
    /// The subscriber fell behind and missed this many messages.
    Lagged(u64),
    /// The channel is closed.
    Closed,
}

/// What reading from the subscriber's connection yields.
#[derive(Debug, PartialEq, Eq)]
pub enum SocketInput {
    /// A text message, decoded; nothing if it could not be decoded.
    Text(Option<ClientMsg>),
    /// A ping frame.
    Ping,
    /// A close frame.
    Close,
    /// A frame of any other kind.
    OtherFrame,
    /// The transport failed.
    Error,
    /// The connection has ended.
    End,
}

/// What the caller is to do next.
#[derive(Debug, PartialEq, Eq)]
pub enum SessionAction {
    /// Send a broadcast message on to the subscriber.
    Relay(String),
    /// Send a reply to the subscriber.
    Reply { message: ServerMsg, strict: bool },
    /// Send the state of every known device, one message each.
    ReportState,
    /// Have the worker tokenise the text, then send the reply.
    Tokenize { text: String, block_index: i64 },
    /// Have the worker annotate the text, then send the reply.
    Furigana { text: String, line_index: i64, request_id: Option<serde_json::Value> },
    /// Answer a ping frame with a pong frame.
    PongFrame,
    /// Nothing to send; go on.
    Continue,
    /// End the session.
    End,
}

impl ServerMsg {
    /// The kind of the message on the wire.
    pub open spec fn kind_label(self) -> Seq<char> {
        match self {
            ServerMsg::Pong => "pong"@,
            ServerMsg::GamepadState(_) => "gamepad_state"@,
            ServerMsg::GamepadConnected(_) => "gamepad_connected"@,
            ServerMsg::Tokens(_) => "tokens"@,
            ServerMsg::Furigana(_) => "furigana"@,
        }
    }

    /// Returns the kind of the message on the wire.
    pub fn kind(&self) -> (r: &'static str)
        ensures
            r@ == self.kind_label(),
    {
        match self {
            ServerMsg::Pong => "pong",
            ServerMsg::GamepadState(_) => "gamepad_state",
            ServerMsg::GamepadConnected(_) => "gamepad_connected",
            ServerMsg::Tokens(_) => "tokens",
            ServerMsg::Furigana(_) => "furigana",
        }
    }
}

impl TokensReply {
    /// Whether this is the reply to a tokenise request with the given block
    /// index and text that carries the given tokens and availability. The
    /// token source is always the worker's name and the second analyser is
    /// never available.
    pub open spec fn answers(self, block_index: i64, text: String, tokens: Vec<Token>, available: bool) -> bool {
        &&& self.block_index == block_index
        &&& self.text == text
        &&& self.tokens == tokens
        &&& self.token_source@ == "mecab"@
        &&& self.mecab_available == available
        &&& !self.yomitan_api_available
    }
}

impl FuriganaReply {
    /// Whether this is the reply to a furigana request with the given line
    /// index, text and request identifier that carries the given segments
    /// and availability. The second analyser is never available.
    pub open spec fn answers(
        self,
        line_index: i64,
        text: String,
        request_id: Option<serde_json::Value>,
        segments: Vec<FuriganaSegment>,
        available: bool,
    ) -> bool {
        &&& self.line_index == line_index
        &&& self.text == text
        &&& self.segments == segments
        &&& self.mecab_available == available
        &&& !self.yomitan_api_available
        &&& self.request_id == request_id
    }
}

/// Builds the reply to a tokenise request, echoing the block index and the
/// text.
pub fn tokens_reply(block_index: i64, text: String, tokens: Vec<Token>, available: bool) -> (r: ServerMsg)
    ensures
        r matches ServerMsg::Tokens(reply) && reply.answers(block_index, text, tokens, available),
{
    ServerMsg::Tokens(
        TokensReply {
            block_index,
            text,
            tokens,
            token_source: "mecab",
            mecab_available: available,
            yomitan_api_available: false,
        },
    )
}

/// Builds the reply to a furigana request, echoing the line index, the text
/// and, if the request had one, its identifier.
pub fn furigana_reply(
    line_index: i64,
    text: String,
    request_id: Option<serde_json::Value>,
    segments: Vec<FuriganaSegment>,
    available: bool,
) -> (r: ServerMsg)
    ensures
        r matches ServerMsg::Furigana(reply) && reply.answers(line_index, text, request_id, segments, available),
{
    ServerMsg::Furigana(
        FuriganaReply {
            line_index,
            text,
            segments,
            mecab_available: available,
            yomitan_api_available: false,
            request_id,
        },
    )
}

/// Builds what a subscriber is sent on connect: every known device as a
/// connected device with its state, in the order of the snapshot.
pub fn greeting(snapshot: &Vec<PadSnapshot>) -> (r: Vec<ServerMsg>)
    ensures
        r@.len() == snapshot@.len(),
        forall|i: int|
            0 <= i < r@.len() ==> (#[trigger] r@[i] matches ServerMsg::GamepadConnected(s) && s@ == snapshot@[i]@),
{
    let mut out: Vec<ServerMsg> = Vec::new();
    let mut k: usize = 0;
    while k < snapshot.len()
        invariant
            k <= snapshot.len(),
            out@.len() == k,
            forall|i: int|
                0 <= i < k ==> (#[trigger] out@[i] matches ServerMsg::GamepadConnected(s) && s@ == snapshot@[i]@),
        decreases snapshot.len() - k,
    {
        let one = &snapshot[k];
        out.push(
            ServerMsg::GamepadConnected(
                PadSnapshot { device: one.device.clone(), buttons: one.buttons, axes: one.axes },
            ),
        );
        k = k + 1;
    }
    out
}

/// Builds the answer to a state request: the state of every known device,
/// one message each, in the order of the snapshot.
pub fn state_report(snapshot: &Vec<PadSnapshot>) -> (r: Vec<ServerMsg>)
    ensures
        r@.len() == snapshot@.len(),
        forall|i: int|
            0 <= i < r@.len() ==> (#[trigger] r@[i] matches ServerMsg::GamepadState(s) && s@ == snapshot@[i]@),
{
    let mut out: Vec<ServerMsg> = Vec::new();
    let mut k: usize = 0;
    while k < snapshot.len()
        invariant
            k <= snapshot.len(),
            out@.len() == k,
            forall|i: int|
                0 <= i < k ==> (#[trigger] out@[i] matches ServerMsg::GamepadState(s) && s@ == snapshot@[i]@),
        decreases snapshot.len() - k,
    {
        let one = &snapshot[k];
        out.push(
            ServerMsg::GamepadState(PadSnapshot { device: one.device.clone(), buttons: one.buttons, axes: one.axes }),
        );
        k = k + 1;
    }
    out
}

/// Decides what a message from the broadcast channel leads to: a message is
/// sent on, a lag notice is passed over and the session goes on with the
/// next message, and a closed channel ends the session.
pub fn on_hub(input: HubInput) -> (action: SessionAction)
    ensures
        action == (match input {
            HubInput::Message(text) => SessionAction::Relay(text),
            HubInput::Lagged(_) => SessionAction::Continue,
            HubInput::Closed => SessionAction::End,
        }),
{
    match input {
        HubInput::Message(text) => SessionAction::Relay(text),
        HubInput::Lagged(_) => SessionAction::Continue,
        HubInput::Closed => SessionAction::End,
    }
}

/// Whether an action is the right one for a decoded message of the
/// subscriber. A ping is answered with a pong. A state request is answered
/// with the state of every device. A tokenise or furigana request with an
/// empty text is answered at once with an empty result and the worker
/// reported as unavailable; with any other text it goes to the worker.
/// Unknown messages are ignored.
pub open spec fn answers_client(msg: ClientMsg, action: SessionAction) -> bool {
    match msg {
        ClientMsg::Ping => action == (SessionAction::Reply { message: ServerMsg::Pong, strict: false }),
        ClientMsg::GetState => action == SessionAction::ReportState,
        ClientMsg::Tokenize { text, block_index } => if text@.len() == 0 {
            &&& action matches SessionAction::Reply { message: ServerMsg::Tokens(reply), strict: true }
            &&& reply.tokens@.len() == 0
            &&& reply.answers(block_index, text, reply.tokens, false)
        } else {
            action == (SessionAction::Tokenize { text, block_index })
        },
        ClientMsg::GetFurigana { text, line_index, request_id } => if text@.len() == 0 {
            &&& action matches SessionAction::Reply { message: ServerMsg::Furigana(reply), strict: true }
            &&& reply.segments@.len() == 0
            &&& reply.answers(line_index, text, request_id, reply.segments, false)
        } else {
            action == (SessionAction::Furigana { text, line_index, request_id })
        },
        ClientMsg::Unknown => action == SessionAction::Continue,
    }
}

/// Decides what a decoded message of the subscriber leads to.
pub fn on_client(msg: ClientMsg) -> (action: SessionAction)
    ensures
        answers_client(msg, action),
{
    match msg {
        ClientMsg::Ping => SessionAction::Reply { message: ServerMsg::Pong, strict: false },
        ClientMsg::GetState => SessionAction::ReportState,
        ClientMsg::Tokenize { text, block_index } => {
            if text.as_str().is_empty() {
                SessionAction::Reply { message: tokens_reply(block_index, text, Vec::new(), false), strict: true }
            } else {
                SessionAction::Tokenize { text, block_index }
            }
        },
        ClientMsg::GetFurigana { text, line_index, request_id } => {
            if text.as_str().is_empty() {
                SessionAction::Reply {
                    message: furigana_reply(line_index, text, request_id, Vec::new(), false),
                    strict: true,
                }
            } else {
                SessionAction::Furigana { text, line_index, request_id }
            }
        },
        ClientMsg::Unknown => SessionAction::Continue,
    }
}

/// Decides what a read from the subscriber's connection leads to. A text
/// message that could be decoded is dispatched; one that could not is
/// ignored, as are frames of other kinds. A ping frame is answered with a
/// pong frame. A close frame, a transport error and the end of the
/// connection end the session.
pub fn on_socket(input: SocketInput) -> (action: SessionAction)
    ensures
        match input {
            SocketInput::Text(Some(msg)) => answers_client(msg, action),
            SocketInput::Text(None) => action == SessionAction::Continue,
            SocketInput::Ping => action == SessionAction::PongFrame,
            SocketInput::OtherFrame => action == SessionAction::Continue,
            SocketInput::Close => action == SessionAction::End,
            SocketInput::Error => action == SessionAction::End,
            SocketInput::End => action == SessionAction::End,
        },
{
    match input {
        SocketInput::Text(Some(msg)) => on_client(msg),
        SocketInput::Text(None) => SessionAction::Continue,
        SocketInput::Ping => SessionAction::PongFrame,
        SocketInput::OtherFrame => SessionAction::Continue,
        SocketInput::Close => SessionAction::End,
        SocketInput::Error => SessionAction::End,
        SocketInput::End => SessionAction::End,
    }
}

/// Whether a failed write ends the session when carrying out the action.
pub open spec fn write_failure_ends(action: SessionAction) -> bool {
    match action {
        SessionAction::Relay(_) => true,
        SessionAction::Reply { strict, .. } => strict,
        SessionAction::Tokenize { .. } => true,
        SessionAction::Furigana { .. } => true,
        _ => false,
    }
}

/// Tells whether a failed write ends the session when carrying out the
/// action. It does for relayed broadcasts and for the replies to tokenise
/// and furigana requests. A failed pong is ignored, and a failed state
/// message only drops the state messages that would follow it.
pub fn ends_on_write_failure(action: &SessionAction) -> (r: bool)
    ensures
        r == write_failure_ends(*action),
{
    match action {
        SessionAction::Relay(_) => true,
        SessionAction::Reply { strict, .. } => *strict,
        SessionAction::Tokenize { .. } => true,
        SessionAction::Furigana { .. } => true,
        _ => false,
    }
}

} // verus!
