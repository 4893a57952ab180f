//! The messages that cross the session's boundaries, and the routing of
//! what a transport delivers.

use vstd::prelude::*;
use vstd::string::StrSliceExecFns;
use vstd::utf8::encode_utf8;
use crate::frame::{FrameView, TerminalFrame};
use crate::text::str_eq;

verus! {

/// A command as contracts see it: the payload of `Data` as a byte sequence.
pub enum CommandView {
    Data(Seq<u8>),
    Resize(u16, u16),
    Scroll(i32),
}

/// What a transport asks of the session's PTY host.
#[derive(Debug, PartialEq, Eq)]
pub enum PtyCommand {
    /// Bytes for the shell's standard input.
    Data(Vec<u8>),
    /// A new size, as columns and rows.
    Resize(u16, u16),
    /// A viewport shift; positive is toward older lines.
    Scroll(i32),
}

/// What the emulator loop consumes: PTY output, or a resize or scroll
/// passed on by the PTY host.
#[derive(Debug, PartialEq, Eq)]
pub enum TermCommand {
    Data(Vec<u8>),
    Resize(u16, u16),
    Scroll(i32),
}

impl View for PtyCommand {
    type V = CommandView;

    open spec fn view(&self) -> CommandView {
        match *self {
            PtyCommand::Data(bytes) => CommandView::Data(bytes@),
            PtyCommand::Resize(cols, rows) => CommandView::Resize(cols, rows),
            PtyCommand::Scroll(delta) => CommandView::Scroll(delta),
        }
    }
}

impl View for TermCommand {
    type V = CommandView;

    open spec fn view(&self) -> CommandView {
        match *self {
            TermCommand::Data(bytes) => CommandView::Data(bytes@),
            TermCommand::Resize(cols, rows) => CommandView::Resize(cols, rows),
            TermCommand::Scroll(delta) => CommandView::Scroll(delta),
        }
    }
}

/// A parsed message from a client.
#[derive(Debug, PartialEq, Eq)]
pub enum ClientMessage {
    Data { data: String },
    Resize { cols: u16, rows: u16 },
    Scroll { delta: i32 },
    Quality { min_interval_ms: u32 },
}

/// A client message as contracts see it.
pub enum ClientMessageView {
    Data { data: Seq<char> },
    Resize { cols: u16, rows: u16 },
    Scroll { delta: i32 },
    Quality { min_interval_ms: u32 },
}

impl View for ClientMessage {
    type V = ClientMessageView;

    open spec fn view(&self) -> ClientMessageView {
        match *self {
            ClientMessage::Data { data } => ClientMessageView::Data { data: data@ },
            ClientMessage::Resize { cols, rows } => ClientMessageView::Resize { cols, rows },
            ClientMessage::Scroll { delta } => ClientMessageView::Scroll { delta },
            ClientMessage::Quality { min_interval_ms } => ClientMessageView::Quality {
                min_interval_ms,
            },
        }
    }
}

/// A message from the session to its clients.
#[derive(Debug, PartialEq, Eq)]
pub enum ServerMessage {
    Frame(TerminalFrame),
}

/// A server message as contracts see it.
pub enum ServerMessageView {
    Frame(FrameView),
}

impl View for ServerMessage {
    type V = ServerMessageView;

    open spec fn view(&self) -> ServerMessageView {
        match *self {
            ServerMessage::Frame(frame) => ServerMessageView::Frame(frame@),
        }
    }
}

impl Clone for ServerMessage {
    fn clone(&self) -> (copy: ServerMessage)
        ensures
            copy@ == self@,
    {
        match self {
            ServerMessage::Frame(frame) => ServerMessage::Frame(frame.clone()),
        }
    }
}

/// How a transport's frames are encoded.
#[derive(Clone, Copy, Debug, PartialEq, Eq, Structural)]
pub enum WireFormat {
    /// Text: a JSON object tagged by `type`.
    Json,
    /// The compact binary encoding.
    Binary,
}

/// Whether a format selector asks for the binary encoding.
pub open spec fn selects_binary(selector: Seq<char>) -> bool {
    selector == "bincode"@ || selector == "bin"@ || selector == "binary"@
}

/// The encoding that a transport chose at attach time: binary for the
/// selectors `bincode`, `bin` and `binary`, JSON text for any other and for
/// none.
pub fn wire_format(selector: Option<&str>) -> (format: WireFormat)
    ensures
        format == (match selector {
            Some(s) => if selects_binary(s@) {
                WireFormat::Binary
            } else {
                WireFormat::Json
            },
            None => WireFormat::Json,
        }),
{
    match selector {
        Some(s) => {
            if str_eq(s, "bincode") || str_eq(s, "bin") || str_eq(s, "binary") {
                WireFormat::Binary
            } else {
                WireFormat::Json
            }
        },
        None => WireFormat::Json,
    }
}

/// The throttle interval that a client's number stands for: the number
/// itself where it fits, and 0, which disables throttling, where it is
/// negative or too large.
pub open spec fn clamped_interval(raw: int) -> u32 {
    if 0 <= raw <= u32::MAX {
        raw as u32
    } else {
        0
    }
}

/// Reads a throttle interval off a client's number. Never fails: a negative
/// or overflowing value gives 0.
pub fn clamp_min_interval(raw: i128) -> (ms: u32)
    ensures
        ms == clamped_interval(raw as int),
{
    if raw >= 0 && raw <= u32::MAX as i128 {
        raw as u32
    } else {
        0
    }
}

/// What a transport delivered.
#[derive(Debug, PartialEq, Eq)]
pub enum Incoming {
    /// A text frame that parsed as a client message.
    Message(ClientMessage),
    /// A text frame that did not parse.
    Malformed,
    /// A pure-binary frame: raw input.
    Binary(Vec<u8>),
    /// The peer closed the transport.
    Close,
    /// Any other frame, such as a ping.
    Other,
}

/// What a transport delivered, as contracts see it.
pub enum IncomingView {
    Message(ClientMessageView),
    Malformed,
    Binary(Seq<u8>),
    Close,
    Other,
}

impl View for Incoming {
    type V = IncomingView;

    open spec fn view(&self) -> IncomingView {
        match *self {
            Incoming::Message(msg) => IncomingView::Message(msg@),
            Incoming::Malformed => IncomingView::Malformed,
            Incoming::Binary(bytes) => IncomingView::Binary(bytes@),
            Incoming::Close => IncomingView::Close,
            Incoming::Other => IncomingView::Other,
        }
    }
}

/// What the input router does with one delivery.
#[derive(Debug, PartialEq, Eq)]
pub enum RouterStep {
    /// Submit the command to the PTY host.
    Forward(PtyCommand),
    /// Store the session's minimum frame interval, in milliseconds.
    SetMinInterval(u32),
    /// Drop the delivery; the transport stays open.
    Discard,
    /// Stop receiving.
    Stop,
}

/// A router step as contracts see it.
pub enum RouterStepView {
    Forward(CommandView),
    SetMinInterval(u32),
    Discard,
    Stop,
}

impl View for RouterStep {
    type V = RouterStepView;

    open spec fn view(&self) -> RouterStepView {
        match *self {
            RouterStep::Forward(cmd) => RouterStepView::Forward(cmd@),
            RouterStep::SetMinInterval(ms) => RouterStepView::SetMinInterval(ms),
            RouterStep::Discard => RouterStepView::Discard,
            RouterStep::Stop => RouterStepView::Stop,
        }
    }
}

/// The step that a client message calls for. Data goes to the shell as the
/// UTF-8 bytes of its text; a resize with a zero dimension is malformed and
/// discarded.
pub open spec fn routed_message(msg: ClientMessageView) -> RouterStepView {
    match msg {
        ClientMessageView::Data { data } => RouterStepView::Forward(
            CommandView::Data(encode_utf8(data)),
        ),
        ClientMessageView::Resize { cols, rows } => if cols >= 1 && rows >= 1 {
            RouterStepView::Forward(CommandView::Resize(cols, rows))
        } else {
            RouterStepView::Discard
        },
        ClientMessageView::Scroll { delta } => RouterStepView::Forward(CommandView::Scroll(delta)),
        ClientMessageView::Quality { min_interval_ms } => RouterStepView::SetMinInterval(
            min_interval_ms,
        ),
    }
}

/// The step that a delivery calls for.
pub open spec fn routed(incoming: IncomingView) -> RouterStepView {
    match incoming {
        IncomingView::Message(msg) => routed_message(msg),
        IncomingView::Malformed => RouterStepView::Discard,
        IncomingView::Binary(bytes) => RouterStepView::Forward(CommandView::Data(bytes)),
        IncomingView::Close => RouterStepView::Stop,
        IncomingView::Other => RouterStepView::Discard,
    }
}

/// Dispatches one parsed client message.
pub fn route_client_message(msg: ClientMessage) -> (step: RouterStep)
    ensures
        step@ == routed_message(msg@),
{
    match msg {
        ClientMessage::Data { data } => {
            let bytes: Vec<u8> = data.as_str().as_bytes_vec();
            RouterStep::Forward(PtyCommand::Data(bytes))
        },
        ClientMessage::Resize { cols, rows } => {
            if cols >= 1 && rows >= 1 {
                RouterStep::Forward(PtyCommand::Resize(cols, rows))
            } else {
                RouterStep::Discard
            }
        },
        ClientMessage::Scroll { delta } => RouterStep::Forward(PtyCommand::Scroll(delta)),
        ClientMessage::Quality { min_interval_ms } => RouterStep::SetMinInterval(min_interval_ms),
    }
}

/// Dispatches one delivery of a transport.
pub fn route_incoming(incoming: Incoming) -> (step: RouterStep)
    ensures
        step@ == routed(incoming@),
{
    match incoming {
        Incoming::Message(msg) => route_client_message(msg),
        Incoming::Malformed => RouterStep::Discard,
        Incoming::Binary(bytes) => RouterStep::Forward(PtyCommand::Data(bytes)),
        Incoming::Close => RouterStep::Stop,
        Incoming::Other => RouterStep::Discard,
    }
}

} // verus!
