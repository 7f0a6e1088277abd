use vstd::prelude::*;
use vstd::string::StringExecFns;
use crate::display::inbound_marker;
use crate::frame::{Frame, FrameView};
use crate::style::{styled, tinted, Tint};

verus! {

/// What a connection handler of the listener got from its read.
#[derive(Debug, PartialEq, Eq)]
pub enum ServerInput {
    /// The client sent this frame.
    Received(Frame),
    /// The read failed.
    ReadFailed,
}

/// Mathematical value of a [`ServerInput`].
pub enum ServerInputView {
    Received(FrameView),
    ReadFailed,
}

impl View for ServerInput {
    type V = ServerInputView;

    open spec fn view(&self) -> ServerInputView {
        match *self {
            ServerInput::Received(f) => ServerInputView::Received(f@),
            ServerInput::ReadFailed => ServerInputView::ReadFailed,
        }
    }
}

/// What a connection handler does after one read.
#[derive(Debug, PartialEq, Eq)]
pub struct ServerStep {
    /// The frame to write back, if any.
    pub reply: Option<Frame>,
    /// The line for the log, if any.
    pub log: Option<String>,
    /// Whether the handler stops.
    pub stop: bool,
}

/// Mathematical value of a [`ServerStep`].
pub struct ServerStepView {
    pub reply: Option<FrameView>,
    pub log: Option<Seq<char>>,
    pub stop: bool,
}

impl View for ServerStep {
    type V = ServerStepView;

    open spec fn view(&self) -> ServerStepView {
        ServerStepView {
            reply: match self.reply {
                Some(f) => Some(f@),
                None => None,
            },
            log: match self.log {
                Some(l) => Some(l@),
                None => None,
            },
            stop: self.stop,
        }
    }
}

/// The line logged when a read fails.
pub open spec fn disconnecting_notice() -> Seq<char> {
    "Disconnecting ws"@
}

/// The line logged when the client closes.
pub open spec fn client_gone_notice() -> Seq<char> {
    "Client disconnected"@
}

/// What stands for the origin of a text in the log.
pub open spec fn origin_tag() -> Seq<char> {
    "(ip)"@
}

/// The line logged for a text of the client: the marker, the text, a
/// space, and the origin tag in dim white.
pub open spec fn text_line(payload: Seq<char>) -> Seq<char> {
    inbound_marker() + payload + " "@ + tinted(Tint::DimWhite, origin_tag())
}

/// The step that does nothing.
pub open spec fn idle() -> ServerStepView {
    ServerStepView { reply: None, log: None, stop: false }
}

/// The rule of a connection handler: a ping is answered with a pong of its
/// payload, text is logged, a close is answered with a close without reason
/// and stops the handler, and so does a failed read, which is logged in
/// red. Pongs and binary frames are passed over.
pub open spec fn server_rule(input: ServerInputView) -> ServerStepView {
    match input {
        ServerInputView::ReadFailed => ServerStepView {
            reply: None,
            log: Some(tinted(Tint::Red, disconnecting_notice())),
            stop: true,
        },
        ServerInputView::Received(frame) => match frame {
            FrameView::Close(_) => ServerStepView {
                reply: Some(FrameView::Close(None)),
                log: Some(client_gone_notice()),
                stop: true,
            },
            FrameView::Ping(payload) => ServerStepView {
                reply: Some(FrameView::Pong(payload)),
                ..idle()
            },
            FrameView::Pong(_) => idle(),
            FrameView::Binary(_) => idle(),
            FrameView::Text(payload) => ServerStepView {
                log: Some(text_line(payload)),
                ..idle()
            },
        },
    }
}

/// Decides what a connection handler does with what it read.
pub fn serve(input: ServerInput) -> (res: ServerStep)
    ensures
        res@ == server_rule(input@),
{
    match input {
        ServerInput::ReadFailed => ServerStep {
            reply: None,
            log: Some(styled(Tint::Red, "Disconnecting ws")),
            stop: true,
        },
        ServerInput::Received(frame) => match frame {
            Frame::Close(_) => ServerStep {
                reply: Some(Frame::Close(None)),
                log: Some(String::from_str("Client disconnected")),
                stop: true,
            },
            Frame::Ping(payload) => ServerStep {
                reply: Some(Frame::Pong(payload)),
                log: None,
                stop: false,
            },
            Frame::Pong(_) => ServerStep { reply: None, log: None, stop: false },
            Frame::Binary(_) => ServerStep { reply: None, log: None, stop: false },
            Frame::Text(payload) => {
                let tag = styled(Tint::DimWhite, "(ip)");
                let line = String::from_str("<< ").concat(payload.as_str()).concat(" ").concat(
                    tag.as_str(),
                );
                ServerStep { reply: None, log: Some(line), stop: false }
            },
        },
    }
}

/// A handler stops exactly on a close frame and on a failed read, and it
/// answers exactly pings and closes.
pub proof fn handler_stops_on_close_or_failure(input: ServerInputView)
    ensures
        server_rule(input).stop <==> (input is ReadFailed || (input matches ServerInputView::Received(
            f,
        ) && f is Close)),
        server_rule(input).reply is Some <==> (input matches ServerInputView::Received(f) && (f is Ping
            || f is Close)),
{
}

} // verus!
