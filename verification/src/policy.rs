use vstd::prelude::*;
use vstd::string::StringExecFns;
use vstd::utf8::{decode_utf8, valid_utf8};
use crate::display::{data_item, status_item, DisplayItem, DisplayItemView};
use crate::error::{invalid_utf8_detail, ErrorKind, SessionError, SessionErrorView};
use crate::frame::{reason_view, CloseReason, CloseReasonView, Frame, FrameView};
use crate::text::string_from_utf8;

verus! {

/// What the client does with one inbound frame.
#[derive(Debug, PartialEq, Eq)]
pub enum PolicyAction {
    /// Queue `reply` for sending and, where `notice` is there, show it.
    AutoReply { reply: Frame, notice: Option<DisplayItem> },
    /// Show the item.
    Display(DisplayItem),
    /// Do nothing.
    Ignore,
    /// End the session: the peer closed.
    Terminate(Option<CloseReason>),
}

/// Mathematical value of a [`PolicyAction`].
pub enum PolicyActionView {
    AutoReply { reply: FrameView, notice: Option<DisplayItemView> },
    Display(DisplayItemView),
    Ignore,
    Terminate(Option<CloseReasonView>),
}

/// Mathematical value of an optional display item.
pub open spec fn item_view(item: Option<DisplayItem>) -> Option<DisplayItemView> {
    match item {
        Some(i) => Some(i@),
        None => None,
    }
}

impl View for PolicyAction {
    type V = PolicyActionView;

    open spec fn view(&self) -> PolicyActionView {
        match *self {
            PolicyAction::AutoReply { reply, notice } => PolicyActionView::AutoReply {
                reply: reply@,
                notice: item_view(notice),
            },
            PolicyAction::Display(item) => PolicyActionView::Display(item@),
            PolicyAction::Ignore => PolicyActionView::Ignore,
            PolicyAction::Terminate(r) => PolicyActionView::Terminate(reason_view(r)),
        }
    }
}

impl PolicyActionView {
    /// The frame that this action sends, if any.
    pub open spec fn reply(self) -> Option<FrameView> {
        match self {
            PolicyActionView::AutoReply { reply, .. } => Some(reply),
            _ => None,
        }
    }

    /// The line that this action shows, if any.
    pub open spec fn shown(self) -> Option<DisplayItemView> {
        match self {
            PolicyActionView::AutoReply { notice, .. } => notice,
            PolicyActionView::Display(item) => Some(item),
            _ => None,
        }
    }

    /// Whether this action ends the session.
    pub open spec fn ends(self) -> bool {
        self is Terminate
    }
}

/// The notice shown for a ping.
pub open spec fn ping_notice() -> Seq<char> {
    "-- received ping"@
}

/// The notice shown for a pong.
pub open spec fn pong_notice() -> Seq<char> {
    "-- received pong"@
}

/// The failure that a binary frame with invalid UTF-8 raises.
pub open spec fn decode_failure() -> SessionErrorView {
    SessionErrorView { kind: ErrorKind::Decode, detail: invalid_utf8_detail() }
}

/// The policy: what an inbound frame asks for under the given setting.
///
/// A ping is always answered with a pong of the same payload, and noticed only
/// when notices are on. A pong is noticed when they are on and ignored
/// otherwise. Text is shown as it is, a binary frame as the text it encodes,
/// and one that is not UTF-8 is a failure. A close ends the session.
pub open spec fn decision(frame: FrameView, show_ping_pong: bool) -> Result<
    PolicyActionView,
    SessionErrorView,
> {
    match frame {
        FrameView::Ping(payload) => Ok(
            PolicyActionView::AutoReply {
                reply: FrameView::Pong(payload),
                notice: if show_ping_pong {
                    Some(status_item(ping_notice()))
                } else {
                    None
                },
            },
        ),
        FrameView::Pong(_) => Ok(
            if show_ping_pong {
                PolicyActionView::Display(status_item(pong_notice()))
            } else {
                PolicyActionView::Ignore
            },
        ),
        FrameView::Text(payload) => Ok(PolicyActionView::Display(data_item(payload))),
        FrameView::Binary(payload) => if valid_utf8(payload) {
            Ok(PolicyActionView::Display(data_item(decode_utf8(payload))))
        } else {
            Err(decode_failure())
        },
        FrameView::Close(reason) => Ok(PolicyActionView::Terminate(reason)),
    }
}

/// Mathematical value of what [`decide`] returns.
pub open spec fn verdict_view(res: Result<PolicyAction, SessionError>) -> Result<
    PolicyActionView,
    SessionErrorView,
> {
    match res {
        Ok(action) => Ok(action@),
        Err(e) => Err(e@),
    }
}

/// Applies the policy to one inbound frame. It neither blocks nor performs
/// I/O, and answers every frame.
pub fn decide(frame: Frame, show_ping_pong: bool) -> (res: Result<PolicyAction, SessionError>)
    ensures
        verdict_view(res) == decision(frame@, show_ping_pong),
{
    match frame {
        Frame::Ping(payload) => {
            let notice = if show_ping_pong {
                Some(DisplayItem::status(String::from_str("-- received ping")))
            } else {
                None
            };
            Ok(PolicyAction::AutoReply { reply: Frame::Pong(payload), notice })
        },
        Frame::Pong(_) => {
            if show_ping_pong {
                Ok(PolicyAction::Display(DisplayItem::status(String::from_str("-- received pong"))))
            } else {
                Ok(PolicyAction::Ignore)
            }
        },
        Frame::Text(payload) => Ok(PolicyAction::Display(DisplayItem::data(payload))),
        Frame::Binary(payload) => {
            match string_from_utf8(payload) {
                Some(text) => Ok(PolicyAction::Display(DisplayItem::data(text))),
                None => Err(SessionError::invalid_utf8()),
            }
        },
        Frame::Close(reason) => Ok(PolicyAction::Terminate(reason)),
    }
}

/// The reply to a frame does not depend on whether notices are shown: the
/// same frame is answered with the same reply, fails or ends the session
/// alike, under either setting.
pub proof fn reply_independent_of_notices(frame: FrameView)
    ensures
        decision(frame, true) is Ok <==> decision(frame, false) is Ok,
        decision(frame, true) is Ok ==> {
            &&& decision(frame, true)->Ok_0.reply() == decision(frame, false)->Ok_0.reply()
            &&& decision(frame, true)->Ok_0.ends() == decision(frame, false)->Ok_0.ends()
        },
        decision(frame, true) is Err ==> decision(frame, true) == decision(frame, false),
{
}

/// With notices off no ping and no pong shows a line, and a ping is still
/// answered with a pong of its payload.
pub proof fn notices_off_shows_no_control_frame(frame: FrameView)
    requires
        frame is Ping || frame is Pong,
    ensures
        decision(frame, false) is Ok,
        decision(frame, false)->Ok_0.shown() is None,
        frame matches FrameView::Ping(payload) ==> decision(frame, false)->Ok_0.reply() == Some(
            FrameView::Pong(payload),
        ),
{
}

/// What is shown for data does not depend on whether notices are shown.
pub proof fn data_independent_of_notices(frame: FrameView)
    requires
        frame is Text || frame is Binary,
    ensures
        decision(frame, true) == decision(frame, false),
{
}

} // verus!
