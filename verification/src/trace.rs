use vstd::prelude::*;
use vstd::utf8::{decode_utf8, valid_utf8};
use crate::display::{data_item, status_item, DisplayItemView};
use crate::frame::{CloseReasonView, FrameView};
use crate::policy::{decision, decode_failure, ping_notice};
use crate::session::{
    next, pending_of, EffectView, EventView, OutcomeView, PendingView, Phase, SessionView,
};

verus! {

/// The session after a sequence of events.
pub open spec fn run(s: SessionView, events: Seq<EventView>) -> SessionView
    decreases events.len(),
{
    if events.len() == 0 {
        s
    } else {
        run(next(s, events[0]).0, events.drop_first())
    }
}

/// The frame that an effect hands to the transport, if any.
pub open spec fn sent_by(effect: EffectView) -> Seq<FrameView> {
    match effect {
        EffectView::Send(frame) => seq![frame],
        _ => Seq::empty(),
    }
}

/// The line that an effect puts on the terminal, if any.
pub open spec fn shown_by(effect: EffectView) -> Seq<DisplayItemView> {
    match effect {
        EffectView::Show(item) => seq![item],
        _ => Seq::empty(),
    }
}

/// The frames handed to the transport over a sequence of events, in order.
pub open spec fn sent(s: SessionView, events: Seq<EventView>) -> Seq<FrameView>
    decreases events.len(),
{
    if events.len() == 0 {
        Seq::empty()
    } else {
        sent_by(next(s, events[0]).1) + sent(next(s, events[0]).0, events.drop_first())
    }
}

/// The lines put on the terminal over a sequence of events, in order.
pub open spec fn shown(s: SessionView, events: Seq<EventView>) -> Seq<DisplayItemView>
    decreases events.len(),
{
    if events.len() == 0 {
        Seq::empty()
    } else {
        shown_by(next(s, events[0]).1) + shown(next(s, events[0]).0, events.drop_first())
    }
}

/// The line that the session accepts from the user with an event: a typed
/// line, while the session connects or is open and the outbound queue has
/// room.
pub open spec fn line_taken(s: SessionView, event: EventView) -> Option<Seq<char>> {
    match event {
        EventView::Typed(line) => if (s.phase == Phase::Connecting || s.phase == Phase::Open)
            && s.outbound_has_room() {
            Some(line)
        } else {
            None
        },
        _ => None,
    }
}

/// What the read loop brings with an event: what the policy asks for a frame
/// it received, or what it could not hand over before.
pub open spec fn brought(s: SessionView, event: EventView) -> PendingView {
    match event {
        EventView::Received(frame) => match decision(frame, s.show_ping_pong) {
            Ok(action) => pending_of(action),
            Err(_) => PendingView { pong: None, show: None },
        },
        EventView::Deliver(p) => p,
        _ => PendingView { pong: None, show: None },
    }
}

/// The payload of the ping that the session answers with an event: the read
/// loop brings a pong while the session is open and the outbound queue has
/// room.
pub open spec fn ping_answered(s: SessionView, event: EventView) -> Option<Seq<u8>> {
    if s.phase == Phase::Open && s.outbound_has_room() {
        brought(s, event).pong
    } else {
        None
    }
}

/// The line that joins the display queue with an event: the read loop brings
/// one while the session is open, its pong, if it brings one, finds room,
/// and the display queue has room.
pub open spec fn line_queued(s: SessionView, event: EventView) -> Option<DisplayItemView> {
    if s.phase == Phase::Open && (brought(s, event).pong is None || s.outbound_has_room())
        && s.inbound_has_room() {
        brought(s, event).show
    } else {
        None
    }
}

/// The frame that joins the outbound queue with an event.
pub open spec fn frame_queued(s: SessionView, event: EventView) -> Seq<FrameView> {
    if line_taken(s, event) is Some {
        seq![FrameView::Text(line_taken(s, event)->0)]
    } else if ping_answered(s, event) is Some {
        seq![FrameView::Pong(ping_answered(s, event)->0)]
    } else {
        Seq::empty()
    }
}

/// The frames that join the outbound queue over a sequence of events, in the
/// order in which the events arrive.
pub open spec fn frames_queued(s: SessionView, events: Seq<EventView>) -> Seq<FrameView>
    decreases events.len(),
{
    if events.len() == 0 {
        Seq::empty()
    } else {
        frame_queued(s, events[0]) + frames_queued(next(s, events[0]).0, events.drop_first())
    }
}

/// The lines that join the display queue over a sequence of events, in the
/// order in which the events arrive.
pub open spec fn lines_queued(s: SessionView, events: Seq<EventView>) -> Seq<DisplayItemView>
    decreases events.len(),
{
    if events.len() == 0 {
        Seq::empty()
    } else {
        (match line_queued(s, events[0]) {
            Some(item) => seq![item],
            None => Seq::empty(),
        }) + lines_queued(next(s, events[0]).0, events.drop_first())
    }
}

/// The lines that the session accepts from the user over a sequence of
/// events, in the order typed.
pub open spec fn lines_taken(s: SessionView, events: Seq<EventView>) -> Seq<Seq<char>>
    decreases events.len(),
{
    if events.len() == 0 {
        Seq::empty()
    } else {
        (match line_taken(s, events[0]) {
            Some(line) => seq![line],
            None => Seq::empty(),
        }) + lines_taken(next(s, events[0]).0, events.drop_first())
    }
}

/// The payloads of the pings that the session answers over a sequence of
/// events, in the order answered.
pub open spec fn pings_answered(s: SessionView, events: Seq<EventView>) -> Seq<Seq<u8>>
    decreases events.len(),
{
    if events.len() == 0 {
        Seq::empty()
    } else {
        (match ping_answered(s, events[0]) {
            Some(payload) => seq![payload],
            None => Seq::empty(),
        }) + pings_answered(next(s, events[0]).0, events.drop_first())
    }
}

/// The payloads of the text frames among `frames`, in order.
pub open spec fn texts(frames: Seq<FrameView>) -> Seq<Seq<char>>
    decreases frames.len(),
{
    if frames.len() == 0 {
        Seq::empty()
    } else {
        (match frames[0] {
            FrameView::Text(line) => seq![line],
            _ => Seq::empty(),
        }) + texts(frames.drop_first())
    }
}

/// The payloads of the pong frames among `frames`, in order.
pub open spec fn pongs(frames: Seq<FrameView>) -> Seq<Seq<u8>>
    decreases frames.len(),
{
    if frames.len() == 0 {
        Seq::empty()
    } else {
        (match frames[0] {
            FrameView::Pong(payload) => seq![payload],
            _ => Seq::empty(),
        }) + pongs(frames.drop_first())
    }
}

/// The text frames of two sequences joined are those of the first followed
/// by those of the second.
pub proof fn texts_of_joined(a: Seq<FrameView>, b: Seq<FrameView>)
    ensures
        texts(a + b) == texts(a) + texts(b),
    decreases a.len(),
{
    if a.len() == 0 {
        assert(a + b =~= b);
        assert(texts(a) + texts(b) =~= texts(b));
    } else {
        assert((a + b).drop_first() =~= a.drop_first() + b);
        texts_of_joined(a.drop_first(), b);
        assert(texts(a + b) =~= texts(a) + texts(b));
    }
}

/// The pong frames of two sequences joined are those of the first followed
/// by those of the second.
pub proof fn pongs_of_joined(a: Seq<FrameView>, b: Seq<FrameView>)
    ensures
        pongs(a + b) == pongs(a) + pongs(b),
    decreases a.len(),
{
    if a.len() == 0 {
        assert(a + b =~= b);
        assert(pongs(a) + pongs(b) =~= pongs(b));
    } else {
        assert((a + b).drop_first() =~= a.drop_first() + b);
        pongs_of_joined(a.drop_first(), b);
        assert(pongs(a + b) =~= pongs(a) + pongs(b));
    }
}

/// One event keeps the outbound queue in order: what waited and what the
/// event queued is what the event sent followed by what waits now.
pub proof fn outbound_step(s: SessionView, event: EventView)
    ensures
        s.outbound + frame_queued(s, event) == sent_by(next(s, event).1) + next(s, event).0.outbound,
{
    let after = next(s, event);
    assert(s.outbound + frame_queued(s, event) =~= sent_by(after.1) + after.0.outbound);
}

/// One event keeps the display queue in order: what waited and what the
/// event queued is what the event showed followed by what waits now.
pub proof fn inbound_step(s: SessionView, event: EventView)
    ensures
        s.inbound + (match line_queued(s, event) {
            Some(item) => seq![item],
            None => Seq::empty(),
        }) == shown_by(next(s, event).1) + next(s, event).0.inbound,
{
    let after = next(s, event);
    let queued = match line_queued(s, event) {
        Some(item) => seq![item],
        None => Seq::empty(),
    };
    assert(s.inbound + queued =~= shown_by(after.1) + after.0.inbound);
}

/// The outbound queue is first-in, first-out over any sequence of events:
/// the frames that waited at the start, followed by those queued since in
/// the order of their arrival, are the frames sent, in the order sent,
/// followed by those that still wait. Nothing is lost, doubled or
/// overtaken, whether it is a typed line or a pong.
pub proof fn outbound_is_fifo(s: SessionView, events: Seq<EventView>)
    ensures
        s.outbound + frames_queued(s, events) == sent(s, events) + run(s, events).outbound,
    decreases events.len(),
{
    if events.len() == 0 {
        assert(s.outbound + frames_queued(s, events) =~= sent(s, events) + run(s, events).outbound);
    } else {
        let after = next(s, events[0]);
        let rest = events.drop_first();
        outbound_step(s, events[0]);
        outbound_is_fifo(after.0, rest);
        assert(s.outbound + frames_queued(s, events) =~= (s.outbound + frame_queued(s, events[0]))
            + frames_queued(after.0, rest));
        assert(sent(s, events) + run(s, events).outbound =~= sent_by(after.1) + (sent(after.0, rest)
            + run(after.0, rest).outbound));
        assert((sent_by(after.1) + after.0.outbound) + frames_queued(after.0, rest) =~= sent_by(
            after.1,
        ) + (after.0.outbound + frames_queued(after.0, rest)));
    }
}

/// The display queue is first-in, first-out over any sequence of events:
/// the lines that waited at the start, followed by those queued since in
/// the order of their arrival, are the lines shown, in the order shown,
/// followed by those that still wait.
pub proof fn inbound_is_fifo(s: SessionView, events: Seq<EventView>)
    ensures
        s.inbound + lines_queued(s, events) == shown(s, events) + run(s, events).inbound,
    decreases events.len(),
{
    if events.len() == 0 {
        assert(s.inbound + lines_queued(s, events) =~= shown(s, events) + run(s, events).inbound);
    } else {
        let after = next(s, events[0]);
        let rest = events.drop_first();
        let queued = match line_queued(s, events[0]) {
            Some(item) => seq![item],
            None => Seq::empty(),
        };
        inbound_step(s, events[0]);
        inbound_is_fifo(after.0, rest);
        assert(s.inbound + lines_queued(s, events) =~= (s.inbound + queued) + lines_queued(
            after.0,
            rest,
        ));
        assert(shown(s, events) + run(s, events).inbound =~= shown_by(after.1) + (shown(after.0, rest)
            + run(after.0, rest).inbound));
        assert((shown_by(after.1) + after.0.inbound) + lines_queued(after.0, rest) =~= shown_by(
            after.1,
        ) + (after.0.inbound + lines_queued(after.0, rest)));
    }
}

/// The text frames among those queued are the lines taken from the user.
pub proof fn queued_texts_are_lines_taken(s: SessionView, events: Seq<EventView>)
    ensures
        texts(frames_queued(s, events)) == lines_taken(s, events),
    decreases events.len(),
{
    if events.len() == 0 {
    } else {
        let after = next(s, events[0]);
        let rest = events.drop_first();
        queued_texts_are_lines_taken(after.0, rest);
        texts_of_joined(frame_queued(s, events[0]), frames_queued(after.0, rest));
        let one = frame_queued(s, events[0]);
        if one.len() > 0 {
            assert(one.drop_first() =~= Seq::<FrameView>::empty());
            assert(texts(one.drop_first()) =~= Seq::<Seq<char>>::empty());
        }
        assert(texts(one) =~= (match line_taken(s, events[0]) {
            Some(line) => seq![line],
            None => Seq::empty(),
        }));
    }
}

/// The pong frames among those queued carry the payloads of the pings
/// answered.
pub proof fn queued_pongs_are_pings_answered(s: SessionView, events: Seq<EventView>)
    ensures
        pongs(frames_queued(s, events)) == pings_answered(s, events),
    decreases events.len(),
{
    if events.len() == 0 {
    } else {
        let after = next(s, events[0]);
        let rest = events.drop_first();
        queued_pongs_are_pings_answered(after.0, rest);
        pongs_of_joined(frame_queued(s, events[0]), frames_queued(after.0, rest));
        let one = frame_queued(s, events[0]);
        if one.len() > 0 {
            assert(one.drop_first() =~= Seq::<FrameView>::empty());
            assert(pongs(one.drop_first()) =~= Seq::<Seq<u8>>::empty());
        }
        assert(pongs(one) =~= (match ping_answered(s, events[0]) {
            Some(payload) => seq![payload],
            None => Seq::empty(),
        }));
    }
}

/// Typed lines reach the peer in the order typed: over any sequence of
/// events, the text frames sent, followed by those that still wait, are the
/// text frames that waited at the start followed by the lines taken from
/// the user, in the order typed.
pub proof fn typed_lines_keep_their_order(s: SessionView, events: Seq<EventView>)
    ensures
        texts(sent(s, events)) + texts(run(s, events).outbound) == texts(s.outbound) + lines_taken(
            s,
            events,
        ),
{
    outbound_is_fifo(s, events);
    texts_of_joined(sent(s, events), run(s, events).outbound);
    texts_of_joined(s.outbound, frames_queued(s, events));
    queued_texts_are_lines_taken(s, events);
}

/// Each ping answered gives one pong with its payload, and pongs leave in
/// the order of their pings: over any sequence of events, the payloads of
/// the pongs sent, followed by those that still wait, are those that waited
/// at the start followed by the payloads of the pings answered, in order.
pub proof fn pongs_follow_their_pings(s: SessionView, events: Seq<EventView>)
    ensures
        pongs(sent(s, events)) + pongs(run(s, events).outbound) == pongs(s.outbound)
            + pings_answered(s, events),
{
    outbound_is_fifo(s, events);
    pongs_of_joined(sent(s, events), run(s, events).outbound);
    pongs_of_joined(s.outbound, frames_queued(s, events));
    queued_pongs_are_pings_answered(s, events);
}

/// A ping that reaches an open session is answered at once where the
/// outbound queue has room: a pong with the same payload joins the end of
/// the queue, whether notices are shown or not. Where the queue is full
/// nothing changes and the read loop keeps the pong.
pub proof fn ping_is_answered(s: SessionView, payload: Seq<u8>)
    requires
        s.phase == Phase::Open,
    ensures
        s.outbound_has_room() ==> next(s, EventView::Received(FrameView::Ping(payload))).0.outbound
            == s.outbound.push(FrameView::Pong(payload)),
        !s.outbound_has_room() ==> next(s, EventView::Received(FrameView::Ping(payload))) == (
            s,
            EffectView::Retry(
                EventView::Deliver(
                    PendingView {
                        pong: Some(payload),
                        show: if s.show_ping_pong {
                            Some(status_item(ping_notice()))
                        } else {
                            None
                        },
                    },
                ),
            ),
        ),
        !s.show_ping_pong ==> next(s, EventView::Received(FrameView::Ping(payload))).0.inbound
            == s.inbound,
{
}

/// Once a session has seen a terminal condition, no event makes it send or
/// show anything, reopen, or change its outcome and its queues.
pub proof fn nothing_after_the_end(s: SessionView, events: Seq<EventView>)
    requires
        s.wf(),
        s.phase == Phase::Closing || s.phase == Phase::Closed,
    ensures
        sent(s, events) == Seq::<FrameView>::empty(),
        shown(s, events) == Seq::<DisplayItemView>::empty(),
        run(s, events).phase == Phase::Closing || run(s, events).phase == Phase::Closed,
        run(s, events).outcome == s.outcome,
        run(s, events).outbound == s.outbound,
        run(s, events).inbound == s.inbound,
    decreases events.len(),
{
    if events.len() == 0 {
    } else {
        let after = next(s, events[0]);
        nothing_after_the_end(after.0, events.drop_first());
        assert(sent(s, events) =~= Seq::<FrameView>::empty());
        assert(shown(s, events) =~= Seq::<DisplayItemView>::empty());
    }
}

/// A close frame ends an open session for good: the outcome is the peer's
/// close with its reason, the exit status is 0, and whatever happens
/// afterwards nothing more is sent or shown.
pub proof fn close_ends_the_session(
    s: SessionView,
    reason: Option<CloseReasonView>,
    events: Seq<EventView>,
)
    requires
        s.wf(),
        s.phase == Phase::Open,
    ensures
        ({
            let closed = next(s, EventView::Received(FrameView::Close(reason)));
            &&& closed.1 == EffectView::Nothing
            &&& closed.0.phase == Phase::Closing
            &&& closed.0.outcome == Some(OutcomeView::PeerClosed(reason))
            &&& closed.0.outcome->0.exit_code() == 0
            &&& sent(closed.0, events) == Seq::<FrameView>::empty()
            &&& shown(closed.0, events) == Seq::<DisplayItemView>::empty()
            &&& run(closed.0, events).outcome == closed.0.outcome
        }),
{
    let closed = next(s, EventView::Received(FrameView::Close(reason)));
    nothing_after_the_end(closed.0, events);
}

/// A binary frame that holds valid UTF-8 is shown as the text it encodes:
/// where the display queue of an open session has room, that text joins its
/// end, and nothing is sent.
pub proof fn valid_binary_is_shown_decoded(s: SessionView, payload: Seq<u8>)
    requires
        s.phase == Phase::Open,
        s.inbound_has_room(),
        valid_utf8(payload),
    ensures
        ({
            let after = next(s, EventView::Received(FrameView::Binary(payload)));
            &&& after.1 == EffectView::Nothing
            &&& after.0.inbound == s.inbound.push(data_item(decode_utf8(payload)))
            &&& after.0.outbound == s.outbound
            &&& after.0.phase == Phase::Open
        }),
{
}

/// A binary frame that is not UTF-8 ends an open session with a decode
/// failure and exit status 1. No part of it joins the display queue, and
/// whatever happens afterwards nothing more is shown or sent.
pub proof fn invalid_binary_ends_the_session(
    s: SessionView,
    payload: Seq<u8>,
    events: Seq<EventView>,
)
    requires
        s.wf(),
        s.phase == Phase::Open,
        !valid_utf8(payload),
    ensures
        ({
            let after = next(s, EventView::Received(FrameView::Binary(payload)));
            &&& after.1 == EffectView::Nothing
            &&& after.0.phase == Phase::Closing
            &&& after.0.outcome == Some(OutcomeView::Failed(decode_failure()))
            &&& after.0.outcome->0.exit_code() == 1
            &&& after.0.inbound == s.inbound
            &&& shown(after.0, events) == Seq::<DisplayItemView>::empty()
            &&& sent(after.0, events) == Seq::<FrameView>::empty()
        }),
{
    let after = next(s, EventView::Received(FrameView::Binary(payload)));
    nothing_after_the_end(after.0, events);
}

/// Every session stays well-formed over any sequence of events.
pub proof fn run_keeps_wf(s: SessionView, events: Seq<EventView>)
    requires
        s.wf(),
    ensures
        run(s, events).wf(),
    decreases events.len(),
{
    if events.len() > 0 {
        run_keeps_wf(next(s, events[0]).0, events.drop_first());
    }
}

/// A session moves forward only: from connecting to open, closing and
/// closed, never back.
pub proof fn phases_only_advance(s: SessionView, event: EventView)
    ensures
        phase_rank(s.phase) <= phase_rank(next(s, event).0.phase),
{
}

/// The place of a phase in the life of a session.
pub open spec fn phase_rank(phase: Phase) -> nat {
    match phase {
        Phase::Connecting => 0,
        Phase::Open => 1,
        Phase::Closing => 2,
        Phase::Closed => 3,
    }
}

} // verus!
