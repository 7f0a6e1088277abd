use vstd::prelude::*;
use vstd::string::StringExecFns;
use crate::display::{DisplayItem, DisplayItemView};
use crate::error::{ErrorKind, SessionError, SessionErrorView};
use crate::frame::{reason_view, CloseReason, CloseReasonView, Frame, FrameView};
use crate::policy::{decide, decision, item_view, PolicyAction, PolicyActionView};
use crate::queue::{BoundedQueue, QUEUE_CAPACITY};
use crate::style::{styled, tinted, Tint};

verus! {

/// Where a session stands in its life.
#[derive(Clone, Copy, Debug, PartialEq, Eq, Structural)]
pub enum Phase {
    /// The connection is being built.
    Connecting,
    /// Frames flow in both directions.
    Open,
    /// A terminal condition was seen; the loops are unwinding.
    Closing,
    /// Every loop has exited.
    Closed,
}

/// Why a session ended.
#[derive(Debug, PartialEq, Eq)]
pub enum Outcome {
    /// The peer sent a close frame.
    PeerClosed(Option<CloseReason>),
    /// The connection could not be built, broke, or sent what cannot be shown.
    Failed(SessionError),
    /// The user interrupted the input.
    Interrupted,
    /// The input came to its end.
    InputEnded,
}

/// Mathematical value of an [`Outcome`].
pub enum OutcomeView {
    PeerClosed(Option<CloseReasonView>),
    Failed(SessionErrorView),
    Interrupted,
    InputEnded,
}

impl View for Outcome {
    type V = OutcomeView;

    open spec fn view(&self) -> OutcomeView {
        match *self {
            Outcome::PeerClosed(r) => OutcomeView::PeerClosed(reason_view(r)),
            Outcome::Failed(e) => OutcomeView::Failed(e@),
            Outcome::Interrupted => OutcomeView::Interrupted,
            Outcome::InputEnded => OutcomeView::InputEnded,
        }
    }
}

/// The notice shown when the peer closed.
pub open spec fn closed_notice() -> Seq<char> {
    "connection closed"@
}

impl OutcomeView {
    /// The exit status of the process: 1 after a failure, 0 otherwise.
    pub open spec fn exit_code(self) -> u8 {
        if self is Failed {
            1
        } else {
            0
        }
    }

    /// The line shown to the user before the process exits, if any: the
    /// plain notice after a close of the peer, the message in red after a
    /// failure.
    pub open spec fn report(self) -> Option<Seq<char>> {
        match self {
            OutcomeView::PeerClosed(_) => Some(closed_notice()),
            OutcomeView::Failed(e) => Some(tinted(Tint::Red, e.message())),
            OutcomeView::Interrupted => None,
            OutcomeView::InputEnded => None,
        }
    }
}

impl Outcome {
    /// The exit status of the process: 1 after a failure, 0 otherwise.
    pub fn exit_code(&self) -> (res: u8)
        ensures
            res == self@.exit_code(),
    {
        match self {
            Outcome::Failed(_) => 1,
            _ => 0,
        }
    }

    /// Whether the line of [`Self::report`] is shown as an error.
    pub fn is_failure(&self) -> (res: bool)
        ensures
            res == (self@ is Failed),
    {
        match self {
            Outcome::Failed(_) => true,
            _ => false,
        }
    }

    /// The line shown to the user before the process exits, if any: the
    /// plain notice after a close of the peer, the message in red after a
    /// failure.
    pub fn report(&self) -> (res: Option<String>)
        ensures
            res is Some <==> self@.report() is Some,
            res is Some ==> res->0@ == self@.report()->0,
    {
        match self {
            Outcome::PeerClosed(_) => Some(String::from_str("connection closed")),
            Outcome::Failed(e) => {
                let message = e.message();
                Some(styled(Tint::Red, message.as_str()))
            },
            Outcome::Interrupted => None,
            Outcome::InputEnded => None,
        }
    }
}

/// What the read loop still has to hand over after it met a full queue: a
/// pong for the outbound queue, a line for the display queue, or both, the
/// pong first.
#[derive(Debug, PartialEq, Eq)]
pub struct Pending {
    pub pong: Option<Vec<u8>>,
    pub show: Option<DisplayItem>,
}

/// Mathematical value of a [`Pending`].
pub struct PendingView {
    pub pong: Option<Seq<u8>>,
    pub show: Option<DisplayItemView>,
}

/// Mathematical value of an optional payload.
pub open spec fn payload_view(payload: Option<Vec<u8>>) -> Option<Seq<u8>> {
    match payload {
        Some(bytes) => Some(bytes@),
        None => None,
    }
}

impl View for Pending {
    type V = PendingView;

    open spec fn view(&self) -> PendingView {
        PendingView { pong: payload_view(self.pong), show: item_view(self.show) }
    }
}

/// What happened around the session.
#[derive(Debug, PartialEq, Eq)]
pub enum Event {
    /// The connection was built.
    Connected,
    /// The connection could not be built.
    ConnectFailed(SessionError),
    /// The read loop got a frame from the peer.
    Received(Frame),
    /// The read loop comes back with what it could not hand over before.
    Deliver(Pending),
    /// The read loop failed with this detail.
    ReceiveFailed(String),
    /// The user typed a line.
    Typed(String),
    /// The user interrupted the input.
    Interrupted,
    /// The input came to its end.
    InputEnded,
    /// The write loop asks for the next frame to send.
    WriterReady,
    /// The write loop failed with this detail.
    SendFailed(String),
    /// The display loop asks for the next line to show.
    DisplayReady,
    /// Every loop has exited.
    Unwound,
}

/// Mathematical value of an [`Event`].
pub enum EventView {
    Connected,
    ConnectFailed(SessionErrorView),
    Received(FrameView),
    Deliver(PendingView),
    ReceiveFailed(Seq<char>),
    Typed(Seq<char>),
    Interrupted,
    InputEnded,
    WriterReady,
    SendFailed(Seq<char>),
    DisplayReady,
    Unwound,
}

impl View for Event {
    type V = EventView;

    open spec fn view(&self) -> EventView {
        match *self {
            Event::Connected => EventView::Connected,
            Event::ConnectFailed(e) => EventView::ConnectFailed(e@),
            Event::Received(f) => EventView::Received(f@),
            Event::Deliver(p) => EventView::Deliver(p@),
            Event::ReceiveFailed(d) => EventView::ReceiveFailed(d@),
            Event::Typed(l) => EventView::Typed(l@),
            Event::Interrupted => EventView::Interrupted,
            Event::InputEnded => EventView::InputEnded,
            Event::WriterReady => EventView::WriterReady,
            Event::SendFailed(d) => EventView::SendFailed(d@),
            Event::DisplayReady => EventView::DisplayReady,
            Event::Unwound => EventView::Unwound,
        }
    }
}

/// What the caller has to do after an event.
#[derive(Debug, PartialEq, Eq)]
pub enum Effect {
    /// Nothing.
    Nothing,
    /// Hand this frame to the transport.
    Send(Frame),
    /// Show this line on the terminal.
    Show(DisplayItem),
    /// A queue was full: wait until it has room, then come back with this
    /// event.
    Retry(Event),
}

/// Mathematical value of an [`Effect`].
pub enum EffectView {
    Nothing,
    Send(FrameView),
    Show(DisplayItemView),
    Retry(EventView),
}

impl View for Effect {
    type V = EffectView;

    open spec fn view(&self) -> EffectView {
        match *self {
            Effect::Nothing => EffectView::Nothing,
            Effect::Send(f) => EffectView::Send(f@),
            Effect::Show(i) => EffectView::Show(i@),
            Effect::Retry(e) => EffectView::Retry(e@),
        }
    }
}

/// Mathematical value of a [`Session`].
pub struct SessionView {
    pub phase: Phase,
    pub show_ping_pong: bool,
    /// Frames waiting to be sent, the oldest first.
    pub outbound: Seq<FrameView>,
    pub outbound_limit: nat,
    /// Lines waiting to be shown, the oldest first.
    pub inbound: Seq<DisplayItemView>,
    pub inbound_limit: nat,
    pub outcome: Option<OutcomeView>,
}

impl SessionView {
    /// Whether the queues respect their limits and an outcome is known
    /// exactly from the moment the session closes.
    pub open spec fn wf(self) -> bool {
        &&& 0 < self.outbound_limit
        &&& 0 < self.inbound_limit
        &&& self.outbound.len() <= self.outbound_limit
        &&& self.inbound.len() <= self.inbound_limit
        &&& self.outcome is Some <==> (self.phase == Phase::Closing || self.phase == Phase::Closed)
    }

    /// Whether the outbound queue can take one more frame.
    pub open spec fn outbound_has_room(self) -> bool {
        self.outbound.len() < self.outbound_limit
    }

    /// Whether the display queue can take one more line.
    pub open spec fn inbound_has_room(self) -> bool {
        self.inbound.len() < self.inbound_limit
    }

    /// The session in another phase, with `outcome` as its outcome unless it
    /// has one already: the first terminal condition is the one reported.
    pub open spec fn conclude(self, phase: Phase, outcome: OutcomeView) -> SessionView {
        SessionView {
            phase,
            outcome: if self.outcome is Some {
                self.outcome
            } else {
                Some(outcome)
            },
            ..self
        }
    }

    /// The session with one more frame at the end of the outbound queue.
    pub open spec fn with_outbound(self, frame: FrameView) -> SessionView {
        SessionView { outbound: self.outbound.push(frame), ..self }
    }

    /// The session with one more line at the end of the display queue.
    pub open spec fn with_inbound(self, item: DisplayItemView) -> SessionView {
        SessionView { inbound: self.inbound.push(item), ..self }
    }
}

/// The session before anything has happened.
pub open spec fn fresh(show_ping_pong: bool, limit: nat) -> SessionView {
    SessionView {
        phase: Phase::Connecting,
        show_ping_pong,
        outbound: Seq::empty(),
        outbound_limit: limit,
        inbound: Seq::empty(),
        inbound_limit: limit,
        outcome: None,
    }
}

/// The failure that a broken read or write raises.
pub open spec fn transport_failure(detail: Seq<char>) -> OutcomeView {
    OutcomeView::Failed(SessionErrorView { kind: ErrorKind::Transport, detail })
}

/// What the read loop has to hand over for a policy action.
pub open spec fn pending_of(action: PolicyActionView) -> PendingView {
    match action {
        PolicyActionView::AutoReply { reply, notice } => PendingView {
            pong: match reply {
                FrameView::Pong(payload) => Some(payload),
                _ => None,
            },
            show: notice,
        },
        PolicyActionView::Display(item) => PendingView { pong: None, show: Some(item) },
        _ => PendingView { pong: None, show: None },
    }
}

/// Handing over in an open session: the pong goes to the outbound queue,
/// then the line to the display queue. Whatever meets a full queue stays
/// with the read loop, which has to come back with it.
pub open spec fn deliver(s: SessionView, p: PendingView) -> (SessionView, EffectView) {
    if p.pong is Some && !s.outbound_has_room() {
        (s, EffectView::Retry(EventView::Deliver(p)))
    } else {
        let s1 = if p.pong is Some {
            s.with_outbound(FrameView::Pong(p.pong->0))
        } else {
            s
        };
        match p.show {
            None => (s1, EffectView::Nothing),
            Some(item) => if s1.inbound_has_room() {
                (s1.with_inbound(item), EffectView::Nothing)
            } else {
                (s1, EffectView::Retry(EventView::Deliver(PendingView { pong: None, show: Some(item) })))
            },
        }
    }
}

/// What a frame from the peer does to an open session.
pub open spec fn receive(s: SessionView, frame: FrameView) -> (SessionView, EffectView) {
    match decision(frame, s.show_ping_pong) {
        Err(e) => (s.conclude(Phase::Closing, OutcomeView::Failed(e)), EffectView::Nothing),
        Ok(action) => match action {
            PolicyActionView::Terminate(reason) => (
                s.conclude(Phase::Closing, OutcomeView::PeerClosed(reason)),
                EffectView::Nothing,
            ),
            PolicyActionView::Ignore => (s, EffectView::Nothing),
            _ => deliver(s, pending_of(action)),
        },
    }
}

/// The transition function of a session: its state after an event, and what
/// the caller has to do.
pub open spec fn next(s: SessionView, event: EventView) -> (SessionView, EffectView) {
    match event {
        EventView::Connected => if s.phase == Phase::Connecting {
            (SessionView { phase: Phase::Open, ..s }, EffectView::Nothing)
        } else {
            (s, EffectView::Nothing)
        },
        EventView::ConnectFailed(e) => if s.phase == Phase::Connecting {
            (s.conclude(Phase::Closed, OutcomeView::Failed(e)), EffectView::Nothing)
        } else {
            (s, EffectView::Nothing)
        },
        EventView::Received(frame) => if s.phase == Phase::Open {
            receive(s, frame)
        } else {
            (s, EffectView::Nothing)
        },
        EventView::Deliver(p) => if s.phase == Phase::Open {
            deliver(s, p)
        } else {
            (s, EffectView::Nothing)
        },
        EventView::ReceiveFailed(detail) => if s.phase == Phase::Open {
            (s.conclude(Phase::Closing, transport_failure(detail)), EffectView::Nothing)
        } else {
            (s, EffectView::Nothing)
        },
        EventView::Typed(line) => if s.phase == Phase::Connecting || s.phase == Phase::Open {
            if s.outbound_has_room() {
                (s.with_outbound(FrameView::Text(line)), EffectView::Nothing)
            } else {
                (s, EffectView::Retry(event))
            }
        } else {
            (s, EffectView::Nothing)
        },
        EventView::Interrupted => if s.phase != Phase::Closed {
            (s.conclude(Phase::Closed, OutcomeView::Interrupted), EffectView::Nothing)
        } else {
            (s, EffectView::Nothing)
        },
        EventView::InputEnded => if s.phase == Phase::Connecting || s.phase == Phase::Open {
            (s.conclude(Phase::Closing, OutcomeView::InputEnded), EffectView::Nothing)
        } else {
            (s, EffectView::Nothing)
        },
        EventView::WriterReady => if s.phase == Phase::Open && s.outbound.len() > 0 {
            (SessionView { outbound: s.outbound.drop_first(), ..s }, EffectView::Send(s.outbound[0]))
        } else {
            (s, EffectView::Nothing)
        },
        EventView::SendFailed(detail) => if s.phase == Phase::Open {
            (s.conclude(Phase::Closing, transport_failure(detail)), EffectView::Nothing)
        } else {
            (s, EffectView::Nothing)
        },
        EventView::DisplayReady => if s.phase == Phase::Open && s.inbound.len() > 0 {
            (SessionView { inbound: s.inbound.drop_first(), ..s }, EffectView::Show(s.inbound[0]))
        } else {
            (s, EffectView::Nothing)
        },
        EventView::Unwound => if s.phase == Phase::Closing {
            (SessionView { phase: Phase::Closed, ..s }, EffectView::Nothing)
        } else {
            (s, EffectView::Nothing)
        },
    }
}

/// Mathematical value of an optional outcome.
pub open spec fn outcome_view(outcome: Option<Outcome>) -> Option<OutcomeView> {
    match outcome {
        Some(o) => Some(o@),
        None => None,
    }
}

/// One interactive connection, from its start to its end: the phase, the
/// queue of frames to send, the queue of lines to show, and the outcome.
pub struct Session {
    phase: Phase,
    show_ping_pong: bool,
    outbound: BoundedQueue<Frame>,
    inbound: BoundedQueue<DisplayItem>,
    outcome: Option<Outcome>,
}

impl View for Session {
    type V = SessionView;

    closed spec fn view(&self) -> SessionView {
        SessionView {
            phase: self.phase,
            show_ping_pong: self.show_ping_pong,
            outbound: self.outbound@.map_values(|f: Frame| f@),
            outbound_limit: self.outbound.limit(),
            inbound: self.inbound@.map_values(|i: DisplayItem| i@),
            inbound_limit: self.inbound.limit(),
            outcome: outcome_view(self.outcome),
        }
    }
}

impl Session {
    /// A session that is about to connect, with empty queues of the usual
    /// capacity.
    pub fn new(show_ping_pong: bool) -> (res: Session)
        ensures
            res@ == fresh(show_ping_pong, QUEUE_CAPACITY as nat),
            res@.wf(),
    {
        Session::with_capacity(show_ping_pong, QUEUE_CAPACITY)
    }

    /// A session that is about to connect, with empty queues that hold at
    /// most `limit` items each.
    pub fn with_capacity(show_ping_pong: bool, limit: usize) -> (res: Session)
        requires
            limit > 0,
        ensures
            res@ == fresh(show_ping_pong, limit as nat),
            res@.wf(),
    {
        let res = Session {
            phase: Phase::Connecting,
            show_ping_pong,
            outbound: BoundedQueue::new(limit),
            inbound: BoundedQueue::new(limit),
            outcome: None,
        };
        assert(res@.outbound =~= Seq::<FrameView>::empty());
        assert(res@.inbound =~= Seq::<DisplayItemView>::empty());
        res
    }

    /// The phase of the session.
    pub fn phase(&self) -> (res: Phase)
        ensures
            res == self@.phase,
    {
        self.phase
    }

    /// Whether a notice is shown for each ping and pong.
    pub fn shows_ping_pong(&self) -> (res: bool)
        ensures
            res == self@.show_ping_pong,
    {
        self.show_ping_pong
    }

    /// Whether frames flow.
    pub fn is_open(&self) -> (res: bool)
        ensures
            res == (self@.phase == Phase::Open),
    {
        match self.phase {
            Phase::Open => true,
            _ => false,
        }
    }

    /// Whether the session has seen a terminal condition.
    pub fn is_over(&self) -> (res: bool)
        ensures
            res == (self@.phase == Phase::Closing || self@.phase == Phase::Closed),
    {
        match self.phase {
            Phase::Closing | Phase::Closed => true,
            _ => false,
        }
    }

    /// The number of frames waiting to be sent.
    pub fn outbound_len(&self) -> (res: usize)
        ensures
            res == self@.outbound.len(),
    {
        self.outbound.len()
    }

    /// The number of lines waiting to be shown.
    pub fn inbound_len(&self) -> (res: usize)
        ensures
            res == self@.inbound.len(),
    {
        self.inbound.len()
    }

    /// Why the session ended, once it has.
    pub fn outcome(&self) -> (res: &Option<Outcome>)
        ensures
            outcome_view(*res) == self@.outcome,
    {
        &self.outcome
    }

    /// The exit status of the process, once the session has ended: 1 after a
    /// failure, 0 otherwise.
    pub fn exit_code(&self) -> (res: Option<u8>)
        ensures
            res is Some <==> self@.outcome is Some,
            res is Some ==> res->0 == self@.outcome->0.exit_code(),
    {
        match &self.outcome {
            Some(o) => Some(o.exit_code()),
            None => None,
        }
    }

    fn conclude(&mut self, phase: Phase, outcome: Outcome)
        ensures
            final(self)@ == old(self)@.conclude(phase, outcome@),
    {
        self.phase = phase;
        if self.outcome.is_none() {
            self.outcome = Some(outcome);
        }
    }

    fn push_outbound(&mut self, frame: Frame)
        requires
            old(self)@.outbound_has_room(),
        ensures
            final(self)@ == old(self)@.with_outbound(frame@),
    {
        let _ = self.outbound.offer(frame);
        assert(final(self)@.outbound =~= old(self)@.outbound.push(frame@));
    }

    fn push_inbound(&mut self, item: DisplayItem)
        requires
            old(self)@.inbound_has_room(),
        ensures
            final(self)@ == old(self)@.with_inbound(item@),
    {
        let _ = self.inbound.offer(item);
        assert(final(self)@.inbound =~= old(self)@.inbound.push(item@));
    }

    fn hand_over(&mut self, pending: Pending) -> (effect: Effect)
        ensures
            (final(self)@, effect@) == deliver(old(self)@, pending@),
    {
        let Pending { pong, show } = pending;
        match pong {
            Some(payload) => {
                if self.outbound.is_full() {
                    return Effect::Retry(Event::Deliver(Pending { pong: Some(payload), show }));
                }
                self.push_outbound(Frame::Pong(payload));
            },
            None => {},
        };
        match show {
            None => Effect::Nothing,
            Some(item) => {
                if self.inbound.is_full() {
                    Effect::Retry(Event::Deliver(Pending { pong: None, show: Some(item) }))
                } else {
                    self.push_inbound(item);
                    Effect::Nothing
                }
            },
        }
    }

    fn take_in(&mut self, frame: Frame) -> (effect: Effect)
        ensures
            (final(self)@, effect@) == receive(old(self)@, frame@),
    {
        match decide(frame, self.show_ping_pong) {
            Err(e) => {
                self.conclude(Phase::Closing, Outcome::Failed(e));
                Effect::Nothing
            },
            Ok(action) => match action {
                PolicyAction::Terminate(reason) => {
                    self.conclude(Phase::Closing, Outcome::PeerClosed(reason));
                    Effect::Nothing
                },
                PolicyAction::Ignore => Effect::Nothing,
                PolicyAction::Display(item) => self.hand_over(Pending { pong: None, show: Some(item) }),
                PolicyAction::AutoReply { reply, notice } => {
                    let pong = match reply {
                        Frame::Pong(payload) => Some(payload),
                        _ => None,
                    };
                    self.hand_over(Pending { pong, show: notice })
                },
            },
        }
    }

    /// Applies one event: the session moves as [`next`] says, and the result
    /// tells the caller what to do.
    pub fn step(&mut self, event: Event) -> (effect: Effect)
        ensures
            (final(self)@, effect@) == next(old(self)@, event@),
            old(self)@.wf() ==> final(self)@.wf(),
    {
        proof {
            if old(self)@.wf() {
                next_keeps_wf(old(self)@, event@);
            }
        }
        match event {
            Event::Connected => {
                match self.phase {
                    Phase::Connecting => {
                        self.phase = Phase::Open;
                    },
                    _ => {},
                }
                Effect::Nothing
            },
            Event::ConnectFailed(e) => {
                match self.phase {
                    Phase::Connecting => {
                        self.conclude(Phase::Closed, Outcome::Failed(e));
                    },
                    _ => {},
                }
                Effect::Nothing
            },
            Event::Received(frame) => {
                match self.phase {
                    Phase::Open => self.take_in(frame),
                    _ => Effect::Nothing,
                }
            },
            Event::Deliver(pending) => {
                match self.phase {
                    Phase::Open => self.hand_over(pending),
                    _ => Effect::Nothing,
                }
            },
            Event::ReceiveFailed(detail) => {
                match self.phase {
                    Phase::Open => {
                        let e = SessionError::new(ErrorKind::Transport, detail);
                        self.conclude(Phase::Closing, Outcome::Failed(e));
                    },
                    _ => {},
                }
                Effect::Nothing
            },
            Event::Typed(line) => {
                match self.phase {
                    Phase::Connecting | Phase::Open => {
                        if self.outbound.is_full() {
                            Effect::Retry(Event::Typed(line))
                        } else {
                            self.push_outbound(Frame::Text(line));
                            Effect::Nothing
                        }
                    },
                    _ => Effect::Nothing,
                }
            },
            Event::Interrupted => {
                match self.phase {
                    Phase::Closed => {},
                    _ => {
                        self.conclude(Phase::Closed, Outcome::Interrupted);
                    },
                }
                Effect::Nothing
            },
            Event::InputEnded => {
                match self.phase {
                    Phase::Connecting | Phase::Open => {
                        self.conclude(Phase::Closing, Outcome::InputEnded);
                    },
                    _ => {},
                }
                Effect::Nothing
            },
            Event::WriterReady => {
                match self.phase {
                    Phase::Open => {
                        match self.outbound.take() {
                            Some(frame) => {
                                assert(final(self)@.outbound =~= old(self)@.outbound.drop_first());
                                Effect::Send(frame)
                            },
                            None => Effect::Nothing,
                        }
                    },
                    _ => Effect::Nothing,
                }
            },
            Event::SendFailed(detail) => {
                match self.phase {
                    Phase::Open => {
                        let e = SessionError::new(ErrorKind::Transport, detail);
                        self.conclude(Phase::Closing, Outcome::Failed(e));
                    },
                    _ => {},
                }
                Effect::Nothing
            },
            Event::DisplayReady => {
                match self.phase {
                    Phase::Open => {
                        match self.inbound.take() {
                            Some(item) => {
                                assert(final(self)@.inbound =~= old(self)@.inbound.drop_first());
                                Effect::Show(item)
                            },
                            None => Effect::Nothing,
                        }
                    },
                    _ => Effect::Nothing,
                }
            },
            Event::Unwound => {
                match self.phase {
                    Phase::Closing => {
                        self.phase = Phase::Closed;
                    },
                    _ => {},
                }
                Effect::Nothing
            },
        }
    }
}

/// No event breaks the well-formedness of a session.
pub proof fn next_keeps_wf(s: SessionView, event: EventView)
    requires
        s.wf(),
    ensures
        next(s, event).0.wf(),
{
}

} // verus!
