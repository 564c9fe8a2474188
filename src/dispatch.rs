//! The per-session command dispatcher, as a state machine that a driver runs:
//! the driver performs each [`Action`] on the session's stream and hands back
//! what came of it as an [`Event`].

use vstd::prelude::*;
use crate::frame::{
    Command, CommandView, close_text, command_of, decode, enqueue_text, lemma_padded_round_trip,
    name_of, padded, refusal_text, reply_for, reply_text, req1_text, stripped, terminating_text,
};

verus! {

/// Where a session stands.
#[derive(Debug, Clone, Copy, PartialEq, Eq, Structural)]
pub enum Phase {
    /// The encrypted handshake is under way; there is no session yet.
    Handshaking,
    /// Waiting for the next request frame.
    AwaitingFrame,
    /// A reply is being written and flushed; `closing` when it ends the session.
    Replying { closing: bool },
    /// The session is released; nothing more is read or written.
    Terminated,
}

/// What the driver reports back.
#[derive(Debug, Clone, PartialEq, Eq)]
pub enum Event {
    HandshakeDone,
    HandshakeFailed,
    /// One whole request frame was read.
    Frame(Vec<u8>),
    ReadFailed,
    /// The reply was written in full and flushed.
    Sent,
    SendFailed,
}

/// The mathematical value of an [`Event`].
pub enum EventView {
    HandshakeDone,
    HandshakeFailed,
    Frame(Seq<u8>),
    ReadFailed,
    Sent,
    SendFailed,
}

impl View for Event {
    type V = EventView;

    open spec fn view(&self) -> EventView {
        match self {
            Event::HandshakeDone => EventView::HandshakeDone,
            Event::HandshakeFailed => EventView::HandshakeFailed,
            Event::Frame(f) => EventView::Frame(f@),
            Event::ReadFailed => EventView::ReadFailed,
            Event::Sent => EventView::Sent,
            Event::SendFailed => EventView::SendFailed,
        }
    }
}

/// What the driver is to do next.
#[derive(Debug, Clone, PartialEq, Eq)]
pub enum Action {
    /// Read exactly one request frame.
    ReadFrame,
    /// Write these bytes in full, then flush.
    Send(Vec<u8>),
    /// Close the stream and end the session's unit of work.
    Release,
}

/// The mathematical value of an [`Action`].
pub enum ActionView {
    ReadFrame,
    Send(Seq<u8>),
    Release,
}

impl View for Action {
    type V = ActionView;

    open spec fn view(&self) -> ActionView {
        match self {
            Action::ReadFrame => ActionView::ReadFrame,
            Action::Send(b) => ActionView::Send(b@),
            Action::Release => ActionView::Release,
        }
    }
}

/// One step of a session: the phase it moves to and the action it asks for.
/// An event that the phase does not expect ends the session.
pub open spec fn next(p: Phase, e: EventView) -> (Phase, ActionView) {
    match (p, e) {
        (Phase::Handshaking, EventView::HandshakeDone) => (Phase::AwaitingFrame, ActionView::ReadFrame),
        (Phase::AwaitingFrame, EventView::Frame(f)) => {
            let c = command_of(f);
            (Phase::Replying { closing: c is Close }, ActionView::Send(reply_text(c)))
        },
        (Phase::Replying { closing }, EventView::Sent) => {
            if closing {
                (Phase::Terminated, ActionView::Release)
            } else {
                (Phase::AwaitingFrame, ActionView::ReadFrame)
            }
        },
        _ => (Phase::Terminated, ActionView::Release),
    }
}

/// The phase reached and the actions asked for over a run of events.
pub open spec fn run(p: Phase, es: Seq<EventView>) -> (Phase, Seq<ActionView>)
    decreases es.len(),
{
    if es.len() == 0 {
        (p, Seq::empty())
    } else {
        let (q, acts) = run(p, es.drop_last());
        let (r, a) = next(q, es.last());
        (r, acts.push(a))
    }
}

/// The command dispatcher of one connection.
#[derive(Debug)]
pub struct Dispatcher {
    phase: Phase,
}

impl View for Dispatcher {
    type V = Phase;

    closed spec fn view(&self) -> Phase {
        self.phase
    }
}

impl Dispatcher {
    /// A dispatcher for a connection whose handshake has just begun.
    pub fn new() -> (d: Dispatcher)
        ensures
            d@ == Phase::Handshaking,
    {
        Dispatcher { phase: Phase::Handshaking }
    }

    /// The current phase.
    pub fn phase(&self) -> (p: Phase)
        ensures
            p == self@,
    {
        self.phase
    }

    /// Whether the session has been released.
    pub fn is_terminated(&self) -> (r: bool)
        ensures
            r == (self@ == Phase::Terminated),
    {
        self.phase == Phase::Terminated
    }

    /// Takes in what came of the last action and says what to do next.
    pub fn step(&mut self, e: Event) -> (a: Action)
        ensures
            (final(self)@, a@) == next(old(self)@, e@),
    {
        match (self.phase, e) {
            (Phase::Handshaking, Event::HandshakeDone) => {
                self.phase = Phase::AwaitingFrame;
                Action::ReadFrame
            },
            (Phase::AwaitingFrame, Event::Frame(f)) => {
                let c = decode(f.as_slice());
                let closing = match c {
                    Command::Close => true,
                    _ => false,
                };
                self.phase = Phase::Replying { closing };
                Action::Send(reply_for(&c))
            },
            (Phase::Replying { closing }, Event::Sent) => {
                if closing {
                    self.phase = Phase::Terminated;
                    Action::Release
                } else {
                    self.phase = Phase::AwaitingFrame;
                    Action::ReadFrame
                }
            },
            _ => {
                self.phase = Phase::Terminated;
                Action::Release
            },
        }
    }
}

/// The events of a tagged run that belong to session `i`, in order.
pub open spec fn on_session<A>(t: Seq<(int, A)>, i: int) -> Seq<A>
    decreases t.len(),
{
    if t.len() == 0 {
        Seq::empty()
    } else {
        let rest = on_session(t.drop_last(), i);
        if t.last().0 == i {
            rest.push(t.last().1)
        } else {
            rest
        }
    }
}

/// Many sessions run side by side: each event, tagged with its session's
/// index, steps that session alone, and its action comes out under the same tag.
pub open spec fn run_all(ps: Seq<Phase>, t: Seq<(int, EventView)>) -> (Seq<Phase>, Seq<(int, ActionView)>)
    decreases t.len(),
{
    if t.len() == 0 {
        (ps, Seq::empty())
    } else {
        let (qs, outs) = run_all(ps, t.drop_last());
        let (i, e) = t.last();
        if 0 <= i < qs.len() {
            let (q, a) = next(qs[i], e);
            (qs.update(i, q), outs.push((i, a)))
        } else {
            (qs, outs)
        }
    }
}

/// A run asks for one action per event.
pub proof fn lemma_run_len(p: Phase, es: Seq<EventView>)
    ensures
        run(p, es).1.len() == es.len(),
    decreases es.len(),
{
    if es.len() > 0 {
        lemma_run_len(p, es.drop_last());
    }
}

/// Once released, a session stays released and asks for nothing but release.
pub proof fn lemma_terminated_stays(es: Seq<EventView>)
    ensures
        run(Phase::Terminated, es).0 == Phase::Terminated,
        forall|k: int| 0 <= k < es.len() ==> #[trigger] run(Phase::Terminated, es).1[k] == ActionView::Release,
    decreases es.len(),
{
    lemma_run_len(Phase::Terminated, es);
    if es.len() > 0 {
        lemma_terminated_stays(es.drop_last());
        lemma_run_len(Phase::Terminated, es.drop_last());
    }
}

/// The padded frame of a known command decodes to that command.
proof fn lemma_known_names_decode(c: CommandView)
    requires
        !(c is Unrecognized),
    ensures
        command_of(padded(name_of(c))) == c,
{
    lemma_padded_round_trip(name_of(c));
    assert(req1_text()[0] != enqueue_text()[0]);
    assert(req1_text()[0] != close_text()[0]);
    assert(enqueue_text()[0] != close_text()[0]);
}

/// Each known command, sent as its padded frame, is answered with exactly its
/// reply text; once that reply is out the session reads on, except after
/// `close`, which releases it.
pub proof fn known_command_answered(c: CommandView)
    requires
        !(c is Unrecognized),
    ensures
        next(Phase::AwaitingFrame, EventView::Frame(padded(name_of(c)))) == (
        Phase::Replying { closing: c is Close },
        ActionView::Send(reply_text(c)),
        ),
        next(Phase::Replying { closing: c is Close }, EventView::Sent) == (if c is Close {
            (Phase::Terminated, ActionView::Release)
        } else {
            (Phase::AwaitingFrame, ActionView::ReadFrame)
        }),
{
    lemma_known_names_decode(c);
}

/// A frame whose text, without its padding, is none of the known names is
/// answered with the refusal text, and the session then reads on.
pub proof fn unknown_frame_refused(f: Seq<u8>)
    requires
        stripped(f) != req1_text(),
        stripped(f) != enqueue_text(),
        stripped(f) != close_text(),
    ensures
        next(Phase::AwaitingFrame, EventView::Frame(f)) == (
        Phase::Replying { closing: false },
        ActionView::Send(refusal_text()),
        ),
        next(Phase::Replying { closing: false }, EventView::Sent) == (
        Phase::AwaitingFrame,
        ActionView::ReadFrame,
        ),
{
}

/// `close` is answered with the termination text, after which the session is
/// released, and whatever comes later is never read or answered.
pub proof fn close_ends_session(later: Seq<EventView>)
    ensures
        run(
            Phase::AwaitingFrame,
            seq![EventView::Frame(padded(close_text())), EventView::Sent],
        ) == (Phase::Terminated, seq![ActionView::Send(terminating_text()), ActionView::Release]),
        run(Phase::Terminated, later).0 == Phase::Terminated,
        forall|k: int| 0 <= k < later.len() ==> #[trigger] run(Phase::Terminated, later).1[k] == ActionView::Release,
{
    lemma_known_names_decode(CommandView::Close);
    let es = seq![EventView::Frame(padded(close_text())), EventView::Sent];
    let first = seq![EventView::Frame(padded(close_text()))];
    assert(es.drop_last() =~= first);
    assert(first.drop_last() =~= Seq::<EventView>::empty());
    assert(run(Phase::AwaitingFrame, Seq::empty()).1 =~= Seq::<ActionView>::empty());
    assert(first.last() == EventView::Frame(padded(close_text())));
    assert(reply_text(CommandView::Close) == terminating_text());
    assert(run(Phase::AwaitingFrame, first).1 =~= seq![ActionView::Send(terminating_text())]);
    assert(run(Phase::AwaitingFrame, es).1 =~= seq![ActionView::Send(terminating_text()), ActionView::Release]);
    lemma_terminated_stays(later);
}

/// Sessions are independent: however the events of many sessions interleave,
/// each session ends in the phase, and asks for the actions, that its own
/// events alone would give it.
pub proof fn sessions_independent(ps: Seq<Phase>, t: Seq<(int, EventView)>, i: int)
    requires
        0 <= i < ps.len(),
    ensures
        run_all(ps, t).0.len() == ps.len(),
        run_all(ps, t).0[i] == run(ps[i], on_session(t, i)).0,
        on_session(run_all(ps, t).1, i) == run(ps[i], on_session(t, i)).1,
    decreases t.len(),
{
    if t.len() > 0 {
        sessions_independent(ps, t.drop_last(), i);
        let (qs, outs) = run_all(ps, t.drop_last());
        let (j, e) = t.last();
        let mine = on_session(t.drop_last(), i);
        if j == i {
            assert(on_session(t, i) == mine.push(e));
            assert(mine.push(e).drop_last() =~= mine);
            let (q, a) = next(qs[j], e);
            let outs2 = outs.push((j, a));
            assert(outs2.drop_last() =~= outs);
            assert(on_session(outs2, i) == on_session(outs, i).push(a));
        } else {
            assert(on_session(t, i) == mine);
            if 0 <= j < qs.len() {
                let (q, a) = next(qs[j], e);
                let outs2 = outs.push((j, a));
                assert(outs2.drop_last() =~= outs);
                assert(on_session(outs2, i) == on_session(outs, i));
            }
        }
    }
}

} // verus!
