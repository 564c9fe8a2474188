//! The accept loop's decisions, as a state machine that a driver runs.

use vstd::prelude::*;
use crate::dispatch::{ActionView, EventView, Phase, next};

verus! {

/// Where the listener stands.
#[derive(Debug, Clone, Copy, PartialEq, Eq, Structural)]
pub enum ListenerPhase {
    /// Binding its socket.
    Binding,
    /// Waiting for the next raw connection.
    Accepting,
    /// No longer accepting connections.
    Stopped,
}

/// What the driver reports back.
#[derive(Debug, Clone, Copy, PartialEq, Eq, Structural)]
pub enum ListenerEvent {
    Bound,
    BindFailed,
    /// A raw connection came in.
    Accepted,
    /// One connection could not be accepted.
    AcceptFailed,
    /// The operator asked the server to stop.
    ShutdownRequested,
}

/// What the driver is to do next.
#[derive(Debug, Clone, Copy, PartialEq, Eq, Structural)]
pub enum ListenerAction {
    /// Wait for the next raw connection.
    Accept,
    /// Start one independent unit of work that runs the handshake and the
    /// session of the connection just accepted, without waiting for it; then
    /// wait for the next raw connection.
    Serve,
    /// Stop accepting.
    Stop,
    /// The socket could not be bound: the server cannot run at all.
    Fail,
}

/// One step of the listener. A failure to accept one connection is skipped;
/// a failed bind is fatal; a shutdown request or an event that the phase
/// does not expect stops it.
pub open spec fn listener_next(p: ListenerPhase, e: ListenerEvent) -> (ListenerPhase, ListenerAction) {
    match (p, e) {
        (_, ListenerEvent::ShutdownRequested) => (ListenerPhase::Stopped, ListenerAction::Stop),
        (ListenerPhase::Binding, ListenerEvent::Bound) => (ListenerPhase::Accepting, ListenerAction::Accept),
        (ListenerPhase::Binding, ListenerEvent::BindFailed) => (ListenerPhase::Stopped, ListenerAction::Fail),
        (ListenerPhase::Accepting, ListenerEvent::Accepted) => (ListenerPhase::Accepting, ListenerAction::Serve),
        (ListenerPhase::Accepting, ListenerEvent::AcceptFailed) => (ListenerPhase::Accepting, ListenerAction::Accept),
        _ => (ListenerPhase::Stopped, ListenerAction::Stop),
    }
}

/// The accept loop of the server.
#[derive(Debug)]
pub struct Listener {
    phase: ListenerPhase,
}

impl View for Listener {
    type V = ListenerPhase;

    closed spec fn view(&self) -> ListenerPhase {
        self.phase
    }
}

impl Listener {
    /// A listener about to bind its socket.
    pub fn new() -> (l: Listener)
        ensures
            l@ == ListenerPhase::Binding,
    {
        Listener { phase: ListenerPhase::Binding }
    }

    /// The current phase.
    pub fn phase(&self) -> (p: ListenerPhase)
        ensures
            p == self@,
    {
        self.phase
    }

    /// Takes in what came of the last action and says what to do next.
    pub fn step(&mut self, e: ListenerEvent) -> (a: ListenerAction)
        ensures
            (final(self)@, a) == listener_next(old(self)@, e),
    {
        let (p, a) = match (self.phase, e) {
            (_, ListenerEvent::ShutdownRequested) => (ListenerPhase::Stopped, ListenerAction::Stop),
            (ListenerPhase::Binding, ListenerEvent::Bound) => (ListenerPhase::Accepting, ListenerAction::Accept),
            (ListenerPhase::Binding, ListenerEvent::BindFailed) => (ListenerPhase::Stopped, ListenerAction::Fail),
            (ListenerPhase::Accepting, ListenerEvent::Accepted) => (ListenerPhase::Accepting, ListenerAction::Serve),
            (ListenerPhase::Accepting, ListenerEvent::AcceptFailed) => (ListenerPhase::Accepting, ListenerAction::Accept),
            _ => (ListenerPhase::Stopped, ListenerAction::Stop),
        };
        self.phase = p;
        a
    }
}

/// A failed handshake creates no session and leaves the listener serving: the
/// connection is released before any frame is read, the listener goes on
/// accepting, and a later connection whose handshake succeeds reaches its
/// first frame read.
pub proof fn failed_handshake_isolated()
    ensures
        listener_next(ListenerPhase::Accepting, ListenerEvent::Accepted) == (
        ListenerPhase::Accepting,
        ListenerAction::Serve,
        ),
        next(Phase::Handshaking, EventView::HandshakeFailed) == (Phase::Terminated, ActionView::Release),
        next(Phase::Handshaking, EventView::HandshakeDone) == (Phase::AwaitingFrame, ActionView::ReadFrame),
{
}

} // verus!
