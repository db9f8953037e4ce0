//! Graceful shutdown. The server runs until the first of two termination
//! signals arrives; from then on it accepts no new connection, lets every
//! connection already accepted finish, and flushes the telemetry exporter
//! before the process exits.

use vstd::prelude::*;

verus! {

/// The coordinator's two phases. `ShuttingDown` is terminal.
#[derive(Clone, Copy, PartialEq, Eq, Structural, Debug)]
pub enum Phase {
    Running,
    ShuttingDown,
}

/// The two termination sources. Whichever arrives first shuts the server
/// down; they are not distinguished any further.
#[derive(Clone, Copy, PartialEq, Eq, Structural, Debug)]
pub enum Signal {
    Interrupt,
    Terminate,
}

/// The steps owed, in this order, when a signal is first observed.
#[derive(Clone, Copy, PartialEq, Eq, Structural, Debug)]
pub enum DrainStep {
    WarnSignalReceived,
    StopServer,
    FlushTelemetry,
}

/// What entering `ShuttingDown` obliges: warn, drain the server, then flush
/// the exporter.
pub open spec fn drain_sequence() -> Seq<DrainStep> {
    seq![DrainStep::WarnSignalReceived, DrainStep::StopServer, DrainStep::FlushTelemetry]
}

/// Everything the server can observe, one event at a time.
pub enum ServerEvent {
    ConnectionArrived,
    ConnectionFinished,
    SignalArrived(Signal),
}

/// The phase after one event: only a signal moves it, and only forward.
pub open spec fn phase_step(p: Phase, e: ServerEvent) -> Phase {
    match e {
        ServerEvent::SignalArrived(_) => Phase::ShuttingDown,
        _ => p,
    }
}

/// The in-flight count after one event: an arriving connection joins it only
/// while the server runs, a finishing one always leaves it, a signal never
/// touches it.
pub open spec fn in_flight_step(p: Phase, n: int, e: ServerEvent) -> int {
    match e {
        ServerEvent::ConnectionArrived => if p is Running {
            n + 1
        } else {
            n
        },
        ServerEvent::ConnectionFinished => if n > 0 {
            n - 1
        } else {
            n
        },
        ServerEvent::SignalArrived(_) => n,
    }
}

/// Phase and in-flight count after a whole sequence of events.
pub open spec fn state_after(p: Phase, n: int, es: Seq<ServerEvent>) -> (Phase, int)
    decreases es.len(),
{
    if es.len() == 0 {
        (p, n)
    } else {
        let prev = state_after(p, n, es.drop_last());
        (phase_step(prev.0, es.last()), in_flight_step(prev.0, prev.1, es.last()))
    }
}

/// An arriving connection is accepted only while the server still runs.
pub open spec fn accepts(p: Phase, e: ServerEvent) -> bool {
    p is Running && e is ConnectionArrived
}

/// Shutdown is terminal: however many events follow, a server that has
/// observed a signal never runs again, no later connection is accepted, and
/// the in-flight count never grows — the connections open at the signal can
/// only finish.
pub proof fn lemma_shutdown_terminal(n: int, es: Seq<ServerEvent>)
    ensures
        state_after(Phase::ShuttingDown, n, es).0 is ShuttingDown,
        state_after(Phase::ShuttingDown, n, es).1 <= n,
        forall|i: int|
            0 <= i < es.len() ==> !accepts(
                state_after(Phase::ShuttingDown, n, es.take(i)).0,
                #[trigger] es[i],
            ),
    decreases es.len(),
{
    if es.len() > 0 {
        lemma_shutdown_terminal(n, es.drop_last());
        assert forall|i: int| 0 <= i < es.len() implies !accepts(
            state_after(Phase::ShuttingDown, n, es.take(i)).0,
            #[trigger] es[i],
        ) by {
            if i < es.len() - 1 {
                assert(es.take(i) =~= es.drop_last().take(i));
                assert(es[i] == es.drop_last()[i]);
            } else {
                assert(es.take(i) =~= es.drop_last());
            }
        }
    }
}

/// The serving side of the coordinator: its phase, and how many accepted
/// connections are still in flight.
pub struct ServerState {
    pub phase: Phase,
    pub in_flight: u64,
}

impl ServerState {
    /// The state the moment the server starts accepting connections.
    pub fn start() -> (s: ServerState)
        ensures
            s.phase is Running,
            s.in_flight == 0,
    {
        ServerState { phase: Phase::Running, in_flight: 0 }
    }

    /// Whether a connection arriving now would be accepted.
    pub fn accepts_new_connections(&self) -> (b: bool)
        ensures
            b == (self.phase is Running),
    {
        self.phase == Phase::Running
    }

    /// A connection arrives. It is accepted exactly while the server runs;
    /// after the signal it is turned away and nothing changes.
    pub fn connection_arrived(&mut self) -> (accepted: bool)
        requires
            old(self).in_flight < u64::MAX,
        ensures
            accepted == (old(self).phase is Running),
            accepted == accepts(old(self).phase, ServerEvent::ConnectionArrived),
            final(self).phase == phase_step(old(self).phase, ServerEvent::ConnectionArrived),
            final(self).in_flight as int == in_flight_step(
                old(self).phase,
                old(self).in_flight as int,
                ServerEvent::ConnectionArrived,
            ),
    {
        if self.phase == Phase::Running {
            self.in_flight = self.in_flight + 1;
            true
        } else {
            false
        }
    }

    /// An accepted connection completes normally, in either phase: the
    /// signal never cuts short a connection that was already accepted.
    pub fn connection_finished(&mut self)
        requires
            old(self).in_flight > 0,
        ensures
            final(self).phase == phase_step(old(self).phase, ServerEvent::ConnectionFinished),
            final(self).in_flight == old(self).in_flight - 1,
            final(self).in_flight as int == in_flight_step(
                old(self).phase,
                old(self).in_flight as int,
                ServerEvent::ConnectionFinished,
            ),
    {
        self.in_flight = self.in_flight - 1;
    }

    /// The first signal to arrive wins the race and shuts the server down;
    /// it owes the drain steps, in order. A later signal changes nothing:
    /// `ShuttingDown` is terminal. In-flight connections are kept either
    /// way.
    pub fn signal_arrived(&mut self, sig: Signal) -> (steps: Vec<DrainStep>)
        ensures
            final(self).phase == phase_step(old(self).phase, ServerEvent::SignalArrived(sig)),
            final(self).phase is ShuttingDown,
            final(self).in_flight == old(self).in_flight,
            final(self).in_flight as int == in_flight_step(
                old(self).phase,
                old(self).in_flight as int,
                ServerEvent::SignalArrived(sig),
            ),
            old(self).phase is Running ==> steps@ == drain_sequence(),
            old(self).phase is ShuttingDown ==> steps@ == Seq::<DrainStep>::empty(),
    {
        let mut steps: Vec<DrainStep> = Vec::new();
        if self.phase == Phase::Running {
            self.phase = Phase::ShuttingDown;
            steps.push(DrainStep::WarnSignalReceived);
            steps.push(DrainStep::StopServer);
            steps.push(DrainStep::FlushTelemetry);
            proof {
                assert(steps@ =~= drain_sequence());
            }
        }
        steps
    }

    /// Whether the process may exit: the signal has been observed and every
    /// connection accepted before it has finished.
    pub fn may_exit(&self) -> (b: bool)
        ensures
            b == (self.phase is ShuttingDown && self.in_flight == 0),
    {
        self.phase == Phase::ShuttingDown && self.in_flight == 0
    }

    /// The drain: waits, one completion at a time, until every in-flight
    /// connection has finished. It terminates because each completion
    /// strictly shrinks the count; with no drain deadline, that is the only
    /// bound there is.
    pub fn drain(&mut self)
        requires
            old(self).phase is ShuttingDown,
        ensures
            final(self).phase is ShuttingDown,
            final(self).in_flight == 0,
    {
        while self.in_flight > 0
            invariant
                self.phase is ShuttingDown,
            decreases self.in_flight,
        {
            self.connection_finished();
        }
    }
}

} // verus!
