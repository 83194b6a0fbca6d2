use vstd::prelude::*;
use crate::endpoint::{Endpoint, ScanOutcome};
use crate::frame::{classify, classify_spec, ErrorKind, RESPONSE_CAPACITY};

verus! {

/// Where a probe of one endpoint stands.
#[derive(Clone, Copy, Debug, PartialEq, Eq, Hash, Structural)]
pub enum Phase {
    /// Waiting for the connection to be established.
    Connecting,
    /// Waiting for the request to be written.
    Sending,
    /// Waiting for the one read of the reply.
    Receiving,
    /// The outcome has been handed out.
    Finished,
}

/// What the network side reports back to a probe.
#[derive(Clone, Debug)]
pub enum ProbeEvent {
    Connected,
    /// Establishing the connection failed: it was refused or unreachable.
    ConnectFailed,
    ConnectTimedOut,
    Sent,
    /// The request could not be written in full.
    SendFailed,
    /// The peer reset the established connection during the write or the read.
    ConnectionReset,
    /// The bytes of one read; possibly none.
    Received(Vec<u8>),
    /// The read failed on the established connection.
    ReceiveFailed,
    ReceiveTimedOut,
}

/// What the network side is asked to do next.
#[derive(Clone, Copy, Debug, PartialEq, Eq, Hash, Structural)]
pub enum ProbeAction {
    /// Disable send coalescing and write the request frame in full.
    Send,
    /// Read once into a buffer of the given capacity.
    Receive(usize),
    /// The probe is over, with this outcome.
    Report(ScanOutcome),
}

/// The outcome for an endpoint from the verdict on its reply.
pub open spec fn outcome_of(e: Endpoint, v: Result<(), ErrorKind>) -> ScanOutcome {
    match v {
        Ok(()) => ScanOutcome::Alive(e),
        Err(k) => ScanOutcome::NotAlive(k, e),
    }
}

/// Whether an event answers the action that a phase is waiting on.
pub open spec fn answers(p: Phase, ev: ProbeEvent) -> bool {
    match p {
        Phase::Connecting => ev is Connected || ev is ConnectFailed || ev is ConnectTimedOut,
        Phase::Sending => ev is Sent || ev is SendFailed || ev is ConnectionReset,
        Phase::Receiving => ev is Received || ev is ReceiveFailed || ev is ReceiveTimedOut
            || ev is ConnectionReset,
        Phase::Finished => false,
    }
}

/// The next phase and action of a probe of `e` in phase `p` on event `ev`.
pub open spec fn next_spec(e: Endpoint, p: Phase, ev: ProbeEvent) -> (Phase, ProbeAction) {
    match ev {
        ProbeEvent::Connected => (Phase::Sending, ProbeAction::Send),
        ProbeEvent::ConnectFailed
        | ProbeEvent::ConnectTimedOut
        | ProbeEvent::ConnectionReset
        | ProbeEvent::ReceiveFailed => (
            Phase::Finished,
            ProbeAction::Report(ScanOutcome::NotAlive(ErrorKind::ConnectFailure, e)),
        ),
        ProbeEvent::Sent => (Phase::Receiving, ProbeAction::Receive(RESPONSE_CAPACITY)),
        ProbeEvent::SendFailed => (
            Phase::Finished,
            ProbeAction::Report(ScanOutcome::NotAlive(ErrorKind::IoFailure, e)),
        ),
        ProbeEvent::Received(b) => (
            Phase::Finished,
            ProbeAction::Report(outcome_of(e, classify_spec(b@))),
        ),
        ProbeEvent::ReceiveTimedOut => (
            Phase::Finished,
            ProbeAction::Report(ScanOutcome::NotAlive(ErrorKind::ReadTimeout, e)),
        ),
    }
}

/// The verdict on the reply of an endpoint, as its outcome.
pub fn judge(e: Endpoint, bytes: &[u8]) -> (r: ScanOutcome)
    ensures
        r == outcome_of(e, classify_spec(bytes@)),
{
    match classify(bytes) {
        Ok(()) => ScanOutcome::Alive(e),
        Err(k) => ScanOutcome::NotAlive(k, e),
    }
}

/// One probe of one endpoint: connect, send the request, read once, classify.
/// Each step is a single attempt; the first failure ends the probe.
pub struct Probe {
    pub endpoint: Endpoint,
    pub phase: Phase,
}

impl Probe {
    /// A probe that waits for its connection to be established.
    pub fn new(endpoint: Endpoint) -> (r: Probe)
        ensures
            r.endpoint == endpoint,
            r.phase == Phase::Connecting,
    {
        Probe { endpoint, phase: Phase::Connecting }
    }

    pub fn is_finished(&self) -> (r: bool)
        ensures
            r == (self.phase == Phase::Finished),
    {
        self.phase == Phase::Finished
    }

    /// Whether `ev` answers what the probe is waiting on.
    pub fn accepts(&self, ev: &ProbeEvent) -> (r: bool)
        ensures
            r == answers(self.phase, *ev),
    {
        match self.phase {
            Phase::Connecting => match ev {
                ProbeEvent::Connected | ProbeEvent::ConnectFailed | ProbeEvent::ConnectTimedOut => true,
                _ => false,
            },
            Phase::Sending => match ev {
                ProbeEvent::Sent | ProbeEvent::SendFailed | ProbeEvent::ConnectionReset => true,
                _ => false,
            },
            Phase::Receiving => match ev {
                ProbeEvent::Received(_)
                | ProbeEvent::ReceiveFailed
                | ProbeEvent::ReceiveTimedOut
                | ProbeEvent::ConnectionReset => true,
                _ => false,
            },
            Phase::Finished => false,
        }
    }

    /// Takes the answer to the last action and says what to do next.
    pub fn step(&mut self, ev: ProbeEvent) -> (a: ProbeAction)
        requires
            answers(old(self).phase, ev),
        ensures
            final(self).endpoint == old(self).endpoint,
            (final(self).phase, a) == next_spec(old(self).endpoint, old(self).phase, ev),
    {
        let e = self.endpoint;
        match ev {
            ProbeEvent::Connected => {
                self.phase = Phase::Sending;
                ProbeAction::Send
            },
            ProbeEvent::ConnectFailed
            | ProbeEvent::ConnectTimedOut
            | ProbeEvent::ConnectionReset
            | ProbeEvent::ReceiveFailed => {
                self.phase = Phase::Finished;
                ProbeAction::Report(ScanOutcome::NotAlive(ErrorKind::ConnectFailure, e))
            },
            ProbeEvent::Sent => {
                self.phase = Phase::Receiving;
                ProbeAction::Receive(RESPONSE_CAPACITY)
            },
            ProbeEvent::SendFailed => {
                self.phase = Phase::Finished;
                ProbeAction::Report(ScanOutcome::NotAlive(ErrorKind::IoFailure, e))
            },
            ProbeEvent::Received(b) => {
                self.phase = Phase::Finished;
                ProbeAction::Report(judge(e, b.as_slice()))
            },
            ProbeEvent::ReceiveTimedOut => {
                self.phase = Phase::Finished;
                ProbeAction::Report(ScanOutcome::NotAlive(ErrorKind::ReadTimeout, e))
            },
        }
    }
}

} // verus!

verus! {

/// Number of steps a probe in phase `p` has left at most.
pub open spec fn steps_left(p: Phase) -> nat {
    match p {
        Phase::Connecting => 3,
        Phase::Sending => 2,
        Phase::Receiving => 1,
        Phase::Finished => 0,
    }
}

/// A probe reports exactly once: each answered step moves it closer to the
/// end, it reports exactly on the step that finishes it, and once finished
/// it takes no further event.
pub proof fn lemma_probe_reports_once(e: Endpoint, p: Phase, ev: ProbeEvent)
    ensures
        !answers(Phase::Finished, ev),
        answers(p, ev) ==> steps_left(next_spec(e, p, ev).0) < steps_left(p),
        answers(p, ev) ==> (next_spec(e, p, ev).1 is Report <==> next_spec(e, p, ev).0
            == Phase::Finished),
        answers(p, ev) && next_spec(e, p, ev).1 is Report ==> next_spec(e, p, ev).1->Report_0.endpoint_spec() == e,
{
}

} // verus!
