//! The vocabulary shared by the supervisor and its driver: what the driver
//! observes (`Event`), what it is asked to do (`Action`), and where the
//! supervisor stands (`Stage`, `Phase`).

use vstd::prelude::*;

verus! {

/// How many batches the queue between the collector and the submission loop
/// holds before the collector has to wait.
pub const QUEUE_CAPACITY: usize = 32;

/// The pause, in seconds, between a failed session and the next attempt.
pub const BACKOFF_SECONDS: u64 = 5;

/// Why a session attempt ended.
#[derive(Clone, Copy, Debug, PartialEq, Eq, Structural)]
pub enum SessionError {
    /// The transport connection could not be established.
    Connection,
    /// The initial-state exchange failed.
    Handshake,
    /// A batch could not be sent.
    Transmission,
}

/// The supervisor's coarse state.
#[derive(Clone, Copy, Debug, PartialEq, Eq, Structural)]
pub enum Phase {
    /// Connecting and fetching the baseline.
    Bootstrapping,
    /// A collector runs, or is about to, and batches are sent as they come.
    Streaming,
    /// Between a failure and the next attempt.
    Backoff,
    /// Shut down, for good.
    Terminated,
}

/// The operation whose outcome the supervisor is waiting for.
#[derive(Clone, Copy, Debug, PartialEq, Eq, Structural)]
pub enum Stage {
    /// Built, not started.
    Created,
    /// `Connect` was issued.
    Connecting,
    /// `FetchInitialState` was issued.
    Handshaking,
    /// `SpawnCollector` was issued.
    Spawning,
    /// `Dequeue` was issued.
    Dequeuing,
    /// `SendEvents` was issued: one batch is in flight.
    Transmitting,
    /// The queue closed under a running session; only a shutdown ends this.
    Parked,
    /// `CancelCollector` was issued after a failed transmission.
    Cancelling,
    /// `Backoff` was issued.
    Sleeping,
    /// Shut down.
    Terminated,
}

/// What the driver observed. `S` is the baseline state that the service hands
/// out, `B` a batch of change events; the supervisor looks inside neither.
#[derive(Debug, PartialEq, Eq)]
pub enum Event<S, B> {
    /// The connection is up.
    Connected,
    /// The connection could not be established.
    ConnectionFailed,
    /// The service answered the initial-state request with this baseline.
    InitialState(S),
    /// The initial-state request failed.
    HandshakeFailed,
    /// The collector task runs and owns the sending end of a new queue.
    CollectorStarted,
    /// This batch came off the queue.
    Batch(B),
    /// The queue is empty and its sending end is gone.
    QueueClosed,
    /// The service acknowledged the batch in flight.
    Acknowledged,
    /// Sending the batch in flight failed.
    TransmissionFailed,
    /// The collector task was aborted and the queue and connection dropped.
    CollectorCancelled,
    /// The pause is over.
    BackoffElapsed,
}

/// What the driver does next.
#[derive(Debug, PartialEq, Eq)]
pub enum Action<S, B> {
    /// Drop any earlier connection and dial the configured endpoint.
    Connect,
    /// Ask the service for the baseline of this machine.
    FetchInitialState { machine_id: i64 },
    /// Open a new queue of the given capacity and start the collector on its
    /// sending end with this baseline.
    SpawnCollector { baseline: S, machine_id: i64, queue_capacity: usize },
    /// Wait for the next batch on the queue.
    Dequeue,
    /// Send this batch and wait for the answer.
    SendEvents { batch: B },
    /// Wait until shut down.
    Park,
    /// Abort the collector task; drop the queue with whatever it still holds,
    /// and the connection.
    CancelCollector,
    /// Sleep for so many seconds; `cause` says what ended the session.
    Backoff { seconds: u64, cause: SessionError },
}

impl SessionError {
    /// The name of the operation that failed, for a log line.
    pub open spec fn operation_name(self) -> Seq<char> {
        match self {
            SessionError::Connection => "Connect"@,
            SessionError::Handshake => "FetchInitialState"@,
            SessionError::Transmission => "SendEvents"@,
        }
    }

    /// The name of the operation that failed, for a log line.
    pub fn operation(&self) -> (name: &'static str)
        ensures
            name@ == self.operation_name(),
    {
        match self {
            SessionError::Connection => "Connect",
            SessionError::Handshake => "FetchInitialState",
            SessionError::Transmission => "SendEvents",
        }
    }
}

impl Stage {
    /// The coarse state that a stage belongs to.
    pub open spec fn phase(self) -> Phase {
        match self {
            Stage::Created | Stage::Connecting | Stage::Handshaking => Phase::Bootstrapping,
            Stage::Spawning | Stage::Dequeuing | Stage::Transmitting | Stage::Parked => Phase::Streaming,
            Stage::Cancelling | Stage::Sleeping => Phase::Backoff,
            Stage::Terminated => Phase::Terminated,
        }
    }

    /// Whether a collector task is running that nobody has cancelled yet.
    pub open spec fn has_collector(self) -> bool {
        self is Dequeuing || self is Transmitting || self is Parked
    }

    /// Whether `event` is the outcome of the operation this stage waits for.
    pub open spec fn expects<S, B>(self, event: Event<S, B>) -> bool {
        match self {
            Stage::Connecting => event is Connected || event is ConnectionFailed,
            Stage::Handshaking => event is InitialState || event is HandshakeFailed,
            Stage::Spawning => event is CollectorStarted,
            Stage::Dequeuing => event is Batch || event is QueueClosed,
            Stage::Transmitting => event is Acknowledged || event is TransmissionFailed,
            Stage::Cancelling => event is CollectorCancelled,
            Stage::Sleeping => event is BackoffElapsed,
            Stage::Created | Stage::Parked | Stage::Terminated => false,
        }
    }

    /// The stage after `event`. An event out of turn changes nothing.
    pub open spec fn after<S, B>(self, event: Event<S, B>) -> Stage {
        if !self.expects(event) {
            self
        } else {
            match event {
                Event::Connected => Stage::Handshaking,
                Event::InitialState(_) => Stage::Spawning,
                Event::CollectorStarted | Event::Acknowledged => Stage::Dequeuing,
                Event::Batch(_) => Stage::Transmitting,
                Event::QueueClosed => Stage::Parked,
                Event::TransmissionFailed => Stage::Cancelling,
                Event::ConnectionFailed | Event::HandshakeFailed | Event::CollectorCancelled => Stage::Sleeping,
                Event::BackoffElapsed => Stage::Connecting,
            }
        }
    }

    /// What the driver is asked to do on `event`: nothing when the event is out
    /// of turn, else the one operation that follows.
    pub open spec fn reaction<S, B>(self, machine_id: i64, event: Event<S, B>) -> Option<Action<S, B>> {
        if !self.expects(event) {
            None
        } else {
            Some(
                match event {
                    Event::Connected => Action::FetchInitialState { machine_id },
                    Event::InitialState(baseline) => Action::SpawnCollector {
                        baseline,
                        machine_id,
                        queue_capacity: QUEUE_CAPACITY,
                    },
                    Event::CollectorStarted | Event::Acknowledged => Action::Dequeue,
                    Event::Batch(batch) => Action::SendEvents { batch },
                    Event::QueueClosed => Action::Park,
                    Event::TransmissionFailed => Action::CancelCollector,
                    Event::ConnectionFailed => Action::Backoff {
                        seconds: BACKOFF_SECONDS,
                        cause: SessionError::Connection,
                    },
                    Event::HandshakeFailed => Action::Backoff {
                        seconds: BACKOFF_SECONDS,
                        cause: SessionError::Handshake,
                    },
                    Event::CollectorCancelled => Action::Backoff {
                        seconds: BACKOFF_SECONDS,
                        cause: SessionError::Transmission,
                    },
                    Event::BackoffElapsed => Action::Connect,
                },
            )
        }
    }
}

} // verus!
