//! The supervisor: one value that remembers where the agent stands and turns
//! each observation into the next operation.

use crate::endpoint::{endpoint_text, is_endpoint, ClientCli};
use crate::protocol::{Action, Event, Phase, SessionError, Stage, BACKOFF_SECONDS, QUEUE_CAPACITY};
use vstd::prelude::*;

verus! {

/// What a supervisor is, to a contract.
pub struct SubmitterView {
    /// The identity that the handshake presents.
    pub machine_id: i64,
    /// The endpoint that `Connect` dials.
    pub endpoint: Seq<char>,
    /// The operation whose outcome is awaited.
    pub stage: Stage,
}

impl SubmitterView {
    /// The supervisor after it was started: a new one begins to connect, any
    /// other stays as it is.
    pub open spec fn started(self) -> SubmitterView {
        if self.stage is Created {
            SubmitterView { stage: Stage::Connecting, ..self }
        } else {
            self
        }
    }

    /// The supervisor after `event`.
    pub open spec fn after<S, B>(self, event: Event<S, B>) -> SubmitterView {
        SubmitterView { stage: self.stage.after(event), ..self }
    }

    /// What the driver is asked to do on `event`.
    pub open spec fn reaction<S, B>(self, event: Event<S, B>) -> Option<Action<S, B>> {
        self.stage.reaction(self.machine_id, event)
    }

    /// The supervisor after a shutdown.
    pub open spec fn stopped(self) -> SubmitterView {
        SubmitterView { stage: Stage::Terminated, ..self }
    }
}

/// The supervisor of the submission pipeline.
#[derive(Debug)]
pub struct EventSubmitter {
    machine_id: i64,
    endpoint: String,
    stage: Stage,
}

impl View for EventSubmitter {
    type V = SubmitterView;

    closed spec fn view(&self) -> SubmitterView {
        SubmitterView { machine_id: self.machine_id, endpoint: self.endpoint@, stage: self.stage }
    }
}

impl EventSubmitter {
    /// A supervisor for the agent `machine_id` that will dial the endpoint of
    /// `cli`, which has to be one that the transport takes. It is not started,
    /// and nothing is dialled yet.
    pub fn new(cli: ClientCli, machine_id: i64) -> (submitter: Self)
        requires
            is_endpoint(endpoint_text(cli.address@, cli.port)),
        ensures
            submitter@ == (SubmitterView {
                machine_id,
                endpoint: endpoint_text(cli.address@, cli.port),
                stage: Stage::Created,
            }),
    {
        EventSubmitter { machine_id, endpoint: cli.endpoint(), stage: Stage::Created }
    }

    /// `new`, for options that nobody has looked at: `None` when the transport
    /// does not take the endpoint of `cli`.
    pub fn try_new(cli: ClientCli, machine_id: i64) -> (submitter: Option<Self>)
        ensures
            submitter is Some <==> is_endpoint(endpoint_text(cli.address@, cli.port)),
            submitter matches Some(s) ==> s@ == (SubmitterView {
                machine_id,
                endpoint: endpoint_text(cli.address@, cli.port),
                stage: Stage::Created,
            }),
    {
        if cli.is_valid() {
            Some(Self::new(cli, machine_id))
        } else {
            None
        }
    }

    /// The endpoint that `Connect` dials.
    pub fn endpoint(&self) -> (text: &str)
        ensures
            text@ == self@.endpoint,
    {
        self.endpoint.as_str()
    }

    /// The identity that the handshake presents.
    pub fn machine_id(&self) -> (id: i64)
        ensures
            id == self@.machine_id,
    {
        self.machine_id
    }

    /// The operation whose outcome the supervisor waits for.
    pub fn stage(&self) -> (stage: Stage)
        ensures
            stage == self@.stage,
    {
        self.stage
    }

    /// The coarse state.
    pub fn phase(&self) -> (phase: Phase)
        ensures
            phase == self@.stage.phase(),
    {
        match self.stage {
            Stage::Created | Stage::Connecting | Stage::Handshaking => Phase::Bootstrapping,
            Stage::Spawning | Stage::Dequeuing | Stage::Transmitting | Stage::Parked => Phase::Streaming,
            Stage::Cancelling | Stage::Sleeping => Phase::Backoff,
            Stage::Terminated => Phase::Terminated,
        }
    }

    /// Whether a collector task runs that has not been cancelled.
    pub fn has_collector(&self) -> (running: bool)
        ensures
            running == self@.stage.has_collector(),
    {
        match self.stage {
            Stage::Dequeuing | Stage::Transmitting | Stage::Parked => true,
            _ => false,
        }
    }

    /// Begins supervision. A new supervisor asks for the first connection; one
    /// that was started before is left alone and asks for nothing.
    pub fn start<S, B>(&mut self) -> (action: Option<Action<S, B>>)
        ensures
            final(self)@ == old(self)@.started(),
            action == if old(self)@.stage is Created {
                Some(Action::<S, B>::Connect)
            } else {
                None
            },
    {
        match self.stage {
            Stage::Created => {
                self.stage = Stage::Connecting;
                Some(Action::Connect)
            },
            _ => None,
        }
    }

    /// Takes what the driver observed and says what it does next. An event
    /// that is not the outcome of the pending operation is ignored: the
    /// supervisor stays as it is and asks for nothing.
    pub fn step<S, B>(&mut self, event: Event<S, B>) -> (action: Option<Action<S, B>>)
        ensures
            final(self)@ == old(self)@.after(event),
            action == old(self)@.reaction(event),
    {
        match self.stage {
            Stage::Connecting => match event {
                Event::Connected => {
                    self.stage = Stage::Handshaking;
                    Some(Action::FetchInitialState { machine_id: self.machine_id })
                },
                Event::ConnectionFailed => Some(self.recover(SessionError::Connection)),
                _ => None,
            },
            Stage::Handshaking | Stage::Spawning | Stage::Dequeuing | Stage::Transmitting => {
                match self.submit_events(event) {
                    Ok(action) => action,
                    Err(error) => Some(self.recover(error)),
                }
            },
            Stage::Cancelling => match event {
                Event::CollectorCancelled => {
                    self.stage = Stage::Sleeping;
                    Some(Action::Backoff { seconds: BACKOFF_SECONDS, cause: SessionError::Transmission })
                },
                _ => None,
            },
            Stage::Sleeping => match event {
                Event::BackoffElapsed => {
                    self.stage = Stage::Connecting;
                    Some(Action::Connect)
                },
                _ => None,
            },
            Stage::Created | Stage::Parked | Stage::Terminated => None,
        }
    }

    /// One session, from the handshake to the first failure: the baseline
    /// starts the collector, and each batch that comes off the queue is sent
    /// before the next is taken. `Err` says that the session is over, and why;
    /// the supervisor is then left as it was for `recover`.
    fn submit_events<S, B>(&mut self, event: Event<S, B>) -> (outcome: Result<
        Option<Action<S, B>>,
        SessionError,
    >)
        requires
            old(self)@.stage is Handshaking || old(self)@.stage is Spawning || old(self)@.stage is Dequeuing
                || old(self)@.stage is Transmitting,
        ensures
            outcome matches Err(error) ==> {
                &&& final(self)@ == old(self)@
                &&& error == if event is HandshakeFailed {
                    SessionError::Handshake
                } else {
                    SessionError::Transmission
                }
            },
            outcome is Err <==> old(self)@.stage.expects(event) && (event is HandshakeFailed
                || event is TransmissionFailed),
            outcome matches Ok(action) ==> {
                &&& final(self)@ == old(self)@.after(event)
                &&& action == old(self)@.reaction(event)
            },
    {
        match self.stage {
            Stage::Handshaking => match event {
                Event::InitialState(baseline) => {
                    self.stage = Stage::Spawning;
                    Ok(
                        Some(
                            Action::SpawnCollector {
                                baseline,
                                machine_id: self.machine_id,
                                queue_capacity: QUEUE_CAPACITY,
                            },
                        ),
                    )
                },
                Event::HandshakeFailed => Err(SessionError::Handshake),
                _ => Ok(None),
            },
            Stage::Spawning => match event {
                Event::CollectorStarted => {
                    self.stage = Stage::Dequeuing;
                    Ok(Some(Action::Dequeue))
                },
                _ => Ok(None),
            },
            Stage::Dequeuing => match event {
                Event::Batch(batch) => {
                    self.stage = Stage::Transmitting;
                    Ok(Some(Action::SendEvents { batch }))
                },
                Event::QueueClosed => {
                    self.stage = Stage::Parked;
                    Ok(Some(Action::Park))
                },
                _ => Ok(None),
            },
            Stage::Transmitting => match event {
                Event::Acknowledged => {
                    self.stage = Stage::Dequeuing;
                    Ok(Some(Action::Dequeue))
                },
                Event::TransmissionFailed => Err(SessionError::Transmission),
                _ => Ok(None),
            },
            _ => Ok(None),
        }
    }

    /// Ends a failed attempt. A failed transmission leaves a collector behind,
    /// which is cancelled first; after any other failure the pause begins at
    /// once.
    fn recover<S, B>(&mut self, error: SessionError) -> (action: Action<S, B>)
        ensures
            final(self)@.machine_id == old(self)@.machine_id,
            final(self)@.endpoint == old(self)@.endpoint,
            error is Transmission ==> final(self)@.stage is Cancelling && action
                == Action::<S, B>::CancelCollector,
            !(error is Transmission) ==> final(self)@.stage is Sleeping && action == (Action::<
                S,
                B,
            >::Backoff { seconds: BACKOFF_SECONDS, cause: error }),
    {
        match error {
            SessionError::Transmission => {
                self.stage = Stage::Cancelling;
                Action::CancelCollector
            },
            _ => {
                self.stage = Stage::Sleeping;
                Action::Backoff { seconds: BACKOFF_SECONDS, cause: error }
            },
        }
    }

    /// Shuts the supervisor down, from any stage, for good. Returns whether
    /// the driver has a collector task to abort: a second call, or one after the
    /// collector was cancelled, returns `false`.
    pub fn shutdown(&mut self) -> (cancel: bool)
        ensures
            final(self)@ == old(self)@.stopped(),
            cancel == old(self)@.stage.has_collector(),
    {
        let cancel = self.has_collector();
        self.stage = Stage::Terminated;
        cancel
    }
}

} // verus!
