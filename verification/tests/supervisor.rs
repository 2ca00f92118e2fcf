use event_submitter::{
    Action, ClientCli, Event, EventSubmitter, Phase, SessionError, Stage, BACKOFF_SECONDS,
    QUEUE_CAPACITY,
};

type Baseline = u64;
type Batch = Vec<String>;
type Step = Option<Action<Baseline, Batch>>;

fn fresh(machine_id: i64) -> EventSubmitter {
    EventSubmitter::new(ClientCli { address: "http://127.0.0.1".to_string(), port: 50051 }, machine_id)
}

fn batch(name: &str) -> Batch {
    vec![name.to_string()]
}

/// A supervisor that waits for the next batch of a running session.
fn streaming(machine_id: i64, baseline: Baseline) -> EventSubmitter {
    let mut submitter = fresh(machine_id);
    let first: Step = submitter.start();
    assert_eq!(first, Some(Action::Connect));
    let second: Step = submitter.step(Event::Connected);
    assert_eq!(second, Some(Action::FetchInitialState { machine_id }));
    let third: Step = submitter.step(Event::InitialState(baseline));
    assert_eq!(
        third,
        Some(Action::SpawnCollector { baseline, machine_id, queue_capacity: 32 })
    );
    let fourth: Step = submitter.step(Event::CollectorStarted);
    assert_eq!(fourth, Some(Action::Dequeue));
    submitter
}

fn every_event() -> Vec<Event<Baseline, Batch>> {
    vec![
        Event::Connected,
        Event::ConnectionFailed,
        Event::InitialState(1),
        Event::HandshakeFailed,
        Event::CollectorStarted,
        Event::Batch(batch("a")),
        Event::QueueClosed,
        Event::Acknowledged,
        Event::TransmissionFailed,
        Event::CollectorCancelled,
        Event::BackoffElapsed,
    ]
}

/// The events that lead a started supervisor to `stage`.
fn path_to(stage: Stage) -> Vec<Event<Baseline, Batch>> {
    match stage {
        Stage::Connecting => vec![],
        Stage::Handshaking => vec![Event::Connected],
        Stage::Spawning => vec![Event::Connected, Event::InitialState(1)],
        Stage::Dequeuing => {
            vec![Event::Connected, Event::InitialState(1), Event::CollectorStarted]
        },
        Stage::Transmitting => vec![
            Event::Connected,
            Event::InitialState(1),
            Event::CollectorStarted,
            Event::Batch(batch("x")),
        ],
        Stage::Parked => vec![
            Event::Connected,
            Event::InitialState(1),
            Event::CollectorStarted,
            Event::QueueClosed,
        ],
        Stage::Cancelling => vec![
            Event::Connected,
            Event::InitialState(1),
            Event::CollectorStarted,
            Event::Batch(batch("x")),
            Event::TransmissionFailed,
        ],
        Stage::Sleeping => vec![Event::ConnectionFailed],
        Stage::Created | Stage::Terminated => panic!("no event leads to {:?}", stage),
    }
}

#[test]
fn the_policy_constants() {
    assert_eq!(QUEUE_CAPACITY, 32);
    assert_eq!(BACKOFF_SECONDS, 5);
}

#[test]
fn a_new_supervisor_is_not_started() {
    let submitter = fresh(42);
    assert_eq!(submitter.machine_id(), 42);
    assert_eq!(submitter.endpoint(), "http://127.0.0.1:50051");
    assert_eq!(submitter.stage(), Stage::Created);
    assert_eq!(submitter.phase(), Phase::Bootstrapping);
    assert!(!submitter.has_collector());
}

#[test]
fn start_asks_for_the_connection_once() {
    let mut submitter = fresh(42);
    let first: Step = submitter.start();
    assert_eq!(first, Some(Action::Connect));
    assert_eq!(submitter.stage(), Stage::Connecting);
    let second: Step = submitter.start();
    assert_eq!(second, None);
    assert_eq!(submitter.stage(), Stage::Connecting);
}

#[test]
fn start_leaves_a_running_session_alone() {
    let mut submitter = streaming(42, 7);
    let again: Step = submitter.start();
    assert_eq!(again, None);
    assert_eq!(submitter.stage(), Stage::Dequeuing);
    assert!(submitter.has_collector());
}

#[test]
fn nothing_is_observed_before_the_start() {
    let mut submitter = fresh(42);
    let step: Step = submitter.step(Event::Connected);
    assert_eq!(step, None);
    assert_eq!(submitter.stage(), Stage::Created);
}

#[test]
fn the_handshake_presents_the_machine_identity() {
    let mut submitter = fresh(-9);
    let _: Step = submitter.start();
    let step: Step = submitter.step(Event::Connected);
    assert_eq!(step, Some(Action::FetchInitialState { machine_id: -9 }));
    assert_eq!(submitter.stage(), Stage::Handshaking);
    assert_eq!(submitter.phase(), Phase::Bootstrapping);
}

#[test]
fn the_baseline_starts_the_collector_on_a_queue_of_thirty_two() {
    let mut submitter = fresh(42);
    let _: Step = submitter.start();
    let _: Step = submitter.step(Event::Connected);
    let step: Step = submitter.step(Event::InitialState(1234));
    assert_eq!(
        step,
        Some(Action::SpawnCollector { baseline: 1234, machine_id: 42, queue_capacity: 32 })
    );
    assert_eq!(submitter.stage(), Stage::Spawning);
    assert_eq!(submitter.phase(), Phase::Streaming);
    assert!(!submitter.has_collector());
    let next: Step = submitter.step(Event::CollectorStarted);
    assert_eq!(next, Some(Action::Dequeue));
    assert_eq!(submitter.stage(), Stage::Dequeuing);
    assert!(submitter.has_collector());
}

#[test]
fn a_batch_is_sent_as_it_comes_and_the_next_waits_for_the_answer() {
    let mut submitter = streaming(42, 7);
    let send: Step = submitter.step(Event::Batch(batch("a")));
    assert_eq!(send, Some(Action::SendEvents { batch: batch("a") }));
    assert_eq!(submitter.stage(), Stage::Transmitting);
    assert_eq!(submitter.phase(), Phase::Streaming);
    let early: Step = submitter.step(Event::Batch(batch("b")));
    assert_eq!(early, None);
    assert_eq!(submitter.stage(), Stage::Transmitting);
    let next: Step = submitter.step(Event::Acknowledged);
    assert_eq!(next, Some(Action::Dequeue));
    assert_eq!(submitter.stage(), Stage::Dequeuing);
}

#[test]
fn five_batches_of_one_event_are_sent_in_order() {
    let mut submitter = streaming(42, 7);
    let produced: Vec<Batch> = (1..=5).map(|i| vec![format!("event-{}", i)]).collect();
    let mut sent: Vec<Batch> = Vec::new();
    let mut acknowledged = 0;
    for item in produced.iter() {
        let send: Step = submitter.step(Event::Batch(item.clone()));
        match send {
            Some(Action::SendEvents { batch }) => {
                assert_eq!(batch.len(), 1);
                sent.push(batch);
            },
            other => panic!("expected a send, got {:?}", other),
        }
        assert_eq!(submitter.phase(), Phase::Streaming);
        let next: Step = submitter.step(Event::Acknowledged);
        assert_eq!(next, Some(Action::Dequeue));
        acknowledged += 1;
        assert_eq!(submitter.phase(), Phase::Streaming);
    }
    assert_eq!(sent, produced);
    assert_eq!(acknowledged, 5);
    assert_eq!(submitter.stage(), Stage::Dequeuing);
}

#[test]
fn a_failed_connection_pauses_for_five_seconds() {
    let mut submitter = fresh(42);
    let _: Step = submitter.start();
    let step: Step = submitter.step(Event::ConnectionFailed);
    assert_eq!(step, Some(Action::Backoff { seconds: 5, cause: SessionError::Connection }));
    assert_eq!(submitter.stage(), Stage::Sleeping);
    assert_eq!(submitter.phase(), Phase::Backoff);
    assert!(!submitter.has_collector());
    let again: Step = submitter.step(Event::BackoffElapsed);
    assert_eq!(again, Some(Action::Connect));
    assert_eq!(submitter.stage(), Stage::Connecting);
}

#[test]
fn a_failed_handshake_pauses_and_starts_no_collector() {
    let mut submitter = fresh(42);
    let _: Step = submitter.start();
    let _: Step = submitter.step(Event::Connected);
    let step: Step = submitter.step(Event::HandshakeFailed);
    assert_eq!(step, Some(Action::Backoff { seconds: 5, cause: SessionError::Handshake }));
    assert_eq!(submitter.stage(), Stage::Sleeping);
    assert!(!submitter.has_collector());
    let ignored: Step = submitter.step(Event::Batch(batch("a")));
    assert_eq!(ignored, None);
    let again: Step = submitter.step(Event::BackoffElapsed);
    assert_eq!(again, Some(Action::Connect));
}

#[test]
fn a_failed_transmission_cancels_the_collector_before_the_pause() {
    let mut submitter = streaming(42, 7);
    let _: Step = submitter.step(Event::Batch(batch("a")));
    let cancel: Step = submitter.step(Event::TransmissionFailed);
    assert_eq!(cancel, Some(Action::CancelCollector));
    assert_eq!(submitter.stage(), Stage::Cancelling);
    assert_eq!(submitter.phase(), Phase::Backoff);
    assert!(!submitter.has_collector());
    let pause: Step = submitter.step(Event::CollectorCancelled);
    assert_eq!(pause, Some(Action::Backoff { seconds: 5, cause: SessionError::Transmission }));
    assert_eq!(submitter.stage(), Stage::Sleeping);
    let again: Step = submitter.step(Event::BackoffElapsed);
    assert_eq!(again, Some(Action::Connect));
    assert_eq!(submitter.phase(), Phase::Bootstrapping);
}

#[test]
fn a_failure_is_not_cancelled_twice() {
    let mut submitter = streaming(42, 7);
    let _: Step = submitter.step(Event::Batch(batch("a")));
    let first: Step = submitter.step(Event::TransmissionFailed);
    assert_eq!(first, Some(Action::CancelCollector));
    let second: Step = submitter.step(Event::TransmissionFailed);
    assert_eq!(second, None);
    assert_eq!(submitter.stage(), Stage::Cancelling);
    assert!(!submitter.shutdown());
}

#[test]
fn no_batch_is_sent_before_the_baseline() {
    let mut submitter = fresh(42);
    let created: Step = submitter.step(Event::Batch(batch("a")));
    assert_eq!(created, None);
    let _: Step = submitter.start();
    let connecting: Step = submitter.step(Event::Batch(batch("a")));
    assert_eq!(connecting, None);
    let _: Step = submitter.step(Event::Connected);
    let handshaking: Step = submitter.step(Event::Batch(batch("a")));
    assert_eq!(handshaking, None);
    assert_eq!(submitter.stage(), Stage::Handshaking);
    let _: Step = submitter.step(Event::InitialState(7));
    let spawning: Step = submitter.step(Event::Batch(batch("a")));
    assert_eq!(spawning, None);
    let _: Step = submitter.step(Event::CollectorStarted);
    let streaming: Step = submitter.step(Event::Batch(batch("a")));
    assert_eq!(streaming, Some(Action::SendEvents { batch: batch("a") }));
}

#[test]
fn three_failures_then_success_pause_three_times() {
    let mut submitter = fresh(42);
    let mut pauses = 0;
    let mut count = |step: &Step| {
        if let Some(Action::Backoff { seconds, .. }) = step {
            assert_eq!(*seconds, 5);
            pauses += 1;
        }
    };
    let script: Vec<Event<Baseline, Batch>> = vec![
        Event::ConnectionFailed,
        Event::BackoffElapsed,
        Event::Connected,
        Event::HandshakeFailed,
        Event::BackoffElapsed,
        Event::Connected,
        Event::InitialState(1),
        Event::CollectorStarted,
        Event::Batch(batch("lost")),
        Event::TransmissionFailed,
        Event::CollectorCancelled,
        Event::BackoffElapsed,
        Event::Connected,
        Event::InitialState(2),
        Event::CollectorStarted,
    ];
    let first: Step = submitter.start();
    count(&first);
    for event in script {
        let step: Step = submitter.step(event);
        assert!(step.is_some());
        count(&step);
    }
    assert_eq!(submitter.phase(), Phase::Streaming);
    assert_eq!(submitter.stage(), Stage::Dequeuing);
    let send: Step = submitter.step(Event::Batch(batch("kept")));
    count(&send);
    assert_eq!(send, Some(Action::SendEvents { batch: batch("kept") }));
    let next: Step = submitter.step(Event::Acknowledged);
    count(&next);
    assert_eq!(next, Some(Action::Dequeue));
    assert_eq!(pauses, 3);
}

#[test]
fn the_next_session_hands_the_new_baseline_to_the_collector() {
    let mut submitter = streaming(42, 1);
    let _: Step = submitter.step(Event::Batch(batch("a")));
    let _: Step = submitter.step(Event::TransmissionFailed);
    let _: Step = submitter.step(Event::CollectorCancelled);
    let _: Step = submitter.step(Event::BackoffElapsed);
    let _: Step = submitter.step(Event::Connected);
    let step: Step = submitter.step(Event::InitialState(2));
    assert_eq!(
        step,
        Some(Action::SpawnCollector { baseline: 2, machine_id: 42, queue_capacity: 32 })
    );
}

#[test]
fn a_closed_queue_parks_the_loop() {
    let mut submitter = streaming(42, 7);
    let park: Step = submitter.step(Event::QueueClosed);
    assert_eq!(park, Some(Action::Park));
    assert_eq!(submitter.stage(), Stage::Parked);
    assert_eq!(submitter.phase(), Phase::Streaming);
    assert!(submitter.has_collector());
    let batch_after: Step = submitter.step(Event::Batch(batch("a")));
    assert_eq!(batch_after, None);
    let closed_again: Step = submitter.step(Event::QueueClosed);
    assert_eq!(closed_again, None);
    assert_eq!(submitter.stage(), Stage::Parked);
    assert!(submitter.shutdown());
    assert_eq!(submitter.phase(), Phase::Terminated);
}

#[test]
fn shutdown_cancels_a_running_collector_once() {
    let mut submitter = streaming(42, 7);
    assert!(submitter.shutdown());
    assert_eq!(submitter.stage(), Stage::Terminated);
    assert_eq!(submitter.phase(), Phase::Terminated);
    assert!(!submitter.has_collector());
    assert!(!submitter.shutdown());
    assert_eq!(submitter.stage(), Stage::Terminated);
}

#[test]
fn shutdown_with_a_batch_in_flight_cancels_the_collector() {
    let mut submitter = streaming(42, 7);
    let _: Step = submitter.step(Event::Batch(batch("a")));
    assert!(submitter.has_collector());
    assert!(submitter.shutdown());
    assert!(!submitter.shutdown());
}

#[test]
fn shutdown_without_a_collector_cancels_nothing() {
    let mut created = fresh(42);
    assert!(!created.shutdown());
    assert_eq!(created.stage(), Stage::Terminated);

    let mut connecting = fresh(42);
    let _: Step = connecting.start();
    assert!(!connecting.shutdown());

    let mut sleeping = fresh(42);
    let _: Step = sleeping.start();
    let _: Step = sleeping.step(Event::ConnectionFailed);
    assert!(!sleeping.shutdown());

    let mut spawning = fresh(42);
    let _: Step = spawning.start();
    let _: Step = spawning.step(Event::Connected);
    let _: Step = spawning.step(Event::InitialState(7));
    assert!(!spawning.shutdown());
}

#[test]
fn a_terminated_supervisor_ignores_everything() {
    let mut submitter = streaming(42, 7);
    assert!(submitter.shutdown());
    for event in every_event() {
        let step: Step = submitter.step(event);
        assert_eq!(step, None);
        assert_eq!(submitter.stage(), Stage::Terminated);
    }
    let restart: Step = submitter.start();
    assert_eq!(restart, None);
    assert_eq!(submitter.machine_id(), 42);
    assert_eq!(submitter.endpoint(), "http://127.0.0.1:50051");
}

#[test]
fn each_stage_takes_only_its_own_outcomes() {
    // For each stage, the places in `every_event` of the events that it takes.
    let cases: Vec<(Stage, Vec<usize>)> = vec![
        (Stage::Connecting, vec![0, 1]),
        (Stage::Handshaking, vec![2, 3]),
        (Stage::Spawning, vec![4]),
        (Stage::Dequeuing, vec![5, 6]),
        (Stage::Transmitting, vec![7, 8]),
        (Stage::Parked, vec![]),
        (Stage::Cancelling, vec![9]),
        (Stage::Sleeping, vec![10]),
    ];
    for (stage, taken) in cases {
        for (place, event) in every_event().into_iter().enumerate() {
            let mut submitter = fresh(42);
            let _: Step = submitter.start();
            for earlier in path_to(stage) {
                let step: Step = submitter.step(earlier);
                assert!(step.is_some());
            }
            assert_eq!(submitter.stage(), stage);
            let step: Step = submitter.step(event);
            assert_eq!(step.is_some(), taken.contains(&place), "{:?}, event {}", stage, place);
            if step.is_none() {
                assert_eq!(submitter.stage(), stage);
            }
        }
    }
}

#[test]
fn the_failed_operation_has_a_name() {
    assert_eq!(SessionError::Connection.operation(), "Connect");
    assert_eq!(SessionError::Handshake.operation(), "FetchInitialState");
    assert_eq!(SessionError::Transmission.operation(), "SendEvents");
}
