//! Whole runs of the supervisor: what it is and what it asks for along a
//! sequence of observations, and what holds of every such run.

use crate::protocol::{Action, Event, Phase, Stage, QUEUE_CAPACITY};
use crate::submitter::SubmitterView;
use vstd::prelude::*;

verus! {

/// The supervisor as it stands before the `i`-th of `events`, when it was `m`
/// before the first.
pub open spec fn before<S, B>(m: SubmitterView, events: Seq<Event<S, B>>, i: int) -> SubmitterView
    decreases i,
{
    if i <= 0 {
        m
    } else {
        before(m, events, i - 1).after(events[i - 1])
    }
}

/// What the supervisor asks for on the `i`-th of `events`.
pub open spec fn asked<S, B>(m: SubmitterView, events: Seq<Event<S, B>>, i: int) -> Option<
    Action<S, B>,
> {
    before(m, events, i).reaction(events[i])
}

/// Whether the `i`-th of `events` is the outcome that the supervisor waits for.
pub open spec fn in_turn<S, B>(m: SubmitterView, events: Seq<Event<S, B>>, i: int) -> bool {
    before(m, events, i).stage.expects(events[i])
}

/// The batches that the supervisor asks to send on the first `n` events.
pub open spec fn sent<S, B>(m: SubmitterView, events: Seq<Event<S, B>>, n: int) -> Seq<B>
    decreases n,
{
    if n <= 0 {
        Seq::empty()
    } else {
        match asked(m, events, n - 1) {
            Some(Action::SendEvents { batch }) => sent(m, events, n - 1).push(batch),
            _ => sent(m, events, n - 1),
        }
    }
}

/// The batches that come off the queue, in turn, among the first `n` events.
pub open spec fn dequeued<S, B>(m: SubmitterView, events: Seq<Event<S, B>>, n: int) -> Seq<B>
    decreases n,
{
    if n <= 0 {
        Seq::empty()
    } else {
        match events[n - 1] {
            Event::Batch(batch) => if in_turn(m, events, n - 1) {
                dequeued(m, events, n - 1).push(batch)
            } else {
                dequeued(m, events, n - 1)
            },
            _ => dequeued(m, events, n - 1),
        }
    }
}

/// How many of the first `n` events are failures in turn: a connection that
/// could not be made, a handshake or a transmission that failed.
pub open spec fn failures<S, B>(m: SubmitterView, events: Seq<Event<S, B>>, n: int) -> nat
    decreases n,
{
    if n <= 0 {
        0
    } else {
        let event = events[n - 1];
        let failed = in_turn(m, events, n - 1) && (event is ConnectionFailed || event is HandshakeFailed
            || event is TransmissionFailed);
        failures(m, events, n - 1) + if failed {
            1nat
        } else {
            0nat
        }
    }
}

/// How many pauses the supervisor asks for on the first `n` events.
pub open spec fn backoffs<S, B>(m: SubmitterView, events: Seq<Event<S, B>>, n: int) -> nat
    decreases n,
{
    if n <= 0 {
        0
    } else {
        backoffs(m, events, n - 1) + match asked(m, events, n - 1) {
            Some(Action::Backoff { .. }) => 1nat,
            _ => 0nat,
        }
    }
}

/// How many collectors start, in turn, among the first `n` events.
pub open spec fn collectors_started<S, B>(m: SubmitterView, events: Seq<Event<S, B>>, n: int) -> nat
    decreases n,
{
    if n <= 0 {
        0
    } else {
        collectors_started(m, events, n - 1) + if in_turn(m, events, n - 1) && events[n
            - 1] is CollectorStarted {
            1nat
        } else {
            0nat
        }
    }
}

/// How many cancellations the supervisor asks for on the first `n` events.
pub open spec fn collectors_cancelled<S, B>(m: SubmitterView, events: Seq<Event<S, B>>, n: int) -> nat
    decreases n,
{
    if n <= 0 {
        0
    } else {
        collectors_cancelled(m, events, n - 1) + match asked(m, events, n - 1) {
            Some(Action::CancelCollector) => 1nat,
            _ => 0nat,
        }
    }
}

/// One for a stage with a collector that nobody has cancelled, else zero.
pub open spec fn alive(stage: Stage) -> nat {
    if stage.has_collector() {
        1
    } else {
        0
    }
}

/// One for a stage in which a failure was met and its pause not yet asked for,
/// else zero.
pub open spec fn owed(stage: Stage) -> nat {
    if stage is Cancelling {
        1
    } else {
        0
    }
}

/// What the driver observes while the queue hands over `batches`, in this
/// order, and the service acknowledges each.
pub open spec fn streaming<S, B>(batches: Seq<B>) -> Seq<Event<S, B>> {
    Seq::new(
        2 * batches.len(),
        |i: int|
            if i % 2 == 0 {
                Event::Batch(batches[i / 2])
            } else {
                Event::Acknowledged
            },
    )
}

/// What the driver observes when the service is reached, answers the handshake
/// with `baseline`, and the collector starts.
pub open spec fn bootstrap<S, B>(baseline: S) -> Seq<Event<S, B>> {
    seq![Event::Connected, Event::InitialState(baseline), Event::CollectorStarted]
}

/// The identity of the machine and the endpoint are fixed for the life of a
/// supervisor: no event changes them.
pub proof fn law_identity_is_kept<S, B>(m: SubmitterView, events: Seq<Event<S, B>>, i: int)
    ensures
        before(m, events, i).machine_id == m.machine_id,
        before(m, events, i).endpoint == m.endpoint,
    decreases i,
{
    if i > 0 {
        law_identity_is_kept(m, events, i - 1);
    }
}

/// Only a shutdown ends the supervision: no event takes a supervisor to
/// `Terminated` or back to `Created`, an event in turn is always answered with
/// an operation, and an event out of turn never is.
pub proof fn law_only_shutdown_terminates<S, B>(m: SubmitterView, events: Seq<Event<S, B>>, i: int)
    requires
        !(m.stage is Terminated),
        !(m.stage is Created),
    ensures
        !(before(m, events, i).stage is Terminated),
        !(before(m, events, i).stage is Created),
        in_turn(m, events, i) <==> asked(m, events, i) is Some,
    decreases i,
{
    if i > 0 {
        law_only_shutdown_terminates(m, events, i - 1);
    }
}

/// Every handshake presents the identity of this machine, and every collector
/// is started with that identity, on the baseline that the handshake of its
/// own session brought, and on a queue of the fixed capacity.
pub proof fn law_collector_is_bound_to_its_session<S, B>(
    m: SubmitterView,
    events: Seq<Event<S, B>>,
    i: int,
)
    requires
        0 <= i < events.len(),
    ensures
        asked(m, events, i) matches Some(Action::FetchInitialState { machine_id }) ==> machine_id
            == m.machine_id,
        asked(m, events, i) matches Some(
            Action::SpawnCollector { baseline, machine_id, queue_capacity },
        ) ==> {
            &&& events[i] == Event::<S, B>::InitialState(baseline)
            &&& machine_id == m.machine_id
            &&& queue_capacity == QUEUE_CAPACITY
        },
{
    law_identity_is_kept(m, events, i);
}

/// Every batch that is sent came off the queue at that very step, and every
/// batch that comes off the queue in turn is sent at once: over any run, the
/// batches sent are the batches dequeued, in the same order, none twice and
/// none left out.
pub proof fn law_sends_what_it_dequeues<S, B>(m: SubmitterView, events: Seq<Event<S, B>>, n: int)
    requires
        0 <= n <= events.len(),
    ensures
        sent(m, events, n) == dequeued(m, events, n),
        forall|i: int, batch: B|
            0 <= i < n ==> (asked(m, events, i) == Some(Action::<S, B>::SendEvents { batch }) <==> in_turn(
                m,
                events,
                i,
            ) && events[i] == Event::<S, B>::Batch(batch)),
    decreases n,
{
    if n > 0 {
        law_sends_what_it_dequeues(m, events, n - 1);
    }
}

/// Inside a session the loop keeps the order of the queue: when the queue
/// hands over `batches` one after the other and each is acknowledged, the
/// supervisor sends exactly `batches`, in that order, stays in `Streaming` all
/// the while, asks for no pause, and ends where it began, waiting for the next
/// batch.
pub proof fn law_ordering<S, B>(m: SubmitterView, batches: Seq<B>)
    requires
        m.stage is Dequeuing,
    ensures
        ({
            let events = streaming::<S, B>(batches);
            let n = events.len() as int;
            &&& n == 2 * batches.len()
            &&& sent(m, events, n) == batches
            &&& backoffs(m, events, n) == 0
            &&& before(m, events, n) == m
            &&& forall|i: int| 0 <= i <= n ==> before(m, events, i).stage.phase() == Phase::Streaming
            &&& forall|i: int| 0 <= i < n ==> in_turn(m, events, i)
        }),
{
    let events = streaming::<S, B>(batches);
    let n = events.len() as int;
    lemma_streaming_prefix::<S, B>(m, batches, batches.len() as int);
    assert(batches.take(batches.len() as int) =~= batches);
    assert forall|i: int| 0 <= i <= n implies before(m, events, i).stage.phase()
        == Phase::Streaming by {
        lemma_streaming_prefix::<S, B>(m, batches, i / 2);
    }
    assert forall|i: int| 0 <= i < n implies in_turn(m, events, i) by {
        lemma_streaming_prefix::<S, B>(m, batches, i / 2);
    }
}

/// `law_ordering`, for the first `k` batches.
proof fn lemma_streaming_prefix<S, B>(m: SubmitterView, batches: Seq<B>, k: int)
    requires
        m.stage is Dequeuing,
        0 <= k <= batches.len(),
    ensures
        before(m, streaming::<S, B>(batches), 2 * k) == m,
        sent(m, streaming::<S, B>(batches), 2 * k) == batches.take(k),
        backoffs(m, streaming::<S, B>(batches), 2 * k) == 0,
        k < batches.len() ==> before(m, streaming::<S, B>(batches), 2 * k + 1).stage is Transmitting,
    decreases k,
{
    let events = streaming::<S, B>(batches);
    if k > 0 {
        lemma_streaming_prefix::<S, B>(m, batches, k - 1);
        assert(events[2 * k - 2] == Event::<S, B>::Batch(batches[k - 1]));
        assert(events[2 * k - 1] == Event::<S, B>::Acknowledged);
        assert(before(m, events, 2 * k - 1) == before(m, events, 2 * k - 2).after(events[2 * k - 2]));
        assert(before(m, events, 2 * k) == before(m, events, 2 * k - 1).after(events[2 * k - 1]));
        assert(sent(m, events, 2 * k - 1) == batches.take(k - 1).push(batches[k - 1]));
        assert(batches.take(k - 1).push(batches[k - 1]) =~= batches.take(k));
        assert(backoffs(m, events, 2 * k - 1) == 0);
    } else {
        assert(batches.take(0) =~= Seq::<B>::empty());
    }
    if k < batches.len() {
        assert(events[2 * k] == Event::<S, B>::Batch(batches[k]));
        assert(before(m, events, 2 * k + 1) == before(m, events, 2 * k).after(events[2 * k]));
    }
}

/// A session begins with a handshake: when the supervisor is in `Streaming`
/// before the `i`-th event and was not before the `lo`-th, then some event
/// `j` from `lo` on is a baseline received in turn, and the supervisor is in
/// `Streaming` from just after `j` up to `i`.
pub proof fn lemma_session_origin<S, B>(
    m: SubmitterView,
    events: Seq<Event<S, B>>,
    lo: int,
    i: int,
) -> (j: int)
    requires
        0 <= lo <= i,
        before(m, events, lo).stage.phase() != Phase::Streaming,
        before(m, events, i).stage.phase() == Phase::Streaming,
    ensures
        lo <= j < i,
        events[j] is InitialState,
        before(m, events, j).stage is Handshaking,
        asked(m, events, j) is Some,
        asked(m, events, j)->0 is SpawnCollector,
        forall|k: int| j < k <= i ==> before(m, events, k).stage.phase() == Phase::Streaming,
    decreases i - lo,
{
    if before(m, events, i - 1).stage.phase() == Phase::Streaming {
        lemma_session_origin(m, events, lo, i - 1)
    } else {
        i - 1
    }
}

/// Nothing is sent before the handshake of its session: when the supervisor,
/// set out from outside `Streaming`, asks to send on the `i`-th event, then an
/// earlier event `j` is a baseline received in turn, and from just after `j`
/// up to `i` the supervisor never leaves `Streaming`.
pub proof fn law_bootstrap_gating<S, B>(m: SubmitterView, events: Seq<Event<S, B>>, i: int) -> (j:
    int)
    requires
        m.stage.phase() != Phase::Streaming,
        0 <= i < events.len(),
        asked(m, events, i) is Some,
        asked(m, events, i)->0 is SendEvents,
    ensures
        0 <= j < i,
        events[j] is InitialState,
        in_turn(m, events, j),
        forall|k: int| j < k <= i ==> before(m, events, k).stage.phase() == Phase::Streaming,
{
    lemma_session_origin(m, events, 0, i)
}

/// A failed session leaves nothing behind: when a transmission fails on the
/// `f`-th event and the supervisor asks to send `batch` on a later event `i`,
/// then `batch` came off the queue at `i`, and that queue was opened after the
/// failure, by a `SpawnCollector` on some event `j` between the two, since
/// when the supervisor never left `Streaming`.
pub proof fn law_session_isolation<S, B>(
    m: SubmitterView,
    events: Seq<Event<S, B>>,
    f: int,
    i: int,
    batch: B,
) -> (j: int)
    requires
        0 <= f < i < events.len(),
        events[f] is TransmissionFailed,
        in_turn(m, events, f),
        asked(m, events, i) == Some(Action::<S, B>::SendEvents { batch }),
    ensures
        asked(m, events, f) == Some(Action::<S, B>::CancelCollector),
        f < j < i,
        asked(m, events, j) is Some,
        asked(m, events, j)->0 is SpawnCollector,
        forall|k: int| j < k <= i ==> before(m, events, k).stage.phase() == Phase::Streaming,
        events[i] == Event::<S, B>::Batch(batch),
{
    assert(before(m, events, f + 1) == before(m, events, f).after(events[f]));
    lemma_session_origin(m, events, f + 1, i)
}

/// One batch is in flight at a time: between two events on which the
/// supervisor asks to send lies the outcome of the first send, in turn.
pub proof fn law_one_batch_in_flight<S, B>(
    m: SubmitterView,
    events: Seq<Event<S, B>>,
    i: int,
    k: int,
) -> (j: int)
    requires
        0 <= i < k < events.len(),
        asked(m, events, i) is Some,
        asked(m, events, i)->0 is SendEvents,
        asked(m, events, k) is Some,
        asked(m, events, k)->0 is SendEvents,
    ensures
        i < j < k,
        in_turn(m, events, j),
        events[j] is Acknowledged || events[j] is TransmissionFailed,
        forall|l: int| i < l <= j ==> before(m, events, l).stage is Transmitting,
{
    assert(before(m, events, i + 1) == before(m, events, i).after(events[i]));
    lemma_first_outcome(m, events, i + 1, k)
}

/// From a stage with a batch in flight, the first step at which the stage is
/// another is the outcome of the send.
proof fn lemma_first_outcome<S, B>(m: SubmitterView, events: Seq<Event<S, B>>, lo: int, k: int) -> (j:
    int)
    requires
        0 <= lo <= k,
        before(m, events, lo).stage is Transmitting,
        !(before(m, events, k).stage is Transmitting),
    ensures
        lo <= j < k,
        in_turn(m, events, j),
        events[j] is Acknowledged || events[j] is TransmissionFailed,
        forall|l: int| lo <= l <= j ==> before(m, events, l).stage is Transmitting,
    decreases k - lo,
{
    assert(before(m, events, lo + 1) == before(m, events, lo).after(events[lo]));
    if before(m, events, lo + 1).stage is Transmitting {
        lemma_first_outcome(m, events, lo + 1, k)
    } else {
        lo
    }
}

/// Every failure is followed by one pause, and no pause comes without a
/// failure: over any run, the pauses asked for, and the one still owed while a
/// collector is being cancelled, are as many as the failures met.
pub proof fn law_one_pause_per_failure<S, B>(m: SubmitterView, events: Seq<Event<S, B>>, n: int)
    requires
        0 <= n <= events.len(),
    ensures
        backoffs(m, events, n) + owed(before(m, events, n).stage) == failures(m, events, n) + owed(
            m.stage,
        ),
    decreases n,
{
    if n > 0 {
        law_one_pause_per_failure(m, events, n - 1);
    }
}

/// Every collector is cancelled once and no more: over any run, the
/// cancellations asked for, and the collector that still runs at the end, are
/// as many as the collectors started, and the one that ran at the beginning.
/// A shutdown at the end asks to cancel exactly the one that still runs.
pub proof fn law_each_collector_cancelled_once<S, B>(
    m: SubmitterView,
    events: Seq<Event<S, B>>,
    n: int,
)
    requires
        0 <= n <= events.len(),
    ensures
        collectors_cancelled(m, events, n) + alive(before(m, events, n).stage) == collectors_started(
            m,
            events,
            n,
        ) + alive(m.stage),
    decreases n,
{
    if n > 0 {
        law_each_collector_cancelled_once(m, events, n - 1);
    }
}

/// A shutdown is final and can be repeated: after it no collector is left to
/// cancel, a second shutdown changes nothing, and every event is ignored.
pub proof fn law_cancellation_is_idempotent<S, B>(m: SubmitterView, events: Seq<Event<S, B>>, i: int)
    ensures
        !m.stopped().stage.has_collector(),
        m.stopped().stopped() == m.stopped(),
        before(m.stopped(), events, i) == m.stopped(),
        asked(m.stopped(), events, i) is None,
    decreases i,
{
    if i > 0 {
        law_cancellation_is_idempotent(m, events, i - 1);
    }
}

/// A run over the beginning of a sequence does not depend on what follows.
proof fn lemma_run_prefix<S, B>(
    m: SubmitterView,
    first: Seq<Event<S, B>>,
    second: Seq<Event<S, B>>,
    i: int,
)
    requires
        0 <= i <= first.len(),
    ensures
        before(m, first + second, i) == before(m, first, i),
        sent(m, first + second, i) == sent(m, first, i),
        backoffs(m, first + second, i) == backoffs(m, first, i),
        failures(m, first + second, i) == failures(m, first, i),
    decreases i,
{
    if i > 0 {
        lemma_run_prefix(m, first, second, i - 1);
        assert((first + second)[i - 1] == first[i - 1]);
    }
}

/// A run over `first + second` is the run over `first`, and then the run over
/// `second` from where the first ended.
proof fn lemma_run_splits<S, B>(
    m: SubmitterView,
    first: Seq<Event<S, B>>,
    second: Seq<Event<S, B>>,
    i: int,
)
    requires
        0 <= i <= second.len(),
    ensures
        ({
            let k = first.len() as int;
            let mid = before(m, first, k);
            &&& before(m, first + second, k + i) == before(mid, second, i)
            &&& sent(m, first + second, k + i) == sent(m, first, k) + sent(mid, second, i)
            &&& backoffs(m, first + second, k + i) == backoffs(m, first, k) + backoffs(mid, second, i)
            &&& failures(m, first + second, k + i) == failures(m, first, k) + failures(mid, second, i)
        }),
    decreases i,
{
    let k = first.len() as int;
    let mid = before(m, first, k);
    if i > 0 {
        lemma_run_splits(m, first, second, i - 1);
        assert((first + second)[k + i - 1] == second[i - 1]);
        assert(before(m, first + second, k + i) == before(mid, second, i));
        assert(asked(m, first + second, k + i - 1) == asked(mid, second, i - 1));
        assert(sent(m, first + second, k + i) =~= sent(m, first, k) + sent(mid, second, i));
    } else {
        lemma_run_prefix(m, first, second, k);
        assert(sent(m, first, k) + sent(mid, second, 0) =~= sent(m, first, k));
    }
}

/// The supervisor never gives up, and pauses once for each failure. Let a
/// started supervisor meet any events `failed`, among them failures of any
/// kind, at the end of which it dials again. When the service then is reached,
/// answers the handshake with `baseline`, and acknowledges the `batches` that
/// the queue hands over, the supervisor is in `Streaming` from the start of the
/// collector on, sends `batches` in their order after whatever it had sent
/// before, and has paused exactly as often as it met a failure.
pub proof fn law_retry_liveness<S, B>(
    m: SubmitterView,
    failed: Seq<Event<S, B>>,
    baseline: S,
    batches: Seq<B>,
)
    requires
        m.stage is Connecting,
        before(m, failed, failed.len() as int).stage is Connecting,
    ensures
        ({
            let events = failed + bootstrap::<S, B>(baseline) + streaming::<S, B>(batches);
            let k = failed.len() as int;
            let n = events.len() as int;
            &&& n == k + 3 + 2 * batches.len()
            &&& before(m, events, n).stage is Dequeuing
            &&& forall|i: int| k + 2 <= i <= n ==> before(m, events, i).stage.phase() == Phase::Streaming
            &&& sent(m, events, n) == sent(m, failed, k) + batches
            &&& failures(m, events, n) == failures(m, failed, k)
            &&& backoffs(m, events, n) == failures(m, failed, k)
        }),
{
    let boot = bootstrap::<S, B>(baseline);
    let stream = streaming::<S, B>(batches);
    let events = failed + boot + stream;
    let k = failed.len() as int;
    let n = events.len() as int;
    let dialling = before(m, failed, k);
    let begun = before(dialling, boot, 3);
    assert(begun.stage is Dequeuing && before(dialling, boot, 2).stage is Spawning && sent(dialling, boot, 3)
        =~= Seq::<B>::empty() && backoffs(dialling, boot, 3) == 0 && failures(dialling, boot, 3) == 0) by {
        reveal_with_fuel(before, 4);
        reveal_with_fuel(sent, 4);
        reveal_with_fuel(backoffs, 4);
        reveal_with_fuel(failures, 4);
    }
    law_one_pause_per_failure(m, failed, k);
    lemma_run_splits(m, failed, boot, 3);
    lemma_run_splits(m, failed, boot, 2);
    law_ordering::<S, B>(begun, batches);
    law_one_pause_per_failure(begun, stream, stream.len() as int);
    lemma_run_splits(m, failed + boot, stream, stream.len() as int);
    assert(sent(m, failed, k) + Seq::<B>::empty() + batches =~= sent(m, failed, k) + batches);
    assert forall|i: int| k + 2 <= i <= n implies before(m, events, i).stage.phase()
        == Phase::Streaming by {
        if i >= k + 3 {
            lemma_run_splits(m, failed + boot, stream, i - (k + 3));
        } else {
            lemma_run_prefix(m, failed + boot, stream, i);
        }
    }
}

} // verus!
