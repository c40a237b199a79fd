//! The order of the events that one node stream publishes over its life.

use crate::node::{
    worker_step, NodeGameStatusSnapshot, NodeStreamEvent, WorkerInput, WorkerPhase,
};
use vstd::prelude::*;

verus! {

/// The phase of a worker that stood in `phase` and was then given the
/// first `k` of `inputs`.
pub open spec fn phase_after(phase: WorkerPhase, inputs: Seq<WorkerInput>, k: int) -> WorkerPhase
    decreases k,
{
    if k <= 0 {
        phase
    } else {
        worker_step(phase_after(phase, inputs, k - 1), inputs[k - 1]).phase
    }
}

/// All events that a worker which stood in `phase` has published after it
/// was given the first `k` of `inputs`.
pub open spec fn events_after(phase: WorkerPhase, inputs: Seq<WorkerInput>, k: int) -> Seq<
    NodeStreamEvent,
>
    decreases k,
{
    if k <= 0 {
        seq![]
    } else {
        events_after(phase, inputs, k - 1) + worker_step(
            phase_after(phase, inputs, k - 1),
            inputs[k - 1],
        ).events
    }
}

/// What a started worker publishes on the input at index `j`.
pub open spec fn published_at(inputs: Seq<WorkerInput>, j: int) -> Seq<NodeStreamEvent> {
    worker_step(phase_after(WorkerPhase::Running, inputs, j), inputs[j]).events
}

pub open spec fn has_disconnect(events: Seq<NodeStreamEvent>) -> bool {
    exists|i: int| 0 <= i < events.len() && #[trigger] events[i] is Disconnected
}

/// No disconnect but at the end.
pub open spec fn disconnect_last(events: Seq<NodeStreamEvent>) -> bool {
    forall|i: int| 0 <= i < events.len() - 1 ==> !(#[trigger] events[i] is Disconnected)
}

/// One initial status, at the front, and no other.
pub open spec fn initial_status_first_and_once(events: Seq<NodeStreamEvent>) -> bool {
    &&& events.len() >= 1
    &&& events[0] is GameInitialStatus
    &&& forall|i: int| 1 <= i < events.len() ==> !(#[trigger] events[i] is GameInitialStatus)
}

/// One initial status, at the front; then updates; a disconnect, if any,
/// at the end.
pub open spec fn well_ordered(events: Seq<NodeStreamEvent>) -> bool {
    initial_status_first_and_once(events) && disconnect_last(events)
}

/// A disconnect is the last thing a worker publishes on an input, and the
/// worker stops with it.
pub proof fn lemma_disconnect_stops(phase: WorkerPhase, input: WorkerInput, i: int)
    requires
        0 <= i < worker_step(phase, input).events.len(),
        worker_step(phase, input).events[i] is Disconnected,
    ensures
        worker_step(phase, input).phase is Stopped,
        worker_step(phase, input).exit,
        i == worker_step(phase, input).events.len() - 1,
{
}

/// A worker that has stopped stays stopped and publishes nothing more.
pub proof fn lemma_stopped_is_silent(input: WorkerInput)
    ensures
        worker_step(WorkerPhase::Stopped, input).events.len() == 0,
        worker_step(WorkerPhase::Stopped, input).phase is Stopped,
{
}

/// Whatever happens on the connection, a started worker never goes back
/// to the phase before the start and publishes no initial status.
pub proof fn lemma_started_worker_publishes_no_initial_status(inputs: Seq<WorkerInput>, k: int)
    requires
        0 <= k <= inputs.len(),
    ensures
        !(phase_after(WorkerPhase::Running, inputs, k) is Init),
        forall|i: int|
            0 <= i < events_after(WorkerPhase::Running, inputs, k).len() ==> !(
            #[trigger] events_after(WorkerPhase::Running, inputs, k)[i] is GameInitialStatus),
    decreases k,
{
    if k > 0 {
        lemma_started_worker_publishes_no_initial_status(inputs, k - 1);
        let before = events_after(WorkerPhase::Running, inputs, k - 1);
        let step = published_at(inputs, k - 1);
        let after = events_after(WorkerPhase::Running, inputs, k);
        assert(after == before + step);
        assert(forall|i: int| 0 <= i < step.len() ==> !(#[trigger] step[i] is GameInitialStatus));
        assert forall|i: int| 0 <= i < after.len() implies after[i] == if i < before.len() {
            before[i]
        } else {
            step[i - before.len()]
        } by {}
    }
}

/// Whatever happens on the connection, a started worker publishes a
/// disconnect at most once and as its last event, and has stopped once it
/// has published one.
pub proof fn lemma_disconnect_comes_last(inputs: Seq<WorkerInput>, k: int)
    requires
        0 <= k <= inputs.len(),
    ensures
        disconnect_last(events_after(WorkerPhase::Running, inputs, k)),
        has_disconnect(events_after(WorkerPhase::Running, inputs, k)) ==> phase_after(
            WorkerPhase::Running,
            inputs,
            k,
        ) is Stopped,
    decreases k,
{
    if k > 0 {
        lemma_disconnect_comes_last(inputs, k - 1);
        lemma_started_worker_publishes_no_initial_status(inputs, k - 1);
        let before = events_after(WorkerPhase::Running, inputs, k - 1);
        let phase = phase_after(WorkerPhase::Running, inputs, k - 1);
        let step = published_at(inputs, k - 1);
        let after = events_after(WorkerPhase::Running, inputs, k);
        assert(after == before + step);
        assert(step.len() <= 1);
        assert forall|i: int| 0 <= i < after.len() implies after[i] == if i < before.len() {
            before[i]
        } else {
            step[i - before.len()]
        } by {}
        if has_disconnect(before) {
            assert(phase is Stopped);
            assert(step.len() == 0);
            assert(after =~= before);
        } else {
            assert forall|i: int| 0 <= i < before.len() implies !(
            #[trigger] before[i] is Disconnected) by {}
            if has_disconnect(after) {
                let d = choose|d: int| 0 <= d < after.len() && #[trigger] after[d] is Disconnected;
                assert(d >= before.len());
                assert(step[0] is Disconnected);
            }
        }
    }
}

/// Whatever happens on the connection, once a started worker has
/// published a disconnect, nothing it is given afterwards makes it
/// publish anything.
pub proof fn lemma_nothing_after_disconnect(inputs: Seq<WorkerInput>, k: int, j: int)
    requires
        0 <= k <= j < inputs.len(),
        has_disconnect(events_after(WorkerPhase::Running, inputs, k)),
    ensures
        published_at(inputs, j).len() == 0,
        events_after(WorkerPhase::Running, inputs, j + 1) == events_after(
            WorkerPhase::Running,
            inputs,
            k,
        ),
    decreases j - k,
{
    lemma_disconnect_comes_last(inputs, k);
    if j > k {
        lemma_nothing_after_disconnect(inputs, k, j - 1);
        lemma_disconnect_comes_last(inputs, j);
    }
    assert(phase_after(WorkerPhase::Running, inputs, j) is Stopped);
    assert(events_after(WorkerPhase::Running, inputs, j + 1) =~= events_after(
        WorkerPhase::Running,
        inputs,
        j,
    ));
}

/// A worker that is given its first input before it was started behaves
/// from then on as one that was started first: it stands in the same
/// phase and has published the initial status followed by the same events.
pub proof fn lemma_first_input_starts(
    status: NodeGameStatusSnapshot,
    inputs: Seq<WorkerInput>,
    k: int,
)
    requires
        1 <= k <= inputs.len(),
    ensures
        phase_after(WorkerPhase::Init(status), inputs, k) == phase_after(
            WorkerPhase::Running,
            inputs,
            k,
        ),
        events_after(WorkerPhase::Init(status), inputs, k) == seq![
            NodeStreamEvent::GameInitialStatus(status),
        ] + events_after(WorkerPhase::Running, inputs, k),
    decreases k,
{
    let first = seq![NodeStreamEvent::GameInitialStatus(status)];
    reveal_with_fuel(phase_after, 2);
    reveal_with_fuel(events_after, 2);
    if k == 1 {
        assert(events_after(WorkerPhase::Init(status), inputs, 1) =~= first + events_after(
            WorkerPhase::Running,
            inputs,
            1,
        ));
    } else {
        lemma_first_input_starts(status, inputs, k - 1);
        assert(events_after(WorkerPhase::Init(status), inputs, k) =~= first + events_after(
            WorkerPhase::Running,
            inputs,
            k,
        ));
    }
}

/// Over the life of a stream that was connected with `status` and then
/// started, whatever happens on the connection: the initial status comes
/// first and once, updates follow, and a disconnect comes at most once and
/// last.
pub proof fn lemma_started_stream_well_ordered(
    status: NodeGameStatusSnapshot,
    inputs: Seq<WorkerInput>,
    k: int,
)
    requires
        0 <= k <= inputs.len(),
    ensures
        well_ordered(
            seq![NodeStreamEvent::GameInitialStatus(status)] + events_after(
                WorkerPhase::Running,
                inputs,
                k,
            ),
        ),
{
    lemma_started_worker_publishes_no_initial_status(inputs, k);
    lemma_disconnect_comes_last(inputs, k);
    let first = seq![NodeStreamEvent::GameInitialStatus(status)];
    let rest = events_after(WorkerPhase::Running, inputs, k);
    let all = first + rest;
    assert forall|i: int| 1 <= i < all.len() implies all[i] == rest[i - 1] by {}
    assert(all[0] == first[0]);
}

/// The same for a stream that was not started before its first input.
pub proof fn lemma_unstarted_stream_well_ordered(
    status: NodeGameStatusSnapshot,
    inputs: Seq<WorkerInput>,
    k: int,
)
    requires
        1 <= k <= inputs.len(),
    ensures
        well_ordered(events_after(WorkerPhase::Init(status), inputs, k)),
{
    lemma_first_input_starts(status, inputs, k);
    lemma_started_stream_well_ordered(status, inputs, k);
}

} // verus!
