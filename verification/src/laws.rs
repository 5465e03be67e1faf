//! What holds of the state container over whole runs of operations.

use crate::event::{EventModel, QueuedEvent};
use crate::model::{Outcome, TelemetryState};
use vstd::prelude::*;

verus! {

/// One operation on the state container, with its arguments.
pub enum Input {
    /// The start signal with the installation id.
    Start { installation_id: Option<Seq<char>> },
    /// Sign-in information, with the metrics switch as read at that moment.
    UserInfo { metrics_id: Option<Seq<char>>, is_staff: bool, enabled: bool },
    /// The submission of one event at time `now`.
    Report { event: EventModel, enabled: bool, now: nat },
    /// A debounce timer waking at time `now`.
    Wake { now: nat },
    /// A flush asked for directly.
    Flush,
    /// The log mirror being set or removed.
    LogFile { log_file: Option<Seq<char>> },
}

/// The state after one operation.
pub open spec fn step(state: TelemetryState, input: Input) -> TelemetryState {
    match input {
        Input::Start { installation_id } => state.after_start(installation_id),
        Input::UserInfo { metrics_id, is_staff, enabled } => state.after_user_info(
            metrics_id,
            is_staff,
            enabled,
        ),
        Input::Report { event, enabled, now } => state.after_report(event, enabled, now),
        Input::Wake { now } => state.after_debounce(now),
        Input::Flush => state.drained(),
        Input::LogFile { log_file } => state.with_log_file(log_file),
    }
}

/// The batch that one operation hands out for delivery, if it flushes.
pub open spec fn flushed_by(state: TelemetryState, input: Input) -> Option<Seq<QueuedEvent>> {
    match input {
        Input::Start { installation_id } => state.start_batch(installation_id),
        Input::Report { event, enabled, .. } => match state.report_outcome(event, enabled) {
            Outcome::Flushed { batch } => Some(batch),
            _ => None,
        },
        Input::Wake { now } => state.debounce_batch(now),
        Input::Flush => Some(state.queue),
        _ => None,
    }
}

/// The state after a run of operations, first to last.
pub open spec fn run(state: TelemetryState, inputs: Seq<Input>) -> TelemetryState
    decreases inputs.len(),
{
    if inputs.len() == 0 {
        state
    } else {
        step(run(state, inputs.drop_last()), inputs.last())
    }
}

/// A run in which events are submitted and sign-in information may change,
/// and in which nothing flushes.
pub open spec fn quiet(state: TelemetryState, inputs: Seq<Input>) -> bool {
    forall|i: int|
        0 <= i < inputs.len() ==> {
            &&& (#[trigger] inputs[i]) is Report || inputs[i] is UserInfo
            &&& flushed_by(run(state, inputs.take(i)), inputs[i]) is None
        }
}

/// The events that a run submits with telemetry on, in order, each stamped
/// with the sign-in state that held just before its own submission.
pub open spec fn submissions(state: TelemetryState, inputs: Seq<Input>) -> Seq<QueuedEvent>
    decreases inputs.len(),
{
    if inputs.len() == 0 {
        Seq::empty()
    } else {
        let earlier = submissions(state, inputs.drop_last());
        match inputs.last() {
            Input::Report { event, enabled: true, .. } => earlier.push(
                run(state, inputs.drop_last()).stamped(event),
            ),
            _ => earlier,
        }
    }
}

/// Every operation keeps a well-formed state well-formed.
pub proof fn lemma_step_keeps_wf(state: TelemetryState, input: Input)
    requires
        state.wf(),
    ensures
        step(state, input).wf(),
{
}

/// Every state that a run reaches from a well-formed state is well-formed;
/// in particular every state reached from the initial one.
pub proof fn lemma_run_keeps_wf(state: TelemetryState, inputs: Seq<Input>)
    requires
        state.wf(),
    ensures
        run(state, inputs).wf(),
    decreases inputs.len(),
{
    if inputs.len() > 0 {
        lemma_run_keeps_wf(state, inputs.drop_last());
        lemma_step_keeps_wf(run(state, inputs.drop_last()), inputs.last());
    }
}

/// Whatever the operation, a batch that is handed out is the whole queue as
/// it stood (with the event just admitted, if there is one), and the queue is
/// empty afterwards: no event is flushed twice and none is dropped.
pub proof fn lemma_flush_takes_everything(state: TelemetryState, input: Input)
    ensures
        flushed_by(state, input) matches Some(batch) ==> {
            &&& step(state, input).idle()
            &&& batch == state.queue || (input matches Input::Report { event, .. } && batch
                == state.queue.push(state.stamped(event)))
        },
{
}

/// An operation that does not flush keeps every waiting event in its place.
/// Only an admission adds to the queue, and only the one event it was given:
/// nothing that left the queue ever comes back.
pub proof fn lemma_queue_grows_by_admission_only(state: TelemetryState, input: Input)
    ensures
        flushed_by(state, input) is None ==> {
            ||| step(state, input).queue == state.queue
            ||| input matches Input::Report { event, enabled: true, .. } && step(
                state,
                input,
            ).queue == state.queue.push(state.stamped(event))
        },
{
}

/// While no installation id is known, submitting an event neither flushes
/// nor arms a timer, and no wake-up flushes, whatever timer may be pending.
pub proof fn lemma_nothing_sent_before_installation_id(
    state: TelemetryState,
    event: EventModel,
    enabled: bool,
    now: nat,
)
    requires
        state.installation_id is None,
    ensures
        !(state.report_outcome(event, enabled) is Flushed),
        !(state.report_outcome(event, enabled) is Debounced),
        state.after_report(event, enabled, now).armed_at == state.armed_at,
        !state.debounce_due(now),
        state.debounce_batch(now) is None,
        state.after_debounce(now) == state,
{
}

/// A start signal without an installation id hands out nothing: the events
/// keep waiting in their order, the id is unknown afterwards, and no timer
/// stays pending, so no wake-up flushes them either.
pub proof fn lemma_start_without_id_sends_nothing(state: TelemetryState, at: nat)
    ensures
        state.start_batch(None) is None,
        state.after_start(None).queue == state.queue,
        state.after_start(None).installation_id is None,
        state.after_start(None).armed_at is None,
        state.after_start(None).debounce_batch(at) is None,
        state.wf() ==> state.after_start(None).wf(),
{
}

/// No batch leaves the container while the installation id is unknown: of
/// all operations but the flush asked for directly, one that hands out a
/// batch leaves the id known, and none hands one out of a state without an
/// id unless it is the start signal that brings the id.
pub proof fn lemma_no_batch_without_installation_id(state: TelemetryState, input: Input)
    requires
        !(input is Flush),
    ensures
        flushed_by(state, input) is Some ==> step(state, input).installation_id is Some,
        flushed_by(state, input) is Some && state.installation_id is None ==> input
            matches Input::Start { installation_id: Some(_) },
{
}

/// The same over a run: at whichever step a batch is handed out, other than
/// by a flush asked for directly, the id is known right after that step.
pub proof fn lemma_run_sends_only_with_installation_id(
    state: TelemetryState,
    inputs: Seq<Input>,
    i: int,
)
    requires
        0 <= i < inputs.len(),
        !(inputs[i] is Flush),
    ensures
        flushed_by(run(state, inputs.take(i)), inputs[i]) is Some ==> run(
            state,
            inputs.take(i + 1),
        ).installation_id is Some,
{
    let upto = inputs.take(i + 1);
    assert(upto.drop_last() == inputs.take(i));
    assert(upto.last() == inputs[i]);
    lemma_no_batch_without_installation_id(run(state, inputs.take(i)), inputs[i]);
}

/// Every run that is quiet stays quiet when its last operation is left out.
pub proof fn lemma_quiet_prefix(state: TelemetryState, inputs: Seq<Input>)
    requires
        quiet(state, inputs),
        inputs.len() > 0,
    ensures
        quiet(state, inputs.drop_last()),
        inputs.take(inputs.len() - 1) == inputs.drop_last(),
        flushed_by(run(state, inputs.drop_last()), inputs.last()) is None,
        inputs.last() is Report || inputs.last() is UserInfo,
{
    let earlier = inputs.drop_last();
    assert forall|i: int| 0 <= i < earlier.len() implies {
        &&& (#[trigger] earlier[i]) is Report || earlier[i] is UserInfo
        &&& flushed_by(run(state, earlier.take(i)), earlier[i]) is None
    } by {
        assert(earlier.take(i) == inputs.take(i));
        assert(earlier[i] == inputs[i]);
    }
    let last = inputs.len() - 1;
    assert(inputs.take(last) == earlier);
    assert(inputs[last] == inputs.last());
}

/// In a run that never flushes, the queue grows by exactly the events
/// submitted with telemetry on, in submission order, each with the sign-in
/// flag of its own moment.
pub proof fn lemma_quiet_run_accumulates(state: TelemetryState, inputs: Seq<Input>)
    requires
        quiet(state, inputs),
    ensures
        run(state, inputs).queue == state.queue + submissions(state, inputs),
    decreases inputs.len(),
{
    if inputs.len() == 0 {
        assert(state.queue + submissions(state, inputs) =~= state.queue);
    } else {
        lemma_quiet_prefix(state, inputs);
        lemma_quiet_run_accumulates(state, inputs.drop_last());
        match inputs.last() {
            Input::Report { event, enabled: true, .. } => {
                assert(run(state, inputs).queue =~= state.queue + submissions(state, inputs));
            },
            _ => {},
        }
    }
}

/// Submissions with telemetry on, no sign-in change between them and no
/// flush: the queue afterwards is the queue before followed by exactly the
/// submitted events, as many and in the same order, and each carries the
/// sign-in state of the run.
pub proof fn lemma_quiet_reports_accumulate(state: TelemetryState, inputs: Seq<Input>)
    requires
        quiet(state, inputs),
        forall|i: int| 0 <= i < inputs.len() ==> (#[trigger] inputs[i]) matches Input::Report {
            enabled: true,
            ..
        },
    ensures
        run(state, inputs).metrics_id == state.metrics_id,
        run(state, inputs).queue.len() == state.queue.len() + inputs.len(),
        forall|i: int|
            0 <= i < state.queue.len() ==> (#[trigger] run(state, inputs).queue[i])
                == state.queue[i],
        forall|i: int|
            0 <= i < inputs.len() ==> (#[trigger] run(state, inputs).queue[state.queue.len() + i])
                == (QueuedEvent {
                signed_in: state.metrics_id is Some,
                event: inputs[i]->Report_event,
            }),
    decreases inputs.len(),
{
    if inputs.len() > 0 {
        let earlier = inputs.drop_last();
        lemma_quiet_prefix(state, inputs);
        assert forall|i: int| 0 <= i < earlier.len() implies (#[trigger] earlier[i]) matches Input::Report {
            enabled: true,
            ..
        } by {
            assert(earlier[i] == inputs[i]);
        }
        lemma_quiet_reports_accumulate(state, earlier);
        assert(inputs[inputs.len() - 1] == inputs.last());
    }
}

/// Submitting an event with telemetry off changes nothing: not the queue,
/// not its length, not the timer.
pub proof fn lemma_disabled_report_changes_nothing(state: TelemetryState, event: EventModel, now: nat)
    ensures
        state.after_report(event, false, now) == state,
        state.after_report(event, false, now).queue.len() == state.queue.len(),
        state.report_outcome(event, false) == Outcome::Discarded,
{
}

/// Once an installation id is known and the queue with the new event
/// reaches the limit, the admission flushes: the batch is the old queue
/// followed by the new event, and the queue is empty right after. In
/// particular this holds whenever the queue had already reached the limit.
pub proof fn lemma_limit_forces_flush(state: TelemetryState, event: EventModel, now: nat)
    requires
        state.installation_id is Some,
        state.queue.len() + 1 >= state.profile.spec_max_queue_len(),
    ensures
        state.report_outcome(event, true) == (Outcome::Flushed {
            batch: state.queue.push(state.stamped(event)),
        }),
        state.after_report(event, true, now).queue.len() == 0,
        state.after_report(event, true, now).idle(),
{
}

/// An admission that arms the timer at `now` replaces any earlier timer:
/// whatever was pending before, a wake-up at time `at` flushes exactly when
/// `at` is no earlier than `now` plus the delay. Before that moment a
/// wake-up changes nothing and hands out nothing.
pub proof fn lemma_admission_resets_delay(
    state: TelemetryState,
    event: EventModel,
    now: nat,
    at: nat,
)
    requires
        state.report_outcome(event, true) is Debounced,
    ensures
        state.after_report(event, true, now).armed_at == Some(now),
        state.after_report(event, true, now).debounce_due(at) <==> at >= now
            + state.profile.spec_debounce_secs(),
        at < now + state.profile.spec_debounce_secs() ==> {
            &&& state.after_report(event, true, now).debounce_batch(at) is None
            &&& state.after_report(event, true, now).after_debounce(at) == state.after_report(
                event,
                true,
                now,
            )
        },
        at >= now + state.profile.spec_debounce_secs() ==> {
            &&& state.after_report(event, true, now).debounce_batch(at) == Some(
                state.queue.push(state.stamped(event)),
            )
            &&& state.after_report(event, true, now).after_debounce(at).idle()
        },
{
}

/// The start signal that brings an installation id flushes once if any
/// event waits, whatever the length of the queue, and not at all otherwise.
/// After it nothing is pending, so no second flush follows from it: a
/// wake-up finds nothing due, and a second start signal finds nothing to
/// flush.
pub proof fn lemma_start_flushes_once(
    state: TelemetryState,
    installation_id: Seq<char>,
    again: Option<Seq<char>>,
    at: nat,
)
    requires
        state.wf(),
    ensures
        state.start_batch(Some(installation_id)) is Some <==> state.queue.len() > 0,
        state.queue.len() > 0 ==> state.start_batch(Some(installation_id)) == Some(state.queue),
        state.after_start(Some(installation_id)).idle(),
        state.after_start(Some(installation_id)).installation_id == Some(installation_id),
        state.after_start(Some(installation_id)).debounce_batch(at) is None,
        state.after_start(Some(installation_id)).start_batch(again) is None,
        state.after_start(Some(installation_id)).after_start(again).idle(),
{
}

/// Two admissions in a row that both arm the timer, the second before the
/// first delay has run out or after: only the second counts. A wake-up
/// flushes exactly when it comes no earlier than the second admission's time
/// plus the delay, and the batch then holds both events behind what waited
/// before, in order.
pub proof fn lemma_readmission_postpones_flush(
    state: TelemetryState,
    first: EventModel,
    first_at: nat,
    second: EventModel,
    second_at: nat,
    at: nat,
)
    requires
        state.report_outcome(first, true) is Debounced,
        state.after_report(first, true, first_at).report_outcome(second, true) is Debounced,
    ensures
        ({
            let rearmed = state.after_report(first, true, first_at).after_report(
                second,
                true,
                second_at,
            );
            &&& rearmed.armed_at == Some(second_at)
            &&& rearmed.debounce_due(at) <==> at >= second_at + state.profile.spec_debounce_secs()
            &&& at < second_at + state.profile.spec_debounce_secs() ==> rearmed.after_debounce(at)
                == rearmed
            &&& at >= second_at + state.profile.spec_debounce_secs() ==> rearmed.debounce_batch(at)
                == Some(state.queue.push(state.stamped(first)).push(state.stamped(second)))
        }),
{
}

/// A flush leaves the container as ready as it was at the start: the queue
/// is empty and no timer is pending, exactly as in the initial state, and
/// everything else is untouched. Flushing again changes nothing and finds no
/// event.
pub proof fn lemma_flush_is_idempotent(state: TelemetryState)
    ensures
        state.drained().idle(),
        state.drained().queue == TelemetryState::initial(
            state.os_name,
            state.os_version,
            state.architecture,
            state.app_version,
            state.release_channel,
            state.profile,
        ).queue,
        state.drained().armed_at == TelemetryState::initial(
            state.os_name,
            state.os_version,
            state.architecture,
            state.app_version,
            state.release_channel,
            state.profile,
        ).armed_at,
        state.drained() == (TelemetryState { queue: Seq::empty(), armed_at: None, ..state }),
        state.drained().drained() == state.drained(),
        state.drained().queue.len() == 0,
        state.idle() ==> state.drained() == state,
{
    assert(state.idle() ==> state.queue =~= Seq::empty());
}

/// A flush leaves no trace of what was flushed: two containers that agree
/// on whether a user is signed in, on whether an installation id is known
/// and on the profile treat the next admission alike once both are flushed,
/// whatever each held before. So a flushed container admits an event as one
/// that never held any.
pub proof fn lemma_flush_forgets_history(
    state: TelemetryState,
    other: TelemetryState,
    event: EventModel,
    enabled: bool,
    now: nat,
)
    requires
        state.metrics_id is Some <==> other.metrics_id is Some,
        state.installation_id is Some <==> other.installation_id is Some,
        state.profile == other.profile,
    ensures
        state.drained().report_outcome(event, enabled) == other.drained().report_outcome(
            event,
            enabled,
        ),
        state.drained().after_report(event, enabled, now).queue == other.drained().after_report(
            event,
            enabled,
            now,
        ).queue,
        state.drained().after_report(event, enabled, now).armed_at
            == other.drained().after_report(event, enabled, now).armed_at,
{
}

} // verus!
