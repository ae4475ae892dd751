use vstd::prelude::*;
use crate::access::AccessStatus;
use crate::controller::{admissible, AudioStateView, CaptureStatus, Command, JoinOutcome};
use crate::error::CaptureError;
use crate::speaker::SpeakerInput;

verus! {

/// Every command takes a consistent state to a consistent state.
pub proof fn lemma_step_keeps_consistency(s: AudioStateView, c: Command)
    requires
        s.consistent(),
        admissible(c),
    ensures
        s.apply(c).consistent(),
{
    match c {
        Command::Start { access, opened, task } => {
            if let Ok(input) = opened {
                input.lemma_wf_rate();
            }
        },
        _ => {},
    }
}

/// In every state that any run of commands reaches from the initial state,
/// the capturing flag is set exactly when a task is present.
pub proof fn lemma_flag_iff_task_in_reachable_states(commands: Seq<Command>)
    requires
        forall|i: int| 0 <= i < commands.len() ==> admissible(#[trigger] commands[i]),
    ensures
        AudioStateView::initial().after(commands).consistent(),
        AudioStateView::initial().after(commands).is_capturing
            <==> AudioStateView::initial().after(commands).stream_task.is_some(),
    decreases commands.len(),
{
    if commands.len() > 0 {
        lemma_flag_iff_task_in_reachable_states(commands.drop_last());
        lemma_step_keeps_consistency(
            AudioStateView::initial().after(commands.drop_last()),
            commands.last(),
        );
    }
}

/// A start that follows a successful start, with no stop between them, is
/// refused with `AlreadyCapturing` and leaves the first session in place.
pub proof fn lemma_second_start_is_refused(
    s: AudioStateView,
    access1: AccessStatus,
    opened1: Result<SpeakerInput, CaptureError>,
    task1: u64,
    access2: AccessStatus,
    opened2: Result<SpeakerInput, CaptureError>,
    task2: u64,
)
    requires
        s.consistent(),
        s.start_result(access1, opened1) is Ok,
    ensures
        s.started(access1, opened1, task1).start_result(access2, opened2) == Err::<
            SpeakerInput,
            CaptureError,
        >(CaptureError::AlreadyCapturing),
        s.started(access1, opened1, task1).started(access2, opened2, task2) == s.started(
            access1,
            opened1,
            task1,
        ),
        s.started(access1, opened1, task1).stream_task == Some(task1),
{
}

/// A stop on an idle controller changes nothing and reports no error,
/// however the wait is said to have ended.
pub proof fn lemma_stop_when_idle_is_a_no_op(s: AudioStateView, outcome: JoinOutcome)
    requires
        s.consistent(),
        s.status() == CaptureStatus::Idle,
    ensures
        s.stopping() == s,
        s.cleared() == s,
        s.stop_result(outcome) == Ok::<(), CaptureError>(()),
{
}

/// After a start that succeeds the status is `Capturing`; after a stop has
/// completed it is `Idle`, also where the wait timed out.
pub proof fn lemma_status_after_start_and_stop(
    s: AudioStateView,
    access: AccessStatus,
    opened: Result<SpeakerInput, CaptureError>,
    task: u64,
)
    requires
        s.consistent(),
    ensures
        s.start_result(access, opened) is Ok ==> s.started(access, opened, task).status()
            == CaptureStatus::Capturing,
        s.start_result(access, opened) is Err ==> s.started(access, opened, task) == s,
        s.stopping().cleared().status() == CaptureStatus::Idle,
        s.cleared().status() == CaptureStatus::Idle,
        s.status() != CaptureStatus::Idle ==> s.stopping().status() == CaptureStatus::Stopping,
{
}

/// When the stream of the active session ends by itself, the status goes
/// from `Capturing` to `Idle` with no stop, and the next start succeeds.
pub proof fn lemma_stream_failure_frees_the_controller(
    s: AudioStateView,
    task: u64,
    access: AccessStatus,
    input: SpeakerInput,
    next_task: u64,
)
    requires
        s.consistent(),
        s.status() == CaptureStatus::Capturing,
        s.stream_task == Some(task),
        access != AccessStatus::Denied,
        input.wf(),
    ensures
        s.stream_ended(task).status() == CaptureStatus::Idle,
        s.stream_ended(task).consistent(),
        s.stream_ended(task).start_result(access, Ok(input)) == Ok::<SpeakerInput, CaptureError>(
            input,
        ),
        s.stream_ended(task).started(access, Ok(input), next_task).status()
            == CaptureStatus::Capturing,
        s.stream_ended(task).started(access, Ok(input), next_task).stream_task == Some(next_task),
{
    input.lemma_wf_rate();
}

/// A start that nothing but an active session would refuse.
pub open spec fn is_willing_start(c: Command) -> bool {
    match c {
        Command::Start { access, opened, task } => access != AccessStatus::Denied && opened is Ok
            && opened->Ok_0.wf(),
        _ => false,
    }
}

/// What the start command `c` returns in state `s`.
pub open spec fn start_answer(s: AudioStateView, c: Command) -> Result<SpeakerInput, CaptureError>
    recommends
        c is Start,
{
    s.start_result(c->Start_access, c->Start_opened)
}

proof fn lemma_starts_collapse(s: AudioStateView, starts: Seq<Command>)
    requires
        s.consistent(),
        s.status() == CaptureStatus::Idle,
        starts.len() > 0,
        forall|i: int| 0 <= i < starts.len() ==> is_willing_start(#[trigger] starts[i]),
    ensures
        s.after(starts) == s.apply(starts[0]),
        s.after(starts).is_capturing,
    decreases starts.len(),
{
    assert(is_willing_start(starts[0]));
    if starts.len() == 1 {
        assert(starts.drop_last().len() == 0);
        assert(s.after(starts.drop_last()) == s);
    } else {
        assert(is_willing_start(starts.last()));
        lemma_starts_collapse(s, starts.drop_last());
    }
}

/// However many callers start at once, their starts take effect one after
/// another in some order. Whatever that order, the first start succeeds and
/// every later one is refused with `AlreadyCapturing`, so that the state
/// after all of them is the state after the first: one session, one task.
pub proof fn lemma_only_the_first_start_wins(s: AudioStateView, starts: Seq<Command>, k: int)
    requires
        s.consistent(),
        s.status() == CaptureStatus::Idle,
        forall|i: int| 0 <= i < starts.len() ==> is_willing_start(#[trigger] starts[i]),
        0 < k < starts.len(),
    ensures
        start_answer(s, starts[0]) is Ok,
        start_answer(s.after(starts.take(k)), starts[k]) == Err::<SpeakerInput, CaptureError>(
            CaptureError::AlreadyCapturing,
        ),
        s.after(starts) == s.apply(starts[0]),
        s.after(starts).stream_task == Some(starts[0]->Start_task),
{
    assert(is_willing_start(starts[0]));
    assert(is_willing_start(starts[k]));
    lemma_starts_collapse(s, starts);
    let prefix = starts.take(k);
    assert forall|i: int| 0 <= i < prefix.len() implies is_willing_start(#[trigger] prefix[i]) by {
        assert(prefix[i] == starts[i]);
    }
    lemma_starts_collapse(s, prefix);
}

} // verus!
