//! Whole runs: the events a sequence of answers draws from the driver, and
//! what holds of every run.

use vstd::prelude::*;
use crate::artifact::{ArtifactKind, ProvisioningRequest};
use crate::pipeline::{
    Action, EventView, Feedback, PipelineState, action_fits, success_message, transition_of,
    write_failure_message,
};
use crate::step::{FailureKind, Step, StepOutcome, report_text};

verus! {

/// The state a run reaches from `state` on `feedbacks`, and the events it
/// reports on the way, in order.
pub open spec fn run_from(state: PipelineState, feedbacks: Seq<Feedback>) -> (
    PipelineState,
    Seq<EventView>,
)
    decreases feedbacks.len(),
{
    if feedbacks.len() == 0 {
        (state, Seq::empty())
    } else {
        let (next, event) = transition_of(state, feedbacks[0]);
        let (last, rest) = run_from(next, feedbacks.drop_first());
        match event {
            Some(e) => (last, seq![e] + rest),
            None => (last, rest),
        }
    }
}

/// Whether the answer reports a command that succeeded.
pub open spec fn command_succeeded(feedback: Feedback) -> bool {
    match feedback {
        Feedback::StepDone(o) => o.succeeded,
        _ => false,
    }
}

/// Whether `needle` occurs in `hay` as a contiguous piece.
pub open spec fn contains(hay: Seq<char>, needle: Seq<char>) -> bool {
    exists|i: int|
        0 <= i && i + needle.len() <= hay.len() && #[trigger] hay.subrange(i, i + needle.len())
            == needle
}

proof fn lemma_done_absorbs(feedbacks: Seq<Feedback>)
    ensures
        run_from(PipelineState::Done, feedbacks) == (PipelineState::Done, Seq::<EventView>::empty()),
    decreases feedbacks.len(),
{
    if feedbacks.len() > 0 {
        lemma_done_absorbs(feedbacks.drop_first());
    }
}

proof fn lemma_completion_last_from(state: PipelineState, feedbacks: Seq<Feedback>)
    ensures
        ({
            let (last, events) = run_from(state, feedbacks);
            &&& forall|i: int| 0 <= i < events.len() && #[trigger] events[i] is Complete ==> i
                == events.len() - 1
            &&& last == PipelineState::Done <==> (state == PipelineState::Done || (events.len() > 0
                && events.last() is Complete))
            &&& state == PipelineState::Done ==> events.len() == 0
        }),
    decreases feedbacks.len(),
{
    if feedbacks.len() == 0 {
    } else {
        let (next, event) = transition_of(state, feedbacks[0]);
        lemma_completion_last_from(next, feedbacks.drop_first());
        let (last, rest) = run_from(next, feedbacks.drop_first());
        match event {
            Some(e) => {
                let events = seq![e] + rest;
                assert(events[0] == e);
                assert forall|i: int| 1 <= i < events.len() implies events[i] == rest[i - 1] by {}
                if rest.len() > 0 {
                    assert(events.last() == rest.last());
                }
            },
            None => {},
        }
    }
}

/// Every run reports exactly one completion when it ends and none before:
/// a `Complete` event can only be the last event, and the run is over
/// exactly when its last event is one.
pub proof fn lemma_single_completion(feedbacks: Seq<Feedback>)
    ensures
        ({
            let (last, events) = run_from(PipelineState::Start, feedbacks);
            &&& forall|i: int| 0 <= i < events.len() && #[trigger] events[i] is Complete ==> i
                == events.len() - 1
            &&& last == PipelineState::Done <==> (events.len() > 0 && events.last() is Complete)
        }),
{
    lemma_completion_last_from(PipelineState::Start, feedbacks);
}

proof fn lemma_progress_rises_from(state: PipelineState, feedbacks: Seq<Feedback>)
    ensures
        ({
            let events = run_from(state, feedbacks).1;
            &&& forall|i: int| 0 <= i < events.len() && #[trigger] events[i] is Update ==> state.progress()
                < events[i]->tenths <= 9
            &&& forall|i: int, j: int|
                0 <= i < j < events.len() && #[trigger] events[i] is Update && #[trigger] events[j] is Update
                    ==> events[i]->tenths < events[j]->tenths
        }),
    decreases feedbacks.len(),
{
    if feedbacks.len() > 0 {
        let (next, event) = transition_of(state, feedbacks[0]);
        lemma_progress_rises_from(next, feedbacks.drop_first());
        let rest = run_from(next, feedbacks.drop_first()).1;
        match event {
            Some(e) => {
                let events = seq![e] + rest;
                assert forall|i: int| 1 <= i < events.len() implies events[i] == rest[i - 1] by {}
                if e is Update {
                    assert(next != PipelineState::Done);
                    assert(e->tenths == next.progress());
                }
            },
            None => {},
        }
    }
}

/// Progress never goes back within a run: the fractions reported rise
/// strictly, each between a tenth and nine tenths.
pub proof fn lemma_progress_rises(feedbacks: Seq<Feedback>)
    ensures
        ({
            let events = run_from(PipelineState::Start, feedbacks).1;
            &&& forall|i: int| 0 <= i < events.len() && #[trigger] events[i] is Update ==> 1
                <= events[i]->tenths <= 9
            &&& forall|i: int, j: int|
                0 <= i < j < events.len() && #[trigger] events[i] is Update && #[trigger] events[j] is Update
                    ==> events[i]->tenths < events[j]->tenths
        }),
{
    lemma_progress_rises_from(PipelineState::Start, feedbacks);
}

/// A run in which the artifacts are written and every command succeeds
/// reports progress at one, three, five, seven and nine tenths, then
/// completes successfully, and is over.
pub proof fn lemma_successful_run(feedbacks: Seq<Feedback>)
    requires
        feedbacks.len() == 6,
        feedbacks[0] is ArtifactsWritten,
        forall|i: int| 1 <= i < 6 ==> command_succeeded(#[trigger] feedbacks[i]),
    ensures
        run_from(PipelineState::Start, feedbacks) == (PipelineState::Done, seq![
            EventView::Update { description: "Step 1: Uploading configuration file..."@, tenths: 1 },
            EventView::Update { description: "Step 2: Uploading image file..."@, tenths: 3 },
            EventView::Update { description: "Step 3: Uploading WASM file..."@, tenths: 5 },
            EventView::Update { description: "Step 4: Uploading settings file..."@, tenths: 7 },
            EventView::Update { description: "Step 5: Running WASM application..."@, tenths: 9 },
            EventView::Complete(Ok(success_message())),
        ]),
{
    let f1 = feedbacks.drop_first();
    let f2 = f1.drop_first();
    let f3 = f2.drop_first();
    let f4 = f3.drop_first();
    let f5 = f4.drop_first();
    let f6 = f5.drop_first();
    assert(f1[0] == feedbacks[1]);
    assert(f2[0] == feedbacks[2]);
    assert(f3[0] == feedbacks[3]);
    assert(f4[0] == feedbacks[4]);
    assert(f5[0] == feedbacks[5]);
    assert(f6.len() == 0);
    assert(run_from(PipelineState::Done, f6).1 =~= Seq::empty());
    let e5 = run_from(PipelineState::RunWasm, f5).1;
    assert(e5 =~= seq![EventView::Complete(Ok(success_message()))]);
    let e4 = run_from(PipelineState::UploadSettings, f4).1;
    assert(e4 =~= seq![PipelineState::RunWasm.entered()] + e5);
    let e3 = run_from(PipelineState::UploadWasm, f3).1;
    assert(e3 =~= seq![PipelineState::UploadSettings.entered()] + e4);
    let e2 = run_from(PipelineState::UploadImage, f2).1;
    assert(e2 =~= seq![PipelineState::UploadWasm.entered()] + e3);
    let e1 = run_from(PipelineState::UploadConfig, f1).1;
    assert(e1 =~= seq![PipelineState::UploadImage.entered()] + e2);
    let e0 = run_from(PipelineState::Start, feedbacks).1;
    assert(e0 =~= seq![PipelineState::UploadConfig.entered()] + e1);
    assert(e0 =~= seq![
        EventView::Update { description: "Step 1: Uploading configuration file..."@, tenths: 1 },
        EventView::Update { description: "Step 2: Uploading image file..."@, tenths: 3 },
        EventView::Update { description: "Step 3: Uploading WASM file..."@, tenths: 5 },
        EventView::Update { description: "Step 4: Uploading settings file..."@, tenths: 7 },
        EventView::Update { description: "Step 5: Running WASM application..."@, tenths: 9 },
        EventView::Complete(Ok(success_message())),
    ]);
}

/// When a fatal step fails, whatever the kind of failure, the run reports
/// its failure at once, with the step's diagnostic text, and reports nothing
/// more whatever comes after.
pub proof fn lemma_fatal_failure_ends_run(
    state: PipelineState,
    outcome: StepOutcome,
    later: Seq<Feedback>,
)
    requires
        state.step() matches Some(step) && step.is_fatal(),
        !outcome.succeeded,
    ensures
        run_from(state, seq![Feedback::StepDone(outcome)] + later) == (PipelineState::Done, seq![
            EventView::Complete(Err(report_text(state.step()->0, outcome))),
        ]),
{
    let feedbacks = seq![Feedback::StepDone(outcome)] + later;
    assert(feedbacks[0] == Feedback::StepDone(outcome));
    assert(feedbacks.drop_first() =~= later);
    lemma_done_absorbs(later);
    assert(run_from(state, feedbacks).1 =~= seq![
        EventView::Complete(Err(report_text(state.step()->0, outcome))),
    ]);
}

/// A failed upload of the application bundle, whatever the kind of failure,
/// does not stop the run: it goes on to upload the settings and announces so.
pub proof fn lemma_bundle_failure_tolerated(outcome: StepOutcome)
    ensures
        transition_of(PipelineState::UploadWasm, Feedback::StepDone(outcome)) == (
            PipelineState::UploadSettings,
            Some(EventView::Update { description: "Step 4: Uploading settings file..."@, tenths: 7 }),
        ),
{
}

/// A command that ran out of time moves the run exactly as one that exited
/// with an error does: both end the run with a failure at a fatal step, and
/// both are passed over at the tolerated one.
pub proof fn lemma_timeout_as_failed_exit(state: PipelineState, timed_out: StepOutcome, failed: StepOutcome)
    requires
        !timed_out.succeeded,
        timed_out.failure_kind == Some(FailureKind::Timeout),
        !failed.succeeded,
        failed.failure_kind == Some(FailureKind::NonZeroExit),
    ensures
        transition_of(state, Feedback::StepDone(timed_out)).0 == transition_of(
            state,
            Feedback::StepDone(failed),
        ).0,
        transition_of(state, Feedback::StepDone(timed_out)).1 matches Some(EventView::Complete(r)) <==> transition_of(
            state,
            Feedback::StepDone(failed),
        ).1 matches Some(EventView::Complete(r2)),
        state.step() matches Some(step) && step.is_fatal() ==> transition_of(
            state,
            Feedback::StepDone(timed_out),
        ).1 matches Some(EventView::Complete(Err(_))),
{
}

/// When an artifact cannot be written the run fails at once, naming the
/// file, and is over before any command was asked for: the only action left
/// is to do nothing.
pub proof fn lemma_write_failure_ends_run(
    kind: ArtifactKind,
    later: Seq<Feedback>,
    request: ProvisioningRequest,
    action: Action,
)
    ensures
        run_from(PipelineState::Start, seq![Feedback::WriteFailed(kind)] + later) == (
            PipelineState::Done,
            seq![EventView::Complete(Err(write_failure_message(kind)))],
        ),
        contains(write_failure_message(kind), kind.path()),
        action_fits(PipelineState::Done, request, action) ==> action is Idle,
{
    let feedbacks = seq![Feedback::WriteFailed(kind)] + later;
    assert(feedbacks[0] == Feedback::WriteFailed(kind));
    assert(feedbacks.drop_first() =~= later);
    lemma_done_absorbs(later);
    assert(run_from(PipelineState::Start, feedbacks).1 =~= seq![
        EventView::Complete(Err(write_failure_message(kind))),
    ]);
    let msg = write_failure_message(kind);
    let at = ("Failed to write "@ + kind.describe() + ": "@).len() as int;
    assert(msg.subrange(at, at + kind.path().len()) =~= kind.path());
}

/// The diagnostic of a fatal step that failed to start or exited with an
/// error carries the program's error output word for word.
pub proof fn lemma_failure_report_carries_stderr(step: Step, outcome: StepOutcome)
    requires
        step.is_fatal(),
        !outcome.succeeded,
        outcome.failure_kind != Some(FailureKind::Timeout),
    ensures
        contains(report_text(step, outcome), outcome.stderr@),
{
    let err = outcome.stderr@;
    let text = report_text(step, outcome);
    match outcome.failure_kind {
        Some(FailureKind::SpawnError) => {
            let at = ("✗ "@ + step.subject() + " error: "@).len() as int;
            assert(text.subrange(at, at + err.len()) =~= err);
        },
        _ => {
            let head = "Configuration: fwi-serial "@ + step.completion_label()
                + " completed with exit status: "@ + crate::step::status_text(outcome.exit_status)
                + crate::step::stream_line("stdout"@, outcome.stdout@) + crate::step::stream_line(
                "stderr"@,
                err,
            ) + "\nConfiguration ERROR: ✗ "@ + step.subject() + " failed: "@;
            let at = head.len() as int;
            assert(text =~= head + err + crate::step::stopped_line());
            assert(text.subrange(at, at + err.len()) =~= err);
        },
    }
}

} // verus!
