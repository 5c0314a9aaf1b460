use build_a_badge::artifact::{ArtifactKind, ImageSelection, ProvisioningRequest};
use build_a_badge::led::LedMode;
use build_a_badge::pipeline::{Action, Feedback, Pipeline, PipelineState, ProgressEvent};
use build_a_badge::step::{FailureKind, Step, StepOutcome};

/// What a scripted run did: the artifacts it was asked to write, the
/// commands it was asked to run, and the events it reported.
struct Trace {
    written: Vec<(String, String)>,
    invoked: Vec<(Step, String, Vec<String>)>,
    events: Vec<ProgressEvent>,
}

/// Drives a run to its end, failing the given write if any, and answering
/// the commands with `outcomes` in order (success once they run out).
fn drive(request: ProvisioningRequest, failing_write: Option<ArtifactKind>, outcomes: Vec<StepOutcome>) -> Trace {
    let mut pipeline = Pipeline::new(request);
    let mut outcomes = outcomes.into_iter();
    let mut trace = Trace { written: Vec::new(), invoked: Vec::new(), events: Vec::new() };
    let mut rounds = 0;
    while !pipeline.is_done() {
        rounds += 1;
        assert!(rounds <= 6, "a run takes at most six answers");
        let feedback = match pipeline.action() {
            Action::WriteArtifacts { config, settings } => {
                trace.written.push((config, settings));
                match failing_write {
                    Some(kind) => Feedback::WriteFailed(kind),
                    None => Feedback::ArtifactsWritten,
                }
            }
            Action::Invoke { step, invocation } => {
                trace.invoked.push((step, invocation.program.clone(), invocation.args.clone()));
                Feedback::StepDone(
                    outcomes
                        .next()
                        .unwrap_or_else(|| StepOutcome::exited(Some(0), String::new(), String::new())),
                )
            }
            Action::Idle => unreachable!("a run that is not over has work pending"),
        };
        if let Some(event) = pipeline.advance(feedback) {
            trace.events.push(event);
        }
    }
    assert!(matches!(pipeline.action(), Action::Idle));
    trace
}

fn request(image: Option<ImageSelection>, led: Option<LedMode>, name: &str) -> ProvisioningRequest {
    ProvisioningRequest { image_selection: image, led_mode: led, badge_name: name.to_string() }
}

fn ok() -> StepOutcome {
    StepOutcome::exited(Some(0), String::new(), String::new())
}

fn failed(stderr: &str) -> StepOutcome {
    StepOutcome::exited(Some(1), String::new(), stderr.to_string())
}

fn tenths(events: &[ProgressEvent]) -> Vec<u8> {
    events
        .iter()
        .filter_map(|e| match e {
            ProgressEvent::StepUpdate { tenths, .. } => Some(*tenths),
            ProgressEvent::Complete(_) => None,
        })
        .collect()
}

fn assert_single_completion_last(events: &[ProgressEvent]) {
    let completes = events.iter().filter(|e| matches!(e, ProgressEvent::Complete(_))).count();
    assert_eq!(completes, 1);
    assert!(matches!(events.last(), Some(ProgressEvent::Complete(_))));
}

fn complete_error(events: &[ProgressEvent]) -> String {
    match events.last() {
        Some(ProgressEvent::Complete(Err(message))) => message.clone(),
        other => panic!("expected a failed completion, got {:?}", other),
    }
}

fn fatal_states() -> Vec<(Step, usize)> {
    vec![(Step::UploadConfig, 0), (Step::UploadImage, 1), (Step::UploadSettings, 3), (Step::RunWasm, 4)]
}

fn failures(stderr: &str) -> Vec<StepOutcome> {
    vec![failed(stderr), StepOutcome::spawn_failed(stderr.to_string()), StepOutcome::timed_out()]
}

#[test]
fn happy_path_reports_every_step_then_success() {
    let trace = drive(request(Some(ImageSelection::Puppy), Some(LedMode::RainbowChase), "Max"), None, vec![]);
    let descriptions: Vec<String> = trace
        .events
        .iter()
        .filter_map(|e| match e {
            ProgressEvent::StepUpdate { description, .. } => Some(description.clone()),
            ProgressEvent::Complete(_) => None,
        })
        .collect();
    assert_eq!(tenths(&trace.events), vec![1, 3, 5, 7, 9]);
    assert_eq!(
        descriptions,
        vec![
            "Step 1: Uploading configuration file...",
            "Step 2: Uploading image file...",
            "Step 3: Uploading WASM file...",
            "Step 4: Uploading settings file...",
            "Step 5: Running WASM application...",
        ]
    );
    assert_eq!(trace.events.len(), 6);
    match &trace.events[5] {
        ProgressEvent::Complete(Ok(message)) => assert_eq!(message, "Configuration completed successfully!"),
        other => panic!("unexpected last event {:?}", other),
    }
    assert_eq!(trace.written, vec![(
        "Max-WiLi\n4\n".to_string(),
        "wifiAPEn=1\nwifiAPssid=Max-WiLi\nwifiAPAuth=0\nbtEn=1\nbtAPen=Max-WiLi\nbtTerm=1\n".to_string(),
    )]);
    let steps: Vec<Step> = trace.invoked.iter().map(|(s, _, _)| *s).collect();
    assert_eq!(steps, vec![Step::UploadConfig, Step::UploadImage, Step::UploadWasm, Step::UploadSettings, Step::RunWasm]);
    assert!(trace.invoked.iter().all(|(_, program, _)| program == "fwi-serial"));
    assert_eq!(trace.invoked[0].2, vec!["-s", "build_a_badge.txt", "-fn", "/build_a_badge.txt", "-mi", "1"]);
    assert_eq!(trace.invoked[1].2, vec!["-s", "assets/puppy.fwi", "-fn", "/images/build_a_badge.fwi"]);
    assert_eq!(trace.invoked[2].2, vec!["-s", "build_a_badge.wasm"]);
    assert_eq!(trace.invoked[3].2, vec!["-s", "settings.txt", "-fn", "/settings.txt", "-mi", "1"]);
    assert_eq!(trace.invoked[4].2, vec!["-w", "build_a_badge.wasm"]);
}

#[test]
fn successful_runs_report_the_fixed_fractions() {
    for name in ["", "A1", "ZylonFan23"] {
        for led in [None, Some(LedMode::Manual), Some(LedMode::Accel)] {
            let trace = drive(request(None, led, name), None, vec![ok(), ok(), ok(), ok(), ok()]);
            assert_eq!(tenths(&trace.events), vec![1, 3, 5, 7, 9]);
            assert!(matches!(trace.events.last(), Some(ProgressEvent::Complete(Ok(_)))));
            assert_single_completion_last(&trace.events);
        }
    }
}

#[test]
fn early_fatal_failure_stops_before_the_image() {
    let trace = drive(request(None, None, "Max"), None, vec![failed("device not found")]);
    assert_eq!(trace.events.len(), 2);
    assert_eq!(tenths(&trace.events), vec![1]);
    assert!(complete_error(&trace.events).contains("device not found"));
    assert_eq!(trace.invoked.len(), 1);
    assert_eq!(trace.invoked[0].0, Step::UploadConfig);
}

#[test]
fn early_fatal_failure_message_is_the_aggregated_report() {
    let trace = drive(request(None, None, "Max"), None, vec![failed("device not found")]);
    assert_eq!(
        complete_error(&trace.events),
        "Configuration: fwi-serial command completed with exit status: 1\n\
         Configuration: stderr: device not found\n\
         Configuration ERROR: ✗ Configuration upload failed: device not found\n\
         Configuration stopped due to error."
    );
}

#[test]
fn bundle_spawn_failure_is_tolerated() {
    let outcomes = vec![ok(), ok(), StepOutcome::spawn_failed("No such file or directory".to_string())];
    let trace = drive(request(Some(ImageSelection::Doge), Some(LedMode::Zylon), "Max"), None, outcomes);
    match &trace.events[3] {
        ProgressEvent::StepUpdate { description, tenths } => {
            assert_eq!(description, "Step 4: Uploading settings file...");
            assert_eq!(*tenths, 7);
        }
        other => panic!("unexpected event {:?}", other),
    }
    assert_eq!(trace.invoked[3].0, Step::UploadSettings);
    assert!(matches!(trace.events.last(), Some(ProgressEvent::Complete(Ok(_)))));
}

#[test]
fn bundle_failure_of_any_kind_continues() {
    for outcome in failures("no bundle") {
        let mut pipeline = Pipeline::new(request(None, None, ""));
        assert!(pipeline.advance(Feedback::ArtifactsWritten).is_some());
        assert!(pipeline.advance(Feedback::StepDone(ok())).is_some());
        assert!(pipeline.advance(Feedback::StepDone(ok())).is_some());
        assert_eq!(pipeline.state(), PipelineState::UploadWasm);
        match pipeline.advance(Feedback::StepDone(outcome)) {
            Some(ProgressEvent::StepUpdate { description, tenths }) => {
                assert_eq!(description, "Step 4: Uploading settings file...");
                assert_eq!(tenths, 7);
            }
            other => panic!("unexpected event {:?}", other),
        }
        assert_eq!(pipeline.state(), PipelineState::UploadSettings);
    }
}

#[test]
fn config_write_failure_completes_with_the_file_name() {
    let trace = drive(request(None, None, "Max"), Some(ArtifactKind::Config), vec![]);
    assert_eq!(trace.events.len(), 1);
    assert_eq!(complete_error(&trace.events), "Failed to write configuration file: build_a_badge.txt");
    assert!(trace.invoked.is_empty());
}

#[test]
fn settings_write_failure_completes_with_the_file_name() {
    let trace = drive(request(None, None, "Max"), Some(ArtifactKind::Settings), vec![]);
    assert_eq!(trace.events.len(), 1);
    assert_eq!(complete_error(&trace.events), "Failed to write settings file: settings.txt");
    assert!(trace.invoked.is_empty());
}

#[test]
fn timeout_is_fatal_like_a_failed_exit() {
    for (step, index) in fatal_states() {
        let mut before = vec![ok(); index];
        let mut with_timeout = before.clone();
        with_timeout.push(StepOutcome::timed_out());
        before.push(failed("boom"));
        let timed = drive(request(None, None, "Max"), None, with_timeout);
        let exited = drive(request(None, None, "Max"), None, before);
        assert_eq!(timed.events.len(), exited.events.len());
        assert_eq!(timed.invoked.len(), exited.invoked.len());
        assert_eq!(timed.invoked.last().map(|i| i.0), Some(step));
        assert!(complete_error(&timed.events).contains("timed out (30 seconds)"));
        assert_single_completion_last(&timed.events);
    }
}

#[test]
fn fatal_failures_end_the_run_at_once() {
    for (step, index) in fatal_states() {
        for outcome in failures("device not found") {
            let mut outcomes = vec![ok(); index];
            outcomes.push(outcome);
            let trace = drive(request(None, None, "Max"), None, outcomes);
            assert_eq!(trace.invoked.len(), index + 1);
            assert_eq!(trace.invoked.last().map(|i| i.0), Some(step));
            let expected_updates: Vec<u8> = vec![1, 3, 5, 7, 9].into_iter().take(index + 1).collect();
            assert_eq!(tenths(&trace.events), expected_updates);
            complete_error(&trace.events);
            assert_single_completion_last(&trace.events);
        }
    }
}

#[test]
fn finished_run_ignores_further_answers() {
    let mut pipeline = Pipeline::new(request(None, None, "Max"));
    assert!(pipeline.advance(Feedback::ArtifactsWritten).is_some());
    assert!(matches!(pipeline.advance(Feedback::StepDone(failed("x"))), Some(ProgressEvent::Complete(Err(_)))));
    assert!(pipeline.is_done());
    assert!(pipeline.advance(Feedback::StepDone(ok())).is_none());
    assert!(pipeline.advance(Feedback::ArtifactsWritten).is_none());
    assert!(pipeline.advance(Feedback::WriteFailed(ArtifactKind::Config)).is_none());
    assert_eq!(pipeline.state(), PipelineState::Done);
    assert!(matches!(pipeline.action(), Action::Idle));
}

#[test]
fn answers_that_do_not_fit_are_ignored() {
    let mut pipeline = Pipeline::new(request(None, None, "Max"));
    assert!(pipeline.advance(Feedback::StepDone(ok())).is_none());
    assert_eq!(pipeline.state(), PipelineState::Start);
    assert!(pipeline.advance(Feedback::ArtifactsWritten).is_some());
    assert!(pipeline.advance(Feedback::ArtifactsWritten).is_none());
    assert!(pipeline.advance(Feedback::WriteFailed(ArtifactKind::Settings)).is_none());
    assert_eq!(pipeline.state(), PipelineState::UploadConfig);
}

#[test]
fn outcome_constructors_classify() {
    let zero = StepOutcome::exited(Some(0), "out".to_string(), String::new());
    assert!(zero.succeeded);
    assert_eq!(zero.failure_kind, None);
    let one = StepOutcome::exited(Some(1), String::new(), "err".to_string());
    assert!(!one.succeeded);
    assert_eq!(one.failure_kind, Some(FailureKind::NonZeroExit));
    let signalled = StepOutcome::exited(None, String::new(), String::new());
    assert!(!signalled.succeeded);
    assert_eq!(signalled.failure_kind, Some(FailureKind::NonZeroExit));
    let spawn = StepOutcome::spawn_failed("missing".to_string());
    assert_eq!(spawn.failure_kind, Some(FailureKind::SpawnError));
    assert_eq!(spawn.stderr, "missing");
    let timeout = StepOutcome::timed_out();
    assert_eq!(timeout.failure_kind, Some(FailureKind::Timeout));
    assert!(!timeout.succeeded);
}
