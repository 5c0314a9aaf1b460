//! The state machine that drives one provisioning run.
//!
//! The driver never performs I/O itself. In each state it names the action the
//! caller must carry out (write the artifacts, run one command, or nothing
//! once the run is over), and the caller hands back what came of it. Each
//! answer moves the driver on and yields at most one progress event.

use vstd::prelude::*;
use crate::artifact::{
    ArtifactKind, ProvisioningRequest, config_text, create_config_content,
    create_settings_content, settings_text,
};
use crate::step::{
    Invocation, Step, StepOutcome, arg_texts, report_text, step_report, transport_program,
};

verus! {

/// Where a run stands. Runs go through these in order; a fatal failure jumps
/// to `Done`, which nothing leaves.
#[derive(Debug, Clone, Copy, PartialEq, Eq, Structural)]
pub enum PipelineState {
    Start,
    UploadConfig,
    UploadImage,
    UploadWasm,
    UploadSettings,
    RunWasm,
    Done,
}

/// What a run reports to its caller, in order. Progress is counted in tenths.
#[derive(Debug)]
pub enum ProgressEvent {
    StepUpdate { description: String, tenths: u8 },
    Complete(Result<String, String>),
}

/// The mathematical form of a progress event.
pub enum EventView {
    Update { description: Seq<char>, tenths: nat },
    Complete(Result<Seq<char>, Seq<char>>),
}

impl View for ProgressEvent {
    type V = EventView;

    open spec fn view(&self) -> EventView {
        match self {
            ProgressEvent::StepUpdate { description, tenths } => EventView::Update {
                description: description@,
                tenths: *tenths as nat,
            },
            ProgressEvent::Complete(Ok(m)) => EventView::Complete(Ok(m@)),
            ProgressEvent::Complete(Err(m)) => EventView::Complete(Err(m@)),
        }
    }
}

/// What the caller reports back after carrying out an action.
#[derive(Debug, Clone)]
pub enum Feedback {
    /// Both artifacts were written.
    ArtifactsWritten,
    /// Writing the given artifact failed; the ones after it were not attempted.
    WriteFailed(ArtifactKind),
    /// The pending command finished this way.
    StepDone(StepOutcome),
}

/// What the driver asks the caller to do next.
#[derive(Debug, Clone)]
pub enum Action {
    /// Write `config` to the configuration file, then `settings` to the settings file.
    WriteArtifacts { config: String, settings: String },
    /// Run this command and report its outcome.
    Invoke { step: Step, invocation: Invocation },
    /// The run is over: nothing more is to be done.
    Idle,
}

/// The message of a successful run.
pub open spec fn success_message() -> Seq<char> {
    "Configuration completed successfully!"@
}

/// The message of a run whose artifact could not be written.
pub open spec fn write_failure_message(kind: ArtifactKind) -> Seq<char> {
    "Failed to write "@ + kind.describe() + ": "@ + kind.path()
}

impl PipelineState {
    /// The command run in this state, if any.
    pub open spec fn step(self) -> Option<Step> {
        match self {
            PipelineState::UploadConfig => Some(Step::UploadConfig),
            PipelineState::UploadImage => Some(Step::UploadImage),
            PipelineState::UploadWasm => Some(Step::UploadWasm),
            PipelineState::UploadSettings => Some(Step::UploadSettings),
            PipelineState::RunWasm => Some(Step::RunWasm),
            _ => None,
        }
    }

    /// The state after this one when nothing goes wrong.
    pub open spec fn successor(self) -> PipelineState {
        match self {
            PipelineState::Start => PipelineState::UploadConfig,
            PipelineState::UploadConfig => PipelineState::UploadImage,
            PipelineState::UploadImage => PipelineState::UploadWasm,
            PipelineState::UploadWasm => PipelineState::UploadSettings,
            PipelineState::UploadSettings => PipelineState::RunWasm,
            _ => PipelineState::Done,
        }
    }

    /// Tenths of the run done once this state is entered.
    pub open spec fn progress(self) -> nat {
        match self {
            PipelineState::Start => 0,
            PipelineState::UploadConfig => 1,
            PipelineState::UploadImage => 3,
            PipelineState::UploadWasm => 5,
            PipelineState::UploadSettings => 7,
            PipelineState::RunWasm => 9,
            PipelineState::Done => 10,
        }
    }

    /// The description announced on entering this state.
    pub open spec fn announcement(self) -> Seq<char> {
        match self {
            PipelineState::UploadConfig => "Step 1: Uploading configuration file..."@,
            PipelineState::UploadImage => "Step 2: Uploading image file..."@,
            PipelineState::UploadWasm => "Step 3: Uploading WASM file..."@,
            PipelineState::UploadSettings => "Step 4: Uploading settings file..."@,
            PipelineState::RunWasm => "Step 5: Running WASM application..."@,
            _ => Seq::empty(),
        }
    }

    /// The event that reports entering this state.
    pub open spec fn entered(self) -> EventView {
        if self == PipelineState::Done {
            EventView::Complete(Ok(success_message()))
        } else {
            EventView::Update { description: self.announcement(), tenths: self.progress() }
        }
    }
}

/// One move of the driver: the state it goes to and the event it reports.
/// Feedback that does not answer the state's pending action changes nothing.
pub open spec fn transition_of(state: PipelineState, feedback: Feedback) -> (
    PipelineState,
    Option<EventView>,
) {
    match feedback {
        Feedback::ArtifactsWritten => if state == PipelineState::Start {
            (PipelineState::UploadConfig, Some(PipelineState::UploadConfig.entered()))
        } else {
            (state, None)
        },
        Feedback::WriteFailed(kind) => if state == PipelineState::Start {
            (PipelineState::Done, Some(EventView::Complete(Err(write_failure_message(kind)))))
        } else {
            (state, None)
        },
        Feedback::StepDone(outcome) => match state.step() {
            Some(step) => if outcome.succeeded || !step.is_fatal() {
                (state.successor(), Some(state.successor().entered()))
            } else {
                (PipelineState::Done, Some(EventView::Complete(Err(report_text(step, outcome)))))
            },
            None => (state, None),
        },
    }
}

/// The action pending in a state, for a request.
pub open spec fn action_fits(state: PipelineState, request: ProvisioningRequest, a: Action) -> bool {
    match state {
        PipelineState::Start => a matches Action::WriteArtifacts { config, settings } && config@
            == config_text(request.led_mode, request.badge_name@) && settings@ == settings_text(
            request.badge_name@,
        ),
        PipelineState::Done => a is Idle,
        _ => a matches Action::Invoke { step, invocation } && state.step() == Some(step)
            && invocation.program@ == transport_program() && arg_texts(invocation.args@)
            == step.args(request.image_selection),
    }
}

impl PipelineState {
    fn step_of(&self) -> (r: Option<Step>)
        ensures
            r == self.step(),
    {
        match self {
            PipelineState::UploadConfig => Some(Step::UploadConfig),
            PipelineState::UploadImage => Some(Step::UploadImage),
            PipelineState::UploadWasm => Some(Step::UploadWasm),
            PipelineState::UploadSettings => Some(Step::UploadSettings),
            PipelineState::RunWasm => Some(Step::RunWasm),
            _ => None,
        }
    }

    fn successor_of(&self) -> (r: PipelineState)
        ensures
            r == self.successor(),
    {
        match self {
            PipelineState::Start => PipelineState::UploadConfig,
            PipelineState::UploadConfig => PipelineState::UploadImage,
            PipelineState::UploadImage => PipelineState::UploadWasm,
            PipelineState::UploadWasm => PipelineState::UploadSettings,
            PipelineState::UploadSettings => PipelineState::RunWasm,
            _ => PipelineState::Done,
        }
    }

    /// The event that reports entering this state.
    pub fn entered_event(&self) -> (r: ProgressEvent)
        requires
            *self != PipelineState::Start,
        ensures
            r@ == self.entered(),
    {
        match self {
            PipelineState::UploadConfig => ProgressEvent::StepUpdate {
                description: String::from_str("Step 1: Uploading configuration file..."),
                tenths: 1,
            },
            PipelineState::UploadImage => ProgressEvent::StepUpdate {
                description: String::from_str("Step 2: Uploading image file..."),
                tenths: 3,
            },
            PipelineState::UploadWasm => ProgressEvent::StepUpdate {
                description: String::from_str("Step 3: Uploading WASM file..."),
                tenths: 5,
            },
            PipelineState::UploadSettings => ProgressEvent::StepUpdate {
                description: String::from_str("Step 4: Uploading settings file..."),
                tenths: 7,
            },
            PipelineState::RunWasm => ProgressEvent::StepUpdate {
                description: String::from_str("Step 5: Running WASM application..."),
                tenths: 9,
            },
            PipelineState::Done => ProgressEvent::Complete(
                Ok(String::from_str("Configuration completed successfully!")),
            ),
            PipelineState::Start => unreached(),
        }
    }
}

/// The view of an optional event.
pub open spec fn event_views(e: Option<ProgressEvent>) -> Option<EventView> {
    match e {
        Some(ev) => Some(ev@),
        None => None,
    }
}

fn write_failure_text(kind: ArtifactKind) -> (r: String)
    ensures
        r@ == write_failure_message(kind),
{
    let mut out = String::from_str("Failed to write ");
    out.append(kind.description());
    out.append(": ");
    out.append(kind.file_name());
    out
}

/// Moves a run on by one answer from the caller.
pub fn transition(state: PipelineState, feedback: Feedback) -> (r: (
    PipelineState,
    Option<ProgressEvent>,
))
    ensures
        r.0 == transition_of(state, feedback).0,
        event_views(r.1) == transition_of(state, feedback).1,
{
    match feedback {
        Feedback::ArtifactsWritten => {
            if state == PipelineState::Start {
                (PipelineState::UploadConfig, Some(PipelineState::UploadConfig.entered_event()))
            } else {
                (state, None)
            }
        },
        Feedback::WriteFailed(kind) => {
            if state == PipelineState::Start {
                (PipelineState::Done, Some(ProgressEvent::Complete(Err(write_failure_text(kind)))))
            } else {
                (state, None)
            }
        },
        Feedback::StepDone(outcome) => {
            match state.step_of() {
                Some(step) => {
                    if outcome.succeeded || !step.is_fatal_step() {
                        let next = state.successor_of();
                        (next, Some(next.entered_event()))
                    } else {
                        let report = step_report(step, &outcome);
                        (PipelineState::Done, Some(ProgressEvent::Complete(Err(report))))
                    }
                },
                None => (state, None),
            }
        },
    }
}

/// The action pending in `state` for `request`.
pub fn next_action(state: PipelineState, request: &ProvisioningRequest) -> (r: Action)
    ensures
        action_fits(state, *request, r),
{
    match state.step_of() {
        Some(step) => Action::Invoke { step, invocation: step.invocation(request.image_selection) },
        None => if state == PipelineState::Start {
            Action::WriteArtifacts {
                config: create_config_content(request.led_mode, request.badge_name.clone()),
                settings: create_settings_content(request.badge_name.clone()),
            }
        } else {
            Action::Idle
        },
    }
}

/// One run in progress: the request it serves and where it stands.
///
/// A new run is a new value; a finished one stays `Done`. Only one run should
/// be in flight at a time, since all runs write the same local files; keeping
/// to that is up to the caller.
#[derive(Debug)]
pub struct Pipeline {
    state: PipelineState,
    request: ProvisioningRequest,
}

impl Pipeline {
    /// Where the run stands.
    pub closed spec fn current(&self) -> PipelineState {
        self.state
    }

    /// The request the run serves.
    pub closed spec fn served(&self) -> ProvisioningRequest {
        self.request
    }

    /// Starts a run for `request`.
    pub fn new(request: ProvisioningRequest) -> (r: Pipeline)
        ensures
            r.current() == PipelineState::Start,
            r.served() == request,
    {
        Pipeline { state: PipelineState::Start, request }
    }

    pub fn state(&self) -> (r: PipelineState)
        ensures
            r == self.current(),
    {
        self.state
    }

    pub fn request(&self) -> (r: &ProvisioningRequest)
        ensures
            *r == self.served(),
    {
        &self.request
    }

    /// Whether the run is over.
    pub fn is_done(&self) -> (r: bool)
        ensures
            r == (self.current() == PipelineState::Done),
    {
        self.state == PipelineState::Done
    }

    /// What the caller must do next.
    pub fn action(&self) -> (r: Action)
        ensures
            action_fits(self.current(), self.served(), r),
    {
        next_action(self.state, &self.request)
    }

    /// Takes the caller's answer to the pending action and reports the event
    /// it gives rise to, if any.
    pub fn advance(&mut self, feedback: Feedback) -> (r: Option<ProgressEvent>)
        ensures
            final(self).current() == transition_of(old(self).current(), feedback).0,
            event_views(r) == transition_of(old(self).current(), feedback).1,
            final(self).served() == old(self).served(),
    {
        let (next, event) = transition(self.state, feedback);
        self.state = next;
        event
    }
}

} // verus!
