//! The external commands of a run and what their outcomes are made to say.

use vstd::prelude::*;
use crate::artifact::{ImageSelection, image_asset_path, image_path};
use crate::text::{int_text, push_signed_decimal};

verus! {

/// The transport utility, looked up on the executable search path.
pub open spec fn transport_program() -> Seq<char> {
    "fwi-serial"@
}

/// Upper bound, in seconds, on the wait for one invocation.
pub const STEP_TIMEOUT_SECS: u64 = 30;

/// One invocation of the transport utility in a run.
#[derive(Debug, Clone, Copy, PartialEq, Eq, Structural)]
pub enum Step {
    UploadConfig,
    UploadImage,
    UploadWasm,
    UploadSettings,
    RunWasm,
}

/// Why an invocation did not succeed.
#[derive(Debug, Clone, Copy, PartialEq, Eq, Structural)]
pub enum FailureKind {
    /// The program could not be started.
    SpawnError,
    /// The program ran and exited with a status other than zero.
    NonZeroExit,
    /// The program did not finish within the time bound.
    Timeout,
}

/// The result of one invocation, with its captured output decoded as text.
#[derive(Debug, Clone)]
pub struct StepOutcome {
    pub succeeded: bool,
    pub exit_status: Option<i32>,
    pub stdout: String,
    pub stderr: String,
    pub failure_kind: Option<FailureKind>,
}

/// A command line: the program and its arguments in order.
#[derive(Debug, Clone)]
pub struct Invocation {
    pub program: String,
    pub args: Vec<String>,
    pub timeout_secs: u64,
}

/// The text of each argument, in order.
pub open spec fn arg_texts(args: Seq<String>) -> Seq<Seq<char>> {
    args.map_values(|a: String| a@)
}

impl Step {
    /// Whether a failure of this step ends the run.
    pub open spec fn is_fatal(self) -> bool {
        self != Step::UploadWasm
    }

    /// The arguments handed to the transport utility.
    pub open spec fn args(self, image: Option<ImageSelection>) -> Seq<Seq<char>> {
        match self {
            Step::UploadConfig => seq![
                "-s"@,
                "build_a_badge.txt"@,
                "-fn"@,
                "/build_a_badge.txt"@,
                "-mi"@,
                "1"@,
            ],
            Step::UploadImage => seq!["-s"@, image_path(image), "-fn"@, "/images/build_a_badge.fwi"@],
            Step::UploadWasm => seq!["-s"@, "build_a_badge.wasm"@],
            Step::UploadSettings => seq![
                "-s"@,
                "settings.txt"@,
                "-fn"@,
                "/settings.txt"@,
                "-mi"@,
                "1"@,
            ],
            Step::RunWasm => seq!["-w"@, "build_a_badge.wasm"@],
        }
    }

    /// How the completion of this step's command is announced.
    pub open spec fn completion_label(self) -> Seq<char> {
        match self {
            Step::UploadConfig => "command"@,
            Step::UploadImage => "image upload"@,
            Step::UploadWasm => "WASM upload"@,
            Step::UploadSettings => "settings upload"@,
            Step::RunWasm => "WASM run"@,
        }
    }

    /// What this step is called when it fails.
    pub open spec fn subject(self) -> Seq<char> {
        match self {
            Step::UploadConfig => "Configuration upload"@,
            Step::UploadImage => "Image upload"@,
            Step::UploadWasm => "WASM upload"@,
            Step::UploadSettings => "Settings upload"@,
            Step::RunWasm => "WASM execution"@,
        }
    }

    /// The note written when this step succeeds.
    pub open spec fn success_note(self) -> Seq<char> {
        match self {
            Step::UploadConfig => "✓ Configuration file uploaded successfully\nStep 2: Uploading image file..."@,
            Step::UploadImage => "✓ Image file uploaded successfully\nStep 3: Uploading WASM file..."@,
            Step::UploadWasm => "✓ WASM file uploaded successfully\nStep 4: Uploading settings file..."@,
            Step::UploadSettings => "✓ Settings file uploaded successfully"@,
            Step::RunWasm => "✓ WASM application executed successfully"@,
        }
    }

    pub fn invocation(&self, image: Option<ImageSelection>) -> (r: Invocation)
        ensures
            r.program@ == transport_program(),
            arg_texts(r.args@) == self.args(image),
            r.timeout_secs == STEP_TIMEOUT_SECS,
    {
        let mut args: Vec<String> = Vec::new();
        match self {
            Step::UploadConfig => {
                push_arg(&mut args, "-s");
                push_arg(&mut args, "build_a_badge.txt");
                push_arg(&mut args, "-fn");
                push_arg(&mut args, "/build_a_badge.txt");
                push_arg(&mut args, "-mi");
                push_arg(&mut args, "1");
            },
            Step::UploadImage => {
                push_arg(&mut args, "-s");
                push_arg(&mut args, image_asset_path(image));
                push_arg(&mut args, "-fn");
                push_arg(&mut args, "/images/build_a_badge.fwi");
            },
            Step::UploadWasm => {
                push_arg(&mut args, "-s");
                push_arg(&mut args, "build_a_badge.wasm");
            },
            Step::UploadSettings => {
                push_arg(&mut args, "-s");
                push_arg(&mut args, "settings.txt");
                push_arg(&mut args, "-fn");
                push_arg(&mut args, "/settings.txt");
                push_arg(&mut args, "-mi");
                push_arg(&mut args, "1");
            },
            Step::RunWasm => {
                push_arg(&mut args, "-w");
                push_arg(&mut args, "build_a_badge.wasm");
            },
        }
        assert(arg_texts(args@) =~= self.args(image));
        Invocation { program: String::from_str("fwi-serial"), args, timeout_secs: STEP_TIMEOUT_SECS }
    }
}

fn push_arg(args: &mut Vec<String>, a: &str)
    ensures
        arg_texts(final(args)@) == arg_texts(old(args)@).push(a@),
{
    args.push(String::from_str(a));
    assert(arg_texts(args@) =~= arg_texts(old(args)@).push(a@));
}

impl StepOutcome {
    /// The program ran to completion with the given exit status (none when a
    /// signal ended it); it succeeded exactly when the status is zero.
    pub fn exited(exit_status: Option<i32>, stdout: String, stderr: String) -> (r: StepOutcome)
        ensures
            r.succeeded == (exit_status == Some(0i32)),
            r.exit_status == exit_status,
            r.stdout == stdout,
            r.stderr == stderr,
            r.failure_kind == (if r.succeeded {
                None
            } else {
                Some(FailureKind::NonZeroExit)
            }),
    {
        let succeeded = match exit_status {
            Some(code) => code == 0,
            None => false,
        };
        let failure_kind = if succeeded {
            None
        } else {
            Some(FailureKind::NonZeroExit)
        };
        StepOutcome { succeeded, exit_status, stdout, stderr, failure_kind }
    }

    /// The program could not be started; `error` says why.
    pub fn spawn_failed(error: String) -> (r: StepOutcome)
        ensures
            !r.succeeded,
            r.exit_status is None,
            r.stdout@.len() == 0,
            r.stderr == error,
            r.failure_kind == Some(FailureKind::SpawnError),
    {
        StepOutcome {
            succeeded: false,
            exit_status: None,
            stdout: String::new(),
            stderr: error,
            failure_kind: Some(FailureKind::SpawnError),
        }
    }

    /// The program did not finish within the time bound.
    pub fn timed_out() -> (r: StepOutcome)
        ensures
            !r.succeeded,
            r.exit_status is None,
            r.stdout@.len() == 0,
            r.stderr@.len() == 0,
            r.failure_kind == Some(FailureKind::Timeout),
    {
        StepOutcome {
            succeeded: false,
            exit_status: None,
            stdout: String::new(),
            stderr: String::new(),
            failure_kind: Some(FailureKind::Timeout),
        }
    }
}

/// The line that closes a fatal diagnostic.
pub open spec fn stopped_line() -> Seq<char> {
    "\nConfiguration stopped due to error."@
}

/// The tail of every note on a failed, tolerated step.
pub open spec fn tolerated_tail() -> Seq<char> {
    " (expected - file doesn't exist yet)\nStep 4: Uploading settings file..."@
}

/// How an exit status is written: its decimal value, or "none".
pub open spec fn status_text(status: Option<i32>) -> Seq<char> {
    match status {
        Some(code) => int_text(code as int),
        None => "none"@,
    }
}

/// A captured stream, as one labelled line, or nothing when it is empty.
pub open spec fn stream_line(label: Seq<char>, content: Seq<char>) -> Seq<char> {
    if content.len() == 0 {
        Seq::empty()
    } else {
        "\nConfiguration: "@ + label + ": "@ + content
    }
}

/// The report on a program that ran: its exit status, its output, and the verdict.
pub open spec fn exit_report(step: Step, o: StepOutcome) -> Seq<char> {
    "Configuration: fwi-serial "@ + step.completion_label() + " completed with exit status: "@
        + status_text(o.exit_status) + stream_line("stdout"@, o.stdout@) + stream_line(
        "stderr"@,
        o.stderr@,
    ) + if o.succeeded {
        "\nConfiguration: "@ + step.success_note()
    } else if step.is_fatal() {
        "\nConfiguration ERROR: ✗ "@ + step.subject() + " failed: "@ + o.stderr@ + stopped_line()
    } else {
        "\nConfiguration: ✗ WASM upload failed"@ + tolerated_tail()
    }
}

/// The report on a program that could not be started.
pub open spec fn spawn_report(step: Step, error: Seq<char>) -> Seq<char> {
    if step.is_fatal() {
        "✗ "@ + step.subject() + " error: "@ + error + stopped_line()
    } else {
        "✗ WASM upload error"@ + tolerated_tail()
    }
}

/// The report on a program that ran out of time.
pub open spec fn timeout_report(step: Step) -> Seq<char> {
    if step.is_fatal() {
        "✗ "@ + step.subject() + " timed out (30 seconds) - device may not be connected"@
            + stopped_line()
    } else {
        "✗ WASM upload timed out"@ + tolerated_tail()
    }
}

/// The diagnostic text of one invocation: what the caller is shown when a
/// fatal step fails, and what the transcript records otherwise.
pub open spec fn report_text(step: Step, o: StepOutcome) -> Seq<char> {
    match o.failure_kind {
        Some(FailureKind::SpawnError) => spawn_report(step, o.stderr@),
        Some(FailureKind::Timeout) => timeout_report(step),
        _ => exit_report(step, o),
    }
}

impl Step {
    fn completion_label_str(&self) -> (r: &'static str)
        ensures
            r@ == self.completion_label(),
    {
        match self {
            Step::UploadConfig => "command",
            Step::UploadImage => "image upload",
            Step::UploadWasm => "WASM upload",
            Step::UploadSettings => "settings upload",
            Step::RunWasm => "WASM run",
        }
    }

    fn subject_str(&self) -> (r: &'static str)
        ensures
            r@ == self.subject(),
    {
        match self {
            Step::UploadConfig => "Configuration upload",
            Step::UploadImage => "Image upload",
            Step::UploadWasm => "WASM upload",
            Step::UploadSettings => "Settings upload",
            Step::RunWasm => "WASM execution",
        }
    }

    fn success_note_str(&self) -> (r: &'static str)
        ensures
            r@ == self.success_note(),
    {
        match self {
            Step::UploadConfig => "✓ Configuration file uploaded successfully\nStep 2: Uploading image file...",
            Step::UploadImage => "✓ Image file uploaded successfully\nStep 3: Uploading WASM file...",
            Step::UploadWasm => "✓ WASM file uploaded successfully\nStep 4: Uploading settings file...",
            Step::UploadSettings => "✓ Settings file uploaded successfully",
            Step::RunWasm => "✓ WASM application executed successfully",
        }
    }

    pub fn is_fatal_step(&self) -> (r: bool)
        ensures
            r == self.is_fatal(),
    {
        match self {
            Step::UploadWasm => false,
            _ => true,
        }
    }
}

fn push_stream_line(out: &mut String, label: &str, content: &String)
    ensures
        final(out)@ == old(out)@ + stream_line(label@, content@),
{
    if !content.as_str().is_empty() {
        out.append("\nConfiguration: ");
        out.append(label);
        out.append(": ");
        out.append(content.as_str());
        assert(final(out)@ =~= old(out)@ + stream_line(label@, content@));
    } else {
        assert(old(out)@ =~= old(out)@ + stream_line(label@, content@));
    }
}

/// Builds the diagnostic text of one invocation.
pub fn step_report(step: Step, outcome: &StepOutcome) -> (r: String)
    ensures
        r@ == report_text(step, *outcome),
{
    let fatal = step.is_fatal_step();
    let mut out = String::new();
    match outcome.failure_kind {
        Some(FailureKind::SpawnError) => {
            if fatal {
                out.append("✗ ");
                out.append(step.subject_str());
                out.append(" error: ");
                out.append(outcome.stderr.as_str());
                out.append("\nConfiguration stopped due to error.");
            } else {
                out.append("✗ WASM upload error");
                out.append(" (expected - file doesn't exist yet)\nStep 4: Uploading settings file...");
            }
        },
        Some(FailureKind::Timeout) => {
            if fatal {
                out.append("✗ ");
                out.append(step.subject_str());
                out.append(" timed out (30 seconds) - device may not be connected");
                out.append("\nConfiguration stopped due to error.");
            } else {
                out.append("✗ WASM upload timed out");
                out.append(" (expected - file doesn't exist yet)\nStep 4: Uploading settings file...");
            }
        },
        _ => {
            out.append("Configuration: fwi-serial ");
            out.append(step.completion_label_str());
            out.append(" completed with exit status: ");
            match outcome.exit_status {
                Some(code) => push_signed_decimal(&mut out, code),
                None => out.append("none"),
            }
            push_stream_line(&mut out, "stdout", &outcome.stdout);
            push_stream_line(&mut out, "stderr", &outcome.stderr);
            if outcome.succeeded {
                out.append("\nConfiguration: ");
                out.append(step.success_note_str());
            } else if fatal {
                out.append("\nConfiguration ERROR: ✗ ");
                out.append(step.subject_str());
                out.append(" failed: ");
                out.append(outcome.stderr.as_str());
                out.append("\nConfiguration stopped due to error.");
            } else {
                out.append("\nConfiguration: ✗ WASM upload failed");
                out.append(" (expected - file doesn't exist yet)\nStep 4: Uploading settings file...");
            }
        },
    }
    assert(out@ =~= report_text(step, *outcome));
    out
}

} // verus!
