//! What a caller shows of a run: its status line, its progress, its error and
//! the transcript of everything reported so far.

use vstd::prelude::*;
use crate::pipeline::{EventView, ProgressEvent};

verus! {

/// The caller's picture of the current run, built from the events it receives.
#[derive(Debug)]
pub struct RunMonitor {
    /// Whether a run has started and not yet completed.
    pub configuring: bool,
    /// Tenths of the run done.
    pub progress_tenths: u8,
    pub status: String,
    pub error: Option<String>,
    /// Every reported text so far, one per line.
    pub console: String,
}

/// `text` added to a transcript as a new line.
pub open spec fn with_line(console: Seq<char>, text: Seq<char>) -> Seq<char> {
    if console.len() == 0 {
        text
    } else {
        console + "\n"@ + text
    }
}

/// The text of an optional string.
pub open spec fn opt_text(s: Option<String>) -> Option<Seq<char>> {
    match s {
        Some(t) => Some(t@),
        None => None,
    }
}

fn push_line(console: &mut String, text: &String)
    ensures
        final(console)@ == with_line(old(console)@, text@),
{
    if !console.as_str().is_empty() {
        console.append("\n");
    }
    console.append(text.as_str());
}

impl RunMonitor {
    /// A monitor with no run in progress.
    pub fn new() -> (r: RunMonitor)
        ensures
            !r.configuring,
            r.progress_tenths == 0,
            r.status@.len() == 0,
            r.error is None,
            r.console@.len() == 0,
    {
        RunMonitor {
            configuring: false,
            progress_tenths: 0,
            status: String::new(),
            error: None,
            console: String::new(),
        }
    }

    /// Marks a new run as started and forgets the previous one.
    pub fn start(&mut self)
        ensures
            final(self).configuring,
            final(self).progress_tenths == 0,
            final(self).status@ == "Starting configuration..."@,
            final(self).error is None,
            final(self).console@.len() == 0,
    {
        self.configuring = true;
        self.progress_tenths = 0;
        self.status = String::from_str("Starting configuration...");
        self.error = None;
        self.console = String::new();
    }

    /// Takes in one event of the run.
    pub fn observe(&mut self, event: &ProgressEvent)
        ensures
            match event@ {
                EventView::Update { description, tenths } => {
                    &&& final(self).configuring == old(self).configuring
                    &&& final(self).progress_tenths == tenths
                    &&& final(self).status@ == description
                    &&& opt_text(final(self).error) == opt_text(old(self).error)
                    &&& final(self).console@ == with_line(old(self).console@, description)
                },
                EventView::Complete(Ok(m)) => {
                    &&& !final(self).configuring
                    &&& final(self).progress_tenths == 10
                    &&& final(self).status@ == "Configuration successful!"@
                    &&& final(self).error is None
                    &&& final(self).console@ == with_line(old(self).console@, m)
                },
                EventView::Complete(Err(m)) => {
                    &&& !final(self).configuring
                    &&& final(self).progress_tenths == 10
                    &&& final(self).status@ == "Configuration failed"@
                    &&& opt_text(final(self).error) == Some(m)
                    &&& final(self).console@ == with_line(old(self).console@, m)
                },
            },
    {
        match event {
            ProgressEvent::StepUpdate { description, tenths } => {
                self.status = description.clone();
                self.progress_tenths = *tenths;
                push_line(&mut self.console, description);
            },
            ProgressEvent::Complete(Ok(message)) => {
                self.configuring = false;
                self.progress_tenths = 10;
                self.status = String::from_str("Configuration successful!");
                self.error = None;
                push_line(&mut self.console, message);
            },
            ProgressEvent::Complete(Err(message)) => {
                self.configuring = false;
                self.progress_tenths = 10;
                self.status = String::from_str("Configuration failed");
                self.error = Some(message.clone());
                push_line(&mut self.console, message);
            },
        }
    }
}

} // verus!
