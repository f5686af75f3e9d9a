use vstd::prelude::*;

verus! {

/// One event from a running child.
#[derive(Debug, Clone, PartialEq, Eq)]
pub enum OutputEvent {
    /// A line on the child's standard output.
    Stdout(String),
    /// A line on the child's standard error.
    Stderr(String),
    /// The child ended, with its exit code and the signal that ended it, if any.
    Terminated { code: Option<i32>, signal: Option<i32> },
    /// Anything else the process layer reports.
    Other,
}

/// What to do with one event.
#[derive(Debug, Clone, PartialEq, Eq)]
pub enum DrainStep {
    /// Send this line to the informational log.
    Info(String),
    /// Send this line to the warning log.
    Warn(String),
    /// Record that the child ended, then stop reading.
    Exited { code: Option<i32>, signal: Option<i32> },
    /// Nothing to do.
    Skip,
}

/// Prefix of a logged line from the child's standard output.
pub const STDOUT_TAG: &'static str = "[websocat stdout] ";

/// Prefix of a logged line from the child's standard error.
pub const STDERR_TAG: &'static str = "[websocat stderr] ";

impl DrainStep {
    /// Whether the drain goes on reading after this step.
    pub fn keeps_reading(&self) -> (r: bool)
        ensures
            r == (self !is Exited),
    {
        match self {
            DrainStep::Exited { .. } => false,
            _ => true,
        }
    }
}

/// Decides what to do with one event of the child's output stream. A logged
/// line carries its tag in front of the child's text.
pub fn drain_step(ev: OutputEvent) -> (r: DrainStep)
    ensures
        match (ev, r) {
            (OutputEvent::Stdout(line), DrainStep::Info(logged)) => logged@ == STDOUT_TAG@ + line@,
            (OutputEvent::Stderr(line), DrainStep::Warn(logged)) => logged@ == STDERR_TAG@ + line@,
            (OutputEvent::Terminated { code, signal }, DrainStep::Exited { code: c, signal: s }) => {
                c == code && s == signal
            },
            (OutputEvent::Other, DrainStep::Skip) => true,
            _ => false,
        },
{
    match ev {
        OutputEvent::Stdout(line) => {
            let mut logged = String::from_str(STDOUT_TAG);
            logged.append(line.as_str());
            DrainStep::Info(logged)
        },
        OutputEvent::Stderr(line) => {
            let mut logged = String::from_str(STDERR_TAG);
            logged.append(line.as_str());
            DrainStep::Warn(logged)
        },
        OutputEvent::Terminated { code, signal } => DrainStep::Exited { code, signal },
        OutputEvent::Other => DrainStep::Skip,
    }
}

} // verus!
