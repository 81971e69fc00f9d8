//! Decisions of the lifecycle coordinator: start-up retries, operator
//! commands, and the bounded, ordered shutdown.
use vstd::prelude::*;
use crate::text::{chars_of, contains, has_text, lower_of, lowercase, same_text, string_of_chars, trim_whitespace, trim_ws};

verus! {

/// A component thread that the coordinator starts and stops.
#[derive(Debug, Clone, Copy, PartialEq, Eq, Hash, Structural)]
pub enum Component {
    NetworkMonitor,
    ProcessMonitor,
    CorrelationEngine,
    AlertHandler,
}

impl Component {
    /// The component's name in the operator log.
    pub fn name(&self) -> (r: &'static str)
        ensures
            r@ == component_name(*self),
    {
        match self {
            Component::NetworkMonitor => "Network Monitor",
            Component::ProcessMonitor => "Process Monitor",
            Component::CorrelationEngine => "Correlation Engine",
            Component::AlertHandler => "Alert Handler",
        }
    }
}

pub open spec fn component_name(c: Component) -> Seq<char> {
    match c {
        Component::NetworkMonitor => "Network Monitor"@,
        Component::ProcessMonitor => "Process Monitor"@,
        Component::CorrelationEngine => "Correlation Engine"@,
        Component::AlertHandler => "Alert Handler"@,
    }
}

/// The order in which components are joined at shutdown: the producers, then
/// the engine that consumes their events, then the alert handler.
pub open spec fn shutdown_sequence() -> Seq<Component> {
    seq![
        Component::NetworkMonitor,
        Component::ProcessMonitor,
        Component::CorrelationEngine,
        Component::AlertHandler,
    ]
}

/// The components in the order in which shutdown joins them.
pub fn shutdown_order() -> (r: Vec<Component>)
    ensures
        r@ == shutdown_sequence(),
{
    let mut v: Vec<Component> = Vec::new();
    v.push(Component::NetworkMonitor);
    v.push(Component::ProcessMonitor);
    v.push(Component::CorrelationEngine);
    v.push(Component::AlertHandler);
    assert(v@ =~= shutdown_sequence());
    v
}

/// Each component is given this long to stop.
pub const JOIN_TIMEOUT_MS: u64 = 5_000;

/// Between checks on a component that has not stopped, the coordinator waits this long.
pub const JOIN_POLL_MS: u64 = 100;

/// What to do next while waiting for a component to stop.
#[derive(Debug, Clone, Copy, PartialEq, Eq, Structural)]
pub enum JoinStep {
    /// The thread has finished: join it.
    Join,
    /// Not finished, time remains: wait one poll interval.
    Wait,
    /// The bounded window has passed: log it and move on.
    GiveUp,
}

/// The next step after `elapsed_ms` of waiting for a component.
pub fn join_step(elapsed_ms: u64, timeout_ms: u64, finished: bool) -> (r: JoinStep)
    ensures
        elapsed_ms >= timeout_ms ==> r == JoinStep::GiveUp,
        elapsed_ms < timeout_ms && finished ==> r == JoinStep::Join,
        elapsed_ms < timeout_ms && !finished ==> r == JoinStep::Wait,
{
    if elapsed_ms >= timeout_ms {
        JoinStep::GiveUp
    } else if finished {
        JoinStep::Join
    } else {
        JoinStep::Wait
    }
}

/// How a component's shutdown ended.
#[derive(Debug, Clone, Copy, PartialEq, Eq, Structural)]
pub enum JoinOutcome {
    Stopped,
    TimedOut,
    Failed,
}

/// The operator-log line for a component's shutdown outcome.
pub open spec fn outcome_message(c: Component, o: JoinOutcome) -> Seq<char> {
    match o {
        JoinOutcome::Stopped => component_name(c) + " stopped gracefully"@,
        JoinOutcome::TimedOut => component_name(c) + " didn't stop in time, continuing..."@,
        JoinOutcome::Failed => component_name(c) + " panicked during shutdown"@,
    }
}

/// The operator-log line for a component's shutdown outcome; whatever the
/// outcome, shutdown goes on with the next component.
pub fn outcome_message_of(c: Component, o: JoinOutcome) -> (r: String)
    ensures
        r@ == outcome_message(c, o),
{
    let tail = match o {
        JoinOutcome::Stopped => " stopped gracefully",
        JoinOutcome::TimedOut => " didn't stop in time, continuing...",
        JoinOutcome::Failed => " panicked during shutdown",
    };
    crate::text::join2(c.name(), tail)
}

/// Guards the shutdown sequence against running twice.
#[derive(Debug)]
pub struct ShutdownLatch {
    pub requested: bool,
}

impl ShutdownLatch {
    pub fn new() -> (r: Self)
        ensures
            !r.requested,
    {
        ShutdownLatch { requested: false }
    }

    /// Requests shutdown; true only for the first request.
    pub fn request(&mut self) -> (r: bool)
        ensures
            r == !old(self).requested,
            final(self).requested,
    {
        let first = !self.requested;
        self.requested = true;
        first
    }
}

/// What to do after an attempt to start an event source.
#[derive(Debug, Clone, Copy, PartialEq, Eq, Structural)]
pub enum StartAction {
    /// The source runs until shutdown.
    Run,
    /// Wait a short delay and try once more.
    RetryAfterDelay,
    /// Give up: the collector exits and the engine runs with less visibility.
    GiveUp,
}

/// The decision after start attempt number `attempt` (from 0) succeeded or
/// failed: a failed first attempt is retried once.
pub fn start_action(attempt: u32, started: bool) -> (r: StartAction)
    ensures
        started ==> r == StartAction::Run,
        !started && attempt == 0 ==> r == StartAction::RetryAfterDelay,
        !started && attempt > 0 ==> r == StartAction::GiveUp,
{
    if started {
        StartAction::Run
    } else if attempt == 0 {
        StartAction::RetryAfterDelay
    } else {
        StartAction::GiveUp
    }
}

/// A line typed by the operator.
#[derive(Debug, Clone, Copy, PartialEq, Eq, Structural)]
pub enum OperatorCommand {
    Quit,
    Status,
    Empty,
    Unknown,
}

/// The command that a trimmed, lowercase line names.
pub open spec fn command_of(c: Seq<char>) -> OperatorCommand {
    if c == "q"@ || c == "quit"@ || c == "exit"@ || c == "stop"@ {
        OperatorCommand::Quit
    } else if c == "status"@ || c == "info"@ {
        OperatorCommand::Status
    } else if c.len() == 0 {
        OperatorCommand::Empty
    } else {
        OperatorCommand::Unknown
    }
}

/// The command that a trimmed, lowercase line names.
pub fn command_from_lower(c: &str) -> (r: OperatorCommand)
    ensures
        r == command_of(c@),
{
    if same_text(c, "q") || same_text(c, "quit") || same_text(c, "exit") || same_text(c, "stop") {
        OperatorCommand::Quit
    } else if same_text(c, "status") || same_text(c, "info") {
        OperatorCommand::Status
    } else if c.unicode_len() == 0 {
        OperatorCommand::Empty
    } else {
        OperatorCommand::Unknown
    }
}

/// Reads an operator line: surrounding whitespace and case are ignored.
pub fn parse_command(line: &str) -> (r: OperatorCommand)
    ensures
        r == command_of(lower_of(trim_ws(line@))),
{
    let raw = chars_of(line);
    let t = trim_whitespace(&raw);
    let trimmed = string_of_chars(&t);
    let lower = lowercase(trimmed.as_str());
    command_from_lower(lower.as_str())
}

/// Whether the trace-session listing still shows the kernel logger.
pub fn kernel_logger_active(listing: &str) -> (r: bool)
    ensures
        r == contains(listing@, "NT Kernel Logger"@),
{
    let h = chars_of(listing);
    has_text(&h, "NT Kernel Logger")
}

/// Whether a signature check's output, trimmed, is exactly `Valid`.
pub fn signature_valid(output: &str) -> (r: bool)
    ensures
        r == (trim_ws(output@) == "Valid"@),
{
    let raw = chars_of(output);
    let t = trim_whitespace(&raw);
    let text = string_of_chars(&t);
    same_text(text.as_str(), "Valid")
}

} // verus!
