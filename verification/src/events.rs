//! Notifications to the supervising process.
//!
//! Every component produces events; none consumes them. An event is
//! immutable once built. The shell around the library drains the
//! outboxes that hold these values and forwards each event, in emission
//! order, over its transport.

use vstd::prelude::*;

verus! {

/// Which guest entry point a lifecycle event speaks of.
#[derive(Debug)]
pub enum ProgramType {
    Initialize,
    Autonomous,
    OpControl,
    CompetitionInitialize,
    Disabled,
}

/// A log entry addressed to the supervising process.
#[derive(Debug)]
pub enum LogEvent {
    /// Information is available.
    Info(String),
    /// Something is not right, but not enough to stop the program.
    Warning(String),
    /// An error has occurred.
    Error(String),
}

/// A change of the display that the supervising process should render.
#[derive(Debug)]
pub enum DisplayEvent {
    /// The display was enabled.
    Init,
    /// The display was disabled.
    Deinit,
    /// Some lines changed: each entry is a line index with its new text.
    Update { lines_delta: Vec<(u8, String)> },
    /// The whole display was cleared.
    Clear,
    /// A new background color, as packed channel values.
    SetBackgroundColor { rgba: u32 },
    /// A new text color, as packed channel values.
    SetTextColor { rgba: u32 },
}

/// An outbound notification of the running program's host.
#[derive(Debug)]
pub enum Event {
    /// Display-related events.
    Display(DisplayEvent),
    Log(LogEvent),
    /// A guest entry point (initialize, autonomous, ...) has finished.
    ProgramFinish { program_type: ProgramType, error: Option<String> },
    /// The host has finished setup and now runs guest code.
    SimulatorRunning,
    /// The host has finished and will no longer run guest code.
    SimulatorStopped,
}

/// The text content of a character display, one entry per line.
pub type LcdLines = Vec<String>;

/// An outbound notification of the sandboxed module's host, display
/// snapshots included.
#[derive(Debug)]
pub enum SimulatorEvent {
    Warning(String),

    RobotCodeLoading,
    RobotCodeStarting,
    RobotCodeFinished,
    RobotCodeError { message: String, backtrace: String },

    LcdInitialized,
    LcdUpdated(LcdLines),
    LcdColorsUpdated(u32, u32),
    LcdShutdown,
}

/// Holds when `post` is `pre` with exactly the one event `ev` appended:
/// emission order and earlier events are untouched.
pub open spec fn emitted<E>(pre: Seq<E>, post: Seq<E>, ev: E) -> bool {
    &&& post.len() == pre.len() + 1
    &&& (forall|i: int| 0 <= i < pre.len() ==> post[i] == pre[i])
    &&& post.last() == ev
}

} // verus!
