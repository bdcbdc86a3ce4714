//! Diagnostic log lines, kept as data.
//!
//! The core never talks to a console itself; it appends events to a sink
//! vector and the embedder renders them at whatever level it likes. The
//! rendered text is not a stability contract; the event values are.

use vstd::prelude::*;

use crate::task_id::TaskId;

verus! {

/// One diagnostic line emitted by the core.
#[derive(Copy, Clone, Debug, PartialEq, Eq, Structural)]
pub enum LogEvent {
    /// The mailbox held no command; reported once per idle streak.
    Idle,
    /// The mailbox still holds this side's own status; the host has not
    /// answered yet.
    WaitingForResponse,
    /// The host handed a command over.
    MessageReceived,
    /// The status byte held an unrecognized value.
    UnknownStatus(u8),
    /// The polling phase started.
    Polling,
    /// The polling phase observed a host command and ended.
    CommandReceived,
    /// The dispatch phase is about to run the requested handler.
    ExecuteTask(TaskId),
    /// The measurement window is being closed.
    UnlockTee,
    /// Dispatch found no handler registered for the requested id.
    NoTask,
}

} // verus!
