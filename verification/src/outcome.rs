//! Outcome classification: every way a send attempt can end is mapped to
//! exactly one log entry, and never to an error for the caller.

use vstd::prelude::*;

verus! {

/// What a single send attempt produced: a response with some HTTP status
/// code, or a transport-level failure with a human-readable description.
pub enum SendOutcome {
    Response(u16),
    TransportFailure(String),
}

/// Severity of a log entry.
#[derive(PartialEq, Eq, Structural, Clone, Copy, Debug)]
pub enum LogLevel {
    Debug,
    Warning,
}

/// The log entry a notification outcome produces: the only observable
/// result of a notification. Every entry carries the session identifier;
/// a rejection carries the status the bridge returned, a transport failure
/// the description of what went wrong.
pub enum LogEntry {
    Success { call_sid: String },
    RemoteRejection { call_sid: String, status: u16 },
    TransportFailure { call_sid: String, description: String },
}

/// Holds when `status` is in the HTTP success range.
pub open spec fn is_success_status(status: u16) -> bool {
    200 <= status < 300
}

/// Returns whether `status` is in the HTTP success range.
pub fn status_is_success(status: u16) -> (r: bool)
    ensures
        r == is_success_status(status),
{
    200 <= status && status < 300
}

impl LogEntry {
    /// Severity at which this entry is emitted: debug for a success,
    /// warning for a remote rejection or a transport failure.
    pub open spec fn spec_level(self) -> LogLevel {
        match self {
            LogEntry::Success { .. } => LogLevel::Debug,
            LogEntry::RemoteRejection { .. } => LogLevel::Warning,
            LogEntry::TransportFailure { .. } => LogLevel::Warning,
        }
    }

    /// Returns the severity at which this entry is emitted.
    pub fn level(&self) -> (l: LogLevel)
        ensures
            l == self.spec_level(),
    {
        match self {
            LogEntry::Success { .. } => LogLevel::Debug,
            LogEntry::RemoteRejection { .. } => LogLevel::Warning,
            LogEntry::TransportFailure { .. } => LogLevel::Warning,
        }
    }

    /// Returns the session identifier the entry is tagged with.
    pub fn call_sid(&self) -> (r: &str)
        ensures
            r@ == self.spec_call_sid(),
    {
        match self {
            LogEntry::Success { call_sid } => call_sid.as_str(),
            LogEntry::RemoteRejection { call_sid, .. } => call_sid.as_str(),
            LogEntry::TransportFailure { call_sid, .. } => call_sid.as_str(),
        }
    }

    /// The session identifier the entry is tagged with.
    pub open spec fn spec_call_sid(self) -> Seq<char> {
        match self {
            LogEntry::Success { call_sid } => call_sid@,
            LogEntry::RemoteRejection { call_sid, .. } => call_sid@,
            LogEntry::TransportFailure { call_sid, .. } => call_sid@,
        }
    }
}

/// Maps the outcome of a send attempt to the one log entry it produces: a
/// success-range response to a debug-level success entry, any other
/// response to a warning carrying the status, a transport failure to a
/// warning carrying its description. Nothing is returned to the caller but
/// the entry itself.
pub fn classify_outcome(call_sid: &str, outcome: SendOutcome) -> (e: LogEntry)
    ensures
        match outcome {
            SendOutcome::Response(status) => {
                if is_success_status(status) {
                    e matches LogEntry::Success { call_sid: c } && c@ == call_sid@
                } else {
                    e matches LogEntry::RemoteRejection { call_sid: c, status: st } && c@
                        == call_sid@ && st == status
                }
            },
            SendOutcome::TransportFailure(description) => {
                e matches LogEntry::TransportFailure { call_sid: c, description: d } && c@
                    == call_sid@ && d == description
            },
        },
        e.spec_level() == (match outcome {
            SendOutcome::Response(status) => if is_success_status(status) {
                LogLevel::Debug
            } else {
                LogLevel::Warning
            },
            SendOutcome::TransportFailure(_) => LogLevel::Warning,
        }),
        e.spec_call_sid() == call_sid@,
{
    match outcome {
        SendOutcome::Response(status) => {
            if status_is_success(status) {
                LogEntry::Success { call_sid: call_sid.to_owned() }
            } else {
                LogEntry::RemoteRejection { call_sid: call_sid.to_owned(), status }
            }
        },
        SendOutcome::TransportFailure(description) => {
            LogEntry::TransportFailure { call_sid: call_sid.to_owned(), description }
        },
    }
}

} // verus!
