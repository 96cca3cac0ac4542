//! Best-effort session lifecycle notifier for a cross-channel routing
//! bridge: builds the HTTP request (target URL and JSON body) for a
//! session-started or call-ended event and classifies the outcome of the
//! send into a log entry, never surfacing a failure to the caller.

pub mod json;
pub mod notify;
pub mod outcome;
pub mod url;
