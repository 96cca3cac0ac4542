//! The two lifecycle events and the full bridge request built for each:
//! target URL, JSON body and content type.

use vstd::prelude::*;
use crate::json::call_ended_body;
use crate::json::call_ended_body_spec;
use crate::json::json_plain;
use crate::json::plain_quoted;
use crate::json::session_started_body;
use crate::json::session_started_body_spec;
use crate::url::call_ended_url;
use crate::url::session_started_url;
use crate::url::trim_trailing_slashes;

verus! {

/// A session-started lifecycle event: the opaque session identifier, the
/// originating party, and the name of the originating transport.
pub struct SessionStartedEvent {
    pub call_sid: String,
    pub sender: String,
    pub transport: String,
}

/// A call-ended lifecycle event, identified by the session identifier
/// alone.
pub struct CallEndedEvent {
    pub call_sid: String,
}

/// A fully built bridge notification: the target URL and the JSON body of
/// one HTTP POST.
pub struct BridgeRequest {
    pub url: String,
    pub body: String,
}

impl BridgeRequest {
    /// Media type of every bridge notification body.
    pub fn content_type(&self) -> (r: &'static str)
        ensures
            r@ == "application/json"@,
    {
        "application/json"
    }
}

/// Builds the POST for a session-started event: the target is the base URL
/// with trailing slashes stripped followed by `/session-started`, the body
/// the JSON object with exactly the keys `call_sid`, `sender` and
/// `transport` bound to the event's fields.
pub fn session_started_request(bridge_url: &str, event: &SessionStartedEvent) -> (r: BridgeRequest)
    ensures
        r.url@ == trim_trailing_slashes(bridge_url@) + "/session-started"@,
        r.body@ == session_started_body_spec(event.call_sid@, event.sender@, event.transport@),
        json_plain(event.call_sid@) && json_plain(event.sender@) && json_plain(event.transport@)
            ==> r.body@ == "{\"call_sid\":"@ + plain_quoted(event.call_sid@) + ",\"sender\":"@
            + plain_quoted(event.sender@) + ",\"transport\":"@ + plain_quoted(event.transport@)
            + "}"@,
{
    BridgeRequest {
        url: session_started_url(bridge_url),
        body: session_started_body(
            event.call_sid.as_str(),
            event.sender.as_str(),
            event.transport.as_str(),
        ),
    }
}

/// Builds the POST for a call-ended event: the target is the base URL with
/// trailing slashes stripped followed by `/call-ended`, the body the JSON
/// object with exactly the key `call_sid` bound to the event's field.
pub fn call_ended_request(bridge_url: &str, event: &CallEndedEvent) -> (r: BridgeRequest)
    ensures
        r.url@ == trim_trailing_slashes(bridge_url@) + "/call-ended"@,
        r.body@ == call_ended_body_spec(event.call_sid@),
        json_plain(event.call_sid@) ==> r.body@ == "{\"call_sid\":"@ + plain_quoted(
            event.call_sid@,
        ) + "}"@,
{
    BridgeRequest {
        url: call_ended_url(bridge_url),
        body: call_ended_body(event.call_sid.as_str()),
    }
}

} // verus!
