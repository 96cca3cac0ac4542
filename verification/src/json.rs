//! JSON body construction for the two notification events: fixed key sets,
//! string values quoted by serde_json.

use vstd::prelude::*;
use vstd::string::StringExecFns;

verus! {

/// The JSON string literal (opening quote, escaped characters, closing
/// quote) that serde_json produces for a string with these characters.
pub uninterp spec fn json_quoted(s: Seq<char>) -> Seq<char>;

/// Holds when serde_json's string encoder copies `c` through unchanged:
/// every character but the quote, the backslash and the control characters.
pub open spec fn json_plain_char(c: char) -> bool {
    c != '"' && c != '\\' && c as u32 >= 32
}

/// Holds when every character of `s` is copied through unchanged.
pub open spec fn json_plain(s: Seq<char>) -> bool {
    forall|i: int| 0 <= i < s.len() ==> json_plain_char(#[trigger] s[i])
}

/// The quoted form of a string every character of which is copied through:
/// the characters themselves between two quotes.
pub open spec fn plain_quoted(s: Seq<char>) -> Seq<char> {
    seq!['"'] + s + seq!['"']
}

/// Relies on serde_json::to_string on &str: the JSON string literal for
/// these characters, a function of the characters alone; characters outside
/// its escape table are copied through unchanged, between the two quotes.
/// Writing a string value to an in-memory buffer cannot fail.
#[verifier::external_body]
fn json_quote(s: &str) -> (r: String)
    ensures
        r@ == json_quoted(s@),
        json_plain(s@) ==> r@ == plain_quoted(s@),
{
    serde_json::to_string(s).unwrap()
}

/// JSON body of a session-started notification: exactly the keys
/// `call_sid`, `sender` and `transport`, in that order, each bound to the
/// quoted value given for it.
pub open spec fn session_started_body_spec(
    call_sid: Seq<char>,
    sender: Seq<char>,
    transport: Seq<char>,
) -> Seq<char> {
    "{\"call_sid\":"@ + json_quoted(call_sid) + ",\"sender\":"@ + json_quoted(sender)
        + ",\"transport\":"@ + json_quoted(transport) + "}"@
}

/// JSON body of a call-ended notification: exactly the key `call_sid`,
/// bound to the quoted value given for it.
pub open spec fn call_ended_body_spec(call_sid: Seq<char>) -> Seq<char> {
    "{\"call_sid\":"@ + json_quoted(call_sid) + "}"@
}

/// Serializes the session-started body from its three field values.
pub fn session_started_body(call_sid: &str, sender: &str, transport: &str) -> (r: String)
    ensures
        r@ == session_started_body_spec(call_sid@, sender@, transport@),
        json_plain(call_sid@) && json_plain(sender@) && json_plain(transport@) ==> r@
            == "{\"call_sid\":"@ + plain_quoted(call_sid@) + ",\"sender\":"@ + plain_quoted(
            sender@,
        ) + ",\"transport\":"@ + plain_quoted(transport@) + "}"@,
{
    let q_call_sid = json_quote(call_sid);
    let q_sender = json_quote(sender);
    let q_transport = json_quote(transport);
    let mut r = "{\"call_sid\":".to_owned();
    r.append(q_call_sid.as_str());
    r.append(",\"sender\":");
    r.append(q_sender.as_str());
    r.append(",\"transport\":");
    r.append(q_transport.as_str());
    r.append("}");
    r
}

/// Serializes the call-ended body from its field value.
pub fn call_ended_body(call_sid: &str) -> (r: String)
    ensures
        r@ == call_ended_body_spec(call_sid@),
        json_plain(call_sid@) ==> r@ == "{\"call_sid\":"@ + plain_quoted(call_sid@) + "}"@,
{
    let q_call_sid = json_quote(call_sid);
    let mut r = "{\"call_sid\":".to_owned();
    r.append(q_call_sid.as_str());
    r.append("}");
    r
}

} // verus!
