//! The three response values the server can send, and their JSON renderings.

use crate::clock;
use crate::clock::{lemma_rfc3339_plain, rfc3339_utc_shaped};
use crate::json::{json_escape, json_escaped, lemma_json_escaped_plain, plain_json_char};
use vstd::prelude::*;
use vstd::string::StringExecFns;

verus! {

/// The greeting returned for the root path.
pub struct MessageResponse {
    pub message: String,
}

/// The health probe's answer.
pub struct HealthResponse {
    pub status: String,
    pub timestamp: String,
    pub version: String,
}

/// The fixed acknowledgment the callback path returns.
pub struct CallbackResponse {
    pub status: String,
    pub message: String,
    pub timestamp: String,
}

/// The JSON rendering of a greeting: one object with a `message` field.
pub open spec fn message_body_spec(message: Seq<char>) -> Seq<char> {
    "{\"message\":\""@ + json_escaped(message) + "\"}"@
}

/// The JSON rendering of a health answer: `status`, `timestamp` and
/// `version` fields, in that order.
pub open spec fn health_body_spec(status: Seq<char>, timestamp: Seq<char>, version: Seq<char>) -> Seq<
    char,
> {
    "{\"status\":\""@ + json_escaped(status) + "\",\"timestamp\":\""@ + json_escaped(timestamp)
        + "\",\"version\":\""@ + json_escaped(version) + "\"}"@
}

/// The JSON rendering of a callback acknowledgment: `status`, `message` and
/// `timestamp` fields, in that order.
pub open spec fn callback_body_spec(status: Seq<char>, message: Seq<char>, timestamp: Seq<char>) -> Seq<
    char,
> {
    "{\"status\":\""@ + json_escaped(status) + "\",\"message\":\""@ + json_escaped(message)
        + "\",\"timestamp\":\""@ + json_escaped(timestamp) + "\"}"@
}

impl MessageResponse {
    /// Renders the greeting as its JSON body.
    pub fn to_json(&self) -> (r: String)
        ensures
            r@ == message_body_spec(self.message@),
    {
        let mut out = String::from_str("{\"message\":\"");
        let esc = json_escape(self.message.as_str());
        out.append(esc.as_str());
        out.append("\"}");
        proof {
            assert(out@ =~= message_body_spec(self.message@));
        }
        out
    }
}

impl HealthResponse {
    /// Renders the health answer as its JSON body.
    pub fn to_json(&self) -> (r: String)
        ensures
            r@ == health_body_spec(self.status@, self.timestamp@, self.version@),
    {
        let mut out = String::from_str("{\"status\":\"");
        let esc_status = json_escape(self.status.as_str());
        out.append(esc_status.as_str());
        out.append("\",\"timestamp\":\"");
        let esc_timestamp = json_escape(self.timestamp.as_str());
        out.append(esc_timestamp.as_str());
        out.append("\",\"version\":\"");
        let esc_version = json_escape(self.version.as_str());
        out.append(esc_version.as_str());
        out.append("\"}");
        proof {
            assert(out@ =~= health_body_spec(self.status@, self.timestamp@, self.version@));
        }
        out
    }
}

impl CallbackResponse {
    /// Renders the callback acknowledgment as its JSON body.
    pub fn to_json(&self) -> (r: String)
        ensures
            r@ == callback_body_spec(self.status@, self.message@, self.timestamp@),
    {
        let mut out = String::from_str("{\"status\":\"");
        let esc_status = json_escape(self.status.as_str());
        out.append(esc_status.as_str());
        out.append("\",\"message\":\"");
        let esc_message = json_escape(self.message.as_str());
        out.append(esc_message.as_str());
        out.append("\",\"timestamp\":\"");
        let esc_timestamp = json_escape(self.timestamp.as_str());
        out.append(esc_timestamp.as_str());
        out.append("\"}");
        proof {
            assert(out@ =~= callback_body_spec(self.status@, self.message@, self.timestamp@));
        }
        out
    }
}

/// Handles the root path: a fixed greeting, whatever the request.
pub fn hello() -> (r: MessageResponse)
    ensures
        r.message@ == "hi mom"@,
{
    MessageResponse { message: String::from_str("hi mom") }
}

/// Handles the health path: a fixed status, the current time as an RFC 3339
/// timestamp, and the build version, which is never empty.
pub fn health_check() -> (r: HealthResponse)
    ensures
        r.status@ == "healthy"@,
        r.version@ == "0.1.0"@,
        r.version@.len() > 0,
        rfc3339_utc_shaped(r.timestamp@),
{
    HealthResponse {
        status: String::from_str("healthy"),
        timestamp: clock::now_rfc3339(),
        version: String::from_str(crate::version()),
    }
}

/// The greeting body is exactly the fixed JSON object of the specification.
pub proof fn lemma_greeting_body()
    ensures
        message_body_spec("hi mom"@) == "{\"message\":\"hi mom\"}"@,
{
    reveal_strlit("hi mom");
    reveal_strlit("{\"message\":\"");
    reveal_strlit("\"}");
    reveal_strlit("{\"message\":\"hi mom\"}");
    assert(forall|i: int| 0 <= i < "hi mom"@.len() ==> plain_json_char(#[trigger] "hi mom"@[i]));
    lemma_json_escaped_plain("hi mom"@);
    assert(message_body_spec("hi mom"@) =~= "{\"message\":\"hi mom\"}"@);
}

/// For every timestamp, the callback body is the fixed template around the
/// escaped timestamp: the constant fields need no escaping.
pub proof fn lemma_callback_body(timestamp: Seq<char>)
    ensures
        callback_body_spec("success"@, "callback received"@, timestamp)
            == "{\"status\":\"success\",\"message\":\"callback received\",\"timestamp\":\""@
            + json_escaped(timestamp) + "\"}"@,
{
    reveal_strlit("success");
    reveal_strlit("callback received");
    reveal_strlit("{\"status\":\"");
    reveal_strlit("\",\"message\":\"");
    reveal_strlit("\",\"timestamp\":\"");
    reveal_strlit("{\"status\":\"success\",\"message\":\"callback received\",\"timestamp\":\"");
    assert(forall|i: int| 0 <= i < "success"@.len() ==> plain_json_char(#[trigger] "success"@[i]));
    assert(forall|i: int|
        0 <= i < "callback received"@.len() ==> plain_json_char(
            #[trigger] "callback received"@[i],
        ));
    lemma_json_escaped_plain("success"@);
    lemma_json_escaped_plain("callback received"@);
    assert(callback_body_spec("success"@, "callback received"@, timestamp)
        =~= "{\"status\":\"success\",\"message\":\"callback received\",\"timestamp\":\""@
        + json_escaped(timestamp) + "\"}"@);
}

/// With an RFC 3339 timestamp, the callback body is the fixed template
/// around the raw timestamp: such a timestamp needs no escaping.
pub proof fn lemma_callback_body_rfc3339(timestamp: Seq<char>)
    requires
        rfc3339_utc_shaped(timestamp),
    ensures
        callback_body_spec("success"@, "callback received"@, timestamp)
            == "{\"status\":\"success\",\"message\":\"callback received\",\"timestamp\":\""@
            + timestamp + "\"}"@,
{
    lemma_callback_body(timestamp);
    lemma_rfc3339_plain(timestamp);
}

/// For every timestamp and version, the health body is the fixed template
/// around the escaped timestamp and version.
pub proof fn lemma_health_body(timestamp: Seq<char>, version: Seq<char>)
    ensures
        health_body_spec("healthy"@, timestamp, version)
            == "{\"status\":\"healthy\",\"timestamp\":\""@ + json_escaped(timestamp)
            + "\",\"version\":\""@ + json_escaped(version) + "\"}"@,
{
    reveal_strlit("healthy");
    reveal_strlit("{\"status\":\"");
    reveal_strlit("\",\"timestamp\":\"");
    reveal_strlit("{\"status\":\"healthy\",\"timestamp\":\"");
    assert(forall|i: int| 0 <= i < "healthy"@.len() ==> plain_json_char(#[trigger] "healthy"@[i]));
    lemma_json_escaped_plain("healthy"@);
    assert(health_body_spec("healthy"@, timestamp, version)
        =~= "{\"status\":\"healthy\",\"timestamp\":\""@ + json_escaped(timestamp)
        + "\",\"version\":\""@ + json_escaped(version) + "\"}"@);
}

/// With an RFC 3339 timestamp and a version of plain characters, the health
/// body is the fixed template around both, raw: neither needs escaping.
pub proof fn lemma_health_body_rfc3339(timestamp: Seq<char>, version: Seq<char>)
    requires
        rfc3339_utc_shaped(timestamp),
        forall|i: int| 0 <= i < version.len() ==> plain_json_char(#[trigger] version[i]),
    ensures
        health_body_spec("healthy"@, timestamp, version)
            == "{\"status\":\"healthy\",\"timestamp\":\""@ + timestamp + "\",\"version\":\""@
            + version + "\"}"@,
{
    lemma_health_body(timestamp, version);
    lemma_rfc3339_plain(timestamp);
    lemma_json_escaped_plain(version);
}

} // verus!
