use vstd::prelude::*;
use vstd::string::*;
use crate::json::{json_of, json_string_of, parse_text, quote_text, view_str_opt, Json, JsonV};

verus! {

/// How the method registry answered a call; each value is JSON text but the
/// router's description, which is plain text.
pub enum Outcome {
    /// The handler succeeded with this value.
    Success(String),
    /// The handler failed with this structured error payload.
    HandlerError(String),
    /// The router failed (unknown method, bad parameters, internal fault).
    RouterError(String),
}

/// The model of an `Outcome`.
pub enum OutcomeV {
    Success(Seq<char>),
    HandlerError(Seq<char>),
    RouterError(Seq<char>),
}

impl View for Outcome {
    type V = OutcomeV;

    open spec fn view(&self) -> OutcomeV {
        match self {
            Outcome::Success(v) => OutcomeV::Success(v@),
            Outcome::HandlerError(e) => OutcomeV::HandlerError(e@),
            Outcome::RouterError(d) => OutcomeV::RouterError(d@),
        }
    }
}

/// The success response line.
pub open spec fn success_line(id: Seq<char>, result: Seq<char>) -> Seq<char> {
    "{\"jsonrpc\":\"2.0\",\"id\":"@ + id + ",\"result\":"@ + result + "}"@
}

/// The error response line.
pub open spec fn error_line(id: Seq<char>, error: Seq<char>) -> Seq<char> {
    "{\"jsonrpc\":\"2.0\",\"id\":"@ + id + ",\"error\":"@ + error + "}"@
}

/// The generic error payload, with code -1, for a fault of the router.
pub open spec fn generic_error(description: Seq<char>) -> Seq<char> {
    "{\"code\":-1,\"message\":"@ + json_string_of("Invalid json-rpc call, error: "@ + description)
        + "}"@
}

/// The line that answers a call, if any: a null result is answered by nothing.
pub open spec fn reply_of(id: Seq<char>, o: OutcomeV) -> Option<Seq<char>> {
    match o {
        OutcomeV::Success(v) => if json_of(v) == Some(JsonV::Null) {
            None
        } else {
            Some(success_line(id, v))
        },
        OutcomeV::HandlerError(e) => Some(error_line(id, e)),
        OutcomeV::RouterError(d) => Some(error_line(id, generic_error(d))),
    }
}

/// Writes an envelope `{"jsonrpc":"2.0","id":<id>,"<key>":<body>}`.
fn frame(id: &str, key_part: &str, body: &str) -> (r: String)
    ensures
        r@ == "{\"jsonrpc\":\"2.0\",\"id\":"@ + id@ + key_part@ + body@ + "}"@,
{
    let mut s = String::from_str("{\"jsonrpc\":\"2.0\",\"id\":");
    s.append(id);
    s.append(key_part);
    s.append(body);
    s.append("}");
    s
}

/// The generic error payload for a fault of the router.
pub fn generic_error_payload(description: &str) -> (r: String)
    ensures
        r@ == generic_error(description@),
{
    let mut message = String::from_str("Invalid json-rpc call, error: ");
    message.append(description);
    let quoted = quote_text(message.as_str());
    let mut s = String::from_str("{\"code\":-1,\"message\":");
    s.append(quoted.as_str());
    s.append("}");
    s
}

/// The line that answers the call `id` with outcome `o`, or nothing where the
/// handler's result is null.
pub fn reply(id: &str, o: &Outcome) -> (r: Option<String>)
    ensures
        view_str_opt(r) == reply_of(id@, o@),
{
    match o {
        Outcome::Success(v) => match parse_text(v.as_str()) {
            Some(Json::Null) => None,
            _ => Some(frame(id, ",\"result\":", v.as_str())),
        },
        Outcome::HandlerError(e) => Some(frame(id, ",\"error\":", e.as_str())),
        Outcome::RouterError(d) => {
            let payload = generic_error_payload(d.as_str());
            Some(frame(id, ",\"error\":", payload.as_str()))
        },
    }
}

} // verus!
