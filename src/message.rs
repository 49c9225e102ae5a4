use vstd::prelude::*;
use vstd::string::*;
use crate::json::{
    field, json_of, parse_text, present, present_value, same_text, string_in, string_in_text,
    view_str_opt, Json, JsonV,
};

verus! {

/// A request ready for the method registry: the correlation identifier and
/// the parameters are kept as JSON text.
pub struct Call {
    pub id: String,
    pub method: String,
    pub params: Option<String>,
}

/// The model of a `Call`.
pub struct CallV {
    pub id: Seq<char>,
    pub method: Seq<char>,
    pub params: Option<Seq<char>>,
}

impl View for Call {
    type V = CallV;

    open spec fn view(&self) -> CallV {
        CallV { id: self.id@, method: self.method@, params: view_str_opt(self.params) }
    }
}

/// The parameters of a cancellation notification; `request_id` is JSON text.
pub struct CancelledNotification {
    pub request_id: String,
    pub reason: Option<String>,
}

/// The model of a `CancelledNotification`.
pub struct CancelledV {
    pub request_id: Seq<char>,
    pub reason: Option<Seq<char>>,
}

impl View for CancelledNotification {
    type V = CancelledV;

    open spec fn view(&self) -> CancelledV {
        CancelledV { request_id: self.request_id@, reason: view_str_opt(self.reason) }
    }
}

/// What one input line asks of the server.
pub enum Incoming {
    /// Not JSON, or neither a request nor a notification: no answer.
    Dropped,
    /// The session-initialized notification.
    Initialized,
    /// A cancellation notification; advisory only.
    Cancelled(CancelledNotification),
    /// Any other notification, or a cancellation with malformed parameters.
    Ignored,
    /// A request to dispatch, after tool-call rewriting.
    Call(Call),
    /// A tool call whose parameters do not name a tool: answered with an error.
    Rejected { id: String, description: String },
}

/// The model of an `Incoming`.
pub enum IncomingV {
    Dropped,
    Initialized,
    Cancelled(CancelledV),
    Ignored,
    Call(CallV),
    Rejected { id: Seq<char>, description: Seq<char> },
}

impl View for Incoming {
    type V = IncomingV;

    open spec fn view(&self) -> IncomingV {
        match self {
            Incoming::Dropped => IncomingV::Dropped,
            Incoming::Initialized => IncomingV::Initialized,
            Incoming::Cancelled(c) => IncomingV::Cancelled(c@),
            Incoming::Ignored => IncomingV::Ignored,
            Incoming::Call(c) => IncomingV::Call(c@),
            Incoming::Rejected { id, description } => IncomingV::Rejected {
                id: id@,
                description: description@,
            },
        }
    }
}

/// The string held by an optional member.
pub open spec fn string_member(t: Option<Seq<char>>) -> Option<Seq<char>> {
    match t {
        Some(v) => string_in(v),
        None => None,
    }
}

/// A JSON-RPC request: an object with `"jsonrpc": "2.0"`, an `id` of any
/// value and a string `method`; `params` is optional and `null` counts as absent.
pub open spec fn request_of(j: JsonV) -> Option<CallV> {
    if string_member(field(j, "jsonrpc"@)) == Some("2.0"@) && field(j, "id"@) is Some
        && string_member(field(j, "method"@)) is Some {
        Some(
            CallV {
                id: field(j, "id"@)->0,
                method: string_member(field(j, "method"@))->0,
                params: present(field(j, "params"@)),
            },
        )
    } else {
        None
    }
}

/// The tool name and arguments of the parameters of a tool call: an object
/// with a string `name` and optional `arguments`.
pub open spec fn tool_call_of(params: Option<Seq<char>>) -> Option<(Seq<char>, Option<Seq<char>>)> {
    match params {
        Some(t) => match json_of(t) {
            Some(o) => match string_member(field(o, "name"@)) {
                Some(n) => Some((n, present(field(o, "arguments"@)))),
                None => None,
            },
            None => None,
        },
        None => None,
    }
}

/// The parameters of a cancellation: an object with a `requestId` and an
/// optional string `reason`.
pub open spec fn cancelled_of(params: Option<Seq<char>>) -> Option<CancelledV> {
    match params {
        Some(t) => match json_of(t) {
            Some(o) => {
                let reason = present(field(o, "reason"@));
                if field(o, "requestId"@) is Some && (reason is None || string_member(reason) is Some) {
                    Some(
                        CancelledV {
                            request_id: field(o, "requestId"@)->0,
                            reason: string_member(reason),
                        },
                    )
                } else {
                    None
                }
            },
            None => None,
        },
        None => None,
    }
}

/// The method name reserved for generic tool invocation.
pub open spec fn tool_call_method() -> Seq<char> {
    "tools/call"@
}

/// What the error answer to an undecodable tool call says.
pub open spec fn tool_call_rejection() -> Seq<char> {
    "tools/call params must be an object with a string name"@
}

/// A request after tool-call rewriting: a tool call becomes a call of the
/// named tool with its arguments, under the same `id`.
pub open spec fn rewritten(c: CallV) -> IncomingV {
    if c.method == tool_call_method() {
        match tool_call_of(c.params) {
            Some((name, arguments)) => IncomingV::Call(CallV { id: c.id, method: name, params: arguments }),
            None => IncomingV::Rejected { id: c.id, description: tool_call_rejection() },
        }
    } else {
        IncomingV::Call(c)
    }
}

/// A notification (an object without `id`), by its method.
pub open spec fn notification_of(j: JsonV) -> IncomingV {
    match string_member(field(j, "method"@)) {
        Some(m) => if m == "notifications/initialized"@ {
            IncomingV::Initialized
        } else if m == "notifications/cancelled"@ {
            match cancelled_of(field(j, "params"@)) {
                Some(c) => IncomingV::Cancelled(c),
                None => IncomingV::Ignored,
            }
        } else {
            IncomingV::Ignored
        },
        None => if field(j, "method"@) is Some { IncomingV::Ignored } else { IncomingV::Dropped },
    }
}

/// What one input line asks of the server.
pub open spec fn incoming_of(line: Seq<char>) -> IncomingV {
    match json_of(line) {
        None => IncomingV::Dropped,
        Some(j) => if j is Object && field(j, "id"@) is None {
            notification_of(j)
        } else {
            match request_of(j) {
                Some(c) => rewritten(c),
                None => IncomingV::Dropped,
            }
        },
    }
}

/// The string held by an optional member.
fn string_member_exec(t: &Option<String>) -> (r: Option<String>)
    ensures
        view_str_opt(r) == string_member(view_str_opt(*t)),
{
    match t {
        Some(v) => string_in_text(v),
        None => None,
    }
}

/// Reads a JSON-RPC request out of a parsed value.
pub fn request_from(j: &Json) -> (r: Option<Call>)
    ensures
        match r {
            Some(c) => request_of(j@) == Some(c@),
            None => request_of(j@) is None,
        },
{
    let version = string_member_exec(&j.get("jsonrpc"));
    let id = j.get("id");
    let method = string_member_exec(&j.get("method"));
    let ok_version = match &version {
        Some(v) => same_text(v, "2.0"),
        None => false,
    };
    if !ok_version {
        return None;
    }
    match (id, method) {
        (Some(id), Some(method)) => Some(Call { id, method, params: present_value(j.get("params")) }),
        _ => None,
    }
}

/// Reads the tool name and arguments out of the parameters of a tool call.
pub fn tool_call_from(params: &Option<String>) -> (r: Option<(String, Option<String>)>)
    ensures
        match r {
            Some(p) => tool_call_of(view_str_opt(*params)) == Some((p.0@, view_str_opt(p.1))),
            None => tool_call_of(view_str_opt(*params)) is None,
        },
{
    match params {
        Some(t) => match parse_text(t.as_str()) {
            Some(o) => match string_member_exec(&o.get("name")) {
                Some(n) => Some((n, present_value(o.get("arguments")))),
                None => None,
            },
            None => None,
        },
        None => None,
    }
}

/// Reads the parameters of a cancellation notification.
pub fn cancelled_from(params: &Option<String>) -> (r: Option<CancelledNotification>)
    ensures
        match r {
            Some(c) => cancelled_of(view_str_opt(*params)) == Some(c@),
            None => cancelled_of(view_str_opt(*params)) is None,
        },
{
    match params {
        Some(t) => match parse_text(t.as_str()) {
            Some(o) => {
                let reason = present_value(o.get("reason"));
                let reason_text = string_member_exec(&reason);
                let reason_ok = match (&reason, &reason_text) {
                    (None, _) => true,
                    (Some(_), Some(_)) => true,
                    (Some(_), None) => false,
                };
                match o.get("requestId") {
                    Some(request_id) => if reason_ok {
                        Some(CancelledNotification { request_id, reason: reason_text })
                    } else {
                        None
                    },
                    None => None,
                }
            },
            None => None,
        },
        None => None,
    }
}

/// Applies tool-call rewriting to a request.
pub fn rewrite(c: Call) -> (r: Incoming)
    ensures
        r@ == rewritten(c@),
{
    if same_text(&c.method, "tools/call") {
        match tool_call_from(&c.params) {
            Some((name, arguments)) => Incoming::Call(Call { id: c.id, method: name, params: arguments }),
            None => Incoming::Rejected {
                id: c.id,
                description: String::from_str("tools/call params must be an object with a string name"),
            },
        }
    } else {
        Incoming::Call(c)
    }
}

/// Classifies a notification by its method.
pub fn notification_from(j: &Json) -> (r: Incoming)
    ensures
        r@ == notification_of(j@),
{
    let method = j.get("method");
    match string_member_exec(&method) {
        Some(m) => if same_text(&m, "notifications/initialized") {
            Incoming::Initialized
        } else if same_text(&m, "notifications/cancelled") {
            match cancelled_from(&j.get("params")) {
                Some(c) => Incoming::Cancelled(c),
                None => Incoming::Ignored,
            }
        } else {
            Incoming::Ignored
        },
        None => match method {
            Some(_) => Incoming::Ignored,
            None => Incoming::Dropped,
        },
    }
}

/// Classifies one input line: drops what is not JSON or has neither envelope
/// shape, sorts notifications by method, and rewrites tool calls.
pub fn classify(line: &str) -> (r: Incoming)
    ensures
        r@ == incoming_of(line@),
{
    match parse_text(line) {
        None => Incoming::Dropped,
        Some(j) => {
            let is_object = match &j {
                Json::Object(_) => true,
                _ => false,
            };
            if is_object && j.get("id").is_none() {
                notification_from(&j)
            } else {
                match request_from(&j) {
                    Some(c) => rewrite(c),
                    None => Incoming::Dropped,
                }
            }
        },
    }
}

} // verus!
