use rs_filesystem::args::Args;
use rs_filesystem::json::Json;
use rs_filesystem::message::{classify, Incoming};
use rs_filesystem::reply::{generic_error_payload, reply, Outcome};
use rs_filesystem::session::on_line;
use rs_filesystem::shutdown::{Action, Event, Phase};

fn call_of(line: &str) -> (String, String, Option<String>) {
    match classify(line) {
        Incoming::Call(c) => (c.id, c.method, c.params),
        _ => panic!("expected a call for {}", line),
    }
}

fn success(v: &str) -> Outcome {
    Outcome::Success(v.to_string())
}

#[test]
fn ping_is_answered_with_its_id() {
    let line = r#"{"jsonrpc":"2.0","id":1,"method":"ping","params":null}"#;
    let (id, method, params) = call_of(line);
    assert_eq!(id, "1");
    assert_eq!(method, "ping");
    assert_eq!(params, None);
    let out = reply(&id, &success("{}"));
    assert_eq!(out.as_deref(), Some(r#"{"jsonrpc":"2.0","id":1,"result":{}}"#));
}

#[test]
fn tool_call_is_dispatched_as_the_tool() {
    let line = r#"{"jsonrpc":"2.0","id":2,"method":"tools/call","params":{"name":"list_dir","arguments":{"path":"/tmp"}}}"#;
    let (id, method, params) = call_of(line);
    assert_eq!(id, "2");
    assert_eq!(method, "list_dir");
    assert_eq!(params.as_deref(), Some(r#"{"path":"/tmp"}"#));
    let out = reply(&id, &success("[]")).unwrap();
    assert!(out.starts_with(r#"{"jsonrpc":"2.0","id":2,"#));
}

#[test]
fn tool_call_matches_direct_request() {
    let via_tool = r#"{"jsonrpc":"2.0","id":"a","method":"tools/call","params":{"name":"read_file","arguments":{"path":"/x"}}}"#;
    let direct = r#"{"jsonrpc":"2.0","id":"a","method":"read_file","params":{"path":"/x"}}"#;
    assert_eq!(call_of(via_tool), call_of(direct));
    let without_args = r#"{"jsonrpc":"2.0","id":3,"method":"tools/call","params":{"name":"list"}}"#;
    let direct_without = r#"{"jsonrpc":"2.0","id":3,"method":"list"}"#;
    assert_eq!(call_of(without_args), call_of(direct_without));
}

#[test]
fn initialized_notification_gets_no_answer() {
    let line = r#"{"method":"notifications/initialized"}"#;
    assert!(matches!(classify(line), Incoming::Initialized));
}

#[test]
fn garbage_is_dropped_but_recorded() {
    let step = on_line("not json");
    assert_eq!(step.record, "not json");
    assert!(matches!(step.incoming, Incoming::Dropped));
}

#[test]
fn every_line_is_recorded_once() {
    for line in ["", "   ", "[1,2]", r#"{"method":"x"}"#, r#"{"jsonrpc":"2.0","id":7,"method":"ping"}"#] {
        let step = on_line(line);
        assert_eq!(step.record, line);
    }
    assert!(matches!(on_line("").incoming, Incoming::Dropped));
}

#[test]
fn signal_mid_read_exits_zero_after_cleanup() {
    for signal in [Event::Interrupt, Event::Terminate] {
        let (p, a) = Phase::Running.on(signal);
        assert_eq!(p, Phase::ShuttingDown);
        assert_eq!(a, Action::Cleanup);
        let (p, a) = p.on(Event::CleanupDone);
        assert_eq!(p, Phase::Terminated);
        assert_eq!(a, Action::Exit(0));
    }
}

#[test]
fn end_of_input_also_shuts_down() {
    assert_eq!(Phase::Running.on(Event::InputClosed), (Phase::ShuttingDown, Action::Cleanup));
    assert_eq!(Phase::Running.on(Event::CleanupDone), (Phase::Running, Action::Continue));
    assert_eq!(Phase::ShuttingDown.on(Event::Interrupt), (Phase::ShuttingDown, Action::Continue));
    assert_eq!(Phase::Terminated.on(Event::Terminate), (Phase::Terminated, Action::Continue));
}

#[test]
fn unknown_method_gets_generic_error() {
    let out = reply("5", &Outcome::RouterError("MethodUnknown".to_string())).unwrap();
    assert_eq!(
        out,
        r#"{"jsonrpc":"2.0","id":5,"error":{"code":-1,"message":"Invalid json-rpc call, error: MethodUnknown"}}"#
    );
}

#[test]
fn generic_error_message_is_escaped() {
    assert_eq!(
        generic_error_payload("bad \"x\""),
        r#"{"code":-1,"message":"Invalid json-rpc call, error: bad \"x\""}"#
    );
}

#[test]
fn handler_error_payload_is_kept() {
    let out = reply("\"q\"", &Outcome::HandlerError(r#"{"code":-32602,"message":"no"}"#.to_string()));
    assert_eq!(
        out.as_deref(),
        Some(r#"{"jsonrpc":"2.0","id":"q","error":{"code":-32602,"message":"no"}}"#)
    );
}

#[test]
fn null_result_is_suppressed() {
    assert_eq!(reply("1", &success("null")), None);
    assert_eq!(reply("1", &success("0")).as_deref(), Some(r#"{"jsonrpc":"2.0","id":1,"result":0}"#));
    assert_eq!(reply("1", &success("\"null\"")).as_deref(), Some(r#"{"jsonrpc":"2.0","id":1,"result":"null"}"#));
}

#[test]
fn same_request_under_two_ids() {
    let a = call_of(r#"{"jsonrpc":"2.0","id":10,"method":"tools/list"}"#);
    let b = call_of(r#"{"jsonrpc":"2.0","id":11,"method":"tools/list"}"#);
    assert_eq!((a.1.clone(), a.2.clone()), (b.1.clone(), b.2.clone()));
    let ra = reply(&a.0, &success("{\"tools\":[]}")).unwrap();
    let rb = reply(&b.0, &success("{\"tools\":[]}")).unwrap();
    assert_eq!(ra, r#"{"jsonrpc":"2.0","id":10,"result":{"tools":[]}}"#);
    assert_eq!(rb, r#"{"jsonrpc":"2.0","id":11,"result":{"tools":[]}}"#);
}

#[test]
fn answers_follow_input_order() {
    let lines = [
        r#"{"jsonrpc":"2.0","id":1,"method":"a"}"#,
        r#"{"jsonrpc":"2.0","id":2,"method":"b"}"#,
        r#"{"jsonrpc":"2.0","id":3,"method":"c"}"#,
    ];
    let mut out = Vec::new();
    for line in lines {
        if let Incoming::Call(c) = on_line(line).incoming {
            out.push(reply(&c.id, &success(&format!("\"{}\"", c.method))).unwrap());
        }
    }
    assert_eq!(
        out,
        vec![
            r#"{"jsonrpc":"2.0","id":1,"result":"a"}"#.to_string(),
            r#"{"jsonrpc":"2.0","id":2,"result":"b"}"#.to_string(),
            r#"{"jsonrpc":"2.0","id":3,"result":"c"}"#.to_string(),
        ]
    );
}

#[test]
fn malformed_envelopes_are_dropped() {
    assert!(matches!(classify(r#"{"id":1,"method":"ping"}"#), Incoming::Dropped));
    assert!(matches!(classify(r#"{"jsonrpc":"1.0","id":1,"method":"ping"}"#), Incoming::Dropped));
    assert!(matches!(classify(r#"{"jsonrpc":"2.0","id":1,"method":5}"#), Incoming::Dropped));
    assert!(matches!(classify(r#"{"jsonrpc":"2.0","id":1}"#), Incoming::Dropped));
    assert!(matches!(classify(r#"{"params":{}}"#), Incoming::Dropped));
    assert!(matches!(classify("[1]"), Incoming::Dropped));
    assert!(matches!(classify("42"), Incoming::Dropped));
}

#[test]
fn other_notifications_are_ignored() {
    assert!(matches!(classify(r#"{"method":"notifications/progress"}"#), Incoming::Ignored));
    assert!(matches!(classify(r#"{"method":3}"#), Incoming::Ignored));
}

#[test]
fn cancellation_is_read() {
    let line = r#"{"method":"notifications/cancelled","params":{"requestId":4,"reason":"user"}}"#;
    match classify(line) {
        Incoming::Cancelled(c) => {
            assert_eq!(c.request_id, "4");
            assert_eq!(c.reason.as_deref(), Some("user"));
        },
        _ => panic!("expected a cancellation"),
    }
    let no_reason = r#"{"method":"notifications/cancelled","params":{"requestId":"r"}}"#;
    match classify(no_reason) {
        Incoming::Cancelled(c) => {
            assert_eq!(c.request_id, "\"r\"");
            assert_eq!(c.reason, None);
        },
        _ => panic!("expected a cancellation"),
    }
}

#[test]
fn malformed_cancellation_is_skipped() {
    assert!(matches!(classify(r#"{"method":"notifications/cancelled"}"#), Incoming::Ignored));
    assert!(matches!(classify(r#"{"method":"notifications/cancelled","params":{"reason":"x"}}"#), Incoming::Ignored));
    assert!(matches!(
        classify(r#"{"method":"notifications/cancelled","params":{"requestId":1,"reason":2}}"#),
        Incoming::Ignored
    ));
}

#[test]
fn undecodable_tool_call_is_rejected() {
    for line in [
        r#"{"jsonrpc":"2.0","id":9,"method":"tools/call"}"#,
        r#"{"jsonrpc":"2.0","id":9,"method":"tools/call","params":{"arguments":{}}}"#,
        r#"{"jsonrpc":"2.0","id":9,"method":"tools/call","params":{"name":1}}"#,
    ] {
        match classify(line) {
            Incoming::Rejected { id, description } => {
                assert_eq!(id, "9");
                let out = reply(&id, &Outcome::RouterError(description)).unwrap();
                assert!(out.starts_with(r#"{"jsonrpc":"2.0","id":9,"error":{"code":-1,"#));
            },
            _ => panic!("expected a rejection for {}", line),
        }
    }
}

#[test]
fn json_members_are_looked_up() {
    let j = Json::parse(r#"{"b":[1, 2],"a":"x"}"#).unwrap();
    assert_eq!(j.get("a").as_deref(), Some("\"x\""));
    assert_eq!(j.get("b").as_deref(), Some("[1,2]"));
    assert_eq!(j.get("c"), None);
    assert!(Json::parse("{").is_none());
    assert!(matches!(Json::parse("null"), Some(Json::Null)));
}

#[test]
fn args_availability() {
    let none = Args { resources: false, prompts: false, tools: false, mcp: true };
    assert!(!none.is_args_available());
    let tools = Args { resources: false, prompts: false, tools: true, mcp: false };
    assert!(tools.is_args_available());
}
