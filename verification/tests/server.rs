use sysmon::server::{
    busy_recommendation, busy_verdict, dispatch, handle_request, is_blank, parse_error,
    same_text, uptime_hours, Call, Reply, Request, Tool, INVALID_PARAMS, METHOD_NOT_FOUND,
    PARSE_ERROR, PROTOCOL_VERSION, SERVER_NAME, DEFAULT_CPU_BUSY_PERCENT,
    DEFAULT_MEMORY_BUSY_PERCENT,
};

fn request(method: &str, id: u64, tool: Option<&str>) -> Request<u64> {
    Request {
        jsonrpc: "2.0".to_string(),
        id: Some(id),
        method: method.to_string(),
        tool_name: tool.map(|t| t.to_string()),
    }
}

fn answer(req: Request<u64>) -> Reply<u64> {
    dispatch(req).expect("a reply")
}

#[test]
fn initialize_returns_server_info() {
    let resp = answer(request("initialize", 1, None));
    assert_eq!(resp.id, Some(1));
    assert!(matches!(resp.outcome, Ok(Call::Initialize)));
    assert_eq!(PROTOCOL_VERSION, "2024-11-05");
    assert_eq!(SERVER_NAME, "sysmon-mcp");
}

#[test]
fn tools_list_returns_all_tools() {
    let resp = answer(request("tools/list", 1, None));
    assert!(matches!(resp.outcome, Ok(Call::ListTools)));
    let names: Vec<&str> = Tool::all().iter().map(|t| t.name()).collect();
    assert!(names.contains(&"get_metrics"));
    assert!(names.contains(&"get_cpu"));
    assert!(names.contains(&"get_memory"));
    assert!(names.contains(&"get_disk"));
    assert!(names.contains(&"get_load"));
    assert!(names.contains(&"is_system_busy"));
    assert_eq!(names.len(), 6);
}

#[test]
fn tool_names_round_trip() {
    for t in Tool::all() {
        assert_eq!(Tool::from_name(t.name()), Some(t));
        assert!(!t.description().is_empty());
    }
    assert_eq!(Tool::from_name("get_cpu "), None);
}

#[test]
fn tools_call_runs_named_tool_and_samples() {
    for t in Tool::all() {
        let resp = answer(request("tools/call", 3, Some(t.name())));
        assert!(matches!(resp.outcome, Ok(Call::Tool(x)) if x == t));
        assert!(resp.samples_metrics);
    }
}

#[test]
fn unknown_tool_returns_error() {
    let resp = answer(request("tools/call", 1, Some("nonexistent")));
    let err = resp.outcome.err().expect("an error");
    assert_eq!(err.code, -32602);
    assert_eq!(err.code, INVALID_PARAMS);
    assert_eq!(err.message, "unknown tool: nonexistent");
    assert!(resp.samples_metrics);
}

#[test]
fn missing_tool_name_returns_error() {
    let resp = answer(request("tools/call", 1, None));
    let err = resp.outcome.err().expect("an error");
    assert_eq!(err.code, INVALID_PARAMS);
    assert_eq!(err.message, "missing tool name");
    assert!(!resp.samples_metrics);
}

#[test]
fn unknown_method_returns_error() {
    let resp = answer(request("nonexistent/method", 1, None));
    let err = resp.outcome.err().expect("an error");
    assert_eq!(err.code, -32601);
    assert_eq!(err.code, METHOD_NOT_FOUND);
    assert_eq!(err.message, "Method not found: nonexistent/method");
}

#[test]
fn ping_returns_empty_object() {
    let resp = answer(request("ping", 1, None));
    assert!(matches!(resp.outcome, Ok(Call::Ping)));
    assert!(!resp.samples_metrics);
}

#[test]
fn parse_error_returns_json_rpc_error() {
    let detail = serde_json::from_str::<serde_json::Value>("not valid json")
        .unwrap_err()
        .to_string();
    let resp = handle_request::<u64>("not valid json", Err(detail.clone())).expect("a reply");
    assert_eq!(resp.id, None);
    let err = resp.outcome.err().expect("an error");
    assert_eq!(err.code, -32700);
    assert_eq!(err.code, PARSE_ERROR);
    assert_eq!(err.message, format!("Parse error: {detail}"));
}

#[test]
fn parse_error_reply_has_null_id() {
    let resp: Reply<u64> = parse_error("EOF while parsing");
    assert_eq!(resp.id, None);
    assert_eq!(resp.outcome.err().unwrap().message, "Parse error: EOF while parsing");
}

#[test]
fn empty_line_returns_none() {
    assert!(handle_request::<u64>("", Err("EOF while parsing a value".to_string())).is_none());
    assert!(handle_request::<u64>("   ", Err("EOF while parsing a value".to_string())).is_none());
    assert!(handle_request("\t\u{3000}\r", Ok(request("ping", 1, None))).is_none());
}

#[test]
fn notification_without_id_returns_none() {
    let req = Request::<u64> {
        jsonrpc: "2.0".to_string(),
        id: None,
        method: "notifications/initialized".to_string(),
        tool_name: None,
    };
    assert!(handle_request("{\"jsonrpc\":\"2.0\",\"method\":\"notifications/initialized\"}", Ok(req)).is_none());
}

#[test]
fn wrong_jsonrpc_version_returns_none() {
    let req = Request::<u64> {
        jsonrpc: "1.0".to_string(),
        id: Some(1),
        method: "ping".to_string(),
        tool_name: None,
    };
    assert!(handle_request("{\"jsonrpc\":\"1.0\",\"id\":1,\"method\":\"ping\"}", Ok(req)).is_none());
}

#[test]
fn reply_echoes_json_id() {
    let req = Request {
        jsonrpc: "2.0".to_string(),
        id: Some(serde_json::Value::String("abc".to_string())),
        method: "ping".to_string(),
        tool_name: None,
    };
    let resp = dispatch(req).unwrap();
    assert_eq!(resp.id, Some(serde_json::Value::String("abc".to_string())));
}

#[test]
fn blank_lines() {
    assert!(is_blank(""));
    assert!(is_blank(" \t\n\r\u{b}\u{c}\u{85}\u{a0}\u{2009}\u{3000}"));
    assert!(!is_blank(" x "));
    assert!(!is_blank("\u{200b}"));
    for c in ['\u{1680}', '\u{2028}', '\u{2029}', '\u{202f}', '\u{205f}', '\u{200b}', 'a', '\u{180e}'] {
        assert_eq!(is_blank(&c.to_string()), c.to_string().trim().is_empty(), "{c:?}");
    }
}

#[test]
fn text_equality() {
    assert!(same_text("ping", "ping"));
    assert!(!same_text("ping", "pong"));
    assert!(!same_text("ping", "ping2"));
    assert!(same_text("", ""));
}

#[test]
fn busy_verdicts() {
    assert_eq!(
        busy_verdict(true, true),
        (true, "System is under heavy load. Defer resource-intensive tasks.")
    );
    assert_eq!(
        busy_verdict(true, false),
        (true, "CPU is busy. Consider waiting before running builds or heavy computation.")
    );
    assert_eq!(
        busy_verdict(false, true),
        (true, "Memory is low. Avoid spawning many parallel processes.")
    );
    assert_eq!(
        busy_verdict(false, false),
        (false, "System resources are available. Safe to proceed with tasks.")
    );
    assert_eq!(busy_recommendation(false, false), busy_verdict(false, false).1);
}

#[test]
fn uptime_in_whole_hours() {
    assert_eq!(uptime_hours(0), 0);
    assert_eq!(uptime_hours(3599), 0);
    assert_eq!(uptime_hours(3600), 1);
    assert_eq!(uptime_hours(432000), 120);
}

#[test]
fn busy_check_parameters_and_defaults() {
    let ps = Tool::IsSystemBusy.parameters();
    assert_eq!(ps.len(), 2);
    assert_eq!(ps[0].name, "cpu_threshold");
    assert_eq!(ps[0].description, "CPU usage percentage threshold (default: 80)");
    assert_eq!(ps[0].default_percent, 80);
    assert_eq!(ps[1].name, "memory_threshold");
    assert_eq!(ps[1].description, "Memory usage percentage threshold (default: 85)");
    assert_eq!(ps[1].default_percent, 85);
    assert_eq!(DEFAULT_CPU_BUSY_PERCENT, 80);
    assert_eq!(DEFAULT_MEMORY_BUSY_PERCENT, 85);
    for t in Tool::all() {
        if t != Tool::IsSystemBusy {
            assert!(t.parameters().is_empty());
        }
    }
}
