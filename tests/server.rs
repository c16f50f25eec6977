use kagi_mcp::json::JsonValue;
use kagi_mcp::protocol::{McpRequest, McpResponse, Tool, decode_request};
use kagi_mcp::server::{Dispatch, McpServer, ToolHandler};
use kagi_mcp::transport::{LineAction, ReadOutcome, Transport};

struct TestHandler;

impl ToolHandler for TestHandler {
    fn get_tools(&self) -> Vec<Tool> {
        vec![Tool {
            name: "test".to_string(),
            description: "A test tool".to_string(),
            input_schema: obj(vec![("type", text("object"))]),
        }]
    }
}

fn text(s: &str) -> JsonValue {
    JsonValue::Str(s.to_string())
}

fn num(s: &str) -> JsonValue {
    JsonValue::Number(s.to_string())
}

fn obj(members: Vec<(&str, JsonValue)>) -> JsonValue {
    JsonValue::Object(members.into_iter().map(|(k, v)| (k.to_string(), v)).collect())
}

fn member<'a>(v: &'a JsonValue, key: &str) -> Option<&'a JsonValue> {
    v.get(key)
}

fn str_of(v: Option<&JsonValue>) -> Option<String> {
    v.and_then(|x| x.as_str()).cloned()
}

fn request(method: &str, params: Option<JsonValue>) -> McpRequest {
    McpRequest { jsonrpc: "2.0".to_string(), id: num("1"), method: method.to_string(), params }
}

fn reply(d: Dispatch) -> McpResponse {
    match d {
        Dispatch::Reply(r) => r,
        Dispatch::Invoke(_) => panic!("expected a reply"),
    }
}

fn error_code(r: &McpResponse) -> i32 {
    r.error.as_ref().expect("an error").code
}

fn error_message(r: &McpResponse) -> String {
    r.error.as_ref().expect("an error").message.clone()
}

#[test]
fn test_initialize() {
    let handler = TestHandler;
    let server = McpServer::new("test-server", "1.0.0", handler);

    let request = McpRequest {
        jsonrpc: "2.0".to_string(),
        id: num("1"),
        method: "initialize".to_string(),
        params: None,
    };

    let response = reply(server.handle_request(request));
    assert!(response.result.is_some());
    assert!(response.error.is_none());
}

#[test]
fn test_tools_list() {
    let handler = TestHandler;
    let server = McpServer::new("test-server", "1.0.0", handler);

    let request = McpRequest {
        jsonrpc: "2.0".to_string(),
        id: num("1"),
        method: "tools/list".to_string(),
        params: None,
    };

    let response = reply(server.handle_request(request));
    assert!(response.result.is_some());

    if let Some(result) = response.result {
        if let Some(tools) = result.get("tools").and_then(|v| v.as_array()) {
            assert_eq!(tools.len(), 1);
            assert_eq!(str_of(tools[0].get("name")), Some("test".to_string()));
        }
    }
}

#[test]
fn initialize_reports_identity() {
    let server = McpServer::new("kagi-mcp-server", "0.3.1", TestHandler);
    let r = reply(server.handle_request(request("initialize", None)));
    let result = r.result.as_ref().unwrap();
    let info = member(result, "serverInfo").unwrap();
    assert_eq!(str_of(member(info, "name")), Some("kagi-mcp-server".to_string()));
    assert_eq!(str_of(member(info, "version")), Some("0.3.1".to_string()));
    assert_eq!(str_of(member(result, "protocolVersion")), Some("2024-11-05".to_string()));
    let caps = member(result, "capabilities").unwrap();
    assert!(matches!(member(caps, "tools"), Some(JsonValue::Object(m)) if m.is_empty()));
    assert!(r.error.is_none());
    assert!(matches!(r.id, JsonValue::Number(ref n) if n == "1"));
}

#[test]
fn unparseable_line_gets_null_id_parse_error() {
    let server = McpServer::new("s", "1", TestHandler);
    let r = reply(server.handle_parsed(Err("expected value at line 1 column 1".to_string())));
    assert!(matches!(r.id, JsonValue::Null));
    assert_eq!(error_code(&r), -32700);
    assert_eq!(error_message(&r), "Parse error: expected value at line 1 column 1");
    assert!(r.result.is_none());
}

#[test]
fn value_without_method_gets_parse_error() {
    let server = McpServer::new("s", "1", TestHandler);
    let v = obj(vec![("jsonrpc", text("2.0")), ("id", num("7"))]);
    let r = reply(server.handle_parsed(Ok(v)));
    assert!(matches!(r.id, JsonValue::Null));
    assert_eq!(error_code(&r), -32700);
    assert_eq!(error_message(&r), "Parse error: missing field `method`");
}

#[test]
fn value_that_is_no_object_gets_parse_error() {
    let server = McpServer::new("s", "1", TestHandler);
    let r = reply(server.handle_parsed(Ok(num("3"))));
    assert_eq!(error_code(&r), -32700);
    assert_eq!(error_message(&r), "Parse error: expected a JSON object");
}

#[test]
fn method_of_wrong_type_gets_parse_error() {
    let v = obj(vec![("jsonrpc", text("2.0")), ("id", num("7")), ("method", num("5"))]);
    let e = decode_request(&v).err().expect("refused");
    assert_eq!(e.message(), "invalid type for `method`: expected a string");
}

#[test]
fn decoded_request_keeps_fields() {
    let v = obj(vec![
        ("jsonrpc", text("2.0")),
        ("id", text("abc")),
        ("method", text("tools/list")),
        ("params", JsonValue::Null),
        ("extra", num("1")),
    ]);
    let req = decode_request(&v).ok().expect("decoded");
    assert_eq!(req.method, "tools/list");
    assert!(matches!(req.id, JsonValue::Str(ref s) if s == "abc"));
    assert!(req.params.is_none());
}

#[test]
fn parsed_request_is_dispatched() {
    let server = McpServer::new("s", "1", TestHandler);
    let v = obj(vec![("jsonrpc", text("2.0")), ("id", num("9")), ("method", text("initialize"))]);
    let r = reply(server.handle_parsed(Ok(v)));
    assert!(r.result.is_some());
    assert!(matches!(r.id, JsonValue::Number(ref n) if n == "9"));
}

#[test]
fn tools_list_matches_catalog_every_time() {
    let server = McpServer::new("s", "1", TestHandler);
    for _ in 0..2 {
        let r = reply(server.handle_request(request("tools/list", None)));
        let result = r.result.as_ref().unwrap();
        let tools = member(result, "tools").unwrap().as_array().unwrap();
        assert_eq!(tools.len(), 1);
        assert_eq!(str_of(member(&tools[0], "name")), Some("test".to_string()));
        assert_eq!(str_of(member(&tools[0], "description")), Some("A test tool".to_string()));
        let schema = member(&tools[0], "inputSchema").unwrap();
        assert_eq!(str_of(member(schema, "type")), Some("object".to_string()));
    }
    assert_eq!(server.tools.len(), 1);
}

#[test]
fn unknown_tool_is_method_not_found() {
    let server = McpServer::new("s", "1", TestHandler);
    let params = obj(vec![("name", text("nope")), ("arguments", obj(vec![]))]);
    let r = reply(server.handle_request(request("tools/call", Some(params))));
    assert_eq!(error_code(&r), -32601);
    assert_eq!(error_message(&r), "Tool 'nope' not found");
}

#[test]
fn call_without_params_is_invalid() {
    let server = McpServer::new("s", "1", TestHandler);
    let r = reply(server.handle_request(request("tools/call", None)));
    assert_eq!(error_code(&r), -32602);
    assert_eq!(error_message(&r), "Missing parameters");
}

#[test]
fn call_without_name_is_invalid() {
    let server = McpServer::new("s", "1", TestHandler);
    let params = obj(vec![("name", num("4")), ("arguments", obj(vec![]))]);
    let r = reply(server.handle_request(request("tools/call", Some(params))));
    assert_eq!(error_code(&r), -32602);
    assert_eq!(error_message(&r), "Missing name parameter");
}

#[test]
fn call_without_arguments_is_invalid() {
    let server = McpServer::new("s", "1", TestHandler);
    let params = obj(vec![("name", text("test"))]);
    let r = reply(server.handle_request(request("tools/call", Some(params))));
    assert_eq!(error_code(&r), -32602);
    assert_eq!(error_message(&r), "Missing arguments parameter");
}

#[test]
fn call_of_registered_tool_asks_for_invocation() {
    let server = McpServer::new("s", "1", TestHandler);
    let params = obj(vec![("name", text("test")), ("arguments", obj(vec![("q", text("x"))]))]);
    match server.handle_request(request("tools/call", Some(params))) {
        Dispatch::Invoke(call) => {
            assert_eq!(call.name, "test");
            assert_eq!(str_of(call.arguments.get("q")), Some("x".to_string()));
            assert!(matches!(call.id, JsonValue::Number(ref n) if n == "1"));
        }
        Dispatch::Reply(_) => panic!("expected an invocation"),
    }
}

#[test]
fn unknown_method_is_method_not_found() {
    let server = McpServer::new("s", "1", TestHandler);
    let r = reply(server.handle_request(request("resources/list", None)));
    assert_eq!(error_code(&r), -32601);
    assert_eq!(error_message(&r), "Method not found: resources/list");
}

#[test]
fn tool_content_is_returned_as_is() {
    let block = obj(vec![("type", text("text")), ("text", text("X"))]);
    let r = McpServer::<TestHandler>::complete_tool_call(num("5"), Ok(vec![block]));
    assert!(r.error.is_none());
    let content = member(r.result.as_ref().unwrap(), "content").unwrap().as_array().unwrap();
    assert_eq!(content.len(), 1);
    assert_eq!(str_of(member(&content[0], "type")), Some("text".to_string()));
    assert_eq!(str_of(member(&content[0], "text")), Some("X".to_string()));
    let encoded = r.into_json();
    assert!(member(&encoded, "error").is_none());
}

#[test]
fn tool_failure_is_tool_error() {
    let r = McpServer::<TestHandler>::complete_tool_call(num("5"), Err("boom".to_string()));
    assert_eq!(error_code(&r), -1);
    assert_eq!(error_message(&r), "boom");
    assert!(r.result.is_none());
}

#[test]
fn encoded_response_has_exactly_one_outcome() {
    let ok = McpResponse::success(num("1"), obj(vec![]));
    let okj = ok.into_json();
    assert!(member(&okj, "result").is_some() && member(&okj, "error").is_none());
    assert_eq!(str_of(member(&okj, "jsonrpc")), Some("2.0".to_string()));
    let bad = McpResponse::failure(num("1"), -32602, "Missing parameters".to_string());
    let badj = bad.into_json();
    assert!(member(&badj, "result").is_none());
    let err = member(&badj, "error").unwrap();
    assert!(matches!(member(err, "code"), Some(JsonValue::Number(n)) if n == "-32602"));
    assert!(member(err, "data").is_none());
}

#[test]
fn blank_line_is_skipped_and_not_counted() {
    let mut t = Transport::new();
    assert!(matches!(t.on_read(ReadOutcome::Line("   \t\r\n".to_string())), LineAction::Skip));
    assert_eq!(t.handled, 0);
    assert!(!t.finished);
}

#[test]
fn request_line_is_trimmed_and_counted() {
    let mut t = Transport::new();
    match t.on_read(ReadOutcome::Line("  {\"a\":1}\n".to_string())) {
        LineAction::Handle(s) => assert_eq!(s, "{\"a\":1}"),
        _ => panic!("expected a line to handle"),
    }
    assert_eq!(t.handled, 1);
}

#[test]
fn end_of_stream_stops() {
    let mut t = Transport::new();
    assert!(matches!(t.on_read(ReadOutcome::EndOfStream), LineAction::Stop));
    assert!(t.finished);
    assert_eq!(t.handled, 0);
    assert!(matches!(t.on_read(ReadOutcome::Line("x".to_string())), LineAction::Stop));
}

#[test]
fn deep_copy_is_equal() {
    let v = obj(vec![("a", JsonValue::Array(vec![JsonValue::Bool(true), JsonValue::Null, num("2.5")]))]);
    let c = v.deep_copy();
    let items = c.get("a").unwrap().as_array().unwrap();
    assert_eq!(items.len(), 3);
    assert_eq!(items[0].as_bool(), Some(true));
    assert!(matches!(items[2], JsonValue::Number(ref n) if n == "2.5"));
}
