use get_my_notion_mcp::github::{FetchOutcome, HttpReply};
use get_my_notion_mcp::handlers::{ListFilesHandler, NotionRepoResourceHandler};
use get_my_notion_mcp::json::Json;
use get_my_notion_mcp::mcp::{McpNotification, McpResponse, RequestId, Resource, Tool, ToolContent};
use get_my_notion_mcp::server::{
    create_default_server, is_blank, Action, Dispatch, Event, LineStep, McpServer,
    ResourceHandler, Session, ToolHandler,
};

fn s(t: &str) -> Json {
    Json::Str(t.to_string())
}

fn obj(members: Vec<(&str, Json)>) -> Json {
    Json::Object(members.into_iter().map(|(k, v)| (k.to_string(), v)).collect())
}

fn ok(body: Json) -> FetchOutcome {
    FetchOutcome::Reply(HttpReply {
        status: 200,
        status_text: "200 OK".to_string(),
        body: Some(body),
    })
}

fn respond(step: LineStep) -> McpResponse {
    match step {
        LineStep::Respond(r) => r,
        other => panic!("expected a response, got {:?}", other),
    }
}

fn error_of(r: &McpResponse) -> (&RequestId, i32, &str) {
    match r {
        McpResponse::Error { id, error } => (id, error.code, error.message.as_str()),
        other => panic!("expected an error, got {:?}", other),
    }
}

fn call_tool(id: &str, name: &str, arguments: Option<Json>) -> Json {
    let mut params = vec![("name", s(name))];
    if let Some(a) = arguments {
        params.push(("arguments", a));
    }
    obj(vec![
        ("method", s("tools/call")),
        ("id", s(id)),
        ("params", obj(params)),
    ])
}

fn is_string_id(id: &RequestId, expected: &str) -> bool {
    matches!(id, RequestId::String(t) if t == expected)
}

#[test]
fn test_mcp_server_initialization() {
    let mut server = McpServer::new();
    let list_files_tool = Tool {
        name: "list_files".to_string(),
        description: "List files in the my-notion GitHub repository".to_string(),
        input_schema: obj(vec![
            ("type", s("object")),
            (
                "properties",
                obj(vec![(
                    "path",
                    obj(vec![
                        ("type", s("string")),
                        (
                            "description",
                            s("Optional path within the repository (default: root)"),
                        ),
                    ]),
                )]),
            ),
        ]),
    };
    let repo_info_resource = Resource {
        uri: "notion://repo/info".to_string(),
        name: "My Notion Repository Info".to_string(),
        description: Some("Information about the my-notion GitHub repository".to_string()),
        mime_type: Some("text/plain".to_string()),
    };
    server.add_tool(list_files_tool, ToolHandler::ListFiles(ListFilesHandler::new()));
    server.add_resource(
        repo_info_resource,
        ResourceHandler::NotionRepo(NotionRepoResourceHandler::new()),
    );
    assert_eq!(server.tools().len(), 1);
    assert_eq!(server.resources().len(), 1);
}

#[test]
fn tools_list_line_names_the_three_tools() {
    let server = create_default_server();
    let line = r#"{"method":"tools/list","id":"1"}"#;
    let parsed = obj(vec![("method", s("tools/list")), ("id", s("1"))]);
    let response = respond(server.on_line(line, Ok(parsed)));
    let j = response.to_json();
    assert!(matches!(j.get("id"), Some(Json::Str(t)) if t == "1"));
    let tools = match j.get("result").and_then(|r| r.get("tools")) {
        Some(Json::Array(items)) => items,
        other => panic!("unexpected {:?}", other),
    };
    let names: Vec<&str> = tools
        .iter()
        .map(|t| t.get_text("name").unwrap().as_str())
        .collect();
    assert_eq!(names, vec!["list_files", "get_file_content", "get_latest_commit"]);
}

#[test]
fn default_server_lists_full_descriptors() {
    let server = create_default_server();
    let tools = server.tools();
    assert_eq!(tools.len(), 3);
    assert_eq!(tools[0].description, "List files in the my-notion GitHub repository");
    assert_eq!(
        tools[1].description,
        "Get content of a specific file from the my-notion repository"
    );
    assert_eq!(
        tools[2].description,
        "Get the latest commit SHA from the my-notion repository"
    );
    assert!(matches!(tools[1].input_schema.get("required"), Some(Json::Array(r)) if r.len() == 1));
    let resources = server.resources();
    assert_eq!(resources.len(), 1);
    assert_eq!(resources[0].name, "My Notion Repository Info");
    assert_eq!(
        resources[0].description.as_deref(),
        Some("Information about the my-notion GitHub repository")
    );
    assert_eq!(resources[0].mime_type.as_deref(), Some("text/plain"));
}

#[test]
fn get_file_content_without_path_is_an_internal_error() {
    let server = create_default_server();
    let line = r#"{"method":"tools/call","id":"2","params":{"name":"get_file_content","arguments":{}}}"#;
    let parsed = call_tool("2", "get_file_content", Some(obj(vec![])));
    let response = respond(server.on_line(line, Ok(parsed)));
    let (id, code, message) = error_of(&response);
    assert!(is_string_id(id, "2"));
    assert_eq!(code, -32603);
    assert_eq!(message, "Tool execution failed: Path parameter is required");
}

#[test]
fn get_file_content_with_no_arguments_is_an_internal_error() {
    let server = create_default_server();
    let response = respond(server.on_line("x", Ok(call_tool("5", "get_file_content", None))));
    let (_, code, message) = error_of(&response);
    assert_eq!(code, -32603);
    assert!(message.contains("Path parameter is required"));
}

#[test]
fn unknown_resource_is_method_not_found() {
    let server = create_default_server();
    let line = r#"{"method":"resources/read","id":"3","params":{"uri":"unknown://x"}}"#;
    let parsed = obj(vec![
        ("method", s("resources/read")),
        ("id", s("3")),
        ("params", obj(vec![("uri", s("unknown://x"))])),
    ]);
    let response = respond(server.on_line(line, Ok(parsed)));
    let (id, code, message) = error_of(&response);
    assert!(is_string_id(id, "3"));
    assert_eq!(code, -32601);
    assert!(message.contains("unknown://x"));
}

#[test]
fn unknown_tool_is_method_not_found_and_named() {
    let server = create_default_server();
    let response = respond(server.on_line("x", Ok(call_tool("4", "delete_repo", None))));
    let (id, code, message) = error_of(&response);
    assert!(is_string_id(id, "4"));
    assert_eq!(code, -32601);
    assert_eq!(message, "Tool not found: 'delete_repo'");
}

#[test]
fn blank_lines_produce_nothing() {
    let server = create_default_server();
    assert!(is_blank(""));
    assert!(is_blank(" \t\r\n\u{3000}"));
    assert!(!is_blank(" x "));
    assert!(matches!(
        server.on_line("   ", Err("EOF while parsing".to_string())),
        LineStep::Skip
    ));
    let (state, action) = server.step(
        Session::Reading,
        Event::Line(String::new(), Err("EOF while parsing".to_string())),
    );
    assert!(matches!(state, Session::Reading));
    assert!(matches!(action, Action::Read));
}

#[test]
fn initialized_notification_gets_no_response() {
    let server = create_default_server();
    let note = obj(vec![("method", s("notifications/initialized"))]);
    assert!(matches!(
        server.on_line("x", Ok(note)),
        LineStep::Notified(McpNotification::Initialized)
    ));
}

#[test]
fn unparseable_line_is_answered_with_a_null_id() {
    let server = create_default_server();
    let response = respond(server.on_line("{oops", Err("key must be a string".to_string())));
    let (id, code, message) = error_of(&response);
    assert!(matches!(id, RequestId::Null));
    assert_eq!(code, -32601);
    assert_eq!(message, "Error handling request: key must be a string");
}

#[test]
fn unreadable_request_keeps_the_id_it_can_find() {
    let server = create_default_server();
    let by_text = obj(vec![("method", s("nope")), ("id", s("7"))]);
    let r = respond(server.on_line("x", Ok(by_text)));
    let (id, code, _) = error_of(&r);
    assert!(is_string_id(id, "7"));
    assert_eq!(code, -32601);
    let by_number = obj(vec![("method", s("nope")), ("id", Json::Int(8))]);
    let r = respond(server.on_line("x", Ok(by_number)));
    assert!(matches!(error_of(&r).0, RequestId::Number(8)));
    let by_fraction = obj(vec![("method", s("nope")), ("id", Json::Num("1.5".to_string()))]);
    let r = respond(server.on_line("x", Ok(by_fraction)));
    assert!(matches!(error_of(&r).0, RequestId::Number(0)));
    let none = obj(vec![("method", s("nope"))]);
    let r = respond(server.on_line("x", Ok(none)));
    assert!(matches!(error_of(&r).0, RequestId::Null));
    assert_eq!(error_of(&r).2, "Error handling request: not a valid request");
}

#[test]
fn initialize_reports_protocol_and_server() {
    let server = create_default_server();
    let request = obj(vec![
        ("method", s("initialize")),
        ("id", Json::Int(1)),
        (
            "params",
            obj(vec![
                ("protocolVersion", s("2025-08-16")),
                ("capabilities", obj(vec![])),
                (
                    "clientInfo",
                    obj(vec![("name", s("c")), ("version", s("1"))]),
                ),
            ]),
        ),
    ]);
    match respond(server.on_line("x", Ok(request))) {
        McpResponse::Initialize { id, result } => {
            assert!(matches!(id, RequestId::Number(1)));
            assert_eq!(result.protocol_version, "2025-08-16");
            assert_eq!(result.server_info.name, "get-my-notion-mcp");
            assert_eq!(result.server_info.version, "0.1.2");
            assert_eq!(
                result.capabilities.tools.unwrap().list_changed,
                Some(false)
            );
            let resources = result.capabilities.resources.unwrap();
            assert_eq!(resources.subscribe, Some(false));
            assert_eq!(resources.list_changed, Some(false));
        }
        other => panic!("unexpected {:?}", other),
    }
}

#[test]
fn listings_repeat_identically() {
    let server = create_default_server();
    let ask = |method: &str| obj(vec![("method", s(method)), ("id", Json::Int(1))]);
    let first = respond(server.on_line("x", Ok(ask("resources/list"))));
    let second = respond(server.on_line("x", Ok(ask("resources/list"))));
    match (first, second) {
        (
            McpResponse::ListResources { result: a, .. },
            McpResponse::ListResources { result: b, .. },
        ) => {
            assert_eq!(a.resources.len(), 1);
            assert_eq!(b.resources.len(), 1);
            assert_eq!(a.resources[0].uri, "notion://repo/info");
            assert_eq!(a.resources[0].uri, b.resources[0].uri);
            assert_eq!(a.resources[0].name, b.resources[0].name);
        }
        other => panic!("unexpected {:?}", other),
    }
    let t1 = respond(server.on_line("x", Ok(ask("tools/list")))).to_json();
    let t2 = respond(server.on_line("x", Ok(ask("tools/list")))).to_json();
    assert_eq!(format!("{:?}", t1), format!("{:?}", t2));
}

#[test]
fn registered_tool_call_answers_under_its_id() {
    let server = create_default_server();
    let dispatch = match server.on_line("x", Ok(call_tool("10", "get_latest_commit", None))) {
        LineStep::Fetch { pending, request } => {
            assert_eq!(
                request.url,
                "https://api.github.com/repos/ParkJong-Hun/my-notion/commits/main"
            );
            pending
        }
        other => panic!("expected a fetch, got {:?}", other),
    };
    let response = server.on_fetched(dispatch, &ok(obj(vec![("sha", s("abc"))])));
    match response {
        McpResponse::CallTool { id, result } => {
            assert!(is_string_id(&id, "10"));
            assert_eq!(result.content.len(), 1);
            match &result.content[0] {
                ToolContent::Text { text } => assert_eq!(text, "Latest commit SHA: abc"),
            }
        }
        other => panic!("unexpected {:?}", other),
    }
}

#[test]
fn failed_upstream_call_is_an_internal_error_under_its_id() {
    let server = create_default_server();
    let request = obj(vec![
        ("method", s("resources/read")),
        ("id", Json::Int(11)),
        ("params", obj(vec![("uri", s("notion://repo/info"))])),
    ]);
    let pending = match server.handle_request(
        get_my_notion_mcp::mcp::McpRequest::from_json(&request).unwrap(),
    ) {
        Dispatch::Fetch { pending, .. } => pending,
        other => panic!("expected a fetch, got {:?}", other),
    };
    let response = server.on_fetched(pending, &FetchOutcome::Failed("timed out".to_string()));
    let (id, code, message) = error_of(&response);
    assert!(matches!(id, RequestId::Number(11)));
    assert_eq!(code, -32603);
    assert_eq!(message, "Resource read failed: timed out");
}

#[test]
fn later_registration_answers_a_repeated_name() {
    let mut server = McpServer::new();
    let tool = |n: &str| Tool {
        name: n.to_string(),
        description: String::new(),
        input_schema: obj(vec![]),
    };
    server.add_tool(tool("t"), ToolHandler::ListFiles(ListFilesHandler::new()));
    server.add_tool(
        tool("t"),
        ToolHandler::GetLatestCommit(get_my_notion_mcp::handlers::GetLatestCommitHandler::new()),
    );
    match server.on_line("x", Ok(call_tool("1", "t", None))) {
        LineStep::Fetch { request, .. } => assert!(request.url.ends_with("/commits/main")),
        other => panic!("expected a fetch, got {:?}", other),
    }
    assert_eq!(server.tools().len(), 2);
}

#[test]
fn responses_follow_the_order_of_the_lines() {
    let server = create_default_server();
    let mut written: Vec<String> = Vec::new();
    let lines = vec![
        call_tool("a", "get_latest_commit", None),
        obj(vec![("method", s("tools/list")), ("id", s("b"))]),
        call_tool("c", "list_files", None),
    ];
    let mut state = Session::Reading;
    for line in lines {
        let (next, mut action) = server.step(state, Event::Line("x".to_string(), Ok(line)));
        state = next;
        if let Action::Fetch(_) = action {
            let body = match &state {
                Session::Waiting(_) => obj(vec![("sha", s("abc"))]),
                Session::Reading => panic!("a fetch leaves the loop waiting"),
            };
            let reply = if written.len() == 2 {
                ok(Json::Array(vec![]))
            } else {
                ok(body)
            };
            let (next, a) = server.step(state, Event::Fetched(reply));
            state = next;
            action = a;
        }
        match action {
            Action::Write(r) => match r.id() {
                RequestId::String(t) => written.push(t.clone()),
                other => panic!("unexpected id {:?}", other),
            },
            other => panic!("expected a write, got {:?}", other),
        }
        assert!(matches!(state, Session::Reading));
    }
    assert_eq!(written, vec!["a", "b", "c"]);
    let (_, last) = server.step(state, Event::Closed);
    assert!(matches!(last, Action::Stop));
}
