use get_my_notion_mcp::json::Json;
use get_my_notion_mcp::mcp::{
    CallToolParams, CallToolResult, ClientCapabilities, ClientInfo, InitializeParams,
    InitializeResult, ListToolsResult, McpError, McpNotification, McpRequest, McpResponse,
    ReadResourceParams, RequestId, Resource, ResourceContent, ResourcesCapability,
    RootsCapability, SamplingCapability, ServerCapabilities, ServerInfo, Tool, ToolContent,
    ToolsCapability,
};

fn s(t: &str) -> Json {
    Json::Str(t.to_string())
}

fn obj(members: Vec<(&str, Json)>) -> Json {
    Json::Object(members.into_iter().map(|(k, v)| (k.to_string(), v)).collect())
}

/// Whether `needle` occurs in a key, a string or a number of the document.
fn mentions(j: &Json, needle: &str) -> bool {
    match j {
        Json::Null | Json::Bool(_) => false,
        Json::Int(n) => n.to_string().contains(needle),
        Json::Num(t) | Json::Str(t) => t.contains(needle),
        Json::Array(items) => items.iter().any(|i| mentions(i, needle)),
        Json::Object(members) => members
            .iter()
            .any(|(k, v)| k.contains(needle) || mentions(v, needle)),
    }
}

fn text_at<'a>(j: &'a Json, path: &[&str]) -> Option<&'a str> {
    let mut cur = j;
    for key in path {
        cur = cur.get(key)?;
    }
    match cur {
        Json::Str(t) => Some(t.as_str()),
        _ => None,
    }
}

fn initialize_request() -> McpRequest {
    McpRequest::Initialize {
        id: RequestId::String("1".to_string()),
        params: InitializeParams {
            protocol_version: "2025-08-16".to_string(),
            capabilities: ClientCapabilities {
                roots: Some(RootsCapability {
                    list_changed: Some(false),
                }),
                sampling: Some(SamplingCapability {}),
            },
            client_info: ClientInfo {
                name: "test-client".to_string(),
                version: "1.0.0".to_string(),
            },
        },
    }
}

#[test]
fn test_mcp_request_serialization() {
    let initialize_request = initialize_request();
    let serialized = initialize_request.to_json();
    assert!(mentions(&serialized, "initialize"));
    assert!(mentions(&serialized, "test-client"));
}

#[test]
fn test_mcp_response_serialization() {
    let initialize_response = McpResponse::Initialize {
        id: RequestId::String("1".to_string()),
        result: InitializeResult {
            protocol_version: "2025-08-16".to_string(),
            capabilities: ServerCapabilities {
                tools: Some(ToolsCapability {
                    list_changed: Some(false),
                }),
                resources: Some(ResourcesCapability {
                    subscribe: Some(false),
                    list_changed: Some(false),
                }),
            },
            server_info: ServerInfo {
                name: "get-my-notion-mcp".to_string(),
                version: "0.1.5".to_string(),
            },
        },
    };
    let serialized = initialize_response.to_json();
    assert!(mentions(&serialized, "get-my-notion-mcp"));
    assert!(mentions(&serialized, "2025-08-16"));
}

#[test]
fn test_tool_content_serialization() {
    let tool_content = ToolContent::Text {
        text: "Hello, World!".to_string(),
    };
    let serialized = tool_content.to_json();
    assert!(mentions(&serialized, "text"));
    assert!(mentions(&serialized, "Hello, World!"));
}

#[test]
fn test_resource_content_serialization() {
    let resource_content = ResourceContent::Text {
        uri: "notion://repo/info".to_string(),
        text: "Repository information".to_string(),
    };
    let serialized = resource_content.to_json();
    assert!(mentions(&serialized, "notion://repo/info"));
    assert!(mentions(&serialized, "Repository information"));
}

#[test]
fn test_mcp_error_serialization() {
    let error = McpError {
        code: -32601,
        message: "Method not found".to_string(),
        data: Some(obj(vec![("additional", s("info"))])),
    };
    let serialized = error.to_json();
    assert!(mentions(&serialized, "-32601"));
    assert!(mentions(&serialized, "Method not found"));
    assert!(mentions(&serialized, "additional"));
}

#[test]
fn test_call_tool_params() {
    let arguments = vec![("path".to_string(), s("README.md"))];
    let params = CallToolParams {
        name: "get_file_content".to_string(),
        arguments: Some(arguments),
    };
    let serialized = params.to_json();
    assert!(mentions(&serialized, "get_file_content"));
    assert!(mentions(&serialized, "README.md"));
}

#[test]
fn test_read_resource_params() {
    let params = ReadResourceParams {
        uri: "notion://repo/info".to_string(),
    };
    let serialized = params.to_json();
    assert!(mentions(&serialized, "notion://repo/info"));
}

#[test]
fn response_wire_shape_has_marker_method_and_id() {
    let response = McpResponse::CallTool {
        id: RequestId::Number(7),
        result: CallToolResult {
            content: vec![ToolContent::Text {
                text: "hi".to_string(),
            }],
        },
    };
    let j = response.to_json();
    assert_eq!(text_at(&j, &["jsonrpc"]), Some("2.0"));
    assert_eq!(text_at(&j, &["method"]), Some("tools/call"));
    assert!(matches!(j.get("id"), Some(Json::Int(7))));
    match j.get("result").and_then(|r| r.get("content")) {
        Some(Json::Array(items)) => {
            assert_eq!(items.len(), 1);
            assert_eq!(text_at(&items[0], &["type"]), Some("text"));
            assert_eq!(text_at(&items[0], &["text"]), Some("hi"));
        }
        other => panic!("unexpected content {:?}", other),
    }
}

#[test]
fn error_response_has_no_method_and_omits_absent_data() {
    let response = McpResponse::Error {
        id: RequestId::Null,
        error: McpError {
            code: -32603,
            message: "boom".to_string(),
            data: None,
        },
    };
    let j = response.to_json();
    assert!(j.get("method").is_none());
    assert!(matches!(j.get("id"), Some(Json::Null)));
    let e = j.get("error").unwrap();
    assert!(matches!(e.get("code"), Some(Json::Int(-32603))));
    assert_eq!(text_at(e, &["message"]), Some("boom"));
    assert!(e.get("data").is_none());
}

#[test]
fn response_round_trip_keeps_tool_list() {
    let tool = Tool {
        name: "list_files".to_string(),
        description: "List".to_string(),
        input_schema: obj(vec![("type", s("object"))]),
    };
    let response = McpResponse::ListTools {
        id: RequestId::String("9".to_string()),
        result: ListToolsResult { tools: vec![tool] },
    };
    let back = McpResponse::from_json(&response.to_json()).expect("decodes");
    match back {
        McpResponse::ListTools { id, result } => {
            assert!(matches!(id, RequestId::String(ref t) if t == "9"));
            assert_eq!(result.tools.len(), 1);
            assert_eq!(result.tools[0].name, "list_files");
            assert_eq!(result.tools[0].description, "List");
            assert_eq!(text_at(&result.tools[0].input_schema, &["type"]), Some("object"));
        }
        other => panic!("unexpected {:?}", other),
    }
}

#[test]
fn response_round_trip_keeps_error_data() {
    let response = McpResponse::Error {
        id: RequestId::Number(-4),
        error: McpError {
            code: -32601,
            message: "missing".to_string(),
            data: Some(Json::Null),
        },
    };
    match McpResponse::from_json(&response.to_json()).expect("decodes") {
        McpResponse::Error { id, error } => {
            assert!(matches!(id, RequestId::Number(-4)));
            assert_eq!(error.code, -32601);
            assert_eq!(error.message, "missing");
            assert!(matches!(error.data, Some(Json::Null)));
        }
        other => panic!("unexpected {:?}", other),
    }
}

#[test]
fn resource_round_trip_keeps_optional_members() {
    let resource = Resource {
        uri: "notion://repo/info".to_string(),
        name: "Info".to_string(),
        description: None,
        mime_type: Some("text/plain".to_string()),
    };
    let j = resource.to_json();
    assert!(j.get("description").is_none());
    let back = Resource::from_json(&j).expect("decodes");
    assert_eq!(back.uri, "notion://repo/info");
    assert_eq!(back.name, "Info");
    assert!(back.description.is_none());
    assert_eq!(back.mime_type.as_deref(), Some("text/plain"));
}

#[test]
fn request_round_trip_keeps_initialize_params() {
    let j = initialize_request().to_json();
    match McpRequest::from_json(&j).expect("decodes") {
        McpRequest::Initialize { id, params } => {
            assert!(matches!(id, RequestId::String(ref t) if t == "1"));
            assert_eq!(params.protocol_version, "2025-08-16");
            assert_eq!(params.client_info.name, "test-client");
            assert_eq!(params.client_info.version, "1.0.0");
            assert_eq!(
                params.capabilities.roots,
                Some(RootsCapability {
                    list_changed: Some(false)
                })
            );
            assert!(params.capabilities.sampling.is_some());
        }
        other => panic!("unexpected {:?}", other),
    }
}

#[test]
fn request_round_trip_keeps_call_arguments() {
    let request = McpRequest::CallTool {
        id: RequestId::Number(3),
        params: CallToolParams {
            name: "get_file_content".to_string(),
            arguments: Some(vec![("path".to_string(), s("a/b.md"))]),
        },
    };
    match McpRequest::from_json(&request.to_json()).expect("decodes") {
        McpRequest::CallTool { id, params } => {
            assert!(matches!(id, RequestId::Number(3)));
            assert_eq!(params.name, "get_file_content");
            let args = params.arguments.expect("arguments");
            assert_eq!(args.len(), 1);
            assert_eq!(args[0].0, "path");
            assert!(matches!(&args[0].1, Json::Str(t) if t == "a/b.md"));
        }
        other => panic!("unexpected {:?}", other),
    }
}

#[test]
fn request_without_id_is_not_a_request() {
    let j = obj(vec![("method", s("tools/list"))]);
    assert!(McpRequest::from_json(&j).is_none());
}

#[test]
fn request_with_unknown_method_is_not_a_request() {
    let j = obj(vec![("method", s("tools/delete")), ("id", s("1"))]);
    assert!(McpRequest::from_json(&j).is_none());
}

#[test]
fn request_with_object_id_is_not_a_request() {
    let j = obj(vec![("method", s("tools/list")), ("id", obj(vec![]))]);
    assert!(McpRequest::from_json(&j).is_none());
}

#[test]
fn notification_is_a_method_without_id() {
    let note = McpNotification::Initialized.to_json();
    assert_eq!(McpNotification::from_json(&note), Some(McpNotification::Initialized));
    let with_id = obj(vec![
        ("method", s("notifications/initialized")),
        ("id", Json::Int(1)),
    ]);
    assert_eq!(McpNotification::from_json(&with_id), None);
}

#[test]
fn repeated_member_takes_the_last_value() {
    let j = obj(vec![("id", s("first")), ("id", s("second"))]);
    assert_eq!(text_at(&j, &["id"]), Some("second"));
}
