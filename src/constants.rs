//! Fixed names, texts and codes of the server.
use crate::json::{new_members, push_member, Json, JsonView};
use vstd::prelude::*;

verus! {

broadcast use crate::json::lemma_object_view;

pub const API_BASE_URL: &'static str = "https://api.github.com";

pub const USER_AGENT: &'static str = "get-my-notion-mcp";

pub const DEFAULT_OWNER: &'static str = "ParkJong-Hun";

pub const DEFAULT_REPO: &'static str = "my-notion";

pub const DEFAULT_BRANCH: &'static str = "main";

pub const BASE64_ENCODING: &'static str = "base64";

pub const PROTOCOL_VERSION: &'static str = "2025-08-16";

pub const SERVER_NAME: &'static str = "get-my-notion-mcp";

pub const SERVER_VERSION: &'static str = "0.1.2";

pub const SERVER_DESCRIPTION: &'static str = "MCP server for accessing my-notion GitHub repository";

pub const TOOL_LIST_FILES: &'static str = "list_files";

pub const TOOL_GET_FILE_CONTENT: &'static str = "get_file_content";

pub const TOOL_GET_LATEST_COMMIT: &'static str = "get_latest_commit";

pub const RESOURCE_REPO_INFO: &'static str = "notion://repo/info";

pub const PARAM_PATH: &'static str = "path";

pub const PARAM_MESSAGE: &'static str = "message";

pub const GITHUB_API_FAILED: &'static str = "GitHub API request failed";

pub const PATH_REQUIRED: &'static str = "Path parameter is required";

pub const COMMIT_SHA_EXTRACT_FAILED: &'static str = "Could not extract commit SHA";

pub const TOOL_NOT_FOUND: &'static str = "Tool not found";

pub const RESOURCE_NOT_FOUND: &'static str = "Resource not found";

pub const TOOL_EXECUTION_FAILED: &'static str = "Tool execution failed";

pub const RESOURCE_READ_FAILED: &'static str = "Resource read failed";

pub const UNKNOWN_RESOURCE_URI: &'static str = "Unknown resource URI";

pub const BODY_DECODE_FAILED: &'static str = "error decoding response body";

pub const REQUEST_FAILED: &'static str = "Error handling request";

pub const NOT_A_REQUEST: &'static str = "not a valid request";

pub const INVALID_BASE64: &'static str = "invalid base64 content";

pub const INVALID_UTF8: &'static str = "invalid utf-8 sequence";

/// JSON-RPC: the method, tool or resource does not exist, or the request is unreadable.
pub const METHOD_NOT_FOUND: i32 = -32601;

/// JSON-RPC: a handler failed.
pub const INTERNAL_ERROR: i32 = -32603;

pub const TEXT_PLAIN: &'static str = "text/plain";

pub const APPLICATION_JSON: &'static str = "application/json";

pub open spec fn string_property(description: Seq<char>) -> JsonView {
    JsonView::Object(
        Seq::empty().push(("type"@, JsonView::Str("string"@))).push(
            ("description"@, JsonView::Str(description)),
        ),
    )
}

pub open spec fn path_properties(description: Seq<char>) -> JsonView {
    JsonView::Object(Seq::empty().push(("path"@, string_property(description))))
}

pub open spec fn spec_list_files_schema() -> JsonView {
    JsonView::Object(
        Seq::empty().push(("type"@, JsonView::Str("object"@))).push(
            (
                "properties"@,
                path_properties("Optional path within the repository (default: root)"@),
            ),
        ),
    )
}

pub open spec fn spec_get_file_content_schema() -> JsonView {
    JsonView::Object(
        Seq::empty().push(("type"@, JsonView::Str("object"@))).push(
            ("properties"@, path_properties("Path to the file within the repository"@)),
        ).push(("required"@, JsonView::Array(seq![JsonView::Str("path"@)]))),
    )
}

pub open spec fn spec_get_latest_commit_schema() -> JsonView {
    JsonView::Object(Seq::empty().push(("type"@, JsonView::Str("object"@))))
}

fn path_properties_json(description: &str) -> (r: Json)
    ensures
        r@ == path_properties(description@),
{
    let mut property = new_members();
    push_member(&mut property, "type", Json::text("string"));
    push_member(&mut property, "description", Json::text(description));
    let mut properties = new_members();
    push_member(&mut properties, "path", Json::Object(property));
    Json::Object(properties)
}

/// The argument shape of `list_files`: an optional `path` string.
pub fn list_files_schema() -> (r: Json)
    ensures
        r@ == spec_list_files_schema(),
{
    let mut m = new_members();
    push_member(&mut m, "type", Json::text("object"));
    push_member(
        &mut m,
        "properties",
        path_properties_json("Optional path within the repository (default: root)"),
    );
    Json::Object(m)
}

/// The argument shape of `get_file_content`: a required `path` string.
pub fn get_file_content_schema() -> (r: Json)
    ensures
        r@ == spec_get_file_content_schema(),
{
    let mut m = new_members();
    push_member(&mut m, "type", Json::text("object"));
    push_member(
        &mut m,
        "properties",
        path_properties_json("Path to the file within the repository"),
    );
    let required = vec![Json::text("path")];
    proof {
        crate::json::lemma_array_view(required);
        assert(crate::json::items_view(required@) =~= seq![JsonView::Str("path"@)]);
    }
    push_member(&mut m, "required", Json::Array(required));
    Json::Object(m)
}

/// The argument shape of `get_latest_commit`: no arguments.
pub fn get_latest_commit_schema() -> (r: Json)
    ensures
        r@ == spec_get_latest_commit_schema(),
{
    let mut m = new_members();
    push_member(&mut m, "type", Json::text("object"));
    Json::Object(m)
}

} // verus!
