use get_my_notion_mcp::github::{FetchOutcome, GitHubClient, HttpReply};
use get_my_notion_mcp::handlers::{
    GetFileContentHandler, GetLatestCommitHandler, ListFilesHandler, NotionRepoResourceHandler,
};
use get_my_notion_mcp::json::Json;
use get_my_notion_mcp::mcp::{ResourceContent, ToolContent};

fn s(t: &str) -> Json {
    Json::Str(t.to_string())
}

fn obj(members: Vec<(&str, Json)>) -> Json {
    Json::Object(members.into_iter().map(|(k, v)| (k.to_string(), v)).collect())
}

fn ok(body: Json) -> FetchOutcome {
    FetchOutcome::Reply(HttpReply {
        status: 200,
        status_text: "200 OK".to_string(),
        body: Some(body),
    })
}

fn test_client() -> GitHubClient {
    GitHubClient::new("test-owner".to_string(), "test-repo".to_string())
}

fn only_text(content: &[ToolContent]) -> &str {
    assert_eq!(content.len(), 1);
    match &content[0] {
        ToolContent::Text { text } => text.as_str(),
    }
}

#[test]
fn test_notion_repo_resource_handler_invalid_uri() {
    let handler = NotionRepoResourceHandler::new();
    let result = handler.read("invalid://uri");
    assert!(result.is_err());
    assert!(result.unwrap_err().contains("Unknown resource URI"));
}

#[test]
fn test_handler_creation() {
    let _list_handler = ListFilesHandler::new();
    let _content_handler = GetFileContentHandler::new();
    let _commit_handler = GetLatestCommitHandler::new();
    let resource_handler = NotionRepoResourceHandler::new();
    assert_eq!(resource_handler.github_client.owner(), "ParkJong-Hun");
    assert_eq!(resource_handler.github_client.repo(), "my-notion");
}

#[test]
fn test_list_files_handler() {
    let handler = ListFilesHandler::new_with_client(test_client());
    let request = handler.call(&None);
    assert_eq!(
        request.url,
        "https://api.github.com/repos/test-owner/test-repo/contents/"
    );
    let body = Json::Array(vec![obj(vec![
        ("name", s("README.md")),
        ("path", s("README.md")),
        ("sha", s("abc123def")),
        ("type", s("file")),
        ("size", Json::Int(100)),
        ("download_url", s("https://example.com/file")),
    ])]);
    let result = handler.finish(&ok(body)).expect("listing");
    let text = only_text(&result.content);
    assert!(text.contains("README.md"));
    assert!(text.contains("(abc123d)"));
}

#[test]
fn list_files_handler_reads_the_path_argument() {
    let handler = ListFilesHandler::new_with_client(test_client());
    let args = Some(vec![("path".to_string(), s("docs"))]);
    assert_eq!(
        handler.call(&args).url,
        "https://api.github.com/repos/test-owner/test-repo/contents/docs"
    );
    let not_a_string = Some(vec![("path".to_string(), Json::Int(3))]);
    assert_eq!(
        handler.call(&not_a_string).url,
        "https://api.github.com/repos/test-owner/test-repo/contents/"
    );
}

#[test]
fn test_get_file_content_handler() {
    let handler = GetFileContentHandler::new_with_client(test_client());
    let result_no_path = handler.call(&None);
    assert_eq!(result_no_path.unwrap_err(), "Path parameter is required");
    let args = Some(vec![("path".to_string(), s("test.txt"))]);
    let (path, request) = handler.call(&args).expect("path given");
    assert_eq!(path, "test.txt");
    assert_eq!(
        request.url,
        "https://api.github.com/repos/test-owner/test-repo/contents/test.txt"
    );
    let body = obj(vec![
        ("name", s("test.txt")),
        ("path", s("test.txt")),
        ("sha", s("abc123")),
        ("size", Json::Int(13)),
        ("content", s("SGVsbG8sIFdvcmxkIQ==")),
        ("encoding", s("base64")),
    ]);
    let result = handler.finish(&path, &ok(body)).expect("content");
    assert_eq!(
        only_text(&result.content),
        "Content of file: test.txt\n\n```\nHello, World!\n```"
    );
}

#[test]
fn test_get_latest_commit_handler() {
    let handler = GetLatestCommitHandler::new_with_client(test_client());
    assert_eq!(
        handler.call(&None).url,
        "https://api.github.com/repos/test-owner/test-repo/commits/main"
    );
    let body = obj(vec![
        ("sha", s("abc123def456")),
        ("commit", obj(vec![("message", s("Test commit"))])),
    ]);
    let result = handler.finish(&ok(body)).expect("sha");
    assert_eq!(only_text(&result.content), "Latest commit SHA: abc123def456");
}

#[test]
fn repository_resource_reads_the_latest_commit() {
    let handler = NotionRepoResourceHandler::new_with_client(test_client());
    let request = handler.read("notion://repo/info").expect("known uri");
    assert_eq!(
        request.url,
        "https://api.github.com/repos/test-owner/test-repo/commits/main"
    );
    let result = handler
        .finish("notion://repo/info", &ok(obj(vec![("sha", s("abc"))])))
        .expect("info");
    assert_eq!(result.contents.len(), 1);
    match &result.contents[0] {
        ResourceContent::Text { uri, text } => {
            assert_eq!(uri, "notion://repo/info");
            assert_eq!(
                text,
                "Repository: test-owner/test-repo\nLatest commit: abc\nAccess via: https://github.com/test-owner/test-repo"
            );
        }
        other => panic!("unexpected {:?}", other),
    }
}

#[test]
fn handler_failure_carries_the_upstream_message() {
    let handler = GetLatestCommitHandler::new_with_client(test_client());
    let reply = FetchOutcome::Reply(HttpReply {
        status: 500,
        status_text: "500 Internal Server Error".to_string(),
        body: None,
    });
    assert_eq!(
        handler.finish(&reply).unwrap_err(),
        "GitHub API request failed: 500 Internal Server Error"
    );
}
