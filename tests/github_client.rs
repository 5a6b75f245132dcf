use get_my_notion_mcp::github::{FetchOutcome, GitHubClient, GitHubError, HttpReply};
use get_my_notion_mcp::json::Json;
use get_my_notion_mcp::utils::{
    build_github_commits_url, build_github_contents_url, decimal, format_file_content,
    format_file_info, format_repository_info, get_user_agent_header, truncate_sha,
};

fn s(t: &str) -> Json {
    Json::Str(t.to_string())
}

fn obj(members: Vec<(&str, Json)>) -> Json {
    Json::Object(members.into_iter().map(|(k, v)| (k.to_string(), v)).collect())
}

fn ok(body: Json) -> FetchOutcome {
    FetchOutcome::Reply(HttpReply {
        status: 200,
        status_text: "200 OK".to_string(),
        body: Some(body),
    })
}

fn client() -> GitHubClient {
    GitHubClient::new("test-owner".to_string(), "test-repo".to_string())
}

fn readme_listing(sha: &str) -> Json {
    Json::Array(vec![obj(vec![
        ("name", s("README.md")),
        ("path", s("README.md")),
        ("sha", s(sha)),
        ("type", s("file")),
        ("size", Json::Int(100)),
        ("download_url", s("https://example.com/file")),
    ])])
}

fn content_body(content: &str, encoding: &str) -> Json {
    obj(vec![
        ("name", s("test.txt")),
        ("path", s("test.txt")),
        ("sha", s("abc123")),
        ("size", Json::Int(13)),
        ("content", s(content)),
        ("encoding", s(encoding)),
    ])
}

#[test]
fn test_github_client_creation() {
    let client = GitHubClient::new("owner".to_string(), "repo".to_string());
    assert_eq!(client.owner(), "owner");
    assert_eq!(client.repo(), "repo");
}

#[test]
fn test_list_files_success() {
    let c = client();
    let request = c.list_files_request(None);
    assert_eq!(
        request.url,
        "https://api.github.com/repos/test-owner/test-repo/contents/"
    );
    assert_eq!(
        request.headers,
        vec![("User-Agent".to_string(), "get-my-notion-mcp".to_string())]
    );
    let files = c.list_files(&ok(readme_listing("abc123"))).expect("listing");
    assert_eq!(files.len(), 1);
    assert_eq!(files[0].name, "README.md");
    assert_eq!(files[0].file_type, "file");
    assert_eq!(files[0].size, Some(100));
    assert_eq!(files[0].download_url.as_deref(), Some("https://example.com/file"));
}

#[test]
fn test_get_file_content_base64() {
    let c = client();
    let request = c.get_file_content_request("test.txt");
    assert_eq!(
        request.url,
        "https://api.github.com/repos/test-owner/test-repo/contents/test.txt"
    );
    let text = c
        .get_file_content(&ok(content_body("SGVsbG8sIFdvcmxkIQ==", "base64")))
        .expect("content");
    assert_eq!(text, "Hello, World!");
}

#[test]
fn base64_content_wrapped_in_lines_is_decoded_whole() {
    let text = client()
        .get_file_content(&ok(content_body("SGVsbG8s\nIFdvcmxkIQ==\n", "base64")))
        .expect("content");
    assert_eq!(text, "Hello, World!");
}

#[test]
fn test_get_latest_commit_sha() {
    let c = client();
    let request = c.get_latest_commit_request();
    assert_eq!(
        request.url,
        "https://api.github.com/repos/test-owner/test-repo/commits/main"
    );
    let body = obj(vec![
        ("sha", s("abc123def456")),
        ("commit", obj(vec![("message", s("Test commit"))])),
    ]);
    assert_eq!(c.get_latest_commit_sha(&ok(body)).expect("sha"), "abc123def456");
}

#[test]
fn listing_of_a_subdirectory_names_it_in_the_url() {
    let request = client().list_files_request(Some("docs/notes"));
    assert_eq!(
        request.url,
        "https://api.github.com/repos/test-owner/test-repo/contents/docs/notes"
    );
}

#[test]
fn plain_content_is_returned_as_it_stands() {
    let text = client()
        .get_file_content(&ok(content_body("SGVsbG8=", "utf-8")))
        .expect("content");
    assert_eq!(text, "SGVsbG8=");
}

#[test]
fn invalid_base64_is_an_error() {
    let r = client().get_file_content(&ok(content_body("not base64!", "base64")));
    let e = r.expect_err("invalid base64");
    assert!(matches!(e, GitHubError::Base64));
    assert_eq!(e.message(), "invalid base64 content");
}

#[test]
fn content_that_is_no_utf8_is_an_error() {
    // 0xff 0xfe
    let r = client().get_file_content(&ok(content_body("//4=", "base64")));
    let e = r.expect_err("not utf-8");
    assert!(matches!(e, GitHubError::Utf8));
}

#[test]
fn status_outside_success_is_an_error() {
    let reply = FetchOutcome::Reply(HttpReply {
        status: 404,
        status_text: "404 Not Found".to_string(),
        body: Some(obj(vec![("message", s("Not Found"))])),
    });
    let e = client().list_files(&reply).expect_err("status");
    assert_eq!(e.message(), "GitHub API request failed: 404 Not Found");
}

#[test]
fn transport_failure_keeps_its_message() {
    let e = client()
        .get_latest_commit_sha(&FetchOutcome::Failed("connection refused".to_string()))
        .expect_err("transport");
    assert_eq!(e.message(), "connection refused");
}

#[test]
fn body_that_is_no_json_is_an_error() {
    let reply = FetchOutcome::Reply(HttpReply {
        status: 200,
        status_text: "200 OK".to_string(),
        body: None,
    });
    let e = client().list_files(&reply).expect_err("body");
    assert_eq!(e.message(), "error decoding response body");
}

#[test]
fn listing_entry_without_sha_is_an_error() {
    let body = Json::Array(vec![obj(vec![
        ("name", s("a")),
        ("path", s("a")),
        ("type", s("file")),
    ])]);
    let e = client().list_files(&ok(body)).expect_err("shape");
    assert!(matches!(e, GitHubError::Body));
}

#[test]
fn commit_without_sha_is_an_error() {
    let e = client()
        .get_latest_commit_sha(&ok(obj(vec![("commit", obj(vec![]))])))
        .expect_err("sha");
    assert_eq!(e.message(), "Could not extract commit SHA");
}

#[test]
fn urls_are_built_from_their_parts() {
    assert_eq!(
        build_github_contents_url("o", "r", "p/q"),
        "https://api.github.com/repos/o/r/contents/p/q"
    );
    assert_eq!(
        build_github_commits_url("o", "r", "dev"),
        "https://api.github.com/repos/o/r/commits/dev"
    );
    assert_eq!(get_user_agent_header(), ("User-Agent", "get-my-notion-mcp"));
}

#[test]
fn sha_is_cut_to_seven_characters() {
    assert_eq!(truncate_sha("abc123def456"), "abc123d");
    assert_eq!(truncate_sha("abc1234"), "abc1234");
    assert_eq!(truncate_sha("abc"), "abc");
    assert_eq!(truncate_sha(""), "");
}

#[test]
fn sha_is_cut_at_seven_bytes() {
    assert_eq!(truncate_sha("\u{e9}123456"), "\u{e9}12345");
    assert_eq!(truncate_sha("123456\u{e9}"), "123456");
    assert_eq!(truncate_sha("\u{1f600}\u{1f600}"), "\u{1f600}");
    assert_eq!(truncate_sha("\u{e9}\u{e9}\u{e9}"), "\u{e9}\u{e9}\u{e9}");
}

#[test]
fn file_listing_cuts_a_wide_sha_at_seven_bytes() {
    let files = client().list_files(&ok(readme_listing("\u{e9}123456"))).unwrap();
    assert!(format_file_info(&files).contains("- **README.md** (\u{e9}12345)\n"));
}

#[test]
fn decimal_text_of_sizes() {
    assert_eq!(decimal(0), "0");
    assert_eq!(decimal(100), "100");
    assert_eq!(decimal(u64::MAX), "18446744073709551615");
}

#[test]
fn file_listing_text() {
    let files = client().list_files(&ok(readme_listing("abc123def"))).unwrap();
    assert_eq!(
        format_file_info(&files),
        "Files in repository:\n\n- **README.md** (abc123d)\n  Path: README.md\n  Type: file\n  Size: 100 bytes\n\n"
    );
    assert_eq!(format_file_info(&[]), "Files in repository:\n\n");
}

#[test]
fn file_content_and_repository_texts() {
    assert_eq!(
        format_file_content("a.md", "# Title"),
        "Content of file: a.md\n\n```\n# Title\n```"
    );
    assert_eq!(
        format_repository_info("o", "r", "abc"),
        "Repository: o/r\nLatest commit: abc\nAccess via: https://github.com/o/r"
    );
}
