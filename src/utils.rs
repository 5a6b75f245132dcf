//! Text builders shared by the handlers and the router.
use crate::constants::{
    API_BASE_URL, INTERNAL_ERROR, METHOD_NOT_FOUND, RESOURCE_NOT_FOUND,
    RESOURCE_REPO_INFO, SERVER_NAME, SERVER_VERSION, TEXT_PLAIN, TOOL_GET_FILE_CONTENT,
    TOOL_GET_LATEST_COMMIT, TOOL_LIST_FILES, TOOL_NOT_FOUND, USER_AGENT,
};
use crate::github::{GitHubFile, GitHubFileView};
use crate::mcp::{
    McpError, McpResponse, RequestId, Resource, ResourcesCapability, ServerCapabilities,
    ServerInfo, Tool, ToolsCapability,
};
use crate::json::utf8_of;
use vstd::prelude::*;
use vstd::utf8::encode_scalar;

verus! {

pub open spec fn contents_url(owner: Seq<char>, repo: Seq<char>, path: Seq<char>) -> Seq<char> {
    API_BASE_URL@ + "/repos/"@ + owner + "/"@ + repo + "/contents/"@ + path
}

pub open spec fn commits_url(owner: Seq<char>, repo: Seq<char>, branch: Seq<char>) -> Seq<char> {
    API_BASE_URL@ + "/repos/"@ + owner + "/"@ + repo + "/commits/"@ + branch
}

/// The contents endpoint of `path` in `owner/repo`.
pub fn build_github_contents_url(owner: &str, repo: &str, path: &str) -> (r: String)
    ensures
        r@ == contents_url(owner@, repo@, path@),
{
    let mut url = API_BASE_URL.to_owned();
    url.append("/repos/");
    url.append(owner);
    url.append("/");
    url.append(repo);
    url.append("/contents/");
    url.append(path);
    url
}

/// The commit endpoint of `branch` in `owner/repo`.
pub fn build_github_commits_url(owner: &str, repo: &str, branch: &str) -> (r: String)
    ensures
        r@ == commits_url(owner@, repo@, branch@),
{
    let mut url = API_BASE_URL.to_owned();
    url.append("/repos/");
    url.append(owner);
    url.append("/");
    url.append(repo);
    url.append("/commits/");
    url.append(branch);
    url
}

pub open spec fn repository_info(owner: Seq<char>, repo: Seq<char>,
    latest_commit: Seq<char>) -> Seq<
    char,
> {
    "Repository: "@ + owner + "/"@ + repo + "\nLatest commit: "@ + latest_commit
        + "\nAccess via: https://github.com/"@ + owner + "/"@ + repo
}

/// The text of the repository information resource.
pub fn format_repository_info(owner: &str, repo: &str, latest_commit: &str) -> (r: String)
    ensures
        r@ == repository_info(owner@, repo@, latest_commit@),
{
    let mut text = "Repository: ".to_owned();
    text.append(owner);
    text.append("/");
    text.append(repo);
    text.append("\nLatest commit: ");
    text.append(latest_commit);
    text.append("\nAccess via: https://github.com/");
    text.append(owner);
    text.append("/");
    text.append(repo);
    text
}

pub open spec fn digit_char(d: nat) -> char {
    seq!['0', '1', '2', '3', '4', '5', '6', '7', '8', '9'][d as int]
}

/// The decimal digits of `n`, without leading zeros.
pub open spec fn decimal_text(n: nat) -> Seq<char>
    decreases n,
{
    if n < 10 {
        seq![digit_char(n)]
    } else {
        decimal_text(n / 10).push(digit_char(n % 10))
    }
}

fn digit_str(d: u64) -> (r: &'static str)
    requires
        d < 10,
    ensures
        r@ == seq![digit_char(d as nat)],
{
    proof {
        reveal_strlit("0");
        reveal_strlit("1");
        reveal_strlit("2");
        reveal_strlit("3");
        reveal_strlit("4");
        reveal_strlit("5");
        reveal_strlit("6");
        reveal_strlit("7");
        reveal_strlit("8");
        reveal_strlit("9");
    }
    let r = if d == 0 {
        "0"
    } else if d == 1 {
        "1"
    } else if d == 2 {
        "2"
    } else if d == 3 {
        "3"
    } else if d == 4 {
        "4"
    } else if d == 5 {
        "5"
    } else if d == 6 {
        "6"
    } else if d == 7 {
        "7"
    } else if d == 8 {
        "8"
    } else {
        "9"
    };
    assert(r@ =~= seq![digit_char(d as nat)]);
    r
}

/// The decimal text of `n`.
pub fn decimal(n: u64) -> (r: String)
    ensures
        r@ == decimal_text(n as nat),
    decreases n,
{
    if n < 10 {
        digit_str(n).to_owned()
    } else {
        let mut text = decimal(n / 10);
        text.append(digit_str(n % 10));
        text
    }
}

/// The number of bytes of `c` in UTF-8.
pub open spec fn char_width(c: char) -> nat {
    encode_scalar(c as u32).len()
}

/// The longest prefix of `s` whose UTF-8 takes at most `budget` bytes.
pub open spec fn prefix_within(s: Seq<char>, budget: int) -> Seq<char>
    decreases s.len(),
{
    if s.len() == 0 || char_width(s[0]) > budget {
        Seq::empty()
    } else {
        seq![s[0]] + prefix_within(s.drop_first(), budget - char_width(s[0]))
    }
}

/// A commit or object id cut to its first seven bytes, at a character boundary.
pub open spec fn short_sha(sha: Seq<char>) -> Seq<char> {
    prefix_within(sha, 7)
}

proof fn lemma_utf8_cons(c: char, rest: Seq<char>)
    ensures
        utf8_of(seq![c] + rest) == encode_scalar(c as u32) + utf8_of(rest),
{
    assert((seq![c] + rest).drop_first() =~= rest);
}

/// What [`prefix_within`] is: a prefix within the budget that no further
/// character of `s` would fit.
pub proof fn lemma_prefix_within(s: Seq<char>, budget: int)
    requires
        budget >= 0,
    ensures
        prefix_within(s, budget).len() <= s.len(),
        prefix_within(s, budget) == s.subrange(0, prefix_within(s, budget).len() as int),
        utf8_of(prefix_within(s, budget)).len() <= budget,
        prefix_within(s, budget).len() < s.len() ==> utf8_of(
            s.subrange(0, prefix_within(s, budget).len() as int + 1),
        ).len() > budget,
    decreases s.len(),
{
    let p = prefix_within(s, budget);
    if s.len() == 0 {
        assert(s.subrange(0, 0) =~= p);
    } else if char_width(s[0]) > budget {
        assert(s.subrange(0, 0) =~= p);
        lemma_utf8_cons(s[0], Seq::empty());
        assert(s.subrange(0, 1) =~= seq![s[0]] + Seq::<char>::empty());
    } else {
        let w = char_width(s[0]);
        let rest = s.drop_first();
        let q = prefix_within(rest, budget - w);
        lemma_prefix_within(rest, budget - w);
        assert(p == seq![s[0]] + q);
        lemma_utf8_cons(s[0], q);
        assert(s.subrange(0, p.len() as int) =~= seq![s[0]] + rest.subrange(0, q.len() as int));
        if p.len() < s.len() {
            assert(s.subrange(0, p.len() as int + 1) =~= seq![s[0]] + rest.subrange(0, q.len() as int + 1));
            lemma_utf8_cons(s[0], rest.subrange(0, q.len() as int + 1));
        }
    }
}

fn width_of(c: char) -> (r: usize)
    ensures
        r == char_width(c),
{
    proof {
        vstd::utf8::char_is_scalar(c);
    }
    let u = c as u32;
    if u <= 0x7f {
        1
    } else if u <= 0x7ff {
        2
    } else if u <= 0xffff {
        3
    } else {
        4
    }
}

/// The id cut to its first seven bytes: the longest prefix whose UTF-8 takes at
/// most seven bytes; an id that fits stays whole.
pub fn truncate_sha(sha: &str) -> (r: String)
    ensures
        r@ == short_sha(sha@),
        utf8_of(r@).len() <= 7,
        r@ == sha@.subrange(0, r@.len() as int),
        r@ == sha@ || utf8_of(sha@.subrange(0, r@.len() as int + 1)).len() > 7,
{
    let n = sha.unicode_len();
    let mut i: usize = 0;
    let mut budget: usize = 7;
    let mut full = false;
    assert(sha@.subrange(0, 0) + sha@.subrange(0, n as int) =~= sha@);
    while i < n && !full
        invariant
            n == sha@.len(),
            i <= n,
            budget <= 7,
            prefix_within(sha@, 7) == sha@.subrange(0, i as int) + prefix_within(
                sha@.subrange(i as int, n as int),
                budget as int,
            ),
            full ==> prefix_within(sha@.subrange(i as int, n as int), budget as int)
                =~= Seq::<char>::empty(),
        decreases (n - i) as int + if full { 0int } else { 1int },
    {
        let c = sha.get_char(i);
        let w = width_of(c);
        let ghost tail = sha@.subrange(i as int, n as int);
        assert(tail[0] == c);
        if w > budget {
            full = true;
        } else {
            assert(tail.drop_first() =~= sha@.subrange(i + 1, n as int));
            assert(sha@.subrange(0, i + 1) =~= sha@.subrange(0, i as int) + seq![c]);
            assert(sha@.subrange(0, i as int) + prefix_within(tail, budget as int) =~= sha@.subrange(
                0,
                i + 1,
            ) + prefix_within(sha@.subrange(i + 1, n as int), (budget - w) as int));
            budget = budget - w;
            i = i + 1;
        }
    }
    proof {
        if !full {
            assert(sha@.subrange(i as int, n as int) =~= Seq::<char>::empty());
        }
        assert(prefix_within(sha@, 7) =~= sha@.subrange(0, i as int));
        lemma_prefix_within(sha@, 7);
    }
    sha.substring_char(0, i).to_owned()
}

pub open spec fn size_line(size: Option<u64>) -> Seq<char> {
    match size {
        Some(n) => "  Size: "@ + decimal_text(n as nat) + " bytes\n"@,
        None => Seq::empty(),
    }
}

pub open spec fn file_entry(f: GitHubFileView) -> Seq<char> {
    "- **"@ + f.name + "** ("@ + short_sha(f.sha) + ")\n  Path: "@ + f.path + "\n  Type: "@
        + f.file_type + "\n"@ + size_line(f.size) + "\n"@
}

pub open spec fn file_entries(files: Seq<GitHubFileView>) -> Seq<char>
    decreases files.len(),
{
    if files.len() == 0 {
        Seq::empty()
    } else {
        file_entries(files.drop_last()) + file_entry(files.last())
    }
}

pub open spec fn files_view(files: Seq<GitHubFile>) -> Seq<GitHubFileView> {
    files.map_values(|f: GitHubFile| f@)
}

pub open spec fn file_listing(files: Seq<GitHubFileView>) -> Seq<char> {
    "Files in repository:\n\n"@ + file_entries(files)
}

/// One block of the listing text.
fn format_file_entry(file: &GitHubFile) -> (r: String)
    ensures
        r@ == file_entry(file@),
{
    let mut entry = "- **".to_owned();
    entry.append(file.name.as_str());
    entry.append("** (");
    let short = truncate_sha(file.sha.as_str());
    entry.append(short.as_str());
    entry.append(")\n  Path: ");
    entry.append(file.path.as_str());
    entry.append("\n  Type: ");
    entry.append(file.file_type.as_str());
    entry.append("\n");
    match file.size {
        Some(size) => {
            entry.append("  Size: ");
            let digits = decimal(size);
            entry.append(digits.as_str());
            entry.append(" bytes\n");
        },
        None => {},
    }
    entry.append("\n");
    entry
}

/// The listing text of `list_files`: a header, then one block per entry, in order.
pub fn format_file_info(files: &[GitHubFile]) -> (r: String)
    ensures
        r@ == file_listing(files_view(files@)),
{
    let mut content = "Files in repository:\n\n".to_owned();
    let mut i: usize = 0;
    while i < files.len()
        invariant
            i <= files.len(),
            content@ == file_listing(files_view(files@.subrange(0, i as int))),
        decreases files.len() - i,
    {
        let entry = format_file_entry(&files[i]);
        let ghost before = content@;
        content.append(entry.as_str());
        proof {
            let done = files_view(files@.subrange(0, i + 1));
            let prev = files_view(files@.subrange(0, i as int));
            assert(done.drop_last() =~= prev);
            assert(done.last() == files@[i as int]@);
            assert(file_entries(done) == file_entries(prev) + entry@);
            assert(content@ =~= file_listing(done));
        }
        i = i + 1;
    }
    assert(files@.subrange(0, i as int) =~= files@);
    content
}

pub open spec fn file_content_text(path: Seq<char>, content: Seq<char>) -> Seq<char> {
    "Content of file: "@ + path + "\n\n```\n"@ + content + "\n```"@
}

/// The text of `get_file_content`: the path, then the content in a fenced block.
pub fn format_file_content(path: &str, content: &str) -> (r: String)
    ensures
        r@ == file_content_text(path@, content@),
{
    let mut text = "Content of file: ".to_owned();
    text.append(path);
    text.append("\n\n```\n");
    text.append(content);
    text.append("\n```");
    text
}

/// The `list_files` tool descriptor.
pub fn create_list_files_tool() -> (r: Tool)
    ensures
        r.name@ == TOOL_LIST_FILES@,
        r.description@ == "List files in the my-notion GitHub repository"@,
        r.input_schema@ == crate::constants::spec_list_files_schema(),
{
    Tool {
        name: TOOL_LIST_FILES.to_owned(),
        description: "List files in the my-notion GitHub repository".to_owned(),
        input_schema: crate::constants::list_files_schema(),
    }
}

/// The `get_file_content` tool descriptor.
pub fn create_get_file_content_tool() -> (r: Tool)
    ensures
        r.name@ == TOOL_GET_FILE_CONTENT@,
        r.description@ == "Get content of a specific file from the my-notion repository"@,
        r.input_schema@ == crate::constants::spec_get_file_content_schema(),
{
    Tool {
        name: TOOL_GET_FILE_CONTENT.to_owned(),
        description: "Get content of a specific file from the my-notion repository".to_owned(),
        input_schema: crate::constants::get_file_content_schema(),
    }
}

/// The `get_latest_commit` tool descriptor.
pub fn create_get_latest_commit_tool() -> (r: Tool)
    ensures
        r.name@ == TOOL_GET_LATEST_COMMIT@,
        r.description@ == "Get the latest commit SHA from the my-notion repository"@,
        r.input_schema@ == crate::constants::spec_get_latest_commit_schema(),
{
    Tool {
        name: TOOL_GET_LATEST_COMMIT.to_owned(),
        description: "Get the latest commit SHA from the my-notion repository".to_owned(),
        input_schema: crate::constants::get_latest_commit_schema(),
    }
}

/// The repository information resource descriptor.
pub fn create_repo_info_resource() -> (r: Resource)
    ensures
        r.uri@ == RESOURCE_REPO_INFO@,
        r.name@ == "My Notion Repository Info"@,
        r@.description == Some("Information about the my-notion GitHub repository"@),
        r@.mime_type == Some(TEXT_PLAIN@),
{
    Resource {
        uri: RESOURCE_REPO_INFO.to_owned(),
        name: "My Notion Repository Info".to_owned(),
        description: Some("Information about the my-notion GitHub repository".to_owned()),
        mime_type: Some(TEXT_PLAIN.to_owned()),
    }
}

/// Tools and resources are offered, with no change notifications and no subscriptions.
pub fn create_server_capabilities() -> (r: ServerCapabilities)
    ensures
        r == (ServerCapabilities {
            tools: Some(ToolsCapability { list_changed: Some(false) }),
            resources: Some(ResourcesCapability { subscribe: Some(false),
                list_changed: Some(false) }),
        }),
{
    ServerCapabilities {
        tools: Some(ToolsCapability { list_changed: Some(false) }),
        resources: Some(ResourcesCapability { subscribe: Some(false), list_changed: Some(false) }),
    }
}

/// The server's fixed name and version.
pub fn create_server_info() -> (r: ServerInfo)
    ensures
        r.name@ == SERVER_NAME@,
        r.version@ == SERVER_VERSION@,
{
    ServerInfo { name: SERVER_NAME.to_owned(), version: SERVER_VERSION.to_owned() }
}

pub open spec fn not_found_message(what: Seq<char>, key: Seq<char>) -> Seq<char> {
    what + ": '"@ + key + "'"@
}

fn error_response(id: RequestId, code: i32, message: String) -> (r: McpResponse)
    ensures
        r == (McpResponse::Error { id, error: McpError { code, message, data: None } }),
{
    McpResponse::Error { id, error: McpError { code, message, data: None } }
}

/// The answer for a tool name that is not registered.
pub fn create_method_not_found_error(id: RequestId, method_name: &str) -> (r: McpResponse)
    ensures
        r matches McpResponse::Error { id: rid, error } && rid == id && error.code
            == METHOD_NOT_FOUND && error.message@ == not_found_message(TOOL_NOT_FOUND@,
                method_name@)
            && error.data is None,
{
    let mut message = TOOL_NOT_FOUND.to_owned();
    message.append(": '");
    message.append(method_name);
    message.append("'");
    error_response(id, METHOD_NOT_FOUND, message)
}

/// The answer for a resource URI that is not registered.
pub fn create_resource_not_found_error(id: RequestId, uri: &str) -> (r: McpResponse)
    ensures
        r matches McpResponse::Error { id: rid, error } && rid == id && error.code
            == METHOD_NOT_FOUND && error.message@ == not_found_message(RESOURCE_NOT_FOUND@, uri@)
            && error.data is None,
{
    let mut message = RESOURCE_NOT_FOUND.to_owned();
    message.append(": '");
    message.append(uri);
    message.append("'");
    error_response(id, METHOD_NOT_FOUND, message)
}

/// The answer for a handler that failed.
pub fn create_internal_error(id: RequestId, message: &str) -> (r: McpResponse)
    ensures
        r matches McpResponse::Error { id: rid, error } && rid == id && error.code == INTERNAL_ERROR
            && error.message@ == message@ && error.data is None,
{
    error_response(id, INTERNAL_ERROR, message.to_owned())
}

/// The answer for a line that is no request: the id is what could be recovered.
pub fn create_parse_error(id: RequestId, message: &str) -> (r: McpResponse)
    ensures
        r matches McpResponse::Error { id: rid, error } && rid == id && error.code
            == METHOD_NOT_FOUND && error.message@ == message@ && error.data is None,
{
    error_response(id, METHOD_NOT_FOUND, message.to_owned())
}

/// The header that every upstream request carries.
pub fn get_user_agent_header() -> (r: (&'static str, &'static str))
    ensures
        r.0@ == "User-Agent"@,
        r.1@ == USER_AGENT@,
{
    ("User-Agent", USER_AGENT)
}

} // verus!
