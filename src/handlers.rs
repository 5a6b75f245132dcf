//! The tools and the resource that the server offers, each backed by one
//! upstream request.
//!
//! A handler works in two steps. `call` (or `read`) checks the arguments and
//! names the upstream request; `finish` turns the reply into the result.
use crate::constants::{
    DEFAULT_OWNER, DEFAULT_REPO, PATH_REQUIRED, RESOURCE_REPO_INFO, UNKNOWN_RESOURCE_URI,
    USER_AGENT,
};
use crate::github::{
    error_text, file_text, latest_sha, listing, FetchOutcome, GitHubClient, HttpRequest,
};
use crate::json::{member, members_view, find_member, same_text, Json, JsonView};
use crate::mcp::{
    CallToolResult, ReadResourceResult, ResourceContent, ResourceContentView, ToolContent,
    ToolContentView,
};
use crate::utils::{
    commits_url, contents_url, file_content_text, file_listing, format_file_content,
    format_file_info, format_repository_info, repository_info,
};
use vstd::prelude::*;

verus! {

/// The repository that a client reads: owner, then name.
pub type ClientView = (Seq<char>, Seq<char>);

/// The members of optional tool arguments.
pub open spec fn arguments_view(arguments: Option<Vec<(String, Json)>>) -> Option<
    Seq<(Seq<char>, JsonView)>,
> {
    match arguments {
        Some(a) => Some(members_view(a@)),
        None => None,
    }
}

/// The `path` argument, where it is given as a string.
pub open spec fn path_argument(arguments: Option<Seq<(Seq<char>, JsonView)>>) -> Option<Seq<char>> {
    match arguments {
        Some(a) => match member(a, "path"@) {
            Some(JsonView::Str(p)) => Some(p),
            _ => None,
        },
        None => None,
    }
}

fn path_arg(arguments: &Option<Vec<(String, Json)>>) -> (r: Option<&String>)
    ensures
        match r {
            Some(p) => path_argument(arguments_view(*arguments)) == Some(p@),
            None => path_argument(arguments_view(*arguments)) is None,
        },
{
    match arguments {
        Some(a) => match find_member(a, "path") {
            Some(Json::Str(p)) => Some(p),
            _ => None,
        },
        None => None,
    }
}

/// A single text block.
pub open spec fn text_block(text: Seq<char>) -> Seq<ToolContentView> {
    seq![ToolContentView::Text { text }]
}

fn text_result(text: String) -> (r: CallToolResult)
    ensures
        r@ == text_block(text@),
{
    let r = CallToolResult { content: vec![ToolContent::Text { text }] };
    assert(r@ =~= text_block(text@));
    r
}

fn default_client() -> (r: GitHubClient)
    ensures
        r@ == (DEFAULT_OWNER@, DEFAULT_REPO@),
{
    GitHubClient::new(DEFAULT_OWNER.to_owned(), DEFAULT_REPO.to_owned())
}

/// Whether a request is a GET of `url` with the client's user agent.
pub open spec fn is_get(r: HttpRequest, url: Seq<char>) -> bool {
    &&& r.url@ == url
    &&& r.headers@.len() == 1
    &&& r.headers@[0].0@ == "User-Agent"@
    &&& r.headers@[0].1@ == USER_AGENT@
}

/// `list_files`: lists a directory of the repository (its root by default).
#[derive(Debug)]
pub struct ListFilesHandler {
    pub github_client: GitHubClient,
}

pub open spec fn listing_url(c: ClientView, arguments: Option<Seq<(Seq<char>, JsonView)>>) -> Seq<
    char,
> {
    contents_url(
        c.0,
        c.1,
        match path_argument(arguments) {
            Some(p) => p,
            None => Seq::empty(),
        },
    )
}

pub open spec fn finish_listing(o: FetchOutcome) -> Result<Seq<ToolContentView>, Seq<char>> {
    match listing(o) {
        Ok(files) => Ok(text_block(file_listing(files))),
        Err(e) => Err(error_text(e)),
    }
}

impl ListFilesHandler {
    /// A handler for the default repository.
    pub fn new() -> (r: ListFilesHandler)
        ensures
            r.github_client@ == (DEFAULT_OWNER@, DEFAULT_REPO@),
    {
        ListFilesHandler { github_client: default_client() }
    }

    pub fn new_with_client(github_client: GitHubClient) -> (r: ListFilesHandler)
        ensures
            r.github_client@ == github_client@,
    {
        ListFilesHandler { github_client }
    }

    /// The listing request for the optional `path` argument.
    pub fn call(&self, arguments: &Option<Vec<(String, Json)>>) -> (r: HttpRequest)
        ensures
            is_get(r, listing_url(self.github_client@, arguments_view(*arguments))),
    {
        let path = match path_arg(arguments) {
            Some(p) => Some(p.as_str()),
            None => None,
        };
        self.github_client.list_files_request(path)
    }

    /// The listing text, from the reply.
    pub fn finish(&self, outcome: &FetchOutcome) -> (r: Result<CallToolResult, String>)
        ensures
            match r {
                Ok(c) => finish_listing(*outcome) == Ok::<Seq<ToolContentView>, Seq<char>>(c@),
                Err(m) => finish_listing(*outcome) == Err::<Seq<ToolContentView>, Seq<char>>(m@),
            },
    {
        match self.github_client.list_files(outcome) {
            Ok(files) => Ok(text_result(format_file_info(files.as_slice()))),
            Err(e) => Err(e.message()),
        }
    }
}

/// `get_file_content`: the text of one file; the `path` argument is required.
#[derive(Debug)]
pub struct GetFileContentHandler {
    pub github_client: GitHubClient,
}

pub open spec fn finish_file(path: Seq<char>, o: FetchOutcome) -> Result<
    Seq<ToolContentView>,
    Seq<char>,
> {
    match file_text(o) {
        Ok(content) => Ok(text_block(file_content_text(path, content))),
        Err(e) => Err(error_text(e)),
    }
}

impl GetFileContentHandler {
    /// A handler for the default repository.
    pub fn new() -> (r: GetFileContentHandler)
        ensures
            r.github_client@ == (DEFAULT_OWNER@, DEFAULT_REPO@),
    {
        GetFileContentHandler { github_client: default_client() }
    }

    pub fn new_with_client(github_client: GitHubClient) -> (r: GetFileContentHandler)
        ensures
            r.github_client@ == github_client@,
    {
        GetFileContentHandler { github_client }
    }

    /// The path to fetch with its request; an error where `path` is missing or no string.
    pub fn call(&self, arguments: &Option<Vec<(String, Json)>>) -> (r: Result<
        (String, HttpRequest),
        String,
    >)
        ensures
            match r {
                Ok((path, request)) => path_argument(arguments_view(*arguments)) == Some(path@)
                    && is_get(
                    request,
                    contents_url(self.github_client@.0, self.github_client@.1, path@),
                ),
                Err(m) => path_argument(arguments_view(*arguments)) is None && m@
                    == PATH_REQUIRED@,
            },
    {
        match path_arg(arguments) {
            Some(p) => Ok((p.clone(), self.github_client.get_file_content_request(p.as_str()))),
            None => Err(PATH_REQUIRED.to_owned()),
        }
    }

    /// The file text of `path`, from the reply.
    pub fn finish(&self, path: &str, outcome: &FetchOutcome) -> (r: Result<CallToolResult, String>)
        ensures
            match r {
                Ok(c) => finish_file(path@, *outcome) == Ok::<Seq<ToolContentView>, Seq<char>>(c@),
                Err(m) => finish_file(path@, *outcome) == Err::<Seq<ToolContentView>, Seq<char>>(
                    m@,
                ),
            },
    {
        match self.github_client.get_file_content(outcome) {
            Ok(content) => Ok(text_result(format_file_content(path, content.as_str()))),
            Err(e) => Err(e.message()),
        }
    }
}

/// `get_latest_commit`: the id of the newest commit of the default branch.
#[derive(Debug)]
pub struct GetLatestCommitHandler {
    pub github_client: GitHubClient,
}

pub open spec fn finish_commit(o: FetchOutcome) -> Result<Seq<ToolContentView>, Seq<char>> {
    match latest_sha(o) {
        Ok(sha) => Ok(text_block("Latest commit SHA: "@ + sha)),
        Err(e) => Err(error_text(e)),
    }
}

impl GetLatestCommitHandler {
    /// A handler for the default repository.
    pub fn new() -> (r: GetLatestCommitHandler)
        ensures
            r.github_client@ == (DEFAULT_OWNER@, DEFAULT_REPO@),
    {
        GetLatestCommitHandler { github_client: default_client() }
    }

    pub fn new_with_client(github_client: GitHubClient) -> (r: GetLatestCommitHandler)
        ensures
            r.github_client@ == github_client@,
    {
        GetLatestCommitHandler { github_client }
    }

    /// The commit request; the arguments are ignored.
    pub fn call(&self, _arguments: &Option<Vec<(String, Json)>>) -> (r: HttpRequest)
        ensures
            is_get(
                r,
                commits_url(
                    self.github_client@.0,
                    self.github_client@.1,
                    crate::constants::DEFAULT_BRANCH@,
                ),
            ),
    {
        self.github_client.get_latest_commit_request()
    }

    /// The commit id text, from the reply.
    pub fn finish(&self, outcome: &FetchOutcome) -> (r: Result<CallToolResult, String>)
        ensures
            match r {
                Ok(c) => finish_commit(*outcome) == Ok::<Seq<ToolContentView>, Seq<char>>(c@),
                Err(m) => finish_commit(*outcome) == Err::<Seq<ToolContentView>, Seq<char>>(m@),
            },
    {
        match self.github_client.get_latest_commit_sha(outcome) {
            Ok(sha) => {
                let mut text = "Latest commit SHA: ".to_owned();
                text.append(sha.as_str());
                Ok(text_result(text))
            },
            Err(e) => Err(e.message()),
        }
    }
}

/// The repository information resource: owner, name and newest commit.
#[derive(Debug)]
pub struct NotionRepoResourceHandler {
    pub github_client: GitHubClient,
}

pub open spec fn unknown_uri_message(uri: Seq<char>) -> Seq<char> {
    UNKNOWN_RESOURCE_URI@ + ": "@ + uri
}

pub open spec fn finish_repo_info(c: ClientView, uri: Seq<char>, o: FetchOutcome) -> Result<
    Seq<ResourceContentView>,
    Seq<char>,
> {
    match latest_sha(o) {
        Ok(sha) => Ok(seq![ResourceContentView::Text { uri, text: repository_info(c.0, c.1,
            sha) }]),
        Err(e) => Err(error_text(e)),
    }
}

impl NotionRepoResourceHandler {
    /// A handler for the default repository.
    pub fn new() -> (r: NotionRepoResourceHandler)
        ensures
            r.github_client@ == (DEFAULT_OWNER@, DEFAULT_REPO@),
    {
        NotionRepoResourceHandler { github_client: default_client() }
    }

    pub fn new_with_client(github_client: GitHubClient) -> (r: NotionRepoResourceHandler)
        ensures
            r.github_client@ == github_client@,
    {
        NotionRepoResourceHandler { github_client }
    }

    /// The commit request behind `uri`; an error for any URI but the repository information.
    pub fn read(&self, uri: &str) -> (r: Result<HttpRequest, String>)
        ensures
            match r {
                Ok(request) => uri@ == RESOURCE_REPO_INFO@ && is_get(
                    request,
                    commits_url(
                        self.github_client@.0,
                        self.github_client@.1,
                        crate::constants::DEFAULT_BRANCH@,
                    ),
                ),
                Err(m) => uri@ != RESOURCE_REPO_INFO@ && m@ == unknown_uri_message(uri@),
            },
    {
        if same_text(uri, RESOURCE_REPO_INFO) {
            Ok(self.github_client.get_latest_commit_request())
        } else {
            let mut message = UNKNOWN_RESOURCE_URI.to_owned();
            message.append(": ");
            message.append(uri);
            Err(message)
        }
    }

    /// The information text of `uri`, from the reply.
    pub fn finish(&self, uri: &str, outcome: &FetchOutcome) -> (r: Result<ReadResourceResult,
        String>)
        ensures
            match r {
                Ok(c) => finish_repo_info(self.github_client@, uri@, *outcome) == Ok::<
                    Seq<ResourceContentView>,
                    Seq<char>,
                >(c@),
                Err(m) => finish_repo_info(self.github_client@, uri@, *outcome) == Err::<
                    Seq<ResourceContentView>,
                    Seq<char>,
                >(m@),
            },
    {
        match self.github_client.get_latest_commit_sha(outcome) {
            Ok(sha) => {
                let text = format_repository_info(
                    self.github_client.owner(),
                    self.github_client.repo(),
                    sha.as_str(),
                );
                let r = ReadResourceResult {
                    contents: vec![ResourceContent::Text { uri: uri.to_owned(), text }],
                };
                assert(r@ =~= seq![ResourceContentView::Text { uri: uri@, text: text@ }]);
                Ok(r)
            },
            Err(e) => Err(e.message()),
        }
    }
}

} // verus!
