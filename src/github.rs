//! The upstream repository client: what it asks for and how it reads the answers.
//!
//! The client performs no I/O. It names the request to send (a GET with its
//! headers), and it interprets the reply that the caller hands back.
use crate::constants::{
    BASE64_ENCODING, BODY_DECODE_FAILED, COMMIT_SHA_EXTRACT_FAILED, DEFAULT_BRANCH,
        GITHUB_API_FAILED,
    INVALID_BASE64, INVALID_UTF8, USER_AGENT,
};
use crate::json::{decode_each, opt_text, same_text, Json, JsonView};
use crate::utils::{build_github_commits_url, build_github_contents_url, commits_url, contents_url};
use vstd::string::StringSliceAdditionalSpecFns;
use vstd::utf8::{decode_utf8, valid_utf8};
use vstd::prelude::*;

verus! {

/// One entry of a directory listing.
#[derive(Debug)]
pub struct GitHubFile {
    pub name: String,
    pub path: String,
    pub sha: String,
    pub file_type: String,
    pub size: Option<u64>,
    pub download_url: Option<String>,
}

pub struct GitHubFileView {
    pub name: Seq<char>,
    pub path: Seq<char>,
    pub sha: Seq<char>,
    pub file_type: Seq<char>,
    pub size: Option<u64>,
    pub download_url: Option<Seq<char>>,
}

impl View for GitHubFile {
    type V = GitHubFileView;

    open spec fn view(&self) -> GitHubFileView {
        GitHubFileView {
            name: self.name@,
            path: self.path@,
            sha: self.sha@,
            file_type: self.file_type@,
            size: self.size,
            download_url: opt_text(self.download_url),
        }
    }
}

/// An optional size member: `Some(None)` where it is missing or null,
/// `None` where it holds anything but a non-negative integer.
pub open spec fn opt_size_field(j: JsonView, key: Seq<char>) -> Option<Option<u64>> {
    match j.field(key) {
        None => Some(None),
        Some(JsonView::Null) => Some(None),
        Some(JsonView::Int(n)) => if n >= 0 {
            Some(Some(n as u64))
        } else {
            None
        },
        _ => None,
    }
}

pub open spec fn decode_file(j: JsonView) -> Option<GitHubFileView> {
    match (
        j.text_field("name"@),
        j.text_field("path"@),
        j.text_field("sha"@),
        j.text_field("type"@),
        opt_size_field(j, "size"@),
        j.opt_text_field("download_url"@),
    ) {
        (
            Some(name),
            Some(path),
            Some(sha),
            Some(file_type),
            Some(size),
            Some(download_url),
        ) => Some(GitHubFileView { name, path, sha, file_type, size, download_url }),
        _ => None,
    }
}

fn get_opt_size(j: &Json, key: &str) -> (r: Option<Option<u64>>)
    ensures
        r == opt_size_field(j@, key@),
{
    match j.get(key) {
        None => Some(None),
        Some(Json::Null) => Some(None),
        Some(Json::Int(n)) => {
            if *n >= 0 {
                Some(Some(*n as u64))
            } else {
                None
            }
        },
        _ => None,
    }
}

impl GitHubFile {
    /// Reads one listing entry.
    pub fn from_json(j: &Json) -> (r: Option<GitHubFile>)
        ensures
            match r {
                None => decode_file(j@) is None,
                Some(f) => decode_file(j@) == Some(f@),
            },
    {
        match (
            j.get_text("name"),
            j.get_text("path"),
            j.get_text("sha"),
            j.get_text("type"),
            get_opt_size(j, "size"),
            j.get_opt_text("download_url"),
        ) {
            (
                Some(name),
                Some(path),
                Some(sha),
                Some(file_type),
                Some(size),
                Some(download_url),
            ) => Some(
                GitHubFile {
                    name: name.clone(),
                    path: path.clone(),
                    sha: sha.clone(),
                    file_type: file_type.clone(),
                    size,
                    download_url,
                },
            ),
            _ => None,
        }
    }
}

/// A file as the contents endpoint returns it, its content still encoded.
#[derive(Debug)]
pub struct GitHubContent {
    pub name: String,
    pub path: String,
    pub sha: String,
    pub size: u64,
    pub content: String,
    pub encoding: String,
}

pub struct GitHubContentView {
    pub name: Seq<char>,
    pub path: Seq<char>,
    pub sha: Seq<char>,
    pub size: u64,
    pub content: Seq<char>,
    pub encoding: Seq<char>,
}

impl View for GitHubContent {
    type V = GitHubContentView;

    open spec fn view(&self) -> GitHubContentView {
        GitHubContentView {
            name: self.name@,
            path: self.path@,
            sha: self.sha@,
            size: self.size,
            content: self.content@,
            encoding: self.encoding@,
        }
    }
}

pub open spec fn decode_content(j: JsonView) -> Option<GitHubContentView> {
    match (
        j.text_field("name"@),
        j.text_field("path"@),
        j.text_field("sha"@),
        opt_size_field(j, "size"@),
        j.text_field("content"@),
        j.text_field("encoding"@),
    ) {
        (
            Some(name),
            Some(path),
            Some(sha),
            Some(Some(size)),
            Some(content),
            Some(encoding),
        ) => Some(GitHubContentView { name, path, sha, size, content, encoding }),
        _ => None,
    }
}

impl GitHubContent {
    /// Reads the answer of the contents endpoint for one file.
    pub fn from_json(j: &Json) -> (r: Option<GitHubContent>)
        ensures
            match r {
                None => decode_content(j@) is None,
                Some(c) => decode_content(j@) == Some(c@),
            },
    {
        match (
            j.get_text("name"),
            j.get_text("path"),
            j.get_text("sha"),
            get_opt_size(j, "size"),
            j.get_text("content"),
            j.get_text("encoding"),
        ) {
            (
                Some(name),
                Some(path),
                Some(sha),
                Some(Some(size)),
                Some(content),
                Some(encoding),
            ) => Some(
                GitHubContent {
                    name: name.clone(),
                    path: path.clone(),
                    sha: sha.clone(),
                    size,
                    content: content.clone(),
                    encoding: encoding.clone(),
                },
            ),
            _ => None,
        }
    }
}

/// A GET request for the caller to send.
#[derive(Debug)]
pub struct HttpRequest {
    pub url: String,
    /// Header names and values, in order.
    pub headers: Vec<(String, String)>,
}

/// What came back from a request that reached the server.
#[derive(Debug)]
pub struct HttpReply {
    pub status: u16,
    /// The status as text, such as `404 Not Found`.
    pub status_text: String,
    /// The body as a JSON document; `None` where it is no JSON.
    pub body: Option<Json>,
}

/// The outcome of sending an [`HttpRequest`].
#[derive(Debug)]
pub enum FetchOutcome {
    Reply(HttpReply),
    /// The request failed before a reply came, with the transport's message.
    Failed(String),
}

/// Why an upstream call gave no result.
#[derive(Debug)]
pub enum GitHubError {
    /// The request did not complete.
    Transport(String),
    /// The server answered with a status outside 200..=299; it holds the status text.
    Status(String),
    /// The body is no JSON of the expected shape.
    Body,
    /// The content is no valid base64.
    Base64,
    /// The decoded content is no UTF-8 text.
    Utf8,
    /// The commit document holds no `sha` string.
    MissingSha,
}

pub enum GitHubErrorView {
    Transport(Seq<char>),
    Status(Seq<char>),
    Body,
    Base64,
    Utf8,
    MissingSha,
}

impl View for GitHubError {
    type V = GitHubErrorView;

    open spec fn view(&self) -> GitHubErrorView {
        match self {
            GitHubError::Transport(m) => GitHubErrorView::Transport(m@),
            GitHubError::Status(s) => GitHubErrorView::Status(s@),
            GitHubError::Body => GitHubErrorView::Body,
            GitHubError::Base64 => GitHubErrorView::Base64,
            GitHubError::Utf8 => GitHubErrorView::Utf8,
            GitHubError::MissingSha => GitHubErrorView::MissingSha,
        }
    }
}

pub open spec fn error_text(e: GitHubErrorView) -> Seq<char> {
    match e {
        GitHubErrorView::Transport(m) => m,
        GitHubErrorView::Status(s) => GITHUB_API_FAILED@ + ": "@ + s,
        GitHubErrorView::Body => BODY_DECODE_FAILED@,
        GitHubErrorView::Base64 => INVALID_BASE64@,
        GitHubErrorView::Utf8 => INVALID_UTF8@,
        GitHubErrorView::MissingSha => COMMIT_SHA_EXTRACT_FAILED@,
    }
}

impl GitHubError {
    /// The error's text.
    pub fn message(&self) -> (r: String)
        ensures
            r@ == error_text(self@),
    {
        match self {
            GitHubError::Transport(m) => m.clone(),
            GitHubError::Status(s) => {
                let mut text = GITHUB_API_FAILED.to_owned();
                text.append(": ");
                text.append(s.as_str());
                text
            },
            GitHubError::Body => BODY_DECODE_FAILED.to_owned(),
            GitHubError::Base64 => INVALID_BASE64.to_owned(),
            GitHubError::Utf8 => INVALID_UTF8.to_owned(),
            GitHubError::MissingSha => COMMIT_SHA_EXTRACT_FAILED.to_owned(),
        }
    }
}

/// The document of a successful reply: a transport failure, a status outside
/// 200..=299 or a body that is no JSON give the matching error, in that order.
pub open spec fn reply_document(o: FetchOutcome) -> Result<JsonView, GitHubErrorView> {
    match o {
        FetchOutcome::Failed(m) => Err(GitHubErrorView::Transport(m@)),
        FetchOutcome::Reply(r) => if !(200 <= r.status <= 299) {
            Err(GitHubErrorView::Status(r.status_text@))
        } else {
            match r.body {
                Some(b) => Ok(b@),
                None => Err(GitHubErrorView::Body),
            }
        },
    }
}

fn reply_json(o: &FetchOutcome) -> (r: Result<&Json, GitHubError>)
    ensures
        match r {
            Ok(j) => reply_document(*o) == Ok::<JsonView, GitHubErrorView>(j@),
            Err(e) => reply_document(*o) == Err::<JsonView, GitHubErrorView>(e@),
        },
{
    match o {
        FetchOutcome::Failed(m) => Err(GitHubError::Transport(m.clone())),
        FetchOutcome::Reply(r) => {
            if r.status < 200 || r.status > 299 {
                Err(GitHubError::Status(r.status_text.clone()))
            } else {
                match &r.body {
                    Some(b) => Ok(b),
                    None => Err(GitHubError::Body),
                }
            }
        },
    }
}

pub open spec fn file_decoder() -> spec_fn(JsonView) -> Option<GitHubFileView> {
    |j: JsonView| decode_file(j)
}

pub open spec fn listing(o: FetchOutcome) -> Result<Seq<GitHubFileView>, GitHubErrorView> {
    match reply_document(o) {
        Err(e) => Err(e),
        Ok(JsonView::Array(items)) => match decode_each(items, file_decoder()) {
            Some(files) => Ok(files),
            None => Err(GitHubErrorView::Body),
        },
        Ok(_) => Err(GitHubErrorView::Body),
    }
}

/// The content text with every line feed taken out (base64 payloads are wrapped).
pub open spec fn without_newlines(bytes: Seq<u8>) -> Seq<u8>
    decreases bytes.len(),
{
    if bytes.len() == 0 {
        Seq::empty()
    } else if bytes.last() == 10u8 {
        without_newlines(bytes.drop_last())
    } else {
        without_newlines(bytes.drop_last()).push(bytes.last())
    }
}

/// What base64's standard engine decodes `text` to; `None` where it refuses it.
pub uninterp spec fn base64_decoded(text: Seq<u8>) -> Option<Seq<u8>>;

#[verifier::external_type_specification]
#[verifier::external_body]
pub struct ExDecodeError(base64::DecodeError);

/// Relies on base64's `Engine::decode` on the `STANDARD` engine (standard
/// alphabet, canonical padding): the outcome depends on the input bytes alone.
#[verifier::external_body]
fn decode_base64(text: &[u8]) -> (r: Result<Vec<u8>, base64::DecodeError>)
    ensures
        match r {
            Ok(bytes) => base64_decoded(text@) == Some(bytes@),
            Err(_) => base64_decoded(text@) is None,
        },
{
    base64::Engine::decode(&base64::engine::general_purpose::STANDARD, text)
}

/// Relies on `String::from_utf8`: it accepts exactly the valid UTF-8 byte
/// sequences, and the string holds the characters they encode.
#[verifier::external_body]
fn utf8_text(bytes: Vec<u8>) -> (r: Option<String>)
    ensures
        match r {
            Some(s) => valid_utf8(bytes@) && s@ == decode_utf8(bytes@),
            None => !valid_utf8(bytes@),
        },
{
    String::from_utf8(bytes).ok()
}

/// The bytes of `text` without its line feeds.
fn strip_newlines(text: &str) -> (r: Vec<u8>)
    ensures
        r@ == without_newlines(crate::json::utf8_of(text@)),
{
    let bytes = text.as_bytes_vec();
    let mut out: Vec<u8> = Vec::new();
    let mut i: usize = 0;
    while i < bytes.len()
        invariant
            i <= bytes.len(),
            out@ == without_newlines(bytes@.subrange(0, i as int)),
        decreases bytes.len() - i,
    {
        assert(bytes@.subrange(0, i + 1).drop_last() =~= bytes@.subrange(0, i as int));
        if bytes[i] != 10u8 {
            out.push(bytes[i]);
        }
        i = i + 1;
    }
    assert(bytes@.subrange(0, i as int) =~= bytes@);
    out
}

/// The text of a fetched file: base64 content is decoded (line feeds ignored) and
/// must be UTF-8; content in any other encoding is taken as it stands.
pub open spec fn file_text(o: FetchOutcome) -> Result<Seq<char>, GitHubErrorView> {
    match reply_document(o) {
        Err(e) => Err(e),
        Ok(j) => match decode_content(j) {
            None => Err(GitHubErrorView::Body),
            Some(c) => if c.encoding == BASE64_ENCODING@ {
                match base64_decoded(without_newlines(crate::json::utf8_of(c.content))) {
                    None => Err(GitHubErrorView::Base64),
                    Some(bytes) => if valid_utf8(bytes) {
                        Ok(decode_utf8(bytes))
                    } else {
                        Err(GitHubErrorView::Utf8)
                    },
                }
            } else {
                Ok(c.content)
            },
        },
    }
}

pub open spec fn latest_sha(o: FetchOutcome) -> Result<Seq<char>, GitHubErrorView> {
    match reply_document(o) {
        Err(e) => Err(e),
        Ok(j) => match j.text_field("sha"@) {
            Some(sha) => Ok(sha),
            None => Err(GitHubErrorView::MissingSha),
        },
    }
}

/// A client of one repository's contents and commits.
#[derive(Debug)]
pub struct GitHubClient {
    owner: String,
    repo: String,
}

impl View for GitHubClient {
    type V = (Seq<char>, Seq<char>);

    closed spec fn view(&self) -> (Seq<char>, Seq<char>) {
        (self.owner@, self.repo@)
    }
}

fn get_request(url: String) -> (r: HttpRequest)
    ensures
        r.url@ == url@,
        r.headers@.len() == 1,
        r.headers@[0].0@ == "User-Agent"@,
        r.headers@[0].1@ == USER_AGENT@,
{
    let (name, value) = crate::utils::get_user_agent_header();
    let headers = vec![(name.to_owned(), value.to_owned())];
    HttpRequest { url, headers }
}

impl GitHubClient {
    pub fn new(owner: String, repo: String) -> (r: GitHubClient)
        ensures
            r@ == (owner@, repo@),
    {
        GitHubClient { owner, repo }
    }

    pub fn copy(&self) -> (r: GitHubClient)
        ensures
            r@ == self@,
    {
        GitHubClient { owner: self.owner.clone(), repo: self.repo.clone() }
    }

    pub fn owner(&self) -> (r: &str)
        ensures
            r@ == self@.0,
    {
        self.owner.as_str()
    }

    pub fn repo(&self) -> (r: &str)
        ensures
            r@ == self@.1,
    {
        self.repo.as_str()
    }

    /// The request that lists `path` (the repository root where it is absent).
    pub fn list_files_request(&self, path: Option<&str>) -> (r: HttpRequest)
        ensures
            r.url@ == contents_url(
                self@.0,
                self@.1,
                match path {
                    Some(p) => p@,
                    None => Seq::empty(),
                },
            ),
            r.headers@.len() == 1,
            r.headers@[0].0@ == "User-Agent"@,
            r.headers@[0].1@ == USER_AGENT@,
    {
        let p = match path {
            Some(p) => p,
            None => "",
        };
        proof {
            reveal_strlit("");
        }
        get_request(build_github_contents_url(self.owner.as_str(), self.repo.as_str(), p))
    }

    /// The entries of a directory, from the reply to [`Self::list_files_request`].
    pub fn list_files(&self, outcome: &FetchOutcome) -> (r: Result<Vec<GitHubFile>, GitHubError>)
        ensures
            match r {
                Ok(files) => listing(*outcome) == Ok::<Seq<GitHubFileView>, GitHubErrorView>(
                    crate::utils::files_view(files@),
                ),
                Err(e) => listing(*outcome) == Err::<Seq<GitHubFileView>, GitHubErrorView>(e@),
            },
    {
        let doc = match reply_json(outcome) {
            Ok(doc) => doc,
            Err(e) => {
                return Err(e);
            },
        };
        match doc {
            Json::Array(items) => {
                let ghost iv = crate::json::items_view(items@);
                proof {
                    crate::json::lemma_array_view(*items);
                }
                let mut out: Vec<GitHubFile> = Vec::new();
                let mut i: usize = 0;
                while i < items.len()
                    invariant
                        iv == crate::json::items_view(items@),
                        reply_document(*outcome) == Ok::<JsonView, GitHubErrorView>(
                            JsonView::Array(iv),
                        ),
                        i <= items.len(),
                        out.len() == i,
                        forall|k: int|
                            0 <= k < i ==> decode_file(#[trigger] iv[k]) == Some(out[k]@),
                    decreases items.len() - i,
                {
                    match GitHubFile::from_json(&items[i]) {
                        Some(f) => out.push(f),
                        None => {
                            assert(file_decoder()(iv[i as int]) is None);
                            return Err(GitHubError::Body);
                        },
                    }
                    i = i + 1;
                }
                assert(Seq::new(iv.len(), |k: int| file_decoder()(iv[k])->0)
                    =~= crate::utils::files_view(out@));
                Ok(out)
            },
            _ => Err(GitHubError::Body),
        }
    }

    /// The request that fetches the file at `path`.
    pub fn get_file_content_request(&self, path: &str) -> (r: HttpRequest)
        ensures
            r.url@ == contents_url(self@.0, self@.1, path@),
            r.headers@.len() == 1,
            r.headers@[0].0@ == "User-Agent"@,
            r.headers@[0].1@ == USER_AGENT@,
    {
        get_request(build_github_contents_url(self.owner.as_str(), self.repo.as_str(), path))
    }

    /// The text of a file, from the reply to [`Self::get_file_content_request`].
    pub fn get_file_content(&self, outcome: &FetchOutcome) -> (r: Result<String, GitHubError>)
        ensures
            match r {
                Ok(s) => file_text(*outcome) == Ok::<Seq<char>, GitHubErrorView>(s@),
                Err(e) => file_text(*outcome) == Err::<Seq<char>, GitHubErrorView>(e@),
            },
    {
        let doc = match reply_json(outcome) {
            Ok(doc) => doc,
            Err(e) => {
                return Err(e);
            },
        };
        let content = match GitHubContent::from_json(doc) {
            Some(c) => c,
            None => {
                return Err(GitHubError::Body);
            },
        };
        if same_text(content.encoding.as_str(), BASE64_ENCODING) {
            let packed = strip_newlines(content.content.as_str());
            match decode_base64(packed.as_slice()) {
                Ok(bytes) => match utf8_text(bytes) {
                    Some(text) => Ok(text),
                    None => Err(GitHubError::Utf8),
                },
                Err(_) => Err(GitHubError::Base64),
            }
        } else {
            Ok(content.content)
        }
    }

    /// The request for the newest commit of the default branch.
    pub fn get_latest_commit_request(&self) -> (r: HttpRequest)
        ensures
            r.url@ == commits_url(self@.0, self@.1, DEFAULT_BRANCH@),
            r.headers@.len() == 1,
            r.headers@[0].0@ == "User-Agent"@,
            r.headers@[0].1@ == USER_AGENT@,
    {
        get_request(build_github_commits_url(self.owner.as_str(), self.repo.as_str(),
            DEFAULT_BRANCH))
    }

    /// The commit id, from the reply to [`Self::get_latest_commit_request`].
    pub fn get_latest_commit_sha(&self, outcome: &FetchOutcome) -> (r: Result<String, GitHubError>)
        ensures
            match r {
                Ok(s) => latest_sha(*outcome) == Ok::<Seq<char>, GitHubErrorView>(s@),
                Err(e) => latest_sha(*outcome) == Err::<Seq<char>, GitHubErrorView>(e@),
            },
    {
        let doc = match reply_json(outcome) {
            Ok(doc) => doc,
            Err(e) => {
                return Err(e);
            },
        };
        match doc.get_text("sha") {
            Some(sha) => Ok(sha.clone()),
            None => Err(GitHubError::MissingSha),
        }
    }
}

} // verus!
