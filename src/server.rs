//! The dispatch core: a registry of tools and resources, the router from a
//! request to its response, and the decision for each input line.
//!
//! Upstream calls are not made here. Where a request needs one, the router
//! answers with the request to send and a pending call; the caller sends it and
//! hands the outcome to [`McpServer::on_fetched`], which gives the response.
//! One line is answered before the next is read, so responses keep the order
//! of the requests.
use crate::constants::{
    DEFAULT_BRANCH, NOT_A_REQUEST, PATH_REQUIRED, PROTOCOL_VERSION, RESOURCE_NOT_FOUND,
    RESOURCE_READ_FAILED, SERVER_NAME, SERVER_VERSION, TOOL_EXECUTION_FAILED, TOOL_NOT_FOUND,
    INTERNAL_ERROR, METHOD_NOT_FOUND, REQUEST_FAILED,
};
use crate::github::{FetchOutcome, HttpRequest};
use crate::handlers::{
    arguments_view, finish_commit, finish_file, finish_listing, finish_repo_info, is_get,
    listing_url, path_argument, ClientView, GetFileContentHandler, GetLatestCommitHandler,
    ListFilesHandler, NotionRepoResourceHandler,
};
use crate::json::{Json, JsonView};
use crate::mcp::{
    copy_resources, copy_tools, decode_notification, decode_request, resources_view, tools_view,
    InitializeResult, InitializeResultView, ListResourcesResult, ListToolsResult,
    McpErrorView, McpNotification, McpRequest, McpRequestView, McpResponse, McpResponseView,
    NameVersion, RequestId, RequestIdView, Resource, ResourceContentView,
    ResourceView, ServerCapabilities, Tool, ToolContentView, ToolView,
};
use crate::utils::{
    commits_url, contents_url, create_internal_error, create_method_not_found_error,
    create_parse_error, create_resource_not_found_error, create_server_capabilities,
    create_server_info, not_found_message,
};
use vstd::prelude::*;

verus! {

/// The handler behind a tool name. The kinds of handler form a closed set,
/// fixed when the library is built; which names they answer is registered at
/// startup, any number of times.
#[derive(Debug)]
pub enum ToolHandler {
    ListFiles(ListFilesHandler),
    GetFileContent(GetFileContentHandler),
    GetLatestCommit(GetLatestCommitHandler),
}

pub enum ToolHandlerView {
    ListFiles(ClientView),
    GetFileContent(ClientView),
    GetLatestCommit(ClientView),
}

impl View for ToolHandler {
    type V = ToolHandlerView;

    open spec fn view(&self) -> ToolHandlerView {
        match self {
            ToolHandler::ListFiles(h) => ToolHandlerView::ListFiles(h.github_client@),
            ToolHandler::GetFileContent(h) => ToolHandlerView::GetFileContent(h.github_client@),
            ToolHandler::GetLatestCommit(h) => ToolHandlerView::GetLatestCommit(h.github_client@),
        }
    }
}

/// The handler behind a resource URI.
#[derive(Debug)]
pub enum ResourceHandler {
    NotionRepo(NotionRepoResourceHandler),
}

pub enum ResourceHandlerView {
    NotionRepo(ClientView),
}

impl View for ResourceHandler {
    type V = ResourceHandlerView;

    open spec fn view(&self) -> ResourceHandlerView {
        match self {
            ResourceHandler::NotionRepo(h) => ResourceHandlerView::NotionRepo(h.github_client@),
        }
    }
}

/// A tool call that waits for its upstream reply.
#[derive(Debug)]
pub enum ToolJob {
    ListFiles(ListFilesHandler),
    GetFileContent(GetFileContentHandler, String),
    GetLatestCommit(GetLatestCommitHandler),
}

pub enum ToolJobView {
    ListFiles(ClientView),
    GetFileContent(ClientView, Seq<char>),
    GetLatestCommit(ClientView),
}

impl View for ToolJob {
    type V = ToolJobView;

    open spec fn view(&self) -> ToolJobView {
        match self {
            ToolJob::ListFiles(h) => ToolJobView::ListFiles(h.github_client@),
            ToolJob::GetFileContent(h, path) => ToolJobView::GetFileContent(
                h.github_client@,
                path@,
            ),
            ToolJob::GetLatestCommit(h) => ToolJobView::GetLatestCommit(h.github_client@),
        }
    }
}

/// A request that waits for its upstream reply.
#[derive(Debug)]
pub enum PendingCall {
    Tool { id: RequestId, job: ToolJob },
    Resource { id: RequestId, handler: ResourceHandler, uri: String },
}

pub enum PendingCallView {
    Tool { id: RequestIdView, job: ToolJobView },
    Resource { id: RequestIdView, handler: ResourceHandlerView, uri: Seq<char> },
}

impl View for PendingCall {
    type V = PendingCallView;

    open spec fn view(&self) -> PendingCallView {
        match self {
            PendingCall::Tool { id, job } => PendingCallView::Tool { id: id@, job: job@ },
            PendingCall::Resource { id, handler, uri } => PendingCallView::Resource {
                id: id@,
                handler: handler@,
                uri: uri@,
            },
        }
    }
}

impl PendingCallView {
    pub open spec fn id(self) -> RequestIdView {
        match self {
            PendingCallView::Tool { id, .. } => id,
            PendingCallView::Resource { id, .. } => id,
        }
    }
}

/// What the router does with a request.
#[derive(Debug)]
pub enum Dispatch {
    /// The response is ready.
    Respond(McpResponse),
    /// Send `request` upstream, then hand its outcome and `pending` to [`McpServer::on_fetched`].
    Fetch { pending: PendingCall, request: HttpRequest },
}

pub enum DispatchView {
    Respond(McpResponseView),
    Fetch { pending: PendingCallView, url: Seq<char> },
}

/// Whether `d` is the dispatch described by `v`; a fetch always carries the user agent header.
pub open spec fn dispatch_is(d: Dispatch, v: DispatchView) -> bool {
    match (d, v) {
        (Dispatch::Respond(r), DispatchView::Respond(rv)) => r@ == rv,
        (Dispatch::Fetch { pending, request }, DispatchView::Fetch { pending: pv, url }) => pending@
            == pv && is_get(request, url),
        _ => false,
    }
}

/// What the transport does with one input line.
#[derive(Debug)]
pub enum LineStep {
    /// A blank line: nothing to write.
    Skip,
    /// A notification was taken in: nothing to write.
    Notified(McpNotification),
    /// Write this response as one line.
    Respond(McpResponse),
    /// Send `request` upstream, then hand its outcome and `pending` to [`McpServer::on_fetched`].
    Fetch { pending: PendingCall, request: HttpRequest },
}

pub enum LineStepView {
    Skip,
    Notified(McpNotification),
    Respond(McpResponseView),
    Fetch { pending: PendingCallView, url: Seq<char> },
}

pub open spec fn line_step_is(s: LineStep, v: LineStepView) -> bool {
    match (s, v) {
        (LineStep::Skip, LineStepView::Skip) => true,
        (LineStep::Notified(n), LineStepView::Notified(nv)) => n == nv,
        (LineStep::Respond(r), LineStepView::Respond(rv)) => r@ == rv,
        (LineStep::Fetch { pending, request }, LineStepView::Fetch { pending: pv, url }) => pending@
            == pv && is_get(request, url),
        _ => false,
    }
}

/// The registry: descriptors in registration order, and a handler for each key.
#[derive(Debug)]
pub struct McpServer {
    tools: Vec<Tool>,
    resources: Vec<Resource>,
    tool_handlers: Vec<(String, ToolHandler)>,
    resource_handlers: Vec<(String, ResourceHandler)>,
}

pub struct McpServerView {
    pub tools: Seq<ToolView>,
    pub resources: Seq<ResourceView>,
    pub tool_handlers: Seq<(Seq<char>, ToolHandlerView)>,
    pub resource_handlers: Seq<(Seq<char>, ResourceHandlerView)>,
}

impl View for McpServer {
    type V = McpServerView;

    closed spec fn view(&self) -> McpServerView {
        McpServerView {
            tools: tools_view(self.tools@),
            resources: resources_view(self.resources@),
            tool_handlers: self.tool_handlers@.map_values(
                |e: (String, ToolHandler)| (e.0@, e.1@),
            ),
            resource_handlers: self.resource_handlers@.map_values(
                |e: (String, ResourceHandler)| (e.0@, e.1@),
            ),
        }
    }
}

impl McpServerView {
    /// Each listed tool is keyed by its name, and each listed resource by its
    /// URI, in the same order: every descriptor has its handler.
    pub open spec fn wf(self) -> bool {
        &&& self.tools.len() == self.tool_handlers.len()
        &&& forall|i: int|
            0 <= i < self.tools.len() ==> #[trigger] self.tool_handlers[i].0 == self.tools[i].name
        &&& self.resources.len() == self.resource_handlers.len()
        &&& forall|i: int|
            0 <= i < self.resources.len() ==> #[trigger] self.resource_handlers[i].0
                == self.resources[i].uri
    }
}

/// The handler registered last under `key`.
pub open spec fn lookup<H>(entries: Seq<(Seq<char>, H)>, key: Seq<char>) -> Option<H>
    decreases entries.len(),
{
    if entries.len() == 0 {
        None
    } else if entries.last().0 == key {
        Some(entries.last().1)
    } else {
        lookup(entries.drop_last(), key)
    }
}

/// The first step of a tool: its job and the upstream URL, or the reason it cannot start.
pub open spec fn begin_tool(h: ToolHandlerView, arguments: Option<Seq<(Seq<char>,
    JsonView)>>) -> Result<
    (ToolJobView, Seq<char>),
    Seq<char>,
> {
    match h {
        ToolHandlerView::ListFiles(c) => Ok((ToolJobView::ListFiles(c), listing_url(c, arguments))),
        ToolHandlerView::GetFileContent(c) => match path_argument(arguments) {
            Some(p) => Ok((ToolJobView::GetFileContent(c, p), contents_url(c.0, c.1, p))),
            None => Err(PATH_REQUIRED@),
        },
        ToolHandlerView::GetLatestCommit(c) => Ok(
            (ToolJobView::GetLatestCommit(c), commits_url(c.0, c.1, DEFAULT_BRANCH@)),
        ),
    }
}

/// The second step of a tool: its content blocks, or the reason it failed.
pub open spec fn finish_tool(job: ToolJobView, o: FetchOutcome) -> Result<
    Seq<ToolContentView>,
    Seq<char>,
> {
    match job {
        ToolJobView::ListFiles(_) => finish_listing(o),
        ToolJobView::GetFileContent(_, path) => finish_file(path, o),
        ToolJobView::GetLatestCommit(_) => finish_commit(o),
    }
}

/// The first step of a resource read: the upstream URL, or the reason it cannot start.
pub open spec fn begin_read(h: ResourceHandlerView, uri: Seq<char>) -> Result<Seq<char>,
    Seq<char>> {
    match h {
        ResourceHandlerView::NotionRepo(c) => if uri == crate::constants::RESOURCE_REPO_INFO@ {
            Ok(commits_url(c.0, c.1, DEFAULT_BRANCH@))
        } else {
            Err(crate::handlers::unknown_uri_message(uri))
        },
    }
}

pub open spec fn finish_read(h: ResourceHandlerView, uri: Seq<char>, o: FetchOutcome) -> Result<
    Seq<ResourceContentView>,
    Seq<char>,
> {
    match h {
        ResourceHandlerView::NotionRepo(c) => finish_repo_info(c, uri, o),
    }
}

pub open spec fn error_view(id: RequestIdView, code: i32, message: Seq<char>) -> McpResponseView {
    McpResponseView::Error { id, error: McpErrorView { code, message, data: None } }
}

/// A handler failure: the fixed prefix, then the handler's text.
pub open spec fn failure_message(prefix: Seq<char>, cause: Seq<char>) -> Seq<char> {
    prefix + ": "@ + cause
}

pub open spec fn initialize_result() -> InitializeResultView {
    InitializeResultView {
        protocol_version: PROTOCOL_VERSION@,
        capabilities: ServerCapabilities {
            tools: Some(crate::mcp::ToolsCapability { list_changed: Some(false) }),
            resources: Some(
                crate::mcp::ResourcesCapability { subscribe: Some(false),
                    list_changed: Some(false) },
            ),
        },
        server_info: NameVersion { name: SERVER_NAME@, version: SERVER_VERSION@ },
    }
}

/// What the router does with a decoded request.
pub open spec fn dispatch(s: McpServerView, request: McpRequestView) -> DispatchView {
    match request {
        McpRequestView::Initialize { id, .. } => DispatchView::Respond(
            McpResponseView::Initialize { id, result: initialize_result() },
        ),
        McpRequestView::ListTools { id } => DispatchView::Respond(
            McpResponseView::ListTools { id, result: s.tools },
        ),
        McpRequestView::ListResources { id } => DispatchView::Respond(
            McpResponseView::ListResources { id, result: s.resources },
        ),
        McpRequestView::CallTool { id, params } => match lookup(s.tool_handlers, params.name) {
            None => DispatchView::Respond(
                error_view(id, METHOD_NOT_FOUND, not_found_message(TOOL_NOT_FOUND@, params.name)),
            ),
            Some(h) => match begin_tool(h, params.arguments) {
                Err(m) => DispatchView::Respond(
                    error_view(id, INTERNAL_ERROR, failure_message(TOOL_EXECUTION_FAILED@, m)),
                ),
                Ok((job, url)) => DispatchView::Fetch {
                    pending: PendingCallView::Tool { id, job },
                    url,
                },
            },
        },
        McpRequestView::ReadResource { id, uri } => match lookup(s.resource_handlers, uri) {
            None => DispatchView::Respond(
                error_view(id, METHOD_NOT_FOUND, not_found_message(RESOURCE_NOT_FOUND@, uri)),
            ),
            Some(h) => match begin_read(h, uri) {
                Err(m) => DispatchView::Respond(
                    error_view(id, INTERNAL_ERROR, failure_message(RESOURCE_READ_FAILED@, m)),
                ),
                Ok(url) => DispatchView::Fetch {
                    pending: PendingCallView::Resource { id, handler: h, uri },
                    url,
                },
            },
        },
    }
}

/// The response to a pending call, given the outcome of its upstream request.
pub open spec fn complete(p: PendingCallView, o: FetchOutcome) -> McpResponseView {
    match p {
        PendingCallView::Tool { id, job } => match finish_tool(job, o) {
            Ok(content) => McpResponseView::CallTool { id, result: content },
            Err(m) => error_view(id, INTERNAL_ERROR, failure_message(TOOL_EXECUTION_FAILED@, m)),
        },
        PendingCallView::Resource { id, handler, uri } => match finish_read(handler, uri, o) {
            Ok(contents) => McpResponseView::ReadResource { id, result: contents },
            Err(m) => error_view(id, INTERNAL_ERROR, failure_message(RESOURCE_READ_FAILED@, m)),
        },
    }
}

impl ToolHandler {
    pub fn copy(&self) -> (r: ToolHandler)
        ensures
            r@ == self@,
    {
        match self {
            ToolHandler::ListFiles(h) => ToolHandler::ListFiles(
                ListFilesHandler::new_with_client(h.github_client.copy()),
            ),
            ToolHandler::GetFileContent(h) => ToolHandler::GetFileContent(
                GetFileContentHandler::new_with_client(h.github_client.copy()),
            ),
            ToolHandler::GetLatestCommit(h) => ToolHandler::GetLatestCommit(
                GetLatestCommitHandler::new_with_client(h.github_client.copy()),
            ),
        }
    }

    /// Starts a call: the job to finish and the request to send, or the reason it cannot start.
    pub fn begin(&self, arguments: &Option<Vec<(String, Json)>>) -> (r: Result<
        (ToolJob, HttpRequest),
        String,
    >)
        ensures
            match r {
                Ok((job, request)) => begin_tool(self@, arguments_view(*arguments)) == Ok::<
                    (ToolJobView, Seq<char>),
                    Seq<char>,
                >((job@, request.url@)) && is_get(request, request.url@),
                Err(m) => begin_tool(self@, arguments_view(*arguments)) == Err::<
                    (ToolJobView, Seq<char>),
                    Seq<char>,
                >(m@),
            },
    {
        match self {
            ToolHandler::ListFiles(h) => {
                let request = h.call(arguments);
                Ok(
                    (
                        ToolJob::ListFiles(ListFilesHandler::new_with_client(h.github_client.copy())),
                        request,
                    ),
                )
            },
            ToolHandler::GetFileContent(h) => match h.call(arguments) {
                Ok((path, request)) => Ok(
                    (
                        ToolJob::GetFileContent(
                            GetFileContentHandler::new_with_client(h.github_client.copy()),
                            path,
                        ),
                        request,
                    ),
                ),
                Err(m) => Err(m),
            },
            ToolHandler::GetLatestCommit(h) => {
                let request = h.call(arguments);
                Ok(
                    (
                        ToolJob::GetLatestCommit(
                            GetLatestCommitHandler::new_with_client(h.github_client.copy()),
                        ),
                        request,
                    ),
                )
            },
        }
    }
}

impl ToolJob {
    /// Finishes the call with the outcome of its request.
    pub fn finish(&self, outcome: &FetchOutcome) -> (r: Result<crate::mcp::CallToolResult, String>)
        ensures
            match r {
                Ok(c) => finish_tool(self@, *outcome) == Ok::<Seq<ToolContentView>, Seq<char>>(
                    c@,
                ),
                Err(m) => finish_tool(self@, *outcome) == Err::<Seq<ToolContentView>, Seq<char>>(
                    m@,
                ),
            },
    {
        match self {
            ToolJob::ListFiles(h) => h.finish(outcome),
            ToolJob::GetFileContent(h, path) => h.finish(path.as_str(), outcome),
            ToolJob::GetLatestCommit(h) => h.finish(outcome),
        }
    }
}

impl ResourceHandler {
    pub fn copy(&self) -> (r: ResourceHandler)
        ensures
            r@ == self@,
    {
        match self {
            ResourceHandler::NotionRepo(h) => ResourceHandler::NotionRepo(
                NotionRepoResourceHandler::new_with_client(h.github_client.copy()),
            ),
        }
    }

    /// Starts a read: the request to send, or the reason it cannot start.
    pub fn begin(&self, uri: &str) -> (r: Result<HttpRequest, String>)
        ensures
            match r {
                Ok(request) => begin_read(self@, uri@) == Ok::<Seq<char>, Seq<char>>(request.url@)
                    && is_get(request, request.url@),
                Err(m) => begin_read(self@, uri@) == Err::<Seq<char>, Seq<char>>(m@),
            },
    {
        match self {
            ResourceHandler::NotionRepo(h) => h.read(uri),
        }
    }

    /// Finishes the read of `uri` with the outcome of its request.
    pub fn finish(&self, uri: &str, outcome: &FetchOutcome) -> (r: Result<
        crate::mcp::ReadResourceResult,
        String,
    >)
        ensures
            match r {
                Ok(c) => finish_read(self@, uri@, *outcome) == Ok::<
                    Seq<ResourceContentView>,
                    Seq<char>,
                >(c@),
                Err(m) => finish_read(self@, uri@, *outcome) == Err::<
                    Seq<ResourceContentView>,
                    Seq<char>,
                >(m@),
            },
    {
        match self {
            ResourceHandler::NotionRepo(h) => h.finish(uri, outcome),
        }
    }
}

fn failure_text(prefix: &str, cause: &str) -> (r: String)
    ensures
        r@ == failure_message(prefix@, cause@),
{
    let mut text = prefix.to_owned();
    text.append(": ");
    text.append(cause);
    text
}

impl McpServer {
    /// An empty registry.
    pub fn new() -> (r: McpServer)
        ensures
            r@.tools.len() == 0,
            r@.resources.len() == 0,
            r@.tool_handlers.len() == 0,
            r@.resource_handlers.len() == 0,
            r@.wf(),
    {
        McpServer {
            tools: Vec::new(),
            resources: Vec::new(),
            tool_handlers: Vec::new(),
            resource_handlers: Vec::new(),
        }
    }

    /// Registers a tool: its descriptor is listed last, and `handler` answers its name.
    pub fn add_tool(&mut self, tool: Tool, handler: ToolHandler)
        ensures
            final(self)@.tools == old(self)@.tools.push(tool@),
            final(self)@.tool_handlers == old(self)@.tool_handlers.push((tool.name@, handler@)),
            final(self)@.resources == old(self)@.resources,
            final(self)@.resource_handlers == old(self)@.resource_handlers,
            old(self)@.wf() ==> final(self)@.wf(),
    {
        let ghost old_view = self@;
        let ghost t = tool;
        let ghost h = handler;
        self.tool_handlers.push((tool.name.clone(), handler));
        self.tools.push(tool);
        assert(self@.tools =~= old_view.tools.push(t@));
        assert(self@.tool_handlers =~= old_view.tool_handlers.push((t.name@, h@)));
        assert(self@.resources =~= old_view.resources);
        assert(self@.resource_handlers =~= old_view.resource_handlers);
    }

    /// Registers a resource: its descriptor is listed last, and `handler` answers its URI.
    pub fn add_resource(&mut self, resource: Resource, handler: ResourceHandler)
        ensures
            final(self)@.resources == old(self)@.resources.push(resource@),
            final(self)@.resource_handlers == old(self)@.resource_handlers.push(
                (resource.uri@, handler@),
            ),
            final(self)@.tools == old(self)@.tools,
            final(self)@.tool_handlers == old(self)@.tool_handlers,
            old(self)@.wf() ==> final(self)@.wf(),
    {
        let ghost old_view = self@;
        let ghost r = resource;
        let ghost h = handler;
        self.resource_handlers.push((resource.uri.clone(), handler));
        self.resources.push(resource);
        assert(self@.resources =~= old_view.resources.push(r@));
        assert(self@.resource_handlers =~= old_view.resource_handlers.push((r.uri@, h@)));
        assert(self@.tools =~= old_view.tools);
        assert(self@.tool_handlers =~= old_view.tool_handlers);
    }

    /// The registered tools, in registration order.
    pub fn tools(&self) -> (r: Vec<Tool>)
        ensures
            tools_view(r@) == self@.tools,
    {
        copy_tools(&self.tools)
    }

    /// The registered resources, in registration order.
    pub fn resources(&self) -> (r: Vec<Resource>)
        ensures
            resources_view(r@) == self@.resources,
    {
        copy_resources(&self.resources)
    }

    fn find_tool_handler(&self, name: &String) -> (r: Option<&ToolHandler>)
        ensures
            match r {
                Some(h) => lookup(self@.tool_handlers, name@) == Some(h@),
                None => lookup(self@.tool_handlers, name@) is None,
            },
    {
        let ghost view = self@.tool_handlers;
        let mut found: Option<&ToolHandler> = None;
        let mut i: usize = 0;
        while i < self.tool_handlers.len()
            invariant
                view == self@.tool_handlers,
                i <= self.tool_handlers.len(),
                match found {
                    Some(h) => lookup(view.subrange(0, i as int), name@) == Some(h@),
                    None => lookup(view.subrange(0, i as int), name@) is None,
                },
            decreases self.tool_handlers.len() - i,
        {
            assert(view.subrange(0, i + 1).drop_last() =~= view.subrange(0, i as int));
            if self.tool_handlers[i].0 == *name {
                found = Some(&self.tool_handlers[i].1);
            }
            i = i + 1;
        }
        assert(view.subrange(0, i as int) =~= view);
        found
    }

    fn find_resource_handler(&self, uri: &String) -> (r: Option<&ResourceHandler>)
        ensures
            match r {
                Some(h) => lookup(self@.resource_handlers, uri@) == Some(h@),
                None => lookup(self@.resource_handlers, uri@) is None,
            },
    {
        let ghost view = self@.resource_handlers;
        let mut found: Option<&ResourceHandler> = None;
        let mut i: usize = 0;
        while i < self.resource_handlers.len()
            invariant
                view == self@.resource_handlers,
                i <= self.resource_handlers.len(),
                match found {
                    Some(h) => lookup(view.subrange(0, i as int), uri@) == Some(h@),
                    None => lookup(view.subrange(0, i as int), uri@) is None,
                },
            decreases self.resource_handlers.len() - i,
        {
            assert(view.subrange(0, i + 1).drop_last() =~= view.subrange(0, i as int));
            if self.resource_handlers[i].0 == *uri {
                found = Some(&self.resource_handlers[i].1);
            }
            i = i + 1;
        }
        assert(view.subrange(0, i as int) =~= view);
        found
    }

    /// Routes a decoded request: each request gets exactly one response, at once
    /// or after its upstream call.
    pub fn handle_request(&self, request: McpRequest) -> (r: Dispatch)
        ensures
            dispatch_is(r, dispatch(self@, request@)),
    {
        match request {
            McpRequest::Initialize { id, params: _ } => {
                let result = InitializeResult {
                    protocol_version: PROTOCOL_VERSION.to_owned(),
                    capabilities: create_server_capabilities(),
                    server_info: create_server_info(),
                };
                Dispatch::Respond(McpResponse::Initialize { id, result })
            },
            McpRequest::ListTools { id } => Dispatch::Respond(
                McpResponse::ListTools { id, result: ListToolsResult { tools: self.tools() } },
            ),
            McpRequest::ListResources { id } => Dispatch::Respond(
                McpResponse::ListResources {
                    id,
                    result: ListResourcesResult { resources: self.resources() },
                },
            ),
            McpRequest::CallTool { id, params } => match self.find_tool_handler(&params.name) {
                None => Dispatch::Respond(create_method_not_found_error(id, params.name.as_str())),
                Some(handler) => match handler.begin(&params.arguments) {
                    Err(m) => Dispatch::Respond(
                        create_internal_error(
                            id,
                            failure_text(TOOL_EXECUTION_FAILED, m.as_str()).as_str(),
                        ),
                    ),
                    Ok((job, request)) => Dispatch::Fetch {
                        pending: PendingCall::Tool { id, job },
                        request,
                    },
                },
            },
            McpRequest::ReadResource { id, params } => match self.find_resource_handler(
                &params.uri,
            ) {
                None => Dispatch::Respond(create_resource_not_found_error(id, params.uri.as_str())),
                Some(handler) => match handler.begin(params.uri.as_str()) {
                    Err(m) => Dispatch::Respond(
                        create_internal_error(
                            id,
                            failure_text(RESOURCE_READ_FAILED, m.as_str()).as_str(),
                        ),
                    ),
                    Ok(request) => Dispatch::Fetch {
                        pending: PendingCall::Resource {
                            id,
                            handler: handler.copy(),
                            uri: params.uri,
                        },
                        request,
                    },
                },
            },
        }
    }

    /// The response of a pending call, given the outcome of its upstream request.
    pub fn on_fetched(&self, pending: PendingCall, outcome: &FetchOutcome) -> (r: McpResponse)
        ensures
            r@ == complete(pending@, *outcome),
    {
        match pending {
            PendingCall::Tool { id, job } => match job.finish(outcome) {
                Ok(result) => McpResponse::CallTool { id, result },
                Err(m) => create_internal_error(
                    id,
                    failure_text(TOOL_EXECUTION_FAILED, m.as_str()).as_str(),
                ),
            },
            PendingCall::Resource { id, handler, uri } => match handler.finish(
                uri.as_str(),
                outcome,
            ) {
                Ok(result) => McpResponse::ReadResource { id, result },
                Err(m) => create_internal_error(
                    id,
                    failure_text(RESOURCE_READ_FAILED, m.as_str()).as_str(),
                ),
            },
        }
    }
}

/// Unicode's `White_Space` characters.
pub open spec fn is_white(c: char) -> bool {
    let u = c as u32;
    (0x9 <= u <= 0xd) || u == 0x20 || u == 0x85 || u == 0xa0 || u == 0x1680 || (0x2000 <= u
        <= 0x200a) || u == 0x2028 || u == 0x2029 || u == 0x202f || u == 0x205f || u == 0x3000
}

/// A line that holds nothing once its white space is trimmed.
pub open spec fn is_blank_line(line: Seq<char>) -> bool {
    forall|i: int| 0 <= i < line.len() ==> is_white(#[trigger] line[i])
}

/// Whether `c` is white space.
pub fn is_whitespace_char(c: char) -> (r: bool)
    ensures
        r == is_white(c),
{
    let u = c as u32;
    (0x9 <= u && u <= 0xd) || u == 0x20 || u == 0x85 || u == 0xa0 || u == 0x1680 || (0x2000 <= u
        && u <= 0x200a) || u == 0x2028 || u == 0x2029 || u == 0x202f || u == 0x205f || u == 0x3000
}

/// Whether `line` is empty once trimmed.
pub fn is_blank(line: &str) -> (r: bool)
    ensures
        r == is_blank_line(line@),
{
    let n = line.unicode_len();
    let mut i: usize = 0;
    while i < n
        invariant
            n == line@.len(),
            i <= n,
            forall|k: int| 0 <= k < i ==> is_white(#[trigger] line@[k]),
        decreases n - i,
    {
        if !is_whitespace_char(line.get_char(i)) {
            return false;
        }
        i = i + 1;
    }
    true
}

/// The id of a line that is no request, where one can be read: a string, or
/// an integer (0 for any other number); null otherwise.
pub open spec fn recovered_id(j: JsonView) -> RequestIdView {
    match j.field("id"@) {
        Some(JsonView::Str(s)) => RequestIdView::String(s),
        Some(JsonView::Int(n)) => RequestIdView::Number(n),
        Some(JsonView::Num(_)) => RequestIdView::Number(0),
        _ => RequestIdView::Null,
    }
}

/// The id of a line that is no request (see [`recovered_id`]).
pub fn recover_id(j: &Json) -> (r: RequestId)
    ensures
        r@ == recovered_id(j@),
{
    match j.get("id") {
        Some(Json::Str(s)) => RequestId::String(s.clone()),
        Some(Json::Int(n)) => RequestId::Number(*n),
        Some(Json::Num(_)) => RequestId::Number(0),
        _ => RequestId::Null,
    }
}

pub open spec fn parse_failure(id: RequestIdView, cause: Seq<char>) -> McpResponseView {
    error_view(id, METHOD_NOT_FOUND, failure_message(REQUEST_FAILED@, cause))
}

pub open spec fn as_line_step(d: DispatchView) -> LineStepView {
    match d {
        DispatchView::Respond(r) => LineStepView::Respond(r),
        DispatchView::Fetch { pending, url } => LineStepView::Fetch { pending, url },
    }
}

/// What the transport does with one line, given what the JSON reader made of it
/// (a document, or the reader's message).
pub open spec fn line_step(s: McpServerView, line: Seq<char>, parsed: Result<JsonView,
    Seq<char>>) -> LineStepView {
    if is_blank_line(line) {
        LineStepView::Skip
    } else {
        match parsed {
            Err(m) => LineStepView::Respond(parse_failure(RequestIdView::Null, m)),
            Ok(j) => match decode_notification(j) {
                Some(n) => LineStepView::Notified(n),
                None => match decode_request(j) {
                    Some(request) => as_line_step(dispatch(s, request)),
                    None => LineStepView::Respond(parse_failure(recovered_id(j), NOT_A_REQUEST@)),
                },
            },
        }
    }
}

pub open spec fn parsed_view(parsed: Result<Json, String>) -> Result<JsonView, Seq<char>> {
    match parsed {
        Ok(j) => Ok(j@),
        Err(m) => Err(m@),
    }
}

impl McpServer {
    /// Decides what one input line asks for. `parsed` is the line read as JSON,
    /// or the reader's message where it is no JSON.
    pub fn on_line(&self, line: &str, parsed: Result<Json, String>) -> (r: LineStep)
        ensures
            line_step_is(r, line_step(self@, line@, parsed_view(parsed))),
    {
        if is_blank(line) {
            return LineStep::Skip;
        }
        let doc = match parsed {
            Err(m) => {
                return LineStep::Respond(
                    create_parse_error(
                        RequestId::Null,
                        failure_text(REQUEST_FAILED, m.as_str()).as_str(),
                    ),
                );
            },
            Ok(doc) => doc,
        };
        match McpNotification::from_json(&doc) {
            Some(n) => {
                return LineStep::Notified(n);
            },
            None => {},
        }
        match McpRequest::from_json(&doc) {
            Some(request) => match self.handle_request(request) {
                Dispatch::Respond(r) => LineStep::Respond(r),
                Dispatch::Fetch { pending, request } => LineStep::Fetch { pending, request },
            },
            None => LineStep::Respond(
                create_parse_error(
                    recover_id(&doc),
                    failure_text(REQUEST_FAILED, NOT_A_REQUEST).as_str(),
                ),
            ),
        }
    }
}

/// Where the transport loop stands.
#[derive(Debug)]
pub enum Session {
    /// Ready for the next input line.
    Reading,
    /// A request waits for its upstream reply; no line is read meanwhile.
    Waiting(PendingCall),
}

pub enum SessionView {
    Reading,
    Waiting(PendingCallView),
}

impl View for Session {
    type V = SessionView;

    open spec fn view(&self) -> SessionView {
        match self {
            Session::Reading => SessionView::Reading,
            Session::Waiting(p) => SessionView::Waiting(p@),
        }
    }
}

/// What happened outside since the last action.
#[derive(Debug)]
pub enum Event {
    /// A line was read, with what the JSON reader made of it.
    Line(String, Result<Json, String>),
    /// The upstream request came back.
    Fetched(FetchOutcome),
    /// The input has ended.
    Closed,
}

/// What the loop does next.
#[derive(Debug)]
pub enum Action {
    /// Read the next line.
    Read,
    /// A notification arrived: note it on the diagnostic channel, then read the next line.
    Acknowledge(McpNotification),
    /// Write the response as one line, flush, then read the next line.
    Write(McpResponse),
    /// Send the request upstream and report its outcome.
    Fetch(HttpRequest),
    /// Stop: the input has ended.
    Stop,
}

pub enum ActionView {
    Read,
    Acknowledge(McpNotification),
    Write(McpResponseView),
    Fetch(Seq<char>),
    Stop,
}

pub open spec fn action_is(a: Action, v: ActionView) -> bool {
    match (a, v) {
        (Action::Read, ActionView::Read) => true,
        (Action::Acknowledge(n), ActionView::Acknowledge(nv)) => n == nv,
        (Action::Write(r), ActionView::Write(rv)) => r@ == rv,
        (Action::Fetch(request), ActionView::Fetch(url)) => is_get(request, url),
        (Action::Stop, ActionView::Stop) => true,
        _ => false,
    }
}

/// Which events a state takes: a line or the end of input while reading, only
/// the upstream outcome while waiting.
pub open spec fn admits(state: SessionView, event: Event) -> bool {
    match state {
        SessionView::Reading => !(event is Fetched),
        SessionView::Waiting(_) => event is Fetched,
    }
}

/// The next state and action of the loop.
pub open spec fn session_step(s: McpServerView, state: SessionView, event: Event) -> (
    SessionView,
    ActionView,
) {
    match (state, event) {
        (SessionView::Waiting(p), Event::Fetched(o)) => (
            SessionView::Reading,
            ActionView::Write(complete(p, o)),
        ),
        (_, Event::Line(line, parsed)) => match line_step(s, line@, parsed_view(parsed)) {
            LineStepView::Skip => (SessionView::Reading, ActionView::Read),
            LineStepView::Notified(n) => (SessionView::Reading, ActionView::Acknowledge(n)),
            LineStepView::Respond(r) => (SessionView::Reading, ActionView::Write(r)),
            LineStepView::Fetch { pending, url } => (
                SessionView::Waiting(pending),
                ActionView::Fetch(url),
            ),
        },
        _ => (SessionView::Reading, ActionView::Stop),
    }
}

impl McpServer {
    /// One turn of the transport loop: the state after `event`, and what to do next.
    pub fn step(&self, state: Session, event: Event) -> (r: (Session, Action))
        requires
            admits(state@, event),
        ensures
            r.0@ == session_step(self@, state@, event).0,
            action_is(r.1, session_step(self@, state@, event).1),
    {
        match (state, event) {
            (Session::Waiting(p), Event::Fetched(o)) => (
                Session::Reading,
                Action::Write(self.on_fetched(p, &o)),
            ),
            (_, Event::Line(line, parsed)) => match self.on_line(line.as_str(), parsed) {
                LineStep::Skip => (Session::Reading, Action::Read),
                LineStep::Notified(n) => (Session::Reading, Action::Acknowledge(n)),
                LineStep::Respond(r) => (Session::Reading, Action::Write(r)),
                LineStep::Fetch { pending, request } => (
                    Session::Waiting(pending),
                    Action::Fetch(request),
                ),
            },
            _ => (Session::Reading, Action::Stop),
        }
    }
}

pub open spec fn default_client_view() -> ClientView {
    (crate::constants::DEFAULT_OWNER@, crate::constants::DEFAULT_REPO@)
}

/// The server as it starts: the three repository tools, then the repository
/// information resource, all reading the default repository.
pub fn create_default_server() -> (r: McpServer)
    ensures
        r@.wf(),
        r@.tools == seq![
            ToolView {
                name: crate::constants::TOOL_LIST_FILES@,
                description: "List files in the my-notion GitHub repository"@,
                input_schema: crate::constants::spec_list_files_schema(),
            },
            ToolView {
                name: crate::constants::TOOL_GET_FILE_CONTENT@,
                description: "Get content of a specific file from the my-notion repository"@,
                input_schema: crate::constants::spec_get_file_content_schema(),
            },
            ToolView {
                name: crate::constants::TOOL_GET_LATEST_COMMIT@,
                description: "Get the latest commit SHA from the my-notion repository"@,
                input_schema: crate::constants::spec_get_latest_commit_schema(),
            },
        ],
        r@.tool_handlers == seq![
            (crate::constants::TOOL_LIST_FILES@, ToolHandlerView::ListFiles(default_client_view())),
            (
                crate::constants::TOOL_GET_FILE_CONTENT@,
                ToolHandlerView::GetFileContent(default_client_view()),
            ),
            (
                crate::constants::TOOL_GET_LATEST_COMMIT@,
                ToolHandlerView::GetLatestCommit(default_client_view()),
            ),
        ],
        r@.resources == seq![
            ResourceView {
                uri: crate::constants::RESOURCE_REPO_INFO@,
                name: "My Notion Repository Info"@,
                description: Some("Information about the my-notion GitHub repository"@),
                mime_type: Some(crate::constants::TEXT_PLAIN@),
            },
        ],
        r@.resource_handlers == seq![
            (
                crate::constants::RESOURCE_REPO_INFO@,
                ResourceHandlerView::NotionRepo(default_client_view()),
            ),
        ],
{
    let mut server = McpServer::new();
    server.add_tool(
        crate::utils::create_list_files_tool(),
        ToolHandler::ListFiles(ListFilesHandler::new()),
    );
    server.add_tool(
        crate::utils::create_get_file_content_tool(),
        ToolHandler::GetFileContent(GetFileContentHandler::new()),
    );
    server.add_tool(
        crate::utils::create_get_latest_commit_tool(),
        ToolHandler::GetLatestCommit(GetLatestCommitHandler::new()),
    );
    server.add_resource(
        crate::utils::create_repo_info_resource(),
        ResourceHandler::NotionRepo(NotionRepoResourceHandler::new()),
    );
    assert(server@.tool_handlers =~= seq![
        (crate::constants::TOOL_LIST_FILES@, ToolHandlerView::ListFiles(default_client_view())),
        (
            crate::constants::TOOL_GET_FILE_CONTENT@,
            ToolHandlerView::GetFileContent(default_client_view()),
        ),
        (
            crate::constants::TOOL_GET_LATEST_COMMIT@,
            ToolHandlerView::GetLatestCommit(default_client_view()),
        ),
    ]);
    assert(server@.tools =~= seq![
        ToolView {
            name: crate::constants::TOOL_LIST_FILES@,
            description: "List files in the my-notion GitHub repository"@,
            input_schema: crate::constants::spec_list_files_schema(),
        },
        ToolView {
            name: crate::constants::TOOL_GET_FILE_CONTENT@,
            description: "Get content of a specific file from the my-notion repository"@,
            input_schema: crate::constants::spec_get_file_content_schema(),
        },
        ToolView {
            name: crate::constants::TOOL_GET_LATEST_COMMIT@,
            description: "Get the latest commit SHA from the my-notion repository"@,
            input_schema: crate::constants::spec_get_latest_commit_schema(),
        },
    ]);
    assert(server@.resources =~= seq![
        ResourceView {
            uri: crate::constants::RESOURCE_REPO_INFO@,
            name: "My Notion Repository Info"@,
            description: Some("Information about the my-notion GitHub repository"@),
            mime_type: Some(crate::constants::TEXT_PLAIN@),
        },
    ]);
    assert(server@.resource_handlers =~= seq![
        (
            crate::constants::RESOURCE_REPO_INFO@,
            ResourceHandlerView::NotionRepo(default_client_view()),
        ),
    ]);
    server
}

proof fn lemma_lookup_finds_key<H>(entries: Seq<(Seq<char>, H)>, i: int)
    requires
        0 <= i < entries.len(),
    ensures
        lookup(entries, entries[i].0) is Some,
    decreases entries.len(),
{
    if entries.last().0 != entries[i].0 {
        assert(entries.drop_last()[i] == entries[i]);
        lemma_lookup_finds_key(entries.drop_last(), i);
    }
}

/// In a well-formed registry, every listed tool name and resource URI has a handler.
pub proof fn law_listed_keys_have_handlers(s: McpServerView)
    requires
        s.wf(),
    ensures
        forall|i: int|
            0 <= i < s.tools.len() ==> lookup(s.tool_handlers, #[trigger] s.tools[i].name) is Some,
        forall|i: int|
            0 <= i < s.resources.len() ==> lookup(s.resource_handlers, #[trigger] s.resources[i].uri)
                is Some,
{
    assert forall|i: int| 0 <= i < s.tools.len() implies lookup(
        s.tool_handlers,
        #[trigger] s.tools[i].name,
    ) is Some by {
        assert(s.tool_handlers[i].0 == s.tools[i].name);
        lemma_lookup_finds_key(s.tool_handlers, i);
    }
    assert forall|i: int| 0 <= i < s.resources.len() implies lookup(
        s.resource_handlers,
        #[trigger] s.resources[i].uri,
    ) is Some by {
        assert(s.resource_handlers[i].0 == s.resources[i].uri);
        lemma_lookup_finds_key(s.resource_handlers, i);
    }
}

/// `part` occurs in `text`.
pub open spec fn contains(text: Seq<char>, part: Seq<char>) -> bool {
    exists|k: int|
        0 <= k && k + part.len() <= text.len() && #[trigger] text.subrange(k, k + part.len())
            == part
}

proof fn lemma_not_found_names_key(what: Seq<char>, key: Seq<char>)
    ensures
        contains(not_found_message(what, key), key),
{
    reveal_strlit(": '");
    reveal_strlit("'");
    let text = not_found_message(what, key);
    let k: int = what.len() as int + 3;
    assert(text.subrange(k, k + key.len() as int) =~= key);
}

/// Every request is answered under its own id: at once, or, after its upstream
/// call, whatever the outcome of that call.
pub proof fn law_response_echoes_id(s: McpServerView, request: McpRequestView, o: FetchOutcome)
    ensures
        match dispatch(s, request) {
            DispatchView::Respond(r) => r.id() == request.id(),
            DispatchView::Fetch { pending, .. } => pending.id() == request.id() && complete(
                pending,
                o,
            ).id() == request.id(),
        },
{
}

/// A call of a registered tool, with arguments that its handler accepts and an
/// upstream call that succeeds, is answered by a tool result under the request's id.
pub proof fn law_registered_tool_call(
    s: McpServerView,
    id: RequestIdView,
    params: crate::mcp::CallToolParamsView,
    o: FetchOutcome,
)
    requires
        lookup(s.tool_handlers, params.name) is Some,
        begin_tool(lookup(s.tool_handlers, params.name)->0, params.arguments) is Ok,
        finish_tool(
            begin_tool(lookup(s.tool_handlers, params.name)->0, params.arguments)->Ok_0.0,
            o,
        ) is Ok,
    ensures
        match dispatch(s, McpRequestView::CallTool { id, params }) {
            DispatchView::Fetch { pending, .. } => complete(
                pending,
                o,
            ) matches McpResponseView::CallTool { id: rid, .. } && rid == id,
            _ => false,
        },
{
}

/// A call of a tool name that is not registered is answered by a method-not-found
/// error under the request's id, whose message names the tool.
pub proof fn law_unknown_tool(
    s: McpServerView,
    id: RequestIdView,
    params: crate::mcp::CallToolParamsView,
)
    requires
        lookup(s.tool_handlers, params.name) is None,
    ensures
        dispatch(s, McpRequestView::CallTool { id, params }) matches DispatchView::Respond(
            McpResponseView::Error { id: rid, error },
        ) && rid == id && error.code == METHOD_NOT_FOUND && contains(error.message, params.name),
{
    lemma_not_found_names_key(TOOL_NOT_FOUND@, params.name);
}

/// A read of a resource URI that is not registered is answered by a
/// method-not-found error under the request's id, whose message names the URI.
pub proof fn law_unknown_resource(s: McpServerView, id: RequestIdView, uri: Seq<char>)
    requires
        lookup(s.resource_handlers, uri) is None,
    ensures
        dispatch(s, McpRequestView::ReadResource { id, uri }) matches DispatchView::Respond(
            McpResponseView::Error { id: rid, error },
        ) && rid == id && error.code == METHOD_NOT_FOUND && contains(error.message, uri),
{
    lemma_not_found_names_key(RESOURCE_NOT_FOUND@, uri);
}

/// Where `get_file_content` is served by the file handler, a call without a
/// `path` argument is answered, with no upstream call, by an internal error
/// whose message says that the path is required.
pub proof fn law_missing_path(
    s: McpServerView,
    id: RequestIdView,
    params: crate::mcp::CallToolParamsView,
    c: ClientView,
)
    requires
        params.name == crate::constants::TOOL_GET_FILE_CONTENT@,
        lookup(s.tool_handlers, params.name) == Some(ToolHandlerView::GetFileContent(c)),
        match params.arguments {
            None => true,
            Some(a) => crate::json::member(a, "path"@) is None,
        },
    ensures
        dispatch(s, McpRequestView::CallTool { id, params }) matches DispatchView::Respond(
            McpResponseView::Error { id: rid, error },
        ) && rid == id && error.code == INTERNAL_ERROR && contains(error.message, PATH_REQUIRED@),
{
    let text = failure_message(TOOL_EXECUTION_FAILED@, PATH_REQUIRED@);
    reveal_strlit(": ");
    let k: int = TOOL_EXECUTION_FAILED@.len() as int + 2;
    assert(text.subrange(k, k + PATH_REQUIRED@.len() as int) =~= PATH_REQUIRED@);
}

/// Listing tools or resources gives the registry's descriptors in registration
/// order, so two listings with no registration in between are equal.
pub proof fn law_listings_are_stable(s: McpServerView, a: RequestIdView, b: RequestIdView)
    ensures
        dispatch(s, McpRequestView::ListTools { id: a }) == DispatchView::Respond(
            McpResponseView::ListTools { id: a, result: s.tools },
        ),
        dispatch(s, McpRequestView::ListTools { id: b }) == DispatchView::Respond(
            McpResponseView::ListTools { id: b, result: s.tools },
        ),
        dispatch(s, McpRequestView::ListResources { id: a }) == DispatchView::Respond(
            McpResponseView::ListResources { id: a, result: s.resources },
        ),
        dispatch(s, McpRequestView::ListResources { id: b }) == DispatchView::Respond(
            McpResponseView::ListResources { id: b, result: s.resources },
        ),
{
}

/// Responses keep the order of the requests. While a request waits for its
/// upstream reply the loop takes no line; the reply yields the response to that
/// request, written before the loop reads again; and a line only makes the loop
/// wait for a request that it holds.
pub proof fn law_one_request_at_a_time(
    s: McpServerView,
    p: PendingCallView,
    line: String,
    parsed: Result<Json, String>,
    o: FetchOutcome,
)
    ensures
        !admits(SessionView::Waiting(p), Event::Line(line, parsed)),
        session_step(s, SessionView::Waiting(p), Event::Fetched(o)) == (
            SessionView::Reading,
            ActionView::Write(complete(p, o)),
        ),
        complete(p, o).id() == p.id(),
        session_step(s, SessionView::Reading, Event::Line(line,
            parsed)).0 matches SessionView::Waiting(q)
            ==> parsed is Ok && (decode_request(parsed->Ok_0@) matches Some(request) && q.id()
            == request.id()),
{
    let v = parsed_view(parsed);
    if !is_blank_line(line@) && parsed is Ok {
        let j = parsed->Ok_0@;
        if decode_notification(j) is None {
            if let Some(request) = decode_request(j) {
                law_response_echoes_id(s, request, o);
            }
        }
    }
}

/// A blank line produces no output, and the loop reads on.
pub proof fn law_blank_line_skipped(s: McpServerView, line: String, parsed: Result<Json, String>)
    requires
        is_blank_line(line@),
    ensures
        session_step(s, SessionView::Reading, Event::Line(line, parsed)) == (
            SessionView::Reading,
            ActionView::Read,
        ),
{
}

} // verus!
