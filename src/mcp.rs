//! The protocol message model and its wire shape as JSON documents.
//!
//! Every response carries `"jsonrpc": "2.0"` and echoes the request id.
//! Requests and results are tagged by their `"method"` member; an error
//! response carries an `"error"` member instead of a method. Requests are
//! written with the same marker, and read with or without it. A notification
//! is a method without an id. Optional members are left out when absent, and
//! read as absent when missing or null.
use crate::json::{
    decode_each, lemma_array_view, lemma_decode_each_encoded, lemma_member_push, lemma_object_view,
    members_view, new_members, opt_text, push_member, push_opt, same_text, Json, JsonView,
};
use vstd::prelude::*;

verus! {

broadcast use {lemma_array_view, lemma_object_view, lemma_member_push};

/// Correlates a response with the request it answers.
#[derive(Debug)]
pub enum RequestId {
    String(String),
    Number(i64),
    Null,
}

pub enum RequestIdView {
    String(Seq<char>),
    Number(i64),
    Null,
}

impl View for RequestId {
    type V = RequestIdView;

    open spec fn view(&self) -> RequestIdView {
        match self {
            RequestId::String(s) => RequestIdView::String(s@),
            RequestId::Number(n) => RequestIdView::Number(*n),
            RequestId::Null => RequestIdView::Null,
        }
    }
}

pub open spec fn encode_id(id: RequestIdView) -> JsonView {
    match id {
        RequestIdView::String(s) => JsonView::Str(s),
        RequestIdView::Number(n) => JsonView::Int(n),
        RequestIdView::Null => JsonView::Null,
    }
}

pub open spec fn decode_id(j: JsonView) -> Option<RequestIdView> {
    match j {
        JsonView::Str(s) => Some(RequestIdView::String(s)),
        JsonView::Int(n) => Some(RequestIdView::Number(n)),
        JsonView::Null => Some(RequestIdView::Null),
        _ => None,
    }
}

impl RequestId {
    pub fn copy(&self) -> (r: RequestId)
        ensures
            r@ == self@,
    {
        match self {
            RequestId::String(s) => RequestId::String(s.clone()),
            RequestId::Number(n) => RequestId::Number(*n),
            RequestId::Null => RequestId::Null,
        }
    }

    pub fn to_json(&self) -> (r: Json)
        ensures
            r@ == encode_id(self@),
    {
        match self {
            RequestId::String(s) => Json::Str(s.clone()),
            RequestId::Number(n) => Json::Int(*n),
            RequestId::Null => Json::Null,
        }
    }

    pub fn from_json(j: &Json) -> (r: Option<RequestId>)
        ensures
            match r {
                None => decode_id(j@) is None,
                Some(id) => decode_id(j@) == Some(id@),
            },
    {
        match j {
            Json::Str(s) => Some(RequestId::String(s.clone())),
            Json::Int(n) => Some(RequestId::Number(*n)),
            Json::Null => Some(RequestId::Null),
            _ => None,
        }
    }
}

/// A tool descriptor, advertised by `tools/list`.
#[derive(Debug)]
pub struct Tool {
    pub name: String,
    pub description: String,
    /// The shape of the arguments, advertised only and never enforced.
    pub input_schema: Json,
}

pub struct ToolView {
    pub name: Seq<char>,
    pub description: Seq<char>,
    pub input_schema: JsonView,
}

impl View for Tool {
    type V = ToolView;

    open spec fn view(&self) -> ToolView {
        ToolView {
            name: self.name@,
            description: self.description@,
            input_schema: self.input_schema@,
        }
    }
}

pub open spec fn encode_tool(t: ToolView) -> JsonView {
    JsonView::Object(
        Seq::empty().push(("name"@, JsonView::Str(t.name))).push(
            ("description"@, JsonView::Str(t.description)),
        ).push(("inputSchema"@, t.input_schema)),
    )
}

pub open spec fn decode_tool(j: JsonView) -> Option<ToolView> {
    match (j.text_field("name"@), j.text_field("description"@), j.field("inputSchema"@)) {
        (Some(name), Some(description), Some(input_schema)) => Some(
            ToolView { name, description, input_schema },
        ),
        _ => None,
    }
}

impl Tool {
    pub fn copy(&self) -> (r: Tool)
        ensures
            r@ == self@,
    {
        Tool {
            name: self.name.clone(),
            description: self.description.clone(),
            input_schema: self.input_schema.copy(),
        }
    }

    pub fn to_json(&self) -> (r: Json)
        ensures
            r@ == encode_tool(self@),
    {
        let mut m = new_members();
        push_member(&mut m, "name", Json::Str(self.name.clone()));
        push_member(&mut m, "description", Json::Str(self.description.clone()));
        push_member(&mut m, "inputSchema", self.input_schema.copy());
        Json::Object(m)
    }

    pub fn from_json(j: &Json) -> (r: Option<Tool>)
        ensures
            match r {
                None => decode_tool(j@) is None,
                Some(t) => decode_tool(j@) == Some(t@),
            },
    {
        match (j.get_text("name"), j.get_text("description"), j.get("inputSchema")) {
            (Some(name), Some(description), Some(schema)) => Some(
                Tool {
                    name: name.clone(),
                    description: description.clone(),
                    input_schema: schema.copy(),
                },
            ),
            _ => None,
        }
    }
}

pub proof fn lemma_tool_round_trip(t: ToolView)
    ensures
        decode_tool(encode_tool(t)) == Some(t),
{
    reveal_strlit("name");
    reveal_strlit("description");
    reveal_strlit("inputSchema");
    assert("name"@.len() == 4 && "description"@[0] == 'd' && "inputSchema"@[0] == 'i');
}

/// A resource descriptor, advertised by `resources/list`.
#[derive(Debug)]
pub struct Resource {
    pub uri: String,
    pub name: String,
    pub description: Option<String>,
    pub mime_type: Option<String>,
}

pub struct ResourceView {
    pub uri: Seq<char>,
    pub name: Seq<char>,
    pub description: Option<Seq<char>>,
    pub mime_type: Option<Seq<char>>,
}

impl View for Resource {
    type V = ResourceView;

    open spec fn view(&self) -> ResourceView {
        ResourceView {
            uri: self.uri@,
            name: self.name@,
            description: opt_text(self.description),
            mime_type: opt_text(self.mime_type),
        }
    }
}

pub open spec fn opt_str(o: Option<Seq<char>>) -> Option<JsonView> {
    match o {
        Some(s) => Some(JsonView::Str(s)),
        None => None,
    }
}

pub open spec fn opt_bool(o: Option<bool>) -> Option<JsonView> {
    match o {
        Some(b) => Some(JsonView::Bool(b)),
        None => None,
    }
}

pub open spec fn encode_resource(r: ResourceView) -> JsonView {
    JsonView::Object(
        push_opt(
            push_opt(
                Seq::empty().push(("uri"@, JsonView::Str(r.uri))).push(
                    ("name"@, JsonView::Str(r.name)),
                ),
                "description"@,
                opt_str(r.description),
            ),
            "mimeType"@,
            opt_str(r.mime_type),
        ),
    )
}

pub open spec fn decode_resource(j: JsonView) -> Option<ResourceView> {
    match (
        j.text_field("uri"@),
        j.text_field("name"@),
        j.opt_text_field("description"@),
        j.opt_text_field("mimeType"@),
    ) {
        (Some(uri), Some(name), Some(description), Some(mime_type)) => Some(
            ResourceView { uri, name, description, mime_type },
        ),
        _ => None,
    }
}

fn clone_opt(o: &Option<String>) -> (r: Option<String>)
    ensures
        opt_text(r) == opt_text(*o),
{
    match o {
        Some(s) => Some(s.clone()),
        None => None,
    }
}

fn push_opt_text(m: &mut Vec<(String, Json)>, key: &str, value: &Option<String>)
    ensures
        crate::json::members_view(final(m)@) == push_opt(
            crate::json::members_view(old(m)@),
            key@,
            opt_str(opt_text(*value)),
        ),
{
    match value {
        Some(v) => push_member(m, key, Json::Str(v.clone())),
        None => {},
    }
}

fn push_opt_bool(m: &mut Vec<(String, Json)>, key: &str, value: Option<bool>)
    ensures
        crate::json::members_view(final(m)@) == push_opt(
            crate::json::members_view(old(m)@),
            key@,
            opt_bool(value),
        ),
{
    match value {
        Some(b) => push_member(m, key, Json::Bool(b)),
        None => {},
    }
}

impl Resource {
    pub fn copy(&self) -> (r: Resource)
        ensures
            r@ == self@,
    {
        Resource {
            uri: self.uri.clone(),
            name: self.name.clone(),
            description: clone_opt(&self.description),
            mime_type: clone_opt(&self.mime_type),
        }
    }

    pub fn to_json(&self) -> (r: Json)
        ensures
            r@ == encode_resource(self@),
    {
        let mut m = new_members();
        push_member(&mut m, "uri", Json::Str(self.uri.clone()));
        push_member(&mut m, "name", Json::Str(self.name.clone()));
        push_opt_text(&mut m, "description", &self.description);
        push_opt_text(&mut m, "mimeType", &self.mime_type);
        Json::Object(m)
    }

    pub fn from_json(j: &Json) -> (r: Option<Resource>)
        ensures
            match r {
                None => decode_resource(j@) is None,
                Some(v) => decode_resource(j@) == Some(v@),
            },
    {
        match (
            j.get_text("uri"),
            j.get_text("name"),
            j.get_opt_text("description"),
            j.get_opt_text("mimeType"),
        ) {
            (Some(uri), Some(name), Some(description), Some(mime_type)) => Some(
                Resource { uri: uri.clone(), name: name.clone(), description, mime_type },
            ),
            _ => None,
        }
    }
}

pub proof fn lemma_resource_round_trip(r: ResourceView)
    ensures
        decode_resource(encode_resource(r)) == Some(r),
{
    reveal_strlit("uri");
    reveal_strlit("name");
    reveal_strlit("description");
    reveal_strlit("mimeType");
    assert("uri"@.len() == 3 && "name"@.len() == 4 && "description"@.len() == 11
        && "mimeType"@.len() == 8);
}

/// One block of a tool's result.
#[derive(Debug)]
pub enum ToolContent {
    Text { text: String },
}

pub enum ToolContentView {
    Text { text: Seq<char> },
}

impl View for ToolContent {
    type V = ToolContentView;

    open spec fn view(&self) -> ToolContentView {
        match self {
            ToolContent::Text { text } => ToolContentView::Text { text: text@ },
        }
    }
}

pub open spec fn encode_tool_content(c: ToolContentView) -> JsonView {
    match c {
        ToolContentView::Text { text } => JsonView::Object(
            Seq::empty().push(("type"@, JsonView::Str("text"@))).push(
                ("text"@, JsonView::Str(text)),
            ),
        ),
    }
}

pub open spec fn decode_tool_content(j: JsonView) -> Option<ToolContentView> {
    if j.text_field("type"@) == Some("text"@) {
        match j.text_field("text"@) {
            Some(text) => Some(ToolContentView::Text { text }),
            None => None,
        }
    } else {
        None
    }
}

impl ToolContent {
    pub fn copy(&self) -> (r: ToolContent)
        ensures
            r@ == self@,
    {
        match self {
            ToolContent::Text { text } => ToolContent::Text { text: text.clone() },
        }
    }

    pub fn to_json(&self) -> (r: Json)
        ensures
            r@ == encode_tool_content(self@),
    {
        match self {
            ToolContent::Text { text } => {
                let mut m = new_members();
                push_member(&mut m, "type", Json::text("text"));
                push_member(&mut m, "text", Json::Str(text.clone()));
                Json::Object(m)
            },
        }
    }

    pub fn from_json(j: &Json) -> (r: Option<ToolContent>)
        ensures
            match r {
                None => decode_tool_content(j@) is None,
                Some(v) => decode_tool_content(j@) == Some(v@),
            },
    {
        match j.get_text("type") {
            Some(t) => {
                if same_text(t.as_str(), "text") {
                    match j.get_text("text") {
                        Some(text) => Some(ToolContent::Text { text: text.clone() }),
                        None => None,
                    }
                } else {
                    None
                }
            },
            None => None,
        }
    }
}

pub proof fn lemma_tool_content_round_trip(c: ToolContentView)
    ensures
        decode_tool_content(encode_tool_content(c)) == Some(c),
{
    reveal_strlit("type");
    reveal_strlit("text");
    assert("type"@[1] == 'y' && "text"@[1] == 'e');
}

/// One block of a resource's content: text, or binary data in base64.
#[derive(Debug)]
pub enum ResourceContent {
    Text { uri: String, text: String },
    Blob { uri: String, blob: String },
}

pub enum ResourceContentView {
    Text { uri: Seq<char>, text: Seq<char> },
    Blob { uri: Seq<char>, blob: Seq<char> },
}

impl View for ResourceContent {
    type V = ResourceContentView;

    open spec fn view(&self) -> ResourceContentView {
        match self {
            ResourceContent::Text { uri, text } => ResourceContentView::Text {
                uri: uri@,
                text: text@,
            },
            ResourceContent::Blob { uri, blob } => ResourceContentView::Blob {
                uri: uri@,
                blob: blob@,
            },
        }
    }
}

pub open spec fn encode_resource_content(c: ResourceContentView) -> JsonView {
    match c {
        ResourceContentView::Text { uri, text } => JsonView::Object(
            Seq::empty().push(("type"@, JsonView::Str("text"@))).push(
                ("uri"@, JsonView::Str(uri)),
            ).push(("text"@, JsonView::Str(text))),
        ),
        ResourceContentView::Blob { uri, blob } => JsonView::Object(
            Seq::empty().push(("type"@, JsonView::Str("blob"@))).push(
                ("uri"@, JsonView::Str(uri)),
            ).push(("blob"@, JsonView::Str(blob))),
        ),
    }
}

pub open spec fn decode_resource_content(j: JsonView) -> Option<ResourceContentView> {
    match (j.text_field("type"@), j.text_field("uri"@)) {
        (Some(kind), Some(uri)) => if kind == "text"@ {
            match j.text_field("text"@) {
                Some(text) => Some(ResourceContentView::Text { uri, text }),
                None => None,
            }
        } else if kind == "blob"@ {
            match j.text_field("blob"@) {
                Some(blob) => Some(ResourceContentView::Blob { uri, blob }),
                None => None,
            }
        } else {
            None
        },
        _ => None,
    }
}

impl ResourceContent {
    pub fn copy(&self) -> (r: ResourceContent)
        ensures
            r@ == self@,
    {
        match self {
            ResourceContent::Text { uri, text } => ResourceContent::Text {
                uri: uri.clone(),
                text: text.clone(),
            },
            ResourceContent::Blob { uri, blob } => ResourceContent::Blob {
                uri: uri.clone(),
                blob: blob.clone(),
            },
        }
    }

    pub fn to_json(&self) -> (r: Json)
        ensures
            r@ == encode_resource_content(self@),
    {
        let mut m = new_members();
        match self {
            ResourceContent::Text { uri, text } => {
                push_member(&mut m, "type", Json::text("text"));
                push_member(&mut m, "uri", Json::Str(uri.clone()));
                push_member(&mut m, "text", Json::Str(text.clone()));
            },
            ResourceContent::Blob { uri, blob } => {
                push_member(&mut m, "type", Json::text("blob"));
                push_member(&mut m, "uri", Json::Str(uri.clone()));
                push_member(&mut m, "blob", Json::Str(blob.clone()));
            },
        }
        Json::Object(m)
    }

    pub fn from_json(j: &Json) -> (r: Option<ResourceContent>)
        ensures
            match r {
                None => decode_resource_content(j@) is None,
                Some(v) => decode_resource_content(j@) == Some(v@),
            },
    {
        match (j.get_text("type"), j.get_text("uri")) {
            (Some(kind), Some(uri)) => {
                if same_text(kind.as_str(), "text") {
                    match j.get_text("text") {
                        Some(text) => Some(
                            ResourceContent::Text { uri: uri.clone(), text: text.clone() },
                        ),
                        None => None,
                    }
                } else if same_text(kind.as_str(), "blob") {
                    match j.get_text("blob") {
                        Some(blob) => Some(
                            ResourceContent::Blob { uri: uri.clone(), blob: blob.clone() },
                        ),
                        None => None,
                    }
                } else {
                    None
                }
            },
            _ => None,
        }
    }
}

pub proof fn lemma_resource_content_round_trip(c: ResourceContentView)
    ensures
        decode_resource_content(encode_resource_content(c)) == Some(c),
{
    reveal_strlit("type");
    reveal_strlit("uri");
    reveal_strlit("text");
    reveal_strlit("blob");
    assert("type"@[1] == 'y' && "text"@[1] == 'e' && "blob"@[1] == 'l' && "uri"@.len() == 3);
}

/// The result of `tools/list`: every registered tool, in registration order.
#[derive(Debug)]
pub struct ListToolsResult {
    pub tools: Vec<Tool>,
}

pub open spec fn tools_view(tools: Seq<Tool>) -> Seq<ToolView> {
    tools.map_values(|t: Tool| t@)
}

impl View for ListToolsResult {
    type V = Seq<ToolView>;

    open spec fn view(&self) -> Seq<ToolView> {
        tools_view(self.tools@)
    }
}

pub open spec fn encode_list_tools(tools: Seq<ToolView>) -> JsonView {
    JsonView::Object(
        Seq::empty().push(
            ("tools"@, JsonView::Array(tools.map_values(|t: ToolView| encode_tool(t)))),
        ),
    )
}

pub open spec fn tool_decoder() -> spec_fn(JsonView) -> Option<ToolView> {
    |j: JsonView| decode_tool(j)
}

pub open spec fn decode_list_tools(j: JsonView) -> Option<Seq<ToolView>> {
    match j.field("tools"@) {
        Some(JsonView::Array(items)) => decode_each(items, tool_decoder()),
        _ => None,
    }
}

/// Copies a list of tools, keeping its order.
pub fn copy_tools(tools: &Vec<Tool>) -> (r: Vec<Tool>)
    ensures
        tools_view(r@) == tools_view(tools@),
{
    let mut out: Vec<Tool> = Vec::new();
    let mut i: usize = 0;
    while i < tools.len()
        invariant
            i <= tools.len(),
            out.len() == i,
            forall|k: int| 0 <= k < i ==> #[trigger] out[k]@ == tools[k]@,
        decreases tools.len() - i,
    {
        out.push(tools[i].copy());
        i = i + 1;
    }
    assert(tools_view(out@) =~= tools_view(tools@));
    out
}

impl ListToolsResult {
    pub fn to_json(&self) -> (r: Json)
        ensures
            r@ == encode_list_tools(self@),
    {
        let mut items: Vec<Json> = Vec::new();
        let mut i: usize = 0;
        while i < self.tools.len()
            invariant
                i <= self.tools.len(),
                items.len() == i,
                forall|k: int| 0 <= k < i ==> #[trigger] items[k]@ == encode_tool(self.tools[k]@),
            decreases self.tools.len() - i,
        {
            items.push(self.tools[i].to_json());
            i = i + 1;
        }
        assert(crate::json::items_view(items@) =~= self@.map_values(|t: ToolView| encode_tool(t)));
        let mut m = new_members();
        push_member(&mut m, "tools", Json::Array(items));
        Json::Object(m)
    }

    pub fn from_json(j: &Json) -> (r: Option<ListToolsResult>)
        ensures
            match r {
                None => decode_list_tools(j@) is None,
                Some(v) => decode_list_tools(j@) == Some(v@),
            },
    {
        match j.get("tools") {
            Some(Json::Array(items)) => {
                let ghost iv = crate::json::items_view(items@);
                proof {
                    lemma_array_view(*items);
                    assert(j@.field("tools"@) == Some(JsonView::Array(iv)));
                }
                let mut out: Vec<Tool> = Vec::new();
                let mut i: usize = 0;
                while i < items.len()
                    invariant
                        iv == crate::json::items_view(items@),
                        j@.field("tools"@) == Some(JsonView::Array(iv)),
                        i <= items.len(),
                        out.len() == i,
                        forall|k: int|
                            0 <= k < i ==> decode_tool(#[trigger] iv[k]) == Some(out[k]@),
                    decreases items.len() - i,
                {
                    match Tool::from_json(&items[i]) {
                        Some(t) => out.push(t),
                        None => {
                            assert(tool_decoder()(iv[i as int]) is None);
                            return None;
                        },
                    }
                    i = i + 1;
                }
                assert(Seq::new(iv.len(), |k: int| decode_tool(iv[k])->0) =~= tools_view(out@));
                Some(ListToolsResult { tools: out })
            },
            _ => None,
        }
    }
}

pub proof fn lemma_list_tools_round_trip(tools: Seq<ToolView>)
    ensures
        decode_list_tools(encode_list_tools(tools)) == Some(tools),
{
    assert forall|i: int| 0 <= i < tools.len() implies decode_tool(encode_tool(#[trigger] tools[i]))
        == Some(tools[i]) by {
        lemma_tool_round_trip(tools[i]);
    }
    lemma_decode_each_encoded(tools, |t: ToolView| encode_tool(t), tool_decoder());
}

/// The result of `tools/call`: the content blocks that the tool produced.
#[derive(Debug)]
pub struct CallToolResult {
    pub content: Vec<ToolContent>,
}

pub open spec fn contents_view(list: Seq<ToolContent>) -> Seq<ToolContentView> {
    list.map_values(|t: ToolContent| t@)
}

impl View for CallToolResult {
    type V = Seq<ToolContentView>;

    open spec fn view(&self) -> Seq<ToolContentView> {
        contents_view(self.content@)
    }
}

pub open spec fn encode_call_tool(list: Seq<ToolContentView>) -> JsonView {
    JsonView::Object(
        Seq::empty().push(
            ("content"@,
                JsonView::Array(list.map_values(|t: ToolContentView| encode_tool_content(t)))),
        ),
    )
}

pub open spec fn tool_content_decoder() -> spec_fn(JsonView) -> Option<ToolContentView> {
    |j: JsonView| decode_tool_content(j)
}

pub open spec fn decode_call_tool(j: JsonView) -> Option<Seq<ToolContentView>> {
    match j.field("content"@) {
        Some(JsonView::Array(items)) => decode_each(items, tool_content_decoder()),
        _ => None,
    }
}

impl CallToolResult {
    pub fn to_json(&self) -> (r: Json)
        ensures
            r@ == encode_call_tool(self@),
    {
        let mut items: Vec<Json> = Vec::new();
        let mut i: usize = 0;
        while i < self.content.len()
            invariant
                i <= self.content.len(),
                items.len() == i,
                forall|k: int| 0 <= k < i ==> #[trigger] items[k]@
                    == encode_tool_content(self.content[k]@),
            decreases self.content.len() - i,
        {
            items.push(self.content[i].to_json());
            i = i + 1;
        }
        assert(crate::json::items_view(items@)
            =~= self@.map_values(|t: ToolContentView| encode_tool_content(t)));
        let mut m = new_members();
        push_member(&mut m, "content", Json::Array(items));
        Json::Object(m)
    }

    pub fn from_json(j: &Json) -> (r: Option<CallToolResult>)
        ensures
            match r {
                None => decode_call_tool(j@) is None,
                Some(v) => decode_call_tool(j@) == Some(v@),
            },
    {
        match j.get("content") {
            Some(Json::Array(items)) => {
                let ghost iv = crate::json::items_view(items@);
                proof {
                    lemma_array_view(*items);
                    assert(j@.field("content"@) == Some(JsonView::Array(iv)));
                }
                let mut out: Vec<ToolContent> = Vec::new();
                let mut i: usize = 0;
                while i < items.len()
                    invariant
                        iv == crate::json::items_view(items@),
                        j@.field("content"@) == Some(JsonView::Array(iv)),
                        i <= items.len(),
                        out.len() == i,
                        forall|k: int|
                            0 <= k < i ==> decode_tool_content(#[trigger] iv[k]) == Some(out[k]@),
                    decreases items.len() - i,
                {
                    match ToolContent::from_json(&items[i]) {
                        Some(t) => out.push(t),
                        None => {
                            assert(tool_content_decoder()(iv[i as int]) is None);
                            return None;
                        },
                    }
                    i = i + 1;
                }
                assert(Seq::new(iv.len(), |k: int| decode_tool_content(iv[k])->0)
                    =~= contents_view(out@));
                Some(CallToolResult { content: out })
            },
            _ => None,
        }
    }
}

pub proof fn lemma_call_tool_round_trip(list: Seq<ToolContentView>)
    ensures
        decode_call_tool(encode_call_tool(list)) == Some(list),
{
    assert forall|i: int| 0 <= i < list.len()
        implies decode_tool_content(encode_tool_content(#[trigger] list[i]))
        == Some(list[i]) by {
        lemma_tool_content_round_trip(list[i]);
    }
    lemma_decode_each_encoded(list, |t: ToolContentView| encode_tool_content(t),
        tool_content_decoder());
}

/// The result of `resources/list`: every registered resource, in registration order.
#[derive(Debug)]
pub struct ListResourcesResult {
    pub resources: Vec<Resource>,
}

pub open spec fn resources_view(list: Seq<Resource>) -> Seq<ResourceView> {
    list.map_values(|t: Resource| t@)
}

impl View for ListResourcesResult {
    type V = Seq<ResourceView>;

    open spec fn view(&self) -> Seq<ResourceView> {
        resources_view(self.resources@)
    }
}

pub open spec fn encode_list_resources(list: Seq<ResourceView>) -> JsonView {
    JsonView::Object(
        Seq::empty().push(
            ("resources"@, JsonView::Array(list.map_values(|t: ResourceView| encode_resource(t)))),
        ),
    )
}

pub open spec fn resource_decoder() -> spec_fn(JsonView) -> Option<ResourceView> {
    |j: JsonView| decode_resource(j)
}

pub open spec fn decode_list_resources(j: JsonView) -> Option<Seq<ResourceView>> {
    match j.field("resources"@) {
        Some(JsonView::Array(items)) => decode_each(items, resource_decoder()),
        _ => None,
    }
}

/// Copies a list of resources, keeping its order.
pub fn copy_resources(list: &Vec<Resource>) -> (r: Vec<Resource>)
    ensures
        resources_view(r@) == resources_view(list@),
{
    let mut out: Vec<Resource> = Vec::new();
    let mut i: usize = 0;
    while i < list.len()
        invariant
            i <= list.len(),
            out.len() == i,
            forall|k: int| 0 <= k < i ==> #[trigger] out[k]@ == list[k]@,
        decreases list.len() - i,
    {
        out.push(list[i].copy());
        i = i + 1;
    }
    assert(resources_view(out@) =~= resources_view(list@));
    out
}

impl ListResourcesResult {
    pub fn to_json(&self) -> (r: Json)
        ensures
            r@ == encode_list_resources(self@),
    {
        let mut items: Vec<Json> = Vec::new();
        let mut i: usize = 0;
        while i < self.resources.len()
            invariant
                i <= self.resources.len(),
                items.len() == i,
                forall|k: int| 0 <= k < i ==> #[trigger] items[k]@
                    == encode_resource(self.resources[k]@),
            decreases self.resources.len() - i,
        {
            items.push(self.resources[i].to_json());
            i = i + 1;
        }
        assert(crate::json::items_view(items@)
            =~= self@.map_values(|t: ResourceView| encode_resource(t)));
        let mut m = new_members();
        push_member(&mut m, "resources", Json::Array(items));
        Json::Object(m)
    }

    pub fn from_json(j: &Json) -> (r: Option<ListResourcesResult>)
        ensures
            match r {
                None => decode_list_resources(j@) is None,
                Some(v) => decode_list_resources(j@) == Some(v@),
            },
    {
        match j.get("resources") {
            Some(Json::Array(items)) => {
                let ghost iv = crate::json::items_view(items@);
                proof {
                    lemma_array_view(*items);
                    assert(j@.field("resources"@) == Some(JsonView::Array(iv)));
                }
                let mut out: Vec<Resource> = Vec::new();
                let mut i: usize = 0;
                while i < items.len()
                    invariant
                        iv == crate::json::items_view(items@),
                        j@.field("resources"@) == Some(JsonView::Array(iv)),
                        i <= items.len(),
                        out.len() == i,
                        forall|k: int|
                            0 <= k < i ==> decode_resource(#[trigger] iv[k]) == Some(out[k]@),
                    decreases items.len() - i,
                {
                    match Resource::from_json(&items[i]) {
                        Some(t) => out.push(t),
                        None => {
                            assert(resource_decoder()(iv[i as int]) is None);
                            return None;
                        },
                    }
                    i = i + 1;
                }
                assert(Seq::new(iv.len(), |k: int| decode_resource(iv[k])->0)
                    =~= resources_view(out@));
                Some(ListResourcesResult { resources: out })
            },
            _ => None,
        }
    }
}

pub proof fn lemma_list_resources_round_trip(list: Seq<ResourceView>)
    ensures
        decode_list_resources(encode_list_resources(list)) == Some(list),
{
    assert forall|i: int| 0 <= i < list.len()
        implies decode_resource(encode_resource(#[trigger] list[i]))
        == Some(list[i]) by {
        lemma_resource_round_trip(list[i]);
    }
    lemma_decode_each_encoded(list, |t: ResourceView| encode_resource(t), resource_decoder());
}

/// The result of `resources/read`: the content blocks of the resource.
#[derive(Debug)]
pub struct ReadResourceResult {
    pub contents: Vec<ResourceContent>,
}

pub open spec fn resource_contents_view(list: Seq<ResourceContent>) -> Seq<ResourceContentView> {
    list.map_values(|t: ResourceContent| t@)
}

impl View for ReadResourceResult {
    type V = Seq<ResourceContentView>;

    open spec fn view(&self) -> Seq<ResourceContentView> {
        resource_contents_view(self.contents@)
    }
}

pub open spec fn encode_read_resource(list: Seq<ResourceContentView>) -> JsonView {
    JsonView::Object(
        Seq::empty().push(
            ("contents"@,
                JsonView::Array(list.map_values(|t: ResourceContentView| encode_resource_content(t)))),
        ),
    )
}

pub open spec fn resource_content_decoder() -> spec_fn(JsonView) -> Option<ResourceContentView> {
    |j: JsonView| decode_resource_content(j)
}

pub open spec fn decode_read_resource(j: JsonView) -> Option<Seq<ResourceContentView>> {
    match j.field("contents"@) {
        Some(JsonView::Array(items)) => decode_each(items, resource_content_decoder()),
        _ => None,
    }
}

impl ReadResourceResult {
    pub fn to_json(&self) -> (r: Json)
        ensures
            r@ == encode_read_resource(self@),
    {
        let mut items: Vec<Json> = Vec::new();
        let mut i: usize = 0;
        while i < self.contents.len()
            invariant
                i <= self.contents.len(),
                items.len() == i,
                forall|k: int| 0 <= k < i ==> #[trigger] items[k]@
                    == encode_resource_content(self.contents[k]@),
            decreases self.contents.len() - i,
        {
            items.push(self.contents[i].to_json());
            i = i + 1;
        }
        assert(crate::json::items_view(items@)
            =~= self@.map_values(|t: ResourceContentView| encode_resource_content(t)));
        let mut m = new_members();
        push_member(&mut m, "contents", Json::Array(items));
        Json::Object(m)
    }

    pub fn from_json(j: &Json) -> (r: Option<ReadResourceResult>)
        ensures
            match r {
                None => decode_read_resource(j@) is None,
                Some(v) => decode_read_resource(j@) == Some(v@),
            },
    {
        match j.get("contents") {
            Some(Json::Array(items)) => {
                let ghost iv = crate::json::items_view(items@);
                proof {
                    lemma_array_view(*items);
                    assert(j@.field("contents"@) == Some(JsonView::Array(iv)));
                }
                let mut out: Vec<ResourceContent> = Vec::new();
                let mut i: usize = 0;
                while i < items.len()
                    invariant
                        iv == crate::json::items_view(items@),
                        j@.field("contents"@) == Some(JsonView::Array(iv)),
                        i <= items.len(),
                        out.len() == i,
                        forall|k: int|
                            0 <= k < i ==> decode_resource_content(#[trigger] iv[k])
                                == Some(out[k]@),
                    decreases items.len() - i,
                {
                    match ResourceContent::from_json(&items[i]) {
                        Some(t) => out.push(t),
                        None => {
                            assert(resource_content_decoder()(iv[i as int]) is None);
                            return None;
                        },
                    }
                    i = i + 1;
                }
                assert(Seq::new(iv.len(), |k: int| decode_resource_content(iv[k])->0)
                    =~= resource_contents_view(out@));
                Some(ReadResourceResult { contents: out })
            },
            _ => None,
        }
    }
}

pub proof fn lemma_read_resource_round_trip(list: Seq<ResourceContentView>)
    ensures
        decode_read_resource(encode_read_resource(list)) == Some(list),
{
    assert forall|i: int| 0 <= i < list.len()
        implies decode_resource_content(encode_resource_content(#[trigger] list[i]))
        == Some(list[i]) by {
        lemma_resource_content_round_trip(list[i]);
    }
    lemma_decode_each_encoded(list, |t: ResourceContentView| encode_resource_content(t),
        resource_content_decoder());
}

/// Whether the server notifies changes to its tool list.
#[derive(Clone, Copy, Debug, PartialEq, Eq)]
pub struct ToolsCapability {
    pub list_changed: Option<bool>,
}

/// What the server offers on resources.
#[derive(Clone, Copy, Debug, PartialEq, Eq)]
pub struct ResourcesCapability {
    pub subscribe: Option<bool>,
    pub list_changed: Option<bool>,
}

/// What the server advertises in its answer to `initialize`.
#[derive(Clone, Copy, Debug, PartialEq, Eq)]
pub struct ServerCapabilities {
    pub tools: Option<ToolsCapability>,
    pub resources: Option<ResourcesCapability>,
}

pub open spec fn encode_tools_capability(c: ToolsCapability) -> JsonView {
    JsonView::Object(push_opt(Seq::empty(), "listChanged"@, opt_bool(c.list_changed)))
}

pub open spec fn decode_tools_capability(j: JsonView) -> Option<ToolsCapability> {
    match (j, j.opt_bool_field("listChanged"@)) {
        (JsonView::Object(_), Some(list_changed)) => Some(ToolsCapability { list_changed }),
        _ => None,
    }
}

pub open spec fn encode_resources_capability(c: ResourcesCapability) -> JsonView {
    JsonView::Object(
        push_opt(
            push_opt(Seq::empty(), "subscribe"@, opt_bool(c.subscribe)),
            "listChanged"@,
            opt_bool(c.list_changed),
        ),
    )
}

pub open spec fn decode_resources_capability(j: JsonView) -> Option<ResourcesCapability> {
    match (j, j.opt_bool_field("subscribe"@), j.opt_bool_field("listChanged"@)) {
        (JsonView::Object(_), Some(subscribe), Some(list_changed)) => Some(
            ResourcesCapability { subscribe, list_changed },
        ),
        _ => None,
    }
}

/// An optional object member: `Some(None)` where it is missing or null.
pub open spec fn opt_object_field<A>(
    j: JsonView,
    key: Seq<char>,
    dec: spec_fn(JsonView) -> Option<A>,
) -> Option<Option<A>> {
    match j.field(key) {
        None => Some(None),
        Some(JsonView::Null) => Some(None),
        Some(v) => match dec(v) {
            Some(a) => Some(Some(a)),
            None => None,
        },
    }
}

pub open spec fn opt_encoded<A>(o: Option<A>, enc: spec_fn(A) -> JsonView) -> Option<JsonView> {
    match o {
        Some(a) => Some(enc(a)),
        None => None,
    }
}

pub open spec fn encode_server_capabilities(c: ServerCapabilities) -> JsonView {
    JsonView::Object(
        push_opt(
            push_opt(
                Seq::empty(),
                "tools"@,
                opt_encoded(c.tools, |t: ToolsCapability| encode_tools_capability(t)),
            ),
            "resources"@,
            opt_encoded(c.resources, |r: ResourcesCapability| encode_resources_capability(r)),
        ),
    )
}

pub open spec fn decode_server_capabilities(j: JsonView) -> Option<ServerCapabilities> {
    match (
        j,
        opt_object_field(j, "tools"@, |v: JsonView| decode_tools_capability(v)),
        opt_object_field(j, "resources"@, |v: JsonView| decode_resources_capability(v)),
    ) {
        (JsonView::Object(_), Some(tools), Some(resources)) => Some(
            ServerCapabilities { tools, resources },
        ),
        _ => None,
    }
}

impl ToolsCapability {
    pub fn to_json(&self) -> (r: Json)
        ensures
            r@ == encode_tools_capability(*self),
    {
        let mut m = new_members();
        push_opt_bool(&mut m, "listChanged", self.list_changed);
        Json::Object(m)
    }

    pub fn from_json(j: &Json) -> (r: Option<ToolsCapability>)
        ensures
            r == decode_tools_capability(j@),
    {
        match (j, j.get_opt_bool("listChanged")) {
            (Json::Object(_), Some(list_changed)) => Some(ToolsCapability { list_changed }),
            _ => None,
        }
    }
}

impl ResourcesCapability {
    pub fn to_json(&self) -> (r: Json)
        ensures
            r@ == encode_resources_capability(*self),
    {
        let mut m = new_members();
        push_opt_bool(&mut m, "subscribe", self.subscribe);
        push_opt_bool(&mut m, "listChanged", self.list_changed);
        Json::Object(m)
    }

    pub fn from_json(j: &Json) -> (r: Option<ResourcesCapability>)
        ensures
            r == decode_resources_capability(j@),
    {
        match (j, j.get_opt_bool("subscribe"), j.get_opt_bool("listChanged")) {
            (Json::Object(_), Some(subscribe), Some(list_changed)) => Some(
                ResourcesCapability { subscribe, list_changed },
            ),
            _ => None,
        }
    }
}

impl ServerCapabilities {
    pub fn to_json(&self) -> (r: Json)
        ensures
            r@ == encode_server_capabilities(*self),
    {
        let mut m = new_members();
        match &self.tools {
            Some(t) => push_member(&mut m, "tools", t.to_json()),
            None => {},
        }
        match &self.resources {
            Some(c) => push_member(&mut m, "resources", c.to_json()),
            None => {},
        }
        Json::Object(m)
    }

    pub fn from_json(j: &Json) -> (r: Option<ServerCapabilities>)
        ensures
            r == decode_server_capabilities(j@),
    {
        let tools = match j.get("tools") {
            None => None,
            Some(Json::Null) => None,
            Some(v) => match ToolsCapability::from_json(v) {
                Some(t) => Some(t),
                None => {
                    return None;
                },
            },
        };
        let resources = match j.get("resources") {
            None => None,
            Some(Json::Null) => None,
            Some(v) => match ResourcesCapability::from_json(v) {
                Some(c) => Some(c),
                None => {
                    return None;
                },
            },
        };
        match j {
            Json::Object(_) => Some(ServerCapabilities { tools, resources }),
            _ => None,
        }
    }
}

pub proof fn lemma_server_capabilities_round_trip(c: ServerCapabilities)
    ensures
        decode_server_capabilities(encode_server_capabilities(c)) == Some(c),
{
    reveal_strlit("tools");
    reveal_strlit("resources");
    reveal_strlit("subscribe");
    reveal_strlit("listChanged");
    assert("tools"@.len() == 5 && "resources"@.len() == 9 && "subscribe"@.len() == 9
        && "listChanged"@.len() == 11 && "resources"@[0] == 'r' && "subscribe"@[0] == 's');
}

/// The server's name and version.
#[derive(Debug)]
pub struct ServerInfo {
    pub name: String,
    pub version: String,
}

/// The client's name and version.
#[derive(Debug)]
pub struct ClientInfo {
    pub name: String,
    pub version: String,
}

/// A name with a version, as [`ServerInfo`] and [`ClientInfo`] are seen.
pub struct NameVersion {
    pub name: Seq<char>,
    pub version: Seq<char>,
}

impl View for ServerInfo {
    type V = NameVersion;

    open spec fn view(&self) -> NameVersion {
        NameVersion { name: self.name@, version: self.version@ }
    }
}

impl View for ClientInfo {
    type V = NameVersion;

    open spec fn view(&self) -> NameVersion {
        NameVersion { name: self.name@, version: self.version@ }
    }
}

pub open spec fn encode_name_version(n: NameVersion) -> JsonView {
    JsonView::Object(
        Seq::empty().push(("name"@, JsonView::Str(n.name))).push(
            ("version"@, JsonView::Str(n.version)),
        ),
    )
}

pub open spec fn decode_name_version(j: JsonView) -> Option<NameVersion> {
    match (j.text_field("name"@), j.text_field("version"@)) {
        (Some(name), Some(version)) => Some(NameVersion { name, version }),
        _ => None,
    }
}

fn name_version_to_json(name: &String, version: &String) -> (r: Json)
    ensures
        r@ == encode_name_version(NameVersion { name: name@, version: version@ }),
{
    let mut m = new_members();
    push_member(&mut m, "name", Json::Str(name.clone()));
    push_member(&mut m, "version", Json::Str(version.clone()));
    Json::Object(m)
}

fn name_version_from_json(j: &Json) -> (r: Option<(String, String)>)
    ensures
        match r {
            None => decode_name_version(j@) is None,
            Some((name, version)) => decode_name_version(j@) == Some(
                NameVersion { name: name@, version: version@ },
            ),
        },
{
    match (j.get_text("name"), j.get_text("version")) {
        (Some(name), Some(version)) => Some((name.clone(), version.clone())),
        _ => None,
    }
}

pub proof fn lemma_name_version_round_trip(n: NameVersion)
    ensures
        decode_name_version(encode_name_version(n)) == Some(n),
{
    reveal_strlit("name");
    reveal_strlit("version");
    assert("name"@.len() == 4 && "version"@.len() == 7);
}

impl ServerInfo {
    pub fn to_json(&self) -> (r: Json)
        ensures
            r@ == encode_name_version(self@),
    {
        name_version_to_json(&self.name, &self.version)
    }

    pub fn from_json(j: &Json) -> (r: Option<ServerInfo>)
        ensures
            match r {
                None => decode_name_version(j@) is None,
                Some(v) => decode_name_version(j@) == Some(v@),
            },
    {
        match name_version_from_json(j) {
            Some((name, version)) => Some(ServerInfo { name, version }),
            None => None,
        }
    }
}

impl ClientInfo {
    pub fn to_json(&self) -> (r: Json)
        ensures
            r@ == encode_name_version(self@),
    {
        name_version_to_json(&self.name, &self.version)
    }

    pub fn from_json(j: &Json) -> (r: Option<ClientInfo>)
        ensures
            match r {
                None => decode_name_version(j@) is None,
                Some(v) => decode_name_version(j@) == Some(v@),
            },
    {
        match name_version_from_json(j) {
            Some((name, version)) => Some(ClientInfo { name, version }),
            None => None,
        }
    }
}

/// The answer to `initialize`.
#[derive(Debug)]
pub struct InitializeResult {
    pub protocol_version: String,
    pub capabilities: ServerCapabilities,
    pub server_info: ServerInfo,
}

pub struct InitializeResultView {
    pub protocol_version: Seq<char>,
    pub capabilities: ServerCapabilities,
    pub server_info: NameVersion,
}

impl View for InitializeResult {
    type V = InitializeResultView;

    open spec fn view(&self) -> InitializeResultView {
        InitializeResultView {
            protocol_version: self.protocol_version@,
            capabilities: self.capabilities,
            server_info: self.server_info@,
        }
    }
}

pub open spec fn encode_initialize_result(r: InitializeResultView) -> JsonView {
    JsonView::Object(
        Seq::empty().push(("protocolVersion"@, JsonView::Str(r.protocol_version))).push(
            ("capabilities"@, encode_server_capabilities(r.capabilities)),
        ).push(("serverInfo"@, encode_name_version(r.server_info))),
    )
}

pub open spec fn decode_initialize_result(j: JsonView) -> Option<InitializeResultView> {
    match (j.text_field("protocolVersion"@), j.field("capabilities"@), j.field("serverInfo"@)) {
        (Some(protocol_version), Some(c), Some(i)) => match (
            decode_server_capabilities(c),
            decode_name_version(i),
        ) {
            (Some(capabilities), Some(server_info)) => Some(
                InitializeResultView { protocol_version, capabilities, server_info },
            ),
            _ => None,
        },
        _ => None,
    }
}

impl InitializeResult {
    pub fn to_json(&self) -> (r: Json)
        ensures
            r@ == encode_initialize_result(self@),
    {
        let mut m = new_members();
        push_member(&mut m, "protocolVersion", Json::Str(self.protocol_version.clone()));
        push_member(&mut m, "capabilities", self.capabilities.to_json());
        push_member(&mut m, "serverInfo", self.server_info.to_json());
        Json::Object(m)
    }

    pub fn from_json(j: &Json) -> (r: Option<InitializeResult>)
        ensures
            match r {
                None => decode_initialize_result(j@) is None,
                Some(v) => decode_initialize_result(j@) == Some(v@),
            },
    {
        match (j.get_text("protocolVersion"), j.get("capabilities"), j.get("serverInfo")) {
            (Some(protocol_version), Some(c), Some(i)) => match (
                ServerCapabilities::from_json(c),
                ServerInfo::from_json(i),
            ) {
                (Some(capabilities), Some(server_info)) => Some(
                    InitializeResult {
                        protocol_version: protocol_version.clone(),
                        capabilities,
                        server_info,
                    },
                ),
                _ => None,
            },
            _ => None,
        }
    }
}

pub proof fn lemma_initialize_result_round_trip(r: InitializeResultView)
    ensures
        decode_initialize_result(encode_initialize_result(r)) == Some(r),
{
    reveal_strlit("protocolVersion");
    reveal_strlit("capabilities");
    reveal_strlit("serverInfo");
    assert("protocolVersion"@.len() == 15 && "capabilities"@.len() == 12 && "serverInfo"@.len()
        == 10);
    lemma_server_capabilities_round_trip(r.capabilities);
    lemma_name_version_round_trip(r.server_info);
}

/// The error member of an error response.
#[derive(Debug)]
pub struct McpError {
    pub code: i32,
    pub message: String,
    pub data: Option<Json>,
}

pub struct McpErrorView {
    pub code: i32,
    pub message: Seq<char>,
    pub data: Option<JsonView>,
}

impl View for McpError {
    type V = McpErrorView;

    open spec fn view(&self) -> McpErrorView {
        McpErrorView {
            code: self.code,
            message: self.message@,
            data: match self.data {
                Some(d) => Some(d@),
                None => None,
            },
        }
    }
}

pub open spec fn encode_error(e: McpErrorView) -> JsonView {
    JsonView::Object(
        push_opt(
            Seq::empty().push(("code"@, JsonView::Int(e.code as i64))).push(
                ("message"@, JsonView::Str(e.message)),
            ),
            "data"@,
            e.data,
        ),
    )
}

pub open spec fn decode_error(j: JsonView) -> Option<McpErrorView> {
    match (j.field("code"@), j.text_field("message"@)) {
        (Some(JsonView::Int(code)), Some(message)) => if i32::MIN <= code <= i32::MAX {
            Some(McpErrorView { code: code as i32, message, data: j.field("data"@) })
        } else {
            None
        },
        _ => None,
    }
}

impl McpError {
    pub fn to_json(&self) -> (r: Json)
        ensures
            r@ == encode_error(self@),
    {
        let mut m = new_members();
        push_member(&mut m, "code", Json::Int(self.code as i64));
        push_member(&mut m, "message", Json::Str(self.message.clone()));
        match &self.data {
            Some(d) => push_member(&mut m, "data", d.copy()),
            None => {},
        }
        Json::Object(m)
    }

    pub fn from_json(j: &Json) -> (r: Option<McpError>)
        ensures
            match r {
                None => decode_error(j@) is None,
                Some(v) => decode_error(j@) == Some(v@),
            },
    {
        match (j.get("code"), j.get_text("message")) {
            (Some(Json::Int(code)), Some(message)) => {
                if i32::MIN as i64 <= *code && *code <= i32::MAX as i64 {
                    let data = match j.get("data") {
                        Some(d) => Some(d.copy()),
                        None => None,
                    };
                    Some(McpError { code: *code as i32, message: message.clone(), data })
                } else {
                    None
                }
            },
            _ => None,
        }
    }
}

pub proof fn lemma_error_round_trip(e: McpErrorView)
    ensures
        decode_error(encode_error(e)) == Some(e),
{
    reveal_strlit("code");
    reveal_strlit("message");
    reveal_strlit("data");
    assert("code"@[0] == 'c' && "message"@.len() == 7 && "data"@[0] == 'd');
}

/// A response line: the result of the request it answers, or an error.
#[derive(Debug)]
pub enum McpResponse {
    Initialize { id: RequestId, result: InitializeResult },
    ListTools { id: RequestId, result: ListToolsResult },
    CallTool { id: RequestId, result: CallToolResult },
    ListResources { id: RequestId, result: ListResourcesResult },
    ReadResource { id: RequestId, result: ReadResourceResult },
    Error { id: RequestId, error: McpError },
}

pub enum McpResponseView {
    Initialize { id: RequestIdView, result: InitializeResultView },
    ListTools { id: RequestIdView, result: Seq<ToolView> },
    CallTool { id: RequestIdView, result: Seq<ToolContentView> },
    ListResources { id: RequestIdView, result: Seq<ResourceView> },
    ReadResource { id: RequestIdView, result: Seq<ResourceContentView> },
    Error { id: RequestIdView, error: McpErrorView },
}

impl View for McpResponse {
    type V = McpResponseView;

    open spec fn view(&self) -> McpResponseView {
        match self {
            McpResponse::Initialize { id, result } => McpResponseView::Initialize {
                id: id@,
                result: result@,
            },
            McpResponse::ListTools { id, result } => McpResponseView::ListTools {
                id: id@,
                result: result@,
            },
            McpResponse::CallTool { id, result } => McpResponseView::CallTool {
                id: id@,
                result: result@,
            },
            McpResponse::ListResources { id, result } => McpResponseView::ListResources {
                id: id@,
                result: result@,
            },
            McpResponse::ReadResource { id, result } => McpResponseView::ReadResource {
                id: id@,
                result: result@,
            },
            McpResponse::Error { id, error } => McpResponseView::Error { id: id@, error: error@ },
        }
    }
}

impl McpResponseView {
    pub open spec fn id(self) -> RequestIdView {
        match self {
            McpResponseView::Initialize { id, .. } => id,
            McpResponseView::ListTools { id, .. } => id,
            McpResponseView::CallTool { id, .. } => id,
            McpResponseView::ListResources { id, .. } => id,
            McpResponseView::ReadResource { id, .. } => id,
            McpResponseView::Error { id, .. } => id,
        }
    }
}

/// The members that open every response: the protocol marker, then the method tag.
pub open spec fn result_envelope(method: Seq<char>, id: RequestIdView,
    result: JsonView) -> JsonView {
    JsonView::Object(
        Seq::empty().push(("jsonrpc"@, JsonView::Str("2.0"@))).push(
            ("method"@, JsonView::Str(method)),
        ).push(("id"@, encode_id(id))).push(("result"@, result)),
    )
}

pub open spec fn encode_response(r: McpResponseView) -> JsonView {
    match r {
        McpResponseView::Initialize { id, result } => result_envelope(
            "initialize"@,
            id,
            encode_initialize_result(result),
        ),
        McpResponseView::ListTools { id, result } => result_envelope(
            "tools/list"@,
            id,
            encode_list_tools(result),
        ),
        McpResponseView::CallTool { id, result } => result_envelope(
            "tools/call"@,
            id,
            encode_call_tool(result),
        ),
        McpResponseView::ListResources { id, result } => result_envelope(
            "resources/list"@,
            id,
            encode_list_resources(result),
        ),
        McpResponseView::ReadResource { id, result } => result_envelope(
            "resources/read"@,
            id,
            encode_read_resource(result),
        ),
        McpResponseView::Error { id, error } => JsonView::Object(
            Seq::empty().push(("jsonrpc"@, JsonView::Str("2.0"@))).push(("id"@, encode_id(id))).push(
                ("error"@, encode_error(error)),
            ),
        ),
    }
}

pub open spec fn decode_result(method: Seq<char>, id: RequestIdView, result: JsonView) -> Option<
    McpResponseView,
> {
    if method == "initialize"@ {
        match decode_initialize_result(result) {
            Some(result) => Some(McpResponseView::Initialize { id, result }),
            None => None,
        }
    } else if method == "tools/list"@ {
        match decode_list_tools(result) {
            Some(result) => Some(McpResponseView::ListTools { id, result }),
            None => None,
        }
    } else if method == "tools/call"@ {
        match decode_call_tool(result) {
            Some(result) => Some(McpResponseView::CallTool { id, result }),
            None => None,
        }
    } else if method == "resources/list"@ {
        match decode_list_resources(result) {
            Some(result) => Some(McpResponseView::ListResources { id, result }),
            None => None,
        }
    } else if method == "resources/read"@ {
        match decode_read_resource(result) {
            Some(result) => Some(McpResponseView::ReadResource { id, result }),
            None => None,
        }
    } else {
        None
    }
}

pub open spec fn decode_response(j: JsonView) -> Option<McpResponseView> {
    match j.field("id"@) {
        None => None,
        Some(idj) => match decode_id(idj) {
            None => None,
            Some(id) => match j.field("error"@) {
                Some(e) => match decode_error(e) {
                    Some(error) => Some(McpResponseView::Error { id, error }),
                    None => None,
                },
                None => match (j.text_field("method"@), j.field("result"@)) {
                    (Some(method), Some(result)) => decode_result(method, id, result),
                    _ => None,
                },
            },
        },
    }
}

fn result_envelope_json(method: &str, id: &RequestId, result: Json) -> (r: Json)
    ensures
        r@ == result_envelope(method@, id@, result@),
{
    let mut m = new_members();
    push_member(&mut m, "jsonrpc", Json::text("2.0"));
    push_member(&mut m, "method", Json::text(method));
    push_member(&mut m, "id", id.to_json());
    push_member(&mut m, "result", result);
    Json::Object(m)
}

impl McpResponse {
    /// The id of the request that this response answers.
    pub fn id(&self) -> (r: &RequestId)
        ensures
            r@ == self@.id(),
    {
        match self {
            McpResponse::Initialize { id, .. } => id,
            McpResponse::ListTools { id, .. } => id,
            McpResponse::CallTool { id, .. } => id,
            McpResponse::ListResources { id, .. } => id,
            McpResponse::ReadResource { id, .. } => id,
            McpResponse::Error { id, .. } => id,
        }
    }

    /// The wire shape of this response.
    pub fn to_json(&self) -> (r: Json)
        ensures
            r@ == encode_response(self@),
    {
        match self {
            McpResponse::Initialize { id, result } => result_envelope_json(
                "initialize",
                id,
                result.to_json(),
            ),
            McpResponse::ListTools { id, result } => result_envelope_json(
                "tools/list",
                id,
                result.to_json(),
            ),
            McpResponse::CallTool { id, result } => result_envelope_json(
                "tools/call",
                id,
                result.to_json(),
            ),
            McpResponse::ListResources { id, result } => result_envelope_json(
                "resources/list",
                id,
                result.to_json(),
            ),
            McpResponse::ReadResource { id, result } => result_envelope_json(
                "resources/read",
                id,
                result.to_json(),
            ),
            McpResponse::Error { id, error } => {
                let mut m = new_members();
                push_member(&mut m, "jsonrpc", Json::text("2.0"));
                push_member(&mut m, "id", id.to_json());
                push_member(&mut m, "error", error.to_json());
                Json::Object(m)
            },
        }
    }

    /// Reads a response back from its wire shape.
    pub fn from_json(j: &Json) -> (r: Option<McpResponse>)
        ensures
            match r {
                None => decode_response(j@) is None,
                Some(v) => decode_response(j@) == Some(v@),
            },
    {
        let id = match j.get("id") {
            None => {
                return None;
            },
            Some(idj) => match RequestId::from_json(idj) {
                None => {
                    return None;
                },
                Some(id) => id,
            },
        };
        match j.get("error") {
            Some(e) => {
                return match McpError::from_json(e) {
                    Some(error) => Some(McpResponse::Error { id, error }),
                    None => None,
                };
            },
            None => {},
        }
        let (method, result) = match (j.get_text("method"), j.get("result")) {
            (Some(method), Some(result)) => (method, result),
            _ => {
                return None;
            },
        };
        let m = method.as_str();
        if same_text(m, "initialize") {
            match InitializeResult::from_json(result) {
                Some(result) => Some(McpResponse::Initialize { id, result }),
                None => None,
            }
        } else if same_text(m, "tools/list") {
            match ListToolsResult::from_json(result) {
                Some(result) => Some(McpResponse::ListTools { id, result }),
                None => None,
            }
        } else if same_text(m, "tools/call") {
            match CallToolResult::from_json(result) {
                Some(result) => Some(McpResponse::CallTool { id, result }),
                None => None,
            }
        } else if same_text(m, "resources/list") {
            match ListResourcesResult::from_json(result) {
                Some(result) => Some(McpResponse::ListResources { id, result }),
                None => None,
            }
        } else if same_text(m, "resources/read") {
            match ReadResourceResult::from_json(result) {
                Some(result) => Some(McpResponse::ReadResource { id, result }),
                None => None,
            }
        } else {
            None
        }
    }
}

/// The method tags are pairwise distinct.
proof fn lemma_method_tags_distinct()
    ensures
        "initialize"@ != "tools/list"@,
        "initialize"@ != "tools/call"@,
        "initialize"@ != "resources/list"@,
        "initialize"@ != "resources/read"@,
        "tools/list"@ != "tools/call"@,
        "tools/list"@ != "resources/list"@,
        "tools/list"@ != "resources/read"@,
        "tools/call"@ != "resources/list"@,
        "tools/call"@ != "resources/read"@,
        "resources/list"@ != "resources/read"@,
{
    reveal_strlit("initialize");
    reveal_strlit("tools/list");
    reveal_strlit("tools/call");
    reveal_strlit("resources/list");
    reveal_strlit("resources/read");
    assert("initialize"@[0] == 'i' && "tools/list"@[0] == 't' && "tools/call"@[0] == 't');
    assert("tools/list"@[6] == 'l' && "tools/call"@[6] == 'c');
    assert("tools/list"@.len() == 10 && "resources/list"@.len() == 14);
    assert("resources/list"@[10] == 'l' && "resources/read"@[10] == 'r');
}

proof fn lemma_envelope_keys_distinct()
    ensures
        "jsonrpc"@ != "id"@,
        "method"@ != "id"@,
        "result"@ != "id"@,
        "error"@ != "id"@,
        "jsonrpc"@ != "error"@,
        "method"@ != "error"@,
        "result"@ != "error"@,
        "jsonrpc"@ != "method"@,
        "result"@ != "method"@,
        "jsonrpc"@ != "result"@,
{
    reveal_strlit("jsonrpc");
    reveal_strlit("method");
    reveal_strlit("result");
    reveal_strlit("error");
    reveal_strlit("id");
    assert("jsonrpc"@.len() == 7 && "id"@.len() == 2 && "error"@.len() == 5);
    assert("method"@.len() == 6 && "result"@.len() == 6 && "method"@[0] == 'm' && "result"@[0]
        == 'r');
}

/// Reading a response back from its wire shape gives the response itself.
pub proof fn law_response_round_trip(r: McpResponseView)
    ensures
        decode_response(encode_response(r)) == Some(r),
{
    lemma_method_tags_distinct();
    lemma_envelope_keys_distinct();
    match r {
        McpResponseView::Initialize { result, .. } => lemma_initialize_result_round_trip(result),
        McpResponseView::ListTools { result, .. } => lemma_list_tools_round_trip(result),
        McpResponseView::CallTool { result, .. } => lemma_call_tool_round_trip(result),
        McpResponseView::ListResources { result, .. } => lemma_list_resources_round_trip(result),
        McpResponseView::ReadResource { result, .. } => lemma_read_resource_round_trip(result),
        McpResponseView::Error { error, .. } => lemma_error_round_trip(error),
    }
}

/// Whether the client notifies changes to its roots.
#[derive(Clone, Copy, Debug, PartialEq, Eq)]
pub struct RootsCapability {
    pub list_changed: Option<bool>,
}

/// The client's offer to sample; it carries no settings.
#[derive(Clone, Copy, Debug, PartialEq, Eq)]
pub struct SamplingCapability {}

/// What the client advertises in `initialize`.
#[derive(Clone, Copy, Debug, PartialEq, Eq)]
pub struct ClientCapabilities {
    pub roots: Option<RootsCapability>,
    pub sampling: Option<SamplingCapability>,
}

pub open spec fn encode_client_capabilities(c: ClientCapabilities) -> JsonView {
    JsonView::Object(
        push_opt(
            push_opt(
                Seq::empty(),
                "roots"@,
                opt_encoded(
                    c.roots,
                    |r: RootsCapability|
                        JsonView::Object(
                            push_opt(Seq::empty(), "listChanged"@, opt_bool(r.list_changed)),
                        ),
                ),
            ),
            "sampling"@,
            opt_encoded(c.sampling, |s: SamplingCapability| JsonView::Object(Seq::empty())),
        ),
    )
}

pub open spec fn decode_roots(j: JsonView) -> Option<RootsCapability> {
    match (j, j.opt_bool_field("listChanged"@)) {
        (JsonView::Object(_), Some(list_changed)) => Some(RootsCapability { list_changed }),
        _ => None,
    }
}

pub open spec fn decode_sampling(j: JsonView) -> Option<SamplingCapability> {
    match j {
        JsonView::Object(_) => Some(SamplingCapability {  }),
        _ => None,
    }
}

pub open spec fn decode_client_capabilities(j: JsonView) -> Option<ClientCapabilities> {
    match (
        j,
        opt_object_field(j, "roots"@, |v: JsonView| decode_roots(v)),
        opt_object_field(j, "sampling"@, |v: JsonView| decode_sampling(v)),
    ) {
        (JsonView::Object(_), Some(roots), Some(sampling)) => Some(
            ClientCapabilities { roots, sampling },
        ),
        _ => None,
    }
}

impl ClientCapabilities {
    pub fn to_json(&self) -> (r: Json)
        ensures
            r@ == encode_client_capabilities(*self),
    {
        let mut m = new_members();
        match &self.roots {
            Some(roots) => {
                let mut inner = new_members();
                push_opt_bool(&mut inner, "listChanged", roots.list_changed);
                push_member(&mut m, "roots", Json::Object(inner));
            },
            None => {},
        }
        match &self.sampling {
            Some(_) => push_member(&mut m, "sampling", Json::Object(new_members())),
            None => {},
        }
        Json::Object(m)
    }

    pub fn from_json(j: &Json) -> (r: Option<ClientCapabilities>)
        ensures
            r == decode_client_capabilities(j@),
    {
        let roots = match j.get("roots") {
            None => None,
            Some(Json::Null) => None,
            Some(v) => match (v, v.get_opt_bool("listChanged")) {
                (Json::Object(_), Some(list_changed)) => Some(RootsCapability { list_changed }),
                _ => {
                    return None;
                },
            },
        };
        let sampling = match j.get("sampling") {
            None => None,
            Some(Json::Null) => None,
            Some(Json::Object(_)) => Some(SamplingCapability {  }),
            Some(_) => {
                return None;
            },
        };
        match j {
            Json::Object(_) => Some(ClientCapabilities { roots, sampling }),
            _ => None,
        }
    }
}

pub proof fn lemma_client_capabilities_round_trip(c: ClientCapabilities)
    ensures
        decode_client_capabilities(encode_client_capabilities(c)) == Some(c),
{
    reveal_strlit("roots");
    reveal_strlit("sampling");
    reveal_strlit("listChanged");
    assert("roots"@.len() == 5 && "sampling"@.len() == 8 && "listChanged"@.len() == 11);
}

/// The parameters of `initialize`; the server reads none of them.
#[derive(Debug)]
pub struct InitializeParams {
    pub protocol_version: String,
    pub capabilities: ClientCapabilities,
    pub client_info: ClientInfo,
}

pub struct InitializeParamsView {
    pub protocol_version: Seq<char>,
    pub capabilities: ClientCapabilities,
    pub client_info: NameVersion,
}

impl View for InitializeParams {
    type V = InitializeParamsView;

    open spec fn view(&self) -> InitializeParamsView {
        InitializeParamsView {
            protocol_version: self.protocol_version@,
            capabilities: self.capabilities,
            client_info: self.client_info@,
        }
    }
}

pub open spec fn encode_initialize_params(p: InitializeParamsView) -> JsonView {
    JsonView::Object(
        Seq::empty().push(("protocolVersion"@, JsonView::Str(p.protocol_version))).push(
            ("capabilities"@, encode_client_capabilities(p.capabilities)),
        ).push(("clientInfo"@, encode_name_version(p.client_info))),
    )
}

pub open spec fn decode_initialize_params(j: JsonView) -> Option<InitializeParamsView> {
    match (j.text_field("protocolVersion"@), j.field("capabilities"@), j.field("clientInfo"@)) {
        (Some(protocol_version), Some(c), Some(i)) => match (
            decode_client_capabilities(c),
            decode_name_version(i),
        ) {
            (Some(capabilities), Some(client_info)) => Some(
                InitializeParamsView { protocol_version, capabilities, client_info },
            ),
            _ => None,
        },
        _ => None,
    }
}

impl InitializeParams {
    pub fn to_json(&self) -> (r: Json)
        ensures
            r@ == encode_initialize_params(self@),
    {
        let mut m = new_members();
        push_member(&mut m, "protocolVersion", Json::Str(self.protocol_version.clone()));
        push_member(&mut m, "capabilities", self.capabilities.to_json());
        push_member(&mut m, "clientInfo", self.client_info.to_json());
        Json::Object(m)
    }

    pub fn from_json(j: &Json) -> (r: Option<InitializeParams>)
        ensures
            match r {
                None => decode_initialize_params(j@) is None,
                Some(v) => decode_initialize_params(j@) == Some(v@),
            },
    {
        match (j.get_text("protocolVersion"), j.get("capabilities"), j.get("clientInfo")) {
            (Some(protocol_version), Some(c), Some(i)) => match (
                ClientCapabilities::from_json(c),
                ClientInfo::from_json(i),
            ) {
                (Some(capabilities), Some(client_info)) => Some(
                    InitializeParams {
                        protocol_version: protocol_version.clone(),
                        capabilities,
                        client_info,
                    },
                ),
                _ => None,
            },
            _ => None,
        }
    }
}

pub proof fn lemma_initialize_params_round_trip(p: InitializeParamsView)
    ensures
        decode_initialize_params(encode_initialize_params(p)) == Some(p),
{
    reveal_strlit("protocolVersion");
    reveal_strlit("capabilities");
    reveal_strlit("clientInfo");
    assert("protocolVersion"@.len() == 15 && "capabilities"@.len() == 12 && "clientInfo"@.len()
        == 10);
    lemma_client_capabilities_round_trip(p.capabilities);
    lemma_name_version_round_trip(p.client_info);
}

/// The parameters of `tools/call`.
#[derive(Debug)]
pub struct CallToolParams {
    pub name: String,
    /// Named arguments, as the members of a JSON object.
    pub arguments: Option<Vec<(String, Json)>>,
}

pub struct CallToolParamsView {
    pub name: Seq<char>,
    pub arguments: Option<Seq<(Seq<char>, JsonView)>>,
}

impl View for CallToolParams {
    type V = CallToolParamsView;

    open spec fn view(&self) -> CallToolParamsView {
        CallToolParamsView {
            name: self.name@,
            arguments: match self.arguments {
                Some(a) => Some(members_view(a@)),
                None => None,
            },
        }
    }
}

pub open spec fn encode_call_tool_params(p: CallToolParamsView) -> JsonView {
    JsonView::Object(
        push_opt(
            Seq::empty().push(("name"@, JsonView::Str(p.name))),
            "arguments"@,
            match p.arguments {
                Some(a) => Some(JsonView::Object(a)),
                None => None,
            },
        ),
    )
}

pub open spec fn decode_call_tool_params(j: JsonView) -> Option<CallToolParamsView> {
    match (j.text_field("name"@), j.field("arguments"@)) {
        (Some(name), None) => Some(CallToolParamsView { name, arguments: None }),
        (Some(name), Some(JsonView::Null)) => Some(CallToolParamsView { name, arguments: None }),
        (Some(name), Some(JsonView::Object(a))) => Some(
            CallToolParamsView { name, arguments: Some(a) },
        ),
        _ => None,
    }
}

/// Copies object members, keeping their order.
pub fn copy_members(members: &Vec<(String, Json)>) -> (r: Vec<(String, Json)>)
    ensures
        members_view(r@) == members_view(members@),
{
    let mut out = new_members();
    let mut i: usize = 0;
    while i < members.len()
        invariant
            i <= members.len(),
            members_view(out@) == members_view(members@).subrange(0, i as int),
        decreases members.len() - i,
    {
        push_member(&mut out, members[i].0.as_str(), members[i].1.copy());
        assert(members_view(members@).subrange(0, i + 1) =~= members_view(members@).subrange(
            0,
            i as int,
        ).push((members[i as int].0@, members[i as int].1@)));
        i = i + 1;
    }
    assert(members_view(members@).subrange(0, i as int) =~= members_view(members@));
    out
}

impl CallToolParams {
    pub fn to_json(&self) -> (r: Json)
        ensures
            r@ == encode_call_tool_params(self@),
    {
        let mut m = new_members();
        push_member(&mut m, "name", Json::Str(self.name.clone()));
        match &self.arguments {
            Some(a) => push_member(&mut m, "arguments", Json::Object(copy_members(a))),
            None => {},
        }
        Json::Object(m)
    }

    pub fn from_json(j: &Json) -> (r: Option<CallToolParams>)
        ensures
            match r {
                None => decode_call_tool_params(j@) is None,
                Some(v) => decode_call_tool_params(j@) == Some(v@),
            },
    {
        match (j.get_text("name"), j.get("arguments")) {
            (Some(name), None) => Some(CallToolParams { name: name.clone(), arguments: None }),
            (Some(name), Some(Json::Null)) => Some(
                CallToolParams { name: name.clone(), arguments: None },
            ),
            (Some(name), Some(Json::Object(a))) => Some(
                CallToolParams { name: name.clone(), arguments: Some(copy_members(a)) },
            ),
            _ => None,
        }
    }
}

pub proof fn lemma_call_tool_params_round_trip(p: CallToolParamsView)
    ensures
        decode_call_tool_params(encode_call_tool_params(p)) == Some(p),
{
    reveal_strlit("name");
    reveal_strlit("arguments");
    assert("name"@.len() == 4 && "arguments"@.len() == 9);
}

/// The parameters of `resources/read`.
#[derive(Debug)]
pub struct ReadResourceParams {
    pub uri: String,
}

pub open spec fn encode_read_resource_params(uri: Seq<char>) -> JsonView {
    JsonView::Object(Seq::empty().push(("uri"@, JsonView::Str(uri))))
}

pub open spec fn decode_read_resource_params(j: JsonView) -> Option<Seq<char>> {
    j.text_field("uri"@)
}

impl View for ReadResourceParams {
    type V = Seq<char>;

    open spec fn view(&self) -> Seq<char> {
        self.uri@
    }
}

impl ReadResourceParams {
    pub fn to_json(&self) -> (r: Json)
        ensures
            r@ == encode_read_resource_params(self@),
    {
        let mut m = new_members();
        push_member(&mut m, "uri", Json::Str(self.uri.clone()));
        Json::Object(m)
    }

    pub fn from_json(j: &Json) -> (r: Option<ReadResourceParams>)
        ensures
            match r {
                None => decode_read_resource_params(j@) is None,
                Some(v) => decode_read_resource_params(j@) == Some(v@),
            },
    {
        match j.get_text("uri") {
            Some(uri) => Some(ReadResourceParams { uri: uri.clone() }),
            None => None,
        }
    }
}

/// A request line: a method with its id and parameters.
#[derive(Debug)]
pub enum McpRequest {
    Initialize { id: RequestId, params: InitializeParams },
    ListTools { id: RequestId },
    CallTool { id: RequestId, params: CallToolParams },
    ListResources { id: RequestId },
    ReadResource { id: RequestId, params: ReadResourceParams },
}

pub enum McpRequestView {
    Initialize { id: RequestIdView, params: InitializeParamsView },
    ListTools { id: RequestIdView },
    CallTool { id: RequestIdView, params: CallToolParamsView },
    ListResources { id: RequestIdView },
    ReadResource { id: RequestIdView, uri: Seq<char> },
}

impl View for McpRequest {
    type V = McpRequestView;

    open spec fn view(&self) -> McpRequestView {
        match self {
            McpRequest::Initialize { id, params } => McpRequestView::Initialize {
                id: id@,
                params: params@,
            },
            McpRequest::ListTools { id } => McpRequestView::ListTools { id: id@ },
            McpRequest::CallTool { id, params } => McpRequestView::CallTool {
                id: id@,
                params: params@,
            },
            McpRequest::ListResources { id } => McpRequestView::ListResources { id: id@ },
            McpRequest::ReadResource { id, params } => McpRequestView::ReadResource {
                id: id@,
                uri: params@,
            },
        }
    }
}

impl McpRequestView {
    pub open spec fn id(self) -> RequestIdView {
        match self {
            McpRequestView::Initialize { id, .. } => id,
            McpRequestView::ListTools { id } => id,
            McpRequestView::CallTool { id, .. } => id,
            McpRequestView::ListResources { id } => id,
            McpRequestView::ReadResource { id, .. } => id,
        }
    }
}

pub open spec fn request_envelope(method: Seq<char>, id: RequestIdView) -> Seq<
    (Seq<char>, JsonView),
> {
    Seq::empty().push(("jsonrpc"@, JsonView::Str("2.0"@))).push(
        ("method"@, JsonView::Str(method)),
    ).push(("id"@, encode_id(id)))
}

pub open spec fn encode_request(r: McpRequestView) -> JsonView {
    match r {
        McpRequestView::Initialize { id, params } => JsonView::Object(
            request_envelope("initialize"@, id).push(
                ("params"@, encode_initialize_params(params)),
            ),
        ),
        McpRequestView::ListTools { id } => JsonView::Object(request_envelope("tools/list"@, id)),
        McpRequestView::CallTool { id, params } => JsonView::Object(
            request_envelope("tools/call"@, id).push(("params"@, encode_call_tool_params(params))),
        ),
        McpRequestView::ListResources { id } => JsonView::Object(
            request_envelope("resources/list"@, id),
        ),
        McpRequestView::ReadResource { id, uri } => JsonView::Object(
            request_envelope("resources/read"@, id).push(
                ("params"@, encode_read_resource_params(uri)),
            ),
        ),
    }
}

pub open spec fn decode_params(method: Seq<char>, id: RequestIdView,
    params: Option<JsonView>) -> Option<
    McpRequestView,
> {
    if method == "tools/list"@ {
        Some(McpRequestView::ListTools { id })
    } else if method == "resources/list"@ {
        Some(McpRequestView::ListResources { id })
    } else {
        match params {
            None => None,
            Some(p) => if method == "initialize"@ {
                match decode_initialize_params(p) {
                    Some(params) => Some(McpRequestView::Initialize { id, params }),
                    None => None,
                }
            } else if method == "tools/call"@ {
                match decode_call_tool_params(p) {
                    Some(params) => Some(McpRequestView::CallTool { id, params }),
                    None => None,
                }
            } else if method == "resources/read"@ {
                match decode_read_resource_params(p) {
                    Some(uri) => Some(McpRequestView::ReadResource { id, uri }),
                    None => None,
                }
            } else {
                None
            },
        }
    }
}

pub open spec fn decode_request(j: JsonView) -> Option<McpRequestView> {
    match (j.text_field("method"@), j.field("id"@)) {
        (Some(method), Some(idj)) => match decode_id(idj) {
            Some(id) => decode_params(method, id, j.field("params"@)),
            None => None,
        },
        _ => None,
    }
}

fn request_envelope_json(method: &str, id: &RequestId) -> (r: Vec<(String, Json)>)
    ensures
        members_view(r@) == request_envelope(method@, id@),
{
    let mut m = new_members();
    push_member(&mut m, "jsonrpc", Json::text("2.0"));
    push_member(&mut m, "method", Json::text(method));
    push_member(&mut m, "id", id.to_json());
    m
}

impl McpRequest {
    /// The id that the response must echo.
    pub fn id(&self) -> (r: &RequestId)
        ensures
            r@ == self@.id(),
    {
        match self {
            McpRequest::Initialize { id, .. } => id,
            McpRequest::ListTools { id } => id,
            McpRequest::CallTool { id, .. } => id,
            McpRequest::ListResources { id } => id,
            McpRequest::ReadResource { id, .. } => id,
        }
    }

    /// The wire shape of this request.
    pub fn to_json(&self) -> (r: Json)
        ensures
            r@ == encode_request(self@),
    {
        match self {
            McpRequest::Initialize { id, params } => {
                let mut m = request_envelope_json("initialize", id);
                push_member(&mut m, "params", params.to_json());
                Json::Object(m)
            },
            McpRequest::ListTools { id } => Json::Object(request_envelope_json("tools/list", id)),
            McpRequest::CallTool { id, params } => {
                let mut m = request_envelope_json("tools/call", id);
                push_member(&mut m, "params", params.to_json());
                Json::Object(m)
            },
            McpRequest::ListResources { id } => Json::Object(
                request_envelope_json("resources/list", id),
            ),
            McpRequest::ReadResource { id, params } => {
                let mut m = request_envelope_json("resources/read", id);
                push_member(&mut m, "params", params.to_json());
                Json::Object(m)
            },
        }
    }

    /// Reads a request from a decoded line.
    pub fn from_json(j: &Json) -> (r: Option<McpRequest>)
        ensures
            match r {
                None => decode_request(j@) is None,
                Some(v) => decode_request(j@) == Some(v@),
            },
    {
        let (method, id) = match (j.get_text("method"), j.get("id")) {
            (Some(method), Some(idj)) => match RequestId::from_json(idj) {
                Some(id) => (method.as_str(), id),
                None => {
                    return None;
                },
            },
            _ => {
                return None;
            },
        };
        if same_text(method, "tools/list") {
            return Some(McpRequest::ListTools { id });
        }
        if same_text(method, "resources/list") {
            return Some(McpRequest::ListResources { id });
        }
        let p = match j.get("params") {
            Some(p) => p,
            None => {
                return None;
            },
        };
        if same_text(method, "initialize") {
            match InitializeParams::from_json(p) {
                Some(params) => Some(McpRequest::Initialize { id, params }),
                None => None,
            }
        } else if same_text(method, "tools/call") {
            match CallToolParams::from_json(p) {
                Some(params) => Some(McpRequest::CallTool { id, params }),
                None => None,
            }
        } else if same_text(method, "resources/read") {
            match ReadResourceParams::from_json(p) {
                Some(params) => Some(McpRequest::ReadResource { id, params }),
                None => None,
            }
        } else {
            None
        }
    }
}

/// Reading a request back from its wire shape gives the request itself.
pub proof fn law_request_round_trip(r: McpRequestView)
    ensures
        decode_request(encode_request(r)) == Some(r),
{
    lemma_method_tags_distinct();
    lemma_envelope_keys_distinct();
    reveal_strlit("params");
    reveal_strlit("id");
    reveal_strlit("method");
    assert("params"@.len() == 6 && "params"@[0] == 'p' && "id"@.len() == 2 && "method"@[0] == 'm');
    match r {
        McpRequestView::Initialize { params, .. } => lemma_initialize_params_round_trip(params),
        McpRequestView::CallTool { params, .. } => lemma_call_tool_params_round_trip(params),
        McpRequestView::ReadResource { uri, .. } => {
            reveal_strlit("uri");
        },
        _ => {},
    }
}

/// A one-way message: it gets no response.
#[derive(Clone, Copy, Debug, PartialEq, Eq)]
pub enum McpNotification {
    /// The client has finished initialisation.
    Initialized,
}

pub open spec fn encode_notification(n: McpNotification) -> JsonView {
    JsonView::Object(
        Seq::empty().push(("jsonrpc"@, JsonView::Str("2.0"@))).push(
            ("method"@, JsonView::Str("notifications/initialized"@)),
        ),
    )
}

/// A notification is a method without an id.
pub open spec fn decode_notification(j: JsonView) -> Option<McpNotification> {
    if j.text_field("method"@) == Some("notifications/initialized"@) && j.field("id"@) is None {
        Some(McpNotification::Initialized)
    } else {
        None
    }
}

impl McpNotification {
    pub fn to_json(&self) -> (r: Json)
        ensures
            r@ == encode_notification(*self),
    {
        let mut m = new_members();
        push_member(&mut m, "jsonrpc", Json::text("2.0"));
        push_member(&mut m, "method", Json::text("notifications/initialized"));
        Json::Object(m)
    }

    pub fn from_json(j: &Json) -> (r: Option<McpNotification>)
        ensures
            r == decode_notification(j@),
    {
        match (j.get_text("method"), j.get("id")) {
            (Some(method), None) => {
                if same_text(method.as_str(), "notifications/initialized") {
                    Some(McpNotification::Initialized)
                } else {
                    None
                }
            },
            _ => None,
        }
    }
}

/// Reading a notification back from its wire shape gives the notification itself.
pub proof fn law_notification_round_trip(n: McpNotification)
    ensures
        decode_notification(encode_notification(n)) == Some(n),
{
    lemma_envelope_keys_distinct();
}

} // verus!
