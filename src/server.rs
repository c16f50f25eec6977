//! The request dispatcher: a pure map from a request to a response, or to the
//! tool invocation that the response waits on.
use vstd::prelude::*;
use crate::json::{Json, JsonValue, field, opt_view, views, member_views, lemma_object_view, lemma_array_view};
use crate::protocol::{
    Capabilities, McpRequest, McpResponse, ServerInfo, Tool, decode_problem, decode_request, failure_json, is_request, response_json,
    success_json, tool_json, tools_json, INVALID_PARAMS, MCP_VERSION, METHOD_NOT_FOUND, PARSE_ERROR,
    TOOL_ERROR,
};
use crate::text::{join2, join3, text_eq};

verus! {

/// What the tool registry offers: its catalog. Invoking a tool may wait on the
/// network, so the caller does that, and hands the outcome back with
/// `McpServer::complete_tool_call`.
pub trait ToolHandler {
    /// The tools on offer, in the order they were registered.
    fn get_tools(&self) -> Vec<Tool>;
}

/// A tool invocation that a `tools/call` request asks for.
pub struct ToolCall {
    /// The id of the request, for the response.
    pub id: JsonValue,
    pub name: String,
    /// Passed to the tool as it came.
    pub arguments: JsonValue,
}

/// What handling a request leads to.
pub enum Dispatch {
    /// The response, ready to be written.
    Reply(McpResponse),
    /// A registered tool must run first; its outcome makes the response.
    Invoke(ToolCall),
}

/// The model of what handling a request leads to.
pub enum Outcome {
    Reply(Json),
    Invoke { id: Json, name: Seq<char>, arguments: Json },
}

/// The model of a dispatch: the JSON of a reply, or the view of a tool call.
pub open spec fn dispatch_view(d: Dispatch) -> Outcome {
    match d {
        Dispatch::Reply(r) => Outcome::Reply(response_json(r)),
        Dispatch::Invoke(c) => Outcome::Invoke { id: c.id@, name: c.name@, arguments: c.arguments@ },
    }
}

/// A dispatch whose reply, if any, has exactly one of `result` and `error`.
pub open spec fn dispatch_wf(d: Dispatch) -> bool {
    d matches Dispatch::Reply(r) ==> r.wf()
}

/// The result of `initialize`.
pub open spec fn initialize_json(name: Seq<char>, version: Seq<char>) -> Json {
    Json::Object(
        seq![
            ("protocolVersion"@, Json::Str(MCP_VERSION@)),
            ("capabilities"@, Json::Object(seq![("tools"@, Json::Object(seq![]))])),
            ("serverInfo"@, Json::Object(seq![("name"@, Json::Str(name)), ("version"@, Json::Str(version))])),
        ],
    )
}

/// The result of `tools/list`.
pub open spec fn tools_list_json(tools: Seq<Tool>) -> Json {
    Json::Object(seq![("tools"@, tools_json(tools))])
}

/// The result of a tool that succeeded with `blocks`.
pub open spec fn content_json(blocks: Seq<Json>) -> Json {
    Json::Object(seq![("content"@, Json::Array(blocks))])
}

/// Whether a tool of that name is registered.
pub open spec fn has_tool(tools: Seq<Tool>, name: Seq<char>) -> bool {
    exists|i: int| 0 <= i < tools.len() && (#[trigger] tools[i]).name@ == name
}

/// What `tools/call` leads to. The checks come in this order: parameters present,
/// a string `name`, `arguments` present, a registered tool of that name.
pub open spec fn call_outcome(id: Json, params: Option<Json>, tools: Seq<Tool>) -> Outcome {
    match params {
        None => Outcome::Reply(failure_json(id, INVALID_PARAMS, "Missing parameters"@)),
        Some(p) => match field(p, "name"@) {
            Some(Json::Str(name)) => match field(p, "arguments"@) {
                Some(args) => if has_tool(tools, name) {
                    Outcome::Invoke { id, name, arguments: args }
                } else {
                    Outcome::Reply(failure_json(id, METHOD_NOT_FOUND, "Tool '"@ + name + "' not found"@))
                },
                None => Outcome::Reply(failure_json(id, INVALID_PARAMS, "Missing arguments parameter"@)),
            },
            _ => Outcome::Reply(failure_json(id, INVALID_PARAMS, "Missing name parameter"@)),
        },
    }
}

/// What a request leads to, by its method.
pub open spec fn request_outcome(
    info: ServerInfo,
    tools: Seq<Tool>,
    id: Json,
    method: Seq<char>,
    params: Option<Json>,
) -> Outcome {
    if method == "initialize"@ {
        Outcome::Reply(success_json(id, initialize_json(info.name@, info.version@)))
    } else if method == "tools/list"@ {
        Outcome::Reply(success_json(id, tools_list_json(tools)))
    } else if method == "tools/call"@ {
        call_outcome(id, params, tools)
    } else {
        Outcome::Reply(failure_json(id, METHOD_NOT_FOUND, "Method not found: "@ + method))
    }
}

/// The response to a tool's outcome: its content blocks, or its error text.
pub open spec fn call_result_json(id: Json, outcome: Result<Seq<Json>, Seq<char>>) -> Json {
    match outcome {
        Ok(blocks) => success_json(id, content_json(blocks)),
        Err(message) => failure_json(id, TOOL_ERROR, message),
    }
}

/// The response to a line that could not be read as a request.
pub open spec fn parse_failure_json(detail: Seq<char>) -> Json {
    failure_json(Json::Null, PARSE_ERROR, "Parse error: "@ + detail)
}

impl ServerInfo {
    /// A copy of this identity.
    pub fn duplicate(&self) -> (r: ServerInfo)
        ensures
            r.name@ == self.name@,
            r.version@ == self.version@,
    {
        ServerInfo { name: self.name.clone(), version: self.version.clone() }
    }

    /// The JSON form: `{"name", "version"}`.
    pub fn into_json(self) -> (r: JsonValue)
        ensures
            r@ == Json::Object(seq![("name"@, Json::Str(self.name@)), ("version"@, Json::Str(self.version@))]),
    {
        let ghost old = self;
        let mut members: Vec<(String, JsonValue)> = Vec::new();
        members.push((String::from_str("name"), JsonValue::Str(self.name)));
        members.push((String::from_str("version"), JsonValue::Str(self.version)));
        let r = JsonValue::Object(members);
        proof {
            lemma_object_view(r);
            assert(member_views(members@) =~= seq![("name"@, Json::Str(old.name@)), ("version"@, Json::Str(old.version@))]);
        }
        r
    }
}

/// An empty JSON object.
pub fn empty_object() -> (r: JsonValue)
    ensures
        r@ == Json::Object(seq![]),
{
    let members: Vec<(String, JsonValue)> = Vec::new();
    let r = JsonValue::Object(members);
    proof {
        lemma_object_view(r);
        assert(member_views(members@) =~= seq![]);
    }
    r
}

/// The JSON form of the capabilities: the members that are present, in order.
pub open spec fn capabilities_json(c: Capabilities) -> Json {
    let a = match c.tools {
        Some(t) => seq![("tools"@, t@)],
        None => seq![],
    };
    let b = match c.resources {
        Some(t) => a.push(("resources"@, t@)),
        None => a,
    };
    let d = match c.prompts {
        Some(t) => b.push(("prompts"@, t@)),
        None => b,
    };
    Json::Object(d)
}

impl Capabilities {
    /// The JSON form, leaving out the capabilities that are absent.
    pub fn into_json(self) -> (r: JsonValue)
        ensures
            r@ == capabilities_json(self),
    {
        let ghost old = self;
        let mut members: Vec<(String, JsonValue)> = Vec::new();
        match self.tools {
            Some(t) => members.push((String::from_str("tools"), t)),
            None => {},
        }
        let ghost a = member_views(members@);
        match self.resources {
            Some(t) => members.push((String::from_str("resources"), t)),
            None => {},
        }
        let ghost b = member_views(members@);
        match self.prompts {
            Some(t) => members.push((String::from_str("prompts"), t)),
            None => {},
        }
        let r = JsonValue::Object(members);
        proof {
            lemma_object_view(r);
            match old.tools {
                Some(t) => assert(a =~= seq![("tools"@, t@)]),
                None => assert(a =~= seq![]),
            }
            match old.resources {
                Some(t) => assert(b =~= a.push(("resources"@, t@))),
                None => assert(b =~= a),
            }
            match old.prompts {
                Some(t) => assert(member_views(members@) =~= b.push(("prompts"@, t@))),
                None => assert(member_views(members@) =~= b),
            }
        }
        r
    }
}

/// An MCP server over a tool registry. Its identity and catalog are fixed when it is made:
/// the catalog is what the registry's `get_tools` returned then.
pub struct McpServer<T: ToolHandler> {
    pub server_info: ServerInfo,
    /// The registry's catalog, read once.
    pub tools: Vec<Tool>,
    pub tool_handler: T,
}

impl<T: ToolHandler> McpServer<T> {
    /// A server named `name` at `version`, offering the tools of `tool_handler`.
    pub fn new(name: &str, version: &str, tool_handler: T) -> (r: Self)
        ensures
            r.server_info.name@ == name@,
            r.server_info.version@ == version@,
            r.tool_handler == tool_handler,
            call_ensures(T::get_tools, (&tool_handler,), r.tools),
    {
        let tools = tool_handler.get_tools();
        McpServer {
            server_info: ServerInfo { name: String::from_str(name), version: String::from_str(version) },
            tools,
            tool_handler,
        }
    }

    /// What handling `req` leads to.
    pub open spec fn expected(&self, req: McpRequest) -> Outcome {
        request_outcome(self.server_info, self.tools@, req.id@, req.method@, opt_view(req.params))
    }

    /// Handles one request. `initialize`, `tools/list`, unknown methods and malformed
    /// `tools/call` requests are answered at once; a well-formed call of a registered tool
    /// comes back as the invocation to perform.
    pub fn handle_request(&self, request: McpRequest) -> (r: Dispatch)
        ensures
            dispatch_view(r) == self.expected(request),
            dispatch_wf(r),
    {
        let ghost req = request;
        let id = request.id;
        if text_eq(request.method.as_str(), "initialize") {
            Dispatch::Reply(self.handle_initialize(id))
        } else if text_eq(request.method.as_str(), "tools/list") {
            Dispatch::Reply(self.handle_tools_list(id))
        } else if text_eq(request.method.as_str(), "tools/call") {
            self.handle_tools_call(id, request.params)
        } else {
            let message = join2("Method not found: ", request.method.as_str());
            Dispatch::Reply(McpResponse::failure(id, METHOD_NOT_FOUND, message))
        }
    }

    /// The response to `initialize`.
    pub fn handle_initialize(&self, id: JsonValue) -> (r: McpResponse)
        ensures
            r.wf(),
            response_json(r) == success_json(id@, initialize_json(self.server_info.name@, self.server_info.version@)),
    {
        let caps = Capabilities { tools: Some(empty_object()), resources: None, prompts: None };
        let caps_json = caps.into_json();
        let info = self.server_info.duplicate().into_json();
        let mut members: Vec<(String, JsonValue)> = Vec::new();
        members.push((String::from_str("protocolVersion"), JsonValue::text(MCP_VERSION)));
        members.push((String::from_str("capabilities"), caps_json));
        members.push((String::from_str("serverInfo"), info));
        let ghost ms = member_views(members@);
        let result = JsonValue::Object(members);
        proof {
            lemma_object_view(result);
            assert(capabilities_json(caps)->Object_0 =~= seq![("tools"@, Json::Object(seq![]))]);
            assert(ms =~= initialize_json(self.server_info.name@, self.server_info.version@)->Object_0);
        }
        McpResponse::success(id, result)
    }

    /// The response to `tools/list`: the catalog, in order.
    pub fn handle_tools_list(&self, id: JsonValue) -> (r: McpResponse)
        ensures
            r.wf(),
            response_json(r) == success_json(id@, tools_list_json(self.tools@)),
    {
        let mut items: Vec<JsonValue> = Vec::new();
        let mut i: usize = 0;
        while i < self.tools.len()
            invariant
                i <= self.tools@.len(),
                items@.len() == i,
                forall|j: int| 0 <= j < i ==> (#[trigger] items@[j])@ == tool_json(self.tools@[j]),
            decreases self.tools@.len() - i,
        {
            let t = self.tools[i].duplicate().into_json();
            items.push(t);
            i = i + 1;
        }
        let list = JsonValue::Array(items);
        proof {
            lemma_array_view(list);
            assert(views(items@) =~= self.tools@.map_values(|t: Tool| tool_json(t)));
        }
        let mut members: Vec<(String, JsonValue)> = Vec::new();
        members.push((String::from_str("tools"), list));
        let result = JsonValue::Object(members);
        proof {
            lemma_object_view(result);
            assert(member_views(members@) =~= seq![("tools"@, tools_json(self.tools@))]);
        }
        McpResponse::success(id, result)
    }

    /// Whether a tool named `name` is in the catalog.
    pub fn has_tool(&self, name: &str) -> (r: bool)
        ensures
            r == has_tool(self.tools@, name@),
    {
        let mut i: usize = 0;
        while i < self.tools.len()
            invariant
                i <= self.tools@.len(),
                forall|j: int| 0 <= j < i ==> (#[trigger] self.tools@[j]).name@ != name@,
            decreases self.tools@.len() - i,
        {
            if text_eq(self.tools[i].name.as_str(), name) {
                return true;
            }
            i = i + 1;
        }
        false
    }

    /// Handles `tools/call`: checks the parameters and the tool's name.
    pub fn handle_tools_call(&self, id: JsonValue, params: Option<JsonValue>) -> (r: Dispatch)
        ensures
            dispatch_view(r) == call_outcome(id@, opt_view(params), self.tools@),
            dispatch_wf(r),
    {
        proof {
            reveal_strlit("Missing parameters");
            reveal_strlit("Missing name parameter");
            reveal_strlit("Missing arguments parameter");
        }
        let p = match params {
            None => {
                let m = String::from_str("Missing parameters");
                return Dispatch::Reply(McpResponse::failure(id, INVALID_PARAMS, m));
            },
            Some(p) => p,
        };
        let name = match p.get("name") {
            Some(n) => match n.as_str() {
                Some(s) => s.clone(),
                None => {
                    let m = String::from_str("Missing name parameter");
                    return Dispatch::Reply(McpResponse::failure(id, INVALID_PARAMS, m));
                },
            },
            None => {
                let m = String::from_str("Missing name parameter");
                return Dispatch::Reply(McpResponse::failure(id, INVALID_PARAMS, m));
            },
        };
        let arguments = match p.get("arguments") {
            Some(a) => a.deep_copy(),
            None => {
                let m = String::from_str("Missing arguments parameter");
                return Dispatch::Reply(McpResponse::failure(id, INVALID_PARAMS, m));
            },
        };
        if self.has_tool(name.as_str()) {
            Dispatch::Invoke(ToolCall { id, name, arguments })
        } else {
            let m = join3("Tool '", name.as_str(), "' not found");
            Dispatch::Reply(McpResponse::failure(id, METHOD_NOT_FOUND, m))
        }
    }

    /// The response to a tool's outcome: its content blocks under `content`, or its
    /// error text as the message of a tool error.
    pub fn complete_tool_call(call_id: JsonValue, outcome: Result<Vec<JsonValue>, String>) -> (r: McpResponse)
        ensures
            r.wf(),
            response_json(r) == call_result_json(
                call_id@,
                match outcome {
                    Ok(blocks) => Ok(views(blocks@)),
                    Err(m) => Err(m@),
                },
            ),
    {
        match outcome {
            Ok(blocks) => {
                let list = JsonValue::Array(blocks);
                proof {
                    lemma_array_view(list);
                }
                let mut members: Vec<(String, JsonValue)> = Vec::new();
                members.push((String::from_str("content"), list));
                let result = JsonValue::Object(members);
                proof {
                    lemma_object_view(result);
                    assert(member_views(members@) =~= seq![("content"@, Json::Array(views(blocks@)))]);
                }
                McpResponse::success(call_id, result)
            },
            Err(message) => McpResponse::failure(call_id, TOOL_ERROR, message),
        }
    }

    /// Handles a line once it has been parsed: `Err` holds why the text was not JSON.
    /// A value that is no request is answered as a parse error too, with a null id.
    pub fn handle_parsed(&self, parsed: Result<JsonValue, String>) -> (r: Dispatch)
        ensures
            dispatch_wf(r),
            match parsed {
                Err(detail) => dispatch_view(r) == Outcome::Reply(parse_failure_json(detail@)),
                Ok(v) => if is_request(v@) {
                    dispatch_view(r) == request_outcome(
                        self.server_info,
                        self.tools@,
                        field(v@, "id"@).unwrap(),
                        field(v@, "method"@).unwrap()->Str_0,
                        crate::protocol::params_of(v@),
                    )
                } else {
                    dispatch_view(r) == Outcome::Reply(parse_failure_json(decode_problem(v@)))
                },
            },
    {
        match parsed {
            Err(detail) => {
                let m = join2("Parse error: ", detail.as_str());
                Dispatch::Reply(McpResponse::failure(JsonValue::Null, PARSE_ERROR, m))
            },
            Ok(v) => match decode_request(&v) {
                Ok(request) => self.handle_request(request),
                Err(e) => {
                    let detail = e.message();
                    let m = join2("Parse error: ", detail.as_str());
                    Dispatch::Reply(McpResponse::failure(JsonValue::Null, PARSE_ERROR, m))
                },
            },
        }
    }
}

} // verus!
