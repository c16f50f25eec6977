//! The wire messages of JSON-RPC 2.0 as the Model Context Protocol uses them,
//! and how they are read from and written as JSON values.
use vstd::prelude::*;
use crate::json::{Json, JsonValue, field, opt_view, member_views, lemma_object_view};
use crate::text::{decimal, decimal_text, join2};

verus! {

/// The protocol revision announced by `initialize`.
pub const MCP_VERSION: &'static str = "2024-11-05";

/// The JSON-RPC version tag of every message.
pub const JSONRPC_VERSION: &'static str = "2.0";

/// The line was not valid JSON, or not a request.
pub const PARSE_ERROR: i32 = -32700;

/// The method, or the tool, is unknown.
pub const METHOD_NOT_FOUND: i32 = -32601;

/// A required parameter is missing.
pub const INVALID_PARAMS: i32 = -32602;

/// The server failed while handling the request.
pub const INTERNAL_ERROR: i32 = -32603;

/// The tool itself reported a failure.
pub const TOOL_ERROR: i32 = -1;

/// A request: `{"jsonrpc", "id", "method", "params"?}`.
pub struct McpRequest {
    pub jsonrpc: String,
    /// Echoed back unchanged; never read.
    pub id: JsonValue,
    pub method: String,
    pub params: Option<JsonValue>,
}

/// The error member of a response.
pub struct McpErrorResponse {
    pub code: i32,
    pub message: String,
    pub data: Option<JsonValue>,
}

/// A response: `{"jsonrpc", "id", "result"?, "error"?}`.
pub struct McpResponse {
    pub jsonrpc: String,
    pub id: JsonValue,
    pub result: Option<JsonValue>,
    pub error: Option<McpErrorResponse>,
}

/// A tool that the server offers.
pub struct Tool {
    pub name: String,
    pub description: String,
    pub input_schema: JsonValue,
}

/// The name and version the server reports about itself.
pub struct ServerInfo {
    pub name: String,
    pub version: String,
}

/// The capabilities announced by `initialize`; absent ones are left out.
pub struct Capabilities {
    pub tools: Option<JsonValue>,
    pub resources: Option<JsonValue>,
    pub prompts: Option<JsonValue>,
}

/// A failure that ends the server: reading or writing a stream, encoding a message,
/// or an error of the protocol or of a tool. Each carries a description.
pub enum McpError {
    Io(String),
    Json(String),
    Protocol(String),
    Tool(String),
}

impl McpError {
    /// The text of this error, as it is shown to a user.
    pub fn message(&self) -> (r: String)
        ensures
            r@ == match *self {
                McpError::Io(t) => "IO error: "@ + t@,
                McpError::Json(t) => "JSON error: "@ + t@,
                McpError::Protocol(t) => "Protocol error: "@ + t@,
                McpError::Tool(t) => "Tool error: "@ + t@,
            },
    {
        match self {
            McpError::Io(t) => join2("IO error: ", t.as_str()),
            McpError::Json(t) => join2("JSON error: ", t.as_str()),
            McpError::Protocol(t) => join2("Protocol error: ", t.as_str()),
            McpError::Tool(t) => join2("Tool error: ", t.as_str()),
        }
    }
}

/// Why a JSON value is not a request.
pub enum DecodeError {
    NotAnObject,
    MissingField(String),
    NotAString(String),
}

/// The decimal numeral of an integer, with a minus sign when negative.
pub open spec fn signed_decimal(i: int) -> Seq<char> {
    if i < 0 {
        seq!['-'] + decimal((-i) as nat)
    } else {
        decimal(i as nat)
    }
}

/// The decimal numeral of `n`, with a minus sign when negative.
pub fn signed_decimal_text(n: i32) -> (r: String)
    ensures
        r@ == signed_decimal(n as int),
{
    if n < 0 {
        let m: u64 = (0i64 - n as i64) as u64;
        let d = decimal_text(m);
        proof {
            reveal_strlit("-");
        }
        join2("-", d.as_str())
    } else {
        decimal_text(n as u64)
    }
}

/// The JSON form of an error member.
pub open spec fn error_json(e: McpErrorResponse) -> Json {
    let base = seq![
        ("code"@, Json::Number(signed_decimal(e.code as int))),
        ("message"@, Json::Str(e.message@)),
    ];
    match e.data {
        Some(d) => Json::Object(base.push(("data"@, d@))),
        None => Json::Object(base),
    }
}

/// The JSON form of a response: absent members are left out, not written as null.
pub open spec fn response_json(r: McpResponse) -> Json {
    let base = seq![("jsonrpc"@, Json::Str(r.jsonrpc@)), ("id"@, r.id@)];
    let with_result = match r.result {
        Some(v) => base.push(("result"@, v@)),
        None => base,
    };
    match r.error {
        Some(e) => Json::Object(with_result.push(("error"@, error_json(e)))),
        None => Json::Object(with_result),
    }
}

/// The JSON of a successful response.
pub open spec fn success_json(id: Json, result: Json) -> Json {
    Json::Object(seq![("jsonrpc"@, Json::Str(JSONRPC_VERSION@)), ("id"@, id), ("result"@, result)])
}

/// The JSON of a failed response, with no data member.
pub open spec fn failure_json(id: Json, code: i32, message: Seq<char>) -> Json {
    Json::Object(
        seq![
            ("jsonrpc"@, Json::Str(JSONRPC_VERSION@)),
            ("id"@, id),
            (
                "error"@,
                Json::Object(
                    seq![("code"@, Json::Number(signed_decimal(code as int))), ("message"@, Json::Str(message))],
                ),
            ),
        ],
    )
}

/// The JSON form of a tool description.
pub open spec fn tool_json(t: Tool) -> Json {
    Json::Object(
        seq![
            ("name"@, Json::Str(t.name@)),
            ("description"@, Json::Str(t.description@)),
            ("inputSchema"@, t.input_schema@),
        ],
    )
}

/// The JSON form of a list of tools, in their order.
pub open spec fn tools_json(tools: Seq<Tool>) -> Json {
    Json::Array(tools.map_values(|t: Tool| tool_json(t)))
}

/// Whether a value has the fields a request needs.
pub open spec fn is_request(v: Json) -> bool {
    &&& v is Object
    &&& field(v, "jsonrpc"@) matches Some(Json::Str(_))
    &&& field(v, "id"@) is Some
    &&& field(v, "method"@) matches Some(Json::Str(_))
}

/// The parameters of a request value: a missing or null member counts as none.
pub open spec fn params_of(v: Json) -> Option<Json> {
    match field(v, "params"@) {
        Some(Json::Null) => None,
        other => other,
    }
}

/// The text of a missing member.
pub open spec fn missing_text(name: Seq<char>) -> Seq<char> {
    "missing field `"@ + name + "`"@
}

/// The text of a member that should be a string.
pub open spec fn not_string_text(name: Seq<char>) -> Seq<char> {
    "invalid type for `"@ + name + "`: expected a string"@
}

/// Why a value is not a request, checking `jsonrpc`, `id` and `method` in that order.
pub open spec fn decode_problem(v: Json) -> Seq<char> {
    if !(v is Object) {
        "expected a JSON object"@
    } else if field(v, "jsonrpc"@) is None {
        missing_text("jsonrpc"@)
    } else if !(field(v, "jsonrpc"@) matches Some(Json::Str(_))) {
        not_string_text("jsonrpc"@)
    } else if field(v, "id"@) is None {
        missing_text("id"@)
    } else if field(v, "method"@) is None {
        missing_text("method"@)
    } else {
        not_string_text("method"@)
    }
}

/// The text of a decoding error.
pub open spec fn decode_error_text(e: DecodeError) -> Seq<char> {
    match e {
        DecodeError::NotAnObject => "expected a JSON object"@,
        DecodeError::MissingField(n) => missing_text(n@),
        DecodeError::NotAString(n) => not_string_text(n@),
    }
}

/// Reads a request out of a JSON value. `jsonrpc` and `method` must be strings and `id`
/// must be present; `params` is optional, and null counts as absent. Other members are
/// ignored. Nothing is converted or coerced.
pub fn decode_request(v: &JsonValue) -> (r: Result<McpRequest, DecodeError>)
    ensures
        r is Ok <==> is_request(v@),
        r matches Ok(req) ==> {
            &&& field(v@, "jsonrpc"@) == Some(Json::Str(req.jsonrpc@))
            &&& field(v@, "id"@) == Some(req.id@)
            &&& field(v@, "method"@) == Some(Json::Str(req.method@))
            &&& opt_view(req.params) == params_of(v@)
        },
        r matches Err(e) ==> decode_error_text(e) == decode_problem(v@),
{
    if !(v matches JsonValue::Object(_)) {
        return Err(DecodeError::NotAnObject);
    }
    let jsonrpc = match v.get("jsonrpc") {
        None => return Err(DecodeError::MissingField(String::from_str("jsonrpc"))),
        Some(j) => match j.as_str() {
            None => return Err(DecodeError::NotAString(String::from_str("jsonrpc"))),
            Some(s) => s.clone(),
        },
    };
    let id = match v.get("id") {
        None => return Err(DecodeError::MissingField(String::from_str("id"))),
        Some(i) => i.deep_copy(),
    };
    let method = match v.get("method") {
        None => return Err(DecodeError::MissingField(String::from_str("method"))),
        Some(m) => match m.as_str() {
            None => return Err(DecodeError::NotAString(String::from_str("method"))),
            Some(s) => s.clone(),
        },
    };
    let params = match v.get("params") {
        None => None,
        Some(p) => match p {
            JsonValue::Null => None,
            _ => Some(p.deep_copy()),
        },
    };
    Ok(McpRequest { jsonrpc, id, method, params })
}

impl DecodeError {
    /// A one-line description of the problem.
    pub fn message(&self) -> (r: String)
        ensures
            r@ == decode_error_text(*self),
    {
        match self {
            DecodeError::NotAnObject => String::from_str("expected a JSON object"),
            DecodeError::MissingField(name) => crate::text::join3("missing field `", name.as_str(), "`"),
            DecodeError::NotAString(name) => crate::text::join3(
                "invalid type for `",
                name.as_str(),
                "`: expected a string",
            ),
        }
    }
}

impl McpErrorResponse {
    /// An error member with no data.
    pub fn new(code: i32, message: String) -> (r: McpErrorResponse)
        ensures
            r.code == code,
            r.message@ == message@,
            r.data is None,
    {
        McpErrorResponse { code, message, data: None }
    }

    /// The JSON form of this error member.
    pub fn into_json(self) -> (r: JsonValue)
        ensures
            r@ == error_json(self),
    {
        let ghost old = self;
        let mut members: Vec<(String, JsonValue)> = Vec::new();
        members.push((String::from_str("code"), JsonValue::Number(signed_decimal_text(self.code))));
        members.push((String::from_str("message"), JsonValue::Str(self.message)));
        match self.data {
            Some(d) => {
                members.push((String::from_str("data"), d));
            },
            None => {},
        }
        let r = JsonValue::Object(members);
        proof {
            lemma_object_view(r);
            let base = seq![
                ("code"@, Json::Number(signed_decimal(old.code as int))),
                ("message"@, Json::Str(old.message@)),
            ];
            match old.data {
                Some(d) => assert(member_views(members@) =~= base.push(("data"@, d@))),
                None => assert(member_views(members@) =~= base),
            }
        }
        r
    }
}

impl McpResponse {
    /// Exactly one of `result` and `error` is present.
    pub open spec fn wf(&self) -> bool {
        self.result is Some != self.error is Some
    }

    /// A successful response.
    pub fn success(id: JsonValue, result: JsonValue) -> (r: McpResponse)
        ensures
            r.wf(),
            response_json(r) == success_json(id@, result@),
    {
        let r = McpResponse {
            jsonrpc: String::from_str(JSONRPC_VERSION),
            id,
            result: Some(result),
            error: None,
        };
        assert(seq![("jsonrpc"@, Json::Str(r.jsonrpc@)), ("id"@, r.id@)].push(("result"@, result@)) =~= seq![
            ("jsonrpc"@, Json::Str(JSONRPC_VERSION@)),
            ("id"@, id@),
            ("result"@, result@),
        ]);
        r
    }

    /// A failed response, with no data.
    pub fn failure(id: JsonValue, code: i32, message: String) -> (r: McpResponse)
        ensures
            r.wf(),
            response_json(r) == failure_json(id@, code, message@),
    {
        let ghost idv = id@;
        let r = McpResponse {
            jsonrpc: String::from_str(JSONRPC_VERSION),
            id,
            result: None,
            error: Some(McpErrorResponse::new(code, message)),
        };
        assert(seq![("jsonrpc"@, Json::Str(r.jsonrpc@)), ("id"@, r.id@)].push(("error"@, error_json(r.error.unwrap()))) =~= seq![
            ("jsonrpc"@, Json::Str(JSONRPC_VERSION@)),
            ("id"@, idv),
            (
                "error"@,
                Json::Object(
                    seq![("code"@, Json::Number(signed_decimal(code as int))), ("message"@, Json::Str(message@))],
                ),
            ),
        ]);
        r
    }

    /// The JSON form of this response, ready to be written as one line.
    pub fn into_json(self) -> (r: JsonValue)
        ensures
            r@ == response_json(self),
    {
        let ghost old = self;
        let mut members: Vec<(String, JsonValue)> = Vec::new();
        members.push((String::from_str("jsonrpc"), JsonValue::Str(self.jsonrpc)));
        members.push((String::from_str("id"), self.id));
        let ghost base = member_views(members@);
        match self.result {
            Some(v) => {
                members.push((String::from_str("result"), v));
            },
            None => {},
        }
        let ghost with_result = member_views(members@);
        match self.error {
            Some(e) => {
                let ej = e.into_json();
                members.push((String::from_str("error"), ej));
            },
            None => {},
        }
        let r = JsonValue::Object(members);
        proof {
            lemma_object_view(r);
            assert(base =~= seq![("jsonrpc"@, Json::Str(old.jsonrpc@)), ("id"@, old.id@)]);
            match old.result {
                Some(v) => assert(with_result =~= base.push(("result"@, v@))),
                None => assert(with_result =~= base),
            }
            match old.error {
                Some(e) => assert(member_views(members@) =~= with_result.push(("error"@, error_json(e)))),
                None => assert(member_views(members@) =~= with_result),
            }
        }
        r
    }
}

impl Tool {
    /// A copy of this tool description.
    pub fn duplicate(&self) -> (r: Tool)
        ensures
            r.name@ == self.name@,
            r.description@ == self.description@,
            r.input_schema@ == self.input_schema@,
    {
        Tool {
            name: self.name.clone(),
            description: self.description.clone(),
            input_schema: self.input_schema.deep_copy(),
        }
    }

    /// The JSON form of this tool description.
    pub fn into_json(self) -> (r: JsonValue)
        ensures
            r@ == tool_json(self),
    {
        let ghost old = self;
        let mut members: Vec<(String, JsonValue)> = Vec::new();
        members.push((String::from_str("name"), JsonValue::Str(self.name)));
        members.push((String::from_str("description"), JsonValue::Str(self.description)));
        members.push((String::from_str("inputSchema"), self.input_schema));
        let r = JsonValue::Object(members);
        proof {
            lemma_object_view(r);
            assert(member_views(members@) =~= seq![
                ("name"@, Json::Str(old.name@)),
                ("description"@, Json::Str(old.description@)),
                ("inputSchema"@, old.input_schema@),
            ]);
        }
        r
    }
}

} // verus!
