//! The laws that every response of the server obeys, stated over the models
//! that the dispatcher's contracts use, and proved.
use vstd::prelude::*;
use crate::json::{Json, field, member, lemma_member_push, lemma_member_empty};
use crate::protocol::{
    McpResponse, ServerInfo, Tool, error_json, failure_json, response_json, signed_decimal,
    success_json, tool_json, JSONRPC_VERSION, INVALID_PARAMS, METHOD_NOT_FOUND, PARSE_ERROR,
};
use crate::server::{
    Outcome, call_result_json, content_json, has_tool, initialize_json, parse_failure_json,
    request_outcome, tools_list_json,
};

verus! {

/// The member names the laws look up, told apart.
proof fn lemma_names_differ()
    ensures
        "jsonrpc"@ != "result"@,
        "jsonrpc"@ != "error"@,
        "jsonrpc"@ != "id"@,
        "id"@ != "result"@,
        "id"@ != "error"@,
        "result"@ != "error"@,
        "code"@ != "message"@,
        "protocolVersion"@ != "serverInfo"@,
        "capabilities"@ != "serverInfo"@,
        "name"@ != "version"@,
{
    reveal_strlit("jsonrpc");
    reveal_strlit("result");
    reveal_strlit("error");
    reveal_strlit("id");
    reveal_strlit("code");
    reveal_strlit("message");
    reveal_strlit("protocolVersion");
    reveal_strlit("serverInfo");
    reveal_strlit("capabilities");
    reveal_strlit("name");
    reveal_strlit("version");
    assert("jsonrpc"@[0] != "result"@[0]);
    assert("jsonrpc"@[0] != "error"@[0]);
    assert("jsonrpc"@[0] != "id"@[0]);
    assert("id"@[0] != "result"@[0]);
    assert("id"@[0] != "error"@[0]);
    assert("result"@[0] != "error"@[0]);
    assert("code"@[0] != "message"@[0]);
    assert("protocolVersion"@[0] != "serverInfo"@[0]);
    assert("capabilities"@[0] != "serverInfo"@[0]);
    assert("name"@[0] != "version"@[0]);
}

/// Lookups in a successful response: `id` and `result` are there, `error` is not.
proof fn lemma_success_fields(id: Json, result: Json)
    ensures
        field(success_json(id, result), "id"@) == Some(id),
        field(success_json(id, result), "result"@) == Some(result),
        field(success_json(id, result), "error"@) is None,
{
    lemma_names_differ();
    let e = Seq::<(Seq<char>, Json)>::empty();
    let a = ("jsonrpc"@, Json::Str(JSONRPC_VERSION@));
    let b = ("id"@, id);
    let c = ("result"@, result);
    assert(seq![a, b, c] == e.push(a).push(b).push(c));
    lemma_member_empty("id"@);
    lemma_member_empty("result"@);
    lemma_member_empty("error"@);
    lemma_member_push(e, a, "id"@);
    lemma_member_push(e.push(a), b, "id"@);
    lemma_member_push(e.push(a).push(b), c, "id"@);
    lemma_member_push(e, a, "result"@);
    lemma_member_push(e.push(a), b, "result"@);
    lemma_member_push(e.push(a).push(b), c, "result"@);
    lemma_member_push(e, a, "error"@);
    lemma_member_push(e.push(a), b, "error"@);
    lemma_member_push(e.push(a).push(b), c, "error"@);
}

/// Lookups in a failed response: `id` and `error` are there, `result` is not, and the
/// error carries the code and the message.
proof fn lemma_failure_fields(id: Json, code: i32, message: Seq<char>)
    ensures
        field(failure_json(id, code, message), "id"@) == Some(id),
        field(failure_json(id, code, message), "result"@) is None,
        field(failure_json(id, code, message), "error"@) matches Some(err) && {
            &&& field(err, "code"@) == Some(Json::Number(signed_decimal(code as int)))
            &&& field(err, "message"@) == Some(Json::Str(message))
        },
{
    lemma_names_differ();
    let e = Seq::<(Seq<char>, Json)>::empty();
    let inner_a = ("code"@, Json::Number(signed_decimal(code as int)));
    let inner_b = ("message"@, Json::Str(message));
    let err = Json::Object(seq![inner_a, inner_b]);
    let a = ("jsonrpc"@, Json::Str(JSONRPC_VERSION@));
    let b = ("id"@, id);
    let c = ("error"@, err);
    assert(seq![a, b, c] == e.push(a).push(b).push(c));
    assert(seq![inner_a, inner_b] == e.push(inner_a).push(inner_b));
    lemma_member_empty("id"@);
    lemma_member_empty("result"@);
    lemma_member_empty("error"@);
    lemma_member_empty("code"@);
    lemma_member_empty("message"@);
    lemma_member_push(e, a, "id"@);
    lemma_member_push(e.push(a), b, "id"@);
    lemma_member_push(e.push(a).push(b), c, "id"@);
    lemma_member_push(e, a, "result"@);
    lemma_member_push(e.push(a), b, "result"@);
    lemma_member_push(e.push(a).push(b), c, "result"@);
    lemma_member_push(e, a, "error"@);
    lemma_member_push(e.push(a), b, "error"@);
    lemma_member_push(e.push(a).push(b), c, "error"@);
    lemma_member_push(e, inner_a, "code"@);
    lemma_member_push(e.push(inner_a), inner_b, "code"@);
    lemma_member_push(e, inner_a, "message"@);
    lemma_member_push(e.push(inner_a), inner_b, "message"@);
}

/// `initialize` always succeeds, and its `serverInfo` holds the name and version the
/// server was made with; the response has no `error`.
pub proof fn law_initialize_reports_identity(
    info: ServerInfo,
    tools: Seq<Tool>,
    id: Json,
    params: Option<Json>,
)
    ensures
        request_outcome(info, tools, id, "initialize"@, params) matches Outcome::Reply(resp) && {
            &&& field(resp, "error"@) is None
            &&& field(resp, "id"@) == Some(id)
            &&& field(resp, "result"@) matches Some(result) && field(result, "serverInfo"@)
                matches Some(si) && {
                &&& field(si, "name"@) == Some(Json::Str(info.name@))
                &&& field(si, "version"@) == Some(Json::Str(info.version@))
            }
        },
{
    lemma_names_differ();
    let result = initialize_json(info.name@, info.version@);
    lemma_success_fields(id, result);
    let e = Seq::<(Seq<char>, Json)>::empty();
    let a = ("protocolVersion"@, Json::Str(crate::protocol::MCP_VERSION@));
    let b = ("capabilities"@, Json::Object(seq![("tools"@, Json::Object(seq![]))]));
    let si_a = ("name"@, Json::Str(info.name@));
    let si_b = ("version"@, Json::Str(info.version@));
    let c = ("serverInfo"@, Json::Object(seq![si_a, si_b]));
    assert(seq![a, b, c] == e.push(a).push(b).push(c));
    assert(seq![si_a, si_b] == e.push(si_a).push(si_b));
    lemma_member_empty("serverInfo"@);
    lemma_member_empty("name"@);
    lemma_member_empty("version"@);
    lemma_member_push(e, a, "serverInfo"@);
    lemma_member_push(e.push(a), b, "serverInfo"@);
    lemma_member_push(e.push(a).push(b), c, "serverInfo"@);
    lemma_member_push(e, si_a, "name"@);
    lemma_member_push(e.push(si_a), si_b, "name"@);
    lemma_member_push(e, si_a, "version"@);
    lemma_member_push(e.push(si_a), si_b, "version"@);
}

/// A line that is not JSON, or not a request, is answered with a null id and a parse error.
pub proof fn law_parse_failure_answered(detail: Seq<char>)
    ensures
        field(parse_failure_json(detail), "id"@) == Some(Json::Null),
        field(parse_failure_json(detail), "result"@) is None,
        field(parse_failure_json(detail), "error"@) matches Some(err) && field(err, "code"@) == Some(
            Json::Number(signed_decimal(PARSE_ERROR as int)),
        ),
{
    lemma_failure_fields(Json::Null, PARSE_ERROR, "Parse error: "@ + detail);
}

/// `tools/list` lists the catalog: as many entries as tools, each the tool's description,
/// in the catalog's order. It depends on nothing else, so every call gives the same list.
pub proof fn law_tools_list_is_catalog(
    info: ServerInfo,
    tools: Seq<Tool>,
    id: Json,
    params: Option<Json>,
)
    ensures
        request_outcome(info, tools, id, "tools/list"@, params) matches Outcome::Reply(resp) && {
            &&& field(resp, "error"@) is None
            &&& field(resp, "result"@) matches Some(result) && field(result, "tools"@) matches Some(
                Json::Array(listed),
            ) && {
                &&& listed.len() == tools.len()
                &&& forall|i: int| 0 <= i < tools.len() ==> #[trigger] listed[i] == tool_json(tools[i])
            }
        },
{
    reveal_strlit("initialize");
    reveal_strlit("tools/list");
    assert("tools/list"@[0] != "initialize"@[0]);
    let result = tools_list_json(tools);
    lemma_success_fields(id, result);
    let e = Seq::<(Seq<char>, Json)>::empty();
    let a = ("tools"@, crate::protocol::tools_json(tools));
    assert(seq![a] == e.push(a));
    lemma_member_empty("tools"@);
    lemma_member_push(e, a, "tools"@);
}

/// `tools/call` with no parameters, with a name but no arguments, or with a tool that is
/// not registered, is refused with the matching code and message.
pub proof fn law_tool_call_refusals(info: ServerInfo, tools: Seq<Tool>, id: Json, params: Option<Json>)
    ensures
        params is None ==> request_outcome(info, tools, id, "tools/call"@, params) == Outcome::Reply(
            failure_json(id, INVALID_PARAMS, "Missing parameters"@),
        ),
        params matches Some(p) && field(p, "name"@) matches Some(Json::Str(name)) && field(
            p,
            "arguments"@,
        ) is None ==> request_outcome(info, tools, id, "tools/call"@, params) == Outcome::Reply(
            failure_json(id, INVALID_PARAMS, "Missing arguments parameter"@),
        ),
        params matches Some(p) ==> (field(p, "name"@) matches Some(Json::Str(name)) ==> (field(
            p,
            "arguments"@,
        ) is Some && !has_tool(tools, name) ==> request_outcome(info, tools, id, "tools/call"@, params)
            == Outcome::Reply(failure_json(id, METHOD_NOT_FOUND, "Tool '"@ + name + "' not found"@)))),
{
    reveal_strlit("initialize");
    reveal_strlit("tools/list");
    reveal_strlit("tools/call");
    assert("tools/call"@[0] != "initialize"@[0]);
    assert("tools/call"@[6] != "tools/list"@[6]);
}

/// A tool that returns content blocks yields a response whose `result.content` is exactly
/// those blocks, with no `error`.
pub proof fn law_tool_content_returned(id: Json, blocks: Seq<Json>)
    ensures
        field(call_result_json(id, Ok(blocks)), "error"@) is None,
        field(call_result_json(id, Ok(blocks)), "result"@) matches Some(result) && field(
            result,
            "content"@,
        ) == Some(Json::Array(blocks)),
{
    lemma_success_fields(id, content_json(blocks));
    let e = Seq::<(Seq<char>, Json)>::empty();
    let a = ("content"@, Json::Array(blocks));
    assert(seq![a] == e.push(a));
    lemma_member_empty("content"@);
    lemma_member_push(e, a, "content"@);
}

/// A response with exactly one of `result` and `error` is written with exactly one of the
/// two members.
pub proof fn law_exactly_one_outcome(r: McpResponse)
    requires
        r.wf(),
    ensures
        (field(response_json(r), "result"@) is Some) != (field(response_json(r), "error"@) is Some),
{
    lemma_names_differ();
    let e = Seq::<(Seq<char>, Json)>::empty();
    let a = ("jsonrpc"@, Json::Str(r.jsonrpc@));
    let b = ("id"@, r.id@);
    let base = seq![a, b];
    assert(base == e.push(a).push(b));
    lemma_member_empty("result"@);
    lemma_member_empty("error"@);
    lemma_member_push(e, a, "result"@);
    lemma_member_push(e.push(a), b, "result"@);
    lemma_member_push(e, a, "error"@);
    lemma_member_push(e.push(a), b, "error"@);
    match r.result {
        Some(v) => {
            lemma_member_push(base, ("result"@, v@), "result"@);
            lemma_member_push(base, ("result"@, v@), "error"@);
        },
        None => {
            let err = r.error.unwrap();
            lemma_member_push(base, ("error"@, error_json(err)), "result"@);
            lemma_member_push(base, ("error"@, error_json(err)), "error"@);
        },
    }
}

/// Every reply that a request leads to has exactly one of `result` and `error`.
pub proof fn law_replies_have_one_outcome(
    info: ServerInfo,
    tools: Seq<Tool>,
    id: Json,
    method: Seq<char>,
    params: Option<Json>,
)
    ensures
        request_outcome(info, tools, id, method, params) matches Outcome::Reply(resp) ==> (field(
            resp,
            "result"@,
        ) is Some) != (field(resp, "error"@) is Some),
{
    let out = request_outcome(info, tools, id, method, params);
    if method == "initialize"@ {
        lemma_success_fields(id, initialize_json(info.name@, info.version@));
    } else if method == "tools/list"@ {
        lemma_success_fields(id, tools_list_json(tools));
    } else if method == "tools/call"@ {
        lemma_failure_fields(id, INVALID_PARAMS, "Missing parameters"@);
        lemma_failure_fields(id, INVALID_PARAMS, "Missing name parameter"@);
        lemma_failure_fields(id, INVALID_PARAMS, "Missing arguments parameter"@);
        if let Some(p) = params {
            if let Some(Json::Str(name)) = field(p, "name"@) {
                lemma_failure_fields(id, METHOD_NOT_FOUND, "Tool '"@ + name + "' not found"@);
            }
        }
    } else {
        lemma_failure_fields(id, METHOD_NOT_FOUND, "Method not found: "@ + method);
    }
}

/// The response to a tool's outcome has exactly one of `result` and `error`.
pub proof fn law_call_results_have_one_outcome(id: Json, outcome: Result<Seq<Json>, Seq<char>>)
    ensures
        (field(call_result_json(id, outcome), "result"@) is Some) != (field(
            call_result_json(id, outcome),
            "error"@,
        ) is Some),
{
    match outcome {
        Ok(blocks) => lemma_success_fields(id, content_json(blocks)),
        Err(m) => lemma_failure_fields(id, crate::protocol::TOOL_ERROR, m),
    }
}

} // verus!
