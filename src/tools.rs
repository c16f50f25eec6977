//! The Kagi tools: their catalog, how a call's arguments become an API request,
//! and how a batch of searches proceeds.
use vstd::prelude::*;
use crate::format::{format_search_results, search_failure, search_results_text};
use crate::json::{
    Json, JsonValue, field, views, member_views, lemma_object_view, lemma_array_view, lemma_member_push,
    lemma_member_empty,
};
use crate::kagi::{EnrichType, Error, SearchResponse, SummarizerEngine, SummaryType, error_text};
use crate::protocol::{Tool, tool_json};
use crate::server::ToolHandler;
use crate::text::{join3, text_eq};

verus! {

pub const SEARCH_TOOL: &'static str = "kagi_search_fetch";
pub const SUMMARIZER_TOOL: &'static str = "kagi_summarizer";
pub const FASTGPT_TOOL: &'static str = "kagi_fastgpt";
pub const ENRICH_WEB_TOOL: &'static str = "kagi_enrich_web";
pub const ENRICH_NEWS_TOOL: &'static str = "kagi_enrich_news";

pub const SEARCH_DESCRIPTION: &'static str = "Fetch web results based on one or more queries using the Kagi Search API. Use for general search and when the user explicitly tells you to 'fetch' results/information. Results are from all queries given. They are numbered continuously, so that a user may be able to refer to a result by a specific number.";
pub const SUMMARIZER_DESCRIPTION: &'static str = "Summarize content from a URL using the Kagi Summarizer API. The Summarizer can summarize any document type (text webpage, video, audio, etc.)";
pub const FASTGPT_DESCRIPTION: &'static str = "Generate AI-powered answers to questions using the Kagi FastGPT API. This tool performs web searches automatically to provide well-referenced, up-to-date responses. Use for direct questions that need AI-generated answers with citations.";
pub const ENRICH_WEB_DESCRIPTION: &'static str = "Find non-commercial, 'small web' content and discussions using Kagi's Web Enrichment API. Great for discovering unique websites and content that might not appear in regular search results.";
pub const ENRICH_NEWS_DESCRIPTION: &'static str = "Find non-mainstream news sources and discussions using Kagi's News Enrichment API. Useful for discovering alternative perspectives and news coverage.";

/// The number of results asked of each search.
pub const SEARCH_LIMIT: u32 = 10;

/// `{"type": kind, "description": description}`.
pub open spec fn prop_json(kind: Seq<char>, description: Seq<char>) -> Json {
    Json::Object(seq![("type"@, Json::Str(kind)), ("description"@, Json::Str(description))])
}

/// An object schema with these properties and one required property.
pub open spec fn schema_json(properties: Seq<(Seq<char>, Json)>, required: Seq<char>) -> Json {
    Json::Object(
        seq![
            ("type"@, Json::Str("object"@)),
            ("properties"@, Json::Object(properties)),
            ("required"@, Json::Array(seq![Json::Str(required)])),
        ],
    )
}

/// The catalog's names, descriptions and required arguments, in registration order.
pub open spec fn catalog_entry(i: int) -> (Seq<char>, Seq<char>, Seq<char>) {
    if i == 0 {
        (SEARCH_TOOL@, SEARCH_DESCRIPTION@, "queries"@)
    } else if i == 1 {
        (SUMMARIZER_TOOL@, SUMMARIZER_DESCRIPTION@, "url"@)
    } else if i == 2 {
        (FASTGPT_TOOL@, FASTGPT_DESCRIPTION@, "query"@)
    } else if i == 3 {
        (ENRICH_WEB_TOOL@, ENRICH_WEB_DESCRIPTION@, "query"@)
    } else {
        (ENRICH_NEWS_TOOL@, ENRICH_NEWS_DESCRIPTION@, "query"@)
    }
}

proof fn lemma_schema_required(properties: Seq<(Seq<char>, Json)>, required: Seq<char>)
    ensures
        field(schema_json(properties, required), "required"@) == Some(Json::Array(seq![Json::Str(required)])),
{
    reveal_strlit("type");
    reveal_strlit("properties");
    reveal_strlit("required");
    assert("type"@[0] != "required"@[0]);
    assert("properties"@[0] != "required"@[0]);
    let e = Seq::<(Seq<char>, Json)>::empty();
    let a = ("type"@, Json::Str("object"@));
    let b = ("properties"@, Json::Object(properties));
    let c = ("required"@, Json::Array(seq![Json::Str(required)]));
    assert(seq![a, b, c] == e.push(a).push(b).push(c));
    lemma_member_empty("required"@);
    lemma_member_push(e, a, "required"@);
    lemma_member_push(e.push(a), b, "required"@);
    lemma_member_push(e.push(a).push(b), c, "required"@);
}

fn prop(kind: &str, description: &str) -> (r: JsonValue)
    ensures
        r@ == prop_json(kind@, description@),
{
    let mut m: Vec<(String, JsonValue)> = Vec::new();
    m.push((String::from_str("type"), JsonValue::text(kind)));
    m.push((String::from_str("description"), JsonValue::text(description)));
    let r = JsonValue::Object(m);
    proof {
        lemma_object_view(r);
        assert(member_views(m@) =~= prop_json(kind@, description@)->Object_0);
    }
    r
}

fn str_array(items: Vec<&str>) -> (r: JsonValue)
    ensures
        r@ == Json::Array(items@.map_values(|s: &str| Json::Str(s@))),
{
    let mut out: Vec<JsonValue> = Vec::new();
    let mut i: usize = 0;
    while i < items.len()
        invariant
            i <= items@.len(),
            out@.len() == i,
            forall|j: int| 0 <= j < i ==> (#[trigger] out@[j])@ == Json::Str(items@[j]@),
        decreases items@.len() - i,
    {
        out.push(JsonValue::text(items[i]));
        i = i + 1;
    }
    let r = JsonValue::Array(out);
    proof {
        lemma_array_view(r);
        assert(views(out@) =~= items@.map_values(|s: &str| Json::Str(s@)));
    }
    r
}

fn schema(properties: Vec<(String, JsonValue)>, required: &str) -> (r: JsonValue)
    ensures
        r@ == schema_json(member_views(properties@), required@),
        field(r@, "required"@) == Some(Json::Array(seq![Json::Str(required@)])),
{
    proof {
        lemma_schema_required(member_views(properties@), required@);
    }
    let props = JsonValue::Object(properties);
    proof {
        lemma_object_view(props);
    }
    let mut req: Vec<&str> = Vec::new();
    req.push(required);
    let req_json = str_array(req);
    let mut m: Vec<(String, JsonValue)> = Vec::new();
    m.push((String::from_str("type"), JsonValue::text("object")));
    m.push((String::from_str("properties"), props));
    m.push((String::from_str("required"), req_json));
    let r = JsonValue::Object(m);
    proof {
        lemma_object_view(r);
        assert(req@.map_values(|s: &str| Json::Str(s@)) =~= seq![Json::Str(required@)]);
        assert(member_views(m@) =~= schema_json(member_views(properties@), required@)->Object_0);
    }
    r
}

fn tool(name: &str, description: &str, input_schema: JsonValue) -> (r: Tool)
    ensures
        r.name@ == name@,
        r.description@ == description@,
        r.input_schema@ == input_schema@,
{
    Tool { name: String::from_str(name), description: String::from_str(description), input_schema }
}

pub const QUERIES_DESCRIPTION: &'static str = "One or more concise, keyword-focused search queries. Include essential context within each query for standalone use.";
pub const URL_DESCRIPTION: &'static str = "A URL to a document to summarize.";
pub const SUMMARY_TYPE_DESCRIPTION: &'static str = "Type of summary to produce. Options are 'summary' for paragraph prose and 'takeaway' for a bulleted list of key points.";
pub const ENGINE_DESCRIPTION: &'static str = "Summarization engine to use. Defaults to configured engine.";
pub const TARGET_LANGUAGE_DESCRIPTION: &'static str = "Desired output language using language codes (e.g., 'EN' for English). If not specified, the document's original language influences the output.";
pub const QUESTION_DESCRIPTION: &'static str = "The question or query to be answered by the AI.";
pub const CACHE_DESCRIPTION: &'static str = "Whether to allow cached requests & responses. Defaults to true.";
pub const WEB_SEARCH_DESCRIPTION: &'static str = "Whether to perform web searches to enrich answers. Currently, must be set to true.";
pub const ENRICH_WEB_QUERY_DESCRIPTION: &'static str = "The search query to find non-commercial web content.";
pub const ENRICH_NEWS_QUERY_DESCRIPTION: &'static str = "The search query to find non-mainstream news content.";

/// An array of strings.
pub open spec fn str_list(items: Seq<Seq<char>>) -> Json {
    Json::Array(items.map_values(|s: Seq<char>| Json::Str(s)))
}

/// The input schema of the search tool.
pub open spec fn search_schema_json() -> Json {
    schema_json(
        seq![
            (
                "queries"@,
                Json::Object(
                    seq![
                        ("type"@, Json::Str("array"@)),
                        ("items"@, Json::Object(seq![("type"@, Json::Str("string"@))])),
                        ("description"@, Json::Str(QUERIES_DESCRIPTION@)),
                    ],
                ),
            ),
        ],
        "queries"@,
    )
}

/// The input schema of the summarizer tool.
pub open spec fn summarizer_schema_json() -> Json {
    schema_json(
        seq![
            ("url"@, prop_json("string"@, URL_DESCRIPTION@)),
            (
                "summary_type"@,
                Json::Object(
                    seq![
                        ("type"@, Json::Str("string"@)),
                        ("enum"@, str_list(seq!["summary"@, "takeaway"@])),
                        ("default"@, Json::Str("summary"@)),
                        ("description"@, Json::Str(SUMMARY_TYPE_DESCRIPTION@)),
                    ],
                ),
            ),
            (
                "engine"@,
                Json::Object(
                    seq![
                        ("type"@, Json::Str("string"@)),
                        ("enum"@, str_list(seq!["cecil"@, "agnes"@, "daphne"@, "muriel"@])),
                        ("description"@, Json::Str(ENGINE_DESCRIPTION@)),
                    ],
                ),
            ),
            ("target_language"@, prop_json("string"@, TARGET_LANGUAGE_DESCRIPTION@)),
        ],
        "url"@,
    )
}

/// The input schema of the FastGPT tool.
pub open spec fn fastgpt_schema_json() -> Json {
    schema_json(
        seq![
            ("query"@, prop_json("string"@, QUESTION_DESCRIPTION@)),
            ("cache"@, prop_json("boolean"@, CACHE_DESCRIPTION@)),
            ("web_search"@, prop_json("boolean"@, WEB_SEARCH_DESCRIPTION@)),
        ],
        "query"@,
    )
}

/// The input schema of an enrichment tool.
pub open spec fn query_schema_json(description: Seq<char>) -> Json {
    schema_json(seq![("query"@, prop_json("string"@, description))], "query"@)
}

/// The input schema of the catalog's tool at index `i`.
pub open spec fn catalog_schema(i: int) -> Json {
    if i == 0 {
        search_schema_json()
    } else if i == 1 {
        summarizer_schema_json()
    } else if i == 2 {
        fastgpt_schema_json()
    } else if i == 3 {
        query_schema_json(ENRICH_WEB_QUERY_DESCRIPTION@)
    } else {
        query_schema_json(ENRICH_NEWS_QUERY_DESCRIPTION@)
    }
}

fn object(members: Vec<(String, JsonValue)>) -> (r: JsonValue)
    ensures
        r@ == Json::Object(member_views(members@)),
{
    let r = JsonValue::Object(members);
    proof {
        lemma_object_view(r);
    }
    r
}

fn search_schema() -> (r: JsonValue)
    ensures
        r@ == search_schema_json(),
{
    let mut items: Vec<(String, JsonValue)> = Vec::new();
    items.push((String::from_str("type"), JsonValue::text("string")));
    let items_json = object(items);
    assert(member_views(items@) =~= seq![("type"@, Json::Str("string"@))]);
    let mut q: Vec<(String, JsonValue)> = Vec::new();
    q.push((String::from_str("type"), JsonValue::text("array")));
    q.push((String::from_str("items"), items_json));
    q.push((String::from_str("description"), JsonValue::text(QUERIES_DESCRIPTION)));
    let q_json = object(q);
    let mut props: Vec<(String, JsonValue)> = Vec::new();
    props.push((String::from_str("queries"), q_json));
    proof {
        assert(member_views(q@) =~= search_schema_json()->Object_0[1].1->Object_0[0].1->Object_0);
        assert(member_views(props@) =~= search_schema_json()->Object_0[1].1->Object_0);
    }
    schema(props, "queries")
}

fn summarizer_schema() -> (r: JsonValue)
    ensures
        r@ == summarizer_schema_json(),
{
    let mut kinds: Vec<&str> = Vec::new();
    kinds.push("summary");
    kinds.push("takeaway");
    let kinds_json = str_array(kinds);
    assert(kinds@.map_values(|s: &str| Json::Str(s@)) =~= seq!["summary"@, "takeaway"@].map_values(|s: Seq<char>| Json::Str(s)));
    let mut st: Vec<(String, JsonValue)> = Vec::new();
    st.push((String::from_str("type"), JsonValue::text("string")));
    st.push((String::from_str("enum"), kinds_json));
    st.push((String::from_str("default"), JsonValue::text("summary")));
    st.push((String::from_str("description"), JsonValue::text(SUMMARY_TYPE_DESCRIPTION)));
    let st_json = object(st);
    let mut engines: Vec<&str> = Vec::new();
    engines.push("cecil");
    engines.push("agnes");
    engines.push("daphne");
    engines.push("muriel");
    let engines_json = str_array(engines);
    assert(engines@.map_values(|s: &str| Json::Str(s@)) =~= seq!["cecil"@, "agnes"@, "daphne"@, "muriel"@].map_values(|s: Seq<char>| Json::Str(s)));
    let mut en: Vec<(String, JsonValue)> = Vec::new();
    en.push((String::from_str("type"), JsonValue::text("string")));
    en.push((String::from_str("enum"), engines_json));
    en.push((String::from_str("description"), JsonValue::text(ENGINE_DESCRIPTION)));
    let en_json = object(en);
    let mut props: Vec<(String, JsonValue)> = Vec::new();
    props.push((String::from_str("url"), prop("string", URL_DESCRIPTION)));
    props.push((String::from_str("summary_type"), st_json));
    props.push((String::from_str("engine"), en_json));
    props.push((String::from_str("target_language"), prop("string", TARGET_LANGUAGE_DESCRIPTION)));
    proof {
        assert(member_views(st@) =~= summarizer_schema_json()->Object_0[1].1->Object_0[1].1->Object_0);
        assert(member_views(en@) =~= summarizer_schema_json()->Object_0[1].1->Object_0[2].1->Object_0);
        assert(member_views(props@) =~= summarizer_schema_json()->Object_0[1].1->Object_0);
    }
    schema(props, "url")
}

fn fastgpt_schema() -> (r: JsonValue)
    ensures
        r@ == fastgpt_schema_json(),
{
    let mut props: Vec<(String, JsonValue)> = Vec::new();
    props.push((String::from_str("query"), prop("string", QUESTION_DESCRIPTION)));
    props.push((String::from_str("cache"), prop("boolean", CACHE_DESCRIPTION)));
    props.push((String::from_str("web_search"), prop("boolean", WEB_SEARCH_DESCRIPTION)));
    assert(member_views(props@) =~= fastgpt_schema_json()->Object_0[1].1->Object_0);
    schema(props, "query")
}

fn query_schema(description: &str) -> (r: JsonValue)
    ensures
        r@ == query_schema_json(description@),
{
    let mut props: Vec<(String, JsonValue)> = Vec::new();
    props.push((String::from_str("query"), prop("string", description)));
    assert(member_views(props@) =~= seq![("query"@, prop_json("string"@, description@))]);
    schema(props, "query")
}

/// The catalog of the Kagi tools, in registration order: search, summarizer, FastGPT,
/// web enrichment, news enrichment, each with its description and input schema. Each
/// schema is an object schema that requires the tool's main argument.
pub fn kagi_tools() -> (r: Vec<Tool>)
    ensures
        r@.len() == 5,
        forall|i: int|
            0 <= i < 5 ==> {
                &&& (#[trigger] r@[i]).name@ == catalog_entry(i).0
                &&& r@[i].description@ == catalog_entry(i).1
                &&& r@[i].input_schema@ == catalog_schema(i)
                &&& field(r@[i].input_schema@, "required"@) == Some(
                    Json::Array(seq![Json::Str(catalog_entry(i).2)]),
                )
            },
{
    let mut tools: Vec<Tool> = Vec::new();
    tools.push(tool(SEARCH_TOOL, SEARCH_DESCRIPTION, search_schema()));
    tools.push(tool(SUMMARIZER_TOOL, SUMMARIZER_DESCRIPTION, summarizer_schema()));
    tools.push(tool(FASTGPT_TOOL, FASTGPT_DESCRIPTION, fastgpt_schema()));
    tools.push(tool(ENRICH_WEB_TOOL, ENRICH_WEB_DESCRIPTION, query_schema(ENRICH_WEB_QUERY_DESCRIPTION)));
    tools.push(tool(ENRICH_NEWS_TOOL, ENRICH_NEWS_DESCRIPTION, query_schema(ENRICH_NEWS_QUERY_DESCRIPTION)));
    proof {
        lemma_schema_required(search_schema_json()->Object_0[1].1->Object_0, "queries"@);
        lemma_schema_required(summarizer_schema_json()->Object_0[1].1->Object_0, "url"@);
        lemma_schema_required(fastgpt_schema_json()->Object_0[1].1->Object_0, "query"@);
        lemma_schema_required(seq![("query"@, prop_json("string"@, ENRICH_WEB_QUERY_DESCRIPTION@))], "query"@);
        lemma_schema_required(seq![("query"@, prop_json("string"@, ENRICH_NEWS_QUERY_DESCRIPTION@))], "query"@);
    }
    tools
}

/// The Kagi tools, offered to an MCP server.
pub struct KagiTools {
    /// The summarizer engine used when a call names none, or an unknown one.
    pub default_engine: SummarizerEngine,
}

/// The JSON of the catalog's tool at index `i`.
pub open spec fn catalog_tool_json(i: int) -> Json {
    Json::Object(
        seq![
            ("name"@, Json::Str(catalog_entry(i).0)),
            ("description"@, Json::Str(catalog_entry(i).1)),
            ("inputSchema"@, catalog_schema(i)),
        ],
    )
}

/// The JSON of the whole catalog, in registration order.
pub open spec fn catalog_json() -> Seq<Json> {
    Seq::new(5, |i: int| catalog_tool_json(i))
}

impl ToolHandler for KagiTools {
    /// The Kagi catalog, whatever the default engine.
    fn get_tools(&self) -> (r: Vec<Tool>)
        ensures
            r@.map_values(|t: Tool| tool_json(t)) == catalog_json(),
    {
        let r = kagi_tools();
        assert(r@.map_values(|t: Tool| tool_json(t)) =~= catalog_json());
        r
    }
}

/// An API request that a tool call asks for.
pub enum KagiCall {
    /// Search each query in turn.
    Search { queries: Vec<JsonValue> },
    Summarize {
        url: String,
        engine: SummarizerEngine,
        summary_type: SummaryType,
        target_language: Option<String>,
    },
    FastGpt { query: String, cache: Option<bool>, web_search: Option<bool> },
    Enrich { query: String, enrich_type: EnrichType },
}

/// The model of an API request that a tool call asks for.
pub enum CallModel {
    Search(Seq<Json>),
    Summarize {
        url: Seq<char>,
        engine: SummarizerEngine,
        summary_type: SummaryType,
        target_language: Option<Seq<char>>,
    },
    FastGpt { query: Seq<char>, cache: Option<bool>, web_search: Option<bool> },
    Enrich { query: Seq<char>, enrich_type: EnrichType },
}

/// The model of a planned request.
pub open spec fn call_view(c: KagiCall) -> CallModel {
    match c {
        KagiCall::Search { queries } => CallModel::Search(views(queries@)),
        KagiCall::Summarize { url, engine, summary_type, target_language } => CallModel::Summarize {
            url: url@,
            engine,
            summary_type,
            target_language: match target_language {
                Some(l) => Some(l@),
                None => None,
            },
        },
        KagiCall::FastGpt { query, cache, web_search } => CallModel::FastGpt { query: query@, cache, web_search },
        KagiCall::Enrich { query, enrich_type } => CallModel::Enrich { query: query@, enrich_type },
    }
}

/// The string argument `key`, if it is there and a string.
pub open spec fn str_arg(args: Json, key: Seq<char>) -> Option<Seq<char>> {
    match field(args, key) {
        Some(Json::Str(s)) => Some(s),
        _ => None,
    }
}

/// The boolean argument `key`, if it is there and a boolean.
pub open spec fn bool_arg(args: Json, key: Seq<char>) -> Option<bool> {
    match field(args, key) {
        Some(Json::Bool(b)) => Some(b),
        _ => None,
    }
}

/// The engine a name selects; anything else selects `default`.
pub open spec fn engine_named(default: SummarizerEngine, name: Option<Seq<char>>) -> SummarizerEngine {
    match name {
        Some(n) => if n == "cecil"@ {
            SummarizerEngine::Cecil
        } else if n == "agnes"@ {
            SummarizerEngine::Agnes
        } else if n == "daphne"@ {
            SummarizerEngine::Daphne
        } else if n == "muriel"@ {
            SummarizerEngine::Muriel
        } else {
            default
        },
        None => default,
    }
}

/// The kind of summary a name selects: `takeaway`, or else a summary.
pub open spec fn summary_type_named(name: Option<Seq<char>>) -> SummaryType {
    match name {
        Some(n) => if n == "takeaway"@ {
            SummaryType::Takeaway
        } else {
            SummaryType::Summary
        },
        None => SummaryType::Summary,
    }
}

/// The request a call of tool `name` with `args` asks for, or why it cannot be made.
pub open spec fn planned(default_engine: SummarizerEngine, name: Seq<char>, args: Json) -> Result<CallModel, Seq<char>> {
    if name == SEARCH_TOOL@ {
        match field(args, "queries"@) {
            Some(Json::Array(qs)) => Ok(CallModel::Search(qs)),
            _ => Err("Missing or invalid 'queries' parameter"@),
        }
    } else if name == SUMMARIZER_TOOL@ {
        match str_arg(args, "url"@) {
            Some(u) => Ok(
                CallModel::Summarize {
                    url: u,
                    engine: engine_named(default_engine, str_arg(args, "engine"@)),
                    summary_type: summary_type_named(str_arg(args, "summary_type"@)),
                    target_language: str_arg(args, "target_language"@),
                },
            ),
            None => Err("Missing 'url' parameter"@),
        }
    } else if name == FASTGPT_TOOL@ {
        match str_arg(args, "query"@) {
            Some(q) => Ok(
                CallModel::FastGpt {
                    query: q,
                    cache: bool_arg(args, "cache"@),
                    web_search: bool_arg(args, "web_search"@),
                },
            ),
            None => Err("Missing or invalid 'query' parameter"@),
        }
    } else if name == ENRICH_WEB_TOOL@ || name == ENRICH_NEWS_TOOL@ {
        match str_arg(args, "query"@) {
            Some(q) => Ok(
                CallModel::Enrich {
                    query: q,
                    enrich_type: if name == ENRICH_WEB_TOOL@ {
                        EnrichType::Web
                    } else {
                        EnrichType::News
                    },
                },
            ),
            None => Err("Missing or invalid 'query' parameter"@),
        }
    } else {
        Err("Tool '"@ + name + "' not found"@)
    }
}

fn str_arg_of(args: &JsonValue, key: &str) -> (r: Option<String>)
    ensures
        match r {
            Some(s) => str_arg(args@, key@) == Some(s@),
            None => str_arg(args@, key@) is None,
        },
{
    match args.get(key) {
        Some(v) => match v.as_str() {
            Some(s) => Some(s.clone()),
            None => None,
        },
        None => None,
    }
}

fn bool_arg_of(args: &JsonValue, key: &str) -> (r: Option<bool>)
    ensures
        r == bool_arg(args@, key@),
{
    match args.get(key) {
        Some(v) => v.as_bool(),
        None => None,
    }
}

impl KagiTools {
    /// The engine a name selects; a missing or unknown name selects the default engine.
    pub fn parse_engine(&self, engine_str: Option<&str>) -> (r: SummarizerEngine)
        ensures
            r == engine_named(
                self.default_engine,
                match engine_str {
                    Some(s) => Some(s@),
                    None => None,
                },
            ),
    {
        match engine_str {
            Some(s) => if text_eq(s, "cecil") {
                SummarizerEngine::Cecil
            } else if text_eq(s, "agnes") {
                SummarizerEngine::Agnes
            } else if text_eq(s, "daphne") {
                SummarizerEngine::Daphne
            } else if text_eq(s, "muriel") {
                SummarizerEngine::Muriel
            } else {
                self.default_engine
            },
            None => self.default_engine,
        }
    }

    /// The kind of summary a name selects: `takeaway`, or else a summary.
    pub fn parse_summary_type(&self, type_str: Option<&str>) -> (r: SummaryType)
        ensures
            r == summary_type_named(
                match type_str {
                    Some(s) => Some(s@),
                    None => None,
                },
            ),
    {
        match type_str {
            Some(s) => if text_eq(s, "takeaway") {
                SummaryType::Takeaway
            } else {
                SummaryType::Summary
            },
            None => SummaryType::Summary,
        }
    }

    /// The request a call of tool `name` with `args` asks for, or the message of why
    /// it cannot be made.
    pub fn plan_call(&self, name: &str, args: &JsonValue) -> (r: Result<KagiCall, String>)
        ensures
            match r {
                Ok(c) => planned(self.default_engine, name@, args@) == Ok::<CallModel, Seq<char>>(call_view(c)),
                Err(m) => planned(self.default_engine, name@, args@) == Err::<CallModel, Seq<char>>(m@),
            },
    {
        proof {
            reveal_strlit("Missing or invalid 'queries' parameter");
            reveal_strlit("Missing 'url' parameter");
            reveal_strlit("Missing or invalid 'query' parameter");
        }
        if text_eq(name, SEARCH_TOOL) {
            match args.get("queries") {
                Some(v) => match v.as_array() {
                    Some(items) => {
                        let mut queries: Vec<JsonValue> = Vec::new();
                        let mut i: usize = 0;
                        while i < items.len()
                            invariant
                                i <= items@.len(),
                                queries@.len() == i,
                                forall|j: int| 0 <= j < i ==> (#[trigger] queries@[j])@ == items@[j]@,
                            decreases items@.len() - i,
                        {
                            queries.push(items[i].deep_copy());
                            i = i + 1;
                        }
                        assert(views(queries@) =~= views(items@));
                        Ok(KagiCall::Search { queries })
                    },
                    None => Err(String::from_str("Missing or invalid 'queries' parameter")),
                },
                None => Err(String::from_str("Missing or invalid 'queries' parameter")),
            }
        } else if text_eq(name, SUMMARIZER_TOOL) {
            match str_arg_of(args, "url") {
                Some(url) => {
                    let engine_name = str_arg_of(args, "engine");
                    let engine = match &engine_name {
                        Some(e) => self.parse_engine(Some(e.as_str())),
                        None => self.parse_engine(None),
                    };
                    let kind_name = str_arg_of(args, "summary_type");
                    let summary_type = match &kind_name {
                        Some(t) => self.parse_summary_type(Some(t.as_str())),
                        None => self.parse_summary_type(None),
                    };
                    let target_language = str_arg_of(args, "target_language");
                    Ok(KagiCall::Summarize { url, engine, summary_type, target_language })
                },
                None => Err(String::from_str("Missing 'url' parameter")),
            }
        } else if text_eq(name, FASTGPT_TOOL) {
            match str_arg_of(args, "query") {
                Some(query) => {
                    let cache = bool_arg_of(args, "cache");
                    let web_search = bool_arg_of(args, "web_search");
                    Ok(KagiCall::FastGpt { query, cache, web_search })
                },
                None => Err(String::from_str("Missing or invalid 'query' parameter")),
            }
        } else if text_eq(name, ENRICH_WEB_TOOL) || text_eq(name, ENRICH_NEWS_TOOL) {
            match str_arg_of(args, "query") {
                Some(query) => {
                    let enrich_type = if text_eq(name, ENRICH_WEB_TOOL) {
                        EnrichType::Web
                    } else {
                        EnrichType::News
                    };
                    Ok(KagiCall::Enrich { query, enrich_type })
                },
                None => Err(String::from_str("Missing or invalid 'query' parameter")),
            }
        } else {
            Err(join3("Tool '", name, "' not found"))
        }
    }
}

/// The JSON of a text content block.
pub open spec fn text_block_json(text: Seq<char>) -> Json {
    Json::Object(seq![("type"@, Json::Str("text"@)), ("text"@, Json::Str(text))])
}

/// A tool's text output as content: one text block.
pub fn text_content(text: String) -> (r: Vec<JsonValue>)
    ensures
        views(r@) == seq![text_block_json(text@)],
{
    let ghost t = text@;
    let mut m: Vec<(String, JsonValue)> = Vec::new();
    m.push((String::from_str("type"), JsonValue::text("text")));
    m.push((String::from_str("text"), JsonValue::Str(text)));
    let block = JsonValue::Object(m);
    proof {
        lemma_object_view(block);
        assert(member_views(m@) =~= text_block_json(t)->Object_0);
    }
    let mut r: Vec<JsonValue> = Vec::new();
    r.push(block);
    assert(views(r@) =~= seq![text_block_json(t)]);
    r
}

/// A batch of searches, run one query after another. The results of the queries are
/// joined with a line break; the first failure ends the batch.
pub struct SearchBatch {
    pub queries: Vec<JsonValue>,
    /// How many queries have been searched.
    pub done: usize,
    /// The text of the results so far.
    pub output: String,
}

/// What the batch needs next.
pub enum SearchStep {
    /// Search this query, and record the outcome.
    Run(String),
    /// The batch is over: the text of all results, or the message of what went wrong.
    Finished(Result<String, String>),
}

impl SearchBatch {
    /// A batch over `queries`, none searched yet.
    pub fn new(queries: Vec<JsonValue>) -> (r: SearchBatch)
        ensures
            r.queries@ == queries@,
            r.done == 0,
            r.output@ == Seq::<char>::empty(),
    {
        SearchBatch { queries, done: 0, output: String::new() }
    }

    /// The next step: search the next query if it is a string; stop with an error if it
    /// is not; stop with the text when every query has been searched.
    pub fn next_step(&self) -> (s: SearchStep)
        ensures
            self.done < self.queries@.len() ==> match self.queries@[self.done as int]@ {
                Json::Str(q) => s matches SearchStep::Run(t) && t@ == q,
                _ => s matches SearchStep::Finished(Err(m)) && m@ == "Invalid query format - expected string"@,
            },
            self.done >= self.queries@.len() ==> (s matches SearchStep::Finished(Ok(t)) && t@ == self.output@),
    {
        if self.done < self.queries.len() {
            match self.queries[self.done].as_str() {
                Some(q) => SearchStep::Run(q.clone()),
                None => {
                    proof {
                        reveal_strlit("Invalid query format - expected string");
                    }
                    SearchStep::Finished(Err(String::from_str("Invalid query format - expected string")))
                },
            }
        } else {
            SearchStep::Finished(Ok(self.output.clone()))
        }
    }

    /// Records the outcome of searching the next query (a string). Results are appended,
    /// after a line break unless they are the first; a failure is returned as the batch's
    /// message and changes nothing.
    pub fn record(&mut self, outcome: Result<SearchResponse, Error>) -> (failure: Option<String>)
        ensures
            final(self).queries@ == old(self).queries@,
            (old(self).done < old(self).queries@.len() && old(self).queries@[old(self).done as int]@ is Str)
                ==> match outcome {
                Ok(resp) => {
                    &&& failure is None
                    &&& final(self).done == old(self).done + 1
                    &&& final(self).output@ == old(self).output@ + (if old(self).done > 0 {
                        "\n"@
                    } else {
                        Seq::<char>::empty()
                    }) + search_results_text(
                        old(self).queries@[old(self).done as int]@->Str_0,
                        resp.data@,
                    )
                },
                Err(e) => {
                    &&& failure matches Some(m) && m@ == "Search failed for query '"@
                        + old(self).queries@[old(self).done as int]@->Str_0 + "': "@ + error_text(e)
                    &&& final(self).done == old(self).done
                    &&& final(self).output@ == old(self).output@
                },
            },
            !(old(self).done < old(self).queries@.len() && old(self).queries@[old(self).done as int]@ is Str)
                ==> failure is None && final(self).done == old(self).done && final(self).output@ == old(self).output@,
    {
        if self.done >= self.queries.len() {
            return None;
        }
        let query = match self.queries[self.done].as_str() {
            Some(q) => q.clone(),
            None => return None,
        };
        match outcome {
            Ok(resp) => {
                if self.done > 0 {
                    self.output.append("\n");
                }
                let text = format_search_results(query.as_str(), &resp.data);
                self.output.append(text.as_str());
                self.done = self.done + 1;
                None
            },
            Err(e) => Some(search_failure(query.as_str(), &e)),
        }
    }
}

} // verus!
