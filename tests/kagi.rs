use kagi_mcp::extension::{
    Architecture, KagiContextServerSettings, Os, asset_name, binary_path, context_server_env,
    default_enrich_api_version, default_fastgpt_api_version, default_search_api_version,
    default_summarizer_api_version, release_tag, version_dir,
};
use kagi_mcp::format::{
    format_enrich_results, format_fastgpt_answer, format_search_results, summarize_failure,
};
use kagi_mcp::json::JsonValue;
use kagi_mcp::kagi::{
    EnrichType, Error, FastGptData, FastGptReference, HttpMethod, KagiClient, SearchMeta,
    SearchResponse, SearchResult, SummarizerEngine, SummaryType, fastgpt_body, status_failure,
    API_BASE_URL_PREFIX,
};
use kagi_mcp::server::ToolHandler;
use kagi_mcp::text::{decimal_text, trim};
use kagi_mcp::tools::{KagiCall, KagiTools, SearchBatch, SearchStep, text_content};

fn to_serde(v: &JsonValue) -> serde_json::Value {
    match v {
        JsonValue::Null => serde_json::Value::Null,
        JsonValue::Bool(b) => serde_json::Value::Bool(*b),
        JsonValue::Number(n) => serde_json::from_str(n).unwrap(),
        JsonValue::Str(s) => serde_json::Value::String(s.clone()),
        JsonValue::Array(items) => serde_json::Value::Array(items.iter().map(to_serde).collect()),
        JsonValue::Object(members) => {
            let mut m = serde_json::Map::new();
            for (k, v) in members {
                m.insert(k.clone(), to_serde(v));
            }
            serde_json::Value::Object(m)
        }
    }
}

fn text(s: &str) -> JsonValue {
    JsonValue::Str(s.to_string())
}

fn obj(members: Vec<(&str, JsonValue)>) -> JsonValue {
    JsonValue::Object(members.into_iter().map(|(k, v)| (k.to_string(), v)).collect())
}

fn entry(t: i32, title: Option<&str>, url: Option<&str>, snippet: Option<&str>, published: Option<&str>) -> SearchResult {
    SearchResult {
        result_type: t,
        rank: None,
        url: url.map(|s| s.to_string()),
        title: title.map(|s| s.to_string()),
        snippet: snippet.map(|s| s.to_string()),
        published: published.map(|s| s.to_string()),
        thumbnail: None,
        list: None,
    }
}

fn meta() -> SearchMeta {
    SearchMeta { id: "i".to_string(), node: "n".to_string(), ms: 1 }
}

#[test]
fn test_client_creation() {
    let client = KagiClient::new("test-key");
    assert_eq!(client.api_key, "test-key");
    assert_eq!(client.base_url_prefix, API_BASE_URL_PREFIX);
    assert_eq!(client.search_api_version, "v0");
    assert_eq!(client.summarizer_api_version, "v0");
    assert_eq!(client.fastgpt_api_version, "v0");
    assert_eq!(client.enrich_api_version, "v0");
}

#[test]
fn test_client_with_custom_url() {
    let client = KagiClient::with_base_url_prefix("test-key", "https://custom.api.com");
    assert_eq!(client.api_key, "test-key");
    assert_eq!(client.base_url_prefix, "https://custom.api.com");
}

#[test]
fn test_client_with_api_versions() {
    let client = KagiClient::with_api_versions("test-key", "v1", "v2", "v3", "v4");
    assert_eq!(client.api_key, "test-key");
    assert_eq!(client.search_api_version, "v1");
    assert_eq!(client.summarizer_api_version, "v2");
    assert_eq!(client.fastgpt_api_version, "v3");
    assert_eq!(client.enrich_api_version, "v4");
}

#[test]
fn test_fastgpt_params_serialization() {
    // Booleans go out as JSON booleans, not strings.
    let params = fastgpt_body("test query", Some(false), Some(true));
    let json = serde_json::to_string(&to_serde(&params)).unwrap();

    assert!(json.contains("\"web_search\":true"));
    assert!(json.contains("\"cache\":false"));
    assert!(!json.contains("\"web_search\":\"true\""));
    assert!(!json.contains("\"cache\":\"false\""));
}

#[test]
fn wire_names_are_lower_case() {
    assert_eq!(SummarizerEngine::Cecil.api_name(), "cecil");
    assert_eq!(SummarizerEngine::Muriel.api_name(), "muriel");
    assert_eq!(SummaryType::Takeaway.api_name(), "takeaway");
    assert!(SummarizerEngine::default() == SummarizerEngine::Cecil);
    assert!(SummaryType::default() == SummaryType::Summary);
}

#[test]
fn search_request_url_is_form_encoded() {
    let client = KagiClient::new("k");
    let req = client.search("rust programming", Some(10)).ok().expect("a request");
    assert!(req.method == HttpMethod::Get);
    assert_eq!(req.url, "https://kagi.com/api/v0/search?q=rust+programming&limit=10");
    assert_eq!(req.authorization, "Bot k");
    assert!(req.body.is_none());
}

#[test]
fn enrich_request_url_names_the_index() {
    let client = KagiClient::with_api_versions("k", "v0", "v0", "v0", "v1");
    let req = client.enrich("a&b", EnrichType::News).ok().expect("a request");
    assert_eq!(req.url, "https://kagi.com/api/v1/enrich/news?q=a%26b");
}

#[test]
fn malformed_base_is_invalid_url() {
    let client = KagiClient::with_base_url_prefix("k", "not a url");
    match client.search("x", None) {
        Err(Error::Api { status, message }) => {
            assert_eq!(status, 400);
            assert_eq!(message, "Invalid URL");
        }
        _ => panic!("expected an API error"),
    }
}

#[test]
fn summarize_request_body() {
    let client = KagiClient::new("k");
    let req = client.summarize("https://e.com/a", Some(SummarizerEngine::Agnes), Some(SummaryType::Takeaway), Some("EN"));
    assert!(req.method == HttpMethod::Post);
    assert_eq!(req.url, "https://kagi.com/api/v0/summarize");
    let body = to_serde(req.body.as_ref().unwrap());
    assert_eq!(body["url"], "https://e.com/a");
    assert_eq!(body["engine"], "agnes");
    assert_eq!(body["summary_type"], "takeaway");
    assert_eq!(body["target_language"], "EN");
    let req2 = client.summarize_text("hello", None, None, None);
    let body2 = to_serde(req2.body.as_ref().unwrap());
    assert_eq!(body2, serde_json::from_str::<serde_json::Value>("{\"text\":\"hello\"}").unwrap());
}

#[test]
fn fastgpt_request_url() {
    let client = KagiClient::with_base_url_prefix("k", "http://localhost:1");
    let req = client.fastgpt("q", None, None);
    assert_eq!(req.url, "http://localhost:1/v0/fastgpt");
}

#[test]
fn error_messages() {
    assert_eq!(Error::Api { status: 401, message: "no".to_string() }.message(), "API error: 401 - no");
    assert_eq!(Error::InvalidApiKey.message(), "Invalid API key");
    assert_eq!(summarize_failure(&Error::Request("timeout".to_string())), "Summarization failed: HTTP request failed: timeout");
}

#[test]
fn status_outside_success_range_fails() {
    assert!(status_failure(200, String::new()).is_none());
    assert!(status_failure(299, String::new()).is_none());
    match status_failure(503, "down".to_string()) {
        Some(Error::Api { status, message }) => {
            assert_eq!(status, 503);
            assert_eq!(message, "down");
        }
        _ => panic!("expected an API error"),
    }
}

#[test]
fn search_results_are_numbered() {
    let mut related = entry(1, None, None, None, None);
    related.list = Some(vec!["a".to_string(), "b".to_string()]);
    let results = vec![
        entry(0, Some("T1"), Some("U1"), Some("S1"), Some("2024")),
        related,
        entry(0, Some("no url"), None, None, None),
        entry(0, Some("T2"), Some("U2"), None, None),
        entry(7, Some("T3"), None, Some("S3"), None),
    ];
    let out = format_search_results("q", &results);
    let expected = "-----\nResults for search query \"q\":\n-----\n\
1: T1\nU1\nPublished Date: 2024\nS1\n\n\
Related searches:\n- a\n- b\n\n\
2: T2\nU2\nPublished Date: Not Available\n\n\
3: T3\nS3\n\n";
    assert_eq!(out, expected);
}

#[test]
fn fastgpt_answer_lists_references() {
    let data = FastGptData {
        output: "Answer".to_string(),
        tokens: 3,
        references: vec![
            FastGptReference { title: "A".to_string(), snippet: "s".to_string(), url: "u1".to_string() },
            FastGptReference { title: "B".to_string(), snippet: "s".to_string(), url: "u2".to_string() },
        ],
    };
    assert_eq!(format_fastgpt_answer(&data), "Answer\n\nReferences:\n1. A\n   u1\n2. B\n   u2\n");
    let bare = FastGptData { output: "Only".to_string(), tokens: 1, references: vec![] };
    assert_eq!(format_fastgpt_answer(&bare), "Only");
}

#[test]
fn enrich_results_keep_index_numbers() {
    let results = vec![
        entry(1, None, None, None, None),
        entry(0, None, Some("U"), Some(""), Some("2023")),
        entry(0, Some("T"), None, Some("S"), None),
    ];
    let out = format_enrich_results("x", EnrichType::Web, &results);
    assert_eq!(
        out,
        "Kagi web enrichment results for query: x\n\n2. [No Title]\n   URL: U\n   Published: 2023\n\n3. T\n   S\n\n"
    );
}

#[test]
fn catalog_has_five_tools_in_order() {
    let tools = KagiTools { default_engine: SummarizerEngine::Cecil }.get_tools();
    let names: Vec<&str> = tools.iter().map(|t| t.name.as_str()).collect();
    assert_eq!(names, vec!["kagi_search_fetch", "kagi_summarizer", "kagi_fastgpt", "kagi_enrich_web", "kagi_enrich_news"]);
    let schema = to_serde(&tools[1].input_schema);
    assert_eq!(schema["required"], serde_json::from_str::<serde_json::Value>("[\"url\"]").unwrap());
    assert_eq!(schema["properties"]["engine"]["enum"][3], "muriel");
}

#[test]
fn summarizer_call_uses_default_engine() {
    let tools = KagiTools { default_engine: SummarizerEngine::Daphne };
    let args = obj(vec![("url", text("https://e.com")), ("engine", text("bogus")), ("summary_type", text("takeaway"))]);
    match tools.plan_call("kagi_summarizer", &args) {
        Ok(KagiCall::Summarize { url, engine, summary_type, target_language }) => {
            assert_eq!(url, "https://e.com");
            assert!(engine == SummarizerEngine::Daphne);
            assert!(summary_type == SummaryType::Takeaway);
            assert!(target_language.is_none());
        }
        _ => panic!("expected a summary"),
    }
    assert!(tools.parse_engine(Some("agnes")) == SummarizerEngine::Agnes);
    assert!(tools.parse_summary_type(None) == SummaryType::Summary);
}

#[test]
fn tool_argument_errors() {
    let tools = KagiTools { default_engine: SummarizerEngine::Cecil };
    let empty = obj(vec![]);
    assert_eq!(tools.plan_call("kagi_search_fetch", &empty).err(), Some("Missing or invalid 'queries' parameter".to_string()));
    assert_eq!(tools.plan_call("kagi_summarizer", &empty).err(), Some("Missing 'url' parameter".to_string()));
    assert_eq!(tools.plan_call("kagi_fastgpt", &empty).err(), Some("Missing or invalid 'query' parameter".to_string()));
    assert_eq!(tools.plan_call("kagi_enrich_news", &empty).err(), Some("Missing or invalid 'query' parameter".to_string()));
    assert_eq!(tools.plan_call("other", &empty).err(), Some("Tool 'other' not found".to_string()));
}

#[test]
fn fastgpt_and_enrich_calls() {
    let tools = KagiTools { default_engine: SummarizerEngine::Cecil };
    let args = obj(vec![("query", text("why")), ("cache", JsonValue::Bool(false)), ("web_search", text("yes"))]);
    match tools.plan_call("kagi_fastgpt", &args) {
        Ok(KagiCall::FastGpt { query, cache, web_search }) => {
            assert_eq!(query, "why");
            assert_eq!(cache, Some(false));
            assert_eq!(web_search, None);
        }
        _ => panic!("expected a question"),
    }
    match tools.plan_call("kagi_enrich_web", &args) {
        Ok(KagiCall::Enrich { query, enrich_type }) => {
            assert_eq!(query, "why");
            assert!(enrich_type == EnrichType::Web);
        }
        _ => panic!("expected an enrichment"),
    }
}

#[test]
fn search_batch_joins_results() {
    let mut batch = SearchBatch::new(vec![text("a"), text("b")]);
    let one = SearchResponse { meta: meta(), data: vec![entry(0, Some("T"), Some("U"), None, None)] };
    let two = SearchResponse { meta: meta(), data: vec![] };
    match batch.next_step() {
        SearchStep::Run(q) => assert_eq!(q, "a"),
        _ => panic!("expected a search"),
    }
    assert!(batch.record(Ok(one)).is_none());
    match batch.next_step() {
        SearchStep::Run(q) => assert_eq!(q, "b"),
        _ => panic!("expected a search"),
    }
    assert!(batch.record(Ok(two)).is_none());
    match batch.next_step() {
        SearchStep::Finished(Ok(t)) => assert_eq!(
            t,
            "-----\nResults for search query \"a\":\n-----\n1: T\nU\nPublished Date: Not Available\n\n\n-----\nResults for search query \"b\":\n-----\n"
        ),
        _ => panic!("expected the text"),
    }
}

#[test]
fn search_batch_stops_at_failure_or_bad_query() {
    let mut batch = SearchBatch::new(vec![text("a"), JsonValue::Bool(true)]);
    let failure = batch.record(Err(Error::InvalidApiKey));
    assert_eq!(failure, Some("Search failed for query 'a': Invalid API key".to_string()));
    assert_eq!(batch.done, 0);
    batch.record(Ok(SearchResponse { meta: meta(), data: vec![] }));
    match batch.next_step() {
        SearchStep::Finished(Err(m)) => assert_eq!(m, "Invalid query format - expected string"),
        _ => panic!("expected the error"),
    }
}

#[test]
fn text_content_is_one_text_block() {
    let blocks = text_content("X".to_string());
    assert_eq!(blocks.len(), 1);
    let b = to_serde(&blocks[0]);
    assert_eq!(b, serde_json::from_str::<serde_json::Value>("{\"type\":\"text\",\"text\":\"X\"}").unwrap());
}

#[test]
fn numerals_and_trimming() {
    assert_eq!(decimal_text(0), "0");
    assert_eq!(decimal_text(1234567890), "1234567890");
    assert_eq!(trim("\u{3000} a b \n"), "a b");
    assert_eq!(trim(" \t "), "");
}

#[test]
fn extension_env_and_assets() {
    let mut s = KagiContextServerSettings::with_key("KEY".to_string());
    s.kagi_summarizer_engine = Some("muriel".to_string());
    s.kagi_fastgpt_api_version = "v2".to_string();
    let env = context_server_env(s);
    let names: Vec<&str> = env.iter().map(|p| p.0.as_str()).collect();
    assert_eq!(
        names,
        vec![
            "KAGI_API_KEY",
            "KAGI_SUMMARIZER_ENGINE",
            "KAGI_SEARCH_API_VERSION",
            "KAGI_SUMMARIZER_API_VERSION",
            "KAGI_FASTGPT_API_VERSION",
            "KAGI_ENRICH_API_VERSION"
        ]
    );
    assert_eq!(env[0].1, "KEY");
    assert_eq!(env[4].1, "v2");
    assert_eq!(asset_name(Os::Mac, Architecture::Aarch64), "kagi-mcp-server_darwin_arm64.tgz");
    assert_eq!(asset_name(Os::Windows, Architecture::X8664), "kagi-mcp-server_windows_x86_64.zip");
    assert_eq!(release_tag("0.2.0"), "v0.2.0");
    assert_eq!(binary_path(&version_dir("v0.2.0")), "kagi-mcp-server-v0.2.0/kagi-mcp-server");
    assert_eq!(default_search_api_version(), "v0");
    assert_eq!(default_summarizer_api_version(), "v0");
    assert_eq!(default_fastgpt_api_version(), "v0");
    assert_eq!(default_enrich_api_version(), "v0");
}
