//! The Kagi API: its data, the client's configuration, and how each request is
//! addressed and each failure described. Sending the requests is left to the caller.
use vstd::prelude::*;
use crate::json::{Json, JsonValue, member_views, lemma_object_view};
use crate::text::{decimal, decimal_text, join2, join3};

verus! {

/// Where the API lives unless the client is told otherwise.
pub const API_BASE_URL_PREFIX: &'static str = "https://kagi.com/api";

/// Which enrichment index to query.
#[derive(Clone, Copy, PartialEq, Eq, Structural)]
pub enum EnrichType {
    Web,
    News,
}

/// Metadata of a search or enrichment response.
pub struct SearchMeta {
    pub id: String,
    pub node: String,
    pub ms: u64,
}

/// One entry of a search or enrichment response. Type 0 is a result with a title
/// and URL; type 1 is a list of related searches.
pub struct SearchResult {
    pub result_type: i32,
    pub rank: Option<i32>,
    pub url: Option<String>,
    pub title: Option<String>,
    pub snippet: Option<String>,
    pub published: Option<String>,
    pub thumbnail: Option<Thumbnail>,
    pub list: Option<Vec<String>>,
}

/// A result's thumbnail picture.
pub struct Thumbnail {
    pub url: String,
    pub width: Option<u32>,
    pub height: Option<u32>,
}

/// A search response.
pub struct SearchResponse {
    pub meta: SearchMeta,
    pub data: Vec<SearchResult>,
}

/// The summary the summarizer produced.
pub struct SummaryData {
    pub output: String,
    pub tokens: Option<u32>,
}

/// A FastGPT response.
pub struct FastGptResponse {
    pub meta: FastGptMeta,
    pub data: FastGptData,
}

/// Metadata of a FastGPT response.
pub struct FastGptMeta {
    pub id: String,
    pub node: String,
    pub ms: u64,
}

/// A FastGPT answer and the pages it cites.
pub struct FastGptData {
    pub output: String,
    pub tokens: u32,
    pub references: Vec<FastGptReference>,
}

/// A page that a FastGPT answer cites.
pub struct FastGptReference {
    pub title: String,
    pub snippet: String,
    pub url: String,
}

/// An enrichment response.
pub struct EnrichResponse {
    pub meta: SearchMeta,
    pub data: Vec<SearchResult>,
}

/// The summarizer's engines.
#[derive(Clone, Copy, PartialEq, Eq, Structural)]
pub enum SummarizerEngine {
    Cecil,
    Agnes,
    Daphne,
    Muriel,
}

/// The summarizer's kinds of output.
#[derive(Clone, Copy, PartialEq, Eq, Structural)]
pub enum SummaryType {
    Summary,
    Takeaway,
}

/// Why an API call failed.
pub enum Error {
    /// The HTTP request itself failed; the text describes why.
    Request(String),
    /// The API answered with a status outside 200..=299.
    Api { status: u16, message: String },
    /// A body could not be read or written as JSON; the text describes why.
    Serialization(String),
    InvalidApiKey,
}

/// The settings of a Kagi API client.
pub struct KagiClient {
    pub api_key: String,
    pub search_api_version: String,
    pub summarizer_api_version: String,
    pub fastgpt_api_version: String,
    pub enrich_api_version: String,
    pub base_url_prefix: String,
}

impl SummarizerEngine {
    /// The engine used when none is named.
    pub fn default() -> (r: SummarizerEngine)
        ensures
            r == SummarizerEngine::Cecil,
    {
        SummarizerEngine::Cecil
    }

    /// The engine's name on the wire.
    pub open spec fn spec_name(self) -> Seq<char> {
        match self {
            SummarizerEngine::Cecil => "cecil"@,
            SummarizerEngine::Agnes => "agnes"@,
            SummarizerEngine::Daphne => "daphne"@,
            SummarizerEngine::Muriel => "muriel"@,
        }
    }

    /// The engine's name on the wire, in lower case.
    pub fn api_name(&self) -> (r: &'static str)
        ensures
            r@ == self.spec_name(),
    {
        match self {
            SummarizerEngine::Cecil => "cecil",
            SummarizerEngine::Agnes => "agnes",
            SummarizerEngine::Daphne => "daphne",
            SummarizerEngine::Muriel => "muriel",
        }
    }
}

impl SummaryType {
    /// The kind of output used when none is named.
    pub fn default() -> (r: SummaryType)
        ensures
            r == SummaryType::Summary,
    {
        SummaryType::Summary
    }

    /// The kind's name on the wire.
    pub open spec fn spec_name(self) -> Seq<char> {
        match self {
            SummaryType::Summary => "summary"@,
            SummaryType::Takeaway => "takeaway"@,
        }
    }

    /// The kind's name on the wire, in lower case.
    pub fn api_name(&self) -> (r: &'static str)
        ensures
            r@ == self.spec_name(),
    {
        match self {
            SummaryType::Summary => "summary",
            SummaryType::Takeaway => "takeaway",
        }
    }
}

impl EnrichType {
    /// The index's name, as the endpoint path and the tool output spell it.
    pub open spec fn spec_name(self) -> Seq<char> {
        match self {
            EnrichType::Web => "web"@,
            EnrichType::News => "news"@,
        }
    }

    /// The index's name in lower case.
    pub fn api_name(&self) -> (r: &'static str)
        ensures
            r@ == self.spec_name(),
    {
        match self {
            EnrichType::Web => "web",
            EnrichType::News => "news",
        }
    }
}

/// The text of an error, as it is shown to a user.
pub open spec fn error_text(e: Error) -> Seq<char> {
    match e {
        Error::Request(t) => "HTTP request failed: "@ + t@,
        Error::Api { status, message } => "API error: "@ + decimal(status as nat) + " - "@ + message@,
        Error::Serialization(t) => "Serialization error: "@ + t@,
        Error::InvalidApiKey => "Invalid API key"@,
    }
}

impl Error {
    /// The text of this error, as it is shown to a user.
    pub fn message(&self) -> (r: String)
        ensures
            r@ == error_text(*self),
    {
        match self {
            Error::Request(t) => join2("HTTP request failed: ", t.as_str()),
            Error::Api { status, message } => {
                let code = decimal_text(*status as u64);
                let head = join3("API error: ", code.as_str(), " - ");
                join2(head.as_str(), message.as_str())
            },
            Error::Serialization(t) => join2("Serialization error: ", t.as_str()),
            Error::InvalidApiKey => String::from_str("Invalid API key"),
        }
    }
}

/// The failure that an HTTP status reports: none for 200..=299, else an API error
/// carrying the status and the response body.
pub fn status_failure(status: u16, body: String) -> (r: Option<Error>)
    ensures
        200 <= status <= 299 ==> r is None,
        !(200 <= status <= 299) ==> (r matches Some(Error::Api { status: s, message }) && s == status
            && message@ == body@),
{
    if 200 <= status && status <= 299 {
        None
    } else {
        Some(Error::Api { status, message: body })
    }
}

/// The text of a URL as `url::Url::parse_with_params` leaves it: `base` parsed, then
/// `pairs` appended to its query in form encoding; `None` where `base` is no URL.
pub uninterp spec fn url_with_params(base: Seq<char>, pairs: Seq<(Seq<char>, Seq<char>)>) -> Option<Seq<char>>;

/// The views of name–value pairs.
pub open spec fn pair_views(pairs: Seq<(String, String)>) -> Seq<(Seq<char>, Seq<char>)> {
    pairs.map_values(|p: (String, String)| (p.0@, p.1@))
}

#[verifier::external_type_specification]
#[verifier::external_body]
pub struct ExUrlParseError(url::ParseError);

/// Relies on url::Url::parse_with_params (then `String::from(Url)` for the text): the
/// URL is parsed and each pair is appended to its query, form-encoded.
#[verifier::external_body]
fn parse_url_with_params(base: &str, pairs: &Vec<(String, String)>) -> (r: Result<String, url::ParseError>)
    ensures
        match r {
            Ok(s) => url_with_params(base@, pair_views(pairs@)) == Some(s@),
            Err(_) => url_with_params(base@, pair_views(pairs@)) is None,
        },
{
    url::Url::parse_with_params(base, pairs.iter()).map(String::from)
}

/// The URL for `base` with `pairs` in its query, or the error for a malformed base.
pub open spec fn query_url_result(base: Seq<char>, pairs: Seq<(Seq<char>, Seq<char>)>, r: Result<String, Error>) -> bool {
    match url_with_params(base, pairs) {
        Some(u) => r matches Ok(s) && s@ == u,
        None => r matches Err(Error::Api { status, message }) && status == 400 && message@
            == "Invalid URL"@,
    }
}

fn query_url(base: &str, pairs: &Vec<(String, String)>) -> (r: Result<String, Error>)
    ensures
        query_url_result(base@, pair_views(pairs@), r),
{
    match parse_url_with_params(base, pairs) {
        Ok(s) => Ok(s),
        Err(_) => {
            proof {
                reveal_strlit("Invalid URL");
            }
            Err(Error::Api { status: 400, message: String::from_str("Invalid URL") })
        },
    }
}

/// The query of a search: the terms, then the limit if there is one.
pub open spec fn search_pairs(query: Seq<char>, limit: Option<u32>) -> Seq<(Seq<char>, Seq<char>)> {
    match limit {
        Some(n) => seq![("q"@, query), ("limit"@, decimal(n as nat))],
        None => seq![("q"@, query)],
    }
}

/// The address of an endpoint: `{prefix}/{version}/{path}`.
pub open spec fn endpoint(prefix: Seq<char>, version: Seq<char>, path: Seq<char>) -> Seq<char> {
    prefix + "/"@ + version + "/"@ + path
}

fn endpoint_text(prefix: &str, version: &str, path: &str) -> (r: String)
    ensures
        r@ == endpoint(prefix@, version@, path@),
{
    let a = join3(prefix, "/", version);
    join3(a.as_str(), "/", path)
}

impl KagiClient {
    /// A client for the public API, with version `v0` of every endpoint.
    pub fn new(api_key: &str) -> (r: KagiClient)
        ensures
            r.api_key@ == api_key@,
            r.base_url_prefix@ == API_BASE_URL_PREFIX@,
            r.search_api_version@ == "v0"@,
            r.summarizer_api_version@ == "v0"@,
            r.fastgpt_api_version@ == "v0"@,
            r.enrich_api_version@ == "v0"@,
    {
        KagiClient::with_base_url_prefix(api_key, API_BASE_URL_PREFIX)
    }

    /// A client for the API under another address, with version `v0` of every endpoint.
    pub fn with_base_url_prefix(api_key: &str, base_url_prefix: &str) -> (r: KagiClient)
        ensures
            r.api_key@ == api_key@,
            r.base_url_prefix@ == base_url_prefix@,
            r.search_api_version@ == "v0"@,
            r.summarizer_api_version@ == "v0"@,
            r.fastgpt_api_version@ == "v0"@,
            r.enrich_api_version@ == "v0"@,
    {
        KagiClient {
            api_key: String::from_str(api_key),
            search_api_version: String::from_str("v0"),
            summarizer_api_version: String::from_str("v0"),
            fastgpt_api_version: String::from_str("v0"),
            enrich_api_version: String::from_str("v0"),
            base_url_prefix: String::from_str(base_url_prefix),
        }
    }

    /// A client for the public API with a version for each endpoint.
    pub fn with_api_versions(
        api_key: &str,
        search_version: &str,
        summarizer_version: &str,
        fastgpt_version: &str,
        enrich_version: &str,
    ) -> (r: KagiClient)
        ensures
            r.api_key@ == api_key@,
            r.base_url_prefix@ == API_BASE_URL_PREFIX@,
            r.search_api_version@ == search_version@,
            r.summarizer_api_version@ == summarizer_version@,
            r.fastgpt_api_version@ == fastgpt_version@,
            r.enrich_api_version@ == enrich_version@,
    {
        KagiClient {
            api_key: String::from_str(api_key),
            search_api_version: String::from_str(search_version),
            summarizer_api_version: String::from_str(summarizer_version),
            fastgpt_api_version: String::from_str(fastgpt_version),
            enrich_api_version: String::from_str(enrich_version),
            base_url_prefix: String::from_str(API_BASE_URL_PREFIX),
        }
    }

    /// The value of the `Authorization` header.
    pub fn authorization(&self) -> (r: String)
        ensures
            r@ == "Bot "@ + self.api_key@,
    {
        join2("Bot ", self.api_key.as_str())
    }

    /// The URL of a search for `query`, at most `limit` results.
    pub fn search_url(&self, query: &str, limit: Option<u32>) -> (r: Result<String, Error>)
        ensures
            query_url_result(
                endpoint(self.base_url_prefix@, self.search_api_version@, "search"@),
                search_pairs(query@, limit),
                r,
            ),
    {
        let base = endpoint_text(self.base_url_prefix.as_str(), self.search_api_version.as_str(), "search");
        let mut pairs: Vec<(String, String)> = Vec::new();
        pairs.push((String::from_str("q"), String::from_str(query)));
        match limit {
            Some(n) => {
                pairs.push((String::from_str("limit"), decimal_text(n as u64)));
            },
            None => {},
        }
        assert(pair_views(pairs@) =~= search_pairs(query@, limit));
        query_url(base.as_str(), &pairs)
    }

    /// The URL of an enrichment query for `query` in the `enrich_type` index.
    pub fn enrich_url(&self, query: &str, enrich_type: EnrichType) -> (r: Result<String, Error>)
        ensures
            query_url_result(
                endpoint(self.base_url_prefix@, self.enrich_api_version@, "enrich/"@ + enrich_type.spec_name()),
                seq![("q"@, query@)],
                r,
            ),
    {
        let path = join2("enrich/", enrich_type.api_name());
        let base = endpoint_text(self.base_url_prefix.as_str(), self.enrich_api_version.as_str(), path.as_str());
        let mut pairs: Vec<(String, String)> = Vec::new();
        pairs.push((String::from_str("q"), String::from_str(query)));
        assert(pair_views(pairs@) =~= seq![("q"@, query@)]);
        query_url(base.as_str(), &pairs)
    }

    /// The URL the summarizer is posted to.
    pub fn summarize_url(&self) -> (r: String)
        ensures
            r@ == endpoint(self.base_url_prefix@, self.summarizer_api_version@, "summarize"@),
    {
        endpoint_text(self.base_url_prefix.as_str(), self.summarizer_api_version.as_str(), "summarize")
    }

    /// The URL FastGPT questions are posted to.
    pub fn fastgpt_url(&self) -> (r: String)
        ensures
            r@ == endpoint(self.base_url_prefix@, self.fastgpt_api_version@, "fastgpt"@),
    {
        endpoint_text(self.base_url_prefix.as_str(), self.fastgpt_api_version.as_str(), "fastgpt")
    }
}

/// The members of a summarizer request: the document, then the options that are given.
pub open spec fn summarize_members(
    source_key: Seq<char>,
    source: Seq<char>,
    engine: Option<SummarizerEngine>,
    summary_type: Option<SummaryType>,
    target_language: Option<Seq<char>>,
) -> Seq<(Seq<char>, Json)> {
    let a = seq![(source_key, Json::Str(source))];
    let b = match engine {
        Some(e) => a.push(("engine"@, Json::Str(e.spec_name()))),
        None => a,
    };
    let c = match summary_type {
        Some(t) => b.push(("summary_type"@, Json::Str(t.spec_name()))),
        None => b,
    };
    match target_language {
        Some(l) => c.push(("target_language"@, Json::Str(l))),
        None => c,
    }
}

/// The body of a summarizer request. `source_key` is `url` for a page and `text` for
/// text given directly.
pub fn summarize_body(
    source_key: &str,
    source: &str,
    engine: Option<SummarizerEngine>,
    summary_type: Option<SummaryType>,
    target_language: Option<&str>,
) -> (r: JsonValue)
    ensures
        r@ == Json::Object(
            summarize_members(
                source_key@,
                source@,
                engine,
                summary_type,
                match target_language {
                    Some(l) => Some(l@),
                    None => None,
                },
            ),
        ),
{
    let mut members: Vec<(String, JsonValue)> = Vec::new();
    members.push((String::from_str(source_key), JsonValue::text(source)));
    let ghost a = member_views(members@);
    match engine {
        Some(e) => members.push((String::from_str("engine"), JsonValue::text(e.api_name()))),
        None => {},
    }
    let ghost b = member_views(members@);
    match summary_type {
        Some(t) => members.push((String::from_str("summary_type"), JsonValue::text(t.api_name()))),
        None => {},
    }
    let ghost c = member_views(members@);
    match target_language {
        Some(l) => members.push((String::from_str("target_language"), JsonValue::text(l))),
        None => {},
    }
    let r = JsonValue::Object(members);
    proof {
        lemma_object_view(r);
        assert(a =~= seq![(source_key@, Json::Str(source@))]);
        match engine {
            Some(e) => assert(b =~= a.push(("engine"@, Json::Str(e.spec_name())))),
            None => assert(b =~= a),
        }
        match summary_type {
            Some(t) => assert(c =~= b.push(("summary_type"@, Json::Str(t.spec_name())))),
            None => assert(c =~= b),
        }
        match target_language {
            Some(l) => assert(member_views(members@) =~= c.push(("target_language"@, Json::Str(l@)))),
            None => assert(member_views(members@) =~= c),
        }
    }
    r
}

/// The members of a FastGPT request: the question, then the flags that are given.
pub open spec fn fastgpt_members(query: Seq<char>, cache: Option<bool>, web_search: Option<bool>) -> Seq<(Seq<char>, Json)> {
    let a = seq![("query"@, Json::Str(query))];
    let b = match cache {
        Some(c) => a.push(("cache"@, Json::Bool(c))),
        None => a,
    };
    match web_search {
        Some(w) => b.push(("web_search"@, Json::Bool(w))),
        None => b,
    }
}

/// The body of a FastGPT request; the flags are JSON booleans.
pub fn fastgpt_body(query: &str, cache: Option<bool>, web_search: Option<bool>) -> (r: JsonValue)
    ensures
        r@ == Json::Object(fastgpt_members(query@, cache, web_search)),
{
    let mut members: Vec<(String, JsonValue)> = Vec::new();
    members.push((String::from_str("query"), JsonValue::text(query)));
    let ghost a = member_views(members@);
    match cache {
        Some(c) => members.push((String::from_str("cache"), JsonValue::Bool(c))),
        None => {},
    }
    let ghost b = member_views(members@);
    match web_search {
        Some(w) => members.push((String::from_str("web_search"), JsonValue::Bool(w))),
        None => {},
    }
    let r = JsonValue::Object(members);
    proof {
        lemma_object_view(r);
        assert(a =~= seq![("query"@, Json::Str(query@))]);
        match cache {
            Some(c) => assert(b =~= a.push(("cache"@, Json::Bool(c)))),
            None => assert(b =~= a),
        }
        match web_search {
            Some(w) => assert(member_views(members@) =~= b.push(("web_search"@, Json::Bool(w)))),
            None => assert(member_views(members@) =~= b),
        }
    }
    r
}

/// How a request is sent.
#[derive(Clone, Copy, PartialEq, Eq, Structural)]
pub enum HttpMethod {
    Get,
    Post,
}

/// A request to the API, ready to be sent: the JSON body, if any, goes as
/// `application/json`.
pub struct ApiRequest {
    pub method: HttpMethod,
    pub url: String,
    /// The value of the `Authorization` header.
    pub authorization: String,
    pub body: Option<JsonValue>,
}

impl KagiClient {
    /// The request of a web search for `query`, at most `limit` results.
    pub fn search(&self, query: &str, limit: Option<u32>) -> (r: Result<ApiRequest, Error>)
        ensures
            match url_with_params(
                endpoint(self.base_url_prefix@, self.search_api_version@, "search"@),
                search_pairs(query@, limit),
            ) {
                Some(u) => r matches Ok(req) && req.method == HttpMethod::Get && req.url@ == u
                    && req.authorization@ == "Bot "@ + self.api_key@ && req.body is None,
                None => r matches Err(Error::Api { status, message }) && status == 400 && message@
                    == "Invalid URL"@,
            },
    {
        match self.search_url(query, limit) {
            Ok(url) => Ok(ApiRequest { method: HttpMethod::Get, url, authorization: self.authorization(), body: None }),
            Err(e) => Err(e),
        }
    }

    /// The request of a summary of the document at `url`.
    pub fn summarize(
        &self,
        url: &str,
        engine: Option<SummarizerEngine>,
        summary_type: Option<SummaryType>,
        target_language: Option<&str>,
    ) -> (r: ApiRequest)
        ensures
            r.method == HttpMethod::Post,
            r.url@ == endpoint(self.base_url_prefix@, self.summarizer_api_version@, "summarize"@),
            r.authorization@ == "Bot "@ + self.api_key@,
            r.body matches Some(b) && b@ == Json::Object(
                summarize_members(
                    "url"@,
                    url@,
                    engine,
                    summary_type,
                    match target_language {
                        Some(l) => Some(l@),
                        None => None,
                    },
                ),
            ),
    {
        ApiRequest {
            method: HttpMethod::Post,
            url: self.summarize_url(),
            authorization: self.authorization(),
            body: Some(summarize_body("url", url, engine, summary_type, target_language)),
        }
    }

    /// The request of a summary of `text`, given directly.
    pub fn summarize_text(
        &self,
        text: &str,
        engine: Option<SummarizerEngine>,
        summary_type: Option<SummaryType>,
        target_language: Option<&str>,
    ) -> (r: ApiRequest)
        ensures
            r.method == HttpMethod::Post,
            r.url@ == endpoint(self.base_url_prefix@, self.summarizer_api_version@, "summarize"@),
            r.authorization@ == "Bot "@ + self.api_key@,
            r.body matches Some(b) && b@ == Json::Object(
                summarize_members(
                    "text"@,
                    text@,
                    engine,
                    summary_type,
                    match target_language {
                        Some(l) => Some(l@),
                        None => None,
                    },
                ),
            ),
    {
        ApiRequest {
            method: HttpMethod::Post,
            url: self.summarize_url(),
            authorization: self.authorization(),
            body: Some(summarize_body("text", text, engine, summary_type, target_language)),
        }
    }

    /// The request of a FastGPT answer to `query`.
    pub fn fastgpt(&self, query: &str, cache: Option<bool>, web_search: Option<bool>) -> (r: ApiRequest)
        ensures
            r.method == HttpMethod::Post,
            r.url@ == endpoint(self.base_url_prefix@, self.fastgpt_api_version@, "fastgpt"@),
            r.authorization@ == "Bot "@ + self.api_key@,
            r.body matches Some(b) && b@ == Json::Object(fastgpt_members(query@, cache, web_search)),
    {
        ApiRequest {
            method: HttpMethod::Post,
            url: self.fastgpt_url(),
            authorization: self.authorization(),
            body: Some(fastgpt_body(query, cache, web_search)),
        }
    }

    /// The request of an enrichment query for `query` in the `enrich_type` index.
    pub fn enrich(&self, query: &str, enrich_type: EnrichType) -> (r: Result<ApiRequest, Error>)
        ensures
            match url_with_params(
                endpoint(self.base_url_prefix@, self.enrich_api_version@, "enrich/"@ + enrich_type.spec_name()),
                seq![("q"@, query@)],
            ) {
                Some(u) => r matches Ok(req) && req.method == HttpMethod::Get && req.url@ == u
                    && req.authorization@ == "Bot "@ + self.api_key@ && req.body is None,
                None => r matches Err(Error::Api { status, message }) && status == 400 && message@
                    == "Invalid URL"@,
            },
    {
        match self.enrich_url(query, enrich_type) {
            Ok(url) => Ok(ApiRequest { method: HttpMethod::Get, url, authorization: self.authorization(), body: None }),
            Err(e) => Err(e),
        }
    }
}

} // verus!
