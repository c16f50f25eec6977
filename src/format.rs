//! How the tools' results are written out as text for the assistant.
use vstd::prelude::*;
use crate::kagi::{EnrichType, FastGptData, FastGptReference, Error, SearchResult, error_text};
use crate::text::{decimal, decimal_text, join2, join3};

verus! {

/// `s` and a line break, or nothing.
pub open spec fn opt_line(o: Option<String>) -> Seq<char> {
    match o {
        Some(s) => s@ + "\n"@,
        None => seq![],
    }
}

/// The lines of a list of related searches, `- item` each.
pub open spec fn related_lines(items: Seq<String>) -> Seq<char>
    decreases items.len(),
{
    if items.len() == 0 {
        seq![]
    } else {
        related_lines(items.drop_last()) + "- "@ + items.last()@ + "\n"@
    }
}

/// Whether a search entry takes a number: a full result (type 0 with title and URL),
/// or an entry of another type (not 1) with a title.
pub open spec fn is_numbered(r: SearchResult) -> bool {
    ||| r.result_type == 0 && r.title is Some && r.url is Some
    ||| r.result_type != 0 && r.result_type != 1 && r.title is Some
}

/// The text of one search entry, numbered `n` if it takes a number.
pub open spec fn search_entry(r: SearchResult, n: nat) -> Seq<char> {
    if r.result_type == 0 {
        if r.title is Some && r.url is Some {
            decimal(n) + ": "@ + r.title.unwrap()@ + "\n"@ + r.url.unwrap()@ + "\n"@ + "Published Date: "@
                + match r.published {
                Some(p) => p@,
                None => "Not Available"@,
            } + "\n"@ + opt_line(r.snippet) + "\n"@
        } else {
            seq![]
        }
    } else if r.result_type == 1 {
        match r.list {
            Some(items) => "Related searches:\n"@ + related_lines(items@) + "\n"@,
            None => seq![],
        }
    } else {
        match r.title {
            Some(t) => decimal(n) + ": "@ + t@ + "\n"@ + opt_line(r.url) + opt_line(r.snippet) + "\n"@,
            None => seq![],
        }
    }
}

/// How many of the first `k` entries take a number.
pub open spec fn numbered_before(rs: Seq<SearchResult>, k: int) -> nat
    decreases k,
{
    if k <= 0 {
        0
    } else {
        numbered_before(rs, k - 1) + if is_numbered(rs[k - 1]) {
            1nat
        } else {
            0nat
        }
    }
}

/// The text of the first `k` entries, numbered from 1 on.
pub open spec fn search_entries(rs: Seq<SearchResult>, k: int) -> Seq<char>
    decreases k,
{
    if k <= 0 {
        seq![]
    } else {
        search_entries(rs, k - 1) + search_entry(rs[k - 1], numbered_before(rs, k - 1) + 1)
    }
}

/// The text of the results of one search.
pub open spec fn search_results_text(query: Seq<char>, rs: Seq<SearchResult>) -> Seq<char> {
    "-----\nResults for search query \""@ + query + "\":\n-----\n"@ + search_entries(rs, rs.len() as int)
}

fn opt_line_text(o: &Option<String>) -> (r: String)
    ensures
        r@ == opt_line(*o),
{
    match o {
        Some(s) => join2(s.as_str(), "\n"),
        None => String::new(),
    }
}

fn related_text(items: &Vec<String>) -> (r: String)
    ensures
        r@ == related_lines(items@),
{
    let mut out = String::new();
    let mut i: usize = 0;
    while i < items.len()
        invariant
            i <= items@.len(),
            out@ == related_lines(items@.subrange(0, i as int)),
        decreases items@.len() - i,
    {
        assert(items@.subrange(0, i + 1).drop_last() =~= items@.subrange(0, i as int));
        out.append("- ");
        out.append(items[i].as_str());
        out.append("\n");
        i = i + 1;
    }
    assert(items@.subrange(0, items@.len() as int) =~= items@);
    out
}

/// The text of one search entry, numbered `n` if it takes a number.
pub fn search_entry_text(r: &SearchResult, n: u64) -> (out: String)
    ensures
        out@ == search_entry(*r, n as nat),
{
    let mut out = String::new();
    if r.result_type == 0 {
        match (&r.title, &r.url) {
            (Some(title), Some(url)) => {
                let num = decimal_text(n);
                out.append(num.as_str());
                out.append(": ");
                out.append(title.as_str());
                out.append("\n");
                out.append(url.as_str());
                out.append("\n");
                out.append("Published Date: ");
                match &r.published {
                    Some(p) => out.append(p.as_str()),
                    None => out.append("Not Available"),
                }
                out.append("\n");
                let snippet = opt_line_text(&r.snippet);
                out.append(snippet.as_str());
                out.append("\n");
            },
            _ => {},
        }
    } else if r.result_type == 1 {
        match &r.list {
            Some(items) => {
                out.append("Related searches:\n");
                let lines = related_text(items);
                out.append(lines.as_str());
                out.append("\n");
            },
            None => {},
        }
    } else {
        match &r.title {
            Some(title) => {
                let num = decimal_text(n);
                out.append(num.as_str());
                out.append(": ");
                out.append(title.as_str());
                out.append("\n");
                let url = opt_line_text(&r.url);
                out.append(url.as_str());
                let snippet = opt_line_text(&r.snippet);
                out.append(snippet.as_str());
                out.append("\n");
            },
            None => {},
        }
    }
    proof {
        assert(out@ =~= search_entry(*r, n as nat));
    }
    out
}

/// The text of the results of one search: a header naming the query, then each entry.
/// Full results and untyped entries with a title are numbered from 1 on; related searches
/// are listed; entries lacking what they need are left out.
pub fn format_search_results(query: &str, results: &Vec<SearchResult>) -> (r: String)
    ensures
        r@ == search_results_text(query@, results@),
{
    let mut out = join3("-----\nResults for search query \"", query, "\":\n-----\n");
    let ghost header = out@;
    let mut numbered: usize = 0;
    let mut i: usize = 0;
    while i < results.len()
        invariant
            i <= results@.len(),
            numbered == numbered_before(results@, i as int),
            numbered <= i,
            out@ == header + search_entries(results@, i as int),
        decreases results@.len() - i,
    {
        let entry = search_entry_text(&results[i], (numbered + 1) as u64);
        out.append(entry.as_str());
        if is_numbered_entry(&results[i]) {
            numbered = numbered + 1;
        }
        i = i + 1;
    }
    out
}

fn is_numbered_entry(r: &SearchResult) -> (b: bool)
    ensures
        b == is_numbered(*r),
{
    (r.result_type == 0 && r.title.is_some() && r.url.is_some()) || (r.result_type != 0
        && r.result_type != 1 && r.title.is_some())
}

/// The lines naming the first `k` references, numbered from 1 on.
pub open spec fn reference_lines(refs: Seq<FastGptReference>, k: int) -> Seq<char>
    decreases k,
{
    if k <= 0 {
        seq![]
    } else {
        reference_lines(refs, k - 1) + decimal(k as nat) + ". "@ + refs[k - 1].title@ + "\n"@ + "   "@
            + refs[k - 1].url@ + "\n"@
    }
}

/// A FastGPT answer as text: the answer, then its references if it has any.
pub open spec fn fastgpt_text(d: FastGptData) -> Seq<char> {
    if d.references@.len() == 0 {
        d.output@
    } else {
        d.output@ + "\n\nReferences:\n"@ + reference_lines(d.references@, d.references@.len() as int)
    }
}

/// A FastGPT answer as text: the answer, then its numbered references with their URLs.
pub fn format_fastgpt_answer(data: &FastGptData) -> (r: String)
    ensures
        r@ == fastgpt_text(*data),
{
    let mut out = data.output.clone();
    if data.references.len() > 0 {
        out.append("\n\nReferences:\n");
        let ghost head = out@;
        let mut i: usize = 0;
        while i < data.references.len()
            invariant
                i <= data.references@.len(),
                out@ == head + reference_lines(data.references@, i as int),
            decreases data.references@.len() - i,
        {
            let num = decimal_text((i + 1) as u64);
            out.append(num.as_str());
            out.append(". ");
            out.append(data.references[i].title.as_str());
            out.append("\n");
            out.append("   ");
            out.append(data.references[i].url.as_str());
            out.append("\n");
            i = i + 1;
        }
    }
    out
}

/// `text` on a line of its own after `prefix`, unless it is missing or empty.
pub open spec fn nonempty_line(prefix: Seq<char>, o: Option<String>) -> Seq<char> {
    match o {
        Some(s) => if s@.len() > 0 {
            prefix + s@ + "\n"@
        } else {
            seq![]
        },
        None => seq![],
    }
}

/// The text of the enrichment entry at index `i`; only full results (type 0) are shown.
pub open spec fn enrich_entry(r: SearchResult, i: nat) -> Seq<char> {
    if r.result_type == 0 {
        decimal(i + 1) + ". "@ + match r.title {
            Some(t) => t@,
            None => "[No Title]"@,
        } + "\n"@ + match r.url {
            Some(u) => "   URL: "@ + u@ + "\n"@,
            None => seq![],
        } + nonempty_line("   "@, r.snippet) + nonempty_line("   Published: "@, r.published) + "\n"@
    } else {
        seq![]
    }
}

/// The text of the first `k` enrichment entries.
pub open spec fn enrich_entries(rs: Seq<SearchResult>, k: int) -> Seq<char>
    decreases k,
{
    if k <= 0 {
        seq![]
    } else {
        enrich_entries(rs, k - 1) + enrich_entry(rs[k - 1], (k - 1) as nat)
    }
}

/// The text of an enrichment query's results.
pub open spec fn enrich_text(query: Seq<char>, kind: EnrichType, rs: Seq<SearchResult>) -> Seq<char> {
    "Kagi "@ + kind.spec_name() + " enrichment results for query: "@ + query + "\n\n"@ + enrich_entries(
        rs,
        rs.len() as int,
    )
}

fn nonempty_line_text(prefix: &str, o: &Option<String>) -> (r: String)
    ensures
        r@ == nonempty_line(prefix@, *o),
{
    match o {
        Some(s) => if s.as_str().unicode_len() > 0 {
            join3(prefix, s.as_str(), "\n")
        } else {
            String::new()
        },
        None => String::new(),
    }
}

fn enrich_entry_text(r: &SearchResult, i: usize) -> (out: String)
    requires
        i < usize::MAX,
    ensures
        out@ == enrich_entry(*r, i as nat),
{
    let mut out = String::new();
    if r.result_type == 0 {
        let num = decimal_text((i + 1) as u64);
        out.append(num.as_str());
        out.append(". ");
        match &r.title {
            Some(t) => out.append(t.as_str()),
            None => out.append("[No Title]"),
        }
        out.append("\n");
        match &r.url {
            Some(u) => {
                out.append("   URL: ");
                out.append(u.as_str());
                out.append("\n");
            },
            None => {},
        }
        let snippet = nonempty_line_text("   ", &r.snippet);
        out.append(snippet.as_str());
        let published = nonempty_line_text("   Published: ", &r.published);
        out.append(published.as_str());
        out.append("\n");
    }
    proof {
        assert(out@ =~= enrich_entry(*r, i as nat));
    }
    out
}

/// The text of an enrichment query's results: a header, then each full result numbered
/// by its place among all entries, with its URL, snippet and date where present.
pub fn format_enrich_results(query: &str, kind: EnrichType, results: &Vec<SearchResult>) -> (r: String)
    ensures
        r@ == enrich_text(query@, kind, results@),
{
    let head = join3("Kagi ", kind.api_name(), " enrichment results for query: ");
    let mut out = join3(head.as_str(), query, "\n\n");
    let ghost header = out@;
    let mut i: usize = 0;
    while i < results.len()
        invariant
            i <= results@.len(),
            out@ == header + enrich_entries(results@, i as int),
        decreases results@.len() - i,
    {
        let entry = enrich_entry_text(&results[i], i);
        out.append(entry.as_str());
        i = i + 1;
    }
    out
}

/// The message of a failed search.
pub fn search_failure(query: &str, e: &Error) -> (r: String)
    ensures
        r@ == "Search failed for query '"@ + query@ + "': "@ + error_text(*e),
{
    let m = e.message();
    let head = join3("Search failed for query '", query, "': ");
    join2(head.as_str(), m.as_str())
}

/// The message of a failed FastGPT question.
pub fn fastgpt_failure(query: &str, e: &Error) -> (r: String)
    ensures
        r@ == "FastGPT failed for query '"@ + query@ + "': "@ + error_text(*e),
{
    let m = e.message();
    let head = join3("FastGPT failed for query '", query, "': ");
    join2(head.as_str(), m.as_str())
}

/// The message of a failed enrichment query.
pub fn enrich_failure(query: &str, e: &Error) -> (r: String)
    ensures
        r@ == "Enrichment failed for query '"@ + query@ + "': "@ + error_text(*e),
{
    let m = e.message();
    let head = join3("Enrichment failed for query '", query, "': ");
    join2(head.as_str(), m.as_str())
}

/// The message of a failed summary.
pub fn summarize_failure(e: &Error) -> (r: String)
    ensures
        r@ == "Summarization failed: "@ + error_text(*e),
{
    let m = e.message();
    join2("Summarization failed: ", m.as_str())
}

} // verus!
