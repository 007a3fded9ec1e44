//! Records and request options of the bibliographic search client.

use vstd::prelude::*;
use crate::text::{
    contains, contains_text, decimal, join, joined, push_decimal, replace_char, replaced_char,
    text_views, trim, trimmed,
};

verus! {

/// One paper as the bibliographic feed describes it.
#[derive(Debug, Clone)]
pub struct ArxivPaper {
    pub id: String,
    pub title: String,
    pub authors: String,
    pub category: String,
    pub published_date: String,
    pub abstract_text: String,
    pub download_url: String,
    pub pdf_url: String,
    pub categories: Vec<String>,
}

/// How many results a search asks for, and in which order.
#[derive(Debug, Clone)]
pub struct ArxivSearchOptions {
    pub max_results: Option<u32>,
    pub sort_by: Option<String>,
    pub sort_order: Option<String>,
}

impl Default for ArxivSearchOptions {
    /// Twenty results, by relevance, best first.
    fn default() -> (r: Self)
        ensures
            r.max_results == Some(20u32),
            r.sort_by matches Some(s) && s@ == "relevance"@,
            r.sort_order matches Some(s) && s@ == "descending"@,
    {
        ArxivSearchOptions {
            max_results: Some(20),
            sort_by: Some(String::from_str("relevance")),
            sort_order: Some(String::from_str("descending")),
        }
    }
}

/// A paper as a mathematical value.
pub ghost struct PaperView {
    pub id: Seq<char>,
    pub title: Seq<char>,
    pub authors: Seq<char>,
    pub category: Seq<char>,
    pub published_date: Seq<char>,
    pub abstract_text: Seq<char>,
    pub download_url: Seq<char>,
    pub pdf_url: Seq<char>,
    pub categories: Seq<Seq<char>>,
}

impl View for ArxivPaper {
    type V = PaperView;

    open spec fn view(&self) -> PaperView {
        PaperView {
            id: self.id@,
            title: self.title@,
            authors: self.authors@,
            category: self.category@,
            published_date: self.published_date@,
            abstract_text: self.abstract_text@,
            download_url: self.download_url@,
            pdf_url: self.pdf_url@,
            categories: text_views(self.categories@),
        }
    }
}

/// The papers of a list, in order.
pub open spec fn paper_views(papers: Seq<ArxivPaper>) -> Seq<PaperView> {
    Seq::new(papers.len(), |i: int| papers[i]@)
}

/// Search options as a mathematical value.
pub ghost struct OptionsView {
    pub max_results: Option<u32>,
    pub sort_by: Option<Seq<char>>,
    pub sort_order: Option<Seq<char>>,
}

/// The contents of a string that may be absent.
pub open spec fn optional_text(text: Option<String>) -> Option<Seq<char>> {
    match text {
        Some(text) => Some(text@),
        None => None,
    }
}

impl View for ArxivSearchOptions {
    type V = OptionsView;

    open spec fn view(&self) -> OptionsView {
        OptionsView {
            max_results: self.max_results,
            sort_by: optional_text(self.sort_by),
            sort_order: optional_text(self.sort_order),
        }
    }
}

/// The options of a search that names none.
pub open spec fn default_options() -> OptionsView {
    OptionsView {
        max_results: Some(20u32),
        sort_by: Some("relevance"@),
        sort_order: Some("descending"@),
    }
}

/// The options of a search for the newest papers.
pub open spec fn newest_first(max_results: u32) -> OptionsView {
    OptionsView {
        max_results: Some(max_results),
        sort_by: Some("submittedDate"@),
        sort_order: Some("descending"@),
    }
}

/// The query that is sent for `query`: a selection of featured categories
/// where `query` is blank, else `query` itself.
pub open spec fn effective_query(query: Seq<char>) -> Seq<char> {
    if trimmed(query).len() == 0 {
        "cat:cs.AI+OR+cat:cs.LG+OR+cat:cs.CL+OR+cat:cs.CV"@
    } else {
        query
    }
}

/// The text of `text`, or `fallback` if there is none.
pub open spec fn text_or(text: Option<Seq<char>>, fallback: Seq<char>) -> Seq<char> {
    match text {
        Some(text) => text,
        None => fallback,
    }
}

/// The address at which a search is asked for: the query with `+` for every
/// space, the number of results (20 unless given), and the order (by
/// relevance, descending, unless given).
pub open spec fn search_url(query: Seq<char>, options: OptionsView) -> Seq<char> {
    let max_results: u32 = match options.max_results {
        Some(n) => n,
        None => 20u32,
    };
    "https://export.arxiv.org/api/query"@ + "?search_query="@ + replaced_char(
        effective_query(query),
        ' ',
        "+"@,
        0,
    ) + "&start=0&max_results="@ + decimal(max_results as nat) + "&sortBy="@ + text_or(
        options.sort_by,
        "relevance"@,
    ) + "&sortOrder="@ + text_or(options.sort_order, "descending"@)
}

/// Builds the address at which a search with the given options is asked for.
pub fn request_url(query: &str, options: &ArxivSearchOptions) -> (url: String)
    ensures
        url@ == search_url(query@, options@),
{
    let max_results: u32 = match options.max_results {
        Some(n) => n,
        None => 20,
    };
    let sort_by: &str = match &options.sort_by {
        Some(s) => s.as_str(),
        None => "relevance",
    };
    let sort_order: &str = match &options.sort_order {
        Some(s) => s.as_str(),
        None => "descending",
    };
    let actual: &str = if trim(query).as_str().is_empty() {
        "cat:cs.AI+OR+cat:cs.LG+OR+cat:cs.CL+OR+cat:cs.CV"
    } else {
        query
    };
    let encoded = replace_char(actual, ' ', "+");
    let mut url = String::from_str("https://export.arxiv.org/api/query");
    url.append("?search_query=");
    url.append(encoded.as_str());
    url.append("&start=0&max_results=");
    push_decimal(&mut url, max_results as u64);
    url.append("&sortBy=");
    url.append(sort_by);
    url.append("&sortOrder=");
    url.append(sort_order);
    url
}

/// The address to fetch for a search: that of `request_url`, with the
/// default options where none are given.
pub fn search_arxiv_papers(query: String, options: Option<ArxivSearchOptions>) -> (url: String)
    ensures
        url@ == search_url(
            query@,
            match options {
                Some(options) => options@,
                None => default_options(),
            },
        ),
{
    let search_options = match options {
        Some(options) => options,
        None => ArxivSearchOptions::default(),
    };
    request_url(query.as_str(), &search_options)
}

/// The query for papers of any of the given categories: `cat:` and the
/// category for each, joined by `+OR+`.
pub open spec fn category_query(categories: Seq<Seq<char>>) -> Seq<char> {
    joined(Seq::new(categories.len(), |i: int| "cat:"@ + categories[i]), "+OR+"@, 0)
}

/// The number of results asked for where none is given.
pub open spec fn results_or_default(max_results: Option<u32>) -> u32 {
    match max_results {
        Some(n) => n,
        None => 20u32,
    }
}

fn newest(max_results: Option<u32>) -> (options: ArxivSearchOptions)
    ensures
        options@ == newest_first(results_or_default(max_results)),
{
    let max_results: u32 = match max_results {
        Some(n) => n,
        None => 20,
    };
    ArxivSearchOptions {
        max_results: Some(max_results),
        sort_by: Some(String::from_str("submittedDate")),
        sort_order: Some(String::from_str("descending")),
    }
}

/// The address to fetch for the newest papers of the given categories, or
/// of the featured categories where none is given.
pub fn get_papers_by_categories(categories: Vec<String>, max_results: Option<u32>) -> (url: String)
    ensures
        url@ == search_url(
            category_query(text_views(categories@)),
            newest_first(results_or_default(max_results)),
        ),
{
    let options = newest(max_results);
    let mut terms: Vec<String> = Vec::new();
    let mut i: usize = 0;
    while i < categories.len()
        invariant
            0 <= i <= categories.len(),
            terms.len() == i,
            forall|k: int| 0 <= k < i ==> (#[trigger] terms[k])@ == "cat:"@ + categories[k]@,
        decreases categories.len() - i,
    {
        terms.push(crate::text::concat("cat:", categories[i].as_str()));
        i += 1;
    }
    let query = join(&terms, "+OR+");
    proof {
        let cats = text_views(categories@);
        assert(text_views(terms@) =~= Seq::new(cats.len(), |i: int| "cat:"@ + cats[i]));
    }
    request_url(query.as_str(), &options)
}

/// The options of a search for one paper by its identifier.
pub open spec fn single_result() -> OptionsView {
    OptionsView {
        max_results: Some(1u32),
        sort_by: Some("relevance"@),
        sort_order: Some("descending"@),
    }
}

/// The address to fetch for the paper with the given identifier.
pub fn get_paper_by_id(arxiv_id: String) -> (url: String)
    ensures
        url@ == search_url("id:"@ + arxiv_id@, single_result()),
{
    let query = crate::text::concat("id:", arxiv_id.as_str());
    let options = ArxivSearchOptions {
        max_results: Some(1),
        sort_by: Some(String::from_str("relevance")),
        sort_order: Some(String::from_str("descending")),
    };
    request_url(query.as_str(), &options)
}

/// The first of the papers found, if any.
pub fn first_paper(papers: Vec<ArxivPaper>) -> (r: Option<ArxivPaper>)
    ensures
        match r {
            Some(paper) => papers.len() > 0 && paper == papers[0],
            None => papers.len() == 0,
        },
{
    let mut papers = papers;
    if papers.len() == 0 {
        None
    } else {
        Some(papers.remove(0))
    }
}

/// What is shown for a failed search: a hint at the network where the
/// failure speaks of a timeout, of connecting, or of DNS (looked for in this
/// order), else the failure's own text.
pub open spec fn friendly(message: Seq<char>) -> Seq<char> {
    if contains_text(message, "timeout"@) {
        "Request timed out. Please check your internet connection and try again."@
    } else if contains_text(message, "connect"@) {
        "Unable to connect to ArXiv. Please check your internet connection."@
    } else if contains_text(message, "DNS"@) {
        "DNS resolution failed. Please check your network settings."@
    } else {
        message
    }
}

/// Words a failed search for the user.
pub fn friendly_error(message: String) -> (r: String)
    ensures
        r@ == friendly(message@),
{
    if contains(message.as_str(), "timeout") {
        String::from_str("Request timed out. Please check your internet connection and try again.")
    } else if contains(message.as_str(), "connect") {
        String::from_str("Unable to connect to ArXiv. Please check your internet connection.")
    } else if contains(message.as_str(), "DNS") {
        String::from_str("DNS resolution failed. Please check your network settings.")
    } else {
        message
    }
}

} // verus!
