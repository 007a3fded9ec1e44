use paper_index::arxiv::{
    first_paper, friendly_error, get_paper_by_id, get_papers_by_categories, request_url,
    search_arxiv_papers, ArxivPaper, ArxivSearchOptions,
};

fn paper(id: &str) -> ArxivPaper {
    ArxivPaper {
        id: id.to_string(),
        title: String::new(),
        authors: String::new(),
        category: String::new(),
        published_date: String::new(),
        abstract_text: String::new(),
        download_url: String::new(),
        pdf_url: String::new(),
        categories: Vec::new(),
    }
}

#[test]
fn default_options_ask_for_twenty_by_relevance() {
    let options = ArxivSearchOptions::default();
    assert_eq!(options.max_results, Some(20));
    assert_eq!(options.sort_by.as_deref(), Some("relevance"));
    assert_eq!(options.sort_order.as_deref(), Some("descending"));
}

#[test]
fn url_encodes_spaces_and_carries_the_options() {
    let options = ArxivSearchOptions {
        max_results: Some(5),
        sort_by: Some("submittedDate".to_string()),
        sort_order: Some("ascending".to_string()),
    };
    assert_eq!(
        request_url("large language  models", &options),
        "https://export.arxiv.org/api/query?search_query=large+language++models&start=0&max_results=5&sortBy=submittedDate&sortOrder=ascending"
    );
}

#[test]
fn url_falls_back_on_missing_options() {
    let options = ArxivSearchOptions { max_results: None, sort_by: None, sort_order: None };
    assert_eq!(
        request_url("quantum", &options),
        "https://export.arxiv.org/api/query?search_query=quantum&start=0&max_results=20&sortBy=relevance&sortOrder=descending"
    );
}

#[test]
fn blank_query_asks_for_the_featured_categories() {
    let expected = "https://export.arxiv.org/api/query?search_query=cat:cs.AI+OR+cat:cs.LG+OR+cat:cs.CL+OR+cat:cs.CV&start=0&max_results=20&sortBy=relevance&sortOrder=descending";
    assert_eq!(search_arxiv_papers(String::new(), None), expected);
    assert_eq!(search_arxiv_papers(" \t\n\u{a0} ".to_string(), None), expected);
}

#[test]
fn a_query_is_sent_untrimmed() {
    assert_eq!(
        search_arxiv_papers(" x ".to_string(), None),
        "https://export.arxiv.org/api/query?search_query=+x+&start=0&max_results=20&sortBy=relevance&sortOrder=descending"
    );
}

#[test]
fn search_uses_the_options_given() {
    let options = ArxivSearchOptions {
        max_results: Some(4294967295),
        sort_by: None,
        sort_order: Some("ascending".to_string()),
    };
    assert_eq!(
        search_arxiv_papers("a".to_string(), Some(options)),
        "https://export.arxiv.org/api/query?search_query=a&start=0&max_results=4294967295&sortBy=relevance&sortOrder=ascending"
    );
}

#[test]
fn categories_are_joined_with_or() {
    let categories = vec!["cs.AI".to_string(), "stat.ML".to_string()];
    assert_eq!(
        get_papers_by_categories(categories, Some(7)),
        "https://export.arxiv.org/api/query?search_query=cat:cs.AI+OR+cat:stat.ML&start=0&max_results=7&sortBy=submittedDate&sortOrder=descending"
    );
    assert_eq!(
        get_papers_by_categories(vec!["math.CO".to_string()], None),
        "https://export.arxiv.org/api/query?search_query=cat:math.CO&start=0&max_results=20&sortBy=submittedDate&sortOrder=descending"
    );
}

#[test]
fn no_categories_ask_for_the_featured_ones() {
    assert_eq!(
        get_papers_by_categories(Vec::new(), None),
        "https://export.arxiv.org/api/query?search_query=cat:cs.AI+OR+cat:cs.LG+OR+cat:cs.CL+OR+cat:cs.CV&start=0&max_results=20&sortBy=submittedDate&sortOrder=descending"
    );
}

#[test]
fn one_paper_is_asked_for_by_id() {
    assert_eq!(
        get_paper_by_id("2311.18775".to_string()),
        "https://export.arxiv.org/api/query?search_query=id:2311.18775&start=0&max_results=1&sortBy=relevance&sortOrder=descending"
    );
}

#[test]
fn first_paper_is_the_head_of_the_list() {
    assert!(first_paper(Vec::new()).is_none());
    let first = first_paper(vec![paper("1"), paper("2")]).unwrap();
    assert_eq!(first.id, "1");
}

#[test]
fn failures_are_worded_for_the_user() {
    assert_eq!(
        friendly_error("operation timeout".to_string()),
        "Request timed out. Please check your internet connection and try again."
    );
    assert_eq!(
        friendly_error("could not connect: timeout".to_string()),
        "Request timed out. Please check your internet connection and try again."
    );
    assert_eq!(
        friendly_error("Failed to connect to ArXiv.".to_string()),
        "Unable to connect to ArXiv. Please check your internet connection."
    );
    assert_eq!(
        friendly_error("DNS lookup failed".to_string()),
        "DNS resolution failed. Please check your network settings."
    );
    assert_eq!(friendly_error("dns Timeout".to_string()), "dns Timeout");
    assert_eq!(friendly_error(String::new()), "");
}
