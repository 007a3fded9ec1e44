use paper_index::fetch::{fetch_arxiv_papers, is_success, read_body, Fetched};

#[test]
fn success_is_any_status_in_the_two_hundreds() {
    assert!(is_success(200));
    assert!(is_success(299));
    assert!(!is_success(199));
    assert!(!is_success(300));
    assert!(!is_success(404));
}

#[test]
fn a_failed_client_is_reported() {
    let error = fetch_arxiv_papers(Fetched::ClientFailed { cause: "no TLS".to_string() }).unwrap_err();
    assert_eq!(error, "Failed to create HTTP client: no TLS");
}

#[test]
fn a_request_that_was_not_answered_is_reported() {
    let send = |timed_out, connecting| {
        fetch_arxiv_papers(Fetched::SendFailed { timed_out, connecting, cause: "reset".to_string() })
            .unwrap_err()
    };
    assert_eq!(
        send(true, false),
        "Request timed out. Please check your internet connection and try again."
    );
    assert_eq!(
        send(true, true),
        "Request timed out. Please check your internet connection and try again."
    );
    assert_eq!(
        send(false, true),
        "Failed to connect to ArXiv. Please check your internet connection."
    );
    assert_eq!(send(false, false), "Network error: reset");
}

#[test]
fn a_status_other_than_success_is_reported() {
    let refused = |code, reason: Option<&str>, status: &str| {
        fetch_arxiv_papers(Fetched::Refused {
            code,
            reason: reason.map(|r| r.to_string()),
            status: status.to_string(),
        })
        .unwrap_err()
    };
    assert_eq!(
        refused(429, Some("Too Many Requests"), "429 Too Many Requests"),
        "Too many requests to ArXiv. Please wait a moment and try again."
    );
    for code in [500, 503, 599] {
        assert_eq!(
            refused(code, None, "5xx"),
            "ArXiv service is temporarily unavailable. Please try again later."
        );
    }
    assert_eq!(
        refused(404, Some("Not Found"), "404 Not Found"),
        "ArXiv API error: Not Found (404 Not Found)"
    );
    assert_eq!(refused(600, None, "600"), "ArXiv API error: Unknown (600)");
    assert_eq!(refused(499, None, "499"), "ArXiv API error: Unknown (499)");
}

#[test]
fn an_unreadable_or_empty_body_is_reported() {
    let error =
        fetch_arxiv_papers(Fetched::Unreadable { cause: "truncated".to_string() }).unwrap_err();
    assert_eq!(error, "Failed to read response from ArXiv: truncated");
    let error = fetch_arxiv_papers(Fetched::Body(String::new())).unwrap_err();
    assert_eq!(error, "Received empty response from ArXiv. Please try again.");
    assert_eq!(
        read_body("").unwrap_err(),
        "Received empty response from ArXiv. Please try again."
    );
}

#[test]
fn a_body_is_read_as_a_feed() {
    let body = "<feed><entry><id>http://arxiv.org/abs/1706.03762v7</id></entry></feed>";
    let papers = fetch_arxiv_papers(Fetched::Body(body.to_string())).unwrap();
    assert_eq!(papers.len(), 1);
    assert_eq!(papers[0].id, "1706.03762");
    assert!(read_body(" ").unwrap().is_empty());
}

#[test]
fn a_body_that_is_no_feed_is_reported() {
    let error = fetch_arxiv_papers(Fetched::Body("<a></b>".to_string())).unwrap_err();
    assert!(error.starts_with("Failed to parse ArXiv response: "), "{}", error);
    assert!(error.len() > "Failed to parse ArXiv response: ".len());
}
