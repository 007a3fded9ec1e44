//! What a search makes of the answer to its request.

use vstd::prelude::*;
use crate::arxiv::{optional_text, paper_views, text_or, ArxivPaper, PaperView};
use crate::feed::{parse_arxiv_xml, parsed};
use crate::text::concat;

verus! {

/// How the request for a search went.
#[derive(Debug, Clone)]
pub enum Fetched {
    /// No client could be set up.
    ClientFailed { cause: String },
    /// The request could not be sent or was not answered.
    SendFailed { timed_out: bool, connecting: bool, cause: String },
    /// The service answered with a status other than success: the status
    /// code, its standard phrase if it has one, and the status as shown.
    Refused { code: u16, reason: Option<String>, status: String },
    /// The body of the answer could not be read.
    Unreadable { cause: String },
    /// The body of the answer.
    Body(String),
}

/// The answer to a request as a mathematical value.
pub ghost enum FetchedView {
    ClientFailed { cause: Seq<char> },
    SendFailed { timed_out: bool, connecting: bool, cause: Seq<char> },
    Refused { code: u16, reason: Option<Seq<char>>, status: Seq<char> },
    Unreadable { cause: Seq<char> },
    Body(Seq<char>),
}

impl View for Fetched {
    type V = FetchedView;

    open spec fn view(&self) -> FetchedView {
        match self {
            Fetched::ClientFailed { cause } => FetchedView::ClientFailed { cause: cause@ },
            Fetched::SendFailed { timed_out, connecting, cause } => FetchedView::SendFailed {
                timed_out: *timed_out,
                connecting: *connecting,
                cause: cause@,
            },
            Fetched::Refused { code, reason, status } => FetchedView::Refused {
                code: *code,
                reason: optional_text(*reason),
                status: status@,
            },
            Fetched::Unreadable { cause } => FetchedView::Unreadable { cause: cause@ },
            Fetched::Body(body) => FetchedView::Body(body@),
        }
    }
}

/// Whether a status code stands for success.
pub fn is_success(code: u16) -> (r: bool)
    ensures
        r == (200 <= code < 300),
{
    200 <= code && code < 300
}

/// What is said of a request that was not answered.
pub open spec fn send_failure(timed_out: bool, connecting: bool, cause: Seq<char>) -> Seq<char> {
    if timed_out {
        "Request timed out. Please check your internet connection and try again."@
    } else if connecting {
        "Failed to connect to ArXiv. Please check your internet connection."@
    } else {
        "Network error: "@ + cause
    }
}

/// What is said of an answer with a status other than success.
pub open spec fn status_failure(code: u16, reason: Option<Seq<char>>, status: Seq<char>) -> Seq<
    char,
> {
    if code == 429 {
        "Too many requests to ArXiv. Please wait a moment and try again."@
    } else if 500 <= code <= 599 {
        "ArXiv service is temporarily unavailable. Please try again later."@
    } else {
        "ArXiv API error: "@ + text_or(reason, "Unknown"@) + " ("@ + status + ")"@
    }
}

/// What a body amounts to: its papers, unless it is empty or cannot be read
/// as a feed.
pub open spec fn body_outcome(body: Seq<char>) -> Result<Seq<PaperView>, Seq<char>> {
    if body.len() == 0 {
        Err("Received empty response from ArXiv. Please try again."@)
    } else {
        match parsed(body) {
            Ok(papers) => Ok(papers),
            Err(message) => Err("Failed to parse ArXiv response: "@ + message),
        }
    }
}

/// What a search amounts to, given how its request went.
pub open spec fn fetch_outcome(fetched: FetchedView) -> Result<Seq<PaperView>, Seq<char>> {
    match fetched {
        FetchedView::ClientFailed { cause } => Err("Failed to create HTTP client: "@ + cause),
        FetchedView::SendFailed { timed_out, connecting, cause } => Err(
            send_failure(timed_out, connecting, cause),
        ),
        FetchedView::Refused { code, reason, status } => Err(status_failure(code, reason, status)),
        FetchedView::Unreadable { cause } => Err("Failed to read response from ArXiv: "@ + cause),
        FetchedView::Body(body) => body_outcome(body),
    }
}

/// The papers of a result, or its error's text.
pub open spec fn result_view(r: Result<Vec<ArxivPaper>, String>) -> Result<
    Seq<PaperView>,
    Seq<char>,
> {
    match r {
        Ok(papers) => Ok(paper_views(papers@)),
        Err(message) => Err(message@),
    }
}

/// Reads the papers out of the body of an answer.
pub fn read_body(body: &str) -> (r: Result<Vec<ArxivPaper>, String>)
    ensures
        result_view(r) == body_outcome(body@),
{
    if body.is_empty() {
        return Err(String::from_str("Received empty response from ArXiv. Please try again."));
    }
    match parse_arxiv_xml(body) {
        Ok(papers) => Ok(papers),
        Err(message) => Err(concat("Failed to parse ArXiv response: ", message.as_str())),
    }
}

/// Decides what a search amounts to, given how its request went: the papers
/// of the answer's body, or the text of the failure.
pub fn fetch_arxiv_papers(fetched: Fetched) -> (r: Result<Vec<ArxivPaper>, String>)
    ensures
        result_view(r) == fetch_outcome(fetched@),
{
    match fetched {
        Fetched::ClientFailed { cause } => Err(
            concat("Failed to create HTTP client: ", cause.as_str()),
        ),
        Fetched::SendFailed { timed_out, connecting, cause } => {
            if timed_out {
                Err(
                    String::from_str(
                        "Request timed out. Please check your internet connection and try again.",
                    ),
                )
            } else if connecting {
                Err(
                    String::from_str(
                        "Failed to connect to ArXiv. Please check your internet connection.",
                    ),
                )
            } else {
                Err(concat("Network error: ", cause.as_str()))
            }
        },
        Fetched::Refused { code, reason, status } => {
            if code == 429 {
                Err(
                    String::from_str(
                        "Too many requests to ArXiv. Please wait a moment and try again.",
                    ),
                )
            } else if 500 <= code && code <= 599 {
                Err(
                    String::from_str(
                        "ArXiv service is temporarily unavailable. Please try again later.",
                    ),
                )
            } else {
                let mut message = String::from_str("ArXiv API error: ");
                match &reason {
                    Some(reason) => message.append(reason.as_str()),
                    None => message.append("Unknown"),
                }
                message.append(" (");
                message.append(status.as_str());
                message.append(")");
                Err(message)
            }
        },
        Fetched::Unreadable { cause } => Err(
            concat("Failed to read response from ArXiv: ", cause.as_str()),
        ),
        Fetched::Body(body) => read_body(body.as_str()),
    }
}

} // verus!
