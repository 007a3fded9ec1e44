//! Reading papers out of the Atom feed that a search returns.
//!
//! The feed is cut into tokens by the `quick_xml` reader; what the tokens
//! mean is decided here.  `feed_spec` says what one token does to the state
//! of the reading, and `parsed` what a whole document amounts to.

use vstd::prelude::*;
use quick_xml::events::{BytesStart, BytesText, Event};
use quick_xml::Reader;
use crate::arxiv::{paper_views, ArxivPaper, PaperView};
use crate::category::{format_category, format_category_spec};
use crate::text::{
    before, chars_of, concat3, ends_with, ends_with_text, find, find_in, join, joined,
    lemma_find_range, occurs_at, replace_char, replace_text, replaced_char, replaced_text, str_eq,
    string_from, take_before, text_views, trim, trimmed,
};

verus! {

/// One piece of an XML document, as the reader hands it out.  Names and
/// text are the bytes of the document, not yet decoded.
#[derive(Debug, Clone)]
pub enum XmlToken {
    /// An opening tag; `name` is the element's name.
    Start { name: Vec<u8> },
    /// A self-closing tag; `attributes` is the text of the tag behind the
    /// element's name.
    Empty { name: Vec<u8>, attributes: Vec<u8> },
    /// Character data between tags, still escaped.
    Text { raw: Vec<u8> },
    /// A closing tag.
    End { name: Vec<u8> },
    /// Anything else: a declaration, a comment, a CDATA section, a
    /// processing instruction or a document type.
    Other,
    /// The end of the document.
    Eof,
}

/// A token as a mathematical value.
pub ghost enum TokenView {
    Start { name: Seq<u8> },
    Empty { name: Seq<u8>, attributes: Seq<u8> },
    Text { raw: Seq<u8> },
    End { name: Seq<u8> },
    Other,
    Eof,
}

impl View for XmlToken {
    type V = TokenView;

    open spec fn view(&self) -> TokenView {
        match self {
            XmlToken::Start { name } => TokenView::Start { name: name@ },
            XmlToken::Empty { name, attributes } => TokenView::Empty {
                name: name@,
                attributes: attributes@,
            },
            XmlToken::Text { raw } => TokenView::Text { raw: raw@ },
            XmlToken::End { name } => TokenView::End { name: name@ },
            XmlToken::Other => TokenView::Other,
            XmlToken::Eof => TokenView::Eof,
        }
    }
}

/// What a reader will hand out: the tokens in front of the end of the
/// document or of the first error, and the error's text if it ends in one.
pub ghost struct Tokenized {
    pub tokens: Seq<TokenView>,
    pub failure: Option<Seq<char>>,
}

/// `quick_xml::Reader`, taken as it is: nothing here looks inside one.
#[verifier::external_type_specification]
#[verifier::external_body]
#[verifier::reject_recursive_types(R)]
pub struct ExReader<R>(Reader<R>);

/// What `quick_xml` makes of a document: what a reader made by
/// `Reader::from_str` has in front of it.
pub uninterp spec fn tokenized(xml: Seq<char>) -> Tokenized;

/// What a reader has still to hand out: the tokens that calls of
/// `Reader::read_event_into` will return, one after the other, in front of
/// the end of the document or of the first error.
pub uninterp spec fn unread(reader: Reader<&[u8]>) -> Tokenized;

/// What `String::from_utf8_lossy` makes of bytes: the text they encode in
/// UTF-8, with the replacement character for what is not valid.
pub uninterp spec fn lossy(bytes: Seq<u8>) -> Seq<char>;

/// What `BytesText::unescape` makes of escaped character data, decoded as
/// by `lossy`: the text with its entity and character references resolved,
/// or the text of the error for a reference that cannot be.
pub uninterp spec fn unescaped(raw: Seq<u8>) -> Result<Seq<char>, Seq<char>>;

/// What `BytesStart::try_get_attribute` finds in the attributes of a tag:
/// the value, as written and decoded as by `lossy`, of the first attribute
/// with the given key, if the attributes can be read up to there and one has
/// that key.
pub uninterp spec fn attribute_text(attributes: Seq<u8>, key: Seq<char>) -> Option<Seq<char>>;

/// Calls `Reader::from_str`.  The new reader has the whole document in
/// front of it.
#[verifier::external_body]
pub(crate) fn open_reader<'a>(xml: &'a str) -> (reader: Reader<&'a [u8]>)
    ensures
        unread(reader) == tokenized(xml@),
{
    Reader::from_str(xml)
}

/// Whether a reader that had `before` in front of it can have handed out `r`
/// and have `after` left.  While tokens are left it hands out the first of
/// them, which is never `Eof`; after them it reports how the reading ends,
/// with `Eof` or with the error's text.
pub open spec fn handed_out(before: Tokenized, r: Result<XmlToken, String>, after: Tokenized) -> bool {
    if before.tokens.len() > 0 {
        &&& r matches Ok(token)
        &&& token@ == before.tokens[0]
        &&& !(token is Eof)
        &&& after == (Tokenized { tokens: before.tokens.drop_first(), failure: before.failure })
    } else {
        match before.failure {
            None => r matches Ok(XmlToken::Eof),
            Some(message) => r matches Err(text) && text@ == message,
        }
    }
}

/// Calls `Reader::read_event_into` and copies what the logic reads of the
/// event: element names, the attribute text of a self-closing tag, raw
/// character data.
#[verifier::external_body]
pub(crate) fn next_token(reader: &mut Reader<&[u8]>) -> (r: Result<XmlToken, String>)
    ensures
        handed_out(unread(*old(reader)), r, unread(*final(reader))),
{
    let mut buf = Vec::new();
    match reader.read_event_into(&mut buf) {
        Ok(Event::Start(e)) => Ok(XmlToken::Start { name: e.name().0.to_vec() }),
        Ok(Event::Empty(e)) => Ok(XmlToken::Empty {
            name: e.name().0.to_vec(),
            attributes: e.attributes_raw().to_vec(),
        }),
        Ok(Event::Text(e)) => Ok(XmlToken::Text { raw: e.to_vec() }),
        Ok(Event::End(e)) => Ok(XmlToken::End { name: e.name().0.to_vec() }),
        Ok(Event::Eof) => Ok(XmlToken::Eof),
        Ok(_) => Ok(XmlToken::Other),
        Err(e) => Err(e.to_string()),
    }
}

/// Calls `String::from_utf8_lossy`; the result depends on the bytes alone.
#[verifier::external_body]
pub(crate) fn decode(bytes: &Vec<u8>) -> (text: String)
    ensures
        text@ == lossy(bytes@),
{
    String::from_utf8_lossy(bytes).into_owned()
}

/// Calls `BytesText::unescape` on the given character data.
#[verifier::external_body]
pub(crate) fn unescape(raw: &Vec<u8>) -> (r: Result<String, String>)
    ensures
        match r {
            Ok(text) => unescaped(raw@) == Ok::<Seq<char>, Seq<char>>(text@),
            Err(message) => unescaped(raw@) == Err::<Seq<char>, Seq<char>>(message@),
        },
{
    match BytesText::from_escaped(String::from_utf8_lossy(raw)).unescape() {
        Ok(text) => Ok(text.into_owned()),
        Err(e) => Err(e.to_string()),
    }
}

/// Calls `BytesStart::try_get_attribute` on a tag with the given attributes.
/// A failure to read the attributes counts as the attribute's absence.
#[verifier::external_body]
pub(crate) fn attribute(attributes: &Vec<u8>, key: &str) -> (r: Option<String>)
    ensures
        match r {
            Some(value) => attribute_text(attributes@, key@) == Some(value@),
            None => attribute_text(attributes@, key@) is None,
        },
{
    match BytesStart::from_content(String::from_utf8_lossy(attributes), 0).try_get_attribute(key) {
        Ok(Some(found)) => Some(String::from_utf8_lossy(&found.value).into_owned()),
        _ => None,
    }
}

/// The state of a reading: the papers read so far, the paper whose entry is
/// open, the character data since the last tag, and what has been seen of
/// the open entry's authors, categories and links.
#[derive(Debug)]
pub struct FeedState {
    pub papers: Vec<ArxivPaper>,
    pub current: Option<ArxivPaper>,
    pub text: String,
    pub authors: Vec<String>,
    pub categories: Vec<String>,
    pub primary_category: String,
    pub pdf_url: String,
}

/// The state of a reading as a mathematical value.
pub ghost struct FeedView {
    pub papers: Seq<PaperView>,
    pub current: Option<PaperView>,
    pub text: Seq<char>,
    pub authors: Seq<Seq<char>>,
    pub categories: Seq<Seq<char>>,
    pub primary_category: Seq<char>,
    pub pdf_url: Seq<char>,
}

impl View for FeedState {
    type V = FeedView;

    open spec fn view(&self) -> FeedView {
        FeedView {
            papers: paper_views(self.papers@),
            current: match self.current {
                Some(paper) => Some(paper@),
                None => None,
            },
            text: self.text@,
            authors: text_views(self.authors@),
            categories: text_views(self.categories@),
            primary_category: self.primary_category@,
            pdf_url: self.pdf_url@,
        }
    }
}

/// A paper of which nothing is known yet.
pub open spec fn blank_paper() -> PaperView {
    PaperView {
        id: Seq::empty(),
        title: Seq::empty(),
        authors: Seq::empty(),
        category: Seq::empty(),
        published_date: Seq::empty(),
        abstract_text: Seq::empty(),
        download_url: Seq::empty(),
        pdf_url: Seq::empty(),
        categories: Seq::empty(),
    }
}

/// The state in which a reading starts.
pub open spec fn initial() -> FeedView {
    FeedView {
        papers: Seq::empty(),
        current: None,
        text: Seq::empty(),
        authors: Seq::empty(),
        categories: Seq::empty(),
        primary_category: Seq::empty(),
        pdf_url: Seq::empty(),
    }
}

/// What stands between the first `/abs/` of `text` and the next one, or the
/// end; `None` if `text` holds no `/abs/`.
pub open spec fn after_abs(text: Seq<char>) -> Option<Seq<char>> {
    let mark = "/abs/"@;
    let first = find(text, mark, 0);
    if first < 0 {
        None
    } else {
        let start = first + mark.len();
        let next = find(text, mark, start);
        Some(
            text.subrange(
                start,
                if next < 0 {
                    text.len() as int
                } else {
                    next
                },
            ),
        )
    }
}

/// A title or summary as it is kept: trimmed, on one line, and with each
/// pair of spaces, taken from the left, made one.
pub open spec fn tidy(text: Seq<char>) -> Seq<char> {
    replaced_text(replaced_char(trimmed(text), '\n', " "@, 0), "  "@, " "@, 0)
}

/// The paper of an entry when the entry closes: its authors joined by
/// commas, its category by display name, its categories as listed, and the
/// address of its PDF, which is the link given or else made from its
/// identifier.
pub open spec fn finished(paper: PaperView, s: FeedView) -> PaperView {
    let authors = joined(s.authors, ", "@, 0);
    let main_category = if s.primary_category.len() > 0 {
        s.primary_category
    } else if s.categories.len() > 0 {
        s.categories[0]
    } else {
        "Unknown"@
    };
    let pdf_url = if s.pdf_url.len() > 0 {
        s.pdf_url
    } else {
        "https://arxiv.org/pdf/"@ + paper.id + ".pdf"@
    };
    PaperView {
        authors: if authors.len() == 0 {
            "Unknown"@
        } else {
            authors
        },
        category: format_category_spec(main_category),
        categories: s.categories,
        pdf_url,
        download_url: pdf_url,
        ..paper
    }
}

/// What a closing tag named `name` does while the entry of `paper` is open.
pub open spec fn closed_in_entry(s: FeedView, paper: PaperView, name: Seq<char>) -> FeedView {
    if name == "id"@ {
        match after_abs(s.text) {
            Some(part) => FeedView {
                current: Some(PaperView { id: before(part, 'v'), ..paper }),
                ..s
            },
            None => s,
        }
    } else if name == "title"@ {
        FeedView { current: Some(PaperView { title: tidy(s.text), ..paper }), ..s }
    } else if name == "summary"@ {
        FeedView { current: Some(PaperView { abstract_text: tidy(s.text), ..paper }), ..s }
    } else if name == "published"@ {
        FeedView {
            current: Some(PaperView { published_date: before(s.text, 'T'), ..paper }),
            ..s
        }
    } else if name == "name"@ {
        FeedView { authors: s.authors.push(trimmed(s.text)), ..s }
    } else if name == "entry"@ {
        FeedView { papers: s.papers.push(finished(paper, s)), current: None, ..s }
    } else {
        s
    }
}

/// What a self-closing tag does: a `category` adds its term to the
/// categories, a tag whose name ends in `primary_category` sets the primary
/// category, and a `link` titled `pdf` sets the address of the PDF.
pub open spec fn emptied(s: FeedView, name: Seq<char>, attributes: Seq<u8>) -> FeedView {
    if name == "category"@ {
        match attribute_text(attributes, "term"@) {
            Some(term) => FeedView { categories: s.categories.push(term), ..s },
            None => s,
        }
    } else if ends_with_text(name, "primary_category"@) {
        match attribute_text(attributes, "term"@) {
            Some(term) => FeedView { primary_category: term, ..s },
            None => s,
        }
    } else if name == "link"@ {
        match attribute_text(attributes, "title"@) {
            Some(title) => if title == "pdf"@ {
                match attribute_text(attributes, "href"@) {
                    Some(href) => FeedView { pdf_url: href, ..s },
                    None => s,
                }
            } else {
                s
            },
            None => s,
        }
    } else {
        s
    }
}

/// The state after one token, or the text of the error if the token is
/// character data that cannot be unescaped.
pub open spec fn feed_spec(s: FeedView, token: TokenView) -> Result<FeedView, Seq<char>> {
    match token {
        TokenView::Start { name } => if lossy(name) == "entry"@ {
            Ok(
                FeedView {
                    papers: s.papers,
                    current: Some(blank_paper()),
                    text: Seq::empty(),
                    authors: Seq::empty(),
                    categories: Seq::empty(),
                    primary_category: Seq::empty(),
                    pdf_url: Seq::empty(),
                },
            )
        } else {
            Ok(FeedView { text: Seq::empty(), ..s })
        },
        TokenView::Empty { name, attributes } => Ok(emptied(s, lossy(name), attributes)),
        TokenView::Text { raw } => match unescaped(raw) {
            Ok(text) => Ok(FeedView { text: s.text + text, ..s }),
            Err(message) => Err(message),
        },
        TokenView::End { name } => {
            let closed = match s.current {
                Some(paper) => closed_in_entry(s, paper, lossy(name)),
                None => s,
            };
            Ok(FeedView { text: Seq::empty(), ..closed })
        },
        TokenView::Other => Ok(s),
        TokenView::Eof => Ok(s),
    }
}

/// The state after all of `tokens`, or the first error among them.
pub open spec fn feed_all(s: FeedView, tokens: Seq<TokenView>) -> Result<FeedView, Seq<char>>
    decreases tokens.len(),
{
    if tokens.len() == 0 {
        Ok(s)
    } else {
        match feed_spec(s, tokens[0]) {
            Ok(next) => feed_all(next, tokens.drop_first()),
            Err(message) => Err(message),
        }
    }
}

/// What a document amounts to: the papers of its entries in order, or the
/// text of the first error, be it of a token or of the reader.
pub open spec fn parsed(xml: Seq<char>) -> Result<Seq<PaperView>, Seq<char>> {
    match feed_all(initial(), tokenized(xml).tokens) {
        Ok(s) => match tokenized(xml).failure {
            None => Ok(s.papers),
            Some(message) => Err(message),
        },
        Err(message) => Err(message),
    }
}

fn blank() -> (paper: ArxivPaper)
    ensures
        paper@ == blank_paper(),
{
    let categories: Vec<String> = Vec::new();
    assert(text_views(categories@) =~= Seq::<Seq<char>>::empty());
    ArxivPaper {
        id: String::new(),
        title: String::new(),
        authors: String::new(),
        category: String::new(),
        published_date: String::new(),
        abstract_text: String::new(),
        download_url: String::new(),
        pdf_url: String::new(),
        categories,
    }
}

/// Reads what stands between the first `/abs/` of `text` and the next one.
fn take_after_abs(text: &str) -> (r: Option<String>)
    ensures
        match r {
            Some(part) => after_abs(text@) == Some(part@),
            None => after_abs(text@) is None,
        },
{
    let chars = chars_of(text);
    let mark = chars_of("/abs/");
    let length = chars.len();
    match find_in(&chars, &mark, 0) {
        None => None,
        Some(first) => {
            proof {
                lemma_find_range(chars@, mark@, 0);
                assert(occurs_at(chars@, mark@, first as int));
            }
            let start = first + mark.len();
            let end = match find_in(&chars, &mark, start) {
                Some(next) => {
                    proof {
                        lemma_find_range(chars@, mark@, start as int);
                    }
                    next
                },
                None => length,
            };
            Some(string_from(&chars, start, end))
        },
    }
}

/// Tidies a title or summary.
fn tidy_text(text: &str) -> (r: String)
    ensures
        r@ == tidy(text@),
{
    let one_line = replace_char(trim(text).as_str(), '\n', " ");
    replace_text(one_line.as_str(), "  ", " ")
}

/// Copies a list of strings.
fn copy_texts(texts: &Vec<String>) -> (r: Vec<String>)
    ensures
        text_views(r@) == text_views(texts@),
{
    let mut r: Vec<String> = Vec::new();
    let mut i: usize = 0;
    while i < texts.len()
        invariant
            0 <= i <= texts.len(),
            r.len() == i,
            forall|k: int| 0 <= k < i ==> (#[trigger] r[k])@ == texts[k]@,
        decreases texts.len() - i,
    {
        r.push(texts[i].clone());
        i += 1;
    }
    assert(text_views(r@) =~= text_views(texts@));
    r
}

impl FeedState {
    /// The state in which a reading starts.
    pub fn new() -> (s: FeedState)
        ensures
            s@ == initial(),
    {
        let s = FeedState {
            papers: Vec::new(),
            current: None,
            text: String::new(),
            authors: Vec::new(),
            categories: Vec::new(),
            primary_category: String::new(),
            pdf_url: String::new(),
        };
        assert(s@.papers =~= Seq::<PaperView>::empty());
        assert(s@.authors =~= Seq::<Seq<char>>::empty());
        assert(s@.categories =~= Seq::<Seq<char>>::empty());
        s
    }

    /// Completes the paper of the open entry.
    fn finish(&self, paper: ArxivPaper) -> (r: ArxivPaper)
        ensures
            r@ == finished(paper@, self@),
    {
        let joined_authors = join(&self.authors, ", ");
        let authors = if joined_authors.as_str().is_empty() {
            String::from_str("Unknown")
        } else {
            joined_authors
        };
        let main_category = if !self.primary_category.as_str().is_empty() {
            self.primary_category.clone()
        } else if self.categories.len() > 0 {
            assert(text_views(self.categories@)[0] == self.categories@[0]@);
            self.categories[0].clone()
        } else {
            String::from_str("Unknown")
        };
        let pdf_url = if !self.pdf_url.as_str().is_empty() {
            self.pdf_url.clone()
        } else {
            concat3("https://arxiv.org/pdf/", paper.id.as_str(), ".pdf")
        };
        ArxivPaper {
            id: paper.id,
            title: paper.title,
            authors,
            category: format_category(main_category.as_str()),
            published_date: paper.published_date,
            abstract_text: paper.abstract_text,
            download_url: pdf_url.clone(),
            pdf_url,
            categories: copy_texts(&self.categories),
        }
    }

    /// Takes a closing tag while the entry of `paper` is open.
    fn close_in_entry(self, paper: ArxivPaper, name: &str) -> (r: FeedState)
        ensures
            r@ == closed_in_entry(
                FeedView { current: Some(paper@), ..self@ },
                paper@,
                name@,
            ),
    {
        let ghost s = FeedView { current: Some(paper@), ..self@ };
        if str_eq(name, "id") {
            match take_after_abs(self.text.as_str()) {
                Some(part) => {
                    let id = take_before(part.as_str(), 'v');
                    FeedState { current: Some(ArxivPaper { id, ..paper }), ..self }
                },
                None => FeedState { current: Some(paper), ..self },
            }
        } else if str_eq(name, "title") {
            let title = tidy_text(self.text.as_str());
            FeedState { current: Some(ArxivPaper { title, ..paper }), ..self }
        } else if str_eq(name, "summary") {
            let abstract_text = tidy_text(self.text.as_str());
            FeedState { current: Some(ArxivPaper { abstract_text, ..paper }), ..self }
        } else if str_eq(name, "published") {
            let published_date = take_before(self.text.as_str(), 'T');
            FeedState { current: Some(ArxivPaper { published_date, ..paper }), ..self }
        } else if str_eq(name, "name") {
            let author = trim(self.text.as_str());
            let mut authors = self.authors;
            let ghost before_push = text_views(authors@);
            authors.push(author);
            assert(text_views(authors@) =~= before_push.push(trimmed(self.text@)));
            FeedState { authors, current: Some(paper), ..self }
        } else if str_eq(name, "entry") {
            let done = self.finish(paper);
            let mut papers = self.papers;
            let ghost before_push = paper_views(papers@);
            papers.push(done);
            assert(paper_views(papers@) =~= before_push.push(finished(paper@, s)));
            FeedState { papers, current: None, ..self }
        } else {
            FeedState { current: Some(paper), ..self }
        }
    }

    /// Takes a self-closing tag.
    fn take_empty(self, name: &str, attributes: &Vec<u8>) -> (r: FeedState)
        ensures
            r@ == emptied(self@, name@, attributes@),
    {
        if str_eq(name, "category") {
            match attribute(attributes, "term") {
                Some(term) => {
                    let mut categories = self.categories;
                    let ghost before_push = text_views(categories@);
                    categories.push(term);
                    assert(text_views(categories@) =~= before_push.push(term@));
                    FeedState { categories, ..self }
                },
                None => self,
            }
        } else if ends_with(name, "primary_category") {
            match attribute(attributes, "term") {
                Some(term) => FeedState { primary_category: term, ..self },
                None => self,
            }
        } else if str_eq(name, "link") {
            match attribute(attributes, "title") {
                Some(title) => if str_eq(title.as_str(), "pdf") {
                    match attribute(attributes, "href") {
                        Some(href) => FeedState { pdf_url: href, ..self },
                        None => self,
                    }
                } else {
                    self
                },
                None => self,
            }
        } else {
            self
        }
    }

    /// Takes the next token of a document.  Character data that cannot be
    /// unescaped ends the reading with the error's text.
    pub fn feed(self, token: XmlToken) -> (r: Result<FeedState, String>)
        ensures
            match r {
                Ok(next) => feed_spec(self@, token@) == Ok::<FeedView, Seq<char>>(next@),
                Err(message) => feed_spec(self@, token@) == Err::<FeedView, Seq<char>>(message@),
            },
    {
        match token {
            XmlToken::Start { name } => {
                let name = decode(&name);
                if str_eq(name.as_str(), "entry") {
                    let fresh = FeedState::new();
                    Ok(FeedState { papers: self.papers, current: Some(blank()), ..fresh })
                } else {
                    Ok(FeedState { text: String::new(), ..self })
                }
            },
            XmlToken::Empty { name, attributes } => {
                let name = decode(&name);
                Ok(self.take_empty(name.as_str(), &attributes))
            },
            XmlToken::Text { raw } => match unescape(&raw) {
                Ok(text) => {
                    let mut all = self.text;
                    all.append(text.as_str());
                    Ok(FeedState { text: all, ..self })
                },
                Err(message) => Err(message),
            },
            XmlToken::End { name } => {
                let name = decode(&name);
                let mut state = self;
                let closed = match state.current.take() {
                    Some(paper) => state.close_in_entry(paper, name.as_str()),
                    None => state,
                };
                Ok(FeedState { text: String::new(), ..closed })
            },
            XmlToken::Other => Ok(self),
            XmlToken::Eof => Ok(self),
        }
    }
}

/// Reads the papers out of a feed document: one for each entry, in the
/// order of the document.  The reading fails with the text of the first
/// error, be it that the document is not well formed or that character data
/// cannot be unescaped.
pub fn parse_arxiv_xml(xml_content: &str) -> (r: Result<Vec<ArxivPaper>, String>)
    ensures
        match r {
            Ok(papers) => parsed(xml_content@) == Ok::<Seq<PaperView>, Seq<char>>(
                paper_views(papers@),
            ),
            Err(message) => parsed(xml_content@) == Err::<Seq<PaperView>, Seq<char>>(message@),
        },
{
    let mut reader = open_reader(xml_content);
    let mut state = FeedState::new();
    let ghost all = tokenized(xml_content@);
    loop
        invariant
            all == tokenized(xml_content@),
            unread(reader).failure == all.failure,
            feed_all(state@, unread(reader).tokens) == feed_all(initial(), all.tokens),
        decreases unread(reader).tokens.len(),
    {
        let ghost ahead = unread(reader).tokens;
        match next_token(&mut reader) {
            Err(message) => {
                return Err(message);
            },
            Ok(XmlToken::Eof) => {
                return Ok(state.papers);
            },
            Ok(token) => match state.feed(token) {
                Err(message) => {
                    return Err(message);
                },
                Ok(next) => {
                    state = next;
                },
            },
        }
    }
}

} // verus!
