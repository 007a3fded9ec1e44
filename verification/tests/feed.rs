use paper_index::feed::{parse_arxiv_xml, FeedState, XmlToken};

fn start(name: &str) -> XmlToken {
    XmlToken::Start { name: name.as_bytes().to_vec() }
}

fn end(name: &str) -> XmlToken {
    XmlToken::End { name: name.as_bytes().to_vec() }
}

fn text(raw: &str) -> XmlToken {
    XmlToken::Text { raw: raw.as_bytes().to_vec() }
}

fn empty(name: &str, attributes: &str) -> XmlToken {
    XmlToken::Empty { name: name.as_bytes().to_vec(), attributes: attributes.as_bytes().to_vec() }
}

fn feed_all(tokens: Vec<XmlToken>) -> FeedState {
    let mut state = FeedState::new();
    for token in tokens {
        state = state.feed(token).unwrap();
    }
    state
}

const SAMPLE: &str = r#"<?xml version="1.0" encoding="UTF-8"?>
<feed xmlns="http://www.w3.org/2005/Atom">
  <link href="http://arxiv.org/api/query?search_query=all" rel="self" type="application/atom+xml"/>
  <title type="html">ArXiv Query: search_query=all</title>
  <id>http://arxiv.org/api/abc</id>
  <updated>2024-01-20T00:00:00-05:00</updated>
  <entry>
    <id>http://arxiv.org/abs/2311.18775v2</id>
    <updated>2023-12-05T10:00:00Z</updated>
    <published>2023-11-30T18:59:58Z</published>
    <title>GPT-4 Vision
 Technical Report</title>
    <summary>  We present GPT-4V(ision), a model that sees &amp; reads.
It is evaluated on many tasks.
    </summary>
    <author>
      <name>OpenAI Team</name>
    </author>
    <author>
      <name> Research Scientist </name>
    </author>
    <link href="http://arxiv.org/abs/2311.18775v2" rel="alternate" type="text/html"/>
    <link title="pdf" href="http://arxiv.org/pdf/2311.18775v2.pdf" rel="related" type="application/pdf"/>
    <arxiv:primary_category xmlns:arxiv="http://arxiv.org/schemas/atom" term="cs.CL" scheme="http://arxiv.org/schemas/atom"/>
    <category term="cs.CL" scheme="http://arxiv.org/schemas/atom"/>
    <category term="cs.AI" scheme="http://arxiv.org/schemas/atom"/>
    <category term="cs.LG" scheme="http://arxiv.org/schemas/atom"/>
  </entry>
  <entry>
    <id>http://arxiv.org/abs/2401.12345v1</id>
    <published>2024-01-15T09:30:00Z</published>
    <title>Deep Learning for Computer Vision: A Comprehensive Survey</title>
    <summary>This is a comprehensive survey of deep learning.</summary>
    <author><name>John Doe</name></author>
    <author><name>Jane Smith</name></author>
    <link title="pdf" href="http://arxiv.org/pdf/2401.12345v1.pdf" rel="related" type="application/pdf"/>
    <category term="cs.CV" scheme="http://arxiv.org/schemas/atom"/>
    <category term="cs.LG" scheme="http://arxiv.org/schemas/atom"/>
  </entry>
</feed>"#;

#[test]
fn parses_the_entries_of_a_feed() {
    let papers = parse_arxiv_xml(SAMPLE).unwrap();
    assert_eq!(papers.len(), 2);

    let first = &papers[0];
    assert_eq!(first.id, "2311.18775");
    assert_eq!(first.title, "GPT-4 Vision Technical Report");
    assert_eq!(first.authors, "OpenAI Team, Research Scientist");
    assert_eq!(first.category, "Computation and Language");
    assert_eq!(first.published_date, "2023-11-30");
    assert_eq!(
        first.abstract_text,
        "We present GPT-4V(ision), a model that sees & reads. It is evaluated on many tasks."
    );
    assert_eq!(first.pdf_url, "http://arxiv.org/pdf/2311.18775v2.pdf");
    assert_eq!(first.download_url, "http://arxiv.org/pdf/2311.18775v2.pdf");
    assert_eq!(first.categories, vec!["cs.CL", "cs.AI", "cs.LG"]);

    let second = &papers[1];
    assert_eq!(second.id, "2401.12345");
    assert_eq!(second.title, "Deep Learning for Computer Vision: A Comprehensive Survey");
    assert_eq!(second.authors, "John Doe, Jane Smith");
    assert_eq!(second.category, "Computer Vision and Pattern Recognition");
    assert_eq!(second.published_date, "2024-01-15");
    assert!(second.abstract_text.contains("comprehensive survey"));
    assert_eq!(second.pdf_url, "http://arxiv.org/pdf/2401.12345v1.pdf");
    assert_eq!(second.categories.len(), 2);
    assert!(second.categories.contains(&"cs.CV".to_string()));
    assert!(second.categories.contains(&"cs.LG".to_string()));
}

#[test]
fn test_parse_empty_xml() {
    let empty_xml = r#"<?xml version="1.0" encoding="UTF-8"?>
<feed xmlns="http://www.w3.org/2005/Atom">
  <title>ArXiv Query: no results</title>
</feed>"#;

    let result = parse_arxiv_xml(empty_xml);
    assert!(result.is_ok());

    let papers = result.unwrap();
    assert_eq!(papers.len(), 0);
}

#[test]
fn an_empty_document_has_no_papers() {
    assert!(parse_arxiv_xml("").unwrap().is_empty());
    assert!(parse_arxiv_xml("just text").unwrap().is_empty());
}

#[test]
fn an_entry_without_details_gets_the_fallbacks() {
    let papers = parse_arxiv_xml("<feed><entry><id>http://arxiv.org/abs/0704.0001</id></entry></feed>")
        .unwrap();
    assert_eq!(papers.len(), 1);
    let paper = &papers[0];
    assert_eq!(paper.id, "0704.0001");
    assert_eq!(paper.title, "");
    assert_eq!(paper.authors, "Unknown");
    assert_eq!(paper.category, "UNKNOWN");
    assert_eq!(paper.pdf_url, "https://arxiv.org/pdf/0704.0001.pdf");
    assert_eq!(paper.download_url, "https://arxiv.org/pdf/0704.0001.pdf");
    assert!(paper.categories.is_empty());
}

#[test]
fn the_first_category_stands_in_for_a_missing_primary_one() {
    let papers = parse_arxiv_xml(
        "<entry><category term='math.CO'/><category term='cs.DM'/></entry><entry><category term='nope.XY'/></entry>",
    )
    .unwrap();
    assert_eq!(papers.len(), 2);
    assert_eq!(papers[0].category, "Combinatorics");
    assert_eq!(papers[0].categories, vec!["math.CO", "cs.DM"]);
    assert_eq!(papers[1].category, "NOPE");
    assert_eq!(papers[1].categories, vec!["nope.XY"]);
}

#[test]
fn a_document_that_is_not_well_formed_fails() {
    let error = parse_arxiv_xml("<feed><entry></feed>").unwrap_err();
    assert!(error.contains("ill-formed document"), "{}", error);
    assert!(parse_arxiv_xml("<feed><entry").is_err());
    assert!(parse_arxiv_xml("</feed>").is_err());
}

#[test]
fn character_data_that_cannot_be_unescaped_fails() {
    assert!(parse_arxiv_xml("<feed><title>a &bogus; b</title></feed>").is_err());
    assert!(FeedState::new().feed(text("a &bogus; b")).is_err());
    assert!(FeedState::new().feed(text("a &amp b")).is_err());
}

#[test]
fn text_is_unescaped_and_gathered_until_the_next_tag() {
    let state = feed_all(vec![text("A &amp; B"), text(" &lt;&#67;&gt;")]);
    assert_eq!(state.text, "A & B <C>");
    let state = state.feed(XmlToken::Other).unwrap();
    assert_eq!(state.text, "A & B <C>");
    let state = state.feed(empty("br", "")).unwrap();
    assert_eq!(state.text, "A & B <C>");
    let state = state.feed(start("b")).unwrap();
    assert_eq!(state.text, "");
    let state = state.feed(text("x")).unwrap().feed(end("b")).unwrap();
    assert_eq!(state.text, "");
    let state = state.feed(text("y")).unwrap().feed(XmlToken::Eof).unwrap();
    assert_eq!(state.text, "y");
}

#[test]
fn an_entry_opens_with_a_blank_paper() {
    let state = feed_all(vec![
        empty("category", " term=\"cs.AI\""),
        empty("link", " title=\"pdf\" href=\"http://x/y.pdf\""),
        text("stale"),
        start("entry"),
    ]);
    let paper = state.current.unwrap();
    assert_eq!(paper.id, "");
    assert!(state.categories.is_empty());
    assert_eq!(state.pdf_url, "");
    assert_eq!(state.text, "");
    assert!(state.papers.is_empty());
}

#[test]
fn closing_tags_outside_an_entry_change_nothing_but_the_text() {
    let state = feed_all(vec![text("Some Title"), end("title"), text("n"), end("entry")]);
    assert!(state.current.is_none());
    assert!(state.papers.is_empty());
    assert_eq!(state.text, "");
}

#[test]
fn identifier_is_cut_out_of_the_address() {
    let id_of = |address: &str| {
        let state = feed_all(vec![start("entry"), text(address), end("id")]);
        state.current.unwrap().id
    };
    assert_eq!(id_of("http://arxiv.org/abs/2311.18775v2"), "2311.18775");
    assert_eq!(id_of("http://arxiv.org/abs/hep-th/9901001v3"), "hep-th/9901001");
    assert_eq!(id_of("http://arxiv.org/abs/2311.18775"), "2311.18775");
    assert_eq!(id_of("http://arxiv.org/abs/1234/abs/5678"), "1234");
    assert_eq!(id_of("http://arxiv.org/abs/vision"), "");
    assert_eq!(id_of("http://arxiv.org/pdf/2311.18775"), "");
    assert_eq!(id_of("/abs/"), "");
}

#[test]
fn titles_are_trimmed_and_put_on_one_line() {
    let title_of = |raw: &str| {
        let state = feed_all(vec![start("entry"), text(raw), end("title")]);
        state.current.unwrap().title
    };
    assert_eq!(title_of("  A Title \n"), "A Title");
    assert_eq!(title_of("Two\nLines"), "Two Lines");
    assert_eq!(title_of("Wrapped\n  Line"), "Wrapped  Line");
    assert_eq!(title_of("a  b"), "a b");
    assert_eq!(title_of("\u{2003}wide\u{a0}"), "wide");
}

#[test]
fn attributes_are_looked_up_by_key() {
    let state = feed_all(vec![
        start("entry"),
        empty("category", " scheme=\"s\" term=\"cs.AI\""),
        empty("category", " scheme=\"s\""),
        empty("category", " term='q-bio.NC' term='x'"),
        empty("category", " broken term=\"cs.LG\""),
        empty("arxiv:primary_category", " term=\"stat.ML\""),
        empty("link", " title=\"doi\" href=\"http://doi\""),
        empty("link", " href=\"http://no-title\""),
        empty("link", " title=\"pdf\""),
    ]);
    assert_eq!(state.categories, vec!["cs.AI", "q-bio.NC"]);
    assert_eq!(state.primary_category, "stat.ML");
    assert_eq!(state.pdf_url, "");
    let state = state
        .feed(empty("link", " title=\"pdf\" href=\"http://x/p.pdf?a=1&amp;b=2\""))
        .unwrap();
    assert_eq!(state.pdf_url, "http://x/p.pdf?a=1&amp;b=2");
}

#[test]
fn a_category_tag_is_not_taken_for_a_primary_one() {
    let state = feed_all(vec![start("entry"), empty("primary_category", " term=\"cs.CV\"")]);
    assert_eq!(state.primary_category, "cs.CV");
    assert!(state.categories.is_empty());
    let state = state.feed(empty("Category", " term=\"cs.AI\"")).unwrap();
    assert!(state.categories.is_empty());
}

#[test]
fn names_are_decoded_before_they_are_compared() {
    let state = FeedState::new().feed(XmlToken::Start { name: vec![0x65, 0x6e, 0x74, 0x72, 0x79] });
    assert!(state.unwrap().current.is_some());
    let state = FeedState::new().feed(XmlToken::Start { name: vec![0xff, 0x65] });
    assert!(state.unwrap().current.is_none());
}

#[test]
fn authors_are_gathered_per_entry() {
    let state = feed_all(vec![
        start("entry"),
        text(" Ada "),
        end("name"),
        text("Bob"),
        end("name"),
        end("entry"),
        start("entry"),
        end("entry"),
    ]);
    assert_eq!(state.papers.len(), 2);
    assert_eq!(state.papers[0].authors, "Ada, Bob");
    assert_eq!(state.papers[1].authors, "Unknown");
    assert!(state.current.is_none());
}
