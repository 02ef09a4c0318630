use stash::{
    assemble, auto_article, auto_extract, manual_extract, ArticleField, ExtractionError,
    ExtractionMethod, HeuristicFailure, Readout,
};

const SAMPLE: &str = r#"<html><body><h1 class="t">Hello</h1><div class="b">World</div></body></html>"#;

#[test]
fn manual_extracts_title_and_body() {
    let x = manual_extract("https://example.com/a", SAMPLE, ".t", ".b", ".byline", ".date")
        .expect("extraction succeeds");
    assert_eq!(x.article.url, "https://example.com/a");
    assert_eq!(x.article.title, "Hello");
    assert_eq!(x.article.content, "World");
    assert_eq!(x.article.authors, "");
    assert_eq!(x.article.published_at, "");
    assert_eq!(x.missing, vec![ArticleField::Authors, ArticleField::PublishedAt]);
}

#[test]
fn manual_text_joins_descendants() {
    let html = r#"<p class="a">Jane <b>Q.</b> Doe</p><time>2024-01-02</time><main><p>x</p></main>"#;
    let x = manual_extract("u", html, "h1", "main", ".a", "time").unwrap();
    assert_eq!(x.article.authors, "Jane Q. Doe");
    assert_eq!(x.article.published_at, "2024-01-02");
    assert_eq!(x.article.content, "<p>x</p>");
    assert_eq!(x.article.title, "");
    assert_eq!(x.missing, vec![ArticleField::Title]);
}

#[test]
fn manual_takes_first_match() {
    let html = r#"<h1>One</h1><h1>Two</h1><div class="b">A</div><div class="b">B</div>"#;
    let x = manual_extract("u", html, "h1", ".b", "h1", "h1").unwrap();
    assert_eq!(x.article.title, "One");
    assert_eq!(x.article.content, "A");
}

#[test]
fn manual_body_not_found() {
    let r = manual_extract("u", SAMPLE, ".t", ".nothing", ".x", ".y");
    assert_eq!(r.unwrap_err(), ExtractionError::ContentNotFound);
}

#[test]
fn manual_body_empty() {
    let html = r#"<h1 class="t">Hello</h1><div class="b"></div>"#;
    let r = manual_extract("u", html, ".t", ".b", ".x", ".y");
    assert_eq!(r.unwrap_err(), ExtractionError::ContentEmpty);
}

#[test]
fn manual_invalid_selector_fails_first() {
    let r = manual_extract("u", SAMPLE, ".t", ".b", "[[[", ".y");
    assert_eq!(r.unwrap_err(), ExtractionError::InvalidSelector);
    let r = manual_extract("u", "", "", ".b", ".a", ".d");
    assert_eq!(r.unwrap_err(), ExtractionError::InvalidSelector);
}

#[test]
fn assemble_reports_missing_fields() {
    let x = assemble("u", None, Some("c".to_string()), Some("a".to_string()), None).unwrap();
    assert_eq!(x.article.title, "");
    assert_eq!(x.article.authors, "a");
    assert_eq!(x.article.content, "c");
    assert_eq!(x.missing, vec![ArticleField::Title, ArticleField::PublishedAt]);
    assert_eq!(
        assemble("u", None, None, None, None).unwrap_err(),
        ExtractionError::ContentNotFound
    );
    assert_eq!(
        assemble("u", None, Some(String::new()), None, None).unwrap_err(),
        ExtractionError::ContentEmpty
    );
}

#[test]
fn auto_article_blank_metadata() {
    let readout = Readout {
        title: "T".to_string(),
        byline: None,
        published_time: None,
        content: "<p>body</p>".to_string(),
    };
    let x = auto_article("https://e.com/", Ok(readout)).unwrap();
    assert_eq!(x.article.authors, "");
    assert_eq!(x.article.published_at, "");
    assert_eq!(x.article.title, "T");
    assert_eq!(x.article.content, "<p>body</p>");
    assert_eq!(x.missing, vec![ArticleField::Authors, ArticleField::PublishedAt]);
}

#[test]
fn auto_article_maps_fields_and_failures() {
    let readout = Readout {
        title: String::new(),
        byline: Some("Ann".to_string()),
        published_time: Some("2024-05-06".to_string()),
        content: "c".to_string(),
    };
    let x = auto_article("u", Ok(readout)).unwrap();
    assert_eq!(x.article.authors, "Ann");
    assert_eq!(x.article.published_at, "2024-05-06");
    assert_eq!(x.missing, vec![ArticleField::Title]);
    let empty = Readout {
        title: "T".to_string(),
        byline: None,
        published_time: None,
        content: String::new(),
    };
    assert_eq!(auto_article("u", Ok(empty)).unwrap_err(), ExtractionError::ContentEmpty);
    assert_eq!(
        auto_article("u", Err(HeuristicFailure::GrabFailed)).unwrap_err(),
        ExtractionError::Heuristic(HeuristicFailure::GrabFailed)
    );
}

fn long_article() -> String {
    let para = "The quick brown fox jumps over the lazy dog, and then it keeps running \
                through the field, past the barn and over the hill, until the evening comes. ";
    let mut body = String::new();
    for _ in 0..6 {
        body.push_str("<p>");
        for _ in 0..5 {
            body.push_str(para);
        }
        body.push_str("</p>");
    }
    format!(
        "<html><head><title>Fox story</title></head><body><article><h1>Fox story</h1>{}</article></body></html>",
        body
    )
}

#[test]
fn auto_extract_without_byline_or_date() {
    let html = long_article();
    let x = auto_extract("https://example.com/fox", &html).expect("readable article");
    assert_eq!(x.article.authors, "");
    assert_eq!(x.article.published_at, "");
    assert!(x.article.content.contains("quick brown fox"));
    assert_eq!(x.article.url, "https://example.com/fox");
}

#[test]
fn auto_extract_relative_url_fails() {
    let html = long_article();
    let r = auto_extract("not a url", &html);
    assert_eq!(r.unwrap_err(), ExtractionError::Heuristic(HeuristicFailure::BadDocumentUrl));
}

#[test]
fn extraction_is_repeatable() {
    let manual = ExtractionMethod::Manual {
        title: ".t".to_string(),
        body: ".b".to_string(),
        authors: ".a".to_string(),
        date: ".d".to_string(),
    };
    assert_eq!(manual.extract("u", SAMPLE), manual.extract("u", SAMPLE));
    let html = long_article();
    let auto = ExtractionMethod::Auto;
    assert_eq!(
        auto.extract("https://example.com/fox", &html),
        auto.extract("https://example.com/fox", &html)
    );
}
