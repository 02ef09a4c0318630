use stash::{
    Attempt, CoordinatorError, Diagnostic, ExtractionError, ExtractionMethod, Extractor,
    FetchError, FetchStep, Fetcher, FormatError, RawEntry, RawField,
};

fn field(key: &str, text: &str) -> RawField {
    RawField { key: key.to_string(), text: Some(text.to_string()) }
}

fn manual_entry(domain: &str) -> RawEntry {
    RawEntry {
        domain: domain.to_string(),
        table: Some(vec![
            field("title", "h1"),
            field("body", "article"),
            field("authors", ".by"),
            field("date", "time"),
        ]),
    }
}

fn manual_method() -> ExtractionMethod {
    ExtractionMethod::Manual {
        title: "h1".to_string(),
        body: "article".to_string(),
        authors: ".by".to_string(),
        date: "time".to_string(),
    }
}

#[test]
fn selectorless_entry_is_auto() {
    let entries = vec![
        RawEntry { domain: "a.com".to_string(), table: Some(vec![]) },
        RawEntry { domain: "b.com".to_string(), table: Some(vec![field("note", "x")]) },
    ];
    let reg = Extractor::from_entries(entries).unwrap();
    assert_eq!(reg.lookup("a.com"), ExtractionMethod::Auto);
    assert_eq!(reg.lookup("b.com"), ExtractionMethod::Auto);
}

#[test]
fn full_entry_is_manual_verbatim() {
    let reg = Extractor::from_entries(vec![manual_entry("news.example.com")]).unwrap();
    assert_eq!(reg.lookup("news.example.com"), manual_method());
}

#[test]
fn absent_domain_is_auto() {
    let reg = Extractor::from_entries(vec![manual_entry("example.com")]).unwrap();
    assert_eq!(reg.lookup("www.example.com"), ExtractionMethod::Auto);
    assert_eq!(reg.lookup("other.org"), ExtractionMethod::Auto);
    assert_eq!(Extractor::new().lookup("example.com"), ExtractionMethod::Auto);
}

#[test]
fn malformed_entries_are_refused() {
    let not_table = RawEntry { domain: "x.com".to_string(), table: None };
    assert_eq!(
        Extractor::from_entries(vec![manual_entry("a.com"), not_table]).unwrap_err(),
        FormatError::NotATable { entry: 1 }
    );
    let partial = RawEntry {
        domain: "p.com".to_string(),
        table: Some(vec![field("title", "h1"), field("body", "main")]),
    };
    assert_eq!(
        Extractor::from_entries(vec![partial]).unwrap_err(),
        FormatError::Shape { entry: 0 }
    );
    let non_text = RawEntry {
        domain: "q.com".to_string(),
        table: Some(vec![
            field("title", "h1"),
            field("body", "article"),
            RawField { key: "authors".to_string(), text: None },
            field("date", "time"),
        ]),
    };
    assert_eq!(
        Extractor::from_entries(vec![non_text]).unwrap_err(),
        FormatError::Shape { entry: 0 }
    );
    assert_eq!(
        Extractor::from_entries(vec![manual_entry("d.com"), manual_entry("d.com")]).unwrap_err(),
        FormatError::DuplicateDomain { entry: 1 }
    );
}

#[test]
fn url_resolution() {
    let reg = Extractor::from_entries(vec![manual_entry("example.com")]).unwrap();
    assert_eq!(reg.method_for_url("https://example.com/post/1").unwrap(), manual_method());
    assert_eq!(reg.method_for_url("https://other.net/").unwrap(), ExtractionMethod::Auto);
    assert_eq!(reg.method_for_url("http://127.0.0.1/x").unwrap(), ExtractionMethod::Auto);
    assert_eq!(reg.method_for_url("not a url").unwrap_err(), CoordinatorError::InvalidUrl);
}

#[test]
fn extract_fetched_passes_failures_on() {
    let m = ExtractionMethod::Manual {
        title: ".t".to_string(),
        body: ".b".to_string(),
        authors: ".a".to_string(),
        date: ".d".to_string(),
    };
    assert_eq!(
        m.extract_fetched("u", Err(FetchError::AllIdentitiesFailed)).unwrap_err(),
        CoordinatorError::Fetch(FetchError::AllIdentitiesFailed)
    );
    assert_eq!(
        m.extract_fetched("u", Ok("<p>no body</p>".to_string())).unwrap_err(),
        CoordinatorError::Extraction(ExtractionError::ContentNotFound)
    );
    let x = m.extract_fetched("u", Ok(r#"<i class="b">W</i>"#.to_string())).unwrap();
    assert_eq!(x.article.content, "W");
}

fn fetcher(n: usize) -> Fetcher {
    Fetcher::new((0..n).map(|i| format!("agent/{i}")).collect())
}

#[test]
fn fetch_stops_at_first_success() {
    let f = fetcher(4);
    assert_eq!(f.start(), FetchStep::Request { identity: 0 });
    assert_eq!(f.identity(0), "agent/0");
    let d = f.next(0, Attempt::Failed);
    assert_eq!(d.step, FetchStep::Request { identity: 1 });
    assert_eq!(d.record, None);
    let d = f.next(1, Attempt::Status { code: 403, body: "denied".to_string() });
    assert_eq!(d.step, FetchStep::Request { identity: 2 });
    assert_eq!(
        d.record,
        Some(Diagnostic { identity: 1, code: 403, body: "denied".to_string() })
    );
    let d = f.next(2, Attempt::Success { body: "<html>ok</html>".to_string() });
    assert_eq!(d.step, FetchStep::Deliver { body: "<html>ok</html>".to_string() });
    assert_eq!(d.record, None);
}

#[test]
fn fetch_all_failing() {
    let f = fetcher(2);
    let d = f.next(0, Attempt::Status { code: 500, body: "first".to_string() });
    assert_eq!(d.step, FetchStep::Request { identity: 1 });
    let d = f.next(1, Attempt::Status { code: 429, body: "second".to_string() });
    assert_eq!(d.step, FetchStep::Fail(FetchError::AllIdentitiesFailed));
    assert_eq!(d.record.unwrap().body, "second");
    let d = f.next(1, Attempt::Failed);
    assert_eq!(d.step, FetchStep::Fail(FetchError::AllIdentitiesFailed));
    assert_eq!(fetcher(0).start(), FetchStep::Fail(FetchError::AllIdentitiesFailed));
    assert_eq!(f.len(), 2);
}
