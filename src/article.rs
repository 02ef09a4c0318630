//! The article record, its view, and the failures of extraction.

use vstd::prelude::*;

verus! {

/// The normalized record produced by one extraction.
#[derive(Debug, Clone, PartialEq, Eq)]
pub struct Article {
    pub url: String,
    pub title: String,
    pub content: String,
    pub authors: String,
    pub published_at: String,
}

/// The mathematical value of an [`Article`]: its five fields as character sequences.
pub ghost struct ArticleView {
    pub url: Seq<char>,
    pub title: Seq<char>,
    pub content: Seq<char>,
    pub authors: Seq<char>,
    pub published_at: Seq<char>,
}

impl View for Article {
    type V = ArticleView;

    open spec fn view(&self) -> ArticleView {
        ArticleView {
            url: self.url@,
            title: self.title@,
            content: self.content@,
            authors: self.authors@,
            published_at: self.published_at@,
        }
    }
}

/// A metadata field that an extractor may leave blank.
#[derive(Debug, Clone, Copy, PartialEq, Eq, Structural)]
pub enum ArticleField {
    Title,
    Authors,
    PublishedAt,
}

/// Why the heuristic extractor gave up.
#[derive(Debug, Clone, Copy, PartialEq, Eq, Structural)]
pub enum HeuristicFailure {
    /// The document URL handed to the extractor is not absolute.
    BadDocumentUrl,
    /// No readable content could be located.
    GrabFailed,
    /// The document has more elements than the extractor accepts.
    TooManyElements { found: usize, limit: usize },
}

/// Fatal failures of an extraction.
#[derive(Debug, Clone, Copy, PartialEq, Eq, Structural)]
pub enum ExtractionError {
    /// The markup could not be turned into a document tree. The rule-based
    /// extractor never reports it: its HTML5 parser recovers from any markup.
    ParseFailed,
    /// One of the configured selectors does not compile.
    InvalidSelector,
    /// The body selector matched no element.
    ContentNotFound,
    /// The body element was found but holds no markup.
    ContentEmpty,
    /// The heuristic extractor failed.
    Heuristic(HeuristicFailure),
}

/// A successful extraction: the record and the metadata fields that were
/// not found (each one deserves a warning, none is fatal).
#[derive(Debug, Clone, PartialEq, Eq)]
pub struct Extraction {
    pub article: Article,
    pub missing: Vec<ArticleField>,
}

/// What an extraction yields, as a value: the record, and the missing fields in order.
pub ghost struct ExtractionView {
    pub article: ArticleView,
    pub missing: Seq<ArticleField>,
}

impl View for Extraction {
    type V = ExtractionView;

    open spec fn view(&self) -> ExtractionView {
        ExtractionView { article: self.article@, missing: self.missing@ }
    }
}

/// The view of an extraction outcome.
pub open spec fn outcome_view(r: Result<Extraction, ExtractionError>) -> Result<
    ExtractionView,
    ExtractionError,
> {
    match r {
        Ok(e) => Ok(e@),
        Err(e) => Err(e),
    }
}

/// The characters of an optional string, or nothing.
pub open spec fn text_or_empty(o: Option<Seq<char>>) -> Seq<char> {
    match o {
        Some(s) => s,
        None => Seq::empty(),
    }
}

/// The view of an optional string.
pub open spec fn opt_view(o: Option<String>) -> Option<Seq<char>> {
    match o {
        Some(s) => Some(s@),
        None => None,
    }
}

/// Takes an optional string apart into its text (empty when absent).
pub(crate) fn unwrap_text(o: Option<String>) -> (r: String)
    ensures
        r@ == text_or_empty(opt_view(o)),
{
    match o {
        Some(s) => s,
        None => String::new(),
    }
}

} // verus!
