//! Heuristic extraction through a readability-style algorithm.

use vstd::prelude::*;

use crate::article::{
    opt_view, text_or_empty, unwrap_text, Article, ArticleView, Extraction, ExtractionError,
    ExtractionView, HeuristicFailure,
};
use crate::rules::missing_fields;
use dom_smoothie::{Config, Readability, ReadabilityError};

verus! {

/// The fields of the readability extractor's result that an article takes.
pub struct Readout {
    pub title: String,
    pub byline: Option<String>,
    pub published_time: Option<String>,
    pub content: String,
}

/// A readout as values: title, byline, publish time and content.
pub open spec fn readout_view(r: Readout) -> (Seq<char>, Option<Seq<char>>, Option<Seq<char>>, Seq<char>) {
    (r.title@, opt_view(r.byline), opt_view(r.published_time), r.content@)
}

/// The view of a readability result.
pub open spec fn readout_result_view(r: Result<Readout, HeuristicFailure>) -> Result<
    (Seq<char>, Option<Seq<char>>, Option<Seq<char>>, Seq<char>),
    HeuristicFailure,
> {
    match r {
        Ok(v) => Ok(readout_view(v)),
        Err(e) => Err(e),
    }
}

/// What the readability extractor, with its default configuration, makes of
/// `markup` fetched from `url`.
pub uninterp spec fn readability_of(url: Seq<char>, markup: Seq<char>) -> Result<
    (Seq<char>, Option<Seq<char>>, Option<Seq<char>>, Seq<char>),
    HeuristicFailure,
>;

/// Relies on dom_smoothie::Readability::new and Readability::parse: the
/// extracted title, byline, publish time and content, or the reason it failed.
#[verifier::external_body]
fn run_readability(url: &str, html: &str) -> (r: Result<Readout, HeuristicFailure>)
    ensures
        readout_result_view(r) == readability_of(url@, html@),
{
    let parsed = match Readability::new(html, Some(url), Some(Config::default())) {
        Ok(mut readability) => readability.parse(),
        Err(e) => Err(e),
    };
    match parsed {
        Ok(a) => {
            let (title, byline, published_time) = (a.title, a.byline, a.published_time);
            Ok(Readout { title, byline, published_time, content: a.content.to_string() })
        },
        Err(ReadabilityError::BadDocumentURL) => Err(HeuristicFailure::BadDocumentUrl),
        Err(ReadabilityError::GrabFailed) => Err(HeuristicFailure::GrabFailed),
        Err(ReadabilityError::TooManyElements(found, limit)) => Err(HeuristicFailure::TooManyElements { found, limit }),
    }
}

/// The record that a readability result gives: byline and publish time are
/// blank when absent, and an empty content is no article.
pub open spec fn auto_spec(
    url: Seq<char>,
    readout: Result<(Seq<char>, Option<Seq<char>>, Option<Seq<char>>, Seq<char>), HeuristicFailure>,
) -> Result<ExtractionView, ExtractionError> {
    match readout {
        Err(e) => Err(ExtractionError::Heuristic(e)),
        Ok((title, byline, published, content)) => if content.len() == 0 {
            Err(ExtractionError::ContentEmpty)
        } else {
            let found_title = if title.len() == 0 {
                None
            } else {
                Some(title)
            };
            Ok(
                ExtractionView {
                    article: ArticleView {
                        url,
                        title,
                        content,
                        authors: text_or_empty(byline),
                        published_at: text_or_empty(published),
                    },
                    missing: missing_fields(found_title, byline, published),
                },
            )
        },
    }
}

/// Turns a readability result into an extraction.
pub fn auto_article(url: &str, readout: Result<Readout, HeuristicFailure>) -> (r: Result<
    Extraction,
    ExtractionError,
>)
    ensures
        crate::article::outcome_view(r) == auto_spec(url@, readout_result_view(readout)),
{
    let readout = match readout {
        Err(e) => return Err(ExtractionError::Heuristic(e)),
        Ok(v) => v,
    };
    if readout.content.as_str().is_empty() {
        return Err(ExtractionError::ContentEmpty);
    }
    let mut missing: Vec<crate::article::ArticleField> = Vec::new();
    if readout.title.as_str().is_empty() {
        missing.push(crate::article::ArticleField::Title);
    }
    if readout.byline.is_none() {
        missing.push(crate::article::ArticleField::Authors);
    }
    if readout.published_time.is_none() {
        missing.push(crate::article::ArticleField::PublishedAt);
    }
    proof {
        let ghost t = if readout.title@.len() == 0 {
            None
        } else {
            Some(readout.title@)
        };
        let ghost m = missing_fields(t, opt_view(readout.byline), opt_view(readout.published_time));
        assert(missing@ =~= m);
    }
    let article = Article {
        url: url.to_owned(),
        title: readout.title,
        content: readout.content,
        authors: unwrap_text(readout.byline),
        published_at: unwrap_text(readout.published_time),
    };
    Ok(Extraction { article, missing })
}

/// Heuristic extraction: hands `html` and its source `url` to the readability
/// extractor and maps its result onto an article.
pub fn auto_extract(url: &str, html: &str) -> (r: Result<Extraction, ExtractionError>)
    ensures
        crate::article::outcome_view(r) == auto_spec(url@, readability_of(url@, html@)),
{
    let readout = run_readability(url, html);
    auto_article(url, readout)
}

/// When the readability result carries neither byline nor publish time, the
/// article's authors and publish date are empty strings, not a failure.
pub proof fn lemma_absent_metadata_is_blank(
    url: Seq<char>,
    title: Seq<char>,
    content: Seq<char>,
)
    requires
        content.len() > 0,
    ensures
        auto_spec(url, Ok((title, None, None, content))) matches Ok(x) && x.article.authors
            == Seq::<char>::empty() && x.article.published_at == Seq::<char>::empty()
            && x.article.content == content,
{
}

} // verus!
