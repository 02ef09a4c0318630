//! Choosing the method for a URL and dispatching fetched markup to it.

use vstd::prelude::*;

use crate::article::{outcome_view, Extraction, ExtractionError, ExtractionView};
use crate::fetch::FetchError;
use crate::heuristic::{auto_extract, auto_spec, readability_of};
use crate::method::{lookup_in, ExtractionMethod, Extractor, MethodView};
use crate::rules::{manual_extract, manual_spec};

verus! {

/// Why fetching an article failed, by stage.
#[derive(Debug, Clone, Copy, PartialEq, Eq, Structural)]
pub enum CoordinatorError {
    /// The URL does not parse.
    InvalidUrl,
    /// No client identity got the page.
    Fetch(FetchError),
    /// The page was fetched but the method found no article in it.
    Extraction(ExtractionError),
}

/// The domain of `url` when it parses as a URL (`Some(None)`: a URL without
/// a domain, such as one with an IP address for host), `None` when it does not parse.
pub uninterp spec fn domain_of_url(url: Seq<char>) -> Option<Option<Seq<char>>>;

/// Relies on url::Url::parse and Url::domain: the host of the parsed URL
/// when it is a domain name.
#[verifier::external_body]
fn parse_url_domain(url: &str) -> (r: Option<Option<String>>)
    ensures
        match r {
            None => domain_of_url(url@) is None,
            Some(None) => domain_of_url(url@) == Some(None::<Seq<char>>),
            Some(Some(d)) => domain_of_url(url@) == Some(Some(d@)),
        },
{
    match url::Url::parse(url) {
        Ok(parsed) => Some(parsed.domain().map(str::to_owned)),
        Err(_) => None,
    }
}

/// The method that `url` resolves to: the registry's entry for its domain,
/// `Auto` when it has none or the URL has no domain; an unparsable URL is refused.
pub open spec fn resolve_spec(registry: Map<Seq<char>, MethodView>, url: Seq<char>) -> Result<
    MethodView,
    CoordinatorError,
> {
    match domain_of_url(url) {
        None => Err(CoordinatorError::InvalidUrl),
        Some(None) => Ok(MethodView::Auto),
        Some(Some(domain)) => Ok(lookup_in(registry, domain)),
    }
}

/// What the method makes of `markup` fetched from `url`.
pub open spec fn extract_spec(method: MethodView, url: Seq<char>, markup: Seq<char>) -> Result<
    ExtractionView,
    ExtractionError,
> {
    match method {
        MethodView::Auto => auto_spec(url, readability_of(url, markup)),
        MethodView::Manual { title, body, authors, date } => manual_spec(
            url,
            markup,
            title,
            body,
            authors,
            date,
        ),
    }
}

/// What fetching `url` ends in, given what the fetch returned.
pub open spec fn article_spec(
    method: MethodView,
    url: Seq<char>,
    fetched: Result<Seq<char>, FetchError>,
) -> Result<ExtractionView, CoordinatorError> {
    match fetched {
        Err(e) => Err(CoordinatorError::Fetch(e)),
        Ok(markup) => match extract_spec(method, url, markup) {
            Ok(x) => Ok(x),
            Err(e) => Err(CoordinatorError::Extraction(e)),
        },
    }
}

impl ExtractionMethod {
    /// Extracts an article from `html`, fetched from `uri`, by this method.
    pub fn extract(&self, uri: &str, html: &str) -> (r: Result<Extraction, ExtractionError>)
        ensures
            outcome_view(r) == extract_spec(self@, uri@, html@),
    {
        match self {
            ExtractionMethod::Auto => auto_extract(uri, html),
            ExtractionMethod::Manual { title, body, authors, date } => manual_extract(
                uri,
                html,
                title.as_str(),
                body.as_str(),
                authors.as_str(),
                date.as_str(),
            ),
        }
    }

    /// Finishes a fetch: a fetch failure is passed on unchanged, fetched
    /// markup is extracted by this method, with no fallback to another.
    pub fn extract_fetched(&self, uri: &str, fetched: Result<String, FetchError>) -> (r: Result<
        Extraction,
        CoordinatorError,
    >)
        ensures
            match r {
                Ok(x) => article_spec(self@, uri@, fetched_view(fetched)) == Ok::<
                    ExtractionView,
                    CoordinatorError,
                >(x@),
                Err(e) => article_spec(self@, uri@, fetched_view(fetched)) == Err::<
                    ExtractionView,
                    CoordinatorError,
                >(e),
            },
    {
        match fetched {
            Err(e) => Err(CoordinatorError::Fetch(e)),
            Ok(html) => match self.extract(uri, html.as_str()) {
                Ok(x) => Ok(x),
                Err(e) => Err(CoordinatorError::Extraction(e)),
            },
        }
    }
}

/// The view of a fetch result.
pub open spec fn fetched_view(r: Result<String, FetchError>) -> Result<Seq<char>, FetchError> {
    match r {
        Ok(s) => Ok(s@),
        Err(e) => Err(e),
    }
}

impl Extractor {
    /// The method for `url`, decided before any network access: an unparsable
    /// URL is `InvalidUrl`; a URL with a domain takes that domain's entry (or
    /// `Auto`); a URL without one takes `Auto` with no lookup.
    pub fn method_for_url(&self, url: &str) -> (r: Result<ExtractionMethod, CoordinatorError>)
        requires
            self.wf(),
        ensures
            match r {
                Ok(m) => resolve_spec(self.registry(), url@) == Ok::<MethodView, CoordinatorError>(
                    m@,
                ),
                Err(e) => resolve_spec(self.registry(), url@) == Err::<MethodView, CoordinatorError>(
                    e,
                ),
            },
    {
        match parse_url_domain(url) {
            None => Err(CoordinatorError::InvalidUrl),
            Some(None) => Ok(ExtractionMethod::Auto),
            Some(Some(domain)) => Ok(self.lookup(domain.as_str())),
        }
    }
}

/// Extraction holds no hidden state: two extractions of the same markup from
/// the same URL by the same method give identical records.
pub proof fn lemma_extraction_deterministic(
    method: MethodView,
    url: Seq<char>,
    markup: Seq<char>,
    first: Result<Extraction, ExtractionError>,
    second: Result<Extraction, ExtractionError>,
)
    requires
        outcome_view(first) == extract_spec(method, url, markup),
        outcome_view(second) == extract_spec(method, url, markup),
    ensures
        outcome_view(first) == outcome_view(second),
{
}

} // verus!
