//! Article extraction engine: per-domain method selection, a fetch state
//! machine that walks client identities in order, and the rule-based and
//! heuristic extractors that turn markup into an [`Article`].

pub mod article;
pub mod coordinator;
pub mod fetch;
pub mod heuristic;
pub mod method;
pub mod rules;

pub use article::{Article, ArticleField, Extraction, ExtractionError, HeuristicFailure};
pub use coordinator::CoordinatorError;
pub use fetch::{Attempt, Decision, Diagnostic, FetchError, FetchStep, Fetcher};
pub use heuristic::{auto_article, auto_extract, Readout};
pub use method::{ExtractionMethod, Extractor, FormatError, RawEntry, RawField};
pub use rules::{assemble, manual_extract};
