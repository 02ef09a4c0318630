//! Rule-based extraction: four CSS selectors, one per field.

use vstd::prelude::*;

use crate::article::{
    opt_view, text_or_empty, unwrap_text, Article, ArticleField, ArticleView, Extraction,
    ExtractionError, ExtractionView,
};

verus! {

#[verifier::external_type_specification]
#[verifier::external_body]
pub struct ExHtml(scraper::Html);

#[verifier::external_type_specification]
#[verifier::external_body]
pub struct ExSelector(scraper::Selector);

/// Whether scraper accepts `sel` as a CSS selector list.
pub uninterp spec fn selector_accepts(sel: Seq<char>) -> bool;

/// The text of the first element of `markup` that `sel` matches: all its
/// descendant text nodes in document order, joined without separator.
pub uninterp spec fn first_text_of(markup: Seq<char>, sel: Seq<char>) -> Option<Seq<char>>;

/// The serialized children of the first element of `markup` that `sel` matches.
pub uninterp spec fn first_inner_html_of(markup: Seq<char>, sel: Seq<char>) -> Option<Seq<char>>;

/// A parsed document together with the markup it was parsed from.
pub struct Document {
    markup: String,
    tree: scraper::Html,
}

impl Document {
    /// The markup this document was parsed from.
    pub closed spec fn source(&self) -> Seq<char> {
        self.markup@
    }
}

/// A compiled selector together with its text.
pub struct CompiledSelector {
    text: String,
    compiled: scraper::Selector,
}

impl CompiledSelector {
    /// The selector text this was compiled from.
    pub closed spec fn source(&self) -> Seq<char> {
        self.text@
    }
}

/// Relies on scraper::Html::parse_document, which recovers from any markup
/// error as an HTML5 parser does, so it never fails.
#[verifier::external_body]
fn parse_document(markup: &str) -> (r: Document)
    ensures
        r.source() == markup@,
{
    Document { markup: markup.to_owned(), tree: scraper::Html::parse_document(markup) }
}

/// Relies on scraper::Selector::parse: it succeeds exactly on the selector
/// lists that scraper accepts.
#[verifier::external_body]
fn compile_selector(sel: &str) -> (r: Option<CompiledSelector>)
    ensures
        r.is_some() == selector_accepts(sel@),
        r matches Some(c) ==> c.source() == sel@,
{
    match scraper::Selector::parse(sel) {
        Ok(compiled) => Some(CompiledSelector { text: sel.to_owned(), compiled }),
        Err(_) => None,
    }
}

/// Relies on scraper's Html::select and ElementRef::text: the first match in
/// document order, and its text nodes concatenated.
#[verifier::external_body]
fn select_first_text(doc: &Document, sel: &CompiledSelector) -> (r: Option<String>)
    ensures
        opt_view(r) == first_text_of(doc.source(), sel.source()),
{
    match doc.tree.select(&sel.compiled).next() {
        Some(element) => Some(element.text().collect::<Vec<&str>>().concat()),
        None => None,
    }
}

/// Relies on scraper's Html::select and ElementRef::inner_html: the first
/// match in document order, serialized without its own tag.
#[verifier::external_body]
fn select_first_inner_html(doc: &Document, sel: &CompiledSelector) -> (r: Option<String>)
    ensures
        opt_view(r) == first_inner_html_of(doc.source(), sel.source()),
{
    match doc.tree.select(&sel.compiled).next() {
        Some(element) => Some(element.inner_html()),
        None => None,
    }
}

/// The fields among title, authors and date whose selector found nothing, in that order.
pub open spec fn missing_fields(
    title: Option<Seq<char>>,
    authors: Option<Seq<char>>,
    date: Option<Seq<char>>,
) -> Seq<ArticleField> {
    let s1 = if title is None {
        seq![ArticleField::Title]
    } else {
        Seq::empty()
    };
    let s2 = if authors is None {
        s1.push(ArticleField::Authors)
    } else {
        s1
    };
    if date is None {
        s2.push(ArticleField::PublishedAt)
    } else {
        s2
    }
}

/// The record that the four selections give: the body is mandatory and must
/// not be empty; the other three fields are blank when nothing matched.
pub open spec fn assemble_spec(
    url: Seq<char>,
    title: Option<Seq<char>>,
    body: Option<Seq<char>>,
    authors: Option<Seq<char>>,
    date: Option<Seq<char>>,
) -> Result<ExtractionView, ExtractionError> {
    match body {
        None => Err(ExtractionError::ContentNotFound),
        Some(content) => if content.len() == 0 {
            Err(ExtractionError::ContentEmpty)
        } else {
            Ok(
                ExtractionView {
                    article: ArticleView {
                        url,
                        title: text_or_empty(title),
                        content,
                        authors: text_or_empty(authors),
                        published_at: text_or_empty(date),
                    },
                    missing: missing_fields(title, authors, date),
                },
            )
        },
    }
}

/// What rule-based extraction gives for `markup` with the four selectors.
pub open spec fn manual_spec(
    url: Seq<char>,
    markup: Seq<char>,
    title_sel: Seq<char>,
    body_sel: Seq<char>,
    authors_sel: Seq<char>,
    date_sel: Seq<char>,
) -> Result<ExtractionView, ExtractionError> {
    if !(selector_accepts(title_sel) && selector_accepts(body_sel) && selector_accepts(
        authors_sel,
    ) && selector_accepts(date_sel)) {
        Err(ExtractionError::InvalidSelector)
    } else {
        assemble_spec(
            url,
            first_text_of(markup, title_sel),
            first_inner_html_of(markup, body_sel),
            first_text_of(markup, authors_sel),
            first_text_of(markup, date_sel),
        )
    }
}

/// Builds the record from what the four selectors found (`None`: no match).
/// Fails with `ContentNotFound` when the body selector found nothing and with
/// `ContentEmpty` when the body element holds no markup; the other fields are
/// left blank and reported as missing.
pub fn assemble(
    url: &str,
    title: Option<String>,
    body: Option<String>,
    authors: Option<String>,
    date: Option<String>,
) -> (r: Result<Extraction, ExtractionError>)
    ensures
        crate::article::outcome_view(r) == assemble_spec(
            url@,
            opt_view(title),
            opt_view(body),
            opt_view(authors),
            opt_view(date),
        ),
{
    let content = match body {
        None => return Err(ExtractionError::ContentNotFound),
        Some(c) => c,
    };
    if content.as_str().is_empty() {
        return Err(ExtractionError::ContentEmpty);
    }
    let mut missing: Vec<ArticleField> = Vec::new();
    if title.is_none() {
        missing.push(ArticleField::Title);
    }
    if authors.is_none() {
        missing.push(ArticleField::Authors);
    }
    if date.is_none() {
        missing.push(ArticleField::PublishedAt);
    }
    proof {
        let ghost m = missing_fields(opt_view(title), opt_view(authors), opt_view(date));
        assert(missing@ =~= m);
    }
    let article = Article {
        url: url.to_owned(),
        title: unwrap_text(title),
        content,
        authors: unwrap_text(authors),
        published_at: unwrap_text(date),
    };
    Ok(Extraction { article, missing })
}

/// Rule-based extraction: parses `markup`, compiles all four selectors
/// (failing with `InvalidSelector` before any selection if one does not
/// compile), takes the text of the first match of the title, authors and date
/// selectors and the inner markup of the first match of the body selector.
pub fn manual_extract(
    url: &str,
    html: &str,
    title_sel: &str,
    body_sel: &str,
    authors_sel: &str,
    date_sel: &str,
) -> (r: Result<Extraction, ExtractionError>)
    ensures
        crate::article::outcome_view(r) == manual_spec(
            url@,
            html@,
            title_sel@,
            body_sel@,
            authors_sel@,
            date_sel@,
        ),
{
    let doc = parse_document(html);
    let title_sel = compile_selector(title_sel);
    let body_sel = compile_selector(body_sel);
    let authors_sel = compile_selector(authors_sel);
    let date_sel = compile_selector(date_sel);
    match (title_sel, body_sel, authors_sel, date_sel) {
        (Some(t), Some(b), Some(a), Some(d)) => {
            let title = select_first_text(&doc, &t);
            let authors = select_first_text(&doc, &a);
            let date = select_first_text(&doc, &d);
            let body = select_first_inner_html(&doc, &b);
            assemble(url, title, body, authors, date)
        },
        _ => Err(ExtractionError::InvalidSelector),
    }
}

/// With valid selectors, a body selector that matches nothing fails with
/// `ContentNotFound`, and one whose match holds no markup fails with
/// `ContentEmpty`, whatever the other three selectors find.
pub proof fn lemma_body_is_mandatory(
    url: Seq<char>,
    markup: Seq<char>,
    title_sel: Seq<char>,
    body_sel: Seq<char>,
    authors_sel: Seq<char>,
    date_sel: Seq<char>,
)
    requires
        selector_accepts(title_sel),
        selector_accepts(body_sel),
        selector_accepts(authors_sel),
        selector_accepts(date_sel),
    ensures
        first_inner_html_of(markup, body_sel) is None ==> manual_spec(
            url,
            markup,
            title_sel,
            body_sel,
            authors_sel,
            date_sel,
        ) == Err::<ExtractionView, _>(ExtractionError::ContentNotFound),
        first_inner_html_of(markup, body_sel) == Some(Seq::<char>::empty()) ==> manual_spec(
            url,
            markup,
            title_sel,
            body_sel,
            authors_sel,
            date_sel,
        ) == Err::<ExtractionView, _>(ExtractionError::ContentEmpty),
{
}

} // verus!
