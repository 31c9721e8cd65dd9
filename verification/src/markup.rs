//! HTML documents and CSS selectors, as far as the engines' page parsers read
//! them: how many elements a selector matches, and the inner markup or an
//! attribute of an element found under one of the matches.
//!
//! Parsing and matching are done by the `scraper` crate. What it returns is a
//! function of the page text and the selector texts alone, and is named here
//! rather than written out.

use vstd::prelude::*;
use crate::text::optional_text;

verus! {

/// A parsed HTML document (`scraper::Html`).
#[verifier::external_type_specification]
#[verifier::external_body]
pub struct ExHtml(scraper::Html);

/// A parsed CSS selector group (`scraper::Selector`).
#[verifier::external_type_specification]
#[verifier::external_body]
pub struct ExSelector(scraper::Selector);

/// The text that a document was parsed from.
pub uninterp spec fn document_text(document: scraper::Html) -> Seq<char>;

/// The text that a selector was parsed from.
pub uninterp spec fn selector_text(selector: scraper::Selector) -> Seq<char>;

/// Whether `scraper::Selector::parse` accepts the text.
pub uninterp spec fn selector_parses(text: Seq<char>) -> bool;

/// The number of elements of the page that match the selector.
pub uninterp spec fn match_count(page: Seq<char>, selector: Seq<char>) -> nat;

/// The value of an attribute of the element with the given index among the
/// matches of the selector; `None` where there is no such match or it has no
/// such attribute.
pub uninterp spec fn match_attribute(
    page: Seq<char>,
    selector: Seq<char>,
    index: nat,
    attribute: Seq<char>,
) -> Option<Seq<char>>;

/// The inner markup of the first descendant matching `inner` of the element
/// with the given index among the matches of `outer`; `None` where there is
/// no such match or no such descendant.
pub uninterp spec fn nested_markup(
    page: Seq<char>,
    outer: Seq<char>,
    index: nat,
    inner: Seq<char>,
) -> Option<Seq<char>>;

/// The value of an attribute of the first descendant matching `inner` of the
/// element with the given index among the matches of `outer`; `None` where
/// there is no such match, no such descendant, or it has no such attribute.
pub uninterp spec fn nested_attribute(
    page: Seq<char>,
    outer: Seq<char>,
    index: nat,
    inner: Seq<char>,
    attribute: Seq<char>,
) -> Option<Seq<char>>;

/// Parses a page with `scraper::Html::parse_document`, which accepts every
/// text. The document remembers the text it came from.
#[verifier::external_body]
pub(crate) fn parse_document(page: &str) -> (document: scraper::Html)
    ensures
        document_text(document) == page@,
{
    scraper::Html::parse_document(page)
}

/// Parses a selector group with `scraper::Selector::parse`; `None` where the
/// text is rejected. The selector remembers the text it came from.
#[verifier::external_body]
pub(crate) fn parse_selector(text: &str) -> (selector: Option<scraper::Selector>)
    ensures
        selector is Some == selector_parses(text@),
        selector is Some ==> selector_text(selector->0) == text@,
{
    scraper::Selector::parse(text).ok()
}

/// Counts the elements that `scraper::Html::select` yields.
#[verifier::external_body]
pub(crate) fn count_matches(document: &scraper::Html, selector: &scraper::Selector) -> (count: usize)
    ensures
        count == match_count(document_text(*document), selector_text(*selector)),
{
    document.select(selector).count()
}

/// Reads an attribute (`scraper::ElementRef::attr`) of the element that
/// `scraper::Html::select` yields at `index`.
#[verifier::external_body]
pub(crate) fn attribute_of_match(
    document: &scraper::Html,
    selector: &scraper::Selector,
    index: usize,
    attribute: &str,
) -> (value: Option<String>)
    ensures
        optional_text(value) == match_attribute(
            document_text(*document),
            selector_text(*selector),
            index as nat,
            attribute@,
        ),
{
    let element = document.select(selector).nth(index)?;
    Some(element.attr(attribute)?.to_string())
}

/// Serializes the children (`scraper::ElementRef::inner_html`) of the first
/// element that `scraper::ElementRef::select` yields under the element that
/// `scraper::Html::select` yields at `index`.
#[verifier::external_body]
pub(crate) fn markup_under_match(
    document: &scraper::Html,
    outer: &scraper::Selector,
    index: usize,
    inner: &scraper::Selector,
) -> (markup: Option<String>)
    ensures
        optional_text(markup) == nested_markup(
            document_text(*document),
            selector_text(*outer),
            index as nat,
            selector_text(*inner),
        ),
{
    let block = document.select(outer).nth(index)?;
    let element = block.select(inner).next()?;
    Some(element.inner_html())
}

/// Reads an attribute (`scraper::ElementRef::attr`) of the first element that
/// `scraper::ElementRef::select` yields under the element that
/// `scraper::Html::select` yields at `index`.
#[verifier::external_body]
pub(crate) fn attribute_under_match(
    document: &scraper::Html,
    outer: &scraper::Selector,
    index: usize,
    inner: &scraper::Selector,
    attribute: &str,
) -> (value: Option<String>)
    ensures
        optional_text(value) == nested_attribute(
            document_text(*document),
            selector_text(*outer),
            index as nat,
            selector_text(*inner),
            attribute@,
        ),
{
    let block = document.select(outer).nth(index)?;
    let element = block.select(inner).next()?;
    Some(element.attr(attribute)?.to_string())
}

} // verus!
