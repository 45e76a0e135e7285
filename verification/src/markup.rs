//! The markup parser that the extraction rests on.
//!
//! Parsing a page and matching selectors against it is the work of the
//! `scraper` crate. Nothing of that is proved here: each function below
//! makes one call into the crate, and its contract only gives the outcome a
//! name, so that the verified code can say what it does with it.

use vstd::prelude::*;

use crate::text::{text_of, texts_of};

verus! {

/// `scraper::Html`: a parsed document. Nothing inside it is visible here.
#[verifier::external_type_specification]
#[verifier::external_body]
pub struct ExHtml(scraper::Html);

/// `scraper::Selector`: a parsed selector. Nothing inside it is visible
/// here.
#[verifier::external_type_specification]
#[verifier::external_body]
pub struct ExSelector(scraper::Selector);

/// `scraper::error::SelectorErrorKind`: why a text is no selector. It is
/// only told apart from success.
#[verifier::external_type_specification]
#[verifier::external_body]
pub struct ExSelectorErrorKind(scraper::error::SelectorErrorKind);

/// `scraper::ElementRef`: one element of a parsed document. Nothing inside
/// it is visible here.
#[verifier::external_type_specification]
#[verifier::external_body]
pub struct ExElementRef<'a>(scraper::ElementRef<'a>);

/// The longest page that is handed to the parser, in bytes of UTF-8.
///
/// The parser keeps each text of a page (the page itself, a run of text, a
/// name, an attribute's value, a comment) in a buffer of the `tendril` crate.
/// Such a buffer panics when it is asked to hold more than `u32::MAX` bytes,
/// and when it grows it rounds its size up to a power of two, which must fit
/// 32 bits and, as an allocation, the address space. A text in the tree can
/// be longer than it is in the page, by a factor of three at most: the
/// tokenizer puts the three bytes of U+FFFD in the place of a NUL byte. Below
/// a third of 2^30 bytes no buffer comes near those limits.
pub const PAGE_LIMIT: usize = 357913941;

/// The number of bytes that a text takes in UTF-8.
pub open spec fn byte_length(text: Seq<char>) -> nat {
    vstd::utf8::encode_utf8(text).len()
}

/// Whether a text is short enough for the parser.
pub open spec fn fits_the_parser(text: Seq<char>) -> bool {
    byte_length(text) <= PAGE_LIMIT
}

/// The tree that `scraper::Html::parse_document` builds from a text that
/// fits the parser.
pub uninterp spec fn parsed_document(text: Seq<char>) -> scraper::Html;

/// What `scraper::Selector::parse` makes of a selector text.
pub uninterp spec fn parsed_selector(css: Seq<char>) -> Result<
    scraper::Selector,
    scraper::error::SelectorErrorKind,
>;

/// The elements of a document that `scraper::Html::select` yields for a
/// selector, in the order in which it yields them.
pub uninterp spec fn document_matches(
    document: &scraper::Html,
    selector: scraper::Selector,
) -> Seq<scraper::ElementRef<'_>>;

/// The elements below an element that `scraper::ElementRef::select` yields
/// for a selector, in the order in which it yields them.
pub uninterp spec fn element_matches(
    element: scraper::ElementRef<'_>,
    selector: scraper::Selector,
) -> Seq<scraper::ElementRef<'_>>;

/// The text nodes below an element that `scraper::ElementRef::text` yields,
/// in the order in which it yields them.
pub uninterp spec fn text_nodes(element: scraper::ElementRef<'_>) -> Seq<Seq<char>>;

/// What `scraper::ElementRef::attr` finds under an attribute's name.
pub uninterp spec fn element_attr(element: scraper::ElementRef<'_>, name: Seq<char>) -> Option<
    Seq<char>,
>;

/// Calls `scraper::Html::parse_document`. The crate's parser refuses no
/// text for what it holds: what it cannot make sense of it notes in the tree
/// and goes on. It does panic on a text that is too long, so such a text is
/// kept away from it. The contract claims only that the tree depends on the
/// text alone.
#[verifier::external_body]
pub(crate) fn parse_document(text: &str) -> (document: scraper::Html)
    requires
        fits_the_parser(text@),
    ensures
        document == parsed_document(text@),
{
    scraper::Html::parse_document(text)
}

/// Calls `scraper::Selector::parse`. The contract claims only that the
/// outcome depends on the selector text alone.
#[verifier::external_body]
pub(crate) fn parse_selector(css: &str) -> (parsed: Result<
    scraper::Selector,
    scraper::error::SelectorErrorKind,
>)
    ensures
        parsed == parsed_selector(css@),
{
    scraper::Selector::parse(css)
}

/// Calls `scraper::Html::select` and collects what it yields, in its order.
#[verifier::external_body]
pub(crate) fn select_in_document<'a>(
    document: &'a scraper::Html,
    selector: &scraper::Selector,
) -> (found: Vec<scraper::ElementRef<'a>>)
    ensures
        found@ == document_matches(document, *selector),
{
    document.select(selector).collect()
}

/// Calls `scraper::ElementRef::select` and collects what it yields, in its
/// order.
#[verifier::external_body]
pub(crate) fn select_in_element<'a>(
    element: &scraper::ElementRef<'a>,
    selector: &scraper::Selector,
) -> (found: Vec<scraper::ElementRef<'a>>)
    ensures
        found@ == element_matches(*element, *selector),
{
    element.select(selector).collect()
}

/// Calls `scraper::ElementRef::text` and collects the text nodes that it
/// yields, in its order.
#[verifier::external_body]
pub(crate) fn text_nodes_of<'a>(element: &scraper::ElementRef<'a>) -> (texts: Vec<&'a str>)
    ensures
        texts_of(texts@) == text_nodes(*element),
{
    element.text().collect()
}

/// Calls `scraper::ElementRef::attr`.
#[verifier::external_body]
pub(crate) fn attribute<'a>(element: &scraper::ElementRef<'a>, name: &str) -> (value: Option<
    &'a str,
>)
    ensures
        text_of(value) == element_attr(*element, name@),
{
    element.attr(name)
}

} // verus!
