use vstd::prelude::*;
use crate::errors::HostError;

verus! {

#[verifier::external_type_specification]
#[verifier::external_body]
pub struct ExHtml(scraper::Html);

#[verifier::external_type_specification]
#[verifier::external_body]
pub struct ExSelector(scraper::Selector);

#[verifier::external_type_specification]
#[verifier::external_body]
pub struct ExElementRef<'a>(scraper::ElementRef<'a>);

/// Whether the markup engine's selector grammar accepts the string; names the
/// outcome of scraper::Selector::parse, which depends on the string alone.
pub uninterp spec fn selector_ok(s: Seq<char>) -> bool;

/// Relies on scraper::Selector::parse: succeeds exactly on the strings the
/// selector grammar accepts (`selector_ok` names that outcome); a rejected
/// string is reported as an invalid selector.
#[verifier::external_body]
pub(crate) fn parse_selector(s: &str) -> (r: Result<scraper::Selector, HostError>)
    ensures
        r matches Ok(_) <==> selector_ok(s@),
        r matches Err(e) ==> e == HostError::InvalidSelector,
{
    match scraper::Selector::parse(s) {
        Ok(sel) => Ok(sel),
        Err(_) => Err(HostError::InvalidSelector),
    }
}

/// Relies on scraper::Html::select and its iterator: yields the elements
/// matching the selector in document order; returns the first, if any.
#[verifier::external_body]
pub(crate) fn select_first<'a>(
    doc: &'a scraper::Html,
    sel: &scraper::Selector,
) -> Option<scraper::ElementRef<'a>> {
    doc.select(sel).next()
}

/// Relies on scraper::ElementRef::text: the concatenation, in document order,
/// of the text of all descendant text nodes.
#[verifier::external_body]
pub(crate) fn element_text<'a>(e: &scraper::ElementRef<'a>) -> String {
    e.text().collect::<String>()
}

/// Relies on scraper::ElementRef::inner_html: the serialized markup of the
/// element's children.
#[verifier::external_body]
pub(crate) fn element_inner_html<'a>(e: &scraper::ElementRef<'a>) -> String {
    e.inner_html()
}

/// Relies on scraper::node::Element::name: the element's tag name, in the
/// case the parser stored.
#[verifier::external_body]
pub(crate) fn element_tag_name<'a>(e: &scraper::ElementRef<'a>) -> String {
    e.value().name().to_string()
}

} // verus!
