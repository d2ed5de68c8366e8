use vstd::prelude::*;
use vstd::string::StringExecFns;
use crate::doc_state::{guard_document, DocState};
use crate::errors::HostError;
use crate::json::{EntryView, Json, JsonValue, ScriptValue};
use crate::markup::{element_inner_html, element_tag_name, element_text, parse_selector, select_first, selector_ok};

verus! {

/// The first argument of a querySelector call, as the host sees it after
/// unmarshalling: absent, present but not a string, or a selector string.
pub enum QueryArg {
    Absent,
    NonString,
    Text(String),
}

/// An ephemeral, detached projection of a matched element: plain string
/// fields with no back-reference to the document. Once produced it is never
/// re-synchronized with later document mutations.
pub struct ElementSnapshot {
    /// Concatenation, in document order, of all descendant text.
    pub text_content: String,
    /// Serialized markup of the element's children.
    pub inner_html: String,
    /// The element's tag name, preserving stored case.
    pub tag_name: String,
}

/// The exact shape of a snapshot mapping: the three string fields under their
/// script-visible names, and `attributes` as a nested empty object (an
/// explicit unsupported placeholder, not an enumeration of attributes).
pub open spec fn snapshot_view(t: Seq<char>, h: Seq<char>, n: Seq<char>) -> Seq<
    (Seq<char>, EntryView),
> {
    seq![
        ("textContent"@, EntryView::Str(t)),
        ("innerHTML"@, EntryView::Str(h)),
        ("tagName"@, EntryView::Str(n)),
        ("attributes"@, EntryView::Object(Seq::empty())),
    ]
}

impl ElementSnapshot {
    /// Projects the snapshot into a property mapping with exactly the four
    /// snapshot fields, in their fixed order.
    pub fn to_mapping(self) -> (r: Json)
        ensures
            r@ =~= snapshot_view(self.text_content@, self.inner_html@, self.tag_name@),
            r.wf(),
    {
        proof {
            reveal_strlit("textContent");
            reveal_strlit("innerHTML");
            reveal_strlit("tagName");
            reveal_strlit("attributes");
            assert("textContent"@.len() == 11);
            assert("innerHTML"@.len() == 9);
            assert("tagName"@.len() == 7);
            assert("attributes"@.len() == 10);
        }
        let mut m = Json::empty();
        m.insert(String::from_str("textContent"), JsonValue::Property(ScriptValue::Str(self.text_content)));
        m.insert(String::from_str("innerHTML"), JsonValue::Property(ScriptValue::Str(self.inner_html)));
        m.insert(String::from_str("tagName"), JsonValue::Property(ScriptValue::Str(self.tag_name)));
        m.insert(String::from_str("attributes"), Json::empty().nested());
        m
    }
}

/// Projects the outcome of a document query: a selector that matched no node
/// yields the empty mapping, with no own entries; a matched node yields its
/// snapshot mapping, and nothing else.
pub fn project_match(found: Option<ElementSnapshot>) -> (r: Json)
    ensures
        found matches None ==> r@ =~= Seq::<(Seq<char>, EntryView)>::empty(),
        (found matches Some(s) ==> r@ =~= snapshot_view(
            s.text_content@,
            s.inner_html@,
            s.tag_name@,
        )),
        r.wf(),
{
    match found {
        None => Json::empty(),
        Some(snap) => snap.to_mapping(),
    }
}

/// The querySelector contract. A missing or non-string argument yields the
/// empty mapping with no error. A string that the selector grammar rejects is
/// fatal. Otherwise the document is read under a shared guard and the first
/// match, in document order, is projected into a detached snapshot mapping;
/// no match yields the empty mapping.
pub fn query_selector(doc: &DocState, arg: &QueryArg) -> (r: Result<Json, HostError>)
    ensures
        (arg matches QueryArg::Absent || arg matches QueryArg::NonString) ==> (r matches Ok(m)
            && m@ =~= Seq::<(Seq<char>, EntryView)>::empty()),
        (arg matches QueryArg::Text(s) && !selector_ok(s@)) ==> r == Err::<Json, HostError>(
            HostError::InvalidSelector,
        ),
        (arg matches QueryArg::Text(s) && selector_ok(s@)) ==> ((r matches Err(e) ==> e
            == HostError::Poisoned) && (r matches Ok(m) ==> (m@ =~= Seq::<
            (Seq<char>, EntryView),
        >::empty() || exists|t: Seq<char>, h: Seq<char>, n: Seq<char>| m@ == snapshot_view(t, h, n)))),
        r matches Ok(m) ==> m.wf(),
{
    match arg {
        QueryArg::Absent => Ok(Json::empty()),
        QueryArg::NonString => Ok(Json::empty()),
        QueryArg::Text(s) => {
            let sel = match parse_selector(s.as_str()) {
                Ok(sel) => sel,
                Err(e) => {
                    return Err(e);
                },
            };
            let guard = match doc.read_value() {
                Ok(g) => g,
                Err(e) => {
                    return Err(e);
                },
            };
            let html = guard_document(&guard);
            let found = match select_first(html, &sel) {
                None => None,
                Some(ele) => Some(
                    ElementSnapshot {
                        text_content: element_text(&ele),
                        inner_html: element_inner_html(&ele),
                        tag_name: element_tag_name(&ele),
                    },
                ),
            };
            let ghost found_spec = found;
            let m = project_match(found);
            proof {
                match found_spec {
                    Some(snap) => {
                        assert(m@ == snapshot_view(
                            snap.text_content@,
                            snap.inner_html@,
                            snap.tag_name@,
                        ));
                    },
                    None => {},
                }
            }
            Ok(m)
        },
    }
}


} // verus!
