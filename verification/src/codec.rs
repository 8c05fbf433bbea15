//! The trusted boundary to the textual document format.
//!
//! The crate's own parsers and serializers work on [`DocValue`] trees; only
//! the step between text and tree is delegated to the `toml` crate, behind
//! the two named results below.  Nothing else in the crate touches document
//! text.
//!
//! The outside map type holds its entries keyed, so a table read from text
//! has unique keys and the entry order of a rendered table is the crate's
//! choice; neither is relied upon here.

use vstd::prelude::*;
use crate::doc::{DocV, DocValue};

verus! {

#[verifier::external_type_specification]
#[verifier::external_body]
pub struct ExTomlValue(toml::Value);

/// The document denoted by a text, if the text is well-formed.
pub uninterp spec fn doc_of_text(s: Seq<char>) -> Option<DocV>;

/// The text that rendering a document produces.
pub uninterp spec fn text_of_doc(d: DocV) -> Seq<char>;

/// Relies on `toml::Value`: each variant is carried over to the matching
/// document node; floats and datetimes are carried as their display text.
#[verifier::external_body]
fn from_toml_value(v: toml::Value) -> DocValue {
    match v {
        toml::Value::String(s) => DocValue::Str(s),
        toml::Value::Integer(i) => DocValue::Int(i),
        toml::Value::Float(x) => DocValue::Str(x.to_string()),
        toml::Value::Boolean(b) => DocValue::Bool(b),
        toml::Value::Datetime(d) => DocValue::Str(d.to_string()),
        toml::Value::Array(a) => DocValue::Arr(a.into_iter().map(from_toml_value).collect()),
        toml::Value::Table(t) => DocValue::Table(t.into_iter().map(|(k, x)| (k, from_toml_value(x))).collect()),
    }
}

/// Relies on `toml::Value`: each document node constructs the matching
/// variant.
#[verifier::external_body]
fn to_toml_value(d: &DocValue) -> toml::Value {
    match d {
        DocValue::Str(s) => toml::Value::String(s.clone()),
        DocValue::Int(i) => toml::Value::Integer(*i),
        DocValue::Bool(b) => toml::Value::Boolean(*b),
        DocValue::Arr(v) => toml::Value::Array(v.iter().map(to_toml_value).collect()),
        DocValue::Table(t) => toml::Value::Table(t.iter().map(|(k, x)| (k.clone(), to_toml_value(x))).collect()),
    }
}

/// Relies on `toml::from_str::<toml::Value>`: parses document text; the
/// outcome is a function of the text alone.
#[verifier::external_body]
pub(crate) fn parse_text(s: &str) -> (r: Option<DocValue>)
    ensures
        match r {
            Some(d) => doc_of_text(s@) == Some(d@),
            None => doc_of_text(s@) is None,
        },
{
    toml::from_str::<toml::Value>(s).ok().map(from_toml_value)
}

/// Relies on `toml::to_string`: renders a document; the text is a function
/// of the document alone.  A table-topped document always renders: the
/// serializer's only failures are a non-table top, a non-string key, a
/// bare serde `None`, an unsupported serde shape, or an invalid date, and
/// the conversion above produces none of those.
#[verifier::external_body]
pub(crate) fn render_doc(d: &DocValue) -> (r: Option<String>)
    ensures
        match r {
            Some(s) => s@ == text_of_doc(d@),
            None => true,
        },
        d@ is Table ==> r is Some,
{
    toml::to_string(&to_toml_value(d)).ok()
}

} // verus!
