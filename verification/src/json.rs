//! The library's handle on a parsed JSON document.
//!
//! Parsing and printing JSON is serde_json's job; the pipeline only ever
//! needs three things of a document once it is parsed: the compact text it
//! prints as, whether it is an object, and whether it is an object that
//! carries the opt-out sentinel key with the value `true`. A `JsonDoc`
//! holds exactly those, as plain values, so everything downstream of the
//! one trusted call is ordinary verified code.
use vstd::prelude::*;

verus! {

/// Ghost form of a parsed JSON document.
pub struct JsonDocV {
    /// The compact text `serde_json::Value::to_string` prints for it.
    pub text: Seq<char>,
    /// Whether the document is a JSON object.
    pub object: bool,
    /// Whether the document is an object whose sentinel key holds `true`.
    pub ignore: bool,
}

/// What parsing `s` as JSON yields, with `key` as the sentinel key:
/// `None` when `s` is not a JSON document, otherwise the document's
/// compact text, objecthood, and sentinel flag. A function of its
/// arguments alone; what it is on given values is only learnt by calling
/// [`parse_json`].
pub uninterp spec fn spec_json_doc(s: Seq<char>, key: Seq<char>) -> Option<JsonDocV>;

/// The sentinel key an emitted object uses to opt out of shipment.
pub open spec fn sentinel_key() -> Seq<char> {
    "__WOODCHUCK_IGNORE__"@
}

/// A parsed JSON document, reduced to what the pipeline reads of it.
pub struct JsonDoc {
    text: String,
    object: bool,
    ignore: bool,
}

impl View for JsonDoc {
    type V = JsonDocV;

    closed spec fn view(&self) -> JsonDocV {
        JsonDocV { text: self.text@, object: self.object, ignore: self.ignore }
    }
}

impl JsonDoc {
    /// The compact text of the document.
    pub fn text(&self) -> (r: &String)
        ensures
            r@ == self@.text,
    {
        &self.text
    }

    /// Whether the document is a JSON object.
    pub fn is_object(&self) -> (r: bool)
        ensures
            r == self@.object,
    {
        self.object
    }

    /// Whether the document carries the opt-out sentinel.
    pub fn is_ignore(&self) -> (r: bool)
        ensures
            r == self@.ignore,
    {
        self.ignore
    }

}

/// Relies on `serde_json::from_str::<serde_json::Value>` to decide whether
/// `s` is a JSON document, and, when it is, on `serde_json::Value::to_string`
/// for its compact text, `Value::is_object` for objecthood, and `Value::get`
/// with `Value::as_bool` for what the document holds under `key`. All four
/// are functions of `s` and `key` alone, named together as
/// [`spec_json_doc`].
#[verifier::external_body]
fn parse_json(s: &str, key: &str) -> (r: Option<JsonDoc>)
    ensures
        match r {
            Some(d) => spec_json_doc(s@, key@) == Some(d@),
            None => spec_json_doc(s@, key@) is None,
        },
{
    match serde_json::from_str::<serde_json::Value>(s) {
        Ok(v) => {
            let ignore = match v.get(key) {
                Some(flag) => flag.as_bool() == Some(true),
                None => false,
            };
            Some(JsonDoc { object: v.is_object(), ignore, text: v.to_string() })
        },
        Err(_) => None,
    }
}

/// Parse `s` with the pipeline's own sentinel key.
pub fn parse_json_doc(s: &str) -> (r: Option<JsonDoc>)
    ensures
        match r {
            Some(d) => spec_json_doc(s@, sentinel_key()) == Some(d@),
            None => spec_json_doc(s@, sentinel_key()) is None,
        },
{
    parse_json(s, "__WOODCHUCK_IGNORE__")
}

} // verus!
