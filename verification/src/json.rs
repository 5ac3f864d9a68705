//! The JSON object an export can be written as: an outside map keyed by
//! record name, serialized to a document.

use vstd::prelude::*;

verus! {

/// A JSON object of string values, keyed by record name. It holds an
/// outside map whose behaviour the method contracts state; its view is the
/// mathematical map of its entries.
#[verifier::external_body]
pub struct JsonObject {
    map: serde_json::Map<String, serde_json::Value>,
}

/// What a JSON object holds: one string value under each key.
pub uninterp spec fn json_entries(m: JsonObject) -> Map<Seq<char>, Seq<char>>;

impl View for JsonObject {
    type V = Map<Seq<char>, Seq<char>>;

    open spec fn view(&self) -> Map<Seq<char>, Seq<char>> {
        json_entries(*self)
    }
}

/// The entries of an object nothing was put into.
pub open spec fn no_entries() -> Map<Seq<char>, Seq<char>> {
    Map::empty()
}

/// The compact JSON document of an object: a function of its entries alone,
/// keys emitted in sorted order.
pub uninterp spec fn json_compact(entries: Map<Seq<char>, Seq<char>>) -> Seq<char>;

/// The pretty-printed JSON document of an object: a function of its entries
/// alone, keys emitted in sorted order.
pub uninterp spec fn json_pretty(entries: Map<Seq<char>, Seq<char>>) -> Seq<char>;

impl JsonObject {
    /// Relies on serde_json::Map::new: an object with no entries.
    #[verifier::external_body]
    pub(crate) fn new() -> (m: JsonObject)
        ensures
            json_entries(m) == no_entries(),
    {
        JsonObject { map: serde_json::Map::new() }
    }

    /// Relies on serde_json::Map::insert: stores a string value under a
    /// key, overwriting what an earlier insert put there.
    #[verifier::external_body]
    pub(crate) fn insert(&mut self, k: String, v: String)
        ensures
            json_entries(*final (self)) == json_entries(*old(self)).insert(k@, v@),
    {
        self.map.insert(k, serde_json::Value::String(v));
    }

    /// Relies on serde_json::to_string: the compact JSON document of the
    /// object; the error value is its diagnostic text.
    #[verifier::external_body]
    pub(crate) fn to_compact_string(&self) -> (r: Result<String, String>)
        ensures
            r matches Ok(t) ==> t@ == json_compact(json_entries(*self)),
    {
        serde_json::to_string(&self.map).map_err(|e| format!("{e}"))
    }

    /// Relies on serde_json::to_string_pretty: the pretty-printed JSON
    /// document of the object; the error value is its diagnostic text.
    #[verifier::external_body]
    pub(crate) fn to_pretty_string(&self) -> (r: Result<String, String>)
        ensures
            r matches Ok(t) ==> t@ == json_pretty(json_entries(*self)),
    {
        serde_json::to_string_pretty(&self.map).map_err(|e| format!("{e}"))
    }
}

} // verus!
