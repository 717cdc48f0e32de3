use vstd::prelude::*;

verus! {

/// The error type of `serde_json` (a JSON text that does not parse).
#[verifier::external_type_specification]
#[verifier::external_body]
pub struct ExJsonError(serde_json::Error);

/// An item of a parsed JSON array, as far as a list of names needs it:
/// a string, or any other JSON value.
pub enum JsonEntry {
    Text(String),
    Other,
}

/// A parsed JSON document, as far as a list of names needs it: an array of
/// entries, or any other JSON value.
pub enum JsonDocument {
    Array(Vec<JsonEntry>),
    Other,
}

impl View for JsonEntry {
    /// `Some(text)` for a JSON string.
    type V = Option<Seq<char>>;

    open spec fn view(&self) -> Option<Seq<char>> {
        match self {
            JsonEntry::Text(s) => Some(s@),
            JsonEntry::Other => None,
        }
    }
}

impl View for JsonDocument {
    /// `Some(items)` for a JSON array.
    type V = Option<Seq<Option<Seq<char>>>>;

    open spec fn view(&self) -> Option<Seq<Option<Seq<char>>>> {
        match self {
            JsonDocument::Array(items) => Some(items@.map_values(|e: JsonEntry| e@)),
            JsonDocument::Other => None,
        }
    }
}

/// What `serde_json::from_str` makes of a text, seen through `JsonDocument`'s
/// view: `None` when the text is not valid JSON.
pub uninterp spec fn json_document_shape(text: Seq<char>) -> Option<Option<Seq<Option<Seq<char>>>>>;

/// Reads `text` with `serde_json::from_str` into a `serde_json::Value` and
/// keeps of it whether it is an array and, item by item, the text of each
/// string item. The contract claims only that the outcome is a function of
/// the text (`json_document_shape`); the JSON grammar is serde_json's.
#[verifier::external_body]
fn parse_json_document(text: &str) -> (res: Result<JsonDocument, serde_json::Error>)
    ensures
        match res {
            Ok(doc) => json_document_shape(text@) == Some(doc@),
            Err(_) => json_document_shape(text@) is None,
        },
{
    match serde_json::from_str::<serde_json::Value>(text) {
        Err(e) => Err(e),
        Ok(serde_json::Value::Array(items)) => Ok(JsonDocument::Array(
            items.into_iter().map(|item| match item {
                serde_json::Value::String(s) => JsonEntry::Text(s),
                _ => JsonEntry::Other,
            }).collect(),
        )),
        Ok(_) => Ok(JsonDocument::Other),
    }
}

/// A document is a list of names when it is an array whose items are all strings.
pub open spec fn is_string_array(doc: Option<Seq<Option<Seq<char>>>>) -> bool {
    &&& doc is Some
    &&& forall|i: int| 0 <= i < doc->0.len() ==> (#[trigger] doc->0[i]) is Some
}

/// The texts of the items of an array of strings.
pub open spec fn array_texts(items: Seq<Option<Seq<char>>>) -> Seq<Seq<char>> {
    items.map_values(|item: Option<Seq<char>>| item->0)
}

/// Why the namespace file gave no list of namespaces.
pub enum NamespaceFileError {
    /// The text is not JSON.
    InvalidJson(serde_json::Error),
    /// The JSON value is not an array of strings.
    NotAStringArray,
}

/// The names that a JSON array of strings lists, in order.
pub fn namespace_names(doc: &JsonDocument) -> (names: Vec<String>)
    requires
        is_string_array(doc@),
    ensures
        names.deep_view() == array_texts(doc@->0),
        names@.len() == doc@->0.len(),
        forall|i: int| 0 <= i < names@.len() ==> doc@->0[i] == Some(#[trigger] names@[i]@),
{
    let mut names: Vec<String> = Vec::new();
    match doc {
        JsonDocument::Array(items) => {
            let n = items.len();
            for i in 0..n
                invariant
                    n == items@.len(),
                    doc@ == Some(items@.map_values(|e: JsonEntry| e@)),
                    is_string_array(doc@),
                    names.deep_view() =~= array_texts(doc@->0).take(i as int),
            {
                assert(doc@->0[i as int] is Some);
                match &items[i] {
                    JsonEntry::Text(s) => {
                        names.push(s.clone());
                    },
                    JsonEntry::Other => {},
                }
                assert(array_texts(doc@->0).take(i + 1) =~= array_texts(doc@->0).take(
                    i as int,
                ).push(doc@->0[i as int]->0));
            }
            assert(array_texts(doc@->0).take(n as int) =~= array_texts(doc@->0));
            assert(names.deep_view().len() == names@.len());
            assert forall|i: int| 0 <= i < names@.len() implies doc@->0[i] == Some(
                #[trigger] names@[i]@,
            ) by {
                assert(names.deep_view()[i] == names@[i]@);
                assert(doc@->0[i] is Some);
            }
        },
        JsonDocument::Other => {},
    }
    names
}

/// Reads the list of namespaces from the text of the namespace file, which
/// must hold a JSON array of strings.
pub fn load_namespaces(text: &str) -> (res: Result<Vec<String>, NamespaceFileError>)
    ensures
        match res {
            Ok(names) => json_document_shape(text@) matches Some(doc) && is_string_array(doc)
                && names.deep_view() == array_texts(doc->0),
            Err(NamespaceFileError::InvalidJson(_)) => json_document_shape(text@) is None,
            Err(NamespaceFileError::NotAStringArray) => json_document_shape(text@) matches Some(
                doc,
            ) && !is_string_array(doc),
        },
        res matches Ok(names) ==> (json_document_shape(text@) matches Some(doc) && names@.len()
            == doc->0.len() && forall|i: int|
            0 <= i < names@.len() ==> doc->0[i] == Some(#[trigger] names@[i]@)),
{
    match parse_json_document(text) {
        Err(e) => Err(NamespaceFileError::InvalidJson(e)),
        Ok(doc) => {
            if is_text_array(&doc) {
                Ok(namespace_names(&doc))
            } else {
                Err(NamespaceFileError::NotAStringArray)
            }
        },
    }
}

/// Whether a parsed document is an array of strings.
pub fn is_text_array(doc: &JsonDocument) -> (b: bool)
    ensures
        b == is_string_array(doc@),
{
    match doc {
        JsonDocument::Array(items) => {
            let n = items.len();
            for i in 0..n
                invariant
                    n == items@.len(),
                    doc@ == Some(items@.map_values(|e: JsonEntry| e@)),
                    forall|j: int| 0 <= j < i ==> (#[trigger] doc@->0[j]) is Some,
            {
                match &items[i] {
                    JsonEntry::Text(_) => {},
                    JsonEntry::Other => {
                        assert(doc@->0[i as int] is None);
                        return false;
                    },
                }
            }
            true
        },
        JsonDocument::Other => false,
    }
}

} // verus!
