//! The library's model of a JSON request body — an ordered list of keys and
//! [`FieldValue`]s — and its bridge to `serde_json`.
//!
//! Body construction (which keys appear for which arguments) is the library's
//! own verified logic, stated over [`JsonVal`]; only the final step, turning a
//! field value into a `serde_json::Value` for the transport to send, goes
//! through trusted wrappers around `serde_json`'s constructors.

use vstd::prelude::*;

use crate::models::Attachment;

verus! {

/// Mathematical model of one JSON value that can appear in a request body:
/// a string, a number, a boolean, an array of strings, or an attachment
/// object.
pub ghost enum JsonVal {
    Text(Seq<char>),
    Number(int),
    Flag(bool),
    TextList(Seq<Seq<char>>),
    File {
        file_name: Seq<char>,
        file_type: Seq<char>,
        file_url: Seq<char>,
        resource_type: Seq<char>,
    },
}

/// One JSON value of a request body. The create/update argument structures
/// only ever send strings, numbers, booleans, string arrays and attachment
/// objects, so those are the only shapes.
#[derive(Debug, Clone, PartialEq)]
pub enum FieldValue {
    Text(String),
    Number(i32),
    Flag(bool),
    TextList(Vec<String>),
    File(Attachment),
}

impl View for FieldValue {
    type V = JsonVal;

    open spec fn view(&self) -> JsonVal {
        match self {
            FieldValue::Text(s) => JsonVal::Text(s@),
            FieldValue::Number(n) => JsonVal::Number(*n as int),
            FieldValue::Flag(b) => JsonVal::Flag(*b),
            FieldValue::TextList(items) => JsonVal::TextList(items.deep_view()),
            FieldValue::File(a) => JsonVal::File {
                file_name: a.file_name@,
                file_type: a.file_type@,
                file_url: a.file_url@,
                resource_type: a.resource_type@,
            },
        }
    }
}

impl DeepView for FieldValue {
    type V = JsonVal;

    open spec fn deep_view(&self) -> JsonVal {
        self.view()
    }
}

/// One body: keys in the order they are sent, each with its value.
pub type BodyFields = Vec<(String, FieldValue)>;

/// The model of one body.
pub type BodyFieldsSpec = Seq<(Seq<char>, JsonVal)>;

/// Declares `serde_json::Value` so it can stand in signatures. The value is
/// opaque: everything known about one is said by the trusted wrappers below.
#[verifier::external_type_specification]
#[verifier::external_body]
pub struct ExSerdeJsonValue(serde_json::Value);

/// The `serde_json::Value` holding the given text as a JSON string.
pub uninterp spec fn json_text_of(s: Seq<char>) -> serde_json::Value;

/// The `serde_json::Value` holding the given integer as a JSON number.
pub uninterp spec fn json_number_of(n: int) -> serde_json::Value;

/// The `serde_json::Value` holding the given boolean.
pub uninterp spec fn json_flag_of(b: bool) -> serde_json::Value;

/// The `serde_json::Value` holding the given values as a JSON array.
pub uninterp spec fn json_array_of(items: Seq<serde_json::Value>) -> serde_json::Value;

/// The `serde_json::Value` holding the given keys and values as a JSON object.
pub uninterp spec fn json_object_of(entries: Seq<(Seq<char>, serde_json::Value)>) -> serde_json::Value;

/// Relies on serde_json::Value::String: the JSON string value of this text.
#[verifier::external_body]
fn json_text(s: &str) -> (v: serde_json::Value)
    ensures
        v == json_text_of(s@),
{
    serde_json::Value::String(s.to_owned())
}

/// Relies on serde_json::Value::from for i32: the JSON number value of this
/// integer.
#[verifier::external_body]
fn json_number(n: i32) -> (v: serde_json::Value)
    ensures
        v == json_number_of(n as int),
{
    serde_json::Value::from(n)
}

/// Relies on serde_json::Value::Bool: the JSON boolean value.
#[verifier::external_body]
fn json_flag(b: bool) -> (v: serde_json::Value)
    ensures
        v == json_flag_of(b),
{
    serde_json::Value::Bool(b)
}

/// Relies on serde_json::Value::Array: the JSON array of these values, in
/// order.
#[verifier::external_body]
fn json_array(items: Vec<serde_json::Value>) -> (v: serde_json::Value)
    ensures
        v == json_array_of(items@),
{
    serde_json::Value::Array(items)
}

/// The keys and values of an entry list, as the object model sees them.
pub open spec fn entries_view(entries: Seq<(String, serde_json::Value)>) -> Seq<
    (Seq<char>, serde_json::Value),
> {
    entries.map_values(|p: (String, serde_json::Value)| (p.0@, p.1))
}

/// Relies on serde_json::Map::from_iter and serde_json::Value::Object: the
/// JSON object with these keys and values.
#[verifier::external_body]
fn json_object(entries: Vec<(String, serde_json::Value)>) -> (v: serde_json::Value)
    ensures
        v == json_object_of(entries_view(entries@)),
{
    serde_json::Value::Object(entries.into_iter().collect())
}

/// The `serde_json::Value` for one modelled body value.
pub open spec fn spec_json_of(v: JsonVal) -> serde_json::Value {
    match v {
        JsonVal::Text(s) => json_text_of(s),
        JsonVal::Number(n) => json_number_of(n),
        JsonVal::Flag(b) => json_flag_of(b),
        JsonVal::TextList(items) => json_array_of(
            items.map_values(|s: Seq<char>| json_text_of(s)),
        ),
        JsonVal::File { file_name, file_type, file_url, resource_type } => json_object_of(
            seq![
                ("file_name"@, json_text_of(file_name)),
                ("file_type"@, json_text_of(file_type)),
                ("file_url"@, json_text_of(file_url)),
                ("resource_type"@, json_text_of(resource_type)),
            ],
        ),
    }
}

/// The `serde_json::Value` for a whole modelled body.
pub open spec fn spec_body_json(fields: BodyFieldsSpec) -> serde_json::Value {
    json_object_of(fields.map_values(|p: (Seq<char>, JsonVal)| (p.0, spec_json_of(p.1))))
}

fn field_to_json(v: &FieldValue) -> (r: serde_json::Value)
    ensures
        r == spec_json_of(v@),
{
    match v {
        FieldValue::Text(s) => json_text(s.as_str()),
        FieldValue::Number(n) => json_number(*n),
        FieldValue::Flag(b) => json_flag(*b),
        FieldValue::TextList(items) => {
            let mut vals: Vec<serde_json::Value> = Vec::new();
            let n = items.len();
            let mut i: usize = 0;
            while i < n
                invariant
                    n == items@.len(),
                    0 <= i <= n,
                    vals@.len() == i,
                    forall|k: int| 0 <= k < i ==> vals@[k] == json_text_of(items@[k]@),
                decreases n - i,
            {
                let item = json_text(items[i].as_str());
                vals.push(item);
                i = i + 1;
            }
            assert(vals@ =~= items.deep_view().map_values(|s: Seq<char>| json_text_of(s)));
            json_array(vals)
        },
        FieldValue::File(a) => {
            let mut entries: Vec<(String, serde_json::Value)> = Vec::new();
            let name_value = json_text(a.file_name.as_str());
            entries.push(("file_name".to_owned(), name_value));
            let type_value = json_text(a.file_type.as_str());
            entries.push(("file_type".to_owned(), type_value));
            let url_value = json_text(a.file_url.as_str());
            entries.push(("file_url".to_owned(), url_value));
            let resource_value = json_text(a.resource_type.as_str());
            entries.push(("resource_type".to_owned(), resource_value));
            assert(entries_view(entries@) =~= seq![
                ("file_name"@, json_text_of(a.file_name@)),
                ("file_type"@, json_text_of(a.file_type@)),
                ("file_url"@, json_text_of(a.file_url@)),
                ("resource_type"@, json_text_of(a.resource_type@)),
            ]);
            json_object(entries)
        },
    }
}

/// Turn a modelled body into the `serde_json::Value` that is sent on the wire:
/// the JSON object whose entries are exactly the body's fields, in order.
pub fn body_to_json(fields: &BodyFields) -> (r: serde_json::Value)
    ensures
        r == spec_body_json(fields.deep_view()),
{
    let mut entries: Vec<(String, serde_json::Value)> = Vec::new();
    let n = fields.len();
    let mut i: usize = 0;
    while i < n
        invariant
            n == fields@.len(),
            0 <= i <= n,
            entries@.len() == i,
            forall|k: int|
                0 <= k < i ==> #[trigger] entries@[k].0@ == fields@[k].0@ && entries@[k].1
                    == spec_json_of(fields@[k].1@),
        decreases n - i,
    {
        let pair = &fields[i];
        let value = field_to_json(&pair.1);
        entries.push((pair.0.clone(), value));
        i = i + 1;
    }
    assert(entries_view(entries@) =~= fields.deep_view().map_values(
        |p: (Seq<char>, JsonVal)| (p.0, spec_json_of(p.1)),
    ));
    json_object(entries)
}

} // verus!
