use vstd::prelude::*;
use crate::config::field_name;
use crate::layer::{Layer, LayerModel, NUM_FIELDS, empty_layer};
use crate::value::{Value, ValueModel, opt_view};
use crate::value::ValueKind::{
    Array, ArrayOfTables, Boolean, Datetime, Float, InlineTable, Table,
};

verus! {

/// What the TOML decoder gives for the top-level key `key` of the document
/// `text`: `None` when `text` is not a TOML document, otherwise the value stored
/// under `key`, if there is one.
pub uninterp spec fn toml_lookup(text: Seq<char>, key: Seq<char>) -> Option<Option<ValueModel>>;

/// Relies on toml_edit: `DocumentMut::from_str` decodes the text, `Table::get`
/// finds the top-level key, `Item::as_integer` and `Item::as_str` read an
/// integer or a string, and the `Item::is_*` predicates tell the other kinds
/// of value apart. An empty text decodes to an empty table.
#[verifier::external_body]
fn toml_value(text: &str, key: &str) -> (r: Result<Option<Value>, String>)
    ensures
        r is Err <==> toml_lookup(text@, key@) is None,
        r matches Ok(v) ==> toml_lookup(text@, key@) == Some(opt_view(v)),
        text@.len() == 0 ==> r matches Ok(None),
{
    let doc = text.parse::<toml_edit::DocumentMut>().map_err(|e| e.to_string())?;
    match doc.get(key) {
        None => Ok(None),
        Some(i) => Ok(Some(match (i.as_integer(), i.as_str()) {
            (Some(n), _) => Value::Integer(n),
            (_, Some(s)) => Value::Text(s.to_string()),
            _ => Value::Other(
                if i.is_float() { Float } else if i.is_bool() { Boolean }
                else if i.is_datetime() { Datetime } else if i.is_array() { Array }
                else if i.is_inline_table() { InlineTable } else if i.is_table() { Table }
                else { ArrayOfTables },
            ),
        })),
    }
}

/// The text is a TOML document.
pub open spec fn toml_decodes(text: Seq<char>) -> bool {
    forall|i: int| 0 <= i < NUM_FIELDS ==> (#[trigger] toml_lookup(text, field_name(i))) is Some
}

/// The layer that the TOML document `text` defines: each schema field set to
/// the value stored under its name.
pub open spec fn toml_layer(text: Seq<char>) -> LayerModel {
    Seq::new(NUM_FIELDS as nat, |i: int| toml_lookup(text, field_name(i))->0)
}

/// Decodes the TOML document `text` into a layer; keys that are not schema
/// fields are ignored. On failure the error holds the decoder's message.
pub fn parse_layer(text: &str) -> (r: Result<Layer, String>)
    ensures
        r is Ok <==> toml_decodes(text@),
        r matches Ok(l) ==> l.wf() && l@ == toml_layer(text@),
        text@.len() == 0 ==> (r matches Ok(l) && l@ == empty_layer()),
{
    let mut values: Vec<Option<Value>> = Vec::new();
    let mut i: usize = 0;
    while i < NUM_FIELDS
        invariant
            i <= NUM_FIELDS,
            values@.len() == i,
            forall|j: int| 0 <= j < i ==> (#[trigger] toml_lookup(text@, field_name(j))) is Some,
            forall|j: int|
                0 <= j < i ==> opt_view(#[trigger] values@[j]) == toml_lookup(
                    text@,
                    field_name(j),
                )->0,
            text@.len() == 0 ==> forall|j: int| 0 <= j < i ==> (#[trigger] values@[j]) is None,
        decreases NUM_FIELDS - i,
    {
        match toml_value(text, crate::config::field_name_at(i)) {
            Err(message) => {
                return Err(message);
            },
            Ok(v) => {
                values.push(v);
            },
        }
        i = i + 1;
    }
    let l = Layer { values };
    assert(l@ =~= toml_layer(text@));
    proof {
        if text@.len() == 0 {
            assert(l@ =~= empty_layer());
        }
    }
    Ok(l)
}

} // verus!
