//! The value bridge: document values to script values and back.

use crate::document::{entries_model, DocumentModel, DocumentValue};
use crate::error::{Error, ErrorModel};
use crate::script::{ObjectClass, ObjectClassModel, ScriptModel, ScriptValue};
use vstd::prelude::*;
use vstd::string::StringExecFns;

verus! {

/// The message for a code value, which has no script counterpart.
pub const CODE_UNSUPPORTED: &'static str = "code values cannot be converted to script values";

/// The message for a typed byte array, which has no document counterpart here.
pub const BYTES_UNSUPPORTED: &'static str =
    "byte arrays cannot be converted to document values";

/// The bit pattern of the double nearest to a 64-bit integer, as the engine picks it.
pub uninterp spec fn nearest_double_bits(value: i64) -> u64;

/// The script number for a 64-bit integer: an integer where 32 bits hold it, else a float.
pub open spec fn number_model(value: i64) -> ScriptModel {
    if i32::MIN <= value <= i32::MAX {
        ScriptModel::Integer(value as i32)
    } else {
        ScriptModel::Float(nearest_double_bits(value))
    }
}

/// A regular expression as text: the pattern between slashes, then the options.
pub open spec fn regex_rendering(pattern: Seq<char>, options: Seq<char>) -> Seq<char> {
    seq!['/'] + pattern + seq!['/'] + options
}

/// No code value stands in the value or, at any depth, among the items of its arrays and
/// the values of its documents.
pub open spec fn script_convertible(d: DocumentModel) -> bool
    decreases d,
{
    match d {
        DocumentModel::JavaScriptCode(_) => false,
        DocumentModel::JavaScriptCodeWithScope { .. } => false,
        DocumentModel::Array(items) => forall|i: int|
            0 <= i < items.len() ==> script_convertible(#[trigger] items[i]),
        DocumentModel::Document(entries) => forall|i: int|
            0 <= i < entries.len() ==> script_convertible((#[trigger] entries[i]).1),
        _ => true,
    }
}

/// The script value for a convertible document value.
pub open spec fn script_of(d: DocumentModel) -> ScriptModel
    decreases d,
{
    match d {
        DocumentModel::Null => ScriptModel::Null,
        DocumentModel::MinKey => ScriptModel::Null,
        DocumentModel::MaxKey => ScriptModel::Null,
        DocumentModel::DbPointer => ScriptModel::Null,
        DocumentModel::Undefined => ScriptModel::Undefined,
        DocumentModel::Boolean(b) => ScriptModel::Boolean(b),
        DocumentModel::Int32(i) => ScriptModel::Integer(i),
        DocumentModel::Int64(i) => number_model(i),
        DocumentModel::Double(bits) => ScriptModel::Float(bits),
        DocumentModel::String(s) => ScriptModel::String(s),
        DocumentModel::Symbol(s) => ScriptModel::String(s),
        DocumentModel::Decimal128(s) => ScriptModel::String(s),
        DocumentModel::RegularExpression { pattern, options } => ScriptModel::String(
            regex_rendering(pattern, options),
        ),
        DocumentModel::Array(items) => ScriptModel::Array(
            Seq::new(
                items.len(),
                |i: int|
                    if 0 <= i < items.len() {
                        script_of(items[i])
                    } else {
                        ScriptModel::Null
                    },
            ),
        ),
        DocumentModel::Document(entries) => ScriptModel::Object {
            class: ObjectClassModel::Plain,
            entries: Seq::new(
                entries.len(),
                |i: int|
                    if 0 <= i < entries.len() {
                        (entries[i].0, script_of(entries[i].1))
                    } else {
                        (Seq::empty(), ScriptModel::Null)
                    },
            ),
        },
        DocumentModel::Binary { subtype, bytes } => ScriptModel::Bytes(bytes),
        DocumentModel::ObjectId(bytes) => ScriptModel::DocumentId(bytes),
        DocumentModel::DateTime(millis) => ScriptModel::Date(millis),
        DocumentModel::Timestamp { time, increment } => ScriptModel::Date((time as int * 1000) as i64),
        DocumentModel::JavaScriptCode(_) => ScriptModel::Undefined,
        DocumentModel::JavaScriptCodeWithScope { .. } => ScriptModel::Undefined,
    }
}

/// Document value to script value: total but for code values.
pub open spec fn to_script(d: DocumentModel) -> Result<ScriptModel, ErrorModel> {
    if script_convertible(d) {
        Ok(script_of(d))
    } else {
        Err(ErrorModel::ConversionError(CODE_UNSUPPORTED@))
    }
}

/// No typed byte array stands in the value or, at any depth, among the items of its arrays
/// and the values of its objects.
pub open spec fn document_convertible(s: ScriptModel) -> bool
    decreases s,
{
    match s {
        ScriptModel::Bytes(_) => false,
        ScriptModel::Array(items) => forall|i: int|
            0 <= i < items.len() ==> document_convertible(#[trigger] items[i]),
        ScriptModel::Object { class, entries } => forall|i: int|
            0 <= i < entries.len() ==> document_convertible((#[trigger] entries[i]).1),
        _ => true,
    }
}

/// The document value for a convertible script value.
pub open spec fn document_of(s: ScriptModel) -> DocumentModel
    decreases s,
{
    match s {
        ScriptModel::Null => DocumentModel::Null,
        ScriptModel::Undefined => DocumentModel::Undefined,
        ScriptModel::String(text) => DocumentModel::String(text),
        ScriptModel::Integer(i) => DocumentModel::Int32(i),
        ScriptModel::Boolean(b) => DocumentModel::Boolean(b),
        ScriptModel::Float(bits) => DocumentModel::Double(bits),
        ScriptModel::BigInteger(i) => DocumentModel::Int64(i),
        ScriptModel::Symbol(text) => DocumentModel::Symbol(text),
        ScriptModel::Array(items) => DocumentModel::Array(
            Seq::new(
                items.len(),
                |i: int|
                    if 0 <= i < items.len() {
                        document_of(items[i])
                    } else {
                        DocumentModel::Null
                    },
            ),
        ),
        ScriptModel::Date(millis) => DocumentModel::DateTime(millis),
        ScriptModel::DocumentId(bytes) => DocumentModel::ObjectId(bytes),
        ScriptModel::Object { class, entries } => DocumentModel::Document(
            Seq::new(
                entries.len(),
                |i: int|
                    if 0 <= i < entries.len() {
                        (entries[i].0, document_of(entries[i].1))
                    } else {
                        (Seq::empty(), DocumentModel::Null)
                    },
            ),
        ),
        ScriptModel::Bytes(_) => DocumentModel::Null,
    }
}

/// Script value to document value: total but for typed byte arrays.
pub open spec fn to_document(s: ScriptModel) -> Result<DocumentModel, ErrorModel> {
    if document_convertible(s) {
        Ok(document_of(s))
    } else {
        Err(ErrorModel::ConversionError(BYTES_UNSUPPORTED@))
    }
}

/// Calls the engine's `JsValue::from` for `i64`, which gives `Integer` where `i32` holds the
/// value and `Rational` of the value cast to a double otherwise. The double is handed out
/// by its bits.
#[verifier::external_body]
fn script_number(value: i64) -> (number: ScriptValue)
    ensures
        i32::MIN <= value <= i32::MAX ==> number@ == ScriptModel::Integer(value as i32),
        !(i32::MIN <= value <= i32::MAX) ==> number@ == ScriptModel::Float(
            nearest_double_bits(value),
        ),
{
    match boa_engine::JsValue::from(value) {
        boa_engine::JsValue::Integer(i) => ScriptValue::Integer(i),
        boa_engine::JsValue::Rational(d) => ScriptValue::Float(d.to_bits()),
        _ => ScriptValue::Undefined,
    }
}

/// Calls `to_string` on a `Regex` of the driver's document crate, whose `Display` writes a
/// slash, the pattern, a slash and the options.
#[verifier::external_body]
fn regex_text(pattern: &str, options: &str) -> (text: String)
    ensures
        text@ == regex_rendering(pattern@, options@),
{
    mongodb::bson::Regex { pattern: pattern.to_owned(), options: options.to_owned() }.to_string()
}

/// A copy of the bytes.
fn copy_bytes(bytes: &Vec<u8>) -> (copy: Vec<u8>)
    ensures
        copy@ == bytes@,
{
    let mut copy: Vec<u8> = Vec::new();
    let mut i: usize = 0;
    while i < bytes.len()
        invariant
            i <= bytes.len(),
            copy@ == bytes@.take(i as int),
        decreases bytes.len() - i,
    {
        copy.push(bytes[i]);
        assert(bytes@.take(i + 1) =~= bytes@.take(i as int).push(bytes@[i as int]));
        i += 1;
    }
    assert(bytes@.take(bytes.len() as int) =~= bytes@);
    copy
}

/// Converts a document value to the script value that stands for it.
///
/// Null and the key sentinels and pointers become null; numbers stay numbers; text,
/// symbols, decimals and regular expressions become strings; arrays and documents are
/// converted item by item in order; binary data becomes a byte array, an identifier a
/// document id, an instant or timestamp a date. A code value anywhere inside fails.
pub fn bson_to_js(bson_doc: &DocumentValue) -> (result: Result<ScriptValue, Error>)
    ensures
        match result {
            Ok(value) => to_script(bson_doc@) == Ok::<ScriptModel, ErrorModel>(value@),
            Err(error) => to_script(bson_doc@) == Err::<ScriptModel, ErrorModel>(error@),
        },
    decreases bson_doc,
{
    match bson_doc {
        DocumentValue::String(s) => Ok(ScriptValue::String(s.clone())),
        DocumentValue::Int32(i) => Ok(ScriptValue::Integer(*i)),
        DocumentValue::Int64(i) => Ok(script_number(*i)),
        DocumentValue::Double(bits) => Ok(ScriptValue::Float(*bits)),
        DocumentValue::Array(items) => {
            match items_to_js(items) {
                Ok(converted) => {
                    let value = ScriptValue::Array(converted);
                    proof {
                        let source = bson_doc@->Array_0;
                        assert(source.len() == items.len());
                        assert forall|k: int| 0 <= k < items.len() implies script_convertible(
                            #[trigger] source[k],
                        ) && value@->Array_0[k] == script_of(source[k]) by {
                            assert(script_convertible(items@[k]@));
                            assert(source[k] == items@[k]@);
                        }
                        assert(value@->Array_0 =~= script_of(bson_doc@)->Array_0);
                    }
                    Ok(value)
                },
                Err(error) => {
                    proof {
                        let k = choose|k: int|
                            0 <= k < items.len() && !script_convertible(items@[k]@);
                        assert(bson_doc@->Array_0[k] == items@[k]@);
                    }
                    Err(error)
                },
            }
        },
        DocumentValue::Document(entries) => {
            match entries_to_js(entries) {
                Ok(converted) => {
                    let value = ScriptValue::Object { class: ObjectClass::Plain, entries: converted };
                    proof {
                        let source = bson_doc@->Document_0;
                        assert(source.len() == entries.len());
                        assert forall|k: int| 0 <= k < entries.len() implies script_convertible(
                            (#[trigger] source[k]).1,
                        ) && value@->Object_entries[k] == (
                            source[k].0,
                            script_of(source[k].1),
                        ) by {
                            assert(script_convertible(entries@[k].1@));
                            assert(source[k] == (entries@[k].0@, entries@[k].1@));
                        }
                        assert(value@->Object_entries =~= script_of(bson_doc@)->Object_entries);
                    }
                    Ok(value)
                },
                Err(error) => {
                    proof {
                        let k = choose|k: int|
                            0 <= k < entries.len() && !script_convertible(entries@[k].1@);
                        assert(bson_doc@->Document_0[k] == (entries@[k].0@, entries@[k].1@));
                    }
                    Err(error)
                },
            }
        },
        DocumentValue::Boolean(b) => Ok(ScriptValue::Boolean(*b)),
        DocumentValue::Null => Ok(ScriptValue::Null),
        DocumentValue::RegularExpression { pattern, options } => Ok(
            ScriptValue::String(regex_text(pattern.as_str(), options.as_str())),
        ),
        DocumentValue::JavaScriptCode(_) => Err(
            Error::ConversionError(String::from_str(CODE_UNSUPPORTED)),
        ),
        DocumentValue::JavaScriptCodeWithScope { .. } => Err(
            Error::ConversionError(String::from_str(CODE_UNSUPPORTED)),
        ),
        DocumentValue::Timestamp { time, increment } => Ok(ScriptValue::Date(*time as i64 * 1000)),
        DocumentValue::Binary { subtype, bytes } => Ok(ScriptValue::Bytes(copy_bytes(bytes))),
        DocumentValue::ObjectId(bytes) => Ok(ScriptValue::DocumentId(*bytes)),
        DocumentValue::DateTime(millis) => Ok(ScriptValue::Date(*millis)),
        DocumentValue::Symbol(s) => Ok(ScriptValue::String(s.clone())),
        DocumentValue::Decimal128(s) => Ok(ScriptValue::String(s.clone())),
        DocumentValue::Undefined => Ok(ScriptValue::Undefined),
        DocumentValue::MaxKey => Ok(ScriptValue::Null),
        DocumentValue::MinKey => Ok(ScriptValue::Null),
        DocumentValue::DbPointer => Ok(ScriptValue::Null),
    }
}

/// Converts a whole document, given by its entries, to the plain object that stands for it.
pub fn document_to_js(entries: &Vec<(String, DocumentValue)>) -> (result: Result<
    ScriptValue,
    Error,
>)
    ensures
        match result {
            Ok(value) => to_script(DocumentModel::Document(entries_model(entries@))) == Ok::<
                ScriptModel,
                ErrorModel,
            >(value@),
            Err(error) => to_script(DocumentModel::Document(entries_model(entries@))) == Err::<
                ScriptModel,
                ErrorModel,
            >(error@),
        },
{
    let ghost source = entries_model(entries@);
    match entries_to_js(entries) {
        Ok(converted) => {
            let value = ScriptValue::Object { class: ObjectClass::Plain, entries: converted };
            proof {
                assert forall|k: int| 0 <= k < entries.len() implies script_convertible(
                    (#[trigger] source[k]).1,
                ) && value@->Object_entries[k] == (source[k].0, script_of(source[k].1)) by {
                    assert(script_convertible(entries@[k].1@));
                }
                assert(value@->Object_entries =~= script_of(
                    DocumentModel::Document(source),
                )->Object_entries);
            }
            Ok(value)
        },
        Err(error) => {
            proof {
                let k = choose|k: int|
                    0 <= k < entries.len() && !script_convertible(entries@[k].1@);
                assert(source[k] == (entries@[k].0@, entries@[k].1@));
            }
            Err(error)
        },
    }
}

/// Converts the items of an array in order; fails at the first that cannot be converted.
fn items_to_js(items: &Vec<DocumentValue>) -> (result: Result<Vec<ScriptValue>, Error>)
    ensures
        match result {
            Ok(converted) => {
                &&& converted.len() == items.len()
                &&& forall|i: int|
                    0 <= i < items.len() ==> script_convertible(#[trigger] items@[i]@)
                        && converted@[i]@ == script_of(items@[i]@)
            },
            Err(error) => {
                &&& exists|i: int| 0 <= i < items.len() && !script_convertible(items@[i]@)
                &&& error@ == ErrorModel::ConversionError(CODE_UNSUPPORTED@)
            },
        },
    decreases items,
{
    let mut converted: Vec<ScriptValue> = Vec::new();
    let mut i: usize = 0;
    while i < items.len()
        invariant
            i <= items.len(),
            converted.len() == i,
            forall|j: int|
                0 <= j < i ==> script_convertible(#[trigger] items@[j]@) && converted@[j]@
                    == script_of(items@[j]@),
        decreases items.len() - i,
    {
        assert(decreases_to!(*items => items[i as int]));
        match bson_to_js(&items[i]) {
            Ok(value) => converted.push(value),
            Err(error) => {
                assert(!script_convertible(items@[i as int]@));
                return Err(error);
            },
        }
        i += 1;
    }
    Ok(converted)
}

/// Converts the values of a document in order, keeping each key; fails at the first value
/// that cannot be converted.
fn entries_to_js(entries: &Vec<(String, DocumentValue)>) -> (result: Result<
    Vec<(String, ScriptValue)>,
    Error,
>)
    ensures
        match result {
            Ok(converted) => {
                &&& converted.len() == entries.len()
                &&& forall|i: int|
                    0 <= i < entries.len() ==> script_convertible((#[trigger] entries@[i]).1@)
                        && converted@[i].0@ == entries@[i].0@ && converted@[i].1@ == script_of(
                        entries@[i].1@,
                    )
            },
            Err(error) => {
                &&& exists|i: int| 0 <= i < entries.len() && !script_convertible(entries@[i].1@)
                &&& error@ == ErrorModel::ConversionError(CODE_UNSUPPORTED@)
            },
        },
    decreases entries,
{
    let mut converted: Vec<(String, ScriptValue)> = Vec::new();
    let mut i: usize = 0;
    while i < entries.len()
        invariant
            i <= entries.len(),
            converted.len() == i,
            forall|j: int|
                0 <= j < i ==> script_convertible((#[trigger] entries@[j]).1@) && converted@[j].0@
                    == entries@[j].0@ && converted@[j].1@ == script_of(entries@[j].1@),
        decreases entries.len() - i,
    {
        assert(decreases_to!(*entries => entries[i as int]));
        assert(decreases_to!(entries[i as int] => entries[i as int].1));
        match bson_to_js(&entries[i].1) {
            Ok(value) => converted.push((entries[i].0.clone(), value)),
            Err(error) => {
                assert(!script_convertible(entries@[i as int].1@));
                return Err(error);
            },
        }
        i += 1;
    }
    Ok(converted)
}

/// Converts a script value to the document value that stands for it.
///
/// Null, undefined, booleans, numbers, strings and symbols map to the variant of the same
/// kind, a big integer to a 64-bit integer; arrays are converted item by item and objects
/// key by key, in order; a date becomes an instant and a document id an identifier. A
/// typed byte array anywhere inside fails.
pub fn js_to_bson(js_value: &ScriptValue) -> (result: Result<DocumentValue, Error>)
    ensures
        match result {
            Ok(value) => to_document(js_value@) == Ok::<DocumentModel, ErrorModel>(value@),
            Err(error) => to_document(js_value@) == Err::<DocumentModel, ErrorModel>(error@),
        },
    decreases js_value,
{
    match js_value {
        ScriptValue::Null => Ok(DocumentValue::Null),
        ScriptValue::Undefined => Ok(DocumentValue::Undefined),
        ScriptValue::String(s) => Ok(DocumentValue::String(s.clone())),
        ScriptValue::Integer(n) => Ok(DocumentValue::Int32(*n)),
        ScriptValue::Boolean(b) => Ok(DocumentValue::Boolean(*b)),
        ScriptValue::Float(bits) => Ok(DocumentValue::Double(*bits)),
        ScriptValue::BigInteger(v) => Ok(DocumentValue::Int64(*v)),
        ScriptValue::Array(items) => {
            match items_to_bson(items) {
                Ok(converted) => {
                    let value = DocumentValue::Array(converted);
                    proof {
                        let source = js_value@->Array_0;
                        assert(source.len() == items.len());
                        assert forall|k: int| 0 <= k < items.len() implies document_convertible(
                            #[trigger] source[k],
                        ) && value@->Array_0[k] == document_of(source[k]) by {
                            assert(document_convertible(items@[k]@));
                            assert(source[k] == items@[k]@);
                        }
                        assert(value@->Array_0 =~= document_of(js_value@)->Array_0);
                    }
                    Ok(value)
                },
                Err(error) => {
                    proof {
                        let k = choose|k: int|
                            0 <= k < items.len() && !document_convertible(items@[k]@);
                        assert(js_value@->Array_0[k] == items@[k]@);
                    }
                    Err(error)
                },
            }
        },
        ScriptValue::Date(millis) => Ok(DocumentValue::DateTime(*millis)),
        ScriptValue::Bytes(_) => Err(Error::ConversionError(String::from_str(BYTES_UNSUPPORTED))),
        ScriptValue::DocumentId(bytes) => Ok(DocumentValue::ObjectId(*bytes)),
        ScriptValue::Object { class, entries } => {
            match entries_to_bson(entries) {
                Ok(converted) => {
                    let value = DocumentValue::Document(converted);
                    proof {
                        let source = js_value@->Object_entries;
                        assert(source.len() == entries.len());
                        assert forall|k: int|
                            0 <= k < entries.len() implies document_convertible(
                            (#[trigger] source[k]).1,
                        ) && value@->Document_0[k] == (source[k].0, document_of(source[k].1)) by {
                            assert(document_convertible(entries@[k].1@));
                            assert(source[k] == (entries@[k].0@, entries@[k].1@));
                        }
                        assert(value@->Document_0 =~= document_of(js_value@)->Document_0);
                    }
                    Ok(value)
                },
                Err(error) => {
                    proof {
                        let k = choose|k: int|
                            0 <= k < entries.len() && !document_convertible(entries@[k].1@);
                        assert(js_value@->Object_entries[k] == (entries@[k].0@, entries@[k].1@));
                    }
                    Err(error)
                },
            }
        },
        ScriptValue::Symbol(s) => Ok(DocumentValue::Symbol(s.clone())),
    }
}

/// Converts the items of an array in order; fails at the first that cannot be converted.
fn items_to_bson(items: &Vec<ScriptValue>) -> (result: Result<Vec<DocumentValue>, Error>)
    ensures
        match result {
            Ok(converted) => {
                &&& converted.len() == items.len()
                &&& forall|i: int|
                    0 <= i < items.len() ==> document_convertible(#[trigger] items@[i]@)
                        && converted@[i]@ == document_of(items@[i]@)
            },
            Err(error) => {
                &&& exists|i: int| 0 <= i < items.len() && !document_convertible(items@[i]@)
                &&& error@ == ErrorModel::ConversionError(BYTES_UNSUPPORTED@)
            },
        },
    decreases items,
{
    let mut converted: Vec<DocumentValue> = Vec::new();
    let mut i: usize = 0;
    while i < items.len()
        invariant
            i <= items.len(),
            converted.len() == i,
            forall|j: int|
                0 <= j < i ==> document_convertible(#[trigger] items@[j]@) && converted@[j]@
                    == document_of(items@[j]@),
        decreases items.len() - i,
    {
        assert(decreases_to!(*items => items[i as int]));
        match js_to_bson(&items[i]) {
            Ok(value) => converted.push(value),
            Err(error) => {
                assert(!document_convertible(items@[i as int]@));
                return Err(error);
            },
        }
        i += 1;
    }
    Ok(converted)
}

/// Converts the values of an object in order, keeping each key; fails at the first value
/// that cannot be converted.
fn entries_to_bson(entries: &Vec<(String, ScriptValue)>) -> (result: Result<
    Vec<(String, DocumentValue)>,
    Error,
>)
    ensures
        match result {
            Ok(converted) => {
                &&& converted.len() == entries.len()
                &&& forall|i: int|
                    0 <= i < entries.len() ==> document_convertible((#[trigger] entries@[i]).1@)
                        && converted@[i].0@ == entries@[i].0@ && converted@[i].1@ == document_of(
                        entries@[i].1@,
                    )
            },
            Err(error) => {
                &&& exists|i: int|
                    0 <= i < entries.len() && !document_convertible(entries@[i].1@)
                &&& error@ == ErrorModel::ConversionError(BYTES_UNSUPPORTED@)
            },
        },
    decreases entries,
{
    let mut converted: Vec<(String, DocumentValue)> = Vec::new();
    let mut i: usize = 0;
    while i < entries.len()
        invariant
            i <= entries.len(),
            converted.len() == i,
            forall|j: int|
                0 <= j < i ==> document_convertible((#[trigger] entries@[j]).1@)
                    && converted@[j].0@ == entries@[j].0@ && converted@[j].1@ == document_of(
                    entries@[j].1@,
                ),
        decreases entries.len() - i,
    {
        assert(decreases_to!(*entries => entries[i as int]));
        assert(decreases_to!(entries[i as int] => entries[i as int].1));
        match js_to_bson(&entries[i].1) {
            Ok(value) => converted.push((entries[i].0.clone(), value)),
            Err(error) => {
                assert(!document_convertible(entries@[i as int].1@));
                return Err(error);
            },
        }
        i += 1;
    }
    Ok(converted)
}

/// The document values that survive the way to a script and back: null, booleans, 32-bit
/// integers, doubles, strings, identifiers, instants, and arrays and documents of such.
pub open spec fn representable(d: DocumentModel) -> bool
    decreases d,
{
    match d {
        DocumentModel::Null => true,
        DocumentModel::Boolean(_) => true,
        DocumentModel::Int32(_) => true,
        DocumentModel::Double(_) => true,
        DocumentModel::String(_) => true,
        DocumentModel::ObjectId(_) => true,
        DocumentModel::DateTime(_) => true,
        DocumentModel::Array(items) => forall|i: int|
            0 <= i < items.len() ==> representable(#[trigger] items[i]),
        DocumentModel::Document(entries) => forall|i: int|
            0 <= i < entries.len() ==> representable((#[trigger] entries[i]).1),
        _ => false,
    }
}

/// Round trip: a representable document value converts to a script value, and that script
/// value converts back to the very same document value.
pub proof fn lemma_round_trip(d: DocumentModel)
    requires
        representable(d),
    ensures
        to_script(d) is Ok,
        to_document(to_script(d)->Ok_0) == Ok::<DocumentModel, ErrorModel>(d),
    decreases d,
{
    match d {
        DocumentModel::Array(items) => {
            let converted = script_of(d)->Array_0;
            assert forall|i: int| 0 <= i < items.len() implies script_convertible(
                #[trigger] items[i],
            ) && document_convertible(converted[i]) && document_of(converted[i]) == items[i] by {
                lemma_round_trip(items[i]);
            }
            assert(document_of(script_of(d))->Array_0 =~= items);
        },
        DocumentModel::Document(entries) => {
            let converted = script_of(d)->Object_entries;
            assert forall|i: int| 0 <= i < entries.len() implies script_convertible(
                (#[trigger] entries[i]).1,
            ) && document_convertible(converted[i].1) && document_of(converted[i].1)
                == entries[i].1 by {
                lemma_round_trip(entries[i].1);
            }
            assert(document_of(script_of(d))->Document_0 =~= entries);
        },
        _ => {},
    }
}

/// Lossy but stable: a symbol, a decimal, a regular expression or a timestamp becomes a
/// string or a date, and converting that string or date back never fails.
pub proof fn lemma_lossy_values_convert_back(d: DocumentModel)
    requires
        d is Symbol || d is Decimal128 || d is RegularExpression || d is Timestamp,
    ensures
        to_script(d) is Ok,
        to_script(d)->Ok_0 is String || to_script(d)->Ok_0 is Date,
        to_document(to_script(d)->Ok_0) is Ok,
{
}

/// Conversion to a script value keeps a value well formed: keys stay distinct and
/// identifiers keep their twelve bytes.
pub proof fn lemma_script_of_keeps_well_formed(d: DocumentModel)
    requires
        d.well_formed(),
    ensures
        script_of(d).well_formed(),
    decreases d,
{
    match d {
        DocumentModel::Array(items) => {
            let converted = script_of(d)->Array_0;
            assert forall|i: int| 0 <= i < converted.len() implies (
            #[trigger] converted[i]).well_formed() by {
                assert(items[i].well_formed());
                lemma_script_of_keeps_well_formed(items[i]);
            }
        },
        DocumentModel::Document(entries) => {
            let converted = script_of(d)->Object_entries;
            assert forall|i: int| 0 <= i < converted.len() implies (
            #[trigger] converted[i]).1.well_formed() by {
                assert(entries[i].1.well_formed());
                lemma_script_of_keeps_well_formed(entries[i].1);
            }
            assert forall|i: int, j: int| 0 <= i < j < converted.len() implies (
            #[trigger] converted[i]).0 != (#[trigger] converted[j]).0 by {
                assert(entries[i].0 != entries[j].0);
            }
        },
        _ => {},
    }
}

/// Conversion to a document value keeps a value well formed.
pub proof fn lemma_document_of_keeps_well_formed(s: ScriptModel)
    requires
        s.well_formed(),
    ensures
        document_of(s).well_formed(),
    decreases s,
{
    match s {
        ScriptModel::Array(items) => {
            let converted = document_of(s)->Array_0;
            assert forall|i: int| 0 <= i < converted.len() implies (
            #[trigger] converted[i]).well_formed() by {
                assert(items[i].well_formed());
                lemma_document_of_keeps_well_formed(items[i]);
            }
        },
        ScriptModel::Object { class, entries } => {
            let converted = document_of(s)->Document_0;
            assert forall|i: int| 0 <= i < converted.len() implies (
            #[trigger] converted[i]).1.well_formed() by {
                assert(entries[i].1.well_formed());
                lemma_document_of_keeps_well_formed(entries[i].1);
            }
            assert forall|i: int, j: int| 0 <= i < j < converted.len() implies (
            #[trigger] converted[i]).0 != (#[trigger] converted[j]).0 by {
                assert(entries[i].0 != entries[j].0);
            }
        },
        _ => {},
    }
}

} // verus!
