use mongoui::bridge::{bson_to_js, document_to_js, js_to_bson, BYTES_UNSUPPORTED, CODE_UNSUPPORTED};
use mongoui::document::DocumentValue;
use mongoui::error::Error;
use mongoui::script::{Db, ObjectClass, ScriptValue};

fn text(s: &str) -> String {
    s.to_string()
}

fn sample_id() -> [u8; 12] {
    [0x53, 0xe3, 0x7d, 0x08, 0x77, 0x6f, 0x72, 0x4e, 0x42, 0x00, 0x00, 0x01]
}

fn sample_document() -> DocumentValue {
    DocumentValue::Document(vec![
        (text("none"), DocumentValue::Null),
        (text("flag"), DocumentValue::Boolean(true)),
        (text("count"), DocumentValue::Int32(-7)),
        (text("ratio"), DocumentValue::Double(2.5f64.to_bits())),
        (text("name"), DocumentValue::String(text("ada"))),
        (text("_id"), DocumentValue::ObjectId(sample_id())),
        (text("at"), DocumentValue::DateTime(1_700_000_000_123)),
        (
            text("tags"),
            DocumentValue::Array(vec![
                DocumentValue::String(text("x")),
                DocumentValue::Int32(2),
                DocumentValue::Document(vec![(text("deep"), DocumentValue::Null)]),
            ]),
        ),
    ])
}

#[test]
fn round_trip_of_scalars() {
    let values = vec![
        DocumentValue::Null,
        DocumentValue::Boolean(false),
        DocumentValue::Int32(i32::MIN),
        DocumentValue::Int32(i32::MAX),
        DocumentValue::Double(0.1f64.to_bits()),
        DocumentValue::Double(f64::NAN.to_bits()),
        DocumentValue::String(text("")),
        DocumentValue::String(text("héllo")),
        DocumentValue::ObjectId(sample_id()),
        DocumentValue::DateTime(-1),
    ];
    for value in values.iter() {
        let script = bson_to_js(value).unwrap();
        assert_eq!(&js_to_bson(&script).unwrap(), value);
    }
}

#[test]
fn round_trip_of_nested_document() {
    let script = bson_to_js(&sample_document()).unwrap();
    assert_eq!(js_to_bson(&script).unwrap(), sample_document());
}

#[test]
fn round_trip_of_empty_containers() {
    let array = DocumentValue::Array(vec![]);
    assert_eq!(bson_to_js(&array).unwrap(), ScriptValue::Array(vec![]));
    assert_eq!(js_to_bson(&bson_to_js(&array).unwrap()).unwrap(), array);
    let document = DocumentValue::Document(vec![]);
    assert_eq!(
        bson_to_js(&document).unwrap(),
        ScriptValue::Object { class: ObjectClass::Plain, entries: vec![] }
    );
    assert_eq!(js_to_bson(&bson_to_js(&document).unwrap()).unwrap(), document);
}

#[test]
fn document_becomes_plain_object_with_same_keys_in_order() {
    let document = DocumentValue::Document(vec![
        (text("b"), DocumentValue::Int32(1)),
        (text("a"), DocumentValue::Int32(2)),
        (text("1"), DocumentValue::Int32(3)),
    ]);
    assert_eq!(
        bson_to_js(&document).unwrap(),
        ScriptValue::Object {
            class: ObjectClass::Plain,
            entries: vec![
                (text("b"), ScriptValue::Integer(1)),
                (text("a"), ScriptValue::Integer(2)),
                (text("1"), ScriptValue::Integer(3)),
            ],
        }
    );
}

#[test]
fn null_like_values_become_null() {
    assert_eq!(bson_to_js(&DocumentValue::Null).unwrap(), ScriptValue::Null);
    assert_eq!(bson_to_js(&DocumentValue::MinKey).unwrap(), ScriptValue::Null);
    assert_eq!(bson_to_js(&DocumentValue::MaxKey).unwrap(), ScriptValue::Null);
    assert_eq!(bson_to_js(&DocumentValue::DbPointer).unwrap(), ScriptValue::Null);
    assert_eq!(bson_to_js(&DocumentValue::Undefined).unwrap(), ScriptValue::Undefined);
}

#[test]
fn int64_within_32_bits_becomes_integer() {
    assert_eq!(bson_to_js(&DocumentValue::Int64(0)).unwrap(), ScriptValue::Integer(0));
    assert_eq!(bson_to_js(&DocumentValue::Int64(42)).unwrap(), ScriptValue::Integer(42));
    assert_eq!(
        bson_to_js(&DocumentValue::Int64(i32::MIN as i64)).unwrap(),
        ScriptValue::Integer(i32::MIN)
    );
    assert_eq!(
        bson_to_js(&DocumentValue::Int64(i32::MAX as i64)).unwrap(),
        ScriptValue::Integer(i32::MAX)
    );
}

#[test]
fn int64_beyond_32_bits_becomes_float() {
    let just_above = i32::MAX as i64 + 1;
    assert_eq!(
        bson_to_js(&DocumentValue::Int64(just_above)).unwrap(),
        ScriptValue::Float(2147483648.0f64.to_bits())
    );
    let just_below = i32::MIN as i64 - 1;
    assert_eq!(
        bson_to_js(&DocumentValue::Int64(just_below)).unwrap(),
        ScriptValue::Float((-2147483649.0f64).to_bits())
    );
    assert_eq!(
        bson_to_js(&DocumentValue::Int64(i64::MAX)).unwrap(),
        ScriptValue::Float(9223372036854775807.0f64.to_bits())
    );
    assert_eq!(
        bson_to_js(&DocumentValue::Int64((1i64 << 53) + 1)).unwrap(),
        ScriptValue::Float(9007199254740992.0f64.to_bits())
    );
}

#[test]
fn text_like_values_become_strings() {
    assert_eq!(
        bson_to_js(&DocumentValue::Symbol(text("sym"))).unwrap(),
        ScriptValue::String(text("sym"))
    );
    assert_eq!(
        bson_to_js(&DocumentValue::Decimal128(text("3.14159"))).unwrap(),
        ScriptValue::String(text("3.14159"))
    );
}

#[test]
fn regular_expression_is_rendered_between_slashes() {
    let regex = DocumentValue::RegularExpression { pattern: text("^a.b$"), options: text("im") };
    assert_eq!(bson_to_js(&regex).unwrap(), ScriptValue::String(text("/^a.b$/im")));
    let bare = DocumentValue::RegularExpression { pattern: text(""), options: text("") };
    assert_eq!(bson_to_js(&bare).unwrap(), ScriptValue::String(text("//")));
    let unsorted = DocumentValue::RegularExpression { pattern: text("x"), options: text("xi") };
    assert_eq!(bson_to_js(&unsorted).unwrap(), ScriptValue::String(text("/x/xi")));
}

#[test]
fn binary_becomes_byte_array() {
    let binary = DocumentValue::Binary { subtype: 0, bytes: vec![1, 2, 255] };
    assert_eq!(bson_to_js(&binary).unwrap(), ScriptValue::Bytes(vec![1, 2, 255]));
}

#[test]
fn object_id_becomes_document_id() {
    assert_eq!(
        bson_to_js(&DocumentValue::ObjectId(sample_id())).unwrap(),
        ScriptValue::DocumentId(sample_id())
    );
}

#[test]
fn instants_become_dates() {
    assert_eq!(bson_to_js(&DocumentValue::DateTime(1234)).unwrap(), ScriptValue::Date(1234));
    assert_eq!(
        bson_to_js(&DocumentValue::Timestamp { time: 1_700_000_000, increment: 9 }).unwrap(),
        ScriptValue::Date(1_700_000_000_000)
    );
    assert_eq!(
        bson_to_js(&DocumentValue::Timestamp { time: u32::MAX, increment: 0 }).unwrap(),
        ScriptValue::Date(4_294_967_295_000)
    );
}

#[test]
fn code_values_fail_with_conversion_error() {
    let expected = Error::ConversionError(text(CODE_UNSUPPORTED));
    assert_eq!(bson_to_js(&DocumentValue::JavaScriptCode(text("1"))).unwrap_err(), expected);
    let scoped = DocumentValue::JavaScriptCodeWithScope { code: text("x"), scope: vec![] };
    assert_eq!(bson_to_js(&scoped).unwrap_err(), expected);
    let nested = DocumentValue::Array(vec![
        DocumentValue::Int32(1),
        DocumentValue::Document(vec![(text("f"), DocumentValue::JavaScriptCode(text("1")))]),
    ]);
    assert_eq!(bson_to_js(&nested).unwrap_err(), expected);
}

#[test]
fn lossy_values_convert_back_without_error() {
    let lossy = vec![
        DocumentValue::Symbol(text("s")),
        DocumentValue::Decimal128(text("1E+3")),
        DocumentValue::RegularExpression { pattern: text("a"), options: text("i") },
        DocumentValue::Timestamp { time: 5, increment: 6 },
    ];
    let expected = vec![
        DocumentValue::String(text("s")),
        DocumentValue::String(text("1E+3")),
        DocumentValue::String(text("/a/i")),
        DocumentValue::DateTime(5000),
    ];
    for (value, back) in lossy.iter().zip(expected.iter()) {
        let script = bson_to_js(value).unwrap();
        assert!(matches!(script, ScriptValue::String(_) | ScriptValue::Date(_)));
        assert_eq!(&js_to_bson(&script).unwrap(), back);
    }
}

#[test]
fn script_primitives_to_documents() {
    assert_eq!(js_to_bson(&ScriptValue::Null).unwrap(), DocumentValue::Null);
    assert_eq!(js_to_bson(&ScriptValue::Undefined).unwrap(), DocumentValue::Undefined);
    assert_eq!(
        js_to_bson(&ScriptValue::String(text("s"))).unwrap(),
        DocumentValue::String(text("s"))
    );
    assert_eq!(js_to_bson(&ScriptValue::Integer(-3)).unwrap(), DocumentValue::Int32(-3));
    assert_eq!(js_to_bson(&ScriptValue::Boolean(true)).unwrap(), DocumentValue::Boolean(true));
    assert_eq!(
        js_to_bson(&ScriptValue::Float(1.5f64.to_bits())).unwrap(),
        DocumentValue::Double(1.5f64.to_bits())
    );
    assert_eq!(
        js_to_bson(&ScriptValue::BigInteger(1 << 40)).unwrap(),
        DocumentValue::Int64(1 << 40)
    );
    assert_eq!(
        js_to_bson(&ScriptValue::Symbol(text("Symbol(tag)"))).unwrap(),
        DocumentValue::Symbol(text("Symbol(tag)"))
    );
    assert_eq!(js_to_bson(&ScriptValue::Date(77)).unwrap(), DocumentValue::DateTime(77));
    assert_eq!(
        js_to_bson(&ScriptValue::DocumentId(sample_id())).unwrap(),
        DocumentValue::ObjectId(sample_id())
    );
}

#[test]
fn byte_arrays_fail_with_conversion_error() {
    let expected = Error::ConversionError(text(BYTES_UNSUPPORTED));
    assert_eq!(js_to_bson(&ScriptValue::Bytes(vec![1])).unwrap_err(), expected);
    let nested = ScriptValue::Object {
        class: ObjectClass::Plain,
        entries: vec![
            (text("ok"), ScriptValue::Integer(1)),
            (text("raw"), ScriptValue::Array(vec![ScriptValue::Bytes(vec![])])),
        ],
    };
    assert_eq!(js_to_bson(&nested).unwrap_err(), expected);
}

#[test]
fn class_instances_convert_by_their_own_keys() {
    let db = Db { name: text("shop"), client_id: text("c1") };
    let instance = ScriptValue::Object {
        class: ObjectClass::Db(db),
        entries: vec![(text("note"), ScriptValue::Integer(1))],
    };
    assert_eq!(
        js_to_bson(&instance).unwrap(),
        DocumentValue::Document(vec![(text("note"), DocumentValue::Int32(1))])
    );
}

#[test]
fn whole_document_conversion_matches_value_conversion() {
    let entries = vec![
        (text("a"), DocumentValue::Int32(1)),
        (text("b"), DocumentValue::Array(vec![DocumentValue::Null])),
    ];
    let as_value = DocumentValue::Document(vec![
        (text("a"), DocumentValue::Int32(1)),
        (text("b"), DocumentValue::Array(vec![DocumentValue::Null])),
    ]);
    assert_eq!(document_to_js(&entries).unwrap(), bson_to_js(&as_value).unwrap());
    let failing = vec![(text("f"), DocumentValue::JavaScriptCode(text("1")))];
    assert_eq!(
        document_to_js(&failing).unwrap_err(),
        Error::ConversionError(text(CODE_UNSUPPORTED))
    );
}
