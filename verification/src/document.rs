//! Document values: the type universe of the database's wire format.

use vstd::prelude::*;

verus! {

/// One value of a database document.
///
/// A double is held by the bit pattern of its IEEE-754 form, a decimal by its text, an
/// instant by its milliseconds since the epoch.
#[derive(Debug, PartialEq, Eq)]
pub enum DocumentValue {
    Null,
    Undefined,
    Boolean(bool),
    Int32(i32),
    Int64(i64),
    Double(u64),
    String(String),
    Symbol(String),
    Decimal128(String),
    Array(Vec<DocumentValue>),
    /// Keys in insertion order.
    Document(Vec<(String, DocumentValue)>),
    Binary { subtype: u8, bytes: Vec<u8> },
    ObjectId([u8; 12]),
    DateTime(i64),
    /// Assigned by the server: seconds since the epoch and a counter within the second.
    Timestamp { time: u32, increment: u32 },
    RegularExpression { pattern: String, options: String },
    MinKey,
    MaxKey,
    DbPointer,
    JavaScriptCode(String),
    JavaScriptCodeWithScope { code: String, scope: Vec<(String, DocumentValue)> },
}

/// A document value as mathematics: texts and lists are sequences.
pub enum DocumentModel {
    Null,
    Undefined,
    Boolean(bool),
    Int32(i32),
    Int64(i64),
    Double(u64),
    String(Seq<char>),
    Symbol(Seq<char>),
    Decimal128(Seq<char>),
    Array(Seq<DocumentModel>),
    Document(Seq<(Seq<char>, DocumentModel)>),
    Binary { subtype: u8, bytes: Seq<u8> },
    ObjectId(Seq<u8>),
    DateTime(i64),
    Timestamp { time: u32, increment: u32 },
    RegularExpression { pattern: Seq<char>, options: Seq<char> },
    MinKey,
    MaxKey,
    DbPointer,
    JavaScriptCode(Seq<char>),
    JavaScriptCodeWithScope { code: Seq<char>, scope: Seq<(Seq<char>, DocumentModel)> },
}

impl View for DocumentValue {
    type V = DocumentModel;

    open spec fn view(&self) -> DocumentModel {
        self.model()
    }
}

impl DocumentValue {
    /// The value as mathematics.
    pub open spec fn model(&self) -> DocumentModel
        decreases self,
    {
        match self {
            DocumentValue::Null => DocumentModel::Null,
            DocumentValue::Undefined => DocumentModel::Undefined,
            DocumentValue::Boolean(b) => DocumentModel::Boolean(*b),
            DocumentValue::Int32(i) => DocumentModel::Int32(*i),
            DocumentValue::Int64(i) => DocumentModel::Int64(*i),
            DocumentValue::Double(bits) => DocumentModel::Double(*bits),
            DocumentValue::String(s) => DocumentModel::String(s@),
            DocumentValue::Symbol(s) => DocumentModel::Symbol(s@),
            DocumentValue::Decimal128(s) => DocumentModel::Decimal128(s@),
            DocumentValue::Array(items) => DocumentModel::Array(
                Seq::new(
                    items@.len(),
                    |i: int|
                        if 0 <= i < items@.len() {
                            items@[i].model()
                        } else {
                            DocumentModel::Null
                        },
                ),
            ),
            DocumentValue::Document(entries) => DocumentModel::Document(
                Seq::new(
                    entries@.len(),
                    |i: int|
                        if 0 <= i < entries@.len() {
                            (entries@[i].0@, entries@[i].1.model())
                        } else {
                            (Seq::empty(), DocumentModel::Null)
                        },
                ),
            ),
            DocumentValue::Binary { subtype, bytes } => DocumentModel::Binary {
                subtype: *subtype,
                bytes: bytes@,
            },
            DocumentValue::ObjectId(bytes) => DocumentModel::ObjectId(bytes@),
            DocumentValue::DateTime(millis) => DocumentModel::DateTime(*millis),
            DocumentValue::Timestamp { time, increment } => DocumentModel::Timestamp {
                time: *time,
                increment: *increment,
            },
            DocumentValue::RegularExpression { pattern, options } => {
                DocumentModel::RegularExpression { pattern: pattern@, options: options@ }
            },
            DocumentValue::MinKey => DocumentModel::MinKey,
            DocumentValue::MaxKey => DocumentModel::MaxKey,
            DocumentValue::DbPointer => DocumentModel::DbPointer,
            DocumentValue::JavaScriptCode(code) => DocumentModel::JavaScriptCode(code@),
            DocumentValue::JavaScriptCodeWithScope { code, scope } => {
                DocumentModel::JavaScriptCodeWithScope {
                    code: code@,
                    scope: Seq::new(
                        scope@.len(),
                        |i: int|
                            if 0 <= i < scope@.len() {
                                (scope@[i].0@, scope@[i].1.model())
                            } else {
                                (Seq::empty(), DocumentModel::Null)
                            },
                    ),
                }
            },
        }
    }
}

/// The entries of a document as mathematics.
pub open spec fn entries_model(entries: Seq<(String, DocumentValue)>) -> Seq<
    (Seq<char>, DocumentModel),
> {
    Seq::new(entries.len(), |i: int| (entries[i].0@, entries[i].1@))
}

/// A list of document values as mathematics.
pub open spec fn items_model(items: Seq<DocumentValue>) -> Seq<DocumentModel> {
    Seq::new(items.len(), |i: int| items[i]@)
}

/// No key occurs twice.
pub open spec fn keys_distinct(entries: Seq<(Seq<char>, DocumentModel)>) -> bool {
    forall|i: int, j: int|
        0 <= i < j < entries.len() ==> (#[trigger] entries[i]).0 != (#[trigger] entries[j]).0
}

impl DocumentModel {
    /// At every depth the keys of a document are distinct, and an identifier has twelve
    /// bytes.
    pub open spec fn well_formed(self) -> bool
        decreases self,
    {
        match self {
            DocumentModel::Array(items) => forall|i: int|
                0 <= i < items.len() ==> (#[trigger] items[i]).well_formed(),
            DocumentModel::Document(entries) => keys_distinct(entries) && forall|i: int|
                0 <= i < entries.len() ==> (#[trigger] entries[i]).1.well_formed(),
            DocumentModel::JavaScriptCodeWithScope { code, scope } => keys_distinct(scope)
                && forall|i: int| 0 <= i < scope.len() ==> (#[trigger] scope[i]).1.well_formed(),
            DocumentModel::ObjectId(bytes) => bytes.len() == 12,
            _ => true,
        }
    }
}

/// The view of an array is the list of its items' views.
pub proof fn lemma_array_view(items: Vec<DocumentValue>)
    ensures
        DocumentValue::Array(items)@ == DocumentModel::Array(items_model(items@)),
{
    assert(DocumentValue::Array(items)@->Array_0 =~= items_model(items@));
}

/// The view of a document is the list of its entries' views.
pub proof fn lemma_document_view(entries: Vec<(String, DocumentValue)>)
    ensures
        DocumentValue::Document(entries)@ == DocumentModel::Document(entries_model(entries@)),
{
    assert(DocumentValue::Document(entries)@->Document_0 =~= entries_model(entries@));
}

} // verus!
