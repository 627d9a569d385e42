//! Script values: what the embedded engine computes with.

use vstd::prelude::*;

verus! {

/// A database as a script names it. It owns no connection: the connection is looked up by
/// its id whenever a method needs it.
#[derive(Debug, PartialEq, Eq)]
pub struct Db {
    pub name: String,
    pub client_id: String,
}

/// A collection of a database. The database's name and connection id never change, so the
/// collection holds them by value.
#[derive(Debug, PartialEq, Eq)]
pub struct Collection {
    pub name: String,
    pub db: Db,
}

pub struct DbModel {
    pub name: Seq<char>,
    pub client_id: Seq<char>,
}

pub struct CollectionModel {
    pub name: Seq<char>,
    pub db: DbModel,
}

impl View for Db {
    type V = DbModel;

    open spec fn view(&self) -> DbModel {
        DbModel { name: self.name@, client_id: self.client_id@ }
    }
}

impl View for Collection {
    type V = CollectionModel;

    open spec fn view(&self) -> CollectionModel {
        CollectionModel { name: self.name@, db: self.db@ }
    }
}

impl Db {
    /// A copy with the same name and connection id.
    pub fn duplicate(&self) -> (copy: Db)
        ensures
            copy@ == self@,
    {
        Db { name: self.name.clone(), client_id: self.client_id.clone() }
    }
}

impl Collection {
    /// A copy with the same name and database.
    pub fn duplicate(&self) -> (copy: Collection)
        ensures
            copy@ == self@,
    {
        Collection { name: self.name.clone(), db: self.db.duplicate() }
    }
}

/// What an object is an instance of, as far as the library's own classes go.
#[derive(Debug, PartialEq, Eq)]
pub enum ObjectClass {
    /// No class of the library.
    Plain,
    Db(Db),
    Collection(Collection),
}

pub enum ObjectClassModel {
    Plain,
    Db(DbModel),
    Collection(CollectionModel),
}

impl View for ObjectClass {
    type V = ObjectClassModel;

    open spec fn view(&self) -> ObjectClassModel {
        match self {
            ObjectClass::Plain => ObjectClassModel::Plain,
            ObjectClass::Db(db) => ObjectClassModel::Db(db@),
            ObjectClass::Collection(collection) => ObjectClassModel::Collection(collection@),
        }
    }
}

/// One value of the script engine.
///
/// A number that is no 32-bit integer is held by the bit pattern of its IEEE-754 double;
/// a big integer by the 64-bit integer that the engine's conversion through its widest
/// float gives; a symbol by its descriptive text; a date by its milliseconds since the
/// epoch.
#[derive(Debug, PartialEq, Eq)]
pub enum ScriptValue {
    Undefined,
    Null,
    Boolean(bool),
    Integer(i32),
    Float(u64),
    String(String),
    Symbol(String),
    BigInteger(i64),
    Array(Vec<ScriptValue>),
    /// An object that is no array, date, byte array or document id: its own enumerable
    /// string keys, in insertion order.
    Object { class: ObjectClass, entries: Vec<(String, ScriptValue)> },
    Date(i64),
    /// A typed byte array.
    Bytes(Vec<u8>),
    /// An instance of the document-id class.
    DocumentId([u8; 12]),
}

/// A script value as mathematics.
pub enum ScriptModel {
    Undefined,
    Null,
    Boolean(bool),
    Integer(i32),
    Float(u64),
    String(Seq<char>),
    Symbol(Seq<char>),
    BigInteger(i64),
    Array(Seq<ScriptModel>),
    Object { class: ObjectClassModel, entries: Seq<(Seq<char>, ScriptModel)> },
    Date(i64),
    Bytes(Seq<u8>),
    DocumentId(Seq<u8>),
}

impl View for ScriptValue {
    type V = ScriptModel;

    open spec fn view(&self) -> ScriptModel {
        self.model()
    }
}

impl ScriptValue {
    /// The value as mathematics.
    pub open spec fn model(&self) -> ScriptModel
        decreases self,
    {
        match self {
            ScriptValue::Undefined => ScriptModel::Undefined,
            ScriptValue::Null => ScriptModel::Null,
            ScriptValue::Boolean(b) => ScriptModel::Boolean(*b),
            ScriptValue::Integer(i) => ScriptModel::Integer(*i),
            ScriptValue::Float(bits) => ScriptModel::Float(*bits),
            ScriptValue::String(s) => ScriptModel::String(s@),
            ScriptValue::Symbol(s) => ScriptModel::Symbol(s@),
            ScriptValue::BigInteger(i) => ScriptModel::BigInteger(*i),
            ScriptValue::Array(items) => ScriptModel::Array(
                Seq::new(
                    items@.len(),
                    |i: int|
                        if 0 <= i < items@.len() {
                            items@[i].model()
                        } else {
                            ScriptModel::Null
                        },
                ),
            ),
            ScriptValue::Object { class, entries } => ScriptModel::Object {
                class: class@,
                entries: Seq::new(
                    entries@.len(),
                    |i: int|
                        if 0 <= i < entries@.len() {
                            (entries@[i].0@, entries@[i].1.model())
                        } else {
                            (Seq::empty(), ScriptModel::Null)
                        },
                ),
            },
            ScriptValue::Date(millis) => ScriptModel::Date(*millis),
            ScriptValue::Bytes(bytes) => ScriptModel::Bytes(bytes@),
            ScriptValue::DocumentId(bytes) => ScriptModel::DocumentId(bytes@),
        }
    }
}

/// The entries of an object as mathematics.
pub open spec fn script_entries_model(entries: Seq<(String, ScriptValue)>) -> Seq<
    (Seq<char>, ScriptModel),
> {
    Seq::new(entries.len(), |i: int| (entries[i].0@, entries[i].1@))
}

/// A list of script values as mathematics.
pub open spec fn script_items_model(items: Seq<ScriptValue>) -> Seq<ScriptModel> {
    Seq::new(items.len(), |i: int| items[i]@)
}

/// No key occurs twice.
pub open spec fn script_keys_distinct(entries: Seq<(Seq<char>, ScriptModel)>) -> bool {
    forall|i: int, j: int|
        0 <= i < j < entries.len() ==> (#[trigger] entries[i]).0 != (#[trigger] entries[j]).0
}

impl ScriptModel {
    /// At every depth the keys of an object are distinct, and a document id has twelve
    /// bytes.
    pub open spec fn well_formed(self) -> bool
        decreases self,
    {
        match self {
            ScriptModel::Array(items) => forall|i: int|
                0 <= i < items.len() ==> (#[trigger] items[i]).well_formed(),
            ScriptModel::Object { class, entries } => script_keys_distinct(entries)
                && forall|i: int|
                0 <= i < entries.len() ==> (#[trigger] entries[i]).1.well_formed(),
            ScriptModel::DocumentId(bytes) => bytes.len() == 12,
            _ => true,
        }
    }
}

/// The view of an array is the list of its items' views.
pub proof fn lemma_script_array_view(items: Vec<ScriptValue>)
    ensures
        ScriptValue::Array(items)@ == ScriptModel::Array(script_items_model(items@)),
{
    assert(ScriptValue::Array(items)@->Array_0 =~= script_items_model(items@));
}

/// The view of an object is its class and the list of its entries' views.
pub proof fn lemma_script_object_view(class: ObjectClass, entries: Vec<(String, ScriptValue)>)
    ensures
        (ScriptValue::Object { class, entries })@ == (ScriptModel::Object {
            class: class@,
            entries: script_entries_model(entries@),
        }),
{
    assert((ScriptValue::Object { class, entries })@->Object_entries =~= script_entries_model(
        entries@,
    ));
}

} // verus!
