//! The native classes that scripts see: their constructors and their method tables.

use crate::error::{Error, ErrorModel};
use crate::object_id::{creation_millis, hex_text, object_id_parse_error, parsed_object_id, JsObjectId};
use crate::script::{Collection, CollectionModel, Db, DbModel, ObjectClass, ObjectClassModel, ScriptModel, ScriptValue};
use vstd::prelude::*;
use vstd::string::StringExecFns;

verus! {

/// A method that the library implements for one of its classes.
#[derive(Debug, Clone, Copy, PartialEq, Eq, Structural)]
pub enum NativeMethod {
    GetCollection,
    Find,
    FindOne,
    InsertOne,
    InsertMany,
    ToString,
    Timestamp,
}

/// One line of a class's method table: the name scripts call, the number of arguments they
/// are expected to pass, and what runs.
#[derive(Debug, PartialEq, Eq)]
pub struct MethodBinding {
    pub name: String,
    pub length: usize,
    pub method: NativeMethod,
}

impl View for MethodBinding {
    type V = (Seq<char>, usize, NativeMethod);

    open spec fn view(&self) -> (Seq<char>, usize, NativeMethod) {
        (self.name@, self.length, self.method)
    }
}

/// A method table as mathematics.
pub open spec fn bindings_model(bindings: Seq<MethodBinding>) -> Seq<
    (Seq<char>, usize, NativeMethod),
> {
    Seq::new(bindings.len(), |i: int| bindings[i]@)
}

fn binding(name: &str, length: usize, method: NativeMethod) -> (b: MethodBinding)
    ensures
        b@ == (name@, length, method),
{
    MethodBinding { name: String::from_str(name), length, method }
}

pub const DB_CLASS: &'static str = "Db";

pub const COLLECTION_CLASS: &'static str = "Collection";

pub const OBJECT_ID_CLASS: &'static str = "ObjectId";

pub const GET_COLLECTION: &'static str = "getCollection";

pub const FIND: &'static str = "find";

pub const FIND_ONE: &'static str = "findOne";

pub const INSERT_ONE: &'static str = "insertOne";

pub const INSERT_MANY: &'static str = "insertMany";

pub const TO_STRING: &'static str = "toString";

pub const TIMESTAMP: &'static str = "timestamp";

pub const TO_JSON: &'static str = "toJSON";

pub const DB_NAME_MISSING: &'static str = "db name is missing";

pub const CLIENT_ID_MISSING: &'static str = "client id is missing";

pub const GET_COLLECTION_INVALID: &'static str = "invalid arguments to getCollection";

pub const NAME_MISSING: &'static str = "name is missing";

pub const DB_MISSING: &'static str = "db is missing";

pub const INVALID_ARGUMENT: &'static str = "invalid argument";

pub const OBJECT_ID_ARGUMENT: &'static str = "Argument must be a string or undefined";

pub const TO_STRING_FAILED: &'static str = "Failed to convert to string";

pub const TIMESTAMP_FAILED: &'static str = "Failed to get timestamp";

/// The method table of `Db`.
pub open spec fn db_methods() -> Seq<(Seq<char>, usize, NativeMethod)> {
    seq![(GET_COLLECTION@, 1usize, NativeMethod::GetCollection)]
}

/// The method table of `Collection`.
pub open spec fn collection_methods() -> Seq<(Seq<char>, usize, NativeMethod)> {
    seq![
        (FIND@, 1usize, NativeMethod::Find),
        (FIND_ONE@, 1usize, NativeMethod::FindOne),
        (INSERT_ONE@, 1usize, NativeMethod::InsertOne),
        (INSERT_MANY@, 1usize, NativeMethod::InsertMany),
    ]
}

/// The method table of `ObjectId`: `toJSON` runs what `toString` runs.
pub open spec fn object_id_methods() -> Seq<(Seq<char>, usize, NativeMethod)> {
    seq![
        (TO_STRING@, 0usize, NativeMethod::ToString),
        (TIMESTAMP@, 0usize, NativeMethod::Timestamp),
        (TO_JSON@, 0usize, NativeMethod::ToString),
    ]
}

/// What the engine gave when asked for an argument as text: nothing where the argument is
/// absent, else the text or the failure of the conversion.
pub open spec fn text_argument(arg: Option<Result<String, Error>>, missing: Seq<char>) -> Result<
    Seq<char>,
    ErrorModel,
> {
    match arg {
        None => Err(ErrorModel::InvalidArgument(missing)),
        Some(Err(error)) => Err(error@),
        Some(Ok(text)) => Ok(text@),
    }
}

fn take_text(arg: Option<Result<String, Error>>, missing: &str) -> (result: Result<String, Error>)
    ensures
        match result {
            Ok(text) => text_argument(arg, missing@) == Ok::<Seq<char>, ErrorModel>(text@),
            Err(error) => text_argument(arg, missing@) == Err::<Seq<char>, ErrorModel>(error@),
        },
{
    match arg {
        None => Err(Error::InvalidArgument(String::from_str(missing))),
        Some(Err(error)) => Err(error),
        Some(Ok(text)) => Ok(text),
    }
}

/// The database that `new Db(name, clientId)` makes, or why it makes none.
pub open spec fn db_constructed(
    name: Option<Result<String, Error>>,
    client_id: Option<Result<String, Error>>,
) -> Result<DbModel, ErrorModel> {
    match text_argument(name, DB_NAME_MISSING@) {
        Err(error) => Err(error),
        Ok(name) => match text_argument(client_id, CLIENT_ID_MISSING@) {
            Err(error) => Err(error),
            Ok(client_id) => Ok(DbModel { name, client_id }),
        },
    }
}

/// The database that a script value is an instance of, where it is one.
pub open spec fn as_db(value: ScriptModel) -> Option<DbModel> {
    match value {
        ScriptModel::Object { class: ObjectClassModel::Db(db), entries } => Some(db),
        _ => None,
    }
}

/// The collection that a script value is an instance of, where it is one.
pub open spec fn as_collection(value: ScriptModel) -> Option<CollectionModel> {
    match value {
        ScriptModel::Object { class: ObjectClassModel::Collection(collection), entries } => Some(
            collection,
        ),
        _ => None,
    }
}

/// The collection that `db.getCollection(name)` gives, or why it gives none.
pub open spec fn collection_got(this: ScriptModel, name: Option<Result<String, Error>>) -> Result<
    CollectionModel,
    ErrorModel,
> {
    match (as_db(this), name) {
        (Some(db), Some(Ok(name))) => Ok(CollectionModel { name: name@, db }),
        (Some(db), Some(Err(error))) => Err(error@),
        _ => Err(ErrorModel::InvalidArgument(GET_COLLECTION_INVALID@)),
    }
}

/// The collection that `new Collection(name, db)` makes, or why it makes none.
pub open spec fn collection_constructed(
    name: Option<Result<String, Error>>,
    db: Option<ScriptModel>,
) -> Result<CollectionModel, ErrorModel> {
    match text_argument(name, NAME_MISSING@) {
        Err(error) => Err(error),
        Ok(name) => match db {
            None => Err(ErrorModel::InvalidArgument(DB_MISSING@)),
            Some(value) => match as_db(value) {
                Some(db) => Ok(CollectionModel { name, db }),
                None => Err(ErrorModel::InvalidArgument(INVALID_ARGUMENT@)),
            },
        },
    }
}

impl Db {
    /// Builds the database object from the constructor's two arguments, each given as the
    /// engine's conversion of it to text. The name is looked at first.
    pub fn data_constructor(
        name: Option<Result<String, Error>>,
        client_id: Option<Result<String, Error>>,
    ) -> (result: Result<Db, Error>)
        ensures
            match result {
                Ok(db) => db_constructed(name, client_id) == Ok::<DbModel, ErrorModel>(db@),
                Err(error) => db_constructed(name, client_id) == Err::<DbModel, ErrorModel>(
                    error@,
                ),
            },
    {
        let name = match take_text(name, DB_NAME_MISSING) {
            Ok(name) => name,
            Err(error) => { return Err(error); },
        };
        let client_id = match take_text(client_id, CLIENT_ID_MISSING) {
            Ok(client_id) => client_id,
            Err(error) => { return Err(error); },
        };
        Ok(Db { name, client_id })
    }

    /// The class's method table: `getCollection`, with one argument.
    pub fn init() -> (bindings: Vec<MethodBinding>)
        ensures
            bindings_model(bindings@) == db_methods(),
    {
        let mut bindings: Vec<MethodBinding> = Vec::new();
        bindings.push(binding(GET_COLLECTION, 1, NativeMethod::GetCollection));
        assert(bindings_model(bindings@) =~= db_methods());
        bindings
    }

    /// `getCollection(name)`: a collection of this database, on the same connection.
    /// Fails where `this` is no database or the name is absent, and with the engine's own
    /// error where the name could not be read as text.
    pub fn get_collection(this: &ScriptValue, name: Option<Result<String, Error>>) -> (result:
        Result<Collection, Error>)
        ensures
            match result {
                Ok(collection) => collection_got(this@, name) == Ok::<
                    CollectionModel,
                    ErrorModel,
                >(collection@),
                Err(error) => collection_got(this@, name) == Err::<CollectionModel, ErrorModel>(
                    error@,
                ),
            },
    {
        if let ScriptValue::Object { class: ObjectClass::Db(db), entries } = this {
            match name {
                Some(Ok(name)) => { return Ok(Collection { name, db: db.duplicate() }); },
                Some(Err(error)) => { return Err(error); },
                None => {},
            }
        }
        Err(Error::InvalidArgument(String::from_str(GET_COLLECTION_INVALID)))
    }
}

impl Collection {
    /// Builds the collection object from the constructor's arguments: the name, as the
    /// engine's conversion of it to text, and the database object.
    pub fn data_constructor(name: Option<Result<String, Error>>, db: Option<&ScriptValue>) -> (result:
        Result<Collection, Error>)
        ensures
            match result {
                Ok(collection) => collection_constructed(
                    name,
                    match db {
                        Some(value) => Some(value@),
                        None => None,
                    },
                ) == Ok::<CollectionModel, ErrorModel>(collection@),
                Err(error) => collection_constructed(
                    name,
                    match db {
                        Some(value) => Some(value@),
                        None => None,
                    },
                ) == Err::<CollectionModel, ErrorModel>(error@),
            },
    {
        let name = match take_text(name, NAME_MISSING) {
            Ok(name) => name,
            Err(error) => { return Err(error); },
        };
        match db {
            None => Err(Error::InvalidArgument(String::from_str(DB_MISSING))),
            Some(ScriptValue::Object { class: ObjectClass::Db(db), entries }) => Ok(
                Collection { name, db: db.duplicate() },
            ),
            Some(_) => Err(Error::InvalidArgument(String::from_str(INVALID_ARGUMENT))),
        }
    }

    /// The class's method table: the two queries and the two inserts, one argument each.
    pub fn init() -> (bindings: Vec<MethodBinding>)
        ensures
            bindings_model(bindings@) == collection_methods(),
    {
        let mut bindings: Vec<MethodBinding> = Vec::new();
        bindings.push(binding(FIND, 1, NativeMethod::Find));
        bindings.push(binding(FIND_ONE, 1, NativeMethod::FindOne));
        bindings.push(binding(INSERT_ONE, 1, NativeMethod::InsertOne));
        bindings.push(binding(INSERT_MANY, 1, NativeMethod::InsertMany));
        assert(bindings_model(bindings@) =~= collection_methods());
        bindings
    }
}

/// What `new ObjectId(arg)` makes when the argument is not absent: the identifier that a
/// string spells, or why there is none. `None` stands for a fresh identifier.
pub open spec fn object_id_constructed(args: Seq<ScriptModel>) -> Option<
    Result<Seq<u8>, ErrorModel>,
> {
    if args.len() == 0 {
        None
    } else {
        match args[0] {
            ScriptModel::Undefined => None,
            ScriptModel::String(text) => match parsed_object_id(text) {
                Some(bytes) => Some(Ok(bytes)),
                None => Some(Err(ErrorModel::InvalidArgument(object_id_parse_error(text)))),
            },
            _ => Some(Err(ErrorModel::InvalidArgument(OBJECT_ID_ARGUMENT@))),
        }
    }
}

/// What `toString` and `toJSON` of a document id give.
pub open spec fn object_id_text(this: ScriptModel) -> Result<ScriptModel, ErrorModel> {
    match this {
        ScriptModel::DocumentId(bytes) => Ok(ScriptModel::String(hex_text(bytes))),
        _ => Err(ErrorModel::InvalidArgument(TO_STRING_FAILED@)),
    }
}

/// What `timestamp` of a document id gives.
pub open spec fn object_id_date(this: ScriptModel) -> Result<ScriptModel, ErrorModel> {
    match this {
        ScriptModel::DocumentId(bytes) => Ok(ScriptModel::Date(creation_millis(bytes) as i64)),
        _ => Err(ErrorModel::InvalidArgument(TIMESTAMP_FAILED@)),
    }
}

impl JsObjectId {
    /// Builds the document id from the constructor's arguments. No argument, or
    /// `undefined`, gives a fresh identifier; a string gives the identifier it spells in
    /// twenty-four hexadecimal digits, or fails; anything else fails.
    pub fn data_constructor(args: &Vec<ScriptValue>) -> (result: Result<JsObjectId, Error>)
        ensures
            match object_id_constructed(script_args_model(args@)) {
                None => result is Ok && result->Ok_0@.len() == 12,
                Some(Ok(bytes)) => result is Ok && result->Ok_0@ == bytes,
                Some(Err(error)) => result is Err && result->Err_0@ == error,
            },
    {
        if args.len() == 0 {
            return Ok(JsObjectId::new(None));
        }
        match &args[0] {
            ScriptValue::Undefined => Ok(JsObjectId::new(None)),
            ScriptValue::String(text) => match JsObjectId::parse(text.as_str()) {
                Ok(id) => Ok(id),
                Err(message) => Err(Error::InvalidArgument(message)),
            },
            _ => Err(Error::InvalidArgument(String::from_str(OBJECT_ID_ARGUMENT))),
        }
    }

    /// `toString()` and `toJSON()`: the canonical hexadecimal form, as a script string.
    pub fn to_string(this: &ScriptValue) -> (result: Result<ScriptValue, Error>)
        ensures
            match result {
                Ok(value) => object_id_text(this@) == Ok::<ScriptModel, ErrorModel>(value@),
                Err(error) => object_id_text(this@) == Err::<ScriptModel, ErrorModel>(error@),
            },
    {
        match this {
            ScriptValue::DocumentId(bytes) => Ok(
                ScriptValue::String(JsObjectId::new(Some(*bytes)).to_std_string()),
            ),
            _ => Err(Error::InvalidArgument(String::from_str(TO_STRING_FAILED))),
        }
    }

    /// `timestamp()`: the creation instant that the identifier carries, as a date.
    pub fn timestamp(this: &ScriptValue) -> (result: Result<ScriptValue, Error>)
        ensures
            match result {
                Ok(value) => object_id_date(this@) == Ok::<ScriptModel, ErrorModel>(value@),
                Err(error) => object_id_date(this@) == Err::<ScriptModel, ErrorModel>(error@),
            },
    {
        match this {
            ScriptValue::DocumentId(bytes) => Ok(
                ScriptValue::Date(JsObjectId::new(Some(*bytes)).timestamp_millis()),
            ),
            _ => Err(Error::InvalidArgument(String::from_str(TIMESTAMP_FAILED))),
        }
    }

    /// The class's method table: `toString`, `timestamp` and `toJSON`, without arguments.
    pub fn init() -> (bindings: Vec<MethodBinding>)
        ensures
            bindings_model(bindings@) == object_id_methods(),
    {
        let mut bindings: Vec<MethodBinding> = Vec::new();
        bindings.push(binding(TO_STRING, 0, NativeMethod::ToString));
        bindings.push(binding(TIMESTAMP, 0, NativeMethod::Timestamp));
        bindings.push(binding(TO_JSON, 0, NativeMethod::ToString));
        assert(bindings_model(bindings@) =~= object_id_methods());
        bindings
    }
}

/// The arguments of a call as mathematics.
pub open spec fn script_args_model(args: Seq<ScriptValue>) -> Seq<ScriptModel> {
    Seq::new(args.len(), |i: int| args[i]@)
}

} // verus!
