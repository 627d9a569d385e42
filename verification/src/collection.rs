//! The collection's methods: what each asks of the driver, and what each hands back to the
//! script once the driver has answered.

use crate::bridge::{
    bson_to_js, document_to_js, js_to_bson, script_convertible, script_of, to_document,
    to_script,
};
use crate::classes::{as_collection, script_args_model, INVALID_ARGUMENT};
use crate::document::{
    entries_model, items_model, lemma_array_view, lemma_document_view, DocumentModel,
    DocumentValue,
};
use crate::error::{Error, ErrorModel};
use crate::registry::{has_id, ClientRegistry};
use crate::script::{
    lemma_script_array_view, lemma_script_object_view, script_entries_model,
    script_items_model, Collection,
    CollectionModel, ObjectClass, ObjectClassModel, ScriptModel, ScriptValue,
};
use vstd::prelude::*;
use vstd::string::StringExecFns;

verus! {

/// What the driver is asked to do on a collection.
#[derive(Debug, PartialEq, Eq)]
pub enum DriverOperation {
    Find(Vec<(String, DocumentValue)>),
    FindOne(Vec<(String, DocumentValue)>),
    InsertOne(Vec<(String, DocumentValue)>),
    InsertMany(Vec<Vec<(String, DocumentValue)>>),
}

/// One call of the driver: the connection, by its id in the registry, the database, the
/// collection and the operation.
#[derive(Debug, PartialEq, Eq)]
pub struct DriverRequest {
    pub client_id: String,
    pub database: String,
    pub collection: String,
    pub operation: DriverOperation,
}

pub enum OperationModel {
    Find(Seq<(Seq<char>, DocumentModel)>),
    FindOne(Seq<(Seq<char>, DocumentModel)>),
    InsertOne(Seq<(Seq<char>, DocumentModel)>),
    InsertMany(Seq<Seq<(Seq<char>, DocumentModel)>>),
}

pub struct RequestModel {
    pub client_id: Seq<char>,
    pub database: Seq<char>,
    pub collection: Seq<char>,
    pub operation: OperationModel,
}

/// A list of documents as mathematics.
pub open spec fn documents_model(documents: Seq<Vec<(String, DocumentValue)>>) -> Seq<
    Seq<(Seq<char>, DocumentModel)>,
> {
    Seq::new(documents.len(), |i: int| entries_model(documents[i]@))
}

impl View for DriverOperation {
    type V = OperationModel;

    open spec fn view(&self) -> OperationModel {
        match self {
            DriverOperation::Find(filter) => OperationModel::Find(entries_model(filter@)),
            DriverOperation::FindOne(filter) => OperationModel::FindOne(entries_model(filter@)),
            DriverOperation::InsertOne(document) => OperationModel::InsertOne(
                entries_model(document@),
            ),
            DriverOperation::InsertMany(documents) => OperationModel::InsertMany(
                documents_model(documents@),
            ),
        }
    }
}

impl View for DriverRequest {
    type V = RequestModel;

    open spec fn view(&self) -> RequestModel {
        RequestModel {
            client_id: self.client_id@,
            database: self.database@,
            collection: self.collection@,
            operation: self.operation@,
        }
    }
}

pub const FIND_ARGUMENT_MISSING: &'static str = "find requires an argument";

pub const INSERT_ARGUMENT_MISSING: &'static str = "insert_one requires an argument";

pub const INVALID_ARGS: &'static str = "invalid args";

pub const INVALID_THIS: &'static str = "invalid this";

pub const ACKNOWLEDGED: &'static str = "acknowledged";

pub const INSERTED_ID: &'static str = "insertedId";

pub const INSERTED_IDS: &'static str = "insertedIds";

/// The first argument as a document: it must be there, convert, and convert to a document.
pub open spec fn document_argument(
    args: Seq<ScriptModel>,
    missing: Seq<char>,
    invalid: Seq<char>,
) -> Result<Seq<(Seq<char>, DocumentModel)>, ErrorModel> {
    if args.len() == 0 {
        Err(ErrorModel::InvalidArgument(missing))
    } else {
        match to_document(args[0]) {
            Err(error) => Err(error),
            Ok(DocumentModel::Document(entries)) => Ok(entries),
            Ok(_) => Err(ErrorModel::ConversionError(invalid)),
        }
    }
}

/// Every item is a document.
pub open spec fn all_documents(items: Seq<DocumentModel>) -> bool {
    forall|i: int| 0 <= i < items.len() ==> (#[trigger] items[i]) is Document
}

/// The first argument as a list of documents: it must be there, convert, and convert to an
/// array whose every item is a document.
pub open spec fn documents_argument(
    args: Seq<ScriptModel>,
    missing: Seq<char>,
    invalid: Seq<char>,
) -> Result<Seq<Seq<(Seq<char>, DocumentModel)>>, ErrorModel> {
    if args.len() == 0 {
        Err(ErrorModel::InvalidArgument(missing))
    } else {
        match to_document(args[0]) {
            Err(error) => Err(error),
            Ok(DocumentModel::Array(items)) => if all_documents(items) {
                Ok(Seq::new(items.len(), |i: int| items[i]->Document_0))
            } else {
                Err(ErrorModel::ConversionError(invalid))
            },
            Ok(_) => Err(ErrorModel::ConversionError(invalid)),
        }
    }
}

/// The collection that a method was called on, with its connection looked up in the
/// registry at the time of the call.
pub open spec fn resolved<C>(
    this: ScriptModel,
    invalid_this: Seq<char>,
    registry: Seq<(Seq<char>, C)>,
) -> Result<CollectionModel, ErrorModel> {
    match as_collection(this) {
        None => Err(ErrorModel::InvalidArgument(invalid_this)),
        Some(collection) => if has_id(registry, collection.db.client_id) {
            Ok(collection)
        } else {
            Err(ErrorModel::ClientNotFound)
        },
    }
}

/// The request for an operation on a collection.
pub open spec fn request_on(collection: CollectionModel, operation: OperationModel) -> RequestModel {
    RequestModel {
        client_id: collection.db.client_id,
        database: collection.db.name,
        collection: collection.name,
        operation,
    }
}

/// What `find(filter)` asks of the driver.
pub open spec fn find_request<C>(
    this: ScriptModel,
    args: Seq<ScriptModel>,
    registry: Seq<(Seq<char>, C)>,
) -> Result<RequestModel, ErrorModel> {
    match document_argument(args, FIND_ARGUMENT_MISSING@, INVALID_ARGS@) {
        Err(error) => Err(error),
        Ok(filter) => match resolved(this, INVALID_THIS@, registry) {
            Err(error) => Err(error),
            Ok(collection) => Ok(request_on(collection, OperationModel::Find(filter))),
        },
    }
}

/// What `findOne(filter)` asks of the driver.
pub open spec fn find_one_request<C>(
    this: ScriptModel,
    args: Seq<ScriptModel>,
    registry: Seq<(Seq<char>, C)>,
) -> Result<RequestModel, ErrorModel> {
    match document_argument(args, FIND_ARGUMENT_MISSING@, INVALID_ARGS@) {
        Err(error) => Err(error),
        Ok(filter) => match resolved(this, INVALID_THIS@, registry) {
            Err(error) => Err(error),
            Ok(collection) => Ok(request_on(collection, OperationModel::FindOne(filter))),
        },
    }
}

/// What `insertOne(doc)` asks of the driver.
pub open spec fn insert_one_request<C>(
    this: ScriptModel,
    args: Seq<ScriptModel>,
    registry: Seq<(Seq<char>, C)>,
) -> Result<RequestModel, ErrorModel> {
    match document_argument(args, INSERT_ARGUMENT_MISSING@, INVALID_ARGUMENT@) {
        Err(error) => Err(error),
        Ok(document) => match resolved(this, INVALID_ARGUMENT@, registry) {
            Err(error) => Err(error),
            Ok(collection) => Ok(request_on(collection, OperationModel::InsertOne(document))),
        },
    }
}

/// What `insertMany(docs)` asks of the driver.
pub open spec fn insert_many_request<C>(
    this: ScriptModel,
    args: Seq<ScriptModel>,
    registry: Seq<(Seq<char>, C)>,
) -> Result<RequestModel, ErrorModel> {
    match documents_argument(args, INSERT_ARGUMENT_MISSING@, INVALID_ARGUMENT@) {
        Err(error) => Err(error),
        Ok(documents) => match resolved(this, INVALID_ARGUMENT@, registry) {
            Err(error) => Err(error),
            Ok(collection) => Ok(request_on(collection, OperationModel::InsertMany(documents))),
        },
    }
}

fn take_document(args: &Vec<ScriptValue>, missing: &str, invalid: &str) -> (result: Result<
    Vec<(String, DocumentValue)>,
    Error,
>)
    ensures
        match result {
            Ok(entries) => document_argument(script_args_model(args@), missing@, invalid@) == Ok::<
                Seq<(Seq<char>, DocumentModel)>,
                ErrorModel,
            >(entries_model(entries@)),
            Err(error) => document_argument(script_args_model(args@), missing@, invalid@) == Err::<
                Seq<(Seq<char>, DocumentModel)>,
                ErrorModel,
            >(error@),
        },
{
    if args.len() == 0 {
        return Err(Error::InvalidArgument(String::from_str(missing)));
    }
    match js_to_bson(&args[0]) {
        Err(error) => Err(error),
        Ok(DocumentValue::Document(entries)) => {
            proof {
                lemma_document_view(entries);
            }
            Ok(entries)
        },
        Ok(_) => Err(Error::ConversionError(String::from_str(invalid))),
    }
}

/// Moves the documents out of a list of values, or says that one of them is no document.
fn into_documents(items: Vec<DocumentValue>) -> (result: Option<Vec<Vec<(String, DocumentValue)>>>)
    ensures
        match result {
            Some(documents) => all_documents(items_model(items@)) && documents_model(documents@)
                == Seq::new(items@.len(), |i: int| items@[i]@->Document_0),
            None => !all_documents(items_model(items@)),
        },
{
    let ghost source = items@;
    let ghost n = items@.len() as int;
    let mut rest = items;
    let mut reversed: Vec<Vec<(String, DocumentValue)>> = Vec::new();
    while rest.len() > 0
        invariant
            source == items@,
            n == source.len(),
            rest@ == source.take(rest.len() as int),
            reversed.len() + rest.len() == n,
            forall|j: int|
                0 <= j < reversed.len() ==> (#[trigger] source[n - 1 - j])@ is Document
                    && entries_model(reversed@[j]@) == source[n - 1 - j]@->Document_0,
        decreases rest.len(),
    {
        let ghost k = rest.len() - 1;
        match rest.pop() {
            Some(DocumentValue::Document(entries)) => {
                proof {
                    lemma_document_view(entries);
                    assert(source[k] == DocumentValue::Document(entries));
                    assert(rest@ =~= source.take(rest.len() as int));
                }
                reversed.push(entries);
            },
            _ => {
                proof {
                    assert(!(source[k]@ is Document));
                    assert(0 <= k < items_model(source).len());
                    assert(!(items_model(source)[k] is Document));
                    assert(!all_documents(items_model(source)));
                }
                return None;
            },
        }
    }
    let mut documents: Vec<Vec<(String, DocumentValue)>> = Vec::new();
    while reversed.len() > 0
        invariant
            n == source.len(),
            documents.len() + reversed.len() == n,
            forall|j: int|
                0 <= j < reversed.len() ==> (#[trigger] source[n - 1 - j])@ is Document
                    && entries_model(reversed@[j]@) == source[n - 1 - j]@->Document_0,
            forall|i: int|
                0 <= i < documents.len() ==> (#[trigger] source[i])@ is Document && entries_model(
                    documents@[i]@,
                ) == source[i]@->Document_0,
        decreases reversed.len(),
    {
        let ghost j = reversed.len() - 1;
        let ghost before = reversed@;
        match reversed.pop() {
            Some(entries) => {
                proof {
                    assert(entries == before[j]);
                    assert(source[n - 1 - j] == source[documents.len() as int]);
                    assert forall|m: int| 0 <= m < reversed.len() implies (
                    #[trigger] source[n - 1 - m])@ is Document && entries_model(reversed@[m]@)
                        == source[n - 1 - m]@->Document_0 by {
                        assert(reversed@[m] == before[m]);
                    }
                }
                documents.push(entries);
            },
            None => {},
        }
    }
    proof {
        assert forall|i: int| 0 <= i < n implies (#[trigger] items_model(source)[i]) is Document by {
            assert(source[i]@ is Document);
        }
        assert(documents_model(documents@) =~= Seq::new(
            source.len(),
            |i: int| source[i]@->Document_0,
        ));
    }
    Some(documents)
}

fn take_documents(args: &Vec<ScriptValue>, missing: &str, invalid: &str) -> (result: Result<
    Vec<Vec<(String, DocumentValue)>>,
    Error,
>)
    ensures
        match result {
            Ok(documents) => documents_argument(script_args_model(args@), missing@, invalid@)
                == Ok::<Seq<Seq<(Seq<char>, DocumentModel)>>, ErrorModel>(
                documents_model(documents@),
            ),
            Err(error) => documents_argument(script_args_model(args@), missing@, invalid@)
                == Err::<Seq<Seq<(Seq<char>, DocumentModel)>>, ErrorModel>(error@),
        },
{
    if args.len() == 0 {
        return Err(Error::InvalidArgument(String::from_str(missing)));
    }
    match js_to_bson(&args[0]) {
        Err(error) => Err(error),
        Ok(DocumentValue::Array(items)) => {
            proof {
                lemma_array_view(items);
            }
            let ghost source = items@;
            match into_documents(items) {
                Some(documents) => {
                    proof {
                        assert(documents_model(documents@) =~= Seq::new(
                            items_model(source).len(),
                            |i: int| items_model(source)[i]->Document_0,
                        ));
                    }
                    Ok(documents)
                },
                None => Err(Error::ConversionError(String::from_str(invalid))),
            }
        },
        Ok(_) => Err(Error::ConversionError(String::from_str(invalid))),
    }
}

fn resolve<C>(this: &ScriptValue, invalid_this: &str, registry: &ClientRegistry<C>) -> (result:
    Result<Collection, Error>)
    ensures
        match result {
            Ok(collection) => resolved(this@, invalid_this@, registry@) == Ok::<
                CollectionModel,
                ErrorModel,
            >(collection@),
            Err(error) => resolved(this@, invalid_this@, registry@) == Err::<
                CollectionModel,
                ErrorModel,
            >(error@),
        },
{
    match this {
        ScriptValue::Object { class: ObjectClass::Collection(collection), entries } => {
            if registry.contains(collection.db.client_id.as_str()) {
                Ok(collection.duplicate())
            } else {
                Err(Error::ClientNotFound)
            }
        },
        _ => Err(Error::InvalidArgument(String::from_str(invalid_this))),
    }
}

fn request(collection: Collection, operation: DriverOperation) -> (r: DriverRequest)
    ensures
        r@ == request_on(collection@, operation@),
{
    DriverRequest {
        client_id: collection.db.client_id,
        database: collection.db.name,
        collection: collection.name,
        operation,
    }
}

impl Collection {
    /// `find(filter)`: the argument is converted and must be a document; `this` must be a
    /// collection; its connection must be in the registry. Then the driver is to run the
    /// query.
    pub fn find<C>(this: &ScriptValue, args: &Vec<ScriptValue>, registry: &ClientRegistry<C>) -> (result:
        Result<DriverRequest, Error>)
        ensures
            match result {
                Ok(request) => find_request(this@, script_args_model(args@), registry@) == Ok::<
                    RequestModel,
                    ErrorModel,
                >(request@),
                Err(error) => find_request(this@, script_args_model(args@), registry@) == Err::<
                    RequestModel,
                    ErrorModel,
                >(error@),
            },
    {
        let filter = match take_document(args, FIND_ARGUMENT_MISSING, INVALID_ARGS) {
            Ok(filter) => filter,
            Err(error) => { return Err(error); },
        };
        match resolve(this, INVALID_THIS, registry) {
            Ok(collection) => Ok(request(collection, DriverOperation::Find(filter))),
            Err(error) => Err(error),
        }
    }

    /// `findOne(filter)`: checked as `find` is; the driver is to return at most one document.
    pub fn find_one<C>(
        this: &ScriptValue,
        args: &Vec<ScriptValue>,
        registry: &ClientRegistry<C>,
    ) -> (result: Result<DriverRequest, Error>)
        ensures
            match result {
                Ok(request) => find_one_request(this@, script_args_model(args@), registry@)
                    == Ok::<RequestModel, ErrorModel>(request@),
                Err(error) => find_one_request(this@, script_args_model(args@), registry@)
                    == Err::<RequestModel, ErrorModel>(error@),
            },
    {
        let filter = match take_document(args, FIND_ARGUMENT_MISSING, INVALID_ARGS) {
            Ok(filter) => filter,
            Err(error) => { return Err(error); },
        };
        match resolve(this, INVALID_THIS, registry) {
            Ok(collection) => Ok(request(collection, DriverOperation::FindOne(filter))),
            Err(error) => Err(error),
        }
    }

    /// `insertOne(doc)`: the argument is converted and must be a document; the driver is to
    /// insert it.
    pub fn insert_one<C>(
        this: &ScriptValue,
        args: &Vec<ScriptValue>,
        registry: &ClientRegistry<C>,
    ) -> (result: Result<DriverRequest, Error>)
        ensures
            match result {
                Ok(request) => insert_one_request(this@, script_args_model(args@), registry@)
                    == Ok::<RequestModel, ErrorModel>(request@),
                Err(error) => insert_one_request(this@, script_args_model(args@), registry@)
                    == Err::<RequestModel, ErrorModel>(error@),
            },
    {
        let document = match take_document(args, INSERT_ARGUMENT_MISSING, INVALID_ARGUMENT) {
            Ok(document) => document,
            Err(error) => { return Err(error); },
        };
        match resolve(this, INVALID_ARGUMENT, registry) {
            Ok(collection) => Ok(request(collection, DriverOperation::InsertOne(document))),
            Err(error) => Err(error),
        }
    }

    /// `insertMany(docs)`: the argument is converted and must be an array of documents,
    /// every item of it; only then is the driver to insert them, as one batch.
    pub fn insert_many<C>(
        this: &ScriptValue,
        args: &Vec<ScriptValue>,
        registry: &ClientRegistry<C>,
    ) -> (result: Result<DriverRequest, Error>)
        ensures
            match result {
                Ok(request) => insert_many_request(this@, script_args_model(args@), registry@)
                    == Ok::<RequestModel, ErrorModel>(request@),
                Err(error) => insert_many_request(this@, script_args_model(args@), registry@)
                    == Err::<RequestModel, ErrorModel>(error@),
            },
    {
        let documents = match take_documents(args, INSERT_ARGUMENT_MISSING, INVALID_ARGUMENT) {
            Ok(documents) => documents,
            Err(error) => { return Err(error); },
        };
        match resolve(this, INVALID_ARGUMENT, registry) {
            Ok(collection) => Ok(request(collection, DriverOperation::InsertMany(documents))),
            Err(error) => Err(error),
        }
    }
}

/// The documents of an answer as one array value.
pub open spec fn documents_list(documents: Seq<Seq<(Seq<char>, DocumentModel)>>) -> DocumentModel {
    DocumentModel::Array(
        Seq::new(documents.len(), |i: int| DocumentModel::Document(documents[i])),
    )
}

/// What `find` hands the script: the documents that the driver returned, converted, in the
/// driver's order; or the driver's failure.
pub open spec fn find_replied(
    outcome: Result<Seq<Seq<(Seq<char>, DocumentModel)>>, Seq<char>>,
) -> Result<ScriptModel, ErrorModel> {
    match outcome {
        Err(message) => Err(ErrorModel::DatabaseOperationError(message)),
        Ok(documents) => to_script(documents_list(documents)),
    }
}

/// What `findOne` hands the script: the document converted, null where none matched, or
/// the driver's failure.
pub open spec fn find_one_replied(
    outcome: Result<Option<Seq<(Seq<char>, DocumentModel)>>, Seq<char>>,
) -> Result<ScriptModel, ErrorModel> {
    match outcome {
        Err(message) => Err(ErrorModel::DatabaseOperationError(message)),
        Ok(None) => Ok(ScriptModel::Null),
        Ok(Some(document)) => to_script(DocumentModel::Document(document)),
    }
}

/// The acknowledgement of one insert, before conversion.
pub open spec fn inserted_one(id: DocumentModel) -> DocumentModel {
    DocumentModel::Document(
        seq![(ACKNOWLEDGED@, DocumentModel::Boolean(true)), (INSERTED_ID@, id)],
    )
}

/// The acknowledgement of a batch, before conversion.
pub open spec fn inserted_many(ids: Seq<DocumentModel>) -> DocumentModel {
    DocumentModel::Document(
        seq![
            (ACKNOWLEDGED@, DocumentModel::Boolean(true)),
            (INSERTED_IDS@, DocumentModel::Array(ids)),
        ],
    )
}

/// What `insertOne` hands the script: `{acknowledged: true, insertedId}` with the id that
/// the driver reported, or the driver's failure.
pub open spec fn insert_one_replied(outcome: Result<DocumentModel, Seq<char>>) -> Result<
    ScriptModel,
    ErrorModel,
> {
    match outcome {
        Err(message) => Err(ErrorModel::DatabaseOperationError(message)),
        Ok(id) => to_script(inserted_one(id)),
    }
}

/// The ids that the driver reported for a batch, each with the place of its document in
/// the batch, as mathematics.
pub open spec fn reports_model(reports: Seq<(usize, DocumentValue)>) -> Seq<
    (usize, DocumentModel),
> {
    Seq::new(reports.len(), |i: int| (reports[i].0, reports[i].1@))
}

/// The report at `j` is the first one for place `k`.
pub open spec fn first_report(reports: Seq<(usize, DocumentModel)>, k: int, j: int) -> bool {
    &&& 0 <= j < reports.len()
    &&& reports[j].0 == k
    &&& forall|i: int| 0 <= i < j ==> (#[trigger] reports[i]).0 != k
}

/// Some report is for place `k`.
pub open spec fn reported(reports: Seq<(usize, DocumentModel)>, k: int) -> bool {
    exists|j: int| first_report(reports, k, j)
}

/// Every place of the batch has a report.
pub open spec fn all_reported(reports: Seq<(usize, DocumentModel)>) -> bool {
    forall|k: int| 0 <= k < reports.len() ==> #[trigger] reported(reports, k)
}

/// The reported ids in the order of the batch: the id for the first document, then the id
/// for the second, and so on. Reports that do not cover every place are left in the order
/// in which they came.
pub open spec fn ids_in_order(reports: Seq<(usize, DocumentModel)>) -> Seq<DocumentModel> {
    if all_reported(reports) {
        Seq::new(
            reports.len(),
            |k: int| reports[choose|j: int| first_report(reports, k, j)].1,
        )
    } else {
        Seq::new(reports.len(), |j: int| reports[j].1)
    }
}

/// What `insertMany` hands the script: `{acknowledged: true, insertedIds}` with the ids in
/// the order of the batch, or the driver's failure.
pub open spec fn insert_many_replied(
    outcome: Result<Seq<(usize, DocumentModel)>, Seq<char>>,
) -> Result<ScriptModel, ErrorModel> {
    match outcome {
        Err(message) => Err(ErrorModel::DatabaseOperationError(message)),
        Ok(reports) => to_script(inserted_many(ids_in_order(reports))),
    }
}

/// A place has at most one first report.
pub proof fn lemma_first_report_is_unique(
    reports: Seq<(usize, DocumentModel)>,
    k: int,
    a: int,
    b: int,
)
    requires
        first_report(reports, k, a),
        first_report(reports, k, b),
    ensures
        a == b,
{
    if a < b {
        assert(reports[a].0 != k);
    } else if b < a {
        assert(reports[b].0 != k);
    }
}

/// The places `0, 1, 2, ..` below `n`.
fn given_order(n: usize) -> (order: Vec<usize>)
    ensures
        order.len() == n,
        forall|i: int| 0 <= i < n ==> order@[i] == i,
{
    let mut order: Vec<usize> = Vec::new();
    let mut i: usize = 0;
    while i < n
        invariant
            i <= n,
            order.len() == i,
            forall|m: int| 0 <= m < i ==> order@[m] == m,
        decreases n - i,
    {
        order.push(i);
        i += 1;
    }
    order
}

/// For each place of the batch, where its id stands among the reports.
fn report_order(reports: &Vec<(usize, DocumentValue)>) -> (order: Vec<usize>)
    ensures
        order.len() == reports.len(),
        forall|k: int|
            0 <= k < order.len() ==> 0 <= #[trigger] order@[k] < reports.len() && ids_in_order(
                reports_model(reports@),
            )[k] == reports@[order@[k] as int].1@,
{
    let ghost model = reports_model(reports@);
    let n = reports.len();
    let mut order: Vec<usize> = Vec::new();
    let mut k: usize = 0;
    while k < n
        invariant
            k <= n,
            n == reports.len(),
            model == reports_model(reports@),
            order.len() == k,
            forall|m: int| 0 <= m < k ==> first_report(model, m, #[trigger] order@[m] as int),
        decreases n - k,
    {
        let mut j: usize = 0;
        while j < n && reports[j].0 != k
            invariant
                j <= n,
                n == reports.len(),
                model == reports_model(reports@),
                forall|i: int| 0 <= i < j ==> (#[trigger] model[i]).0 != k,
            decreases n - j,
        {
            assert(model[j as int].0 == reports@[j as int].0);
            j += 1;
        }
        if j == n {
            proof {
                assert forall|c: int| !first_report(model, k as int, c) by {
                    if 0 <= c < n {
                        assert(model[c].0 != k);
                    }
                }
                assert(!reported(model, k as int));
                assert(!all_reported(model));
            }
            let order = given_order(n);
            proof {
                assert forall|m: int| 0 <= m < order.len() implies 0 <= #[trigger] order@[m]
                    < reports.len() && ids_in_order(model)[m] == reports@[order@[m] as int].1@ by {
                    assert(model[m].1 == reports@[m].1@);
                }
            }
            return order;
        }
        assert(model[j as int].0 == reports@[j as int].0);
        order.push(j);
        k += 1;
    }
    proof {
        assert forall|m: int| 0 <= m < n implies #[trigger] reported(model, m) by {
            assert(first_report(model, m, order@[m] as int));
        }
        assert(all_reported(model));
        assert forall|m: int| 0 <= m < order.len() implies 0 <= #[trigger] order@[m]
            < reports.len() && ids_in_order(model)[m] == reports@[order@[m] as int].1@ by {
            assert(first_report(model, m, order@[m] as int));
            let c = choose|j: int| first_report(model, m, j);
            lemma_first_report_is_unique(model, m, c, order@[m] as int);
            assert(model[order@[m] as int].1 == reports@[order@[m] as int].1@);
        }
    }
    order
}

impl Collection {
    /// Finishes `find` with the driver's answer. On success the script gets an array with
    /// one converted document for each document of the answer, in the same order.
    pub fn find_reply(outcome: Result<Vec<Vec<(String, DocumentValue)>>, String>) -> (result:
        Result<ScriptValue, Error>)
        ensures
            match outcome {
                Ok(documents) => match result {
                    Ok(value) => find_replied(Ok(documents_model(documents@))) == Ok::<
                        ScriptModel,
                        ErrorModel,
                    >(value@) && value@ is Array && value@->Array_0.len() == documents.len(),
                    Err(error) => find_replied(Ok(documents_model(documents@))) == Err::<
                        ScriptModel,
                        ErrorModel,
                    >(error@),
                },
                Err(message) => result is Err && result->Err_0@
                    == ErrorModel::DatabaseOperationError(message@),
            },
    {
        match outcome {
            Err(message) => Err(Error::DatabaseOperationError(message)),
            Ok(documents) => {
                let ghost list = documents_list(documents_model(documents@));
                let mut converted: Vec<ScriptValue> = Vec::new();
                let mut i: usize = 0;
                while i < documents.len()
                    invariant
                        i <= documents.len(),
                        converted.len() == i,
                        outcome == Ok::<Vec<Vec<(String, DocumentValue)>>, String>(documents),
                        list == documents_list(documents_model(documents@)),
                        forall|j: int|
                            0 <= j < i ==> script_convertible(
                                #[trigger] list->Array_0[j],
                            ) && converted@[j]@ == script_of(list->Array_0[j]),
                    decreases documents.len() - i,
                {
                    assert(list->Array_0[i as int] == DocumentModel::Document(
                        entries_model(documents@[i as int]@),
                    ));
                    match document_to_js(&documents[i]) {
                        Ok(value) => converted.push(value),
                        Err(error) => {
                            assert(!script_convertible(list->Array_0[i as int]));
                            assert(0 <= i < list->Array_0.len());
                            assert(!script_convertible(list));
                            return Err(error);
                        },
                    }
                    i += 1;
                }
                let value = ScriptValue::Array(converted);
                proof {
                    assert(value@->Array_0 =~= script_of(list)->Array_0);
                }
                Ok(value)
            },
        }
    }

    /// Finishes `findOne` with the driver's answer: no match is null, not a failure.
    pub fn find_one_reply(outcome: Result<Option<Vec<(String, DocumentValue)>>, String>) -> (result:
        Result<ScriptValue, Error>)
        ensures
            match outcome {
                Ok(Some(document)) => match result {
                    Ok(value) => find_one_replied(Ok(Some(entries_model(document@)))) == Ok::<
                        ScriptModel,
                        ErrorModel,
                    >(value@),
                    Err(error) => find_one_replied(Ok(Some(entries_model(document@)))) == Err::<
                        ScriptModel,
                        ErrorModel,
                    >(error@),
                },
                Ok(None) => result is Ok && result->Ok_0@ == ScriptModel::Null,
                Err(message) => result is Err && result->Err_0@
                    == ErrorModel::DatabaseOperationError(message@),
            },
    {
        match outcome {
            Err(message) => Err(Error::DatabaseOperationError(message)),
            Ok(None) => Ok(ScriptValue::Null),
            Ok(Some(document)) => document_to_js(&document),
        }
    }

    /// Finishes `insertOne` with the id that the driver reported for the new document.
    pub fn insert_one_reply(outcome: Result<DocumentValue, String>) -> (result: Result<
        ScriptValue,
        Error,
    >)
        ensures
            match outcome {
                Ok(id) => match result {
                    Ok(value) => insert_one_replied(Ok(id@)) == Ok::<ScriptModel, ErrorModel>(
                        value@,
                    ),
                    Err(error) => insert_one_replied(Ok(id@)) == Err::<ScriptModel, ErrorModel>(
                        error@,
                    ),
                },
                Err(message) => result is Err && result->Err_0@
                    == ErrorModel::DatabaseOperationError(message@),
            },
    {
        match outcome {
            Err(message) => Err(Error::DatabaseOperationError(message)),
            Ok(id) => {
                let ghost id_model = id@;
                let mut entries: Vec<(String, DocumentValue)> = Vec::new();
                entries.push((String::from_str(ACKNOWLEDGED), DocumentValue::Boolean(true)));
                entries.push((String::from_str(INSERTED_ID), id));
                assert(entries_model(entries@) =~= seq![
                    (ACKNOWLEDGED@, DocumentModel::Boolean(true)),
                    (INSERTED_ID@, id_model),
                ]);
                document_to_js(&entries)
            },
        }
    }

    /// Finishes `insertMany` with the ids that the driver reported, each with the place of
    /// its document in the batch. The script gets the ids in the order of the batch, in
    /// whatever order the reports came.
    pub fn insert_many_reply(outcome: Result<Vec<(usize, DocumentValue)>, String>) -> (result:
        Result<ScriptValue, Error>)
        ensures
            match outcome {
                Ok(reports) => match result {
                    Ok(value) => insert_many_replied(Ok(reports_model(reports@))) == Ok::<
                        ScriptModel,
                        ErrorModel,
                    >(value@),
                    Err(error) => insert_many_replied(Ok(reports_model(reports@))) == Err::<
                        ScriptModel,
                        ErrorModel,
                    >(error@),
                },
                Err(message) => result is Err && result->Err_0@
                    == ErrorModel::DatabaseOperationError(message@),
            },
    {
        match outcome {
            Err(message) => Err(Error::DatabaseOperationError(message)),
            Ok(reports) => {
                let ghost ids = ids_in_order(reports_model(reports@));
                let ghost listed = DocumentModel::Array(ids);
                let ghost whole = inserted_many(ids);
                let order = report_order(&reports);
                let mut converted: Vec<ScriptValue> = Vec::new();
                let mut k: usize = 0;
                while k < order.len()
                    invariant
                        k <= order.len(),
                        order.len() == reports.len(),
                        converted.len() == k,
                        outcome == Ok::<Vec<(usize, DocumentValue)>, String>(reports),
                        ids == ids_in_order(reports_model(reports@)),
                        listed == DocumentModel::Array(ids),
                        whole == inserted_many(ids),
                        ids.len() == reports.len(),
                        forall|m: int|
                            0 <= m < order.len() ==> 0 <= #[trigger] order@[m] < reports.len()
                                && ids[m] == reports@[order@[m] as int].1@,
                        forall|m: int|
                            0 <= m < k ==> script_convertible(#[trigger] ids[m]) && converted@[m]@
                                == script_of(ids[m]),
                    decreases order.len() - k,
                {
                    match bson_to_js(&reports[order[k]].1) {
                        Ok(value) => converted.push(value),
                        Err(error) => {
                            proof {
                                assert(!script_convertible(listed->Array_0[k as int]));
                                assert(0 <= k < listed->Array_0.len());
                                assert(!script_convertible(listed));
                                assert(whole->Document_0.len() == 2);
                                assert(whole->Document_0[1].1 == listed);
                                assert(!script_convertible(whole));
                            }
                            return Err(error);
                        },
                    }
                    k += 1;
                }
                let ghost items = converted@;
                let ghost array = ScriptValue::Array(converted);
                proof {
                    lemma_script_array_view(converted);
                }
                let mut entries: Vec<(String, ScriptValue)> = Vec::new();
                entries.push((String::from_str(ACKNOWLEDGED), ScriptValue::Boolean(true)));
                entries.push((String::from_str(INSERTED_IDS), ScriptValue::Array(converted)));
                let ghost pairs = script_entries_model(entries@);
                proof {
                    lemma_script_object_view(ObjectClass::Plain, entries);
                    assert(entries@[1].1 == array);
                    assert(pairs[0] == (ACKNOWLEDGED@, ScriptModel::Boolean(true)));
                    assert(pairs[1] == (INSERTED_IDS@, array@));
                }
                let value = ScriptValue::Object { class: ObjectClass::Plain, entries };
                proof {
                    assert forall|m: int| 0 <= m < ids.len() implies script_convertible(
                        #[trigger] listed->Array_0[m],
                    ) by {
                        assert(script_convertible(ids[m]));
                    }
                    assert(script_convertible(listed));
                    assert(script_items_model(items) =~= script_of(listed)->Array_0) by {
                        assert forall|m: int| 0 <= m < ids.len() implies script_items_model(
                            items,
                        )[m] == script_of(listed)->Array_0[m] by {
                            assert(script_convertible(ids[m]));
                        }
                    }
                    assert(whole->Document_0.len() == 2);
                    assert(whole->Document_0[0] == (ACKNOWLEDGED@, DocumentModel::Boolean(true)));
                    assert(whole->Document_0[1] == (INSERTED_IDS@, listed));
                    assert forall|m: int| 0 <= m < 2 implies script_convertible(
                        (#[trigger] whole->Document_0[m]).1,
                    ) by {}
                    assert(script_convertible(whole));
                    assert(script_of(listed) == ScriptModel::Array(script_items_model(items)));
                    assert(value@->Object_entries == pairs);
                    assert(script_of(DocumentModel::Boolean(true)) == ScriptModel::Boolean(true));
                    assert(pairs[0] == script_of(whole)->Object_entries[0]);
                    assert(pairs[1] == script_of(whole)->Object_entries[1]);
                    assert(pairs =~= script_of(whole)->Object_entries);
                }
                Ok(value)
            },
        }
    }
}

/// A method called on a collection whose connection is not registered fails with
/// `ClientNotFound` and with nothing else, once its argument has passed the method's own
/// checks.
pub proof fn lemma_unregistered_client_is_not_found<C>(
    this: ScriptModel,
    args: Seq<ScriptModel>,
    registry: Seq<(Seq<char>, C)>,
)
    requires
        as_collection(this) is Some,
        !has_id(registry, as_collection(this)->0.db.client_id),
    ensures
        document_argument(args, FIND_ARGUMENT_MISSING@, INVALID_ARGS@) is Ok ==> find_request(
            this,
            args,
            registry,
        ) == Err::<RequestModel, ErrorModel>(ErrorModel::ClientNotFound) && find_one_request(
            this,
            args,
            registry,
        ) == Err::<RequestModel, ErrorModel>(ErrorModel::ClientNotFound),
        document_argument(args, INSERT_ARGUMENT_MISSING@, INVALID_ARGUMENT@) is Ok
            ==> insert_one_request(this, args, registry) == Err::<RequestModel, ErrorModel>(
            ErrorModel::ClientNotFound,
        ),
        documents_argument(args, INSERT_ARGUMENT_MISSING@, INVALID_ARGUMENT@) is Ok
            ==> insert_many_request(this, args, registry) == Err::<RequestModel, ErrorModel>(
            ErrorModel::ClientNotFound,
        ),
{
}

/// An answer of `n` documents, all convertible, reaches the script as an array of exactly
/// `n` values, the `i`-th being the `i`-th document converted.
pub proof fn lemma_find_keeps_count_and_order(documents: Seq<Seq<(Seq<char>, DocumentModel)>>)
    requires
        find_replied(Ok(documents)) is Ok,
    ensures
        find_replied(Ok(documents))->Ok_0 is Array,
        find_replied(Ok(documents))->Ok_0->Array_0.len() == documents.len(),
        forall|i: int|
            0 <= i < documents.len() ==> to_script(DocumentModel::Document(documents[i])) == Ok::<
                ScriptModel,
                ErrorModel,
            >(#[trigger] find_replied(Ok(documents))->Ok_0->Array_0[i]),
{
    let list = documents_list(documents);
    assert forall|i: int| 0 <= i < documents.len() implies to_script(
        DocumentModel::Document(documents[i]),
    ) == Ok::<ScriptModel, ErrorModel>(#[trigger] find_replied(Ok(documents))->Ok_0->Array_0[i]) by {
        assert(script_convertible(list->Array_0[i]));
    }
}

/// Where every place of a batch has a report, the id at a place of the reply is the id of
/// the first report for that place, wherever that report stood.
pub proof fn lemma_ids_follow_the_batch(reports: Seq<(usize, DocumentModel)>, k: int, j: int)
    requires
        all_reported(reports),
        first_report(reports, k, j),
    ensures
        ids_in_order(reports).len() == reports.len(),
        0 <= k < reports.len() ==> ids_in_order(reports)[k] == reports[j].1,
{
    if 0 <= k < reports.len() {
        let c = choose|c: int| first_report(reports, k, c);
        lemma_first_report_is_unique(reports, k, c, j);
    }
}

/// The acknowledgement of one insert has exactly the keys `acknowledged` and `insertedId`,
/// in this order: `true`, and the reported id converted. A reported identifier reaches the
/// script as a document id.
pub proof fn lemma_insert_one_acknowledges(id: DocumentModel)
    requires
        script_convertible(id),
    ensures
        insert_one_replied(Ok(id)) == Ok::<ScriptModel, ErrorModel>(
            ScriptModel::Object {
                class: ObjectClassModel::Plain,
                entries: seq![
                    (ACKNOWLEDGED@, ScriptModel::Boolean(true)),
                    (INSERTED_ID@, script_of(id)),
                ],
            },
        ),
        id matches DocumentModel::ObjectId(bytes) ==> script_of(id) == ScriptModel::DocumentId(
            bytes,
        ),
{
    let whole = inserted_one(id);
    assert(whole->Document_0.len() == 2);
    assert(whole->Document_0[0] == (ACKNOWLEDGED@, DocumentModel::Boolean(true)));
    assert(whole->Document_0[1] == (INSERTED_ID@, id));
    assert forall|m: int| 0 <= m < 2 implies script_convertible(
        (#[trigger] whole->Document_0[m]).1,
    ) by {}
    assert(script_of(DocumentModel::Boolean(true)) == ScriptModel::Boolean(true));
    assert(script_of(whole)->Object_entries =~= seq![
        (ACKNOWLEDGED@, ScriptModel::Boolean(true)),
        (INSERTED_ID@, script_of(id)),
    ]);
}

/// A document that the driver returns reaches the script as a plain object with exactly
/// the document's keys, in the document's order, each value converted.
pub proof fn lemma_reply_keeps_keys(document: Seq<(Seq<char>, DocumentModel)>)
    requires
        find_one_replied(Ok(Some(document))) is Ok,
    ensures
        find_one_replied(Ok(Some(document)))->Ok_0 matches ScriptModel::Object { class, entries }
            && class == ObjectClassModel::Plain && entries.len() == document.len() && forall|
            i: int,
        |
            0 <= i < document.len() ==> (#[trigger] entries[i]).0 == document[i].0 && to_script(
                document[i].1,
            ) == Ok::<ScriptModel, ErrorModel>(entries[i].1),
{
    let whole = DocumentModel::Document(document);
    let entries = script_of(whole)->Object_entries;
    assert forall|i: int| 0 <= i < document.len() implies (#[trigger] entries[i]).0
        == document[i].0 && to_script(document[i].1) == Ok::<ScriptModel, ErrorModel>(
        entries[i].1,
    ) by {
        assert(script_convertible(whole->Document_0[i].1));
    }
}

} // verus!
