use mongoui::bridge::{BYTES_UNSUPPORTED, CODE_UNSUPPORTED};
use mongoui::classes::INVALID_ARGUMENT;
use mongoui::collection::{
    DriverOperation, DriverRequest, FIND_ARGUMENT_MISSING, INSERT_ARGUMENT_MISSING, INVALID_ARGS,
    INVALID_THIS,
};
use mongoui::document::DocumentValue;
use mongoui::error::Error;
use mongoui::registry::{ClientRegistry, SyncClientEntry};
use mongoui::script::{Collection, Db, ObjectClass, ScriptValue};

fn text(s: &str) -> String {
    s.to_string()
}

fn registry() -> ClientRegistry<u32> {
    let mut registry = ClientRegistry::new();
    assert!(registry.register(SyncClientEntry { client: 1, id: text("c1") }).is_none());
    registry
}

fn users_on(client_id: &str) -> ScriptValue {
    ScriptValue::Object {
        class: ObjectClass::Collection(Collection {
            name: text("users"),
            db: Db { name: text("shop"), client_id: text(client_id) },
        }),
        entries: vec![],
    }
}

fn object(entries: Vec<(String, ScriptValue)>) -> ScriptValue {
    ScriptValue::Object { class: ObjectClass::Plain, entries }
}

fn name_a() -> ScriptValue {
    object(vec![(text("name"), ScriptValue::String(text("a")))])
}

fn name_a_document() -> Vec<(String, DocumentValue)> {
    vec![(text("name"), DocumentValue::String(text("a")))]
}

fn request(operation: DriverOperation) -> DriverRequest {
    DriverRequest {
        client_id: text("c1"),
        database: text("shop"),
        collection: text("users"),
        operation,
    }
}

type Method =
    fn(&ScriptValue, &Vec<ScriptValue>, &ClientRegistry<u32>) -> Result<DriverRequest, Error>;

fn methods() -> Vec<Method> {
    vec![Collection::find, Collection::find_one, Collection::insert_one, Collection::insert_many]
}

fn valid_argument(index: usize) -> ScriptValue {
    if index == 3 {
        ScriptValue::Array(vec![name_a()])
    } else {
        name_a()
    }
}

#[test]
fn find_asks_the_driver_with_the_converted_filter() {
    let result = Collection::find(&users_on("c1"), &vec![name_a()], &registry()).unwrap();
    assert_eq!(result, request(DriverOperation::Find(name_a_document())));
}

#[test]
fn find_with_empty_filter() {
    let result = Collection::find(&users_on("c1"), &vec![object(vec![])], &registry()).unwrap();
    assert_eq!(result, request(DriverOperation::Find(vec![])));
}

#[test]
fn find_one_asks_the_driver_with_the_converted_filter() {
    let id = [7u8; 12];
    let filter = object(vec![(text("_id"), ScriptValue::DocumentId(id))]);
    let result = Collection::find_one(&users_on("c1"), &vec![filter], &registry()).unwrap();
    assert_eq!(
        result,
        request(DriverOperation::FindOne(vec![(text("_id"), DocumentValue::ObjectId(id))]))
    );
}

#[test]
fn insert_one_asks_the_driver_with_the_converted_document() {
    let result = Collection::insert_one(&users_on("c1"), &vec![name_a()], &registry()).unwrap();
    assert_eq!(result, request(DriverOperation::InsertOne(name_a_document())));
}

#[test]
fn insert_many_asks_the_driver_with_every_document_in_order() {
    let docs = ScriptValue::Array(vec![
        name_a(),
        object(vec![]),
        object(vec![(text("n"), ScriptValue::Integer(3))]),
    ]);
    let result = Collection::insert_many(&users_on("c1"), &vec![docs], &registry()).unwrap();
    assert_eq!(
        result,
        request(DriverOperation::InsertMany(vec![
            name_a_document(),
            vec![],
            vec![(text("n"), DocumentValue::Int32(3))],
        ]))
    );
    let none = Collection::insert_many(
        &users_on("c1"),
        &vec![ScriptValue::Array(vec![])],
        &registry(),
    )
    .unwrap();
    assert_eq!(none, request(DriverOperation::InsertMany(vec![])));
}

#[test]
fn missing_argument_is_invalid_argument() {
    let expected = [
        FIND_ARGUMENT_MISSING,
        FIND_ARGUMENT_MISSING,
        INSERT_ARGUMENT_MISSING,
        INSERT_ARGUMENT_MISSING,
    ];
    for (method, message) in methods().iter().zip(expected.iter()) {
        assert_eq!(
            method(&users_on("c1"), &vec![], &registry()).unwrap_err(),
            Error::InvalidArgument(text(message))
        );
    }
}

#[test]
fn argument_of_the_wrong_shape_is_conversion_error() {
    let expected = [INVALID_ARGS, INVALID_ARGS, INVALID_ARGUMENT, INVALID_ARGUMENT];
    for (method, message) in methods().iter().zip(expected.iter()) {
        assert_eq!(
            method(&users_on("c1"), &vec![ScriptValue::Integer(1)], &registry()).unwrap_err(),
            Error::ConversionError(text(message))
        );
    }
    assert_eq!(
        Collection::find(&users_on("c1"), &vec![ScriptValue::Array(vec![])], &registry())
            .unwrap_err(),
        Error::ConversionError(text(INVALID_ARGS))
    );
    assert_eq!(
        Collection::insert_many(&users_on("c1"), &vec![name_a()], &registry()).unwrap_err(),
        Error::ConversionError(text(INVALID_ARGUMENT))
    );
}

#[test]
fn insert_many_checks_every_item_before_anything_is_sent() {
    let docs = ScriptValue::Array(vec![name_a(), ScriptValue::Integer(1), name_a()]);
    assert_eq!(
        Collection::insert_many(&users_on("c1"), &vec![docs], &registry()).unwrap_err(),
        Error::ConversionError(text(INVALID_ARGUMENT))
    );
    let last_bad = ScriptValue::Array(vec![name_a(), name_a(), ScriptValue::Null]);
    assert_eq!(
        Collection::insert_many(&users_on("c1"), &vec![last_bad], &registry()).unwrap_err(),
        Error::ConversionError(text(INVALID_ARGUMENT))
    );
}

#[test]
fn argument_that_does_not_convert_is_conversion_error() {
    let raw = object(vec![(text("raw"), ScriptValue::Bytes(vec![1]))]);
    assert_eq!(
        Collection::find(&users_on("c1"), &vec![raw], &registry()).unwrap_err(),
        Error::ConversionError(text(BYTES_UNSUPPORTED))
    );
    let mixed = ScriptValue::Array(vec![ScriptValue::Integer(1), ScriptValue::Bytes(vec![])]);
    assert_eq!(
        Collection::insert_many(&users_on("c1"), &vec![mixed], &registry()).unwrap_err(),
        Error::ConversionError(text(BYTES_UNSUPPORTED))
    );
}

#[test]
fn receiver_that_is_no_collection_is_invalid_argument() {
    let expected = [INVALID_THIS, INVALID_THIS, INVALID_ARGUMENT, INVALID_ARGUMENT];
    for (index, (method, message)) in methods().iter().zip(expected.iter()).enumerate() {
        assert_eq!(
            method(&ScriptValue::Null, &vec![valid_argument(index)], &registry()).unwrap_err(),
            Error::InvalidArgument(text(message))
        );
        assert_eq!(
            method(&object(vec![]), &vec![valid_argument(index)], &registry()).unwrap_err(),
            Error::InvalidArgument(text(message))
        );
    }
}

#[test]
fn unregistered_connection_is_client_not_found() {
    for (index, method) in methods().iter().enumerate() {
        assert_eq!(
            method(&users_on("gone"), &vec![valid_argument(index)], &registry()).unwrap_err(),
            Error::ClientNotFound
        );
        let empty: ClientRegistry<u32> = ClientRegistry::new();
        assert_eq!(
            method(&users_on("c1"), &vec![valid_argument(index)], &empty).unwrap_err(),
            Error::ClientNotFound
        );
    }
}

#[test]
fn connection_is_resolved_at_each_call() {
    let mut registry: ClientRegistry<u32> = ClientRegistry::new();
    let collection = users_on("late");
    assert_eq!(
        Collection::find(&collection, &vec![name_a()], &registry).unwrap_err(),
        Error::ClientNotFound
    );
    assert!(registry.register(SyncClientEntry { client: 5, id: text("late") }).is_none());
    assert!(Collection::find(&collection, &vec![name_a()], &registry).is_ok());
}

#[test]
fn find_reply_has_one_value_for_each_document_in_order() {
    let documents = vec![
        vec![(text("n"), DocumentValue::Int32(1))],
        vec![],
        vec![(text("n"), DocumentValue::Int32(3)), (text("m"), DocumentValue::Null)],
    ];
    assert_eq!(
        Collection::find_reply(Ok(documents)).unwrap(),
        ScriptValue::Array(vec![
            object(vec![(text("n"), ScriptValue::Integer(1))]),
            object(vec![]),
            object(vec![(text("n"), ScriptValue::Integer(3)), (text("m"), ScriptValue::Null)]),
        ])
    );
    assert_eq!(Collection::find_reply(Ok(vec![])).unwrap(), ScriptValue::Array(vec![]));
}

#[test]
fn find_reply_fails_on_a_document_that_does_not_convert() {
    let documents = vec![vec![], vec![(text("f"), DocumentValue::JavaScriptCode(text("1")))]];
    assert_eq!(
        Collection::find_reply(Ok(documents)).unwrap_err(),
        Error::ConversionError(text(CODE_UNSUPPORTED))
    );
}

#[test]
fn driver_failure_is_database_operation_error_with_its_message() {
    let expected = Error::DatabaseOperationError(text("connection refused"));
    assert_eq!(Collection::find_reply(Err(text("connection refused"))).unwrap_err(), expected);
    assert_eq!(Collection::find_one_reply(Err(text("connection refused"))).unwrap_err(), expected);
    assert_eq!(
        Collection::insert_one_reply(Err(text("connection refused"))).unwrap_err(),
        expected
    );
    assert_eq!(
        Collection::insert_many_reply(Err(text("connection refused"))).unwrap_err(),
        expected
    );
}

#[test]
fn find_one_reply_without_match_is_null() {
    assert_eq!(Collection::find_one_reply(Ok(None)).unwrap(), ScriptValue::Null);
}

#[test]
fn find_one_reply_converts_the_document() {
    let id = [9u8; 12];
    let document =
        vec![(text("a"), DocumentValue::Int32(1)), (text("_id"), DocumentValue::ObjectId(id))];
    assert_eq!(
        Collection::find_one_reply(Ok(Some(document))).unwrap(),
        object(vec![
            (text("a"), ScriptValue::Integer(1)),
            (text("_id"), ScriptValue::DocumentId(id)),
        ])
    );
}

#[test]
fn insert_one_reply_acknowledges_with_the_id() {
    let id = [3u8; 12];
    assert_eq!(
        Collection::insert_one_reply(Ok(DocumentValue::ObjectId(id))).unwrap(),
        object(vec![
            (text("acknowledged"), ScriptValue::Boolean(true)),
            (text("insertedId"), ScriptValue::DocumentId(id)),
        ])
    );
    assert_eq!(
        Collection::insert_one_reply(Ok(DocumentValue::String(text("own")))).unwrap(),
        object(vec![
            (text("acknowledged"), ScriptValue::Boolean(true)),
            (text("insertedId"), ScriptValue::String(text("own"))),
        ])
    );
}

fn acknowledged_many(ids: Vec<ScriptValue>) -> ScriptValue {
    object(vec![
        (text("acknowledged"), ScriptValue::Boolean(true)),
        (text("insertedIds"), ScriptValue::Array(ids)),
    ])
}

#[test]
fn insert_many_reply_acknowledges_with_the_ids_in_order() {
    let reports = vec![(0, DocumentValue::ObjectId([1u8; 12])), (1, DocumentValue::Int32(5))];
    assert_eq!(
        Collection::insert_many_reply(Ok(reports)).unwrap(),
        acknowledged_many(vec![ScriptValue::DocumentId([1u8; 12]), ScriptValue::Integer(5)])
    );
    assert_eq!(Collection::insert_many_reply(Ok(vec![])).unwrap(), acknowledged_many(vec![]));
}

#[test]
fn insert_many_reply_follows_the_batch_whatever_the_order_of_the_reports() {
    let reports = vec![
        (2, DocumentValue::Int32(30)),
        (0, DocumentValue::Int32(10)),
        (3, DocumentValue::Int32(40)),
        (1, DocumentValue::Int32(20)),
    ];
    assert_eq!(
        Collection::insert_many_reply(Ok(reports)).unwrap(),
        acknowledged_many(vec![
            ScriptValue::Integer(10),
            ScriptValue::Integer(20),
            ScriptValue::Integer(30),
            ScriptValue::Integer(40),
        ])
    );
}

#[test]
fn insert_many_reply_keeps_reports_that_leave_a_place_out_as_they_came() {
    let reports = vec![(5, DocumentValue::Int32(1)), (0, DocumentValue::Int32(2))];
    assert_eq!(
        Collection::insert_many_reply(Ok(reports)).unwrap(),
        acknowledged_many(vec![ScriptValue::Integer(1), ScriptValue::Integer(2)])
    );
    let twice = vec![(0, DocumentValue::Int32(1)), (0, DocumentValue::Int32(2))];
    assert_eq!(
        Collection::insert_many_reply(Ok(twice)).unwrap(),
        acknowledged_many(vec![ScriptValue::Integer(1), ScriptValue::Integer(2)])
    );
}

#[test]
fn insert_many_reply_fails_on_an_id_that_does_not_convert() {
    let reports =
        vec![(1, DocumentValue::JavaScriptCode(text("1"))), (0, DocumentValue::Int32(2))];
    assert_eq!(
        Collection::insert_many_reply(Ok(reports)).unwrap_err(),
        Error::ConversionError(text(CODE_UNSUPPORTED))
    );
}

#[test]
fn insert_then_find_returns_the_inserted_document() {
    let registry = registry();
    let users = users_on("c1");
    let mut stored: Vec<Vec<(String, DocumentValue)>> = vec![];
    let generated = [0x65u8, 1, 2, 3, 4, 5, 6, 7, 8, 9, 10, 11];

    let insert = Collection::insert_one(&users, &vec![name_a()], &registry).unwrap();
    let inserted_id = match insert.operation {
        DriverOperation::InsertOne(mut document) => {
            document.push((text("_id"), DocumentValue::ObjectId(generated)));
            stored.push(document);
            DocumentValue::ObjectId(generated)
        }
        _ => panic!("insertOne must ask for an insert"),
    };
    let acknowledged = Collection::insert_one_reply(Ok(inserted_id)).unwrap();
    assert_eq!(
        acknowledged,
        object(vec![
            (text("acknowledged"), ScriptValue::Boolean(true)),
            (text("insertedId"), ScriptValue::DocumentId(generated)),
        ])
    );

    let find = Collection::find(&users, &vec![name_a()], &registry).unwrap();
    let matching = match find.operation {
        DriverOperation::Find(filter) => stored
            .into_iter()
            .filter(|document| filter.iter().all(|entry| document.contains(entry)))
            .collect::<Vec<_>>(),
        _ => panic!("find must ask for a query"),
    };
    let found = Collection::find_reply(Ok(matching)).unwrap();
    assert_eq!(
        found,
        ScriptValue::Array(vec![object(vec![
            (text("name"), ScriptValue::String(text("a"))),
            (text("_id"), ScriptValue::DocumentId(generated)),
        ])])
    );
}

#[test]
fn insert_one_then_find_one_by_the_inserted_id() {
    let registry = registry();
    let users = users_on("c1");
    let generated = mongoui::object_id::JsObjectId::new(None).into_inner();
    let document = object(vec![(text("a"), ScriptValue::Integer(1))]);

    let insert = Collection::insert_one(&users, &vec![document], &registry).unwrap();
    let mut stored = match insert.operation {
        DriverOperation::InsertOne(document) => document,
        _ => panic!("insertOne must ask for an insert"),
    };
    stored.push((text("_id"), DocumentValue::ObjectId(generated)));
    let acknowledged =
        Collection::insert_one_reply(Ok(DocumentValue::ObjectId(generated))).unwrap();
    let inserted_id = match acknowledged {
        ScriptValue::Object { entries, .. } => {
            assert_eq!(entries.len(), 2);
            assert_eq!(entries[0], (text("acknowledged"), ScriptValue::Boolean(true)));
            assert_eq!(entries[1].0, "insertedId");
            match &entries[1].1 {
                ScriptValue::DocumentId(bytes) => *bytes,
                _ => panic!("insertedId must be a document id"),
            }
        }
        _ => panic!("the acknowledgement must be an object"),
    };
    let rendered = mongoui::object_id::JsObjectId::to_string(&ScriptValue::DocumentId(inserted_id));
    match rendered.unwrap() {
        ScriptValue::String(hex) => {
            assert_eq!(hex.len(), 24);
            assert!(hex.chars().all(|c| c.is_ascii_hexdigit()));
        }
        _ => panic!("toString must give a string"),
    }

    let filter = object(vec![(text("_id"), ScriptValue::DocumentId(inserted_id))]);
    let find = Collection::find_one(&users, &vec![filter], &registry).unwrap();
    let matched = match find.operation {
        DriverOperation::FindOne(filter) => {
            if filter.iter().all(|entry| stored.contains(entry)) {
                Some(stored)
            } else {
                None
            }
        }
        _ => panic!("findOne must ask for a query"),
    };
    assert_eq!(
        Collection::find_one_reply(Ok(matched)).unwrap(),
        object(vec![
            (text("a"), ScriptValue::Integer(1)),
            (text("_id"), ScriptValue::DocumentId(inserted_id)),
        ])
    );
}
