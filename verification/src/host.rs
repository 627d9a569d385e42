//! The script execution host: one invocation, from a fresh context to its result.

use crate::bridge::{js_to_bson, to_document};
use crate::classes::{
    bindings_model, collection_methods, db_methods, object_id_methods, MethodBinding,
    NativeMethod, COLLECTION_CLASS, DB_CLASS, OBJECT_ID_CLASS,
};
use crate::document::{DocumentModel, DocumentValue};
use crate::error::{Error, ErrorModel};
use crate::object_id::JsObjectId;
use crate::registry::{has_id, ClientRegistry};
use crate::script::{Collection, Db, DbModel, ScriptModel, ScriptValue};
use vstd::prelude::*;
use vstd::string::StringExecFns;

verus! {

/// A class that the host registers as a global of every context.
#[derive(Debug, Clone, Copy, PartialEq, Eq, Structural)]
pub enum NativeClass {
    Db,
    Collection,
    ObjectId,
}

impl NativeClass {
    /// The name of the global: `Db`, `Collection` or `ObjectId`.
    pub open spec fn name_model(self) -> Seq<char> {
        match self {
            NativeClass::Db => DB_CLASS@,
            NativeClass::Collection => COLLECTION_CLASS@,
            NativeClass::ObjectId => OBJECT_ID_CLASS@,
        }
    }

    /// The name under which the class is registered.
    pub fn name(&self) -> (name: String)
        ensures
            name@ == self.name_model(),
    {
        match self {
            NativeClass::Db => String::from_str(DB_CLASS),
            NativeClass::Collection => String::from_str(COLLECTION_CLASS),
            NativeClass::ObjectId => String::from_str(OBJECT_ID_CLASS),
        }
    }

    /// The methods that the class offers.
    pub open spec fn methods_model(self) -> Seq<(Seq<char>, usize, NativeMethod)> {
        match self {
            NativeClass::Db => db_methods(),
            NativeClass::Collection => collection_methods(),
            NativeClass::ObjectId => object_id_methods(),
        }
    }

    /// The class's method table.
    pub fn methods(&self) -> (bindings: Vec<MethodBinding>)
        ensures
            bindings_model(bindings@) == self.methods_model(),
    {
        match self {
            NativeClass::Db => Db::init(),
            NativeClass::Collection => Collection::init(),
            NativeClass::ObjectId => JsObjectId::init(),
        }
    }
}

/// Where an invocation stands.
#[derive(Debug, PartialEq, Eq)]
pub enum HostState {
    /// A fresh context; the classes and the `db` global are still to be set up.
    Created { db: Db, script: String },
    /// The globals are in place; the script is still to run.
    Bootstrapped { script: String },
    /// The script ran to its final value, which is still to be converted.
    Evaluated { value: ScriptValue },
    /// The invocation returns this document value.
    Succeeded { result: DocumentValue },
    /// The invocation returns this error.
    Failed { error: Error },
}

/// What the engine reports back to the host.
#[derive(Debug, PartialEq, Eq)]
pub enum HostEvent {
    /// The classes are registered and `db` is defined.
    Bootstrapped,
    /// The engine refused to set the globals up.
    BootstrapFailed(String),
    /// The script ran to completion; this is the value of its last expression.
    Evaluated(ScriptValue),
    /// The script text is not a program.
    ParseFailed(String),
    /// The script threw and nothing caught it; the text renders what it threw.
    Thrown(String),
}

pub enum HostModel {
    Created { db: DbModel, script: Seq<char> },
    Bootstrapped { script: Seq<char> },
    Evaluated { value: ScriptModel },
    Succeeded { result: DocumentModel },
    Failed { error: ErrorModel },
}

pub enum EventModel {
    Bootstrapped,
    BootstrapFailed(Seq<char>),
    Evaluated(ScriptModel),
    ParseFailed(Seq<char>),
    Thrown(Seq<char>),
}

impl View for HostState {
    type V = HostModel;

    open spec fn view(&self) -> HostModel {
        match self {
            HostState::Created { db, script } => HostModel::Created { db: db@, script: script@ },
            HostState::Bootstrapped { script } => HostModel::Bootstrapped { script: script@ },
            HostState::Evaluated { value } => HostModel::Evaluated { value: value@ },
            HostState::Succeeded { result } => HostModel::Succeeded { result: result@ },
            HostState::Failed { error } => HostModel::Failed { error: error@ },
        }
    }
}

impl View for HostEvent {
    type V = EventModel;

    open spec fn view(&self) -> EventModel {
        match self {
            HostEvent::Bootstrapped => EventModel::Bootstrapped,
            HostEvent::BootstrapFailed(message) => EventModel::BootstrapFailed(message@),
            HostEvent::Evaluated(value) => EventModel::Evaluated(value@),
            HostEvent::ParseFailed(message) => EventModel::ParseFailed(message@),
            HostEvent::Thrown(message) => EventModel::Thrown(message@),
        }
    }
}

impl HostModel {
    /// The invocation is over.
    pub open spec fn is_terminal(self) -> bool {
        self is Succeeded || self is Failed
    }

    /// The state after an event. An event that the state does not wait for changes nothing.
    pub open spec fn after(self, event: EventModel) -> HostModel {
        match (self, event) {
            (HostModel::Created { db, script }, EventModel::Bootstrapped) => {
                HostModel::Bootstrapped { script }
            },
            (HostModel::Created { db, script }, EventModel::BootstrapFailed(message)) => {
                HostModel::Failed { error: ErrorModel::ScriptRuntimeError(message) }
            },
            (HostModel::Bootstrapped { script }, EventModel::Evaluated(value)) => {
                HostModel::Evaluated { value }
            },
            (HostModel::Bootstrapped { script }, EventModel::ParseFailed(message)) => {
                HostModel::Failed { error: ErrorModel::ScriptParseError(message) }
            },
            (HostModel::Bootstrapped { script }, EventModel::Thrown(message)) => {
                HostModel::Failed { error: ErrorModel::ScriptRuntimeError(message) }
            },
            (state, _) => state,
        }
    }

    /// The state after the host's own step: the final value is converted, and the
    /// invocation succeeds with the document value or fails with the conversion's error.
    /// Any other state stays.
    pub open spec fn converted(self) -> HostModel {
        match self {
            HostModel::Evaluated { value } => match to_document(value) {
                Ok(result) => HostModel::Succeeded { result },
                Err(error) => HostModel::Failed { error },
            },
            state => state,
        }
    }

    /// What the invocation returns, once it is over.
    pub open spec fn outcome(self) -> Option<Result<DocumentModel, ErrorModel>> {
        match self {
            HostModel::Succeeded { result } => Some(Ok(result)),
            HostModel::Failed { error } => Some(Err(error)),
            _ => None,
        }
    }
}

/// How an invocation starts: in `Created`, with the database that `db` will name, where the
/// connection is registered; not at all where it is not.
pub open spec fn started<C>(
    registry: Seq<(Seq<char>, C)>,
    client_id: Seq<char>,
    db_name: Seq<char>,
    script: Seq<char>,
) -> Result<HostModel, ErrorModel> {
    if has_id(registry, client_id) {
        Ok(HostModel::Created { db: DbModel { name: db_name, client_id }, script })
    } else {
        Err(ErrorModel::ClientNotFound)
    }
}

/// The classes that every context gets, in the order of their registration.
pub fn native_classes() -> (classes: Vec<NativeClass>)
    ensures
        classes@ == seq![NativeClass::Db, NativeClass::Collection, NativeClass::ObjectId],
{
    let mut classes: Vec<NativeClass> = Vec::new();
    classes.push(NativeClass::Db);
    classes.push(NativeClass::Collection);
    classes.push(NativeClass::ObjectId);
    assert(classes@ =~= seq![NativeClass::Db, NativeClass::Collection, NativeClass::ObjectId]);
    classes
}

/// Starts an invocation of a script against a database of a registered connection. Every
/// invocation gets a state of its own; nothing is kept from one to the next.
pub fn exec_script<C>(
    registry: &ClientRegistry<C>,
    client_id: String,
    db_name: String,
    script: String,
) -> (result: Result<HostState, Error>)
    ensures
        match result {
            Ok(state) => started(registry@, client_id@, db_name@, script@) == Ok::<
                HostModel,
                ErrorModel,
            >(state@),
            Err(error) => started(registry@, client_id@, db_name@, script@) == Err::<
                HostModel,
                ErrorModel,
            >(error@),
        },
{
    if registry.contains(client_id.as_str()) {
        Ok(HostState::Created { db: Db { name: db_name, client_id }, script })
    } else {
        Err(Error::ClientNotFound)
    }
}

impl HostState {
    /// Takes what the engine reports and moves on.
    pub fn step(self, event: HostEvent) -> (next: HostState)
        ensures
            next@ == self@.after(event@),
    {
        match (self, event) {
            (HostState::Created { db, script }, HostEvent::Bootstrapped) => {
                HostState::Bootstrapped { script }
            },
            (HostState::Created { db, script }, HostEvent::BootstrapFailed(message)) => {
                HostState::Failed { error: Error::ScriptRuntimeError(message) }
            },
            (HostState::Bootstrapped { script }, HostEvent::Evaluated(value)) => {
                HostState::Evaluated { value }
            },
            (HostState::Bootstrapped { script }, HostEvent::ParseFailed(message)) => {
                HostState::Failed { error: Error::ScriptParseError(message) }
            },
            (HostState::Bootstrapped { script }, HostEvent::Thrown(message)) => {
                HostState::Failed { error: Error::ScriptRuntimeError(message) }
            },
            (state, _) => state,
        }
    }

    /// Converts the script's final value and ends the invocation.
    pub fn convert(self) -> (next: HostState)
        ensures
            next@ == self@.converted(),
    {
        match self {
            HostState::Evaluated { value } => match js_to_bson(&value) {
                Ok(result) => HostState::Succeeded { result },
                Err(error) => HostState::Failed { error },
            },
            state => state,
        }
    }

    /// What the invocation returns, once it is over; nothing before.
    pub fn into_outcome(self) -> (outcome: Option<Result<DocumentValue, Error>>)
        ensures
            match outcome {
                Some(Ok(result)) => self@.outcome() == Some(
                    Ok::<DocumentModel, ErrorModel>(result@),
                ),
                Some(Err(error)) => self@.outcome() == Some(
                    Err::<DocumentModel, ErrorModel>(error@),
                ),
                None => self@.outcome() is None,
            },
    {
        match self {
            HostState::Succeeded { result } => Some(Ok(result)),
            HostState::Failed { error } => Some(Err(error)),
            _ => None,
        }
    }
}

/// Once an invocation is over, no event and no conversion changes what it returns.
pub proof fn lemma_terminal_states_stay(state: HostModel, event: EventModel)
    requires
        state.is_terminal(),
    ensures
        state.after(event) == state,
        state.converted() == state,
{
}

/// An invocation succeeds only along one path: bootstrapped, then evaluated to a value that
/// converts; and then it returns that value's document.
pub proof fn lemma_success_path(db: DbModel, script: Seq<char>, value: ScriptModel)
    ensures
        (HostModel::Created { db, script }).after(EventModel::Bootstrapped).after(
            EventModel::Evaluated(value),
        ).converted().outcome() == match to_document(value) {
            Ok(result) => Some(Ok::<DocumentModel, ErrorModel>(result)),
            Err(error) => Some(Err::<DocumentModel, ErrorModel>(error)),
        },
{
}

} // verus!
