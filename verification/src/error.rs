//! The kinds of failure, and how each is shown to a caller.

use vstd::prelude::*;
use vstd::string::StringExecFns;

verus! {

/// Why an invocation ended without a result.
#[derive(Debug, PartialEq, Eq)]
pub enum Error {
    /// The caller's input is malformed.
    InvalidArgument(String),
    /// The connection id is not in the registry.
    ClientNotFound,
    /// The script text is not a program.
    ScriptParseError(String),
    /// The script threw; the message renders what it threw.
    ScriptRuntimeError(String),
    /// A value has no counterpart on the other side of the bridge.
    ConversionError(String),
    /// The driver refused or failed; the message is the driver's own.
    DatabaseOperationError(String),
    /// The record store of saved connections failed.
    PersistenceError(String),
}

/// An `Error` with its message as a sequence of characters.
pub enum ErrorModel {
    InvalidArgument(Seq<char>),
    ClientNotFound,
    ScriptParseError(Seq<char>),
    ScriptRuntimeError(Seq<char>),
    ConversionError(Seq<char>),
    DatabaseOperationError(Seq<char>),
    PersistenceError(Seq<char>),
}

impl View for Error {
    type V = ErrorModel;

    open spec fn view(&self) -> ErrorModel {
        match self {
            Error::InvalidArgument(m) => ErrorModel::InvalidArgument(m@),
            Error::ClientNotFound => ErrorModel::ClientNotFound,
            Error::ScriptParseError(m) => ErrorModel::ScriptParseError(m@),
            Error::ScriptRuntimeError(m) => ErrorModel::ScriptRuntimeError(m@),
            Error::ConversionError(m) => ErrorModel::ConversionError(m@),
            Error::DatabaseOperationError(m) => ErrorModel::DatabaseOperationError(m@),
            Error::PersistenceError(m) => ErrorModel::PersistenceError(m@),
        }
    }
}

pub const INVALID_ARGUMENT_PREFIX: &'static str = "Invalid Argument: ";

pub const CLIENT_NOT_FOUND_TEXT: &'static str = "Invalid Argument: client not found";

pub const CLIENT_NOT_INITIALIZED: &'static str = "client not intialized";

pub const DATABASE_PREFIX: &'static str = "Mongo Error: ";

pub const PERSISTENCE_PREFIX: &'static str = "Sqlite Error: ";

impl ErrorModel {
    /// What a script reads when the error is thrown at it: the bare message, without the
    /// prefix of its kind.
    pub open spec fn detail(self) -> Seq<char> {
        match self {
            ErrorModel::InvalidArgument(m) => m,
            ErrorModel::ClientNotFound => CLIENT_NOT_INITIALIZED@,
            ErrorModel::ScriptParseError(m) => m,
            ErrorModel::ScriptRuntimeError(m) => m,
            ErrorModel::ConversionError(m) => m,
            ErrorModel::DatabaseOperationError(m) => m,
            ErrorModel::PersistenceError(m) => m,
        }
    }

    /// The line shown to the caller: the message, behind the prefix of its kind where it has one.
    pub open spec fn message(self) -> Seq<char> {
        match self {
            ErrorModel::InvalidArgument(m) => INVALID_ARGUMENT_PREFIX@ + m,
            ErrorModel::ClientNotFound => CLIENT_NOT_FOUND_TEXT@,
            ErrorModel::ScriptParseError(m) => m,
            ErrorModel::ScriptRuntimeError(m) => m,
            ErrorModel::ConversionError(m) => m,
            ErrorModel::DatabaseOperationError(m) => DATABASE_PREFIX@ + m,
            ErrorModel::PersistenceError(m) => PERSISTENCE_PREFIX@ + m,
        }
    }
}

impl Error {
    /// A copy with the same kind and message.
    pub fn duplicate(&self) -> (copy: Error)
        ensures
            copy@ == self@,
    {
        match self {
            Error::InvalidArgument(m) => Error::InvalidArgument(m.clone()),
            Error::ClientNotFound => Error::ClientNotFound,
            Error::ScriptParseError(m) => Error::ScriptParseError(m.clone()),
            Error::ScriptRuntimeError(m) => Error::ScriptRuntimeError(m.clone()),
            Error::ConversionError(m) => Error::ConversionError(m.clone()),
            Error::DatabaseOperationError(m) => Error::DatabaseOperationError(m.clone()),
            Error::PersistenceError(m) => Error::PersistenceError(m.clone()),
        }
    }

    /// The message that an exception carries when the error is thrown inside a script.
    pub fn detail(&self) -> (text: String)
        ensures
            text@ == self@.detail(),
    {
        match self {
            Error::InvalidArgument(m) => m.clone(),
            Error::ClientNotFound => String::from_str(CLIENT_NOT_INITIALIZED),
            Error::ScriptParseError(m) => m.clone(),
            Error::ScriptRuntimeError(m) => m.clone(),
            Error::ConversionError(m) => m.clone(),
            Error::DatabaseOperationError(m) => m.clone(),
            Error::PersistenceError(m) => m.clone(),
        }
    }

    /// Renders the error as the one line that crosses the invocation boundary.
    pub fn message(&self) -> (text: String)
        ensures
            text@ == self@.message(),
    {
        match self {
            Error::InvalidArgument(m) => String::from_str(INVALID_ARGUMENT_PREFIX).concat(
                m.as_str(),
            ),
            Error::ClientNotFound => String::from_str(CLIENT_NOT_FOUND_TEXT),
            Error::ScriptParseError(m) => m.clone(),
            Error::ScriptRuntimeError(m) => m.clone(),
            Error::ConversionError(m) => m.clone(),
            Error::DatabaseOperationError(m) => String::from_str(DATABASE_PREFIX).concat(
                m.as_str(),
            ),
            Error::PersistenceError(m) => String::from_str(PERSISTENCE_PREFIX).concat(m.as_str()),
        }
    }
}

} // verus!
