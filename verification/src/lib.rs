//! A bridge between scripts and a document database.
//!
//! Scripts are written against an object-style interface (`db.getCollection(..).find(..)`)
//! and run in an embedded engine. This library holds what such a run decides, over plain
//! values: the conversion between document values and script values, the registry of open
//! connections, the classes that scripts see, the steps of one invocation, and the
//! statements of the store of saved connections. It does no input or output of its own:
//! whoever embeds it performs the driver's calls and the engine's evaluation and hands the
//! outcomes back.

pub mod bridge;
pub mod classes;
pub mod collection;
pub mod db;
pub mod document;
pub mod error;
pub mod host;
pub mod object_id;
pub mod registry;
pub mod script;
