//! Orchestration of an F-Droid package repository.
//!
//! The library holds the logic of a repository: its directory layout, the
//! typed view of the generated package index, the split configuration file
//! and the lifecycle of every operation as a state machine whose actions the
//! caller performs against the file system and the external tools.
//!
//! No operation is safe to run concurrently on one repository root: callers
//! serialise access themselves.

pub mod aapt;
pub mod app;
pub mod category;
pub mod config;
pub mod error;
pub mod json;
pub mod lifecycle;
pub mod paths;

pub use json::JsonValue;
pub use category::Category;
pub use error::{Error, InvalidFile};
pub use app::{App, Package};
pub use paths::Repository;
pub use config::{Config, ConfigFile};
pub use lifecycle::{Action, EntryKind, Event, Session, Stage};
