//! Metadata of the package under build, as the build tool reports it.
//!
//! The library plans the call of `cargo metadata`, decodes what the tool
//! prints into typed records, and narrows the result to one package of a
//! workspace. Running the tool is left to the caller: one of the four
//! operations gives a [`Query`], which says what to run, and
//! [`Query::conclude`] takes back what was printed.
//!
//! - [`model`] holds the records and their mathematical views.
//! - [`schema`] says, as functions on JSON documents, what a document
//!   decodes to and what a record encodes to.
//! - [`decode`] and [`encode`] hold the functions that do so on JSON values.
//! - [`gateway`] holds the operations, the queries and the narrowing.
//! - [`laws`] holds what is proved of all documents: the round trip,
//!   forward compatibility, and what narrowing keeps.
//! - [`json`] and [`host`] hold the calls into `serde_json` and the standard
//!   library that are taken on trust.

pub mod decode;
pub mod encode;
pub mod gateway;
pub mod host;
pub mod json;
pub mod laws;
pub mod model;
pub mod schema;

pub use decode::DecodeError;
pub use gateway::{
    cargo_metadata, cargo_metadata_for, crate_metadata, crate_metadata_for, tool_arguments,
    tool_program, Ambient, Invocation, MetadataError, Query, Variable,
};
pub use json::Json;
pub use model::{CargoMetadata, Package, PackageView, RootView, Target, TargetView};
pub use schema::{Field, SchemaError};
