//! Extraction of one named context from a cluster-access configuration that
//! holds many.
//!
//! A configuration is a YAML document with three collections, `contexts`,
//! `clusters` and `users`, whose entries bear names. A context names a
//! cluster and a user. The library finds a context by its name, then the
//! cluster and the user that it names, and writes a reduced document that
//! holds these three records and nothing else. It also lists the names of
//! the contexts of a configuration.

pub mod command;
pub mod error;
pub mod extract;
pub mod laws;
pub mod locate;
pub mod paths;
pub mod project;
pub mod records;
pub mod text;
pub mod tree;
pub mod yaml;

pub use command::{run, Outcome};
pub use error::{ConfigError, Field, RecordKind};
pub use extract::{extract, listing, listing_text, render, resolve};
pub use locate::{find_cluster, find_context, find_user, list_contexts};
pub use paths::{config_path, export_line, output_path};
pub use project::projection_text;
pub use records::{AuthProvider, Cluster, Context, Credentials, Selection, User};
pub use tree::Node;
pub use yaml::{canonical_text, parse_document};
