//! The data substrate of a package-manager client: the dependency
//! lock file's typed model, the container for PHP's shape-ambiguous
//! arrays, the platform directory resolver and the immutable
//! configuration snapshot.
//!
//! Every decode and encode between the schema and the JSON document
//! model is verified; only the step between JSON text and that model
//! is delegated to an outside crate, behind stated assumptions.

pub mod config;
pub mod dirs;
pub mod json;
pub mod lock_file;
pub mod paths;
pub mod php_array;
pub mod text;
