//! Attribute-driven schema synthesis for GraphQL input objects.
//!
//! The crate turns a plain-value description of an annotated record type into
//! a resolved implementation-block model: it parses the recognized annotation
//! group, resolves effective names, descriptions and default policies, and
//! emits one fragment per field for each of the three generated capability
//! implementations (metadata registration, deserialization, serialization).

pub mod attrs;
pub mod emit;
pub mod eval;
pub mod laws;
pub mod model;
pub mod text;

pub use text::{is_valid_name, to_camel_case};
