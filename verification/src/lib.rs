//! Helper invocation and structured-data query subsystem for a text-template
//! rendering engine.
//!
//! The crate provides the format decoder, path query evaluator, scalar codec,
//! parameter validator and helper registry that back the template helpers;
//! the surrounding engine resolves helper names and evaluates nested calls
//! innermost-first, so every helper here is a pure function from already
//! evaluated arguments to a value or a typed error.

pub mod codec;
pub mod decode;
pub mod error;
pub mod helpers;
pub mod path;
pub mod query;
pub mod registry;
pub mod strings;
pub mod validate;
pub mod text;
pub mod value;

pub use error::FormatTag;
pub use error::HelperError;
pub use value::StructuredValue;
