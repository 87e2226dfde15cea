//! Serialization of tree-shaped data values into flat `key=value` URL
//! parameter strings.
//!
//! A value is described by the [`Value`] data model: scalars, strings,
//! optionals, sequences, tuples, maps and records. The driver functions
//! [`to_string`], [`to_vec`] and [`to_writer`] walk such a value depth-first
//! with a [`Serializer`] and emit `&`-joined `key=value` pairs,
//! percent-encoding string values on the way (a space encodes as `+`).
//! Shapes that a flat parameter list cannot express are rejected with
//! [`Error::Unsupported`]: a bare top-level scalar, a record nested inside a
//! field, and a map key that is not a string or a character. Elements of a
//! sequence become repeated `key=value` pairs under the field's key, and
//! newtype wrappers and enum variant wrappers are flattened away. Keys are
//! written verbatim, without encoding.
//!
//! What one pass emits, pair for pair, is stated by [`value::ser_value`];
//! [`laws`] holds the properties proved of it.

pub mod encode;
pub mod error;
pub mod laws;
pub mod ser;
pub mod text;
pub mod value;

pub use error::Error;
pub use ser::Serializer;
pub use ser::StringOnlySerializer;
pub use ser::to_string;
pub use ser::to_vec;
pub use ser::to_writer;
pub use value::SerOutcome;
pub use value::SerState;
pub use value::Value;
