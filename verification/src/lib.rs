//! Conversion of a document's front matter from the `---`-delimited YAML
//! dialect to the `+++`-delimited TOML dialect.
//!
//! The pipeline runs in five stages: a line scanner splits the input into a
//! metadata block and a content block; the metadata block is decoded into a
//! source record with four required text fields and a residual map; the
//! record is converted to the target schema (the `date` text becomes a typed
//! calendar value, `subtitle` becomes `description`); the target record is
//! re-encoded as TOML; and the final document is assembled between `+++`
//! markers, followed by the untouched content block.

pub mod datetime;
pub mod convert;
pub mod decode;
pub mod document;
pub mod encode;
pub mod values;
pub mod scanner;
