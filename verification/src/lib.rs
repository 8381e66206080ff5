//! Persistence of a small user-preferences document (a colour theme, a
//! timezone and a display toggle) as one JSON file.
//!
//! The crate holds the rules of the file: how a document is written as a JSON
//! value, when a JSON value is accepted as a document, and how a value that is
//! not accepted is still read field by field. Reading and writing the file
//! itself is left to the caller.
//!
//! - [`store`]: the two operations, [`store::save_settings`] and
//!   [`store::load_settings`], and the messages of their failures.
//! - [`settings`]: the document and its schema.
//! - [`json`]: JSON values as trees.
//! - [`json_text`]: JSON text, read and written by `serde_json`.

pub mod json;
pub mod json_text;
pub mod settings;
pub mod store;
