//! Schema and decoder for versioned language-model requests.
//!
//! A request is a JSON document in one of two shapes: a multi-turn [`Chat`]
//! or a single-shot [`Completion`]. The decoder turns untrusted text into one
//! of these values or into a [`DecodeError`] that names the first defect by
//! its path inside the document.
//!
//! The text is parsed by `serde_json`; what this crate assumes of that crate
//! is gathered in [`json`]. Everything else is proved: [`request`] and
//! [`entity`] define what each document decodes to, field by field, and the
//! decoders are shown to compute exactly that; [`shape`] and [`laws`] say
//! which documents are accepted and what is read from them.

pub mod decode;
pub mod entity;
pub mod error;
pub mod field;
pub mod json;
pub mod laws;
pub mod path;
pub mod request;
pub mod schema;
pub mod shape;
pub mod validate;

pub use decode::Decode;
pub use error::DecodeError;
pub use json::JsonKind;
pub use request::{decode_chat, decode_completion};
pub use schema::{Chat, Completion, Function, FunctionCall, FunctionParameter, Message, Parameter};
