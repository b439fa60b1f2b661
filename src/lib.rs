//! Types of the Language Server Protocol, with a verified JSON codec.
//!
//! Every protocol value has a model, a canonical JSON image of that model, and
//! a statement of which JSON documents decode to which model (see
//! [`json::JsonCodec`]). The encoders and decoders are proved against those
//! statements, and [`laws`] states the round-trip properties that follow.

pub mod json;
pub mod uri;
pub mod pascal;
pub mod error_codes;
pub mod kinds;
pub mod tags;
pub mod basic;
pub mod workspace_edit;
pub mod capabilities;
pub mod code_action;
pub mod protocol;
pub mod symbols;
pub mod commands;
pub mod constructors;
pub mod conversions;
pub mod laws;

pub use crate::json::{DecodeError, JVal, Json, JsonCodec};
pub use crate::uri::Uri;
