//! Lenient decoding of the forum's JSON documents into typed records.
//!
//! The remote service encodes the same field in several ways: a count may be
//! a number or a numeric string, a flag may be a boolean, `0`/`1` or
//! `"0"`/`"1"`, and a nested list may arrive as JSON text inside a string.
//! This crate turns such documents into canonical records, reports every
//! malformed field as a typed error, and proves what each decoder returns.
//!
//! - [`wire`] holds documents as they arrive, [`json_text`] reads them from
//!   text, and [`error`] names what can go wrong.
//! - [`scalar`] normalizes one value into a canonical integer or flag, with
//!   [`decimal`] for integers written as text.
//! - [`envelope`] unwraps a payload that may be wrapped in a string, and
//!   [`list`] decodes arrays.
//! - [`field`] looks keys up and decodes single fields; [`forum`],
//!   [`thread`] and [`cookie`] declare the records.
//! - [`encode`] writes canonical values back, and [`request`] decides what a
//!   request to the service holds.
//! - [`model`] holds the views that the contracts of the decoders speak of.

pub mod cookie;
pub mod decimal;
pub mod encode;
pub mod envelope;
pub mod error;
pub mod field;
pub mod forum;
pub mod json_text;
pub mod list;
pub mod model;
pub mod request;
pub mod scalar;
pub mod thread;
pub mod wire;
