//! Weather lookups for a shell pipeline.
//!
//! The crate turns invocation parameters into a request URL, reads the JSON
//! document the weather service answers with, and reshapes each reading into a
//! display record: local date and time, the condition with its glyph, and the
//! temperatures as received. Fetching the document and floating-point
//! arithmetic are left to the caller.

pub mod condition;
pub mod error;
pub mod json;
pub mod local_time;
pub mod model;
pub mod normalize;
pub mod parse;
pub mod plugin;
pub mod request;
pub mod text;
