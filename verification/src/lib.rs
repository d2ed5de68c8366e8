//! A sandboxed scripting host: executes script code against an in-memory
//! parsed document and exposes a minimal browser-like global environment,
//! a no-op diagnostic surface (`console`) and a single-element query surface
//! (`document.querySelector`).

pub mod doc_state;
pub mod engine;
pub mod errors;
pub mod host;
pub mod json;
pub mod markup;
pub mod query;
