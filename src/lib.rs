//! Prepends a bulleted outline of a document's `#` headings to the document.
pub mod heading;
pub mod outline;
pub mod generator;
pub mod laws;

pub use generator::{GeneratorError, MarkDownTitleGenerator};
