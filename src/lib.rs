//! Policy and formatting logic for flattening a source tree into one
//! Markdown document: which entries are pruned, which files are embedded,
//! and the exact text of each emitted section.
pub mod cli;
pub mod entry;
pub mod policy;
pub mod text;
pub mod writer;
