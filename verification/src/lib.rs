//! Filters for a concurrent file finder: which directory entries are kept,
//! how accepted entries travel from the traversal workers to the single
//! writer, and when a worker stops.

pub mod args;
pub mod channel;
pub mod entry;
pub mod error;
pub mod filetype;
pub mod filter;
pub mod glob;
pub mod interrupt;
pub mod pipeline;
pub mod regex;
pub mod walk;
pub mod worker;
pub mod writer;
