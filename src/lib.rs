//! Classification and rendering engine of a directory lister: icons and
//! colors for file system entries, permission strings, filtering, sorting
//! and the rows of inline and detailed listings.

pub mod beautify;
pub mod cli;
pub mod config;
pub mod entry;
pub mod errors;
pub mod list;
pub mod text;
