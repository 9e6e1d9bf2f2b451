//! Heuristic detection of unwanted client modifications inside archive files.
pub mod text;
pub mod signature;
pub mod archive;
pub mod detector;
pub mod defaults;
pub mod scan;
pub mod fields;
pub mod sync;
pub mod scanner;
