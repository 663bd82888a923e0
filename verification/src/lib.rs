//! Renders the declarations that bind a record of a native library: which
//! wrapper manages its memory, what stands around the wrapper, and which
//! guards keep a declaration to the versions that have it.

pub mod analysis;
pub mod codegen;
pub mod env;
pub mod nameutil;
pub mod version;
pub mod writer;
