//! Management of Linux kernel modules.
//!
//! The crate resolves a user-supplied module specifier (an absolute path, a
//! bare name, or a name qualified by a kernel release) to an on-disk module
//! artifact, drives that artifact through load/unload/query operations
//! against the running kernel, and lays the results out as terminal tables
//! whose widths are negotiated against the terminal width.

pub mod aggregate;
pub mod errors;
pub mod kernel;
pub mod layout;
pub mod lifecycle;
pub mod ops;
pub mod params;
pub mod render;
pub mod resolve;
pub mod text;
pub mod views;
