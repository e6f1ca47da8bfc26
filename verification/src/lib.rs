//! Age in whole years from a birthday and a reference date, both resolved
//! from layered settings: a configuration file first, command-line arguments
//! on top of it.

pub mod config;
pub mod context;
pub mod date;
pub mod error;
pub mod format;
pub mod specifier;
pub mod verbosity;
pub mod year;
