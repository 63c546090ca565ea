//! Looks a configuration value up in two places, in a fixed order: the
//! environment of the running process first, a `.env` file second.
//!
//! The library holds the rules of that lookup and proves them with Verus. It
//! reads neither the environment nor any file: the caller asks each source and
//! hands over what the source answered for the key, `Some(value)` where it
//! holds the key and `None` where it does not.
//!
//! A lookup goes in three moves:
//! 1. ask the process environment for the key;
//! 2. ask the dotfile for it only if [`dotfile_needed`] says so;
//! 3. hand both answers to [`get_var`].

pub mod error;
pub mod lookup;

pub use error::EnvSearcherError;
pub use lookup::{dotfile_needed, get_var};
