//! Verified core of a credential helper that keeps cargo registry tokens in
//! the `pass` secret store.
//!
//! The library derives the storage path for a registry's token, plans which
//! `pass` subcommand a request needs, and interprets what the tool printed.
//! Spawning the tool itself is left to the thin binary around the library.

pub mod dispatch;
pub mod keychain;
pub mod path;
