//! A URL shortener core: identifiers are minted for canonical absolute URLs,
//! stored through a repository port, and looked up again.

pub mod canonical;
pub mod command;
pub mod error;
pub mod id_provider;
pub mod laws;
pub mod query;
pub mod store;
