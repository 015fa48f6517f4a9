//! Verified core of the build actor: build state bookkeeping, navigation of the
//! content-addressed virtual filesystem, extraction and build orchestration,
//! and the decisions taken on channel messages.

pub mod error;
pub mod state;
pub mod text;
pub mod messaging;
pub mod filesystem;
pub mod actor;
pub mod builder;
