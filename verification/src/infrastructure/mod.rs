//! What the storage, Notion and keyring layers decide, apart from their I/O.
pub mod notion;
pub mod secret_store;
pub mod sqlite;
