//! A key-value storage abstraction with logical partitions ("categories"),
//! an in-memory reference backend, and the decision logic of a persistent
//! backend's open/close/restore lifecycle.

pub mod columns;
pub mod config;
pub mod database;
pub mod error;
pub mod memorydb;
pub mod restore;
pub mod store;

pub use columns::map_columns;
pub use config::Config;
pub use database::DataCategory;
pub use database::Database;
pub use error::DatabaseError;
pub use memorydb::MemoryDB;
