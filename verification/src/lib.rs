//! The verified core of a Planify task-list server: database path resolution,
//! the SQL statements run for each operation, and the library's data types.
pub mod error;
pub mod connection;
pub mod sql;
pub mod stamps;
pub mod items;
pub mod projects;
pub mod params;
pub mod types;
