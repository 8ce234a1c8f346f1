//! The core of a small todo service: the records and their request shapes,
//! the repository interface and a store that keeps its records in memory,
//! the statements sent to the database and what is made of its answers,
//! the request handlers, and the mapping of failures to HTTP statuses.

pub mod db;
pub mod error;
pub mod handlers;
pub mod ident;
pub mod models;
pub mod query;
pub mod repository;
pub mod store;
pub mod table;
pub mod text;
