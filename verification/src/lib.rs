//! Recipe records with ordered ingredient and instruction lists: the request
//! and response shapes, the SQL that reads and writes them, the rules that
//! bring stored child rows in line with a submitted recipe, and the five
//! operations as sessions that a server carries out against its store.

pub mod convergence;
pub mod error;
pub mod handlers;
pub mod models;
pub mod ordering;
pub mod outcomes;
pub mod queries;
pub mod query_utils;
pub mod reconcile;
pub mod search;
pub mod sequences;
pub mod statements;
pub mod static_files;
pub mod store;
