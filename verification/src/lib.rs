//! A small verified SQL dispatch library.
//!
//! Given a raw SQL statement and the connection parameters of the target
//! database, the library classifies the statement (database creation vs.
//! everything else), extracts the database name where one is being created,
//! builds the connection string and the command to run, and shapes the
//! success and failure responses. Opening the connection and running the
//! statement are left to the caller; every decision around those two calls
//! is made here, under contract.

pub mod dispatch;
pub mod model;
pub mod respond;
pub mod text;
