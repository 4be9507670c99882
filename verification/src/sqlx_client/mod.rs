//! The indexer's database. The client that holds the connection pool lives
//! with the application, which owns the pool; what the queries answer is
//! decided here.

pub mod users;
