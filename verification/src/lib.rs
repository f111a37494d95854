//! A small client library for a time-series database speaking the
//! line-protocol HTTP interface.
//!
//! Queries are built with [`WriteQuery`] and [`ReadQuery`], rendered to
//! wire-ready text by [`Query::build`], and dispatched by a thin transport
//! layer around [`client::InfluxDbClient`], which plans each request and
//! interprets each response.

pub mod client;
pub mod error;
pub mod query;
pub mod text;

pub use error::Error;
pub use query::read_query::ReadQuery;
pub use query::write_query::{WriteField, WriteQuery};
pub use query::{InfluxDbWriteable, Query, QueryType, QueryTypes, Timestamp, Type, ValidQuery};
