//! The error taxonomy: everything that can go wrong while building a query,
//! constructing a request, or interpreting a response.

use vstd::prelude::*;

verus! {

/// A typed error, one variant per failure class.
///
/// Build-time failures (`InvalidQueryError`) are returned before any request
/// is made. The transport layer maps connection and protocol failures into
/// the remaining variants.
#[derive(Debug)]
pub enum Error {
    /// The query is structurally invalid, e.g. a write with no fields.
    InvalidQueryError { error: String },
    /// The base URL or the parameters could not be assembled into a URL.
    UrlConstructionError { error: String },
    /// The server could not be reached.
    ConnectionError { error: String },
    /// The server answered with HTTP status 403.
    AuthenticationError,
    /// The server answered with HTTP status 401.
    AuthorizationError,
    /// The response body was not valid text.
    DeserializationError { error: String },
    /// The response body carries an embedded error marker.
    DatabaseError { error: String },
    /// Any other malformed-response condition, e.g. a missing header.
    ProtocolError { error: String },
}

} // verus!
