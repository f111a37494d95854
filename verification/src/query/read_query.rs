//! The read-query builder: wraps raw query text verbatim.

use vstd::prelude::*;

use crate::error::Error;
use crate::query::{Query, QueryType, ValidQuery};

verus! {

/// A read query holding its text verbatim. It always builds; syntactically
/// invalid text is only rejected by the remote server.
pub struct ReadQuery {
    pub query: String,
}

impl View for ReadQuery {
    type V = Seq<char>;

    open spec fn view(&self) -> Seq<char> {
        self.query@
    }
}

impl ReadQuery {
    /// Creates a read query from raw text, stored unchanged.
    pub fn new(query: &str) -> (r: Self)
        ensures
            r@ == query@,
    {
        ReadQuery { query: query.to_owned() }
    }
}

impl Query for ReadQuery {
    open spec fn builds(&self) -> bool {
        true
    }

    open spec fn query_text(&self) -> Seq<char> {
        self@
    }

    open spec fn kind_spec(&self) -> QueryType {
        QueryType::ReadQuery
    }

    fn build(&self) -> (r: Result<ValidQuery, Error>) {
        Ok(ValidQuery::from(self.query.clone()))
    }

    fn get_type(&self) -> (t: QueryType) {
        QueryType::ReadQuery
    }
}

} // verus!
