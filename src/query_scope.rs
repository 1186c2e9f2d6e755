use vstd::prelude::*;

use crate::query_options::QueryOptions;

verus! {

/// Identifies one query type (one fetch function) and carries the options
/// that apply to it alone.
#[derive(Debug, Clone, Copy, PartialEq, Eq)]
pub struct QueryScope {
    pub query_type_id: u64,
    pub scope_options: Option<QueryOptions>,
}

impl QueryScope {
    /// A query type with options of its own, which take precedence over the
    /// client's options.
    pub fn new(query_type_id: u64, options: QueryOptions) -> (r: Self)
        ensures
            r.query_type_id == query_type_id,
            r.scope_options == Some(options),
    {
        QueryScope { query_type_id, scope_options: Some(options) }
    }

    /// A query type that follows the client's options.
    pub fn plain(query_type_id: u64) -> (r: Self)
        ensures
            r.query_type_id == query_type_id,
            r.scope_options is None,
    {
        QueryScope { query_type_id, scope_options: None }
    }

    pub fn options(&self) -> (r: Option<QueryOptions>)
        ensures
            r == self.scope_options,
    {
        self.scope_options
    }

    pub fn cache_key(&self) -> (r: u64)
        ensures
            r == self.query_type_id,
    {
        self.query_type_id
    }
}

} // verus!
