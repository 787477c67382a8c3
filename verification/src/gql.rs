//! The GraphQL adapter: where it is mounted, and the answer of an
//! operation that returns nothing.

use vstd::prelude::*;
use vstd::string::StringExecFns;

verus! {

/// What is mounted under the GraphQL adapter.
#[derive(Clone, Copy, Debug, PartialEq, Eq, Structural)]
pub enum GqlEndpoint {
    /// The endpoint that executes operations, under `graphql`.
    Graphql,
    /// The interactive explorer, under `graphiql`.
    Graphiql,
}

/// What a path reaches: `graphql` is tried first, then `graphiql`.
pub open spec fn gql_route(segments: Seq<Seq<char>>) -> Option<GqlEndpoint> {
    if segments == seq!["graphql"@] {
        Some(GqlEndpoint::Graphql)
    } else if segments == seq!["graphiql"@] {
        Some(GqlEndpoint::Graphiql)
    } else {
        None
    }
}

/// The GraphQL adapter.
pub struct Gql;

impl Gql {
    /// The adapter with its two mounts.
    pub fn new() -> (r: Self) {
        Gql
    }

    /// The path that the explorer sends its operations to.
    pub fn explorer_target() -> (r: &'static str)
        ensures
            r@ == "/graphql"@,
    {
        "/graphql"
    }

    /// What a path reaches.
    pub fn route(&self, segments: &Vec<String>) -> (r: Option<GqlEndpoint>)
        ensures
            r == gql_route(crate::rest::path_of(segments@)),
    {
        let ghost path = crate::rest::path_of(segments@);
        assert(seq!["graphql"@].len() == 1 && seq!["graphiql"@].len() == 1);
        assert(seq!["graphql"@][0] == "graphql"@ && seq!["graphiql"@][0] == "graphiql"@);
        if segments.len() != 1 {
            return None;
        }
        if segments[0] == String::from_str("graphql") {
            assert(path =~= seq!["graphql"@]);
            Some(GqlEndpoint::Graphql)
        } else if segments[0] == String::from_str("graphiql") {
            assert(path =~= seq!["graphiql"@]);
            Some(GqlEndpoint::Graphiql)
        } else {
            None
        }
    }
}

/// The answer of an operation that has nothing else to return.
#[derive(Clone, Copy, Debug, PartialEq, Eq, Structural)]
pub struct OperationResult {
    /// Whether the operation went through.
    pub success: bool,
}

impl From<()> for OperationResult {
    fn from(_done: ()) -> (r: Self) {
        OperationResult { success: true }
    }
}

impl vstd::std_specs::convert::FromSpecImpl<()> for OperationResult {
    open spec fn obeys_from_spec() -> bool {
        true
    }

    open spec fn from_spec(_done: ()) -> Self {
        OperationResult { success: true }
    }
}

} // verus!
