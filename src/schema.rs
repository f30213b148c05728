//! The roots of the GraphQL schema. Their fields resolve through the
//! handlers; what the library itself answers is the API version.
use vstd::prelude::*;

verus! {

pub struct Query;

pub struct Mutation;

pub struct Subscription;

/// The version of the gateway's API.
pub open spec fn api_version() -> Seq<char> {
    "1.0"@
}

impl Query {
    #[allow(non_snake_case)]
    pub fn apiVersion() -> (r: &'static str)
        ensures
            r@ == api_version(),
    {
        "1.0"
    }
}

impl Mutation {
    #[allow(non_snake_case)]
    pub fn apiVersion() -> (r: &'static str)
        ensures
            r@ == api_version(),
    {
        "1.0"
    }
}

impl Subscription {
    #[allow(non_snake_case)]
    pub fn apiVersion() -> (r: &'static str)
        ensures
            r@ == api_version(),
    {
        "1.0"
    }
}

} // verus!
