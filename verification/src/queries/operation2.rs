use vstd::prelude::*;
use aws_sdk_dynamodb::Client;
use crate::error::ApplicationError;
use crate::outcome::{op2_result_matches, Op2Outcome};

verus! {

/// Capability of operation B: one independent read against the backend
/// store, yielding an optional text value (the looked-up item may be
/// absent). Implementations must be safe to invoke concurrently with any
/// other operation (no shared mutable state).
pub trait Operation2Query {
    /// The outcome this operation yields for the given input.
    spec fn query_result(&self, something: Seq<char>) -> Op2Outcome;

    /// Performs the read. Any input string is accepted; a backend fault
    /// surfaces as the error of the returned result, and no retry is
    /// performed here.
    fn execute(&self, something: &str) -> (r: Result<Option<String>, ApplicationError>)
        ensures
            op2_result_matches(r, self.query_result(something@)),
    ;
}

/// Operation B: a resource name together with the shared backend client
/// handle. Immutable after construction; cloning shares the handle.
#[derive(Debug, Clone)]
pub struct Operation2 {
    pub table_name: String,
    pub client: Client,
}

impl Operation2 {
    /// Starts builder-style construction with no option set yet.
    pub fn builder() -> (r: Operation2Builder)
        ensures
            r.table_name is None,
            r.client is None,
    {
        Operation2Builder { table_name: Option::None, client: Option::None }
    }
}

impl Operation2Query for Operation2 {
    open spec fn query_result(&self, something: Seq<char>) -> Op2Outcome {
        Result::Ok(Option::Some("something"@))
    }

    fn execute(&self, something: &str) -> (r: Result<Option<String>, ApplicationError>) {
        Result::Ok(Option::Some(String::from_str("something")))
    }
}

/// Builder-style configuration for operation B. Recognized options:
/// `table_name` (the target backend resource) and `client` (the shared
/// backend client handle).
pub struct Operation2Builder {
    pub table_name: Option<String>,
    pub client: Option<Client>,
}

impl Operation2Builder {
    /// Sets the target backend resource name.
    pub fn table_name(self, table_name: &str) -> (r: Self)
        ensures
            (r.table_name matches Option::Some(t) && t@ == table_name@),
            r.client == self.client,
    {
        Operation2Builder {
            table_name: Option::Some(String::from_str(table_name)),
            client: self.client,
        }
    }

    /// Sets the shared backend client handle.
    pub fn client(self, client: Client) -> (r: Self)
        ensures
            r.client == Option::Some(client),
            r.table_name == self.table_name,
    {
        Operation2Builder { table_name: self.table_name, client: Option::Some(client) }
    }

    /// Finishes construction. Both options must have been set before this
    /// is called.
    pub fn build(self) -> (r: Operation2)
        requires
            self.table_name is Some,
            self.client is Some,
        ensures
            r.table_name == self.table_name->0,
            r.client == self.client->0,
    {
        Operation2 { table_name: self.table_name.unwrap(), client: self.client.unwrap() }
    }
}

} // verus!
