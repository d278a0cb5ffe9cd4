use vstd::prelude::*;
use aws_sdk_dynamodb::Client;
use crate::error::ApplicationError;
use crate::outcome::{op1_result_matches, Op1Outcome};

verus! {

/// Capability of operation A: one independent read against the backend
/// store, yielding a text value. Implementations must be safe to invoke
/// concurrently with any other operation (no shared mutable state).
pub trait Operation1Query {
    /// The outcome this operation yields for the given input.
    spec fn query_result(&self, something: Seq<char>) -> Op1Outcome;

    /// Performs the read. Any input string is accepted; a backend fault
    /// surfaces as the error of the returned result, and no retry is
    /// performed here.
    fn execute(&self, something: &str) -> (r: Result<String, ApplicationError>)
        ensures
            op1_result_matches(r, self.query_result(something@)),
    ;
}

/// Operation A: a resource name together with the shared backend client
/// handle. Immutable after construction; cloning shares the handle.
#[derive(Debug, Clone)]
pub struct Operation1 {
    pub table_name: String,
    pub client: Client,
}

impl Operation1 {
    /// Starts builder-style construction with no option set yet.
    pub fn builder() -> (r: Operation1Builder)
        ensures
            r.table_name is None,
            r.client is None,
    {
        Operation1Builder { table_name: Option::None, client: Option::None }
    }
}

impl Operation1Query for Operation1 {
    open spec fn query_result(&self, something: Seq<char>) -> Op1Outcome {
        Result::Ok("something"@)
    }

    fn execute(&self, something: &str) -> (r: Result<String, ApplicationError>) {
        Result::Ok(String::from_str("something"))
    }
}

/// Builder-style configuration for operation A. Recognized options:
/// `table_name` (the target backend resource) and `client` (the shared
/// backend client handle).
pub struct Operation1Builder {
    pub table_name: Option<String>,
    pub client: Option<Client>,
}

impl Operation1Builder {
    /// Sets the target backend resource name.
    pub fn table_name(self, table_name: &str) -> (r: Self)
        ensures
            (r.table_name matches Option::Some(t) && t@ == table_name@),
            r.client == self.client,
    {
        Operation1Builder {
            table_name: Option::Some(String::from_str(table_name)),
            client: self.client,
        }
    }

    /// Sets the shared backend client handle.
    pub fn client(self, client: Client) -> (r: Self)
        ensures
            r.client == Option::Some(client),
            r.table_name == self.table_name,
    {
        Operation1Builder { table_name: self.table_name, client: Option::Some(client) }
    }

    /// Finishes construction. Both options must have been set before this
    /// is called.
    pub fn build(self) -> (r: Operation1)
        requires
            self.table_name is Some,
            self.client is Some,
        ensures
            r.table_name == self.table_name->0,
            r.client == self.client->0,
    {
        Operation1 { table_name: self.table_name.unwrap(), client: self.client.unwrap() }
    }
}

} // verus!
