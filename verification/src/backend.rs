use vstd::prelude::*;

verus! {

/// Declares `aws_sdk_dynamodb::Client` so that it can stand in fields and
/// signatures. The client is an opaque connection handle: the logic never
/// reads anything out of it, it only stores and shares it.
#[verifier::external_type_specification]
#[verifier::external_body]
pub struct ExClient(aws_sdk_dynamodb::Client);

/// Relies on `aws_sdk_dynamodb::Client::clone` (a derived clone of an
/// `Arc`-held handle): duplicating the handle is cheap and yields a handle
/// to the same underlying client. Nothing further is claimed of the result.
pub assume_specification[ <aws_sdk_dynamodb::Client as Clone>::clone ](
    client: &aws_sdk_dynamodb::Client,
) -> aws_sdk_dynamodb::Client;

} // verus!
