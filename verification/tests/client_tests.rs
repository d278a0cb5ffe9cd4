use aws_sdk_dynamodb::config::retry::RetryConfig;
use aws_sdk_dynamodb::config::{BehaviorVersion, IdentityCache, Region};
use rust_parallel_operations::dispatch::AppClient;
use rust_parallel_operations::handler::function_handler;
use rust_parallel_operations::queries::operation1::{Operation1, Operation1Query};
use rust_parallel_operations::queries::operation2::{Operation2, Operation2Query};

/// Builds a real backend client handle without touching the network:
/// construction only wires configuration together.
fn dynamodb_client() -> aws_sdk_dynamodb::Client {
    let config = aws_sdk_dynamodb::Config::builder()
        .behavior_version(BehaviorVersion::latest())
        .region(Region::new("eu-west-1"))
        .retry_config(RetryConfig::disabled())
        .identity_cache(IdentityCache::no_cache())
        .build();
    aws_sdk_dynamodb::Client::from_conf(config)
}

#[test]
fn operation1_builder_sets_both_options() {
    let operation1 = Operation1::builder()
        .table_name("table_name")
        .client(dynamodb_client())
        .build();

    assert_eq!(operation1.table_name, "table_name".to_string());
    assert_eq!(operation1.execute("something"), Ok("something".to_string()));
}

#[test]
fn operation2_builder_sets_both_options() {
    let operation2 = Operation2::builder()
        .table_name("table_name")
        .client(dynamodb_client())
        .build();

    assert_eq!(operation2.table_name, "table_name".to_string());
    assert_eq!(
        operation2.execute("something"),
        Ok(Some("something".to_string()))
    );
}

#[test]
fn app_client_forwards_to_its_operations() {
    let client = dynamodb_client();

    let operation1 = Operation1::builder()
        .table_name("table_name")
        .client(client.clone())
        .build();
    let operation2 = Operation2::builder()
        .table_name("table_name")
        .client(client.clone())
        .build();

    let app_client = AppClient::builder()
        .operation1(operation1)
        .operation2(operation2)
        .build();

    let result = function_handler(&app_client, "something");

    assert_eq!(
        result,
        Ok(("something".to_string(), Some("something".to_string())))
    );
}

#[test]
fn cloned_operation_shares_the_handle_and_keeps_its_options() {
    let operation1 = Operation1::builder()
        .table_name("table_name")
        .client(dynamodb_client())
        .build();

    let duplicate = operation1.clone();

    assert_eq!(duplicate.table_name, "table_name".to_string());
    assert_eq!(duplicate.execute("something"), Ok("something".to_string()));
}
