use std::cell::RefCell;
use std::collections::VecDeque;

use mon::cli::{BrowserArgs, TransactionUpdateArgs};
use mon::graphql::{response_error, GraphqlErrorClass};
use mon::json::{JsonMember, JsonValue};
use mon::transaction_update::{
    execute, parse_categories, CallLog, parse_mutation_payload, resolve_category, Category, CategoryGroup,
    MutationPayloadOutcome, UpdateCall, UpdateExecution, UpdateStatus,
};
use mon::update_error::CallError;

fn model_of(v: &serde_json::Value) -> JsonValue {
    match v {
        serde_json::Value::Null => JsonValue::Null,
        serde_json::Value::Bool(b) => JsonValue::Bool(*b),
        serde_json::Value::Number(n) => JsonValue::Number(n.to_string()),
        serde_json::Value::String(s) => JsonValue::Str(s.clone()),
        serde_json::Value::Array(items) => JsonValue::Array(items.iter().map(model_of).collect()),
        serde_json::Value::Object(members) => JsonValue::Object(
            members
                .iter()
                .map(|(key, value)| JsonMember {
                    key: key.clone(),
                    value: model_of(value),
                })
                .collect(),
        ),
    }
}

fn json(text: &str) -> JsonValue {
    model_of(&serde_json::from_str(text).expect("test JSON"))
}

fn update_args(dry_run: bool) -> TransactionUpdateArgs {
    TransactionUpdateArgs {
        transaction_id: "tx-1".to_owned(),
        category: Some(" new category ".to_owned()),
        category_id: None,
        dry_run,
        json: true,
        browser: BrowserArgs::default(),
        session_file: None,
    }
}

fn categories_data() -> JsonValue {
    json(
        r#"{
            "categories": [
                {
                    "id": "cat-old",
                    "name": "Old Category",
                    "isDisabled": false,
                    "group": { "id": "group-expense", "name": "Expenses", "type": "expense" }
                },
                {
                    "id": "cat-new",
                    "name": "New Category",
                    "isDisabled": false,
                    "group": { "id": "group-expense", "name": "Expenses", "type": "expense" }
                },
                {
                    "id": "cat-disabled",
                    "name": "Disabled Category",
                    "isDisabled": true,
                    "group": { "id": "group-expense", "name": "Expenses", "type": "expense" }
                }
            ]
        }"#,
    )
}

fn transaction_data(category_id: &str, category_name: &str) -> JsonValue {
    json(&format!(
        r#"{{"getTransaction": {{"id": "tx-1", "category": {{"id": "{category_id}", "name": "{category_name}"}}}}}}"#
    ))
}

fn mutation_data_for(transaction_id: &str, category_id: &str, category_name: &str) -> JsonValue {
    json(&format!(
        r#"{{"updateTransaction": {{"transaction": {{"id": "{transaction_id}", "category": {{"id": "{category_id}", "name": "{category_name}"}}}}, "errors": []}}}}"#
    ))
}

fn mutation_data(category_id: &str, category_name: &str) -> JsonValue {
    mutation_data_for("tx-1", category_id, category_name)
}

fn execute_with(
    args: TransactionUpdateArgs,
    responses: Vec<Result<JsonValue, CallError>>,
) -> (UpdateExecution, Vec<String>) {
    let responses = RefCell::new(VecDeque::from(responses));
    let operations = RefCell::new(Vec::new());

    let mut log = CallLog::new(|call: &UpdateCall| {
        operations.borrow_mut().push(call.operation.name().to_owned());
        responses
            .borrow_mut()
            .pop_front()
            .expect("unexpected GraphQL request")
    });
    let execution = execute(&args, &mut log).unwrap();

    assert!(responses.borrow().is_empty());
    (execution, operations.into_inner())
}

fn transport(message: &str) -> CallError {
    CallError::Transport(message.to_owned())
}

#[test]
fn resolves_trimmed_case_insensitive_name_exactly() {
    let categories = parse_categories(&categories_data()).unwrap();
    let category = resolve_category(&categories, Some("  nEw CaTeGoRy  "), None).unwrap();
    assert_eq!(category.id, "cat-new");
}

#[test]
fn rejects_missing_duplicate_and_disabled_categories() {
    let categories = parse_categories(&categories_data()).unwrap();
    assert!(resolve_category(&categories, Some("missing"), None).is_err());
    assert!(resolve_category(&categories, Some("disabled category"), None)
        .unwrap_err()
        .message()
        .contains("disabled"));

    let mut duplicates = categories.clone();
    duplicates.push(Category {
        id: "cat-other".to_owned(),
        name: " new CATEGORY ".to_owned(),
        is_disabled: false,
        group: CategoryGroup {
            id: "group-expense".to_owned(),
            name: "Expenses".to_owned(),
            kind: "expense".to_owned(),
        },
    });
    assert!(resolve_category(&duplicates, Some("New Category"), None)
        .unwrap_err()
        .message()
        .contains("matched 2 categories"));
}

#[test]
fn category_id_lookup_verifies_existence_and_enabled_state() {
    let categories = parse_categories(&categories_data()).unwrap();
    assert_eq!(
        resolve_category(&categories, None, Some(" cat-new "))
            .unwrap()
            .name,
        "New Category"
    );
    assert!(resolve_category(&categories, None, Some("missing")).is_err());
    assert!(resolve_category(&categories, None, Some("cat-disabled"))
        .unwrap_err()
        .message()
        .contains("disabled"));
}

#[test]
fn category_parser_fails_closed_on_missing_schema_fields() {
    let data = json(r#"{"categories": [{ "id": "cat-1", "name": "Food", "isDisabled": false }]}"#);
    assert!(parse_categories(&data).is_err());
}

#[test]
fn formats_general_and_field_payload_errors() {
    let target = resolve_category(
        &parse_categories(&categories_data()).unwrap(),
        None,
        Some("cat-new"),
    )
    .unwrap();
    let data = json(
        r#"{
            "updateTransaction": {
                "transaction": null,
                "errors": [{
                    "message": "Category update rejected",
                    "code": "INVALID_CATEGORY",
                    "fieldErrors": [{
                        "field": "category",
                        "messages": ["Category is disabled", "Choose another category"]
                    }]
                }]
            }
        }"#,
    );

    let result = parse_mutation_payload(&data, &"tx-1".to_owned(), &target).unwrap();
    let MutationPayloadOutcome::Rejected(message) = result else {
        panic!("expected payload rejection");
    };
    assert!(message.contains("[INVALID_CATEGORY] Category update rejected"));
    assert!(message.contains("category: Category is disabled, Choose another category"));
}

#[test]
fn mutation_payload_requires_exact_transaction_and_category() {
    let target = resolve_category(
        &parse_categories(&categories_data()).unwrap(),
        None,
        Some("cat-new"),
    )
    .unwrap();

    let wrong_category = mutation_data("cat-old", "Old Category");
    assert!(parse_mutation_payload(&wrong_category, &"tx-1".to_owned(), &target)
        .unwrap_err()
        .message()
        .contains("requested category"));

    let wrong_transaction = mutation_data_for("tx-2", "cat-new", "New Category");
    assert!(parse_mutation_payload(&wrong_transaction, &"tx-1".to_owned(), &target)
        .unwrap_err()
        .message()
        .contains("expected transaction id"));
}

#[test]
fn unchanged_is_verified_without_mutation() {
    let (execution, operations) = execute_with(
        update_args(false),
        vec![
            Ok(transaction_data("cat-new", "New Category")),
            Ok(categories_data()),
        ],
    );

    assert_eq!(execution.outcome.status, UpdateStatus::Unchanged);
    assert_eq!(execution.outcome.changed, Some(false));
    assert!(execution.outcome.verified);
    assert_eq!(operations, vec!["GetTransactionForUpdate", "GetCategories"]);
}

#[test]
fn dry_run_never_sends_mutation() {
    let (execution, operations) = execute_with(
        update_args(true),
        vec![
            Ok(transaction_data("cat-old", "Old Category")),
            Ok(categories_data()),
        ],
    );

    assert_eq!(execution.outcome.status, UpdateStatus::DryRun);
    assert!(execution.outcome.would_change);
    assert!(!execution.outcome.verified);
    assert_eq!(operations, vec!["GetTransactionForUpdate", "GetCategories"]);
}

#[test]
fn updated_requires_exact_readback_verification() {
    let (execution, operations) = execute_with(
        update_args(false),
        vec![
            Ok(transaction_data("cat-old", "Old Category")),
            Ok(categories_data()),
            Ok(mutation_data("cat-new", "New Category")),
            Ok(transaction_data("cat-new", "New Category")),
        ],
    );

    assert_eq!(execution.outcome.status, UpdateStatus::Updated);
    assert_eq!(execution.outcome.changed, Some(true));
    assert!(execution.outcome.verified);
    assert!(execution.failure.is_none());
    assert_eq!(
        operations,
        vec![
            "GetTransactionForUpdate",
            "GetCategories",
            "Web_TransactionDrawerUpdateTransaction",
            "GetTransactionForUpdate"
        ]
    );
}

#[test]
fn ambiguous_transport_failure_with_target_readback_is_success() {
    let (execution, _) = execute_with(
        update_args(false),
        vec![
            Ok(transaction_data("cat-old", "Old Category")),
            Ok(categories_data()),
            Err(transport("connection closed before response")),
            Ok(transaction_data("cat-new", "New Category")),
        ],
    );

    assert_eq!(execution.outcome.status, UpdateStatus::Updated);
    assert!(execution.outcome.verified);
    assert!(execution.failure.is_none());
}

#[test]
fn ambiguous_transport_failure_with_old_readback_is_unknown() {
    let (execution, _) = execute_with(
        update_args(false),
        vec![
            Ok(transaction_data("cat-old", "Old Category")),
            Ok(categories_data()),
            Err(transport("request timed out after body was sent")),
            Ok(transaction_data("cat-old", "Old Category")),
        ],
    );

    assert_eq!(execution.outcome.status, UpdateStatus::OutcomeUnknown);
    assert_eq!(execution.outcome.changed, None);
    assert!(!execution.outcome.verified);
    assert!(execution.failure.unwrap().contains("may still apply later"));
}

#[test]
fn schema_rejection_with_old_readback_is_failed() {
    let response = json(
        r#"{
            "errors": [{
                "message": "Something went wrong while processing.",
                "locations": [{ "line": 1, "column": 1 }]
            }]
        }"#,
    );
    let graphql_error =
        response_error("Web_TransactionDrawerUpdateTransaction", Some(400), &response)
            .unwrap()
            .unwrap();

    let (execution, _) = execute_with(
        update_args(false),
        vec![
            Ok(transaction_data("cat-old", "Old Category")),
            Ok(categories_data()),
            Err(CallError::Graphql(graphql_error)),
            Ok(transaction_data("cat-old", "Old Category")),
        ],
    );

    assert_eq!(execution.outcome.status, UpdateStatus::Failed);
    assert_eq!(execution.outcome.changed, Some(false));
    assert!(execution.failure.unwrap().contains("definitively rejected"));
}

#[test]
fn accepted_mutation_with_conflicting_readback_is_unknown() {
    let (execution, _) = execute_with(
        update_args(false),
        vec![
            Ok(transaction_data("cat-old", "Old Category")),
            Ok(categories_data()),
            Ok(mutation_data("cat-new", "New Category")),
            Ok(transaction_data("cat-old", "Old Category")),
        ],
    );

    assert_eq!(execution.outcome.status, UpdateStatus::OutcomeUnknown);
    assert_eq!(execution.outcome.changed, None);
    assert!(!execution.outcome.verified);
}

#[test]
fn failed_readback_is_outcome_unknown() {
    let (execution, _) = execute_with(
        update_args(false),
        vec![
            Ok(transaction_data("cat-old", "Old Category")),
            Ok(categories_data()),
            Ok(mutation_data("cat-new", "New Category")),
            Err(transport("read-back unavailable")),
        ],
    );

    assert_eq!(execution.outcome.status, UpdateStatus::OutcomeUnknown);
    assert_eq!(execution.outcome.changed, None);
    assert!(!execution.outcome.verified);
    assert!(execution.failure.is_some());
}

#[test]
fn classifies_schema_validation_errors_by_extension_code() {
    let response = json(
        r#"{
            "errors": [{
                "message": "Cannot query field isDisabled.",
                "extensions": { "code": "GRAPHQL_VALIDATION_FAILED" }
            }]
        }"#,
    );

    let error = response_error("GetCategories", Some(200), &response)
        .unwrap()
        .unwrap();

    assert_eq!(error.class(), GraphqlErrorClass::SchemaIncompatible);
    assert!(error.describe().contains("schema is incompatible"));
}

#[test]
fn classifies_http_400_graphql_errors_as_schema_incompatible() {
    let response = json(
        r#"{
            "errors": [{
                "message": "Something went wrong while processing.",
                "locations": [{ "line": 1, "column": 34 }]
            }]
        }"#,
    );

    let error = response_error("GetCategories", Some(400), &response)
        .unwrap()
        .unwrap();

    assert_eq!(error.class(), GraphqlErrorClass::SchemaIncompatible);
}

#[test]
fn classifies_bad_user_input_as_definitive_rejection() {
    let response = json(
        r#"{
            "errors": [{
                "message": "Invalid category",
                "extensions": { "code": "BAD_USER_INPUT" }
            }]
        }"#,
    );

    let error = response_error("Web_TransactionDrawerUpdateTransaction", Some(200), &response)
        .unwrap()
        .unwrap();

    assert_eq!(error.class(), GraphqlErrorClass::DefinitiveRejection);
}

#[test]
fn unknown_top_level_error_codes_remain_ambiguous() {
    let response = json(
        r#"{
            "errors": [{
                "message": "Resolver stopped unexpectedly",
                "extensions": { "code": "INTERNAL_ERROR" }
            }]
        }"#,
    );

    let error = response_error("Web_TransactionDrawerUpdateTransaction", Some(200), &response)
        .unwrap()
        .unwrap();

    assert_eq!(error.class(), GraphqlErrorClass::Ambiguous);
}

#[test]
fn accepts_an_empty_errors_array() {
    let response = json(r#"{ "data": {}, "errors": [] }"#);
    assert!(response_error("Example", Some(200), &response)
        .unwrap()
        .is_none());
}

#[test]
fn blank_transaction_id_makes_no_call() {
    let mut args = update_args(false);
    args.transaction_id = "   ".to_owned();
    let calls = RefCell::new(0);
    let mut log = CallLog::new(|_call: &UpdateCall| -> Result<JsonValue, CallError> {
        *calls.borrow_mut() += 1;
        Err(transport("unexpected"))
    });
    let result = execute(&args, &mut log);
    assert!(matches!(result, Err(mon::update_error::UpdateError::EmptyTransactionIdArg)));
    assert_eq!(*calls.borrow(), 0);
}

#[test]
fn failed_transaction_read_stops_before_categories() {
    let calls = RefCell::new(Vec::new());
    let mut log = CallLog::new(|call: &UpdateCall| -> Result<JsonValue, CallError> {
        calls.borrow_mut().push(call.operation.name().to_owned());
        Err(transport("offline"))
    });
    let result = execute(&update_args(false), &mut log);
    let error = result.unwrap_err();
    assert_eq!(
        error.message(),
        "failed to read transaction tx-1 before update: offline"
    );
    assert_eq!(*calls.borrow(), vec!["GetTransactionForUpdate"]);
}

#[test]
fn unreadable_records_name_the_failing_field() {
    let data = json(r#"{"categories": [{ "id": "cat-1", "name": "Food", "isDisabled": false }]}"#);
    assert_eq!(
        parse_categories(&data).unwrap_err().message(),
        "failed to parse GetCategories categories: item 0: missing field `group`"
    );
    let data = json(r#"{"categories": {"id": "x"}}"#);
    assert_eq!(
        parse_categories(&data).unwrap_err().message(),
        "failed to parse GetCategories categories: expected a list"
    );
    let data = json(
        r#"{"categories": [
            {"id": "a", "name": "A", "isDisabled": false, "group": {"id": "g", "name": "G", "type": "t"}},
            {"id": "b", "name": "B", "isDisabled": "no", "group": {"id": "g", "name": "G", "type": "t"}}
        ]}"#,
    );
    assert_eq!(
        parse_categories(&data).unwrap_err().message(),
        "failed to parse GetCategories categories: item 1: invalid field `isDisabled`"
    );
    let tx = json(r#"{"id": 7, "category": null}"#);
    assert_eq!(
        mon::transaction_update::parse_transaction_value(&tx, &"tx-1".to_owned())
            .unwrap_err()
            .message(),
        "failed to parse transaction: invalid field `id`"
    );
}

#[test]
fn unreadable_error_lists_name_the_failing_item() {
    let response = json(r#"{"errors": [{"message": "ok"}, {"msg": "x"}]}"#);
    assert_eq!(
        response_error("Op", Some(200), &response).unwrap_err().message(),
        "failed to parse GraphQL errors for Op: item 1: missing field `message`"
    );
    let target = resolve_category(
        &parse_categories(&categories_data()).unwrap(),
        None,
        Some("cat-new"),
    )
    .unwrap();
    let data = json(r#"{"updateTransaction": {"transaction": null, "errors": [{"message": 5}]}}"#);
    assert_eq!(
        parse_mutation_payload(&data, &"tx-1".to_owned(), &target)
            .unwrap_err()
            .message(),
        "failed to parse mutation payload errors: item 0: invalid field `message`"
    );
}
