use mon::category::{category_selector, CategoryRef, CategorySelector};
use mon::client::{
    authorization_value, check_token, client_graphql_result, login_body, login_status,
    login_token, ClientError, ClientFailure, LoginResult, LoginStatus,
};
use mon::graphql::{GraphqlErrorItem, GraphqlResponseError};
use mon::json::{JsonMember, JsonValue};
use mon::output::{
    account_row, accounts_header_line, first_nonempty, merchant_of, pad_left, pad_right, str_at,
    transaction_row, transactions_header_line, truncate,
};
use mon::session::{new_session, session_document, session_from_json, SessionError};
use mon::text::{decimal_string, join_strings, trim_str};
use mon::timestamp::timestamp_text;
use mon::transaction_update::{
    describe_category, same_category, transaction_has_category, Transaction, UpdateStatus,
};
use mon::update_error::{CallError, UpdateError};

fn obj(members: Vec<(&str, JsonValue)>) -> JsonValue {
    JsonValue::Object(
        members
            .into_iter()
            .map(|(key, value)| JsonMember {
                key: key.to_owned(),
                value,
            })
            .collect(),
    )
}

fn s(t: &str) -> JsonValue {
    JsonValue::Str(t.to_owned())
}

fn cref(id: &str, name: &str) -> CategoryRef {
    CategoryRef {
        id: id.to_owned(),
        name: name.to_owned(),
    }
}

fn to_serde(v: &JsonValue) -> serde_json::Value {
    match v {
        JsonValue::Null => serde_json::Value::Null,
        JsonValue::Bool(b) => serde_json::Value::Bool(*b),
        JsonValue::Number(t) => serde_json::from_str(t).expect("number text"),
        JsonValue::Str(t) => serde_json::Value::String(t.clone()),
        JsonValue::Array(items) => serde_json::Value::Array(items.iter().map(to_serde).collect()),
        JsonValue::Object(members) => serde_json::Value::Object(
            members
                .iter()
                .map(|m| (m.key.clone(), to_serde(&m.value)))
                .collect(),
        ),
    }
}

fn from_serde(v: &serde_json::Value) -> JsonValue {
    match v {
        serde_json::Value::Null => JsonValue::Null,
        serde_json::Value::Bool(b) => JsonValue::Bool(*b),
        serde_json::Value::Number(n) => JsonValue::Number(n.to_string()),
        serde_json::Value::String(t) => JsonValue::Str(t.clone()),
        serde_json::Value::Array(items) => JsonValue::Array(items.iter().map(from_serde).collect()),
        serde_json::Value::Object(members) => JsonValue::Object(
            members
                .iter()
                .map(|(key, value)| JsonMember {
                    key: key.clone(),
                    value: from_serde(value),
                })
                .collect(),
        ),
    }
}

#[test]
fn saves_and_loads_session_json() {
    let saved = new_session("abc123", 1_767_225_600, 0).unwrap();
    let text = serde_json::to_string(&to_serde(&session_document(&saved.token, &saved.created_at)))
        .unwrap();
    let loaded = session_from_json(&from_serde(&serde_json::from_str(&text).unwrap())).unwrap();
    assert_eq!(loaded.token, "abc123");
}

#[test]
fn session_must_hold_a_token() {
    assert_eq!(
        session_from_json(&obj(vec![("token", s("  ")), ("created_at", s("t"))])).unwrap_err(),
        SessionError::EmptyToken
    );
    assert_eq!(
        session_from_json(&obj(vec![("token", s("x"))])).unwrap_err(),
        SessionError::Unreadable
    );
    assert_eq!(SessionError::EmptyToken.message(), "session token is empty");
}

#[test]
fn truncation_keeps_width_with_an_ellipsis() {
    assert_eq!(truncate("abcdef", 10), "abcdef");
    assert_eq!(truncate("abcdefghij", 6), "abc...");
    assert_eq!(truncate("abcdef", 2), "...");
    assert_eq!(truncate("ééééé", 4), "é...");
}

#[test]
fn padding_aligns_cells() {
    assert_eq!(pad_right("ab", 4), "ab  ");
    assert_eq!(pad_left("ab", 4), "  ab");
    assert_eq!(pad_left("abcdef", 4), "abcdef");
    assert_eq!(first_nonempty(String::new(), "b".to_owned()), "b");
    assert_eq!(first_nonempty("a".to_owned(), "b".to_owned()), "a");
}

#[test]
fn table_lines_have_fixed_columns() {
    assert_eq!(
        accounts_header_line(),
        format!("{:<28} {:>14} {:<18} {}", "name", "balance", "type", "institution")
    );
    assert_eq!(
        account_row("Checking", "12.50", "depository", "Bank"),
        format!("{:<28} {:>14} {:<18} {}", "Checking", "12.50", "depository", "Bank")
    );
    assert_eq!(
        transactions_header_line(),
        format!(
            "{:<12} {:>12} {:<28} {:<22} {}",
            "date", "amount", "merchant", "account", "category"
        )
    );
    assert_eq!(
        transaction_row("2026-01-02", "-3.00", "A very long merchant name indeed!", "Card", "Food"),
        format!(
            "{:<12} {:>12} {:<28} {:<22} {}",
            "2026-01-02", "-3.00", "A very long merchant name...", "Card", "Food"
        )
    );
}

#[test]
fn merchant_falls_back_to_plaid_name() {
    let tx = obj(vec![
        ("merchant", obj(vec![("name", s(""))])),
        ("plaidName", s("PLAID")),
    ]);
    assert_eq!(merchant_of(&tx), "PLAID");
    assert_eq!(str_at(&tx, &["merchant", "name"]), "");
    assert_eq!(str_at(&tx, &["missing", "name"]), "");
    let named = obj(vec![("merchant", obj(vec![("name", s("Shop"))]))]);
    assert_eq!(merchant_of(&named), "Shop");
}

#[test]
fn decimal_and_join_and_trim() {
    assert_eq!(decimal_string(0), "0");
    assert_eq!(decimal_string(18446744073709551615), "18446744073709551615");
    assert_eq!(
        join_strings(&vec!["a".to_owned(), "b".to_owned(), "c".to_owned()], ", "),
        "a, b, c"
    );
    assert_eq!(join_strings(&vec![], ", "), "");
    assert_eq!(trim_str("\u{3000} x y \n"), "x y");
}

#[test]
fn status_names_match_the_json_output() {
    assert_eq!(UpdateStatus::Updated.as_str(), "updated");
    assert_eq!(UpdateStatus::Unchanged.as_str(), "unchanged");
    assert_eq!(UpdateStatus::DryRun.as_str(), "dry-run");
    assert_eq!(UpdateStatus::Failed.as_str(), "failed");
    assert_eq!(UpdateStatus::OutcomeUnknown.as_str(), "outcome-unknown");
}

#[test]
fn selector_needs_exactly_one_nonblank_choice() {
    assert!(matches!(
        category_selector(Some(" a "), None),
        Ok(CategorySelector::Name(n)) if n == " a "
    ));
    assert!(matches!(
        category_selector(None, Some("id")),
        Ok(CategorySelector::Id(n)) if n == "id"
    ));
    assert!(matches!(category_selector(None, None), Err(UpdateError::MissingSelector)));
    assert!(matches!(
        category_selector(Some("a"), Some("b")),
        Err(UpdateError::ConflictingSelectors)
    ));
    assert!(matches!(
        category_selector(Some("  "), None),
        Err(UpdateError::EmptyCategoryName)
    ));
    assert!(matches!(
        category_selector(None, Some("")),
        Err(UpdateError::EmptyCategoryId)
    ));
}

#[test]
fn update_error_messages_quote_names() {
    assert_eq!(
        UpdateError::NoCategoryNamed {
            wanted: "Foo \"x\"".to_owned()
        }
        .message(),
        "no category named \"Foo \\\"x\\\"\"; names are matched exactly after trimming, case-insensitively"
    );
    assert_eq!(
        UpdateError::AmbiguousCategoryName {
            wanted: "a".to_owned(),
            count: 2
        }
        .message(),
        "category name \"a\" matched 2 categories; use --category-id"
    );
    assert_eq!(
        UpdateError::EmptyTransactionIdArg.message(),
        "TRANSACTION_ID must not be empty"
    );
    assert_eq!(
        UpdateError::ReadCategoriesFailed {
            cause: "down".to_owned()
        }
        .message(),
        "failed to read categories before update: down"
    );
    assert_eq!(CallError::Transport("t".to_owned()).message(), "t");
}

#[test]
fn category_descriptions_and_comparisons() {
    assert_eq!(describe_category(None), "<uncategorized>");
    assert_eq!(
        describe_category(Some(&cref("c1", "Food"))),
        "\"Food\" (c1)"
    );
    assert!(same_category(None, None));
    assert!(same_category(Some(&cref("c1", "A")), Some(&cref("c1", "B"))));
    assert!(!same_category(Some(&cref("c1", "A")), None));
    let tx = Transaction {
        id: "tx".to_owned(),
        category: Some(cref("c1", "A")),
    };
    assert!(transaction_has_category(&tx, "c1"));
    assert!(!transaction_has_category(&tx, "c2"));
}

#[test]
fn graphql_errors_describe_each_item() {
    let e = GraphqlResponseError {
        operation: "Op".to_owned(),
        http_status: Some(200),
        errors: vec![
            GraphqlErrorItem {
                message: "first".to_owned(),
                extensions: None,
            },
            GraphqlErrorItem {
                message: "second".to_owned(),
                extensions: None,
            },
        ],
    };
    assert_eq!(e.describe(), "GraphQL Op returned errors: first; second");
}

#[test]
fn login_requests_and_answers() {
    let body = to_serde(&login_body("me@x", "pw", Some("123456")));
    assert_eq!(body["username"], "me@x");
    assert_eq!(body["password"], "pw");
    assert_eq!(body["supports_mfa"], true);
    assert_eq!(body["trusted_device"], false);
    assert_eq!(body["totp"], "123456");
    assert!(to_serde(&login_body("me@x", "pw", None)).get("totp").is_none());
    assert_eq!(login_status(403), LoginStatus::MfaRequired);
    assert_eq!(login_status(302), LoginStatus::Redirected);
    assert_eq!(login_status(500), LoginStatus::Failed);
    assert_eq!(login_status(200), LoginStatus::Succeeded);
    assert!(matches!(
        login_token(&obj(vec![("token", s("tok"))])),
        Ok(LoginResult::Token(t)) if t == "tok"
    ));
    assert!(matches!(
        login_token(&obj(vec![])),
        Err(ClientError::UnreadableLoginResponse)
    ));
    assert_eq!(authorization_value("abc"), "Token abc");
    assert!(check_token(Some("x")).is_ok());
    assert!(matches!(check_token(Some("")), Err(ClientError::MissingToken)));
    assert!(matches!(check_token(None), Err(ClientError::MissingToken)));
}

#[test]
fn saved_token_answers_are_read_by_status_and_errors() {
    let ok = obj(vec![("data", obj(vec![("x", JsonValue::Bool(true))]))]);
    let data = client_graphql_result("Op", 200, ok, false).unwrap();
    assert_eq!(to_serde(&data)["x"], true);

    let failed = client_graphql_result("Op", 500, obj(vec![]), false);
    assert!(matches!(
        failed,
        Err(ClientFailure::Client(ClientError::HttpFailure { status: 500, .. }))
    ));

    let missing = client_graphql_result("Op", 200, obj(vec![]), false);
    assert!(matches!(
        missing,
        Err(ClientFailure::Client(ClientError::MissingData { .. }))
    ));

    let with_errors = obj(vec![(
        "errors",
        JsonValue::Array(vec![obj(vec![("message", s("bad"))])]),
    )]);
    assert!(matches!(
        client_graphql_result("Op", 500, with_errors, true),
        Err(ClientFailure::Graphql(_))
    ));
}

#[test]
fn timestamps_are_rfc3339_in_utc() {
    assert_eq!(timestamp_text(0, 0).unwrap(), "1970-01-01T00:00:00+00:00");
    assert_eq!(
        timestamp_text(1_767_225_600, 500_000_000).unwrap(),
        "2026-01-01T00:00:00.500+00:00"
    );
    assert!(timestamp_text(i64::MAX, 0).is_none());
    let s = new_session("t", 86_400, 0).unwrap();
    assert_eq!(s.created_at, "1970-01-02T00:00:00+00:00");
}
