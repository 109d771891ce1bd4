use mon::browser::sse_payload;
use mon::json::{JsonMember, JsonValue};
use mon::queries::{
    transaction_for_update_variables, transaction_variables_from, update_transaction_variables,
    CATEGORIES, GET_TRANSACTION_FOR_UPDATE, UPDATE_TRANSACTION,
};
use mon::rent::build_export;

fn value_model(v: &serde_json::Value) -> JsonValue {
    match v {
        serde_json::Value::Null => JsonValue::Null,
        serde_json::Value::Bool(b) => JsonValue::Bool(*b),
        serde_json::Value::Number(n) => JsonValue::Number(n.to_string()),
        serde_json::Value::String(s) => JsonValue::Str(s.clone()),
        serde_json::Value::Array(items) => {
            JsonValue::Array(items.iter().map(value_model).collect())
        }
        serde_json::Value::Object(members) => JsonValue::Object(
            members
                .iter()
                .map(|(key, value)| JsonMember {
                    key: key.clone(),
                    value: value_model(value),
                })
                .collect(),
        ),
    }
}

fn model_text(text: &str) -> JsonValue {
    value_model(&serde_json::from_str(text).expect("test JSON"))
}

fn serde_of(v: &JsonValue) -> serde_json::Value {
    match v {
        JsonValue::Null => serde_json::Value::Null,
        JsonValue::Bool(b) => serde_json::Value::Bool(*b),
        JsonValue::Number(t) => serde_json::from_str(t).expect("number text"),
        JsonValue::Str(s) => serde_json::Value::String(s.clone()),
        JsonValue::Array(items) => serde_json::Value::Array(items.iter().map(serde_of).collect()),
        JsonValue::Object(members) => serde_json::Value::Object(
            members
                .iter()
                .map(|m| (m.key.clone(), serde_of(&m.value)))
                .collect(),
        ),
    }
}

fn expected(text: &str) -> serde_json::Value {
    serde_json::from_str(text).expect("expected JSON")
}

#[test]
fn transaction_variables_require_date_pairs() {
    assert!(transaction_variables_from(0, 100, "", Some("2026-01-01"), None).is_err());
    assert!(transaction_variables_from(0, 100, "", Some("2026-01-01"), Some("2026-01-31")).is_ok());
}

#[test]
fn update_variables_target_one_exact_transaction() {
    assert_eq!(
        serde_of(&update_transaction_variables("tx-1", "cat-1")),
        expected(r#"{"input": {"id": "tx-1", "category": "cat-1"}}"#)
    );
}

#[test]
fn write_documents_use_known_minimal_payload_shapes() {
    assert!(CATEGORIES.contains("group {"));
    assert!(CATEGORIES.contains("isDisabled"));
    assert!(GET_TRANSACTION_FOR_UPDATE.contains("redirectPosted: false"));
    assert!(UPDATE_TRANSACTION.contains("mutation Web_TransactionDrawerUpdateTransaction"));
    assert!(UPDATE_TRANSACTION.contains("fieldErrors {"));
    assert!(!GET_TRANSACTION_FOR_UPDATE.contains("__typename"));
    assert!(!UPDATE_TRANSACTION.contains("__typename"));
}

#[test]
fn parses_rent_transactions() {
    let data = model_text(
        r#"{
            "allTransactions": {
                "totalCount": 1,
                "results": [{
                    "id": "tx1",
                    "date": "2026-03-30",
                    "amount": 1569.13,
                    "pending": false,
                    "plaidName": "APPFOLIO",
                    "notes": "",
                    "merchant": {"name": "AppFolio"},
                    "account": {"displayName": "Checking"},
                    "category": {"name": "Rent"}
                }]
            }
        }"#,
    );
    let export = build_export(
        &data,
        "appfolio",
        None,
        None,
        "2026-04-01T00:00:00+00:00".to_owned(),
    );
    assert_eq!(export.matched_count, 1);
    assert_eq!(export.transactions[0].merchant, "AppFolio");
}

#[test]
fn parses_sse_response_data() {
    let payload = sse_payload("event: message\ndata: {\"result\":{\"ok\":true}}\n\n");
    let parsed: serde_json::Value = serde_json::from_str(&payload).unwrap();
    assert_eq!(parsed["result"]["ok"].as_bool(), Some(true));
}

#[test]
fn sse_payload_keeps_a_plain_body() {
    assert_eq!(sse_payload("{\"id\":1}"), "{\"id\":1}");
}

#[test]
fn sse_payload_skips_done_markers() {
    assert_eq!(sse_payload("data: [DONE]\ndata: {\"a\":2}\n"), "{\"a\":2}");
}

#[test]
fn rent_export_falls_back_to_plaid_name_and_reads_totals() {
    let data = model_text(
        r#"{
            "allTransactions": {
                "totalCount": 7,
                "results": [{
                    "id": "tx2",
                    "date": "2026-04-30",
                    "amount": -12,
                    "pending": true,
                    "plaidName": "APPFOLIO RENT",
                    "notes": "april",
                    "merchant": {"name": ""},
                    "account": {"displayName": "Savings"},
                    "category": null
                }]
            }
        }"#,
    );
    let export = build_export(&data, "rent", Some("2026-04-01".to_owned()), None, "now".to_owned());
    assert_eq!(export.source, "monarch");
    assert_eq!(export.search, "rent");
    assert_eq!(export.total_count, 7);
    assert_eq!(export.exported_at, "now");
    let tx = &export.transactions[0];
    assert_eq!(tx.merchant, "APPFOLIO RENT");
    assert_eq!(tx.amount.as_deref(), Some("-12"));
    assert_eq!(tx.category, "");
    assert!(tx.pending);
}

#[test]
fn rent_export_of_missing_results_is_empty() {
    let export = build_export(&model_text("{}"), "x", None, None, "t".to_owned());
    assert_eq!(export.total_count, 0);
    assert_eq!(export.matched_count, 0);
    assert!(export.transactions.is_empty());
}

#[test]
fn read_variables_name_one_transaction() {
    assert_eq!(
        serde_of(&transaction_for_update_variables("tx-9")),
        expected(r#"{"id": "tx-9"}"#)
    );
}

#[test]
fn date_range_needs_both_or_neither() {
    assert!(transaction_variables_from(0, 10, "", None, Some("2026-01-31")).is_err());
    let vars = transaction_variables_from(5, 10, "rent", None, None).unwrap();
    let v = serde_of(&vars);
    assert_eq!(v["offset"], 5);
    assert_eq!(v["limit"], 10);
    assert_eq!(v["filters"]["search"], "rent");
}

#[test]
fn total_count_reads_the_reported_total() {
    let data = model_text(r#"{"allTransactions": {"totalCount": -3, "results": []}}"#);
    assert_eq!(mon::rent::total_count(&data), -3);
    assert_eq!(mon::rent::total_count(&model_text(r#"{"allTransactions": {"totalCount": 1.5}}"#)), 0);
}

#[test]
fn rent_export_is_stamped_in_utc() {
    let export = mon::rent::export_at(&model_text("{}"), "x", None, None, 0, 0).unwrap();
    assert_eq!(export.exported_at, "1970-01-01T00:00:00+00:00");
    assert_eq!(export.source, "monarch");
}

#[test]
fn compact_json_text_of_nested_values() {
    let v = model_text(r#"{"a": [1, true, null, "x\"y"], "b": {"c": -2.5}}"#);
    let text = mon::json_text::json_text_of(&v);
    assert_eq!(text, r#"{"a":[1,true,null,"x\"y"],"b":{"c":-2.5}}"#);
    let reparsed: serde_json::Value = serde_json::from_str(&text).unwrap();
    assert_eq!(reparsed, serde_of(&v));
}

#[test]
fn start_script_embeds_the_request_text() {
    let request = mon::browser::graphql_request("Op", "query Op { x }", model_text("{}"));
    let script = mon::browser::start_script("\"mon-1\"", &request);
    assert!(script.starts_with("(function() {\n  const key = \"mon-1\";\n  const request = {\"operationName\":\"Op\",\"variables\":{},\"query\":\"query Op { x }\"};"));
}
