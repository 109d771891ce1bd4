use mon::browser::{
    is_monarch_url, key_literal, mcp_endpoint, parse_browser_id, parse_tab_list_line,
    parse_tabs_context, poll_step, result_key, select_tab, settings_path, settings_token,
    BrowserError, BrowserTab, PollStep,
};
use mon::cli::BrowserArgs;
use mon::json::{JsonMember, JsonValue};
use mon::paths::{config_dir, expand_tilde, install_target, join, session_file, PathError};

fn object(members: Vec<(&str, JsonValue)>) -> JsonValue {
    JsonValue::Object(
        members
            .into_iter()
            .map(|(key, value)| JsonMember {
                key: key.to_owned(),
                value,
            })
            .collect(),
    )
}

fn text(s: &str) -> JsonValue {
    JsonValue::Str(s.to_owned())
}

#[test]
fn parses_browser_id() {
    assert_eq!(
        parse_browser_id("browserId: abc\nTabs (1):"),
        Some("abc".to_owned())
    );
}

#[test]
fn parses_active_monarch_tab_from_context() {
    let text = r#"browserId: b1
Active tab: https://app.monarch.com/dashboard (ID: 42)
Tabs (2):
  * [42] https://app.monarch.com/dashboard
    [99] https://example.com
"#;
    assert_eq!(
        parse_tabs_context(text),
        Some(BrowserTab {
            id: 42,
            url: "https://app.monarch.com/dashboard".to_owned(),
            active: true,
        })
    );
}

#[test]
fn prefers_monarch_tab_when_active_tab_is_elsewhere() {
    let text = r#"browserId: b1
Tabs (2):
  * [42] https://example.com
    [99] https://app.monarch.com/transactions
"#;
    assert_eq!(
        parse_tabs_context(text),
        Some(BrowserTab {
            id: 99,
            url: "https://app.monarch.com/transactions".to_owned(),
            active: false,
        })
    );
}

#[test]
fn expands_home_relative_paths() {
    let expanded =
        expand_tilde("~/Library/Application Support/mon", Some("/Users/example")).unwrap();
    assert!(expanded.ends_with("Library/Application Support/mon"));
    assert!(expanded.starts_with('/'));
}

#[test]
fn tilde_expansion_cases() {
    assert_eq!(expand_tilde("~", Some("/home/u")).unwrap(), "/home/u");
    assert_eq!(expand_tilde("~/a/b", Some("/home/u/")).unwrap(), "/home/u/a/b");
    assert_eq!(expand_tilde("/etc/x", None).unwrap(), "/etc/x");
    assert_eq!(expand_tilde("~other", Some("/home/u")).unwrap(), "~other");
    assert_eq!(expand_tilde("~/x", None), Err(PathError::HomeNotSet));
    assert_eq!(PathError::HomeNotSet.message(), "HOME is not set");
}

#[test]
fn path_join_follows_unix_rules() {
    assert_eq!(join("/a", "b"), "/a/b");
    assert_eq!(join("/a/", "b"), "/a/b");
    assert_eq!(join("/a", "/b"), "/b");
    assert_eq!(join("", "b"), "b");
}

#[test]
fn session_file_prefers_explicit_then_environment() {
    assert_eq!(
        session_file(Some("~/s.json"), Some("/env.json"), Some("/h")).unwrap(),
        "/h/s.json"
    );
    assert_eq!(
        session_file(None, Some("/env.json"), Some("/h")).unwrap(),
        "/env.json"
    );
    assert_eq!(
        session_file(None, None, Some("/h")).unwrap(),
        "/h/.mon/session.json"
    );
    assert_eq!(session_file(None, None, None), Err(PathError::HomeNotSet));
    assert_eq!(config_dir(Some("/h")).unwrap(), "/h/.mon");
}

#[test]
fn install_target_defaults_to_local_bin() {
    assert_eq!(
        install_target(None, Some("/h")).unwrap(),
        ("/h/.local/bin".to_owned(), "/h/.local/bin/mon".to_owned())
    );
    assert_eq!(
        install_target(Some("~/bin"), Some("/h")).unwrap(),
        ("/h/bin".to_owned(), "/h/bin/mon".to_owned())
    );
}

#[test]
fn bro_endpoint_and_settings_fall_back_in_order() {
    assert_eq!(mcp_endpoint(Some("http://x/mcp"), Some("http://y"), None), "http://x/mcp");
    assert_eq!(mcp_endpoint(None, Some("http://y"), Some("http://z")), "http://y");
    assert_eq!(mcp_endpoint(None, None, Some("http://z")), "http://z");
    assert_eq!(mcp_endpoint(None, None, None), "http://127.0.0.1:3500/mcp");
    assert_eq!(
        settings_path(None, None, Some("~/legacy.json"), Some("/h")).unwrap(),
        "/h/legacy.json"
    );
    assert_eq!(
        settings_path(None, None, None, Some("/h")).unwrap(),
        "/h/.bro/settings.json"
    );
}

#[test]
fn settings_token_must_be_present_and_not_blank() {
    assert_eq!(
        settings_token(&object(vec![("token", text("t-1"))])).unwrap(),
        "t-1"
    );
    assert!(matches!(
        settings_token(&object(vec![("token", text("   "))])),
        Err(BrowserError::EmptyToken)
    ));
    assert!(matches!(
        settings_token(&object(vec![])),
        Err(BrowserError::MissingToken)
    ));
    assert!(matches!(
        settings_token(&object(vec![("token", JsonValue::Bool(true))])),
        Err(BrowserError::UnreadableSettings)
    ));
}

#[test]
fn monarch_urls_are_recognised() {
    assert!(is_monarch_url("https://app.monarch.com/dashboard"));
    assert!(!is_monarch_url("https://monarch.com/x"));
    assert!(!is_monarch_url("https://example.com"));
}

#[test]
fn tab_lines_carry_id_url_and_active_mark() {
    assert_eq!(
        parse_tab_list_line("  * [7] https://app.monarch.com/x"),
        Some(BrowserTab {
            id: 7,
            url: "https://app.monarch.com/x".to_owned(),
            active: true,
        })
    );
    assert_eq!(parse_tab_list_line("Tabs (2):"), None);
}

#[test]
fn select_tab_uses_requested_browser_or_listing() {
    let listing = "browserId: b1\nTabs (1):\n    [5] https://app.monarch.com/\n";
    assert_eq!(select_tab(None, listing).unwrap(), (5, Some("b1".to_owned())));
    assert_eq!(
        select_tab(Some("b2".to_owned()), listing).unwrap(),
        (5, Some("b2".to_owned()))
    );
    assert!(matches!(
        select_tab(None, "browserId: b1\nTabs (1):\n    [5] https://example.com\n"),
        Err(BrowserError::NoMonarchTab)
    ));
}

#[test]
fn request_keys_are_quoted_for_the_page() {
    let key = result_key(42);
    assert_eq!(key, "mon-42");
    assert_eq!(key_literal(&key), "\"mon-42\"");
    assert_eq!(key_literal("a\"b"), "\"a\\\"b\"");
    assert_eq!(key_literal("\u{1}\n\u{7f}é\\"), "\"\\u0001\\n\u{7f}é\\\\\"");
    assert_eq!(key_literal("\u{1f}\u{8}\t\u{c}\r"), "\"\\u001f\\b\\t\\f\\r\"");
}

#[test]
fn polling_waits_then_times_out() {
    let running = || object(vec![("state", text("running"))]);
    assert!(matches!(poll_step("Op", "k", running(), false), PollStep::Wait));
    assert!(matches!(
        poll_step("Op", "k", running(), true),
        PollStep::Failed(BrowserError::PollTimeout { .. })
    ));
    assert!(matches!(
        poll_step("Op", "k", object(vec![("state", text("done"))]), true),
        PollStep::Finished(_)
    ));
    assert!(matches!(
        poll_step("Op", "k", object(vec![]), false),
        PollStep::Failed(BrowserError::PollWithoutState { .. })
    ));
}

#[test]
fn browser_mode_is_on_with_any_browser_option() {
    let mut args = BrowserArgs::default();
    assert!(!args.enabled());
    args.browser_tab_id = Some(3);
    assert!(args.enabled());
}
