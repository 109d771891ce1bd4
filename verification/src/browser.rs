//! Reading what the bro browser bridge reports: which tab shows Monarch,
//! which browser it belongs to.
use vstd::prelude::*;
use crate::text::{lines, split_lines, trim, trim_start, has_prefix, chars_of, sub_chars, trim_chars, string_of, chars_have_prefix, leading_spaces_count, lemma_leading_spaces_bound, span_until, span_until_char, lemma_span_until, first_word, first_word_of, parse_u64, parse_u64_chars};
use crate::cli::BrowserArgs;
use vstd::string::*;
use crate::json::{JsonValue, JsonMember, member, field, slot, record_shape, record_slot, has_record_shape, missing_option_ok, text_value, bool_value, u64_value, as_text, as_bool, as_u64};
use crate::graphql::{GraphqlResponseError, GraphqlParseError, GraphqlErrorItem, spec_error_list, response_error, response_error_agrees};
use crate::paths::{PathError, expand_tilde, expand_agrees, opt_text, result_text, join, join_path, home_dir};
use crate::queries::{member_is, is_text, is_count};
use crate::text::{is_blank, is_blank_str, str_eq, decimal, decimal_string};
use crate::json_text::{json_quoted, json_string_literal, json_text, json_text_of};

verus! {

/// How to reach the browser: an explicit tab and browser, and where bro
/// listens and keeps its settings.
#[derive(Debug)]
pub struct BrowserOptions {
    pub tab_id: Option<u64>,
    pub browser_id: Option<String>,
    pub mcp_url: Option<String>,
    pub settings_file: Option<String>,
}

impl Default for BrowserOptions {
    fn default() -> (r: Self)
        ensures
            r.tab_id is None,
            r.browser_id is None,
            r.mcp_url is None,
            r.settings_file is None,
    {
        BrowserOptions { tab_id: None, browser_id: None, mcp_url: None, settings_file: None }
    }
}

/// The browser options that the command line's browser arguments give.
pub fn browser_options(args: &BrowserArgs) -> (r: BrowserOptions)
    ensures
        r.tab_id == args.browser_tab_id,
        r.browser_id == args.browser_id,
        r.mcp_url == args.bro_mcp_url,
        r.settings_file == args.bro_settings,
{
    BrowserOptions {
        tab_id: args.browser_tab_id,
        browser_id: match &args.browser_id {
            Some(s) => Some(s.clone()),
            None => None,
        },
        mcp_url: match &args.bro_mcp_url {
            Some(s) => Some(s.clone()),
            None => None,
        },
        settings_file: match &args.bro_settings {
            Some(s) => Some(s.clone()),
            None => None,
        },
    }
}

/// A tab of the bro tab listing.
#[derive(Debug, PartialEq, Eq)]
pub struct BrowserTab {
    pub id: u64,
    pub url: String,
    pub active: bool,
}

/// The content of a `BrowserTab`.
pub struct TabModel {
    pub id: u64,
    pub url: Seq<char>,
    pub active: bool,
}

impl View for BrowserTab {
    type V = TabModel;

    open spec fn view(&self) -> TabModel {
        TabModel { id: self.id, url: self.url@, active: self.active }
    }
}

pub open spec fn monarch_app_prefix() -> Seq<char> {
    "https://app.monarch.com/"@
}

/// The URL belongs to the Monarch web app.
pub open spec fn spec_is_monarch_url(url: Seq<char>) -> bool {
    has_prefix(url, monarch_app_prefix())
}

pub fn is_monarch_url(url: &str) -> (r: bool)
    ensures
        r == spec_is_monarch_url(url@),
{
    let u = chars_of(url);
    let p = chars_of("https://app.monarch.com/");
    chars_have_prefix(&u, &p)
}

/// The prefix of the line that names the browser.
pub open spec fn browser_id_prefix() -> Seq<char> {
    "browserId: "@
}

/// The browser id that a listing names: from the first line that, trimmed,
/// begins with `browserId: `, the trimmed rest, unless that is empty.
pub open spec fn browser_id_in(ls: Seq<Seq<char>>) -> Option<Seq<char>>
    decreases ls.len(),
{
    if ls.len() == 0 {
        None
    } else {
        let t = trim(ls[0]);
        if has_prefix(t, browser_id_prefix()) {
            let v = trim(t.skip(browser_id_prefix().len() as int));
            if v.len() > 0 {
                Some(v)
            } else {
                None
            }
        } else {
            browser_id_in(ls.drop_first())
        }
    }
}

/// The browser id of a listing comes from the first line that, trimmed,
/// starts with `browserId: `: it is the rest of that line, trimmed, and
/// there is none when that rest is empty or no line starts so.
pub proof fn lemma_browser_id_first_line(ls: Seq<Seq<char>>)
    ensures
        match browser_id_in(ls) {
            Some(v) => v.len() > 0 && exists|k: int|
                0 <= k < ls.len() && has_prefix(trim(#[trigger] ls[k]), "browserId: "@) && v == trim(
                    trim(ls[k]).skip(11),
                ) && forall|j: int| 0 <= j < k ==> !has_prefix(trim(#[trigger] ls[j]), "browserId: "@),
            None => forall|k: int|
                0 <= k < ls.len() && has_prefix(trim(#[trigger] ls[k]), "browserId: "@) ==> (trim(
                    trim(ls[k]).skip(11),
                ).len() == 0 || exists|j: int|
                    0 <= j < k && has_prefix(trim(#[trigger] ls[j]), "browserId: "@)),
        },
    decreases ls.len(),
{
    reveal_strlit("browserId: ");
    if ls.len() > 0 {
        let rest = ls.drop_first();
        lemma_browser_id_first_line(rest);
        if !has_prefix(trim(ls[0]), "browserId: "@) {
            match browser_id_in(rest) {
                Some(v) => {
                    let k = choose|k: int|
                        0 <= k < rest.len() && has_prefix(trim(#[trigger] rest[k]), "browserId: "@)
                            && v == trim(trim(rest[k]).skip(11)) && forall|j: int|
                            0 <= j < k ==> !has_prefix(trim(#[trigger] rest[j]), "browserId: "@);
                    assert(ls[k + 1] == rest[k]);
                    assert forall|j: int| 0 <= j < k + 1 implies !has_prefix(
                        trim(#[trigger] ls[j]),
                        "browserId: "@,
                    ) by {
                        if j > 0 {
                            assert(ls[j] == rest[j - 1]);
                        }
                    }
                },
                None => {
                    assert forall|k: int|
                        0 <= k < ls.len() && has_prefix(trim(#[trigger] ls[k]), "browserId: "@) implies (
                        trim(trim(ls[k]).skip(11)).len() == 0 || exists|j: int|
                            0 <= j < k && has_prefix(trim(#[trigger] ls[j]), "browserId: "@)) by {
                        assert(k > 0);
                        assert(ls[k] == rest[k - 1]);
                        if trim(trim(ls[k]).skip(11)).len() != 0 {
                            let j = choose|j: int|
                                0 <= j < k - 1 && has_prefix(trim(#[trigger] rest[j]), "browserId: "@);
                            assert(ls[j + 1] == rest[j]);
                        }
                    }
                },
            }
        }
    }
}

/// The browser id of a `tabs_context` listing.
pub fn parse_browser_id(text: &str) -> (r: Option<String>)
    ensures
        match r {
            Some(s) => browser_id_in(lines(text@)) == Some(s@),
            None => browser_id_in(lines(text@)) is None,
        },
{
    let cs = chars_of(text);
    let ls = split_lines(&cs);
    let ghost all = ls@.map_values(|l: Vec<char>| l@);
    let prefix = chars_of("browserId: ");
    let mut i: usize = 0;
    assert(all.skip(0) =~= all);
    while i < ls.len()
        invariant
            i <= ls@.len(),
            all == ls@.map_values(|l: Vec<char>| l@),
            all == lines(text@),
            prefix@ == browser_id_prefix(),
            browser_id_in(all) == browser_id_in(all.skip(i as int)),
        decreases ls@.len() - i,
    {
        let t = trim_chars(&ls[i]);
        assert(all.skip(i as int)[0] == ls@[i as int]@);
        if chars_have_prefix(&t, &prefix) {
            let rest = sub_chars(&t, prefix.len(), t.len());
            assert(rest@ =~= t@.skip(browser_id_prefix().len() as int));
            let v = trim_chars(&rest);
            if v.len() > 0 {
                return Some(string_of(&v));
            } else {
                return None;
            }
        }
        assert(all.skip(i as int).drop_first() =~= all.skip(i + 1));
        i = i + 1;
    }
    None
}

/// How one line of the tab listing reads: optional white space, an optional
/// `*` marking the active tab, optional white space, `[id]`, then the URL
/// as the first word after it.
pub open spec fn tab_line(line: Seq<char>) -> Option<TabModel> {
    let trimmed = trim_start(line);
    let active = trimmed.len() > 0 && trimmed[0] == '*';
    let candidate = trim_start(
        if active {
            trimmed.skip(1)
        } else {
            trimmed
        },
    );
    if candidate.len() == 0 || candidate[0] != '[' {
        None
    } else {
        let rest = candidate.skip(1);
        let k = span_until(rest, ']');
        if k >= rest.len() {
            None
        } else {
            match (parse_u64(rest.take(k as int)), first_word(rest.skip((k + 1) as int))) {
                (Some(id), Some(url)) => Some(TabModel { id, url, active }),
                _ => None,
            }
        }
    }
}

fn tab_of_line(line: &Vec<char>) -> (r: Option<BrowserTab>)
    ensures
        match r {
            Some(t) => tab_line(line@) == Some(t@),
            None => tab_line(line@) is None,
        },
{
    let a = leading_spaces_count(line);
    proof {
        lemma_leading_spaces_bound(line@);
    }
    let trimmed = sub_chars(line, a, line.len());
    assert(trimmed@ =~= trim_start(line@));
    let active = trimmed.len() > 0 && trimmed[0] == '*';
    let after = if active {
        sub_chars(&trimmed, 1, trimmed.len())
    } else {
        sub_chars(&trimmed, 0, trimmed.len())
    };
    assert(after@ =~= (if active {
        trimmed@.skip(1)
    } else {
        trimmed@
    }));
    let b = leading_spaces_count(&after);
    proof {
        lemma_leading_spaces_bound(after@);
    }
    let candidate = sub_chars(&after, b, after.len());
    assert(candidate@ =~= trim_start(after@));
    if candidate.len() == 0 || candidate[0] != '[' {
        return None;
    }
    let rest = sub_chars(&candidate, 1, candidate.len());
    assert(rest@ =~= candidate@.skip(1));
    let k = span_until_char(&rest, ']');
    if k >= rest.len() {
        return None;
    }
    let id_text = sub_chars(&rest, 0, k);
    assert(id_text@ =~= rest@.take(k as int));
    let tail = sub_chars(&rest, k + 1, rest.len());
    assert(tail@ =~= rest@.skip(k + 1));
    let id = match parse_u64_chars(&id_text) {
        Some(id) => id,
        None => return None,
    };
    let url = match first_word_of(&tail) {
        Some(w) => w,
        None => return None,
    };
    Some(BrowserTab { id, url: string_of(&url), active })
}

/// `parse_tab_list_line`: the tab that a line of the listing describes.
pub fn parse_tab_list_line(line: &str) -> (r: Option<BrowserTab>)
    ensures
        match r {
            Some(t) => tab_line(line@) == Some(t@),
            None => tab_line(line@) is None,
        },
{
    let cs = chars_of(line);
    tab_of_line(&cs)
}

/// The first tab of `ls` that is a Monarch tab and, when `want_active`, the
/// active one.
pub open spec fn find_tab(ls: Seq<Seq<char>>, want_active: bool) -> Option<TabModel>
    decreases ls.len(),
{
    if ls.len() == 0 {
        None
    } else {
        match tab_line(ls[0]) {
            Some(t) => if spec_is_monarch_url(t.url) && (!want_active || t.active) {
                Some(t)
            } else {
                find_tab(ls.drop_first(), want_active)
            },
            None => find_tab(ls.drop_first(), want_active),
        }
    }
}

/// The Monarch tab of a listing: the active Monarch tab when there is one,
/// otherwise the first Monarch tab.
pub open spec fn monarch_tab(text: Seq<char>) -> Option<TabModel> {
    match find_tab(lines(text), true) {
        Some(t) => Some(t),
        None => find_tab(lines(text), false),
    }
}

/// The line describes a tab whose URL is in the Monarch web app (and, when
/// `active`, that is the active tab).
pub open spec fn monarch_line(l: Seq<char>, active: bool) -> bool {
    match tab_line(l) {
        Some(t) => has_prefix(t.url, "https://app.monarch.com/"@) && (active ==> t.active),
        None => false,
    }
}

proof fn lemma_find_tab(ls: Seq<Seq<char>>, want_active: bool)
    ensures
        find_tab(ls, want_active) matches Some(t) ==> exists|k: int|
            0 <= k < ls.len() && #[trigger] tab_line(ls[k]) == Some(t) && monarch_line(ls[k], want_active)
                && forall|j: int| 0 <= j < k ==> !#[trigger] monarch_line(ls[j], want_active),
        (exists|k: int| 0 <= k < ls.len() && #[trigger] monarch_line(ls[k], want_active)) ==> find_tab(
            ls,
            want_active,
        ) is Some,
    decreases ls.len(),
{
    reveal_strlit("https://app.monarch.com/");
    if ls.len() > 0 {
        lemma_find_tab(ls.drop_first(), want_active);
        let rest = ls.drop_first();
        if let Some(t) = find_tab(ls, want_active) {
            if monarch_line(ls[0], want_active) {
                assert(tab_line(ls[0]) == Some(t));
            } else {
                let k = choose|k: int|
                    0 <= k < rest.len() && #[trigger] tab_line(rest[k]) == Some(t) && monarch_line(
                        rest[k],
                        want_active,
                    ) && forall|j: int| 0 <= j < k ==> !#[trigger] monarch_line(rest[j], want_active);
                assert(ls[k + 1] == rest[k]);
                assert forall|j: int| 0 <= j < k + 1 implies !#[trigger] monarch_line(ls[j], want_active) by {
                    if j > 0 {
                        assert(ls[j] == rest[j - 1]);
                    }
                }
            }
        }
        if exists|k: int| 0 <= k < ls.len() && #[trigger] monarch_line(ls[k], want_active) {
            let k = choose|k: int| 0 <= k < ls.len() && #[trigger] monarch_line(ls[k], want_active);
            if k > 0 {
                assert(rest[k - 1] == ls[k]);
            }
        }
    }
}

/// The tab chosen from a listing is the tab of the first line that describes
/// an active Monarch tab, when there is one; otherwise the tab of the first
/// line that describes a Monarch tab; and none only when no line describes a
/// Monarch tab.
pub proof fn lemma_monarch_tab_choice(text: Seq<char>)
    ensures
        monarch_tab(text) matches Some(t) ==> has_prefix(t.url, "https://app.monarch.com/"@),
        (exists|k: int| 0 <= k < lines(text).len() && #[trigger] monarch_line(lines(text)[k], true))
            ==> (monarch_tab(text) matches Some(t) && t.active && exists|k: int|
            0 <= k < lines(text).len() && #[trigger] tab_line(lines(text)[k]) == Some(t) && forall|j: int|
                0 <= j < k ==> !#[trigger] monarch_line(lines(text)[j], true)),
        !(exists|k: int| 0 <= k < lines(text).len() && #[trigger] monarch_line(lines(text)[k], true))
            ==> (monarch_tab(text) matches Some(t) ==> exists|k: int|
            0 <= k < lines(text).len() && #[trigger] tab_line(lines(text)[k]) == Some(t) && forall|j: int|
                0 <= j < k ==> !#[trigger] monarch_line(lines(text)[j], false)),
        monarch_tab(text) is None ==> forall|k: int|
            0 <= k < lines(text).len() ==> !#[trigger] monarch_line(lines(text)[k], false),
{
    lemma_find_tab(lines(text), true);
    lemma_find_tab(lines(text), false);
    if let Some(t) = monarch_tab(text) {
        let ls = lines(text);
        if find_tab(ls, true) is Some {
            let k = choose|k: int|
                0 <= k < ls.len() && #[trigger] tab_line(ls[k]) == Some(t) && monarch_line(ls[k], true)
                    && forall|j: int| 0 <= j < k ==> !#[trigger] monarch_line(ls[j], true);
            assert(monarch_line(ls[k], true));
        } else {
            let k = choose|k: int|
                0 <= k < ls.len() && #[trigger] tab_line(ls[k]) == Some(t) && monarch_line(ls[k], false)
                    && forall|j: int| 0 <= j < k ==> !#[trigger] monarch_line(ls[j], false);
            assert(monarch_line(ls[k], false));
        }
    }
}

fn find_tab_in(ls: &Vec<Vec<char>>, want_active: bool) -> (r: Option<BrowserTab>)
    ensures
        match r {
            Some(t) => find_tab(ls@.map_values(|l: Vec<char>| l@), want_active) == Some(t@),
            None => find_tab(ls@.map_values(|l: Vec<char>| l@), want_active) is None,
        },
{
    let ghost all = ls@.map_values(|l: Vec<char>| l@);
    let mut i: usize = 0;
    assert(all.skip(0) =~= all);
    while i < ls.len()
        invariant
            i <= ls@.len(),
            all == ls@.map_values(|l: Vec<char>| l@),
            find_tab(all, want_active) == find_tab(all.skip(i as int), want_active),
        decreases ls@.len() - i,
    {
        assert(all.skip(i as int)[0] == ls@[i as int]@);
        assert(all.skip(i as int).drop_first() =~= all.skip(i + 1));
        match tab_of_line(&ls[i]) {
            Some(t) => {
                if is_monarch_url(t.url.as_str()) && (!want_active || t.active) {
                    return Some(t);
                }
            },
            None => {},
        }
        i = i + 1;
    }
    None
}

/// The Monarch tab of a `tabs_context` listing.
pub fn parse_tabs_context(text: &str) -> (r: Option<BrowserTab>)
    ensures
        match r {
            Some(t) => monarch_tab(text@) == Some(t@),
            None => monarch_tab(text@) is None,
        },
{
    let cs = chars_of(text);
    let ls = split_lines(&cs);
    match find_tab_in(&ls, true) {
        Some(t) => Some(t),
        None => find_tab_in(&ls, false),
    }
}


/// Failures of the browser transport and of the bro bridge.
#[derive(Debug)]
pub enum BrowserError {
    /// The tab listing shows no Monarch tab.
    NoMonarchTab,
    /// The page did not acknowledge the start of the request.
    NotStarted { operation: String, started: JsonValue },
    /// The request was still running at the deadline.
    PollTimeout { operation: String, key: String },
    /// The page reported a state that is not one of the known ones.
    UnexpectedPollState { operation: String, state: String, value: JsonValue },
    /// The page's report had no state.
    PollWithoutState { operation: String, value: JsonValue },
    /// The page's `fetch` failed before any response.
    FailedBeforeResponse { operation: String, error: String },
    /// The request ended in a state other than done.
    UnexpectedState { operation: String, value: JsonValue },
    /// The HTTP response was not a success.
    HttpFailure { operation: String, status: u64, status_text: String, detail: String },
    /// The response had no JSON body.
    MissingBody,
    /// The GraphQL response had no `data`.
    MissingData { operation: String },
    /// bro answered a tool call with an RPC error.
    RpcError { name: String, error: JsonValue },
    /// bro's answer had no `result`.
    MissingResult,
    /// bro's result had no text content.
    MissingTextContent,
    /// bro reported the tool call as failed.
    ToolFailed { name: String, text: String },
    /// bro's settings file holds no token.
    MissingToken,
    /// bro's token is blank.
    EmptyToken,
    /// bro's settings file does not have the expected shape.
    UnreadableSettings,
    /// bro did not return an MCP session id.
    NoSessionId,
}

/// Why a GraphQL call through the browser failed.
#[derive(Debug)]
pub enum TransportFailure {
    /// The response carried top-level GraphQL errors.
    Graphql(GraphqlResponseError),
    /// The response's `errors` could not be read.
    Errors(GraphqlParseError),
    /// The browser or the request failed otherwise.
    Browser(BrowserError),
}

pub open spec fn default_mcp_url() -> Seq<char> {
    "http://127.0.0.1:3500/mcp"@
}

/// The bro endpoint: the explicit URL, else `BRO_MCP_URL`, else the former
/// `OPENBROWSERMCP_MCP_URL`, else the local default.
pub fn mcp_endpoint(mcp_url: Option<&str>, bro_env: Option<&str>, legacy_env: Option<&str>) -> (r: String)
    ensures
        r@ == match (mcp_url, bro_env, legacy_env) {
            (Some(u), _, _) => u@,
            (None, Some(u), _) => u@,
            (None, None, Some(u)) => u@,
            (None, None, None) => default_mcp_url(),
        },
{
    match (mcp_url, bro_env, legacy_env) {
        (Some(u), _, _) => u.to_owned(),
        (None, Some(u), _) => u.to_owned(),
        (None, None, Some(u)) => u.to_owned(),
        (None, None, None) => "http://127.0.0.1:3500/mcp".to_owned(),
    }
}

/// The bro settings file: the explicit path, else `BRO_SETTINGS`, else the
/// former `OPENBROWSERMCP_SETTINGS`, each with `~` expanded, else
/// `~/.bro/settings.json`.
pub fn settings_path(
    settings_file: Option<&str>,
    bro_env: Option<&str>,
    legacy_env: Option<&str>,
    home: Option<&str>,
) -> (r: Result<String, PathError>)
    ensures
        match (settings_file, bro_env, legacy_env) {
            (Some(p), _, _) => expand_agrees(p@, opt_text(home), result_text(r)),
            (None, Some(p), _) => expand_agrees(p@, opt_text(home), result_text(r)),
            (None, None, Some(p)) => expand_agrees(p@, opt_text(home), result_text(r)),
            (None, None, None) => match home {
                Some(h) => r matches Ok(s) && s@ == join_path(h@, ".bro/settings.json"@),
                None => r == Err::<String, PathError>(PathError::HomeNotSet),
            },
        },
{
    match (settings_file, bro_env, legacy_env) {
        (Some(p), _, _) => expand_tilde(p, home),
        (None, Some(p), _) => expand_tilde(p, home),
        (None, None, Some(p)) => expand_tilde(p, home),
        (None, None, None) => {
            let h = match home_dir(home) {
                Ok(h) => h,
                Err(e) => return Err(e),
            };
            Ok(join(h.as_str(), ".bro/settings.json"))
        },
    }
}

/// How serde reads the settings file's `{ token: Option<String> }`.
pub open spec fn settings_token_field(x: JsonValue) -> Option<Option<String>> {
    if !record_shape(x, 1) {
        None
    } else {
        match slot(x, "token"@, 0) {
            None => if missing_option_ok(x) {
                Some(None)
            } else {
                None
            },
            Some(JsonValue::Null) => Some(None),
            Some(JsonValue::Str(t)) => Some(Some(t)),
            _ => None,
        }
    }
}

/// The bro bearer token of a settings document; it must be present and not
/// blank.
pub open spec fn spec_settings_token(x: JsonValue) -> Result<String, BrowserError> {
    match settings_token_field(x) {
        None => Err(BrowserError::UnreadableSettings),
        Some(None) => Err(BrowserError::MissingToken),
        Some(Some(t)) => if is_blank(t@) {
            Err(BrowserError::EmptyToken)
        } else {
            Ok(t)
        },
    }
}

pub fn settings_token(settings: &JsonValue) -> (r: Result<String, BrowserError>)
    ensures
        r == spec_settings_token(*settings),
{
    if !has_record_shape(settings, 1) {
        return Err(BrowserError::UnreadableSettings);
    }
    let token = match record_slot(settings, "token", 0) {
        None => match settings {
            JsonValue::Object(_) => None,
            _ => return Err(BrowserError::UnreadableSettings),
        },
        Some(JsonValue::Null) => None,
        Some(JsonValue::Str(t)) => Some(t.clone()),
        _ => return Err(BrowserError::UnreadableSettings),
    };
    match token {
        None => Err(BrowserError::MissingToken),
        Some(t) => if is_blank_str(t.as_str()) {
            Err(BrowserError::EmptyToken)
        } else {
            Ok(t)
        },
    }
}

/// The JSON payload of an MCP HTTP answer: the first `data: ` line of an
/// event stream that is not `[DONE]`, or else the whole text.
pub open spec fn sse_data(ls: Seq<Seq<char>>) -> Option<Seq<char>>
    decreases ls.len(),
{
    if ls.len() == 0 {
        None
    } else if has_prefix(ls[0], "data: "@) && trim(ls[0].skip(6)) != "[DONE]"@ {
        Some(ls[0].skip(6))
    } else {
        sse_data(ls.drop_first())
    }
}

pub open spec fn spec_sse_payload(text: Seq<char>) -> Seq<char> {
    match sse_data(lines(text)) {
        Some(d) => d,
        None => text,
    }
}

/// The payload of an answer is the rest of its first `data: ` line that is
/// not `[DONE]`, and the whole text when there is no such line.
pub proof fn lemma_sse_payload_first_data(text: Seq<char>)
    ensures
        ({
            let ls = lines(text);
            let data_line = |l: Seq<char>| has_prefix(l, "data: "@) && trim(l.skip(6)) != "[DONE]"@;
            &&& (exists|k: int| 0 <= k < ls.len() && data_line(#[trigger] ls[k])) ==> exists|k: int|
                0 <= k < ls.len() && data_line(#[trigger] ls[k]) && spec_sse_payload(text) == ls[k].skip(6)
                    && forall|j: int| 0 <= j < k ==> !data_line(#[trigger] ls[j])
            &&& !(exists|k: int| 0 <= k < ls.len() && data_line(#[trigger] ls[k])) ==> spec_sse_payload(text)
                == text
        }),
{
    lemma_sse_data(lines(text));
}

proof fn lemma_sse_data(ls: Seq<Seq<char>>)
    ensures
        ({
            let data_line = |l: Seq<char>| has_prefix(l, "data: "@) && trim(l.skip(6)) != "[DONE]"@;
            &&& sse_data(ls) matches Some(d) ==> exists|k: int|
                0 <= k < ls.len() && data_line(#[trigger] ls[k]) && d == ls[k].skip(6) && forall|j: int|
                    0 <= j < k ==> !data_line(#[trigger] ls[j])
            &&& sse_data(ls) is None ==> forall|k: int| 0 <= k < ls.len() ==> !data_line(#[trigger] ls[k])
        }),
    decreases ls.len(),
{
    let data_line = |l: Seq<char>| has_prefix(l, "data: "@) && trim(l.skip(6)) != "[DONE]"@;
    if ls.len() > 0 {
        let rest = ls.drop_first();
        lemma_sse_data(rest);
        if !data_line(ls[0]) {
            if let Some(d) = sse_data(rest) {
                let k = choose|k: int|
                    0 <= k < rest.len() && data_line(#[trigger] rest[k]) && d == rest[k].skip(6)
                        && forall|j: int| 0 <= j < k ==> !data_line(#[trigger] rest[j]);
                assert(ls[k + 1] == rest[k]);
                assert forall|j: int| 0 <= j < k + 1 implies !data_line(#[trigger] ls[j]) by {
                    if j > 0 {
                        assert(ls[j] == rest[j - 1]);
                    }
                }
            } else {
                assert forall|k: int| 0 <= k < ls.len() implies !data_line(#[trigger] ls[k]) by {
                    if k > 0 {
                        assert(ls[k] == rest[k - 1]);
                    }
                }
            }
        }
    }
}

/// The text to read as JSON from an MCP answer, which may be an event stream.
pub fn sse_payload(text: &str) -> (r: String)
    ensures
        r@ == spec_sse_payload(text@),
{
    let cs = chars_of(text);
    let ls = split_lines(&cs);
    let ghost all = ls@.map_values(|l: Vec<char>| l@);
    let prefix = chars_of("data: ");
    let done = chars_of("[DONE]");
    proof {
        reveal_strlit("data: ");
    }
    let mut i: usize = 0;
    assert(all.skip(0) =~= all);
    while i < ls.len()
        invariant
            i <= ls@.len(),
            all == ls@.map_values(|l: Vec<char>| l@),
            all == lines(text@),
            prefix@ == "data: "@,
            prefix@.len() == 6,
            done@ == "[DONE]"@,
            sse_data(all) == sse_data(all.skip(i as int)),
        decreases ls@.len() - i,
    {
        let line = &ls[i];
        assert(all.skip(i as int)[0] == line@);
        if chars_have_prefix(line, &prefix) {
            let data = sub_chars(line, 6, line.len());
            assert(data@ =~= line@.skip(6));
            let t = trim_chars(&data);
            if !crate::text::chars_eq(&t, &done) {
                return string_of(&data);
            }
        }
        assert(all.skip(i as int).drop_first() =~= all.skip(i + 1));
        i = i + 1;
    }
    text.to_owned()
}

/// A JSON-RPC request envelope.
pub fn rpc_request(id: u64, method: &str, params: JsonValue) -> (r: JsonValue)
    ensures
        r matches JsonValue::Object(ms) && ms@.len() == 4 && member_is(
            ms@,
            0,
            "jsonrpc"@,
            |x: JsonValue| is_text(x, "2.0"@),
        ) && member_is(ms@, 1, "id"@, |x: JsonValue| is_count(x, id as nat)) && member_is(
            ms@,
            2,
            "method"@,
            |x: JsonValue| is_text(x, method@),
        ) && ms@[3].key@ == "params"@ && ms@[3].value == params,
{
    JsonValue::Object(
        vec![
            member("jsonrpc", JsonValue::string("2.0")),
            member("id", JsonValue::Number(decimal_string(id))),
            member("method", JsonValue::string(method)),
            member("params", params),
        ],
    )
}

/// The parameters of the MCP `initialize` request.
pub fn initialize_params(version: &str) -> (r: JsonValue)
    ensures
        r matches JsonValue::Object(ms) && ms@.len() == 3 && member_is(
            ms@,
            0,
            "protocolVersion"@,
            |x: JsonValue| is_text(x, "2024-11-05"@),
        ) && member_is(
            ms@,
            1,
            "capabilities"@,
            |x: JsonValue| x matches JsonValue::Object(c) && c@.len() == 0,
        ) && member_is(
            ms@,
            2,
            "clientInfo"@,
            |x: JsonValue|
                x matches JsonValue::Object(c) && c@.len() == 2 && member_is(
                    c@,
                    0,
                    "name"@,
                    |y: JsonValue| is_text(y, "mon"@),
                ) && member_is(c@, 1, "version"@, |y: JsonValue| is_text(y, version@)),
        ),
{
    let client = JsonValue::Object(
        vec![member("name", JsonValue::string("mon")), member("version", JsonValue::string(version))],
    );
    JsonValue::Object(
        vec![
            member("protocolVersion", JsonValue::string("2024-11-05")),
            member("capabilities", JsonValue::Object(Vec::new())),
            member("clientInfo", client),
        ],
    )
}

/// The parameters of an MCP `tools/call` request.
pub fn tool_call_params(name: &str, arguments: JsonValue) -> (r: JsonValue)
    ensures
        r matches JsonValue::Object(ms) && ms@.len() == 2 && member_is(
            ms@,
            0,
            "name"@,
            |x: JsonValue| is_text(x, name@),
        ) && ms@[1].key@ == "arguments"@ && ms@[1].value == arguments,
{
    JsonValue::Object(vec![member("name", JsonValue::string(name)), member("arguments", arguments)])
}

/// The arguments of bro's `javascript_tool`: the tab, the code, and the
/// browser when one is known.
pub fn tool_arguments(tab_id: u64, code: &str, browser_id: Option<&str>) -> (r: JsonValue)
    ensures
        r matches JsonValue::Object(ms) && member_is(
            ms@,
            0,
            "tabId"@,
            |x: JsonValue| is_count(x, tab_id as nat),
        ) && member_is(ms@, 1, "code"@, |x: JsonValue| is_text(x, code@)) && match browser_id {
            Some(b) => ms@.len() == 3 && member_is(
                ms@,
                2,
                "browserId"@,
                |x: JsonValue| is_text(x, b@),
            ),
            None => ms@.len() == 2,
        },
{
    let mut ms: Vec<JsonMember> = vec![
        member("tabId", JsonValue::Number(decimal_string(tab_id))),
        member("code", JsonValue::string(code)),
    ];
    match browser_id {
        Some(b) => ms.push(member("browserId", JsonValue::string(b))),
        None => {},
    }
    JsonValue::Object(ms)
}

/// The arguments of bro's `tabs_context`: all tabs, of the given browser
/// when one is named.
pub fn tabs_context_arguments(browser_id: Option<&str>) -> (r: JsonValue)
    ensures
        r matches JsonValue::Object(ms) && member_is(
            ms@,
            0,
            "all"@,
            |x: JsonValue| x == JsonValue::Bool(true),
        ) && match browser_id {
            Some(b) => ms@.len() == 2 && member_is(
                ms@,
                1,
                "browserId"@,
                |x: JsonValue| is_text(x, b@),
            ),
            None => ms@.len() == 1,
        },
{
    let mut ms: Vec<JsonMember> = vec![member("all", JsonValue::Bool(true))];
    match browser_id {
        Some(b) => ms.push(member("browserId", JsonValue::string(b))),
        None => {},
    }
    JsonValue::Object(ms)
}

/// The body of a GraphQL request.
pub fn graphql_request(operation: &str, query: &str, variables: JsonValue) -> (r: JsonValue)
    ensures
        r matches JsonValue::Object(ms) && ms@.len() == 3 && member_is(
            ms@,
            0,
            "operationName"@,
            |x: JsonValue| is_text(x, operation@),
        ) && ms@[1].key@ == "variables"@ && ms@[1].value == variables && member_is(
            ms@,
            2,
            "query"@,
            |x: JsonValue| is_text(x, query@),
        ),
{
    JsonValue::Object(
        vec![
            member("operationName", JsonValue::string(operation)),
            member("variables", variables),
            member("query", JsonValue::string(query)),
        ],
    )
}

/// The page-side key of one request: `mon-` and the nonce.
pub fn result_key(nonce: u64) -> (r: String)
    ensures
        r@ == "mon-"@ + decimal(nonce as nat),
{
    let mut r = String::new();
    r.append("mon-");
    let n = decimal_string(nonce);
    r.append(n.as_str());
    r
}

/// The key of a request as a JavaScript literal.
pub fn key_literal(key: &str) -> (r: String)
    ensures
        r@ == json_quoted(key@),
{
    json_string_literal(key)
}

pub open spec fn start_script_text(key_literal: Seq<char>, request_literal: Seq<char>) -> Seq<char> {
    "(function() {\n  const key = "@ + key_literal + ";\n  const request = "@ + request_literal
        + START_SCRIPT_BODY@
}

pub const START_SCRIPT_BODY: &'static str = r#";
  window.__monGraphqlResults = window.__monGraphqlResults || Object.create(null);
  window.__monGraphqlResults[key] = { state: "running" };
  const csrfMatch = document.cookie.match(/(?:^|;\s*)csrftoken=([^;]+)/);
  const headers = {
    accept: "application/json",
    "content-type": "application/json",
    "client-platform": "web"
  };
  const finish = (value) => {
    const current = window.__monGraphqlResults && window.__monGraphqlResults[key];
    if (current && current.state === "cancelled") {
      delete window.__monGraphqlResults[key];
      return;
    }
    window.__monGraphqlResults[key] = value;
  };
  if (csrfMatch) headers["x-csrftoken"] = decodeURIComponent(csrfMatch[1]);
  fetch("https://api.monarch.com/graphql", {
    method: "POST",
    credentials: "include",
    headers,
    body: JSON.stringify(request)
  })
    .then(async (response) => {
      const text = await response.text();
      let body = null;
      try { body = JSON.parse(text); } catch (_) {}
      finish({
        state: "done",
        ok: response.ok,
        status: response.status,
        statusText: response.statusText,
        body,
        text: body ? undefined : text.slice(0, 4000)
      });
    })
    .catch((error) => {
      finish({
        state: "error",
        error: error && error.message ? error.message : String(error)
      });
    });
  return { state: "started", key };
})()"#;

/// The code that starts one GraphQL request from inside the Monarch page
/// (with the page's cookies and CSRF token) and records its result under the
/// request's key; the request is written as its compact JSON text.
pub fn start_script(key_literal: &str, request: &JsonValue) -> (r: String)
    ensures
        r@ == start_script_text(key_literal@, json_text(*request)),
{
    let request_literal = json_text_of(request);
    let mut r = String::new();
    r.append("(function() {\n  const key = ");
    r.append(key_literal);
    r.append(";\n  const request = ");
    r.append(request_literal.as_str());
    r.append(START_SCRIPT_BODY);
    r
}

pub open spec fn poll_script_text(key_literal: Seq<char>) -> Seq<char> {
    "(window.__monGraphqlResults && window.__monGraphqlResults["@ + key_literal
        + "]) || { state: \"missing\" }"@
}

/// The code that reads the recorded result of a request.
pub fn poll_script(key_literal: &str) -> (r: String)
    ensures
        r@ == poll_script_text(key_literal@),
{
    let mut r = String::new();
    r.append("(window.__monGraphqlResults && window.__monGraphqlResults[");
    r.append(key_literal);
    r.append("]) || { state: \"missing\" }");
    r
}

pub open spec fn cleanup_script_text(k: Seq<char>) -> Seq<char> {
    "(function() {\n  if (!window.__monGraphqlResults || !window.__monGraphqlResults["@ + k
        + "]) return true;\n  if (window.__monGraphqlResults["@ + k
        + "].state === \"running\") {\n    window.__monGraphqlResults["@ + k
        + "] = { state: \"cancelled\" };\n  } else {\n    delete window.__monGraphqlResults["@ + k
        + "];\n  }\n  return true;\n})()"@
}

/// The code that drops the recorded result of a request, or marks a request
/// still running as cancelled.
pub fn cleanup_script(key_literal: &str) -> (r: String)
    ensures
        r@ == cleanup_script_text(key_literal@),
{
    let mut r = String::new();
    r.append("(function() {\n  if (!window.__monGraphqlResults || !window.__monGraphqlResults[");
    r.append(key_literal);
    r.append("]) return true;\n  if (window.__monGraphqlResults[");
    r.append(key_literal);
    r.append("].state === \"running\") {\n    window.__monGraphqlResults[");
    r.append(key_literal);
    r.append("] = { state: \"cancelled\" };\n  } else {\n    delete window.__monGraphqlResults[");
    r.append(key_literal);
    r.append("];\n  }\n  return true;\n})()");
    r
}

/// The page acknowledged the start of the request.
pub fn check_started(operation: &str, started: JsonValue) -> (r: Result<(), BrowserError>)
    ensures
        r is Ok <==> text_value(field(started, "state"@)) == Some("started"@),
        r matches Err(e) ==> e matches BrowserError::NotStarted { operation: o, started: s } && o@
            == operation@ && s == started,
{
    let ok = match as_text(started.get("state")) {
        Some(s) => str_eq(s.as_str(), "started"),
        None => false,
    };
    if ok {
        Ok(())
    } else {
        Err(BrowserError::NotStarted { operation: operation.to_owned(), started })
    }
}

/// What one poll of a request's result shows.
#[derive(Debug)]
pub enum PollStep {
    /// The request is over (done or failed); its record.
    Finished(JsonValue),
    /// The request is still running; poll again.
    Wait,
    /// Polling cannot go on.
    Failed(BrowserError),
}

/// A record in state `done` or `error` ends the polling; `running` or
/// `missing` waits, until the deadline has passed; any other state, or none,
/// is a failure.
pub open spec fn poll_agrees(operation: Seq<char>, key: Seq<char>, value: JsonValue, past_deadline: bool, r: PollStep) -> bool {
    match text_value(field(value, "state"@)) {
        Some(s) => if s == "done"@ || s == "error"@ {
            r == PollStep::Finished(value)
        } else if s == "running"@ || s == "missing"@ {
            if past_deadline {
                r matches PollStep::Failed(BrowserError::PollTimeout { operation: o, key: k })
                    && o@ == operation && k@ == key
            } else {
                r is Wait
            }
        } else {
            r matches PollStep::Failed(
                BrowserError::UnexpectedPollState { operation: o, state: st, value: v },
            ) && o@ == operation && st@ == s && v == value
        },
        None => r matches PollStep::Failed(BrowserError::PollWithoutState { operation: o, value: v })
            && o@ == operation && v == value,
    }
}

/// Polling ends with the page's record exactly when its state is `done` or
/// `error`; it waits only while the state is `running` or `missing` and the
/// deadline has not passed; past the deadline it never waits.
pub proof fn lemma_poll_meaning(operation: Seq<char>, key: Seq<char>, value: JsonValue, past_deadline: bool, r: PollStep)
    requires
        poll_agrees(operation, key, value, past_deadline, r),
    ensures
        (r matches PollStep::Finished(v) && v == value) <==> (field(value, "state"@) matches Some(
            JsonValue::Str(st),
        ) && (st@ == "done"@ || st@ == "error"@)),
        r is Wait ==> !past_deadline && (field(value, "state"@) matches Some(JsonValue::Str(st)) && (st@
            == "running"@ || st@ == "missing"@)),
        past_deadline ==> !(r is Wait),
        r is Finished || r is Wait || r is Failed,
{
}

pub fn poll_step(operation: &str, key: &str, value: JsonValue, past_deadline: bool) -> (r: PollStep)
    ensures
        poll_agrees(operation@, key@, value, past_deadline, r),
{
    let state: Option<String> = match as_text(value.get("state")) {
        Some(s) => Some(s.clone()),
        None => None,
    };
    match state {
        Some(s) => {
            if str_eq(s.as_str(), "done") || str_eq(s.as_str(), "error") {
                PollStep::Finished(value)
            } else if str_eq(s.as_str(), "running") || str_eq(s.as_str(), "missing") {
                if past_deadline {
                    PollStep::Failed(
                        BrowserError::PollTimeout {
                            operation: operation.to_owned(),
                            key: key.to_owned(),
                        },
                    )
                } else {
                    PollStep::Wait
                }
            } else {
                PollStep::Failed(
                    BrowserError::UnexpectedPollState {
                        operation: operation.to_owned(),
                        state: s,
                        value,
                    },
                )
            }
        },
        None => PollStep::Failed(
            BrowserError::PollWithoutState { operation: operation.to_owned(), value },
        ),
    }
}

/// An HTTP status as the GraphQL error reader takes it.
pub open spec fn status16(s: Option<u64>) -> Option<u16> {
    match s {
        Some(n) => if n <= 65535 {
            Some(n as u16)
        } else {
            None
        },
        None => None,
    }
}

/// The member `key` of an optional value.
pub open spec fn field_of(v: Option<JsonValue>, key: Seq<char>) -> Option<JsonValue> {
    match v {
        Some(x) => field(x, key),
        None => None,
    }
}

/// The top-level GraphQL errors of an optional body: `Some(Some(items))` for
/// a non-empty list, `Some(None)` for none, `None` when they cannot be read.
pub open spec fn body_errors(body: Option<JsonValue>) -> Option<Option<Seq<GraphqlErrorItem>>> {
    match body {
        None => Some(None),
        Some(b) => match field(b, "errors"@) {
            None => Some(None),
            Some(JsonValue::Null) => None,
            Some(x) => match spec_error_list(x) {
                None => None,
                Some(items) => if items.len() == 0 {
                    Some(None)
                } else {
                    Some(Some(items))
                },
            },
        },
    }
}

/// The text that explains a failed HTTP response: the body's `detail`, the
/// raw text, or a placeholder.
pub open spec fn http_detail(value: JsonValue) -> Seq<char> {
    match text_value(field_of(field(value, "body"@), "detail"@)) {
        Some(t) => t,
        None => match text_value(field(value, "text"@)) {
            Some(t) => t,
            None => "no response detail"@,
        },
    }
}

/// How the record of a finished browser request is read.
///
/// - A failed `fetch` and a state other than done are failures.
/// - Top-level GraphQL errors in the body are reported as such, with the
///   HTTP status, also when the status is not a success (an HTTP 400 envelope
///   is how Monarch reports a document it cannot run).
/// - Any other unsuccessful status is an HTTP failure.
/// - Otherwise the body (or its `data` member) is the result.
pub open spec fn interpret_agrees(operation: Seq<char>, value: JsonValue, full: bool, r: Result<JsonValue, TransportFailure>) -> bool {
    let state = text_value(field(value, "state"@));
    let status = u64_value(field(value, "status"@));
    let body = field(value, "body"@);
    if state == Some("error"@) {
        r matches Err(TransportFailure::Browser(BrowserError::FailedBeforeResponse { operation: o, error: e }))
            && o@ == operation && e@ == match text_value(field(value, "error"@)) {
            Some(t) => t,
            None => "unknown browser error"@,
        }
    } else if state != Some("done"@) {
        r matches Err(TransportFailure::Browser(BrowserError::UnexpectedState { operation: o, value: v }))
            && o@ == operation && v == value
    } else if bool_value(field(value, "ok"@)) != Some(true) {
        match body_errors(body) {
            Some(Some(items)) => r matches Err(TransportFailure::Graphql(e)) && e.operation@
                == operation && e.http_status == status16(status) && e.errors@ == items,
            _ => r matches Err(
                TransportFailure::Browser(
                    BrowserError::HttpFailure { operation: o, status: s, status_text: t, detail: d },
                ),
            ) && o@ == operation && s == match status {
                Some(n) => n,
                None => 0,
            } && t@ == match text_value(field(value, "statusText"@)) {
                Some(x) => x,
                None => Seq::<char>::empty(),
            } && d@ == http_detail(value),
        }
    } else {
        match body {
            None => r matches Err(TransportFailure::Browser(BrowserError::MissingBody)),
            Some(b) => match body_errors(body) {
                None => r matches Err(TransportFailure::Errors(pe)) && response_error_agrees(
                    operation,
                    status16(status),
                    b,
                    Err(pe),
                ),
                Some(Some(items)) => r matches Err(TransportFailure::Graphql(e)) && e.operation@
                    == operation && e.http_status == status16(status) && e.errors@ == items,
                Some(None) => if full {
                    r == Ok::<JsonValue, TransportFailure>(b)
                } else {
                    match field(b, "data"@) {
                        Some(d) => r == Ok::<JsonValue, TransportFailure>(d),
                        None => r matches Err(
                            TransportFailure::Browser(BrowserError::MissingData { operation: o }),
                        ) && o@ == operation,
                    }
                },
            },
        }
    }
}

/// A browser request succeeds only when the page reports it done with an
/// ok HTTP status and a JSON body without errors; the result is then the
/// body, or its `data` member. A `fetch` that failed is reported as such,
/// and a body with GraphQL errors is reported as those errors, whatever
/// the HTTP status.
pub proof fn lemma_browser_result_meaning(operation: Seq<char>, value: JsonValue, full: bool, r: Result<JsonValue, TransportFailure>)
    requires
        interpret_agrees(operation, value, full, r),
    ensures
        r matches Ok(v) ==> field(value, "state"@) matches Some(JsonValue::Str(st)) && st@ == "done"@
            && field(value, "ok"@) == Some(JsonValue::Bool(true)) && match field(value, "body"@) {
            Some(b) => (match field(b, "errors"@) {
                None => true,
                Some(JsonValue::Array(xs)) => xs@.len() == 0,
                _ => false,
            }) && if full {
                v == b
            } else {
                field(b, "data"@) == Some(v)
            },
            None => false,
        },
        (field(value, "state"@) matches Some(JsonValue::Str(st)) && st@ == "error"@) ==> (r matches Err(
            TransportFailure::Browser(BrowserError::FailedBeforeResponse { .. }),
        )),
        (field(value, "state"@) matches Some(JsonValue::Str(st)) && st@ == "done"@) ==> (match field(
            value,
            "body"@,
        ) {
            Some(b) => match field(b, "errors"@) {
                Some(x) => match spec_error_list(x) {
                    Some(items) => items.len() > 0 ==> (r matches Err(TransportFailure::Graphql(e))
                        && e.errors@ == items),
                    None => true,
                },
                None => true,
            },
            None => true,
        }),
{
    reveal_strlit("done");
    reveal_strlit("error");
    assert("done"@.len() != "error"@.len());
    if let Ok(v) = r {
        let b = field(value, "body"@)->0;
        if let Some(x) = field(b, "errors"@) {
            if let Some(items) = spec_error_list(x) {
                assert(x is Array);
            }
        }
    }
}

fn owned_text(v: Option<&JsonValue>) -> (r: Option<String>)
    ensures
        match r {
            Some(s) => text_value(
                match v {
                    Some(x) => Some(*x),
                    None => None,
                },
            ) == Some(s@),
            None => text_value(
                match v {
                    Some(x) => Some(*x),
                    None => None,
                },
            ) is None,
        },
{
    match as_text(v) {
        Some(s) => Some(s.clone()),
        None => None,
    }
}

/// Reads the record of a finished browser GraphQL request: the body when
/// `full`, else its `data`.
pub fn interpret_graphql_result(operation: &str, value: JsonValue, full: bool) -> (r: Result<
    JsonValue,
    TransportFailure,
>)
    ensures
        interpret_agrees(operation@, value, full, r),
{
    let state = owned_text(value.get("state"));
    let is_error = match &state {
        Some(s) => str_eq(s.as_str(), "error"),
        None => false,
    };
    if is_error {
        let error = match owned_text(value.get("error")) {
            Some(e) => e,
            None => "unknown browser error".to_owned(),
        };
        return Err(
            TransportFailure::Browser(
                BrowserError::FailedBeforeResponse { operation: operation.to_owned(), error },
            ),
        );
    }
    let is_done = match &state {
        Some(s) => str_eq(s.as_str(), "done"),
        None => false,
    };
    if !is_done {
        return Err(
            TransportFailure::Browser(
                BrowserError::UnexpectedState { operation: operation.to_owned(), value },
            ),
        );
    }
    let ok = match as_bool(value.get("ok")) {
        Some(b) => b,
        None => false,
    };
    let status = as_u64(value.get("status"));
    let status_small: Option<u16> = match status {
        Some(n) => if n <= 65535 {
            Some(n as u16)
        } else {
            None
        },
        None => None,
    };
    let status_text = match owned_text(value.get("statusText")) {
        Some(t) => t,
        None => String::new(),
    };
    let raw_text = owned_text(value.get("text"));
    let ghost given = value;
    let body = value.take("body");
    let detail = match &body {
        Some(b) => owned_text(b.get("detail")),
        None => None,
    };
    let detail = match detail {
        Some(d) => d,
        None => match raw_text {
            Some(t) => t,
            None => "no response detail".to_owned(),
        },
    };
    assert(detail@ == http_detail(given));
    let errors = match &body {
        Some(b) => response_error(operation, status_small, b),
        None => Ok(None),
    };
    if !ok {
        assert(bool_value(field(given, "ok"@)) != Some(true));
        assert(text_value(field(given, "state"@)) == Some("done"@));
        assert(body == field(given, "body"@));
        return match errors {
            Ok(Some(e)) => Err(TransportFailure::Graphql(e)),
            _ => Err(
                TransportFailure::Browser(
                    BrowserError::HttpFailure {
                        operation: operation.to_owned(),
                        status: match status {
                            Some(n) => n,
                            None => 0,
                        },
                        status_text,
                        detail,
                    },
                ),
            ),
        };
    }
    let body = match body {
        Some(b) => b,
        None => return Err(TransportFailure::Browser(BrowserError::MissingBody)),
    };
    match errors {
        Err(pe) => Err(TransportFailure::Errors(pe)),
        Ok(Some(e)) => Err(TransportFailure::Graphql(e)),
        Ok(None) => {
            if full {
                Ok(body)
            } else {
                match body.take("data") {
                    Some(d) => Ok(d),
                    None => Err(
                        TransportFailure::Browser(
                            BrowserError::MissingData { operation: operation.to_owned() },
                        ),
                    ),
                }
            }
        },
    }
}

/// The text of the first `{ "type": "text", "text": ... }` item.
pub open spec fn first_text(items: Seq<JsonValue>) -> Option<Seq<char>>
    decreases items.len(),
{
    if items.len() == 0 {
        None
    } else if text_value(field(items[0], "type"@)) == Some("text"@) && text_value(
        field(items[0], "text"@),
    ) is Some {
        text_value(field(items[0], "text"@))
    } else {
        first_text(items.drop_first())
    }
}

/// The text content of an MCP tool result.
pub open spec fn content_text(result: JsonValue) -> Option<Seq<char>> {
    match field(result, "content"@) {
        Some(JsonValue::Array(items)) => first_text(items@),
        _ => None,
    }
}

/// How an MCP answer to a tool call is read: an RPC error, a missing result
/// or a missing text content is a failure; a result flagged `isError` is a
/// failure with its text; otherwise the text is the answer.
pub open spec fn tool_text_agrees(name: Seq<char>, body: JsonValue, r: Result<String, BrowserError>) -> bool {
    match field(body, "error"@) {
        Some(e) => r matches Err(BrowserError::RpcError { name: n, error: x }) && n@ == name && x
            == e,
        None => match field(body, "result"@) {
            None => r matches Err(BrowserError::MissingResult),
            Some(res) => match content_text(res) {
                None => r matches Err(BrowserError::MissingTextContent),
                Some(t) => if bool_value(field(res, "isError"@)) == Some(true) {
                    r matches Err(BrowserError::ToolFailed { name: n, text: x }) && n@ == name && x@
                        == t
                } else {
                    r matches Ok(x) && x@ == t
                },
            },
        },
    }
}

/// A content item `{ "type": "text", "text": ... }`.
pub open spec fn text_item(item: JsonValue) -> bool {
    text_value(field(item, "type"@)) == Some("text"@) && text_value(field(item, "text"@)) is Some
}

proof fn lemma_first_text(items: Seq<JsonValue>)
    ensures
        first_text(items) matches Some(t) ==> exists|k: int|
            0 <= k < items.len() && text_item(#[trigger] items[k]) && text_value(field(items[k], "text"@))
                == Some(t) && forall|j: int|
                0 <= j < k ==> !text_item(#[trigger] items[j]),
        first_text(items) is None ==> forall|k: int| 0 <= k < items.len() ==> !text_item(#[trigger] items[k]),
    decreases items.len(),
{
    if items.len() > 0 {
        let rest = items.drop_first();
        lemma_first_text(rest);
        if !text_item(items[0]) {
            if let Some(t) = first_text(items) {
                let k = choose|k: int|
                    0 <= k < rest.len() && text_item(#[trigger] rest[k]) && text_value(field(rest[k], "text"@))
                        == Some(t) && forall|j: int|
                        0 <= j < k ==> !text_item(#[trigger] rest[j]);
                assert(items[k + 1] == rest[k]);
                assert forall|j: int| 0 <= j < k + 1 implies !text_item(#[trigger] items[j]) by {
                    if j > 0 {
                        assert(items[j] == rest[j - 1]);
                    }
                }
            } else {
                assert forall|k: int| 0 <= k < items.len() implies !text_item(#[trigger] items[k]) by {
                    if k > 0 {
                        assert(items[k] == rest[k - 1]);
                    }
                }
            }
        }
    }
}

/// A tool call answers text only when the answer has no RPC error, has a
/// result that is not flagged `isError`, and that result's content has a
/// text item: the text is that of its first text item.
pub proof fn lemma_tool_text_meaning(name: Seq<char>, body: JsonValue, r: Result<String, BrowserError>)
    requires
        tool_text_agrees(name, body, r),
    ensures
        r matches Ok(t) ==> field(body, "error"@) is None && match field(body, "result"@) {
            Some(res) => field(res, "isError"@) != Some(JsonValue::Bool(true)) && match field(res, "content"@) {
                Some(JsonValue::Array(items)) => exists|k: int|
                    0 <= k < items@.len() && text_item(#[trigger] items@[k]) && text_value(field(items@[k], "text"@))
                        == Some(t@) && forall|j: int|
                        0 <= j < k ==> !text_item(#[trigger] items@[j]),
                _ => false,
            },
            None => false,
        },
        field(body, "error"@) is Some ==> (r matches Err(BrowserError::RpcError { .. })),
{
    if let Some(res) = field(body, "result"@) {
        if let Some(JsonValue::Array(items)) = field(res, "content"@) {
            lemma_first_text(items@);
        }
    }
}

fn first_text_of(items: &Vec<JsonValue>) -> (r: Option<String>)
    ensures
        match r {
            Some(s) => first_text(items@) == Some(s@),
            None => first_text(items@) is None,
        },
{
    let mut i: usize = 0;
    assert(items@.skip(0) =~= items@);
    while i < items.len()
        invariant
            i <= items@.len(),
            first_text(items@) == first_text(items@.skip(i as int)),
        decreases items@.len() - i,
    {
        let item = &items[i];
        assert(items@.skip(i as int)[0] == *item);
        let is_text_item = match as_text(item.get("type")) {
            Some(t) => str_eq(t.as_str(), "text"),
            None => false,
        };
        if is_text_item {
            match owned_text(item.get("text")) {
                Some(t) => return Some(t),
                None => {},
            }
        }
        assert(items@.skip(i as int).drop_first() =~= items@.skip(i + 1));
        i = i + 1;
    }
    None
}

/// The text that an MCP tool call returned.
pub fn tool_text(name: &str, body: JsonValue) -> (r: Result<String, BrowserError>)
    ensures
        tool_text_agrees(name@, body, r),
{
    if body.get("error").is_some() {
        let e = body.take("error");
        match e {
            Some(x) => return Err(BrowserError::RpcError { name: name.to_owned(), error: x }),
            None => return Err(BrowserError::MissingResult),
        }
    }
    let result = match body.take("result") {
        Some(r) => r,
        None => return Err(BrowserError::MissingResult),
    };
    let text = match result.get("content") {
        Some(JsonValue::Array(items)) => first_text_of(items),
        _ => None,
    };
    let text = match text {
        Some(t) => t,
        None => return Err(BrowserError::MissingTextContent),
    };
    let failed = match as_bool(result.get("isError")) {
        Some(b) => b,
        None => false,
    };
    if failed {
        Err(BrowserError::ToolFailed { name: name.to_owned(), text })
    } else {
        Ok(text)
    }
}

/// The tab to use: the Monarch tab of the listing, in the requested browser
/// or else the browser the listing names.
pub fn select_tab(requested_browser_id: Option<String>, listing: &str) -> (r: Result<
    (u64, Option<String>),
    BrowserError,
>)
    ensures
        match monarch_tab(listing@) {
            None => r matches Err(BrowserError::NoMonarchTab),
            Some(t) => r matches Ok((id, b)) && id == t.id && match requested_browser_id {
                Some(q) => b == Some(q),
                None => match (b, browser_id_in(lines(listing@))) {
                    (Some(x), Some(y)) => x@ == y,
                    (None, None) => true,
                    _ => false,
                },
            },
        },
{
    let parsed = parse_browser_id(listing);
    let tab = match parse_tabs_context(listing) {
        Some(t) => t,
        None => return Err(BrowserError::NoMonarchTab),
    };
    let browser = match requested_browser_id {
        Some(q) => Some(q),
        None => parsed,
    };
    Ok((tab.id, browser))
}

} // verus!
