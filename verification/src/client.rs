//! The saved-token Monarch API client's decisions: the login request and
//! how its answer and GraphQL answers are read.
use vstd::prelude::*;
use vstd::string::*;
use crate::json::{JsonValue, JsonMember, member, field, slot, record_shape, record_slot, has_record_shape};
use crate::graphql::{spec_error_list, GraphqlResponseError, GraphqlParseError, response_error, response_error_agrees};
use crate::browser::body_errors;
use crate::queries::{member_is, is_text};
use crate::text::{is_blank_str};

verus! {

pub const BASE_URL: &'static str = "https://api.monarch.com";

pub const LOGIN_PATH: &'static str = "/auth/login/";

pub const GRAPHQL_PATH: &'static str = "/graphql";

pub const USER_AGENT_VALUE: &'static str = "mon/0.1.0 (https://github.com/xiaotianxt/mon)";

/// The API's base URL.
pub fn base_url() -> (r: &'static str)
    ensures
        r == BASE_URL,
{
    BASE_URL
}

#[derive(Debug)]
pub enum LoginResult {
    Token(String),
    MfaRequired,
}

/// The body of a login request; the MFA code is sent only when given.
pub fn login_body(email: &str, password: &str, mfa_code: Option<&str>) -> (r: JsonValue)
    ensures
        r matches JsonValue::Object(ms) && member_is(ms@, 0, "username"@, |v: JsonValue| is_text(v, email@))
            && member_is(ms@, 1, "password"@, |v: JsonValue| is_text(v, password@)) && member_is(
            ms@,
            2,
            "supports_mfa"@,
            |v: JsonValue| v == JsonValue::Bool(true),
        ) && member_is(ms@, 3, "trusted_device"@, |v: JsonValue| v == JsonValue::Bool(false))
            && match mfa_code {
            Some(c) => ms@.len() == 5 && member_is(ms@, 4, "totp"@, |v: JsonValue| is_text(v, c@)),
            None => ms@.len() == 4,
        },
{
    let mut ms: Vec<JsonMember> = vec![
        member("username", JsonValue::string(email)),
        member("password", JsonValue::string(password)),
        member("supports_mfa", JsonValue::Bool(true)),
        member("trusted_device", JsonValue::Bool(false)),
    ];
    match mfa_code {
        Some(c) => ms.push(member("totp", JsonValue::string(c))),
        None => {},
    }
    JsonValue::Object(ms)
}

/// The `Authorization` header value for a token.
pub fn authorization_value(token: &str) -> (r: String)
    ensures
        r@ == "Token "@ + token@,
{
    let mut r = String::new();
    r.append("Token ");
    r.append(token);
    r
}

/// Failures of the saved-token client.
#[derive(Debug)]
pub enum ClientError {
    /// No token to send.
    MissingToken,
    /// The login endpoint redirected.
    LoginRedirected { location: String },
    /// The login failed with an HTTP status.
    LoginFailed { status: u16 },
    /// The login answer holds no token.
    UnreadableLoginResponse,
    /// A GraphQL request was redirected.
    Redirected { operation: String, location: String },
    /// A GraphQL request failed with an HTTP status.
    HttpFailure { operation: String, status: u16, body: JsonValue },
    /// A GraphQL response had no `data`.
    MissingData { operation: String },
}

/// What the status of a login answer calls for.
#[derive(Debug, Clone, Copy, PartialEq, Eq, Structural)]
pub enum LoginStatus {
    /// 403: Monarch wants an MFA code.
    MfaRequired,
    /// 3xx: the endpoint moved.
    Redirected,
    /// Any other status that is not a success.
    Failed,
    /// 2xx: the body carries the token.
    Succeeded,
}

pub open spec fn spec_login_status(status: u16) -> LoginStatus {
    if status == 403 {
        LoginStatus::MfaRequired
    } else if 300 <= status <= 399 {
        LoginStatus::Redirected
    } else if !(200 <= status <= 299) {
        LoginStatus::Failed
    } else {
        LoginStatus::Succeeded
    }
}

pub fn login_status(status: u16) -> (r: LoginStatus)
    ensures
        r == spec_login_status(status),
{
    if status == 403 {
        LoginStatus::MfaRequired
    } else if 300 <= status && status <= 399 {
        LoginStatus::Redirected
    } else if !(200 <= status && status <= 299) {
        LoginStatus::Failed
    } else {
        LoginStatus::Succeeded
    }
}

/// An HTTP status that redirects (3xx); the client follows no redirect and
/// refuses such an answer.
pub fn is_redirect(status: u16) -> (r: bool)
    ensures
        r == (300 <= status <= 399),
{
    300 <= status && status <= 399
}

/// The token of a successful login answer `{ "token": ... }`.
pub fn login_token(x: &JsonValue) -> (r: Result<LoginResult, ClientError>)
    ensures
        match (record_shape(*x, 1), slot(*x, "token"@, 0)) {
            (true, Some(JsonValue::Str(t))) => r matches Ok(LoginResult::Token(s)) && s == t,
            _ => r matches Err(ClientError::UnreadableLoginResponse),
        },
{
    if !has_record_shape(x, 1) {
        return Err(ClientError::UnreadableLoginResponse);
    }
    match record_slot(x, "token", 0) {
        Some(JsonValue::Str(t)) => Ok(LoginResult::Token(t.clone())),
        _ => Err(ClientError::UnreadableLoginResponse),
    }
}

/// Why a saved-token GraphQL call failed.
#[derive(Debug)]
pub enum ClientFailure {
    Graphql(GraphqlResponseError),
    Errors(GraphqlParseError),
    Client(ClientError),
}

/// A token must be present and not empty before a GraphQL call.
pub fn check_token(token: Option<&str>) -> (r: Result<(), ClientError>)
    ensures
        r is Ok <==> (token matches Some(t) && t@.len() > 0),
{
    match token {
        Some(t) => if t.unicode_len() > 0 {
            Ok(())
        } else {
            Err(ClientError::MissingToken)
        },
        None => Err(ClientError::MissingToken),
    }
}

/// How a GraphQL answer of HTTP `status` is read: top-level GraphQL errors
/// are reported as such, with the status; any other unsuccessful status is an
/// HTTP failure; unreadable errors are refused; otherwise the body (or its
/// `data`) is the result.
pub open spec fn client_result_agrees(operation: Seq<char>, status: u16, value: JsonValue, full: bool, r: Result<JsonValue, ClientFailure>) -> bool {
    match body_errors(Some(value)) {
        Some(Some(items)) => r matches Err(ClientFailure::Graphql(e)) && e.operation@ == operation
            && e.http_status == Some(status) && e.errors@ == items,
        _ => if !(200 <= status <= 299) {
            r matches Err(ClientFailure::Client(ClientError::HttpFailure { operation: o, status: s, body: b }))
                && o@ == operation && s == status && b == value
        } else {
            match body_errors(Some(value)) {
                None => r matches Err(ClientFailure::Errors(pe)) && response_error_agrees(
                    operation,
                    Some(status),
                    value,
                    Err(pe),
                ),
                _ => if full {
                    r == Ok::<JsonValue, ClientFailure>(value)
                } else {
                    match field(value, "data"@) {
                        Some(d) => r == Ok::<JsonValue, ClientFailure>(d),
                        None => r matches Err(ClientFailure::Client(ClientError::MissingData { operation: o }))
                            && o@ == operation,
                    }
                },
            }
        },
    }
}

/// A saved-token GraphQL answer succeeds only with a 2xx status and a body
/// without errors; the result is then the body, or its `data` member. GraphQL
/// errors in the body are reported as those errors, with the status, whatever
/// the status is; any other unsuccessful status is an HTTP failure.
pub proof fn lemma_client_result_meaning(operation: Seq<char>, status: u16, value: JsonValue, full: bool, r: Result<JsonValue, ClientFailure>)
    requires
        client_result_agrees(operation, status, value, full, r),
    ensures
        r matches Ok(v) ==> 200 <= status <= 299 && (match field(value, "errors"@) {
            None => true,
            Some(JsonValue::Array(xs)) => xs@.len() == 0,
            _ => false,
        }) && if full {
            v == value
        } else {
            field(value, "data"@) == Some(v)
        },
        match field(value, "errors"@) {
            Some(x) => match spec_error_list(x) {
                Some(items) => items.len() > 0 ==> (r matches Err(ClientFailure::Graphql(e))
                    && e.errors@ == items && e.http_status == Some(status)),
                None => true,
            },
            None => true,
        },
        !(200 <= status <= 299) && !(match field(value, "errors"@) {
            Some(x) => match spec_error_list(x) {
                Some(items) => items.len() > 0,
                None => false,
            },
            None => false,
        }) ==> (r matches Err(ClientFailure::Client(ClientError::HttpFailure { .. }))),
{
    if let Some(x) = field(value, "errors"@) {
        if let Some(items) = spec_error_list(x) {
            assert(x is Array);
        }
    }
}

pub fn client_graphql_result(operation: &str, status: u16, value: JsonValue, full: bool) -> (r: Result<
    JsonValue,
    ClientFailure,
>)
    ensures
        client_result_agrees(operation@, status, value, full, r),
{
    let errors = response_error(operation, Some(status), &value);
    match errors {
        Ok(Some(e)) => return Err(ClientFailure::Graphql(e)),
        _ => {},
    }
    if !(200 <= status && status <= 299) {
        return Err(
            ClientFailure::Client(
                ClientError::HttpFailure { operation: operation.to_owned(), status, body: value },
            ),
        );
    }
    match errors {
        Err(pe) => Err(ClientFailure::Errors(pe)),
        _ => {
            if full {
                Ok(value)
            } else {
                match value.take("data") {
                    Some(d) => Ok(d),
                    None => Err(
                        ClientFailure::Client(
                            ClientError::MissingData { operation: operation.to_owned() },
                        ),
                    ),
                }
            }
        },
    }
}

} // verus!
