//! Top-level GraphQL errors: how they are read from a response and how a
//! failed operation is classified.
use vstd::prelude::*;
use vstd::string::*;
use crate::json::{JsonValue, field, slot, record_shape, record_slot, has_record_shape};
use crate::text::{str_eq, join, texts, join_strings};
use crate::read_problem::{ListOf, ListProblem, list_problem, list_problem_text, item_problem_of, lemma_first_failing};

verus! {

#[derive(Debug, Clone, Copy, PartialEq, Eq, Structural)]
pub enum GraphqlErrorClass {
    /// The operation does not fit the server's schema.
    SchemaIncompatible,
    /// The server definitively refused the request's input.
    DefinitiveRejection,
    /// Nothing can be concluded about what the server did.
    Ambiguous,
}

#[derive(Debug)]
pub struct GraphqlErrorExtensions {
    pub code: Option<String>,
}

#[derive(Debug)]
pub struct GraphqlErrorItem {
    pub message: String,
    pub extensions: Option<GraphqlErrorExtensions>,
}

/// The top-level `errors` of one GraphQL response.
#[derive(Debug)]
pub struct GraphqlResponseError {
    pub operation: String,
    pub http_status: Option<u16>,
    pub errors: Vec<GraphqlErrorItem>,
}

/// Why the `errors` of a response could not be read.
#[derive(Debug)]
pub enum GraphqlParseError {
    /// `errors` was present but `null`.
    NullErrors { operation: String },
    /// `errors` did not have the shape of a list of GraphQL errors.
    Unreadable { operation: String, problem: ListProblem },
}

/// The extension code of an error, when it has one.
pub open spec fn code_of(e: GraphqlErrorItem) -> Option<String> {
    match e.extensions {
        Some(x) => x.code,
        None => None,
    }
}

pub open spec fn is_schema_code(c: Seq<char>) -> bool {
    c == "GRAPHQL_VALIDATION_FAILED"@ || c == "GRAPHQL_PARSE_FAILED"@
}

pub open spec fn is_bad_input_code(c: Seq<char>) -> bool {
    c == "BAD_USER_INPUT"@
}

pub open spec fn some_code(errors: Seq<GraphqlErrorItem>) -> bool {
    exists|i: int| 0 <= i < errors.len() && (#[trigger] code_of(errors[i])) is Some
}

pub open spec fn all_codes(errors: Seq<GraphqlErrorItem>, p: spec_fn(Seq<char>) -> bool) -> bool {
    forall|i: int|
        0 <= i < errors.len() && (#[trigger] code_of(errors[i])) is Some ==> p(
            code_of(errors[i])->0@,
        )
}

/// The class of a set of top-level errors: schema incompatibility when every
/// extension code present says so, a definitive rejection when every code
/// present is `BAD_USER_INPUT`, schema incompatibility for an HTTP 400
/// GraphQL envelope otherwise, and ambiguous in every other case.
pub open spec fn spec_class(errors: Seq<GraphqlErrorItem>, http_status: Option<u16>) -> GraphqlErrorClass {
    if some_code(errors) && all_codes(errors, |c: Seq<char>| is_schema_code(c)) {
        GraphqlErrorClass::SchemaIncompatible
    } else if some_code(errors) && all_codes(errors, |c: Seq<char>| is_bad_input_code(c)) {
        GraphqlErrorClass::DefinitiveRejection
    } else if http_status == Some(400u16) {
        GraphqlErrorClass::SchemaIncompatible
    } else {
        GraphqlErrorClass::Ambiguous
    }
}

/// How serde reads `GraphqlErrorExtensions { code: Option<String> }` (the
/// field has a default).
pub open spec fn spec_extensions(x: JsonValue) -> Option<GraphqlErrorExtensions> {
    if !record_shape(x, 1) {
        None
    } else {
        match slot(x, "code"@, 0) {
            None => Some(GraphqlErrorExtensions { code: None }),
            Some(JsonValue::Null) => Some(GraphqlErrorExtensions { code: None }),
            Some(JsonValue::Str(c)) => Some(GraphqlErrorExtensions { code: Some(c) }),
            _ => None,
        }
    }
}

/// How serde reads `GraphqlErrorItem { message: String, extensions:
/// Option<GraphqlErrorExtensions> }` (the second field has a default).
pub open spec fn spec_error_item(x: JsonValue) -> Option<GraphqlErrorItem> {
    if !record_shape(x, 2) {
        None
    } else {
        match slot(x, "message"@, 0) {
            Some(JsonValue::Str(m)) => match slot(x, "extensions"@, 1) {
                None => Some(GraphqlErrorItem { message: m, extensions: None }),
                Some(JsonValue::Null) => Some(GraphqlErrorItem { message: m, extensions: None }),
                Some(e) => match spec_extensions(e) {
                    Some(ext) => Some(GraphqlErrorItem { message: m, extensions: Some(ext) }),
                    None => None,
                },
            },
            _ => None,
        }
    }
}

/// How serde reads `Vec<GraphqlErrorItem>`.
pub open spec fn spec_error_list(x: JsonValue) -> Option<Seq<GraphqlErrorItem>> {
    match x {
        JsonValue::Array(xs) => if forall|i: int|
            0 <= i < xs@.len() ==> (#[trigger] spec_error_item(xs@[i])) is Some {
            Some(Seq::new(xs@.len(), |i: int| spec_error_item(xs@[i])->0))
        } else {
            None
        },
        _ => None,
    }
}

/// The line describing one error: `[code] message`, or the message alone.
pub open spec fn error_line(e: GraphqlErrorItem) -> Seq<char> {
    match code_of(e) {
        Some(c) => "["@ + c@ + "] "@ + e.message@,
        None => e.message@,
    }
}

/// The text of a `GraphqlResponseError`.
pub open spec fn spec_describe(e: GraphqlResponseError) -> Seq<char> {
    let lines = Seq::new(e.errors@.len(), |i: int| error_line(e.errors@[i]));
    let descriptions = join(lines, "; "@);
    if spec_class(e.errors@, e.http_status) == GraphqlErrorClass::SchemaIncompatible {
        "Monarch schema is incompatible with GraphQL operation "@ + e.operation@ + ": "@
            + descriptions
    } else {
        "GraphQL "@ + e.operation@ + " returned errors: "@ + descriptions
    }
}

impl GraphqlResponseError {
    pub fn class(&self) -> (r: GraphqlErrorClass)
        ensures
            r == spec_class(self.errors@, self.http_status),
    {
        let mut has = false;
        let mut all_schema = true;
        let mut all_bad = true;
        let mut i: usize = 0;
        while i < self.errors.len()
            invariant
                i <= self.errors@.len(),
                has == (exists|j: int| 0 <= j < i && (#[trigger] code_of(self.errors@[j])) is Some),
                all_schema == (forall|j: int|
                    0 <= j < i && (#[trigger] code_of(self.errors@[j])) is Some ==> is_schema_code(
                        code_of(self.errors@[j])->0@,
                    )),
                all_bad == (forall|j: int|
                    0 <= j < i && (#[trigger] code_of(self.errors@[j])) is Some ==> is_bad_input_code(
                        code_of(self.errors@[j])->0@,
                    )),
            decreases self.errors@.len() - i,
        {
            let item = &self.errors[i];
            let code: Option<&String> = match &item.extensions {
                Some(x) => match &x.code {
                    Some(c) => Some(c),
                    None => None,
                },
                None => None,
            };
            let ghost ci = code_of(self.errors@[i as int]);
            match code {
                Some(c) => {
                    assert(ci == Some(*c));
                    has = true;
                    let schema = str_eq(c.as_str(), "GRAPHQL_VALIDATION_FAILED") || str_eq(
                        c.as_str(),
                        "GRAPHQL_PARSE_FAILED",
                    );
                    let bad = str_eq(c.as_str(), "BAD_USER_INPUT");
                    all_schema = all_schema && schema;
                    all_bad = all_bad && bad;
                },
                None => {
                    assert(ci is None);
                },
            }
            proof {
                assert forall|j: int| 0 <= j < i + 1 && j != i implies #[trigger] code_of(
                    self.errors@[j],
                ) == code_of(self.errors@[j]) by {}
                if ci is Some {
                    assert(0 <= i < i + 1 && code_of(self.errors@[i as int]) is Some);
                }
            }
            i = i + 1;
        }
        if has && all_schema {
            GraphqlErrorClass::SchemaIncompatible
        } else if has && all_bad {
            GraphqlErrorClass::DefinitiveRejection
        } else if self.http_status == Some(400u16) {
            GraphqlErrorClass::SchemaIncompatible
        } else {
            GraphqlErrorClass::Ambiguous
        }
    }

    /// The error's text (its `Display` form).
    pub fn describe(&self) -> (r: String)
        ensures
            r@ == spec_describe(*self),
    {
        let mut lines: Vec<String> = Vec::new();
        let mut i: usize = 0;
        while i < self.errors.len()
            invariant
                i <= self.errors@.len(),
                texts(lines@) =~= Seq::new(i as nat, |j: int| error_line(self.errors@[j])),
            decreases self.errors@.len() - i,
        {
            let item = &self.errors[i];
            let code: Option<&String> = match &item.extensions {
                Some(x) => match &x.code {
                    Some(c) => Some(c),
                    None => None,
                },
                None => None,
            };
            let line = match code {
                Some(c) => {
                    let mut l = String::new();
                    l.append("[");
                    l.append(c.as_str());
                    l.append("] ");
                    l.append(item.message.as_str());
                    l
                },
                None => item.message.clone(),
            };
            let ghost before = lines@;
            assert(line@ == error_line(self.errors@[i as int]));
            lines.push(line);
            assert(texts(lines@) =~= texts(before).push(line@));
            i = i + 1;
        }
        let descriptions = join_strings(&lines, "; ");
        let mut r = String::new();
        if self.class() == GraphqlErrorClass::SchemaIncompatible {
            r.append("Monarch schema is incompatible with GraphQL operation ");
            r.append(self.operation.as_str());
            r.append(": ");
        } else {
            r.append("GraphQL ");
            r.append(self.operation.as_str());
            r.append(" returned errors: ");
        }
        r.append(descriptions.as_str());
        r
    }
}

impl GraphqlParseError {
    /// The error's text.
    pub fn message(&self) -> (r: String)
        ensures
            r@ == match self {
                GraphqlParseError::NullErrors { operation } => "GraphQL "@ + operation@
                    + " response contained null errors"@,
                GraphqlParseError::Unreadable { operation, problem } => "failed to parse GraphQL errors for "@
                    + operation@ + ": "@ + list_problem_text(*problem),
            },
    {
        let mut r = String::new();
        match self {
            GraphqlParseError::NullErrors { operation } => {
                r.append("GraphQL ");
                r.append(operation.as_str());
                r.append(" response contained null errors");
            },
            GraphqlParseError::Unreadable { operation, problem } => {
                r.append("failed to parse GraphQL errors for ");
                r.append(operation.as_str());
                r.append(": ");
                let p = problem.message();
                r.append(p.as_str());
            },
        }
        r
    }
}

fn parse_extensions(x: &JsonValue) -> (r: Option<GraphqlErrorExtensions>)
    ensures
        r == spec_extensions(*x),
{
    if !has_record_shape(x, 1) {
        return None;
    }
    match record_slot(x, "code", 0) {
        None => Some(GraphqlErrorExtensions { code: None }),
        Some(JsonValue::Null) => Some(GraphqlErrorExtensions { code: None }),
        Some(JsonValue::Str(c)) => Some(GraphqlErrorExtensions { code: Some(c.clone()) }),
        _ => None,
    }
}

fn parse_error_item(x: &JsonValue) -> (r: Option<GraphqlErrorItem>)
    ensures
        r == spec_error_item(*x),
{
    if !has_record_shape(x, 2) {
        return None;
    }
    let message = match record_slot(x, "message", 0) {
        Some(JsonValue::Str(m)) => m.clone(),
        _ => return None,
    };
    match record_slot(x, "extensions", 1) {
        None => Some(GraphqlErrorItem { message, extensions: None }),
        Some(JsonValue::Null) => Some(GraphqlErrorItem { message, extensions: None }),
        Some(e) => match parse_extensions(e) {
            Some(ext) => Some(GraphqlErrorItem { message, extensions: Some(ext) }),
            None => None,
        },
    }
}

fn parse_error_list(x: &JsonValue) -> (r: Result<Vec<GraphqlErrorItem>, ListProblem>)
    ensures
        match r {
            Ok(v) => spec_error_list(*x) == Some(v@),
            Err(p) => spec_error_list(*x) is None && p == list_problem(ListOf::GraphqlErrors, *x),
        },
{
    match x {
        JsonValue::Array(xs) => {
            let mut items: Vec<GraphqlErrorItem> = Vec::new();
            let mut i: usize = 0;
            while i < xs.len()
                invariant
                    *x == JsonValue::Array(*xs),
                    i <= xs@.len(),
                    forall|j: int| 0 <= j < i ==> (#[trigger] spec_error_item(xs@[j])) is Some,
                    items@ =~= Seq::new(i as nat, |j: int| spec_error_item(xs@[j])->0),
                decreases xs@.len() - i,
            {
                match parse_error_item(&xs[i]) {
                    Some(item) => {
                        items.push(item);
                    },
                    None => {
                        assert(spec_error_item(xs@[i as int]) is None);
                        assert(!(forall|k: int|
                            0 <= k < xs@.len() ==> (#[trigger] spec_error_item(xs@[k])) is Some));
                        assert(spec_error_list(*x) is None);
                        proof {
                            lemma_first_failing(ListOf::GraphqlErrors, xs@, i as int);
                        }
                        let problem = item_problem_of(ListOf::GraphqlErrors, &xs[i]);
                        return Err(ListProblem::Item { index: i, problem });
                    },
                }
                i = i + 1;
            }
            Ok(items)
        },
        _ => Err(ListProblem::NotList),
    }
}

/// What reading the top-level `errors` of `response` gives: no error when
/// there are none (absent or an empty list), the errors with the operation
/// and HTTP status, or a refusal of `errors: null` and of a list that does
/// not have the shape of GraphQL errors.
pub open spec fn response_error_agrees(
    operation: Seq<char>,
    http_status: Option<u16>,
    response: JsonValue,
    r: Result<Option<GraphqlResponseError>, GraphqlParseError>,
) -> bool {
    match field(response, "errors"@) {
        None => r matches Ok(None),
        Some(JsonValue::Null) => r matches Err(GraphqlParseError::NullErrors { operation: o }) && o@
            == operation,
        Some(x) => match spec_error_list(x) {
            None => r matches Err(GraphqlParseError::Unreadable { operation: o, problem: p }) && o@
                == operation && p == list_problem(ListOf::GraphqlErrors, x),
            Some(items) => if items.len() == 0 {
                r matches Ok(None)
            } else {
                r matches Ok(Some(e)) && e.operation@ == operation && e.http_status == http_status
                    && e.errors@ == items
            },
        },
    }
}

/// Reads the top-level `errors` of a GraphQL `response` to `operation`.
///
/// No `errors`, or an empty list, is no error; `errors: null` and a list that
/// does not have the shape of GraphQL errors are refused.
pub fn response_error(operation: &str, http_status: Option<u16>, response: &JsonValue) -> (r: Result<
    Option<GraphqlResponseError>,
    GraphqlParseError,
>)
    ensures
        response_error_agrees(operation@, http_status, *response, r),
{
    let raw = match response.get("errors") {
        None => return Ok(None),
        Some(raw) => raw,
    };
    if raw.is_null() {
        return Err(GraphqlParseError::NullErrors { operation: operation.to_owned() });
    }
    let errors = match parse_error_list(raw) {
        Ok(errors) => errors,
        Err(problem) => return Err(
            GraphqlParseError::Unreadable { operation: operation.to_owned(), problem },
        ),
    };
    if errors.len() == 0 {
        return Ok(None);
    }
    Ok(Some(GraphqlResponseError { operation: operation.to_owned(), http_status, errors }))
}

/// How a set of top-level errors is classified, whatever the HTTP status
/// unless stated: when every error that carries an extension code carries
/// `GRAPHQL_VALIDATION_FAILED` or `GRAPHQL_PARSE_FAILED` (and one does), the
/// schema is incompatible; when every code present is `BAD_USER_INPUT` (and
/// one is), the input was definitively rejected, even in an HTTP 400
/// envelope; otherwise an HTTP 400 envelope means the schema is
/// incompatible, and anything else is ambiguous.
pub proof fn lemma_class_by_codes(errors: Seq<GraphqlErrorItem>, http_status: Option<u16>)
    ensures
        ({
            let has_code = exists|i: int| 0 <= i < errors.len() && (#[trigger] code_of(errors[i])) is Some;
            let all_schema = forall|i: int|
                0 <= i < errors.len() && (#[trigger] code_of(errors[i])) is Some ==> (code_of(
                    errors[i],
                )->0@ == "GRAPHQL_VALIDATION_FAILED"@ || code_of(errors[i])->0@
                    == "GRAPHQL_PARSE_FAILED"@);
            let all_bad = forall|i: int|
                0 <= i < errors.len() && (#[trigger] code_of(errors[i])) is Some ==> code_of(
                    errors[i],
                )->0@ == "BAD_USER_INPUT"@;
            &&& has_code && all_schema ==> spec_class(errors, http_status)
                == GraphqlErrorClass::SchemaIncompatible
            &&& has_code && all_bad ==> spec_class(errors, http_status)
                == GraphqlErrorClass::DefinitiveRejection
            &&& !(has_code && all_schema) && !(has_code && all_bad) && http_status == Some(400u16)
                ==> spec_class(errors, http_status) == GraphqlErrorClass::SchemaIncompatible
            &&& !(has_code && all_schema) && !(has_code && all_bad) && http_status != Some(400u16)
                ==> spec_class(errors, http_status) == GraphqlErrorClass::Ambiguous
        }),
{
    reveal_strlit("BAD_USER_INPUT");
    reveal_strlit("GRAPHQL_VALIDATION_FAILED");
    reveal_strlit("GRAPHQL_PARSE_FAILED");
    let has_code = exists|i: int| 0 <= i < errors.len() && (#[trigger] code_of(errors[i])) is Some;
    let all_bad = forall|i: int|
        0 <= i < errors.len() && (#[trigger] code_of(errors[i])) is Some ==> code_of(errors[i])->0@
            == "BAD_USER_INPUT"@;
    if has_code && all_bad {
        let k = choose|i: int| 0 <= i < errors.len() && (#[trigger] code_of(errors[i])) is Some;
        assert(code_of(errors[k])->0@ == "BAD_USER_INPUT"@);
        assert("BAD_USER_INPUT"@ != "GRAPHQL_VALIDATION_FAILED"@) by {
            assert("BAD_USER_INPUT"@[0] != "GRAPHQL_VALIDATION_FAILED"@[0]);
        }
        assert("BAD_USER_INPUT"@ != "GRAPHQL_PARSE_FAILED"@) by {
            assert("BAD_USER_INPUT"@[0] != "GRAPHQL_PARSE_FAILED"@[0]);
        }
        assert(!all_codes(errors, |c: Seq<char>| is_schema_code(c)));
    }
}

} // verus!
