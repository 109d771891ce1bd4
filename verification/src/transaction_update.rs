//! The single-transaction category update: reading the transaction, the
//! mutation payload, and classifying what the read-back shows.
use vstd::prelude::*;
use vstd::string::*;
use crate::json::{JsonValue, field, slot, record_shape, record_slot, has_record_shape, missing_option_ok};
use crate::text::{is_blank, is_blank_str, str_eq, join, texts, join_strings, debug_quoted, debug_quote};
pub use crate::category::{Category, CategoryGroup, CategoryRef, parse_categories, resolve_category};
use crate::category::{CategorySelector, spec_category_ref, parse_category_ref, spec_ref_of, category_selector, selector_agrees, parse_categories_agrees, resolve_selector, resolve_agrees, selector_parts, matching};
use crate::cli::TransactionUpdateArgs;
use crate::graphql::{GraphqlErrorClass, spec_class};
use crate::queries::{self, is_id_variables, is_update_variables, transaction_for_update_variables, update_transaction_variables};
use crate::update_error::{UpdateError, CallError, call_error_text, update_error_text};
use crate::read_problem::{ListOf, ListProblem, list_problem, item_problem_of, lemma_first_failing, transaction_problem, transaction_problem_of};

verus! {

/// A transaction as the update reads it.
#[derive(Debug)]
pub struct Transaction {
    pub id: String,
    pub category: Option<CategoryRef>,
}

/// How serde reads `Transaction { id: String, category: Option<CategoryRef> }`.
pub open spec fn spec_transaction(x: JsonValue) -> Option<Transaction> {
    if !record_shape(x, 2) {
        None
    } else {
        match slot(x, "id"@, 0) {
            Some(JsonValue::Str(i)) => match slot(x, "category"@, 1) {
                None => if missing_option_ok(x) {
                    Some(Transaction { id: i, category: None })
                } else {
                    None
                },
                Some(JsonValue::Null) => Some(Transaction { id: i, category: None }),
                Some(c) => match spec_category_ref(c) {
                    Some(r) => Some(Transaction { id: i, category: Some(r) }),
                    None => None,
                },
            },
            _ => None,
        }
    }
}

/// A transaction value checked against the expected id: it must be readable,
/// carry exactly that id, and have a non-blank id and, when it has a
/// category, a non-blank category id and name.
pub open spec fn spec_transaction_value(raw: JsonValue, expected: String) -> Result<
    Transaction,
    UpdateError,
> {
    match spec_transaction(raw) {
        None => Err(UpdateError::UnreadableTransaction { problem: transaction_problem(raw) }),
        Some(t) => if t.id@ != expected@ {
            Err(UpdateError::UnexpectedTransactionId { expected, got: t.id })
        } else if is_blank(t.id@) {
            Err(UpdateError::EmptyTransactionId)
        } else {
            match t.category {
                Some(c) => if is_blank(c.id@) {
                    Err(UpdateError::EmptyCategoryRefId)
                } else if is_blank(c.name@) {
                    Err(UpdateError::EmptyCategoryRefName)
                } else {
                    Ok(t)
                },
                None => Ok(t),
            }
        },
    }
}

/// The transaction of a `GetTransactionForUpdate` data object.
pub open spec fn spec_parse_transaction(data: JsonValue, expected: String) -> Result<
    Transaction,
    UpdateError,
> {
    match field(data, "getTransaction"@) {
        None => Err(UpdateError::MissingGetTransaction),
        Some(JsonValue::Null) => Err(UpdateError::TransactionNotFound { transaction_id: expected }),
        Some(raw) => spec_transaction_value(raw, expected),
    }
}

fn read_transaction(x: &JsonValue) -> (r: Option<Transaction>)
    ensures
        r == spec_transaction(*x),
{
    if !has_record_shape(x, 2) {
        return None;
    }
    let id = match record_slot(x, "id", 0) {
        Some(JsonValue::Str(i)) => i.clone(),
        _ => return None,
    };
    match record_slot(x, "category", 1) {
        None => match x {
            JsonValue::Object(_) => Some(Transaction { id, category: None }),
            _ => None,
        },
        Some(JsonValue::Null) => Some(Transaction { id, category: None }),
        Some(c) => match parse_category_ref(c) {
            Some(r) => Some(Transaction { id, category: Some(r) }),
            None => None,
        },
    }
}

/// A transaction is accepted only when its `id` is the expected one and not
/// blank, and its category, when it has one, has a non-blank id and name;
/// the category is then the one the value carries.
pub proof fn lemma_transaction_value_accepted(raw: JsonValue, expected: String)
    ensures
        spec_transaction_value(raw, expected) matches Ok(t) ==> t.id@ == expected@ && !is_blank(t.id@)
            && slot(raw, "id"@, 0) == Some(JsonValue::Str(t.id)) && match t.category {
            Some(c) => !is_blank(c.id@) && !is_blank(c.name@) && match slot(raw, "category"@, 1) {
                Some(cv) => slot(cv, "id"@, 0) == Some(JsonValue::Str(c.id)) && slot(cv, "name"@, 1)
                    == Some(JsonValue::Str(c.name)),
                None => false,
            },
            None => match slot(raw, "category"@, 1) {
                Some(v) => v is Null,
                None => true,
            },
        },
{
}

/// Reads and checks one transaction value.
pub fn parse_transaction_value(raw: &JsonValue, expected_id: &String) -> (r: Result<
    Transaction,
    UpdateError,
>)
    ensures
        r == spec_transaction_value(*raw, *expected_id),
{
    let transaction = match read_transaction(raw) {
        Some(t) => t,
        None => return Err(UpdateError::UnreadableTransaction { problem: transaction_problem_of(raw) }),
    };
    if !str_eq(transaction.id.as_str(), expected_id.as_str()) {
        return Err(
            UpdateError::UnexpectedTransactionId {
                expected: expected_id.clone(),
                got: transaction.id,
            },
        );
    }
    if is_blank_str(transaction.id.as_str()) {
        return Err(UpdateError::EmptyTransactionId);
    }
    match &transaction.category {
        Some(category) => {
            if is_blank_str(category.id.as_str()) {
                return Err(UpdateError::EmptyCategoryRefId);
            }
            if is_blank_str(category.name.as_str()) {
                return Err(UpdateError::EmptyCategoryRefName);
            }
        },
        None => {},
    }
    Ok(transaction)
}

/// The transaction of a `GetTransactionForUpdate` data object; `null` means
/// the transaction does not exist.
pub fn parse_transaction(data: &JsonValue, expected_id: &String) -> (r: Result<
    Transaction,
    UpdateError,
>)
    ensures
        r == spec_parse_transaction(*data, *expected_id),
{
    let raw = match data.get("getTransaction") {
        Some(raw) => raw,
        None => return Err(UpdateError::MissingGetTransaction),
    };
    if raw.is_null() {
        return Err(UpdateError::TransactionNotFound { transaction_id: expected_id.clone() });
    }
    parse_transaction_value(raw, expected_id)
}

/// The transaction has the category with id `category_id`.
pub open spec fn has_category(t: Transaction, category_id: Seq<char>) -> bool {
    match t.category {
        Some(c) => c.id@ == category_id,
        None => false,
    }
}

pub fn transaction_has_category(transaction: &Transaction, category_id: &str) -> (r: bool)
    ensures
        r == has_category(*transaction, category_id@),
{
    match &transaction.category {
        Some(c) => str_eq(c.id.as_str(), category_id),
        None => false,
    }
}

/// Both sides name the same category id, or both are uncategorized.
pub open spec fn spec_same_category(left: Option<CategoryRef>, right: Option<CategoryRef>) -> bool {
    match (left, right) {
        (Some(a), Some(b)) => a.id@ == b.id@,
        (None, None) => true,
        _ => false,
    }
}

pub fn same_category(left: Option<&CategoryRef>, right: Option<&CategoryRef>) -> (r: bool)
    ensures
        r == match (left, right) {
            (Some(a), Some(b)) => a.id@ == b.id@,
            (None, None) => true,
            _ => false,
        },
{
    match (left, right) {
        (Some(a), Some(b)) => str_eq(a.id.as_str(), b.id.as_str()),
        (None, None) => true,
        _ => false,
    }
}

/// `"name" (id)` for a category, `<uncategorized>` for none.
pub open spec fn spec_describe_category(c: Option<CategoryRef>) -> Seq<char> {
    match c {
        Some(c) => debug_quoted(c.name@) + " ("@ + c.id@ + ")"@,
        None => "<uncategorized>"@,
    }
}

pub fn describe_category(category: Option<&CategoryRef>) -> (r: String)
    ensures
        r@ == match category {
            Some(c) => spec_describe_category(Some(*c)),
            None => spec_describe_category(None),
        },
{
    match category {
        Some(c) => {
            let mut r = debug_quote(c.name.as_str());
            r.append(" (");
            r.append(c.id.as_str());
            r.append(")");
            r
        },
        None => {
            let mut r = String::new();
            r.append("<uncategorized>");
            r
        },
    }
}

/// One field error of a mutation payload.
#[derive(Debug)]
pub struct PayloadFieldError {
    pub field: Option<String>,
    pub messages: Vec<String>,
}

/// One error of a mutation payload.
#[derive(Debug)]
pub struct PayloadError {
    pub message: Option<String>,
    pub code: Option<String>,
    pub field_errors: Option<Vec<PayloadFieldError>>,
}

/// The content of a `PayloadFieldError`.
pub struct FieldErrorModel {
    pub field: Option<Seq<char>>,
    pub messages: Seq<Seq<char>>,
}

/// The content of a `PayloadError`.
pub struct PayloadErrorModel {
    pub message: Option<Seq<char>>,
    pub code: Option<Seq<char>>,
    pub field_errors: Option<Seq<FieldErrorModel>>,
}

pub open spec fn opt_text(o: Option<String>) -> Option<Seq<char>> {
    match o {
        Some(s) => Some(s@),
        None => None,
    }
}

impl View for PayloadFieldError {
    type V = FieldErrorModel;

    open spec fn view(&self) -> FieldErrorModel {
        FieldErrorModel { field: opt_text(self.field), messages: texts(self.messages@) }
    }
}

impl View for PayloadError {
    type V = PayloadErrorModel;

    open spec fn view(&self) -> PayloadErrorModel {
        PayloadErrorModel {
            message: opt_text(self.message),
            code: opt_text(self.code),
            field_errors: match self.field_errors {
                Some(v) => Some(v@.map_values(|f: PayloadFieldError| f@)),
                None => None,
            },
        }
    }
}

/// How serde reads an optional string field with a default.
pub open spec fn spec_opt_string(s: Option<JsonValue>) -> Option<Option<Seq<char>>> {
    match s {
        None => Some(None),
        Some(JsonValue::Null) => Some(None),
        Some(JsonValue::Str(t)) => Some(Some(t@)),
        _ => None,
    }
}

/// How serde reads `Vec<String>`.
pub open spec fn spec_string_list(x: JsonValue) -> Option<Seq<Seq<char>>> {
    match x {
        JsonValue::Array(xs) => if forall|i: int|
            0 <= i < xs@.len() ==> (#[trigger] xs@[i]) is Str {
            Some(Seq::new(xs@.len(), |i: int| xs@[i]->Str_0@))
        } else {
            None
        },
        _ => None,
    }
}

/// How serde reads `PayloadFieldError { field, messages }` (both default).
pub open spec fn spec_field_error(x: JsonValue) -> Option<FieldErrorModel> {
    if !record_shape(x, 2) {
        None
    } else {
        match spec_opt_string(slot(x, "field"@, 0)) {
            Some(f) => match slot(x, "messages"@, 1) {
                None => Some(FieldErrorModel { field: f, messages: seq![] }),
                Some(m) => match spec_string_list(m) {
                    Some(ms) => Some(FieldErrorModel { field: f, messages: ms }),
                    None => None,
                },
            },
            None => None,
        }
    }
}

/// How serde reads `Vec<PayloadFieldError>`.
pub open spec fn spec_field_error_list(x: JsonValue) -> Option<Seq<FieldErrorModel>> {
    match x {
        JsonValue::Array(xs) => if forall|i: int|
            0 <= i < xs@.len() ==> (#[trigger] spec_field_error(xs@[i])) is Some {
            Some(Seq::new(xs@.len(), |i: int| spec_field_error(xs@[i])->0))
        } else {
            None
        },
        _ => None,
    }
}

/// How serde reads `PayloadError { message, code, fieldErrors }` (all
/// optional, all default).
pub open spec fn spec_payload_error(x: JsonValue) -> Option<PayloadErrorModel> {
    if !record_shape(x, 3) {
        None
    } else {
        match (spec_opt_string(slot(x, "message"@, 0)), spec_opt_string(slot(x, "code"@, 1))) {
            (Some(m), Some(c)) => match slot(x, "fieldErrors"@, 2) {
                None => Some(PayloadErrorModel { message: m, code: c, field_errors: None }),
                Some(JsonValue::Null) => Some(
                    PayloadErrorModel { message: m, code: c, field_errors: None },
                ),
                Some(fe) => match spec_field_error_list(fe) {
                    Some(l) => Some(PayloadErrorModel { message: m, code: c, field_errors: Some(l) }),
                    None => None,
                },
            },
            _ => None,
        }
    }
}

/// How serde reads `Vec<PayloadError>`.
pub open spec fn spec_payload_error_list(x: JsonValue) -> Option<Seq<PayloadErrorModel>> {
    match x {
        JsonValue::Array(xs) => if forall|i: int|
            0 <= i < xs@.len() ==> (#[trigger] spec_payload_error(xs@[i])) is Some {
            Some(Seq::new(xs@.len(), |i: int| spec_payload_error(xs@[i])->0))
        } else {
            None
        },
        _ => None,
    }
}

fn read_opt_string(s: Option<&JsonValue>) -> (r: Option<Option<String>>)
    ensures
        match r {
            Some(o) => spec_opt_string(
                match s {
                    Some(x) => Some(*x),
                    None => None,
                },
            ) == Some(opt_text(o)),
            None => spec_opt_string(
                match s {
                    Some(x) => Some(*x),
                    None => None,
                },
            ) is None,
        },
{
    match s {
        None => Some(None),
        Some(JsonValue::Null) => Some(None),
        Some(JsonValue::Str(t)) => Some(Some(t.clone())),
        _ => None,
    }
}

fn read_string_list(x: &JsonValue) -> (r: Option<Vec<String>>)
    ensures
        match r {
            Some(v) => spec_string_list(*x) == Some(texts(v@)),
            None => spec_string_list(*x) is None,
        },
{
    match x {
        JsonValue::Array(xs) => {
            let mut out: Vec<String> = Vec::new();
            let mut i: usize = 0;
            while i < xs.len()
                invariant
                    *x == JsonValue::Array(*xs),
                    i <= xs@.len(),
                    forall|j: int| 0 <= j < i ==> (#[trigger] xs@[j]) is Str,
                    texts(out@) =~= Seq::new(i as nat, |j: int| xs@[j]->Str_0@),
                decreases xs@.len() - i,
            {
                match &xs[i] {
                    JsonValue::Str(t) => {
                        let ghost before = out@;
                        out.push(t.clone());
                        assert(texts(out@) =~= texts(before).push(t@));
                    },
                    _ => {
                        assert(!(xs@[i as int] is Str));
                        return None;
                    },
                }
                i = i + 1;
            }
            Some(out)
        },
        _ => None,
    }
}

fn read_field_error(x: &JsonValue) -> (r: Option<PayloadFieldError>)
    ensures
        match r {
            Some(e) => spec_field_error(*x) == Some(e@),
            None => spec_field_error(*x) is None,
        },
{
    if !has_record_shape(x, 2) {
        return None;
    }
    let f = match read_opt_string(record_slot(x, "field", 0)) {
        Some(f) => f,
        None => return None,
    };
    match record_slot(x, "messages", 1) {
        None => {
            let r = PayloadFieldError { field: f, messages: Vec::new() };
            assert(texts(r.messages@) =~= seq![]);
            Some(r)
        },
        Some(m) => match read_string_list(m) {
            Some(ms) => Some(PayloadFieldError { field: f, messages: ms }),
            None => None,
        },
    }
}

fn read_field_error_list(x: &JsonValue) -> (r: Option<Vec<PayloadFieldError>>)
    ensures
        match r {
            Some(v) => spec_field_error_list(*x) == Some(v@.map_values(|f: PayloadFieldError| f@)),
            None => spec_field_error_list(*x) is None,
        },
{
    match x {
        JsonValue::Array(xs) => {
            let mut out: Vec<PayloadFieldError> = Vec::new();
            let mut i: usize = 0;
            while i < xs.len()
                invariant
                    *x == JsonValue::Array(*xs),
                    i <= xs@.len(),
                    forall|j: int| 0 <= j < i ==> (#[trigger] spec_field_error(xs@[j])) is Some,
                    out@.map_values(|f: PayloadFieldError| f@) =~= Seq::new(
                        i as nat,
                        |j: int| spec_field_error(xs@[j])->0,
                    ),
                decreases xs@.len() - i,
            {
                match read_field_error(&xs[i]) {
                    Some(e) => {
                        let ghost before = out@;
                        out.push(e);
                        assert(out@.map_values(|f: PayloadFieldError| f@) =~= before.map_values(
                            |f: PayloadFieldError| f@,
                        ).push(e@));
                    },
                    None => {
                        assert(spec_field_error(xs@[i as int]) is None);
                        return None;
                    },
                }
                i = i + 1;
            }
            Some(out)
        },
        _ => None,
    }
}

fn read_payload_error(x: &JsonValue) -> (r: Option<PayloadError>)
    ensures
        match r {
            Some(e) => spec_payload_error(*x) == Some(e@),
            None => spec_payload_error(*x) is None,
        },
{
    if !has_record_shape(x, 3) {
        return None;
    }
    let message = match read_opt_string(record_slot(x, "message", 0)) {
        Some(m) => m,
        None => return None,
    };
    let code = match read_opt_string(record_slot(x, "code", 1)) {
        Some(c) => c,
        None => return None,
    };
    match record_slot(x, "fieldErrors", 2) {
        None => Some(PayloadError { message, code, field_errors: None }),
        Some(JsonValue::Null) => Some(PayloadError { message, code, field_errors: None }),
        Some(fe) => match read_field_error_list(fe) {
            Some(l) => Some(PayloadError { message, code, field_errors: Some(l) }),
            None => None,
        },
    }
}

fn read_payload_error_list(x: &JsonValue) -> (r: Result<Vec<PayloadError>, ListProblem>)
    ensures
        match r {
            Ok(v) => spec_payload_error_list(*x) == Some(v@.map_values(|e: PayloadError| e@)),
            Err(p) => spec_payload_error_list(*x) is None && p == list_problem(ListOf::PayloadErrors, *x),
        },
{
    match x {
        JsonValue::Array(xs) => {
            let mut out: Vec<PayloadError> = Vec::new();
            let mut i: usize = 0;
            while i < xs.len()
                invariant
                    *x == JsonValue::Array(*xs),
                    i <= xs@.len(),
                    forall|j: int| 0 <= j < i ==> (#[trigger] spec_payload_error(xs@[j])) is Some,
                    out@.map_values(|e: PayloadError| e@) =~= Seq::new(
                        i as nat,
                        |j: int| spec_payload_error(xs@[j])->0,
                    ),
                decreases xs@.len() - i,
            {
                match read_payload_error(&xs[i]) {
                    Some(e) => {
                        let ghost before = out@;
                        out.push(e);
                        assert(out@.map_values(|e: PayloadError| e@) =~= before.map_values(
                            |e: PayloadError| e@,
                        ).push(e@));
                    },
                    None => {
                        assert(spec_payload_error(xs@[i as int]) is None);
                        proof {
                            lemma_first_failing(ListOf::PayloadErrors, xs@, i as int);
                        }
                        let problem = item_problem_of(ListOf::PayloadErrors, &xs[i]);
                        return Err(ListProblem::Item { index: i, problem });
                    },
                }
                i = i + 1;
            }
            Ok(out)
        },
        _ => Err(ListProblem::NotList),
    }
}


/// A text, when it is present and not blank.
pub open spec fn nonblank(o: Option<Seq<char>>) -> Option<Seq<char>> {
    match o {
        Some(v) => if !is_blank(v) {
            Some(v)
        } else {
            None
        },
        None => None,
    }
}

/// `[code] message`, `[code]` or `message`, from the non-blank ones.
pub open spec fn head_parts(e: PayloadErrorModel) -> Seq<Seq<char>> {
    match (nonblank(e.code), nonblank(e.message)) {
        (Some(c), Some(m)) => seq!["["@ + c + "] "@ + m],
        (Some(c), None) => seq!["["@ + c + "]"@],
        (None, Some(m)) => seq![m],
        (None, None) => seq![],
    }
}

/// `field: message, message` for one field error.
pub open spec fn field_part(f: FieldErrorModel) -> Seq<char> {
    let name = match nonblank(f.field) {
        Some(n) => n,
        None => "<field>"@,
    };
    let messages = if f.messages.len() == 0 {
        "<no message>"@
    } else {
        join(f.messages, ", "@)
    };
    name + ": "@ + messages
}

pub open spec fn error_parts(e: PayloadErrorModel) -> Seq<Seq<char>> {
    head_parts(e) + match e.field_errors {
        Some(fs) => fs.map_values(|f: FieldErrorModel| field_part(f)),
        None => seq![],
    }
}

/// The description of one payload error.
pub open spec fn payload_error_text(e: PayloadErrorModel) -> Seq<char> {
    let parts = error_parts(e);
    if parts.len() == 0 {
        "<unspecified mutation error>"@
    } else {
        join(parts, "; "@)
    }
}

/// The description of a list of payload errors.
pub open spec fn payload_errors_text(es: Seq<PayloadErrorModel>) -> Seq<char> {
    join(es.map_values(|e: PayloadErrorModel| payload_error_text(e)), " | "@)
}

fn nonblank_str(o: &Option<String>) -> (r: Option<&String>)
    ensures
        match r {
            Some(s) => nonblank(opt_text(*o)) == Some(s@),
            None => nonblank(opt_text(*o)) is None,
        },
{
    match o {
        Some(v) => if !is_blank_str(v.as_str()) {
            Some(v)
        } else {
            None
        },
        None => None,
    }
}

fn format_field_error(f: &PayloadFieldError) -> (r: String)
    ensures
        r@ == field_part(f@),
{
    let mut r = String::new();
    match nonblank_str(&f.field) {
        Some(n) => r.append(n.as_str()),
        None => r.append("<field>"),
    }
    r.append(": ");
    if f.messages.len() == 0 {
        r.append("<no message>");
    } else {
        let joined = join_strings(&f.messages, ", ");
        r.append(joined.as_str());
    }
    r
}

fn format_payload_error(e: &PayloadError) -> (r: String)
    ensures
        r@ == payload_error_text(e@),
{
    let mut parts: Vec<String> = Vec::new();
    match (nonblank_str(&e.code), nonblank_str(&e.message)) {
        (Some(c), Some(m)) => {
            let mut p = String::new();
            p.append("[");
            p.append(c.as_str());
            p.append("] ");
            p.append(m.as_str());
            parts.push(p);
        },
        (Some(c), None) => {
            let mut p = String::new();
            p.append("[");
            p.append(c.as_str());
            p.append("]");
            parts.push(p);
        },
        (None, Some(m)) => {
            parts.push(m.clone());
        },
        (None, None) => {},
    }
    assert(texts(parts@) =~= head_parts(e@));
    let ghost head = texts(parts@);
    match &e.field_errors {
        Some(fs) => {
            let ghost models = fs@.map_values(|f: PayloadFieldError| f@);
            let mut i: usize = 0;
            while i < fs.len()
                invariant
                    i <= fs@.len(),
                    models == fs@.map_values(|f: PayloadFieldError| f@),
                    texts(parts@) =~= head + models.take(i as int).map_values(
                        |f: FieldErrorModel| field_part(f),
                    ),
                decreases fs@.len() - i,
            {
                let p = format_field_error(&fs[i]);
                let ghost before = parts@;
                parts.push(p);
                assert(models.take(i + 1) =~= models.take(i as int).push(models[i as int]));
                assert(texts(parts@) =~= texts(before).push(p@));
                i = i + 1;
            }
            assert(models.take(fs@.len() as int) =~= models);
        },
        None => {},
    }
    assert(texts(parts@) =~= error_parts(e@));
    if parts.len() == 0 {
        let mut r = String::new();
        r.append("<unspecified mutation error>");
        r
    } else {
        join_strings(&parts, "; ")
    }
}

/// The description of the payload errors of a rejected mutation: per error,
/// its code and message and each field error, joined with `" | "`.
pub fn format_payload_errors(errors: &Vec<PayloadError>) -> (r: String)
    ensures
        r@ == payload_errors_text(errors@.map_values(|e: PayloadError| e@)),
{
    let mut lines: Vec<String> = Vec::new();
    let ghost models = errors@.map_values(|e: PayloadError| e@);
    let mut i: usize = 0;
    while i < errors.len()
        invariant
            i <= errors@.len(),
            models == errors@.map_values(|e: PayloadError| e@),
            texts(lines@) =~= models.take(i as int).map_values(
                |e: PayloadErrorModel| payload_error_text(e),
            ),
        decreases errors@.len() - i,
    {
        let line = format_payload_error(&errors[i]);
        let ghost before = lines@;
        lines.push(line);
        assert(models.take(i + 1) =~= models.take(i as int).push(models[i as int]));
        assert(texts(lines@) =~= texts(before).push(line@));
        i = i + 1;
    }
    assert(models.take(errors@.len() as int) =~= models);
    join_strings(&lines, " | ")
}

/// What a mutation payload reports.
#[derive(Debug)]
pub enum MutationPayloadOutcome {
    /// The payload carries the transaction with the requested category.
    Accepted,
    /// The payload carries errors; their description.
    Rejected(String),
}

/// The reading of a `Web_TransactionDrawerUpdateTransaction` data object:
/// `Ok(None)` when the payload is accepted, `Ok(Some(text))` when it carries
/// errors (described by `text`), or the error that makes it unreadable.
/// Payload errors are a rejection; otherwise the payload must carry the
/// expected transaction, and it must have the requested category.
pub open spec fn spec_payload(data: JsonValue, expected: String, target: Category) -> Result<
    Option<Seq<char>>,
    UpdateError,
> {
    match field(data, "updateTransaction"@) {
        None => Err(UpdateError::MissingUpdatePayload),
        Some(JsonValue::Null) => Err(UpdateError::NullUpdatePayload),
        Some(p) => match field(p, "errors"@) {
            None => Err(UpdateError::MissingPayloadErrors),
            Some(ev) => if !(ev is Null) && spec_payload_error_list(ev) is None {
                Err(
                    UpdateError::UnreadablePayloadErrors {
                        problem: list_problem(ListOf::PayloadErrors, ev),
                    },
                )
            } else if !(ev is Null) && spec_payload_error_list(ev)->0.len() > 0 {
                Ok(Some(payload_errors_text(spec_payload_error_list(ev)->0)))
            } else {
                match field(p, "transaction"@) {
                    None => Err(UpdateError::MissingPayloadTransaction),
                    Some(JsonValue::Null) => Err(UpdateError::NullPayloadTransaction),
                    Some(tv) => match spec_transaction_value(tv, expected) {
                        Err(e) => Err(e),
                        Ok(t) => if has_category(t, target.id@) {
                            Ok(None)
                        } else {
                            Err(
                                UpdateError::PayloadMissingCategory {
                                    name: target.name,
                                    id: target.id,
                                },
                            )
                        },
                    },
                }
            },
        },
    }
}

/// `r` is what `spec_payload` describes.
pub open spec fn payload_agrees(
    data: JsonValue,
    expected: String,
    target: Category,
    r: Result<MutationPayloadOutcome, UpdateError>,
) -> bool {
    match spec_payload(data, expected, target) {
        Ok(None) => r matches Ok(MutationPayloadOutcome::Accepted),
        Ok(Some(text)) => r matches Ok(MutationPayloadOutcome::Rejected(m)) && m@ == text,
        Err(e) => r == Err::<MutationPayloadOutcome, UpdateError>(e),
    }
}

/// Reads the payload of the update mutation for `expected_id` and `target`.
pub fn parse_mutation_payload(data: &JsonValue, expected_id: &String, target: &Category) -> (r: Result<
    MutationPayloadOutcome,
    UpdateError,
>)
    ensures
        payload_agrees(*data, *expected_id, *target, r),
{
    let payload = match data.get("updateTransaction") {
        Some(p) => p,
        None => return Err(UpdateError::MissingUpdatePayload),
    };
    if payload.is_null() {
        return Err(UpdateError::NullUpdatePayload);
    }
    let errors_value = match payload.get("errors") {
        Some(e) => e,
        None => return Err(UpdateError::MissingPayloadErrors),
    };
    if !errors_value.is_null() {
        let errors = match read_payload_error_list(errors_value) {
            Ok(e) => e,
            Err(problem) => return Err(UpdateError::UnreadablePayloadErrors { problem }),
        };
        if errors.len() > 0 {
            return Ok(MutationPayloadOutcome::Rejected(format_payload_errors(&errors)));
        }
    }
    let transaction_value = match payload.get("transaction") {
        Some(t) => t,
        None => return Err(UpdateError::MissingPayloadTransaction),
    };
    if transaction_value.is_null() {
        return Err(UpdateError::NullPayloadTransaction);
    }
    let transaction = match parse_transaction_value(transaction_value, expected_id) {
        Ok(t) => t,
        Err(e) => return Err(e),
    };
    if !transaction_has_category(&transaction, target.id.as_str()) {
        return Err(
            UpdateError::PayloadMissingCategory { name: target.name.clone(), id: target.id.clone() },
        );
    }
    Ok(MutationPayloadOutcome::Accepted)
}


/// The result of an update.
#[derive(Debug, Clone, Copy, PartialEq, Eq, Structural)]
pub enum UpdateStatus {
    Updated,
    Unchanged,
    DryRun,
    Failed,
    OutcomeUnknown,
}

pub open spec fn status_text(s: UpdateStatus) -> Seq<char> {
    match s {
        UpdateStatus::Updated => "updated"@,
        UpdateStatus::Unchanged => "unchanged"@,
        UpdateStatus::DryRun => "dry-run"@,
        UpdateStatus::Failed => "failed"@,
        UpdateStatus::OutcomeUnknown => "outcome-unknown"@,
    }
}

impl UpdateStatus {
    /// The status as the JSON output spells it.
    pub fn as_str(self) -> (r: &'static str)
        ensures
            r@ == status_text(self),
    {
        match self {
            UpdateStatus::Updated => "updated",
            UpdateStatus::Unchanged => "unchanged",
            UpdateStatus::DryRun => "dry-run",
            UpdateStatus::Failed => "failed",
            UpdateStatus::OutcomeUnknown => "outcome-unknown",
        }
    }
}

/// What an update reports.
#[derive(Debug)]
pub struct UpdateOutcome {
    pub status: UpdateStatus,
    /// Whether the category changed; `None` when the final state is unknown.
    pub changed: Option<bool>,
    pub would_change: bool,
    /// Read-back (or the unchanged read) shows the requested category.
    pub verified: bool,
    pub transaction_id: String,
    pub before_category: Option<CategoryRef>,
    pub after_category: Option<CategoryRef>,
}

/// An update's outcome and, when it did not succeed, why.
#[derive(Debug)]
pub struct UpdateExecution {
    pub outcome: UpdateOutcome,
    pub failure: Option<String>,
}

/// What the single mutation attempt showed before read-back.
#[derive(Debug)]
pub enum MutationAttempt {
    /// The payload reported the requested state.
    Accepted,
    /// The server definitively refused the change.
    DefinitiveFailure(String),
    /// Nothing can be concluded from the response.
    AmbiguousFailure(String),
}

/// The content of a `MutationAttempt`.
pub enum AttemptModel {
    Accepted,
    DefinitiveFailure(Seq<char>),
    AmbiguousFailure(Seq<char>),
}

impl View for MutationAttempt {
    type V = AttemptModel;

    open spec fn view(&self) -> AttemptModel {
        match self {
            MutationAttempt::Accepted => AttemptModel::Accepted,
            MutationAttempt::DefinitiveFailure(m) => AttemptModel::DefinitiveFailure(m@),
            MutationAttempt::AmbiguousFailure(m) => AttemptModel::AmbiguousFailure(m@),
        }
    }
}

/// A failed mutation call is a definitive failure when its GraphQL errors
/// show schema incompatibility or rejected input, and ambiguous otherwise.
pub open spec fn spec_classify_mutation_error(e: CallError) -> AttemptModel {
    match e {
        CallError::Graphql(g) => match spec_class(g.errors@, g.http_status) {
            GraphqlErrorClass::SchemaIncompatible | GraphqlErrorClass::DefinitiveRejection => AttemptModel::DefinitiveFailure(call_error_text(e)),
            GraphqlErrorClass::Ambiguous => AttemptModel::AmbiguousFailure(call_error_text(e)),
        },
        CallError::Transport(_) => AttemptModel::AmbiguousFailure(call_error_text(e)),
    }
}

pub fn classify_mutation_error(error: &CallError) -> (r: MutationAttempt)
    ensures
        r@ == spec_classify_mutation_error(*error),
{
    let description = error.message();
    match error {
        CallError::Graphql(g) => match g.class() {
            GraphqlErrorClass::SchemaIncompatible | GraphqlErrorClass::DefinitiveRejection => MutationAttempt::DefinitiveFailure(description),
            GraphqlErrorClass::Ambiguous => MutationAttempt::AmbiguousFailure(description),
        },
        CallError::Transport(_) => MutationAttempt::AmbiguousFailure(description),
    }
}

/// What the mutation response shows: an accepted payload, a payload
/// rejection, a payload that cannot be validated (ambiguous), or a failed
/// call as `spec_classify_mutation_error` classifies it.
pub open spec fn spec_attempt(response: Result<JsonValue, CallError>, transaction_id: String, target: Category) -> AttemptModel {
    match response {
        Ok(data) => match spec_payload(data, transaction_id, target) {
            Ok(None) => AttemptModel::Accepted,
            Ok(Some(text)) => AttemptModel::DefinitiveFailure(text),
            Err(e) => AttemptModel::AmbiguousFailure(
                "mutation response could not be validated: "@ + update_error_text(e),
            ),
        },
        Err(e) => spec_classify_mutation_error(e),
    }
}

fn mutation_attempt(response: &Result<JsonValue, CallError>, transaction_id: &String, target: &Category) -> (r: MutationAttempt)
    ensures
        r@ == spec_attempt(*response, *transaction_id, *target),
{
    match response {
        Ok(data) => match parse_mutation_payload(data, transaction_id, target) {
            Ok(MutationPayloadOutcome::Accepted) => MutationAttempt::Accepted,
            Ok(MutationPayloadOutcome::Rejected(message)) => MutationAttempt::DefinitiveFailure(message),
            Err(error) => {
                let mut m = String::new();
                m.append("mutation response could not be validated: ");
                let detail = error.message();
                m.append(detail.as_str());
                MutationAttempt::AmbiguousFailure(m)
            },
        },
        Err(error) => classify_mutation_error(error),
    }
}

/// An outcome assembled from its fields.
pub open spec fn outcome(
    status: UpdateStatus,
    changed: Option<bool>,
    would_change: bool,
    verified: bool,
    transaction_id: String,
    before_category: Option<CategoryRef>,
    after_category: Option<CategoryRef>,
) -> UpdateOutcome {
    UpdateOutcome { status, changed, would_change, verified, transaction_id, before_category, after_category }
}

/// The failure text that the read-back of a transaction left at `after`,
/// not in the target category, calls for.
pub open spec fn non_target_failure(attempt: AttemptModel, after: Transaction, target: CategoryRef) -> Seq<char> {
    let actual = spec_describe_category(after.category);
    let wanted = spec_describe_category(Some(target));
    match attempt {
        AttemptModel::DefinitiveFailure(reason) => "mutation was definitively rejected: "@ + reason
            + "; read-back found "@ + actual + ", not requested "@ + wanted,
        AttemptModel::Accepted => "mutation response reported the requested state, but read-back found "@
            + actual + ", not requested "@ + wanted,
        AttemptModel::AmbiguousFailure(reason) => "mutation outcome was ambiguous: "@ + reason
            + "; immediate read-back found "@ + actual + ", not requested "@ + wanted
            + "; the mutation may still apply later"@,
    }
}

/// The outcome of a read-back that found the transaction outside the target
/// category: a definitive rejection is `Failed` (with `changed` telling
/// whether the category moved at all); anything else is `OutcomeUnknown`.
pub open spec fn non_target_outcome(
    attempt: AttemptModel,
    before_category: Option<CategoryRef>,
    after: Transaction,
) -> UpdateOutcome {
    match attempt {
        AttemptModel::DefinitiveFailure(_) => outcome(
            UpdateStatus::Failed,
            Some(!spec_same_category(before_category, after.category)),
            true,
            false,
            after.id,
            before_category,
            after.category,
        ),
        _ => outcome(
            UpdateStatus::OutcomeUnknown,
            None,
            true,
            false,
            after.id,
            before_category,
            after.category,
        ),
    }
}

/// `x` is an execution with outcome `o` and failure text `failure`.
pub open spec fn execution_is(x: UpdateExecution, o: UpdateOutcome, failure: Option<Seq<char>>) -> bool {
    x.outcome == o && match (x.failure, failure) {
        (Some(f), Some(t)) => f@ == t,
        (None, None) => true,
        _ => false,
    }
}

pub fn classify_non_target_readback(
    attempt: MutationAttempt,
    before_category: Option<CategoryRef>,
    after: Transaction,
    target: &CategoryRef,
) -> (r: UpdateExecution)
    ensures
        execution_is(
            r,
            non_target_outcome(attempt@, before_category, after),
            Some(non_target_failure(attempt@, after, *target)),
        ),
{
    let actual = describe_category(
        match &after.category {
            Some(c) => Some(c),
            None => None,
        },
    );
    let wanted = describe_category(Some(target));
    let mut m = String::new();
    match attempt {
        MutationAttempt::DefinitiveFailure(reason) => {
            let changed = !same_category(
                match &before_category {
                    Some(c) => Some(c),
                    None => None,
                },
                match &after.category {
                    Some(c) => Some(c),
                    None => None,
                },
            );
            m.append("mutation was definitively rejected: ");
            m.append(reason.as_str());
            m.append("; read-back found ");
            m.append(actual.as_str());
            m.append(", not requested ");
            m.append(wanted.as_str());
            UpdateExecution {
                outcome: UpdateOutcome {
                    status: UpdateStatus::Failed,
                    changed: Some(changed),
                    would_change: true,
                    verified: false,
                    transaction_id: after.id,
                    before_category,
                    after_category: after.category,
                },
                failure: Some(m),
            }
        },
        MutationAttempt::Accepted => {
            m.append("mutation response reported the requested state, but read-back found ");
            m.append(actual.as_str());
            m.append(", not requested ");
            m.append(wanted.as_str());
            UpdateExecution {
                outcome: UpdateOutcome {
                    status: UpdateStatus::OutcomeUnknown,
                    changed: None,
                    would_change: true,
                    verified: false,
                    transaction_id: after.id,
                    before_category,
                    after_category: after.category,
                },
                failure: Some(m),
            }
        },
        MutationAttempt::AmbiguousFailure(reason) => {
            m.append("mutation outcome was ambiguous: ");
            m.append(reason.as_str());
            m.append("; immediate read-back found ");
            m.append(actual.as_str());
            m.append(", not requested ");
            m.append(wanted.as_str());
            m.append("; the mutation may still apply later");
            UpdateExecution {
                outcome: UpdateOutcome {
                    status: UpdateStatus::OutcomeUnknown,
                    changed: None,
                    would_change: true,
                    verified: false,
                    transaction_id: after.id,
                    before_category,
                    after_category: after.category,
                },
                failure: Some(m),
            }
        },
    }
}


/// Where a category update stands: each phase waits for the response to
/// one GraphQL call.
#[derive(Debug)]
pub enum UpdatePhase {
    /// Waiting for the transaction as it is before the update.
    ReadingTransaction,
    /// Waiting for the categories.
    ReadingCategories { before: Transaction },
    /// Waiting for the response to the one mutation.
    Mutating { before: Transaction, target: Category },
    /// Waiting for the read-back that verifies the mutation.
    Verifying { before: Transaction, target: Category, attempt: MutationAttempt },
}

/// A single-transaction category update in progress.
#[derive(Debug)]
pub struct TransactionUpdate {
    pub transaction_id: String,
    pub selector: CategorySelector,
    pub dry_run: bool,
    pub phase: UpdatePhase,
}

/// The GraphQL operations that an update uses.
#[derive(Debug, Clone, Copy, PartialEq, Eq, Structural)]
pub enum UpdateOperation {
    GetTransactionForUpdate,
    GetCategories,
    UpdateTransaction,
}

impl UpdateOperation {
    /// The operation's name.
    pub fn name(self) -> (r: &'static str)
        ensures
            r@ == match self {
                UpdateOperation::GetTransactionForUpdate => "GetTransactionForUpdate"@,
                UpdateOperation::GetCategories => "GetCategories"@,
                UpdateOperation::UpdateTransaction => "Web_TransactionDrawerUpdateTransaction"@,
            },
    {
        match self {
            UpdateOperation::GetTransactionForUpdate => "GetTransactionForUpdate",
            UpdateOperation::GetCategories => "GetCategories",
            UpdateOperation::UpdateTransaction => "Web_TransactionDrawerUpdateTransaction",
        }
    }

    /// The operation's GraphQL document.
    pub fn document(self) -> (r: &'static str)
        ensures
            r == match self {
                UpdateOperation::GetTransactionForUpdate => queries::GET_TRANSACTION_FOR_UPDATE,
                UpdateOperation::GetCategories => queries::CATEGORIES,
                UpdateOperation::UpdateTransaction => queries::UPDATE_TRANSACTION,
            },
    {
        match self {
            UpdateOperation::GetTransactionForUpdate => queries::GET_TRANSACTION_FOR_UPDATE,
            UpdateOperation::GetCategories => queries::CATEGORIES,
            UpdateOperation::UpdateTransaction => queries::UPDATE_TRANSACTION,
        }
    }
}

/// One GraphQL call that an update asks for.
#[derive(Debug)]
pub struct UpdateCall {
    pub operation: UpdateOperation,
    pub variables: JsonValue,
}

/// The call that each phase waits for: the transaction (before and at
/// read-back), the categories, or the mutation of exactly this transaction to
/// exactly the target category.
pub open spec fn call_agrees(m: TransactionUpdate, c: UpdateCall) -> bool {
    match m.phase {
        UpdatePhase::ReadingTransaction | UpdatePhase::Verifying { .. } => c.operation
            == UpdateOperation::GetTransactionForUpdate && is_id_variables(c.variables, m.transaction_id@),
        UpdatePhase::ReadingCategories { .. } => c.operation == UpdateOperation::GetCategories
            && (c.variables matches JsonValue::Object(ms) && ms@.len() == 0),
        UpdatePhase::Mutating { target, .. } => c.operation == UpdateOperation::UpdateTransaction
            && is_update_variables(c.variables, m.transaction_id@, target.id@),
    }
}

/// Where an update goes after a response.
#[derive(Debug)]
pub enum UpdateProgress {
    /// It waits for another call.
    Pending(TransactionUpdate),
    /// It is over; the outcome says how.
    Finished(UpdateExecution),
    /// It stopped before any mutation was sent.
    Failed(UpdateError),
}

/// The categories of a `GetCategories` data object, when they are usable.
pub open spec fn usable_categories(data: JsonValue) -> Option<Seq<Category>> {
    match field(data, "categories"@) {
        Some(raw) => match crate::category::spec_category_list(raw) {
            Some(cats) => if forall|i: int|
                0 <= i < cats.len() ==> (#[trigger] crate::category::blank_field(cats[i])) is None {
                Some(cats)
            } else {
                None
            },
            None => None,
        },
        None => None,
    }
}

/// The single enabled category that a selector names, if there is one.
pub open spec fn resolved(cats: Seq<Category>, sel: CategorySelector) -> Option<Category> {
    let ms = matching(cats, selector_parts(sel).0, selector_parts(sel).1);
    if ms.len() == 1 && !ms[0].is_disabled {
        Some(ms[0])
    } else {
        None
    }
}

/// The same update, now in `phase`.
pub open spec fn moved_to(m: TransactionUpdate, n: TransactionUpdate, phase: UpdatePhase) -> bool {
    n.transaction_id == m.transaction_id && n.selector == m.selector && n.dry_run == m.dry_run
        && n.phase == phase
}

/// What the transaction read-back gives: the transaction, or the text of why
/// it could not be read.
pub open spec fn readback(response: Result<JsonValue, CallError>, transaction_id: String) -> Result<
    Transaction,
    Seq<char>,
> {
    match response {
        Ok(data) => match spec_parse_transaction(data, transaction_id) {
            Ok(t) => Ok(t),
            Err(e) => Err(update_error_text(e)),
        },
        Err(e) => Err(call_error_text(e)),
    }
}

/// How the mutation attempt is described when read-back is impossible.
pub open spec fn attempt_detail(a: AttemptModel) -> Seq<char> {
    match a {
        AttemptModel::Accepted => "mutation response was accepted"@,
        AttemptModel::DefinitiveFailure(reason) => "mutation was definitively rejected: "@ + reason,
        AttemptModel::AmbiguousFailure(reason) => "mutation outcome was ambiguous: "@ + reason,
    }
}

/// The step an update takes on a response.
///
/// - A failed read of the transaction or the categories, an unusable
///   response, or a selector that names no single enabled category stops
///   the update before any mutation.
/// - A transaction already in the target category is `Unchanged` (verified);
///   otherwise a dry run is `DryRun`, proposing the target; otherwise the
///   mutation is sent.
/// - Whatever the mutation response, the transaction is read back once.
///   Only a read-back in the target category is `Updated`; see
///   `non_target_outcome` for any other read-back, and a failed read-back is
///   `OutcomeUnknown`.
pub open spec fn receive_agrees(m: TransactionUpdate, response: Result<JsonValue, CallError>, r: UpdateProgress) -> bool {
    match m.phase {
        UpdatePhase::ReadingTransaction => match response {
            Err(e) => r matches UpdateProgress::Failed(
                UpdateError::ReadTransactionFailed { transaction_id, cause },
            ) && transaction_id == m.transaction_id && cause@ == call_error_text(e),
            Ok(data) => match spec_parse_transaction(data, m.transaction_id) {
                Err(e) => r == UpdateProgress::Failed(e),
                Ok(t) => r matches UpdateProgress::Pending(n) && moved_to(
                    m,
                    n,
                    UpdatePhase::ReadingCategories { before: t },
                ),
            },
        },
        UpdatePhase::ReadingCategories { before } => match response {
            Err(e) => r matches UpdateProgress::Failed(UpdateError::ReadCategoriesFailed { cause })
                && cause@ == call_error_text(e),
            Ok(data) => match usable_categories(data) {
                None => r matches UpdateProgress::Failed(e) && parse_categories_agrees(
                    data,
                    Err(e),
                ),
                Some(cats) => match resolved(cats, m.selector) {
                    None => r matches UpdateProgress::Failed(e) && resolve_agrees(
                        cats,
                        selector_parts(m.selector).0,
                        selector_parts(m.selector).1,
                        Err(e),
                    ),
                    Some(target) => if has_category(before, target.id@) {
                        r matches UpdateProgress::Finished(x) && execution_is(
                            x,
                            outcome(
                                UpdateStatus::Unchanged,
                                Some(false),
                                false,
                                true,
                                before.id,
                                before.category,
                                before.category,
                            ),
                            None,
                        )
                    } else if m.dry_run {
                        r matches UpdateProgress::Finished(x) && execution_is(
                            x,
                            outcome(
                                UpdateStatus::DryRun,
                                Some(false),
                                true,
                                false,
                                before.id,
                                before.category,
                                Some(spec_ref_of(target)),
                            ),
                            None,
                        )
                    } else {
                        r matches UpdateProgress::Pending(n) && moved_to(
                            m,
                            n,
                            UpdatePhase::Mutating { before, target },
                        )
                    },
                },
            },
        },
        UpdatePhase::Mutating { before, target } => match r {
            UpdateProgress::Pending(n) => n.transaction_id == m.transaction_id && n.selector
                == m.selector && n.dry_run == m.dry_run && match n.phase {
                UpdatePhase::Verifying { before: b, target: t, attempt } => b == before && t
                    == target && attempt@ == spec_attempt(response, m.transaction_id, target),
                _ => false,
            },
            _ => false,
        },
        UpdatePhase::Verifying { before, target, attempt } => match readback(
            response,
            m.transaction_id,
        ) {
            Ok(after) => if has_category(after, target.id@) {
                r matches UpdateProgress::Finished(x) && execution_is(
                    x,
                    outcome(
                        UpdateStatus::Updated,
                        Some(true),
                        true,
                        true,
                        after.id,
                        before.category,
                        after.category,
                    ),
                    None,
                )
            } else {
                r matches UpdateProgress::Finished(x) && execution_is(
                    x,
                    non_target_outcome(attempt@, before.category, after),
                    Some(non_target_failure(attempt@, after, spec_ref_of(target))),
                )
            },
            Err(text) => r matches UpdateProgress::Finished(x) && execution_is(
                x,
                outcome(
                    UpdateStatus::OutcomeUnknown,
                    None,
                    true,
                    false,
                    before.id,
                    before.category,
                    None,
                ),
                Some(attempt_detail(attempt@) + "; read-back verification failed: "@ + text),
            ),
        },
    }
}

/// The text of an optional string.
pub open spec fn opt_string_view(o: Option<String>) -> Option<Seq<char>> {
    match o {
        Some(s) => Some(s@),
        None => None,
    }
}

/// The arguments start an update, waiting for the transaction, when the
/// transaction id is not blank and exactly one non-blank selector is given.
pub open spec fn start_agrees(args: TransactionUpdateArgs, r: Result<TransactionUpdate, UpdateError>) -> bool {
    if is_blank(args.transaction_id@) {
        r matches Err(UpdateError::EmptyTransactionIdArg)
    } else {
        match r {
            Ok(m) => m.transaction_id == args.transaction_id && m.dry_run == args.dry_run
                && m.phase is ReadingTransaction && selector_agrees(
                opt_string_view(args.category),
                opt_string_view(args.category_id),
                Ok(m.selector),
            ),
            Err(e) => selector_agrees(
                opt_string_view(args.category),
                opt_string_view(args.category_id),
                Err(e),
            ),
        }
    }
}

fn opt_as_str(o: &Option<String>) -> (r: Option<&str>)
    ensures
        crate::category::opt_view(r) == opt_string_view(*o),
{
    match o {
        Some(s) => Some(s.as_str()),
        None => None,
    }
}

impl TransactionUpdate {
    /// Begins an update of one transaction to one category.
    pub fn start(args: &TransactionUpdateArgs) -> (r: Result<TransactionUpdate, UpdateError>)
        ensures
            start_agrees(*args, r),
    {
        if is_blank_str(args.transaction_id.as_str()) {
            return Err(UpdateError::EmptyTransactionIdArg);
        }
        let selector = match category_selector(
            opt_as_str(&args.category),
            opt_as_str(&args.category_id),
        ) {
            Ok(s) => s,
            Err(e) => return Err(e),
        };
        Ok(
            TransactionUpdate {
                transaction_id: args.transaction_id.clone(),
                selector,
                dry_run: args.dry_run,
                phase: UpdatePhase::ReadingTransaction,
            },
        )
    }

    /// The call that the update waits for.
    pub fn next_call(&self) -> (r: UpdateCall)
        ensures
            call_agrees(*self, r),
    {
        match &self.phase {
            UpdatePhase::ReadingTransaction | UpdatePhase::Verifying { .. } => UpdateCall {
                operation: UpdateOperation::GetTransactionForUpdate,
                variables: transaction_for_update_variables(self.transaction_id.as_str()),
            },
            UpdatePhase::ReadingCategories { .. } => UpdateCall {
                operation: UpdateOperation::GetCategories,
                variables: JsonValue::Object(Vec::new()),
            },
            UpdatePhase::Mutating { target, .. } => UpdateCall {
                operation: UpdateOperation::UpdateTransaction,
                variables: update_transaction_variables(
                    self.transaction_id.as_str(),
                    target.id.as_str(),
                ),
            },
        }
    }

    /// Takes the response to `next_call` and moves the update on.
    pub fn receive(self, response: Result<JsonValue, CallError>) -> (r: UpdateProgress)
        ensures
            receive_agrees(self, response, r),
    {
        let TransactionUpdate { transaction_id, selector, dry_run, phase } = self;
        match phase {
            UpdatePhase::ReadingTransaction => {
                let data = match response {
                    Ok(d) => d,
                    Err(e) => {
                        return UpdateProgress::Failed(
                            UpdateError::ReadTransactionFailed {
                                transaction_id,
                                cause: e.message(),
                            },
                        );
                    },
                };
                match parse_transaction(&data, &transaction_id) {
                    Err(e) => UpdateProgress::Failed(e),
                    Ok(before) => UpdateProgress::Pending(
                        TransactionUpdate {
                            transaction_id,
                            selector,
                            dry_run,
                            phase: UpdatePhase::ReadingCategories { before },
                        },
                    ),
                }
            },
            UpdatePhase::ReadingCategories { before } => {
                let data = match response {
                    Ok(d) => d,
                    Err(e) => {
                        return UpdateProgress::Failed(
                            UpdateError::ReadCategoriesFailed { cause: e.message() },
                        );
                    },
                };
                let categories = match parse_categories(&data) {
                    Ok(c) => c,
                    Err(e) => return UpdateProgress::Failed(e),
                };
                let target = match resolve_selector(&categories, &selector) {
                    Ok(t) => t,
                    Err(e) => return UpdateProgress::Failed(e),
                };
                if transaction_has_category(&before, target.id.as_str()) {
                    let before_category = before.category.clone();
                    return UpdateProgress::Finished(
                        UpdateExecution {
                            outcome: UpdateOutcome {
                                status: UpdateStatus::Unchanged,
                                changed: Some(false),
                                would_change: false,
                                verified: true,
                                transaction_id: before.id,
                                before_category: before_category.clone(),
                                after_category: before_category,
                            },
                            failure: None,
                        },
                    );
                }
                if dry_run {
                    let target_ref = CategoryRef::from_category(&target);
                    return UpdateProgress::Finished(
                        UpdateExecution {
                            outcome: UpdateOutcome {
                                status: UpdateStatus::DryRun,
                                changed: Some(false),
                                would_change: true,
                                verified: false,
                                transaction_id: before.id,
                                before_category: before.category,
                                after_category: Some(target_ref),
                            },
                            failure: None,
                        },
                    );
                }
                UpdateProgress::Pending(
                    TransactionUpdate {
                        transaction_id,
                        selector,
                        dry_run,
                        phase: UpdatePhase::Mutating { before, target },
                    },
                )
            },
            UpdatePhase::Mutating { before, target } => {
                // The mutation is sent once; whatever came back, the next
                // step is a read-only verification.
                let attempt = mutation_attempt(&response, &transaction_id, &target);
                UpdateProgress::Pending(
                    TransactionUpdate {
                        transaction_id,
                        selector,
                        dry_run,
                        phase: UpdatePhase::Verifying { before, target, attempt },
                    },
                )
            },
            UpdatePhase::Verifying { before, target, attempt } => {
                let after_result: Result<Transaction, String> = match &response {
                    Ok(data) => match parse_transaction(data, &transaction_id) {
                        Ok(t) => Ok(t),
                        Err(e) => Err(e.message()),
                    },
                    Err(e) => Err(e.message()),
                };
                match after_result {
                    Ok(after) => {
                        if transaction_has_category(&after, target.id.as_str()) {
                            UpdateProgress::Finished(
                                UpdateExecution {
                                    outcome: UpdateOutcome {
                                        status: UpdateStatus::Updated,
                                        changed: Some(true),
                                        would_change: true,
                                        verified: true,
                                        transaction_id: after.id,
                                        before_category: before.category,
                                        after_category: after.category,
                                    },
                                    failure: None,
                                },
                            )
                        } else {
                            let target_ref = CategoryRef::from_category(&target);
                            UpdateProgress::Finished(
                                classify_non_target_readback(
                                    attempt,
                                    before.category,
                                    after,
                                    &target_ref,
                                ),
                            )
                        }
                    },
                    Err(read_error) => {
                        let mut m = String::new();
                        match &attempt {
                            MutationAttempt::Accepted => m.append("mutation response was accepted"),
                            MutationAttempt::DefinitiveFailure(reason) => {
                                m.append("mutation was definitively rejected: ");
                                m.append(reason.as_str());
                            },
                            MutationAttempt::AmbiguousFailure(reason) => {
                                m.append("mutation outcome was ambiguous: ");
                                m.append(reason.as_str());
                            },
                        }
                        m.append("; read-back verification failed: ");
                        m.append(read_error.as_str());
                        UpdateProgress::Finished(
                            UpdateExecution {
                                outcome: UpdateOutcome {
                                    status: UpdateStatus::OutcomeUnknown,
                                    changed: None,
                                    would_change: true,
                                    verified: false,
                                    transaction_id: before.id,
                                    before_category: before.category,
                                    after_category: None,
                                },
                                failure: Some(m),
                            },
                        )
                    },
                }
            },
        }
    }
}


/// Every finished update reports consistently: it carries a failure exactly
/// when it is `Failed` or `OutcomeUnknown` (the two that exit non-zero); it
/// is verified exactly when it is `Updated` or `Unchanged`; `changed` is
/// unknown exactly when the outcome is unknown; a dry run is never verified
/// and proposes the target; and `Updated` comes only from a read-back that
/// found the requested category.
pub proof fn lemma_finished_outcome_consistent(
    m: TransactionUpdate,
    response: Result<JsonValue, CallError>,
    r: UpdateProgress,
)
    requires
        receive_agrees(m, response, r),
    ensures
        r matches UpdateProgress::Finished(x) ==> {
            &&& (x.failure is Some) <==> (x.outcome.status == UpdateStatus::Failed
                || x.outcome.status == UpdateStatus::OutcomeUnknown)
            &&& x.outcome.verified <==> (x.outcome.status == UpdateStatus::Updated
                || x.outcome.status == UpdateStatus::Unchanged)
            &&& (x.outcome.changed is None) <==> (x.outcome.status == UpdateStatus::OutcomeUnknown)
            &&& x.outcome.status == UpdateStatus::DryRun ==> m.dry_run && !x.outcome.verified
                && x.outcome.would_change
            &&& x.outcome.status == UpdateStatus::Updated ==> match (m.phase, readback(
                response,
                m.transaction_id,
            )) {
                (UpdatePhase::Verifying { target, .. }, Ok(after)) => has_category(
                    after,
                    target.id@,
                ) && x.outcome.after_category == after.category,
                _ => false,
            }
        },
{
}

/// After the mutation, the read-back decides: a read-back in the target
/// category is `Updated` whatever the mutation response was; otherwise a
/// definitive rejection is `Failed`, and an accepted or ambiguous response
/// is `OutcomeUnknown`; a read-back that fails is `OutcomeUnknown` too.
pub proof fn lemma_readback_decides(m: TransactionUpdate, response: Result<JsonValue, CallError>, r: UpdateProgress)
    requires
        m.phase is Verifying,
        receive_agrees(m, response, r),
    ensures
        r matches UpdateProgress::Finished(x) && match (m.phase, readback(response, m.transaction_id)) {
            (UpdatePhase::Verifying { target, attempt, .. }, Ok(after)) => if has_category(
                after,
                target.id@,
            ) {
                x.outcome.status == UpdateStatus::Updated
            } else if attempt@ is DefinitiveFailure {
                x.outcome.status == UpdateStatus::Failed
            } else {
                x.outcome.status == UpdateStatus::OutcomeUnknown
            },
            (_, Err(_)) => x.outcome.status == UpdateStatus::OutcomeUnknown,
            _ => false,
        },
{
}

/// A transaction that already has the category the selector resolves to is
/// left alone, in a dry run too: the outcome is `Unchanged`, verified, with
/// nothing that would change, and it reports the category the transaction
/// has.
pub proof fn lemma_already_in_target_is_unchanged(
    m: TransactionUpdate,
    response: Result<JsonValue, CallError>,
    r: UpdateProgress,
)
    requires
        receive_agrees(m, response, r),
        match (m.phase, response) {
            (UpdatePhase::ReadingCategories { before }, Ok(data)) => match usable_categories(data) {
                Some(cats) => match resolved(cats, m.selector) {
                    Some(target) => before.category matches Some(c) && c.id@ == target.id@,
                    None => false,
                },
                None => false,
            },
            _ => false,
        },
    ensures
        r matches UpdateProgress::Finished(x) && x.outcome.status == UpdateStatus::Unchanged
            && x.outcome.changed == Some(false) && !x.outcome.would_change && x.outcome.verified
            && x.failure is None && x.outcome.after_category == x.outcome.before_category
            && (m.phase matches UpdatePhase::ReadingCategories { before } && x.outcome.before_category
            == before.category),
{
}

/// A dry run proposes a change only to a category the transaction does not
/// already have: its outcome names the proposed category, which differs (by
/// id) from the category before, would change it, and is not verified.
pub proof fn lemma_dry_run_proposes_a_real_change(
    m: TransactionUpdate,
    response: Result<JsonValue, CallError>,
    r: UpdateProgress,
)
    requires
        receive_agrees(m, response, r),
        r matches UpdateProgress::Finished(x) && x.outcome.status == UpdateStatus::DryRun,
    ensures
        m.dry_run,
        r matches UpdateProgress::Finished(x) && x.outcome.would_change && !x.outcome.verified
            && x.outcome.changed == Some(false) && x.failure is None && (
        x.outcome.after_category matches Some(t) && !(x.outcome.before_category matches Some(b)
            && b.id@ == t.id@)),
{
}

/// An unchanged outcome reports a transaction that keeps its category: the
/// category after is the category before, and there is one.
pub proof fn lemma_unchanged_keeps_category(
    m: TransactionUpdate,
    response: Result<JsonValue, CallError>,
    r: UpdateProgress,
)
    requires
        receive_agrees(m, response, r),
        r matches UpdateProgress::Finished(x) && x.outcome.status == UpdateStatus::Unchanged,
    ensures
        r matches UpdateProgress::Finished(x) && x.outcome.after_category == x.outcome.before_category
            && x.outcome.after_category is Some && x.outcome.verified && !x.outcome.would_change
            && x.outcome.changed == Some(false),
{
}

/// What the mutation response is taken to show. A transport failure is
/// ambiguous; GraphQL errors are a definitive failure exactly when they are
/// not classified ambiguous. A payload counts as accepted only when it
/// carries the expected transaction with the target category id and no
/// errors; it is a definitive failure only when its `errors` list is not
/// empty.
pub proof fn lemma_mutation_response_meaning(response: Result<JsonValue, CallError>, transaction_id: String, target: Category)
    ensures
        match (response, spec_attempt(response, transaction_id, target)) {
            (Err(CallError::Transport(_)), a) => a is AmbiguousFailure,
            (Err(CallError::Graphql(g)), a) => !(a is Accepted) && (a is DefinitiveFailure <==> spec_class(
                g.errors@,
                g.http_status,
            ) != GraphqlErrorClass::Ambiguous),
            (Ok(data), AttemptModel::Accepted) => match field(data, "updateTransaction"@) {
                Some(p) => !(p is Null) && (match field(p, "errors"@) {
                    Some(JsonValue::Null) => true,
                    Some(JsonValue::Array(xs)) => xs@.len() == 0,
                    _ => false,
                }) && match field(p, "transaction"@) {
                    Some(tv) => match spec_transaction(tv) {
                        Some(t) => t.id@ == transaction_id@ && (t.category matches Some(c) && c.id@
                            == target.id@),
                        None => false,
                    },
                    None => false,
                },
                None => false,
            },
            (Ok(data), AttemptModel::DefinitiveFailure(_)) => match field(data, "updateTransaction"@) {
                Some(p) => field(p, "errors"@) matches Some(JsonValue::Array(xs)) && xs@.len() > 0,
                None => false,
            },
            _ => true,
        },
{
    match response {
        Ok(data) => {
            match field(data, "updateTransaction"@) {
                Some(p) => match field(p, "errors"@) {
                    Some(ev) => {
                        if !(ev is Null) && spec_payload_error_list(ev) is Some {
                            assert(ev is Array);
                        }
                    },
                    None => {},
                },
                None => {},
            }
        },
        Err(_) => {},
    }
}

/// The read-back decides, stated on categories: a read-back whose category
/// id is the target's is `Updated`, with `changed`; otherwise, after a
/// definitive rejection, `Failed`, and `changed` says whether the category
/// id differs from the one before; after anything else, or when the
/// read-back fails, `OutcomeUnknown`.
pub proof fn lemma_readback_by_category(m: TransactionUpdate, response: Result<JsonValue, CallError>, r: UpdateProgress)
    requires
        receive_agrees(m, response, r),
    ensures
        match (m.phase, readback(response, m.transaction_id), r) {
            (UpdatePhase::Verifying { before, target, attempt }, Ok(after), UpdateProgress::Finished(x)) => {
                if after.category matches Some(c) && c.id@ == target.id@ {
                    x.outcome.status == UpdateStatus::Updated && x.outcome.changed == Some(true)
                        && x.outcome.verified && x.failure is None && x.outcome.after_category
                        == after.category
                } else if attempt@ is DefinitiveFailure {
                    x.outcome.status == UpdateStatus::Failed && x.outcome.changed == Some(
                        !(match (before.category, after.category) {
                            (Some(b), Some(a)) => b.id@ == a.id@,
                            (None, None) => true,
                            _ => false,
                        }),
                    ) && !x.outcome.verified && x.failure is Some
                } else {
                    x.outcome.status == UpdateStatus::OutcomeUnknown && x.outcome.changed is None
                        && !x.outcome.verified && x.failure is Some
                }
            },
            (UpdatePhase::Verifying { .. }, Err(_), UpdateProgress::Finished(x)) => x.outcome.status
                == UpdateStatus::OutcomeUnknown && x.outcome.changed is None && x.outcome.after_category
                is None && x.failure is Some,
            (UpdatePhase::Verifying { .. }, _, _) => false,
            _ => true,
        },
{
}

/// The mutation is sent at most once: it is asked for only while the update
/// is `Mutating`, every response to it leads to the read-only verification,
/// and verification never leads back to a mutation.
pub proof fn lemma_mutation_sent_at_most_once(
    m: TransactionUpdate,
    response: Result<JsonValue, CallError>,
    r: UpdateProgress,
    c: UpdateCall,
)
    requires
        receive_agrees(m, response, r),
        call_agrees(m, c),
    ensures
        c.operation == UpdateOperation::UpdateTransaction <==> m.phase is Mutating,
        m.phase is Mutating ==> (r matches UpdateProgress::Pending(n) && n.phase is Verifying),
        m.phase is Verifying ==> !(r is Pending),
        r matches UpdateProgress::Pending(n) ==> !(n.phase is ReadingTransaction),
{
}

/// A dry run never sends the mutation: from any state before the mutation,
/// a dry run only reaches other states before the mutation, and those never
/// ask for it.
pub proof fn lemma_dry_run_never_mutates(
    m: TransactionUpdate,
    response: Result<JsonValue, CallError>,
    r: UpdateProgress,
    c: UpdateCall,
)
    requires
        m.dry_run,
        m.phase is ReadingTransaction || m.phase is ReadingCategories,
        receive_agrees(m, response, r),
        call_agrees(m, c),
    ensures
        c.operation != UpdateOperation::UpdateTransaction,
        r matches UpdateProgress::Pending(n) ==> n.dry_run && (n.phase is ReadingTransaction
            || n.phase is ReadingCategories),
{
}

/// An update starts by reading the transaction, before anything else.
pub proof fn lemma_start_reads_first(args: TransactionUpdateArgs, r: Result<TransactionUpdate, UpdateError>, c: UpdateCall)
    requires
        start_agrees(args, r),
        r matches Ok(m) && call_agrees(m, c),
    ensures
        c.operation == UpdateOperation::GetTransactionForUpdate,
        is_id_variables(c.variables, args.transaction_id@),
{
}

/// The only write targets one explicit transaction and one category: the
/// mutation's variables name exactly the update's transaction and the
/// resolved target, which is the single enabled category the selector
/// matched.
pub proof fn lemma_mutation_targets_resolved_category(
    m: TransactionUpdate,
    response: Result<JsonValue, CallError>,
    n: TransactionUpdate,
    c: UpdateCall,
)
    requires
        m.phase is ReadingCategories,
        receive_agrees(m, response, UpdateProgress::Pending(n)),
        call_agrees(n, c),
    ensures
        c.operation == UpdateOperation::UpdateTransaction,
        match (response, n.phase) {
            (Ok(data), UpdatePhase::Mutating { target, .. }) => usable_categories(data) matches Some(
                cats,
            ) && resolved(cats, m.selector) == Some(target) && is_update_variables(
                c.variables,
                m.transaction_id@,
                target.id@,
            ),
            _ => false,
        },
{
}


/// The transaction an update has read carries the update's id.
pub open spec fn update_wf(m: TransactionUpdate) -> bool {
    match m.phase {
        UpdatePhase::ReadingTransaction => true,
        UpdatePhase::ReadingCategories { before } => before.id@ == m.transaction_id@,
        UpdatePhase::Mutating { before, .. } => before.id@ == m.transaction_id@,
        UpdatePhase::Verifying { before, .. } => before.id@ == m.transaction_id@,
    }
}

/// How many calls an update can still make after the one it waits for.
pub open spec fn calls_left(m: TransactionUpdate) -> nat {
    match m.phase {
        UpdatePhase::ReadingTransaction => 3,
        UpdatePhase::ReadingCategories { .. } => 2,
        UpdatePhase::Mutating { .. } => 1,
        UpdatePhase::Verifying { .. } => 0,
    }
}

/// Each step keeps the update well formed and brings it closer to its end;
/// every finished outcome names the update's transaction.
pub proof fn lemma_receive_progress(m: TransactionUpdate, response: Result<JsonValue, CallError>, r: UpdateProgress)
    requires
        update_wf(m),
        receive_agrees(m, response, r),
    ensures
        r matches UpdateProgress::Pending(n) ==> update_wf(n) && calls_left(n) < calls_left(m)
            && n.transaction_id == m.transaction_id && n.dry_run == m.dry_run,
        r matches UpdateProgress::Finished(x) ==> x.outcome.transaction_id@ == m.transaction_id@,
{
}

/// What every outcome of a whole update satisfies.
pub open spec fn execution_laws(args: TransactionUpdateArgs, x: UpdateExecution) -> bool {
    &&& x.outcome.transaction_id@ == args.transaction_id@
    &&& (x.failure is Some) <==> (x.outcome.status == UpdateStatus::Failed || x.outcome.status
        == UpdateStatus::OutcomeUnknown)
    &&& x.outcome.verified <==> (x.outcome.status == UpdateStatus::Updated || x.outcome.status
        == UpdateStatus::Unchanged)
    &&& (x.outcome.changed is None) <==> (x.outcome.status == UpdateStatus::OutcomeUnknown)
    &&& x.outcome.status == UpdateStatus::DryRun ==> args.dry_run
    &&& args.dry_run ==> (x.outcome.status == UpdateStatus::Unchanged || x.outcome.status
        == UpdateStatus::DryRun)
}

/// From `m0`, the update asked for the calls `cs`, each the one its state
/// waits for, got the responses `rs`, each one that `graphql` may give for
/// its call, and now waits in `m`.
pub open spec fn steps<F: Fn(&UpdateCall) -> Result<JsonValue, CallError>>(
    graphql: F,
    m0: TransactionUpdate,
    cs: Seq<UpdateCall>,
    rs: Seq<Result<JsonValue, CallError>>,
    m: TransactionUpdate,
) -> bool
    decreases rs.len(),
{
    if rs.len() == 0 {
        cs.len() == 0 && m == m0
    } else {
        &&& cs.len() == rs.len()
        &&& call_agrees(m0, cs[0])
        &&& call_ensures(graphql, (&cs[0],), rs[0])
        &&& exists|n: TransactionUpdate|
            #[trigger] receive_agrees(m0, rs[0], UpdateProgress::Pending(n)) && steps(
                graphql,
                n,
                cs.drop_first(),
                rs.drop_first(),
                m,
            )
    }
}

/// From `m0`, the calls `cs` and the responses `rs`, as in `steps`, take the
/// update to `p`, which the last response gave.
pub open spec fn ends<F: Fn(&UpdateCall) -> Result<JsonValue, CallError>>(
    graphql: F,
    m0: TransactionUpdate,
    cs: Seq<UpdateCall>,
    rs: Seq<Result<JsonValue, CallError>>,
    p: UpdateProgress,
) -> bool {
    &&& cs.len() == rs.len()
    &&& rs.len() > 0
    &&& exists|m: TransactionUpdate|
        #[trigger] steps(graphql, m0, cs.drop_last(), rs.drop_last(), m) && call_agrees(m, cs.last())
            && call_ensures(graphql, (&cs.last(),), rs.last()) && receive_agrees(m, rs.last(), p)
}

proof fn lemma_steps_extend<F: Fn(&UpdateCall) -> Result<JsonValue, CallError>>(
    graphql: F,
    m0: TransactionUpdate,
    cs: Seq<UpdateCall>,
    rs: Seq<Result<JsonValue, CallError>>,
    m: TransactionUpdate,
    c: UpdateCall,
    response: Result<JsonValue, CallError>,
    n: TransactionUpdate,
)
    requires
        steps(graphql, m0, cs, rs, m),
        call_agrees(m, c),
        call_ensures(graphql, (&c,), response),
        receive_agrees(m, response, UpdateProgress::Pending(n)),
    ensures
        steps(graphql, m0, cs.push(c), rs.push(response), n),
    decreases rs.len(),
{
    let cs2 = cs.push(c);
    let rs2 = rs.push(response);
    if rs.len() == 0 {
        assert(cs2.drop_first() =~= Seq::<UpdateCall>::empty());
        assert(rs2.drop_first() =~= Seq::<Result<JsonValue, CallError>>::empty());
        assert(steps(graphql, n, cs2.drop_first(), rs2.drop_first(), n));
        assert(receive_agrees(m0, rs2[0], UpdateProgress::Pending(n)));
    } else {
        let n1 = choose|n1: TransactionUpdate|
            #[trigger] receive_agrees(m0, rs[0], UpdateProgress::Pending(n1)) && steps(
                graphql,
                n1,
                cs.drop_first(),
                rs.drop_first(),
                m,
            );
        lemma_steps_extend(graphql, n1, cs.drop_first(), rs.drop_first(), m, c, response, n);
        assert(cs2.drop_first() =~= cs.drop_first().push(c));
        assert(rs2.drop_first() =~= rs.drop_first().push(response));
        assert(receive_agrees(m0, rs2[0], UpdateProgress::Pending(n1)));
    }
}

/// A transport for the calls of an update, with the record of every call
/// made through it.
pub struct CallLog<F> {
    transport: F,
    calls: Ghost<Seq<UpdateCall>>,
}

impl<F: Fn(&UpdateCall) -> Result<JsonValue, CallError>> CallLog<F> {
    /// The calls made through the log so far, in order.
    pub closed spec fn calls(&self) -> Seq<UpdateCall> {
        self.calls@
    }

    /// The function that answers the calls.
    pub closed spec fn transport(&self) -> F {
        self.transport
    }

    /// A log of no calls yet, around `transport`.
    pub fn new(transport: F) -> (r: Self)
        ensures
            r.calls() == Seq::<UpdateCall>::empty(),
            r.transport() == transport,
    {
        CallLog { transport, calls: Ghost(Seq::empty()) }
    }

    /// Makes one call through the transport and records it.
    pub fn call(&mut self, c: &UpdateCall) -> (r: Result<JsonValue, CallError>)
        requires
            call_requires(old(self).transport(), (c,)),
        ensures
            final(self).calls() == old(self).calls().push(*c),
            final(self).transport() == old(self).transport(),
            call_ensures(old(self).transport(), (c,), r),
    {
        let r = (self.transport)(c);
        self.calls = Ghost(self.calls@.push(*c));
        r
    }

    /// The transport back.
    pub fn into_transport(self) -> (r: F)
        ensures
            r == self.transport(),
    {
        self.transport
    }
}

/// `c` reads the transaction `transaction_id`.
pub open spec fn reads_transaction(c: UpdateCall, transaction_id: Seq<char>) -> bool {
    c.operation == UpdateOperation::GetTransactionForUpdate && is_id_variables(c.variables, transaction_id)
}

/// The calls of one update, in order: the transaction is read, then the
/// categories, then (never in a dry run) the mutation of that transaction,
/// then the transaction is read once more. The update may stop after any of
/// them.
pub open spec fn update_calls(args: TransactionUpdateArgs, cs: Seq<UpdateCall>) -> bool {
    &&& cs.len() <= 4
    &&& cs.len() >= 1 ==> reads_transaction(cs[0], args.transaction_id@)
    &&& cs.len() >= 2 ==> cs[1].operation == UpdateOperation::GetCategories
    &&& cs.len() >= 3 ==> !args.dry_run && cs[2].operation == UpdateOperation::UpdateTransaction
        && (exists|category_id: Seq<char>|
        #[trigger] is_update_variables(cs[2].variables, args.transaction_id@, category_id))
    &&& cs.len() >= 4 ==> reads_transaction(cs[3], args.transaction_id@)
}

/// The calls an update made after the log held `before`.
pub open spec fn calls_since(before: Seq<UpdateCall>, after: Seq<UpdateCall>) -> Seq<UpdateCall> {
    after.skip(before.len() as int)
}

/// The mutation is sent at most once, and never in a dry run: in the calls
/// of an update, only the third can be the mutation.
pub proof fn lemma_update_calls_mutate_once(args: TransactionUpdateArgs, cs: Seq<UpdateCall>)
    requires
        update_calls(args, cs),
    ensures
        forall|i: int|
            0 <= i < cs.len() && #[trigger] cs[i].operation == UpdateOperation::UpdateTransaction
                ==> i == 2 && !args.dry_run,
        forall|i: int, j: int|
            0 <= i < cs.len() && 0 <= j < cs.len() && #[trigger] cs[i].operation
                == UpdateOperation::UpdateTransaction && #[trigger] cs[j].operation
                == UpdateOperation::UpdateTransaction ==> i == j,
{
}

/// Runs an update to its end, making each call through `log`: it reads the
/// transaction and the categories, sends the mutation at most once (never in
/// a dry run), then reads the transaction back. The calls it makes are
/// exactly those of a run of the update's steps (`update_calls` gives their
/// order), and the result is the end of that run: the arguments' error,
/// before any call, or what the last response gave. Whatever the responses,
/// the outcome reports the requested transaction and is consistent
/// (`execution_laws`); the mutation was sent exactly when the outcome is
/// neither `Unchanged` nor `DryRun`, and an error means it was not sent.
pub fn execute<F>(args: &TransactionUpdateArgs, log: &mut CallLog<F>) -> (r: Result<UpdateExecution, UpdateError>)
    where F: Fn(&UpdateCall) -> Result<JsonValue, CallError>,
    requires
        forall|c: &UpdateCall| #[trigger] call_requires(old(log).transport(), (c,)),
    ensures
        final(log).transport() == old(log).transport(),
        old(log).calls().len() <= final(log).calls().len(),
        final(log).calls().take(old(log).calls().len() as int) == old(log).calls(),
        update_calls(*args, calls_since(old(log).calls(), final(log).calls())),
        forall|s: Result<TransactionUpdate, UpdateError>|
            #[trigger] start_agrees(*args, s) ==> (s matches Err(e) ==> r == Err::<
                UpdateExecution,
                UpdateError,
            >(e) && final(log).calls() == old(log).calls()),
        r matches Ok(x) ==> execution_laws(*args, x) && (calls_since(
            old(log).calls(),
            final(log).calls(),
        ).len() == 4 <==> !(x.outcome.status == UpdateStatus::Unchanged || x.outcome.status
            == UpdateStatus::DryRun)) && (calls_since(old(log).calls(), final(log).calls()).len()
            == 2 || calls_since(old(log).calls(), final(log).calls()).len() == 4),
        r matches Ok(x) ==> exists|m0: TransactionUpdate, rs: Seq<Result<JsonValue, CallError>>|
            #[trigger] ends(
                old(log).transport(),
                m0,
                calls_since(old(log).calls(), final(log).calls()),
                rs,
                UpdateProgress::Finished(x),
            ) && start_agrees(*args, Ok(m0)),
        r matches Err(e) ==> calls_since(old(log).calls(), final(log).calls()).len() <= 2 && ((
        start_agrees(*args, Err(e)) && final(log).calls() == old(log).calls()) || exists|
            m0: TransactionUpdate,
            rs: Seq<Result<JsonValue, CallError>>,
        |
            #[trigger] ends(
                old(log).transport(),
                m0,
                calls_since(old(log).calls(), final(log).calls()),
                rs,
                UpdateProgress::Failed(e),
            ) && start_agrees(*args, Ok(m0))),
{
    let ghost before_calls = log.calls();
    let ghost graphql = log.transport();
    assert(calls_since(before_calls, log.calls()) =~= Seq::<UpdateCall>::empty());
    let started = TransactionUpdate::start(args);
    let mut m = match started {
        Ok(m) => m,
        Err(e) => return Err(e),
    };
    let ghost m0 = m;
    let ghost cs: Seq<UpdateCall> = Seq::empty();
    let ghost rs: Seq<Result<JsonValue, CallError>> = Seq::empty();
    loop
        invariant
            forall|c: &UpdateCall| #[trigger] call_requires(graphql, (c,)),
            log.transport() == graphql,
            log.calls() == before_calls + cs,
            old(log).transport() == graphql,
            old(log).calls() == before_calls,
            update_wf(m),
            m.transaction_id == args.transaction_id,
            m.dry_run == args.dry_run,
            !is_blank(args.transaction_id@),
            forall|s: Result<TransactionUpdate, UpdateError>| #[trigger] start_agrees(*args, s) ==> s is Ok,
            m.dry_run ==> (m.phase is ReadingTransaction || m.phase is ReadingCategories),
            start_agrees(*args, Ok(m0)),
            steps(graphql, m0, cs, rs, m),
            update_calls(*args, cs),
            (m.phase is ReadingTransaction && cs.len() == 0) || (m.phase is ReadingCategories
                && cs.len() == 1) || (m.phase is Mutating && cs.len() == 2) || (m.phase is Verifying
                && cs.len() == 3),
        decreases calls_left(m),
    {
        let call = m.next_call();
        let response = log.call(&call);
        let ghost before = m;
        let progress = m.receive(response);
        proof {
            lemma_receive_progress(before, response, progress);
            lemma_finished_outcome_consistent(before, response, progress);
            assert(cs.push(call).drop_last() =~= cs);
            assert(rs.push(response).drop_last() =~= rs);
            assert(log.calls() =~= before_calls + cs.push(call));
            assert(calls_since(before_calls, log.calls()) =~= cs.push(call));
            if let UpdatePhase::Mutating { target, .. } = before.phase {
                assert(is_update_variables(call.variables, args.transaction_id@, target.id@));
            }
            assert(update_calls(*args, cs.push(call)));
        }
        match progress {
            UpdateProgress::Pending(n) => {
                proof {
                    lemma_steps_extend(graphql, m0, cs, rs, before, call, response, n);
                    cs = cs.push(call);
                    rs = rs.push(response);
                }
                m = n;
            },
            UpdateProgress::Finished(x) => {
                assert(ends(graphql, m0, cs.push(call), rs.push(response), UpdateProgress::Finished(x)));
                return Ok(x);
            },
            UpdateProgress::Failed(e) => {
                assert(ends(graphql, m0, cs.push(call), rs.push(response), UpdateProgress::Failed(e)));
                return Err(e);
            },
        }
    }
}

} // verus!
