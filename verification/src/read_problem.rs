//! Why a record or a list of records could not be read: the first field, in
//! the record's own order, that is missing or cannot be read, and the first
//! element of a list that fails.
use vstd::prelude::*;
use vstd::string::*;
use crate::json::{JsonValue, slot, record_shape, record_slot, has_record_shape};
use crate::text::{decimal, decimal_string};
use crate::category::spec_category;
use crate::graphql::spec_error_item;
use crate::transaction_update::{spec_payload_error, spec_opt_string};

verus! {

/// A field of the records this crate reads, by its JSON key.
#[derive(Debug, Clone, Copy, PartialEq, Eq, Structural)]
pub enum RecordField {
    Id,
    Name,
    IsDisabled,
    Group,
    Category,
    Message,
    Code,
    FieldErrors,
    Extensions,
}

pub open spec fn record_field_key(f: RecordField) -> Seq<char> {
    match f {
        RecordField::Id => "id"@,
        RecordField::Name => "name"@,
        RecordField::IsDisabled => "isDisabled"@,
        RecordField::Group => "group"@,
        RecordField::Category => "category"@,
        RecordField::Message => "message"@,
        RecordField::Code => "code"@,
        RecordField::FieldErrors => "fieldErrors"@,
        RecordField::Extensions => "extensions"@,
    }
}

/// Why a record could not be read.
#[derive(Debug, Clone, Copy, PartialEq, Eq, Structural)]
pub enum ReadProblem {
    /// The value is neither an object nor an array of at most as many
    /// elements as the record has fields.
    NotRecord,
    /// A field that must be present is missing.
    Missing(RecordField),
    /// A field holds a value of the wrong type, or one that cannot be read.
    Unreadable(RecordField),
}

/// Why a list of records could not be read.
#[derive(Debug, Clone, Copy, PartialEq, Eq, Structural)]
pub enum ListProblem {
    /// The value is not a list.
    NotList,
    /// The element at `index` is the first that could not be read.
    Item { index: usize, problem: ReadProblem },
}

pub open spec fn read_problem_text(p: ReadProblem) -> Seq<char> {
    match p {
        ReadProblem::NotRecord => "expected an object"@,
        ReadProblem::Missing(f) => "missing field `"@ + record_field_key(f) + "`"@,
        ReadProblem::Unreadable(f) => "invalid field `"@ + record_field_key(f) + "`"@,
    }
}

pub open spec fn list_problem_text(p: ListProblem) -> Seq<char> {
    match p {
        ListProblem::NotList => "expected a list"@,
        ListProblem::Item { index, problem } => "item "@ + decimal(index as nat) + ": "@
            + read_problem_text(problem),
    }
}

fn field_key(f: RecordField) -> (r: &'static str)
    ensures
        r@ == record_field_key(f),
{
    match f {
        RecordField::Id => "id",
        RecordField::Name => "name",
        RecordField::IsDisabled => "isDisabled",
        RecordField::Group => "group",
        RecordField::Category => "category",
        RecordField::Message => "message",
        RecordField::Code => "code",
        RecordField::FieldErrors => "fieldErrors",
        RecordField::Extensions => "extensions",
    }
}

impl ReadProblem {
    /// The problem's text.
    pub fn message(&self) -> (r: String)
        ensures
            r@ == read_problem_text(*self),
    {
        let mut r = String::new();
        match self {
            ReadProblem::NotRecord => r.append("expected an object"),
            ReadProblem::Missing(f) => {
                r.append("missing field `");
                r.append(field_key(*f));
                r.append("`");
            },
            ReadProblem::Unreadable(f) => {
                r.append("invalid field `");
                r.append(field_key(*f));
                r.append("`");
            },
        }
        r
    }
}

impl ListProblem {
    /// The problem's text.
    pub fn message(&self) -> (r: String)
        ensures
            r@ == list_problem_text(*self),
    {
        match self {
            ListProblem::NotList => "expected a list".to_owned(),
            ListProblem::Item { index, problem } => {
                let mut r = String::new();
                r.append("item ");
                let n = decimal_string(*index as u64);
                r.append(n.as_str());
                r.append(": ");
                let p = problem.message();
                r.append(p.as_str());
                r
            },
        }
    }
}

/// The kinds of records that come in lists.
#[derive(Debug, Clone, Copy, PartialEq, Eq, Structural)]
pub enum ListOf {
    Categories,
    GraphqlErrors,
    PayloadErrors,
}

/// The element reads as a record of the list's kind.
pub open spec fn reads_as(k: ListOf, v: JsonValue) -> bool {
    match k {
        ListOf::Categories => spec_category(v) is Some,
        ListOf::GraphqlErrors => spec_error_item(v) is Some,
        ListOf::PayloadErrors => spec_payload_error(v) is Some,
    }
}

/// Why a category could not be read: the first of `id`, `name`,
/// `isDisabled` that is missing or of the wrong type, else its group.
pub open spec fn category_problem(x: JsonValue) -> ReadProblem {
    if !record_shape(x, 4) {
        ReadProblem::NotRecord
    } else {
        match slot(x, "id"@, 0) {
            None => ReadProblem::Missing(RecordField::Id),
            Some(JsonValue::Str(_)) => match slot(x, "name"@, 1) {
                None => ReadProblem::Missing(RecordField::Name),
                Some(JsonValue::Str(_)) => match slot(x, "isDisabled"@, 2) {
                    None => ReadProblem::Missing(RecordField::IsDisabled),
                    Some(JsonValue::Bool(_)) => match slot(x, "group"@, 3) {
                        None => ReadProblem::Missing(RecordField::Group),
                        Some(_) => ReadProblem::Unreadable(RecordField::Group),
                    },
                    Some(_) => ReadProblem::Unreadable(RecordField::IsDisabled),
                },
                Some(_) => ReadProblem::Unreadable(RecordField::Name),
            },
            Some(_) => ReadProblem::Unreadable(RecordField::Id),
        }
    }
}

/// Why a GraphQL error could not be read: its `message` is missing or not a
/// string, else its `extensions`.
pub open spec fn error_item_problem(x: JsonValue) -> ReadProblem {
    if !record_shape(x, 2) {
        ReadProblem::NotRecord
    } else {
        match slot(x, "message"@, 0) {
            None => ReadProblem::Missing(RecordField::Message),
            Some(JsonValue::Str(_)) => ReadProblem::Unreadable(RecordField::Extensions),
            Some(_) => ReadProblem::Unreadable(RecordField::Message),
        }
    }
}

/// Why a payload error could not be read: the first of `message`, `code`
/// that is not a string or null, else its `fieldErrors`.
pub open spec fn payload_error_problem(x: JsonValue) -> ReadProblem {
    if !record_shape(x, 3) {
        ReadProblem::NotRecord
    } else if spec_opt_string(slot(x, "message"@, 0)) is None {
        ReadProblem::Unreadable(RecordField::Message)
    } else if spec_opt_string(slot(x, "code"@, 1)) is None {
        ReadProblem::Unreadable(RecordField::Code)
    } else {
        ReadProblem::Unreadable(RecordField::FieldErrors)
    }
}

/// Why a transaction could not be read: its `id` is missing or not a
/// string, else its `category` is missing (from an array) or cannot be
/// read.
pub open spec fn transaction_problem(x: JsonValue) -> ReadProblem {
    if !record_shape(x, 2) {
        ReadProblem::NotRecord
    } else {
        match slot(x, "id"@, 0) {
            None => ReadProblem::Missing(RecordField::Id),
            Some(JsonValue::Str(_)) => match slot(x, "category"@, 1) {
                None => ReadProblem::Missing(RecordField::Category),
                Some(_) => ReadProblem::Unreadable(RecordField::Category),
            },
            Some(_) => ReadProblem::Unreadable(RecordField::Id),
        }
    }
}

pub open spec fn item_problem(k: ListOf, v: JsonValue) -> ReadProblem {
    match k {
        ListOf::Categories => category_problem(v),
        ListOf::GraphqlErrors => error_item_problem(v),
        ListOf::PayloadErrors => payload_error_problem(v),
    }
}

/// The index of the first element of `xs` that does not read as `k`.
pub open spec fn first_failing(k: ListOf, xs: Seq<JsonValue>) -> nat
    decreases xs.len(),
{
    if xs.len() == 0 || !reads_as(k, xs[0]) {
        0
    } else {
        1 + first_failing(k, xs.drop_first())
    }
}

/// Why a value does not read as a list of `k`.
pub open spec fn list_problem(k: ListOf, x: JsonValue) -> ListProblem {
    match x {
        JsonValue::Array(xs) => {
            let i = first_failing(k, xs@);
            ListProblem::Item { index: i as usize, problem: item_problem(k, xs@[i as int]) }
        },
        _ => ListProblem::NotList,
    }
}

/// The first failing element is the one after the elements that read.
pub proof fn lemma_first_failing(k: ListOf, xs: Seq<JsonValue>, i: int)
    requires
        0 <= i < xs.len(),
        forall|j: int| 0 <= j < i ==> reads_as(k, #[trigger] xs[j]),
        !reads_as(k, xs[i]),
    ensures
        first_failing(k, xs) == i,
    decreases i,
{
    if i > 0 {
        assert forall|j: int| 0 <= j < i - 1 implies reads_as(k, #[trigger] xs.drop_first()[j]) by {
            assert(xs.drop_first()[j] == xs[j + 1]);
        }
        assert(reads_as(k, xs[0]));
        lemma_first_failing(k, xs.drop_first(), i - 1);
    }
}

pub fn category_problem_of(x: &JsonValue) -> (r: ReadProblem)
    ensures
        r == category_problem(*x),
{
    if !has_record_shape(x, 4) {
        return ReadProblem::NotRecord;
    }
    match record_slot(x, "id", 0) {
        None => ReadProblem::Missing(RecordField::Id),
        Some(JsonValue::Str(_)) => match record_slot(x, "name", 1) {
            None => ReadProblem::Missing(RecordField::Name),
            Some(JsonValue::Str(_)) => match record_slot(x, "isDisabled", 2) {
                None => ReadProblem::Missing(RecordField::IsDisabled),
                Some(JsonValue::Bool(_)) => match record_slot(x, "group", 3) {
                    None => ReadProblem::Missing(RecordField::Group),
                    Some(_) => ReadProblem::Unreadable(RecordField::Group),
                },
                Some(_) => ReadProblem::Unreadable(RecordField::IsDisabled),
            },
            Some(_) => ReadProblem::Unreadable(RecordField::Name),
        },
        Some(_) => ReadProblem::Unreadable(RecordField::Id),
    }
}

pub fn error_item_problem_of(x: &JsonValue) -> (r: ReadProblem)
    ensures
        r == error_item_problem(*x),
{
    if !has_record_shape(x, 2) {
        return ReadProblem::NotRecord;
    }
    match record_slot(x, "message", 0) {
        None => ReadProblem::Missing(RecordField::Message),
        Some(JsonValue::Str(_)) => ReadProblem::Unreadable(RecordField::Extensions),
        Some(_) => ReadProblem::Unreadable(RecordField::Message),
    }
}

fn opt_string_ok(v: Option<&JsonValue>) -> (r: bool)
    ensures
        r == (spec_opt_string(
            match v {
                Some(x) => Some(*x),
                None => None,
            },
        ) is Some),
{
    match v {
        None => true,
        Some(JsonValue::Null) => true,
        Some(JsonValue::Str(_)) => true,
        _ => false,
    }
}

pub fn payload_error_problem_of(x: &JsonValue) -> (r: ReadProblem)
    ensures
        r == payload_error_problem(*x),
{
    if !has_record_shape(x, 3) {
        return ReadProblem::NotRecord;
    }
    if !opt_string_ok(record_slot(x, "message", 0)) {
        ReadProblem::Unreadable(RecordField::Message)
    } else if !opt_string_ok(record_slot(x, "code", 1)) {
        ReadProblem::Unreadable(RecordField::Code)
    } else {
        ReadProblem::Unreadable(RecordField::FieldErrors)
    }
}

pub fn transaction_problem_of(x: &JsonValue) -> (r: ReadProblem)
    ensures
        r == transaction_problem(*x),
{
    if !has_record_shape(x, 2) {
        return ReadProblem::NotRecord;
    }
    match record_slot(x, "id", 0) {
        None => ReadProblem::Missing(RecordField::Id),
        Some(JsonValue::Str(_)) => match record_slot(x, "category", 1) {
            None => ReadProblem::Missing(RecordField::Category),
            Some(_) => ReadProblem::Unreadable(RecordField::Category),
        },
        Some(_) => ReadProblem::Unreadable(RecordField::Id),
    }
}

/// Why the element `x`, which does not read as `k`, failed.
pub fn item_problem_of(k: ListOf, x: &JsonValue) -> (r: ReadProblem)
    ensures
        r == item_problem(k, *x),
{
    match k {
        ListOf::Categories => category_problem_of(x),
        ListOf::GraphqlErrors => error_item_problem_of(x),
        ListOf::PayloadErrors => payload_error_problem_of(x),
    }
}

} // verus!
