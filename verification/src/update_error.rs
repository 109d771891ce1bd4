//! Errors of the single-transaction category update, and of the GraphQL
//! calls it makes.
use vstd::prelude::*;
use vstd::string::*;
use crate::graphql::{GraphqlResponseError, spec_describe};
use crate::text::{debug_quoted, debug_quote, decimal, decimal_string};
use crate::read_problem::{ReadProblem, ListProblem, read_problem_text, list_problem_text};

verus! {

/// A failed GraphQL call, as the transport reports it.
#[derive(Debug)]
pub enum CallError {
    /// The response carried top-level GraphQL errors.
    Graphql(GraphqlResponseError),
    /// Any other failure: network, timeout, HTTP status, unreadable body.
    Transport(String),
}

pub open spec fn call_error_text(e: CallError) -> Seq<char> {
    match e {
        CallError::Graphql(g) => spec_describe(g),
        CallError::Transport(m) => m@,
    }
}

impl CallError {
    /// The error's text.
    pub fn message(&self) -> (r: String)
        ensures
            r@ == call_error_text(*self),
    {
        match self {
            CallError::Graphql(g) => g.describe(),
            CallError::Transport(m) => m.clone(),
        }
    }
}

/// A field of a category that must not be blank.
#[derive(Debug, Clone, Copy, PartialEq, Eq, Structural)]
pub enum CategoryField {
    Id,
    Name,
    GroupId,
    GroupName,
    GroupType,
}

pub open spec fn category_field_text(f: CategoryField) -> Seq<char> {
    match f {
        CategoryField::Id => "id"@,
        CategoryField::Name => "name"@,
        CategoryField::GroupId => "group id"@,
        CategoryField::GroupName => "group name"@,
        CategoryField::GroupType => "group type"@,
    }
}

#[derive(Debug)]
pub enum UpdateError {
    /// The transaction id argument is blank.
    EmptyTransactionIdArg,
    /// `--category` is blank.
    EmptyCategoryName,
    /// `--category-id` is blank.
    EmptyCategoryId,
    /// Neither `--category` nor `--category-id` was given.
    MissingSelector,
    /// Both `--category` and `--category-id` were given.
    ConflictingSelectors,
    /// Reading the transaction before the update failed.
    ReadTransactionFailed { transaction_id: String, cause: String },
    /// Reading the categories failed.
    ReadCategoriesFailed { cause: String },
    MissingCategories,
    UnreadableCategories { problem: ListProblem },
    BlankCategoryField { index: usize, field: CategoryField },
    NoCategoryNamed { wanted: String },
    AmbiguousCategoryName { wanted: String, count: usize },
    NoCategoryWithId { wanted: String },
    DuplicateCategoryId { wanted: String },
    DisabledCategory { name: String, id: String },
    MissingGetTransaction,
    TransactionNotFound { transaction_id: String },
    UnreadableTransaction { problem: ReadProblem },
    UnexpectedTransactionId { expected: String, got: String },
    EmptyTransactionId,
    EmptyCategoryRefId,
    EmptyCategoryRefName,
    MissingUpdatePayload,
    NullUpdatePayload,
    MissingPayloadErrors,
    UnreadablePayloadErrors { problem: ListProblem },
    MissingPayloadTransaction,
    NullPayloadTransaction,
    PayloadMissingCategory { name: String, id: String },
}

/// The text of an update error; a context error ends with its cause.
pub open spec fn update_error_text(e: UpdateError) -> Seq<char> {
    match e {
        UpdateError::EmptyTransactionIdArg => "TRANSACTION_ID must not be empty"@,
        UpdateError::EmptyCategoryName => "--category must not be empty"@,
        UpdateError::EmptyCategoryId => "--category-id must not be empty"@,
        UpdateError::MissingSelector => "one of --category or --category-id is required"@,
        UpdateError::ConflictingSelectors => "--category and --category-id cannot be used together"@,
        UpdateError::ReadTransactionFailed { transaction_id, cause } => "failed to read transaction "@
            + transaction_id@ + " before update: "@ + cause@,
        UpdateError::ReadCategoriesFailed { cause } => "failed to read categories before update: "@
            + cause@,
        UpdateError::MissingCategories => "GetCategories response missing categories"@,
        UpdateError::UnreadableCategories { problem } => "failed to parse GetCategories categories: "@
            + list_problem_text(problem),
        UpdateError::BlankCategoryField { index, field } => "GetCategories category at index "@
            + decimal(index as nat) + " has an empty "@ + category_field_text(field),
        UpdateError::NoCategoryNamed { wanted } => "no category named "@ + debug_quoted(wanted@)
            + "; names are matched exactly after trimming, case-insensitively"@,
        UpdateError::AmbiguousCategoryName { wanted, count } => "category name "@ + debug_quoted(
            wanted@,
        ) + " matched "@ + decimal(count as nat) + " categories; use --category-id"@,
        UpdateError::NoCategoryWithId { wanted } => "no category with id "@ + debug_quoted(wanted@),
        UpdateError::DuplicateCategoryId { wanted } => "category id "@ + debug_quoted(wanted@)
            + " matched multiple categories"@,
        UpdateError::DisabledCategory { name, id } => "category "@ + debug_quoted(name@) + " ("@
            + id@ + ") is disabled and cannot be assigned"@,
        UpdateError::MissingGetTransaction => "GetTransactionForUpdate response missing getTransaction"@,
        UpdateError::TransactionNotFound { transaction_id } => "transaction "@ + transaction_id@
            + " was not found"@,
        UpdateError::UnreadableTransaction { problem } => "failed to parse transaction: "@
            + read_problem_text(problem),
        UpdateError::UnexpectedTransactionId { expected, got } => "expected transaction id "@
            + debug_quoted(expected@) + ", got "@ + debug_quoted(got@),
        UpdateError::EmptyTransactionId => "transaction response has an empty id"@,
        UpdateError::EmptyCategoryRefId => "transaction category has an empty id"@,
        UpdateError::EmptyCategoryRefName => "transaction category has an empty name"@,
        UpdateError::MissingUpdatePayload => "mutation response missing updateTransaction"@,
        UpdateError::NullUpdatePayload => "mutation response returned a null updateTransaction payload"@,
        UpdateError::MissingPayloadErrors => "mutation payload missing errors"@,
        UpdateError::UnreadablePayloadErrors { problem } => "failed to parse mutation payload errors: "@
            + list_problem_text(problem),
        UpdateError::MissingPayloadTransaction => "mutation payload missing transaction"@,
        UpdateError::NullPayloadTransaction => "mutation payload returned a null transaction"@,
        UpdateError::PayloadMissingCategory { name, id } => "mutation payload transaction did not contain requested category "@
            + debug_quoted(name@) + " ("@ + id@ + ")"@,
    }
}

impl UpdateError {
    /// The error's text.
    pub fn message(&self) -> (r: String)
        ensures
            r@ == update_error_text(*self),
    {
        let mut r = String::new();
        match self {
            UpdateError::EmptyTransactionIdArg => r.append("TRANSACTION_ID must not be empty"),
            UpdateError::EmptyCategoryName => r.append("--category must not be empty"),
            UpdateError::EmptyCategoryId => r.append("--category-id must not be empty"),
            UpdateError::MissingSelector => r.append("one of --category or --category-id is required"),
            UpdateError::ConflictingSelectors => r.append(
                "--category and --category-id cannot be used together",
            ),
            UpdateError::ReadTransactionFailed { transaction_id, cause } => {
                r.append("failed to read transaction ");
                r.append(transaction_id.as_str());
                r.append(" before update: ");
                r.append(cause.as_str());
            },
            UpdateError::ReadCategoriesFailed { cause } => {
                r.append("failed to read categories before update: ");
                r.append(cause.as_str());
            },
            UpdateError::MissingCategories => r.append("GetCategories response missing categories"),
            UpdateError::UnreadableCategories { problem } => {
                r.append("failed to parse GetCategories categories: ");
                let p = problem.message();
                r.append(p.as_str());
            },
            UpdateError::BlankCategoryField { index, field } => {
                r.append("GetCategories category at index ");
                let n = decimal_string(*index as u64);
                r.append(n.as_str());
                r.append(" has an empty ");
                match field {
                    CategoryField::Id => r.append("id"),
                    CategoryField::Name => r.append("name"),
                    CategoryField::GroupId => r.append("group id"),
                    CategoryField::GroupName => r.append("group name"),
                    CategoryField::GroupType => r.append("group type"),
                }
            },
            UpdateError::NoCategoryNamed { wanted } => {
                r.append("no category named ");
                let q = debug_quote(wanted.as_str());
                r.append(q.as_str());
                r.append("; names are matched exactly after trimming, case-insensitively");
            },
            UpdateError::AmbiguousCategoryName { wanted, count } => {
                r.append("category name ");
                let q = debug_quote(wanted.as_str());
                r.append(q.as_str());
                r.append(" matched ");
                let n = decimal_string(*count as u64);
                r.append(n.as_str());
                r.append(" categories; use --category-id");
            },
            UpdateError::NoCategoryWithId { wanted } => {
                r.append("no category with id ");
                let q = debug_quote(wanted.as_str());
                r.append(q.as_str());
            },
            UpdateError::DuplicateCategoryId { wanted } => {
                r.append("category id ");
                let q = debug_quote(wanted.as_str());
                r.append(q.as_str());
                r.append(" matched multiple categories");
            },
            UpdateError::DisabledCategory { name, id } => {
                r.append("category ");
                let q = debug_quote(name.as_str());
                r.append(q.as_str());
                r.append(" (");
                r.append(id.as_str());
                r.append(") is disabled and cannot be assigned");
            },
            UpdateError::MissingGetTransaction => r.append(
                "GetTransactionForUpdate response missing getTransaction",
            ),
            UpdateError::TransactionNotFound { transaction_id } => {
                r.append("transaction ");
                r.append(transaction_id.as_str());
                r.append(" was not found");
            },
            UpdateError::UnreadableTransaction { problem } => {
                r.append("failed to parse transaction: ");
                let p = problem.message();
                r.append(p.as_str());
            },
            UpdateError::UnexpectedTransactionId { expected, got } => {
                r.append("expected transaction id ");
                let q = debug_quote(expected.as_str());
                r.append(q.as_str());
                r.append(", got ");
                let g = debug_quote(got.as_str());
                r.append(g.as_str());
            },
            UpdateError::EmptyTransactionId => r.append("transaction response has an empty id"),
            UpdateError::EmptyCategoryRefId => r.append("transaction category has an empty id"),
            UpdateError::EmptyCategoryRefName => r.append("transaction category has an empty name"),
            UpdateError::MissingUpdatePayload => r.append("mutation response missing updateTransaction"),
            UpdateError::NullUpdatePayload => r.append(
                "mutation response returned a null updateTransaction payload",
            ),
            UpdateError::MissingPayloadErrors => r.append("mutation payload missing errors"),
            UpdateError::UnreadablePayloadErrors { problem } => {
                r.append("failed to parse mutation payload errors: ");
                let p = problem.message();
                r.append(p.as_str());
            },
            UpdateError::MissingPayloadTransaction => r.append("mutation payload missing transaction"),
            UpdateError::NullPayloadTransaction => r.append(
                "mutation payload returned a null transaction",
            ),
            UpdateError::PayloadMissingCategory { name, id } => {
                r.append("mutation payload transaction did not contain requested category ");
                let q = debug_quote(name.as_str());
                r.append(q.as_str());
                r.append(" (");
                r.append(id.as_str());
                r.append(")");
            },
        }
        r
    }
}

} // verus!
