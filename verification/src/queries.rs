//! Built-in GraphQL documents and the variables they take.
use vstd::prelude::*;
use crate::json::{JsonValue, JsonMember, member};
use crate::text::{decimal, decimal_string};
use crate::cli::TransactionArgs;

verus! {

pub const SUBSCRIPTION: &'static str = "
query GetSubscriptionDetails {
  subscription {
    id
    paymentSource
    referralCode
    isOnFreeTrial
    hasPremiumEntitlement
    __typename
  }
}
";

pub const ACCOUNTS: &'static str = "
query GetAccounts {
  accounts {
    id
    displayName
    syncDisabled
    deactivatedAt
    isHidden
    isAsset
    mask
    currentBalance
    displayBalance
    includeInNetWorth
    hideFromList
    hideTransactionsFromReports
    dataProvider
    isManual
    transactionsCount
    holdingsCount
    logoUrl
    type {
      name
      display
      group
      __typename
    }
    subtype {
      name
      display
      __typename
    }
    institution {
      id
      name
      __typename
    }
    __typename
  }
  householdPreferences {
    id
    accountGroupOrder
    __typename
  }
}
";

pub const CATEGORIES: &'static str = "
query GetCategories {
  categories {
    id
    name
    isDisabled
    group {
      id
      name
      type
    }
  }
}
";

pub const GET_TRANSACTION_FOR_UPDATE: &'static str = "
query GetTransactionForUpdate($id: UUID!) {
  getTransaction(id: $id, redirectPosted: false) {
    id
    category {
      id
      name
    }
  }
}
";

pub const UPDATE_TRANSACTION: &'static str = "
mutation Web_TransactionDrawerUpdateTransaction($input: UpdateTransactionMutationInput!) {
  updateTransaction(input: $input) {
    transaction {
      id
      category {
        id
        name
      }
    }
    errors {
      message
      code
      fieldErrors {
        field
        messages
      }
    }
  }
}
";

pub const TRANSACTIONS: &'static str = "
query GetTransactionsList($offset: Int, $limit: Int, $filters: TransactionFilterInput, $orderBy: TransactionOrdering) {
  allTransactions(filters: $filters) {
    totalCount
    results(offset: $offset, limit: $limit, orderBy: $orderBy) {
      id
      amount
      pending
      date
      hideFromReports
      plaidName
      notes
      isRecurring
      reviewStatus
      needsReview
      isSplitTransaction
      createdAt
      updatedAt
      category {
        id
        name
        __typename
      }
      merchant {
        name
        id
        transactionsCount
        __typename
      }
      account {
        id
        displayName
        __typename
      }
      tags {
        id
        name
        color
        order
        __typename
      }
      __typename
    }
    __typename
  }
  transactionRules {
    id
    __typename
  }
}
";

/// `v` is a string value with text `s`.
pub open spec fn is_text(v: JsonValue, s: Seq<char>) -> bool {
    v matches JsonValue::Str(t) && t@ == s
}

/// `v` is a number value with the decimal text of `n`.
pub open spec fn is_count(v: JsonValue, n: nat) -> bool {
    v matches JsonValue::Number(t) && t@ == decimal(n)
}

pub open spec fn is_empty_list(v: JsonValue) -> bool {
    v matches JsonValue::Array(xs) && xs@.len() == 0
}

/// Member `i` of `ms` is `key` with a value satisfying `p`.
pub open spec fn member_is(ms: Seq<JsonMember>, i: int, key: Seq<char>, p: spec_fn(JsonValue) -> bool) -> bool {
    0 <= i < ms.len() && ms[i].key@ == key && p(ms[i].value)
}

/// `{ "id": id }`.
pub open spec fn is_id_variables(v: JsonValue, id: Seq<char>) -> bool {
    v matches JsonValue::Object(ms) && ms@.len() == 1 && member_is(
        ms@,
        0,
        "id"@,
        |x: JsonValue| is_text(x, id),
    )
}

/// `{ "input": { "id": transaction_id, "category": category_id } }`.
pub open spec fn is_update_variables(v: JsonValue, transaction_id: Seq<char>, category_id: Seq<char>) -> bool {
    match v {
        JsonValue::Object(ms) => ms@.len() == 1 && ms@[0].key@ == "input"@ && match ms@[0].value {
            JsonValue::Object(inner) => inner@.len() == 2 && member_is(
                inner@,
                0,
                "id"@,
                |x: JsonValue| is_text(x, transaction_id),
            ) && member_is(inner@, 1, "category"@, |x: JsonValue| is_text(x, category_id)),
            _ => false,
        },
        _ => false,
    }
}

pub fn transaction_for_update_variables(id: &str) -> (r: JsonValue)
    ensures
        is_id_variables(r, id@),
{
    JsonValue::Object(vec![member("id", JsonValue::string(id))])
}

/// The variables of the update mutation: exactly one transaction and one
/// category.
pub fn update_transaction_variables(transaction_id: &str, category_id: &str) -> (r: JsonValue)
    ensures
        is_update_variables(r, transaction_id@, category_id@),
{
    let input = JsonValue::Object(
        vec![
            member("id", JsonValue::string(transaction_id)),
            member("category", JsonValue::string(category_id)),
        ],
    );
    JsonValue::Object(vec![member("input", input)])
}

/// Dates must be given as a pair.
#[derive(Debug, Clone, Copy, PartialEq, Eq, Structural)]
pub enum DateRangeError {
    UnpairedDate,
}

impl DateRangeError {
    pub fn message(&self) -> (r: String)
        ensures
            r@ == "--start-date and --end-date must be provided together"@,
    {
        "--start-date and --end-date must be provided together".to_owned()
    }
}

/// The `filters` object of a transaction search.
pub open spec fn is_filters(
    v: JsonValue,
    search: Seq<char>,
    start_date: Option<Seq<char>>,
    end_date: Option<Seq<char>>,
) -> bool {
    v matches JsonValue::Object(fs) && member_is(fs@, 0, "search"@, |x: JsonValue| is_text(x, search))
        && member_is(fs@, 1, "categories"@, |x: JsonValue| is_empty_list(x))
        && member_is(fs@, 2, "accounts"@, |x: JsonValue| is_empty_list(x))
        && member_is(fs@, 3, "tags"@, |x: JsonValue| is_empty_list(x))
        && match (start_date, end_date) {
            (Some(s), Some(e)) => fs@.len() == 6 && member_is(
                fs@,
                4,
                "startDate"@,
                |x: JsonValue| is_text(x, s),
            ) && member_is(fs@, 5, "endDate"@, |x: JsonValue| is_text(x, e)),
            _ => fs@.len() == 4,
        }
}

/// The variables of a transaction search: ordered by date, with the search
/// text, no category, account or tag filter, and the date range when both
/// ends are given.
pub open spec fn is_search_variables(
    v: JsonValue,
    offset: u32,
    limit: u32,
    search: Seq<char>,
    start_date: Option<Seq<char>>,
    end_date: Option<Seq<char>>,
) -> bool {
    v matches JsonValue::Object(ms) && ms@.len() == 4 && member_is(
        ms@,
        0,
        "offset"@,
        |x: JsonValue| is_count(x, offset as nat),
    ) && member_is(ms@, 1, "limit"@, |x: JsonValue| is_count(x, limit as nat)) && member_is(
        ms@,
        2,
        "orderBy"@,
        |x: JsonValue| is_text(x, "date"@),
    ) && member_is(
        ms@,
        3,
        "filters"@,
        |x: JsonValue| is_filters(x, search, start_date, end_date),
    )
}

/// The text of an optional string slice.
pub open spec fn opt_str(o: Option<&str>) -> Option<Seq<char>> {
    match o {
        Some(s) => Some(s@),
        None => None,
    }
}

/// The text of an optional string.
pub open spec fn opt_text(o: Option<String>) -> Option<Seq<char>> {
    match o {
        Some(s) => Some(s@),
        None => None,
    }
}

/// The search variables; one end of a date range alone is refused.
pub fn transaction_variables_from(
    offset: u32,
    limit: u32,
    search: &str,
    start_date: Option<&str>,
    end_date: Option<&str>,
) -> (r: Result<JsonValue, DateRangeError>)
    ensures
        (start_date is Some != end_date is Some) <==> r is Err,
        r matches Ok(v) ==> is_search_variables(v, offset, limit, search@, opt_str(start_date), opt_str(end_date)),
{
    if start_date.is_some() != end_date.is_some() {
        return Err(DateRangeError::UnpairedDate);
    }
    let mut filters: Vec<JsonMember> = vec![
        member("search", JsonValue::string(search)),
        member("categories", JsonValue::Array(Vec::new())),
        member("accounts", JsonValue::Array(Vec::new())),
        member("tags", JsonValue::Array(Vec::new())),
    ];
    match (start_date, end_date) {
        (Some(s), Some(e)) => {
            filters.push(member("startDate", JsonValue::string(s)));
            filters.push(member("endDate", JsonValue::string(e)));
        },
        _ => {},
    }
    let f = JsonValue::Object(filters);
    assert(is_filters(f, search@, opt_str(start_date), opt_str(end_date)));
    Ok(
        JsonValue::Object(
            vec![
                member("offset", JsonValue::Number(decimal_string(offset as u64))),
                member("limit", JsonValue::Number(decimal_string(limit as u64))),
                member("orderBy", JsonValue::string("date")),
                member("filters", f),
            ],
        ),
    )
}

/// The search variables for the arguments of `mon transactions`.
pub fn transaction_variables(args: &TransactionArgs) -> (r: Result<JsonValue, DateRangeError>)
    ensures
        (args.start_date is Some != args.end_date is Some) <==> r is Err,
        r matches Ok(v) ==> is_search_variables(
            v,
            args.offset,
            args.limit,
            args.search@,
            opt_text(args.start_date),
            opt_text(args.end_date),
        ),
{
    let start: Option<&str> = match &args.start_date {
        Some(s) => Some(s.as_str()),
        None => None,
    };
    let end: Option<&str> = match &args.end_date {
        Some(s) => Some(s.as_str()),
        None => None,
    };
    transaction_variables_from(args.offset, args.limit, args.search.as_str(), start, end)
}

} // verus!
