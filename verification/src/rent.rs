//! The AppFolio rent export: transactions found by a search, flattened to
//! the fields a rent ledger keeps.
use vstd::prelude::*;
use crate::json::{JsonValue, field, text_value, bool_value, as_bool};
use crate::output::{str_at, spec_str_at, path_value, merchant_of};
use crate::text::{chars_of, parse_u64, parse_u64_chars, sub_chars, all_digits, digits_value};
use crate::text::has_suffix;
use crate::timestamp::{timestamp_text, utc_rfc3339_text, LAST_FOUR_DIGIT_SECOND};

verus! {

/// One exported transaction. The amount is kept as the text of the JSON
/// number.
#[derive(Debug, Clone)]
pub struct RentTransaction {
    pub id: String,
    pub date: String,
    pub amount: Option<String>,
    pub merchant: String,
    pub account: String,
    pub category: String,
    pub notes: String,
    pub pending: bool,
}

#[derive(Debug, Clone)]
pub struct RentExport {
    pub source: String,
    pub search: String,
    pub start_date: Option<String>,
    pub end_date: Option<String>,
    pub exported_at: String,
    pub total_count: i64,
    pub matched_count: usize,
    pub transactions: Vec<RentTransaction>,
}

/// What `as_i64` reads from a number: decimal digits, optionally negative,
/// within 64 bits.
pub open spec fn i64_value(v: Option<JsonValue>) -> Option<i64> {
    match v {
        Some(JsonValue::Number(t)) => if t@.len() > 0 && t@[0] == '-' {
            let d = t@.skip(1);
            if d.len() > 0 && all_digits(d) && digits_value(d) <= 0x8000_0000_0000_0000 {
                Some((-(digits_value(d) as int)) as i64)
            } else {
                None
            }
        } else if t@.len() > 0 && t@[0] == '+' {
            None
        } else {
            match parse_u64(t@) {
                Some(n) => if n <= 0x7fff_ffff_ffff_ffff {
                    Some(n as i64)
                } else {
                    None
                },
                None => None,
            }
        },
        _ => None,
    }
}

fn as_i64(v: Option<&JsonValue>) -> (r: Option<i64>)
    ensures
        r == i64_value(
            match v {
                Some(x) => Some(*x),
                None => None,
            },
        ),
{
    match v {
        Some(JsonValue::Number(t)) => {
            let cs = chars_of(t.as_str());
            if cs.len() > 0 && cs[0] == '-' {
                let d = sub_chars(&cs, 1, cs.len());
                assert(d@ =~= t@.skip(1));
                if d.len() == 0 {
                    return None;
                }
                match parse_u64_chars(&d) {
                    Some(n) => {
                        if d[0] == '+' {
                            assert(!all_digits(d@)) by {
                                assert(!('0' <= d@[0] <= '9'));
                            }
                            return None;
                        }
                        assert(d@ =~= d@);
                        if n <= 0x8000_0000_0000_0000 {
                            if n == 0x8000_0000_0000_0000 {
                                Some(i64::MIN)
                            } else {
                                Some(-(n as i64))
                            }
                        } else {
                            None
                        }
                    },
                    None => {
                        proof {
                            if d@.len() > 0 && all_digits(d@) && digits_value(d@) <= 0x8000_0000_0000_0000 {
                                assert(d@[0] != '+');
                            }
                        }
                        None
                    },
                }
            } else if cs.len() > 0 && cs[0] == '+' {
                None
            } else {
                match parse_u64_chars(&cs) {
                    Some(n) => if n <= 0x7fff_ffff_ffff_ffff {
                        Some(n as i64)
                    } else {
                        None
                    },
                    None => None,
                }
            }
        },
        _ => None,
    }
}

/// A number's text, when the value is a number.
pub open spec fn number_text(v: Option<JsonValue>) -> Option<String> {
    match v {
        Some(JsonValue::Number(t)) => Some(t),
        _ => None,
    }
}

/// The rent record of one transaction of a search result.
pub open spec fn rent_transaction_agrees(v: JsonValue, t: RentTransaction) -> bool {
    &&& t.id@ == spec_str_at(v, seq!["id"@])
    &&& t.date@ == spec_str_at(v, seq!["date"@])
    &&& t.amount == number_text(field(v, "amount"@))
    &&& t.merchant@ == if spec_str_at(v, seq!["merchant"@, "name"@]).len() == 0 {
        spec_str_at(v, seq!["plaidName"@])
    } else {
        spec_str_at(v, seq!["merchant"@, "name"@])
    }
    &&& t.account@ == spec_str_at(v, seq!["account"@, "displayName"@])
    &&& t.category@ == spec_str_at(v, seq!["category"@, "name"@])
    &&& t.notes@ == spec_str_at(v, seq!["notes"@])
    &&& t.pending == (bool_value(field(v, "pending"@)) == Some(true))
}

/// The text of a string value, or nothing.
pub open spec fn text_or_empty(v: Option<JsonValue>) -> Seq<char> {
    match v {
        Some(JsonValue::Str(s)) => s@,
        _ => Seq::empty(),
    }
}

/// The member `key` of the member `outer` of a value.
pub open spec fn inner_field(v: JsonValue, outer: Seq<char>, key: Seq<char>) -> Option<JsonValue> {
    match field(v, outer) {
        Some(o) => field(o, key),
        None => None,
    }
}

/// A rent record copies its result: the id, date and notes strings; the
/// account's `displayName`; the category's `name`; the merchant's `name`,
/// or the Plaid name when that is empty or absent; the amount exactly when
/// it is a number; `pending` only when it is `true`. A field that is absent
/// or not a string gives the empty text.
pub proof fn lemma_rent_record_fields(v: JsonValue, t: RentTransaction)
    requires
        rent_transaction_agrees(v, t),
    ensures
        t.id@ == text_or_empty(field(v, "id"@)),
        t.date@ == text_or_empty(field(v, "date"@)),
        t.notes@ == text_or_empty(field(v, "notes"@)),
        t.account@ == text_or_empty(inner_field(v, "account"@, "displayName"@)),
        t.category@ == text_or_empty(inner_field(v, "category"@, "name"@)),
        t.merchant@ == if text_or_empty(inner_field(v, "merchant"@, "name"@)).len() == 0 {
            text_or_empty(field(v, "plaidName"@))
        } else {
            text_or_empty(inner_field(v, "merchant"@, "name"@))
        },
        match field(v, "amount"@) {
            Some(JsonValue::Number(n)) => t.amount == Some(n),
            _ => t.amount is None,
        },
        t.pending <==> field(v, "pending"@) == Some(JsonValue::Bool(true)),
{
    reveal_with_fuel(path_value, 3);
    assert(seq!["id"@].drop_first() =~= Seq::<Seq<char>>::empty());
    assert(seq!["date"@].drop_first() =~= Seq::<Seq<char>>::empty());
    assert(seq!["notes"@].drop_first() =~= Seq::<Seq<char>>::empty());
    assert(seq!["plaidName"@].drop_first() =~= Seq::<Seq<char>>::empty());
    assert(seq!["account"@, "displayName"@].drop_first() =~= seq!["displayName"@]);
    assert(seq!["category"@, "name"@].drop_first() =~= seq!["name"@]);
    assert(seq!["merchant"@, "name"@].drop_first() =~= seq!["name"@]);
    assert(seq!["displayName"@].drop_first() =~= Seq::<Seq<char>>::empty());
    assert(seq!["name"@].drop_first() =~= Seq::<Seq<char>>::empty());
}

pub fn rent_transaction(value: &JsonValue) -> (r: RentTransaction)
    ensures
        rent_transaction_agrees(*value, r),
{
    let p_id = ["id"];
    let p_date = ["date"];
    let p_account = ["account", "displayName"];
    let p_category = ["category", "name"];
    let p_notes = ["notes"];
    assert(p_id@.map_values(|s: &str| s@) =~= seq!["id"@]);
    assert(p_date@.map_values(|s: &str| s@) =~= seq!["date"@]);
    assert(p_account@.map_values(|s: &str| s@) =~= seq!["account"@, "displayName"@]);
    assert(p_category@.map_values(|s: &str| s@) =~= seq!["category"@, "name"@]);
    assert(p_notes@.map_values(|s: &str| s@) =~= seq!["notes"@]);
    RentTransaction {
        id: str_at(value, &p_id),
        date: str_at(value, &p_date),
        amount: match value.get("amount") {
            Some(JsonValue::Number(t)) => Some(t.clone()),
            _ => None,
        },
        merchant: merchant_of(value),
        account: str_at(value, &p_account),
        category: str_at(value, &p_category),
        notes: str_at(value, &p_notes),
        pending: match as_bool(value.get("pending")) {
            Some(b) => b,
            None => false,
        },
    }
}

/// The `totalCount` of a `GetTransactionsList` data object, 0 when absent.
pub open spec fn spec_total_count(data: JsonValue) -> i64 {
    match i64_value(
        match field(data, "allTransactions"@) {
            Some(a) => field(a, "totalCount"@),
            None => None,
        },
    ) {
        Some(n) => n,
        None => 0,
    }
}

pub fn total_count(data: &JsonValue) -> (r: i64)
    ensures
        r == spec_total_count(*data),
{
    let total = match data.get("allTransactions") {
        Some(a) => as_i64(a.get("totalCount")),
        None => None,
    };
    match total {
        Some(n) => n,
        None => 0,
    }
}

/// The export of a `GetTransactionsList` data object, stamped `exported_at`:
/// every result as a rent record, their count, and the reported total (0
/// when absent).
pub open spec fn export_agrees(
    data: JsonValue,
    search: Seq<char>,
    start_date: Option<String>,
    end_date: Option<String>,
    exported_at: String,
    r: RentExport,
) -> bool {
    &&& r.source@ == "monarch"@
    &&& r.search@ == search
    &&& r.start_date == start_date
    &&& r.end_date == end_date
    &&& r.exported_at == exported_at
    &&& r.total_count == spec_total_count(data)
    &&& r.matched_count == r.transactions@.len()
    &&& match field(data, "allTransactions"@) {
        Some(a) => match field(a, "results"@) {
            Some(JsonValue::Array(xs)) => r.transactions@.len() == xs@.len() && forall|i: int|
                0 <= i < xs@.len() ==> rent_transaction_agrees(xs@[i], #[trigger] r.transactions@[i]),
            _ => r.transactions@.len() == 0,
        },
        None => r.transactions@.len() == 0,
    }
}

/// The export of a `GetTransactionsList` data object, stamped with the
/// moment `secs` seconds and `nanos` nanoseconds after the Unix epoch (the
/// caller reads the clock); `None` when that moment cannot be written.
pub fn export_at(
    data: &JsonValue,
    search: &str,
    start_date: Option<String>,
    end_date: Option<String>,
    secs: i64,
    nanos: u32,
) -> (r: Option<RentExport>)
    ensures
        r matches Some(x) ==> export_agrees(*data, search@, start_date, end_date, x.exported_at, x)
            && x.exported_at@ == utc_rfc3339_text(secs, nanos) && has_suffix(x.exported_at@, "+00:00"@),
        0 <= secs <= LAST_FOUR_DIGIT_SECOND && nanos < 1_000_000_000 ==> r is Some,
{
    match timestamp_text(secs, nanos) {
        Some(exported_at) => Some(build_export(data, search, start_date, end_date, exported_at)),
        None => None,
    }
}

/// The export of a `GetTransactionsList` data object, stamped `exported_at`.
pub fn build_export(
    data: &JsonValue,
    search: &str,
    start_date: Option<String>,
    end_date: Option<String>,
    exported_at: String,
) -> (r: RentExport)
    ensures
        export_agrees(*data, search@, start_date, end_date, exported_at, r),
{
    let all = data.get("allTransactions");
    let total_count = total_count(data);
    let mut transactions: Vec<RentTransaction> = Vec::new();
    match all {
        Some(a) => match a.get("results") {
            Some(JsonValue::Array(xs)) => {
                let mut i: usize = 0;
                while i < xs.len()
                    invariant
                        i <= xs@.len(),
                        transactions@.len() == i,
                        forall|j: int|
                            0 <= j < i ==> rent_transaction_agrees(xs@[j], #[trigger] transactions@[j]),
                    decreases xs@.len() - i,
                {
                    transactions.push(rent_transaction(&xs[i]));
                    i = i + 1;
                }
            },
            _ => {},
        },
        None => {},
    }
    let matched_count = transactions.len();
    RentExport {
        source: "monarch".to_owned(),
        search: search.to_owned(),
        start_date,
        end_date,
        exported_at,
        total_count,
        matched_count,
        transactions,
    }
}

} // verus!
