//! The pieces of mon's human-readable output: values picked out of a
//! response, truncated and padded table cells, and the status reports.
use vstd::prelude::*;
use vstd::string::*;
use crate::json::{JsonValue, JsonMember, member, field, text_value};
use crate::queries::{member_is, is_count};
use crate::text::{chars_of, sub_chars, string_of, push_char};

verus! {

/// The value reached from `v` by following the object keys of `path`.
pub open spec fn path_value(v: JsonValue, path: Seq<Seq<char>>) -> Option<JsonValue>
    decreases path.len(),
{
    if path.len() == 0 {
        Some(v)
    } else {
        match field(v, path[0]) {
            Some(x) => path_value(x, path.drop_first()),
            None => None,
        }
    }
}

/// The string at `path`, or the empty string when there is none.
pub open spec fn spec_str_at(v: JsonValue, path: Seq<Seq<char>>) -> Seq<char> {
    match text_value(path_value(v, path)) {
        Some(t) => t,
        None => Seq::empty(),
    }
}

/// The string that `value[path[0]][path[1]]...` holds, or `""`.
pub fn str_at(value: &JsonValue, path: &[&str]) -> (r: String)
    ensures
        r@ == spec_str_at(*value, path@.map_values(|s: &str| s@)),
{
    let ghost keys = path@.map_values(|s: &str| s@);
    let mut current: Option<&JsonValue> = Some(value);
    let mut i: usize = 0;
    assert(keys.skip(0) =~= keys);
    while i < path.len()
        invariant
            i <= path@.len(),
            keys == path@.map_values(|s: &str| s@),
            match current {
                Some(c) => path_value(*value, keys) == path_value(*c, keys.skip(i as int)),
                None => path_value(*value, keys) is None,
            },
        decreases path@.len() - i,
    {
        assert(keys.skip(i as int)[0] == path@[i as int]@);
        assert(keys.skip(i as int).drop_first() =~= keys.skip(i + 1));
        current = match current {
            Some(c) => c.get(path[i]),
            None => None,
        };
        i = i + 1;
    }
    match current {
        Some(JsonValue::Str(s)) => s.clone(),
        _ => String::new(),
    }
}

/// A table cell of at most `width` characters: longer text keeps its first
/// `width - 3` characters (none when `width < 3`) followed by `...`.
pub open spec fn spec_truncate(s: Seq<char>, width: nat) -> Seq<char> {
    if s.len() <= width {
        s
    } else {
        let keep = if width >= 3 {
            (width - 3) as int
        } else {
            0
        };
        s.take(keep) + "..."@
    }
}

/// A truncated cell fits its column: text that fits is kept as it is, and
/// longer text is cut to exactly the width (at least the three dots).
pub proof fn lemma_truncate_fits(s: Seq<char>, width: nat)
    ensures
        s.len() <= width ==> spec_truncate(s, width) == s,
        s.len() > width ==> spec_truncate(s, width).len() == if width >= 3 {
            width
        } else {
            3
        },
        s.len() > width ==> spec_truncate(s, width).take(spec_truncate(s, width).len() - 3)
            == s.take(spec_truncate(s, width).len() - 3),
{
    reveal_strlit("...");
}

pub fn truncate(value: &str, width: usize) -> (r: String)
    ensures
        r@ == spec_truncate(value@, width as nat),
{
    let cs = chars_of(value);
    if cs.len() <= width {
        return value.to_owned();
    }
    let keep: usize = if width >= 3 {
        width - 3
    } else {
        0
    };
    let head = sub_chars(&cs, 0, keep);
    let mut r = string_of(&head);
    r.append("...");
    r
}

/// The primary text, or the fallback when the primary is empty.
pub fn first_nonempty(primary: String, fallback: String) -> (r: String)
    ensures
        r == if primary@.len() == 0 {
            fallback
        } else {
            primary
        },
{
    let cs = chars_of(primary.as_str());
    if cs.len() == 0 {
        fallback
    } else {
        primary
    }
}

/// `n` spaces.
pub open spec fn spaces(n: nat) -> Seq<char> {
    Seq::new(n, |i: int| ' ')
}

/// Left-aligned in a cell of `width` characters (`{:<width}`).
pub open spec fn spec_pad_right(s: Seq<char>, width: nat) -> Seq<char> {
    if s.len() >= width {
        s
    } else {
        s + spaces((width - s.len()) as nat)
    }
}

/// Right-aligned in a cell of `width` characters (`{:>width}`).
pub open spec fn spec_pad_left(s: Seq<char>, width: nat) -> Seq<char> {
    if s.len() >= width {
        s
    } else {
        spaces((width - s.len()) as nat) + s
    }
}

fn space_run(n: usize) -> (r: String)
    ensures
        r@ == spaces(n as nat),
{
    let mut r = String::new();
    let mut i: usize = 0;
    while i < n
        invariant
            i <= n,
            r@ == spaces(i as nat),
        decreases n - i,
    {
        push_char(&mut r, ' ');
        i = i + 1;
        assert(r@ =~= spaces(i as nat));
    }
    r
}

pub fn pad_right(value: &str, width: usize) -> (r: String)
    ensures
        r@ == spec_pad_right(value@, width as nat),
{
    let n = chars_of(value).len();
    let mut r = value.to_owned();
    if n < width {
        let pad = space_run(width - n);
        r.append(pad.as_str());
    }
    r
}

pub fn pad_left(value: &str, width: usize) -> (r: String)
    ensures
        r@ == spec_pad_left(value@, width as nat),
{
    let n = chars_of(value).len();
    if n < width {
        let mut r = space_run(width - n);
        r.append(value);
        r
    } else {
        value.to_owned()
    }
}

/// The header of the accounts table.
pub open spec fn accounts_header() -> Seq<char> {
    spec_pad_right("name"@, 28) + " "@ + spec_pad_left("balance"@, 14) + " "@ + spec_pad_right(
        "type"@,
        18,
    ) + " institution"@
}

/// One row of the accounts table: name (28, truncated), balance (14,
/// right-aligned), type (18, truncated), institution.
pub open spec fn account_row_text(name: Seq<char>, balance: Seq<char>, kind: Seq<char>, institution: Seq<char>) -> Seq<char> {
    spec_pad_right(spec_truncate(name, 28), 28) + " "@ + spec_pad_left(balance, 14) + " "@
        + spec_pad_right(spec_truncate(kind, 18), 18) + " "@ + institution
}

pub fn accounts_header_line() -> (r: String)
    ensures
        r@ == accounts_header(),
{
    let mut r = pad_right("name", 28);
    r.append(" ");
    let b = pad_left("balance", 14);
    r.append(b.as_str());
    r.append(" ");
    let t = pad_right("type", 18);
    r.append(t.as_str());
    r.append(" institution");
    r
}

/// One accounts table row; `balance` is the formatted amount or `-`.
pub fn account_row(name: &str, balance: &str, kind: &str, institution: &str) -> (r: String)
    ensures
        r@ == account_row_text(name@, balance@, kind@, institution@),
{
    let n = truncate(name, 28);
    let mut r = pad_right(n.as_str(), 28);
    r.append(" ");
    let b = pad_left(balance, 14);
    r.append(b.as_str());
    r.append(" ");
    let k = truncate(kind, 18);
    let kp = pad_right(k.as_str(), 18);
    r.append(kp.as_str());
    r.append(" ");
    r.append(institution);
    r
}

/// The header of the transactions table.
pub open spec fn transactions_header() -> Seq<char> {
    spec_pad_right("date"@, 12) + " "@ + spec_pad_left("amount"@, 12) + " "@ + spec_pad_right(
        "merchant"@,
        28,
    ) + " "@ + spec_pad_right("account"@, 22) + " category"@
}

/// One row of the transactions table: date (12), amount (12,
/// right-aligned), merchant (28), account (22), category; the text cells
/// truncated to their widths.
pub open spec fn transaction_row_text(
    date: Seq<char>,
    amount: Seq<char>,
    merchant: Seq<char>,
    account: Seq<char>,
    category: Seq<char>,
) -> Seq<char> {
    spec_pad_right(spec_truncate(date, 12), 12) + " "@ + spec_pad_left(amount, 12) + " "@
        + spec_pad_right(spec_truncate(merchant, 28), 28) + " "@ + spec_pad_right(
        spec_truncate(account, 22),
        22,
    ) + " "@ + category
}

pub fn transactions_header_line() -> (r: String)
    ensures
        r@ == transactions_header(),
{
    let mut r = pad_right("date", 12);
    r.append(" ");
    let a = pad_left("amount", 12);
    r.append(a.as_str());
    r.append(" ");
    let m = pad_right("merchant", 28);
    r.append(m.as_str());
    r.append(" ");
    let c = pad_right("account", 22);
    r.append(c.as_str());
    r.append(" category");
    r
}

/// One transactions table row; `amount` is the formatted amount or `-`.
pub fn transaction_row(date: &str, amount: &str, merchant: &str, account: &str, category: &str) -> (r: String)
    ensures
        r@ == transaction_row_text(date@, amount@, merchant@, account@, category@),
{
    let d = truncate(date, 12);
    let mut r = pad_right(d.as_str(), 12);
    r.append(" ");
    let a = pad_left(amount, 12);
    r.append(a.as_str());
    r.append(" ");
    let m = truncate(merchant, 28);
    let mp = pad_right(m.as_str(), 28);
    r.append(mp.as_str());
    r.append(" ");
    let c = truncate(account, 22);
    let cp = pad_right(c.as_str(), 22);
    r.append(cp.as_str());
    r.append(" ");
    r.append(category);
    r
}

/// The merchant of a transaction: its merchant's name, or else its Plaid
/// name.
pub fn merchant_of(tx: &JsonValue) -> (r: String)
    ensures
        r@ == if spec_str_at(*tx, seq!["merchant"@, "name"@]).len() == 0 {
            spec_str_at(*tx, seq!["plaidName"@])
        } else {
            spec_str_at(*tx, seq!["merchant"@, "name"@])
        },
{
    let p = ["merchant", "name"];
    let primary = str_at(tx, &p);
    assert(p@.map_values(|s: &str| s@) =~= seq!["merchant"@, "name"@]);
    let f = ["plaidName"];
    let fallback = str_at(tx, &f);
    assert(f@.map_values(|s: &str| s@) =~= seq!["plaidName"@]);
    first_nonempty(primary, fallback)
}

/// The `auth status --json` report of a live browser session.
pub fn auth_status_report(tab_id: u64, browser_id: Option<&str>, subscription: JsonValue) -> (r: JsonValue)
    ensures
        r matches JsonValue::Object(ms) && ms@.len() == 4 && member_is(
            ms@,
            0,
            "online"@,
            |x: JsonValue| x == JsonValue::Bool(true),
        ) && member_is(ms@, 1, "tabId"@, |x: JsonValue| is_count(x, tab_id as nat)) && ms@[2].key@
            == "browserId"@ && match browser_id {
            Some(b) => ms@[2].value matches JsonValue::Str(t) && t@ == b@,
            None => ms@[2].value is Null,
        } && ms@[3].key@ == "subscription"@ && ms@[3].value == subscription,
{
    JsonValue::Object(
        vec![
            member("online", JsonValue::Bool(true)),
            member("tabId", JsonValue::Number(crate::text::decimal_string(tab_id))),
            member(
                "browserId",
                match browser_id {
                    Some(b) => JsonValue::string(b),
                    None => JsonValue::Null,
                },
            ),
            member("subscription", subscription),
        ],
    )
}

/// The `doctor --json` report: bro and Monarch reachable, with the tab,
/// the browser and the subscription.
pub fn doctor_report(tab_id: u64, browser_id: Option<&str>, subscription: JsonValue) -> (r: JsonValue)
    ensures
        r matches JsonValue::Object(ms) && ms@.len() == 5 && member_is(
            ms@,
            0,
            "broConnected"@,
            |x: JsonValue| x == JsonValue::Bool(true),
        ) && member_is(ms@, 1, "tabId"@, |x: JsonValue| is_count(x, tab_id as nat)) && ms@[2].key@
            == "browserId"@ && match browser_id {
            Some(b) => ms@[2].value matches JsonValue::Str(t) && t@ == b@,
            None => ms@[2].value is Null,
        } && member_is(ms@, 3, "monarchConnected"@, |x: JsonValue| x == JsonValue::Bool(true))
            && ms@[4].key@ == "subscription"@ && ms@[4].value == subscription,
{
    JsonValue::Object(
        vec![
            member("broConnected", JsonValue::Bool(true)),
            member("tabId", JsonValue::Number(crate::text::decimal_string(tab_id))),
            member(
                "browserId",
                match browser_id {
                    Some(b) => JsonValue::string(b),
                    None => JsonValue::Null,
                },
            ),
            member("monarchConnected", JsonValue::Bool(true)),
            member("subscription", subscription),
        ],
    )
}

} // verus!
