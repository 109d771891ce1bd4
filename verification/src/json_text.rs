//! JSON text: string literals as `serde_json` writes them, and the compact
//! text of a whole value.
use vstd::prelude::*;
use vstd::string::*;
use crate::json::{JsonValue, JsonMember};
use crate::text::push_char;

verus! {

/// The lower-case hexadecimal digit of `n` (below 16).
pub open spec fn hex_digit(n: u32) -> char {
    if n < 10 {
        ((48 + n) as u8) as char
    } else {
        ((87 + n) as u8) as char
    }
}

/// How `serde_json` writes one character inside a string: `"` and `\` after
/// a backslash, the short escapes `\b \t \n \f \r`, any other character
/// below U+0020 as `\u00` and two lower-case hexadecimal digits, and any
/// other character as itself.
pub open spec fn json_char(c: char) -> Seq<char> {
    let u = c as u32;
    if c == '"' {
        seq!['\\', '"']
    } else if c == '\\' {
        seq!['\\', '\\']
    } else if u == 8 {
        seq!['\\', 'b']
    } else if u == 9 {
        seq!['\\', 't']
    } else if u == 10 {
        seq!['\\', 'n']
    } else if u == 12 {
        seq!['\\', 'f']
    } else if u == 13 {
        seq!['\\', 'r']
    } else if u < 0x20 {
        seq!['\\', 'u', '0', '0', hex_digit(u / 16), hex_digit(u % 16)]
    } else {
        seq![c]
    }
}

/// The characters of a JSON string literal's body for `s`.
pub open spec fn json_escaped(s: Seq<char>) -> Seq<char>
    decreases s.len(),
{
    if s.len() == 0 {
        Seq::empty()
    } else {
        json_char(s[0]) + json_escaped(s.drop_first())
    }
}

/// What `serde_json::to_string` gives for a string: the JSON string literal.
pub open spec fn json_quoted(s: Seq<char>) -> Seq<char> {
    seq!['"'] + json_escaped(s) + seq!['"']
}

/// `serde_json::to_string(s)` for a string, which cannot fail for one: the
/// text in double quotes, escaped as `json_char` states.
#[verifier::external_body]
pub(crate) fn json_string_literal(s: &str) -> (r: String)
    ensures
        r@ == json_quoted(s@),
{
    match serde_json::to_string(s) {
        Ok(t) => t,
        Err(_) => String::new(),
    }
}

/// The compact JSON text of a value: no white space, members and elements
/// separated by commas, keys and strings as `json_quoted` writes them, and
/// numbers by their text.
pub open spec fn json_text(v: JsonValue) -> Seq<char>
    decreases v,
{
    match v {
        JsonValue::Null => "null"@,
        JsonValue::Bool(b) => if b {
            "true"@
        } else {
            "false"@
        },
        JsonValue::Number(t) => t@,
        JsonValue::Str(s) => json_quoted(s@),
        JsonValue::Array(xs) => "["@ + items_text(xs@) + "]"@,
        JsonValue::Object(ms) => "{"@ + members_text(ms@) + "}"@,
    }
}

/// The elements of an array, separated by commas.
pub open spec fn items_text(xs: Seq<JsonValue>) -> Seq<char>
    decreases xs,
{
    if xs.len() == 0 {
        Seq::empty()
    } else if xs.len() == 1 {
        json_text(xs[0])
    } else {
        items_text(xs.drop_last()) + ","@ + json_text(xs.last())
    }
}

/// The members of an object, `"key":value`, separated by commas.
pub open spec fn members_text(ms: Seq<JsonMember>) -> Seq<char>
    decreases ms,
{
    if ms.len() == 0 {
        Seq::empty()
    } else if ms.len() == 1 {
        member_text(ms[0])
    } else {
        members_text(ms.drop_last()) + ","@ + member_text(ms.last())
    }
}

pub open spec fn member_text(m: JsonMember) -> Seq<char>
    decreases m,
{
    json_quoted(m.key@) + ":"@ + json_text(m.value)
}

/// The compact JSON text of a value.
pub fn json_text_of(v: &JsonValue) -> (r: String)
    ensures
        r@ == json_text(*v),
    decreases v,
{
    match v {
        JsonValue::Null => "null".to_owned(),
        JsonValue::Bool(b) => if *b {
            "true".to_owned()
        } else {
            "false".to_owned()
        },
        JsonValue::Number(t) => t.clone(),
        JsonValue::Str(s) => json_string_literal(s.as_str()),
        JsonValue::Array(xs) => {
            let mut r = String::new();
            r.append("[");
            let mut i: usize = 0;
            while i < xs.len()
                invariant
                    *v == JsonValue::Array(*xs),
                    i <= xs@.len(),
                    r@ == "["@ + items_text(xs@.take(i as int)),
                decreases xs@.len() - i,
            {
                if i > 0 {
                    r.append(",");
                }
                proof {
                    assert(decreases_to!(*v => (*v)->Array_0));
                    assert((*v)->Array_0 == *xs);
                    assert(decreases_to!(*xs => xs@));
                    assert(decreases_to!(xs@ => xs@[i as int]));
                }
                let t = json_text_of(&xs[i]);
                r.append(t.as_str());
                assert(xs@.take(i + 1).drop_last() =~= xs@.take(i as int));
                assert(xs@.take(i + 1).last() == xs@[i as int]);
                i = i + 1;
            }
            assert(xs@.take(i as int) =~= xs@);
            r.append("]");
            r
        },
        JsonValue::Object(ms) => {
            let mut r = String::new();
            r.append("{");
            let mut i: usize = 0;
            while i < ms.len()
                invariant
                    *v == JsonValue::Object(*ms),
                    i <= ms@.len(),
                    r@ == "{"@ + members_text(ms@.take(i as int)),
                decreases ms@.len() - i,
            {
                if i > 0 {
                    r.append(",");
                }
                proof {
                    assert(decreases_to!(*v => (*v)->Object_0));
                    assert((*v)->Object_0 == *ms);
                    assert(decreases_to!(*ms => ms@));
                    assert(decreases_to!(ms@ => ms@[i as int]));
                    assert(decreases_to!(ms@[i as int] => ms@[i as int].value));
                }
                let ghost before = r@;
                let k = json_string_literal(ms[i].key.as_str());
                r.append(k.as_str());
                r.append(":");
                let t = json_text_of(&ms[i].value);
                r.append(t.as_str());
                assert(member_text(ms@[i as int]) == k@ + ":"@ + t@);
                assert(r@ =~= before + (k@ + ":"@ + t@));
                assert(ms@.take(i + 1).drop_last() =~= ms@.take(i as int));
                assert(ms@.take(i + 1).last() == ms@[i as int]);
                i = i + 1;
            }
            assert(ms@.take(i as int) =~= ms@);
            r.append("}");
            r
        },
    }
}

} // verus!
