//! A JSON document as plain values, and the tolerant number decoding the
//! pool's answers need.

use vstd::prelude::*;

verus! {

/// A parsed JSON value. Numbers keep the two integer readings serde_json
/// offers: as an unsigned and as a signed 64-bit integer (both absent for a
/// float or an integer out of range).
#[derive(Debug, PartialEq)]
pub enum Json {
    Null,
    Bool(bool),
    Number(Option<u64>, Option<i64>),
    Str(String),
    Array(Vec<Json>),
    Object(Vec<(String, Json)>),
}

/// What serde_json makes of a byte string: the document, or none where the
/// bytes are not one JSON text.
pub uninterp spec fn json_of(b: Seq<u8>) -> Option<Json>;

/// serde_json's document tree, carried only from the parser to the
/// conversion below.
#[verifier::external_type_specification]
#[verifier::external_body]
pub struct ExValue(serde_json::Value);

/// Relies on serde_json::Value's variants: rebuilds the same tree as a Json.
#[verifier::external_body]
fn json_from_value(v: serde_json::Value) -> Json {
    match v {
        serde_json::Value::Null => Json::Null,
        serde_json::Value::Bool(b) => Json::Bool(b),
        serde_json::Value::Number(n) => Json::Number(n.as_u64(), n.as_i64()),
        serde_json::Value::String(s) => Json::Str(s),
        serde_json::Value::Array(a) => Json::Array(a.into_iter().map(json_from_value).collect()),
        serde_json::Value::Object(m) => Json::Object(
            m.into_iter().map(|(k, v)| (k, json_from_value(v))).collect(),
        ),
    }
}

/// Relies on serde_json::from_slice: parses the bytes as one JSON text; the
/// result depends on the bytes alone.
#[verifier::external_body]
pub(crate) fn parse_json(b: &[u8]) -> (r: Option<Json>)
    ensures
        r == json_of(b@),
{
    serde_json::from_slice::<serde_json::Value>(b).ok().map(json_from_value)
}

/// The entry for `key` in an object's entries: the first one with that key.
pub open spec fn entry_of(entries: Seq<(String, Json)>, key: Seq<char>) -> Option<Json>
    decreases entries.len(),
{
    if entries.len() == 0 {
        None
    } else if entries[0].0@ == key {
        Some(entries[0].1)
    } else {
        entry_of(entries.drop_first(), key)
    }
}

/// The member `key` of a JSON object; none for a missing member or a value
/// that is not an object.
pub open spec fn member_of(j: Json, key: Seq<char>) -> Option<Json> {
    match j {
        Json::Object(entries) => entry_of(entries@, key),
        _ => None,
    }
}

impl Json {
    /// The member `key` of this value, when it is an object holding one.
    pub fn member(&self, key: &str) -> (r: Option<&Json>)
        ensures
            match r {
                Some(v) => member_of(*self, key@) == Some(*v),
                None => member_of(*self, key@) is None,
            },
    {
        match self {
            Json::Object(entries) => {
                let mut i: usize = 0;
                assert(entries@.subrange(0, entries@.len() as int) =~= entries@);
                while i < entries.len()
                    invariant
                        0 <= i <= entries@.len(),
                        *self == Json::Object(*entries),
                        entry_of(entries@, key@) == entry_of(entries@.subrange(i as int, entries@.len() as int), key@),
                    decreases entries.len() - i,
                {
                    assert(entries@.subrange(i as int, entries@.len() as int).drop_first()
                        =~= entries@.subrange(i + 1, entries@.len() as int));
                    assert(entries@.subrange(i as int, entries@.len() as int)[0] == entries@[i as int]);
                    if str_equal(entries[i].0.as_str(), key) {
                        return Some(&entries[i].1);
                    }
                    i = i + 1;
                }
                None
            },
            _ => None,
        }
    }
}

/// Whether two strings hold the same characters.
pub fn str_equal(a: &str, b: &str) -> (r: bool)
    ensures
        r == (a@ == b@),
{
    let x = String::from_str(a);
    let y = String::from_str(b);
    x == y
}

/// Whether `c` is one of the ASCII digits.
pub open spec fn is_digit(c: char) -> bool {
    '0' <= c <= '9'
}

/// The value of a string of digits read in base ten.
pub open spec fn digits_value(d: Seq<char>) -> int
    decreases d.len(),
{
    if d.len() == 0 {
        0
    } else {
        digits_value(d.drop_last()) * 10 + (d.last() as int - '0' as int)
    }
}

/// The unsigned 64-bit integer a string of decimal digits denotes: one ASCII
/// digit or more and nothing else, no sign, with a value that fits.
pub open spec fn decimal_of(d: Seq<char>) -> Option<u64> {
    if d.len() > 0 && (forall|i: int| 0 <= i < d.len() ==> is_digit(#[trigger] d[i]))
        && digits_value(d) <= u64::MAX {
        Some(digits_value(d) as u64)
    } else {
        None
    }
}

proof fn lemma_digits_value_grows(d: Seq<char>, k: int, j: int)
    requires
        0 <= k <= j <= d.len(),
        forall|i: int| 0 <= i < d.len() ==> is_digit(#[trigger] d[i]),
    ensures
        digits_value(d.subrange(0, k)) <= digits_value(d.subrange(0, j)),
    decreases j - k,
{
    if k < j {
        lemma_digits_value_grows(d, k, j - 1);
        assert(d.subrange(0, j).drop_last() =~= d.subrange(0, j - 1));
        assert(digits_value(d.subrange(0, j - 1)) >= 0) by {
            lemma_digits_value_nonneg(d.subrange(0, j - 1));
        }
    }
}

proof fn lemma_digits_value_nonneg(d: Seq<char>)
    requires
        forall|i: int| 0 <= i < d.len() ==> is_digit(#[trigger] d[i]),
    ensures
        digits_value(d) >= 0,
    decreases d.len(),
{
    if d.len() > 0 {
        lemma_digits_value_nonneg(d.drop_last());
    }
}

/// Reads a string of decimal digits as an unsigned 64-bit integer: digits
/// only, at least one, with a value that fits.
pub fn parse_decimal(s: &str) -> (r: Option<u64>)
    ensures
        r == decimal_of(s@),
{
    if !s.is_ascii() {
        proof {
            let k = choose|k: int| 0 <= k < s@.len() && !('\0' <= #[trigger] s@[k] <= '\u{7f}');
            assert(!is_digit(s@[k]));
        }
        return None;
    }
    let b = s.as_bytes();
    proof {
        vstd::utf8::is_ascii_chars_encode_utf8(s@);
    }
    let n = b.len();
    if n == 0 {
        return None;
    }
    let ghost d = s@;
    let mut i: usize = 0;
    let mut acc: u64 = 0;
    while i < n
        invariant
            i <= n,
            n == s@.len(),
            b@.len() == n,
            d == s@,
            forall|k: int| 0 <= k < n ==> #[trigger] s@[k] as u8 == b@[k],
            forall|k: int| 0 <= k < n ==> '\0' <= #[trigger] s@[k] <= '\u{7f}',
            forall|k: int| 0 <= k < i ==> is_digit(#[trigger] d[k]),
            acc as int == digits_value(d.subrange(0, i as int)),
        decreases n - i,
    {
        let c = b[i];
        assert(c == s@[i as int] as u8);
        if c < 48u8 || c > 57u8 {
            assert(!is_digit(d[i as int]));
            return None;
        }
        let dig = (c - 48u8) as u64;
        assert(d.subrange(0, i + 1).drop_last() =~= d.subrange(0, i as int));
        assert(dig as int == d[i as int] as int - '0' as int);
        if acc > (u64::MAX - dig) / 10 {
            proof {
                assert(digits_value(d.subrange(0, i + 1)) > u64::MAX) by (nonlinear_arith)
                    requires
                        digits_value(d.subrange(0, i + 1)) == acc * 10 + dig,
                        acc > (u64::MAX - dig) / 10,
                        dig <= 9,
                    ;
                if forall|k: int| 0 <= k < d.len() ==> is_digit(#[trigger] d[k]) {
                    lemma_digits_value_grows(d, i + 1, d.len() as int);
                    assert(d.subrange(0, d.len() as int) =~= d);
                }
            }
            return None;
        }
        acc = acc * 10 + dig;
        i = i + 1;
    }
    assert(d.subrange(0, d.len() as int) =~= d);
    Some(acc)
}

} // verus!
