//! Query strings of callback requests: looking up one parameter and decoding it.
//!
//! A query is a series of pairs separated by `&`; a pair is a key, then `=`,
//! then a value. All of the separators are ASCII, so the grammar is stated on
//! the bytes of the UTF-8 text.

use vstd::prelude::*;
use vstd::slice::slice_subrange;
use vstd::utf8::{decode_utf8, encode_utf8, valid_utf8};

verus! {

pub const AMPERSAND: u8 = 0x26;

pub const EQUALS: u8 = 0x3d;

pub const PLUS: u8 = 0x2b;

pub const SPACE: u8 = 0x20;

pub const PERCENT: u8 = 0x25;

pub const QUESTION_MARK: u8 = 0x3f;

/// The value of an ASCII hexadecimal digit, if `b` is one.
pub open spec fn hex_digit(b: u8) -> Option<u8> {
    if 0x30 <= b <= 0x39 {
        Some((b - 0x30) as u8)
    } else if 0x61 <= b <= 0x66 {
        Some((b - 0x61 + 10) as u8)
    } else if 0x41 <= b <= 0x46 {
        Some((b - 0x41 + 10) as u8)
    } else {
        None
    }
}

/// The first position in `from..to` at which `s` holds the byte `b`, or `to`.
pub open spec fn next_byte(s: Seq<u8>, from: int, to: int, b: u8) -> int
    decreases to - from,
{
    if from >= to {
        to
    } else if s[from] == b {
        from
    } else {
        next_byte(s, from + 1, to, b)
    }
}

/// The raw value of the first pair, among those that start at `from` or later,
/// whose key is `key`. A pair without `=` has the empty value.
pub open spec fn lookup(query: Seq<u8>, key: Seq<u8>, from: int) -> Option<Seq<u8>>
    decreases query.len() - from,
{
    if from < 0 || from > query.len() {
        None
    } else {
        let end = next_byte(query, from, query.len() as int, AMPERSAND);
        let eq = next_byte(query, from, end, EQUALS);
        if from <= eq <= end <= query.len() {
            if query.subrange(from, eq) == key {
                Some(
                    if eq < end {
                        query.subrange(eq + 1, end)
                    } else {
                        Seq::empty()
                    },
                )
            } else if end < query.len() {
                lookup(query, key, end + 1)
            } else {
                None
            }
        } else {
            None
        }
    }
}

/// `raw` with every `+` turned into a space.
pub open spec fn plus_to_space(raw: Seq<u8>) -> Seq<u8> {
    raw.map_values(
        |b: u8|
            if b == PLUS {
                SPACE
            } else {
                b
            },
    )
}

/// `raw` from `from` on, with every `%` that two hexadecimal digits follow
/// replaced, together with the digits, by the byte that they denote. Any other
/// byte stands for itself.
pub open spec fn percent_decode(raw: Seq<u8>, from: int) -> Seq<u8>
    decreases raw.len() - from,
{
    if from < 0 || from >= raw.len() {
        Seq::empty()
    } else if raw[from] == PERCENT && from + 2 < raw.len() && hex_digit(raw[from + 1]) is Some
        && hex_digit(raw[from + 2]) is Some {
        seq![(16 * hex_digit(raw[from + 1])->0 + hex_digit(raw[from + 2])->0) as u8]
            + percent_decode(raw, from + 3)
    } else {
        seq![raw[from]] + percent_decode(raw, from + 1)
    }
}

/// The decoded value of the parameter `key` of `query`: the value of the first
/// pair with that key, `+` read as a space and `%XX` as a byte, if the result
/// is UTF-8.
pub open spec fn query_param(query: Seq<u8>, key: Seq<u8>) -> Option<Seq<char>> {
    match lookup(query, key, 0) {
        None => None,
        Some(raw) => {
            let bytes = percent_decode(plus_to_space(raw), 0);
            if valid_utf8(bytes) {
                Some(decode_utf8(bytes))
            } else {
                None
            }
        },
    }
}

/// Calls `String::from_utf8`: the string whose UTF-8 encoding is `bytes`, or
/// nothing where `bytes` is not valid UTF-8.
#[verifier::external_body]
fn string_from_utf8(bytes: Vec<u8>) -> (text: Option<String>)
    ensures
        text is Some <==> valid_utf8(bytes@),
        text matches Some(s) ==> s@ == decode_utf8(bytes@),
{
    String::from_utf8(bytes).ok()
}

/// Decodes one hexadecimal digit, in either case.
pub fn hex_val(b: u8) -> (value: Option<u8>)
    ensures
        value == hex_digit(b),
        value matches Some(v) ==> v < 16,
{
    if b >= 0x30 && b <= 0x39 {
        Some(b - 0x30)
    } else if b >= 0x61 && b <= 0x66 {
        Some(b - 0x61 + 10)
    } else if b >= 0x41 && b <= 0x46 {
        Some(b - 0x41 + 10)
    } else {
        None
    }
}

fn find_byte(s: &[u8], from: usize, to: usize, b: u8) -> (at: usize)
    requires
        from <= to <= s.len(),
    ensures
        at == next_byte(s@, from as int, to as int, b),
        from <= at <= to,
{
    let mut at: usize = from;
    while at < to && s[at] != b
        invariant
            from <= at <= to <= s.len(),
            next_byte(s@, at as int, to as int, b) == next_byte(s@, from as int, to as int, b),
        decreases to - at,
    {
        at += 1;
    }
    at
}

fn range_equals(s: &[u8], from: usize, to: usize, other: &[u8]) -> (same: bool)
    requires
        from <= to <= s.len(),
    ensures
        same == (s@.subrange(from as int, to as int) == other@),
{
    if to - from != other.len() {
        return false;
    }
    let mut i: usize = 0;
    while i < other.len()
        invariant
            from <= to <= s.len(),
            to - from == other.len(),
            i <= other.len(),
            forall|j: int| 0 <= j < i ==> s@[from + j] == other@[j],
        decreases other.len() - i,
    {
        if s[from + i] != other[i] {
            assert(s@.subrange(from as int, to as int)[i as int] != other@[i as int]);
            return false;
        }
        i += 1;
    }
    assert(s@.subrange(from as int, to as int) =~= other@);
    true
}

fn spaced(s: &[u8], from: usize, to: usize) -> (raw: Vec<u8>)
    requires
        from <= to <= s.len(),
    ensures
        raw@ == plus_to_space(s@.subrange(from as int, to as int)),
{
    let mut raw: Vec<u8> = Vec::new();
    let mut i: usize = from;
    while i < to
        invariant
            from <= i <= to <= s.len(),
            raw@.len() == i - from,
            forall|j: int|
                0 <= j < i - from ==> raw@[j] == if s@[from + j] == PLUS {
                    SPACE
                } else {
                    s@[from + j]
                },
        decreases to - i,
    {
        let b = s[i];
        raw.push(
            if b == PLUS {
                SPACE
            } else {
                b
            },
        );
        i += 1;
    }
    assert(raw@ =~= plus_to_space(s@.subrange(from as int, to as int)));
    raw
}

fn decoded(raw: &Vec<u8>) -> (bytes: Vec<u8>)
    ensures
        bytes@ == percent_decode(raw@, 0),
{
    let mut bytes: Vec<u8> = Vec::new();
    let mut i: usize = 0;
    assert(bytes@ + percent_decode(raw@, 0) == percent_decode(raw@, 0));
    while i < raw.len()
        invariant
            i <= raw.len(),
            bytes@ + percent_decode(raw@, i as int) == percent_decode(raw@, 0),
        decreases raw.len() - i,
    {
        let ghost before = bytes@;
        let mut step: usize = 1;
        let mut byte: u8 = raw[i];
        if raw[i] == PERCENT && raw.len() - i > 2 {
            match (hex_val(raw[i + 1]), hex_val(raw[i + 2])) {
                (Some(high), Some(low)) => {
                    assert((high << 4) | low == 16 * high + low) by (bit_vector)
                        requires
                            high < 16,
                            low < 16,
                    ;
                    byte = (high << 4) | low;
                    step = 3;
                },
                _ => {},
            }
        }
        bytes.push(byte);
        assert(before.push(byte) + percent_decode(raw@, i + step) == before + (seq![byte]
            + percent_decode(raw@, i + step)));
        i += step;
    }
    assert(bytes@ + Seq::<u8>::empty() == bytes@);
    bytes
}

fn param_of(q: &[u8], k: &[u8]) -> (value: Option<String>)
    ensures
        match query_param(q@, k@) {
            Some(text) => value matches Some(s) && s@ == text,
            None => value is None,
        },
{
    let mut from: usize = 0;
    loop
        invariant
            from <= q.len(),
            lookup(q@, k@, from as int) == lookup(q@, k@, 0),
        decreases q.len() - from,
    {
        let end = find_byte(q, from, q.len(), AMPERSAND);
        let eq = find_byte(q, from, end, EQUALS);
        if range_equals(q, from, eq, k) {
            let raw = if eq < end {
                spaced(q, eq + 1, end)
            } else {
                let none: Vec<u8> = Vec::new();
                assert(none@ == plus_to_space(Seq::<u8>::empty()));
                none
            };
            return string_from_utf8(decoded(&raw));
        }
        if end == q.len() {
            return None;
        }
        from = end + 1;
    }
}

/// Looks up the parameter `key` in the query string `query` and decodes its
/// value. The first pair with that key decides: later ones are not looked at,
/// even where the value of the first does not decode to text.
pub fn parse_query_param(query: &str, key: &str) -> (value: Option<String>)
    ensures
        match query_param(encode_utf8(query@), encode_utf8(key@)) {
            Some(text) => value matches Some(s) && s@ == text,
            None => value is None,
        },
{
    param_of(query.as_bytes(), key.as_bytes())
}

/// The path of a request target: what stands before the first `?`.
pub open spec fn target_path(target: Seq<u8>) -> Seq<u8> {
    target.subrange(0, next_byte(target, 0, target.len() as int, QUESTION_MARK))
}

/// The query of a request target: what stands after the first `?`, if there is one.
pub open spec fn target_query(target: Seq<u8>) -> Seq<u8> {
    let mark = next_byte(target, 0, target.len() as int, QUESTION_MARK);
    if 0 <= mark < target.len() {
        target.subrange(mark + 1, target.len() as int)
    } else {
        Seq::empty()
    }
}

/// The credential that a callback request hands over: the parameter `token`
/// of a request to `/oauth/callback` whose parameter `nonce` is the expected
/// one. A missing nonce counts as the empty one.
pub open spec fn callback_token_spec(target: Seq<u8>, expected_nonce: Seq<char>) -> Option<
    Seq<char>,
> {
    let query = target_query(target);
    let nonce = match query_param(query, encode_utf8("nonce"@)) {
        Some(text) => text,
        None => Seq::empty(),
    };
    if target_path(target) == encode_utf8("/oauth/callback"@) && nonce == expected_nonce {
        query_param(query, encode_utf8("token"@))
    } else {
        None
    }
}

/// Decides a callback request from its target, the second word of the request
/// line: the credential it carries, if it is addressed to the callback path
/// and answers with the nonce that was handed out.
pub fn callback_token(target: &str, expected_nonce: &str) -> (token: Option<String>)
    ensures
        match callback_token_spec(encode_utf8(target@), expected_nonce@) {
            Some(text) => token matches Some(s) && s@ == text,
            None => token is None,
        },
{
    let t = target.as_bytes();
    let mark = find_byte(t, 0, t.len(), QUESTION_MARK);
    let empty: Vec<u8> = Vec::new();
    let query = if mark < t.len() {
        slice_subrange(t, mark + 1, t.len())
    } else {
        assert(empty@ == Seq::<u8>::empty());
        empty.as_slice()
    };
    if !range_equals(t, 0, mark, "/oauth/callback".as_bytes()) {
        return None;
    }
    let nonce = match param_of(query, "nonce".as_bytes()) {
        Some(text) => text,
        None => String::new(),
    };
    if nonce != expected_nonce.to_owned() {
        return None;
    }
    param_of(query, "token".as_bytes())
}

} // verus!
