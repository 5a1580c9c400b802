//! Dynamic JSON access for venue wire frames.
//!
//! Venues change field names and send partial updates, so frames are not
//! read against a fixed schema: each member is extracted by key from the
//! frame text, named as a function of text and keys alone, and every
//! decision taken on the extracted values lives in verified code.

use vstd::prelude::*;
use crate::decimal::{Decimal, DecView, rd_from_str, rd_parse, vnum};

verus! {

/// Parses an optional numeric string; anything absent or unparseable
/// becomes zero, which downstream suppresses emission.
pub fn parse_dec_or_zero(s: &Option<String>) -> (r: Decimal)
    ensures
        r.wf(),
        r@ == zero_dec_of(opt_text_view(*s)),
{
    match s {
        Some(t) => match rd_from_str(t.as_str()) {
            Some(d) => d,
            None => Decimal::zero(),
        },
        None => Decimal::zero(),
    }
}

/// Parses a numeric string to a positive value: `None` when the text is
/// absent, does not parse, or denotes a value that is not strictly
/// positive.
pub fn parse_dec_positive(s: &Option<String>) -> (r: Option<Decimal>)
    ensures
        r matches Some(d) ==> d.wf() && vnum(d@) > 0 && pos_dec_of(opt_text_view(*s)) == Some(d@),
        r is None ==> pos_dec_of(opt_text_view(*s)) is None,
{
    match s {
        Some(t) => match rd_from_str(t.as_str()) {
            Some(d) => {
                if d.is_positive() {
                    Some(d)
                } else {
                    None
                }
            },
            None => None,
        },
        None => None,
    }
}

/// Whether a piece of text parses as JSON at all.
pub uninterp spec fn json_wellformed(text: Seq<char>) -> bool;

/// The string member under one key of the text's JSON object.
pub uninterp spec fn json_field1_of(text: Seq<char>, key: Seq<char>) -> Option<Seq<char>>;

/// The string member under a key of the object under a key of the
/// text's JSON object.
pub uninterp spec fn json_field2_of(text: Seq<char>, k1: Seq<char>, k2: Seq<char>) -> Option<
    Seq<char>,
>;

/// The integer member under one key of the text's JSON object.
pub uninterp spec fn json_i64_of(text: Seq<char>, key: Seq<char>) -> Option<int>;

/// How many elements the array under a key of the text's JSON object
/// holds, `None` when there is no array there.
pub uninterp spec fn json_arr_len_of(text: Seq<char>, key: Seq<char>) -> Option<int>;

/// The string member under a key of one element of the array under a
/// key of the text's JSON object.
pub uninterp spec fn json_arr_field_of(
    text: Seq<char>,
    k1: Seq<char>,
    idx: int,
    k2: Seq<char>,
) -> Option<Seq<char>>;

/// The string member under a key of one element of the array found two
/// keys deep in the text's JSON object.
pub uninterp spec fn json_nested_arr_field_of(
    text: Seq<char>,
    k1: Seq<char>,
    k2: Seq<char>,
    idx: int,
    k3: Seq<char>,
) -> Option<Seq<char>>;

/// Relies on serde_json's `from_str`: whether the text is JSON.
#[verifier::external_body]
pub(crate) fn json_text_wellformed(text: &str) -> (r: bool)
    ensures
        r == json_wellformed(text@),
{
    serde_json::from_str::<serde_json::Value>(text).is_ok()
}

/// Relies on serde_json's parse, `Value::get` and `Value::as_str`: the
/// string member under `key`, a function of the text and key alone.
#[verifier::external_body]
pub(crate) fn json_text_field(text: &str, key: &str) -> (r: Option<String>)
    ensures
        r matches Some(s) ==> json_field1_of(text@, key@) == Some(s@),
        r is None ==> json_field1_of(text@, key@) is None,
{
    match serde_json::from_str::<serde_json::Value>(text) {
        Ok(v) => v.get(key).and_then(|m| m.as_str()).map(|s| s.to_owned()),
        Err(_) => None,
    }
}

/// Relies on the same serde_json calls, one object level deeper.
#[verifier::external_body]
pub(crate) fn json_text_field2(text: &str, k1: &str, k2: &str) -> (r: Option<String>)
    ensures
        r matches Some(s) ==> json_field2_of(text@, k1@, k2@) == Some(s@),
        r is None ==> json_field2_of(text@, k1@, k2@) is None,
{
    match serde_json::from_str::<serde_json::Value>(text) {
        Ok(v) => v.get(k1).and_then(|m| m.get(k2)).and_then(|m| m.as_str()).map(|s| s.to_owned()),
        Err(_) => None,
    }
}

/// Relies on serde_json's parse, `Value::get` and `Value::as_i64`: the
/// integer member under `key`.
#[verifier::external_body]
pub(crate) fn json_text_i64(text: &str, key: &str) -> (r: Option<i64>)
    ensures
        r matches Some(c) ==> json_i64_of(text@, key@) == Some(c as int),
        r is None ==> json_i64_of(text@, key@) is None,
{
    match serde_json::from_str::<serde_json::Value>(text) {
        Ok(v) => v.get(key).and_then(|m| m.as_i64()),
        Err(_) => None,
    }
}

/// Relies on serde_json's parse, `Value::get` and `Value::as_array`: the
/// length of the array under `key`.
#[verifier::external_body]
pub(crate) fn json_text_arr_len(text: &str, key: &str) -> (r: Option<usize>)
    ensures
        r matches Some(n) ==> json_arr_len_of(text@, key@) == Some(n as int),
        r is None ==> json_arr_len_of(text@, key@) is None,
{
    match serde_json::from_str::<serde_json::Value>(text) {
        Ok(v) => v.get(key).and_then(|m| m.as_array()).map(|a| a.len()),
        Err(_) => None,
    }
}

/// Relies on the same serde_json calls: the string member under `k2` of
/// element `idx` of the array under `k1`.
#[verifier::external_body]
pub(crate) fn json_text_arr_field(text: &str, k1: &str, idx: usize, k2: &str) -> (r: Option<String>)
    ensures
        r matches Some(s) ==> json_arr_field_of(text@, k1@, idx as int, k2@) == Some(s@),
        r is None ==> json_arr_field_of(text@, k1@, idx as int, k2@) is None,
{
    match serde_json::from_str::<serde_json::Value>(text) {
        Ok(v) => v.get(k1).and_then(|m| m.as_array()).and_then(|a| a.get(idx)).and_then(
            |m| m.get(k2),
        ).and_then(|m| m.as_str()).map(|s| s.to_owned()),
        Err(_) => None,
    }
}

/// Relies on the same serde_json calls, with the array two keys deep.
#[verifier::external_body]
pub(crate) fn json_text_nested_arr_field(
    text: &str,
    k1: &str,
    k2: &str,
    idx: usize,
    k3: &str,
) -> (r: Option<String>)
    ensures
        r matches Some(s) ==> json_nested_arr_field_of(text@, k1@, k2@, idx as int, k3@) == Some(
            s@,
        ),
        r is None ==> json_nested_arr_field_of(text@, k1@, k2@, idx as int, k3@) is None,
{
    match serde_json::from_str::<serde_json::Value>(text) {
        Ok(v) => v.get(k1).and_then(|m| m.get(k2)).and_then(|m| m.as_array()).and_then(
            |a| a.get(idx),
        ).and_then(|m| m.get(k3)).and_then(|m| m.as_str()).map(|s| s.to_owned()),
        Err(_) => None,
    }
}

/// How many elements the array under `k3` of element `i1` of the array
/// two keys deep holds.
pub uninterp spec fn json_deep_arr_len_of(
    text: Seq<char>,
    k1: Seq<char>,
    k2: Seq<char>,
    i1: int,
    k3: Seq<char>,
) -> Option<int>;

/// The string member under `k4` of element `i2` of that array.
pub uninterp spec fn json_deep_arr_field_of(
    text: Seq<char>,
    k1: Seq<char>,
    k2: Seq<char>,
    i1: int,
    k3: Seq<char>,
    i2: int,
    k4: Seq<char>,
) -> Option<Seq<char>>;

/// Relies on the same serde_json calls: the length of the inner array.
#[verifier::external_body]
pub(crate) fn json_text_deep_arr_len(
    text: &str,
    k1: &str,
    k2: &str,
    i1: usize,
    k3: &str,
) -> (r: Option<usize>)
    ensures
        r matches Some(n) ==> json_deep_arr_len_of(text@, k1@, k2@, i1 as int, k3@) == Some(
            n as int,
        ),
        r is None ==> json_deep_arr_len_of(text@, k1@, k2@, i1 as int, k3@) is None,
{
    match serde_json::from_str::<serde_json::Value>(text) {
        Ok(v) => v.get(k1).and_then(|m| m.get(k2)).and_then(|m| m.as_array()).and_then(
            |a| a.get(i1),
        ).and_then(|m| m.get(k3)).and_then(|m| m.as_array()).map(|a| a.len()),
        Err(_) => None,
    }
}

/// Relies on the same serde_json calls: a string member of one element
/// of the inner array.
#[verifier::external_body]
pub(crate) fn json_text_deep_arr_field(
    text: &str,
    k1: &str,
    k2: &str,
    i1: usize,
    k3: &str,
    i2: usize,
    k4: &str,
) -> (r: Option<String>)
    ensures
        r matches Some(s) ==> json_deep_arr_field_of(
            text@,
            k1@,
            k2@,
            i1 as int,
            k3@,
            i2 as int,
            k4@,
        ) == Some(s@),
        r is None ==> json_deep_arr_field_of(text@, k1@, k2@, i1 as int, k3@, i2 as int, k4@)
            is None,
{
    match serde_json::from_str::<serde_json::Value>(text) {
        Ok(v) => v.get(k1).and_then(|m| m.get(k2)).and_then(|m| m.as_array()).and_then(
            |a| a.get(i1),
        ).and_then(|m| m.get(k3)).and_then(|m| m.as_array()).and_then(|a| a.get(i2)).and_then(
            |m| m.get(k4),
        ).and_then(|m| m.as_str()).map(|s| s.to_owned()),
        Err(_) => None,
    }
}

/// The view of an optional piece of text.
pub open spec fn opt_text_view(s: Option<String>) -> Option<Seq<char>> {
    match s {
        Some(t) => Some(t@),
        None => None,
    }
}

/// The decimal an optional numeric text denotes: zero when the text is
/// absent or does not parse.
pub open spec fn zero_dec_of(s: Option<Seq<char>>) -> DecView {
    match s {
        Some(t) => match rd_parse(t) {
            Some(d) => d,
            None => DecView { m: 0, s: 0 },
        },
        None => DecView { m: 0, s: 0 },
    }
}

/// The strictly positive decimal an optional numeric text denotes, if
/// any.
pub open spec fn pos_dec_of(s: Option<Seq<char>>) -> Option<DecView> {
    match s {
        Some(t) => match rd_parse(t) {
            Some(d) => if vnum(d) > 0 {
                Some(d)
            } else {
                None
            },
            None => None,
        },
        None => None,
    }
}

} // verus!
