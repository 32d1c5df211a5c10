//! What the login flows have from other crates: constant-time comparison, the clock, URL
//! queries, base64 and JSON values. Each call stands behind one function here.

use base64::Engine;
use subtle::ConstantTimeEq;
use vstd::prelude::*;
use vstd::utf8::encode_utf8;

use crate::text::lemma_utf8_is_injective;

verus! {

/// The last second that chrono's calendar can name: the end of the year 262142.
pub const LAST_SECOND: i64 = 8_210_266_876_799;

/// A value that the system clock can show, in seconds since 1970.
pub open spec fn clock_reading(now: i64) -> bool {
    0 <= now <= LAST_SECOND
}

/// `ConstantTimeEq::ct_eq` of subtle on byte slices, with `Choice::unwrap_u8`: one where the
/// slices are equal, zero where they are not. How long it takes is not stated.
#[verifier::external_body]
fn constant_time_eq(a: &[u8], b: &[u8]) -> (r: u8)
    ensures
        r == (if a@ == b@ {
            1u8
        } else {
            0u8
        }),
{
    a.ct_eq(b).unwrap_u8()
}

/// `Utc::now` of chrono, with `DateTime::timestamp`: whole seconds since 1970 by the system
/// clock. It is never negative and stays in chrono's calendar; nothing relates two calls.
/// chrono panics where the system clock stands before 1970.
#[verifier::external_body]
pub(crate) fn utc_now() -> (now: i64)
    ensures
        clock_reading(now),
{
    chrono::Utc::now().timestamp()
}

/// The pairs of a URL's query in their order, or why the text is no URL.
pub uninterp spec fn url_query(url: Seq<char>) -> Result<Seq<(Seq<char>, Seq<char>)>, Seq<char>>;

/// The texts of a list of pairs.
pub open spec fn pair_texts(pairs: Seq<(String, String)>) -> Seq<(Seq<char>, Seq<char>)> {
    Seq::new(pairs.len(), |i: int| (pairs[i].0@, pairs[i].1@))
}

/// `Url::parse` and `Url::query_pairs` of url: the decoded key and value pairs of the query
/// of an absolute URL, or the message of the parse error. Both depend on the text alone;
/// which texts parse, and to what, is not stated.
#[verifier::external_body]
pub(crate) fn query_pairs(url: &str) -> (r: Result<Vec<(String, String)>, String>)
    ensures
        match r {
            Ok(pairs) => url_query(url@) == Ok::<Seq<(Seq<char>, Seq<char>)>, Seq<char>>(
                pair_texts(pairs@),
            ),
            Err(e) => url_query(url@) == Err::<Seq<(Seq<char>, Seq<char>)>, Seq<char>>(e@),
        },
{
    match url::Url::parse(url) {
        Ok(parsed) => Ok(parsed.query_pairs().into_owned().collect()),
        Err(e) => Err(e.to_string()),
    }
}

/// The URL-safe base64 of `bytes`, without padding.
pub uninterp spec fn base64url(bytes: Seq<u8>) -> Seq<char>;

/// Whether the base64 of `bytes` is short enough to be held in memory: four characters for
/// every three bytes, and up to three for the rest.
pub open spec fn fits_base64url(bytes: Seq<u8>) -> bool {
    bytes.len() / 3 * 4 + 3 <= isize::MAX
}

/// `Engine::encode` of base64 with `URL_SAFE_NO_PAD`: the encoding depends on the bytes
/// alone, and no other bytes have it. Which characters it holds is not stated. It panics
/// where the encoding would be longer than any allocation.
#[verifier::external_body]
pub(crate) fn encode_base64url(bytes: &[u8]) -> (r: String)
    requires
        fits_base64url(bytes@),
    ensures
        r@ == base64url(bytes@),
        forall|other: Seq<u8>| #[trigger] base64url(other) == r@ ==> other == bytes@,
{
    base64::engine::general_purpose::URL_SAFE_NO_PAD.encode(bytes)
}

/// A JSON value.
#[verifier::external_type_specification]
#[verifier::external_body]
pub struct ExJsonValue(serde_json::Value);

/// The strings that a JSON value holds, by the object keys that lead to them: a string holds
/// itself at the empty path, an object what its members hold, with the member's key in front.
/// Arrays are not entered.
pub uninterp spec fn json_strings(v: serde_json::Value) -> Map<Seq<Seq<char>>, Seq<char>>;

/// The booleans that a JSON value holds, by the object keys that lead to them, as
/// [`json_strings`] has the strings.
pub uninterp spec fn json_bools(v: serde_json::Value) -> Map<Seq<Seq<char>>, bool>;

/// What `held` has below `key`, by the rest of the path.
pub open spec fn held_under<V>(held: Map<Seq<Seq<char>>, V>, key: Seq<char>) -> Map<
    Seq<Seq<char>>,
    V,
> {
    Map::new(
        |path: Seq<Seq<char>>| held.dom().contains(seq![key] + path),
        |path: Seq<Seq<char>>| held[seq![key] + path],
    )
}

/// The string that `v` holds at `path`, where it holds one.
pub open spec fn json_string_at(v: serde_json::Value, path: Seq<Seq<char>>) -> Option<Seq<char>> {
    if json_strings(v).dom().contains(path) {
        Some(json_strings(v)[path])
    } else {
        None
    }
}

/// `Value::get` of serde_json with a string key: the member of an object under that key;
/// nothing for another key or for a value that is no object.
#[verifier::external_body]
fn json_member<'a>(v: &'a serde_json::Value, key: &str) -> (r: Option<&'a serde_json::Value>)
    ensures
        match r {
            Some(member) => {
                &&& json_strings(*member) == held_under(json_strings(*v), key@)
                &&& json_bools(*member) == held_under(json_bools(*v), key@)
            },
            None => {
                &&& held_under(json_strings(*v), key@) == Map::<Seq<Seq<char>>, Seq<char>>::empty()
                &&& held_under(json_bools(*v), key@) == Map::<Seq<Seq<char>>, bool>::empty()
            },
        },
{
    v.get(key)
}

/// `Value::as_str` of serde_json: the text of a JSON string, nothing for any other value.
#[verifier::external_body]
fn json_text<'a>(v: &'a serde_json::Value) -> (r: Option<&'a str>)
    ensures
        match r {
            Some(text) => json_strings(*v).dom().contains(Seq::empty())
                && json_strings(*v)[Seq::empty()] == text@,
            None => !json_strings(*v).dom().contains(Seq::empty()),
        },
{
    v.as_str()
}

/// `Value::as_bool` of serde_json: the value of a JSON boolean, nothing for any other value.
#[verifier::external_body]
fn json_bool(v: &serde_json::Value) -> (r: Option<bool>)
    ensures
        match r {
            Some(b) => json_bools(*v).dom().contains(Seq::empty()) && json_bools(*v)[Seq::empty()]
                == b,
            None => !json_bools(*v).dom().contains(Seq::empty()),
        },
{
    v.as_bool()
}

/// `i128::unsigned_abs` of std: the absolute value.
pub assume_specification[ i128::unsigned_abs ](x: i128) -> (r: u128)
    ensures
        r == (if x >= 0 {
            x as int
        } else {
            -(x as int)
        }),
;

/// Whether two texts are equal, compared in constant time.
pub fn same_secret(a: &str, b: &str) -> (r: bool)
    ensures
        r == (a@ == b@),
{
    let equal: u8 = constant_time_eq(a.as_bytes(), b.as_bytes());
    proof {
        if encode_utf8(a@) == encode_utf8(b@) {
            lemma_utf8_is_injective(a@, b@);
        }
    }
    equal == 1
}

/// The string member of `v` under `key`.
pub fn string_member<'a>(v: &'a serde_json::Value, key: &str) -> (r: Option<&'a str>)
    ensures
        match r {
            Some(text) => json_string_at(*v, seq![key@]) == Some(text@),
            None => json_string_at(*v, seq![key@]) is None,
        },
{
    assert(seq![key@] + Seq::<Seq<char>>::empty() =~= seq![key@]);
    match json_member(v, key) {
        Some(member) => {
            json_text(member)
        },
        None => {
            assert(!held_under(json_strings(*v), key@).dom().contains(Seq::empty()));
            None
        },
    }
}

/// The boolean member of `v` under `key`.
pub fn bool_member(v: &serde_json::Value, key: &str) -> (r: Option<bool>)
    ensures
        match r {
            Some(b) => json_bools(*v).dom().contains(seq![key@]) && json_bools(*v)[seq![key@]] == b,
            None => !json_bools(*v).dom().contains(seq![key@]),
        },
{
    assert(seq![key@] + Seq::<Seq<char>>::empty() =~= seq![key@]);
    match json_member(v, key) {
        Some(member) => json_bool(member),
        None => {
            assert(!held_under(json_bools(*v), key@).dom().contains(Seq::empty()));
            None
        },
    }
}

/// The string member under `inner` of the member of `v` under `outer`.
pub fn nested_string_member<'a>(v: &'a serde_json::Value, outer: &str, inner: &str) -> (r: Option<
    &'a str,
>)
    ensures
        match r {
            Some(text) => json_string_at(*v, seq![outer@, inner@]) == Some(text@),
            None => json_string_at(*v, seq![outer@, inner@]) is None,
        },
{
    assert(seq![outer@] + seq![inner@] =~= seq![outer@, inner@]);
    match json_member(v, outer) {
        Some(member) => {
            string_member(member, inner)
        },
        None => {
            assert(!held_under(json_strings(*v), outer@).dom().contains(seq![inner@]));
            None
        },
    }
}

} // verus!
