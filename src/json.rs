use serde_json::value::RawValue;
use std::collections::BTreeMap;
use vstd::prelude::*;

use crate::errors::{DecodeError, Field};
use crate::text::{all_digits, digits_value, parse_u64, spec_parse_u64};

verus! {

/// The members of a JSON object: each key with the text of its value.
pub type Members = Seq<(Seq<char>, Seq<char>)>;

/// The members of the JSON object written in `text`, each key with the text
/// of its value, or `None` when `text` is not a JSON object.
pub uninterp spec fn json_members(text: Seq<char>) -> Option<Seq<(Seq<char>, Seq<char>)>>;

/// The texts of the elements of the JSON array written in `text`, or `None`
/// when `text` is not a JSON array.
pub uninterp spec fn json_elements(text: Seq<char>) -> Option<Seq<Seq<char>>>;

/// Whether `c` is JSON whitespace.
pub open spec fn is_json_space(c: char) -> bool {
    c == ' ' || c == '\n' || c == '\t' || c == '\r'
}

/// `s` without its leading JSON whitespace.
pub open spec fn trim_start_json(s: Seq<char>) -> Seq<char>
    decreases s.len(),
{
    if s.len() > 0 && is_json_space(s[0]) {
        trim_start_json(s.drop_first())
    } else {
        s
    }
}

/// `s` without its trailing JSON whitespace.
pub open spec fn trim_end_json(s: Seq<char>) -> Seq<char>
    decreases s.len(),
{
    if s.len() > 0 && is_json_space(s.last()) {
        trim_end_json(s.drop_last())
    } else {
        s
    }
}

/// The unsigned integer written in `text` as a JSON number, if it is one:
/// between optional JSON whitespace, `0` or digits without a leading zero,
/// with no sign, fraction or exponent, and a value that fits in a `u64`.
pub open spec fn json_unsigned(text: Seq<char>) -> Option<u64> {
    let d = trim_end_json(trim_start_json(text));
    if d.len() > 0 && all_digits(d) && (d.len() == 1 || d[0] != '0') && digits_value(d)
        <= u64::MAX {
        Some(digits_value(d) as u64)
    } else {
        None
    }
}

/// The characters of the JSON string written in `text`, if it is one.
pub uninterp spec fn json_string(text: Seq<char>) -> Option<Seq<char>>;

pub open spec fn members_view(v: Seq<(String, String)>) -> Seq<(Seq<char>, Seq<char>)> {
    v.map_values(|p: (String, String)| (p.0@, p.1@))
}

pub open spec fn texts_view(v: Seq<String>) -> Seq<Seq<char>> {
    v.map_values(|e: String| e@)
}

/// Relies on serde_json::from_str into a `BTreeMap<String, Box<RawValue>>`:
/// it reads a JSON object and keeps each member's value as its own text.
#[verifier::external_body]
fn parse_members(text: &str) -> (r: Option<Vec<(String, String)>>)
    ensures
        r matches Some(v) ==> json_members(text@) == Some(members_view(v@)),
        r is None ==> json_members(text@) is None,
{
    serde_json::from_str::<BTreeMap<String, Box<RawValue>>>(text).ok().map(
        |m| m.into_iter().map(|(k, v)| (k, v.get().to_string())).collect(),
    )
}

/// Relies on serde_json::from_str into a `Vec<Box<RawValue>>`: it reads a
/// JSON array and keeps each element as its own text.
#[verifier::external_body]
fn parse_elements(text: &str) -> (r: Option<Vec<String>>)
    ensures
        r matches Some(v) ==> json_elements(text@) == Some(texts_view(v@)),
        r is None ==> json_elements(text@) is None,
{
    serde_json::from_str::<Vec<Box<RawValue>>>(text).ok().map(
        |v| v.into_iter().map(|e| e.get().to_string()).collect(),
    )
}

/// Relies on serde_json::from_str into a `u64`: it skips JSON whitespace,
/// reads an integer without a leading zero (a sign, a fraction, an exponent or
/// a value beyond `u64::MAX` makes it fail, as does anything but whitespace
/// after the number).
#[verifier::external_body]
fn parse_unsigned(text: &str) -> (r: Option<u64>)
    ensures
        r == json_unsigned(text@),
{
    serde_json::from_str::<u64>(text).ok()
}

/// Relies on serde_json::from_str into a `String`: it reads a JSON string and
/// resolves its escapes.
#[verifier::external_body]
fn parse_string(text: &str) -> (r: Option<String>)
    ensures
        r matches Some(s) ==> json_string(text@) == Some(s@),
        r is None ==> json_string(text@) is None,
{
    serde_json::from_str::<String>(text).ok()
}

/// The value of the member under `key`. The members that `parse_members`
/// hands over have distinct keys; were a key repeated, its first member
/// would count.
pub open spec fn lookup(members: Seq<(Seq<char>, Seq<char>)>, key: Seq<char>) -> Option<Seq<char>>
    decreases members.len(),
{
    if members.len() == 0 {
        None
    } else if members[0].0 == key {
        Some(members[0].1)
    } else {
        lookup(members.drop_first(), key)
    }
}

/// The members of the object written in `text`.
pub open spec fn spec_object(text: Seq<char>) -> Result<Seq<(Seq<char>, Seq<char>)>, DecodeError> {
    match json_members(text) {
        Some(ms) => Ok(ms),
        None => Err(DecodeError::NotAnObject),
    }
}

/// The text of member `f` among `members`.
pub open spec fn spec_member(members: Seq<(Seq<char>, Seq<char>)>, f: Field) -> Result<
    Seq<char>,
    DecodeError,
> {
    match lookup(members, f.spec_key()) {
        Some(v) => Ok(v),
        None => Err(DecodeError::MissingField(f)),
    }
}

/// The texts of the elements of the array written in `text`.
pub open spec fn spec_array(text: Seq<char>) -> Result<Seq<Seq<char>>, DecodeError> {
    match json_elements(text) {
        Some(es) => Ok(es),
        None => Err(DecodeError::NotAnArray),
    }
}

/// The characters of the string written in `text`.
pub open spec fn spec_text(text: Seq<char>) -> Result<Seq<char>, DecodeError> {
    match json_string(text) {
        Some(s) => Ok(s),
        None => Err(DecodeError::NotAString),
    }
}

/// The code written in `text`: an unsigned JSON integer, or a JSON string
/// that holds one in decimal.
pub open spec fn spec_code(text: Seq<char>) -> Result<u64, DecodeError> {
    match json_unsigned(text) {
        Some(n) => Ok(n),
        None => match json_string(text) {
            Some(s) => match spec_parse_u64(s) {
                Some(n) => Ok(n),
                None => Err(DecodeError::NotANumber),
            },
            None => Err(DecodeError::NotANumber),
        },
    }
}

/// Reads the JSON object written in `text`.
pub fn object(text: &str) -> (r: Result<Vec<(String, String)>, DecodeError>)
    ensures
        r matches Ok(v) ==> spec_object(text@) == Ok::<_, DecodeError>(members_view(v@)),
        r matches Err(e) ==> spec_object(text@) == Err::<Seq<(Seq<char>, Seq<char>)>, _>(e),
{
    match parse_members(text) {
        Some(v) => Ok(v),
        None => Err(DecodeError::NotAnObject),
    }
}

/// Finds member `f` among the members of an object.
pub fn member(members: &Vec<(String, String)>, f: Field) -> (r: Result<String, DecodeError>)
    ensures
        r matches Ok(v) ==> spec_member(members_view(members@), f) == Ok::<_, DecodeError>(v@),
        r matches Err(e) ==> spec_member(members_view(members@), f) == Err::<Seq<char>, _>(e),
{
    let key = String::from_str(f.key());
    let ghost all = members_view(members@);
    let mut i: usize = 0;
    assert(all.subrange(0, all.len() as int) == all);
    while i < members.len()
        invariant
            i <= members@.len(),
            all == members_view(members@),
            key@ == f.spec_key(),
            lookup(all, key@) == lookup(all.subrange(i as int, all.len() as int), key@),
        decreases members@.len() - i,
    {
        assert(all.subrange(i as int, all.len() as int).drop_first() == all.subrange(
            i + 1,
            all.len() as int,
        ));
        assert(all[i as int] == (members@[i as int].0@, members@[i as int].1@));
        if members[i].0 == key {
            return Ok(members[i].1.clone());
        }
        i = i + 1;
    }
    Err(DecodeError::MissingField(f))
}

/// Reads the JSON array written in `text`.
pub fn array(text: &str) -> (r: Result<Vec<String>, DecodeError>)
    ensures
        r matches Ok(v) ==> spec_array(text@) == Ok::<_, DecodeError>(texts_view(v@)),
        r matches Err(e) ==> spec_array(text@) == Err::<Seq<Seq<char>>, _>(e),
{
    match parse_elements(text) {
        Some(v) => Ok(v),
        None => Err(DecodeError::NotAnArray),
    }
}

/// Reads the JSON string written in `text`.
pub fn text_of(text: &str) -> (r: Result<String, DecodeError>)
    ensures
        r matches Ok(v) ==> spec_text(text@) == Ok::<_, DecodeError>(v@),
        r matches Err(e) ==> spec_text(text@) == Err::<Seq<char>, _>(e),
{
    match parse_string(text) {
        Some(s) => Ok(s),
        None => Err(DecodeError::NotAString),
    }
}

/// Reads a code: an unsigned JSON integer or a string that holds one.
pub fn code_of(text: &str) -> (r: Result<u64, DecodeError>)
    ensures
        r == spec_code(text@),
{
    match parse_unsigned(text) {
        Some(n) => Ok(n),
        None => match parse_string(text) {
            Some(s) => match parse_u64(s.as_str()) {
                Some(n) => Ok(n),
                None => Err(DecodeError::NotANumber),
            },
            None => Err(DecodeError::NotANumber),
        },
    }
}

} // verus!
