//! Reading the JSON answers of the web services the bot asks.
//!
//! A value inside a document is found by a JSON pointer (RFC 6901), as
//! `serde_json::Value::pointer` reads it: `/items/0/snippet/title` steps
//! into the key `items` of an object, then the element `0` of an array.

use vstd::prelude::*;
use vstd::string::*;
use crate::errors::Error;

verus! {

/// What `serde_json::from_str::<Value>(body)`, then `Value::pointer(pointer)`
/// and `Value::as_str` give: `None` when the body is not JSON; `Some(None)`
/// when nothing is at the pointer, or it is not a string; else the string.
pub uninterp spec fn json_string_at(body: Seq<char>, pointer: Seq<char>) -> Option<Option<Seq<char>>>;

/// What `serde_json::from_str::<Value>(body)`, then `Value::pointer(pointer)`
/// and `Value::to_string` give: `None` when the body is not JSON;
/// `Some(None)` when nothing is at the pointer; else the value written as
/// compact JSON.
pub uninterp spec fn json_text_at(body: Seq<char>, pointer: Seq<char>) -> Option<Option<Seq<char>>>;

/// What `serde_json::from_str::<Value>(body)`, then `Value::pointer(pointer)`
/// and `Value::as_object` give, entry by entry in the order of serde_json's
/// map: each key, with the string under `field` in the entry's value (`None`
/// where there is none, or it is not a string). `None` when the body is not
/// JSON; no entries when nothing is at the pointer or it is not an object.
pub uninterp spec fn json_entries_at(body: Seq<char>, pointer: Seq<char>, field: Seq<char>) -> Option<
    Seq<(Seq<char>, Option<Seq<char>>)>,
>;

/// The view of an optional string.
pub open spec fn opt_view(s: Option<String>) -> Option<Seq<char>> {
    match s {
        Some(x) => Some(x@),
        None => None,
    }
}

/// The view of a key with an optional string.
pub open spec fn entry_view(e: (String, Option<String>)) -> (Seq<char>, Option<Seq<char>>) {
    (e.0@, opt_view(e.1))
}

/// Parses `body` with `serde_json::from_str::<Value>` and reads the string
/// at `pointer` with `Value::pointer` and `Value::as_str`. Trusted: the
/// result is the one named by `json_string_at`; an error, carrying the text
/// of `serde_json::Error`, exactly when the body is not JSON.
#[verifier::external_body]
pub(crate) fn json_string(body: &str, pointer: &str) -> (r: Result<Option<String>, String>)
    ensures
        r is Err <==> json_string_at(body@, pointer@) is None,
        r matches Ok(s) ==> json_string_at(body@, pointer@) == Some(opt_view(s)),
{
    match serde_json::from_str::<serde_json::Value>(body) {
        Err(e) => Err(e.to_string()),
        Ok(v) => match v.pointer(pointer) {
            None => Ok(None),
            Some(x) => Ok(x.as_str().map(String::from)),
        },
    }
}

/// Parses `body` with `serde_json::from_str::<Value>` and writes the value
/// at `pointer` (`Value::pointer`) as JSON with `Value::to_string`. Trusted:
/// the result is the one named by `json_text_at`; an error, carrying the
/// text of `serde_json::Error`, exactly when the body is not JSON.
#[verifier::external_body]
pub(crate) fn json_text(body: &str, pointer: &str) -> (r: Result<Option<String>, String>)
    ensures
        r is Err <==> json_text_at(body@, pointer@) is None,
        r matches Ok(s) ==> json_text_at(body@, pointer@) == Some(opt_view(s)),
{
    match serde_json::from_str::<serde_json::Value>(body) {
        Err(e) => Err(e.to_string()),
        Ok(v) => Ok(v.pointer(pointer).map(|x| x.to_string())),
    }
}

/// Parses `body` with `serde_json::from_str::<Value>`, takes the object at
/// `pointer` (`Value::pointer`, `Value::as_object`) and hands out its
/// entries in the map's order, each key with the string under `field`
/// (`Value::get`, `Value::as_str`). Trusted: the result is the one named by
/// `json_entries_at`; an error, carrying the text of `serde_json::Error`,
/// exactly when the body is not JSON.
#[verifier::external_body]
pub(crate) fn json_entries(body: &str, pointer: &str, field: &str) -> (r: Result<Vec<(String, Option<String>)>, String>)
    ensures
        r is Err <==> json_entries_at(body@, pointer@, field@) is None,
        r matches Ok(v) ==> json_entries_at(body@, pointer@, field@) == Some(v@.map_values(|e: (String, Option<String>)| entry_view(e))),
{
    match serde_json::from_str::<serde_json::Value>(body) {
        Err(e) => Err(e.to_string()),
        Ok(v) => match v.pointer(pointer).and_then(serde_json::Value::as_object) {
            None => Ok(Vec::new()),
            Some(map) => Ok(map.iter().map(|(k, c)| (k.clone(), c.get(field).and_then(serde_json::Value::as_str).map(String::from))).collect()),
        },
    }
}

/// What `serde_json::from_str::<Value>(body)`, then indexing the value with
/// `[key][index][group][field]` (`Index`, which gives `null` where nothing
/// is) and `serde_json::from_value::<String>` give: `None` when the body is
/// not JSON; `Some(Err(text))`, the text of `serde_json::Error`, when the
/// value found is not a string; else the string.
pub uninterp spec fn item_string_at(
    body: Seq<char>,
    key: Seq<char>,
    index: nat,
    group: Seq<char>,
    field: Seq<char>,
) -> Option<Result<Seq<char>, Seq<char>>>;

/// The view of a string or an error text.
pub open spec fn result_view(r: Result<String, String>) -> Result<Seq<char>, Seq<char>> {
    match r {
        Ok(s) => Ok(s@),
        Err(e) => Err(e@),
    }
}

/// Parses `body` with `serde_json::from_str::<Value>`, indexes the value
/// with `[key][index][group][field]` and reads the string there with
/// `serde_json::from_value::<String>`. Trusted: the result is the one named
/// by `item_string_at`; an outer error, carrying the text of
/// `serde_json::Error`, exactly when the body is not JSON.
#[verifier::external_body]
pub(crate) fn json_item_string(body: &str, key: &str, index: usize, group: &str, field: &str) -> (r: Result<
    Result<String, String>,
    String,
>)
    ensures
        r is Err <==> item_string_at(body@, key@, index as nat, group@, field@) is None,
        r matches Ok(x) ==> item_string_at(body@, key@, index as nat, group@, field@) == Some(result_view(x)),
{
    match serde_json::from_str::<serde_json::Value>(body) {
        Err(e) => Err(e.to_string()),
        Ok(json) => Ok(serde_json::from_value::<String>(json[key][index][group][field].clone()).map_err(|e| e.to_string())),
    }
}

/// The strings at `[key][index][group][field]` for each `(group, field)`
/// of `paths`, in order; or why the first that cannot be read fails:
/// `Err(None)` when the body is not JSON, `Err(Some(text))` with the text of
/// serde_json's error when the value there is not a string.
pub open spec fn item_strings_at(
    body: Seq<char>,
    key: Seq<char>,
    index: nat,
    paths: Seq<(Seq<char>, Seq<char>)>,
) -> Result<Seq<Seq<char>>, Option<Seq<char>>>
    decreases paths.len(),
{
    if paths.len() == 0 {
        Ok(Seq::empty())
    } else {
        match item_string_at(body, key, index, paths[0].0, paths[0].1) {
            None => Err(None),
            Some(Err(t)) => Err(Some(t)),
            Some(Ok(s)) => match item_strings_at(body, key, index, paths.drop_first()) {
                Ok(rest) => Ok(seq![s] + rest),
                Err(e) => Err(e),
            },
        }
    }
}

/// Each path that `item_strings_at` reads gives one string.
pub proof fn lemma_item_strings_at_len(body: Seq<char>, key: Seq<char>, index: nat, paths: Seq<(Seq<char>, Seq<char>)>)
    ensures
        item_strings_at(body, key, index, paths) matches Ok(s) ==> s.len() == paths.len(),
    decreases paths.len(),
{
    if paths.len() > 0 {
        lemma_item_strings_at_len(body, key, index, paths.drop_first());
    }
}

/// The strings at `[key][index][group][field]` for each `(group, field)` of
/// `paths`, in order. A body that is not JSON, or a value that is not a
/// string (the first such), gives `Error::Json`, with serde_json's text for
/// the latter.
pub fn json_item_strings(body: &str, key: &str, index: usize, paths: &Vec<(&str, &str)>) -> (r: Result<
    Vec<String>,
    Error,
>)
    ensures
        match item_strings_at(body@, key@, index as nat, paths@.map_values(|p: (&str, &str)| (p.0@, p.1@))) {
            Ok(s) => r matches Ok(v) && v@.map_values(|x: String| x@) == s,
            Err(None) => r matches Err(Error::Json(_)),
            Err(Some(t)) => r matches Err(Error::Json(x)) && x@ == t,
        },
{
    let ghost ps = paths@.map_values(|p: (&str, &str)| (p.0@, p.1@));
    let mut out: Vec<String> = Vec::new();
    let mut i: usize = 0;
    proof {
        assert(ps.skip(0) =~= ps);
        assert(out@.map_values(|x: String| x@) =~= Seq::<Seq<char>>::empty());
        match item_strings_at(body@, key@, index as nat, ps) {
            Ok(rest) => assert(Seq::<Seq<char>>::empty() + rest =~= rest),
            Err(e) => {},
        }
    }
    while i < paths.len()
        invariant
            i <= paths@.len(),
            ps == paths@.map_values(|p: (&str, &str)| (p.0@, p.1@)),
            item_strings_at(body@, key@, index as nat, ps) == match item_strings_at(
                body@,
                key@,
                index as nat,
                ps.skip(i as int),
            ) {
                Ok(rest) => Ok(out@.map_values(|x: String| x@) + rest),
                Err(e) => Err::<Seq<Seq<char>>, Option<Seq<char>>>(e),
            },
        decreases paths.len() - i,
    {
        let (group, field) = paths[i];
        assert(ps.skip(i as int)[0] == (group@, field@));
        assert(ps.skip(i as int).drop_first() =~= ps.skip(i + 1));
        match json_item_string(body, key, index, group, field) {
            Err(e) => return Err(Error::Json(e)),
            Ok(Err(e)) => return Err(Error::Json(e)),
            Ok(Ok(s)) => {
                let ghost before = out@.map_values(|x: String| x@);
                out.push(s);
                proof {
                    assert(out@.map_values(|x: String| x@) =~= before.push(s@));
                    match item_strings_at(body@, key@, index as nat, ps.skip(i + 1)) {
                        Ok(rest) => assert(before + (seq![s@] + rest) =~= before.push(s@) + rest),
                        Err(e) => {},
                    }
                }
            },
        }
        i = i + 1;
    }
    assert(ps.skip(paths@.len() as int) =~= Seq::<(Seq<char>, Seq<char>)>::empty());
    assert(out@.map_values(|x: String| x@) + Seq::<Seq<char>>::empty() =~= out@.map_values(|x: String| x@));
    Ok(out)
}

} // verus!
