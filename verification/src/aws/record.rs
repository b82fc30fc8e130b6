use vstd::prelude::*;
use vstd::string::*;
use crate::aws::iam::{num, number};
use crate::json::{jv_entries, push_entry, text, Json, JsonV};

verus! {

/// An entry for an optional string: one entry when present, none otherwise.
pub open spec fn opt_text(k: Seq<char>, o: Option<String>) -> Seq<(Seq<char>, JsonV)> {
    match o {
        Some(s) => seq![(k, JsonV::Str(s@))],
        None => Seq::empty(),
    }
}

/// An entry for an optional integer: one entry when present, none otherwise.
pub open spec fn opt_num(k: Seq<char>, o: Option<i64>) -> Seq<(Seq<char>, JsonV)> {
    match o {
        Some(n) => seq![(k, num(n as int))],
        None => Seq::empty(),
    }
}

/// An entry for an optional 32-bit integer.
pub open spec fn opt_int(k: Seq<char>, o: Option<i32>) -> Seq<(Seq<char>, JsonV)> {
    match o {
        Some(n) => seq![(k, num(n as int))],
        None => Seq::empty(),
    }
}

/// An entry only when the condition holds.
pub open spec fn entry_if(c: bool, k: Seq<char>, v: JsonV) -> Seq<(Seq<char>, JsonV)> {
    if c {
        seq![(k, v)]
    } else {
        Seq::empty()
    }
}

/// A list of texts as a JSON array.
pub open spec fn texts_json(v: Seq<String>) -> JsonV {
    JsonV::Array(v.map_values(|s: String| JsonV::Str(s@)))
}

/// An optional text as JSON: the text, or null.
pub open spec fn text_or_null(o: Option<String>) -> JsonV {
    match o {
        Some(s) => JsonV::Str(s@),
        None => JsonV::Null,
    }
}

/// Appends one entry.
pub fn push_one(e: &mut Vec<(String, Json)>, k: &str, v: Json)
    ensures
        jv_entries(final(e)@) == jv_entries(old(e)@) + seq![(k@, v@)],
{
    let ghost vv = v@;
    push_entry(e, k, v);
    assert(jv_entries(e@) =~= jv_entries(old(e)@) + seq![(k@, vv)]);
}

/// Appends an entry for an optional string.
pub fn push_opt_text(e: &mut Vec<(String, Json)>, k: &str, o: &Option<String>)
    ensures
        jv_entries(final(e)@) == jv_entries(old(e)@) + opt_text(k@, *o),
{
    match o {
        Some(s) => push_entry(e, k, text(s.as_str())),
        None => {},
    }
    assert(jv_entries(e@) =~= jv_entries(old(e)@) + opt_text(k@, *o));
}

/// Appends an entry for an optional integer.
pub fn push_opt_num(e: &mut Vec<(String, Json)>, k: &str, o: Option<i64>)
    ensures
        jv_entries(final(e)@) == jv_entries(old(e)@) + opt_num(k@, o),
{
    match o {
        Some(n) => push_entry(e, k, number(n)),
        None => {},
    }
    assert(jv_entries(e@) =~= jv_entries(old(e)@) + opt_num(k@, o));
}

/// Appends an entry for an optional 32-bit integer.
pub fn push_opt_int(e: &mut Vec<(String, Json)>, k: &str, o: Option<i32>)
    ensures
        jv_entries(final(e)@) == jv_entries(old(e)@) + opt_int(k@, o),
{
    match o {
        Some(n) => push_entry(e, k, number(n as i64)),
        None => {},
    }
    assert(jv_entries(e@) =~= jv_entries(old(e)@) + opt_int(k@, o));
}

/// An optional text as JSON: the text, or null.
pub fn text_or_null_json(o: &Option<String>) -> (r: Json)
    ensures
        r@ == text_or_null(*o),
{
    match o {
        Some(s) => text(s.as_str()),
        None => Json::Null,
    }
}

/// An entry for an optional string that is present and not empty.
pub open spec fn opt_nonempty(k: Seq<char>, o: Option<String>) -> Seq<(Seq<char>, JsonV)> {
    match o {
        Some(s) => if s@.len() > 0 {
            seq![(k, JsonV::Str(s@))]
        } else {
            Seq::empty()
        },
        None => Seq::empty(),
    }
}

/// Appends an entry for an optional string that is present and not empty.
pub fn push_opt_nonempty(e: &mut Vec<(String, Json)>, k: &str, o: &Option<String>)
    ensures
        jv_entries(final(e)@) == jv_entries(old(e)@) + opt_nonempty(k@, *o),
{
    match o {
        Some(s) => {
            if s.unicode_len() > 0 {
                push_entry(e, k, text(s.as_str()));
            }
        },
        None => {},
    }
    assert(jv_entries(e@) =~= jv_entries(old(e)@) + opt_nonempty(k@, *o));
}

} // verus!
