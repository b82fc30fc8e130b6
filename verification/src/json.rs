use vstd::prelude::*;
use crate::text::str_eq;
use vstd::string::*;

verus! {

/// A JSON document as the library handles it. Numbers are kept as their
/// decimal text, so that no floating-point value is needed to carry them.
#[derive(Debug, PartialEq)]
pub enum Json {
    Null,
    Bool(bool),
    Number(String),
    Str(String),
    Array(Vec<Json>),
    Object(Vec<(String, Json)>),
}

/// The mathematical value of a JSON document: strings are sequences of
/// characters, arrays are sequences, objects are sequences of entries.
pub enum JsonV {
    Null,
    Bool(bool),
    Number(Seq<char>),
    Str(Seq<char>),
    Array(Seq<JsonV>),
    Object(Seq<(Seq<char>, JsonV)>),
}

pub open spec fn jv(j: Json) -> JsonV
    decreases j, 1nat,
{
    match j {
        Json::Null => JsonV::Null,
        Json::Bool(b) => JsonV::Bool(b),
        Json::Number(n) => JsonV::Number(n@),
        Json::Str(s) => JsonV::Str(s@),
        Json::Array(v) => JsonV::Array(jv_list(v@)),
        Json::Object(e) => JsonV::Object(jv_entries(e@)),
    }
}

pub open spec fn jv_list(s: Seq<Json>) -> Seq<JsonV>
    decreases s, 0nat,
{
    if s.len() == 0 {
        Seq::empty()
    } else {
        jv_list(s.drop_last()).push(jv(s.last()))
    }
}

pub open spec fn jv_entries(s: Seq<(String, Json)>) -> Seq<(Seq<char>, JsonV)>
    decreases s, 0nat,
{
    if s.len() == 0 {
        Seq::empty()
    } else {
        jv_entries(s.drop_last()).push((s.last().0@, jv(s.last().1)))
    }
}

impl View for Json {
    type V = JsonV;

    open spec fn view(&self) -> JsonV {
        jv(*self)
    }
}

pub proof fn lemma_jv_list(s: Seq<Json>)
    ensures
        jv_list(s).len() == s.len(),
        forall|i: int| 0 <= i < s.len() ==> #[trigger] jv_list(s)[i] == jv(s[i]),
    decreases s.len(),
{
    if s.len() > 0 {
        lemma_jv_list(s.drop_last());
    }
}

pub proof fn lemma_jv_list_append(a: Seq<Json>, b: Seq<Json>)
    ensures
        jv_list(a + b) == jv_list(a) + jv_list(b),
    decreases b.len(),
{
    if b.len() == 0 {
        assert(a + b =~= a);
        assert(jv_list(b) =~= Seq::<JsonV>::empty());
        assert(jv_list(a) + jv_list(b) =~= jv_list(a));
    } else {
        lemma_jv_list_append(a, b.drop_last());
        assert((a + b).drop_last() =~= a + b.drop_last());
        assert((a + b).last() == b.last());
        assert(jv_list(a) + jv_list(b.drop_last()).push(jv(b.last())) =~= (jv_list(a) + jv_list(b.drop_last())).push(
            jv(b.last()),
        ));
    }
}

pub proof fn lemma_jv_entries(s: Seq<(String, Json)>)
    ensures
        jv_entries(s).len() == s.len(),
        forall|i: int|
            0 <= i < s.len() ==> #[trigger] jv_entries(s)[i] == (s[i].0@, jv(s[i].1)),
    decreases s.len(),
{
    if s.len() > 0 {
        lemma_jv_entries(s.drop_last());
    }
}

pub broadcast proof fn lemma_jv_list_push(s: Seq<Json>, x: Json)
    ensures
        #[trigger] jv_list(s.push(x)) == jv_list(s).push(jv(x)),
{
    assert(s.push(x).drop_last() =~= s);
}

pub broadcast proof fn lemma_jv_entries_push(s: Seq<(String, Json)>, x: (String, Json))
    ensures
        #[trigger] jv_entries(s.push(x)) == jv_entries(s).push((x.0@, jv(x.1))),
{
    assert(s.push(x).drop_last() =~= s);
}

/// The value of the first entry whose key is `k`, if any.
pub open spec fn entries_get(e: Seq<(Seq<char>, JsonV)>, k: Seq<char>) -> Option<JsonV>
    decreases e.len(),
{
    if e.len() == 0 {
        None
    } else if e[0].0 == k {
        Some(e[0].1)
    } else {
        entries_get(e.drop_first(), k)
    }
}

impl JsonV {
    /// Field lookup, as `serde_json::Value::get` with a string key does:
    /// only an object has fields.
    pub open spec fn get(self, k: Seq<char>) -> Option<JsonV> {
        match self {
            JsonV::Object(e) => entries_get(e, k),
            _ => None,
        }
    }

    pub open spec fn as_str(self) -> Option<Seq<char>> {
        match self {
            JsonV::Str(s) => Some(s),
            _ => None,
        }
    }

    /// The string held under key `k`, if the field exists and is a string.
    pub open spec fn str_field(self, k: Seq<char>) -> Option<Seq<char>> {
        match self.get(k) {
            Some(v) => v.as_str(),
            None => None,
        }
    }
}

pub open spec fn opt_str(o: Option<JsonV>) -> Option<Seq<char>> {
    match o {
        Some(v) => v.as_str(),
        None => None,
    }
}

impl Clone for Json {
    fn clone(&self) -> (r: Self)
        ensures
            r@ == self@,
        decreases self,
    {
        match self {
            Json::Null => Json::Null,
            Json::Bool(b) => Json::Bool(*b),
            Json::Number(n) => Json::Number(n.clone()),
            Json::Str(s) => Json::Str(s.clone()),
            Json::Array(v) => {
                let mut out: Vec<Json> = Vec::new();
                let mut i: usize = 0;
                while i < v.len()
                    invariant
                        i <= v.len(),
                        jv_list(out@) == jv_list(v@.take(i as int)),
                        *self == Json::Array(*v),
                    decreases v.len() - i,
                {
                    assert(decreases_to!(*self => (*self)->Array_0));
                    assert(decreases_to!(*v => v@));
                    assert(decreases_to!(v@ => v@[i as int]));
                    let c = v[i].clone();
                    proof {
                        broadcast use lemma_jv_list_push;
                        assert(v@.take(i + 1) =~= v@.take(i as int).push(v@[i as int]));
                    }
                    out.push(c);
                    i = i + 1;
                }
                assert(v@.take(v.len() as int) =~= v@);
                Json::Array(out)
            },
            Json::Object(e) => {
                let mut out: Vec<(String, Json)> = Vec::new();
                let mut i: usize = 0;
                while i < e.len()
                    invariant
                        i <= e.len(),
                        jv_entries(out@) == jv_entries(e@.take(i as int)),
                        *self == Json::Object(*e),
                    decreases e.len() - i,
                {
                    assert(decreases_to!(*self => (*self)->Object_0));
                    assert(decreases_to!(*e => e@));
                    assert(decreases_to!(e@ => e@[i as int]));
                    assert(decreases_to!(e@[i as int] => e@[i as int].1));
                    let k = e[i].0.clone();
                    let c = e[i].1.clone();
                    proof {
                        broadcast use lemma_jv_entries_push;
                        assert(e@.take(i + 1) =~= e@.take(i as int).push(e@[i as int]));
                    }
                    out.push((k, c));
                    i = i + 1;
                }
                assert(e@.take(e.len() as int) =~= e@);
                Json::Object(out)
            },
        }
    }
}

impl Json {
    /// Field lookup: the first entry of an object whose key is `key`.
    pub fn get(&self, key: &str) -> (r: Option<&Json>)
        ensures
            match r {
                Some(v) => self@.get(key@) == Some(v@),
                None => self@.get(key@) is None,
            },
    {
        match self {
            Json::Object(e) => {
                let mut i: usize = 0;
                proof {
                    lemma_jv_entries(e@);
                    assert(jv_entries(e@).skip(0) =~= jv_entries(e@));
                }
                while i < e.len()
                    invariant
                        i <= e.len(),
                        jv_entries(e@).len() == e@.len(),
                        forall|j: int|
                            0 <= j < e@.len() ==> #[trigger] jv_entries(e@)[j] == (
                                e@[j].0@,
                                jv(e@[j].1),
                            ),
                        *self == Json::Object(*e),
                        entries_get(jv_entries(e@), key@) == entries_get(
                            jv_entries(e@).skip(i as int),
                            key@,
                        ),
                    decreases e.len() - i,
                {
                    let ghost rest = jv_entries(e@).skip(i as int);
                    assert(rest.len() > 0);
                    assert(rest[0] == jv_entries(e@)[i as int]);
                    if str_eq(e[i].0.as_str(), key) {
                        assert(rest[0].0 == key@);
                        assert(entries_get(rest, key@) == Some(rest[0].1));
                        assert(self@ == JsonV::Object(jv_entries(e@)));
                        return Some(&e[i].1);
                    }
                    assert(rest.drop_first() =~= jv_entries(e@).skip(i + 1));
                    i = i + 1;
                }
                None
            },
            _ => None,
        }
    }

    pub fn as_str(&self) -> (r: Option<&String>)
        ensures
            match r {
                Some(s) => self@.as_str() == Some(s@),
                None => self@.as_str() is None,
            },
    {
        match self {
            Json::Str(s) => Some(s),
            _ => None,
        }
    }

    /// The string held under `key`, if the field exists and is a string.
    pub fn str_field(&self, key: &str) -> (r: Option<&String>)
        ensures
            match r {
                Some(s) => self@.str_field(key@) == Some(s@),
                None => self@.str_field(key@) is None,
            },
    {
        match self.get(key) {
            Some(v) => v.as_str(),
            None => None,
        }
    }
}

/// Appends one entry to the entries of an object under construction.
pub fn push_entry(e: &mut Vec<(String, Json)>, k: &str, v: Json)
    ensures
        jv_entries(final(e)@) == jv_entries(old(e)@).push((k@, v@)),
{
    let key = String::from_str(k);
    proof {
        lemma_jv_entries_push(e@, (key, v));
    }
    e.push((key, v));
}

/// Appends one value to a list under construction.
/// A copy of a list of values.
pub fn clone_list(v: &Vec<Json>) -> (r: Vec<Json>)
    ensures
        jv_list(r@) == jv_list(v@),
{
    let mut out: Vec<Json> = Vec::new();
    let mut i: usize = 0;
    while i < v.len()
        invariant
            i <= v.len(),
            jv_list(out@) == jv_list(v@.take(i as int)),
        decreases v.len() - i,
    {
        let c = v[i].clone();
        proof {
            lemma_jv_list_push(out@, c);
            assert(v@.take(i + 1) =~= v@.take(i as int).push(v@[i as int]));
            lemma_jv_list_push(v@.take(i as int), v@[i as int]);
        }
        out.push(c);
        i = i + 1;
    }
    assert(v@.take(v.len() as int) =~= v@);
    out
}

pub fn push_item(a: &mut Vec<Json>, v: Json)
    ensures
        jv_list(final(a)@) == jv_list(old(a)@).push(v@),
{
    proof {
        lemma_jv_list_push(a@, v);
    }
    a.push(v);
}

/// A JSON string holding a copy of the text.
pub fn text(s: &str) -> (r: Json)
    ensures
        r@ == JsonV::Str(s@),
{
    Json::Str(String::from_str(s))
}

/// A JSON array of strings.
pub fn text_array(v: &Vec<String>) -> (r: Json)
    ensures
        r@ == JsonV::Array(v@.map_values(|s: String| JsonV::Str(s@))),
{
    let mut out: Vec<Json> = Vec::new();
    let mut i: usize = 0;
    while i < v.len()
        invariant
            i <= v.len(),
            jv_list(out@) == v@.take(i as int).map_values(|s: String| JsonV::Str(s@)),
        decreases v.len() - i,
    {
        push_item(&mut out, text(v[i].as_str()));
        assert(v@.take(i + 1).map_values(|s: String| JsonV::Str(s@)) =~= v@.take(
            i as int,
        ).map_values(|s: String| JsonV::Str(s@)).push(JsonV::Str(v@[i as int]@)));
        i = i + 1;
    }
    assert(v@.take(v.len() as int) =~= v@);
    Json::Array(out)
}

/// The entries of an object after setting key `k` to `v`: the first entry
/// with that key takes the new value in place; without one the entry is
/// appended.
pub open spec fn insert_spec(e: Seq<(Seq<char>, JsonV)>, k: Seq<char>, v: JsonV) -> Seq<(Seq<char>, JsonV)>
    decreases e.len(),
{
    if e.len() == 0 {
        seq![(k, v)]
    } else if e[0].0 == k {
        e.update(0, (k, v))
    } else {
        seq![e[0]] + insert_spec(e.drop_first(), k, v)
    }
}

proof fn lemma_insert_at(e: Seq<(Seq<char>, JsonV)>, i: int, k: Seq<char>, v: JsonV)
    requires
        0 <= i < e.len(),
        e[i].0 == k,
        forall|j: int| 0 <= j < i ==> e[j].0 != k,
    ensures
        insert_spec(e, k, v) == e.update(i, (k, v)),
    decreases i,
{
    if i > 0 {
        lemma_insert_at(e.drop_first(), i - 1, k, v);
        assert(seq![e[0]] + e.drop_first().update(i - 1, (k, v)) =~= e.update(i, (k, v)));
    }
}

proof fn lemma_insert_absent(e: Seq<(Seq<char>, JsonV)>, k: Seq<char>, v: JsonV)
    requires
        forall|j: int| 0 <= j < e.len() ==> e[j].0 != k,
    ensures
        insert_spec(e, k, v) == e.push((k, v)),
    decreases e.len(),
{
    if e.len() > 0 {
        lemma_insert_absent(e.drop_first(), k, v);
        assert(seq![e[0]] + e.drop_first().push((k, v)) =~= e.push((k, v)));
    }
}

/// Sets key `k` of an object under construction to `v`, as a map insert
/// does: an existing entry keeps its place.
pub fn insert_entry(e: &mut Vec<(String, Json)>, k: &str, v: Json)
    ensures
        jv_entries(final(e)@) == insert_spec(jv_entries(old(e)@), k@, v@),
{
    let ghost ev = jv_entries(e@);
    proof {
        lemma_jv_entries(e@);
    }
    let mut i: usize = 0;
    while i < e.len()
        invariant
            i <= e.len(),
            ev == jv_entries(e@),
            ev == jv_entries(old(e)@),
            ev.len() == e@.len(),
            forall|j: int| 0 <= j < e@.len() ==> #[trigger] ev[j] == (e@[j].0@, jv(e@[j].1)),
            forall|j: int| 0 <= j < i ==> ev[j].0 != k@,
        decreases e.len() - i,
    {
        if str_eq(e[i].0.as_str(), k) {
            proof {
                lemma_insert_at(ev, i as int, k@, v@);
            }
            let key = String::from_str(k);
            let ghost old_e = e@;
            e.set(i, (key, v));
            proof {
                lemma_jv_entries(e@);
                assert(jv_entries(e@) =~= ev.update(i as int, (k@, v@)));
            }
            return;
        }
        i = i + 1;
    }
    proof {
        lemma_insert_absent(ev, k@, v@);
    }
    push_entry(e, k, v);
}

/// Reading a key of an object right after setting it gives the value set.
pub proof fn law_insert_then_get(e: Seq<(Seq<char>, JsonV)>, k: Seq<char>, v: JsonV)
    ensures
        entries_get(insert_spec(e, k, v), k) == Some(v),
    decreases e.len(),
{
    if e.len() > 0 && e[0].0 != k {
        law_insert_then_get(e.drop_first(), k, v);
        assert((seq![e[0]] + insert_spec(e.drop_first(), k, v)).drop_first() =~= insert_spec(
            e.drop_first(),
            k,
            v,
        ));
    }
}

/// Setting one key of an object leaves what every other key reads.
pub proof fn law_insert_keeps_other_keys(e: Seq<(Seq<char>, JsonV)>, k: Seq<char>, v: JsonV, other: Seq<char>)
    requires
        other != k,
    ensures
        entries_get(insert_spec(e, k, v), other) == entries_get(e, other),
    decreases e.len(),
{
    if e.len() == 0 {
        assert(seq![(k, v)].drop_first() =~= Seq::<(Seq<char>, JsonV)>::empty());
        assert(entries_get(seq![(k, v)], other) == entries_get(Seq::<(Seq<char>, JsonV)>::empty(), other));
    } else if e[0].0 == k {
        assert(e.update(0, (k, v)).drop_first() =~= e.drop_first());
        assert(entries_get(e.update(0, (k, v)), other) == entries_get(e.drop_first(), other));
    } else {
        law_insert_keeps_other_keys(e.drop_first(), k, v, other);
        assert((seq![e[0]] + insert_spec(e.drop_first(), k, v)).drop_first() =~= insert_spec(
            e.drop_first(),
            k,
            v,
        ));
    }
}

} // verus!
