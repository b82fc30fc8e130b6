use vstd::prelude::*;
use vstd::string::*;
use crate::json::{jv, jv_entries, jv_list, lemma_jv_entries, lemma_jv_list, push_entry, push_item, text, Json, JsonV};
use crate::text::{owned, str_eq, has_char};

verus! {

/// The text that percent-decoding gives (`urlencoding::decode`), or none
/// when the decoded bytes are not UTF-8.
pub uninterp spec fn url_decoded(s: Seq<char>) -> Option<Seq<char>>;

/// The JSON document that parsing a text gives (`serde_json::from_str`), or
/// none when the text is not JSON.
pub uninterp spec fn json_parsed(s: Seq<char>) -> Option<JsonV>;

/// Trusted: calls `urlencoding::decode`, which replaces each `%XX` escape
/// by its byte and fails only when the result is not UTF-8. The result is a
/// function of the text alone, named `url_decoded`; the source shows that a
/// text without `%` comes back unchanged, which the contract states.
#[verifier::external_body]
fn url_decode(s: &str) -> (r: Option<String>)
    ensures
        match r {
            Some(d) => url_decoded(s@) == Some(d@),
            None => url_decoded(s@) is None,
        },
        !has_char(s@, '%') ==> r is Some && r.unwrap()@ == s@,
{
    match urlencoding::decode(s) {
        Ok(d) => Some(d.into_owned()),
        Err(_) => None,
    }
}

#[verifier::external_type_specification]
#[verifier::external_body]
pub struct ExJsonValue(serde_json::Value);

/// Trusted: moves a parsed `serde_json::Value` into the library's own JSON
/// type, one variant for one variant (a number is kept as the text that
/// `serde_json` prints for it). Nothing is stated: it is only called by
/// `parse_json`, whose contract names the result.
#[verifier::external_body]
fn json_of_value(v: serde_json::Value) -> Json {
    match v {
        serde_json::Value::Null => Json::Null,
        serde_json::Value::Bool(b) => Json::Bool(b),
        serde_json::Value::Number(n) => Json::Number(n.to_string()),
        serde_json::Value::String(s) => Json::Str(s),
        serde_json::Value::Array(a) => Json::Array(a.into_iter().map(json_of_value).collect()),
        serde_json::Value::Object(m) => Json::Object(
            m.into_iter().map(|(k, x)| (k, json_of_value(x))).collect(),
        ),
    }
}

/// Trusted: calls `serde_json::from_str` for a `serde_json::Value`. The
/// result is a function of the text alone, named `json_parsed`.
#[verifier::external_body]
pub(crate) fn parse_json(s: &str) -> (r: Option<Json>)
    ensures
        match r {
            Some(j) => json_parsed(s@) == Some(j@),
            None => json_parsed(s@) is None,
        },
{
    match serde_json::from_str::<serde_json::Value>(s) {
        Ok(v) => Some(json_of_value(v)),
        Err(_) => None,
    }
}

/// The percent-decoded text, or the text itself when it does not decode.
pub open spec fn decoded_or_same(s: Seq<char>) -> Seq<char> {
    match url_decoded(s) {
        Some(d) => d,
        None => s,
    }
}

/// The strings of a list of JSON values, others left out.
pub open spec fn strings_in(a: Seq<JsonV>) -> Seq<Seq<char>>
    decreases a.len(),
{
    if a.len() == 0 {
        Seq::empty()
    } else {
        let rest = strings_in(a.drop_last());
        match a.last() {
            JsonV::Str(s) => rest.push(s),
            _ => rest,
        }
    }
}

/// A string as a one-element list, the strings of an array, else none.
pub open spec fn string_list(v: JsonV) -> Seq<Seq<char>> {
    match v {
        JsonV::Str(s) => seq![s],
        JsonV::Array(a) => strings_in(a),
        _ => Seq::empty(),
    }
}

/// The kind and identifiers of a statement's principal: the first of
/// `Service`, `AWS`, `Federated` that an object principal has; `AWS` with
/// `*` for the principal `"*"`; `Unknown` with none otherwise.
pub open spec fn principal_spec(stmt: JsonV) -> (Seq<char>, Seq<Seq<char>>) {
    match stmt.get("Principal"@) {
        Some(p) => match p {
            JsonV::Object(_) => match p.get("Service"@) {
                Some(v) => ("Service"@, string_list(v)),
                None => match p.get("AWS"@) {
                    Some(v) => ("AWS"@, string_list(v)),
                    None => match p.get("Federated"@) {
                        Some(v) => ("Federated"@, string_list(v)),
                        None => ("Unknown"@, Seq::empty()),
                    },
                },
            },
            JsonV::Str(s) => if s == "*"@ {
                ("AWS"@, seq!["*"@])
            } else {
                ("Unknown"@, Seq::empty())
            },
            _ => ("Unknown"@, Seq::empty()),
        },
        None => ("Unknown"@, Seq::empty()),
    }
}

/// A statement's actions: a single string, or the strings of an array.
pub open spec fn actions_spec(stmt: JsonV) -> Seq<Seq<char>> {
    match stmt.get("Action"@) {
        Some(JsonV::Str(s)) => seq![s],
        Some(JsonV::Array(a)) => strings_in(a),
        _ => Seq::empty(),
    }
}

/// One condition: its operator, key and value.
pub open spec fn condition_spec(op: Seq<char>, key: Seq<char>, value: JsonV) -> JsonV {
    JsonV::Object(seq![("operator"@, JsonV::Str(op)), ("key"@, JsonV::Str(key)), ("value"@, value)])
}

/// The conditions of one operator: one per key of its object.
pub open spec fn operator_conditions(op: Seq<char>, v: JsonV) -> Seq<JsonV> {
    match v {
        JsonV::Object(inner) => inner.map_values(
            |kv: (Seq<char>, JsonV)| condition_spec(op, kv.0, kv.1),
        ),
        _ => Seq::empty(),
    }
}

/// The conditions of a list of operators, in order.
pub open spec fn conditions_of(ops: Seq<(Seq<char>, JsonV)>) -> Seq<JsonV>
    decreases ops.len(),
{
    if ops.len() == 0 {
        Seq::empty()
    } else {
        conditions_of(ops.drop_last()) + operator_conditions(ops.last().0, ops.last().1)
    }
}

/// A statement's conditions, flattened to one entry per operator and key.
pub open spec fn conditions_spec(stmt: JsonV) -> Seq<JsonV> {
    match stmt.get("Condition"@) {
        Some(JsonV::Object(ops)) => conditions_of(ops),
        _ => Seq::empty(),
    }
}

/// A list of strings as a JSON array.
pub open spec fn str_array(v: Seq<Seq<char>>) -> JsonV {
    JsonV::Array(v.map_values(|s: Seq<char>| JsonV::Str(s)))
}

/// The summary of one trust-policy statement; none without a string
/// `Effect`.
pub open spec fn statement_spec(stmt: JsonV) -> Option<JsonV> {
    match stmt.get("Effect"@) {
        Some(JsonV::Str(effect)) => {
            let p = principal_spec(stmt);
            Some(
                JsonV::Object(
                    seq![
                        ("effect"@, JsonV::Str(effect)),
                        ("principal_type"@, JsonV::Str(p.0)),
                        ("principal_identifiers"@, str_array(p.1)),
                        ("actions"@, str_array(actions_spec(stmt))),
                        ("conditions"@, JsonV::Array(conditions_spec(stmt))),
                    ],
                ),
            )
        },
        _ => None,
    }
}

/// The summaries of a list of statements, those without one left out.
pub open spec fn statements_of(a: Seq<JsonV>) -> Seq<JsonV>
    decreases a.len(),
{
    if a.len() == 0 {
        Seq::empty()
    } else {
        let rest = statements_of(a.drop_last());
        match statement_spec(a.last()) {
            Some(s) => rest.push(s),
            None => rest,
        }
    }
}

/// The statement summaries of a policy document: those of its `Statement`
/// array, none when it has no such array.
pub open spec fn policy_statements(doc: JsonV) -> Seq<JsonV> {
    match doc.get("Statement"@) {
        Some(JsonV::Array(a)) => statements_of(a),
        _ => Seq::empty(),
    }
}

/// The statement summaries of a trust-policy text: none for an empty text
/// or one that is not JSON; the text is percent-decoded first when it
/// decodes.
pub open spec fn assume_role_spec(doc: Seq<char>) -> Seq<JsonV> {
    if doc.len() == 0 {
        Seq::empty()
    } else {
        match json_parsed(decoded_or_same(doc)) {
            Some(v) => policy_statements(v),
            None => Seq::empty(),
        }
    }
}

/// The percent-decoded text, or the text itself when it does not decode.
pub fn decode_or_keep(s: &str) -> (r: String)
    ensures
        r@ == decoded_or_same(s@),
{
    match url_decode(s) {
        Some(d) => d,
        None => owned(s),
    }
}

/// The strings of a list of values, others left out.
fn strings_of(a: &Vec<Json>) -> (r: Vec<Json>)
    ensures
        jv_list(r@) == strings_in(jv_list(a@)).map_values(|s: Seq<char>| JsonV::Str(s)),
{
    let ghost sv = jv_list(a@);
    proof {
        lemma_jv_list(a@);
    }
    let mut out: Vec<Json> = Vec::new();
    let mut i: usize = 0;
    while i < a.len()
        invariant
            i <= a.len(),
            sv == jv_list(a@),
            sv.len() == a@.len(),
            forall|j: int| 0 <= j < a@.len() ==> #[trigger] sv[j] == jv(a@[j]),
            jv_list(out@) == strings_in(sv.take(i as int)).map_values(|s: Seq<char>| JsonV::Str(s)),
        decreases a.len() - i,
    {
        assert(sv.take(i + 1).drop_last() =~= sv.take(i as int));
        assert(sv.take(i + 1).last() == a@[i as int]@);
        match &a[i] {
            Json::Str(s) => {
                push_item(&mut out, text(s.as_str()));
                assert(strings_in(sv.take(i + 1)).map_values(|s: Seq<char>| JsonV::Str(s)) =~= strings_in(
                    sv.take(i as int),
                ).map_values(|s: Seq<char>| JsonV::Str(s)).push(JsonV::Str(s@)));
            },
            _ => {},
        }
        i = i + 1;
    }
    assert(sv.take(a.len() as int) =~= sv);
    out
}

/// A value's strings as a JSON array: itself for a string, the strings of
/// an array, else none.
fn string_list_of(v: &Json) -> (r: Json)
    ensures
        r@ == str_array(string_list(v@)),
{
    match v {
        Json::Str(s) => {
            let mut out: Vec<Json> = Vec::new();
            push_item(&mut out, text(s.as_str()));
            assert(seq![s@].map_values(|s: Seq<char>| JsonV::Str(s)) =~= seq![JsonV::Str(s@)]);
            Json::Array(out)
        },
        Json::Array(a) => Json::Array(strings_of(a)),
        _ => {
            assert(Seq::<Seq<char>>::empty().map_values(|s: Seq<char>| JsonV::Str(s)) =~= Seq::<JsonV>::empty());
            Json::Array(Vec::new())
        },
    }
}

/// The principal of a statement: its kind and identifiers.
fn principal_of(stmt: &Json) -> (r: (String, Json))
    ensures
        r.0@ == principal_spec(stmt@).0,
        r.1@ == str_array(principal_spec(stmt@).1),
{
    assert(Seq::<Seq<char>>::empty().map_values(|s: Seq<char>| JsonV::Str(s)) =~= Seq::<JsonV>::empty());
    match stmt.get("Principal") {
        Some(p) => match p {
            Json::Object(_) => match p.get("Service") {
                Some(v) => (owned("Service"), string_list_of(v)),
                None => match p.get("AWS") {
                    Some(v) => (owned("AWS"), string_list_of(v)),
                    None => match p.get("Federated") {
                        Some(v) => (owned("Federated"), string_list_of(v)),
                        None => (owned("Unknown"), Json::Array(Vec::new())),
                    },
                },
            },
            Json::Str(s) => if str_eq(s.as_str(), "*") {
                let mut out: Vec<Json> = Vec::new();
                push_item(&mut out, text("*"));
                assert(seq!["*"@].map_values(|s: Seq<char>| JsonV::Str(s)) =~= seq![JsonV::Str("*"@)]);
                (owned("AWS"), Json::Array(out))
            } else {
                (owned("Unknown"), Json::Array(Vec::new()))
            },
            _ => (owned("Unknown"), Json::Array(Vec::new())),
        },
        None => (owned("Unknown"), Json::Array(Vec::new())),
    }
}

/// The actions of a statement as a JSON array.
fn actions_of(stmt: &Json) -> (r: Json)
    ensures
        r@ == str_array(actions_spec(stmt@)),
{
    match stmt.get("Action") {
        Some(v) => match v {
            Json::Str(_) => string_list_of(v),
            Json::Array(_) => string_list_of(v),
            _ => {
                assert(Seq::<Seq<char>>::empty().map_values(|s: Seq<char>| JsonV::Str(s)) =~= Seq::<JsonV>::empty());
                Json::Array(Vec::new())
            },
        },
        None => {
            assert(Seq::<Seq<char>>::empty().map_values(|s: Seq<char>| JsonV::Str(s)) =~= Seq::<JsonV>::empty());
            Json::Array(Vec::new())
        },
    }
}

/// Appends the conditions of one operator.
fn push_operator_conditions(out: &mut Vec<Json>, op: &str, v: &Json)
    ensures
        jv_list(final(out)@) == jv_list(old(out)@) + operator_conditions(op@, v@),
{
    match v {
        Json::Object(inner) => {
            let ghost sv = jv_entries(inner@);
            proof {
                lemma_jv_entries(inner@);
            }
            let ghost start = jv_list(out@);
            let mut i: usize = 0;
            while i < inner.len()
                invariant
                    i <= inner.len(),
                    sv == jv_entries(inner@),
                    sv.len() == inner@.len(),
                    forall|j: int|
                        0 <= j < inner@.len() ==> #[trigger] sv[j] == (inner@[j].0@, jv(inner@[j].1)),
                    jv_list(out@) == start + sv.take(i as int).map_values(
                        |kv: (Seq<char>, JsonV)| condition_spec(op@, kv.0, kv.1),
                    ),
                decreases inner.len() - i,
            {
                let mut e: Vec<(String, Json)> = Vec::new();
                push_entry(&mut e, "operator", text(op));
                push_entry(&mut e, "key", text(inner[i].0.as_str()));
                push_entry(&mut e, "value", inner[i].1.clone());
                assert(jv_entries(e@) =~= seq![
                    ("operator"@, JsonV::Str(op@)),
                    ("key"@, JsonV::Str(sv[i as int].0)),
                    ("value"@, sv[i as int].1),
                ]);
                let c = Json::Object(e);
                assert(c@ == condition_spec(op@, sv[i as int].0, sv[i as int].1));
                push_item(out, c);
                assert(sv.take(i + 1).map_values(
                    |kv: (Seq<char>, JsonV)| condition_spec(op@, kv.0, kv.1),
                ) =~= sv.take(i as int).map_values(
                    |kv: (Seq<char>, JsonV)| condition_spec(op@, kv.0, kv.1),
                ).push(condition_spec(op@, sv[i as int].0, sv[i as int].1)));
                i = i + 1;
            }
            assert(sv.take(inner.len() as int) =~= sv);
        },
        _ => {
            assert(jv_list(out@) + Seq::<JsonV>::empty() =~= jv_list(out@));
        },
    }
}

/// The conditions of a statement, one per operator and key.
fn conditions_of_stmt(stmt: &Json) -> (r: Json)
    ensures
        r@ == JsonV::Array(conditions_spec(stmt@)),
{
    let mut out: Vec<Json> = Vec::new();
    match stmt.get("Condition") {
        Some(Json::Object(ops)) => {
            let ghost sv = jv_entries(ops@);
            proof {
                lemma_jv_entries(ops@);
            }
            let mut i: usize = 0;
            while i < ops.len()
                invariant
                    i <= ops.len(),
                    sv == jv_entries(ops@),
                    sv.len() == ops@.len(),
                    forall|j: int|
                        0 <= j < ops@.len() ==> #[trigger] sv[j] == (ops@[j].0@, jv(ops@[j].1)),
                    jv_list(out@) == conditions_of(sv.take(i as int)),
                decreases ops.len() - i,
            {
                assert(sv.take(i + 1).drop_last() =~= sv.take(i as int));
                assert(sv.take(i + 1).last() == sv[i as int]);
                push_operator_conditions(&mut out, ops[i].0.as_str(), &ops[i].1);
                i = i + 1;
            }
            assert(sv.take(ops.len() as int) =~= sv);
        },
        _ => {},
    }
    Json::Array(out)
}

/// The summary of one trust-policy statement, if it has a string `Effect`.
fn statement_of(stmt: &Json) -> (r: Option<Json>)
    ensures
        match r {
            Some(j) => statement_spec(stmt@) == Some(j@),
            None => statement_spec(stmt@) is None,
        },
{
    match stmt.get("Effect") {
        Some(Json::Str(effect)) => {
            let (ptype, pids) = principal_of(stmt);
            let mut e: Vec<(String, Json)> = Vec::new();
            push_entry(&mut e, "effect", text(effect.as_str()));
            push_entry(&mut e, "principal_type", Json::Str(ptype));
            push_entry(&mut e, "principal_identifiers", pids);
            push_entry(&mut e, "actions", actions_of(stmt));
            let conds = conditions_of_stmt(stmt);
            push_entry(&mut e, "conditions", conds);
            let ghost p = principal_spec(stmt@);
            assert(jv_entries(e@) =~= seq![
                ("effect"@, JsonV::Str(effect@)),
                ("principal_type"@, JsonV::Str(p.0)),
                ("principal_identifiers"@, str_array(p.1)),
                ("actions"@, str_array(actions_spec(stmt@))),
                ("conditions"@, JsonV::Array(conditions_spec(stmt@))),
            ]);
            Some(Json::Object(e))
        },
        _ => None,
    }
}

/// The statement summaries of a policy document.
pub fn statements_in(doc: &Json) -> (r: Vec<Json>)
    ensures
        jv_list(r@) == policy_statements(doc@),
{
    let mut out: Vec<Json> = Vec::new();
    match doc.get("Statement") {
        Some(Json::Array(a)) => {
            let ghost sv = jv_list(a@);
            proof {
                lemma_jv_list(a@);
            }
            let mut i: usize = 0;
            while i < a.len()
                invariant
                    i <= a.len(),
                    sv == jv_list(a@),
                    sv.len() == a@.len(),
                    forall|j: int| 0 <= j < a@.len() ==> #[trigger] sv[j] == jv(a@[j]),
                    jv_list(out@) == statements_of(sv.take(i as int)),
                decreases a.len() - i,
            {
                assert(sv.take(i + 1).drop_last() =~= sv.take(i as int));
                assert(sv.take(i + 1).last() == a@[i as int]@);
                match statement_of(&a[i]) {
                    Some(s) => push_item(&mut out, s),
                    None => {},
                }
                i = i + 1;
            }
            assert(sv.take(a.len() as int) =~= sv);
        },
        _ => {},
    }
    out
}

/// The statement summaries of a role's trust-policy text.
pub fn assume_role_statements(policy_doc: &str) -> (r: Vec<Json>)
    ensures
        jv_list(r@) == assume_role_spec(policy_doc@),
{
    if policy_doc.unicode_len() == 0 {
        return Vec::new();
    }
    let decoded = decode_or_keep(policy_doc);
    match parse_json(decoded.as_str()) {
        Some(v) => statements_in(&v),
        None => Vec::new(),
    }
}

/// A statement's principal is of one of four types; the principal `*` is
/// the AWS principal `*`.
pub proof fn law_principal_types(stmt: JsonV)
    ensures
        principal_spec(stmt).0 == "Service"@ || principal_spec(stmt).0 == "AWS"@ || principal_spec(stmt).0
            == "Federated"@ || principal_spec(stmt).0 == "Unknown"@,
        stmt.get("Principal"@) == Some(JsonV::Str("*"@)) ==> principal_spec(stmt) == ("AWS"@, seq!["*"@]),
{
}

/// A trust policy gives no statement summary for an empty text, a text that
/// is not JSON (once decoded) or a document without a `Statement` array;
/// otherwise one summary per statement that has a text `Effect`, in order,
/// and never more summaries than statements.
pub proof fn law_assume_role_statements(doc: Seq<char>, a: Seq<JsonV>)
    ensures
        doc.len() == 0 ==> assume_role_spec(doc) == Seq::<JsonV>::empty(),
        (doc.len() > 0 && json_parsed(decoded_or_same(doc)) is None) ==> assume_role_spec(doc) == Seq::<JsonV>::empty(),
        (doc.len() > 0 && json_parsed(decoded_or_same(doc)) is Some && !(json_parsed(decoded_or_same(doc))->Some_0.get(
            "Statement"@,
        ) matches Some(JsonV::Array(_)))) ==> assume_role_spec(doc) == Seq::<JsonV>::empty(),
        statements_of(a).len() <= a.len(),
        (forall|i: int| 0 <= i < a.len() ==> (#[trigger] a[i]).get("Effect"@) matches Some(JsonV::Str(_)))
            ==> statements_of(a).len() == a.len(),
    decreases a.len(),
{
    if a.len() > 0 {
        law_assume_role_statements(doc, a.drop_last());
        if forall|i: int| 0 <= i < a.len() ==> (#[trigger] a[i]).get("Effect"@) matches Some(JsonV::Str(_)) {
            assert forall|i: int| 0 <= i < a.drop_last().len() implies (#[trigger] a.drop_last()[i]).get(
                "Effect"@,
            ) matches Some(JsonV::Str(_)) by {
                assert(a.drop_last()[i] == a[i]);
            }
            assert(a[a.len() - 1] == a.last());
        }
    }
}

} // verus!
