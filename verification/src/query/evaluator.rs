use vstd::prelude::*;
use crate::json::{Json, JsonV};
use crate::query::lexer::Operator;
use crate::query::number::{canonical, canonical_number, is_negative, law_minus_sign_negates};
use crate::query::parser::{Expr, ExprV, QueryValue, ValueV, path_view};
use crate::query::wildcard::glob_match;
use crate::text::{chars_of, str_eq};

verus! {

/// Evaluates parsed queries against JSON resources.
pub struct QueryEvaluator;

/// The value reached from `r` by following the field names of `path`.
pub open spec fn nested_field(r: JsonV, path: Seq<Seq<char>>) -> Option<JsonV>
    decreases path.len(),
{
    if path.len() == 0 {
        Some(r)
    } else {
        match r.get(path[0]) {
            Some(v) => nested_field(v, path.drop_first()),
            None => None,
        }
    }
}

/// Equality of a resource value with a literal: strings with strings,
/// booleans with booleans, numbers with numbers by their decimal value.
pub open spec fn values_equal(f: JsonV, v: ValueV) -> bool {
    match (f, v) {
        (JsonV::Str(a), ValueV::String(b)) => a == b,
        (JsonV::Number(a), ValueV::Number(b)) => canonical_number(a) == canonical_number(b),
        (JsonV::Bool(a), ValueV::Boolean(b)) => a == b,
        _ => false,
    }
}

pub open spec fn like_spec(f: JsonV, v: ValueV) -> bool {
    match (f, v) {
        (JsonV::Str(s), ValueV::String(p)) => glob_match(s, p),
        _ => false,
    }
}

pub open spec fn in_spec(f: JsonV, v: ValueV) -> bool {
    match v {
        ValueV::Array(items) => in_items(f, items),
        _ => false,
    }
}

/// Whether some literal of `items` equals `f`.
pub open spec fn in_items(f: JsonV, items: Seq<ValueV>) -> bool {
    exists|i: int| 0 <= i < items.len() && #[trigger] values_equal(f, items[i])
}

pub open spec fn compare_spec(f: Option<JsonV>, op: Operator, v: ValueV) -> bool {
    match f {
        None => false,
        Some(fv) => match op {
            Operator::Eq => values_equal(fv, v),
            Operator::Ne => !values_equal(fv, v),
            Operator::Like => like_spec(fv, v),
            Operator::In => in_spec(fv, v),
        },
    }
}

/// Whether resource `r` satisfies query `e`. A comparison on a field that
/// the resource lacks is false, whatever its operator.
pub open spec fn evaluate_spec(e: ExprV, r: JsonV) -> bool
    decreases e,
{
    match e {
        ExprV::Comparison { field, operator, value } => compare_spec(
            nested_field(r, field),
            operator,
            value,
        ),
        ExprV::And(l, x) => evaluate_spec(*l, r) && evaluate_spec(*x, r),
        ExprV::Or(l, x) => evaluate_spec(*l, r) || evaluate_spec(*x, r),
        ExprV::Not(x) => !evaluate_spec(*x, r),
    }
}

/// On a field that the resource has, `!=` holds exactly when `==`
/// does not; on a field that it lacks, neither holds.
pub proof fn law_ne_negates_eq(r: JsonV, field: Seq<Seq<char>>, v: ValueV)
    ensures
        nested_field(r, field) is Some ==> compare_spec(nested_field(r, field), Operator::Ne, v)
            == !compare_spec(nested_field(r, field), Operator::Eq, v),
        nested_field(r, field) is None ==> !compare_spec(nested_field(r, field), Operator::Ne, v)
            && !compare_spec(nested_field(r, field), Operator::Eq, v),
{
}

/// `==` on numbers respects the sign: a field holding `-d` never equals
/// the literal `d` (nor `d` the literal `-d`) unless `d` is zero, and `!=`
/// then holds.
pub proof fn law_eq_respects_sign(d: Seq<char>)
    requires
        !is_negative(d),
        canonical_number(d) != seq!['0'],
    ensures
        !values_equal(JsonV::Number(seq!['-'] + d), ValueV::Number(d)),
        !values_equal(JsonV::Number(d), ValueV::Number(seq!['-'] + d)),
        compare_spec(Some(JsonV::Number(seq!['-'] + d)), Operator::Ne, ValueV::Number(d)),
{
    law_minus_sign_negates(d);
}

proof fn lemma_in_witness(f: JsonV, items: Seq<ValueV>, k: int)
    requires
        0 <= k < items.len(),
        values_equal(f, items[k]),
    ensures
        in_spec(f, ValueV::Array(items)),
{
}

impl QueryEvaluator {
    pub fn evaluate(expr: &Expr, resource: &Json) -> (r: bool)
        ensures
            r == evaluate_spec(expr@, resource@),
        decreases expr,
    {
        match expr {
            Expr::Comparison { field, operator, value } => {
                let field_value = Self::get_nested_field(resource, field);
                Self::compare(field_value, *operator, value)
            },
            Expr::And(left, right) => Self::evaluate(left, resource) && Self::evaluate(
                right,
                resource,
            ),
            Expr::Or(left, right) => Self::evaluate(left, resource) || Self::evaluate(
                right,
                resource,
            ),
            Expr::Not(inner) => !Self::evaluate(inner, resource),
        }
    }

    fn get_nested_field<'a>(resource: &'a Json, field: &Vec<String>) -> (r: Option<&'a Json>)
        ensures
            match r {
                Some(v) => nested_field(resource@, path_view(field@)) == Some(v@),
                None => nested_field(resource@, path_view(field@)) is None,
            },
    {
        let mut current = resource;
        let mut i: usize = 0;
        let ghost path = path_view(field@);
        assert(path.skip(0) =~= path);
        while i < field.len()
            invariant
                i <= field.len(),
                path == path_view(field@),
                nested_field(resource@, path) == nested_field(current@, path.skip(i as int)),
            decreases field.len() - i,
        {
            assert(path.skip(i as int)[0] == field@[i as int]@);
            assert(path.skip(i as int).drop_first() =~= path.skip(i + 1));
            match current.get(field[i].as_str()) {
                Some(v) => {
                    current = v;
                },
                None => {
                    return None;
                },
            }
            i = i + 1;
        }
        assert(path.skip(i as int).len() == 0);
        Some(current)
    }

    fn compare(field_value: Option<&Json>, op: Operator, expected: &QueryValue) -> (r: bool)
        ensures
            r == compare_spec(
                match field_value {
                    Some(v) => Some(v@),
                    None => None,
                },
                op,
                expected@,
            ),
    {
        let field_value = match field_value {
            Some(v) => v,
            None => return false,
        };
        match op {
            Operator::Eq => Self::compare_eq(field_value, expected),
            Operator::Ne => !Self::compare_eq(field_value, expected),
            Operator::Like => Self::compare_like(field_value, expected),
            Operator::In => Self::compare_in(field_value, expected),
        }
    }

    fn compare_eq(field_value: &Json, expected: &QueryValue) -> (r: bool)
        ensures
            r == values_equal(field_value@, expected@),
    {
        match (field_value, expected) {
            (Json::Str(a), QueryValue::String(b)) => str_eq(a.as_str(), b.as_str()),
            (Json::Number(a), QueryValue::Number(b)) => {
                let ca = canonical(&chars_of(a.as_str()));
                let cb = canonical(&chars_of(b.as_str()));
                seq_eq(&ca, &cb)
            },
            (Json::Bool(a), QueryValue::Boolean(b)) => *a == *b,
            _ => false,
        }
    }

    fn compare_like(field_value: &Json, pattern: &QueryValue) -> (r: bool)
        ensures
            r == like_spec(field_value@, pattern@),
    {
        match (field_value, pattern) {
            (Json::Str(s), QueryValue::String(p)) => Self::wildcard_match(s.as_str(), p.as_str()),
            _ => false,
        }
    }

    fn compare_in(field_value: &Json, array: &QueryValue) -> (r: bool)
        ensures
            r == in_spec(field_value@, array@),
    {
        match array {
            QueryValue::Array(arr) => {
                let ghost items = crate::query::parser::values_view(arr@);
                assert(array@ == ValueV::Array(items));
                proof {
                    crate::query::parser::lemma_values_view_len(arr@);
                }
                let mut i: usize = 0;
                while i < arr.len()
                    invariant
                        i <= arr.len(),
                        items.len() == arr@.len(),
                        array@ == ValueV::Array(items),
                        forall|j: int| 0 <= j < arr@.len() ==> #[trigger] items[j] == arr@[j]@,
                        forall|j: int| 0 <= j < i ==> !values_equal(field_value@, items[j]),
                    decreases arr.len() - i,
                {
                    if Self::compare_eq(field_value, &arr[i]) {
                        assert(values_equal(field_value@, items[i as int]));
                        let ghost k = i as int;
                        assert(0 <= k < items.len() && values_equal(field_value@, items[k]));
                        proof {
                            lemma_in_witness(field_value@, items, k);
                        }
                        return true;
                    }
                    i = i + 1;
                }
                false
            },
            _ => false,
        }
    }
}

fn seq_eq(a: &Vec<char>, b: &Vec<char>) -> (r: bool)
    ensures
        r == (a@ == b@),
{
    if a.len() != b.len() {
        return false;
    }
    let mut i: usize = 0;
    while i < a.len()
        invariant
            a.len() == b.len(),
            i <= a.len(),
            forall|j: int| 0 <= j < i ==> a@[j] == b@[j],
        decreases a.len() - i,
    {
        if a[i] != b[i] {
            return false;
        }
        i = i + 1;
    }
    assert(a@ =~= b@);
    true
}

} // verus!
