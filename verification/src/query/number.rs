use vstd::prelude::*;

verus! {

/// Position of the first `.` in `s`, or its length when it has none.
pub open spec fn first_dot(s: Seq<char>) -> int
    decreases s.len(),
{
    if s.len() == 0 {
        0
    } else if s[0] == '.' {
        0
    } else {
        1 + first_dot(s.drop_first())
    }
}

pub open spec fn trim_leading_zeros(s: Seq<char>) -> Seq<char>
    decreases s.len(),
{
    if s.len() > 0 && s[0] == '0' {
        trim_leading_zeros(s.drop_first())
    } else {
        s
    }
}

pub open spec fn trim_trailing_zeros(s: Seq<char>) -> Seq<char>
    decreases s.len(),
{
    if s.len() > 0 && s.last() == '0' {
        trim_trailing_zeros(s.drop_last())
    } else {
        s
    }
}

pub open spec fn is_negative(s: Seq<char>) -> bool {
    s.len() > 0 && s[0] == '-'
}

pub open spec fn magnitude(s: Seq<char>) -> Seq<char> {
    if is_negative(s) {
        s.drop_first()
    } else {
        s
    }
}

/// The digits before the decimal point, without leading zeros.
pub open spec fn whole_digits(s: Seq<char>) -> Seq<char> {
    let m = magnitude(s);
    trim_leading_zeros(m.take(first_dot(m)))
}

/// The digits after the decimal point, without trailing zeros.
pub open spec fn fraction_digits(s: Seq<char>) -> Seq<char> {
    let m = magnitude(s);
    let d = first_dot(m);
    if d < m.len() {
        trim_trailing_zeros(m.skip(d + 1))
    } else {
        Seq::empty()
    }
}

/// The one way of writing the decimal number `s`: no leading zeros
/// before the point, no trailing zeros after it, no point when nothing
/// follows it, and zero written `0` whatever its sign. Two decimal texts
/// stand for the same number exactly when their canonical forms agree.
pub open spec fn canonical_number(s: Seq<char>) -> Seq<char> {
    let w = whole_digits(s);
    let f = fraction_digits(s);
    if w.len() == 0 && f.len() == 0 {
        seq!['0']
    } else {
        (if is_negative(s) {
            seq!['-']
        } else {
            Seq::empty()
        }) + (if w.len() == 0 {
            seq!['0']
        } else {
            w
        }) + (if f.len() == 0 {
            Seq::empty()
        } else {
            seq!['.'] + f
        })
    }
}

pub proof fn lemma_first_dot(s: Seq<char>)
    ensures
        0 <= first_dot(s) <= s.len(),
        first_dot(s) < s.len() ==> s[first_dot(s)] == '.',
        forall|i: int| 0 <= i < first_dot(s) ==> s[i] != '.',
    decreases s.len(),
{
    if s.len() > 0 && s[0] != '.' {
        lemma_first_dot(s.drop_first());
        assert forall|i: int| 0 <= i < first_dot(s) implies s[i] != '.' by {
            if i > 0 {
                assert(s[i] == s.drop_first()[i - 1]);
            }
        }
    }
}

fn dot_index(s: &Vec<char>, from: usize) -> (r: usize)
    requires
        from <= s.len(),
    ensures
        r == from + first_dot(s@.skip(from as int)),
        r <= s.len(),
{
    let mut i = from;
    proof {
        lemma_first_dot(s@.skip(from as int));
    }
    while i < s.len() && s[i] != '.'
        invariant
            from <= i <= s.len(),
            first_dot(s@.skip(from as int)) == (i - from) + first_dot(s@.skip(i as int)),
        decreases s.len() - i,
    {
        assert(s@.skip(i as int).drop_first() =~= s@.skip(i + 1));
        i = i + 1;
    }
    i
}

/// The canonical form of a decimal text.
#[verifier::rlimit(50)]
pub fn canonical(s: &Vec<char>) -> (r: Vec<char>)
    ensures
        r@ == canonical_number(s@),
{
    let neg = s.len() > 0 && s[0] == '-';
    let start: usize = if neg {
        1
    } else {
        0
    };
    let ghost m = magnitude(s@);
    assert(m =~= s@.skip(start as int));
    let d = dot_index(s, start);
    proof {
        lemma_first_dot(m);
    }
    // whole part: skip leading zeros
    assert(m.take(first_dot(m)) =~= s@.subrange(start as int, d as int));
    let mut a = start;
    while a < d && s[a] == '0'
        invariant
            start <= a <= d <= s.len(),
            m =~= s@.skip(start as int),
            d == start + first_dot(m),
            trim_leading_zeros(m.take(first_dot(m))) == trim_leading_zeros(s@.subrange(a as int, d as int)),
        decreases d - a,
    {
        assert(s@.subrange(a as int, d as int).drop_first() =~= s@.subrange(a + 1, d as int));
        a = a + 1;
    }
    assert(m.take(first_dot(m)) =~= s@.subrange(start as int, d as int));
    // fraction part: drop trailing zeros
    let mut b = s.len();
    let has_frac = d < s.len();
    if has_frac {
        while b > d + 1 && s[b - 1] == '0'
            invariant
                d + 1 <= b <= s.len(),
                d < s.len(),
                trim_trailing_zeros(s@.skip(d + 1)) == trim_trailing_zeros(s@.subrange(d + 1, b as int)),
            decreases b,
        {
            assert(s@.subrange(d + 1, b as int).drop_last() =~= s@.subrange(d + 1, b - 1));
            b = b - 1;
        }
        assert(s@.subrange(d + 1, s.len() as int) =~= s@.skip(d + 1));
        assert(m.skip(first_dot(m) + 1) =~= s@.skip(d + 1));
    }
    let ghost w = whole_digits(s@);
    let ghost f = fraction_digits(s@);
    proof {
        assert(trim_leading_zeros(s@.subrange(a as int, d as int)) =~= s@.subrange(a as int, d as int));
        assert(w =~= s@.subrange(a as int, d as int));
        if has_frac {
            assert(trim_trailing_zeros(s@.subrange(d + 1, b as int)) =~= s@.subrange(d + 1, b as int));
            assert(f =~= s@.subrange(d + 1, b as int));
        } else {
            assert(f =~= Seq::<char>::empty());
        }
    }
    let whole_empty = a >= d;
    let frac_empty = !has_frac || b <= d + 1;
    let mut r: Vec<char> = Vec::new();
    if whole_empty && frac_empty {
        r.push('0');
        assert(r@ =~= canonical_number(s@));
        return r;
    }
    if neg {
        r.push('-');
    }
    if whole_empty {
        r.push('0');
    } else {
        let mut i = a;
        while i < d
            invariant
                a <= i <= d <= s.len(),
                r@ == (if neg { seq!['-'] } else { Seq::<char>::empty() }) + s@.subrange(a as int, i as int),
            decreases d - i,
        {
            r.push(s[i]);
            assert(s@.subrange(a as int, i + 1) =~= s@.subrange(a as int, i as int).push(s@[i as int]));
            i = i + 1;
        }
    }
    let ghost head = r@;
    if !frac_empty {
        r.push('.');
        let mut i = d + 1;
        while i < b
            invariant
                d + 1 <= i <= b <= s.len(),
                r@ == head + seq!['.'] + s@.subrange(d + 1, i as int),
            decreases b - i,
        {
            r.push(s[i]);
            assert(s@.subrange(d + 1, i + 1) =~= s@.subrange(d + 1, i as int).push(s@[i as int]));
            i = i + 1;
        }
    }
    proof {
        if frac_empty {
            assert(r@ =~= canonical_number(s@));
        } else {
            assert(r@ =~= canonical_number(s@));
        }
    }
    r
}


proof fn lemma_trimmed_starts_nonzero(s: Seq<char>)
    ensures
        trim_leading_zeros(s).len() > 0 ==> trim_leading_zeros(s)[0] != '0',
    decreases s.len(),
{
    if s.len() > 0 && s[0] == '0' {
        lemma_trimmed_starts_nonzero(s.drop_first());
    }
}

/// A number's canonical form is `0` exactly when it has no digit other than
/// zeros.
pub proof fn lemma_canonical_zero(s: Seq<char>)
    ensures
        canonical_number(s) == seq!['0'] <==> (whole_digits(s).len() == 0 && fraction_digits(s).len() == 0),
{
    let w = whole_digits(s);
    let f = fraction_digits(s);
    if !(w.len() == 0 && f.len() == 0) {
        lemma_trimmed_starts_nonzero(magnitude(s).take(first_dot(magnitude(s))));
        let c = canonical_number(s);
        if f.len() > 0 {
            assert(c.len() >= 3);
        } else if w.len() > 0 {
            assert(c.len() >= 1);
            if !is_negative(s) {
                assert(c =~= w);
                assert(c[0] != '0');
            } else {
                assert(c[0] == '-');
            }
        } else {
            assert(c.len() >= 1);
        }
        assert(c != seq!['0']) by {
            if c == seq!['0'] {
                assert(c[0] == '0');
            }
        }
    }
}

/// Writing a minus sign before a number negates it: the canonical form of
/// `-d` is that of `d` with the sign in front, except for zero, which has
/// no sign. So a nonzero number and its negation never compare equal.
pub proof fn law_minus_sign_negates(d: Seq<char>)
    requires
        !is_negative(d),
    ensures
        canonical_number(d) != seq!['0'] ==> canonical_number(seq!['-'] + d) == seq!['-'] + canonical_number(d),
        canonical_number(d) == seq!['0'] ==> canonical_number(seq!['-'] + d) == seq!['0'],
        canonical_number(d) != seq!['0'] ==> canonical_number(seq!['-'] + d) != canonical_number(d),
{
    let n = seq!['-'] + d;
    assert(is_negative(n));
    assert(magnitude(n) =~= d);
    assert(magnitude(d) == d);
    assert(whole_digits(n) == whole_digits(d));
    assert(fraction_digits(n) == fraction_digits(d));
    lemma_canonical_zero(d);
    lemma_canonical_zero(n);
    if canonical_number(d) != seq!['0'] {
        assert(canonical_number(d) =~= Seq::<char>::empty() + canonical_number(d));
        assert(canonical_number(n).len() == canonical_number(d).len() + 1);
    }
}


/// Digits only: no sign, no point.
pub open spec fn is_digit_text(d: Seq<char>) -> bool {
    forall|i: int| 0 <= i < d.len() ==> '0' <= #[trigger] d[i] <= '9'
}

proof fn lemma_first_dot_no_dot(s: Seq<char>)
    requires
        forall|i: int| 0 <= i < s.len() ==> #[trigger] s[i] != '.',
    ensures
        first_dot(s) == s.len(),
{
    lemma_first_dot(s);
}

/// Zeros that do not change a value do not change its canonical form: a
/// leading `0` before the digits, or a point with only zeros after it,
/// leaves the number as it was; so `01`, `1.0` and `1` compare equal.
pub proof fn law_redundant_zeros_ignored(d: Seq<char>)
    requires
        is_digit_text(d),
    ensures
        canonical_number(seq!['0'] + d) == canonical_number(d),
        canonical_number(d + seq!['.', '0']) == canonical_number(d),
        canonical_number(d + seq!['.']) == canonical_number(d),
{
    lemma_first_dot_no_dot(d);
    assert(!is_negative(d));
    assert(d.take(d.len() as int) =~= d);
    // a leading zero
    let z = seq!['0'] + d;
    assert(z[0] == '0');
    assert forall|i: int| 0 <= i < z.len() implies #[trigger] z[i] != '.' by {
        if i > 0 {
            assert(z[i] == d[i - 1]);
        }
    }
    lemma_first_dot_no_dot(z);
    assert(z.take(z.len() as int) =~= z);
    assert(z.drop_first() =~= d);
    assert(trim_leading_zeros(z) == trim_leading_zeros(d));
    assert(whole_digits(z) == whole_digits(d));
    assert(fraction_digits(z) == fraction_digits(d));
    // a point followed by a zero
    let p = d + seq!['.', '0'];
    lemma_first_dot(p);
    assert(p[d.len() as int] == '.');
    assert forall|i: int| 0 <= i < d.len() implies #[trigger] p[i] != '.' by {
        assert(p[i] == d[i]);
    }
    assert(first_dot(p) == d.len());
    assert(p.len() == 0 || p[0] != '-') by {
        if d.len() > 0 {
            assert(p[0] == d[0]);
        }
    }
    assert(p.take(d.len() as int) =~= d);
    assert(p.skip(d.len() as int + 1) =~= seq!['0']);
    assert(seq!['0'].drop_last() =~= Seq::<char>::empty());
    assert(trim_trailing_zeros(Seq::<char>::empty()) == Seq::<char>::empty());
    assert(seq!['0'].last() == '0');
    assert(trim_trailing_zeros(seq!['0']) == Seq::<char>::empty());
    assert(whole_digits(p) == whole_digits(d));
    assert(fraction_digits(p) == fraction_digits(d));
    // a bare point
    let q = d + seq!['.'];
    lemma_first_dot(q);
    assert(q[d.len() as int] == '.');
    assert forall|i: int| 0 <= i < d.len() implies #[trigger] q[i] != '.' by {
        assert(q[i] == d[i]);
    }
    assert(first_dot(q) == d.len());
    assert(q.len() == 0 || q[0] != '-') by {
        if d.len() > 0 {
            assert(q[0] == d[0]);
        }
    }
    assert(q.take(d.len() as int) =~= d);
    assert(q.skip(d.len() as int + 1) =~= Seq::<char>::empty());
    assert(whole_digits(q) == whole_digits(d));
    assert(fraction_digits(q) == fraction_digits(d));
}

} // verus!
