use vstd::prelude::*;
use vstd::string::*;

verus! {

/// Whether two string slices hold the same characters.
///
/// Trusted: calls `<str as PartialEq>::eq`, which std documents as
/// comparing the two strings for equality of contents.
#[verifier::external_body]
pub(crate) fn str_eq(a: &str, b: &str) -> (r: bool)
    ensures
        r == (a@ == b@),
{
    a == b
}

/// Appends one character.
///
/// Trusted: calls `String::push`, which std documents as appending the
/// given character to the end of the string.
#[verifier::external_body]
pub(crate) fn push_char(s: &mut String, c: char)
    ensures
        final(s)@ == old(s)@.push(c),
{
    s.push(c);
}

/// The characters of a string slice, in order.
pub fn chars_of(s: &str) -> (r: Vec<char>)
    ensures
        r@ == s@,
{
    let mut r: Vec<char> = Vec::new();
    for c in it: s.chars()
        invariant
            r@ == it.seq().take(it.index() as int),
            it.seq() == s@,
    {
        r.push(c);
    }
    r
}


/// Builds a `String` holding exactly the given characters.
pub fn string_of(cs: &Vec<char>) -> (r: String)
    ensures
        r@ == cs@,
{
    let mut r = String::new();
    let mut i: usize = 0;
    while i < cs.len()
        invariant
            i <= cs.len(),
            r@ == cs@.take(i as int),
        decreases cs.len() - i,
    {
        push_char(&mut r, cs[i]);
        assert(cs@.take(i + 1) =~= cs@.take(i as int).push(cs@[i as int]));
        i = i + 1;
    }
    assert(cs@.take(cs.len() as int) =~= cs@);
    r
}

/// A new `String` with the characters of a string slice.
pub fn owned(s: &str) -> (r: String)
    ensures
        r@ == s@,
{
    String::from_str(s)
}

/// `a` followed by `b`.
pub fn concat2(a: &str, b: &str) -> (r: String)
    ensures
        r@ == a@ + b@,
{
    let mut r = String::from_str(a);
    r.append(b);
    r
}

/// `a`, `b` and `c` one after another.
pub fn concat3(a: &str, b: &str, c: &str) -> (r: String)
    ensures
        r@ == a@ + b@ + c@,
{
    let mut r = String::from_str(a);
    r.append(b);
    r.append(c);
    r
}

/// Whether `s` begins with `prefix`.
pub open spec fn starts_with(s: Seq<char>, prefix: Seq<char>) -> bool {
    prefix.len() <= s.len() && s.take(prefix.len() as int) == prefix
}

/// Whether `s` ends with `suffix`.
pub open spec fn ends_with(s: Seq<char>, suffix: Seq<char>) -> bool {
    suffix.len() <= s.len() && s.skip(s.len() - suffix.len()) == suffix
}

/// Whether `s` holds `c` somewhere.
pub open spec fn has_char(s: Seq<char>, c: char) -> bool {
    exists|i: int| 0 <= i < s.len() && s[i] == c
}

pub fn seq_starts_with(s: &Vec<char>, prefix: &Vec<char>) -> (r: bool)
    ensures
        r == starts_with(s@, prefix@),
{
    if prefix.len() > s.len() {
        return false;
    }
    let mut i: usize = 0;
    while i < prefix.len()
        invariant
            prefix.len() <= s.len(),
            i <= prefix.len(),
            forall|j: int| 0 <= j < i ==> s@[j] == prefix@[j],
        decreases prefix.len() - i,
    {
        if s[i] != prefix[i] {
            assert(s@.take(prefix.len() as int)[i as int] != prefix@[i as int]);
            return false;
        }
        i = i + 1;
    }
    assert(s@.take(prefix.len() as int) =~= prefix@);
    true
}

/// Whether the string `s` begins with `prefix`.
pub fn str_starts_with(s: &str, prefix: &str) -> (r: bool)
    ensures
        r == starts_with(s@, prefix@),
{
    let a = chars_of(s);
    let b = chars_of(prefix);
    seq_starts_with(&a, &b)
}

/// Whether the string `s` holds the character `c`.
pub fn str_has_char(s: &str, c: char) -> (r: bool)
    ensures
        r == has_char(s@, c),
{
    let cs = chars_of(s);
    let mut i: usize = 0;
    while i < cs.len()
        invariant
            i <= cs.len(),
            cs@ == s@,
            forall|j: int| 0 <= j < i ==> cs@[j] != c,
        decreases cs.len() - i,
    {
        if cs[i] == c {
            return true;
        }
        i = i + 1;
    }
    false
}

/// Whether `c` has the Unicode `White_Space` property.
pub uninterp spec fn unicode_whitespace(c: char) -> bool;

/// Whether `c` has the Unicode `Alphabetic` property.
pub uninterp spec fn unicode_alphabetic(c: char) -> bool;

/// Whether `c` has one of the Unicode numeric general categories
/// (`Nd`, `Nl`, `No`).
pub uninterp spec fn unicode_numeric(c: char) -> bool;

/// Trusted: calls `char::is_whitespace`; the result is named by
/// `unicode_whitespace`, a property of the character alone.
#[verifier::external_body]
pub(crate) fn is_whitespace(c: char) -> (r: bool)
    ensures
        r == unicode_whitespace(c),
{
    c.is_whitespace()
}

/// Trusted: calls `char::is_alphabetic`; the result is named by
/// `unicode_alphabetic`, a property of the character alone.
#[verifier::external_body]
pub(crate) fn is_alphabetic(c: char) -> (r: bool)
    ensures
        r == unicode_alphabetic(c),
{
    c.is_alphabetic()
}

/// Trusted: calls `char::is_alphanumeric`, which std documents as
/// `is_alphabetic() || is_numeric()`; the numeric part is named by
/// `unicode_numeric`, a property of the character alone.
#[verifier::external_body]
pub(crate) fn is_alphanumeric(c: char) -> (r: bool)
    ensures
        r == (unicode_alphabetic(c) || unicode_numeric(c)),
{
    c.is_alphanumeric()
}

pub open spec fn is_ascii_digit(c: char) -> bool {
    '0' <= c && c <= '9'
}


/// The lowercase form of a string, as `str::to_lowercase` gives it.
pub uninterp spec fn lowercase_of(s: Seq<char>) -> Seq<char>;

pub open spec fn ascii_lower_char(c: char) -> char {
    if 'A' <= c && c <= 'Z' {
        ((c as u32) + 32) as char
    } else {
        c
    }
}

pub open spec fn is_ascii_text(s: Seq<char>) -> bool {
    forall|i: int| 0 <= i < s.len() ==> (s[i] as u32) < 128
}

pub open spec fn ascii_lower(s: Seq<char>) -> Seq<char> {
    Seq::new(s.len(), |i: int| ascii_lower_char(s[i]))
}

/// Trusted: calls `str::to_lowercase`. Its result is named by
/// `lowercase_of`, a function of the text alone (std defines it by the
/// Unicode `Lowercase` mapping); on ASCII text that mapping turns `A`..`Z`
/// into `a`..`z` and keeps every other character, which the contract
/// states. Nothing else about non-ASCII text is stated.
#[verifier::external_body]
pub(crate) fn to_lowercase(s: &str) -> (r: String)
    ensures
        r@ == lowercase_of(s@),
        is_ascii_text(s@) ==> r@ == ascii_lower(s@),
{
    s.to_lowercase()
}

/// `s` with every `a` and every `b` replaced by `to`.
pub open spec fn replace_two(s: Seq<char>, a: char, b: char, to: char) -> Seq<char> {
    Seq::new(s.len(), |i: int| if s[i] == a || s[i] == b { to } else { s[i] })
}

pub fn replace_chars(s: &str, a: char, b: char, to: char) -> (r: String)
    ensures
        r@ == replace_two(s@, a, b, to),
{
    let cs = chars_of(s);
    let mut out: Vec<char> = Vec::new();
    let mut i: usize = 0;
    while i < cs.len()
        invariant
            i <= cs.len(),
            cs@ == s@,
            out@ == replace_two(cs@, a, b, to).take(i as int),
        decreases cs.len() - i,
    {
        let c = cs[i];
        if c == a || c == b {
            out.push(to);
        } else {
            out.push(c);
        }
        assert(out@ =~= replace_two(cs@, a, b, to).take(i + 1));
        i = i + 1;
    }
    assert(replace_two(cs@, a, b, to).take(cs.len() as int) =~= replace_two(cs@, a, b, to));
    string_of(&out)
}

/// The part of `s` after its last `/`; all of `s` when it has none.
pub open spec fn after_last_slash(s: Seq<char>) -> Seq<char>
    decreases s.len(),
{
    if s.len() == 0 {
        s
    } else if s.last() == '/' {
        Seq::empty()
    } else {
        after_last_slash(s.drop_last()).push(s.last())
    }
}

pub fn last_path_segment(s: &str) -> (r: String)
    ensures
        r@ == after_last_slash(s@),
{
    let cs = chars_of(s);
    let mut start: usize = cs.len();
    assert(cs@.take(cs.len() as int) =~= cs@);
    assert(cs@.subrange(cs.len() as int, cs.len() as int) =~= Seq::<char>::empty());
    while start > 0 && cs[start - 1] != '/'
        invariant
            start <= cs.len(),
            cs@ == s@,
            after_last_slash(cs@) == after_last_slash(cs@.take(start as int)) + cs@.subrange(
                start as int,
                cs.len() as int,
            ),
        decreases start,
    {
        assert(cs@.take(start as int).drop_last() =~= cs@.take(start - 1));
        assert(cs@.take(start as int).last() == cs@[start - 1]);
        assert(cs@.subrange(start - 1, cs.len() as int) =~= seq![cs@[start - 1]] + cs@.subrange(
            start as int,
            cs.len() as int,
        ));
        assert(after_last_slash(cs@.take(start - 1)).push(cs@[start - 1]) + cs@.subrange(
            start as int,
            cs.len() as int,
        ) =~= after_last_slash(cs@.take(start - 1)) + cs@.subrange(start - 1, cs.len() as int));
        start = start - 1;
    }
    if start > 0 {
        assert(cs@.take(start as int).last() == cs@[start - 1]);
    } else {
        assert(cs@.take(0) =~= Seq::<char>::empty());
    }
    let mut out: Vec<char> = Vec::new();
    let mut i: usize = start;
    while i < cs.len()
        invariant
            start <= i <= cs.len(),
            out@ == cs@.subrange(start as int, i as int),
        decreases cs.len() - i,
    {
        out.push(cs[i]);
        assert(out@ =~= cs@.subrange(start as int, i + 1));
        i = i + 1;
    }
    assert(Seq::<char>::empty() + out@ =~= out@);
    string_of(&out)
}


/// The decimal digit of a number below ten.
pub open spec fn digit_char(d: nat) -> char {
    if d == 0 {
        '0'
    } else if d == 1 {
        '1'
    } else if d == 2 {
        '2'
    } else if d == 3 {
        '3'
    } else if d == 4 {
        '4'
    } else if d == 5 {
        '5'
    } else if d == 6 {
        '6'
    } else if d == 7 {
        '7'
    } else if d == 8 {
        '8'
    } else {
        '9'
    }
}

/// The decimal text of a natural number, without leading zeros.
pub open spec fn nat_text(n: nat) -> Seq<char>
    decreases n,
{
    if n < 10 {
        seq![digit_char(n)]
    } else {
        nat_text(n / 10).push(digit_char(n % 10))
    }
}

/// The decimal text of an integer, with a leading `-` when negative.
pub open spec fn int_text(n: int) -> Seq<char> {
    if n < 0 {
        seq!['-'] + nat_text((-n) as nat)
    } else {
        nat_text(n as nat)
    }
}

fn digit_of(d: u64) -> (c: char)
    requires
        d < 10,
    ensures
        c == digit_char(d as nat),
{
    if d == 0 {
        '0'
    } else if d == 1 {
        '1'
    } else if d == 2 {
        '2'
    } else if d == 3 {
        '3'
    } else if d == 4 {
        '4'
    } else if d == 5 {
        '5'
    } else if d == 6 {
        '6'
    } else if d == 7 {
        '7'
    } else if d == 8 {
        '8'
    } else {
        '9'
    }
}

fn push_digits(out: &mut Vec<char>, n: u64)
    ensures
        final(out)@ == old(out)@ + nat_text(n as nat),
    decreases n,
{
    if n < 10 {
        out.push(digit_of(n));
        assert(nat_text(n as nat) == seq![digit_char(n as nat)]);
    } else {
        push_digits(out, n / 10);
        out.push(digit_of(n % 10));
    }
}

/// The decimal text of a signed integer.
pub fn i64_text(n: i64) -> (r: String)
    ensures
        r@ == int_text(n as int),
{
    let mut cs: Vec<char> = Vec::new();
    if n < 0 {
        cs.push('-');
        let m: u64 = if n == i64::MIN {
            9223372036854775808u64
        } else {
            (-n) as u64
        };
        push_digits(&mut cs, m);
    } else {
        push_digits(&mut cs, n as u64);
    }
    string_of(&cs)
}

/// Whether `pat` occurs in `t` at position `k`.
pub open spec fn found_at(t: Seq<char>, k: int, pat: Seq<char>) -> bool {
    0 <= k && k + pat.len() <= t.len() && t.subrange(k, k + pat.len()) == pat
}

/// Whether `pat` occurs anywhere in `t`.
pub open spec fn contains_text(t: Seq<char>, pat: Seq<char>) -> bool {
    exists|k: int| found_at(t, k, pat)
}

/// The last position below `n` where `pat` occurs in `t`.
pub open spec fn last_found_below(t: Seq<char>, pat: Seq<char>, n: int) -> Option<int>
    decreases n,
{
    if n <= 0 {
        None
    } else if found_at(t, n - 1, pat) {
        Some(n - 1)
    } else {
        last_found_below(t, pat, n - 1)
    }
}

/// The last position where `pat` occurs in `t`, as `str::rfind` gives it.
pub open spec fn rfind_spec(t: Seq<char>, pat: Seq<char>) -> Option<int> {
    last_found_below(t, pat, t.len() + 1int)
}

/// Whether `pat` occurs in `t` at position `k`.
pub fn found_at_exec(t: &Vec<char>, k: usize, pat: &Vec<char>) -> (r: bool)
    ensures
        r == found_at(t@, k as int, pat@),
{
    if pat.len() > t.len() || k > t.len() - pat.len() {
        return false;
    }
    let mut i: usize = 0;
    while i < pat.len()
        invariant
            k + pat.len() <= t.len(),
            i <= pat.len(),
            forall|m: int| 0 <= m < i ==> t@[k + m] == pat@[m],
        decreases pat.len() - i,
    {
        if t[k + i] != pat[i] {
            assert(t@.subrange(k as int, k + pat.len())[i as int] != pat@[i as int]);
            return false;
        }
        i = i + 1;
    }
    assert(t@.subrange(k as int, k + pat.len()) =~= pat@);
    true
}

proof fn lemma_last_found_none(t: Seq<char>, pat: Seq<char>, n: int)
    requires
        n >= 0,
        forall|j: int| 0 <= j < n ==> !found_at(t, j, pat),
    ensures
        last_found_below(t, pat, n) is None,
    decreases n,
{
    if n > 0 {
        lemma_last_found_none(t, pat, n - 1);
    }
}

/// The last position where `pat` occurs in `t`.
pub fn rfind_exec(t: &Vec<char>, pat: &Vec<char>) -> (r: Option<usize>)
    ensures
        match r {
            Some(k) => rfind_spec(t@, pat@) == Some(k as int),
            None => rfind_spec(t@, pat@) is None,
        },
{
    let mut k: usize = t.len();
    loop
        invariant
            k <= t.len(),
            rfind_spec(t@, pat@) == last_found_below(t@, pat@, k + 1),
        decreases k,
    {
        if found_at_exec(t, k, pat) {
            return Some(k);
        }
        if k == 0 {
            proof {
                lemma_last_found_none(t@, pat@, 0);
            }
            return None;
        }
        k = k - 1;
    }
}

/// Whether `pat` occurs anywhere in `t`.
pub fn contains_exec(t: &str, pat: &str) -> (r: bool)
    ensures
        r == contains_text(t@, pat@),
{
    let tc = chars_of(t);
    let pc = chars_of(pat);
    match rfind_exec(&tc, &pc) {
        Some(k) => {
            proof {
                lemma_last_found_some(tc@, pc@, tc@.len() + 1int);
            }
            true
        },
        None => {
            proof {
                lemma_last_found_is_none(tc@, pc@, tc@.len() + 1int);
            }
            false
        },
    }
}

pub proof fn lemma_last_found_some(t: Seq<char>, pat: Seq<char>, n: int)
    ensures
        last_found_below(t, pat, n) matches Some(k) ==> found_at(t, k, pat),
    decreases n,
{
    if n > 0 && !found_at(t, n - 1, pat) {
        lemma_last_found_some(t, pat, n - 1);
    }
}

proof fn lemma_last_found_is_none(t: Seq<char>, pat: Seq<char>, n: int)
    requires
        n == t.len() + 1,
        last_found_below(t, pat, n) is None,
    ensures
        !contains_text(t, pat),
{
    lemma_none_below(t, pat, n);
}

proof fn lemma_none_below(t: Seq<char>, pat: Seq<char>, n: int)
    requires
        last_found_below(t, pat, n) is None,
    ensures
        forall|j: int| 0 <= j < n ==> !found_at(t, j, pat),
    decreases n,
{
    if n > 0 {
        lemma_none_below(t, pat, n - 1);
    }
}

/// The decimal text of an unsigned integer.
pub fn u64_text(n: u64) -> (r: String)
    ensures
        r@ == nat_text(n as nat),
{
    let mut cs: Vec<char> = Vec::new();
    push_digits(&mut cs, n);
    assert(cs@ =~= Seq::<char>::empty() + nat_text(n as nat));
    string_of(&cs)
}

} // verus!
