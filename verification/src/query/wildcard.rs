use vstd::prelude::*;
use crate::query::evaluator::QueryEvaluator;
use crate::text::{chars_of, ends_with, seq_starts_with, starts_with};

verus! {

/// `p` cut at every `*`: the pieces between the stars, in order. A pattern
/// with `n` stars has `n + 1` pieces, some of which may be empty.
pub open spec fn split_star(p: Seq<char>) -> Seq<Seq<char>>
    decreases p.len(),
{
    if p.len() == 0 {
        seq![Seq::empty()]
    } else {
        let before = split_star(p.drop_last());
        if p.last() == '*' {
            before.push(Seq::empty())
        } else {
            before.update(before.len() - 1, before.last().push(p.last()))
        }
    }
}

pub proof fn lemma_split_star_len(p: Seq<char>)
    ensures
        split_star(p).len() >= 1,
    decreases p.len(),
{
    if p.len() > 0 {
        lemma_split_star_len(p.drop_last());
    }
}

pub proof fn lemma_split_no_star(p: Seq<char>)
    requires
        !crate::text::has_char(p, '*'),
    ensures
        split_star(p) == seq![p],
    decreases p.len(),
{
    if p.len() > 0 {
        assert(!crate::text::has_char(p.drop_last(), '*')) by {
            if crate::text::has_char(p.drop_last(), '*') {
                let i = choose|i: int| 0 <= i < p.drop_last().len() && p.drop_last()[i] == '*';
                assert(p[i] == '*');
            }
        }
        lemma_split_no_star(p.drop_last());
        assert(p.drop_last().push(p.last()) =~= p);
        assert(p.last() != '*') by {
            assert(p[p.len() - 1] == p.last());
        }
        assert(seq![p.drop_last()].update(0, p.drop_last().push(p.last())) =~= seq![p]);
    } else {
        assert(p =~= Seq::<char>::empty());
    }
}

/// A pattern without `*` matches exactly the text equal to it.
pub proof fn law_glob_without_star(t: Seq<char>, p: Seq<char>)
    requires
        !crate::text::has_char(p, '*'),
    ensures
        glob_match(t, p) == (t == p),
{
    lemma_split_no_star(p);
}

/// The pattern `*` matches every text.
pub proof fn law_glob_star_matches_all(t: Seq<char>)
    ensures
        glob_match(t, seq!['*']),
{
    assert(seq!['*'].drop_last() =~= Seq::<char>::empty());
    assert(split_star(Seq::<char>::empty()) == seq![Seq::<char>::empty()]);
    let ps = split_star(seq!['*']);
    assert(ps =~= seq![Seq::<char>::empty(), Seq::<char>::empty()]);
    assert(t.take(0) =~= Seq::<char>::empty());
    assert(t.skip(0).skip(t.len() - 0) =~= Seq::<char>::empty());
}

/// `prefix*` (with no other star) matches exactly the texts that
/// begin with `prefix`.
pub proof fn law_glob_prefix_star(t: Seq<char>, prefix: Seq<char>)
    requires
        !crate::text::has_char(prefix, '*'),
    ensures
        glob_match(t, prefix.push('*')) == starts_with(t, prefix),
{
    lemma_split_no_star(prefix);
    assert(prefix.push('*').drop_last() =~= prefix);
    let ps = split_star(prefix.push('*'));
    assert(ps =~= seq![prefix, Seq::<char>::empty()]);
    if starts_with(t, prefix) {
        let rest = t.skip(prefix.len() as int);
        assert(rest.skip(rest.len() - 0) =~= Seq::<char>::empty());
        assert(ps.drop_first() =~= seq![Seq::<char>::empty()]);
    }
}

/// Whether `pat` occurs in `t` at position `k`.
pub open spec fn occurs_at(t: Seq<char>, k: int, pat: Seq<char>) -> bool {
    0 <= k && k + pat.len() <= t.len() && t.subrange(k, k + pat.len()) == pat
}

/// Whether `t` matches the pattern `*ps[0]*ps[1]*...*ps[n-1]`, where the
/// last piece must end the text: some choice of texts for the stars
/// rebuilds `t`.
pub open spec fn star_match(t: Seq<char>, ps: Seq<Seq<char>>) -> bool
    decreases ps.len(),
{
    if ps.len() <= 1 {
        ps.len() == 0 || ends_with(t, ps[0])
    } else {
        exists|k: int|
            #![trigger occurs_at(t, k, ps[0])]
            occurs_at(t, k, ps[0]) && star_match(t.skip(k + ps[0].len()), ps.drop_first())
    }
}

/// Glob matching where `*` stands for any run of characters (the empty
/// run too) and every other character stands for itself.
pub open spec fn glob_match(t: Seq<char>, p: Seq<char>) -> bool {
    let ps = split_star(p);
    if ps.len() == 1 {
        t == p
    } else {
        starts_with(t, ps[0]) && star_match(t.skip(ps[0].len() as int), ps.drop_first())
    }
}

/// A match of the star-led pattern in a text survives putting more text in
/// front: the leading star takes it.
pub proof fn lemma_star_match_suffix(u: Seq<char>, w: Seq<char>, ps: Seq<Seq<char>>, d: int)
    requires
        0 <= d <= w.len(),
        u == w.skip(d),
        star_match(u, ps),
    ensures
        star_match(w, ps),
    decreases ps.len(),
{
    if ps.len() <= 1 {
        if ps.len() == 1 {
            assert(w.skip(w.len() - ps[0].len()) =~= u.skip(u.len() - ps[0].len()));
        }
    } else {
        let k = choose|k: int|
            #![trigger occurs_at(u, k, ps[0])]
            occurs_at(u, k, ps[0]) && star_match(u.skip(k + ps[0].len()), ps.drop_first());
        let k2 = k + d;
        assert(w.subrange(k2, k2 + ps[0].len()) =~= u.subrange(k, k + ps[0].len()));
        assert(w.skip(k2 + ps[0].len()) =~= u.skip(k + ps[0].len()));
        assert(occurs_at(w, k2, ps[0]));
    }
}

/// Matching a star-led pattern by taking the first occurrence of its first
/// piece loses no match.
pub proof fn lemma_star_match_leftmost(t: Seq<char>, ps: Seq<Seq<char>>, k0: int)
    requires
        ps.len() >= 2,
        occurs_at(t, k0, ps[0]),
        forall|j: int| 0 <= j < k0 ==> !occurs_at(t, j, ps[0]),
    ensures
        star_match(t, ps) == star_match(t.skip(k0 + ps[0].len()), ps.drop_first()),
{
    if star_match(t, ps) {
        let k = choose|k: int|
            #![trigger occurs_at(t, k, ps[0])]
            occurs_at(t, k, ps[0]) && star_match(t.skip(k + ps[0].len()), ps.drop_first());
        assert(k >= k0);
        let w = t.skip(k0 + ps[0].len());
        let u = t.skip(k + ps[0].len());
        assert(u =~= w.skip(k - k0));
        lemma_star_match_suffix(u, w, ps.drop_first(), k - k0);
    }
}

/// With no occurrence of its first piece, a star-led pattern of two or
/// more pieces matches nothing.
pub proof fn lemma_star_match_none(t: Seq<char>, ps: Seq<Seq<char>>)
    requires
        ps.len() >= 2,
        forall|j: int| 0 <= j ==> !occurs_at(t, j, ps[0]),
    ensures
        !star_match(t, ps),
{
}

/// Index of the first occurrence of `pat` in `t` at or after `from`.
pub fn find_from(t: &Vec<char>, from: usize, pat: &Vec<char>) -> (r: Option<usize>)
    requires
        from <= t.len(),
    ensures
        match r {
            Some(k) => from <= k && occurs_at(t@, k as int, pat@) && forall|j: int|
                from <= j < k ==> !occurs_at(t@, j, pat@),
            None => forall|j: int| from <= j ==> !occurs_at(t@, j, pat@),
        },
{
    if pat.len() > t.len() {
        return None;
    }
    if pat.len() == 0 {
        assert(t@.subrange(from as int, from as int) =~= pat@);
        return Some(from);
    }
    let last = t.len() - pat.len();
    let mut k = from;
    while k <= last
        invariant
            from <= k,
            last == t.len() - pat.len(),
            1 <= pat.len() <= t.len(),
            forall|j: int| from <= j < k ==> !occurs_at(t@, j, pat@),
        decreases last + 1 - k,
    {
        let mut i: usize = 0;
        let mut same = true;
        while i < pat.len()
            invariant
                k <= last,
                last == t.len() - pat.len(),
                i <= pat.len(),
                same ==> forall|m: int| 0 <= m < i ==> t@[k + m] == pat@[m],
                !same ==> !occurs_at(t@, k as int, pat@),
            decreases pat.len() - i,
        {
            if t[k + i] != pat[i] {
                same = false;
                assert(t@.subrange(k as int, k + pat.len())[i as int] != pat@[i as int]);
            }
            i = i + 1;
        }
        if same {
            assert(t@.subrange(k as int, k + pat.len()) =~= pat@);
            return Some(k);
        }
        k = k + 1;
    }
    None
}


pub proof fn lemma_occurs_shift(t: Seq<char>, tp: int, j: int, pat: Seq<char>)
    requires
        0 <= tp <= t.len(),
    ensures
        occurs_at(t.skip(tp), j, pat) <==> (0 <= j && occurs_at(t, j + tp, pat)),
{
    if 0 <= j && j + pat.len() <= t.len() - tp {
        assert(t.skip(tp).subrange(j, j + pat.len()) =~= t.subrange(j + tp, j + tp + pat.len()));
    }
}

pub open spec fn pieces_view(v: Seq<Vec<char>>) -> Seq<Seq<char>> {
    Seq::new(v.len(), |i: int| v[i]@)
}

/// The pieces of a pattern between its stars.
pub fn split_pieces(p: &Vec<char>) -> (r: Vec<Vec<char>>)
    ensures
        pieces_view(r@) == split_star(p@),
{
    let mut parts: Vec<Vec<char>> = Vec::new();
    let mut cur: Vec<char> = Vec::new();
    let mut i: usize = 0;
    while i < p.len()
        invariant
            i <= p.len(),
            pieces_view(parts@).push(cur@) == split_star(p@.take(i as int)),
        decreases p.len() - i,
    {
        let c = p[i];
        let ghost before = split_star(p@.take(i as int));
        assert(p@.take(i + 1).drop_last() =~= p@.take(i as int));
        if c == '*' {
            let done = cur;
            parts.push(done);
            cur = Vec::new();
            assert(pieces_view(parts@).push(cur@) =~= before.push(Seq::empty()));
        } else {
            let ghost old_cur = cur@;
            cur.push(c);
            assert(pieces_view(parts@).push(cur@) =~= before.update(before.len() - 1, old_cur.push(c)));
        }
        i = i + 1;
    }
    assert(p@.take(p.len() as int) =~= p@);
    parts.push(cur);
    assert(pieces_view(parts@) =~= split_star(p@));
    parts
}

impl QueryEvaluator {
    /// Whether `text` matches the glob `pattern`, where `*` stands for any
    /// run of characters. The pieces between stars are matched left to right,
    /// each at its first occurrence.
    pub fn wildcard_match(text: &str, pattern: &str) -> (r: bool)
        ensures
            r == glob_match(text@, pattern@),
    {
        let t = chars_of(text);
        let p = chars_of(pattern);
        let parts = split_pieces(&p);
        let ghost ps = split_star(p@);
        proof {
            lemma_split_star_len(p@);
        }
        if parts.len() == 1 {
            return crate::text::str_eq(text, pattern);
        }
        let n = parts.len();
        let mut text_pos: usize = 0;
        // The first piece must begin the text.
        if parts[0].len() > 0 {
            if !seq_starts_with(&t, &parts[0]) {
                return false;
            }
            text_pos = parts[0].len();
        }
        proof {
            assert(ps.drop_first() =~= ps.skip(1));
            assert(ps[0] == parts@[0]@);
            assert(ps.len() == n);
            if parts@[0]@.len() == 0 {
                assert(t@.take(0) =~= ps[0]);
                assert(t@.skip(0) =~= t@);
            }
            assert(starts_with(t@, ps[0]));
        }
        let mut i: usize = 1;
        while i < n
            invariant
                1 <= i <= n,
                n == parts.len(),
                n >= 2,
                pieces_view(parts@) == ps,
                t@ == text@,
                ps == split_star(pattern@),
                text_pos <= t.len(),
                glob_match(text@, pattern@) == star_match(t@.skip(text_pos as int), ps.skip(i as int)),
            decreases n - i,
        {
            let part = &parts[i];
            let ghost sfx = t@.skip(text_pos as int);
            let ghost rest = ps.skip(i as int);
            assert(rest[0] == part@);
            assert(rest.drop_first() =~= ps.skip(i + 1));
            if part.len() == 0 {
                if i < n - 1 {
                    proof {
                        assert(sfx.subrange(0, 0) =~= rest[0]);
                        assert(occurs_at(sfx, 0, rest[0]));
                        lemma_star_match_leftmost(sfx, rest, 0);
                        assert(sfx.skip(0) =~= sfx);
                    }
                } else {
                    assert(sfx.skip(sfx.len() - 0) =~= rest[0]);
                }
            } else if i == n - 1 {
                let tl = t.len();
                let pl = part.len();
                let ends = pl <= tl && {
                    let mut j: usize = 0;
                    let mut same = true;
                    while j < pl
                        invariant
                            pl <= tl,
                            tl == t.len(),
                            pl == part.len(),
                            j <= pl,
                            same ==> forall|m: int| 0 <= m < j ==> t@[tl - pl + m] == part@[m],
                            !same ==> !ends_with(t@, part@),
                        decreases pl - j,
                    {
                        if t[tl - pl + j] != part[j] {
                            same = false;
                            assert(t@.skip(tl - pl)[j as int] != part@[j as int]);
                        }
                        j = j + 1;
                    }
                    if same {
                        assert(t@.skip(tl - pl) =~= part@);
                    }
                    same
                };
                if !ends {
                    assert(!ends_with(sfx, part@)) by {
                        if ends_with(sfx, part@) {
                            assert(t@.skip(t@.len() - part@.len()) =~= sfx.skip(sfx.len() - part@.len()));
                        }
                    }
                    return false;
                }
                if text_pos > t.len() - part.len() {
                    return false;
                }
                assert(sfx.skip(sfx.len() - part@.len()) =~= t@.skip(t@.len() - part@.len()));
                assert(ps.skip(i + 1).len() == 0);
            } else {
                match find_from(&t, text_pos, part) {
                    Some(k) => {
                        proof {
                            let k0 = k - text_pos;
                            lemma_occurs_shift(t@, text_pos as int, k0, part@);
                            assert forall|j: int| 0 <= j < k0 implies !occurs_at(sfx, j, rest[0]) by {
                                lemma_occurs_shift(t@, text_pos as int, j, part@);
                            }
                            lemma_star_match_leftmost(sfx, rest, k0);
                            assert(sfx.skip(k0 + part@.len()) =~= t@.skip(k + part@.len()));
                        }
                        text_pos = k + part.len();
                    },
                    None => {
                        proof {
                            assert forall|j: int| 0 <= j implies !occurs_at(sfx, j, rest[0]) by {
                                lemma_occurs_shift(t@, text_pos as int, j, part@);
                            }
                            lemma_star_match_none(sfx, rest);
                        }
                        return false;
                    },
                }
            }
            i = i + 1;
        }
        true
    }
}

/// `ws[0] + qs[0] + ws[1] + qs[1] + ...`: each piece after a star, with
/// the text that star stands for put in front of it.
pub open spec fn star_fill(qs: Seq<Seq<char>>, ws: Seq<Seq<char>>) -> Seq<char>
    decreases qs.len(),
{
    if qs.len() == 0 {
        Seq::empty()
    } else {
        ws[0] + qs[0] + star_fill(qs.drop_first(), ws.drop_first())
    }
}

/// The pattern's pieces with the `i`-th star replaced by `ws[i]`.
pub open spec fn fill_stars(p: Seq<char>, ws: Seq<Seq<char>>) -> Seq<char> {
    let ps = split_star(p);
    ps[0] + star_fill(ps.drop_first(), ws)
}

proof fn lemma_star_match_fill(u: Seq<char>, qs: Seq<Seq<char>>)
    requires
        qs.len() >= 1,
    ensures
        star_match(u, qs) <==> exists|ws: Seq<Seq<char>>| ws.len() == qs.len() && u == #[trigger] star_fill(qs, ws),
    decreases qs.len(),
{
    let q0 = qs[0];
    assert(qs.drop_first().len() == qs.len() - 1);
    if qs.len() == 1 {
        assert(star_fill(qs.drop_first(), Seq::<Seq<char>>::empty()) == Seq::<char>::empty());
        if star_match(u, qs) {
            let w = u.take(u.len() - q0.len());
            let ws = seq![w];
            assert(star_fill(qs.drop_first(), ws.drop_first()) == Seq::<char>::empty());
            assert(u =~= w + q0 + Seq::<char>::empty());
            assert(u == star_fill(qs, ws));
        }
        if exists|ws: Seq<Seq<char>>| ws.len() == qs.len() && u == #[trigger] star_fill(qs, ws) {
            let ws = choose|ws: Seq<Seq<char>>| ws.len() == qs.len() && u == #[trigger] star_fill(qs, ws);
            assert(star_fill(qs.drop_first(), ws.drop_first()) == Seq::<char>::empty());
            assert(u =~= ws[0] + q0);
            assert(u.skip(u.len() - q0.len()) =~= q0);
        }
    } else {
        let tail = qs.drop_first();
        if star_match(u, qs) {
            let k = choose|k: int|
                #![trigger occurs_at(u, k, qs[0])]
                occurs_at(u, k, qs[0]) && star_match(u.skip(k + qs[0].len()), qs.drop_first());
            let rest = u.skip(k + q0.len());
            lemma_star_match_fill(rest, tail);
            let ws1 = choose|ws: Seq<Seq<char>>| ws.len() == tail.len() && rest == #[trigger] star_fill(tail, ws);
            let ws = seq![u.take(k)] + ws1;
            assert(ws.drop_first() =~= ws1);
            assert(u =~= u.take(k) + q0 + rest);
            assert(u == star_fill(qs, ws));
        }
        if exists|ws: Seq<Seq<char>>| ws.len() == qs.len() && u == #[trigger] star_fill(qs, ws) {
            let ws = choose|ws: Seq<Seq<char>>| ws.len() == qs.len() && u == #[trigger] star_fill(qs, ws);
            let rest = star_fill(tail, ws.drop_first());
            let k = ws[0].len() as int;
            assert(u =~= ws[0] + q0 + rest);
            assert(u.subrange(k, k + q0.len()) =~= q0);
            assert(occurs_at(u, k, qs[0]));
            assert(u.skip(k + q0.len()) =~= rest);
            lemma_star_match_fill(rest, tail);
            assert(star_match(u.skip(k + qs[0].len()), qs.drop_first()));
        }
    }
}

proof fn lemma_split_one_piece(p: Seq<char>)
    ensures
        split_star(p).len() == 1 ==> split_star(p)[0] == p,
    decreases p.len(),
{
    if p.len() > 0 {
        lemma_split_star_len(p.drop_last());
        lemma_split_one_piece(p.drop_last());
        if p.last() != '*' && split_star(p).len() == 1 {
            assert(p.drop_last().push(p.last()) =~= p);
        }
    } else {
        assert(p =~= Seq::<char>::empty());
    }
}

/// A text matches a pattern exactly when it is the pattern with each `*`
/// replaced by some text (the empty text too), every other character
/// standing for itself.
pub proof fn law_glob_is_star_substitution(t: Seq<char>, p: Seq<char>)
    ensures
        glob_match(t, p) <==> exists|ws: Seq<Seq<char>>|
            ws.len() == split_star(p).len() - 1 && t == #[trigger] fill_stars(p, ws),
{
    let ps = split_star(p);
    lemma_split_star_len(p);
    if ps.len() == 1 {
        assert(star_fill(ps.drop_first(), Seq::<Seq<char>>::empty()) == Seq::<char>::empty());
        assert(ps[0] + Seq::<char>::empty() =~= ps[0]);
        lemma_split_one_piece(p);
        if glob_match(t, p) {
            assert(t == fill_stars(p, Seq::<Seq<char>>::empty()));
        }
        if exists|ws: Seq<Seq<char>>| ws.len() == ps.len() - 1 && t == #[trigger] fill_stars(p, ws) {
            let ws = choose|ws: Seq<Seq<char>>| ws.len() == ps.len() - 1 && t == #[trigger] fill_stars(p, ws);
            assert(ws =~= Seq::<Seq<char>>::empty());
        }
    } else {
        let qs = ps.drop_first();
        let u = t.skip(ps[0].len() as int);
        lemma_star_match_fill(u, qs);
        if glob_match(t, p) {
            let ws = choose|ws: Seq<Seq<char>>| ws.len() == qs.len() && u == #[trigger] star_fill(qs, ws);
            assert(t =~= ps[0] + u);
            assert(t == fill_stars(p, ws));
        }
        if exists|ws: Seq<Seq<char>>| ws.len() == ps.len() - 1 && t == #[trigger] fill_stars(p, ws) {
            let ws = choose|ws: Seq<Seq<char>>| ws.len() == ps.len() - 1 && t == #[trigger] fill_stars(p, ws);
            assert(t.take(ps[0].len() as int) =~= ps[0]);
            assert(u =~= star_fill(qs, ws));
        }
    }
}

/// As many star texts as a pattern has stars, each the star itself.
pub open spec fn star_texts(n: int) -> Seq<Seq<char>> {
    Seq::new(n as nat, |i: int| seq!['*'])
}

proof fn lemma_star_fill_push(qs: Seq<Seq<char>>, ws: Seq<Seq<char>>, q: Seq<char>, w: Seq<char>)
    requires
        ws.len() == qs.len(),
    ensures
        star_fill(qs.push(q), ws.push(w)) == star_fill(qs, ws) + w + q,
    decreases qs.len(),
{
    assert(star_fill(qs.push(q), ws.push(w)) == ws.push(w)[0] + qs.push(q)[0] + star_fill(
        qs.push(q).drop_first(),
        ws.push(w).drop_first(),
    ));
    if qs.len() == 0 {
        assert(qs.push(q).drop_first() =~= Seq::<Seq<char>>::empty());
        assert(star_fill(qs.push(q).drop_first(), ws.push(w).drop_first()) == Seq::<char>::empty());
        assert(star_fill(qs, ws) == Seq::<char>::empty());
        assert(w + q + Seq::<char>::empty() =~= Seq::<char>::empty() + w + q);
    } else {
        assert(qs.push(q).drop_first() =~= qs.drop_first().push(q));
        assert(ws.push(w).drop_first() =~= ws.drop_first().push(w));
        lemma_star_fill_push(qs.drop_first(), ws.drop_first(), q, w);
        assert(ws[0] + qs[0] + (star_fill(qs.drop_first(), ws.drop_first()) + w + q) =~= ws[0] + qs[0]
            + star_fill(qs.drop_first(), ws.drop_first()) + w + q);
    }
}

proof fn lemma_star_fill_extend_last(qs: Seq<Seq<char>>, ws: Seq<Seq<char>>, c: char)
    requires
        qs.len() >= 1,
        ws.len() == qs.len(),
    ensures
        star_fill(qs.update(qs.len() - 1, qs.last().push(c)), ws) == star_fill(qs, ws).push(c),
    decreases qs.len(),
{
    let qs2 = qs.update(qs.len() - 1, qs.last().push(c));
    assert(star_fill(qs2, ws) == ws[0] + qs2[0] + star_fill(qs2.drop_first(), ws.drop_first()));
    assert(star_fill(qs, ws) == ws[0] + qs[0] + star_fill(qs.drop_first(), ws.drop_first()));
    if qs.len() == 1 {
        assert(qs2.drop_first() =~= Seq::<Seq<char>>::empty());
        assert(qs.drop_first() =~= Seq::<Seq<char>>::empty());
        assert(star_fill(qs2.drop_first(), ws.drop_first()) == Seq::<char>::empty());
        assert(star_fill(qs.drop_first(), ws.drop_first()) == Seq::<char>::empty());
        assert(ws[0] + qs[0].push(c) + Seq::<char>::empty() =~= (ws[0] + qs[0] + Seq::<char>::empty()).push(c));
    } else {
        let t = qs.drop_first();
        assert(qs2.drop_first() =~= t.update(t.len() - 1, t.last().push(c)));
        lemma_star_fill_extend_last(t, ws.drop_first(), c);
        assert(ws[0] + qs[0] + star_fill(t, ws.drop_first()).push(c) =~= (ws[0] + qs[0] + star_fill(
            t,
            ws.drop_first(),
        )).push(c));
    }
}

/// Putting a star back for each star rebuilds the pattern: the pieces are
/// what lies between the stars.
pub proof fn law_pieces_rebuild_pattern(p: Seq<char>)
    ensures
        fill_stars(p, star_texts(split_star(p).len() - 1)) == p,
    decreases p.len(),
{
    lemma_split_star_len(p);
    if p.len() == 0 {
        assert(split_star(p) == seq![Seq::<char>::empty()]);
        assert(split_star(p).drop_first() =~= Seq::<Seq<char>>::empty());
        assert(Seq::<char>::empty() + Seq::<char>::empty() =~= p);
    } else {
        let q = p.drop_last();
        let before = split_star(q);
        lemma_split_star_len(q);
        law_pieces_rebuild_pattern(q);
        let n = before.len() - 1;
        let sw = star_texts(n);
        assert(fill_stars(q, sw) == q);
        assert(q.push(p.last()) =~= p);
        if p.last() == '*' {
            let ps = before.push(Seq::<char>::empty());
            assert(ps.drop_first() =~= before.drop_first().push(Seq::<char>::empty()));
            assert(star_texts(n + 1) =~= sw.push(seq!['*']));
            lemma_star_fill_push(before.drop_first(), sw, Seq::<char>::empty(), seq!['*']);
            assert(ps[0] == before[0]);
            assert(before[0] + (star_fill(before.drop_first(), sw) + seq!['*'] + Seq::<char>::empty()) =~= (
            before[0] + star_fill(before.drop_first(), sw)).push('*'));
        } else {
            let ps = before.update(before.len() - 1, before.last().push(p.last()));
            if before.len() == 1 {
                assert(ps.drop_first() =~= Seq::<Seq<char>>::empty());
                assert(before.drop_first() =~= Seq::<Seq<char>>::empty());
                assert(sw =~= Seq::<Seq<char>>::empty());
                assert(before[0] + Seq::<char>::empty() =~= before[0]);
                assert(ps[0] + Seq::<char>::empty() =~= q.push(p.last()));
            } else {
                let t = before.drop_first();
                assert(ps.drop_first() =~= t.update(t.len() - 1, t.last().push(p.last())));
                lemma_star_fill_extend_last(t, sw, p.last());
                assert(ps[0] == before[0]);
                assert(before[0] + star_fill(t, sw).push(p.last()) =~= (before[0] + star_fill(t, sw)).push(
                    p.last(),
                ));
            }
        }
    }
}

} // verus!
