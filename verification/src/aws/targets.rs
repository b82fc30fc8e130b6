use vstd::prelude::*;
use crate::aws::progress::{done_message, events_view, next_count, percent_spec, scanning_message, ScanProgress};
use crate::json::{insert_entry, insert_spec, jv_entries, jv_list, lemma_jv_list, Json, JsonV};

verus! {

/// What scanning one target gave: nothing, because the request does not
/// ask for it; its records; or the error of its listing.
pub enum TargetOutcome {
    Off,
    Listed(Vec<Json>),
    Failed(String),
}

/// A target's outcome, by its view.
pub enum OutcomeV {
    Off,
    Listed(Seq<JsonV>),
    Failed(Seq<char>),
}

pub open spec fn outcome_view(o: TargetOutcome) -> OutcomeV {
    match o {
        TargetOutcome::Off => OutcomeV::Off,
        TargetOutcome::Listed(v) => OutcomeV::Listed(jv_list(v@)),
        TargetOutcome::Failed(e) => OutcomeV::Failed(e@),
    }
}

/// A listing's result, by its view.
pub open spec fn listed_view(r: Result<Vec<Json>, String>) -> Result<Seq<JsonV>, Seq<char>> {
    match r {
        Ok(v) => Ok(jv_list(v@)),
        Err(e) => Err(e@),
    }
}

/// The outcome of a target: off when the request does not ask for it,
/// otherwise what its listing gave.
pub open spec fn outcome_of(on: bool, r: Result<Seq<JsonV>, Seq<char>>) -> OutcomeV {
    if !on {
        OutcomeV::Off
    } else {
        match r {
            Ok(v) => OutcomeV::Listed(v),
            Err(e) => OutcomeV::Failed(e),
        }
    }
}

/// What a scan has written so far: the result's entries, the progress
/// reports, and the number of finished targets.
pub type ScanStateV = (Seq<(Seq<char>, JsonV)>, Seq<(u32, Seq<char>)>, usize);

/// The targets (result key and progress label) as sequences of characters.
pub open spec fn targets_view(ts: Seq<(&str, &str)>) -> Seq<(Seq<char>, Seq<char>)> {
    ts.map_values(|t: (&str, &str)| (t.0@, t.1@))
}

/// The error of a scan step, if it failed.
pub open spec fn error_of(r: Result<(), String>) -> Option<Seq<char>> {
    match r {
        Ok(_) => None,
        Err(e) => Some(e@),
    }
}

/// Scanning targets in order, out of `total` targets in all: a target that
/// is off gets an empty list under its key; a listed one reports its start,
/// gets its records under its key, counts as finished and reports how many
/// records it gave; a failed one reports its start and ends the scan with
/// its error, writing nothing more.
pub open spec fn targets_spec(
    s: ScanStateV,
    total: usize,
    ts: Seq<(Seq<char>, Seq<char>)>,
    os: Seq<OutcomeV>,
) -> (ScanStateV, Option<Seq<char>>)
    decreases ts.len(),
{
    if ts.len() == 0 || os.len() == 0 {
        (s, None)
    } else {
        let key = ts[0].0;
        let label = ts[0].1;
        let started = s.1.push((percent_spec(s.2 as int, total as int), scanning_message(label)));
        match os[0] {
            OutcomeV::Off => targets_spec(
                (insert_spec(s.0, key, JsonV::Array(Seq::empty())), s.1, s.2),
                total,
                ts.drop_first(),
                os.drop_first(),
            ),
            OutcomeV::Failed(m) => ((s.0, started, s.2), Some(m)),
            OutcomeV::Listed(v) => {
                let c = next_count(s.2);
                targets_spec(
                    (
                        insert_spec(s.0, key, JsonV::Array(v)),
                        started.push((percent_spec(c as int, total as int), done_message(label, v.len()))),
                        c,
                    ),
                    total,
                    ts.drop_first(),
                    os.drop_first(),
                )
            },
        }
    }
}

/// The outcome of a target from whether it is on and what its listing gave.
pub fn outcome(on: bool, r: Result<Vec<Json>, String>) -> (o: TargetOutcome)
    ensures
        outcome_view(o) == outcome_of(on, listed_view(r)),
{
    if !on {
        TargetOutcome::Off
    } else {
        match r {
            Ok(v) => TargetOutcome::Listed(v),
            Err(e) => TargetOutcome::Failed(e),
        }
    }
}

/// Writes the outcomes of the targets, in order, into a scan result and
/// its progress, stopping at the first failed target.
pub fn record_targets(
    results: &mut Vec<(String, Json)>,
    progress: &mut ScanProgress,
    targets: &Vec<(&str, &str)>,
    outcomes: Vec<TargetOutcome>,
) -> (r: Result<(), String>)
    ensures
        final(progress).total == old(progress).total,
        targets_spec(
            (jv_entries(old(results)@), events_view(old(progress).events@), old(progress).completed),
            old(progress).total,
            targets_view(targets@),
            outcomes@.map_values(|o: TargetOutcome| outcome_view(o)),
        ) == ((jv_entries(final(results)@), events_view(final(progress).events@), final(progress).completed), error_of(r)),
{
    let ghost ts = targets_view(targets@);
    let ghost os = outcomes@.map_values(|o: TargetOutcome| outcome_view(o));
    let ghost total = progress.total;
    let ghost goal = targets_spec(
        (jv_entries(results@), events_view(progress.events@), progress.completed),
        total,
        ts,
        os,
    );
    let mut outs = outcomes;
    let mut i: usize = 0;
    assert(ts.skip(0) =~= ts);
    assert(os.skip(0) =~= os);
    while i < targets.len() && outs.len() > 0
        invariant
            i <= targets.len(),
            ts == targets_view(targets@),
            ts.len() == targets@.len(),
            i <= os.len(),
            outs@.map_values(|o: TargetOutcome| outcome_view(o)) == os.skip(i as int),
            progress.total == total,
            total == old(progress).total,
            os == outcomes@.map_values(|o: TargetOutcome| outcome_view(o)),
            goal == targets_spec(
                (jv_entries(old(results)@), events_view(old(progress).events@), old(progress).completed),
                old(progress).total,
                ts,
                os,
            ),
            goal == targets_spec(
                (jv_entries(results@), events_view(progress.events@), progress.completed),
                total,
                ts.skip(i as int),
                os.skip(i as int),
            ),
        decreases targets.len() - i,
    {
        let ghost before = (jv_entries(results@), events_view(progress.events@), progress.completed);
        let ghost rest = os.skip(i as int);
        assert(rest[0] == outcome_view(outs@[0]));
        assert(ts.skip(i as int)[0] == ts[i as int]);
        assert(ts.skip(i as int).drop_first() =~= ts.skip(i + 1));
        assert(rest.drop_first() =~= os.skip(i + 1));
        let o = outs.remove(0);
        assert(outs@.map_values(|o: TargetOutcome| outcome_view(o)) =~= os.skip(i + 1));
        let key = targets[i].0;
        let label = targets[i].1;
        match o {
            TargetOutcome::Off => {
                insert_entry(results, key, Json::Array(Vec::new()));
                assert(jv_list(Seq::<Json>::empty()) =~= Seq::<JsonV>::empty());
            },
            TargetOutcome::Failed(e) => {
                progress.start(label);
                return Err(e);
            },
            TargetOutcome::Listed(v) => {
                progress.start(label);
                let n = v.len();
                proof {
                    lemma_jv_list(v@);
                }
                insert_entry(results, key, Json::Array(v));
                progress.finish(label, n);
            },
        }
        i = i + 1;
    }
    assert(ts.skip(i as int).len() == 0 || os.skip(i as int).len() == 0);
    Ok(())
}

/// The list a target's outcome puts under its key.
pub open spec fn list_of(o: OutcomeV) -> JsonV {
    match o {
        OutcomeV::Listed(v) => JsonV::Array(v),
        _ => JsonV::Array(Seq::empty()),
    }
}

/// The entries after putting each target's list under its key, in order.
pub open spec fn inserts(e: Seq<(Seq<char>, JsonV)>, ts: Seq<(Seq<char>, Seq<char>)>, os: Seq<OutcomeV>) -> Seq<
    (Seq<char>, JsonV),
>
    decreases ts.len(),
{
    if ts.len() == 0 || os.len() == 0 {
        e
    } else {
        inserts(insert_spec(e, ts[0].0, list_of(os[0])), ts.drop_first(), os.drop_first())
    }
}

/// The finished count after counting each listed target once more.
pub open spec fn count_listed(c: usize, os: Seq<OutcomeV>) -> usize
    decreases os.len(),
{
    if os.len() == 0 {
        c
    } else {
        count_listed(if os[0] is Listed { next_count(c) } else { c }, os.drop_first())
    }
}

/// Scanning targets writes, for each target, its records (or an empty
/// list when it is off) under its key, and counts each listed target as
/// finished; when a target fails, the scan fails with that target's error
/// and only the targets before it have been written.
pub proof fn law_targets_written(s: ScanStateV, total: usize, ts: Seq<(Seq<char>, Seq<char>)>, os: Seq<OutcomeV>)
    requires
        ts.len() == os.len(),
    ensures
        ({
            let (s2, err) = targets_spec(s, total, ts, os);
            match err {
                None => (forall|i: int| 0 <= i < os.len() ==> !(#[trigger] os[i] is Failed)) && s2.0 == inserts(
                    s.0,
                    ts,
                    os,
                ) && s2.2 == count_listed(s.2, os),
                Some(m) => exists|k: int|
                    0 <= k < os.len() && #[trigger] os[k] == OutcomeV::Failed(m) && (forall|j: int|
                        0 <= j < k ==> !(#[trigger] os[j] is Failed)) && s2.0 == inserts(s.0, ts.take(k), os.take(k))
                        && s2.2 == count_listed(s.2, os.take(k)),
            }
        }),
    decreases ts.len(),
{
    if ts.len() > 0 {
        let key = ts[0].0;
        let label = ts[0].1;
        let started = s.1.push((percent_spec(s.2 as int, total as int), scanning_message(label)));
        let next: ScanStateV = match os[0] {
            OutcomeV::Off => (insert_spec(s.0, key, JsonV::Array(Seq::empty())), s.1, s.2),
            OutcomeV::Listed(v) => (
                insert_spec(s.0, key, JsonV::Array(v)),
                started.push((percent_spec(next_count(s.2) as int, total as int), done_message(label, v.len()))),
                next_count(s.2),
            ),
            OutcomeV::Failed(_) => s,
        };
        if os[0] is Failed {
            assert(ts.take(0) =~= Seq::<(Seq<char>, Seq<char>)>::empty());
            assert(os.take(0) =~= Seq::<OutcomeV>::empty());
            assert(os[0] == OutcomeV::Failed(os[0]->Failed_0));
        } else {
            law_targets_written(next, total, ts.drop_first(), os.drop_first());
            let (s2, err) = targets_spec(next, total, ts.drop_first(), os.drop_first());
            assert(targets_spec(s, total, ts, os) == (s2, err));
            match err {
                None => {
                    assert forall|i: int| 0 <= i < os.len() implies !(#[trigger] os[i] is Failed) by {
                        if i > 0 {
                            assert(os[i] == os.drop_first()[i - 1]);
                        }
                    }
                },
                Some(m) => {
                    let k = choose|k: int|
                        0 <= k < os.drop_first().len() && #[trigger] os.drop_first()[k] == OutcomeV::Failed(m)
                            && (forall|j: int| 0 <= j < k ==> !(#[trigger] os.drop_first()[j] is Failed))
                            && s2.0 == inserts(next.0, ts.drop_first().take(k), os.drop_first().take(k))
                            && s2.2 == count_listed(next.2, os.drop_first().take(k));
                    assert(os[k + 1] == os.drop_first()[k]);
                    assert forall|j: int| 0 <= j < k + 1 implies !(#[trigger] os[j] is Failed) by {
                        if j > 0 {
                            assert(os[j] == os.drop_first()[j - 1]);
                        }
                    }
                    assert(ts.take(k + 1).drop_first() =~= ts.drop_first().take(k));
                    assert(os.take(k + 1).drop_first() =~= os.drop_first().take(k));
                    assert(ts.take(k + 1)[0] == ts[0]);
                    assert(os.take(k + 1)[0] == os[0]);
                },
            }
        }
    }
}

/// Whether the percentages of a list of reports never go down and stay
/// between `lo` and `hi`.
pub open spec fn rising_within(s: Seq<(u32, Seq<char>)>, lo: int, hi: int) -> bool {
    &&& forall|i: int, j: int| 0 <= i <= j < s.len() ==> (#[trigger] s[i]).0 <= (#[trigger] s[j]).0
    &&& forall|i: int| 0 <= i < s.len() ==> lo <= (#[trigger] s[i]).0 <= hi
}

pub proof fn lemma_rising_concat(a: Seq<(u32, Seq<char>)>, b: Seq<(u32, Seq<char>)>, l1: int, h1: int, l2: int, h2: int)
    requires
        rising_within(a, l1, h1),
        rising_within(b, l2, h2),
        h1 <= l2,
        l1 <= l2,
        h1 <= h2,
    ensures
        rising_within(a + b, l1, h2),
{
    let c = a + b;
    assert forall|i: int, j: int| 0 <= i <= j < c.len() implies (#[trigger] c[i]).0 <= (#[trigger] c[j]).0 by {
        if j < a.len() {
            assert(c[i] == a[i] && c[j] == a[j]);
        } else if i >= a.len() {
            assert(c[i] == b[i - a.len()] && c[j] == b[j - a.len()]);
        } else {
            assert(c[i] == a[i] && c[j] == b[j - a.len()]);
        }
    }
    assert forall|i: int| 0 <= i < c.len() implies l1 <= (#[trigger] c[i]).0 <= h2 by {
        if i < a.len() {
            assert(c[i] == a[i]);
        } else {
            assert(c[i] == b[i - a.len()]);
        }
    }
}

pub proof fn lemma_percent_bounds(c1: int, c2: int, t: int)
    requires
        0 <= c1 <= c2 <= t,
        0 < t,
    ensures
        percent_spec(c1, t) <= percent_spec(c2, t) <= 100,
        percent_spec(0, t) == 0,
        percent_spec(t, t) == 100,
{
    vstd::arithmetic::div_mod::lemma_div_is_ordered(c1 * 100, c2 * 100, t);
    vstd::arithmetic::div_mod::lemma_div_is_ordered(c2 * 100, t * 100, t);
    vstd::arithmetic::div_mod::lemma_div_by_multiple(100, t);
    assert(t * 100 == 100 * t) by (nonlinear_arith);
    vstd::arithmetic::div_mod::lemma_div_is_ordered(0, c1 * 100, t);
    assert(0int / t == 0) by (nonlinear_arith)
        requires
            0 < t,
    ;
}


/// The number of targets that are not off.
pub open spec fn n_active(os: Seq<OutcomeV>) -> nat
    decreases os.len(),
{
    if os.len() == 0 {
        0
    } else {
        (if os[0] is Off {
            0nat
        } else {
            1nat
        }) + n_active(os.drop_first())
    }
}

/// Scanning targets only adds progress reports, and the percentages it
/// reports never go down: they run from the percentage of the targets
/// finished before to that of the targets finished after, which grow by at
/// most the number of targets that are on.
pub proof fn law_targets_progress(s: ScanStateV, total: usize, ts: Seq<(Seq<char>, Seq<char>)>, os: Seq<OutcomeV>)
    requires
        0 < total,
        s.2 + n_active(os) <= total,
    ensures
        ({
            let (s2, _err) = targets_spec(s, total, ts, os);
            &&& s.2 <= s2.2 <= s.2 + n_active(os)
            &&& s2.1.len() >= s.1.len()
            &&& s2.1.take(s.1.len() as int) == s.1
            &&& rising_within(
                s2.1.skip(s.1.len() as int),
                percent_spec(s.2 as int, total as int) as int,
                percent_spec(s2.2 as int, total as int) as int,
            )
        }),
    decreases ts.len(),
{
    let (s2, err) = targets_spec(s, total, ts, os);
    if ts.len() == 0 || os.len() == 0 {
        assert(s2.1.take(s.1.len() as int) =~= s.1);
        assert(s2.1.skip(s.1.len() as int) =~= Seq::<(u32, Seq<char>)>::empty());
    } else {
        let key = ts[0].0;
        let label = ts[0].1;
        let a = (percent_spec(s.2 as int, total as int), scanning_message(label));
        match os[0] {
            OutcomeV::Off => {
                let next: ScanStateV = (insert_spec(s.0, key, JsonV::Array(Seq::empty())), s.1, s.2);
                law_targets_progress(next, total, ts.drop_first(), os.drop_first());
            },
            OutcomeV::Failed(m) => {
                assert(s2.1 == s.1.push(a));
                assert(s2.1.take(s.1.len() as int) =~= s.1);
                assert(s2.1.skip(s.1.len() as int) =~= seq![a]);
            },
            OutcomeV::Listed(v) => {
                let c = next_count(s.2);
                assert(c == s.2 + 1);
                let b = (percent_spec(c as int, total as int), done_message(label, v.len()));
                let next: ScanStateV = (insert_spec(s.0, key, JsonV::Array(v)), s.1.push(a).push(b), c);
                law_targets_progress(next, total, ts.drop_first(), os.drop_first());
                lemma_percent_bounds(s.2 as int, c as int, total as int);
                lemma_percent_bounds(c as int, s2.2 as int, total as int);
                let rest = s2.1.skip(next.1.len() as int);
                assert(s2.1 =~= next.1 + rest) by {
                    assert(s2.1.take(next.1.len() as int) == next.1);
                    assert(s2.1 =~= s2.1.take(next.1.len() as int) + s2.1.skip(next.1.len() as int));
                }
                assert(rising_within(seq![a, b], a.0 as int, b.0 as int));
                lemma_rising_concat(seq![a, b], rest, a.0 as int, b.0 as int, b.0 as int, percent_spec(s2.2 as int, total as int) as int);
                assert(s2.1.skip(s.1.len() as int) =~= seq![a, b] + rest);
                assert(s2.1.take(s.1.len() as int) =~= s.1);
            },
        }
    }
}

} // verus!
