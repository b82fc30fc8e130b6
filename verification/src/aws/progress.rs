use vstd::prelude::*;
use crate::text::{nat_text, owned, u64_text};

verus! {

/// How far a scan has come: the targets finished out of all targets, and
/// the progress reports made so far (a percentage and a message each).
pub struct ScanProgress {
    pub completed: usize,
    pub total: usize,
    pub events: Vec<(u32, String)>,
}

/// The reports, with their messages as sequences of characters.
pub open spec fn events_view(s: Seq<(u32, String)>) -> Seq<(u32, Seq<char>)> {
    s.map_values(|e: (u32, String)| (e.0, e.1@))
}

/// The percentage reported after `completed` of `total` targets: the whole
/// part of `completed * 100 / total` (a total of zero counts as one), cut to
/// 32 bits.
pub open spec fn percent_spec(completed: int, total: int) -> u32 {
    ((completed * 100) / (if total == 0 { 1 } else { total })) as u32
}

/// The message reported when a target's scan starts.
pub open spec fn scanning_message(label: Seq<char>) -> Seq<char> {
    label + "のスキャン中..."@
}

/// The message reported when a target's scan has finished with `count`
/// records.
pub open spec fn done_message(label: Seq<char>, count: nat) -> Seq<char> {
    label + "のスキャン完了: "@ + nat_text(count) + "件"@
}

/// One more finished target; the count stays at its largest value.
pub open spec fn next_count(c: usize) -> usize {
    if c < usize::MAX { (c + 1) as usize } else { c }
}


impl ScanProgress {
    /// No target finished yet, no report made.
    pub fn new(total: usize) -> (r: Self)
        ensures
            r.completed == 0,
            r.total == total,
            r.events@.len() == 0,
    {
        ScanProgress { completed: 0, total, events: Vec::new() }
    }

    /// The current percentage.
    pub fn percent(&self) -> (r: u32)
        ensures
            r == percent_spec(self.completed as int, self.total as int),
    {
        let d: u128 = if self.total == 0 { 1 } else { self.total as u128 };
        let p: u128 = (self.completed as u128) * 100 / d;
        #[verifier::truncate]
        (p as u32)
    }

    /// Adds a report.
    pub fn report(&mut self, percent: u32, message: String)
        ensures
            final(self).completed == old(self).completed,
            final(self).total == old(self).total,
            events_view(final(self).events@) == events_view(old(self).events@).push((percent, message@)),
    {
        let ghost m = message@;
        self.events.push((percent, message));
        assert(events_view(self.events@) =~= events_view(old(self).events@).push((percent, m)));
    }

    /// Reports that the scan of a target starts.
    pub fn start(&mut self, label: &str)
        ensures
            final(self).completed == old(self).completed,
            final(self).total == old(self).total,
            events_view(final(self).events@) == events_view(old(self).events@).push(
                (percent_spec(old(self).completed as int, old(self).total as int), scanning_message(label@)),
            ),
    {
        let mut m = owned(label);
        m.append("のスキャン中...");
        let p = self.percent();
        self.report(p, m);
    }

    /// Counts a finished target and reports how many records it gave.
    pub fn finish(&mut self, label: &str, count: usize)
        ensures
            final(self).completed == next_count(old(self).completed),
            final(self).total == old(self).total,
            events_view(final(self).events@) == events_view(old(self).events@).push(
                (
                    percent_spec(next_count(old(self).completed) as int, old(self).total as int),
                    done_message(label@, count as nat),
                ),
            ),
    {
        if self.completed < usize::MAX {
            self.completed = self.completed + 1;
        }
        let mut m = owned(label);
        m.append("のスキャン完了: ");
        let n = u64_text(count as u64);
        m.append(n.as_str());
        m.append("件");
        let p = self.percent();
        self.report(p, m);
    }
}

} // verus!
