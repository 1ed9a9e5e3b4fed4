//! Daily rotation: deterministic, date-derived file names and the
//! state of the file currently open for writing.

use vstd::prelude::*;
use crate::digits::{
    dec2, dec2_spec, dec4, dec4_spec, lemma_dec2_injective, lemma_dec2_monotone,
    lemma_dec4_injective, lemma_dec4_monotone, lemma_lex_eqlen_extend, lemma_lex_same_prefix,
    lex_lt,
};

verus! {

/// A calendar date as plain values.
#[derive(Clone, Copy, PartialEq, Eq, Structural, Debug)]
pub struct Date {
    pub year: u32,
    pub month: u32,
    pub day: u32,
}

impl Date {
    /// Ranges a calendar date stays within.
    pub open spec fn wf(self) -> bool {
        self.year <= 9999 && 1 <= self.month <= 12 && 1 <= self.day <= 31
    }
}

/// The name of the rolled file for one day: the base name, a dot, then
/// the zero-padded date, so that names of later days sort later.
pub open spec fn rolled_name_spec(base: Seq<char>, d: Date) -> Seq<char> {
    base + "."@ + dec4_spec(d.year as nat) + "-"@ + dec2_spec(d.month as nat) + "-"@ + dec2_spec(
        d.day as nat,
    )
}

/// Render the rolled file name for a date.
pub fn rolled_file_name(base: &str, d: &Date) -> (r: String)
    requires
        d.wf(),
    ensures
        r@ == rolled_name_spec(base@, *d),
{
    let mut s = base.to_owned();
    s.append(".");
    s.append(dec4(d.year as u64).as_str());
    s.append("-");
    s.append(dec2(d.month as u64).as_str());
    s.append("-");
    s.append(dec2(d.day as u64).as_str());
    proof {
        assert(s@ =~= rolled_name_spec(base@, *d));
    }
    s
}

/// The rolled name determines the date: files of distinct days never
/// share a name.
pub proof fn lemma_rolled_name_injective(base: Seq<char>, d1: Date, d2: Date)
    requires
        d1.wf(),
        d2.wf(),
        rolled_name_spec(base, d1) == rolled_name_spec(base, d2),
    ensures
        d1 == d2,
{
    reveal_strlit(".");
    reveal_strlit("-");
    let n = base.len() as int;
    let s1 = rolled_name_spec(base, d1);
    let s2 = rolled_name_spec(base, d2);
    assert(dec4_spec(d1.year as nat) =~= s1.subrange(n + 1, n + 5));
    assert(dec2_spec(d1.month as nat) =~= s1.subrange(n + 6, n + 8));
    assert(dec2_spec(d1.day as nat) =~= s1.subrange(n + 9, n + 11));
    assert(dec4_spec(d2.year as nat) =~= s2.subrange(n + 1, n + 5));
    assert(dec2_spec(d2.month as nat) =~= s2.subrange(n + 6, n + 8));
    assert(dec2_spec(d2.day as nat) =~= s2.subrange(n + 9, n + 11));
    lemma_dec4_injective(d1.year as nat, d2.year as nat);
    lemma_dec2_injective(d1.month as nat, d2.month as nat);
    lemma_dec2_injective(d1.day as nat, d2.day as nat);
}

/// Calendar order on dates.
pub open spec fn date_lt(d1: Date, d2: Date) -> bool {
    ||| d1.year < d2.year
    ||| (d1.year == d2.year && d1.month < d2.month)
    ||| (d1.year == d2.year && d1.month == d2.month && d1.day < d2.day)
}

/// Rolled names sort by date: the file of an earlier day has the
/// lexicographically smaller name, whatever the shared base name.
pub proof fn lemma_rolled_name_sorted(base: Seq<char>, d1: Date, d2: Date)
    requires
        d1.wf(),
        d2.wf(),
        date_lt(d1, d2),
    ensures
        lex_lt(rolled_name_spec(base, d1), rolled_name_spec(base, d2)),
{
    let p = base + "."@;
    let t1 = dec4_spec(d1.year as nat) + "-"@ + dec2_spec(d1.month as nat) + "-"@ + dec2_spec(
        d1.day as nat,
    );
    let t2 = dec4_spec(d2.year as nat) + "-"@ + dec2_spec(d2.month as nat) + "-"@ + dec2_spec(
        d2.day as nat,
    );
    assert(rolled_name_spec(base, d1) =~= p + t1);
    assert(rolled_name_spec(base, d2) =~= p + t2);
    if d1.year < d2.year {
        lemma_dec4_monotone(d1.year as nat, d2.year as nat);
        let r1 = "-"@ + dec2_spec(d1.month as nat) + "-"@ + dec2_spec(d1.day as nat);
        let r2 = "-"@ + dec2_spec(d2.month as nat) + "-"@ + dec2_spec(d2.day as nat);
        assert(t1 =~= dec4_spec(d1.year as nat) + r1);
        assert(t2 =~= dec4_spec(d2.year as nat) + r2);
        lemma_lex_eqlen_extend(dec4_spec(d1.year as nat), dec4_spec(d2.year as nat), r1, r2);
    } else if d1.month < d2.month {
        let q = dec4_spec(d1.year as nat) + "-"@;
        lemma_dec2_monotone(d1.month as nat, d2.month as nat);
        let r1 = "-"@ + dec2_spec(d1.day as nat);
        let r2 = "-"@ + dec2_spec(d2.day as nat);
        lemma_lex_eqlen_extend(
            dec2_spec(d1.month as nat),
            dec2_spec(d2.month as nat),
            r1,
            r2,
        );
        lemma_lex_same_prefix(q, dec2_spec(d1.month as nat) + r1, dec2_spec(d2.month as nat) + r2);
        assert(t1 =~= q + (dec2_spec(d1.month as nat) + r1));
        assert(t2 =~= q + (dec2_spec(d2.month as nat) + r2));
    } else {
        let q = dec4_spec(d1.year as nat) + "-"@ + dec2_spec(d1.month as nat) + "-"@;
        lemma_dec2_monotone(d1.day as nat, d2.day as nat);
        lemma_lex_same_prefix(q, dec2_spec(d1.day as nat), dec2_spec(d2.day as nat));
        assert(t1 =~= q + dec2_spec(d1.day as nat));
        assert(t2 =~= q + dec2_spec(d2.day as nat));
    }
    lemma_lex_same_prefix(p, t1, t2);
}

/// The daily-rolling file sink model: the base name and the date of the
/// file currently open for writing.
pub struct RollingWriter {
    pub base: String,
    pub current: Date,
}

impl RollingWriter {
    /// The open file's date is a calendar date.
    pub open spec fn wf(self) -> bool {
        self.current.wf()
    }

    /// Open the sink on its first day.
    pub fn new(base: &str, today: Date) -> (w: RollingWriter)
        requires
            today.wf(),
        ensures
            w.base@ == base@,
            w.current == today,
            w.wf(),
    {
        RollingWriter { base: base.to_owned(), current: today }
    }

    /// The file a write on day `today` goes to. The boundary switch is
    /// atomic from the writer's perspective: the target is the file
    /// named for `today`, and it changes exactly when the date has
    /// advanced past the open file's date.
    pub fn write_target(&mut self, today: Date) -> (r: (bool, String))
        requires
            old(self).wf(),
            today.wf(),
        ensures
            final(self).base == old(self).base,
            final(self).current == today,
            final(self).wf(),
            r.0 == (today != old(self).current),
            r.1@ == rolled_name_spec(old(self).base@, today),
    {
        let rotated = !(self.current == today);
        self.current = today;
        let name = rolled_file_name(self.base.as_str(), &today);
        (rotated, name)
    }
}

/// The file names a run of writes targets, one per event date.
pub open spec fn targets_spec(base: Seq<char>, dates: Seq<Date>) -> Seq<Seq<char>> {
    dates.map(|i: int, d: Date| rolled_name_spec(base, d))
}

/// Rotation correctness: over any run of emitted events, each event's
/// write targets the file named for its emission date, and events of
/// distinct dates target distinct files, so files from distinct dates
/// never share content.
pub proof fn lemma_rotation_partitions(base: Seq<char>, dates: Seq<Date>)
    requires
        forall|i: int| 0 <= i < dates.len() ==> (#[trigger] dates[i]).wf(),
    ensures
        targets_spec(base, dates).len() == dates.len(),
        forall|i: int|
            0 <= i < dates.len() ==> #[trigger] targets_spec(base, dates)[i] == rolled_name_spec(
                base,
                dates[i],
            ),
        forall|i: int, j: int|
            0 <= i < dates.len() && 0 <= j < dates.len() && dates[i] != dates[j]
                ==> #[trigger] targets_spec(base, dates)[i] != #[trigger] targets_spec(
                base,
                dates,
            )[j],
{
    assert forall|i: int, j: int|
        0 <= i < dates.len() && 0 <= j < dates.len() && dates[i] != dates[j] implies #[trigger] targets_spec(
        base,
        dates,
    )[i] != #[trigger] targets_spec(base, dates)[j] by {
        if targets_spec(base, dates)[i] == targets_spec(base, dates)[j] {
            lemma_rolled_name_injective(base, dates[i], dates[j]);
        }
    }
}

} // verus!
