//! Local-time rendering: every log line carries the instant it was
//! emitted, in an offset-inclusive ISO-8601-style notation.

use vstd::prelude::*;
use crate::digits::{dec2, dec2_spec, dec4, dec4_spec};
use chrono::{Datelike, Timelike};

verus! {

/// A local civil time with its UTC offset, as plain field values.
pub struct Timestamp {
    pub year: i32,
    pub month: u32,
    pub day: u32,
    pub hour: u32,
    pub minute: u32,
    pub second: u32,
    /// Local time minus UTC, in seconds.
    pub offset_secs: i32,
}

impl Timestamp {
    /// Field ranges of a civil time as a clock reports it.
    pub open spec fn wf(self) -> bool {
        &&& 1 <= self.month <= 12
        &&& 1 <= self.day <= 31
        &&& self.hour <= 23
        &&& self.minute <= 59
        &&& self.second <= 59
        &&& -86400 < self.offset_secs < 86400
    }

    /// Renderable in the fixed-width notation: a four-digit year and a
    /// whole-minute offset.
    pub open spec fn representable(self) -> bool {
        self.wf() && 0 <= self.year <= 9999 && self.offset_secs % 60 == 0
    }
}

/// The signed offset part: a sign, then hours and minutes, two digits
/// each.
pub open spec fn offset_spec(off: int) -> Seq<char> {
    let a = if off < 0 {
        -off
    } else {
        off
    };
    (if off < 0 {
        "-"@
    } else {
        "+"@
    }) + dec2_spec((a / 3600) as nat) + ":"@ + dec2_spec(((a % 3600) / 60) as nat)
}

/// The full rendering: date, 'T', time, then the offset.
pub open spec fn rfc3339_spec(t: Timestamp) -> Seq<char> {
    dec4_spec(t.year as nat) + "-"@ + dec2_spec(t.month as nat) + "-"@ + dec2_spec(t.day as nat)
        + "T"@ + dec2_spec(t.hour as nat) + ":"@ + dec2_spec(t.minute as nat) + ":"@ + dec2_spec(
        t.second as nat,
    ) + offset_spec(t.offset_secs as int)
}

/// A representable instant always renders to twenty-five characters.
pub proof fn lemma_rfc3339_len(t: Timestamp)
    requires
        t.representable(),
    ensures
        rfc3339_spec(t).len() == 25,
{
    reveal_strlit("-");
    reveal_strlit("+");
    reveal_strlit(":");
    reveal_strlit("T");
}

/// Render an instant, or nothing when it cannot be represented in the
/// fixed-width notation: the caller then writes no timestamp rather
/// than a corrupt one.
pub fn format_rfc3339(t: &Timestamp) -> (r: Option<String>)
    ensures
        r is Some <==> t.representable(),
        r matches Some(s) ==> s@ == rfc3339_spec(*t),
{
    let ok = 1 <= t.month && t.month <= 12 && 1 <= t.day && t.day <= 31 && t.hour <= 23
        && t.minute <= 59 && t.second <= 59 && -86400 < t.offset_secs && t.offset_secs < 86400
        && 0 <= t.year && t.year <= 9999 && t.offset_secs % 60 == 0;
    if !ok {
        return None;
    }
    let off_abs: u64 = if t.offset_secs < 0 {
        (-t.offset_secs) as u64
    } else {
        t.offset_secs as u64
    };
    let mut s = dec4(t.year as u64);
    s.append("-");
    s.append(dec2(t.month as u64).as_str());
    s.append("-");
    s.append(dec2(t.day as u64).as_str());
    s.append("T");
    s.append(dec2(t.hour as u64).as_str());
    s.append(":");
    s.append(dec2(t.minute as u64).as_str());
    s.append(":");
    s.append(dec2(t.second as u64).as_str());
    if t.offset_secs < 0 {
        s.append("-");
    } else {
        s.append("+");
    }
    s.append(dec2(off_abs / 3600).as_str());
    s.append(":");
    s.append(dec2((off_abs % 3600) / 60).as_str());
    proof {
        assert(s@ =~= rfc3339_spec(*t));
    }
    Some(s)
}

/// Relies on `chrono::Local::now` and the `Datelike`/`Timelike`
/// accessors of the returned instant: the month is 1 to 12, the day 1
/// to 31, the hour at most 23, the minute and second at most 59, and
/// the fixed UTC offset strictly within one day of seconds. The instant
/// itself depends on the clock, so nothing more is stated.
#[verifier::external_body]
fn local_now_fields() -> (t: Timestamp)
    ensures
        t.wf(),
{
    let now = chrono::Local::now();
    Timestamp {
        year: now.year(),
        month: now.month(),
        day: now.day(),
        hour: now.hour(),
        minute: now.minute(),
        second: now.second(),
        offset_secs: now.offset().local_minus_utc(),
    }
}

/// The current local instant, rendered; nothing when the clock reports
/// an instant outside the fixed-width notation.
pub fn now_rfc3339() -> (r: Option<String>)
    ensures
        r matches Some(s) ==> s@.len() == 25,
{
    let t = local_now_fields();
    let r = format_rfc3339(&t);
    proof {
        if t.representable() {
            lemma_rfc3339_len(t);
        }
    }
    r
}

} // verus!
