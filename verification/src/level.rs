//! Severity levels and the shared filtering policy of the two sinks.

use vstd::prelude::*;

verus! {

/// Severity of a log event, from most to least urgent.
#[derive(Clone, Copy, PartialEq, Eq, Structural, Debug)]
pub enum Level {
    Error,
    Warn,
    Info,
    Debug,
    Trace,
}

/// Verbosity rank: 0 for `Error` up to 4 for `Trace`.
pub open spec fn rank_spec(l: Level) -> int {
    match l {
        Level::Error => 0,
        Level::Warn => 1,
        Level::Info => 2,
        Level::Debug => 3,
        Level::Trace => 4,
    }
}

fn rank(l: Level) -> (r: u8)
    ensures
        r as int == rank_spec(l),
{
    match l {
        Level::Error => 0,
        Level::Warn => 1,
        Level::Info => 2,
        Level::Debug => 3,
        Level::Trace => 4,
    }
}

/// An event passes the filter when it is at least as urgent as the
/// threshold.
pub open spec fn passes_spec(event: Level, threshold: Level) -> bool {
    rank_spec(event) <= rank_spec(threshold)
}

/// Decide whether an event of severity `event` is emitted under a
/// minimum-severity `threshold`.
pub fn passes_filter(event: Level, threshold: Level) -> (r: bool)
    ensures
        r == passes_spec(event, threshold),
{
    rank(event) <= rank(threshold)
}

/// Character-for-character string comparison, stated over the views.
pub fn str_eq(a: &str, b: &str) -> (r: bool)
    ensures
        r == (a@ == b@),
{
    let alen = a.unicode_len();
    let blen = b.unicode_len();
    if alen != blen {
        return false;
    }
    let mut i: usize = 0;
    while i < alen
        invariant
            alen == a@.len(),
            blen == b@.len(),
            alen == blen,
            i <= alen,
            forall|j: int| 0 <= j < i ==> a@[j] == b@[j],
        decreases alen - i,
    {
        if a.get_char(i) != b.get_char(i) {
            return false;
        }
        i = i + 1;
    }
    proof {
        assert(a@ =~= b@);
    }
    true
}

/// The level a minimum-severity setting names, if it names one.
pub open spec fn parse_level_spec(s: Seq<char>) -> Option<Level> {
    if s == "error"@ {
        Some(Level::Error)
    } else if s == "warn"@ {
        Some(Level::Warn)
    } else if s == "info"@ {
        Some(Level::Info)
    } else if s == "debug"@ {
        Some(Level::Debug)
    } else if s == "trace"@ {
        Some(Level::Trace)
    } else {
        None
    }
}

/// Recognize a minimum-severity setting; unknown text is rejected.
pub fn parse_level(s: &str) -> (r: Option<Level>)
    ensures
        r == parse_level_spec(s@),
{
    if str_eq(s, "error") {
        Some(Level::Error)
    } else if str_eq(s, "warn") {
        Some(Level::Warn)
    } else if str_eq(s, "info") {
        Some(Level::Info)
    } else if str_eq(s, "debug") {
        Some(Level::Debug)
    } else if str_eq(s, "trace") {
        Some(Level::Trace)
    } else {
        None
    }
}

/// The effective threshold from an optional environment-style setting:
/// the level it names, else the informational default.
pub open spec fn threshold_spec(setting: Option<Seq<char>>) -> Level {
    match setting {
        Some(s) => match parse_level_spec(s) {
            Some(l) => l,
            None => Level::Info,
        },
        None => Level::Info,
    }
}

/// Resolve the minimum-severity setting, falling back to the
/// informational default when it is absent or unrecognized.
pub fn filter_threshold(setting: Option<&str>) -> (r: Level)
    ensures
        setting matches Some(s) ==> r == threshold_spec(Some(s@)),
        setting is None ==> r == Level::Info,
{
    match setting {
        Some(s) => match parse_level(s) {
            Some(l) => l,
            None => Level::Info,
        },
        None => Level::Info,
    }
}

/// The upper-case label each severity shows in a rendered line.
pub open spec fn label_spec(l: Level) -> Seq<char> {
    match l {
        Level::Error => "ERROR"@,
        Level::Warn => "WARN"@,
        Level::Info => "INFO"@,
        Level::Debug => "DEBUG"@,
        Level::Trace => "TRACE"@,
    }
}

/// The severity label as text.
pub fn level_label(l: Level) -> (r: &'static str)
    ensures
        r@ == label_spec(l),
{
    match l {
        Level::Error => "ERROR",
        Level::Warn => "WARN",
        Level::Info => "INFO",
        Level::Debug => "DEBUG",
        Level::Trace => "TRACE",
    }
}

} // verus!
