//! Structured events, the display policy of each sink, and the router
//! that fans one event out to the console and file pipelines.

use vstd::prelude::*;
use crate::level::{label_spec, level_label, passes_filter, passes_spec, Level};

verus! {

/// One structured log event: severity and message text.
pub struct LogEvent {
    pub level: Level,
    pub message: String,
}

/// Display policy of one sink: which parts of an event its lines carry.
pub struct FormatPolicy {
    pub show_target: bool,
    pub show_thread_ids: bool,
    pub show_level: bool,
    pub ansi: bool,
}

/// The console pipeline's policy: no source-location label, no thread
/// identifiers, severity shown, markup allowed.
pub open spec fn console_policy_spec() -> FormatPolicy {
    FormatPolicy { show_target: false, show_thread_ids: false, show_level: true, ansi: true }
}

/// The file pipeline's policy: source-location label shown, severity
/// shown, plain text without markup.
pub open spec fn file_policy_spec() -> FormatPolicy {
    FormatPolicy { show_target: true, show_thread_ids: false, show_level: true, ansi: false }
}

/// Build the console pipeline's display policy.
pub fn console_policy() -> (r: FormatPolicy)
    ensures
        r == console_policy_spec(),
{
    FormatPolicy { show_target: false, show_thread_ids: false, show_level: true, ansi: true }
}

/// Build the file pipeline's display policy.
pub fn file_policy() -> (r: FormatPolicy)
    ensures
        r == file_policy_spec(),
{
    FormatPolicy { show_target: true, show_thread_ids: false, show_level: true, ansi: false }
}

/// The rendered line under a policy: timestamp, severity label when
/// shown, source target when shown, then the message.
pub open spec fn line_spec(
    p: FormatPolicy,
    ts: Seq<char>,
    target: Seq<char>,
    level: Level,
    msg: Seq<char>,
) -> Seq<char> {
    ts + " "@ + (if p.show_level {
        label_spec(level) + " "@
    } else {
        Seq::empty()
    }) + (if p.show_target {
        target + ": "@
    } else {
        Seq::empty()
    }) + msg
}

/// Render one event as a line of text under a sink's policy.
pub fn render_line(p: &FormatPolicy, ts: &str, target: &str, event: &LogEvent) -> (r: String)
    ensures
        r@ == line_spec(*p, ts@, target@, event.level, event.message@),
{
    let mut s = ts.to_owned();
    s.append(" ");
    if p.show_level {
        s.append(level_label(event.level));
        s.append(" ");
    }
    if p.show_target {
        s.append(target);
        s.append(": ");
    }
    s.append(event.message.as_str());
    proof {
        assert(s@ =~= line_spec(*p, ts@, target@, event.level, event.message@));
    }
    s
}

/// Routes one event to both sinks under the shared severity filter.
pub struct SinkRouter {
    pub threshold: Level,
}

impl SinkRouter {
    /// A router with the given minimum severity.
    pub fn new(threshold: Level) -> (r: SinkRouter)
        ensures
            r.threshold == threshold,
    {
        SinkRouter { threshold }
    }

    /// Route one event: an event at or above the threshold yields
    /// exactly one console line and one file line; an event below it
    /// yields nothing on either sink.
    pub fn route(&self, ts: &str, target: &str, event: &LogEvent) -> (r: Option<(String, String)>)
        ensures
            passes_spec(event.level, self.threshold) ==> (r matches Some(lines)
                && lines.0@ == line_spec(console_policy_spec(), ts@, target@, event.level, event.message@)
                && lines.1@ == line_spec(file_policy_spec(), ts@, target@, event.level, event.message@)),
            !passes_spec(event.level, self.threshold) ==> r is None,
    {
        if passes_filter(event.level, self.threshold) {
            let console = render_line(&console_policy(), ts, target, event);
            let file = render_line(&file_policy(), ts, target, event);
            Some((console, file))
        } else {
            None
        }
    }
}

/// Build the informational event for a plain message.
pub fn log_info(message: &str) -> (r: LogEvent)
    ensures
        r.level == Level::Info,
        r.message@ == message@,
{
    LogEvent { level: Level::Info, message: message.to_owned() }
}

/// Build the warning event for a plain message.
pub fn log_warn(message: &str) -> (r: LogEvent)
    ensures
        r.level == Level::Warn,
        r.message@ == message@,
{
    LogEvent { level: Level::Warn, message: message.to_owned() }
}

/// Build the error event for a plain message.
pub fn log_error(message: &str) -> (r: LogEvent)
    ensures
        r.level == Level::Error,
        r.message@ == message@,
{
    LogEvent { level: Level::Error, message: message.to_owned() }
}

} // verus!
