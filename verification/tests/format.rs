use applog::digits::{dec2, dec4, dec_string};
use applog::events::{console_policy, file_policy, log_error, log_info, log_warn, SinkRouter};
use applog::level::{filter_threshold, level_label, parse_level, passes_filter, str_eq, Level};
use applog::rotation::{rolled_file_name, Date, RollingWriter};
use applog::timefmt::{format_rfc3339, now_rfc3339, Timestamp};

fn ts(year: i32, month: u32, day: u32, hour: u32, minute: u32, second: u32, offset_secs: i32) -> Timestamp {
    Timestamp { year, month, day, hour, minute, second, offset_secs }
}

#[test]
fn decimal_rendering() {
    assert_eq!(dec_string(0), "0");
    assert_eq!(dec_string(7), "7");
    assert_eq!(dec_string(12), "12");
    assert_eq!(dec_string(1_234_567), "1234567");
    assert_eq!(dec2(7), "07");
    assert_eq!(dec2(99), "99");
    assert_eq!(dec4(7), "0007");
    assert_eq!(dec4(2024), "2024");
}

#[test]
fn rfc3339_renders_east_offset() {
    let r = format_rfc3339(&ts(2024, 1, 2, 3, 4, 5, 3600));
    assert_eq!(r.as_deref(), Some("2024-01-02T03:04:05+01:00"));
}

#[test]
fn rfc3339_renders_west_offset() {
    let r = format_rfc3339(&ts(2024, 12, 31, 23, 59, 59, -5 * 3600 - 30 * 60));
    assert_eq!(r.as_deref(), Some("2024-12-31T23:59:59-05:30"));
}

#[test]
fn rfc3339_renders_utc() {
    let r = format_rfc3339(&ts(1999, 6, 15, 0, 0, 0, 0));
    assert_eq!(r.as_deref(), Some("1999-06-15T00:00:00+00:00"));
}

#[test]
fn rfc3339_rejects_unrepresentable_instants() {
    assert!(format_rfc3339(&ts(10_000, 1, 1, 0, 0, 0, 0)).is_none());
    assert!(format_rfc3339(&ts(-1, 1, 1, 0, 0, 0, 0)).is_none());
    assert!(format_rfc3339(&ts(2024, 1, 1, 0, 0, 0, 61)).is_none());
    assert!(format_rfc3339(&ts(2024, 13, 1, 0, 0, 0, 0)).is_none());
}

#[test]
fn clock_renders_fixed_width() {
    let now = now_rfc3339().expect("the local clock is within the notation");
    assert_eq!(now.chars().count(), 25);
    assert_eq!(now.chars().nth(10), Some('T'));
    let sign = now.chars().nth(19).unwrap();
    assert!(sign == '+' || sign == '-');
}

#[test]
fn rolled_names_are_date_derived_and_sortable() {
    let d1 = Date { year: 2024, month: 1, day: 1 };
    let d2 = Date { year: 2024, month: 1, day: 10 };
    let n1 = rolled_file_name("app.log", &d1);
    let n2 = rolled_file_name("app.log", &d2);
    assert_eq!(n1, "app.log.2024-01-01");
    assert_eq!(n2, "app.log.2024-01-10");
    assert!(n1 < n2);
}

#[test]
fn rotation_switches_exactly_at_day_boundaries() {
    let d1 = Date { year: 2024, month: 1, day: 1 };
    let d2 = Date { year: 2024, month: 1, day: 2 };
    let mut writer = RollingWriter::new("app.log", d1);
    let (rotated, name) = writer.write_target(d1);
    assert!(!rotated);
    assert_eq!(name, "app.log.2024-01-01");
    let (rotated, name) = writer.write_target(d2);
    assert!(rotated);
    assert_eq!(name, "app.log.2024-01-02");
    let (rotated, name) = writer.write_target(d2);
    assert!(!rotated);
    assert_eq!(name, "app.log.2024-01-02");
}

#[test]
fn distinct_dates_use_distinct_files() {
    let base = "app.log";
    let days = [
        Date { year: 2023, month: 12, day: 31 },
        Date { year: 2024, month: 1, day: 1 },
        Date { year: 2024, month: 2, day: 1 },
    ];
    let names: Vec<String> = days.iter().map(|d| rolled_file_name(base, d)).collect();
    for i in 0..names.len() {
        for j in 0..names.len() {
            if i != j {
                assert_ne!(names[i], names[j]);
            }
        }
    }
}

#[test]
fn string_equality_is_by_characters() {
    assert!(str_eq("info", "info"));
    assert!(!str_eq("info", "warn"));
    assert!(!str_eq("info", "inf"));
    assert!(str_eq("", ""));
}

#[test]
fn levels_parse_and_default() {
    assert_eq!(parse_level("error"), Some(Level::Error));
    assert_eq!(parse_level("warn"), Some(Level::Warn));
    assert_eq!(parse_level("info"), Some(Level::Info));
    assert_eq!(parse_level("debug"), Some(Level::Debug));
    assert_eq!(parse_level("trace"), Some(Level::Trace));
    assert_eq!(parse_level("verbose"), None);
    assert_eq!(filter_threshold(Some("debug")), Level::Debug);
    assert_eq!(filter_threshold(Some("loud")), Level::Info);
    assert_eq!(filter_threshold(None), Level::Info);
}

#[test]
fn informational_threshold_filters_verbose_events() {
    assert!(passes_filter(Level::Error, Level::Info));
    assert!(passes_filter(Level::Warn, Level::Info));
    assert!(passes_filter(Level::Info, Level::Info));
    assert!(!passes_filter(Level::Debug, Level::Info));
    assert!(!passes_filter(Level::Trace, Level::Info));
}

#[test]
fn level_labels() {
    assert_eq!(level_label(Level::Error), "ERROR");
    assert_eq!(level_label(Level::Warn), "WARN");
    assert_eq!(level_label(Level::Info), "INFO");
    assert_eq!(level_label(Level::Debug), "DEBUG");
    assert_eq!(level_label(Level::Trace), "TRACE");
}

#[test]
fn convenience_events_carry_their_severity() {
    assert_eq!(log_info("ready").level, Level::Info);
    assert_eq!(log_info("ready").message, "ready");
    assert_eq!(log_warn("careful").level, Level::Warn);
    assert_eq!(log_warn("careful").message, "careful");
    assert_eq!(log_error("broken").level, Level::Error);
    assert_eq!(log_error("broken").message, "broken");
}

#[test]
fn router_emits_one_line_per_sink() {
    let router = SinkRouter::new(Level::Info);
    let event = log_info("Log system initialized (Console + File persistence)");
    let (console, file) = router
        .route("2024-01-02T03:04:05+01:00", "app::logger", &event)
        .expect("an informational event passes the default filter");
    assert_eq!(
        console,
        "2024-01-02T03:04:05+01:00 INFO Log system initialized (Console + File persistence)"
    );
    assert_eq!(
        file,
        "2024-01-02T03:04:05+01:00 INFO app::logger: Log system initialized (Console + File persistence)"
    );
}

#[test]
fn router_drops_filtered_events() {
    let router = SinkRouter::new(Level::Warn);
    let event = log_info("not urgent enough");
    assert!(router.route("ts", "app", &event).is_none());
}

#[test]
fn sink_policies_match_their_pipelines() {
    let console = console_policy();
    assert!(!console.show_target);
    assert!(!console.show_thread_ids);
    assert!(console.show_level);
    assert!(console.ansi);
    let file = file_policy();
    assert!(file.show_target);
    assert!(!file.show_thread_ids);
    assert!(file.show_level);
    assert!(!file.ansi);
}
