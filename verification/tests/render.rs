//! Tests of field and line rendering.

use serif::{EventFormatter, Field, FieldFormatter, FieldValue, FieldVisitor, Level, ScopeEntry,
            TimeFormat};

fn field(name: &str, value: FieldValue) -> Field {
    Field { name: String::from(name), value }
}

#[test]
fn message_then_other_spacing() {
    let mut v = FieldVisitor::new(false);
    v.record_str("message", "hi");
    v.record_debug("other", "1");
    assert_eq!(v.finish(), "hi [other=1]");
}

#[test]
fn other_then_message_spacing() {
    let mut v = FieldVisitor::new(false);
    v.record_debug("other", "1");
    v.record_str("message", "hi");
    assert_eq!(v.finish(), "[other=1] hi");
}

#[test]
fn two_others_need_no_separator() {
    let mut v = FieldVisitor::new(false);
    v.record_debug("a", "1");
    v.record_debug("b", "2");
    assert_eq!(v.finish(), "[a=1][b=2]");
}

#[test]
fn non_message_field_carries_bracket_marker() {
    let mut v = FieldVisitor::new(false);
    v.record_debug("count", "7");
    let out = v.finish();
    assert!(out.contains("[count="));
    assert_eq!(out, "[count=7]");
}

#[test]
fn message_is_never_bracketed() {
    let mut v = FieldVisitor::new(false);
    v.record_str("message", "hello");
    let out = v.finish();
    assert!(!out.contains('['));
    assert_eq!(out, "hello");
}

#[test]
fn log_prefix_is_suppressed_entirely() {
    let mut v = FieldVisitor::new(false);
    v.record_debug("log.target", "noise");
    v.record_str("message", "hi");
    // the suppressed field must not flip the spacing state either: no
    // leading space before the message
    assert_eq!(v.finish(), "hi");
}

#[test]
fn log_prefix_keeps_spacing_state() {
    let mut v = FieldVisitor::new(false);
    v.record_str("message", "hi");
    v.record_debug("log.module_path", "noise");
    v.record_debug("k", "1");
    assert_eq!(v.finish(), "hi [k=1]");
}

#[test]
fn error_field_uses_display_message() {
    let mut v = FieldVisitor::new(false);
    v.record_error("cause", "missing yak");
    // the display message, unquoted, inside brackets
    assert_eq!(v.finish(), "[cause=missing yak]");
}

#[test]
fn error_field_is_dimmed_red_under_ansi() {
    let mut v = FieldVisitor::new(true);
    v.record_error("cause", "missing yak");
    assert_eq!(v.finish(), "\u{1b}[2;31m[cause=missing yak]\u{1b}[0m");
}

#[test]
fn plain_string_field_is_quoted_outside_message() {
    let mut v = FieldVisitor::new(false);
    v.record_str("excitement", "yay!");
    assert_eq!(v.finish(), "[excitement=\"yay!\"]");
}

#[test]
fn other_field_is_dimmed_under_ansi() {
    let mut v = FieldVisitor::new(true);
    v.record_debug("other", "1");
    assert_eq!(v.finish(), "\u{1b}[2m[other=1]\u{1b}[0m");
}

#[test]
fn ansi_pad_sits_inside_the_escape() {
    let mut v = FieldVisitor::new(true);
    v.record_str("message", "hi");
    v.record_debug("other", "1");
    assert_eq!(v.finish(), "hi\u{1b}[2m [other=1]\u{1b}[0m");
}

#[test]
fn format_fields_renders_a_whole_set() {
    let fields = vec![
        field("message", FieldValue::Display(String::from("starting"))),
        field("yaks", FieldValue::Debug(String::from("3"))),
    ];
    let out = FieldFormatter::new().format_fields(&fields, false);
    assert_eq!(out, "starting [yaks=3]");
}

#[test]
fn record_dispatches_on_value_kind() {
    let mut v = FieldVisitor::new(false);
    v.record("message", &FieldValue::Display(String::from("go")));
    v.record("n", &FieldValue::Debug(String::from("2")));
    v.record("e", &FieldValue::Error(String::from("out of cash")));
    assert_eq!(v.finish(), "go [n=2][e=out of cash]");
}

#[test]
fn round_trip_line() {
    let formatter = EventFormatter::new().with_timestamp(TimeFormat::utc());
    let scope = vec![ScopeEntry { name: String::from("setup"), fields: String::new() }];
    let fields = vec![field("message", FieldValue::Display(String::from("starting")))];
    let line = formatter.format_event(
        "[1970-01-01T00:00:00Z]",
        &Level::Info,
        &scope,
        "app",
        &fields,
        false,
    );
    assert_eq!(line, "[1970-01-01T00:00:00Z]  INFO setup: app: starting\n");
}

#[test]
fn no_escapes_anywhere_with_ansi_disabled() {
    let formatter = EventFormatter::new().with_timestamp(TimeFormat::utc());
    let scope = vec![
        ScopeEntry { name: String::from("outer"), fields: String::from("[yaks=3]") },
        ScopeEntry { name: String::from("inner"), fields: String::new() },
    ];
    let fields = vec![
        field("message", FieldValue::Display(String::from("shaving"))),
        field("yak", FieldValue::Debug(String::from("1"))),
        field("err", FieldValue::Error(String::from("missing yak"))),
    ];
    let line = formatter.format_event(
        "[1970-01-01T00:00:00Z]",
        &Level::Warn,
        &scope,
        "app::shave",
        &fields,
        false,
    );
    assert!(!line.contains("\u{1b}["));
    assert_eq!(
        line,
        "[1970-01-01T00:00:00Z]  WARN outer[yaks=3]:inner: app::shave: shaving [yak=1][err=missing yak]\n"
    );
}

#[test]
fn escapes_wrap_level_and_fields_with_ansi_enabled() {
    let formatter = EventFormatter::new().with_timestamp(TimeFormat::none());
    let fields = vec![
        field("message", FieldValue::Display(String::from("go"))),
        field("k", FieldValue::Debug(String::from("1"))),
    ];
    let line = formatter.format_event("", &Level::Info, &Vec::new(), "app", &fields, true);
    assert!(line.contains("\u{1b}[32m INFO \u{1b}[0m"));
    assert!(line.contains("\u{1b}[2m [k=1]\u{1b}[0m"));
    // the target is dimmed blue
    assert!(line.contains("\u{1b}[2;34mapp\u{1b}[0m: "));
}

#[test]
fn suppressed_timestamp_leaves_no_prefix() {
    let formatter = EventFormatter::new().with_timestamp(TimeFormat::none());
    let fields = vec![field("message", FieldValue::Display(String::from("go")))];
    let line = formatter.format_event(
        "[1970-01-01T00:00:00Z]",
        &Level::Info,
        &Vec::new(),
        "app",
        &fields,
        false,
    );
    assert!(!line.starts_with('['));
    assert_eq!(line, " INFO app: go\n");
}

#[test]
fn scope_names_are_dimmed_cyan_under_ansi() {
    let formatter = EventFormatter::new().with_timestamp(TimeFormat::none());
    let scope = vec![ScopeEntry { name: String::from("setup"), fields: String::new() }];
    let line =
        formatter.format_event("", &Level::Info, &scope, "app", &Vec::new(), true);
    assert!(line.contains("\u{1b}[2;36msetup\u{1b}[0m: "));
}

#[test]
fn target_and_scope_can_be_switched_off() {
    let formatter = EventFormatter::new()
        .with_timestamp(TimeFormat::none())
        .with_target(false)
        .with_scope(false);
    let scope = vec![ScopeEntry { name: String::from("setup"), fields: String::new() }];
    let fields = vec![field("message", FieldValue::Display(String::from("go")))];
    let line = formatter.format_event("", &Level::Error, &scope, "app", &fields, false);
    assert_eq!(line, "ERROR go\n");
}

#[test]
fn level_columns_are_five_wide() {
    let formatter = EventFormatter::new().with_timestamp(TimeFormat::none());
    let cases = [
        (Level::Trace, "TRACE "),
        (Level::Debug, "DEBUG "),
        (Level::Info, " INFO "),
        (Level::Warn, " WARN "),
        (Level::Error, "ERROR "),
    ];
    for (level, prefix) in cases {
        let line =
            formatter.format_event("", &level, &Vec::new(), "app", &Vec::new(), false);
        assert!(line.starts_with(prefix), "line {line:?} lacks {prefix:?}");
    }
}

#[test]
fn level_colors_follow_the_fixed_mapping() {
    let formatter = EventFormatter::new().with_timestamp(TimeFormat::none());
    let cases = [
        (Level::Trace, "\u{1b}[35mTRACE \u{1b}[0m"),
        (Level::Debug, "\u{1b}[34mDEBUG \u{1b}[0m"),
        (Level::Info, "\u{1b}[32m INFO \u{1b}[0m"),
        (Level::Warn, "\u{1b}[33m WARN \u{1b}[0m"),
        (Level::Error, "\u{1b}[31mERROR \u{1b}[0m"),
    ];
    for (level, prefix) in cases {
        let line =
            formatter.format_event("", &level, &Vec::new(), "app", &Vec::new(), true);
        assert!(line.starts_with(prefix), "line {line:?} lacks {prefix:?}");
    }
}

#[test]
fn timestamp_is_dimmed_under_ansi() {
    let formatter = EventFormatter::new().with_timestamp(TimeFormat::utc());
    let line = formatter.format_event(
        "[1970-01-01T00:00:00Z]",
        &Level::Info,
        &Vec::new(),
        "app",
        &Vec::new(),
        true,
    );
    assert!(line.starts_with("\u{1b}[2m[1970-01-01T00:00:00Z] \u{1b}[0m"));
}
