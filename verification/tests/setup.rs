//! Tests of configuration, timestamp formats, and the demonstration
//! workload.

use serif::{ColorMode, Config, FilterLevel, Output, TimeFormat, YakError, shave, shave_all};

#[test]
fn unknown_directive_fails_at_construction() {
    let err = TimeFormat::local_custom("[%Y %!]").unwrap_err();
    assert_eq!(err.pattern, "[%Y %!]");
    assert!(TimeFormat::utc_custom("%E bogus").is_err());
}

#[test]
fn known_directives_are_accepted() {
    let tf = TimeFormat::local_custom("[%Y-%m-%d]").unwrap();
    assert!(!tf.is_none());
    assert!(TimeFormat::utc_custom("[%H:%M:%S]").is_ok());
}

#[test]
fn custom_pattern_overrides_the_default() {
    assert_eq!(TimeFormat::none().effective_pattern(), None);
    assert_eq!(TimeFormat::local().effective_pattern(), Some("[%Y-%m-%dT%H:%M:%S%z]"));
    assert_eq!(TimeFormat::utc().effective_pattern(), Some("[%Y-%m-%dT%H:%M:%SZ]"));
    let tf = TimeFormat::utc_custom("[%H:%M]").unwrap();
    assert_eq!(tf.effective_pattern(), Some("[%H:%M]"));
    let tf = TimeFormat::local_custom("[%Y]").unwrap();
    assert_eq!(tf.effective_pattern(), Some("[%Y]"));
}

#[test]
fn suppressed_format_renders_nothing() {
    let tf = TimeFormat::none();
    assert!(tf.is_none());
    assert_eq!(tf.render_now().unwrap(), "");
}

#[test]
fn utc_rendering_expands_the_pattern() {
    let tf = TimeFormat::utc_custom("[%Y]").unwrap();
    let stamp = tf.render_now().unwrap();
    // the pattern's directive is expanded, not echoed back
    assert_ne!(stamp, "[%Y]");
    assert_eq!(stamp.len(), 6);
    assert!(stamp.starts_with('['));
    assert!(stamp.ends_with(']'));
    assert!(stamp[1..5].chars().all(|c| c.is_ascii_digit()));
}

#[test]
fn default_utc_format_is_bracketed_zulu() {
    let stamp = TimeFormat::utc().render_now().unwrap();
    assert!(stamp.starts_with('['));
    assert!(stamp.ends_with("Z]"));
    assert!(!stamp.is_empty());
}

#[test]
fn default_format_is_local() {
    assert!(!TimeFormat::default().is_none());
    assert!(TimeFormat::local().render_now().is_some());
}

#[test]
fn verbosity_maps_and_clamps() {
    let cases = [
        (-5, FilterLevel::Off),
        (-3, FilterLevel::Off),
        (-2, FilterLevel::Error),
        (-1, FilterLevel::Warn),
        (0, FilterLevel::Info),
        (1, FilterLevel::Debug),
        (2, FilterLevel::Trace),
        (7, FilterLevel::Trace),
    ];
    for (verbosity, level) in cases {
        let config = Config::new().with_verbosity(verbosity);
        assert_eq!(config.default_filter, level, "verbosity {verbosity}");
    }
}

#[test]
fn filter_levels_spell_their_directives() {
    assert_eq!(FilterLevel::Off.as_directive(), "off");
    assert_eq!(FilterLevel::Error.as_directive(), "error");
    assert_eq!(FilterLevel::Warn.as_directive(), "warn");
    assert_eq!(FilterLevel::Info.as_directive(), "info");
    assert_eq!(FilterLevel::Debug.as_directive(), "debug");
    assert_eq!(FilterLevel::Trace.as_directive(), "trace");
}

#[test]
fn environment_overrides_the_default_filter() {
    let config = Config::new().with_default(FilterLevel::Debug);
    assert_eq!(config.filter_string(None), "debug");
    assert_eq!(config.filter_string(Some("")), "debug");
    assert_eq!(config.filter_string(Some("warn,app=trace")), "warn,app=trace");
}

#[test]
fn color_mode_decides_from_terminal_and_signal() {
    assert!(ColorMode::Auto.enable_for(false, true));
    assert!(!ColorMode::Auto.enable_for(true, true));
    assert!(!ColorMode::Auto.enable_for(false, false));
    assert!(ColorMode::Always.enable_for(true, false));
    assert!(!ColorMode::Never.enable_for(false, true));
}

#[test]
fn config_defaults() {
    let config = Config::new();
    assert_eq!(config.output, Output::Stdout);
    assert_eq!(config.color, ColorMode::Auto);
    assert_eq!(config.default_filter, FilterLevel::Info);
    assert!(config.event_formatter.display_target);
    assert!(config.event_formatter.display_scope);
}

#[test]
fn config_builders_replace_their_field() {
    let config = Config::new()
        .with_output(Output::Stderr)
        .with_color(ColorMode::Never)
        .with_default(FilterLevel::Trace)
        .with_target(false)
        .with_scope(false)
        .with_timestamp(TimeFormat::none());
    assert_eq!(config.output, Output::Stderr);
    assert_eq!(config.color, ColorMode::Never);
    assert_eq!(config.default_filter, FilterLevel::Trace);
    assert!(!config.event_formatter.display_target);
    assert!(!config.event_formatter.display_scope);
    assert!(config.event_formatter.time_format.is_none());
}

#[test]
fn yak_three_cannot_be_shaved() {
    let err = shave(3).unwrap_err();
    assert_eq!(err.message(), "missing yak");
    let YakError::MissingYak(inner) = err;
    assert_eq!(inner.message(), "out of space");
    assert!(shave(1).is_ok());
    assert!(shave(4).is_ok());
}

#[test]
fn herd_counts_skip_the_missing_yak() {
    assert_eq!(shave_all(0), 0);
    assert_eq!(shave_all(2), 2);
    assert_eq!(shave_all(3), 2);
    assert_eq!(shave_all(5), 4);
}
