//! Rendering of a complete log line.
//!
//! A line is, in order: an optional dimmed timestamp, the severity level
//! right-aligned in five columns and colored by a fixed mapping, the
//! active span scope from root to leaf, the event target, the event's
//! fields, and a newline. Each part except level, fields and terminator
//! can be switched off by configuration.

use vstd::prelude::*;

use crate::fields::Field;
use crate::fields::FieldVisitor;
use crate::fields::esc_free_fields;
use crate::fields::fields_view;
use crate::fields::lemma_fields_fold_esc_free;
use crate::fields::rendered_fields;
use crate::fields::start_view;
use crate::fields::FieldValueView;
use crate::style::StyleKind;
use crate::style::esc_free;
use crate::style::lemma_esc_free_concat;
use crate::style::push_styled;
use crate::style::spec_styled;
use crate::style::style_prefix;
use crate::style::style_suffix;
use crate::time::TimeFormat;
use crate::time::TimeFormatView;

verus! {

/// The severity of an event, ordered from the most to the least verbose.
#[derive(Debug, Clone, Copy, PartialEq, Eq, Structural)]
pub enum Level {
    /// The most verbose level.
    Trace,
    /// Debugging detail.
    Debug,
    /// Ordinary progress messages.
    Info,
    /// Something looks wrong.
    Warn,
    /// Something failed.
    Error,
}

/// The level text as rendered: right-aligned in five columns.
pub open spec fn level_text(l: Level) -> Seq<char> {
    match l {
        Level::Trace => "TRACE"@,
        Level::Debug => "DEBUG"@,
        Level::Info => " INFO"@,
        Level::Warn => " WARN"@,
        Level::Error => "ERROR"@,
    }
}

/// The fixed color mapping for levels.
pub open spec fn level_style(l: Level) -> StyleKind {
    match l {
        Level::Trace => StyleKind::Purple,
        Level::Debug => StyleKind::Blue,
        Level::Info => StyleKind::Green,
        Level::Warn => StyleKind::Yellow,
        Level::Error => StyleKind::Red,
    }
}

/// The level text as rendered: right-aligned in five columns.
pub fn level_label(l: &Level) -> (r: &'static str)
    ensures
        r@ == level_text(*l),
{
    match l {
        Level::Trace => "TRACE",
        Level::Debug => "DEBUG",
        Level::Info => " INFO",
        Level::Warn => " WARN",
        Level::Error => "ERROR",
    }
}

/// The color for a level.
pub fn level_color(l: &Level) -> (r: StyleKind)
    ensures
        r == level_style(*l),
{
    match l {
        Level::Trace => StyleKind::Purple,
        Level::Debug => StyleKind::Blue,
        Level::Info => StyleKind::Green,
        Level::Warn => StyleKind::Yellow,
        Level::Error => StyleKind::Red,
    }
}

/// One span of the active scope chain: its name and its already-formatted
/// field text, which is empty when the span has no fields.
pub struct ScopeEntry {
    /// The span's name.
    pub name: String,
    /// The span's fields, already rendered.
    pub fields: String,
}

impl View for ScopeEntry {
    type V = (Seq<char>, Seq<char>);

    open spec fn view(&self) -> (Seq<char>, Seq<char>) {
        (self.name@, self.fields@)
    }
}

/// The views of a scope chain, root first.
pub open spec fn scope_view(scope: Seq<ScopeEntry>) -> Seq<(Seq<char>, Seq<char>)> {
    scope.map_values(|e: ScopeEntry| e@)
}

/// One span as rendered: its name in dimmed cyan, its field text if it
/// has any, and a colon, with no separator toward the next span.
pub open spec fn scope_entry_text(name: Seq<char>, fields: Seq<char>, ansi: bool) -> Seq<char> {
    spec_styled(StyleKind::DimmedCyan, name, ansi) + fields + ":"@
}

/// A whole scope chain as rendered, root first.
pub open spec fn scope_chain_text(scope: Seq<(Seq<char>, Seq<char>)>, ansi: bool) -> Seq<char>
    decreases scope.len(),
{
    if scope.len() == 0 {
        Seq::<char>::empty()
    } else {
        scope_chain_text(scope.drop_last(), ansi) + scope_entry_text(
            scope.last().0,
            scope.last().1,
            ansi,
        )
    }
}

/// The scope part of a line: the rendered chain and one trailing space,
/// or nothing when disabled or empty.
pub open spec fn scope_part(show: bool, scope: Seq<(Seq<char>, Seq<char>)>, ansi: bool) -> Seq<
    char,
> {
    if show && scope.len() > 0 {
        scope_chain_text(scope, ansi) + " "@
    } else {
        Seq::<char>::empty()
    }
}

/// The timestamp part of a line: the rendered instant and one space, in
/// dimmed style, or nothing when the format is suppressed.
pub open spec fn time_part(tf: TimeFormatView, ts: Seq<char>, ansi: bool) -> Seq<char> {
    if tf == TimeFormatView::Suppressed {
        Seq::<char>::empty()
    } else {
        spec_styled(StyleKind::Dimmed, ts + " "@, ansi)
    }
}

/// The level part of a line: the five-column level text and one space,
/// in the level's color.
pub open spec fn level_part(l: Level, ansi: bool) -> Seq<char> {
    spec_styled(level_style(l), level_text(l) + " "@, ansi)
}

/// The target part of a line: the target in dimmed blue and a literal
/// `": "`, or nothing when disabled.
pub open spec fn target_part(show: bool, target: Seq<char>, ansi: bool) -> Seq<char> {
    if show {
        spec_styled(StyleKind::DimmedBlue, target, ansi) + ": "@
    } else {
        Seq::<char>::empty()
    }
}

/// A complete rendered line.
pub open spec fn event_line(
    tf: TimeFormatView,
    show_scope: bool,
    show_target: bool,
    ts: Seq<char>,
    l: Level,
    scope: Seq<(Seq<char>, Seq<char>)>,
    target: Seq<char>,
    fields: Seq<(Seq<char>, FieldValueView)>,
    ansi: bool,
) -> Seq<char> {
    time_part(tf, ts, ansi) + level_part(l, ansi) + scope_part(show_scope, scope, ansi)
        + target_part(show_target, target, ansi) + rendered_fields(fields, ansi) + "\n"@
}

/// With a suppressed time format, a line has no timestamp prefix: it is
/// exactly the level part followed by the rest, whatever else is
/// configured.
pub proof fn lemma_suppressed_time_no_stamp(
    show_scope: bool,
    show_target: bool,
    ts: Seq<char>,
    l: Level,
    scope: Seq<(Seq<char>, Seq<char>)>,
    target: Seq<char>,
    fields: Seq<(Seq<char>, FieldValueView)>,
    ansi: bool,
)
    ensures
        event_line(
            TimeFormatView::Suppressed,
            show_scope,
            show_target,
            ts,
            l,
            scope,
            target,
            fields,
            ansi,
        ) == level_part(l, ansi) + scope_part(show_scope, scope, ansi) + target_part(
            show_target,
            target,
            ansi,
        ) + rendered_fields(fields, ansi) + "\n"@,
{
    assert(event_line(
        TimeFormatView::Suppressed,
        show_scope,
        show_target,
        ts,
        l,
        scope,
        target,
        fields,
        ansi,
    ) =~= level_part(l, ansi) + scope_part(show_scope, scope, ansi) + target_part(
        show_target,
        target,
        ansi,
    ) + rendered_fields(fields, ansi) + "\n"@);
}

/// With ANSI permitted, the level text is wrapped in an
/// escape-introduced color prefix and the reset suffix.
pub proof fn lemma_ansi_wraps_level(l: Level)
    ensures
        level_part(l, true) == style_prefix(level_style(l)) + (level_text(l) + " "@)
            + style_suffix(),
        style_prefix(level_style(l))[0] == '\u{1b}',
        style_prefix(level_style(l))[1] == '[',
{
    reveal_strlit("\u{1b}[35m");
    reveal_strlit("\u{1b}[34m");
    reveal_strlit("\u{1b}[32m");
    reveal_strlit("\u{1b}[33m");
    reveal_strlit("\u{1b}[31m");
}

/// Whether every name and every field text of a scope chain is free of
/// the escape character.
pub open spec fn esc_free_scope(scope: Seq<(Seq<char>, Seq<char>)>) -> bool {
    forall|i: int|
        0 <= i < scope.len() ==> esc_free(#[trigger] scope[i].0) && esc_free(scope[i].1)
}

/// With ANSI off, an escape-free scope chain renders to escape-free
/// text.
pub proof fn lemma_scope_chain_esc_free(scope: Seq<(Seq<char>, Seq<char>)>)
    requires
        esc_free_scope(scope),
    ensures
        esc_free(scope_chain_text(scope, false)),
    decreases scope.len(),
{
    reveal_strlit(":");
    if scope.len() > 0 {
        let rest = scope.drop_last();
        assert(esc_free_scope(rest)) by {
            assert forall|i: int|
                0 <= i < rest.len() implies esc_free(#[trigger] rest[i].0) && esc_free(
                rest[i].1,
            ) by {
                assert(rest[i] == scope[i]);
            }
        }
        lemma_scope_chain_esc_free(rest);
        assert(scope[scope.len() - 1] == scope.last());
        lemma_esc_free_concat(scope.last().0, scope.last().1);
        lemma_esc_free_concat(scope.last().0 + scope.last().1, ":"@);
        lemma_esc_free_concat(
            scope_chain_text(rest, false),
            scope.last().0 + scope.last().1 + ":"@,
        );
        assert(scope_chain_text(scope, false) =~= scope_chain_text(rest, false) + (
        scope.last().0 + scope.last().1 + ":"@));
    }
}

/// With ANSI off, no escape sequence appears anywhere in a rendered
/// line, whatever the configuration, as long as the host-supplied texts
/// carry none themselves.
pub proof fn lemma_no_ansi_no_escapes(
    tf: TimeFormatView,
    show_scope: bool,
    show_target: bool,
    ts: Seq<char>,
    l: Level,
    scope: Seq<(Seq<char>, Seq<char>)>,
    target: Seq<char>,
    fields: Seq<(Seq<char>, FieldValueView)>,
)
    requires
        esc_free(ts),
        esc_free(target),
        esc_free_scope(scope),
        esc_free_fields(fields),
    ensures
        esc_free(event_line(tf, show_scope, show_target, ts, l, scope, target, fields, false)),
{
    reveal_strlit(" ");
    reveal_strlit(": ");
    reveal_strlit("\n");
    reveal_strlit("TRACE");
    reveal_strlit("DEBUG");
    reveal_strlit(" INFO");
    reveal_strlit(" WARN");
    reveal_strlit("ERROR");
    let a = time_part(tf, ts, false);
    let b = level_part(l, false);
    let c = scope_part(show_scope, scope, false);
    let d = target_part(show_target, target, false);
    let e = rendered_fields(fields, false);
    assert(esc_free(a)) by {
        if tf != TimeFormatView::Suppressed {
            lemma_esc_free_concat(ts, " "@);
        }
    }
    assert(esc_free(b)) by {
        lemma_esc_free_concat(level_text(l), " "@);
    }
    assert(esc_free(c)) by {
        if show_scope && scope.len() > 0 {
            lemma_scope_chain_esc_free(scope);
            lemma_esc_free_concat(scope_chain_text(scope, false), " "@);
        }
    }
    assert(esc_free(d)) by {
        if show_target {
            lemma_esc_free_concat(target, ": "@);
        }
    }
    assert(esc_free(e)) by {
        lemma_fields_fold_esc_free(start_view(false), fields);
    }
    lemma_esc_free_concat(a, b);
    lemma_esc_free_concat(a + b, c);
    lemma_esc_free_concat(a + b + c, d);
    lemma_esc_free_concat(a + b + c + d, e);
    lemma_esc_free_concat(a + b + c + d + e, "\n"@);
}

/// The line formatter: which timestamp style to render, and whether the
/// target and the span scope are shown.
#[derive(Debug)]
pub struct EventFormatter {
    /// The timestamp style.
    pub time_format: TimeFormat,
    /// Whether the event's target is rendered.
    pub display_target: bool,
    /// Whether the active span scope is rendered.
    pub display_scope: bool,
}

impl EventFormatter {
    /// Create a new `EventFormatter` with the default options: local-zone
    /// timestamps, target and scope shown.
    pub fn new() -> (r: Self)
        ensures
            r.time_format@ == TimeFormatView::Local(Option::<Seq<char>>::None),
            r.display_target,
            r.display_scope,
    {
        EventFormatter {
            time_format: TimeFormat::default(),
            display_target: true,
            display_scope: true,
        }
    }

    /// Set the timestamp format for this event formatter.
    pub fn with_timestamp(self, time_format: TimeFormat) -> (r: Self)
        ensures
            r.time_format@ == time_format@,
            r.display_target == self.display_target,
            r.display_scope == self.display_scope,
    {
        EventFormatter { time_format, ..self }
    }

    /// Set whether or not an event's target is displayed.
    pub fn with_target(self, display_target: bool) -> (r: Self)
        ensures
            r.time_format@ == self.time_format@,
            r.display_target == display_target,
            r.display_scope == self.display_scope,
    {
        EventFormatter { display_target, ..self }
    }

    /// Set whether or not an event's span scope is displayed.
    pub fn with_scope(self, display_scope: bool) -> (r: Self)
        ensures
            r.time_format@ == self.time_format@,
            r.display_target == self.display_target,
            r.display_scope == display_scope,
    {
        EventFormatter { display_scope, ..self }
    }

    /// Render one complete line from the host-supplied context: the
    /// pre-rendered timestamp text, the event's level and target, the
    /// active scope chain root first, and the event's fields in order.
    #[verifier::rlimit(60)]
    pub fn format_event(
        &self,
        now: &str,
        level: &Level,
        scope: &Vec<ScopeEntry>,
        target: &str,
        fields: &Vec<Field>,
        ansi: bool,
    ) -> (r: String)
        ensures
            r@ == event_line(
                self.time_format@,
                self.display_scope,
                self.display_target,
                now@,
                *level,
                scope_view(scope@),
                target@,
                fields_view(fields@),
                ansi,
            ),
    {
        let ghost sv = scope_view(scope@);
        let mut out = String::new();

        // the timestamp
        if !self.time_format.is_none() {
            let mut stamp = String::from_str(now);
            stamp.append(" ");
            push_styled(&mut out, StyleKind::Dimmed, stamp.as_str(), ansi);
        }
        assert(out@ =~= time_part(self.time_format@, now@, ansi));

        // the level
        let mut level_col = String::from_str(level_label(level));
        level_col.append(" ");
        push_styled(&mut out, level_color(level), level_col.as_str(), ansi);
        assert(out@ =~= time_part(self.time_format@, now@, ansi) + level_part(*level, ansi));

        // the span scope, root first
        if self.display_scope && scope.len() > 0 {
            let ghost before = out@;
            for i in 0..scope.len()
                invariant
                    sv == scope_view(scope@),
                    out@ == before + scope_chain_text(sv.take(i as int), ansi),
            {
                let entry = &scope[i];
                push_styled(&mut out, StyleKind::DimmedCyan, entry.name.as_str(), ansi);
                if !entry.fields.as_str().is_empty() {
                    out.append(entry.fields.as_str());
                }
                out.append(":");
                proof {
                    assert(sv.take(i + 1).drop_last() =~= sv.take(i as int));
                    if entry.fields@.len() == 0 {
                        assert(entry.fields@ =~= Seq::<char>::empty());
                    }
                    assert(out@ =~= before + scope_chain_text(sv.take(i + 1), ansi));
                }
            }
            out.append(" ");
            proof {
                assert(sv.take(scope@.len() as int) =~= sv);
            }
        }
        assert(out@ =~= time_part(self.time_format@, now@, ansi) + level_part(*level, ansi)
            + scope_part(self.display_scope, sv, ansi));

        // the target
        if self.display_target {
            push_styled(&mut out, StyleKind::DimmedBlue, target, ansi);
            out.append(": ");
        }

        // the event's fields
        let mut visitor = FieldVisitor::new(ansi);
        visitor.record_all(fields);
        let rendered = visitor.finish();
        out.append(rendered.as_str());

        // the terminator
        out.append("\n");
        proof {
            assert(out@ =~= event_line(
                self.time_format@,
                self.display_scope,
                self.display_target,
                now@,
                *level,
                sv,
                target@,
                fields_view(fields@),
                ansi,
            ));
        }
        out
    }
}

impl Clone for EventFormatter {
    /// A clone renders lines exactly as the original does.
    fn clone(&self) -> (r: Self)
        ensures
            r.time_format@ == self.time_format@,
            r.display_target == self.display_target,
            r.display_scope == self.display_scope,
    {
        EventFormatter {
            time_format: self.time_format.clone(),
            display_target: self.display_target,
            display_scope: self.display_scope,
        }
    }
}

impl Default for EventFormatter {
    /// The default options: local-zone timestamps, target and scope
    /// shown.
    fn default() -> (r: Self)
        ensures
            r.time_format@ == TimeFormatView::Local(Option::<Seq<char>>::None),
            r.display_target,
            r.display_scope,
    {
        EventFormatter::new()
    }
}

} // verus!
