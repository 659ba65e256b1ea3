//! Timestamp formats for rendered lines.
//!
//! A [`TimeFormat`] is chosen once at setup: no timestamp at all, the
//! default bracketed pattern in the local zone or in UTC, or a custom
//! strftime-like pattern in either zone. A custom pattern is validated at
//! construction time, so that an unknown directive is a setup error rather
//! than a silent render-time failure. The actual calendar arithmetic is
//! `jiff`'s; this module decides which pattern and zone are used.

use vstd::prelude::*;

use jiff::Timestamp;

verus! {

/// `jiff`'s instant type, carried through opaquely: the formatter never
/// looks inside it.
#[verifier::external_type_specification]
#[verifier::external_body]
pub struct ExTimestamp(Timestamp);

/// Relies on `jiff::Timestamp::now`: nothing is assumed of the returned
/// instant. It aborts only if the system clock is outside `jiff`'s
/// representable range.
pub assume_specification[ Timestamp::now ]() -> Timestamp;

/// Whether `jiff` accepts `pat` when formatting a zone-aware reference
/// instant. The answer depends on the pattern alone.
pub uninterp spec fn local_pattern_ok(pat: Seq<char>) -> bool;

/// Whether `jiff` accepts `pat` when formatting a plain reference
/// instant. The answer depends on the pattern alone.
pub uninterp spec fn utc_pattern_ok(pat: Seq<char>) -> bool;

/// Relies on `jiff::fmt::strtime::format` over a fixed zoned reference
/// instant: it rejects a pattern it cannot format, notably one with an
/// unknown directive, and the answer depends on the pattern alone.
#[verifier::external_body]
fn check_local_pattern(pat: &str) -> (r: bool)
    ensures
        r == local_pattern_ok(pat@),
{
    let zoned = jiff::Zoned::new(Timestamp::UNIX_EPOCH, jiff::tz::TimeZone::UTC);
    jiff::fmt::strtime::format(pat.as_bytes(), &zoned).is_ok()
}

/// Relies on `jiff::fmt::strtime::format` over a fixed plain reference
/// instant: it rejects a pattern it cannot format, notably one with an
/// unknown directive, and the answer depends on the pattern alone.
#[verifier::external_body]
fn check_utc_pattern(pat: &str) -> (r: bool)
    ensures
        r == utc_pattern_ok(pat@),
{
    jiff::fmt::strtime::format(pat.as_bytes(), Timestamp::UNIX_EPOCH).is_ok()
}

/// Relies on `jiff::Zoned::strftime` semantics via
/// `jiff::fmt::strtime::format` in the system time zone: the rendered text
/// depends on the zone the machine is in, so nothing is assumed of it;
/// `None` reports a formatting failure.
#[verifier::external_body]
fn strftime_system(ts: &Timestamp, pat: &str) -> Option<String> {
    let zoned = jiff::Zoned::new(*ts, jiff::tz::TimeZone::system());
    jiff::fmt::strtime::format(pat.as_bytes(), &zoned).ok()
}

/// The view of an optional rendered text.
pub open spec fn opt_text_view(r: Option<String>) -> Option<Seq<char>> {
    match r {
        Option::Some(s) => Option::Some(s@),
        Option::None => Option::None,
    }
}

/// What `jiff` renders a plain instant to under a pattern, in UTC:
/// `None` when formatting fails. The outcome depends on the instant and
/// the pattern alone — jiff uses static tables, no locale, no zone and
/// no environment for a plain instant.
pub uninterp spec fn utc_rendered(ts: Timestamp, pat: Seq<char>) -> Option<Seq<char>>;

/// Relies on `jiff::fmt::strtime::format` over a plain instant: the text
/// renders the instant in UTC under the pattern, a function of the two
/// alone; `None` reports a formatting failure.
#[verifier::external_body]
fn strftime_utc(ts: &Timestamp, pat: &str) -> (r: Option<String>)
    ensures
        opt_text_view(r) == utc_rendered(*ts, pat@),
{
    jiff::fmt::strtime::format(pat.as_bytes(), *ts).ok()
}

/// The rejected pattern, reported when a custom time format fails
/// validation at construction time.
#[derive(Debug)]
pub struct TimePatternError {
    /// The pattern that was rejected.
    pub pattern: String,
}

/// Private implementation for `TimeFormat`.
#[derive(Debug)]
enum InnerTimeFormat {
    /// No timestamp is rendered.
    Suppressed,
    /// Local-zone rendering, with a custom pattern or the default.
    Local(Option<String>),
    /// UTC rendering, with a custom pattern or the default.
    Utc(Option<String>),
}

/// The mathematical shape of a [`TimeFormat`].
pub enum TimeFormatView {
    /// No timestamp is rendered.
    Suppressed,
    /// Local-zone rendering, with a custom pattern or the default.
    Local(Option<Seq<char>>),
    /// UTC rendering, with a custom pattern or the default.
    Utc(Option<Seq<char>>),
}

/// The style of timestamp rendered for each line, chosen once at setup.
#[derive(Debug)]
pub struct TimeFormat {
    inner: InnerTimeFormat,
}

impl View for TimeFormat {
    type V = TimeFormatView;

    closed spec fn view(&self) -> TimeFormatView {
        match self.inner {
            InnerTimeFormat::Suppressed => TimeFormatView::Suppressed,
            InnerTimeFormat::Local(Option::Some(ref p)) => TimeFormatView::Local(
                Option::Some(p@),
            ),
            InnerTimeFormat::Local(Option::None) => TimeFormatView::Local(Option::None),
            InnerTimeFormat::Utc(Option::Some(ref p)) => TimeFormatView::Utc(Option::Some(p@)),
            InnerTimeFormat::Utc(Option::None) => TimeFormatView::Utc(Option::None),
        }
    }
}

impl TimeFormat {
    /// The default local-zone pattern: a bracketed RFC 3339-like stamp
    /// with a numeric offset.
    pub const LOCAL_FORMAT: &'static str = "[%Y-%m-%dT%H:%M:%S%z]";

    /// The default UTC pattern: the same stamp with a literal `Z` in
    /// place of the numeric offset.
    pub const UTC_FORMAT: &'static str = "[%Y-%m-%dT%H:%M:%SZ]";

    /// Do not render a timestamp.
    pub fn none() -> (r: Self)
        ensures
            r@ == TimeFormatView::Suppressed,
    {
        TimeFormat { inner: InnerTimeFormat::Suppressed }
    }

    /// Render a timestamp in the local zone using the default pattern.
    pub fn local() -> (r: Self)
        ensures
            r@ == TimeFormatView::Local(Option::<Seq<char>>::None),
    {
        TimeFormat { inner: InnerTimeFormat::Local(Option::None) }
    }

    /// Render a timestamp in UTC using the default pattern.
    pub fn utc() -> (r: Self)
        ensures
            r@ == TimeFormatView::Utc(Option::<Seq<char>>::None),
    {
        TimeFormat { inner: InnerTimeFormat::Utc(Option::None) }
    }

    /// Render a timestamp in the local zone using a custom pattern.
    ///
    /// The pattern is validated here: one with an unknown directive is
    /// rejected before anything is ever rendered with it.
    pub fn local_custom(pattern: &str) -> (r: Result<Self, TimePatternError>)
        ensures
            r is Ok <==> local_pattern_ok(pattern@),
            r matches Ok(t) ==> t@ == TimeFormatView::Local(Option::Some(pattern@)),
            r matches Err(e) ==> e.pattern@ == pattern@,
    {
        if check_local_pattern(pattern) {
            Ok(
                TimeFormat {
                    inner: InnerTimeFormat::Local(Option::Some(String::from_str(pattern))),
                },
            )
        } else {
            Err(TimePatternError { pattern: String::from_str(pattern) })
        }
    }

    /// Render a timestamp in UTC using a custom pattern.
    ///
    /// The pattern is validated here: one with an unknown directive is
    /// rejected before anything is ever rendered with it.
    pub fn utc_custom(pattern: &str) -> (r: Result<Self, TimePatternError>)
        ensures
            r is Ok <==> utc_pattern_ok(pattern@),
            r matches Ok(t) ==> t@ == TimeFormatView::Utc(Option::Some(pattern@)),
            r matches Err(e) ==> e.pattern@ == pattern@,
    {
        if check_utc_pattern(pattern) {
            Ok(TimeFormat { inner: InnerTimeFormat::Utc(Option::Some(String::from_str(pattern))) })
        } else {
            Err(TimePatternError { pattern: String::from_str(pattern) })
        }
    }

    /// The strftime pattern this format renders with: the custom pattern
    /// when one was supplied, else the zone's default; none when the
    /// timestamp is suppressed.
    pub fn effective_pattern(&self) -> (r: Option<&str>)
        ensures
            (r is None) <==> self@ == TimeFormatView::Suppressed,
            self@ matches TimeFormatView::Local(Some(p)) ==> (r matches Some(q) && q@ == p),
            self@ matches TimeFormatView::Utc(Some(p)) ==> (r matches Some(q) && q@ == p),
            self@ == TimeFormatView::Local(Option::<Seq<char>>::None) ==> (r matches Some(q) && q@
                == "[%Y-%m-%dT%H:%M:%S%z]"@),
            self@ == TimeFormatView::Utc(Option::<Seq<char>>::None) ==> (r matches Some(q) && q@
                == "[%Y-%m-%dT%H:%M:%SZ]"@),
    {
        match &self.inner {
            InnerTimeFormat::Suppressed => None,
            InnerTimeFormat::Local(Option::Some(p)) => Some(p.as_str()),
            InnerTimeFormat::Local(Option::None) => Some(Self::LOCAL_FORMAT),
            InnerTimeFormat::Utc(Option::Some(p)) => Some(p.as_str()),
            InnerTimeFormat::Utc(Option::None) => Some(Self::UTC_FORMAT),
        }
    }

    /// Whether no timestamp is rendered.
    pub fn is_none(&self) -> (r: bool)
        ensures
            r == (self@ == TimeFormatView::Suppressed),
    {
        matches!(self.inner, InnerTimeFormat::Suppressed)
    }

    /// Render the given instant in this format: empty when suppressed,
    /// UTC formats exactly as `jiff` renders the instant under the
    /// pattern [`Self::effective_pattern`] chooses — a function of the
    /// two alone — and local formats under the machine's own zone.
    /// `None` reports a render-time formatting failure.
    pub fn render(&self, ts: &Timestamp) -> (r: Option<String>)
        ensures
            self@ == TimeFormatView::Suppressed ==> (r matches Some(s) && s@ == Seq::<
                char,
            >::empty()),
            self@ == TimeFormatView::Utc(Option::<Seq<char>>::None) ==> opt_text_view(r)
                == utc_rendered(*ts, "[%Y-%m-%dT%H:%M:%SZ]"@),
            self@ matches TimeFormatView::Utc(Some(p)) ==> opt_text_view(r) == utc_rendered(
                *ts,
                p,
            ),
    {
        let pat = match self.effective_pattern() {
            Option::Some(p) => p,
            Option::None => {
                return Some(String::new());
            },
        };
        match &self.inner {
            InnerTimeFormat::Suppressed => vstd::pervasive::unreached(),
            InnerTimeFormat::Local(_) => strftime_system(ts, pat),
            InnerTimeFormat::Utc(_) => strftime_utc(ts, pat),
        }
    }

    /// Render the current system time in this format: empty when
    /// suppressed, and for UTC formats `jiff`'s rendering of some
    /// instant under the chosen pattern.
    pub fn render_now(&self) -> (r: Option<String>)
        ensures
            self@ == TimeFormatView::Suppressed ==> (r matches Some(s) && s@ == Seq::<
                char,
            >::empty()),
            self@ == TimeFormatView::Utc(Option::<Seq<char>>::None) ==> exists|t: Timestamp|
                opt_text_view(r) == utc_rendered(t, "[%Y-%m-%dT%H:%M:%SZ]"@),
            self@ matches TimeFormatView::Utc(Some(p)) ==> exists|t: Timestamp|
                opt_text_view(r) == utc_rendered(t, p),
    {
        let now = Timestamp::now();
        let r = self.render(&now);
        proof {
            match self@ {
                TimeFormatView::Utc(Option::None) => {
                    assert(opt_text_view(r) == utc_rendered(now, "[%Y-%m-%dT%H:%M:%SZ]"@));
                },
                TimeFormatView::Utc(Option::Some(p)) => {
                    assert(opt_text_view(r) == utc_rendered(now, p));
                },
                _ => {
                },
            }
        }
        r
    }
}

impl Default for TimeFormat {
    /// The default is the local zone with the default pattern.
    fn default() -> (r: Self)
        ensures
            r@ == TimeFormatView::Local(Option::<Seq<char>>::None),
    {
        TimeFormat::local()
    }
}

impl Clone for TimeFormat {
    /// A clone renders timestamps exactly as the original does.
    fn clone(&self) -> (r: Self)
        ensures
            r@ == self@,
    {
        TimeFormat {
            inner: match &self.inner {
                InnerTimeFormat::Suppressed => InnerTimeFormat::Suppressed,
                InnerTimeFormat::Local(Option::Some(p)) => InnerTimeFormat::Local(
                    Option::Some(p.clone()),
                ),
                InnerTimeFormat::Local(Option::None) => InnerTimeFormat::Local(Option::None),
                InnerTimeFormat::Utc(Option::Some(p)) => InnerTimeFormat::Utc(
                    Option::Some(p.clone()),
                ),
                InnerTimeFormat::Utc(Option::None) => InnerTimeFormat::Utc(Option::None),
            },
        }
    }
}

} // verus!
