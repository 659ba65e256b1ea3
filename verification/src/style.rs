//! Semantic style labels and their resolution to ANSI escape codes.
//!
//! A style is applied — the text wrapped in an escape prefix and the reset
//! suffix — only when the destination currently permits ANSI styling;
//! otherwise the same text is written bare. The concrete escape codes come
//! from `nu_ansi_term` through a single trusted wrapper whose contract
//! states the exact code for each label.

use vstd::prelude::*;

use nu_ansi_term::Color;
use nu_ansi_term::Style;

verus! {

/// A semantic style label, resolved to a concrete ANSI style only at
/// render time.
#[derive(Debug, Clone, Copy, PartialEq, Eq, Structural)]
pub enum StyleKind {
    /// Faint default-color text: timestamps and bracketed fields.
    Dimmed,
    /// Faint red text: error-valued fields.
    DimmedRed,
    /// Faint cyan text: span names in the scope chain.
    DimmedCyan,
    /// Faint blue text: the event target.
    DimmedBlue,
    /// Purple text: the trace level.
    Purple,
    /// Blue text: the debug level.
    Blue,
    /// Green text: the info level.
    Green,
    /// Yellow text: the warn level.
    Yellow,
    /// Red text: the error level.
    Red,
}

/// The ANSI escape prefix emitted for each style label.
pub open spec fn style_prefix(k: StyleKind) -> Seq<char> {
    match k {
        StyleKind::Dimmed => "\u{1b}[2m"@,
        StyleKind::DimmedRed => "\u{1b}[2;31m"@,
        StyleKind::DimmedCyan => "\u{1b}[2;36m"@,
        StyleKind::DimmedBlue => "\u{1b}[2;34m"@,
        StyleKind::Purple => "\u{1b}[35m"@,
        StyleKind::Blue => "\u{1b}[34m"@,
        StyleKind::Green => "\u{1b}[32m"@,
        StyleKind::Yellow => "\u{1b}[33m"@,
        StyleKind::Red => "\u{1b}[31m"@,
    }
}

/// The ANSI reset suffix, the same for every label here.
pub open spec fn style_suffix() -> Seq<char> {
    "\u{1b}[0m"@
}

/// Text as it reaches the sink: wrapped in the escape codes for `k` when
/// ANSI is permitted, bare otherwise.
pub open spec fn spec_styled(k: StyleKind, text: Seq<char>, ansi: bool) -> Seq<char> {
    if ansi {
        style_prefix(k) + text + style_suffix()
    } else {
        text
    }
}

/// Relies on `nu_ansi_term::Style::paint` and the `Display` of the painted
/// string: it writes the style's escape prefix, the text, then the reset
/// suffix, and the codes for these fixed styles are the ones
/// `style_prefix` and `style_suffix` give.
#[verifier::external_body]
fn paint(k: StyleKind, text: &str) -> (r: String)
    ensures
        r@ == style_prefix(k) + text@ + style_suffix(),
{
    let style = match k {
        StyleKind::Dimmed => Style::default().dimmed(),
        StyleKind::DimmedRed => Color::Red.dimmed(),
        StyleKind::DimmedCyan => Color::Cyan.dimmed(),
        StyleKind::DimmedBlue => Color::Blue.dimmed(),
        StyleKind::Purple => Color::Purple.normal(),
        StyleKind::Blue => Color::Blue.normal(),
        StyleKind::Green => Color::Green.normal(),
        StyleKind::Yellow => Color::Yellow.normal(),
        StyleKind::Red => Color::Red.normal(),
    };
    format!("{}", style.paint(text))
}

/// Append `text` to `out`, wrapped in the codes for `k` exactly when
/// `ansi` is set.
pub fn push_styled(out: &mut String, k: StyleKind, text: &str, ansi: bool)
    ensures
        final(out)@ == old(out)@ + spec_styled(k, text@, ansi),
{
    if ansi {
        let painted = paint(k, text);
        out.append(painted.as_str());
    } else {
        out.append(text);
    }
}

/// Holds when no ANSI escape character occurs in `s`.
pub open spec fn esc_free(s: Seq<char>) -> bool {
    forall|i: int| 0 <= i < s.len() ==> s[i] != '\u{1b}'
}

/// Escape-freedom distributes over concatenation.
pub proof fn lemma_esc_free_concat(a: Seq<char>, b: Seq<char>)
    requires
        esc_free(a),
        esc_free(b),
    ensures
        esc_free(a + b),
{
    assert forall|i: int| 0 <= i < (a + b).len() implies (a + b)[i] != '\u{1b}' by {
        if i < a.len() {
            assert((a + b)[i] == a[i]);
        } else {
            assert((a + b)[i] == b[i - a.len()]);
        }
    }
}

} // verus!
