//! Rendering of one event's or span's fields into text fragments.
//!
//! The field named exactly `message` is written in the default text style;
//! every other field is written as dimmed `[name=value]`, with error-valued
//! fields in dimmed red. Fields whose name carries the reserved `log.`
//! prefix are metadata from a log-record bridge and are suppressed
//! entirely. A single space separates the message from bracketed fields on
//! either side; bracketed fields need no separator between themselves.

use vstd::prelude::*;

use crate::style::StyleKind;
use crate::style::esc_free;
use crate::style::lemma_esc_free_concat;
use crate::style::push_styled;
use crate::style::spec_styled;
use crate::style::style_prefix;
use crate::style::style_suffix;

verus! {

/// The kind of field most recently rendered, used only to decide whether a
/// leading space is needed before the next fragment.
#[derive(Debug, Clone, Copy, PartialEq, Eq, Structural)]
pub enum FieldType {
    /// Nothing has been rendered yet in this pass.
    Start,
    /// The last fragment was the `message` field.
    Message,
    /// The last fragment was a bracketed non-message field.
    Other,
}

/// A field value as it arrives from the host boundary, resolved once at
/// capture time: text that came from a display rendering (a plain string),
/// text that came from a debug rendering, or an error's display message.
pub enum FieldValue {
    /// The value arrived as a plain string; as a message it is written
    /// without quoting.
    Display(String),
    /// The value arrived already rendered in its debug form.
    Debug(String),
    /// The value is an error object, carried as its display message.
    Error(String),
}

/// The mathematical shape of a [`FieldValue`].
pub enum FieldValueView {
    /// View of [`FieldValue::Display`].
    Display(Seq<char>),
    /// View of [`FieldValue::Debug`].
    Debug(Seq<char>),
    /// View of [`FieldValue::Error`].
    Error(Seq<char>),
}

impl View for FieldValue {
    type V = FieldValueView;

    open spec fn view(&self) -> FieldValueView {
        match self {
            FieldValue::Display(s) => FieldValueView::Display(s@),
            FieldValue::Debug(s) => FieldValueView::Debug(s@),
            FieldValue::Error(s) => FieldValueView::Error(s@),
        }
    }
}

/// One named field of an event or span.
pub struct Field {
    /// The field's name.
    pub name: String,
    /// The field's captured value.
    pub value: FieldValue,
}

impl View for Field {
    type V = (Seq<char>, FieldValueView);

    open spec fn view(&self) -> (Seq<char>, FieldValueView) {
        (self.name@, self.value@)
    }
}

/// What the result of the standard debug formatting of a string slice is:
/// the quoted, escaped form. The result depends on the characters of the
/// input alone.
pub uninterp spec fn debug_quoted(s: Seq<char>) -> Seq<char>;

/// Relies on the standard `Debug` formatting for `str`: it yields the
/// input quoted and with the non-printable characters escaped, so the
/// result never contains a raw escape character.
#[verifier::external_body]
fn debug_quote(s: &str) -> (r: String)
    ensures
        r@ == debug_quoted(s@),
        esc_free(r@),
{
    format!("{:?}", s)
}

/// Holds if `name` begins with the reserved `log.` prefix; such fields are
/// bridge metadata and must never appear in rendered output.
pub open spec fn is_suppressed(name: Seq<char>) -> bool {
    name.len() >= 4 && name.subrange(0, 4) == "log."@
}

/// The pad written before the message field: nothing at the start of a
/// pass, one space after any earlier field.
pub open spec fn pad_for_message(last: FieldType) -> Seq<char> {
    if last == FieldType::Start {
        Seq::<char>::empty()
    } else {
        " "@
    }
}

/// The pad written before a bracketed field: one space after the message,
/// nothing otherwise — brackets delimit themselves.
pub open spec fn pad_for_other(last: FieldType) -> Seq<char> {
    if last == FieldType::Message {
        " "@
    } else {
        Seq::<char>::empty()
    }
}

/// The text a value contributes when it stands as the message: plain
/// strings and error messages keep their display form, debug-rendered
/// values their given text.
pub open spec fn message_text(v: FieldValueView) -> Seq<char> {
    match v {
        FieldValueView::Display(s) => s,
        FieldValueView::Debug(s) => s,
        FieldValueView::Error(s) => s,
    }
}

/// The text a value contributes inside a bracketed field: a plain string
/// is shown in its debug form, a debug rendering as given, an error as its
/// display message.
pub open spec fn other_text(v: FieldValueView) -> Seq<char> {
    match v {
        FieldValueView::Display(s) => debug_quoted(s),
        FieldValueView::Debug(s) => s,
        FieldValueView::Error(s) => s,
    }
}

/// The style of a bracketed field: dimmed red for errors, dimmed
/// otherwise.
pub open spec fn other_style(v: FieldValueView) -> StyleKind {
    match v {
        FieldValueView::Error(_) => StyleKind::DimmedRed,
        _ => StyleKind::Dimmed,
    }
}

/// The body of a bracketed field, before styling.
pub open spec fn bracketed(name: Seq<char>, text: Seq<char>) -> Seq<char> {
    "["@ + name + "="@ + text + "]"@
}

/// The state of one rendering pass over a field set: the text accumulated
/// so far, the kind of the last rendered field, and whether the sink
/// permits ANSI styling.
#[verifier::ext_equal]
pub struct VisitorView {
    /// Text accumulated so far.
    pub out: Seq<char>,
    /// Kind of the most recently rendered field.
    pub last: FieldType,
    /// Whether the sink permits ANSI styling.
    pub ansi: bool,
}

/// The state a fresh pass starts from.
pub open spec fn start_view(ansi: bool) -> VisitorView {
    VisitorView { out: Seq::<char>::empty(), last: FieldType::Start, ansi }
}

/// How one field advances the rendering state: suppressed names change
/// nothing, the message field appends its padded text bare, and any other
/// field appends a styled bracketed fragment.
pub open spec fn field_step(st: VisitorView, name: Seq<char>, v: FieldValueView) -> VisitorView {
    if is_suppressed(name) {
        st
    } else if name == "message"@ {
        VisitorView {
            out: st.out + pad_for_message(st.last) + message_text(v),
            last: FieldType::Message,
            ansi: st.ansi,
        }
    } else {
        VisitorView {
            out: st.out + spec_styled(
                other_style(v),
                pad_for_other(st.last) + bracketed(name, other_text(v)),
                st.ansi,
            ),
            last: FieldType::Other,
            ansi: st.ansi,
        }
    }
}

/// The state after rendering a whole field set, in order, from `st`.
pub open spec fn fields_fold(st: VisitorView, fields: Seq<(Seq<char>, FieldValueView)>) -> VisitorView
    decreases fields.len(),
{
    if fields.len() == 0 {
        st
    } else {
        field_step(fields_fold(st, fields.drop_last()), fields.last().0, fields.last().1)
    }
}

/// The views of a sequence of fields.
pub open spec fn fields_view(fields: Seq<Field>) -> Seq<(Seq<char>, FieldValueView)> {
    fields.map_values(|f: Field| f@)
}

/// The text a whole field set renders to.
pub open spec fn rendered_fields(fields: Seq<(Seq<char>, FieldValueView)>, ansi: bool) -> Seq<char> {
    fields_fold(start_view(ansi), fields).out
}

/// Position `i` of `hay` starts an occurrence of `needle`.
pub open spec fn contains_at(hay: Seq<char>, i: int, needle: Seq<char>) -> bool {
    0 <= i && i + needle.len() <= hay.len() && hay.subrange(i, i + needle.len()) == needle
}

/// `needle` occurs somewhere in `hay`.
pub open spec fn contains_seq(hay: Seq<char>, needle: Seq<char>) -> bool {
    exists|i: int| contains_at(hay, i, needle)
}

/// The message field's name never carries the reserved prefix.
pub proof fn lemma_message_not_suppressed()
    ensures
        !is_suppressed("message"@),
{
    reveal_strlit("message");
    reveal_strlit("log.");
    if is_suppressed("message"@) {
        assert(("message"@).subrange(0, 4)[0] == 'm');
        assert(("log."@)[0] == 'l');
    }
}

/// A field whose name carries the reserved prefix produces no output and
/// leaves the spacing state untouched, whatever its value.
pub proof fn lemma_suppressed_field_is_skipped(
    st: VisitorView,
    name: Seq<char>,
    v: FieldValueView,
)
    requires
        is_suppressed(name),
    ensures
        field_step(st, name, v) == st,
{
}

/// The message field is never wrapped in brackets: it appends exactly its
/// pad and its text, bare, whatever the value and whether or not ANSI is
/// permitted.
pub proof fn lemma_message_unbracketed(st: VisitorView, v: FieldValueView)
    ensures
        field_step(st, "message"@, v).out == st.out + pad_for_message(st.last) + message_text(v),
        field_step(st, "message"@, v).last == FieldType::Message,
{
    lemma_message_not_suppressed();
}

/// Any rendered field other than the message carries the literal
/// `[name=` marker in its output.
#[verifier::rlimit(60)]
pub proof fn lemma_other_field_bracket_marker(st: VisitorView, name: Seq<char>, v: FieldValueView)
    requires
        !is_suppressed(name),
        name != "message"@,
    ensures
        contains_seq(field_step(st, name, v).out, "["@ + name + "="@),
{
    let needle = "["@ + name + "="@;
    let style = other_style(v);
    let text = other_text(v);
    let pad = pad_for_other(st.last);
    let out = field_step(st, name, v).out;
    let pre = if st.ansi {
        style_prefix(style)
    } else {
        Seq::<char>::empty()
    };
    let suf = if st.ansi {
        style_suffix()
    } else {
        Seq::<char>::empty()
    };
    let i: int = st.out.len() + pre.len() + pad.len() as int;
    assert(out =~= st.out + pre + pad + "["@ + name + "="@ + text + "]"@ + suf);
    assert(out.subrange(i, i + needle.len()) =~= needle);
    assert(contains_at(out, i, needle));
}

/// An error-valued field renders its display message, bracketed with its
/// name like other metadata, in the dimmed red style.
pub proof fn lemma_error_field_display_message(st: VisitorView, name: Seq<char>, msg: Seq<char>)
    requires
        !is_suppressed(name),
        name != "message"@,
    ensures
        field_step(st, name, FieldValueView::Error(msg)).out == st.out + spec_styled(
            StyleKind::DimmedRed,
            pad_for_other(st.last) + ("["@ + name + "="@ + msg + "]"@),
            st.ansi,
        ),
{
}

/// With ANSI permitted, every rendered non-message field is wrapped in an
/// escape-introduced style prefix and the reset suffix.
pub proof fn lemma_ansi_wraps_other_field(st: VisitorView, name: Seq<char>, v: FieldValueView)
    requires
        !is_suppressed(name),
        name != "message"@,
        st.ansi,
    ensures
        field_step(st, name, v).out == st.out + style_prefix(other_style(v)) + (pad_for_other(
            st.last,
        ) + bracketed(name, other_text(v))) + style_suffix(),
        style_prefix(other_style(v))[0] == '\u{1b}',
        style_prefix(other_style(v))[1] == '[',
{
    reveal_strlit("\u{1b}[2m");
    reveal_strlit("\u{1b}[2;31m");
    let flat = st.out + style_prefix(other_style(v)) + (pad_for_other(st.last) + bracketed(
        name,
        other_text(v),
    )) + style_suffix();
    assert(field_step(st, name, v).out =~= flat);
}

/// Whether a captured value's texts are free of the escape character.
pub open spec fn esc_free_value(v: FieldValueView) -> bool {
    esc_free(message_text(v)) && esc_free(other_text(v))
}

/// Whether every name and every text of a field set is free of the
/// escape character.
pub open spec fn esc_free_fields(fields: Seq<(Seq<char>, FieldValueView)>) -> bool {
    forall|i: int|
        0 <= i < fields.len() ==> esc_free(#[trigger] fields[i].0) && esc_free_value(fields[i].1)
}

/// With ANSI off, one field step adds no escape character when the
/// field's own texts carry none.
pub proof fn lemma_field_step_esc_free(st: VisitorView, name: Seq<char>, v: FieldValueView)
    requires
        !st.ansi,
        esc_free(st.out),
        esc_free(name),
        esc_free_value(v),
    ensures
        esc_free(field_step(st, name, v).out),
{
    reveal_strlit(" ");
    reveal_strlit("[");
    reveal_strlit("=");
    reveal_strlit("]");
    if is_suppressed(name) {
    } else if name == "message"@ {
        lemma_esc_free_concat(st.out, pad_for_message(st.last));
        lemma_esc_free_concat(st.out + pad_for_message(st.last), message_text(v));
    } else {
        let pad = pad_for_other(st.last);
        lemma_esc_free_concat("["@, name);
        lemma_esc_free_concat("["@ + name, "="@);
        lemma_esc_free_concat("["@ + name + "="@, other_text(v));
        lemma_esc_free_concat("["@ + name + "="@ + other_text(v), "]"@);
        lemma_esc_free_concat(pad, bracketed(name, other_text(v)));
        lemma_esc_free_concat(st.out, pad + bracketed(name, other_text(v)));
    }
}

/// The spacing state's ANSI capability never changes over a pass.
pub proof fn lemma_fields_fold_ansi(st: VisitorView, fields: Seq<(Seq<char>, FieldValueView)>)
    ensures
        fields_fold(st, fields).ansi == st.ansi,
    decreases fields.len(),
{
    if fields.len() > 0 {
        lemma_fields_fold_ansi(st, fields.drop_last());
    }
}

/// With ANSI off, a whole pass over escape-free fields yields
/// escape-free text.
pub proof fn lemma_fields_fold_esc_free(st: VisitorView, fields: Seq<(Seq<char>, FieldValueView)>)
    requires
        !st.ansi,
        esc_free(st.out),
        esc_free_fields(fields),
    ensures
        esc_free(fields_fold(st, fields).out),
    decreases fields.len(),
{
    if fields.len() > 0 {
        let rest = fields.drop_last();
        assert(esc_free_fields(rest)) by {
            assert forall|i: int|
                0 <= i < rest.len() implies esc_free(#[trigger] rest[i].0) && esc_free_value(
                rest[i].1,
            ) by {
                assert(rest[i] == fields[i]);
            }
        }
        lemma_fields_fold_esc_free(st, rest);
        lemma_fields_fold_ansi(st, rest);
        assert(fields[fields.len() - 1] == fields.last());
        lemma_field_step_esc_free(fields_fold(st, rest), fields.last().0, fields.last().1);
    }
}

/// Compare two string slices for character-for-character equality.
pub fn str_eq(a: &str, b: &str) -> (r: bool)
    ensures
        r == (a@ == b@),
{
    let a_len = a.unicode_len();
    let b_len = b.unicode_len();
    if a_len != b_len {
        return false;
    }
    for i in 0..a_len
        invariant
            a_len == a@.len(),
            b_len == b@.len(),
            a_len == b_len,
            forall|j: int| 0 <= j < i ==> a@[j] == b@[j],
    {
        if a.get_char(i) != b.get_char(i) {
            return false;
        }
    }
    proof {
        assert(a@ =~= b@);
    }
    true
}

/// Decide whether a field name carries the reserved `log.` prefix.
pub fn name_is_suppressed(name: &str) -> (r: bool)
    ensures
        r == is_suppressed(name@),
{
    let len = name.unicode_len();
    if len < 4 {
        return false;
    }
    let head = name.substring_char(0, 4);
    str_eq(head, "log.")
}

/// Decide whether a field is the message field.
pub fn name_is_message(name: &str) -> (r: bool)
    ensures
        r == (name@ == "message"@),
{
    str_eq(name, "message")
}

/// One rendering pass over a field set: the sink text built so far, and
/// the kind of the last rendered field. Created at the start of a pass and
/// finalized into the accumulated text at its end.
pub struct FieldVisitor {
    out: String,
    last: FieldType,
    ansi: bool,
}

impl View for FieldVisitor {
    type V = VisitorView;

    closed spec fn view(&self) -> VisitorView {
        VisitorView { out: self.out@, last: self.last, ansi: self.ansi }
    }
}

impl FieldVisitor {
    /// Begin a pass writing to a sink that permits ANSI styling iff
    /// `ansi`.
    pub fn new(ansi: bool) -> (r: Self)
        ensures
            r@ == start_view(ansi),
    {
        FieldVisitor { out: String::new(), last: FieldType::Start, ansi }
    }

    /// Render one field whose value arrived in its debug form.
    pub fn record_debug(&mut self, name: &str, value: &str)
        ensures
            final(self)@ == field_step(old(self)@, name@, FieldValueView::Debug(value@)),
    {
        if name_is_suppressed(name) {
            return;
        }
        if name_is_message(name) {
            if !matches!(self.last, FieldType::Start) {
                self.out.append(" ");
            }
            self.out.append(value);
            self.last = FieldType::Message;
        } else {
            let mut frag = String::new();
            if matches!(self.last, FieldType::Message) {
                frag.append(" ");
            }
            frag.append("[");
            frag.append(name);
            frag.append("=");
            frag.append(value);
            frag.append("]");
            push_styled(&mut self.out, StyleKind::Dimmed, frag.as_str(), self.ansi);
            self.last = FieldType::Other;
            proof {
                assert(frag@ =~= pad_for_other(old(self)@.last) + bracketed(name@, value@));
            }
        }
        proof {
            assert(final(self)@ =~= field_step(old(self)@, name@, FieldValueView::Debug(value@)));
        }
    }

    /// Render one field whose value arrived as a plain string: as the
    /// message it keeps its display form, anywhere else it is shown in its
    /// debug form.
    pub fn record_str(&mut self, name: &str, value: &str)
        ensures
            final(self)@ == field_step(old(self)@, name@, FieldValueView::Display(value@)),
    {
        if name_is_suppressed(name) {
            return;
        }
        if name_is_message(name) {
            if !matches!(self.last, FieldType::Start) {
                self.out.append(" ");
            }
            self.out.append(value);
            self.last = FieldType::Message;
            proof {
                assert(final(self)@ =~= field_step(
                    old(self)@,
                    name@,
                    FieldValueView::Display(value@),
                ));
            }
        } else {
            let quoted = debug_quote(value);
            self.record_debug(name, quoted.as_str());
            proof {
                assert(final(self)@ =~= field_step(
                    old(self)@,
                    name@,
                    FieldValueView::Display(value@),
                ));
            }
        }
    }

    /// Render one field whose value is an error object, given by its
    /// display message: bracketed like other metadata, but in dimmed
    /// red. A field named `message` is classified by its name first,
    /// so an error standing as the message is written bare, like any
    /// other message text.
    pub fn record_error(&mut self, name: &str, message: &str)
        ensures
            final(self)@ == field_step(old(self)@, name@, FieldValueView::Error(message@)),
    {
        if name_is_suppressed(name) {
            return;
        }
        if name_is_message(name) {
            if !matches!(self.last, FieldType::Start) {
                self.out.append(" ");
            }
            self.out.append(message);
            self.last = FieldType::Message;
        } else {
            let mut frag = String::new();
            if matches!(self.last, FieldType::Message) {
                frag.append(" ");
            }
            frag.append("[");
            frag.append(name);
            frag.append("=");
            frag.append(message);
            frag.append("]");
            push_styled(&mut self.out, StyleKind::DimmedRed, frag.as_str(), self.ansi);
            self.last = FieldType::Other;
            proof {
                assert(frag@ =~= pad_for_other(old(self)@.last) + bracketed(name@, message@));
            }
        }
        proof {
            assert(final(self)@ =~= field_step(old(self)@, name@, FieldValueView::Error(message@)));
        }
    }

    /// Render one field, dispatching on how its value was captured.
    pub fn record(&mut self, name: &str, value: &FieldValue)
        ensures
            final(self)@ == field_step(old(self)@, name@, value@),
    {
        match value {
            FieldValue::Display(s) => self.record_str(name, s.as_str()),
            FieldValue::Debug(s) => self.record_debug(name, s.as_str()),
            FieldValue::Error(s) => self.record_error(name, s.as_str()),
        }
    }

    /// Render a whole field set, in order.
    pub fn record_all(&mut self, fields: &Vec<Field>)
        ensures
            final(self)@ == fields_fold(old(self)@, fields_view(fields@)),
    {
        let ghost all = fields_view(fields@);
        for i in 0..fields.len()
            invariant
                all == fields_view(fields@),
                self@ == fields_fold(old(self)@, all.take(i as int)),
        {
            let f = &fields[i];
            self.record(f.name.as_str(), &f.value);
            proof {
                assert(all.take(i + 1).drop_last() =~= all.take(i as int));
                assert(all.take(i + 1).last() == all[i as int]);
            }
        }
        proof {
            assert(all.take(fields@.len() as int) =~= all);
        }
    }

    /// End the pass, yielding the accumulated text.
    pub fn finish(self) -> (r: String)
        ensures
            r@ == self@.out,
    {
        self.out
    }
}

/// The formatter for event and span fields: it opens one rendering pass
/// per field set.
#[derive(Debug)]
pub struct FieldFormatter {}

impl FieldFormatter {
    /// Create a new `FieldFormatter` with the default configuration.
    pub fn new() -> (r: Self)
        ensures
            r == (FieldFormatter {  }),
    {
        FieldFormatter {  }
    }

    /// Open a rendering pass for one field set, writing to a sink that
    /// permits ANSI styling iff `ansi`.
    pub fn make_visitor(&self, ansi: bool) -> (r: FieldVisitor)
        ensures
            r@ == start_view(ansi),
    {
        FieldVisitor::new(ansi)
    }

    /// Render a whole field set into its text.
    pub fn format_fields(&self, fields: &Vec<Field>, ansi: bool) -> (r: String)
        ensures
            r@ == rendered_fields(fields_view(fields@), ansi),
    {
        let mut visitor = self.make_visitor(ansi);
        visitor.record_all(fields);
        visitor.finish()
    }
}

impl Default for FieldFormatter {
    /// The default field formatter.
    fn default() -> (r: Self)
        ensures
            r == (FieldFormatter {  }),
    {
        FieldFormatter::new()
    }
}

impl Clone for FieldFormatter {
    /// A clone formats fields exactly as the original does.
    fn clone(&self) -> (r: Self)
        ensures
            r == *self,
    {
        FieldFormatter {  }
    }
}

} // verus!
