//! Diagnostic records: what went wrong, where in the source, and how to fix
//! it, kept apart from any rendering.
//!
//! A [`Diagnostic`] is built from plain values. [`Diagnostic::layout`] decides
//! what a rendered report shows (headline, labels, note); drawing it is left
//! to the caller.

use vstd::prelude::*;
use vstd::string::{StrSliceExecFns, StringExecFns, StringSliceAdditionalSpecFns};
use vstd::utf8::encode_utf8;

verus! {

/// A range of byte offsets into a source text.
#[derive(Debug, PartialEq, Eq, Structural, Clone, Copy)]
pub struct Span {
    pub start: usize,
    pub end: usize,
}

/// The places in the source that an error points at.
#[derive(Debug, Clone)]
pub enum ErrSpan {
    /// One range.
    One(Span),
    /// Two ranges.
    Two(Span, Span),
    /// Three or more ranges.
    Many(Vec<Span>),
}

impl ErrSpan {
    /// `Many` is only used for three ranges or more.
    pub open spec fn wf(&self) -> bool {
        self matches ErrSpan::Many(v) ==> v@.len() >= 3
    }

    /// All ranges, in order.
    pub open spec fn spans(&self) -> Seq<Span> {
        match self {
            ErrSpan::One(a) => seq![*a],
            ErrSpan::Two(a, b) => seq![*a, *b],
            ErrSpan::Many(v) => v@,
        }
    }

    /// The shape that holds the given ranges; there is none for an empty
    /// list.
    pub fn from_spans(spans: Vec<Span>) -> (r: Option<ErrSpan>)
        ensures
            r is Some <==> spans@.len() > 0,
            r matches Some(e) ==> e.wf() && e.spans() == spans@,
            spans@.len() == 1 ==> r matches Some(ErrSpan::One(_)),
            spans@.len() == 2 ==> r matches Some(ErrSpan::Two(_, _)),
            spans@.len() >= 3 ==> r matches Some(ErrSpan::Many(_)),
    {
        let n = spans.len();
        if n == 0 {
            None
        } else if n == 1 {
            let e = ErrSpan::One(spans[0]);
            assert(e.spans() =~= spans@);
            Some(e)
        } else if n == 2 {
            let e = ErrSpan::Two(spans[0], spans[1]);
            assert(e.spans() =~= spans@);
            Some(e)
        } else {
            Some(ErrSpan::Many(spans))
        }
    }

    /// The first range, if there is any.
    pub fn first(&self) -> (s: Option<Span>)
        ensures
            s == if self.spans().len() > 0 {
                Some(self.spans()[0])
            } else {
                None
            },
    {
        match self {
            ErrSpan::One(a) => Some(*a),
            ErrSpan::Two(a, _) => Some(*a),
            ErrSpan::Many(v) => if v.len() > 0 {
                Some(v[0])
            } else {
                None
            },
        }
    }

    /// How many ranges there are.
    pub fn count(&self) -> (n: usize)
        ensures
            n == self.spans().len(),
    {
        match self {
            ErrSpan::One(_) => 1,
            ErrSpan::Two(_, _) => 2,
            ErrSpan::Many(v) => v.len(),
        }
    }

    /// The range at `i`.
    pub fn get(&self, i: usize) -> (s: Span)
        requires
            i < self.spans().len(),
        ensures
            s == self.spans()[i as int],
    {
        match self {
            ErrSpan::One(a) => *a,
            ErrSpan::Two(a, b) => if i == 0 {
                *a
            } else {
                *b
            },
            ErrSpan::Many(v) => v[i],
        }
    }
}

/// How grave a diagnostic is. Everything reported here is an error.
#[derive(Debug, PartialEq, Eq, Structural, Clone, Copy)]
pub enum Severity {
    Error,
}

/// An error with what is known about its origin.
#[derive(Debug, Clone)]
pub struct Diagnostic {
    /// The error's own text.
    pub message: String,
    /// Name of the file the error belongs to, if there is one.
    pub filename: Option<String>,
    /// The source text the spans point into.
    pub source: Option<String>,
    /// Where in the source the error lies.
    pub span: Option<ErrSpan>,
    /// Advice on how to fix it.
    pub help: Option<String>,
    /// Whether the headline names the file; off where the file name already
    /// shows beside the quoted source.
    pub include_name_in_msg: bool,
}

/// The text of an optional string.
pub open spec fn opt_text(o: Option<String>) -> Option<Seq<char>> {
    match o {
        Some(s) => Some(s@),
        None => None,
    }
}

/// One marked range of a report.
#[derive(Debug, Clone)]
pub struct Label {
    pub span: Span,
    /// Text shown beside the range.
    pub message: Option<String>,
    /// Whether the label takes the next colour of the palette.
    pub colored: bool,
}

/// What a [`Label`] holds, as plain values.
pub struct LabelView {
    pub span: Span,
    pub message: Option<Seq<char>>,
    pub colored: bool,
}

impl View for Label {
    type V = LabelView;

    open spec fn view(&self) -> LabelView {
        LabelView { span: self.span, message: opt_text(self.message), colored: self.colored }
    }
}

/// What a rendered report shows.
#[derive(Debug, Clone)]
pub struct ReportLayout {
    /// First line of the report.
    pub headline: String,
    /// Name under which the source is quoted.
    pub file_id: String,
    /// Offset at which the report is anchored.
    pub offset: usize,
    /// Marked ranges, in the order they take their colours.
    pub labels: Vec<Label>,
    /// Text shown below the quoted source.
    pub note: Option<String>,
    /// The quoted source; empty when none is known.
    pub source: String,
}

/// What a [`ReportLayout`] holds, as plain values.
pub struct LayoutView {
    pub headline: Seq<char>,
    pub file_id: Seq<char>,
    pub offset: usize,
    pub labels: Seq<LabelView>,
    pub note: Option<Seq<char>>,
    pub source: Seq<char>,
}

impl View for ReportLayout {
    type V = LayoutView;

    open spec fn view(&self) -> LayoutView {
        LayoutView {
            headline: self.headline@,
            file_id: self.file_id@,
            offset: self.offset,
            labels: self.labels@.map_values(|l: Label| l@),
            note: opt_text(self.note),
            source: self.source@,
        }
    }
}

/// The name a source is quoted under when no file is known.
pub open spec fn default_file_id() -> Seq<char> {
    seq!['s', 'o', 'u', 'r', 'c', 'e']
}

/// A label that carries no text of its own.
pub open spec fn silent_label(span: Span) -> LabelView {
    LabelView { span, message: Some(Seq::<char>::empty()), colored: true }
}

impl Diagnostic {
    /// A bare message.
    pub fn simple(message: String) -> (d: Self)
        ensures
            d.message == message,
            d.filename is None,
            d.source is None,
            d.span is None,
            d.help is None,
            d.include_name_in_msg,
    {
        Diagnostic {
            message,
            filename: None,
            source: None,
            span: None,
            help: None,
            include_name_in_msg: true,
        }
    }

    /// A failure to read or write the named file.
    pub fn io(message: String, filename: Option<String>) -> (d: Self)
        ensures
            d.message == message,
            d.filename == filename,
            d.source is None,
            d.span is None,
            d.help is None,
            d.include_name_in_msg,
    {
        Diagnostic {
            message,
            filename,
            source: None,
            span: None,
            help: None,
            include_name_in_msg: true,
        }
    }

    /// An error of the parser or the assembler, with the source it was found
    /// in. The file name shows beside the source, so the headline leaves it
    /// out.
    pub fn ensemble(
        message: String,
        filename: Option<String>,
        source: String,
        span: Option<ErrSpan>,
        help: Option<String>,
    ) -> (d: Self)
        ensures
            d.message == message,
            d.filename == filename,
            d.source == Some(source),
            d.span == span,
            d.help == help,
            !d.include_name_in_msg,
    {
        Diagnostic { message, filename, source: Some(source), span, help, include_name_in_msg: false }
    }

    /// Every diagnostic is an error.
    pub fn severity(&self) -> (s: Severity)
        ensures
            s == Severity::Error,
    {
        Severity::Error
    }

    /// The first line: the message, led by the file name where one is known
    /// and wanted.
    pub open spec fn headline_text(&self) -> Seq<char> {
        match self.filename {
            Some(name) if self.include_name_in_msg => name@ + seq![':', ' '] + self.message@,
            _ => self.message@,
        }
    }

    /// The first line of the report.
    pub fn headline(&self) -> (s: String)
        ensures
            s@ == self.headline_text(),
    {
        match &self.filename {
            Some(name) if self.include_name_in_msg => {
                proof {
                    reveal_strlit(": ");
                    assert(": "@ =~= seq![':', ' ']);
                }
                let mut s = name.clone();
                s.append(": ");
                s.append(self.message.as_str());
                s
            },
            _ => self.message.clone(),
        }
    }

    /// The advice, unless there is none or it is empty.
    pub open spec fn help_view(&self) -> Option<Seq<char>> {
        match self.help {
            Some(h) if h@.len() > 0 => Some(h@),
            _ => None,
        }
    }

    /// The advice to show, if any.
    pub fn help_text(&self) -> (r: Option<String>)
        ensures
            opt_text(r) == self.help_view(),
    {
        match &self.help {
            Some(h) => {
                if h.as_str().is_empty() {
                    None
                } else {
                    Some(h.clone())
                }
            },
            None => None,
        }
    }

    /// The ranges to mark, without text; `None` where the error has no
    /// place in the source.
    pub fn labels(&self) -> (r: Option<Vec<Span>>)
        ensures
            r is Some <==> self.span is Some,
            r matches Some(v) ==> v@ == self.span->0.spans(),
    {
        match &self.span {
            None => None,
            Some(e) => {
                let n = e.count();
                let mut out: Vec<Span> = Vec::new();
                let mut i: usize = 0;
                while i < n
                    invariant
                        n == e.spans().len(),
                        i <= n,
                        out@ == e.spans().take(i as int),
                    decreases n - i,
                {
                    out.push(e.get(i));
                    assert(e.spans().take(i + 1) =~= e.spans().take(i as int).push(e.spans()[i as int]));
                    i += 1;
                }
                assert(e.spans().take(n as int) =~= e.spans());
                Some(out)
            },
        }
    }

    /// The name the source is quoted under.
    pub open spec fn file_id_text(&self) -> Seq<char> {
        match self.filename {
            Some(name) => name@,
            None => default_file_id(),
        }
    }

    /// Where the report is anchored: the start of the first range, or the
    /// start of the source.
    pub open spec fn offset_value(&self) -> usize {
        match self.span {
            Some(e) if e.spans().len() > 0 => e.spans()[0].start,
            _ => 0,
        }
    }

    /// The labels of the report. A single range carries the advice as its
    /// text. Two or more ranges carry no text. Without a range, advice is
    /// pinned to an unmarked label at the start of the source.
    pub open spec fn label_views(&self) -> Seq<LabelView> {
        match self.span {
            Some(ErrSpan::One(a)) => seq![
                LabelView { span: a, message: opt_text(self.help), colored: true },
            ],
            Some(e) => e.spans().map_values(|s: Span| silent_label(s)),
            None => match self.help {
                Some(_) => seq![
                    LabelView { span: Span { start: 0, end: 0 }, message: None, colored: false },
                ],
                None => Seq::empty(),
            },
        }
    }

    /// The text below the quoted source: the advice, unless a single label
    /// already carries it.
    pub open spec fn note_view(&self) -> Option<Seq<char>> {
        match self.span {
            Some(ErrSpan::One(_)) => None,
            _ => opt_text(self.help),
        }
    }

    /// The quoted source.
    pub open spec fn source_text(&self) -> Seq<char> {
        match self.source {
            Some(s) => s@,
            None => Seq::empty(),
        }
    }

    /// What the report of this diagnostic shows.
    pub open spec fn layout_view(&self) -> LayoutView {
        LayoutView {
            headline: self.headline_text(),
            file_id: self.file_id_text(),
            offset: self.offset_value(),
            labels: self.label_views(),
            note: self.note_view(),
            source: self.source_text(),
        }
    }

    /// Lays out the report.
    pub fn layout(&self) -> (r: ReportLayout)
        ensures
            r@ == self.layout_view(),
    {
        let headline = self.headline();
        let file_id = match &self.filename {
            Some(name) => name.clone(),
            None => {
                proof {
                    reveal_strlit("source");
                    assert("source"@ =~= default_file_id());
                }
                String::from_str("source")
            },
        };
        let offset = match &self.span {
            Some(e) => match e.first() {
                Some(first) => first.start,
                None => 0,
            },
            None => 0,
        };
        let mut labels: Vec<Label> = Vec::new();
        let mut note: Option<String> = None;
        match &self.span {
            Some(ErrSpan::One(a)) => {
                labels.push(Label { span: *a, message: self.help.clone(), colored: true });
                assert(labels@.map_values(|l: Label| l@) =~= self.label_views());
            },
            Some(e) => {
                let n = e.count();
                let mut i: usize = 0;
                while i < n
                    invariant
                        n == e.spans().len(),
                        i <= n,
                        labels@.len() == i,
                        forall|k: int|
                            0 <= k < i ==> (#[trigger] labels@[k])@ == silent_label(e.spans()[k]),
                    decreases n - i,
                {
                    labels.push(Label { span: e.get(i), message: Some(String::new()), colored: true });
                    i += 1;
                }
                note = self.help.clone();
                assert(labels@.map_values(|l: Label| l@) =~= self.label_views());
            },
            None => {
                match &self.help {
                    Some(h) => {
                        labels.push(
                            Label { span: Span { start: 0, end: 0 }, message: None, colored: false },
                        );
                        note = Some(h.clone());
                    },
                    None => {},
                }
                assert(labels@.map_values(|l: Label| l@) =~= self.label_views());
            },
        }
        let source = match &self.source {
            Some(s) => s.clone(),
            None => String::new(),
        };
        ReportLayout { headline, file_id, offset, labels, note, source }
    }
}

/// Whether a character is white space: one of the code points that Unicode
/// gives the property `White_Space`.
pub open spec fn white_space(c: char) -> bool {
    let u = c as u32;
    (0x09 <= u <= 0x0D) || u == 0x20 || u == 0x85 || u == 0xA0 || u == 0x1680 || (0x2000 <= u
        <= 0x200A) || u == 0x2028 || u == 0x2029 || u == 0x202F || u == 0x205F || u == 0x3000
}

/// Whether a character is white space.
pub fn is_white_space(c: char) -> (b: bool)
    ensures
        b == white_space(c),
{
    let u = c as u32;
    (0x09 <= u && u <= 0x0D) || u == 0x20 || u == 0x85 || u == 0xA0 || u == 0x1680 || (0x2000 <= u
        && u <= 0x200A) || u == 0x2028 || u == 0x2029 || u == 0x202F || u == 0x205F || u == 0x3000
}

/// How many characters of white space a text starts with.
pub open spec fn leading_white_space(text: Seq<char>) -> nat
    decreases text.len(),
{
    if text.len() > 0 && white_space(text[0]) {
        1 + leading_white_space(text.drop_first())
    } else {
        0
    }
}

/// The text without the white space it starts with.
pub open spec fn trim_start_text(text: Seq<char>) -> Seq<char> {
    text.skip(leading_white_space(text) as int)
}

/// The count of leading white space, from the fact that the first `i`
/// characters are white space and the next one is not.
proof fn leading_white_space_is(text: Seq<char>, i: int)
    requires
        0 <= i <= text.len(),
        forall|k: int| 0 <= k < i ==> white_space(text[k]),
        i < text.len() ==> !white_space(text[i]),
    ensures
        leading_white_space(text) == i,
    decreases i,
{
    if i > 0 {
        let rest = text.drop_first();
        assert forall|k: int| 0 <= k < i - 1 implies white_space(rest[k]) by {
            assert(rest[k] == text[k + 1]);
        }
        if i - 1 < rest.len() {
            assert(rest[i - 1] == text[i]);
        }
        leading_white_space_is(rest, i - 1);
    }
}

/// Adds a rendered report to the output, without the blank space that a
/// renderer puts in front of it.
pub fn append_report(writer: &mut Vec<u8>, rendered: &str)
    ensures
        final(writer)@ == old(writer)@ + encode_utf8(trim_start_text(rendered@)),
{
    let n = rendered.unicode_len();
    let mut i: usize = 0;
    while i < n && is_white_space(rendered.get_char(i))
        invariant
            n == rendered@.len(),
            i <= n,
            forall|k: int| 0 <= k < i ==> white_space(rendered@[k]),
        decreases n - i,
    {
        i += 1;
    }
    proof {
        leading_white_space_is(rendered@, i as int);
    }
    let rest = rendered.substring_char(i, n);
    assert(rest@ =~= trim_start_text(rendered@));
    let bytes = rest.as_bytes();
    let m = bytes.len();
    let mut j: usize = 0;
    while j < m
        invariant
            m == bytes@.len(),
            j <= m,
            writer@ == old(writer)@ + bytes@.take(j as int),
        decreases m - j,
    {
        writer.push(bytes[j]);
        assert(bytes@.take(j + 1) =~= bytes@.take(j as int).push(bytes@[j as int]));
        j += 1;
    }
    assert(bytes@.take(m as int) =~= bytes@);
}

} // verus!
