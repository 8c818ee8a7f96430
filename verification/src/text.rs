//! Styled text: spans, lines, and the small string builders the footer needs.
use vstd::prelude::*;

verus! {

/// The foreground colors the footer uses.
#[derive(Clone, Copy, Debug, PartialEq, Eq)]
pub enum Color {
    Red,
    Green,
    Yellow,
    Magenta,
    Cyan,
}

/// The style of a span or of a whole line: an optional foreground color and
/// the bold and dim modifiers.
#[derive(Clone, Copy, Debug, PartialEq, Eq)]
pub struct SpanStyle {
    pub fg: Option<Color>,
    pub bold: bool,
    pub dim: bool,
}

/// The unstyled style.
pub open spec fn plain_style() -> SpanStyle {
    SpanStyle { fg: None, bold: false, dim: false }
}

/// Only the dim modifier.
pub open spec fn dim_style() -> SpanStyle {
    SpanStyle { fg: None, bold: false, dim: true }
}

/// A foreground color, without modifiers.
pub open spec fn fg_style(c: Color) -> SpanStyle {
    SpanStyle { fg: Some(c), bold: false, dim: false }
}

/// A foreground color in bold.
pub open spec fn fg_bold_style(c: Color) -> SpanStyle {
    SpanStyle { fg: Some(c), bold: true, dim: false }
}

impl SpanStyle {
    pub fn plain() -> (s: SpanStyle)
        ensures
            s == plain_style(),
    {
        SpanStyle { fg: None, bold: false, dim: false }
    }

    pub fn dimmed() -> (s: SpanStyle)
        ensures
            s == dim_style(),
    {
        SpanStyle { fg: None, bold: false, dim: true }
    }

    pub fn colored(c: Color) -> (s: SpanStyle)
        ensures
            s == fg_style(c),
    {
        SpanStyle { fg: Some(c), bold: false, dim: false }
    }

    pub fn colored_bold(c: Color) -> (s: SpanStyle)
        ensures
            s == fg_bold_style(c),
    {
        SpanStyle { fg: Some(c), bold: true, dim: false }
    }
}

/// The mathematical value of a span: its characters and its style.
pub struct SpanView {
    pub text: Seq<char>,
    pub style: SpanStyle,
}

/// The mathematical value of a line: its spans in order and the line style.
#[verifier::ext_equal]
pub struct LineView {
    pub spans: Seq<SpanView>,
    pub style: SpanStyle,
}

pub open spec fn span_view(text: Seq<char>, style: SpanStyle) -> SpanView {
    SpanView { text, style }
}

/// A line made of the given spans, with the plain line style.
pub open spec fn line_view(spans: Seq<SpanView>) -> LineView {
    LineView { spans, style: plain_style() }
}

/// The same line with the dim modifier added to its line style.
pub open spec fn dim_line(l: LineView) -> LineView {
    LineView { spans: l.spans, style: SpanStyle { dim: true, ..l.style } }
}

/// A run of text with one style.
#[derive(Clone, Debug)]
pub struct FooterSpan {
    pub content: String,
    pub style: SpanStyle,
}

impl View for FooterSpan {
    type V = SpanView;

    open spec fn view(&self) -> SpanView {
        SpanView { text: self.content@, style: self.style }
    }
}

/// A line of spans, with a style that applies under the styles of the spans.
#[derive(Clone, Debug)]
pub struct FooterLine {
    pub spans: Vec<FooterSpan>,
    pub style: SpanStyle,
}

pub open spec fn span_views(spans: Seq<FooterSpan>) -> Seq<SpanView> {
    spans.map_values(|s: FooterSpan| s@)
}

impl View for FooterLine {
    type V = LineView;

    open spec fn view(&self) -> LineView {
        LineView { spans: span_views(self.spans@), style: self.style }
    }
}

/// The values of a sequence of lines.
pub open spec fn line_views(lines: Seq<FooterLine>) -> Seq<LineView> {
    lines.map_values(|l: FooterLine| l@)
}

impl FooterSpan {
    /// A span holding `text` in `style`.
    pub fn styled(text: &str, style: SpanStyle) -> (s: FooterSpan)
        ensures
            s@ == span_view(text@, style),
    {
        FooterSpan { content: String::from_str(text), style }
    }

    /// A span holding `text` with no style.
    pub fn raw(text: &str) -> (s: FooterSpan)
        ensures
            s@ == span_view(text@, plain_style()),
    {
        FooterSpan { content: String::from_str(text), style: SpanStyle::plain() }
    }

    /// A dim span holding `text`.
    pub fn dim(text: &str) -> (s: FooterSpan)
        ensures
            s@ == span_view(text@, dim_style()),
    {
        FooterSpan { content: String::from_str(text), style: SpanStyle::dimmed() }
    }
}

impl FooterLine {
    /// A line with no spans and the plain line style.
    pub fn empty() -> (l: FooterLine)
        ensures
            l@ == line_view(Seq::empty()),
    {
        let l = FooterLine { spans: Vec::new(), style: SpanStyle::plain() };
        assert(l@.spans =~= Seq::<SpanView>::empty());
        l
    }

    /// Appends a span at the end of the line.
    pub fn push_span(&mut self, span: FooterSpan)
        ensures
            final(self)@ == (LineView { spans: old(self)@.spans.push(span@), style: old(self)@.style }),
    {
        self.spans.push(span);
        assert(span_views(self.spans@) =~= span_views(old(self).spans@).push(span@));
    }

    /// Appends copies of the spans of `other` at the end of the line.
    pub fn extend_spans(&mut self, other: &FooterLine)
        ensures
            final(self)@ == (LineView { spans: old(self)@.spans + other@.spans, style: old(self)@.style }),
    {
        let mut i: usize = 0;
        while i < other.spans.len()
            invariant
                i <= other.spans.len(),
                self@ == (LineView {
                    spans: old(self)@.spans + span_views(other.spans@.take(i as int)),
                    style: old(self)@.style,
                }),
            decreases other.spans.len() - i,
        {
            let s = &other.spans[i];
            self.push_span(FooterSpan { content: s.content.clone(), style: s.style });
            assert(span_views(other.spans@.take(i + 1)) =~= span_views(other.spans@.take(i as int)).push(
                other.spans@[i as int]@,
            ));
            assert(self@.spans =~= old(self)@.spans + span_views(other.spans@.take(i + 1)));
            i = i + 1;
        }
        assert(other.spans@.take(i as int) =~= other.spans@);
    }

    /// Adds the dim modifier to the line style.
    pub fn dim(self) -> (l: FooterLine)
        ensures
            l@ == dim_line(self@),
    {
        FooterLine { spans: self.spans, style: SpanStyle { dim: true, ..self.style } }
    }
}

/// The number of terminal columns that a string occupies, as the
/// `unicode-width` tables (through ratatui's `Span::width`) measure it.
pub uninterp spec fn display_width(text: Seq<char>) -> nat;

/// Calls ratatui's `Span::width`, which measures `text` with
/// `unicode-width`'s `UnicodeWidthStr::width`. The contract claims that the
/// result depends on the characters alone, and, as that crate's source shows
/// (every character below U+00A0 other than a `\r` before a `\n` counts one
/// column), that a string of spaces is as wide as it is long.
#[verifier::external_body]
fn span_width(text: &str) -> (w: usize)
    ensures
        w == display_width(text@),
        (forall|i: int| 0 <= i < text@.len() ==> text@[i] == ' ') ==> w == text@.len(),
{
    ratatui::text::Span::raw(text).width()
}

/// `n`, or `usize::MAX` where `n` does not fit in a `usize`.
pub open spec fn capped(n: int) -> int {
    if n > usize::MAX {
        usize::MAX as int
    } else {
        n
    }
}

/// The display width of a sequence of spans: the sum of their widths.
pub open spec fn spans_width(spans: Seq<SpanView>) -> nat
    decreases spans.len(),
{
    if spans.len() == 0 {
        0
    } else {
        spans_width(spans.drop_last()) + display_width(spans.last().text)
    }
}

/// The display width of a line.
pub open spec fn line_width(l: LineView) -> nat {
    spans_width(l.spans)
}

impl FooterSpan {
    /// The number of columns the span occupies.
    pub fn width(&self) -> (w: usize)
        ensures
            w == display_width(self.content@),
    {
        span_width(self.content.as_str())
    }
}

impl FooterLine {
    /// The number of columns the line occupies: the sum of the widths of its
    /// spans (`usize::MAX` if that sum does not fit).
    pub fn width(&self) -> (w: usize)
        ensures
            w == capped(line_width(self@) as int),
    {
        let mut total: usize = 0;
        let mut i: usize = 0;
        while i < self.spans.len()
            invariant
                i <= self.spans.len(),
                total == capped(spans_width(span_views(self.spans@.take(i as int))) as int),
            decreases self.spans.len() - i,
        {
            let w = self.spans[i].width();
            total = total.saturating_add(w);
            assert(span_views(self.spans@.take(i + 1)).drop_last() =~= span_views(
                self.spans@.take(i as int),
            ));
            i = i + 1;
        }
        assert(self.spans@.take(i as int) =~= self.spans@);
        total
    }

    /// A copy of the line.
    pub fn duplicate(&self) -> (l: FooterLine)
        ensures
            l@ == self@,
    {
        let mut spans: Vec<FooterSpan> = Vec::new();
        let mut i: usize = 0;
        while i < self.spans.len()
            invariant
                i <= self.spans.len(),
                span_views(spans@) =~= span_views(self.spans@.take(i as int)),
            decreases self.spans.len() - i,
        {
            let s = &self.spans[i];
            spans.push(FooterSpan { content: s.content.clone(), style: s.style });
            assert(span_views(self.spans@.take(i + 1)) =~= span_views(self.spans@.take(i as int)).push(
                self.spans@[i as int]@,
            ));
            i = i + 1;
        }
        assert(self.spans@.take(i as int) =~= self.spans@);
        FooterLine { spans, style: self.style }
    }
}

/// The ten decimal digits, in order.
pub open spec fn digit_chars() -> Seq<char> {
    seq!['0', '1', '2', '3', '4', '5', '6', '7', '8', '9']
}

/// The decimal representation of `n`, without sign or leading zeros.
pub open spec fn decimal(n: nat) -> Seq<char>
    decreases n,
{
    if n < 10 {
        seq![digit_chars()[n as int]]
    } else {
        decimal(n / 10).push(digit_chars()[(n % 10) as int])
    }
}

/// The decimal text of `n` (what `n.to_string()` gives).
pub fn decimal_string(n: u64) -> (s: String)
    ensures
        s@ == decimal(n as nat),
    decreases n,
{
    let digits = "0123456789";
    proof {
        reveal_strlit("0123456789");
    }
    let d = (n % 10) as usize;
    let digit = digits.substring_char(d, d + 1);
    assert(digit@ =~= seq![digit_chars()[d as int]]);
    if n < 10 {
        String::from_str(digit)
    } else {
        let mut s = decimal_string(n / 10);
        s.append(digit);
        assert(s@ =~= decimal(n as nat));
        s
    }
}

/// `n` spaces (what `" ".repeat(n)` gives).
pub fn spaces(n: usize) -> (s: String)
    ensures
        s@ == Seq::new(n as nat, |i: int| ' '),
{
    let mut s = String::new();
    let mut i: usize = 0;
    while i < n
        invariant
            i <= n,
            s@ == Seq::new(i as nat, |k: int| ' '),
        decreases n - i,
    {
        proof {
            reveal_strlit(" ");
        }
        s.append(" ");
        i = i + 1;
        assert(s@ =~= Seq::new(i as nat, |k: int| ' '));
    }
    s
}

} // verus!
