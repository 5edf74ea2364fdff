//! Styled text: what a panel hands to whoever draws it.

use vstd::prelude::*;
use vstd::string::StringExecFns;

verus! {

/// A colour of the terminal.
#[derive(Debug, Clone, Copy, PartialEq, Eq, Structural)]
pub enum Color {
    /// The terminal's own colour.
    Reset,
    White,
    Rgb(u8, u8, u8),
}

/// The accent colour of the program.
pub open spec fn primary() -> Color {
    Color::Rgb(37, 160, 101)
}

/// The accent colour of the program.
pub fn primary_color() -> (color: Color)
    ensures
        color == primary(),
{
    Color::Rgb(37, 160, 101)
}

/// How a piece of text is drawn. `None` leaves a colour as it is.
#[derive(Debug, Clone, Copy, PartialEq, Eq, Structural)]
pub struct Style {
    pub fg: Option<Color>,
    pub bg: Option<Color>,
    pub bold: bool,
    pub dim: bool,
}

impl Style {
    /// The style that changes nothing.
    pub open spec fn plain() -> Style {
        Style { fg: None, bg: None, bold: false, dim: false }
    }

    /// The style that changes nothing.
    pub fn new() -> (style: Style)
        ensures
            style == Style::plain(),
    {
        Style { fg: None, bg: None, bold: false, dim: false }
    }

    /// This style with the foreground set.
    pub fn fg(self, color: Color) -> (style: Style)
        ensures
            style == (Style { fg: Some(color), ..self }),
    {
        Style { fg: Some(color), bg: self.bg, bold: self.bold, dim: self.dim }
    }

    /// This style with the background set.
    pub fn bg(self, color: Color) -> (style: Style)
        ensures
            style == (Style { bg: Some(color), ..self }),
    {
        Style { fg: self.fg, bg: Some(color), bold: self.bold, dim: self.dim }
    }

    /// This style, bold.
    pub fn bold(self) -> (style: Style)
        ensures
            style == (Style { bold: true, ..self }),
    {
        Style { fg: self.fg, bg: self.bg, bold: true, dim: self.dim }
    }

    /// This style, dim.
    pub fn dim(self) -> (style: Style)
        ensures
            style == (Style { dim: true, ..self }),
    {
        Style { fg: self.fg, bg: self.bg, bold: self.bold, dim: true }
    }
}

/// A run of text in one style.
#[derive(Debug, PartialEq, Eq)]
pub struct Span {
    pub content: String,
    pub style: Style,
}

/// The mathematical value of a [`Span`].
pub struct SpanView {
    pub content: Seq<char>,
    pub style: Style,
}

impl View for Span {
    type V = SpanView;

    open spec fn view(&self) -> SpanView {
        SpanView { content: self.content@, style: self.style }
    }
}

impl DeepView for Span {
    type V = SpanView;

    open spec fn deep_view(&self) -> SpanView {
        self@
    }
}

impl Clone for Span {
    fn clone(&self) -> (copy: Self)
        ensures
            copy@ == self@,
    {
        Span { content: self.content.clone(), style: self.style }
    }
}

impl Span {
    /// Plain text.
    pub fn raw(content: String) -> (span: Span)
        ensures
            span@ == (SpanView { content: content@, style: Style::plain() }),
    {
        Span { content, style: Style::new() }
    }

    /// Text in a style.
    pub fn styled(content: String, style: Style) -> (span: Span)
        ensures
            span@ == (SpanView { content: content@, style }),
    {
        Span { content, style }
    }
}

/// A line of text: its spans from left to right, over a style for the whole line.
#[derive(Debug, PartialEq, Eq)]
pub struct Line {
    pub spans: Vec<Span>,
    pub style: Style,
}

/// The mathematical value of a [`Line`].
pub struct LineView {
    pub spans: Seq<SpanView>,
    pub style: Style,
}

impl View for Line {
    type V = LineView;

    open spec fn view(&self) -> LineView {
        LineView { spans: self.spans.deep_view(), style: self.style }
    }
}

impl DeepView for Line {
    type V = LineView;

    open spec fn deep_view(&self) -> LineView {
        self@
    }
}

impl Clone for Line {
    fn clone(&self) -> (copy: Self)
        ensures
            copy@ == self@,
    {
        let mut spans: Vec<Span> = Vec::new();
        let mut i: usize = 0;
        while i < self.spans.len()
            invariant
                i <= self.spans.len(),
                spans.len() == i,
                forall|j: int| 0 <= j < i ==> spans[j]@ == self.spans[j]@,
            decreases self.spans.len() - i,
        {
            spans.push(self.spans[i].clone());
            i = i + 1;
        }
        assert(spans.deep_view() =~= self.spans.deep_view());
        Line { spans, style: self.style }
    }
}

impl LineView {
    /// The characters of the line, styles left aside.
    pub open spec fn text(self) -> Seq<char>
        decreases self.spans.len(),
    {
        if self.spans.len() == 0 {
            Seq::empty()
        } else {
            LineView { spans: self.spans.drop_last(), style: self.style }.text()
                + self.spans.last().content
        }
    }
}

impl Line {
    /// The characters of the line, styles left aside.
    pub fn text(&self) -> (text: String)
        ensures
            text@ == self@.text(),
    {
        let ghost spans = self.spans.deep_view();
        let mut text = String::new();
        let mut i: usize = 0;
        while i < self.spans.len()
            invariant
                spans == self.spans.deep_view(),
                i <= self.spans.len(),
                text@ == (LineView { spans: spans.take(i as int), style: self.style }).text(),
            decreases self.spans.len() - i,
        {
            proof {
                assert(spans.take(i + 1).drop_last() =~= spans.take(i as int));
            }
            text.append(self.spans[i].content.as_str());
            i = i + 1;
        }
        assert(spans.take(i as int) =~= spans);
        text
    }

    /// A line of the given spans, in no style of its own.
    pub fn from_spans(spans: Vec<Span>) -> (line: Line)
        ensures
            line@ == (LineView { spans: spans.deep_view(), style: Style::plain() }),
    {
        Line { spans, style: Style::new() }
    }

    /// A line of plain text.
    pub fn raw(content: String) -> (line: Line)
        ensures
            line@ == (LineView {
                spans: seq![SpanView { content: content@, style: Style::plain() }],
                style: Style::plain(),
            }),
    {
        let mut spans: Vec<Span> = Vec::new();
        spans.push(Span::raw(content));
        assert(spans.deep_view() =~= seq![SpanView { content: content@, style: Style::plain() }]);
        Line { spans, style: Style::new() }
    }
}

} // verus!
