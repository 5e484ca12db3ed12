//! Mixed text spans: plain text and OSC 8 hyperlinks.
//!
//! Panel bodies and progress labels are sequences of spans, so clickable links
//! can be woven into otherwise plain output. On terminals without hyperlink
//! support a link renders as its text.

use vstd::prelude::*;

use crate::capabilities::Capabilities;
use crate::emit::{emit_hyperlink, hyperlink};
use crate::width::{capped, visible_cells, visible_width};

verus! {

/// A single inline element of mixed panel/progress content.
#[derive(Debug, Clone, PartialEq, Eq)]
pub enum Span {
    /// Plain text.
    Text { text: String },
    /// A hyperlink (OSC 8) with visible `text` pointing at `url`.
    Link { url: String, text: String },
}

/// The content of a span as character sequences.
pub enum SpanView {
    Text(Seq<char>),
    Link(Seq<char>, Seq<char>),
}

impl View for Span {
    type V = SpanView;

    open spec fn view(&self) -> SpanView {
        match self {
            Span::Text { text } => SpanView::Text(text@),
            Span::Link { url, text } => SpanView::Link(url@, text@),
        }
    }
}

/// The visible text of a span.
pub open spec fn span_visible(s: SpanView) -> Seq<char> {
    match s {
        SpanView::Text(t) => t,
        SpanView::Link(_, t) => t,
    }
}

/// How a span renders: text as is, a link as an OSC 8 hyperlink (or its text
/// alone without hyperlink support).
pub open spec fn span_rendered(caps: Capabilities, s: SpanView) -> Seq<char> {
    match s {
        SpanView::Text(t) => t,
        SpanView::Link(u, t) => hyperlink(caps.hyperlinks, caps.in_tmux, u, t),
    }
}

/// The views of a sequence of spans.
pub open spec fn views(spans: Seq<Span>) -> Seq<SpanView> {
    spans.map_values(|s: Span| s@)
}

/// The rendering of a sequence of spans, concatenated.
pub open spec fn spans_rendered(caps: Capabilities, spans: Seq<SpanView>) -> Seq<char>
    decreases spans.len(),
{
    if spans.len() == 0 {
        seq![]
    } else {
        spans_rendered(caps, spans.drop_last()) + span_rendered(caps, spans.last())
    }
}

/// Rendering distributes over concatenation: no spans render to nothing,
/// and `a` followed by `b` renders as `a`'s rendering followed by `b`'s.
pub proof fn rendering_concatenates(caps: Capabilities, a: Seq<SpanView>, b: Seq<SpanView>)
    ensures
        spans_rendered(caps, Seq::<SpanView>::empty()) == Seq::<char>::empty(),
        spans_rendered(caps, a + b) == spans_rendered(caps, a) + spans_rendered(caps, b),
    decreases b.len(),
{
    if b.len() == 0 {
        assert(a + b =~= a);
        assert(spans_rendered(caps, a) + Seq::<char>::empty() =~= spans_rendered(caps, a));
    } else {
        rendering_concatenates(caps, a, b.drop_last());
        assert((a + b).drop_last() =~= a + b.drop_last());
        assert((a + b).last() == b.last());
        assert(spans_rendered(caps, a) + spans_rendered(caps, b.drop_last()) + span_rendered(caps, b.last())
            =~= spans_rendered(caps, a) + (spans_rendered(caps, b.drop_last()) + span_rendered(caps, b.last())));
    }
}

/// The visible cells of a sequence of spans.
pub open spec fn spans_cells(spans: Seq<SpanView>) -> nat
    decreases spans.len(),
{
    if spans.len() == 0 {
        0
    } else {
        spans_cells(spans.drop_last()) + capped(visible_cells(span_visible(spans.last()))) as nat
    }
}

impl Span {
    /// A plain-text span.
    pub fn text(s: &str) -> (r: Self)
        ensures
            r@ == SpanView::Text(s@),
    {
        Span::Text { text: s.to_owned() }
    }

    /// A hyperlink span with visible `text` pointing at `url`.
    pub fn link(url: &str, text: &str) -> (r: Self)
        ensures
            r@ == SpanView::Link(url@, text@),
    {
        Span::Link { url: url.to_owned(), text: text.to_owned() }
    }

    /// The visible text of this span (no escape sequences).
    pub fn visible(&self) -> (t: &str)
        ensures
            t@ == span_visible(self@),
    {
        match self {
            Span::Text { text } => text.as_str(),
            Span::Link { text, .. } => text.as_str(),
        }
    }

    /// Renders this span for the given capabilities, with any OSC 8 and tmux
    /// wrapping required.
    pub fn render(&self, caps: &Capabilities) -> (r: String)
        ensures
            r@ == span_rendered(*caps, self@),
    {
        match self {
            Span::Text { text } => text.as_str().to_owned(),
            Span::Link { url, text } => emit_hyperlink(
                caps.hyperlinks,
                caps.in_tmux,
                url.as_str(),
                text.as_str(),
            ),
        }
    }
}

/// Renders a slice of spans into one string.
pub fn render_spans(caps: &Capabilities, spans: &[Span]) -> (r: String)
    ensures
        r@ == spans_rendered(*caps, views(spans@)),
{
    let mut s = String::new();
    let mut i: usize = 0;
    while i < spans.len()
        invariant
            i <= spans@.len(),
            s@ == spans_rendered(*caps, views(spans@.take(i as int))),
        decreases spans@.len() - i,
    {
        let r = spans[i].render(caps);
        s.push_str(r.as_str());
        assert(views(spans@.take(i + 1)).drop_last() =~= views(spans@.take(i as int)));
        i += 1;
    }
    assert(spans@.take(spans@.len() as int) =~= spans@);
    s
}

/// Visible width in terminal cells of a slice of spans (escape sequences in
/// span text ignored). A width past `usize::MAX` is reported as `usize::MAX`.
pub fn spans_width(spans: &[Span]) -> (w: usize)
    ensures
        w == capped(spans_cells(views(spans@))),
{
    let mut w: usize = 0;
    let mut i: usize = 0;
    while i < spans.len()
        invariant
            i <= spans@.len(),
            w == capped(spans_cells(views(spans@.take(i as int)))),
        decreases spans@.len() - i,
    {
        let sw = visible_width(spans[i].visible());
        assert(views(spans@.take(i + 1)).drop_last() =~= views(spans@.take(i as int)));
        if w <= usize::MAX - sw {
            w = w + sw;
        } else {
            w = usize::MAX;
        }
        i += 1;
    }
    assert(spans@.take(spans@.len() as int) =~= spans@);
    w
}

} // verus!
