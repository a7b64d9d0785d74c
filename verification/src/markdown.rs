//! Block and inline CommonMark rendering, as named results of the engine.

use vstd::prelude::*;

verus! {

/// What the CommonMark engine produces for `s` under block rules:
/// paragraphs wrapped in `<p>`, headings in `<hN>`, literal text escaped.
/// Fixed by the characters of `s` alone.
pub uninterp spec fn md_block_of(s: Seq<char>) -> Seq<char>;

/// What the CommonMark engine produces for `s` under inline rules: the
/// block conversion with every paragraph start and end event left out, so a
/// short label stands without an enclosing `<p>`. Dropping every paragraph
/// event, not only the outermost pair, means a paragraph nested inside a
/// block container loses its tags too. Fixed by the characters of `s`
/// alone.
pub uninterp spec fn md_inline_of(s: Seq<char>) -> Seq<char>;

/// Relies on pulldown_cmark::Parser and pulldown_cmark::html::push_html:
/// CommonMark-to-HTML conversion, a function of the input characters alone.
#[verifier::external_body]
fn md_block(s: &str) -> (r: String)
    ensures
        r@ == md_block_of(s@),
{
    let mut out = String::new();
    let parser = pulldown_cmark::Parser::new(s);
    pulldown_cmark::html::push_html(&mut out, parser);
    out
}

/// Relies on pulldown_cmark::Parser and pulldown_cmark::html::push_html,
/// with the paragraph events dropped before conversion: a function of the
/// input characters alone.
#[verifier::external_body]
fn md_inline(s: &str) -> (r: String)
    ensures
        r@ == md_inline_of(s@),
{
    let parser = pulldown_cmark::Parser::new(s).filter(|event| match event {
        pulldown_cmark::Event::Start(pulldown_cmark::Tag::Paragraph) => false,
        pulldown_cmark::Event::End(pulldown_cmark::Tag::Paragraph) => false,
        _ => true,
    });
    let mut out = String::new();
    pulldown_cmark::html::push_html(&mut out, parser);
    out
}

/// A markdown string rendered with block rules.
#[derive(Debug)]
pub struct Markdown(pub String);

/// A markdown string rendered with inline rules; used for checkbox option
/// labels, which sit where a block element would not be valid.
#[derive(Debug)]
pub struct MarkdownInline(pub String);

impl DeepView for Markdown {
    type V = Seq<char>;

    open spec fn deep_view(&self) -> Seq<char> {
        self.0@
    }
}

impl DeepView for MarkdownInline {
    type V = Seq<char>;

    open spec fn deep_view(&self) -> Seq<char> {
        self.0@
    }
}

impl Markdown {
    /// The block HTML of the wrapped string.
    pub fn render(&self) -> (r: String)
        ensures
            r@ == md_block_of(self.0@),
    {
        md_block(self.0.as_str())
    }
}

impl MarkdownInline {
    /// The inline HTML of the wrapped string: no enclosing paragraph element.
    pub fn render(&self) -> (r: String)
        ensures
            r@ == md_inline_of(self.0@),
    {
        md_inline(self.0.as_str())
    }
}

} // verus!
