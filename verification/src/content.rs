//! Rendering of a document body from Markdown to an HTML fragment.

use vstd::prelude::*;

verus! {

/// The HTML fragment that `pulldown_cmark` makes of a Markdown text.
pub uninterp spec fn markdown_html(body: Seq<char>) -> Seq<char>;

/// Runs `pulldown_cmark::Parser::new` on the text, with no extension
/// enabled, and `pulldown_cmark::html::push_html` on its events. Trusted:
/// that the fragment depends on the text alone.
#[verifier::external_body]
fn push_markdown(body: &str) -> (html: String)
    ensures
        html@ == markdown_html(body@),
{
    let mut html = String::new();
    pulldown_cmark::html::push_html(&mut html, pulldown_cmark::Parser::new(body));
    html
}

/// Renders a Markdown body as an HTML fragment. There is no input that is
/// refused: malformed Markdown is rendered as the grammar reads it.
pub fn render_body(body: &str) -> (html: String)
    ensures
        html@ == markdown_html(body@),
{
    push_markdown(body)
}

/// Rendering one body twice gives the same fragment, character for character.
pub proof fn rendering_is_repeatable(first: Seq<char>, second: Seq<char>)
    requires
        first == second,
    ensures
        markdown_html(first) == markdown_html(second),
{
}

} // verus!
