//! The highlighter: raw source text to line-delimited HTML markup.
//!
//! The grammar drives a stream of highlight events over the text; the events
//! are rendered into one HTML fragment per source line, each classified span
//! wrapped in an element carrying the class-table attribute for its category.
//! No error ever reaches the caller: when the backend fails, the original
//! text is returned unchanged.

use vstd::prelude::*;
use crate::categories::string_views;
use crate::classes::{class_attr_for, class_table, get_class_table};
use crate::grammar::{get_grammar_config, GrammarConfig};

verus! {

/// The outcome of the highlight-and-render pipeline on `source` with the
/// attribute fragments `classes` bound to the category indices: the
/// line-delimited HTML fragments in source order, or nothing when the backend
/// reports an error. The grammar and queries are fixed assets, so the outcome
/// depends on `source` and `classes` alone.
pub uninterp spec fn swift_render(source: Seq<char>, classes: Seq<Seq<char>>) -> Option<
    Seq<Seq<char>>,
>;

/// What `highlight_swift` returns for a given source text: the concatenation
/// of the rendered line fragments, in order, when rendering succeeds, and the
/// source text itself, unchanged, when it fails.
pub open spec fn highlight_post(source: Seq<char>, r: Seq<char>) -> bool {
    match swift_render(source, class_table()) {
        Some(lines) => r == lines.flatten(),
        None => r == source,
    }
}

/// Relies on tree_sitter_highlight::Highlighter::highlight, which produces
/// the highlight-event stream for `source` under the Swift grammar bundle,
/// and on HtmlRenderer::render and HtmlRenderer::lines, which turn the events
/// into one HTML fragment per source line; the attribute for each classified
/// span is supplied by the bounds-checked `class_attr_for` lookup. The whole
/// pipeline is deterministic in `source` and `classes`, which `swift_render`
/// names; an error from either stage yields `None`. On success the rendered
/// text is never empty: render always closes the buffer with a line break.
#[verifier::external_body]
fn render_lines(g: &GrammarConfig, source: &str, classes: &Vec<String>) -> (r: Option<Vec<String>>)
    requires
        g.wf(),
    ensures
        r is Some <==> swift_render(source@, string_views(classes@)) is Some,
        r matches Some(lines) ==> string_views(lines@) == swift_render(
            source@,
            string_views(classes@),
        ).unwrap(),
        r matches Some(lines) ==> string_views(lines@).flatten().len() > 0,
{
    let mut highlighter = tree_sitter_highlight::Highlighter::new();
    let events = match highlighter.highlight(&g.cfg, source.as_bytes(), None, None, |_| None) {
        Ok(events) => events,
        Err(_) => return None,
    };
    let mut renderer = tree_sitter_highlight::HtmlRenderer::new();
    let callback = |h: tree_sitter_highlight::Highlight, out: &mut Vec<u8>| {
        out.extend_from_slice(class_attr_for(classes, h.0).as_bytes());
    };
    match renderer.render(events, source.as_bytes(), &callback) {
        Ok(()) => Some(renderer.lines().map(|line| line.to_string()).collect()),
        Err(_) => None,
    }
}

/// Reconstitute the renderer's line fragments into one string, preserving
/// line order and boundaries exactly as produced.
pub fn concat_lines(lines: &Vec<String>) -> (r: String)
    ensures
        r@ == string_views(lines@).flatten(),
{
    let mut out = String::new();
    let mut i: usize = 0;
    while i < lines.len()
        invariant
            i <= lines@.len(),
            out@ == string_views(lines@).subrange(0, i as int).flatten(),
        decreases lines@.len() - i,
    {
        out.append(lines[i].as_str());
        i = i + 1;
        proof {
            let views = string_views(lines@);
            assert(views.subrange(0, i as int)
                =~= views.subrange(0, i - 1).push(views[i - 1]));
            views.subrange(0, i - 1).lemma_flatten_push(views[i - 1]);
        }
    }
    proof {
        assert(string_views(lines@).subrange(0, lines@.len() as int) =~= string_views(lines@));
    }
    out
}

/// Render `source` as syntax-highlighted HTML with a prepared grammar bundle.
/// On success the result is the rendered line fragments concatenated in
/// order; on any backend failure it is the source text unchanged, so no error
/// ever reaches the caller.
pub fn highlight_with(config: &GrammarConfig, source: &str) -> (r: String)
    requires
        config.wf(),
    ensures
        highlight_post(source@, r@),
        source@.len() > 0 ==> r@.len() > 0,
{
    let classes = get_class_table();
    match render_lines(config, source, &classes) {
        Some(lines) => concat_lines(&lines),
        None => source.to_owned(),
    }
}

/// Highlight Swift source text as HTML, falling back to the unchanged text
/// when rendering fails.
pub fn highlight_swift(source: &str) -> (r: String)
    ensures
        highlight_post(source@, r@),
        source@.len() > 0 ==> r@.len() > 0,
{
    let config = get_grammar_config();
    highlight_with(&config, source)
}

/// Law: highlighting is deterministic — two results for the same source text
/// are equal, so repeated calls are interchangeable.
pub proof fn lemma_highlight_deterministic(source: Seq<char>, r1: Seq<char>, r2: Seq<char>)
    requires
        highlight_post(source, r1),
        highlight_post(source, r2),
    ensures
        r1 == r2,
{
}

/// Law (the provable direction of content preservation): when the backend
/// fails and the fallback is taken, the returned text equals the source
/// exactly — no content is lost or altered.
pub proof fn lemma_fallback_preserves_content(source: Seq<char>, r: Seq<char>)
    requires
        highlight_post(source, r),
        swift_render(source, class_table()) is None,
    ensures
        r == source,
{
}

/// Law: the class table is a single value — two results of `get_class_table`
/// hold the same strings.
pub proof fn lemma_class_table_value_identical(a: Seq<String>, b: Seq<String>)
    requires
        string_views(a) == class_table(),
        string_views(b) == class_table(),
    ensures
        string_views(a) == string_views(b),
{
}

} // verus!
