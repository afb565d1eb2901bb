//! The grammar registry: the compiled Swift grammar and its query bundle.
//!
//! The bundle is built from compile-time assets (the grammar and its three
//! queries), so construction is deterministic; a construction failure means a
//! malformed built-in asset and aborts loudly rather than being handled per
//! call.

use vstd::prelude::*;
use crate::categories::{category_names, highlight_names, str_views};

verus! {

/// tree_sitter_highlight's compiled grammar-configuration type, opaque here.
#[verifier::external_type_specification]
#[verifier::external_body]
pub struct ExHighlightConfiguration(tree_sitter_highlight::HighlightConfiguration);

/// Says that `cfg` is the compiled Swift grammar bundle — the Swift language
/// with its highlight, injection and locals queries — configured to recognize
/// exactly the ordered category list `names`. Every such bundle behaves
/// identically, since the grammar and queries are fixed compile-time assets.
pub uninterp spec fn configured_for(
    cfg: tree_sitter_highlight::HighlightConfiguration,
    names: Seq<Seq<char>>,
) -> bool;

/// Owns the compiled grammar plus its queries, bound to the fixed category
/// list. Never mutated after construction.
pub struct GrammarConfig {
    pub(crate) cfg: tree_sitter_highlight::HighlightConfiguration,
}

impl GrammarConfig {
    /// Well-formed: holds the Swift grammar bundle configured with the fixed
    /// ordered category list.
    pub closed spec fn wf(&self) -> bool {
        configured_for(self.cfg, category_names())
    }
}

/// Relies on tree_sitter_highlight::HighlightConfiguration::new, which
/// compiles the grammar of tree_sitter_swift with its three fixed query
/// assets, and on HighlightConfiguration::configure, which binds the
/// recognized names so that highlight indices resolve to them by position.
/// Panics only if the compile-time assets are malformed (a build defect, not
/// an input condition).
#[verifier::external_body]
fn build_config(names: &Vec<&str>) -> (g: GrammarConfig)
    ensures
        configured_for(g.cfg, str_views(names@)),
{
    let mut cfg = tree_sitter_highlight::HighlightConfiguration::new(
        tree_sitter_swift::LANGUAGE.into(),
        "swift",
        tree_sitter_swift::HIGHLIGHTS_QUERY,
        tree_sitter_swift::INJECTIONS_QUERY,
        tree_sitter_swift::LOCALS_QUERY,
    )
    .unwrap();
    cfg.configure(names.as_slice());
    GrammarConfig { cfg }
}

/// GrammarRegistry accessor: the Swift grammar bundle, bound to the fixed
/// category list. Construction is deterministic, so every call returns an
/// equivalently configured bundle.
pub fn get_grammar_config() -> (g: GrammarConfig)
    ensures
        g.wf(),
{
    let names = highlight_names();
    build_config(&names)
}

} // verus!
