//! The fixed, ordered list of highlight categories.
//!
//! The order is significant: a highlight event reports a category by its index
//! into this list, and the class table is looked up by the same index.

use vstd::prelude::*;

verus! {

/// The ordered category names, one per semantic token kind. The list is
/// immutable for the process lifetime; the grammar configuration and the
/// class table are both bound to it by position.
pub open spec fn category_names() -> Seq<Seq<char>> {
    seq![
        "attribute"@,
        "comment"@,
        "constant"@,
        "constructor"@,
        "escape"@,
        "function"@,
        "include"@,
        "keyword"@,
        "label"@,
        "namespace"@,
        "number"@,
        "operator"@,
        "property"@,
        "punctuation"@,
        "repeat"@,
        "string"@,
        "type"@,
        "variable"@,
    ]
}

/// The views of a sequence of string slices.
pub open spec fn str_views(ss: Seq<&str>) -> Seq<Seq<char>> {
    ss.map_values(|s: &str| s@)
}

/// The views of a sequence of owned strings.
pub open spec fn string_views(ss: Seq<String>) -> Seq<Seq<char>> {
    ss.map_values(|s: String| s@)
}

/// The recognized highlight-category names, in category order.
pub fn highlight_names() -> (r: Vec<&'static str>)
    ensures
        str_views(r@) == category_names(),
{
    let mut v: Vec<&'static str> = Vec::new();
    v.push("attribute");
    v.push("comment");
    v.push("constant");
    v.push("constructor");
    v.push("escape");
    v.push("function");
    v.push("include");
    v.push("keyword");
    v.push("label");
    v.push("namespace");
    v.push("number");
    v.push("operator");
    v.push("property");
    v.push("punctuation");
    v.push("repeat");
    v.push("string");
    v.push("type");
    v.push("variable");
    proof {
        assert(str_views(v@) =~= category_names());
    }
    v
}

} // verus!
