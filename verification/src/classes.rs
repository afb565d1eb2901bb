//! The class table: one markup attribute fragment per highlight category.
//!
//! Each category name is sanitized (characters that the attribute syntax
//! disallows are replaced) and embedded in a namespaced `class` attribute.
//! Table entry `i` is derived from category name `i`, so a category index
//! reported by the grammar resolves to its attribute by position.

use vstd::prelude::*;
use crate::categories::{category_names, string_views};

verus! {

/// A sanitized character: `.` is disallowed in the generated class names and
/// becomes `-`; every other character is kept.
pub open spec fn sanitize_char(c: char) -> char {
    if c == '.' {
        '-'
    } else {
        c
    }
}

/// A category name with every disallowed character replaced.
pub open spec fn sanitized(name: Seq<char>) -> Seq<char> {
    name.map_values(|c: char| sanitize_char(c))
}

/// The full attribute fragment derived from one category name: the sanitized
/// name under the fixed `ts-` namespace prefix.
pub open spec fn class_attr(name: Seq<char>) -> Seq<char> {
    "class=\"ts-"@ + sanitized(name) + "\""@
}

/// The class table value: one attribute fragment per category, in category order.
pub open spec fn class_table() -> Seq<Seq<char>> {
    category_names().map_values(|n: Seq<char>| class_attr(n))
}

/// Relies on String::push: appends the given character to the end of the string.
#[verifier::external_body]
fn push_char(s: &mut String, c: char)
    ensures
        final(s)@ == old(s)@.push(c),
{
    s.push(c);
}

/// Replace each character disallowed in the attribute syntax.
pub fn sanitize(name: &str) -> (r: String)
    ensures
        r@ == sanitized(name@),
{
    let n: usize = name.unicode_len();
    let mut out = String::new();
    let mut i: usize = 0;
    while i < n
        invariant
            n == name@.len(),
            i <= n,
            out@ == sanitized(name@.subrange(0, i as int)),
        decreases n - i,
    {
        let c = name.get_char(i);
        if c == '.' {
            push_char(&mut out, '-');
        } else {
            push_char(&mut out, c);
        }
        i = i + 1;
        proof {
            assert(name@.subrange(0, i as int)
                =~= name@.subrange(0, i - 1).push(name@[i - 1]));
            assert(sanitized(name@.subrange(0, i as int))
                =~= sanitized(name@.subrange(0, i - 1)).push(sanitize_char(name@[i - 1])));
        }
    }
    proof {
        assert(name@.subrange(0, n as int) =~= name@);
    }
    out
}

/// The attribute fragment for one category name.
pub fn class_attr_string(name: &str) -> (r: String)
    ensures
        r@ == class_attr(name@),
{
    let mut out = String::from_str("class=\"ts-");
    let s = sanitize(name);
    out.append(s.as_str());
    out.append("\"");
    out
}

/// ClassMapper accessor: the ordered attribute fragments, entry `i` derived
/// from category name `i`. The result is a pure function of the fixed
/// category list, so every call returns the same value.
pub fn get_class_table() -> (r: Vec<String>)
    ensures
        string_views(r@) == class_table(),
{
    let names = crate::categories::highlight_names();
    let mut out: Vec<String> = Vec::new();
    let mut i: usize = 0;
    while i < names.len()
        invariant
            crate::categories::str_views(names@) == category_names(),
            names@.len() == category_names().len(),
            i <= names@.len(),
            string_views(out@) == class_table().subrange(0, i as int),
        decreases names@.len() - i,
    {
        let c = class_attr_string(names[i]);
        out.push(c);
        i = i + 1;
        proof {
            assert(class_table().subrange(0, i as int)
                =~= class_table().subrange(0, i - 1).push(class_table()[i - 1]));
            assert(string_views(out@)
                =~= class_table().subrange(0, i as int));
        }
    }
    proof {
        assert(class_table().subrange(0, class_table().len() as int) =~= class_table());
    }
    out
}

/// Bounds-checked lookup of a class attribute by category index: an index
/// beyond the table yields the empty fragment ("no class") rather than a
/// failure, a defensive invariant against a mismatch between the category
/// list and the table length.
pub fn class_attr_for<'a>(classes: &'a Vec<String>, i: usize) -> (r: &'a str)
    ensures
        i < classes@.len() ==> r@ == classes@[i as int]@,
        i >= classes@.len() ==> r@ == Seq::<char>::empty(),
{
    if i < classes.len() {
        classes[i].as_str()
    } else {
        let empty = "";
        proof {
            reveal_strlit("");
            assert(empty@ =~= Seq::<char>::empty());
        }
        empty
    }
}

/// Law: the class table has exactly one entry per highlight category, and
/// entry `i` is derived from category name `i` (matching order).
pub proof fn lemma_class_table_matches_categories()
    ensures
        class_table().len() == category_names().len(),
        forall|i: int|
            0 <= i < category_names().len() ==> #[trigger] class_table()[i] == class_attr(
                category_names()[i],
            ),
{
}

/// A sanitized name contains no disallowed character.
pub proof fn lemma_sanitized_no_dot(name: Seq<char>)
    ensures
        forall|k: int| 0 <= k < sanitized(name).len() ==> #[trigger] sanitized(name)[k] != '.',
{
}

/// An attribute fragment contains no character disallowed by the attribute
/// syntax, whatever the category name held.
pub proof fn lemma_class_attr_no_dot(name: Seq<char>)
    ensures
        forall|k: int| 0 <= k < class_attr(name).len() ==> #[trigger] class_attr(name)[k] != '.',
{
    reveal_strlit("class=\"ts-");
    reveal_strlit("\"");
    lemma_sanitized_no_dot(name);
    let p = "class=\"ts-"@;
    let s = sanitized(name);
    let q = "\""@;
    assert forall|k: int| 0 <= k < class_attr(name).len() implies #[trigger] class_attr(name)[k]
        != '.' by {
        if k < p.len() {
            assert(class_attr(name)[k] == p[k]);
        } else if k < p.len() + s.len() {
            assert(class_attr(name)[k] == s[k - p.len()]);
        } else {
            assert(class_attr(name)[k] == q[k - p.len() - s.len()]);
        }
    }
}

/// Distinct names free of disallowed characters yield distinct attribute
/// fragments: the derivation is injective on such names.
pub proof fn lemma_class_attr_injective(n1: Seq<char>, n2: Seq<char>)
    requires
        n1 != n2,
        forall|k: int| 0 <= k < n1.len() ==> #[trigger] n1[k] != '.',
        forall|k: int| 0 <= k < n2.len() ==> #[trigger] n2[k] != '.',
    ensures
        class_attr(n1) != class_attr(n2),
{
    let p = "class=\"ts-"@;
    assert(sanitized(n1) =~= n1);
    assert(sanitized(n2) =~= n2);
    if class_attr(n1) == class_attr(n2) {
        assert(class_attr(n1).len() == class_attr(n2).len());
        assert(n1.len() == n2.len());
        assert forall|k: int| 0 <= k < n1.len() implies n1[k] == n2[k] by {
            assert(class_attr(n1)[p.len() + k] == n1[k]);
            assert(class_attr(n2)[p.len() + k] == n2[k]);
        }
        assert(n1 =~= n2);
    }
}

/// The category names are pairwise distinct, and none contains a disallowed
/// character: every pair is separated by its length or its first character.
pub proof fn lemma_category_names_distinct()
    ensures
        forall|i: int, j: int|
            0 <= i < category_names().len() && 0 <= j < category_names().len() && i != j
                ==> category_names()[i] != category_names()[j],
        forall|i: int, k: int|
            0 <= i < category_names().len() && 0 <= k < category_names()[i].len()
                ==> category_names()[i][k] != '.',
{
    reveal_strlit("attribute");
    reveal_strlit("comment");
    reveal_strlit("constant");
    reveal_strlit("constructor");
    reveal_strlit("escape");
    reveal_strlit("function");
    reveal_strlit("include");
    reveal_strlit("keyword");
    reveal_strlit("label");
    reveal_strlit("namespace");
    reveal_strlit("number");
    reveal_strlit("operator");
    reveal_strlit("property");
    reveal_strlit("punctuation");
    reveal_strlit("repeat");
    reveal_strlit("string");
    reveal_strlit("type");
    reveal_strlit("variable");
    assert forall|i: int, j: int|
        0 <= i < category_names().len() && 0 <= j < category_names().len() && i
            != j implies category_names()[i] != category_names()[j] by {
        let ni = category_names()[i];
        let nj = category_names()[j];
        if ni.len() == nj.len() {
            assert(ni[0] != nj[0]);
        }
    }
}

/// Law: the class-table entries are pairwise distinct.
pub proof fn lemma_class_table_distinct()
    ensures
        forall|i: int, j: int|
            0 <= i < class_table().len() && 0 <= j < class_table().len() && i != j
                ==> class_table()[i] != class_table()[j],
{
    lemma_category_names_distinct();
    assert forall|i: int, j: int|
        0 <= i < class_table().len() && 0 <= j < class_table().len() && i != j implies class_table()[i]
        != class_table()[j] by {
        lemma_class_attr_injective(category_names()[i], category_names()[j]);
    }
}

/// Law: no class-table entry contains a character disallowed by the attribute
/// syntax.
pub proof fn lemma_class_table_no_dot()
    ensures
        forall|i: int, k: int|
            0 <= i < class_table().len() && 0 <= k < class_table()[i].len()
                ==> class_table()[i][k] != '.',
{
    assert forall|i: int, k: int|
        0 <= i < class_table().len() && 0 <= k < class_table()[i].len() implies class_table()[i][k]
        != '.' by {
        lemma_class_attr_no_dot(category_names()[i]);
    }
}

} // verus!
