//! Syntax highlighting for Swift source code.
//!
//! The pipeline turns raw Swift source text into line-delimited HTML markup
//! in which each classified token span carries a category-derived `class`
//! attribute. Highlighting degrades gracefully: on any rendering failure the
//! original text is returned unchanged, so callers can embed either result.

pub mod categories;
pub mod classes;
pub mod grammar;
pub mod highlight;

pub use crate::categories::highlight_names;
pub use crate::classes::{class_attr_for, class_attr_string, get_class_table, sanitize};
pub use crate::grammar::{get_grammar_config, GrammarConfig};
pub use crate::highlight::{concat_lines, highlight_swift, highlight_with};
