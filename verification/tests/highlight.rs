use swift_highlight::{concat_lines, get_grammar_config, highlight_swift, highlight_with};

/// Strip markup: drop every tag and decode the renderer's entity escapes, so
/// that what remains is the visible text content.
fn strip(html: &str) -> String {
    let mut text = String::new();
    let mut in_tag = false;
    for c in html.chars() {
        match c {
            '<' => in_tag = true,
            '>' => in_tag = false,
            _ if !in_tag => text.push(c),
            _ => {}
        }
    }
    text.replace("&lt;", "<")
        .replace("&gt;", ">")
        .replace("&#39;", "'")
        .replace("&quot;", "\"")
        .replace("&amp;", "&")
}

/// The renderer guarantees a trailing line break: output for an input without
/// a final newline carries one extra `\n`, and is otherwise content-identical.
fn assert_content_preserved(input: &str, output: &str) {
    let text = strip(output);
    if input.ends_with('\n') {
        assert_eq!(text, input);
    } else {
        assert_eq!(text, format!("{}\n", input));
    }
}

#[test]
fn let_binding_is_classified() {
    let input = "let x = 1";
    let output = highlight_swift(input);
    assert!(output.contains("<span class=\"ts-keyword\">let</span>"), "{output}");
    assert!(output.contains("<span class=\"ts-number\">1</span>"), "{output}");
    assert!(output.contains('x'), "{output}");
    assert!(output.contains('='), "{output}");
    assert_content_preserved(input, &output);
}

#[test]
fn highlighting_is_not_the_identity() {
    let input = "let x = 1";
    let output = highlight_swift(input);
    assert_ne!(output, input);
    assert!(output.contains("<span"));
}

#[test]
fn content_preserved_across_lines() {
    let input = "import Foundation\nlet greeting = \"hello\"\nprint(greeting)\n";
    let output = highlight_swift(input);
    assert_content_preserved(input, &output);
    assert_eq!(
        output.matches('\n').count(),
        input.matches('\n').count(),
        "no line added or removed"
    );
}

#[test]
fn special_characters_are_escaped_but_preserved() {
    let input = "let ok = a < b && c > d\n";
    let output = highlight_swift(input);
    assert!(output.contains("&lt;"));
    assert!(output.contains("&amp;"));
    assert_content_preserved(input, &output);
}

#[test]
fn unterminated_string_still_round_trips() {
    let input = "let s = \"abc";
    let output = highlight_swift(input);
    assert!(!output.is_empty());
    assert_content_preserved(input, &output);
}

#[test]
fn invalid_syntax_still_yields_output() {
    let input = "let let let ((( \n";
    let output = highlight_swift(input);
    assert!(!output.is_empty());
    assert_content_preserved(input, &output);
}

#[test]
fn text_without_recognizable_tokens_round_trips() {
    let input = "\n   \n";
    let output = highlight_swift(input);
    assert_content_preserved(input, &output);
}

#[test]
fn empty_input_never_fails() {
    let output = highlight_swift("");
    assert!(output == "\n" || output.is_empty(), "{output:?}");
}

#[test]
fn repeated_calls_agree() {
    let input = "let x = 1\n";
    assert_eq!(highlight_swift(input), highlight_swift(input));
}

#[test]
fn prepared_config_matches_one_shot_pipeline() {
    let input = "var total = 0\n";
    let config = get_grammar_config();
    assert_eq!(highlight_with(&config, input), highlight_swift(input));
    assert_eq!(highlight_with(&config, input), highlight_with(&config, input));
}

#[test]
fn concat_lines_preserves_order_and_boundaries() {
    let lines = vec![String::from("a\n"), String::from("bc\n"), String::from("d")];
    assert_eq!(concat_lines(&lines), "a\nbc\nd");
    let empty: Vec<String> = Vec::new();
    assert_eq!(concat_lines(&empty), "");
}
