use mermaid::encode::{decode_markup, html_data_url, render_script, strip_quotes, svg_data_url};

#[test]
fn one_quote_layer_is_stripped() {
    assert_eq!(strip_quotes("\"ab\""), "ab");
    assert_eq!(strip_quotes("\"\"ab\"\""), "\"ab\"");
    assert_eq!(strip_quotes("ab"), "ab");
    assert_eq!(strip_quotes("\"ab"), "\"ab");
    assert_eq!(strip_quotes("\""), "\"");
    assert_eq!(strip_quotes(""), "");
}

#[test]
fn markup_is_decoded_from_the_raw_reply() {
    assert_eq!(decode_markup("\"<svg>a</svg>\""), "<svg>a</svg>");
    assert_eq!(decode_markup("\"a\\nb\""), "a\nb");
    assert_eq!(decode_markup("plain"), "plain");
    assert_eq!(decode_markup("\"null\""), "");
    assert_eq!(decode_markup("\"\""), "");
    // a dangling escape cannot be decoded and stands for no markup
    assert_eq!(decode_markup("\"a\\\""), "");
}

#[test]
fn sandbox_url_embeds_the_page() {
    assert_eq!(
        html_data_url("<html></html>"),
        "data:text/html;charset=utf-8,<html></html>"
    );
}

#[test]
fn render_script_escapes_the_text() {
    assert_eq!(
        render_script("graph TD; A-->B"),
        "render('graph\\ TD;\\ A-->B')"
    );
    assert_eq!(render_script("a\nb"), "render('a\\nb')");
    assert_eq!(render_script("a b"), "render('a\\ b')");
}

#[test]
fn render_script_neutralizes_quotes() {
    assert_eq!(render_script("a'b"), "render('a\\'b')");
    assert_eq!(render_script("a\"b"), "render('a\\\"b')");
    assert_eq!(render_script("'"), "render('\\'')");
    assert_eq!(render_script("a\\'b"), "render('a\\\\\\'b')");
}

#[test]
fn capture_url_percent_encodes_the_markup() {
    assert_eq!(svg_data_url("<svg >"), "data:image/svg+xml,%3Csvg%20%3E");
    assert_eq!(svg_data_url("abc"), "data:image/svg+xml,abc");
}
