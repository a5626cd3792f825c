use rustic::content::render_body;

#[test]
fn test_markdown_to_html() {
    // Arrange
    let markdown_input = "## Hello";
    let expected_html = "<h2>Hello</h2>\n".to_string();

    // Act
    let html_output = render_body(markdown_input);

    // Assert
    assert_eq!(html_output, expected_html);
}

#[test]
fn rendering_twice_gives_the_same_bytes() {
    let body = "# Title\n\nSome *emphasis*, a [link](https://example.org) and `code`.\n\n- one\n- two\n";
    let first = render_body(body);
    let second = render_body(body);
    assert_eq!(first.as_bytes(), second.as_bytes());
}

#[test]
fn renders_a_fragment_not_a_document() {
    let html = render_body("plain paragraph");
    assert_eq!(html, "<p>plain paragraph</p>\n");
    assert!(!html.contains("<html"));
    assert!(!html.contains("<head"));
}

#[test]
fn renders_lists_emphasis_links_and_code() {
    assert_eq!(render_body("- a\n- b\n"), "<ul>\n<li>a</li>\n<li>b</li>\n</ul>\n");
    assert_eq!(render_body("*hi* **there**"), "<p><em>hi</em> <strong>there</strong></p>\n");
    assert_eq!(
        render_body("[site](https://example.org)"),
        "<p><a href=\"https://example.org\">site</a></p>\n"
    );
    assert_eq!(render_body("```\nlet x = 1;\n```\n"), "<pre><code>let x = 1;\n</code></pre>\n");
}

#[test]
fn renders_empty_and_malformed_input() {
    assert_eq!(render_body(""), "");
    assert_eq!(render_body("**unclosed"), "<p>**unclosed</p>\n");
}
