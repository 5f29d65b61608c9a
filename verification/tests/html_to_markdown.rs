use chatbot::html_to_markdown::HtmlToMarkdownService;

#[test]
fn test_basic_conversion() {
    let service = HtmlToMarkdownService::new();
    let html = r#"<!DOCTYPE html>
<html>
<head><title>Test Page</title></head>
<body>
<article>
<h1>Title</h1>
<p>This is a paragraph.</p>
</article>
</body>
</html>"#;
    let markdown = service.convert(html, "https://example.com");
    assert!(
        markdown.contains("This is a paragraph."),
        "Markdown: {}",
        markdown
    );
}

#[test]
fn test_heading_conversion() {
    let service = HtmlToMarkdownService::new();
    let html = r#"<!DOCTYPE html>
<html>
<head><title>Test</title></head>
<body>
<article>
<h1>H1</h1>
<h2>H2</h2>
<h3>H3</h3>
</article>
</body>
</html>"#;
    let markdown = service.convert(html, "https://example.com");
    assert!(markdown.contains("H2"), "Markdown: {}", markdown);
    assert!(markdown.contains("H3"), "Markdown: {}", markdown);
}

#[test]
fn test_list_conversion() {
    let service = HtmlToMarkdownService::new();
    let html = r#"<!DOCTYPE html>
<html>
<head><title>Test</title></head>
<body>
<article>
<p>This is a test article with enough content to be considered readable.</p>
<ul>
<li>Item 1</li>
<li>Item 2</li>
</ul>
<p>More content here to ensure the article is extracted properly.</p>
</article>
</body>
</html>"#;
    let markdown = service.convert(html, "https://example.com");
    assert!(
        markdown.contains("Item 1") || markdown.contains("This is a test article"),
        "Markdown: {}",
        markdown
    );
}

#[test]
fn test_link_conversion() {
    let service = HtmlToMarkdownService::new();
    let html = r#"<!DOCTYPE html>
<html>
<head><title>Test</title></head>
<body>
<article>
<p>Check out this <a href="https://example.com">Link text</a> for more info.</p>
</article>
</body>
</html>"#;
    let markdown = service.convert(html, "https://example.com");
    assert!(markdown.contains("Link text"), "Markdown: {}", markdown);
}

#[test]
fn test_bold_and_italic() {
    let service = HtmlToMarkdownService::new();
    let html = r#"<!DOCTYPE html>
<html>
<head><title>Test</title></head>
<body>
<article>
<p>This is <strong>Bold</strong> and <em>italic</em> text for testing.</p>
</article>
</body>
</html>"#;
    let markdown = service.convert(html, "https://example.com");
    assert!(markdown.contains("Bold"), "Markdown: {}", markdown);
    assert!(markdown.contains("italic"), "Markdown: {}", markdown);
}

#[test]
fn invalid_url_falls_back_and_still_converts() {
    let service = HtmlToMarkdownService::new();
    let html = "<html><body><article><p>Plenty of readable words live in this paragraph for the extractor.</p></article></body></html>";
    let markdown = service.convert(html, "not a url");
    assert!(markdown.contains("readable words"), "Markdown: {}", markdown);
}
