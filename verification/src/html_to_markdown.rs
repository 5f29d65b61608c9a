//! Converting an HTML page to Markdown: its readable article is extracted
//! first (readability), then converted (html2md); when no article can be
//! extracted the whole page is converted.

use vstd::prelude::*;

verus! {

/// Whether the `url` crate parses `url` as an absolute URL.
pub uninterp spec fn url_parses(url: Seq<char>) -> bool;

/// Whether `url` parses (`url::Url::parse(..).is_ok()`). The answer is named
/// [`url_parses`].
#[verifier::external_body]
fn parses_as_url(url: &str) -> (r: bool)
    ensures
        r == url_parses(url@),
{
    url::Url::parse(url).is_ok()
}

/// The readable article readability extracts from `html` taken from `url`:
/// its content as HTML, or `None` when `url` does not parse or no article is
/// found.
pub uninterp spec fn readable_article(html: Seq<char>, url: Seq<char>) -> Option<Seq<char>>;

/// Extracts the readable article (`readability::extractor::extract` on the
/// page's bytes and the parsed `url`, then `content`). The outcome is named
/// [`readable_article`].
#[verifier::external_body]
fn readable_content(html: &str, url: &str) -> (r: Option<String>)
    ensures
        r.deep_view() == readable_article(html@, url@),
{
    let u = url::Url::parse(url).ok()?;
    readability::extractor::extract(&mut html.as_bytes(), &u).ok().map(|a| a.content)
}

/// What html2md writes for an HTML text.
pub uninterp spec fn markdown_of(html: Seq<char>) -> Seq<char>;

/// Converts HTML to Markdown (`html2md::parse_html`). The text is named
/// [`markdown_of`].
#[verifier::external_body]
fn html_to_md(html: &str) -> (r: String)
    ensures
        r@ == markdown_of(html@),
{
    html2md::parse_html(html)
}

/// The page's Markdown: its readable article converted, taken from `url`
/// (from `https://example.com` when `url` does not parse), or the whole page
/// converted when there is no article.
pub open spec fn convert_view(html: Seq<char>, url: Seq<char>) -> Seq<char> {
    let base = if url_parses(url) { url } else { "https://example.com"@ };
    match readable_article(html, base) {
        Some(article) => markdown_of(article),
        None => markdown_of(html),
    }
}

/// The HTML-to-Markdown converter.
pub struct HtmlToMarkdownService;

impl HtmlToMarkdownService {
    /// A converter.
    pub fn new() -> (r: Self) {
        HtmlToMarkdownService
    }

    /// A page's Markdown (see [`convert_view`]).
    pub fn convert(&self, html: &str, url: &str) -> (r: String)
        ensures
            r@ == convert_view(html@, url@),
    {
        let base: &str = if parses_as_url(url) { url } else { "https://example.com" };
        match readable_content(html, base) {
            Some(article) => html_to_md(article.as_str()),
            None => html_to_md(html),
        }
    }
}

} // verus!
