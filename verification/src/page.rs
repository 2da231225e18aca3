//! Trusted access to parsed HTML documents and to the two regular
//! expressions of the script-URL heuristic.
//!
//! HTML parsing is the scraper crate's work. Each function here parses the
//! document text and hands out, as plain values and in document order, the
//! parts of the tree that the extraction rules read. The results depend on
//! the document text alone, so each carries a name that the verified
//! contracts speak of.

use vstd::prelude::*;

verus! {

/// One `<a href>` element: its href, its text nodes in order, and the
/// `src` and `alt` attributes of the `<img>` elements below it.
pub type AnchorView = (Seq<char>, Seq<Seq<char>>, Seq<Seq<char>>, Seq<Seq<char>>);

/// One `<a href>` element, as plain strings.
pub struct Anchor {
    pub href: String,
    pub texts: Vec<String>,
    pub img_srcs: Vec<String>,
    pub img_alts: Vec<String>,
}

impl View for Anchor {
    type V = AnchorView;

    open spec fn view(&self) -> AnchorView {
        (self.href@, self.texts.deep_view(), self.img_srcs.deep_view(), self.img_alts.deep_view())
    }
}

impl DeepView for Anchor {
    type V = AnchorView;

    open spec fn deep_view(&self) -> AnchorView {
        self.view()
    }
}

/// The `<a href>` elements of the parsed document, in document order.
pub uninterp spec fn doc_anchors(html: Seq<char>) -> Seq<AnchorView>;

/// The `src` attributes of the document's `<iframe src>` elements, in
/// document order.
pub uninterp spec fn doc_iframe_srcs(html: Seq<char>) -> Seq<Seq<char>>;

/// The inner HTML of the document's `<script>` elements, in document order.
pub uninterp spec fn doc_script_bodies(html: Seq<char>) -> Seq<Seq<char>>;

/// The `content` attributes of the document's `<meta name="description">`
/// elements, in document order.
pub uninterp spec fn doc_meta_descriptions(html: Seq<char>) -> Seq<Seq<char>>;

/// Relies on scraper::Html::parse_document and Html::select with the CSS
/// selector `a[href]` (and `img` below each anchor): each anchor's href,
/// text nodes, and image `src`/`alt` attributes, in document order.
#[verifier::external_body]
pub fn html_anchors(html: &str) -> (r: Vec<Anchor>)
    ensures
        r.deep_view() == doc_anchors(html@),
{
    let doc = scraper::Html::parse_document(html);
    let sel = scraper::Selector::parse("a[href]").unwrap();
    let img = scraper::Selector::parse("img").unwrap();
    doc.select(&sel).map(|a| Anchor {
        href: a.attr("href").unwrap_or("").to_string(),
        texts: a.text().map(|t| t.to_string()).collect(),
        img_srcs: a.select(&img).filter_map(|i| i.attr("src")).map(|s| s.to_string()).collect(),
        img_alts: a.select(&img).filter_map(|i| i.attr("alt")).map(|s| s.to_string()).collect(),
    }).collect()
}

/// Relies on scraper::Html::parse_document and Html::select with the CSS
/// selector `iframe[src]`: the `src` attributes, in document order.
#[verifier::external_body]
pub fn html_iframe_srcs(html: &str) -> (r: Vec<String>)
    ensures
        r.deep_view() == doc_iframe_srcs(html@),
{
    let doc = scraper::Html::parse_document(html);
    let sel = scraper::Selector::parse("iframe[src]").unwrap();
    doc.select(&sel).map(|e| e.attr("src").unwrap_or("").to_string()).collect()
}

/// Relies on scraper::Html::parse_document and Html::select with the CSS
/// selector `script`: each script's inner HTML, in document order.
#[verifier::external_body]
pub fn html_script_bodies(html: &str) -> (r: Vec<String>)
    ensures
        r.deep_view() == doc_script_bodies(html@),
{
    let doc = scraper::Html::parse_document(html);
    let sel = scraper::Selector::parse("script").unwrap();
    doc.select(&sel).map(|e| e.inner_html()).collect()
}

/// Relies on scraper::Html::parse_document and Html::select with the CSS
/// selector `meta[name="description"]`: the `content` attributes of those
/// elements that have one, in document order.
#[verifier::external_body]
pub fn html_meta_descriptions(html: &str) -> (r: Vec<String>)
    ensures
        r.deep_view() == doc_meta_descriptions(html@),
{
    let doc = scraper::Html::parse_document(html);
    let sel = scraper::Selector::parse("meta[name=\"description\"]").unwrap();
    doc.select(&sel).filter_map(|e| e.attr("content")).map(|s| s.to_string()).collect()
}

/// What regex::Regex::replace_all makes of the haystack when every match of
/// the pattern is replaced by its first capture group; `None` when
/// regex::Regex::new rejects the pattern.
pub uninterp spec fn regex_replaced(pattern: Seq<char>, hay: Seq<char>) -> Option<Seq<char>>;

/// What regex::Regex::find_iter yields on the haystack: all non-overlapping
/// matches, left to right; `None` when regex::Regex::new rejects the
/// pattern.
pub uninterp spec fn regex_all_matches(pattern: Seq<char>, hay: Seq<char>) -> Option<
    Seq<Seq<char>>,
>;

/// Relies on regex::Regex::new and Regex::replace_all with a replacer that
/// writes out capture group 1 of each match (or nothing where that group
/// took no part in the match).
#[verifier::external_body]
pub fn regex_replace_with_group1(pattern: &str, hay: &str) -> (r: Option<String>)
    ensures
        r is Some <==> regex_replaced(pattern@, hay@) is Some,
        r matches Some(s) ==> Some(s@) == regex_replaced(pattern@, hay@),
{
    let re = match regex::Regex::new(pattern) {
        Ok(re) => re,
        Err(_) => return None,
    };
    let replacer = |c: &regex::Captures| match c.get(1) {
        Some(g) => g.as_str().to_string(),
        None => String::new(),
    };
    Some(re.replace_all(hay, replacer).into_owned())
}

/// Relies on regex::Regex::new and Regex::find_iter: the text of every
/// non-overlapping match, left to right.
#[verifier::external_body]
pub fn regex_find_matches(pattern: &str, hay: &str) -> (r: Option<Vec<String>>)
    ensures
        r is Some <==> regex_all_matches(pattern@, hay@) is Some,
        r matches Some(v) ==> Some(v.deep_view()) == regex_all_matches(pattern@, hay@),
{
    match regex::Regex::new(pattern) {
        Ok(re) => Some(re.find_iter(hay).map(|m| m.as_str().to_string()).collect()),
        Err(_) => None,
    }
}

} // verus!
