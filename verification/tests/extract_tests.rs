use timetable_crawler::canon::canonicalize_str;
use timetable_crawler::extract::{find_links, is_optivum_candidate};
use timetable_crawler::keywords::KeywordMatcher;

fn links_of(html: &str, base: &str) -> Vec<String> {
    let m = KeywordMatcher::new().expect("the keyword automaton should build");
    let base = canonicalize_str(base).expect("the base URL should canonicalize");
    find_links(&m, html, &base).iter().map(|u| u.to_text()).collect()
}

#[test]
fn anchor_with_keyword_in_href_is_followed() {
    let html = r#"<a href="/plan.html">zobacz</a>"#;
    assert_eq!(links_of(html, "http://a.example/"), vec!["http://a.example/plan.html"]);
}

#[test]
fn anchor_with_keyword_in_text_is_followed() {
    let html = r#"<a href="/x.html">plan</a>"#;
    assert_eq!(links_of(html, "http://a.example/"), vec!["http://a.example/x.html"]);
}

#[test]
fn anchor_with_keyword_in_img_alt_is_followed() {
    let html = r#"<a href="/x"><img alt="harmonogram"></a>"#;
    assert_eq!(links_of(html, "http://c.example/"), vec!["http://c.example/x"]);
}

#[test]
fn anchor_with_keyword_in_img_src_is_followed() {
    let html = r#"<a href="/y"><img src="/img/plan.png"></a>"#;
    assert_eq!(links_of(html, "http://c.example/"), vec!["http://c.example/y"]);
}

#[test]
fn anchor_without_keyword_is_dropped() {
    let html = r#"<a href="/kontakt.html">kontakt</a>"#;
    assert!(links_of(html, "http://a.example/").is_empty());
}

#[test]
fn iframe_is_always_followed() {
    let html = r#"<iframe src="/frames/whatever.html"></iframe>"#;
    assert_eq!(links_of(html, "http://a.example/"), vec!["http://a.example/frames/whatever.html"]);
}

#[test]
fn script_url_with_keyword_is_followed() {
    let html = r#"<script>var u="http://d.example/lekcje.html";</script>"#;
    assert_eq!(links_of(html, "http://d.example/"), vec!["http://d.example/lekcje.html"]);
}

#[test]
fn script_url_without_keyword_is_dropped() {
    let html = r#"<script>var u="http://d.example/other.html";</script>"#;
    assert!(links_of(html, "http://d.example/").is_empty());
}

#[test]
fn script_escapes_are_undone_before_matching() {
    // The escaped source spells http://f.example/plan/lekcje.html with
    // every slash written as the escaped form a script encoder emits;
    // only after undoing the backslash escapes does the URL pattern see
    // the full path.
    let html = "<script>var u=\"http:\\/\\/f.example\\/plan\\/lekcje.html\";</script>";
    assert_eq!(links_of(html, "http://f.example/"), vec!["http://f.example/plan/lekcje.html"]);
}

#[test]
fn duplicate_links_collapse_to_first() {
    let html = r#"<a href="/plan.html">a</a><a href="/plan.html">b</a>"#;
    assert_eq!(links_of(html, "http://a.example/"), vec!["http://a.example/plan.html"]);
}

#[test]
fn www_and_bare_host_links_collapse() {
    let html = r#"<a href="http://www.a.example/plan">x</a><a href="http://a.example/plan">y</a>"#;
    assert_eq!(links_of(html, "http://a.example/"), vec!["http://a.example/plan"]);
}

#[test]
fn non_http_links_are_dropped() {
    let html = r#"<a href="ftp://a.example/plan">plan</a><a href="mailto:x@y?subject=plan">plan</a>"#;
    assert!(links_of(html, "http://a.example/").is_empty());
}

#[test]
fn sources_emit_in_document_order() {
    let html = r#"<a href="/plan-a.html">x</a><iframe src="/frame.html"></iframe><script>var u="/js/plan.html";</script>"#;
    assert_eq!(
        links_of(html, "http://a.example/"),
        vec![
            "http://a.example/plan-a.html",
            "http://a.example/frame.html",
            "http://a.example/js/plan.html",
        ]
    );
}

#[test]
fn classifies_vulcan_signature() {
    let html = r#"<html><head><meta name="description"
        content="Plan opracowany za pomoc&#261; programu Plan lekcji Optivum firmy VULCAN"></head></html>"#;
    assert!(is_optivum_candidate(html));
}

#[test]
fn classifies_school_timetable_signature() {
    let html = r#"<meta name="description" content="... Plan lekcji w szkole ...">"#;
    assert!(is_optivum_candidate(html));
}

#[test]
fn classification_is_case_sensitive() {
    let html = r#"<meta name="description" content="plan lekcji w szkole">"#;
    assert!(!is_optivum_candidate(html));
}

#[test]
fn meta_without_content_is_no_candidate() {
    let html = r#"<meta name="description">"#;
    assert!(!is_optivum_candidate(html));
}

#[test]
fn other_meta_is_no_candidate() {
    let html = r#"<meta name="keywords" content="Plan lekcji w szkole">"#;
    assert!(!is_optivum_candidate(html));
}

#[test]
fn any_of_several_metas_suffices() {
    let html = r#"<meta name="description" content="nothing here"><meta name="description" content="Plan lekcji w szkole">"#;
    assert!(is_optivum_candidate(html));
}
