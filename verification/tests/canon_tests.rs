use timetable_crawler::canon::{canonicalize_str, resolve_and_canonicalize};

fn canon_text(input: &str) -> Option<String> {
    canonicalize_str(input).map(|c| c.to_text())
}

#[test]
fn strips_www_prefix() {
    assert_eq!(canon_text("http://www.example.com/p"), Some("http://example.com/p".to_string()));
}

#[test]
fn keeps_bare_host() {
    assert_eq!(canon_text("http://example.com/p"), Some("http://example.com/p".to_string()));
}

#[test]
fn host_is_lowercased_by_parsing() {
    assert_eq!(canon_text("http://WWW.Example.COM/p"), Some("http://example.com/p".to_string()));
}

#[test]
fn idempotent_on_plain_host() {
    let once = canon_text("http://www.a.example/x?q=1#frag").unwrap();
    let twice = canon_text(&once).unwrap();
    assert_eq!(once, twice);
}

#[test]
fn idempotent_on_https_with_port() {
    let once = canon_text("https://b.example:8443/path").unwrap();
    let twice = canon_text(&once).unwrap();
    assert_eq!(once, twice);
}

#[test]
fn www_equivalence() {
    assert_eq!(canon_text("http://www.x.example/p"), canon_text("http://x.example/p"));
    assert_eq!(canon_text("https://www.szkola.edu.pl/plan"), canon_text("https://szkola.edu.pl/plan"));
}

#[test]
fn doubled_www_loses_one_label_per_round() {
    let once = canon_text("http://www.www.example.com/").unwrap();
    assert_eq!(once, "http://www.example.com/");
    let twice = canon_text(&once).unwrap();
    assert_eq!(twice, "http://example.com/");
}

#[test]
fn rejects_ftp_scheme() {
    assert_eq!(canon_text("ftp://example.com/f"), None);
}

#[test]
fn rejects_mailto_scheme() {
    assert_eq!(canon_text("mailto:someone@example.com"), None);
}

#[test]
fn rejects_javascript_scheme() {
    assert_eq!(canon_text("javascript:void(0)"), None);
}

#[test]
fn rejects_unparsable_input() {
    assert_eq!(canon_text("not a url at all"), None);
    assert_eq!(canon_text(""), None);
}

#[test]
fn resolves_relative_reference() {
    let r = resolve_and_canonicalize("http://a.example/dir/page.html", "../up.html").unwrap();
    assert_eq!(r.to_text(), "http://a.example/up.html");
}

#[test]
fn resolves_and_strips_www() {
    let r = resolve_and_canonicalize("http://a.example/", "http://www.b.example/plan").unwrap();
    assert_eq!(r.to_text(), "http://b.example/plan");
}

#[test]
fn resolution_drops_non_http_target() {
    assert!(resolve_and_canonicalize("http://a.example/", "ftp://b.example/f").is_none());
    assert!(resolve_and_canonicalize("http://a.example/", "mailto:x@y.example").is_none());
}

#[test]
fn keeps_fragment_and_query() {
    assert_eq!(
        canon_text("http://www.a.example/p?x=1#sec"),
        Some("http://a.example/p?x=1#sec".to_string())
    );
}

#[test]
fn does_not_lowercase_path() {
    assert_eq!(canon_text("http://www.a.example/PLAN"), Some("http://a.example/PLAN".to_string()));
}

#[test]
fn same_url_compares_canonical_forms() {
    let a = canonicalize_str("http://www.a.example/p").unwrap();
    let b = canonicalize_str("http://a.example/p").unwrap();
    let c = canonicalize_str("http://a.example/q").unwrap();
    assert!(a.same_url(&b));
    assert!(!a.same_url(&c));
}
