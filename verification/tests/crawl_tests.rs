use timetable_crawler::crawl::Crawler;
use timetable_crawler::keywords::KeywordMatcher;
use timetable_crawler::output::render_records;

const CANDIDATE_PAGE: &str =
    r#"<html><head><meta name="description" content="Plan lekcji w szkole"></head></html>"#;

/// Drive one school's crawl over a fixed set of pages; a URL with no
/// fixture behaves as a failed fetch. Returns the output lines and how
/// often the fetcher was called.
fn run_crawl(school_id: i32, seed: &str, fixtures: &[(&str, &str)]) -> (Vec<String>, usize) {
    let m = KeywordMatcher::new().expect("the keyword automaton should build");
    let mut crawler = match Crawler::for_seed(seed) {
        Some(c) => c,
        None => return (Vec::new(), 0),
    };
    let mut fetches = 0usize;
    while let Some(pf) = crawler.next_fetch() {
        fetches += 1;
        let url_text = pf.url.to_text();
        let mut page = None;
        for (u, h) in fixtures {
            if *u == url_text {
                page = Some(*h);
            }
        }
        if let Some(html) = page {
            crawler.record_page(pf, &m, html);
        }
    }
    assert!(crawler.done());
    assert_eq!(crawler.visited_count(), fetches);
    let lines = render_records(school_id, crawler.candidates());
    (lines, fetches)
}

#[test]
fn candidate_at_depth_zero() {
    let (lines, _) = run_crawl(1, "http://a.example/", &[("http://a.example/", CANDIDATE_PAGE)]);
    assert_eq!(lines, vec!["1|http://a.example/\n"]);
}

#[test]
fn descent_by_anchor_text() {
    let seed_page = r#"<a href="http://b.example/plan.html">plan</a>"#;
    let (lines, _) = run_crawl(
        2,
        "http://b.example/",
        &[
            ("http://b.example/", seed_page),
            ("http://b.example/plan.html", CANDIDATE_PAGE),
        ],
    );
    assert_eq!(lines, vec!["2|http://b.example/plan.html\n"]);
}

#[test]
fn descent_by_img_alt() {
    let seed_page = r#"<a href="/x"><img alt="harmonogram"></a>"#;
    let (lines, _) = run_crawl(
        3,
        "http://c.example/",
        &[("http://c.example/", seed_page), ("http://c.example/x", CANDIDATE_PAGE)],
    );
    assert_eq!(lines, vec!["3|http://c.example/x\n"]);
}

#[test]
fn descent_by_script_url() {
    let seed_page = r#"<script>var u="http://d.example/lekcje.html";</script>"#;
    let (lines, _) = run_crawl(
        4,
        "http://d.example/",
        &[
            ("http://d.example/", seed_page),
            ("http://d.example/lekcje.html", CANDIDATE_PAGE),
        ],
    );
    assert_eq!(lines, vec!["4|http://d.example/lekcje.html\n"]);
}

#[test]
fn depth_cutoff_at_three() {
    // Four hops from the seed: the candidate lies one past the depth
    // limit and is never fetched.
    let (lines, fetches) = run_crawl(
        5,
        "http://e.example/",
        &[
            ("http://e.example/", r#"<a href="/plan1">x</a>"#),
            ("http://e.example/plan1", r#"<a href="/plan2">x</a>"#),
            ("http://e.example/plan2", r#"<a href="/plan3">x</a>"#),
            ("http://e.example/plan3", r#"<a href="/plan4">x</a>"#),
            ("http://e.example/plan4", CANDIDATE_PAGE),
        ],
    );
    assert!(lines.is_empty());
    assert_eq!(fetches, 4);
}

#[test]
fn candidate_at_depth_three_is_found() {
    let (lines, fetches) = run_crawl(
        6,
        "http://f.example/",
        &[
            ("http://f.example/", r#"<a href="/plan1">x</a>"#),
            ("http://f.example/plan1", r#"<a href="/plan2">x</a>"#),
            ("http://f.example/plan2", r#"<a href="/plan3">x</a>"#),
            ("http://f.example/plan3", CANDIDATE_PAGE),
        ],
    );
    assert_eq!(lines, vec!["6|http://f.example/plan3\n"]);
    assert_eq!(fetches, 4);
}

#[test]
fn cycle_terminates_with_one_line() {
    // A links to B, B links back to A, and A is itself a candidate: the
    // branch ends at A, one line comes out, and the fetcher runs at most
    // twice.
    let (lines, fetches) = run_crawl(
        7,
        "http://g.example/",
        &[
            ("http://g.example/", CANDIDATE_PAGE),
            ("http://g.example/plan-b", r#"<a href="http://g.example/">plan</a>"#),
        ],
    );
    assert_eq!(lines, vec!["7|http://g.example/\n"]);
    assert!(fetches <= 2);
}

#[test]
fn cycle_without_candidate_terminates() {
    let (lines, fetches) = run_crawl(
        8,
        "http://h.example/",
        &[
            ("http://h.example/", r#"<a href="/plan-b">plan</a>"#),
            ("http://h.example/plan-b", r#"<a href="http://h.example/">plan</a>"#),
        ],
    );
    assert!(lines.is_empty());
    assert_eq!(fetches, 2);
}

#[test]
fn each_url_is_fetched_once() {
    // The same target is linked three times, twice with a www. spelling:
    // one fetch of it happens.
    let seed_page = r#"<a href="http://i.example/plan">x</a><a href="http://www.i.example/plan">y</a><iframe src="http://i.example/plan"></iframe>"#;
    let (lines, fetches) = run_crawl(
        9,
        "http://i.example/",
        &[("http://i.example/", seed_page), ("http://i.example/plan", CANDIDATE_PAGE)],
    );
    assert_eq!(lines, vec!["9|http://i.example/plan\n"]);
    assert_eq!(fetches, 2);
}

#[test]
fn unusable_seed_yields_no_candidates() {
    let (lines, fetches) = run_crawl(10, "not a url", &[]);
    assert!(lines.is_empty());
    assert_eq!(fetches, 0);
}

#[test]
fn failed_fetch_skips_branch_and_continues() {
    let seed_page = r#"<a href="/missing-plan">plan</a><a href="/plan-here">plan</a>"#;
    let (lines, fetches) = run_crawl(
        11,
        "http://j.example/",
        &[
            ("http://j.example/", seed_page),
            ("http://j.example/plan-here", CANDIDATE_PAGE),
        ],
    );
    assert_eq!(lines, vec!["11|http://j.example/plan-here\n"]);
    assert_eq!(fetches, 3);
}

#[test]
fn www_seed_is_canonicalized() {
    let (lines, _) = run_crawl(
        12,
        "http://www.k.example/",
        &[("http://k.example/", CANDIDATE_PAGE)],
    );
    assert_eq!(lines, vec!["12|http://k.example/\n"]);
}

#[test]
fn candidates_keep_discovery_order() {
    let seed_page = r#"<a href="/plan-one">plan</a><a href="/plan-two">plan</a>"#;
    let (lines, _) = run_crawl(
        13,
        "http://l.example/",
        &[
            ("http://l.example/", seed_page),
            ("http://l.example/plan-one", CANDIDATE_PAGE),
            ("http://l.example/plan-two", CANDIDATE_PAGE),
        ],
    );
    assert_eq!(lines.len(), 2);
    assert!(lines.contains(&"13|http://l.example/plan-one\n".to_string()));
    assert!(lines.contains(&"13|http://l.example/plan-two\n".to_string()));
}
