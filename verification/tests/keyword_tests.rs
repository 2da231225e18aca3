use timetable_crawler::keywords::KeywordMatcher;

fn matcher() -> KeywordMatcher {
    KeywordMatcher::new().expect("the keyword automaton should build")
}

#[test]
fn matches_plain_keyword() {
    let m = matcher();
    assert!(m.contains_keyword("plan"));
    assert!(m.contains_keyword("harmonogram"));
    assert!(m.contains_keyword("timetable"));
    assert!(m.contains_keyword("schedule"));
}

#[test]
fn matches_keyword_as_substring() {
    let m = matcher();
    assert!(m.contains_keyword("/static/plan_lekcji.html"));
    assert!(m.contains_keyword("zobacz rozklad jazdy"));
    assert!(m.contains_keyword("lekcje.html"));
}

#[test]
fn matching_is_case_insensitive() {
    let m = matcher();
    assert!(m.contains_keyword("PLAN"));
    assert!(m.contains_keyword("Harmonogram zaj\u{119}\u{107}"));
    assert!(m.contains_keyword("TIMETABLE"));
}

#[test]
fn matches_polish_diacritics_case_insensitively() {
    let m = matcher();
    assert!(m.contains_keyword("naci\u{15b}nij tutaj"));
    assert!(m.contains_keyword("NACI\u{15a}NIJ"));
    assert!(m.contains_keyword("podzia\u{142}"));
    assert!(m.contains_keyword("ROZK\u{141}AD"));
}

#[test]
fn rejects_text_without_keywords() {
    let m = matcher();
    assert!(!m.contains_keyword(""));
    assert!(!m.contains_keyword("strona g\u{142}\u{f3}wna"));
    assert!(!m.contains_keyword("kontakt"));
    assert!(!m.contains_keyword("pla"));
}

#[test]
fn keyword_inside_longer_word_counts() {
    let m = matcher();
    assert!(m.contains_keyword("zaplanowane"));
    assert!(m.contains_keyword("kliknijcie"));
}
