//! Link extraction and candidate classification.
//!
//! From one fetched page the crawler draws outbound links from three
//! sources: anchors that pass the keyword filter, every iframe source, and
//! URL-like strings found in script bodies. Each link is resolved against
//! the page's URL and canonicalized; what fails either step drops out, and
//! duplicates within one page collapse to their first occurrence.
//!
//! A page is a terminal candidate when a `<meta name="description">` tag
//! carries one of two signature phrases of the Optivum timetable program.

use vstd::prelude::*;

use crate::canon::{contains_url, resolve_and_canonicalize, spec_resolve, CanonicalUrl, UrlPartsView};
use crate::keywords::{keyword_hit, KeywordMatcher};
use crate::page::{
    doc_anchors, doc_iframe_srcs, doc_meta_descriptions, doc_script_bodies, html_anchors,
    html_iframe_srcs, html_meta_descriptions, html_script_bodies, regex_all_matches,
    regex_find_matches, regex_replace_with_group1, regex_replaced, Anchor, AnchorView,
};
use crate::text::{contains_seq, contains_substr};

verus! {

/// The regex that undoes script-source escaping: each match of a
/// backslash followed by any character is replaced by that character,
/// turning the escaped-slash form that script encoders emit (`\/`) back
/// into a plain slash.
pub open spec fn spec_script_escape_pattern() -> Seq<char> {
    "\\\\(.)"@
}

/// The loose URL-shaped pattern searched for inside script bodies.
pub open spec fn spec_script_url_pattern() -> Seq<char> {
    "(?:(?:https?|ftp):\\/\\/)?[\\w/\\-?=%.]+\\.[\\w/\\-&?=%.]+"@
}

fn script_escape_pattern() -> (r: &'static str)
    ensures
        r@ == spec_script_escape_pattern(),
{
    "\\\\(.)"
}

fn script_url_pattern() -> (r: &'static str)
    ensures
        r@ == spec_script_url_pattern(),
{
    "(?:(?:https?|ftp):\\/\\/)?[\\w/\\-?=%.]+\\.[\\w/\\-&?=%.]+"
}

/// Some member of the list holds a keyword.
pub open spec fn any_keyword_hit(ss: Seq<Seq<char>>) -> bool {
    exists|i: int| 0 <= i < ss.len() && keyword_hit(#[trigger] ss[i])
}

/// The anchor filter: its href, one of its text nodes, or one of its
/// images' src or alt attributes holds a keyword.
pub open spec fn anchor_wanted(a: AnchorView) -> bool {
    keyword_hit(a.0) || any_keyword_hit(a.1) || any_keyword_hit(a.2) || any_keyword_hit(a.3)
}

/// Hrefs of the anchors that pass the filter, in document order.
pub open spec fn selected_hrefs(anchors: Seq<AnchorView>) -> Seq<Seq<char>>
    decreases anchors.len(),
{
    if anchors.len() == 0 {
        Seq::empty()
    } else {
        let rest = selected_hrefs(anchors.drop_last());
        if anchor_wanted(anchors.last()) {
            rest.push(anchors.last().0)
        } else {
            rest
        }
    }
}

/// The members of the list that hold a keyword, in order.
pub open spec fn keyword_filtered(ms: Seq<Seq<char>>) -> Seq<Seq<char>>
    decreases ms.len(),
{
    if ms.len() == 0 {
        Seq::empty()
    } else {
        let rest = keyword_filtered(ms.drop_last());
        if keyword_hit(ms.last()) {
            rest.push(ms.last())
        } else {
            rest
        }
    }
}

/// URL-like strings drawn from one script body: unescape, match the URL
/// pattern, keep the matches that hold a keyword. A rejected pattern
/// contributes nothing.
pub open spec fn script_url_candidates(body: Seq<char>) -> Seq<Seq<char>> {
    match regex_replaced(spec_script_escape_pattern(), body) {
        Some(unescaped) => match regex_all_matches(spec_script_url_pattern(), unescaped) {
            Some(ms) => keyword_filtered(ms),
            None => Seq::empty(),
        },
        None => Seq::empty(),
    }
}

/// URL-like strings of all script bodies, in document order.
pub open spec fn scripts_url_candidates(bodies: Seq<Seq<char>>) -> Seq<Seq<char>>
    decreases bodies.len(),
{
    if bodies.len() == 0 {
        Seq::empty()
    } else {
        scripts_url_candidates(bodies.drop_last()) + script_url_candidates(bodies.last())
    }
}

/// Raw link strings of a document in emission order: selected anchor
/// hrefs, then iframe sources, then keyword-bearing script URLs.
pub open spec fn raw_candidates(html: Seq<char>) -> Seq<Seq<char>> {
    selected_hrefs(doc_anchors(html)) + doc_iframe_srcs(html) + scripts_url_candidates(
        doc_script_bodies(html),
    )
}

/// Each candidate resolved against the base and canonicalized, in order;
/// what fails either step drops out.
pub open spec fn resolved_candidates(base: Seq<char>, cands: Seq<Seq<char>>) -> Seq<UrlPartsView>
    decreases cands.len(),
{
    if cands.len() == 0 {
        Seq::empty()
    } else {
        let rest = resolved_candidates(base, cands.drop_last());
        match spec_resolve(base, cands.last()) {
            Some(c) => rest.push(c),
            None => rest,
        }
    }
}

/// The first occurrence of each element, in order; later duplicates drop.
pub open spec fn first_occurrences<T>(s: Seq<T>) -> Seq<T>
    decreases s.len(),
{
    if s.len() == 0 {
        Seq::empty()
    } else {
        let rest = first_occurrences(s.drop_last());
        if s.drop_last().contains(s.last()) {
            rest
        } else {
            rest.push(s.last())
        }
    }
}

/// Deduplication keeps exactly the members of the original sequence.
pub proof fn lemma_first_occurrences_membership<T>(s: Seq<T>)
    ensures
        forall|x: T| first_occurrences(s).contains(x) <==> s.contains(x),
    decreases s.len(),
{
    if s.len() == 0 {
    } else {
        let dl = s.drop_last();
        let l = s.last();
        lemma_first_occurrences_membership(dl);
        assert forall|x: T| first_occurrences(s).contains(x) <==> s.contains(x) by {
            assert(s.contains(x) <==> dl.contains(x) || x == l) by {
                if s.contains(x) {
                    let i = choose|i: int| 0 <= i < s.len() && s[i] == x;
                    if i < s.len() - 1 {
                        assert(dl[i] == x);
                    }
                }
                if dl.contains(x) {
                    let i = choose|i: int| 0 <= i < dl.len() && dl[i] == x;
                    assert(s[i] == x);
                }
                if x == l {
                    assert(s[s.len() - 1] == x);
                }
            }
            let f = first_occurrences(dl);
            if !dl.contains(l) {
                assert(f.push(l).contains(x) <==> f.contains(x) || x == l) by {
                    if f.push(l).contains(x) {
                        let i = choose|i: int| 0 <= i < f.push(l).len() && f.push(l)[i] == x;
                        if i < f.len() {
                            assert(f[i] == x);
                        }
                    }
                    if f.contains(x) {
                        let i = choose|i: int| 0 <= i < f.len() && f[i] == x;
                        assert(f.push(l)[i] == x);
                    }
                    if x == l {
                        assert(f.push(l)[f.len() as int] == x);
                    }
                }
            }
        }
    }
}

/// The links that one document contributes, canonical and in order of
/// first emission.
pub open spec fn spec_find_links(html: Seq<char>, base: Seq<char>) -> Seq<UrlPartsView> {
    first_occurrences(resolved_candidates(base, raw_candidates(html)))
}

/// Some member of the list holds a keyword (single passes over each).
fn any_hit(m: &KeywordMatcher, ss: &Vec<String>) -> (r: bool)
    requires
        m.wf(),
    ensures
        r == any_keyword_hit(ss.deep_view()),
{
    let mut i: usize = 0;
    while i < ss.len()
        invariant
            m.wf(),
            0 <= i <= ss.len(),
            forall|j: int| 0 <= j < i ==> !keyword_hit(#[trigger] ss.deep_view()[j]),
        decreases ss.len() - i,
    {
        if m.contains_keyword(ss[i].as_str()) {
            proof {
                assert(keyword_hit(ss.deep_view()[i as int]));
            }
            return true;
        }
        i = i + 1;
    }
    false
}

/// Extract the outbound links of one page: anchors passing the keyword
/// filter, iframe sources, and keyword-bearing script URLs, each resolved
/// against the page URL and canonicalized, duplicates collapsed.
pub fn find_links(m: &KeywordMatcher, html: &str, base: &CanonicalUrl) -> (r: Vec<CanonicalUrl>)
    requires
        m.wf(),
    ensures
        r.deep_view() == spec_find_links(html@, base.text()),
        forall|i: int| 0 <= i < r.len() ==> (#[trigger] r@[i]).wf(),
{
    let ghost all_anchors = doc_anchors(html@);
    let anchors = html_anchors(html);
    let mut cands: Vec<String> = Vec::new();
    let mut i: usize = 0;
    while i < anchors.len()
        invariant
            m.wf(),
            anchors.deep_view() == all_anchors,
            0 <= i <= anchors.len(),
            cands.deep_view() == selected_hrefs(all_anchors.take(i as int)),
        decreases anchors.len() - i,
    {
        let ghost pre = cands.deep_view();
        let a = &anchors[i];
        let wanted = m.contains_keyword(a.href.as_str()) || any_hit(m, &a.texts) || any_hit(
            m,
            &a.img_srcs,
        ) || any_hit(m, &a.img_alts);
        if wanted {
            cands.push(a.href.clone());
        }
        proof {
            let s = all_anchors.take(i + 1);
            assert(s.drop_last() =~= all_anchors.take(i as int));
            assert(s.last() == all_anchors[i as int]);
            assert(all_anchors[i as int] == anchors@[i as int].deep_view());
            if wanted {
                assert(cands.deep_view() =~= pre.push(a.href@));
            }
        }
        i = i + 1;
    }
    proof {
        assert(all_anchors.take(anchors.len() as int) =~= all_anchors);
    }
    let ghost anchor_part = selected_hrefs(all_anchors);

    let ghost all_iframes = doc_iframe_srcs(html@);
    let iframes = html_iframe_srcs(html);
    let mut j: usize = 0;
    while j < iframes.len()
        invariant
            iframes.deep_view() == all_iframes,
            0 <= j <= iframes.len(),
            cands.deep_view() == anchor_part + all_iframes.take(j as int),
        decreases iframes.len() - j,
    {
        let ghost pre = cands.deep_view();
        cands.push(iframes[j].clone());
        proof {
            assert(cands.deep_view() =~= pre.push(all_iframes[j as int]));
            assert(anchor_part + all_iframes.take(j + 1) =~= pre.push(all_iframes[j as int]));
        }
        j = j + 1;
    }
    proof {
        assert(all_iframes.take(iframes.len() as int) =~= all_iframes);
    }
    let ghost iframe_part = anchor_part + all_iframes;

    let ghost all_scripts = doc_script_bodies(html@);
    let scripts = html_script_bodies(html);
    let mut k: usize = 0;
    while k < scripts.len()
        invariant
            m.wf(),
            scripts.deep_view() == all_scripts,
            0 <= k <= scripts.len(),
            cands.deep_view() == iframe_part + scripts_url_candidates(all_scripts.take(k as int)),
        decreases scripts.len() - k,
    {
        let ghost body_view = all_scripts[k as int];
        let ghost pre = cands.deep_view();
        match regex_replace_with_group1(script_escape_pattern(), scripts[k].as_str()) {
            Some(unescaped) => {
                match regex_find_matches(script_url_pattern(), unescaped.as_str()) {
                    Some(ms) => {
                        let ghost ms_view = ms.deep_view();
                        let mut t: usize = 0;
                        while t < ms.len()
                            invariant
                                m.wf(),
                                ms.deep_view() == ms_view,
                                0 <= t <= ms.len(),
                                cands.deep_view() == pre + keyword_filtered(
                                    ms_view.take(t as int),
                                ),
                            decreases ms.len() - t,
                        {
                            let ghost mid = cands.deep_view();
                            let hit = m.contains_keyword(ms[t].as_str());
                            if hit {
                                cands.push(ms[t].clone());
                            }
                            proof {
                                let s = ms_view.take(t + 1);
                                assert(s.drop_last() =~= ms_view.take(t as int));
                                assert(s.last() == ms_view[t as int]);
                                if hit {
                                    assert(cands.deep_view() =~= mid.push(ms_view[t as int]));
                                    assert(pre + keyword_filtered(s) =~= cands.deep_view());
                                } else {
                                    assert(pre + keyword_filtered(s) =~= cands.deep_view());
                                }
                            }
                            t = t + 1;
                        }
                        proof {
                            assert(ms_view.take(ms.len() as int) =~= ms_view);
                            assert(script_url_candidates(body_view) == keyword_filtered(ms_view));
                        }
                    },
                    None => {
                        proof {
                            assert(script_url_candidates(body_view) =~= Seq::<Seq<char>>::empty());
                        }
                    },
                }
            },
            None => {
                proof {
                    assert(script_url_candidates(body_view) =~= Seq::<Seq<char>>::empty());
                }
            },
        }
        proof {
            let s = all_scripts.take(k + 1);
            assert(s.drop_last() =~= all_scripts.take(k as int));
            assert(s.last() == body_view);
            assert(iframe_part + scripts_url_candidates(s) =~= cands.deep_view());
        }
        k = k + 1;
    }
    proof {
        assert(all_scripts.take(scripts.len() as int) =~= all_scripts);
        assert(cands.deep_view() =~= raw_candidates(html@));
    }

    let ghost raw = cands.deep_view();
    let base_text = base.to_text();
    let mut out: Vec<CanonicalUrl> = Vec::new();
    let mut t: usize = 0;
    while t < cands.len()
        invariant
            0 <= t <= cands.len(),
            cands.deep_view() == raw,
            base_text@ == base.text(),
            out.deep_view() == first_occurrences(
                resolved_candidates(base.text(), raw.take(t as int)),
            ),
            forall|i: int| 0 <= i < out.len() ==> (#[trigger] out@[i]).wf(),
        decreases cands.len() - t,
    {
        let ghost pre = out.deep_view();
        let ghost resolved_pre = resolved_candidates(base.text(), raw.take(t as int));
        match resolve_and_canonicalize(base_text.as_str(), cands[t].as_str()) {
            Some(c) => {
                let dup = contains_url(&out, &c);
                proof {
                    lemma_first_occurrences_membership(resolved_pre);
                    assert(dup == resolved_pre.contains(c@));
                }
                if !dup {
                    out.push(c);
                    proof {
                        assert(out.deep_view() =~= pre.push(out@[out.len() - 1]@));
                    }
                }
                proof {
                    let s = raw.take(t + 1);
                    assert(s.drop_last() =~= raw.take(t as int));
                    assert(s.last() == raw[t as int]);
                    let r2 = resolved_candidates(base.text(), s);
                    assert(r2 == resolved_pre.push(c@));
                    assert(r2.drop_last() =~= resolved_pre);
                    assert(out.deep_view() == first_occurrences(r2));
                }
            },
            None => {
                proof {
                    let s = raw.take(t + 1);
                    assert(s.drop_last() =~= raw.take(t as int));
                    assert(s.last() == raw[t as int]);
                }
            },
        }
        t = t + 1;
    }
    proof {
        assert(raw.take(cands.len() as int) =~= raw);
    }
    out
}

/// The first signature phrase of an Optivum-generated page.
pub open spec fn optivum_signature_a() -> Seq<char> {
    "programu Plan lekcji Optivum firmy VULCAN"@
}

/// The second signature phrase of an Optivum-generated page.
pub open spec fn optivum_signature_b() -> Seq<char> {
    "Plan lekcji w szkole"@
}

/// A meta description marks the page as a candidate: it holds one of the
/// two signature phrases, case-sensitively.
pub open spec fn meta_marks_candidate(content: Seq<char>) -> bool {
    contains_seq(content, optivum_signature_a()) || contains_seq(content, optivum_signature_b())
}

/// The page is a terminal candidate: some `<meta name="description">`
/// content holds a signature phrase.
pub open spec fn spec_is_candidate(html: Seq<char>) -> bool {
    exists|i: int|
        0 <= i < doc_meta_descriptions(html).len() && meta_marks_candidate(
            #[trigger] doc_meta_descriptions(html)[i],
        )
}

/// Classify one page by its meta descriptions.
pub fn is_optivum_candidate(html: &str) -> (r: bool)
    ensures
        r == spec_is_candidate(html@),
{
    let ghost all = doc_meta_descriptions(html@);
    let metas = html_meta_descriptions(html);
    let mut i: usize = 0;
    while i < metas.len()
        invariant
            all == doc_meta_descriptions(html@),
            metas.deep_view() == all,
            0 <= i <= metas.len(),
            forall|j: int| 0 <= j < i ==> !meta_marks_candidate(#[trigger] all[j]),
        decreases metas.len() - i,
    {
        let c = metas[i].as_str();
        if contains_substr(c, "programu Plan lekcji Optivum firmy VULCAN") || contains_substr(
            c,
            "Plan lekcji w szkole",
        ) {
            proof {
                assert(meta_marks_candidate(doc_meta_descriptions(html@)[i as int]));
            }
            return true;
        }
        i = i + 1;
    }
    false
}

} // verus!
