//! The per-school crawl: a depth-bounded, deduplicating traversal.
//!
//! The traversal is a step machine. `next_fetch` claims the next URL to
//! fetch — never one claimed before — and `record_page` feeds the fetched
//! page back: a candidate page is recorded and its branch ends; any other
//! page, with depth left, contributes its outbound links. The caller (the
//! runtime glue outside this crate, or a test) performs the fetches and
//! loops until `next_fetch` returns nothing. A failed fetch needs no call:
//! the claimed URL simply contributes nothing.

use vstd::prelude::*;

use crate::canon::{
    contains_url, spec_canonicalize_input, view_wf, CanonicalUrl, UrlPartsView,
};
use crate::extract::{find_links, is_optivum_candidate, spec_find_links, spec_is_candidate};
use crate::keywords::KeywordMatcher;

verus! {

/// The crawl depth from a school's seed URL.
pub const DEFAULT_MAX_DEPTH: u8 = 3;

/// A URL claimed for fetching, with the descent depth remaining below it.
pub struct PendingFetch {
    pub url: CanonicalUrl,
    pub depth: u8,
}

impl View for PendingFetch {
    type V = (UrlPartsView, u8);

    open spec fn view(&self) -> (UrlPartsView, u8) {
        (self.url@, self.depth)
    }
}

impl DeepView for PendingFetch {
    type V = (UrlPartsView, u8);

    open spec fn deep_view(&self) -> (UrlPartsView, u8) {
        self.view()
    }
}

/// Per-school crawl bookkeeping: every URL claimed for fetching, and the
/// candidate URLs in discovery order.
pub struct CrawlState {
    pub visited: Vec<CanonicalUrl>,
    pub candidates: Vec<CanonicalUrl>,
}

impl CrawlState {
    pub fn new() -> (r: CrawlState)
        ensures
            r.visited@.len() == 0,
            r.candidates@.len() == 0,
    {
        CrawlState { visited: Vec::new(), candidates: Vec::new() }
    }
}

/// One school's traversal.
pub struct Crawler {
    state: CrawlState,
    frontier: Vec<PendingFetch>,
}

impl Crawler {
    /// Every URL ever claimed for fetching, in claim order.
    pub closed spec fn visited_views(self) -> Seq<UrlPartsView> {
        self.state.visited.deep_view()
    }

    /// The candidates recorded so far, in discovery order.
    pub closed spec fn candidate_views(self) -> Seq<UrlPartsView> {
        self.state.candidates.deep_view()
    }

    /// URLs waiting to be claimed, each with its remaining depth.
    pub closed spec fn frontier_views(self) -> Seq<(UrlPartsView, u8)> {
        self.frontier.deep_view()
    }

    /// No URL is claimed twice, no candidate is recorded twice, every
    /// stored URL — claimed, pending, or recorded — is a well-formed
    /// canonical URL, and every candidate is a URL that was claimed for
    /// fetching.
    pub closed spec fn wf(self) -> bool {
        &&& self.visited_views().no_duplicates()
        &&& self.candidate_views().no_duplicates()
        &&& forall|i: int|
            0 <= i < self.visited_views().len() ==> view_wf(#[trigger] self.visited_views()[i])
        &&& forall|i: int|
            0 <= i < self.frontier_views().len() ==> view_wf(
                (#[trigger] self.frontier_views()[i]).0,
            )
        &&& forall|i: int|
            0 <= i < self.candidate_views().len() ==> view_wf(#[trigger] self.candidate_views()[i])
        &&& forall|i: int|
            0 <= i < self.candidate_views().len() ==> self.visited_views().contains(
                #[trigger] self.candidate_views()[i],
            )
    }

    /// Begin a crawl at an already canonical seed URL.
    pub fn new(seed: CanonicalUrl, depth: u8) -> (r: Crawler)
        requires
            seed.wf(),
        ensures
            r.wf(),
            r.visited_views() == Seq::<UrlPartsView>::empty(),
            r.candidate_views() == Seq::<UrlPartsView>::empty(),
            r.frontier_views() == seq![(seed@, depth)],
    {
        let ghost seed_view = seed@;
        let mut frontier: Vec<PendingFetch> = Vec::new();
        frontier.push(PendingFetch { url: seed, depth });
        let r = Crawler { state: CrawlState::new(), frontier };
        proof {
            assert(r.frontier_views() =~= seq![(seed_view, depth)]);
            assert(r.visited_views() =~= Seq::<UrlPartsView>::empty());
            assert(r.candidate_views() =~= Seq::<UrlPartsView>::empty());
        }
        r
    }

    /// Begin a crawl from a school's website URL: the seed is parsed and
    /// canonicalized at full depth. An unusable seed yields no crawler,
    /// and so no candidates.
    pub fn for_seed(website_url: &str) -> (r: Option<Crawler>)
        ensures
            r is Some <==> spec_canonicalize_input(website_url@) is Some,
            r matches Some(c) ==> {
                &&& c.wf()
                &&& c.visited_views() == Seq::<UrlPartsView>::empty()
                &&& c.candidate_views() == Seq::<UrlPartsView>::empty()
                &&& c.frontier_views() == seq![
                    (spec_canonicalize_input(website_url@)->Some_0, DEFAULT_MAX_DEPTH),
                ]
            },
    {
        match crate::canon::canonicalize_str(website_url) {
            Some(seed) => Some(Crawler::new(seed, DEFAULT_MAX_DEPTH)),
            None => None,
        }
    }

    /// The traversal is finished: nothing is left to claim.
    pub fn done(&self) -> (r: bool)
        ensures
            r == (self.frontier_views().len() == 0),
    {
        self.frontier.len() == 0
    }

    /// How many URLs have been claimed for fetching.
    pub fn visited_count(&self) -> (n: usize)
        ensures
            n == self.visited_views().len(),
    {
        self.state.visited.len()
    }

    /// The recorded candidates, in discovery order.
    pub fn candidates(&self) -> (r: &Vec<CanonicalUrl>)
        ensures
            r.deep_view() == self.candidate_views(),
    {
        &self.state.candidates
    }

    /// Claim the next URL to fetch. Entries already claimed are dropped
    /// unfetched — the dedup cut — and the claimed URL joins `visited` at
    /// once, so no URL is ever claimed twice; an entry leaves the
    /// frontier unclaimed only when it was claimed before.
    pub fn next_fetch(&mut self) -> (r: Option<PendingFetch>)
        requires
            old(self).wf(),
        ensures
            final(self).wf(),
            final(self).candidate_views() == old(self).candidate_views(),
            (match r {
                Some(p) => {
                    &&& p.url.wf()
                    &&& !old(self).visited_views().contains(p.url@)
                    &&& final(self).visited_views() == old(self).visited_views().push(p.url@)
                    &&& old(self).frontier_views().contains(p@)
                    &&& final(self).frontier_views().len() < old(self).frontier_views().len()
                    &&& final(self).frontier_views() == old(self).frontier_views().take(
                        final(self).frontier_views().len() as int,
                    )
                    &&& forall|i: int|
                        final(self).frontier_views().len() < i < old(
                            self,
                        ).frontier_views().len() ==> old(self).visited_views().contains(
                            (#[trigger] old(self).frontier_views()[i]).0,
                        )
                },
                None => {
                    &&& final(self).visited_views() == old(self).visited_views()
                    &&& final(self).frontier_views().len() == 0
                    &&& forall|i: int|
                        0 <= i < old(self).frontier_views().len() ==> old(
                            self,
                        ).visited_views().contains((#[trigger] old(self).frontier_views()[i]).0)
                },
            }),
    {
        while self.frontier.len() > 0
            invariant
                self.wf(),
                self.visited_views() == old(self).visited_views(),
                self.candidate_views() == old(self).candidate_views(),
                self.frontier_views().len() <= old(self).frontier_views().len(),
                self.frontier_views() == old(self).frontier_views().take(
                    self.frontier_views().len() as int,
                ),
                forall|i: int|
                    self.frontier_views().len() <= i < old(self).frontier_views().len() ==> old(
                        self,
                    ).visited_views().contains((#[trigger] old(self).frontier_views()[i]).0),
            decreases self.frontier.len(),
        {
            let ghost pre_frontier = self.frontier.deep_view();
            let ghost pre_vec = self.frontier@;
            let pf = match self.frontier.pop() {
                Some(pf) => pf,
                None => {
                    proof {
                        assert(false);
                    }
                    return None;
                },
            };
            proof {
                assert(self.frontier.deep_view() =~= pre_frontier.drop_last());
                assert(self.frontier_views() =~= old(self).frontier_views().take(
                    self.frontier_views().len() as int,
                ));
                assert(pf == pre_vec[pre_vec.len() - 1]);
                assert(pf@ == pre_frontier[pre_frontier.len() - 1]);
                assert(pre_frontier[pre_frontier.len() - 1] == old(self).frontier_views()[
                    pre_frontier.len() - 1]);
                assert(pf@ == old(self).frontier_views()[self.frontier_views().len() as int]);
            }
            if !contains_url(&self.state.visited, &pf.url) {
                let ghost pre_visited = self.state.visited.deep_view();
                let url_copy = pf.url.clone();
                self.state.visited.push(url_copy);
                proof {
                    assert(self.visited_views() =~= pre_visited.push(pf.url@));
                    assert forall|i: int, j: int|
                        0 <= i < self.visited_views().len() && 0 <= j
                            < self.visited_views().len() && i != j implies self.visited_views()[i]
                        != self.visited_views()[j] by {
                        if i < pre_visited.len() && j < pre_visited.len() {
                        } else if i == pre_visited.len() {
                            assert(pre_visited[j] != pf.url@);
                        } else {
                            assert(pre_visited[i] != pf.url@);
                        }
                    }
                    assert forall|i: int|
                        0 <= i < self.candidate_views().len() implies self.visited_views().contains(
                        #[trigger] self.candidate_views()[i],
                    ) by {
                        let x = self.candidate_views()[i];
                        assert(pre_visited.contains(x));
                        let j = choose|j: int| 0 <= j < pre_visited.len() && pre_visited[j] == x;
                        assert(self.visited_views()[j] == x);
                    }
                    assert forall|i: int|
                        0 <= i < self.visited_views().len() implies view_wf(
                        #[trigger] self.visited_views()[i],
                    ) by {
                        if i < pre_visited.len() {
                            assert(view_wf(old(self).visited_views()[i]));
                        } else {
                            assert(self.visited_views()[i] == pf.url@);
                        }
                    }
                }
                return Some(pf);
            }
        }
        None
    }

    /// Feed back one fetched page. A candidate page is recorded and its
    /// branch ends; any other page, with depth left, adds its outbound
    /// links to the frontier at one less depth; at depth zero the branch
    /// ends. `fetched` is the claim that `next_fetch` handed out.
    pub fn record_page(&mut self, fetched: PendingFetch, m: &KeywordMatcher, html: &str)
        requires
            old(self).wf(),
            m.wf(),
            fetched.url.wf(),
            old(self).visited_views().contains(fetched.url@),
            !old(self).candidate_views().contains(fetched.url@),
        ensures
            final(self).wf(),
            final(self).visited_views() == old(self).visited_views(),
            (if spec_is_candidate(html@) {
                &&& final(self).candidate_views() == old(self).candidate_views().push(
                    fetched.url@,
                )
                &&& final(self).frontier_views() == old(self).frontier_views()
            } else if fetched.depth > 0 {
                &&& final(self).candidate_views() == old(self).candidate_views()
                &&& final(self).frontier_views() == old(self).frontier_views() + spec_find_links(
                    html@,
                    fetched.url.text(),
                ).map_values(|c: UrlPartsView| (c, (fetched.depth - 1) as u8))
            } else {
                &&& final(self).candidate_views() == old(self).candidate_views()
                &&& final(self).frontier_views() == old(self).frontier_views()
            }),
    {
        if is_optivum_candidate(html) {
            let ghost pre = self.state.candidates.deep_view();
            let ghost url_view = fetched.url@;
            self.state.candidates.push(fetched.url);
            proof {
                assert(self.candidate_views() =~= pre.push(url_view));
                assert forall|i: int, j: int|
                    0 <= i < self.candidate_views().len() && 0 <= j
                        < self.candidate_views().len() && i != j implies self.candidate_views()[i]
                    != self.candidate_views()[j] by {
                    if i < pre.len() && j < pre.len() {
                    } else if i == pre.len() {
                        assert(pre[j] != url_view);
                    } else {
                        assert(pre[i] != url_view);
                    }
                }
                assert forall|i: int|
                    0 <= i < self.candidate_views().len() implies view_wf(
                    #[trigger] self.candidate_views()[i],
                ) by {
                    if i < pre.len() {
                        assert(view_wf(old(self).candidate_views()[i]));
                    }
                }
                assert forall|i: int|
                    0 <= i < self.candidate_views().len() implies self.visited_views().contains(
                    #[trigger] self.candidate_views()[i],
                ) by {
                    if i < pre.len() {
                        assert(old(self).visited_views().contains(old(self).candidate_views()[i]));
                    }
                }
            }
            return ;
        }
        if fetched.depth > 0 {
            let links = find_links(m, html, &fetched.url);
            let ghost link_views = links.deep_view();
            let ghost depth_less = (fetched.depth - 1) as u8;
            let ghost target = link_views.map_values(
                |c: UrlPartsView| (c, depth_less),
            );
            let d = fetched.depth - 1;
            let mut i: usize = 0;
            while i < links.len()
                invariant
                    links.deep_view() == link_views,
                    target == link_views.map_values(|c: UrlPartsView| (c, depth_less)),
                    d == depth_less,
                    forall|k: int| 0 <= k < links@.len() ==> (#[trigger] links@[k]).wf(),
                    0 <= i <= links.len(),
                    self.wf(),
                    self.visited_views() == old(self).visited_views(),
                    self.candidate_views() == old(self).candidate_views(),
                    self.frontier_views() == old(self).frontier_views() + target.take(i as int),
                decreases links.len() - i,
            {
                let ghost pre = self.frontier.deep_view();
                self.frontier.push(PendingFetch { url: links[i].clone(), depth: d });
                proof {
                    assert(self.frontier_views() =~= pre.push((link_views[i as int], depth_less)));
                    assert(old(self).frontier_views() + target.take(i + 1) =~= pre.push(
                        (link_views[i as int], depth_less),
                    ));
                }
                i = i + 1;
            }
            proof {
                assert(target.take(links@.len() as int) =~= target);
            }
        }
    }
}

/// Law (dedup): the fetcher is called on each distinct canonical URL at
/// most once per school — the URLs ever claimed for fetching are pairwise
/// distinct.
pub proof fn lemma_fetch_dedup(c: Crawler)
    requires
        c.wf(),
    ensures
        forall|i: int, j: int|
            0 <= i < j < c.visited_views().len() ==> c.visited_views()[i] != c.visited_views()[j],
{
}

/// Law: the candidate list is duplicate-free — one record per candidate
/// URL per school.
pub proof fn lemma_candidates_distinct(c: Crawler)
    requires
        c.wf(),
    ensures
        forall|i: int, j: int|
            0 <= i < j < c.candidate_views().len() ==> c.candidate_views()[i]
                != c.candidate_views()[j],
{
}

/// Law: every URL the crawl stores — claimed, pending, or recorded — is
/// a canonical http(s) URL with a non-empty host.
pub proof fn lemma_stored_urls_canonical(c: Crawler)
    requires
        c.wf(),
    ensures
        forall|i: int|
            0 <= i < c.visited_views().len() ==> view_wf(#[trigger] c.visited_views()[i]),
        forall|i: int|
            0 <= i < c.frontier_views().len() ==> view_wf((#[trigger] c.frontier_views()[i]).0),
        forall|i: int|
            0 <= i < c.candidate_views().len() ==> view_wf(#[trigger] c.candidate_views()[i]),
{
}

/// Law: every recorded candidate is a URL the crawl claimed for
/// fetching — candidates come only from fetched pages.
pub proof fn lemma_candidates_were_fetched(c: Crawler)
    requires
        c.wf(),
    ensures
        forall|i: int|
            0 <= i < c.candidate_views().len() ==> c.visited_views().contains(
                #[trigger] c.candidate_views()[i],
            ),
{
}

/// Law (termination bound): when every claimed URL lies in a finite
/// universe of N canonical URLs — as on a site graph of N pages — at most
/// N fetches ever happen.
pub proof fn lemma_fetch_count_bounded(c: Crawler, universe: Set<UrlPartsView>)
    requires
        c.wf(),
        universe.finite(),
        forall|i: int|
            0 <= i < c.visited_views().len() ==> universe.contains(#[trigger] c.visited_views()[i]),
    ensures
        c.visited_views().len() <= universe.len(),
{
    let vs = c.visited_views();
    vs.unique_seq_to_set();
    assert forall|x: UrlPartsView| vs.to_set().contains(x) implies universe.contains(x) by {
        let i = choose|i: int| 0 <= i < vs.len() && vs[i] == x;
        assert(universe.contains(vs[i]));
    }
    vstd::set_lib::lemma_len_subset(vs.to_set(), universe);
}

} // verus!


