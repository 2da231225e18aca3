//! URL canonicalization.
//!
//! A canonical URL has scheme `http` or `https` and a host with no leading
//! `www.` label. Parsing and reference resolution are the url crate's work;
//! the crate hands back the parsed serialization split before, at, and after
//! the host, and the canonicalization rules on those plain pieces are
//! verified here.

use vstd::prelude::*;

use crate::text::{starts_with, str_eq};

verus! {

use vstd::string::StrSliceExecFns;

/// The split serialization of a parsed URL: scheme, everything before the
/// host, the host itself, and everything after the host. The concatenation
/// of the last three pieces is the full serialization.
pub type UrlPartsView = (Seq<char>, Seq<char>, Seq<char>, Seq<char>);

/// What url::Url::parse makes of an absolute URL string: `None` when the
/// string is rejected, otherwise the split serialization.
pub uninterp spec fn parsed_url(input: Seq<char>) -> Option<UrlPartsView>;

/// What url::Url::join makes of a reference resolved against a base URL
/// string: `None` when the base or the reference is rejected, otherwise the
/// split serialization of the resolved URL.
pub uninterp spec fn resolved_url(base: Seq<char>, input: Seq<char>) -> Option<UrlPartsView>;

/// The split serialization of a parsed URL, as plain strings.
pub struct UrlParts {
    pub scheme: String,
    pub before_host: String,
    pub host: String,
    pub after_host: String,
}

impl View for UrlParts {
    type V = UrlPartsView;

    open spec fn view(&self) -> UrlPartsView {
        (self.scheme@, self.before_host@, self.host@, self.after_host@)
    }
}

/// Relies on url::Url::parse to parse an absolute URL, and on slicing by
/// url::Position to split the serialization before, at, and after the host.
#[verifier::external_body]
fn parse_url_parts(input: &str) -> (r: Option<UrlParts>)
    ensures
        r is Some <==> parsed_url(input@) is Some,
        r matches Some(p) ==> Some(p@) == parsed_url(input@),
{
    match url::Url::parse(input) {
        Ok(u) => Some(UrlParts {
            scheme: u.scheme().to_string(),
            before_host: u[..url::Position::BeforeHost].to_string(),
            host: u[url::Position::BeforeHost..url::Position::AfterHost].to_string(),
            after_host: u[url::Position::AfterHost..].to_string(),
        }),
        Err(_) => None,
    }
}

/// Relies on url::Url::join (via url::Url::parse of the base) to resolve a
/// reference against a base URL, and on slicing by url::Position to split
/// the resolved serialization around the host.
#[verifier::external_body]
fn resolve_url_parts(base: &str, input: &str) -> (r: Option<UrlParts>)
    ensures
        r is Some <==> resolved_url(base@, input@) is Some,
        r matches Some(p) ==> Some(p@) == resolved_url(base@, input@),
{
    let b = match url::Url::parse(base) {
        Ok(b) => b,
        Err(_) => return None,
    };
    match b.join(input) {
        Ok(u) => Some(UrlParts {
            scheme: u.scheme().to_string(),
            before_host: u[..url::Position::BeforeHost].to_string(),
            host: u[url::Position::BeforeHost..url::Position::AfterHost].to_string(),
            after_host: u[url::Position::AfterHost..].to_string(),
        }),
        Err(_) => None,
    }
}

/// The host label prefix that canonicalization strips.
pub open spec fn www_prefix() -> Seq<char> {
    "www."@
}

pub open spec fn is_http_scheme(s: Seq<char>) -> bool {
    s == "http"@ || s == "https"@
}

/// A single leading `www.` removed from a host, if present.
pub open spec fn strip_www(host: Seq<char>) -> Seq<char> {
    if starts_with(host, www_prefix()) {
        host.skip(4)
    } else {
        host
    }
}

/// The canonical form of a split URL: `None` unless the scheme is http or
/// https and the host is non-empty once a leading `www.` is stripped.
pub open spec fn spec_canonicalize(p: UrlPartsView) -> Option<UrlPartsView> {
    if !is_http_scheme(p.0) {
        None
    } else {
        let h = strip_www(p.2);
        if h.len() == 0 {
            None
        } else {
            Some((p.0, p.1, h, p.3))
        }
    }
}

/// An http(s) URL whose host has no leading `www.` label; the normal form
/// for deduplication, classification, and output.
pub struct CanonicalUrl {
    pub scheme: String,
    pub before_host: String,
    pub host: String,
    pub after_host: String,
}

impl View for CanonicalUrl {
    type V = UrlPartsView;

    open spec fn view(&self) -> UrlPartsView {
        (self.scheme@, self.before_host@, self.host@, self.after_host@)
    }
}

impl DeepView for CanonicalUrl {
    type V = UrlPartsView;

    open spec fn deep_view(&self) -> UrlPartsView {
        self.view()
    }
}

impl Clone for CanonicalUrl {
    fn clone(&self) -> (r: Self)
        ensures
            r@ == self@,
    {
        CanonicalUrl {
            scheme: self.scheme.clone(),
            before_host: self.before_host.clone(),
            host: self.host.clone(),
            after_host: self.after_host.clone(),
        }
    }
}

/// Well-formedness of a canonical URL's split serialization: an http(s)
/// scheme and a non-empty host.
pub open spec fn view_wf(v: UrlPartsView) -> bool {
    is_http_scheme(v.0) && v.2.len() > 0
}

impl CanonicalUrl {
    /// The full serialization.
    pub open spec fn text(self) -> Seq<char> {
        self.before_host@ + self.host@ + self.after_host@
    }

    pub open spec fn wf(self) -> bool {
        view_wf(self@)
    }

    /// The full serialization, rebuilt as one string.
    pub fn to_text(&self) -> (r: String)
        ensures
            r@ == self.text(),
    {
        let mut s = String::new();
        s.append(self.before_host.as_str());
        s.append(self.host.as_str());
        s.append(self.after_host.as_str());
        s
    }

    pub fn same_url(&self, other: &CanonicalUrl) -> (r: bool)
        ensures
            r == (self@ == other@),
    {
        str_eq(self.scheme.as_str(), other.scheme.as_str()) && str_eq(
            self.before_host.as_str(),
            other.before_host.as_str(),
        ) && str_eq(self.host.as_str(), other.host.as_str()) && str_eq(
            self.after_host.as_str(),
            other.after_host.as_str(),
        )
    }
}

/// The canonical URL occurs in the list.
pub fn contains_url(v: &Vec<CanonicalUrl>, c: &CanonicalUrl) -> (r: bool)
    ensures
        r == v.deep_view().contains(c@),
{
    let mut i: usize = 0;
    while i < v.len()
        invariant
            0 <= i <= v.len(),
            forall|j: int| 0 <= j < i ==> v.deep_view()[j] != c@,
        decreases v.len() - i,
    {
        if v[i].same_url(c) {
            proof {
                assert(v.deep_view()[i as int] == c@);
            }
            return true;
        }
        i = i + 1;
    }
    false
}

/// The host begins with the label prefix `www.`.
fn has_www_prefix(host: &str) -> (r: bool)
    ensures
        r == starts_with(host@, www_prefix()),
{
    proof {
        reveal_strlit("www.");
    }
    let len = host.unicode_len();
    if len < 4 {
        return false;
    }
    let r = host.get_char(0) == 'w' && host.get_char(1) == 'w' && host.get_char(2) == 'w'
        && host.get_char(3) == '.';
    proof {
        if r {
            assert(host@.subrange(0, 4) =~= www_prefix());
        } else {
            assert(host@.subrange(0, 4) != www_prefix()) by {
                if host@.subrange(0, 4) == www_prefix() {
                    assert(host@[0] == www_prefix()[0]);
                    assert(host@[1] == www_prefix()[1]);
                    assert(host@[2] == www_prefix()[2]);
                    assert(host@[3] == www_prefix()[3]);
                }
            }
        }
    }
    r
}

/// Canonicalize a split URL: keep only http(s) URLs, strip one leading
/// `www.` from the host, and reject a host that is empty afterwards.
pub fn canonicalize_parts(p: UrlParts) -> (r: Option<CanonicalUrl>)
    ensures
        r is Some <==> spec_canonicalize(p@) is Some,
        r matches Some(c) ==> Some(c@) == spec_canonicalize(p@) && c.wf(),
{
    let http = str_eq(p.scheme.as_str(), "http") || str_eq(p.scheme.as_str(), "https");
    if !http {
        return None;
    }
    let len = p.host.unicode_len();
    let host: String = if has_www_prefix(p.host.as_str()) {
        proof {
            reveal_strlit("www.");
        }
        p.host.as_str().substring_char(4, len).to_owned()
    } else {
        p.host
    };
    if host.as_str().unicode_len() == 0 {
        return None;
    }
    Some(CanonicalUrl {
        scheme: p.scheme,
        before_host: p.before_host,
        host,
        after_host: p.after_host,
    })
}

/// `spec_canonicalize` after an absolute parse.
pub open spec fn spec_canonicalize_input(input: Seq<char>) -> Option<UrlPartsView> {
    match parsed_url(input) {
        Some(p) => spec_canonicalize(p),
        None => None,
    }
}

/// `spec_canonicalize` after resolving a reference against a base.
pub open spec fn spec_resolve(base: Seq<char>, href: Seq<char>) -> Option<UrlPartsView> {
    match resolved_url(base, href) {
        Some(p) => spec_canonicalize(p),
        None => None,
    }
}

/// Parse an absolute URL string and canonicalize it.
pub fn canonicalize_str(input: &str) -> (r: Option<CanonicalUrl>)
    ensures
        r is Some <==> spec_canonicalize_input(input@) is Some,
        r matches Some(c) ==> Some(c@) == spec_canonicalize_input(input@) && c.wf(),
{
    match parse_url_parts(input) {
        Some(p) => canonicalize_parts(p),
        None => None,
    }
}

/// Resolve a reference against a base URL string and canonicalize it.
pub fn resolve_and_canonicalize(base: &str, href: &str) -> (r: Option<CanonicalUrl>)
    ensures
        r is Some <==> spec_resolve(base@, href@) is Some,
        r matches Some(c) ==> Some(c@) == spec_resolve(base@, href@) && c.wf(),
{
    match resolve_url_parts(base, href) {
        Some(p) => canonicalize_parts(p),
        None => None,
    }
}

/// Law: a URL survives canonicalization only with scheme http or https;
/// every other scheme is dropped.
pub proof fn lemma_scheme_filter(p: UrlPartsView)
    ensures
        spec_canonicalize(p) is Some ==> is_http_scheme(p.0),
{
}

/// Law: canonicalization is idempotent. The one family of inputs left out:
/// a host that still begins with `www.` after one strip (a doubled label,
/// as in `www.www.example.com`), which loses one label per round.
pub proof fn lemma_canonicalize_idempotent(p: UrlPartsView)
    requires
        !starts_with(strip_www(p.2), www_prefix()),
    ensures
        spec_canonicalize(p) matches Some(c) ==> spec_canonicalize(c) == Some(c),
{
}

/// Law: a host spelled with a leading `www.` canonicalizes exactly as the
/// bare host does, for hosts that do not themselves begin with `www.`.
pub proof fn lemma_canonicalize_www_equivalent(p: UrlPartsView)
    requires
        !starts_with(p.2, www_prefix()),
    ensures
        spec_canonicalize((p.0, p.1, www_prefix() + p.2, p.3)) == spec_canonicalize(p),
{
    reveal_strlit("www.");
    let www = www_prefix() + p.2;
    assert(www.subrange(0, 4) =~= www_prefix());
    assert(starts_with(www, www_prefix()));
    assert(www.skip(4) =~= p.2);
}

} // verus!

