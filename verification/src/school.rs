//! School records as the crawler sees them.

use vstd::prelude::*;

verus! {

/// A seed: a school that has a website. Loaded once at startup from the
/// external database and immutable for the run.
pub struct SchoolWithWebsite {
    pub rspo_id: i32,
    pub website_url: String,
}

/// A school record whose website is optional.
pub struct School {
    pub rspo_id: i32,
    pub website_url: Option<String>,
}

impl From<SchoolWithWebsite> for School {
    /// A seed is a school whose website is present.
    fn from(value: SchoolWithWebsite) -> (r: School) {
        School { rspo_id: value.rspo_id, website_url: Some(value.website_url) }
    }
}

impl vstd::std_specs::convert::FromSpecImpl<SchoolWithWebsite> for School {
    open spec fn obeys_from_spec() -> bool {
        true
    }

    open spec fn from_spec(value: SchoolWithWebsite) -> School {
        School { rspo_id: value.rspo_id, website_url: Some(value.website_url) }
    }
}

} // verus!
