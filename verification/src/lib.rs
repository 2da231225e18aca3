//! Verified core of a timetable-page crawler.
//!
//! Given a school's website, the crawler walks outbound links to a bounded
//! depth, looking for pages published by the Optivum timetable program.
//! This crate holds the verified logic: URL canonicalization, keyword
//! matching, link extraction, page classification, the depth-bounded
//! deduplicating traversal, the permit-budget model, and the output record
//! format. Network and file I/O live outside the crate and drive the
//! traversal through its public step functions.

pub mod api;
pub mod canon;
pub mod crawl;
pub mod extract;
pub mod gate;
pub mod keywords;
pub mod output;
pub mod page;
pub mod school;
pub mod text;
