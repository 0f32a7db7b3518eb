//! Typed, already-defaulted input data for the renderer: the user's
//! profile fields and the statistics payload. The surrounding program
//! parses whatever a provider returns into these values at the boundary;
//! every missing or malformed field has already degraded to its default
//! by the time a value of these types exists.

use vstd::prelude::*;

use crate::graph::Week;

verus! {

/// Profile fields of the user being summarized.
#[derive(Debug)]
pub struct UserData {
    pub login: String,
    pub name: Option<String>,
    pub bio: Option<String>,
    pub company: Option<String>,
    pub blog: Option<String>,
    pub location: Option<String>,
    pub email: Option<String>,
    pub public_repos: u32,
    pub followers: u32,
    pub following: u32,
    pub created_at: Option<String>,
}

/// Aggregate pull-request counters a provider reports.
#[derive(Debug, Clone)]
pub struct PullRequestStats {
    pub awaiting_review: u32,
    pub open: u32,
    pub mentions: u32,
}

impl Default for PullRequestStats {
    fn default() -> (r: PullRequestStats)
        ensures
            r.awaiting_review == 0,
            r.open == 0,
            r.mentions == 0,
    {
        PullRequestStats { awaiting_review: 0, open: 0, mentions: 0 }
    }
}

/// Aggregate issue counters a provider reports.
#[derive(Debug, Clone)]
pub struct IssueStats {
    pub assigned: u32,
    pub created: u32,
    pub mentions: u32,
}

impl Default for IssueStats {
    fn default() -> (r: IssueStats)
        ensures
            r.assigned == 0,
            r.created == 0,
            r.mentions == 0,
    {
        IssueStats { assigned: 0, created: 0, mentions: 0 }
    }
}

/// One listed item under a pull-request or issue heading.
#[derive(Debug)]
pub struct SectionItem {
    pub title: String,
    pub repo: String,
}

/// One heading of a pull-request or issue block: its count and its items.
#[derive(Debug)]
pub struct SectionEntry {
    pub total_count: i64,
    pub items: Vec<SectionItem>,
}

/// The three pull-request headings.
#[derive(Debug)]
pub struct PullRequestSections {
    pub awaiting_review: SectionEntry,
    pub open: SectionEntry,
    pub mentions: SectionEntry,
}

/// The three issue headings.
#[derive(Debug)]
pub struct IssueSections {
    pub assigned: SectionEntry,
    pub created: SectionEntry,
    pub mentions: SectionEntry,
}

/// The statistics payload the renderer consumes. `languages` carries each
/// percentage in tenths of a percent (one decimal of precision), unordered;
/// the renderer sorts. `pull_requests` and `issues` are absent when the
/// payload had no such object.
#[derive(Debug)]
pub struct RenderStats {
    pub total_stars: i64,
    pub languages: Vec<(String, u32)>,
    pub weeks: Vec<Week>,
    pub pull_requests: Option<PullRequestSections>,
    pub issues: Option<IssueSections>,
}

/// A view of one listed item: its title and repository name.
pub open spec fn item_view(it: SectionItem) -> (Seq<char>, Seq<char>) {
    (it.title@, it.repo@)
}

/// A view of one heading: its count and its items' texts.
pub open spec fn entry_view(e: SectionEntry) -> (i64, Seq<(Seq<char>, Seq<char>)>) {
    (e.total_count, e.items@.map_values(|it: SectionItem| item_view(it)))
}

} // verus!
