//! One page of search results, and how it is read from the service's answer.

use vstd::prelude::*;
use crate::json::{items_member, items_member_of, parse, parsed, u32_member, u32_member_of};

verus! {

/// One page of results, with what a caller needs to ask for the next.
#[derive(Debug)]
pub struct Paginated<T> {
    pub from: u32,
    pub max_from: u32,
    pub results: Vec<T>,
    pub size: u32,
    pub total: u32,
}

/// Why an answer could not be read.
#[derive(Debug, Clone, Copy, PartialEq, Eq, Structural)]
pub enum DecodeError {
    /// The text is no JSON document.
    Syntax,
    /// A member is missing or holds a value of the wrong kind.
    Shape,
    /// The page holds more results than its size or its total allow.
    Inconsistent,
}

impl<T> Paginated<T> {
    /// A page holds no more results than its size allows, and no more than
    /// the total it reports.
    pub open spec fn is_consistent(&self) -> bool {
        &&& self.results@.len() <= self.size
        &&& self.total >= self.results@.len()
    }

    /// Whether this page is consistent.
    pub fn check(&self) -> (r: bool)
        ensures
            r == self.is_consistent(),
    {
        self.results.len() <= self.size as usize && self.total as usize >= self.results.len()
    }

    /// The page ends at or before the last offset that the service serves.
    /// The decoders do not ask this of a page; a caller that needs it asks
    /// with `ends_in_reach`.
    pub open spec fn is_in_reach(&self) -> bool {
        self.from + self.results@.len() <= self.max_from
    }

    /// Whether this page ends at or before the last offset that the service
    /// serves.
    pub fn ends_in_reach(&self) -> (r: bool)
        ensures
            r == self.is_in_reach(),
    {
        let n: usize = self.results.len();
        n <= self.max_from as usize && self.from as usize <= self.max_from as usize - n
    }
}

/// What becomes of the five members of a page: `outcome` is the page they
/// make, or says why they make none. A missing member comes before an
/// inconsistency.
pub open spec fn page_outcome<T>(
    outcome: Result<Paginated<T>, DecodeError>,
    from: Option<u32>,
    max_from: Option<u32>,
    results: Option<Seq<T>>,
    size: Option<u32>,
    total: Option<u32>,
) -> bool {
    if from is None || max_from is None || results is None || size is None || total is None {
        outcome == Err::<Paginated<T>, DecodeError>(DecodeError::Shape)
    } else if results->0.len() > size->0 || total->0 < results->0.len() {
        outcome == Err::<Paginated<T>, DecodeError>(DecodeError::Inconsistent)
    } else {
        &&& outcome is Ok
        &&& outcome->Ok_0.from == from->0
        &&& outcome->Ok_0.max_from == max_from->0
        &&& outcome->Ok_0.results@ == results->0
        &&& outcome->Ok_0.size == size->0
        &&& outcome->Ok_0.total == total->0
    }
}

/// The view of results that may be missing.
pub open spec fn results_view<T>(results: Option<Vec<T>>) -> Option<Seq<T>> {
    match results {
        Some(found) => Some(found@),
        None => None,
    }
}

/// Makes a page of its five members, each as far as the answer held it.
pub fn assemble_page<T>(
    from: Option<u32>,
    max_from: Option<u32>,
    results: Option<Vec<T>>,
    size: Option<u32>,
    total: Option<u32>,
) -> (r: Result<Paginated<T>, DecodeError>)
    ensures
        page_outcome(r, from, max_from, results_view(results), size, total),
        r is Ok ==> r->Ok_0.is_consistent(),
{
    match (from, max_from, results, size, total) {
        (Some(from), Some(max_from), Some(results), Some(size), Some(total)) => {
            let page = Paginated { from, max_from, results, size, total };
            if page.check() {
                Ok(page)
            } else {
                Err(DecodeError::Inconsistent)
            }
        },
        _ => Err(DecodeError::Shape),
    }
}

/// Reads one page of search results from the service's answer. The results
/// themselves are handed on as the parser found them.
///
/// A text that is no JSON document is refused, then a document that lacks
/// one of the five members, then a page that is not consistent.
pub fn parse_search_result(text: &str) -> (r: Result<Paginated<serde_json::Value>, DecodeError>)
    ensures
        match parsed(text@) {
            None => r == Err::<Paginated<serde_json::Value>, DecodeError>(DecodeError::Syntax),
            Some(document) => page_outcome(
                r,
                u32_member_of(document, "from"@),
                u32_member_of(document, "maxFrom"@),
                items_member_of(document, "results"@),
                u32_member_of(document, "size"@),
                u32_member_of(document, "total"@),
            ),
        },
        r is Ok ==> r->Ok_0.is_consistent(),
{
    match parse(text) {
        Err(_) => Err(DecodeError::Syntax),
        Ok(document) => {
            let from = u32_member(&document, "from");
            let max_from = u32_member(&document, "maxFrom");
            let results = items_member(&document, "results");
            let size = u32_member(&document, "size");
            let total = u32_member(&document, "total");
            assemble_page(from, max_from, results, size, total)
        },
    }
}

} // verus!
