//! What repositories store, and the decisions of the repository helpers:
//! counting entities page by page.
use vstd::prelude::*;

use super::domain::Entity;
use super::identifier::Identifier;

verus! {

/// An entity that a repository can store.
pub trait StorableEntity: Entity + core::fmt::Debug + Clone + Send + Sync {
    /// The type of identifier the entity is stored under.
    type Id: Identifier;
}

/// The page size with which entities are counted.
pub const COUNT_PAGE_SIZE: u32 = 1000;

/// Progress of a count: the next page to fetch and the entities counted so
/// far.
#[derive(Debug, Clone, Copy, PartialEq, Eq, Structural)]
pub struct PageCount {
    pub page: u32,
    pub total: u64,
}

/// What a count does next: fetch a page, or stop with the total.
#[derive(Debug, Clone, Copy, PartialEq, Eq, Structural)]
pub enum CountStep {
    /// Fetch this page of `COUNT_PAGE_SIZE` entities and report its length.
    Fetch(PageCount),
    /// The count is done.
    Done(u64),
}

impl PageCount {
    /// A count that has seen nothing and starts at page zero.
    pub fn start() -> (r: Self)
        ensures
            r.page == 0,
            r.total == 0,
    {
        PageCount { page: 0, total: 0 }
    }

    /// Takes in the length of the page just fetched: a short page ends the
    /// count; a full one asks for the next page.
    pub fn after_page(self, fetched: u64) -> (r: CountStep)
        requires
            self.total + fetched <= u64::MAX,
            fetched >= COUNT_PAGE_SIZE ==> self.page < u32::MAX,
        ensures
            fetched < COUNT_PAGE_SIZE ==> r == CountStep::Done((self.total + fetched) as u64),
            fetched >= COUNT_PAGE_SIZE ==> r == CountStep::Fetch(
                PageCount { page: (self.page + 1) as u32, total: (self.total + fetched) as u64 },
            ),
    {
        let total = self.total + fetched;
        if fetched < COUNT_PAGE_SIZE as u64 {
            CountStep::Done(total)
        } else {
            CountStep::Fetch(PageCount { page: self.page + 1, total })
        }
    }
}

} // verus!
