//! Paginated results of queries.
use vstd::prelude::*;

verus! {

/// A page of a result, with the page number, the page size and the total
/// number of items.
#[derive(Debug, Clone)]
pub struct Paginated<T> {
    pub items: Vec<T>,
    pub page: u32,
    pub page_size: u32,
    pub total: u64,
}

/// The number of pages of `page_size` items that `total` items fill, the
/// last one possibly partly: `total / page_size` rounded up, cut to 32 bits.
pub open spec fn page_count(total: u64, page_size: u32) -> u32 {
    ((total + page_size - 1) / (page_size as int)) as u32
}

impl<T> Paginated<T> {
    /// A page of `items`.
    pub fn new(items: Vec<T>, page: u32, page_size: u32, total: u64) -> (r: Self)
        ensures
            r.items == items,
            r.page == page,
            r.page_size == page_size,
            r.total == total,
    {
        Paginated { items, page, page_size, total }
    }

    /// The number of pages.  A page size of zero, or a total so large that
    /// adding the page size less one overflows, has no page count.
    pub fn total_pages(&self) -> (r: u32)
        requires
            self.page_size > 0,
            self.total + self.page_size - 1 <= u64::MAX,
        ensures
            r == page_count(self.total, self.page_size),
    {
        ((self.total + (self.page_size as u64 - 1)) / self.page_size as u64) as u32
    }

    /// Whether a page follows this one.
    pub fn has_next(&self) -> (r: bool)
        requires
            self.page_size > 0,
            self.total + self.page_size - 1 <= u64::MAX,
        ensures
            r == (self.page < page_count(self.total, self.page_size)),
    {
        self.page < self.total_pages()
    }

    /// Whether a page precedes this one (pages are counted from one).
    pub fn has_prev(&self) -> (r: bool)
        ensures
            r == (self.page > 1),
    {
        self.page > 1
    }
}

} // verus!
