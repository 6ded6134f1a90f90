//! What holds of pagination, log levels and counting across calls.
use vstd::prelude::*;

use super::logger::{level_named, LogLevel};
use super::query::page_count;
use super::repository::{CountStep, PageCount, COUNT_PAGE_SIZE};
use crate::common::text::{ascii_lowered, is_ascii_text};

verus! {

/// Pages cover the items exactly: where the page count fits in 32 bits,
/// that many pages hold all `total` items, and one page fewer would not.
pub proof fn law_pages_cover_items(total: u64, page_size: u32)
    requires
        page_size > 0,
        (total + page_size - 1) / (page_size as int) <= u32::MAX,
    ensures
        page_count(total, page_size) * page_size >= total,
        total > 0 ==> (page_count(total, page_size) - 1) * page_size < total,
{
    let s = page_size as int;
    let t = total as int;
    let q = (t + s - 1) / s;
    assert(q * s <= t + s - 1 && t + s - 1 < q * s + s) by (nonlinear_arith)
        requires
            s > 0,
            q == (t + s - 1) / s,
    ;
    assert(page_count(total, page_size) == q);
    assert(q * s >= t);
    assert((q - 1) * s == q * s - s) by (nonlinear_arith);
}

/// The level of a name does not depend on its case: two ASCII names equal
/// but for case give the same level.
pub proof fn law_level_ignores_case(a: Seq<char>, b: Seq<char>)
    requires
        is_ascii_text(a),
        is_ascii_text(b),
        ascii_lowered(a) == ascii_lowered(b),
    ensures
        level_named(ascii_lowered(a)) == level_named(ascii_lowered(b)),
{
}

/// A name that is not one of the levels is read as `Info`.
pub proof fn law_unknown_level_is_info(lower: Seq<char>)
    requires
        lower != "trace"@,
        lower != "debug"@,
        lower != "warn"@,
        lower != "warning"@,
        lower != "error"@,
    ensures
        level_named(lower) == LogLevel::Info,
{
}

/// Counting stops at the first page shorter than the page size, with the
/// pages' lengths added up; a full page always asks for the next one.
pub proof fn law_count_adds_pages(c: PageCount, fetched: u64, step: CountStep)
    requires
        c.total + fetched <= u64::MAX,
        fetched >= COUNT_PAGE_SIZE ==> c.page < u32::MAX,
        fetched < COUNT_PAGE_SIZE ==> step == CountStep::Done((c.total + fetched) as u64),
        fetched >= COUNT_PAGE_SIZE ==> step == CountStep::Fetch(
            PageCount { page: (c.page + 1) as u32, total: (c.total + fetched) as u64 },
        ),
    ensures
        step matches CountStep::Done(n) ==> n == c.total + fetched && fetched < COUNT_PAGE_SIZE,
        step matches CountStep::Fetch(next) ==> next.total == c.total + fetched && next.page
            == c.page + 1,
{
}

} // verus!
