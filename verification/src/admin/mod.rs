//! The privileged operations on the store, and the paging of the
//! dashboard's user table.

use vstd::prelude::*;

pub mod broadcast;
pub mod cosmetics;
pub mod users;

verus! {

/// The page and page size of a dashboard request.
#[derive(Debug, Clone, Copy, PartialEq, Eq)]
pub struct AdminQuery {
    pub page: Option<u32>,
    pub limit: Option<u32>,
}

/// The page size where a request names none.
pub const DEFAULT_LIMIT: u32 = 50;

/// One page of the user table.
#[derive(Debug, Clone, Copy, PartialEq, Eq)]
pub struct Page {
    /// The number of the page, from 1.
    pub page: usize,
    pub limit: usize,
    /// How many pages the dashboard shows.
    pub pages: usize,
    /// The rows of the page: positions `start..end` of the sorted table.
    pub start: usize,
    pub end: usize,
    /// The page before, unless this is the first.
    pub previous: Option<usize>,
    /// The page after, unless this is the last that the dashboard shows.
    pub next: Option<usize>,
}

/// The page that a request asks for, of a table of `count` rows. There is
/// none for page 0, for empty pages, or where a page number would not fit
/// the machine's word.
pub open spec fn page_of(query: AdminQuery, count: usize) -> Option<Page> {
    let page = match query.page {
        Some(page) => page as int,
        None => 1,
    };
    let limit = match query.limit {
        Some(limit) => limit as int,
        None => DEFAULT_LIMIT as int,
    };
    let skipped = (page - 1) * limit;
    if page < 1 || limit < 1 || page + 1 > usize::MAX || count as int / limit + 1 > usize::MAX {
        None
    } else {
        let pages = count as int / limit + 1;
        Some(
            Page {
                page: page as usize,
                limit: limit as usize,
                pages: pages as usize,
                start: if skipped < count {
                    skipped as usize
                } else {
                    count
                },
                end: if skipped + limit < count {
                    (skipped + limit) as usize
                } else {
                    count
                },
                previous: if page != 1 {
                    Some((page - 1) as usize)
                } else {
                    None
                },
                next: if page != pages {
                    Some((page + 1) as usize)
                } else {
                    None
                },
            },
        )
    }
}

/// Works out the page that a request asks for. Pages count from 1 and hold
/// at least one row, so a request for page 0 or for empty pages gets none.
pub fn paginate(query: AdminQuery, count: usize) -> (page: Option<Page>)
    ensures
        page == page_of(query, count),
{
    let page: usize = match query.page {
        Some(page) => page as usize,
        None => 1,
    };
    let limit: usize = match query.limit {
        Some(limit) => limit as usize,
        None => DEFAULT_LIMIT as usize,
    };
    if page < 1 || limit < 1 || page == usize::MAX || count / limit == usize::MAX {
        return None;
    }
    let pages = count / limit + 1;
    let start = match (page - 1).checked_mul(limit) {
        Some(skipped) if skipped < count => skipped,
        _ => count,
    };
    let end = if count - start > limit {
        start + limit
    } else {
        count
    };
    proof {
        let p = page as int;
        let l = limit as int;
        let skipped = (p - 1) * l;
        assert(skipped >= 0) by (nonlinear_arith)
            requires
                p >= 1,
                l >= 1,
                skipped == (p - 1) * l,
        ;
    }
    Some(
        Page {
            page,
            limit,
            pages,
            start,
            end,
            previous: if page != 1 {
                Some(page - 1)
            } else {
                None
            },
            next: if page != pages {
                Some(page + 1)
            } else {
                None
            },
        },
    )
}

} // verus!
