//! The part of the persistence layer that decides rather than queries: which
//! page of the records a listing asks the database for.

use vstd::prelude::*;

verus! {

/// The page size that a listing uses when it is asked for pages of 0.
pub const DEFAULT_PAGE_SIZE: usize = 10;

/// One page of the records to fetch: `page_size` records per page, page
/// `page` counted from 0.
#[derive(Clone, Copy, Debug, PartialEq, Eq)]
pub struct PageQuery {
    pub page_size: usize,
    pub page: usize,
}

/// The page size that a listing asked for `page_size` uses.
pub open spec fn effective_page_size(page_size: usize) -> usize {
    if page_size > 0 {
        page_size
    } else {
        DEFAULT_PAGE_SIZE
    }
}

/// A listing uses the page size it asks for, whatever it is; only a size of
/// 0 stands for the default, and the size used is never 0.
pub proof fn lemma_requested_page_size_is_kept(page_size: usize)
    ensures
        page_size > 0 ==> effective_page_size(page_size) == page_size,
        page_size == 0 ==> effective_page_size(page_size) == DEFAULT_PAGE_SIZE,
        effective_page_size(page_size) > 0,
{
}

/// The page that a listing of `page_size` records per page, page `page`,
/// asks the database for: a page size of 0 stands for the default. The
/// database is never asked for pages of 0 records.
pub fn example_list_query(page_size: usize, page: usize) -> (q: PageQuery)
    ensures
        q.page_size == effective_page_size(page_size),
        q.page == page,
        q.page_size > 0,
        page_size > 0 ==> q.page_size == page_size,
        page_size == 0 ==> q.page_size == DEFAULT_PAGE_SIZE,
{
    PageQuery { page_size: if page_size > 0 { page_size } else { DEFAULT_PAGE_SIZE }, page }
}

} // verus!
