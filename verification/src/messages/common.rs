//! Inputs shared by every listing.

use vstd::prelude::*;

verus! {

/// A window into a listing: how many rows at most, and how many to skip.
#[derive(Debug, PartialEq, Eq)]
pub struct QueryPage {
    pub limit: Option<i32>,
    pub offset: Option<i32>,
}

impl Clone for QueryPage {
    fn clone(&self) -> (r: Self)
        ensures
            r == *self,
    {
        QueryPage { limit: self.limit, offset: self.offset }
    }
}

impl Default for QueryPage {
    /// No limit, starting at the first row.
    fn default() -> (page: Self)
        ensures
            page.limit is None,
            page.offset == Some(0i32),
    {
        QueryPage { limit: None, offset: Some(0) }
    }
}

impl QueryPage {
    /// The rows to fetch, as (limit, offset), or `None` for all of them: a
    /// page without a limit fetches everything, whatever its offset, and a
    /// missing offset counts as zero.
    pub open spec fn spec_window(self) -> Option<(i64, i64)> {
        match self.limit {
            Some(limit) => Some(
                (
                    limit as i64,
                    match self.offset {
                        Some(offset) => offset as i64,
                        None => 0i64,
                    },
                ),
            ),
            None => None,
        }
    }

    /// The rows that a listing with this page fetches: see `spec_window`.
    pub fn window(&self) -> (w: Option<(i64, i64)>)
        ensures
            w == self.spec_window(),
    {
        match self.limit {
            Some(limit) => {
                let offset: i32 = match self.offset {
                    Some(offset) => offset,
                    None => 0,
                };
                Some((limit as i64, offset as i64))
            },
            None => None,
        }
    }

    /// The rows that a listing fetches when the page itself may be missing:
    /// a missing page is the default page.
    pub fn window_of(paging: Option<QueryPage>) -> (w: Option<(i64, i64)>)
        ensures
            w == match paging {
                Some(page) => page.spec_window(),
                None => None,
            },
    {
        match paging {
            Some(page) => page.window(),
            None => QueryPage::default().window(),
        }
    }
}

} // verus!
