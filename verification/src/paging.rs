//! Reading an ordered set page by page.
//!
//! A cursor asks for one page after the other, each of the same size, and
//! ends with the first page that comes back empty. It never goes back, and a
//! new cursor starts the walk over.

use vstd::prelude::*;

verus! {

/// The rows of one page: `limit` rows behind the first `offset` ones.
#[derive(Clone, Copy, Debug, PartialEq, Eq, Structural)]
pub struct PageRequest {
    /// The number of the page, counted from 0.
    pub page: u64,
    pub offset: u64,
    pub limit: u64,
}

/// A forward-only cursor over the pages of an ordered set.
#[derive(Clone, Copy, Debug, PartialEq, Eq, Structural)]
pub struct PageCursor {
    pub page_size: u64,
    /// The number of the page to ask for next.
    pub page: u64,
    /// Whether the walk has ended.
    pub exhausted: bool,
}

impl PageCursor {
    /// The cursor at the start of a walk. With a page size of 0 there is
    /// nothing to ask for.
    pub open spec fn start(page_size: u64) -> PageCursor {
        PageCursor { page_size, page: 0, exhausted: page_size == 0 }
    }

    /// The page that the cursor asks for next, while the walk has not ended
    /// and the page's offset is within the range of its field.
    pub open spec fn pending(self) -> Option<PageRequest> {
        if self.exhausted || self.page * self.page_size > u64::MAX {
            None
        } else {
            Some(
                PageRequest {
                    page: self.page,
                    offset: (self.page * self.page_size) as u64,
                    limit: self.page_size,
                },
            )
        }
    }

    /// The cursor after the page it asked for came back with `rows` rows:
    /// at the next page, or at its end where the page was empty.
    pub open spec fn advanced(self, rows: usize) -> PageCursor {
        if self.exhausted {
            self
        } else if rows == 0 || self.page == u64::MAX {
            PageCursor { exhausted: true, ..self }
        } else {
            PageCursor { page: (self.page + 1) as u64, ..self }
        }
    }

    /// The cursor after `pages` non-empty pages of a walk.
    pub open spec fn after(page_size: u64, pages: nat) -> PageCursor
        decreases pages,
    {
        if pages == 0 {
            PageCursor::start(page_size)
        } else {
            PageCursor::after(page_size, (pages - 1) as nat).advanced(1)
        }
    }

    /// A cursor at the start of a walk.
    pub fn new(page_size: u64) -> (cursor: PageCursor)
        ensures
            cursor == PageCursor::start(page_size),
    {
        PageCursor { page_size, page: 0, exhausted: page_size == 0 }
    }

    /// The page to ask for next, if the walk goes on.
    pub fn request(&self) -> (request: Option<PageRequest>)
        ensures
            request == self.pending(),
    {
        if self.exhausted {
            return None;
        }
        match self.page.checked_mul(self.page_size) {
            Some(offset) => Some(PageRequest { page: self.page, offset, limit: self.page_size }),
            None => None,
        }
    }

    /// Takes note of the page that came back, and says whether the walk
    /// goes on.
    pub fn received(&mut self, rows: usize) -> (more: bool)
        ensures
            *final(self) == old(self).advanced(rows),
            more == !final(self).exhausted,
    {
        if self.exhausted {
            return false;
        }
        if rows == 0 || self.page == u64::MAX {
            self.exhausted = true;
            false
        } else {
            self.page = self.page + 1;
            true
        }
    }
}

/// The pages of a walk tile the ordered set: the page asked for behind
/// `pages` non-empty ones starts right where they end, and is as long as
/// every page is.
pub proof fn lemma_pages_tile(page_size: u64, pages: nat)
    requires
        page_size > 0,
        pages * page_size <= u64::MAX,
    ensures
        PageCursor::after(page_size, pages).pending() == Some(
            PageRequest {
                page: pages as u64,
                offset: (pages * page_size) as u64,
                limit: page_size,
            },
        ),
        !PageCursor::after(page_size, pages).exhausted,
        PageCursor::after(page_size, pages).page == pages,
    decreases pages,
{
    if pages > 0 {
        assert((pages - 1) * page_size <= pages * page_size) by (nonlinear_arith)
            requires
                page_size > 0,
                pages > 0,
        ;
        assert(pages <= pages * page_size) by (nonlinear_arith)
            requires
                page_size > 0,
                pages > 0,
        ;
        lemma_pages_tile(page_size, (pages - 1) as nat);
    }
}

} // verus!
