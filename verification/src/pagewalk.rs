//! The pagination aggregator: folds a chain of remote result pages into one
//! ordered item list.
//!
//! A page carries its items and an optional continuation reference. The
//! walker owns the accumulation; the caller performs the fetch of each
//! pending continuation (an authenticated remote call) and hands the next
//! page back through [`PageWalker::absorb`]. Both continuation shapes the
//! remote service uses (offset/URL-based and cursor-based) reduce to this
//! page form. A walk ends when a page carries no continuation; no maximum
//! page count is enforced.

use vstd::prelude::*;

verus! {

/// One page of a paginated remote result.
pub struct Page<T> {
    pub items: Vec<T>,
    pub next: Option<String>,
}

/// The view of a continuation reference.
pub open spec fn next_view(next: Option<String>) -> Option<Seq<char>> {
    match next {
        Some(url) => Some(url@),
        None => None,
    }
}

/// An in-progress walk over a chain of pages. Each walk is independent:
/// concurrent walks share no state.
pub struct PageWalker<T> {
    items: Vec<T>,
    next: Option<String>,
}

impl<T> PageWalker<T> {
    /// The items accumulated so far, in page order.
    pub closed spec fn items_spec(&self) -> Seq<T> {
        self.items@
    }

    /// The continuation still to fetch, if any.
    pub closed spec fn next_spec(&self) -> Option<Seq<char>> {
        next_view(self.next)
    }

    /// Starts a walk at the first page.
    pub fn start(first: Page<T>) -> (r: Self)
        ensures
            r.items_spec() == first.items@,
            r.next_spec() == next_view(first.next),
    {
        PageWalker { items: first.items, next: first.next }
    }

    /// The continuation reference the caller must fetch next; `None` when
    /// the walk is complete.
    pub fn pending(&self) -> (r: Option<&String>)
        ensures
            match r {
                Some(url) => self.next_spec() == Some(url@),
                None => self.next_spec() is None,
            },
    {
        self.next.as_ref()
    }

    /// Absorbs the page fetched for the pending continuation: its items are
    /// appended in order and its continuation replaces the pending one.
    pub fn absorb(&mut self, page: Page<T>)
        requires
            old(self).next_spec() is Some,
        ensures
            final(self).items_spec() == old(self).items_spec() + page.items@,
            final(self).next_spec() == next_view(page.next),
    {
        let Page { mut items, next } = page;
        self.items.append(&mut items);
        self.next = next;
    }

    /// Ends a completed walk, yielding every item of every page, in fetch
    /// order.
    pub fn finish(self) -> (r: Vec<T>)
        requires
            self.next_spec() is None,
        ensures
            r@ == self.items_spec(),
    {
        self.items
    }
}

/// The items of a chain of pages, concatenated in page order.
pub open spec fn pages_items<T>(pages: Seq<Seq<T>>) -> Seq<T>
    decreases pages.len(),
{
    if pages.len() == 0 {
        Seq::empty()
    } else {
        pages.first() + pages_items(pages.drop_first())
    }
}

/// Accumulated items after absorbing `pages` in order, starting from
/// `items`: one application per page, exactly as [`PageWalker::absorb`]
/// states it.
pub open spec fn absorb_all<T>(items: Seq<T>, pages: Seq<Seq<T>>) -> Seq<T>
    decreases pages.len(),
{
    if pages.len() == 0 {
        items
    } else {
        absorb_all(items + pages.first(), pages.drop_first())
    }
}

/// A walk that starts at a first page and absorbs every further page of the
/// chain in order accumulates exactly the first page's items followed by the
/// other pages' items, in page order. In particular a first page with no
/// continuation yields exactly its own items.
pub proof fn lemma_walk_is_concatenation<T>(first_items: Seq<T>, pages: Seq<Seq<T>>)
    ensures
        absorb_all(first_items, pages) == first_items + pages_items(pages),
    decreases pages.len(),
{
    if pages.len() == 0 {
        assert(absorb_all(first_items, pages) =~= first_items + pages_items(pages));
    } else {
        lemma_walk_is_concatenation(first_items + pages.first(), pages.drop_first());
        assert((first_items + pages.first()) + pages_items(pages.drop_first()) =~= first_items + (
        pages.first() + pages_items(pages.drop_first())));
    }
}

} // verus!
