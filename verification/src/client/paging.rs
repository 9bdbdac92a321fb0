//! Auto-pagination. The API exposes no total, so a listing ends with the
//! first page that comes back shorter than the requested page size.

use vstd::prelude::*;

verus! {

/// Default page size of auto-pagination (the API's maximum, for fewer
/// round-trips).
pub const DEFAULT_PAGE_SIZE: u32 = 100;

/// The page size a listing uses: the requested one, else the configured
/// default, and never below one (a page size of zero would never produce a
/// short page, so the listing would never end).
pub open spec fn page_size_for(requested: Option<u32>, default: u32) -> u32 {
    let size = match requested {
        Some(s) => s,
        None => default,
    };
    if size == 0 {
        1
    } else {
        size
    }
}

/// After fetching `page` with `items` entries: the next page to request, or
/// `None` when this page was short and thus the last.
pub open spec fn page_after(items: usize, page: u32, page_size: u32) -> Option<u32> {
    if (items as u32) < page_size {
        None
    } else {
        Some((page + 1) as u32)
    }
}

/// The page size a listing uses, clamped to at least one.
pub fn resolve_page_size(requested: Option<u32>, default: u32) -> (r: u32)
    ensures
        r == page_size_for(requested, default),
        r >= 1,
{
    let size = match requested {
        Some(s) => s,
        None => default,
    };
    if size == 0 {
        1
    } else {
        size
    }
}

/// The next page to request after `page` came back with `items` entries, or
/// `None` to stop: a short page (fewer items than requested) is the last.
pub fn next_page(items: usize, page: u32, page_size: u32) -> (r: Option<u32>)
    requires
        (items as u32) >= page_size ==> page < u32::MAX,
    ensures
        r == page_after(items, page, page_size),
{
    if (items as u32) < page_size {
        None
    } else {
        Some(page + 1)
    }
}

/// The position of a listing: the page to fetch next (from page 1), and the
/// page size every request of the listing uses.
pub struct Paginator {
    next: Option<u32>,
    page_size: u32,
    /// The item counts of the pages fetched so far.
    counts: Ghost<Seq<usize>>,
}

impl Paginator {
    /// The page to fetch next, or `None` once the listing has ended.
    pub closed spec fn pending(&self) -> Option<u32> {
        self.next
    }

    /// The page size of every request of the listing.
    pub closed spec fn size(&self) -> u32 {
        self.page_size
    }

    /// The item counts of the pages fetched so far, in order.
    pub closed spec fn history(&self) -> Seq<usize> {
        self.counts@
    }

    /// Every request of a listing asks for at least one item, and the page
    /// to fetch next is the one that the pages fetched so far lead to.
    #[verifier::type_invariant]
    closed spec fn consistent(&self) -> bool {
        &&& self.page_size >= 1
        &&& self.next == pending_after(1, self.page_size, self.counts@)
    }

    /// A listing starting at page 1.
    pub fn new(requested_page_size: Option<u32>, default_page_size: u32) -> (p: Self)
        ensures
            p.pending() == Some(1u32),
            p.size() == page_size_for(requested_page_size, default_page_size),
            p.size() >= 1,
            p.history() == Seq::<usize>::empty(),
    {
        Paginator {
            next: Some(1),
            page_size: resolve_page_size(requested_page_size, default_page_size),
            counts: Ghost(Seq::empty()),
        }
    }

    /// The page and page size of the next request, or `None` once the
    /// listing has ended.
    pub fn next_request(&self) -> (r: Option<(u32, u32)>)
        ensures
            r == match self.pending() {
                Some(page) => Some((page, self.size())),
                None => None::<(u32, u32)>,
            },
            self.size() >= 1,
            self.pending() == pending_after(1, self.size(), self.history()),
    {
        proof {
            use_type_invariant(self);
        }
        match self.next {
            Some(page) => Some((page, self.page_size)),
            None => None,
        }
    }

    /// Records that the pending page came back with `items` entries: the
    /// listing ends on a short page and otherwise moves to the next page.
    pub fn advance(&mut self, items: usize)
        requires
            old(self).pending() is Some,
            (items as u32) >= old(self).size() ==> old(self).pending()->0 < u32::MAX,
        ensures
            final(self).size() == old(self).size(),
            final(self).pending() == page_after(items, old(self).pending()->0, old(self).size()),
            final(self).history() == old(self).history().push(items),
            pages_requested(1, final(self).size(), final(self).history()) == pages_requested(
                1,
                old(self).size(),
                old(self).history(),
            ).push(old(self).pending()->0),
    {
        proof {
            use_type_invariant(&*self);
            lemma_pending_after_push(1, self.page_size, self.counts@, items);
            lemma_pages_requested_push(1, self.page_size, self.counts@, items);
        }
        let ghost counts = self.counts@.push(items);
        let page = match self.next {
            Some(page) => page,
            None => 1,
        };
        let next = next_page(items, page, self.page_size);
        *self = Paginator { next, page_size: self.page_size, counts: Ghost(counts) };
    }
}

/// With a page size of at least one (which `Paginator` always has), an empty
/// page ends the listing.
pub proof fn lemma_empty_page_ends_listing(page: u32, page_size: u32)
    requires
        page_size >= 1,
    ensures
        page_after(0, page, page_size) is None,
{
}

/// The pages a listing requests, from page `page` on, when the pages come
/// back with `counts[0], counts[1], ...` items: each page is requested, and
/// the next one follows only when that page was full.
pub open spec fn pages_requested(page: u32, page_size: u32, counts: Seq<usize>) -> Seq<u32>
    decreases counts.len(),
{
    if counts.len() == 0 {
        Seq::empty()
    } else {
        seq![page] + match page_after(counts[0], page, page_size) {
            Some(next) => pages_requested(next, page_size, counts.drop_first()),
            None => Seq::empty(),
        }
    }
}

/// A listing requests pages `1, 2, ..., j` in order, where page `j` is the
/// first that comes back short, and no page after it.
pub proof fn lemma_listing_requests_pages_up_to_first_short(
    page_size: u32,
    counts: Seq<usize>,
    j: nat,
)
    requires
        1 <= j <= counts.len(),
        j < u32::MAX,
        forall|i: int| 0 <= i < j - 1 ==> (#[trigger] counts[i] as u32) >= page_size,
        (counts[j - 1] as u32) < page_size,
    ensures
        pages_requested(1, page_size, counts) == Seq::new(j, |i: int| (i + 1) as u32),
{
    lemma_pages_from(1, page_size, counts, j);
    assert(Seq::new(j, |i: int| (1 + i) as u32) =~= Seq::new(j, |i: int| (i + 1) as u32));
}

proof fn lemma_pages_from(page: u32, page_size: u32, counts: Seq<usize>, j: nat)
    requires
        1 <= j <= counts.len(),
        page + j <= u32::MAX,
        forall|i: int| 0 <= i < j - 1 ==> (#[trigger] counts[i] as u32) >= page_size,
        (counts[j - 1] as u32) < page_size,
    ensures
        pages_requested(page, page_size, counts) == Seq::new(j, |i: int| (page + i) as u32),
    decreases j,
{
    if j == 1 {
        assert(pages_requested(page, page_size, counts) =~= Seq::new(
            j,
            |i: int| (page + i) as u32,
        ));
    } else {
        assert((counts[0] as u32) >= page_size);
        let rest = counts.drop_first();
        assert forall|i: int| 0 <= i < j - 2 implies (#[trigger] rest[i] as u32) >= page_size by {
            assert(rest[i] == counts[i + 1]);
        }
        assert(rest[j - 2] == counts[j - 1]);
        lemma_pages_from((page + 1) as u32, page_size, rest, (j - 1) as nat);
        assert(pages_requested(page, page_size, counts) =~= Seq::new(
            j,
            |i: int| (page + i) as u32,
        ));
    }
}

/// The page to fetch next, starting from page `page`, once pages with
/// `counts[0], counts[1], ...` items have come back: `None` once one of them
/// was short.
pub open spec fn pending_after(page: u32, page_size: u32, counts: Seq<usize>) -> Option<u32>
    decreases counts.len(),
{
    if counts.len() == 0 {
        Some(page)
    } else {
        match page_after(counts[0], page, page_size) {
            Some(next) => pending_after(next, page_size, counts.drop_first()),
            None => None,
        }
    }
}

proof fn lemma_pending_after_push(page: u32, page_size: u32, counts: Seq<usize>, c: usize)
    ensures
        pending_after(page, page_size, counts.push(c)) == match pending_after(
            page,
            page_size,
            counts,
        ) {
            Some(p) => page_after(c, p, page_size),
            None => None,
        },
    decreases counts.len(),
{
    let pushed = counts.push(c);
    if counts.len() > 0 {
        assert(pushed[0] == counts[0]);
        assert(pushed.drop_first() =~= counts.drop_first().push(c));
        match page_after(counts[0], page, page_size) {
            Some(next) => lemma_pending_after_push(next, page_size, counts.drop_first(), c),
            None => {},
        }
    } else {
        assert(pushed.drop_first() =~= Seq::<usize>::empty());
        match page_after(c, page, page_size) {
            Some(next) => {
                assert(pending_after(next, page_size, Seq::<usize>::empty()) == Some(next));
            },
            None => {},
        }
    }
}

/// The pages a listing has requested grow by exactly the pending page each
/// time a page comes back, and stop growing once a page was short: a run of
/// `Paginator::new` and `advance` requests exactly
/// `pages_requested(1, size, counts)` for the counts it was given.
pub proof fn lemma_pages_requested_push(page: u32, page_size: u32, counts: Seq<usize>, c: usize)
    ensures
        pages_requested(page, page_size, counts.push(c)) == match pending_after(
            page,
            page_size,
            counts,
        ) {
            Some(p) => pages_requested(page, page_size, counts).push(p),
            None => pages_requested(page, page_size, counts),
        },
    decreases counts.len(),
{
    let pushed = counts.push(c);
    if counts.len() > 0 {
        assert(pushed[0] == counts[0]);
        assert(pushed.drop_first() =~= counts.drop_first().push(c));
        match page_after(counts[0], page, page_size) {
            Some(next) => {
                lemma_pages_requested_push(next, page_size, counts.drop_first(), c);
                match pending_after(next, page_size, counts.drop_first()) {
                    Some(p) => {
                        assert(pages_requested(page, page_size, pushed) =~= pages_requested(
                            page,
                            page_size,
                            counts,
                        ).push(p));
                    },
                    None => {},
                }
            },
            None => {},
        }
    } else {
        assert(pushed.drop_first() =~= Seq::<usize>::empty());
        match page_after(c, page, page_size) {
            Some(next) => {
                assert(pages_requested(next, page_size, Seq::<usize>::empty()) =~= Seq::<
                    u32,
                >::empty());
            },
            None => {},
        }
        assert(pages_requested(page, page_size, counts) =~= Seq::<u32>::empty());
        assert(pages_requested(page, page_size, pushed) =~= seq![page]);
    }
}

} // verus!
