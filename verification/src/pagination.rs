use vstd::prelude::*;

use crate::text::{decimal, push_decimal};

verus! {

/// Up to this many items, the products stay in the section of the first page.
pub const FIRST_PAGE_MIN_LIMIT: usize = 18;

/// Items on the first page once the products spill over.
pub const FIRST_PAGE_LIMIT: usize = 23;

/// Items on each further page.
pub const OTHER_PAGES_LIMIT: usize = 42;

/// Most items on the last page, which also holds the totals.
pub const MAX_LAST_PAGE_ITEMS: usize = 36;

/// A run of products, `start` inclusive, `end` exclusive, drawn on one page.
#[derive(Clone, Copy, Debug, PartialEq, Eq, Structural)]
pub struct PageRange {
    pub start: usize,
    pub end: usize,
}

impl View for PageRange {
    type V = (nat, nat);

    open spec fn view(&self) -> (nat, nat) {
        (self.start as nat, self.end as nat)
    }
}

/// Where the page that begins at `start` ends, for `n` items in all.
pub open spec fn next_page_end(start: nat, n: nat) -> nat {
    let end: nat = if start + OTHER_PAGES_LIMIT < n {
        start + OTHER_PAGES_LIMIT as nat
    } else {
        n
    };
    if end == n && end - start > MAX_LAST_PAGE_ITEMS {
        start + MAX_LAST_PAGE_ITEMS as nat
    } else {
        end
    }
}

/// The pages after the first, the next one beginning at `start`.
pub open spec fn continuation_pages(start: nat, n: nat) -> Seq<(nat, nat)>
    decreases n - start,
{
    if start >= n {
        Seq::empty()
    } else {
        let end = next_page_end(start, n);
        seq![(start, end)] + continuation_pages(end, n)
    }
}

/// How `n` products are spread over the pages: one page while they fit in
/// the section of the first page, else a first page of 18 (up to 23 items)
/// or 23 items, then pages of up to 42, the last of at most 36.
pub open spec fn page_ranges(n: nat) -> Seq<(nat, nat)> {
    if n <= FIRST_PAGE_MIN_LIMIT {
        seq![(0nat, n)]
    } else if n <= FIRST_PAGE_LIMIT {
        seq![(0nat, FIRST_PAGE_MIN_LIMIT as nat), (FIRST_PAGE_MIN_LIMIT as nat, n)]
    } else {
        seq![(0nat, FIRST_PAGE_LIMIT as nat)] + continuation_pages(FIRST_PAGE_LIMIT as nat, n)
    }
}

/// The view of a list of ranges.
pub open spec fn ranges_view(pages: Seq<PageRange>) -> Seq<(nat, nat)> {
    pages.map_values(|p: PageRange| p@)
}

/// Splits `total_items` products into the runs that the pages show.
pub fn paginate_products(total_items: usize) -> (pages: Vec<PageRange>)
    ensures
        ranges_view(pages@) == page_ranges(total_items as nat),
{
    let n = total_items;
    let mut pages: Vec<PageRange> = Vec::new();
    if n <= FIRST_PAGE_MIN_LIMIT {
        pages.push(PageRange { start: 0, end: n });
        assert(ranges_view(pages@) =~= page_ranges(n as nat));
        return pages;
    }
    if n <= FIRST_PAGE_LIMIT {
        pages.push(PageRange { start: 0, end: FIRST_PAGE_MIN_LIMIT });
        pages.push(PageRange { start: FIRST_PAGE_MIN_LIMIT, end: n });
        assert(ranges_view(pages@) =~= page_ranges(n as nat));
        return pages;
    }
    pages.push(PageRange { start: 0, end: FIRST_PAGE_LIMIT });
    let mut start: usize = FIRST_PAGE_LIMIT;
    assert(page_ranges(n as nat) =~= ranges_view(pages@) + continuation_pages(start as nat, n as nat));
    while start < n
        invariant
            n == total_items,
            FIRST_PAGE_LIMIT <= start <= n,
            page_ranges(n as nat) == ranges_view(pages@) + continuation_pages(start as nat, n as nat),
        decreases n - start,
    {
        let mut end: usize = if n - start > OTHER_PAGES_LIMIT {
            start + OTHER_PAGES_LIMIT
        } else {
            n
        };
        if end == n && end - start > MAX_LAST_PAGE_ITEMS {
            end = start + MAX_LAST_PAGE_ITEMS;
        }
        assert(end as nat == next_page_end(start as nat, n as nat));
        let ghost before = pages@;
        pages.push(PageRange { start, end });
        assert(ranges_view(pages@) =~= ranges_view(before) + seq![(start as nat, end as nat)]);
        assert(continuation_pages(start as nat, n as nat) =~= seq![(start as nat, end as nat)]
            + continuation_pages(end as nat, n as nat));
        start = end;
        assert(page_ranges(n as nat) =~= ranges_view(pages@) + continuation_pages(start as nat, n as nat));
    }
    assert(continuation_pages(start as nat, n as nat) =~= Seq::<(nat, nat)>::empty());
    assert(ranges_view(pages@) =~= page_ranges(n as nat));
    pages
}

} // verus!

verus! {

/// The pages after the first one follow each other without gap or overlap,
/// each holds between one and 42 items, and the last at most 36.
proof fn lemma_continuation_pages(start: nat, n: nat)
    requires
        start < n,
    ensures
        ({
            let c = continuation_pages(start, n);
            &&& c.len() >= 1
            &&& c[0].0 == start
            &&& c[c.len() - 1].1 == n
            &&& c[c.len() - 1].1 - c[c.len() - 1].0 <= MAX_LAST_PAGE_ITEMS
            &&& forall|k: int| 0 <= k < c.len() - 1 ==> c[k].1 == #[trigger] c[k + 1].0
            &&& forall|k: int|
                0 <= k < c.len() ==> #[trigger] c[k].0 < c[k].1 && c[k].1 - c[k].0
                    <= OTHER_PAGES_LIMIT
            &&& forall|k: int| 0 <= k < c.len() ==> start <= #[trigger] c[k].0 && c[k].1 <= n
        }),
    decreases n - start,
{
    let end = next_page_end(start, n);
    let c = continuation_pages(start, n);
    let rest = continuation_pages(end, n);
    assert(c == seq![(start, end)] + rest);
    if end < n {
        lemma_continuation_pages(end, n);
        assert forall|k: int| 0 <= k < c.len() - 1 implies c[k].1 == #[trigger] c[k + 1].0 by {
            assert(c[k + 1] == rest[k]);
            if k > 0 {
                assert(c[k] == rest[k - 1]);
                assert(rest[k - 1].1 == rest[(k - 1) + 1].0);
            } else {
                assert(c[0] == (start, end));
            }
        }
        assert forall|k: int| 0 <= k < c.len() implies #[trigger] c[k].0 < c[k].1 && c[k].1
            - c[k].0 <= OTHER_PAGES_LIMIT by {
            if k > 0 {
                assert(c[k] == rest[k - 1]);
            }
        }
        assert forall|k: int| 0 <= k < c.len() implies start <= #[trigger] c[k].0 && c[k].1
            <= n by {
            if k > 0 {
                assert(c[k] == rest[k - 1]);
            }
        }
        assert(c[c.len() - 1] == rest[rest.len() - 1]);
    } else {
        assert(rest =~= Seq::<(nat, nat)>::empty());
        assert(c.len() == 1);
    }
}

/// The pages share the products out in order and leave none out: the first
/// page begins with the first product, each page begins where the one before
/// ends, the last page ends with the last product, and no page runs
/// backwards; with at least one product, no page is empty.
pub proof fn pages_cover_products_in_order(n: nat)
    ensures
        ({
            let p = page_ranges(n);
            &&& p.len() >= 1
            &&& p[0].0 == 0
            &&& p[p.len() - 1].1 == n
            &&& forall|k: int| 0 <= k < p.len() - 1 ==> p[k].1 == #[trigger] p[k + 1].0
            &&& forall|k: int| 0 <= k < p.len() ==> #[trigger] p[k].0 <= p[k].1
            &&& n > 0 ==> forall|k: int| 0 <= k < p.len() ==> #[trigger] p[k].0 < p[k].1
            &&& forall|k: int| 0 <= k < p.len() ==> #[trigger] p[k].1 <= n
        }),
{
    let p = page_ranges(n);
    if n > FIRST_PAGE_LIMIT {
        let c = continuation_pages(FIRST_PAGE_LIMIT as nat, n);
        lemma_continuation_pages(FIRST_PAGE_LIMIT as nat, n);
        assert(p == seq![(0nat, FIRST_PAGE_LIMIT as nat)] + c);
        assert forall|k: int| 0 <= k < p.len() - 1 implies p[k].1 == #[trigger] p[k + 1].0 by {
            assert(p[k + 1] == c[k]);
            if k > 0 {
                assert(p[k] == c[k - 1]);
                assert(c[k - 1].1 == c[(k - 1) + 1].0);
            } else {
                assert(p[0] == (0nat, FIRST_PAGE_LIMIT as nat));
            }
        }
        assert forall|k: int| 0 <= k < p.len() implies #[trigger] p[k].0 < p[k].1 by {
            if k > 0 {
                assert(p[k] == c[k - 1]);
            }
        }
        assert forall|k: int| 0 <= k < p.len() implies #[trigger] p[k].1 <= n by {
            if k > 0 {
                assert(p[k] == c[k - 1]);
                assert(FIRST_PAGE_LIMIT <= c[k - 1].0 && c[k - 1].1 <= n);
            } else {
                assert(p[0] == (0nat, FIRST_PAGE_LIMIT as nat));
            }
        }
        assert(p[p.len() - 1] == c[c.len() - 1]);
    }
}

/// The products stay on one page exactly when there are at most 18 of them.
/// Otherwise the first page holds 18 of them when there are at most 23, and
/// 23 when there are more; every later page holds at most 42, and the last
/// page, which also carries the totals, at most 36.
pub proof fn page_sizes(n: nat)
    ensures
        ({
            let p = page_ranges(n);
            &&& (p.len() == 1) == (n <= 18)
            &&& n > 18 ==> p[0].1 - p[0].0 == (if n <= 23 {
                18int
            } else {
                23int
            })
            &&& forall|k: int| 1 <= k < p.len() ==> #[trigger] p[k].1 - p[k].0 <= 42
            &&& n > 18 ==> p[p.len() - 1].1 - p[p.len() - 1].0 <= 36
        }),
{
    let p = page_ranges(n);
    if n > FIRST_PAGE_LIMIT {
        let c = continuation_pages(FIRST_PAGE_LIMIT as nat, n);
        lemma_continuation_pages(FIRST_PAGE_LIMIT as nat, n);
        assert(p == seq![(0nat, FIRST_PAGE_LIMIT as nat)] + c);
        assert forall|k: int| 1 <= k < p.len() implies #[trigger] p[k].1 - p[k].0
            <= OTHER_PAGES_LIMIT by {
            assert(p[k] == c[k - 1]);
        }
        assert(p[p.len() - 1] == c[c.len() - 1]);
    }
}

} // verus!

verus! {

/// How tall the product list is drawn on a page.
#[derive(Clone, Copy, Debug, PartialEq, Eq, Structural)]
pub enum ListHeight {
    /// The products section of the single page.
    ProductsSection,
    /// The first of several pages, sized for 23 rows.
    FirstPage,
    /// A later page, sized for the given number of rows.
    ItemRows(usize),
    /// A page filled with rows, sized for 42 of them.
    FullPage,
}

/// What is drawn on one page of the invoice.
#[derive(Clone, Copy, Debug)]
pub struct PagePlan {
    /// The products listed on this page.
    pub range: PageRange,
    /// Whether the page is added to the document (every page but the first).
    pub new_page: bool,
    /// The height of the product list.
    pub list_height: ListHeight,
    /// Whether the list starts at the top margin rather than below the header.
    pub restart_before: bool,
    /// Whether what follows the list starts again at the top margin.
    pub restart_after: bool,
    /// Whether the totals and the footer follow the list (the last page).
    pub draws_totals: bool,
    /// The page number and the number of pages, printed when there are several pages.
    pub page_number: Option<(usize, usize)>,
}

/// The height of the list on page `k` of `n` products, the page holding `len` of them.
pub open spec fn list_height_for(n: nat, k: int, len: nat) -> ListHeight {
    if n <= FIRST_PAGE_MIN_LIMIT {
        ListHeight::ProductsSection
    } else if len >= MAX_LAST_PAGE_ITEMS {
        ListHeight::FullPage
    } else if k != 0 {
        ListHeight::ItemRows(len as usize)
    } else {
        ListHeight::FirstPage
    }
}

/// Whether the list on page `k` starts at the top margin.
pub open spec fn restarts_before(n: nat, k: int, len: nat) -> bool {
    n > FIRST_PAGE_MIN_LIMIT && (k != 0 || len >= MAX_LAST_PAGE_ITEMS)
}

/// Whether what follows the list on page `k` starts at the top margin.
pub open spec fn restarts_after(n: nat, k: int, len: nat) -> bool {
    n > FIRST_PAGE_MIN_LIMIT && (len >= MAX_LAST_PAGE_ITEMS || (k == 0 && len
        > FIRST_PAGE_MIN_LIMIT))
}

/// The plan of page `k` for `n` products.
pub open spec fn page_plan_for(n: nat, k: int) -> PagePlan {
    let pages = page_ranges(n);
    let (start, end) = pages[k];
    let len = (end - start) as nat;
    PagePlan {
        range: PageRange { start: start as usize, end: end as usize },
        new_page: k != 0,
        list_height: list_height_for(n, k, len),
        restart_before: restarts_before(n, k, len),
        restart_after: restarts_after(n, k, len),
        draws_totals: k == pages.len() - 1,
        page_number: if n > FIRST_PAGE_MIN_LIMIT {
            Some(((k + 1) as usize, pages.len() as usize))
        } else {
            None
        },
    }
}

/// Plans the pages of an invoice with `total_items` products.
pub fn plan_pages(total_items: usize) -> (plans: Vec<PagePlan>)
    ensures
        plans.len() == page_ranges(total_items as nat).len(),
        forall|k: int| 0 <= k < plans.len() ==> plans[k] == page_plan_for(total_items as nat, k),
        (plans.len() > 1) == (total_items > FIRST_PAGE_MIN_LIMIT),
        forall|k: int|
            0 <= k < plans.len() ==> (#[trigger] plans[k]).page_number == if total_items
                > FIRST_PAGE_MIN_LIMIT {
                Some(((k + 1) as usize, plans.len()))
            } else {
                None
            },
        forall|k: int|
            0 <= k < plans.len() ==> (#[trigger] plans[k]).new_page == (k > 0) && plans[k].draws_totals
                == (k + 1 == plans.len()),
{
    let ranges = paginate_products(total_items);
    proof {
        pages_cover_products_in_order(total_items as nat);
        assert forall|j: int| 0 <= j < ranges.len() implies #[trigger] ranges@[j].start
            <= ranges@[j].end by {
            assert(ranges_view(ranges@)[j] == ranges@[j]@);
            let p = page_ranges(total_items as nat);
            assert(p[j].0 <= p[j].1);
        }
    }
    let multi = total_items > FIRST_PAGE_MIN_LIMIT;
    let total_pages = ranges.len();
    let mut plans: Vec<PagePlan> = Vec::new();
    let mut k: usize = 0;
    while k < total_pages
        invariant
            total_pages == ranges.len(),
            ranges_view(ranges@) == page_ranges(total_items as nat),
            multi == (total_items > FIRST_PAGE_MIN_LIMIT),
            forall|j: int| 0 <= j < ranges.len() ==> #[trigger] ranges@[j].start <= ranges@[j].end,
            k <= total_pages,
            plans.len() == k,
            forall|j: int| 0 <= j < k ==> plans[j] == page_plan_for(total_items as nat, j),
        decreases total_pages - k,
    {
        let range = ranges[k];
        assert(ranges_view(ranges@)[k as int] == range@);
        let len = range.end - range.start;
        let list_height = if !multi {
            ListHeight::ProductsSection
        } else if len >= MAX_LAST_PAGE_ITEMS {
            ListHeight::FullPage
        } else if k != 0 {
            ListHeight::ItemRows(len)
        } else {
            ListHeight::FirstPage
        };
        let plan = PagePlan {
            range,
            new_page: k != 0,
            list_height,
            restart_before: multi && (k != 0 || len >= MAX_LAST_PAGE_ITEMS),
            restart_after: multi && (len >= MAX_LAST_PAGE_ITEMS || (k == 0 && len
                > FIRST_PAGE_MIN_LIMIT)),
            draws_totals: k == total_pages - 1,
            page_number: if multi {
                Some((k + 1, total_pages))
            } else {
                None
            },
        };
        plans.push(plan);
        k += 1;
    }
    proof {
        page_sizes(total_items as nat);
        assert forall|j: int| 0 <= j < plans.len() implies (#[trigger] plans[j]).page_number == if total_items
            > FIRST_PAGE_MIN_LIMIT {
            Some(((j + 1) as usize, plans.len()))
        } else {
            None
        } && plans[j].new_page == (j > 0) && plans[j].draws_totals == (j + 1 == plans.len()) by {
            page_plan_shows(total_items as nat, j);
        }
    }
    plans
}

/// The page number as printed at the foot of a page: "Página 2 de 3".
pub open spec fn page_label_text(page_number: nat, total_pages: nat) -> Seq<char> {
    "Página "@ + decimal(page_number) + " de "@ + decimal(total_pages)
}

/// Writes the page number of a page as it is printed at its foot.
pub fn page_label(page_number: usize, total_pages: usize) -> (label: String)
    ensures
        label@ == page_label_text(page_number as nat, total_pages as nat),
{
    let mut label = String::from_str("Página ");
    push_decimal(&mut label, page_number as u64);
    label.append(" de ");
    push_decimal(&mut label, total_pages as u64);
    label
}

} // verus!

verus! {

/// What each page of an invoice with `n` products shows: the `k`-th run of
/// products; it is a new page except for the first; only the last page
/// carries the totals; when the products spill over several pages (more than
/// 18 of them) every page prints its number and the number of pages, and a
/// single page prints none.
pub proof fn page_plan_shows(n: nat, k: int)
    requires
        n <= usize::MAX,
        0 <= k < page_ranges(n).len(),
    ensures
        ({
            let pages = page_ranges(n);
            let plan = page_plan_for(n, k);
            &&& plan.range.start == pages[k].0
            &&& plan.range.end == pages[k].1
            &&& plan.new_page == (k > 0)
            &&& plan.draws_totals == (k + 1 == pages.len())
            &&& (plan.page_number is Some) == (n > 18)
            &&& (plan.page_number is Some) == (pages.len() > 1)
            &&& n > 18 ==> plan.page_number == Some(((k + 1) as usize, pages.len() as usize))
        }),
{
    pages_cover_products_in_order(n);
    page_sizes(n);
    let pages = page_ranges(n);
    assert(pages[k].1 <= n);
}

/// How tall the product list of page `k` is drawn and where it starts: a
/// single page uses the products section below the header; with several
/// pages, a page of 36 or more products is drawn full height from the top
/// margin, the first page is sized for 23 rows below the header, and any
/// other page is sized for its own rows from the top margin. After the list,
/// drawing goes back to the top margin after a full page, or after a first
/// page of more than 18 products.
pub proof fn page_plan_layout(n: nat, k: int)
    requires
        n <= usize::MAX,
        0 <= k < page_ranges(n).len(),
    ensures
        ({
            let pages = page_ranges(n);
            let plan = page_plan_for(n, k);
            let size = pages[k].1 - pages[k].0;
            &&& n <= 18 ==> plan.list_height == ListHeight::ProductsSection && !plan.restart_before
                && !plan.restart_after
            &&& n > 18 && size >= 36 ==> plan.list_height == ListHeight::FullPage
                && plan.restart_before && plan.restart_after
            &&& n > 18 && size < 36 && k == 0 ==> plan.list_height == ListHeight::FirstPage
                && !plan.restart_before && (plan.restart_after == (size > 18))
            &&& n > 18 && size < 36 && k > 0 ==> plan.list_height == ListHeight::ItemRows(
                size as usize,
            ) && plan.restart_before && !plan.restart_after
        }),
{
    pages_cover_products_in_order(n);
    let pages = page_ranges(n);
    assert(pages[k].0 <= pages[k].1 <= n);
}

/// The page number reads "Página ", the number, " de ", and the number of pages.
pub proof fn page_label_reads(page_number: nat, total_pages: nat)
    ensures
        page_label_text(page_number, total_pages) == "Página "@ + decimal(page_number) + " de "@
            + decimal(total_pages),
{
}

} // verus!

verus! {

/// Every page after the first but the last of a run begun at `start` is full,
/// except the one before the last, which holds 36 when it leaves 6 or fewer
/// products for the last.
proof fn lemma_continuation_full(start: nat, n: nat)
    requires
        start < n,
    ensures
        ({
            let c = continuation_pages(start, n);
            forall|k: int|
                0 <= k < c.len() - 1 ==> #[trigger] c[k].1 - c[k].0 == 42 || (k == c.len() - 2
                    && c[k].1 - c[k].0 == 36 && c[c.len() - 1].1 - c[c.len() - 1].0 <= 6)
        }),
    decreases n - start,
{
    let end = next_page_end(start, n);
    let c = continuation_pages(start, n);
    let rest = continuation_pages(end, n);
    assert(c == seq![(start, end)] + rest);
    if end < n {
        lemma_continuation_full(end, n);
        lemma_continuation_pages(end, n);
        if end - start != 42 {
            assert(end == start + 36);
            assert(next_page_end(end, n) == n);
            assert(continuation_pages(n, n) =~= Seq::<(nat, nat)>::empty());
            assert(rest =~= seq![(end, n)]);
        }
        assert forall|k: int| 0 <= k < c.len() - 1 implies #[trigger] c[k].1 - c[k].0 == 42 || (k
            == c.len() - 2 && c[k].1 - c[k].0 == 36 && c[c.len() - 1].1 - c[c.len() - 1].0 <= 6) by {
            assert(c[c.len() - 1] == rest[rest.len() - 1]);
            if k > 0 {
                assert(c[k] == rest[k - 1]);
                assert(rest[k - 1].1 - rest[k - 1].0 == 42 || (k - 1 == rest.len() - 2 && rest[k
                    - 1].1 - rest[k - 1].0 == 36 && rest[rest.len() - 1].1 - rest[rest.len() - 1].0
                    <= 6));
            }
        }
    }
}

/// Past the first page, products fill pages of 42 until what is left fits on
/// the last page; only when 37 to 42 would be left for it does the page
/// before the last take 36 of them, leaving 6 or fewer for the last.
pub proof fn middle_pages_full(n: nat)
    ensures
        ({
            let p = page_ranges(n);
            forall|k: int|
                1 <= k < p.len() - 1 ==> #[trigger] p[k].1 - p[k].0 == 42 || (k == p.len() - 2
                    && p[k].1 - p[k].0 == 36 && p[p.len() - 1].1 - p[p.len() - 1].0 <= 6)
        }),
{
    let p = page_ranges(n);
    if n > 23 {
        let c = continuation_pages(23, n);
        lemma_continuation_pages(23, n);
        lemma_continuation_full(23, n);
        assert(p == seq![(0nat, 23nat)] + c);
        assert(p[p.len() - 1] == c[c.len() - 1]);
        assert forall|k: int| 1 <= k < p.len() - 1 implies #[trigger] p[k].1 - p[k].0 == 42 || (k
            == p.len() - 2 && p[k].1 - p[k].0 == 36 && p[p.len() - 1].1 - p[p.len() - 1].0 <= 6) by {
            assert(p[k] == c[k - 1]);
            assert(c[k - 1].1 - c[k - 1].0 == 42 || (k - 1 == c.len() - 2 && c[k - 1].1 - c[k - 1].0
                == 36 && c[c.len() - 1].1 - c[c.len() - 1].0 <= 6));
        }
    }
}

} // verus!
