//! A demand-driven walk over a paginated collection: the decisions of the
//! walk, one pull at a time, with the fetching of pages left to the caller.

use vstd::prelude::*;
use crate::api::ApiError;
use crate::encoding::opt_view;
use crate::outside::{parse_error_of, parse_url, parsed_url, url_accepts};

verus! {

/// A page of a paginated collection, of either wire shape.
pub trait Pageable<T>: Sized {
    /// The link to the following page, if any.
    spec fn spec_next_url(&self) -> Option<Seq<char>>;

    /// The items of the page, in order.
    spec fn spec_items(&self) -> Seq<T>;

    fn next_url(&self) -> (r: Option<&str>)
        ensures
            opt_view(r) == self.spec_next_url(),
    ;

    fn into_items(self) -> (r: Vec<T>)
        ensures
            r@ == self.spec_items(),
    ;
}

/// The abstract state of a pager: the items buffered (next first), the
/// link to a further page, if one is held, and whether a fetch is
/// outstanding.
pub ghost struct PagerView<T> {
    pub items: Seq<T>,
    pub next: Option<http_types::Url>,
    pub fetching: bool,
}

impl<T> PagerView<T> {
    /// While a fetch is outstanding nothing else is buffered or held.
    pub open spec fn wf(self) -> bool {
        self.fetching ==> self.items.len() == 0 && self.next is None
    }
}

/// What a step of the pager asks for, abstractly.
pub ghost enum StepView<T> {
    Item(T),
    Fetch(http_types::Url),
    Failed,
    End,
}

/// A page as the pager sees it.
pub ghost struct PageView<T> {
    pub items: Seq<T>,
    pub next: Option<Seq<char>>,
}

/// The outcome of a fetch, abstractly.
pub ghost enum FetchView<T> {
    Failed,
    Page(PageView<T>),
}

/// The view of a page.
pub open spec fn page_view<T, P: Pageable<T>>(p: P) -> PageView<T> {
    PageView { items: p.spec_items(), next: p.spec_next_url() }
}

/// The URL read from a link text, if there is one.
pub open spec fn link_of(next: Option<Seq<char>>) -> Option<http_types::Url> {
    match next {
        Some(n) => Some(parsed_url(n)),
        None => None,
    }
}

/// The state of a pager seeded with the items and link of a first page.
pub open spec fn seeded<T>(items: Seq<T>, next: Option<http_types::Url>) -> PagerView<T> {
    PagerView { items, next, fetching: false }
}

/// The state in which a pager has nothing left: every later pull ends it.
pub open spec fn exhausted<T>() -> PagerView<T> {
    PagerView { items: seq![], next: None, fetching: false }
}

/// One pull on an idle pager: hand out the first buffered item; else start a
/// fetch of the held link, which is given up; else report the end.
pub open spec fn pull_model<T>(s: PagerView<T>) -> (PagerView<T>, StepView<T>) {
    if s.items.len() > 0 {
        (PagerView { items: s.items.skip(1), ..s }, StepView::Item(s.items[0]))
    } else if s.next is Some {
        (PagerView { items: seq![], next: None, fetching: true }, StepView::Fetch(s.next->0))
    } else {
        (s, StepView::End)
    }
}

/// The completion of the outstanding fetch. A failure, or a link to a
/// further page that does not parse, ends the walk with that error; else the
/// page's items replace the buffer, the URL read from its link replaces the
/// one held, and the pull goes on.
pub open spec fn fetched_model<T>(s: PagerView<T>, outcome: FetchView<T>) -> (
    PagerView<T>,
    StepView<T>,
) {
    match outcome {
        FetchView::Failed => (exhausted(), StepView::Failed),
        FetchView::Page(p) => {
            if p.next is Some && !url_accepts(p.next->0) {
                (exhausted(), StepView::Failed)
            } else {
                pull_model(seeded(p.items, link_of(p.next)))
            }
        },
    }
}

/// The record of driving a pager to its end.
pub ghost struct RunView<T> {
    /// The items handed out, in order.
    pub items: Seq<T>,
    /// The links fetched, in order.
    pub links: Seq<http_types::Url>,
    /// Whether the walk reached its end (rather than an error, or a fetch
    /// that the transport could not answer).
    pub ended: bool,
}

/// The measure that a run decreases on each step.
pub open spec fn step_weight<T>(s: PagerView<T>, step: StepView<T>) -> nat {
    s.items.len() + if step is Item {
        1nat
    } else {
        0nat
    }
}

/// Drives a pager in state `s`, which has just answered `step`, pulling one
/// item at a time; the transport answers its k-th fetch with `pages[k]`.
pub open spec fn run<T>(s: PagerView<T>, step: StepView<T>, pages: Seq<PageView<T>>) -> RunView<
    T,
>
    decreases pages.len(), step_weight(s, step),
{
    match step {
        StepView::Item(t) => {
            let (s2, step2) = pull_model(s);
            let rest = run(s2, step2, pages);
            RunView { items: seq![t] + rest.items, ..rest }
        },
        StepView::Fetch(u) => {
            if pages.len() == 0 {
                RunView { items: seq![], links: seq![u], ended: false }
            } else {
                let (s2, step2) = fetched_model(s, FetchView::Page(pages[0]));
                let rest = run(s2, step2, pages.skip(1));
                RunView { links: seq![u] + rest.links, ..rest }
            }
        },
        StepView::Failed => RunView { items: seq![], links: seq![], ended: false },
        StepView::End => RunView { items: seq![], links: seq![], ended: true },
    }
}

/// Driving a pager seeded with `pages[0]` from its first pull.
pub open spec fn run_seeded<T>(pages: Seq<PageView<T>>) -> RunView<T>
    recommends
        pages.len() >= 1,
{
    let (s, step) = pull_model(seeded(pages[0].items, link_of(pages[0].next)));
    run(s, step, pages.skip(1))
}

/// All items of a sequence of pages, in order.
pub open spec fn all_items<T>(pages: Seq<PageView<T>>) -> Seq<T>
    decreases pages.len(),
{
    if pages.len() == 0 {
        seq![]
    } else {
        pages[0].items + all_items(pages.skip(1))
    }
}

/// The URLs read from the links of every page but the last, in order.
pub open spec fn chain_links<T>(pages: Seq<PageView<T>>) -> Seq<http_types::Url> {
    Seq::new((pages.len() - 1) as nat, |i: int| parsed_url(pages[i].next->0))
}

/// Each page but the last links to a following page, with a link that
/// parses; the last links to none.
pub open spec fn is_chain<T>(pages: Seq<PageView<T>>) -> bool {
    &&& pages.len() >= 1
    &&& forall|i: int|
        0 <= i < pages.len() - 1 ==> (#[trigger] pages[i]).next is Some && url_accepts(
            pages[i].next->0,
        )
    &&& pages.last().next is None
}

proof fn lemma_chain_tail<T>(pages: Seq<PageView<T>>)
    requires
        is_chain(pages),
        pages.len() >= 2,
    ensures
        is_chain(pages.skip(1)),
        pages[0].next is Some,
        url_accepts(pages[0].next->0),
        chain_links(pages) == seq![parsed_url(pages[0].next->0)] + chain_links(pages.skip(1)),
{
    let tail = pages.skip(1);
    assert forall|i: int| 0 <= i < tail.len() - 1 implies (#[trigger] tail[i]).next is Some
        && url_accepts(tail[i].next->0) by {
        assert(tail[i] == pages[i + 1]);
    }
    assert(tail.last() == pages.last());
    assert(pages[0].next is Some);
    assert(chain_links(pages) =~= seq![parsed_url(pages[0].next->0)] + chain_links(tail));
}

proof fn lemma_run_drains<T>(s: PagerView<T>, pages: Seq<PageView<T>>)
    requires
        !s.fetching,
        s.next is Some <==> pages.len() > 0,
        pages.len() > 0 ==> is_chain(pages),
    ensures
        ({
            let (s1, step1) = pull_model(s);
            run(s1, step1, pages) == (RunView {
                items: s.items + all_items(pages),
                links: if pages.len() > 0 {
                    seq![s.next->0] + chain_links(pages)
                } else {
                    seq![]
                },
                ended: true,
            })
        }),
    decreases pages.len(), s.items.len(),
{
    let (s1, step1) = pull_model(s);
    if s.items.len() > 0 {
        lemma_run_drains(s1, pages);
        assert(seq![s.items[0]] + (s1.items + all_items(pages)) =~= s.items + all_items(pages));
    } else if s.next is Some {
        let p = pages[0];
        let tail = pages.skip(1);
        if tail.len() > 0 {
            lemma_chain_tail(pages);
        } else {
            assert(p == pages.last());
            assert(chain_links(pages) =~= seq![]);
            assert(seq![s.next->0] + chain_links(pages) =~= seq![s.next->0]);
        }
        lemma_run_drains(seeded(p.items, link_of(p.next)), tail);
        assert(all_items(pages) == p.items + all_items(tail));
        assert(s.items + all_items(pages) =~= p.items + all_items(tail));
    } else {
        assert(all_items(pages) =~= seq![]);
        assert(s.items + all_items(pages) =~= seq![]);
    }
}

/// Driven one item at a time over a chain of pages, a pager seeded with the
/// first page hands out every item of every page, in order, then reports
/// the end. It fetches once for each page but the first, each time at the
/// URL read verbatim from the previous page's link.
pub proof fn lemma_pager_walks_all_pages<T>(pages: Seq<PageView<T>>)
    requires
        is_chain(pages),
    ensures
        run_seeded(pages) == (RunView {
            items: all_items(pages),
            links: chain_links(pages),
            ended: true,
        }),
{
    let tail = pages.skip(1);
    if tail.len() > 0 {
        lemma_chain_tail(pages);
    } else {
        assert(pages[0] == pages.last());
        assert(chain_links(pages) =~= seq![]);
    }
    lemma_run_drains(seeded(pages[0].items, link_of(pages[0].next)), tail);
    assert(all_items(pages) == pages[0].items + all_items(tail));
}

proof fn lemma_run_without_link<T>(s: PagerView<T>, pages: Seq<PageView<T>>)
    requires
        !s.fetching,
        s.next is None,
    ensures
        ({
            let (s1, step1) = pull_model(s);
            run(s1, step1, pages) == (RunView { items: s.items, links: seq![], ended: true })
        }),
    decreases s.items.len(),
{
    if s.items.len() > 0 {
        let s1 = pull_model(s).0;
        lemma_run_without_link(s1, pages);
        assert(seq![s.items[0]] + s1.items =~= s.items);
    } else {
        assert(s.items =~= seq![]);
    }
}

/// A pager seeded with a page that links to no further page never fetches,
/// whatever the transport would answer, and hands out exactly that page's
/// items before it ends.
pub proof fn lemma_single_page_needs_no_fetch<T>(page: PageView<T>, pages: Seq<PageView<T>>)
    requires
        page.next is None,
    ensures
        ({
            let (s, step) = pull_model(seeded(page.items, None));
            run(s, step, pages) == (RunView { items: page.items, links: seq![], ended: true })
        }),
{
    lemma_run_without_link(seeded(page.items, None), pages);
}

/// A fetch is only ever started from an idle pager, and the pager then waits
/// for it; every other step leaves it idle. So at most one fetch is
/// outstanding at any time.
pub proof fn lemma_one_fetch_at_a_time<T>(s: PagerView<T>, outcome: FetchView<T>)
    requires
        s.wf(),
    ensures
        !s.fetching ==> ({
            let (s1, step) = pull_model(s);
            &&& s1.wf()
            &&& s1.fetching <==> step is Fetch
        }),
        s.fetching ==> ({
            let (s1, step) = fetched_model(s, outcome);
            &&& s1.wf()
            &&& s1.fetching <==> step is Fetch
        }),
{
}

/// What a step of the pager asks of its driver.
pub enum PagerStep<T> {
    /// The next item, which the driver hands to its consumer.
    Item(T),
    /// Fetch the page at this link, and report the outcome to `fetched`.
    Fetch(http_types::Url),
    /// The walk failed with this error; it has ended.
    Failed(ApiError),
    /// The walk has ended.
    End,
}

impl<T> PagerStep<T> {
    /// The abstract step.
    pub open spec fn view(&self) -> StepView<T> {
        match self {
            PagerStep::Item(t) => StepView::Item(*t),
            PagerStep::Fetch(u) => StepView::Fetch(*u),
            PagerStep::Failed(_) => StepView::Failed,
            PagerStep::End => StepView::End,
        }
    }
}

/// The abstract outcome of a fetch.
pub open spec fn fetch_view<T, P: Pageable<T>>(r: Result<P, ApiError>) -> FetchView<T> {
    match r {
        Ok(p) => FetchView::Page(page_view(p)),
        Err(_) => FetchView::Failed,
    }
}

/// The state of a walk over a paginated collection. It buffers at most one
/// page of items and holds the link to the next page; a page is fetched only
/// once the buffer has run dry and the consumer asks for more.
pub struct Pager<T> {
    items: Vec<T>,
    next: Option<http_types::Url>,
    fetching: bool,
}

impl<T> View for Pager<T> {
    type V = PagerView<T>;

    closed spec fn view(&self) -> PagerView<T> {
        PagerView { items: self.items@, next: self.next, fetching: self.fetching }
    }
}

impl<T> Pager<T> {
    /// A pager seeded with the items of a first page and its link to the
    /// following one.
    pub fn with_items(items: Vec<T>, next: Option<http_types::Url>) -> (r: Self)
        ensures
            r@ == seeded(items@, next),
    {
        Pager { items, next, fetching: false }
    }

    /// Whether a fetch is outstanding.
    pub fn is_fetching(&self) -> (r: bool)
        ensures
            r == self@.fetching,
    {
        self.fetching
    }

    /// The consumer asks for the next item. Only an idle pager is pulled: a
    /// fetch that is outstanding is completed through `fetched`.
    pub fn pull(&mut self) -> (r: PagerStep<T>)
        requires
            old(self)@.wf(),
            !old(self)@.fetching,
        ensures
            (final(self)@, r.view()) == pull_model(old(self)@),
            final(self)@.wf(),
    {
        if self.items.len() > 0 {
            let item = self.items.remove(0);
            assert(self.items@ =~= old(self)@.items.skip(1));
            PagerStep::Item(item)
        } else {
            assert(self.items@ =~= seq![]);
            match self.next.take() {
                Some(url) => {
                    self.fetching = true;
                    PagerStep::Fetch(url)
                },
                None => PagerStep::End,
            }
        }
    }

    /// The outstanding fetch has completed with `result`: take in the page
    /// and go on with the pull that started the fetch.
    pub fn fetched<P: Pageable<T>>(&mut self, result: Result<P, ApiError>) -> (r: PagerStep<T>)
        requires
            old(self)@.wf(),
            old(self)@.fetching,
        ensures
            (final(self)@, r.view()) == fetched_model(old(self)@, fetch_view(result)),
            final(self)@.wf(),
            result is Err ==> r == PagerStep::<T>::Failed(result->Err_0),
            result is Ok && r is Failed ==> r == PagerStep::<T>::Failed(
                ApiError::Url(parse_error_of(result->Ok_0.spec_next_url()->0)),
            ),
    {
        self.fetching = false;
        assert(self.items@ =~= seq![]);
        match result {
            Err(e) => PagerStep::Failed(e),
            Ok(page) => {
                match page.next_url() {
                    Some(link) => match parse_url(link) {
                        Ok(url) => {
                            self.next = Some(url);
                        },
                        Err(e) => {
                            return PagerStep::Failed(ApiError::Url(e));
                        },
                    },
                    None => {},
                }
                self.items = page.into_items();
                self.pull()
            },
        }
    }
}

} // verus!
