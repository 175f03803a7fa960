use vstd::prelude::*;

use crate::error::Error;
use crate::page::Page;

verus! {

/// Where an eager collection of a chain stands.
pub enum DrainState<T> {
    /// Items gathered so far; the window at `url` is to be fetched next.
    Fetching { collected: Seq<T>, url: Seq<char> },
    /// The chain ended; these are all of its items.
    Done(Seq<T>),
    /// A fetch failed; nothing gathered is kept.
    Failed(Error),
}

/// An eager collection of every item along a chain of windows.
///
/// The caller fetches the window at `url` while the drain is `Fetching`, and
/// hands the outcome to [`Drain::advance`].
#[derive(Debug)]
pub enum Drain<T> {
    /// Items gathered so far; the window at `url` is to be fetched next.
    Fetching { collected: Vec<T>, url: String },
    /// The chain ended; these are all of its items.
    Done(Vec<T>),
    /// A fetch failed; nothing gathered is kept.
    Failed(Error),
}

impl<T> View for Drain<T> {
    type V = DrainState<T>;

    open spec fn view(&self) -> DrainState<T> {
        match self {
            Drain::Fetching { collected, url } => DrainState::Fetching {
                collected: collected@,
                url: url@,
            },
            Drain::Done(items) => DrainState::Done(items@),
            Drain::Failed(e) => DrainState::Failed(*e),
        }
    }
}

/// The state right after the first window is taken: done when it has no
/// following window.
pub open spec fn drain_start<T>(first: Page<T>) -> DrainState<T> {
    match first.next {
        Some(u) => DrainState::Fetching { collected: first.items@, url: u@ },
        None => DrainState::Done(first.items@),
    }
}

/// The state after the outcome of one fetch arrives: the window's items are
/// appended and its link followed; a failure discards everything gathered.
pub open spec fn drain_advance<T>(s: DrainState<T>, fetched: Result<Page<T>, Error>) -> DrainState<T> {
    match s {
        DrainState::Fetching { collected, url } => match fetched {
            Ok(p) => match p.next {
                Some(u) => DrainState::Fetching { collected: collected + p.items@, url: u@ },
                None => DrainState::Done(collected + p.items@),
            },
            Err(e) => DrainState::Failed(e),
        },
        _ => s,
    }
}

/// The state after each of `pages` is fetched successfully, in order.
pub open spec fn drain_through<T>(s: DrainState<T>, pages: Seq<Page<T>>) -> DrainState<T>
    decreases pages.len(),
{
    if pages.len() == 0 {
        s
    } else {
        drain_advance(drain_through(s, pages.drop_last()), Ok(pages.last()))
    }
}

/// All items of `pages`, window after window.
pub open spec fn flatten<T>(pages: Seq<Page<T>>) -> Seq<T>
    decreases pages.len(),
{
    if pages.len() == 0 {
        Seq::empty()
    } else {
        pages[0].items@ + flatten(pages.drop_first())
    }
}

/// The sum of the windows' item counts.
pub open spec fn count_items<T>(pages: Seq<Page<T>>) -> nat
    decreases pages.len(),
{
    if pages.len() == 0 {
        0
    } else {
        pages[0].items@.len() + count_items(pages.drop_first())
    }
}

/// A finite chain as a server serves it: every window but the last links to a
/// following one, and the last links nowhere.
pub open spec fn is_chain<T>(pages: Seq<Page<T>>) -> bool {
    &&& pages.len() > 0
    &&& forall|i: int| 0 <= i < pages.len() - 1 ==> (#[trigger] pages[i]).next is Some
    &&& pages.last().next is None
}

impl<T> Drain<T> {
    /// Takes in the outcome of fetching the window at the pending `url`.
    pub fn advance(self, fetched: Result<Page<T>, Error>) -> (d: Drain<T>)
        requires
            self@ is Fetching,
        ensures
            d@ == drain_advance(self@, fetched),
    {
        match self {
            Drain::Fetching { mut collected, url } => match fetched {
                Ok(mut p) => {
                    collected.append(&mut p.items);
                    match p.next {
                        Some(u) => Drain::Fetching { collected, url: u },
                        None => Drain::Done(collected),
                    }
                },
                Err(e) => Drain::Failed(e),
            },
            other => other,
        }
    }
}

proof fn lemma_flatten_push<T>(pages: Seq<Page<T>>, p: Page<T>)
    ensures
        flatten(pages.push(p)) == flatten(pages) + p.items@,
    decreases pages.len(),
{
    if pages.len() == 0 {
        assert(pages.push(p).drop_first() =~= Seq::<Page<T>>::empty());
        assert(flatten(pages.push(p).drop_first()) == Seq::<T>::empty());
        assert(flatten(pages.push(p)) =~= flatten(pages) + p.items@);
    } else {
        assert(pages.push(p).drop_first() =~= pages.drop_first().push(p));
        lemma_flatten_push(pages.drop_first(), p);
        assert(flatten(pages.push(p)) =~= flatten(pages) + p.items@);
    }
}

proof fn lemma_count_items<T>(pages: Seq<Page<T>>)
    ensures
        flatten(pages).len() == count_items(pages),
    decreases pages.len(),
{
    if pages.len() > 0 {
        lemma_count_items(pages.drop_first());
    }
}

proof fn lemma_drain_prefix<T>(chain: Seq<Page<T>>, k: int)
    requires
        is_chain(chain),
        0 <= k < chain.len(),
    ensures
        k < chain.len() - 1 ==> drain_through(drain_start(chain[0]), chain.subrange(1, k + 1))
            == (DrainState::Fetching {
            collected: flatten(chain.subrange(0, k + 1)),
            url: chain[k].next->0@,
        }),
        k == chain.len() - 1 ==> drain_through(drain_start(chain[0]), chain.subrange(1, k + 1))
            == DrainState::Done(flatten(chain.subrange(0, k + 1))),
    decreases k,
{
    let first = chain.subrange(0, 1);
    assert(first.len() == 1 && first[0] == chain[0]);
    assert(first.drop_first() =~= Seq::<Page<T>>::empty());
    assert(flatten(first.drop_first()) == Seq::<T>::empty());
    assert(flatten(first) =~= chain[0].items@);
    if k > 0 {
        lemma_drain_prefix(chain, k - 1);
        assert(chain.subrange(1, k + 1).drop_last() =~= chain.subrange(1, k));
        assert(chain.subrange(0, k + 1) =~= chain.subrange(0, k).push(chain[k]));
        lemma_flatten_push(chain.subrange(0, k), chain[k]);
        assert(chain[k - 1].next is Some);
    } else {
        assert(chain.subrange(1, 1) =~= Seq::<Page<T>>::empty());
    }
}

/// Collecting a finite chain eagerly yields every item of every window, in
/// window order and within each window in server order, as many as the
/// windows hold together. Each window after the first is fetched exactly once,
/// by the link of the window before it, and no further fetch is asked for
/// after the last.
pub proof fn lemma_drain_collects_chain<T>(chain: Seq<Page<T>>)
    requires
        is_chain(chain),
    ensures
        drain_through(drain_start(chain[0]), chain.drop_first()) == DrainState::Done(flatten(chain)),
        flatten(chain).len() == count_items(chain),
        forall|k: int|
            0 <= k < chain.len() - 1 ==> #[trigger] drain_through(
                drain_start(chain[0]),
                chain.subrange(1, k + 1),
            ) == (DrainState::Fetching {
                collected: flatten(chain.subrange(0, k + 1)),
                url: chain[k].next->0@,
            }),
{
    let n = chain.len() as int;
    lemma_drain_prefix(chain, n - 1);
    assert(chain.subrange(1, n) =~= chain.drop_first());
    assert(chain.subrange(0, n) =~= chain);
    lemma_count_items(chain);
    assert forall|k: int| 0 <= k < n - 1 implies #[trigger] drain_through(
        drain_start(chain[0]),
        chain.subrange(1, k + 1),
    ) == (DrainState::Fetching {
        collected: flatten(chain.subrange(0, k + 1)),
        url: chain[k].next->0@,
    }) by {
        lemma_drain_prefix(chain, k);
    }
}

/// A first window without a following link is the whole result: nothing
/// further is fetched.
pub proof fn lemma_drain_single_window<T>(first: Page<T>)
    requires
        first.next is None,
    ensures
        drain_start(first) == DrainState::Done(first.items@),
{
}

} // verus!
