use vstd::prelude::*;

use std::collections::VecDeque;

use crate::drain::{drain_start, drain_through, flatten, is_chain, lemma_drain_collects_chain, DrainState};
use crate::error::Error;
use crate::page::{link_view, Page};

verus! {

/// What a lazy pass over a chain holds: the unconsumed items of the current
/// window, and the link to the window after it.
pub struct IterState<T> {
    pub buffered: Seq<T>,
    pub next: Option<Seq<char>>,
}

/// What one pull produces.
pub enum Pulled<T> {
    /// The next item.
    Item(T),
    /// A fetch failed; the position is unchanged.
    Failed(Error),
    /// The current window is used up: the window at this location must be
    /// fetched before anything more can be produced.
    Fetch(Seq<char>),
    /// The chain is exhausted.
    End,
}

/// What one pull produces, as handed to the caller.
#[derive(Debug)]
pub enum Pull<T> {
    /// The next element of the stream: an item, or the failure of a fetch.
    Ready(Result<T, Error>),
    /// Fetch the window at this location and pass the outcome to
    /// [`PageIter::deliver`].
    Fetch(String),
    /// The chain is exhausted.
    End,
}

impl<T> View for Pull<T> {
    type V = Pulled<T>;

    open spec fn view(&self) -> Pulled<T> {
        match self {
            Pull::Ready(Ok(x)) => Pulled::Item(*x),
            Pull::Ready(Err(e)) => Pulled::Failed(*e),
            Pull::Fetch(u) => Pulled::Fetch(u@),
            Pull::End => Pulled::End,
        }
    }
}

/// The state of a lazy pass positioned at the start of window `p`.
pub open spec fn window_state<T>(p: Page<T>) -> IterState<T> {
    IterState { buffered: p.items@, next: link_view(p.next) }
}

/// What a pull produces in state `s`: the next buffered item, else a request
/// for the linked window, else the end.
pub open spec fn pull_outcome<T>(s: IterState<T>) -> Pulled<T> {
    if s.buffered.len() > 0 {
        Pulled::Item(s.buffered[0])
    } else {
        match s.next {
            Some(u) => Pulled::Fetch(u),
            None => Pulled::End,
        }
    }
}

/// The state after a pull in state `s`: only producing an item moves on.
pub open spec fn pull_after<T>(s: IterState<T>) -> IterState<T> {
    if s.buffered.len() > 0 {
        IterState { buffered: s.buffered.drop_first(), next: s.next }
    } else {
        s
    }
}

/// The state after `n` pulls with no fetch in between.
pub open spec fn pull_n<T>(s: IterState<T>, n: nat) -> IterState<T>
    decreases n,
{
    if n == 0 {
        s
    } else {
        pull_after(pull_n(s, (n - 1) as nat))
    }
}

/// The items produced by pulling from state `s` until the end, where each
/// fetch is answered by the next of `rest`.
pub open spec fn lazy_items<T>(s: IterState<T>, rest: Seq<Page<T>>) -> Seq<T>
    decreases rest.len(), s.buffered.len(),
{
    match pull_outcome(s) {
        Pulled::Item(x) => seq![x] + lazy_items(pull_after(s), rest),
        Pulled::Fetch(_) => if rest.len() > 0 {
            lazy_items(window_state(rest[0]), rest.drop_first())
        } else {
            Seq::empty()
        },
        _ => Seq::empty(),
    }
}

/// A lazy, forward-only pass over a chain of windows, one item at a time.
///
/// Only the current window's unconsumed items are held. A pull that finds
/// them used up asks the caller to fetch the linked window; the caller hands
/// the outcome back through [`PageIter::deliver`].
pub struct PageIter<T> {
    page: Page<T>,
    buffered: VecDeque<T>,
}

impl<T> View for PageIter<T> {
    type V = IterState<T>;

    closed spec fn view(&self) -> IterState<T> {
        IterState { buffered: self.buffered@, next: link_view(self.page.next) }
    }
}

impl<T> PageIter<T> {
    /// Starts a pass at the first item of `page`.
    pub fn new(page: Page<T>) -> (it: PageIter<T>)
        ensures
            it@ == window_state(page),
    {
        let Page { href, limit, next, offset, previous, total, items } = page;
        let ghost all = items@;
        let mut items = items;
        let mut buffered: VecDeque<T> = VecDeque::new();
        while items.len() > 0
            invariant
                items@ == all.subrange(0, items@.len() as int),
                buffered@ == all.subrange(items@.len() as int, all.len() as int),
                items@.len() <= all.len(),
            decreases items.len(),
        {
            match items.pop() {
                Some(x) => {
                    buffered.push_front(x);
                },
                None => {},
            }
        }
        assert(buffered@ =~= all);
        let page = Page { href, limit, next, offset, previous, total, items };
        PageIter { page, buffered }
    }

    /// Whether the pass waits for the linked window: its buffer is used up and
    /// there is a link to follow.
    pub fn is_awaiting_page(&self) -> (r: bool)
        ensures
            r == (pull_outcome(self@) is Fetch),
    {
        self.buffered.len() == 0 && self.page.next.is_some()
    }

    /// Produces the next item without any fetch, or says which window to fetch,
    /// or that the chain is exhausted.
    pub fn pull(&mut self) -> (r: Pull<T>)
        ensures
            r@ == pull_outcome(old(self)@),
            final(self)@ == pull_after(old(self)@),
    {
        match self.buffered.pop_front() {
            Some(x) => Pull::Ready(Ok(x)),
            None => match &self.page.next {
                Some(u) => Pull::Fetch(u.clone()),
                None => Pull::End,
            },
        }
    }

    /// Takes in the outcome of the fetch that a pull asked for. A failure is
    /// produced as an element and leaves the position where it was, so that
    /// the next pull asks for the same window again. A fetched window replaces
    /// the current one and is pulled from at once, so that an empty window
    /// leads straight to a request for the window after it.
    pub fn deliver(&mut self, fetched: Result<Page<T>, Error>) -> (r: Pull<T>)
        requires
            pull_outcome(old(self)@) is Fetch,
        ensures
            match fetched {
                Ok(p) => {
                    &&& r@ == pull_outcome(window_state(p))
                    &&& final(self)@ == pull_after(window_state(p))
                },
                Err(e) => {
                    &&& r@ == Pulled::<T>::Failed(e)
                    &&& final(self)@ == old(self)@
                },
            },
    {
        match fetched {
            Err(e) => Pull::Ready(Err(e)),
            Ok(p) => {
                *self = PageIter::new(p);
                self.pull()
            },
        }
    }
}

proof fn lemma_pull_n<T>(s: IterState<T>, n: nat)
    requires
        n <= s.buffered.len(),
    ensures
        pull_n(s, n) == (IterState { buffered: s.buffered.subrange(n as int, s.buffered.len() as int), next: s.next }),
    decreases n,
{
    if n == 0 {
        assert(s.buffered.subrange(0, s.buffered.len() as int) =~= s.buffered);
    } else {
        lemma_pull_n(s, (n - 1) as nat);
        assert(s.buffered.subrange(n - 1, s.buffered.len() as int).drop_first()
            =~= s.buffered.subrange(n as int, s.buffered.len() as int));
    }
}

/// A pass over a window without a following link produces exactly that
/// window's items, in order, and then the end, with no fetch.
pub proof fn lemma_single_window_pass<T>(page: Page<T>)
    requires
        page.next is None,
    ensures
        forall|i: nat|
            i < page.items@.len() ==> #[trigger] pull_outcome(pull_n(window_state(page), i))
                == Pulled::Item(page.items@[i as int]),
        pull_outcome(pull_n(window_state(page), page.items@.len())) == Pulled::<T>::End,
        lazy_items(window_state(page), Seq::empty()) == page.items@,
{
    let s = window_state(page);
    assert forall|i: nat| i < page.items@.len() implies #[trigger] pull_outcome(
        pull_n(window_state(page), i),
    ) == Pulled::Item(page.items@[i as int]) by {
        lemma_pull_n(s, i);
    }
    lemma_pull_n(s, page.items@.len());
    lemma_lazy_rest(s, Seq::empty());
    assert(s.buffered + flatten(Seq::<Page<T>>::empty()) =~= page.items@);
}

proof fn lemma_lazy_rest<T>(s: IterState<T>, rest: Seq<Page<T>>)
    requires
        s.next is None ==> rest.len() == 0,
        s.next is Some ==> is_chain(rest),
    ensures
        lazy_items(s, rest) == s.buffered + flatten(rest),
    decreases rest.len(), s.buffered.len(),
{
    if s.buffered.len() > 0 {
        lemma_lazy_rest(pull_after(s), rest);
        assert(lazy_items(s, rest) =~= s.buffered + flatten(rest));
    } else if s.next is None {
        assert(lazy_items(s, rest) =~= s.buffered + flatten(rest));
    } else {
        let w = window_state(rest[0]);
        if rest.len() > 1 {
            assert(rest[0].next is Some);
            assert(is_chain(rest.drop_first())) by {
                assert forall|i: int| 0 <= i < rest.drop_first().len() - 1 implies (
                #[trigger] rest.drop_first()[i]).next is Some by {
                    assert(rest.drop_first()[i] == rest[i + 1]);
                }
            }
        }
        lemma_lazy_rest(w, rest.drop_first());
        assert(lazy_items(s, rest) =~= s.buffered + flatten(rest));
    }
}

/// On a chain that does not change while it is walked, a lazy pass pulled to
/// the end produces, element for element, what eager collection returns.
pub proof fn lemma_lazy_matches_eager<T>(chain: Seq<Page<T>>)
    requires
        is_chain(chain),
    ensures
        lazy_items(window_state(chain[0]), chain.drop_first()) == flatten(chain),
        drain_through(drain_start(chain[0]), chain.drop_first()) == DrainState::Done(
            lazy_items(window_state(chain[0]), chain.drop_first()),
        ),
{
    lemma_drain_collects_chain(chain);
    let rest = chain.drop_first();
    if chain.len() > 1 {
        assert(chain[0].next is Some);
        assert(is_chain(rest)) by {
            assert forall|i: int| 0 <= i < rest.len() - 1 implies (#[trigger] rest[i]).next is Some by {
                assert(rest[i] == chain[i + 1]);
            }
        }
    }
    lemma_lazy_rest(window_state(chain[0]), rest);
}

} // verus!
