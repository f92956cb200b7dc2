//! Iterator over the causal chain of a failure: forward lazily, backward by
//! buffering the whole chain on the first step from the back.

use vstd::prelude::*;
use std::collections::VecDeque;
use crate::error::{unref, Failure, lemma_chain_unfold};

verus! {

/// The causal chain of an optional failure; empty when there is none.
pub open spec fn chain_from(o: Option<Failure>) -> Seq<Failure> {
    match o {
        Some(f) => f.chain(),
        None => Seq::empty(),
    }
}

/// The values behind a sequence of references.
pub open spec fn unref_all(s: Seq<&Failure>) -> Seq<Failure> {
    s.map_values(|r: &Failure| *r)
}

/// Traversal state of a chain cursor.
pub enum ChainState<'a> {
    /// Holds the next item; each step asks that item for its cause.
    Linked { next: Option<&'a Failure> },
    /// Holds the items still to come, in order.
    Buffered { rest: VecDeque<&'a Failure> },
}

/// Cursor over the causal chain of a failure.
pub struct Chain<'a> {
    state: ChainState<'a>,
}

impl<'a> Chain<'a> {
    /// The items still to come, first to last.
    pub closed spec fn view(&self) -> Seq<Failure> {
        match self.state {
            ChainState::Linked { next } => chain_from(unref(next)),
            ChainState::Buffered { rest } => unref_all(rest@),
        }
    }

    /// Whether the cursor holds the whole chain in a buffer.
    pub closed spec fn is_buffered(&self) -> bool {
        self.state is Buffered
    }

    /// A cursor that starts at `head`.
    pub fn new(head: &'a Failure) -> (r: Self)
        ensures
            r@ == head.chain(),
            !r.is_buffered(),
    {
        Chain { state: ChainState::Linked { next: Some(head) } }
    }

    /// Yields the first item still to come.
    pub fn next(&mut self) -> (r: Option<&'a Failure>)
        ensures
            old(self)@.len() == 0 ==> r is None && final(self)@ == old(self)@,
            old(self)@.len() > 0 ==> unref(r) == Some(old(self)@[0]) && final(self)@ == old(
                self,
            )@.drop_first(),
            final(self).is_buffered() == old(self).is_buffered(),
    {
        match &mut self.state {
            ChainState::Linked { next } => {
                match *next {
                    None => None,
                    Some(error) => {
                        proof {
                            lemma_chain_unfold(*error);
                        }
                        *next = error.source();
                        Some(error)
                    },
                }
            },
            ChainState::Buffered { rest } => rest.pop_front(),
        }
    }

    /// Number of items still to come, counted by walking the chain.
    pub fn len(&self) -> (r: usize)
        requires
            self@.len() <= usize::MAX,
        ensures
            r == self@.len(),
    {
        match &self.state {
            ChainState::Linked { next } => {
                let mut cur = *next;
                let mut len: usize = 0;
                loop
                    invariant
                        len + chain_from(unref(cur)).len() == self@.len(),
                        self@.len() <= usize::MAX,
                    ensures
                        len == self@.len(),
                    decreases chain_from(unref(cur)).len(),
                {
                    match cur {
                        None => break,
                        Some(cause) => {
                            proof {
                                lemma_chain_unfold(*cause);
                            }
                            cur = cause.source();
                            len = len + 1;
                        },
                    }
                }
                len
            },
            ChainState::Buffered { rest } => rest.len(),
        }
    }

    /// Lower and upper bound of the number of items still to come; both are
    /// exact.
    pub fn size_hint(&self) -> (r: (usize, Option<usize>))
        requires
            self@.len() <= usize::MAX,
        ensures
            r.0 == self@.len(),
            r.1 == Some(self@.len() as usize),
    {
        let len = self.len();
        (len, Some(len))
    }

    /// Yields the last item still to come; on the first such step the whole
    /// chain is buffered.
    pub fn next_back(&mut self) -> (r: Option<&'a Failure>)
        ensures
            old(self)@.len() == 0 ==> r is None && final(self)@ == old(self)@,
            old(self)@.len() > 0 ==> unref(r) == Some(old(self)@.last()) && final(self)@ == old(
                self,
            )@.drop_last(),
            final(self).is_buffered(),
    {
        match &mut self.state {
            ChainState::Linked { next } => {
                let start = *next;
                let mut cur = *next;
                let mut rest: VecDeque<&'a Failure> = VecDeque::new();
                loop
                    invariant
                        unref_all(rest@) + chain_from(unref(cur)) == chain_from(unref(start)),
                    ensures
                        unref_all(rest@) + chain_from(unref(cur)) == chain_from(unref(start)),
                        cur is None,
                    decreases chain_from(unref(cur)).len(),
                {
                    match cur {
                        None => break,
                        Some(cause) => {
                            proof {
                                lemma_chain_unfold(*cause);
                            }
                            cur = cause.source();
                            rest.push_back(cause);
                            assert(unref_all(rest@) + chain_from(unref(cur)) =~= chain_from(
                                unref(start),
                            ));
                        },
                    }
                }
                assert(unref_all(rest@) =~= chain_from(unref(start)));
                let ghost all = unref_all(rest@);
                let last = rest.pop_back();
                proof {
                    if all.len() > 0 {
                        assert(unref_all(rest@) =~= all.drop_last());
                    } else {
                        assert(unref_all(rest@) =~= all);
                    }
                }
                self.state = ChainState::Buffered { rest };
                last
            },
            ChainState::Buffered { rest } => rest.pop_back(),
        }
    }
}

/// Number of items that forward iteration yields from a cursor whose items
/// still to come are `s`: each step takes the first item, until none is left.
pub open spec fn forward_count(s: Seq<Failure>) -> nat
    decreases s.len(),
{
    if s.len() == 0 {
        0
    } else {
        1 + forward_count(s.drop_first())
    }
}

/// Items that backward iteration yields, in the order yielded, from a cursor
/// whose items still to come are `s`: each step takes the last item.
pub open spec fn backward_items(s: Seq<Failure>) -> Seq<Failure>
    decreases s.len(),
{
    if s.len() == 0 {
        Seq::empty()
    } else {
        seq![s.last()] + backward_items(s.drop_last())
    }
}

/// The length of a chain equals the number of items that exhaustive forward
/// iteration yields, and the number that exhaustive backward iteration yields.
pub proof fn lemma_len_matches_iteration(s: Seq<Failure>)
    ensures
        forward_count(s) == s.len(),
        backward_items(s).len() == s.len(),
    decreases s.len(),
{
    if s.len() > 0 {
        lemma_len_matches_iteration(s.drop_first());
        lemma_len_matches_iteration(s.drop_last());
    }
}

/// After `k` forward steps over the items `s`, backward iteration yields the
/// remaining items `s[k..]` in reverse order: each exactly once, none of the
/// first `k`.
pub proof fn lemma_backward_after_forward(s: Seq<Failure>, k: nat)
    requires
        k <= s.len(),
    ensures
        backward_items(s.skip(k as int)).len() == s.len() - k,
        forall|i: int|
            0 <= i < s.len() - k ==> #[trigger] backward_items(s.skip(k as int))[i] == s[s.len() - 1
                - i],
{
    lemma_backward_reverses(s.skip(k as int));
}

/// Backward iteration yields the items in reverse order.
pub proof fn lemma_backward_reverses(s: Seq<Failure>)
    ensures
        backward_items(s).len() == s.len(),
        forall|i: int| 0 <= i < s.len() ==> #[trigger] backward_items(s)[i] == s[s.len() - 1 - i],
    decreases s.len(),
{
    if s.len() > 0 {
        lemma_backward_reverses(s.drop_last());
        let t = s.drop_last();
        assert forall|i: int| 0 <= i < s.len() implies #[trigger] backward_items(s)[i] == s[s.len()
            - 1 - i] by {
            if i > 0 {
                assert(backward_items(s)[i] == backward_items(t)[i - 1]);
            }
        }
    }
}

impl<'a> Default for Chain<'a> {
    /// An empty cursor: it yields nothing from either end.
    fn default() -> (r: Self)
        ensures
            r@.len() == 0,
            r.is_buffered(),
    {
        Chain { state: ChainState::Buffered { rest: VecDeque::new() } }
    }
}

} // verus!
