//! The aggregating collector: one pass over a sequence of outcomes,
//! then either a container of every success value or one combined
//! error carrying every failure's text.

use vstd::prelude::*;
use std::collections::HashMap;
use crate::outcome::{AggregateResult, AggregatedFailure, Outcome, failure_texts, successes};
use crate::join::{join_lines, joined_lines, text_views};

verus! {

broadcast use vstd::std_specs::hash::group_hash_axioms;

/// What an aggregate result must say of the outcomes it was drawn from:
/// a container is handed back exactly when nothing failed, and then it
/// is built from the success values in input order; otherwise the one
/// error's text is every failure's text joined by newlines, in input
/// order.
pub open spec fn collects_outcomes<T, C: BeauCollector<T>>(
    s: Seq<Outcome<T>>,
    r: AggregateResult<C>,
) -> bool {
    &&& (r matches AggregateResult::Collected(c) ==> failure_texts(s).len() == 0
        && c.built_from(successes(s)))
    &&& (r matches AggregateResult::Combined(e) ==> failure_texts(s).len() > 0
        && e@ == joined_lines(failure_texts(s)))
}

/// A container type that the collector can aggregate success values
/// into. `built_from` is the container's own meaning of "holds exactly
/// this ordered sequence of values"; `from_ordered` is its
/// construction strategy; `bcollect` runs the collector with this
/// container as the target.
pub trait BeauCollector<T>: View + Sized {
    /// What it means for this container to have been built from the
    /// ordered sequence `items`.
    spec fn built_from(&self, items: Seq<T>) -> bool;

    /// Building from the same ordered sequence pins the container's
    /// abstract value: the construction strategy is deterministic.
    proof fn lemma_built_from_functional(a: Self, b: Self, items: Seq<T>)
        requires
            a.built_from(items),
            b.built_from(items),
        ensures
            a@ == b@,
    ;

    /// Builds the container from an ordered sequence of values.
    fn from_ordered(items: Vec<T>) -> (r: Self)
        ensures
            r.built_from(items@),
    ;

    /// Aggregates a whole sequence of outcomes into this container, or
    /// into one combined error.
    fn bcollect(outcomes: Vec<Outcome<T>>) -> (r: AggregateResult<Self>)
        ensures
            r matches AggregateResult::Collected(c) ==> failure_texts(outcomes@).len() == 0
                && c.built_from(successes(outcomes@)),
            r matches AggregateResult::Combined(e) ==> failure_texts(outcomes@).len() > 0
                && e@ == joined_lines(failure_texts(outcomes@)),
    ;
}

/// Consumes every outcome, classifying each as a success or a failure:
/// a stable partition that keeps each class in input order and drops
/// no element. The whole input is always consumed: every failure is
/// kept, not only the first.
pub fn partition_outcomes<T>(outcomes: Vec<Outcome<T>>) -> (r: (Vec<T>, Vec<String>))
    ensures
        r.0@ == successes(outcomes@),
        text_views(r.1@) == failure_texts(outcomes@),
{
    let ghost all: Seq<Outcome<T>> = outcomes@;
    let ghost done: int = 0;
    let mut rest = outcomes;
    let mut goods: Vec<T> = Vec::new();
    let mut bads: Vec<String> = Vec::new();
    while rest.len() > 0
        invariant
            0 <= done <= all.len(),
            rest@ == all.skip(done),
            goods@ == successes(all.take(done)),
            text_views(bads@) == failure_texts(all.take(done)),
        decreases rest.len(),
    {
        let o = rest.remove(0);
        proof {
            assert(all.skip(done).remove(0) =~= all.skip(done + 1));
            assert(all.take(done + 1).drop_last() =~= all.take(done));
            assert(all.take(done + 1).last() == all[done]);
        }
        match o {
            Outcome::Success(t) => {
                goods.push(t);
                proof {
                    assert(text_views(bads@) =~= failure_texts(all.take(done + 1)));
                }
            },
            Outcome::Failure(m) => {
                let ghost old_bads = bads@;
                bads.push(m);
                proof {
                    assert(text_views(bads@) =~= text_views(old_bads).push(m@));
                }
            },
        }
        proof {
            done = done + 1;
        }
    }
    proof {
        assert(all.take(done) =~= all);
    }
    (goods, bads)
}

/// Aggregates a whole sequence of outcomes: partitions it, then hands
/// all success values to the container's construction strategy if
/// nothing failed, and otherwise synthesizes the one combined error.
pub fn collect_all<T, C: BeauCollector<T>>(outcomes: Vec<Outcome<T>>) -> (r: AggregateResult<C>)
    ensures
        collects_outcomes(outcomes@, r),
{
    let (goods, bads) = partition_outcomes(outcomes);
    if bads.len() == 0 {
        AggregateResult::Collected(C::from_ordered(goods))
    } else {
        let msg = join_lines(&bads);
        AggregateResult::Combined(AggregatedFailure::new(msg))
    }
}

impl<T> BeauCollector<T> for Vec<T> {
    /// An ordered list is built from `items` when it holds exactly
    /// them, in the same order.
    open spec fn built_from(&self, items: Seq<T>) -> bool {
        self@ == items
    }

    proof fn lemma_built_from_functional(a: Self, b: Self, items: Seq<T>) {
    }

    fn from_ordered(items: Vec<T>) -> (r: Self) {
        items
    }

    fn bcollect(outcomes: Vec<Outcome<T>>) -> (r: AggregateResult<Self>) {
        let (goods, bads) = partition_outcomes(outcomes);
        if bads.len() == 0 {
            AggregateResult::Collected(Self::from_ordered(goods))
        } else {
            let msg = join_lines(&bads);
            AggregateResult::Combined(AggregatedFailure::new(msg))
        }
    }
}

/// The mapping that an ordered sequence of key-value pairs builds up
/// when the pairs are entered left to right: a later pair with the
/// same key wins.
pub open spec fn map_of(items: Seq<(usize, usize)>) -> Map<usize, usize>
    decreases items.len(),
{
    if items.len() == 0 {
        Map::empty()
    } else {
        map_of(items.drop_last()).insert(items.last().0, items.last().1)
    }
}

impl BeauCollector<(usize, usize)> for HashMap<usize, usize> {
    /// A unique-key mapping is built from `items` when it maps exactly
    /// the keys that occur, each to the value it was last paired with.
    open spec fn built_from(&self, items: Seq<(usize, usize)>) -> bool {
        self@ == map_of(items)
    }

    proof fn lemma_built_from_functional(a: Self, b: Self, items: Seq<(usize, usize)>) {
    }

    fn from_ordered(items: Vec<(usize, usize)>) -> (r: Self) {
        let mut m: HashMap<usize, usize> = HashMap::new();
        let mut i: usize = 0;
        while i < items.len()
            invariant
                i <= items.len(),
                m@ == map_of(items@.take(i as int)),
            decreases items.len() - i,
        {
            let (k, v) = items[i];
            m.insert(k, v);
            proof {
                assert(items@.take(i + 1).drop_last() =~= items@.take(i as int));
                assert(items@.take(i + 1).last() == items@[i as int]);
            }
            i = i + 1;
        }
        proof {
            assert(items@.take(items@.len() as int) =~= items@);
        }
        m
    }

    fn bcollect(outcomes: Vec<Outcome<(usize, usize)>>) -> (r: AggregateResult<Self>) {
        let (goods, bads) = partition_outcomes(outcomes);
        if bads.len() == 0 {
            AggregateResult::Collected(Self::from_ordered(goods))
        } else {
            let msg = join_lines(&bads);
            AggregateResult::Combined(AggregatedFailure::new(msg))
        }
    }
}

} // verus!
