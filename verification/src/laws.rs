//! The guarantees of the collector, stated once, for every input and
//! every result that its contract admits.

use vstd::prelude::*;
use crate::collector::{BeauCollector, collects_outcomes};
use crate::join::joined_lines;
use crate::outcome::{AggregateResult, Outcome, failure_texts, lemma_classification_complete,
    successes};

verus! {

/// When no outcome failed, the result is always a container, never a
/// combined error; it is built from exactly the success values in
/// input order, and there are as many of them as the input is long.
pub proof fn lemma_zero_failures_collects<T, C: BeauCollector<T>>(
    s: Seq<Outcome<T>>,
    r: AggregateResult<C>,
)
    requires
        collects_outcomes(s, r),
        failure_texts(s).len() == 0,
    ensures
        r is Collected,
        r->Collected_0.built_from(successes(s)),
        successes(s).len() == s.len(),
{
    lemma_classification_complete(s);
}

/// When at least one outcome failed, the result is always a combined
/// error, never a container, and its text is every failure's text in
/// input order, joined by single newlines.
pub proof fn lemma_failures_combine<T, C: BeauCollector<T>>(
    s: Seq<Outcome<T>>,
    r: AggregateResult<C>,
)
    requires
        collects_outcomes(s, r),
        failure_texts(s).len() > 0,
    ensures
        r is Combined,
        r->Combined_0@ == joined_lines(failure_texts(s)),
{
}

/// Collecting the empty input yields a container built from no values
/// at all, never a combined error.
pub proof fn lemma_empty_input_collects<T, C: BeauCollector<T>>(r: AggregateResult<C>)
    requires
        collects_outcomes(Seq::<Outcome<T>>::empty(), r),
    ensures
        r is Collected,
        r->Collected_0.built_from(Seq::<T>::empty()),
{
    assert(failure_texts(Seq::<Outcome<T>>::empty()).len() == 0);
    assert(successes(Seq::<Outcome<T>>::empty()) =~= Seq::<T>::empty());
}

/// Collection is deterministic: two results drawn from the same input
/// agree — same variant, the same combined text, and containers with
/// the same abstract value. Re-running the collector on the same
/// input can therefore change nothing observable.
pub proof fn lemma_collect_deterministic<T, C: BeauCollector<T>>(
    s: Seq<Outcome<T>>,
    r1: AggregateResult<C>,
    r2: AggregateResult<C>,
)
    requires
        collects_outcomes(s, r1),
        collects_outcomes(s, r2),
    ensures
        r1 is Collected <==> r2 is Collected,
        r1 is Combined ==> r1->Combined_0@ == r2->Combined_0@,
        r1 is Collected ==> r1->Collected_0@ == r2->Collected_0@,
{
    if r1 is Collected {
        C::lemma_built_from_functional(r1->Collected_0, r2->Collected_0, successes(s));
    }
}

} // verus!
