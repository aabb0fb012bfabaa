//! The data model of the collector: the outcomes it consumes and the
//! aggregate result it produces.

use vstd::prelude::*;

verus! {

/// One element of the input sequence: either the value of a computation
/// that succeeded, or the display text of the error it failed with.
#[derive(Debug)]
pub enum Outcome<T> {
    Success(T),
    Failure(String),
}

/// The one error the collector ever reports: it carries the display
/// texts of every failure of the input, in input order, each on its
/// own line.
#[derive(Debug)]
pub struct AggregatedFailure {
    message: String,
}

impl View for AggregatedFailure {
    type V = Seq<char>;

    closed spec fn view(&self) -> Seq<char> {
        self.message@
    }
}

impl AggregatedFailure {
    /// Wraps an already-joined message.
    pub fn new(message: String) -> (r: AggregatedFailure)
        ensures
            r@ == message@,
    {
        AggregatedFailure { message }
    }

    /// The combined message, ready for presentation.
    pub fn message(&self) -> (r: &str)
        ensures
            r@ == self@,
    {
        self.message.as_str()
    }

    /// The combined message, by value.
    pub fn into_message(self) -> (r: String)
        ensures
            r@ == self@,
    {
        self.message
    }
}

/// The collector's outcome: either a container holding every success
/// value, or one combined error standing for every failure.
#[derive(Debug)]
pub enum AggregateResult<C> {
    Collected(C),
    Combined(AggregatedFailure),
}

/// The success values of a sequence of outcomes, in input order.
pub open spec fn successes<T>(s: Seq<Outcome<T>>) -> Seq<T>
    decreases s.len(),
{
    if s.len() == 0 {
        Seq::empty()
    } else {
        let rest = successes(s.drop_last());
        match s.last() {
            Outcome::Success(t) => rest.push(t),
            Outcome::Failure(_) => rest,
        }
    }
}

/// The failure texts of a sequence of outcomes, in input order.
pub open spec fn failure_texts<T>(s: Seq<Outcome<T>>) -> Seq<Seq<char>>
    decreases s.len(),
{
    if s.len() == 0 {
        Seq::empty()
    } else {
        let rest = failure_texts(s.drop_last());
        match s.last() {
            Outcome::Success(_) => rest,
            Outcome::Failure(m) => rest.push(m@),
        }
    }
}

/// Classification is a partition: every element of the input is counted
/// as exactly one success or one failure, so the two classes together
/// are as long as the input.
pub proof fn lemma_classification_complete<T>(s: Seq<Outcome<T>>)
    ensures
        successes(s).len() + failure_texts(s).len() == s.len(),
    decreases s.len(),
{
    if s.len() > 0 {
        lemma_classification_complete(s.drop_last());
    }
}

} // verus!
