//! A visitor that replays a list of raw values and keeps the record of the
//! walk, so that a decoder chain can be looked at on its own.

use crate::chain::{
    asked, fields_taken, handed, lemma_one_more_step, lemma_walk_calls_each_once, values_given,
    FieldValueEnumSeq, FieldVisitor, Step,
};
use crate::repr::FieldRepr;
use vstd::prelude::*;

verus! {

/// Gives out the raw values of a list, one per call and in order, takes in as
/// many rendered fields as the list has values, and records every call.
pub struct Transcript<'a> {
    values: &'a [u64],
    given: usize,
    taken: usize,
    steps: Vec<Step>,
}

impl<'a> FieldVisitor for Transcript<'a> {
    type Fixed = Seq<u64>;

    closed spec fn fixed(&self) -> Seq<u64> {
        self.values@
    }

    closed spec fn wf(&self) -> bool {
        &&& self.given <= self.values@.len()
        &&& self.taken <= self.values@.len()
        &&& values_given(self.steps@) =~= self.values@.take(self.given as int)
        &&& fields_taken(self.steps@).len() == self.taken
    }

    closed spec fn log(&self) -> Seq<Step> {
        self.steps@
    }

    closed spec fn values_left(&self) -> nat {
        (self.values@.len() - self.given) as nat
    }

    closed spec fn room_left(&self) -> nat {
        (self.values@.len() - self.taken) as nat
    }

    fn data(&mut self) -> (raw: u64) {
        let raw = self.values[self.given];
        proof {
            lemma_one_more_step(self.steps@, Step::Data(raw));
        }
        self.steps.push(Step::Data(raw));
        self.given = self.given + 1;
        raw
    }

    fn field(&mut self, repr: FieldRepr) {
        proof {
            lemma_one_more_step(self.steps@, Step::Field(repr));
        }
        self.steps.push(Step::Field(repr));
        assert(self.taken < self.values.len());
        self.taken = self.taken + 1;
    }
}

impl<'a> Transcript<'a> {
    /// A visitor that is about to give out `values`, with nothing recorded.
    pub fn new(values: &'a [u64]) -> (transcript: Self)
        ensures
            transcript.wf(),
            transcript.fixed() == values@,
            transcript.log() == Seq::<Step>::empty(),
            transcript.values_left() == values@.len(),
            transcript.room_left() == values@.len(),
    {
        Transcript { values, given: 0, taken: 0, steps: Vec::new() }
    }

    /// The calls recorded so far, oldest first. The raw values in them are
    /// the first of the list that the visitor was made for, in the list's order.
    pub fn into_steps(self) -> (steps: Vec<Step>)
        requires
            self.wf(),
        ensures
            steps@ == self.log(),
            values_given(steps@).is_prefix_of(self.fixed()),
    {
        self.steps
    }
}

/// Walks `chain` over `values`, one value for each decoder, and gives the
/// record of the walk: for each decoder in turn the value it was given and
/// then what it shows for that value. There is no record where the number of
/// values is not the number of decoders.
pub fn record_walk<S: FieldValueEnumSeq>(chain: &S, values: &[u64]) -> (record: Option<Vec<Step>>)
    ensures
        record is Some <==> values@.len() == chain.decoders().len(),
        record matches Some(steps) ==> {
            &&& steps@.len() == 2 * values@.len()
            &&& forall|i: int|
                0 <= i < values@.len() ==> {
                    &&& #[trigger] asked(steps@, i) == Step::Data(values@[i])
                    &&& handed(steps@, i) == Step::Field(chain.decoders()[i](values@[i]))
                }
        },
{
    if !chain.has_len(values.len()) {
        return None;
    }
    let mut transcript = Transcript::new(values);
    chain.recurse_try_from_value(&mut transcript);
    proof {
        let steps = transcript.steps@;
        assert(steps.skip(0) =~= steps);
        lemma_walk_calls_each_once(chain.decoders(), steps);
        assert(values_given(steps) =~= values@);
    }
    Some(transcript.into_steps())
}

} // verus!
