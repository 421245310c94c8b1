//! The decoder chain: one decoder per field, walked in field order.

use crate::repr::FieldRepr;
use crate::variants::TryFromValue;
use vstd::prelude::*;

verus! {

/// One call that a walk makes on its visitor.
#[derive(Clone, Copy, Debug, PartialEq, Eq)]
pub enum Step {
    /// The visitor was asked for a field's raw value and gave this one.
    Data(u64),
    /// The visitor was handed this rendered field.
    Field(FieldRepr),
}

/// What a walk drives. It plays two parts: `data` produces the raw value of
/// the next field, and `field` takes in what that field's decoder made of it.
/// `log` is the record of every call made on the visitor so far, in order.
pub trait FieldVisitor {
    /// What the visitor was set up with.
    type Fixed;

    /// The part of the visitor that no call changes.
    spec fn fixed(&self) -> Self::Fixed;

    /// The visitor is in a state in which it can be called.
    spec fn wf(&self) -> bool;

    /// Every call made so far, oldest first.
    spec fn log(&self) -> Seq<Step>;

    /// How many more raw values `data` can give.
    spec fn values_left(&self) -> nat;

    /// How many more rendered fields `field` can take.
    spec fn room_left(&self) -> nat;

    /// Produces the raw value of the next field.
    fn data(&mut self) -> (raw: u64)
        requires
            old(self).wf(),
            old(self).values_left() > 0,
        ensures
            final(self).wf(),
            final(self).fixed() == old(self).fixed(),
            final(self).log() == old(self).log().push(Step::Data(raw)),
            final(self).values_left() == old(self).values_left() - 1,
            final(self).room_left() == old(self).room_left(),
    ;

    /// Takes in one rendered field.
    fn field(&mut self, repr: FieldRepr)
        requires
            old(self).wf(),
            old(self).room_left() > 0,
        ensures
            final(self).wf(),
            final(self).fixed() == old(self).fixed(),
            final(self).log() == old(self).log().push(Step::Field(repr)),
            final(self).values_left() == old(self).values_left(),
            final(self).room_left() == old(self).room_left() - 1,
    ;
}

/// The call that asked for the raw value of field `i`, in the record of a walk.
pub open spec fn asked(steps: Seq<Step>, i: int) -> Step {
    steps[2 * i]
}

/// The call that handed over field `i`, in the record of a walk.
pub open spec fn handed(steps: Seq<Step>, i: int) -> Step {
    steps[2 * i + 1]
}

/// What one decoder shows for a raw value.
pub type Decoder = spec_fn(u64) -> FieldRepr;

/// `steps` is the record of one whole walk of a chain with these decoders:
/// two calls for each decoder, in the decoders' order, the first asking for
/// the field's raw value, the second handing over what that decoder shows for
/// that very value.
pub open spec fn walked(decoders: Seq<Decoder>, steps: Seq<Step>) -> bool {
    &&& steps.len() == 2 * decoders.len()
    &&& forall|i: int|
        0 <= i < decoders.len() ==> {
            &&& #[trigger] asked(steps, i) matches Step::Data(raw)
            &&& handed(steps, i) == Step::Field(decoders[i](raw))
        }
}

/// The raw values that the visitor gave in these calls, in order.
pub open spec fn values_given(steps: Seq<Step>) -> Seq<u64>
    decreases steps.len(),
{
    if steps.len() == 0 {
        Seq::empty()
    } else {
        match steps.last() {
            Step::Data(raw) => values_given(steps.drop_last()).push(raw),
            Step::Field(_) => values_given(steps.drop_last()),
        }
    }
}

/// The rendered fields that the visitor took in these calls, in order.
pub open spec fn fields_taken(steps: Seq<Step>) -> Seq<FieldRepr>
    decreases steps.len(),
{
    if steps.len() == 0 {
        Seq::empty()
    } else {
        match steps.last() {
            Step::Data(_) => fields_taken(steps.drop_last()),
            Step::Field(repr) => fields_taken(steps.drop_last()).push(repr),
        }
    }
}

/// One more call adds to the values given, or to the fields taken, and
/// leaves the other as it was.
pub proof fn lemma_one_more_step(steps: Seq<Step>, step: Step)
    ensures
        step matches Step::Data(raw) ==> {
            &&& values_given(steps.push(step)) == values_given(steps).push(raw)
            &&& fields_taken(steps.push(step)) == fields_taken(steps)
        },
        step matches Step::Field(repr) ==> {
            &&& values_given(steps.push(step)) == values_given(steps)
            &&& fields_taken(steps.push(step)) == fields_taken(steps).push(repr)
        },
{
    assert(steps.push(step).drop_last() =~= steps);
}

/// A walk calls for a raw value exactly once for each decoder and hands over
/// a rendered field exactly once for each decoder, both in the decoders'
/// order, and the field handed over at position `i` is what decoder `i`
/// shows for the value given at position `i`.
pub proof fn lemma_walk_calls_each_once(decoders: Seq<Decoder>, steps: Seq<Step>)
    requires
        walked(decoders, steps),
    ensures
        values_given(steps).len() == decoders.len(),
        fields_taken(steps).len() == decoders.len(),
        forall|i: int|
            0 <= i < decoders.len() ==> {
                &&& #[trigger] asked(steps, i) == Step::Data(values_given(steps)[i])
                &&& handed(steps, i) == Step::Field(fields_taken(steps)[i])
                &&& fields_taken(steps)[i] == decoders[i](values_given(steps)[i])
            },
    decreases decoders.len(),
{
    if decoders.len() > 0 {
        let n = decoders.len() as int;
        let shorter = steps.drop_last().drop_last();
        assert forall|i: int| 0 <= i < n - 1 implies {
            &&& #[trigger] asked(shorter, i) matches Step::Data(raw)
            &&& handed(shorter, i) == Step::Field(decoders.drop_last()[i](raw))
        } by {
            assert(asked(shorter, i) == asked(steps, i));
            assert(handed(shorter, i) == handed(steps, i));
        }
        lemma_walk_calls_each_once(decoders.drop_last(), shorter);
        let ask = asked(steps, n - 1);
        let hand = handed(steps, n - 1);
        assert(steps.drop_last() =~= shorter.push(ask));
        assert(steps =~= shorter.push(ask).push(hand));
        lemma_one_more_step(shorter, ask);
        lemma_one_more_step(shorter.push(ask), hand);
        assert forall|i: int| 0 <= i < n implies {
            &&& #[trigger] asked(steps, i) == Step::Data(values_given(steps)[i])
            &&& handed(steps, i) == Step::Field(fields_taken(steps)[i])
            &&& fields_taken(steps)[i] == decoders[i](values_given(steps)[i])
        } by {
            if i < n - 1 {
                assert(asked(shorter, i) == asked(steps, i));
                assert(handed(shorter, i) == handed(steps, i));
            }
        }
    }
}

/// A sequence of decoders, one for each field of a register, first field
/// first. It has two shapes: the empty chain, and a decoder followed by a
/// chain.
pub trait FieldValueEnumSeq: Sized {
    /// The chain as the sequence of what each of its decoders shows.
    spec fn decoders(&self) -> Seq<Decoder>;

    /// Whether the chain has exactly `n` decoders.
    fn has_len(&self, n: usize) -> (same: bool)
        ensures
            same == (self.decoders().len() == n),
    ;

    /// Walks the chain. For each decoder in turn it asks the visitor for a
    /// raw value, lets the decoder try to read it as a variant, and hands
    /// the visitor the variant's name, or the raw value where there is none.
    /// Nothing else is called on the visitor.
    fn recurse_try_from_value<V: FieldVisitor>(&self, visitor: &mut V)
        requires
            old(visitor).wf(),
            old(visitor).values_left() >= self.decoders().len(),
            old(visitor).room_left() >= self.decoders().len(),
        ensures
            final(visitor).wf(),
            final(visitor).fixed() == old(visitor).fixed(),
            final(visitor).values_left() == old(visitor).values_left() - self.decoders().len(),
            final(visitor).room_left() == old(visitor).room_left() - self.decoders().len(),
            old(visitor).log().is_prefix_of(final(visitor).log()),
            walked(self.decoders(), final(visitor).log().skip(old(visitor).log().len() as int)),
    ;
}

/// The empty chain: the end of every decoder chain.
#[derive(Clone, Copy, Debug, PartialEq, Eq)]
pub enum FieldValueEnumNil {
    Nil,
}

impl FieldValueEnumSeq for FieldValueEnumNil {
    open spec fn decoders(&self) -> Seq<Decoder> {
        Seq::empty()
    }

    fn has_len(&self, n: usize) -> (same: bool) {
        n == 0
    }

    /// The empty chain has no decoder to walk: it calls nothing on the
    /// visitor and leaves it exactly as it was.
    fn recurse_try_from_value<V: FieldVisitor>(&self, visitor: &mut V)
        ensures
            *final(visitor) == *old(visitor),
            final(visitor).log() == old(visitor).log(),
    {
        assert(visitor.log().skip(visitor.log().len() as int) =~= Seq::<Step>::empty());
        assert(visitor.log().subrange(0, visitor.log().len() as int) =~= visitor.log());
    }
}

/// What a field with the named values `variants` shows for a raw value: the
/// name that the value goes by, or the value itself where it has none.
pub open spec fn decoder_of<H: TryFromValue>(variants: H) -> Decoder {
    |raw: u64| FieldRepr::spec_of(raw, variants.spec_try_from_value(raw))
}

/// A decoder for one field, followed by the chain for the fields after it.
pub enum FieldValueEnumCons<H: TryFromValue, T: FieldValueEnumSeq> {
    Cons(H, T),
}

impl<H: TryFromValue, T: FieldValueEnumSeq> FieldValueEnumCons<H, T> {
    /// The decoder of the first field.
    pub open spec fn head(&self) -> H {
        match *self {
            FieldValueEnumCons::Cons(head, _) => head,
        }
    }

    /// The chain of the remaining fields.
    pub open spec fn tail(&self) -> T {
        match *self {
            FieldValueEnumCons::Cons(_, tail) => tail,
        }
    }
}

impl<H: TryFromValue, T: FieldValueEnumSeq> FieldValueEnumSeq for FieldValueEnumCons<H, T> {
    open spec fn decoders(&self) -> Seq<Decoder> {
        seq![decoder_of(self.head())] + self.tail().decoders()
    }

    fn has_len(&self, n: usize) -> (same: bool) {
        match self {
            FieldValueEnumCons::Cons(_, tail) => n > 0 && tail.has_len(n - 1),
        }
    }

    fn recurse_try_from_value<V: FieldVisitor>(&self, visitor: &mut V) {
        match self {
            FieldValueEnumCons::Cons(head, tail) => {
                let raw = visitor.data();
                let repr = FieldRepr::of(raw, head.try_from_value(raw));
                visitor.field(repr);
                let ghost mid = visitor.log();
                tail.recurse_try_from_value(visitor);
                proof {
                    let before = old(visitor).log();
                    let after = visitor.log();
                    let base = before.len() as int;
                    let rest = after.skip(mid.len() as int);
                    let steps = after.skip(base);
                    assert(mid =~= before.push(Step::Data(raw)).push(Step::Field(repr)));
                    assert(mid =~= after.subrange(0, mid.len() as int));
                    assert(before =~= after.subrange(0, base));
                    assert(*tail == self.tail() && *head == self.head());
                    assert(steps.len() == 2 * self.decoders().len());
                    assert forall|i: int| 0 <= i < self.decoders().len() implies {
                        &&& #[trigger] asked(steps, i) matches Step::Data(v)
                        &&& handed(steps, i) == Step::Field(self.decoders()[i](v))
                    } by {
                        if i == 0 {
                            assert(steps[0] == mid[base]);
                            assert(steps[1] == mid[base + 1]);
                        } else {
                            assert(asked(steps, i) == asked(rest, i - 1));
                            assert(handed(steps, i) == handed(rest, i - 1));
                            assert(self.decoders()[i] == tail.decoders()[i - 1]);
                        }
                    }
                }
            },
        }
    }
}

} // verus!
