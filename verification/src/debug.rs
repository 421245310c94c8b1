//! A register's value, captured once and rendered on demand.

use crate::chain::{
    asked, fields_taken, lemma_one_more_step, lemma_walk_calls_each_once, values_given,
    FieldValueEnumSeq, FieldVisitor, Step,
};
use crate::field::Field;
use crate::info::RegisterDebugInfo;
use crate::repr::FieldRepr;
use crate::text::{struct_text, write_struct, Entry};
use vstd::prelude::*;

verus! {

/// The visitor that renders: it reads each field out of the captured value
/// in turn, and pairs each rendered field with the next field name.
struct Renderer<'a> {
    raw: u64,
    fields: &'a [Field],
    names: &'a [&'static str],
    next_field: usize,
    next_name: usize,
    entries: Vec<Entry>,
    calls: Ghost<Seq<Step>>,
}

impl<'a> FieldVisitor for Renderer<'a> {
    type Fixed = (u64, Seq<Field>, Seq<&'static str>);

    closed spec fn fixed(&self) -> Self::Fixed {
        (self.raw, self.fields@, self.names@)
    }

    closed spec fn wf(&self) -> bool {
        &&& self.next_field <= self.fields@.len()
        &&& self.next_name <= self.names@.len()
        &&& self.entries@.len() == self.next_name
        &&& values_given(self.calls@) =~= Seq::new(
            self.next_field as nat,
            |i: int| self.fields@[i].spec_read(self.raw),
        )
        &&& fields_taken(self.calls@) =~= Seq::new(
            self.next_name as nat,
            |i: int| self.entries@[i].1,
        )
        &&& forall|i: int|
            0 <= i < self.next_name ==> (#[trigger] self.entries@[i]).0 == self.names@[i]
    }

    closed spec fn log(&self) -> Seq<Step> {
        self.calls@
    }

    closed spec fn values_left(&self) -> nat {
        (self.fields@.len() - self.next_field) as nat
    }

    closed spec fn room_left(&self) -> nat {
        (self.names@.len() - self.next_name) as nat
    }

    fn data(&mut self) -> (raw: u64) {
        let raw = self.fields[self.next_field].read(self.raw);
        self.next_field = self.next_field + 1;
        proof {
            lemma_one_more_step(self.calls@, Step::Data(raw));
            self.calls@ = self.calls@.push(Step::Data(raw));
        }
        raw
    }

    fn field(&mut self, repr: FieldRepr) {
        self.entries.push((self.names[self.next_name], repr));
        self.next_name = self.next_name + 1;
        proof {
            lemma_one_more_step(self.calls@, Step::Field(repr));
            self.calls@ = self.calls@.push(Step::Field(repr));
        }
    }
}

/// What the register `reg` shows when its value is `value`: for each field in
/// declaration order its name and what its decoder shows for the field's bits
/// of the value.
pub open spec fn rendered<E: RegisterDebugInfo>(reg: &E, value: u64) -> Seq<Entry> {
    Seq::new(
        reg.spec_fields().len(),
        |i: int|
            (
                reg.spec_field_names()[i],
                reg.spec_field_value_enums().decoders()[i](reg.spec_fields()[i].spec_read(value)),
            ),
    )
}

/// The text of what the register `reg` shows when its value is `value`.
pub open spec fn rendered_text<E: RegisterDebugInfo>(reg: &E, value: u64) -> Seq<char> {
    struct_text(reg.spec_name()@, rendered(reg, value))
}

/// The value of a register as it was when it was captured, together with
/// the description of the register. It never reads the register again.
pub struct RegisterDebugValue<'a, E: RegisterDebugInfo> {
    data: u64,
    reg: &'a E,
}

impl<'a, E: RegisterDebugInfo> RegisterDebugValue<'a, E> {
    /// The captured register value.
    pub closed spec fn value(&self) -> u64 {
        self.data
    }

    /// The description of the register that the value was read from.
    pub closed spec fn register(&self) -> &'a E {
        self.reg
    }

    /// What rendering gives: what the register shows for the captured value.
    pub open spec fn entries(&self) -> Seq<Entry> {
        rendered(self.register(), self.value())
    }

    /// The dump as text.
    pub open spec fn text(&self) -> Seq<char> {
        rendered_text(self.register(), self.value())
    }

    /// Captures `data` as the value of the register that `reg` describes.
    pub fn new(data: u64, reg: &'a E) -> (snapshot: Self)
        ensures
            snapshot.value() == data,
            snapshot.register() == reg,
    {
        RegisterDebugValue { data, reg }
    }

    /// The captured register value.
    pub fn data(&self) -> (data: u64)
        ensures
            data == self.value(),
    {
        self.data
    }

    /// The description of the register that the value was read from.
    pub fn reg(&self) -> (reg: &'a E)
        ensures
            reg == self.register(),
    {
        self.reg
    }

    /// Renders the captured value: every field's name with its rendered
    /// value, in declaration order.
    pub fn render(&self) -> (entries: Vec<Entry>)
        ensures
            entries@ == self.entries(),
    {
        let names = self.reg.field_names();
        let fields = self.reg.fields();
        let enums = self.reg.field_value_enums();
        let mut renderer = Renderer {
            raw: self.data,
            fields,
            names,
            next_field: 0,
            next_name: 0,
            entries: Vec::new(),
            calls: Ghost(Seq::empty()),
        };
        enums.recurse_try_from_value(&mut renderer);
        proof {
            let steps = renderer.calls@;
            let decoders = enums.decoders();
            assert(steps.skip(0) =~= steps);
            lemma_walk_calls_each_once(decoders, steps);
            assert(renderer.fixed() == (self.data, fields@, names@));
            assert(renderer.next_field == decoders.len());
            assert(renderer.next_name == decoders.len());
            assert forall|i: int| 0 <= i < decoders.len() implies renderer.entries@[i]
                == self.entries()[i] by {
                assert(asked(steps, i) == Step::Data(fields@[i].spec_read(self.data)));
                assert(fields_taken(steps)[i] == renderer.entries@[i].1);
                assert(renderer.entries@[i].0 == names@[i]);
            }
            assert(renderer.entries@ =~= self.entries());
        }
        renderer.entries
    }

    /// Renders the captured value as text: the register's name, then the
    /// fields between braces as `name: value`, separated by commas.
    pub fn fmt(&self) -> (text: String)
        ensures
            text@ == self.text(),
    {
        let entries = self.render();
        write_struct(self.reg.name(), &entries)
    }
}

/// Rendering is repeatable: whatever two renderings of one snapshot give,
/// as entries or as text, the second gives exactly what the first gave.
pub proof fn lemma_render_repeatable<'a, E: RegisterDebugInfo>(
    snapshot: RegisterDebugValue<'a, E>,
    first_entries: Seq<Entry>,
    second_entries: Seq<Entry>,
    first_text: Seq<char>,
    second_text: Seq<char>,
)
    requires
        first_entries == snapshot.entries(),
        second_entries == snapshot.entries(),
        first_text == snapshot.text(),
        second_text == snapshot.text(),
    ensures
        first_entries == second_entries,
        first_text == second_text,
{
}

/// A snapshot shows the value that it captured and no other: what it renders
/// is fixed by its own value and register, whatever value a later snapshot
/// of the same register holds.
pub proof fn lemma_snapshot_isolated<'a, E: RegisterDebugInfo>(
    earlier: RegisterDebugValue<'a, E>,
    later: RegisterDebugValue<'a, E>,
)
    requires
        earlier.register() == later.register(),
    ensures
        earlier.entries() == rendered(earlier.register(), earlier.value()),
        earlier.text() == rendered_text(earlier.register(), earlier.value()),
        later.value() == earlier.value() ==> later.entries() == earlier.entries() && later.text()
            == earlier.text(),
{
}

} // verus!
