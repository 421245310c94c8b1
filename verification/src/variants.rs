//! The named values of one field.

use vstd::prelude::*;

verus! {

/// Something that may know a name for a field's raw value.
pub trait TryFromValue {
    /// The name that `raw` goes by, if it is one of the named values.
    spec fn spec_try_from_value(&self, raw: u64) -> Option<&'static str>;

    /// Looks `raw` up among the named values.
    fn try_from_value(&self, raw: u64) -> (name: Option<&'static str>)
        ensures
            name == self.spec_try_from_value(raw),
    ;
}

/// No two entries of the table give a name to the same value.
pub open spec fn distinct_values(table: Seq<(u64, &'static str)>) -> bool {
    forall|i: int, j: int|
        0 <= i < j < table.len() ==> (#[trigger] table[i]).0 != (#[trigger] table[j]).0
}

/// Some entry of the table names `raw`.
pub open spec fn names_value(table: Seq<(u64, &'static str)>, raw: u64) -> bool {
    exists|i: int| 0 <= i < table.len() && (#[trigger] table[i]).0 == raw
}

/// The closed set of variants that a field can hold: each a value and its
/// name, no value twice. A field without variants has the empty set.
#[derive(Clone, Copy, Debug)]
pub struct FieldVariants {
    table: &'static [(u64, &'static str)],
}

impl FieldVariants {
    #[verifier::type_invariant]
    spec fn inv(self) -> bool {
        distinct_values(self.table@)
    }

    /// The variants, in the order in which they were given.
    pub closed spec fn entries(self) -> Seq<(u64, &'static str)> {
        self.table@
    }

    /// Makes the variant set of a field from its table. There is none for
    /// a table that names one value twice.
    pub fn new(table: &'static [(u64, &'static str)]) -> (variants: Option<FieldVariants>)
        ensures
            variants is Some <==> distinct_values(table@),
            variants matches Some(v) ==> v.entries() == table@,
    {
        let n = table.len();
        let mut j: usize = 0;
        while j < n
            invariant
                n == table.len(),
                j <= n,
                forall|a: int, b: int|
                    0 <= a < b < j ==> (#[trigger] table@[a]).0 != (#[trigger] table@[b]).0,
            decreases n - j,
        {
            let mut i: usize = 0;
            while i < j
                invariant
                    n == table.len(),
                    j < n,
                    i <= j,
                    forall|a: int| 0 <= a < i ==> (#[trigger] table@[a]).0 != table@[j as int].0,
                decreases j - i,
            {
                if table[i].0 == table[j].0 {
                    return None;
                }
                i += 1;
            }
            j += 1;
        }
        Some(FieldVariants { table })
    }
}

impl TryFromValue for FieldVariants {
    open spec fn spec_try_from_value(&self, raw: u64) -> Option<&'static str> {
        if names_value(self.entries(), raw) {
            let i = choose|i: int|
                0 <= i < self.entries().len() && (#[trigger] self.entries()[i]).0 == raw;
            Some(self.entries()[i].1)
        } else {
            None
        }
    }

    fn try_from_value(&self, raw: u64) -> (name: Option<&'static str>) {
        proof {
            use_type_invariant(self);
        }
        let n = self.table.len();
        let mut i: usize = 0;
        while i < n
            invariant
                n == self.table.len(),
                i <= n,
                distinct_values(self.table@),
                forall|a: int| 0 <= a < i ==> (#[trigger] self.table@[a]).0 != raw,
            decreases n - i,
        {
            if self.table[i].0 == raw {
                proof {
                    assert(names_value(self.entries(), raw));
                    let k = choose|k: int|
                        0 <= k < self.entries().len() && (#[trigger] self.entries()[k]).0 == raw;
                    if k != i {
                        let (lo, hi) = if k < i { (k, i as int) } else { (i as int, k) };
                        assert(self.table@[lo].0 != self.table@[hi].0);
                    }
                }
                return Some(self.table[i].1);
            }
            i += 1;
        }
        None
    }
}

} // verus!
