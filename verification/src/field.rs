//! One bit-field of a register: where it lies and how its value is read.

use vstd::prelude::*;

verus! {

/// A contiguous range of bits in a register.
///
/// `mask` has a one for every bit of the field, counted from the field's
/// lowest bit; `shift` is the position of that lowest bit in the register.
#[derive(Clone, Copy, Debug, PartialEq, Eq)]
pub struct Field {
    pub mask: u64,
    pub shift: u32,
}

impl Field {
    /// The field lies wholly inside a 64-bit register.
    pub open spec fn well_formed(self) -> bool {
        self.shift < 64 && self.mask <= (u64::MAX >> self.shift)
    }

    /// The value of this field in the register value `raw`: the register
    /// moved down to the field's lowest bit, then cut to the field's width.
    /// A field that starts above the register's top bit reads as zero.
    pub open spec fn spec_read(self, raw: u64) -> u64 {
        if self.shift < 64 {
            (raw >> self.shift) & self.mask
        } else {
            0
        }
    }

    /// Describes the field of the given width mask whose lowest bit is at `shift`.
    pub fn new(mask: u64, shift: u32) -> (field: Field)
        requires
            (Field { mask, shift }).well_formed(),
        ensures
            field == (Field { mask, shift }),
    {
        Field { mask, shift }
    }

    /// Reads this field out of the register value `raw`.
    pub fn read(&self, raw: u64) -> (value: u64)
        ensures
            value == self.spec_read(raw),
            value <= self.mask,
    {
        if self.shift < 64 {
            let value: u64 = (raw >> self.shift) & self.mask;
            proof {
                lemma_masked(raw >> self.shift, self.mask);
            }
            value
        } else {
            0
        }
    }
}

/// Reading a field is the same as keeping the field's bits where they are in
/// the register, clearing all others, and then moving them down.
pub proof fn lemma_read_in_place(field: Field, raw: u64)
    requires
        field.shift < 64,
    ensures
        field.spec_read(raw) == (raw & (field.mask << field.shift)) >> field.shift,
{
    let mask = field.mask;
    let shift = field.shift;
    assert((raw >> shift) & mask == (raw & (mask << shift)) >> shift) by (bit_vector)
        requires
            shift < 64,
    ;
}

/// Cutting a value to a mask never gives more than the mask.
pub proof fn lemma_masked(value: u64, mask: u64)
    ensures
        value & mask <= mask,
{
    assert(value & mask <= mask) by (bit_vector);
}

} // verus!
