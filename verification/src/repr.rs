//! What a field looks like in a dump: a variant's name, or a plain number.

use vstd::prelude::*;
use vstd::string::StringExecFns;

verus! {

/// The rendered form of one field's value.
#[derive(Clone, Copy, Debug, PartialEq, Eq)]
pub enum FieldRepr {
    /// The value is one of the field's named variants; this is its name.
    Variant(&'static str),
    /// The value matches no named variant; this is the value itself.
    Number(u64),
}

/// The character that stands for a single decimal digit.
pub open spec fn digit_char(d: nat) -> char
    recommends
        d < 10,
{
    if d == 0 {
        '0'
    } else if d == 1 {
        '1'
    } else if d == 2 {
        '2'
    } else if d == 3 {
        '3'
    } else if d == 4 {
        '4'
    } else if d == 5 {
        '5'
    } else if d == 6 {
        '6'
    } else if d == 7 {
        '7'
    } else if d == 8 {
        '8'
    } else {
        '9'
    }
}

/// The decimal numeral of `n`: no sign, no padding, `0` for zero.
pub open spec fn decimal(n: nat) -> Seq<char>
    decreases n,
{
    if n < 10 {
        seq![digit_char(n)]
    } else {
        decimal(n / 10).push(digit_char(n % 10))
    }
}

impl FieldRepr {
    /// The text that stands for this value in a dump.
    pub open spec fn text(self) -> Seq<char> {
        match self {
            FieldRepr::Variant(name) => name@,
            FieldRepr::Number(n) => decimal(n as nat),
        }
    }

    /// What is shown for the raw value `raw` once its field has tried to
    /// read it as a variant: the variant's name where there is one, the
    /// number unchanged where there is none.
    pub open spec fn spec_of(raw: u64, decoded: Option<&'static str>) -> FieldRepr {
        match decoded {
            Some(name) => FieldRepr::Variant(name),
            None => FieldRepr::Number(raw),
        }
    }

    /// Chooses between a variant's name and the raw number.
    pub fn of(raw: u64, decoded: Option<&'static str>) -> (repr: FieldRepr)
        ensures
            repr == Self::spec_of(raw, decoded),
    {
        match decoded {
            Some(name) => FieldRepr::Variant(name),
            None => FieldRepr::Number(raw),
        }
    }

    /// Appends this value's text to `out`.
    pub fn write_to(&self, out: &mut String)
        ensures
            final(out)@ == old(out)@ + self.text(),
    {
        match self {
            FieldRepr::Variant(name) => out.append(name),
            FieldRepr::Number(n) => push_decimal(out, *n),
        }
    }
}

/// The one-character string of a decimal digit.
fn digit_str(d: u64) -> (s: &'static str)
    requires
        d < 10,
    ensures
        s@ == seq![digit_char(d as nat)],
{
    proof {
        reveal_strlit("0");
        reveal_strlit("1");
        reveal_strlit("2");
        reveal_strlit("3");
        reveal_strlit("4");
        reveal_strlit("5");
        reveal_strlit("6");
        reveal_strlit("7");
        reveal_strlit("8");
        reveal_strlit("9");
    }
    let s: &'static str = if d == 0 {
        "0"
    } else if d == 1 {
        "1"
    } else if d == 2 {
        "2"
    } else if d == 3 {
        "3"
    } else if d == 4 {
        "4"
    } else if d == 5 {
        "5"
    } else if d == 6 {
        "6"
    } else if d == 7 {
        "7"
    } else if d == 8 {
        "8"
    } else {
        "9"
    };
    assert(s@ =~= seq![digit_char(d as nat)]);
    s
}

/// Appends the decimal numeral of `n` to `out`.
pub fn push_decimal(out: &mut String, n: u64)
    ensures
        final(out)@ == old(out)@ + decimal(n as nat),
    decreases n,
{
    if n < 10 {
        out.append(digit_str(n));
    } else {
        push_decimal(out, n / 10);
        out.append(digit_str(n % 10));
        assert(out@ =~= old(out)@ + decimal(n as nat));
    }
}

} // verus!
