//! The text of a dump: `Name { field: value, field: value }`.

use crate::repr::FieldRepr;
use vstd::prelude::*;
use vstd::string::StringExecFns;

verus! {

/// A field's name and its rendered value.
pub type Entry = (&'static str, FieldRepr);

/// The text of one field: its name, a colon, a space, its value.
pub open spec fn entry_text(entry: Entry) -> Seq<char> {
    entry.0@ + seq![':', ' '] + entry.1.text()
}

/// The texts of the fields in order, with a comma and a space between each
/// two of them.
pub open spec fn entries_text(entries: Seq<Entry>) -> Seq<char>
    decreases entries.len(),
{
    if entries.len() == 0 {
        Seq::empty()
    } else if entries.len() == 1 {
        entry_text(entries[0])
    } else {
        entries_text(entries.drop_last()) + seq![',', ' '] + entry_text(entries.last())
    }
}

/// The text of a whole dump: the name alone where there is no field, else
/// the name followed by the fields between braces.
pub open spec fn struct_text(name: Seq<char>, entries: Seq<Entry>) -> Seq<char> {
    if entries.len() == 0 {
        name
    } else {
        name + seq![' ', '{', ' '] + entries_text(entries) + seq![' ', '}']
    }
}

/// Writes out the dump of the register `name` with the given fields.
pub fn write_struct(name: &str, entries: &Vec<Entry>) -> (text: String)
    ensures
        text@ == struct_text(name@, entries@),
{
    proof {
        reveal_strlit(" { ");
        reveal_strlit(", ");
        reveal_strlit(": ");
        reveal_strlit(" }");
        assert(" { "@ =~= seq![' ', '{', ' ']);
        assert(", "@ =~= seq![',', ' ']);
        assert(": "@ =~= seq![':', ' ']);
        assert(" }"@ =~= seq![' ', '}']);
    }
    let mut text = String::new();
    text.append(name);
    let n = entries.len();
    if n == 0 {
        assert(text@ =~= name@);
        return text;
    }
    text.append(" { ");
    let ghost opened = text@;
    assert(opened =~= name@ + seq![' ', '{', ' ']);
    let mut i: usize = 0;
    while i < n
        invariant
            n == entries.len(),
            i <= n,
            text@ == opened + entries_text(entries@.take(i as int)),
            ", "@ == seq![',', ' '],
            ": "@ == seq![':', ' '],
        decreases n - i,
    {
        let ghost before = text@;
        if i > 0 {
            text.append(", ");
        }
        text.append(entries[i].0);
        text.append(": ");
        entries[i].1.write_to(&mut text);
        proof {
            let done = entries@.take(i as int);
            let more = entries@.take(i + 1);
            assert(more.drop_last() =~= done);
            assert(more.last() == entries@[i as int]);
            if i == 0 {
                assert(entries_text(done) =~= Seq::<char>::empty());
                assert(more[0] == entries@[0]);
                assert(text@ =~= opened + entries_text(more));
            } else {
                assert(text@ =~= opened + entries_text(more));
            }
        }
        i += 1;
    }
    assert(entries@.take(n as int) =~= entries@);
    text.append(" }");
    assert(text@ =~= struct_text(name@, entries@));
    text
}

} // verus!
