use register_debug::{
    Field, FieldRepr, FieldValueEnumCons, FieldValueEnumNil, FieldVariants, RegisterDebugInfo,
    RegisterDebugValue, RegisterDescriptor,
};

type One = FieldValueEnumCons<FieldVariants, FieldValueEnumNil>;

type Three = FieldValueEnumCons<FieldVariants, FieldValueEnumCons<FieldVariants, One>>;

fn variants(table: &'static [(u64, &'static str)]) -> FieldVariants {
    FieldVariants::new(table).unwrap()
}

fn one(table: &'static [(u64, &'static str)]) -> One {
    FieldValueEnumCons::Cons(variants(table), FieldValueEnumNil::Nil)
}

/// Register `R`: f0 has no variants, f1 is X or Y, f2 is P at 3.
fn register_r() -> RegisterDescriptor<Three> {
    let enums = FieldValueEnumCons::Cons(
        variants(&[]),
        FieldValueEnumCons::Cons(variants(&[(0, "X"), (1, "Y")]), one(&[(3, "P")])),
    );
    RegisterDescriptor::new(
        "R",
        &["f0", "f1", "f2"],
        &[
            Field { mask: 0xf, shift: 0 },
            Field { mask: 0x1, shift: 4 },
            Field { mask: 0xf, shift: 8 },
        ],
        enums,
    )
    .unwrap()
}

/// A register with the single field `f`, eight bits wide, with variants A and B.
fn register_ab() -> RegisterDescriptor<One> {
    RegisterDescriptor::new(
        "S",
        &["f"],
        &[Field { mask: 0xff, shift: 0 }],
        one(&[(1, "A"), (2, "B")]),
    )
    .unwrap()
}

#[test]
fn end_to_end_example() {
    let r = register_r();
    // Field values 7, 1 and 9.
    let snapshot = RegisterDebugValue::new(0x917, &r);
    assert_eq!(snapshot.fmt(), "R { f0: 7, f1: Y, f2: 9 }");
    assert_eq!(
        snapshot.render(),
        vec![
            ("f0", FieldRepr::Number(7)),
            ("f1", FieldRepr::Variant("Y")),
            ("f2", FieldRepr::Number(9)),
        ]
    );
}

#[test]
fn every_variant_of_the_example_is_named() {
    let r = register_r();
    assert_eq!(RegisterDebugValue::new(0x300, &r).fmt(), "R { f0: 0, f1: X, f2: P }");
    assert_eq!(RegisterDebugValue::new(0x31f, &r).fmt(), "R { f0: 15, f1: Y, f2: P }");
}

#[test]
fn decode_miss_renders_the_number() {
    let s = register_ab();
    let snapshot = RegisterDebugValue::new(5, &s);
    assert_eq!(snapshot.render(), vec![("f", FieldRepr::Number(5))]);
    assert_eq!(snapshot.fmt(), "S { f: 5 }");
}

#[test]
fn decode_hit_renders_the_variant() {
    let s = register_ab();
    let snapshot = RegisterDebugValue::new(1, &s);
    assert_eq!(snapshot.render(), vec![("f", FieldRepr::Variant("A"))]);
    assert_eq!(snapshot.fmt(), "S { f: A }");
    assert_eq!(RegisterDebugValue::new(2, &s).fmt(), "S { f: B }");
}

#[test]
fn rendering_twice_gives_the_same_bytes() {
    let r = register_r();
    let snapshot = RegisterDebugValue::new(0xabc, &r);
    let first = snapshot.fmt();
    let second = snapshot.fmt();
    assert_eq!(first.as_bytes(), second.as_bytes());
    assert_eq!(snapshot.render(), snapshot.render());
}

#[test]
fn a_snapshot_keeps_the_value_it_captured() {
    let r = register_r();
    let mut live: u64 = 0x917;
    let first = RegisterDebugValue::new(live, &r);
    live = 0x300;
    let second = RegisterDebugValue::new(live, &r);
    assert_eq!(second.fmt(), "R { f0: 0, f1: X, f2: P }");
    assert_eq!(first.fmt(), "R { f0: 7, f1: Y, f2: 9 }");
    assert_eq!(first.data(), 0x917);
    assert_eq!(second.data(), 0x300);
}

#[test]
fn a_register_without_fields_renders_as_its_name() {
    let empty = RegisterDescriptor::new("Empty", &[], &[], FieldValueEnumNil::Nil).unwrap();
    let snapshot = RegisterDebugValue::new(0xffff, &empty);
    assert_eq!(snapshot.render(), vec![]);
    assert_eq!(snapshot.fmt(), "Empty");
}

#[test]
fn bits_outside_every_field_do_not_show() {
    let r = register_r();
    let snapshot = RegisterDebugValue::new(0xffff_ffff_ffff_f0e0, &r);
    assert_eq!(snapshot.fmt(), "R { f0: 0, f1: X, f2: 0 }");
}

#[test]
fn descriptor_lists_have_one_length() {
    let r = register_r();
    assert_eq!(r.name(), "R");
    assert_eq!(r.field_names().len(), 3);
    assert_eq!(r.fields().len(), 3);
    assert_eq!(r.field_names(), ["f0", "f1", "f2"]);
    assert_eq!(r.fields()[1], Field { mask: 0x1, shift: 4 });
    let s = register_ab();
    assert_eq!(s.field_names().len(), s.fields().len());
}

#[test]
fn a_name_too_many_is_refused() {
    let d = RegisterDescriptor::new(
        "S",
        &["f", "g"],
        &[Field { mask: 0xff, shift: 0 }],
        one(&[(1, "A")]),
    );
    assert!(d.is_none());
}

#[test]
fn a_field_too_many_is_refused() {
    let d = RegisterDescriptor::new(
        "S",
        &["f"],
        &[Field { mask: 0xf, shift: 0 }, Field { mask: 0xf, shift: 4 }],
        one(&[(1, "A")]),
    );
    assert!(d.is_none());
}

#[test]
fn a_decoder_too_many_is_refused() {
    let enums = FieldValueEnumCons::Cons(variants(&[]), one(&[(1, "A")]));
    let d = RegisterDescriptor::new("S", &["f"], &[Field { mask: 0xff, shift: 0 }], enums);
    assert!(d.is_none());
}

#[test]
fn a_decoder_too_few_is_refused() {
    let d = RegisterDescriptor::new(
        "S",
        &["f"],
        &[Field { mask: 0xff, shift: 0 }],
        FieldValueEnumNil::Nil,
    );
    assert!(d.is_none());
}
