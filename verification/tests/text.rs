use register_debug::repr::push_decimal;
use register_debug::text::write_struct;
use register_debug::FieldRepr;

fn decimal(n: u64) -> String {
    let mut out = String::new();
    push_decimal(&mut out, n);
    out
}

#[test]
fn decimal_numerals() {
    assert_eq!(decimal(0), "0");
    assert_eq!(decimal(9), "9");
    assert_eq!(decimal(10), "10");
    assert_eq!(decimal(1234567890), "1234567890");
    assert_eq!(decimal(u64::MAX), "18446744073709551615");
}

#[test]
fn decimal_is_appended() {
    let mut out = String::from("n = ");
    push_decimal(&mut out, 405);
    assert_eq!(out, "n = 405");
}

#[test]
fn value_text() {
    let mut out = String::from("<");
    FieldRepr::Variant("Enabled").write_to(&mut out);
    out.push('|');
    FieldRepr::Number(42).write_to(&mut out);
    out.push('>');
    assert_eq!(out, "<Enabled|42>");
}

#[test]
fn a_variant_called_like_a_number_is_still_a_variant() {
    assert_ne!(FieldRepr::Variant("5"), FieldRepr::Number(5));
    let mut out = String::new();
    FieldRepr::Variant("5").write_to(&mut out);
    assert_eq!(out, "5");
}

#[test]
fn struct_text_without_fields() {
    assert_eq!(write_struct("Name", &vec![]), "Name");
    assert_eq!(write_struct("", &vec![]), "");
}

#[test]
fn struct_text_with_one_field() {
    assert_eq!(write_struct("Name", &vec![("a", FieldRepr::Number(0))]), "Name { a: 0 }");
}

#[test]
fn struct_text_with_several_fields() {
    let entries = vec![
        ("mode", FieldRepr::Variant("Fast")),
        ("count", FieldRepr::Number(300)),
        ("übung", FieldRepr::Variant("Ω")),
    ];
    assert_eq!(write_struct("Ctrl", &entries), "Ctrl { mode: Fast, count: 300, übung: Ω }");
}
