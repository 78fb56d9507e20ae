use unitcalc::combined_unit;
use unitcalc::evaluate_physical_equation;
use unitcalc::get_concrete_number_as_tuple;
use unitcalc::unit_as_tuple;
use unitcalc::word;
use unitcalc::ParseFailure;
use unitcalc::PhysicalQuantityBuilder;

#[test]
fn word_takes_the_symbol_run() {
    assert_eq!(word("kg m", 0), 2);
    assert_eq!(word("kg m", 3), 4);
    assert_eq!(word("12 kg", 0), 0);
}

#[test]
fn unit_as_tuple_reads_symbol_and_exponent() {
    assert_eq!(unit_as_tuple("N^2 m", 0), Some(("N", 2, 3)));
    assert_eq!(unit_as_tuple("kg", 0), Some(("kg", 1, 2)));
    assert_eq!(unit_as_tuple("7 m", 0), None);
}

#[test]
fn malformed_exponent_leaves_the_caret_unconsumed() {
    assert_eq!(unit_as_tuple("m^x", 0), Some(("m", 1, 1)));
    assert_eq!(unit_as_tuple("m^99999999999999999999", 0), Some(("m", 1, 1)));
}

#[test]
fn combined_unit_folds_by_multiplication() {
    let (pq, end) = combined_unit("N m", 0).unwrap();
    assert_eq!(end, 3);
    let joule = PhysicalQuantityBuilder::new().time(-2).length(2).mass(1).build();
    assert_eq!(pq, joule);
    assert_eq!(pq.unit_string(), "J");
}

#[test]
fn combined_unit_accepts_the_empty_unit() {
    let (pq, end) = combined_unit("+ 4", 0).unwrap();
    assert_eq!(end, 0);
    assert_eq!(pq, PhysicalQuantityBuilder::new().build());
}

#[test]
fn combined_unit_rejects_unknown_symbols() {
    assert_eq!(combined_unit("foo", 0), Err(ParseFailure::UnknownUnit));
    assert_eq!(combined_unit("m foo", 0), Err(ParseFailure::UnknownUnit));
}

#[test]
fn concrete_number_tuple_carries_bits_and_vector() {
    let ((bits, pq), end) = get_concrete_number_as_tuple("3.5 m s^-1", 0).unwrap();
    assert_eq!(f64::from_bits(bits), 3.5);
    assert_eq!(end, 10);
    let speed = PhysicalQuantityBuilder::new().time(-1).length(1).build();
    assert_eq!(pq, speed);
}

#[test]
fn concrete_number_without_unit_is_dimensionless() {
    let ((bits, pq), end) = get_concrete_number_as_tuple("42", 0).unwrap();
    assert_eq!(f64::from_bits(bits), 42.0);
    assert_eq!(end, 2);
    assert_eq!(pq, PhysicalQuantityBuilder::new().build());
}

#[test]
fn the_word_dimensionless_is_the_identity_unit() {
    let q = evaluate_physical_equation("5 dimensionless").unwrap();
    assert_eq!(f64::from_bits(q.magnitude_bits), 5.0);
    assert_eq!(q.physical_quantity, PhysicalQuantityBuilder::new().build());
    let text = format!(
        "{} {}",
        f64::from_bits(q.magnitude_bits),
        q.physical_quantity.unit_string()
    );
    assert_eq!(text, "5 dimensionless");
}

#[test]
fn compound_vector_display_is_sorted_by_symbol() {
    let q = evaluate_physical_equation("2 A^-1 K^2 cd^5 kg^3 m^2 mol s^7").unwrap();
    assert_eq!(
        q.physical_quantity.unit_string(),
        "A^-1 K^2 cd^5 kg^3 m^2 mol s^7"
    );
    let p = evaluate_physical_equation("2 s^7 mol m^2 kg^3 cd^5 K^2 A^-1").unwrap();
    assert_eq!(q, p);
}

#[test]
fn empty_input_is_a_parse_error() {
    assert!(matches!(
        evaluate_physical_equation(""),
        Err(unitcalc::CustomError::ParseError(_))
    ));
}
