use unitcalc::evaluate_physical_equation;
use unitcalc::ConcreteNumber;
use unitcalc::CustomError;
use unitcalc::PhysicalQuantity;
use unitcalc::PhysicalQuantityBuilder;

#[test]
fn build_metre() {
    let length_unit: PhysicalQuantity = PhysicalQuantityBuilder::new().length(1).build();
    let length: ConcreteNumber = ConcreteNumber::new(13.0f64.to_bits(), length_unit);
    let text = format!(
        "{} {}",
        f64::from_bits(length.magnitude_bits),
        length.physical_quantity.unit_string()
    );
    assert_eq!(text, "13 m")
}

#[test]
fn build_time() {
    let time_unit: PhysicalQuantity = PhysicalQuantityBuilder::new().time(1).build();
    let time: ConcreteNumber = ConcreteNumber::new(2.0f64.to_bits(), time_unit);
    let text = format!(
        "{} {}",
        f64::from_bits(time.magnitude_bits),
        time.physical_quantity.unit_string()
    );
    assert_eq!(text, "2 s");
}

#[test]
fn build_acceleration() {
    let length_unit: PhysicalQuantity = PhysicalQuantityBuilder::new().length(1).build();
    let length: ConcreteNumber = ConcreteNumber::new(13.0f64.to_bits(), length_unit);
    let time_unit: PhysicalQuantity = PhysicalQuantityBuilder::new().time(1).build();
    let time: ConcreteNumber = ConcreteNumber::new(2.0f64.to_bits(), time_unit);
    let acceleration = length.div(time.mul(time.clone()));
    let text = format!(
        "{} {}",
        f64::from_bits(acceleration.magnitude_bits),
        acceleration.physical_quantity.unit_string()
    );
    assert_eq!(text, "3.25 m s^-2");
}

#[test]
fn parse_time_and_print() {
    let time: &str = "3 s";
    let concrete_time = evaluate_physical_equation(time).unwrap();
    let text = format!(
        "{} {}",
        f64::from_bits(concrete_time.magnitude_bits),
        concrete_time.physical_quantity.unit_string()
    );
    assert_eq!(text, time);
}

#[test]
fn explicit_and_implicit_unit_multiplication_should_match() {
    let cn_1 = "3 W m^3";
    let cn_2 = "3 W * 1 m * 1 m^2";
    assert_eq!(
        evaluate_physical_equation(cn_1),
        evaluate_physical_equation(cn_2)
    );
}

#[test]
fn named_unit_round_trip_display() {
    for unit in ["s", "m", "kg", "A", "K", "mol", "cd", "Hz", "N", "Pa", "J", "W", "C", "V", "Wb",
        "T", "F", "S", "H", "kat"] {
        let input = format!("42 {}", unit);
        let q = evaluate_physical_equation(&input).unwrap();
        let text = format!(
            "{} {}",
            f64::from_bits(q.magnitude_bits),
            q.physical_quantity.unit_string()
        );
        assert_eq!(text, input);
    }
}

#[test]
fn ohm_spellings_agree_and_display_as_sign() {
    let a = evaluate_physical_equation("2 ohm").unwrap();
    let b = evaluate_physical_equation("2 Ω").unwrap();
    assert_eq!(a, b);
    assert_eq!(a.physical_quantity.unit_string(), "Ω");
}

#[test]
fn addition_of_different_dimensions_fails() {
    let r = evaluate_physical_equation("(3 m + 4 kg)");
    assert_eq!(r, Err(CustomError::AddingTwoDifferentUnits));
}

#[test]
fn subtraction_of_different_dimensions_fails() {
    let r = evaluate_physical_equation("(3 m - 4 kg)");
    assert_eq!(r, Err(CustomError::SubtractingTwoDifferentUnits));
}

#[test]
fn failing_child_collapses_to_sub_expression_error() {
    let r = evaluate_physical_equation("(3 m + 4 kg) + 5 m");
    assert_eq!(r, Err(CustomError::SubExpressionError));
}

#[test]
fn arithmetic_correctness_energy_times_mass() {
    let q = evaluate_physical_equation("15 N m * 12 kg * 92").unwrap();
    assert_eq!(f64::from_bits(q.magnitude_bits), 16560.0);
    let expected = PhysicalQuantityBuilder::new().time(-2).length(2).mass(2).build();
    assert_eq!(q.physical_quantity, expected);
}

#[test]
fn interior_whitespace_is_tolerated() {
    let a = evaluate_physical_equation("15   N m * 12 kg *   92").unwrap();
    let b = evaluate_physical_equation("15 N m * 12 kg * 92").unwrap();
    assert_eq!(a, b);
}

#[test]
fn parenthesized_bare_numbers_are_dimensionless() {
    let q = evaluate_physical_equation("(23 + 58)").unwrap();
    assert_eq!(f64::from_bits(q.magnitude_bits), 81.0);
    assert_eq!(q.physical_quantity, PhysicalQuantityBuilder::new().build());
    assert_eq!(q.physical_quantity.unit_string(), "dimensionless");
}

#[test]
fn nested_parentheses_evaluate() {
    let q = evaluate_physical_equation("((12 + 13))").unwrap();
    assert_eq!(f64::from_bits(q.magnitude_bits), 25.0);
}

#[test]
fn explicit_exponent_two_equals_squared_unit() {
    let a = evaluate_physical_equation("1 N^2").unwrap();
    let b = evaluate_physical_equation("1 N * 1 N").unwrap();
    assert_eq!(a, b);
    let expected = PhysicalQuantityBuilder::new().time(-4).length(2).mass(2).build();
    assert_eq!(a.physical_quantity, expected);
}

#[test]
fn trailing_garbage_names_the_remainder() {
    // The entry point parses the input wrapped in implicit parentheses, so
    // the cited remainder is the wrapped text's: here "x" and the implicit
    // closing parenthesis.
    match evaluate_physical_equation("3 m )x") {
        Err(CustomError::ParseError(rest)) => assert_eq!(rest, "x)"),
        other => panic!("expected a parse error, got {:?}", other),
    }
}

#[test]
fn implicit_outer_parentheses_complete_unbalanced_input() {
    let bare = evaluate_physical_equation("2) + (3");
    let explicit = evaluate_physical_equation("(2) + (3)");
    assert_eq!(bare, explicit);
    let q = bare.unwrap();
    assert_eq!(f64::from_bits(q.magnitude_bits), 5.0);
    assert_eq!(q.physical_quantity, PhysicalQuantityBuilder::new().build());
}

#[test]
fn unparseable_input_is_a_parse_error() {
    assert!(matches!(
        evaluate_physical_equation("3 m @"),
        Err(CustomError::ParseError(_))
    ));
}

#[test]
fn magnitude_and_unit_must_be_separated() {
    assert!(matches!(
        evaluate_physical_equation("3m"),
        Err(CustomError::ParseError(_))
    ));
}

#[test]
fn unknown_unit_symbol_is_rejected() {
    let r = evaluate_physical_equation("5 foo");
    assert_eq!(r, Err(CustomError::UnknownUnitSymbol));
}

#[test]
fn self_division_is_dimensionless_one() {
    let q = evaluate_physical_equation("3 m").unwrap();
    let r = q.div(q);
    assert_eq!(f64::from_bits(r.magnitude_bits), 1.0);
    assert_eq!(r.physical_quantity, PhysicalQuantityBuilder::new().build());
}

#[test]
fn self_division_of_an_infinite_magnitude_is_nan() {
    let unit = PhysicalQuantityBuilder::new().length(1).build();
    let q = ConcreteNumber::new(f64::INFINITY.to_bits(), unit);
    let r = q.div(q);
    assert!(f64::from_bits(r.magnitude_bits).is_nan());
    assert_eq!(r.physical_quantity, PhysicalQuantityBuilder::new().build());
}

#[test]
fn subtraction_of_like_dimensions() {
    let q = evaluate_physical_equation("(58 kg - 23 kg)").unwrap();
    assert_eq!(f64::from_bits(q.magnitude_bits), 35.0);
    assert_eq!(
        q.physical_quantity,
        PhysicalQuantityBuilder::new().mass(1).build()
    );
}

#[test]
fn division_combines_dimensions() {
    let q = evaluate_physical_equation("12 m / 4 s").unwrap();
    assert_eq!(f64::from_bits(q.magnitude_bits), 3.0);
    let expected = PhysicalQuantityBuilder::new().time(-1).length(1).build();
    assert_eq!(q.physical_quantity, expected);
    assert_eq!(q.physical_quantity.unit_string(), "m s^-1");
}

#[test]
fn scientific_and_fractional_literals() {
    let q = evaluate_physical_equation("3.25 m").unwrap();
    assert_eq!(q.magnitude_bits, 3.25f64.to_bits());
    let e = evaluate_physical_equation("-1.5e2 s").unwrap();
    assert_eq!(f64::from_bits(e.magnitude_bits), -150.0);
}

#[test]
fn negative_magnitude_parses() {
    let q = evaluate_physical_equation("-4 kg").unwrap();
    assert_eq!(f64::from_bits(q.magnitude_bits), -4.0);
    assert_eq!(
        q.physical_quantity,
        PhysicalQuantityBuilder::new().mass(1).build()
    );
}
