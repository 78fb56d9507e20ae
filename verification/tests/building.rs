use unitcalc::ConcreteNumber;
use unitcalc::ConcreteNumberBuilder;
use unitcalc::Expr;
use unitcalc::Oper;
use unitcalc::PhysicalQuantityBuilder;

#[test]
fn evaluate_a_hand_built_tree() {
    let metre = PhysicalQuantityBuilder::new().length(1).build();
    let a = ConcreteNumber::new(1.5f64.to_bits(), metre);
    let b = ConcreteNumber::new(2.5f64.to_bits(), metre);
    let tree = Expr::Add(Box::new(Expr::Value(a)), Box::new(Expr::Value(b)));
    let r = tree.evaluate().unwrap();
    assert_eq!(f64::from_bits(r.magnitude_bits), 4.0);
    assert_eq!(r.physical_quantity, metre);
}

#[test]
fn parentheses_are_transparent_to_evaluation() {
    let metre = PhysicalQuantityBuilder::new().length(1).build();
    let a = ConcreteNumber::new(7.0f64.to_bits(), metre);
    let bare = Expr::Value(a).evaluate();
    let wrapped = Expr::Paren(Box::new(Expr::Value(a))).evaluate();
    assert_eq!(bare, wrapped);
}

#[test]
fn oper_apply_builds_the_matching_node() {
    let two = ConcreteNumber::new(2.0f64.to_bits(), PhysicalQuantityBuilder::new().build());
    let tree = Oper::Mul.apply(Expr::Value(two), Expr::Value(two));
    assert_eq!(f64::from_bits(tree.evaluate().unwrap().magnitude_bits), 4.0);
    let diff = Oper::Sub.apply(Expr::Value(two), Expr::Value(two));
    assert_eq!(f64::from_bits(diff.evaluate().unwrap().magnitude_bits), 0.0);
}

#[test]
fn a_cloned_tree_evaluates_like_the_original() {
    let metre = PhysicalQuantityBuilder::new().length(1).build();
    let a = ConcreteNumber::new(6.0f64.to_bits(), metre);
    let b = ConcreteNumber::new(2.0f64.to_bits(), metre);
    let tree = Expr::Div(Box::new(Expr::Value(a)), Box::new(Expr::Value(b)));
    let copy = tree.clone();
    assert_eq!(tree.evaluate(), copy.evaluate());
}

#[test]
fn concrete_number_builder_sets_fields() {
    let second = PhysicalQuantityBuilder::new().time(1).build();
    let cn = ConcreteNumberBuilder::new()
        .magnitude(9.0f64.to_bits())
        .physical_quantity(second)
        .build();
    assert_eq!(cn, ConcreteNumber::new(9.0f64.to_bits(), second));
}

#[test]
fn builder_mul_and_div_combine_exponents() {
    let a = PhysicalQuantityBuilder::new().time(2).length(1);
    let b = PhysicalQuantityBuilder::new().time(-1).mass(3);
    let product = a.mul(b).build();
    assert_eq!(
        product,
        PhysicalQuantityBuilder::new().time(1).length(1).mass(3).build()
    );
    let c = PhysicalQuantityBuilder::new().time(2).length(1);
    let d = PhysicalQuantityBuilder::new().time(-1).mass(3);
    let quotient = c.div(d).build();
    assert_eq!(
        quotient,
        PhysicalQuantityBuilder::new().time(3).length(1).mass(-3).build()
    );
}
