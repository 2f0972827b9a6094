use evaluated::error::EvaluateError;
use evaluated::evaluated::Evaluated;
use evaluated::literal::Literal;
use evaluated::value::TypedValue;

fn num(text: &str) -> Literal {
    Literal::Number(text.to_owned())
}

fn quoted(text: &str) -> Literal {
    Literal::QuotedString(text.to_owned())
}

fn int_value(v: i64) -> TypedValue {
    TypedValue::Integer(v)
}

fn text_value(text: &str) -> TypedValue {
    TypedValue::Text(text.to_owned())
}

fn expect_owned_number(r: Result<Evaluated, EvaluateError>, want: &str) {
    match r {
        Ok(Evaluated::Literal(Literal::Number(s))) => assert_eq!(s, want),
        _ => panic!("expected an owned numeric literal {want}"),
    }
}

fn expect_owned_integer(r: Result<Evaluated, EvaluateError>, want: i64) {
    match r {
        Ok(Evaluated::Value(TypedValue::Integer(v))) => assert_eq!(v, want),
        _ => panic!("expected an owned integer value {want}"),
    }
}

#[test]
fn equal_numeric_literals() {
    let a = num("3");
    let b = num("3");
    let c = num("4");
    assert!(Evaluated::LiteralRef(&a).equals(&Evaluated::LiteralRef(&b)));
    assert!(!Evaluated::LiteralRef(&a).equals(&Evaluated::LiteralRef(&c)));
}

#[test]
fn numeric_literal_equality_is_textual() {
    let a = num("03");
    let b = num("3");
    assert!(!Evaluated::LiteralRef(&a).equals(&Evaluated::LiteralRef(&b)));
    assert_eq!(
        Evaluated::LiteralRef(&a).compare(&Evaluated::LiteralRef(&b)),
        Some(std::cmp::Ordering::Equal)
    );
}

#[test]
fn string_text_against_literals() {
    let s = Evaluated::StringRef("abc");
    let q = quoted("abc");
    let n = num("5");
    assert!(s.equals(&Evaluated::LiteralRef(&q)));
    assert!(Evaluated::LiteralRef(&q).equals(&s));
    assert!(!s.equals(&Evaluated::LiteralRef(&n)));
    assert!(!Evaluated::LiteralRef(&n).equals(&s));
}

#[test]
fn equality_is_symmetric_across_domains() {
    let n = num("12");
    let v = int_value(12);
    let t = text_value("abc");
    let lit = Evaluated::LiteralRef(&n);
    let val = Evaluated::ValueRef(&v);
    let txt = Evaluated::Value(t);
    let s = Evaluated::StringRef("abc");
    assert_eq!(lit.equals(&val), val.equals(&lit));
    assert!(lit.equals(&val));
    assert_eq!(s.equals(&txt), txt.equals(&s));
    assert!(s.equals(&txt));
}

#[test]
fn owned_literal_against_borrowed_value() {
    let v = int_value(7);
    let owned = Evaluated::Literal(num("7"));
    let val = Evaluated::ValueRef(&v);
    assert!(owned.equals(&val));
    assert!(val.equals(&owned));
}

#[test]
fn compare_numeric_literals_is_antisymmetric() {
    let two = num("2");
    let five = num("5");
    let a = Evaluated::LiteralRef(&two);
    let b = Evaluated::LiteralRef(&five);
    assert_eq!(a.compare(&b), Some(std::cmp::Ordering::Less));
    assert_eq!(b.compare(&a), Some(std::cmp::Ordering::Greater));
}

#[test]
fn compare_string_literals_lexicographically() {
    let a = quoted("apple");
    let b = quoted("banana");
    assert_eq!(
        Evaluated::LiteralRef(&a).compare(&Evaluated::LiteralRef(&b)),
        Some(std::cmp::Ordering::Less)
    );
    let s = Evaluated::StringRef("abc");
    let t = Evaluated::StringRef("abd");
    assert_eq!(s.compare(&t), Some(std::cmp::Ordering::Less));
    assert_eq!(t.compare(&s), Some(std::cmp::Ordering::Greater));
}

#[test]
fn compare_numeric_literal_with_text_value_is_absent() {
    let n = num("7");
    let t = text_value("7");
    let lit = Evaluated::LiteralRef(&n);
    let val = Evaluated::ValueRef(&t);
    assert_eq!(lit.compare(&val), None);
    assert_eq!(val.compare(&lit), None);
}

#[test]
fn compare_typed_against_literal() {
    let v = int_value(5);
    let n = num("7");
    let val = Evaluated::ValueRef(&v);
    let lit = Evaluated::LiteralRef(&n);
    assert_eq!(val.compare(&lit), Some(std::cmp::Ordering::Less));
    assert_eq!(lit.compare(&val), Some(std::cmp::Ordering::Greater));
}

#[test]
fn compare_unparseable_numeric_literal_is_absent() {
    let a = num("3.5");
    let b = num("1");
    assert_eq!(Evaluated::LiteralRef(&a).compare(&Evaluated::LiteralRef(&b)), None);
}

#[test]
fn literal_arithmetic_round_trip() {
    let two = num("2");
    let three = num("3");
    let a = Evaluated::LiteralRef(&two);
    let b = Evaluated::LiteralRef(&three);
    expect_owned_number(a.add(&b), "5");
    expect_owned_number(a.subtract(&b), "-1");
    expect_owned_number(a.multiply(&b), "6");
    expect_owned_number(a.divide(&b), "0");
}

#[test]
fn negative_literal_arithmetic() {
    let a = num("-7");
    let b = num("2");
    let left = Evaluated::LiteralRef(&a);
    let right = Evaluated::LiteralRef(&b);
    expect_owned_number(left.add(&right), "-5");
    // truncation toward zero, not flooring
    expect_owned_number(left.divide(&right), "-3");
}

#[test]
fn divide_by_zero_propagates() {
    let four = num("4");
    let zero = num("0");
    let v4 = int_value(4);
    let v0 = int_value(0);
    let lit4 = Evaluated::LiteralRef(&four);
    let lit0 = Evaluated::LiteralRef(&zero);
    let val4 = Evaluated::ValueRef(&v4);
    let val0 = Evaluated::ValueRef(&v0);
    assert_eq!(lit4.divide(&lit0).unwrap_err(), EvaluateError::DivisionByZero);
    assert_eq!(val4.divide(&val0).unwrap_err(), EvaluateError::DivisionByZero);
    assert_eq!(lit4.divide(&val0).unwrap_err(), EvaluateError::DivisionByZero);
    assert_eq!(val4.divide(&lit0).unwrap_err(), EvaluateError::DivisionByZero);
}

#[test]
fn string_operand_always_faults() {
    let s = Evaluated::StringRef("abc");
    let n = num("3");
    let lit = Evaluated::LiteralRef(&n);
    assert_eq!(s.add(&lit).unwrap_err(), EvaluateError::UnreachableEvaluatedArithmetic);
    assert_eq!(s.subtract(&lit).unwrap_err(), EvaluateError::UnreachableEvaluatedArithmetic);
    assert_eq!(lit.multiply(&s).unwrap_err(), EvaluateError::UnreachableEvaluatedArithmetic);
    assert_eq!(lit.divide(&s).unwrap_err(), EvaluateError::UnreachableEvaluatedArithmetic);
    let t = Evaluated::StringRef("xyz");
    assert_eq!(s.add(&t).unwrap_err(), EvaluateError::UnreachableEvaluatedArithmetic);
}

#[test]
fn non_numeric_literal_pairing_is_recoverable() {
    let n = num("3");
    let q = quoted("abc");
    let r = Evaluated::LiteralRef(&n).add(&Evaluated::LiteralRef(&q));
    assert_eq!(r.unwrap_err(), EvaluateError::UnreachableLiteralArithmetic);
    let bad = num("3.5");
    let r = Evaluated::LiteralRef(&bad).add(&Evaluated::LiteralRef(&n));
    assert_eq!(r.unwrap_err(), EvaluateError::UnreachableLiteralArithmetic);
}

#[test]
fn overflow_is_reported() {
    let max = num("9223372036854775807");
    let one = num("1");
    let r = Evaluated::LiteralRef(&max).add(&Evaluated::LiteralRef(&one));
    assert_eq!(r.unwrap_err(), EvaluateError::NumericOverflow);
    let min = num("-9223372036854775808");
    let minus_one = num("-1");
    let r = Evaluated::LiteralRef(&min).divide(&Evaluated::LiteralRef(&minus_one));
    assert_eq!(r.unwrap_err(), EvaluateError::NumericOverflow);
}

#[test]
fn coercion_failures_propagate() {
    let t = text_value("abc");
    let n = num("3");
    let val = Evaluated::ValueRef(&t);
    let lit = Evaluated::LiteralRef(&n);
    assert_eq!(val.add(&lit).unwrap_err(), EvaluateError::LiteralCoercionFailed);
    let i = int_value(3);
    let q = quoted("abc");
    let r = Evaluated::ValueRef(&i).add(&Evaluated::LiteralRef(&q));
    assert_eq!(r.unwrap_err(), EvaluateError::LiteralCoercionFailed);
}

#[test]
fn text_values_refuse_arithmetic() {
    let a = text_value("ab");
    let b = text_value("cd");
    let r = Evaluated::ValueRef(&a).add(&Evaluated::ValueRef(&b));
    assert_eq!(r.unwrap_err(), EvaluateError::NonNumericArithmetic);
}

#[test]
fn coercion_agrees_with_typed_arithmetic() {
    let four = num("4");
    let five = int_value(5);
    let lit = Evaluated::LiteralRef(&four);
    let val = Evaluated::ValueRef(&five);
    // literal beside a typed peer: coerced, typed domain operates
    expect_owned_integer(lit.add(&val), 9);
    expect_owned_integer(lit.subtract(&val), -1);
    expect_owned_integer(val.subtract(&lit), 1);
    // materializing the literal first gives the same numbers
    let materialized = int_value(4);
    let m = Evaluated::ValueRef(&materialized);
    expect_owned_integer(m.add(&val), 9);
    expect_owned_integer(m.subtract(&val), -1);
    expect_owned_integer(val.subtract(&m), 1);
}

#[test]
fn end_to_end_literal_expression() {
    // 1 + 2 * 3 over un-typed numeric literals
    let one = num("1");
    let two = num("2");
    let three = num("3");
    let product = Evaluated::LiteralRef(&two)
        .multiply(&Evaluated::LiteralRef(&three))
        .unwrap();
    match &product {
        Evaluated::Literal(Literal::Number(s)) => assert_eq!(s, "6"),
        _ => panic!("multiplication of two literals must stay a literal"),
    }
    let sum = Evaluated::LiteralRef(&one).add(&product).unwrap();
    match &sum {
        Evaluated::Literal(Literal::Number(s)) => assert_eq!(s, "7"),
        _ => panic!("addition of two literals must stay a literal"),
    }
}

#[test]
fn signed_literal_text_parses() {
    let plus = num("+4");
    let four = num("4");
    assert_eq!(
        Evaluated::LiteralRef(&plus).compare(&Evaluated::LiteralRef(&four)),
        Some(std::cmp::Ordering::Equal)
    );
    let min = num("-9223372036854775808");
    let zero = num("0");
    expect_owned_number(
        Evaluated::LiteralRef(&min).add(&Evaluated::LiteralRef(&zero)),
        "-9223372036854775808",
    );
}

#[test]
fn string_text_against_text_value_ordering() {
    let t = text_value("beta");
    let s = Evaluated::StringRef("alpha");
    let val = Evaluated::ValueRef(&t);
    assert_eq!(s.compare(&val), Some(std::cmp::Ordering::Less));
    assert_eq!(val.compare(&s), Some(std::cmp::Ordering::Greater));
    let i = int_value(1);
    let iv = Evaluated::ValueRef(&i);
    assert_eq!(s.compare(&iv), None);
    assert_eq!(iv.compare(&s), None);
}
