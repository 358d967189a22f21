use treelox::evaluate::RunResult;
use treelox::evaluate::run_source;
use treelox::object::Object;
use treelox::object::render_object;
use treelox::object::truthy;
use treelox::object::values_equal;
use treelox::token::Literal;
use treelox::token::TokenType;
use treelox::token::keyword_type;

fn runtime_msg(src: &str, fuel: u64) -> String {
    match run_source(String::from(src), fuel) {
        RunResult::Runtime(_, e) => e.err,
        _ => panic!("expected a runtime error"),
    }
}

#[test]
fn truthiness_of_values() {
    assert!(truthy(&Object::Number(0)));
    assert!(truthy(&Object::String(String::new())));
    assert!(truthy(&Object::Boolean(true)));
    assert!(!truthy(&Object::Boolean(false)));
    assert!(!truthy(&Object::Nil));
}

#[test]
fn value_equality_is_structural_and_variant_strict() {
    assert!(values_equal(&Object::Number(3), &Object::Number(3)));
    assert!(!values_equal(&Object::Number(3), &Object::Number(4)));
    assert!(values_equal(
        &Object::String(String::from("a")),
        &Object::String(String::from("a"))
    ));
    assert!(!values_equal(&Object::Number(1), &Object::Boolean(true)));
    assert!(values_equal(&Object::Nil, &Object::Nil));
    assert!(!values_equal(&Object::Nil, &Object::Boolean(false)));
}

#[test]
fn value_rendering() {
    assert_eq!(render_object(&Object::Number(-7)), "-7");
    assert_eq!(render_object(&Object::String(String::from("hi"))), "hi");
    assert_eq!(render_object(&Object::Boolean(false)), "false");
    assert_eq!(render_object(&Object::Nil), "nil");
}

#[test]
fn object_getters() {
    assert_eq!(Object::Number(5).get_number(), Some(5));
    assert_eq!(Object::Nil.get_number(), None);
    assert_eq!(Object::String(String::from("s")).get_string(), Some(String::from("s")));
    assert_eq!(Object::Boolean(true).get_bool(), Some(true));
    assert!(Object::Nil.get_function().is_none());
    assert!(Object::Nil.get_object().is_none());
}

#[test]
fn keyword_classification() {
    assert_eq!(keyword_type(&String::from("while")), TokenType::While);
    assert_eq!(keyword_type(&String::from("nil")), TokenType::Nil);
    assert_eq!(keyword_type(&String::from("whilst")), TokenType::Identifier);
}

#[test]
fn literal_rendering() {
    assert_eq!(Literal::Null.render(), "null");
    assert_eq!(Literal::Number(3).render(), "3.0");
    assert_eq!(Literal::String(String::from("x")).render(), "x");
    assert_eq!(TokenType::LeftBrace.render(), "LEFT_BRACE");
}

#[test]
fn property_write_and_read_through_an_instance() {
    // the write path needs an identifier-rooted chain; `this` itself is
    // not an assignable target
    let src = "var o = this; o.x = 5; print o.x;";
    match run_source(String::from(src), u64::MAX) {
        RunResult::Finished(out) => assert_eq!(out, vec![String::from("5")]),
        _ => panic!("expected the run to finish"),
    }
}

#[test]
fn this_is_not_an_assignable_target() {
    // a target not rooted in an identifier is rejected at parse time, so
    // the whole run ends as a syntax error, not a runtime error
    match run_source(String::from("this.x = 5;"), u64::MAX) {
        RunResult::Syntax(_) => {},
        _ => panic!("expected a syntax error"),
    }
}

#[test]
fn non_identifier_assignment_target_is_a_syntax_error() {
    match run_source(String::from("1 = 2;"), u64::MAX) {
        RunResult::Syntax(_) => {},
        _ => panic!("expected a syntax error"),
    }
    match run_source(String::from("(x) = 2;"), u64::MAX) {
        RunResult::Syntax(_) => {},
        _ => panic!("expected a syntax error"),
    }
}

#[test]
fn property_read_of_missing_name() {
    assert_eq!(runtime_msg("print this.missing;", u64::MAX), "unbound variable");
}

#[test]
fn property_access_on_a_non_object() {
    assert_eq!(
        runtime_msg("var x = 1; print x.y;", u64::MAX),
        "Can only call methods on objects."
    );
}

#[test]
fn assignment_to_a_call_is_rejected() {
    assert_eq!(
        runtime_msg("var x = 1; x() = 2;", u64::MAX),
        "cannot assign to function calls"
    );
}

#[test]
fn field_write_on_a_non_object() {
    assert_eq!(
        runtime_msg("var x = 1; x.f = 2;", u64::MAX),
        "method only allowed for objects."
    );
}

#[test]
fn super_is_a_runtime_error() {
    assert_eq!(runtime_msg("print super.x;", u64::MAX), "super is not supported.");
}

#[test]
fn runaway_recursion_exhausts_the_fuel_budget() {
    assert_eq!(
        runtime_msg("fun f() { return f(); } f();", 50),
        "Stack overflow."
    );
}

#[test]
fn runaway_loop_exhausts_the_fuel_budget() {
    assert_eq!(runtime_msg("while (true) 1;", 50), "Stack overflow.");
}
