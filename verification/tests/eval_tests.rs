use treelox::evaluate::RunResult;
use treelox::evaluate::run_source;

fn run(src: &str) -> RunResult {
    run_source(String::from(src), u64::MAX)
}

fn lines(src: &str) -> Vec<String> {
    match run(src) {
        RunResult::Finished(out) => out,
        RunResult::Runtime(_, e) => panic!("runtime error: {}", e.err),
        RunResult::Syntax(e) => panic!("syntax error: {}", e.err),
        RunResult::Lexical(_) => panic!("lexical errors"),
    }
}

fn runtime_err(src: &str) -> (Vec<String>, String) {
    match run(src) {
        RunResult::Runtime(out, e) => (out, e.err),
        other => panic!("expected a runtime error, got {:?}", kind(&other)),
    }
}

fn kind(r: &RunResult) -> &'static str {
    match r {
        RunResult::Lexical(_) => "lexical",
        RunResult::Syntax(_) => "syntax",
        RunResult::Runtime(_, _) => "runtime",
        RunResult::Finished(_) => "finished",
    }
}

#[test]
fn subtraction_is_left_associative() {
    assert_eq!(lines("print 1 - 2 - 3;"), vec![String::from("-4")]);
}

#[test]
fn grouping_overrides_associativity() {
    assert_eq!(lines("print 2 - (3 - 4);"), vec![String::from("3")]);
}

#[test]
fn division_and_precedence() {
    assert_eq!(lines("print 7 / 2;"), vec![String::from("3")]);
    assert_eq!(lines("print 1 + 2 * 3;"), vec![String::from("7")]);
}

#[test]
fn division_by_zero_is_a_runtime_error() {
    let (_, e) = runtime_err("print 1 / 0;");
    assert_eq!(e, "division by zero.");
}

#[test]
fn addition_overflow_is_a_runtime_error() {
    let (_, e) = runtime_err("print 9223372036854775807 + 1;");
    assert_eq!(e, "numeric overflow.");
}

#[test]
fn string_concatenation() {
    assert_eq!(lines("print \"a\" + \"b\";"), vec![String::from("ab")]);
}

#[test]
fn string_plus_number_is_a_runtime_error() {
    let (_, e) = runtime_err("print \"a\" + 1;");
    assert_eq!(e, "Operands must be two numbers or two strings.");
}

#[test]
fn comparison_needs_numbers() {
    assert_eq!(lines("print 1 < 2;"), vec![String::from("true")]);
    let (_, e) = runtime_err("print \"a\" < \"b\";");
    assert_eq!(e, "Operands must be numbers.");
}

#[test]
fn equality_is_structural_and_never_fails() {
    assert_eq!(lines("print 1 == 1;"), vec![String::from("true")]);
    assert_eq!(lines("print 1 == \"1\";"), vec![String::from("false")]);
    assert_eq!(lines("print nil == nil;"), vec![String::from("true")]);
    assert_eq!(lines("print 1 != 2;"), vec![String::from("true")]);
}

#[test]
fn bang_nil_is_true() {
    assert_eq!(lines("print !nil;"), vec![String::from("true")]);
}

#[test]
fn bang_zero_is_false_because_zero_is_truthy() {
    assert_eq!(lines("print !0;"), vec![String::from("false")]);
}

#[test]
fn zero_is_truthy_in_conditions() {
    assert_eq!(lines("if (0) print 1; else print 2;"), vec![String::from("1")]);
}

#[test]
fn empty_string_is_truthy() {
    assert_eq!(lines("if (\"\") print 1; else print 2;"), vec![String::from("1")]);
}

#[test]
fn unary_minus_needs_a_number() {
    assert_eq!(lines("print -5;"), vec![String::from("-5")]);
    assert_eq!(lines("print - - 5;"), vec![String::from("5")]);
    let (_, e) = runtime_err("print -\"a\";");
    assert_eq!(e, "Operand must be a number");
}

#[test]
fn logical_operators_return_an_operand() {
    assert_eq!(lines("print 1 and 2;"), vec![String::from("2")]);
    assert_eq!(lines("print nil or 3;"), vec![String::from("3")]);
    assert_eq!(lines("print false or nil;"), vec![String::from("nil")]);
}

#[test]
fn logical_operators_short_circuit() {
    // the right operand is unbound: it must not be evaluated
    assert_eq!(lines("print false and missing;"), vec![String::from("false")]);
    assert_eq!(lines("print 1 or missing;"), vec![String::from("1")]);
}

#[test]
fn block_scope_is_not_visible_after_the_block() {
    let (out, e) = runtime_err("{ var x = 1; } print x;");
    assert_eq!(out, Vec::<String>::new());
    assert_eq!(e, "unbound variable x");
}

#[test]
fn shadowing_restores_the_outer_binding() {
    assert_eq!(
        lines("var x = 1; { var x = 2; print x; } print x;"),
        vec![String::from("2"), String::from("1")]
    );
}

#[test]
fn assignment_writes_the_nearest_scope() {
    assert_eq!(
        lines("var x = 1; { x = 2; } print x;"),
        vec![String::from("2")]
    );
}

#[test]
fn assignment_to_unbound_name_fails() {
    let (_, e) = runtime_err("y = 1;");
    assert_eq!(e, "unbound variable y");
}

#[test]
fn var_without_initializer_is_nil() {
    assert_eq!(lines("var x; print x;"), vec![String::from("nil")]);
}

#[test]
fn closure_retains_outer_locals_and_shares_mutation() {
    let src = "\
        fun counter() { var n = 0; fun inc() { n = n + 1; return n; } return inc; }\n\
        var c = counter();\n\
        print c();\n\
        print c();\n\
        var d = counter();\n\
        print d();\n";
    assert_eq!(
        lines(src),
        vec![String::from("1"), String::from("2"), String::from("1")]
    );
}

#[test]
fn return_stops_the_function_body() {
    assert_eq!(
        lines("fun f() { return 5; print 1; } print f();"),
        vec![String::from("5")]
    );
}

#[test]
fn return_propagates_out_of_loops() {
    let src = "fun f() { var i = 0; while (true) { i = i + 1; if (i == 3) return i; } } print f();";
    assert_eq!(lines(src), vec![String::from("3")]);
}

#[test]
fn function_without_return_yields_nil() {
    assert_eq!(lines("fun f() { 1 + 1; } print f();"), vec![String::from("nil")]);
}

#[test]
fn for_loop_matches_unrolled_while() {
    let with_for = lines("for (var i = 0; i < 3; i = i + 1) print i;");
    let with_while = lines("{ var i = 0; while (i < 3) { print i; i = i + 1; } }");
    assert_eq!(with_for, with_while);
    assert_eq!(
        with_for,
        vec![String::from("0"), String::from("1"), String::from("2")]
    );
}

#[test]
fn arity_mismatch_too_few() {
    let (_, e) = runtime_err("fun f(a, b) { return a; } f(1);");
    assert_eq!(e, "Expect 2 arguments but got 1.");
}

#[test]
fn arity_mismatch_too_many() {
    let (_, e) = runtime_err("fun f(a, b) { return a; } f(1, 2, 3);");
    assert_eq!(e, "Expect 2 arguments but got 3.");
}

#[test]
fn calling_a_non_function_fails() {
    let (_, e) = runtime_err("var x = 1; x();");
    assert_eq!(e, "Can only call functions and classes.");
}

#[test]
fn class_declarations_are_not_supported() {
    let (_, e) = runtime_err("class A {}");
    assert_eq!(e, "class declarations are not supported.");
}

#[test]
fn printed_value_forms() {
    assert_eq!(lines("fun f() {} print f;"), vec![String::from("<fn f>")]);
    assert_eq!(lines("print this;"), vec![String::from("<obj this>")]);
    assert_eq!(lines("print true;"), vec![String::from("true")]);
    assert_eq!(lines("print nil;"), vec![String::from("nil")]);
}

#[test]
fn print_yields_its_value() {
    // print is also an expression statement value; chained through a variable
    assert_eq!(lines("var x = 0; x = 1; print x;"), vec![String::from("1")]);
}

#[test]
fn runtime_error_keeps_earlier_output() {
    let (out, e) = runtime_err("print 1; print missing;");
    assert_eq!(out, vec![String::from("1")]);
    assert_eq!(e, "unbound variable missing");
}

#[test]
fn lexical_errors_skip_later_phases() {
    match run("print 1; @") {
        RunResult::Lexical(es) => {
            assert_eq!(es.len(), 1);
            assert_eq!(es[0].tok, "Unexpected character: @");
        },
        other => panic!("expected lexical errors, got {}", kind(&other)),
    }
}

#[test]
fn fractional_literal_keeps_integer_part() {
    assert_eq!(lines("print 2.75;"), vec![String::from("2")]);
    assert_eq!(lines("print 1.5 + 1;"), vec![String::from("2")]);
}

#[test]
fn nested_call_chains() {
    let src = "fun add(a) { fun inner(b) { return a + b; } return inner; } print add(2)(3);";
    assert_eq!(lines(src), vec![String::from("5")]);
}
