use treelox::ast::Program;
use treelox::display::indent;
use treelox::parse::Parser;
use treelox::scan::Scanner;
use treelox::token::Token;
use treelox::token::int_to_string;

fn tokens(src: &str) -> Vec<Token> {
    let mut sc = Scanner::new(String::from(src));
    sc.scan();
    assert!(sc.errors.is_empty());
    sc.tokens
}

fn parse_ok(src: &str) -> Program {
    match Program::parse(&tokens(src)) {
        Ok(p) => p,
        Err(e) => panic!("syntax error: {} at '{}'", e.err, e.tok.lexeme),
    }
}

fn parse_err(src: &str) -> (String, String) {
    match Program::parse(&tokens(src)) {
        Ok(_) => panic!("expected a syntax error"),
        Err(e) => (e.err, e.tok.lexeme),
    }
}

#[test]
fn arithmetic_parses_with_first_operand_innermost() {
    let p = parse_ok("1 - 2 - 3;");
    assert_eq!(p.render(), "(- (- 1.0 2.0) 3.0);\n");
}

#[test]
fn precedence_of_factor_over_term() {
    let p = parse_ok("1 + 2 * 3;");
    assert_eq!(p.render(), "(+ 1.0 (* 2.0 3.0));\n");
}

#[test]
fn grouping_renders_as_group() {
    let p = parse_ok("(1 + 2) * 3;");
    assert_eq!(p.render(), "(* (group (+ 1.0 2.0)) 3.0);\n");
}

#[test]
fn unary_chain_is_right_associative() {
    let p = parse_ok("- - 1;");
    assert_eq!(p.render(), "(- (- 1.0));\n");
}

#[test]
fn comparison_and_equality_render() {
    let p = parse_ok("1 < 2 == true;");
    assert_eq!(p.render(), "(== (< 1.0 2.0) true);\n");
}

#[test]
fn call_chain_renders_left_to_right() {
    let p = parse_ok("f(1)(2).g;");
    assert_eq!(p.render(), "f(1.0)(2.0).g;\n");
}

#[test]
fn assignment_target_must_be_an_identifier() {
    // the assignment alternative itself reports the offending token and
    // the message the grammar demands
    let toks = tokens("1 = 2;");
    match treelox::ast::Assignment::parse_ass(&toks, 0) {
        Ok(_) => panic!("expected the assignment alternative to fail"),
        Err(e) => {
            assert_eq!(e.err, "Expect identifier");
            assert_eq!(e.tok.lexeme, "1");
        }
    }
    // the program as a whole is then a syntax error
    let (msg, lexeme) = parse_err("1 = 2;");
    assert_eq!(msg, "Expect '{' before block.");
    assert_eq!(lexeme, "1");
}

#[test]
fn identifier_rooted_targets_still_parse() {
    let p = parse_ok("o.x = 1;");
    assert_eq!(p.render(), "o.x = 1.0;
");
}

#[test]
fn assignment_renders() {
    let p = parse_ok("x = 1;");
    assert_eq!(p.render(), "x = 1.0;\n");
}

#[test]
fn var_declaration_renders() {
    let p = parse_ok("var x = 1;");
    assert_eq!(p.render(), "var x = 1.0;\n\n");
}

#[test]
fn missing_semicolon_is_reported() {
    // the declaration alternatives all fail, so the error of the last
    // alternative (a block) surfaces, at the first token of the statement
    let (msg, lexeme) = parse_err("print 1");
    assert_eq!(msg, "Expect '{' before block.");
    assert_eq!(lexeme, "print");
}

#[test]
fn missing_var_name_is_reported() {
    let (msg, lexeme) = parse_err("var ;");
    assert_eq!(msg, "Expect '{' before block.");
    assert_eq!(lexeme, "var");
}

#[test]
fn dangling_operator_is_reported() {
    let (msg, lexeme) = parse_err("1 + ;");
    assert_eq!(msg, "Expect '{' before block.");
    assert_eq!(lexeme, "1");
}

#[test]
fn if_else_parses_and_renders() {
    let p = parse_ok("if (x) print 1; else print 2;");
    assert_eq!(p.render(), "if (x) \n\tprint 1.0;else \n\t print 2.0;\n");
}

#[test]
fn while_parses_and_renders() {
    let p = parse_ok("while (x) print 1;");
    assert_eq!(p.render(), "while (x) \n\tprint 1.0;\n");
}

#[test]
fn block_renders_with_indentation() {
    let p = parse_ok("{ print 1; print 2; }");
    assert_eq!(p.render(), "{\n\tprint 1.0;\n\tprint 2.0;\n}\n");
}

#[test]
fn function_declaration_parses() {
    // the parameter chain stores the last name outermost, and the
    // rendering follows the storage
    let p = parse_ok("fun f(a, b) { return a; }");
    assert_eq!(p.render(), "fun f(b, a) {\n\treturn a;\n}\n");
}

#[test]
fn parser_object_stores_the_program() {
    let mut parser = Parser::new(tokens("print 1;"));
    assert!(parser.parse().is_ok());
    assert!(parser.program.is_some());
}

#[test]
fn parser_object_keeps_error() {
    let mut parser = Parser::new(tokens("var ;"));
    assert!(parser.parse().is_err());
    assert!(parser.program.is_none());
}

#[test]
fn indent_adds_a_tab_after_every_newline() {
    assert_eq!(indent(String::from("a\nb\nc")), "a\n\tb\n\tc");
    assert_eq!(indent(String::from("plain")), "plain");
    assert_eq!(indent(String::from("")), "");
}

#[test]
fn integers_render_in_decimal() {
    assert_eq!(int_to_string(0), "0");
    assert_eq!(int_to_string(-5), "-5");
    assert_eq!(int_to_string(9223372036854775807), "9223372036854775807");
    assert_eq!(int_to_string(i64::MIN), "-9223372036854775808");
}
