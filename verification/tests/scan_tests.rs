use treelox::scan::Scanner;
use treelox::token::TokenType;

fn scan(src: &str) -> Scanner {
    let mut sc = Scanner::new(String::from(src));
    sc.scan();
    sc
}

fn kinds(sc: &Scanner) -> Vec<TokenType> {
    sc.tokens.iter().map(|t| t.token_type).collect()
}

#[test]
fn single_and_double_character_tokens() {
    let sc = scan("(){},.-+;*/ == != <= >= = ! < >");
    assert_eq!(
        kinds(&sc),
        vec![
            TokenType::LeftParen,
            TokenType::RightParen,
            TokenType::LeftBrace,
            TokenType::RightBrace,
            TokenType::Comma,
            TokenType::Dot,
            TokenType::Minus,
            TokenType::Plus,
            TokenType::Semicolon,
            TokenType::Star,
            TokenType::Slash,
            TokenType::EqualEqual,
            TokenType::BangEqual,
            TokenType::LessEqual,
            TokenType::GreaterEqual,
            TokenType::Equal,
            TokenType::Bang,
            TokenType::Less,
            TokenType::Greater,
            TokenType::Eof,
        ]
    );
    assert!(sc.errors.is_empty());
}

#[test]
fn keywords_and_identifiers() {
    let sc = scan("var x = while_y and or");
    assert_eq!(
        kinds(&sc),
        vec![
            TokenType::Var,
            TokenType::Identifier,
            TokenType::Equal,
            TokenType::Identifier,
            TokenType::And,
            TokenType::Or,
            TokenType::Eof,
        ]
    );
    assert_eq!(sc.tokens[3].lexeme, "while_y");
}

#[test]
fn number_lexeme_keeps_fraction_but_value_is_integer_part() {
    let sc = scan("12.5");
    assert_eq!(sc.tokens[0].lexeme, "12.5");
    assert_eq!(sc.tokens[0].literal.get_number(), Some(12));
}

#[test]
fn huge_number_saturates() {
    let sc = scan("99999999999999999999");
    assert_eq!(sc.tokens[0].literal.get_number(), Some(i64::MAX));
}

#[test]
fn string_literal_keeps_quotes_in_lexeme() {
    let sc = scan("\"hi there\"");
    assert_eq!(sc.tokens[0].lexeme, "\"hi there\"");
    assert_eq!(sc.tokens[0].literal.get_string(), Some(String::from("hi there")));
    assert_eq!(sc.tokens[0].token_type, TokenType::String);
}

#[test]
fn comments_and_newlines_produce_no_tokens() {
    let sc = scan("// nothing here\n1 // trailing\n2");
    assert_eq!(
        kinds(&sc),
        vec![TokenType::Number, TokenType::Number, TokenType::Eof]
    );
    assert_eq!(sc.tokens[0].line, 2);
    assert_eq!(sc.tokens[1].line, 3);
}

#[test]
fn unterminated_string_is_exactly_one_error_and_scanning_ends() {
    let sc = scan("\"abc");
    assert_eq!(sc.errors.len(), 1);
    assert_eq!(sc.errors[0].tok, "Unterminated string.");
    assert_eq!(kinds(&sc), vec![TokenType::Eof]);
}

#[test]
fn unexpected_character_does_not_stop_the_scan() {
    let sc = scan("1 @ 2");
    assert_eq!(sc.errors.len(), 1);
    assert_eq!(sc.errors[0].tok, "Unexpected character: @");
    assert_eq!(
        kinds(&sc),
        vec![TokenType::Number, TokenType::Number, TokenType::Eof]
    );
}

#[test]
fn reassembled_lexemes_reproduce_significant_characters() {
    let src = "var x = 12; // note\nprint \"a b\" + x;";
    let sc = scan(src);
    let mut joined = String::new();
    for t in sc.tokens.iter() {
        joined.push_str(&t.lexeme);
    }
    assert_eq!(joined, "varx=12;print\"a b\"+x;");
}

#[test]
fn token_render_form() {
    let sc = scan("( x 12 \"s\"");
    assert_eq!(sc.tokens[0].render(), "LEFT_PAREN ( null");
    assert_eq!(sc.tokens[1].render(), "IDENTIFIER x null");
    assert_eq!(sc.tokens[2].render(), "NUMBER 12 12.0");
    assert_eq!(sc.tokens[3].render(), "STRING \"s\" s");
    assert_eq!(sc.tokens[4].render(), "EOF  null");
}

#[test]
fn scan_always_ends_with_eof() {
    assert_eq!(kinds(&scan("")), vec![TokenType::Eof]);
    assert_eq!(scan("").tokens[0].line, 1);
}
