//! The token model: token kinds, literal values and source position.
//!
//! A token carries the exact lexeme it was scanned from, so that the token
//! sequence of a clean scan reproduces the significant characters of the
//! input. The diagnostic rendering of a token is the line-oriented form
//! `<KIND> <lexeme> <literal-or-'null'>`.

use vstd::prelude::*;
use vstd::string::StrSliceExecFns;
use vstd::string::StringExecFns;

verus! {

/// The kind of a token: single- and double-character punctuation, the three
/// literal shapes, the keywords, and the end marker that closes every scan.
#[derive(Clone, Copy, Debug, PartialEq, Eq, Structural)]
pub enum TokenType {
    LeftParen,
    RightParen,
    LeftBrace,
    RightBrace,
    Comma,
    Dot,
    Minus,
    Plus,
    Semicolon,
    Slash,
    Star,
    Bang,
    BangEqual,
    Equal,
    EqualEqual,
    Greater,
    GreaterEqual,
    Less,
    LessEqual,
    Identifier,
    String,
    Number,
    And,
    Class,
    Else,
    False,
    Fun,
    For,
    If,
    Nil,
    Or,
    Print,
    Return,
    Super,
    This,
    True,
    Var,
    While,
    Eof,
}

/// The diagnostic name of a token kind, as it appears in the line-oriented
/// token listing.
pub open spec fn spec_kind_name(t: TokenType) -> Seq<char> {
    match t {
        TokenType::LeftParen => "LEFT_PAREN"@,
        TokenType::RightParen => "RIGHT_PAREN"@,
        TokenType::LeftBrace => "LEFT_BRACE"@,
        TokenType::RightBrace => "RIGHT_BRACE"@,
        TokenType::Comma => "COMMA"@,
        TokenType::Dot => "DOT"@,
        TokenType::Minus => "MINUS"@,
        TokenType::Plus => "PLUS"@,
        TokenType::Semicolon => "SEMICOLON"@,
        TokenType::Slash => "SLASH"@,
        TokenType::Star => "STAR"@,
        TokenType::Bang => "BANG"@,
        TokenType::BangEqual => "BANG_EQUAL"@,
        TokenType::Equal => "EQUAL"@,
        TokenType::EqualEqual => "EQUAL_EQUAL"@,
        TokenType::Greater => "GREATER"@,
        TokenType::GreaterEqual => "GREATER_EQUAL"@,
        TokenType::Less => "LESS"@,
        TokenType::LessEqual => "LESS_EQUAL"@,
        TokenType::Identifier => "IDENTIFIER"@,
        TokenType::String => "STRING"@,
        TokenType::Number => "NUMBER"@,
        TokenType::And => "AND"@,
        TokenType::Class => "CLASS"@,
        TokenType::Else => "ELSE"@,
        TokenType::False => "FALSE"@,
        TokenType::Fun => "FUN"@,
        TokenType::For => "FOR"@,
        TokenType::If => "IF"@,
        TokenType::Nil => "NIL"@,
        TokenType::Or => "OR"@,
        TokenType::Print => "PRINT"@,
        TokenType::Return => "RETURN"@,
        TokenType::Super => "SUPER"@,
        TokenType::This => "THIS"@,
        TokenType::True => "TRUE"@,
        TokenType::Var => "VAR"@,
        TokenType::While => "WHILE"@,
        TokenType::Eof => "EOF"@,
    }
}

impl TokenType {
    /// The diagnostic name of this kind.
    pub fn render(&self) -> (r: String)
        ensures
            r@ == spec_kind_name(*self),
    {
        match self {
            TokenType::LeftParen => String::from_str("LEFT_PAREN"),
            TokenType::RightParen => String::from_str("RIGHT_PAREN"),
            TokenType::LeftBrace => String::from_str("LEFT_BRACE"),
            TokenType::RightBrace => String::from_str("RIGHT_BRACE"),
            TokenType::Comma => String::from_str("COMMA"),
            TokenType::Dot => String::from_str("DOT"),
            TokenType::Minus => String::from_str("MINUS"),
            TokenType::Plus => String::from_str("PLUS"),
            TokenType::Semicolon => String::from_str("SEMICOLON"),
            TokenType::Slash => String::from_str("SLASH"),
            TokenType::Star => String::from_str("STAR"),
            TokenType::Bang => String::from_str("BANG"),
            TokenType::BangEqual => String::from_str("BANG_EQUAL"),
            TokenType::Equal => String::from_str("EQUAL"),
            TokenType::EqualEqual => String::from_str("EQUAL_EQUAL"),
            TokenType::Greater => String::from_str("GREATER"),
            TokenType::GreaterEqual => String::from_str("GREATER_EQUAL"),
            TokenType::Less => String::from_str("LESS"),
            TokenType::LessEqual => String::from_str("LESS_EQUAL"),
            TokenType::Identifier => String::from_str("IDENTIFIER"),
            TokenType::String => String::from_str("STRING"),
            TokenType::Number => String::from_str("NUMBER"),
            TokenType::And => String::from_str("AND"),
            TokenType::Class => String::from_str("CLASS"),
            TokenType::Else => String::from_str("ELSE"),
            TokenType::False => String::from_str("FALSE"),
            TokenType::Fun => String::from_str("FUN"),
            TokenType::For => String::from_str("FOR"),
            TokenType::If => String::from_str("IF"),
            TokenType::Nil => String::from_str("NIL"),
            TokenType::Or => String::from_str("OR"),
            TokenType::Print => String::from_str("PRINT"),
            TokenType::Return => String::from_str("RETURN"),
            TokenType::Super => String::from_str("SUPER"),
            TokenType::This => String::from_str("THIS"),
            TokenType::True => String::from_str("TRUE"),
            TokenType::Var => String::from_str("VAR"),
            TokenType::While => String::from_str("WHILE"),
            TokenType::Eof => String::from_str("EOF"),
        }
    }
}

/// The keyword table: an identifier-shaped lexeme with one of these spellings
/// is a keyword token, everything else is an `Identifier`.
pub open spec fn spec_keyword(s: Seq<char>) -> TokenType {
    if s == "and"@ {
        TokenType::And
    } else if s == "class"@ {
        TokenType::Class
    } else if s == "else"@ {
        TokenType::Else
    } else if s == "false"@ {
        TokenType::False
    } else if s == "for"@ {
        TokenType::For
    } else if s == "fun"@ {
        TokenType::Fun
    } else if s == "if"@ {
        TokenType::If
    } else if s == "nil"@ {
        TokenType::Nil
    } else if s == "or"@ {
        TokenType::Or
    } else if s == "print"@ {
        TokenType::Print
    } else if s == "return"@ {
        TokenType::Return
    } else if s == "super"@ {
        TokenType::Super
    } else if s == "this"@ {
        TokenType::This
    } else if s == "true"@ {
        TokenType::True
    } else if s == "var"@ {
        TokenType::Var
    } else if s == "while"@ {
        TokenType::While
    } else {
        TokenType::Identifier
    }
}

/// Classifies an identifier-shaped lexeme against the keyword table.
pub fn keyword_type(id: &String) -> (t: TokenType)
    ensures
        t == spec_keyword(id@),
{
    if *id == String::from_str("and") {
        TokenType::And
    } else if *id == String::from_str("class") {
        TokenType::Class
    } else if *id == String::from_str("else") {
        TokenType::Else
    } else if *id == String::from_str("false") {
        TokenType::False
    } else if *id == String::from_str("for") {
        TokenType::For
    } else if *id == String::from_str("fun") {
        TokenType::Fun
    } else if *id == String::from_str("if") {
        TokenType::If
    } else if *id == String::from_str("nil") {
        TokenType::Nil
    } else if *id == String::from_str("or") {
        TokenType::Or
    } else if *id == String::from_str("print") {
        TokenType::Print
    } else if *id == String::from_str("return") {
        TokenType::Return
    } else if *id == String::from_str("super") {
        TokenType::Super
    } else if *id == String::from_str("this") {
        TokenType::This
    } else if *id == String::from_str("true") {
        TokenType::True
    } else if *id == String::from_str("var") {
        TokenType::Var
    } else if *id == String::from_str("while") {
        TokenType::While
    } else {
        TokenType::Identifier
    }
}

/// The mathematical value of a literal.
pub enum LitV {
    Null,
    Str(Seq<char>),
    Num(i64),
}

/// The literal payload of a token.
///
/// The numeric domain of the interpreter is 64-bit signed integers: the
/// value of a numeric literal is its integer part, saturated to the `i64`
/// range. The fractional digits, if any, survive only in the lexeme.
pub enum Literal {
    Null,
    String(String),
    Number(i64),
}

impl View for Literal {
    type V = LitV;

    open spec fn view(&self) -> LitV {
        match self {
            Literal::Null => LitV::Null,
            Literal::String(s) => LitV::Str(s@),
            Literal::Number(n) => LitV::Num(*n),
        }
    }
}

impl Literal {
    /// The string payload, if this literal is a string.
    pub fn get_string(&self) -> (r: Option<String>)
        ensures
            match self@ {
                LitV::Str(s) => r is Some && r->0@ == s,
                _ => r is None,
            },
    {
        match self {
            Literal::String(s) => Some(s.clone()),
            _ => None,
        }
    }

    /// The numeric payload, if this literal is a number.
    pub fn get_number(&self) -> (r: Option<i64>)
        ensures
            match self@ {
                LitV::Num(n) => r == Some(n),
                _ => r is None,
            },
    {
        match self {
            Literal::Number(n) => Some(*n),
            _ => None,
        }
    }

    /// An exact structural copy.
    pub fn clone_lit(&self) -> (r: Literal)
        ensures
            r@ == self@,
    {
        match self {
            Literal::Null => Literal::Null,
            Literal::String(s) => Literal::String(s.clone()),
            Literal::Number(n) => Literal::Number(*n),
        }
    }
}

/// The decimal digit character of `d`.
pub open spec fn spec_digit_char(d: int) -> char {
    if d == 0 {
        '0'
    } else if d == 1 {
        '1'
    } else if d == 2 {
        '2'
    } else if d == 3 {
        '3'
    } else if d == 4 {
        '4'
    } else if d == 5 {
        '5'
    } else if d == 6 {
        '6'
    } else if d == 7 {
        '7'
    } else if d == 8 {
        '8'
    } else {
        '9'
    }
}

/// The decimal digit sequence of a natural number, most significant first.
pub open spec fn spec_nat_digits(n: int) -> Seq<char>
    decreases n,
{
    if n < 10 {
        seq![spec_digit_char(n)]
    } else {
        spec_nat_digits(n / 10).push(spec_digit_char(n % 10))
    }
}

/// The decimal rendering of an integer: a `-` sign for negatives, then the
/// digits of the magnitude.
pub open spec fn spec_int_str(i: int) -> Seq<char> {
    if i < 0 {
        seq!['-'] + spec_nat_digits(-i)
    } else {
        spec_nat_digits(i)
    }
}

fn digit_char(d: u64) -> (c: char)
    requires
        d < 10,
    ensures
        c == spec_digit_char(d as int),
{
    match d {
        0u64 => '0',
        1u64 => '1',
        2u64 => '2',
        3u64 => '3',
        4u64 => '4',
        5u64 => '5',
        6u64 => '6',
        7u64 => '7',
        8u64 => '8',
        _ => '9',
    }
}

/// Appends one character to a string.
///
/// Relies on `std`'s `String::push`, which appends the given `char` to the
/// end of the string.
#[verifier::external_body]
pub(crate) fn push_char(s: &mut String, c: char)
    ensures
        final(s)@ == old(s)@.push(c),
{
    s.push(c)
}

fn nat_digits(n: u64) -> (s: String)
    ensures
        s@ == spec_nat_digits(n as int),
    decreases n,
{
    if n < 10 {
        let mut s = String::new();
        push_char(&mut s, digit_char(n));
        assert(s@ =~= spec_nat_digits(n as int));
        s
    } else {
        let mut s = nat_digits(n / 10);
        push_char(&mut s, digit_char(n % 10));
        s
    }
}

/// Renders an integer in decimal, exactly as [`spec_int_str`] says.
pub fn int_to_string(i: i64) -> (s: String)
    ensures
        s@ == spec_int_str(i as int),
{
    if i >= 0 {
        nat_digits(i as u64)
    } else {
        let mag: u64 = (-(i as i128)) as u64;
        let mut s = String::new();
        push_char(&mut s, '-');
        let digits = nat_digits(mag);
        s.append(digits.as_str());
        assert(s@ =~= spec_int_str(i as int));
        s
    }
}

/// Renders a machine-sized count in decimal.
pub fn usize_to_string(n: usize) -> (s: String)
    ensures
        s@ == spec_int_str(n as int),
{
    nat_digits(n as u64)
}

/// The diagnostic rendering of a literal: `null` for no payload, the raw
/// text of a string, and the value followed by `.0` for a number (every
/// numeric value of the interpreter is integral).
pub open spec fn spec_literal_render(l: LitV) -> Seq<char> {
    match l {
        LitV::Null => "null"@,
        LitV::Str(s) => s,
        LitV::Num(n) => spec_int_str(n as int) + ".0"@,
    }
}

impl Literal {
    /// Renders this literal for the diagnostic token listing.
    pub fn render(&self) -> (r: String)
        ensures
            r@ == spec_literal_render(self@),
    {
        match self {
            Literal::Null => String::from_str("null"),
            Literal::String(s) => s.clone(),
            Literal::Number(n) => {
                let mut r = int_to_string(*n);
                r.append(".0");
                r
            },
        }
    }
}

/// The mathematical content of a token.
pub struct TokenV {
    pub line: nat,
    pub token_type: TokenType,
    pub lexeme: Seq<char>,
    pub literal: LitV,
}

/// One token: kind, exact source lexeme, literal payload and source line.
pub struct Token {
    pub line: usize,
    pub token_type: TokenType,
    pub lexeme: String,
    pub literal: Literal,
}

impl View for Token {
    type V = TokenV;

    open spec fn view(&self) -> TokenV {
        TokenV {
            line: self.line as nat,
            token_type: self.token_type,
            lexeme: self.lexeme@,
            literal: self.literal@,
        }
    }
}

impl Token {
    /// Builds a token from its parts.
    pub fn new(token_type: TokenType, lexeme: String, literal: Literal, line: usize) -> (t: Token)
        ensures
            t@ == (TokenV { line: line as nat, token_type, lexeme: lexeme@, literal: literal@ }),
    {
        Token { token_type, lexeme, literal, line }
    }

    /// An exact structural copy.
    pub fn clone_tok(&self) -> (t: Token)
        ensures
            t@ == self@,
    {
        Token {
            line: self.line,
            token_type: self.token_type,
            lexeme: self.lexeme.clone(),
            literal: self.literal.clone_lit(),
        }
    }
}

/// The line-oriented diagnostic form of a token:
/// `<KIND> <lexeme> <literal-or-'null'>`.
pub open spec fn spec_token_render(t: TokenV) -> Seq<char> {
    spec_kind_name(t.token_type) + " "@ + t.lexeme + " "@ + spec_literal_render(t.literal)
}

impl Token {
    /// Renders this token in the diagnostic form.
    pub fn render(&self) -> (r: String)
        ensures
            r@ == spec_token_render(self@),
    {
        let mut r = self.token_type.render();
        r.append(" ");
        r.append(self.lexeme.as_str());
        r.append(" ");
        let lit = self.literal.render();
        r.append(lit.as_str());
        assert(r@ =~= spec_token_render(self@));
        r
    }
}

} // verus!
