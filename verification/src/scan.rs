//! The lexical scanner: one left-to-right pass over the character sequence
//! with one-character lookahead, collecting tokens and lexical errors
//! without ever aborting.
//!
//! The whole pass is specified by [`spec_scan`], a recursive function over
//! the character sequence; [`Scanner::scan`] is proved to produce exactly
//! the tokens and errors that [`spec_scan`] names, always ending with one
//! `Eof` token.
//!
//! Character classes are ASCII: digits are `0`-`9`, identifiers start with
//! a letter or `_` and continue with letters, digits or `_`, and the
//! skipped whitespace is space, tab, carriage return and newline (which
//! advances the line counter). Any other character outside a string
//! literal or comment is a lexical error that does not stop the scan.

use vstd::prelude::*;
use vstd::string::StrSliceExecFns;
use vstd::string::StringExecFns;

use crate::token::Literal;
use crate::token::LitV;
use crate::token::Token;
use crate::token::TokenType;
use crate::token::TokenV;
use crate::token::keyword_type;
use crate::token::spec_keyword;

verus! {

/// The mathematical content of a lexical error: line and message.
pub struct ErrV {
    pub line: nat,
    pub tok: Seq<char>,
}

/// One lexical error: the line it was found on and its message.
pub struct ErrToken {
    pub line: usize,
    pub tok: String,
}

impl View for ErrToken {
    type V = ErrV;

    open spec fn view(&self) -> ErrV {
        ErrV { line: self.line as nat, tok: self.tok@ }
    }
}

/// What a whole scan produces: the token sequence and the error list.
pub struct ScanOutV {
    pub toks: Seq<TokenV>,
    pub errs: Seq<ErrV>,
}

/// What one scanner step produces: at most one token or one error, the
/// position after the step, and the line counter after the step.
pub struct StepV {
    pub toks: Seq<TokenV>,
    pub errs: Seq<ErrV>,
    pub next: int,
    pub line: int,
}

/// An ASCII decimal digit.
pub open spec fn is_digit_char(c: char) -> bool {
    48 <= c as u32 <= 57
}

/// An ASCII letter or underscore: the characters that may start an
/// identifier.
pub open spec fn is_alpha_char(c: char) -> bool {
    (65 <= c as u32 <= 90) || (97 <= c as u32 <= 122) || c == '_'
}

/// A character that may continue an identifier.
pub open spec fn is_ident_char(c: char) -> bool {
    is_alpha_char(c) || is_digit_char(c)
}

/// Skipped whitespace other than newline.
pub open spec fn is_space_char(c: char) -> bool {
    c == ' ' || c == '\t' || c == '\r'
}

fn is_digit(c: char) -> (r: bool)
    ensures
        r == is_digit_char(c),
{
    let u = c as u32;
    48 <= u && u <= 57
}

fn is_alpha(c: char) -> (r: bool)
    ensures
        r == is_alpha_char(c),
{
    let u = c as u32;
    (65 <= u && u <= 90) || (97 <= u && u <= 122) || c == '_'
}

fn is_ident(c: char) -> (r: bool)
    ensures
        r == is_ident_char(c),
{
    is_alpha(c) || is_digit(c)
}

fn is_space(c: char) -> (r: bool)
    ensures
        r == is_space_char(c),
{
    c == ' ' || c == '\t' || c == '\r'
}

/// The first position at or after `i` that holds a `"`, or the length of
/// `s` if there is none.
pub open spec fn str_close(s: Seq<char>, i: int) -> int
    decreases s.len() - i when 0 <= i <= s.len()
{
    if i == s.len() {
        i
    } else if s[i] == '"' {
        i
    } else {
        str_close(s, i + 1)
    }
}

/// The first position at or after `i` that holds a newline, or the length
/// of `s` if there is none.
pub open spec fn nl_pos(s: Seq<char>, i: int) -> int
    decreases s.len() - i when 0 <= i <= s.len()
{
    if i == s.len() {
        i
    } else if s[i] == '\n' {
        i
    } else {
        nl_pos(s, i + 1)
    }
}

/// The end of the run of decimal digits that starts at `i`.
pub open spec fn num_end(s: Seq<char>, i: int) -> int
    decreases s.len() - i when 0 <= i <= s.len()
{
    if i < s.len() && is_digit_char(s[i]) {
        num_end(s, i + 1)
    } else {
        i
    }
}

/// The end of the run of identifier characters that starts at `i`.
pub open spec fn ident_end(s: Seq<char>, i: int) -> int
    decreases s.len() - i when 0 <= i <= s.len()
{
    if i < s.len() && is_ident_char(s[i]) {
        ident_end(s, i + 1)
    } else {
        i
    }
}

/// The end of a whole numeric lexeme starting at `i`: the integer digits,
/// then, if a `.` follows them, the `.` and any further digits.
pub open spec fn num_lex_end(s: Seq<char>, i: int) -> int {
    let j = num_end(s, i);
    if j < s.len() && s[j] == '.' {
        num_end(s, j + 1)
    } else {
        j
    }
}

proof fn lemma_str_close_bounds(s: Seq<char>, i: int)
    requires
        0 <= i <= s.len(),
    ensures
        i <= str_close(s, i) <= s.len(),
        str_close(s, i) < s.len() ==> s[str_close(s, i)] == '"',
    decreases s.len() - i,
{
    if i < s.len() && s[i] != '"' {
        lemma_str_close_bounds(s, i + 1);
    }
}

proof fn lemma_nl_pos_bounds(s: Seq<char>, i: int)
    requires
        0 <= i <= s.len(),
    ensures
        i <= nl_pos(s, i) <= s.len(),
    decreases s.len() - i,
{
    if i < s.len() && s[i] != '\n' {
        lemma_nl_pos_bounds(s, i + 1);
    }
}

proof fn lemma_num_end_bounds(s: Seq<char>, i: int)
    requires
        0 <= i <= s.len(),
    ensures
        i <= num_end(s, i) <= s.len(),
        forall|m: int| i <= m < num_end(s, i) ==> is_digit_char(s[m]),
    decreases s.len() - i,
{
    if i < s.len() && is_digit_char(s[i]) {
        lemma_num_end_bounds(s, i + 1);
    }
}

proof fn lemma_ident_end_bounds(s: Seq<char>, i: int)
    requires
        0 <= i <= s.len(),
    ensures
        i <= ident_end(s, i) <= s.len(),
    decreases s.len() - i,
{
    if i < s.len() && is_ident_char(s[i]) {
        lemma_ident_end_bounds(s, i + 1);
    }
}

/// The numeric value of a sequence of decimal digits.
pub open spec fn digits_val(s: Seq<char>) -> int
    decreases s.len(),
{
    if s.len() == 0 {
        0
    } else {
        digits_val(s.drop_last()) * 10 + (s.last() as u32 - 48)
    }
}

/// The value of a numeric literal: the value of its integer digits,
/// saturated to the `i64` range.
pub open spec fn spec_num_value(s: Seq<char>) -> i64 {
    if digits_val(s) > i64::MAX as int {
        i64::MAX
    } else {
        digits_val(s) as i64
    }
}

/// The line counter after one more newline; it saturates at the machine
/// limit instead of wrapping.
pub open spec fn spec_bump(line: int) -> int {
    if line < usize::MAX as int {
        line + 1
    } else {
        line
    }
}

fn bump_line(line: usize) -> (r: usize)
    ensures
        r as int == spec_bump(line as int),
{
    if line < usize::MAX {
        line + 1
    } else {
        line
    }
}

/// A token with no literal payload.
pub open spec fn tokv(line: int, tt: TokenType, lex: Seq<char>) -> TokenV {
    TokenV { line: line as nat, token_type: tt, lexeme: lex, literal: LitV::Null }
}

/// A step that yields one token.
pub open spec fn step_tok(t: TokenV, next: int, line: int) -> StepV {
    StepV { toks: seq![t], errs: Seq::empty(), next, line }
}

/// A step that yields nothing.
pub open spec fn step_skip(next: int, line: int) -> StepV {
    StepV { toks: Seq::empty(), errs: Seq::empty(), next, line }
}

/// A step that yields one error.
pub open spec fn step_err(e: ErrV, next: int, line: int) -> StepV {
    StepV { toks: Seq::empty(), errs: seq![e], next, line }
}

/// One scanner step at position `i` (which must be inside `s`): what the
/// lexeme starting at `i` produces, and where the scan continues.
pub open spec fn spec_step(s: Seq<char>, i: int, line: int) -> StepV {
    let c = s[i];
    if c == '(' {
        step_tok(tokv(line, TokenType::LeftParen, seq![c]), i + 1, line)
    } else if c == ')' {
        step_tok(tokv(line, TokenType::RightParen, seq![c]), i + 1, line)
    } else if c == '{' {
        step_tok(tokv(line, TokenType::LeftBrace, seq![c]), i + 1, line)
    } else if c == '}' {
        step_tok(tokv(line, TokenType::RightBrace, seq![c]), i + 1, line)
    } else if c == ',' {
        step_tok(tokv(line, TokenType::Comma, seq![c]), i + 1, line)
    } else if c == '.' {
        step_tok(tokv(line, TokenType::Dot, seq![c]), i + 1, line)
    } else if c == '-' {
        step_tok(tokv(line, TokenType::Minus, seq![c]), i + 1, line)
    } else if c == '+' {
        step_tok(tokv(line, TokenType::Plus, seq![c]), i + 1, line)
    } else if c == ';' {
        step_tok(tokv(line, TokenType::Semicolon, seq![c]), i + 1, line)
    } else if c == '*' {
        step_tok(tokv(line, TokenType::Star, seq![c]), i + 1, line)
    } else if c == '=' {
        if i + 1 < s.len() && s[i + 1] == '=' {
            step_tok(tokv(line, TokenType::EqualEqual, "=="@), i + 2, line)
        } else {
            step_tok(tokv(line, TokenType::Equal, seq![c]), i + 1, line)
        }
    } else if c == '!' {
        if i + 1 < s.len() && s[i + 1] == '=' {
            step_tok(tokv(line, TokenType::BangEqual, "!="@), i + 2, line)
        } else {
            step_tok(tokv(line, TokenType::Bang, seq![c]), i + 1, line)
        }
    } else if c == '>' {
        if i + 1 < s.len() && s[i + 1] == '=' {
            step_tok(tokv(line, TokenType::GreaterEqual, ">="@), i + 2, line)
        } else {
            step_tok(tokv(line, TokenType::Greater, seq![c]), i + 1, line)
        }
    } else if c == '<' {
        if i + 1 < s.len() && s[i + 1] == '=' {
            step_tok(tokv(line, TokenType::LessEqual, "<="@), i + 2, line)
        } else {
            step_tok(tokv(line, TokenType::Less, seq![c]), i + 1, line)
        }
    } else if c == '"' {
        let q = str_close(s, i + 1);
        if q == s.len() {
            step_err(ErrV { line: line as nat, tok: "Unterminated string."@ }, s.len() as int, line)
        } else {
            step_tok(
                TokenV {
                    line: line as nat,
                    token_type: TokenType::String,
                    lexeme: s.subrange(i, q + 1),
                    literal: LitV::Str(s.subrange(i + 1, q)),
                },
                q + 1,
                line,
            )
        }
    } else if c == '/' {
        if i + 1 < s.len() && s[i + 1] == '/' {
            let p = nl_pos(s, i + 2);
            let after = if p == s.len() {
                p
            } else {
                p + 1
            };
            step_skip(after, spec_bump(line))
        } else {
            step_tok(tokv(line, TokenType::Slash, seq![c]), i + 1, line)
        }
    } else if c == '\n' {
        step_skip(i + 1, spec_bump(line))
    } else if is_digit_char(c) {
        let j = num_end(s, i);
        let end = num_lex_end(s, i);
        step_tok(
            TokenV {
                line: line as nat,
                token_type: TokenType::Number,
                lexeme: s.subrange(i, end),
                literal: LitV::Num(spec_num_value(s.subrange(i, j))),
            },
            end,
            line,
        )
    } else if is_alpha_char(c) {
        let j = ident_end(s, i + 1);
        let lex = s.subrange(i, j);
        step_tok(tokv(line, spec_keyword(lex), lex), j, line)
    } else if is_space_char(c) {
        step_skip(i + 1, line)
    } else {
        step_err(
            ErrV { line: line as nat, tok: "Unexpected character: "@ + seq![c] },
            i + 1,
            line,
        )
    }
}

pub proof fn lemma_step_bounds(s: Seq<char>, i: int, line: int)
    requires
        0 <= i < s.len(),
    ensures
        i < spec_step(s, i, line).next <= s.len(),
{
    lemma_str_close_bounds(s, i + 1);
    lemma_nl_pos_bounds(s, if i + 2 <= s.len() { i + 2 } else { s.len() as int });
    lemma_num_end_bounds(s, i);
    if num_end(s, i) < s.len() {
        lemma_num_end_bounds(s, num_end(s, i) + 1);
    }
    lemma_ident_end_bounds(s, i + 1);
    if is_digit_char(s[i]) {
        assert(num_end(s, i) == num_end(s, i + 1)) by {
            assert(i < s.len() && is_digit_char(s[i]));
        }
        lemma_num_end_bounds(s, i + 1);
        assert(num_end(s, i) >= i + 1);
    }
}

/// The whole scan from position `i` with line counter `line`: every token
/// and error the scanner produces from there on, ending with one `Eof`
/// token that carries the final line number and an empty lexeme.
pub open spec fn spec_scan(s: Seq<char>, i: int, line: int) -> ScanOutV
    decreases s.len() - i when 0 <= i <= s.len()
{
    if i == s.len() {
        ScanOutV { toks: seq![tokv(line, TokenType::Eof, Seq::empty())], errs: Seq::empty() }
    } else {
        let st = spec_step(s, i, line);
        proof {
            lemma_step_bounds(s, i, line);
        }
        let rest = spec_scan(s, st.next, st.line);
        ScanOutV { toks: st.toks + rest.toks, errs: st.errs + rest.errs }
    }
}

proof fn lemma_toks_push(ts0: Seq<Token>, t: Token)
    ensures
        toks_view(ts0.push(t)) == toks_view(ts0) + seq![t@],
{
    assert(toks_view(ts0.push(t)) =~= toks_view(ts0) + seq![t@]);
}

proof fn lemma_errs_push(es0: Seq<ErrToken>, e: ErrToken)
    ensures
        errs_view(es0.push(e)) == errs_view(es0) + seq![e@],
{
    assert(errs_view(es0.push(e)) =~= errs_view(es0) + seq![e@]);
}

proof fn lemma_app_empty_toks(ts: Seq<TokenV>)
    ensures
        ts + Seq::<TokenV>::empty() == ts,
{
    assert(ts + Seq::<TokenV>::empty() =~= ts);
}

proof fn lemma_app_empty_errs(es: Seq<ErrV>)
    ensures
        es + Seq::<ErrV>::empty() == es,
{
    assert(es + Seq::<ErrV>::empty() =~= es);
}

proof fn lemma_inv_step(
    s: Seq<char>,
    i0: int,
    line0: int,
    base_t: Seq<TokenV>,
    base_e: Seq<ErrV>,
    out: ScanOutV,
    t0: Seq<TokenV>,
    e0: Seq<ErrV>,
    t1: Seq<TokenV>,
    e1: Seq<ErrV>,
)
    requires
        0 <= i0 < s.len(),
        base_t + out.toks == t0 + spec_scan(s, i0, line0).toks,
        base_e + out.errs == e0 + spec_scan(s, i0, line0).errs,
        t1 == t0 + spec_step(s, i0, line0).toks,
        e1 == e0 + spec_step(s, i0, line0).errs,
    ensures
        base_t + out.toks == t1 + spec_scan(
            s,
            spec_step(s, i0, line0).next,
            spec_step(s, i0, line0).line,
        ).toks,
        base_e + out.errs == e1 + spec_scan(
            s,
            spec_step(s, i0, line0).next,
            spec_step(s, i0, line0).line,
        ).errs,
{
    lemma_step_bounds(s, i0, line0);
    let st = spec_step(s, i0, line0);
    let rest = spec_scan(s, st.next, st.line);
    assert(spec_scan(s, i0, line0).toks == st.toks + rest.toks);
    assert(spec_scan(s, i0, line0).errs == st.errs + rest.errs);
    assert(t0 + (st.toks + rest.toks) =~= (t0 + st.toks) + rest.toks);
    assert(e0 + (st.errs + rest.errs) =~= (e0 + st.errs) + rest.errs);
}

/// The token views of a token sequence.
pub open spec fn toks_view(ts: Seq<Token>) -> Seq<TokenV> {
    ts.map_values(|t: Token| t@)
}

/// The error views of an error sequence.
pub open spec fn errs_view(es: Seq<ErrToken>) -> Seq<ErrV> {
    es.map_values(|e: ErrToken| e@)
}

/// The scanner: the source as a character sequence, and the tokens and
/// errors collected so far.
pub struct Scanner {
    pub src: Vec<char>,
    pub tokens: Vec<Token>,
    pub errors: Vec<ErrToken>,
}

/// Copies `src[a..b]` into a fresh string.
fn substring_vec(src: &Vec<char>, a: usize, b: usize) -> (s: String)
    requires
        a <= b <= src@.len(),
    ensures
        s@ == src@.subrange(a as int, b as int),
{
    let mut s = String::new();
    let mut k: usize = a;
    while k < b
        invariant
            a <= k <= b <= src@.len(),
            s@ == src@.subrange(a as int, k as int),
        decreases b - k,
    {
        crate::token::push_char(&mut s, src[k]);
        assert(s@ =~= src@.subrange(a as int, k as int + 1));
        k = k + 1;
    }
    s
}

impl Scanner {
    /// A scanner over the given source text, with nothing scanned yet.
    pub fn new(input: String) -> (sc: Scanner)
        ensures
            sc@ == input@,
            sc.tokens@.len() == 0,
            sc.errors@.len() == 0,
    {
        let n = input.as_str().unicode_len();
        let mut src: Vec<char> = Vec::new();
        let mut k: usize = 0;
        while k < n
            invariant
                n == input@.len(),
                0 <= k <= n,
                src@ == input@.subrange(0, k as int),
        decreases n - k,
        {
            src.push(input.as_str().get_char(k));
            assert(src@ =~= input@.subrange(0, k as int + 1));
            k = k + 1;
        }
        assert(src@ =~= input@);
        Scanner { src, tokens: Vec::new(), errors: Vec::new() }
    }
}

impl View for Scanner {
    type V = Seq<char>;

    open spec fn view(&self) -> Seq<char> {
        self.src@
    }
}

#[verifier::rlimit(100)]
#[verifier::spinoff_prover]
fn scan_step_exec(
    tokens: &mut Vec<Token>,
    errors: &mut Vec<ErrToken>,
    src: &Vec<char>,
    start: usize,
    line_in: usize,
) -> (r: (usize, usize))
    requires
        start < src@.len(),
    ensures
        ({
            let st = spec_step(src@, start as int, line_in as int);
            &&& r.0 as int == st.next
            &&& r.1 as int == st.line
            &&& toks_view(final(tokens)@) == toks_view(old(tokens)@) + st.toks
            &&& errs_view(final(errors)@) == errs_view(old(errors)@) + st.errs
        }),
{
    let ghost s = src@;
    let n = src.len();
    let mut i: usize = start;
    let mut line: usize = line_in;
    let ghost i0 = start as int;
    let ghost line0 = line_in as int;
    let ghost st = spec_step(s, i0, line0);
    proof {
        lemma_step_bounds(s, i0, line0);
        assert(s.subrange(i0, i0 + 1) =~= seq![s[i0]]);
        if i0 + 2 <= s.len() {
            assert(s.subrange(i0, i0 + 2) =~= seq![s[i0], s[i0 + 1]]);
        }
        lemma_app_empty_toks(toks_view(tokens@));
        lemma_app_empty_errs(errs_view(errors@));
    }
    let c = src[i];
    if c == '(' {
        let lex = substring_vec(&src, i, i + 1);
        let tok = Token::new(TokenType::LeftParen, lex, Literal::Null, line);
        proof {
            lemma_toks_push(tokens@, tok);
        }
        tokens.push(tok);
        i = i + 1;
    } else if c == ')' {
        let lex = substring_vec(&src, i, i + 1);
        let tok = Token::new(TokenType::RightParen, lex, Literal::Null, line);
        proof {
            lemma_toks_push(tokens@, tok);
        }
        tokens.push(tok);
        i = i + 1;
    } else if c == '{' {
        let lex = substring_vec(&src, i, i + 1);
        let tok = Token::new(TokenType::LeftBrace, lex, Literal::Null, line);
        proof {
            lemma_toks_push(tokens@, tok);
        }
        tokens.push(tok);
        i = i + 1;
    } else if c == '}' {
        let lex = substring_vec(&src, i, i + 1);
        let tok = Token::new(TokenType::RightBrace, lex, Literal::Null, line);
        proof {
            lemma_toks_push(tokens@, tok);
        }
        tokens.push(tok);
        i = i + 1;
    } else if c == ',' {
        let lex = substring_vec(&src, i, i + 1);
        let tok = Token::new(TokenType::Comma, lex, Literal::Null, line);
        proof {
            lemma_toks_push(tokens@, tok);
        }
        tokens.push(tok);
        i = i + 1;
    } else if c == '.' {
        let lex = substring_vec(&src, i, i + 1);
        let tok = Token::new(TokenType::Dot, lex, Literal::Null, line);
        proof {
            lemma_toks_push(tokens@, tok);
        }
        tokens.push(tok);
        i = i + 1;
    } else if c == '-' {
        let lex = substring_vec(&src, i, i + 1);
        let tok = Token::new(TokenType::Minus, lex, Literal::Null, line);
        proof {
            lemma_toks_push(tokens@, tok);
        }
        tokens.push(tok);
        i = i + 1;
    } else if c == '+' {
        let lex = substring_vec(&src, i, i + 1);
        let tok = Token::new(TokenType::Plus, lex, Literal::Null, line);
        proof {
            lemma_toks_push(tokens@, tok);
        }
        tokens.push(tok);
        i = i + 1;
    } else if c == ';' {
        let lex = substring_vec(&src, i, i + 1);
        let tok = Token::new(TokenType::Semicolon, lex, Literal::Null, line);
        proof {
            lemma_toks_push(tokens@, tok);
        }
        tokens.push(tok);
        i = i + 1;
    } else if c == '*' {
        let lex = substring_vec(&src, i, i + 1);
        let tok = Token::new(TokenType::Star, lex, Literal::Null, line);
        proof {
            lemma_toks_push(tokens@, tok);
        }
        tokens.push(tok);
        i = i + 1;
    } else if c == '=' {
        if i + 1 < n && src[i + 1] == '=' {
            let lex = substring_vec(&src, i, i + 2);
            assert(lex@ =~= "=="@) by {
                reveal_strlit("==");
            }
            let tok = Token::new(TokenType::EqualEqual, lex, Literal::Null, line);
            proof {
                lemma_toks_push(tokens@, tok);
            }
            tokens.push(tok);
            i = i + 2;
        } else {
            let lex = substring_vec(&src, i, i + 1);
            let tok = Token::new(TokenType::Equal, lex, Literal::Null, line);
            proof {
                lemma_toks_push(tokens@, tok);
            }
            tokens.push(tok);
            i = i + 1;
        }
    } else if c == '!' {
        if i + 1 < n && src[i + 1] == '=' {
            let lex = substring_vec(&src, i, i + 2);
            assert(lex@ =~= "!="@) by {
                reveal_strlit("!=");
            }
            let tok = Token::new(TokenType::BangEqual, lex, Literal::Null, line);
            proof {
                lemma_toks_push(tokens@, tok);
            }
            tokens.push(tok);
            i = i + 2;
        } else {
            let lex = substring_vec(&src, i, i + 1);
            let tok = Token::new(TokenType::Bang, lex, Literal::Null, line);
            proof {
                lemma_toks_push(tokens@, tok);
            }
            tokens.push(tok);
            i = i + 1;
        }
    } else if c == '>' {
        if i + 1 < n && src[i + 1] == '=' {
            let lex = substring_vec(&src, i, i + 2);
            assert(lex@ =~= ">="@) by {
                reveal_strlit(">=");
            }
            let tok = Token::new(TokenType::GreaterEqual, lex, Literal::Null, line);
            proof {
                lemma_toks_push(tokens@, tok);
            }
            tokens.push(tok);
            i = i + 2;
        } else {
            let lex = substring_vec(&src, i, i + 1);
            let tok = Token::new(TokenType::Greater, lex, Literal::Null, line);
            proof {
                lemma_toks_push(tokens@, tok);
            }
            tokens.push(tok);
            i = i + 1;
        }
    } else if c == '<' {
        if i + 1 < n && src[i + 1] == '=' {
            let lex = substring_vec(&src, i, i + 2);
            assert(lex@ =~= "<="@) by {
                reveal_strlit("<=");
            }
            let tok = Token::new(TokenType::LessEqual, lex, Literal::Null, line);
            proof {
                lemma_toks_push(tokens@, tok);
            }
            tokens.push(tok);
            i = i + 2;
        } else {
            let lex = substring_vec(&src, i, i + 1);
            let tok = Token::new(TokenType::Less, lex, Literal::Null, line);
            proof {
                lemma_toks_push(tokens@, tok);
            }
            tokens.push(tok);
            i = i + 1;
        }
    } else if c == '"' {
        let mut j: usize = i + 1;
        while j < n && src[j] != '"'
            invariant
                src@ == s,
                n == s.len(),
                i + 1 <= j <= n,
                str_close(s, i0 + 1) == str_close(s, j as int),
            decreases n - j,
        {
            j = j + 1;
        }
        proof {
            lemma_str_close_bounds(s, i0 + 1);
        }
        if j == n {
            let etok = ErrToken { line, tok: String::from_str("Unterminated string.") };
            proof {
                lemma_errs_push(errors@, etok);
            }
            errors.push(etok);
            i = n;
        } else {
            let lex = substring_vec(&src, i, j + 1);
            let content = substring_vec(&src, i + 1, j);
            let tok = Token::new(TokenType::String, lex, Literal::String(content), line);
            proof {
                lemma_toks_push(tokens@, tok);
            }
            tokens.push(tok);
            i = j + 1;
        }
    } else if c == '/' {
        if i + 1 < n && src[i + 1] == '/' {
            let mut j: usize = i + 2;
            while j < n && src[j] != '\n'
                invariant
                    src@ == s,
                    n == s.len(),
                    i + 2 <= j <= n,
                    nl_pos(s, i0 + 2) == nl_pos(s, j as int),
                decreases n - j,
            {
                j = j + 1;
            }
            if j == n {
                i = n;
            } else {
                i = j + 1;
            }
            line = bump_line(line);
        } else {
            let lex = substring_vec(&src, i, i + 1);
            let tok = Token::new(TokenType::Slash, lex, Literal::Null, line);
            proof {
                lemma_toks_push(tokens@, tok);
            }
            tokens.push(tok);
            i = i + 1;
        }
    } else if c == '\n' {
        line = bump_line(line);
        i = i + 1;
    } else if is_digit(c) {
        let mut j: usize = i;
        while j < n && is_digit(src[j])
            invariant
                src@ == s,
                n == s.len(),
                i <= j <= n,
                num_end(s, i0) == num_end(s, j as int),
            decreases n - j,
        {
            j = j + 1;
        }
        assert(j as int == num_end(s, i0));
        proof {
            lemma_num_end_bounds(s, i0);
        }
        // the saturated value of the integer digits
        let mut acc: u64 = 0;
        let mut sat: bool = false;
        let mut k: usize = i;
        while k < j
            invariant
                src@ == s,
                n == s.len(),
                i0 == i as int,
                i <= k <= j <= n,
                sat ==> digits_val(s.subrange(i0, k as int)) > i64::MAX as int,
                !sat ==> acc as int == digits_val(s.subrange(i0, k as int)) && acc <= i64::MAX
                    as u64,
                forall|m: int| i0 <= m < j ==> is_digit_char(s[m]),
            decreases j - k,
        {
            proof {
                assert(is_digit_char(s[k as int]));
            }
            let d: u64 = (src[k] as u32 - 48) as u64;
            let ghost pre = s.subrange(i0, k as int);
            let ghost cur = s.subrange(i0, k as int + 1);
            proof {
                assert(cur.drop_last() =~= pre);
                assert(cur.last() == s[k as int]);
            }
            if sat {
                proof {
                    assert(digits_val(cur) == digits_val(pre) * 10 + (s[k as int] as u32
                        - 48));
                    assert(digits_val(cur) > i64::MAX as int);
                }
            } else {
                match acc.checked_mul(10) {
                    Some(m) => {
                        match m.checked_add(d) {
                            Some(t) => {
                                if t > i64::MAX as u64 {
                                    sat = true;
                                } else {
                                    acc = t;
                                }
                            },
                            None => {
                                sat = true;
                            },
                        }
                    },
                    None => {
                        sat = true;
                    },
                }
            }
            k = k + 1;
        }
        let value: i64 = if sat {
            i64::MAX
        } else {
            acc as i64
        };
        proof {
            assert(s.subrange(i0, j as int) =~= s.subrange(i0, k as int));
            assert(value == spec_num_value(s.subrange(i0, num_end(s, i0))));
        }
        // the full lexeme: a following `.` and any digits after it
        let mut end: usize = j;
        if j < n && src[j] == '.' {
            let mut e: usize = j + 1;
            while e < n && is_digit(src[e])
                invariant
                    src@ == s,
                    n == s.len(),
                    j + 1 <= e <= n,
                    num_end(s, j as int + 1) == num_end(s, e as int),
                decreases n - e,
            {
                e = e + 1;
            }
            end = e;
        }
        assert(end as int == num_lex_end(s, i0));
        let lex = substring_vec(&src, i, end);
        let tok = Token::new(TokenType::Number, lex, Literal::Number(value), line);
        proof {
            lemma_toks_push(tokens@, tok);
        }
        tokens.push(tok);
        i = end;
    } else if is_alpha(c) {
        let mut j: usize = i + 1;
        while j < n && is_ident(src[j])
            invariant
                src@ == s,
                n == s.len(),
                i + 1 <= j <= n,
                ident_end(s, i0 + 1) == ident_end(s, j as int),
            decreases n - j,
        {
            j = j + 1;
        }
        let lex = substring_vec(&src, i, j);
        let tt = keyword_type(&lex);
        let tok = Token::new(tt, lex, Literal::Null, line);
        proof {
            lemma_toks_push(tokens@, tok);
        }
        tokens.push(tok);
        i = j;
    } else if is_space(c) {
        i = i + 1;
    } else {
        let mut msg = String::from_str("Unexpected character: ");
        crate::token::push_char(&mut msg, c);
        proof {
            assert(msg@ =~= "Unexpected character: "@ + seq![c]);
        }
        let etok = ErrToken { line, tok: msg };
        proof {
            lemma_errs_push(errors@, etok);
        }
        errors.push(etok);
        i = i + 1;
    }
    (i, line)
}

impl Scanner {
    /// Scans the whole source, appending exactly the tokens and errors of
    /// [`spec_scan`] to `tokens` and `errors`. The scan always terminates
    /// and always ends the token list with one `Eof` token.
    pub fn scan(&mut self)
        ensures
            final(self)@ == old(self)@,
            toks_view(final(self).tokens@) == toks_view(old(self).tokens@) + spec_scan(
                old(self)@,
                0,
                1,
            ).toks,
            errs_view(final(self).errors@) == errs_view(old(self).errors@) + spec_scan(
                old(self)@,
                0,
                1,
            ).errs,
    {
        let ghost s = self.src@;
        let ghost out = spec_scan(s, 0, 1);
        let n = self.src.len();
        let mut i: usize = 0;
        let mut line: usize = 1;
        while i < n
            invariant
                self.src@ == s,
                n == s.len(),
                0 <= i <= n,
                toks_view(old(self).tokens@) + out.toks == toks_view(self.tokens@) + spec_scan(
                    s,
                    i as int,
                    line as int,
                ).toks,
                errs_view(old(self).errors@) + out.errs == errs_view(self.errors@) + spec_scan(
                    s,
                    i as int,
                    line as int,
                ).errs,
            decreases n - i,
        {
            let ghost i0 = i as int;
            let ghost line0 = line as int;
            let ghost tks0 = toks_view(self.tokens@);
            let ghost ers0 = errs_view(self.errors@);
            proof {
                lemma_step_bounds(s, i0, line0);
            }
            let r = scan_step_exec(&mut self.tokens, &mut self.errors, &self.src, i, line);
            i = r.0;
            line = r.1;
            proof {
                lemma_inv_step(
                    s,
                    i0,
                    line0,
                    toks_view(old(self).tokens@),
                    errs_view(old(self).errors@),
                    out,
                    tks0,
                    ers0,
                    toks_view(self.tokens@),
                    errs_view(self.errors@),
                );
            }
        }
        let tok = Token::new(TokenType::Eof, String::new(), Literal::Null, line);
        proof {
            lemma_toks_push(self.tokens@, tok);
        }
        self.tokens.push(tok);
        proof {
            lemma_app_empty_errs(errs_view(self.errors@));
            assert(spec_scan(s, n as int, line as int).toks == seq![
                tokv(line as int, TokenType::Eof, Seq::empty()),
            ]);
        }
    }
}

/// The significant characters of the input from position `i` on: the
/// characters that belong to some lexeme. Whitespace, comments, the
/// characters of an unterminated string literal and unexpected characters
/// are not significant.
pub open spec fn sig_chars(s: Seq<char>, i: int) -> Seq<char>
    decreases s.len() - i when 0 <= i <= s.len()
{
    if i == s.len() {
        Seq::empty()
    } else {
        let st = spec_step(s, i, 1);
        proof {
            lemma_step_bounds(s, i, 1);
        }
        let c = s[i];
        if c == '"' && str_close(s, i + 1) == s.len() {
            // unterminated string: the rest of the input is consumed by the error
            Seq::empty()
        } else if st.toks.len() == 1 {
            st.toks[0].lexeme + sig_chars(s, st.next)
        } else {
            sig_chars(s, st.next)
        }
    }
}

/// The lexemes of a token sequence, concatenated in order.
pub open spec fn concat_lexemes(ts: Seq<TokenV>) -> Seq<char>
    decreases ts.len(),
{
    if ts.len() == 0 {
        Seq::empty()
    } else {
        ts[0].lexeme + concat_lexemes(ts.drop_first())
    }
}

proof fn lemma_concat_one(t: TokenV)
    ensures
        concat_lexemes(seq![t]) == t.lexeme,
{
    assert(seq![t].drop_first() =~= Seq::<TokenV>::empty());
    assert(concat_lexemes(Seq::<TokenV>::empty()) == Seq::<char>::empty());
    assert(t.lexeme + Seq::<char>::empty() =~= t.lexeme);
}

proof fn lemma_concat_app(a: Seq<TokenV>, b: Seq<TokenV>)
    ensures
        concat_lexemes(a + b) == concat_lexemes(a) + concat_lexemes(b),
    decreases a.len(),
{
    if a.len() == 0 {
        assert(a + b =~= b);
        assert(Seq::<char>::empty() + concat_lexemes(b) =~= concat_lexemes(b));
    } else {
        assert((a + b).drop_first() =~= a.drop_first() + b);
        lemma_concat_app(a.drop_first(), b);
        assert((a[0].lexeme + concat_lexemes(a.drop_first())) + concat_lexemes(b) =~= a[0].lexeme
            + (concat_lexemes(a.drop_first()) + concat_lexemes(b)));
    }
}

/// Re-assembling the lexemes of a scan, in order, reproduces exactly the
/// significant characters of the input: what the input holds outside
/// whitespace, comments and lexical errors. The `Eof` marker contributes
/// nothing, since its lexeme is empty.
pub proof fn lemma_scan_round_trip(s: Seq<char>, i: int, line: int)
    requires
        0 <= i <= s.len(),
    ensures
        concat_lexemes(spec_scan(s, i, line).toks) == sig_chars(s, i),
    decreases s.len() - i,
{
    if i == s.len() {
        lemma_concat_one(tokv(line, TokenType::Eof, Seq::empty()));
        assert(concat_lexemes(spec_scan(s, i, line).toks) =~= Seq::<char>::empty());
    } else {
        let st = spec_step(s, i, line);
        lemma_step_bounds(s, i, line);
        let rest = spec_scan(s, st.next, st.line);
        lemma_concat_app(st.toks, rest.toks);
        lemma_scan_round_trip(s, st.next, st.line);
        if st.toks.len() == 1 {
            assert(st.toks =~= seq![st.toks[0]]);
            lemma_concat_one(st.toks[0]);
        }
        assert(spec_step(s, i, 1).next == st.next);
        assert(spec_step(s, i, 1).toks.len() == st.toks.len());
        if st.toks.len() == 1 {
            assert(spec_step(s, i, 1).toks[0].lexeme == st.toks[0].lexeme);
        }
    }
}

proof fn lemma_str_close_none(s: Seq<char>, i: int)
    requires
        0 <= i <= s.len(),
        forall|j: int| i <= j < s.len() ==> s[j] != '"',
    ensures
        str_close(s, i) == s.len(),
    decreases s.len() - i,
{
    if i < s.len() {
        lemma_str_close_none(s, i + 1);
    }
}

/// An input that ends inside a string literal: from the opening `"` to the
/// end of the input there is no closing quote. Scanning it yields exactly
/// one lexical error, `Unterminated string.`, at the line the string
/// opened on, and then only the `Eof` marker; the scan terminates (the
/// executable scanner carries a `decreases` measure, so this is checked
/// mechanically, not just observed).
pub proof fn lemma_unterminated_string(s: Seq<char>, i: int, line: int)
    requires
        0 <= i < s.len(),
        s[i] == '"',
        forall|j: int| i < j < s.len() ==> s[j] != '"',
    ensures
        spec_scan(s, i, line).errs == seq![
            ErrV { line: line as nat, tok: "Unterminated string."@ },
        ],
        spec_scan(s, i, line).toks == seq![tokv(line, TokenType::Eof, Seq::empty())],
{
    lemma_str_close_none(s, i + 1);
    let st = spec_step(s, i, line);
    lemma_step_bounds(s, i, line);
    assert(st.next == s.len());
    let rest = spec_scan(s, s.len() as int, line);
    assert(spec_scan(s, i, line).errs =~= seq![
        ErrV { line: line as nat, tok: "Unterminated string."@ },
    ]);
    assert(spec_scan(s, i, line).toks =~= seq![tokv(line, TokenType::Eof, Seq::empty())]);
}

} // verus!
