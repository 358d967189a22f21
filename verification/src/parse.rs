//! The recursive-descent parser: one function per grammar layer, each
//! taking the token sequence and a cursor and returning the parsed node
//! with the rest cursor, or the first blocking syntax error with the
//! offending token and an expectation message.
//!
//! Selection among declaration and statement alternatives is speculative:
//! a failed attempt leaves no trace, because every function works on an
//! immutable cursor and only the successful alternative's cursor is kept.
//!
//! Every executable function is proved to return exactly what its
//! specification twin (`spec_parse_*`) says, including which error comes
//! out on which input. The twins are total functions over the token views;
//! [`wf_toks`] (one final `Eof` marker, nowhere else) is what the scanner
//! ensures, and lets the parser test end-of-input without bounds checks.

use vstd::prelude::*;
use vstd::string::StrSliceExecFns;
use vstd::string::StringExecFns;

use crate::ast::ArgumentsV;
use crate::ast::AssignmentV;
use crate::ast::BlockV;
use crate::ast::CallV;
use crate::ast::CallingV;
use crate::ast::ClassDeclV;
use crate::ast::ComparisionOp;
use crate::ast::ComparisionV;
use crate::ast::DeclarationV;
use crate::ast::EqualityOp;
use crate::ast::EqualityV;
use crate::ast::ExprStmtV;
use crate::ast::ExpressionV;
use crate::ast::FactorOp;
use crate::ast::FactorV;
use crate::ast::ForDecV;
use crate::ast::ForStmtV;
use crate::ast::FunDeclV;
use crate::ast::FunctionV;
use crate::ast::IfStmtV;
use crate::ast::LogicAndV;
use crate::ast::LogicOrV;
use crate::ast::ParametersV;
use crate::ast::PrimaryV;
use crate::ast::PrntStmtV;
use crate::ast::ProgramV;
use crate::ast::RtrnStmtV;
use crate::ast::StatementV;
use crate::ast::TermOp;
use crate::ast::TermV;
use crate::ast::UnaryOp;
use crate::ast::UnaryV;
use crate::ast::VarDeclV;
use crate::ast::WhileStmtV;
use crate::ast::Arguments;
use crate::ast::Assignment;
use crate::ast::Block;
use crate::ast::Call;
use crate::ast::Calling;
use crate::ast::ClassDecl;
use crate::ast::Comparision;
use crate::ast::Declaration;
use crate::ast::Equality;
use crate::ast::ExprStmt;
use crate::ast::Expression;
use crate::ast::Factor;
use crate::ast::ForDec;
use crate::ast::ForStmt;
use crate::ast::FunDecl;
use crate::ast::Function;
use crate::ast::IfStmt;
use crate::ast::LogicAnd;
use crate::ast::LogicOr;
use crate::ast::Parameters;
use crate::ast::Primary;
use crate::ast::PrntStmt;
use crate::ast::Program;
use crate::ast::RtrnStmt;
use crate::ast::Statement;
use crate::ast::Term;
use crate::ast::Unary;
use crate::ast::VarDecl;
use crate::ast::WhileStmt;
use crate::ast::view_callings;
use crate::ast::view_declarations;
use crate::ast::view_functions;
use crate::scan::lemma_step_bounds;
use crate::scan::spec_scan;
use crate::scan::spec_step;
use crate::scan::toks_view;
use crate::token::LitV;
use crate::token::Token;
use crate::token::TokenType;
use crate::token::TokenV;

verus! {

/// A structured syntax error: the offending token and a human-readable
/// expectation message.
pub struct ParseError {
    pub tok: Token,
    pub err: String,
}

/// The mathematical content of a syntax error.
pub struct PErrV {
    pub tok: TokenV,
    pub err: Seq<char>,
}

impl View for ParseError {
    type V = PErrV;

    open spec fn view(&self) -> PErrV {
        PErrV { tok: self.tok@, err: self.err@ }
    }
}

/// What a specification-level parse returns: the parsed node and the
/// position after it, or the index of the offending token and the message.
pub enum PRes<T> {
    Parsed(T, int),
    Fail(int, Seq<char>),
}

/// A well-formed token sequence: at least the `Eof` marker, the marker at
/// the end, and nowhere else. The scanner always produces such a sequence.
pub open spec fn wf_toks(ts: Seq<TokenV>) -> bool {
    &&& ts.len() >= 1
    &&& ts[ts.len() - 1].token_type == TokenType::Eof
    &&& forall|k: int| 0 <= k < ts.len() - 1 ==> ts[k].token_type != TokenType::Eof
}

/// The cursor after a sub-parse that started at `i` and reported `j`: used
/// in the specification twins only to make their recursion measure
/// self-evident. Every actual sub-parse advances the cursor, so along
/// every executable path this is exactly `j`.
pub open spec fn adv(ts: Seq<TokenV>, i: int, j: int) -> int {
    if i < j <= ts.len() {
        j
    } else {
        i + 1
    }
}

/// The message of a failed token match.
pub open spec fn expect_msg(what: Seq<char>) -> Seq<char> {
    "Expect "@ + what + "."@
}

/// The executable error `e` carries exactly the failure that `sr` names:
/// the token at the reported index and the reported message.
pub open spec fn fail_matches<T>(sr: PRes<T>, ts: Seq<TokenV>, e: PErrV) -> bool {
    match sr {
        PRes::Fail(at, msg) => 0 <= at < ts.len() && ts[at] == e.tok && msg == e.err,
        PRes::Parsed(_, _) => false,
    }
}

/// Consuming one token of kind `tp` at `i`, or the error `Expect <what>.`.
pub open spec fn spec_match_tok(ts: Seq<TokenV>, i: int, tp: TokenType, what: Seq<char>) -> PRes<
    (),
> {
    if ts[i].token_type == tp {
        PRes::Parsed((), i + 1)
    } else {
        PRes::Fail(i, expect_msg(what))
    }
}

/// Consuming one identifier token at `i`, yielding its lexeme.
pub open spec fn spec_get_identifier(ts: Seq<TokenV>, i: int) -> PRes<Seq<char>> {
    if ts[i].token_type == TokenType::Identifier {
        PRes::Parsed(ts[i].lexeme, i + 1)
    } else {
        PRes::Fail(i, "Expect identifier."@)
    }
}

pub open spec fn spec_parse_primary(ts: Seq<TokenV>, i: int) -> PRes<PrimaryV>
    decreases ts.len() - i, 20int when wf_toks(ts) && 0 <= i < ts.len()
{
    match ts[i].token_type {
        TokenType::Number => match ts[i].literal {
            LitV::Num(n) => PRes::Parsed(PrimaryV::Number(n), i + 1),
            _ => PRes::Fail(i, "Expect number."@),
        },
        TokenType::String => match ts[i].literal {
            LitV::Str(s) => PRes::Parsed(PrimaryV::String(s), i + 1),
            _ => PRes::Fail(i, "Expect string."@),
        },
        TokenType::True => PRes::Parsed(PrimaryV::Boolean(true), i + 1),
        TokenType::False => PRes::Parsed(PrimaryV::Boolean(false), i + 1),
        TokenType::Nil => PRes::Parsed(PrimaryV::Nil, i + 1),
        TokenType::This => PRes::Parsed(PrimaryV::This, i + 1),
        TokenType::Super => match spec_match_tok(ts, i + 1, TokenType::Dot, "'.' after super"@) {
            PRes::Parsed(_, j) => match spec_get_identifier(ts, j) {
                PRes::Parsed(id, k) => PRes::Parsed(PrimaryV::SuperId(id), k),
                PRes::Fail(at, msg) => PRes::Fail(at, msg),
            },
            PRes::Fail(at, msg) => PRes::Fail(at, msg),
        },
        TokenType::Identifier => PRes::Parsed(PrimaryV::Identifier(ts[i].lexeme), i + 1),
        TokenType::LeftParen => match spec_parse_expression(ts, i + 1) {
            PRes::Parsed(e, j) => match spec_match_tok(ts, j, TokenType::RightParen, "expression"@) {
                PRes::Parsed(_, k) => PRes::Parsed(PrimaryV::ParenExpr(Box::new(e)), k),
                PRes::Fail(at, msg) => PRes::Fail(at, msg),
            },
            PRes::Fail(at, msg) => PRes::Fail(at, msg),
        },
        _ => PRes::Fail(i, "Expect expression."@),
    }
}

pub open spec fn spec_parse_calling(ts: Seq<TokenV>, i: int) -> PRes<CallingV>
    decreases ts.len() - i, 30int when wf_toks(ts) && 0 <= i < ts.len()
{
    match ts[i].token_type {
        TokenType::LeftParen => match spec_parse_arguments(ts, i + 1) {
            PRes::Parsed(args, j) => match spec_match_tok(ts, j, TokenType::RightParen, "')'"@) {
                PRes::Parsed(_, k) => PRes::Parsed(CallingV::FuncCall(Some(args)), k),
                PRes::Fail(at, msg) => PRes::Fail(at, msg),
            },
            PRes::Fail(_, _) => match spec_match_tok(ts, i + 1, TokenType::RightParen, "')'"@) {
                PRes::Parsed(_, k) => PRes::Parsed(CallingV::FuncCall(None), k),
                PRes::Fail(at, msg) => PRes::Fail(at, msg),
            },
        },
        TokenType::Dot => match spec_get_identifier(ts, i + 1) {
            PRes::Parsed(id, j) => PRes::Parsed(CallingV::Mthd(id), j),
            PRes::Fail(at, msg) => PRes::Fail(at, msg),
        },
        _ => PRes::Fail(i, "Expect '(' or '.'"@),
    }
}

/// The longest run of call suffixes from `i`: a suffix list and the
/// position after it. Never fails; a failed suffix attempt ends the run.
pub open spec fn spec_parse_callings(ts: Seq<TokenV>, i: int) -> (Seq<CallingV>, int)
    decreases ts.len() - i, 40int when wf_toks(ts) && 0 <= i < ts.len()
{
    match spec_parse_calling(ts, i) {
        PRes::Parsed(c, j) => {
            let (rest, end) = spec_parse_callings(ts, adv(ts, i, j));
            (seq![c] + rest, end)
        },
        PRes::Fail(_, _) => (Seq::empty(), i),
    }
}

pub open spec fn spec_parse_call(ts: Seq<TokenV>, i: int) -> PRes<CallV>
    decreases ts.len() - i, 50int when wf_toks(ts) && 0 <= i < ts.len()
{
    match spec_parse_primary(ts, i) {
        PRes::Parsed(p, j) => {
            let (rest, end) = spec_parse_callings(ts, adv(ts, i, j));
            PRes::Parsed(CallV { prime: p, rest }, end)
        },
        PRes::Fail(at, msg) => PRes::Fail(at, msg),
    }
}

pub open spec fn spec_parse_unary(ts: Seq<TokenV>, i: int) -> PRes<UnaryV>
    decreases ts.len() - i, 60int when wf_toks(ts) && 0 <= i < ts.len()
{
    match ts[i].token_type {
        TokenType::Bang => match spec_parse_unary(ts, i + 1) {
            PRes::Parsed(u, j) => PRes::Parsed(UnaryV::Un(UnaryOp::Bang, Box::new(u)), j),
            PRes::Fail(at, msg) => PRes::Fail(at, msg),
        },
        TokenType::Minus => match spec_parse_unary(ts, i + 1) {
            PRes::Parsed(u, j) => PRes::Parsed(UnaryV::Un(UnaryOp::Minus, Box::new(u)), j),
            PRes::Fail(at, msg) => PRes::Fail(at, msg),
        },
        _ => match spec_parse_call(ts, i) {
            PRes::Parsed(c, j) => PRes::Parsed(UnaryV::Call(c), j),
            PRes::Fail(at, msg) => PRes::Fail(at, msg),
        },
    }
}

/// Whether the token at `i` is a factor operator, and which.
pub open spec fn spec_factor_op(ts: Seq<TokenV>, i: int) -> Option<FactorOp> {
    match ts[i].token_type {
        TokenType::Star => Some(FactorOp::Mul),
        TokenType::Slash => Some(FactorOp::Div),
        _ => None,
    }
}

pub open spec fn spec_parse_factor(
    ts: Seq<TokenV>,
    i: int,
    rest: Option<(FactorOp, Box<FactorV>)>,
) -> PRes<FactorV>
    decreases ts.len() - i, 70int when wf_toks(ts) && 0 <= i < ts.len()
{
    match spec_parse_unary(ts, i) {
        PRes::Parsed(u, j) => match spec_factor_op(ts, j) {
            Some(op) => spec_parse_factor(
                ts,
                adv(ts, i, j + 1),
                Some((op, Box::new(FactorV { unary: u, rest }))),
            ),
            None => PRes::Parsed(FactorV { unary: u, rest }, j),
        },
        PRes::Fail(at, msg) => PRes::Fail(at, msg),
    }
}

/// Whether the token at `i` is a term operator, and which.
pub open spec fn spec_term_op(ts: Seq<TokenV>, i: int) -> Option<TermOp> {
    match ts[i].token_type {
        TokenType::Plus => Some(TermOp::Plus),
        TokenType::Minus => Some(TermOp::Minus),
        _ => None,
    }
}

pub open spec fn spec_parse_term(ts: Seq<TokenV>, i: int, rest: Option<(TermOp, Box<TermV>)>) -> PRes<
    TermV,
>
    decreases ts.len() - i, 80int when wf_toks(ts) && 0 <= i < ts.len()
{
    match spec_parse_factor(ts, i, None) {
        PRes::Parsed(f, j) => match spec_term_op(ts, j) {
            Some(op) => spec_parse_term(
                ts,
                adv(ts, i, j + 1),
                Some((op, Box::new(TermV { factor: f, rest }))),
            ),
            None => PRes::Parsed(TermV { factor: f, rest }, j),
        },
        PRes::Fail(at, msg) => PRes::Fail(at, msg),
    }
}

/// Whether the token at `i` is a comparison operator, and which.
pub open spec fn spec_comparision_op(ts: Seq<TokenV>, i: int) -> Option<ComparisionOp> {
    match ts[i].token_type {
        TokenType::Greater => Some(ComparisionOp::Greater),
        TokenType::GreaterEqual => Some(ComparisionOp::GreaterEqual),
        TokenType::Less => Some(ComparisionOp::Less),
        TokenType::LessEqual => Some(ComparisionOp::LessEqual),
        _ => None,
    }
}

pub open spec fn spec_parse_comparision(
    ts: Seq<TokenV>,
    i: int,
    rest: Option<(ComparisionOp, Box<ComparisionV>)>,
) -> PRes<ComparisionV>
    decreases ts.len() - i, 90int when wf_toks(ts) && 0 <= i < ts.len()
{
    match spec_parse_term(ts, i, None) {
        PRes::Parsed(t, j) => match spec_comparision_op(ts, j) {
            Some(op) => spec_parse_comparision(
                ts,
                adv(ts, i, j + 1),
                Some((op, Box::new(ComparisionV { term: t, rest }))),
            ),
            None => PRes::Parsed(ComparisionV { term: t, rest }, j),
        },
        PRes::Fail(at, msg) => PRes::Fail(at, msg),
    }
}

/// Whether the token at `i` is an equality operator, and which.
pub open spec fn spec_equality_op(ts: Seq<TokenV>, i: int) -> Option<EqualityOp> {
    match ts[i].token_type {
        TokenType::BangEqual => Some(EqualityOp::NotEquals),
        TokenType::EqualEqual => Some(EqualityOp::EqualEquals),
        _ => None,
    }
}

pub open spec fn spec_parse_equality(
    ts: Seq<TokenV>,
    i: int,
    rest: Option<(EqualityOp, Box<EqualityV>)>,
) -> PRes<EqualityV>
    decreases ts.len() - i, 100int when wf_toks(ts) && 0 <= i < ts.len()
{
    match spec_parse_comparision(ts, i, None) {
        PRes::Parsed(c, j) => match spec_equality_op(ts, j) {
            Some(op) => spec_parse_equality(
                ts,
                adv(ts, i, j + 1),
                Some((op, Box::new(EqualityV { comparision: c, rest }))),
            ),
            None => PRes::Parsed(EqualityV { comparision: c, rest }, j),
        },
        PRes::Fail(at, msg) => PRes::Fail(at, msg),
    }
}

/// The rest of an `and` chain: the accumulated left part is `acc`.
pub open spec fn spec_parse_logic_and_more(ts: Seq<TokenV>, i: int, acc: LogicAndV) -> PRes<
    LogicAndV,
>
    decreases ts.len() - i, 110int when wf_toks(ts) && 0 <= i < ts.len()
{
    if ts[i].token_type == TokenType::And {
        match spec_parse_equality(ts, i + 1, None) {
            PRes::Parsed(e, j) => spec_parse_logic_and_more(
                ts,
                adv(ts, i, j),
                LogicAndV { eq: e, rest: Some(Box::new(acc)) },
            ),
            PRes::Fail(at, msg) => PRes::Fail(at, msg),
        }
    } else {
        PRes::Parsed(acc, i)
    }
}

pub open spec fn spec_parse_logic_and(ts: Seq<TokenV>, i: int) -> PRes<LogicAndV>
    decreases ts.len() - i, 120int when wf_toks(ts) && 0 <= i < ts.len()
{
    match spec_parse_equality(ts, i, None) {
        PRes::Parsed(e, j) => spec_parse_logic_and_more(
            ts,
            adv(ts, i, j),
            LogicAndV { eq: e, rest: None },
        ),
        PRes::Fail(at, msg) => PRes::Fail(at, msg),
    }
}

/// The rest of an `or` chain: the accumulated left part is `acc`.
pub open spec fn spec_parse_logic_or_more(ts: Seq<TokenV>, i: int, acc: LogicOrV) -> PRes<LogicOrV>
    decreases ts.len() - i, 130int when wf_toks(ts) && 0 <= i < ts.len()
{
    if ts[i].token_type == TokenType::Or {
        match spec_parse_logic_and(ts, i + 1) {
            PRes::Parsed(a, j) => spec_parse_logic_or_more(
                ts,
                adv(ts, i, j),
                LogicOrV { and: a, rest: Some(Box::new(acc)) },
            ),
            PRes::Fail(at, msg) => PRes::Fail(at, msg),
        }
    } else {
        PRes::Parsed(acc, i)
    }
}

pub open spec fn spec_parse_logic_or(ts: Seq<TokenV>, i: int) -> PRes<LogicOrV>
    decreases ts.len() - i, 140int when wf_toks(ts) && 0 <= i < ts.len()
{
    match spec_parse_logic_and(ts, i) {
        PRes::Parsed(a, j) => spec_parse_logic_or_more(ts, adv(ts, i, j), LogicOrV { and: a, rest: None }),
        PRes::Fail(at, msg) => PRes::Fail(at, msg),
    }
}

pub open spec fn spec_parse_assignment(ts: Seq<TokenV>, i: int) -> PRes<AssignmentV>
    decreases ts.len() - i, 150int when wf_toks(ts) && 0 <= i < ts.len()
{
    match spec_parse_ass(ts, i) {
        PRes::Parsed(a, j) => PRes::Parsed(a, j),
        PRes::Fail(_, _) => match spec_parse_logic_or(ts, i) {
            PRes::Parsed(o, j) => PRes::Parsed(AssignmentV::LogicOr(o), j),
            PRes::Fail(at, msg) => PRes::Fail(at, msg),
        },
    }
}

/// An assignable target: a call chain rooted in a plain identifier. That
/// is the only left-hand shape the evaluator can write through, so any
/// other shape left of `=` is rejected here, at parse time.
pub open spec fn assignable_target(c: CallV) -> bool {
    c.prime is Identifier
}

/// The assignment alternative alone: `target = value`. A target that is
/// not rooted in an identifier is the syntax error `Expect identifier`,
/// reported at the target's first token.
pub open spec fn spec_parse_ass(ts: Seq<TokenV>, i: int) -> PRes<AssignmentV>
    decreases ts.len() - i, 140int when wf_toks(ts) && 0 <= i < ts.len()
{
    match spec_parse_call(ts, i) {
        PRes::Parsed(c, j) => match spec_match_tok(ts, j, TokenType::Equal, "'=' in assignment"@) {
            PRes::Parsed(_, k) => if !assignable_target(c) {
                PRes::Fail(i, "Expect identifier"@)
            } else {
                match spec_parse_assignment(ts, adv(ts, i, k)) {
                    PRes::Parsed(a, m) => PRes::Parsed(AssignmentV::Assign(c, Box::new(a)), m),
                    PRes::Fail(at, msg) => PRes::Fail(at, msg),
                }
            },
            PRes::Fail(at, msg) => PRes::Fail(at, msg),
        },
        PRes::Fail(at, msg) => PRes::Fail(at, msg),
    }
}

/// What the target check guarantees: the parser never yields an
/// assignment node whose target is not rooted in an identifier — any
/// other left-hand shape fails the assignment alternative with
/// `Expect identifier` — so the evaluator's own rejection of such targets
/// can never be reached through a parsed program.
pub proof fn lemma_assignment_target_is_identifier(ts: Seq<TokenV>, i: int)
    requires
        wf_toks(ts),
        0 <= i < ts.len(),
    ensures
        spec_parse_assignment(ts, i) matches PRes::Parsed(a, _) ==> (a matches AssignmentV::Assign(
            c,
            _,
        ) ==> assignable_target(c)),
{
}

pub open spec fn spec_parse_expression(ts: Seq<TokenV>, i: int) -> PRes<ExpressionV>
    decreases ts.len() - i, 160int when wf_toks(ts) && 0 <= i < ts.len()
{
    match spec_parse_assignment(ts, i) {
        PRes::Parsed(a, j) => PRes::Parsed(ExpressionV(a), j),
        PRes::Fail(at, msg) => PRes::Fail(at, msg),
    }
}

/// The rest of an argument chain: the accumulated left part is `acc`.
pub open spec fn spec_parse_arguments_more(ts: Seq<TokenV>, i: int, acc: ArgumentsV) -> PRes<
    ArgumentsV,
>
    decreases ts.len() - i, 180int when wf_toks(ts) && 0 <= i < ts.len()
{
    if ts[i].token_type == TokenType::Comma {
        match spec_parse_expression(ts, i + 1) {
            PRes::Parsed(e, j) => spec_parse_arguments_more(
                ts,
                adv(ts, i, j),
                ArgumentsV { expr: e, rest: Some(Box::new(acc)) },
            ),
            PRes::Fail(at, msg) => PRes::Fail(at, msg),
        }
    } else {
        PRes::Parsed(acc, i)
    }
}

pub open spec fn spec_parse_arguments(ts: Seq<TokenV>, i: int) -> PRes<ArgumentsV>
    decreases ts.len() - i, 190int when wf_toks(ts) && 0 <= i < ts.len()
{
    match spec_parse_expression(ts, i) {
        PRes::Parsed(e, j) => spec_parse_arguments_more(
            ts,
            adv(ts, i, j),
            ArgumentsV { expr: e, rest: None },
        ),
        PRes::Fail(at, msg) => PRes::Fail(at, msg),
    }
}

pub open spec fn spec_parse_expr_stmt(ts: Seq<TokenV>, i: int) -> PRes<ExprStmtV>
    decreases ts.len() - i, 170int when wf_toks(ts) && 0 <= i < ts.len()
{
    match spec_parse_expression(ts, i) {
        PRes::Parsed(e, j) => match spec_match_tok(
            ts,
            j,
            TokenType::Semicolon,
            "';' after expression"@,
        ) {
            PRes::Parsed(_, k) => PRes::Parsed(ExprStmtV(e), k),
            PRes::Fail(at, msg) => PRes::Fail(at, msg),
        },
        PRes::Fail(at, msg) => PRes::Fail(at, msg),
    }
}

pub open spec fn spec_parse_var_decl(ts: Seq<TokenV>, i: int) -> PRes<VarDeclV>
    decreases ts.len() - i, 170int when wf_toks(ts) && 0 <= i < ts.len()
{
    match spec_match_tok(ts, i, TokenType::Var, "var"@) {
        PRes::Parsed(_, j) => match spec_get_identifier(ts, j) {
            PRes::Parsed(name, k) => match spec_match_tok(
                ts,
                k,
                TokenType::Equal,
                "'=' after var name"@,
            ) {
                PRes::Parsed(_, m) => match spec_parse_expression(ts, adv(ts, i, m)) {
                    PRes::Parsed(e, p) => match spec_match_tok(ts, p, TokenType::Semicolon, ";"@) {
                        PRes::Parsed(_, q) => PRes::Parsed(
                            VarDeclV { name, expr: Some(e) },
                            q,
                        ),
                        PRes::Fail(at, msg) => PRes::Fail(at, msg),
                    },
                    PRes::Fail(at, msg) => PRes::Fail(at, msg),
                },
                PRes::Fail(_, _) => match spec_match_tok(ts, k, TokenType::Semicolon, ";"@) {
                    PRes::Parsed(_, q) => PRes::Parsed(VarDeclV { name, expr: None }, q),
                    PRes::Fail(at, msg) => PRes::Fail(at, msg),
                },
            },
            PRes::Fail(at, msg) => PRes::Fail(at, msg),
        },
        PRes::Fail(at, msg) => PRes::Fail(at, msg),
    }
}

pub open spec fn spec_parse_prnt_stmt(ts: Seq<TokenV>, i: int) -> PRes<PrntStmtV>
    decreases ts.len() - i, 170int when wf_toks(ts) && 0 <= i < ts.len()
{
    match spec_match_tok(ts, i, TokenType::Print, "'print'"@) {
        PRes::Parsed(_, j) => match spec_parse_expression(ts, adv(ts, i, j)) {
            PRes::Parsed(e, k) => match spec_match_tok(ts, k, TokenType::Semicolon, ";"@) {
                PRes::Parsed(_, m) => PRes::Parsed(PrntStmtV(e), m),
                PRes::Fail(at, msg) => PRes::Fail(at, msg),
            },
            PRes::Fail(at, msg) => PRes::Fail(at, msg),
        },
        PRes::Fail(at, msg) => PRes::Fail(at, msg),
    }
}

pub open spec fn spec_parse_rtrn_stmt(ts: Seq<TokenV>, i: int) -> PRes<RtrnStmtV>
    decreases ts.len() - i, 170int when wf_toks(ts) && 0 <= i < ts.len()
{
    match spec_match_tok(ts, i, TokenType::Return, "'return'"@) {
        PRes::Parsed(_, j) => match spec_parse_expression(ts, adv(ts, i, j)) {
            PRes::Parsed(e, k) => match spec_match_tok(ts, k, TokenType::Semicolon, ";"@) {
                PRes::Parsed(_, m) => PRes::Parsed(RtrnStmtV(Some(e)), m),
                PRes::Fail(at, msg) => PRes::Fail(at, msg),
            },
            PRes::Fail(_, _) => match spec_match_tok(
                ts,
                adv(ts, i, j),
                TokenType::Semicolon,
                ";"@,
            ) {
                PRes::Parsed(_, m) => PRes::Parsed(RtrnStmtV(None), m),
                PRes::Fail(at, msg) => PRes::Fail(at, msg),
            },
        },
        PRes::Fail(at, msg) => PRes::Fail(at, msg),
    }
}

pub open spec fn spec_parse_if_stmt(ts: Seq<TokenV>, i: int) -> PRes<IfStmtV>
    decreases ts.len() - i, 170int when wf_toks(ts) && 0 <= i < ts.len()
{
    match spec_match_tok(ts, i, TokenType::If, "if"@) {
        PRes::Parsed(_, j1) => match spec_match_tok(ts, j1, TokenType::LeftParen, "'(' after if"@) {
            PRes::Parsed(_, j2) => match spec_parse_expression(ts, adv(ts, i, j2)) {
                PRes::Parsed(pred, j3) => match spec_match_tok(ts, j3, TokenType::RightParen, ")"@) {
                    PRes::Parsed(_, j4) => match spec_parse_statement(ts, adv(ts, i, j4)) {
                        PRes::Parsed(s1, j5) => if ts[j5].token_type == TokenType::Else {
                            match spec_parse_statement(ts, adv(ts, i, j5 + 1)) {
                                PRes::Parsed(s2, j6) => PRes::Parsed(
                                    IfStmtV {
                                        pred,
                                        if_stmt: Box::new(s1),
                                        else_stmt: Some(Box::new(s2)),
                                    },
                                    j6,
                                ),
                                PRes::Fail(at, msg) => PRes::Fail(at, msg),
                            }
                        } else {
                            PRes::Parsed(
                                IfStmtV { pred, if_stmt: Box::new(s1), else_stmt: None },
                                j5,
                            )
                        },
                        PRes::Fail(at, msg) => PRes::Fail(at, msg),
                    },
                    PRes::Fail(at, msg) => PRes::Fail(at, msg),
                },
                PRes::Fail(at, msg) => PRes::Fail(at, msg),
            },
            PRes::Fail(at, msg) => PRes::Fail(at, msg),
        },
        PRes::Fail(at, msg) => PRes::Fail(at, msg),
    }
}

pub open spec fn spec_parse_while_stmt(ts: Seq<TokenV>, i: int) -> PRes<WhileStmtV>
    decreases ts.len() - i, 170int when wf_toks(ts) && 0 <= i < ts.len()
{
    match spec_match_tok(ts, i, TokenType::While, "while"@) {
        PRes::Parsed(_, j1) => match spec_match_tok(
            ts,
            j1,
            TokenType::LeftParen,
            "'(' after while"@,
        ) {
            PRes::Parsed(_, j2) => match spec_parse_expression(ts, adv(ts, i, j2)) {
                PRes::Parsed(pred, j3) => match spec_match_tok(
                    ts,
                    j3,
                    TokenType::RightParen,
                    "')' after expression"@,
                ) {
                    PRes::Parsed(_, j4) => match spec_parse_statement(ts, adv(ts, i, j4)) {
                        PRes::Parsed(body, j5) => PRes::Parsed(
                            WhileStmtV { pred, stmt: Box::new(body) },
                            j5,
                        ),
                        PRes::Fail(at, msg) => PRes::Fail(at, msg),
                    },
                    PRes::Fail(at, msg) => PRes::Fail(at, msg),
                },
                PRes::Fail(at, msg) => PRes::Fail(at, msg),
            },
            PRes::Fail(at, msg) => PRes::Fail(at, msg),
        },
        PRes::Fail(at, msg) => PRes::Fail(at, msg),
    }
}

pub open spec fn spec_parse_for_dec(ts: Seq<TokenV>, i: int) -> PRes<ForDecV>
    decreases ts.len() - i, 180int when wf_toks(ts) && 0 <= i < ts.len()
{
    match spec_parse_var_decl(ts, i) {
        PRes::Parsed(v, j) => PRes::Parsed(ForDecV::VarDecl(v), j),
        PRes::Fail(_, _) => match spec_parse_expr_stmt(ts, i) {
            PRes::Parsed(e, j) => PRes::Parsed(ForDecV::ExprStmt(e), j),
            PRes::Fail(_, _) => match spec_match_tok(ts, i, TokenType::Semicolon, ";"@) {
                PRes::Parsed(_, j) => PRes::Parsed(ForDecV::Nil, j),
                PRes::Fail(at, msg) => PRes::Fail(at, msg),
            },
        },
    }
}

pub open spec fn spec_parse_for_stmt(ts: Seq<TokenV>, i: int) -> PRes<ForStmtV>
    decreases ts.len() - i, 190int when wf_toks(ts) && 0 <= i < ts.len()
{
    match spec_match_tok(ts, i, TokenType::For, "for"@) {
        PRes::Parsed(_, j1) => match spec_match_tok(ts, j1, TokenType::LeftParen, "'(' after for"@) {
            PRes::Parsed(_, j2) => match spec_parse_for_dec(ts, adv(ts, i, j2)) {
                PRes::Parsed(first_dec, j3) => {
                    let (scnd, j4) = match spec_parse_expression(ts, adv(ts, i, j3)) {
                        PRes::Parsed(e, k) => (Some(e), k),
                        PRes::Fail(_, _) => (None, adv(ts, i, j3)),
                    };
                    match spec_match_tok(ts, j4, TokenType::Semicolon, "';' in for"@) {
                        PRes::Parsed(_, j5) => {
                            let (thrd, j6) = match spec_parse_expression(ts, adv(ts, i, j5)) {
                                PRes::Parsed(e, k) => (Some(e), k),
                                PRes::Fail(_, _) => (None, adv(ts, i, j5)),
                            };
                            match spec_match_tok(
                                ts,
                                j6,
                                TokenType::RightParen,
                                "')' after expression"@,
                            ) {
                                PRes::Parsed(_, j7) => match spec_parse_statement(
                                    ts,
                                    adv(ts, i, j7),
                                ) {
                                    PRes::Parsed(body, j8) => PRes::Parsed(
                                        ForStmtV {
                                            first_dec,
                                            scnd_expr: scnd,
                                            thrd_expr: thrd,
                                            body: Box::new(body),
                                        },
                                        j8,
                                    ),
                                    PRes::Fail(at, msg) => PRes::Fail(at, msg),
                                },
                                PRes::Fail(at, msg) => PRes::Fail(at, msg),
                            }
                        },
                        PRes::Fail(at, msg) => PRes::Fail(at, msg),
                    }
                },
                PRes::Fail(at, msg) => PRes::Fail(at, msg),
            },
            PRes::Fail(at, msg) => PRes::Fail(at, msg),
        },
        PRes::Fail(at, msg) => PRes::Fail(at, msg),
    }
}

/// The declarations of a block, up to the first one that does not parse.
pub open spec fn spec_parse_block_decls(ts: Seq<TokenV>, i: int) -> (Seq<DeclarationV>, int)
    decreases ts.len() - i, 220int when wf_toks(ts) && 0 <= i < ts.len()
{
    match spec_parse_declaration(ts, i) {
        PRes::Parsed(d, j) => {
            let (rest, end) = spec_parse_block_decls(ts, adv(ts, i, j));
            (seq![d] + rest, end)
        },
        PRes::Fail(_, _) => (Seq::empty(), i),
    }
}

pub open spec fn spec_parse_block(ts: Seq<TokenV>, i: int) -> PRes<BlockV>
    decreases ts.len() - i, 170int when wf_toks(ts) && 0 <= i < ts.len()
{
    match spec_match_tok(ts, i, TokenType::LeftBrace, "'{' before block"@) {
        PRes::Parsed(_, j) => {
            let (ds, k) = spec_parse_block_decls(ts, adv(ts, i, j));
            match spec_match_tok(ts, k, TokenType::RightBrace, "'}' after block"@) {
                PRes::Parsed(_, m) => PRes::Parsed(BlockV(ds), m),
                PRes::Fail(at, msg) => PRes::Fail(at, msg),
            }
        },
        PRes::Fail(at, msg) => PRes::Fail(at, msg),
    }
}

pub open spec fn spec_parse_statement(ts: Seq<TokenV>, i: int) -> PRes<StatementV>
    decreases ts.len() - i, 200int when wf_toks(ts) && 0 <= i < ts.len()
{
    match spec_parse_expr_stmt(ts, i) {
        PRes::Parsed(e, j) => PRes::Parsed(StatementV::ExprStmt(e), j),
        PRes::Fail(_, _) => match spec_parse_for_stmt(ts, i) {
            PRes::Parsed(f, j) => PRes::Parsed(StatementV::ForStmt(f), j),
            PRes::Fail(_, _) => match spec_parse_if_stmt(ts, i) {
                PRes::Parsed(s, j) => PRes::Parsed(StatementV::IfStmt(s), j),
                PRes::Fail(_, _) => match spec_parse_prnt_stmt(ts, i) {
                    PRes::Parsed(p, j) => PRes::Parsed(StatementV::PrntStmt(p), j),
                    PRes::Fail(_, _) => match spec_parse_rtrn_stmt(ts, i) {
                        PRes::Parsed(r, j) => PRes::Parsed(StatementV::RtrnStmt(r), j),
                        PRes::Fail(_, _) => match spec_parse_while_stmt(ts, i) {
                            PRes::Parsed(w, j) => PRes::Parsed(StatementV::WhileStmt(w), j),
                            PRes::Fail(_, _) => match spec_parse_block(ts, i) {
                                PRes::Parsed(b, j) => PRes::Parsed(StatementV::Block(b), j),
                                PRes::Fail(at, msg) => PRes::Fail(at, msg),
                            },
                        },
                    },
                },
            },
        },
    }
}

/// The rest of a parameter chain: the accumulated left part is `acc`.
pub open spec fn spec_parse_parameters_more(ts: Seq<TokenV>, i: int, acc: ParametersV) -> PRes<
    ParametersV,
>
    decreases ts.len() - i, 170int when wf_toks(ts) && 0 <= i < ts.len()
{
    if ts[i].token_type == TokenType::Comma {
        match spec_get_identifier(ts, i + 1) {
            PRes::Parsed(name, j) => spec_parse_parameters_more(
                ts,
                adv(ts, i, j),
                ParametersV { param: name, rest: Some(Box::new(acc)) },
            ),
            PRes::Fail(at, msg) => PRes::Fail(at, msg),
        }
    } else {
        PRes::Parsed(acc, i)
    }
}

pub open spec fn spec_parse_parameters(ts: Seq<TokenV>, i: int) -> PRes<ParametersV>
    decreases ts.len() - i, 180int when wf_toks(ts) && 0 <= i < ts.len()
{
    match spec_get_identifier(ts, i) {
        PRes::Parsed(name, j) => spec_parse_parameters_more(
            ts,
            adv(ts, i, j),
            ParametersV { param: name, rest: None },
        ),
        PRes::Fail(at, msg) => PRes::Fail(at, msg),
    }
}

pub open spec fn spec_parse_function(ts: Seq<TokenV>, i: int) -> PRes<FunctionV>
    decreases ts.len() - i, 220int when wf_toks(ts) && 0 <= i < ts.len()
{
    match spec_get_identifier(ts, i) {
        PRes::Parsed(name, j1) => match spec_match_tok(ts, j1, TokenType::LeftParen, "("@) {
            PRes::Parsed(_, j2) => {
                let (params, j3) = match spec_parse_parameters(ts, adv(ts, i, j2)) {
                    PRes::Parsed(p, k) => (Some(p), k),
                    PRes::Fail(_, _) => (None, adv(ts, i, j2)),
                };
                match spec_match_tok(ts, j3, TokenType::RightParen, ")"@) {
                    PRes::Parsed(_, j4) => match spec_parse_block(ts, adv(ts, i, j4)) {
                        PRes::Parsed(body, j5) => PRes::Parsed(FunctionV { name, params, body }, j5),
                        PRes::Fail(at, msg) => PRes::Fail(at, msg),
                    },
                    PRes::Fail(at, msg) => PRes::Fail(at, msg),
                }
            },
            PRes::Fail(at, msg) => PRes::Fail(at, msg),
        },
        PRes::Fail(at, msg) => PRes::Fail(at, msg),
    }
}

/// The methods of a class body, up to the first token run that is not a
/// function.
pub open spec fn spec_parse_class_functions(ts: Seq<TokenV>, i: int) -> (Seq<FunctionV>, int)
    decreases ts.len() - i, 230int when wf_toks(ts) && 0 <= i < ts.len()
{
    match spec_parse_function(ts, i) {
        PRes::Parsed(f, j) => {
            let (rest, end) = spec_parse_class_functions(ts, adv(ts, i, j));
            (seq![f] + rest, end)
        },
        PRes::Fail(_, _) => (Seq::empty(), i),
    }
}

/// The class body from the `{`: the braces, the methods, and the finished
/// declaration.
pub open spec fn spec_parse_class_rest(
    ts: Seq<TokenV>,
    i: int,
    name: Seq<char>,
    sup: Option<Seq<char>>,
    j3: int,
) -> PRes<ClassDeclV>
    decreases ts.len() - i, 165int when wf_toks(ts) && 0 <= i < ts.len()
{
    match spec_match_tok(ts, j3, TokenType::LeftBrace, "'{' before class body"@) {
        PRes::Parsed(_, j4) => {
            let (fns, j5) = spec_parse_class_functions(ts, adv(ts, i, j4));
            match spec_match_tok(ts, j5, TokenType::RightBrace, "'}' after class body"@) {
                PRes::Parsed(_, j6) => PRes::Parsed(
                    ClassDeclV { name, super_class: sup, functions: fns },
                    j6,
                ),
                PRes::Fail(at, msg) => PRes::Fail(at, msg),
            }
        },
        PRes::Fail(at, msg) => PRes::Fail(at, msg),
    }
}

pub open spec fn spec_parse_class_decl(ts: Seq<TokenV>, i: int) -> PRes<ClassDeclV>
    decreases ts.len() - i, 170int when wf_toks(ts) && 0 <= i < ts.len()
{
    match spec_match_tok(ts, i, TokenType::Class, "class declaration"@) {
        PRes::Parsed(_, j1) => match spec_get_identifier(ts, adv(ts, i, j1)) {
            PRes::Parsed(name, j2) => if ts[j2].token_type == TokenType::Less {
                match spec_get_identifier(ts, j2 + 1) {
                    PRes::Parsed(s, k) => spec_parse_class_rest(ts, i, name, Some(s), k),
                    PRes::Fail(at, msg) => PRes::Fail(at, msg),
                }
            } else {
                spec_parse_class_rest(ts, i, name, None, j2)
            },
            PRes::Fail(at, msg) => PRes::Fail(at, msg),
        },
        PRes::Fail(at, msg) => PRes::Fail(at, msg),
    }
}

pub open spec fn spec_parse_fun_decl(ts: Seq<TokenV>, i: int) -> PRes<FunDeclV>
    decreases ts.len() - i, 170int when wf_toks(ts) && 0 <= i < ts.len()
{
    match spec_match_tok(ts, i, TokenType::Fun, "fun"@) {
        PRes::Parsed(_, j) => match spec_parse_function(ts, adv(ts, i, j)) {
            PRes::Parsed(f, k) => PRes::Parsed(FunDeclV(f), k),
            PRes::Fail(at, msg) => PRes::Fail(at, msg),
        },
        PRes::Fail(at, msg) => PRes::Fail(at, msg),
    }
}

pub open spec fn spec_parse_declaration(ts: Seq<TokenV>, i: int) -> PRes<DeclarationV>
    decreases ts.len() - i, 210int when wf_toks(ts) && 0 <= i < ts.len()
{
    match spec_parse_class_decl(ts, i) {
        PRes::Parsed(c, j) => PRes::Parsed(DeclarationV::ClassDecl(c), j),
        PRes::Fail(_, _) => match spec_parse_fun_decl(ts, i) {
            PRes::Parsed(f, j) => PRes::Parsed(DeclarationV::FunDecl(f), j),
            PRes::Fail(_, _) => match spec_parse_var_decl(ts, i) {
                PRes::Parsed(v, j) => PRes::Parsed(DeclarationV::VarDecl(v), j),
                PRes::Fail(_, _) => match spec_parse_statement(ts, i) {
                    PRes::Parsed(s, j) => PRes::Parsed(DeclarationV::Statement(s), j),
                    PRes::Fail(at, msg) => PRes::Fail(at, msg),
                },
            },
        },
    }
}

/// The declarations of a whole program, down to the `Eof` marker.
pub open spec fn spec_parse_program_decls(ts: Seq<TokenV>, i: int) -> PRes<Seq<DeclarationV>>
    decreases ts.len() - i, 240int when wf_toks(ts) && 0 <= i < ts.len()
{
    if ts[i].token_type == TokenType::Eof {
        PRes::Parsed(Seq::empty(), i)
    } else {
        match spec_parse_declaration(ts, i) {
            PRes::Parsed(d, j) => match spec_parse_program_decls(ts, adv(ts, i, j)) {
                PRes::Parsed(ds, k) => PRes::Parsed(seq![d] + ds, k),
                PRes::Fail(at, msg) => PRes::Fail(at, msg),
            },
            PRes::Fail(at, msg) => PRes::Fail(at, msg),
        }
    }
}

/// A whole program: every declaration down to the `Eof` marker.
pub open spec fn spec_parse_program(ts: Seq<TokenV>) -> PRes<ProgramV> {
    match spec_parse_program_decls(ts, 0) {
        PRes::Parsed(ds, k) => PRes::Parsed(ProgramV { declarations: ds }, k),
        PRes::Fail(at, msg) => PRes::Fail(at, msg),
    }
}

/// What the scanner produces is well formed: exactly one `Eof` marker, at
/// the end. This is what lets the parser run on a scan's tokens without
/// bounds checks.
pub proof fn lemma_scan_wf(s: Seq<char>, i: int, line: int)
    requires
        0 <= i <= s.len(),
    ensures
        wf_toks(spec_scan(s, i, line).toks),
    decreases s.len() - i,
{
    if i == s.len() {
    } else {
        let st = spec_step(s, i, line);
        lemma_step_bounds(s, i, line);
        lemma_scan_wf(s, st.next, st.line);
        let rest = spec_scan(s, st.next, st.line).toks;
        let whole = spec_scan(s, i, line).toks;
        assert(whole == st.toks + rest);
        assert(forall|k: int|
            0 <= k < st.toks.len() ==> (#[trigger] st.toks[k]).token_type != TokenType::Eof);
        assert(whole.len() == st.toks.len() + rest.len());
        assert(whole[whole.len() - 1] == rest[rest.len() - 1]);
        assert forall|k: int| 0 <= k < whole.len() - 1 implies (#[trigger] whole[k]).token_type
            != TokenType::Eof by {
            if k < st.toks.len() {
                assert(whole[k] == st.toks[k]);
            } else {
                assert(whole[k] == rest[k - st.toks.len()]);
            }
        }
    }
}

fn match_tok(toks: &Vec<Token>, i: usize, tp: TokenType, expect: &str) -> (r: Result<
    usize,
    ParseError,
>)
    requires
        wf_toks(toks_view(toks@)),
        i < toks@.len() <= usize::MAX,
        tp != TokenType::Eof,
    ensures
        ({
            let ts = toks_view(toks@);
            let sr = spec_match_tok(ts, i as int, tp, expect@);
            match r {
                Ok(j) => sr == PRes::<()>::Parsed((), j as int) && i < j && j < ts.len(),
                Err(e) => fail_matches(sr, ts, e@),
            }
        }),
{
    if toks[i].token_type == tp {
        Ok(i + 1)
    } else {
        let mut msg = String::from_str("Expect ");
        msg.append(expect);
        msg.append(".");
        Err(ParseError { tok: toks[i].clone_tok(), err: msg })
    }
}

fn get_identifier(toks: &Vec<Token>, i: usize) -> (r: Result<(String, usize), ParseError>)
    requires
        wf_toks(toks_view(toks@)),
        i < toks@.len() <= usize::MAX,
    ensures
        ({
            let ts = toks_view(toks@);
            match r {
                Ok(p) => spec_get_identifier(ts, i as int) == PRes::<Seq<char>>::Parsed(
                    p.0@,
                    p.1 as int,
                ) && i < p.1 && p.1 < ts.len(),
                Err(e) => fail_matches(spec_get_identifier(ts, i as int), ts, e@),
            }
        }),
{
    if toks[i].token_type == TokenType::Identifier {
        Ok((toks[i].lexeme.clone(), i + 1))
    } else {
        Err(ParseError { tok: toks[i].clone_tok(), err: String::from_str("Expect identifier.") })
    }
}

impl EqualityOp {
    pub fn parse(toks: &Vec<Token>, i: usize) -> (r: Result<(EqualityOp, usize), ParseError>)
        requires
            wf_toks(toks_view(toks@)),
            i < toks@.len() <= usize::MAX,
        ensures
            ({
                let ts = toks_view(toks@);
                match r {
                    Ok(p) => spec_equality_op(ts, i as int) == Some(p.0) && p.1 == i + 1 && p.1
                        < ts.len(),
                    Err(e) => spec_equality_op(ts, i as int) is None && e@.tok == ts[i as int]
                        && e@.err == "Expect != or ==."@,
                }
            }),
    {
        match toks[i].token_type {
            TokenType::BangEqual => Ok((EqualityOp::NotEquals, i + 1)),
            TokenType::EqualEqual => Ok((EqualityOp::EqualEquals, i + 1)),
            _ => Err(
                ParseError {
                    tok: toks[i].clone_tok(),
                    err: String::from_str("Expect != or ==."),
                },
            ),
        }
    }
}

impl ComparisionOp {
    pub fn parse(toks: &Vec<Token>, i: usize) -> (r: Result<(ComparisionOp, usize), ParseError>)
        requires
            wf_toks(toks_view(toks@)),
            i < toks@.len() <= usize::MAX,
        ensures
            ({
                let ts = toks_view(toks@);
                match r {
                    Ok(p) => spec_comparision_op(ts, i as int) == Some(p.0) && p.1 == i + 1 && p.1
                        < ts.len(),
                    Err(e) => spec_comparision_op(ts, i as int) is None && e@.tok == ts[i as int]
                        && e@.err == "Expect > or >= or < or <=."@,
                }
            }),
    {
        match toks[i].token_type {
            TokenType::Greater => Ok((ComparisionOp::Greater, i + 1)),
            TokenType::GreaterEqual => Ok((ComparisionOp::GreaterEqual, i + 1)),
            TokenType::Less => Ok((ComparisionOp::Less, i + 1)),
            TokenType::LessEqual => Ok((ComparisionOp::LessEqual, i + 1)),
            _ => Err(
                ParseError {
                    tok: toks[i].clone_tok(),
                    err: String::from_str("Expect > or >= or < or <=."),
                },
            ),
        }
    }
}

impl TermOp {
    pub fn parse(toks: &Vec<Token>, i: usize) -> (r: Result<(TermOp, usize), ParseError>)
        requires
            wf_toks(toks_view(toks@)),
            i < toks@.len() <= usize::MAX,
        ensures
            ({
                let ts = toks_view(toks@);
                match r {
                    Ok(p) => spec_term_op(ts, i as int) == Some(p.0) && p.1 == i + 1 && p.1
                        < ts.len(),
                    Err(e) => spec_term_op(ts, i as int) is None && e@.tok == ts[i as int] && e@.err
                        == "Expect - or +."@,
                }
            }),
    {
        match toks[i].token_type {
            TokenType::Minus => Ok((TermOp::Minus, i + 1)),
            TokenType::Plus => Ok((TermOp::Plus, i + 1)),
            _ => Err(
                ParseError { tok: toks[i].clone_tok(), err: String::from_str("Expect - or +.") },
            ),
        }
    }
}

impl FactorOp {
    pub fn parse(toks: &Vec<Token>, i: usize) -> (r: Result<(FactorOp, usize), ParseError>)
        requires
            wf_toks(toks_view(toks@)),
            i < toks@.len() <= usize::MAX,
        ensures
            ({
                let ts = toks_view(toks@);
                match r {
                    Ok(p) => spec_factor_op(ts, i as int) == Some(p.0) && p.1 == i + 1 && p.1
                        < ts.len(),
                    Err(e) => spec_factor_op(ts, i as int) is None && e@.tok == ts[i as int]
                        && e@.err == "Expect * or /."@,
                }
            }),
    {
        match toks[i].token_type {
            TokenType::Star => Ok((FactorOp::Mul, i + 1)),
            TokenType::Slash => Ok((FactorOp::Div, i + 1)),
            _ => Err(
                ParseError { tok: toks[i].clone_tok(), err: String::from_str("Expect * or /.") },
            ),
        }
    }
}

impl UnaryOp {
    pub fn parse(toks: &Vec<Token>, i: usize) -> (r: Result<(UnaryOp, usize), ParseError>)
        requires
            wf_toks(toks_view(toks@)),
            i < toks@.len() <= usize::MAX,
        ensures
            ({
                let ts = toks_view(toks@);
                match r {
                    Ok(p) => (ts[i as int].token_type == TokenType::Bang ==> p.0 == UnaryOp::Bang)
                        && (ts[i as int].token_type == TokenType::Minus ==> p.0 == UnaryOp::Minus)
                        && (ts[i as int].token_type == TokenType::Bang || ts[i as int].token_type
                        == TokenType::Minus) && p.1 == i + 1 && p.1 < ts.len(),
                    Err(e) => ts[i as int].token_type != TokenType::Bang && ts[i as int].token_type
                        != TokenType::Minus && e@.tok == ts[i as int] && e@.err
                        == "Expect ! or -."@,
                }
            }),
    {
        match toks[i].token_type {
            TokenType::Bang => Ok((UnaryOp::Bang, i + 1)),
            TokenType::Minus => Ok((UnaryOp::Minus, i + 1)),
            _ => Err(
                ParseError { tok: toks[i].clone_tok(), err: String::from_str("Expect ! or -.") },
            ),
        }
    }
}

impl Primary {
    pub fn parse(toks: &Vec<Token>, i: usize) -> (r: Result<(Primary, usize), ParseError>)
        requires
            wf_toks(toks_view(toks@)),
            i < toks@.len() <= usize::MAX,
        ensures
            ({
                let ts = toks_view(toks@);
                match r {
                    Ok(p) => spec_parse_primary(ts, i as int) == PRes::<PrimaryV>::Parsed(
                        p.0@,
                        p.1 as int,
                    ) && i < p.1 && p.1 < ts.len(),
                    Err(e) => fail_matches(spec_parse_primary(ts, i as int), ts, e@),
                }
            }),
        decreases toks@.len() - i, 20int,
    {
        match toks[i].token_type {
            TokenType::Number => match toks[i].literal.get_number() {
                Some(n) => Ok((Primary::Number(n), i + 1)),
                None => Err(
                    ParseError {
                        tok: toks[i].clone_tok(),
                        err: String::from_str("Expect number."),
                    },
                ),
            },
            TokenType::String => match toks[i].literal.get_string() {
                Some(s) => Ok((Primary::String(s), i + 1)),
                None => Err(
                    ParseError {
                        tok: toks[i].clone_tok(),
                        err: String::from_str("Expect string."),
                    },
                ),
            },
            TokenType::True => Ok((Primary::Boolean(true), i + 1)),
            TokenType::False => Ok((Primary::Boolean(false), i + 1)),
            TokenType::Nil => Ok((Primary::Nil, i + 1)),
            TokenType::This => Ok((Primary::This, i + 1)),
            TokenType::Super => match match_tok(toks, i + 1, TokenType::Dot, "'.' after super") {
                Ok(j) => match get_identifier(toks, j) {
                    Ok((id, k)) => Ok((Primary::SuperId(id), k)),
                    Err(e) => Err(e),
                },
                Err(e) => Err(e),
            },
            TokenType::Identifier => Ok((Primary::Identifier(toks[i].lexeme.clone()), i + 1)),
            TokenType::LeftParen => match Expression::parse(toks, i + 1) {
                Ok((e, j)) => match match_tok(toks, j, TokenType::RightParen, "expression") {
                    Ok(k) => Ok((Primary::ParenExpr(Box::new(e)), k)),
                    Err(e2) => Err(e2),
                },
                Err(e) => Err(e),
            },
            _ => Err(
                ParseError {
                    tok: toks[i].clone_tok(),
                    err: String::from_str("Expect expression."),
                },
            ),
        }
    }
}

impl Calling {
    pub fn parse(toks: &Vec<Token>, i: usize) -> (r: Result<(Calling, usize), ParseError>)
        requires
            wf_toks(toks_view(toks@)),
            i < toks@.len() <= usize::MAX,
        ensures
            ({
                let ts = toks_view(toks@);
                match r {
                    Ok(p) => spec_parse_calling(ts, i as int) == PRes::<CallingV>::Parsed(
                        p.0@,
                        p.1 as int,
                    ) && i < p.1 && p.1 < ts.len(),
                    Err(e) => fail_matches(spec_parse_calling(ts, i as int), ts, e@),
                }
            }),
        decreases toks@.len() - i, 30int,
    {
        match toks[i].token_type {
            TokenType::LeftParen => match Arguments::parse(toks, i + 1) {
                Ok((args, j)) => match match_tok(toks, j, TokenType::RightParen, "')'") {
                    Ok(k) => Ok((Calling::FuncCall(Some(args)), k)),
                    Err(e) => Err(e),
                },
                Err(_) => match match_tok(toks, i + 1, TokenType::RightParen, "')'") {
                    Ok(k) => Ok((Calling::FuncCall(None), k)),
                    Err(e) => Err(e),
                },
            },
            TokenType::Dot => match get_identifier(toks, i + 1) {
                Ok((id, j)) => Ok((Calling::Mthd(id), j)),
                Err(e) => Err(e),
            },
            _ => Err(
                ParseError {
                    tok: toks[i].clone_tok(),
                    err: String::from_str("Expect '(' or '.'"),
                },
            ),
        }
    }
}

fn callings_all(toks: &Vec<Token>, i: usize) -> (r: (Vec<Calling>, usize))
    requires
        wf_toks(toks_view(toks@)),
        i < toks@.len() <= usize::MAX,
    ensures
        ({
            let ts = toks_view(toks@);
            let sr = spec_parse_callings(ts, i as int);
            view_callings(r.0@) == sr.0 && r.1 as int == sr.1 && i <= r.1 && r.1 < ts.len()
        }),
    decreases toks@.len() - i, 40int,
{
    match Calling::parse(toks, i) {
        Ok((c, j)) => {
            let (mut rest, end) = callings_all(toks, j);
            proof {
                assert(rest@.insert(0, c).drop_first() =~= rest@);
            }
            rest.insert(0, c);
            (rest, end)
        },
        Err(_) => (Vec::new(), i),
    }
}

impl Call {
    pub fn parse(toks: &Vec<Token>, i: usize) -> (r: Result<(Call, usize), ParseError>)
        requires
            wf_toks(toks_view(toks@)),
            i < toks@.len() <= usize::MAX,
        ensures
            ({
                let ts = toks_view(toks@);
                match r {
                    Ok(p) => spec_parse_call(ts, i as int) == PRes::<CallV>::Parsed(
                        p.0@,
                        p.1 as int,
                    ) && i < p.1 && p.1 < ts.len(),
                    Err(e) => fail_matches(spec_parse_call(ts, i as int), ts, e@),
                }
            }),
        decreases toks@.len() - i, 50int,
    {
        match Primary::parse(toks, i) {
            Ok((p, j)) => {
                let (rest, end) = callings_all(toks, j);
                Ok((Call { prime: p, rest }, end))
            },
            Err(e) => Err(e),
        }
    }
}

impl Unary {
    pub fn parse(toks: &Vec<Token>, i: usize) -> (r: Result<(Unary, usize), ParseError>)
        requires
            wf_toks(toks_view(toks@)),
            i < toks@.len() <= usize::MAX,
        ensures
            ({
                let ts = toks_view(toks@);
                match r {
                    Ok(p) => spec_parse_unary(ts, i as int) == PRes::<UnaryV>::Parsed(
                        p.0@,
                        p.1 as int,
                    ) && i < p.1 && p.1 < ts.len(),
                    Err(e) => fail_matches(spec_parse_unary(ts, i as int), ts, e@),
                }
            }),
        decreases toks@.len() - i, 60int,
    {
        match UnaryOp::parse(toks, i) {
            Ok((op, j)) => match Unary::parse(toks, j) {
                Ok((u, k)) => Ok((Unary::Un(op, Box::new(u)), k)),
                Err(e) => Err(e),
            },
            Err(_) => match Call::parse(toks, i) {
                Ok((c, j)) => Ok((Unary::Call(c), j)),
                Err(e) => Err(e),
            },
        }
    }
}

/// The accumulated tail of a factor chain, seen mathematically.
pub open spec fn factor_rest_view(r: &Option<(FactorOp, Box<Factor>)>) -> Option<
    (FactorOp, Box<FactorV>),
> {
    match r {
        Some((op, b)) => Some((*op, Box::new((**b)@))),
        None => None,
    }
}

impl Factor {
    pub fn parse(toks: &Vec<Token>, i: usize, rest: Option<(FactorOp, Box<Factor>)>) -> (r: Result<
        (Factor, usize),
        ParseError,
    >)
        requires
            wf_toks(toks_view(toks@)),
            i < toks@.len() <= usize::MAX,
        ensures
            ({
                let ts = toks_view(toks@);
                let sr = spec_parse_factor(ts, i as int, factor_rest_view(&rest));
                match r {
                    Ok(p) => sr == PRes::<FactorV>::Parsed(p.0@, p.1 as int) && i < p.1 && p.1
                        < ts.len(),
                    Err(e) => fail_matches(sr, ts, e@),
                }
            }),
        decreases toks@.len() - i, 70int,
    {
        match Unary::parse(toks, i) {
            Ok((u, j)) => match FactorOp::parse(toks, j) {
                Ok((op, j2)) => Factor::parse(
                    toks,
                    j2,
                    Some((op, Box::new(Factor { unary: u, rest }))),
                ),
                Err(_) => Ok((Factor { unary: u, rest }, j)),
            },
            Err(e) => Err(e),
        }
    }
}

/// The accumulated tail of a term chain, seen mathematically.
pub open spec fn term_rest_view(r: &Option<(TermOp, Box<Term>)>) -> Option<(TermOp, Box<TermV>)> {
    match r {
        Some((op, b)) => Some((*op, Box::new((**b)@))),
        None => None,
    }
}

impl Term {
    pub fn parse(toks: &Vec<Token>, i: usize, rest: Option<(TermOp, Box<Term>)>) -> (r: Result<
        (Term, usize),
        ParseError,
    >)
        requires
            wf_toks(toks_view(toks@)),
            i < toks@.len() <= usize::MAX,
        ensures
            ({
                let ts = toks_view(toks@);
                let sr = spec_parse_term(ts, i as int, term_rest_view(&rest));
                match r {
                    Ok(p) => sr == PRes::<TermV>::Parsed(p.0@, p.1 as int) && i < p.1 && p.1
                        < ts.len(),
                    Err(e) => fail_matches(sr, ts, e@),
                }
            }),
        decreases toks@.len() - i, 80int,
    {
        match Factor::parse(toks, i, None) {
            Ok((f, j)) => match TermOp::parse(toks, j) {
                Ok((op, j2)) => Term::parse(toks, j2, Some((op, Box::new(Term { factor: f, rest })))),
                Err(_) => Ok((Term { factor: f, rest }, j)),
            },
            Err(e) => Err(e),
        }
    }
}

/// The accumulated tail of a comparison chain, seen mathematically.
pub open spec fn comp_rest_view(r: &Option<(ComparisionOp, Box<Comparision>)>) -> Option<
    (ComparisionOp, Box<ComparisionV>),
> {
    match r {
        Some((op, b)) => Some((*op, Box::new((**b)@))),
        None => None,
    }
}

impl Comparision {
    pub fn parse(toks: &Vec<Token>, i: usize, rest: Option<(ComparisionOp, Box<Comparision>)>) -> (r:
        Result<(Comparision, usize), ParseError>)
        requires
            wf_toks(toks_view(toks@)),
            i < toks@.len() <= usize::MAX,
        ensures
            ({
                let ts = toks_view(toks@);
                let sr = spec_parse_comparision(ts, i as int, comp_rest_view(&rest));
                match r {
                    Ok(p) => sr == PRes::<ComparisionV>::Parsed(p.0@, p.1 as int) && i < p.1 && p.1
                        < ts.len(),
                    Err(e) => fail_matches(sr, ts, e@),
                }
            }),
        decreases toks@.len() - i, 90int,
    {
        match Term::parse(toks, i, None) {
            Ok((t, j)) => match ComparisionOp::parse(toks, j) {
                Ok((op, j2)) => Comparision::parse(
                    toks,
                    j2,
                    Some((op, Box::new(Comparision { term: t, rest }))),
                ),
                Err(_) => Ok((Comparision { term: t, rest }, j)),
            },
            Err(e) => Err(e),
        }
    }
}

/// The accumulated tail of an equality chain, seen mathematically.
pub open spec fn eq_rest_view(r: &Option<(EqualityOp, Box<Equality>)>) -> Option<
    (EqualityOp, Box<EqualityV>),
> {
    match r {
        Some((op, b)) => Some((*op, Box::new((**b)@))),
        None => None,
    }
}

impl Equality {
    pub fn parse(toks: &Vec<Token>, i: usize, rest: Option<(EqualityOp, Box<Equality>)>) -> (r:
        Result<(Equality, usize), ParseError>)
        requires
            wf_toks(toks_view(toks@)),
            i < toks@.len() <= usize::MAX,
        ensures
            ({
                let ts = toks_view(toks@);
                let sr = spec_parse_equality(ts, i as int, eq_rest_view(&rest));
                match r {
                    Ok(p) => sr == PRes::<EqualityV>::Parsed(p.0@, p.1 as int) && i < p.1 && p.1
                        < ts.len(),
                    Err(e) => fail_matches(sr, ts, e@),
                }
            }),
        decreases toks@.len() - i, 100int,
    {
        match Comparision::parse(toks, i, None) {
            Ok((c, j)) => match EqualityOp::parse(toks, j) {
                Ok((op, j2)) => Equality::parse(
                    toks,
                    j2,
                    Some((op, Box::new(Equality { comparision: c, rest }))),
                ),
                Err(_) => Ok((Equality { comparision: c, rest }, j)),
            },
            Err(e) => Err(e),
        }
    }
}

fn logic_and_more(toks: &Vec<Token>, i: usize, acc: LogicAnd) -> (r: Result<
    (LogicAnd, usize),
    ParseError,
>)
    requires
        wf_toks(toks_view(toks@)),
        i < toks@.len() <= usize::MAX,
    ensures
        ({
            let ts = toks_view(toks@);
            let sr = spec_parse_logic_and_more(ts, i as int, acc@);
            match r {
                Ok(p) => sr == PRes::<LogicAndV>::Parsed(p.0@, p.1 as int) && i <= p.1 && p.1
                    < ts.len(),
                Err(e) => fail_matches(sr, ts, e@),
            }
        }),
    decreases toks@.len() - i, 110int,
{
    if toks[i].token_type == TokenType::And {
        match Equality::parse(toks, i + 1, None) {
            Ok((e, j)) => logic_and_more(toks, j, LogicAnd { eq: e, rest: Some(Box::new(acc)) }),
            Err(e) => Err(e),
        }
    } else {
        Ok((acc, i))
    }
}

impl LogicAnd {
    pub fn parse(toks: &Vec<Token>, i: usize) -> (r: Result<(LogicAnd, usize), ParseError>)
        requires
            wf_toks(toks_view(toks@)),
            i < toks@.len() <= usize::MAX,
        ensures
            ({
                let ts = toks_view(toks@);
                match r {
                    Ok(p) => spec_parse_logic_and(ts, i as int) == PRes::<LogicAndV>::Parsed(
                        p.0@,
                        p.1 as int,
                    ) && i < p.1 && p.1 < ts.len(),
                    Err(e) => fail_matches(spec_parse_logic_and(ts, i as int), ts, e@),
                }
            }),
        decreases toks@.len() - i, 120int,
    {
        match Equality::parse(toks, i, None) {
            Ok((e, j)) => logic_and_more(toks, j, LogicAnd { eq: e, rest: None }),
            Err(e) => Err(e),
        }
    }
}

fn logic_or_more(toks: &Vec<Token>, i: usize, acc: LogicOr) -> (r: Result<
    (LogicOr, usize),
    ParseError,
>)
    requires
        wf_toks(toks_view(toks@)),
        i < toks@.len() <= usize::MAX,
    ensures
        ({
            let ts = toks_view(toks@);
            let sr = spec_parse_logic_or_more(ts, i as int, acc@);
            match r {
                Ok(p) => sr == PRes::<LogicOrV>::Parsed(p.0@, p.1 as int) && i <= p.1 && p.1
                    < ts.len(),
                Err(e) => fail_matches(sr, ts, e@),
            }
        }),
    decreases toks@.len() - i, 130int,
{
    if toks[i].token_type == TokenType::Or {
        match LogicAnd::parse(toks, i + 1) {
            Ok((a, j)) => logic_or_more(toks, j, LogicOr { and: a, rest: Some(Box::new(acc)) }),
            Err(e) => Err(e),
        }
    } else {
        Ok((acc, i))
    }
}

impl LogicOr {
    pub fn parse(toks: &Vec<Token>, i: usize) -> (r: Result<(LogicOr, usize), ParseError>)
        requires
            wf_toks(toks_view(toks@)),
            i < toks@.len() <= usize::MAX,
        ensures
            ({
                let ts = toks_view(toks@);
                match r {
                    Ok(p) => spec_parse_logic_or(ts, i as int) == PRes::<LogicOrV>::Parsed(
                        p.0@,
                        p.1 as int,
                    ) && i < p.1 && p.1 < ts.len(),
                    Err(e) => fail_matches(spec_parse_logic_or(ts, i as int), ts, e@),
                }
            }),
        decreases toks@.len() - i, 140int,
    {
        match LogicAnd::parse(toks, i) {
            Ok((a, j)) => logic_or_more(toks, j, LogicOr { and: a, rest: None }),
            Err(e) => Err(e),
        }
    }
}

impl Assignment {
    /// The assignment alternative alone: `target = value`.
    pub fn parse_ass(toks: &Vec<Token>, i: usize) -> (r: Result<(Assignment, usize), ParseError>)
        requires
            wf_toks(toks_view(toks@)),
            i < toks@.len() <= usize::MAX,
        ensures
            ({
                let ts = toks_view(toks@);
                match r {
                    Ok(p) => spec_parse_ass(ts, i as int) == PRes::<AssignmentV>::Parsed(
                        p.0@,
                        p.1 as int,
                    ) && i < p.1 && p.1 < ts.len(),
                    Err(e) => fail_matches(spec_parse_ass(ts, i as int), ts, e@),
                }
            }),
        decreases toks@.len() - i, 140int,
    {
        match Call::parse(toks, i) {
            Ok((c, j)) => match match_tok(toks, j, TokenType::Equal, "'=' in assignment") {
                Ok(k) => match &c.prime {
                    Primary::Identifier(_) => match Assignment::parse(toks, k) {
                        Ok((a, m)) => Ok((Assignment::Assign(c, Box::new(a)), m)),
                        Err(e) => Err(e),
                    },
                    _ => Err(
                        ParseError {
                            tok: toks[i].clone_tok(),
                            err: String::from_str("Expect identifier"),
                        },
                    ),
                },
                Err(e) => Err(e),
            },
            Err(e) => Err(e),
        }
    }

    /// The plain-expression alternative.
    pub fn parse_logic_or(toks: &Vec<Token>, i: usize) -> (r: Result<
        (Assignment, usize),
        ParseError,
    >)
        requires
            wf_toks(toks_view(toks@)),
            i < toks@.len() <= usize::MAX,
        ensures
            ({
                let ts = toks_view(toks@);
                match r {
                    Ok(p) => ({
                        let sr = spec_parse_logic_or(ts, i as int);
                        match p.0 {
                            Assignment::LogicOr(o) => sr == PRes::<LogicOrV>::Parsed(
                                o@,
                                p.1 as int,
                            ),
                            _ => false,
                        }
                    }) && i < p.1 && p.1 < ts.len(),
                    Err(e) => fail_matches(spec_parse_logic_or(ts, i as int), ts, e@),
                }
            }),
        decreases toks@.len() - i, 145int,
    {
        match LogicOr::parse(toks, i) {
            Ok((o, j)) => Ok((Assignment::LogicOr(o), j)),
            Err(e) => Err(e),
        }
    }

    pub fn parse(toks: &Vec<Token>, i: usize) -> (r: Result<(Assignment, usize), ParseError>)
        requires
            wf_toks(toks_view(toks@)),
            i < toks@.len() <= usize::MAX,
        ensures
            ({
                let ts = toks_view(toks@);
                match r {
                    Ok(p) => spec_parse_assignment(ts, i as int) == PRes::<AssignmentV>::Parsed(
                        p.0@,
                        p.1 as int,
                    ) && i < p.1 && p.1 < ts.len(),
                    Err(e) => fail_matches(spec_parse_assignment(ts, i as int), ts, e@),
                }
            }),
        decreases toks@.len() - i, 150int,
    {
        match Assignment::parse_ass(toks, i) {
            Ok(p) => Ok(p),
            Err(_) => Assignment::parse_logic_or(toks, i),
        }
    }
}

impl Expression {
    pub fn parse(toks: &Vec<Token>, i: usize) -> (r: Result<(Expression, usize), ParseError>)
        requires
            wf_toks(toks_view(toks@)),
            i < toks@.len() <= usize::MAX,
        ensures
            ({
                let ts = toks_view(toks@);
                match r {
                    Ok(p) => spec_parse_expression(ts, i as int) == PRes::<ExpressionV>::Parsed(
                        p.0@,
                        p.1 as int,
                    ) && i < p.1 && p.1 < ts.len(),
                    Err(e) => fail_matches(spec_parse_expression(ts, i as int), ts, e@),
                }
            }),
        decreases toks@.len() - i, 160int,
    {
        match Assignment::parse(toks, i) {
            Ok((a, j)) => Ok((Expression(a), j)),
            Err(e) => Err(e),
        }
    }
}

fn arguments_more(toks: &Vec<Token>, i: usize, acc: Arguments) -> (r: Result<
    (Arguments, usize),
    ParseError,
>)
    requires
        wf_toks(toks_view(toks@)),
        i < toks@.len() <= usize::MAX,
    ensures
        ({
            let ts = toks_view(toks@);
            let sr = spec_parse_arguments_more(ts, i as int, acc@);
            match r {
                Ok(p) => sr == PRes::<ArgumentsV>::Parsed(p.0@, p.1 as int) && i <= p.1 && p.1
                    < ts.len(),
                Err(e) => fail_matches(sr, ts, e@),
            }
        }),
    decreases toks@.len() - i, 180int,
{
    if toks[i].token_type == TokenType::Comma {
        match Expression::parse(toks, i + 1) {
            Ok((e, j)) => arguments_more(toks, j, Arguments { expr: e, rest: Some(Box::new(acc)) }),
            Err(e) => Err(e),
        }
    } else {
        Ok((acc, i))
    }
}

impl ExprStmt {
    pub fn parse(toks: &Vec<Token>, i: usize) -> (r: Result<(ExprStmt, usize), ParseError>)
        requires
            wf_toks(toks_view(toks@)),
            i < toks@.len() <= usize::MAX,
        ensures
            ({
                let ts = toks_view(toks@);
                match r {
                    Ok(p) => spec_parse_expr_stmt(ts, i as int) == PRes::<ExprStmtV>::Parsed(
                        p.0@,
                        p.1 as int,
                    ) && i < p.1 && p.1 < ts.len(),
                    Err(e) => fail_matches(spec_parse_expr_stmt(ts, i as int), ts, e@),
                }
            }),
        decreases toks@.len() - i, 170int,
    {
        match Expression::parse(toks, i) {
            Ok((e, j)) => match match_tok(toks, j, TokenType::Semicolon, "';' after expression") {
                Ok(k) => Ok((ExprStmt(e), k)),
                Err(e2) => Err(e2),
            },
            Err(e) => Err(e),
        }
    }
}

impl VarDecl {
    pub fn parse(toks: &Vec<Token>, i: usize) -> (r: Result<(VarDecl, usize), ParseError>)
        requires
            wf_toks(toks_view(toks@)),
            i < toks@.len() <= usize::MAX,
        ensures
            ({
                let ts = toks_view(toks@);
                match r {
                    Ok(p) => spec_parse_var_decl(ts, i as int) == PRes::<VarDeclV>::Parsed(
                        p.0@,
                        p.1 as int,
                    ) && i < p.1 && p.1 < ts.len(),
                    Err(e) => fail_matches(spec_parse_var_decl(ts, i as int), ts, e@),
                }
            }),
        decreases toks@.len() - i, 170int,
    {
        match match_tok(toks, i, TokenType::Var, "var") {
            Ok(j) => match get_identifier(toks, j) {
                Ok((name, k)) => match match_tok(toks, k, TokenType::Equal, "'=' after var name") {
                    Ok(m) => match Expression::parse(toks, m) {
                        Ok((e, p)) => match match_tok(toks, p, TokenType::Semicolon, ";") {
                            Ok(q) => Ok((VarDecl { name, expr: Some(e) }, q)),
                            Err(e2) => Err(e2),
                        },
                        Err(e2) => Err(e2),
                    },
                    Err(_) => match match_tok(toks, k, TokenType::Semicolon, ";") {
                        Ok(q) => Ok((VarDecl { name, expr: None }, q)),
                        Err(e2) => Err(e2),
                    },
                },
                Err(e) => Err(e),
            },
            Err(e) => Err(e),
        }
    }
}

impl PrntStmt {
    pub fn parse(toks: &Vec<Token>, i: usize) -> (r: Result<(PrntStmt, usize), ParseError>)
        requires
            wf_toks(toks_view(toks@)),
            i < toks@.len() <= usize::MAX,
        ensures
            ({
                let ts = toks_view(toks@);
                match r {
                    Ok(p) => spec_parse_prnt_stmt(ts, i as int) == PRes::<PrntStmtV>::Parsed(
                        p.0@,
                        p.1 as int,
                    ) && i < p.1 && p.1 < ts.len(),
                    Err(e) => fail_matches(spec_parse_prnt_stmt(ts, i as int), ts, e@),
                }
            }),
        decreases toks@.len() - i, 170int,
    {
        match match_tok(toks, i, TokenType::Print, "'print'") {
            Ok(j) => match Expression::parse(toks, j) {
                Ok((e, k)) => match match_tok(toks, k, TokenType::Semicolon, ";") {
                    Ok(m) => Ok((PrntStmt(e), m)),
                    Err(e2) => Err(e2),
                },
                Err(e2) => Err(e2),
            },
            Err(e) => Err(e),
        }
    }
}

impl RtrnStmt {
    pub fn parse(toks: &Vec<Token>, i: usize) -> (r: Result<(RtrnStmt, usize), ParseError>)
        requires
            wf_toks(toks_view(toks@)),
            i < toks@.len() <= usize::MAX,
        ensures
            ({
                let ts = toks_view(toks@);
                match r {
                    Ok(p) => spec_parse_rtrn_stmt(ts, i as int) == PRes::<RtrnStmtV>::Parsed(
                        p.0@,
                        p.1 as int,
                    ) && i < p.1 && p.1 < ts.len(),
                    Err(e) => fail_matches(spec_parse_rtrn_stmt(ts, i as int), ts, e@),
                }
            }),
        decreases toks@.len() - i, 170int,
    {
        match match_tok(toks, i, TokenType::Return, "'return'") {
            Ok(j) => match Expression::parse(toks, j) {
                Ok((e, k)) => match match_tok(toks, k, TokenType::Semicolon, ";") {
                    Ok(m) => Ok((RtrnStmt(Some(e)), m)),
                    Err(e2) => Err(e2),
                },
                Err(_) => match match_tok(toks, j, TokenType::Semicolon, ";") {
                    Ok(m) => Ok((RtrnStmt(None), m)),
                    Err(e2) => Err(e2),
                },
            },
            Err(e) => Err(e),
        }
    }
}

impl IfStmt {
    pub fn parse(toks: &Vec<Token>, i: usize) -> (r: Result<(IfStmt, usize), ParseError>)
        requires
            wf_toks(toks_view(toks@)),
            i < toks@.len() <= usize::MAX,
        ensures
            ({
                let ts = toks_view(toks@);
                match r {
                    Ok(p) => spec_parse_if_stmt(ts, i as int) == PRes::<IfStmtV>::Parsed(
                        p.0@,
                        p.1 as int,
                    ) && i < p.1 && p.1 < ts.len(),
                    Err(e) => fail_matches(spec_parse_if_stmt(ts, i as int), ts, e@),
                }
            }),
        decreases toks@.len() - i, 170int,
    {
        match match_tok(toks, i, TokenType::If, "if") {
            Ok(j1) => match match_tok(toks, j1, TokenType::LeftParen, "'(' after if") {
                Ok(j2) => match Expression::parse(toks, j2) {
                    Ok((pred, j3)) => match match_tok(toks, j3, TokenType::RightParen, ")") {
                        Ok(j4) => match Statement::parse(toks, j4) {
                            Ok((s1, j5)) => {
                                if toks[j5].token_type == TokenType::Else {
                                    match Statement::parse(toks, j5 + 1) {
                                        Ok((s2, j6)) => Ok(
                                            (
                                                IfStmt {
                                                    pred,
                                                    if_stmt: Box::new(s1),
                                                    else_stmt: Some(Box::new(s2)),
                                                },
                                                j6,
                                            ),
                                        ),
                                        Err(e) => Err(e),
                                    }
                                } else {
                                    Ok(
                                        (
                                            IfStmt {
                                                pred,
                                                if_stmt: Box::new(s1),
                                                else_stmt: None,
                                            },
                                            j5,
                                        ),
                                    )
                                }
                            },
                            Err(e) => Err(e),
                        },
                        Err(e) => Err(e),
                    },
                    Err(e) => Err(e),
                },
                Err(e) => Err(e),
            },
            Err(e) => Err(e),
        }
    }
}

impl WhileStmt {
    pub fn parse(toks: &Vec<Token>, i: usize) -> (r: Result<(WhileStmt, usize), ParseError>)
        requires
            wf_toks(toks_view(toks@)),
            i < toks@.len() <= usize::MAX,
        ensures
            ({
                let ts = toks_view(toks@);
                match r {
                    Ok(p) => spec_parse_while_stmt(ts, i as int) == PRes::<WhileStmtV>::Parsed(
                        p.0@,
                        p.1 as int,
                    ) && i < p.1 && p.1 < ts.len(),
                    Err(e) => fail_matches(spec_parse_while_stmt(ts, i as int), ts, e@),
                }
            }),
        decreases toks@.len() - i, 170int,
    {
        match match_tok(toks, i, TokenType::While, "while") {
            Ok(j1) => match match_tok(toks, j1, TokenType::LeftParen, "'(' after while") {
                Ok(j2) => match Expression::parse(toks, j2) {
                    Ok((pred, j3)) => match match_tok(
                        toks,
                        j3,
                        TokenType::RightParen,
                        "')' after expression",
                    ) {
                        Ok(j4) => match Statement::parse(toks, j4) {
                            Ok((body, j5)) => Ok((WhileStmt { pred, stmt: Box::new(body) }, j5)),
                            Err(e) => Err(e),
                        },
                        Err(e) => Err(e),
                    },
                    Err(e) => Err(e),
                },
                Err(e) => Err(e),
            },
            Err(e) => Err(e),
        }
    }
}

impl ForDec {
    pub fn parse(toks: &Vec<Token>, i: usize) -> (r: Result<(ForDec, usize), ParseError>)
        requires
            wf_toks(toks_view(toks@)),
            i < toks@.len() <= usize::MAX,
        ensures
            ({
                let ts = toks_view(toks@);
                match r {
                    Ok(p) => spec_parse_for_dec(ts, i as int) == PRes::<ForDecV>::Parsed(
                        p.0@,
                        p.1 as int,
                    ) && i < p.1 && p.1 < ts.len(),
                    Err(e) => fail_matches(spec_parse_for_dec(ts, i as int), ts, e@),
                }
            }),
        decreases toks@.len() - i, 180int,
    {
        match VarDecl::parse(toks, i) {
            Ok((v, j)) => Ok((ForDec::VarDecl(v), j)),
            Err(_) => match ExprStmt::parse(toks, i) {
                Ok((e, j)) => Ok((ForDec::ExprStmt(e), j)),
                Err(_) => match match_tok(toks, i, TokenType::Semicolon, ";") {
                    Ok(j) => Ok((ForDec::Nil, j)),
                    Err(e) => Err(e),
                },
            },
        }
    }
}

impl ForStmt {
    pub fn parse(toks: &Vec<Token>, i: usize) -> (r: Result<(ForStmt, usize), ParseError>)
        requires
            wf_toks(toks_view(toks@)),
            i < toks@.len() <= usize::MAX,
        ensures
            ({
                let ts = toks_view(toks@);
                match r {
                    Ok(p) => spec_parse_for_stmt(ts, i as int) == PRes::<ForStmtV>::Parsed(
                        p.0@,
                        p.1 as int,
                    ) && i < p.1 && p.1 < ts.len(),
                    Err(e) => fail_matches(spec_parse_for_stmt(ts, i as int), ts, e@),
                }
            }),
        decreases toks@.len() - i, 190int,
    {
        match match_tok(toks, i, TokenType::For, "for") {
            Ok(j1) => match match_tok(toks, j1, TokenType::LeftParen, "'(' after for") {
                Ok(j2) => match ForDec::parse(toks, j2) {
                    Ok((first_dec, j3)) => {
                        let (scnd, j4) = match Expression::parse(toks, j3) {
                            Ok((e, k)) => (Some(e), k),
                            Err(_) => (None, j3),
                        };
                        match match_tok(toks, j4, TokenType::Semicolon, "';' in for") {
                            Ok(j5) => {
                                let (thrd, j6) = match Expression::parse(toks, j5) {
                                    Ok((e, k)) => (Some(e), k),
                                    Err(_) => (None, j5),
                                };
                                match match_tok(
                                    toks,
                                    j6,
                                    TokenType::RightParen,
                                    "')' after expression",
                                ) {
                                    Ok(j7) => match Statement::parse(toks, j7) {
                                        Ok((body, j8)) => Ok(
                                            (
                                                ForStmt {
                                                    first_dec,
                                                    scnd_expr: scnd,
                                                    thrd_expr: thrd,
                                                    body: Box::new(body),
                                                },
                                                j8,
                                            ),
                                        ),
                                        Err(e) => Err(e),
                                    },
                                    Err(e) => Err(e),
                                }
                            },
                            Err(e) => Err(e),
                        }
                    },
                    Err(e) => Err(e),
                },
                Err(e) => Err(e),
            },
            Err(e) => Err(e),
        }
    }
}

fn block_decls_all(toks: &Vec<Token>, i: usize) -> (r: (Vec<Declaration>, usize))
    requires
        wf_toks(toks_view(toks@)),
        i < toks@.len() <= usize::MAX,
    ensures
        ({
            let ts = toks_view(toks@);
            let sr = spec_parse_block_decls(ts, i as int);
            view_declarations(r.0@) == sr.0 && r.1 as int == sr.1 && i <= r.1 && r.1 < ts.len()
        }),
    decreases toks@.len() - i, 220int,
{
    match Declaration::parse(toks, i) {
        Ok((d, j)) => {
            let (mut rest, end) = block_decls_all(toks, j);
            proof {
                assert(rest@.insert(0, d).drop_first() =~= rest@);
            }
            rest.insert(0, d);
            (rest, end)
        },
        Err(_) => (Vec::new(), i),
    }
}

impl Block {
    pub fn parse(toks: &Vec<Token>, i: usize) -> (r: Result<(Block, usize), ParseError>)
        requires
            wf_toks(toks_view(toks@)),
            i < toks@.len() <= usize::MAX,
        ensures
            ({
                let ts = toks_view(toks@);
                match r {
                    Ok(p) => spec_parse_block(ts, i as int) == PRes::<BlockV>::Parsed(
                        p.0@,
                        p.1 as int,
                    ) && i < p.1 && p.1 < ts.len(),
                    Err(e) => fail_matches(spec_parse_block(ts, i as int), ts, e@),
                }
            }),
        decreases toks@.len() - i, 170int,
    {
        match match_tok(toks, i, TokenType::LeftBrace, "'{' before block") {
            Ok(j) => {
                let (ds, k) = block_decls_all(toks, j);
                match match_tok(toks, k, TokenType::RightBrace, "'}' after block") {
                    Ok(m) => Ok((Block(ds), m)),
                    Err(e) => Err(e),
                }
            },
            Err(e) => Err(e),
        }
    }
}

impl Statement {
    pub fn parse(toks: &Vec<Token>, i: usize) -> (r: Result<(Statement, usize), ParseError>)
        requires
            wf_toks(toks_view(toks@)),
            i < toks@.len() <= usize::MAX,
        ensures
            ({
                let ts = toks_view(toks@);
                match r {
                    Ok(p) => spec_parse_statement(ts, i as int) == PRes::<StatementV>::Parsed(
                        p.0@,
                        p.1 as int,
                    ) && i < p.1 && p.1 < ts.len(),
                    Err(e) => fail_matches(spec_parse_statement(ts, i as int), ts, e@),
                }
            }),
        decreases toks@.len() - i, 200int,
    {
        match ExprStmt::parse(toks, i) {
            Ok((e, j)) => Ok((Statement::ExprStmt(e), j)),
            Err(_) => match ForStmt::parse(toks, i) {
                Ok((f, j)) => Ok((Statement::ForStmt(f), j)),
                Err(_) => match IfStmt::parse(toks, i) {
                    Ok((s, j)) => Ok((Statement::IfStmt(s), j)),
                    Err(_) => match PrntStmt::parse(toks, i) {
                        Ok((p, j)) => Ok((Statement::PrntStmt(p), j)),
                        Err(_) => match RtrnStmt::parse(toks, i) {
                            Ok((rr, j)) => Ok((Statement::RtrnStmt(rr), j)),
                            Err(_) => match WhileStmt::parse(toks, i) {
                                Ok((w, j)) => Ok((Statement::WhileStmt(w), j)),
                                Err(_) => match Block::parse(toks, i) {
                                    Ok((b, j)) => Ok((Statement::Block(b), j)),
                                    Err(e) => Err(e),
                                },
                            },
                        },
                    },
                },
            },
        }
    }
}

fn parameters_more(toks: &Vec<Token>, i: usize, acc: Parameters) -> (r: Result<
    (Parameters, usize),
    ParseError,
>)
    requires
        wf_toks(toks_view(toks@)),
        i < toks@.len() <= usize::MAX,
    ensures
        ({
            let ts = toks_view(toks@);
            let sr = spec_parse_parameters_more(ts, i as int, acc@);
            match r {
                Ok(p) => sr == PRes::<ParametersV>::Parsed(p.0@, p.1 as int) && i <= p.1 && p.1
                    < ts.len(),
                Err(e) => fail_matches(sr, ts, e@),
            }
        }),
    decreases toks@.len() - i, 170int,
{
    if toks[i].token_type == TokenType::Comma {
        match get_identifier(toks, i + 1) {
            Ok((name, j)) => parameters_more(
                toks,
                j,
                Parameters { param: name, rest: Some(Box::new(acc)) },
            ),
            Err(e) => Err(e),
        }
    } else {
        Ok((acc, i))
    }
}

impl Parameters {
    pub fn parse(toks: &Vec<Token>, i: usize) -> (r: Result<(Parameters, usize), ParseError>)
        requires
            wf_toks(toks_view(toks@)),
            i < toks@.len() <= usize::MAX,
        ensures
            ({
                let ts = toks_view(toks@);
                match r {
                    Ok(p) => spec_parse_parameters(ts, i as int) == PRes::<ParametersV>::Parsed(
                        p.0@,
                        p.1 as int,
                    ) && i < p.1 && p.1 < ts.len(),
                    Err(e) => fail_matches(spec_parse_parameters(ts, i as int), ts, e@),
                }
            }),
        decreases toks@.len() - i, 180int,
    {
        match get_identifier(toks, i) {
            Ok((name, j)) => parameters_more(toks, j, Parameters { param: name, rest: None }),
            Err(e) => Err(e),
        }
    }
}

impl Function {
    pub fn parse(toks: &Vec<Token>, i: usize) -> (r: Result<(Function, usize), ParseError>)
        requires
            wf_toks(toks_view(toks@)),
            i < toks@.len() <= usize::MAX,
        ensures
            ({
                let ts = toks_view(toks@);
                match r {
                    Ok(p) => spec_parse_function(ts, i as int) == PRes::<FunctionV>::Parsed(
                        p.0@,
                        p.1 as int,
                    ) && i < p.1 && p.1 < ts.len(),
                    Err(e) => fail_matches(spec_parse_function(ts, i as int), ts, e@),
                }
            }),
        decreases toks@.len() - i, 220int,
    {
        match get_identifier(toks, i) {
            Ok((name, j1)) => match match_tok(toks, j1, TokenType::LeftParen, "(") {
                Ok(j2) => {
                    let (params, j3) = match Parameters::parse(toks, j2) {
                        Ok((p, k)) => (Some(p), k),
                        Err(_) => (None, j2),
                    };
                    match match_tok(toks, j3, TokenType::RightParen, ")") {
                        Ok(j4) => match Block::parse(toks, j4) {
                            Ok((body, j5)) => Ok(
                                (Function { name, params, body: std::rc::Rc::new(body) }, j5),
                            ),
                            Err(e) => Err(e),
                        },
                        Err(e) => Err(e),
                    }
                },
                Err(e) => Err(e),
            },
            Err(e) => Err(e),
        }
    }
}

fn class_functions_all(toks: &Vec<Token>, i: usize) -> (r: (Vec<Function>, usize))
    requires
        wf_toks(toks_view(toks@)),
        i < toks@.len() <= usize::MAX,
    ensures
        ({
            let ts = toks_view(toks@);
            let sr = spec_parse_class_functions(ts, i as int);
            view_functions(r.0@) == sr.0 && r.1 as int == sr.1 && i <= r.1 && r.1 < ts.len()
        }),
    decreases toks@.len() - i, 230int,
{
    match Function::parse(toks, i) {
        Ok((f, j)) => {
            let (mut rest, end) = class_functions_all(toks, j);
            proof {
                assert(rest@.insert(0, f).drop_first() =~= rest@);
            }
            rest.insert(0, f);
            (rest, end)
        },
        Err(_) => (Vec::new(), i),
    }
}

impl ClassDecl {
    pub fn parse(toks: &Vec<Token>, i: usize) -> (r: Result<(ClassDecl, usize), ParseError>)
        requires
            wf_toks(toks_view(toks@)),
            i < toks@.len() <= usize::MAX,
        ensures
            ({
                let ts = toks_view(toks@);
                match r {
                    Ok(p) => spec_parse_class_decl(ts, i as int) == PRes::<ClassDeclV>::Parsed(
                        p.0@,
                        p.1 as int,
                    ) && i < p.1 && p.1 < ts.len(),
                    Err(e) => fail_matches(spec_parse_class_decl(ts, i as int), ts, e@),
                }
            }),
        decreases toks@.len() - i, 170int,
    {
        match match_tok(toks, i, TokenType::Class, "class declaration") {
            Ok(j1) => match get_identifier(toks, j1) {
                Ok((name, j2)) => {
                    if toks[j2].token_type == TokenType::Less {
                        match get_identifier(toks, j2 + 1) {
                            Ok((sup, k)) => Self::parse_rest(toks, i, name, Some(sup), k),
                            Err(e) => Err(e),
                        }
                    } else {
                        Self::parse_rest(toks, i, name, None, j2)
                    }
                },
                Err(e) => Err(e),
            },
            Err(e) => Err(e),
        }
    }

    fn parse_rest(toks: &Vec<Token>, i: usize, name: String, sup: Option<String>, j3: usize) -> (r:
        Result<(ClassDecl, usize), ParseError>)
        requires
            wf_toks(toks_view(toks@)),
            i < toks@.len() <= usize::MAX,
            i < j3 < toks@.len(),
        ensures
            ({
                let ts = toks_view(toks@);
                let sup_v: Option<Seq<char>> = match sup {
                    Some(s) => Some(s@),
                    None => None,
                };
                let sr = spec_parse_class_rest(ts, i as int, name@, sup_v, j3 as int);
                match r {
                    Ok(p) => sr == PRes::<ClassDeclV>::Parsed(p.0@, p.1 as int) && i < p.1 && p.1
                        < ts.len(),
                    Err(e) => fail_matches(sr, ts, e@),
                }
            }),
        decreases toks@.len() - i, 165int,
    {
        match match_tok(toks, j3, TokenType::LeftBrace, "'{' before class body") {
            Ok(j4) => {
                let (fns, j5) = class_functions_all(toks, j4);
                match match_tok(toks, j5, TokenType::RightBrace, "'}' after class body") {
                    Ok(j6) => Ok((ClassDecl { name, super_class: sup, functions: fns }, j6)),
                    Err(e) => Err(e),
                }
            },
            Err(e) => Err(e),
        }
    }
}

impl FunDecl {
    pub fn parse(toks: &Vec<Token>, i: usize) -> (r: Result<(FunDecl, usize), ParseError>)
        requires
            wf_toks(toks_view(toks@)),
            i < toks@.len() <= usize::MAX,
        ensures
            ({
                let ts = toks_view(toks@);
                match r {
                    Ok(p) => spec_parse_fun_decl(ts, i as int) == PRes::<FunDeclV>::Parsed(
                        p.0@,
                        p.1 as int,
                    ) && i < p.1 && p.1 < ts.len(),
                    Err(e) => fail_matches(spec_parse_fun_decl(ts, i as int), ts, e@),
                }
            }),
        decreases toks@.len() - i, 170int,
    {
        match match_tok(toks, i, TokenType::Fun, "fun") {
            Ok(j) => match Function::parse(toks, j) {
                Ok((f, k)) => Ok((FunDecl(f), k)),
                Err(e) => Err(e),
            },
            Err(e) => Err(e),
        }
    }
}

impl Declaration {
    pub fn parse(toks: &Vec<Token>, i: usize) -> (r: Result<(Declaration, usize), ParseError>)
        requires
            wf_toks(toks_view(toks@)),
            i < toks@.len() <= usize::MAX,
        ensures
            ({
                let ts = toks_view(toks@);
                match r {
                    Ok(p) => spec_parse_declaration(ts, i as int) == PRes::<DeclarationV>::Parsed(
                        p.0@,
                        p.1 as int,
                    ) && i < p.1 && p.1 < ts.len(),
                    Err(e) => fail_matches(spec_parse_declaration(ts, i as int), ts, e@),
                }
            }),
        decreases toks@.len() - i, 210int,
    {
        match ClassDecl::parse(toks, i) {
            Ok((c, j)) => Ok((Declaration::ClassDecl(c), j)),
            Err(_) => match FunDecl::parse(toks, i) {
                Ok((f, j)) => Ok((Declaration::FunDecl(f), j)),
                Err(_) => match VarDecl::parse(toks, i) {
                    Ok((v, j)) => Ok((Declaration::VarDecl(v), j)),
                    Err(_) => match Statement::parse(toks, i) {
                        Ok((s, j)) => Ok((Declaration::Statement(s), j)),
                        Err(e) => Err(e),
                    },
                },
            },
        }
    }
}

fn program_decls(toks: &Vec<Token>, i: usize) -> (r: Result<(Vec<Declaration>, usize), ParseError>)
    requires
        wf_toks(toks_view(toks@)),
        i < toks@.len() <= usize::MAX,
    ensures
        ({
            let ts = toks_view(toks@);
            let sr = spec_parse_program_decls(ts, i as int);
            match r {
                Ok(p) => sr == PRes::<Seq<DeclarationV>>::Parsed(view_declarations(p.0@), p.1 as int)
                    && i <= p.1 && p.1 < ts.len(),
                Err(e) => fail_matches(sr, ts, e@),
            }
        }),
    decreases toks@.len() - i, 240int,
{
    if toks[i].token_type == TokenType::Eof {
        Ok((Vec::new(), i))
    } else {
        match Declaration::parse(toks, i) {
            Ok((d, j)) => match program_decls(toks, j) {
                Ok((mut ds, k)) => {
                    proof {
                        assert(ds@.insert(0, d).drop_first() =~= ds@);
                    }
                    ds.insert(0, d);
                    Ok((ds, k))
                },
                Err(e) => Err(e),
            },
            Err(e) => Err(e),
        }
    }
}

impl Program {
    pub fn parse(toks: &Vec<Token>) -> (r: Result<Program, ParseError>)
        requires
            wf_toks(toks_view(toks@)),
        ensures
            ({
                let ts = toks_view(toks@);
                match r {
                    Ok(p) => ({
                        match spec_parse_program(ts) {
                            PRes::Parsed(pv, _) => p@ == pv,
                            PRes::Fail(_, _) => false,
                        }
                    }),
                    Err(e) => fail_matches(spec_parse_program(ts), ts, e@),
                }
            }),
    {
        proof {
            vstd::std_specs::vec::axiom_spec_len(toks);
        }
        match program_decls(toks, 0) {
            Ok((ds, _)) => Ok(Program { declarations: ds }),
            Err(e) => Err(e),
        }
    }
}

/// The parser: the token sequence it reads, and, after a successful
/// parse, the program it built.
pub struct Parser {
    pub src: Vec<Token>,
    pub program: Option<Program>,
}

impl Parser {
    /// A parser over the given tokens, with nothing parsed yet.
    pub fn new(input: Vec<Token>) -> (p: Parser)
        ensures
            p.src@ == input@,
            p.program is None,
    {
        Parser { src: input, program: None }
    }

    /// Parses the whole token sequence into a program, storing it on
    /// success and returning the first blocking syntax error otherwise.
    pub fn parse(&mut self) -> (r: Result<(), ParseError>)
        requires
            wf_toks(toks_view(old(self).src@)),
        ensures
            final(self).src@ == old(self).src@,
            ({
                let ts = toks_view(old(self).src@);
                match r {
                    Ok(_) => ({
                        match spec_parse_program(ts) {
                            PRes::Parsed(pv, _) => final(self).program matches Some(p) && p@ == pv,
                            PRes::Fail(_, _) => false,
                        }
                    }),
                    Err(e) => fail_matches(spec_parse_program(ts), ts, e@) && final(self).program
                        == old(self).program,
                }
            }),
    {
        match Program::parse(&self.src) {
            Ok(p) => {
                self.program = Some(p);
                Ok(())
            },
            Err(e) => Err(e),
        }
    }
}

impl Arguments {
    pub fn parse(toks: &Vec<Token>, i: usize) -> (r: Result<(Arguments, usize), ParseError>)
        requires
            wf_toks(toks_view(toks@)),
            i < toks@.len() <= usize::MAX,
        ensures
            ({
                let ts = toks_view(toks@);
                match r {
                    Ok(p) => spec_parse_arguments(ts, i as int) == PRes::<ArgumentsV>::Parsed(
                        p.0@,
                        p.1 as int,
                    ) && i < p.1 && p.1 < ts.len(),
                    Err(e) => fail_matches(spec_parse_arguments(ts, i as int), ts, e@),
                }
            }),
        decreases toks@.len() - i, 190int,
    {
        match Expression::parse(toks, i) {
            Ok((e, j)) => arguments_more(toks, j, Arguments { expr: e, rest: None }),
            Err(e) => Err(e),
        }
    }
}

} // verus!
