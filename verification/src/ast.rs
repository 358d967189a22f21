//! The syntax tree: expressions as a strictly layered precedence chain,
//! declarations and statements. Pure data, no behavior beyond the literal
//! getters.
//!
//! Each binary layer holds one operand of the next-lower layer plus an
//! optional `(operator, rest)` tail, where `rest` is the accumulated left
//! part of the chain: the storage leans right, but the first-parsed operand
//! sits innermost, so the evaluator folds the chain left-associatively by
//! evaluating `rest` first.

use std::rc::Rc;

use vstd::prelude::*;

verus! {

/// A full expression: assignment is the lowest-precedence layer.
pub struct Expression(pub Assignment);

/// Either an assignment `target = value`, or a plain `or`-expression.
pub enum Assignment {
    Assign(Call, Box<Assignment>),
    LogicOr(LogicOr),
}

/// A chain of `or`-operands. `rest` is the left part of the chain.
pub struct LogicOr {
    pub and: LogicAnd,
    pub rest: Option<Box<LogicOr>>,
}

/// A chain of `and`-operands. `rest` is the left part of the chain.
pub struct LogicAnd {
    pub eq: Equality,
    pub rest: Option<Box<LogicAnd>>,
}

/// A chain of `==`/`!=` comparisons. `rest` is the left part.
pub struct Equality {
    pub comparision: Comparision,
    pub rest: Option<(EqualityOp, Box<Equality>)>,
}

/// A chain of `<`/`<=`/`>`/`>=` comparisons. `rest` is the left part.
pub struct Comparision {
    pub term: Term,
    pub rest: Option<(ComparisionOp, Box<Comparision>)>,
}

/// A chain of `+`/`-` operands. `rest` is the left part.
pub struct Term {
    pub factor: Factor,
    pub rest: Option<(TermOp, Box<Term>)>,
}

/// A chain of `*`/`/` operands. `rest` is the left part.
pub struct Factor {
    pub unary: Unary,
    pub rest: Option<(FactorOp, Box<Factor>)>,
}

/// A prefix `!`/`-` (right-associative), or a postfix call chain.
pub enum Unary {
    Un(UnaryOp, Box<Unary>),
    Call(Call),
}

/// A primary followed by zero or more postfix suffixes, applied left to
/// right.
pub struct Call {
    pub prime: Primary,
    pub rest: Vec<Calling>,
}

/// One postfix suffix: an invocation `(args)` or a property access `.name`.
pub enum Calling {
    FuncCall(Option<Arguments>),
    Mthd(String),
}

/// The literals and atoms of the grammar.
pub enum Primary {
    Number(i64),
    String(String),
    Boolean(bool),
    Identifier(String),
    ParenExpr(Box<Expression>),
    SuperId(String),
    This,
    Nil,
}

/// Prefix operators.
pub enum UnaryOp {
    Minus,
    Bang,
}

/// Equality operators.
pub enum EqualityOp {
    NotEquals,
    EqualEquals,
}

/// Ordering operators.
pub enum ComparisionOp {
    Less,
    LessEqual,
    Greater,
    GreaterEqual,
}

/// Additive operators.
pub enum TermOp {
    Plus,
    Minus,
}

/// Multiplicative operators.
pub enum FactorOp {
    Mul,
    Div,
}

impl Primary {
    /// The numeric payload, if this primary is a number literal.
    pub fn get_number(&self) -> (r: Option<i64>)
        ensures
            match self {
                Primary::Number(n) => r == Some(*n),
                _ => r is None,
            },
    {
        match self {
            Primary::Number(n) => Some(*n),
            _ => None,
        }
    }

    /// The string payload, if this primary is a string literal.
    pub fn get_string(&self) -> (r: Option<String>)
        ensures
            match self {
                Primary::String(s) => r is Some && r->0@ == s@,
                _ => r is None,
            },
    {
        match self {
            Primary::String(s) => Some(s.clone()),
            _ => None,
        }
    }

    /// The boolean payload, if this primary is a boolean literal.
    pub fn get_bool(&self) -> (r: Option<bool>)
        ensures
            match self {
                Primary::Boolean(b) => r == Some(*b),
                _ => r is None,
            },
    {
        match self {
            Primary::Boolean(b) => Some(*b),
            _ => None,
        }
    }
}

/// Top-level items: class, function and variable declarations, and
/// statements.
pub enum Declaration {
    ClassDecl(ClassDecl),
    FunDecl(FunDecl),
    VarDecl(VarDecl),
    Statement(Statement),
}

/// `class NAME (< SUPER)? { Function* }`.
pub struct ClassDecl {
    pub name: String,
    pub super_class: Option<String>,
    pub functions: Vec<Function>,
}

/// `fun` followed by a function.
pub struct FunDecl(pub Function);

/// `var NAME (= EXPR)? ;` — without an initializer the name is bound to
/// nil.
pub struct VarDecl {
    pub name: String,
    pub expr: Option<Expression>,
}

/// A named function: parameter list and block body. The body is shared,
/// so that every function value made from this declaration points at the
/// same tree.
pub struct Function {
    pub name: String,
    pub params: Option<Parameters>,
    pub body: Rc<Block>,
}

/// A nonempty chain of parameter names. `rest` is the left part of the
/// chain, so the first-declared parameter sits innermost.
pub struct Parameters {
    pub param: String,
    pub rest: Option<Box<Parameters>>,
}

/// A nonempty chain of argument expressions. `rest` is the left part of
/// the chain, so the first-written argument sits innermost.
pub struct Arguments {
    pub expr: Expression,
    pub rest: Option<Box<Arguments>>,
}

/// The statement forms.
pub enum Statement {
    ExprStmt(ExprStmt),
    ForStmt(ForStmt),
    IfStmt(IfStmt),
    PrntStmt(PrntStmt),
    RtrnStmt(RtrnStmt),
    WhileStmt(WhileStmt),
    Block(Block),
}

/// An expression evaluated for its effect, `EXPR ;`.
pub struct ExprStmt(pub Expression);

/// `for (INIT; COND; POST) BODY` — evaluated as a while loop inside one
/// extra scope for the initializer's bindings.
pub struct ForStmt {
    pub first_dec: ForDec,
    pub scnd_expr: Option<Expression>,
    pub thrd_expr: Option<Expression>,
    pub body: Box<Statement>,
}

/// The initializer clause of a `for` statement.
pub enum ForDec {
    VarDecl(VarDecl),
    ExprStmt(ExprStmt),
    Nil,
}

/// `if (COND) S1 (else S2)?`.
pub struct IfStmt {
    pub pred: Expression,
    pub if_stmt: Box<Statement>,
    pub else_stmt: Option<Box<Statement>>,
}

/// `print EXPR ;`.
pub struct PrntStmt(pub Expression);

/// `return EXPR? ;`.
pub struct RtrnStmt(pub Option<Expression>);

/// `while (COND) BODY`.
pub struct WhileStmt {
    pub pred: Expression,
    pub stmt: Box<Statement>,
}

/// `{ Declaration* }` — one new scope, entered on entry and left on exit.
pub struct Block(pub Vec<Declaration>);

/// A whole program: an ordered sequence of declarations.
pub struct Program {
    pub declarations: Vec<Declaration>,
}

// The mathematical mirror of the syntax tree: the same shapes with
// `Seq<char>` for names and `Seq` for lists. The parser's and evaluator's
// specifications speak of these.

/// Mathematical mirror of [`Expression`].
pub struct ExpressionV(pub AssignmentV);

/// Mathematical mirror of [`Assignment`].
pub enum AssignmentV {
    Assign(CallV, Box<AssignmentV>),
    LogicOr(LogicOrV),
}

/// Mathematical mirror of [`LogicOr`].
pub struct LogicOrV {
    pub and: LogicAndV,
    pub rest: Option<Box<LogicOrV>>,
}

/// Mathematical mirror of [`LogicAnd`].
pub struct LogicAndV {
    pub eq: EqualityV,
    pub rest: Option<Box<LogicAndV>>,
}

/// Mathematical mirror of [`Equality`].
pub struct EqualityV {
    pub comparision: ComparisionV,
    pub rest: Option<(EqualityOp, Box<EqualityV>)>,
}

/// Mathematical mirror of [`Comparision`].
pub struct ComparisionV {
    pub term: TermV,
    pub rest: Option<(ComparisionOp, Box<ComparisionV>)>,
}

/// Mathematical mirror of [`Term`].
pub struct TermV {
    pub factor: FactorV,
    pub rest: Option<(TermOp, Box<TermV>)>,
}

/// Mathematical mirror of [`Factor`].
pub struct FactorV {
    pub unary: UnaryV,
    pub rest: Option<(FactorOp, Box<FactorV>)>,
}

/// Mathematical mirror of [`Unary`].
pub enum UnaryV {
    Un(UnaryOp, Box<UnaryV>),
    Call(CallV),
}

/// Mathematical mirror of [`Call`].
pub struct CallV {
    pub prime: PrimaryV,
    pub rest: Seq<CallingV>,
}

/// Mathematical mirror of [`Calling`].
pub enum CallingV {
    FuncCall(Option<ArgumentsV>),
    Mthd(Seq<char>),
}

/// Mathematical mirror of [`Primary`].
pub enum PrimaryV {
    Number(i64),
    String(Seq<char>),
    Boolean(bool),
    Identifier(Seq<char>),
    ParenExpr(Box<ExpressionV>),
    SuperId(Seq<char>),
    This,
    Nil,
}

/// Mathematical mirror of [`Declaration`].
pub enum DeclarationV {
    ClassDecl(ClassDeclV),
    FunDecl(FunDeclV),
    VarDecl(VarDeclV),
    Statement(StatementV),
}

/// Mathematical mirror of [`ClassDecl`].
pub struct ClassDeclV {
    pub name: Seq<char>,
    pub super_class: Option<Seq<char>>,
    pub functions: Seq<FunctionV>,
}

/// Mathematical mirror of [`FunDecl`].
pub struct FunDeclV(pub FunctionV);

/// Mathematical mirror of [`VarDecl`].
pub struct VarDeclV {
    pub name: Seq<char>,
    pub expr: Option<ExpressionV>,
}

/// Mathematical mirror of [`Function`].
pub struct FunctionV {
    pub name: Seq<char>,
    pub params: Option<ParametersV>,
    pub body: BlockV,
}

/// Mathematical mirror of [`Parameters`].
pub struct ParametersV {
    pub param: Seq<char>,
    pub rest: Option<Box<ParametersV>>,
}

/// Mathematical mirror of [`Arguments`].
pub struct ArgumentsV {
    pub expr: ExpressionV,
    pub rest: Option<Box<ArgumentsV>>,
}

/// Mathematical mirror of [`Statement`].
pub enum StatementV {
    ExprStmt(ExprStmtV),
    ForStmt(ForStmtV),
    IfStmt(IfStmtV),
    PrntStmt(PrntStmtV),
    RtrnStmt(RtrnStmtV),
    WhileStmt(WhileStmtV),
    Block(BlockV),
}

/// Mathematical mirror of [`ExprStmt`].
pub struct ExprStmtV(pub ExpressionV);

/// Mathematical mirror of [`ForStmt`].
pub struct ForStmtV {
    pub first_dec: ForDecV,
    pub scnd_expr: Option<ExpressionV>,
    pub thrd_expr: Option<ExpressionV>,
    pub body: Box<StatementV>,
}

/// Mathematical mirror of [`ForDec`].
pub enum ForDecV {
    VarDecl(VarDeclV),
    ExprStmt(ExprStmtV),
    Nil,
}

/// Mathematical mirror of [`IfStmt`].
pub struct IfStmtV {
    pub pred: ExpressionV,
    pub if_stmt: Box<StatementV>,
    pub else_stmt: Option<Box<StatementV>>,
}

/// Mathematical mirror of [`PrntStmt`].
pub struct PrntStmtV(pub ExpressionV);

/// Mathematical mirror of [`RtrnStmt`].
pub struct RtrnStmtV(pub Option<ExpressionV>);

/// Mathematical mirror of [`WhileStmt`].
pub struct WhileStmtV {
    pub pred: ExpressionV,
    pub stmt: Box<StatementV>,
}

/// Mathematical mirror of [`Block`].
pub struct BlockV(pub Seq<DeclarationV>);

/// Mathematical mirror of [`Program`].
pub struct ProgramV {
    pub declarations: Seq<DeclarationV>,
}

pub open spec fn view_expression(e: &Expression) -> ExpressionV
    decreases e,
{
    ExpressionV(view_assignment(&e.0))
}

pub open spec fn view_assignment(a: &Assignment) -> AssignmentV
    decreases a,
{
    match a {
        Assignment::Assign(c, rest) => AssignmentV::Assign(
            view_call(c),
            Box::new(view_assignment(&**rest)),
        ),
        Assignment::LogicOr(o) => AssignmentV::LogicOr(view_logic_or(o)),
    }
}

pub open spec fn view_logic_or(o: &LogicOr) -> LogicOrV
    decreases o,
{
    LogicOrV {
        and: view_logic_and(&o.and),
        rest: match &o.rest {
            Some(r) => Some(Box::new(view_logic_or(&**r))),
            None => None,
        },
    }
}

pub open spec fn view_logic_and(a: &LogicAnd) -> LogicAndV
    decreases a,
{
    LogicAndV {
        eq: view_equality(&a.eq),
        rest: match &a.rest {
            Some(r) => Some(Box::new(view_logic_and(&**r))),
            None => None,
        },
    }
}

pub open spec fn view_equality(e: &Equality) -> EqualityV
    decreases e,
{
    EqualityV {
        comparision: view_comparision(&e.comparision),
        rest: match &e.rest {
            Some((op, r)) => Some((*op, Box::new(view_equality(&**r)))),
            None => None,
        },
    }
}

pub open spec fn view_comparision(c: &Comparision) -> ComparisionV
    decreases c,
{
    ComparisionV {
        term: view_term(&c.term),
        rest: match &c.rest {
            Some((op, r)) => Some((*op, Box::new(view_comparision(&**r)))),
            None => None,
        },
    }
}

pub open spec fn view_term(t: &Term) -> TermV
    decreases t,
{
    TermV {
        factor: view_factor(&t.factor),
        rest: match &t.rest {
            Some((op, r)) => Some((*op, Box::new(view_term(&**r)))),
            None => None,
        },
    }
}

pub open spec fn view_factor(f: &Factor) -> FactorV
    decreases f,
{
    FactorV {
        unary: view_unary(&f.unary),
        rest: match &f.rest {
            Some((op, r)) => Some((*op, Box::new(view_factor(&**r)))),
            None => None,
        },
    }
}

pub open spec fn view_unary(u: &Unary) -> UnaryV
    decreases u,
{
    match u {
        Unary::Un(op, r) => UnaryV::Un(*op, Box::new(view_unary(&**r))),
        Unary::Call(c) => UnaryV::Call(view_call(c)),
    }
}

pub open spec fn view_call(c: &Call) -> CallV
    decreases c,
{
    CallV { prime: view_primary(&c.prime), rest: view_callings(c.rest@) }
}

pub open spec fn view_callings(cs: Seq<Calling>) -> Seq<CallingV>
    decreases cs,
{
    if cs.len() == 0 {
        Seq::empty()
    } else {
        seq![view_calling(&cs[0])] + view_callings(cs.drop_first())
    }
}

pub open spec fn view_calling(c: &Calling) -> CallingV
    decreases c,
{
    match c {
        Calling::FuncCall(args) => CallingV::FuncCall(
            match args {
                Some(a) => Some(view_arguments(a)),
                None => None,
            },
        ),
        Calling::Mthd(name) => CallingV::Mthd(name@),
    }
}

pub open spec fn view_arguments(a: &Arguments) -> ArgumentsV
    decreases a,
{
    ArgumentsV {
        expr: view_expression(&a.expr),
        rest: match &a.rest {
            Some(r) => Some(Box::new(view_arguments(&**r))),
            None => None,
        },
    }
}

pub open spec fn view_primary(p: &Primary) -> PrimaryV
    decreases p,
{
    match p {
        Primary::Number(n) => PrimaryV::Number(*n),
        Primary::String(s) => PrimaryV::String(s@),
        Primary::Boolean(b) => PrimaryV::Boolean(*b),
        Primary::Identifier(id) => PrimaryV::Identifier(id@),
        Primary::ParenExpr(e) => PrimaryV::ParenExpr(Box::new(view_expression(&**e))),
        Primary::SuperId(id) => PrimaryV::SuperId(id@),
        Primary::This => PrimaryV::This,
        Primary::Nil => PrimaryV::Nil,
    }
}

pub open spec fn view_declaration(d: &Declaration) -> DeclarationV
    decreases d,
{
    match d {
        Declaration::ClassDecl(c) => DeclarationV::ClassDecl(view_class_decl(c)),
        Declaration::FunDecl(f) => DeclarationV::FunDecl(FunDeclV(view_function(&f.0))),
        Declaration::VarDecl(v) => DeclarationV::VarDecl(view_var_decl(v)),
        Declaration::Statement(s) => DeclarationV::Statement(view_statement(s)),
    }
}

pub open spec fn view_class_decl(c: &ClassDecl) -> ClassDeclV
    decreases c,
{
    ClassDeclV {
        name: c.name@,
        super_class: match &c.super_class {
            Some(s) => Some(s@),
            None => None,
        },
        functions: view_functions(c.functions@),
    }
}

pub open spec fn view_functions(fs: Seq<Function>) -> Seq<FunctionV>
    decreases fs,
{
    if fs.len() == 0 {
        Seq::empty()
    } else {
        seq![view_function(&fs[0])] + view_functions(fs.drop_first())
    }
}

pub open spec fn view_var_decl(v: &VarDecl) -> VarDeclV
    decreases v,
{
    VarDeclV {
        name: v.name@,
        expr: match &v.expr {
            Some(e) => Some(view_expression(e)),
            None => None,
        },
    }
}

pub open spec fn view_function(f: &Function) -> FunctionV
    decreases f,
{
    FunctionV {
        name: f.name@,
        params: match &f.params {
            Some(p) => Some(view_parameters(p)),
            None => None,
        },
        body: view_block(&*f.body),
    }
}

pub open spec fn view_parameters(p: &Parameters) -> ParametersV
    decreases p,
{
    ParametersV {
        param: p.param@,
        rest: match &p.rest {
            Some(r) => Some(Box::new(view_parameters(&**r))),
            None => None,
        },
    }
}

pub open spec fn view_statement(s: &Statement) -> StatementV
    decreases s,
{
    match s {
        Statement::ExprStmt(e) => StatementV::ExprStmt(ExprStmtV(view_expression(&e.0))),
        Statement::ForStmt(f) => StatementV::ForStmt(view_for_stmt(f)),
        Statement::IfStmt(i) => StatementV::IfStmt(view_if_stmt(i)),
        Statement::PrntStmt(p) => StatementV::PrntStmt(PrntStmtV(view_expression(&p.0))),
        Statement::RtrnStmt(r) => StatementV::RtrnStmt(
            RtrnStmtV(
                match &r.0 {
                    Some(e) => Some(view_expression(e)),
                    None => None,
                },
            ),
        ),
        Statement::WhileStmt(w) => StatementV::WhileStmt(
            WhileStmtV { pred: view_expression(&w.pred), stmt: Box::new(view_statement(&*w.stmt)) },
        ),
        Statement::Block(b) => StatementV::Block(view_block(b)),
    }
}

pub open spec fn view_for_stmt(f: &ForStmt) -> ForStmtV
    decreases f,
{
    ForStmtV {
        first_dec: match &f.first_dec {
            ForDec::VarDecl(v) => ForDecV::VarDecl(view_var_decl(v)),
            ForDec::ExprStmt(e) => ForDecV::ExprStmt(ExprStmtV(view_expression(&e.0))),
            ForDec::Nil => ForDecV::Nil,
        },
        scnd_expr: match &f.scnd_expr {
            Some(e) => Some(view_expression(e)),
            None => None,
        },
        thrd_expr: match &f.thrd_expr {
            Some(e) => Some(view_expression(e)),
            None => None,
        },
        body: Box::new(view_statement(&*f.body)),
    }
}

pub open spec fn view_if_stmt(i: &IfStmt) -> IfStmtV
    decreases i,
{
    IfStmtV {
        pred: view_expression(&i.pred),
        if_stmt: Box::new(view_statement(&*i.if_stmt)),
        else_stmt: match &i.else_stmt {
            Some(e) => Some(Box::new(view_statement(&**e))),
            None => None,
        },
    }
}

pub open spec fn view_block(b: &Block) -> BlockV
    decreases b,
{
    BlockV(view_declarations(b.0@))
}

pub open spec fn view_declarations(ds: Seq<Declaration>) -> Seq<DeclarationV>
    decreases ds,
{
    if ds.len() == 0 {
        Seq::empty()
    } else {
        seq![view_declaration(&ds[0])] + view_declarations(ds.drop_first())
    }
}

// A numeric size for each node of the mathematical syntax tree. The
// evaluator's recursion is measured by these sizes (together with its fuel
// budget), so that descending from a statement into one of its expressions
// is a plain decrease of one natural number.

pub open spec fn size_expression(e: ExpressionV) -> nat
    decreases e,
{
    1 + size_assignment(e.0)
}

pub open spec fn size_assignment(a: AssignmentV) -> nat
    decreases a,
{
    match a {
        AssignmentV::Assign(c, rhs) => 1 + size_call(c) + size_assignment(*rhs),
        AssignmentV::LogicOr(o) => 1 + size_logic_or(o),
    }
}

pub open spec fn size_logic_or(o: LogicOrV) -> nat
    decreases o,
{
    1 + size_logic_and(o.and) + (match o.rest {
        Some(r) => size_logic_or(*r),
        None => 0,
    })
}

pub open spec fn size_logic_and(a: LogicAndV) -> nat
    decreases a,
{
    1 + size_equality(a.eq) + (match a.rest {
        Some(r) => size_logic_and(*r),
        None => 0,
    })
}

pub open spec fn size_equality(e: EqualityV) -> nat
    decreases e,
{
    1 + size_comparision(e.comparision) + (match e.rest {
        Some((_, r)) => size_equality(*r),
        None => 0,
    })
}

pub open spec fn size_comparision(c: ComparisionV) -> nat
    decreases c,
{
    1 + size_term(c.term) + (match c.rest {
        Some((_, r)) => size_comparision(*r),
        None => 0,
    })
}

pub open spec fn size_term(t: TermV) -> nat
    decreases t,
{
    1 + size_factor(t.factor) + (match t.rest {
        Some((_, r)) => size_term(*r),
        None => 0,
    })
}

pub open spec fn size_factor(f: FactorV) -> nat
    decreases f,
{
    1 + size_unary(f.unary) + (match f.rest {
        Some((_, r)) => size_factor(*r),
        None => 0,
    })
}

pub open spec fn size_unary(u: UnaryV) -> nat
    decreases u,
{
    match u {
        UnaryV::Un(_, r) => 1 + size_unary(*r),
        UnaryV::Call(c) => 1 + size_call(c),
    }
}

pub open spec fn size_call(c: CallV) -> nat
    decreases c,
{
    1 + size_primary(c.prime) + size_callings(c.rest)
}

pub open spec fn size_callings(cs: Seq<CallingV>) -> nat
    decreases cs,
{
    if cs.len() == 0 {
        0
    } else {
        size_calling(cs[0]) + size_callings(cs.drop_first())
    }
}

pub open spec fn size_calling(c: CallingV) -> nat
    decreases c,
{
    match c {
        CallingV::FuncCall(Some(a)) => 1 + size_arguments(a),
        CallingV::FuncCall(None) => 1,
        CallingV::Mthd(_) => 1,
    }
}

pub open spec fn size_arguments(a: ArgumentsV) -> nat
    decreases a,
{
    1 + size_expression(a.expr) + (match a.rest {
        Some(r) => size_arguments(*r),
        None => 0,
    })
}

pub open spec fn size_primary(p: PrimaryV) -> nat
    decreases p,
{
    match p {
        PrimaryV::ParenExpr(e) => 1 + size_expression(*e),
        _ => 1,
    }
}

pub proof fn lemma_view_callings_elts(cs: Seq<Calling>)
    ensures
        view_callings(cs).len() == cs.len(),
        forall|i: int| 0 <= i < cs.len() ==> view_callings(cs)[i] == view_calling(&cs[i]),
    decreases cs.len(),
{
    if cs.len() > 0 {
        lemma_view_callings_elts(cs.drop_first());
        assert forall|i: int| 0 <= i < cs.len() implies view_callings(cs)[i] == view_calling(
            &cs[i],
        ) by {
            if i > 0 {
                assert(cs.drop_first()[i - 1] == cs[i]);
            }
        }
    }
}

pub proof fn lemma_view_declarations_elts(ds: Seq<Declaration>)
    ensures
        view_declarations(ds).len() == ds.len(),
        forall|i: int| 0 <= i < ds.len() ==> view_declarations(ds)[i] == view_declaration(&ds[i]),
    decreases ds.len(),
{
    if ds.len() > 0 {
        lemma_view_declarations_elts(ds.drop_first());
        assert forall|i: int| 0 <= i < ds.len() implies view_declarations(ds)[i]
            == view_declaration(&ds[i]) by {
            if i > 0 {
                assert(ds.drop_first()[i - 1] == ds[i]);
            }
        }
    }
}

pub proof fn lemma_view_functions_elts(fs: Seq<Function>)
    ensures
        view_functions(fs).len() == fs.len(),
        forall|i: int| 0 <= i < fs.len() ==> view_functions(fs)[i] == view_function(&fs[i]),
    decreases fs.len(),
{
    if fs.len() > 0 {
        lemma_view_functions_elts(fs.drop_first());
        assert forall|i: int| 0 <= i < fs.len() implies view_functions(fs)[i] == view_function(
            &fs[i],
        ) by {
            if i > 0 {
                assert(fs.drop_first()[i - 1] == fs[i]);
            }
        }
    }
}

pub proof fn lemma_size_function_pos(f: FunctionV)
    ensures
        size_function_v(f) >= 1,
{
}

pub proof fn lemma_size_calling_pos(c: CallingV)
    ensures
        size_calling(c) >= 1,
{
}

pub proof fn lemma_size_declaration_pos(d: DeclarationV)
    ensures
        size_declaration(d) >= 1,
{
}

pub proof fn lemma_size_callings_take(cs: Seq<CallingV>, k: int)
    requires
        0 <= k <= cs.len(),
    ensures
        size_callings(cs.take(k)) <= size_callings(cs),
    decreases cs.len(),
{
    if k == 0 {
        assert(cs.take(0) =~= Seq::<CallingV>::empty());
    } else {
        assert(cs.take(k)[0] == cs[0]);
        assert(cs.take(k).drop_first() =~= cs.drop_first().take(k - 1));
        lemma_size_callings_take(cs.drop_first(), k - 1);
    }
}

pub open spec fn size_var_decl(v: VarDeclV) -> nat
    decreases v,
{
    1 + (match v.expr {
        Some(e) => size_expression(e),
        None => 0,
    })
}

pub open spec fn size_for_dec(d: ForDecV) -> nat
    decreases d,
{
    match d {
        ForDecV::VarDecl(v) => 1 + size_var_decl(v),
        ForDecV::ExprStmt(e) => 1 + size_expression(e.0),
        ForDecV::Nil => 1,
    }
}

pub open spec fn size_statement(s: StatementV) -> nat
    decreases s,
{
    match s {
        StatementV::ExprStmt(e) => 1 + size_expression(e.0),
        StatementV::IfStmt(i) => 1 + size_if_stmt(i),
        StatementV::ForStmt(f) => 1 + size_for_stmt(f),
        StatementV::PrntStmt(p) => 1 + size_expression(p.0),
        StatementV::RtrnStmt(r) => 1 + (match r.0 {
            Some(e) => size_expression(e),
            None => 0,
        }),
        StatementV::WhileStmt(w) => 1 + size_while_stmt(w),
        StatementV::Block(b) => 1 + size_decls(b.0),
    }
}

pub open spec fn size_if_stmt(i: IfStmtV) -> nat
    decreases i,
{
    1 + size_expression(i.pred) + size_statement(*i.if_stmt) + (match i.else_stmt {
        Some(e) => size_statement(*e),
        None => 0,
    })
}

pub open spec fn size_while_stmt(w: WhileStmtV) -> nat
    decreases w,
{
    1 + size_expression(w.pred) + size_statement(*w.stmt)
}

pub open spec fn size_for_stmt(f: ForStmtV) -> nat
    decreases f,
{
    1 + size_for_dec(f.first_dec) + (match f.scnd_expr {
        Some(e) => size_expression(e),
        None => 0,
    }) + (match f.thrd_expr {
        Some(e) => size_expression(e),
        None => 0,
    }) + size_statement(*f.body)
}

pub open spec fn size_parameters(p: ParametersV) -> nat
    decreases p,
{
    match p.rest {
        Some(r) => 1 + size_parameters(*r),
        None => 1,
    }
}

pub open spec fn size_parameters_opt(p: Option<ParametersV>) -> nat {
    match p {
        Some(q) => size_parameters(q),
        None => 0,
    }
}

pub open spec fn size_function_v(f: FunctionV) -> nat
    decreases f,
{
    1 + size_parameters_opt(f.params) + size_decls(f.body.0)
}

pub open spec fn size_functions(fs: Seq<FunctionV>) -> nat
    decreases fs,
{
    if fs.len() == 0 {
        0
    } else {
        size_function_v(fs[0]) + size_functions(fs.drop_first())
    }
}

pub open spec fn size_class_decl(c: ClassDeclV) -> nat
    decreases c,
{
    1 + size_functions(c.functions)
}

pub open spec fn size_declaration(d: DeclarationV) -> nat
    decreases d,
{
    match d {
        DeclarationV::ClassDecl(c) => 1 + size_class_decl(c),
        DeclarationV::FunDecl(fd) => 1 + size_function_v(fd.0),
        DeclarationV::VarDecl(v) => 1 + size_var_decl(v),
        DeclarationV::Statement(s) => 1 + size_statement(s),
    }
}

pub open spec fn size_decls(ds: Seq<DeclarationV>) -> nat
    decreases ds,
{
    if ds.len() == 0 {
        0
    } else {
        size_declaration(ds[0]) + size_decls(ds.drop_first())
    }
}

impl View for Expression {
    type V = ExpressionV;

    open spec fn view(&self) -> ExpressionV {
        view_expression(self)
    }
}

impl View for Assignment {
    type V = AssignmentV;

    open spec fn view(&self) -> AssignmentV {
        view_assignment(self)
    }
}

impl View for LogicOr {
    type V = LogicOrV;

    open spec fn view(&self) -> LogicOrV {
        view_logic_or(self)
    }
}

impl View for LogicAnd {
    type V = LogicAndV;

    open spec fn view(&self) -> LogicAndV {
        view_logic_and(self)
    }
}

impl View for Equality {
    type V = EqualityV;

    open spec fn view(&self) -> EqualityV {
        view_equality(self)
    }
}

impl View for Comparision {
    type V = ComparisionV;

    open spec fn view(&self) -> ComparisionV {
        view_comparision(self)
    }
}

impl View for Term {
    type V = TermV;

    open spec fn view(&self) -> TermV {
        view_term(self)
    }
}

impl View for Factor {
    type V = FactorV;

    open spec fn view(&self) -> FactorV {
        view_factor(self)
    }
}

impl View for Unary {
    type V = UnaryV;

    open spec fn view(&self) -> UnaryV {
        view_unary(self)
    }
}

impl View for Call {
    type V = CallV;

    open spec fn view(&self) -> CallV {
        view_call(self)
    }
}

impl View for Calling {
    type V = CallingV;

    open spec fn view(&self) -> CallingV {
        view_calling(self)
    }
}

impl View for Primary {
    type V = PrimaryV;

    open spec fn view(&self) -> PrimaryV {
        view_primary(self)
    }
}

impl View for Declaration {
    type V = DeclarationV;

    open spec fn view(&self) -> DeclarationV {
        view_declaration(self)
    }
}

impl View for ClassDecl {
    type V = ClassDeclV;

    open spec fn view(&self) -> ClassDeclV {
        view_class_decl(self)
    }
}

impl View for FunDecl {
    type V = FunDeclV;

    open spec fn view(&self) -> FunDeclV {
        FunDeclV(view_function(&self.0))
    }
}

impl View for VarDecl {
    type V = VarDeclV;

    open spec fn view(&self) -> VarDeclV {
        view_var_decl(self)
    }
}

impl View for Function {
    type V = FunctionV;

    open spec fn view(&self) -> FunctionV {
        view_function(self)
    }
}

impl View for Parameters {
    type V = ParametersV;

    open spec fn view(&self) -> ParametersV {
        view_parameters(self)
    }
}

impl View for Arguments {
    type V = ArgumentsV;

    open spec fn view(&self) -> ArgumentsV {
        view_arguments(self)
    }
}

impl View for Statement {
    type V = StatementV;

    open spec fn view(&self) -> StatementV {
        view_statement(self)
    }
}

impl View for ExprStmt {
    type V = ExprStmtV;

    open spec fn view(&self) -> ExprStmtV {
        ExprStmtV(view_expression(&self.0))
    }
}

impl View for ForStmt {
    type V = ForStmtV;

    open spec fn view(&self) -> ForStmtV {
        view_for_stmt(self)
    }
}

impl View for ForDec {
    type V = ForDecV;

    open spec fn view(&self) -> ForDecV {
        match self {
            ForDec::VarDecl(v) => ForDecV::VarDecl(view_var_decl(v)),
            ForDec::ExprStmt(e) => ForDecV::ExprStmt(ExprStmtV(view_expression(&e.0))),
            ForDec::Nil => ForDecV::Nil,
        }
    }
}

impl View for IfStmt {
    type V = IfStmtV;

    open spec fn view(&self) -> IfStmtV {
        view_if_stmt(self)
    }
}

impl View for PrntStmt {
    type V = PrntStmtV;

    open spec fn view(&self) -> PrntStmtV {
        PrntStmtV(view_expression(&self.0))
    }
}

impl View for RtrnStmt {
    type V = RtrnStmtV;

    open spec fn view(&self) -> RtrnStmtV {
        RtrnStmtV(
            match &self.0 {
                Some(e) => Some(view_expression(e)),
                None => None,
            },
        )
    }
}

impl View for WhileStmt {
    type V = WhileStmtV;

    open spec fn view(&self) -> WhileStmtV {
        WhileStmtV { pred: view_expression(&self.pred), stmt: Box::new(view_statement(&*self.stmt)) }
    }
}

impl View for Block {
    type V = BlockV;

    open spec fn view(&self) -> BlockV {
        view_block(self)
    }
}

impl View for Program {
    type V = ProgramV;

    open spec fn view(&self) -> ProgramV {
        ProgramV { declarations: view_declarations(self.declarations@) }
    }
}

} // verus!
