//! The textual rendering of the syntax tree, for the diagnostic parse
//! modes: a parenthesized prefix form for operator chains (`(- (- 1 2) 3)`
//! for `1 - 2 - 3`) and a line-oriented form for statements, indented with
//! tabs. The exact bracketing style is this module's own choice; what
//! matters, and what is proved, is that every node renders exactly as its
//! specification twin says, so the rendering is deterministic.

use vstd::prelude::*;
use vstd::string::StrSliceExecFns;
use vstd::string::StringExecFns;

use crate::ast::Arguments;
use crate::ast::ArgumentsV;
use crate::ast::Assignment;
use crate::ast::AssignmentV;
use crate::ast::Block;
use crate::ast::BlockV;
use crate::ast::Call;
use crate::ast::CallV;
use crate::ast::Calling;
use crate::ast::CallingV;
use crate::ast::ClassDecl;
use crate::ast::ClassDeclV;
use crate::ast::Comparision;
use crate::ast::ComparisionOp;
use crate::ast::ComparisionV;
use crate::ast::Declaration;
use crate::ast::DeclarationV;
use crate::ast::Equality;
use crate::ast::EqualityOp;
use crate::ast::EqualityV;
use crate::ast::Expression;
use crate::ast::ExpressionV;
use crate::ast::Factor;
use crate::ast::FactorOp;
use crate::ast::FactorV;
use crate::ast::ForDec;
use crate::ast::ForDecV;
use crate::ast::ForStmt;
use crate::ast::ForStmtV;
use crate::ast::Function;
use crate::ast::FunctionV;
use crate::ast::IfStmtV;
use crate::ast::LogicAnd;
use crate::ast::LogicAndV;
use crate::ast::LogicOr;
use crate::ast::LogicOrV;
use crate::ast::Parameters;
use crate::ast::ParametersV;
use crate::ast::Primary;
use crate::ast::PrimaryV;
use crate::ast::Program;
use crate::ast::ProgramV;
use crate::ast::Statement;
use crate::ast::StatementV;
use crate::ast::Term;
use crate::ast::TermOp;
use crate::ast::TermV;
use crate::ast::Unary;
use crate::ast::UnaryOp;
use crate::ast::UnaryV;
use crate::ast::VarDecl;
use crate::ast::VarDeclV;
use crate::ast::WhileStmtV;
use crate::ast::lemma_size_calling_pos;
use crate::ast::lemma_size_declaration_pos;
use crate::ast::lemma_size_function_pos;
use crate::ast::lemma_view_callings_elts;
use crate::ast::lemma_view_declarations_elts;
use crate::ast::lemma_view_functions_elts;
use crate::ast::size_arguments;
use crate::ast::size_assignment;
use crate::ast::size_call;
use crate::ast::size_calling;
use crate::ast::size_callings;
use crate::ast::size_class_decl;
use crate::ast::size_comparision;
use crate::ast::size_declaration;
use crate::ast::size_decls;
use crate::ast::size_equality;
use crate::ast::size_expression;
use crate::ast::size_factor;
use crate::ast::size_for_dec;
use crate::ast::size_for_stmt;
use crate::ast::size_function_v;
use crate::ast::size_functions;
use crate::ast::size_if_stmt;
use crate::ast::size_logic_and;
use crate::ast::size_logic_or;
use crate::ast::size_parameters;
use crate::ast::size_primary;
use crate::ast::size_statement;
use crate::ast::size_term;
use crate::ast::size_unary;
use crate::ast::size_var_decl;
use crate::ast::size_while_stmt;
use crate::ast::view_callings;
use crate::ast::view_declarations;
use crate::ast::view_functions;
use crate::token::push_char;
use crate::token::spec_int_str;
use crate::token::int_to_string;

verus! {

/// The indentation rule: every newline gains one following tab.
pub open spec fn spec_indent(s: Seq<char>) -> Seq<char>
    decreases s.len(),
{
    if s.len() == 0 {
        Seq::empty()
    } else if s[0] == '\n' {
        "\n\t"@ + spec_indent(s.drop_first())
    } else {
        seq![s[0]] + spec_indent(s.drop_first())
    }
}

/// Indents a rendered fragment by one level, exactly as [`spec_indent`]
/// says.
pub fn indent(s: String) -> (r: String)
    ensures
        r@ == spec_indent(s@),
{
    let n = s.as_str().unicode_len();
    let mut r = String::new();
    let mut i: usize = 0;
    proof {
        assert(s@.skip(0) =~= s@);
        assert(Seq::<char>::empty() + spec_indent(s@) =~= spec_indent(s@));
    }
    while i < n
        invariant
            i <= n,
            n == s@.len(),
            spec_indent(s@) == r@ + spec_indent(s@.skip(i as int)),
        decreases n - i,
    {
        let c = s.as_str().get_char(i);
        let ghost r0 = r@;
        proof {
            assert(s@.skip(i as int)[0] == c);
            assert(s@.skip(i as int).drop_first() =~= s@.skip(i as int + 1));
        }
        if c == '\n' {
            push_char(&mut r, '\n');
            push_char(&mut r, '\t');
            proof {
                reveal_strlit("\n\t");
                assert(r@ =~= r0 + "\n\t"@);
                assert(spec_indent(s@.skip(i as int)) == "\n\t"@ + spec_indent(
                    s@.skip(i as int + 1),
                ));
                assert(r0 + ("\n\t"@ + spec_indent(s@.skip(i as int + 1))) =~= (r0 + "\n\t"@)
                    + spec_indent(s@.skip(i as int + 1)));
            }
        } else {
            push_char(&mut r, c);
            proof {
                assert(r@ =~= r0 + seq![c]);
                assert(spec_indent(s@.skip(i as int)) == seq![c] + spec_indent(
                    s@.skip(i as int + 1),
                ));
                assert(r0 + (seq![c] + spec_indent(s@.skip(i as int + 1))) =~= (r0 + seq![c])
                    + spec_indent(s@.skip(i as int + 1)));
            }
        }
        i = i + 1;
    }
    proof {
        assert(s@.skip(n as int) =~= Seq::<char>::empty());
        assert(r@ + Seq::<char>::empty() =~= r@);
    }
    r
}

/// The spelled form of each operator.
pub open spec fn spec_render_equality_op(op: EqualityOp) -> Seq<char> {
    match op {
        EqualityOp::NotEquals => "!="@,
        EqualityOp::EqualEquals => "=="@,
    }
}

pub open spec fn spec_render_comparision_op(op: ComparisionOp) -> Seq<char> {
    match op {
        ComparisionOp::Less => "<"@,
        ComparisionOp::LessEqual => "<="@,
        ComparisionOp::Greater => ">"@,
        ComparisionOp::GreaterEqual => ">="@,
    }
}

pub open spec fn spec_render_term_op(op: TermOp) -> Seq<char> {
    match op {
        TermOp::Plus => "+"@,
        TermOp::Minus => "-"@,
    }
}

pub open spec fn spec_render_factor_op(op: FactorOp) -> Seq<char> {
    match op {
        FactorOp::Mul => "*"@,
        FactorOp::Div => "/"@,
    }
}

pub open spec fn spec_render_unary_op(op: UnaryOp) -> Seq<char> {
    match op {
        UnaryOp::Minus => "-"@,
        UnaryOp::Bang => "!"@,
    }
}

pub open spec fn spec_render_expression(e: ExpressionV) -> Seq<char>
    decreases size_expression(e), 1int,
{
    spec_render_assignment(e.0)
}

pub open spec fn spec_render_assignment(a: AssignmentV) -> Seq<char>
    decreases size_assignment(a), 0int,
{
    match a {
        AssignmentV::Assign(c, rest) => spec_render_call(c) + " = "@ + spec_render_assignment(
            *rest,
        ),
        AssignmentV::LogicOr(o) => spec_render_logic_or(o),
    }
}

pub open spec fn spec_render_logic_or(o: LogicOrV) -> Seq<char>
    decreases size_logic_or(o), 0int,
{
    spec_render_logic_and(o.and) + (match o.rest {
        Some(r) => ", "@ + spec_render_logic_or(*r),
        None => Seq::empty(),
    })
}

pub open spec fn spec_render_logic_and(a: LogicAndV) -> Seq<char>
    decreases size_logic_and(a), 0int,
{
    spec_render_equality(a.eq) + (match a.rest {
        Some(r) => ", "@ + spec_render_logic_and(*r),
        None => Seq::empty(),
    })
}

pub open spec fn spec_render_equality(e: EqualityV) -> Seq<char>
    decreases size_equality(e), 0int,
{
    match e.rest {
        Some((op, r)) => "("@ + spec_render_equality_op(op) + " "@ + spec_render_equality(*r)
            + " "@ + spec_render_comparision(e.comparision) + ")"@,
        None => spec_render_comparision(e.comparision),
    }
}

pub open spec fn spec_render_comparision(c: ComparisionV) -> Seq<char>
    decreases size_comparision(c), 0int,
{
    match c.rest {
        Some((op, r)) => "("@ + spec_render_comparision_op(op) + " "@ + spec_render_comparision(
            *r,
        ) + " "@ + spec_render_term(c.term) + ")"@,
        None => spec_render_term(c.term),
    }
}

pub open spec fn spec_render_term(t: TermV) -> Seq<char>
    decreases size_term(t), 0int,
{
    match t.rest {
        Some((op, r)) => "("@ + spec_render_term_op(op) + " "@ + spec_render_term(*r) + " "@
            + spec_render_factor(t.factor) + ")"@,
        None => spec_render_factor(t.factor),
    }
}

pub open spec fn spec_render_factor(f: FactorV) -> Seq<char>
    decreases size_factor(f), 0int,
{
    match f.rest {
        Some((op, r)) => "("@ + spec_render_factor_op(op) + " "@ + spec_render_factor(*r) + " "@
            + spec_render_unary(f.unary) + ")"@,
        None => spec_render_unary(f.unary),
    }
}

pub open spec fn spec_render_unary(u: UnaryV) -> Seq<char>
    decreases size_unary(u), 0int,
{
    match u {
        UnaryV::Un(op, r) => "("@ + spec_render_unary_op(op) + " "@ + spec_render_unary(*r) + ")"@,
        UnaryV::Call(c) => spec_render_call(c),
    }
}

pub open spec fn spec_render_call(c: CallV) -> Seq<char>
    decreases size_call(c), 0int,
{
    spec_render_primary(c.prime) + spec_render_callings(c.rest)
}

pub open spec fn spec_render_callings(cs: Seq<CallingV>) -> Seq<char>
    decreases size_callings(cs), 1int,
{
    if cs.len() == 0 {
        Seq::empty()
    } else {
        proof {
            lemma_size_calling_pos(cs[0]);
        }
        spec_render_calling(cs[0]) + spec_render_callings(cs.drop_first())
    }
}

pub open spec fn spec_render_calling(c: CallingV) -> Seq<char>
    decreases size_calling(c), 0int,
{
    match c {
        CallingV::FuncCall(Some(a)) => "("@ + spec_render_arguments(a) + ")"@,
        CallingV::FuncCall(None) => "()"@,
        CallingV::Mthd(name) => "."@ + name,
    }
}

pub open spec fn spec_render_arguments(a: ArgumentsV) -> Seq<char>
    decreases size_arguments(a), 0int,
{
    spec_render_expression(a.expr) + (match a.rest {
        Some(r) => ", "@ + spec_render_arguments(*r),
        None => Seq::empty(),
    })
}

pub open spec fn spec_render_primary(p: PrimaryV) -> Seq<char>
    decreases size_primary(p), 0int,
{
    match p {
        PrimaryV::Number(n) => spec_int_str(n as int) + ".0"@,
        PrimaryV::String(s) => s,
        PrimaryV::Boolean(b) => if b {
            "true"@
        } else {
            "false"@
        },
        PrimaryV::Nil => "nil"@,
        PrimaryV::ParenExpr(e) => "(group "@ + spec_render_expression(*e) + ")"@,
        PrimaryV::Identifier(id) => id,
        PrimaryV::This => "this"@,
        PrimaryV::SuperId(id) => "super."@ + id,
    }
}

pub open spec fn spec_render_var_decl(v: VarDeclV) -> Seq<char>
    decreases size_var_decl(v), 0int,
{
    "var "@ + v.name + (match v.expr {
        Some(e) => " = "@ + spec_render_expression(e),
        None => Seq::empty(),
    }) + ";\n"@
}

pub open spec fn spec_render_parameters(p: ParametersV) -> Seq<char>
    decreases size_parameters(p), 0int,
{
    p.param + (match p.rest {
        Some(r) => ", "@ + spec_render_parameters(*r),
        None => Seq::empty(),
    })
}

pub open spec fn spec_render_block(b: BlockV) -> Seq<char>
    decreases size_decls(b.0) + 1, 0int,
{
    "{\n\t"@ + spec_indent(spec_render_decls_join(b.0)) + "\n}"@
}

/// The declarations of a block, joined with newlines.
pub open spec fn spec_render_decls_join(ds: Seq<DeclarationV>) -> Seq<char>
    decreases size_decls(ds), 1int,
{
    if ds.len() == 0 {
        Seq::empty()
    } else if ds.len() == 1 {
        spec_render_declaration(ds[0])
    } else {
        proof {
            lemma_size_declaration_pos(ds[0]);
        }
        spec_render_declaration(ds[0]) + "\n"@ + spec_render_decls_join(ds.drop_first())
    }
}

pub open spec fn spec_render_function(f: FunctionV) -> Seq<char>
    decreases size_function_v(f), 1int,
{
    f.name + "("@ + (match f.params {
        Some(p) => spec_render_parameters(p),
        None => Seq::empty(),
    }) + ") "@ + spec_render_block(f.body)
}

pub open spec fn spec_render_functions(fs: Seq<FunctionV>) -> Seq<char>
    decreases size_functions(fs), 2int,
{
    if fs.len() == 0 {
        Seq::empty()
    } else {
        proof {
            lemma_size_function_pos(fs[0]);
        }
        spec_render_function(fs[0]) + "\n"@ + spec_render_functions(fs.drop_first())
    }
}

pub open spec fn spec_render_class_decl(c: ClassDeclV) -> Seq<char>
    decreases size_class_decl(c), 3int,
{
    "class "@ + c.name + (match c.super_class {
        Some(s) => " < "@ + s,
        None => Seq::empty(),
    }) + "{\n"@ + spec_render_functions(c.functions) + "}\n"@
}

pub open spec fn spec_render_statement(s: StatementV) -> Seq<char>
    decreases size_statement(s), 1int,
{
    match s {
        StatementV::ExprStmt(e) => spec_render_expression(e.0) + ";"@,
        StatementV::IfStmt(i) => spec_render_if(i),
        StatementV::ForStmt(f) => spec_render_for(f),
        StatementV::PrntStmt(p) => "print "@ + spec_render_expression(p.0) + ";"@,
        StatementV::RtrnStmt(r) => "return "@ + (match r.0 {
            Some(e) => spec_render_expression(e),
            None => Seq::empty(),
        }) + ";"@,
        StatementV::WhileStmt(w) => spec_render_while(w),
        StatementV::Block(b) => spec_render_block(b),
    }
}

pub open spec fn spec_render_if(i: IfStmtV) -> Seq<char>
    decreases size_if_stmt(i), 0int,
{
    "if ("@ + spec_render_expression(i.pred) + ") \n\t"@ + spec_indent(
        spec_render_statement(*i.if_stmt),
    ) + (match i.else_stmt {
        Some(e) => "else \n\t "@ + spec_render_statement(*e),
        None => Seq::empty(),
    })
}

pub open spec fn spec_render_while(w: WhileStmtV) -> Seq<char>
    decreases size_while_stmt(w), 0int,
{
    "while ("@ + spec_render_expression(w.pred) + ") \n\t"@ + spec_indent(
        spec_render_statement(*w.stmt),
    )
}

pub open spec fn spec_render_for_dec(d: ForDecV) -> Seq<char>
    decreases size_for_dec(d), 0int,
{
    match d {
        ForDecV::VarDecl(v) => spec_render_var_decl(v),
        ForDecV::ExprStmt(e) => spec_render_expression(e.0) + ";"@,
        ForDecV::Nil => Seq::empty(),
    }
}

pub open spec fn spec_render_for(f: ForStmtV) -> Seq<char>
    decreases size_for_stmt(f), 0int,
{
    "for ("@ + spec_render_for_dec(f.first_dec) + "; "@ + (match f.scnd_expr {
        Some(e) => spec_render_expression(e),
        None => Seq::empty(),
    }) + "; "@ + (match f.thrd_expr {
        Some(e) => spec_render_expression(e),
        None => Seq::empty(),
    }) + ") \n\t"@ + spec_indent(spec_render_statement(*f.body))
}

pub open spec fn spec_render_declaration(d: DeclarationV) -> Seq<char>
    decreases size_declaration(d), 0int,
{
    match d {
        DeclarationV::ClassDecl(c) => spec_render_class_decl(c),
        DeclarationV::FunDecl(fd) => "fun "@ + spec_render_function(fd.0),
        DeclarationV::VarDecl(v) => spec_render_var_decl(v),
        DeclarationV::Statement(s) => spec_render_statement(s),
    }
}

/// A whole program: each declaration on its own line.
pub open spec fn spec_render_program(p: ProgramV) -> Seq<char>
    decreases size_decls(p.declarations) + 1, 0int,
{
    spec_render_program_decls(p.declarations)
}

pub open spec fn spec_render_program_decls(ds: Seq<DeclarationV>) -> Seq<char>
    decreases size_decls(ds), 1int,
{
    if ds.len() == 0 {
        Seq::empty()
    } else {
        proof {
            lemma_size_declaration_pos(ds[0]);
        }
        spec_render_declaration(ds[0]) + "\n"@ + spec_render_program_decls(ds.drop_first())
    }
}

impl Expression {
    /// Renders exactly as [`spec_render_expression`] says.
    pub fn render(&self) -> (r: String)
        ensures
            r@ == spec_render_expression(self@),
        decreases size_expression(self@), 1int,
    {
        self.0.render()
    }
}

impl Assignment {
    pub fn render(&self) -> (r: String)
        ensures
            r@ == spec_render_assignment(self@),
        decreases size_assignment(self@), 0int,
    {
        match self {
            Assignment::Assign(c, rest) => {
                let mut r = c.render();
                r.append(" = ");
                let a = (&**rest).render();
                r.append(a.as_str());
                proof {
                    assert(r@ =~= spec_render_assignment(self@));
                }
                r
            },
            Assignment::LogicOr(o) => o.render(),
        }
    }
}

impl LogicOr {
    pub fn render(&self) -> (r: String)
        ensures
            r@ == spec_render_logic_or(self@),
        decreases size_logic_or(self@), 0int,
    {
        let mut r = self.and.render();
        match &self.rest {
            Some(rr) => {
                r.append(", ");
                let b = (&**rr).render();
                r.append(b.as_str());
            },
            None => {},
        }
        proof {
            assert(r@ =~= spec_render_logic_or(self@));
        }
        r
    }
}

impl LogicAnd {
    pub fn render(&self) -> (r: String)
        ensures
            r@ == spec_render_logic_and(self@),
        decreases size_logic_and(self@), 0int,
    {
        let mut r = self.eq.render();
        match &self.rest {
            Some(rr) => {
                r.append(", ");
                let b = (&**rr).render();
                r.append(b.as_str());
            },
            None => {},
        }
        proof {
            assert(r@ =~= spec_render_logic_and(self@));
        }
        r
    }
}

impl Equality {
    pub fn render(&self) -> (r: String)
        ensures
            r@ == spec_render_equality(self@),
        decreases size_equality(self@), 0int,
    {
        match &self.rest {
            Some((op, rr)) => {
                let mut r = String::from_str("(");
                r.append(
                    match op {
                        EqualityOp::NotEquals => "!=",
                        EqualityOp::EqualEquals => "==",
                    },
                );
                r.append(" ");
                let a = (&**rr).render();
                r.append(a.as_str());
                r.append(" ");
                let b = self.comparision.render();
                r.append(b.as_str());
                r.append(")");
                proof {
                    assert(r@ =~= spec_render_equality(self@));
                }
                r
            },
            None => self.comparision.render(),
        }
    }
}

impl Comparision {
    pub fn render(&self) -> (r: String)
        ensures
            r@ == spec_render_comparision(self@),
        decreases size_comparision(self@), 0int,
    {
        match &self.rest {
            Some((op, rr)) => {
                let mut r = String::from_str("(");
                r.append(
                    match op {
                        ComparisionOp::Less => "<",
                        ComparisionOp::LessEqual => "<=",
                        ComparisionOp::Greater => ">",
                        ComparisionOp::GreaterEqual => ">=",
                    },
                );
                r.append(" ");
                let a = (&**rr).render();
                r.append(a.as_str());
                r.append(" ");
                let b = self.term.render();
                r.append(b.as_str());
                r.append(")");
                proof {
                    assert(r@ =~= spec_render_comparision(self@));
                }
                r
            },
            None => self.term.render(),
        }
    }
}

impl Term {
    pub fn render(&self) -> (r: String)
        ensures
            r@ == spec_render_term(self@),
        decreases size_term(self@), 0int,
    {
        match &self.rest {
            Some((op, rr)) => {
                let mut r = String::from_str("(");
                r.append(
                    match op {
                        TermOp::Plus => "+",
                        TermOp::Minus => "-",
                    },
                );
                r.append(" ");
                let a = (&**rr).render();
                r.append(a.as_str());
                r.append(" ");
                let b = self.factor.render();
                r.append(b.as_str());
                r.append(")");
                proof {
                    assert(r@ =~= spec_render_term(self@));
                }
                r
            },
            None => self.factor.render(),
        }
    }
}

impl Factor {
    pub fn render(&self) -> (r: String)
        ensures
            r@ == spec_render_factor(self@),
        decreases size_factor(self@), 0int,
    {
        match &self.rest {
            Some((op, rr)) => {
                let mut r = String::from_str("(");
                r.append(
                    match op {
                        FactorOp::Mul => "*",
                        FactorOp::Div => "/",
                    },
                );
                r.append(" ");
                let a = (&**rr).render();
                r.append(a.as_str());
                r.append(" ");
                let b = self.unary.render();
                r.append(b.as_str());
                r.append(")");
                proof {
                    assert(r@ =~= spec_render_factor(self@));
                }
                r
            },
            None => self.unary.render(),
        }
    }
}

impl Unary {
    pub fn render(&self) -> (r: String)
        ensures
            r@ == spec_render_unary(self@),
        decreases size_unary(self@), 0int,
    {
        match self {
            Unary::Un(op, rr) => {
                let mut r = String::from_str("(");
                r.append(
                    match op {
                        UnaryOp::Minus => "-",
                        UnaryOp::Bang => "!",
                    },
                );
                r.append(" ");
                let a = (&**rr).render();
                r.append(a.as_str());
                r.append(")");
                proof {
                    assert(r@ =~= spec_render_unary(self@));
                }
                r
            },
            Unary::Call(c) => c.render(),
        }
    }
}

impl Call {
    pub fn render(&self) -> (r: String)
        ensures
            r@ == spec_render_call(self@),
        decreases size_call(self@), 0int,
    {
        let mut r = self.prime.render();
        proof {
            lemma_view_callings_elts(self.rest@);
            assert(view_callings(self.rest@).skip(0) =~= view_callings(self.rest@));
        }
        let sfx = callings_render(&self.rest, 0);
        r.append(sfx.as_str());
        proof {
            assert(r@ =~= spec_render_call(self@));
        }
        r
    }
}

/// Renders the suffixes `cs[idx..]`, concatenated.
fn callings_render(cs: &Vec<Calling>, idx: usize) -> (r: String)
    requires
        idx <= cs@.len(),
    ensures
        r@ == spec_render_callings(view_callings(cs@).skip(idx as int)),
    decreases size_callings(view_callings(cs@).skip(idx as int)), 1int,
{
    proof {
        lemma_view_callings_elts(cs@);
    }
    if idx == cs.len() {
        proof {
            assert(view_callings(cs@).skip(idx as int) =~= Seq::<CallingV>::empty());
        }
        String::new()
    } else {
        let ghost sub = view_callings(cs@).skip(idx as int);
        proof {
            assert(sub[0] == view_callings(cs@)[idx as int]);
            assert(sub.drop_first() =~= view_callings(cs@).skip(idx as int + 1));
            lemma_size_calling_pos(sub[0]);
        }
        let mut r = cs[idx].render();
        let rest = callings_render(cs, idx + 1);
        r.append(rest.as_str());
        proof {
            assert(r@ =~= spec_render_callings(sub));
        }
        r
    }
}

impl Calling {
    pub fn render(&self) -> (r: String)
        ensures
            r@ == spec_render_calling(self@),
        decreases size_calling(self@), 0int,
    {
        match self {
            Calling::FuncCall(Some(a)) => {
                let mut r = String::from_str("(");
                let inner = a.render();
                r.append(inner.as_str());
                r.append(")");
                proof {
                    assert(r@ =~= spec_render_calling(self@));
                }
                r
            },
            Calling::FuncCall(None) => String::from_str("()"),
            Calling::Mthd(name) => {
                let mut r = String::from_str(".");
                r.append(name.as_str());
                proof {
                    assert(r@ =~= spec_render_calling(self@));
                }
                r
            },
        }
    }
}

impl Arguments {
    pub fn render(&self) -> (r: String)
        ensures
            r@ == spec_render_arguments(self@),
        decreases size_arguments(self@), 0int,
    {
        let mut r = self.expr.render();
        match &self.rest {
            Some(rr) => {
                r.append(", ");
                let b = (&**rr).render();
                r.append(b.as_str());
            },
            None => {},
        }
        proof {
            assert(r@ =~= spec_render_arguments(self@));
        }
        r
    }
}

impl Primary {
    pub fn render(&self) -> (r: String)
        ensures
            r@ == spec_render_primary(self@),
        decreases size_primary(self@), 0int,
    {
        match self {
            Primary::Number(n) => {
                let mut r = int_to_string(*n);
                r.append(".0");
                r
            },
            Primary::String(s) => s.clone(),
            Primary::Boolean(b) => if *b {
                String::from_str("true")
            } else {
                String::from_str("false")
            },
            Primary::Nil => String::from_str("nil"),
            Primary::ParenExpr(e) => {
                let mut r = String::from_str("(group ");
                let inner = (&**e).render();
                r.append(inner.as_str());
                r.append(")");
                proof {
                    assert(r@ =~= spec_render_primary(self@));
                }
                r
            },
            Primary::Identifier(id) => id.clone(),
            Primary::This => String::from_str("this"),
            Primary::SuperId(id) => {
                let mut r = String::from_str("super.");
                r.append(id.as_str());
                r
            },
        }
    }
}

impl VarDecl {
    pub fn render(&self) -> (r: String)
        ensures
            r@ == spec_render_var_decl(self@),
        decreases size_var_decl(self@), 1int,
    {
        let mut r = String::from_str("var ");
        r.append(self.name.as_str());
        match &self.expr {
            Some(e) => {
                r.append(" = ");
                let b = e.render();
                r.append(b.as_str());
            },
            None => {},
        }
        r.append(";\n");
        proof {
            assert(r@ =~= spec_render_var_decl(self@));
        }
        r
    }
}

impl Parameters {
    pub fn render(&self) -> (r: String)
        ensures
            r@ == spec_render_parameters(self@),
        decreases size_parameters(self@), 0int,
    {
        let mut r = self.param.clone();
        match &self.rest {
            Some(rr) => {
                r.append(", ");
                let b = (&**rr).render();
                r.append(b.as_str());
            },
            None => {},
        }
        proof {
            assert(r@ =~= spec_render_parameters(self@));
        }
        r
    }
}

impl Block {
    pub fn render(&self) -> (r: String)
        ensures
            r@ == spec_render_block(self@),
        decreases size_decls(view_declarations(self.0@)) + 1, 0int,
    {
        proof {
            lemma_view_declarations_elts(self.0@);
            assert(view_declarations(self.0@).skip(0) =~= view_declarations(self.0@));
            assert(self@ == BlockV(view_declarations(self.0@)));
        }
        let mut r = String::from_str("{\n\t");
        let body = decls_join_render(&self.0, 0);
        let ind = indent(body);
        r.append(ind.as_str());
        r.append("\n}");
        proof {
            assert(r@ =~= spec_render_block(self@));
        }
        r
    }
}

/// Renders the declarations `ds[idx..]`, joined with newlines.
fn decls_join_render(ds: &Vec<Declaration>, idx: usize) -> (r: String)
    requires
        idx <= ds@.len(),
    ensures
        r@ == spec_render_decls_join(view_declarations(ds@).skip(idx as int)),
    decreases size_decls(view_declarations(ds@).skip(idx as int)), 1int,
{
    proof {
        lemma_view_declarations_elts(ds@);
    }
    if idx == ds.len() {
        proof {
            assert(view_declarations(ds@).skip(idx as int) =~= Seq::<DeclarationV>::empty());
        }
        String::new()
    } else {
        let ghost sub = view_declarations(ds@).skip(idx as int);
        proof {
            assert(sub[0] == view_declarations(ds@)[idx as int]);
            assert(sub.drop_first() =~= view_declarations(ds@).skip(idx as int + 1));
            lemma_size_declaration_pos(sub[0]);
        }
        let mut r = ds[idx].render();
        if idx + 1 < ds.len() {
            r.append("\n");
            let rest = decls_join_render(ds, idx + 1);
            r.append(rest.as_str());
            proof {
                assert(r@ =~= spec_render_decls_join(sub));
            }
        } else {
            proof {
                assert(sub.len() == 1);
            }
        }
        r
    }
}

impl Function {
    pub fn render(&self) -> (r: String)
        ensures
            r@ == spec_render_function(self@),
        decreases size_function_v(self@), 1int,
    {
        let mut r = self.name.clone();
        r.append("(");
        match &self.params {
            Some(p) => {
                let ps = p.render();
                r.append(ps.as_str());
            },
            None => {},
        }
        r.append(") ");
        proof {
            assert(self@.body == crate::ast::view_block(&*self.body));
            assert(crate::ast::view_block(&*self.body) == BlockV(
                view_declarations((*self.body).0@),
            ));
            assert(size_function_v(self@) == 1 + crate::ast::size_parameters_opt(self@.params)
                + size_decls(self@.body.0));
        }
        let b = (&*self.body).render();
        r.append(b.as_str());
        proof {
            assert(r@ =~= spec_render_function(self@));
        }
        r
    }
}

impl ClassDecl {
    pub fn render(&self) -> (r: String)
        ensures
            r@ == spec_render_class_decl(self@),
        decreases size_class_decl(self@), 3int,
    {
        let mut r = String::from_str("class ");
        r.append(self.name.as_str());
        match &self.super_class {
            Some(s) => {
                r.append(" < ");
                r.append(s.as_str());
            },
            None => {},
        }
        r.append("{\n");
        proof {
            lemma_view_functions_elts(self.functions@);
            assert(view_functions(self.functions@).skip(0) =~= view_functions(self.functions@));
        }
        let fs = functions_render(&self.functions, 0);
        r.append(fs.as_str());
        r.append("}\n");
        proof {
            assert(r@ =~= spec_render_class_decl(self@));
        }
        r
    }
}

/// Renders the methods `fs[idx..]`, one per line.
fn functions_render(fs: &Vec<Function>, idx: usize) -> (r: String)
    requires
        idx <= fs@.len(),
    ensures
        r@ == spec_render_functions(view_functions(fs@).skip(idx as int)),
    decreases size_functions(view_functions(fs@).skip(idx as int)), 2int,
{
    proof {
        lemma_view_functions_elts(fs@);
    }
    if idx == fs.len() {
        proof {
            assert(view_functions(fs@).skip(idx as int) =~= Seq::<FunctionV>::empty());
        }
        String::new()
    } else {
        let ghost sub = view_functions(fs@).skip(idx as int);
        proof {
            assert(sub[0] == view_functions(fs@)[idx as int]);
            assert(sub.drop_first() =~= view_functions(fs@).skip(idx as int + 1));
            lemma_size_function_pos(sub[0]);
        }
        let mut r = fs[idx].render();
        r.append("\n");
        let rest = functions_render(fs, idx + 1);
        r.append(rest.as_str());
        proof {
            assert(r@ =~= spec_render_functions(sub));
        }
        r
    }
}

impl ForDec {
    pub fn render(&self) -> (r: String)
        ensures
            r@ == spec_render_for_dec(self@),
        decreases size_for_dec(self@), 1int,
    {
        match self {
            ForDec::VarDecl(v) => v.render(),
            ForDec::ExprStmt(e) => {
                let mut r = e.0.render();
                r.append(";");
                proof {
                    assert(r@ =~= spec_render_for_dec(self@));
                }
                r
            },
            ForDec::Nil => String::new(),
        }
    }
}

impl Statement {
    pub fn render(&self) -> (r: String)
        ensures
            r@ == spec_render_statement(self@),
        decreases size_statement(self@), 1int,
    {
        match self {
            Statement::ExprStmt(e) => {
                let mut r = e.0.render();
                r.append(";");
                proof {
                    assert(r@ =~= spec_render_statement(self@));
                }
                r
            },
            Statement::IfStmt(i) => {
                proof {
                    assert(self@ == StatementV::IfStmt(crate::ast::view_if_stmt(i)));
                    assert(size_statement(self@) == 1 + size_if_stmt(crate::ast::view_if_stmt(i)));
                    assert(crate::ast::view_if_stmt(i).if_stmt == Box::new(
                        crate::ast::view_statement(&*i.if_stmt),
                    ));
                }
                let mut r = String::from_str("if (");
                let p = i.pred.render();
                r.append(p.as_str());
                r.append(") \n\t");
                let body = (&*i.if_stmt).render();
                let ind = indent(body);
                r.append(ind.as_str());
                match &i.else_stmt {
                    Some(e) => {
                        r.append("else \n\t ");
                        let els = (&**e).render();
                        r.append(els.as_str());
                    },
                    None => {},
                }
                proof {
                    assert(r@ =~= spec_render_statement(self@));
                }
                r
            },
            Statement::ForStmt(f) => {
                proof {
                    assert(self@ == StatementV::ForStmt(crate::ast::view_for_stmt(f)));
                    assert(size_statement(self@) == 1 + size_for_stmt(
                        crate::ast::view_for_stmt(f),
                    ));
                    assert(crate::ast::view_for_stmt(f).body == Box::new(
                        crate::ast::view_statement(&*f.body),
                    ));
                }
                let mut r = String::from_str("for (");
                let d = f.first_dec.render();
                r.append(d.as_str());
                r.append("; ");
                match &f.scnd_expr {
                    Some(e) => {
                        let x = e.render();
                        r.append(x.as_str());
                    },
                    None => {},
                }
                r.append("; ");
                match &f.thrd_expr {
                    Some(e) => {
                        let x = e.render();
                        r.append(x.as_str());
                    },
                    None => {},
                }
                r.append(") \n\t");
                let body = (&*f.body).render();
                let ind = indent(body);
                r.append(ind.as_str());
                proof {
                    assert(r@ =~= spec_render_statement(self@));
                }
                r
            },
            Statement::PrntStmt(p) => {
                let mut r = String::from_str("print ");
                let x = p.0.render();
                r.append(x.as_str());
                r.append(";");
                proof {
                    assert(r@ =~= spec_render_statement(self@));
                }
                r
            },
            Statement::RtrnStmt(rt) => {
                let mut r = String::from_str("return ");
                match &rt.0 {
                    Some(e) => {
                        let x = e.render();
                        r.append(x.as_str());
                    },
                    None => {},
                }
                r.append(";");
                proof {
                    assert(r@ =~= spec_render_statement(self@));
                }
                r
            },
            Statement::WhileStmt(w) => {
                proof {
                    assert(self@ == StatementV::WhileStmt(
                        WhileStmtV {
                            pred: crate::ast::view_expression(&w.pred),
                            stmt: Box::new(crate::ast::view_statement(&*w.stmt)),
                        },
                    ));
                    assert(size_statement(self@) == 1 + size_while_stmt(self@->WhileStmt_0));
                }
                let mut r = String::from_str("while (");
                let p = w.pred.render();
                r.append(p.as_str());
                r.append(") \n\t");
                let body = (&*w.stmt).render();
                let ind = indent(body);
                r.append(ind.as_str());
                proof {
                    assert(r@ =~= spec_render_statement(self@));
                }
                r
            },
            Statement::Block(b) => {
                proof {
                    assert(self@ == StatementV::Block(crate::ast::view_block(b)));
                    assert(crate::ast::view_block(b) == BlockV(view_declarations(b.0@)));
                    assert(size_statement(self@) == 1 + size_decls(view_declarations(b.0@)));
                }
                b.render()
            },
        }
    }
}

impl Declaration {
    pub fn render(&self) -> (r: String)
        ensures
            r@ == spec_render_declaration(self@),
        decreases size_declaration(self@), 0int,
    {
        match self {
            Declaration::ClassDecl(c) => c.render(),
            Declaration::FunDecl(f) => {
                let mut r = String::from_str("fun ");
                let x = f.0.render();
                r.append(x.as_str());
                proof {
                    assert(r@ =~= spec_render_declaration(self@));
                }
                r
            },
            Declaration::VarDecl(v) => v.render(),
            Declaration::Statement(s) => s.render(),
        }
    }
}

impl Program {
    /// Renders the whole program, one declaration per line.
    pub fn render(&self) -> (r: String)
        ensures
            r@ == spec_render_program(self@),
        decreases size_decls(view_declarations(self.declarations@)) + 1, 1int,
    {
        proof {
            lemma_view_declarations_elts(self.declarations@);
            assert(view_declarations(self.declarations@).skip(0) =~= view_declarations(
                self.declarations@,
            ));
        }
        program_decls_render(&self.declarations, 0)
    }
}

/// Renders the declarations `ds[idx..]`, one per line.
fn program_decls_render(ds: &Vec<Declaration>, idx: usize) -> (r: String)
    requires
        idx <= ds@.len(),
    ensures
        r@ == spec_render_program_decls(view_declarations(ds@).skip(idx as int)),
    decreases size_decls(view_declarations(ds@).skip(idx as int)), 1int,
{
    proof {
        lemma_view_declarations_elts(ds@);
    }
    if idx == ds.len() {
        proof {
            assert(view_declarations(ds@).skip(idx as int) =~= Seq::<DeclarationV>::empty());
        }
        String::new()
    } else {
        let ghost sub = view_declarations(ds@).skip(idx as int);
        proof {
            assert(sub[0] == view_declarations(ds@)[idx as int]);
            assert(sub.drop_first() =~= view_declarations(ds@).skip(idx as int + 1));
            lemma_size_declaration_pos(sub[0]);
        }
        let mut r = ds[idx].render();
        r.append("\n");
        let rest = program_decls_render(ds, idx + 1);
        r.append(rest.as_str());
        proof {
            assert(r@ =~= spec_render_program_decls(sub));
        }
        r
    }
}

} // verus!
