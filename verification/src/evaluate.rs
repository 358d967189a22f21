//! The tree-walking evaluator: walks the syntax tree against the scope
//! arena, computes values, applies operator semantics, drives control flow
//! and function calls, and collects the output of `print` statements.
//!
//! The whole evaluator is specified by a recursive mathematical
//! interpreter over the view types ([`eval_expression`],
//! [`eval_statement`] and friends); every executable `evaluate` method is
//! proved to leave the interpreter state and produce the result that the
//! mathematical interpreter names.
//!
//! Termination: the interpreter carries a fuel budget. One unit pays for
//! entering a function call and for each loop iteration, so evaluation is
//! total; when the budget runs out the result is the runtime error
//! `Stack overflow.`. The public entry point supplies the full `u64`
//! budget.
//!
//! Numeric semantics are those of 64-bit signed integers: `+`, `-`, `*`
//! and unary `-` report the runtime error `numeric overflow.` outside the
//! `i64` range, `/` truncates toward zero, and division by zero is the
//! runtime error `division by zero.` — the explicit documented choice this
//! numeric domain calls for.
//!
//! A return statement produces a distinct `Return` flow, intercepted at
//! the nearest enclosing call boundary, so the sentinel can never leak
//! into a user-visible value. Statement flows: `Normal` carries the
//! statement's value, `Return` propagates out of blocks and loops
//! immediately.

use vstd::prelude::*;
use vstd::string::StrSliceExecFns;
use vstd::string::StringExecFns;

use crate::ast::ArgumentsV;
use crate::ast::AssignmentV;
use crate::ast::BlockV;
use crate::ast::CallV;
use crate::ast::CallingV;
use crate::ast::ComparisionOp;
use crate::ast::ComparisionV;
use crate::ast::DeclarationV;
use crate::ast::EqualityOp;
use crate::ast::EqualityV;
use crate::ast::ExpressionV;
use crate::ast::FactorOp;
use crate::ast::FactorV;
use crate::ast::ForDecV;
use crate::ast::ForStmtV;
use crate::ast::FunDeclV;
use crate::ast::IfStmtV;
use crate::ast::LogicAndV;
use crate::ast::LogicOrV;
use crate::ast::ParametersV;
use crate::ast::PrimaryV;
use crate::ast::ProgramV;
use crate::ast::StatementV;
use crate::ast::TermOp;
use crate::ast::TermV;
use crate::ast::UnaryOp;
use crate::ast::UnaryV;
use crate::ast::VarDeclV;
use crate::ast::WhileStmtV;
use crate::ast::size_arguments;
use crate::ast::size_assignment;
use crate::ast::size_call;
use crate::ast::size_calling;
use crate::ast::size_callings;
use crate::ast::size_comparision;
use crate::ast::size_declaration;
use crate::ast::size_decls;
use crate::ast::size_equality;
use crate::ast::size_expression;
use crate::ast::size_factor;
use crate::ast::size_for_dec;
use crate::ast::size_for_stmt;
use crate::ast::size_if_stmt;
use crate::ast::size_logic_and;
use crate::ast::size_logic_or;
use crate::ast::size_primary;
use crate::ast::size_statement;
use crate::ast::size_term;
use crate::ast::size_unary;
use crate::ast::size_var_decl;
use crate::ast::size_while_stmt;
use crate::environment::Env;
use crate::environment::EnvV;
use crate::environment::env_vals_wf;
use crate::environment::find_env;
use crate::environment::objv_wf;
use crate::environment::scope_find;
use crate::environment::wf_envs;
use crate::ast::Arguments;
use crate::ast::Assignment;
use crate::ast::Block;
use crate::ast::Call;
use crate::ast::Calling;
use crate::ast::ClassDecl;
use crate::ast::Comparision;
use crate::ast::Declaration;
use crate::ast::Equality;
use crate::ast::ExprStmt;
use crate::ast::Expression;
use crate::ast::Factor;
use crate::ast::ForDec;
use crate::ast::ForStmt;
use crate::ast::FunDecl;
use crate::ast::Function;
use crate::ast::IfStmt;
use crate::ast::LogicAnd;
use crate::ast::LogicOr;
use crate::ast::Parameters;
use crate::ast::Primary;
use crate::ast::PrntStmt;
use crate::ast::Program;
use crate::ast::RtrnStmt;
use crate::ast::Statement;
use crate::ast::Term;
use crate::ast::Unary;
use crate::ast::VarDecl;
use crate::ast::WhileStmt;
use crate::ast::view_block;
use crate::ast::view_callings;
use crate::ast::view_declarations;
use crate::object::Class;
use crate::parse::PRes;
use crate::parse::ParseError;
use crate::parse::fail_matches;
use crate::parse::lemma_scan_wf;
use crate::parse::spec_parse_program;
use crate::scan::ErrToken;
use crate::scan::Scanner;
use crate::scan::errs_view;
use crate::scan::spec_scan;
use crate::object::ExFn;
use crate::object::Object;
use crate::object::ObjectV;
use crate::object::names_view;
use crate::object::render_object;
use crate::object::truthy;
use crate::object::values_equal;
use crate::object::is_truthy;
use crate::object::obj_render;
use crate::object::spec_obj_eq;
use crate::token::spec_int_str;

verus! {

/// A runtime error: a message only. Raising one aborts evaluation of the
/// rest of the program.
pub struct RuntimeError {
    pub err: String,
}

/// The interpreter state: the scope arena and the lines printed so far.
pub struct Interp {
    pub envs: Vec<Env>,
    pub output: Vec<String>,
}

/// The mathematical content of the interpreter state.
#[verifier::ext_equal]
pub struct VState {
    pub envs: Seq<EnvV>,
    pub out: Seq<Seq<char>>,
}

impl View for Interp {
    type V = VState;

    open spec fn view(&self) -> VState {
        VState {
            envs: self.envs@.map_values(|e: Env| e@),
            out: self.output@.map_values(|s: String| s@),
        }
    }
}

/// A well-formed state: the scope chain links point backwards, and every
/// value stored anywhere holds only scope indexes inside the arena.
pub open spec fn st_wf(st: VState) -> bool {
    &&& wf_envs(st.envs)
    &&& forall|i: int| 0 <= i < st.envs.len() ==> env_vals_wf(#[trigger] st.envs[i], st.envs.len() as int)
}

/// What evaluating a statement or declaration yields: a value, a
/// propagating `return`, or a runtime error.
pub enum VOut {
    Norm(ObjectV),
    Ret(ObjectV),
    Fail(Seq<char>),
}

/// The state after binding `name` to `v` in scope `e` alone.
pub open spec fn st_define(st: VState, e: int, name: Seq<char>, v: ObjectV) -> VState {
    VState {
        envs: st.envs.update(
            e,
            EnvV { values: st.envs[e].values.push((name, v)), next: st.envs[e].next },
        ),
        out: st.out,
    }
}

/// The state with one fresh empty scope chained to `parent`.
pub open spec fn st_push_env(st: VState, parent: int) -> VState {
    VState { envs: st.envs.push(EnvV { values: Seq::empty(), next: Some(parent) }), out: st.out }
}

/// The state with one more printed line.
pub open spec fn st_print(st: VState, s: Seq<char>) -> VState {
    VState { envs: st.envs, out: st.out.push(s) }
}

/// Equality operators never fail: mismatched variants are unequal, not an
/// error.
pub open spec fn apply_equality_op(op: EqualityOp, l: ObjectV, r: ObjectV) -> Result<
    ObjectV,
    Seq<char>,
> {
    match op {
        EqualityOp::NotEquals => Ok(ObjectV::Boolean(!spec_obj_eq(l, r))),
        EqualityOp::EqualEquals => Ok(ObjectV::Boolean(spec_obj_eq(l, r))),
    }
}

/// Ordering operators demand two numbers.
pub open spec fn apply_comparision_op(op: ComparisionOp, l: ObjectV, r: ObjectV) -> Result<
    ObjectV,
    Seq<char>,
> {
    match (l, r) {
        (ObjectV::Number(a), ObjectV::Number(b)) => Ok(
            ObjectV::Boolean(
                match op {
                    ComparisionOp::Less => a < b,
                    ComparisionOp::LessEqual => a <= b,
                    ComparisionOp::Greater => a > b,
                    ComparisionOp::GreaterEqual => a >= b,
                },
            ),
        ),
        _ => Err("Operands must be numbers."@),
    }
}

/// `+` adds two numbers or concatenates two strings; `-` subtracts two
/// numbers; anything else is an error. A sum or difference outside the
/// `i64` range is the runtime error `numeric overflow.`.
pub open spec fn apply_term_op(op: TermOp, l: ObjectV, r: ObjectV) -> Result<ObjectV, Seq<char>> {
    match l {
        ObjectV::Number(a) => match r {
            ObjectV::Number(b) => match op {
                TermOp::Plus => match a.checked_add(b) {
                    Some(c) => Ok(ObjectV::Number(c)),
                    None => Err("numeric overflow."@),
                },
                TermOp::Minus => match a.checked_sub(b) {
                    Some(c) => Ok(ObjectV::Number(c)),
                    None => Err("numeric overflow."@),
                },
            },
            _ => Err("Operands must be two numbers or two strings."@),
        },
        ObjectV::String(s) => match r {
            ObjectV::String(t) => match op {
                TermOp::Plus => Ok(ObjectV::String(s + t)),
                TermOp::Minus => Err("Operands must be two numbers or two strings."@),
            },
            _ => Err("Operands must be two numbers or two strings."@),
        },
        _ => Err("Operands must be two numbers or two strings."@),
    }
}

/// `*` and `/` demand two numbers; `/` truncates toward zero, division by
/// zero is the runtime error `division by zero.`, and a result outside the
/// `i64` range is `numeric overflow.`.
pub open spec fn apply_factor_op(op: FactorOp, l: ObjectV, r: ObjectV) -> Result<
    ObjectV,
    Seq<char>,
> {
    match (l, r) {
        (ObjectV::Number(a), ObjectV::Number(b)) => match op {
            FactorOp::Mul => match a.checked_mul(b) {
                Some(c) => Ok(ObjectV::Number(c)),
                None => Err("numeric overflow."@),
            },
            FactorOp::Div => if b == 0 {
                Err("division by zero."@)
            } else {
                match a.checked_div(b) {
                    Some(q) => Ok(ObjectV::Number(q)),
                    None => Err("numeric overflow."@),
                }
            },
        },
        _ => Err("Operands must be numbers."@),
    }
}

/// Unary `-` negates a number; unary `!` negates truthiness, so it always
/// yields a boolean.
pub open spec fn apply_unary_op(op: UnaryOp, v: ObjectV) -> Result<ObjectV, Seq<char>> {
    match op {
        UnaryOp::Minus => match v {
            ObjectV::Number(n) => if n == i64::MIN {
                Err("numeric overflow."@)
            } else {
                Ok(ObjectV::Number((-n) as i64))
            },
            _ => Err("Operand must be a number"@),
        },
        UnaryOp::Bang => Ok(ObjectV::Boolean(!is_truthy(v))),
    }
}

/// The parameter names of a parameter chain, in source order.
pub open spec fn param_names(p: ParametersV) -> Seq<Seq<char>>
    decreases p,
{
    match p.rest {
        Some(r) => param_names(*r).push(p.param),
        None => seq![p.param],
    }
}

/// The parameter names of an optional parameter chain.
pub open spec fn param_names_opt(p: Option<ParametersV>) -> Seq<Seq<char>> {
    match p {
        Some(q) => param_names(q),
        None => Seq::empty(),
    }
}

/// The bindings of a call scope: each parameter name bound to its
/// argument.
pub open spec fn bind_params(params: Seq<Seq<char>>, args: Seq<ObjectV>) -> Seq<
    (Seq<char>, ObjectV),
> {
    Seq::new(params.len(), |k: int| (params[k], args[k]))
}

/// The arity error of a call with `n` parameters and `m` arguments.
pub open spec fn arity_msg(n: int, m: int) -> Seq<char> {
    "Expect "@ + spec_int_str(n) + " arguments but got "@ + spec_int_str(m) + "."@
}

pub open spec fn eval_expression(e: ExpressionV, st: VState, env: int, fuel: nat) -> (
    VState,
    Result<ObjectV, Seq<char>>,
)
    decreases fuel, size_expression(e), 0int,
{
    eval_assignment(e.0, st, env, fuel)
}

pub open spec fn eval_assignment(a: AssignmentV, st: VState, env: int, fuel: nat) -> (
    VState,
    Result<ObjectV, Seq<char>>,
)
    decreases fuel, size_assignment(a), 0int,
{
    match a {
        AssignmentV::Assign(call, rhs) => match call.prime {
            PrimaryV::Identifier(id) => {
                let (st1, r1) = eval_assignment(*rhs, st, env, fuel);
                match r1 {
                    Ok(res) => match find_env(st1.envs, env, id) {
                        Some(ev) => if call.rest.len() == 0 {
                            (st_define(st1, ev, id, res), Ok(res))
                        } else {
                            let v = scope_find(st1.envs[ev].values, id)->0;
                            proof {
                                crate::ast::lemma_size_callings_take(
                                    call.rest,
                                    call.rest.len() - 1,
                                );
                                assert(size_call(call) == 1 + size_primary(call.prime)
                                    + size_callings(call.rest));
                                assert(size_assignment(a) == 1 + size_call(call)
                                    + size_assignment(*rhs));
                            }
                            let (st2, r2) = eval_callings_seq(
                                call.rest.take(call.rest.len() - 1),
                                v,
                                st1,
                                env,
                                fuel,
                            );
                            match r2 {
                                Ok(v2) => match call.rest.last() {
                                    CallingV::FuncCall(_) => (
                                        st2,
                                        Err("cannot assign to function calls"@),
                                    ),
                                    CallingV::Mthd(mname) => match v2 {
                                        ObjectV::Object { name: _, env: oenv } => (
                                            st_define(st2, oenv, mname, res),
                                            Ok(res),
                                        ),
                                        _ => (st2, Err("method only allowed for objects."@)),
                                    },
                                },
                                Err(m) => (st2, Err(m)),
                            }
                        },
                        None => (st1, Err("unbound variable "@ + id)),
                    },
                    Err(m) => (st1, Err(m)),
                }
            },
            // a non-identifier target never comes out of the parser
            // (its assignment alternative rejects it at parse time); this
            // arm keeps evaluation total over every tree all the same
            _ => (st, Err("Expect identifier"@)),
        },
        AssignmentV::LogicOr(o) => eval_logic_or(o, st, env, fuel),
    }
}

pub open spec fn eval_logic_or(o: LogicOrV, st: VState, env: int, fuel: nat) -> (
    VState,
    Result<ObjectV, Seq<char>>,
)
    decreases fuel, size_logic_or(o), 0int,
{
    match o.rest {
        Some(left) => {
            let (st1, r1) = eval_logic_or(*left, st, env, fuel);
            match r1 {
                Ok(v) => if is_truthy(v) {
                    (st1, Ok(v))
                } else {
                    eval_logic_and(o.and, st1, env, fuel)
                },
                Err(m) => (st1, Err(m)),
            }
        },
        None => eval_logic_and(o.and, st, env, fuel),
    }
}

pub open spec fn eval_logic_and(a: LogicAndV, st: VState, env: int, fuel: nat) -> (
    VState,
    Result<ObjectV, Seq<char>>,
)
    decreases fuel, size_logic_and(a), 0int,
{
    match a.rest {
        Some(left) => {
            let (st1, r1) = eval_logic_and(*left, st, env, fuel);
            match r1 {
                Ok(v) => if !is_truthy(v) {
                    (st1, Ok(v))
                } else {
                    eval_equality(a.eq, st1, env, fuel)
                },
                Err(m) => (st1, Err(m)),
            }
        },
        None => eval_equality(a.eq, st, env, fuel),
    }
}

pub open spec fn eval_equality(e: EqualityV, st: VState, env: int, fuel: nat) -> (
    VState,
    Result<ObjectV, Seq<char>>,
)
    decreases fuel, size_equality(e), 0int,
{
    match e.rest {
        Some((op, left)) => {
            let (st1, r1) = eval_equality(*left, st, env, fuel);
            match r1 {
                Ok(l) => {
                    let (st2, r2) = eval_comparision(e.comparision, st1, env, fuel);
                    match r2 {
                        Ok(r) => (st2, apply_equality_op(op, l, r)),
                        Err(m) => (st2, Err(m)),
                    }
                },
                Err(m) => (st1, Err(m)),
            }
        },
        None => eval_comparision(e.comparision, st, env, fuel),
    }
}

pub open spec fn eval_comparision(c: ComparisionV, st: VState, env: int, fuel: nat) -> (
    VState,
    Result<ObjectV, Seq<char>>,
)
    decreases fuel, size_comparision(c), 0int,
{
    match c.rest {
        Some((op, left)) => {
            let (st1, r1) = eval_comparision(*left, st, env, fuel);
            match r1 {
                Ok(l) => {
                    let (st2, r2) = eval_term(c.term, st1, env, fuel);
                    match r2 {
                        Ok(r) => (st2, apply_comparision_op(op, l, r)),
                        Err(m) => (st2, Err(m)),
                    }
                },
                Err(m) => (st1, Err(m)),
            }
        },
        None => eval_term(c.term, st, env, fuel),
    }
}

pub open spec fn eval_term(t: TermV, st: VState, env: int, fuel: nat) -> (
    VState,
    Result<ObjectV, Seq<char>>,
)
    decreases fuel, size_term(t), 0int,
{
    match t.rest {
        Some((op, left)) => {
            let (st1, r1) = eval_term(*left, st, env, fuel);
            match r1 {
                Ok(l) => {
                    let (st2, r2) = eval_factor(t.factor, st1, env, fuel);
                    match r2 {
                        Ok(r) => (st2, apply_term_op(op, l, r)),
                        Err(m) => (st2, Err(m)),
                    }
                },
                Err(m) => (st1, Err(m)),
            }
        },
        None => eval_factor(t.factor, st, env, fuel),
    }
}

pub open spec fn eval_factor(f: FactorV, st: VState, env: int, fuel: nat) -> (
    VState,
    Result<ObjectV, Seq<char>>,
)
    decreases fuel, size_factor(f), 0int,
{
    match f.rest {
        Some((op, left)) => {
            let (st1, r1) = eval_factor(*left, st, env, fuel);
            match r1 {
                Ok(l) => {
                    let (st2, r2) = eval_unary(f.unary, st1, env, fuel);
                    match r2 {
                        Ok(r) => (st2, apply_factor_op(op, l, r)),
                        Err(m) => (st2, Err(m)),
                    }
                },
                Err(m) => (st1, Err(m)),
            }
        },
        None => eval_unary(f.unary, st, env, fuel),
    }
}

pub open spec fn eval_unary(u: UnaryV, st: VState, env: int, fuel: nat) -> (
    VState,
    Result<ObjectV, Seq<char>>,
)
    decreases fuel, size_unary(u), 0int,
{
    match u {
        UnaryV::Un(op, inner) => {
            let (st1, r1) = eval_unary(*inner, st, env, fuel);
            match r1 {
                Ok(v) => (st1, apply_unary_op(op, v)),
                Err(m) => (st1, Err(m)),
            }
        },
        UnaryV::Call(c) => eval_call(c, st, env, fuel),
    }
}

pub open spec fn eval_call(c: CallV, st: VState, env: int, fuel: nat) -> (
    VState,
    Result<ObjectV, Seq<char>>,
)
    decreases fuel, size_call(c), 0int,
{
    let (st1, r1) = eval_primary(c.prime, st, env, fuel);
    match r1 {
        Ok(v) => eval_callings_seq(c.rest, v, st1, env, fuel),
        Err(m) => (st1, Err(m)),
    }
}

/// Applies a run of call suffixes to a value, left to right.
pub open spec fn eval_callings_seq(
    cs: Seq<CallingV>,
    v: ObjectV,
    st: VState,
    env: int,
    fuel: nat,
) -> (VState, Result<ObjectV, Seq<char>>)
    decreases fuel, size_callings(cs), 1int,
{
    if cs.len() == 0 {
        (st, Ok(v))
    } else {
        let (st1, r1) = eval_calling(cs[0], v, st, env, fuel);
        proof {
            crate::ast::lemma_size_calling_pos(cs[0]);
        }
        match r1 {
            Ok(v2) => eval_callings_seq(cs.drop_first(), v2, st1, env, fuel),
            Err(m) => (st1, Err(m)),
        }
    }
}

/// Applies one call suffix to a value: an invocation calls a function
/// value (entering a call costs one unit of fuel), a property access reads
/// from an instance's scope chain.
pub open spec fn eval_calling(c: CallingV, v: ObjectV, st: VState, env: int, fuel: nat) -> (
    VState,
    Result<ObjectV, Seq<char>>,
)
    decreases fuel, size_calling(c), 0int,
{
    match c {
        CallingV::FuncCall(args_opt) => match v {
            ObjectV::Function { name: _, params, body, env: fenv } => {
                let (st1, r1) = match args_opt {
                    Some(a) => eval_arguments(a, st, env, fuel),
                    None => (st, Ok(Seq::<ObjectV>::empty())),
                };
                match r1 {
                    Ok(args) => if fuel == 0 {
                        (st1, Err("Stack overflow."@))
                    } else {
                        call_function(params, body, fenv, args, st1, (fuel - 1) as nat)
                    },
                    Err(m) => (st1, Err(m)),
                }
            },
            _ => (st, Err("Can only call functions and classes."@)),
        },
        CallingV::Mthd(mname) => match v {
            ObjectV::Object { name: _, env: oenv } => match find_env(st.envs, oenv, mname) {
                Some(ev) => (st, Ok(scope_find(st.envs[ev].values, mname)->0)),
                None => (st, Err("unbound variable"@)),
            },
            _ => (st, Err("Can only call methods on objects."@)),
        },
    }
}

/// Evaluates an argument chain in source order, yielding the values.
pub open spec fn eval_arguments(a: ArgumentsV, st: VState, env: int, fuel: nat) -> (
    VState,
    Result<Seq<ObjectV>, Seq<char>>,
)
    decreases fuel, size_arguments(a), 0int,
{
    let (st1, r1) = match a.rest {
        Some(r) => eval_arguments(*r, st, env, fuel),
        None => (st, Ok(Seq::<ObjectV>::empty())),
    };
    match r1 {
        Ok(vs) => {
            let (st2, r2) = eval_expression(a.expr, st1, env, fuel);
            match r2 {
                Ok(v) => (st2, Ok(vs.push(v))),
                Err(m) => (st2, Err(m)),
            }
        },
        Err(m) => (st1, Err(m)),
    }
}

/// Invokes a function value: arity must match exactly; the call scope is
/// chained to the scope the function captured, not the call site; a
/// `return` in the body yields its value, a body that completes yields
/// nil.
pub open spec fn call_function(
    params: Seq<Seq<char>>,
    body: BlockV,
    fenv: int,
    args: Seq<ObjectV>,
    st: VState,
    fuel: nat,
) -> (VState, Result<ObjectV, Seq<char>>)
    decreases fuel, size_decls(body.0), 2int,
{
    if args.len() != params.len() {
        (st, Err(arity_msg(params.len() as int, args.len() as int)))
    } else {
        let env2 = st.envs.len() as int;
        let st1 = VState {
            envs: st.envs.push(EnvV { values: bind_params(params, args), next: Some(fenv) }),
            out: st.out,
        };
        let (st2, r) = eval_decls(body.0, st1, env2, fuel);
        match r {
            VOut::Norm(_) => (st2, Ok(ObjectV::Nil)),
            VOut::Ret(v) => (st2, Ok(v)),
            VOut::Fail(m) => (st2, Err(m)),
        }
    }
}

pub open spec fn eval_primary(p: PrimaryV, st: VState, env: int, fuel: nat) -> (
    VState,
    Result<ObjectV, Seq<char>>,
)
    decreases fuel, size_primary(p), 0int,
{
    match p {
        PrimaryV::Number(n) => (st, Ok(ObjectV::Number(n))),
        PrimaryV::String(s) => (st, Ok(ObjectV::String(s))),
        PrimaryV::Boolean(b) => (st, Ok(ObjectV::Boolean(b))),
        PrimaryV::Nil => (st, Ok(ObjectV::Nil)),
        PrimaryV::ParenExpr(e) => eval_expression(*e, st, env, fuel),
        PrimaryV::Identifier(id) => match find_env(st.envs, env, id) {
            Some(ev) => (st, Ok(scope_find(st.envs[ev].values, id)->0)),
            None => (st, Err("unbound variable "@ + id)),
        },
        PrimaryV::This => (st, Ok(ObjectV::Object { name: "this"@, env })),
        PrimaryV::SuperId(_) => (st, Err("super is not supported."@)),
    }
}

pub open spec fn eval_statement(s: StatementV, st: VState, env: int, fuel: nat) -> (VState, VOut)
    decreases fuel, size_statement(s), 0int,
{
    match s {
        StatementV::ExprStmt(e) => {
            let (st1, r) = eval_expression(e.0, st, env, fuel);
            match r {
                Ok(v) => (st1, VOut::Norm(v)),
                Err(m) => (st1, VOut::Fail(m)),
            }
        },
        StatementV::IfStmt(i) => eval_if(i, st, env, fuel),
        StatementV::ForStmt(f) => eval_for(f, st, env, fuel),
        StatementV::PrntStmt(p) => {
            let (st1, r) = eval_expression(p.0, st, env, fuel);
            match r {
                Ok(v) => (st_print(st1, obj_render(v)), VOut::Norm(v)),
                Err(m) => (st1, VOut::Fail(m)),
            }
        },
        StatementV::RtrnStmt(r) => match r.0 {
            Some(e) => {
                let (st1, r1) = eval_expression(e, st, env, fuel);
                match r1 {
                    Ok(v) => (st1, VOut::Ret(v)),
                    Err(m) => (st1, VOut::Fail(m)),
                }
            },
            None => (st, VOut::Ret(ObjectV::Nil)),
        },
        StatementV::WhileStmt(w) => eval_while(w, st, env, fuel),
        StatementV::Block(b) => {
            let env2 = st.envs.len() as int;
            eval_decls(b.0, st_push_env(st, env), env2, fuel)
        },
    }
}

pub open spec fn eval_if(i: IfStmtV, st: VState, env: int, fuel: nat) -> (VState, VOut)
    decreases fuel, size_if_stmt(i), 0int,
{
    let (st1, r1) = eval_expression(i.pred, st, env, fuel);
    match r1 {
        Ok(v) => if is_truthy(v) {
            eval_statement(*i.if_stmt, st1, env, fuel)
        } else {
            match i.else_stmt {
                Some(e) => eval_statement(*e, st1, env, fuel),
                None => (st1, VOut::Norm(ObjectV::Nil)),
            }
        },
        Err(m) => (st1, VOut::Fail(m)),
    }
}

/// A while loop re-checks its condition before each iteration; each
/// iteration costs one unit of fuel; a `return` from the body propagates
/// immediately; a finished loop yields nil.
pub open spec fn eval_while(w: WhileStmtV, st: VState, env: int, fuel: nat) -> (VState, VOut)
    decreases fuel, size_while_stmt(w), 0int,
{
    if fuel == 0 {
        (st, VOut::Fail("Stack overflow."@))
    } else {
        let (st1, r1) = eval_expression(w.pred, st, env, fuel);
        match r1 {
            Ok(v) => if !is_truthy(v) {
                (st1, VOut::Norm(ObjectV::Nil))
            } else {
                let (st2, r2) = eval_statement(*w.stmt, st1, env, fuel);
                match r2 {
                    VOut::Norm(_) => eval_while(w, st2, env, (fuel - 1) as nat),
                    VOut::Ret(v2) => (st2, VOut::Ret(v2)),
                    VOut::Fail(m) => (st2, VOut::Fail(m)),
                }
            },
            Err(m) => (st1, VOut::Fail(m)),
        }
    }
}

/// A for statement evaluates its initializer inside one fresh scope, then
/// iterates like a while loop in that same scope; the value it yields is
/// the value of its initializer.
pub open spec fn eval_for(f: ForStmtV, st: VState, env: int, fuel: nat) -> (VState, VOut)
    decreases fuel, size_for_stmt(f), 1int,
{
    let env2 = st.envs.len() as int;
    let (st1, r1) = eval_for_dec(f.first_dec, st_push_env(st, env), env2, fuel);
    match r1 {
        VOut::Norm(res) => if fuel == 0 {
            (st1, VOut::Fail("Stack overflow."@))
        } else {
            eval_for_loop(f, st1, env2, (fuel - 1) as nat, res)
        },
        VOut::Ret(v) => (st1, VOut::Ret(v)),
        VOut::Fail(m) => (st1, VOut::Fail(m)),
    }
}

/// One round of a for loop: condition (a missing condition is always
/// true), body (a `return` propagates immediately), post-expression, then
/// the next round for one unit of fuel.
pub open spec fn eval_for_loop(f: ForStmtV, st: VState, env: int, fuel: nat, res: ObjectV) -> (
    VState,
    VOut,
)
    decreases fuel, size_for_stmt(f), 0int,
{
    let (st1, c) = match f.scnd_expr {
        Some(e) => eval_expression(e, st, env, fuel),
        None => (st, Ok(ObjectV::Boolean(true))),
    };
    match c {
        Ok(cv) => if !is_truthy(cv) {
            (st1, VOut::Norm(res))
        } else {
            let (st2, r2) = eval_statement(*f.body, st1, env, fuel);
            match r2 {
                VOut::Norm(_) => {
                    let (st3, r3) = match f.thrd_expr {
                        Some(e) => eval_expression(e, st2, env, fuel),
                        None => (st2, Ok(ObjectV::Nil)),
                    };
                    match r3 {
                        Ok(_) => if fuel == 0 {
                            (st3, VOut::Fail("Stack overflow."@))
                        } else {
                            eval_for_loop(f, st3, env, (fuel - 1) as nat, res)
                        },
                        Err(m) => (st3, VOut::Fail(m)),
                    }
                },
                VOut::Ret(v) => (st2, VOut::Ret(v)),
                VOut::Fail(m) => (st2, VOut::Fail(m)),
            }
        },
        Err(m) => (st1, VOut::Fail(m)),
    }
}

pub open spec fn eval_for_dec(d: ForDecV, st: VState, env: int, fuel: nat) -> (VState, VOut)
    decreases fuel, size_for_dec(d), 0int,
{
    match d {
        ForDecV::VarDecl(v) => eval_var_decl(v, st, env, fuel),
        ForDecV::ExprStmt(e) => {
            let (st1, r) = eval_expression(e.0, st, env, fuel);
            match r {
                Ok(v) => (st1, VOut::Norm(v)),
                Err(m) => (st1, VOut::Fail(m)),
            }
        },
        ForDecV::Nil => (st, VOut::Norm(ObjectV::Nil)),
    }
}

/// A variable declaration binds its name in the current scope alone — to
/// nil when there is no initializer — and yields the bound value.
pub open spec fn eval_var_decl(v: VarDeclV, st: VState, env: int, fuel: nat) -> (VState, VOut)
    decreases fuel, size_var_decl(v), 0int,
{
    let (st1, r) = match v.expr {
        Some(e) => eval_expression(e, st, env, fuel),
        None => (st, Ok(ObjectV::Nil)),
    };
    match r {
        Ok(val) => (st_define(st1, env, v.name, val), VOut::Norm(val)),
        Err(m) => (st1, VOut::Fail(m)),
    }
}

/// A function declaration captures the current scope by index — that is
/// what makes later calls close over their defining environment — and
/// binds the function value to its name in the current scope.
pub open spec fn eval_fun_decl(fd: FunDeclV, st: VState, env: int, fuel: nat) -> (VState, VOut) {
    let fv = ObjectV::Function {
        name: fd.0.name,
        params: param_names_opt(fd.0.params),
        body: fd.0.body,
        env,
    };
    (st_define(st, env, fd.0.name, fv), VOut::Norm(ObjectV::Nil))
}

pub open spec fn eval_declaration(d: DeclarationV, st: VState, env: int, fuel: nat) -> (
    VState,
    VOut,
)
    decreases fuel, size_declaration(d), 0int,
{
    match d {
        DeclarationV::ClassDecl(_) => (st, VOut::Fail("class declarations are not supported."@)),
        DeclarationV::FunDecl(fd) => eval_fun_decl(fd, st, env, fuel),
        DeclarationV::VarDecl(v) => eval_var_decl(v, st, env, fuel),
        DeclarationV::Statement(s) => eval_statement(s, st, env, fuel),
    }
}

/// A run of declarations in order: a `return` or an error stops the run
/// and propagates; a finished run yields nil.
pub open spec fn eval_decls(ds: Seq<DeclarationV>, st: VState, env: int, fuel: nat) -> (
    VState,
    VOut,
)
    decreases fuel, size_decls(ds), 1int,
{
    if ds.len() == 0 {
        (st, VOut::Norm(ObjectV::Nil))
    } else {
        let (st1, r1) = eval_declaration(ds[0], st, env, fuel);
        proof {
            crate::ast::lemma_size_declaration_pos(ds[0]);
        }
        match r1 {
            VOut::Norm(_) => eval_decls(ds.drop_first(), st1, env, fuel),
            VOut::Ret(v) => (st1, VOut::Ret(v)),
            VOut::Fail(m) => (st1, VOut::Fail(m)),
        }
    }
}

/// A whole program, run in the root scope: a runtime error stops the run;
/// a top-level `return` does not — there is no call boundary to intercept
/// it, so its value is simply discarded.
pub open spec fn eval_program_decls(ds: Seq<DeclarationV>, st: VState, fuel: nat) -> (VState, VOut)
    decreases fuel, size_decls(ds), 1int,
{
    if ds.len() == 0 {
        (st, VOut::Norm(ObjectV::Nil))
    } else {
        let (st1, r1) = eval_declaration(ds[0], st, 0, fuel);
        proof {
            crate::ast::lemma_size_declaration_pos(ds[0]);
        }
        match r1 {
            VOut::Fail(m) => (st1, VOut::Fail(m)),
            _ => eval_program_decls(ds.drop_first(), st1, fuel),
        }
    }
}

/// A whole program from a fresh state: one root scope, no output yet.
pub open spec fn eval_program(p: ProgramV, fuel: nat) -> (VState, VOut) {
    eval_program_decls(
        p.declarations,
        VState { envs: seq![EnvV { values: Seq::empty(), next: None }], out: Seq::empty() },
        fuel,
    )
}

/// How a statement's evaluation flows on: a value, or a `return`
/// propagating toward the nearest call boundary.
pub enum Flow {
    Normal(Object),
    Return(Object),
}

/// The mathematical content of an expression result.
pub open spec fn eres_out(r: Result<Object, RuntimeError>) -> Result<ObjectV, Seq<char>> {
    match r {
        Ok(v) => Ok(v@),
        Err(e) => Err(e.err@),
    }
}

/// The mathematical content of a statement result.
pub open spec fn flow_out(r: Result<Flow, RuntimeError>) -> VOut {
    match r {
        Ok(Flow::Normal(v)) => VOut::Norm(v@),
        Ok(Flow::Return(v)) => VOut::Ret(v@),
        Err(e) => VOut::Fail(e.err@),
    }
}

/// An expression result holds no scope index at or beyond `n`.
pub open spec fn eres_wf(r: Result<Object, RuntimeError>, n: int) -> bool {
    match r {
        Ok(v) => objv_wf(v@, n),
        Err(_) => true,
    }
}

/// A statement result holds no scope index at or beyond `n`.
pub open spec fn flow_wf(r: Result<Flow, RuntimeError>, n: int) -> bool {
    match r {
        Ok(Flow::Normal(v)) => objv_wf(v@, n),
        Ok(Flow::Return(v)) => objv_wf(v@, n),
        Err(_) => true,
    }
}

/// The mathematical contents of a value list.
pub open spec fn objs_view(s: Seq<Object>) -> Seq<ObjectV> {
    s.map_values(|o: Object| o@)
}

pub proof fn lemma_objv_wf_mono(v: ObjectV, n1: int, n2: int)
    requires
        objv_wf(v, n1),
        n1 <= n2,
    ensures
        objv_wf(v, n2),
{
}

pub proof fn lemma_scope_find_wf(entries: Seq<(Seq<char>, ObjectV)>, name: Seq<char>, n: int)
    requires
        forall|k: int| 0 <= k < entries.len() ==> objv_wf(#[trigger] entries[k].1, n),
    ensures
        scope_find(entries, name) matches Some(v) ==> objv_wf(v, n),
    decreases entries.len(),
{
    if entries.len() > 0 && entries.last().0 != name {
        lemma_scope_find_wf(entries.drop_last(), name, n);
    }
}

pub proof fn lemma_find_env_props(envs: Seq<EnvV>, e: int, name: Seq<char>)
    requires
        wf_envs(envs),
        0 <= e < envs.len(),
    ensures
        find_env(envs, e, name) matches Some(ev) ==> 0 <= ev < envs.len() && scope_find(
            envs[ev].values,
            name,
        ) is Some,
    decreases e,
{
    if scope_find(envs[e].values, name) is None {
        match envs[e].next {
            Some(p) => {
                lemma_find_env_props(envs, p, name);
            },
            None => {},
        }
    }
}

/// Pushes one fresh scope node with the given bindings; the index of the
/// new node is the old arena length.
fn interp_push_node(st: &mut Interp, vals: Vec<(String, Object)>, parent: usize) -> (e2: usize)
    requires
        parent < old(st)@.envs.len(),
    ensures
        final(st)@ == (VState {
            envs: old(st)@.envs.push(
                EnvV {
                    values: vals@.map_values(|p: (String, Object)| (p.0@, p.1@)),
                    next: Some(parent as int),
                },
            ),
            out: old(st)@.out,
        }),
        e2 as int == old(st)@.envs.len(),
        final(st)@.envs.len() == old(st)@.envs.len() + 1,
        st_wf(old(st)@) && (forall|k: int|
            0 <= k < vals@.len() ==> objv_wf(#[trigger] vals@[k].1@, old(st)@.envs.len() as int))
            ==> st_wf(final(st)@),
{
    let e2 = st.envs.len();
    let ghost o = st@;
    st.envs.push(Env { values: vals, next: Some(parent) });
    proof {
        assert(st@.envs =~~= o.envs.push(
            EnvV {
                values: vals@.map_values(|p: (String, Object)| (p.0@, p.1@)),
                next: Some(parent as int),
            },
        ));
        assert(st@.out =~~= o.out);
        let nw = st@;
        let n0 = o.envs.len() as int;
        if st_wf(o) && (forall|k: int|
            0 <= k < vals@.len() ==> objv_wf(#[trigger] vals@[k].1@, n0)) {
            assert(nw.envs[n0].values =~= vals@.map_values(|p: (String, Object)| (p.0@, p.1@)));
            assert forall|i: int| 0 <= i < nw.envs.len() implies (#[trigger] nw.envs[i].next
                matches Some(p) ==> 0 <= p < i) by {
                if i < n0 {
                    assert(nw.envs[i] == o.envs[i]);
                }
            }
            assert forall|i: int| 0 <= i < nw.envs.len() implies env_vals_wf(
                #[trigger] nw.envs[i],
                nw.envs.len() as int,
            ) by {
                if i < n0 {
                    assert(nw.envs[i] == o.envs[i]);
                    assert(env_vals_wf(o.envs[i], n0));
                    assert forall|k: int| 0 <= k < nw.envs[i].values.len() implies objv_wf(
                        #[trigger] nw.envs[i].values[k].1,
                        nw.envs.len() as int,
                    ) by {
                        lemma_objv_wf_mono(nw.envs[i].values[k].1, n0, nw.envs.len() as int);
                    }
                } else {
                    assert forall|k: int| 0 <= k < nw.envs[i].values.len() implies objv_wf(
                        #[trigger] nw.envs[i].values[k].1,
                        nw.envs.len() as int,
                    ) by {
                        assert(nw.envs[i].values[k] == (vals@[k].0@, vals@[k].1@));
                        lemma_objv_wf_mono(vals@[k].1@, n0, nw.envs.len() as int);
                    }
                }
            }
        }
    }
    e2
}

/// Binds `name` to `val` in scope `e` alone, by appending to its journal.
fn interp_define(st: &mut Interp, e: usize, name: String, val: Object)
    requires
        e < old(st)@.envs.len(),
    ensures
        final(st)@ == st_define(old(st)@, e as int, name@, val@),
        final(st)@.envs.len() == old(st)@.envs.len(),
        st_wf(old(st)@) && objv_wf(val@, old(st)@.envs.len() as int) ==> st_wf(final(st)@),
{
    let ghost o = st@;
    let ghost valv = val@;
    let node = &mut st.envs[e];
    node.values.push((name, val));
    proof {
        let nw = st@;
        let tgt = st_define(o, e as int, name@, valv);
        assert(nw.envs =~~= tgt.envs);
        assert(nw.out =~~= tgt.out);
        let n0 = o.envs.len() as int;
        if st_wf(o) && objv_wf(valv, n0) {
            assert forall|i: int| 0 <= i < nw.envs.len() implies (#[trigger] nw.envs[i].next
                matches Some(p) ==> 0 <= p < i) by {
                if i != e as int {
                    assert(nw.envs[i] == o.envs[i]);
                }
            }
            assert forall|i: int| 0 <= i < nw.envs.len() implies env_vals_wf(
                #[trigger] nw.envs[i],
                nw.envs.len() as int,
            ) by {
                assert(env_vals_wf(o.envs[i], n0));
                assert forall|k: int| 0 <= k < nw.envs[i].values.len() implies objv_wf(
                    #[trigger] nw.envs[i].values[k].1,
                    nw.envs.len() as int,
                ) by {
                    if i == e as int && k == nw.envs[i].values.len() - 1 {
                        assert(nw.envs[i].values[k].1 == valv);
                    } else {
                        assert(nw.envs[i].values[k] == o.envs[i].values[k]);
                    }
                }
            }
        }
    }
}

/// Appends one printed line to the output.
fn interp_print(st: &mut Interp, s: String)
    ensures
        final(st)@ == st_print(old(st)@, s@),
        final(st)@.envs == old(st)@.envs,
        st_wf(old(st)@) ==> st_wf(final(st)@),
{
    let ghost o = st@;
    st.output.push(s);
    proof {
        assert(st@.envs =~~= o.envs);
        assert(st@.out =~~= st_print(o, s@).out);
    }
}

/// The latest binding of `name` in scope `e` alone, copied out.
fn env_lookup(st: &Interp, e: usize, name: &String) -> (r: Option<Object>)
    requires
        e < st@.envs.len(),
    ensures
        match scope_find(st@.envs[e as int].values, name@) {
            Some(v) => r matches Some(o) && o@ == v,
            None => r is None,
        },
{
    let vals = &st.envs[e].values;
    let ghost entries = st@.envs[e as int].values;
    proof {
        assert(entries =~= vals@.map_values(|p: (String, Object)| (p.0@, p.1@)));
    }
    let n = vals.len();
    proof {
        assert(entries.take(n as int) =~= entries);
    }
    let mut k = n;
    while k > 0
        invariant
            k <= n,
            n == vals@.len(),
            e < st@.envs.len(),
            entries == st@.envs[e as int].values,
            entries == vals@.map_values(|p: (String, Object)| (p.0@, p.1@)),
            entries.len() == n,
            scope_find(entries, name@) == scope_find(entries.take(k as int), name@),
        decreases k,
    {
        if vals[k - 1].0 == *name {
            proof {
                assert(entries[k as int - 1] == (vals@[k as int - 1].0@, vals@[k as int - 1].1@));
                assert(entries.take(k as int).len() == k as int);
                assert(entries.take(k as int).last() == entries[k as int - 1]);
                assert(scope_find(entries.take(k as int), name@) == Some(
                    entries[k as int - 1].1,
                ));
            }
            return Some(vals[k - 1].1.clone_obj());
        }
        proof {
            assert(entries.take(k as int).drop_last() =~= entries.take(k as int - 1));
            assert(entries.take(k as int).last() == entries[k as int - 1]);
        }
        k = k - 1;
    }
    proof {
        assert(entries.take(0) =~= Seq::<(Seq<char>, ObjectV)>::empty());
    }
    None
}

/// The nearest scope, walking outward from `env`, that binds `id`: exactly
/// what [`find_env`] names.
pub fn find_id(id: &String, env: usize, it: &Interp) -> (r: Option<usize>)
    requires
        st_wf(it@),
        env < it@.envs.len(),
    ensures
        match find_env(it@.envs, env as int, id@) {
            Some(ev) => r matches Some(e2) && e2 as int == ev && e2 < it@.envs.len(),
            None => r is None,
        },
{
    let mut cur = env;
    loop
        invariant
            st_wf(it@),
            cur < it@.envs.len(),
            find_env(it@.envs, env as int, id@) == find_env(it@.envs, cur as int, id@),
        decreases cur,
    {
        match env_lookup(it, cur, id) {
            Some(_) => {
                return Some(cur);
            },
            None => {},
        }
        let nxt = st_next(it, cur);
        match nxt {
            Some(p) => {
                proof {
                    assert(it@.envs[cur as int].next matches Some(q) ==> 0 <= q < cur as int);
                }
                cur = p;
            },
            None => {
                return None;
            },
        }
    }
}

/// The enclosing-scope link of node `e`.
fn st_next(it: &Interp, e: usize) -> (r: Option<usize>)
    requires
        e < it@.envs.len(),
    ensures
        match it@.envs[e as int].next {
            Some(p) => r matches Some(q) && q as int == p,
            None => r is None,
        },
{
    st_next_env(&it.envs[e])
}

fn st_next_env(e: &Env) -> (r: Option<usize>)
    ensures
        match e@.next {
            Some(p) => r matches Some(q) && q as int == p,
            None => r is None,
        },
{
    match e.next {
        Some(p) => Some(p),
        None => None,
    }
}

impl EqualityOp {
    /// Applies this operator, exactly as [`apply_equality_op`] says.
    pub fn evaluate(&self, left: Object, right: Object) -> (r: Result<Object, RuntimeError>)
        ensures
            eres_out(r) == apply_equality_op(*self, left@, right@),
    {
        match self {
            EqualityOp::NotEquals => Ok(Object::Boolean(!values_equal(&left, &right))),
            EqualityOp::EqualEquals => Ok(Object::Boolean(values_equal(&left, &right))),
        }
    }
}

impl ComparisionOp {
    /// Applies this operator, exactly as [`apply_comparision_op`] says.
    pub fn evaluate(&self, left: Object, right: Object) -> (r: Result<Object, RuntimeError>)
        ensures
            eres_out(r) == apply_comparision_op(*self, left@, right@),
    {
        match (&left, &right) {
            (Object::Number(a), Object::Number(b)) => Ok(
                Object::Boolean(
                    match self {
                        ComparisionOp::Less => *a < *b,
                        ComparisionOp::LessEqual => *a <= *b,
                        ComparisionOp::Greater => *a > *b,
                        ComparisionOp::GreaterEqual => *a >= *b,
                    },
                ),
            ),
            _ => Err(RuntimeError { err: String::from_str("Operands must be numbers.") }),
        }
    }
}

impl TermOp {
    /// Applies this operator, exactly as [`apply_term_op`] says.
    pub fn evaluate(&self, left: Object, right: Object) -> (r: Result<Object, RuntimeError>)
        ensures
            eres_out(r) == apply_term_op(*self, left@, right@),
    {
        match left {
            Object::Number(a) => match right {
                Object::Number(b) => match self {
                    TermOp::Plus => match a.checked_add(b) {
                        Some(c) => Ok(Object::Number(c)),
                        None => Err(RuntimeError { err: String::from_str("numeric overflow.") }),
                    },
                    TermOp::Minus => match a.checked_sub(b) {
                        Some(c) => Ok(Object::Number(c)),
                        None => Err(RuntimeError { err: String::from_str("numeric overflow.") }),
                    },
                },
                _ => Err(
                    RuntimeError {
                        err: String::from_str("Operands must be two numbers or two strings."),
                    },
                ),
            },
            Object::String(s) => match right {
                Object::String(t) => match self {
                    TermOp::Plus => Ok(Object::String(s.concat(t.as_str()))),
                    TermOp::Minus => Err(
                        RuntimeError {
                            err: String::from_str("Operands must be two numbers or two strings."),
                        },
                    ),
                },
                _ => Err(
                    RuntimeError {
                        err: String::from_str("Operands must be two numbers or two strings."),
                    },
                ),
            },
            _ => Err(
                RuntimeError {
                    err: String::from_str("Operands must be two numbers or two strings."),
                },
            ),
        }
    }
}

impl FactorOp {
    /// Applies this operator, exactly as [`apply_factor_op`] says.
    pub fn evaluate(&self, left: Object, right: Object) -> (r: Result<Object, RuntimeError>)
        ensures
            eres_out(r) == apply_factor_op(*self, left@, right@),
    {
        match (&left, &right) {
            (Object::Number(a), Object::Number(b)) => match self {
                FactorOp::Mul => match a.checked_mul(*b) {
                    Some(c) => Ok(Object::Number(c)),
                    None => Err(RuntimeError { err: String::from_str("numeric overflow.") }),
                },
                FactorOp::Div => if *b == 0 {
                    Err(RuntimeError { err: String::from_str("division by zero.") })
                } else {
                    match a.checked_div(*b) {
                        Some(q) => Ok(Object::Number(q)),
                        None => Err(RuntimeError { err: String::from_str("numeric overflow.") }),
                    }
                },
            },
            _ => Err(RuntimeError { err: String::from_str("Operands must be numbers.") }),
        }
    }
}

impl UnaryOp {
    /// Applies this operator, exactly as [`apply_unary_op`] says.
    pub fn evaluate(&self, exp: Object) -> (r: Result<Object, RuntimeError>)
        ensures
            eres_out(r) == apply_unary_op(*self, exp@),
    {
        match self {
            UnaryOp::Minus => match exp {
                Object::Number(n) => if n == i64::MIN {
                    Err(RuntimeError { err: String::from_str("numeric overflow.") })
                } else {
                    Ok(Object::Number(-n))
                },
                _ => Err(RuntimeError { err: String::from_str("Operand must be a number") }),
            },
            UnaryOp::Bang => Ok(Object::Boolean(!truthy(&exp))),
        }
    }
}

impl Parameters {
    /// The parameter names, in source order.
    pub fn names(&self) -> (r: Vec<String>)
        ensures
            names_view(r@) == param_names(self@),
        decreases self,
    {
        match &self.rest {
            Some(rr) => {
                let mut v = (&**rr).names();
                let ghost pre = v@;
                v.push(self.param.clone());
                proof {
                    assert(names_view(v@) =~~= names_view(pre).push(self.param@));
                }
                v
            },
            None => {
                let mut v: Vec<String> = Vec::new();
                v.push(self.param.clone());
                proof {
                    assert(names_view(v@) =~~= seq![self.param@]);
                }
                v
            },
        }
    }
}

impl Function {
    /// The function value this declaration denotes in scope `env`: it
    /// captures `env` itself, so later calls close over their defining
    /// environment.
    pub fn evaluate(&self, env: usize) -> (r: Object)
        ensures
            r@ == (ObjectV::Function {
                name: self@.name,
                params: param_names_opt(self@.params),
                body: self@.body,
                env: env as int,
            }),
    {
        let params: Vec<String> = match &self.params {
            Some(p) => p.names(),
            None => Vec::new(),
        };
        proof {
            assert(names_view(params@) == param_names_opt(self@.params));
        }
        Object::Function(
            ExFn {
                name: self.name.clone(),
                params: std::rc::Rc::new(params),
                body: crate::object::rc_clone(&self.body),
                env,
            },
        )
    }
}

impl Expression {
    pub fn evaluate(&self, st: &mut Interp, env: usize, fuel: u64) -> (r: Result<
        Object,
        RuntimeError,
    >)
        requires
            st_wf(old(st)@),
            env < old(st)@.envs.len(),
        ensures
            st_wf(final(st)@),
            old(st)@.envs.len() <= final(st)@.envs.len(),
            (final(st)@, eres_out(r)) == eval_expression(self@, old(st)@, env as int, fuel as nat),
            eres_wf(r, final(st)@.envs.len() as int),
        decreases fuel, size_expression(self@), 1int,
    {
        self.0.evaluate(st, env, fuel)
    }
}

impl Assignment {
    pub fn evaluate(&self, st: &mut Interp, env: usize, fuel: u64) -> (r: Result<
        Object,
        RuntimeError,
    >)
        requires
            st_wf(old(st)@),
            env < old(st)@.envs.len(),
        ensures
            st_wf(final(st)@),
            old(st)@.envs.len() <= final(st)@.envs.len(),
            (final(st)@, eres_out(r)) == eval_assignment(self@, old(st)@, env as int, fuel as nat),
            eres_wf(r, final(st)@.envs.len() as int),
        decreases fuel, size_assignment(self@), 0int,
    {
        match self {
            Assignment::Assign(call, rhs) => match &call.prime {
                Primary::Identifier(id) => {
                    proof {
                        assert(self@ == AssignmentV::Assign(
                            crate::ast::view_call(call),
                            Box::new(crate::ast::view_assignment(&**rhs)),
                        ));
                        assert(crate::ast::view_call(call).prime == PrimaryV::Identifier(id@));
                        assert(size_assignment(self@) == 1 + size_call(crate::ast::view_call(call))
                            + size_assignment(crate::ast::view_assignment(&**rhs)));
                        assert(size_call(crate::ast::view_call(call)) == 1 + size_primary(
                            crate::ast::view_call(call).prime,
                        ) + size_callings(view_callings(call.rest@)));
                    }
                    let res = match (&**rhs).evaluate(st, env, fuel) {
                        Ok(v) => v,
                        Err(e) => {
                            return Err(e);
                        },
                    };
                    match find_id(id, env, st) {
                        Some(ev) => {
                            if call.rest.len() == 0 {
                                let res2 = res.clone_obj();
                                interp_define(st, ev, id.clone(), res);
                                Ok(res2)
                            } else {
                                proof {
                                    lemma_find_env_props(st@.envs, env as int, id@);
                                    crate::ast::lemma_size_callings_take(
                                        view_callings(call.rest@),
                                        view_callings(call.rest@).len() - 1,
                                    );
                                    crate::ast::lemma_view_callings_elts(call.rest@);
                                }
                                let v = match env_lookup(st, ev, id) {
                                    Some(o) => o,
                                    None => {
                                        proof {
                                            assert(false);
                                        }
                                        return Err(RuntimeError { err: String::new() });
                                    },
                                };
                                proof {
                                    lemma_scope_find_wf(
                                        st@.envs[ev as int].values,
                                        id@,
                                        st@.envs.len() as int,
                                    );
                                    assert(view_callings(call.rest@).take(
                                        view_callings(call.rest@).len() - 1,
                                    ) =~= view_callings(call.rest@).subrange(
                                        0,
                                        call.rest@.len() - 1,
                                    ));
                                }
                                let r2 = callings_evaluate(
                                    &call.rest,
                                    0,
                                    call.rest.len() - 1,
                                    v,
                                    st,
                                    env,
                                    fuel,
                                );
                                match r2 {
                                    Ok(v2) => match &call.rest[call.rest.len() - 1] {
                                        Calling::FuncCall(_) => Err(
                                            RuntimeError {
                                                err: String::from_str(
                                                    "cannot assign to function calls",
                                                ),
                                            },
                                        ),
                                        Calling::Mthd(mname) => match v2.get_object() {
                                            Some(cls) => {
                                                let res2 = res.clone_obj();
                                                interp_define(st, cls.env, mname.clone(), res);
                                                Ok(res2)
                                            },
                                            None => Err(
                                                RuntimeError {
                                                    err: String::from_str(
                                                        "method only allowed for objects.",
                                                    ),
                                                },
                                            ),
                                        },
                                    },
                                    Err(e) => Err(e),
                                }
                            }
                        },
                        None => {
                            let mut msg = String::from_str("unbound variable ");
                            msg.append(id.as_str());
                            Err(RuntimeError { err: msg })
                        },
                    }
                },
                // unreachable through parsed programs: the parser's
                // assignment alternative rejects such targets
                _ => Err(RuntimeError { err: String::from_str("Expect identifier") }),
            },
            Assignment::LogicOr(o) => o.evaluate(st, env, fuel),
        }
    }
}

impl LogicOr {
    pub fn evaluate(&self, st: &mut Interp, env: usize, fuel: u64) -> (r: Result<
        Object,
        RuntimeError,
    >)
        requires
            st_wf(old(st)@),
            env < old(st)@.envs.len(),
        ensures
            st_wf(final(st)@),
            old(st)@.envs.len() <= final(st)@.envs.len(),
            (final(st)@, eres_out(r)) == eval_logic_or(self@, old(st)@, env as int, fuel as nat),
            eres_wf(r, final(st)@.envs.len() as int),
        decreases fuel, size_logic_or(self@), 0int,
    {
        match &self.rest {
            Some(left) => {
                let v = match (&**left).evaluate(st, env, fuel) {
                    Ok(v) => v,
                    Err(e) => {
                        return Err(e);
                    },
                };
                if truthy(&v) {
                    Ok(v)
                } else {
                    self.and.evaluate(st, env, fuel)
                }
            },
            None => self.and.evaluate(st, env, fuel),
        }
    }
}

impl LogicAnd {
    pub fn evaluate(&self, st: &mut Interp, env: usize, fuel: u64) -> (r: Result<
        Object,
        RuntimeError,
    >)
        requires
            st_wf(old(st)@),
            env < old(st)@.envs.len(),
        ensures
            st_wf(final(st)@),
            old(st)@.envs.len() <= final(st)@.envs.len(),
            (final(st)@, eres_out(r)) == eval_logic_and(self@, old(st)@, env as int, fuel as nat),
            eres_wf(r, final(st)@.envs.len() as int),
        decreases fuel, size_logic_and(self@), 0int,
    {
        match &self.rest {
            Some(left) => {
                let v = match (&**left).evaluate(st, env, fuel) {
                    Ok(v) => v,
                    Err(e) => {
                        return Err(e);
                    },
                };
                if !truthy(&v) {
                    Ok(v)
                } else {
                    self.eq.evaluate(st, env, fuel)
                }
            },
            None => self.eq.evaluate(st, env, fuel),
        }
    }
}

impl Equality {
    pub fn evaluate(&self, st: &mut Interp, env: usize, fuel: u64) -> (r: Result<
        Object,
        RuntimeError,
    >)
        requires
            st_wf(old(st)@),
            env < old(st)@.envs.len(),
        ensures
            st_wf(final(st)@),
            old(st)@.envs.len() <= final(st)@.envs.len(),
            (final(st)@, eres_out(r)) == eval_equality(self@, old(st)@, env as int, fuel as nat),
            eres_wf(r, final(st)@.envs.len() as int),
        decreases fuel, size_equality(self@), 0int,
    {
        match &self.rest {
            Some((op, left)) => {
                let l = match (&**left).evaluate(st, env, fuel) {
                    Ok(v) => v,
                    Err(e) => {
                        return Err(e);
                    },
                };
                let r2 = match self.comparision.evaluate(st, env, fuel) {
                    Ok(v) => v,
                    Err(e) => {
                        return Err(e);
                    },
                };
                op.evaluate(l, r2)
            },
            None => self.comparision.evaluate(st, env, fuel),
        }
    }
}

impl Comparision {
    pub fn evaluate(&self, st: &mut Interp, env: usize, fuel: u64) -> (r: Result<
        Object,
        RuntimeError,
    >)
        requires
            st_wf(old(st)@),
            env < old(st)@.envs.len(),
        ensures
            st_wf(final(st)@),
            old(st)@.envs.len() <= final(st)@.envs.len(),
            (final(st)@, eres_out(r)) == eval_comparision(self@, old(st)@, env as int, fuel as nat),
            eres_wf(r, final(st)@.envs.len() as int),
        decreases fuel, size_comparision(self@), 0int,
    {
        match &self.rest {
            Some((op, left)) => {
                let l = match (&**left).evaluate(st, env, fuel) {
                    Ok(v) => v,
                    Err(e) => {
                        return Err(e);
                    },
                };
                let r2 = match self.term.evaluate(st, env, fuel) {
                    Ok(v) => v,
                    Err(e) => {
                        return Err(e);
                    },
                };
                op.evaluate(l, r2)
            },
            None => self.term.evaluate(st, env, fuel),
        }
    }
}

impl Term {
    pub fn evaluate(&self, st: &mut Interp, env: usize, fuel: u64) -> (r: Result<
        Object,
        RuntimeError,
    >)
        requires
            st_wf(old(st)@),
            env < old(st)@.envs.len(),
        ensures
            st_wf(final(st)@),
            old(st)@.envs.len() <= final(st)@.envs.len(),
            (final(st)@, eres_out(r)) == eval_term(self@, old(st)@, env as int, fuel as nat),
            eres_wf(r, final(st)@.envs.len() as int),
        decreases fuel, size_term(self@), 0int,
    {
        match &self.rest {
            Some((op, left)) => {
                let l = match (&**left).evaluate(st, env, fuel) {
                    Ok(v) => v,
                    Err(e) => {
                        return Err(e);
                    },
                };
                let r2 = match self.factor.evaluate(st, env, fuel) {
                    Ok(v) => v,
                    Err(e) => {
                        return Err(e);
                    },
                };
                op.evaluate(l, r2)
            },
            None => self.factor.evaluate(st, env, fuel),
        }
    }
}

impl Factor {
    pub fn evaluate(&self, st: &mut Interp, env: usize, fuel: u64) -> (r: Result<
        Object,
        RuntimeError,
    >)
        requires
            st_wf(old(st)@),
            env < old(st)@.envs.len(),
        ensures
            st_wf(final(st)@),
            old(st)@.envs.len() <= final(st)@.envs.len(),
            (final(st)@, eres_out(r)) == eval_factor(self@, old(st)@, env as int, fuel as nat),
            eres_wf(r, final(st)@.envs.len() as int),
        decreases fuel, size_factor(self@), 0int,
    {
        match &self.rest {
            Some((op, left)) => {
                let l = match (&**left).evaluate(st, env, fuel) {
                    Ok(v) => v,
                    Err(e) => {
                        return Err(e);
                    },
                };
                let r2 = match self.unary.evaluate(st, env, fuel) {
                    Ok(v) => v,
                    Err(e) => {
                        return Err(e);
                    },
                };
                op.evaluate(l, r2)
            },
            None => self.unary.evaluate(st, env, fuel),
        }
    }
}

impl Unary {
    pub fn evaluate(&self, st: &mut Interp, env: usize, fuel: u64) -> (r: Result<
        Object,
        RuntimeError,
    >)
        requires
            st_wf(old(st)@),
            env < old(st)@.envs.len(),
        ensures
            st_wf(final(st)@),
            old(st)@.envs.len() <= final(st)@.envs.len(),
            (final(st)@, eres_out(r)) == eval_unary(self@, old(st)@, env as int, fuel as nat),
            eres_wf(r, final(st)@.envs.len() as int),
        decreases fuel, size_unary(self@), 0int,
    {
        match self {
            Unary::Un(op, inner) => {
                let v = match (&**inner).evaluate(st, env, fuel) {
                    Ok(v) => v,
                    Err(e) => {
                        return Err(e);
                    },
                };
                op.evaluate(v)
            },
            Unary::Call(c) => c.evaluate(st, env, fuel),
        }
    }
}

impl Call {
    pub fn evaluate(&self, st: &mut Interp, env: usize, fuel: u64) -> (r: Result<
        Object,
        RuntimeError,
    >)
        requires
            st_wf(old(st)@),
            env < old(st)@.envs.len(),
        ensures
            st_wf(final(st)@),
            old(st)@.envs.len() <= final(st)@.envs.len(),
            (final(st)@, eres_out(r)) == eval_call(self@, old(st)@, env as int, fuel as nat),
            eres_wf(r, final(st)@.envs.len() as int),
        decreases fuel, size_call(self@), 0int,
    {
        let v = match self.prime.evaluate(st, env, fuel) {
            Ok(v) => v,
            Err(e) => {
                return Err(e);
            },
        };
        proof {
            crate::ast::lemma_view_callings_elts(self.rest@);
            assert(view_callings(self.rest@).subrange(0, self.rest@.len() as int) =~= view_callings(
                self.rest@,
            ));
        }
        callings_evaluate(&self.rest, 0, self.rest.len(), v, st, env, fuel)
    }
}

/// Applies the suffixes `cs[idx..upto]` to `v`, left to right.
fn callings_evaluate(
    cs: &Vec<Calling>,
    idx: usize,
    upto: usize,
    v: Object,
    st: &mut Interp,
    env: usize,
    fuel: u64,
) -> (r: Result<Object, RuntimeError>)
    requires
        st_wf(old(st)@),
        env < old(st)@.envs.len(),
        idx <= upto <= cs@.len(),
        objv_wf(v@, old(st)@.envs.len() as int),
    ensures
        st_wf(final(st)@),
        old(st)@.envs.len() <= final(st)@.envs.len(),
        (final(st)@, eres_out(r)) == eval_callings_seq(
            view_callings(cs@).subrange(idx as int, upto as int),
            v@,
            old(st)@,
            env as int,
            fuel as nat,
        ),
        eres_wf(r, final(st)@.envs.len() as int),
    decreases fuel, size_callings(view_callings(cs@).subrange(idx as int, upto as int)), 1int,
{
    proof {
        crate::ast::lemma_view_callings_elts(cs@);
    }
    if idx == upto {
        proof {
            assert(view_callings(cs@).subrange(idx as int, upto as int) =~= Seq::<
                CallingV,
            >::empty());
        }
        Ok(v)
    } else {
        let ghost sub = view_callings(cs@).subrange(idx as int, upto as int);
        proof {
            assert(sub[0] == view_callings(cs@)[idx as int]);
            assert(sub.drop_first() =~= view_callings(cs@).subrange(idx as int + 1, upto as int));
            crate::ast::lemma_size_calling_pos(sub[0]);
        }
        let v2 = match cs[idx].evaluate(v, st, env, fuel) {
            Ok(v2) => v2,
            Err(e) => {
                return Err(e);
            },
        };
        callings_evaluate(cs, idx + 1, upto, v2, st, env, fuel)
    }
}

impl Calling {
    /// Applies one suffix to a value: an invocation calls a function value
    /// (entering the call costs one unit of fuel), a property access reads
    /// from the instance's scope chain.
    pub fn evaluate(&self, exp: Object, st: &mut Interp, env: usize, fuel: u64) -> (r: Result<
        Object,
        RuntimeError,
    >)
        requires
            st_wf(old(st)@),
            env < old(st)@.envs.len(),
            objv_wf(exp@, old(st)@.envs.len() as int),
        ensures
            st_wf(final(st)@),
            old(st)@.envs.len() <= final(st)@.envs.len(),
            (final(st)@, eres_out(r)) == eval_calling(self@, exp@, old(st)@, env as int, fuel as nat),
            eres_wf(r, final(st)@.envs.len() as int),
        decreases fuel, size_calling(self@), 0int,
    {
        match self {
            Calling::FuncCall(args_opt) => match exp.get_function() {
                Some(f) => {
                    let args: Vec<Object> = match args_opt {
                        Some(a) => match a.evaluate(st, env, fuel) {
                            Ok(vs) => vs,
                            Err(e) => {
                                return Err(e);
                            },
                        },
                        None => Vec::new(),
                    };
                    proof {
                        assert(objs_view(Seq::<Object>::empty()) =~= Seq::<ObjectV>::empty());
                    }
                    if fuel == 0 {
                        Err(RuntimeError { err: String::from_str("Stack overflow.") })
                    } else {
                        invoke_function(&f.params, &f.body, f.env, args, st, fuel - 1)
                    }
                },
                None => Err(
                    RuntimeError {
                        err: String::from_str("Can only call functions and classes."),
                    },
                ),
            },
            Calling::Mthd(mname) => match exp.get_object() {
                Some(cls) => {
                    proof {
                        lemma_find_env_props(st@.envs, cls.env as int, mname@);
                    }
                    match find_id(mname, cls.env, st) {
                        Some(ev) => {
                            proof {
                                lemma_scope_find_wf(
                                    st@.envs[ev as int].values,
                                    mname@,
                                    st@.envs.len() as int,
                                );
                            }
                            match env_lookup(st, ev, mname) {
                                Some(o) => Ok(o),
                                None => {
                                    proof {
                                        assert(false);
                                    }
                                    Err(RuntimeError { err: String::new() })
                                },
                            }
                        },
                        None => Err(RuntimeError { err: String::from_str("unbound variable") }),
                    }
                },
                None => Err(
                    RuntimeError { err: String::from_str("Can only call methods on objects.") },
                ),
            },
        }
    }
}

impl Arguments {
    /// Evaluates the argument chain in source order.
    pub fn evaluate(&self, st: &mut Interp, env: usize, fuel: u64) -> (r: Result<
        Vec<Object>,
        RuntimeError,
    >)
        requires
            st_wf(old(st)@),
            env < old(st)@.envs.len(),
        ensures
            st_wf(final(st)@),
            old(st)@.envs.len() <= final(st)@.envs.len(),
            ({
                let (st1, sr) = eval_arguments(self@, old(st)@, env as int, fuel as nat);
                final(st)@ == st1 && match r {
                    Ok(vs) => sr == Ok::<Seq<ObjectV>, Seq<char>>(objs_view(vs@)) && (forall|k: int|
                        0 <= k < vs@.len() ==> objv_wf(
                            #[trigger] vs@[k]@,
                            final(st)@.envs.len() as int,
                        )),
                    Err(e) => sr == Err::<Seq<ObjectV>, Seq<char>>(e.err@),
                }
            }),
        decreases fuel, size_arguments(self@), 0int,
    {
        let mut rest: Vec<Object> = match &self.rest {
            Some(rr) => match (&**rr).evaluate(st, env, fuel) {
                Ok(vs) => vs,
                Err(e) => {
                    return Err(e);
                },
            },
            None => Vec::new(),
        };
        proof {
            assert(objs_view(Seq::<Object>::empty()) =~= Seq::<ObjectV>::empty());
        }
        let ghost mid = st@;
        let ghost pre = rest@;
        let this = match self.expr.evaluate(st, env, fuel) {
            Ok(v) => v,
            Err(e) => {
                return Err(e);
            },
        };
        rest.push(this);
        proof {
            assert(objs_view(rest@) =~~= objs_view(pre).push(rest@.last()@));
            assert forall|k: int| 0 <= k < rest@.len() implies objv_wf(
                #[trigger] rest@[k]@,
                st@.envs.len() as int,
            ) by {
                if k < pre.len() {
                    assert(rest@[k] == pre[k]);
                    lemma_objv_wf_mono(pre[k]@, mid.envs.len() as int, st@.envs.len() as int);
                }
            }
        }
        Ok(rest)
    }
}

/// Invokes a function value: arity must match exactly, the call scope is
/// chained to the captured scope, and a `return` in the body yields its
/// value (nil if the body completes without one).
fn invoke_function(
    params: &Vec<String>,
    body: &Block,
    fenv: usize,
    args: Vec<Object>,
    st: &mut Interp,
    fuel: u64,
) -> (r: Result<Object, RuntimeError>)
    requires
        st_wf(old(st)@),
        fenv < old(st)@.envs.len(),
        forall|k: int| 0 <= k < args@.len() ==> objv_wf(#[trigger] args@[k]@, old(st)@.envs.len() as int),
    ensures
        st_wf(final(st)@),
        old(st)@.envs.len() <= final(st)@.envs.len(),
        (final(st)@, eres_out(r)) == call_function(
            names_view(params@),
            view_block(body),
            fenv as int,
            objs_view(args@),
            old(st)@,
            fuel as nat,
        ),
        eres_wf(r, final(st)@.envs.len() as int),
    decreases fuel, size_decls(view_declarations(body.0@)), 2int,
{
    if args.len() != params.len() {
        let mut msg = String::from_str("Expect ");
        let n1 = crate::token::usize_to_string(params.len());
        msg.append(n1.as_str());
        msg.append(" arguments but got ");
        let n2 = crate::token::usize_to_string(args.len());
        msg.append(n2.as_str());
        msg.append(".");
        proof {
            assert(msg@ =~= arity_msg(params@.len() as int, args@.len() as int));
        }
        Err(RuntimeError { err: msg })
    } else {
        let n = params.len();
        let mut vals: Vec<(String, Object)> = Vec::new();
        let mut k: usize = 0;
        let ghost argsv = args@;
        while k < n
            invariant
                k <= n,
                n == params@.len(),
                argsv.len() == n,
                argsv == args@,
                vals@.len() == k,
                vals@.map_values(|p: (String, Object)| (p.0@, p.1@)) =~= bind_params(
                    names_view(params@),
                    objs_view(argsv),
                ).take(k as int),
            decreases n - k,
        {
            vals.push((params[k].clone(), args[k].clone_obj()));
            proof {
                assert(vals@.map_values(|p: (String, Object)| (p.0@, p.1@)) =~= bind_params(
                    names_view(params@),
                    objs_view(argsv),
                ).take(k as int + 1));
            }
            k = k + 1;
        }
        proof {
            assert(bind_params(names_view(params@), objs_view(argsv)).take(n as int) =~= bind_params(
                names_view(params@),
                objs_view(argsv),
            ));
            assert forall|j: int| 0 <= j < vals@.len() implies objv_wf(
                #[trigger] vals@[j].1@,
                st@.envs.len() as int,
            ) by {
                assert(vals@.map_values(|p: (String, Object)| (p.0@, p.1@))[j].1 == vals@[j].1@);
                assert(vals@[j].1@ == objs_view(argsv)[j]);
            }
        }
        let env2 = interp_push_node(st, vals, fenv);
        proof {
            assert(view_declarations(body.0@).skip(0) =~= view_declarations(body.0@));
        }
        let fr = decls_evaluate(&body.0, 0, st, env2, fuel);
        match fr {
            Ok(Flow::Normal(_)) => Ok(Object::Nil),
            Ok(Flow::Return(v)) => Ok(v),
            Err(e) => Err(e),
        }
    }
}

impl Primary {
    pub fn evaluate(&self, st: &mut Interp, env: usize, fuel: u64) -> (r: Result<
        Object,
        RuntimeError,
    >)
        requires
            st_wf(old(st)@),
            env < old(st)@.envs.len(),
        ensures
            st_wf(final(st)@),
            old(st)@.envs.len() <= final(st)@.envs.len(),
            (final(st)@, eres_out(r)) == eval_primary(self@, old(st)@, env as int, fuel as nat),
            eres_wf(r, final(st)@.envs.len() as int),
        decreases fuel, size_primary(self@), 0int,
    {
        match self {
            Primary::Number(n) => Ok(Object::Number(*n)),
            Primary::String(s) => Ok(Object::String(s.clone())),
            Primary::Boolean(b) => Ok(Object::Boolean(*b)),
            Primary::Nil => Ok(Object::Nil),
            Primary::ParenExpr(e) => (&**e).evaluate(st, env, fuel),
            Primary::Identifier(id) => {
                proof {
                    lemma_find_env_props(st@.envs, env as int, id@);
                }
                match find_id(id, env, st) {
                    Some(ev) => {
                        proof {
                            lemma_scope_find_wf(
                                st@.envs[ev as int].values,
                                id@,
                                st@.envs.len() as int,
                            );
                        }
                        match env_lookup(st, ev, id) {
                            Some(o) => Ok(o),
                            None => {
                                proof {
                                    assert(false);
                                }
                                Err(RuntimeError { err: String::new() })
                            },
                        }
                    },
                    None => {
                        let mut msg = String::from_str("unbound variable ");
                        msg.append(id.as_str());
                        Err(RuntimeError { err: msg })
                    },
                }
            },
            Primary::This => Ok(Object::Object(Class { name: String::from_str("this"), env })),
            Primary::SuperId(_) => Err(
                RuntimeError { err: String::from_str("super is not supported.") },
            ),
        }
    }
}

impl ExprStmt {
    pub fn evaluate(&self, st: &mut Interp, env: usize, fuel: u64) -> (r: Result<
        Object,
        RuntimeError,
    >)
        requires
            st_wf(old(st)@),
            env < old(st)@.envs.len(),
        ensures
            st_wf(final(st)@),
            old(st)@.envs.len() <= final(st)@.envs.len(),
            (final(st)@, eres_out(r)) == eval_expression(self@.0, old(st)@, env as int, fuel as nat),
            eres_wf(r, final(st)@.envs.len() as int),
        decreases fuel, size_expression(self@.0) + 1, 0int,
    {
        self.0.evaluate(st, env, fuel)
    }
}

impl PrntStmt {
    /// Evaluates the operand, appends its display form to the output, and
    /// yields the value.
    pub fn evaluate(&self, st: &mut Interp, env: usize, fuel: u64) -> (r: Result<
        Flow,
        RuntimeError,
    >)
        requires
            st_wf(old(st)@),
            env < old(st)@.envs.len(),
        ensures
            st_wf(final(st)@),
            old(st)@.envs.len() <= final(st)@.envs.len(),
            (final(st)@, flow_out(r)) == eval_statement(
                StatementV::PrntStmt(self@),
                old(st)@,
                env as int,
                fuel as nat,
            ),
            flow_wf(r, final(st)@.envs.len() as int),
        decreases fuel, size_expression(self@.0) + 1, 0int,
    {
        let v = match self.0.evaluate(st, env, fuel) {
            Ok(v) => v,
            Err(e) => {
                return Err(e);
            },
        };
        let line = render_object(&v);
        interp_print(st, line);
        Ok(Flow::Normal(v))
    }
}

impl RtrnStmt {
    /// Produces the `Return` flow carrying the operand's value, or nil.
    pub fn evaluate(&self, st: &mut Interp, env: usize, fuel: u64) -> (r: Result<
        Flow,
        RuntimeError,
    >)
        requires
            st_wf(old(st)@),
            env < old(st)@.envs.len(),
        ensures
            st_wf(final(st)@),
            old(st)@.envs.len() <= final(st)@.envs.len(),
            (final(st)@, flow_out(r)) == eval_statement(
                StatementV::RtrnStmt(self@),
                old(st)@,
                env as int,
                fuel as nat,
            ),
            flow_wf(r, final(st)@.envs.len() as int),
        decreases fuel, size_statement(StatementV::RtrnStmt(self@)), 0int,
    {
        match &self.0 {
            Some(e) => match e.evaluate(st, env, fuel) {
                Ok(v) => Ok(Flow::Return(v)),
                Err(er) => Err(er),
            },
            None => Ok(Flow::Return(Object::Nil)),
        }
    }
}

impl IfStmt {
    pub fn evaluate(&self, st: &mut Interp, env: usize, fuel: u64) -> (r: Result<
        Flow,
        RuntimeError,
    >)
        requires
            st_wf(old(st)@),
            env < old(st)@.envs.len(),
        ensures
            st_wf(final(st)@),
            old(st)@.envs.len() <= final(st)@.envs.len(),
            (final(st)@, flow_out(r)) == eval_if(self@, old(st)@, env as int, fuel as nat),
            flow_wf(r, final(st)@.envs.len() as int),
        decreases fuel, size_if_stmt(self@), 0int,
    {
        let c = match self.pred.evaluate(st, env, fuel) {
            Ok(v) => v,
            Err(e) => {
                return Err(e);
            },
        };
        if truthy(&c) {
            (&*self.if_stmt).evaluate(st, env, fuel)
        } else {
            match &self.else_stmt {
                Some(e) => (&**e).evaluate(st, env, fuel),
                None => Ok(Flow::Normal(Object::Nil)),
            }
        }
    }
}

impl WhileStmt {
    /// Re-checks the condition before each iteration; one iteration costs
    /// one unit of fuel; a `return` from the body propagates immediately.
    pub fn evaluate(&self, st: &mut Interp, env: usize, fuel: u64) -> (r: Result<
        Flow,
        RuntimeError,
    >)
        requires
            st_wf(old(st)@),
            env < old(st)@.envs.len(),
        ensures
            st_wf(final(st)@),
            old(st)@.envs.len() <= final(st)@.envs.len(),
            (final(st)@, flow_out(r)) == eval_while(self@, old(st)@, env as int, fuel as nat),
            flow_wf(r, final(st)@.envs.len() as int),
        decreases fuel, size_while_stmt(self@), 0int,
    {
        if fuel == 0 {
            return Err(RuntimeError { err: String::from_str("Stack overflow.") });
        }
        let c = match self.pred.evaluate(st, env, fuel) {
            Ok(v) => v,
            Err(e) => {
                return Err(e);
            },
        };
        if !truthy(&c) {
            return Ok(Flow::Normal(Object::Nil));
        }
        match (&*self.stmt).evaluate(st, env, fuel) {
            Ok(Flow::Normal(_)) => self.evaluate(st, env, fuel - 1),
            Ok(Flow::Return(v)) => Ok(Flow::Return(v)),
            Err(e) => Err(e),
        }
    }
}

impl ForDec {
    pub fn evaluate(&self, st: &mut Interp, env: usize, fuel: u64) -> (r: Result<
        Flow,
        RuntimeError,
    >)
        requires
            st_wf(old(st)@),
            env < old(st)@.envs.len(),
        ensures
            st_wf(final(st)@),
            old(st)@.envs.len() <= final(st)@.envs.len(),
            (final(st)@, flow_out(r)) == eval_for_dec(self@, old(st)@, env as int, fuel as nat),
            flow_wf(r, final(st)@.envs.len() as int),
        decreases fuel, size_for_dec(self@), 1int,
    {
        match self {
            ForDec::VarDecl(v) => v.evaluate(st, env, fuel),
            ForDec::ExprStmt(e) => match e.evaluate(st, env, fuel) {
                Ok(v) => Ok(Flow::Normal(v)),
                Err(er) => Err(er),
            },
            ForDec::Nil => Ok(Flow::Normal(Object::Nil)),
        }
    }
}

impl ForStmt {
    /// Evaluates the initializer inside one fresh scope, then iterates in
    /// that scope; yields the initializer's value.
    pub fn evaluate(&self, st: &mut Interp, env: usize, fuel: u64) -> (r: Result<
        Flow,
        RuntimeError,
    >)
        requires
            st_wf(old(st)@),
            env < old(st)@.envs.len(),
        ensures
            st_wf(final(st)@),
            old(st)@.envs.len() <= final(st)@.envs.len(),
            (final(st)@, flow_out(r)) == eval_for(self@, old(st)@, env as int, fuel as nat),
            flow_wf(r, final(st)@.envs.len() as int),
        decreases fuel, size_for_stmt(self@), 1int,
    {
        let ghost o = st@;
        let env2 = interp_push_node(st, Vec::new(), env);
        proof {
            assert(Seq::<(String, Object)>::empty().map_values(
                |p: (String, Object)| (p.0@, p.1@),
            ) =~= Seq::<(Seq<char>, ObjectV)>::empty());
            assert(st@ == st_push_env(o, env as int));
        }
        match self.first_dec.evaluate(st, env2, fuel) {
            Ok(Flow::Normal(res)) => {
                if fuel == 0 {
                    Err(RuntimeError { err: String::from_str("Stack overflow.") })
                } else {
                    for_loop(self, st, env2, fuel - 1, res)
                }
            },
            Ok(Flow::Return(v)) => Ok(Flow::Return(v)),
            Err(e) => Err(e),
        }
    }
}

/// One round of a for loop: condition, body, post-expression, next round.
fn for_loop(f: &ForStmt, st: &mut Interp, env: usize, fuel: u64, res: Object) -> (r: Result<
    Flow,
    RuntimeError,
>)
    requires
        st_wf(old(st)@),
        env < old(st)@.envs.len(),
        objv_wf(res@, old(st)@.envs.len() as int),
    ensures
        st_wf(final(st)@),
        old(st)@.envs.len() <= final(st)@.envs.len(),
        (final(st)@, flow_out(r)) == eval_for_loop(f@, old(st)@, env as int, fuel as nat, res@),
        flow_wf(r, final(st)@.envs.len() as int),
    decreases fuel, size_for_stmt(f@), 0int,
{
    let c = match &f.scnd_expr {
        Some(e) => match e.evaluate(st, env, fuel) {
            Ok(v) => v,
            Err(er) => {
                return Err(er);
            },
        },
        None => Object::Boolean(true),
    };
    if !truthy(&c) {
        return Ok(Flow::Normal(res));
    }
    match (&*f.body).evaluate(st, env, fuel) {
        Ok(Flow::Normal(_)) => {},
        Ok(Flow::Return(v)) => {
            return Ok(Flow::Return(v));
        },
        Err(e) => {
            return Err(e);
        },
    }
    match &f.thrd_expr {
        Some(e) => match e.evaluate(st, env, fuel) {
            Ok(_) => {},
            Err(er) => {
                return Err(er);
            },
        },
        None => {},
    }
    if fuel == 0 {
        Err(RuntimeError { err: String::from_str("Stack overflow.") })
    } else {
        proof {
            lemma_objv_wf_mono(res@, old(st)@.envs.len() as int, st@.envs.len() as int);
        }
        for_loop(f, st, env, fuel - 1, res)
    }
}

impl VarDecl {
    /// Binds the name in the current scope alone — to nil without an
    /// initializer — and yields the bound value.
    pub fn evaluate(&self, st: &mut Interp, env: usize, fuel: u64) -> (r: Result<
        Flow,
        RuntimeError,
    >)
        requires
            st_wf(old(st)@),
            env < old(st)@.envs.len(),
        ensures
            st_wf(final(st)@),
            old(st)@.envs.len() <= final(st)@.envs.len(),
            (final(st)@, flow_out(r)) == eval_var_decl(self@, old(st)@, env as int, fuel as nat),
            flow_wf(r, final(st)@.envs.len() as int),
        decreases fuel, size_var_decl(self@), 0int,
    {
        let val = match &self.expr {
            Some(e) => match e.evaluate(st, env, fuel) {
                Ok(v) => v,
                Err(er) => {
                    return Err(er);
                },
            },
            None => Object::Nil,
        };
        let val2 = val.clone_obj();
        interp_define(st, env, self.name.clone(), val);
        Ok(Flow::Normal(val2))
    }
}

impl FunDecl {
    /// Builds the function value — capturing the current scope — and binds
    /// it to its name in the current scope.
    pub fn evaluate(&self, st: &mut Interp, env: usize, fuel: u64) -> (r: Result<
        Flow,
        RuntimeError,
    >)
        requires
            st_wf(old(st)@),
            env < old(st)@.envs.len(),
        ensures
            st_wf(final(st)@),
            old(st)@.envs.len() <= final(st)@.envs.len(),
            (final(st)@, flow_out(r)) == eval_fun_decl(self@, old(st)@, env as int, fuel as nat),
            flow_wf(r, final(st)@.envs.len() as int),
    {
        let fv = self.0.evaluate(env);
        interp_define(st, env, self.0.name.clone(), fv);
        Ok(Flow::Normal(Object::Nil))
    }
}

impl ClassDecl {
    /// Class semantics beyond scoping are not part of this evaluator:
    /// evaluating a class declaration is a runtime error.
    pub fn evaluate(&self, st: &mut Interp, env: usize, fuel: u64) -> (r: Result<
        Flow,
        RuntimeError,
    >)
        requires
            st_wf(old(st)@),
            env < old(st)@.envs.len(),
        ensures
            st_wf(final(st)@),
            final(st)@ == old(st)@,
            flow_out(r) == VOut::Fail("class declarations are not supported."@),
    {
        Err(RuntimeError { err: String::from_str("class declarations are not supported.") })
    }
}

impl Block {
    /// Pushes one fresh scope, runs the declarations in order, and yields
    /// nil (or the propagating `return`).
    pub fn evaluate(&self, st: &mut Interp, env: usize, fuel: u64) -> (r: Result<
        Flow,
        RuntimeError,
    >)
        requires
            st_wf(old(st)@),
            env < old(st)@.envs.len(),
        ensures
            st_wf(final(st)@),
            old(st)@.envs.len() <= final(st)@.envs.len(),
            (final(st)@, flow_out(r)) == eval_statement(
                StatementV::Block(self@),
                old(st)@,
                env as int,
                fuel as nat,
            ),
            flow_wf(r, final(st)@.envs.len() as int),
        decreases fuel, size_decls(view_declarations(self.0@)) + 1, 0int,
    {
        let ghost o = st@;
        let env2 = interp_push_node(st, Vec::new(), env);
        proof {
            assert(Seq::<(String, Object)>::empty().map_values(
                |p: (String, Object)| (p.0@, p.1@),
            ) =~= Seq::<(Seq<char>, ObjectV)>::empty());
            assert(st@ == st_push_env(o, env as int));
            assert(view_declarations(self.0@).skip(0) =~= view_declarations(self.0@));
        }
        decls_evaluate(&self.0, 0, st, env2, fuel)
    }
}

impl Statement {
    pub fn evaluate(&self, st: &mut Interp, env: usize, fuel: u64) -> (r: Result<
        Flow,
        RuntimeError,
    >)
        requires
            st_wf(old(st)@),
            env < old(st)@.envs.len(),
        ensures
            st_wf(final(st)@),
            old(st)@.envs.len() <= final(st)@.envs.len(),
            (final(st)@, flow_out(r)) == eval_statement(self@, old(st)@, env as int, fuel as nat),
            flow_wf(r, final(st)@.envs.len() as int),
        decreases fuel, size_statement(self@), 1int,
    {
        match self {
            Statement::ExprStmt(e) => match e.evaluate(st, env, fuel) {
                Ok(v) => Ok(Flow::Normal(v)),
                Err(er) => Err(er),
            },
            Statement::ForStmt(f) => f.evaluate(st, env, fuel),
            Statement::IfStmt(i) => i.evaluate(st, env, fuel),
            Statement::PrntStmt(p) => p.evaluate(st, env, fuel),
            Statement::RtrnStmt(rt) => rt.evaluate(st, env, fuel),
            Statement::WhileStmt(w) => w.evaluate(st, env, fuel),
            Statement::Block(b) => {
                proof {
                    assert(self@ == StatementV::Block(crate::ast::view_block(b)));
                    assert(crate::ast::view_block(b) == BlockV(view_declarations(b.0@)));
                    assert(size_statement(self@) == 1 + size_decls(
                        crate::ast::view_block(b).0,
                    ));
                }
                b.evaluate(st, env, fuel)
            },
        }
    }
}

impl Declaration {
    pub fn evaluate(&self, st: &mut Interp, env: usize, fuel: u64) -> (r: Result<
        Flow,
        RuntimeError,
    >)
        requires
            st_wf(old(st)@),
            env < old(st)@.envs.len(),
        ensures
            st_wf(final(st)@),
            old(st)@.envs.len() <= final(st)@.envs.len(),
            (final(st)@, flow_out(r)) == eval_declaration(self@, old(st)@, env as int, fuel as nat),
            flow_wf(r, final(st)@.envs.len() as int),
        decreases fuel, size_declaration(self@), 0int,
    {
        match self {
            Declaration::ClassDecl(c) => c.evaluate(st, env, fuel),
            Declaration::FunDecl(f) => f.evaluate(st, env, fuel),
            Declaration::VarDecl(v) => v.evaluate(st, env, fuel),
            Declaration::Statement(s) => s.evaluate(st, env, fuel),
        }
    }
}

/// Runs the declarations `ds[idx..]` in order: a `return` or an error
/// stops the run.
fn decls_evaluate(ds: &Vec<Declaration>, idx: usize, st: &mut Interp, env: usize, fuel: u64) -> (r:
    Result<Flow, RuntimeError>)
    requires
        st_wf(old(st)@),
        env < old(st)@.envs.len(),
        idx <= ds@.len(),
    ensures
        st_wf(final(st)@),
        old(st)@.envs.len() <= final(st)@.envs.len(),
        (final(st)@, flow_out(r)) == eval_decls(
            view_declarations(ds@).skip(idx as int),
            old(st)@,
            env as int,
            fuel as nat,
        ),
        flow_wf(r, final(st)@.envs.len() as int),
    decreases fuel, size_decls(view_declarations(ds@).skip(idx as int)), 1int,
{
    proof {
        crate::ast::lemma_view_declarations_elts(ds@);
    }
    if idx == ds.len() {
        proof {
            assert(view_declarations(ds@).skip(idx as int) =~= Seq::<DeclarationV>::empty());
        }
        Ok(Flow::Normal(Object::Nil))
    } else {
        let ghost sub = view_declarations(ds@).skip(idx as int);
        proof {
            assert(sub[0] == view_declarations(ds@)[idx as int]);
            assert(sub.drop_first() =~= view_declarations(ds@).skip(idx as int + 1));
            crate::ast::lemma_size_declaration_pos(sub[0]);
        }
        match ds[idx].evaluate(st, env, fuel) {
            Ok(Flow::Normal(_)) => decls_evaluate(ds, idx + 1, st, env, fuel),
            Ok(Flow::Return(v)) => Ok(Flow::Return(v)),
            Err(e) => Err(e),
        }
    }
}

/// Runs the top-level declarations `ds[idx..]`: an error stops the run, a
/// top-level `return` does not.
fn program_decls_evaluate(ds: &Vec<Declaration>, idx: usize, st: &mut Interp, fuel: u64) -> (r:
    Result<(), RuntimeError>)
    requires
        st_wf(old(st)@),
        old(st)@.envs.len() >= 1,
        idx <= ds@.len(),
    ensures
        st_wf(final(st)@),
        old(st)@.envs.len() <= final(st)@.envs.len(),
        ({
            let pr = eval_program_decls(
                view_declarations(ds@).skip(idx as int),
                old(st)@,
                fuel as nat,
            );
            final(st)@ == pr.0 && match r {
                Ok(_) => pr.1 == VOut::Norm(ObjectV::Nil),
                Err(e) => pr.1 == VOut::Fail(e.err@),
            }
        }),
    decreases fuel, size_decls(view_declarations(ds@).skip(idx as int)), 1int,
{
    proof {
        crate::ast::lemma_view_declarations_elts(ds@);
    }
    if idx == ds.len() {
        proof {
            assert(view_declarations(ds@).skip(idx as int) =~= Seq::<DeclarationV>::empty());
        }
        Ok(())
    } else {
        let ghost sub = view_declarations(ds@).skip(idx as int);
        proof {
            assert(sub[0] == view_declarations(ds@)[idx as int]);
            assert(sub.drop_first() =~= view_declarations(ds@).skip(idx as int + 1));
            crate::ast::lemma_size_declaration_pos(sub[0]);
        }
        match ds[idx].evaluate(st, 0, fuel) {
            Err(e) => Err(e),
            Ok(_) => program_decls_evaluate(ds, idx + 1, st, fuel),
        }
    }
}

impl Interp {
    /// A fresh interpreter: one empty root scope and no output.
    pub fn new() -> (it: Interp)
        ensures
            it@ == (VState {
                envs: seq![EnvV { values: Seq::empty(), next: None }],
                out: Seq::empty(),
            }),
            st_wf(it@),
            it@.envs.len() == 1,
    {
        let mut envs: Vec<Env> = Vec::new();
        envs.push(Env { values: Vec::new(), next: None });
        let it = Interp { envs, output: Vec::new() };
        proof {
            assert(it@.envs =~~= seq![EnvV { values: Seq::empty(), next: None }]);
            assert(it@.out =~~= Seq::<Seq<char>>::empty());
        }
        it
    }
}

impl Program {
    /// Runs the whole program in the root scope, collecting printed lines
    /// in the interpreter state; the first runtime error stops the run.
    pub fn evaluate(&self, st: &mut Interp, fuel: u64) -> (r: Result<(), RuntimeError>)
        requires
            st_wf(old(st)@),
            old(st)@.envs.len() >= 1,
        ensures
            st_wf(final(st)@),
            ({
                let pr = eval_program_decls(
                    view_declarations(self.declarations@),
                    old(st)@,
                    fuel as nat,
                );
                final(st)@ == pr.0 && match r {
                    Ok(_) => pr.1 == VOut::Norm(ObjectV::Nil),
                    Err(e) => pr.1 == VOut::Fail(e.err@),
                }
            }),
    {
        proof {
            assert(view_declarations(self.declarations@).skip(0) =~= view_declarations(
                self.declarations@,
            ));
        }
        program_decls_evaluate(&self.declarations, 0, st, fuel)
    }
}

/// The lines printed, mathematically.
pub open spec fn out_view(s: Seq<String>) -> Seq<Seq<char>> {
    s.map_values(|x: String| x@)
}

/// The interpreter's starting state: one empty root scope, no output.
pub open spec fn init_state() -> VState {
    VState { envs: seq![EnvV { values: Seq::empty(), next: None }], out: Seq::empty() }
}

/// What running one source text ends in: the lexical errors (when any
/// exist, later phases are skipped), the first syntax error, or the run's
/// printed lines — with the runtime error that stopped it, if one did.
pub enum RunResult {
    Lexical(Vec<ErrToken>),
    Syntax(ParseError),
    Runtime(Vec<String>, RuntimeError),
    Finished(Vec<String>),
}

/// The whole pipeline on one source text: scan, parse, run. Which of the
/// four outcomes comes back, and everything it carries, is pinned to the
/// mathematical scanner, parser and interpreter.
pub fn run_source(source: String, fuel: u64) -> (r: RunResult)
    ensures
        ({
            let sc = spec_scan(source@, 0, 1);
            match r {
                RunResult::Lexical(es) => sc.errs.len() > 0 && errs_view(es@) == sc.errs,
                RunResult::Syntax(e) => sc.errs.len() == 0 && fail_matches(
                    spec_parse_program(sc.toks),
                    sc.toks,
                    e@,
                ),
                RunResult::Runtime(out, e) => sc.errs.len() == 0 && (match spec_parse_program(
                    sc.toks,
                ) {
                    PRes::Parsed(pv, _) => ({
                        let pr = eval_program_decls(pv.declarations, init_state(), fuel as nat);
                        out_view(out@) == pr.0.out && pr.1 == VOut::Fail(e.err@)
                    }),
                    PRes::Fail(_, _) => false,
                }),
                RunResult::Finished(out) => sc.errs.len() == 0 && (match spec_parse_program(
                    sc.toks,
                ) {
                    PRes::Parsed(pv, _) => ({
                        let pr = eval_program_decls(pv.declarations, init_state(), fuel as nat);
                        out_view(out@) == pr.0.out && pr.1 == VOut::Norm(ObjectV::Nil)
                    }),
                    PRes::Fail(_, _) => false,
                }),
            }
        }),
{
    let ghost srcv = source@;
    let mut scanner = Scanner::new(source);
    scanner.scan();
    proof {
        assert(Seq::<crate::token::TokenV>::empty() + spec_scan(srcv, 0, 1).toks =~= spec_scan(
            srcv,
            0,
            1,
        ).toks);
        assert(Seq::<crate::scan::ErrV>::empty() + spec_scan(srcv, 0, 1).errs =~= spec_scan(
            srcv,
            0,
            1,
        ).errs);
        lemma_scan_wf(srcv, 0, 1);
    }
    if scanner.errors.len() > 0 {
        return RunResult::Lexical(scanner.errors);
    }
    match Program::parse(&scanner.tokens) {
        Err(e) => RunResult::Syntax(e),
        Ok(p) => {
            let mut it = Interp::new();
            match p.evaluate(&mut it, fuel) {
                Ok(_) => RunResult::Finished(it.output),
                Err(e) => RunResult::Runtime(it.output, e),
            }
        },
    }
}

// The laws of the evaluator, stated and proved once and for all inputs.

/// The factor that holds one number literal.
pub open spec fn num_factor_v(n: i64) -> FactorV {
    FactorV {
        unary: UnaryV::Call(CallV { prime: PrimaryV::Number(n), rest: Seq::empty() }),
        rest: None,
    }
}

/// The stored shape of `a - b - c`: the storage leans right (the last
/// operand sits outermost), but the first operand is innermost.
pub open spec fn sub_chain3(a: i64, b: i64, c: i64) -> TermV {
    TermV {
        factor: num_factor_v(c),
        rest: Some(
            (
                TermOp::Minus,
                Box::new(
                    TermV {
                        factor: num_factor_v(b),
                        rest: Some(
                            (TermOp::Minus, Box::new(TermV { factor: num_factor_v(a), rest: None })),
                        ),
                    },
                ),
            ),
        ),
    }
}

proof fn lemma_num_factor_eval(n: i64, st: VState, env: int, fuel: nat)
    ensures
        eval_factor(num_factor_v(n), st, env, fuel) == (
            st,
            Ok::<ObjectV, Seq<char>>(ObjectV::Number(n)),
        ),
{
    let cv = CallV { prime: PrimaryV::Number(n), rest: Seq::empty() };
    assert(eval_primary(PrimaryV::Number(n), st, env, fuel) == (
        st,
        Ok::<ObjectV, Seq<char>>(ObjectV::Number(n)),
    ));
    assert(eval_callings_seq(Seq::empty(), ObjectV::Number(n), st, env, fuel) == (
        st,
        Ok::<ObjectV, Seq<char>>(ObjectV::Number(n)),
    ));
    assert(eval_call(cv, st, env, fuel) == (st, Ok::<ObjectV, Seq<char>>(ObjectV::Number(n))));
    assert(eval_unary(UnaryV::Call(cv), st, env, fuel) == (
        st,
        Ok::<ObjectV, Seq<char>>(ObjectV::Number(n)),
    ));
}

/// Evaluation of an additive chain is left-associative: for all numbers
/// `a`, `b`, `c` whose differences stay in range, `a - b - c` evaluates to
/// `(a - b) - c` — not `a - (b - c)` — in every state.
pub proof fn lemma_sub_left_associative(a: i64, b: i64, c: i64, st: VState, env: int, fuel: nat)
    requires
        i64::MIN <= a - b <= i64::MAX,
        i64::MIN <= a - b - c <= i64::MAX,
    ensures
        eval_term(sub_chain3(a, b, c), st, env, fuel) == (
            st,
            Ok::<ObjectV, Seq<char>>(ObjectV::Number((a - b - c) as i64)),
        ),
{
    reveal_with_fuel(eval_term, 4);
    lemma_num_factor_eval(a, st, env, fuel);
    lemma_num_factor_eval(b, st, env, fuel);
    lemma_num_factor_eval(c, st, env, fuel);
}

/// `+` on two strings concatenates them; `+` of a string and a number is
/// the runtime error about operand kinds, not a coercion.
pub proof fn lemma_string_concat(s: Seq<char>, t: Seq<char>, n: i64)
    ensures
        apply_term_op(TermOp::Plus, ObjectV::String(s), ObjectV::String(t)) == Ok::<
            ObjectV,
            Seq<char>,
        >(ObjectV::String(s + t)),
        apply_term_op(TermOp::Plus, ObjectV::String(s), ObjectV::Number(n)) == Err::<
            ObjectV,
            Seq<char>,
        >("Operands must be two numbers or two strings."@),
{
}

/// Truthiness: `!` always yields a boolean, the negation of its operand's
/// truthiness; nil is falsy and the number zero is truthy, so `!nil` is
/// true and `!0` is false.
pub proof fn lemma_truthiness(v: ObjectV)
    ensures
        apply_unary_op(UnaryOp::Bang, v) == Ok::<ObjectV, Seq<char>>(
            ObjectV::Boolean(!is_truthy(v)),
        ),
        !is_truthy(ObjectV::Nil),
        is_truthy(ObjectV::Number(0)),
        apply_unary_op(UnaryOp::Bang, ObjectV::Nil) == Ok::<ObjectV, Seq<char>>(
            ObjectV::Boolean(true),
        ),
        apply_unary_op(UnaryOp::Bang, ObjectV::Number(0)) == Ok::<ObjectV, Seq<char>>(
            ObjectV::Boolean(false),
        ),
{
}

/// Calling a function with the wrong number of arguments is, for every
/// function and every state, exactly the runtime error that names the
/// expected and actual counts.
pub proof fn lemma_arity_mismatch(
    params: Seq<Seq<char>>,
    body: BlockV,
    fenv: int,
    args: Seq<ObjectV>,
    st: VState,
    fuel: nat,
)
    requires
        args.len() != params.len(),
    ensures
        call_function(params, body, fenv, args, st, fuel) == (
            st,
            Err::<ObjectV, Seq<char>>(arity_msg(params.len() as int, args.len() as int)),
        ),
{
}

/// A binding written through one scope changes that scope alone: every
/// other scope's bindings read exactly as before. A closure's captured
/// scope is an arena index, so writing through one closure can change
/// what a second closure sees only if the second one's chain passes
/// through the very scope written — which, for closures made by separate
/// invocations of the same function, it never does, since each invocation
/// binds its locals in a freshly pushed scope.
pub proof fn lemma_define_is_local(st: VState, e: int, name: Seq<char>, v: ObjectV, e2: int)
    requires
        0 <= e < st.envs.len(),
        0 <= e2 < st.envs.len(),
        e2 != e,
    ensures
        st_define(st, e, name, v).envs.len() == st.envs.len(),
        st_define(st, e, name, v).envs[e2] == st.envs[e2],
{
}

/// A freshly pushed scope is its own: its index is the old arena length,
/// so no function value already stored anywhere in a well-formed state
/// captures it. Two invocations of an outer function therefore close over
/// two different scopes, and the locals of one are unreachable from the
/// other.
pub proof fn lemma_pushed_scope_is_fresh(st: VState, parent: int, i: int, k: int)
    requires
        st_wf(st),
        0 <= i < st.envs.len(),
        0 <= k < st.envs[i].values.len(),
    ensures
        st.envs[i].values[k].1 matches ObjectV::Function { name: _, params: _, body: _, env }
            ==> env != st.envs.len(),
{
    assert(env_vals_wf(st.envs[i], st.envs.len() as int));
    assert(objv_wf(st.envs[i].values[k].1, st.envs.len() as int));
}

/// A binding made in a freshly pushed scope is invisible to every lookup
/// that starts from a scope that existed before the push: a block's local
/// variable cannot be seen once the block's scope is left behind.
pub proof fn lemma_block_binding_invisible(
    st: VState,
    parent: int,
    name: Seq<char>,
    v: ObjectV,
    e: int,
    x: Seq<char>,
)
    requires
        st_wf(st),
        0 <= parent < st.envs.len(),
        0 <= e < st.envs.len(),
    ensures
        find_env(
            st_define(st_push_env(st, parent), st.envs.len() as int, name, v).envs,
            e,
            x,
        ) == find_env(st.envs, e, x),
    decreases e,
{
    let st2 = st_define(st_push_env(st, parent), st.envs.len() as int, name, v);
    assert(wf_envs(st2.envs)) by {
        assert forall|i: int| 0 <= i < st2.envs.len() implies (#[trigger] st2.envs[i].next
            matches Some(p) ==> 0 <= p < i) by {
            if i < st.envs.len() {
                assert(st2.envs[i] == st.envs[i]);
            } else {
                assert(st2.envs[i].next == Some(parent));
            }
        }
    }
    assert(st2.envs[e] == st.envs[e]);
    if scope_find(st.envs[e].values, x) is None {
        match st.envs[e].next {
            Some(p) => {
                lemma_block_binding_invisible(st, parent, name, v, p, x);
            },
            None => {},
        }
    }
}

} // verus!
