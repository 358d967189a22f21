//! Runtime values: numbers, strings, booleans, nil, function values
//! (closures) and the partial object variant that `this` produces.
//!
//! A function value shares its parameter list and body through `Rc`, and
//! captures the scope it was created in as an index into the interpreter's
//! scope arena; the grammar's class side is only as complete as the
//! scoping semantics require.
//!
//! Equality is structural for numbers, strings, booleans and nil; two
//! values of different variants are unequal (not an error); function
//! values are never equal; instances compare by the identity of their
//! scope.

use std::rc::Rc;

use vstd::prelude::*;
use vstd::string::StrSliceExecFns;
use vstd::string::StringExecFns;

use crate::ast::Block;
use crate::ast::BlockV;
use crate::ast::view_block;
use crate::token::spec_int_str;
use crate::token::int_to_string;

verus! {

/// The mathematical content of a runtime value.
pub enum ObjectV {
    Number(i64),
    String(Seq<char>),
    Boolean(bool),
    Object { name: Seq<char>, env: int },
    Function { name: Seq<char>, params: Seq<Seq<char>>, body: BlockV, env: int },
    Nil,
}

/// A function value: name, parameter names, body, and the scope captured
/// at its creation point (an index into the interpreter's scope arena).
pub struct ExFn {
    pub name: String,
    pub params: Rc<Vec<String>>,
    pub body: Rc<Block>,
    pub env: usize,
}

/// The partial instance value that `this` produces: a named handle to a
/// scope.
pub struct Class {
    pub name: String,
    pub env: usize,
}

/// A runtime value.
pub enum Object {
    Number(i64),
    String(String),
    Boolean(bool),
    Object(Class),
    Function(ExFn),
    Nil,
}

/// The views of a list of names.
pub open spec fn names_view(ns: Seq<String>) -> Seq<Seq<char>> {
    ns.map_values(|s: String| s@)
}

impl View for Object {
    type V = ObjectV;

    open spec fn view(&self) -> ObjectV {
        match self {
            Object::Number(n) => ObjectV::Number(*n),
            Object::String(s) => ObjectV::String(s@),
            Object::Boolean(b) => ObjectV::Boolean(*b),
            Object::Object(c) => ObjectV::Object { name: c.name@, env: c.env as int },
            Object::Function(f) => ObjectV::Function {
                name: f.name@,
                params: names_view((*f.params)@),
                body: view_block(&*f.body),
                env: f.env as int,
            },
            Object::Nil => ObjectV::Nil,
        }
    }
}

/// Clones a shared pointer.
///
/// Relies on `std`'s `Rc::clone`, which returns a pointer to the same
/// allocation, so the value behind it is the same value.
#[verifier::external_body]
pub(crate) fn rc_clone<T>(rc: &Rc<T>) -> (r: Rc<T>)
    ensures
        r == *rc,
{
    Rc::clone(rc)
}

impl Object {
    /// The numeric payload, if this is a number.
    pub fn get_number(&self) -> (r: Option<i64>)
        ensures
            match self@ {
                ObjectV::Number(n) => r == Some(n),
                _ => r is None,
            },
    {
        match self {
            Object::Number(n) => Some(*n),
            _ => None,
        }
    }

    /// The string payload, if this is a string.
    pub fn get_string(&self) -> (r: Option<String>)
        ensures
            match self@ {
                ObjectV::String(s) => r is Some && r->0@ == s,
                _ => r is None,
            },
    {
        match self {
            Object::String(s) => Some(s.clone()),
            _ => None,
        }
    }

    /// The boolean payload, if this is a boolean.
    pub fn get_bool(&self) -> (r: Option<bool>)
        ensures
            match self@ {
                ObjectV::Boolean(b) => r == Some(b),
                _ => r is None,
            },
    {
        match self {
            Object::Boolean(b) => Some(*b),
            _ => None,
        }
    }

    /// The function payload, if this is a function value.
    pub fn get_function(&self) -> (r: Option<&ExFn>)
        ensures
            match self {
                Object::Function(f) => r == Some(f),
                _ => r is None,
            },
    {
        match self {
            Object::Function(f) => Some(f),
            _ => None,
        }
    }

    /// The instance payload, if this is an instance.
    pub fn get_object(&self) -> (r: Option<Class>)
        ensures
            match self@ {
                ObjectV::Object { name, env } => r matches Some(c) && c.name@ == name && c.env
                    == env,
                _ => r is None,
            },
    {
        match self {
            Object::Object(c) => Some(Class { name: c.name.clone(), env: c.env }),
            _ => None,
        }
    }

    /// An exact copy: same mathematical value, with the function body and
    /// parameter list shared, not duplicated.
    pub fn clone_obj(&self) -> (r: Object)
        ensures
            r@ == self@,
    {
        match self {
            Object::Number(n) => Object::Number(*n),
            Object::String(s) => Object::String(s.clone()),
            Object::Boolean(b) => Object::Boolean(*b),
            Object::Object(c) => Object::Object(Class { name: c.name.clone(), env: c.env }),
            Object::Function(f) => Object::Function(
                ExFn {
                    name: f.name.clone(),
                    params: rc_clone(&f.params),
                    body: rc_clone(&f.body),
                    env: f.env,
                },
            ),
            Object::Nil => Object::Nil,
        }
    }
}

/// Truthiness: `false` and `nil` are falsy, every other value (including
/// `0` and the empty string) is truthy.
pub open spec fn is_truthy(v: ObjectV) -> bool {
    match v {
        ObjectV::Boolean(b) => b,
        ObjectV::Nil => false,
        _ => true,
    }
}

/// Decides truthiness, exactly as [`is_truthy`] says.
pub fn truthy(o: &Object) -> (r: bool)
    ensures
        r == is_truthy(o@),
{
    match o {
        Object::Boolean(b) => *b,
        Object::Nil => false,
        _ => true,
    }
}

/// Structural equality of runtime values: numbers, strings, booleans and
/// nil compare by content, mismatched variants are unequal, function
/// values are never equal, and instances compare by the identity of their
/// scope.
pub open spec fn spec_obj_eq(a: ObjectV, b: ObjectV) -> bool {
    match (a, b) {
        (ObjectV::Number(n), ObjectV::Number(m)) => n == m,
        (ObjectV::String(s), ObjectV::String(t)) => s == t,
        (ObjectV::Boolean(p), ObjectV::Boolean(q)) => p == q,
        (ObjectV::Nil, ObjectV::Nil) => true,
        (ObjectV::Object { name: _, env: e1 }, ObjectV::Object { name: _, env: e2 }) => e1 == e2,
        _ => false,
    }
}

/// Decides value equality, exactly as [`spec_obj_eq`] says.
pub fn values_equal(a: &Object, b: &Object) -> (r: bool)
    ensures
        r == spec_obj_eq(a@, b@),
{
    match (a, b) {
        (Object::Number(n), Object::Number(m)) => *n == *m,
        (Object::String(s), Object::String(t)) => *s == *t,
        (Object::Boolean(p), Object::Boolean(q)) => *p == *q,
        (Object::Nil, Object::Nil) => true,
        (Object::Object(c1), Object::Object(c2)) => c1.env == c2.env,
        _ => false,
    }
}

/// The display form of a value: the decimal digits of a number, the raw
/// text of a string, `true`/`false`, `nil`, and bracketed forms for
/// functions and instances.
pub open spec fn obj_render(v: ObjectV) -> Seq<char> {
    match v {
        ObjectV::Number(n) => spec_int_str(n as int),
        ObjectV::String(s) => s,
        ObjectV::Boolean(b) => if b {
            "true"@
        } else {
            "false"@
        },
        ObjectV::Object { name, env: _ } => "<obj "@ + name + ">"@,
        ObjectV::Function { name, params: _, body: _, env: _ } => "<fn "@ + name + ">"@,
        ObjectV::Nil => "nil"@,
    }
}

/// Renders a value for `print`, exactly as [`obj_render`] says.
pub fn render_object(o: &Object) -> (r: String)
    ensures
        r@ == obj_render(o@),
{
    match o {
        Object::Number(n) => int_to_string(*n),
        Object::String(s) => s.clone(),
        Object::Boolean(b) => if *b {
            String::from_str("true")
        } else {
            String::from_str("false")
        },
        Object::Object(c) => {
            let mut r = String::from_str("<obj ");
            r.append(c.name.as_str());
            r.append(">");
            r
        },
        Object::Function(f) => {
            let mut r = String::from_str("<fn ");
            r.append(f.name.as_str());
            r.append(">");
            r
        },
        Object::Nil => String::from_str("nil"),
    }
}

} // verus!
