//! The scope chain: every scope is a node in an arena, holding its
//! bindings and the index of its enclosing scope. Closures capture the
//! index of the scope that was innermost at their creation point, so a
//! scope outlives the block that created it as long as some function value
//! still points at it; nodes earlier in the arena never point at later
//! ones, which is the well-formedness the lookup walk rests on.
//!
//! A scope's bindings are an append-only journal: `define` pushes a new
//! entry, and lookup takes the latest entry for a name, so a later `define`
//! of the same name overwrites the earlier one observationally.

use vstd::prelude::*;

use crate::object::Object;
use crate::object::ObjectV;

verus! {

/// One scope: its bindings and the index of its enclosing scope.
pub struct Env {
    pub values: Vec<(String, Object)>,
    pub next: Option<usize>,
}

/// The mathematical content of one scope.
#[verifier::ext_equal]
pub struct EnvV {
    pub values: Seq<(Seq<char>, ObjectV)>,
    pub next: Option<int>,
}

impl View for Env {
    type V = EnvV;

    open spec fn view(&self) -> EnvV {
        EnvV {
            values: self.values@.map_values(|p: (String, Object)| (p.0@, p.1@)),
            next: match self.next {
                Some(p) => Some(p as int),
                None => None,
            },
        }
    }
}

impl Env {
    /// A fresh, empty scope chained to `next`.
    pub fn new(next: Option<usize>) -> (e: Env)
        ensures
            e@.values.len() == 0,
            e@.next == (match next {
                Some(p) => Some(p as int),
                None => None::<int>,
            }),
    {
        Env { values: Vec::new(), next }
    }
}

/// The latest binding of `name` among `entries`, if any.
pub open spec fn scope_find(entries: Seq<(Seq<char>, ObjectV)>, name: Seq<char>) -> Option<ObjectV>
    decreases entries.len(),
{
    if entries.len() == 0 {
        None
    } else if entries.last().0 == name {
        Some(entries.last().1)
    } else {
        scope_find(entries.drop_last(), name)
    }
}

/// The scope chain is well formed: every link points to an earlier node in
/// the arena.
pub open spec fn wf_envs(envs: Seq<EnvV>) -> bool {
    forall|i: int|
        0 <= i < envs.len() ==> (#[trigger] envs[i].next matches Some(p) ==> 0 <= p < i)
}

/// The index of the nearest scope, walking outward from `e`, that binds
/// `name`; `None` if no scope in the chain does.
pub open spec fn find_env(envs: Seq<EnvV>, e: int, name: Seq<char>) -> Option<int>
    decreases e when 0 <= e < envs.len() && wf_envs(envs)
{
    if scope_find(envs[e].values, name) is Some {
        Some(e)
    } else {
        match envs[e].next {
            Some(p) => find_env(envs, p, name),
            None => None,
        }
    }
}

/// A value holds no scope index at or beyond `n`.
pub open spec fn objv_wf(v: ObjectV, n: int) -> bool {
    match v {
        ObjectV::Object { name: _, env } => 0 <= env < n,
        ObjectV::Function { name: _, params: _, body: _, env } => 0 <= env < n,
        _ => true,
    }
}

/// Every value bound in the scope holds only scope indexes below `n`.
pub open spec fn env_vals_wf(e: EnvV, n: int) -> bool {
    forall|k: int| 0 <= k < e.values.len() ==> objv_wf(#[trigger] e.values[k].1, n)
}

} // verus!
