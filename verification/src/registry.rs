//! The build-scope registry. During the single bottom-up construction
//! pass it records every function declaration that introduces generic
//! parameters and every call-site expression that supplies generic type
//! arguments, so a later specialization pass can enumerate the required
//! instantiations without re-walking the whole tree. Append is the only
//! mutating operation: entries are never removed or reordered. The
//! registry is passed by exclusive access through the construction pass
//! and is read-only afterward.

use vstd::prelude::*;
use std::rc::Rc;
use crate::ast::Expression;
use crate::ast::FunctionDeclaration;

verus! {

/// Whether a function declaration introduces generic parameters. An
/// absent list means non-generic; an empty list still counts as generic.
pub open spec fn is_generic_function(f: FunctionDeclaration) -> bool {
    f.generic_types is Some
}

/// Whether an expression is a function call that supplies generic type
/// arguments.
pub open spec fn is_generic_call(e: Expression) -> bool {
    e matches Expression::FunctionCall { generic_types, .. } && generic_types is Some
}

/// Build-scope side registry of generic function declarations and generic
/// call sites, in the order they were recorded.
pub struct ProgramInformation {
    pub generic_functions: Vec<Rc<FunctionDeclaration>>,
    pub generic_function_calls: Vec<Rc<Expression>>,
}

impl ProgramInformation {
    /// The registry invariant: only declarations that introduce generic
    /// parameters stand in the declarations list, and only calls with
    /// generic type arguments in the call-site list.
    pub open spec fn wf(self) -> bool {
        &&& forall|i: int|
            0 <= i < self.generic_functions@.len() ==> is_generic_function(
                *(#[trigger] self.generic_functions@[i]),
            )
        &&& forall|i: int|
            0 <= i < self.generic_function_calls@.len() ==> is_generic_call(
                *(#[trigger] self.generic_function_calls@[i]),
            )
    }

    /// A fresh registry with both lists empty.
    pub fn new() -> (r: ProgramInformation)
        ensures
            r.generic_functions@.len() == 0,
            r.generic_function_calls@.len() == 0,
            r.wf(),
    {
        ProgramInformation {
            generic_functions: Vec::new(),
            generic_function_calls: Vec::new(),
        }
    }

    /// Offer a freshly built function declaration to the registry: it is
    /// appended exactly when it introduces generic parameters, and the
    /// call-site list is never touched.
    pub fn record_function_declaration(&mut self, f: &Rc<FunctionDeclaration>)
        ensures
            is_generic_function(**f) ==> final(self).generic_functions@
                == old(self).generic_functions@.push(*f),
            !is_generic_function(**f) ==> final(self).generic_functions@
                == old(self).generic_functions@,
            final(self).generic_function_calls@ == old(self).generic_function_calls@,
            old(self).wf() ==> final(self).wf(),
    {
        if f.generic_types.is_some() {
            self.generic_functions.push(f.clone());
        }
    }

    /// Offer a freshly built expression to the registry: it is appended
    /// exactly when it is a function call with generic type arguments,
    /// and the declaration list is never touched.
    pub fn record_expression(&mut self, e: &Rc<Expression>)
        ensures
            is_generic_call(**e) ==> final(self).generic_function_calls@
                == old(self).generic_function_calls@.push(*e),
            !is_generic_call(**e) ==> final(self).generic_function_calls@
                == old(self).generic_function_calls@,
            final(self).generic_functions@ == old(self).generic_functions@,
            old(self).wf() ==> final(self).wf(),
    {
        let is_generic: bool = match &**e {
            Expression::FunctionCall { generic_types, .. } => generic_types.is_some(),
            _ => false,
        };
        if is_generic {
            self.generic_function_calls.push(e.clone());
        }
    }
}

} // verus!
