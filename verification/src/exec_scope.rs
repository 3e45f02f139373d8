//! The execution-scope stack: nested tables of named values local to hint
//! execution.  The stack always keeps its root scope; only hints push and
//! pop the scopes above it.

use vstd::prelude::*;
use crate::bignum::big_value;
use crate::bindings::Bindings;
use crate::errors::ExecScopeError;
use crate::errors::VirtualMachineError;
use crate::relocatable::MaybeRelocatable;
use crate::relocatable::ValueModel;

verus! {

/// The scope stack.  Contracts read it through `stack()`, the sequence of
/// name-to-content mappings from the root scope up, which is never empty.
pub struct ExecutionScopes {
    pub data: Vec<Bindings<MaybeRelocatable>>,
}

impl ExecutionScopes {
    /// The mappings the scopes denote, root first.
    pub open spec fn stack(&self) -> Seq<Map<Seq<char>, ValueModel>> {
        self.data@.map(|i: int, b: Bindings<MaybeRelocatable>| b@)
    }

    /// The stack invariant: the root scope is always there.
    pub open spec fn wf(&self) -> bool {
        self.data@.len() >= 1
    }

    /// The mapping of the current, innermost scope.
    pub open spec fn current(&self) -> Map<Seq<char>, ValueModel> {
        self.stack().last()
    }

    /// A stack of one empty root scope.
    pub fn new() -> (r: Self)
        ensures
            r.wf(),
            r.stack() == seq![Map::<Seq<char>, ValueModel>::empty()],
    {
        let mut data: Vec<Bindings<MaybeRelocatable>> = Vec::new();
        data.push(Bindings::new());
        let r = ExecutionScopes { data };
        proof {
            assert(r.stack() =~= seq![Map::<Seq<char>, ValueModel>::empty()]);
        }
        r
    }

    /// Pushes a scope holding the given bindings.
    pub fn enter_scope(&mut self, scope: Bindings<MaybeRelocatable>)
        requires
            old(self).wf(),
        ensures
            final(self).wf(),
            final(self).stack() == old(self).stack().push(scope@),
    {
        let ghost pushed = scope@;
        self.data.push(scope);
        proof {
            assert(self.stack() =~= old(self).stack().push(pushed));
        }
    }

    /// Pops the current scope.  On a stack of one scope it fails with the
    /// main-scope error and leaves the stack unchanged.
    pub fn exit_scope(&mut self) -> (r: Result<(), ExecScopeError>)
        requires
            old(self).wf(),
        ensures
            final(self).wf(),
            if old(self).stack().len() > 1 {
                &&& r is Ok
                &&& final(self).stack() == old(self).stack().drop_last()
            } else {
                &&& r == Err::<(), ExecScopeError>(ExecScopeError::ExitMainScopeError)
                &&& final(self).stack() == old(self).stack()
            },
    {
        if self.data.len() <= 1 {
            Err(ExecScopeError::ExitMainScopeError)
        } else {
            let _ = self.data.pop();
            proof {
                assert(self.stack() =~= old(self).stack().drop_last());
            }
            Ok(())
        }
    }

    /// Reads the named variable of the current scope as an integer.  It
    /// fails if the name is unbound there, or bound to another kind.
    pub fn get_int_ref(&self, name: &str) -> (r: Result<&num_bigint::BigInt, VirtualMachineError>)
        requires
            self.wf(),
        ensures
            match r {
                Ok(b) => self.current().contains_key(name@)
                    && self.current()[name@] == ValueModel::Int(big_value(*b)),
                Err(e) => if !self.current().contains_key(name@) {
                    e matches VirtualMachineError::VariableNotInScope(n) && n@ == name@
                } else {
                    &&& !(self.current()[name@] is Int)
                    &&& e matches VirtualMachineError::VariableWrongType(n) && n@ == name@
                },
            },
    {
        let idx = self.data.len() - 1;
        let cur = &self.data[idx];
        proof {
            assert(self.stack()[idx as int] == cur@);
        }
        match cur.get_value(name) {
            Some(MaybeRelocatable::Int(b)) => Ok(b),
            Some(_) => Err(VirtualMachineError::VariableWrongType(name.to_owned())),
            None => Err(VirtualMachineError::VariableNotInScope(name.to_owned())),
        }
    }

    /// Binds the named variable in the current scope, shadowing any prior
    /// binding there.
    pub fn insert_value(&mut self, name: &str, value: MaybeRelocatable)
        requires
            old(self).wf(),
        ensures
            final(self).wf(),
            final(self).stack() == old(self).stack().update(
                old(self).stack().len() - 1,
                old(self).current().insert(name@, value@),
            ),
    {
        let popped = self.data.pop();
        match popped {
            Some(mut cur) => {
                cur.insert(name.to_owned(), value);
                self.data.push(cur);
                proof {
                    assert(self.stack() =~= old(self).stack().update(
                        old(self).stack().len() - 1,
                        old(self).current().insert(name@, value@),
                    ));
                }
            }
            None => {}
        }
    }
}

/// Law: entering a scope and immediately exiting it restores the scope
/// stack to its prior state, at every depth of at least one.  Entering
/// pushes the scope's mapping; the stack is then above the root, so
/// exiting succeeds and drops exactly that mapping.
pub proof fn lemma_enter_exit_scope_round_trip(
    stack0: Seq<Map<Seq<char>, ValueModel>>,
    scope: Map<Seq<char>, ValueModel>,
)
    requires
        stack0.len() >= 1,
    ensures
        stack0.push(scope).len() > 1,
        stack0.push(scope).drop_last() == stack0,
{
    assert(stack0.push(scope).drop_last() =~= stack0);
}

} // verus!
