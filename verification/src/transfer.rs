//! Carrying identifiers and handles from one host to another.

use vstd::prelude::*;
use crate::interner::Interner;

verus! {

/// A host that can take over what another host, `I`, has made. This is the
/// only way across: a handle of one host means nothing to another, and the
/// types keep them apart.
pub trait TargetInterner<I: Interner>: Interner {
    fn transfer_def_id(def_id: I::DefId) -> Self::DefId;

    fn transfer_adt_id(adt_id: I::InternedAdtId) -> Self::InternedAdtId;

    /// Carries the parameter kinds of a binder across.
    fn transfer_variable_kinds(variable_kinds: I::InternedVariableKinds)
        -> Self::InternedVariableKinds;

    /// Carries the variable kinds of a canonical term across.
    fn transfer_canonical_var_kinds(
        variable_kinds: I::InternedCanonicalVarKinds,
    ) -> Self::InternedCanonicalVarKinds;

    /// Carries an evaluated constant across. Only this one needs the
    /// target host itself: such a constant belongs to its host, and only a
    /// host can say what it is on the other side.
    fn transfer_const(&self, const_evaluated: &I::InternedConcreteConst)
        -> Self::InternedConcreteConst;
}

/// From a host to itself nothing changes. Every host has this for free, so
/// that no host can get it wrong.
impl<I: Interner> TargetInterner<I> for I {
    fn transfer_def_id(def_id: I::DefId) -> (out: I::DefId)
        ensures
            out == def_id,
    {
        def_id
    }

    fn transfer_adt_id(adt_id: I::InternedAdtId) -> (out: I::InternedAdtId)
        ensures
            out == adt_id,
    {
        adt_id
    }

    fn transfer_variable_kinds(variable_kinds: I::InternedVariableKinds) -> (out:
        I::InternedVariableKinds)
        ensures
            out == variable_kinds,
    {
        variable_kinds
    }

    fn transfer_canonical_var_kinds(variable_kinds: I::InternedCanonicalVarKinds) -> (out:
        I::InternedCanonicalVarKinds)
        ensures
            out == variable_kinds,
    {
        variable_kinds
    }

    fn transfer_const(&self, const_evaluated: &I::InternedConcreteConst) -> (out:
        I::InternedConcreteConst)
        ensures
            out == *const_evaluated,
    {
        let out = const_evaluated.clone();
        proof {
            self.lemma_concrete_const_clone(*const_evaluated, out);
        }
        out
    }
}

} // verus!
