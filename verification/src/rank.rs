//! How deep a shape goes, counted over the ranks that the host gives to
//! the handles in it. A node ranks above everything it holds, which is what
//! lets a function that walks a term be shown to end.

use vstd::prelude::*;
use crate::interner::ConstData;
use crate::interner::GenericArgData;
use crate::interner::GoalData;
use crate::interner::Interner;
use crate::interner::ProgramClauseData;
use crate::interner::QuantifiedWhereClause;
use crate::interner::TyData;
use crate::shapes::AliasEq;
use crate::shapes::AliasTy;
use crate::shapes::ApplicationTy;
use crate::shapes::CanonicalVarKind;
use crate::shapes::DomainGoal;
use crate::shapes::DynTy;
use crate::shapes::FnSig;
use crate::shapes::GenericArgShape;
use crate::shapes::GoalShape;
use crate::shapes::OpaqueTy;
use crate::shapes::ProgramClauseImplication;
use crate::shapes::ProgramClauseShape;
use crate::shapes::ProjectionTy;
use crate::shapes::TraitRef;
use crate::shapes::TyShape;
use crate::shapes::VariableKind;
use crate::shapes::WellFormed;
use crate::shapes::WhereClause;

verus! {

/// The larger of two ranks.
pub open spec fn higher(a: nat, b: nat) -> nat {
    if a >= b {
        a
    } else {
        b
    }
}

/// Every item of `items` ranks below `bound`.
pub open spec fn list_rank_above<X>(items: Seq<X>, rank: spec_fn(X) -> nat, bound: nat) -> bool {
    forall|i: int| 0 <= i < items.len() ==> rank(#[trigger] items[i]) < bound
}

pub open spec fn variable_kind_rank<I: Interner>(
    interner: I,
    kind: VariableKind<I::InternedType>,
) -> nat {
    match kind {
        VariableKind::Ty => 0,
        VariableKind::Lifetime => 0,
        VariableKind::Const(ty) => 1 + interner.ty_rank(&ty),
    }
}

pub open spec fn trait_ref_rank<I: Interner>(
    interner: I,
    trait_ref: TraitRef<I::DefId, I::InternedSubstitution>,
) -> nat {
    1 + interner.substitution_rank(&trait_ref.substitution)
}

pub open spec fn projection_rank<I: Interner>(
    interner: I,
    projection: ProjectionTy<I::DefId, I::InternedSubstitution>,
) -> nat {
    1 + interner.substitution_rank(&projection.substitution)
}

pub open spec fn opaque_ty_rank<I: Interner>(
    interner: I,
    opaque: OpaqueTy<I::DefId, I::InternedSubstitution>,
) -> nat {
    1 + interner.substitution_rank(&opaque.substitution)
}

pub open spec fn alias_rank<I: Interner>(
    interner: I,
    alias: AliasTy<I::DefId, I::InternedSubstitution>,
) -> nat {
    match alias {
        AliasTy::Projection(projection) => 1 + projection_rank(interner, projection),
        AliasTy::Opaque(opaque) => 1 + opaque_ty_rank(interner, opaque),
    }
}

pub open spec fn alias_eq_rank<I: Interner>(
    interner: I,
    alias_eq: AliasEq<I::DefId, I::InternedSubstitution, I::InternedType>,
) -> nat {
    1 + higher(alias_rank(interner, alias_eq.alias), interner.ty_rank(&alias_eq.ty))
}

pub open spec fn where_clause_rank<I: Interner>(
    interner: I,
    clause: WhereClause<I::DefId, I::InternedSubstitution, I::InternedType>,
) -> nat {
    match clause {
        WhereClause::Implemented(trait_ref) => 1 + trait_ref_rank(interner, trait_ref),
        WhereClause::AliasEq(alias_eq) => 1 + alias_eq_rank(interner, alias_eq),
    }
}

pub open spec fn well_formed_rank<I: Interner>(
    interner: I,
    well_formed: WellFormed<I::DefId, I::InternedSubstitution, I::InternedType>,
) -> nat {
    match well_formed {
        WellFormed::Trait(trait_ref) => 1 + trait_ref_rank(interner, trait_ref),
        WellFormed::Ty(ty) => 1 + interner.ty_rank(&ty),
    }
}

pub open spec fn domain_goal_rank<I: Interner>(
    interner: I,
    goal: DomainGoal<I::DefId, I::InternedSubstitution, I::InternedType>,
) -> nat {
    match goal {
        DomainGoal::Holds(clause) => 1 + where_clause_rank(interner, clause),
        DomainGoal::WellFormed(well_formed) => 1 + well_formed_rank(interner, well_formed),
    }
}

pub open spec fn quantified_where_clause_rank<I: Interner>(
    interner: I,
    clause: QuantifiedWhereClause<I>,
) -> nat {
    1 + higher(
        interner.variable_kinds_rank(&clause.binders),
        where_clause_rank(interner, clause.value),
    )
}

pub open spec fn application_rank<I: Interner>(
    interner: I,
    application: ApplicationTy<I::DefId, I::InternedAdtId, I::InternedSubstitution>,
) -> nat {
    1 + interner.substitution_rank(&application.substitution)
}

pub open spec fn dyn_rank<I: Interner>(
    interner: I,
    dyn_ty: DynTy<I::InternedVariableKinds, I::InternedQuantifiedWhereClauses>,
) -> nat {
    1 + higher(
        interner.variable_kinds_rank(&dyn_ty.bounds.binders),
        interner.quantified_where_clauses_rank(&dyn_ty.bounds.value),
    )
}

pub open spec fn fn_sig_rank<I: Interner>(interner: I, sig: FnSig<I::InternedSubstitution>) -> nat {
    1 + interner.substitution_rank(&sig.substitution)
}

pub open spec fn ty_data_rank<I: Interner>(interner: I, data: TyData<I>) -> nat {
    match data {
        TyShape::Apply(application) => 1 + application_rank(interner, application),
        TyShape::Dyn(dyn_ty) => 1 + dyn_rank(interner, dyn_ty),
        TyShape::Function(sig) => 1 + fn_sig_rank(interner, sig),
        TyShape::Alias(alias) => 1 + alias_rank(interner, alias),
        TyShape::BoundVar(_) => 0,
        TyShape::InferenceVar(_) => 0,
        TyShape::Placeholder(_) => 0,
        TyShape::Error => 0,
    }
}

pub open spec fn const_data_rank<I: Interner>(interner: I, data: ConstData<I>) -> nat {
    1 + interner.ty_rank(&data.ty)
}

pub open spec fn generic_arg_data_rank<I: Interner>(interner: I, data: GenericArgData<I>) -> nat {
    match data {
        GenericArgShape::Ty(ty) => 1 + interner.ty_rank(&ty),
        GenericArgShape::Lifetime(_) => 0,
        GenericArgShape::Const(constant) => 1 + interner.const_rank(&constant),
    }
}

pub open spec fn goal_data_rank<I: Interner>(interner: I, data: GoalData<I>) -> nat {
    match data {
        GoalShape::Quantified(_, binders) => 1 + higher(
            interner.variable_kinds_rank(&binders.binders),
            interner.goal_rank(&binders.value),
        ),
        GoalShape::Implies(clauses, goal) => 1 + higher(
            interner.program_clauses_rank(&clauses),
            interner.goal_rank(&goal),
        ),
        GoalShape::All(goals) => 1 + interner.goals_rank(&goals),
        GoalShape::Not(goal) => 1 + interner.goal_rank(&goal),
        GoalShape::DomainGoal(goal) => 1 + domain_goal_rank(interner, goal),
        GoalShape::Truth(_) => 0,
    }
}

pub open spec fn implication_rank<I: Interner>(
    interner: I,
    implication: ProgramClauseImplication<
        I::DefId,
        I::InternedSubstitution,
        I::InternedType,
        I::InternedGoals,
    >,
) -> nat {
    1 + higher(
        domain_goal_rank(interner, implication.consequence),
        interner.goals_rank(&implication.conditions),
    )
}

pub open spec fn program_clause_data_rank<I: Interner>(
    interner: I,
    data: ProgramClauseData<I>,
) -> nat {
    match data {
        ProgramClauseShape::Implies(implication) => 1 + implication_rank(interner, implication),
        ProgramClauseShape::ForAll(binders) => 1 + higher(
            interner.variable_kinds_rank(&binders.binders),
            implication_rank(interner, binders.value),
        ),
    }
}

/// A host whose terms are finite and never contain themselves: whatever a
/// node holds ranks below the node.
pub trait WellFounded: Interner {
    /// The shape under a type handle ranks below the handle.
    proof fn lemma_ty_rank(&self, ty: &Self::InternedType)
        ensures
            ty_data_rank(*self, self.ty_shape(ty)) < self.ty_rank(ty),
    ;

    /// The shape under a constant's handle ranks below the handle.
    proof fn lemma_const_rank(&self, constant: &Self::InternedConst)
        ensures
            const_data_rank(*self, self.const_shape(constant)) < self.const_rank(constant),
    ;

    /// The shape under an argument's handle ranks below the handle.
    proof fn lemma_generic_arg_rank(&self, arg: &Self::InternedGenericArg)
        ensures
            generic_arg_data_rank(*self, self.generic_arg_shape(arg)) < self.generic_arg_rank(
                arg,
            ),
    ;

    /// The shape under a goal's handle ranks below the handle.
    proof fn lemma_goal_rank(&self, goal: &Self::InternedGoal)
        ensures
            goal_data_rank(*self, self.goal_shape(goal)) < self.goal_rank(goal),
    ;

    /// Every goal of a list ranks below the list.
    proof fn lemma_goals_rank(&self, goals: &Self::InternedGoals)
        ensures
            list_rank_above(
                self.goals_shape(goals),
                |g: Self::InternedGoal| self.goal_rank(&g),
                self.goals_rank(goals),
            ),
    ;

    /// Every argument of a substitution ranks below the substitution.
    proof fn lemma_substitution_rank(&self, substitution: &Self::InternedSubstitution)
        ensures
            list_rank_above(
                self.substitution_shape(substitution),
                |a: Self::InternedGenericArg| self.generic_arg_rank(&a),
                self.substitution_rank(substitution),
            ),
    ;

    /// The shape under a clause's handle ranks below the handle.
    proof fn lemma_program_clause_rank(&self, clause: &Self::InternedProgramClause)
        ensures
            program_clause_data_rank(*self, self.program_clause_shape(clause))
                < self.program_clause_rank(clause),
    ;

    /// Every clause of a list ranks below the list.
    proof fn lemma_program_clauses_rank(&self, clauses: &Self::InternedProgramClauses)
        ensures
            list_rank_above(
                self.program_clauses_shape(clauses),
                |c: Self::InternedProgramClause| self.program_clause_rank(&c),
                self.program_clauses_rank(clauses),
            ),
    ;

    /// Every clause of a list ranks below the list.
    proof fn lemma_quantified_where_clauses_rank(
        &self,
        clauses: &Self::InternedQuantifiedWhereClauses,
    )
        ensures
            list_rank_above(
                self.quantified_where_clauses_shape(clauses),
                |c: QuantifiedWhereClause<Self>| quantified_where_clause_rank(*self, c),
                self.quantified_where_clauses_rank(clauses),
            ),
    ;

    /// Every kind of a list ranks below the list.
    proof fn lemma_variable_kinds_rank(&self, kinds: &Self::InternedVariableKinds)
        ensures
            list_rank_above(
                self.variable_kinds_shape(kinds),
                |k: VariableKind<Self::InternedType>| variable_kind_rank(*self, k),
                self.variable_kinds_rank(kinds),
            ),
    ;

    /// Every kind of a list ranks below the list.
    proof fn lemma_canonical_var_kinds_rank(&self, kinds: &Self::InternedCanonicalVarKinds)
        ensures
            list_rank_above(
                self.canonical_var_kinds_shape(kinds),
                |k: CanonicalVarKind<Self::InternedType>| variable_kind_rank(*self, k.kind),
                self.canonical_var_kinds_rank(kinds),
            ),
    ;
}

} // verus!
