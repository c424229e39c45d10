//! What a host answers when it is asked for its own rendering of a term.
//!
//! A hook is code of the host, and what it answers shows only when it is
//! called. To say what the text of a whole term is, the answers are taken
//! as a table: for each hook, which terms it has a rendering for, and what
//! that rendering is. A table agrees with a host where every answer that a
//! hook of the host can give is the one in the table.

use vstd::prelude::*;
use crate::interner::Interner;
use crate::shapes::AdtId;
use crate::shapes::AliasTy;
use crate::shapes::ApplicationTy;
use crate::shapes::AssocTypeId;
use crate::shapes::FnDefId;
use crate::shapes::OpaqueTy;
use crate::shapes::OpaqueTyId;
use crate::shapes::ProgramClauseImplication;
use crate::shapes::ProjectionTy;
use crate::shapes::SeparatorTraitRef;
use crate::shapes::TraitId;
use crate::shapes::TraitRef;

verus! {

/// The answers of the hooks of a host, one field for each hook.
#[verifier::reject_recursive_types(I)]
pub struct Answers<I: Interner> {
    pub adt_id: spec_fn(AdtId<I::InternedAdtId>) -> Option<Seq<char>>,
    pub trait_id: spec_fn(TraitId<I::DefId>) -> Option<Seq<char>>,
    pub assoc_type_id: spec_fn(AssocTypeId<I::DefId>) -> Option<Seq<char>>,
    pub opaque_ty_id: spec_fn(OpaqueTyId<I::DefId>) -> Option<Seq<char>>,
    pub fn_def_id: spec_fn(FnDefId<I::DefId>) -> Option<Seq<char>>,
    pub alias: spec_fn(AliasTy<I::DefId, I::InternedSubstitution>) -> Option<Seq<char>>,
    pub projection_ty: spec_fn(ProjectionTy<I::DefId, I::InternedSubstitution>) -> Option<
        Seq<char>,
    >,
    pub opaque_ty: spec_fn(OpaqueTy<I::DefId, I::InternedSubstitution>) -> Option<Seq<char>>,
    pub ty: spec_fn(I::InternedType) -> Option<Seq<char>>,
    pub lifetime: spec_fn(I::InternedLifetime) -> Option<Seq<char>>,
    pub constant: spec_fn(I::InternedConst) -> Option<Seq<char>>,
    pub generic_arg: spec_fn(I::InternedGenericArg) -> Option<Seq<char>>,
    pub variable_kinds: spec_fn(I::InternedVariableKinds) -> Option<Seq<char>>,
    pub variable_kinds_with_angles: spec_fn(I::InternedVariableKinds) -> Option<Seq<char>>,
    pub canonical_var_kinds: spec_fn(I::InternedCanonicalVarKinds) -> Option<Seq<char>>,
    pub goal: spec_fn(I::InternedGoal) -> Option<Seq<char>>,
    pub goals: spec_fn(I::InternedGoals) -> Option<Seq<char>>,
    pub program_clause_implication: spec_fn(
        ProgramClauseImplication<
            I::DefId,
            I::InternedSubstitution,
            I::InternedType,
            I::InternedGoals,
        >,
    ) -> Option<Seq<char>>,
    pub program_clause: spec_fn(I::InternedProgramClause) -> Option<Seq<char>>,
    pub program_clauses: spec_fn(I::InternedProgramClauses) -> Option<Seq<char>>,
    pub application_ty: spec_fn(
        ApplicationTy<I::DefId, I::InternedAdtId, I::InternedSubstitution>,
    ) -> Option<Seq<char>>,
    pub substitution: spec_fn(I::InternedSubstitution) -> Option<Seq<char>>,
    pub separator_trait_ref: spec_fn(
        TraitRef<I::DefId, I::InternedSubstitution>,
        Seq<char>,
    ) -> Option<Seq<char>>,
    pub quantified_where_clauses: spec_fn(I::InternedQuantifiedWhereClauses) -> Option<Seq<char>>,
}

/// The table of a host that has no rendering of its own for anything.
pub open spec fn no_answers<I: Interner>() -> Answers<I> {
    Answers {
        adt_id: |x: AdtId<I::InternedAdtId>| None,
        trait_id: |x: TraitId<I::DefId>| None,
        assoc_type_id: |x: AssocTypeId<I::DefId>| None,
        opaque_ty_id: |x: OpaqueTyId<I::DefId>| None,
        fn_def_id: |x: FnDefId<I::DefId>| None,
        alias: |x: AliasTy<I::DefId, I::InternedSubstitution>| None,
        projection_ty: |x: ProjectionTy<I::DefId, I::InternedSubstitution>| None,
        opaque_ty: |x: OpaqueTy<I::DefId, I::InternedSubstitution>| None,
        ty: |x: I::InternedType| None,
        lifetime: |x: I::InternedLifetime| None,
        constant: |x: I::InternedConst| None,
        generic_arg: |x: I::InternedGenericArg| None,
        variable_kinds: |x: I::InternedVariableKinds| None,
        variable_kinds_with_angles: |x: I::InternedVariableKinds| None,
        canonical_var_kinds: |x: I::InternedCanonicalVarKinds| None,
        goal: |x: I::InternedGoal| None,
        goals: |x: I::InternedGoals| None,
        program_clause_implication: |
            x: ProgramClauseImplication<
                I::DefId,
                I::InternedSubstitution,
                I::InternedType,
                I::InternedGoals,
            >,
        | None,
        program_clause: |x: I::InternedProgramClause| None,
        program_clauses: |x: I::InternedProgramClauses| None,
        application_ty: |x: ApplicationTy<I::DefId, I::InternedAdtId, I::InternedSubstitution>|
            None,
        substitution: |x: I::InternedSubstitution| None,
        separator_trait_ref: |x: TraitRef<I::DefId, I::InternedSubstitution>, separator: Seq<char>|
            None,
        quantified_where_clauses: |x: I::InternedQuantifiedWhereClauses| None,
    }
}

/// The text of an answer, if there is one.
pub open spec fn shown_text(shown: Option<String>) -> Option<Seq<char>> {
    match shown {
        Some(text) => Some(text@),
        None => None,
    }
}

/// The table agrees with the host: whatever a hook of the host can answer
/// is what the table holds for that hook and that term.
#[verifier::opaque]
pub open spec fn answers_of<I: Interner>(interner: I, answers: Answers<I>) -> bool {
    &&& forall|x: AdtId<I::InternedAdtId>, shown: Option<String>|
        call_ensures(I::debug_adt_id, (&interner, x), shown) ==> shown_text(shown) == (
        answers.adt_id)(x)
    &&& forall|x: TraitId<I::DefId>, shown: Option<String>|
        call_ensures(I::debug_trait_id, (&interner, x), shown) ==> shown_text(shown) == (
        answers.trait_id)(x)
    &&& forall|x: AssocTypeId<I::DefId>, shown: Option<String>|
        call_ensures(I::debug_assoc_type_id, (&interner, x), shown) ==> shown_text(shown) == (
        answers.assoc_type_id)(x)
    &&& forall|x: OpaqueTyId<I::DefId>, shown: Option<String>|
        call_ensures(I::debug_opaque_ty_id, (&interner, x), shown) ==> shown_text(shown) == (
        answers.opaque_ty_id)(x)
    &&& forall|x: FnDefId<I::DefId>, shown: Option<String>|
        call_ensures(I::debug_fn_def_id, (&interner, x), shown) ==> shown_text(shown) == (
        answers.fn_def_id)(x)
    &&& forall|x: AliasTy<I::DefId, I::InternedSubstitution>, shown: Option<String>|
        call_ensures(I::debug_alias, (&interner, &x), shown) ==> shown_text(shown) == (
        answers.alias)(x)
    &&& forall|x: ProjectionTy<I::DefId, I::InternedSubstitution>, shown: Option<String>|
        call_ensures(I::debug_projection_ty, (&interner, &x), shown) ==> shown_text(shown) == (
        answers.projection_ty)(x)
    &&& forall|x: OpaqueTy<I::DefId, I::InternedSubstitution>, shown: Option<String>|
        call_ensures(I::debug_opaque_ty, (&interner, &x), shown) ==> shown_text(shown) == (
        answers.opaque_ty)(x)
    &&& forall|x: I::InternedType, shown: Option<String>|
        call_ensures(I::debug_ty, (&interner, &x), shown) ==> shown_text(shown) == (answers.ty)(
            x,
        )
    &&& forall|x: I::InternedLifetime, shown: Option<String>|
        call_ensures(I::debug_lifetime, (&interner, &x), shown) ==> shown_text(shown) == (
        answers.lifetime)(x)
    &&& forall|x: I::InternedConst, shown: Option<String>|
        call_ensures(I::debug_const, (&interner, &x), shown) ==> shown_text(shown) == (
        answers.constant)(x)
    &&& forall|x: I::InternedGenericArg, shown: Option<String>|
        call_ensures(I::debug_generic_arg, (&interner, &x), shown) ==> shown_text(shown) == (
        answers.generic_arg)(x)
    &&& forall|x: I::InternedVariableKinds, shown: Option<String>|
        call_ensures(I::debug_variable_kinds, (&interner, &x), shown) ==> shown_text(shown) == (
        answers.variable_kinds)(x)
    &&& forall|x: I::InternedVariableKinds, shown: Option<String>|
        call_ensures(I::debug_variable_kinds_with_angles, (&interner, &x), shown) ==> shown_text(
            shown,
        ) == (answers.variable_kinds_with_angles)(x)
    &&& forall|x: I::InternedCanonicalVarKinds, shown: Option<String>|
        call_ensures(I::debug_canonical_var_kinds, (&interner, &x), shown) ==> shown_text(shown)
            == (answers.canonical_var_kinds)(x)
    &&& forall|x: I::InternedGoal, shown: Option<String>|
        call_ensures(I::debug_goal, (&interner, &x), shown) ==> shown_text(shown) == (
        answers.goal)(x)
    &&& forall|x: I::InternedGoals, shown: Option<String>|
        call_ensures(I::debug_goals, (&interner, &x), shown) ==> shown_text(shown) == (
        answers.goals)(x)
    &&& forall|
        x: ProgramClauseImplication<
            I::DefId,
            I::InternedSubstitution,
            I::InternedType,
            I::InternedGoals,
        >,
        shown: Option<String>,
    |
        call_ensures(I::debug_program_clause_implication, (&interner, &x), shown) ==> shown_text(
            shown,
        ) == (answers.program_clause_implication)(x)
    &&& forall|x: I::InternedProgramClause, shown: Option<String>|
        call_ensures(I::debug_program_clause, (&interner, &x), shown) ==> shown_text(shown) == (
        answers.program_clause)(x)
    &&& forall|x: I::InternedProgramClauses, shown: Option<String>|
        call_ensures(I::debug_program_clauses, (&interner, &x), shown) ==> shown_text(shown) == (
        answers.program_clauses)(x)
    &&& forall|
        x: ApplicationTy<I::DefId, I::InternedAdtId, I::InternedSubstitution>,
        shown: Option<String>,
    |
        call_ensures(I::debug_application_ty, (&interner, &x), shown) ==> shown_text(shown) == (
        answers.application_ty)(x)
    &&& forall|x: I::InternedSubstitution, shown: Option<String>|
        call_ensures(I::debug_substitution, (&interner, &x), shown) ==> shown_text(shown) == (
        answers.substitution)(x)
    &&& forall|x: SeparatorTraitRef<'_, I::DefId, I::InternedSubstitution>, shown: Option<String>|
        call_ensures(I::debug_separator_trait_ref, (&interner, &x), shown) ==> shown_text(shown)
            == (answers.separator_trait_ref)(*x.trait_ref, x.separator@)
    &&& forall|x: I::InternedQuantifiedWhereClauses, shown: Option<String>|
        call_ensures(I::debug_quantified_where_clauses, (&interner, &x), shown) ==> shown_text(
            shown,
        ) == (answers.quantified_where_clauses)(x)
}

/// The host has no rendering of its own for anything: whatever any of its
/// hooks is asked, it answers `None`.
pub open spec fn silent<I: Interner>(interner: I) -> bool {
    answers_of(interner, no_answers())
}

} // verus!
