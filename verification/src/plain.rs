//! The plain text of a term: what is written when the host has nothing of
//! its own to say. It shows the term as it is stored: variant by variant,
//! bound variables by depth and index, identifiers as the host numbers them.
//!
//! The pieces that no host has a say in are spelled out here. The text of
//! everything else is the written text for the table without answers.

use vstd::prelude::*;
use crate::answers::no_answers;
use crate::interner::ConstData;
use crate::interner::GenericArgData;
use crate::interner::GoalData;
use crate::interner::Interner;
use crate::interner::ProgramClauseData;
use crate::interner::QuantifiedWhereClause;
use crate::interner::TyData;
use crate::rank::WellFounded;
use crate::shapes::AdtId;
use crate::shapes::AliasEq;
use crate::shapes::AliasTy;
use crate::shapes::ApplicationTy;
use crate::shapes::AssocTypeId;
use crate::shapes::CanonicalVarKind;
use crate::shapes::ConstValue;
use crate::shapes::DomainGoal;
use crate::shapes::DynTy;
use crate::shapes::FnDefId;
use crate::shapes::FnSig;
use crate::shapes::LifetimeData;
use crate::shapes::OpaqueTy;
use crate::shapes::OpaqueTyId;
use crate::shapes::ProgramClauseImplication;
use crate::shapes::ProjectionTy;
use crate::shapes::TraitId;
use crate::shapes::TraitRef;
use crate::shapes::TypeName;
use crate::shapes::VariableKind;
use crate::shapes::WellFormed;
use crate::shapes::WhereClause;
use crate::text::decimal;
use crate::var::BoundVar;
use crate::var::FloatTy;
use crate::var::InferenceVar;
use crate::var::IntTy;
use crate::var::PlaceholderIndex;
use crate::var::QuantifierKind;
use crate::var::Scalar;
use crate::var::UintTy;
use crate::var::UniverseIndex;
use crate::written::adt_id_written;
use crate::written::alias_eq_written;
use crate::written::alias_written;
use crate::written::angle_written;
use crate::written::application_written;
use crate::written::args_joined_written;
use crate::written::assoc_type_id_written;
use crate::written::bounds_joined_written;
use crate::written::canonical_kinds_joined_written;
use crate::written::canonical_var_kind_written;
use crate::written::canonical_var_kinds_written;
use crate::written::clauses_joined_written;
use crate::written::const_data_written;
use crate::written::const_written;
use crate::written::domain_goal_written;
use crate::written::dyn_written;
use crate::written::fn_def_id_written;
use crate::written::fn_sig_written;
use crate::written::generic_arg_data_written;
use crate::written::generic_arg_written;
use crate::written::goal_data_written;
use crate::written::goal_written;
use crate::written::goals_joined_written;
use crate::written::goals_written;
use crate::written::implication_written;
use crate::written::kinds_joined_written;
use crate::written::lifetime_written;
use crate::written::opaque_ty_id_written;
use crate::written::opaque_ty_written;
use crate::written::program_clause_data_written;
use crate::written::program_clause_written;
use crate::written::program_clauses_written;
use crate::written::projection_written;
use crate::written::quantified_where_clause_written;
use crate::written::quantified_where_clauses_written;
use crate::written::separator_trait_ref_written;
use crate::written::substitution_written;
use crate::written::trait_id_written;
use crate::written::ty_data_written;
use crate::written::ty_written;
use crate::written::type_name_written;
use crate::written::variable_kind_written;
use crate::written::variable_kinds_with_angles_written;
use crate::written::variable_kinds_written;
use crate::written::well_formed_written;
use crate::written::where_clause_written;

verus! {

/// `^depth.index`
pub open spec fn bound_var_text(var: BoundVar) -> Seq<char> {
    seq!['^'] + decimal(var.debruijn.depth as nat) + seq!['.'] + decimal(var.index as nat)
}

/// `?index`
pub open spec fn inference_var_text(var: InferenceVar) -> Seq<char> {
    seq!['?'] + decimal(var.index as nat)
}

/// `!universe_index`
pub open spec fn placeholder_text(placeholder: PlaceholderIndex) -> Seq<char> {
    seq!['!'] + decimal(placeholder.ui.counter as nat) + seq!['_'] + decimal(
        placeholder.idx as nat,
    )
}

/// `Ucounter`
pub open spec fn universe_text(universe: UniverseIndex) -> Seq<char> {
    seq!['U'] + decimal(universe.counter as nat)
}

pub open spec fn quantifier_text(kind: QuantifierKind) -> Seq<char> {
    match kind {
        QuantifierKind::ForAll => "ForAll"@,
        QuantifierKind::Exists => "Exists"@,
    }
}

pub open spec fn scalar_text(scalar: Scalar) -> Seq<char> {
    match scalar {
        Scalar::Bool => "bool"@,
        Scalar::Char => "char"@,
        Scalar::Int(IntTy::Isize) => "isize"@,
        Scalar::Int(IntTy::I8) => "i8"@,
        Scalar::Int(IntTy::I16) => "i16"@,
        Scalar::Int(IntTy::I32) => "i32"@,
        Scalar::Int(IntTy::I64) => "i64"@,
        Scalar::Int(IntTy::I128) => "i128"@,
        Scalar::Uint(UintTy::Usize) => "usize"@,
        Scalar::Uint(UintTy::U8) => "u8"@,
        Scalar::Uint(UintTy::U16) => "u16"@,
        Scalar::Uint(UintTy::U32) => "u32"@,
        Scalar::Uint(UintTy::U64) => "u64"@,
        Scalar::Uint(UintTy::U128) => "u128"@,
        Scalar::Float(FloatTy::F32) => "f32"@,
        Scalar::Float(FloatTy::F64) => "f64"@,
    }
}

/// A lifetime starts with `'`, whatever follows.
pub open spec fn lifetime_data_text(data: LifetimeData) -> Seq<char> {
    match data {
        LifetimeData::BoundVar(var) => seq!['\''] + bound_var_text(var),
        LifetimeData::InferenceVar(var) => seq!['\''] + inference_var_text(var),
        LifetimeData::Placeholder(placeholder) => seq!['\''] + placeholder_text(placeholder),
        LifetimeData::Static => "'static"@,
        LifetimeData::Error => "'{error}"@,
    }
}

/// The lifetime under a handle: a tick and what follows it.
pub open spec fn lifetime_text<I: Interner>(interner: I, lifetime: I::InternedLifetime) -> Seq<char> {
    lifetime_written(interner, no_answers(), lifetime)
}

/// `AdtId(..)` around the identifier as the host numbers it.
pub open spec fn adt_id_plain<I: Interner>(interner: I, id: AdtId<I::InternedAdtId>) -> Seq<char> {
    adt_id_written(interner, no_answers(), id)
}

/// `TraitId(..)` around the identifier as the host numbers it.
pub open spec fn trait_id_plain<I: Interner>(interner: I, id: TraitId<I::DefId>) -> Seq<char> {
    trait_id_written(interner, no_answers(), id)
}

/// `AssocTypeId(..)` around the identifier as the host numbers it.
pub open spec fn assoc_type_id_plain<I: Interner>(interner: I, id: AssocTypeId<I::DefId>) -> Seq<char> {
    assoc_type_id_written(interner, no_answers(), id)
}

/// `OpaqueTyId(..)` around the identifier as the host numbers it.
pub open spec fn opaque_ty_id_plain<I: Interner>(interner: I, id: OpaqueTyId<I::DefId>) -> Seq<char> {
    opaque_ty_id_written(interner, no_answers(), id)
}

/// `FnDefId(..)` around the identifier as the host numbers it.
pub open spec fn fn_def_id_plain<I: Interner>(interner: I, id: FnDefId<I::DefId>) -> Seq<char> {
    fn_def_id_written(interner, no_answers(), id)
}

/// What a type application applies.
pub open spec fn type_name_text<I: Interner>(
    interner: I,
    name: TypeName<I::DefId, I::InternedAdtId>,
) -> Seq<char> {
    type_name_written(interner, no_answers(), name)
}

/// The type under a handle.
pub open spec fn ty_text<I: WellFounded>(interner: I, ty: I::InternedType) -> Seq<char> {
    ty_written(interner, no_answers(), ty)
}

/// The shape of a type, variant by variant.
pub open spec fn ty_data_text<I: WellFounded>(interner: I, data: TyData<I>) -> Seq<char> {
    ty_data_written(interner, no_answers(), data)
}

/// `Name<arg, arg>`, without the brackets where there is no argument.
pub open spec fn application_text<I: WellFounded>(
    interner: I,
    application: ApplicationTy<I::DefId, I::InternedAdtId, I::InternedSubstitution>,
) -> Seq<char> {
    application_written(interner, no_answers(), application)
}

/// `(AssocTypeId(..)<arg, arg>)`
pub open spec fn projection_text<I: WellFounded>(
    interner: I,
    projection: ProjectionTy<I::DefId, I::InternedSubstitution>,
) -> Seq<char> {
    projection_written(interner, no_answers(), projection)
}

/// `(OpaqueTyId(..)<arg, arg>)`
pub open spec fn opaque_ty_text<I: WellFounded>(
    interner: I,
    opaque: OpaqueTy<I::DefId, I::InternedSubstitution>,
) -> Seq<char> {
    opaque_ty_written(interner, no_answers(), opaque)
}

/// An alias, as the reference or the use that it is.
pub open spec fn alias_text<I: WellFounded>(
    interner: I,
    alias: AliasTy<I::DefId, I::InternedSubstitution>,
) -> Seq<char> {
    alias_written(interner, no_answers(), alias)
}

/// `dyn for<kinds> [bound, bound]`
pub open spec fn dyn_text<I: WellFounded>(
    interner: I,
    dyn_ty: DynTy<I::InternedVariableKinds, I::InternedQuantifiedWhereClauses>,
) -> Seq<char> {
    dyn_written(interner, no_answers(), dyn_ty)
}

/// `for<n> [arg, arg]`
pub open spec fn fn_sig_text<I: WellFounded>(
    interner: I,
    sig: FnSig<I::InternedSubstitution>,
) -> Seq<char> {
    fn_sig_written(interner, no_answers(), sig)
}

/// The constant under a handle.
pub open spec fn const_text<I: WellFounded>(interner: I, constant: I::InternedConst) -> Seq<char> {
    const_written(interner, no_answers(), constant)
}

pub open spec fn const_value_text<I: Interner>(
    interner: I,
    value: ConstValue<I::InternedConcreteConst>,
) -> Seq<char> {
    match value {
        ConstValue::Concrete(concrete) => interner.concrete_const_text(&concrete),
        ConstValue::BoundVar(var) => bound_var_text(var),
        ConstValue::Placeholder(placeholder) => placeholder_text(placeholder),
        ConstValue::InferenceVar(var) => inference_var_text(var),
    }
}

/// `value: type`
pub open spec fn const_data_text<I: WellFounded>(interner: I, data: ConstData<I>) -> Seq<char> {
    const_data_written(interner, no_answers(), data)
}

/// The argument under a handle.
pub open spec fn generic_arg_text<I: WellFounded>(
    interner: I,
    arg: I::InternedGenericArg,
) -> Seq<char> {
    generic_arg_written(interner, no_answers(), arg)
}

/// An argument, as the type, lifetime or constant that it holds.
pub open spec fn generic_arg_data_text<I: WellFounded>(
    interner: I,
    data: GenericArgData<I>,
) -> Seq<char> {
    generic_arg_data_written(interner, no_answers(), data)
}

/// The arguments from `from` up to `to`, with `, ` between them.
pub open spec fn args_joined<I: WellFounded>(
    interner: I,
    substitution: I::InternedSubstitution,
    from: nat,
    to: nat,
) -> Seq<char> {
    args_joined_written(interner, no_answers(), substitution, from, to)
}

/// `<arg, arg>` for the arguments from `from` on, and nothing where there
/// is none.
pub open spec fn angle_text<I: WellFounded>(
    interner: I,
    substitution: I::InternedSubstitution,
    from: nat,
) -> Seq<char> {
    angle_written(interner, no_answers(), substitution, from)
}

/// `[arg, arg]`
pub open spec fn substitution_text<I: WellFounded>(
    interner: I,
    substitution: I::InternedSubstitution,
) -> Seq<char> {
    substitution_written(interner, no_answers(), substitution)
}

/// `type`, `lifetime` or `const: type`
pub open spec fn variable_kind_text<I: WellFounded>(
    interner: I,
    kind: VariableKind<I::InternedType>,
) -> Seq<char> {
    variable_kind_written(interner, no_answers(), kind)
}

/// The first `n` kinds, with `, ` between them.
pub open spec fn kinds_joined<I: WellFounded>(
    interner: I,
    kinds: I::InternedVariableKinds,
    n: nat,
) -> Seq<char> {
    kinds_joined_written(interner, no_answers(), kinds, n)
}

/// `[kind, kind]`
pub open spec fn variable_kinds_text<I: WellFounded>(
    interner: I,
    kinds: I::InternedVariableKinds,
) -> Seq<char> {
    variable_kinds_written(interner, no_answers(), kinds)
}

/// `<kind, kind>`
pub open spec fn variable_kinds_with_angles_text<I: WellFounded>(
    interner: I,
    kinds: I::InternedVariableKinds,
) -> Seq<char> {
    variable_kinds_with_angles_written(interner, no_answers(), kinds)
}

/// `Self: Trait<arg, arg>`, with `separator` for the `: `.
pub open spec fn separator_trait_ref_text<I: WellFounded>(
    interner: I,
    trait_ref: TraitRef<I::DefId, I::InternedSubstitution>,
    separator: Seq<char>,
) -> Seq<char> {
    separator_trait_ref_written(interner, no_answers(), trait_ref, separator)
}

/// `AliasEq(alias = type)`
pub open spec fn alias_eq_text<I: WellFounded>(
    interner: I,
    alias_eq: AliasEq<I::DefId, I::InternedSubstitution, I::InternedType>,
) -> Seq<char> {
    alias_eq_written(interner, no_answers(), alias_eq)
}

/// `Implemented(Self: Trait<args>)` or `AliasEq(alias = type)`
pub open spec fn where_clause_text<I: WellFounded>(
    interner: I,
    clause: WhereClause<I::DefId, I::InternedSubstitution, I::InternedType>,
) -> Seq<char> {
    where_clause_written(interner, no_answers(), clause)
}

/// `for<kinds> clause`
pub open spec fn quantified_where_clause_text<I: WellFounded>(
    interner: I,
    clause: QuantifiedWhereClause<I>,
) -> Seq<char> {
    quantified_where_clause_written(interner, no_answers(), clause)
}

/// The first `n` clauses, with `, ` between them.
pub open spec fn bounds_joined<I: WellFounded>(
    interner: I,
    clauses: I::InternedQuantifiedWhereClauses,
    n: nat,
) -> Seq<char> {
    bounds_joined_written(interner, no_answers(), clauses, n)
}

/// `[clause, clause]`
pub open spec fn quantified_where_clauses_text<I: WellFounded>(
    interner: I,
    clauses: I::InternedQuantifiedWhereClauses,
) -> Seq<char> {
    quantified_where_clauses_written(interner, no_answers(), clauses)
}

/// `WellFormed(Self: Trait<args>)` or `WellFormed(type)`
pub open spec fn well_formed_text<I: WellFounded>(
    interner: I,
    well_formed: WellFormed<I::DefId, I::InternedSubstitution, I::InternedType>,
) -> Seq<char> {
    well_formed_written(interner, no_answers(), well_formed)
}

/// A goal about the program's declarations.
pub open spec fn domain_goal_text<I: WellFounded>(
    interner: I,
    goal: DomainGoal<I::DefId, I::InternedSubstitution, I::InternedType>,
) -> Seq<char> {
    domain_goal_written(interner, no_answers(), goal)
}

/// `Uuniverse with kind`
pub open spec fn canonical_var_kind_text<I: WellFounded>(
    interner: I,
    kind: CanonicalVarKind<I::InternedType>,
) -> Seq<char> {
    canonical_var_kind_written(interner, no_answers(), kind)
}

/// The first `n` kinds, with `, ` between them.
pub open spec fn canonical_kinds_joined<I: WellFounded>(
    interner: I,
    kinds: I::InternedCanonicalVarKinds,
    n: nat,
) -> Seq<char> {
    canonical_kinds_joined_written(interner, no_answers(), kinds, n)
}

/// `[Uuniverse with kind, Uuniverse with kind]`
pub open spec fn canonical_var_kinds_text<I: WellFounded>(
    interner: I,
    kinds: I::InternedCanonicalVarKinds,
) -> Seq<char> {
    canonical_var_kinds_written(interner, no_answers(), kinds)
}

/// The goal under a handle.
pub open spec fn goal_text<I: WellFounded>(interner: I, goal: I::InternedGoal) -> Seq<char> {
    goal_written(interner, no_answers(), goal)
}

/// The shape of a goal, variant by variant.
pub open spec fn goal_data_text<I: WellFounded>(interner: I, data: GoalData<I>) -> Seq<char> {
    goal_data_written(interner, no_answers(), data)
}

/// The first `n` goals, with `, ` between them.
pub open spec fn goals_joined<I: WellFounded>(
    interner: I,
    goals: I::InternedGoals,
    n: nat,
) -> Seq<char> {
    goals_joined_written(interner, no_answers(), goals, n)
}

/// `(goal, goal)`
pub open spec fn goals_text<I: WellFounded>(interner: I, goals: I::InternedGoals) -> Seq<char> {
    goals_written(interner, no_answers(), goals)
}

/// `consequence :- condition, condition`, and the consequence alone where
/// nothing is asked.
pub open spec fn implication_text<I: WellFounded>(
    interner: I,
    implication: ProgramClauseImplication<
        I::DefId,
        I::InternedSubstitution,
        I::InternedType,
        I::InternedGoals,
    >,
) -> Seq<char> {
    implication_written(interner, no_answers(), implication)
}

/// The clause under a handle.
pub open spec fn program_clause_text<I: WellFounded>(
    interner: I,
    clause: I::InternedProgramClause,
) -> Seq<char> {
    program_clause_written(interner, no_answers(), clause)
}

/// An implication, with `for<kinds> ` before it where it is under a binder.
pub open spec fn program_clause_data_text<I: WellFounded>(
    interner: I,
    data: ProgramClauseData<I>,
) -> Seq<char> {
    program_clause_data_written(interner, no_answers(), data)
}

/// The first `n` clauses, with `, ` between them.
pub open spec fn clauses_joined<I: WellFounded>(
    interner: I,
    clauses: I::InternedProgramClauses,
    n: nat,
) -> Seq<char> {
    clauses_joined_written(interner, no_answers(), clauses, n)
}

/// `[clause, clause]`
pub open spec fn program_clauses_text<I: WellFounded>(
    interner: I,
    clauses: I::InternedProgramClauses,
) -> Seq<char> {
    program_clauses_written(interner, no_answers(), clauses)
}

} // verus!
