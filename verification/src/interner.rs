//! What a host has to provide: a handle type for every kind of term, and
//! the two directions between a handle and the shape it stands for.

use std::fmt::Debug;
use std::hash::Hash;
use vstd::prelude::*;
use vstd::std_specs::iter::IteratorSpec;
use crate::collect::gathered;
pub use crate::has_interner::HasInterner;
use crate::shapes::AdtId;
use crate::shapes::AliasTy;
use crate::shapes::ApplicationTy;
use crate::shapes::AssocTypeId;
use crate::shapes::Binders;
use crate::shapes::CanonicalVarKind;
use crate::shapes::ConstShape;
use crate::shapes::FnDefId;
use crate::shapes::GenericArgShape;
use crate::shapes::GoalShape;
use crate::shapes::LifetimeData;
use crate::shapes::OpaqueTy;
use crate::shapes::OpaqueTyId;
use crate::shapes::ProgramClauseImplication;
use crate::shapes::ProgramClauseShape;
use crate::shapes::ProjectionTy;
use crate::shapes::SeparatorTraitRef;
use crate::shapes::TraitId;
use crate::shapes::TyShape;
use crate::shapes::VariableKind;
use crate::shapes::WhereClause;
pub use crate::transfer::TargetInterner;

verus! {

/// The shape of a type, over the handles of the host `I`.
pub type TyData<I> = TyShape<
    <I as Interner>::DefId,
    <I as Interner>::InternedAdtId,
    <I as Interner>::InternedSubstitution,
    <I as Interner>::InternedVariableKinds,
    <I as Interner>::InternedQuantifiedWhereClauses,
>;

/// The shape of a constant, over the handles of the host `I`.
pub type ConstData<I> = ConstShape<
    <I as Interner>::InternedType,
    <I as Interner>::InternedConcreteConst,
>;

/// The shape of a generic argument, over the handles of the host `I`.
pub type GenericArgData<I> = GenericArgShape<
    <I as Interner>::InternedType,
    <I as Interner>::InternedLifetime,
    <I as Interner>::InternedConst,
>;

/// The shape of a goal, over the handles of the host `I`.
pub type GoalData<I> = GoalShape<
    <I as Interner>::DefId,
    <I as Interner>::InternedSubstitution,
    <I as Interner>::InternedType,
    <I as Interner>::InternedVariableKinds,
    <I as Interner>::InternedGoal,
    <I as Interner>::InternedGoals,
    <I as Interner>::InternedProgramClauses,
>;

/// The shape of a program clause, over the handles of the host `I`.
pub type ProgramClauseData<I> = ProgramClauseShape<
    <I as Interner>::DefId,
    <I as Interner>::InternedSubstitution,
    <I as Interner>::InternedType,
    <I as Interner>::InternedVariableKinds,
    <I as Interner>::InternedGoals,
>;

/// A where clause under its binder, over the handles of the host `I`.
pub type QuantifiedWhereClause<I> = Binders<
    <I as Interner>::InternedVariableKinds,
    WhereClause<
        <I as Interner>::DefId,
        <I as Interner>::InternedSubstitution,
        <I as Interner>::InternedType,
    >,
>;

/// One way of storing terms. A host picks a handle type for each kind of
/// term; `intern_*` makes a handle from a shape and `*_data` gives the shape
/// back. Terms are values: a handle never changes what it stands for, and
/// two handles are equal exactly when they stand for equal shapes.
///
/// Each `*_shape` function is the mathematical content of a handle. Each
/// `*_rank` function measures how deep the term under a handle goes.
pub trait Interner: Debug + Copy + Eq + Ord + Hash {
    type InternedType: Debug + Clone + Eq + Hash;

    type InternedLifetime: Debug + Clone + Eq + Hash;

    type InternedConst: Debug + Clone + Eq + Hash;

    /// An evaluated constant. The engine never builds one: it only asks
    /// the host whether two of them are equal.
    type InternedConcreteConst: Debug + Clone + Eq + Hash;

    type InternedGenericArg: Debug + Clone + Eq + Hash;

    type InternedGoal: Debug + Clone + Eq + Hash;

    type InternedGoals: Debug + Clone + Eq + Hash;

    type InternedSubstitution: Debug + Clone + Eq + Hash;

    type InternedProgramClauses: Debug + Clone + Eq + Hash;

    type InternedProgramClause: Debug + Clone + Eq + Hash;

    type InternedQuantifiedWhereClauses: Debug + Clone + Eq + Hash;

    type InternedVariableKinds: Debug + Clone + Eq + Hash;

    type InternedCanonicalVarKinds: Debug + Clone + Eq + Hash;

    /// Identifier of a trait, an impl, a function or an associated item.
    type DefId: Debug + Copy + Eq + Ord + Hash;

    /// Identifier of a struct or enum.
    type InternedAdtId: Debug + Copy + Eq + Ord + Hash;

    /// A name, used in diagnostics only.
    type Identifier: Debug + Clone + Eq + Hash;

    spec fn ty_shape(&self, ty: &Self::InternedType) -> TyData<Self>;

    spec fn lifetime_shape(&self, lifetime: &Self::InternedLifetime) -> LifetimeData;

    spec fn const_shape(&self, constant: &Self::InternedConst) -> ConstData<Self>;

    spec fn generic_arg_shape(&self, arg: &Self::InternedGenericArg) -> GenericArgData<Self>;

    spec fn goal_shape(&self, goal: &Self::InternedGoal) -> GoalData<Self>;

    spec fn goals_shape(&self, goals: &Self::InternedGoals) -> Seq<Self::InternedGoal>;

    spec fn substitution_shape(&self, substitution: &Self::InternedSubstitution) -> Seq<
        Self::InternedGenericArg,
    >;

    spec fn program_clause_shape(&self, clause: &Self::InternedProgramClause) -> ProgramClauseData<
        Self,
    >;

    spec fn program_clauses_shape(&self, clauses: &Self::InternedProgramClauses) -> Seq<
        Self::InternedProgramClause,
    >;

    spec fn quantified_where_clauses_shape(
        &self,
        clauses: &Self::InternedQuantifiedWhereClauses,
    ) -> Seq<QuantifiedWhereClause<Self>>;

    spec fn variable_kinds_shape(&self, kinds: &Self::InternedVariableKinds) -> Seq<
        VariableKind<Self::InternedType>,
    >;

    spec fn canonical_var_kinds_shape(&self, kinds: &Self::InternedCanonicalVarKinds) -> Seq<
        CanonicalVarKind<Self::InternedType>,
    >;

    /// Whether `ty` is a handle that this host has made for a type.
    /// Every handle that a program holds is one.
    spec fn ty_made(&self, ty: &Self::InternedType) -> bool;

    /// Whether `lifetime` is a handle that this host has made for a lifetime.
    /// Every handle that a program holds is one.
    spec fn lifetime_made(&self, lifetime: &Self::InternedLifetime) -> bool;

    /// Whether `constant` is a handle that this host has made for a constant.
    /// Every handle that a program holds is one.
    spec fn const_made(&self, constant: &Self::InternedConst) -> bool;

    /// Whether `arg` is a handle that this host has made for a generic
    /// argument. Every handle that a program holds is one.
    spec fn generic_arg_made(&self, arg: &Self::InternedGenericArg) -> bool;

    /// Whether `goal` is a handle that this host has made for a goal.
    /// Every handle that a program holds is one.
    spec fn goal_made(&self, goal: &Self::InternedGoal) -> bool;

    /// Whether `clause` is a handle that this host has made for a program
    /// clause. Every handle that a program holds is one.
    spec fn program_clause_made(&self, clause: &Self::InternedProgramClause) -> bool;

    spec fn ty_rank(&self, ty: &Self::InternedType) -> nat;

    spec fn const_rank(&self, constant: &Self::InternedConst) -> nat;

    spec fn generic_arg_rank(&self, arg: &Self::InternedGenericArg) -> nat;

    spec fn goal_rank(&self, goal: &Self::InternedGoal) -> nat;

    spec fn goals_rank(&self, goals: &Self::InternedGoals) -> nat;

    spec fn substitution_rank(&self, substitution: &Self::InternedSubstitution) -> nat;

    spec fn program_clause_rank(&self, clause: &Self::InternedProgramClause) -> nat;

    spec fn program_clauses_rank(&self, clauses: &Self::InternedProgramClauses) -> nat;

    spec fn quantified_where_clauses_rank(
        &self,
        clauses: &Self::InternedQuantifiedWhereClauses,
    ) -> nat;

    spec fn variable_kinds_rank(&self, kinds: &Self::InternedVariableKinds) -> nat;

    spec fn canonical_var_kinds_rank(&self, kinds: &Self::InternedCanonicalVarKinds) -> nat;

    /// Whether the host takes two evaluated constants of type `ty` to be
    /// the same value.
    spec fn consts_equal(
        &self,
        ty: &Self::InternedType,
        c1: &Self::InternedConcreteConst,
        c2: &Self::InternedConcreteConst,
    ) -> bool;

    /// Comparing evaluated constants of one type is an equivalence.
    proof fn lemma_consts_equal_is_equivalence(
        &self,
        ty: &Self::InternedType,
        c1: &Self::InternedConcreteConst,
        c2: &Self::InternedConcreteConst,
        c3: &Self::InternedConcreteConst,
    )
        ensures
            self.consts_equal(ty, c1, c1),
            self.consts_equal(ty, c1, c2) ==> self.consts_equal(ty, c2, c1),
            self.consts_equal(ty, c1, c2) && self.consts_equal(ty, c2, c3) ==> self.consts_equal(
                ty,
                c1,
                c3,
            ),
    ;

    /// A copy of an evaluated constant, made by `clone`, is the same value.
    proof fn lemma_concrete_const_clone(
        &self,
        value: Self::InternedConcreteConst,
        copy: Self::InternedConcreteConst,
    )
        requires
            cloned::<Self::InternedConcreteConst>(value, copy),
        ensures
            copy == value,
    ;

    /// Two handles that the host has made for types are equal exactly
    /// when they stand for equal shapes.
    proof fn lemma_ty_handles_agree(&self, a: &Self::InternedType, b: &Self::InternedType)
        requires
            self.ty_made(a),
            self.ty_made(b),
        ensures
            (a == b) <==> (self.ty_shape(a) == self.ty_shape(b)),
    ;

    /// Two handles that the host has made for lifetimes are equal exactly
    /// when they stand for equal shapes.
    proof fn lemma_lifetime_handles_agree(
        &self,
        a: &Self::InternedLifetime,
        b: &Self::InternedLifetime,
    )
        requires
            self.lifetime_made(a),
            self.lifetime_made(b),
        ensures
            (a == b) <==> (self.lifetime_shape(a) == self.lifetime_shape(b)),
    ;

    /// Two handles that the host has made for constants are equal exactly
    /// when they stand for equal shapes.
    proof fn lemma_const_handles_agree(&self, a: &Self::InternedConst, b: &Self::InternedConst)
        requires
            self.const_made(a),
            self.const_made(b),
        ensures
            (a == b) <==> (self.const_shape(a) == self.const_shape(b)),
    ;

    /// Two handles that the host has made for generic arguments are equal
    /// exactly when they stand for equal shapes.
    proof fn lemma_generic_arg_handles_agree(
        &self,
        a: &Self::InternedGenericArg,
        b: &Self::InternedGenericArg,
    )
        requires
            self.generic_arg_made(a),
            self.generic_arg_made(b),
        ensures
            (a == b) <==> (self.generic_arg_shape(a) == self.generic_arg_shape(b)),
    ;

    /// Two handles that the host has made for goals are equal exactly
    /// when they stand for equal shapes.
    proof fn lemma_goal_handles_agree(&self, a: &Self::InternedGoal, b: &Self::InternedGoal)
        requires
            self.goal_made(a),
            self.goal_made(b),
        ensures
            (a == b) <==> (self.goal_shape(a) == self.goal_shape(b)),
    ;

    /// Two handles that the host has made for program clauses are equal exactly
    /// when they stand for equal shapes.
    proof fn lemma_program_clause_handles_agree(
        &self,
        a: &Self::InternedProgramClause,
        b: &Self::InternedProgramClause,
    )
        requires
            self.program_clause_made(a),
            self.program_clause_made(b),
        ensures
            (a == b) <==> (self.program_clause_shape(a) == self.program_clause_shape(b)),
    ;

    /// Makes a handle for a type. The shape is stored as it is given,
    /// neither merged with another nor simplified.
    fn intern_ty(&self, ty: TyData<Self>) -> (handle: Self::InternedType)
        ensures
            self.ty_made(&handle),
            self.ty_shape(&handle) == ty,
    ;

    /// The shape that a type handle was made from.
    fn ty_data<'a>(&self, ty: &'a Self::InternedType) -> (data: &'a TyData<Self>)
        ensures
            *data == self.ty_shape(ty),
    ;

    /// Makes a handle for a lifetime.
    fn intern_lifetime(&self, lifetime: LifetimeData) -> (handle: Self::InternedLifetime)
        ensures
            self.lifetime_made(&handle),
            self.lifetime_shape(&handle) == lifetime,
    ;

    /// The shape that a lifetime handle was made from.
    fn lifetime_data<'a>(&self, lifetime: &'a Self::InternedLifetime) -> (data: &'a LifetimeData)
        ensures
            *data == self.lifetime_shape(lifetime),
    ;

    /// Makes a handle for a constant.
    fn intern_const(&self, constant: ConstData<Self>) -> (handle: Self::InternedConst)
        ensures
            self.const_made(&handle),
            self.const_shape(&handle) == constant,
    ;

    /// The shape that a constant's handle was made from.
    fn const_data<'a>(&self, constant: &'a Self::InternedConst) -> (data: &'a ConstData<Self>)
        ensures
            *data == self.const_shape(constant),
    ;

    /// Asks the host whether two evaluated constants of type `ty` are the
    /// same value.
    fn const_eq(
        &self,
        ty: &Self::InternedType,
        c1: &Self::InternedConcreteConst,
        c2: &Self::InternedConcreteConst,
    ) -> (same: bool)
        ensures
            same == self.consts_equal(ty, c1, c2),
    ;

    /// Makes a handle for a generic argument.
    fn intern_generic_arg(&self, data: GenericArgData<Self>) -> (handle: Self::InternedGenericArg)
        ensures
            self.generic_arg_made(&handle),
            self.generic_arg_shape(&handle) == data,
    ;

    /// The shape that an argument's handle was made from.
    fn generic_arg_data<'a>(&self, arg: &'a Self::InternedGenericArg) -> (data: &'a GenericArgData<
        Self,
    >)
        ensures
            *data == self.generic_arg_shape(arg),
    ;

    /// Makes a handle for a goal.
    fn intern_goal(&self, data: GoalData<Self>) -> (handle: Self::InternedGoal)
        ensures
            self.goal_made(&handle),
            self.goal_shape(&handle) == data,
    ;

    /// The shape that a goal's handle was made from.
    fn goal_data<'a>(&self, goal: &'a Self::InternedGoal) -> (data: &'a GoalData<Self>)
        ensures
            *data == self.goal_shape(goal),
    ;

    /// Makes a handle for a list of goals that is produced one by one. The
    /// first goal that fails to be produced ends the call with its error,
    /// and no handle is made; otherwise the handle stands for all the
    /// goals, in order.
    fn intern_goals<E, It: Iterator<Item = Result<Self::InternedGoal, E>>>(&self, data: It) -> (out:
        Result<Self::InternedGoals, E>)
        requires
            data.obeys_prophetic_iter_laws(),
            data.decrease() is Some,
        ensures
            match gathered(data.remaining()) {
                Ok(items) => out is Ok && self.goals_shape(&out->Ok_0) == items,
                Err(e) => out == Err::<Self::InternedGoals, E>(e),
            },
    ;

    /// The goals that a list handle was made from.
    fn goals_data<'a>(&self, goals: &'a Self::InternedGoals) -> (items: &'a [Self::InternedGoal])
        ensures
            items@ == self.goals_shape(goals),
    ;

    /// Makes a handle for a substitution whose arguments are produced one
    /// by one. The first failure ends the call with its error, and no
    /// handle is made; otherwise the handle stands for all the arguments,
    /// in order.
    fn intern_substitution<E, It: Iterator<Item = Result<Self::InternedGenericArg, E>>>(
        &self,
        data: It,
    ) -> (out: Result<Self::InternedSubstitution, E>)
        requires
            data.obeys_prophetic_iter_laws(),
            data.decrease() is Some,
        ensures
            match gathered(data.remaining()) {
                Ok(items) => out is Ok && self.substitution_shape(&out->Ok_0) == items,
                Err(e) => out == Err::<Self::InternedSubstitution, E>(e),
            },
    ;

    /// The arguments that a substitution was made from. Their number is
    /// the arity that a binder is matched against.
    fn substitution_data<'a>(&self, substitution: &'a Self::InternedSubstitution) -> (items: &'a [
        Self::InternedGenericArg
    ])
        ensures
            items@ == self.substitution_shape(substitution),
    ;

    /// Makes a handle for a program clause.
    fn intern_program_clause(&self, data: ProgramClauseData<Self>) -> (handle:
        Self::InternedProgramClause)
        ensures
            self.program_clause_made(&handle),
            self.program_clause_shape(&handle) == data,
    ;

    /// The shape that a clause's handle was made from.
    fn program_clause_data<'a>(&self, clause: &'a Self::InternedProgramClause) -> (data:
        &'a ProgramClauseData<Self>)
        ensures
            *data == self.program_clause_shape(clause),
    ;

    /// Makes a handle for a list of program clauses that is produced one
    /// by one; on the first failure, its error and no handle.
    fn intern_program_clauses<E, It: Iterator<Item = Result<Self::InternedProgramClause, E>>>(
        &self,
        data: It,
    ) -> (out: Result<Self::InternedProgramClauses, E>)
        requires
            data.obeys_prophetic_iter_laws(),
            data.decrease() is Some,
        ensures
            match gathered(data.remaining()) {
                Ok(items) => out is Ok && self.program_clauses_shape(&out->Ok_0) == items,
                Err(e) => out == Err::<Self::InternedProgramClauses, E>(e),
            },
    ;

    /// The clauses that a list handle was made from.
    fn program_clauses_data<'a>(&self, clauses: &'a Self::InternedProgramClauses) -> (items: &'a [
        Self::InternedProgramClause
    ])
        ensures
            items@ == self.program_clauses_shape(clauses),
    ;

    /// Makes a handle for a list of quantified where clauses that is
    /// produced one by one; on the first failure, its error and no handle.
    fn intern_quantified_where_clauses<
        E,
        It: Iterator<Item = Result<QuantifiedWhereClause<Self>, E>>,
    >(&self, data: It) -> (out: Result<Self::InternedQuantifiedWhereClauses, E>)
        requires
            data.obeys_prophetic_iter_laws(),
            data.decrease() is Some,
        ensures
            match gathered(data.remaining()) {
                Ok(items) => out is Ok && self.quantified_where_clauses_shape(&out->Ok_0) == items,
                Err(e) => out == Err::<Self::InternedQuantifiedWhereClauses, E>(e),
            },
    ;

    /// The clauses that a list handle was made from.
    fn quantified_where_clauses_data<'a>(
        &self,
        clauses: &'a Self::InternedQuantifiedWhereClauses,
    ) -> (items: &'a [QuantifiedWhereClause<Self>])
        ensures
            items@ == self.quantified_where_clauses_shape(clauses),
    ;

    /// Makes a handle for the parameter kinds of a binder, produced one by
    /// one; on the first failure, its error and no handle.
    fn intern_generic_arg_kinds<
        E,
        It: Iterator<Item = Result<VariableKind<Self::InternedType>, E>>,
    >(
        &self,
        data: It,
    ) -> (out: Result<Self::InternedVariableKinds, E>)
        requires
            data.obeys_prophetic_iter_laws(),
            data.decrease() is Some,
        ensures
            match gathered(data.remaining()) {
                Ok(items) => out is Ok && self.variable_kinds_shape(&out->Ok_0) == items,
                Err(e) => out == Err::<Self::InternedVariableKinds, E>(e),
            },
    ;

    /// The parameter kinds that a binder declares. Their number is the
    /// binder's arity.
    fn variable_kinds_data<'a>(&self, kinds: &'a Self::InternedVariableKinds) -> (items: &'a [
        VariableKind<Self::InternedType>
    ])
        ensures
            items@ == self.variable_kinds_shape(kinds),
    ;

    /// Makes a handle for the variable kinds of a canonical term, each
    /// with its universe, produced one by one; on the first failure, its
    /// error and no handle.
    fn intern_canonical_var_kinds<
        E,
        It: Iterator<Item = Result<CanonicalVarKind<Self::InternedType>, E>>,
    >(&self, data: It) -> (out: Result<Self::InternedCanonicalVarKinds, E>)
        requires
            data.obeys_prophetic_iter_laws(),
            data.decrease() is Some,
        ensures
            match gathered(data.remaining()) {
                Ok(items) => out is Ok && self.canonical_var_kinds_shape(&out->Ok_0) == items,
                Err(e) => out == Err::<Self::InternedCanonicalVarKinds, E>(e),
            },
    ;

    /// The variable kinds that a canonical term declares.
    fn canonical_var_kinds_data<'a>(&self, kinds: &'a Self::InternedCanonicalVarKinds) -> (items:
        &'a [CanonicalVarKind<Self::InternedType>])
        ensures
            items@ == self.canonical_var_kinds_shape(kinds),
    ;
    /// How the host writes a definition identifier when nothing names it.
    spec fn def_id_text(&self, id: Self::DefId) -> Seq<char>;

    /// How the host writes an ADT identifier when nothing names it.
    spec fn adt_id_text(&self, id: Self::InternedAdtId) -> Seq<char>;

    /// How the host writes an evaluated constant.
    spec fn concrete_const_text(&self, value: &Self::InternedConcreteConst) -> Seq<char>;

    /// Writes a definition identifier as it is, without looking anything up.
    fn show_def_id(&self, id: Self::DefId) -> (text: String)
        ensures
            text@ == self.def_id_text(id),
    ;

    /// Writes an ADT identifier as it is, without looking anything up.
    fn show_adt_id(&self, id: Self::InternedAdtId) -> (text: String)
        ensures
            text@ == self.adt_id_text(id),
    ;

    /// Writes an evaluated constant.
    fn show_concrete_const(&self, value: &Self::InternedConcreteConst) -> (text: String)
        ensures
            text@ == self.concrete_const_text(value),
    ;

    /// The host's own rendering of the identifier of a struct or enum, or
    /// `None` where the host has none and the plain rendering is to be used.
    /// Unless a host says otherwise, it has none.
    fn debug_adt_id(&self, adt_id: AdtId<Self::InternedAdtId>) -> (shown: Option<String>)
        default_ensures
            shown is None,
    {
        None
    }

    /// The host's own rendering of the identifier of a trait, or `None` where
    /// the host has none and the plain rendering is to be used. Unless a host
    /// says otherwise, it has none.
    fn debug_trait_id(&self, trait_id: TraitId<Self::DefId>) -> (shown: Option<String>)
        default_ensures
            shown is None,
    {
        None
    }

    /// The host's own rendering of the identifier of an associated type, or
    /// `None` where the host has none and the plain rendering is to be used.
    /// Unless a host says otherwise, it has none.
    fn debug_assoc_type_id(&self, type_id: AssocTypeId<Self::DefId>) -> (shown: Option<String>)
        default_ensures
            shown is None,
    {
        None
    }

    /// The host's own rendering of the identifier of an opaque type, or `None`
    /// where the host has none and the plain rendering is to be used. Unless a
    /// host says otherwise, it has none.
    fn debug_opaque_ty_id(&self, opaque_ty_id: OpaqueTyId<Self::DefId>) -> (shown: Option<String>)
        default_ensures
            shown is None,
    {
        None
    }

    /// The host's own rendering of the identifier of a function definition, or
    /// `None` where the host has none and the plain rendering is to be used.
    /// Unless a host says otherwise, it has none.
    fn debug_fn_def_id(&self, fn_def_id: FnDefId<Self::DefId>) -> (shown: Option<String>)
        default_ensures
            shown is None,
    {
        None
    }

    /// The host's own rendering of an alias, or `None` where the
    /// host has none and the plain rendering is to be used. Unless a host
    /// says otherwise, it has none.
    fn debug_alias(
        &self,
        alias: &AliasTy<Self::DefId, Self::InternedSubstitution>,
    ) -> (shown: Option<String>)
        default_ensures
            shown is None,
    {
        None
    }

    /// The host's own rendering of a reference to an associated type, or `None`
    /// where the host has none and the plain rendering is to be used. Unless a
    /// host says otherwise, it has none.
    fn debug_projection_ty(
        &self,
        projection_ty: &ProjectionTy<Self::DefId, Self::InternedSubstitution>,
    ) -> (shown: Option<String>)
        default_ensures
            shown is None,
    {
        None
    }

    /// The host's own rendering of a use of an opaque type, or `None` where the
    /// host has none and the plain rendering is to be used. Unless a host
    /// says otherwise, it has none.
    fn debug_opaque_ty(
        &self,
        opaque_ty: &OpaqueTy<Self::DefId, Self::InternedSubstitution>,
    ) -> (shown: Option<String>)
        default_ensures
            shown is None,
    {
        None
    }

    /// The host's own rendering of a type, or `None` where the
    /// host has none and the plain rendering is to be used. Unless a host
    /// says otherwise, it has none.
    fn debug_ty(&self, ty: &Self::InternedType) -> (shown: Option<String>)
        default_ensures
            shown is None,
    {
        None
    }

    /// The host's own rendering of a lifetime, or `None` where the
    /// host has none and the plain rendering is to be used. Unless a host
    /// says otherwise, it has none.
    fn debug_lifetime(&self, lifetime: &Self::InternedLifetime) -> (shown: Option<String>)
        default_ensures
            shown is None,
    {
        None
    }

    /// The host's own rendering of a constant, or `None` where the
    /// host has none and the plain rendering is to be used. Unless a host
    /// says otherwise, it has none.
    fn debug_const(&self, constant: &Self::InternedConst) -> (shown: Option<String>)
        default_ensures
            shown is None,
    {
        None
    }

    /// The host's own rendering of a generic argument, or `None` where the
    /// host has none and the plain rendering is to be used. Unless a host
    /// says otherwise, it has none.
    fn debug_generic_arg(&self, generic_arg: &Self::InternedGenericArg) -> (shown: Option<String>)
        default_ensures
            shown is None,
    {
        None
    }

    /// The host's own rendering of a list of parameter kinds, or `None` where
    /// the host has none and the plain rendering is to be used. Unless a host
    /// says otherwise, it has none.
    fn debug_variable_kinds(
        &self,
        variable_kinds: &Self::InternedVariableKinds,
    ) -> (shown: Option<String>)
        default_ensures
            shown is None,
    {
        None
    }

    /// The host's own rendering of a list of parameter kinds in angle brackets,
    /// or `None` where the host has none and the plain rendering is to be used.
    /// Unless a host says otherwise, it has none.
    fn debug_variable_kinds_with_angles(
        &self,
        variable_kinds: &Self::InternedVariableKinds,
    ) -> (shown: Option<String>)
        default_ensures
            shown is None,
    {
        None
    }

    /// The host's own rendering of the variable kinds of a canonical term, or
    /// `None` where the host has none and the plain rendering is to be used.
    /// Unless a host says otherwise, it has none.
    fn debug_canonical_var_kinds(
        &self,
        canonical_var_kinds: &Self::InternedCanonicalVarKinds,
    ) -> (shown: Option<String>)
        default_ensures
            shown is None,
    {
        None
    }

    /// The host's own rendering of a goal, or `None` where the
    /// host has none and the plain rendering is to be used. Unless a host
    /// says otherwise, it has none.
    fn debug_goal(&self, goal: &Self::InternedGoal) -> (shown: Option<String>)
        default_ensures
            shown is None,
    {
        None
    }

    /// The host's own rendering of a list of goals, or `None` where the
    /// host has none and the plain rendering is to be used. Unless a host
    /// says otherwise, it has none.
    fn debug_goals(&self, goals: &Self::InternedGoals) -> (shown: Option<String>)
        default_ensures
            shown is None,
    {
        None
    }

    /// The host's own rendering of an implication, or `None` where the
    /// host has none and the plain rendering is to be used. Unless a host
    /// says otherwise, it has none.
    fn debug_program_clause_implication(
        &self,
        implication: &ProgramClauseImplication<
            Self::DefId,
            Self::InternedSubstitution,
            Self::InternedType,
            Self::InternedGoals,
        >,
    ) -> (shown: Option<String>)
        default_ensures
            shown is None,
    {
        None
    }

    /// The host's own rendering of a program clause, or `None` where the
    /// host has none and the plain rendering is to be used. Unless a host
    /// says otherwise, it has none.
    fn debug_program_clause(&self, clause: &Self::InternedProgramClause) -> (shown: Option<String>)
        default_ensures
            shown is None,
    {
        None
    }

    /// The host's own rendering of a list of program clauses, or `None` where
    /// the host has none and the plain rendering is to be used. Unless a host
    /// says otherwise, it has none.
    fn debug_program_clauses(
        &self,
        clauses: &Self::InternedProgramClauses,
    ) -> (shown: Option<String>)
        default_ensures
            shown is None,
    {
        None
    }

    /// The host's own rendering of a type application, or `None` where the
    /// host has none and the plain rendering is to be used. Unless a host
    /// says otherwise, it has none.
    fn debug_application_ty(
        &self,
        application_ty: &ApplicationTy<
            Self::DefId,
            Self::InternedAdtId,
            Self::InternedSubstitution,
        >,
    ) -> (shown: Option<String>)
        default_ensures
            shown is None,
    {
        None
    }

    /// The host's own rendering of a substitution, or `None` where the
    /// host has none and the plain rendering is to be used. Unless a host
    /// says otherwise, it has none.
    fn debug_substitution(
        &self,
        substitution: &Self::InternedSubstitution,
    ) -> (shown: Option<String>)
        default_ensures
            shown is None,
    {
        None
    }

    /// The host's own rendering of a trait reference with a separator between
    /// `Self` and the trait, or `None` where the host has none and the plain
    /// rendering is to be used. Unless a host says otherwise, it has none.
    fn debug_separator_trait_ref(
        &self,
        separator_trait_ref: &SeparatorTraitRef<'_, Self::DefId, Self::InternedSubstitution>,
    ) -> (shown: Option<String>)
        default_ensures
            shown is None,
    {
        None
    }

    /// The host's own rendering of a list of quantified where clauses, or
    /// `None` where the host has none and the plain rendering is to be used.
    /// Unless a host says otherwise, it has none.
    fn debug_quantified_where_clauses(
        &self,
        clauses: &Self::InternedQuantifiedWhereClauses,
    ) -> (shown: Option<String>)
        default_ensures
            shown is None,
    {
        None
    }
}

} // verus!
