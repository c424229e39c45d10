//! The logical shape of every kind of term.
//!
//! A node never holds its children directly: it holds handles to them, and
//! which handle types those are is the host's choice. So each shape here is
//! generic over the handle types of the children it has. The letters are the
//! same throughout:
//!
//! | letter | handle or identifier         |
//! |--------|------------------------------|
//! | `D`    | definition identifier        |
//! | `A`    | ADT identifier               |
//! | `T`    | type                         |
//! | `L`    | lifetime                     |
//! | `C`    | constant                     |
//! | `V`    | evaluated constant           |
//! | `S`    | substitution                 |
//! | `K`    | list of parameter kinds      |
//! | `Q`    | list of quantified clauses   |
//! | `G`    | goal                         |
//! | `Gs`   | list of goals                |
//! | `Cs`   | list of program clauses      |
//!
//! The aliases in the interner module name the same shapes by the host
//! instead (`TyData<I>` and so on).

use vstd::prelude::*;
use crate::var::BoundVar;
use crate::var::InferenceVar;
use crate::var::Mutability;
use crate::var::PlaceholderIndex;
use crate::var::QuantifierKind;
use crate::var::Scalar;
use crate::var::UniverseIndex;

verus! {

/// The identifier of a trait.
#[derive(Clone, Copy, Debug, PartialEq, Eq, PartialOrd, Ord, Hash)]
pub struct TraitId<D>(pub D);

/// The identifier of a struct or enum.
#[derive(Clone, Copy, Debug, PartialEq, Eq, PartialOrd, Ord, Hash)]
pub struct AdtId<A>(pub A);

/// The identifier of an associated type, as declared in its trait.
#[derive(Clone, Copy, Debug, PartialEq, Eq, PartialOrd, Ord, Hash)]
pub struct AssocTypeId<D>(pub D);

/// The identifier of an opaque type.
#[derive(Clone, Copy, Debug, PartialEq, Eq, PartialOrd, Ord, Hash)]
pub struct OpaqueTyId<D>(pub D);

/// The identifier of a function definition.
#[derive(Clone, Copy, Debug, PartialEq, Eq, PartialOrd, Ord, Hash)]
pub struct FnDefId<D>(pub D);

/// What a type application applies.
#[derive(Clone, Copy, Debug, PartialEq, Eq, Hash)]
pub enum TypeName<D, A> {
    Adt(AdtId<A>),
    AssociatedType(AssocTypeId<D>),
    Scalar(Scalar),
    /// A tuple of the given arity.
    Tuple(usize),
    Slice,
    Raw(Mutability),
    Ref(Mutability),
    OpaqueType(OpaqueTyId<D>),
    FnDef(FnDefId<D>),
}

/// A generic item applied to its arguments, such as `Vec<T>`.
#[derive(Clone, Debug, PartialEq, Eq, Hash)]
pub struct ApplicationTy<D, A, S> {
    pub name: TypeName<D, A>,
    pub substitution: S,
}

/// A reference to an associated type, such as `<T as Iterator>::Item`. The
/// substitution holds the arguments of the associated type itself, if it has
/// any, followed by those of the trait, `Self` first among them.
#[derive(Clone, Debug, PartialEq, Eq, Hash)]
pub struct ProjectionTy<D, S> {
    pub associated_ty_id: AssocTypeId<D>,
    pub substitution: S,
}

/// A use of an opaque type.
#[derive(Clone, Debug, PartialEq, Eq, Hash)]
pub struct OpaqueTy<D, S> {
    pub opaque_ty_id: OpaqueTyId<D>,
    pub substitution: S,
}

/// A type that stands for another one, yet to be found.
#[derive(Clone, Debug, PartialEq, Eq, Hash)]
pub enum AliasTy<D, S> {
    Projection(ProjectionTy<D, S>),
    Opaque(OpaqueTy<D, S>),
}

/// A value under a binder: the kinds of the parameters that the binder
/// introduces, and the value that may refer to them at depth 0.
#[derive(Clone, Debug, PartialEq, Eq, Hash)]
pub struct Binders<K, B> {
    pub binders: K,
    pub value: B,
}

/// A trait object: the bounds that the hidden type meets. The hidden type
/// is the one parameter of the binder.
#[derive(Clone, Debug, PartialEq, Eq, Hash)]
pub struct DynTy<K, Q> {
    pub bounds: Binders<K, Q>,
}

/// The signature of a function pointer: `num_binders` lifetimes are bound,
/// and the substitution holds the argument types and, last, the return type.
#[derive(Clone, Debug, PartialEq, Eq, Hash)]
pub struct FnSig<S> {
    pub num_binders: usize,
    pub substitution: S,
}

/// A type.
#[derive(Clone, Debug, PartialEq, Eq, Hash)]
pub enum TyShape<D, A, S, K, Q> {
    Apply(ApplicationTy<D, A, S>),
    BoundVar(BoundVar),
    InferenceVar(InferenceVar),
    Dyn(DynTy<K, Q>),
    Function(FnSig<S>),
    Alias(AliasTy<D, S>),
    Placeholder(PlaceholderIndex),
    Error,
}

/// A lifetime.
#[derive(Clone, Copy, Debug, PartialEq, Eq, Hash, Structural)]
pub enum LifetimeData {
    BoundVar(BoundVar),
    Placeholder(PlaceholderIndex),
    Static,
    InferenceVar(InferenceVar),
    Error,
}

/// The value of a constant.
#[derive(Clone, Debug, PartialEq, Eq, Hash)]
pub enum ConstValue<V> {
    /// An evaluated constant, which only the host can compare.
    Concrete(V),
    BoundVar(BoundVar),
    Placeholder(PlaceholderIndex),
    InferenceVar(InferenceVar),
}

/// A constant: its type and its value.
#[derive(Clone, Debug, PartialEq, Eq, Hash)]
pub struct ConstShape<T, V> {
    pub ty: T,
    pub value: ConstValue<V>,
}

/// An argument for a generic parameter: exactly one of a type, a lifetime
/// and a constant.
#[derive(Clone, Debug, PartialEq, Eq, Hash)]
pub enum GenericArgShape<T, L, C> {
    Ty(T),
    Lifetime(L),
    Const(C),
}

/// The kind of a parameter that a binder introduces.
#[derive(Clone, Debug, PartialEq, Eq, Hash)]
pub enum VariableKind<T> {
    Ty,
    Lifetime,
    /// A constant of the given type.
    Const(T),
}

/// The kind of a variable of a canonical term, with the universe that the
/// variable lives in.
#[derive(Clone, Debug, PartialEq, Eq, Hash)]
pub struct CanonicalVarKind<T> {
    pub kind: VariableKind<T>,
    pub universe: UniverseIndex,
}

/// A trait applied to its arguments, `Self` first.
#[derive(Clone, Debug, PartialEq, Eq, Hash)]
pub struct TraitRef<D, S> {
    pub trait_id: TraitId<D>,
    pub substitution: S,
}

/// A trait reference to be written with `separator` between `Self` and
/// the trait: `T: Clone`, or `T as Clone`.
#[derive(Clone, Copy, Debug, PartialEq, Eq, Hash)]
pub struct SeparatorTraitRef<'a, D, S> {
    pub trait_ref: &'a TraitRef<D, S>,
    pub separator: &'a str,
}

/// The claim that an alias stands for a type.
#[derive(Clone, Debug, PartialEq, Eq, Hash)]
pub struct AliasEq<D, S, T> {
    pub alias: AliasTy<D, S>,
    pub ty: T,
}

/// What a where clause can ask for.
#[derive(Clone, Debug, PartialEq, Eq, Hash)]
pub enum WhereClause<D, S, T> {
    Implemented(TraitRef<D, S>),
    AliasEq(AliasEq<D, S, T>),
}

/// The claim that something is well formed.
#[derive(Clone, Debug, PartialEq, Eq, Hash)]
pub enum WellFormed<D, S, T> {
    Trait(TraitRef<D, S>),
    Ty(T),
}

/// A goal about the program's declarations, as opposed to one that only
/// combines other goals.
#[derive(Clone, Debug, PartialEq, Eq, Hash)]
pub enum DomainGoal<D, S, T> {
    Holds(WhereClause<D, S, T>),
    WellFormed(WellFormed<D, S, T>),
}

/// A goal.
#[derive(Clone, Debug, PartialEq, Eq, Hash)]
pub enum GoalShape<D, S, T, K, G, Gs, Cs> {
    /// `forall<..> { goal }` or `exists<..> { goal }`.
    Quantified(QuantifierKind, Binders<K, G>),
    /// The goal holds if it can be proved with the clauses added.
    Implies(Cs, G),
    All(Gs),
    Not(G),
    DomainGoal(DomainGoal<D, S, T>),
    /// `true` holds trivially; `false` can never be proved.
    Truth(bool),
}

/// A consequence that holds when all the conditions do.
#[derive(Clone, Debug, PartialEq, Eq, Hash)]
pub struct ProgramClauseImplication<D, S, T, Gs> {
    pub consequence: DomainGoal<D, S, T>,
    pub conditions: Gs,
}

/// A clause of the program: an implication, as it stands or for all values
/// of the binder's parameters.
#[derive(Clone, Debug, PartialEq, Eq, Hash)]
pub enum ProgramClauseShape<D, S, T, K, Gs> {
    Implies(ProgramClauseImplication<D, S, T, Gs>),
    ForAll(Binders<K, ProgramClauseImplication<D, S, T, Gs>>),
}

} // verus!
