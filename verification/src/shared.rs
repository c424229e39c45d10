//! A host that stores every term as a tree of reference-counted nodes. A
//! handle points at the node it stands for, so copying a handle is cheap,
//! and two handles are equal exactly when the trees under them are.

use std::sync::Arc;
use vstd::prelude::*;
use crate::collect::gather;
use crate::interner::ConstData;
use crate::interner::GenericArgData;
use crate::interner::GoalData;
use crate::interner::Interner;
use crate::interner::ProgramClauseData;
use crate::interner::QuantifiedWhereClause;
use crate::interner::TyData;
use crate::rank::higher;
use crate::rank::quantified_where_clause_rank;
use crate::rank::variable_kind_rank;
use crate::rank::WellFounded;
use crate::answers::answers_of;
use crate::answers::no_answers;
use crate::answers::Answers;
use crate::answers::shown_text;
use crate::answers::silent;
use crate::shapes::AdtId;
use crate::shapes::AliasTy;
use crate::shapes::AssocTypeId;
use crate::shapes::Binders;
use crate::shapes::CanonicalVarKind;
use crate::shapes::ConstShape;
use crate::shapes::DomainGoal;
use crate::shapes::FnDefId;
use crate::shapes::GenericArgShape;
use crate::shapes::GoalShape;
use crate::shapes::LifetimeData;
use crate::shapes::OpaqueTyId;
use crate::shapes::ProgramClauseImplication;
use crate::shapes::ProgramClauseShape;
use crate::shapes::TraitId;
use crate::shapes::TyShape;
use crate::shapes::VariableKind;
use crate::shapes::WellFormed;
use crate::shapes::WhereClause;
use crate::text::decimal;
use crate::text::push_char;
use crate::text::push_decimal;

verus! {

pub type SharedLifetime = LifetimeData;

pub type SharedConst = Arc<ConstShape<SharedTy, u32>>;

pub type SharedGenericArg = GenericArgShape<SharedTy, SharedLifetime, SharedConst>;

pub type SharedSubstitution = Vec<SharedGenericArg>;

pub type SharedVariableKinds = Vec<VariableKind<SharedTy>>;

pub type SharedCanonicalVarKinds = Vec<CanonicalVarKind<SharedTy>>;

pub type SharedWhereClause = WhereClause<u32, SharedSubstitution, SharedTy>;

pub type SharedQuantifiedWhereClause = Binders<SharedVariableKinds, SharedWhereClause>;

pub type SharedQuantifiedWhereClauses = Vec<SharedQuantifiedWhereClause>;

pub type SharedGoals = Vec<SharedGoal>;

pub type SharedProgramClause = ProgramClauseShape<
    u32,
    SharedSubstitution,
    SharedTy,
    SharedVariableKinds,
    SharedGoals,
>;

pub type SharedProgramClauses = Vec<SharedProgramClause>;

/// A second pointer to the node that `node` points at.
///
/// Trusted: this is `Arc::clone`, which returns a pointer to the same
/// allocation, so what it points at is what `node` points at.
#[verifier::external_body]
fn share<T>(node: &Arc<T>) -> (other: Arc<T>)
    ensures
        other == *node,
{
    Arc::clone(node)
}

/// The shape of a type over the handles of this host.
pub type SharedTyData = TyShape<
    u32,
    u32,
    SharedSubstitution,
    SharedVariableKinds,
    SharedQuantifiedWhereClauses,
>;

/// The handle of a type.
#[derive(Debug, PartialEq, Eq, Hash)]
pub struct SharedTy(pub Arc<SharedTyData>);

impl Clone for SharedTy {
    fn clone(&self) -> (other: Self)
        ensures
            other == *self,
    {
        SharedTy(share(&self.0))
    }
}

/// The shape of a goal over the handles of this host.
pub type SharedGoalData = GoalShape<
    u32,
    SharedSubstitution,
    SharedTy,
    SharedVariableKinds,
    SharedGoal,
    SharedGoals,
    SharedProgramClauses,
>;

/// The handle of a goal. The node sits behind an `Option` that is always
/// `Some`, because a recursive type needs one form that holds no other
/// value of itself.
#[derive(Debug, PartialEq, Eq, Hash)]
pub struct SharedGoal {
    node: Option<Arc<SharedGoalData>>,
}

impl SharedGoal {
    #[verifier::type_invariant]
    pub closed spec fn well_formed(self) -> bool {
        self.node is Some
    }

    /// The goal that the handle stands for.
    pub closed spec fn shape(self) -> SharedGoalData {
        match self.node {
            Some(node) => *node,
            None => GoalShape::Truth(true),
        }
    }
}

impl Clone for SharedGoal {
    fn clone(&self) -> (other: Self)
        ensures
            other == *self,
    {
        proof {
            use_type_invariant(self);
        }
        match &self.node {
            Some(node) => SharedGoal { node: Some(share(node)) },
            None => unreached(),
        }
    }
}

/// What the declarations of a program are called. The name of the trait
/// with identifier `n` stands at index `n` of `traits`, and likewise for the
/// others; an identifier beyond the end of its list has no name.
#[derive(Clone, Debug, PartialEq, Eq, PartialOrd, Ord, Hash)]
pub struct Names {
    pub adts: Vec<String>,
    pub traits: Vec<String>,
    pub assoc_types: Vec<String>,
    pub opaque_tys: Vec<String>,
    pub fn_defs: Vec<String>,
}

/// The name at index `id`, if the list reaches that far.
pub open spec fn name_in(list: Seq<String>, id: u32) -> Option<Seq<char>> {
    if (id as int) < list.len() {
        Some(list[id as int]@)
    } else {
        None
    }
}

fn lookup(list: &Vec<String>, id: u32) -> (found: Option<String>)
    ensures
        shown_text(found) == name_in(list@, id),
{
    let index = id as usize;
    if index < list.len() {
        Some(list[index].clone())
    } else {
        None
    }
}

/// The host itself. Every handle points at its own term, so the host
/// holds no terms; it may know the names of the program's declarations,
/// and then writes an identifier by its name.
#[derive(Clone, Copy, Debug, PartialEq, Eq, PartialOrd, Ord, Hash)]
pub struct Shared<'n> {
    pub names: Option<&'n Names>,
}

impl<'n> Shared<'n> {
    /// A host that knows no names.
    pub fn new() -> (host: Self)
        ensures
            host.names is None,
    {
        Shared { names: None }
    }

    /// A host that writes identifiers by the names in `names`.
    pub fn with_names(names: &'n Names) -> (host: Self)
        ensures
            host.names == Some(names),
    {
        Shared { names: Some(names) }
    }

    pub open spec fn adt_name(self, id: u32) -> Option<Seq<char>> {
        match self.names {
            Some(names) => name_in(names.adts@, id),
            None => None,
        }
    }

    pub open spec fn trait_name(self, id: u32) -> Option<Seq<char>> {
        match self.names {
            Some(names) => name_in(names.traits@, id),
            None => None,
        }
    }

    pub open spec fn assoc_type_name(self, id: u32) -> Option<Seq<char>> {
        match self.names {
            Some(names) => name_in(names.assoc_types@, id),
            None => None,
        }
    }

    pub open spec fn opaque_ty_name(self, id: u32) -> Option<Seq<char>> {
        match self.names {
            Some(names) => name_in(names.opaque_tys@, id),
            None => None,
        }
    }

    pub open spec fn fn_def_name(self, id: u32) -> Option<Seq<char>> {
        match self.names {
            Some(names) => name_in(names.fn_defs@, id),
            None => None,
        }
    }
}

/// What this host answers: the name of an identifier that has one, and
/// nothing for any other term.
pub open spec fn shared_answers<'n>(host: Shared<'n>) -> Answers<Shared<'n>> {
    Answers {
        adt_id: |id: AdtId<u32>| host.adt_name(id.0),
        trait_id: |id: TraitId<u32>| host.trait_name(id.0),
        assoc_type_id: |id: AssocTypeId<u32>| host.assoc_type_name(id.0),
        opaque_ty_id: |id: OpaqueTyId<u32>| host.opaque_ty_name(id.0),
        fn_def_id: |id: FnDefId<u32>| host.fn_def_name(id.0),
        ..no_answers()
    }
}

/// The answers of this host are those of its table of names.
pub proof fn lemma_shared_answers(host: Shared)
    ensures
        answers_of(host, shared_answers(host)),
{
    reveal(answers_of);
}

/// A host that knows no names has no rendering of its own for anything.
pub proof fn lemma_nameless_is_silent(host: Shared)
    requires
        host.names is None,
    ensures
        silent(host),
{
    reveal(answers_of);
}

impl<'n> Interner for Shared<'n> {
    type InternedType = SharedTy;

    type InternedLifetime = SharedLifetime;

    type InternedConst = SharedConst;

    type InternedConcreteConst = u32;

    type InternedGenericArg = SharedGenericArg;

    type InternedGoal = SharedGoal;

    type InternedGoals = SharedGoals;

    type InternedSubstitution = SharedSubstitution;

    type InternedProgramClauses = SharedProgramClauses;

    type InternedProgramClause = SharedProgramClause;

    type InternedQuantifiedWhereClauses = SharedQuantifiedWhereClauses;

    type InternedVariableKinds = SharedVariableKinds;

    type InternedCanonicalVarKinds = SharedCanonicalVarKinds;

    type DefId = u32;

    type InternedAdtId = u32;

    type Identifier = String;

    open spec fn ty_shape(&self, ty: &SharedTy) -> TyData<Self> {
        *ty.0
    }

    open spec fn lifetime_shape(&self, lifetime: &SharedLifetime) -> LifetimeData {
        *lifetime
    }

    open spec fn const_shape(&self, constant: &SharedConst) -> ConstData<Self> {
        **constant
    }

    open spec fn generic_arg_shape(&self, arg: &SharedGenericArg) -> GenericArgData<Self> {
        *arg
    }

    open spec fn goal_shape(&self, goal: &SharedGoal) -> GoalData<Self> {
        goal.shape()
    }

    open spec fn goals_shape(&self, goals: &SharedGoals) -> Seq<SharedGoal> {
        goals@
    }

    open spec fn substitution_shape(&self, substitution: &SharedSubstitution) -> Seq<
        SharedGenericArg,
    > {
        substitution@
    }

    open spec fn program_clause_shape(&self, clause: &SharedProgramClause) -> ProgramClauseData<
        Self,
    > {
        *clause
    }

    open spec fn program_clauses_shape(&self, clauses: &SharedProgramClauses) -> Seq<
        SharedProgramClause,
    > {
        clauses@
    }

    open spec fn quantified_where_clauses_shape(
        &self,
        clauses: &SharedQuantifiedWhereClauses,
    ) -> Seq<
        QuantifiedWhereClause<Self>,
    > {
        clauses@
    }

    open spec fn variable_kinds_shape(&self, kinds: &SharedVariableKinds) -> Seq<
        VariableKind<SharedTy>,
    > {
        kinds@
    }

    open spec fn canonical_var_kinds_shape(&self, kinds: &SharedCanonicalVarKinds) -> Seq<
        CanonicalVarKind<SharedTy>,
    > {
        kinds@
    }

    open spec fn ty_made(&self, ty: &SharedTy) -> bool {
        true
    }

    open spec fn lifetime_made(&self, lifetime: &SharedLifetime) -> bool {
        true
    }

    open spec fn const_made(&self, constant: &SharedConst) -> bool {
        true
    }

    open spec fn generic_arg_made(&self, arg: &SharedGenericArg) -> bool {
        true
    }

    open spec fn goal_made(&self, goal: &SharedGoal) -> bool {
        goal.well_formed()
    }

    open spec fn program_clause_made(&self, clause: &SharedProgramClause) -> bool {
        true
    }

    open spec fn ty_rank(&self, ty: &SharedTy) -> nat {
        ty_height(*ty)
    }

    open spec fn const_rank(&self, constant: &SharedConst) -> nat {
        10 + ty_height(constant.ty)
    }

    open spec fn generic_arg_rank(&self, arg: &SharedGenericArg) -> nat {
        arg_height(*arg)
    }

    open spec fn goal_rank(&self, goal: &SharedGoal) -> nat {
        goal_height(*goal)
    }

    open spec fn goals_rank(&self, goals: &SharedGoals) -> nat {
        1 + goals_height(*goals, goals.len() as nat)
    }

    open spec fn substitution_rank(&self, substitution: &SharedSubstitution) -> nat {
        1 + args_height(*substitution, substitution.len() as nat)
    }

    open spec fn program_clause_rank(&self, clause: &SharedProgramClause) -> nat {
        clause_height(*clause)
    }

    open spec fn program_clauses_rank(&self, clauses: &SharedProgramClauses) -> nat {
        1 + clauses_height(*clauses, clauses.len() as nat)
    }

    open spec fn quantified_where_clauses_rank(
        &self,
        clauses: &SharedQuantifiedWhereClauses,
    ) -> nat {
        1 + bounds_height(*clauses, clauses.len() as nat)
    }

    open spec fn variable_kinds_rank(&self, kinds: &SharedVariableKinds) -> nat {
        1 + kinds_height(*kinds, kinds.len() as nat)
    }

    open spec fn canonical_var_kinds_rank(&self, kinds: &SharedCanonicalVarKinds) -> nat {
        1 + canonical_kinds_height(*kinds, kinds.len() as nat)
    }

    open spec fn consts_equal(&self, ty: &SharedTy, c1: &u32, c2: &u32) -> bool {
        *c1 == *c2
    }

    proof fn lemma_consts_equal_is_equivalence(&self, ty: &SharedTy, c1: &u32, c2: &u32, c3: &u32) {
    }

    proof fn lemma_concrete_const_clone(&self, value: u32, copy: u32) {
    }

    proof fn lemma_ty_handles_agree(&self, a: &SharedTy, b: &SharedTy) {
    }

    proof fn lemma_lifetime_handles_agree(&self, a: &SharedLifetime, b: &SharedLifetime) {
    }

    proof fn lemma_const_handles_agree(&self, a: &SharedConst, b: &SharedConst) {
    }

    proof fn lemma_generic_arg_handles_agree(&self, a: &SharedGenericArg, b: &SharedGenericArg) {
    }

    proof fn lemma_goal_handles_agree(&self, a: &SharedGoal, b: &SharedGoal) {
    }

    proof fn lemma_program_clause_handles_agree(
        &self,
        a: &SharedProgramClause,
        b: &SharedProgramClause,
    ) {
    }

    fn intern_ty(&self, ty: TyData<Self>) -> (handle: SharedTy) {
        SharedTy(Arc::new(ty))
    }

    fn ty_data<'a>(&self, ty: &'a SharedTy) -> (data: &'a TyData<Self>) {
        &*ty.0
    }

    fn intern_lifetime(&self, lifetime: LifetimeData) -> (handle: SharedLifetime) {
        lifetime
    }

    fn lifetime_data<'a>(&self, lifetime: &'a SharedLifetime) -> (data: &'a LifetimeData) {
        lifetime
    }

    fn intern_const(&self, constant: ConstData<Self>) -> (handle: SharedConst) {
        Arc::new(constant)
    }

    fn const_data<'a>(&self, constant: &'a SharedConst) -> (data: &'a ConstData<Self>) {
        &**constant
    }

    fn const_eq(&self, ty: &SharedTy, c1: &u32, c2: &u32) -> (same: bool) {
        *c1 == *c2
    }

    fn intern_generic_arg(&self, data: GenericArgData<Self>) -> (handle: SharedGenericArg) {
        data
    }

    fn generic_arg_data<'a>(&self, arg: &'a SharedGenericArg) -> (data: &'a GenericArgData<Self>) {
        arg
    }

    fn intern_goal(&self, data: GoalData<Self>) -> (handle: SharedGoal) {
        SharedGoal { node: Some(Arc::new(data)) }
    }

    fn goal_data<'a>(&self, goal: &'a SharedGoal) -> (data: &'a GoalData<Self>) {
        proof {
            use_type_invariant(goal);
        }
        match &goal.node {
            Some(node) => &**node,
            None => unreached(),
        }
    }

    fn intern_goals<E, It: Iterator<Item = Result<SharedGoal, E>>>(&self, data: It) -> (out: Result<
        SharedGoals,
        E,
    >) {
        gather(data)
    }

    fn goals_data<'a>(&self, goals: &'a SharedGoals) -> (items: &'a [SharedGoal]) {
        goals.as_slice()
    }

    fn intern_substitution<E, It: Iterator<Item = Result<SharedGenericArg, E>>>(
        &self,
        data: It,
    ) -> (out: Result<SharedSubstitution, E>) {
        gather(data)
    }

    fn substitution_data<'a>(&self, substitution: &'a SharedSubstitution) -> (items: &'a [
        SharedGenericArg
    ]) {
        substitution.as_slice()
    }

    fn intern_program_clause(
        &self,
        data: ProgramClauseData<Self>,
    ) -> (handle: SharedProgramClause) {
        data
    }

    fn program_clause_data<'a>(&self, clause: &'a SharedProgramClause) -> (data:
        &'a ProgramClauseData<Self>) {
        clause
    }

    fn intern_program_clauses<E, It: Iterator<Item = Result<SharedProgramClause, E>>>(
        &self,
        data: It,
    ) -> (out: Result<SharedProgramClauses, E>) {
        gather(data)
    }

    fn program_clauses_data<'a>(&self, clauses: &'a SharedProgramClauses) -> (items: &'a [
        SharedProgramClause
    ]) {
        clauses.as_slice()
    }

    fn intern_quantified_where_clauses<
        E,
        It: Iterator<Item = Result<QuantifiedWhereClause<Self>, E>>,
    >(&self, data: It) -> (out: Result<SharedQuantifiedWhereClauses, E>) {
        gather(data)
    }

    fn quantified_where_clauses_data<'a>(
        &self,
        clauses: &'a SharedQuantifiedWhereClauses,
    ) -> (items:
        &'a [QuantifiedWhereClause<Self>]) {
        clauses.as_slice()
    }

    fn intern_generic_arg_kinds<E, It: Iterator<Item = Result<VariableKind<SharedTy>, E>>>(
        &self,
        data: It,
    ) -> (out: Result<SharedVariableKinds, E>) {
        gather(data)
    }

    fn variable_kinds_data<'a>(&self, kinds: &'a SharedVariableKinds) -> (items: &'a [
        VariableKind<SharedTy>
    ]) {
        kinds.as_slice()
    }

    fn intern_canonical_var_kinds<E, It: Iterator<Item = Result<CanonicalVarKind<SharedTy>, E>>>(
        &self,
        data: It,
    ) -> (out: Result<SharedCanonicalVarKinds, E>) {
        gather(data)
    }

    fn canonical_var_kinds_data<'a>(&self, kinds: &'a SharedCanonicalVarKinds) -> (items: &'a [
        CanonicalVarKind<SharedTy>
    ]) {
        kinds.as_slice()
    }

    open spec fn def_id_text(&self, id: u32) -> Seq<char> {
        seq!['#'] + decimal(id as nat)
    }

    open spec fn adt_id_text(&self, id: u32) -> Seq<char> {
        seq!['#'] + decimal(id as nat)
    }

    open spec fn concrete_const_text(&self, value: &u32) -> Seq<char> {
        decimal(*value as nat)
    }

    fn show_def_id(&self, id: u32) -> (text: String) {
        let mut text = String::new();
        push_char(&mut text, '#');
        push_decimal(&mut text, id as u64);
        assert(text@ =~= seq!['#'] + decimal(id as nat));
        text
    }

    fn show_adt_id(&self, id: u32) -> (text: String) {
        self.show_def_id(id)
    }

    fn show_concrete_const(&self, value: &u32) -> (text: String) {
        let mut text = String::new();
        push_decimal(&mut text, *value as u64);
        assert(text@ =~= decimal(*value as nat));
        text
    }

    fn debug_adt_id(&self, adt_id: AdtId<u32>) -> (shown: Option<String>)
        ensures
            shown_text(shown) == self.adt_name(adt_id.0),
    {
        match self.names {
            Some(names) => lookup(&names.adts, adt_id.0),
            None => None,
        }
    }

    fn debug_trait_id(&self, trait_id: TraitId<u32>) -> (shown: Option<String>)
        ensures
            shown_text(shown) == self.trait_name(trait_id.0),
    {
        match self.names {
            Some(names) => lookup(&names.traits, trait_id.0),
            None => None,
        }
    }

    fn debug_assoc_type_id(&self, type_id: AssocTypeId<u32>) -> (shown: Option<String>)
        ensures
            shown_text(shown) == self.assoc_type_name(type_id.0),
    {
        match self.names {
            Some(names) => lookup(&names.assoc_types, type_id.0),
            None => None,
        }
    }

    fn debug_opaque_ty_id(&self, opaque_ty_id: OpaqueTyId<u32>) -> (shown: Option<String>)
        ensures
            shown_text(shown) == self.opaque_ty_name(opaque_ty_id.0),
    {
        match self.names {
            Some(names) => lookup(&names.opaque_tys, opaque_ty_id.0),
            None => None,
        }
    }

    fn debug_fn_def_id(&self, fn_def_id: FnDefId<u32>) -> (shown: Option<String>)
        ensures
            shown_text(shown) == self.fn_def_name(fn_def_id.0),
    {
        match self.names {
            Some(names) => lookup(&names.fn_defs, fn_def_id.0),
            None => None,
        }
    }
}

/// How deep the tree under a type goes. Every node counts ten, which
/// leaves room for the records that lie between a node and the handles in
/// it.
pub open spec fn ty_height(ty: SharedTy) -> nat
    decreases ty, 0nat,
{
    match *ty.0 {
        TyShape::Apply(application) => 10 + args_height(
            application.substitution,
            application.substitution.len() as nat,
        ),
        TyShape::Dyn(dyn_ty) => 10 + higher(
            kinds_height(dyn_ty.bounds.binders, dyn_ty.bounds.binders.len() as nat),
            bounds_height(dyn_ty.bounds.value, dyn_ty.bounds.value.len() as nat),
        ),
        TyShape::Function(sig) => 10 + args_height(sig.substitution, sig.substitution.len() as nat),
        TyShape::Alias(AliasTy::Projection(projection)) => 10 + args_height(
            projection.substitution,
            projection.substitution.len() as nat,
        ),
        TyShape::Alias(AliasTy::Opaque(opaque)) => 10 + args_height(
            opaque.substitution,
            opaque.substitution.len() as nat,
        ),
        TyShape::BoundVar(_) => 10,
        TyShape::InferenceVar(_) => 10,
        TyShape::Placeholder(_) => 10,
        TyShape::Error => 10,
    }
}

pub open spec fn arg_height(arg: SharedGenericArg) -> nat
    decreases arg, 0nat,
{
    match arg {
        GenericArgShape::Ty(ty) => 10 + ty_height(ty),
        GenericArgShape::Lifetime(_) => 10,
        GenericArgShape::Const(constant) => 20 + ty_height(constant.ty),
    }
}

/// The height of the highest among the first `n` arguments.
pub open spec fn args_height(args: SharedSubstitution, n: nat) -> nat
    decreases args, n,
{
    if n == 0 || n > args.len() {
        0
    } else {
        higher(arg_height(args[n - 1]), args_height(args, (n - 1) as nat))
    }
}

pub open spec fn kind_height(kind: VariableKind<SharedTy>) -> nat
    decreases kind, 0nat,
{
    match kind {
        VariableKind::Ty => 0,
        VariableKind::Lifetime => 0,
        VariableKind::Const(ty) => 10 + ty_height(ty),
    }
}

/// The height of the highest among the first `n` kinds.
pub open spec fn kinds_height(kinds: SharedVariableKinds, n: nat) -> nat
    decreases kinds, n,
{
    if n == 0 || n > kinds.len() {
        0
    } else {
        higher(kind_height(kinds[n - 1]), kinds_height(kinds, (n - 1) as nat))
    }
}

/// The height of the highest among the first `n` kinds.
pub open spec fn canonical_kinds_height(kinds: SharedCanonicalVarKinds, n: nat) -> nat
    decreases n,
{
    if n == 0 || n > kinds.len() {
        0
    } else {
        higher(kind_height(kinds[n - 1].kind), canonical_kinds_height(kinds, (n - 1) as nat))
    }
}

pub open spec fn where_clause_height(clause: SharedWhereClause) -> nat
    decreases clause, 0nat,
{
    match clause {
        WhereClause::Implemented(trait_ref) => args_height(
            trait_ref.substitution,
            trait_ref.substitution.len() as nat,
        ),
        WhereClause::AliasEq(alias_eq) => higher(
            match alias_eq.alias {
                AliasTy::Projection(projection) => args_height(
                    projection.substitution,
                    projection.substitution.len() as nat,
                ),
                AliasTy::Opaque(opaque) => args_height(
                    opaque.substitution,
                    opaque.substitution.len() as nat,
                ),
            },
            ty_height(alias_eq.ty),
        ),
    }
}

pub open spec fn bound_height(bound: SharedQuantifiedWhereClause) -> nat
    decreases bound, 0nat,
{
    10 + higher(
        kinds_height(bound.binders, bound.binders.len() as nat),
        where_clause_height(bound.value),
    )
}

/// The height of the highest among the first `n` bounds.
pub open spec fn bounds_height(bounds: SharedQuantifiedWhereClauses, n: nat) -> nat
    decreases bounds, n,
{
    if n == 0 || n > bounds.len() {
        0
    } else {
        higher(bound_height(bounds[n - 1]), bounds_height(bounds, (n - 1) as nat))
    }
}

pub open spec fn domain_goal_height(goal: DomainGoal<u32, SharedSubstitution, SharedTy>) -> nat {
    match goal {
        DomainGoal::Holds(clause) => where_clause_height(clause),
        DomainGoal::WellFormed(WellFormed::Trait(trait_ref)) => args_height(
            trait_ref.substitution,
            trait_ref.substitution.len() as nat,
        ),
        DomainGoal::WellFormed(WellFormed::Ty(ty)) => ty_height(ty),
    }
}

/// How deep the tree under a goal goes.
pub closed spec fn goal_height(goal: SharedGoal) -> nat
    decreases goal, 0nat,
{
    match goal.node {
        None => 1,
        Some(node) => match *node {
            GoalShape::Quantified(_, binders) => 10 + higher(
                kinds_height(binders.binders, binders.binders.len() as nat),
                goal_height(binders.value),
            ),
            GoalShape::Implies(clauses, inner) => 10 + higher(
                clauses_height(clauses, clauses.len() as nat),
                goal_height(inner),
            ),
            GoalShape::All(goals) => 10 + goals_height(goals, goals.len() as nat),
            GoalShape::Not(inner) => 10 + goal_height(inner),
            GoalShape::DomainGoal(domain_goal) => 10 + domain_goal_height(domain_goal),
            GoalShape::Truth(_) => 10,
        },
    }
}

/// The height of the highest among the first `n` goals.
pub closed spec fn goals_height(goals: SharedGoals, n: nat) -> nat
    decreases goals, n,
{
    if n == 0 || n > goals.len() {
        0
    } else {
        higher(goal_height(goals[n - 1]), goals_height(goals, (n - 1) as nat))
    }
}

pub closed spec fn implication_height(
    implication: ProgramClauseImplication<u32, SharedSubstitution, SharedTy, SharedGoals>,
) -> nat
    decreases implication, 0nat,
{
    higher(
        domain_goal_height(implication.consequence),
        goals_height(implication.conditions, implication.conditions.len() as nat),
    )
}

pub closed spec fn clause_height(clause: SharedProgramClause) -> nat
    decreases clause, 0nat,
{
    match clause {
        ProgramClauseShape::Implies(implication) => 10 + implication_height(implication),
        ProgramClauseShape::ForAll(binders) => 10 + higher(
            kinds_height(binders.binders, binders.binders.len() as nat),
            implication_height(binders.value),
        ),
    }
}

/// The height of the highest among the first `n` clauses.
pub closed spec fn clauses_height(clauses: SharedProgramClauses, n: nat) -> nat
    decreases clauses, n,
{
    if n == 0 || n > clauses.len() {
        0
    } else {
        higher(clause_height(clauses[n - 1]), clauses_height(clauses, (n - 1) as nat))
    }
}

/// None of the first `n` arguments is higher than their height.
pub proof fn lemma_args_height(list: SharedSubstitution, n: nat, i: int)
    requires
        0 <= i < n <= list.len(),
    ensures
        arg_height(list[i]) <= args_height(list, n),
    decreases n,
{
    if i < n - 1 {
        lemma_args_height(list, (n - 1) as nat, i);
    }
}

/// None of the first `n` kinds is higher than their height.
pub proof fn lemma_kinds_height(list: SharedVariableKinds, n: nat, i: int)
    requires
        0 <= i < n <= list.len(),
    ensures
        kind_height(list[i]) <= kinds_height(list, n),
    decreases n,
{
    if i < n - 1 {
        lemma_kinds_height(list, (n - 1) as nat, i);
    }
}

/// None of the first `n` kinds is higher than their height.
pub proof fn lemma_canonical_kinds_height(list: SharedCanonicalVarKinds, n: nat, i: int)
    requires
        0 <= i < n <= list.len(),
    ensures
        kind_height(list[i].kind) <= canonical_kinds_height(list, n),
    decreases n,
{
    if i < n - 1 {
        lemma_canonical_kinds_height(list, (n - 1) as nat, i);
    }
}

/// None of the first `n` bounds is higher than their height.
pub proof fn lemma_bounds_height(list: SharedQuantifiedWhereClauses, n: nat, i: int)
    requires
        0 <= i < n <= list.len(),
    ensures
        bound_height(list[i]) <= bounds_height(list, n),
    decreases n,
{
    if i < n - 1 {
        lemma_bounds_height(list, (n - 1) as nat, i);
    }
}

/// None of the first `n` goals is higher than their height.
pub proof fn lemma_goals_height(list: SharedGoals, n: nat, i: int)
    requires
        0 <= i < n <= list.len(),
    ensures
        goal_height(list[i]) <= goals_height(list, n),
    decreases n,
{
    if i < n - 1 {
        lemma_goals_height(list, (n - 1) as nat, i);
    }
}

/// None of the first `n` clauses is higher than their height.
pub proof fn lemma_clauses_height(list: SharedProgramClauses, n: nat, i: int)
    requires
        0 <= i < n <= list.len(),
    ensures
        clause_height(list[i]) <= clauses_height(list, n),
    decreases n,
{
    if i < n - 1 {
        lemma_clauses_height(list, (n - 1) as nat, i);
    }
}

impl<'n> WellFounded for Shared<'n> {
    proof fn lemma_ty_rank(&self, ty: &SharedTy) {
    }

    proof fn lemma_const_rank(&self, constant: &SharedConst) {
    }

    proof fn lemma_generic_arg_rank(&self, arg: &SharedGenericArg) {
    }

    proof fn lemma_goal_rank(&self, goal: &SharedGoal) {
    }

    proof fn lemma_goals_rank(&self, goals: &SharedGoals) {
        assert forall|i: int| 0 <= i < goals@.len() implies goal_height(#[trigger] goals@[i]) < 1
            + goals_height(*goals, goals.len() as nat) by {
            lemma_goals_height(*goals, goals.len() as nat, i);
        }
    }

    proof fn lemma_substitution_rank(&self, substitution: &SharedSubstitution) {
        assert forall|i: int| 0 <= i < substitution@.len() implies arg_height(
            #[trigger] substitution@[i],
        ) < 1 + args_height(*substitution, substitution.len() as nat) by {
            lemma_args_height(*substitution, substitution.len() as nat, i);
        }
    }

    proof fn lemma_program_clause_rank(&self, clause: &SharedProgramClause) {
    }

    proof fn lemma_program_clauses_rank(&self, clauses: &SharedProgramClauses) {
        assert forall|i: int| 0 <= i < clauses@.len() implies clause_height(
            #[trigger] clauses@[i],
        ) < 1 + clauses_height(*clauses, clauses.len() as nat) by {
            lemma_clauses_height(*clauses, clauses.len() as nat, i);
        }
    }

    proof fn lemma_quantified_where_clauses_rank(&self, clauses: &SharedQuantifiedWhereClauses) {
        assert forall|i: int| 0 <= i < clauses@.len() implies quantified_where_clause_rank(
            *self,
            #[trigger] clauses@[i],
        ) < 1 + bounds_height(*clauses, clauses.len() as nat) by {
            lemma_bounds_height(*clauses, clauses.len() as nat, i);
        }
    }

    proof fn lemma_variable_kinds_rank(&self, kinds: &SharedVariableKinds) {
        assert forall|i: int| 0 <= i < kinds@.len() implies variable_kind_rank(
            *self,
            #[trigger] kinds@[i],
        ) < 1 + kinds_height(*kinds, kinds.len() as nat) by {
            lemma_kinds_height(*kinds, kinds.len() as nat, i);
        }
    }

    proof fn lemma_canonical_var_kinds_rank(&self, kinds: &SharedCanonicalVarKinds) {
        assert forall|i: int| 0 <= i < kinds@.len() implies variable_kind_rank(
            *self,
            (#[trigger] kinds@[i]).kind,
        ) < 1 + canonical_kinds_height(*kinds, kinds.len() as nat) by {
            lemma_canonical_kinds_height(*kinds, kinds.len() as nat, i);
        }
    }
}

} // verus!
