//! The text of a term, given what the host answers.
//!
//! Every kind of term is first looked up in the table of answers. Where
//! the table has a rendering, that is the text; where it has none, the text
//! is put together from the parts of the term, each of which is looked up
//! in its turn.

use vstd::prelude::*;
use crate::answers::Answers;
use crate::interner::ConstData;
use crate::interner::GenericArgData;
use crate::interner::GoalData;
use crate::interner::Interner;
use crate::interner::ProgramClauseData;
use crate::interner::QuantifiedWhereClause;
use crate::interner::TyData;
use crate::plain::bound_var_text;
use crate::plain::const_value_text;
use crate::plain::inference_var_text;
use crate::plain::lifetime_data_text;
use crate::plain::placeholder_text;
use crate::plain::quantifier_text;
use crate::plain::scalar_text;
use crate::plain::universe_text;
use crate::rank::WellFounded;
use crate::rank::alias_eq_rank;
use crate::rank::alias_rank;
use crate::rank::application_rank;
use crate::rank::const_data_rank;
use crate::rank::dyn_rank;
use crate::rank::fn_sig_rank;
use crate::rank::generic_arg_data_rank;
use crate::rank::goal_data_rank;
use crate::rank::implication_rank;
use crate::rank::opaque_ty_rank;
use crate::rank::program_clause_data_rank;
use crate::rank::projection_rank;
use crate::rank::quantified_where_clause_rank;
use crate::rank::trait_ref_rank;
use crate::rank::ty_data_rank;
use crate::rank::variable_kind_rank;
use crate::rank::where_clause_rank;
use crate::shapes::AdtId;
use crate::shapes::AliasEq;
use crate::shapes::AliasTy;
use crate::shapes::ApplicationTy;
use crate::shapes::AssocTypeId;
use crate::shapes::CanonicalVarKind;
use crate::shapes::DomainGoal;
use crate::shapes::DynTy;
use crate::shapes::FnDefId;
use crate::shapes::FnSig;
use crate::shapes::GenericArgShape;
use crate::shapes::GoalShape;
use crate::shapes::OpaqueTy;
use crate::shapes::OpaqueTyId;
use crate::shapes::ProgramClauseImplication;
use crate::shapes::ProgramClauseShape;
use crate::shapes::ProjectionTy;
use crate::shapes::TraitId;
use crate::shapes::TraitRef;
use crate::shapes::TyShape;
use crate::shapes::TypeName;
use crate::shapes::VariableKind;
use crate::shapes::WellFormed;
use crate::shapes::WhereClause;
use crate::text::decimal;
use crate::var::BoundVar;
use crate::var::InferenceVar;
use crate::var::Mutability;
use crate::var::Scalar;

verus! {

/// The lifetime under a handle: a tick and what follows it.
pub open spec fn lifetime_written<I: Interner>(
    interner: I,
    answers: Answers<I>,
    lifetime: I::InternedLifetime,
) -> Seq<char> {
    match (answers.lifetime)(lifetime) {
        Some(text) => text,
        None => {
            lifetime_data_text(interner.lifetime_shape(&lifetime))
        },
    }
}

/// `AdtId(..)` around the identifier as the host numbers it.
pub open spec fn adt_id_written<I: Interner>(
    interner: I,
    answers: Answers<I>,
    id: AdtId<I::InternedAdtId>,
) -> Seq<char> {
    match (answers.adt_id)(id) {
        Some(text) => text,
        None => {
            "AdtId("@ + interner.adt_id_text(id.0) + ")"@
        },
    }
}

/// `TraitId(..)` around the identifier as the host numbers it.
pub open spec fn trait_id_written<I: Interner>(
    interner: I,
    answers: Answers<I>,
    id: TraitId<I::DefId>,
) -> Seq<char> {
    match (answers.trait_id)(id) {
        Some(text) => text,
        None => {
            "TraitId("@ + interner.def_id_text(id.0) + ")"@
        },
    }
}

/// `AssocTypeId(..)` around the identifier as the host numbers it.
pub open spec fn assoc_type_id_written<I: Interner>(
    interner: I,
    answers: Answers<I>,
    id: AssocTypeId<I::DefId>,
) -> Seq<char> {
    match (answers.assoc_type_id)(id) {
        Some(text) => text,
        None => {
            "AssocTypeId("@ + interner.def_id_text(id.0) + ")"@
        },
    }
}

/// `OpaqueTyId(..)` around the identifier as the host numbers it.
pub open spec fn opaque_ty_id_written<I: Interner>(
    interner: I,
    answers: Answers<I>,
    id: OpaqueTyId<I::DefId>,
) -> Seq<char> {
    match (answers.opaque_ty_id)(id) {
        Some(text) => text,
        None => {
            "OpaqueTyId("@ + interner.def_id_text(id.0) + ")"@
        },
    }
}

/// `FnDefId(..)` around the identifier as the host numbers it.
pub open spec fn fn_def_id_written<I: Interner>(
    interner: I,
    answers: Answers<I>,
    id: FnDefId<I::DefId>,
) -> Seq<char> {
    match (answers.fn_def_id)(id) {
        Some(text) => text,
        None => {
            "FnDefId("@ + interner.def_id_text(id.0) + ")"@
        },
    }
}

/// What a type application applies.
pub open spec fn type_name_written<I: Interner>(
    interner: I,
    answers: Answers<I>,
    name: TypeName<I::DefId, I::InternedAdtId>,
) -> Seq<char> {
    match name {
        TypeName::Adt(id) => adt_id_written(interner, answers, id),
        TypeName::AssociatedType(id) => assoc_type_id_written(interner, answers, id),
        TypeName::Scalar(scalar) => scalar_text(scalar),
        TypeName::Tuple(arity) => "Tuple("@ + decimal(arity as nat) + ")"@,
        TypeName::Slice => "Slice"@,
        TypeName::Raw(Mutability::Mut) => "*mut"@,
        TypeName::Raw(Mutability::Not) => "*const"@,
        TypeName::Ref(Mutability::Mut) => "&mut"@,
        TypeName::Ref(Mutability::Not) => "&"@,
        TypeName::OpaqueType(id) => opaque_ty_id_written(interner, answers, id),
        TypeName::FnDef(id) => fn_def_id_written(interner, answers, id),
    }
}

/// The type under a handle.
pub open spec fn ty_written<I: WellFounded>(
    interner: I,
    answers: Answers<I>,
    ty: I::InternedType,
) -> Seq<char>
    decreases interner.ty_rank(&ty), 0nat,
{
    match (answers.ty)(ty) {
        Some(text) => text,
        None => {
            proof {
                interner.lemma_ty_rank(&ty);
            }
            ty_data_written(interner, answers, interner.ty_shape(&ty))
        },
    }
}

/// The shape of a type, variant by variant.
pub open spec fn ty_data_written<I: WellFounded>(
    interner: I,
    answers: Answers<I>,
    data: TyData<I>,
) -> Seq<char>
    decreases ty_data_rank(interner, data), 0nat,
{
    match data {
        TyShape::Apply(application) => application_written(interner, answers, application),
        TyShape::BoundVar(var) => bound_var_text(var),
        TyShape::InferenceVar(var) => inference_var_text(var),
        TyShape::Dyn(dyn_ty) => dyn_written(interner, answers, dyn_ty),
        TyShape::Function(sig) => fn_sig_written(interner, answers, sig),
        TyShape::Alias(alias) => alias_written(interner, answers, alias),
        TyShape::Placeholder(placeholder) => placeholder_text(placeholder),
        TyShape::Error => "{error}"@,
    }
}

/// `Name<arg, arg>`, without the brackets where there is no argument.
pub open spec fn application_written<I: WellFounded>(
    interner: I,
    answers: Answers<I>,
    application: ApplicationTy<I::DefId, I::InternedAdtId, I::InternedSubstitution>,
) -> Seq<char>
    decreases application_rank(interner, application), 0nat,
{
    match (answers.application_ty)(application) {
        Some(text) => text,
        None => {
            type_name_written(interner, answers, application.name)
                + angle_written(interner, answers, application.substitution, 0)
        },
    }
}

/// `(AssocTypeId(..)<arg, arg>)`
pub open spec fn projection_written<I: WellFounded>(
    interner: I,
    answers: Answers<I>,
    projection: ProjectionTy<I::DefId, I::InternedSubstitution>,
) -> Seq<char>
    decreases projection_rank(interner, projection), 0nat,
{
    match (answers.projection_ty)(projection) {
        Some(text) => text,
        None => {
            "("@
                + assoc_type_id_written(interner, answers, projection.associated_ty_id)
                + angle_written(interner, answers, projection.substitution, 0)
                + ")"@
        },
    }
}

/// `(OpaqueTyId(..)<arg, arg>)`
pub open spec fn opaque_ty_written<I: WellFounded>(
    interner: I,
    answers: Answers<I>,
    opaque: OpaqueTy<I::DefId, I::InternedSubstitution>,
) -> Seq<char>
    decreases opaque_ty_rank(interner, opaque), 0nat,
{
    match (answers.opaque_ty)(opaque) {
        Some(text) => text,
        None => {
            "("@ + opaque_ty_id_written(interner, answers, opaque.opaque_ty_id) + angle_written(
                interner,
                answers,
                opaque.substitution,
                0,
            ) + ")"@
        },
    }
}

/// An alias, as the reference or the use that it is.
pub open spec fn alias_written<I: WellFounded>(
    interner: I,
    answers: Answers<I>,
    alias: AliasTy<I::DefId, I::InternedSubstitution>,
) -> Seq<char>
    decreases alias_rank(interner, alias), 0nat,
{
    match (answers.alias)(alias) {
        Some(text) => text,
        None => {
            match alias {
                AliasTy::Projection(projection) => projection_written(
                    interner,
                    answers,
                    projection,
                ),
                AliasTy::Opaque(opaque) => opaque_ty_written(interner, answers, opaque),
            }
        },
    }
}

/// `dyn for<kinds> [bound, bound]`
pub open spec fn dyn_written<I: WellFounded>(
    interner: I,
    answers: Answers<I>,
    dyn_ty: DynTy<I::InternedVariableKinds, I::InternedQuantifiedWhereClauses>,
) -> Seq<char>
    decreases dyn_rank(interner, dyn_ty), 0nat,
{
    "dyn for"@ + variable_kinds_with_angles_written(interner, answers, dyn_ty.bounds.binders) + " "@
        + quantified_where_clauses_written(interner, answers, dyn_ty.bounds.value)
}

/// `for<n> [arg, arg]`
pub open spec fn fn_sig_written<I: WellFounded>(
    interner: I,
    answers: Answers<I>,
    sig: FnSig<I::InternedSubstitution>,
) -> Seq<char>
    decreases fn_sig_rank(interner, sig), 0nat,
{
    "for<"@ + decimal(sig.num_binders as nat) + "> "@ + substitution_written(
        interner,
        answers,
        sig.substitution,
    )
}

/// The constant under a handle.
pub open spec fn const_written<I: WellFounded>(
    interner: I,
    answers: Answers<I>,
    constant: I::InternedConst,
) -> Seq<char>
    decreases interner.const_rank(&constant), 0nat,
{
    match (answers.constant)(constant) {
        Some(text) => text,
        None => {
            proof {
                interner.lemma_const_rank(&constant);
            }
            const_data_written(interner, answers, interner.const_shape(&constant))
        },
    }
}

/// `value: type`
pub open spec fn const_data_written<I: WellFounded>(
    interner: I,
    answers: Answers<I>,
    data: ConstData<I>,
) -> Seq<char>
    decreases const_data_rank(interner, data), 0nat,
{
    const_value_text(interner, data.value) + ": "@ + ty_written(interner, answers, data.ty)
}

/// The argument under a handle.
pub open spec fn generic_arg_written<I: WellFounded>(
    interner: I,
    answers: Answers<I>,
    arg: I::InternedGenericArg,
) -> Seq<char>
    decreases interner.generic_arg_rank(&arg), 0nat,
{
    match (answers.generic_arg)(arg) {
        Some(text) => text,
        None => {
            proof {
                interner.lemma_generic_arg_rank(&arg);
            }
            generic_arg_data_written(interner, answers, interner.generic_arg_shape(&arg))
        },
    }
}

/// An argument, as the type, lifetime or constant that it holds.
pub open spec fn generic_arg_data_written<I: WellFounded>(
    interner: I,
    answers: Answers<I>,
    data: GenericArgData<I>,
) -> Seq<char>
    decreases generic_arg_data_rank(interner, data), 0nat,
{
    match data {
        GenericArgShape::Ty(ty) => ty_written(interner, answers, ty),
        GenericArgShape::Lifetime(lifetime) => lifetime_written(interner, answers, lifetime),
        GenericArgShape::Const(constant) => const_written(interner, answers, constant),
    }
}

/// The arguments from `from` up to `to`, with `, ` between them.
pub open spec fn args_joined_written<I: WellFounded>(
    interner: I,
    answers: Answers<I>,
    substitution: I::InternedSubstitution,
    from: nat,
    to: nat,
) -> Seq<char>
    decreases interner.substitution_rank(&substitution), to,
{
    let items = interner.substitution_shape(&substitution);
    if to <= from || to > items.len() {
        Seq::empty()
    } else {
        proof {
            interner.lemma_substitution_rank(&substitution);
        }
        let last = generic_arg_written(interner, answers, items[to - 1]);
        if to == from + 1 {
            last
        } else {
            args_joined_written(interner, answers, substitution, from, (to - 1) as nat)
                + ", "@
                + last
        }
    }
}

/// `<arg, arg>` for the arguments from `from` on, and nothing where there
/// is none.
pub open spec fn angle_written<I: WellFounded>(
    interner: I,
    answers: Answers<I>,
    substitution: I::InternedSubstitution,
    from: nat,
) -> Seq<char>
    decreases interner.substitution_rank(&substitution),
        interner.substitution_shape(&substitution).len() + 1,
{
    let len = interner.substitution_shape(&substitution).len();
    if len <= from {
        Seq::empty()
    } else {
        "<"@ + args_joined_written(interner, answers, substitution, from, len) + ">"@
    }
}

/// `[arg, arg]`
pub open spec fn substitution_written<I: WellFounded>(
    interner: I,
    answers: Answers<I>,
    substitution: I::InternedSubstitution,
) -> Seq<char>
    decreases interner.substitution_rank(&substitution),
        interner.substitution_shape(&substitution).len() + 1,
{
    match (answers.substitution)(substitution) {
        Some(text) => text,
        None => {
            "["@ + args_joined_written(
                interner,
                answers,
                substitution,
                0,
                interner.substitution_shape(&substitution).len(),
            ) + "]"@
        },
    }
}

/// `type`, `lifetime` or `const: type`
pub open spec fn variable_kind_written<I: WellFounded>(
    interner: I,
    answers: Answers<I>,
    kind: VariableKind<I::InternedType>,
) -> Seq<char>
    decreases variable_kind_rank(interner, kind), 0nat,
{
    match kind {
        VariableKind::Ty => "type"@,
        VariableKind::Lifetime => "lifetime"@,
        VariableKind::Const(ty) => "const: "@ + ty_written(interner, answers, ty),
    }
}

/// The first `n` kinds, with `, ` between them.
pub open spec fn kinds_joined_written<I: WellFounded>(
    interner: I,
    answers: Answers<I>,
    kinds: I::InternedVariableKinds,
    n: nat,
) -> Seq<char>
    decreases interner.variable_kinds_rank(&kinds), n,
{
    let items = interner.variable_kinds_shape(&kinds);
    if n == 0 || n > items.len() {
        Seq::empty()
    } else {
        proof {
            interner.lemma_variable_kinds_rank(&kinds);
        }
        let last = variable_kind_written(interner, answers, items[n - 1]);
        if n == 1 {
            last
        } else {
            kinds_joined_written(interner, answers, kinds, (n - 1) as nat) + ", "@ + last
        }
    }
}

/// `[kind, kind]`
pub open spec fn variable_kinds_written<I: WellFounded>(
    interner: I,
    answers: Answers<I>,
    kinds: I::InternedVariableKinds,
) -> Seq<char>
    decreases interner.variable_kinds_rank(&kinds),
        interner.variable_kinds_shape(&kinds).len() + 1,
{
    match (answers.variable_kinds)(kinds) {
        Some(text) => text,
        None => {
            "["@
                + kinds_joined_written(
                    interner,
                    answers,
                    kinds,
                    interner.variable_kinds_shape(&kinds).len(),
                )
                + "]"@
        },
    }
}

/// `<kind, kind>`
pub open spec fn variable_kinds_with_angles_written<I: WellFounded>(
    interner: I,
    answers: Answers<I>,
    kinds: I::InternedVariableKinds,
) -> Seq<char>
    decreases interner.variable_kinds_rank(&kinds),
        interner.variable_kinds_shape(&kinds).len() + 1,
{
    match (answers.variable_kinds_with_angles)(kinds) {
        Some(text) => text,
        None => {
            "<"@
                + kinds_joined_written(
                    interner,
                    answers,
                    kinds,
                    interner.variable_kinds_shape(&kinds).len(),
                )
                + ">"@
        },
    }
}

/// `Self: Trait<arg, arg>`, with `separator` for the `: `.
pub open spec fn separator_trait_ref_written<I: WellFounded>(
    interner: I,
    answers: Answers<I>,
    trait_ref: TraitRef<I::DefId, I::InternedSubstitution>,
    separator: Seq<char>,
) -> Seq<char>
    decreases trait_ref_rank(interner, trait_ref), 0nat,
{
    match (answers.separator_trait_ref)(trait_ref, separator) {
        Some(text) => text,
        None => {
            args_joined_written(interner, answers, trait_ref.substitution, 0, 1)
                + separator
                + trait_id_written(interner, answers, trait_ref.trait_id)
                + angle_written(interner, answers, trait_ref.substitution, 1)
        },
    }
}

/// `AliasEq(alias = type)`
pub open spec fn alias_eq_written<I: WellFounded>(
    interner: I,
    answers: Answers<I>,
    alias_eq: AliasEq<I::DefId, I::InternedSubstitution, I::InternedType>,
) -> Seq<char>
    decreases alias_eq_rank(interner, alias_eq), 0nat,
{
    "AliasEq("@
        + alias_written(interner, answers, alias_eq.alias)
        + " = "@
        + ty_written(interner, answers, alias_eq.ty)
        + ")"@
}

/// `Implemented(Self: Trait<args>)` or `AliasEq(alias = type)`
pub open spec fn where_clause_written<I: WellFounded>(
    interner: I,
    answers: Answers<I>,
    clause: WhereClause<I::DefId, I::InternedSubstitution, I::InternedType>,
) -> Seq<char>
    decreases where_clause_rank(interner, clause), 0nat,
{
    match clause {
        WhereClause::Implemented(trait_ref) => "Implemented("@ + separator_trait_ref_written(
            interner,
            answers,
            trait_ref,
            ": "@,
        ) + ")"@,
        WhereClause::AliasEq(alias_eq) => alias_eq_written(interner, answers, alias_eq),
    }
}

/// `for<kinds> clause`
pub open spec fn quantified_where_clause_written<I: WellFounded>(
    interner: I,
    answers: Answers<I>,
    clause: QuantifiedWhereClause<I>,
) -> Seq<char>
    decreases quantified_where_clause_rank(interner, clause), 0nat,
{
    "for"@
        + variable_kinds_with_angles_written(interner, answers, clause.binders)
        + " "@
        + where_clause_written(interner, answers, clause.value)
}

/// The first `n` clauses, with `, ` between them.
pub open spec fn bounds_joined_written<I: WellFounded>(
    interner: I,
    answers: Answers<I>,
    clauses: I::InternedQuantifiedWhereClauses,
    n: nat,
) -> Seq<char>
    decreases interner.quantified_where_clauses_rank(&clauses), n,
{
    let items = interner.quantified_where_clauses_shape(&clauses);
    if n == 0 || n > items.len() {
        Seq::empty()
    } else {
        proof {
            interner.lemma_quantified_where_clauses_rank(&clauses);
        }
        let last = quantified_where_clause_written(interner, answers, items[n - 1]);
        if n == 1 {
            last
        } else {
            bounds_joined_written(interner, answers, clauses, (n - 1) as nat) + ", "@ + last
        }
    }
}

/// `[clause, clause]`
pub open spec fn quantified_where_clauses_written<I: WellFounded>(
    interner: I,
    answers: Answers<I>,
    clauses: I::InternedQuantifiedWhereClauses,
) -> Seq<char>
    decreases interner.quantified_where_clauses_rank(&clauses),
        interner.quantified_where_clauses_shape(&clauses).len() + 1,
{
    match (answers.quantified_where_clauses)(clauses) {
        Some(text) => text,
        None => {
            "["@ + bounds_joined_written(
                interner,
                answers,
                clauses,
                interner.quantified_where_clauses_shape(&clauses).len(),
            ) + "]"@
        },
    }
}

/// `WellFormed(Self: Trait<args>)` or `WellFormed(type)`
pub open spec fn well_formed_written<I: WellFounded>(
    interner: I,
    answers: Answers<I>,
    well_formed: WellFormed<I::DefId, I::InternedSubstitution, I::InternedType>,
) -> Seq<char> {
    match well_formed {
        WellFormed::Trait(trait_ref) => "WellFormed("@ + separator_trait_ref_written(
            interner,
            answers,
            trait_ref,
            ": "@,
        ) + ")"@,
        WellFormed::Ty(ty) => "WellFormed("@ + ty_written(interner, answers, ty) + ")"@,
    }
}

/// A goal about the program's declarations.
pub open spec fn domain_goal_written<I: WellFounded>(
    interner: I,
    answers: Answers<I>,
    goal: DomainGoal<I::DefId, I::InternedSubstitution, I::InternedType>,
) -> Seq<char> {
    match goal {
        DomainGoal::Holds(clause) => where_clause_written(interner, answers, clause),
        DomainGoal::WellFormed(well_formed) => well_formed_written(interner, answers, well_formed),
    }
}

/// `Uuniverse with kind`
pub open spec fn canonical_var_kind_written<I: WellFounded>(
    interner: I,
    answers: Answers<I>,
    kind: CanonicalVarKind<I::InternedType>,
) -> Seq<char> {
    universe_text(kind.universe) + " with "@ + variable_kind_written(interner, answers, kind.kind)
}

/// The first `n` kinds, with `, ` between them.
pub open spec fn canonical_kinds_joined_written<I: WellFounded>(
    interner: I,
    answers: Answers<I>,
    kinds: I::InternedCanonicalVarKinds,
    n: nat,
) -> Seq<char>
    decreases n,
{
    let items = interner.canonical_var_kinds_shape(&kinds);
    if n == 0 || n > items.len() {
        Seq::empty()
    } else {
        let last = canonical_var_kind_written(interner, answers, items[n - 1]);
        if n == 1 {
            last
        } else {
            canonical_kinds_joined_written(interner, answers, kinds, (n - 1) as nat) + ", "@ + last
        }
    }
}

/// `[Uuniverse with kind, Uuniverse with kind]`
pub open spec fn canonical_var_kinds_written<I: WellFounded>(
    interner: I,
    answers: Answers<I>,
    kinds: I::InternedCanonicalVarKinds,
) -> Seq<char> {
    match (answers.canonical_var_kinds)(kinds) {
        Some(text) => text,
        None => {
            "["@ + canonical_kinds_joined_written(
                interner,
                answers,
                kinds,
                interner.canonical_var_kinds_shape(&kinds).len(),
            ) + "]"@
        },
    }
}

/// The goal under a handle.
pub open spec fn goal_written<I: WellFounded>(
    interner: I,
    answers: Answers<I>,
    goal: I::InternedGoal,
) -> Seq<char>
    decreases interner.goal_rank(&goal), 0nat,
{
    match (answers.goal)(goal) {
        Some(text) => text,
        None => {
            proof {
                interner.lemma_goal_rank(&goal);
            }
            goal_data_written(interner, answers, interner.goal_shape(&goal))
        },
    }
}

/// The shape of a goal, variant by variant.
pub open spec fn goal_data_written<I: WellFounded>(
    interner: I,
    answers: Answers<I>,
    data: GoalData<I>,
) -> Seq<char>
    decreases goal_data_rank(interner, data), 0nat,
{
    match data {
        GoalShape::Quantified(kind, binders) => quantifier_text(kind)
            + variable_kinds_with_angles_written(interner, answers, binders.binders)
                + " { "@ + goal_written(interner, answers, binders.value) + " }"@,
        GoalShape::Implies(clauses, goal) => "if ("@
            + program_clauses_written(interner, answers, clauses)
            + ") { "@
            + goal_written(interner, answers, goal)
            + " }"@,
        GoalShape::All(goals) => "all"@ + goals_written(interner, answers, goals),
        GoalShape::Not(goal) => "not { "@ + goal_written(interner, answers, goal) + " }"@,
        GoalShape::DomainGoal(goal) => domain_goal_written(interner, answers, goal),
        GoalShape::Truth(true) => "True"@,
        GoalShape::Truth(false) => "CannotProve"@,
    }
}

/// The first `n` goals, with `, ` between them.
pub open spec fn goals_joined_written<I: WellFounded>(
    interner: I,
    answers: Answers<I>,
    goals: I::InternedGoals,
    n: nat,
) -> Seq<char>
    decreases interner.goals_rank(&goals), n,
{
    let items = interner.goals_shape(&goals);
    if n == 0 || n > items.len() {
        Seq::empty()
    } else {
        proof {
            interner.lemma_goals_rank(&goals);
        }
        let last = goal_written(interner, answers, items[n - 1]);
        if n == 1 {
            last
        } else {
            goals_joined_written(interner, answers, goals, (n - 1) as nat) + ", "@ + last
        }
    }
}

/// `(goal, goal)`
pub open spec fn goals_written<I: WellFounded>(
    interner: I,
    answers: Answers<I>,
    goals: I::InternedGoals,
) -> Seq<char>
    decreases interner.goals_rank(&goals), interner.goals_shape(&goals).len() + 1,
{
    match (answers.goals)(goals) {
        Some(text) => text,
        None => {
            "("@
                + goals_joined_written(interner, answers, goals, interner.goals_shape(&goals).len())
                + ")"@
        },
    }
}

/// `consequence :- condition, condition`, and the consequence alone where
/// nothing is asked.
pub open spec fn implication_written<I: WellFounded>(
    interner: I,
    answers: Answers<I>,
    implication: ProgramClauseImplication<
        I::DefId,
        I::InternedSubstitution,
        I::InternedType,
        I::InternedGoals,
    >,
) -> Seq<char>
    decreases implication_rank(interner, implication), 0nat,
{
    match (answers.program_clause_implication)(implication) {
        Some(text) => text,
        None => {
            let conditions = interner.goals_shape(&implication.conditions).len();
            if conditions == 0 {
                domain_goal_written(interner, answers, implication.consequence)
            } else {
                domain_goal_written(interner, answers, implication.consequence)
                    + " :- "@
                    + goals_joined_written(interner, answers, implication.conditions, conditions)
            }
        },
    }
}

/// The clause under a handle.
pub open spec fn program_clause_written<I: WellFounded>(
    interner: I,
    answers: Answers<I>,
    clause: I::InternedProgramClause,
) -> Seq<char>
    decreases interner.program_clause_rank(&clause), 0nat,
{
    match (answers.program_clause)(clause) {
        Some(text) => text,
        None => {
            proof {
                interner.lemma_program_clause_rank(&clause);
            }
            program_clause_data_written(interner, answers, interner.program_clause_shape(&clause))
        },
    }
}

/// An implication, with `for<kinds> ` before it where it is under a binder.
pub open spec fn program_clause_data_written<I: WellFounded>(
    interner: I,
    answers: Answers<I>,
    data: ProgramClauseData<I>,
) -> Seq<char>
    decreases program_clause_data_rank(interner, data), 0nat,
{
    match data {
        ProgramClauseShape::Implies(implication) => implication_written(
            interner,
            answers,
            implication,
        ),
        ProgramClauseShape::ForAll(binders) => "for"@ + variable_kinds_with_angles_written(
            interner,
            answers,
            binders.binders,
        ) + " "@ + implication_written(interner, answers, binders.value),
    }
}

/// The first `n` clauses, with `, ` between them.
pub open spec fn clauses_joined_written<I: WellFounded>(
    interner: I,
    answers: Answers<I>,
    clauses: I::InternedProgramClauses,
    n: nat,
) -> Seq<char>
    decreases interner.program_clauses_rank(&clauses), n,
{
    let items = interner.program_clauses_shape(&clauses);
    if n == 0 || n > items.len() {
        Seq::empty()
    } else {
        proof {
            interner.lemma_program_clauses_rank(&clauses);
        }
        let last = program_clause_written(interner, answers, items[n - 1]);
        if n == 1 {
            last
        } else {
            clauses_joined_written(interner, answers, clauses, (n - 1) as nat) + ", "@ + last
        }
    }
}

/// `[clause, clause]`
pub open spec fn program_clauses_written<I: WellFounded>(
    interner: I,
    answers: Answers<I>,
    clauses: I::InternedProgramClauses,
) -> Seq<char>
    decreases interner.program_clauses_rank(&clauses),
        interner.program_clauses_shape(&clauses).len() + 1,
{
    match (answers.program_clauses)(clauses) {
        Some(text) => text,
        None => {
            "["@
                + clauses_joined_written(
                    interner,
                    answers,
                    clauses,
                    interner.program_clauses_shape(&clauses).len(),
                )
                + "]"@
        },
    }
}

} // verus!
