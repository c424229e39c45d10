//! Writing terms as text.
//!
//! Every kind of term is first offered to the host. Where the host has a
//! rendering of its own, that is written; where it has none, the plain text
//! is written, piece by piece, and each piece is offered to the host in its
//! turn. Each function says whether what it wrote is the plain text.
//!
//! What is written is stated three ways. Nothing that the sink held is
//! touched. Where no hook answered, the text is the plain text. And for
//! every table of answers that agrees with the host, the text is the
//! written text for that table: so the text of a host whose hooks say what
//! they answer is known before anything is written.

use vstd::prelude::*;
use vstd::string::StringExecFns;
use crate::answers::silent;
use crate::answers::answers_of;
use crate::answers::Answers;
use crate::written::adt_id_written;
use crate::written::alias_eq_written;
use crate::written::alias_written;
use crate::written::angle_written;
use crate::written::application_written;
use crate::written::args_joined_written;
use crate::written::assoc_type_id_written;
use crate::written::bounds_joined_written;
use crate::written::canonical_kinds_joined_written;
use crate::written::canonical_var_kind_written;
use crate::written::canonical_var_kinds_written;
use crate::written::clauses_joined_written;
use crate::written::const_written;
use crate::written::domain_goal_written;
use crate::written::dyn_written;
use crate::written::fn_def_id_written;
use crate::written::fn_sig_written;
use crate::written::generic_arg_written;
use crate::written::goal_data_written;
use crate::written::goal_written;
use crate::written::goals_joined_written;
use crate::written::goals_written;
use crate::written::implication_written;
use crate::written::kinds_joined_written;
use crate::written::lifetime_written;
use crate::written::opaque_ty_id_written;
use crate::written::opaque_ty_written;
use crate::written::program_clause_data_written;
use crate::written::program_clause_written;
use crate::written::program_clauses_written;
use crate::written::projection_written;
use crate::written::quantified_where_clause_written;
use crate::written::quantified_where_clauses_written;
use crate::written::separator_trait_ref_written;
use crate::written::substitution_written;
use crate::written::trait_id_written;
use crate::written::ty_data_written;
use crate::written::ty_written;
use crate::written::type_name_written;
use crate::written::variable_kind_written;
use crate::written::variable_kinds_with_angles_written;
use crate::written::variable_kinds_written;
use crate::written::well_formed_written;
use crate::written::where_clause_written;
use crate::interner::Interner;
use crate::interner::GoalData;
use crate::interner::ProgramClauseData;
use crate::plain::canonical_kinds_joined;
use crate::plain::canonical_var_kind_text;
use crate::plain::canonical_var_kinds_text;
use crate::plain::clauses_joined;
use crate::plain::domain_goal_text;
use crate::plain::goal_data_text;
use crate::plain::goal_text;
use crate::plain::goals_joined;
use crate::plain::goals_text;
use crate::plain::implication_text;
use crate::plain::program_clause_data_text;
use crate::plain::program_clause_text;
use crate::plain::program_clauses_text;
use crate::plain::well_formed_text;
use crate::rank::goal_data_rank;
use crate::rank::implication_rank;
use crate::rank::program_clause_data_rank;
use crate::shapes::CanonicalVarKind;
use crate::shapes::DomainGoal;
use crate::shapes::GoalShape;
use crate::shapes::ProgramClauseShape;
use crate::shapes::WellFormed;
use crate::interner::QuantifiedWhereClause;
use crate::interner::TyData;
use crate::plain::alias_eq_text;
use crate::plain::alias_text;
use crate::plain::angle_text;
use crate::plain::application_text;
use crate::plain::args_joined;
use crate::plain::bounds_joined;
use crate::plain::const_text;
use crate::plain::const_value_text;
use crate::plain::dyn_text;
use crate::plain::fn_sig_text;
use crate::plain::generic_arg_text;
use crate::plain::kinds_joined;
use crate::plain::lifetime_text;
use crate::plain::opaque_ty_text;
use crate::plain::projection_text;
use crate::plain::quantified_where_clause_text;
use crate::plain::quantified_where_clauses_text;
use crate::plain::separator_trait_ref_text;
use crate::plain::substitution_text;
use crate::plain::ty_data_text;
use crate::plain::ty_text;
use crate::plain::variable_kind_text;
use crate::plain::variable_kinds_text;
use crate::plain::variable_kinds_with_angles_text;
use crate::plain::where_clause_text;
use crate::rank::alias_eq_rank;
use crate::rank::alias_rank;
use crate::rank::application_rank;
use crate::rank::dyn_rank;
use crate::rank::fn_sig_rank;
use crate::rank::opaque_ty_rank;
use crate::rank::projection_rank;
use crate::rank::quantified_where_clause_rank;
use crate::rank::trait_ref_rank;
use crate::rank::ty_data_rank;
use crate::rank::variable_kind_rank;
use crate::rank::where_clause_rank;
use crate::rank::WellFounded;
use crate::shapes::AliasEq;
use crate::shapes::ConstValue;
use crate::shapes::DynTy;
use crate::shapes::FnSig;
use crate::shapes::GenericArgShape;
use crate::shapes::TraitRef;
use crate::shapes::TyShape;
use crate::shapes::VariableKind;
use crate::shapes::WhereClause;
use crate::plain::adt_id_plain;
use crate::plain::assoc_type_id_plain;
use crate::plain::bound_var_text;
use crate::plain::fn_def_id_plain;
use crate::plain::inference_var_text;
use crate::plain::lifetime_data_text;
use crate::plain::opaque_ty_id_plain;
use crate::plain::placeholder_text;
use crate::plain::quantifier_text;
use crate::plain::scalar_text;
use crate::plain::trait_id_plain;
use crate::plain::type_name_text;
use crate::plain::universe_text;
use crate::shapes::AdtId;
use crate::shapes::AliasTy;
use crate::shapes::Binders;
use crate::shapes::ApplicationTy;
use crate::shapes::AssocTypeId;
use crate::shapes::FnDefId;
use crate::shapes::LifetimeData;
use crate::shapes::OpaqueTy;
use crate::shapes::OpaqueTyId;
use crate::shapes::ProgramClauseImplication;
use crate::shapes::ProjectionTy;
use crate::shapes::SeparatorTraitRef;
use crate::shapes::TraitId;
use crate::shapes::TypeName;
use crate::text::extends;
use crate::text::push_char;
use crate::text::push_decimal;
use crate::text::push_text;
use crate::var::BoundVar;
use crate::var::FloatTy;
use crate::var::InferenceVar;
use crate::var::IntTy;
use crate::var::Mutability;
use crate::var::PlaceholderIndex;
use crate::var::QuantifierKind;
use crate::var::Scalar;
use crate::var::UintTy;
use crate::var::UniverseIndex;

verus! {

/// What holds after a hook was asked and gave the answer `shown`: an
/// answer is written as it is, and nothing else; without an answer the
/// plain text `text` is written.
pub open spec fn asked(
    shown: Option<String>,
    before: Seq<char>,
    after: Seq<char>,
    plain: bool,
    text: Seq<char>,
) -> bool {
    match shown {
        Some(answer) => !plain && after == before + answer@,
        None => plain && after == before + text,
    }
}

/// What holds after a hook was asked and gave the answer `shown`, where
/// the plain text has parts that are offered to the host in their turn: an
/// answer is written as it is, and nothing else.
pub open spec fn answered(
    shown: Option<String>,
    before: Seq<char>,
    after: Seq<char>,
    plain: bool,
) -> bool {
    match shown {
        Some(answer) => !plain && after == before + answer@,
        None => true,
    }
}

/// Writes what a hook answered, if it answered, and tells whether it did.
pub fn write_shown(shown: Option<String>, out: &mut String) -> (handled: bool)
    ensures
        handled == shown is Some,
        final(out)@ == old(out)@ + (match shown {
            Some(text) => text@,
            None => Seq::empty(),
        }),
        extends(final(out)@, old(out)@),
{
    match shown {
        Some(text) => {
            out.append(text.as_str());
            true
        },
        None => {
            assert(out@ =~= old(out)@ + Seq::<char>::empty());
            false
        },
    }
}

/// Writes `^depth.index`.
pub fn write_bound_var(var: &BoundVar, out: &mut String)
    ensures
        final(out)@ == old(out)@ + bound_var_text(*var),
{
    push_char(out, '^');
    push_decimal(out, var.debruijn.depth as u64);
    push_char(out, '.');
    push_decimal(out, var.index as u64);
    assert(out@ =~= old(out)@ + bound_var_text(*var));
}

/// Writes `?index`.
pub fn write_inference_var(var: &InferenceVar, out: &mut String)
    ensures
        final(out)@ == old(out)@ + inference_var_text(*var),
{
    push_char(out, '?');
    push_decimal(out, var.index as u64);
    assert(out@ =~= old(out)@ + inference_var_text(*var));
}

/// Writes `!universe_index`.
pub fn write_placeholder(placeholder: &PlaceholderIndex, out: &mut String)
    ensures
        final(out)@ == old(out)@ + placeholder_text(*placeholder),
{
    push_char(out, '!');
    push_decimal(out, placeholder.ui.counter as u64);
    push_char(out, '_');
    push_decimal(out, placeholder.idx as u64);
    assert(out@ =~= old(out)@ + placeholder_text(*placeholder));
}

/// Writes `Ucounter`.
pub fn write_universe(universe: &UniverseIndex, out: &mut String)
    ensures
        final(out)@ == old(out)@ + universe_text(*universe),
{
    push_char(out, 'U');
    push_decimal(out, universe.counter as u64);
    assert(out@ =~= old(out)@ + universe_text(*universe));
}

/// Writes `ForAll` or `Exists`.
pub fn write_quantifier(kind: &QuantifierKind, out: &mut String)
    ensures
        final(out)@ == old(out)@ + quantifier_text(*kind),
{
    match kind {
        QuantifierKind::ForAll => push_text(out, "ForAll"),
        QuantifierKind::Exists => push_text(out, "Exists"),
    }
}

/// Writes a scalar type by its name.
pub fn write_scalar(scalar: &Scalar, out: &mut String)
    ensures
        final(out)@ == old(out)@ + scalar_text(*scalar),
{
    match scalar {
        Scalar::Bool => push_text(out, "bool"),
        Scalar::Char => push_text(out, "char"),
        Scalar::Int(IntTy::Isize) => push_text(out, "isize"),
        Scalar::Int(IntTy::I8) => push_text(out, "i8"),
        Scalar::Int(IntTy::I16) => push_text(out, "i16"),
        Scalar::Int(IntTy::I32) => push_text(out, "i32"),
        Scalar::Int(IntTy::I64) => push_text(out, "i64"),
        Scalar::Int(IntTy::I128) => push_text(out, "i128"),
        Scalar::Uint(UintTy::Usize) => push_text(out, "usize"),
        Scalar::Uint(UintTy::U8) => push_text(out, "u8"),
        Scalar::Uint(UintTy::U16) => push_text(out, "u16"),
        Scalar::Uint(UintTy::U32) => push_text(out, "u32"),
        Scalar::Uint(UintTy::U64) => push_text(out, "u64"),
        Scalar::Uint(UintTy::U128) => push_text(out, "u128"),
        Scalar::Float(FloatTy::F32) => push_text(out, "f32"),
        Scalar::Float(FloatTy::F64) => push_text(out, "f64"),
    }
}

/// Writes a lifetime as it is stored.
pub fn write_lifetime_data(data: &LifetimeData, out: &mut String)
    ensures
        final(out)@ == old(out)@ + lifetime_data_text(*data),
{
    match data {
        LifetimeData::BoundVar(var) => {
            push_char(out, '\'');
            write_bound_var(var, out);
            assert(out@ =~= old(out)@ + lifetime_data_text(*data));
        },
        LifetimeData::InferenceVar(var) => {
            push_char(out, '\'');
            write_inference_var(var, out);
            assert(out@ =~= old(out)@ + lifetime_data_text(*data));
        },
        LifetimeData::Placeholder(placeholder) => {
            push_char(out, '\'');
            write_placeholder(placeholder, out);
            assert(out@ =~= old(out)@ + lifetime_data_text(*data));
        },
        LifetimeData::Static => push_text(out, "'static"),
        LifetimeData::Error => push_text(out, "'{error}"),
    }
}

/// Writes the identifier of a struct or enum: what the host calls it, or else
/// `AdtId(..)` around the identifier as the host numbers it.
pub fn render_adt_id<I: Interner>(
    interner: &I,
    id: AdtId<I::InternedAdtId>,
    out: &mut String,
) -> (plain: bool)
    ensures
        extends(final(out)@, old(out)@),
        plain ==> final(out)@ == old(out)@ + adt_id_plain(*interner, id),
        silent(*interner) ==> plain,
        forall|answers: Answers<I>|
            #[trigger] answers_of(*interner, answers) ==>
                final(out)@ == old(out)@ + adt_id_written(*interner, answers, id),
        exists|shown: Option<String>|
            #[trigger] call_ensures(I::debug_adt_id, (interner, id), shown) && asked(
                shown,
                old(out)@,
                final(out)@,
                plain,
                adt_id_plain(*interner, id),
            ),
{
    proof {
        reveal(answers_of);
    }
    if write_shown(interner.debug_adt_id(id), out) {
        return false;
    }
    push_text(out, "AdtId(");
    let raw = interner.show_adt_id(id.0);
    push_text(out, raw.as_str());
    push_text(out, ")");
    proof {
        assert(out@ =~= old(out)@ + adt_id_plain(*interner, id));
    }
    true
}

/// Writes the identifier of a trait: what the host calls it, or else
/// `TraitId(..)` around the identifier as the host numbers it.
pub fn render_trait_id<I: Interner>(
    interner: &I,
    id: TraitId<I::DefId>,
    out: &mut String,
) -> (plain: bool)
    ensures
        extends(final(out)@, old(out)@),
        plain ==> final(out)@ == old(out)@ + trait_id_plain(*interner, id),
        silent(*interner) ==> plain,
        forall|answers: Answers<I>|
            #[trigger] answers_of(*interner, answers) ==>
                final(out)@ == old(out)@ + trait_id_written(*interner, answers, id),
        exists|shown: Option<String>|
            #[trigger] call_ensures(I::debug_trait_id, (interner, id), shown) && asked(
                shown,
                old(out)@,
                final(out)@,
                plain,
                trait_id_plain(*interner, id),
            ),
{
    proof {
        reveal(answers_of);
    }
    if write_shown(interner.debug_trait_id(id), out) {
        return false;
    }
    push_text(out, "TraitId(");
    let raw = interner.show_def_id(id.0);
    push_text(out, raw.as_str());
    push_text(out, ")");
    proof {
        assert(out@ =~= old(out)@ + trait_id_plain(*interner, id));
    }
    true
}

/// Writes the identifier of an associated type: what the host calls it, or else
/// `AssocTypeId(..)` around the identifier as the host numbers it.
pub fn render_assoc_type_id<I: Interner>(
    interner: &I,
    id: AssocTypeId<I::DefId>,
    out: &mut String,
) -> (plain: bool)
    ensures
        extends(final(out)@, old(out)@),
        plain ==> final(out)@ == old(out)@ + assoc_type_id_plain(*interner, id),
        silent(*interner) ==> plain,
        forall|answers: Answers<I>|
            #[trigger] answers_of(*interner, answers) ==>
                final(out)@ == old(out)@ + assoc_type_id_written(*interner, answers, id),
        exists|shown: Option<String>|
            #[trigger] call_ensures(I::debug_assoc_type_id, (interner, id), shown) && asked(
                shown,
                old(out)@,
                final(out)@,
                plain,
                assoc_type_id_plain(*interner, id),
            ),
{
    proof {
        reveal(answers_of);
    }
    if write_shown(interner.debug_assoc_type_id(id), out) {
        return false;
    }
    push_text(out, "AssocTypeId(");
    let raw = interner.show_def_id(id.0);
    push_text(out, raw.as_str());
    push_text(out, ")");
    proof {
        assert(out@ =~= old(out)@ + assoc_type_id_plain(*interner, id));
    }
    true
}

/// Writes the identifier of an opaque type: what the host calls it, or else
/// `OpaqueTyId(..)` around the identifier as the host numbers it.
pub fn render_opaque_ty_id<I: Interner>(
    interner: &I,
    id: OpaqueTyId<I::DefId>,
    out: &mut String,
) -> (plain: bool)
    ensures
        extends(final(out)@, old(out)@),
        plain ==> final(out)@ == old(out)@ + opaque_ty_id_plain(*interner, id),
        silent(*interner) ==> plain,
        forall|answers: Answers<I>|
            #[trigger] answers_of(*interner, answers) ==>
                final(out)@ == old(out)@ + opaque_ty_id_written(*interner, answers, id),
        exists|shown: Option<String>|
            #[trigger] call_ensures(I::debug_opaque_ty_id, (interner, id), shown) && asked(
                shown,
                old(out)@,
                final(out)@,
                plain,
                opaque_ty_id_plain(*interner, id),
            ),
{
    proof {
        reveal(answers_of);
    }
    if write_shown(interner.debug_opaque_ty_id(id), out) {
        return false;
    }
    push_text(out, "OpaqueTyId(");
    let raw = interner.show_def_id(id.0);
    push_text(out, raw.as_str());
    push_text(out, ")");
    proof {
        assert(out@ =~= old(out)@ + opaque_ty_id_plain(*interner, id));
    }
    true
}

/// Writes the identifier of a function definition: what the host calls it, or
/// else `FnDefId(..)` around the identifier as the host numbers it.
pub fn render_fn_def_id<I: Interner>(
    interner: &I,
    id: FnDefId<I::DefId>,
    out: &mut String,
) -> (plain: bool)
    ensures
        extends(final(out)@, old(out)@),
        plain ==> final(out)@ == old(out)@ + fn_def_id_plain(*interner, id),
        silent(*interner) ==> plain,
        forall|answers: Answers<I>|
            #[trigger] answers_of(*interner, answers) ==>
                final(out)@ == old(out)@ + fn_def_id_written(*interner, answers, id),
        exists|shown: Option<String>|
            #[trigger] call_ensures(I::debug_fn_def_id, (interner, id), shown) && asked(
                shown,
                old(out)@,
                final(out)@,
                plain,
                fn_def_id_plain(*interner, id),
            ),
{
    proof {
        reveal(answers_of);
    }
    if write_shown(interner.debug_fn_def_id(id), out) {
        return false;
    }
    push_text(out, "FnDefId(");
    let raw = interner.show_def_id(id.0);
    push_text(out, raw.as_str());
    push_text(out, ")");
    proof {
        assert(out@ =~= old(out)@ + fn_def_id_plain(*interner, id));
    }
    true
}

/// Writes what a type application applies.
pub fn render_type_name<I: Interner>(
    interner: &I,
    name: &TypeName<I::DefId, I::InternedAdtId>,
    out: &mut String,
) -> (plain: bool)
    ensures
        extends(final(out)@, old(out)@),
        plain ==> final(out)@ == old(out)@ + type_name_text(*interner, *name),
        silent(*interner) ==> plain,
        forall|answers: Answers<I>|
            #[trigger] answers_of(*interner, answers) ==>
                final(out)@ == old(out)@ + type_name_written(*interner, answers, *name),
{
    let plain = match name {
        TypeName::Adt(id) => render_adt_id(interner, *id, out),
        TypeName::AssociatedType(id) => render_assoc_type_id(interner, *id, out),
        TypeName::OpaqueType(id) => render_opaque_ty_id(interner, *id, out),
        TypeName::FnDef(id) => render_fn_def_id(interner, *id, out),
        TypeName::Scalar(scalar) => {
            write_scalar(scalar, out);
            true
        },
        TypeName::Tuple(arity) => {
            push_text(out, "Tuple(");
            push_decimal(out, *arity as u64);
            push_text(out, ")");
            true
        },
        TypeName::Slice => {
            push_text(out, "Slice");
            true
        },
        TypeName::Raw(Mutability::Mut) => {
            push_text(out, "*mut");
            true
        },
        TypeName::Raw(Mutability::Not) => {
            push_text(out, "*const");
            true
        },
        TypeName::Ref(Mutability::Mut) => {
            push_text(out, "&mut");
            true
        },
        TypeName::Ref(Mutability::Not) => {
            push_text(out, "&");
            true
        },
    };
    proof {
        if plain {
            assert(out@ =~= old(out)@ + type_name_text(*interner, *name));
        }
        assert forall|answers: Answers<I>| #[trigger] answers_of(*interner, answers) implies
            out@ == old(out)@
            + type_name_written(*interner, answers, *name) by {
            assert(out@ =~= old(out)@ + type_name_written(*interner, answers, *name));
        }
    }
    plain
}

/// Writes a type: the host's rendering, or else the plain text of what
/// the handle stands for.
pub fn render_ty<I: WellFounded>(
    interner: &I,
    ty: &I::InternedType,
    out: &mut String,
) -> (plain: bool)
    ensures
        extends(final(out)@, old(out)@),
        plain ==> final(out)@ == old(out)@ + ty_text(*interner, *ty),
        silent(*interner) ==> plain,
        forall|answers: Answers<I>|
            #[trigger] answers_of(*interner, answers) ==>
                final(out)@ == old(out)@ + ty_written(*interner, answers, *ty),
        exists|shown: Option<String>|
            #[trigger] call_ensures(I::debug_ty, (interner, ty), shown) && answered(
                shown,
                old(out)@,
                final(out)@,
                plain,
            ),
    decreases interner.ty_rank(ty), 0nat,
{
    proof {
        reveal(answers_of);
    }
    if write_shown(interner.debug_ty(ty), out) {
        return false;
    }
    proof {
        interner.lemma_ty_rank(ty);
    }
    render_ty_data(interner, interner.ty_data(ty), out)
}

/// Writes the shape of a type, variant by variant.
pub fn render_ty_data<I: WellFounded>(
    interner: &I,
    data: &TyData<I>,
    out: &mut String,
) -> (plain: bool)
    ensures
        extends(final(out)@, old(out)@),
        plain ==> final(out)@ == old(out)@ + ty_data_text(*interner, *data),
        silent(*interner) ==> plain,
        forall|answers: Answers<I>|
            #[trigger] answers_of(*interner, answers) ==>
                final(out)@ == old(out)@ + ty_data_written(*interner, answers, *data),
    decreases ty_data_rank(*interner, *data), 0nat,
{
    let plain = match data {
        TyShape::Apply(application) => render_application(interner, application, out),
        TyShape::Dyn(dyn_ty) => render_dyn(interner, dyn_ty, out),
        TyShape::Function(sig) => render_fn_sig(interner, sig, out),
        TyShape::Alias(alias) => render_alias(interner, alias, out),
        TyShape::BoundVar(var) => {
            write_bound_var(var, out);
            true
        },
        TyShape::InferenceVar(var) => {
            write_inference_var(var, out);
            true
        },
        TyShape::Placeholder(placeholder) => {
            write_placeholder(placeholder, out);
            true
        },
        TyShape::Error => {
            push_text(out, "{error}");
            true
        },
    };
    plain
}

/// Writes a type application as `Name<arg, arg>`.
pub fn render_application<I: WellFounded>(
    interner: &I,
    application: &ApplicationTy<I::DefId, I::InternedAdtId, I::InternedSubstitution>,
    out: &mut String,
) -> (plain: bool)
    ensures
        extends(final(out)@, old(out)@),
        plain ==> final(out)@ == old(out)@ + application_text(*interner, *application),
        silent(*interner) ==> plain,
        forall|answers: Answers<I>|
            #[trigger] answers_of(*interner, answers) ==>
                final(out)@ == old(out)@ + application_written(*interner, answers, *application),
        exists|shown: Option<String>|
            #[trigger] call_ensures(I::debug_application_ty, (interner, application), shown)
                && answered(
                shown,
                old(out)@,
                final(out)@,
                plain,
            ),
    decreases application_rank(*interner, *application), 0nat,
{
    proof {
        reveal(answers_of);
    }
    if write_shown(interner.debug_application_ty(application), out) {
        return false;
    }
    let name_plain = render_type_name(interner, &application.name, out);
    let args_plain = render_angle(interner, &application.substitution, 0, out);
    let plain = name_plain && args_plain;
    proof {
        if plain {
            assert(out@ =~= old(out)@ + application_text(*interner, *application));
        }
        assert forall|answers: Answers<I>| #[trigger] answers_of(*interner, answers) implies
            out@ == old(out)@
            + application_written(*interner, answers, *application) by {
            assert(out@ =~= old(out)@ + application_written(*interner, answers, *application));
        }
        assert(extends(out@, old(out)@));
    }
    plain
}

/// Writes a reference to an associated type as `(AssocTypeId(..)<args>)`.
pub fn render_projection<I: WellFounded>(
    interner: &I,
    projection: &ProjectionTy<I::DefId, I::InternedSubstitution>,
    out: &mut String,
) -> (plain: bool)
    ensures
        extends(final(out)@, old(out)@),
        plain ==> final(out)@ == old(out)@ + projection_text(*interner, *projection),
        silent(*interner) ==> plain,
        forall|answers: Answers<I>|
            #[trigger] answers_of(*interner, answers) ==>
                final(out)@ == old(out)@ + projection_written(*interner, answers, *projection),
        exists|shown: Option<String>|
            #[trigger] call_ensures(I::debug_projection_ty, (interner, projection), shown)
                && answered(
                shown,
                old(out)@,
                final(out)@,
                plain,
            ),
    decreases projection_rank(*interner, *projection), 0nat,
{
    proof {
        reveal(answers_of);
    }
    if write_shown(interner.debug_projection_ty(projection), out) {
        return false;
    }
    push_text(out, "(");
    let id_plain = render_assoc_type_id(interner, projection.associated_ty_id, out);
    let args_plain = render_angle(interner, &projection.substitution, 0, out);
    push_text(out, ")");
    let plain = id_plain && args_plain;
    proof {
        if plain {
            assert(out@ =~= old(out)@ + projection_text(*interner, *projection));
        }
        assert forall|answers: Answers<I>| #[trigger] answers_of(*interner, answers) implies
            out@ == old(out)@
            + projection_written(*interner, answers, *projection) by {
            assert(out@ =~= old(out)@ + projection_written(*interner, answers, *projection));
        }
        assert(extends(out@, old(out)@));
    }
    plain
}

/// Writes a use of an opaque type as `(OpaqueTyId(..)<args>)`.
pub fn render_opaque_ty<I: WellFounded>(
    interner: &I,
    opaque: &OpaqueTy<I::DefId, I::InternedSubstitution>,
    out: &mut String,
) -> (plain: bool)
    ensures
        extends(final(out)@, old(out)@),
        plain ==> final(out)@ == old(out)@ + opaque_ty_text(*interner, *opaque),
        silent(*interner) ==> plain,
        forall|answers: Answers<I>|
            #[trigger] answers_of(*interner, answers) ==>
                final(out)@ == old(out)@ + opaque_ty_written(*interner, answers, *opaque),
        exists|shown: Option<String>|
            #[trigger] call_ensures(I::debug_opaque_ty, (interner, opaque), shown) && answered(
                shown,
                old(out)@,
                final(out)@,
                plain,
            ),
    decreases opaque_ty_rank(*interner, *opaque), 0nat,
{
    proof {
        reveal(answers_of);
    }
    if write_shown(interner.debug_opaque_ty(opaque), out) {
        return false;
    }
    push_text(out, "(");
    let id_plain = render_opaque_ty_id(interner, opaque.opaque_ty_id, out);
    let args_plain = render_angle(interner, &opaque.substitution, 0, out);
    push_text(out, ")");
    let plain = id_plain && args_plain;
    proof {
        if plain {
            assert(out@ =~= old(out)@ + opaque_ty_text(*interner, *opaque));
        }
        assert forall|answers: Answers<I>| #[trigger] answers_of(*interner, answers) implies
            out@ == old(out)@
            + opaque_ty_written(*interner, answers, *opaque) by {
            assert(out@ =~= old(out)@ + opaque_ty_written(*interner, answers, *opaque));
        }
        assert(extends(out@, old(out)@));
    }
    plain
}

/// Writes an alias.
pub fn render_alias<I: WellFounded>(
    interner: &I,
    alias: &AliasTy<I::DefId, I::InternedSubstitution>,
    out: &mut String,
) -> (plain: bool)
    ensures
        extends(final(out)@, old(out)@),
        plain ==> final(out)@ == old(out)@ + alias_text(*interner, *alias),
        silent(*interner) ==> plain,
        forall|answers: Answers<I>|
            #[trigger] answers_of(*interner, answers) ==>
                final(out)@ == old(out)@ + alias_written(*interner, answers, *alias),
        exists|shown: Option<String>|
            #[trigger] call_ensures(I::debug_alias, (interner, alias), shown) && answered(
                shown,
                old(out)@,
                final(out)@,
                plain,
            ),
    decreases alias_rank(*interner, *alias), 0nat,
{
    proof {
        reveal(answers_of);
    }
    if write_shown(interner.debug_alias(alias), out) {
        return false;
    }
    match alias {
        AliasTy::Projection(projection) => render_projection(interner, projection, out),
        AliasTy::Opaque(opaque) => render_opaque_ty(interner, opaque, out),
    }
}

/// Writes a trait object as `dyn for<kinds> [bound, bound]`.
pub fn render_dyn<I: WellFounded>(
    interner: &I,
    dyn_ty: &DynTy<I::InternedVariableKinds, I::InternedQuantifiedWhereClauses>,
    out: &mut String,
) -> (plain: bool)
    ensures
        extends(final(out)@, old(out)@),
        plain ==> final(out)@ == old(out)@ + dyn_text(*interner, *dyn_ty),
        silent(*interner) ==> plain,
        forall|answers: Answers<I>|
            #[trigger] answers_of(*interner, answers) ==>
                final(out)@ == old(out)@ + dyn_written(*interner, answers, *dyn_ty),
    decreases dyn_rank(*interner, *dyn_ty), 0nat,
{
    push_text(out, "dyn for");
    let kinds_plain = render_variable_kinds_with_angles(interner, &dyn_ty.bounds.binders, out);
    push_text(out, " ");
    let bounds_plain = render_quantified_where_clauses(interner, &dyn_ty.bounds.value, out);
    let plain = kinds_plain && bounds_plain;
    proof {
        if plain {
            assert(out@ =~= old(out)@ + dyn_text(*interner, *dyn_ty));
        }
        assert forall|answers: Answers<I>| #[trigger] answers_of(*interner, answers) implies
            out@ == old(out)@
            + dyn_written(*interner, answers, *dyn_ty) by {
            assert(out@ =~= old(out)@ + dyn_written(*interner, answers, *dyn_ty));
        }
        assert(extends(out@, old(out)@));
    }
    plain
}

/// Writes the signature of a function pointer as `for<n> [arg, arg]`.
pub fn render_fn_sig<I: WellFounded>(
    interner: &I,
    sig: &FnSig<I::InternedSubstitution>,
    out: &mut String,
) -> (plain: bool)
    ensures
        extends(final(out)@, old(out)@),
        plain ==> final(out)@ == old(out)@ + fn_sig_text(*interner, *sig),
        silent(*interner) ==> plain,
        forall|answers: Answers<I>|
            #[trigger] answers_of(*interner, answers) ==>
                final(out)@ == old(out)@ + fn_sig_written(*interner, answers, *sig),
    decreases fn_sig_rank(*interner, *sig), 0nat,
{
    push_text(out, "for<");
    push_decimal(out, sig.num_binders as u64);
    push_text(out, "> ");
    let plain = render_substitution(interner, &sig.substitution, out);
    proof {
        if plain {
            assert(out@ =~= old(out)@ + fn_sig_text(*interner, *sig));
        }
        assert forall|answers: Answers<I>| #[trigger] answers_of(*interner, answers) implies
            out@ == old(out)@
            + fn_sig_written(*interner, answers, *sig) by {
            assert(out@ =~= old(out)@ + fn_sig_written(*interner, answers, *sig));
        }
        assert(extends(out@, old(out)@));
    }
    plain
}

/// Writes a lifetime: the host's rendering, or else the plain text.
pub fn render_lifetime<I: Interner>(
    interner: &I,
    lifetime: &I::InternedLifetime,
    out: &mut String,
) -> (plain: bool)
    ensures
        extends(final(out)@, old(out)@),
        plain ==> final(out)@ == old(out)@ + lifetime_text(*interner, *lifetime),
        silent(*interner) ==> plain,
        forall|answers: Answers<I>|
            #[trigger] answers_of(*interner, answers) ==>
                final(out)@ == old(out)@ + lifetime_written(*interner, answers, *lifetime),
        exists|shown: Option<String>|
            #[trigger] call_ensures(I::debug_lifetime, (interner, lifetime), shown) && asked(
                shown,
                old(out)@,
                final(out)@,
                plain,
                lifetime_text(*interner, *lifetime),
            ),
{
    proof {
        reveal(answers_of);
    }
    if write_shown(interner.debug_lifetime(lifetime), out) {
        return false;
    }
    write_lifetime_data(interner.lifetime_data(lifetime), out);
    true
}

/// Writes the value of a constant.
pub fn render_const_value<I: Interner>(
    interner: &I,
    value: &ConstValue<I::InternedConcreteConst>,
    out: &mut String,
)
    ensures
        final(out)@ == old(out)@ + const_value_text(*interner, *value),
{
    match value {
        ConstValue::Concrete(concrete) => {
            let text = interner.show_concrete_const(concrete);
            push_text(out, text.as_str());
        },
        ConstValue::BoundVar(var) => write_bound_var(var, out),
        ConstValue::Placeholder(placeholder) => write_placeholder(placeholder, out),
        ConstValue::InferenceVar(var) => write_inference_var(var, out),
    }
}

/// Writes a constant as `value: type`, unless the host has a rendering.
pub fn render_const<I: WellFounded>(
    interner: &I,
    constant: &I::InternedConst,
    out: &mut String,
) -> (plain: bool)
    ensures
        extends(final(out)@, old(out)@),
        plain ==> final(out)@ == old(out)@ + const_text(*interner, *constant),
        silent(*interner) ==> plain,
        forall|answers: Answers<I>|
            #[trigger] answers_of(*interner, answers) ==>
                final(out)@ == old(out)@ + const_written(*interner, answers, *constant),
        exists|shown: Option<String>|
            #[trigger] call_ensures(I::debug_const, (interner, constant), shown) && answered(
                shown,
                old(out)@,
                final(out)@,
                plain,
            ),
    decreases interner.const_rank(constant), 0nat,
{
    proof {
        reveal(answers_of);
    }
    if write_shown(interner.debug_const(constant), out) {
        return false;
    }
    proof {
        interner.lemma_const_rank(constant);
    }
    let data = interner.const_data(constant);
    render_const_value(interner, &data.value, out);
    push_text(out, ": ");
    let plain = render_ty(interner, &data.ty, out);
    proof {
        if plain {
            assert(out@ =~= old(out)@ + const_text(*interner, *constant));
        }
        assert forall|answers: Answers<I>| #[trigger] answers_of(*interner, answers) implies
            out@ == old(out)@
            + const_written(*interner, answers, *constant) by {
            assert(out@ =~= old(out)@ + const_written(*interner, answers, *constant));
        }
        assert(extends(out@, old(out)@));
    }
    plain
}

/// Writes a generic argument: the type, lifetime or constant that it is.
pub fn render_generic_arg<I: WellFounded>(
    interner: &I,
    arg: &I::InternedGenericArg,
    out: &mut String,
) -> (plain: bool)
    ensures
        extends(final(out)@, old(out)@),
        plain ==> final(out)@ == old(out)@ + generic_arg_text(*interner, *arg),
        silent(*interner) ==> plain,
        forall|answers: Answers<I>|
            #[trigger] answers_of(*interner, answers) ==>
                final(out)@ == old(out)@ + generic_arg_written(*interner, answers, *arg),
        exists|shown: Option<String>|
            #[trigger] call_ensures(I::debug_generic_arg, (interner, arg), shown) && answered(
                shown,
                old(out)@,
                final(out)@,
                plain,
            ),
    decreases interner.generic_arg_rank(arg), 0nat,
{
    proof {
        reveal(answers_of);
    }
    if write_shown(interner.debug_generic_arg(arg), out) {
        return false;
    }
    proof {
        interner.lemma_generic_arg_rank(arg);
    }
    match interner.generic_arg_data(arg) {
        GenericArgShape::Ty(ty) => render_ty(interner, ty, out),
        GenericArgShape::Lifetime(lifetime) => render_lifetime(interner, lifetime, out),
        GenericArgShape::Const(constant) => render_const(interner, constant, out),
    }
}

/// Writes the arguments of a substitution from `from` on, with `, `
/// between them.
pub fn render_args<I: WellFounded>(
    interner: &I,
    substitution: &I::InternedSubstitution,
    from: usize,
    out: &mut String,
) -> (plain: bool)
    ensures
        extends(final(out)@, old(out)@),
        plain ==> final(out)@ == old(out)@ + args_joined(
            *interner,
            *substitution,
            from as nat,
            interner.substitution_shape(substitution).len(),
        ),
        silent(*interner) ==> plain,
        forall|answers: Answers<I>|
            #[trigger] answers_of(*interner, answers) ==>
                final(out)@ == old(out)@ + args_joined_written(
                *interner,
                answers,
                *substitution,
                from as nat,
                interner.substitution_shape(substitution).len(),
            ),
    decreases interner.substitution_rank(substitution),
        interner.substitution_shape(substitution).len(),
{
    let items = interner.substitution_data(substitution);
    let ghost start = out@;
    let mut plain = true;
    let mut k: usize = from;
    proof {
        assert(out@ =~= start + args_joined(*interner, *substitution, from as nat, k as nat));
        assert forall|answers: Answers<I>| #[trigger] answers_of(*interner, answers) implies
            out@ == start
            + args_joined_written(*interner, answers, *substitution, from as nat, k as nat) by {
            assert(out@ =~= start
                + args_joined_written(*interner, answers, *substitution, from as nat, k as nat));
        }
    }
    while k < items.len()
        invariant
            from <= k,
            k <= items.len() || k == from,
            items@ == interner.substitution_shape(substitution),
            extends(out@, start),
            plain ==> out@ == start + args_joined(*interner, *substitution, from as nat, k as nat),
            forall|answers: Answers<I>|
                #[trigger] answers_of(*interner, answers) ==>
                    out@ == start
                        + args_joined_written(*interner, answers, *substitution, from as nat, k as nat),
            silent(*interner) ==> plain,
        decreases items.len() - k,
    {
        if k > from {
            push_text(out, ", ");
        }
        proof {
            interner.lemma_substitution_rank(substitution);
        }
        let item_plain = render_generic_arg(interner, &items[k], out);
        plain = plain && item_plain;
        k = k + 1;
        proof {
            if plain {
                assert(out@ =~= start + args_joined(
                    *interner,
                    *substitution,
                    from as nat,
                    k as nat,
                ));
            }
            assert forall|answers: Answers<I>| #[trigger] answers_of(*interner, answers) implies
                out@ == start
                + args_joined_written(
                        *interner,
                        answers,
                        *substitution,
                        from as nat,
                        k as nat,
                    ) by {
                assert(out@ =~= start + args_joined_written(
                        *interner,
                        answers,
                        *substitution,
                        from as nat,
                        k as nat,
                    ));
            }
        }
    }
    plain
}

/// Writes `<arg, arg>` for the arguments from `from` on, and nothing where
/// there is none.
pub fn render_angle<I: WellFounded>(
    interner: &I,
    substitution: &I::InternedSubstitution,
    from: usize,
    out: &mut String,
) -> (plain: bool)
    ensures
        extends(final(out)@, old(out)@),
        plain ==> final(out)@ == old(out)@ + angle_text(*interner, *substitution, from as nat),
        silent(*interner) ==> plain,
        forall|answers: Answers<I>|
            #[trigger] answers_of(*interner, answers) ==>
                final(out)@ == old(out)@
                    + angle_written(*interner, answers, *substitution, from as nat),
    decreases interner.substitution_rank(substitution),
        interner.substitution_shape(substitution).len() + 1,
{
    if interner.substitution_data(substitution).len() <= from {
        proof {
            assert(out@ =~= old(out)@ + angle_text(*interner, *substitution, from as nat));
        }
        return true;
    }
    push_text(out, "<");
    let plain = render_args(interner, substitution, from, out);
    push_text(out, ">");
    proof {
        if plain {
            assert(out@ =~= old(out)@ + angle_text(*interner, *substitution, from as nat));
        }
        assert forall|answers: Answers<I>| #[trigger] answers_of(*interner, answers) implies
            out@ == old(out)@
            + angle_written(*interner, answers, *substitution, from as nat) by {
            assert(out@ =~= old(out)@
                + angle_written(*interner, answers, *substitution, from as nat));
        }
        assert(extends(out@, old(out)@));
    }
    plain
}

/// Writes a substitution as `[arg, arg]`, unless the host has a rendering.
pub fn render_substitution<I: WellFounded>(
    interner: &I,
    substitution: &I::InternedSubstitution,
    out: &mut String,
) -> (plain: bool)
    ensures
        extends(final(out)@, old(out)@),
        plain ==> final(out)@ == old(out)@ + substitution_text(*interner, *substitution),
        silent(*interner) ==> plain,
        forall|answers: Answers<I>|
            #[trigger] answers_of(*interner, answers) ==>
                final(out)@ == old(out)@ + substitution_written(*interner, answers, *substitution),
        exists|shown: Option<String>|
            #[trigger] call_ensures(I::debug_substitution, (interner, substitution), shown)
                && answered(
                shown,
                old(out)@,
                final(out)@,
                plain,
            ),
    decreases interner.substitution_rank(substitution),
        interner.substitution_shape(substitution).len() + 1,
{
    proof {
        reveal(answers_of);
    }
    if write_shown(interner.debug_substitution(substitution), out) {
        return false;
    }
    push_text(out, "[");
    let plain = render_args(interner, substitution, 0, out);
    push_text(out, "]");
    proof {
        if plain {
            assert(out@ =~= old(out)@ + substitution_text(*interner, *substitution));
        }
        assert forall|answers: Answers<I>| #[trigger] answers_of(*interner, answers) implies
            out@ == old(out)@
            + substitution_written(*interner, answers, *substitution) by {
            assert(out@ =~= old(out)@ + substitution_written(*interner, answers, *substitution));
        }
        assert(extends(out@, old(out)@));
    }
    plain
}

/// Writes the kind of a parameter: `type`, `lifetime` or `const: type`.
pub fn render_variable_kind<I: WellFounded>(
    interner: &I,
    kind: &VariableKind<I::InternedType>,
    out: &mut String,
) -> (plain: bool)
    ensures
        extends(final(out)@, old(out)@),
        plain ==> final(out)@ == old(out)@ + variable_kind_text(*interner, *kind),
        silent(*interner) ==> plain,
        forall|answers: Answers<I>|
            #[trigger] answers_of(*interner, answers) ==>
                final(out)@ == old(out)@ + variable_kind_written(*interner, answers, *kind),
    decreases variable_kind_rank(*interner, *kind), 0nat,
{
    let plain = match kind {
        VariableKind::Ty => {
            push_text(out, "type");
            true
        },
        VariableKind::Lifetime => {
            push_text(out, "lifetime");
            true
        },
        VariableKind::Const(ty) => {
            push_text(out, "const: ");
            render_ty(interner, ty, out)
        },
    };
    proof {
        if plain {
            assert(out@ =~= old(out)@ + variable_kind_text(*interner, *kind));
        }
        assert forall|answers: Answers<I>| #[trigger] answers_of(*interner, answers) implies
            out@ == old(out)@
            + variable_kind_written(*interner, answers, *kind) by {
            assert(out@ =~= old(out)@ + variable_kind_written(*interner, answers, *kind));
        }
        assert(extends(out@, old(out)@));
    }
    plain
}

/// Writes the parameter kinds of a binder with `, ` between them.
pub fn render_kinds_joined<I: WellFounded>(
    interner: &I,
    kinds: &I::InternedVariableKinds,
    out: &mut String,
) -> (plain: bool)
    ensures
        extends(final(out)@, old(out)@),
        plain ==> final(out)@ == old(out)@ + kinds_joined(
            *interner,
            *kinds,
            interner.variable_kinds_shape(kinds).len(),
        ),
        silent(*interner) ==> plain,
        forall|answers: Answers<I>|
            #[trigger] answers_of(*interner, answers) ==>
                final(out)@ == old(out)@ + kinds_joined_written(
                *interner,
                answers,
                *kinds,
                interner.variable_kinds_shape(kinds).len(),
            ),
    decreases interner.variable_kinds_rank(kinds), interner.variable_kinds_shape(kinds).len(),
{
    let items = interner.variable_kinds_data(kinds);
    let ghost start = out@;
    let mut plain = true;
    let mut k: usize = 0;
    proof {
        assert(out@ =~= start + kinds_joined(*interner, *kinds, k as nat));
        assert forall|answers: Answers<I>| #[trigger] answers_of(*interner, answers) implies
            out@ == start
            + kinds_joined_written(*interner, answers, *kinds, k as nat) by {
            assert(out@ =~= start + kinds_joined_written(*interner, answers, *kinds, k as nat));
        }
    }
    while k < items.len()
        invariant
            k <= items.len(),
            items@ == interner.variable_kinds_shape(kinds),
            extends(out@, start),
            plain ==> out@ == start + kinds_joined(*interner, *kinds, k as nat),
            forall|answers: Answers<I>|
                #[trigger] answers_of(*interner, answers) ==>
                    out@ == start + kinds_joined_written(*interner, answers, *kinds, k as nat),
            silent(*interner) ==> plain,
        decreases items.len() - k,
    {
        if k > 0 {
            push_text(out, ", ");
        }
        proof {
            interner.lemma_variable_kinds_rank(kinds);
        }
        let item_plain = render_variable_kind(interner, &items[k], out);
        plain = plain && item_plain;
        k = k + 1;
        proof {
            if plain {
                assert(out@ =~= start + kinds_joined(*interner, *kinds, k as nat));
            }
            assert forall|answers: Answers<I>| #[trigger] answers_of(*interner, answers) implies
                out@ == start
                + kinds_joined_written(*interner, answers, *kinds, k as nat) by {
                assert(out@ =~= start + kinds_joined_written(*interner, answers, *kinds, k as nat));
            }
        }
    }
    plain
}

/// Writes the parameter kinds of a binder as `[kind, kind]`, unless the
/// host has a rendering.
pub fn render_variable_kinds<I: WellFounded>(
    interner: &I,
    kinds: &I::InternedVariableKinds,
    out: &mut String,
) -> (plain: bool)
    ensures
        extends(final(out)@, old(out)@),
        plain ==> final(out)@ == old(out)@ + variable_kinds_text(*interner, *kinds),
        silent(*interner) ==> plain,
        forall|answers: Answers<I>|
            #[trigger] answers_of(*interner, answers) ==>
                final(out)@ == old(out)@ + variable_kinds_written(*interner, answers, *kinds),
        exists|shown: Option<String>|
            #[trigger] call_ensures(I::debug_variable_kinds, (interner, kinds), shown) && answered(
                shown,
                old(out)@,
                final(out)@,
                plain,
            ),
    decreases interner.variable_kinds_rank(kinds), interner.variable_kinds_shape(kinds).len() + 1,
{
    proof {
        reveal(answers_of);
    }
    if write_shown(interner.debug_variable_kinds(kinds), out) {
        return false;
    }
    push_text(out, "[");
    let plain = render_kinds_joined(interner, kinds, out);
    push_text(out, "]");
    proof {
        if plain {
            assert(out@ =~= old(out)@ + variable_kinds_text(*interner, *kinds));
        }
        assert forall|answers: Answers<I>| #[trigger] answers_of(*interner, answers) implies
            out@ == old(out)@
            + variable_kinds_written(*interner, answers, *kinds) by {
            assert(out@ =~= old(out)@ + variable_kinds_written(*interner, answers, *kinds));
        }
        assert(extends(out@, old(out)@));
    }
    plain
}

/// Writes the parameter kinds of a binder as `<kind, kind>`, unless the
/// host has a rendering.
pub fn render_variable_kinds_with_angles<I: WellFounded>(
    interner: &I,
    kinds: &I::InternedVariableKinds,
    out: &mut String,
) -> (plain: bool)
    ensures
        extends(final(out)@, old(out)@),
        plain ==> final(out)@ == old(out)@ + variable_kinds_with_angles_text(*interner, *kinds),
        silent(*interner) ==> plain,
        forall|answers: Answers<I>|
            #[trigger] answers_of(*interner, answers) ==>
                final(out)@ == old(out)@
                    + variable_kinds_with_angles_written(*interner, answers, *kinds),
        exists|shown: Option<String>|
            #[trigger] call_ensures(I::debug_variable_kinds_with_angles, (interner, kinds), shown)
                && answered(
                shown,
                old(out)@,
                final(out)@,
                plain,
            ),
    decreases interner.variable_kinds_rank(kinds), interner.variable_kinds_shape(kinds).len() + 1,
{
    proof {
        reveal(answers_of);
    }
    if write_shown(interner.debug_variable_kinds_with_angles(kinds), out) {
        return false;
    }
    push_text(out, "<");
    let plain = render_kinds_joined(interner, kinds, out);
    push_text(out, ">");
    proof {
        if plain {
            assert(out@ =~= old(out)@ + variable_kinds_with_angles_text(*interner, *kinds));
        }
        assert forall|answers: Answers<I>| #[trigger] answers_of(*interner, answers) implies
            out@ == old(out)@
            + variable_kinds_with_angles_written(*interner, answers, *kinds) by {
            assert(out@ =~= old(out)@
                + variable_kinds_with_angles_written(*interner, answers, *kinds));
        }
        assert(extends(out@, old(out)@));
    }
    plain
}

/// Writes a trait reference as `Self: Trait<arg, arg>`, with `separator`
/// for the `: `, unless the host has a rendering.
pub fn render_separator_trait_ref<I: WellFounded>(
    interner: &I,
    trait_ref: &TraitRef<I::DefId, I::InternedSubstitution>,
    separator: &str,
    out: &mut String,
) -> (plain: bool)
    ensures
        extends(final(out)@, old(out)@),
        plain ==> final(out)@ == old(out)@ + separator_trait_ref_text(
            *interner,
            *trait_ref,
            separator@,
        ),
        silent(*interner) ==> plain,
        forall|answers: Answers<I>|
            #[trigger] answers_of(*interner, answers) ==>
                final(out)@ == old(out)@ + separator_trait_ref_written(
                *interner,
                answers,
                *trait_ref,
                separator@,
            ),
        exists|shown: Option<String>|
            #[trigger] call_ensures(
                I::debug_separator_trait_ref,
                (interner, &(SeparatorTraitRef { trait_ref, separator })),
                shown,
            ) && answered(
                shown,
                old(out)@,
                final(out)@,
                plain,
            ),
    decreases trait_ref_rank(*interner, *trait_ref), 0nat,
{
    proof {
        reveal(answers_of);
    }
    let with_separator = SeparatorTraitRef { trait_ref, separator };
    if write_shown(interner.debug_separator_trait_ref(&with_separator), out) {
        return false;
    }
    let items = interner.substitution_data(&trait_ref.substitution);
    let mut plain = true;
    if items.len() >= 1 {
        proof {
            interner.lemma_substitution_rank(&trait_ref.substitution);
        }
        plain = render_generic_arg(interner, &items[0], out);
    }
    push_text(out, separator);
    let id_plain = render_trait_id(interner, trait_ref.trait_id, out);
    let args_plain = render_angle(interner, &trait_ref.substitution, 1, out);
    let plain = plain && id_plain && args_plain;
    proof {
        if plain {
            assert(out@ =~= old(out)@
                + separator_trait_ref_text(*interner, *trait_ref, separator@));
        }
        assert forall|answers: Answers<I>| #[trigger] answers_of(*interner, answers) implies
            out@ == old(out)@
            + separator_trait_ref_written(*interner, answers, *trait_ref, separator@) by {
            assert(out@ =~= old(out)@
                + separator_trait_ref_written(*interner, answers, *trait_ref, separator@));
        }
        assert(extends(out@, old(out)@));
    }
    plain
}

/// Writes `AliasEq(alias = type)`.
pub fn render_alias_eq<I: WellFounded>(
    interner: &I,
    alias_eq: &AliasEq<I::DefId, I::InternedSubstitution, I::InternedType>,
    out: &mut String,
) -> (plain: bool)
    ensures
        extends(final(out)@, old(out)@),
        plain ==> final(out)@ == old(out)@ + alias_eq_text(*interner, *alias_eq),
        silent(*interner) ==> plain,
        forall|answers: Answers<I>|
            #[trigger] answers_of(*interner, answers) ==>
                final(out)@ == old(out)@ + alias_eq_written(*interner, answers, *alias_eq),
    decreases alias_eq_rank(*interner, *alias_eq), 0nat,
{
    push_text(out, "AliasEq(");
    let alias_plain = render_alias(interner, &alias_eq.alias, out);
    push_text(out, " = ");
    let ty_plain = render_ty(interner, &alias_eq.ty, out);
    push_text(out, ")");
    let plain = alias_plain && ty_plain;
    proof {
        if plain {
            assert(out@ =~= old(out)@ + alias_eq_text(*interner, *alias_eq));
        }
        assert forall|answers: Answers<I>| #[trigger] answers_of(*interner, answers) implies
            out@ == old(out)@
            + alias_eq_written(*interner, answers, *alias_eq) by {
            assert(out@ =~= old(out)@ + alias_eq_written(*interner, answers, *alias_eq));
        }
        assert(extends(out@, old(out)@));
    }
    plain
}

/// Writes a where clause.
pub fn render_where_clause<I: WellFounded>(
    interner: &I,
    clause: &WhereClause<I::DefId, I::InternedSubstitution, I::InternedType>,
    out: &mut String,
) -> (plain: bool)
    ensures
        extends(final(out)@, old(out)@),
        plain ==> final(out)@ == old(out)@ + where_clause_text(*interner, *clause),
        silent(*interner) ==> plain,
        forall|answers: Answers<I>|
            #[trigger] answers_of(*interner, answers) ==>
                final(out)@ == old(out)@ + where_clause_written(*interner, answers, *clause),
    decreases where_clause_rank(*interner, *clause), 0nat,
{
    let plain = match clause {
        WhereClause::Implemented(trait_ref) => {
            push_text(out, "Implemented(");
            let inner = render_separator_trait_ref(interner, trait_ref, ": ", out);
            push_text(out, ")");
            inner
        },
        WhereClause::AliasEq(alias_eq) => render_alias_eq(interner, alias_eq, out),
    };
    proof {
        if plain {
            assert(out@ =~= old(out)@ + where_clause_text(*interner, *clause));
        }
        assert forall|answers: Answers<I>| #[trigger] answers_of(*interner, answers) implies
            out@ == old(out)@
            + where_clause_written(*interner, answers, *clause) by {
            assert(out@ =~= old(out)@ + where_clause_written(*interner, answers, *clause));
        }
        assert(extends(out@, old(out)@));
    }
    plain
}

/// Writes a where clause under its binder as `for<kinds> clause`.
pub fn render_quantified_where_clause<I: WellFounded>(
    interner: &I,
    clause: &QuantifiedWhereClause<I>,
    out: &mut String,
) -> (plain: bool)
    ensures
        extends(final(out)@, old(out)@),
        plain ==> final(out)@ == old(out)@ + quantified_where_clause_text(*interner, *clause),
        silent(*interner) ==> plain,
        forall|answers: Answers<I>|
            #[trigger] answers_of(*interner, answers) ==>
                final(out)@ == old(out)@
                    + quantified_where_clause_written(*interner, answers, *clause),
    decreases quantified_where_clause_rank(*interner, *clause), 0nat,
{
    push_text(out, "for");
    let kinds_plain = render_variable_kinds_with_angles(interner, &clause.binders, out);
    push_text(out, " ");
    let clause_plain = render_where_clause(interner, &clause.value, out);
    let plain = kinds_plain && clause_plain;
    proof {
        if plain {
            assert(out@ =~= old(out)@ + quantified_where_clause_text(*interner, *clause));
        }
        assert forall|answers: Answers<I>| #[trigger] answers_of(*interner, answers) implies
            out@ == old(out)@
            + quantified_where_clause_written(*interner, answers, *clause) by {
            assert(out@ =~= old(out)@
                + quantified_where_clause_written(*interner, answers, *clause));
        }
        assert(extends(out@, old(out)@));
    }
    plain
}

/// Writes quantified where clauses with `, ` between them.
pub fn render_bounds_joined<I: WellFounded>(
    interner: &I,
    clauses: &I::InternedQuantifiedWhereClauses,
    out: &mut String,
) -> (plain: bool)
    ensures
        extends(final(out)@, old(out)@),
        plain ==> final(out)@ == old(out)@ + bounds_joined(
            *interner,
            *clauses,
            interner.quantified_where_clauses_shape(clauses).len(),
        ),
        silent(*interner) ==> plain,
        forall|answers: Answers<I>|
            #[trigger] answers_of(*interner, answers) ==>
                final(out)@ == old(out)@ + bounds_joined_written(
                *interner,
                answers,
                *clauses,
                interner.quantified_where_clauses_shape(clauses).len(),
            ),
    decreases interner.quantified_where_clauses_rank(clauses),
        interner.quantified_where_clauses_shape(clauses).len(),
{
    let items = interner.quantified_where_clauses_data(clauses);
    let ghost start = out@;
    let mut plain = true;
    let mut k: usize = 0;
    proof {
        assert(out@ =~= start + bounds_joined(*interner, *clauses, k as nat));
        assert forall|answers: Answers<I>| #[trigger] answers_of(*interner, answers) implies
            out@ == start
            + bounds_joined_written(*interner, answers, *clauses, k as nat) by {
            assert(out@ =~= start + bounds_joined_written(*interner, answers, *clauses, k as nat));
        }
    }
    while k < items.len()
        invariant
            k <= items.len(),
            items@ == interner.quantified_where_clauses_shape(clauses),
            extends(out@, start),
            plain ==> out@ == start + bounds_joined(*interner, *clauses, k as nat),
            forall|answers: Answers<I>|
                #[trigger] answers_of(*interner, answers) ==>
                    out@ == start + bounds_joined_written(*interner, answers, *clauses, k as nat),
            silent(*interner) ==> plain,
        decreases items.len() - k,
    {
        if k > 0 {
            push_text(out, ", ");
        }
        proof {
            interner.lemma_quantified_where_clauses_rank(clauses);
        }
        let item_plain = render_quantified_where_clause(interner, &items[k], out);
        plain = plain && item_plain;
        k = k + 1;
        proof {
            if plain {
                assert(out@ =~= start + bounds_joined(*interner, *clauses, k as nat));
            }
            assert forall|answers: Answers<I>| #[trigger] answers_of(*interner, answers) implies
                out@ == start
                + bounds_joined_written(*interner, answers, *clauses, k as nat) by {
                assert(out@ =~= start
                    + bounds_joined_written(*interner, answers, *clauses, k as nat));
            }
        }
    }
    plain
}

/// Writes quantified where clauses as `[clause, clause]`, unless the host
/// has a rendering.
pub fn render_quantified_where_clauses<I: WellFounded>(
    interner: &I,
    clauses: &I::InternedQuantifiedWhereClauses,
    out: &mut String,
) -> (plain: bool)
    ensures
        extends(final(out)@, old(out)@),
        plain ==> final(out)@ == old(out)@ + quantified_where_clauses_text(*interner, *clauses),
        silent(*interner) ==> plain,
        forall|answers: Answers<I>|
            #[trigger] answers_of(*interner, answers) ==>
                final(out)@ == old(out)@
                    + quantified_where_clauses_written(*interner, answers, *clauses),
        exists|shown: Option<String>|
            #[trigger] call_ensures(I::debug_quantified_where_clauses, (interner, clauses), shown)
                && answered(
                shown,
                old(out)@,
                final(out)@,
                plain,
            ),
    decreases interner.quantified_where_clauses_rank(clauses),
        interner.quantified_where_clauses_shape(clauses).len() + 1,
{
    proof {
        reveal(answers_of);
    }
    if write_shown(interner.debug_quantified_where_clauses(clauses), out) {
        return false;
    }
    push_text(out, "[");
    let plain = render_bounds_joined(interner, clauses, out);
    push_text(out, "]");
    proof {
        if plain {
            assert(out@ =~= old(out)@ + quantified_where_clauses_text(*interner, *clauses));
        }
        assert forall|answers: Answers<I>| #[trigger] answers_of(*interner, answers) implies
            out@ == old(out)@
            + quantified_where_clauses_written(*interner, answers, *clauses) by {
            assert(out@ =~= old(out)@
                + quantified_where_clauses_written(*interner, answers, *clauses));
        }
        assert(extends(out@, old(out)@));
    }
    plain
}

/// Writes a claim of well-formedness as `WellFormed(..)`.
pub fn render_well_formed<I: WellFounded>(
    interner: &I,
    well_formed: &WellFormed<I::DefId, I::InternedSubstitution, I::InternedType>,
    out: &mut String,
) -> (plain: bool)
    ensures
        extends(final(out)@, old(out)@),
        plain ==> final(out)@ == old(out)@ + well_formed_text(*interner, *well_formed),
        silent(*interner) ==> plain,
        forall|answers: Answers<I>|
            #[trigger] answers_of(*interner, answers) ==>
                final(out)@ == old(out)@ + well_formed_written(*interner, answers, *well_formed),
{
    push_text(out, "WellFormed(");
    let plain = match well_formed {
        WellFormed::Trait(trait_ref) => render_separator_trait_ref(interner, trait_ref, ": ", out),
        WellFormed::Ty(ty) => render_ty(interner, ty, out),
    };
    push_text(out, ")");
    proof {
        if plain {
            assert(out@ =~= old(out)@ + well_formed_text(*interner, *well_formed));
        }
        assert forall|answers: Answers<I>| #[trigger] answers_of(*interner, answers) implies
            out@ == old(out)@
            + well_formed_written(*interner, answers, *well_formed) by {
            assert(out@ =~= old(out)@ + well_formed_written(*interner, answers, *well_formed));
        }
        assert(extends(out@, old(out)@));
    }
    plain
}

/// Writes a goal about the program's declarations.
pub fn render_domain_goal<I: WellFounded>(
    interner: &I,
    goal: &DomainGoal<I::DefId, I::InternedSubstitution, I::InternedType>,
    out: &mut String,
) -> (plain: bool)
    ensures
        extends(final(out)@, old(out)@),
        plain ==> final(out)@ == old(out)@ + domain_goal_text(*interner, *goal),
        silent(*interner) ==> plain,
        forall|answers: Answers<I>|
            #[trigger] answers_of(*interner, answers) ==>
                final(out)@ == old(out)@ + domain_goal_written(*interner, answers, *goal),
{
    match goal {
        DomainGoal::Holds(clause) => render_where_clause(interner, clause, out),
        DomainGoal::WellFormed(well_formed) => render_well_formed(interner, well_formed, out),
    }
}

/// Writes the kind of a canonical variable as `Uuniverse with kind`.
pub fn render_canonical_var_kind<I: WellFounded>(
    interner: &I,
    kind: &CanonicalVarKind<I::InternedType>,
    out: &mut String,
) -> (plain: bool)
    ensures
        extends(final(out)@, old(out)@),
        plain ==> final(out)@ == old(out)@ + canonical_var_kind_text(*interner, *kind),
        silent(*interner) ==> plain,
        forall|answers: Answers<I>|
            #[trigger] answers_of(*interner, answers) ==>
                final(out)@ == old(out)@ + canonical_var_kind_written(*interner, answers, *kind),
{
    write_universe(&kind.universe, out);
    push_text(out, " with ");
    let plain = render_variable_kind(interner, &kind.kind, out);
    proof {
        if plain {
            assert(out@ =~= old(out)@ + canonical_var_kind_text(*interner, *kind));
        }
        assert forall|answers: Answers<I>| #[trigger] answers_of(*interner, answers) implies
            out@ == old(out)@
            + canonical_var_kind_written(*interner, answers, *kind) by {
            assert(out@ =~= old(out)@ + canonical_var_kind_written(*interner, answers, *kind));
        }
        assert(extends(out@, old(out)@));
    }
    plain
}

/// Writes the variable kinds of a canonical term with `, ` between them.
pub fn render_canonical_kinds_joined<I: WellFounded>(
    interner: &I,
    kinds: &I::InternedCanonicalVarKinds,
    out: &mut String,
) -> (plain: bool)
    ensures
        extends(final(out)@, old(out)@),
        plain ==> final(out)@ == old(out)@ + canonical_kinds_joined(
            *interner,
            *kinds,
            interner.canonical_var_kinds_shape(kinds).len(),
        ),
        silent(*interner) ==> plain,
        forall|answers: Answers<I>|
            #[trigger] answers_of(*interner, answers) ==>
                final(out)@ == old(out)@ + canonical_kinds_joined_written(
                *interner,
                answers,
                *kinds,
                interner.canonical_var_kinds_shape(kinds).len(),
            ),
{
    let items = interner.canonical_var_kinds_data(kinds);
    let ghost start = out@;
    let mut plain = true;
    let mut k: usize = 0;
    proof {
        assert(out@ =~= start + canonical_kinds_joined(*interner, *kinds, k as nat));
        assert forall|answers: Answers<I>| #[trigger] answers_of(*interner, answers) implies
            out@ == start
            + canonical_kinds_joined_written(*interner, answers, *kinds, k as nat) by {
            assert(out@ =~= start
                + canonical_kinds_joined_written(*interner, answers, *kinds, k as nat));
        }
    }
    while k < items.len()
        invariant
            k <= items.len(),
            items@ == interner.canonical_var_kinds_shape(kinds),
            extends(out@, start),
            plain ==> out@ == start + canonical_kinds_joined(*interner, *kinds, k as nat),
            forall|answers: Answers<I>|
                #[trigger] answers_of(*interner, answers) ==>
                    out@ == start
                        + canonical_kinds_joined_written(*interner, answers, *kinds, k as nat),
            silent(*interner) ==> plain,
        decreases items.len() - k,
    {
        if k > 0 {
            push_text(out, ", ");
        }
        let item_plain = render_canonical_var_kind(interner, &items[k], out);
        plain = plain && item_plain;
        k = k + 1;
        proof {
            if plain {
                assert(out@ =~= start + canonical_kinds_joined(*interner, *kinds, k as nat));
            }
            assert forall|answers: Answers<I>| #[trigger] answers_of(*interner, answers) implies
                out@ == start
                + canonical_kinds_joined_written(*interner, answers, *kinds, k as nat) by {
                assert(out@ =~= start
                    + canonical_kinds_joined_written(*interner, answers, *kinds, k as nat));
            }
        }
    }
    plain
}

/// Writes the variable kinds of a canonical term as
/// `[Uuniverse with kind, ..]`, unless the host has a rendering.
pub fn render_canonical_var_kinds<I: WellFounded>(
    interner: &I,
    kinds: &I::InternedCanonicalVarKinds,
    out: &mut String,
) -> (plain: bool)
    ensures
        extends(final(out)@, old(out)@),
        plain ==> final(out)@ == old(out)@ + canonical_var_kinds_text(*interner, *kinds),
        silent(*interner) ==> plain,
        forall|answers: Answers<I>|
            #[trigger] answers_of(*interner, answers) ==>
                final(out)@ == old(out)@ + canonical_var_kinds_written(*interner, answers, *kinds),
        exists|shown: Option<String>|
            #[trigger] call_ensures(I::debug_canonical_var_kinds, (interner, kinds), shown)
                && answered(
                shown,
                old(out)@,
                final(out)@,
                plain,
            ),
{
    proof {
        reveal(answers_of);
    }
    if write_shown(interner.debug_canonical_var_kinds(kinds), out) {
        return false;
    }
    push_text(out, "[");
    let plain = render_canonical_kinds_joined(interner, kinds, out);
    push_text(out, "]");
    proof {
        if plain {
            assert(out@ =~= old(out)@ + canonical_var_kinds_text(*interner, *kinds));
        }
        assert forall|answers: Answers<I>| #[trigger] answers_of(*interner, answers) implies
            out@ == old(out)@
            + canonical_var_kinds_written(*interner, answers, *kinds) by {
            assert(out@ =~= old(out)@ + canonical_var_kinds_written(*interner, answers, *kinds));
        }
        assert(extends(out@, old(out)@));
    }
    plain
}

/// Writes a goal: the host's rendering, or else the plain text of what the
/// handle stands for.
pub fn render_goal<I: WellFounded>(
    interner: &I,
    goal: &I::InternedGoal,
    out: &mut String,
) -> (plain: bool)
    ensures
        extends(final(out)@, old(out)@),
        plain ==> final(out)@ == old(out)@ + goal_text(*interner, *goal),
        silent(*interner) ==> plain,
        forall|answers: Answers<I>|
            #[trigger] answers_of(*interner, answers) ==>
                final(out)@ == old(out)@ + goal_written(*interner, answers, *goal),
        exists|shown: Option<String>|
            #[trigger] call_ensures(I::debug_goal, (interner, goal), shown) && answered(
                shown,
                old(out)@,
                final(out)@,
                plain,
            ),
    decreases interner.goal_rank(goal), 0nat,
{
    proof {
        reveal(answers_of);
    }
    if write_shown(interner.debug_goal(goal), out) {
        return false;
    }
    proof {
        interner.lemma_goal_rank(goal);
    }
    render_goal_data(interner, interner.goal_data(goal), out)
}

/// Writes a quantified goal as `ForAll<kinds> { goal }` or
/// `Exists<kinds> { goal }`.
pub fn render_quantified<I: WellFounded>(
    interner: &I,
    kind: &QuantifierKind,
    binders: &Binders<I::InternedVariableKinds, I::InternedGoal>,
    out: &mut String,
) -> (plain: bool)
    ensures
        extends(final(out)@, old(out)@),
        plain ==> final(out)@ == old(out)@
            + goal_data_text::<I>(*interner, GoalShape::Quantified(*kind, *binders)),
        silent(*interner) ==> plain,
        forall|answers: Answers<I>|
            #[trigger] answers_of(*interner, answers) ==> final(out)@ == old(out)@
                + goal_data_written::<I>(*interner, answers, GoalShape::Quantified(*kind, *binders)),
    decreases goal_data_rank::<I>(*interner, GoalShape::Quantified(*kind, *binders)), 0nat,
{
    write_quantifier(kind, out);
    let kinds_plain = render_variable_kinds_with_angles(interner, &binders.binders, out);
    push_text(out, " { ");
    let goal_plain = render_goal(interner, &binders.value, out);
    push_text(out, " }");
    let plain = kinds_plain && goal_plain;
    proof {
        if plain {
            assert(out@ =~= old(out)@
                + goal_data_text::<I>(*interner, GoalShape::Quantified(*kind, *binders)));
        }
        assert forall|answers: Answers<I>| #[trigger]
            answers_of(*interner, answers) implies out@ == old(out)@ + goal_data_written::<I>(
            *interner,
            answers,
            GoalShape::Quantified(*kind, *binders),
        ) by {
            assert(out@ =~= old(out)@
                + goal_data_written::<I>(*interner, answers, GoalShape::Quantified(*kind, *binders)));
        }
    }
    plain
}

/// Writes a goal under added clauses as `if ([clause, clause]) { goal }`.
pub fn render_implies<I: WellFounded>(
    interner: &I,
    clauses: &I::InternedProgramClauses,
    goal: &I::InternedGoal,
    out: &mut String,
) -> (plain: bool)
    ensures
        extends(final(out)@, old(out)@),
        plain ==> final(out)@ == old(out)@
            + goal_data_text::<I>(*interner, GoalShape::Implies(*clauses, *goal)),
        silent(*interner) ==> plain,
        forall|answers: Answers<I>|
            #[trigger] answers_of(*interner, answers) ==> final(out)@ == old(out)@
                + goal_data_written::<I>(*interner, answers, GoalShape::Implies(*clauses, *goal)),
    decreases goal_data_rank::<I>(*interner, GoalShape::Implies(*clauses, *goal)), 0nat,
{
    push_text(out, "if (");
    let clauses_plain = render_program_clauses(interner, clauses, out);
    push_text(out, ") { ");
    let goal_plain = render_goal(interner, goal, out);
    push_text(out, " }");
    let plain = clauses_plain && goal_plain;
    proof {
        if plain {
            assert(out@ =~= old(out)@
                + goal_data_text::<I>(*interner, GoalShape::Implies(*clauses, *goal)));
        }
        assert forall|answers: Answers<I>| #[trigger]
            answers_of(*interner, answers) implies out@ == old(out)@ + goal_data_written::<I>(
            *interner,
            answers,
            GoalShape::Implies(*clauses, *goal),
        ) by {
            assert(out@ =~= old(out)@
                + goal_data_written::<I>(*interner, answers, GoalShape::Implies(*clauses, *goal)));
        }
    }
    plain
}

/// Writes a conjunction as `all(goal, goal)`.
pub fn render_all<I: WellFounded>(
    interner: &I,
    goals: &I::InternedGoals,
    out: &mut String,
) -> (plain: bool)
    ensures
        extends(final(out)@, old(out)@),
        plain ==> final(out)@ == old(out)@ + goal_data_text::<I>(*interner, GoalShape::All(*goals)),
        silent(*interner) ==> plain,
        forall|answers: Answers<I>|
            #[trigger] answers_of(*interner, answers) ==> final(out)@ == old(out)@
                + goal_data_written::<I>(*interner, answers, GoalShape::All(*goals)),
    decreases goal_data_rank::<I>(*interner, GoalShape::All(*goals)), 0nat,
{
    push_text(out, "all");
    let plain = render_goals(interner, goals, out);
    proof {
        if plain {
            assert(out@ =~= old(out)@ + goal_data_text::<I>(*interner, GoalShape::All(*goals)));
        }
        assert forall|answers: Answers<I>| #[trigger]
            answers_of(*interner, answers) implies out@ == old(out)@ + goal_data_written::<I>(
            *interner,
            answers,
            GoalShape::All(*goals),
        ) by {
            assert(out@ =~= old(out)@
                + goal_data_written::<I>(*interner, answers, GoalShape::All(*goals)));
        }
    }
    plain
}

/// Writes a negation as `not { goal }`.
pub fn render_not<I: WellFounded>(
    interner: &I,
    goal: &I::InternedGoal,
    out: &mut String,
) -> (plain: bool)
    ensures
        extends(final(out)@, old(out)@),
        plain ==> final(out)@ == old(out)@ + goal_data_text::<I>(*interner, GoalShape::Not(*goal)),
        silent(*interner) ==> plain,
        forall|answers: Answers<I>|
            #[trigger] answers_of(*interner, answers) ==> final(out)@ == old(out)@
                + goal_data_written::<I>(*interner, answers, GoalShape::Not(*goal)),
    decreases goal_data_rank::<I>(*interner, GoalShape::Not(*goal)), 0nat,
{
    push_text(out, "not { ");
    let plain = render_goal(interner, goal, out);
    push_text(out, " }");
    proof {
        if plain {
            assert(out@ =~= old(out)@ + goal_data_text::<I>(*interner, GoalShape::Not(*goal)));
        }
        assert forall|answers: Answers<I>| #[trigger]
            answers_of(*interner, answers) implies out@ == old(out)@ + goal_data_written::<I>(
            *interner,
            answers,
            GoalShape::Not(*goal),
        ) by {
            assert(out@ =~= old(out)@
                + goal_data_written::<I>(*interner, answers, GoalShape::Not(*goal)));
        }
    }
    plain
}

/// Writes the shape of a goal, variant by variant.
pub fn render_goal_data<I: WellFounded>(
    interner: &I,
    data: &GoalData<I>,
    out: &mut String,
) -> (plain: bool)
    ensures
        extends(final(out)@, old(out)@),
        plain ==> final(out)@ == old(out)@ + goal_data_text(*interner, *data),
        silent(*interner) ==> plain,
        forall|answers: Answers<I>|
            #[trigger] answers_of(*interner, answers) ==> final(out)@ == old(out)@
                + goal_data_written(*interner, answers, *data),
    decreases goal_data_rank(*interner, *data), 1nat,
{
    match data {
        GoalShape::Quantified(kind, binders) => render_quantified(interner, kind, binders, out),
        GoalShape::Implies(clauses, goal) => render_implies(interner, clauses, goal, out),
        GoalShape::All(goals) => render_all(interner, goals, out),
        GoalShape::Not(goal) => render_not(interner, goal, out),
        GoalShape::DomainGoal(goal) => render_domain_goal(interner, goal, out),
        GoalShape::Truth(true) => {
            push_text(out, "True");
            true
        },
        GoalShape::Truth(false) => {
            push_text(out, "CannotProve");
            true
        },
    }
}

/// Writes goals with `, ` between them.
pub fn render_goals_joined<I: WellFounded>(
    interner: &I,
    goals: &I::InternedGoals,
    out: &mut String,
) -> (plain: bool)
    ensures
        extends(final(out)@, old(out)@),
        plain ==> final(out)@ == old(out)@ + goals_joined(
            *interner,
            *goals,
            interner.goals_shape(goals).len(),
        ),
        silent(*interner) ==> plain,
        forall|answers: Answers<I>|
            #[trigger] answers_of(*interner, answers) ==>
                final(out)@ == old(out)@ + goals_joined_written(
                *interner,
                answers,
                *goals,
                interner.goals_shape(goals).len(),
            ),
    decreases interner.goals_rank(goals), interner.goals_shape(goals).len(),
{
    let items = interner.goals_data(goals);
    let ghost start = out@;
    let mut plain = true;
    let mut k: usize = 0;
    proof {
        assert(out@ =~= start + goals_joined(*interner, *goals, k as nat));
        assert forall|answers: Answers<I>| #[trigger] answers_of(*interner, answers) implies
            out@ == start
            + goals_joined_written(*interner, answers, *goals, k as nat) by {
            assert(out@ =~= start + goals_joined_written(*interner, answers, *goals, k as nat));
        }
    }
    while k < items.len()
        invariant
            k <= items.len(),
            items@ == interner.goals_shape(goals),
            extends(out@, start),
            plain ==> out@ == start + goals_joined(*interner, *goals, k as nat),
            forall|answers: Answers<I>|
                #[trigger] answers_of(*interner, answers) ==>
                    out@ == start + goals_joined_written(*interner, answers, *goals, k as nat),
            silent(*interner) ==> plain,
        decreases items.len() - k,
    {
        if k > 0 {
            push_text(out, ", ");
        }
        proof {
            interner.lemma_goals_rank(goals);
        }
        let item_plain = render_goal(interner, &items[k], out);
        plain = plain && item_plain;
        k = k + 1;
        proof {
            if plain {
                assert(out@ =~= start + goals_joined(*interner, *goals, k as nat));
            }
            assert forall|answers: Answers<I>| #[trigger] answers_of(*interner, answers) implies
                out@ == start
                + goals_joined_written(*interner, answers, *goals, k as nat) by {
                assert(out@ =~= start + goals_joined_written(*interner, answers, *goals, k as nat));
            }
        }
    }
    plain
}

/// Writes a list of goals as `(goal, goal)`, unless the host has a
/// rendering.
pub fn render_goals<I: WellFounded>(
    interner: &I,
    goals: &I::InternedGoals,
    out: &mut String,
) -> (plain: bool)
    ensures
        extends(final(out)@, old(out)@),
        plain ==> final(out)@ == old(out)@ + goals_text(*interner, *goals),
        silent(*interner) ==> plain,
        forall|answers: Answers<I>|
            #[trigger] answers_of(*interner, answers) ==>
                final(out)@ == old(out)@ + goals_written(*interner, answers, *goals),
        exists|shown: Option<String>|
            #[trigger] call_ensures(I::debug_goals, (interner, goals), shown) && answered(
                shown,
                old(out)@,
                final(out)@,
                plain,
            ),
    decreases interner.goals_rank(goals), interner.goals_shape(goals).len() + 1,
{
    proof {
        reveal(answers_of);
    }
    if write_shown(interner.debug_goals(goals), out) {
        return false;
    }
    push_text(out, "(");
    let plain = render_goals_joined(interner, goals, out);
    push_text(out, ")");
    proof {
        if plain {
            assert(out@ =~= old(out)@ + goals_text(*interner, *goals));
        }
        assert forall|answers: Answers<I>| #[trigger] answers_of(*interner, answers) implies
            out@ == old(out)@
            + goals_written(*interner, answers, *goals) by {
            assert(out@ =~= old(out)@ + goals_written(*interner, answers, *goals));
        }
        assert(extends(out@, old(out)@));
    }
    plain
}

/// Writes an implication as `consequence :- condition, condition`, and the
/// consequence alone where nothing is asked; unless the host has a
/// rendering.
pub fn render_implication<I: WellFounded>(
    interner: &I,
    implication: &ProgramClauseImplication<
        I::DefId,
        I::InternedSubstitution,
        I::InternedType,
        I::InternedGoals,
    >,
    out: &mut String,
) -> (plain: bool)
    ensures
        extends(final(out)@, old(out)@),
        plain ==> final(out)@ == old(out)@ + implication_text(*interner, *implication),
        silent(*interner) ==> plain,
        forall|answers: Answers<I>|
            #[trigger] answers_of(*interner, answers) ==>
                final(out)@ == old(out)@ + implication_written(*interner, answers, *implication),
        exists|shown: Option<String>|
            #[trigger] call_ensures(I::debug_program_clause_implication, (interner, implication), shown) && answered(
                shown,
                old(out)@,
                final(out)@,
                plain,
            ),
    decreases implication_rank(*interner, *implication), 0nat,
{
    proof {
        reveal(answers_of);
    }
    if write_shown(interner.debug_program_clause_implication(implication), out) {
        return false;
    }
    let consequence_plain = render_domain_goal(interner, &implication.consequence, out);
    let mut plain = consequence_plain;
    if interner.goals_data(&implication.conditions).len() > 0 {
        push_text(out, " :- ");
        let conditions_plain = render_goals_joined(interner, &implication.conditions, out);
        plain = plain && conditions_plain;
    }
    proof {
        if plain {
            assert(out@ =~= old(out)@ + implication_text(*interner, *implication));
        }
        assert forall|answers: Answers<I>| #[trigger] answers_of(*interner, answers) implies
            out@ == old(out)@
            + implication_written(*interner, answers, *implication) by {
            assert(out@ =~= old(out)@ + implication_written(*interner, answers, *implication));
        }
        assert(extends(out@, old(out)@));
    }
    plain
}

/// Writes a program clause: the host's rendering, or else the plain text
/// of what the handle stands for.
pub fn render_program_clause<I: WellFounded>(
    interner: &I,
    clause: &I::InternedProgramClause,
    out: &mut String,
) -> (plain: bool)
    ensures
        extends(final(out)@, old(out)@),
        plain ==> final(out)@ == old(out)@ + program_clause_text(*interner, *clause),
        silent(*interner) ==> plain,
        forall|answers: Answers<I>|
            #[trigger] answers_of(*interner, answers) ==>
                final(out)@ == old(out)@ + program_clause_written(*interner, answers, *clause),
        exists|shown: Option<String>|
            #[trigger] call_ensures(I::debug_program_clause, (interner, clause), shown) && answered(
                shown,
                old(out)@,
                final(out)@,
                plain,
            ),
    decreases interner.program_clause_rank(clause), 0nat,
{
    proof {
        reveal(answers_of);
    }
    if write_shown(interner.debug_program_clause(clause), out) {
        return false;
    }
    proof {
        interner.lemma_program_clause_rank(clause);
    }
    render_program_clause_data(interner, interner.program_clause_data(clause), out)
}

/// Writes the shape of a program clause: the implication, with
/// `for<kinds> ` before it where it is under a binder.
pub fn render_program_clause_data<I: WellFounded>(
    interner: &I,
    data: &ProgramClauseData<I>,
    out: &mut String,
) -> (plain: bool)
    ensures
        extends(final(out)@, old(out)@),
        plain ==> final(out)@ == old(out)@ + program_clause_data_text(*interner, *data),
        silent(*interner) ==> plain,
        forall|answers: Answers<I>|
            #[trigger] answers_of(*interner, answers) ==>
                final(out)@ == old(out)@ + program_clause_data_written(*interner, answers, *data),
    decreases program_clause_data_rank(*interner, *data), 0nat,
{
    let plain = match data {
        ProgramClauseShape::Implies(implication) => render_implication(interner, implication, out),
        ProgramClauseShape::ForAll(binders) => {
            push_text(out, "for");
            let kinds_plain = render_variable_kinds_with_angles(interner, &binders.binders, out);
            push_text(out, " ");
            let implication_plain = render_implication(interner, &binders.value, out);
            kinds_plain && implication_plain
        },
    };
    proof {
        if plain {
            assert(out@ =~= old(out)@ + program_clause_data_text(*interner, *data));
        }
        assert forall|answers: Answers<I>| #[trigger] answers_of(*interner, answers) implies
            out@ == old(out)@
            + program_clause_data_written(*interner, answers, *data) by {
            assert(out@ =~= old(out)@ + program_clause_data_written(*interner, answers, *data));
        }
        assert(extends(out@, old(out)@));
    }
    plain
}

/// Writes program clauses with `, ` between them.
pub fn render_clauses_joined<I: WellFounded>(
    interner: &I,
    clauses: &I::InternedProgramClauses,
    out: &mut String,
) -> (plain: bool)
    ensures
        extends(final(out)@, old(out)@),
        plain ==> final(out)@ == old(out)@ + clauses_joined(
            *interner,
            *clauses,
            interner.program_clauses_shape(clauses).len(),
        ),
        silent(*interner) ==> plain,
        forall|answers: Answers<I>|
            #[trigger] answers_of(*interner, answers) ==>
                final(out)@ == old(out)@ + clauses_joined_written(
                *interner,
                answers,
                *clauses,
                interner.program_clauses_shape(clauses).len(),
            ),
    decreases interner.program_clauses_rank(clauses), interner.program_clauses_shape(clauses).len(),
{
    let items = interner.program_clauses_data(clauses);
    let ghost start = out@;
    let mut plain = true;
    let mut k: usize = 0;
    proof {
        assert(out@ =~= start + clauses_joined(*interner, *clauses, k as nat));
        assert forall|answers: Answers<I>| #[trigger] answers_of(*interner, answers) implies
            out@ == start
            + clauses_joined_written(*interner, answers, *clauses, k as nat) by {
            assert(out@ =~= start + clauses_joined_written(*interner, answers, *clauses, k as nat));
        }
    }
    while k < items.len()
        invariant
            k <= items.len(),
            items@ == interner.program_clauses_shape(clauses),
            extends(out@, start),
            plain ==> out@ == start + clauses_joined(*interner, *clauses, k as nat),
            forall|answers: Answers<I>|
                #[trigger] answers_of(*interner, answers) ==>
                    out@ == start + clauses_joined_written(*interner, answers, *clauses, k as nat),
            silent(*interner) ==> plain,
        decreases items.len() - k,
    {
        if k > 0 {
            push_text(out, ", ");
        }
        proof {
            interner.lemma_program_clauses_rank(clauses);
        }
        let item_plain = render_program_clause(interner, &items[k], out);
        plain = plain && item_plain;
        k = k + 1;
        proof {
            if plain {
                assert(out@ =~= start + clauses_joined(*interner, *clauses, k as nat));
            }
            assert forall|answers: Answers<I>| #[trigger] answers_of(*interner, answers) implies
                out@ == start
                + clauses_joined_written(*interner, answers, *clauses, k as nat) by {
                assert(out@ =~= start
                    + clauses_joined_written(*interner, answers, *clauses, k as nat));
            }
        }
    }
    plain
}

/// Writes a list of program clauses as `[clause, clause]`, unless the host
/// has a rendering.
pub fn render_program_clauses<I: WellFounded>(
    interner: &I,
    clauses: &I::InternedProgramClauses,
    out: &mut String,
) -> (plain: bool)
    ensures
        extends(final(out)@, old(out)@),
        plain ==> final(out)@ == old(out)@ + program_clauses_text(*interner, *clauses),
        silent(*interner) ==> plain,
        forall|answers: Answers<I>|
            #[trigger] answers_of(*interner, answers) ==>
                final(out)@ == old(out)@ + program_clauses_written(*interner, answers, *clauses),
        exists|shown: Option<String>|
            #[trigger] call_ensures(I::debug_program_clauses, (interner, clauses), shown)
                && answered(
                shown,
                old(out)@,
                final(out)@,
                plain,
            ),
    decreases interner.program_clauses_rank(clauses),
        interner.program_clauses_shape(clauses).len() + 1,
{
    proof {
        reveal(answers_of);
    }
    if write_shown(interner.debug_program_clauses(clauses), out) {
        return false;
    }
    push_text(out, "[");
    let plain = render_clauses_joined(interner, clauses, out);
    push_text(out, "]");
    proof {
        if plain {
            assert(out@ =~= old(out)@ + program_clauses_text(*interner, *clauses));
        }
        assert forall|answers: Answers<I>| #[trigger] answers_of(*interner, answers) implies
            out@ == old(out)@
            + program_clauses_written(*interner, answers, *clauses) by {
            assert(out@ =~= old(out)@ + program_clauses_written(*interner, answers, *clauses));
        }
        assert(extends(out@, old(out)@));
    }
    plain
}

} // verus!
