//! What holds of every host, proved from the contracts of the interner
//! alone: a term that goes in comes out as it went in, and a list that fails
//! to be produced makes no handle.

use vstd::prelude::*;
use vstd::std_specs::iter::IteratorSpec;
use crate::collect::all_values;
use crate::collect::first_failure;
use crate::collect::lemma_gathered_failure;
use crate::collect::lemma_gathered_values;
use crate::interner::ConstData;
use crate::interner::GenericArgData;
use crate::interner::GoalData;
use crate::interner::Interner;
use crate::interner::ProgramClauseData;
use crate::interner::QuantifiedWhereClause;
use crate::interner::TyData;
use crate::shapes::CanonicalVarKind;
use crate::shapes::LifetimeData;
use crate::shapes::VariableKind;

verus! {

/// Making a handle for a type and asking for its shape gives the shape
/// back.
pub proof fn lemma_ty_round_trip<I: Interner>(
    interner: I,
    data: TyData<I>,
    handle: I::InternedType,
    back: TyData<I>,
)
    requires
        call_ensures(I::intern_ty, (&interner, data), handle),
        call_ensures(I::ty_data, (&interner, &handle), &back),
    ensures
        back == data,
{
}

/// Making a handle for a lifetime and asking for its shape gives the shape
/// back.
pub proof fn lemma_lifetime_round_trip<I: Interner>(
    interner: I,
    data: LifetimeData,
    handle: I::InternedLifetime,
    back: LifetimeData,
)
    requires
        call_ensures(I::intern_lifetime, (&interner, data), handle),
        call_ensures(I::lifetime_data, (&interner, &handle), &back),
    ensures
        back == data,
{
}

/// Making a handle for a constant and asking for its shape gives the shape
/// back.
pub proof fn lemma_const_round_trip<I: Interner>(
    interner: I,
    data: ConstData<I>,
    handle: I::InternedConst,
    back: ConstData<I>,
)
    requires
        call_ensures(I::intern_const, (&interner, data), handle),
        call_ensures(I::const_data, (&interner, &handle), &back),
    ensures
        back == data,
{
}

/// Making a handle for a generic argument and asking for its shape gives the
/// shape back.
pub proof fn lemma_generic_arg_round_trip<I: Interner>(
    interner: I,
    data: GenericArgData<I>,
    handle: I::InternedGenericArg,
    back: GenericArgData<I>,
)
    requires
        call_ensures(I::intern_generic_arg, (&interner, data), handle),
        call_ensures(I::generic_arg_data, (&interner, &handle), &back),
    ensures
        back == data,
{
}

/// Making a handle for a goal and asking for its shape gives the shape
/// back.
pub proof fn lemma_goal_round_trip<I: Interner>(
    interner: I,
    data: GoalData<I>,
    handle: I::InternedGoal,
    back: GoalData<I>,
)
    requires
        call_ensures(I::intern_goal, (&interner, data), handle),
        call_ensures(I::goal_data, (&interner, &handle), &back),
    ensures
        back == data,
{
}

/// Making a handle for a program clause and asking for its shape gives the
/// shape back.
pub proof fn lemma_program_clause_round_trip<I: Interner>(
    interner: I,
    data: ProgramClauseData<I>,
    handle: I::InternedProgramClause,
    back: ProgramClauseData<I>,
)
    requires
        call_ensures(I::intern_program_clause, (&interner, data), handle),
        call_ensures(I::program_clause_data, (&interner, &handle), &back),
    ensures
        back == data,
{
}

/// Making a handle for a list of goals that are all produced, and
/// asking for them, gives the same goals in the same order.
pub proof fn lemma_goals_round_trip<
    I: Interner,
    E,
    It: Iterator<Item = Result<I::InternedGoal, E>>,
>(
    interner: I,
    source: It,
    items: Seq<I::InternedGoal>,
    made: Result<I::InternedGoals, E>,
    back: &[I::InternedGoal],
)
    requires
        source.obeys_prophetic_iter_laws(),
        source.decrease() is Some,
        all_values(source.remaining(), items),
        call_ensures(I::intern_goals::<E, It>, (&interner, source), made),
        made is Ok ==> call_ensures(I::goals_data, (&interner, &made->Ok_0), back),
    ensures
        made is Ok,
        back@ == items,
{
    lemma_gathered_values(source.remaining(), items);
}

/// Where the item at `k` is the first that fails to be produced, no
/// handle is made for the list of goals, and the failure is handed on
/// as it came.
pub proof fn lemma_goals_failure<I: Interner, E, It: Iterator<Item = Result<I::InternedGoal, E>>>(
    interner: I,
    source: It,
    k: int,
    e: E,
    made: Result<I::InternedGoals, E>,
)
    requires
        source.obeys_prophetic_iter_laws(),
        source.decrease() is Some,
        first_failure(source.remaining(), k, e),
        call_ensures(I::intern_goals::<E, It>, (&interner, source), made),
    ensures
        made == Err::<I::InternedGoals, E>(e),
{
    lemma_gathered_failure(source.remaining(), k, e);
}

/// Making a handle for a list of arguments that are all produced, and
/// asking for them, gives the same arguments in the same order.
pub proof fn lemma_substitution_round_trip<
    I: Interner,
    E,
    It: Iterator<Item = Result<I::InternedGenericArg, E>>,
>(
    interner: I,
    source: It,
    items: Seq<I::InternedGenericArg>,
    made: Result<I::InternedSubstitution, E>,
    back: &[I::InternedGenericArg],
)
    requires
        source.obeys_prophetic_iter_laws(),
        source.decrease() is Some,
        all_values(source.remaining(), items),
        call_ensures(I::intern_substitution::<E, It>, (&interner, source), made),
        made is Ok ==> call_ensures(I::substitution_data, (&interner, &made->Ok_0), back),
    ensures
        made is Ok,
        back@ == items,
{
    lemma_gathered_values(source.remaining(), items);
}

/// Where the item at `k` is the first that fails to be produced, no
/// handle is made for the list of arguments, and the failure is handed on
/// as it came.
pub proof fn lemma_substitution_failure<
    I: Interner,
    E,
    It: Iterator<Item = Result<I::InternedGenericArg, E>>,
>(
    interner: I,
    source: It,
    k: int,
    e: E,
    made: Result<I::InternedSubstitution, E>,
)
    requires
        source.obeys_prophetic_iter_laws(),
        source.decrease() is Some,
        first_failure(source.remaining(), k, e),
        call_ensures(I::intern_substitution::<E, It>, (&interner, source), made),
    ensures
        made == Err::<I::InternedSubstitution, E>(e),
{
    lemma_gathered_failure(source.remaining(), k, e);
}

/// Making a handle for a list of program clauses that are all produced, and
/// asking for them, gives the same program clauses in the same order.
pub proof fn lemma_program_clauses_round_trip<
    I: Interner,
    E,
    It: Iterator<Item = Result<I::InternedProgramClause, E>>,
>(
    interner: I,
    source: It,
    items: Seq<I::InternedProgramClause>,
    made: Result<I::InternedProgramClauses, E>,
    back: &[I::InternedProgramClause],
)
    requires
        source.obeys_prophetic_iter_laws(),
        source.decrease() is Some,
        all_values(source.remaining(), items),
        call_ensures(I::intern_program_clauses::<E, It>, (&interner, source), made),
        made is Ok ==> call_ensures(I::program_clauses_data, (&interner, &made->Ok_0), back),
    ensures
        made is Ok,
        back@ == items,
{
    lemma_gathered_values(source.remaining(), items);
}

/// Where the item at `k` is the first that fails to be produced, no
/// handle is made for the list of program clauses, and the failure is handed on
/// as it came.
pub proof fn lemma_program_clauses_failure<
    I: Interner,
    E,
    It: Iterator<Item = Result<I::InternedProgramClause, E>>,
>(
    interner: I,
    source: It,
    k: int,
    e: E,
    made: Result<I::InternedProgramClauses, E>,
)
    requires
        source.obeys_prophetic_iter_laws(),
        source.decrease() is Some,
        first_failure(source.remaining(), k, e),
        call_ensures(I::intern_program_clauses::<E, It>, (&interner, source), made),
    ensures
        made == Err::<I::InternedProgramClauses, E>(e),
{
    lemma_gathered_failure(source.remaining(), k, e);
}

/// Making a handle for a list of quantified where clauses that are all
/// produced, and asking for them, gives the same quantified where clauses in
/// the same order.
pub proof fn lemma_quantified_where_clauses_round_trip<
    I: Interner,
    E,
    It: Iterator<Item = Result<QuantifiedWhereClause<I>, E>>,
>(
    interner: I,
    source: It,
    items: Seq<QuantifiedWhereClause<I>>,
    made: Result<I::InternedQuantifiedWhereClauses, E>,
    back: &[QuantifiedWhereClause<I>],
)
    requires
        source.obeys_prophetic_iter_laws(),
        source.decrease() is Some,
        all_values(source.remaining(), items),
        call_ensures(I::intern_quantified_where_clauses::<E, It>, (&interner, source), made),
        made is Ok ==>
            call_ensures(I::quantified_where_clauses_data, (&interner, &made->Ok_0), back),
    ensures
        made is Ok,
        back@ == items,
{
    lemma_gathered_values(source.remaining(), items);
}

/// Where the item at `k` is the first that fails to be produced, no
/// handle is made for the list of quantified where clauses, and the failure is
/// handed on as it came.
pub proof fn lemma_quantified_where_clauses_failure<
    I: Interner,
    E,
    It: Iterator<Item = Result<QuantifiedWhereClause<I>, E>>,
>(
    interner: I,
    source: It,
    k: int,
    e: E,
    made: Result<I::InternedQuantifiedWhereClauses, E>,
)
    requires
        source.obeys_prophetic_iter_laws(),
        source.decrease() is Some,
        first_failure(source.remaining(), k, e),
        call_ensures(I::intern_quantified_where_clauses::<E, It>, (&interner, source), made),
    ensures
        made == Err::<I::InternedQuantifiedWhereClauses, E>(e),
{
    lemma_gathered_failure(source.remaining(), k, e);
}

/// Making a handle for a list of parameter kinds that are all produced, and
/// asking for them, gives the same parameter kinds in the same order.
pub proof fn lemma_variable_kinds_round_trip<
    I: Interner,
    E,
    It: Iterator<Item = Result<VariableKind<I::InternedType>, E>>,
>(
    interner: I,
    source: It,
    items: Seq<VariableKind<I::InternedType>>,
    made: Result<I::InternedVariableKinds, E>,
    back: &[VariableKind<I::InternedType>],
)
    requires
        source.obeys_prophetic_iter_laws(),
        source.decrease() is Some,
        all_values(source.remaining(), items),
        call_ensures(I::intern_generic_arg_kinds::<E, It>, (&interner, source), made),
        made is Ok ==> call_ensures(I::variable_kinds_data, (&interner, &made->Ok_0), back),
    ensures
        made is Ok,
        back@ == items,
{
    lemma_gathered_values(source.remaining(), items);
}

/// Where the item at `k` is the first that fails to be produced, no
/// handle is made for the list of parameter kinds, and the failure is handed on
/// as it came.
pub proof fn lemma_variable_kinds_failure<
    I: Interner,
    E,
    It: Iterator<Item = Result<VariableKind<I::InternedType>, E>>,
>(
    interner: I,
    source: It,
    k: int,
    e: E,
    made: Result<I::InternedVariableKinds, E>,
)
    requires
        source.obeys_prophetic_iter_laws(),
        source.decrease() is Some,
        first_failure(source.remaining(), k, e),
        call_ensures(I::intern_generic_arg_kinds::<E, It>, (&interner, source), made),
    ensures
        made == Err::<I::InternedVariableKinds, E>(e),
{
    lemma_gathered_failure(source.remaining(), k, e);
}

/// Making a handle for a list of canonical variable kinds that are all
/// produced, and asking for them, gives the same canonical variable kinds in
/// the same order.
pub proof fn lemma_canonical_var_kinds_round_trip<
    I: Interner,
    E,
    It: Iterator<Item = Result<CanonicalVarKind<I::InternedType>, E>>,
>(
    interner: I,
    source: It,
    items: Seq<CanonicalVarKind<I::InternedType>>,
    made: Result<I::InternedCanonicalVarKinds, E>,
    back: &[CanonicalVarKind<I::InternedType>],
)
    requires
        source.obeys_prophetic_iter_laws(),
        source.decrease() is Some,
        all_values(source.remaining(), items),
        call_ensures(I::intern_canonical_var_kinds::<E, It>, (&interner, source), made),
        made is Ok ==> call_ensures(I::canonical_var_kinds_data, (&interner, &made->Ok_0), back),
    ensures
        made is Ok,
        back@ == items,
{
    lemma_gathered_values(source.remaining(), items);
}

/// Where the item at `k` is the first that fails to be produced, no
/// handle is made for the list of canonical variable kinds, and the failure is
/// handed on as it came.
pub proof fn lemma_canonical_var_kinds_failure<
    I: Interner,
    E,
    It: Iterator<Item = Result<CanonicalVarKind<I::InternedType>, E>>,
>(
    interner: I,
    source: It,
    k: int,
    e: E,
    made: Result<I::InternedCanonicalVarKinds, E>,
)
    requires
        source.obeys_prophetic_iter_laws(),
        source.decrease() is Some,
        first_failure(source.remaining(), k, e),
        call_ensures(I::intern_canonical_var_kinds::<E, It>, (&interner, source), made),
    ensures
        made == Err::<I::InternedCanonicalVarKinds, E>(e),
{
    lemma_gathered_failure(source.remaining(), k, e);
}

} // verus!
