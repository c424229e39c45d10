//! Handles: what goes in comes out, equal handles stand for equal terms,
//! lists are made whole or not at all, and nothing changes on the way from a
//! host to itself.

use std::cell::Cell;
use std::marker::PhantomData;
use std::sync::Arc;

use chalk_ir::collect::gather;
use chalk_ir::interner::HasInterner;
use chalk_ir::interner::Interner;
use chalk_ir::interner::TargetInterner;
use chalk_ir::shapes::AdtId;
use chalk_ir::shapes::ApplicationTy;
use chalk_ir::shapes::Binders;
use chalk_ir::shapes::CanonicalVarKind;
use chalk_ir::shapes::ConstShape;
use chalk_ir::shapes::ConstValue;
use chalk_ir::shapes::DomainGoal;
use chalk_ir::shapes::GenericArgShape;
use chalk_ir::shapes::GoalShape;
use chalk_ir::shapes::LifetimeData;
use chalk_ir::shapes::ProgramClauseImplication;
use chalk_ir::shapes::ProgramClauseShape;
use chalk_ir::shapes::TraitId;
use chalk_ir::shapes::TraitRef;
use chalk_ir::shapes::TyShape;
use chalk_ir::shapes::TypeName;
use chalk_ir::shapes::VariableKind;
use chalk_ir::shapes::WellFormed;
use chalk_ir::shapes::WhereClause;
use chalk_ir::shared::Shared;
use chalk_ir::shared::SharedGenericArg;
use chalk_ir::shared::SharedGoal;
use chalk_ir::shared::SharedTy;
use chalk_ir::var::BoundVar;
use chalk_ir::var::DebruijnIndex;
use chalk_ir::var::InferenceVar;
use chalk_ir::var::PlaceholderIndex;
use chalk_ir::var::QuantifierKind;
use chalk_ir::var::UniverseIndex;

fn all_ok<T>(items: Vec<T>) -> impl Iterator<Item = Result<T, String>> {
    items.into_iter().map(Ok)
}

fn bound_ty(host: &Shared, depth: u32, index: usize) -> SharedTy {
    host.intern_ty(TyShape::BoundVar(BoundVar::new(DebruijnIndex::new(depth), index)))
}

fn ty_arg(host: &Shared, depth: u32, index: usize) -> SharedGenericArg {
    host.intern_generic_arg(GenericArgShape::Ty(bound_ty(host, depth, index)))
}

fn truth(host: &Shared, value: bool) -> SharedGoal {
    host.intern_goal(GoalShape::Truth(value))
}

#[test]
fn type_round_trip_keeps_the_shape() {
    let host = Shared::new();
    let var = BoundVar::new(DebruijnIndex::new(1), 0);
    let shapes = vec![
        TyShape::BoundVar(var),
        TyShape::InferenceVar(InferenceVar { index: 3 }),
        TyShape::Placeholder(PlaceholderIndex { ui: UniverseIndex { counter: 2 }, idx: 5 }),
        TyShape::Error,
        TyShape::Apply(ApplicationTy {
            name: TypeName::Adt(AdtId(4)),
            substitution: vec![ty_arg(&host, 0, 0)],
        }),
    ];
    for shape in shapes {
        let handle = host.intern_ty(shape.clone());
        assert_eq!(host.ty_data(&handle), &shape);
    }
}

#[test]
fn lifetime_round_trip_keeps_the_shape() {
    let host = Shared::new();
    let shapes = [
        LifetimeData::Static,
        LifetimeData::Error,
        LifetimeData::BoundVar(BoundVar::new(DebruijnIndex::innermost(), 2)),
        LifetimeData::InferenceVar(InferenceVar { index: 1 }),
        LifetimeData::Placeholder(PlaceholderIndex { ui: UniverseIndex::root(), idx: 0 }),
    ];
    for shape in shapes {
        let handle = host.intern_lifetime(shape);
        assert_eq!(host.lifetime_data(&handle), &shape);
    }
}

#[test]
fn const_round_trip_keeps_the_shape() {
    let host = Shared::new();
    let values = vec![
        ConstValue::Concrete(7),
        ConstValue::BoundVar(BoundVar::new(DebruijnIndex::new(2), 1)),
        ConstValue::InferenceVar(InferenceVar { index: 9 }),
        ConstValue::Placeholder(PlaceholderIndex { ui: UniverseIndex { counter: 1 }, idx: 1 }),
    ];
    for value in values {
        let shape = ConstShape { ty: bound_ty(&host, 0, 0), value };
        let handle = host.intern_const(shape.clone());
        assert_eq!(host.const_data(&handle), &shape);
    }
}

#[test]
fn generic_arg_round_trip_keeps_the_one_variant() {
    let host = Shared::new();
    let constant = host.intern_const(ConstShape {
        ty: bound_ty(&host, 0, 0),
        value: ConstValue::Concrete(1),
    });
    let shapes = vec![
        GenericArgShape::Ty(bound_ty(&host, 0, 1)),
        GenericArgShape::Lifetime(host.intern_lifetime(LifetimeData::Static)),
        GenericArgShape::Const(constant),
    ];
    for shape in shapes {
        let handle = host.intern_generic_arg(shape.clone());
        assert_eq!(host.generic_arg_data(&handle), &shape);
    }
}

#[test]
fn goal_round_trip_keeps_the_shape() {
    let host = Shared::new();
    let trait_ref = TraitRef { trait_id: TraitId(0), substitution: vec![ty_arg(&host, 0, 0)] };
    let kinds = host.intern_generic_arg_kinds(all_ok(vec![VariableKind::Ty])).unwrap();
    let shapes = vec![
        GoalShape::Truth(true),
        GoalShape::Truth(false),
        GoalShape::Not(truth(&host, true)),
        GoalShape::All(vec![truth(&host, true), truth(&host, false)]),
        GoalShape::Implies(Vec::new(), truth(&host, true)),
        GoalShape::Quantified(
            QuantifierKind::Exists,
            Binders { binders: kinds, value: truth(&host, false) },
        ),
        GoalShape::DomainGoal(DomainGoal::Holds(WhereClause::Implemented(trait_ref.clone()))),
        GoalShape::DomainGoal(DomainGoal::WellFormed(WellFormed::Trait(trait_ref))),
        GoalShape::DomainGoal(DomainGoal::WellFormed(WellFormed::Ty(bound_ty(&host, 0, 0)))),
    ];
    for shape in shapes {
        let handle = host.intern_goal(shape.clone());
        assert_eq!(host.goal_data(&handle), &shape);
    }
}

#[test]
fn program_clause_round_trip_keeps_the_shape() {
    let host = Shared::new();
    let implication = ProgramClauseImplication {
        consequence: DomainGoal::WellFormed(WellFormed::Ty(bound_ty(&host, 0, 0))),
        conditions: vec![truth(&host, true)],
    };
    let plain = ProgramClauseShape::Implies(implication.clone());
    let under_binder = ProgramClauseShape::ForAll(Binders {
        binders: vec![VariableKind::Ty, VariableKind::Lifetime],
        value: implication,
    });
    for shape in [plain, under_binder] {
        let handle = host.intern_program_clause(shape.clone());
        assert_eq!(host.program_clause_data(&handle), &shape);
    }
}

#[test]
fn lists_come_back_in_order() {
    let host = Shared::new();
    let goal_list = vec![truth(&host, true), truth(&host, false), truth(&host, true)];
    let handle = host.intern_goals(all_ok(goal_list.clone())).unwrap();
    assert_eq!(host.goals_data(&handle), goal_list.as_slice());

    let args = vec![ty_arg(&host, 0, 0), ty_arg(&host, 0, 1)];
    let handle = host.intern_substitution(all_ok(args.clone())).unwrap();
    assert_eq!(host.substitution_data(&handle), args.as_slice());

    let clause = host.intern_program_clause(ProgramClauseShape::Implies(ProgramClauseImplication {
        consequence: DomainGoal::WellFormed(WellFormed::Ty(bound_ty(&host, 0, 0))),
        conditions: Vec::new(),
    }));
    let handle = host.intern_program_clauses(all_ok(vec![clause.clone()])).unwrap();
    assert_eq!(host.program_clauses_data(&handle), &[clause]);

    let bound = Binders {
        binders: Vec::new(),
        value: WhereClause::Implemented(TraitRef {
            trait_id: TraitId(2),
            substitution: vec![ty_arg(&host, 0, 0)],
        }),
    };
    let handle = host.intern_quantified_where_clauses(all_ok(vec![bound.clone()])).unwrap();
    assert_eq!(host.quantified_where_clauses_data(&handle), &[bound]);

    let kinds = vec![VariableKind::Lifetime, VariableKind::Const(bound_ty(&host, 0, 0))];
    let handle = host.intern_generic_arg_kinds(all_ok(kinds.clone())).unwrap();
    assert_eq!(host.variable_kinds_data(&handle), kinds.as_slice());

    let canonical = vec![
        CanonicalVarKind { kind: VariableKind::Ty, universe: UniverseIndex::root() },
        CanonicalVarKind { kind: VariableKind::Lifetime, universe: UniverseIndex { counter: 3 } },
    ];
    let handle = host.intern_canonical_var_kinds(all_ok(canonical.clone())).unwrap();
    assert_eq!(host.canonical_var_kinds_data(&handle), canonical.as_slice());
}

#[test]
fn an_empty_list_is_a_list() {
    let host = Shared::new();
    let handle = host.intern_goals(all_ok(Vec::new())).unwrap();
    assert!(host.goals_data(&handle).is_empty());
    let handle = host.intern_substitution(all_ok(Vec::new())).unwrap();
    assert!(host.substitution_data(&handle).is_empty());
}

#[test]
fn the_first_failure_ends_the_list_and_makes_no_handle() {
    let host = Shared::new();
    let drawn = Cell::new(0);
    let source = (0..5).map(|i| {
        drawn.set(drawn.get() + 1);
        match i {
            2 => Err("third".to_string()),
            4 => Err("fifth".to_string()),
            _ => Ok(truth(&host, true)),
        }
    });
    assert_eq!(host.intern_goals(source), Err("third".to_string()));
    // Nothing was asked for after the item that failed.
    assert_eq!(drawn.get(), 3);
}

#[test]
fn every_kind_of_list_hands_the_failure_on() {
    let host = Shared::new();
    assert_eq!(host.intern_goals(vec![Err(17u8)].into_iter()), Err(17));
    assert_eq!(host.intern_substitution(vec![Err(17u8)].into_iter()), Err(17));
    assert_eq!(host.intern_program_clauses(vec![Err(17u8)].into_iter()), Err(17));
    assert_eq!(host.intern_quantified_where_clauses(vec![Err(17u8)].into_iter()), Err(17));
    assert_eq!(host.intern_generic_arg_kinds(vec![Err(17u8)].into_iter()), Err(17));
    assert_eq!(host.intern_canonical_var_kinds(vec![Err(17u8)].into_iter()), Err(17));
    // A value before the failure does not save the list.
    let first = host.intern_lifetime(LifetimeData::Static);
    let source = vec![Ok(GenericArgShape::Lifetime(first)), Err(18u8)];
    assert_eq!(host.intern_substitution(source.into_iter()), Err(18));
}

#[test]
fn a_failure_in_first_place_draws_one_item() {
    let drawn = Cell::new(0);
    let source = (0..3).map(|i| {
        drawn.set(drawn.get() + 1);
        if i == 0 {
            Err(i)
        } else {
            Ok(i)
        }
    });
    assert_eq!(gather(source), Err(0));
    assert_eq!(drawn.get(), 1);
}

#[test]
fn gathering_keeps_every_value_in_order() {
    let source = vec![Ok::<u8, ()>(3), Ok(1), Ok(2)].into_iter();
    assert_eq!(gather(source), Ok(vec![3, 1, 2]));
    assert_eq!(gather(Vec::<Result<u8, ()>>::new().into_iter()), Ok(Vec::new()));
}

#[test]
fn equal_handles_stand_for_equal_terms() {
    let host = Shared::new();
    let one = bound_ty(&host, 1, 0);
    let same = bound_ty(&host, 1, 0);
    let other = bound_ty(&host, 0, 1);
    assert_eq!(one == same, host.ty_data(&one) == host.ty_data(&same));
    assert_eq!(one == other, host.ty_data(&one) == host.ty_data(&other));
    assert!(one == same);
    assert!(one != other);

    let yes = truth(&host, true);
    let also_yes = truth(&host, true);
    let no = truth(&host, false);
    assert_eq!(yes == also_yes, host.goal_data(&yes) == host.goal_data(&also_yes));
    assert_eq!(yes == no, host.goal_data(&yes) == host.goal_data(&no));
    assert!(yes == also_yes);
    assert!(yes != no);
}

#[test]
fn a_copy_of_a_handle_points_at_the_same_node() {
    let host = Shared::new();
    let ty = bound_ty(&host, 0, 0);
    assert_eq!(Arc::strong_count(&ty.0), 1);
    let copy = ty.clone();
    assert_eq!(copy, ty);
    assert!(Arc::ptr_eq(&copy.0, &ty.0));
    assert_eq!(Arc::strong_count(&ty.0), 2);

    let goal = host.intern_goal(GoalShape::Not(truth(&host, false)));
    let copy = goal.clone();
    assert_eq!(copy, goal);
    assert_eq!(host.goal_data(&copy), host.goal_data(&goal));
}

#[test]
fn comparing_evaluated_constants_is_an_equivalence() {
    let host = Shared::new();
    let ty = bound_ty(&host, 0, 0);
    for a in [0u32, 1, 7] {
        assert!(host.const_eq(&ty, &a, &a));
        for b in [0u32, 1, 7] {
            assert_eq!(host.const_eq(&ty, &a, &b), host.const_eq(&ty, &b, &a));
            assert_eq!(host.const_eq(&ty, &a, &b), a == b);
            for c in [0u32, 1, 7] {
                if host.const_eq(&ty, &a, &b) && host.const_eq(&ty, &b, &c) {
                    assert!(host.const_eq(&ty, &a, &c));
                }
            }
        }
    }
}

#[test]
fn from_a_host_to_itself_nothing_changes() {
    let host = Shared::new();
    assert_eq!(<Shared as TargetInterner<Shared>>::transfer_def_id(7), 7);
    assert_eq!(<Shared as TargetInterner<Shared>>::transfer_adt_id(u32::MAX), u32::MAX);
    let kinds = vec![VariableKind::Ty, VariableKind::Const(bound_ty(&host, 0, 0))];
    assert_eq!(
        <Shared as TargetInterner<Shared>>::transfer_variable_kinds(kinds.clone()),
        kinds
    );
    let canonical =
        vec![CanonicalVarKind { kind: VariableKind::Ty, universe: UniverseIndex { counter: 1 } }];
    assert_eq!(
        <Shared as TargetInterner<Shared>>::transfer_canonical_var_kinds(canonical.clone()),
        canonical
    );
    assert_eq!(TargetInterner::<Shared>::transfer_const(&host, &42), 42);
    assert_eq!(TargetInterner::<Shared>::transfer_const(&host, &0), 0);
}

#[test]
fn the_arity_of_a_substitution_can_be_held_against_a_binder() {
    let host = Shared::new();
    let declared = host
        .intern_generic_arg_kinds(all_ok(vec![VariableKind::Ty, VariableKind::Ty]))
        .unwrap();
    let pair = vec![ty_arg(&host, 0, 0), ty_arg(&host, 0, 1)];
    let fitting = host.intern_substitution(all_ok(pair.clone())).unwrap();
    assert_eq!(host.substitution_data(&fitting), pair.as_slice());
    assert_eq!(
        host.substitution_data(&fitting).len(),
        host.variable_kinds_data(&declared).len()
    );
    // One argument short: the host makes the handle all the same, and the
    // length shows that it does not fit.
    let short = host.intern_substitution(all_ok(vec![ty_arg(&host, 0, 0)])).unwrap();
    assert_eq!(host.substitution_data(&short).len(), 1);
    assert_ne!(
        host.substitution_data(&short).len(),
        host.variable_kinds_data(&declared).len()
    );
}

#[test]
fn variables_know_their_binder() {
    let var = BoundVar::new(DebruijnIndex::new(1), 4);
    assert_eq!(var.index_if_bound_at(DebruijnIndex::new(1)), Some(4));
    assert_eq!(var.index_if_bound_at(DebruijnIndex::innermost()), None);
    assert!(DebruijnIndex::new(1).within(2));
    assert!(!DebruijnIndex::new(2).within(2));
    assert!(!DebruijnIndex::innermost().within(0));
    assert!(UniverseIndex { counter: 2 }.can_see(UniverseIndex::root()));
    assert!(UniverseIndex::root().can_see(UniverseIndex::root()));
    assert!(!UniverseIndex::root().can_see(UniverseIndex { counter: 1 }));
}

struct OfShared;

impl HasInterner for OfShared {
    type Interner = Shared<'static>;
}

fn host_of<T: HasInterner<Interner = Shared<'static>> + ?Sized>(_: &T) {}

#[test]
fn containers_have_the_host_of_what_they_hold() {
    host_of(&OfShared);
    host_of(&vec![OfShared]);
    host_of(&Box::new(OfShared));
    host_of(&Arc::new(OfShared));
    host_of(&&OfShared);
    host_of(&[OfShared][..]);
    host_of(&[OfShared].iter());
    host_of(&(OfShared, vec![OfShared]));
    host_of(&PhantomData::<Shared<'static>>);
}
