//! The text of terms: exact, the same every time, and only ever added to
//! what the sink already holds.

use chalk_ir::interner::Interner;
use chalk_ir::render::render_adt_id;
use chalk_ir::render::render_canonical_var_kinds;
use chalk_ir::render::render_const;
use chalk_ir::render::render_generic_arg;
use chalk_ir::render::render_goal;
use chalk_ir::render::render_goals;
use chalk_ir::render::render_lifetime;
use chalk_ir::render::render_program_clause;
use chalk_ir::render::render_program_clauses;
use chalk_ir::render::render_separator_trait_ref;
use chalk_ir::render::render_substitution;
use chalk_ir::render::render_trait_id;
use chalk_ir::render::render_ty;
use chalk_ir::render::render_variable_kinds;
use chalk_ir::render::render_variable_kinds_with_angles;
use chalk_ir::render::write_bound_var;
use chalk_ir::render::write_shown;
use chalk_ir::render::write_universe;
use chalk_ir::shapes::AdtId;
use chalk_ir::shapes::AliasTy;
use chalk_ir::shapes::ApplicationTy;
use chalk_ir::shapes::AssocTypeId;
use chalk_ir::shapes::Binders;
use chalk_ir::shapes::CanonicalVarKind;
use chalk_ir::shapes::ConstShape;
use chalk_ir::shapes::ConstValue;
use chalk_ir::shapes::DomainGoal;
use chalk_ir::shapes::DynTy;
use chalk_ir::shapes::FnSig;
use chalk_ir::shapes::GenericArgShape;
use chalk_ir::shapes::GoalShape;
use chalk_ir::shapes::LifetimeData;
use chalk_ir::shapes::OpaqueTy;
use chalk_ir::shapes::OpaqueTyId;
use chalk_ir::shapes::ProgramClauseImplication;
use chalk_ir::shapes::ProgramClauseShape;
use chalk_ir::shapes::ProjectionTy;
use chalk_ir::shapes::TraitId;
use chalk_ir::shapes::TraitRef;
use chalk_ir::shapes::TyShape;
use chalk_ir::shapes::TypeName;
use chalk_ir::shapes::VariableKind;
use chalk_ir::shapes::WellFormed;
use chalk_ir::shapes::WhereClause;
use chalk_ir::shared::Names;
use chalk_ir::shared::Shared;
use chalk_ir::shared::SharedGenericArg;
use chalk_ir::shared::SharedGoal;
use chalk_ir::shared::SharedTy;
use chalk_ir::text::push_decimal;
use chalk_ir::text::push_text;
use chalk_ir::var::BoundVar;
use chalk_ir::var::DebruijnIndex;
use chalk_ir::var::InferenceVar;
use chalk_ir::var::IntTy;
use chalk_ir::var::PlaceholderIndex;
use chalk_ir::var::QuantifierKind;
use chalk_ir::var::Scalar;
use chalk_ir::var::UintTy;
use chalk_ir::var::UniverseIndex;

fn all_ok<T>(items: Vec<T>) -> impl Iterator<Item = Result<T, String>> {
    items.into_iter().map(Ok)
}

fn bound_var(depth: u32, index: usize) -> BoundVar {
    BoundVar::new(DebruijnIndex::new(depth), index)
}

fn bound_ty(host: &Shared, depth: u32, index: usize) -> SharedTy {
    host.intern_ty(TyShape::BoundVar(bound_var(depth, index)))
}

fn ty_arg(host: &Shared, depth: u32, index: usize) -> SharedGenericArg {
    host.intern_generic_arg(GenericArgShape::Ty(bound_ty(host, depth, index)))
}

fn scalar(host: &Shared, scalar: Scalar) -> SharedTy {
    host.intern_ty(TyShape::Apply(ApplicationTy {
        name: TypeName::Scalar(scalar),
        substitution: Vec::new(),
    }))
}

fn implemented(host: &Shared, trait_id: u32, args: Vec<SharedGenericArg>) -> SharedGoal {
    host.intern_goal(GoalShape::DomainGoal(DomainGoal::Holds(WhereClause::Implemented(
        TraitRef { trait_id: TraitId(trait_id), substitution: args },
    ))))
}

fn for_all_types(host: &Shared, goal: SharedGoal) -> SharedGoal {
    host.intern_goal(GoalShape::Quantified(
        QuantifierKind::ForAll,
        Binders { binders: vec![VariableKind::Ty], value: goal },
    ))
}

fn ty_text(host: &Shared, ty: &SharedTy) -> String {
    let mut out = String::new();
    assert!(render_ty(host, ty, &mut out));
    out
}

fn goal_text(host: &Shared, goal: &SharedGoal) -> String {
    let mut out = String::new();
    assert!(render_goal(host, goal, &mut out));
    out
}

fn decimal_text(n: u64) -> String {
    let mut out = String::new();
    push_decimal(&mut out, n);
    out
}

#[test]
fn numbers_are_written_in_decimal() {
    assert_eq!(decimal_text(0), "0");
    assert_eq!(decimal_text(7), "7");
    assert_eq!(decimal_text(9), "9");
    assert_eq!(decimal_text(10), "10");
    assert_eq!(decimal_text(101), "101");
    assert_eq!(decimal_text(4294967295), "4294967295");
    assert_eq!(decimal_text(u64::MAX), "18446744073709551615");
}

#[test]
fn writing_adds_to_what_is_there() {
    let mut out = String::from("n = ");
    push_decimal(&mut out, 42);
    push_text(&mut out, ";");
    assert_eq!(out, "n = 42;");
}

#[test]
fn a_hook_that_answers_is_written_as_it_answered() {
    let mut out = String::from("> ");
    assert!(write_shown(Some("Foo".to_string()), &mut out));
    assert_eq!(out, "> Foo");
    assert!(!write_shown(None, &mut out));
    assert_eq!(out, "> Foo");
}

#[test]
fn variables_are_written_by_position() {
    let mut out = String::new();
    write_bound_var(&bound_var(0, 0), &mut out);
    assert_eq!(out, "^0.0");
    let mut out = String::new();
    write_bound_var(&bound_var(12, 345), &mut out);
    assert_eq!(out, "^12.345");
    let mut out = String::new();
    write_universe(&UniverseIndex { counter: 3 }, &mut out);
    assert_eq!(out, "U3");
    let host = Shared::new();
    let inference = host.intern_ty(TyShape::InferenceVar(InferenceVar { index: 4 }));
    assert_eq!(ty_text(&host, &inference), "?4");
    let placeholder = host.intern_ty(TyShape::Placeholder(PlaceholderIndex {
        ui: UniverseIndex { counter: 1 },
        idx: 2,
    }));
    assert_eq!(ty_text(&host, &placeholder), "!1_2");
    assert_eq!(ty_text(&host, &host.intern_ty(TyShape::Error)), "{error}");
}

#[test]
fn lifetimes_start_with_a_tick() {
    let host = Shared::new();
    let text = |data: LifetimeData| {
        let mut out = String::new();
        assert!(render_lifetime(&host, &host.intern_lifetime(data), &mut out));
        out
    };
    assert_eq!(text(LifetimeData::Static), "'static");
    assert_eq!(text(LifetimeData::Error), "'{error}");
    assert_eq!(text(LifetimeData::BoundVar(bound_var(1, 0))), "'^1.0");
    assert_eq!(text(LifetimeData::InferenceVar(InferenceVar { index: 0 })), "'?0");
    assert_eq!(
        text(LifetimeData::Placeholder(PlaceholderIndex { ui: UniverseIndex::root(), idx: 9 })),
        "'!0_9"
    );
}

#[test]
fn constants_are_written_with_their_type() {
    let host = Shared::new();
    let text = |value: ConstValue<u32>| {
        let constant = host.intern_const(ConstShape {
            ty: scalar(&host, Scalar::Uint(UintTy::U32)),
            value,
        });
        let mut out = String::new();
        assert!(render_const(&host, &constant, &mut out));
        out
    };
    assert_eq!(text(ConstValue::Concrete(7)), "7: u32");
    assert_eq!(text(ConstValue::BoundVar(bound_var(0, 1))), "^0.1: u32");
    assert_eq!(text(ConstValue::InferenceVar(InferenceVar { index: 2 })), "?2: u32");
    assert_eq!(
        text(ConstValue::Placeholder(PlaceholderIndex { ui: UniverseIndex::root(), idx: 0 })),
        "!0_0: u32"
    );
}

#[test]
fn an_argument_is_written_as_what_it_holds() {
    let host = Shared::new();
    let text = |arg: SharedGenericArg| {
        let mut out = String::new();
        assert!(render_generic_arg(&host, &arg, &mut out));
        out
    };
    assert_eq!(text(ty_arg(&host, 3, 1)), "^3.1");
    let lifetime = host.intern_lifetime(LifetimeData::Static);
    assert_eq!(text(host.intern_generic_arg(GenericArgShape::Lifetime(lifetime))), "'static");
    let constant = host.intern_const(ConstShape {
        ty: scalar(&host, Scalar::Bool),
        value: ConstValue::Concrete(1),
    });
    assert_eq!(text(host.intern_generic_arg(GenericArgShape::Const(constant))), "1: bool");
}

#[test]
fn identifiers_without_a_name_are_written_by_number() {
    let host = Shared::new();
    let mut out = String::new();
    assert!(render_adt_id(&host, AdtId(12), &mut out));
    assert_eq!(out, "AdtId(#12)");
    let mut out = String::new();
    assert!(render_trait_id(&host, TraitId(0), &mut out));
    assert_eq!(out, "TraitId(#0)");
    let opaque = host.intern_ty(TyShape::Apply(ApplicationTy {
        name: TypeName::OpaqueType(OpaqueTyId(5)),
        substitution: Vec::new(),
    }));
    assert_eq!(ty_text(&host, &opaque), "OpaqueTyId(#5)");
    let assoc = host.intern_ty(TyShape::Apply(ApplicationTy {
        name: TypeName::AssociatedType(AssocTypeId(6)),
        substitution: vec![ty_arg(&host, 0, 0)],
    }));
    assert_eq!(ty_text(&host, &assoc), "AssocTypeId(#6)<^0.0>");
}

#[test]
fn a_name_beyond_the_table_falls_back_to_the_number() {
    let table = Names {
        adts: vec!["Vec".to_string()],
        traits: Vec::new(),
        assoc_types: Vec::new(),
        opaque_tys: Vec::new(),
        fn_defs: Vec::new(),
    };
    let host = Shared::with_names(&table);
    let mut out = String::new();
    assert!(!render_adt_id(&host, AdtId(0), &mut out));
    assert_eq!(out, "Vec");
    let mut out = String::new();
    assert!(render_adt_id(&host, AdtId(1), &mut out));
    assert_eq!(out, "AdtId(#1)");
    let mut out = String::new();
    assert!(render_trait_id(&host, TraitId(0), &mut out));
    assert_eq!(out, "TraitId(#0)");
}

#[test]
fn every_kind_of_identifier_can_have_a_name() {
    let table = Names {
        adts: vec!["Vec".to_string()],
        traits: vec!["Clone".to_string()],
        assoc_types: vec!["Item".to_string()],
        opaque_tys: vec!["Hidden".to_string()],
        fn_defs: vec!["main".to_string()],
    };
    let host = Shared::with_names(&table);
    let named = |name: TypeName<u32, u32>| {
        let ty = host.intern_ty(TyShape::Apply(ApplicationTy { name, substitution: Vec::new() }));
        let mut out = String::new();
        assert!(!render_ty(&host, &ty, &mut out));
        out
    };
    assert_eq!(named(TypeName::Adt(AdtId(0))), "Vec");
    assert_eq!(named(TypeName::AssociatedType(AssocTypeId(0))), "Item");
    assert_eq!(named(TypeName::OpaqueType(OpaqueTyId(0))), "Hidden");
    assert_eq!(named(TypeName::FnDef(chalk_ir::shapes::FnDefId(0))), "main");
    let mut out = String::new();
    assert!(!render_trait_id(&host, TraitId(0), &mut out));
    assert_eq!(out, "Clone");
    let opaque = host.intern_ty(TyShape::Alias(AliasTy::Opaque(OpaqueTy {
        opaque_ty_id: OpaqueTyId(0),
        substitution: vec![ty_arg(&host, 0, 0)],
    })));
    let mut out = String::new();
    assert!(!render_ty(&host, &opaque, &mut out));
    assert_eq!(out, "(Hidden<^0.0>)");
}

#[test]
fn aliases_are_written_in_brackets() {
    let host = Shared::new();
    let projection = host.intern_ty(TyShape::Alias(AliasTy::Projection(ProjectionTy {
        associated_ty_id: AssocTypeId(1),
        substitution: vec![ty_arg(&host, 0, 0), ty_arg(&host, 1, 0)],
    })));
    assert_eq!(ty_text(&host, &projection), "(AssocTypeId(#1)<^0.0, ^1.0>)");
    let opaque = host.intern_ty(TyShape::Alias(AliasTy::Opaque(OpaqueTy {
        opaque_ty_id: OpaqueTyId(2),
        substitution: Vec::new(),
    })));
    assert_eq!(ty_text(&host, &opaque), "(OpaqueTyId(#2))");
}

#[test]
fn trait_objects_and_function_pointers() {
    let host = Shared::new();
    let bound = Binders {
        binders: Vec::new(),
        value: WhereClause::Implemented(TraitRef {
            trait_id: TraitId(3),
            substitution: vec![ty_arg(&host, 1, 0)],
        }),
    };
    let object = host.intern_ty(TyShape::Dyn(DynTy {
        bounds: Binders { binders: vec![VariableKind::Ty], value: vec![bound] },
    }));
    assert_eq!(
        ty_text(&host, &object),
        "dyn for<type> [for<> Implemented(^1.0: TraitId(#3))]"
    );
    let pointer = host.intern_ty(TyShape::Function(FnSig {
        num_binders: 2,
        substitution: vec![ty_arg(&host, 0, 0), ty_arg(&host, 0, 1)],
    }));
    assert_eq!(ty_text(&host, &pointer), "for<2> [^0.0, ^0.1]");
}

#[test]
fn lists_are_written_with_commas_and_empty_lists_with_none() {
    let host = Shared::new();
    let mut out = String::new();
    assert!(render_substitution(&host, &Vec::new(), &mut out));
    assert_eq!(out, "[]");
    let mut out = String::new();
    assert!(render_substitution(&host, &vec![ty_arg(&host, 0, 0)], &mut out));
    assert_eq!(out, "[^0.0]");
    let mut out = String::new();
    assert!(render_goals(&host, &Vec::new(), &mut out));
    assert_eq!(out, "()");
    let mut out = String::new();
    assert!(render_program_clauses(&host, &Vec::new(), &mut out));
    assert_eq!(out, "[]");
    let kinds = vec![
        VariableKind::Ty,
        VariableKind::Lifetime,
        VariableKind::Const(scalar(&host, Scalar::Int(IntTy::I64))),
    ];
    let mut out = String::new();
    assert!(render_variable_kinds(&host, &kinds, &mut out));
    assert_eq!(out, "[type, lifetime, const: i64]");
    let mut out = String::new();
    assert!(render_variable_kinds_with_angles(&host, &kinds, &mut out));
    assert_eq!(out, "<type, lifetime, const: i64>");
    let mut out = String::new();
    assert!(render_variable_kinds_with_angles(&host, &Vec::new(), &mut out));
    assert_eq!(out, "<>");
    let canonical = host
        .intern_canonical_var_kinds(all_ok(vec![
            CanonicalVarKind { kind: VariableKind::Ty, universe: UniverseIndex::root() },
            CanonicalVarKind { kind: VariableKind::Lifetime, universe: UniverseIndex { counter: 1 } },
        ]))
        .unwrap();
    let mut out = String::new();
    assert!(render_canonical_var_kinds(&host, &canonical, &mut out));
    assert_eq!(out, "[U0 with type, U1 with lifetime]");
}

#[test]
fn a_trait_reference_puts_the_separator_after_self() {
    let host = Shared::new();
    let text = |args: Vec<SharedGenericArg>, separator: &str| {
        let trait_ref = TraitRef { trait_id: TraitId(1), substitution: args };
        let mut out = String::new();
        assert!(render_separator_trait_ref(&host, &trait_ref, separator, &mut out));
        out
    };
    assert_eq!(text(vec![ty_arg(&host, 0, 0)], ": "), "^0.0: TraitId(#1)");
    assert_eq!(text(vec![ty_arg(&host, 0, 0)], " as "), "^0.0 as TraitId(#1)");
    assert_eq!(
        text(vec![ty_arg(&host, 0, 0), ty_arg(&host, 0, 1), ty_arg(&host, 1, 0)], ": "),
        "^0.0: TraitId(#1)<^0.1, ^1.0>"
    );
    assert_eq!(text(Vec::new(), ": "), ": TraitId(#1)");
}

#[test]
fn every_kind_of_goal_has_its_form() {
    let host = Shared::new();
    let yes = || host.intern_goal(GoalShape::Truth(true));
    let no = || host.intern_goal(GoalShape::Truth(false));
    assert_eq!(goal_text(&host, &yes()), "True");
    assert_eq!(goal_text(&host, &no()), "CannotProve");
    assert_eq!(goal_text(&host, &host.intern_goal(GoalShape::Not(yes()))), "not { True }");
    assert_eq!(
        goal_text(&host, &host.intern_goal(GoalShape::All(vec![yes(), no(), yes()]))),
        "all(True, CannotProve, True)"
    );
    assert_eq!(goal_text(&host, &host.intern_goal(GoalShape::All(Vec::new()))), "all()");
    let exists = host.intern_goal(GoalShape::Quantified(
        QuantifierKind::Exists,
        Binders { binders: vec![VariableKind::Lifetime, VariableKind::Ty], value: yes() },
    ));
    assert_eq!(goal_text(&host, &exists), "Exists<lifetime, type> { True }");
    let well_formed_ty = host.intern_goal(GoalShape::DomainGoal(DomainGoal::WellFormed(
        WellFormed::Ty(bound_ty(&host, 0, 0)),
    )));
    assert_eq!(goal_text(&host, &well_formed_ty), "WellFormed(^0.0)");
    let well_formed_trait = host.intern_goal(GoalShape::DomainGoal(DomainGoal::WellFormed(
        WellFormed::Trait(TraitRef { trait_id: TraitId(2), substitution: vec![ty_arg(&host, 0, 0)] }),
    )));
    assert_eq!(goal_text(&host, &well_formed_trait), "WellFormed(^0.0: TraitId(#2))");
    let clause = host.intern_program_clause(ProgramClauseShape::ForAll(Binders {
        binders: vec![VariableKind::Ty],
        value: ProgramClauseImplication {
            consequence: DomainGoal::WellFormed(WellFormed::Ty(bound_ty(&host, 0, 0))),
            conditions: vec![yes(), no()],
        },
    }));
    let mut out = String::new();
    assert!(render_program_clause(&host, &clause, &mut out));
    assert_eq!(out, "for<type> WellFormed(^0.0) :- True, CannotProve");
    let implies = host.intern_goal(GoalShape::Implies(vec![clause.clone(), clause], yes()));
    assert_eq!(
        goal_text(&host, &implies),
        "if ([for<type> WellFormed(^0.0) :- True, CannotProve, \
         for<type> WellFormed(^0.0) :- True, CannotProve]) { True }"
    );
}

#[test]
fn depth_counts_binders_outward_from_the_reference() {
    let host = Shared::new();
    // forall<T> { forall<U> { T: Trait<U> } }: seen from the innermost
    // goal, `U` is bound by the nearest binder, `T` by the one beyond it.
    let inner = implemented(&host, 0, vec![ty_arg(&host, 1, 0), ty_arg(&host, 0, 0)]);
    let goal = for_all_types(&host, for_all_types(&host, inner));
    assert_eq!(
        goal_text(&host, &goal),
        "ForAll<type> { ForAll<type> { Implemented(^1.0: TraitId(#0)<^0.0>) } }"
    );
    match host.goal_data(&goal) {
        GoalShape::Quantified(QuantifierKind::ForAll, outer) => match host.goal_data(&outer.value) {
            GoalShape::Quantified(QuantifierKind::ForAll, inner) => {
                match host.goal_data(&inner.value) {
                    GoalShape::DomainGoal(DomainGoal::Holds(WhereClause::Implemented(trait_ref))) => {
                        let args = host.substitution_data(&trait_ref.substitution);
                        assert_eq!(
                            host.generic_arg_data(&args[0]),
                            &GenericArgShape::Ty(bound_ty(&host, 1, 0))
                        );
                        assert_eq!(
                            host.generic_arg_data(&args[1]),
                            &GenericArgShape::Ty(bound_ty(&host, 0, 0))
                        );
                    }
                    other => panic!("expected a trait obligation, found {:?}", other),
                }
            }
            other => panic!("expected the inner binder, found {:?}", other),
        },
        other => panic!("expected the outer binder, found {:?}", other),
    }
}

#[test]
fn without_names_the_text_is_the_same_every_time() {
    let host = Shared::new();
    let inner = implemented(&host, 4, vec![ty_arg(&host, 0, 0), ty_arg(&host, 1, 2)]);
    let goal = for_all_types(&host, inner);
    let mut first = String::new();
    let mut second = String::new();
    assert!(render_goal(&host, &goal, &mut first));
    assert!(render_goal(&host, &goal, &mut second));
    assert_eq!(first.as_bytes(), second.as_bytes());
    assert_eq!(first, "ForAll<type> { Implemented(^0.0: TraitId(#4)<^1.2>) }");
    // A term built again from the same shapes is written the same.
    let again = for_all_types(
        &host,
        implemented(&host, 4, vec![ty_arg(&host, 0, 0), ty_arg(&host, 1, 2)]),
    );
    assert_eq!(goal_text(&host, &again), first);
    // Terms that differ in one number are written differently.
    let other = for_all_types(
        &host,
        implemented(&host, 4, vec![ty_arg(&host, 0, 0), ty_arg(&host, 2, 1)]),
    );
    assert_ne!(goal_text(&host, &other), first);
}

#[test]
fn a_host_with_names_says_that_the_text_is_its_own() {
    let table = Names {
        adts: Vec::new(),
        traits: vec!["Clone".to_string()],
        assoc_types: Vec::new(),
        opaque_tys: Vec::new(),
        fn_defs: Vec::new(),
    };
    let host = Shared::with_names(&table);
    let goal = implemented(&host, 0, vec![ty_arg(&host, 0, 0)]);
    let mut out = String::new();
    assert!(!render_goal(&host, &goal, &mut out));
    assert_eq!(out, "Implemented(^0.0: Clone)");
    // Where no name is used, the text is the plain one.
    let unnamed = implemented(&host, 1, vec![ty_arg(&host, 0, 0)]);
    let mut out = String::new();
    assert!(render_goal(&host, &unnamed, &mut out));
    assert_eq!(out, "Implemented(^0.0: TraitId(#1))");
}

#[test]
fn rendering_keeps_what_the_sink_held() {
    let host = Shared::new();
    let goal = for_all_types(&host, host.intern_goal(GoalShape::Truth(true)));
    let mut out = String::from("goal: ");
    assert!(render_goal(&host, &goal, &mut out));
    assert_eq!(out, "goal: ForAll<type> { True }");
    assert!(render_goal(&host, &goal, &mut out));
    assert_eq!(out, "goal: ForAll<type> { True }ForAll<type> { True }");
}
