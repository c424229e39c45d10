//! The terms that small programs stand for, built by hand and put through
//! the host: each must come back as it went in, and be written as expected.

use chalk_ir::interner::Interner;
use chalk_ir::render::render_goal;
use chalk_ir::render::render_program_clause;
use chalk_ir::render::render_quantified_where_clauses;
use chalk_ir::render::render_ty;
use chalk_ir::shapes::AdtId;
use chalk_ir::shapes::AliasEq;
use chalk_ir::shapes::AliasTy;
use chalk_ir::shapes::ApplicationTy;
use chalk_ir::shapes::AssocTypeId;
use chalk_ir::shapes::Binders;
use chalk_ir::shapes::DomainGoal;
use chalk_ir::shapes::FnDefId;
use chalk_ir::shapes::FnSig;
use chalk_ir::shapes::GenericArgShape;
use chalk_ir::shapes::GoalShape;
use chalk_ir::shapes::LifetimeData;
use chalk_ir::shapes::ProgramClauseImplication;
use chalk_ir::shapes::ProgramClauseShape;
use chalk_ir::shapes::ProjectionTy;
use chalk_ir::shapes::TraitId;
use chalk_ir::shapes::TraitRef;
use chalk_ir::shapes::TyShape;
use chalk_ir::shapes::TypeName;
use chalk_ir::shapes::VariableKind;
use chalk_ir::shapes::WhereClause;
use chalk_ir::shared::Names;
use chalk_ir::shared::Shared;
use chalk_ir::shared::SharedGenericArg;
use chalk_ir::shared::SharedGoal;
use chalk_ir::shared::SharedGoals;
use chalk_ir::shared::SharedProgramClause;
use chalk_ir::shared::SharedQuantifiedWhereClause;
use chalk_ir::shared::SharedQuantifiedWhereClauses;
use chalk_ir::shared::SharedSubstitution;
use chalk_ir::shared::SharedTy;
use chalk_ir::shared::SharedVariableKinds;
use chalk_ir::shared::SharedWhereClause;
use chalk_ir::var::BoundVar;
use chalk_ir::var::DebruijnIndex;
use chalk_ir::var::FloatTy;
use chalk_ir::var::IntTy;
use chalk_ir::var::Mutability;
use chalk_ir::var::QuantifierKind;
use chalk_ir::var::Scalar;
use chalk_ir::var::UintTy;

fn names(adts: &[&str], traits: &[&str], assoc_types: &[&str], fn_defs: &[&str]) -> Names {
    let owned = |list: &[&str]| list.iter().map(|name| name.to_string()).collect::<Vec<String>>();
    Names {
        adts: owned(adts),
        traits: owned(traits),
        assoc_types: owned(assoc_types),
        opaque_tys: Vec::new(),
        fn_defs: owned(fn_defs),
    }
}

fn all_ok<T>(items: Vec<T>) -> impl Iterator<Item = Result<T, String>> {
    items.into_iter().map(Ok)
}

fn substitution(host: &Shared, args: Vec<SharedGenericArg>) -> SharedSubstitution {
    host.intern_substitution(all_ok(args)).unwrap()
}

fn kinds(host: &Shared, kinds: Vec<VariableKind<SharedTy>>) -> SharedVariableKinds {
    host.intern_generic_arg_kinds(all_ok(kinds)).unwrap()
}

fn goals(host: &Shared, goals: Vec<SharedGoal>) -> SharedGoals {
    host.intern_goals(all_ok(goals)).unwrap()
}

fn bound_var(depth: u32, index: usize) -> BoundVar {
    BoundVar::new(DebruijnIndex::new(depth), index)
}

fn bound_ty(host: &Shared, depth: u32, index: usize) -> SharedTy {
    host.intern_ty(TyShape::BoundVar(bound_var(depth, index)))
}

fn ty_arg(host: &Shared, ty: SharedTy) -> SharedGenericArg {
    host.intern_generic_arg(GenericArgShape::Ty(ty))
}

fn lifetime_arg(host: &Shared, depth: u32, index: usize) -> SharedGenericArg {
    let lifetime = host.intern_lifetime(LifetimeData::BoundVar(bound_var(depth, index)));
    host.intern_generic_arg(GenericArgShape::Lifetime(lifetime))
}

fn apply(host: &Shared, name: TypeName<u32, u32>, args: Vec<SharedGenericArg>) -> SharedTy {
    host.intern_ty(TyShape::Apply(ApplicationTy { name, substitution: substitution(host, args) }))
}

fn adt(host: &Shared, id: u32, args: Vec<SharedGenericArg>) -> SharedTy {
    apply(host, TypeName::Adt(AdtId(id)), args)
}

fn scalar(host: &Shared, scalar: Scalar) -> SharedTy {
    apply(host, TypeName::Scalar(scalar), Vec::new())
}

fn projection(host: &Shared, assoc_type: u32, args: Vec<SharedGenericArg>) -> AliasTy<u32, SharedSubstitution> {
    AliasTy::Projection(ProjectionTy {
        associated_ty_id: AssocTypeId(assoc_type),
        substitution: substitution(host, args),
    })
}

fn implemented(host: &Shared, trait_id: u32, args: Vec<SharedGenericArg>) -> SharedWhereClause {
    WhereClause::Implemented(TraitRef {
        trait_id: TraitId(trait_id),
        substitution: substitution(host, args),
    })
}

fn holds(host: &Shared, clause: SharedWhereClause) -> SharedGoal {
    host.intern_goal(GoalShape::DomainGoal(DomainGoal::Holds(clause)))
}

fn quantified(
    host: &Shared,
    kind: QuantifierKind,
    binders: Vec<VariableKind<SharedTy>>,
    goal: SharedGoal,
) -> SharedGoal {
    host.intern_goal(GoalShape::Quantified(
        kind,
        Binders { binders: kinds(host, binders), value: goal },
    ))
}

/// The clause of an impl: the consequence holds for all values of the
/// impl's parameters, given the conditions.
fn impl_clause(
    host: &Shared,
    binders: Vec<VariableKind<SharedTy>>,
    consequence: SharedWhereClause,
    conditions: Vec<SharedWhereClause>,
) -> SharedProgramClause {
    let conditions = conditions.into_iter().map(|clause| holds(host, clause)).collect();
    let implication = ProgramClauseImplication {
        consequence: DomainGoal::Holds(consequence),
        conditions: goals(host, conditions),
    };
    if binders.is_empty() {
        host.intern_program_clause(ProgramClauseShape::Implies(implication))
    } else {
        host.intern_program_clause(ProgramClauseShape::ForAll(Binders {
            binders: kinds(host, binders),
            value: implication,
        }))
    }
}

fn bounds(host: &Shared, bounds: Vec<SharedQuantifiedWhereClause>) -> SharedQuantifiedWhereClauses {
    host.intern_quantified_where_clauses(all_ok(bounds)).unwrap()
}

fn ty_text(host: &Shared, ty: &SharedTy) -> String {
    let mut out = String::new();
    render_ty(host, ty, &mut out);
    out
}

fn goal_text(host: &Shared, goal: &SharedGoal) -> String {
    let mut out = String::new();
    render_goal(host, goal, &mut out);
    out
}

fn clause_text(host: &Shared, clause: &SharedProgramClause) -> String {
    let mut out = String::new();
    render_program_clause(host, clause, &mut out);
    out
}

fn bounds_text(host: &Shared, bounds: &SharedQuantifiedWhereClauses) -> String {
    let mut out = String::new();
    render_quantified_where_clauses(host, bounds, &mut out);
    out
}

/// The clause comes back from the host as it went in.
fn assert_clause_kept(host: &Shared, clause: &SharedProgramClause) {
    let again = host.intern_program_clause(host.program_clause_data(clause).clone());
    assert_eq!(&again, clause);
}

// struct Foo { field: Foo }
// trait Bar { }
// impl Bar for Foo { }
#[test]
fn lower_success() {
    let table = names(&["Foo"], &["Foo", "Bar"], &[], &[]);
    let host = Shared::with_names(&table);
    // The field names its own struct by identifier: the type holds no copy
    // of itself.
    let field = adt(&host, 0, Vec::new());
    assert_eq!(
        host.ty_data(&field),
        &TyShape::Apply(ApplicationTy {
            name: TypeName::Adt(AdtId(0)),
            substitution: Vec::new(),
        })
    );
    assert_eq!(ty_text(&host, &field), "Foo");
    let foo = ty_arg(&host, adt(&host, 0, Vec::new()));
    let clause = impl_clause(&host, Vec::new(), implemented(&host, 1, vec![foo]), Vec::new());
    assert_clause_kept(&host, &clause);
    assert_eq!(clause_text(&host, &clause), "Implemented(Foo: Bar)");
    assert_eq!(
        clause_text(&Shared::new(), &clause),
        "Implemented(AdtId(#0): TraitId(#1))"
    );
}

// #[auto] trait Send { }
#[test]
fn auto_trait() {
    let table = names(&[], &["Send"], &[], &[]);
    let host = Shared::with_names(&table);
    // An auto trait has `Self` and nothing else: no parameter, no where
    // clause, no associated type.
    let holds_for_self = implemented(&host, 0, vec![ty_arg(&host, bound_ty(&host, 0, 0))]);
    let declared = kinds(&host, vec![VariableKind::Ty]);
    assert_eq!(host.variable_kinds_data(&declared).len(), 1);
    let goal = quantified(
        &host,
        QuantifierKind::ForAll,
        vec![VariableKind::Ty],
        holds(&host, holds_for_self),
    );
    assert_eq!(goal_text(&host, &goal), "ForAll<type> { Implemented(^0.0: Send) }");
}

// trait Foo { }
// trait Iterator { type Item; }
// impl<T> !Foo for T where T: Iterator<Item = i32> { }
#[test]
fn negative_impl() {
    let table = names(&[], &["Foo", "Iterator"], &["Item"], &[]);
    let host = Shared::with_names(&table);
    let t = || ty_arg(&host, bound_ty(&host, 0, 0));
    let is_iterator = holds(&host, implemented(&host, 1, vec![t()]));
    let item_is_i32 = holds(
        &host,
        WhereClause::AliasEq(AliasEq {
            alias: projection(&host, 0, vec![t()]),
            ty: scalar(&host, Scalar::Int(IntTy::I32)),
        }),
    );
    let not_foo = host.intern_goal(GoalShape::Not(holds(&host, implemented(&host, 0, vec![t()]))));
    let conditions = host.intern_goal(GoalShape::All(goals(&host, vec![is_iterator, item_is_i32])));
    assert_eq!(goal_text(&host, &not_foo), "not { Implemented(^0.0: Foo) }");
    assert_eq!(
        goal_text(&host, &conditions),
        "all(Implemented(^0.0: Iterator), AliasEq((Item<^0.0>) = i32))"
    );
}

// struct Foo { }
// trait Bar { }
// impl<X> Bar for X { }
#[test]
fn type_parameter() {
    let table = names(&["Foo"], &["Foo", "Bar"], &[], &[]);
    let host = Shared::with_names(&table);
    let x = ty_arg(&host, bound_ty(&host, 0, 0));
    let clause = impl_clause(
        &host,
        vec![VariableKind::Ty],
        implemented(&host, 1, vec![x]),
        Vec::new(),
    );
    assert_clause_kept(&host, &clause);
    assert_eq!(clause_text(&host, &clause), "for<type> Implemented(^0.0: Bar)");
}

// struct Foo { }
// trait Bar { }
// trait Eq { }
// impl<X> Bar for X where X: Eq { }
#[test]
fn type_parameter_bound() {
    let table = names(&["Foo"], &["Foo", "Bar", "Eq"], &[], &[]);
    let host = Shared::with_names(&table);
    let x = || ty_arg(&host, bound_ty(&host, 0, 0));
    let clause = impl_clause(
        &host,
        vec![VariableKind::Ty],
        implemented(&host, 1, vec![x()]),
        vec![implemented(&host, 2, vec![x()])],
    );
    assert_clause_kept(&host, &clause);
    assert_eq!(
        clause_text(&host, &clause),
        "for<type> Implemented(^0.0: Bar) :- Implemented(^0.0: Eq)"
    );
}

// struct String { }
// struct Char { }
// trait Iterator { type Item; }
// impl Iterator for String { type Item = Char; }
// trait Foo { }
// impl<X> Foo for <X as Iterator>::Item where X: Iterator { }
#[test]
fn assoc_tys() {
    let table = names(&["String", "Char"], &["Iterator", "Foo"], &["Item"], &[]);
    let host = Shared::with_names(&table);
    let string = ty_arg(&host, adt(&host, 0, Vec::new()));
    let item_of_string = impl_clause(
        &host,
        Vec::new(),
        WhereClause::AliasEq(AliasEq {
            alias: projection(&host, 0, vec![string]),
            ty: adt(&host, 1, Vec::new()),
        }),
        Vec::new(),
    );
    assert_clause_kept(&host, &item_of_string);
    assert_eq!(clause_text(&host, &item_of_string), "AliasEq((Item<String>) = Char)");
    let x = || ty_arg(&host, bound_ty(&host, 0, 0));
    let item_of_x = host.intern_ty(TyShape::Alias(projection(&host, 0, vec![x()])));
    let foo_for_item = impl_clause(
        &host,
        vec![VariableKind::Ty],
        implemented(&host, 1, vec![ty_arg(&host, item_of_x)]),
        vec![implemented(&host, 0, vec![x()])],
    );
    assert_clause_kept(&host, &foo_for_item);
    assert_eq!(
        clause_text(&host, &foo_for_item),
        "for<type> Implemented((Item<^0.0>): Foo) :- Implemented(^0.0: Iterator)"
    );
}

/// What a consumer finds when it holds an argument list against the
/// parameter kinds that a declaration asks for. The host only hands out
/// both lists; the comparison is the consumer's.
fn kind_mismatch(
    host: &Shared,
    what: &str,
    declared: &SharedVariableKinds,
    given: &SharedSubstitution,
) -> Option<String> {
    let kind_name = |kind: &VariableKind<SharedTy>| match kind {
        VariableKind::Ty => "type",
        VariableKind::Lifetime => "lifetime",
        VariableKind::Const(_) => "const",
    };
    let arg_name = |arg: &SharedGenericArg| match host.generic_arg_data(arg) {
        GenericArgShape::Ty(_) => "type",
        GenericArgShape::Lifetime(_) => "lifetime",
        GenericArgShape::Const(_) => "const",
    };
    let declared = host.variable_kinds_data(declared);
    let given = host.substitution_data(given);
    declared.iter().zip(given.iter()).find_map(|(kind, arg)| {
        if kind_name(kind) == arg_name(arg) {
            None
        } else {
            Some(format!(
                "incorrect parameter kind for {}: expected {}, found {}",
                what,
                kind_name(kind),
                arg_name(arg)
            ))
        }
    })
}

// struct Foo<'a> { } used as Foo<Myi32>, struct Foo<T> { } used as Foo<'a>,
// trait Into<T> used as Into<'a>, trait IntoTime<'a> used as IntoTime<T>.
#[test]
fn check_variable_kinds() {
    let host = Shared::new();
    let a_type = || substitution(&host, vec![ty_arg(&host, adt(&host, 1, Vec::new()))]);
    let a_lifetime = || substitution(&host, vec![lifetime_arg(&host, 0, 0)]);
    let wants_lifetime = kinds(&host, vec![VariableKind::Lifetime]);
    let wants_type = kinds(&host, vec![VariableKind::Ty]);
    assert_eq!(
        kind_mismatch(&host, "`Foo`", &wants_lifetime, &a_type()).unwrap(),
        "incorrect parameter kind for `Foo`: expected lifetime, found type"
    );
    assert_eq!(
        kind_mismatch(&host, "`Foo`", &wants_type, &a_lifetime()).unwrap(),
        "incorrect parameter kind for `Foo`: expected type, found lifetime"
    );
    assert_eq!(
        kind_mismatch(&host, "trait `Into`", &wants_type, &a_lifetime()).unwrap(),
        "incorrect parameter kind for trait `Into`: expected type, found lifetime"
    );
    assert_eq!(
        kind_mismatch(&host, "trait `IntoTime`", &wants_lifetime, &a_type()).unwrap(),
        "incorrect parameter kind for trait `IntoTime`: expected lifetime, found type"
    );
    assert_eq!(kind_mismatch(&host, "`Foo`", &wants_type, &a_type()), None);
    assert_eq!(kind_mismatch(&host, "`Foo`", &wants_lifetime, &a_lifetime()), None);
}

// trait Foo { type Item<'a, T>: Sized + Clone where Self: Sized; }
#[test]
fn gat_parse() {
    let table = names(&[], &["Sized", "Clone", "Foo"], &["Item"], &[]);
    let host = Shared::with_names(&table);
    // Under the binder of the associated type, `'a` is ^0.0 and `T` is
    // ^0.1; `Self` belongs to the trait, one binder further out.
    let declared = kinds(&host, vec![VariableKind::Lifetime, VariableKind::Ty]);
    assert_eq!(
        host.variable_kinds_data(&declared),
        &[VariableKind::Lifetime, VariableKind::Ty]
    );
    let item = || {
        let args = vec![
            lifetime_arg(&host, 0, 0),
            ty_arg(&host, bound_ty(&host, 0, 1)),
            ty_arg(&host, bound_ty(&host, 1, 0)),
        ];
        ty_arg(&host, host.intern_ty(TyShape::Alias(projection(&host, 0, args))))
    };
    let bound = |trait_id: u32| Binders {
        binders: kinds(&host, Vec::new()),
        value: implemented(&host, trait_id, vec![item()]),
    };
    let item_bounds = bounds(&host, vec![bound(0), bound(1)]);
    assert_eq!(host.quantified_where_clauses_data(&item_bounds).len(), 2);
    assert_eq!(
        bounds_text(&host, &item_bounds),
        "[for<> Implemented((Item<'^0.0, ^0.1, ^1.0>): Sized), \
         for<> Implemented((Item<'^0.0, ^0.1, ^1.0>): Clone)]"
    );
}

// trait Fn<T> {}
// struct Ref<'a, T> {}
// trait Sized {}
// trait Foo { type Item<T>: forall<'a> Fn<Ref<'a, T>> + Sized; }
#[test]
fn gat_higher_ranked_bound() {
    let table = names(&["Ref"], &["Fn", "Sized", "Foo"], &["Item"], &[]);
    let host = Shared::with_names(&table);
    // Inside `forall<'a>`, `'a` is ^0.0 and `T`, one binder out, is ^1.0.
    let reference = adt(
        &host,
        0,
        vec![lifetime_arg(&host, 0, 0), ty_arg(&host, bound_ty(&host, 1, 0))],
    );
    let item = |depth: u32| {
        let args = vec![ty_arg(&host, bound_ty(&host, depth, 0))];
        ty_arg(&host, host.intern_ty(TyShape::Alias(projection(&host, 0, args))))
    };
    let higher_ranked = Binders {
        binders: kinds(&host, vec![VariableKind::Lifetime]),
        value: implemented(&host, 0, vec![item(1), ty_arg(&host, reference)]),
    };
    let sized = Binders {
        binders: kinds(&host, Vec::new()),
        value: implemented(&host, 1, vec![item(0)]),
    };
    let item_bounds = bounds(&host, vec![higher_ranked, sized]);
    assert_eq!(
        bounds_text(&host, &item_bounds),
        "[for<lifetime> Implemented((Item<^1.0>): Fn<Ref<'^0.0, ^1.0>>), \
         for<> Implemented((Item<^0.0>): Sized)]"
    );
}

// #[upstream] trait Send { }
// #[upstream] struct Vec<T> { }
#[test]
fn upstream_items() {
    let table = names(&["Vec"], &["Send"], &[], &[]);
    let host = Shared::with_names(&table);
    let vec_of_t = adt(&host, 0, vec![ty_arg(&host, bound_ty(&host, 0, 0))]);
    assert_eq!(ty_text(&host, &vec_of_t), "Vec<^0.0>");
    assert_eq!(ty_text(&Shared::new(), &vec_of_t), "AdtId(#0)<^0.0>");
    let send = holds(&host, implemented(&host, 0, vec![ty_arg(&host, vec_of_t)]));
    assert_eq!(goal_text(&host, &send), "Implemented(Vec<^0.0>: Send)");
}

// impl Foo for () { }
// impl Foo for (i32,) { }
// impl Foo for (i32) { }
// impl Foo for (i32, u32) { }
// impl Foo for (i32, u32, f32) { }
#[test]
fn tuples() {
    let table = names(&[], &["Foo"], &[], &[]);
    let host = Shared::with_names(&table);
    let i32_ty = || ty_arg(&host, scalar(&host, Scalar::Int(IntTy::I32)));
    let u32_ty = || ty_arg(&host, scalar(&host, Scalar::Uint(UintTy::U32)));
    let f32_ty = || ty_arg(&host, scalar(&host, Scalar::Float(FloatTy::F32)));
    let tuple = |args: Vec<SharedGenericArg>| apply(&host, TypeName::Tuple(args.len()), args);
    let foo_for = |ty: SharedTy| {
        let clause =
            impl_clause(&host, Vec::new(), implemented(&host, 0, vec![ty_arg(&host, ty)]), Vec::new());
        assert_clause_kept(&host, &clause);
        clause_text(&host, &clause)
    };
    assert_eq!(foo_for(tuple(Vec::new())), "Implemented(Tuple(0): Foo)");
    assert_eq!(foo_for(tuple(vec![i32_ty()])), "Implemented(Tuple(1)<i32>: Foo)");
    // `(i32)` is no tuple: it is `i32` in brackets.
    assert_eq!(foo_for(scalar(&host, Scalar::Int(IntTy::I32))), "Implemented(i32: Foo)");
    assert_eq!(foo_for(tuple(vec![i32_ty(), u32_ty()])), "Implemented(Tuple(2)<i32, u32>: Foo)");
    assert_eq!(
        foo_for(tuple(vec![i32_ty(), u32_ty(), f32_ty()])),
        "Implemented(Tuple(3)<i32, u32, f32>: Foo)"
    );
}

// impl Foo for i8 { } and so on for each scalar type
#[test]
fn scalars() {
    let table = names(&[], &["Foo"], &[], &[]);
    let host = Shared::with_names(&table);
    let all = [
        (Scalar::Int(IntTy::I8), "i8"),
        (Scalar::Int(IntTy::I16), "i16"),
        (Scalar::Int(IntTy::I32), "i32"),
        (Scalar::Int(IntTy::I64), "i64"),
        (Scalar::Int(IntTy::I128), "i128"),
        (Scalar::Int(IntTy::Isize), "isize"),
        (Scalar::Uint(UintTy::U8), "u8"),
        (Scalar::Uint(UintTy::U16), "u16"),
        (Scalar::Uint(UintTy::U32), "u32"),
        (Scalar::Uint(UintTy::U64), "u64"),
        (Scalar::Uint(UintTy::U128), "u128"),
        (Scalar::Uint(UintTy::Usize), "usize"),
        (Scalar::Float(FloatTy::F32), "f32"),
        (Scalar::Float(FloatTy::F64), "f64"),
        (Scalar::Bool, "bool"),
        (Scalar::Char, "char"),
    ];
    for (which, name) in all {
        let ty = scalar(&host, which);
        assert_eq!(
            host.ty_data(&ty),
            &TyShape::Apply(ApplicationTy {
                name: TypeName::Scalar(which),
                substitution: Vec::new(),
            })
        );
        let clause =
            impl_clause(&host, Vec::new(), implemented(&host, 0, vec![ty_arg(&host, ty)]), Vec::new());
        assert_clause_kept(&host, &clause);
        assert_eq!(clause_text(&host, &clause), format!("Implemented({}: Foo)", name));
    }
}

// trait Quux { }
// struct Foo<T> { a: *const T }
// struct Bar<T> { a: *mut T }
// impl<T> Quux for Foo<*mut T> { }
// impl<T> Quux for Bar<*const T> { }
#[test]
fn raw_pointers() {
    let table = names(&["Foo", "Bar"], &["Quux"], &[], &[]);
    let host = Shared::with_names(&table);
    let raw = |mutability: Mutability| {
        apply(&host, TypeName::Raw(mutability), vec![ty_arg(&host, bound_ty(&host, 0, 0))])
    };
    assert_eq!(ty_text(&host, &raw(Mutability::Not)), "*const<^0.0>");
    assert_eq!(ty_text(&host, &raw(Mutability::Mut)), "*mut<^0.0>");
    let quux_for = |id: u32, mutability: Mutability| {
        let pointee = ty_arg(&host, raw(mutability));
        let clause = impl_clause(
            &host,
            vec![VariableKind::Ty],
            implemented(&host, 0, vec![ty_arg(&host, adt(&host, id, vec![pointee]))]),
            Vec::new(),
        );
        assert_clause_kept(&host, &clause);
        clause_text(&host, &clause)
    };
    assert_eq!(quux_for(0, Mutability::Mut), "for<type> Implemented(Foo<*mut<^0.0>>: Quux)");
    assert_eq!(quux_for(1, Mutability::Not), "for<type> Implemented(Bar<*const<^0.0>>: Quux)");
}

// trait Foo { }
// impl<'a, T> Foo for &'a T { }
// impl<'b, T> Foo for &'b mut T { }
#[test]
fn refs() {
    let table = names(&[], &["Foo"], &[], &[]);
    let host = Shared::with_names(&table);
    let foo_for_ref = |mutability: Mutability| {
        let reference = apply(
            &host,
            TypeName::Ref(mutability),
            vec![lifetime_arg(&host, 0, 0), ty_arg(&host, bound_ty(&host, 0, 1))],
        );
        let clause = impl_clause(
            &host,
            vec![VariableKind::Lifetime, VariableKind::Ty],
            implemented(&host, 0, vec![ty_arg(&host, reference)]),
            Vec::new(),
        );
        assert_clause_kept(&host, &clause);
        clause_text(&host, &clause)
    };
    assert_eq!(
        foo_for_ref(Mutability::Not),
        "for<lifetime, type> Implemented(&<'^0.0, ^0.1>: Foo)"
    );
    assert_eq!(
        foo_for_ref(Mutability::Mut),
        "for<lifetime, type> Implemented(&mut<'^0.0, ^0.1>: Foo)"
    );
}

// trait Foo { }
// impl Foo for [i32] { }
// impl<T> Foo for [T] { }
// impl Foo for [[i32]] { }
// impl Foo for [()] { }
#[test]
fn slices() {
    let host = Shared::new();
    let slice_of = |ty: SharedTy| apply(&host, TypeName::Slice, vec![ty_arg(&host, ty)]);
    let i32_ty = || scalar(&host, Scalar::Int(IntTy::I32));
    let unit = apply(&host, TypeName::Tuple(0), Vec::new());
    assert_eq!(ty_text(&host, &slice_of(i32_ty())), "Slice<i32>");
    assert_eq!(ty_text(&host, &slice_of(bound_ty(&host, 0, 0))), "Slice<^0.0>");
    assert_eq!(ty_text(&host, &slice_of(slice_of(i32_ty()))), "Slice<Slice<i32>>");
    assert_eq!(ty_text(&host, &slice_of(unit)), "Slice<Tuple(0)>");
    let nested = slice_of(slice_of(i32_ty()));
    match host.ty_data(&nested) {
        TyShape::Apply(outer) => {
            assert_eq!(outer.name, TypeName::Slice);
            assert_eq!(host.substitution_data(&outer.substitution).len(), 1);
        }
        other => panic!("a slice is an application, not {:?}", other),
    }
}

// trait Quux { }
// fn foo<'a, T>(bar: T, baz: &'a mut T) -> u32 where T: Quux;
#[test]
fn fn_defs() {
    let table = names(&[], &["Quux"], &[], &["foo"]);
    let host = Shared::with_names(&table);
    let t = || ty_arg(&host, bound_ty(&host, 0, 1));
    let foo = apply(&host, TypeName::FnDef(FnDefId(0)), vec![lifetime_arg(&host, 0, 0), t()]);
    assert_eq!(ty_text(&host, &foo), "foo<'^0.0, ^0.1>");
    assert_eq!(ty_text(&Shared::new(), &foo), "FnDefId(#0)<'^0.0, ^0.1>");
    let baz = apply(&host, TypeName::Ref(Mutability::Mut), vec![lifetime_arg(&host, 0, 0), t()]);
    let u32_ty = scalar(&host, Scalar::Uint(UintTy::U32));
    let signature = host.intern_ty(TyShape::Function(FnSig {
        num_binders: 0,
        substitution: substitution(&host, vec![t(), ty_arg(&host, baz), ty_arg(&host, u32_ty)]),
    }));
    assert_eq!(ty_text(&host, &signature), "for<0> [^0.1, &mut<'^0.0, ^0.1>, u32]");
    let where_clause = holds(&host, implemented(&host, 0, vec![t()]));
    assert_eq!(goal_text(&host, &where_clause), "Implemented(^0.1: Quux)");
}

// trait Foo<A, B> { }
// forall<X> {exists<Y> {forall<Z> {Z: Foo<Y, X>}}}
#[test]
fn goal_quantifiers() {
    let table = names(&[], &["Foo"], &[], &[]);
    let host = Shared::with_names(&table);
    let z = ty_arg(&host, bound_ty(&host, 0, 0));
    let y = ty_arg(&host, bound_ty(&host, 1, 0));
    let x = ty_arg(&host, bound_ty(&host, 2, 0));
    let innermost = holds(&host, implemented(&host, 0, vec![z, y, x]));
    let for_z = quantified(&host, QuantifierKind::ForAll, vec![VariableKind::Ty], innermost);
    let for_y = quantified(&host, QuantifierKind::Exists, vec![VariableKind::Ty], for_z);
    let goal = quantified(&host, QuantifierKind::ForAll, vec![VariableKind::Ty], for_y);
    assert_eq!(
        goal_text(&host, &goal),
        "ForAll<type> { Exists<type> { ForAll<type> { Implemented(^0.0: Foo<^1.0, ^2.0>) } } }"
    );
}
