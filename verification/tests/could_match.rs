use chalk_ir::could_match::CouldMatch;
use chalk_ir::interner::{ChalkIr, RawId};
use chalk_solve::goal::{
    DomainGoal, FromEnv, Normalize, ProgramClause, ProjectionEq, TraitRef, UnselectedNormalize,
    WellFormed, WhereClause,
};
use chalk_solve::ir::{
    ApplicationTy, Identifier, Lifetime, Parameter, ParameterKind, PlaceholderIndex, ProjectionTy,
    QuantifiedTy, StructId, TraitId, Ty, TypeId, TypeKindId, TypeName, UnselectedProjectionTy,
};

const FOO: TraitId = TraitId(1);
const BAR: TraitId = TraitId(2);
const I32: StructId = StructId(10);
const U32: StructId = StructId(11);
const VEC: StructId = StructId(12);
const REF: StructId = StructId(13);
const ITEM: TypeId = TypeId(20);
const OUTPUT: TypeId = TypeId(21);

fn applied(name: TypeName, parameters: Vec<Parameter>) -> Ty {
    Ty::Apply(ApplicationTy { name, parameters })
}

fn struct_ty(struct_id: StructId, parameters: Vec<Ty>) -> Ty {
    applied(
        TypeName::TypeKindId(TypeKindId::StructId(struct_id)),
        parameters.into_iter().map(Parameter::Ty).collect(),
    )
}

fn reference(lifetime: Lifetime, ty: Ty) -> Ty {
    applied(
        TypeName::TypeKindId(TypeKindId::StructId(REF)),
        vec![Parameter::Lifetime(lifetime), Parameter::Ty(ty)],
    )
}

fn placeholder(ui: usize, idx: usize) -> Ty {
    applied(TypeName::Placeholder(PlaceholderIndex { ui, idx }), vec![])
}

fn projection(associated_ty_id: TypeId, self_ty: Ty) -> ProjectionTy {
    ProjectionTy { associated_ty_id, parameters: vec![Parameter::Ty(self_ty)] }
}

fn trait_ref(trait_id: TraitId, parameters: Vec<Ty>) -> TraitRef {
    TraitRef { trait_id, parameters: parameters.into_iter().map(Parameter::Ty).collect() }
}

fn implemented(trait_id: TraitId, self_ty: Ty) -> DomainGoal {
    DomainGoal::Holds(WhereClause::Implemented(trait_ref(trait_id, vec![self_ty])))
}

fn i32_ty() -> Ty {
    struct_ty(I32, vec![])
}

fn u32_ty() -> Ty {
    struct_ty(U32, vec![])
}

#[test]
fn types_with_different_names_cannot_match() {
    assert!(!i32_ty().could_match(&u32_ty()));
    assert!(i32_ty().could_match(&i32_ty()));
    assert!(!implemented(FOO, i32_ty()).could_match(&implemented(FOO, u32_ty())));
    assert!(implemented(FOO, u32_ty()).could_match(&implemented(FOO, u32_ty())));
}

#[test]
fn parameters_are_compared_one_by_one() {
    let vec_of = |ty: Ty| struct_ty(VEC, vec![ty]);
    assert!(vec_of(i32_ty()).could_match(&vec_of(i32_ty())));
    assert!(!vec_of(i32_ty()).could_match(&vec_of(u32_ty())));
    assert!(!vec_of(vec_of(i32_ty())).could_match(&vec_of(vec_of(u32_ty()))));
    assert!(vec_of(vec_of(Ty::BoundVar(0))).could_match(&vec_of(vec_of(u32_ty()))));
    assert!(!vec_of(i32_ty()).could_match(&i32_ty()));
}

#[test]
fn applied_types_are_compared_as_far_as_both_go() {
    let one = struct_ty(VEC, vec![i32_ty()]);
    let two = struct_ty(VEC, vec![i32_ty(), u32_ty()]);
    let other = struct_ty(VEC, vec![u32_ty(), u32_ty()]);
    assert!(one.could_match(&two));
    assert!(two.could_match(&one));
    assert!(!one.could_match(&other));
    assert!(struct_ty(VEC, vec![]).could_match(&other));
}

#[test]
fn a_variable_could_match_anything() {
    let others = vec![
        i32_ty(),
        struct_ty(VEC, vec![u32_ty()]),
        placeholder(0, 0),
        Ty::BoundVar(3),
        Ty::InferenceVar(3),
        Ty::Projection(projection(ITEM, i32_ty())),
    ];
    for other in &others {
        assert!(Ty::BoundVar(0).could_match(other));
        assert!(other.could_match(&Ty::BoundVar(0)));
        assert!(Ty::InferenceVar(0).could_match(other));
        assert!(other.could_match(&Ty::InferenceVar(0)));
    }
}

#[test]
fn types_that_are_no_applications_always_could_match() {
    let loose = vec![
        Ty::Projection(projection(ITEM, i32_ty())),
        Ty::Projection(projection(OUTPUT, u32_ty())),
        Ty::UnselectedProjection(UnselectedProjectionTy {
            assoc_name: Identifier(1),
            parameters: vec![Parameter::Ty(i32_ty())],
        }),
        Ty::ForAll(Box::new(QuantifiedTy { num_binders: 1, ty: i32_ty() })),
        Ty::ForAll(Box::new(QuantifiedTy { num_binders: 2, ty: u32_ty() })),
    ];
    for a in &loose {
        for b in &loose {
            assert!(a.could_match(b));
        }
        assert!(a.could_match(&i32_ty()));
        assert!(i32_ty().could_match(a));
    }
}

#[test]
fn placeholders_are_names() {
    assert!(placeholder(1, 0).could_match(&placeholder(1, 0)));
    assert!(!placeholder(1, 0).could_match(&placeholder(1, 1)));
    assert!(!placeholder(1, 0).could_match(&placeholder(2, 0)));
    assert!(!placeholder(1, 0).could_match(&i32_ty()));
    let associated = applied(TypeName::AssociatedType(ITEM), vec![]);
    let kind = applied(TypeName::TypeKindId(TypeKindId::TypeId(ITEM)), vec![]);
    assert!(associated.could_match(&associated));
    assert!(!associated.could_match(&kind));
}

#[test]
fn lifetimes_always_could_match_and_never_match_a_type() {
    let a = reference(Lifetime::BoundVar(0), i32_ty());
    let b = reference(Lifetime::Placeholder(PlaceholderIndex { ui: 1, idx: 0 }), i32_ty());
    let c = reference(Lifetime::InferenceVar(2), u32_ty());
    assert!(a.could_match(&b));
    assert!(!a.could_match(&c));
    assert!(Parameter::Lifetime(Lifetime::BoundVar(0)).could_match(&Parameter::Lifetime(Lifetime::InferenceVar(1))));
    assert!(!Parameter::Lifetime(Lifetime::BoundVar(0)).could_match(&Parameter::Ty(Ty::BoundVar(0))));
    assert!(!Parameter::Ty(Ty::BoundVar(0)).could_match(&Parameter::Lifetime(Lifetime::BoundVar(0))));
}

#[test]
fn trait_references_need_the_same_trait_and_as_many_parameters() {
    let a = trait_ref(FOO, vec![i32_ty(), Ty::BoundVar(0)]);
    assert!(a.could_match(&trait_ref(FOO, vec![Ty::InferenceVar(0), u32_ty()])));
    assert!(!a.could_match(&trait_ref(BAR, vec![i32_ty(), Ty::BoundVar(0)])));
    assert!(!a.could_match(&trait_ref(FOO, vec![i32_ty()])));
    assert!(!a.could_match(&trait_ref(FOO, vec![u32_ty(), Ty::BoundVar(0)])));
}

#[test]
fn projections_need_the_same_associated_type() {
    assert!(projection(ITEM, i32_ty()).could_match(&projection(ITEM, Ty::BoundVar(0))));
    assert!(!projection(ITEM, i32_ty()).could_match(&projection(OUTPUT, i32_ty())));
    assert!(!projection(ITEM, i32_ty()).could_match(&projection(ITEM, u32_ty())));
    let unselected = |name: u32, ty: Ty| UnselectedProjectionTy {
        assoc_name: Identifier(name),
        parameters: vec![Parameter::Ty(ty)],
    };
    assert!(unselected(1, i32_ty()).could_match(&unselected(1, i32_ty())));
    assert!(!unselected(1, i32_ty()).could_match(&unselected(2, i32_ty())));
    assert!(!unselected(1, i32_ty()).could_match(&unselected(1, u32_ty())));
}

fn one_goal_of_each_shape(ty: Ty) -> Vec<DomainGoal> {
    vec![
        implemented(FOO, ty.clone()),
        DomainGoal::Holds(WhereClause::ProjectionEq(ProjectionEq {
            projection: projection(ITEM, ty.clone()),
            ty: ty.clone(),
        })),
        DomainGoal::WellFormed(WellFormed::Trait(trait_ref(FOO, vec![ty.clone()]))),
        DomainGoal::WellFormed(WellFormed::Ty(ty.clone())),
        DomainGoal::FromEnv(FromEnv::Trait(trait_ref(FOO, vec![ty.clone()]))),
        DomainGoal::FromEnv(FromEnv::Ty(ty.clone())),
        DomainGoal::Normalize(Normalize { projection: projection(ITEM, ty.clone()), ty: ty.clone() }),
        DomainGoal::UnselectedNormalize(UnselectedNormalize {
            projection: UnselectedProjectionTy {
                assoc_name: Identifier(1),
                parameters: vec![Parameter::Ty(ty.clone())],
            },
            ty: ty.clone(),
        }),
        DomainGoal::InScope(TypeKindId::TraitId(FOO)),
        DomainGoal::IsLocal(ty.clone()),
        DomainGoal::IsUpstream(ty.clone()),
        DomainGoal::IsFullyVisible(ty.clone()),
        DomainGoal::LocalImplAllowed(trait_ref(FOO, vec![ty.clone()])),
        DomainGoal::Compatible,
        DomainGoal::DownstreamType(ty),
    ]
}

#[test]
fn goals_of_different_shapes_cannot_match() {
    let goals = one_goal_of_each_shape(i32_ty());
    for (i, a) in goals.iter().enumerate() {
        for (j, b) in goals.iter().enumerate() {
            assert_eq!(a.could_match(b), i == j);
        }
    }
}

#[test]
fn goals_of_one_shape_go_by_their_types() {
    let of_i32 = one_goal_of_each_shape(i32_ty());
    let of_u32 = one_goal_of_each_shape(u32_ty());
    let of_any = one_goal_of_each_shape(Ty::BoundVar(0));
    for i in 0..of_i32.len() {
        let without_type = matches!(of_i32[i], DomainGoal::InScope(_) | DomainGoal::Compatible);
        assert_eq!(of_i32[i].could_match(&of_u32[i]), without_type);
        assert!(of_i32[i].could_match(&of_any[i]));
        assert!(of_any[i].could_match(&of_u32[i]));
    }
}

#[test]
fn in_scope_goes_by_the_name() {
    let in_scope = |kind: TypeKindId| DomainGoal::InScope(kind);
    assert!(in_scope(TypeKindId::TraitId(FOO)).could_match(&in_scope(TypeKindId::TraitId(FOO))));
    assert!(!in_scope(TypeKindId::TraitId(FOO)).could_match(&in_scope(TypeKindId::TraitId(BAR))));
    assert!(!in_scope(TypeKindId::TraitId(TraitId(10))).could_match(&in_scope(TypeKindId::StructId(I32))));
}

#[test]
fn a_clause_goes_by_its_consequence() {
    let clause = ProgramClause {
        binders: vec![ParameterKind::Ty],
        consequence: implemented(FOO, struct_ty(VEC, vec![Ty::BoundVar(0)])),
        conditions: vec![implemented(BAR, u32_ty())],
    };
    assert!(clause.could_match(&implemented(FOO, struct_ty(VEC, vec![i32_ty()]))));
    assert!(clause.could_match(&implemented(FOO, Ty::InferenceVar(0))));
    assert!(!clause.could_match(&implemented(FOO, i32_ty())));
    assert!(!clause.could_match(&implemented(BAR, u32_ty())));
}

fn ir_lifetime(lifetime: &Lifetime) -> chalk_ir::Lifetime<ChalkIr> {
    let data: chalk_ir::LifetimeData<ChalkIr> = match lifetime {
        Lifetime::BoundVar(index) => chalk_ir::LifetimeData::BoundVar(chalk_ir::BoundVar::new(
            chalk_ir::DebruijnIndex::INNERMOST,
            *index,
        )),
        Lifetime::InferenceVar(var) => {
            chalk_ir::LifetimeData::InferenceVar(chalk_ir::InferenceVar::from(*var))
        }
        Lifetime::Placeholder(index) => {
            chalk_ir::LifetimeData::Placeholder(chalk_ir::PlaceholderIndex {
                ui: chalk_ir::UniverseIndex { counter: index.ui },
                idx: index.idx,
            })
        }
    };
    data.intern(&ChalkIr)
}

fn ir_parameter(parameter: &Parameter) -> chalk_ir::Parameter<ChalkIr> {
    match parameter {
        Parameter::Ty(ty) => chalk_ir::Parameter::new(&ChalkIr, chalk_ir::ParameterKind::Ty(ir_ty(ty))),
        Parameter::Lifetime(lifetime) => chalk_ir::Parameter::new(
            &ChalkIr,
            chalk_ir::ParameterKind::Lifetime(ir_lifetime(lifetime)),
        ),
    }
}

fn ir_substitution(parameters: &[Parameter]) -> chalk_ir::Substitution<ChalkIr> {
    let converted: Vec<chalk_ir::Parameter<ChalkIr>> = parameters.iter().map(ir_parameter).collect();
    chalk_ir::Substitution::from(&ChalkIr, converted)
}

fn ir_projection(projection: &ProjectionTy) -> chalk_ir::AliasTy<ChalkIr> {
    chalk_ir::AliasTy::Projection(chalk_ir::ProjectionTy {
        associated_ty_id: chalk_ir::AssocTypeId(RawId { index: projection.associated_ty_id.0 }),
        substitution: ir_substitution(&projection.parameters),
    })
}

/// The same type in the other crate's terms, for the shapes that both have.
fn ir_ty(ty: &Ty) -> chalk_ir::Ty<ChalkIr> {
    let data: chalk_ir::TyData<ChalkIr> = match ty {
        Ty::Apply(apply) => chalk_ir::TyData::Apply(chalk_ir::ApplicationTy {
            name: match apply.name {
                TypeName::TypeKindId(TypeKindId::StructId(id)) => {
                    chalk_ir::TypeName::Struct(chalk_ir::StructId(RawId { index: id.0 }))
                }
                TypeName::AssociatedType(id) => {
                    chalk_ir::TypeName::AssociatedType(chalk_ir::AssocTypeId(RawId { index: id.0 }))
                }
                _ => panic!("a name that the other crate has no shape for"),
            },
            substitution: ir_substitution(&apply.parameters),
        }),
        Ty::Projection(projection) => chalk_ir::TyData::Alias(ir_projection(projection)),
        Ty::BoundVar(index) => chalk_ir::TyData::BoundVar(chalk_ir::BoundVar::new(
            chalk_ir::DebruijnIndex::INNERMOST,
            *index,
        )),
        Ty::InferenceVar(var) => chalk_ir::TyData::InferenceVar(chalk_ir::InferenceVar::from(*var)),
        _ => panic!("a type that the other crate has no shape for"),
    };
    data.intern(&ChalkIr)
}

fn ir_trait_ref(trait_ref: &TraitRef) -> chalk_ir::TraitRef<ChalkIr> {
    chalk_ir::TraitRef {
        trait_id: chalk_ir::TraitId(RawId { index: trait_ref.trait_id.0 }),
        substitution: ir_substitution(&trait_ref.parameters),
    }
}

/// The same goal in the other crate's terms, for the shapes that both have.
fn ir_goal(goal: &DomainGoal) -> chalk_ir::DomainGoal<ChalkIr> {
    match goal {
        DomainGoal::Holds(WhereClause::Implemented(trait_ref)) => {
            chalk_ir::DomainGoal::Holds(chalk_ir::WhereClause::Implemented(ir_trait_ref(trait_ref)))
        }
        DomainGoal::Holds(WhereClause::ProjectionEq(projection_eq)) => {
            chalk_ir::DomainGoal::Holds(chalk_ir::WhereClause::AliasEq(chalk_ir::AliasEq {
                alias: ir_projection(&projection_eq.projection),
                ty: ir_ty(&projection_eq.ty),
            }))
        }
        DomainGoal::WellFormed(WellFormed::Trait(trait_ref)) => {
            chalk_ir::DomainGoal::WellFormed(chalk_ir::WellFormed::Trait(ir_trait_ref(trait_ref)))
        }
        DomainGoal::WellFormed(WellFormed::Ty(ty)) => {
            chalk_ir::DomainGoal::WellFormed(chalk_ir::WellFormed::Ty(ir_ty(ty)))
        }
        DomainGoal::FromEnv(FromEnv::Trait(trait_ref)) => {
            chalk_ir::DomainGoal::FromEnv(chalk_ir::FromEnv::Trait(ir_trait_ref(trait_ref)))
        }
        DomainGoal::FromEnv(FromEnv::Ty(ty)) => {
            chalk_ir::DomainGoal::FromEnv(chalk_ir::FromEnv::Ty(ir_ty(ty)))
        }
        DomainGoal::Normalize(normalize) => chalk_ir::DomainGoal::Normalize(chalk_ir::Normalize {
            alias: ir_projection(&normalize.projection),
            ty: ir_ty(&normalize.ty),
        }),
        DomainGoal::IsLocal(ty) => chalk_ir::DomainGoal::IsLocal(ir_ty(ty)),
        DomainGoal::IsUpstream(ty) => chalk_ir::DomainGoal::IsUpstream(ir_ty(ty)),
        DomainGoal::IsFullyVisible(ty) => chalk_ir::DomainGoal::IsFullyVisible(ir_ty(ty)),
        DomainGoal::LocalImplAllowed(trait_ref) => {
            chalk_ir::DomainGoal::LocalImplAllowed(ir_trait_ref(trait_ref))
        }
        DomainGoal::Compatible => chalk_ir::DomainGoal::Compatible(()),
        DomainGoal::DownstreamType(ty) => chalk_ir::DomainGoal::DownstreamType(ir_ty(ty)),
        _ => panic!("a goal that the other crate has no shape for"),
    }
}

fn ir_clause(clause: &ProgramClause) -> chalk_ir::ProgramClause<ChalkIr> {
    let kinds: Vec<chalk_ir::ParameterKind<()>> = clause
        .binders
        .iter()
        .map(|kind| match kind {
            ParameterKind::Ty => chalk_ir::ParameterKind::Ty(()),
            ParameterKind::Lifetime => chalk_ir::ParameterKind::Lifetime(()),
        })
        .collect();
    let conditions: Vec<chalk_ir::DomainGoal<ChalkIr>> = clause.conditions.iter().map(ir_goal).collect();
    let implication = chalk_ir::ProgramClauseImplication {
        consequence: ir_goal(&clause.consequence),
        conditions: chalk_ir::Goals::from(&ChalkIr, conditions),
        priority: chalk_ir::ClausePriority::High,
    };
    chalk_ir::ProgramClauseData::ForAll(chalk_ir::Binders::new(
        chalk_ir::ParameterKinds::from(&ChalkIr, kinds),
        implication,
    ))
    .intern(&ChalkIr)
}

fn shared_types() -> Vec<Ty> {
    let vec_of = |ty: Ty| struct_ty(VEC, vec![ty]);
    vec![
        i32_ty(),
        u32_ty(),
        vec_of(i32_ty()),
        vec_of(u32_ty()),
        vec_of(Ty::BoundVar(0)),
        vec_of(vec_of(i32_ty())),
        vec_of(vec_of(Ty::InferenceVar(1))),
        struct_ty(VEC, vec![i32_ty(), u32_ty()]),
        struct_ty(VEC, vec![]),
        reference(Lifetime::BoundVar(0), i32_ty()),
        reference(Lifetime::InferenceVar(0), u32_ty()),
        reference(Lifetime::Placeholder(PlaceholderIndex { ui: 1, idx: 2 }), Ty::BoundVar(1)),
        applied(TypeName::AssociatedType(ITEM), vec![Parameter::Ty(i32_ty())]),
        applied(TypeName::AssociatedType(OUTPUT), vec![Parameter::Ty(i32_ty())]),
        Ty::Projection(projection(ITEM, i32_ty())),
        Ty::Projection(projection(OUTPUT, u32_ty())),
        Ty::BoundVar(0),
        Ty::InferenceVar(2),
    ]
}

fn shared_goals() -> Vec<DomainGoal> {
    let mut goals = vec![];
    for ty in shared_types() {
        for goal in one_goal_of_each_shape(ty.clone()) {
            if !matches!(goal, DomainGoal::InScope(_) | DomainGoal::UnselectedNormalize(_)) {
                goals.push(goal);
            }
        }
        goals.push(implemented(BAR, ty.clone()));
        goals.push(DomainGoal::Holds(WhereClause::Implemented(trait_ref(FOO, vec![ty.clone(), ty.clone()]))));
        goals.push(DomainGoal::Normalize(Normalize { projection: projection(OUTPUT, ty.clone()), ty }));
    }
    goals
}

#[test]
fn types_agree_with_chalk_ir() {
    let types = shared_types();
    for a in &types {
        for b in &types {
            assert_eq!(a.could_match(b), ir_ty(a).could_match(&ChalkIr, &ir_ty(b)));
        }
    }
}

#[test]
fn goals_agree_with_chalk_ir() {
    let goals = shared_goals();
    let mut could = 0;
    for a in &goals {
        for b in &goals {
            let expected = ir_goal(a).could_match(&ChalkIr, &ir_goal(b));
            assert_eq!(a.could_match(b), expected);
            if expected {
                could += 1;
            }
        }
    }
    assert!(could > goals.len());
    assert!(could < goals.len() * goals.len());
}

#[test]
fn clauses_agree_with_chalk_ir() {
    let goals = shared_goals();
    for (i, consequence) in goals.iter().enumerate() {
        let clause = ProgramClause {
            binders: vec![ParameterKind::Ty, ParameterKind::Lifetime],
            consequence: consequence.clone(),
            conditions: vec![goals[(i + 1) % goals.len()].clone()],
        };
        for goal in &goals {
            assert_eq!(clause.could_match(goal), ir_clause(&clause).could_match(&ChalkIr, &ir_goal(goal)));
        }
    }
}
