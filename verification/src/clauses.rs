//! The clauses that could help to prove a goal: those that the declarations
//! of the program give rise to, and those that follow from the environment.

use crate::closure::{env_closure, lists_once, settles_within};
use crate::could_match::clause_could_match;
use crate::database::{RustIrDatabase, StructDatum, StructDatumView};
use crate::env_clauses::{program_clauses_for_env, program_clauses_for_env_within};
use crate::goal::{
    clauses_view, clone_binders, lemma_clauses_view_push, DomainGoal, DomainGoalView, Environment, ProgramClause,
    ProgramClauseView, TraitRef, TraitRefView, WellFormed, WellFormedView, WhereClause,
    WhereClauseView,
};
use crate::ir::{
    ImplId, Parameter, ParameterView, StructId, TraitId, Ty, TyView, TypeKindId, TypeName,
};
use vstd::prelude::*;

verus! {

/// The goal `self_ty: trait_id`.
pub open spec fn implemented(trait_id: TraitId, self_ty: TyView) -> DomainGoalView {
    DomainGoalView::Holds(
        WhereClauseView::Implemented(
            TraitRefView { trait_id, parameters: seq![ParameterView::Ty(self_ty)] },
        ),
    )
}

/// The rule by which a struct is in an auto trait when all its fields are:
/// for the struct's own generic parameters, `Struct<..>: Trait` holds if
/// `Field: Trait` does for each field, in the order of declaration.
pub open spec fn auto_trait_clause(trait_id: TraitId, datum: StructDatumView) -> ProgramClauseView {
    ProgramClauseView {
        binders: datum.binders,
        consequence: implemented(trait_id, TyView::Apply(datum.self_ty)),
        conditions: datum.fields.map_values(|field: TyView| implemented(trait_id, field)),
    }
}

/// What an auto trait adds for a struct: nothing where an impl for the pair
/// was written out, else the one rule over the fields.
pub open spec fn auto_trait_clauses<D: RustIrDatabase>(
    db: &D,
    trait_id: TraitId,
    struct_id: StructId,
) -> Seq<ProgramClauseView> {
    if db.impl_provided(trait_id, struct_id) {
        Seq::empty()
    } else {
        seq![auto_trait_clause(trait_id, db.struct_datum_of(struct_id))]
    }
}

/// The goal `self_ty: trait_id`.
fn implemented_goal(trait_id: TraitId, self_ty: Ty) -> (goal: DomainGoal)
    ensures
        goal@ == implemented(trait_id, self_ty@),
{
    let mut parameters: Vec<Parameter> = Vec::new();
    parameters.push(Parameter::Ty(self_ty));
    let trait_ref = TraitRef { trait_id, parameters };
    assert(trait_ref@.parameters =~= seq![ParameterView::Ty(self_ty@)]);
    DomainGoal::Holds(WhereClause::Implemented(trait_ref))
}

/// The rule that puts a struct into an auto trait by its fields.
pub fn auto_trait_impl(auto_trait_id: TraitId, struct_datum: &StructDatum) -> (clause: ProgramClause)
    ensures
        clause@ == auto_trait_clause(auto_trait_id, struct_datum@),
{
    let consequence = implemented_goal(auto_trait_id, Ty::Apply(struct_datum.self_ty.clone()));
    let mut conditions: Vec<DomainGoal> = Vec::new();
    let mut i: usize = 0;
    while i < struct_datum.fields.len()
        invariant
            i <= struct_datum.fields.len(),
            conditions.len() == i,
            forall|j: int|
                0 <= j < i ==> conditions@[j]@ == implemented(
                    auto_trait_id,
                    struct_datum.fields@[j]@,
                ),
        decreases struct_datum.fields.len() - i,
    {
        conditions.push(implemented_goal(auto_trait_id, struct_datum.fields[i].clone()));
        i += 1;
    }
    let clause = ProgramClause {
        binders: clone_binders(&struct_datum.binders),
        consequence,
        conditions,
    };
    assert(clause@.conditions =~= auto_trait_clause(auto_trait_id, struct_datum@).conditions);
    clause
}

/// For an auto trait, every struct gets a rule of its own, unless an impl of
/// the trait for that struct was written out, positive or negative: then it
/// gets none. The rule says that the struct is in the trait if all its fields
/// are.
pub fn push_auto_trait_impls<D: RustIrDatabase>(
    auto_trait_id: TraitId,
    struct_id: StructId,
    program: &D,
    vec: &mut Vec<ProgramClause>,
)
    requires
        program.trait_datum_of(auto_trait_id).auto,
        program.trait_datum_of(auto_trait_id).binders.len() == 1,
    ensures
        clauses_view(final(vec)@) == clauses_view(old(vec)@) + auto_trait_clauses(
            program,
            auto_trait_id,
            struct_id,
        ),
{
    let struct_datum = program.struct_datum(struct_id);
    if program.impl_provided_for(auto_trait_id, struct_id) {
        assert(clauses_view(vec@) + Seq::<ProgramClauseView>::empty() =~= clauses_view(vec@));
        return ;
    }
    let clause = auto_trait_impl(auto_trait_id, &struct_datum);
    proof {
        lemma_clauses_view_push(vec@, clause);
        assert(clauses_view(vec@).push(clause@) =~= clauses_view(vec@) + seq![clause@]);
    }
    vec.push(clause);
}

/// The clauses of the declaration that a name resolves to.
pub open spec fn type_kind_clauses<D: RustIrDatabase>(db: &D, type_kind_id: TypeKindId) -> Seq<
    ProgramClauseView,
> {
    match type_kind_id {
        TypeKindId::TypeId(type_id) => db.associated_ty_clauses(type_id),
        TypeKindId::TraitId(trait_id) => db.trait_clauses(trait_id),
        TypeKindId::StructId(struct_id) => db.struct_clauses(struct_id),
    }
}

/// The clauses of the declaration at the head of a type. Quantifiers are
/// passed through; a placeholder, a variable and an unselected projection
/// have no declaration, and give none.
pub open spec fn ty_clauses<D: RustIrDatabase>(db: &D, ty: TyView) -> Seq<ProgramClauseView>
    decreases ty,
{
    match ty {
        TyView::Apply(apply) => match apply.name {
            TypeName::TypeKindId(type_kind_id) => type_kind_clauses(db, type_kind_id),
            TypeName::Placeholder(_) => Seq::empty(),
            TypeName::AssociatedType(type_id) => db.associated_ty_clauses(type_id),
        },
        TyView::Projection(projection) => db.associated_ty_clauses(projection.associated_ty_id),
        TyView::ForAll(quantified) => ty_clauses(db, quantified.ty),
        TyView::UnselectedProjection(_) | TyView::BoundVar(_) | TyView::InferenceVar(_) => {
            Seq::empty()
        },
    }
}

/// The clauses of a list of impls, impl after impl.
pub open spec fn impls_clauses<D: RustIrDatabase>(db: &D, impls: Seq<ImplId>) -> Seq<
    ProgramClauseView,
>
    decreases impls.len(),
{
    if impls.len() == 0 {
        Seq::empty()
    } else {
        impls_clauses(db, impls.drop_last()) + db.impl_clauses(impls.last())
    }
}

/// The struct whose application is the `Self` type of a trait reference.
pub open spec fn self_struct(trait_ref: TraitRefView) -> Option<StructId> {
    if trait_ref.parameters.len() > 0 {
        match trait_ref.parameters[0] {
            ParameterView::Ty(TyView::Apply(apply)) => match apply.name {
                TypeName::TypeKindId(TypeKindId::StructId(struct_id)) => Some(struct_id),
                _ => None,
            },
            _ => None,
        }
    } else {
        None
    }
}

/// The clauses for `trait_ref` to hold: those of every impl of the trait and,
/// where the trait is an auto trait and `Self` is a struct, the rule over the
/// struct's fields.
pub open spec fn implemented_clauses<D: RustIrDatabase>(db: &D, trait_ref: TraitRefView) -> Seq<
    ProgramClauseView,
> {
    impls_clauses(db, db.impls_of(trait_ref.trait_id)) + (if db.trait_datum_of(
        trait_ref.trait_id,
    ).auto {
        match self_struct(trait_ref) {
            Some(struct_id) => auto_trait_clauses(db, trait_ref.trait_id, struct_id),
            None => Seq::empty(),
        }
    } else {
        Seq::empty()
    })
}

/// The clauses that the declarations of the program give for a goal.
pub open spec fn goal_clauses<D: RustIrDatabase>(db: &D, goal: DomainGoalView) -> Seq<
    ProgramClauseView,
> {
    match goal {
        DomainGoalView::Holds(WhereClauseView::Implemented(trait_ref)) => implemented_clauses(
            db,
            trait_ref,
        ),
        DomainGoalView::Holds(WhereClauseView::ProjectionEq(projection_eq)) => {
            db.associated_ty_clauses(projection_eq.projection.associated_ty_id)
        },
        DomainGoalView::WellFormed(WellFormedView::Trait(trait_ref)) => db.trait_clauses(
            trait_ref.trait_id,
        ),
        DomainGoalView::WellFormed(WellFormedView::Ty(ty)) => ty_clauses(db, ty),
        DomainGoalView::IsUpstream(ty) => ty_clauses(db, ty),
        DomainGoalView::DownstreamType(ty) => ty_clauses(db, ty),
        DomainGoalView::IsFullyVisible(ty) => ty_clauses(db, ty),
        DomainGoalView::IsLocal(ty) => ty_clauses(db, ty),
        DomainGoalView::FromEnv(_) => Seq::empty(),
        DomainGoalView::Normalize(normalize) => db.associated_ty_clauses(
            normalize.projection.associated_ty_id,
        ),
        DomainGoalView::UnselectedNormalize(normalize) => ty_clauses(db, normalize.ty),
        DomainGoalView::InScope(type_kind_id) => type_kind_clauses(db, type_kind_id),
        DomainGoalView::LocalImplAllowed(trait_ref) => db.trait_clauses(trait_ref.trait_id),
        DomainGoalView::Compatible => Seq::empty(),
    }
}

/// Whether the clauses for a goal can be gathered: where the goal asks for
/// an auto trait to hold, its trait reference names a `Self` type and, where
/// that is a struct, the trait binds `Self` and nothing else.
pub open spec fn goal_admitted<D: RustIrDatabase>(db: &D, goal: DomainGoalView) -> bool {
    match goal {
        DomainGoalView::Holds(WhereClauseView::Implemented(trait_ref)) => {
            db.trait_datum_of(trait_ref.trait_id).auto ==> {
                &&& trait_ref.parameters.len() > 0
                &&& trait_ref.parameters[0] is Ty
                &&& self_struct(trait_ref) is Some ==> db.trait_datum_of(
                    trait_ref.trait_id,
                ).binders.len() == 1
            }
        },
        _ => true,
    }
}

/// Appends the clauses of the declaration that `type_kind_id` names.
pub fn match_type_kind<D: RustIrDatabase>(
    db: &D,
    type_kind_id: TypeKindId,
    clauses: &mut Vec<ProgramClause>,
)
    ensures
        clauses_view(final(clauses)@) == clauses_view(old(clauses)@) + type_kind_clauses(
            db,
            type_kind_id,
        ),
{
    match type_kind_id {
        TypeKindId::TypeId(type_id) => db.associated_ty_to_program_clauses(type_id, clauses),
        TypeKindId::TraitId(trait_id) => db.trait_to_program_clauses(trait_id, clauses),
        TypeKindId::StructId(struct_id) => db.struct_to_program_clauses(struct_id, clauses),
    }
}

/// Appends the clauses of the declaration at the head of `ty`.
pub fn match_ty<D: RustIrDatabase>(db: &D, ty: &Ty, clauses: &mut Vec<ProgramClause>)
    ensures
        clauses_view(final(clauses)@) == clauses_view(old(clauses)@) + ty_clauses(db, ty@),
    decreases ty,
{
    proof {
        assert(clauses_view(clauses@) + Seq::<ProgramClauseView>::empty() =~= clauses_view(
            clauses@,
        ));
    }
    match ty {
        Ty::Apply(application_ty) => match application_ty.name {
            TypeName::TypeKindId(type_kind_id) => match_type_kind(db, type_kind_id, clauses),
            TypeName::Placeholder(_) => {},
            TypeName::AssociatedType(type_id) => db.associated_ty_to_program_clauses(
                type_id,
                clauses,
            ),
        },
        Ty::Projection(projection_ty) => db.associated_ty_to_program_clauses(
            projection_ty.associated_ty_id,
            clauses,
        ),
        Ty::ForAll(quantified_ty) => match_ty(db, &quantified_ty.ty, clauses),
        Ty::UnselectedProjection(_) | Ty::BoundVar(_) | Ty::InferenceVar(_) => (),
    }
}

/// Appends the clauses of every impl of a trait.
fn push_impls_of_trait<D: RustIrDatabase>(
    db: &D,
    trait_id: TraitId,
    clauses: &mut Vec<ProgramClause>,
)
    ensures
        clauses_view(final(clauses)@) == clauses_view(old(clauses)@) + impls_clauses(
            db,
            db.impls_of(trait_id),
        ),
{
    let impls = db.impls_for_trait(trait_id);
    let mut i: usize = 0;
    proof {
        assert(impls@.take(0) =~= Seq::<ImplId>::empty());
        assert(clauses_view(clauses@) + Seq::<ProgramClauseView>::empty() =~= clauses_view(
            clauses@,
        ));
    }
    while i < impls.len()
        invariant
            i <= impls.len(),
            clauses_view(clauses@) == clauses_view(old(clauses)@) + impls_clauses(
                db,
                impls@.take(i as int),
            ),
        decreases impls.len() - i,
    {
        db.impl_to_program_clauses(impls[i], clauses);
        proof {
            let next = impls@.take(i + 1);
            assert(next.drop_last() =~= impls@.take(i as int));
            assert(next.last() == impls@[i as int]);
            assert(clauses_view(clauses@) =~= clauses_view(old(clauses)@) + impls_clauses(
                db,
                next,
            ));
        }
        i += 1;
    }
    assert(impls@.take(impls.len() as int) =~= impls@);
}

/// Appends the clauses that the declarations of the program give for `goal`.
/// The list may hold clauses that do not apply: it holds every one that does.
pub fn program_clauses_that_could_match<D: RustIrDatabase>(
    db: &D,
    goal: &DomainGoal,
    clauses: &mut Vec<ProgramClause>,
)
    requires
        goal_admitted(db, goal@),
    ensures
        clauses_view(final(clauses)@) == clauses_view(old(clauses)@) + goal_clauses(db, goal@),
{
    proof {
        assert(clauses_view(clauses@) + Seq::<ProgramClauseView>::empty() =~= clauses_view(
            clauses@,
        ));
    }
    match goal {
        DomainGoal::Holds(WhereClause::Implemented(trait_ref)) => {
            let trait_id = trait_ref.trait_id;
            push_impls_of_trait(db, trait_id, clauses);
            proof {
                assert(clauses_view(clauses@) + Seq::<ProgramClauseView>::empty() =~= clauses_view(
                    clauses@,
                ));
            }
            let trait_datum = db.trait_datum(trait_id);
            if trait_datum.is_auto_trait() {
                match &trait_ref.parameters[0] {
                    Parameter::Ty(Ty::Apply(apply)) => match apply.name {
                        TypeName::TypeKindId(TypeKindId::StructId(struct_id)) => {
                            push_auto_trait_impls(trait_id, struct_id, db, clauses);
                        },
                        _ => {},
                    },
                    _ => {},
                }
            }
            proof {
                assert(clauses_view(clauses@) =~= clauses_view(old(clauses)@)
                    + implemented_clauses(db, trait_ref@));
            }
        },
        DomainGoal::Holds(WhereClause::ProjectionEq(projection_predicate)) => {
            db.associated_ty_to_program_clauses(
                projection_predicate.projection.associated_ty_id,
                clauses,
            );
        },
        DomainGoal::WellFormed(WellFormed::Trait(trait_predicate)) => {
            db.trait_to_program_clauses(trait_predicate.trait_id, clauses);
        },
        DomainGoal::WellFormed(WellFormed::Ty(ty))
        | DomainGoal::IsUpstream(ty)
        | DomainGoal::DownstreamType(ty) => match_ty(db, ty, clauses),
        DomainGoal::IsFullyVisible(ty) | DomainGoal::IsLocal(ty) => match_ty(db, ty, clauses),
        DomainGoal::FromEnv(_) => (),
        DomainGoal::Normalize(projection_predicate) => db.associated_ty_to_program_clauses(
            projection_predicate.projection.associated_ty_id,
            clauses,
        ),
        DomainGoal::UnselectedNormalize(normalize) => match_ty(db, &normalize.ty, clauses),
        DomainGoal::InScope(type_kind_id) => match_type_kind(db, *type_kind_id, clauses),
        DomainGoal::LocalImplAllowed(trait_ref) => db.trait_to_program_clauses(
            trait_ref.trait_id,
            clauses,
        ),
        DomainGoal::Compatible => (),
    }
}

/// The test that a clause passes when it could match `goal`.
pub open spec fn matching(goal: DomainGoalView) -> spec_fn(ProgramClauseView) -> bool {
    |clause: ProgramClauseView| clause_could_match(clause, goal)
}

/// Whether `answer` is a list of candidates for `goal`: the clauses that the
/// declarations give, in their order, then the closure of the environment,
/// each member once and in some order; of all these, those that could match
/// the goal.
pub open spec fn is_answer<D: RustIrDatabase>(
    db: &D,
    environment: Seq<ProgramClauseView>,
    goal: DomainGoalView,
    answer: Seq<ProgramClauseView>,
) -> bool {
    exists|added: Seq<ProgramClauseView>|
        #[trigger] lists_once(added, env_closure(db, environment.to_set())) && answer == (
        goal_clauses(db, goal) + added).filter(matching(goal))
}

/// Keeps the clauses that could match `goal`, in their order, and drops the
/// others.
pub fn retain_matching(clauses: &mut Vec<ProgramClause>, goal: &DomainGoal)
    ensures
        clauses_view(final(clauses)@) == clauses_view(old(clauses)@).filter(matching(goal@)),
{
    let ghost all = clauses_view(clauses@);
    let mut kept: Vec<ProgramClause> = Vec::new();
    let mut i: usize = 0;
    proof {
        assert(all.take(0) =~= Seq::<ProgramClauseView>::empty());
        assert(clauses_view(kept@) =~= Seq::<ProgramClauseView>::empty());
        assert(all.take(0).filter(matching(goal@)) =~= Seq::<ProgramClauseView>::empty());
    }
    while i < clauses.len()
        invariant
            i <= clauses.len(),
            all == clauses_view(clauses@),
            clauses@ == old(clauses)@,
            clauses_view(kept@) == all.take(i as int).filter(matching(goal@)),
        decreases clauses.len() - i,
    {
        proof {
            assert(all.take(i + 1) =~= all.take(i as int).push(all[i as int]));
            Seq::lemma_filter_push(all.take(i as int), all[i as int], matching(goal@));
        }
        if clauses[i].could_match(goal) {
            let clause = clauses[i].clone();
            proof {
                lemma_clauses_view_push(kept@, clause);
            }
            kept.push(clause);
        }
        i += 1;
    }
    assert(all.take(clauses.len() as int) =~= all);
    *clauses = kept;
}

/// The program clauses that could help to prove `goal` in `environment`:
/// those that the declarations of the program give for the goal, and those
/// that follow from the environment, without any whose consequence cannot
/// match the goal.
pub fn program_clauses_for_goal<D: RustIrDatabase>(
    db: &D,
    environment: &Environment,
    goal: &DomainGoal,
) -> (clauses: Vec<ProgramClause>)
    requires
        goal_admitted(db, goal@),
        env_closure(db, environment@.to_set()).finite(),
    ensures
        is_answer(db, environment@, goal@, clauses_view(clauses@)),
{
    let mut vec: Vec<ProgramClause> = Vec::new();
    proof {
        assert(clauses_view(vec@) =~= Seq::<ProgramClauseView>::empty());
    }
    program_clauses_that_could_match(db, goal, &mut vec);
    proof {
        assert(clauses_view(vec@) =~= goal_clauses(db, goal@));
    }
    program_clauses_for_env(db, environment, &mut vec);
    let ghost added = choose|added: Seq<ProgramClauseView>|
        #[trigger] lists_once(added, env_closure(db, environment@.to_set())) && clauses_view(vec@)
            == goal_clauses(db, goal@) + added;
    retain_matching(&mut vec, goal);
    proof {
        assert(lists_once(added, env_closure(db, environment@.to_set())));
    }
    vec
}

/// Whether the clauses for `goal` can be gathered from `db`.
pub fn goal_is_admitted<D: RustIrDatabase>(db: &D, goal: &DomainGoal) -> (admitted: bool)
    ensures
        admitted == goal_admitted(db, goal@),
{
    match goal {
        DomainGoal::Holds(WhereClause::Implemented(trait_ref)) => {
            let trait_datum = db.trait_datum(trait_ref.trait_id);
            if !trait_datum.is_auto_trait() {
                return true;
            }
            if trait_ref.parameters.len() == 0 {
                return false;
            }
            match &trait_ref.parameters[0] {
                Parameter::Ty(Ty::Apply(apply)) => match apply.name {
                    TypeName::TypeKindId(TypeKindId::StructId(_)) => trait_datum.binders.len() == 1,
                    _ => true,
                },
                Parameter::Ty(_) => true,
                Parameter::Lifetime(_) => false,
            }
        },
        _ => true,
    }
}

/// As [`program_clauses_for_goal`], for any database, environment and goal,
/// within a number of rounds of elaboration: the answer where the clauses for
/// the goal can be gathered and the closure of the environment is reached by
/// round `max_rounds`; else nothing.
pub fn program_clauses_for_goal_within<D: RustIrDatabase>(
    db: &D,
    environment: &Environment,
    goal: &DomainGoal,
    max_rounds: usize,
) -> (answer: Option<Vec<ProgramClause>>)
    ensures
        answer is Some <==> goal_admitted(db, goal@) && settles_within(
            db,
            environment@.to_set(),
            max_rounds as nat,
        ),
        answer matches Some(clauses) ==> is_answer(db, environment@, goal@, clauses_view(clauses@)),
{
    if !goal_is_admitted(db, goal) {
        return None;
    }
    let mut vec: Vec<ProgramClause> = Vec::new();
    proof {
        assert(clauses_view(vec@) =~= Seq::<ProgramClauseView>::empty());
    }
    program_clauses_that_could_match(db, goal, &mut vec);
    proof {
        assert(clauses_view(vec@) =~= goal_clauses(db, goal@));
    }
    if !program_clauses_for_env_within(db, environment, max_rounds, &mut vec) {
        return None;
    }
    let ghost added = choose|added: Seq<ProgramClauseView>|
        #[trigger] lists_once(added, env_closure(db, environment@.to_set())) && clauses_view(vec@)
            == goal_clauses(db, goal@) + added;
    retain_matching(&mut vec, goal);
    proof {
        assert(lists_once(added, env_closure(db, environment@.to_set())));
    }
    Some(vec)
}

} // verus!
