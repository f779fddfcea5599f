//! Goals and program clauses: what the solver must prove, and the rules it
//! may prove it with.

use crate::ir::{
    clone_parameters, parameters_view, Parameter, ParameterKind, ParameterView, ProjectionTy,
    ProjectionTyView, TraitId, Ty, TyView, TypeKindId, UnselectedProjectionTy,
    UnselectedProjectionTyView,
};
use vstd::prelude::*;

verus! {

/// A trait applied to parameters, the first of which is the `Self` type.
#[derive(Debug, PartialEq, Eq, Hash)]
pub struct TraitRef {
    pub trait_id: TraitId,
    pub parameters: Vec<Parameter>,
}

/// `projection == ty`, proved through any rule.
#[derive(Debug, PartialEq, Eq, Hash)]
pub struct ProjectionEq {
    pub projection: ProjectionTy,
    pub ty: Ty,
}

/// `projection` normalizes to `ty` through an impl.
#[derive(Debug, PartialEq, Eq, Hash)]
pub struct Normalize {
    pub projection: ProjectionTy,
    pub ty: Ty,
}

/// An unselected projection on a type normalizes to `ty`.
#[derive(Debug, PartialEq, Eq, Hash)]
pub struct UnselectedNormalize {
    pub projection: UnselectedProjectionTy,
    pub ty: Ty,
}

/// What a `where` clause can say.
#[derive(Debug, PartialEq, Eq, Hash)]
pub enum WhereClause {
    Implemented(TraitRef),
    ProjectionEq(ProjectionEq),
}

/// That a trait reference or a type is well formed.
#[derive(Debug, PartialEq, Eq, Hash)]
pub enum WellFormed {
    Trait(TraitRef),
    Ty(Ty),
}

/// That a trait reference or a type follows from the environment.
#[derive(Debug, PartialEq, Eq, Hash)]
pub enum FromEnv {
    Trait(TraitRef),
    Ty(Ty),
}

/// A proposition about types and traits.
#[derive(Debug, PartialEq, Eq, Hash)]
pub enum DomainGoal {
    Holds(WhereClause),
    WellFormed(WellFormed),
    FromEnv(FromEnv),
    Normalize(Normalize),
    UnselectedNormalize(UnselectedNormalize),
    InScope(TypeKindId),
    IsLocal(Ty),
    IsUpstream(Ty),
    IsFullyVisible(Ty),
    LocalImplAllowed(TraitRef),
    Compatible,
    DownstreamType(Ty),
}

/// A rule: for all values of the binders, the consequence holds if every
/// condition does.
#[derive(Debug, PartialEq, Eq, Hash)]
pub struct ProgramClause {
    pub binders: Vec<ParameterKind>,
    pub consequence: DomainGoal,
    pub conditions: Vec<DomainGoal>,
}

/// The clauses assumed to hold while a goal is proved.
#[derive(Debug, PartialEq, Eq, Hash)]
pub struct Environment {
    pub clauses: Vec<ProgramClause>,
}

/// The value of a [`TraitRef`].
pub struct TraitRefView {
    pub trait_id: TraitId,
    pub parameters: Seq<ParameterView>,
}

/// The value of a [`ProjectionEq`].
pub struct ProjectionEqView {
    pub projection: ProjectionTyView,
    pub ty: TyView,
}

/// The value of a [`Normalize`].
pub struct NormalizeView {
    pub projection: ProjectionTyView,
    pub ty: TyView,
}

/// The value of an [`UnselectedNormalize`].
pub struct UnselectedNormalizeView {
    pub projection: UnselectedProjectionTyView,
    pub ty: TyView,
}

/// The value of a [`WhereClause`].
pub enum WhereClauseView {
    Implemented(TraitRefView),
    ProjectionEq(ProjectionEqView),
}

/// The value of a [`WellFormed`].
pub enum WellFormedView {
    Trait(TraitRefView),
    Ty(TyView),
}

/// The value of a [`FromEnv`].
pub enum FromEnvView {
    Trait(TraitRefView),
    Ty(TyView),
}

/// The value of a [`DomainGoal`].
pub enum DomainGoalView {
    Holds(WhereClauseView),
    WellFormed(WellFormedView),
    FromEnv(FromEnvView),
    Normalize(NormalizeView),
    UnselectedNormalize(UnselectedNormalizeView),
    InScope(TypeKindId),
    IsLocal(TyView),
    IsUpstream(TyView),
    IsFullyVisible(TyView),
    LocalImplAllowed(TraitRefView),
    Compatible,
    DownstreamType(TyView),
}

/// The value of a [`ProgramClause`].
pub struct ProgramClauseView {
    pub binders: Seq<ParameterKind>,
    pub consequence: DomainGoalView,
    pub conditions: Seq<DomainGoalView>,
}

impl View for TraitRef {
    type V = TraitRefView;

    open spec fn view(&self) -> TraitRefView {
        TraitRefView { trait_id: self.trait_id, parameters: parameters_view(self.parameters) }
    }
}

impl View for ProjectionEq {
    type V = ProjectionEqView;

    open spec fn view(&self) -> ProjectionEqView {
        ProjectionEqView { projection: self.projection@, ty: self.ty@ }
    }
}

impl View for Normalize {
    type V = NormalizeView;

    open spec fn view(&self) -> NormalizeView {
        NormalizeView { projection: self.projection@, ty: self.ty@ }
    }
}

impl View for UnselectedNormalize {
    type V = UnselectedNormalizeView;

    open spec fn view(&self) -> UnselectedNormalizeView {
        UnselectedNormalizeView { projection: self.projection@, ty: self.ty@ }
    }
}

impl View for WhereClause {
    type V = WhereClauseView;

    open spec fn view(&self) -> WhereClauseView {
        match *self {
            WhereClause::Implemented(trait_ref) => WhereClauseView::Implemented(trait_ref@),
            WhereClause::ProjectionEq(projection_eq) => WhereClauseView::ProjectionEq(
                projection_eq@,
            ),
        }
    }
}

impl View for WellFormed {
    type V = WellFormedView;

    open spec fn view(&self) -> WellFormedView {
        match *self {
            WellFormed::Trait(trait_ref) => WellFormedView::Trait(trait_ref@),
            WellFormed::Ty(ty) => WellFormedView::Ty(ty@),
        }
    }
}

impl View for FromEnv {
    type V = FromEnvView;

    open spec fn view(&self) -> FromEnvView {
        match *self {
            FromEnv::Trait(trait_ref) => FromEnvView::Trait(trait_ref@),
            FromEnv::Ty(ty) => FromEnvView::Ty(ty@),
        }
    }
}

impl View for DomainGoal {
    type V = DomainGoalView;

    open spec fn view(&self) -> DomainGoalView {
        match *self {
            DomainGoal::Holds(where_clause) => DomainGoalView::Holds(where_clause@),
            DomainGoal::WellFormed(well_formed) => DomainGoalView::WellFormed(well_formed@),
            DomainGoal::FromEnv(from_env) => DomainGoalView::FromEnv(from_env@),
            DomainGoal::Normalize(normalize) => DomainGoalView::Normalize(normalize@),
            DomainGoal::UnselectedNormalize(normalize) => DomainGoalView::UnselectedNormalize(
                normalize@,
            ),
            DomainGoal::InScope(type_kind_id) => DomainGoalView::InScope(type_kind_id),
            DomainGoal::IsLocal(ty) => DomainGoalView::IsLocal(ty@),
            DomainGoal::IsUpstream(ty) => DomainGoalView::IsUpstream(ty@),
            DomainGoal::IsFullyVisible(ty) => DomainGoalView::IsFullyVisible(ty@),
            DomainGoal::LocalImplAllowed(trait_ref) => DomainGoalView::LocalImplAllowed(
                trait_ref@,
            ),
            DomainGoal::Compatible => DomainGoalView::Compatible,
            DomainGoal::DownstreamType(ty) => DomainGoalView::DownstreamType(ty@),
        }
    }
}

/// The values of a list of goals, in order.
pub open spec fn goals_view(goals: Seq<DomainGoal>) -> Seq<DomainGoalView> {
    goals.map_values(|goal: DomainGoal| goal@)
}

impl View for ProgramClause {
    type V = ProgramClauseView;

    open spec fn view(&self) -> ProgramClauseView {
        ProgramClauseView {
            binders: self.binders@,
            consequence: self.consequence@,
            conditions: goals_view(self.conditions@),
        }
    }
}

/// The values of a list of clauses, in order.
pub open spec fn clauses_view(clauses: Seq<ProgramClause>) -> Seq<ProgramClauseView> {
    clauses.map_values(|clause: ProgramClause| clause@)
}

/// Pushing a clause onto a list pushes its value onto the list's value.
pub proof fn lemma_clauses_view_push(clauses: Seq<ProgramClause>, clause: ProgramClause)
    ensures
        clauses_view(clauses.push(clause)) == clauses_view(clauses).push(clause@),
{
    assert(clauses_view(clauses.push(clause)) =~= clauses_view(clauses).push(clause@));
}

impl View for Environment {
    type V = Seq<ProgramClauseView>;

    open spec fn view(&self) -> Seq<ProgramClauseView> {
        clauses_view(self.clauses@)
    }
}

impl Clone for TraitRef {
    fn clone(&self) -> (copy: Self)
        ensures
            copy@ == self@,
    {
        TraitRef { trait_id: self.trait_id, parameters: clone_parameters(&self.parameters) }
    }
}

impl Clone for ProjectionEq {
    fn clone(&self) -> (copy: Self)
        ensures
            copy@ == self@,
    {
        ProjectionEq { projection: self.projection.clone(), ty: self.ty.clone() }
    }
}

impl Clone for Normalize {
    fn clone(&self) -> (copy: Self)
        ensures
            copy@ == self@,
    {
        Normalize { projection: self.projection.clone(), ty: self.ty.clone() }
    }
}

impl Clone for UnselectedNormalize {
    fn clone(&self) -> (copy: Self)
        ensures
            copy@ == self@,
    {
        UnselectedNormalize { projection: self.projection.clone(), ty: self.ty.clone() }
    }
}

impl Clone for WhereClause {
    fn clone(&self) -> (copy: Self)
        ensures
            copy@ == self@,
    {
        match self {
            WhereClause::Implemented(trait_ref) => WhereClause::Implemented(trait_ref.clone()),
            WhereClause::ProjectionEq(projection_eq) => WhereClause::ProjectionEq(
                projection_eq.clone(),
            ),
        }
    }
}

impl Clone for WellFormed {
    fn clone(&self) -> (copy: Self)
        ensures
            copy@ == self@,
    {
        match self {
            WellFormed::Trait(trait_ref) => WellFormed::Trait(trait_ref.clone()),
            WellFormed::Ty(ty) => WellFormed::Ty(ty.clone()),
        }
    }
}

impl Clone for FromEnv {
    fn clone(&self) -> (copy: Self)
        ensures
            copy@ == self@,
    {
        match self {
            FromEnv::Trait(trait_ref) => FromEnv::Trait(trait_ref.clone()),
            FromEnv::Ty(ty) => FromEnv::Ty(ty.clone()),
        }
    }
}

impl Clone for DomainGoal {
    fn clone(&self) -> (copy: Self)
        ensures
            copy@ == self@,
    {
        match self {
            DomainGoal::Holds(where_clause) => DomainGoal::Holds(where_clause.clone()),
            DomainGoal::WellFormed(well_formed) => DomainGoal::WellFormed(well_formed.clone()),
            DomainGoal::FromEnv(from_env) => DomainGoal::FromEnv(from_env.clone()),
            DomainGoal::Normalize(normalize) => DomainGoal::Normalize(normalize.clone()),
            DomainGoal::UnselectedNormalize(normalize) => DomainGoal::UnselectedNormalize(
                normalize.clone(),
            ),
            DomainGoal::InScope(type_kind_id) => DomainGoal::InScope(*type_kind_id),
            DomainGoal::IsLocal(ty) => DomainGoal::IsLocal(ty.clone()),
            DomainGoal::IsUpstream(ty) => DomainGoal::IsUpstream(ty.clone()),
            DomainGoal::IsFullyVisible(ty) => DomainGoal::IsFullyVisible(ty.clone()),
            DomainGoal::LocalImplAllowed(trait_ref) => DomainGoal::LocalImplAllowed(
                trait_ref.clone(),
            ),
            DomainGoal::Compatible => DomainGoal::Compatible,
            DomainGoal::DownstreamType(ty) => DomainGoal::DownstreamType(ty.clone()),
        }
    }
}

/// A copy of a binder list.
pub fn clone_binders(binders: &Vec<ParameterKind>) -> (copy: Vec<ParameterKind>)
    ensures
        copy@ == binders@,
{
    let mut copy: Vec<ParameterKind> = Vec::new();
    let mut i: usize = 0;
    while i < binders.len()
        invariant
            i <= binders.len(),
            copy@ == binders@.take(i as int),
        decreases binders.len() - i,
    {
        copy.push(binders[i]);
        assert(binders@.take(i + 1) == binders@.take(i as int).push(binders@[i as int]));
        i += 1;
    }
    assert(binders@.take(binders.len() as int) == binders@);
    copy
}

/// A copy of a list of goals.
pub fn clone_goals(goals: &Vec<DomainGoal>) -> (copy: Vec<DomainGoal>)
    ensures
        goals_view(copy@) == goals_view(goals@),
{
    let mut copy: Vec<DomainGoal> = Vec::new();
    let mut i: usize = 0;
    while i < goals.len()
        invariant
            i <= goals.len(),
            copy.len() == i,
            forall|j: int| 0 <= j < i ==> copy@[j]@ == goals@[j]@,
        decreases goals.len() - i,
    {
        copy.push(goals[i].clone());
        i += 1;
    }
    assert(goals_view(copy@) =~= goals_view(goals@));
    copy
}

impl Clone for ProgramClause {
    fn clone(&self) -> (copy: Self)
        ensures
            copy@ == self@,
    {
        ProgramClause {
            binders: clone_binders(&self.binders),
            consequence: self.consequence.clone(),
            conditions: clone_goals(&self.conditions),
        }
    }
}

/// A copy of a list of clauses.
pub fn clone_clauses(clauses: &Vec<ProgramClause>) -> (copy: Vec<ProgramClause>)
    ensures
        clauses_view(copy@) == clauses_view(clauses@),
{
    let mut copy: Vec<ProgramClause> = Vec::new();
    let mut i: usize = 0;
    while i < clauses.len()
        invariant
            i <= clauses.len(),
            copy.len() == i,
            forall|j: int| 0 <= j < i ==> copy@[j]@ == clauses@[j]@,
        decreases clauses.len() - i,
    {
        copy.push(clauses[i].clone());
        i += 1;
    }
    assert(clauses_view(copy@) =~= clauses_view(clauses@));
    copy
}

impl Clone for Environment {
    fn clone(&self) -> (copy: Self)
        ensures
            copy@ == self@,
    {
        Environment { clauses: clone_clauses(&self.clauses) }
    }
}

} // verus!
