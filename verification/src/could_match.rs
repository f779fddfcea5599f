//! A fast test of whether two terms could ever be made equal.
//!
//! The test compares heads and names only. Where it says no, no substitution
//! for variables makes the two terms equal; where it says yes, they may or may
//! not unify.

use crate::goal::{
    DomainGoal, DomainGoalView, FromEnv, FromEnvView, ProgramClause, ProgramClauseView, TraitRef,
    TraitRefView, WellFormed, WellFormedView, WhereClause, WhereClauseView,
};
use crate::ir::{
    Parameter, ParameterView, ProjectionTy, ProjectionTyView, Ty, TyView, UnselectedProjectionTy,
    UnselectedProjectionTyView, parameters_view,
};
use vstd::prelude::*;

verus! {

/// Two types could match unless both are applications and either their names
/// differ or, at some position that both have, their parameters cannot match.
pub open spec fn ty_could_match(a: TyView, b: TyView) -> bool
    decreases a,
{
    match (a, b) {
        (TyView::Apply(x), TyView::Apply(y)) => {
            &&& x.name == y.name
            &&& forall|i: int|
                0 <= i < x.parameters.len() && i < y.parameters.len() ==> parameter_could_match(
                    #[trigger] x.parameters[i],
                    y.parameters[i],
                )
        },
        _ => true,
    }
}

/// Two parameters could match if both are types that could match, or both are
/// lifetimes.
pub open spec fn parameter_could_match(a: ParameterView, b: ParameterView) -> bool
    decreases a,
{
    match (a, b) {
        (ParameterView::Ty(x), ParameterView::Ty(y)) => ty_could_match(x, y),
        (ParameterView::Lifetime(_), ParameterView::Lifetime(_)) => true,
        _ => false,
    }
}

/// Two parameter lists could match if they are equally long and could match
/// position by position.
pub open spec fn parameters_could_match(a: Seq<ParameterView>, b: Seq<ParameterView>) -> bool {
    &&& a.len() == b.len()
    &&& forall|i: int| 0 <= i < a.len() ==> parameter_could_match(#[trigger] a[i], b[i])
}

/// Two trait references could match if they name one trait and their
/// parameter lists could match.
pub open spec fn trait_ref_could_match(a: TraitRefView, b: TraitRefView) -> bool {
    a.trait_id == b.trait_id && parameters_could_match(a.parameters, b.parameters)
}

/// Two projections could match if they name one associated type and their
/// parameter lists could match.
pub open spec fn projection_could_match(a: ProjectionTyView, b: ProjectionTyView) -> bool {
    a.associated_ty_id == b.associated_ty_id && parameters_could_match(a.parameters, b.parameters)
}

/// Two unselected projections could match if they go by one name and their
/// parameter lists could match.
pub open spec fn unselected_projection_could_match(
    a: UnselectedProjectionTyView,
    b: UnselectedProjectionTyView,
) -> bool {
    a.assoc_name == b.assoc_name && parameters_could_match(a.parameters, b.parameters)
}

/// Two where clauses could match if they are of one kind and their parts
/// could match.
pub open spec fn where_clause_could_match(a: WhereClauseView, b: WhereClauseView) -> bool {
    match (a, b) {
        (WhereClauseView::Implemented(x), WhereClauseView::Implemented(y)) => trait_ref_could_match(
            x,
            y,
        ),
        (WhereClauseView::ProjectionEq(x), WhereClauseView::ProjectionEq(y)) => {
            projection_could_match(x.projection, y.projection) && ty_could_match(x.ty, y.ty)
        },
        _ => false,
    }
}

/// Two well-formedness goals could match if both speak of a trait reference
/// or both of a type, and those could match.
pub open spec fn well_formed_could_match(a: WellFormedView, b: WellFormedView) -> bool {
    match (a, b) {
        (WellFormedView::Trait(x), WellFormedView::Trait(y)) => trait_ref_could_match(x, y),
        (WellFormedView::Ty(x), WellFormedView::Ty(y)) => ty_could_match(x, y),
        _ => false,
    }
}

/// Two from-environment goals could match if both speak of a trait
/// reference or both of a type, and those could match.
pub open spec fn from_env_could_match(a: FromEnvView, b: FromEnvView) -> bool {
    match (a, b) {
        (FromEnvView::Trait(x), FromEnvView::Trait(y)) => trait_ref_could_match(x, y),
        (FromEnvView::Ty(x), FromEnvView::Ty(y)) => ty_could_match(x, y),
        _ => false,
    }
}

/// Two goals could match if they have the same shape, the names in them are
/// equal, and the types in them could match.
pub open spec fn goal_could_match(a: DomainGoalView, b: DomainGoalView) -> bool {
    match (a, b) {
        (DomainGoalView::Holds(x), DomainGoalView::Holds(y)) => where_clause_could_match(x, y),
        (DomainGoalView::WellFormed(x), DomainGoalView::WellFormed(y)) => well_formed_could_match(
            x,
            y,
        ),
        (DomainGoalView::FromEnv(x), DomainGoalView::FromEnv(y)) => from_env_could_match(x, y),
        (DomainGoalView::Normalize(x), DomainGoalView::Normalize(y)) => {
            projection_could_match(x.projection, y.projection) && ty_could_match(x.ty, y.ty)
        },
        (DomainGoalView::UnselectedNormalize(x), DomainGoalView::UnselectedNormalize(y)) => {
            unselected_projection_could_match(x.projection, y.projection) && ty_could_match(
                x.ty,
                y.ty,
            )
        },
        (DomainGoalView::InScope(x), DomainGoalView::InScope(y)) => x == y,
        (DomainGoalView::IsLocal(x), DomainGoalView::IsLocal(y)) => ty_could_match(x, y),
        (DomainGoalView::IsUpstream(x), DomainGoalView::IsUpstream(y)) => ty_could_match(x, y),
        (DomainGoalView::IsFullyVisible(x), DomainGoalView::IsFullyVisible(y)) => ty_could_match(
            x,
            y,
        ),
        (
            DomainGoalView::LocalImplAllowed(x),
            DomainGoalView::LocalImplAllowed(y),
        ) => trait_ref_could_match(x, y),
        (DomainGoalView::Compatible, DomainGoalView::Compatible) => true,
        (DomainGoalView::DownstreamType(x), DomainGoalView::DownstreamType(y)) => ty_could_match(
            x,
            y,
        ),
        _ => false,
    }
}

/// A clause could match a goal if its consequence could.
pub open spec fn clause_could_match(clause: ProgramClauseView, goal: DomainGoalView) -> bool {
    goal_could_match(clause.consequence, goal)
}

/// Whether the parameters of two applied types could match, position by
/// position, as far as both lists go.
fn common_parameters_could_match(a: &Vec<Parameter>, b: &Vec<Parameter>) -> (could: bool)
    ensures
        could == (forall|i: int|
            0 <= i < parameters_view(*a).len() && i < parameters_view(*b).len()
                ==> parameter_could_match(
                #[trigger] parameters_view(*a)[i],
                parameters_view(*b)[i],
            )),
    decreases a,
{
    let mut i: usize = 0;
    while i < a.len() && i < b.len()
        invariant
            i <= a.len(),
            i <= b.len(),
            forall|j: int|
                0 <= j < i ==> parameter_could_match(
                    #[trigger] parameters_view(*a)[j],
                    parameters_view(*b)[j],
                ),
        decreases a.len() - i,
    {
        if !a[i].could_match(&b[i]) {
            assert(!parameter_could_match(
                parameters_view(*a)[i as int],
                parameters_view(*b)[i as int],
            ));
            return false;
        }
        i += 1;
    }
    true
}

/// Whether two parameter lists are equally long and could match position by
/// position.
fn all_parameters_could_match(a: &Vec<Parameter>, b: &Vec<Parameter>) -> (could: bool)
    ensures
        could == parameters_could_match(parameters_view(*a), parameters_view(*b)),
{
    a.len() == b.len() && common_parameters_could_match(a, b)
}

impl Parameter {
    /// Whether this parameter could be made equal to `other`.
    pub fn could_match(&self, other: &Parameter) -> (could: bool)
        ensures
            could == parameter_could_match(self@, other@),
        decreases self,
    {
        match (self, other) {
            (Parameter::Ty(a), Parameter::Ty(b)) => a.could_match(b),
            (Parameter::Lifetime(_), Parameter::Lifetime(_)) => true,
            _ => false,
        }
    }
}

impl Ty {
    /// Whether this type could be made equal to `other`.
    pub fn could_match(&self, other: &Ty) -> (could: bool)
        ensures
            could == ty_could_match(self@, other@),
        decreases self,
    {
        match (self, other) {
            (Ty::Apply(a), Ty::Apply(b)) => {
                assert(self@ == TyView::Apply(a@) && other@ == TyView::Apply(b@));
                a.name == b.name && common_parameters_could_match(&a.parameters, &b.parameters)
            },
            _ => {
                assert(ty_could_match(self@, other@));
                true
            },
        }
    }
}

impl TraitRef {
    /// Whether this trait reference could be made equal to `other`.
    pub fn could_match(&self, other: &TraitRef) -> (could: bool)
        ensures
            could == trait_ref_could_match(self@, other@),
    {
        self.trait_id == other.trait_id && all_parameters_could_match(
            &self.parameters,
            &other.parameters,
        )
    }
}

impl ProjectionTy {
    /// Whether this projection could be made equal to `other`.
    pub fn could_match(&self, other: &ProjectionTy) -> (could: bool)
        ensures
            could == projection_could_match(self@, other@),
    {
        self.associated_ty_id == other.associated_ty_id && all_parameters_could_match(
            &self.parameters,
            &other.parameters,
        )
    }
}

impl UnselectedProjectionTy {
    /// Whether this projection could be made equal to `other`.
    pub fn could_match(&self, other: &UnselectedProjectionTy) -> (could: bool)
        ensures
            could == unselected_projection_could_match(self@, other@),
    {
        self.assoc_name == other.assoc_name && all_parameters_could_match(
            &self.parameters,
            &other.parameters,
        )
    }
}

impl WhereClause {
    /// Whether this clause could be made equal to `other`.
    pub fn could_match(&self, other: &WhereClause) -> (could: bool)
        ensures
            could == where_clause_could_match(self@, other@),
    {
        match (self, other) {
            (WhereClause::Implemented(a), WhereClause::Implemented(b)) => a.could_match(b),
            (WhereClause::ProjectionEq(a), WhereClause::ProjectionEq(b)) => {
                a.projection.could_match(&b.projection) && a.ty.could_match(&b.ty)
            },
            _ => false,
        }
    }
}

impl WellFormed {
    /// Whether this goal could be made equal to `other`.
    pub fn could_match(&self, other: &WellFormed) -> (could: bool)
        ensures
            could == well_formed_could_match(self@, other@),
    {
        match (self, other) {
            (WellFormed::Trait(a), WellFormed::Trait(b)) => a.could_match(b),
            (WellFormed::Ty(a), WellFormed::Ty(b)) => a.could_match(b),
            _ => false,
        }
    }
}

impl FromEnv {
    /// Whether this goal could be made equal to `other`.
    pub fn could_match(&self, other: &FromEnv) -> (could: bool)
        ensures
            could == from_env_could_match(self@, other@),
    {
        match (self, other) {
            (FromEnv::Trait(a), FromEnv::Trait(b)) => a.could_match(b),
            (FromEnv::Ty(a), FromEnv::Ty(b)) => a.could_match(b),
            _ => false,
        }
    }
}

impl DomainGoal {
    /// Whether this goal could be made equal to `other`.
    pub fn could_match(&self, other: &DomainGoal) -> (could: bool)
        ensures
            could == goal_could_match(self@, other@),
    {
        match (self, other) {
            (DomainGoal::Holds(a), DomainGoal::Holds(b)) => a.could_match(b),
            (DomainGoal::WellFormed(a), DomainGoal::WellFormed(b)) => a.could_match(b),
            (DomainGoal::FromEnv(a), DomainGoal::FromEnv(b)) => a.could_match(b),
            (DomainGoal::Normalize(a), DomainGoal::Normalize(b)) => {
                a.projection.could_match(&b.projection) && a.ty.could_match(&b.ty)
            },
            (DomainGoal::UnselectedNormalize(a), DomainGoal::UnselectedNormalize(b)) => {
                a.projection.could_match(&b.projection) && a.ty.could_match(&b.ty)
            },
            (DomainGoal::InScope(a), DomainGoal::InScope(b)) => *a == *b,
            (DomainGoal::IsLocal(a), DomainGoal::IsLocal(b)) => a.could_match(b),
            (DomainGoal::IsUpstream(a), DomainGoal::IsUpstream(b)) => a.could_match(b),
            (DomainGoal::IsFullyVisible(a), DomainGoal::IsFullyVisible(b)) => a.could_match(b),
            (DomainGoal::LocalImplAllowed(a), DomainGoal::LocalImplAllowed(b)) => a.could_match(b),
            (DomainGoal::Compatible, DomainGoal::Compatible) => true,
            (DomainGoal::DownstreamType(a), DomainGoal::DownstreamType(b)) => a.could_match(b),
            _ => false,
        }
    }
}

impl ProgramClause {
    /// Whether the consequence of this clause could be made equal to `goal`.
    pub fn could_match(&self, goal: &DomainGoal) -> (could: bool)
        ensures
            could == clause_could_match(self@, goal@),
    {
        self.consequence.could_match(goal)
    }
}

} // verus!
