//! Substitutions, and why the could-match test never rejects two goals that
//! a substitution makes equal.

use crate::could_match::{
    goal_could_match, parameter_could_match, parameters_could_match, ty_could_match,
};
use crate::goal::{
    DomainGoalView, FromEnvView, NormalizeView, ProjectionEqView, TraitRefView,
    UnselectedNormalizeView, WellFormedView, WhereClauseView,
};
use crate::ir::{
    ApplicationTyView, Lifetime, ParameterView, ProjectionTyView, TyView,
    UnselectedProjectionTyView,
};
use vstd::prelude::*;

verus! {

/// What is put for each type and for each lifetime when variables are
/// replaced.
pub struct Substitution {
    pub on_ty: spec_fn(TyView) -> TyView,
    pub on_lifetime: spec_fn(Lifetime) -> Lifetime,
}

impl Substitution {
    /// The parameter with the substitution applied.
    pub open spec fn parameter(self, parameter: ParameterView) -> ParameterView {
        match parameter {
            ParameterView::Ty(ty) => ParameterView::Ty((self.on_ty)(ty)),
            ParameterView::Lifetime(lifetime) => ParameterView::Lifetime(
                (self.on_lifetime)(lifetime),
            ),
        }
    }

    /// The parameter list with the substitution applied to each member.
    pub open spec fn parameters(self, parameters: Seq<ParameterView>) -> Seq<ParameterView> {
        parameters.map_values(|parameter: ParameterView| self.parameter(parameter))
    }

    /// Whether the substitution replaces variables only: of an applied type it
    /// keeps the name and goes on into the parameters.
    pub open spec fn keeps_heads(self) -> bool {
        forall|apply: ApplicationTyView| #[trigger]
            (self.on_ty)(TyView::Apply(apply)) == TyView::Apply(
                ApplicationTyView {
                    name: apply.name,
                    parameters: self.parameters(apply.parameters),
                },
            )
    }

    /// The trait reference with the substitution applied to its parameters.
    pub open spec fn trait_ref(self, trait_ref: TraitRefView) -> TraitRefView {
        TraitRefView {
            trait_id: trait_ref.trait_id,
            parameters: self.parameters(trait_ref.parameters),
        }
    }

    /// The projection with the substitution applied to its parameters.
    pub open spec fn projection(self, projection: ProjectionTyView) -> ProjectionTyView {
        ProjectionTyView {
            associated_ty_id: projection.associated_ty_id,
            parameters: self.parameters(projection.parameters),
        }
    }

    /// The unselected projection with the substitution applied to its
    /// parameters.
    pub open spec fn unselected_projection(
        self,
        projection: UnselectedProjectionTyView,
    ) -> UnselectedProjectionTyView {
        UnselectedProjectionTyView {
            assoc_name: projection.assoc_name,
            parameters: self.parameters(projection.parameters),
        }
    }

    /// The where clause with the substitution applied.
    pub open spec fn where_clause(self, where_clause: WhereClauseView) -> WhereClauseView {
        match where_clause {
            WhereClauseView::Implemented(trait_ref) => WhereClauseView::Implemented(
                self.trait_ref(trait_ref),
            ),
            WhereClauseView::ProjectionEq(projection_eq) => WhereClauseView::ProjectionEq(
                ProjectionEqView {
                    projection: self.projection(projection_eq.projection),
                    ty: (self.on_ty)(projection_eq.ty),
                },
            ),
        }
    }

    /// The well-formedness goal with the substitution applied.
    pub open spec fn well_formed(self, well_formed: WellFormedView) -> WellFormedView {
        match well_formed {
            WellFormedView::Trait(trait_ref) => WellFormedView::Trait(self.trait_ref(trait_ref)),
            WellFormedView::Ty(ty) => WellFormedView::Ty((self.on_ty)(ty)),
        }
    }

    /// The from-environment goal with the substitution applied.
    pub open spec fn from_env(self, from_env: FromEnvView) -> FromEnvView {
        match from_env {
            FromEnvView::Trait(trait_ref) => FromEnvView::Trait(self.trait_ref(trait_ref)),
            FromEnvView::Ty(ty) => FromEnvView::Ty((self.on_ty)(ty)),
        }
    }

    /// The goal with the substitution applied to every type and lifetime in
    /// it.
    pub open spec fn goal(self, goal: DomainGoalView) -> DomainGoalView {
        match goal {
            DomainGoalView::Holds(where_clause) => DomainGoalView::Holds(
                self.where_clause(where_clause),
            ),
            DomainGoalView::WellFormed(well_formed) => DomainGoalView::WellFormed(
                self.well_formed(well_formed),
            ),
            DomainGoalView::FromEnv(from_env) => DomainGoalView::FromEnv(self.from_env(from_env)),
            DomainGoalView::Normalize(normalize) => DomainGoalView::Normalize(
                NormalizeView {
                    projection: self.projection(normalize.projection),
                    ty: (self.on_ty)(normalize.ty),
                },
            ),
            DomainGoalView::UnselectedNormalize(normalize) => DomainGoalView::UnselectedNormalize(
                UnselectedNormalizeView {
                    projection: self.unselected_projection(normalize.projection),
                    ty: (self.on_ty)(normalize.ty),
                },
            ),
            DomainGoalView::InScope(type_kind_id) => DomainGoalView::InScope(type_kind_id),
            DomainGoalView::IsLocal(ty) => DomainGoalView::IsLocal((self.on_ty)(ty)),
            DomainGoalView::IsUpstream(ty) => DomainGoalView::IsUpstream((self.on_ty)(ty)),
            DomainGoalView::IsFullyVisible(ty) => DomainGoalView::IsFullyVisible((self.on_ty)(ty)),
            DomainGoalView::LocalImplAllowed(trait_ref) => DomainGoalView::LocalImplAllowed(
                self.trait_ref(trait_ref),
            ),
            DomainGoalView::Compatible => DomainGoalView::Compatible,
            DomainGoalView::DownstreamType(ty) => DomainGoalView::DownstreamType((self.on_ty)(ty)),
        }
    }
}

/// Two types that substitutions make equal could match.
pub proof fn lemma_unified_tys_could_match(
    left: Substitution,
    right: Substitution,
    a: TyView,
    b: TyView,
)
    requires
        left.keeps_heads(),
        right.keeps_heads(),
        (left.on_ty)(a) == (right.on_ty)(b),
    ensures
        ty_could_match(a, b),
    decreases a,
{
    match (a, b) {
        (TyView::Apply(x), TyView::Apply(y)) => {
            let after_left = left.parameters(x.parameters);
            let after_right = right.parameters(y.parameters);
            assert((left.on_ty)(TyView::Apply(x)) == TyView::Apply(
                ApplicationTyView { name: x.name, parameters: after_left },
            ));
            assert((right.on_ty)(TyView::Apply(y)) == TyView::Apply(
                ApplicationTyView { name: y.name, parameters: after_right },
            ));
            assert(after_left == after_right);
            assert forall|i: int|
                0 <= i < x.parameters.len() && i < y.parameters.len() implies parameter_could_match(
                #[trigger] x.parameters[i],
                y.parameters[i],
            ) by {
                assert(after_left[i] == left.parameter(x.parameters[i]));
                assert(after_right[i] == right.parameter(y.parameters[i]));
                lemma_unified_parameters_could_match(
                    left,
                    right,
                    x.parameters[i],
                    y.parameters[i],
                );
            }
        },
        _ => {},
    }
}

/// Two parameters that substitutions make equal could match.
pub proof fn lemma_unified_parameters_could_match(
    left: Substitution,
    right: Substitution,
    a: ParameterView,
    b: ParameterView,
)
    requires
        left.keeps_heads(),
        right.keeps_heads(),
        left.parameter(a) == right.parameter(b),
    ensures
        parameter_could_match(a, b),
    decreases a,
{
    match (a, b) {
        (ParameterView::Ty(x), ParameterView::Ty(y)) => {
            lemma_unified_tys_could_match(left, right, x, y);
        },
        _ => {},
    }
}

/// Two parameter lists that substitutions make equal could match.
pub proof fn lemma_unified_lists_could_match(
    left: Substitution,
    right: Substitution,
    a: Seq<ParameterView>,
    b: Seq<ParameterView>,
)
    requires
        left.keeps_heads(),
        right.keeps_heads(),
        left.parameters(a) == right.parameters(b),
    ensures
        parameters_could_match(a, b),
{
    assert(left.parameters(a).len() == a.len());
    assert(right.parameters(b).len() == b.len());
    assert forall|i: int| 0 <= i < a.len() implies parameter_could_match(#[trigger] a[i], b[i]) by {
        assert(left.parameters(a)[i] == left.parameter(a[i]));
        assert(right.parameters(b)[i] == right.parameter(b[i]));
        lemma_unified_parameters_could_match(left, right, a[i], b[i]);
    }
}

/// The could-match test is sound: where substitutions that replace variables
/// only make two goals equal, the test says that the goals could match. So a
/// clause whose consequence unifies with the goal is never dropped.
pub proof fn lemma_unified_goals_could_match(
    left: Substitution,
    right: Substitution,
    a: DomainGoalView,
    b: DomainGoalView,
)
    requires
        left.keeps_heads(),
        right.keeps_heads(),
        left.goal(a) == right.goal(b),
    ensures
        goal_could_match(a, b),
{
    match (a, b) {
        (DomainGoalView::Holds(x), DomainGoalView::Holds(y)) => {
            match (x, y) {
                (WhereClauseView::Implemented(s), WhereClauseView::Implemented(t)) => {
                    lemma_unified_lists_could_match(left, right, s.parameters, t.parameters);
                },
                (WhereClauseView::ProjectionEq(s), WhereClauseView::ProjectionEq(t)) => {
                    lemma_unified_lists_could_match(
                        left,
                        right,
                        s.projection.parameters,
                        t.projection.parameters,
                    );
                    lemma_unified_tys_could_match(left, right, s.ty, t.ty);
                },
                _ => {},
            }
        },
        (DomainGoalView::WellFormed(x), DomainGoalView::WellFormed(y)) => {
            match (x, y) {
                (WellFormedView::Trait(s), WellFormedView::Trait(t)) => {
                    lemma_unified_lists_could_match(left, right, s.parameters, t.parameters);
                },
                (WellFormedView::Ty(s), WellFormedView::Ty(t)) => {
                    lemma_unified_tys_could_match(left, right, s, t);
                },
                _ => {},
            }
        },
        (DomainGoalView::FromEnv(x), DomainGoalView::FromEnv(y)) => {
            match (x, y) {
                (FromEnvView::Trait(s), FromEnvView::Trait(t)) => {
                    lemma_unified_lists_could_match(left, right, s.parameters, t.parameters);
                },
                (FromEnvView::Ty(s), FromEnvView::Ty(t)) => {
                    lemma_unified_tys_could_match(left, right, s, t);
                },
                _ => {},
            }
        },
        (DomainGoalView::Normalize(x), DomainGoalView::Normalize(y)) => {
            lemma_unified_lists_could_match(
                left,
                right,
                x.projection.parameters,
                y.projection.parameters,
            );
            lemma_unified_tys_could_match(left, right, x.ty, y.ty);
        },
        (DomainGoalView::UnselectedNormalize(x), DomainGoalView::UnselectedNormalize(y)) => {
            lemma_unified_lists_could_match(
                left,
                right,
                x.projection.parameters,
                y.projection.parameters,
            );
            lemma_unified_tys_could_match(left, right, x.ty, y.ty);
        },
        (DomainGoalView::IsLocal(x), DomainGoalView::IsLocal(y)) => {
            lemma_unified_tys_could_match(left, right, x, y);
        },
        (DomainGoalView::IsUpstream(x), DomainGoalView::IsUpstream(y)) => {
            lemma_unified_tys_could_match(left, right, x, y);
        },
        (DomainGoalView::IsFullyVisible(x), DomainGoalView::IsFullyVisible(y)) => {
            lemma_unified_tys_could_match(left, right, x, y);
        },
        (DomainGoalView::LocalImplAllowed(x), DomainGoalView::LocalImplAllowed(y)) => {
            lemma_unified_lists_could_match(left, right, x.parameters, y.parameters);
        },
        (DomainGoalView::DownstreamType(x), DomainGoalView::DownstreamType(y)) => {
            lemma_unified_tys_could_match(left, right, x, y);
        },
        _ => {},
    }
}

/// The substitution that replaces nothing.
pub open spec fn identity() -> Substitution {
    Substitution { on_ty: |ty: TyView| ty, on_lifetime: |lifetime: Lifetime| lifetime }
}

/// The identity leaves every parameter list as it is.
pub proof fn lemma_identity_parameters(parameters: Seq<ParameterView>)
    ensures
        identity().parameters(parameters) == parameters,
{
    assert(identity().parameters(parameters) =~= parameters);
}

/// The identity replaces variables only, and leaves every goal as it is.
pub proof fn lemma_identity(goal: DomainGoalView)
    ensures
        identity().keeps_heads(),
        identity().goal(goal) == goal,
{
    assert forall|apply: ApplicationTyView| #[trigger]
        (identity().on_ty)(TyView::Apply(apply)) == TyView::Apply(
            ApplicationTyView {
                name: apply.name,
                parameters: identity().parameters(apply.parameters),
            },
        ) by {
        lemma_identity_parameters(apply.parameters);
    }
    assert forall|parameters: Seq<ParameterView>| #[trigger]
        identity().parameters(parameters) == parameters by {
        lemma_identity_parameters(parameters);
    }
}

/// Every goal could match itself: a clause whose consequence is the goal is
/// never dropped.
pub proof fn lemma_could_match_reflexive(goal: DomainGoalView)
    ensures
        goal_could_match(goal, goal),
{
    lemma_identity(goal);
    lemma_unified_goals_could_match(identity(), identity(), goal, goal);
}

} // verus!
