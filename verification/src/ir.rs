//! Terms of the logic: identifiers, types, goals and program clauses,
//! each with the mathematical value (`view`) that contracts speak of.

use vstd::prelude::*;

verus! {

/// Names a trait declaration.
#[derive(Clone, Copy, Debug, PartialEq, Eq, Hash, Structural)]
pub struct TraitId(pub u32);

/// Names a struct declaration.
#[derive(Clone, Copy, Debug, PartialEq, Eq, Hash, Structural)]
pub struct StructId(pub u32);

/// Names an associated type declaration.
#[derive(Clone, Copy, Debug, PartialEq, Eq, Hash, Structural)]
pub struct TypeId(pub u32);

/// Names an impl.
#[derive(Clone, Copy, Debug, PartialEq, Eq, Hash, Structural)]
pub struct ImplId(pub u32);

/// The name by which an unselected projection refers to its associated type.
#[derive(Clone, Copy, Debug, PartialEq, Eq, Hash, Structural)]
pub struct Identifier(pub u32);

/// Which kind of declaration a name resolves to.
#[derive(Clone, Copy, Debug, PartialEq, Eq, Hash, Structural)]
pub enum TypeKindId {
    TypeId(TypeId),
    TraitId(TraitId),
    StructId(StructId),
}

/// A placeholder: a universally quantified name of some universe.
#[derive(Clone, Copy, Debug, PartialEq, Eq, Hash, Structural)]
pub struct PlaceholderIndex {
    pub ui: usize,
    pub idx: usize,
}

/// The head of an applied type.
#[derive(Clone, Copy, Debug, PartialEq, Eq, Hash, Structural)]
pub enum TypeName {
    TypeKindId(TypeKindId),
    Placeholder(PlaceholderIndex),
    AssociatedType(TypeId),
}

/// A lifetime.
#[derive(Clone, Copy, Debug, PartialEq, Eq, Hash, Structural)]
pub enum Lifetime {
    BoundVar(usize),
    InferenceVar(u32),
    Placeholder(PlaceholderIndex),
}

/// The kind of one generic parameter of a binder list.
#[derive(Clone, Copy, Debug, PartialEq, Eq, Hash, Structural)]
pub enum ParameterKind {
    Ty,
    Lifetime,
}

/// A type.
#[derive(Debug, PartialEq, Eq, Hash)]
pub enum Ty {
    Apply(ApplicationTy),
    Projection(ProjectionTy),
    UnselectedProjection(UnselectedProjectionTy),
    ForAll(Box<QuantifiedTy>),
    BoundVar(usize),
    InferenceVar(u32),
}

/// One argument of a parameter list: a type or a lifetime.
#[derive(Debug, PartialEq, Eq, Hash)]
pub enum Parameter {
    Ty(Ty),
    Lifetime(Lifetime),
}

/// A name applied to parameters, such as `Vec<T>`.
#[derive(Debug, PartialEq, Eq, Hash)]
pub struct ApplicationTy {
    pub name: TypeName,
    pub parameters: Vec<Parameter>,
}

/// An associated type of a known trait, applied to parameters.
#[derive(Debug, PartialEq, Eq, Hash)]
pub struct ProjectionTy {
    pub associated_ty_id: TypeId,
    pub parameters: Vec<Parameter>,
}

/// An associated type given by name only, its trait not yet selected.
#[derive(Debug, PartialEq, Eq, Hash)]
pub struct UnselectedProjectionTy {
    pub assoc_name: Identifier,
    pub parameters: Vec<Parameter>,
}

/// A type under a quantifier that binds `num_binders` lifetimes.
#[derive(Debug, PartialEq, Eq, Hash)]
pub struct QuantifiedTy {
    pub num_binders: usize,
    pub ty: Ty,
}

/// The value of a [`Ty`].
pub enum TyView {
    Apply(ApplicationTyView),
    Projection(ProjectionTyView),
    UnselectedProjection(UnselectedProjectionTyView),
    ForAll(Box<QuantifiedTyView>),
    BoundVar(usize),
    InferenceVar(u32),
}

/// The value of a [`Parameter`].
pub enum ParameterView {
    Ty(TyView),
    Lifetime(Lifetime),
}

/// The value of an [`ApplicationTy`].
pub struct ApplicationTyView {
    pub name: TypeName,
    pub parameters: Seq<ParameterView>,
}

/// The value of a [`ProjectionTy`].
pub struct ProjectionTyView {
    pub associated_ty_id: TypeId,
    pub parameters: Seq<ParameterView>,
}

/// The value of an [`UnselectedProjectionTy`].
pub struct UnselectedProjectionTyView {
    pub assoc_name: Identifier,
    pub parameters: Seq<ParameterView>,
}

/// The value of a [`QuantifiedTy`].
pub struct QuantifiedTyView {
    pub num_binders: usize,
    pub ty: TyView,
}

/// The values of a parameter list, in order.
pub open spec fn parameters_view(parameters: Vec<Parameter>) -> Seq<ParameterView>
    decreases parameters,
{
    Seq::new(
        parameters@.len(),
        |i: int|
            if 0 <= i < parameters@.len() {
                parameter_view(parameters@[i])
            } else {
                arbitrary()
            },
    )
}

/// The value of a parameter.
pub open spec fn parameter_view(parameter: Parameter) -> ParameterView
    decreases parameter,
{
    match parameter {
        Parameter::Ty(ty) => ParameterView::Ty(ty_view(ty)),
        Parameter::Lifetime(lifetime) => ParameterView::Lifetime(lifetime),
    }
}

/// The value of a type.
pub open spec fn ty_view(ty: Ty) -> TyView
    decreases ty,
{
    match ty {
        Ty::Apply(apply) => TyView::Apply(
            ApplicationTyView { name: apply.name, parameters: parameters_view(apply.parameters) },
        ),
        Ty::Projection(projection) => TyView::Projection(
            ProjectionTyView {
                associated_ty_id: projection.associated_ty_id,
                parameters: parameters_view(projection.parameters),
            },
        ),
        Ty::UnselectedProjection(projection) => TyView::UnselectedProjection(
            UnselectedProjectionTyView {
                assoc_name: projection.assoc_name,
                parameters: parameters_view(projection.parameters),
            },
        ),
        Ty::ForAll(quantified) => TyView::ForAll(
            Box::new(
                QuantifiedTyView { num_binders: quantified.num_binders, ty: ty_view(quantified.ty) },
            ),
        ),
        Ty::BoundVar(index) => TyView::BoundVar(index),
        Ty::InferenceVar(var) => TyView::InferenceVar(var),
    }
}

impl View for Ty {
    type V = TyView;

    open spec fn view(&self) -> TyView {
        ty_view(*self)
    }
}

impl View for Parameter {
    type V = ParameterView;

    open spec fn view(&self) -> ParameterView {
        parameter_view(*self)
    }
}

impl View for ApplicationTy {
    type V = ApplicationTyView;

    open spec fn view(&self) -> ApplicationTyView {
        ApplicationTyView { name: self.name, parameters: parameters_view(self.parameters) }
    }
}

impl View for ProjectionTy {
    type V = ProjectionTyView;

    open spec fn view(&self) -> ProjectionTyView {
        ProjectionTyView {
            associated_ty_id: self.associated_ty_id,
            parameters: parameters_view(self.parameters),
        }
    }
}

impl View for UnselectedProjectionTy {
    type V = UnselectedProjectionTyView;

    open spec fn view(&self) -> UnselectedProjectionTyView {
        UnselectedProjectionTyView {
            assoc_name: self.assoc_name,
            parameters: parameters_view(self.parameters),
        }
    }
}

impl View for QuantifiedTy {
    type V = QuantifiedTyView;

    open spec fn view(&self) -> QuantifiedTyView {
        QuantifiedTyView { num_binders: self.num_binders, ty: ty_view(self.ty) }
    }
}

/// The values of a list of types, in order.
pub open spec fn tys_view(tys: Seq<Ty>) -> Seq<TyView> {
    tys.map_values(|ty: Ty| ty@)
}

/// A copy of a parameter list.
pub fn clone_parameters(parameters: &Vec<Parameter>) -> (copy: Vec<Parameter>)
    ensures
        parameters_view(copy) == parameters_view(*parameters),
    decreases parameters,
{
    let mut copy: Vec<Parameter> = Vec::new();
    let mut i: usize = 0;
    while i < parameters.len()
        invariant
            i <= parameters.len(),
            copy.len() == i,
            forall|j: int| 0 <= j < i ==> parameter_view(copy@[j]) == parameter_view(parameters@[j]),
        decreases parameters.len() - i,
    {
        copy.push(parameters[i].clone());
        i += 1;
    }
    assert(parameters_view(copy) =~= parameters_view(*parameters));
    copy
}

impl Clone for Parameter {
    fn clone(&self) -> (copy: Self)
        ensures
            copy@ == self@,
        decreases self,
    {
        match self {
            Parameter::Ty(ty) => Parameter::Ty(ty.clone()),
            Parameter::Lifetime(lifetime) => Parameter::Lifetime(*lifetime),
        }
    }
}

impl Clone for Ty {
    fn clone(&self) -> (copy: Self)
        ensures
            copy@ == self@,
        decreases self,
    {
        match self {
            Ty::Apply(apply) => Ty::Apply(
                ApplicationTy { name: apply.name, parameters: clone_parameters(&apply.parameters) },
            ),
            Ty::Projection(projection) => Ty::Projection(
                ProjectionTy {
                    associated_ty_id: projection.associated_ty_id,
                    parameters: clone_parameters(&projection.parameters),
                },
            ),
            Ty::UnselectedProjection(projection) => Ty::UnselectedProjection(
                UnselectedProjectionTy {
                    assoc_name: projection.assoc_name,
                    parameters: clone_parameters(&projection.parameters),
                },
            ),
            Ty::ForAll(quantified) => Ty::ForAll(
                Box::new(
                    QuantifiedTy { num_binders: quantified.num_binders, ty: quantified.ty.clone() },
                ),
            ),
            Ty::BoundVar(index) => Ty::BoundVar(*index),
            Ty::InferenceVar(var) => Ty::InferenceVar(*var),
        }
    }
}

impl Clone for ApplicationTy {
    fn clone(&self) -> (copy: Self)
        ensures
            copy@ == self@,
    {
        ApplicationTy { name: self.name, parameters: clone_parameters(&self.parameters) }
    }
}

impl Clone for ProjectionTy {
    fn clone(&self) -> (copy: Self)
        ensures
            copy@ == self@,
    {
        ProjectionTy {
            associated_ty_id: self.associated_ty_id,
            parameters: clone_parameters(&self.parameters),
        }
    }
}

impl Clone for UnselectedProjectionTy {
    fn clone(&self) -> (copy: Self)
        ensures
            copy@ == self@,
    {
        UnselectedProjectionTy {
            assoc_name: self.assoc_name,
            parameters: clone_parameters(&self.parameters),
        }
    }
}

impl Clone for QuantifiedTy {
    fn clone(&self) -> (copy: Self)
        ensures
            copy@ == self@,
    {
        QuantifiedTy { num_binders: self.num_binders, ty: self.ty.clone() }
    }
}

/// A copy of a list of types.
pub fn clone_tys(tys: &Vec<Ty>) -> (copy: Vec<Ty>)
    ensures
        tys_view(copy@) == tys_view(tys@),
{
    let mut copy: Vec<Ty> = Vec::new();
    let mut i: usize = 0;
    while i < tys.len()
        invariant
            i <= tys.len(),
            copy.len() == i,
            forall|j: int| 0 <= j < i ==> copy@[j]@ == tys@[j]@,
        decreases tys.len() - i,
    {
        copy.push(tys[i].clone());
        i += 1;
    }
    assert(tys_view(copy@) =~= tys_view(tys@));
    copy
}

} // verus!
