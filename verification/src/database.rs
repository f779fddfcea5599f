//! The declarations of a program, as the clause engine sees them.

use crate::goal::{clauses_view, clone_binders, ProgramClause, ProgramClauseView};
use crate::ir::{
    clone_tys, tys_view, ApplicationTy, ApplicationTyView, ImplId, ParameterKind, StructId, TraitId, Ty,
    TyView, TypeId,
};
use vstd::prelude::*;

verus! {

/// What the engine reads of a trait declaration.
#[derive(Debug, PartialEq, Eq, Hash)]
pub struct TraitDatum {
    /// The generic parameters that the trait binds, `Self` first.
    pub binders: Vec<ParameterKind>,
    /// Whether the trait was declared `#[auto]`.
    pub auto: bool,
}

/// What the engine reads of a struct declaration.
#[derive(Debug, PartialEq, Eq, Hash)]
pub struct StructDatum {
    /// The generic parameters that the struct binds.
    pub binders: Vec<ParameterKind>,
    /// The struct applied to its own parameters.
    pub self_ty: ApplicationTy,
    /// The types of the fields, in the order of their declaration.
    pub fields: Vec<Ty>,
}

/// The value of a [`TraitDatum`].
pub struct TraitDatumView {
    pub binders: Seq<ParameterKind>,
    pub auto: bool,
}

/// The value of a [`StructDatum`].
pub struct StructDatumView {
    pub binders: Seq<ParameterKind>,
    pub self_ty: ApplicationTyView,
    pub fields: Seq<TyView>,
}

impl View for TraitDatum {
    type V = TraitDatumView;

    open spec fn view(&self) -> TraitDatumView {
        TraitDatumView { binders: self.binders@, auto: self.auto }
    }
}

impl View for StructDatum {
    type V = StructDatumView;

    open spec fn view(&self) -> StructDatumView {
        StructDatumView {
            binders: self.binders@,
            self_ty: self.self_ty@,
            fields: tys_view(self.fields@),
        }
    }
}

impl Clone for TraitDatum {
    fn clone(&self) -> (copy: Self)
        ensures
            copy@ == self@,
    {
        TraitDatum { binders: clone_binders(&self.binders), auto: self.auto }
    }
}

impl Clone for StructDatum {
    fn clone(&self) -> (copy: Self)
        ensures
            copy@ == self@,
    {
        StructDatum {
            binders: clone_binders(&self.binders),
            self_ty: self.self_ty.clone(),
            fields: clone_tys(&self.fields),
        }
    }
}

impl TraitDatum {
    /// Whether membership in the trait is inferred from the fields of a type.
    pub fn is_auto_trait(&self) -> (auto: bool)
        ensures
            auto == self@.auto,
    {
        self.auto
    }
}

/// The database of declarations. Besides looking declarations up, it lowers
/// each of them to the clauses that it stands for, and elaborates an assumed
/// clause into the clauses that follow from it in one step.
///
/// Every answer is a function of the database and the question: the spec
/// function beside each method names it. An implementation is free in what it
/// answers, and bound to answer the same each time. A name that the database
/// has no declaration for is the caller's error: what is answered then is up
/// to the implementation.
pub trait RustIrDatabase {
    /// The declaration of a trait.
    spec fn trait_datum_of(&self, trait_id: TraitId) -> TraitDatumView;

    /// The declaration of a struct.
    spec fn struct_datum_of(&self, struct_id: StructId) -> StructDatumView;

    /// The impls registered for a trait, in order.
    spec fn impls_of(&self, trait_id: TraitId) -> Seq<ImplId>;

    /// Whether an explicit impl, positive or negative, exists of this trait for
    /// this struct.
    spec fn impl_provided(&self, trait_id: TraitId, struct_id: StructId) -> bool;

    /// The clauses that an impl is lowered to.
    spec fn impl_clauses(&self, impl_id: ImplId) -> Seq<ProgramClauseView>;

    /// The clauses that a trait declaration is lowered to.
    spec fn trait_clauses(&self, trait_id: TraitId) -> Seq<ProgramClauseView>;

    /// The clauses that a struct declaration is lowered to.
    spec fn struct_clauses(&self, struct_id: StructId) -> Seq<ProgramClauseView>;

    /// The clauses that the declaration of an associated type is lowered to.
    spec fn associated_ty_clauses(&self, type_id: TypeId) -> Seq<ProgramClauseView>;

    /// The clauses that one assumed clause directly implies.
    spec fn elaborated(&self, clause: ProgramClauseView) -> Seq<ProgramClauseView>;

    /// Looks up the declaration of a trait.
    fn trait_datum(&self, trait_id: TraitId) -> (datum: TraitDatum)
        ensures
            datum@ == self.trait_datum_of(trait_id),
    ;

    /// Looks up the declaration of a struct.
    fn struct_datum(&self, struct_id: StructId) -> (datum: StructDatum)
        ensures
            datum@ == self.struct_datum_of(struct_id),
    ;

    /// Lists the impls registered for a trait.
    fn impls_for_trait(&self, trait_id: TraitId) -> (impls: Vec<ImplId>)
        ensures
            impls@ == self.impls_of(trait_id),
    ;

    /// Says whether an impl of this trait for this struct was written out.
    fn impl_provided_for(&self, trait_id: TraitId, struct_id: StructId) -> (provided: bool)
        ensures
            provided == self.impl_provided(trait_id, struct_id),
    ;

    /// Appends the clauses of an impl.
    fn impl_to_program_clauses(&self, impl_id: ImplId, clauses: &mut Vec<ProgramClause>)
        ensures
            clauses_view(final(clauses)@) == clauses_view(old(clauses)@) + self.impl_clauses(
                impl_id,
            ),
    ;

    /// Appends the clauses of a trait declaration.
    fn trait_to_program_clauses(&self, trait_id: TraitId, clauses: &mut Vec<ProgramClause>)
        ensures
            clauses_view(final(clauses)@) == clauses_view(old(clauses)@) + self.trait_clauses(
                trait_id,
            ),
    ;

    /// Appends the clauses of a struct declaration.
    fn struct_to_program_clauses(&self, struct_id: StructId, clauses: &mut Vec<ProgramClause>)
        ensures
            clauses_view(final(clauses)@) == clauses_view(old(clauses)@) + self.struct_clauses(
                struct_id,
            ),
    ;

    /// Appends the clauses of the declaration of an associated type.
    fn associated_ty_to_program_clauses(&self, type_id: TypeId, clauses: &mut Vec<ProgramClause>)
        ensures
            clauses_view(final(clauses)@) == clauses_view(old(clauses)@)
                + self.associated_ty_clauses(type_id),
    ;

    /// The clauses that follow in one step from an assumed clause.
    fn elaborate_env_clause(&self, clause: &ProgramClause) -> (implied: Vec<ProgramClause>)
        ensures
            clauses_view(implied@) == self.elaborated(clause@),
    ;
}

} // verus!
