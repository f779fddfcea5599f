//! The deduplicating set of clauses that the closure of the environment is
//! gathered in: a hash set with the Fx hasher.
//!
//! Two clauses are the same member when they are structurally equal, bound
//! variables included: the set compares and hashes with the derived `Eq` and
//! `Hash` of [`ProgramClause`], and contracts speak of the clauses' values.

use crate::goal::{clauses_view, ProgramClause, ProgramClauseView};
use core::hash::BuildHasherDefault;
use rustc_hash::{FxHashSet, FxHasher};
use vstd::prelude::*;

verus! {

/// `rustc_hash::FxHasher`, the hasher of the set. Nothing is said of it.
#[verifier::external_type_specification]
#[verifier::external_body]
pub struct ExFxHasher(FxHasher);

/// `core::hash::BuildHasherDefault`, which makes the set's hashers. Nothing
/// is said of it.
#[verifier::external_type_specification]
#[verifier::external_body]
#[verifier::reject_recursive_types(H)]
pub struct ExBuildHasherDefault<H>(BuildHasherDefault<H>);

/// The values of the clauses that a set holds.
pub uninterp spec fn set_contents(set: &FxHashSet<ProgramClause>) -> Set<ProgramClauseView>;

/// `FxHashSet::default`: a new set, which holds nothing.
#[verifier::external_body]
pub(crate) fn set_new() -> (set: FxHashSet<ProgramClause>)
    ensures
        set_contents(&set) == Set::<ProgramClauseView>::empty(),
{
    FxHashSet::default()
}

/// `HashSet::insert`: afterwards the set holds the clause; the answer is
/// whether it did not hold an equal one before.
#[verifier::external_body]
pub(crate) fn set_insert(set: &mut FxHashSet<ProgramClause>, clause: ProgramClause) -> (fresh: bool)
    ensures
        set_contents(final(set)) == set_contents(old(set)).insert(clause@),
        fresh == !set_contents(old(set)).contains(clause@),
{
    set.insert(clause)
}

/// `HashSet::is_empty`: whether the set holds nothing.
#[verifier::external_body]
pub(crate) fn set_is_empty(set: &FxHashSet<ProgramClause>) -> (empty: bool)
    ensures
        empty == (set_contents(set) == Set::<ProgramClauseView>::empty()),
{
    set.is_empty()
}

/// `HashSet::clone`: a set that holds the same clauses.
#[verifier::external_body]
pub(crate) fn set_clone(set: &FxHashSet<ProgramClause>) -> (copy: FxHashSet<ProgramClause>)
    ensures
        set_contents(&copy) == set_contents(set),
{
    set.clone()
}

/// `HashSet::drain`, collected: every clause that the set held, each once, in
/// the order in which the set is walked; the set is left empty.
#[verifier::external_body]
pub(crate) fn set_drain(set: &mut FxHashSet<ProgramClause>) -> (members: Vec<ProgramClause>)
    ensures
        set_contents(final(set)) == Set::<ProgramClauseView>::empty(),
        clauses_view(members@).no_duplicates(),
        clauses_view(members@).to_set() == set_contents(old(set)),
{
    set.drain().collect()
}

} // verus!
