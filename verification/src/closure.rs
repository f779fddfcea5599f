//! What follows from a set of assumed clauses: the closure under elaboration.

use crate::database::RustIrDatabase;
use crate::goal::ProgramClauseView;
use vstd::prelude::*;

verus! {

/// The clauses that some clause of `from` directly implies.
pub open spec fn implied_by<D: RustIrDatabase>(db: &D, from: Set<ProgramClauseView>) -> Set<
    ProgramClauseView,
> {
    Set::new(
        |clause: ProgramClauseView|
            exists|premise: ProgramClauseView|
                from.contains(premise) && #[trigger] db.elaborated(premise).contains(clause),
    )
}

/// The clauses that follow from `seeds` in one step or more, and in at most
/// `rounds + 1`.
pub open spec fn derivable_within<D: RustIrDatabase>(
    db: &D,
    seeds: Set<ProgramClauseView>,
    rounds: nat,
) -> Set<ProgramClauseView>
    decreases rounds,
{
    if rounds == 0 {
        implied_by(db, seeds)
    } else {
        let earlier = derivable_within(db, seeds, (rounds - 1) as nat);
        earlier.union(implied_by(db, earlier))
    }
}

/// The clauses that follow from `seeds` in one step or more. A seed is among
/// them only where it follows from some seed.
pub open spec fn env_closure<D: RustIrDatabase>(db: &D, seeds: Set<ProgramClauseView>) -> Set<
    ProgramClauseView,
> {
    Set::new(
        |clause: ProgramClauseView|
            exists|rounds: nat| #[trigger] derivable_within(db, seeds, rounds).contains(clause),
    )
}

/// Whether `listing` holds every member of `members`, each once, and nothing
/// else.
pub open spec fn lists_once(listing: Seq<ProgramClauseView>, members: Set<ProgramClauseView>) -> bool {
    listing.no_duplicates() && listing.to_set() == members
}

/// More rounds derive no less.
pub proof fn lemma_derivable_grows<D: RustIrDatabase>(
    db: &D,
    seeds: Set<ProgramClauseView>,
    fewer: nat,
    more: nat,
)
    requires
        fewer <= more,
    ensures
        derivable_within(db, seeds, fewer).subset_of(derivable_within(db, seeds, more)),
    decreases more,
{
    if fewer < more {
        lemma_derivable_grows(db, seeds, fewer, (more - 1) as nat);
    }
}

/// Once a round derives nothing new, no later round does.
pub proof fn lemma_derivable_settles<D: RustIrDatabase>(
    db: &D,
    seeds: Set<ProgramClauseView>,
    rounds: nat,
    later: nat,
)
    requires
        implied_by(db, derivable_within(db, seeds, rounds)).subset_of(
            derivable_within(db, seeds, rounds),
        ),
        rounds <= later,
    ensures
        derivable_within(db, seeds, later) == derivable_within(db, seeds, rounds),
    decreases later,
{
    if rounds < later {
        lemma_derivable_settles(db, seeds, rounds, (later - 1) as nat);
        assert(derivable_within(db, seeds, later) =~= derivable_within(db, seeds, rounds));
    }
}

/// Once a round derives nothing new, what has been derived is the closure.
pub proof fn lemma_closure_reached<D: RustIrDatabase>(
    db: &D,
    seeds: Set<ProgramClauseView>,
    rounds: nat,
)
    requires
        implied_by(db, derivable_within(db, seeds, rounds)).subset_of(
            derivable_within(db, seeds, rounds),
        ),
    ensures
        env_closure(db, seeds) == derivable_within(db, seeds, rounds),
{
    let reached = derivable_within(db, seeds, rounds);
    assert forall|clause: ProgramClauseView| env_closure(db, seeds).contains(clause) implies reached.contains(
        clause,
    ) by {
        let n = choose|n: nat| #[trigger] derivable_within(db, seeds, n).contains(clause);
        if n <= rounds {
            lemma_derivable_grows(db, seeds, n, rounds);
        } else {
            lemma_derivable_settles(db, seeds, rounds, n);
        }
    }
    assert(env_closure(db, seeds) =~= reached);
}

/// Every round derives only members of the closure.
pub proof fn lemma_derivable_in_closure<D: RustIrDatabase>(
    db: &D,
    seeds: Set<ProgramClauseView>,
    rounds: nat,
)
    ensures
        derivable_within(db, seeds, rounds).subset_of(env_closure(db, seeds)),
{
}

/// What round `rounds` derives that no earlier round did.
pub open spec fn frontier<D: RustIrDatabase>(
    db: &D,
    seeds: Set<ProgramClauseView>,
    rounds: nat,
) -> Set<ProgramClauseView> {
    if rounds == 0 {
        derivable_within(db, seeds, 0)
    } else {
        derivable_within(db, seeds, rounds).difference(
            derivable_within(db, seeds, (rounds - 1) as nat),
        )
    }
}

/// Whether some round up to `rounds` derives nothing new, so that the closure
/// is reached by then.
pub open spec fn settles_within<D: RustIrDatabase>(
    db: &D,
    seeds: Set<ProgramClauseView>,
    rounds: nat,
) -> bool {
    exists|round: nat|
        round <= rounds && #[trigger] frontier(db, seeds, round) == Set::<
            ProgramClauseView,
        >::empty()
}

/// All that the clauses derived by a round imply is derived by that round or
/// implied by its frontier.
pub proof fn lemma_implied_by_frontier<D: RustIrDatabase>(
    db: &D,
    seeds: Set<ProgramClauseView>,
    rounds: nat,
)
    ensures
        implied_by(db, derivable_within(db, seeds, rounds)).subset_of(
            derivable_within(db, seeds, rounds).union(
                implied_by(db, frontier(db, seeds, rounds)),
            ),
        ),
{
    let derived = derivable_within(db, seeds, rounds);
    let new = frontier(db, seeds, rounds);
    assert forall|clause: ProgramClauseView| implied_by(db, derived).contains(clause) implies derived.union(
        implied_by(db, new),
    ).contains(clause) by {
        let premise = choose|premise: ProgramClauseView|
            derived.contains(premise) && #[trigger] db.elaborated(premise).contains(clause);
        if new.contains(premise) {
            assert(implied_by(db, new).contains(clause));
        } else {
            let earlier = derivable_within(db, seeds, (rounds - 1) as nat);
            assert(earlier.contains(premise));
            assert(implied_by(db, earlier).contains(clause));
        }
    }
}

/// A round whose frontier is empty has derived the closure.
pub proof fn lemma_settled<D: RustIrDatabase>(db: &D, seeds: Set<ProgramClauseView>, rounds: nat)
    requires
        frontier(db, seeds, rounds) == Set::<ProgramClauseView>::empty(),
    ensures
        env_closure(db, seeds) == derivable_within(db, seeds, rounds),
{
    let derived = derivable_within(db, seeds, rounds);
    lemma_implied_by_frontier(db, seeds, rounds);
    assert forall|clause: ProgramClauseView| implied_by(db, derived).contains(clause) implies derived.contains(
        clause,
    ) by {
        assert(!implied_by(db, frontier(db, seeds, rounds)).contains(clause));
    }
    lemma_closure_reached(db, seeds, rounds);
}

} // verus!
