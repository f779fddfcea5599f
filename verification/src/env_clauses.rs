//! The clauses that follow from the environment, gathered round by round.

use crate::clause_set::{set_clone, set_contents, set_drain, set_insert, set_is_empty, set_new};
use crate::closure::{
    derivable_within, env_closure, frontier, implied_by, lemma_derivable_in_closure,
    lemma_implied_by_frontier, lemma_settled, lists_once, settles_within,
};
use crate::database::RustIrDatabase;
use crate::goal::{clauses_view, Environment, ProgramClause, ProgramClauseView};
use rustc_hash::FxHashSet;
use vstd::prelude::*;
use vstd::set_lib::{lemma_len_subset, lemma_set_subset_finite};

verus! {

/// One more element of a list adds that element to the set of the list.
proof fn lemma_take_to_set(listing: Seq<ProgramClauseView>, n: int)
    requires
        0 <= n < listing.len(),
    ensures
        listing.take(n + 1).to_set() == listing.take(n).to_set().insert(listing[n]),
{
    let longer = listing.take(n + 1);
    let shorter = listing.take(n);
    assert forall|clause: ProgramClauseView| longer.to_set().contains(clause) implies shorter.to_set().insert(
        listing[n],
    ).contains(clause) by {
        let i = choose|i: int| 0 <= i < longer.len() && longer[i] == clause;
        if i < n {
            assert(shorter[i] == clause);
        }
    }
    assert forall|clause: ProgramClauseView|
        shorter.to_set().insert(listing[n]).contains(clause) implies longer.to_set().contains(
        clause,
    ) by {
        if clause == listing[n] {
            assert(longer[n] == clause);
        } else {
            let i = choose|i: int| 0 <= i < shorter.len() && shorter[i] == clause;
            assert(longer[i] == clause);
        }
    }
    assert(longer.to_set() =~= shorter.to_set().insert(listing[n]));
}

/// One more premise adds what it implies.
proof fn lemma_implied_by_one_more<D: RustIrDatabase>(
    db: &D,
    premises: Seq<ProgramClauseView>,
    n: int,
)
    requires
        0 <= n < premises.len(),
    ensures
        implied_by(db, premises.take(n + 1).to_set()) == implied_by(
            db,
            premises.take(n).to_set(),
        ).union(db.elaborated(premises[n]).to_set()),
{
    lemma_take_to_set(premises, n);
    let earlier = premises.take(n).to_set();
    let now = premises.take(n + 1).to_set();
    let found = db.elaborated(premises[n]);
    assert forall|clause: ProgramClauseView|
        implied_by(db, now).contains(clause) implies implied_by(db, earlier).union(
        found.to_set(),
    ).contains(clause) by {
        let premise = choose|premise: ProgramClauseView|
            now.contains(premise) && #[trigger] db.elaborated(premise).contains(clause);
        if premise != premises[n] {
            assert(earlier.contains(premise));
        }
    }
    assert forall|clause: ProgramClauseView|
        implied_by(db, earlier).union(found.to_set()).contains(clause) implies implied_by(
        db,
        now,
    ).contains(clause) by {
        if found.to_set().contains(clause) {
            assert(now.contains(premises[n]));
            assert(db.elaborated(premises[n]).contains(clause));
        } else {
            let premise = choose|premise: ProgramClauseView|
                earlier.contains(premise) && #[trigger] db.elaborated(premise).contains(clause);
            assert(now.contains(premise));
        }
    }
    assert(implied_by(db, now) =~= implied_by(db, earlier).union(found.to_set()));
}

/// Adds to `out` every clause that a clause of `in_clauses` directly implies.
pub fn elaborate_env_clauses<D: RustIrDatabase>(
    db: &D,
    in_clauses: &Vec<ProgramClause>,
    out: &mut FxHashSet<ProgramClause>,
)
    ensures
        set_contents(final(out)) == set_contents(old(out)).union(
            implied_by(db, clauses_view(in_clauses@).to_set()),
        ),
{
    let ghost premises = clauses_view(in_clauses@);
    let mut i: usize = 0;
    proof {
        assert(set_contents(out) =~= set_contents(out).union(
            implied_by(db, premises.take(0).to_set()),
        ));
    }
    while i < in_clauses.len()
        invariant
            i <= in_clauses.len(),
            premises == clauses_view(in_clauses@),
            set_contents(out) == set_contents(old(out)).union(
                implied_by(db, premises.take(i as int).to_set()),
            ),
        decreases in_clauses.len() - i,
    {
        let implied = db.elaborate_env_clause(&in_clauses[i]);
        let ghost found = clauses_view(implied@);
        let ghost before = set_contents(out);
        let mut j: usize = 0;
        proof {
            assert(before =~= before.union(found.take(0).to_set()));
        }
        while j < implied.len()
            invariant
                j <= implied.len(),
                found == clauses_view(implied@),
                set_contents(out) == before.union(found.take(j as int).to_set()),
            decreases implied.len() - j,
        {
            let clause = implied[j].clone();
            proof {
                lemma_take_to_set(found, j as int);
                assert(before.union(found.take(j as int).to_set()).insert(clause@)
                    =~= before.union(found.take(j + 1).to_set()));
            }
            set_insert(out, clause);
            j += 1;
        }
        proof {
            assert(found.take(implied.len() as int) =~= found);
            lemma_implied_by_one_more(db, premises, i as int);
            assert(set_contents(out) =~= set_contents(old(out)).union(
                implied_by(db, premises.take(i + 1).to_set()),
            ));
        }
        i += 1;
    }
    assert(premises.take(in_clauses.len() as int) =~= premises);
}

/// Puts the members of `found` that `closure` does not hold yet into both
/// `closure` and `last_round`.
fn keep_unseen(
    found: &Vec<ProgramClause>,
    closure: &mut FxHashSet<ProgramClause>,
    last_round: &mut FxHashSet<ProgramClause>,
)
    requires
        set_contents(old(last_round)) == Set::<ProgramClauseView>::empty(),
    ensures
        set_contents(final(closure)) == set_contents(old(closure)).union(
            clauses_view(found@).to_set(),
        ),
        set_contents(final(last_round)) == clauses_view(found@).to_set().difference(
            set_contents(old(closure)),
        ),
{
    let ghost seen = set_contents(closure);
    let ghost listing = clauses_view(found@);
    let mut i: usize = 0;
    proof {
        assert(seen =~= seen.union(listing.take(0).to_set()));
        assert(set_contents(last_round) =~= listing.take(0).to_set().difference(seen));
    }
    while i < found.len()
        invariant
            i <= found.len(),
            listing == clauses_view(found@),
            set_contents(closure) == seen.union(listing.take(i as int).to_set()),
            set_contents(last_round) == listing.take(i as int).to_set().difference(seen),
        decreases found.len() - i,
    {
        proof {
            lemma_take_to_set(listing, i as int);
        }
        if set_insert(closure, found[i].clone()) {
            set_insert(last_round, found[i].clone());
        }
        proof {
            let now = listing.take(i + 1).to_set();
            assert(set_contents(closure) =~= seen.union(now));
            assert(set_contents(last_round) =~= now.difference(seen));
        }
        i += 1;
    }
    assert(listing.take(found.len() as int) =~= listing);
}

/// The first round: what the clauses of the environment imply, as the
/// frontier and, in the set returned, as the closure so far.
fn first_round<D: RustIrDatabase>(
    db: &D,
    environment: &Environment,
    last_round: &mut FxHashSet<ProgramClause>,
) -> (closure: FxHashSet<ProgramClause>)
    requires
        set_contents(old(last_round)) == Set::<ProgramClauseView>::empty(),
    ensures
        set_contents(&closure) == derivable_within(db, environment@.to_set(), 0),
        set_contents(final(last_round)) == frontier(db, environment@.to_set(), 0),
{
    elaborate_env_clauses(db, &environment.clauses, last_round);
    proof {
        assert(set_contents(last_round) =~= derivable_within(db, environment@.to_set(), 0));
    }
    set_clone(last_round)
}

/// One round: elaborates the frontier, adds what is new to the closure, and
/// leaves what is new as the next frontier.
fn next_round<D: RustIrDatabase>(
    db: &D,
    Ghost(seeds): Ghost<Set<ProgramClauseView>>,
    Ghost(rounds): Ghost<nat>,
    closure: &mut FxHashSet<ProgramClause>,
    last_round: &mut FxHashSet<ProgramClause>,
    scratch: &mut FxHashSet<ProgramClause>,
)
    requires
        set_contents(old(closure)) == derivable_within(db, seeds, rounds),
        set_contents(old(last_round)) == frontier(db, seeds, rounds),
        set_contents(old(scratch)) == Set::<ProgramClauseView>::empty(),
    ensures
        set_contents(final(closure)) == derivable_within(db, seeds, rounds + 1),
        set_contents(final(last_round)) == frontier(db, seeds, rounds + 1),
        set_contents(final(scratch)) == Set::<ProgramClauseView>::empty(),
{
    let ghost seen = set_contents(closure);
    let ghost new = set_contents(last_round);
    let members = set_drain(last_round);
    elaborate_env_clauses(db, &members, scratch);
    let found = set_drain(scratch);
    keep_unseen(&found, closure, last_round);
    proof {
        let step = implied_by(db, new);
        assert(clauses_view(found@).to_set() =~= step);
        lemma_implied_by_frontier(db, seeds, rounds);
        assert forall|clause: ProgramClauseView| step.contains(clause) implies implied_by(
            db,
            seen,
        ).contains(clause) by {
            let premise = choose|premise: ProgramClauseView|
                new.contains(premise) && #[trigger] db.elaborated(premise).contains(clause);
            assert(seen.contains(premise));
        }
        assert(set_contents(closure) =~= derivable_within(db, seeds, rounds + 1));
        assert(set_contents(last_round) =~= frontier(db, seeds, rounds + 1));
    }
}

/// Appends what follows from the clauses of the environment: the closure of
/// those clauses under elaboration, each member once, without the clauses of
/// the environment themselves (unless they follow from one of them).
///
/// The closure is gathered round by round until a round finds nothing new,
/// which comes about when the closure is finite.
pub fn program_clauses_for_env<D: RustIrDatabase>(
    db: &D,
    environment: &Environment,
    clauses: &mut Vec<ProgramClause>,
)
    requires
        env_closure(db, environment@.to_set()).finite(),
    ensures
        exists|added: Seq<ProgramClauseView>|
            #[trigger] lists_once(added, env_closure(db, environment@.to_set()))
                && clauses_view(final(clauses)@) == clauses_view(old(clauses)@) + added,
{
    let ghost seeds = environment@.to_set();
    let ghost limit = env_closure(db, seeds);
    let mut last_round = set_new();
    let mut closure = first_round(db, environment, &mut last_round);
    let mut scratch = set_new();
    let ghost mut rounds: nat = 0;
    while !set_is_empty(&last_round)
        invariant
            seeds == environment@.to_set(),
            limit == env_closure(db, seeds),
            limit.finite(),
            set_contents(&scratch) == Set::<ProgramClauseView>::empty(),
            set_contents(&closure) == derivable_within(db, seeds, rounds),
            set_contents(&last_round) == frontier(db, seeds, rounds),
        decreases
                limit.len() - set_contents(&closure).len(),
                (if set_contents(&last_round) == Set::<ProgramClauseView>::empty() {
                    0int
                } else {
                    1int
                }),
    {
        let ghost seen = set_contents(&closure);
        next_round(db, Ghost(seeds), Ghost(rounds), &mut closure, &mut last_round, &mut scratch);
        proof {
            let grown = set_contents(&closure);
            let new = set_contents(&last_round);
            lemma_derivable_in_closure(db, seeds, rounds + 1);
            lemma_set_subset_finite(limit, grown);
            lemma_len_subset(grown, limit);
            lemma_len_subset(seen, grown);
            if new != Set::<ProgramClauseView>::empty() {
                assert(!(new =~= Set::<ProgramClauseView>::empty()));
                let unseen = choose|clause: ProgramClauseView| new.contains(clause);
                assert(seen.insert(unseen).subset_of(grown));
                lemma_len_subset(seen.insert(unseen), grown);
            }
            rounds = rounds + 1;
        }
    }
    proof {
        lemma_settled(db, seeds, rounds);
    }
    let mut members = set_drain(&mut closure);
    proof {
        let added = clauses_view(members@);
        assert(lists_once(added, env_closure(db, environment@.to_set())));
        assert(clauses_view(clauses@ + members@) =~= clauses_view(clauses@) + added);
    }
    clauses.append(&mut members);
}

/// As [`program_clauses_for_env`], for any environment, within a number of
/// rounds: appends the closure and says `true` where some round up to
/// `max_rounds` finds nothing new; else appends nothing and says `false`.
pub fn program_clauses_for_env_within<D: RustIrDatabase>(
    db: &D,
    environment: &Environment,
    max_rounds: usize,
    clauses: &mut Vec<ProgramClause>,
) -> (complete: bool)
    ensures
        complete == settles_within(db, environment@.to_set(), max_rounds as nat),
        complete ==> exists|added: Seq<ProgramClauseView>|
            #[trigger] lists_once(added, env_closure(db, environment@.to_set()))
                && clauses_view(final(clauses)@) == clauses_view(old(clauses)@) + added,
        !complete ==> *final(clauses) == *old(clauses),
{
    let ghost seeds = environment@.to_set();
    let mut last_round = set_new();
    let mut closure = first_round(db, environment, &mut last_round);
    let mut scratch = set_new();
    let mut rounds: usize = 0;
    while rounds < max_rounds && !set_is_empty(&last_round)
        invariant
            seeds == environment@.to_set(),
            rounds <= max_rounds,
            set_contents(&scratch) == Set::<ProgramClauseView>::empty(),
            set_contents(&closure) == derivable_within(db, seeds, rounds as nat),
            set_contents(&last_round) == frontier(db, seeds, rounds as nat),
            forall|round: nat|
                round < rounds ==> #[trigger] frontier(db, seeds, round) != Set::<
                    ProgramClauseView,
                >::empty(),
        decreases max_rounds - rounds,
    {
        next_round(
            db,
            Ghost(seeds),
            Ghost(rounds as nat),
            &mut closure,
            &mut last_round,
            &mut scratch,
        );
        rounds += 1;
    }
    if !set_is_empty(&last_round) {
        return false;
    }
    proof {
        assert(frontier(db, seeds, rounds as nat) == Set::<ProgramClauseView>::empty());
        lemma_settled(db, seeds, rounds as nat);
    }
    let mut members = set_drain(&mut closure);
    proof {
        let added = clauses_view(members@);
        assert(lists_once(added, env_closure(db, environment@.to_set())));
        assert(clauses_view(clauses@ + members@) =~= clauses_view(clauses@) + added);
    }
    clauses.append(&mut members);
    true
}

} // verus!
