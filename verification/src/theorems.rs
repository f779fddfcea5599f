//! What holds of every answer of the engine.

use crate::clauses::{goal_clauses, is_answer, matching};
use crate::closure::{
    derivable_within, env_closure, implied_by, lemma_closure_reached, lists_once,
};
use crate::could_match::clause_could_match;
use crate::database::RustIrDatabase;
use crate::goal::{DomainGoalView, ProgramClauseView};
use crate::substitution::{lemma_unified_goals_could_match, Substitution};
use vstd::multiset::{
    lemma_insert_increases_count_by_1, lemma_insert_other_elements_unchanged, Multiset,
};
use vstd::prelude::*;
use vstd::seq_lib::{lemma_multiset_commutative, to_multiset_build, to_multiset_contains};

verus! {

/// Putting a clause into a bag adds one to its count and leaves the others.
proof fn lemma_insert_count(
    bag: Multiset<ProgramClauseView>,
    added: ProgramClauseView,
    clause: ProgramClauseView,
)
    ensures
        bag.insert(added).count(clause) == if added == clause {
            bag.count(clause) + 1
        } else {
            bag.count(clause)
        },
{
    if added == clause {
        lemma_insert_increases_count_by_1(bag, added);
    } else {
        lemma_insert_other_elements_unchanged(bag, added, clause);
    }
}

/// How often a clause occurs among those of a list that pass a test: as
/// often as in the list if it passes, and not at all if it fails.
pub proof fn lemma_filter_count(
    listing: Seq<ProgramClauseView>,
    test: spec_fn(ProgramClauseView) -> bool,
    clause: ProgramClauseView,
)
    ensures
        listing.filter(test).to_multiset().count(clause) == if test(clause) {
            listing.to_multiset().count(clause)
        } else {
            0
        },
    decreases listing.len(),
{
    if listing.len() == 0 {
        assert(listing.filter(test) =~= Seq::<ProgramClauseView>::empty()) by {
            reveal(Seq::filter);
        }
        to_multiset_contains(listing, clause);
        to_multiset_contains(listing.filter(test), clause);
    } else {
        let front = listing.drop_last();
        let last = listing.last();
        assert(listing =~= front.push(last));
        lemma_filter_count(front, test, clause);
        Seq::lemma_filter_push(front, last, test);
        to_multiset_build(front, last);
        lemma_insert_count(front.to_multiset(), last, clause);
        if test(last) {
            to_multiset_build(front.filter(test), last);
            lemma_insert_count(front.filter(test).to_multiset(), last, clause);
        }
    }
}

/// Two lists that hold the same clauses, each once, hold each as often.
pub proof fn lemma_listings_agree(
    first: Seq<ProgramClauseView>,
    second: Seq<ProgramClauseView>,
    members: Set<ProgramClauseView>,
)
    requires
        lists_once(first, members),
        lists_once(second, members),
    ensures
        first.to_multiset() == second.to_multiset(),
{
    first.lemma_multiset_has_no_duplicates();
    second.lemma_multiset_has_no_duplicates();
    assert forall|clause: ProgramClauseView|
        first.to_multiset().count(clause) == second.to_multiset().count(clause) by {
        to_multiset_contains(first, clause);
        to_multiset_contains(second, clause);
        assert(first.contains(clause) <==> first.to_set().contains(clause));
        assert(second.contains(clause) <==> second.to_set().contains(clause));
    }
    assert(first.to_multiset() =~= second.to_multiset());
}

/// The engine is a function of the database, the environment and the goal:
/// any two answers to one question hold the same clauses, each as often.
/// They may differ in the order of what follows from the environment.
pub proof fn lemma_answers_agree<D: RustIrDatabase>(
    db: &D,
    environment: Seq<ProgramClauseView>,
    goal: DomainGoalView,
    first: Seq<ProgramClauseView>,
    second: Seq<ProgramClauseView>,
)
    requires
        is_answer(db, environment, goal, first),
        is_answer(db, environment, goal, second),
    ensures
        first.to_multiset() == second.to_multiset(),
{
    let closure = env_closure(db, environment.to_set());
    let declared = goal_clauses(db, goal);
    let added1 = choose|added: Seq<ProgramClauseView>|
        #[trigger] lists_once(added, closure) && first == (declared + added).filter(
            matching(goal),
        );
    let added2 = choose|added: Seq<ProgramClauseView>|
        #[trigger] lists_once(added, closure) && second == (declared + added).filter(
            matching(goal),
        );
    lemma_listings_agree(added1, added2, closure);
    lemma_multiset_commutative(declared, added1);
    lemma_multiset_commutative(declared, added2);
    assert forall|clause: ProgramClauseView|
        first.to_multiset().count(clause) == second.to_multiset().count(clause) by {
        lemma_filter_count(declared + added1, matching(goal), clause);
        lemma_filter_count(declared + added2, matching(goal), clause);
    }
    assert(first.to_multiset() =~= second.to_multiset());
}

/// An answer holds every candidate that could match the goal, and nothing
/// else: a clause is in it exactly when the declarations give it for the goal
/// or it follows from the environment, and its consequence could match the
/// goal. The filter drops a candidate only where it cannot match.
pub proof fn lemma_answer_is_complete<D: RustIrDatabase>(
    db: &D,
    environment: Seq<ProgramClauseView>,
    goal: DomainGoalView,
    answer: Seq<ProgramClauseView>,
    clause: ProgramClauseView,
)
    requires
        is_answer(db, environment, goal, answer),
    ensures
        answer.contains(clause) <==> {
            &&& goal_clauses(db, goal).contains(clause) || env_closure(
                db,
                environment.to_set(),
            ).contains(clause)
            &&& clause_could_match(clause, goal)
        },
{
    let closure = env_closure(db, environment.to_set());
    let declared = goal_clauses(db, goal);
    let added = choose|added: Seq<ProgramClauseView>|
        #[trigger] lists_once(added, closure) && answer == (declared + added).filter(
            matching(goal),
        );
    let candidates = declared + added;
    assert(added.contains(clause) <==> closure.contains(clause)) by {
        assert(added.contains(clause) <==> added.to_set().contains(clause));
    }
    assert(candidates.contains(clause) <==> declared.contains(clause) || added.contains(clause))
        by {
        if candidates.contains(clause) {
            let i = choose|i: int| 0 <= i < candidates.len() && candidates[i] == clause;
            if i < declared.len() {
                assert(declared[i] == clause);
            } else {
                assert(added[i - declared.len()] == clause);
            }
        }
        if declared.contains(clause) {
            let i = choose|i: int| 0 <= i < declared.len() && declared[i] == clause;
            assert(candidates[i] == clause);
        }
        if added.contains(clause) {
            let i = choose|i: int| 0 <= i < added.len() && added[i] == clause;
            assert(candidates[i + declared.len()] == clause);
        }
    }
    to_multiset_contains(answer, clause);
    to_multiset_contains(candidates, clause);
    lemma_filter_count(candidates, matching(goal), clause);
}

/// The engine never leaves out a clause that applies: a candidate whose
/// consequence some substitution of variables makes equal to the goal is in
/// every answer. The answer may hold more, never less.
pub proof fn lemma_unifiable_candidate_is_kept<D: RustIrDatabase>(
    db: &D,
    environment: Seq<ProgramClauseView>,
    goal: DomainGoalView,
    answer: Seq<ProgramClauseView>,
    clause: ProgramClauseView,
    on_clause: Substitution,
    on_goal: Substitution,
)
    requires
        is_answer(db, environment, goal, answer),
        goal_clauses(db, goal).contains(clause) || env_closure(db, environment.to_set()).contains(
            clause,
        ),
        on_clause.keeps_heads(),
        on_goal.keeps_heads(),
        on_clause.goal(clause.consequence) == on_goal.goal(goal),
    ensures
        answer.contains(clause),
{
    lemma_unified_goals_could_match(on_clause, on_goal, clause.consequence, goal);
    lemma_answer_is_complete(db, environment, goal, answer, clause);
}

/// Where the first round of elaboration implies nothing beyond itself, the
/// closure is that round: what the seeds imply, without the seeds that
/// nothing implies.
pub proof fn lemma_closure_of_one_round<D: RustIrDatabase>(
    db: &D,
    seed: ProgramClauseView,
    implied: ProgramClauseView,
)
    requires
        db.elaborated(seed) == seq![implied],
        db.elaborated(implied).to_set().subset_of(set![implied]),
    ensures
        env_closure(db, set![seed]) == set![implied],
{
    let seeds = set![seed];
    let round = implied_by(db, seeds);
    assert(db.elaborated(seed)[0] == implied);
    assert(seeds.contains(seed) && db.elaborated(seed).contains(implied));
    assert(round.contains(implied));
    assert forall|clause: ProgramClauseView| round.contains(clause) implies clause == implied by {
        let premise = choose|premise: ProgramClauseView|
            seeds.contains(premise) && #[trigger] db.elaborated(premise).contains(clause);
        assert(premise == seed);
    }
    assert(round =~= set![implied]);
    assert forall|clause: ProgramClauseView| implied_by(db, round).contains(clause) implies round.contains(
        clause,
    ) by {
        let premise = choose|premise: ProgramClauseView|
            round.contains(premise) && #[trigger] db.elaborated(premise).contains(clause);
        assert(db.elaborated(implied).to_set().contains(clause));
    }
    lemma_closure_reached(db, seeds, 0);
}

/// Where two clauses imply each other, the closure of either holds both: a
/// seed that follows from what it implies is in the closure, once.
pub proof fn lemma_closure_of_a_cycle<D: RustIrDatabase>(
    db: &D,
    seed: ProgramClauseView,
    implied: ProgramClauseView,
)
    requires
        db.elaborated(seed) == seq![implied],
        db.elaborated(implied) == seq![seed],
    ensures
        env_closure(db, set![seed]) == set![seed, implied],
{
    let seeds = set![seed];
    let round = implied_by(db, seeds);
    assert(db.elaborated(seed)[0] == implied);
    assert(db.elaborated(implied)[0] == seed);
    assert(seeds.contains(seed) && db.elaborated(seed).contains(implied));
    assert(round.contains(implied));
    assert forall|clause: ProgramClauseView| round.contains(clause) implies clause == implied by {
        let premise = choose|premise: ProgramClauseView|
            seeds.contains(premise) && #[trigger] db.elaborated(premise).contains(clause);
        assert(premise == seed);
    }
    assert(round =~= set![implied]);
    let both = derivable_within(db, seeds, 1);
    assert(round.contains(implied) && db.elaborated(implied).contains(seed));
    assert(implied_by(db, round).contains(seed));
    assert forall|clause: ProgramClauseView| implied_by(db, round).contains(clause) implies clause
        == seed by {
        let premise = choose|premise: ProgramClauseView|
            round.contains(premise) && #[trigger] db.elaborated(premise).contains(clause);
        assert(premise == implied);
    }
    assert(implied_by(db, round) =~= set![seed]);
    assert(derivable_within(db, seeds, 0) == round);
    assert(both == round.union(implied_by(db, round)));
    assert(both =~= set![seed, implied]);
    assert forall|clause: ProgramClauseView| implied_by(db, both).contains(clause) implies both.contains(
        clause,
    ) by {
        let premise = choose|premise: ProgramClauseView|
            both.contains(premise) && #[trigger] db.elaborated(premise).contains(clause);
        if premise == seed {
            assert(clause == implied);
        } else {
            assert(clause == seed);
        }
    }
    lemma_closure_reached(db, seeds, 1);
}

} // verus!
