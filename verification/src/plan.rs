//! Each operation's plan: the ordered steps it runs, and the fail-fast
//! verdict of a run given each step's reported success.

use crate::action::{step_result, Action, Operation, SyncError};
use vstd::prelude::*;

verus! {

/// The clean operation's plan: one forced recursive delete of all three
/// artifacts.
pub open spec fn clean_plan() -> Seq<Action> {
    seq![Action::RemoveArtifacts]
}

/// The hash-generation plan: query the working clone's checked-out revision,
/// then write the trimmed result to the marker file.
pub open spec fn generate_hash_plan() -> Seq<Action> {
    seq![Action::QueryHead, Action::WriteHashFile]
}

/// The forced-update plan: clone, fetch, check out the pinned tag, then
/// generate the hash marker.
pub open spec fn force_update_plan() -> Seq<Action> {
    seq![Action::CloneRepo, Action::FetchAll, Action::CheckoutTag] + generate_hash_plan()
}

/// The copy plan: one recursive copy of the conformance subdirectory out of
/// the working clone.
pub open spec fn copy_plan() -> Seq<Action> {
    seq![Action::CopyFixtures]
}

/// The composite update plan: clean, then forced update, then copy.
pub open spec fn update_plan() -> Seq<Action> {
    clean_plan() + force_update_plan() + copy_plan()
}

/// The plan of each operation.
pub open spec fn plan_spec(op: Operation) -> Seq<Action> {
    match op {
        Operation::Clean => clean_plan(),
        Operation::GenerateHash => generate_hash_plan(),
        Operation::ForceUpdate => force_update_plan(),
        Operation::Copy => copy_plan(),
        Operation::Update => update_plan(),
    }
}

/// The steps of the clean operation.
pub fn clean() -> (p: Vec<Action>)
    ensures
        p@ == clean_plan(),
{
    let mut p: Vec<Action> = Vec::new();
    p.push(Action::RemoveArtifacts);
    proof {
        assert(p@ =~= clean_plan());
    }
    p
}

/// The steps of the hash-generation operation.
pub fn generate_current_hash() -> (p: Vec<Action>)
    ensures
        p@ == generate_hash_plan(),
{
    let mut p: Vec<Action> = Vec::new();
    p.push(Action::QueryHead);
    p.push(Action::WriteHashFile);
    proof {
        assert(p@ =~= generate_hash_plan());
    }
    p
}

/// The steps of the forced-update operation.
pub fn update_conformance_tests() -> (p: Vec<Action>)
    ensures
        p@ == force_update_plan(),
{
    let mut p: Vec<Action> = Vec::new();
    p.push(Action::CloneRepo);
    p.push(Action::FetchAll);
    p.push(Action::CheckoutTag);
    let mut tail = generate_current_hash();
    p.append(&mut tail);
    proof {
        assert(p@ =~= force_update_plan());
    }
    p
}

/// The steps of the copy operation.
pub fn copy_conformance_tests() -> (p: Vec<Action>)
    ensures
        p@ == copy_plan(),
{
    let mut p: Vec<Action> = Vec::new();
    p.push(Action::CopyFixtures);
    proof {
        assert(p@ =~= copy_plan());
    }
    p
}

/// The steps of the composite update operation: the clean, forced-update and
/// copy plans in sequence.
pub fn update() -> (p: Vec<Action>)
    ensures
        p@ == update_plan(),
{
    let mut p = clean();
    let mut mid = update_conformance_tests();
    p.append(&mut mid);
    let mut tail = copy_conformance_tests();
    p.append(&mut tail);
    proof {
        assert(p@ =~= update_plan());
    }
    p
}

/// The plan the selected operation runs.
pub fn plan_of(op: Operation) -> (p: Vec<Action>)
    ensures
        p@ == plan_spec(op),
{
    match op {
        Operation::Clean => clean(),
        Operation::GenerateHash => generate_current_hash(),
        Operation::ForceUpdate => update_conformance_tests(),
        Operation::Copy => copy_conformance_tests(),
        Operation::Update => update(),
    }
}

/// The verdict of running a plan when step `i` reports `outcomes[i]`: the
/// first failing checked step aborts the rest of the plan with its error, and
/// a run with no such step succeeds.
pub open spec fn run_spec(plan: Seq<Action>, outcomes: Seq<bool>) -> Result<(), SyncError>
    decreases plan.len(),
{
    if plan.len() == 0 {
        Ok(())
    } else {
        match step_result(plan[0], outcomes[0]) {
            Some(e) => Err(e),
            None => run_spec(plan.drop_first(), outcomes.drop_first()),
        }
    }
}

/// Folds the reported success of each step of a plan into the run's overall
/// verdict, aborting at the first failing checked step.
pub fn run_result(plan: &Vec<Action>, outcomes: &Vec<bool>) -> (r: Result<(), SyncError>)
    requires
        plan@.len() == outcomes@.len(),
    ensures
        r == run_spec(plan@, outcomes@),
{
    let n = plan.len();
    proof {
        assert(plan@.skip(0) =~= plan@);
        assert(outcomes@.skip(0) =~= outcomes@);
    }
    let mut i: usize = 0;
    while i < n
        invariant
            n == plan@.len(),
            n == outcomes@.len(),
            i <= n,
            run_spec(plan@, outcomes@) == run_spec(
                plan@.skip(i as int),
                outcomes@.skip(i as int),
            ),
        decreases n - i,
    {
        let verdict = crate::action::outcome_of_step(plan[i], outcomes[i]);
        proof {
            assert(plan@.skip(i as int)[0] == plan@[i as int]);
            assert(outcomes@.skip(i as int)[0] == outcomes@[i as int]);
            assert(plan@.skip(i as int).drop_first() =~= plan@.skip(i + 1));
            assert(outcomes@.skip(i as int).drop_first() =~= outcomes@.skip(i + 1));
        }
        if let Some(e) = verdict {
            return Err(e);
        }
        i += 1;
    }
    proof {
        assert(plan@.skip(n as int) =~= Seq::<Action>::empty());
    }
    Ok(())
}

} // verus!
