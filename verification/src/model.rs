//! An abstract model of the three on-disk artifacts and of how a run of a
//! plan moves them, used to state and prove the tool's end-state guarantees.
//!
//! The model tracks only presence: whether the working clone, the fixture
//! directory and the hash marker exist. A step's reported outcome stands for
//! everything outside the model (network reachability, disk errors); on top of
//! that, a step whose documented precondition the current state violates —
//! cloning onto an existing destination, or reading a clone that is absent —
//! cannot succeed, whatever the outside world does.

use crate::action::{step_result, Action, SyncError};
use crate::plan::{clean_plan, force_update_plan, update_plan};
use vstd::prelude::*;

verus! {

/// Which of the three on-disk artifacts exist.
#[derive(Clone, Copy, PartialEq, Eq, Structural, Debug)]
pub struct ArtifactState {
    /// The transient working clone of the upstream repository.
    pub working_clone: bool,
    /// The destination directory holding the copied conformance fixtures.
    pub fixture_dir: bool,
    /// The single-file record of the resolved commit hash.
    pub hash_marker: bool,
}

/// The state with no artifact present.
pub open spec fn all_absent() -> ArtifactState {
    ArtifactState { working_clone: false, fixture_dir: false, hash_marker: false }
}

/// The state with every artifact present.
pub open spec fn all_present() -> ArtifactState {
    ArtifactState { working_clone: true, fixture_dir: true, hash_marker: true }
}

/// Whether the state makes a step's success impossible: the clone refuses an
/// existing destination, and the fetch, checkout, revision query and fixture
/// copy all need the working clone to be there. Deleting is never blocked —
/// the delete tool tolerates absent paths — and the marker write needs nothing
/// beyond the filesystem.
pub open spec fn blocked(a: Action, s: ArtifactState) -> bool {
    match a {
        Action::RemoveArtifacts => false,
        Action::CloneRepo => s.working_clone,
        Action::FetchAll => !s.working_clone,
        Action::CheckoutTag => !s.working_clone,
        Action::QueryHead => !s.working_clone,
        Action::WriteHashFile => false,
        Action::CopyFixtures => !s.working_clone,
    }
}

/// What a successful step does to the artifacts: the delete removes all
/// three, the clone creates the working clone, the marker write creates the
/// marker, the copy creates the fixture directory, and the rest leave
/// presence unchanged.
pub open spec fn effect(a: Action, s: ArtifactState) -> ArtifactState {
    match a {
        Action::RemoveArtifacts => all_absent(),
        Action::CloneRepo => ArtifactState {
            working_clone: true,
            fixture_dir: s.fixture_dir,
            hash_marker: s.hash_marker,
        },
        Action::FetchAll => s,
        Action::CheckoutTag => s,
        Action::QueryHead => s,
        Action::WriteHashFile => ArtifactState {
            working_clone: s.working_clone,
            fixture_dir: s.fixture_dir,
            hash_marker: true,
        },
        Action::CopyFixtures => ArtifactState {
            working_clone: s.working_clone,
            fixture_dir: true,
            hash_marker: s.hash_marker,
        },
    }
}

/// Whether a step comes off in a state: its reported outcome is good and the
/// state does not block it.
pub open spec fn step_succeeds(a: Action, s: ArtifactState, outcome: bool) -> bool {
    outcome && !blocked(a, s)
}

/// The state after one step: changed by its effect on success, untouched on
/// failure.
pub open spec fn step_state(a: Action, s: ArtifactState, outcome: bool) -> ArtifactState {
    if step_succeeds(a, s, outcome) {
        effect(a, s)
    } else {
        s
    }
}

/// Runs a plan through the artifact model: the pair of the end state and the
/// fail-fast verdict, where step `i`'s success is `outcomes[i]` tempered by
/// what the state at that step blocks.
pub open spec fn run_from(plan: Seq<Action>, s: ArtifactState, outcomes: Seq<bool>) -> (
    ArtifactState,
    Result<(), SyncError>,
)
    decreases plan.len(),
{
    if plan.len() == 0 {
        (s, Ok(()))
    } else {
        let ok = step_succeeds(plan[0], s, outcomes[0]);
        match step_result(plan[0], ok) {
            Some(e) => (s, Err(e)),
            None => run_from(plan.drop_first(), step_state(plan[0], s, outcomes[0]), outcomes.drop_first()),
        }
    }
}

proof fn lemma_run_continue(plan: Seq<Action>, s: ArtifactState, outcomes: Seq<bool>)
    requires
        plan.len() > 0,
        step_result(plan[0], step_succeeds(plan[0], s, outcomes[0])) is None,
    ensures
        run_from(plan, s, outcomes) == run_from(
            plan.skip(1),
            step_state(plan[0], s, outcomes[0]),
            outcomes.skip(1),
        ),
{
    assert(plan.drop_first() =~= plan.skip(1));
    assert(outcomes.drop_first() =~= outcomes.skip(1));
}

proof fn lemma_run_abort(plan: Seq<Action>, s: ArtifactState, outcomes: Seq<bool>, e: SyncError)
    requires
        plan.len() > 0,
        step_result(plan[0], step_succeeds(plan[0], s, outcomes[0])) == Some(e),
    ensures
        run_from(plan, s, outcomes) == (s, Err::<(), SyncError>(e)),
{
}

/// Removing artifacts that are already absent is not a failure: whatever
/// state the artifacts are in — including none of them existing — a clean run
/// whose delete step's outcome is good succeeds and leaves all three absent.
pub proof fn lemma_clean_succeeds(s: ArtifactState, outcomes: Seq<bool>)
    requires
        outcomes.len() == clean_plan().len(),
        outcomes[0],
    ensures
        run_from(clean_plan(), s, outcomes) == (all_absent(), Ok::<(), SyncError>(())),
{
    let p = clean_plan();
    assert(p[0] == Action::RemoveArtifacts);
    lemma_run_continue(p, s, outcomes);
    assert(p.skip(1) =~= Seq::<Action>::empty());
}

/// Cleaning is idempotent: run twice in a row from any starting state, both
/// runs succeed and both end in the same state, with all three artifacts
/// absent.
pub proof fn lemma_clean_idempotent(s: ArtifactState, o1: Seq<bool>, o2: Seq<bool>)
    requires
        o1.len() == clean_plan().len(),
        o1[0],
        o2.len() == clean_plan().len(),
        o2[0],
    ensures
        run_from(clean_plan(), s, o1) == (all_absent(), Ok::<(), SyncError>(())),
        run_from(clean_plan(), run_from(clean_plan(), s, o1).0, o2) == run_from(
            clean_plan(),
            s,
            o1,
        ),
{
    lemma_clean_succeeds(s, o1);
    lemma_clean_succeeds(all_absent(), o2);
}

/// A forced update is not repeatable: a run of it that succeeds leaves the
/// working clone in place, and a second run from that state must fail at its
/// clone step with `CloneFailed` — whatever the underlying tools report —
/// because the clone's destination already exists.
pub proof fn lemma_force_update_not_repeatable(s: ArtifactState, o1: Seq<bool>, o2: Seq<bool>)
    requires
        o1.len() == force_update_plan().len(),
        o2.len() == force_update_plan().len(),
        run_from(force_update_plan(), s, o1).1 is Ok,
    ensures
        run_from(force_update_plan(), s, o1).0.working_clone,
        run_from(force_update_plan(), run_from(force_update_plan(), s, o1).0, o2).1
            == Err::<(), SyncError>(SyncError::CloneFailed),
{
    let p = force_update_plan();
    assert(p.len() == 5);
    assert(p[0] == Action::CloneRepo);
    assert(p[1] == Action::FetchAll);
    assert(p[2] == Action::CheckoutTag);
    assert(p[3] == Action::QueryHead);
    assert(p[4] == Action::WriteHashFile);
    let s0 = s;
    if !step_succeeds(p[0], s0, o1[0]) {
        lemma_run_abort(p, s0, o1, SyncError::CloneFailed);
    }
    lemma_run_continue(p, s0, o1);
    let p1 = p.skip(1);
    let q1 = o1.skip(1);
    let s1 = step_state(p[0], s0, o1[0]);
    assert(s1.working_clone);
    if !step_succeeds(p1[0], s1, q1[0]) {
        lemma_run_abort(p1, s1, q1, SyncError::FetchFailed);
    }
    lemma_run_continue(p1, s1, q1);
    let p2 = p1.skip(1);
    let q2 = q1.skip(1);
    let s2 = step_state(p1[0], s1, q1[0]);
    assert(s2 == s1);
    if !step_succeeds(p2[0], s2, q2[0]) {
        lemma_run_abort(p2, s2, q2, SyncError::CheckoutFailed);
    }
    lemma_run_continue(p2, s2, q2);
    let p3 = p2.skip(1);
    let q3 = q2.skip(1);
    let s3 = step_state(p2[0], s2, q2[0]);
    assert(s3 == s1);
    // The revision query's failure is swallowed, and its effect keeps the
    // state either way.
    lemma_run_continue(p3, s3, q3);
    let p4 = p3.skip(1);
    let q4 = q3.skip(1);
    let s4 = step_state(p3[0], s3, q3[0]);
    assert(s4 == s1);
    if !step_succeeds(p4[0], s4, q4[0]) {
        lemma_run_abort(p4, s4, q4, SyncError::WriteFailed);
    }
    lemma_run_continue(p4, s4, q4);
    let s5 = step_state(p4[0], s4, q4[0]);
    assert(p4.skip(1) =~= Seq::<Action>::empty());
    assert(run_from(p, s, o1) == (s5, Ok::<(), SyncError>(())));
    assert(s5.working_clone);
    lemma_run_abort(p, s5, o2, SyncError::CloneFailed);
}

/// A composite update whose underlying steps all report success succeeds from
/// any starting state and leaves all three artifacts present: the clean step
/// clears the way, so the clone cannot be blocked, and the fetch, checkout,
/// query, marker write and fixture copy all find the working clone in place.
pub proof fn lemma_update_succeeds(s: ArtifactState, outcomes: Seq<bool>)
    requires
        outcomes.len() == update_plan().len(),
        forall|i: int| 0 <= i < outcomes.len() ==> outcomes[i],
    ensures
        run_from(update_plan(), s, outcomes) == (all_present(), Ok::<(), SyncError>(())),
{
    let p = update_plan();
    assert(p.len() == 7);
    assert(p[0] == Action::RemoveArtifacts);
    assert(p[1] == Action::CloneRepo);
    assert(p[2] == Action::FetchAll);
    assert(p[3] == Action::CheckoutTag);
    assert(p[4] == Action::QueryHead);
    assert(p[5] == Action::WriteHashFile);
    assert(p[6] == Action::CopyFixtures);
    lemma_run_continue(p, s, outcomes);
    let p1 = p.skip(1);
    let q1 = outcomes.skip(1);
    let s1 = step_state(p[0], s, outcomes[0]);
    assert(s1 == all_absent());
    lemma_run_continue(p1, s1, q1);
    let p2 = p1.skip(1);
    let q2 = q1.skip(1);
    let s2 = step_state(p1[0], s1, q1[0]);
    lemma_run_continue(p2, s2, q2);
    let p3 = p2.skip(1);
    let q3 = q2.skip(1);
    let s3 = step_state(p2[0], s2, q2[0]);
    lemma_run_continue(p3, s3, q3);
    let p4 = p3.skip(1);
    let q4 = q3.skip(1);
    let s4 = step_state(p3[0], s3, q3[0]);
    lemma_run_continue(p4, s4, q4);
    let p5 = p4.skip(1);
    let q5 = q4.skip(1);
    let s5 = step_state(p4[0], s4, q4[0]);
    lemma_run_continue(p5, s5, q5);
    let p6 = p5.skip(1);
    let q6 = q5.skip(1);
    let s6 = step_state(p5[0], s5, q5[0]);
    lemma_run_continue(p6, s6, q6);
    let s7 = step_state(p6[0], s6, q6[0]);
    assert(p6.skip(1) =~= Seq::<Action>::empty());
    assert(s7 == all_present());
}

fn step_blocked(a: Action, s: ArtifactState) -> (b: bool)
    ensures
        b == blocked(a, s),
{
    match a {
        Action::RemoveArtifacts => false,
        Action::CloneRepo => s.working_clone,
        Action::FetchAll => !s.working_clone,
        Action::CheckoutTag => !s.working_clone,
        Action::QueryHead => !s.working_clone,
        Action::WriteHashFile => false,
        Action::CopyFixtures => !s.working_clone,
    }
}

fn apply_effect(a: Action, s: ArtifactState) -> (t: ArtifactState)
    ensures
        t == effect(a, s),
{
    match a {
        Action::RemoveArtifacts => ArtifactState {
            working_clone: false,
            fixture_dir: false,
            hash_marker: false,
        },
        Action::CloneRepo => ArtifactState {
            working_clone: true,
            fixture_dir: s.fixture_dir,
            hash_marker: s.hash_marker,
        },
        Action::FetchAll => s,
        Action::CheckoutTag => s,
        Action::QueryHead => s,
        Action::WriteHashFile => ArtifactState {
            working_clone: s.working_clone,
            fixture_dir: s.fixture_dir,
            hash_marker: true,
        },
        Action::CopyFixtures => ArtifactState {
            working_clone: s.working_clone,
            fixture_dir: true,
            hash_marker: s.hash_marker,
        },
    }
}

/// Runs a plan through the artifact model, step by step, returning the end
/// state and the fail-fast verdict.
pub fn simulate(plan: &Vec<Action>, outcomes: &Vec<bool>, start: ArtifactState) -> (r: (
    ArtifactState,
    Result<(), SyncError>,
))
    requires
        plan@.len() == outcomes@.len(),
    ensures
        r == run_from(plan@, start, outcomes@),
{
    let n = plan.len();
    proof {
        assert(plan@.skip(0) =~= plan@);
        assert(outcomes@.skip(0) =~= outcomes@);
    }
    let mut cur = start;
    let mut i: usize = 0;
    while i < n
        invariant
            n == plan@.len(),
            n == outcomes@.len(),
            i <= n,
            run_from(plan@, start, outcomes@) == run_from(
                plan@.skip(i as int),
                cur,
                outcomes@.skip(i as int),
            ),
        decreases n - i,
    {
        let a = plan[i];
        let ok = outcomes[i] && !step_blocked(a, cur);
        proof {
            assert(plan@.skip(i as int)[0] == plan@[i as int]);
            assert(outcomes@.skip(i as int)[0] == outcomes@[i as int]);
            assert(plan@.skip(i as int).drop_first() =~= plan@.skip(i + 1));
            assert(outcomes@.skip(i as int).drop_first() =~= outcomes@.skip(i + 1));
        }
        if let Some(e) = crate::action::outcome_of_step(a, ok) {
            return (cur, Err(e));
        }
        if ok {
            cur = apply_effect(a, cur);
        }
        i += 1;
    }
    proof {
        assert(plan@.skip(n as int) =~= Seq::<Action>::empty());
    }
    (cur, Ok(()))
}

} // verus!
