//! The per-pair experiment pipeline as a state machine. Whoever drives it
//! performs each action and reports back whether it came out well; the
//! machine decides what comes next.
use vstd::prelude::*;
use crate::layout::Stage;
use crate::lock_order::{lock_order, lock_order_spec, LockOrder};

verus! {

/// How a pair's run ended.
#[derive(PartialEq, Eq, Structural, Clone, Copy, Debug)]
pub enum PairOutcome {
    /// Every stage is complete.
    Done,
    /// Both ends are the same machine: nothing was done.
    Skipped,
    /// The stage failed; later stages were not run.
    Aborted(Stage),
}

/// Where a pair's run stands.
#[derive(PartialEq, Eq, Structural, Clone, Copy, Debug)]
pub enum PairState {
    /// Waiting for both endpoint locks.
    Locking,
    /// Leftover processes are being killed before the stage.
    Resetting(Stage),
    /// The stage's completion markers are being looked for.
    Checking(Stage),
    /// The stage is running.
    Running(Stage),
    /// The last cleanup is under way.
    Closing,
    /// The locks are being released.
    Releasing(PairOutcome),
    /// The run is over.
    Finished(PairOutcome),
}

/// What the driver does next.
#[derive(PartialEq, Eq, Structural, Clone, Copy, Debug)]
pub enum Action {
    /// Take both endpoint locks in the given order.
    Acquire(LockOrder),
    /// Kill leftover measurement processes on both machines; its failure is
    /// not an error.
    Reset,
    /// Prepare the stage directory and report whether the stage is complete.
    Check(Stage),
    /// Run the stage and report whether it succeeded.
    Run(Stage),
    /// Release both endpoint locks.
    Release,
    /// Record the pair's outcome; nothing follows.
    Finish(PairOutcome),
}

pub open spec fn next_stage(s: Stage) -> Option<Stage> {
    match s {
        Stage::Control => Some(Stage::Iperf),
        Stage::Iperf => Some(Stage::Bundler),
        Stage::Bundler => None,
    }
}

/// After a stage is complete: clean up before the next one, or before closing.
pub open spec fn after_spec(s: Stage) -> (PairState, Action) {
    match next_stage(s) {
        Some(t) => (PairState::Resetting(t), Action::Reset),
        None => (PairState::Closing, Action::Reset),
    }
}

/// The first state and action of a pair whose ends are named `from` and `to`.
pub open spec fn start_spec(from: Seq<char>, to: Seq<char>) -> (PairState, Action) {
    if lock_order_spec(from, to) == LockOrder::Skip {
        (PairState::Finished(PairOutcome::Skipped), Action::Finish(PairOutcome::Skipped))
    } else {
        (PairState::Locking, Action::Acquire(lock_order_spec(from, to)))
    }
}

/// The transition taken when the last action reported `ok`: for `Check`,
/// whether the stage is complete; for `Run`, whether it succeeded; otherwise
/// it is not read.
pub open spec fn step_spec(st: PairState, ok: bool) -> (PairState, Action) {
    match st {
        PairState::Locking => (PairState::Resetting(Stage::Control), Action::Reset),
        PairState::Resetting(s) => (PairState::Checking(s), Action::Check(s)),
        PairState::Checking(s) => if ok {
            after_spec(s)
        } else {
            (PairState::Running(s), Action::Run(s))
        },
        PairState::Running(s) => if ok {
            after_spec(s)
        } else {
            (PairState::Releasing(PairOutcome::Aborted(s)), Action::Release)
        },
        PairState::Closing => (PairState::Releasing(PairOutcome::Done), Action::Release),
        PairState::Releasing(o) => (PairState::Finished(o), Action::Finish(o)),
        PairState::Finished(o) => (PairState::Finished(o), Action::Finish(o)),
    }
}

fn after(s: Stage) -> (r: (PairState, Action))
    ensures
        r == after_spec(s),
{
    match s {
        Stage::Control => (PairState::Resetting(Stage::Iperf), Action::Reset),
        Stage::Iperf => (PairState::Resetting(Stage::Bundler), Action::Reset),
        Stage::Bundler => (PairState::Closing, Action::Reset),
    }
}

/// Starts a pair: a pair whose two ends are the same machine finishes at
/// once as skipped, taking no lock and running nothing; any other pair first
/// takes its locks in ascending name order.
pub fn start(from: &str, to: &str) -> (r: (PairState, Action))
    ensures
        r == start_spec(from@, to@),
        (from@ == to@) == (r.1 == Action::Finish(PairOutcome::Skipped)),
{
    let order = lock_order(from, to);
    match order {
        LockOrder::Skip => (PairState::Finished(PairOutcome::Skipped), Action::Finish(PairOutcome::Skipped)),
        _ => (PairState::Locking, Action::Acquire(order)),
    }
}

/// Advances a pair once the last action reported `ok`.
pub fn step(st: PairState, ok: bool) -> (r: (PairState, Action))
    ensures
        r == step_spec(st, ok),
{
    match st {
        PairState::Locking => (PairState::Resetting(Stage::Control), Action::Reset),
        PairState::Resetting(s) => (PairState::Checking(s), Action::Check(s)),
        PairState::Checking(s) => if ok {
            after(s)
        } else {
            (PairState::Running(s), Action::Run(s))
        },
        PairState::Running(s) => if ok {
            after(s)
        } else {
            (PairState::Releasing(PairOutcome::Aborted(s)), Action::Release)
        },
        PairState::Closing => (PairState::Releasing(PairOutcome::Done), Action::Release),
        PairState::Releasing(o) => (PairState::Finished(o), Action::Finish(o)),
        PairState::Finished(o) => (PairState::Finished(o), Action::Finish(o)),
    }
}

/// What the machines and the disk answer for one pair: whether each stage is
/// already complete, and whether each stage succeeds when run.
pub struct PairEnv {
    pub complete: Map<Stage, bool>,
    pub works: Map<Stage, bool>,
}

/// The report the driver gives in state `st`.
pub open spec fn answer(st: PairState, env: PairEnv) -> bool {
    match st {
        PairState::Checking(s) => env.complete[s],
        PairState::Running(s) => env.works[s],
        _ => true,
    }
}

/// The actions taken from `st` on, for at most `fuel` steps.
pub open spec fn trace_from(st: PairState, env: PairEnv, fuel: nat) -> Seq<Action>
    decreases fuel,
{
    if fuel == 0 {
        Seq::empty()
    } else {
        let (st2, a) = step_spec(st, answer(st, env));
        if st is Finished {
            Seq::empty()
        } else {
            seq![a] + trace_from(st2, env, (fuel - 1) as nat)
        }
    }
}

/// Every action a pair takes, from its start until it finishes.
pub open spec fn pair_trace(from: Seq<char>, to: Seq<char>, env: PairEnv) -> Seq<Action> {
    let (st, a) = start_spec(from, to);
    seq![a] + trace_from(st, env, 16)
}

/// The stage is skipped or succeeds.
pub open spec fn passes(env: PairEnv, s: Stage) -> bool {
    env.complete[s] || env.works[s]
}

/// How a pair ends: done when each stage is complete or succeeds, else
/// aborted at the first that fails.
pub open spec fn outcome_spec(from: Seq<char>, to: Seq<char>, env: PairEnv) -> PairOutcome {
    if from == to {
        PairOutcome::Skipped
    } else if !passes(env, Stage::Control) {
        PairOutcome::Aborted(Stage::Control)
    } else if !passes(env, Stage::Iperf) {
        PairOutcome::Aborted(Stage::Iperf)
    } else if !passes(env, Stage::Bundler) {
        PairOutcome::Aborted(Stage::Bundler)
    } else {
        PairOutcome::Done
    }
}

/// A stage is run exactly when it is not complete and no earlier stage failed.
pub open spec fn runs_spec(env: PairEnv, s: Stage) -> bool {
    !env.complete[s] && match s {
        Stage::Control => true,
        Stage::Iperf => passes(env, Stage::Control),
        Stage::Bundler => passes(env, Stage::Control) && passes(env, Stage::Iperf),
    }
}

/// From the bundler stage's cleanup on.
pub open spec fn expected_bundler(env: PairEnv) -> Seq<Action> {
    let s = Stage::Bundler;
    let rest = seq![Action::Release, Action::Finish(PairOutcome::Done)];
    seq![Action::Check(s)] + if env.complete[s] {
        seq![Action::Reset] + rest
    } else if env.works[s] {
        seq![Action::Run(s), Action::Reset] + rest
    } else {
        seq![Action::Run(s), Action::Release, Action::Finish(PairOutcome::Aborted(s))]
    }
}

/// From the iperf stage's cleanup on.
pub open spec fn expected_iperf(env: PairEnv) -> Seq<Action> {
    let s = Stage::Iperf;
    let rest = expected_bundler(env);
    seq![Action::Check(s)] + if env.complete[s] {
        seq![Action::Reset] + rest
    } else if env.works[s] {
        seq![Action::Run(s), Action::Reset] + rest
    } else {
        seq![Action::Run(s), Action::Release, Action::Finish(PairOutcome::Aborted(s))]
    }
}

/// From the control stage's cleanup on.
pub open spec fn expected_control(env: PairEnv) -> Seq<Action> {
    let s = Stage::Control;
    let rest = expected_iperf(env);
    seq![Action::Check(s)] + if env.complete[s] {
        seq![Action::Reset] + rest
    } else if env.works[s] {
        seq![Action::Run(s), Action::Reset] + rest
    } else {
        seq![Action::Run(s), Action::Release, Action::Finish(PairOutcome::Aborted(s))]
    }
}

proof fn lemma_trace_bundler(env: PairEnv, fuel: nat)
    requires
        fuel >= 6,
    ensures
        trace_from(PairState::Resetting(Stage::Bundler), env, fuel) == expected_bundler(env),
{
    reveal_with_fuel(trace_from, 7);
    assert(trace_from(PairState::Resetting(Stage::Bundler), env, fuel) =~= expected_bundler(env));
}

proof fn lemma_trace_iperf(env: PairEnv, fuel: nat)
    requires
        fuel >= 9,
    ensures
        trace_from(PairState::Resetting(Stage::Iperf), env, fuel) == expected_iperf(env),
{
    let s = Stage::Iperf;
    let f1 = (fuel - 1) as nat;
    let f2 = (f1 - 1) as nat;
    let f3 = (f2 - 1) as nat;
    assert(trace_from(PairState::Resetting(s), env, fuel) == seq![Action::Check(s)] + trace_from(PairState::Checking(s), env, f1));
    if env.complete[s] {
        assert(trace_from(PairState::Checking(s), env, f1) == seq![Action::Reset] + trace_from(PairState::Resetting(Stage::Bundler), env, f2));
        lemma_trace_bundler(env, f2);
    } else {
        assert(trace_from(PairState::Checking(s), env, f1) == seq![Action::Run(s)] + trace_from(PairState::Running(s), env, f2));
        if env.works[s] {
            assert(trace_from(PairState::Running(s), env, f2) == seq![Action::Reset] + trace_from(PairState::Resetting(Stage::Bundler), env, f3));
            lemma_trace_bundler(env, f3);
        } else {
            let o = PairOutcome::Aborted(s);
            assert(trace_from(PairState::Running(s), env, f2) == seq![Action::Release] + trace_from(PairState::Releasing(o), env, f3));
            assert(trace_from(PairState::Releasing(o), env, f3) == seq![Action::Finish(o)] + trace_from(PairState::Finished(o), env, (f3 - 1) as nat));
            assert(trace_from(PairState::Finished(o), env, (f3 - 1) as nat) == Seq::<Action>::empty());
        }
    }
    assert(trace_from(PairState::Resetting(s), env, fuel) =~= expected_iperf(env));
}

proof fn lemma_trace_control(env: PairEnv, fuel: nat)
    requires
        fuel >= 12,
    ensures
        trace_from(PairState::Resetting(Stage::Control), env, fuel) == expected_control(env),
{
    let s = Stage::Control;
    let f1 = (fuel - 1) as nat;
    let f2 = (f1 - 1) as nat;
    let f3 = (f2 - 1) as nat;
    assert(trace_from(PairState::Resetting(s), env, fuel) == seq![Action::Check(s)] + trace_from(PairState::Checking(s), env, f1));
    if env.complete[s] {
        assert(trace_from(PairState::Checking(s), env, f1) == seq![Action::Reset] + trace_from(PairState::Resetting(Stage::Iperf), env, f2));
        lemma_trace_iperf(env, f2);
    } else {
        assert(trace_from(PairState::Checking(s), env, f1) == seq![Action::Run(s)] + trace_from(PairState::Running(s), env, f2));
        if env.works[s] {
            assert(trace_from(PairState::Running(s), env, f2) == seq![Action::Reset] + trace_from(PairState::Resetting(Stage::Iperf), env, f3));
            lemma_trace_iperf(env, f3);
        } else {
            let o = PairOutcome::Aborted(s);
            assert(trace_from(PairState::Running(s), env, f2) == seq![Action::Release] + trace_from(PairState::Releasing(o), env, f3));
            assert(trace_from(PairState::Releasing(o), env, f3) == seq![Action::Finish(o)] + trace_from(PairState::Finished(o), env, (f3 - 1) as nat));
            assert(trace_from(PairState::Finished(o), env, (f3 - 1) as nat) == Seq::<Action>::empty());
        }
    }
    assert(trace_from(PairState::Resetting(s), env, fuel) =~= expected_control(env));
}

/// The whole run of a pair, spelled out.
pub proof fn lemma_pair_trace(from: Seq<char>, to: Seq<char>, env: PairEnv)
    ensures
        from == to ==> pair_trace(from, to, env) == seq![Action::Finish(PairOutcome::Skipped)],
        from != to ==> pair_trace(from, to, env) == seq![Action::Acquire(lock_order_spec(from, to)), Action::Reset]
            + expected_control(env),
{
    crate::lock_order::lemma_shared_endpoint_order(from, to, to);
    reveal_with_fuel(trace_from, 2);
    if from != to {
        lemma_trace_control(env, 15);
        assert(pair_trace(from, to, env) =~= seq![Action::Acquire(lock_order_spec(from, to)), Action::Reset]
            + expected_control(env));
    } else {
        assert(pair_trace(from, to, env) =~= seq![Action::Finish(PairOutcome::Skipped)]);
    }
}

/// A pair whose two ends are the same machine takes no lock, runs no
/// command and finishes at once as skipped.
pub proof fn lemma_degenerate_pair_skipped(from: Seq<char>, to: Seq<char>, env: PairEnv)
    requires
        from == to,
    ensures
        pair_trace(from, to, env) == seq![Action::Finish(PairOutcome::Skipped)],
        forall|o: LockOrder| !pair_trace(from, to, env).contains(Action::Acquire(o)),
        !pair_trace(from, to, env).contains(Action::Reset),
        forall|s: Stage| !pair_trace(from, to, env).contains(Action::Run(s)),
{
    broadcast use vstd::seq_lib::lemma_seq_contains_after_push, vstd::seq_lib::lemma_seq_empty_contains_nothing;

    lemma_pair_trace(from, to, env);
}

/// Resumability: a stage runs exactly when its markers are missing and every
/// earlier stage was complete or succeeded; a stage found complete is never
/// run again.
pub proof fn lemma_stage_runs_iff(from: Seq<char>, to: Seq<char>, env: PairEnv, s: Stage)
    requires
        from != to,
    ensures
        pair_trace(from, to, env).contains(Action::Run(s)) == runs_spec(env, s),
        env.complete[s] ==> !pair_trace(from, to, env).contains(Action::Run(s)),
{
    broadcast use vstd::seq_lib::lemma_seq_concat_contains_all_elements, vstd::seq_lib::lemma_seq_contains_after_push, vstd::seq_lib::lemma_seq_empty_contains_nothing;

    lemma_pair_trace(from, to, env);
}

/// A second run on a pair whose control stage completed and whose iperf
/// stage did not skips the control stage and runs the iperf stage.
pub proof fn lemma_resume_after_control(from: Seq<char>, to: Seq<char>, env: PairEnv)
    requires
        from != to,
        env.complete[Stage::Control],
        !env.complete[Stage::Iperf],
    ensures
        !pair_trace(from, to, env).contains(Action::Run(Stage::Control)),
        pair_trace(from, to, env).contains(Action::Run(Stage::Iperf)),
{
    lemma_stage_runs_iff(from, to, env, Stage::Control);
    lemma_stage_runs_iff(from, to, env, Stage::Iperf);
}

/// A pair that is not skipped first takes its locks in ascending name
/// order, releases them on every way out, success or failure, and ends by
/// recording its outcome: done, or aborted at the first failing stage.
pub proof fn lemma_pair_outcome(from: Seq<char>, to: Seq<char>, env: PairEnv)
    ensures
        pair_trace(from, to, env).len() > 0,
        pair_trace(from, to, env).last() == Action::Finish(outcome_spec(from, to, env)),
        from != to ==> pair_trace(from, to, env)[0] == Action::Acquire(lock_order_spec(from, to)),
        from != to ==> pair_trace(from, to, env)[pair_trace(from, to, env).len() - 2] == Action::Release,
{
    lemma_pair_trace(from, to, env);
    if from != to {
        lemma_ends(env);
        let e = expected_control(env);
        let t = seq![Action::Acquire(lock_order_spec(from, to)), Action::Reset] + e;
        assert(t[t.len() - 1] == e[e.len() - 1]);
        assert(t[t.len() - 2] == e[e.len() - 2]);
    }
}

proof fn lemma_tail_of<A>(a: Seq<A>, b: Seq<A>)
    requires
        b.len() >= 2,
    ensures
        (a + b).len() >= 2,
        (a + b)[(a + b).len() - 1] == b[b.len() - 1],
        (a + b)[(a + b).len() - 2] == b[b.len() - 2],
{
}

/// The tail of each stage's part of the run: the locks are released, then
/// the outcome recorded.
proof fn lemma_ends(env: PairEnv)
    ensures
        expected_bundler(env).len() >= 2,
        expected_bundler(env).last() == Action::Finish(
            if !passes(env, Stage::Bundler) { PairOutcome::Aborted(Stage::Bundler) } else { PairOutcome::Done },
        ),
        expected_bundler(env)[expected_bundler(env).len() - 2] == Action::Release,
        expected_iperf(env).len() >= 2,
        expected_iperf(env).last() == Action::Finish(
            if !passes(env, Stage::Iperf) { PairOutcome::Aborted(Stage::Iperf) } else if !passes(
                env,
                Stage::Bundler,
            ) { PairOutcome::Aborted(Stage::Bundler) } else { PairOutcome::Done },
        ),
        expected_iperf(env)[expected_iperf(env).len() - 2] == Action::Release,
        expected_control(env).len() >= 2,
        expected_control(env).last() == Action::Finish(
            if !passes(env, Stage::Control) { PairOutcome::Aborted(Stage::Control) } else if !passes(
                env,
                Stage::Iperf,
            ) { PairOutcome::Aborted(Stage::Iperf) } else if !passes(env, Stage::Bundler) {
                PairOutcome::Aborted(Stage::Bundler)
            } else { PairOutcome::Done },
        ),
        expected_control(env)[expected_control(env).len() - 2] == Action::Release,
{
    let b = expected_bundler(env);
    let i = expected_iperf(env);
    let c = expected_control(env);
    if env.complete[Stage::Bundler] {
        lemma_tail_of(seq![Action::Check(Stage::Bundler), Action::Reset], seq![Action::Release, Action::Finish(PairOutcome::Done)]);
    } else if env.works[Stage::Bundler] {
        lemma_tail_of(seq![Action::Check(Stage::Bundler), Action::Run(Stage::Bundler), Action::Reset], seq![Action::Release, Action::Finish(PairOutcome::Done)]);
    }
    assert(b.len() >= 2);
    if env.complete[Stage::Iperf] {
        assert(i == seq![Action::Check(Stage::Iperf), Action::Reset] + b);
        lemma_tail_of(seq![Action::Check(Stage::Iperf), Action::Reset], b);
    } else if env.works[Stage::Iperf] {
        assert(i == seq![Action::Check(Stage::Iperf), Action::Run(Stage::Iperf), Action::Reset] + b);
        lemma_tail_of(seq![Action::Check(Stage::Iperf), Action::Run(Stage::Iperf), Action::Reset], b);
    }
    assert(i.len() >= 2);
    if env.complete[Stage::Control] {
        assert(c == seq![Action::Check(Stage::Control), Action::Reset] + i);
        lemma_tail_of(seq![Action::Check(Stage::Control), Action::Reset], i);
    } else if env.works[Stage::Control] {
        assert(c == seq![Action::Check(Stage::Control), Action::Run(Stage::Control), Action::Reset] + i);
        lemma_tail_of(seq![Action::Check(Stage::Control), Action::Run(Stage::Control), Action::Reset], i);
    }
}

} // verus!
