//! What the actions of a redirect session do to the process's standard
//! output and descriptors, and the laws that every session keeps, whatever
//! the operating system answers.
//!
//! The model follows the primitives: a successful save keeps a way back to
//! the original destination of fd 1 (a descriptor of its own on Unix), a
//! successful open holds the null device, a successful point moves fd 1, and
//! the restore moves fd 1 back to the saved destination. No action repoints
//! fd 2. On Unix fd 1 holds its own duplicate of the null device, so the
//! session may close its descriptor at once; on Windows fd 1 borrows the
//! session's handle, which must stay open while fd 1 uses it. Its one assumption
//! beyond the answers is that the restore, whose result the protocol ignores
//! as the primitives offer no recovery, takes effect.
use crate::redirect::{transition, Action, Context, Phase, Platform};
use crate::silence::Sink;
use vstd::prelude::*;

verus! {

/// A destination of fd 1.
pub enum Dest {
    /// Where fd 1 pointed before the session.
    Original,
    /// The process's standard error.
    Stderr,
    /// The null device.
    Null,
}

/// What a session returned.
pub enum Returned {
    /// The wrapped update's result.
    InnerResult,
    /// The recorded error of a failed step.
    RecordedError,
}

/// The state of the process as far as a session touches it.
pub ghost struct World {
    /// Where fd 1 points.
    pub stdout: Dest,
    /// Where fd 2 points.
    pub stderr: Dest,
    /// A way back to the original destination of fd 1 is kept.
    pub saved: bool,
    /// ... and it is a descriptor that the session must close.
    pub saved_owned: bool,
    /// The session holds the null device open.
    pub null_open: bool,
    /// Nothing was written to buffered standard output since the last flush.
    pub clean: bool,
    /// fd 1 was moved while buffered output was pending.
    pub switched_unflushed: bool,
    /// A handle that fd 1 borrowed was closed while fd 1 still used it.
    pub dangling: bool,
    /// How many times the wrapped update ran.
    pub inner_runs: nat,
    /// Where fd 1 pointed when the wrapped update last ran.
    pub inner_dest: Dest,
    /// How many errors were recorded.
    pub errors: nat,
    /// The last recorded error.
    pub error: Option<Context>,
    /// What the session returned, once it has.
    pub returned: Option<Returned>,
}

/// The process before a session: fd 1 at its original destination, nothing
/// held, and buffered output possibly pending.
pub open spec fn initial_world() -> World {
    World {
        stdout: Dest::Original,
        stderr: Dest::Stderr,
        saved: false,
        saved_owned: false,
        null_open: false,
        clean: false,
        switched_unflushed: false,
        dangling: false,
        inner_runs: 0,
        inner_dest: Dest::Original,
        errors: 0,
        error: None,
        returned: None,
    }
}

/// The destination of a sink.
pub open spec fn sink_dest(s: Sink) -> Dest {
    match s {
        Sink::Stderr => Dest::Stderr,
        Sink::Null => Dest::Null,
    }
}

/// Where the wrapped update's output goes on `p` with sink `s`.
pub open spec fn expected_dest(p: Platform, s: Sink) -> Dest {
    if p is Other {
        Dest::Original
    } else {
        sink_dest(s)
    }
}

/// Whether an action has an outcome that the session waits for.
pub open spec fn is_query(a: Action) -> bool {
    a is SaveStdout || a is QueryStderr || a is OpenNull || a is PointStdout
}

/// The effect of action `a` on platform `p`, answered with `ok`.
pub open spec fn apply(p: Platform, w: World, a: Action, ok: bool) -> World {
    match a {
        Action::FlushStdout => World { clean: true, ..w },
        Action::SaveStdout => if ok {
            World { saved: true, saved_owned: p is Unix, ..w }
        } else {
            w
        },
        Action::QueryStderr => w,
        Action::OpenNull => if ok {
            World { null_open: true, ..w }
        } else {
            w
        },
        Action::PointStdout(t) => if ok {
            World { stdout: sink_dest(t), switched_unflushed: w.switched_unflushed || !w.clean, ..w }
        } else {
            w
        },
        // On Unix fd 1 holds its own duplicate of the null device; on
        // Windows it borrows the session's handle.
        Action::CloseNull => World {
            null_open: false,
            dangling: w.dangling || (p is Windows && w.stdout == Dest::Null),
            ..w
        },
        Action::ReleaseSaved => World { saved: false, saved_owned: false, ..w },
        Action::RecordError(c) => World { errors: w.errors + 1, error: Some(c), ..w },
        Action::RunInner => World {
            inner_runs: w.inner_runs + 1,
            inner_dest: w.stdout,
            clean: false,
            ..w
        },
        Action::RestoreStdout => if w.saved {
            World {
                stdout: Dest::Original,
                switched_unflushed: w.switched_unflushed || !w.clean,
                ..w
            }
        } else {
            w
        },
        Action::ReturnError => World { returned: Some(Returned::RecordedError), ..w },
        Action::ReturnInner => World { returned: Some(Returned::InnerResult), ..w },
    }
}

/// The action whose answer a session in `phase` waits for.
pub open spec fn awaited(s: Sink, phase: Phase) -> Option<Action> {
    match phase {
        Phase::AwaitSave => Some(Action::SaveStdout),
        Phase::AwaitStderr => Some(Action::QueryStderr),
        Phase::AwaitOpen => Some(Action::OpenNull),
        Phase::AwaitPoint => Some(Action::PointStdout(s)),
        _ => None,
    }
}

/// One round: the answer `ok` takes effect on the awaited action, then the
/// session decides its next action, which takes effect at once unless it
/// waits for an answer of its own.
pub open spec fn step(p: Platform, s: Sink, phase: Phase, w: World, ok: bool) -> (Phase, World) {
    let w1 = match awaited(s, phase) {
        Some(q) => apply(p, w, q, ok),
        None => w,
    };
    let (next, a) = transition(p, s, phase, ok);
    (next, if is_query(a) { w1 } else { apply(p, w1, a, true) })
}

/// A session on `p` with sink `s` driven by the answers `replies`, one per
/// round, until it returns: its phase and the state of the process.
pub open spec fn run(p: Platform, s: Sink, replies: Seq<bool>) -> (Phase, World)
    decreases replies.len(),
{
    if replies.len() == 0 {
        (Phase::Start, initial_world())
    } else {
        let (phase, w) = run(p, s, replies.drop_last());
        if phase is Finished {
            (phase, w)
        } else {
            step(p, s, phase, w, replies.last())
        }
    }
}

/// The most rounds a session in `phase` can still take before it returns.
pub open spec fn remaining(phase: Phase) -> nat {
    match phase {
        Phase::Start => 10,
        Phase::Flushed => 9,
        Phase::AwaitSave => 8,
        Phase::AwaitStderr => 7,
        Phase::AwaitOpen => 7,
        Phase::AwaitPoint => 6,
        Phase::Launch { close_null } => if close_null {
            6
        } else {
            5
        },
        Phase::AwaitInner => 4,
        Phase::Restore { restored, close_null, release_saved } => (if restored {
            0nat
        } else {
            1nat
        }) + (if close_null {
            1nat
        } else {
            0nat
        }) + (if release_saved {
            1nat
        } else {
            0nat
        }) + 1,
        Phase::Unwind { close_null, error, recorded, release_saved } => (if close_null {
            1nat
        } else {
            0nat
        }) + (if recorded {
            0nat
        } else {
            1nat
        }) + (if release_saved {
            1nat
        } else {
            0nat
        }) + 1,
        Phase::Finished => 0,
    }
}

/// What holds of the process in each phase of a session.
pub open spec fn consistent(p: Platform, s: Sink, phase: Phase, w: World) -> bool {
    let held = World { clean: true, saved: true, saved_owned: p is Unix, ..initial_world() };
    &&& !w.switched_unflushed
    &&& !w.dangling
    &&& w.stderr == Dest::Stderr
    &&& match phase {
        Phase::Start => w == initial_world(),
        Phase::Flushed => !(p is Other) && w == World { clean: true, ..initial_world() },
        Phase::AwaitSave => !(p is Other) && w == World { clean: true, ..initial_world() },
        Phase::AwaitStderr => p is Windows && s is Stderr && w == held,
        Phase::AwaitOpen => !(p is Other) && s is Null && w == held,
        Phase::AwaitPoint => !(p is Other) && w == World { null_open: s is Null, ..held },
        Phase::Launch { close_null } => p is Unix && s is Null && w == World {
            null_open: close_null,
            stdout: Dest::Null,
            ..held
        },
        Phase::AwaitInner => if p is Other {
            w == World { inner_runs: 1, ..initial_world() }
        } else {
            w == World {
                null_open: p is Windows && s is Null,
                stdout: sink_dest(s),
                inner_runs: 1,
                inner_dest: sink_dest(s),
                clean: false,
                ..held
            }
        },
        Phase::Restore { restored, close_null, release_saved } => {
            &&& !(p is Other)
            &&& !restored ==> close_null == (p is Windows && s is Null) && release_saved == (
            p is Unix)
            &&& close_null ==> p is Windows && s is Null
            &&& release_saved ==> p is Unix
            &&& w == World {
                stdout: if restored {
                    Dest::Original
                } else {
                    sink_dest(s)
                },
                saved: release_saved || p is Windows,
                saved_owned: release_saved,
                null_open: close_null,
                inner_runs: 1,
                inner_dest: sink_dest(s),
                ..held
            }
        },
        Phase::Unwind { close_null, error, recorded, release_saved } => {
            &&& !(p is Other)
            &&& close_null ==> s is Null && !recorded
            &&& release_saved ==> p is Unix
            &&& w.stdout == Dest::Original
            &&& w.stderr == Dest::Stderr
            &&& w.null_open == close_null
            &&& w.saved_owned == release_saved
            &&& w.inner_runs == 0
            &&& w.returned is None
            &&& recorded ==> w.errors == 1 && w.error == Some(error)
            &&& !recorded ==> w.errors == 0
        },
        Phase::Finished => finished_well(p, s, w),
    }
}

/// What holds once a session has returned: fd 1 is back at its original
/// destination, nothing is held, and the result is the update's exactly when
/// the update ran, once, with its output at the sink.
pub open spec fn finished_well(p: Platform, s: Sink, w: World) -> bool {
    &&& w.stdout == Dest::Original
    &&& w.stderr == Dest::Stderr
    &&& !w.null_open
    &&& !w.saved_owned
    &&& !w.switched_unflushed
    &&& !w.dangling
    &&& w.returned is Some
    &&& w.inner_runs <= 1
    &&& (w.returned == Some(Returned::InnerResult)) == (w.inner_runs == 1 && w.errors == 0)
    &&& (w.returned == Some(Returned::RecordedError)) == (w.inner_runs == 0 && w.errors == 1)
    &&& w.inner_runs == 1 ==> w.errors == 0 && w.inner_dest == expected_dest(p, s)
}

proof fn lemma_step_consistent(p: Platform, s: Sink, phase: Phase, w: World, ok: bool)
    requires
        consistent(p, s, phase, w),
        !(phase is Finished),
    ensures
        consistent(p, s, step(p, s, phase, w, ok).0, step(p, s, phase, w, ok).1),
        remaining(step(p, s, phase, w, ok).0) < remaining(phase),
{
}

proof fn lemma_run_consistent(p: Platform, s: Sink, replies: Seq<bool>)
    ensures
        consistent(p, s, run(p, s, replies).0, run(p, s, replies).1),
        !(run(p, s, replies).0 is Finished) ==> replies.len() + remaining(run(p, s, replies).0)
            <= 10,
    decreases replies.len(),
{
    if replies.len() > 0 {
        lemma_run_consistent(p, s, replies.drop_last());
        let (phase, w) = run(p, s, replies.drop_last());
        if !(phase is Finished) {
            lemma_step_consistent(p, s, phase, w, replies.last());
        }
    }
}

/// Every session returns within ten rounds, whatever the answers.
pub proof fn law_session_returns(p: Platform, s: Sink, replies: Seq<bool>)
    requires
        replies.len() >= 10,
    ensures
        run(p, s, replies).0 is Finished,
        run(p, s, replies).1.returned is Some,
{
    lemma_run_consistent(p, s, replies);
}

/// Once a session has returned, fd 1 points at its original destination
/// again, and neither the null device nor a saved descriptor is still held.
pub proof fn law_stdout_restored(p: Platform, s: Sink, replies: Seq<bool>)
    requires
        run(p, s, replies).0 is Finished,
    ensures
        run(p, s, replies).1.stdout == Dest::Original,
        !run(p, s, replies).1.null_open,
        !run(p, s, replies).1.saved_owned,
{
    lemma_run_consistent(p, s, replies);
}

/// A session returns the wrapped update's result exactly when the update
/// ran; it runs at most once, and while it runs its output goes to the sink
/// (to the original destination where no redirect is available).
pub proof fn law_inner_result_iff_inner_ran(p: Platform, s: Sink, replies: Seq<bool>)
    requires
        run(p, s, replies).0 is Finished,
    ensures
        run(p, s, replies).1.inner_runs <= 1,
        (run(p, s, replies).1.returned == Some(Returned::InnerResult)) == (run(
            p,
            s,
            replies,
        ).1.inner_runs == 1),
        run(p, s, replies).1.inner_runs == 1 ==> run(p, s, replies).1.inner_dest == expected_dest(
            p,
            s,
        ),
{
    lemma_run_consistent(p, s, replies);
}

/// A session returns an error exactly when one error was recorded, and then
/// the wrapped update did not run.
pub proof fn law_error_iff_recorded(p: Platform, s: Sink, replies: Seq<bool>)
    requires
        run(p, s, replies).0 is Finished,
    ensures
        (run(p, s, replies).1.returned == Some(Returned::RecordedError)) == (run(
            p,
            s,
            replies,
        ).1.errors == 1 && run(p, s, replies).1.inner_runs == 0),
{
    lemma_run_consistent(p, s, replies);
}

/// fd 1 never changes destination while buffered output is pending: output
/// written before the redirect reaches the original destination, and output
/// of the update reaches the sink.
pub proof fn law_flushed_before_switch(p: Platform, s: Sink, replies: Seq<bool>)
    ensures
        !run(p, s, replies).1.switched_unflushed,
{
    lemma_run_consistent(p, s, replies);
}

/// A session that returns an error leaves the descriptors as it found them:
/// fd 1 and fd 2 point where they pointed before, every descriptor it opened
/// is closed again, and the wrapped update did not run.
pub proof fn law_failure_leaves_descriptors(p: Platform, s: Sink, replies: Seq<bool>)
    requires
        run(p, s, replies).0 is Finished,
        run(p, s, replies).1.returned == Some(Returned::RecordedError),
    ensures
        run(p, s, replies).1.stdout == Dest::Original,
        run(p, s, replies).1.stderr == Dest::Stderr,
        !run(p, s, replies).1.null_open,
        !run(p, s, replies).1.saved_owned,
        run(p, s, replies).1.inner_runs == 0,
{
    lemma_run_consistent(p, s, replies);
}

/// While the wrapped update runs behind a redirect, fd 1 points at the sink
/// and the way back to the original fd 1 is kept; on Unix the saved
/// descriptor is then the only one the session holds (the null device was
/// closed once fd 1 held its own duplicate), on Windows the session holds
/// the null device exactly when fd 1 borrows it.
pub proof fn law_state_while_update_runs(p: Platform, s: Sink, replies: Seq<bool>)
    requires
        run(p, s, replies).0 is AwaitInner,
        !(p is Other),
    ensures
        run(p, s, replies).1.stdout == sink_dest(s),
        run(p, s, replies).1.stderr == Dest::Stderr,
        run(p, s, replies).1.saved,
        run(p, s, replies).1.saved_owned == (p is Unix),
        run(p, s, replies).1.null_open == (p is Windows && s is Null),
        run(p, s, replies).1.inner_runs == 1,
{
    lemma_run_consistent(p, s, replies);
}

/// fd 1 is the only descriptor a session repoints: fd 2 keeps its
/// destination throughout.
pub proof fn law_only_stdout_repointed(p: Platform, s: Sink, replies: Seq<bool>)
    ensures
        run(p, s, replies).1.stderr == Dest::Stderr,
{
    lemma_run_consistent(p, s, replies);
}

/// Where fd 1 borrows the session's handle of the null device (Windows), the
/// session never closes that handle while fd 1 still points at it.
pub proof fn law_borrowed_sink_stays_open(p: Platform, s: Sink, replies: Seq<bool>)
    ensures
        !run(p, s, replies).1.dangling,
        p is Windows && run(p, s, replies).1.stdout == Dest::Null ==> run(p, s, replies).1.null_open,
{
    lemma_run_consistent(p, s, replies);
}

proof fn lemma_all_succeed(p: Platform, s: Sink, replies: Seq<bool>)
    requires
        forall|i: int| 0 <= i < replies.len() ==> replies[i],
    ensures
        !(run(p, s, replies).0 is Unwind),
        run(p, s, replies).1.errors == 0,
    decreases replies.len(),
{
    lemma_run_consistent(p, s, replies);
    if replies.len() > 0 {
        let prefix = replies.drop_last();
        assert forall|i: int| 0 <= i < prefix.len() implies prefix[i] by {
            assert(prefix[i] == replies[i]);
        }
        lemma_all_succeed(p, s, prefix);
        lemma_run_consistent(p, s, prefix);
    }
}

/// When every step of the operating system succeeds, the session returns
/// the wrapped update's result, and the update's output went to the sink.
pub proof fn law_success_runs_inner(p: Platform, s: Sink, replies: Seq<bool>)
    requires
        forall|i: int| 0 <= i < replies.len() ==> replies[i],
        run(p, s, replies).0 is Finished,
    ensures
        run(p, s, replies).1.returned == Some(Returned::InnerResult),
        run(p, s, replies).1.inner_dest == expected_dest(p, s),
{
    lemma_all_succeed(p, s, replies);
    lemma_run_consistent(p, s, replies);
}

} // verus!
