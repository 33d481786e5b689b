//! The protocol that points standard output (fd 1) at a [`Sink`] while the
//! wrapped update runs, and points it back afterwards.
//!
//! The protocol is a state machine. A [`Redirect`] session emits one
//! [`Action`] at a time; the caller performs it against the operating system
//! and answers with whether it succeeded, and the session decides the next
//! action. The decisions (the order of the steps, what is released after a
//! failure, which error is reported) are all made here; the caller only
//! performs them.
use crate::silence::{Error, Sink};
use vstd::prelude::*;

verus! {

/// The platform family whose primitives perform the redirect.
#[derive(Clone, Copy, Debug, PartialEq, Eq, Structural)]
pub enum Platform {
    /// Descriptors swapped with `dup`/`dup2`; the saved copy of fd 1 is a
    /// descriptor of its own that must be closed.
    Unix,
    /// The standard-output handle swapped with `GetStdHandle`/`SetStdHandle`;
    /// the saved handle is borrowed and needs no release.
    Windows,
    /// No redirect is available: the wrapped update runs unchanged.
    Other,
}

/// The step whose failure an error reports; each has its own message.
#[derive(Clone, Copy, Debug, PartialEq, Eq, Structural)]
pub enum Context {
    /// `dup(1)` failed (Unix).
    DuplicatingStdout,
    /// Opening `/dev/null` failed (Unix).
    OpeningDevNull,
    /// `dup2` onto fd 1 failed (Unix).
    RedirectingStdout,
    /// Querying the standard-output handle failed (Windows).
    QueryingStdoutHandle,
    /// Querying the standard-error handle failed (Windows).
    QueryingStderrHandle,
    /// Opening the `NUL` device failed (Windows).
    OpeningNulDevice,
    /// Swapping the standard-output handle failed (Windows).
    RedirectingStdoutHandle,
}

/// One step of the protocol, for the caller to perform.
///
/// `SaveStdout`, `QueryStderr`, `OpenNull` and `PointStdout` are answered
/// with their success; the answer to every other action is ignored.
#[derive(Clone, Copy, Debug, PartialEq, Eq, Structural)]
pub enum Action {
    /// Flush the process's buffered standard output.
    FlushStdout,
    /// Keep a way back to the current destination of fd 1
    /// (Unix: `dup(1)`; Windows: query the standard-output handle).
    SaveStdout,
    /// Query the standard-error handle (Windows).
    QueryStderr,
    /// Open the null device for writing.
    OpenNull,
    /// Point fd 1 at the given sink.
    PointStdout(Sink),
    /// Close the null device opened by `OpenNull`.
    CloseNull,
    /// Close the descriptor kept by `SaveStdout` (Unix).
    ReleaseSaved,
    /// Build the error of the failed step now, from its context and the
    /// last error of the operating system.
    RecordError(Context),
    /// Run the wrapped update.
    RunInner,
    /// Point fd 1 back at the destination kept by `SaveStdout`.
    RestoreStdout,
    /// Return the error built by `RecordError`. The session is over.
    ReturnError,
    /// Return the wrapped update's result. The session is over.
    ReturnInner,
}

/// Where a session stands: which answer it waits for, or which cleanup
/// steps are still owed.
#[derive(Clone, Copy, Debug, PartialEq, Eq, Structural)]
pub enum Phase {
    /// Nothing done yet.
    Start,
    /// Standard output was flushed.
    Flushed,
    /// Waiting for the answer to `SaveStdout`.
    AwaitSave,
    /// Waiting for the answer to `QueryStderr`.
    AwaitStderr,
    /// Waiting for the answer to `OpenNull`.
    AwaitOpen,
    /// Waiting for the answer to `PointStdout`.
    AwaitPoint,
    /// fd 1 points at the sink; the null device is still to be closed when
    /// `close_null` holds, then the wrapped update is to run.
    Launch { close_null: bool },
    /// The wrapped update ran.
    AwaitInner,
    /// Output was flushed after the update; the restore of fd 1, the close
    /// of the null device and the release of the saved descriptor are owed
    /// as far as their flags say.
    Restore { restored: bool, close_null: bool, release_saved: bool },
    /// A step failed with the error `error`: the close of the null device,
    /// the recording of the error and the release of the saved descriptor
    /// are owed as far as their flags say.
    Unwind { close_null: bool, error: Context, recorded: bool, release_saved: bool },
    /// A return action was emitted.
    Finished,
}

/// The error reported when keeping a way back to fd 1 fails.
pub open spec fn save_context(p: Platform) -> Context {
    if p is Windows {
        Context::QueryingStdoutHandle
    } else {
        Context::DuplicatingStdout
    }
}

/// The error reported when opening the null device fails.
pub open spec fn open_context(p: Platform) -> Context {
    if p is Windows {
        Context::OpeningNulDevice
    } else {
        Context::OpeningDevNull
    }
}

/// The error reported when pointing fd 1 at the sink fails.
pub open spec fn point_context(p: Platform) -> Context {
    if p is Windows {
        Context::RedirectingStdoutHandle
    } else {
        Context::RedirectingStdout
    }
}

/// After a failure: close the null device, record the error, release the
/// saved descriptor, in that order and as far as owed; then return the error.
pub open spec fn unwind_step(close_null: bool, error: Context, recorded: bool, release_saved: bool) -> (Phase, Action) {
    if close_null {
        (Phase::Unwind { close_null: false, error, recorded, release_saved }, Action::CloseNull)
    } else if !recorded {
        (Phase::Unwind { close_null: false, error, recorded: true, release_saved }, Action::RecordError(error))
    } else if release_saved {
        (Phase::Unwind { close_null: false, error, recorded: true, release_saved: false }, Action::ReleaseSaved)
    } else {
        (Phase::Finished, Action::ReturnError)
    }
}

/// After the update: point fd 1 back, close the null device, release the
/// saved descriptor, in that order and as far as owed; then return the
/// update's result.
pub open spec fn restore_step(restored: bool, close_null: bool, release_saved: bool) -> (Phase, Action) {
    if !restored {
        (Phase::Restore { restored: true, close_null, release_saved }, Action::RestoreStdout)
    } else if close_null {
        (Phase::Restore { restored: true, close_null: false, release_saved }, Action::CloseNull)
    } else if release_saved {
        (Phase::Restore { restored: true, close_null: false, release_saved: false }, Action::ReleaseSaved)
    } else {
        (Phase::Finished, Action::ReturnInner)
    }
}

/// Once fd 1 points at the sink: close the null device if owed, then run
/// the wrapped update.
pub open spec fn launch_step(close_null: bool) -> (Phase, Action) {
    if close_null {
        (Phase::Launch { close_null: false }, Action::CloseNull)
    } else {
        (Phase::AwaitInner, Action::RunInner)
    }
}

/// The decision of a session on `platform` with sink `sink`: from phase
/// `phase` and the answer `ok` to the last action, the next phase and the
/// next action.
pub open spec fn transition(platform: Platform, sink: Sink, phase: Phase, ok: bool) -> (Phase, Action) {
    match phase {
        Phase::Start => if platform is Other {
            (Phase::AwaitInner, Action::RunInner)
        } else {
            (Phase::Flushed, Action::FlushStdout)
        },
        Phase::Flushed => (Phase::AwaitSave, Action::SaveStdout),
        Phase::AwaitSave => if !ok {
            unwind_step(false, save_context(platform), false, false)
        } else if sink is Null {
            (Phase::AwaitOpen, Action::OpenNull)
        } else if platform is Windows {
            (Phase::AwaitStderr, Action::QueryStderr)
        } else {
            (Phase::AwaitPoint, Action::PointStdout(Sink::Stderr))
        },
        Phase::AwaitStderr => if !ok {
            unwind_step(false, Context::QueryingStderrHandle, false, false)
        } else {
            (Phase::AwaitPoint, Action::PointStdout(Sink::Stderr))
        },
        Phase::AwaitOpen => if !ok {
            unwind_step(false, open_context(platform), false, platform is Unix)
        } else {
            (Phase::AwaitPoint, Action::PointStdout(Sink::Null))
        },
        Phase::AwaitPoint => if !ok {
            unwind_step(sink is Null, point_context(platform), false, platform is Unix)
        } else {
            launch_step(platform is Unix && sink is Null)
        },
        Phase::Launch { close_null } => launch_step(close_null),
        Phase::AwaitInner => if platform is Other {
            (Phase::Finished, Action::ReturnInner)
        } else {
            (
                Phase::Restore {
                    restored: false,
                    close_null: platform is Windows && sink is Null,
                    release_saved: platform is Unix,
                },
                Action::FlushStdout,
            )
        },
        Phase::Restore { restored, close_null, release_saved } => restore_step(
            restored,
            close_null,
            release_saved,
        ),
        Phase::Unwind { close_null, error, recorded, release_saved } => unwind_step(
            close_null,
            error,
            recorded,
            release_saved,
        ),
        Phase::Finished => (Phase::Finished, Action::ReturnInner),
    }
}

/// A redirect session: the platform, the sink and the phase reached.
pub struct Redirect {
    platform: Platform,
    sink: Sink,
    phase: Phase,
}

impl Redirect {
    /// The platform the session runs on.
    pub closed spec fn platform_spec(&self) -> Platform {
        self.platform
    }

    /// The sink fd 1 is pointed at.
    pub closed spec fn sink_spec(&self) -> Sink {
        self.sink
    }

    /// The phase reached.
    pub closed spec fn phase_spec(&self) -> Phase {
        self.phase
    }

    /// Opens a session that points fd 1 at `sink` on `platform`.
    pub fn start(platform: Platform, sink: Sink) -> (r: Redirect)
        ensures
            r.platform_spec() == platform,
            r.sink_spec() == sink,
            r.phase_spec() == Phase::Start,
    {
        Redirect { platform, sink, phase: Phase::Start }
    }

    /// Whether the session has emitted its return action.
    pub fn is_finished(&self) -> (b: bool)
        ensures
            b == (self.phase_spec() is Finished),
    {
        match self.phase {
            Phase::Finished => true,
            _ => false,
        }
    }

    /// The next action, given whether the previous one succeeded (the
    /// answer is ignored where the previous action has no outcome).
    pub fn next(&mut self, ok: bool) -> (action: Action)
        requires
            !(old(self).phase_spec() is Finished),
        ensures
            final(self).platform_spec() == old(self).platform_spec(),
            final(self).sink_spec() == old(self).sink_spec(),
            (final(self).phase_spec(), action) == transition(
                old(self).platform_spec(),
                old(self).sink_spec(),
                old(self).phase_spec(),
                ok,
            ),
    {
        let platform = self.platform;
        let sink = self.sink;
        let unix = match platform {
            Platform::Unix => true,
            _ => false,
        };
        let windows = match platform {
            Platform::Windows => true,
            _ => false,
        };
        let null = match sink {
            Sink::Null => true,
            Sink::Stderr => false,
        };
        let (phase, action) = match self.phase {
            Phase::Start => if !unix && !windows {
                (Phase::AwaitInner, Action::RunInner)
            } else {
                (Phase::Flushed, Action::FlushStdout)
            },
            Phase::Flushed => (Phase::AwaitSave, Action::SaveStdout),
            Phase::AwaitSave => if !ok {
                let error = if windows {
                    Context::QueryingStdoutHandle
                } else {
                    Context::DuplicatingStdout
                };
                Self::unwind(false, error, false, false)
            } else if null {
                (Phase::AwaitOpen, Action::OpenNull)
            } else if windows {
                (Phase::AwaitStderr, Action::QueryStderr)
            } else {
                (Phase::AwaitPoint, Action::PointStdout(Sink::Stderr))
            },
            Phase::AwaitStderr => if !ok {
                Self::unwind(false, Context::QueryingStderrHandle, false, false)
            } else {
                (Phase::AwaitPoint, Action::PointStdout(Sink::Stderr))
            },
            Phase::AwaitOpen => if !ok {
                let error = if windows {
                    Context::OpeningNulDevice
                } else {
                    Context::OpeningDevNull
                };
                Self::unwind(false, error, false, unix)
            } else {
                (Phase::AwaitPoint, Action::PointStdout(Sink::Null))
            },
            Phase::AwaitPoint => if !ok {
                let error = if windows {
                    Context::RedirectingStdoutHandle
                } else {
                    Context::RedirectingStdout
                };
                Self::unwind(null, error, false, unix)
            } else {
                Self::launch(unix && null)
            },
            Phase::Launch { close_null } => Self::launch(close_null),
            Phase::AwaitInner => if !unix && !windows {
                (Phase::Finished, Action::ReturnInner)
            } else {
                (
                    Phase::Restore {
                        restored: false,
                        close_null: windows && null,
                        release_saved: unix,
                    },
                    Action::FlushStdout,
                )
            },
            Phase::Restore { restored, close_null, release_saved } => Self::restore(
                restored,
                close_null,
                release_saved,
            ),
            Phase::Unwind { close_null, error, recorded, release_saved } => Self::unwind(
                close_null,
                error,
                recorded,
                release_saved,
            ),
            Phase::Finished => (Phase::Finished, Action::ReturnInner),
        };
        self.phase = phase;
        action
    }

    fn unwind(close_null: bool, error: Context, recorded: bool, release_saved: bool) -> (r: (
        Phase,
        Action,
    ))
        ensures
            r == unwind_step(close_null, error, recorded, release_saved),
    {
        if close_null {
            (Phase::Unwind { close_null: false, error, recorded, release_saved }, Action::CloseNull)
        } else if !recorded {
            (
                Phase::Unwind { close_null: false, error, recorded: true, release_saved },
                Action::RecordError(error),
            )
        } else if release_saved {
            (
                Phase::Unwind { close_null: false, error, recorded: true, release_saved: false },
                Action::ReleaseSaved,
            )
        } else {
            (Phase::Finished, Action::ReturnError)
        }
    }

    fn restore(restored: bool, close_null: bool, release_saved: bool) -> (r: (Phase, Action))
        ensures
            r == restore_step(restored, close_null, release_saved),
    {
        if !restored {
            (Phase::Restore { restored: true, close_null, release_saved }, Action::RestoreStdout)
        } else if close_null {
            (Phase::Restore { restored: true, close_null: false, release_saved }, Action::CloseNull)
        } else if release_saved {
            (
                Phase::Restore { restored: true, close_null: false, release_saved: false },
                Action::ReleaseSaved,
            )
        } else {
            (Phase::Finished, Action::ReturnInner)
        }
    }

    fn launch(close_null: bool) -> (r: (Phase, Action))
        ensures
            r == launch_step(close_null),
    {
        if close_null {
            (Phase::Launch { close_null: false }, Action::CloseNull)
        } else {
            (Phase::AwaitInner, Action::RunInner)
        }
    }
}

/// The message of each failure context.
pub open spec fn context_message(c: Context) -> Seq<char> {
    match c {
        Context::DuplicatingStdout => "duplicating stdout"@,
        Context::OpeningDevNull => "opening /dev/null"@,
        Context::RedirectingStdout => "redirecting stdout"@,
        Context::QueryingStdoutHandle => "querying stdout handle"@,
        Context::QueryingStderrHandle => "querying stderr handle"@,
        Context::OpeningNulDevice => "opening NUL device"@,
        Context::RedirectingStdoutHandle => "redirecting stdout handle"@,
    }
}

/// The message that names the failed step.
pub fn context_text(c: Context) -> (t: &'static str)
    ensures
        t@ == context_message(c),
{
    match c {
        Context::DuplicatingStdout => "duplicating stdout",
        Context::OpeningDevNull => "opening /dev/null",
        Context::RedirectingStdout => "redirecting stdout",
        Context::QueryingStdoutHandle => "querying stdout handle",
        Context::QueryingStderrHandle => "querying stderr handle",
        Context::OpeningNulDevice => "opening NUL device",
        Context::RedirectingStdoutHandle => "redirecting stdout handle",
    }
}

/// The error of a failed step: a release error whose message is the step's
/// context, a colon and a space, then `detail`, the operating system's
/// description of its last error.
pub fn os_error(context: Context, detail: &str) -> (e: Error)
    ensures
        e matches Error::Release(m) && m@ == context_message(context) + ": "@ + detail@,
{
    let mut message = String::from_str(context_text(context));
    message.append(": ");
    message.append(detail);
    Error::Release(message)
}

} // verus!
