use self_update_extras::redirect::{context_text, os_error, Action, Context, Platform, Redirect};
use self_update_extras::silence::{Error, Sink};

use Action::{
    CloseNull, FlushStdout, OpenNull, PointStdout, QueryStderr, RecordError, ReleaseSaved, RestoreStdout,
    ReturnError, ReturnInner, RunInner, SaveStdout,
};

/// Drive a session, answering every action with success except the first
/// occurrence of `fail`, and collect the actions it emits.
fn trace(platform: Platform, sink: Sink, fail: Option<Action>) -> Vec<Action> {
    let mut session = Redirect::start(platform, sink);
    let mut actions = Vec::new();
    let mut ok = true;
    let mut failed = false;
    while !session.is_finished() {
        assert!(actions.len() < 10, "a session returns within ten actions");
        let action = session.next(ok);
        ok = !(Some(action) == fail && !failed);
        if !ok {
            failed = true;
        }
        actions.push(action);
    }
    actions
}

#[test]
fn unix_stderr_success() {
    assert_eq!(
        trace(Platform::Unix, Sink::Stderr, None),
        vec![FlushStdout, SaveStdout, PointStdout(Sink::Stderr), RunInner, FlushStdout, RestoreStdout, ReleaseSaved, ReturnInner]
    );
}

#[test]
fn unix_null_success_closes_the_device_before_running() {
    assert_eq!(
        trace(Platform::Unix, Sink::Null, None),
        vec![
            FlushStdout, SaveStdout, OpenNull, PointStdout(Sink::Null), CloseNull, RunInner,
            FlushStdout, RestoreStdout, ReleaseSaved, ReturnInner
        ]
    );
}

#[test]
fn windows_stderr_success() {
    assert_eq!(
        trace(Platform::Windows, Sink::Stderr, None),
        vec![FlushStdout, SaveStdout, QueryStderr, PointStdout(Sink::Stderr), RunInner, FlushStdout, RestoreStdout, ReturnInner]
    );
}

#[test]
fn windows_null_success_closes_the_device_after_restoring() {
    assert_eq!(
        trace(Platform::Windows, Sink::Null, None),
        vec![
            FlushStdout, SaveStdout, OpenNull, PointStdout(Sink::Null), RunInner, FlushStdout,
            RestoreStdout, CloseNull, ReturnInner
        ]
    );
}

#[test]
fn other_platforms_run_the_update_unchanged() {
    assert_eq!(trace(Platform::Other, Sink::Null, None), vec![RunInner, ReturnInner]);
    assert_eq!(trace(Platform::Other, Sink::Stderr, None), vec![RunInner, ReturnInner]);
}

#[test]
fn unix_save_failure() {
    assert_eq!(
        trace(Platform::Unix, Sink::Null, Some(SaveStdout)),
        vec![FlushStdout, SaveStdout, RecordError(Context::DuplicatingStdout), ReturnError]
    );
}

#[test]
fn unix_open_failure_releases_the_saved_descriptor() {
    assert_eq!(
        trace(Platform::Unix, Sink::Null, Some(OpenNull)),
        vec![FlushStdout, SaveStdout, OpenNull, RecordError(Context::OpeningDevNull), ReleaseSaved, ReturnError]
    );
}

#[test]
fn unix_point_failure_to_stderr() {
    assert_eq!(
        trace(Platform::Unix, Sink::Stderr, Some(PointStdout(Sink::Stderr))),
        vec![
            FlushStdout, SaveStdout, PointStdout(Sink::Stderr),
            RecordError(Context::RedirectingStdout), ReleaseSaved, ReturnError
        ]
    );
}

#[test]
fn unix_point_failure_to_null_closes_everything() {
    assert_eq!(
        trace(Platform::Unix, Sink::Null, Some(PointStdout(Sink::Null))),
        vec![
            FlushStdout, SaveStdout, OpenNull, PointStdout(Sink::Null), CloseNull,
            RecordError(Context::RedirectingStdout), ReleaseSaved, ReturnError
        ]
    );
}

#[test]
fn windows_save_failure() {
    assert_eq!(
        trace(Platform::Windows, Sink::Stderr, Some(SaveStdout)),
        vec![FlushStdout, SaveStdout, RecordError(Context::QueryingStdoutHandle), ReturnError]
    );
}

#[test]
fn windows_stderr_query_failure() {
    assert_eq!(
        trace(Platform::Windows, Sink::Stderr, Some(QueryStderr)),
        vec![FlushStdout, SaveStdout, QueryStderr, RecordError(Context::QueryingStderrHandle), ReturnError]
    );
}

#[test]
fn windows_open_failure() {
    assert_eq!(
        trace(Platform::Windows, Sink::Null, Some(OpenNull)),
        vec![FlushStdout, SaveStdout, OpenNull, RecordError(Context::OpeningNulDevice), ReturnError]
    );
}

#[test]
fn windows_point_failure_closes_the_device_before_reporting() {
    assert_eq!(
        trace(Platform::Windows, Sink::Null, Some(PointStdout(Sink::Null))),
        vec![
            FlushStdout, SaveStdout, OpenNull, PointStdout(Sink::Null), CloseNull,
            RecordError(Context::RedirectingStdoutHandle), ReturnError
        ]
    );
    assert_eq!(
        trace(Platform::Windows, Sink::Stderr, Some(PointStdout(Sink::Stderr))),
        vec![
            FlushStdout, SaveStdout, QueryStderr, PointStdout(Sink::Stderr),
            RecordError(Context::RedirectingStdoutHandle), ReturnError
        ]
    );
}

#[test]
fn answers_to_steps_without_outcome_are_ignored() {
    // Failing a flush, a close or the update itself changes nothing.
    assert_eq!(trace(Platform::Unix, Sink::Null, Some(FlushStdout)), trace(Platform::Unix, Sink::Null, None));
    assert_eq!(trace(Platform::Unix, Sink::Null, Some(CloseNull)), trace(Platform::Unix, Sink::Null, None));
    assert_eq!(trace(Platform::Unix, Sink::Null, Some(RunInner)), trace(Platform::Unix, Sink::Null, None));
}

/// Where fd 1 points in the simulation below.
#[derive(Clone, Copy, Debug, PartialEq)]
enum Dest {
    Original,
    Stderr,
    Null,
}

#[test]
fn every_answer_pattern_restores_stdout_and_releases_everything() {
    for platform in [Platform::Unix, Platform::Windows, Platform::Other] {
        for sink in [Sink::Stderr, Sink::Null] {
            for pattern in 0u32..1024 {
                let mut session = Redirect::start(platform, sink);
                let (mut stdout, mut saved, mut owned, mut null_open) = (Dest::Original, false, false, false);
                let (mut clean, mut runs, mut errors, mut inner_dest) = (false, 0, 0, Dest::Original);
                let mut pending: Option<Action> = None;
                let mut steps = 0;
                let mut ok = true;
                let returned = loop {
                    // The answer takes effect on the action waited for.
                    match pending.take() {
                        Some(SaveStdout) if ok => {
                            saved = true;
                            owned = platform == Platform::Unix;
                        }
                        Some(OpenNull) if ok => null_open = true,
                        Some(PointStdout(t)) if ok => {
                            assert!(clean, "fd 1 moved with output pending");
                            assert!(t == Sink::Stderr || null_open);
                            stdout = if t == Sink::Null { Dest::Null } else { Dest::Stderr };
                        }
                        _ => {}
                    }
                    assert!(steps < 10);
                    let action = session.next(ok);
                    ok = pattern & (1 << steps) == 0;
                    steps += 1;
                    match action {
                        SaveStdout | QueryStderr | OpenNull | PointStdout(_) => pending = Some(action),
                        FlushStdout => clean = true,
                        CloseNull => {
                            // Windows' fd 1 borrows the handle; it must not be closed under it.
                            assert!(!(platform == Platform::Windows && stdout == Dest::Null));
                            null_open = false;
                        }
                        ReleaseSaved => {
                            saved = false;
                            owned = false;
                        }
                        RecordError(_) => errors += 1,
                        RunInner => {
                            if platform != Platform::Other {
                                assert!(saved);
                                assert_eq!(owned, platform == Platform::Unix);
                                assert_eq!(null_open, platform == Platform::Windows && sink == Sink::Null);
                            }
                            runs += 1;
                            inner_dest = stdout;
                            clean = false;
                        }
                        RestoreStdout => {
                            assert!(saved && clean);
                            stdout = Dest::Original;
                        }
                        ReturnError => break ReturnError,
                        ReturnInner => break ReturnInner,
                    }
                };
                assert!(session.is_finished());
                assert_eq!(stdout, Dest::Original);
                assert!(!null_open && !owned);
                assert_eq!(returned == ReturnInner, runs == 1 && errors == 0);
                assert_eq!(returned == ReturnError, runs == 0 && errors == 1);
                if returned == ReturnError {
                    assert!(!null_open && !owned && stdout == Dest::Original);
                }
                if runs == 1 {
                    let expected = match (platform, sink) {
                        (Platform::Other, _) => Dest::Original,
                        (_, Sink::Null) => Dest::Null,
                        (_, Sink::Stderr) => Dest::Stderr,
                    };
                    assert_eq!(inner_dest, expected);
                }
                if pattern == 0 {
                    assert_eq!(returned, ReturnInner);
                }
            }
        }
    }
}

#[test]
fn context_messages() {
    assert_eq!(context_text(Context::DuplicatingStdout), "duplicating stdout");
    assert_eq!(context_text(Context::OpeningDevNull), "opening /dev/null");
    assert_eq!(context_text(Context::RedirectingStdout), "redirecting stdout");
    assert_eq!(context_text(Context::QueryingStdoutHandle), "querying stdout handle");
    assert_eq!(context_text(Context::QueryingStderrHandle), "querying stderr handle");
    assert_eq!(context_text(Context::OpeningNulDevice), "opening NUL device");
    assert_eq!(context_text(Context::RedirectingStdoutHandle), "redirecting stdout handle");
}

#[test]
fn os_error_joins_context_and_detail() {
    match os_error(Context::OpeningDevNull, "No such file or directory (os error 2)") {
        Error::Release(m) => assert_eq!(m, "opening /dev/null: No such file or directory (os error 2)"),
        Error::Config(m) => panic!("unexpected config error {m}"),
    }
}
