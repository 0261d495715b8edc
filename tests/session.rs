use bpproc::command_line::ArgError;
use bpproc::session::{process_line, step, Action, CallState, Event, ANY_ID, BREAKPOINT_CODE};
use bpproc::status::{CallError, E_FAIL, S_OK};

/// Feeds the events to a new call and collects every action.
fn run(events: Vec<Event>) -> (CallState, Vec<Action>) {
    let mut state = CallState::new();
    let mut actions = Vec::new();
    for e in events {
        let (next, a) = step(&state, &e);
        state = next;
        actions.push(a);
    }
    (state, actions)
}

fn requested_breakpoint(actions: &[Action]) -> bool {
    actions.iter().any(|a| matches!(a, Action::RequestBreakpoint { .. }))
}

#[test]
fn bpproc_plain_name_succeeds() {
    let (state, actions) = run(vec![
        Event::Invoked("myapp.exe".to_string()),
        Event::Acquired(true),
        Event::HostDone(Ok(())),
        Event::HostDone(Ok(())),
    ]);
    assert_eq!(
        actions,
        vec![
            Action::AcquireControl,
            Action::Print("process: myapp.exe".to_string()),
            Action::RequestBreakpoint { kind: BREAKPOINT_CODE, id: ANY_ID },
            Action::Return(S_OK),
        ]
    );
    assert_eq!(ANY_ID, 0xffff_ffff);
    assert_eq!(state.status(), Some(S_OK));
}

#[test]
fn bpproc_without_argument_fails_before_body() {
    let (state, actions) = run(vec![Event::Invoked(String::new()), Event::Reported(true)]);
    assert_eq!(
        actions,
        vec![
            Action::Report(CallError::Parse(ArgError::MissingProcess).render()),
            Action::Return(E_FAIL),
        ]
    );
    assert!(!requested_breakpoint(&actions));
    assert!(!actions.contains(&Action::AcquireControl));
    assert_eq!(state.status(), Some(E_FAIL));
}

#[test]
fn bpproc_quoted_name_with_space() {
    let (state, actions) = run(vec![
        Event::Invoked("\"my app.exe\"".to_string()),
        Event::Acquired(true),
        Event::HostDone(Ok(())),
        Event::HostDone(Ok(())),
    ]);
    assert_eq!(
        actions,
        vec![
            Action::AcquireControl,
            Action::Print("process: my app.exe".to_string()),
            Action::RequestBreakpoint { kind: BREAKPOINT_CODE, id: ANY_ID },
            Action::Return(S_OK),
        ]
    );
    assert_eq!(state.status(), Some(S_OK));
}

#[test]
fn open_quote_fails_before_parsing() {
    let (state, actions) = run(vec![
        Event::Invoked("\"my app.exe".to_string()),
        Event::Reported(false),
    ]);
    assert_eq!(
        actions,
        vec![
            Action::Report("error: missing closing quote".to_string()),
            Action::Return(E_FAIL),
        ]
    );
    assert_eq!(state.status(), Some(E_FAIL));
}

#[test]
fn missing_capability_still_completes() {
    let (state, actions) = run(vec![
        Event::Invoked("myapp.exe".to_string()),
        Event::Acquired(false),
        Event::Reported(false),
    ]);
    assert_eq!(
        actions,
        vec![
            Action::AcquireControl,
            Action::Report(CallError::Acquire.render()),
            Action::Return(E_FAIL),
        ]
    );
    assert!(!requested_breakpoint(&actions));
    assert_eq!(state.status(), Some(E_FAIL));
}

#[test]
fn console_outcome_does_not_change_status() {
    for ok in [true, false] {
        let (state, actions) = run(vec![
            Event::Invoked("a b".to_string()),
            Event::Reported(ok),
        ]);
        assert_eq!(actions[1], Action::Return(E_FAIL));
        assert_eq!(state.status(), Some(E_FAIL));
    }
}

#[test]
fn failed_print_returns_native_code() {
    let code = 0x8007_0005u32 as i32;
    let (state, actions) = run(vec![
        Event::Invoked("myapp.exe".to_string()),
        Event::Acquired(true),
        Event::HostDone(Err(code)),
        Event::Reported(true),
    ]);
    assert_eq!(
        actions[2],
        Action::Report("error: host operation failed with status 0x80070005".to_string())
    );
    assert_eq!(actions[3], Action::Return(code));
    assert!(!requested_breakpoint(&actions));
    assert_eq!(state.status(), Some(code));
}

#[test]
fn failed_breakpoint_returns_native_code() {
    let code = 0x8000_ffffu32 as i32;
    let (state, actions) = run(vec![
        Event::Invoked("myapp.exe".to_string()),
        Event::Acquired(true),
        Event::HostDone(Ok(())),
        Event::HostDone(Err(code)),
        Event::Reported(true),
    ]);
    assert_eq!(actions[4], Action::Return(code));
    assert_eq!(state.status(), Some(code));
}

#[test]
fn finished_call_keeps_its_status() {
    let (state, actions) = run(vec![
        Event::Invoked("myapp.exe".to_string()),
        Event::Acquired(true),
        Event::HostDone(Ok(())),
        Event::HostDone(Ok(())),
        Event::Acquired(true),
        Event::Invoked("other".to_string()),
    ]);
    assert_eq!(actions[4], Action::Return(S_OK));
    assert_eq!(actions[5], Action::Return(S_OK));
    assert_eq!(state.status(), Some(S_OK));
}

#[test]
fn unexpected_event_fails_the_call() {
    let (state, actions) = run(vec![Event::Acquired(true)]);
    assert_eq!(actions, vec![Action::Return(E_FAIL)]);
    assert_eq!(state.status(), Some(E_FAIL));
    assert_eq!(CallState::new().status(), None);
}

#[test]
fn confirmation_line() {
    assert_eq!(process_line(&"x.exe".to_string()), "process: x.exe");
}
