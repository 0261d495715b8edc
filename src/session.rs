//! One command call as a state machine. The caller performs each action on the
//! host and hands back what came of it; the machine decides what happens next,
//! down to the status code the host receives.

use vstd::prelude::*;
use vstd::string::StringExecFns;

use crate::command_line::{parse_call, parse_line_spec};
use crate::command_line::{parse_args_spec, shell_split, ArgFault};
use crate::status::{arg_error_text, error_text, status_of, status_spec, CallError, CallFault, E_FAIL, S_OK};

verus! {

/// The host's breakpoint kind for a code breakpoint.
pub const BREAKPOINT_CODE: u32 = 0;

/// The identifier that lets the host choose a new breakpoint's id.
pub const ANY_ID: u32 = 0xffff_ffff;

/// Where a call stands.
#[derive(Clone, Debug, PartialEq, Eq)]
pub enum CallState {
    /// The call has not started.
    Idle,
    /// The arguments parsed; the control capability has been asked for.
    Acquiring(String),
    /// The confirmation line has been sent to the host console.
    Printing,
    /// The breakpoint has been requested.
    Requesting,
    /// A diagnostic is being reported; the call ends with this status code.
    Reporting(i32),
    /// The call has ended with this status code.
    Finished(i32),
}

/// What the host, or the caller on its behalf, reports back.
#[derive(Debug, PartialEq, Eq)]
pub enum Event {
    /// The host invoked the command with this argument line.
    Invoked(String),
    /// Whether the control capability could be had from the client.
    Acquired(bool),
    /// The outcome of a host operation: success, or its native status code.
    HostDone(Result<(), i32>),
    /// The diagnostic was written to the local log; whether the host console
    /// took it too.
    Reported(bool),
}

/// What the caller is to do next.
#[derive(Clone, Debug, PartialEq, Eq)]
pub enum Action {
    /// Ask the client for its control capability.
    AcquireControl,
    /// Print this line on the host console through the control capability.
    Print(String),
    /// Ask the host for a new breakpoint of this kind and identifier.
    RequestBreakpoint { kind: u32, id: u32 },
    /// Show this diagnostic on the host console if it can be reached, and write
    /// it to the local log in any case.
    Report(String),
    /// Return this status code to the host.
    Return(i32),
}

/// The mathematical counterpart of [`CallState`].
pub enum CallStateV {
    Idle,
    Acquiring(Seq<char>),
    Printing,
    Requesting,
    Reporting(i32),
    Finished(i32),
}

/// The mathematical counterpart of [`Event`].
pub enum EventV {
    Invoked(Seq<char>),
    Acquired(bool),
    HostDone(Result<(), i32>),
    Reported(bool),
}

/// The mathematical counterpart of [`Action`].
pub enum ActionV {
    AcquireControl,
    Print(Seq<char>),
    RequestBreakpoint { kind: u32, id: u32 },
    Report(Seq<char>),
    Return(i32),
}

impl View for CallState {
    type V = CallStateV;

    open spec fn view(&self) -> CallStateV {
        match self {
            CallState::Idle => CallStateV::Idle,
            CallState::Acquiring(p) => CallStateV::Acquiring(p@),
            CallState::Printing => CallStateV::Printing,
            CallState::Requesting => CallStateV::Requesting,
            CallState::Reporting(c) => CallStateV::Reporting(*c),
            CallState::Finished(c) => CallStateV::Finished(*c),
        }
    }
}

impl View for Event {
    type V = EventV;

    open spec fn view(&self) -> EventV {
        match self {
            Event::Invoked(line) => EventV::Invoked(line@),
            Event::Acquired(ok) => EventV::Acquired(*ok),
            Event::HostDone(r) => EventV::HostDone(*r),
            Event::Reported(ok) => EventV::Reported(*ok),
        }
    }
}

impl View for Action {
    type V = ActionV;

    open spec fn view(&self) -> ActionV {
        match self {
            Action::AcquireControl => ActionV::AcquireControl,
            Action::Print(line) => ActionV::Print(line@),
            Action::RequestBreakpoint { kind, id } => ActionV::RequestBreakpoint { kind: *kind, id: *id },
            Action::Report(text) => ActionV::Report(text@),
            Action::Return(c) => ActionV::Return(*c),
        }
    }
}

/// The confirmation line that names the process to watch.
pub open spec fn process_text(process: Seq<char>) -> Seq<char> {
    "process: "@ + process
}

/// The step that reports a failure and ends the call with its status code.
pub open spec fn fail_step(f: CallFault) -> (CallStateV, ActionV) {
    let code = status_spec(Err(f));
    (CallStateV::Reporting(code), ActionV::Report(error_text(f)))
}

/// The next state and action of a call in state `s` on event `e`. A call that
/// reports a diagnostic ends with its status code whatever the console made of
/// it; any other event that the state does not wait for ends the call with the
/// generic failure.
pub open spec fn step_spec(s: CallStateV, e: EventV) -> (CallStateV, ActionV) {
    match (s, e) {
        (CallStateV::Idle, EventV::Invoked(line)) => match parse_line_spec(line) {
            Ok(p) => (CallStateV::Acquiring(p), ActionV::AcquireControl),
            Err(f) => fail_step(f),
        },
        (CallStateV::Acquiring(p), EventV::Acquired(ok)) => if ok {
            (CallStateV::Printing, ActionV::Print(process_text(p)))
        } else {
            fail_step(CallFault::Acquire)
        },
        (CallStateV::Printing, EventV::HostDone(Ok(()))) => (
            CallStateV::Requesting,
            ActionV::RequestBreakpoint { kind: BREAKPOINT_CODE, id: ANY_ID },
        ),
        (CallStateV::Printing, EventV::HostDone(Err(code))) => fail_step(CallFault::HostOperation(code)),
        (CallStateV::Requesting, EventV::HostDone(Ok(()))) => {
            let code = status_spec(Ok(()));
            (CallStateV::Finished(code), ActionV::Return(code))
        },
        (CallStateV::Requesting, EventV::HostDone(Err(code))) => fail_step(CallFault::HostOperation(code)),
        (CallStateV::Reporting(code), _) => (CallStateV::Finished(code), ActionV::Return(code)),
        (CallStateV::Finished(code), _) => (CallStateV::Finished(code), ActionV::Return(code)),
        _ => (CallStateV::Finished(E_FAIL), ActionV::Return(E_FAIL)),
    }
}

/// The actions of a call in state `s` over a run of events, one per event.
pub open spec fn run_actions(s: CallStateV, events: Seq<EventV>) -> Seq<ActionV>
    decreases events.len(),
{
    if events.len() == 0 {
        Seq::empty()
    } else {
        let (next, a) = step_spec(s, events[0]);
        seq![a] + run_actions(next, events.drop_first())
    }
}

/// The confirmation line that names the process to watch.
pub fn process_line(process: &String) -> (r: String)
    ensures
        r@ == process_text(process@),
{
    String::from_str("process: ").concat(process.as_str())
}

/// The step that reports `err` and ends the call with its status code.
fn fail(err: CallError) -> (r: (CallState, Action))
    ensures
        (r.0@, r.1@) == fail_step(err@),
{
    let text = err.render();
    let code = status_of(&Err(err));
    (CallState::Reporting(code), Action::Report(text))
}

impl CallState {
    /// A call that has not started.
    pub fn new() -> (r: CallState)
        ensures
            r@ == CallStateV::Idle,
    {
        CallState::Idle
    }

    /// Whether the call has ended, and with which status code.
    pub fn status(&self) -> (r: Option<i32>)
        ensures
            r == match self@ {
                CallStateV::Finished(code) => Some(code),
                _ => None,
            },
    {
        match self {
            CallState::Finished(code) => Some(*code),
            _ => None,
        }
    }
}

/// Moves a call on by one event: the next state, and the action to perform.
pub fn step(state: &CallState, event: &Event) -> (r: (CallState, Action))
    ensures
        (r.0@, r.1@) == step_spec(state@, event@),
{
    match (state, event) {
        (CallState::Idle, Event::Invoked(line)) => match parse_call(line.as_str()) {
            Ok(args) => (CallState::Acquiring(args.process), Action::AcquireControl),
            Err(e) => fail(e),
        },
        (CallState::Acquiring(p), Event::Acquired(ok)) => if *ok {
            (CallState::Printing, Action::Print(process_line(p)))
        } else {
            fail(CallError::Acquire)
        },
        (CallState::Printing, Event::HostDone(Ok(()))) => (
            CallState::Requesting,
            Action::RequestBreakpoint { kind: BREAKPOINT_CODE, id: ANY_ID },
        ),
        (CallState::Printing, Event::HostDone(Err(code))) => fail(CallError::HostOperation(*code)),
        (CallState::Requesting, Event::HostDone(Ok(()))) => {
            let code = status_of(&Ok(()));
            (CallState::Finished(code), Action::Return(code))
        },
        (CallState::Requesting, Event::HostDone(Err(code))) => fail(CallError::HostOperation(*code)),
        (CallState::Reporting(code), _) => (CallState::Finished(*code), Action::Return(*code)),
        (CallState::Finished(code), _) => (CallState::Finished(*code), Action::Return(*code)),
        _ => (CallState::Finished(E_FAIL), Action::Return(E_FAIL)),
    }
}

/// `n` actions that each return `code` to the host.
pub open spec fn return_actions(n: nat, code: i32) -> Seq<ActionV> {
    Seq::new(n, |_i: int| ActionV::Return(code))
}

proof fn lemma_run_first(s: CallStateV, e: EventV, rest: Seq<EventV>)
    ensures
        run_actions(s, seq![e] + rest) == seq![step_spec(s, e).1] + run_actions(step_spec(s, e).0, rest),
{
    let evs = seq![e] + rest;
    assert(evs[0] == e);
    assert(evs.drop_first() == rest);
}

/// A call that has ended, or that is reporting a diagnostic, does nothing more
/// than return its one status code, whatever events follow.
pub proof fn lemma_ended_call_only_returns(code: i32, events: Seq<EventV>)
    ensures
        run_actions(CallStateV::Finished(code), events) == return_actions(events.len(), code),
        run_actions(CallStateV::Reporting(code), events) == return_actions(events.len(), code),
    decreases events.len(),
{
    if events.len() > 0 {
        let rest = events.drop_first();
        lemma_ended_call_only_returns(code, rest);
        assert(seq![ActionV::Return(code)] + return_actions(rest.len(), code) == return_actions(events.len(), code));
    } else {
        assert(return_actions(0, code) == Seq::<ActionV>::empty());
    }
}

/// When the argument line does not split or does not match the schema, the
/// call reports the failure and returns the generic failure code; the command
/// body never runs: no capability is asked for, nothing printed, no breakpoint
/// requested.
pub proof fn lemma_parse_failure_skips_body(line: Seq<char>, events: Seq<EventV>)
    requires
        parse_line_spec(line) is Err,
    ensures
        run_actions(CallStateV::Idle, seq![EventV::Invoked(line)] + events) == seq![
            ActionV::Report(error_text(parse_line_spec(line)->Err_0)),
        ] + return_actions(events.len(), E_FAIL),
{
    let f = parse_line_spec(line)->Err_0;
    assert(status_spec(Err(f)) == E_FAIL);
    lemma_run_first(CallStateV::Idle, EventV::Invoked(line), events);
    lemma_ended_call_only_returns(E_FAIL, events);
}

/// An argument line with an open quote fails to split, and the call ends with
/// the quoting diagnostic and the generic failure code before any parsing.
pub proof fn lemma_open_quote_ends_call(line: Seq<char>, events: Seq<EventV>)
    requires
        shell_split(line) is None,
    ensures
        run_actions(CallStateV::Idle, seq![EventV::Invoked(line)] + events) == seq![
            ActionV::Report("error: missing closing quote"@),
        ] + return_actions(events.len(), E_FAIL),
{
    lemma_parse_failure_skips_body(line, events);
}

/// An argument line without words fails the schema, which requires the
/// process: the call reports the missing argument and returns the generic
/// failure code without running the command body.
pub proof fn lemma_no_words_ends_call(line: Seq<char>, events: Seq<EventV>)
    requires
        shell_split(line) == Some(Seq::<Seq<char>>::empty()),
    ensures
        run_actions(CallStateV::Idle, seq![EventV::Invoked(line)] + events) == seq![
            ActionV::Report(arg_error_text(ArgFault::MissingProcess)),
        ] + return_actions(events.len(), E_FAIL),
{
    assert(parse_args_spec(Seq::<Seq<char>>::empty()) == Err::<Seq<char>, ArgFault>(ArgFault::MissingProcess));
    lemma_parse_failure_skips_body(line, events);
}

/// Whether or not the host console takes a diagnostic, the call ends with the
/// status code it was reporting.
pub proof fn lemma_report_outcome_ignored(code: i32, console_ok: bool)
    ensures
        step_spec(CallStateV::Reporting(code), EventV::Reported(console_ok)) == (
            CallStateV::Finished(code),
            ActionV::Return(code),
        ),
{
}

/// Without the control capability the call still completes: it reports the
/// missing capability, which the local log always receives, and returns the
/// generic failure code, whether or not the console could show the report.
pub proof fn lemma_missing_capability_completes(process: Seq<char>, console_ok: bool, events: Seq<EventV>)
    ensures
        run_actions(
            CallStateV::Acquiring(process),
            seq![EventV::Acquired(false), EventV::Reported(console_ok)] + events,
        ) == seq![
            ActionV::Report(error_text(CallFault::Acquire)),
            ActionV::Return(E_FAIL),
        ] + return_actions(events.len(), E_FAIL),
{
    let s = CallStateV::Acquiring(process);
    assert(seq![EventV::Acquired(false), EventV::Reported(console_ok)] + events == seq![EventV::Acquired(false)]
        + (seq![EventV::Reported(console_ok)] + events));
    lemma_run_first(s, EventV::Acquired(false), seq![EventV::Reported(console_ok)] + events);
    lemma_run_first(CallStateV::Reporting(E_FAIL), EventV::Reported(console_ok), events);
    lemma_ended_call_only_returns(E_FAIL, events);
    assert(seq![ActionV::Report(error_text(CallFault::Acquire))] + (seq![ActionV::Return(E_FAIL)] + return_actions(
        events.len(),
        E_FAIL,
    )) == seq![ActionV::Report(error_text(CallFault::Acquire)), ActionV::Return(E_FAIL)] + return_actions(
        events.len(),
        E_FAIL,
    ));
}

/// A call whose line names a process, on a host that grants the capability and
/// carries out both operations, acquires the capability, prints the process,
/// requests a code breakpoint with an identifier of the host's choosing, and
/// returns the success code.
pub proof fn lemma_successful_call(line: Seq<char>, process: Seq<char>)
    requires
        parse_line_spec(line) == Ok::<Seq<char>, CallFault>(process),
    ensures
        run_actions(
            CallStateV::Idle,
            seq![
                EventV::Invoked(line),
                EventV::Acquired(true),
                EventV::HostDone(Ok(())),
                EventV::HostDone(Ok(())),
            ],
        ) == seq![
            ActionV::AcquireControl,
            ActionV::Print(process_text(process)),
            ActionV::RequestBreakpoint { kind: BREAKPOINT_CODE, id: ANY_ID },
            ActionV::Return(S_OK),
        ],
{
    let e0 = EventV::Invoked(line);
    let e1 = EventV::Acquired(true);
    let e2 = EventV::HostDone(Ok(()));
    let evs = seq![e0, e1, e2, e2];
    assert(evs == seq![e0] + seq![e1, e2, e2]);
    assert(seq![e1, e2, e2] == seq![e1] + seq![e2, e2]);
    assert(seq![e2, e2] == seq![e2] + seq![e2]);
    assert(seq![e2] == seq![e2] + Seq::<EventV>::empty());
    lemma_run_first(CallStateV::Idle, e0, seq![e1, e2, e2]);
    lemma_run_first(CallStateV::Acquiring(process), e1, seq![e2, e2]);
    lemma_run_first(CallStateV::Printing, e2, seq![e2]);
    lemma_run_first(CallStateV::Requesting, e2, Seq::empty());
    assert(run_actions(CallStateV::Idle, evs) =~= seq![
        ActionV::AcquireControl,
        ActionV::Print(process_text(process)),
        ActionV::RequestBreakpoint { kind: BREAKPOINT_CODE, id: ANY_ID },
        ActionV::Return(S_OK),
    ]);
}

} // verus!
