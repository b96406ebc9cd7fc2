use deet::breakpoint::BreakpointTable;
use deet::debugger::{
    BacktraceOutcome, BreakOutcome, ContinueOutcome, Debugger, Reaction, parse_addr,
};
use deet::command::DebuggerCommand;
use deet::inferior::{Inferior, TraceError};
use deet::symbols::SymbolTable;

// A process id that no live process can have (above any kernel's pid
// ceiling), so trace calls against it fail cleanly.
const NO_SUCH_PID: i32 = i32::MAX;

fn symbols_with(
    functions: &[(&str, usize, usize)],
    lines: &[(&str, usize, usize)],
) -> SymbolTable {
    let mut t = SymbolTable::new(String::from("main"));
    for (name, low, size) in functions {
        t.add_function(String::from(*name), *low, *size);
    }
    for (file, line, addr) in lines {
        t.add_line(String::from(*file), *line, *addr);
    }
    t
}

fn fresh_session(symbols: SymbolTable) -> Debugger {
    Debugger::new("target", symbols)
}

#[test]
fn test_parse_addr_accepts_hex_with_and_without_prefix() {
    assert_eq!(parse_addr("401000"), Some(0x401000));
    assert_eq!(parse_addr("0x401000"), Some(0x401000));
    assert_eq!(parse_addr("0X40"), Some(0x40));
    assert_eq!(parse_addr("ffffffffffffffff"), Some(usize::MAX));
}

#[test]
fn test_parse_addr_rejects_bad_tokens() {
    assert_eq!(parse_addr(""), None);
    assert_eq!(parse_addr("0x"), None);
    assert_eq!(parse_addr("zz"), None);
    assert_eq!(parse_addr("12g4"), None);
    assert_eq!(parse_addr("+ff"), None);
    // one nibble past the address width
    assert_eq!(parse_addr("10000000000000000"), None);
}

#[test]
fn test_resolve_precedence_raw_beats_line() {
    // line 401000 exists and would resolve, but the `*` marker takes
    // the token as a raw hex address
    let symbols = symbols_with(&[], &[("foo.c", 0x401000, 0xdead0), ("foo.c", 401000, 0xbeef0)]);
    let session = fresh_session(symbols);
    assert_eq!(session.resolve_break_target("*0x401000"), Some(0x401000));
    assert_eq!(session.resolve_break_target("*401000"), Some(0x401000));
}

#[test]
fn test_resolve_decimal_as_line_when_it_resolves() {
    let symbols = symbols_with(&[], &[("foo.c", 42, 0x4010aa)]);
    let session = fresh_session(symbols);
    assert_eq!(session.resolve_break_target("42"), Some(0x4010aa));
}

#[test]
fn test_resolve_decimal_falls_back_to_function_name() {
    // no line 42, but a function literally named "42"
    let symbols = symbols_with(&[("42", 0x402000, 0x10)], &[("foo.c", 7, 0x401000)]);
    let session = fresh_session(symbols);
    assert_eq!(session.resolve_break_target("42"), Some(0x402000));
}

#[test]
fn test_resolve_function_name_and_unresolved() {
    let symbols = symbols_with(&[("main", 0x401000, 0x100)], &[]);
    let session = fresh_session(symbols);
    assert_eq!(session.resolve_break_target("main"), Some(0x401000));
    assert_eq!(session.resolve_break_target("no_such_fn"), None);
    assert_eq!(session.resolve_break_target("99"), None);
}

#[test]
fn test_break_is_idempotent_on_known_address() {
    let mut session = fresh_session(symbols_with(&[], &[]));
    assert!(matches!(session.handle_break("*0x1000"), BreakOutcome::Recorded(0, 0x1000)));
    assert!(matches!(session.handle_break("*0x2000"), BreakOutcome::Recorded(1, 0x2000)));
    // breaking the first address again: no duplicate entry, display
    // index unchanged
    assert!(matches!(session.handle_break("*0x1000"), BreakOutcome::Recorded(0, 0x1000)));
    assert!(matches!(session.handle_break("*0x2000"), BreakOutcome::Recorded(1, 0x2000)));
    assert_eq!(session.break_point.len(), 2);
}

#[test]
fn test_break_unresolved_changes_nothing() {
    let mut session = fresh_session(symbols_with(&[], &[]));
    assert!(matches!(session.handle_break("nowhere"), BreakOutcome::Unresolved));
    assert_eq!(session.break_point.len(), 0);
}

#[test]
fn test_backtrace_without_process_reports_no_process() {
    let session = fresh_session(symbols_with(&[("main", 0x401000, 0x100)], &[]));
    assert!(matches!(session.handle_backtrace(), BacktraceOutcome::NoProcess));
}

#[test]
fn test_continue_without_process_reports_no_process() {
    let mut session = fresh_session(symbols_with(&[], &[]));
    assert!(matches!(session.handle_continue(), ContinueOutcome::NoProcess));
}

#[test]
fn test_deferred_breakpoints_reported_on_failed_launch() {
    // breakpoints set with no active process are replayed on launch;
    // against a process that cannot be traced, each one is
    // individually reported as failed
    let mut session = fresh_session(symbols_with(&[], &[]));
    assert!(matches!(session.handle_break("*0x1000"), BreakOutcome::Recorded(0, 0x1000)));
    assert!(matches!(session.handle_break("*0x2000"), BreakOutcome::Recorded(1, 0x2000)));
    let (installed, outcome) = session.attach_run(NO_SUCH_PID);
    // the launch never reaches the install pass: waiting for the
    // initial trace stop of a process that is not ours fails
    assert!(installed.is_empty());
    assert!(matches!(outcome, ContinueOutcome::Failed(TraceError::Os(_))));
    // the failed launch dropped the process handle and kept the table
    assert!(matches!(session.handle_continue(), ContinueOutcome::NoProcess));
    assert!(matches!(session.handle_break("*0x1000"), BreakOutcome::Recorded(0, 0x1000)));
    assert_eq!(session.break_point.len(), 2);
}

#[test]
fn test_write_byte_on_untraceable_process_fails() {
    let inferior = Inferior { pid: NO_SUCH_PID };
    assert_eq!(inferior.pid(), NO_SUCH_PID);
    assert!(inferior.write_byte(0x401000, 0xcc).is_err());
}

#[test]
fn test_launch_against_foreign_process_fails_cleanly() {
    let mut table = BreakpointTable::new();
    assert!(Inferior::new(NO_SUCH_PID, &mut table).is_err());
    assert_eq!(table.len(), 0);
}

#[test]
fn test_dispatch_quit_kills_and_reports() {
    let mut session = fresh_session(symbols_with(&[], &[]));
    // no process: nothing to kill
    match session.dispatch(DebuggerCommand::Quit) {
        Reaction::QuitReport(k) => assert!(k.is_none()),
        _ => panic!("expected QuitReport"),
    }
    // a process that cannot be signalled: the kill error is reported
    // and the handle is dropped anyway
    session.inferior = Some(Inferior { pid: NO_SUCH_PID });
    match session.dispatch(DebuggerCommand::Quit) {
        Reaction::QuitReport(Some(k)) => {
            assert_eq!(k.pid, NO_SUCH_PID);
            assert!(k.error.is_some());
        }
        _ => panic!("expected QuitReport with a kill outcome"),
    }
    assert!(matches!(session.handle_backtrace(), BacktraceOutcome::NoProcess));
}

#[test]
fn test_dispatch_run_drops_old_process_and_requests_launch() {
    let mut session = fresh_session(symbols_with(&[], &[]));
    let cmd = DebuggerCommand::from_tokens(&["r", "arg1"]).unwrap();
    match session.dispatch(cmd) {
        Reaction::LaunchRequested(args, killed) => {
            assert_eq!(args, vec![String::from("arg1")]);
            assert!(killed.is_none());
        }
        _ => panic!("expected LaunchRequested"),
    }
}

#[test]
fn test_dispatch_inert_and_help() {
    let mut session = fresh_session(symbols_with(&[], &[]));
    assert!(matches!(session.dispatch(DebuggerCommand::Next), Reaction::Inert));
    assert!(matches!(session.dispatch(DebuggerCommand::Print), Reaction::Inert));
    assert!(matches!(session.dispatch(DebuggerCommand::Help), Reaction::HelpRequested));
}

#[test]
fn test_break_on_live_process_that_rejects_patch() {
    // with a process the kernel will not let us patch, the address
    // must not silently appear as "set"
    let mut session = fresh_session(symbols_with(&[], &[]));
    session.inferior = Some(Inferior { pid: NO_SUCH_PID });
    assert!(matches!(session.handle_break("*0x3000"), BreakOutcome::PatchFailed(0x3000)));
    assert_eq!(session.break_point.len(), 0);
}

#[test]
fn test_backtrace_on_untraceable_process_fails() {
    let mut session = fresh_session(symbols_with(&[("main", 0x401000, 0x100)], &[]));
    session.inferior = Some(Inferior { pid: NO_SUCH_PID });
    assert!(matches!(
        session.handle_backtrace(),
        BacktraceOutcome::Failed(TraceError::Os(_))
    ));
}

#[test]
fn test_dispatch_exit_ends_session() {
    let mut session = fresh_session(symbols_with(&[], &[]));
    match session.dispatch(DebuggerCommand::Exit) {
        Reaction::ExitReport(k) => assert!(k.is_none()),
        _ => panic!("expected ExitReport"),
    }
}

#[test]
fn test_dispatch_break_and_backtrace_reports() {
    let mut session = fresh_session(symbols_with(&[("main", 0x401000, 0x100)], &[]));
    let cmd = DebuggerCommand::from_tokens(&["b", "main"]).unwrap();
    match session.dispatch(cmd) {
        Reaction::BreakReport(BreakOutcome::Recorded(0, 0x401000)) => {}
        _ => panic!("expected the breakpoint recorded at index 0"),
    }
    assert!(matches!(
        session.dispatch(DebuggerCommand::Backtrace),
        Reaction::BacktraceReport(BacktraceOutcome::NoProcess)
    ));
    assert!(matches!(
        session.dispatch(DebuggerCommand::Continue),
        Reaction::ContinueReport(ContinueOutcome::NoProcess)
    ));
}

#[test]
fn test_wait_and_continue_exec_on_foreign_process_fail() {
    let inferior = Inferior { pid: NO_SUCH_PID };
    assert!(matches!(inferior.wait(), Err(TraceError::Os(_))));
    assert!(matches!(inferior.continue_exec(None), Err(TraceError::Os(_))));
    assert!(inferior.read_registers().is_err());
    assert!(inferior.kill().is_err());
}

#[test]
fn test_continue_exec_rejects_invalid_signal_number() {
    let inferior = Inferior { pid: NO_SUCH_PID };
    // 0 is no deliverable signal: the resume is refused before any
    // trace call, with the invalid-argument errno
    assert_eq!(inferior.continue_exec(Some(0)), Err(TraceError::Os(22)));
}
