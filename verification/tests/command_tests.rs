use deet::command::DebuggerCommand;

#[test]
fn test_from_tokens_keywords() {
    assert!(matches!(DebuggerCommand::from_tokens(&["q"]), Some(DebuggerCommand::Quit)));
    assert!(matches!(DebuggerCommand::from_tokens(&["quit"]), Some(DebuggerCommand::Quit)));
    assert!(matches!(DebuggerCommand::from_tokens(&["c"]), Some(DebuggerCommand::Continue)));
    assert!(matches!(DebuggerCommand::from_tokens(&["cont"]), Some(DebuggerCommand::Continue)));
    assert!(matches!(
        DebuggerCommand::from_tokens(&["continue"]),
        Some(DebuggerCommand::Continue)
    ));
    assert!(matches!(DebuggerCommand::from_tokens(&["bt"]), Some(DebuggerCommand::Backtrace)));
    assert!(matches!(DebuggerCommand::from_tokens(&["back"]), Some(DebuggerCommand::Backtrace)));
    assert!(matches!(
        DebuggerCommand::from_tokens(&["backtrace"]),
        Some(DebuggerCommand::Backtrace)
    ));
    assert!(matches!(DebuggerCommand::from_tokens(&["n"]), Some(DebuggerCommand::Next)));
    assert!(matches!(DebuggerCommand::from_tokens(&["next"]), Some(DebuggerCommand::Next)));
    assert!(matches!(DebuggerCommand::from_tokens(&["p"]), Some(DebuggerCommand::Print)));
    assert!(matches!(DebuggerCommand::from_tokens(&["print"]), Some(DebuggerCommand::Print)));
    assert!(matches!(DebuggerCommand::from_tokens(&["h"]), Some(DebuggerCommand::Help)));
    assert!(matches!(DebuggerCommand::from_tokens(&["help"]), Some(DebuggerCommand::Help)));
    assert!(matches!(DebuggerCommand::from_tokens(&["e"]), Some(DebuggerCommand::Exit)));
    assert!(matches!(DebuggerCommand::from_tokens(&["exit"]), Some(DebuggerCommand::Exit)));
}

#[test]
fn test_from_tokens_run_carries_args() {
    match DebuggerCommand::from_tokens(&["r", "one", "two"]) {
        Some(DebuggerCommand::Run(args)) => {
            assert_eq!(args, vec![String::from("one"), String::from("two")]);
        }
        other => panic!("expected Run, got {:?}", other),
    }
    match DebuggerCommand::from_tokens(&["run"]) {
        Some(DebuggerCommand::Run(args)) => assert!(args.is_empty()),
        other => panic!("expected Run, got {:?}", other),
    }
}

#[test]
fn test_from_tokens_break_carries_target() {
    match DebuggerCommand::from_tokens(&["b", "*0x401000"]) {
        Some(DebuggerCommand::BreakPoint(target)) => {
            assert_eq!(target, String::from("*0x401000"));
        }
        other => panic!("expected BreakPoint, got {:?}", other),
    }
}

#[test]
fn test_from_tokens_unknown_is_none() {
    assert!(DebuggerCommand::from_tokens(&["step"]).is_none());
    assert!(DebuggerCommand::from_tokens(&["QUIT"]).is_none());
}

#[test]
fn test_from_tokens_bare_break_is_unrecognized() {
    assert!(DebuggerCommand::from_tokens(&["b"]).is_none());
    assert!(DebuggerCommand::from_tokens(&["break"]).is_none());
}
