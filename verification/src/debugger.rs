//! The debug session and its command dispatcher.
//!
//! A `Debugger` owns the breakpoint table, at most one traced process,
//! and the symbol table, and turns each parsed command into a state
//! transition plus a report for the caller to render. Anything the
//! session cannot do itself — spawning the target, reading lines of a
//! source file, talking to the terminal — is requested from the caller
//! through the returned `Reaction` and handed back as plain values.

use vstd::prelude::*;
use vstd::string::StringSliceAdditionalSpecFns;
use crate::breakpoint::{BreakpointTable, NOT_YET_INSTALLED, TRAP_BYTE, has_addr};
use crate::command::DebuggerCommand;
use crate::inferior::{Frame, Inferior, MAX_BACKTRACE_FRAMES, Status, TraceError, frame_is_entry, frame_resolved};
use crate::parse;
use crate::symbols::SymbolTable;

verus! {

/// Where a stop landed: the instruction pointer with whatever the
/// symbol table knows of it.
pub struct StopReport {
    pub signal: i32,
    pub frame: Frame,
}

/// What resuming the traced process came to.
pub enum ContinueOutcome {
    /// There was no process to resume.
    NoProcess,
    /// The process exited with this code; the session dropped it.
    Exited(i32),
    /// The process was terminated by this signal; the session dropped it.
    Signaled(i32),
    /// The process stopped; it stays under the session's control.
    Stopped(StopReport),
    /// A trace call failed; the process is no longer controllable and
    /// the session dropped its handle.
    Failed(TraceError),
}

/// What walking the stack came to.
pub enum BacktraceOutcome {
    /// There was no process to walk: no memory access was attempted.
    NoProcess,
    Frames(Vec<Frame>),
    Failed(TraceError),
}

/// What a `break` command came to.
pub enum BreakOutcome {
    /// The breakpoint stands in the table at this display index and
    /// address — newly recorded, or already there from before.
    Recorded(usize, usize),
    /// The address resolved but could not be patched into the live
    /// process; it was not recorded.
    PatchFailed(usize),
    /// No interpretation of the argument resolved to an address.
    Unresolved,
}

/// The termination of a live process: its id, and the `errno` if the
/// kill itself failed (the session drops the handle either way).
#[derive(Clone, Copy, PartialEq, Eq, Structural, Debug)]
pub struct KillOutcome {
    pub pid: i32,
    pub error: Option<i32>,
}

/// What one dispatched command asks of the caller and reports to it.
pub enum Reaction {
    /// Any old process was dropped; spawn the target with these
    /// arguments and hand the new process id to `attach_run`.
    LaunchRequested(Vec<String>, Option<KillOutcome>),
    ContinueReport(ContinueOutcome),
    BacktraceReport(BacktraceOutcome),
    BreakReport(BreakOutcome),
    QuitReport(Option<KillOutcome>),
    /// As `QuitReport`, and the interactive loop ends.
    ExitReport(Option<KillOutcome>),
    HelpRequested,
    /// Accepted but deliberately without effect (`next`, `print`).
    Inert,
}

/// Is `s` (the part of a `break` argument after the raw-address
/// marker) `0x`- or `0X`-prefixed?
pub open spec fn has_hex_prefix(s: Seq<u8>) -> bool {
    s.len() >= 2 && s[0] == 0x30 && (s[1] == 0x78 || s[1] == 0x58)
}

/// `s` with a leading `0x`/`0X` stripped.
pub open spec fn hex_tail(s: Seq<u8>) -> Seq<u8> {
    if has_hex_prefix(s) {
        s.skip(2)
    } else {
        s
    }
}

/// Does `s` read as a hexadecimal address, with or without the
/// case-insensitive `0x` lead-in?
pub open spec fn addr_str_parses(s: Seq<u8>) -> bool {
    parse::hex_parses(hex_tail(s))
}

/// The address `s` reads as.
pub open spec fn addr_str_value(s: Seq<u8>) -> nat {
    parse::hex_value(hex_tail(s))
}

/// Does `s` open with the raw-address marker `*`?
pub open spec fn has_raw_marker(s: Seq<u8>) -> bool {
    s.len() >= 1 && s[0] == 0x2a
}

/// How a `break` argument resolves against symbol table `t`: the three
/// interpretations — raw address behind the `*` marker, decimal source
/// line, function name — are tried in that order and the first that
/// succeeds wins. `bytes` and `chars` are the argument's two views;
/// `r` is the resolved address, `None` when no interpretation holds.
pub open spec fn resolve_rel(
    t: SymbolTable,
    bytes: Seq<u8>,
    chars: Seq<char>,
    r: Option<usize>,
) -> bool {
    let raw = has_raw_marker(bytes) && addr_str_parses(bytes.skip(1));
    let dec = parse::dec_parses(bytes);
    let line_hit = dec && exists|i: int|
        0 <= i < t.lines@.len() && #[trigger] t.lines@[i].line == parse::dec_value(bytes);
    let func_hit = exists|i: int|
        0 <= i < t.functions@.len() && #[trigger] t.functions@[i].name@ == chars;
    if raw {
        match r {
            Some(v) => v == addr_str_value(bytes.skip(1)),
            None => false,
        }
    } else if line_hit {
        match r {
            Some(v) => exists|i: int|
                {
                    &&& 0 <= i < t.lines@.len()
                    &&& #[trigger] t.lines@[i].line == parse::dec_value(bytes)
                    &&& v == t.lines@[i].addr
                    &&& forall|j: int| 0 <= j < i ==> #[trigger] t.lines@[j].line != parse::dec_value(
                        bytes,
                    )
                },
            None => false,
        }
    } else if func_hit {
        match r {
            Some(v) => exists|i: int|
                {
                    &&& 0 <= i < t.functions@.len()
                    &&& #[trigger] t.functions@[i].name@ == chars
                    &&& v == t.functions@[i].low
                    &&& forall|j: int| 0 <= j < i ==> #[trigger] t.functions@[j].name@ != chars
                },
            None => false,
        }
    } else {
        match r {
            Some(_) => false,
            None => true,
        }
    }
}

/// Parse a raw address token: hexadecimal digits, with or without a
/// case-insensitive `0x` lead-in; an address too wide for the machine
/// is rejected.
pub fn parse_addr(addr: &str) -> (r: Option<usize>)
    ensures
        match r {
            Some(v) => addr_str_parses(addr.spec_bytes()) && v == addr_str_value(
                addr.spec_bytes(),
            ),
            None => !addr_str_parses(addr.spec_bytes()),
        },
{
    let bytes = addr.as_bytes();
    let from: usize = if bytes.len() >= 2 && bytes[0] == 0x30 && (bytes[1] == 0x78 || bytes[1]
        == 0x58) {
        2
    } else {
        0
    };
    let r = parse::parse_hex_usize(bytes, from);
    proof {
        if has_hex_prefix(bytes@) {
            assert(hex_tail(bytes@) =~= bytes@.skip(2));
        } else {
            assert(hex_tail(bytes@) =~= bytes@.skip(0));
        }
    }
    r
}

/// The debug session: the target's name, its symbol table, the
/// breakpoint table, and at most one traced process.
pub struct Debugger {
    pub target: String,
    pub debug_data: SymbolTable,
    pub inferior: Option<Inferior>,
    pub break_point: BreakpointTable,
}

/// Launching replays the breakpoint table into the fresh process and
/// touches nothing else of it: the table keeps its length, its
/// addresses and their display indices; `flags` runs parallel to it,
/// and an entry whose patch failed keeps its recorded byte.
pub open spec fn replay_keeps_table(pre: Debugger, post: Debugger, flags: Seq<bool>) -> bool {
    &&& post.break_point.wf()
    &&& post.break_point@.len() == pre.break_point@.len()
    &&& flags.len() == pre.break_point@.len()
    &&& forall|i: int|
        0 <= i < pre.break_point@.len() ==> #[trigger] post.break_point@[i].0
            == pre.break_point@[i].0
    &&& forall|i: int|
        0 <= i < pre.break_point@.len() && !flags[i] ==> #[trigger] post.break_point@[i].1
            == pre.break_point@[i].1
}

/// The fields of `post` that `cmd` left alone, and the process handle
/// dropped: shared by `run`, `quit` and `exit`. `k` reports the kill.
pub open spec fn kill_transition(pre: Debugger, post: Debugger, k: Option<KillOutcome>) -> bool {
    &&& post.target == pre.target
    &&& post.debug_data == pre.debug_data
    &&& post.break_point == pre.break_point
    &&& match post.inferior {
        None => true,
        Some(_) => false,
    }
    &&& match (pre.inferior, k) {
        (Some(inf), Some(ko)) => ko.pid == inf.spec_pid(),
        (None, None) => true,
        _ => false,
    }
}

/// What `continue` may do to the session: the tables never change; the
/// process survives exactly a stop, and a stop's report agrees with
/// the symbol table at the stopped instruction pointer.
pub open spec fn continue_transition(pre: Debugger, post: Debugger, o: ContinueOutcome) -> bool {
    &&& post.target == pre.target
    &&& post.debug_data == pre.debug_data
    &&& post.break_point == pre.break_point
    &&& match o {
        ContinueOutcome::NoProcess => pre.inferior is None && post == pre,
        ContinueOutcome::Stopped(rep) => {
            &&& pre.inferior is Some
            &&& post.inferior == pre.inferior
            &&& frame_resolved(pre.debug_data, rep.frame)
        },
        ContinueOutcome::Exited(_) => pre.inferior is Some && post.inferior is None,
        ContinueOutcome::Signaled(_) => pre.inferior is Some && post.inferior is None,
        ContinueOutcome::Failed(_) => pre.inferior is Some && post.inferior is None,
    }
}

/// What `break` may do to the session: resolution follows
/// `resolve_rel`; an address already in the table is reported under
/// its existing display index with nothing changed; a new address is
/// appended — with the placeholder byte when no process is live — or,
/// if patching the live process fails, not recorded at all.
pub open spec fn break_transition(
    pre: Debugger,
    post: Debugger,
    bytes: Seq<u8>,
    chars: Seq<char>,
    o: BreakOutcome,
) -> bool {
    &&& post.target == pre.target
    &&& post.debug_data == pre.debug_data
    &&& post.inferior == pre.inferior
    &&& post.break_point.wf()
    &&& match o {
        BreakOutcome::Unresolved => {
            &&& resolve_rel(pre.debug_data, bytes, chars, None)
            &&& post.break_point == pre.break_point
        },
        BreakOutcome::PatchFailed(a) => {
            &&& resolve_rel(pre.debug_data, bytes, chars, Some(a))
            &&& pre.inferior is Some
            &&& !has_addr(pre.break_point@, a)
            &&& post.break_point == pre.break_point
        },
        BreakOutcome::Recorded(idx, a) => {
            &&& resolve_rel(pre.debug_data, bytes, chars, Some(a))
            &&& if has_addr(pre.break_point@, a) {
                &&& post.break_point == pre.break_point
                &&& idx < pre.break_point@.len()
                &&& pre.break_point@[idx as int].0 == a
            } else {
                &&& idx == pre.break_point@.len()
                &&& post.break_point@.len() == idx + 1
                &&& forall|j: int|
                    0 <= j < idx ==> #[trigger] post.break_point@[j] == pre.break_point@[j]
                &&& post.break_point@[idx as int].0 == a
                &&& (pre.inferior is None ==> post.break_point@[idx as int].1
                    == NOT_YET_INSTALLED)
            }
        },
    }
}

impl Debugger {
    /// The session invariant: the breakpoint table holds each address
    /// at most once.
    pub open spec fn wf(&self) -> bool {
        self.break_point.wf()
    }

    /// A fresh session for `target`, whose debug information was
    /// already loaded into `debug_data`: no process, no breakpoints.
    pub fn new(target: &str, debug_data: SymbolTable) -> (r: Debugger)
        ensures
            r.target@ == target@,
            r.debug_data == debug_data,
            r.inferior is None,
            r.break_point@ =~= Seq::<(usize, u8)>::empty(),
            r.wf(),
    {
        Debugger {
            target: target.to_owned(),
            debug_data,
            inferior: None,
            break_point: BreakpointTable::new(),
        }
    }

    /// Resolve a `break` argument: `*`-marked raw hex address, then
    /// decimal source line, then function name; the first successful
    /// interpretation wins.
    pub fn resolve_break_target(&self, target: &str) -> (r: Option<usize>)
        ensures
            resolve_rel(self.debug_data, target.spec_bytes(), target@, r),
    {
        let bytes = target.as_bytes();
        let ghost bv = target.spec_bytes();
        if bytes.len() >= 1 && bytes[0] == 0x2a {
            let from: usize = if bytes.len() >= 3 && bytes[1] == 0x30 && (bytes[2] == 0x78
                || bytes[2] == 0x58) {
                3
            } else {
                1
            };
            proof {
                if has_hex_prefix(bv.skip(1)) {
                    assert(hex_tail(bv.skip(1)) =~= bv.skip(3));
                } else {
                    assert(hex_tail(bv.skip(1)) =~= bv.skip(1));
                }
            }
            if let Some(a) = parse::parse_hex_usize(bytes, from) {
                return Some(a);
            }
        }
        if let Some(line) = parse::parse_dec_usize(bytes) {
            if let Some(a) = self.debug_data.get_addr_for_line(line) {
                return Some(a);
            }
        }
        let name = target.to_owned();
        self.debug_data.get_addr_for_function(&name)
    }

    /// Set a breakpoint as the `break` command asks: resolve the
    /// argument, then record it — patching the live process at once if
    /// one exists, deferring to the next launch otherwise. An address
    /// already in the table is answered with its existing index and no
    /// second patch; one that fails to patch is reported, not silently
    /// kept.
    pub fn handle_break(&mut self, target: &str) -> (o: BreakOutcome)
        requires
            old(self).wf(),
        ensures
            break_transition(*old(self), *final(self), target.spec_bytes(), target@, o),
            final(self).wf(),
    {
        let resolved = self.resolve_break_target(target);
        let addr = match resolved {
            None => {
                return BreakOutcome::Unresolved;
            },
            Some(a) => a,
        };
        if let Some(existing) = self.break_point.find(addr) {
            return BreakOutcome::Recorded(existing, addr);
        }
        match &self.inferior {
            Some(inf) => match inf.write_byte(addr, TRAP_BYTE) {
                Ok(orig) => {
                    let idx = self.break_point.len();
                    self.break_point.push_new(addr, orig);
                    BreakOutcome::Recorded(idx, addr)
                },
                Err(_) => BreakOutcome::PatchFailed(addr),
            },
            None => {
                let idx = self.break_point.len();
                self.break_point.push_new(addr, NOT_YET_INSTALLED);
                BreakOutcome::Recorded(idx, addr)
            },
        }
    }

    /// Resume the traced process, if any, and interpret what comes
    /// back: a stop keeps the process and locates the stop against the
    /// symbol table; an exit, a fatal signal or a failed trace call
    /// drops the handle.
    ///
    /// A trap stop is reported and left exactly as it is: the original
    /// byte is not restored, and the process is not single-stepped
    /// past the trap before the next resume. Breakpoints are sticky —
    /// a deliberate simplification, kept on purpose rather than
    /// silently fixed; resuming from a trap re-executes the trap byte.
    pub fn handle_continue(&mut self) -> (o: ContinueOutcome)
        ensures
            continue_transition(*old(self), *final(self), o),
    {
        let inf = match self.inferior.take() {
            None => {
                return ContinueOutcome::NoProcess;
            },
            Some(inf) => inf,
        };
        match inf.continue_exec(None) {
            Err(e) => ContinueOutcome::Failed(e),
            Ok(Status::Exited(code)) => ContinueOutcome::Exited(code),
            Ok(Status::Signaled(sig)) => ContinueOutcome::Signaled(sig),
            Ok(Status::Stopped(sig, rip)) => {
                let func = self.debug_data.get_function_from_addr(rip);
                let location = self.debug_data.get_line_from_addr(rip);
                let frame = Frame { rip, func, location };
                assert(frame.rip == rip && frame.func == func && frame.location == location);
                assert(frame_resolved(self.debug_data, frame));
                self.inferior = Some(inf);
                ContinueOutcome::Stopped(StopReport { signal: sig, frame })
            },
        }
    }

    /// Walk the live process's stack, or report that there is no
    /// process — in which case no memory access is attempted and the
    /// session is untouched (this takes `&self`).
    pub fn handle_backtrace(&self) -> (o: BacktraceOutcome)
        ensures
            match o {
                BacktraceOutcome::NoProcess => self.inferior is None,
                BacktraceOutcome::Frames(frames) => {
                    &&& self.inferior is Some
                    &&& 1 <= frames@.len() <= MAX_BACKTRACE_FRAMES
                    &&& forall|k: int|
                        0 <= k < frames@.len() ==> frame_resolved(
                            self.debug_data,
                            #[trigger] frames@[k],
                        )
                    &&& forall|k: int|
                        0 <= k < frames@.len() - 1 ==> !frame_is_entry(
                            self.debug_data,
                            #[trigger] frames@[k],
                        )
                    &&& frames@.len() < MAX_BACKTRACE_FRAMES ==> frame_is_entry(
                        self.debug_data,
                        frames@[frames@.len() - 1],
                    )
                },
                BacktraceOutcome::Failed(_) => self.inferior is Some,
            },
    {
        match &self.inferior {
            None => BacktraceOutcome::NoProcess,
            Some(inf) => match inf.backtrace(&self.debug_data) {
                Ok(frames) => BacktraceOutcome::Frames(frames),
                Err(e) => BacktraceOutcome::Failed(e),
            },
        }
    }

    /// Terminate any live process and drop its handle.
    fn drop_process(&mut self) -> (k: Option<KillOutcome>)
        ensures
            kill_transition(*old(self), *final(self), k),
    {
        match self.inferior.take() {
            None => None,
            Some(inf) => {
                let pid = inf.pid();
                match inf.kill() {
                    Ok(()) => Some(KillOutcome { pid, error: None }),
                    Err(e) => Some(KillOutcome { pid, error: Some(e) }),
                }
            },
        }
    }

    /// Take control of the freshly spawned process `pid` (the caller
    /// spawned it after a `LaunchRequested`), replay the whole
    /// breakpoint table into it, and resume it once.
    ///
    /// The table keeps its addresses and order. The returned flags run
    /// parallel to the table: entry `i` was either installed into the
    /// new process or is reported `false`, its recorded byte
    /// untouched, for the caller to tell the user.
    pub fn attach_run(&mut self, pid: i32) -> (r: (Vec<bool>, ContinueOutcome))
        requires
            old(self).wf(),
        ensures
            final(self).wf(),
            final(self).target == old(self).target,
            final(self).debug_data == old(self).debug_data,
            replay_keeps_table(*old(self), *final(self), r.0@) || (r.0@.len() == 0
                && final(self).break_point == old(self).break_point),
            match r.1 {
                ContinueOutcome::NoProcess => false,
                ContinueOutcome::Stopped(rep) => {
                    &&& final(self).inferior is Some
                    &&& frame_resolved(final(self).debug_data, rep.frame)
                },
                ContinueOutcome::Exited(_) => final(self).inferior is None,
                ContinueOutcome::Signaled(_) => final(self).inferior is None,
                ContinueOutcome::Failed(_) => final(self).inferior is None,
            },
    {
        let (inferior, installed) = match Inferior::new(pid, &mut self.break_point) {
            Err(e) => {
                self.inferior = None;
                return (Vec::new(), ContinueOutcome::Failed(e));
            },
            Ok(iv) => iv,
        };
        self.inferior = Some(inferior);
        let outcome = self.handle_continue();
        (installed, outcome)
    }

    /// One step of the session state machine: apply `cmd` and say what
    /// the caller should do or print. Only `run` needs a second step —
    /// the caller spawns the target and hands the process id to
    /// `attach_run`.
    pub fn dispatch(&mut self, cmd: DebuggerCommand) -> (r: Reaction)
        requires
            old(self).wf(),
        ensures
            final(self).wf(),
            match cmd {
                DebuggerCommand::Run(args) => match r {
                    Reaction::LaunchRequested(a, k) => a == args && kill_transition(
                        *old(self),
                        *final(self),
                        k,
                    ),
                    _ => false,
                },
                DebuggerCommand::Continue => match r {
                    Reaction::ContinueReport(o) => continue_transition(*old(self), *final(self), o),
                    _ => false,
                },
                DebuggerCommand::Backtrace => match r {
                    Reaction::BacktraceReport(o) => *final(self) == *old(self) && match o {
                        BacktraceOutcome::NoProcess => final(self).inferior is None,
                        BacktraceOutcome::Frames(frames) => {
                            &&& final(self).inferior is Some
                            &&& 1 <= frames@.len() <= MAX_BACKTRACE_FRAMES
                            &&& forall|k: int|
                                0 <= k < frames@.len() ==> frame_resolved(
                                    final(self).debug_data,
                                    #[trigger] frames@[k],
                                )
                            &&& forall|k: int|
                                0 <= k < frames@.len() - 1 ==> !frame_is_entry(
                                    final(self).debug_data,
                                    #[trigger] frames@[k],
                                )
                            &&& frames@.len() < MAX_BACKTRACE_FRAMES ==> frame_is_entry(
                                final(self).debug_data,
                                frames@[frames@.len() - 1],
                            )
                        },
                        BacktraceOutcome::Failed(_) => final(self).inferior is Some,
                    },
                    _ => false,
                },
                DebuggerCommand::BreakPoint(target) => match r {
                    Reaction::BreakReport(o) => break_transition(
                        *old(self),
                        *final(self),
                        vstd::utf8::encode_utf8(target@),
                        target@,
                        o,
                    ),
                    _ => false,
                },
                DebuggerCommand::Quit => match r {
                    Reaction::QuitReport(k) => kill_transition(*old(self), *final(self), k),
                    _ => false,
                },
                DebuggerCommand::Exit => match r {
                    Reaction::ExitReport(k) => kill_transition(*old(self), *final(self), k),
                    _ => false,
                },
                DebuggerCommand::Help => r matches Reaction::HelpRequested && *final(self) == *old(
                    self,
                ),
                DebuggerCommand::Next => r matches Reaction::Inert && *final(self) == *old(self),
                DebuggerCommand::Print => r matches Reaction::Inert && *final(self) == *old(self),
            },
    {
        match cmd {
            DebuggerCommand::Run(args) => {
                let k = self.drop_process();
                Reaction::LaunchRequested(args, k)
            },
            DebuggerCommand::Continue => Reaction::ContinueReport(self.handle_continue()),
            DebuggerCommand::Backtrace => Reaction::BacktraceReport(self.handle_backtrace()),
            DebuggerCommand::BreakPoint(target) => {
                let o = self.handle_break(target.as_str());
                Reaction::BreakReport(o)
            },
            DebuggerCommand::Quit => Reaction::QuitReport(self.drop_process()),
            DebuggerCommand::Exit => Reaction::ExitReport(self.drop_process()),
            DebuggerCommand::Help => Reaction::HelpRequested,
            DebuggerCommand::Next => Reaction::Inert,
            DebuggerCommand::Print => Reaction::Inert,
        }
    }
}


/// A breakpoint registered before a `run` is honored by that run and
/// by every later one: dropping the old process (`kill_transition`,
/// what the `run`, `quit` and `exit` commands do) leaves the table
/// untouched, and replaying the table into a fresh process
/// (`replay_keeps_table`, what launching does) keeps every address at
/// its display index. So an address in the table before two sequential
/// launches is still there, unmoved, when each of them replays it.
pub proof fn lemma_breakpoint_survives_relaunch(
    s0: Debugger,
    s1: Debugger,
    s2: Debugger,
    k: Option<KillOutcome>,
    flags: Seq<bool>,
    idx: int,
    a: usize,
)
    requires
        0 <= idx < s0.break_point@.len(),
        s0.break_point@[idx].0 == a,
        kill_transition(s0, s1, k),
        replay_keeps_table(s1, s2, flags),
    ensures
        0 <= idx < s2.break_point@.len(),
        s2.break_point@[idx].0 == a,
        has_addr(s2.break_point@, a),
{
    assert(s2.break_point@[idx].0 == a);
}

} // verus!
