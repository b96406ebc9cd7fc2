//! The traced process and its control primitives.
//!
//! An `Inferior` owns one live OS process under trace control. It can
//! be resumed, waited on, patched one byte at a time, and walked for a
//! call stack. What the kernel reports is outside this crate's reach:
//! the wrappers in `trace` promise nothing of the values they return,
//! and every function here states what holds of its result whatever
//! came back.

use vstd::prelude::*;
use crate::breakpoint::{BreakpointTable, TRAP_BYTE};
use crate::symbols::SymbolTable;
use crate::symbols;
use crate::trace;
use crate::trace::WaitEvent;
use crate::word;

verus! {

/// State of the traced process as reported by a wait: stopped by a
/// signal at an instruction pointer, exited with a code, or killed by
/// a signal. Signals are plain signal numbers.
#[derive(Clone, Copy, PartialEq, Eq, Structural, Debug)]
pub enum Status {
    Stopped(i32, usize),
    Exited(i32),
    Signaled(i32),
}

/// A process-control failure: the raw `errno` of a failed trace call,
/// or a wait outcome this debugger does not drive the process into.
#[derive(Clone, Copy, PartialEq, Eq, Structural, Debug)]
pub enum TraceError {
    Os(i32),
    UnexpectedStatus,
}

/// One frame of a walked call stack: the instruction pointer, the
/// owning function if the symbol table knows one, and the owning
/// file/line if it knows one.
pub struct Frame {
    pub rip: usize,
    pub func: Option<String>,
    pub location: Option<(String, usize)>,
}

/// The most frames one walk will report; garbage frame pointers could
/// otherwise chase the walk forever.
pub const MAX_BACKTRACE_FRAMES: usize = 4096;

/// The fields of `f` agree with what `table` answers for `f.rip`.
pub open spec fn frame_resolved(table: SymbolTable, f: Frame) -> bool {
    &&& match f.func {
        Some(name) => exists|i: int|
            {
                &&& 0 <= i < table.functions@.len()
                &&& #[trigger] symbols::covers(table.functions@[i], f.rip)
                &&& name == table.functions@[i].name
            },
        None => forall|i: int|
            0 <= i < table.functions@.len() ==> !symbols::covers(
                #[trigger] table.functions@[i],
                f.rip,
            ),
    }
    &&& match f.location {
        Some(fl) => exists|i: int|
            {
                &&& #[trigger] symbols::line_pick(table.lines@, f.rip, i)
                &&& fl.0 == table.lines@[i].file
                &&& fl.1 == table.lines@[i].line
            },
        None => forall|i: int|
            0 <= i < table.lines@.len() ==> #[trigger] table.lines@[i].addr > f.rip,
    }
}

/// Does `f` resolve to the designated entry function of `table`?
pub open spec fn frame_is_entry(table: SymbolTable, f: Frame) -> bool {
    match f.func {
        Some(name) => table.spec_is_entry(name@),
        None => false,
    }
}

/// One OS process under trace control, named by its process id.
pub struct Inferior {
    pub pid: i32,
}

impl Inferior {
    pub open spec fn spec_pid(&self) -> i32 {
        self.pid
    }

    /// Returns the process id of this inferior.
    pub fn pid(&self) -> (r: i32)
        ensures
            r == self.spec_pid(),
    {
        self.pid
    }

    /// Take control of the freshly spawned traced process `pid`: wait
    /// for its initial trace stop — before any of its own instructions
    /// run — then install every breakpoint in the table into it. A
    /// process that did not come up stopped is a failed launch, with
    /// the table untouched.
    ///
    /// Addresses and order of the table are kept. The returned flags
    /// run parallel to the table: entry `i` was either patched, its
    /// recorded original byte replaced by what the patch read, or it
    /// failed to patch and is reported `false` with its recorded byte
    /// untouched, so the caller can tell the user.
    pub fn new(pid: i32, break_points: &mut BreakpointTable) -> (r: Result<
        (Inferior, Vec<bool>),
        TraceError,
    >)
        requires
            old(break_points).wf(),
        ensures
            final(break_points).wf(),
            match r {
                Ok(iv) => {
                    &&& iv.0.spec_pid() == pid
                    &&& final(break_points)@.len() == old(break_points)@.len()
                    &&& iv.1@.len() == old(break_points)@.len()
                    &&& forall|i: int|
                        0 <= i < old(break_points)@.len() ==> #[trigger] final(break_points)@[i].0
                            == old(break_points)@[i].0
                    &&& forall|i: int|
                        0 <= i < old(break_points)@.len() && !iv.1@[i]
                            ==> #[trigger] final(break_points)@[i].1 == old(break_points)@[i].1
                },
                Err(_) => *final(break_points) == *old(break_points),
            },
    {
        let inferior = Inferior { pid };
        match inferior.wait() {
            Ok(Status::Stopped(_, _)) => (),
            Ok(_) => {
                return Err(TraceError::UnexpectedStatus);
            },
            Err(e) => {
                return Err(e);
            },
        }
        let mut installed: Vec<bool> = Vec::new();
        let n = break_points.len();
        let mut i: usize = 0;
        while i < n
            invariant
                n == old(break_points)@.len(),
                i <= n,
                break_points.wf(),
                break_points@.len() == n,
                installed@.len() == i,
                forall|j: int|
                    0 <= j < n ==> #[trigger] break_points@[j].0 == old(break_points)@[j].0,
                forall|j: int|
                    i <= j < n ==> #[trigger] break_points@[j].1 == old(break_points)@[j].1,
                forall|j: int|
                    0 <= j < i && !installed@[j] ==> #[trigger] break_points@[j].1
                        == old(break_points)@[j].1,
            decreases n - i,
        {
            let addr = break_points.addr_at(i);
            match inferior.write_byte(addr, TRAP_BYTE) {
                Ok(orig) => {
                    break_points.set_orig(i, orig);
                    installed.push(true);
                },
                Err(_) => {
                    installed.push(false);
                },
            }
            i += 1;
        }
        Ok((inferior, installed))
    }

    /// Overwrite the one byte at `addr` in the traced process's memory
    /// with `val` and return the byte that was there.
    ///
    /// The containing word is read whole, edited by `word::patch_word`
    /// — whose contract pins the returned byte and the preservation of
    /// every other byte — and written back whole. An unmapped address
    /// surfaces as the failed call's `errno`.
    pub fn write_byte(&self, addr: usize, val: u8) -> (r: Result<u8, i32>) {
        let aligned = word::align_addr_to_word(addr);
        let offset = addr - aligned;
        let current = trace::peek_word(self.pid, aligned)?;
        let (updated, orig) = word::patch_word(current, offset, val);
        trace::poke_word(self.pid, aligned, updated)?;
        Ok(orig)
    }

    /// Wait for the traced process to change state and report it as a
    /// `Status`. A stop additionally reads the instruction pointer.
    pub fn wait(&self) -> (r: Result<Status, TraceError>) {
        match trace::wait_child(self.pid) {
            Err(e) => Err(TraceError::Os(e)),
            Ok(WaitEvent::Exited(code)) => Ok(Status::Exited(code)),
            Ok(WaitEvent::Signaled(sig)) => Ok(Status::Signaled(sig)),
            Ok(WaitEvent::Stopped(sig)) => match trace::read_register_pair(self.pid) {
                Err(e) => Err(TraceError::Os(e)),
                Ok((rip, _)) => Ok(Status::Stopped(sig, rip as usize)),
            },
            Ok(WaitEvent::Other) => Err(TraceError::UnexpectedStatus),
        }
    }

    /// Ask the kernel to resume the traced process, optionally
    /// re-delivering signal number `signal`, then block until the next
    /// stop event.
    pub fn continue_exec(&self, signal: Option<i32>) -> (r: Result<Status, TraceError>) {
        match trace::ptrace_cont(self.pid, signal) {
            Err(e) => Err(TraceError::Os(e)),
            Ok(()) => self.wait(),
        }
    }

    /// Read the traced process's instruction pointer and frame base
    /// register.
    pub fn read_registers(&self) -> (r: Result<(u64, u64), i32>) {
        trace::read_register_pair(self.pid)
    }

    /// Send the kill signal to the underlying process. After this call
    /// the session drops its reference: further operations on the
    /// process are invalid whether or not the kill itself succeeded.
    pub fn kill(&self) -> (r: Result<(), i32>) {
        trace::kill_process(self.pid)
    }

    /// Walk the call stack from the current instruction pointer and
    /// frame base, resolving each frame against `debug_data`.
    ///
    /// Every reported frame's fields agree with the symbol table at
    /// that frame's instruction pointer; the walk stops at the first
    /// frame owned by the designated entry function, so no earlier
    /// frame resolves to it. The walk assumes the conventional frame
    /// layout (saved frame base at the frame base, return address one
    /// word above); frames built otherwise make it mis-walk, which is
    /// an accepted limitation. A failed memory or register read
    /// surfaces as an error.
    #[verifier::loop_isolation(false)]
    pub fn backtrace(&self, debug_data: &SymbolTable) -> (r: Result<Vec<Frame>, TraceError>)
        ensures
            match r {
                Ok(frames) => {
                    &&& 1 <= frames@.len() <= MAX_BACKTRACE_FRAMES
                    &&& forall|k: int|
                        0 <= k < frames@.len() ==> frame_resolved(*debug_data, #[trigger] frames@[k])
                    &&& forall|k: int|
                        0 <= k < frames@.len() - 1 ==> !frame_is_entry(
                            *debug_data,
                            #[trigger] frames@[k],
                        )
                    &&& frames@.len() < MAX_BACKTRACE_FRAMES ==> frame_is_entry(
                        *debug_data,
                        frames@[frames@.len() - 1],
                    )
                },
                Err(_) => true,
            },
    {
        let regs = match trace::read_register_pair(self.pid) {
            Err(e) => {
                return Err(TraceError::Os(e));
            },
            Ok(regs) => regs,
        };
        let mut rip: usize = regs.0 as usize;
        let mut rbp: usize = regs.1 as usize;
        let mut frames: Vec<Frame> = Vec::new();
        loop
            invariant
                frames@.len() < MAX_BACKTRACE_FRAMES,
                forall|k: int|
                    0 <= k < frames@.len() ==> frame_resolved(*debug_data, #[trigger] frames@[k]),
                forall|k: int|
                    0 <= k < frames@.len() ==> !frame_is_entry(*debug_data, #[trigger] frames@[k]),
            decreases MAX_BACKTRACE_FRAMES - frames@.len(),
        {
            let func = debug_data.get_function_from_addr(rip);
            let location = debug_data.get_line_from_addr(rip);
            let at_entry = match &func {
                Some(name) => debug_data.is_entry_function(name),
                None => false,
            };
            let frame = Frame { rip, func, location };
            assert(frame.rip == rip && frame.func == func && frame.location == location);
            assert(frame_resolved(*debug_data, frame));
            frames.push(frame);
            if at_entry || frames.len() == MAX_BACKTRACE_FRAMES {
                return Ok(frames);
            }
            let ret_addr_slot = rbp.wrapping_add(8);
            rip = match trace::peek_word(self.pid, ret_addr_slot) {
                Err(e) => {
                    return Err(TraceError::Os(e));
                },
                Ok(w) => w as usize,
            };
            rbp = match trace::peek_word(self.pid, rbp) {
                Err(e) => {
                    return Err(TraceError::Os(e));
                },
                Ok(w) => w as usize,
            };
        }
    }
}

} // verus!
