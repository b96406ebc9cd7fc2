//! Trusted wrappers around the OS tracing facility.
//!
//! Each function here wraps one tracing operation of the `nix` crate
//! and converts between the crate's types and plain values. The
//! outcomes depend on the state of the traced process and of the
//! kernel, so the contracts promise nothing of the values returned;
//! every decision taken on them is made by verified code elsewhere.
//!
//! Errors are reported as the raw `errno` number of the failed call.

use vstd::prelude::*;
use nix::sys::ptrace;
use nix::sys::signal::Signal;
use nix::sys::wait::{waitpid, WaitStatus};
use nix::unistd::Pid;

verus! {

/// What waiting on a traced process reported, with signals as plain
/// signal numbers. `Other` stands for the remaining trace states that
/// this debugger does not drive the process into.
#[derive(Clone, Copy, PartialEq, Eq, Structural, Debug)]
pub enum WaitEvent {
    Exited(i32),
    Signaled(i32),
    Stopped(i32),
    Other,
}

/// Relies on nix::sys::wait::waitpid: blocks until the process changes
/// state. Which state comes back depends on the process and the kernel,
/// so nothing is promised of the result.
#[verifier::external_body]
pub(crate) fn wait_child(pid: i32) -> (r: Result<WaitEvent, i32>) {
    match waitpid(Pid::from_raw(pid), None) {
        Ok(WaitStatus::Exited(_, code)) => Ok(WaitEvent::Exited(code)),
        Ok(WaitStatus::Signaled(_, sig, _)) => Ok(WaitEvent::Signaled(sig as i32)),
        Ok(WaitStatus::Stopped(_, sig)) => Ok(WaitEvent::Stopped(sig as i32)),
        Ok(_) => Ok(WaitEvent::Other),
        Err(e) => Err(e as i32),
    }
}

/// Relies on nix::sys::ptrace::read: one word of the traced process's
/// memory at `addr`. What the word holds depends on the process.
#[verifier::external_body]
pub(crate) fn peek_word(pid: i32, addr: usize) -> (r: Result<u64, i32>) {
    match ptrace::read(Pid::from_raw(pid), addr as ptrace::AddressType) {
        Ok(w) => Ok(w as u64),
        Err(e) => Err(e as i32),
    }
}

/// Relies on nix::sys::ptrace::write: overwrites the word of the traced
/// process's memory at `addr` with `word`.
#[verifier::external_body]
pub(crate) fn poke_word(pid: i32, addr: usize, word: u64) -> (r: Result<(), i32>) {
    ptrace::write(Pid::from_raw(pid), addr as ptrace::AddressType, word as i64)
        .map_err(|e| e as i32)
}

/// Relies on nix::sys::ptrace::cont, and on Signal::try_from to turn a
/// plain signal number back into a signal: resumes the traced process,
/// optionally re-delivering that signal.
#[verifier::external_body]
pub(crate) fn ptrace_cont(pid: i32, sig: Option<i32>) -> (r: Result<(), i32>) {
    let signal = match sig {
        None => None,
        Some(n) => match Signal::try_from(n) {
            Ok(s) => Some(s),
            Err(e) => return Err(e as i32),
        },
    };
    ptrace::cont(Pid::from_raw(pid), signal).map_err(|e| e as i32)
}

/// Relies on nix::sys::ptrace::getregs: reads the traced process's
/// register set and hands out the instruction pointer and the frame
/// base register. The values depend on the process.
#[verifier::external_body]
pub(crate) fn read_register_pair(pid: i32) -> (r: Result<(u64, u64), i32>) {
    match ptrace::getregs(Pid::from_raw(pid)) {
        Ok(regs) => Ok((regs.rip, regs.rbp)),
        Err(e) => Err(e as i32),
    }
}

/// Relies on nix::sys::signal::kill: sends SIGKILL to the process.
#[verifier::external_body]
pub(crate) fn kill_process(pid: i32) -> (r: Result<(), i32>) {
    nix::sys::signal::kill(Pid::from_raw(pid), Signal::SIGKILL).map_err(|e| e as i32)
}

} // verus!
