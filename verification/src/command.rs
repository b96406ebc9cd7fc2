//! The debugger's command language.
//!
//! One line of user input, already split into whitespace-separated
//! tokens, becomes one `DebuggerCommand`. Keyword matching is stated
//! over the tokens' bytes; the arguments of `run` and `break` are
//! carried through verbatim.

use vstd::prelude::*;
use vstd::string::StringSliceAdditionalSpecFns;

verus! {

/// One recognized command of the interactive loop.
#[derive(Debug, PartialEq)]
pub enum DebuggerCommand {
    Quit,
    Run(Vec<String>),
    Continue,
    Backtrace,
    BreakPoint(String),
    Next,
    Print,
    Help,
    Exit,
}

/// Do `a` and `b` spell the same bytes?
pub fn str_eq(a: &str, b: &str) -> (r: bool)
    ensures
        r == (a.spec_bytes() == b.spec_bytes()),
{
    let ab = a.as_bytes();
    let bb = b.as_bytes();
    if ab.len() != bb.len() {
        assert(a.spec_bytes().len() != b.spec_bytes().len());
        return false;
    }
    let n = ab.len();
    let mut i: usize = 0;
    while i < n
        invariant
            i <= n,
            n == ab@.len() == bb@.len(),
            ab@ == a.spec_bytes(),
            bb@ == b.spec_bytes(),
            forall|j: int| 0 <= j < i ==> ab@[j] == bb@[j],
        decreases n - i,
    {
        if ab[i] != bb[i] {
            return false;
        }
        i += 1;
    }
    assert(a.spec_bytes() =~= b.spec_bytes());
    true
}

/// Is token `t` one of the two spellings `w1`/`w2` of a keyword?
pub open spec fn tok2(t: Seq<u8>, w1: &str, w2: &str) -> bool {
    t == w1.spec_bytes() || t == w2.spec_bytes()
}

/// Is token `t` one of the three spellings of a keyword?
pub open spec fn tok3(t: Seq<u8>, w1: &str, w2: &str, w3: &str) -> bool {
    t == w1.spec_bytes() || t == w2.spec_bytes() || t == w3.spec_bytes()
}

impl DebuggerCommand {
    /// Recognize the command named by `tokens[0]`, carrying the
    /// remaining tokens as arguments where the command takes any.
    ///
    /// An unknown first token is no command, and neither is a
    /// `b`/`break` line that carries no target token: both make the
    /// caller re-prompt rather than anything worse.
    pub fn from_tokens(tokens: &[&str]) -> (r: Option<DebuggerCommand>)
        requires
            tokens@.len() >= 1,
        ensures
            ({
                let t = tokens@[0].spec_bytes();
                match r {
                    Some(DebuggerCommand::Quit) => tok2(t, "q", "quit"),
                    Some(DebuggerCommand::Run(args)) => {
                        &&& tok2(t, "r", "run")
                        &&& args@.len() == tokens@.len() - 1
                        &&& forall|i: int| 0 <= i < args@.len() ==> #[trigger] args@[i]@ == tokens@[
                            i + 1
                        ]@
                    },
                    Some(DebuggerCommand::Continue) => tok3(t, "c", "cont", "continue"),
                    Some(DebuggerCommand::Backtrace) => tok3(t, "bt", "back", "backtrace"),
                    Some(DebuggerCommand::BreakPoint(target)) => {
                        &&& tok2(t, "b", "break")
                        &&& tokens@.len() >= 2
                        &&& target@ == tokens@[1]@
                    },
                    Some(DebuggerCommand::Next) => tok2(t, "n", "next"),
                    Some(DebuggerCommand::Print) => tok2(t, "p", "print"),
                    Some(DebuggerCommand::Help) => tok2(t, "h", "help"),
                    Some(DebuggerCommand::Exit) => tok2(t, "e", "exit"),
                    None => {
                        &&& !tok2(t, "q", "quit")
                        &&& !tok2(t, "r", "run")
                        &&& !tok3(t, "c", "cont", "continue")
                        &&& !tok3(t, "bt", "back", "backtrace")
                        &&& (tok2(t, "b", "break") ==> tokens@.len() < 2)
                        &&& (!tok2(t, "b", "break") ==> !tok2(t, "n", "next") && !tok2(
                            t,
                            "p",
                            "print",
                        ) && !tok2(t, "h", "help") && !tok2(t, "e", "exit"))
                    },
                }
            }),
    {
        let t0 = tokens[0];
        if str_eq(t0, "q") || str_eq(t0, "quit") {
            Some(DebuggerCommand::Quit)
        } else if str_eq(t0, "r") || str_eq(t0, "run") {
            let mut args: Vec<String> = Vec::new();
            let mut i: usize = 1;
            while i < tokens.len()
                invariant
                    1 <= i <= tokens@.len(),
                    args@.len() == i - 1,
                    forall|j: int| 0 <= j < args@.len() ==> #[trigger] args@[j]@ == tokens@[j + 1]@,
                decreases tokens@.len() - i,
            {
                args.push(tokens[i].to_owned());
                i += 1;
            }
            Some(DebuggerCommand::Run(args))
        } else if str_eq(t0, "c") || str_eq(t0, "cont") || str_eq(t0, "continue") {
            Some(DebuggerCommand::Continue)
        } else if str_eq(t0, "bt") || str_eq(t0, "back") || str_eq(t0, "backtrace") {
            Some(DebuggerCommand::Backtrace)
        } else if str_eq(t0, "b") || str_eq(t0, "break") {
            if tokens.len() < 2 {
                return None;
            }
            Some(DebuggerCommand::BreakPoint(tokens[1].to_owned()))
        } else if str_eq(t0, "n") || str_eq(t0, "next") {
            Some(DebuggerCommand::Next)
        } else if str_eq(t0, "p") || str_eq(t0, "print") {
            Some(DebuggerCommand::Print)
        } else if str_eq(t0, "h") || str_eq(t0, "help") {
            Some(DebuggerCommand::Help)
        } else if str_eq(t0, "e") || str_eq(t0, "exit") {
            Some(DebuggerCommand::Exit)
        } else {
            None
        }
    }
}

} // verus!
