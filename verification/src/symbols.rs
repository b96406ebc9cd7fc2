//! The symbol table consumed by the debugger.
//!
//! The debugger only asks four questions of the target's debug
//! information: which function owns an address, which source line owns
//! an address, where a source line starts, and where a function starts.
//! This module models the answers over plain data: a list of function
//! symbols with their address ranges and a list of line entries with
//! their start addresses. Whatever loads the target's debug sections
//! fills the table once at startup; it is read-only afterward.

use vstd::prelude::*;

verus! {

/// One function symbol: its name and the half-open address range
/// `[low, low + size)` of its machine code.
pub struct FuncSym {
    pub name: String,
    pub low: usize,
    pub size: usize,
}

/// One source-line entry: the file and line whose machine code starts
/// at `addr`.
pub struct LineSym {
    pub file: String,
    pub line: usize,
    pub addr: usize,
}

/// Does the code of `f` contain `addr`?
pub open spec fn covers(f: FuncSym, addr: usize) -> bool {
    f.low <= addr < f.low + f.size
}

/// Is `i` the entry reported for `addr`: the line whose start address
/// is greatest among those at or below `addr`, the earliest entry
/// winning a tie?
pub open spec fn line_pick(s: Seq<LineSym>, addr: usize, i: int) -> bool {
    &&& 0 <= i < s.len()
    &&& s[i].addr <= addr
    &&& forall|j: int| 0 <= j < i ==> !(s[i].addr <= #[trigger] s[j].addr <= addr)
    &&& forall|j: int| i < j < s.len() ==> (#[trigger] s[j].addr > addr || s[j].addr <= s[i].addr)
}

/// Symbols of one target binary, with the name of its designated entry
/// function (where a call-stack walk stops).
pub struct SymbolTable {
    pub functions: Vec<FuncSym>,
    pub lines: Vec<LineSym>,
    pub entry: String,
}

impl SymbolTable {
    pub fn new(entry: String) -> (r: SymbolTable)
        ensures
            r.functions@ =~= Seq::<FuncSym>::empty(),
            r.lines@ =~= Seq::<LineSym>::empty(),
            r.entry == entry,
    {
        SymbolTable { functions: Vec::new(), lines: Vec::new(), entry }
    }

    pub fn add_function(&mut self, name: String, low: usize, size: usize)
        ensures
            final(self).functions@ =~= old(self).functions@.push(
                FuncSym { name, low, size },
            ),
            final(self).lines == old(self).lines,
            final(self).entry == old(self).entry,
    {
        self.functions.push(FuncSym { name, low, size });
    }

    pub fn add_line(&mut self, file: String, line: usize, addr: usize)
        ensures
            final(self).lines@ =~= old(self).lines@.push(LineSym { file, line, addr }),
            final(self).functions == old(self).functions,
            final(self).entry == old(self).entry,
    {
        self.lines.push(LineSym { file, line, addr });
    }

    /// The name of the function whose address range contains `addr`,
    /// the earliest matching symbol winning; `None` if no range does.
    pub fn get_function_from_addr(&self, addr: usize) -> (r: Option<String>)
        ensures
            match r {
                Some(name) => exists|i: int|
                    {
                        &&& 0 <= i < self.functions@.len()
                        &&& #[trigger] covers(self.functions@[i], addr)
                        &&& name == self.functions@[i].name
                        &&& forall|j: int| 0 <= j < i ==> !covers(#[trigger] self.functions@[j], addr)
                    },
                None => forall|i: int|
                    0 <= i < self.functions@.len() ==> !covers(#[trigger] self.functions@[i], addr),
            },
    {
        let mut i: usize = 0;
        while i < self.functions.len()
            invariant
                i <= self.functions@.len(),
                forall|j: int| 0 <= j < i ==> !covers(#[trigger] self.functions@[j], addr),
            decreases self.functions@.len() - i,
        {
            let f = &self.functions[i];
            if f.low <= addr && addr - f.low < f.size {
                assert(covers(self.functions@[i as int], addr));
                return Some(f.name.clone());
            }
            assert(!covers(self.functions@[i as int], addr));
            i += 1;
        }
        None
    }

    /// The file and line owning `addr`: the line entry starting
    /// greatest at or below `addr`; `None` if every entry starts above.
    pub fn get_line_from_addr(&self, addr: usize) -> (r: Option<(String, usize)>)
        ensures
            match r {
                Some(fl) => exists|i: int|
                    {
                        &&& #[trigger] line_pick(self.lines@, addr, i)
                        &&& fl.0 == self.lines@[i].file
                        &&& fl.1 == self.lines@[i].line
                    },
                None => forall|i: int|
                    0 <= i < self.lines@.len() ==> #[trigger] self.lines@[i].addr > addr,
            },
    {
        let mut best: Option<usize> = None;
        let mut i: usize = 0;
        while i < self.lines.len()
            invariant
                i <= self.lines@.len(),
                match best {
                    Some(b) => {
                        &&& b < i
                        &&& self.lines@[b as int].addr <= addr
                        &&& forall|j: int|
                            0 <= j < b ==> !(self.lines@[b as int].addr
                                <= #[trigger] self.lines@[j].addr <= addr)
                        &&& forall|j: int|
                            b < j < i ==> (#[trigger] self.lines@[j].addr > addr
                                || self.lines@[j].addr <= self.lines@[b as int].addr)
                    },
                    None => forall|j: int| 0 <= j < i ==> #[trigger] self.lines@[j].addr > addr,
                },
            decreases self.lines@.len() - i,
        {
            let e_addr = self.lines[i].addr;
            if e_addr <= addr {
                match best {
                    None => {
                        best = Some(i);
                    },
                    Some(b) => {
                        if e_addr > self.lines[b].addr {
                            best = Some(i);
                        }
                    },
                }
            }
            i += 1;
        }
        match best {
            None => None,
            Some(b) => {
                assert(line_pick(self.lines@, addr, b as int));
                Some((self.lines[b].file.clone(), self.lines[b].line))
            },
        }
    }

    /// The start address of the first line entry for source line
    /// `line`; `None` if the line has no entry.
    pub fn get_addr_for_line(&self, line: usize) -> (r: Option<usize>)
        ensures
            match r {
                Some(a) => exists|i: int|
                    {
                        &&& 0 <= i < self.lines@.len()
                        &&& #[trigger] self.lines@[i].line == line
                        &&& a == self.lines@[i].addr
                        &&& forall|j: int| 0 <= j < i ==> #[trigger] self.lines@[j].line != line
                    },
                None => forall|i: int|
                    0 <= i < self.lines@.len() ==> #[trigger] self.lines@[i].line != line,
            },
    {
        let mut i: usize = 0;
        while i < self.lines.len()
            invariant
                i <= self.lines@.len(),
                forall|j: int| 0 <= j < i ==> #[trigger] self.lines@[j].line != line,
            decreases self.lines@.len() - i,
        {
            if self.lines[i].line == line {
                return Some(self.lines[i].addr);
            }
            i += 1;
        }
        None
    }

    /// The low address of the first function symbol named `name`;
    /// `None` if no symbol has that name.
    pub fn get_addr_for_function(&self, name: &String) -> (r: Option<usize>)
        ensures
            match r {
                Some(a) => exists|i: int|
                    {
                        &&& 0 <= i < self.functions@.len()
                        &&& #[trigger] self.functions@[i].name@ == name@
                        &&& a == self.functions@[i].low
                        &&& forall|j: int| 0 <= j < i ==> #[trigger] self.functions@[j].name@ != name@
                    },
                None => forall|i: int|
                    0 <= i < self.functions@.len() ==> #[trigger] self.functions@[i].name@ != name@,
            },
    {
        let mut i: usize = 0;
        while i < self.functions.len()
            invariant
                i <= self.functions@.len(),
                forall|j: int| 0 <= j < i ==> #[trigger] self.functions@[j].name@ != name@,
            decreases self.functions@.len() - i,
        {
            if self.functions[i].name.eq(name) {
                return Some(self.functions[i].low);
            }
            i += 1;
        }
        None
    }

    /// Is `name` the designated entry function, where a backtrace stops?
    pub open spec fn spec_is_entry(&self, name: Seq<char>) -> bool {
        name == self.entry@
    }

    pub fn is_entry_function(&self, name: &String) -> (r: bool)
        ensures
            r == self.spec_is_entry(name@),
    {
        name.eq(&self.entry)
    }
}

} // verus!

