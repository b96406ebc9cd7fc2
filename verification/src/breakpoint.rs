//! The breakpoint table.
//!
//! A session-lifetime mapping from absolute address to the original
//! instruction byte overwritten there. An address appears at most once;
//! the position of an entry is the breakpoint's display index, which is
//! determined by insertion order and never reused. Entries are never
//! removed: they outlive any single traced process and are replayed
//! into every freshly launched one.

use vstd::prelude::*;

verus! {

/// The single-byte trap instruction encoding written over the original
/// byte at a breakpoint address.
pub const TRAP_BYTE: u8 = 0xcc;

/// Original-byte value recorded while no live process has been patched
/// yet: the true byte is only learned when a process is launched.
pub const NOT_YET_INSTALLED: u8 = 0;

/// Does some entry of `s` carry address `a`?
pub open spec fn has_addr(s: Seq<(usize, u8)>, a: usize) -> bool {
    exists|i: int| 0 <= i < s.len() && s[i].0 == a
}

/// No two entries of `s` carry the same address.
pub open spec fn distinct_addrs(s: Seq<(usize, u8)>) -> bool {
    forall|i: int, j: int| 0 <= i < j < s.len() ==> s[i].0 != s[j].0
}

/// The table of breakpoints, in insertion order. Each entry pairs the
/// breakpoint address with the original byte recorded for it.
pub struct BreakpointTable {
    entries: Vec<(usize, u8)>,
}

impl View for BreakpointTable {
    type V = Seq<(usize, u8)>;

    closed spec fn view(&self) -> Seq<(usize, u8)> {
        self.entries@
    }
}

impl BreakpointTable {
    /// The table invariant: every address appears at most once.
    pub open spec fn wf(&self) -> bool {
        distinct_addrs(self@)
    }

    pub fn new() -> (r: BreakpointTable)
        ensures
            r@ =~= Seq::<(usize, u8)>::empty(),
            r.wf(),
    {
        BreakpointTable { entries: Vec::new() }
    }

    pub fn len(&self) -> (r: usize)
        ensures
            r == self@.len(),
    {
        self.entries.len()
    }

    /// The display index of the entry for `addr`, if the address is in
    /// the table.
    pub fn find(&self, addr: usize) -> (r: Option<usize>)
        ensures
            match r {
                Some(i) => i < self@.len() && self@[i as int].0 == addr,
                None => !has_addr(self@, addr),
            },
    {
        let mut i: usize = 0;
        while i < self.entries.len()
            invariant
                i <= self@.len(),
                forall|j: int| 0 <= j < i ==> self@[j].0 != addr,
            decreases self@.len() - i,
        {
            if self.entries[i].0 == addr {
                return Some(i);
            }
            i += 1;
        }
        None
    }

    /// Append an entry for an address not yet in the table; its display
    /// index is the former length.
    pub fn push_new(&mut self, addr: usize, orig_byte: u8)
        requires
            old(self).wf(),
            !has_addr(old(self)@, addr),
        ensures
            final(self)@ =~= old(self)@.push((addr, orig_byte)),
            final(self).wf(),
    {
        proof {
            assert forall|i: int, j: int|
                0 <= i < j < self@.push((addr, orig_byte)).len() implies self@.push(
                (addr, orig_byte),
            )[i].0 != self@.push((addr, orig_byte))[j].0 by {
                if j == self@.len() {
                    assert(!(self@[i].0 == addr));
                }
            }
        }
        self.entries.push((addr, orig_byte));
    }

    pub fn addr_at(&self, i: usize) -> (r: usize)
        requires
            i < self@.len(),
        ensures
            r == self@[i as int].0,
    {
        self.entries[i].0
    }

    pub fn orig_byte_at(&self, i: usize) -> (r: u8)
        requires
            i < self@.len(),
        ensures
            r == self@[i as int].1,
    {
        self.entries[i].1
    }

    /// Record the original byte learned when the entry at `i` was
    /// patched into a live process. The address is untouched.
    pub fn set_orig(&mut self, i: usize, orig_byte: u8)
        requires
            old(self).wf(),
            i < old(self)@.len(),
        ensures
            final(self)@ =~= old(self)@.update(i as int, (old(self)@[i as int].0, orig_byte)),
            final(self).wf(),
    {
        let addr = self.entries[i].0;
        self.entries.set(i, (addr, orig_byte));
        proof {
            assert forall|a: int, b: int| 0 <= a < b < self@.len() implies self@[a].0
                != self@[b].0 by {
                assert(old(self)@[a].0 != old(self)@[b].0);
            }
        }
    }
}

} // verus!
