use vstd::prelude::*;
use std::collections::HashMap;
use crate::cpu::MemoryInterconnect;
use crate::disasm::{disassemble_bytes, spec_disassemble};
use crate::cpu::{wrap_inc16, spec_inc16};

verus! {

broadcast use vstd::std_specs::hash::group_hash_axioms;

/// The byte a breakpoint patches over the original instruction. It sits in
/// an undefined slot of the opcode map, so the core can never execute it
/// silently.
pub const BREAKPOINT_OPCODE: u8 = 0xDB;

/// The byte the disassembler assumes for an unmapped address.
pub open spec fn byte_or_zero(m: Map<u16, u8>, a: u16) -> u8 {
    if m.dom().contains(a) {
        m[a]
    } else {
        0
    }
}

/// The breakpoint manager of the debugger console: it patches breakpoint
/// opcodes into memory and remembers, per address, the byte each one
/// replaced.
pub struct Debugger {
    breakpoints: HashMap<u16, u8>,
}

impl Debugger {
    /// The set breakpoints: each patched address, with the original byte
    /// it hides.
    pub closed spec fn breakpoints(self) -> Map<u16, u8> {
        self.breakpoints@
    }

    /// A debugger with no breakpoints set.
    pub fn new() -> (r: Debugger)
        ensures
            r.breakpoints() == Map::<u16, u8>::empty(),
    {
        Debugger { breakpoints: HashMap::new() }
    }

    /// Whether a breakpoint is set at `addr`.
    pub fn has_breakpoint(&self, addr: u16) -> (r: bool)
        ensures
            r == self.breakpoints().dom().contains(addr),
    {
        self.breakpoints.contains_key(&addr)
    }

    /// The byte the breakpoint at `addr` replaced, if one is set.
    pub fn saved_byte(&self, addr: u16) -> (r: Option<u8>)
        ensures
            r matches Some(v) ==> self.breakpoints().dom().contains(addr) && v
                == self.breakpoints()[addr],
            r is None ==> !self.breakpoints().dom().contains(addr),
    {
        match self.breakpoints.get(&addr) {
            Some(v) => Some(*v),
            None => None,
        }
    }

    /// Sets a breakpoint at `addr`: remembers the byte there and patches
    /// the breakpoint opcode over it. Fails, changing nothing, when a
    /// breakpoint is already set at `addr` or the address is unmapped.
    pub fn set_breakpoint<M: MemoryInterconnect>(&mut self, ic: &mut M, addr: u16) -> (r: Result<
        (),
        (),
    >)
        ensures
            old(self).breakpoints().dom().contains(addr) ==> r is Err && final(self).breakpoints()
                == old(self).breakpoints() && final(ic).mem() == old(ic).mem(),
            !old(self).breakpoints().dom().contains(addr) && !old(ic).mem().dom().contains(addr)
                ==> r is Err && final(self).breakpoints() == old(self).breakpoints() && final(ic).mem() == old(ic).mem(),
            !old(self).breakpoints().dom().contains(addr) && old(ic).mem().dom().contains(addr)
                ==> r is Ok && final(self).breakpoints() == old(self).breakpoints().insert(
                addr,
                old(ic).mem()[addr],
            ) && final(ic).mem() == old(ic).mem().insert(addr, BREAKPOINT_OPCODE),
    {
        if self.breakpoints.contains_key(&addr) {
            return Err(());
        }
        let current = match ic.read(addr) {
            Ok(v) => v,
            Err(_) => {
                return Err(());
            },
        };
        match ic.write(addr, BREAKPOINT_OPCODE) {
            Ok(_) => {
                self.breakpoints.insert(addr, current);
                Ok(())
            },
            Err(_) => Err(()),
        }
    }

    /// Removes the breakpoint at `addr`, writing the remembered byte back.
    /// Fails, changing nothing, when no breakpoint is set there or the
    /// address is no longer writable.
    pub fn remove_breakpoint<M: MemoryInterconnect>(&mut self, ic: &mut M, addr: u16) -> (r: Result<
        (),
        (),
    >)
        ensures
            !old(self).breakpoints().dom().contains(addr) ==> r is Err && final(self).breakpoints()
                == old(self).breakpoints() && final(ic).mem() == old(ic).mem(),
            old(self).breakpoints().dom().contains(addr) && !old(ic).mem().dom().contains(addr)
                ==> r is Err && final(self).breakpoints() == old(self).breakpoints() && final(ic).mem() == old(ic).mem(),
            old(self).breakpoints().dom().contains(addr) && old(ic).mem().dom().contains(addr)
                ==> r is Ok && final(self).breakpoints() == old(self).breakpoints().remove(addr)
                && final(ic).mem() == old(ic).mem().insert(addr, old(self).breakpoints()[addr]),
    {
        let saved = match self.breakpoints.get(&addr) {
            Some(v) => *v,
            None => {
                return Err(());
            },
        };
        match ic.write(addr, saved) {
            Ok(_) => {
                self.breakpoints.remove(&addr);
                Ok(())
            },
            Err(_) => Err(()),
        }
    }

    /// Disassembles the instruction at `addr` without mutating anything:
    /// the mnemonic text and the instruction length in bytes. It reads up
    /// to three bytes through the interconnect, taking zero for any
    /// unmapped byte, and never fails: undefined encodings resolve to the
    /// explicit "undefined opcode" label of length 1.
    pub fn disassemble<M: MemoryInterconnect>(ic: &M, addr: u16) -> (r: (String, u8))
        ensures
            r.0@ == spec_disassemble(
                byte_or_zero(ic.mem(), addr),
                byte_or_zero(ic.mem(), spec_inc16(addr)),
                byte_or_zero(ic.mem(), spec_inc16(spec_inc16(addr))),
            ).0,
            r.1 == spec_disassemble(
                byte_or_zero(ic.mem(), addr),
                byte_or_zero(ic.mem(), spec_inc16(addr)),
                byte_or_zero(ic.mem(), spec_inc16(spec_inc16(addr))),
            ).1,
            1 <= r.1 <= 3,
    {
        let a1 = wrap_inc16(addr);
        let a2 = wrap_inc16(a1);
        let b0 = match ic.read(addr) {
            Ok(v) => v,
            Err(_) => 0,
        };
        let b1 = match ic.read(a1) {
            Ok(v) => v,
            Err(_) => 0,
        };
        let b2 = match ic.read(a2) {
            Ok(v) => v,
            Err(_) => 0,
        };
        disassemble_bytes(b0, b1, b2)
    }
}

} // verus!
