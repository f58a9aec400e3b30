use vstd::prelude::*;
use crate::system::{Cpu, CpuView, Fault, mem_load};
use super::address_modes::{AddrMode, resolved};

verus! {

/// Where an instruction reads its operand from.
pub trait Source<A: AddrMode> {
    /// The value read, the CPU state after the read, and the addressing
    /// mode's state after it.
    spec fn get_spec(c: CpuView, a: A) -> Result<(CpuView, A, u8), Fault>;

    fn get(sys: &mut Cpu, addr_mode: &mut A) -> (r: Result<u8, Fault>)
        ensures
            Self::get_spec(old(sys)@, *old(addr_mode)) == resolved(r, final(sys)@, *final(addr_mode)),
    ;
}

/// The accumulator.
pub struct Accumulator;

impl<A: AddrMode> Source<A> for Accumulator {
    open spec fn get_spec(c: CpuView, a: A) -> Result<(CpuView, A, u8), Fault> {
        Ok((c, a, c.registers.ac))
    }

    fn get(sys: &mut Cpu, addr_mode: &mut A) -> (r: Result<u8, Fault>) {
        Ok(sys.registers.ac)
    }
}

/// The X index register.
pub struct IndexX;

impl<A: AddrMode> Source<A> for IndexX {
    open spec fn get_spec(c: CpuView, a: A) -> Result<(CpuView, A, u8), Fault> {
        Ok((c, a, c.registers.x))
    }

    fn get(sys: &mut Cpu, addr_mode: &mut A) -> (r: Result<u8, Fault>) {
        Ok(sys.registers.x)
    }
}

/// The Y index register.
pub struct IndexY;

impl<A: AddrMode> Source<A> for IndexY {
    open spec fn get_spec(c: CpuView, a: A) -> Result<(CpuView, A, u8), Fault> {
        Ok((c, a, c.registers.y))
    }

    fn get(sys: &mut Cpu, addr_mode: &mut A) -> (r: Result<u8, Fault>) {
        Ok(sys.registers.y)
    }
}

/// The stack pointer.
pub struct StackPointer;

impl<A: AddrMode> Source<A> for StackPointer {
    open spec fn get_spec(c: CpuView, a: A) -> Result<(CpuView, A, u8), Fault> {
        Ok((c, a, c.registers.sp))
    }

    fn get(sys: &mut Cpu, addr_mode: &mut A) -> (r: Result<u8, Fault>) {
        Ok(sys.registers.sp)
    }
}

/// The status register's bits.
pub struct StatusRegister;

impl<A: AddrMode> Source<A> for StatusRegister {
    open spec fn get_spec(c: CpuView, a: A) -> Result<(CpuView, A, u8), Fault> {
        Ok((c, a, c.registers.sr.bits))
    }

    fn get(sys: &mut Cpu, addr_mode: &mut A) -> (r: Result<u8, Fault>) {
        Ok(sys.registers.sr.bits())
    }
}

/// The memory at the address the addressing mode resolves.
pub struct Memory;

impl<A: AddrMode> Source<A> for Memory {
    open spec fn get_spec(c: CpuView, a: A) -> Result<(CpuView, A, u8), Fault> {
        match a.addr_spec(c) {
            Err(e) => Err(e),
            Ok((c1, a1, addr)) => match mem_load(c1, addr) {
                Err(e) => Err(e),
                Ok((c2, v)) => Ok((c2, a1, v)),
            },
        }
    }

    fn get(sys: &mut Cpu, addr_mode: &mut A) -> (r: Result<u8, Fault>) {
        let addr = addr_mode.get_addr(sys)?;
        sys.mmu_load(addr)
    }
}

} // verus!
