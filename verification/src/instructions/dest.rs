use vstd::prelude::*;
use crate::system::{self, Cpu, CpuView, Fault, Registers, mem_store};
use super::address_modes::AddrMode;

verus! {

/// A write outcome with the addressing mode's state after it.
pub open spec fn written<A>(r: Result<(), Fault>, c: CpuView, a: A) -> Result<(CpuView, A), Fault> {
    match r {
        Ok(_) => Ok((c, a)),
        Err(e) => Err(e),
    }
}

/// `c` with its registers replaced.
pub open spec fn with_registers(c: CpuView, r: Registers) -> CpuView {
    CpuView { registers: r, bus: c.bus }
}

/// Where an instruction writes its result to.
pub trait Dest<A: AddrMode> {
    spec fn set_spec(c: CpuView, a: A, val: u8) -> Result<(CpuView, A), Fault>;

    fn set(sys: &mut Cpu, addr_mode: &mut A, val: u8) -> (r: Result<(), Fault>)
        ensures
            Self::set_spec(old(sys)@, *old(addr_mode), val) == written(r, final(sys)@, *final(addr_mode)),
    ;
}

/// The accumulator.
pub struct Accumulator;

impl<A: AddrMode> Dest<A> for Accumulator {
    open spec fn set_spec(c: CpuView, a: A, val: u8) -> Result<(CpuView, A), Fault> {
        Ok((with_registers(c, Registers { ac: val, ..c.registers }), a))
    }

    fn set(sys: &mut Cpu, addr_mode: &mut A, val: u8) -> (r: Result<(), Fault>) {
        sys.registers.ac = val;
        Ok(())
    }
}

/// The X index register.
pub struct IndexX;

impl<A: AddrMode> Dest<A> for IndexX {
    open spec fn set_spec(c: CpuView, a: A, val: u8) -> Result<(CpuView, A), Fault> {
        Ok((with_registers(c, Registers { x: val, ..c.registers }), a))
    }

    fn set(sys: &mut Cpu, addr_mode: &mut A, val: u8) -> (r: Result<(), Fault>) {
        sys.registers.x = val;
        Ok(())
    }
}

/// The Y index register.
pub struct IndexY;

impl<A: AddrMode> Dest<A> for IndexY {
    open spec fn set_spec(c: CpuView, a: A, val: u8) -> Result<(CpuView, A), Fault> {
        Ok((with_registers(c, Registers { y: val, ..c.registers }), a))
    }

    fn set(sys: &mut Cpu, addr_mode: &mut A, val: u8) -> (r: Result<(), Fault>) {
        sys.registers.y = val;
        Ok(())
    }
}

/// The stack pointer.
pub struct StackPointer;

impl<A: AddrMode> Dest<A> for StackPointer {
    open spec fn set_spec(c: CpuView, a: A, val: u8) -> Result<(CpuView, A), Fault> {
        Ok((with_registers(c, Registers { sp: val, ..c.registers }), a))
    }

    fn set(sys: &mut Cpu, addr_mode: &mut A, val: u8) -> (r: Result<(), Fault>) {
        sys.registers.sp = val;
        Ok(())
    }
}

/// The status register, all bits replaced.
pub struct StatusRegister;

impl<A: AddrMode> Dest<A> for StatusRegister {
    open spec fn set_spec(c: CpuView, a: A, val: u8) -> Result<(CpuView, A), Fault> {
        Ok((with_registers(c, Registers { sr: system::StatusRegister { bits: val }, ..c.registers }), a))
    }

    fn set(sys: &mut Cpu, addr_mode: &mut A, val: u8) -> (r: Result<(), Fault>) {
        sys.registers.sr = system::StatusRegister::from_bits_retain(val);
        Ok(())
    }
}

/// The memory at the address the addressing mode resolves.
pub struct Memory;

impl<A: AddrMode> Dest<A> for Memory {
    open spec fn set_spec(c: CpuView, a: A, val: u8) -> Result<(CpuView, A), Fault> {
        match a.addr_spec(c) {
            Err(e) => Err(e),
            Ok((c1, a1, addr)) => match mem_store(c1, addr, val) {
                Err(e) => Err(e),
                Ok(c2) => Ok((c2, a1)),
            },
        }
    }

    fn set(sys: &mut Cpu, addr_mode: &mut A, val: u8) -> (r: Result<(), Fault>) {
        let addr = addr_mode.get_addr(sys)?;
        sys.mmu_store(addr, val)
    }
}

} // verus!
