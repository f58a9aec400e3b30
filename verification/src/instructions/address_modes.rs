use vstd::prelude::*;
use crate::system::{Cpu, CpuView, Fault, mem_load};

verus! {

/// How an instruction uses the memory its addressing mode resolves.
#[derive(Clone, Copy, PartialEq, Eq, Structural)]
pub enum AccessType {
    Read,
    Write,
    ReadModifyWrite,
    Jump,
}

/// An addressing mode result with the mode's state after it.
pub open spec fn resolved<A, T>(r: Result<T, Fault>, c: CpuView, a: A) -> Result<(CpuView, A, T), Fault> {
    match r {
        Ok(v) => Ok((c, a, v)),
        Err(e) => Err(e),
    }
}

/// The byte `off` bytes after the program counter, which must not pass 0xffff.
pub open spec fn operand(c: CpuView, off: u16) -> Result<(CpuView, u8), Fault> {
    if c.registers.pc + off > 0xffff {
        Err(Fault::Overflow)
    } else {
        mem_load(c, (c.registers.pc + off) as u16)
    }
}

/// Whether the high bytes of two addresses differ.
pub open spec fn crosses(a: u16, b: u16) -> bool {
    (a & 0xff00) ^ (b & 0xff00) != 0
}

pub trait AddrMode: Sized {
    /// The mode's state before it resolved any address.
    spec fn initial() -> Self;

    fn new() -> (r: Self)
        ensures
            r == Self::initial(),
    ;

    /// The address the mode resolves for the instruction at the program
    /// counter, the bus state after the operand loads, and the mode's state.
    spec fn addr_spec(self, c: CpuView) -> Result<(CpuView, Self, u16), Fault>;

    /// Resolving an address reads the bus but leaves the registers as they
    /// were.
    proof fn lemma_keeps_registers(self, c: CpuView)
        ensures
            match self.addr_spec(c) {
                Ok((c1, _, _)) => c1.registers == c.registers,
                Err(_) => true,
            },
    ;

    fn get_addr(&mut self, sys: &mut Cpu) -> (r: Result<u16, Fault>)
        ensures
            Self::addr_spec(*old(self), old(sys)@) == resolved(r, final(sys)@, *final(self)),
    ;

    /// Length of an instruction in this mode, opcode included.
    spec fn size_spec() -> u16;

    fn size() -> (r: u16)
        ensures
            r == Self::size_spec(),
    ;

    /// The access types for which the mode has a cycle count.
    spec fn cycles_ok(atype: AccessType) -> bool;

    spec fn cycles_spec(self, atype: AccessType) -> u64;

    /// Cycles taken by an instruction in this mode.
    fn cycles(&self, atype: AccessType) -> (r: u64)
        requires
            Self::cycles_ok(atype),
        ensures
            r == self.cycles_spec(atype),
    ;

    spec fn crossed(self) -> bool;

    /// Whether the resolved address lies on another page than its base.
    fn page_crossed(&self) -> (r: bool)
        ensures
            r == self.crossed(),
    ;
}

/// No operand: the instruction acts on registers.
pub struct Implied;

impl AddrMode for Implied {
    open spec fn initial() -> Self {
        Implied
    }

    fn new() -> (r: Self) {
        Implied
    }

    open spec fn addr_spec(self, c: CpuView) -> Result<(CpuView, Self, u16), Fault> {
        Err(Fault::NoAddress)
    }

    proof fn lemma_keeps_registers(self, c: CpuView) {
    }

    fn get_addr(&mut self, sys: &mut Cpu) -> (r: Result<u16, Fault>) {
        Err(Fault::NoAddress)
    }

    open spec fn size_spec() -> u16 {
        1
    }

    fn size() -> (r: u16) {
        1
    }

    open spec fn cycles_ok(atype: AccessType) -> bool {
        true
    }

    open spec fn cycles_spec(self, atype: AccessType) -> u64 {
        2
    }

    fn cycles(&self, atype: AccessType) -> (r: u64) {
        2
    }

    open spec fn crossed(self) -> bool {
        false
    }

    fn page_crossed(&self) -> (r: bool) {
        false
    }
}

/// The operand is the byte after the opcode.
pub struct Immediate;

impl AddrMode for Immediate {
    open spec fn initial() -> Self {
        Immediate
    }

    fn new() -> (r: Self) {
        Immediate
    }

    open spec fn addr_spec(self, c: CpuView) -> Result<(CpuView, Self, u16), Fault> {
        if c.registers.pc + 1 > 0xffff {
            Err(Fault::Overflow)
        } else {
            Ok((c, self, (c.registers.pc + 1) as u16))
        }
    }

    proof fn lemma_keeps_registers(self, c: CpuView) {
    }

    fn get_addr(&mut self, sys: &mut Cpu) -> (r: Result<u16, Fault>) {
        let pc = sys.registers.pc;
        match pc.checked_add(1) {
            Some(a) => Ok(a),
            None => Err(Fault::Overflow),
        }
    }

    open spec fn size_spec() -> u16 {
        2
    }

    fn size() -> (r: u16) {
        2
    }

    open spec fn cycles_ok(atype: AccessType) -> bool {
        true
    }

    open spec fn cycles_spec(self, atype: AccessType) -> u64 {
        2
    }

    fn cycles(&self, atype: AccessType) -> (r: u64) {
        2
    }

    open spec fn crossed(self) -> bool {
        false
    }

    fn page_crossed(&self) -> (r: bool) {
        false
    }
}

/// Loads the operand byte `off` bytes after the program counter.
fn load_operand(sys: &mut Cpu, off: u16) -> (r: Result<u8, Fault>)
    ensures
        operand(old(sys)@, off) == crate::system::returned(r, final(sys)@),
{
    match sys.registers.pc.checked_add(off) {
        Some(a) => sys.mmu_load(a),
        None => Err(Fault::Overflow),
    }
}

/// A full 16-bit address follows the opcode.
pub struct Absolute;

impl AddrMode for Absolute {
    open spec fn initial() -> Self {
        Absolute
    }

    fn new() -> (r: Self) {
        Absolute
    }

    open spec fn addr_spec(self, c: CpuView) -> Result<(CpuView, Self, u16), Fault> {
        match operand(c, 1) {
            Err(e) => Err(e),
            Ok((c1, lo)) => match operand(c1, 2) {
                Err(e) => Err(e),
                Ok((c2, hi)) => Ok((c2, self, (lo as u16) | ((hi as u16) << 8u16))),
            },
        }
    }

    proof fn lemma_keeps_registers(self, c: CpuView) {
    }

    fn get_addr(&mut self, sys: &mut Cpu) -> (r: Result<u16, Fault>) {
        let addr_lo = load_operand(sys, 1)? as u16;
        let addr_hi = load_operand(sys, 2)? as u16;
        Ok(addr_lo | (addr_hi << 8u16))
    }

    open spec fn size_spec() -> u16 {
        3
    }

    fn size() -> (r: u16) {
        3
    }

    open spec fn cycles_ok(atype: AccessType) -> bool {
        true
    }

    open spec fn cycles_spec(self, atype: AccessType) -> u64 {
        match atype {
            AccessType::Read => 4,
            AccessType::Write => 4,
            AccessType::ReadModifyWrite => 6,
            AccessType::Jump => 3,
        }
    }

    fn cycles(&self, atype: AccessType) -> (r: u64) {
        match atype {
            AccessType::Read => 4,
            AccessType::Write => 4,
            AccessType::ReadModifyWrite => 6,
            AccessType::Jump => 3,
        }
    }

    open spec fn crossed(self) -> bool {
        false
    }

    fn page_crossed(&self) -> (r: bool) {
        false
    }
}

/// Absolute addressing indexed by X.
pub struct IndexedX {
    pub page_crossed: bool,
}

impl AddrMode for IndexedX {
    open spec fn initial() -> Self {
        IndexedX { page_crossed: false }
    }

    fn new() -> (r: Self) {
        IndexedX { page_crossed: false }
    }

    open spec fn addr_spec(self, c: CpuView) -> Result<(CpuView, Self, u16), Fault> {
        match operand(c, 1) {
            Err(e) => Err(e),
            Ok((c1, lo)) => match operand(c1, 2) {
                Err(e) => Err(e),
                Ok((c2, hi)) => {
                    let addr = (lo as u16) | ((hi as u16) << 8u16);
                    let indexed = addr.wrapping_add(c.registers.x as u16);
                    Ok((c2, IndexedX { page_crossed: crosses(addr, indexed) }, indexed))
                },
            },
        }
    }

    proof fn lemma_keeps_registers(self, c: CpuView) {
    }

    fn get_addr(&mut self, sys: &mut Cpu) -> (r: Result<u16, Fault>) {
        let x = sys.registers.x as u16;
        let addr_lo = load_operand(sys, 1)? as u16;
        let addr_hi = load_operand(sys, 2)? as u16;
        let addr = addr_lo | (addr_hi << 8u16);
        let indexed_addr = addr.wrapping_add(x);
        self.page_crossed = (addr & 0xff00) ^ (indexed_addr & 0xff00) != 0;
        Ok(indexed_addr)
    }

    open spec fn size_spec() -> u16 {
        3
    }

    fn size() -> (r: u16) {
        3
    }

    open spec fn cycles_ok(atype: AccessType) -> bool {
        atype != AccessType::Jump
    }

    open spec fn cycles_spec(self, atype: AccessType) -> u64 {
        match atype {
            AccessType::Read => if self.page_crossed { 5 } else { 4 },
            AccessType::Write => 5,
            _ => 6,
        }
    }

    fn cycles(&self, atype: AccessType) -> (r: u64) {
        match atype {
            AccessType::Read => 4 + self.page_crossed as u64,
            AccessType::Write => 5,
            _ => 6,
        }
    }

    open spec fn crossed(self) -> bool {
        self.page_crossed
    }

    fn page_crossed(&self) -> (r: bool) {
        self.page_crossed
    }
}


/// Absolute addressing indexed by Y.
pub struct IndexedY {
    pub page_crossed: bool,
}

impl AddrMode for IndexedY {
    open spec fn initial() -> Self {
        IndexedY { page_crossed: false }
    }

    fn new() -> (r: Self) {
        IndexedY { page_crossed: false }
    }

    open spec fn addr_spec(self, c: CpuView) -> Result<(CpuView, Self, u16), Fault> {
        match operand(c, 1) {
            Err(e) => Err(e),
            Ok((c1, lo)) => match operand(c1, 2) {
                Err(e) => Err(e),
                Ok((c2, hi)) => {
                    let addr = (lo as u16) | ((hi as u16) << 8u16);
                    let indexed = addr.wrapping_add(c.registers.y as u16);
                    Ok((c2, IndexedY { page_crossed: crosses(addr, indexed) }, indexed))
                },
            },
        }
    }

    proof fn lemma_keeps_registers(self, c: CpuView) {
    }

    fn get_addr(&mut self, sys: &mut Cpu) -> (r: Result<u16, Fault>) {
        let y = sys.registers.y as u16;
        let addr_lo = load_operand(sys, 1)? as u16;
        let addr_hi = load_operand(sys, 2)? as u16;
        let addr = addr_lo | (addr_hi << 8u16);
        let indexed_addr = addr.wrapping_add(y);
        self.page_crossed = (addr & 0xff00) ^ (indexed_addr & 0xff00) != 0;
        Ok(indexed_addr)
    }

    open spec fn size_spec() -> u16 {
        3
    }

    fn size() -> (r: u16) {
        3
    }

    open spec fn cycles_ok(atype: AccessType) -> bool {
        atype != AccessType::Jump
    }

    open spec fn cycles_spec(self, atype: AccessType) -> u64 {
        match atype {
            AccessType::Read => if self.page_crossed { 5 } else { 4 },
            AccessType::Write => 5,
            _ => 6,
        }
    }

    fn cycles(&self, atype: AccessType) -> (r: u64) {
        match atype {
            AccessType::Read => 4 + self.page_crossed as u64,
            AccessType::Write => 5,
            _ => 6,
        }
    }

    open spec fn crossed(self) -> bool {
        self.page_crossed
    }

    fn page_crossed(&self) -> (r: bool) {
        self.page_crossed
    }
}

/// The byte after the opcode addresses the zero page.
pub struct ZeroPage;

impl AddrMode for ZeroPage {
    open spec fn initial() -> Self {
        ZeroPage
    }

    fn new() -> (r: Self) {
        ZeroPage
    }

    open spec fn addr_spec(self, c: CpuView) -> Result<(CpuView, Self, u16), Fault> {
        match operand(c, 1) {
            Err(e) => Err(e),
            Ok((c1, lo)) => Ok((c1, self, lo as u16)),
        }
    }

    proof fn lemma_keeps_registers(self, c: CpuView) {
    }

    fn get_addr(&mut self, sys: &mut Cpu) -> (r: Result<u16, Fault>) {
        Ok(load_operand(sys, 1)? as u16)
    }

    open spec fn size_spec() -> u16 {
        2
    }

    fn size() -> (r: u16) {
        2
    }

    open spec fn cycles_ok(atype: AccessType) -> bool {
        atype != AccessType::Jump
    }

    open spec fn cycles_spec(self, atype: AccessType) -> u64 {
        match atype {
            AccessType::Read => 3,
            AccessType::Write => 3,
            _ => 5,
        }
    }

    fn cycles(&self, atype: AccessType) -> (r: u64) {
        match atype {
            AccessType::Read => 3,
            AccessType::Write => 3,
            _ => 5,
        }
    }

    open spec fn crossed(self) -> bool {
        false
    }

    fn page_crossed(&self) -> (r: bool) {
        false
    }
}

/// Zero page addressing indexed by X, wrapping within the zero page.
pub struct ZPIndexedX;

impl AddrMode for ZPIndexedX {
    open spec fn initial() -> Self {
        ZPIndexedX
    }

    fn new() -> (r: Self) {
        ZPIndexedX
    }

    open spec fn addr_spec(self, c: CpuView) -> Result<(CpuView, Self, u16), Fault> {
        match operand(c, 1) {
            Err(e) => Err(e),
            Ok((c1, base)) => Ok((c1, self, base.wrapping_add(c.registers.x) as u16)),
        }
    }

    proof fn lemma_keeps_registers(self, c: CpuView) {
    }

    fn get_addr(&mut self, sys: &mut Cpu) -> (r: Result<u16, Fault>) {
        let x = sys.registers.x;
        let mut addr_base = load_operand(sys, 1)?;
        addr_base = addr_base.wrapping_add(x);
        Ok(addr_base as u16)
    }

    open spec fn size_spec() -> u16 {
        2
    }

    fn size() -> (r: u16) {
        2
    }

    open spec fn cycles_ok(atype: AccessType) -> bool {
        atype != AccessType::Jump
    }

    open spec fn cycles_spec(self, atype: AccessType) -> u64 {
        match atype {
            AccessType::Read => 4,
            AccessType::Write => 4,
            _ => 6,
        }
    }

    fn cycles(&self, atype: AccessType) -> (r: u64) {
        match atype {
            AccessType::Read => 4,
            AccessType::Write => 4,
            _ => 6,
        }
    }

    open spec fn crossed(self) -> bool {
        false
    }

    fn page_crossed(&self) -> (r: bool) {
        false
    }
}

/// Zero page addressing indexed by Y, wrapping within the zero page.
pub struct ZPIndexedY;

impl AddrMode for ZPIndexedY {
    open spec fn initial() -> Self {
        ZPIndexedY
    }

    fn new() -> (r: Self) {
        ZPIndexedY
    }

    open spec fn addr_spec(self, c: CpuView) -> Result<(CpuView, Self, u16), Fault> {
        match operand(c, 1) {
            Err(e) => Err(e),
            Ok((c1, base)) => Ok((c1, self, base.wrapping_add(c.registers.y) as u16)),
        }
    }

    proof fn lemma_keeps_registers(self, c: CpuView) {
    }

    fn get_addr(&mut self, sys: &mut Cpu) -> (r: Result<u16, Fault>) {
        let y = sys.registers.y;
        let mut addr_base = load_operand(sys, 1)?;
        addr_base = addr_base.wrapping_add(y);
        Ok(addr_base as u16)
    }

    open spec fn size_spec() -> u16 {
        2
    }

    fn size() -> (r: u16) {
        2
    }

    open spec fn cycles_ok(atype: AccessType) -> bool {
        atype != AccessType::Jump
    }

    open spec fn cycles_spec(self, atype: AccessType) -> u64 {
        match atype {
            AccessType::Read => 4,
            AccessType::Write => 4,
            _ => 6,
        }
    }

    fn cycles(&self, atype: AccessType) -> (r: u64) {
        match atype {
            AccessType::Read => 4,
            AccessType::Write => 4,
            _ => 6,
        }
    }

    open spec fn crossed(self) -> bool {
        false
    }

    fn page_crossed(&self) -> (r: bool) {
        false
    }
}

/// The operand is a pointer to the address. The pointer's high byte does
/// not carry when its low byte wraps, as on the hardware.
pub struct Indirect;

/// The two bytes of the pointer `ptr_lo`, `ptr_hi` as an address.
pub open spec fn page_addr(ptr_lo: u8, ptr_hi: u16) -> u16 {
    (ptr_lo as u16) | (ptr_hi << 8u16)
}

impl AddrMode for Indirect {
    open spec fn initial() -> Self {
        Indirect
    }

    fn new() -> (r: Self) {
        Indirect
    }

    open spec fn addr_spec(self, c: CpuView) -> Result<(CpuView, Self, u16), Fault> {
        match operand(c, 1) {
            Err(e) => Err(e),
            Ok((c1, ptr_lo)) => match operand(c1, 2) {
                Err(e) => Err(e),
                Ok((c2, ptr_hi)) => match mem_load(c2, page_addr(ptr_lo, ptr_hi as u16)) {
                    Err(e) => Err(e),
                    Ok((c3, lo)) => match mem_load(c3, page_addr(ptr_lo.wrapping_add(1), ptr_hi as u16)) {
                        Err(e) => Err(e),
                        Ok((c4, hi)) => Ok((c4, self, (lo as u16) | ((hi as u16) << 8u16))),
                    },
                },
            },
        }
    }

    proof fn lemma_keeps_registers(self, c: CpuView) {
    }

    fn get_addr(&mut self, sys: &mut Cpu) -> (r: Result<u16, Fault>) {
        let mut indirect_addr_lo = load_operand(sys, 1)?;
        let indirect_addr_hi = load_operand(sys, 2)? as u16;
        // The low byte of the pointer wraps without carrying into the high byte.
        let addr_lo = sys.mmu_load(indirect_addr_lo as u16 | (indirect_addr_hi << 8u16))? as u16;
        indirect_addr_lo = indirect_addr_lo.wrapping_add(1);
        let addr_hi = sys.mmu_load(indirect_addr_lo as u16 | (indirect_addr_hi << 8u16))? as u16;
        Ok(addr_lo | (addr_hi << 8u16))
    }

    open spec fn size_spec() -> u16 {
        3
    }

    fn size() -> (r: u16) {
        3
    }

    open spec fn cycles_ok(atype: AccessType) -> bool {
        true
    }

    open spec fn cycles_spec(self, atype: AccessType) -> u64 {
        5
    }

    fn cycles(&self, atype: AccessType) -> (r: u64) {
        5
    }

    open spec fn crossed(self) -> bool {
        false
    }

    fn page_crossed(&self) -> (r: bool) {
        false
    }
}

/// Indexed indirect: the zero page pointer at operand plus X holds the address.
pub struct PreIndexed;

impl AddrMode for PreIndexed {
    open spec fn initial() -> Self {
        PreIndexed
    }

    fn new() -> (r: Self) {
        PreIndexed
    }

    open spec fn addr_spec(self, c: CpuView) -> Result<(CpuView, Self, u16), Fault> {
        match operand(c, 1) {
            Err(e) => Err(e),
            Ok((c1, ptr)) => if ptr + c.registers.x > 0xff {
                Err(Fault::Overflow)
            } else {
                let indirect = (ptr + c.registers.x) as u16;
                match mem_load(c1, indirect) {
                    Err(e) => Err(e),
                    Ok((c2, lo)) => match mem_load(c2, (indirect + 1) as u16) {
                        Err(e) => Err(e),
                        Ok((c3, hi)) => Ok((c3, self, (lo as u16) | ((hi as u16) << 8u16))),
                    },
                }
            },
        }
    }

    proof fn lemma_keeps_registers(self, c: CpuView) {
    }

    fn get_addr(&mut self, sys: &mut Cpu) -> (r: Result<u16, Fault>) {
        let x = sys.registers.x;
        let indirect_addr_lo = load_operand(sys, 1)?;
        let indirect_addr = match indirect_addr_lo.checked_add(x) {
            Some(a) => a as u16,
            None => return Err(Fault::Overflow),
        };
        let addr_lo = sys.mmu_load(indirect_addr)? as u16;
        let addr_hi = sys.mmu_load(indirect_addr + 1)? as u16;
        Ok(addr_lo | (addr_hi << 8u16))
    }

    open spec fn size_spec() -> u16 {
        2
    }

    fn size() -> (r: u16) {
        2
    }

    open spec fn cycles_ok(atype: AccessType) -> bool {
        atype == AccessType::Read || atype == AccessType::Write
    }

    open spec fn cycles_spec(self, atype: AccessType) -> u64 {
        6
    }

    fn cycles(&self, atype: AccessType) -> (r: u64) {
        6
    }

    open spec fn crossed(self) -> bool {
        false
    }

    fn page_crossed(&self) -> (r: bool) {
        false
    }
}

/// Indirect indexed: the zero page pointer at operand holds an address that
/// is then indexed by Y.
pub struct PostIndexed {
    pub page_crossed: bool,
}

impl AddrMode for PostIndexed {
    open spec fn initial() -> Self {
        PostIndexed { page_crossed: false }
    }

    fn new() -> (r: Self) {
        PostIndexed { page_crossed: false }
    }

    open spec fn addr_spec(self, c: CpuView) -> Result<(CpuView, Self, u16), Fault> {
        match operand(c, 1) {
            Err(e) => Err(e),
            Ok((c1, ptr)) => match mem_load(c1, ptr as u16) {
                Err(e) => Err(e),
                Ok((c2, lo)) => match mem_load(c2, (ptr + 1) as u16) {
                    Err(e) => Err(e),
                    Ok((c3, hi)) => {
                        let addr = (lo as u16) | ((hi as u16) << 8u16);
                        let indexed = addr.wrapping_add(c.registers.y as u16);
                        Ok((c3, PostIndexed { page_crossed: crosses(addr, indexed) }, indexed))
                    },
                },
            },
        }
    }

    proof fn lemma_keeps_registers(self, c: CpuView) {
    }

    fn get_addr(&mut self, sys: &mut Cpu) -> (r: Result<u16, Fault>) {
        let y = sys.registers.y;
        let indirect_addr = load_operand(sys, 1)? as u16;
        let addr_lo: u8 = sys.mmu_load(indirect_addr)?;
        let addr_hi = sys.mmu_load(indirect_addr + 1)?;
        let addr = addr_lo as u16 | ((addr_hi as u16) << 8u16);
        let indexed_addr = addr.wrapping_add(y as u16);
        self.page_crossed = (addr & 0xff00) ^ (indexed_addr & 0xff00) != 0;
        Ok(indexed_addr)
    }

    open spec fn size_spec() -> u16 {
        2
    }

    fn size() -> (r: u16) {
        2
    }

    open spec fn cycles_ok(atype: AccessType) -> bool {
        atype == AccessType::Read || atype == AccessType::Write
    }

    open spec fn cycles_spec(self, atype: AccessType) -> u64 {
        match atype {
            AccessType::Read => if self.page_crossed { 6 } else { 5 },
            _ => 6,
        }
    }

    fn cycles(&self, atype: AccessType) -> (r: u64) {
        match atype {
            AccessType::Read => 5 + self.page_crossed as u64,
            _ => 6,
        }
    }

    open spec fn crossed(self) -> bool {
        self.page_crossed
    }

    fn page_crossed(&self) -> (r: bool) {
        self.page_crossed
    }
}

/// Branch target: the program counter plus the operand byte. The operand is
/// added as an unsigned byte.
pub struct Relative {
    pub page_crossed: bool,
}

impl AddrMode for Relative {
    open spec fn initial() -> Self {
        Relative { page_crossed: false }
    }

    fn new() -> (r: Self) {
        Relative { page_crossed: false }
    }

    open spec fn addr_spec(self, c: CpuView) -> Result<(CpuView, Self, u16), Fault> {
        match operand(c, 1) {
            Err(e) => Err(e),
            Ok((c1, off)) => {
                let pc = c.registers.pc;
                let dest = pc.wrapping_add(off as u16);
                Ok((c1, Relative { page_crossed: crosses(pc, dest) }, dest))
            },
        }
    }

    proof fn lemma_keeps_registers(self, c: CpuView) {
    }

    fn get_addr(&mut self, sys: &mut Cpu) -> (r: Result<u16, Fault>) {
        let pc = sys.registers.pc;
        let dest = pc.wrapping_add(load_operand(sys, 1)? as u16);
        self.page_crossed = (pc & 0xff00) ^ (dest & 0xff00) != 0;
        Ok(dest)
    }

    open spec fn size_spec() -> u16 {
        2
    }

    fn size() -> (r: u16) {
        2
    }

    open spec fn cycles_ok(atype: AccessType) -> bool {
        true
    }

    open spec fn cycles_spec(self, atype: AccessType) -> u64 {
        2
    }

    fn cycles(&self, atype: AccessType) -> (r: u64) {
        2
    }

    open spec fn crossed(self) -> bool {
        self.page_crossed
    }

    fn page_crossed(&self) -> (r: bool) {
        self.page_crossed
    }
}

} // verus!
