use vstd::prelude::*;
use crate::ppu::{Ppu, PpuView, get_reg_spec, set_reg_spec, write_oam_spec};
use crate::mapper::{Cartridge, CartridgeView, Mapper, cartridge_wf, lemma_cartridge_wf_kept};
use crate::chip::{Chip, ChipView, chip_get_spec, chip_set_spec};

verus! {

/// Carry flag of the status register.
pub const CARRY: u8 = 0x01;
/// Zero flag of the status register.
pub const ZERO: u8 = 0x02;
/// Interrupt-disable flag of the status register.
pub const INTERRUPT: u8 = 0x04;
/// Decimal-mode flag of the status register.
pub const DECIMAL: u8 = 0x08;
/// Break flag, only meaningful in a copy of the status register on the stack.
pub const BREAK: u8 = 0x10;
/// The status register bit that reads as set.
pub const IGNORED: u8 = 0x20;
/// Overflow flag of the status register.
pub const OVERFLOW: u8 = 0x40;
/// Negative flag of the status register.
pub const NEGATIVE: u8 = 0x80;
/// The flags that the status register really holds.
pub const STANDARD_FLAGS: u8 = 0xcf;
/// The two bits that only exist in copies pushed on the stack.
pub const UNUSED_FLAGS: u8 = 0x30;

/// Why the emulated machine stopped. Each variant stands for a point where
/// the emulator cannot go on with the program it runs.
#[derive(Clone, Copy, Debug, PartialEq, Eq, Structural)]
pub enum Fault {
    /// The opcode has no implementation (BRK among them).
    Unimplemented(u8),
    /// An address or register computation left its integer range.
    Overflow,
    /// A memory index went past the end of the memory it selects.
    OutOfBounds,
    /// An access to the unused CPU address range 0x401f..0x6000.
    Unmapped(u16),
    /// An addressing mode that has no address (implied) was asked for one.
    NoAddress,
    /// A sprite in secondary OAM does not cover the row being drawn.
    SpriteRow,
    /// A background pixel that is neither transparent nor a plain colour.
    UnexpectedColour,
}

/// The processor status register as a set of flag bits.
#[derive(Clone, Copy)]
pub struct StatusRegister {
    pub bits: u8,
}

/// `bits` with `flag` set when `value` holds and cleared otherwise.
pub open spec fn with_flag(bits: u8, flag: u8, value: bool) -> u8 {
    if value {
        bits | flag
    } else {
        bits & !flag
    }
}

impl StatusRegister {
    pub fn from_bits_retain(bits: u8) -> (r: Self)
        ensures
            r.bits == bits,
    {
        StatusRegister { bits }
    }

    pub fn bits(&self) -> (r: u8)
        ensures
            r == self.bits,
    {
        self.bits
    }

    /// Whether every bit of `flag` is set.
    pub fn contains(&self, flag: u8) -> (r: bool)
        ensures
            r == (self.bits & flag == flag),
    {
        self.bits & flag == flag
    }

    /// Sets or clears the bits of `flag`.
    pub fn set(&mut self, flag: u8, value: bool)
        ensures
            final(self).bits == with_flag(old(self).bits, flag, value),
    {
        if value {
            self.bits = self.bits | flag;
        } else {
            self.bits = self.bits & !flag;
        }
    }
}

/// The CPU's registers.
#[derive(Clone, Copy)]
pub struct Registers {
    pub pc: u16,
    pub ac: u8,
    pub x: u8,
    pub y: u8,
    pub sp: u8,
    pub sr: StatusRegister,
}

impl Registers {
    /// Power-on registers: everything zero, interrupts disabled.
    pub fn new() -> (r: Self)
        ensures
            r.pc == 0,
            r.ac == 0,
            r.x == 0,
            r.y == 0,
            r.sp == 0,
            r.sr.bits == INTERRUPT | IGNORED,
    {
        let sr = StatusRegister::from_bits_retain(INTERRUPT | IGNORED);
        Registers { pc: 0, ac: 0, x: 0, y: 0, sp: 0, sr: sr }
    }
}

/// Byte `i` of `s`, or a fault when `i` is past its end.
pub open spec fn seq_get(s: Seq<u8>, i: int) -> Result<u8, Fault> {
    if 0 <= i < s.len() {
        Ok(s[i])
    } else {
        Err(Fault::OutOfBounds)
    }
}

/// `s` with byte `i` replaced by `val`, or a fault when `i` is past its end.
pub open spec fn seq_set(s: Seq<u8>, i: int, val: u8) -> Result<Seq<u8>, Fault> {
    if 0 <= i < s.len() {
        Ok(s.update(i, val))
    } else {
        Err(Fault::OutOfBounds)
    }
}

/// Reads byte `i` of `v`.
pub fn vec_get(v: &Vec<u8>, i: usize) -> (r: Result<u8, Fault>)
    ensures
        r == seq_get(v@, i as int),
{
    if i < v.len() {
        Ok(v[i])
    } else {
        Err(Fault::OutOfBounds)
    }
}

/// Writes byte `i` of `v`; a fault leaves `v` as it was.
pub fn vec_set(v: &mut Vec<u8>, i: usize, val: u8) -> (r: Result<(), Fault>)
    ensures
        match seq_set(old(v)@, i as int, val) {
            Ok(s) => r is Ok && final(v)@ == s,
            Err(e) => r == Err::<(), Fault>(e) && final(v)@ == old(v)@,
        },
{
    if i < v.len() {
        v.set(i, val);
        Ok(())
    } else {
        Err(Fault::OutOfBounds)
    }
}

/// What the CPU sees of the machine outside its registers.
pub struct BusView {
    pub ram: Seq<u8>,
    pub ppu: PpuView,
    pub mapper: CartridgeView,
    pub chip: ChipView,
}

/// The CPU's registers together with the state of its bus.
pub struct CpuView {
    pub registers: Registers,
    pub bus: BusView,
}

/// The CPU: its registers, its RAM, and the devices on its bus.
pub struct Cpu {
    pub registers: Registers,
    pub ram: Vec<u8>,
    pub ppu: Ppu,
    pub mapper: Cartridge,
    pub chip: Chip,
}

impl View for Cpu {
    type V = CpuView;

    open spec fn view(&self) -> CpuView {
        CpuView {
            registers: self.registers,
            bus: BusView { ram: self.ram@, ppu: self.ppu@, mapper: self.mapper@, chip: self.chip@ },
        }
    }
}

/// A CPU operation's outcome as a value: the state after it and its result,
/// or the fault that stopped it.
pub open spec fn returned<T>(r: Result<T, Fault>, c: CpuView) -> Result<(CpuView, T), Fault> {
    match r {
        Ok(v) => Ok((c, v)),
        Err(e) => Err(e),
    }
}

/// A bus outcome as a value.
pub open spec fn bus_returned<T>(r: Result<T, Fault>, b: BusView) -> Result<(BusView, T), Fault> {
    match r {
        Ok(v) => Ok((b, v)),
        Err(e) => Err(e),
    }
}

/// What a load from the CPU bus at `addr` gives and leaves behind:
/// RAM below 0x2000 (12 address bits into 2 kB), the PPU registers
/// mirrored up to 0x4000, 0 from the OAM DMA port 0x4014, the APU and
/// controller registers up to 0x401f, a fault up to 0x6000, and the
/// cartridge above.
pub open spec fn bus_load(b: BusView, addr: u16) -> Result<(BusView, u8), Fault> {
    if addr < 0x2000 {
        match seq_get(b.ram, (addr & 0xfff) as int) {
            Ok(v) => Ok((b, v)),
            Err(e) => Err(e),
        }
    } else if addr < 0x4000 {
        match get_reg_spec(b.ppu, b.mapper, (addr & 0x0007) as usize) {
            Ok((p, v)) => Ok((BusView { ppu: p, ..b }, v)),
            Err(e) => Err(e),
        }
    } else if addr == 0x4014 {
        Ok((b, 0))
    } else if addr < 0x401f {
        let (c, v) = chip_get_spec(b.chip, (addr & 0x00ff) as usize);
        Ok((BusView { chip: c, ..b }, v))
    } else if addr < 0x6000 {
        Err(Fault::Unmapped(addr))
    } else {
        match Cartridge::get_spec(b.mapper, addr as usize) {
            Ok(v) => Ok((b, v)),
            Err(e) => Err(e),
        }
    }
}

/// OAM DMA from byte `lo` of page `hi` on: each byte is loaded from the bus
/// and written to OAM through OAMDATA.
pub open spec fn oam_transfer_from(b: BusView, hi: u8, lo: int) -> Result<BusView, Fault>
    decreases 256 - lo,
{
    if lo < 0 || lo >= 256 {
        Ok(b)
    } else {
        match bus_load(b, ((hi as u16) << 8u16) | (lo as u16)) {
            Err(e) => Err(e),
            Ok((b1, v)) => oam_transfer_from(BusView { ppu: write_oam_spec(b1.ppu, v), ..b1 }, hi, lo + 1),
        }
    }
}

/// What a store of `val` at `addr` on the CPU bus leaves behind, mapped as
/// `bus_load` maps loads; a store to 0x4014 copies page `val` to OAM.
pub open spec fn bus_store(b: BusView, addr: u16, val: u8) -> Result<BusView, Fault> {
    if addr < 0x2000 {
        match seq_set(b.ram, (addr & 0xfff) as int, val) {
            Ok(r) => Ok(BusView { ram: r, ..b }),
            Err(e) => Err(e),
        }
    } else if addr < 0x4000 {
        match set_reg_spec(b.ppu, b.mapper, (addr & 0x0007) as usize, val) {
            Ok((p, m)) => Ok(BusView { ppu: p, mapper: m, ..b }),
            Err(e) => Err(e),
        }
    } else if addr == 0x4014 {
        oam_transfer_from(b, val, 0)
    } else if addr < 0x401f {
        Ok(BusView { chip: chip_set_spec(b.chip, (addr & 0x00ff) as usize, val), ..b })
    } else if addr < 0x6000 {
        Err(Fault::Unmapped(addr))
    } else {
        match Cartridge::set_spec(b.mapper, addr as usize, val) {
            Ok(m) => Ok(BusView { mapper: m, ..b }),
            Err(e) => Err(e),
        }
    }
}

/// A load seen from the whole CPU: the registers are untouched.
pub open spec fn mem_load(c: CpuView, addr: u16) -> Result<(CpuView, u8), Fault> {
    match bus_load(c.bus, addr) {
        Ok((b, v)) => Ok((CpuView { registers: c.registers, bus: b }, v)),
        Err(e) => Err(e),
    }
}

/// A store seen from the whole CPU: the registers are untouched.
pub open spec fn mem_store(c: CpuView, addr: u16, val: u8) -> Result<CpuView, Fault> {
    match bus_store(c.bus, addr, val) {
        Ok(b) => Ok(CpuView { registers: c.registers, bus: b }),
        Err(e) => Err(e),
    }
}

/// The device that a CPU address selects.
#[derive(Clone, Copy, Debug, PartialEq, Eq, Structural)]
pub enum Memory {
    Ram,
    PpuRegs,
    Oam,
    ApuRegs,
    Cartridge,
}

/// The device a CPU address selects and the location within it, or a
/// fault for the unused range 0x401f..0x6000.
pub open spec fn resolve_spec(addr: u16) -> Result<(Memory, usize), Fault> {
    if addr < 0x2000 {
        Ok((Memory::Ram, (addr & 0xfff) as usize))
    } else if addr < 0x4000 {
        Ok((Memory::PpuRegs, (addr & 0x0007) as usize))
    } else if addr == 0x4014 {
        Ok((Memory::Oam, 0))
    } else if addr < 0x401f {
        Ok((Memory::ApuRegs, (addr & 0x00ff) as usize))
    } else if addr < 0x6000 {
        Err(Fault::Unmapped(addr))
    } else {
        Ok((Memory::Cartridge, addr as usize))
    }
}

/// Decodes a CPU address.
pub fn mmu_resolve(addr: u16) -> (r: Result<(Memory, usize), Fault>)
    ensures
        r == resolve_spec(addr),
        r matches Ok((Memory::PpuRegs, loc)) ==> loc < 8,
{
    if addr < 0x2000 {
        Ok((Memory::Ram, (addr & 0xfff) as usize))
    } else if addr < 0x4000 {
        assert(addr & 0x0007 < 8) by (bit_vector);
        Ok((Memory::PpuRegs, (addr & 0x0007) as usize))
    } else if addr == 0x4014 {
        Ok((Memory::Oam, 0))
    } else if addr < 0x401f {
        Ok((Memory::ApuRegs, (addr & 0x00ff) as usize))
    } else if addr < 0x6000 {
        Err(Fault::Unmapped(addr))
    } else {
        Ok((Memory::Cartridge, addr as usize))
    }
}

impl Cpu {
    /// A CPU with cleared RAM on the given devices, reset.
    pub fn new(mapper: Cartridge, chip: Chip, ppu: Ppu) -> (r: Self)
        ensures
            r@.bus.ram == Seq::new(2048, |i: int| 0u8),
            r@.bus.ppu == ppu@,
            r@.bus.mapper == mapper@,
            r@.bus.chip == chip@,
            r@.registers.pc == 0xc000,
            r@.registers.sp == 0xfd,
            r@.registers.ac == 0 && r@.registers.x == 0 && r@.registers.y == 0,
            r@.registers.sr.bits == INTERRUPT | IGNORED,
            cartridge_wf(mapper@) ==> bus_wf(r@.bus),
    {
        let mut cpu = Cpu { registers: Registers::new(), ram: vec![0; 2048], ppu: ppu, mapper: mapper, chip: chip };
        assert(cpu.ram@ =~= Seq::new(2048, |i: int| 0u8));
        cpu.reset();
        cpu
    }

    /// Starts execution at 0xc000 with the stack pointer three below where
    /// it was.
    fn reset(&mut self)
        ensures
            final(self)@ == (CpuView {
                registers: Registers {
                    pc: 0xc000,
                    sp: old(self).registers.sp.wrapping_sub(3),
                    ..old(self).registers
                },
                ..old(self)@
            }),
    {
        self.registers.pc = 0xc000;
        self.registers.sp = self.registers.sp.wrapping_sub(3);
    }

    pub fn mmu_load(&mut self, addr: u16) -> (r: Result<u8, Fault>)
        ensures
            final(self).registers == old(self).registers,
            mem_load(old(self)@, addr) == returned(r, final(self)@),
    {
        let (mem, loc) = mmu_resolve(addr)?;
        match mem {
            Memory::Ram => vec_get(&self.ram, loc),
            Memory::PpuRegs => self.ppu.get_reg(&mut self.mapper, loc),
            Memory::Oam => Ok(0),
            Memory::ApuRegs => Ok(self.chip.get_reg(loc)),
            Memory::Cartridge => self.mapper.get(loc),
        }
    }

    pub fn mmu_store(&mut self, addr: u16, val: u8) -> (r: Result<(), Fault>)
        ensures
            final(self).registers == old(self).registers,
            mem_store(old(self)@, addr, val) == match r {
                Ok(_) => Ok(final(self)@),
                Err(e) => Err(e),
            },
    {
        let (mem, loc) = mmu_resolve(addr)?;
        match mem {
            Memory::Ram => vec_set(&mut self.ram, loc, val),
            Memory::PpuRegs => self.ppu.set_reg(&mut self.mapper, loc, val),
            Memory::Oam => self.oam_transfer(val),
            Memory::ApuRegs => {
                self.chip.set_reg(loc, val);
                Ok(())
            },
            Memory::Cartridge => self.mapper.set(loc, val),
        }
    }

    fn oam_transfer(&mut self, hi_addr: u8) -> (r: Result<(), Fault>)
        ensures
            final(self).registers == old(self).registers,
            oam_transfer_from(old(self)@.bus, hi_addr, 0) == match r {
                Ok(_) => Ok(final(self)@.bus),
                Err(e) => Err(e),
            },
    {
        let hi = hi_addr as u16;
        let mut lo: u16 = 0;
        while lo < 256
            invariant
                0 <= lo <= 256,
                hi == hi_addr as u16,
                self.registers == old(self).registers,
                oam_transfer_from(old(self)@.bus, hi_addr, 0) == oam_transfer_from(self@.bus, hi_addr, lo as int),
            decreases 256 - lo,
        {
            let addr = (hi << 8u16) | lo;
            let val = self.mmu_load(addr)?;
            self.ppu.write_oam(val);
            lo = lo + 1;
        }
        Ok(())
    }
}

/// RAM below 0x2000 reads back what was stored: a store to a RAM address
/// replaces that byte of RAM and leaves every other part of the bus as it
/// was, and a load gives the byte without changing anything.
pub proof fn lemma_ram_access(b: BusView, addr: u16, val: u8)
    requires
        addr < 0x2000,
    ensures
        (addr & 0xfff) < b.ram.len() ==> bus_store(b, addr, val) == Ok::<BusView, Fault>(
            BusView { ram: b.ram.update((addr & 0xfff) as int, val), ..b },
        ),
        (addr & 0xfff) < b.ram.len() ==> bus_load(b, addr) == Ok::<(BusView, u8), Fault>(
            (b, b.ram[(addr & 0xfff) as int]),
        ),
        (addr & 0xfff) >= b.ram.len() ==> bus_store(b, addr, val) == Err::<BusView, Fault>(Fault::OutOfBounds)
            && bus_load(b, addr) == Err::<(BusView, u8), Fault>(Fault::OutOfBounds),
{
}

/// A load never changes RAM or the cartridge: only reads of the PPU and APU
/// registers have side effects, on those devices.
pub proof fn lemma_load_keeps_memory(b: BusView, addr: u16)
    ensures
        match bus_load(b, addr) {
            Ok((b1, _)) => b1.ram == b.ram && b1.mapper == b.mapper,
            Err(_) => true,
        },
{
}

/// The sizes the CPU's side of the machine keeps: 2 kB of RAM and a
/// well-formed cartridge.
pub open spec fn bus_wf(b: BusView) -> bool {
    b.ram.len() == 2048 && cartridge_wf(b.mapper)
}

/// A PPU register write keeps the cartridge well formed.
proof fn lemma_ppu_reg_keeps_cartridge(p: PpuView, m: CartridgeView, addr: usize, val: u8)
    requires
        cartridge_wf(m),
    ensures
        match set_reg_spec(p, m, addr, val) {
            Ok((_, m1)) => cartridge_wf(m1),
            Err(_) => true,
        },
{
    let a = p.v & 0x3fff;
    lemma_cartridge_wf_kept(m, a as usize, val);
}

/// OAM DMA keeps the bus well formed.
proof fn lemma_oam_transfer_keeps_wf(b: BusView, hi: u8, lo: int)
    requires
        bus_wf(b),
    ensures
        match oam_transfer_from(b, hi, lo) {
            Ok(b1) => bus_wf(b1),
            Err(_) => true,
        },
    decreases 256 - lo,
{
    if 0 <= lo < 256 {
        let addr = ((hi as u16) << 8u16) | (lo as u16);
        lemma_load_keeps_memory(b, addr);
        match bus_load(b, addr) {
            Err(_) => {},
            Ok((b1, v)) => {
                lemma_oam_transfer_keeps_wf(BusView { ppu: write_oam_spec(b1.ppu, v), ..b1 }, hi, lo + 1);
            },
        }
    }
}

/// Loads and stores on the CPU bus keep RAM at 2 kB and the cartridge well
/// formed.
pub proof fn lemma_bus_keeps_wf(b: BusView, addr: u16, val: u8)
    requires
        bus_wf(b),
    ensures
        match bus_load(b, addr) {
            Ok((b1, _)) => bus_wf(b1),
            Err(_) => true,
        },
        match bus_store(b, addr, val) {
            Ok(b1) => bus_wf(b1),
            Err(_) => true,
        },
{
    lemma_load_keeps_memory(b, addr);
    lemma_cartridge_wf_kept(b.mapper, addr as usize, val);
    lemma_ppu_reg_keeps_cartridge(b.ppu, b.mapper, (addr & 0x0007) as usize, val);
    lemma_oam_transfer_keeps_wf(b, val, 0);
}

} // verus!
