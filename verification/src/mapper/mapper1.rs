use vstd::prelude::*;
use crate::system::{Fault, seq_get, seq_set, vec_get, vec_set};
use crate::parse_ines::INes;
use super::Mapper;

verus! {

/// Control register bit: name table arrangement, low bit.
pub const NAME_TABLE_ARRANGEMENT_0: u8 = 0x01;
/// Control register bit: name table arrangement, high bit.
pub const NAME_TABLE_ARRANGEMENT_1: u8 = 0x02;
/// Control register bit: PRG bank mode, low bit.
pub const PRG_BANK_MODE_0: u8 = 0x04;
/// Control register bit: PRG bank mode, high bit.
pub const PRG_BANK_MODE_1: u8 = 0x08;
/// Control register bit: switch CHR in 4 kB banks rather than 8 kB.
pub const CHR_BANK_MODE: u8 = 0x10;
/// The bits the control register keeps.
pub const CONTROL_BITS: u8 = 0x1f;

/// MMC1: bank switched PRG and CHR, configured through a five-bit serial
/// shift register.
pub struct Mapper1 {
    pub control: u8,
    pub chr_bank_0: u8,
    pub chr_bank_1: u8,
    pub prg_bank: u8,
    pub shift_reg: u8,
    pub shift_reg_count: u8,
    pub ppu_ram: Vec<u8>,
    pub chr: Vec<u8>,
    pub prg_rom: Vec<u8>,
    pub prg_ram: Vec<u8>,
}

pub struct Mapper1View {
    pub control: u8,
    pub chr_bank_0: u8,
    pub chr_bank_1: u8,
    pub prg_bank: u8,
    pub shift_reg: u8,
    pub shift_reg_count: u8,
    pub ppu_ram: Seq<u8>,
    pub chr: Seq<u8>,
    pub prg_rom: Seq<u8>,
    pub prg_ram: Seq<u8>,
}

impl View for Mapper1 {
    type V = Mapper1View;

    open spec fn view(&self) -> Mapper1View {
        Mapper1View {
            control: self.control,
            chr_bank_0: self.chr_bank_0,
            chr_bank_1: self.chr_bank_1,
            prg_bank: self.prg_bank,
            shift_reg: self.shift_reg,
            shift_reg_count: self.shift_reg_count,
            ppu_ram: self.ppu_ram@,
            chr: self.chr@,
            prg_rom: self.prg_rom@,
            prg_ram: self.prg_ram@,
        }
    }
}

/// A fresh MMC1 with the given PRG ROM: last bank fixed at 0xc000, cleared
/// RAMs, 128 kB of CHR RAM.
pub open spec fn initial_mapper1(prg_rom: Seq<u8>) -> Mapper1View {
    Mapper1View {
        control: 0x0c,
        chr_bank_0: 0,
        chr_bank_1: 0,
        prg_bank: 0,
        shift_reg: 0,
        shift_reg_count: 0,
        ppu_ram: Seq::new(2048, |i: int| 0u8),
        chr: Seq::new(128 * 1024, |i: int| 0u8),
        prg_rom,
        prg_ram: Seq::new(32 * 1024, |i: int| 0u8),
    }
}

pub open spec fn control_has(control: u8, bit: u8) -> bool {
    control & bit == bit
}

/// Index into the name table RAM for PPU address `addr`, by mirroring mode.
pub open spec fn ram_addr(m: Mapper1View, addr: usize) -> usize {
    let nt1 = control_has(m.control, NAME_TABLE_ARRANGEMENT_1);
    let nt0 = control_has(m.control, NAME_TABLE_ARRANGEMENT_0);
    if !nt1 && !nt0 {
        addr & 0x03ff
    } else if !nt1 && nt0 {
        (addr & 0x03ff) | 0x400
    } else if nt1 && !nt0 {
        addr & 0x07ff
    } else {
        (addr & 0x03ff) | ((addr & 0x800) >> 1usize)
    }
}

/// Index into CHR memory for PPU address `addr`, by CHR bank mode.
pub open spec fn chr_addr(m: Mapper1View, addr: usize) -> usize {
    if control_has(m.control, CHR_BANK_MODE) {
        let high = if addr & 0x1000 == 0 { m.chr_bank_0 } else { m.chr_bank_1 };
        ((high as usize) << 12usize) | (addr & 0xfff)
    } else {
        (((m.chr_bank_0 & 0x1e) as usize) << 12usize) | (addr & 0x1fff)
    }
}

/// Index into PRG ROM for CPU address `addr`, by PRG bank mode.
pub open spec fn rom_addr(m: Mapper1View, addr: usize) -> Result<usize, Fault> {
    let addr = addr & 0x7fff;
    if !control_has(m.control, PRG_BANK_MODE_1) {
        Ok((((m.prg_bank & 0x0e) as usize) << 14usize) | addr)
    } else if !control_has(m.control, PRG_BANK_MODE_0) {
        if addr < 0x4000 {
            Ok(addr)
        } else {
            Ok((((m.prg_bank & 0x0f) as usize) << 14usize) | (0x3fff & addr))
        }
    } else {
        if addr >= 0x4000 {
            if m.prg_rom.len() < 16 * 1024 {
                Err(Fault::Overflow)
            } else {
                Ok((addr & 0x3fff) | ((m.prg_rom.len() - 16 * 1024) as usize))
            }
        } else {
            Ok((((m.prg_bank & 0x0f) as usize) << 14usize) | (0x3fff & addr))
        }
    }
}

/// Loads a register, chosen by bits 13 and 14 of `addr`.
pub open spec fn reg_spec(m: Mapper1View, addr: usize, val: u8) -> Mapper1View {
    let a = addr & 0x6000;
    if a == 0x0000 {
        Mapper1View { control: val & CONTROL_BITS, ..m }
    } else if a == 0x2000 {
        Mapper1View { chr_bank_0: val, ..m }
    } else if a == 0x4000 {
        Mapper1View { chr_bank_1: val, ..m }
    } else {
        Mapper1View { prg_bank: val, ..m }
    }
}

/// A serial write: bit 7 resets the shift register; otherwise bit 0 shifts
/// in from the top, and the fifth bit loads the register that `addr` selects.
pub open spec fn shift_spec(m: Mapper1View, addr: usize, val: u8) -> Result<Mapper1View, Fault> {
    if val & 0x80 != 0 {
        Ok(Mapper1View { shift_reg: 0, shift_reg_count: 0, ..m })
    } else if m.shift_reg_count == 0xff {
        Err(Fault::Overflow)
    } else {
        let shifted = (m.shift_reg >> 1u8) | ((val & 0x01) << 4u8);
        let count = (m.shift_reg_count + 1) as u8;
        if count == 5 {
            Ok(Mapper1View { shift_reg: 0, shift_reg_count: 0, ..reg_spec(m, addr & 0xffff, shifted) })
        } else {
            Ok(Mapper1View { shift_reg: shifted, shift_reg_count: count, ..m })
        }
    }
}

impl Mapper1 {
    pub fn new(ines: INes) -> (r: Self)
        ensures
            r@ == initial_mapper1(ines.prg_rom@),
    {
        let prg_rom = ines.prg_rom;
        let r = Self {
            control: 0x0c,
            chr_bank_0: 0,
            chr_bank_1: 0,
            prg_bank: 0,
            shift_reg: 0,
            shift_reg_count: 0,
            ppu_ram: vec![0; 2048],
            chr: vec![0; 128 * 1024],
            prg_rom: prg_rom,
            prg_ram: vec![0; 32 * 1024],
        };
        assert(r@.ppu_ram =~= Seq::new(2048, |i: int| 0u8));
        assert(r@.chr =~= Seq::new(128 * 1024, |i: int| 0u8));
        assert(r@.prg_ram =~= Seq::new(32 * 1024, |i: int| 0u8));
        r
    }

    fn resolve_ram_addr(&self, addr: usize) -> (r: usize)
        ensures
            r == ram_addr(self@, addr),
    {
        let nt1 = self.control & NAME_TABLE_ARRANGEMENT_1 == NAME_TABLE_ARRANGEMENT_1;
        let nt0 = self.control & NAME_TABLE_ARRANGEMENT_0 == NAME_TABLE_ARRANGEMENT_0;
        if !nt1 && !nt0 {
            // One screen, lower bank
            addr & 0x03ff
        } else if !nt1 && nt0 {
            // One screen, upper bank
            (addr & 0x03ff) | 0x400
        } else if nt1 && !nt0 {
            // Vertical mirroring
            addr & 0x07ff
        } else {
            // Horizontal mirroring
            (addr & 0x03ff) | ((addr & 0x800) >> 1usize)
        }
    }

    fn resolve_chr_addr(&self, addr: usize) -> (r: usize)
        ensures
            r == chr_addr(self@, addr),
    {
        let low_part;
        let high_part;
        if self.control & CHR_BANK_MODE == CHR_BANK_MODE {
            // 4 kB mode
            low_part = addr & 0xfff;
            high_part = if addr & 0x1000 == 0 {
                self.chr_bank_0
            } else {
                self.chr_bank_1
            } as usize;
        } else {
            // 8 kB mode
            low_part = addr & 0x1fff;
            high_part = (self.chr_bank_0 & 0x1e) as usize;
        }
        (high_part << 12usize) | low_part
    }

    fn resolve_rom_addr(&self, addr: usize) -> (r: Result<usize, Fault>)
        ensures
            r == rom_addr(self@, addr),
    {
        let addr = addr & 0x7fff;
        if self.control & PRG_BANK_MODE_1 != PRG_BANK_MODE_1 {
            // Switch 32 kB
            let low_part = addr;
            let high_part = (self.prg_bank & 0x0e) as usize;
            Ok((high_part << 14usize) | low_part)
        } else if self.control & PRG_BANK_MODE_0 != PRG_BANK_MODE_0 {
            // Fix first bank at 0x8000, switch 16 kB at 0xc000
            if addr < 0x4000 {
                Ok(addr)
            } else {
                let low_part = 0x3fff & addr;
                let high_part = (self.prg_bank & 0x0f) as usize;
                Ok((high_part << 14usize) | low_part)
            }
        } else {
            // Switch 16 kB at 0x8000, fix last bank at 0xc000
            if addr >= 0x4000 {
                let addr = addr & 0x3fff;
                if self.prg_rom.len() < 16 * 1024 {
                    return Err(Fault::Overflow);
                }
                Ok(addr | (self.prg_rom.len() - 16 * 1024))
            } else {
                let low_part = 0x3fff & addr;
                let high_part = (self.prg_bank & 0x0f) as usize;
                Ok((high_part << 14usize) | low_part)
            }
        }
    }

    fn set_reg(&mut self, addr: usize, val: u8)
        ensures
            final(self)@ == reg_spec(old(self)@, addr, val),
    {
        let addr = addr & 0x6000;
        if addr == 0x0000 {
            self.control = val & CONTROL_BITS;
        } else if addr == 0x2000 {
            self.chr_bank_0 = val;
        } else if addr == 0x4000 {
            self.chr_bank_1 = val;
        } else {
            self.prg_bank = val;
        }
    }

    fn set_shift_reg(&mut self, addr: usize, val: u8) -> (r: Result<(), Fault>)
        ensures
            shift_spec(old(self)@, addr, val) == match r {
                Ok(_) => Ok(final(self)@),
                Err(e) => Err(e),
            },
    {
        let addr = addr & 0xffff;
        assert(0x80 & val == val & 0x80) by (bit_vector);
        if 0x80 & val != 0 {
            self.shift_reg = 0;
            self.shift_reg_count = 0;
        } else {
            if self.shift_reg_count == 0xff {
                return Err(Fault::Overflow);
            }
            self.shift_reg = self.shift_reg >> 1u8;
            self.shift_reg_count = self.shift_reg_count + 1;
            self.shift_reg = self.shift_reg | ((val & 0x01) << 4u8);
            if self.shift_reg_count == 5 {
                let shifted = self.shift_reg;
                self.set_reg(addr, shifted);
                self.shift_reg_count = 0;
                self.shift_reg = 0;
            }
        }
        Ok(())
    }
}

impl Mapper for Mapper1 {
    open spec fn get_spec(m: Mapper1View, loc: usize) -> Result<u8, Fault> {
        if 0x6000 <= loc < 0x8000 {
            seq_get(m.prg_ram, (loc & 0x1fff) as int)
        } else if 0x8000 <= loc <= 0xffff {
            match rom_addr(m, loc) {
                Ok(a) => seq_get(m.prg_rom, (a & 0x3ffff) as int),
                Err(e) => Err(e),
            }
        } else {
            Ok(0)
        }
    }

    open spec fn set_spec(m: Mapper1View, loc: usize, val: u8) -> Result<Mapper1View, Fault> {
        if 0x6000 <= loc < 0x8000 {
            match seq_set(m.prg_ram, (loc & 0x1fff) as int, val) {
                Ok(s) => Ok(Mapper1View { prg_ram: s, ..m }),
                Err(e) => Err(e),
            }
        } else if 0x8000 <= loc <= 0xffff {
            shift_spec(m, loc & 0x6000, val)
        } else {
            Ok(m)
        }
    }

    open spec fn ppu_get_spec(m: Mapper1View, loc: usize) -> Result<u8, Fault> {
        if loc < 0x2000 {
            seq_get(m.chr, chr_addr(m, loc) as int)
        } else if loc < 0x3f00 {
            seq_get(m.ppu_ram, ram_addr(m, loc) as int)
        } else {
            Ok(0)
        }
    }

    open spec fn ppu_set_spec(m: Mapper1View, loc: usize, val: u8) -> Result<Mapper1View, Fault> {
        if loc < 0x2000 {
            match seq_set(m.chr, chr_addr(m, loc) as int, val) {
                Ok(s) => Ok(Mapper1View { chr: s, ..m }),
                Err(e) => Err(e),
            }
        } else if loc < 0x3f00 {
            match seq_set(m.ppu_ram, ram_addr(m, loc) as int, val) {
                Ok(s) => Ok(Mapper1View { ppu_ram: s, ..m }),
                Err(e) => Err(e),
            }
        } else {
            Ok(m)
        }
    }

    fn get(&mut self, loc: usize) -> (r: Result<u8, Fault>) {
        if 0x6000 <= loc && loc < 0x8000 {
            vec_get(&self.prg_ram, loc & 0x1fff)
        } else if 0x8000 <= loc && loc <= 0xffff {
            let addr = self.resolve_rom_addr(loc)? & 0x3ffff;
            vec_get(&self.prg_rom, addr)
        } else {
            Ok(0)
        }
    }

    fn set(&mut self, loc: usize, val: u8) -> (r: Result<(), Fault>) {
        if 0x6000 <= loc && loc < 0x8000 {
            vec_set(&mut self.prg_ram, loc & 0x1fff, val)
        } else if 0x8000 <= loc && loc <= 0xffff {
            self.set_shift_reg(loc & 0x6000, val)
        } else {
            Ok(())
        }
    }

    fn ppu_get(&mut self, addr: usize) -> (r: Result<u8, Fault>) {
        if addr < 0x2000 {
            let a = self.resolve_chr_addr(addr);
            vec_get(&self.chr, a)
        } else if addr < 0x3f00 {
            let a = self.resolve_ram_addr(addr);
            vec_get(&self.ppu_ram, a)
        } else {
            Ok(0)
        }
    }

    fn ppu_set(&mut self, addr: usize, val: u8) -> (r: Result<(), Fault>) {
        if addr < 0x2000 {
            let a = self.resolve_chr_addr(addr);
            vec_set(&mut self.chr, a, val)
        } else if addr < 0x3f00 {
            let a = self.resolve_ram_addr(addr);
            vec_set(&mut self.ppu_ram, a, val)
        } else {
            Ok(())
        }
    }
}


/// A further CPU write to the cartridge, after an outcome `r`.
pub open spec fn then_write(r: Result<Mapper1View, Fault>, loc: usize, val: u8) -> Result<Mapper1View, Fault> {
    match r {
        Ok(m) => <Mapper1 as Mapper>::set_spec(m, loc, val),
        Err(e) => Err(e),
    }
}

/// A write with bit 7 set to the register range resets the serial shift
/// register and changes nothing else.
pub proof fn lemma_mmc1_reset(m: Mapper1View, loc: usize, val: u8)
    requires
        0x8000 <= loc <= 0xffff,
        val & 0x80 != 0,
    ensures
        <Mapper1 as Mapper>::set_spec(m, loc, val) == Ok::<Mapper1View, Fault>(
            Mapper1View { shift_reg: 0, shift_reg_count: 0, ..m },
        ),
{
}

/// From an empty shift register, five writes with bit 7 clear to the
/// register range load bit 0 of each write, first write lowest, into the
/// register that the fifth write's address selects (bits 13 and 14), and
/// empty the shift register again. The first four addresses do not matter.
pub proof fn lemma_mmc1_serial_load(
    m: Mapper1View,
    l0: usize,
    l1: usize,
    l2: usize,
    l3: usize,
    l4: usize,
    v0: u8,
    v1: u8,
    v2: u8,
    v3: u8,
    v4: u8,
)
    requires
        0x8000 <= l0 <= 0xffff,
        0x8000 <= l1 <= 0xffff,
        0x8000 <= l2 <= 0xffff,
        0x8000 <= l3 <= 0xffff,
        0x8000 <= l4 <= 0xffff,
        m.shift_reg == 0,
        m.shift_reg_count == 0,
        v0 & 0x80 == 0,
        v1 & 0x80 == 0,
        v2 & 0x80 == 0,
        v3 & 0x80 == 0,
        v4 & 0x80 == 0,
    ensures
        then_write(
            then_write(then_write(then_write(<Mapper1 as Mapper>::set_spec(m, l0, v0), l1, v1), l2, v2), l3, v3),
            l4,
            v4,
        ) == Ok::<Mapper1View, Fault>(
            Mapper1View {
                shift_reg: 0,
                shift_reg_count: 0,
                ..reg_spec(
                    m,
                    l4 & 0x6000,
                    (v0 & 1) | ((v1 & 1) << 1u8) | ((v2 & 1) << 2u8) | ((v3 & 1) << 3u8) | ((v4 & 1) << 4u8),
                )
            },
        ),
{
    let s1 = (0u8 >> 1u8) | ((v0 & 0x01) << 4u8);
    let s2 = (s1 >> 1u8) | ((v1 & 0x01) << 4u8);
    let s3 = (s2 >> 1u8) | ((v2 & 0x01) << 4u8);
    let s4 = (s3 >> 1u8) | ((v3 & 0x01) << 4u8);
    let s5 = (s4 >> 1u8) | ((v4 & 0x01) << 4u8);
    let a = l4 & 0x6000;
    assert(s5 == (v0 & 1) | ((v1 & 1) << 1u8) | ((v2 & 1) << 2u8) | ((v3 & 1) << 3u8) | ((v4 & 1) << 4u8) && (a
        & 0xffff) & 0x6000 == a && a & 0x6000 == a) by (bit_vector)
        requires
            s1 == (0u8 >> 1u8) | ((v0 & 0x01) << 4u8),
            s2 == (s1 >> 1u8) | ((v1 & 0x01) << 4u8),
            s3 == (s2 >> 1u8) | ((v2 & 0x01) << 4u8),
            s4 == (s3 >> 1u8) | ((v3 & 0x01) << 4u8),
            s5 == (s4 >> 1u8) | ((v4 & 0x01) << 4u8),
            a == l4 & 0x6000,
    ;
    let m1 = Mapper1View { shift_reg: s1, shift_reg_count: 1, ..m };
    let m2 = Mapper1View { shift_reg: s2, shift_reg_count: 2, ..m };
    let m3 = Mapper1View { shift_reg: s3, shift_reg_count: 3, ..m };
    let m4 = Mapper1View { shift_reg: s4, shift_reg_count: 4, ..m };
    assert(<Mapper1 as Mapper>::set_spec(m, l0, v0) == Ok::<Mapper1View, Fault>(m1));
    assert(<Mapper1 as Mapper>::set_spec(m1, l1, v1) == Ok::<Mapper1View, Fault>(m2));
    assert(<Mapper1 as Mapper>::set_spec(m2, l2, v2) == Ok::<Mapper1View, Fault>(m3));
    assert(<Mapper1 as Mapper>::set_spec(m3, l3, v3) == Ok::<Mapper1View, Fault>(m4));
    assert(reg_spec(m4, (l4 & 0x6000) & 0xffff, s5) == Mapper1View {
        shift_reg: s4,
        shift_reg_count: 4,
        ..reg_spec(m, l4 & 0x6000, s5)
    });
}

/// The CPU's view of the PRG ROM in each bank mode, for 0x8000 to 0xffff.
/// With control bit 3 clear, one 32 kB bank (the PRG register without its
/// low bit) fills the whole range. With bit 3 set and bit 2 clear, the
/// first 16 kB bank is fixed at 0x8000 and the selected one shows at
/// 0xc000. With both set (the mode a fresh MMC1 starts in), the selected
/// bank shows at 0x8000 and the last bank of the ROM is fixed at 0xc000.
pub proof fn lemma_mmc1_prg_banks(m: Mapper1View, loc: usize)
    requires
        0x8000 <= loc <= 0xffff,
    ensures
        !control_has(m.control, PRG_BANK_MODE_1) ==> <Mapper1 as Mapper>::get_spec(m, loc) == seq_get(
            m.prg_rom,
            (m.prg_bank & 0x0e) * 0x4000 + (loc - 0x8000),
        ),
        control_has(m.control, PRG_BANK_MODE_1) && !control_has(m.control, PRG_BANK_MODE_0) ==> <Mapper1 as Mapper>::get_spec(
            m,
            loc,
        ) == if loc < 0xc000 {
            seq_get(m.prg_rom, loc - 0x8000)
        } else {
            seq_get(m.prg_rom, (m.prg_bank & 0x0f) * 0x4000 + (loc - 0xc000))
        },
        control_has(m.control, PRG_BANK_MODE_1) && control_has(m.control, PRG_BANK_MODE_0) && loc < 0xc000 ==> <Mapper1 as Mapper>::get_spec(
            m,
            loc,
        ) == seq_get(m.prg_rom, (m.prg_bank & 0x0f) * 0x4000 + (loc - 0x8000)),
        control_has(m.control, PRG_BANK_MODE_1) && control_has(m.control, PRG_BANK_MODE_0) && loc >= 0xc000
            && m.prg_rom.len() % 0x4000 == 0 && 0x4000 <= m.prg_rom.len() <= 0x40000 ==> <Mapper1 as Mapper>::get_spec(
            m,
            loc,
        ) == Ok::<u8, Fault>(m.prg_rom[m.prg_rom.len() - 0x4000 + (loc - 0xc000)]),
{
    let l = (m.prg_rom.len() - 0x4000) as usize;
    let pb = m.prg_bank;
    assert((((((pb & 0x0e) as usize) << 14usize) | (loc & 0x7fff)) & 0x3ffff == ((pb & 0x0e) as usize) * 0x4000 + (loc
        - 0x8000)) && (loc < 0xc000 ==> (loc & 0x7fff) < 0x4000 && (loc & 0x7fff) & 0x3ffff == loc - 0x8000 && ((((
    pb & 0x0f) as usize) << 14usize) | (0x3fff & (loc & 0x7fff))) & 0x3ffff == ((pb & 0x0f) as usize) * 0x4000 + (loc
        - 0x8000)) && (loc >= 0xc000 ==> (loc & 0x7fff) >= 0x4000 && ((((pb & 0x0f) as usize) << 14usize) | (0x3fff & (
    loc & 0x7fff))) & 0x3ffff == ((pb & 0x0f) as usize) * 0x4000 + (loc - 0xc000) && (l % 0x4000 == 0 && l < 0x40000
        ==> (((loc & 0x7fff) & 0x3fff) | l) & 0x3ffff == l + (loc - 0xc000)))) by (bit_vector)
        requires
            0x8000 <= loc <= 0xffff,
    ;
}

/// The sizes and ranges an MMC1 keeps: 2 kB of name table RAM, 128 kB of
/// CHR RAM, 32 kB of PRG RAM, five-bit bank registers, and a shift register
/// holding fewer than five bits.
pub open spec fn mapper1_wf(m: Mapper1View) -> bool {
    &&& m.ppu_ram.len() == 0x800
    &&& m.chr.len() == 0x20000
    &&& m.prg_ram.len() == 0x8000
    &&& m.chr_bank_0 < 32
    &&& m.chr_bank_1 < 32
    &&& m.prg_bank < 32
    &&& m.shift_reg < 32
    &&& m.shift_reg_count < 5
}

/// A fresh MMC1 is well formed.
pub proof fn lemma_mapper1_new_wf(prg_rom: Seq<u8>)
    ensures
        mapper1_wf(initial_mapper1(prg_rom)),
{
}

/// A well-formed MMC1 maps every CHR address into its 128 kB of CHR RAM
/// and every name table address into its 2 kB of name table RAM, so PPU
/// reads and writes never fail; CPU writes never fail either, and every
/// write keeps it well formed.
pub proof fn lemma_mapper1_wf_kept(m: Mapper1View, loc: usize, val: u8)
    requires
        mapper1_wf(m),
    ensures
        loc < 0x2000 ==> chr_addr(m, loc) < 0x20000,
        ram_addr(m, loc) < 0x800,
        <Mapper1 as Mapper>::ppu_get_spec(m, loc) is Ok,
        match <Mapper1 as Mapper>::ppu_set_spec(m, loc, val) {
            Ok(m1) => mapper1_wf(m1),
            Err(_) => false,
        },
        match <Mapper1 as Mapper>::set_spec(m, loc, val) {
            Ok(m1) => mapper1_wf(m1),
            Err(_) => false,
        },
{
    let b0 = m.chr_bank_0;
    let b1 = m.chr_bank_1;
    let sr = m.shift_reg;
    let shifted = (sr >> 1u8) | ((val & 0x01) << 4u8);
    assert(((b0 as usize) << 12usize) | (loc & 0xfff) < 0x20000 && ((b1 as usize) << 12usize) | (loc & 0xfff)
        < 0x20000 && (((b0 & 0x1e) as usize) << 12usize) | (loc & 0x1fff) < 0x20000 && loc & 0x03ff < 0x800 && (loc
        & 0x03ff) | 0x400 < 0x800 && loc & 0x07ff < 0x800 && (loc & 0x03ff) | ((loc & 0x800) >> 1usize) < 0x800
        && loc & 0x1fff < 0x8000 && shifted < 32) by (bit_vector)
        requires
            b0 < 32,
            b1 < 32,
            sr < 32,
            shifted == (sr >> 1u8) | ((val & 0x01) << 4u8),
    ;
}

/// Which register a completed serial load fills, by the fifth write's
/// address: 0x8000-0x9fff the control register (its five bits), 0xa000-0xbfff
/// CHR bank 0, 0xc000-0xdfff CHR bank 1, 0xe000-0xffff the PRG bank; the
/// other registers and the memories keep their values.
pub proof fn lemma_mmc1_register_select(
    m: Mapper1View,
    l0: usize,
    l1: usize,
    l2: usize,
    l3: usize,
    l4: usize,
    v0: u8,
    v1: u8,
    v2: u8,
    v3: u8,
    v4: u8,
)
    requires
        0x8000 <= l0 <= 0xffff,
        0x8000 <= l1 <= 0xffff,
        0x8000 <= l2 <= 0xffff,
        0x8000 <= l3 <= 0xffff,
        0x8000 <= l4 <= 0xffff,
        m.shift_reg == 0,
        m.shift_reg_count == 0,
        v0 & 0x80 == 0,
        v1 & 0x80 == 0,
        v2 & 0x80 == 0,
        v3 & 0x80 == 0,
        v4 & 0x80 == 0,
    ensures
        ({
            let val = (v0 % 2) + 2 * (v1 % 2) + 4 * (v2 % 2) + 8 * (v3 % 2) + 16 * (v4 % 2);
            match then_write(
                then_write(then_write(then_write(<Mapper1 as Mapper>::set_spec(m, l0, v0), l1, v1), l2, v2), l3, v3),
                l4,
                v4,
            ) {
                Ok(m5) => {
                    &&& m5.control == (if l4 < 0xa000 { val } else { m.control as int })
                    &&& m5.chr_bank_0 == (if 0xa000 <= l4 < 0xc000 { val } else { m.chr_bank_0 as int })
                    &&& m5.chr_bank_1 == (if 0xc000 <= l4 < 0xe000 { val } else { m.chr_bank_1 as int })
                    &&& m5.prg_bank == (if 0xe000 <= l4 { val } else { m.prg_bank as int })
                    &&& m5.shift_reg == 0 && m5.shift_reg_count == 0
                    &&& m5.ppu_ram == m.ppu_ram && m5.chr == m.chr && m5.prg_rom == m.prg_rom && m5.prg_ram == m.prg_ram
                },
                Err(_) => false,
            }
        }),
{
    lemma_mmc1_serial_load(m, l0, l1, l2, l3, l4, v0, v1, v2, v3, v4);
    let b = (v0 & 1) | ((v1 & 1) << 1u8) | ((v2 & 1) << 2u8) | ((v3 & 1) << 3u8) | ((v4 & 1) << 4u8);
    let a = l4 & 0x6000;
    assert(b == (v0 % 2) + 2 * (v1 % 2) + 4 * (v2 % 2) + 8 * (v3 % 2) + 16 * (v4 % 2) && b & CONTROL_BITS == b && a
        & 0x6000 == a && (a == 0 <==> l4 < 0xa000) && (a == 0x2000 <==> (0xa000 <= l4 && l4 < 0xc000)) && (a == 0x4000 <==> (0xc000 <= l4
        && l4 < 0xe000))) by (bit_vector)
        requires
            b == (v0 & 1) | ((v1 & 1) << 1u8) | ((v2 & 1) << 2u8) | ((v3 & 1) << 3u8) | ((v4 & 1) << 4u8),
            a == l4 & 0x6000,
            0x8000 <= l4 <= 0xffff,
    ;
}

} // verus!
