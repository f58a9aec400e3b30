use vstd::prelude::*;
use crate::system::{Fault, seq_get, seq_set, vec_get, vec_set};
use crate::parse_ines::INes;
use super::Mapper;

verus! {

/// NROM: fixed PRG ROM of 16 or 32 kB, 8 kB of CHR ROM, no bank switching.
pub struct Mapper0 {
    pub ppu_ram: Vec<u8>,
    pub chr_rom: Vec<u8>,
    pub prg_rom: Vec<u8>,
    pub prg_ram: Vec<u8>,
}

pub struct Mapper0View {
    pub ppu_ram: Seq<u8>,
    pub chr_rom: Seq<u8>,
    pub prg_rom: Seq<u8>,
    pub prg_ram: Seq<u8>,
}

impl View for Mapper0 {
    type V = Mapper0View;

    open spec fn view(&self) -> Mapper0View {
        Mapper0View { ppu_ram: self.ppu_ram@, chr_rom: self.chr_rom@, prg_rom: self.prg_rom@, prg_ram: self.prg_ram@ }
    }
}

/// An image that mapper 0 accepts: 16 or 32 kB of PRG ROM and 8 kB of CHR ROM.
pub open spec fn mapper0_compatible(ines: &INes) -> bool {
    &&& ines.prg_rom.len() == 16 * 1024 || ines.prg_rom.len() == 32 * 1024
    &&& ines.chr_rom is Some
    &&& ines.chr_rom.unwrap().len() == 8 * 1024
}

/// A fresh mapper 0 with the given ROMs and cleared RAM.
pub open spec fn initial_mapper0(prg_rom: Seq<u8>, chr_rom: Seq<u8>) -> Mapper0View {
    Mapper0View {
        ppu_ram: Seq::new(2048, |i: int| 0u8),
        chr_rom,
        prg_rom,
        prg_ram: Seq::new(2048, |i: int| 0u8),
    }
}

/// The address mask of the PRG ROM: both 16 kB halves of the CPU window
/// show the same bank when the ROM has only one.
pub open spec fn prg_mask(m: Mapper0View) -> usize {
    if m.prg_rom.len() == 32 * 1024 {
        0x7fff
    } else {
        0x3fff
    }
}

impl Mapper0 {
    pub fn new(ines: INes) -> (r: Self)
        requires
            mapper0_compatible(&ines),
        ensures
            r@ == initial_mapper0(ines.prg_rom@, ines.chr_rom.unwrap()@),
    {
        let prg_rom = ines.prg_rom;
        let chr_rom = match ines.chr_rom {
            Some(c) => c,
            None => Vec::new(),
        };
        let r = Self { ppu_ram: vec![0; 2048], prg_rom: prg_rom, prg_ram: vec![0; 2048], chr_rom: chr_rom };
        assert(r@.ppu_ram =~= Seq::new(2048, |i: int| 0u8));
        assert(r@.prg_ram =~= Seq::new(2048, |i: int| 0u8));
        r
    }

    fn prg_rom_mask(&self) -> (r: usize)
        ensures
            r == prg_mask(self@),
    {
        if self.prg_rom.len() == 32 * 1024 {
            0x7fff
        } else {
            0x3fff
        }
    }
}

impl Mapper for Mapper0 {
    open spec fn get_spec(m: Mapper0View, loc: usize) -> Result<u8, Fault> {
        if 0x6000 <= loc < 0x8000 {
            seq_get(m.prg_ram, (loc & 0x7ff) as int)
        } else if 0x8000 <= loc < 0xc000 {
            seq_get(m.prg_rom, (loc & 0x3fff) as int)
        } else if 0xc000 <= loc <= 0xffff {
            seq_get(m.prg_rom, (loc & prg_mask(m)) as int)
        } else {
            Ok(0)
        }
    }

    open spec fn set_spec(m: Mapper0View, loc: usize, val: u8) -> Result<Mapper0View, Fault> {
        if 0x6000 <= loc < 0x8000 {
            match seq_set(m.prg_ram, (loc & 0x7ff) as int, val) {
                Ok(s) => Ok(Mapper0View { prg_ram: s, ..m }),
                Err(e) => Err(e),
            }
        } else if 0x8000 <= loc <= 0xffff {
            let i = if loc < 0xc000 { loc & 0x3fff } else { loc & prg_mask(m) };
            match seq_set(m.prg_rom, i as int, val) {
                Ok(s) => Ok(Mapper0View { prg_rom: s, ..m }),
                Err(e) => Err(e),
            }
        } else {
            Ok(m)
        }
    }

    open spec fn ppu_get_spec(m: Mapper0View, loc: usize) -> Result<u8, Fault> {
        if loc < 0x2000 {
            seq_get(m.chr_rom, loc as int)
        } else if loc < 0x3f00 {
            seq_get(m.ppu_ram, (loc & 0x0fff) as int)
        } else {
            Ok(0)
        }
    }

    open spec fn ppu_set_spec(m: Mapper0View, loc: usize, val: u8) -> Result<Mapper0View, Fault> {
        if loc < 0x2000 {
            match seq_set(m.chr_rom, loc as int, val) {
                Ok(s) => Ok(Mapper0View { chr_rom: s, ..m }),
                Err(e) => Err(e),
            }
        } else if loc < 0x3f00 {
            match seq_set(m.ppu_ram, (loc & 0x0fff) as int, val) {
                Ok(s) => Ok(Mapper0View { ppu_ram: s, ..m }),
                Err(e) => Err(e),
            }
        } else {
            Ok(m)
        }
    }

    fn get(&mut self, loc: usize) -> (r: Result<u8, Fault>) {
        let mask = self.prg_rom_mask();
        if 0x6000 <= loc && loc < 0x8000 {
            vec_get(&self.prg_ram, loc & 0x7ff)
        } else if 0x8000 <= loc && loc < 0xc000 {
            vec_get(&self.prg_rom, loc & 0x3fff)
        } else if 0xc000 <= loc && loc <= 0xffff {
            vec_get(&self.prg_rom, loc & mask)
        } else {
            Ok(0)
        }
    }

    fn set(&mut self, loc: usize, val: u8) -> (r: Result<(), Fault>) {
        let mask = self.prg_rom_mask();
        if 0x6000 <= loc && loc < 0x8000 {
            vec_set(&mut self.prg_ram, loc & 0x7ff, val)
        } else if 0x8000 <= loc && loc < 0xc000 {
            vec_set(&mut self.prg_rom, loc & 0x3fff, val)
        } else if 0xc000 <= loc && loc <= 0xffff {
            vec_set(&mut self.prg_rom, loc & mask, val)
        } else {
            Ok(())
        }
    }

    fn ppu_get(&mut self, addr: usize) -> (r: Result<u8, Fault>) {
        if addr < 0x2000 {
            vec_get(&self.chr_rom, addr)
        } else if addr < 0x3f00 {
            vec_get(&self.ppu_ram, addr & 0x0fff)
        } else {
            Ok(0)
        }
    }

    fn ppu_set(&mut self, addr: usize, val: u8) -> (r: Result<(), Fault>) {
        if addr < 0x2000 {
            vec_set(&mut self.chr_rom, addr, val)
        } else if addr < 0x3f00 {
            vec_set(&mut self.ppu_ram, addr & 0x0fff, val)
        } else {
            Ok(())
        }
    }
}

/// The sizes mapper 0 keeps: 2 kB of name table RAM, 2 kB of PRG RAM,
/// 8 kB of CHR and 16 or 32 kB of PRG ROM.
pub open spec fn mapper0_wf(m: Mapper0View) -> bool {
    &&& m.ppu_ram.len() == 0x800
    &&& m.prg_ram.len() == 0x800
    &&& m.chr_rom.len() == 0x2000
    &&& m.prg_rom.len() == 0x4000 || m.prg_rom.len() == 0x8000
}

/// A well-formed mapper 0 answers every CPU read and every read of its
/// pattern tables; CPU and PPU writes that succeed keep it well formed.
/// (Name table addresses past its 2 kB, 0x2800 and up, fault.)
pub proof fn lemma_mapper0_wf_kept(m: Mapper0View, loc: usize, val: u8)
    requires
        mapper0_wf(m),
    ensures
        Mapper0::get_spec(m, loc) is Ok,
        loc < 0x2000 ==> Mapper0::ppu_get_spec(m, loc) is Ok,
        match Mapper0::set_spec(m, loc, val) {
            Ok(m1) => mapper0_wf(m1),
            Err(_) => false,
        },
        match Mapper0::ppu_set_spec(m, loc, val) {
            Ok(m1) => mapper0_wf(m1),
            Err(_) => 0x2000 <= loc < 0x3f00 && (loc & 0x0fff) >= 0x800,
        },
{
    assert(loc & 0x7ff < 0x800 && loc & 0x3fff < 0x4000 && loc & 0x7fff < 0x8000) by (bit_vector);
}

} // verus!
