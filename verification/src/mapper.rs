pub mod mapper0;
pub mod mapper1;

use vstd::prelude::*;
use crate::system::Fault;
use crate::parse_ines::INes;
use mapper0::{Mapper0, Mapper0View, mapper0_wf, lemma_mapper0_wf_kept};
use mapper1::{Mapper1, Mapper1View, mapper1_wf, lemma_mapper1_wf_kept};

verus! {

/// A cartridge's memory map, seen from the CPU (`get`, `set`) and from the
/// PPU (`ppu_get`, `ppu_set`).
pub trait Mapper: View + Sized {
    /// The byte a CPU read at `loc` gives.
    spec fn get_spec(m: Self::V, loc: usize) -> Result<u8, Fault>;

    /// The cartridge after a CPU write at `loc`.
    spec fn set_spec(m: Self::V, loc: usize, val: u8) -> Result<Self::V, Fault>;

    /// The byte a PPU read at `loc` gives.
    spec fn ppu_get_spec(m: Self::V, loc: usize) -> Result<u8, Fault>;

    /// The cartridge after a PPU write at `loc`.
    spec fn ppu_set_spec(m: Self::V, loc: usize, val: u8) -> Result<Self::V, Fault>;

    fn get(&mut self, loc: usize) -> (r: Result<u8, Fault>)
        ensures
            final(self)@ == old(self)@,
            r == Self::get_spec(old(self)@, loc),
    ;

    fn set(&mut self, loc: usize, val: u8) -> (r: Result<(), Fault>)
        ensures
            Self::set_spec(old(self)@, loc, val) == match r {
                Ok(_) => Ok(final(self)@),
                Err(e) => Err(e),
            },
    ;

    fn ppu_get(&mut self, loc: usize) -> (r: Result<u8, Fault>)
        ensures
            final(self)@ == old(self)@,
            r == Self::ppu_get_spec(old(self)@, loc),
    ;

    fn ppu_set(&mut self, loc: usize, val: u8) -> (r: Result<(), Fault>)
        ensures
            Self::ppu_set_spec(old(self)@, loc, val) == match r {
                Ok(_) => Ok(final(self)@),
                Err(e) => Err(e),
            },
    ;
}

/// The cartridge of a running game: one of the supported mappers.
pub enum Cartridge {
    Mapper0(Mapper0),
    Mapper1(Mapper1),
}

pub enum CartridgeView {
    Mapper0(Mapper0View),
    Mapper1(Mapper1View),
}

impl View for Cartridge {
    type V = CartridgeView;

    open spec fn view(&self) -> CartridgeView {
        match self {
            Cartridge::Mapper0(m) => CartridgeView::Mapper0(m@),
            Cartridge::Mapper1(m) => CartridgeView::Mapper1(m@),
        }
    }
}

impl Mapper for Cartridge {
    open spec fn get_spec(m: CartridgeView, loc: usize) -> Result<u8, Fault> {
        match m {
            CartridgeView::Mapper0(v) => Mapper0::get_spec(v, loc),
            CartridgeView::Mapper1(v) => Mapper1::get_spec(v, loc),
        }
    }

    open spec fn set_spec(m: CartridgeView, loc: usize, val: u8) -> Result<CartridgeView, Fault> {
        match m {
            CartridgeView::Mapper0(v) => match Mapper0::set_spec(v, loc, val) {
                Ok(v1) => Ok(CartridgeView::Mapper0(v1)),
                Err(e) => Err(e),
            },
            CartridgeView::Mapper1(v) => match Mapper1::set_spec(v, loc, val) {
                Ok(v1) => Ok(CartridgeView::Mapper1(v1)),
                Err(e) => Err(e),
            },
        }
    }

    open spec fn ppu_get_spec(m: CartridgeView, loc: usize) -> Result<u8, Fault> {
        match m {
            CartridgeView::Mapper0(v) => Mapper0::ppu_get_spec(v, loc),
            CartridgeView::Mapper1(v) => Mapper1::ppu_get_spec(v, loc),
        }
    }

    open spec fn ppu_set_spec(m: CartridgeView, loc: usize, val: u8) -> Result<CartridgeView, Fault> {
        match m {
            CartridgeView::Mapper0(v) => match Mapper0::ppu_set_spec(v, loc, val) {
                Ok(v1) => Ok(CartridgeView::Mapper0(v1)),
                Err(e) => Err(e),
            },
            CartridgeView::Mapper1(v) => match Mapper1::ppu_set_spec(v, loc, val) {
                Ok(v1) => Ok(CartridgeView::Mapper1(v1)),
                Err(e) => Err(e),
            },
        }
    }

    fn get(&mut self, loc: usize) -> (r: Result<u8, Fault>) {
        match self {
            Cartridge::Mapper0(m) => m.get(loc),
            Cartridge::Mapper1(m) => m.get(loc),
        }
    }

    fn set(&mut self, loc: usize, val: u8) -> (r: Result<(), Fault>) {
        match self {
            Cartridge::Mapper0(m) => m.set(loc, val),
            Cartridge::Mapper1(m) => m.set(loc, val),
        }
    }

    fn ppu_get(&mut self, loc: usize) -> (r: Result<u8, Fault>) {
        match self {
            Cartridge::Mapper0(m) => m.ppu_get(loc),
            Cartridge::Mapper1(m) => m.ppu_get(loc),
        }
    }

    fn ppu_set(&mut self, loc: usize, val: u8) -> (r: Result<(), Fault>) {
        match self {
            Cartridge::Mapper0(m) => m.ppu_set(loc, val),
            Cartridge::Mapper1(m) => m.ppu_set(loc, val),
        }
    }
}

/// The mapper numbers that have an implementation.
pub open spec fn supported_mapper(ines: &INes) -> bool {
    ines.mapper == 0 && mapper0::mapper0_compatible(ines) || ines.mapper == 1
}

/// Builds the cartridge for the mapper that the image names.
pub fn generate_mapper(ines: INes) -> (r: Cartridge)
    requires
        supported_mapper(&ines),
    ensures
        ines.mapper == 0 ==> r@ == CartridgeView::Mapper0(mapper0::initial_mapper0(ines.prg_rom@, ines.chr_rom.unwrap()@)),
        ines.mapper == 1 ==> r@ == CartridgeView::Mapper1(mapper1::initial_mapper1(ines.prg_rom@)),
        cartridge_wf(r@),
{
    if ines.mapper == 0 {
        Cartridge::Mapper0(Mapper0::new(ines))
    } else {
        Cartridge::Mapper1(Mapper1::new(ines))
    }
}

/// The PPU side of a cartridge reads back what it stored: a write to a
/// pattern or name table address that succeeds is what a read of that
/// address then gives, and a write fails exactly where a read does.
pub proof fn lemma_ppu_read_after_write(m: CartridgeView, loc: usize, val: u8)
    requires
        loc < 0x3f00,
    ensures
        match Cartridge::ppu_set_spec(m, loc, val) {
            Ok(m1) => Cartridge::ppu_get_spec(m1, loc) == Ok::<u8, Fault>(val),
            Err(e) => Cartridge::ppu_get_spec(m, loc) == Err::<u8, Fault>(e),
        },
{
}

/// Cartridge RAM at 0x6000 to 0x7fff reads back what the CPU stored there.
pub proof fn lemma_prg_ram_read_after_write(m: CartridgeView, loc: usize, val: u8)
    requires
        0x6000 <= loc < 0x8000,
    ensures
        match Cartridge::set_spec(m, loc, val) {
            Ok(m1) => Cartridge::get_spec(m1, loc) == Ok::<u8, Fault>(val),
            Err(e) => Cartridge::get_spec(m, loc) == Err::<u8, Fault>(e),
        },
{
}

/// With 16 kB of PRG ROM, mapper 0 shows the same bank at 0x8000 and at
/// 0xc000.
pub proof fn lemma_mapper0_prg_mirror(v: Mapper0View, i: usize)
    requires
        v.prg_rom.len() == 16 * 1024,
        i < 0x4000,
    ensures
        Mapper0::get_spec(v, (0x8000 + i) as usize) == Mapper0::get_spec(v, (0xc000 + i) as usize),
{
    assert(((0x8000 + i) as usize) & 0x3fff == i && ((0xc000 + i) as usize) & 0x3fff == i) by (bit_vector)
        requires
            i < 0x4000,
    ;
}

/// Builds the cartridge when a mapper implementation accepts the image:
/// mapper 0 with 16 or 32 kB of PRG ROM and 8 kB of CHR ROM, or mapper 1.
pub fn try_generate_mapper(ines: INes) -> (r: Option<Cartridge>)
    ensures
        r is Some <==> supported_mapper(&ines),
        r matches Some(c) ==> {
            &&& ines.mapper == 0 ==> c@ == CartridgeView::Mapper0(
                mapper0::initial_mapper0(ines.prg_rom@, ines.chr_rom.unwrap()@),
            )
            &&& ines.mapper == 1 ==> c@ == CartridgeView::Mapper1(mapper1::initial_mapper1(ines.prg_rom@))
            &&& cartridge_wf(c@)
        },
{
    let supported = if ines.mapper == 0 {
        let prg_len = ines.prg_rom.len();
        let chr_ok = match &ines.chr_rom {
            Some(chr) => chr.len() == 8 * 1024,
            None => false,
        };
        (prg_len == 16 * 1024 || prg_len == 32 * 1024) && chr_ok
    } else {
        ines.mapper == 1
    };
    if supported {
        Some(generate_mapper(ines))
    } else {
        None
    }
}

/// The memory sizes and register ranges that a cartridge keeps.
pub open spec fn cartridge_wf(m: CartridgeView) -> bool {
    match m {
        CartridgeView::Mapper0(v) => mapper0_wf(v),
        CartridgeView::Mapper1(v) => mapper1_wf(v),
    }
}

/// Every CPU or PPU write that a well-formed cartridge accepts keeps it
/// well formed, and its CPU reads and pattern table reads never fail.
pub proof fn lemma_cartridge_wf_kept(m: CartridgeView, loc: usize, val: u8)
    requires
        cartridge_wf(m),
    ensures
        Cartridge::get_spec(m, loc) is Ok || m is Mapper1,
        loc < 0x2000 ==> Cartridge::ppu_get_spec(m, loc) is Ok,
        match Cartridge::set_spec(m, loc, val) {
            Ok(m1) => cartridge_wf(m1),
            Err(_) => false,
        },
        match Cartridge::ppu_set_spec(m, loc, val) {
            Ok(m1) => cartridge_wf(m1),
            Err(_) => true,
        },
{
    match m {
        CartridgeView::Mapper0(v) => lemma_mapper0_wf_kept(v, loc, val),
        CartridgeView::Mapper1(v) => lemma_mapper1_wf_kept(v, loc, val),
    }
}

} // verus!
