pub mod palette;
pub mod oam;

use vstd::prelude::*;
use crate::system::Fault;
use crate::mapper::{Cartridge, CartridgeView, Mapper};
use palette::{Rgb, Colour, PaletteRam, PaletteView, palette_get, palette_set, rgb_lookup_spec, background_colour_spec, same_palette_cell, lemma_palette_read_after_write};
use oam::{Oam, OamView, oam_read, oam_write};

verus! {

/// Width of the picture in pixels.
pub const WIDTH: usize = 256;
/// Height of the picture in pixels.
pub const HEIGHT: usize = 240;

/// PPUCTRL: base name table, low bit.
pub const NAME_TABLE_0: u8 = 1 << 0;
/// PPUCTRL: base name table, high bit.
pub const NAME_TABLE_1: u8 = 1 << 1;
/// PPUCTRL: VRAM address increment of 32 (down) rather than 1 (across).
pub const VRAM_INCR: u8 = 1 << 2;
/// PPUCTRL: sprite pattern table select.
pub const SPRITE_TILE_SEL: u8 = 1 << 3;
/// PPUCTRL: background pattern table select.
pub const BACKGROUND_SEL: u8 = 1 << 4;
/// PPUCTRL: 8x16 sprites.
pub const SPRITE_HEIGHT: u8 = 1 << 5;
/// PPUCTRL: master/slave select.
pub const PPU_MASTER_SLAVE: u8 = 1 << 6;
/// PPUCTRL: raise an NMI at the start of vertical blank.
pub const NMI_EN: u8 = 1 << 7;

/// PPUMASK: greyscale.
pub const GREY_SCALE: u8 = 1 << 0;
/// PPUMASK: show the background in the leftmost 8 pixels.
pub const SHOW_BACKGROUND: u8 = 1 << 1;
/// PPUMASK: show sprites in the leftmost 8 pixels.
pub const SHOW_SPRITES: u8 = 1 << 2;
/// PPUMASK: render the background.
pub const RENDER_BACKGROUND: u8 = 1 << 3;
/// PPUMASK: render sprites.
pub const RENDER_SPRITES: u8 = 1 << 4;
/// PPUMASK: emphasize red.
pub const EMPHASIZE_RED: u8 = 1 << 5;
/// PPUMASK: emphasize green.
pub const EMPHASIZE_GREEN: u8 = 1 << 6;
/// PPUMASK: emphasize blue.
pub const EMPHASIZE_BLUE: u8 = 1 << 7;

/// PPUSTATUS: sprite overflow.
pub const SPRITE_OVERFLOW: u8 = 1 << 5;
/// PPUSTATUS: sprite 0 hit.
pub const SPRITE_0_HIT: u8 = 1 << 6;
/// PPUSTATUS: vertical blank.
pub const VBLANK: u8 = 1 << 7;

/// The bits of a VRAM address that hold the horizontal scroll position:
/// coarse X and the horizontal name table bit.
pub const HORIZONTAL_BITS: u16 = 0b00000100_00011111;
/// The bits of a VRAM address that hold the vertical scroll position:
/// fine Y, the vertical name table bit and coarse Y.
pub const VERTICAL_BITS: u16 = 0b01111011_11100000;

/// A VRAM address as the PPU's scrolling registers hold it:
/// `yyy NN YYYYY XXXXX` (fine Y, name table, coarse Y, coarse X).
#[derive(Clone, Copy, Debug, PartialEq, Eq, Structural)]
pub struct VramAddr(pub u16);

pub open spec fn set_x_spec(v: u16, x_val: u16) -> u16 {
    (v & !HORIZONTAL_BITS) | ((x_val & 0b11111000) >> 3u16) | ((x_val & 0b00000001_00000000) << 2u16)
}

pub open spec fn set_y_spec(v: u16, y_val: u16) -> u16 {
    let nt_bit = (y_val / 240) & 0x1;
    let y = y_val % 240;
    (v & !VERTICAL_BITS) | ((y_val & 0b00000111) << 12u16) | ((y & 0b11111000) << 2u16) | (nt_bit << 11u16)
}

/// The horizontal position in tiles, 0 to 63: coarse X with the horizontal
/// name table bit above it.
pub open spec fn horizontal_tile(v: u16) -> u16 {
    (v & 0b11111) | ((v & 0b100_00000000) >> 5u16)
}

/// Moves one tile right, wrapping from tile 63 to tile 0 across both name
/// tables.
pub open spec fn x_course_increment_spec(v: u16) -> u16 {
    set_x_spec(v, ((horizontal_tile(v) + 1) as u16) << 3u16)
}

/// Moves one pixel row down: fine Y counts to 7, then coarse Y moves on.
/// The last row of tiles is coarse Y 29: from there coarse Y wraps to 0 and
/// the vertical name table switches. Coarse Y 31 (past the name table, in
/// the attribute rows) wraps to 0 without switching.
pub open spec fn y_increment_spec(v: u16) -> u16 {
    if (v & 0x7000) != 0x7000 {
        (v + 0x1000) as u16
    } else {
        let v1 = v & !0x7000u16;
        let y = (v1 & 0x03E0) >> 5u16;
        if y == 29 {
            ((v1 ^ 0x0800) & !0x03E0u16) | (0u16 << 5u16)
        } else if y == 31 {
            (v1 & !0x03E0u16) | (0u16 << 5u16)
        } else {
            (v1 & !0x03E0u16) | (((y + 1) as u16) << 5u16)
        }
    }
}

/// `v` with the bits of `mask` taken from `other`.
pub open spec fn merge_bits(v: u16, other: u16, mask: u16) -> u16 {
    (v & !mask) | (other & mask)
}

impl VramAddr {
    /// Loads the horizontal scroll position `x_val` (in pixels, 0 to 511):
    /// coarse X from bits 3-7, the name table bit from bit 8.
    pub fn set_x(self, x_val: u16) -> (r: Self)
        ensures
            r.0 == set_x_spec(self.0, x_val),
    {
        let mut v = self.0;
        v &= !HORIZONTAL_BITS;
        v |= (x_val & 0b11111000) >> 3u16;
        v |= (x_val & 0b00000001_00000000) << 2u16;
        VramAddr(v)
    }

    /// Loads the vertical scroll position `y_val` (in pixels): fine Y from
    /// the low three bits; past 240 the other name table.
    pub fn set_y(self, y_val: u16) -> (r: Self)
        ensures
            r.0 == set_y_spec(self.0, y_val),
    {
        let mut v = self.0;
        v &= !VERTICAL_BITS;
        v |= (y_val & 0b00000111) << 12u16;
        let nt_bit = (y_val / 240) & 0x1;
        let y_val = y_val % 240;
        v |= (y_val & 0b11111000) << 2u16;
        v |= nt_bit << 11u16;
        VramAddr(v)
    }

    pub fn x_course_increment(self) -> (r: Self)
        ensures
            r.0 == x_course_increment_spec(self.0),
    {
        let v = self.0;
        let mut x_course = (v & 0b11111) | ((v & 0b100_00000000) >> 5u16);
        assert(x_course < 64) by (bit_vector)
            requires
                x_course == (v & 0b11111) | ((v & 0b100_00000000) >> 5u16),
        ;
        x_course += 1;
        let x = x_course << 3u16;
        self.set_x(x)
    }

    pub fn y_increment(self) -> (r: Self)
        ensures
            r.0 == y_increment_spec(self.0),
    {
        let mut v = self.0;
        if (v & 0x7000) != 0x7000 {
            assert(v + 0x1000 <= 0xffff) by (bit_vector)
                requires
                    (v & 0x7000) != 0x7000,
            ;
            v += 0x1000;
        } else {
            v &= !0x7000u16;
            let mut y = (v & 0x03E0) >> 5u16;
            assert(y < 32) by (bit_vector)
                requires
                    y == (v & 0x03E0) >> 5u16,
            ;
            if y == 29 {
                y = 0;
                v ^= 0x0800;
            } else if y == 31 {
                y = 0;
            } else {
                y += 1;
            }
            v = (v & !0x03E0u16) | (y << 5u16)
        }
        Self(v)
    }

    /// Takes the horizontal bits from `other`.
    pub fn set_x_raw(&self, other: Self) -> (r: Self)
        ensures
            r.0 == merge_bits(self.0, other.0, HORIZONTAL_BITS),
    {
        let mask = HORIZONTAL_BITS;
        let mut new_v = self.0 & !mask;
        let other = other.0;
        new_v |= other & mask;
        VramAddr(new_v)
    }

    /// Takes the vertical bits from `other`.
    pub fn set_y_raw(&self, other: Self) -> (r: Self)
        ensures
            r.0 == merge_bits(self.0, other.0, VERTICAL_BITS),
    {
        let mask = VERTICAL_BITS;
        let mut new_v = self.0 & !mask;
        let other = other.0;
        new_v |= other & mask;
        VramAddr(new_v)
    }
}

/// A rendered picture, row by row: always `WIDTH * HEIGHT` pixels.
pub struct RgbFrame(Vec<Rgb>);

impl View for RgbFrame {
    type V = Seq<Rgb>;

    closed spec fn view(&self) -> Seq<Rgb> {
        self.0@
    }
}

impl RgbFrame {
    #[verifier::type_invariant]
    spec fn frame_wf(&self) -> bool {
        self.0@.len() == WIDTH * HEIGHT
    }

    pub fn new() -> (r: Self)
        ensures
            r@ == Seq::new((WIDTH * HEIGHT) as nat, |i: int| Rgb(0, 0, 0)),
    {
        let mut v: Vec<Rgb> = Vec::new();
        let mut i: usize = 0;
        while i < WIDTH * HEIGHT
            invariant
                i <= WIDTH * HEIGHT,
                v@ == Seq::new(i as nat, |j: int| Rgb(0, 0, 0)),
            decreases WIDTH * HEIGHT - i,
        {
            v.push(Rgb::new());
            i = i + 1;
            assert(v@ =~= Seq::new(i as nat, |j: int| Rgb(0, 0, 0)));
        }
        RgbFrame(v)
    }

    /// Writes 8 pixels of row `line` starting at pixel `tile_x * 8`.
    pub fn write_chunk(&mut self, line: usize, tile_x: usize, chunk: [Rgb; 8])
        requires
            line * WIDTH + tile_x * 8 + 8 <= WIDTH * HEIGHT,
        ensures
            final(self)@.len() == WIDTH * HEIGHT,
            forall|i: int|
                0 <= i < WIDTH * HEIGHT ==> #[trigger] final(self)@[i] == if line * WIDTH + tile_x * 8 <= i < line
                    * WIDTH + tile_x * 8 + 8 {
                    chunk@[i - (line * WIDTH + tile_x * 8)]
                } else {
                    old(self)@[i]
                },
        no_unwind
    {
        proof {
            use_type_invariant(&*self);
        }
        let start = line * WIDTH + tile_x * 8;
        let mut k: usize = 0;
        while k < 8
            invariant
                0 <= k <= 8,
                start == line * WIDTH + tile_x * 8,
                start + 8 <= WIDTH * HEIGHT,
                self.0@.len() == WIDTH * HEIGHT,
                old(self).0@.len() == WIDTH * HEIGHT,
                forall|i: int|
                    0 <= i < self.0@.len() ==> #[trigger] self.0@[i] == if start <= i < start + k {
                        chunk@[i - start]
                    } else {
                        old(self).0@[i]
                    },
            decreases 8 - k,
        {
            self.0[start + k] = chunk[k];
            k = k + 1;
        }
    }

    /// The picture as RGBA bytes, fully opaque.
    pub fn to_rgb_frame(&self) -> (r: Vec<u8>)
        ensures
            r@ == rgba_bytes(self@),
            r@.len() == 4 * WIDTH * HEIGHT,
    {
        proof {
            use_type_invariant(self);
            lemma_rgba_len(self@);
        }
        let mut out: Vec<u8> = Vec::new();
        let mut i: usize = 0;
        while i < self.0.len()
            invariant
                i <= self.0@.len(),
                out@ == rgba_bytes(self.0@.take(i as int)),
            decreases self.0@.len() - i,
        {
            let rgb = self.0[i];
            out.push(rgb.0);
            out.push(rgb.1);
            out.push(rgb.2);
            out.push(0xff);
            assert(self.0@.take(i + 1).drop_last() =~= self.0@.take(i as int));
            i = i + 1;
        }
        assert(self.0@.take(i as int) =~= self.0@);
        out
    }
}

/// Pixels as RGBA bytes, each fully opaque.
pub open spec fn rgba_bytes(px: Seq<Rgb>) -> Seq<u8>
    decreases px.len(),
{
    if px.len() == 0 {
        Seq::empty()
    } else {
        let c = px.last();
        rgba_bytes(px.drop_last()) + seq![c.0, c.1, c.2, 0xffu8]
    }
}

/// Four bytes per pixel.
proof fn lemma_rgba_len(px: Seq<Rgb>)
    ensures
        rgba_bytes(px).len() == 4 * px.len(),
    decreases px.len(),
{
    if px.len() > 0 {
        lemma_rgba_len(px.drop_last());
    }
}

/// The picture processing unit's registers and memories.
pub struct Ppu {
    // Registers the CPU sees
    pub ppu_ctrl: u8,
    pub ppu_mask: u8,
    pub ppu_status: u8,
    pub oam_addr: u8,
    // Internal registers
    pub write_toggle: bool,
    pub t_reg: VramAddr,
    pub v_reg: VramAddr,
    pub x_fine_reg: u8,
    pub ppudata_read_buffer: u8,
    // Memories
    pub palette_ram: PaletteRam,
    pub oam: Oam,
}

pub struct PpuView {
    pub ctrl: u8,
    pub mask: u8,
    pub status: u8,
    pub oam_addr: u8,
    pub write_toggle: bool,
    pub t: u16,
    pub v: u16,
    pub x_fine: u8,
    pub read_buffer: u8,
    pub palette: PaletteView,
    pub oam: OamView,
}

impl View for Ppu {
    type V = PpuView;

    open spec fn view(&self) -> PpuView {
        PpuView {
            ctrl: self.ppu_ctrl,
            mask: self.ppu_mask,
            status: self.ppu_status,
            oam_addr: self.oam_addr,
            write_toggle: self.write_toggle,
            t: self.t_reg.0,
            v: self.v_reg.0,
            x_fine: self.x_fine_reg,
            read_buffer: self.ppudata_read_buffer,
            palette: self.palette_ram@,
            oam: self.oam@,
        }
    }
}

/// A PPU bus read: pattern tables and name tables from the cartridge,
/// palette RAM from 0x3f00, all mirrored every 16 kB.
pub open spec fn ppu_load(p: PpuView, m: CartridgeView, addr: u16) -> Result<u8, Fault> {
    let a = addr & 0x3fff;
    if a < 0x3f00 {
        Cartridge::ppu_get_spec(m, a as usize)
    } else if a < 0x4000 {
        Ok(palette_get(p.palette, (a & 0x001f) as usize))
    } else {
        Ok(0)
    }
}

/// A PPU bus write, mapped as `ppu_load` maps reads.
pub open spec fn ppu_store(p: PpuView, m: CartridgeView, addr: u16, val: u8) -> Result<(PpuView, CartridgeView), Fault> {
    let a = addr & 0x3fff;
    if a < 0x3f00 {
        match Cartridge::ppu_set_spec(m, a as usize, val) {
            Ok(m1) => Ok((p, m1)),
            Err(e) => Err(e),
        }
    } else if a < 0x4000 {
        Ok((PpuView { palette: palette_set(p.palette, (a & 0x001f) as usize, val), ..p }, m))
    } else {
        Ok((p, m))
    }
}

/// The VRAM address after a PPUDATA access: down a row of tiles (32) or
/// across one (1), by PPUCTRL.
pub open spec fn v_increment(p: PpuView) -> PpuView {
    PpuView { v: p.v.wrapping_add(if p.ctrl & VRAM_INCR == VRAM_INCR { 32 } else { 1 }), ..p }
}

/// An OAMDATA write: the byte goes to OAM at OAMADDR, which moves on.
pub open spec fn write_oam_spec(p: PpuView, val: u8) -> PpuView {
    PpuView { oam: oam_write(p.oam, p.oam_addr as usize, val), oam_addr: p.oam_addr.wrapping_add(1), ..p }
}

/// What a CPU write of `val` to PPU register `addr` (0 to 7) does.
pub open spec fn set_reg_spec(p: PpuView, m: CartridgeView, addr: usize, val: u8) -> Result<(PpuView, CartridgeView), Fault> {
    if addr == 0 {
        // PPUCTRL, whose low bits also select the name table in t
        Ok((PpuView { ctrl: val, t: (p.t & !0b0001100_00000000u16) | (((val as u16) & 0b11) << 10u16), ..p }, m))
    } else if addr == 1 {
        Ok((PpuView { mask: val, ..p }, m))
    } else if addr == 2 {
        Ok((p, m))
    } else if addr == 3 {
        Ok((PpuView { oam_addr: val, ..p }, m))
    } else if addr == 4 {
        Ok((write_oam_spec(p, val), m))
    } else if addr == 5 {
        // PPUSCROLL: X then Y
        if !p.write_toggle {
            Ok((PpuView { t: set_x_spec(p.t, val as u16), x_fine: 0b0111 & val, write_toggle: true, ..p }, m))
        } else {
            Ok((PpuView { t: set_y_spec(p.t, val as u16), write_toggle: false, ..p }, m))
        }
    } else if addr == 6 {
        // PPUADDR: high byte (six bits) then low byte, which also loads v
        if !p.write_toggle {
            Ok((PpuView { t: (p.t & !0xff00u16) | (((val & 0b00111111) as u16) << 8u16), write_toggle: true, ..p }, m))
        } else {
            let t = (p.t & !0x00ffu16) | (val as u16);
            Ok((PpuView { t: t, v: t, write_toggle: false, ..p }, m))
        }
    } else {
        // PPUDATA
        match ppu_store(p, m, p.v, val) {
            Ok((p1, m1)) => Ok((v_increment(p1), m1)),
            Err(e) => Err(e),
        }
    }
}

/// What a CPU read of PPU register `addr` (0 to 7) gives and does.
pub open spec fn get_reg_spec(p: PpuView, m: CartridgeView, addr: usize) -> Result<(PpuView, u8), Fault> {
    if addr == 2 {
        // PPUSTATUS; the read resets the write toggle
        Ok((PpuView { write_toggle: false, ..p }, p.status))
    } else if addr == 4 {
        Ok((p, oam_read(p.oam, p.oam_addr as usize)))
    } else if addr == 7 {
        // PPUDATA reads are buffered: the previous read's byte comes back
        match ppu_load(p, m, p.v) {
            Ok(val) => Ok((v_increment(PpuView { read_buffer: val, ..p }), p.read_buffer)),
            Err(e) => Err(e),
        }
    } else {
        Ok((p, 0))
    }
}

impl Ppu {
    pub fn new() -> (r: Self)
        ensures
            r@.ctrl == 0 && r@.mask == 0 && r@.status == 0 && r@.oam_addr == 0,
            !r@.write_toggle,
            r@.t == 0 && r@.v == 0 && r@.x_fine == 0 && r@.read_buffer == 0,
            r@.palette.transparent == seq![0u8, 0, 0, 0],
            r@.palette.colours == Seq::new(12, |i: int| (0u8, 0u8)),
            r@.oam.secondary == Seq::<(oam::Sprite, usize)>::empty(),
            r@.oam.primary == Seq::new(
                64,
                |i: int| oam::Sprite { y_pos: 0, tile_index: 0, attributes: 0, x_pos: 0 },
            ),
    {
        Self {
            ppu_ctrl: 0,
            ppu_mask: 0,
            ppu_status: 0,
            oam_addr: 0,
            t_reg: VramAddr(0),
            v_reg: VramAddr(0),
            x_fine_reg: 0,
            write_toggle: false,
            ppudata_read_buffer: 0,
            oam: Oam::new(),
            palette_ram: PaletteRam::new(),
        }
    }

    fn mmu_load(&self, mapper: &mut Cartridge, addr: u16) -> (r: Result<u8, Fault>)
        ensures
            final(mapper)@ == old(mapper)@,
            r == ppu_load(self@, old(mapper)@, addr),
    {
        let addr = addr & 0x3fff;
        if addr < 0x3f00 {
            mapper.ppu_get(addr as usize)
        } else if addr < 0x4000 {
            Ok(self.palette_ram.get((addr & 0x001f) as usize))
        } else {
            Ok(0)
        }
    }

    fn mmu_store(&mut self, mapper: &mut Cartridge, addr: u16, val: u8) -> (r: Result<(), Fault>)
        ensures
            ppu_store(old(self)@, old(mapper)@, addr, val) == match r {
                Ok(_) => Ok((final(self)@, final(mapper)@)),
                Err(e) => Err(e),
            },
    {
        let addr = addr & 0x3fff;
        if addr < 0x3f00 {
            mapper.ppu_set(addr as usize, val)
        } else if addr < 0x4000 {
            self.palette_ram.set((addr & 0x001f) as usize, val);
            Ok(())
        } else {
            Ok(())
        }
    }

    fn v_addr_increment(&mut self)
        ensures
            final(self)@ == v_increment(old(self)@),
    {
        let vram_incr_flag = self.ppu_ctrl & VRAM_INCR == VRAM_INCR;
        self.v_reg = VramAddr(self.v_reg.0.wrapping_add(if vram_incr_flag { 32 } else { 1 }));
    }

    fn read_status(&mut self) -> (r: u8)
        ensures
            final(self)@ == (PpuView { write_toggle: false, ..old(self)@ }),
            r == old(self)@.status,
    {
        self.write_toggle = false;
        self.ppu_status
    }

    /// A CPU write to PPU register `addr`.
    pub fn set_reg(&mut self, mapper: &mut Cartridge, addr: usize, val: u8) -> (r: Result<(), Fault>)
        requires
            addr < 8,
        ensures
            set_reg_spec(old(self)@, old(mapper)@, addr, val) == match r {
                Ok(_) => Ok((final(self)@, final(mapper)@)),
                Err(e) => Err(e),
            },
    {
        let write_toggle = self.write_toggle;
        if addr == 0 {
            // PPUCTRL
            self.ppu_ctrl = val;
            let mut t = self.t_reg.0;
            t &= !(0b0001100_00000000u16);  // Clear nametable bits
            t |= (val as u16 & 0b00000011) << 10u16;  // Set the new nametable bits
            self.t_reg = VramAddr(t);
        } else if addr == 1 {
            // PPUMASK
            self.ppu_mask = val;
        } else if addr == 2 {
            // PPUSTATUS
        } else if addr == 3 {
            // OAMADDR
            self.oam_addr = val;
        } else if addr == 4 {
            // OAMDATA
            self.write_oam(val);
        } else if addr == 5 {
            // PPUSCROLL
            let t = self.t_reg;
            self.t_reg = if !write_toggle {
                let t = t.set_x(val as u16);
                let x_fine = 0b0111 & val;
                self.x_fine_reg = x_fine;
                t
            } else {
                t.set_y(val as u16)
            };
            self.write_toggle = !write_toggle;
        } else if addr == 6 {
            // PPUADDR
            let mut t = self.t_reg.0;
            if !write_toggle {
                t &= !0xff00u16;  // Clear MSB byte
                t |= ((val & 0b00111111) as u16) << 8u16;  // Set MSB bytes but clear bits above bit 13
                self.t_reg = VramAddr(t);
            } else {
                t &= !0x00ffu16;
                t |= val as u16;
                self.t_reg = VramAddr(t);
                self.v_reg = VramAddr(t);
            };
            self.write_toggle = !write_toggle;
        } else {
            // PPUDATA
            let v = self.v_reg.0;
            self.mmu_store(mapper, v, val)?;
            self.v_addr_increment();
        }
        Ok(())
    }

    /// A CPU read of PPU register `addr`.
    pub fn get_reg(&mut self, mapper: &mut Cartridge, addr: usize) -> (r: Result<u8, Fault>)
        requires
            addr < 8,
        ensures
            final(mapper)@ == old(mapper)@,
            get_reg_spec(old(self)@, old(mapper)@, addr) == match r {
                Ok(v) => Ok((final(self)@, v)),
                Err(e) => Err(e),
            },
    {
        if addr == 2 {
            // PPUSTATUS
            Ok(self.read_status())
        } else if addr == 4 {
            // OAMDATA
            Ok(self.read_oam())
        } else if addr == 7 {
            // PPUDATA
            let val = self.mmu_load(mapper, self.v_reg.0)?;
            let read_buffer_val = self.ppudata_read_buffer;
            self.ppudata_read_buffer = val;
            self.v_addr_increment();
            Ok(read_buffer_val)
        } else {
            // PPUCTRL, PPUMASK, OAMADDR, PPUSCROLL, PPUADDR are write only
            Ok(0)
        }
    }

    /// Whether the PPU asks for a non-maskable interrupt: in vertical blank
    /// with NMI enabled.
    pub fn nmi_request(&self) -> (r: bool)
        ensures
            r == (self.ppu_status & VBLANK == VBLANK && self.ppu_ctrl & NMI_EN == NMI_EN),
    {
        let vblank = self.ppu_status & VBLANK == VBLANK;
        let nmi_enable = self.ppu_ctrl & NMI_EN == NMI_EN;
        vblank && nmi_enable
    }

    fn read_oam(&self) -> (r: u8)
        ensures
            r == oam_read(self@.oam, self@.oam_addr as usize),
    {
        self.oam.read(self.oam_addr as usize)
    }

    /// Writes a byte to OAM at OAMADDR and moves OAMADDR on.
    pub fn write_oam(&mut self, val: u8)
        ensures
            final(self)@ == write_oam_spec(old(self)@, val),
    {
        let oam_addr = self.oam_addr;
        self.oam.write(oam_addr as usize, val);
        self.oam_addr = oam_addr.wrapping_add(1);
    }
}


/// The 2-bit palette number of the 16x16 pixel area that tile (`course_x`,
/// `course_y`) of name table `nt_sel` lies in, from its attribute byte.
pub open spec fn palette_lookup_spec(p: PpuView, m: CartridgeView, course_x: u16, course_y: u16, nt_sel: u16) -> Result<usize, Fault> {
    match ppu_load(p, m, (course_x >> 2u16) | ((course_y >> 2u16) << 3u16) | (nt_sel << 10u16) | 0x23c0) {
        Err(e) => Err(e),
        Ok(at) => Ok(
            (if course_x & 0b10 == 0 && course_y & 0b10 == 0 {
                at & 0b00000011
            } else if course_x & 0b10 == 0 {
                (at & 0b00110000) >> 4u8
            } else if course_y & 0b10 == 0 {
                (at & 0b00001100) >> 2u8
            } else {
                (at & 0b11000000) >> 6u8
            }) as usize,
        ),
    }
}

/// The background colour of pattern bit `bit` of the two bit planes.
pub open spec fn bg_pixel(pal: PaletteView, palette: usize, pattern_0: u8, pattern_1: u8, bit: int) -> Result<Colour, Fault> {
    let c0 = pattern_0 & (1u8 << (bit as u8)) != 0;
    let c1 = pattern_1 & (1u8 << (bit as u8)) != 0;
    rgb_lookup_spec(pal, palette as int, (if c1 { 2int } else { 0int }) + (if c0 { 1int } else { 0int }), false)
}

/// The chunk's pixels from pattern bit `bit` on: bit `b` is pixel `7 - b`.
pub open spec fn bg_pixels_from(
    pal: PaletteView,
    palette: usize,
    pattern_0: u8,
    pattern_1: u8,
    bit: int,
    acc: Seq<Colour>,
) -> Result<Seq<Colour>, Fault>
    decreases 8 - bit,
{
    if bit >= 8 {
        Ok(acc)
    } else {
        match bg_pixel(pal, palette, pattern_0, pattern_1, bit) {
            Err(e) => Err(e),
            Ok(c) => bg_pixels_from(pal, palette, pattern_0, pattern_1, bit + 1, acc.update(7 - bit, c)),
        }
    }
}

/// The eight background pixels of the tile that the VRAM address points at:
/// its name table byte selects the pattern, fine Y the pattern row, and the
/// attribute table the palette.
pub open spec fn render_chunk_spec(p: PpuView, m: CartridgeView) -> Result<Seq<Colour>, Fault> {
    let v = p.v;
    let course_x = v & 0b11111;
    let course_y = (v >> 5u16) & 0b11111;
    let nt_sel = (v >> 10u16) & 0b11;
    let fine_y = (v >> 12u16) & 0b111;
    match ppu_load(p, m, (v & 0x0fff) | 0x2000) {
        Err(e) => Err(e),
        Ok(nt_byte) => {
            let nt = nt_byte as u16;
            match palette_lookup_spec(p, m, course_x, course_y, nt_sel) {
                Err(e) => Err(e),
                Ok(palette) => {
                    let half: u16 = if p.ctrl & BACKGROUND_SEL == BACKGROUND_SEL { 1 } else { 0 };
                    match ppu_load(p, m, (half << 12u16) | (nt << 4u16) | 0x0 | fine_y) {
                        Err(e) => Err(e),
                        Ok(pattern_0) => match ppu_load(p, m, (half << 12u16) | (nt << 4u16) | 0x8 | fine_y) {
                            Err(e) => Err(e),
                            Ok(pattern_1) => bg_pixels_from(
                                p.palette,
                                palette,
                                pattern_0,
                                pattern_1,
                                0,
                                Seq::new(8, |i: int| Colour::Transparent),
                            ),
                        },
                    }
                },
            }
        },
    }
}

/// One pixel of the picture from a background and a sprite pixel, with the
/// status register after it: a sprite pixel wins unless it lies behind an
/// opaque background; sprite 0 over an opaque background sets the hit flag;
/// where both are transparent the backdrop shows.
pub open spec fn combine_pixel(status: u8, backdrop: Rgb, bg: Colour, sp: Colour) -> Result<(u8, Rgb), Fault> {
    match bg {
        Colour::Transparent => match sp {
            Colour::Transparent => Ok((status, backdrop)),
            Colour::Sprite(s, _, _) => Ok((status, s)),
            Colour::Rgb(s) => Ok((status, s)),
        },
        Colour::Rgb(b) => match sp {
            Colour::Sprite(s, sprite0, priority) => Ok(
                (if sprite0 { status | SPRITE_0_HIT } else { status }, if !priority { s } else { b }),
            ),
            Colour::Rgb(s) => Ok((status, s)),
            Colour::Transparent => Ok((status, b)),
        },
        Colour::Sprite(_, _, _) => Err(Fault::UnexpectedColour),
    }
}

/// The picture pixels from index `i` on, and the status after them.
pub open spec fn combine_from(status: u8, backdrop: Rgb, bg: Seq<Colour>, sp: Seq<Colour>, i: int, acc: Seq<Rgb>) -> Result<
    (u8, Seq<Rgb>),
    Fault,
>
    decreases 8 - i,
{
    if i >= 8 {
        Ok((status, acc))
    } else {
        match combine_pixel(status, backdrop, bg[i], sp[i]) {
            Err(e) => Err(e),
            Ok((st, c)) => combine_from(st, backdrop, bg, sp, i + 1, acc.update(i, c)),
        }
    }
}

/// Combines a background chunk and a sprite chunk into picture pixels.
pub open spec fn combine_layers_spec(p: PpuView, bg: Seq<Colour>, sp: Seq<Colour>) -> Result<(PpuView, Seq<Rgb>), Fault> {
    match background_colour_spec(p.palette) {
        Err(e) => Err(e),
        Ok(backdrop) => match combine_from(p.status, backdrop, bg, sp, 0, Seq::new(8, |i: int| Rgb(0, 0, 0))) {
            Err(e) => Err(e),
            Ok((st, px)) => Ok((PpuView { status: st, ..p }, px)),
        },
    }
}

/// Whether background or sprite rendering is on.
pub open spec fn rendering(p: PpuView) -> bool {
    p.mask & (RENDER_BACKGROUND | RENDER_SPRITES) != 0
}

impl Ppu {
    /// The eight background pixels starting at the fine X scroll.
    fn apply_fine_x_scroll(&self, full_chunk: &[Colour; 16]) -> (r: Result<[Colour; 8], Fault>)
        ensures
            self.x_fine_reg > 8 ==> r == Err::<[Colour; 8], Fault>(Fault::OutOfBounds),
            self.x_fine_reg <= 8 ==> r is Ok && r->Ok_0@ == full_chunk@.subrange(
                self.x_fine_reg as int,
                self.x_fine_reg + 8,
            ),
    {
        let fine_x = self.x_fine_reg as usize;
        if fine_x > 8 {
            return Err(Fault::OutOfBounds);
        }
        let mut output_chunk = [Colour::new(); 8];
        let mut i: usize = 0;
        while i < 8
            invariant
                0 <= i <= 8,
                fine_x <= 8,
                fine_x == self.x_fine_reg,
                forall|j: int| 0 <= j < i ==> output_chunk@[j] == full_chunk@[fine_x + j],
            decreases 8 - i,
        {
            output_chunk[i] = full_chunk[fine_x + i];
            i = i + 1;
        }
        assert(output_chunk@ =~= full_chunk@.subrange(fine_x as int, fine_x + 8));
        Ok(output_chunk)
    }

    fn v_hor_inc(&mut self)
        ensures
            final(self)@ == (PpuView { v: x_course_increment_spec(old(self)@.v), ..old(self)@ }),
    {
        self.v_reg = self.v_reg.x_course_increment();
    }

    fn v_ver_inc(&mut self)
        ensures
            final(self)@ == (PpuView { v: y_increment_spec(old(self)@.v), ..old(self)@ }),
    {
        self.v_reg = self.v_reg.y_increment();
    }

    fn reset_v_hor(&mut self)
        ensures
            final(self)@ == (PpuView { v: merge_bits(old(self)@.v, old(self)@.t, HORIZONTAL_BITS), ..old(self)@ }),
    {
        let v = self.v_reg;
        let t = self.t_reg;
        self.v_reg = v.set_x_raw(t);
    }

    fn reset_v_ver(&mut self)
        ensures
            final(self)@ == (PpuView { v: merge_bits(old(self)@.v, old(self)@.t, VERTICAL_BITS), ..old(self)@ }),
    {
        let v = self.v_reg;
        let t = self.t_reg;
        self.v_reg = v.set_y_raw(t);
    }

    fn is_rendering(&self) -> (r: bool)
        ensures
            r == rendering(self@),
    {
        self.ppu_mask & (RENDER_BACKGROUND | RENDER_SPRITES) != 0
    }

    fn palette_lookup(&self, mapper: &mut Cartridge, course_x: u16, course_y: u16, nt_sel: u16) -> (r: Result<usize, Fault>)
        ensures
            final(mapper)@ == old(mapper)@,
            r == palette_lookup_spec(self@, old(mapper)@, course_x, course_y, nt_sel),
            r is Ok ==> r->Ok_0 < 4,
    {
        let at = self.mmu_load(mapper, (course_x >> 2u16) | ((course_y >> 2u16) << 3u16) | (nt_sel << 10u16) | 0x23c0)?;
        assert(at & 0b00000011 < 4 && (at & 0b00110000) >> 4u8 < 4 && (at & 0b00001100) >> 2u8 < 4 && (at
            & 0b11000000) >> 6u8 < 4) by (bit_vector);
        Ok(
            (if course_x & 0b10 == 0 && course_y & 0b10 == 0 {
                at & 0b00000011
            } else if course_x & 0b10 == 0 {
                (at & 0b00110000) >> 4u8
            } else if course_y & 0b10 == 0 {
                (at & 0b00001100) >> 2u8
            } else {
                (at & 0b11000000) >> 6u8
            }) as usize,
        )
    }

    /// Fetches and colours the background tile the VRAM address points at.
    fn render_line_chunk(&self, mapper: &mut Cartridge) -> (r: Result<[Colour; 8], Fault>)
        ensures
            final(mapper)@ == old(mapper)@,
            match render_chunk_spec(self@, old(mapper)@) {
                Ok(px) => r is Ok && r->Ok_0@ == px,
                Err(e) => r == Err::<[Colour; 8], Fault>(e),
            },
    {
        let v = self.v_reg.0;
        let mut colour = [Colour::new(); 8];
        let course_x = v & 0b11111;
        let course_y = (v >> 5u16) & 0b11111;
        let nt_sel = (v >> 10u16) & 0b11;
        let fine_y = (v >> 12u16) & 0b111;

        // Fetch nametable byte
        let nt = self.mmu_load(mapper, (v & 0x0fff) | 0x2000)? as u16;

        // Fetch palette from attribute byte
        let palette = self.palette_lookup(mapper, course_x, course_y, nt_sel)?;

        // Fetch pattern bytes
        let half: u16 = if self.ppu_ctrl & BACKGROUND_SEL == BACKGROUND_SEL { 1 } else { 0 };
        let pattern_0 = self.mmu_load(mapper, (half << 12u16) | (nt << 4u16) | 0x0 | fine_y)?;
        let pattern_1 = self.mmu_load(mapper, (half << 12u16) | (nt << 4u16) | 0x8 | fine_y)?;

        // Fetch pixel colours; bit 0 is the rightmost pixel
        assert(colour@ =~= Seq::new(8, |i: int| Colour::Transparent));
        assert(render_chunk_spec(self@, old(mapper)@) == bg_pixels_from(
            self@.palette,
            palette,
            pattern_0,
            pattern_1,
            0,
            Seq::new(8, |i: int| Colour::Transparent),
        ));
        let mut bit: usize = 0;
        while bit < 8
            invariant
                0 <= bit <= 8,
                palette < 4,
                mapper@ == old(mapper)@,
                render_chunk_spec(self@, old(mapper)@) == bg_pixels_from(
                    self@.palette,
                    palette,
                    pattern_0,
                    pattern_1,
                    0,
                    Seq::new(8, |i: int| Colour::Transparent),
                ),
                bg_pixels_from(self@.palette, palette, pattern_0, pattern_1, 0, Seq::new(8, |i: int| Colour::Transparent))
                    == bg_pixels_from(self@.palette, palette, pattern_0, pattern_1, bit as int, colour@),
            decreases 8 - bit,
        {
            let mask = 1u8 << (bit as u8);
            let col_sel_0 = pattern_0 & mask != 0;
            let col_sel_1 = pattern_1 & mask != 0;
            let colour_id: usize = (if col_sel_1 { 2 } else { 0 }) + (if col_sel_0 { 1 } else { 0 });
            let bit_colour = self.palette_ram.rgb_lookup(palette, colour_id, false)?;
            colour[7 - bit] = bit_colour;
            bit = bit + 1;
        }
        Ok(colour)
    }

    /// Lays the sprite chunk over the background chunk, setting the sprite 0
    /// hit flag where an opaque sprite 0 pixel meets an opaque background.
    fn combine_drawn_layers(&mut self, background: [Colour; 8], sprite: [Colour; 8]) -> (r: Result<[Rgb; 8], Fault>)
        ensures
            match combine_layers_spec(old(self)@, background@, sprite@) {
                Ok((p, px)) => r is Ok && r->Ok_0@ == px && final(self)@ == p,
                Err(e) => r == Err::<[Rgb; 8], Fault>(e),
            },
    {
        let backdrop = self.palette_ram.background_colour()?;
        let mut drawn_chunk = [Rgb::new(); 8];
        assert(drawn_chunk@ =~= Seq::new(8, |i: int| Rgb(0, 0, 0)));
        let mut i: usize = 0;
        while i < 8
            invariant
                0 <= i <= 8,
                self@ == (PpuView { status: self@.status, ..old(self)@ }),
                background_colour_spec(old(self)@.palette) == Ok::<Rgb, Fault>(backdrop),
                combine_from(old(self)@.status, backdrop, background@, sprite@, 0, Seq::new(8, |i: int| Rgb(0, 0, 0)))
                    == combine_from(self@.status, backdrop, background@, sprite@, i as int, drawn_chunk@),
            decreases 8 - i,
        {
            let bg = background[i];
            let sp = sprite[i];
            drawn_chunk[i] = match bg {
                Colour::Transparent => match sp {
                    Colour::Transparent => backdrop,
                    Colour::Sprite(sprite_rgb, _, _) => sprite_rgb,
                    Colour::Rgb(sprite_rgb) => sprite_rgb,
                },
                Colour::Rgb(background_rgb) => match sp {
                    Colour::Sprite(sprite_rgb, sprite0, priority) => {
                        if sprite0 {
                            self.ppu_status = self.ppu_status | SPRITE_0_HIT;
                        }
                        if !priority {
                            sprite_rgb
                        } else {
                            background_rgb
                        }
                    },
                    Colour::Rgb(sprite_rgb) => sprite_rgb,
                    Colour::Transparent => background_rgb,
                },
                Colour::Sprite(_, _, _) => {
                    return Err(Fault::UnexpectedColour);
                },
            };
            i = i + 1;
        }
        Ok(drawn_chunk)
    }

    /// The sprite chunk at tile `x_course` of scanline `line`.
    fn draw_oam(&self, mapper: &mut Cartridge, x_course: usize, line: usize) -> (r: Result<[Colour; 8], Fault>)
        ensures
            final(mapper)@ == old(mapper)@,
            match oam::draw_chunk_spec(
                self@.oam,
                old(mapper)@,
                self@.palette,
                self@.ctrl & SPRITE_TILE_SEL == SPRITE_TILE_SEL,
                line,
                x_course,
            ) {
                Ok(px) => r is Ok && r->Ok_0@ == px,
                Err(e) => r == Err::<[Colour; 8], Fault>(e),
            },
    {
        let tile_sel = self.ppu_ctrl & SPRITE_TILE_SEL == SPRITE_TILE_SEL;
        self.oam.draw_chunk(mapper, &self.palette_ram, tile_sel, line, x_course)
    }
}

/// Where the rendering loop resumes.
#[derive(Clone, Copy, Debug, PartialEq, Eq, Structural)]
pub enum Phase {
    /// Dot 0 of a line: idle, skipped on line 0 of even frames.
    LineStart,
    /// Dot 1: clear flags on the pre-render line, evaluate sprites.
    LineSetup,
    /// The start of a tile: draw the previous chunk, fetch the next.
    Tile,
    /// After a tile's fetch: move the VRAM address on.
    TileFetched,
    /// The end of a tile.
    TileEnd,
    /// Dot 257: reload the horizontal scroll.
    LineTail,
    /// Dot 280: on the pre-render line, start reloading the vertical scroll.
    VerticalResetStart,
    /// Dots 280 to 304 on the pre-render line: reload the vertical scroll.
    VerticalReset,
    /// Dot 305 to 320.
    PrefetchWait,
    /// Dot 321: fetch the first tile of the next line.
    Prefetch,
    /// After the first prefetch.
    Prefetch1,
    /// Fetch the second tile of the next line.
    Prefetch2,
    /// After the second prefetch.
    Prefetch3,
    /// Dots 337 to 340.
    LineEnd,
    /// The line is done.
    NextLine,
    /// Line 241: vertical blank starts.
    VBlank,
    /// The picture is complete.
    Frame,
    /// The frame is done.
    FrameEnd,
}

/// What the rendering loop asks of its driver before the next step.
#[derive(Clone, Copy, Debug, PartialEq, Eq, Structural)]
pub enum PpuAction {
    /// Step again at once.
    Continue,
    /// Wait this many PPU cycles.
    Wait(u64),
    /// Wait this many PPU cycles, letting real time catch up.
    Catchup(u64),
    /// Show the completed frame, then wait one cycle, pausing if asked.
    FrameDone,
}

/// The rendering loop's own state between steps: its position in the frame,
/// the tiles fetched ahead, the sprite chunks of this line and of the next,
/// and the picture being drawn.
pub struct RenderState {
    phase: Phase,
    line: i32,
    tile: usize,
    reset_count: u8,
    odd_frame: bool,
    full_chunk: [Colour; 16],
    current_sprite_line: [Colour; 256],
    next_sprite_line: [Colour; 256],
    frame: RgbFrame,
}

pub struct RenderView {
    pub phase: Phase,
    pub line: i32,
    pub tile: usize,
    pub reset_count: u8,
    pub odd_frame: bool,
    pub full_chunk: Seq<Colour>,
    pub current: Seq<Colour>,
    pub next: Seq<Colour>,
    pub frame: Seq<Rgb>,
}

impl View for RenderState {
    type V = RenderView;

    closed spec fn view(&self) -> RenderView {
        RenderView {
            phase: self.phase,
            line: self.line,
            tile: self.tile,
            reset_count: self.reset_count,
            odd_frame: self.odd_frame,
            full_chunk: self.full_chunk@,
            current: self.current_sprite_line@,
            next: self.next_sprite_line@,
            frame: self.frame@,
        }
    }
}

/// The positions the rendering loop can be at.
pub open spec fn render_wf(r: RenderView) -> bool {
    &&& -1 <= r.line <= 240
    &&& (r.line <= 239 || r.phase == Phase::NextLine || r.phase == Phase::VBlank || r.phase == Phase::Frame
        || r.phase == Phase::FrameEnd)
    &&& (r.phase == Phase::TileFetched || r.phase == Phase::TileEnd ==> r.tile < 32)
    &&& r.tile <= 32
    &&& r.reset_count <= 25
    &&& r.full_chunk.len() == 16
    &&& r.current.len() == 256
    &&& r.next.len() == 256
    &&& r.frame.len() == WIDTH * HEIGHT
}

/// `s` with `chunk` written over it from index `at`.
pub open spec fn splice<A>(s: Seq<A>, at: int, chunk: Seq<A>) -> Seq<A> {
    Seq::new(s.len(), |i: int| if at <= i < at + chunk.len() { chunk[i - at] } else { s[i] })
}

/// Draws the chunk of tile `tile` on line `line`: the background from the
/// two fetched tiles at the fine X scroll, the sprites drawn for this line
/// at the previous line, and the sprites of this line kept for the next.
pub open spec fn draw_tile_spec(r: RenderView, p: PpuView, m: CartridgeView) -> Result<(RenderView, PpuView), Fault> {
    if p.x_fine > 8 {
        Err(Fault::OutOfBounds)
    } else {
        let drawn_bg = r.full_chunk.subrange(p.x_fine as int, p.x_fine + 8);
        match oam::draw_chunk_spec(p.oam, m, p.palette, p.ctrl & SPRITE_TILE_SEL == SPRITE_TILE_SEL, r.line as usize, r.tile) {
            Err(e) => Err(e),
            Ok(sprites) => match combine_layers_spec(p, drawn_bg, r.current.subrange(r.tile * 8, r.tile * 8 + 8)) {
                Err(e) => Err(e),
                Ok((p1, drawn)) => Ok(
                    (
                        RenderView {
                            next: splice(r.next, r.tile * 8, sprites),
                            frame: splice(r.frame, r.line * WIDTH + r.tile * 8, drawn),
                            ..r
                        },
                        p1,
                    ),
                ),
            },
        }
    }
}

/// Dot 1 of a line: the pre-render line clears vertical blank and sprite 0
/// hit; secondary OAM is cleared and, on visible lines, filled with the
/// sprites of the line.
pub open spec fn line_setup_spec(r: RenderView, p: PpuView) -> Result<(RenderView, PpuView, PpuAction), Fault> {
    let p1 = if r.line == -1 {
        PpuView { status: (p.status & !VBLANK) & !SPRITE_0_HIT, ..p }
    } else {
        p
    };
    let p2 = PpuView { oam: oam::OamView { secondary: Seq::empty(), ..p1.oam }, ..p1 };
    let r1 = RenderView { phase: Phase::Tile, tile: 0, ..r };
    if r.line != -1 {
        match oam::populate_from(p2.oam.primary, p2.oam.secondary, r.line as usize as u8, 0) {
            Err(e) => Err(e),
            Ok((sec, _)) => Ok((r1, PpuView { oam: oam::OamView { secondary: sec, ..p2.oam }, ..p2 }, PpuAction::Continue)),
        }
    } else {
        Ok((r1, p2, PpuAction::Continue))
    }

}

/// One step of the rendering loop, from its phase up to its next wait.
pub open spec fn run_step_spec(r: RenderView, p: PpuView, m: CartridgeView) -> Result<(RenderView, PpuView, PpuAction), Fault> {
    match r.phase {
        Phase::LineStart => if r.odd_frame || r.line != 0 {
            Ok((RenderView { phase: Phase::LineSetup, ..r }, p, PpuAction::Wait(1)))
        } else {
            Ok((RenderView { phase: Phase::LineSetup, ..r }, p, PpuAction::Continue))
        },
        Phase::LineSetup => line_setup_spec(r, p),
        Phase::Tile => if r.tile >= 32 {
            Ok((RenderView { phase: Phase::LineTail, ..r }, p, PpuAction::Continue))
        } else if rendering(p) {
            let drawn = if r.line != -1 && r.tile != 31 {
                draw_tile_spec(r, p, m)
            } else {
                Ok((r, p))
            };
            match drawn {
                Err(e) => Err(e),
                Ok((r1, p1)) => match render_chunk_spec(p1, m) {
                    Err(e) => Err(e),
                    Ok(chunk) => Ok(
                        (
                            RenderView {
                                phase: Phase::TileFetched,
                                full_chunk: r1.full_chunk.subrange(8, 16) + chunk,
                                ..r1
                            },
                            p1,
                            PpuAction::Wait(7),
                        ),
                    ),
                },
            }
        } else {
            Ok((RenderView { phase: Phase::TileEnd, ..r }, p, PpuAction::Wait(8)))
        },
        Phase::TileFetched => {
            let v1 = if r.tile == 31 { y_increment_spec(p.v) } else { p.v };
            Ok((RenderView { phase: Phase::TileEnd, ..r }, PpuView { v: x_course_increment_spec(v1), ..p }, PpuAction::Wait(1)))
        },
        Phase::TileEnd => Ok(
            (RenderView { phase: Phase::Tile, tile: (r.tile + 1) as usize, current: r.next, ..r }, p, PpuAction::Continue),
        ),
        Phase::LineTail => {
            let p1 = if rendering(p) { PpuView { v: merge_bits(p.v, p.t, HORIZONTAL_BITS), ..p } } else { p };
            Ok((RenderView { phase: Phase::VerticalResetStart, ..r }, p1, PpuAction::Wait(23)))
        },
        Phase::VerticalResetStart => if r.line == -1 && rendering(p) {
            Ok((RenderView { phase: Phase::VerticalReset, reset_count: 0, ..r }, p, PpuAction::Continue))
        } else {
            Ok((RenderView { phase: Phase::PrefetchWait, ..r }, p, PpuAction::Wait(25)))
        },
        Phase::VerticalReset => if r.reset_count >= 25 {
            Ok((RenderView { phase: Phase::PrefetchWait, ..r }, p, PpuAction::Continue))
        } else {
            Ok(
                (
                    RenderView { reset_count: (r.reset_count + 1) as u8, ..r },
                    PpuView { v: merge_bits(p.v, p.t, VERTICAL_BITS), ..p },
                    PpuAction::Wait(1),
                ),
            )
        },
        Phase::PrefetchWait => Ok((RenderView { phase: Phase::Prefetch, ..r }, p, PpuAction::Wait(16))),
        Phase::Prefetch => if rendering(p) {
            match render_chunk_spec(p, m) {
                Err(e) => Err(e),
                Ok(chunk) => Ok(
                    (
                        RenderView { phase: Phase::Prefetch1, full_chunk: chunk + r.full_chunk.subrange(8, 16), ..r },
                        p,
                        PpuAction::Wait(7),
                    ),
                ),
            }
        } else {
            Ok((RenderView { phase: Phase::LineEnd, ..r }, p, PpuAction::Wait(16)))
        },
        Phase::Prefetch1 => Ok(
            (RenderView { phase: Phase::Prefetch2, ..r }, PpuView { v: x_course_increment_spec(p.v), ..p }, PpuAction::Wait(1)),
        ),
        Phase::Prefetch2 => match render_chunk_spec(p, m) {
            Err(e) => Err(e),
            Ok(chunk) => Ok(
                (
                    RenderView { phase: Phase::Prefetch3, full_chunk: r.full_chunk.subrange(0, 8) + chunk, ..r },
                    p,
                    PpuAction::Wait(7),
                ),
            ),
        },
        Phase::Prefetch3 => Ok(
            (RenderView { phase: Phase::LineEnd, ..r }, PpuView { v: x_course_increment_spec(p.v), ..p }, PpuAction::Wait(1)),
        ),
        Phase::LineEnd => Ok((RenderView { phase: Phase::NextLine, ..r }, p, PpuAction::Wait(4))),
        Phase::NextLine => if r.line + 1 < 240 {
            Ok((RenderView { phase: Phase::LineStart, line: (r.line + 1) as i32, ..r }, p, PpuAction::Continue))
        } else {
            Ok((RenderView { phase: Phase::VBlank, line: 240, ..r }, p, PpuAction::Wait(341u64)))
        },
        Phase::VBlank => Ok(
            (RenderView { phase: Phase::Frame, ..r }, PpuView { status: p.status | VBLANK, ..p }, PpuAction::Catchup(6819u64)),
        ),
        Phase::Frame => Ok((RenderView { phase: Phase::FrameEnd, ..r }, p, PpuAction::FrameDone)),
        Phase::FrameEnd => Ok(
            (RenderView { phase: Phase::LineStart, line: -1i32, odd_frame: !r.odd_frame, ..r }, p, PpuAction::Continue),
        ),
    }
}

impl RenderState {
    #[verifier::type_invariant]
    spec fn inv(&self) -> bool {
        render_wf(self@)
    }

    /// The loop before its first step: the pre-render line of an odd frame,
    /// nothing fetched, a black picture.
    pub fn new() -> (r: Self)
        ensures
            r@.phase == Phase::LineStart,
            r@.line == -1,
            r@.tile == 0,
            r@.reset_count == 0,
            r@.odd_frame,
            r@.full_chunk == Seq::new(16, |i: int| Colour::Transparent),
            r@.current == Seq::new(256, |i: int| Colour::Transparent),
            r@.next == Seq::new(256, |i: int| Colour::Transparent),
            r@.frame == Seq::new((WIDTH * HEIGHT) as nat, |i: int| Rgb(0, 0, 0)),
    {
        let r = RenderState {
            phase: Phase::LineStart,
            line: -1,
            tile: 0,
            reset_count: 0,
            odd_frame: true,
            full_chunk: [Colour::new(); 16],
            current_sprite_line: [Colour::new(); 256],
            next_sprite_line: [Colour::new(); 256],
            frame: RgbFrame::new(),
        };
        assert(r@.full_chunk =~= Seq::new(16, |i: int| Colour::Transparent));
        assert(r@.current =~= Seq::new(256, |i: int| Colour::Transparent));
        assert(r@.next =~= Seq::new(256, |i: int| Colour::Transparent));
        r
    }

    /// The picture drawn so far.
    pub fn frame(&self) -> (r: &RgbFrame)
        ensures
            r@ == self@.frame,
            r@.len() == WIDTH * HEIGHT,
    {
        proof {
            use_type_invariant(self);
        }
        &self.frame
    }

    pub fn phase(&self) -> (r: Phase)
        ensures
            r == self@.phase,
    {
        self.phase
    }
}

fn write_chunk8(arr: &mut [Colour; 256], at: usize, chunk: [Colour; 8])
    requires
        at + 8 <= 256,
    ensures
        final(arr)@ == splice(old(arr)@, at as int, chunk@),
    no_unwind
{
    let mut i: usize = 0;
    while i < 8
        invariant
            0 <= i <= 8,
            at + 8 <= 256,
            arr@ == splice(old(arr)@, at as int, chunk@.take(i as int)),
        decreases 8 - i,
    {
        arr[at + i] = chunk[i];
        i = i + 1;
        assert(arr@ =~= splice(old(arr)@, at as int, chunk@.take(i as int)));
    }
    assert(chunk@.take(8) =~= chunk@);
}

fn read_chunk8(arr: &[Colour; 256], at: usize) -> (r: [Colour; 8])
    requires
        at + 8 <= 256,
    ensures
        r@ == arr@.subrange(at as int, at + 8),
{
    let mut out = [Colour::new(); 8];
    let mut i: usize = 0;
    while i < 8
        invariant
            0 <= i <= 8,
            at + 8 <= 256,
            forall|j: int| 0 <= j < i ==> out@[j] == arr@[at + j],
        decreases 8 - i,
    {
        out[i] = arr[at + i];
        i = i + 1;
    }
    assert(out@ =~= arr@.subrange(at as int, at + 8));
    out
}

/// Moves the second fetched tile into the first slot and puts `chunk` in
/// the second.
fn shift_in(full: &mut [Colour; 16], chunk: [Colour; 8])
    ensures
        final(full)@ == old(full)@.subrange(8, 16) + chunk@,
    no_unwind
{
    let mut i: usize = 0;
    while i < 8
        invariant
            0 <= i <= 8,
            forall|j: int| 0 <= j < i ==> full@[j] == old(full)@[j + 8],
            forall|j: int| i <= j < 16 ==> full@[j] == old(full)@[j],
        decreases 8 - i,
    {
        full[i] = full[i + 8];
        i = i + 1;
    }
    let mut k: usize = 0;
    while k < 8
        invariant
            0 <= k <= 8,
            forall|j: int| 0 <= j < 8 ==> full@[j] == old(full)@[j + 8],
            forall|j: int| 0 <= j < k ==> full@[j + 8] == chunk@[j],
        decreases 8 - k,
    {
        full[k + 8] = chunk[k];
        k = k + 1;
    }
    assert(full@ =~= old(full)@.subrange(8, 16) + chunk@);
}

/// Writes `chunk` into one half of the fetched tiles.
fn set_half(full: &mut [Colour; 16], second: bool, chunk: [Colour; 8])
    ensures
        !second ==> final(full)@ == chunk@ + old(full)@.subrange(8, 16),
        second ==> final(full)@ == old(full)@.subrange(0, 8) + chunk@,
    no_unwind
{
    let base: usize = if second { 8 } else { 0 };
    let mut k: usize = 0;
    while k < 8
        invariant
            0 <= k <= 8,
            base == if second { 8usize } else { 0usize },
            forall|j: int| 0 <= j < k ==> full@[base + j] == chunk@[j],
            forall|j: int| 0 <= j < 16 && !(base <= j < base + k) ==> full@[j] == old(full)@[j],
        decreases 8 - k,
    {
        full[base + k] = chunk[k];
        k = k + 1;
    }
    assert(!second ==> full@ =~= chunk@ + old(full)@.subrange(8, 16));
    assert(second ==> full@ =~= old(full)@.subrange(0, 8) + chunk@);
}

impl Ppu {
    fn line_setup(&mut self, state: &mut RenderState) -> (r: Result<PpuAction, Fault>)
        requires
            old(state)@.phase == Phase::LineSetup,
        ensures
            match line_setup_spec(old(state)@, old(self)@) {
                Ok((rs, p, a)) => r == Ok::<PpuAction, Fault>(a) && final(state)@ == rs && final(self)@ == p,
                Err(e) => r == Err::<PpuAction, Fault>(e),
            },
    {
        proof {
            use_type_invariant(&*state);
        }
        if state.line == -1 {
            self.ppu_status = self.ppu_status & !VBLANK;
            self.ppu_status = self.ppu_status & !SPRITE_0_HIT;
        }
        self.oam.clear_secondary_oam();
        if state.line != -1 {
            self.oam.populate_secondary_oam(state.line as usize)?;
        }
        state.tile = 0;
        state.phase = Phase::Tile;
        Ok(PpuAction::Continue)
    }

    fn tile_step(&mut self, state: &mut RenderState, mapper: &mut Cartridge) -> (r: Result<PpuAction, Fault>)
        requires
            old(state)@.phase == Phase::Tile,
        ensures
            final(mapper)@ == old(mapper)@,
            match run_step_spec(old(state)@, old(self)@, old(mapper)@) {
                Ok((rs, p, a)) => r == Ok::<PpuAction, Fault>(a) && final(state)@ == rs && final(self)@ == p,
                Err(e) => r == Err::<PpuAction, Fault>(e),
            },
    {
        proof {
            use_type_invariant(&*state);
        }
        if state.tile >= 32 {
            state.phase = Phase::LineTail;
            return Ok(PpuAction::Continue);
        }
        if self.is_rendering() {
            let tile = state.tile;
            if state.line != -1 && tile != 31 {
                // Render the chunk unless on the pre-render line
                let line = state.line as usize;
                let drawn_bg = self.apply_fine_x_scroll(&state.full_chunk)?;
                let sprites = self.draw_oam(mapper, tile, line)?;
                let current = read_chunk8(&state.current_sprite_line, tile * 8);
                let drawn_chunk = self.combine_drawn_layers(drawn_bg, current)?;
                write_chunk8(&mut state.next_sprite_line, tile * 8, sprites);
                state.frame.write_chunk(line, tile, drawn_chunk);
                assert(state.frame@ =~= splice(old(state)@.frame, line * WIDTH + tile * 8, drawn_chunk@));
            }
            // Fetch the next chunk
            let chunk = self.render_line_chunk(mapper)?;
            shift_in(&mut state.full_chunk, chunk);
            state.phase = Phase::TileFetched;
            Ok(PpuAction::Wait(7))
        } else {
            state.phase = Phase::TileEnd;
            Ok(PpuAction::Wait(8))
        }
    }

    /// Runs the rendering loop from where `state` left it up to its next
    /// wait, and says what to wait for.
    pub fn run_step(&mut self, state: &mut RenderState, mapper: &mut Cartridge) -> (r: Result<PpuAction, Fault>)
        ensures
            final(mapper)@ == old(mapper)@,
            match run_step_spec(old(state)@, old(self)@, old(mapper)@) {
                Ok((rs, p, a)) => r == Ok::<PpuAction, Fault>(a) && final(state)@ == rs && final(self)@ == p,
                Err(e) => r == Err::<PpuAction, Fault>(e),
            },
    {
        proof {
            use_type_invariant(&*state);
        }
        match state.phase {
            Phase::LineStart => {
                state.phase = Phase::LineSetup;
                if state.odd_frame || state.line != 0 {
                    Ok(PpuAction::Wait(1))
                } else {
                    Ok(PpuAction::Continue)
                }
            },
            Phase::LineSetup => self.line_setup(state),
            Phase::Tile => self.tile_step(state, mapper),
            Phase::TileFetched => {
                if state.tile == 31 {
                    self.v_ver_inc();
                }
                self.v_hor_inc();
                state.phase = Phase::TileEnd;
                Ok(PpuAction::Wait(1))
            },
            Phase::TileEnd => {
                state.current_sprite_line = state.next_sprite_line;
                state.phase = Phase::Tile;
                state.tile = state.tile + 1;
                Ok(PpuAction::Continue)
            },
            Phase::LineTail => {
                if self.is_rendering() {
                    self.reset_v_hor();
                }
                state.phase = Phase::VerticalResetStart;
                Ok(PpuAction::Wait(23))
            },
            Phase::VerticalResetStart => {
                if state.line == -1 && self.is_rendering() {
                    state.reset_count = 0;
                    state.phase = Phase::VerticalReset;
                    Ok(PpuAction::Continue)
                } else {
                    state.phase = Phase::PrefetchWait;
                    Ok(PpuAction::Wait(25))
                }
            },
            Phase::VerticalReset => {
                if state.reset_count >= 25 {
                    state.phase = Phase::PrefetchWait;
                    Ok(PpuAction::Continue)
                } else {
                    self.reset_v_ver();
                    state.reset_count = state.reset_count + 1;
                    Ok(PpuAction::Wait(1))
                }
            },
            Phase::PrefetchWait => {
                state.phase = Phase::Prefetch;
                Ok(PpuAction::Wait(16))
            },
            Phase::Prefetch => {
                if self.is_rendering() {
                    let chunk = self.render_line_chunk(mapper)?;
                    set_half(&mut state.full_chunk, false, chunk);
                    state.phase = Phase::Prefetch1;
                    Ok(PpuAction::Wait(7))
                } else {
                    state.phase = Phase::LineEnd;
                    Ok(PpuAction::Wait(16))
                }
            },
            Phase::Prefetch1 => {
                self.v_hor_inc();
                state.phase = Phase::Prefetch2;
                Ok(PpuAction::Wait(1))
            },
            Phase::Prefetch2 => {
                let chunk = self.render_line_chunk(mapper)?;
                set_half(&mut state.full_chunk, true, chunk);
                state.phase = Phase::Prefetch3;
                Ok(PpuAction::Wait(7))
            },
            Phase::Prefetch3 => {
                self.v_hor_inc();
                state.phase = Phase::LineEnd;
                Ok(PpuAction::Wait(1))
            },
            Phase::LineEnd => {
                state.phase = Phase::NextLine;
                Ok(PpuAction::Wait(4))
            },
            Phase::NextLine => {
                if state.line + 1 < 240 {
                    state.line = state.line + 1;
                    state.phase = Phase::LineStart;
                    Ok(PpuAction::Continue)
                } else {
                    state.phase = Phase::VBlank;
                    state.line = 240;
                    // The post-render line, then vertical blank
                    Ok(PpuAction::Wait(340 + 1))
                }
            },
            Phase::VBlank => {
                self.ppu_status = self.ppu_status | VBLANK;
                state.phase = Phase::Frame;
                Ok(PpuAction::Catchup(340 + 341 * 19))
            },
            Phase::Frame => {
                state.phase = Phase::FrameEnd;
                Ok(PpuAction::FrameDone)
            },
            Phase::FrameEnd => {
                state.odd_frame = !state.odd_frame;
                state.line = -1;
                state.phase = Phase::LineStart;
                Ok(PpuAction::Continue)
            },
        }
    }
}

// Properties of the scroll registers.

/// Fine Y: bits 12-14 of a VRAM address.
pub open spec fn fine_y(v: u16) -> u16 {
    (v >> 12u16) & 0b111
}

/// Coarse Y: bits 5-9 of a VRAM address.
pub open spec fn coarse_y(v: u16) -> u16 {
    (v >> 5u16) & 0b11111
}

/// The vertical name table bit: bit 11 of a VRAM address.
pub open spec fn nametable_y(v: u16) -> u16 {
    (v >> 11u16) & 1
}

/// Moving one tile right advances the horizontal tile position by one,
/// wrapping from 63 to 0 across both name tables, and keeps every other bit.
pub proof fn lemma_x_course_increment(v: u16)
    ensures
        horizontal_tile(x_course_increment_spec(v)) == (horizontal_tile(v) + 1) % 64,
        x_course_increment_spec(v) & !HORIZONTAL_BITS == v & !HORIZONTAL_BITS,
{
    let r = x_course_increment_spec(v);
    assert(horizontal_tile(r) == (horizontal_tile(v) + 1) % 64 && r & !HORIZONTAL_BITS == v & !HORIZONTAL_BITS)
        by (bit_vector)
        requires
            r == (v & !HORIZONTAL_BITS) | ((((((v & 0b11111) | ((v & 0b100_00000000) >> 5u16)) + 1) as u16) << 3u16
                & 0b11111000) >> 3u16) | (((((((v & 0b11111) | ((v & 0b100_00000000) >> 5u16)) + 1) as u16) << 3u16)
                & 0b00000001_00000000) << 2u16),
    ;
}

/// Moving one row down keeps the horizontal bits and bit 15. Below fine Y 7
/// only fine Y goes up; at fine Y 7 it wraps to 0 and coarse Y goes up,
/// except that coarse Y 29 wraps to 0 and switches the vertical name table,
/// and coarse Y 31 wraps to 0 and keeps it.
pub proof fn lemma_y_increment(v: u16)
    ensures
        y_increment_spec(v) & HORIZONTAL_BITS == v & HORIZONTAL_BITS,
        y_increment_spec(v) & 0x8000 == v & 0x8000,
        fine_y(v) < 7 ==> fine_y(y_increment_spec(v)) == fine_y(v) + 1 && coarse_y(y_increment_spec(v)) == coarse_y(v)
            && nametable_y(y_increment_spec(v)) == nametable_y(v),
        fine_y(v) == 7 && coarse_y(v) != 29 && coarse_y(v) != 31 ==> fine_y(y_increment_spec(v)) == 0 && coarse_y(
            y_increment_spec(v),
        ) == coarse_y(v) + 1 && nametable_y(y_increment_spec(v)) == nametable_y(v),
        fine_y(v) == 7 && coarse_y(v) == 29 ==> fine_y(y_increment_spec(v)) == 0 && coarse_y(y_increment_spec(v)) == 0
            && nametable_y(y_increment_spec(v)) == 1 - nametable_y(v),
        fine_y(v) == 7 && coarse_y(v) == 31 ==> fine_y(y_increment_spec(v)) == 0 && coarse_y(y_increment_spec(v)) == 0
            && nametable_y(y_increment_spec(v)) == nametable_y(v),
{
    let r = y_increment_spec(v);
    if (v & 0x7000) != 0x7000 {
        assert(r & HORIZONTAL_BITS == v & HORIZONTAL_BITS && r & 0x8000 == v & 0x8000 && fine_y(v) < 7 && fine_y(r)
            == fine_y(v) + 1 && coarse_y(r) == coarse_y(v) && nametable_y(r) == nametable_y(v)) by (bit_vector)
            requires
                (v & 0x7000) != 0x7000,
                r == (v + 0x1000) as u16,
        ;
    } else {
        let v1 = v & !0x7000u16;
        let y = (v1 & 0x03E0) >> 5u16;
        if y == 29 {
            assert(r & HORIZONTAL_BITS == v & HORIZONTAL_BITS && r & 0x8000 == v & 0x8000 && fine_y(v) == 7 && coarse_y(v)
                == 29 && fine_y(r) == 0 && coarse_y(r) == 0 && nametable_y(r) == 1 - nametable_y(v)) by (bit_vector)
                requires
                    (v & 0x7000) == 0x7000,
                    v1 == v & !0x7000u16,
                    y == (v1 & 0x03E0) >> 5u16,
                    y == 29,
                    r == ((v1 ^ 0x0800) & !0x03E0u16) | (0u16 << 5u16),
            ;
        } else if y == 31 {
            assert(r & HORIZONTAL_BITS == v & HORIZONTAL_BITS && r & 0x8000 == v & 0x8000 && fine_y(v) == 7 && coarse_y(v)
                == 31 && fine_y(r) == 0 && coarse_y(r) == 0 && nametable_y(r) == nametable_y(v)) by (bit_vector)
                requires
                    (v & 0x7000) == 0x7000,
                    v1 == v & !0x7000u16,
                    y == (v1 & 0x03E0) >> 5u16,
                    y == 31,
                    r == (v1 & !0x03E0u16) | (0u16 << 5u16),
            ;
        } else {
            assert(r & HORIZONTAL_BITS == v & HORIZONTAL_BITS && r & 0x8000 == v & 0x8000 && fine_y(v) == 7 && coarse_y(v)
                != 29 && coarse_y(v) != 31 && fine_y(r) == 0 && coarse_y(r) == coarse_y(v) + 1 && nametable_y(r)
                == nametable_y(v)) by (bit_vector)
                requires
                    (v & 0x7000) == 0x7000,
                    v1 == v & !0x7000u16,
                    y == (v1 & 0x03E0) >> 5u16,
                    y != 29,
                    y != 31,
                    r == (v1 & !0x03E0u16) | (((y + 1) as u16) << 5u16),
            ;
        }
    }
}

/// Copying the horizontal or vertical bits from `t` gives `t`'s bits under
/// the mask and keeps `v`'s elsewhere.
pub proof fn lemma_merge_bits(v: u16, t: u16, mask: u16)
    ensures
        merge_bits(v, t, mask) & mask == t & mask,
        merge_bits(v, t, mask) & !mask == v & !mask,
{
    assert(((v & !mask) | (t & mask)) & mask == t & mask && ((v & !mask) | (t & mask)) & !mask == v & !mask)
        by (bit_vector);
}

/// Two PPUADDR writes starting with the write toggle clear load the VRAM
/// address: six bits of the first byte above the second byte. The toggle
/// is clear again after them.
pub proof fn lemma_ppuaddr_writes(p: PpuView, m: CartridgeView, hi: u8, lo: u8)
    requires
        !p.write_toggle,
    ensures
        match set_reg_spec(p, m, 6, hi) {
            Ok((p1, m1)) => match set_reg_spec(p1, m1, 6, lo) {
                Ok((p2, m2)) => p2.v == (((hi & 0x3f) as u16) << 8u16) | (lo as u16) && p2.t == p2.v && !p2.write_toggle
                    && m2 == m,
                Err(_) => false,
            },
            Err(_) => false,
        },
{
    let t0 = p.t;
    let t1 = (t0 & !0xff00u16) | (((hi & 0b00111111) as u16) << 8u16);
    let t2 = (t1 & !0x00ffu16) | (lo as u16);
    assert(t2 == (((hi & 0x3f) as u16) << 8u16) | (lo as u16)) by (bit_vector)
        requires
            t1 == (t0 & !0xff00u16) | (((hi & 0b00111111) as u16) << 8u16),
            t2 == (t1 & !0x00ffu16) | (lo as u16),
    ;
}

/// Two PPUSCROLL writes starting with the write toggle clear set the fine X
/// scroll from the first byte and the horizontal and vertical bits of `t`
/// from both; reading PPUSTATUS clears the toggle again.
pub proof fn lemma_ppuscroll_writes(p: PpuView, m: CartridgeView, x: u8, y: u8)
    requires
        !p.write_toggle,
    ensures
        match set_reg_spec(p, m, 5, x) {
            Ok((p1, m1)) => match set_reg_spec(p1, m1, 5, y) {
                Ok((p2, m2)) => {
                    &&& p2.x_fine == x & 0b111
                    &&& p2.t == set_y_spec(set_x_spec(p.t, x as u16), y as u16)
                    &&& !p2.write_toggle
                    &&& m2 == m
                    &&& p2.v == p.v
                },
                Err(_) => false,
            },
            Err(_) => false,
        },
        match set_reg_spec(p, m, 5, x) {
            Ok((p1, m1)) => match get_reg_spec(p1, m1, 2) {
                Ok((p2, _)) => !p2.write_toggle,
                Err(_) => false,
            },
            Err(_) => false,
        },
{
    assert(0b0111 & x == x & 0b111) by (bit_vector);
}

/// A PPUDATA read gives the byte the previous PPUDATA read fetched, keeps
/// the byte at the VRAM address for the next read, and moves the address on.
pub proof fn lemma_ppudata_read_buffered(p: PpuView, m: CartridgeView)
    ensures
        match get_reg_spec(p, m, 7) {
            Ok((p1, val)) => val == p.read_buffer && ppu_load(p, m, p.v) == Ok::<u8, Fault>(p1.read_buffer) && p1.v
                == v_increment(p).v,
            Err(e) => ppu_load(p, m, p.v) == Err::<u8, Fault>(e),
        },
{
}

/// Palette memory at 0x3f00 to 0x3fff of the PPU bus reads back what was
/// stored: the last write to the same palette byte (its 32 bytes repeat
/// through the range, and each palette's entry 0 is shared by its
/// background and sprite halves).
pub proof fn lemma_palette_bus_read_after_write(p: PpuView, m: CartridgeView, a: u16, b: u16, val: u8)
    requires
        p.palette.transparent.len() == 4,
        p.palette.colours.len() == 12,
        0x3f00 <= a & 0x3fff,
        0x3f00 <= b & 0x3fff,
        same_palette_cell((a & 0x001f) as usize, (b & 0x001f) as usize),
    ensures
        match ppu_store(p, m, a, val) {
            Ok((p1, m1)) => ppu_load(p1, m1, b) == Ok::<u8, Fault>(val) && m1 == m,
            Err(_) => false,
        },
{
    assert((a & 0x3fff) < 0x4000 && (b & 0x3fff) < 0x4000 && ((a & 0x3fff) & 0x001f) == a & 0x001f && ((b & 0x3fff)
        & 0x001f) == b & 0x001f) by (bit_vector);
    lemma_palette_read_after_write(p.palette, (a & 0x001f) as usize, (b & 0x001f) as usize, val);
}

/// The background palette of a tile: the attribute byte of its 32x32 pixel
/// block sits at 0x23c0 + 0x400 * name table + 8 * (coarse Y / 4) + coarse
/// X / 4, and each 16x16 quadrant takes two of its bits: top left bits 0-1,
/// top right bits 2-3, bottom left bits 4-5, bottom right bits 6-7.
pub proof fn lemma_attribute_quadrant(p: PpuView, m: CartridgeView, course_x: u16, course_y: u16, nt_sel: u16)
    requires
        course_x < 32,
        course_y < 32,
        nt_sel < 4,
    ensures
        ({
            let addr = (0x23c0 + 0x400 * nt_sel + 8 * (course_y / 4) + course_x / 4) as u16;
            let q = 2 * ((course_y / 2) % 2) + (course_x / 2) % 2;
            match ppu_load(p, m, addr) {
                Ok(at) => palette_lookup_spec(p, m, course_x, course_y, nt_sel) == Ok::<usize, Fault>(
                    ((at as int / pow2_of(2 * q)) % 4) as usize,
                ),
                Err(e) => palette_lookup_spec(p, m, course_x, course_y, nt_sel) == Err::<usize, Fault>(e),
            }
        }),
{
    let addr = (course_x >> 2u16) | ((course_y >> 2u16) << 3u16) | (nt_sel << 10u16) | 0x23c0;
    assert(addr == (0x23c0 + 0x400 * nt_sel + 8 * (course_y / 4) + course_x / 4) as u16 && ((course_x & 0b10 == 0) == ((
    course_x / 2) % 2 == 0)) && ((course_y & 0b10 == 0) == ((course_y / 2) % 2 == 0))) by (bit_vector)
        requires
            addr == (course_x >> 2u16) | ((course_y >> 2u16) << 3u16) | (nt_sel << 10u16) | 0x23c0,
            course_x < 32,
            course_y < 32,
            nt_sel < 4,
    ;
    match ppu_load(p, m, addr) {
        Ok(at) => {
            assert(at & 0b00000011 == at % 4 && (at & 0b00001100) >> 2u8 == (at / 4) % 4 && (at & 0b00110000) >> 4u8
                == (at / 16) % 4 && (at & 0b11000000) >> 6u8 == (at / 64) % 4) by (bit_vector);
        },
        Err(_) => {},
    }
}

/// 2 to the power `n`, for the attribute bit positions 0, 2, 4 and 6.
pub open spec fn pow2_of(n: int) -> int {
    if n == 0 {
        1
    } else if n == 2 {
        4
    } else if n == 4 {
        16
    } else {
        64
    }
}
} // verus!
