use vstd::prelude::*;
use crate::system::Fault;

verus! {

/// A colour as red, green and blue intensities.
#[derive(Clone, Copy, Debug, PartialEq, Eq, Structural)]
pub struct Rgb(pub u8, pub u8, pub u8);

impl Rgb {
    pub fn new() -> (r: Self)
        ensures
            r == Rgb(0, 0, 0),
    {
        Rgb(0, 0, 0)
    }
}

/// A pixel of a layer: transparent, an opaque colour, or a sprite colour
/// that remembers whether it comes from sprite 0 and whether it lies behind
/// the background.
#[derive(Clone, Copy, Debug, PartialEq, Eq, Structural)]
pub enum Colour {
    Transparent,
    Rgb(Rgb),
    Sprite(Rgb, bool, bool),
}

impl Colour {
    pub fn new() -> (r: Self)
        ensures
            r == Colour::Transparent,
    {
        Colour::Transparent
    }

    pub fn unwrap_rgb(self) -> (r: Rgb)
        requires
            self is Rgb,
        ensures
            self == Colour::Rgb(r),
    {
        match self {
            Colour::Rgb(rgb) => rgb,
            Colour::Transparent => Rgb(0, 0, 0),
            Colour::Sprite(rgb, _, _) => rgb,
        }
    }

    /// The colour marked as coming from sprite 0.
    pub fn to_sprite0(self) -> (r: Self)
        ensures
            r == sprite0_spec(self),
    {
        match self {
            Colour::Transparent => Colour::Transparent,
            Colour::Rgb(rgb) => Colour::Sprite(rgb, true, false),
            Colour::Sprite(rgb, _, priority) => Colour::Sprite(rgb, true, priority),
        }
    }

    /// Layers `other` under `self`: `self` wins unless it is transparent.
    pub fn combine(self, other: Self) -> (r: Self)
        ensures
            r == combine_spec(self, other),
    {
        match self {
            Colour::Transparent => other,
            _ => self,
        }
    }
}

pub open spec fn sprite0_spec(c: Colour) -> Colour {
    match c {
        Colour::Transparent => Colour::Transparent,
        Colour::Rgb(rgb) => Colour::Sprite(rgb, true, false),
        Colour::Sprite(rgb, _, priority) => Colour::Sprite(rgb, true, priority),
    }
}

pub open spec fn combine_spec(top: Colour, bottom: Colour) -> Colour {
    if top is Transparent {
        bottom
    } else {
        top
    }
}

/// The system palette: the 64 colours a palette entry can select
/// (Digital Prime palette by FirebrandX).
pub open spec fn palette_table() -> Seq<Rgb> {
    seq![
        Rgb(0x69, 0x69, 0x69),
        Rgb(0x00, 0x14, 0x8f),
        Rgb(0x1e, 0x02, 0x9b),
        Rgb(0x3f, 0x00, 0x8a),
        Rgb(0x60, 0x00, 0x60),
        Rgb(0x66, 0x00, 0x17),
        Rgb(0x57, 0x0d, 0x00),
        Rgb(0x45, 0x1b, 0x00),
        Rgb(0x24, 0x34, 0x00),
        Rgb(0x00, 0x42, 0x00),
        Rgb(0x00, 0x45, 0x00),
        Rgb(0x00, 0x3c, 0x1f),
        Rgb(0x00, 0x31, 0x5c),
        Rgb(0x00, 0x00, 0x00),
        Rgb(0x00, 0x00, 0x00),
        Rgb(0x00, 0x00, 0x00),
        Rgb(0xaf, 0xaf, 0xaf),
        Rgb(0x0f, 0x51, 0xdd),
        Rgb(0x44, 0x2f, 0xf3),
        Rgb(0x72, 0x20, 0xe2),
        Rgb(0xa3, 0x19, 0xb3),
        Rgb(0xae, 0x1c, 0x51),
        Rgb(0xa4, 0x34, 0x00),
        Rgb(0x88, 0x4d, 0x00),
        Rgb(0x67, 0x6d, 0x00),
        Rgb(0x20, 0x80, 0x00),
        Rgb(0x00, 0x8b, 0x00),
        Rgb(0x00, 0x7f, 0x42),
        Rgb(0x00, 0x6c, 0x97),
        Rgb(0x01, 0x01, 0x01),
        Rgb(0x00, 0x00, 0x00),
        Rgb(0x00, 0x00, 0x00),
        Rgb(0xff, 0xff, 0xff),
        Rgb(0x65, 0xaa, 0xff),
        Rgb(0x8c, 0x96, 0xff),
        Rgb(0xb9, 0x83, 0xff),
        Rgb(0xdd, 0x6f, 0xff),
        Rgb(0xea, 0x6f, 0xbd),
        Rgb(0xeb, 0x84, 0x66),
        Rgb(0xdc, 0xa2, 0x1f),
        Rgb(0xba, 0xb4, 0x03),
        Rgb(0x7e, 0xcb, 0x07),
        Rgb(0x54, 0xd3, 0x3e),
        Rgb(0x3c, 0xd2, 0x84),
        Rgb(0x3e, 0xc7, 0xcc),
        Rgb(0x4b, 0x4b, 0x4b),
        Rgb(0x00, 0x00, 0x00),
        Rgb(0x00, 0x00, 0x00),
        Rgb(0xff, 0xff, 0xff),
        Rgb(0xbd, 0xe2, 0xff),
        Rgb(0xce, 0xcf, 0xff),
        Rgb(0xe6, 0xc2, 0xff),
        Rgb(0xf6, 0xbc, 0xff),
        Rgb(0xf9, 0xc2, 0xed),
        Rgb(0xfa, 0xcf, 0xc6),
        Rgb(0xf8, 0xde, 0xac),
        Rgb(0xee, 0xe9, 0xa1),
        Rgb(0xd0, 0xf5, 0x9f),
        Rgb(0xbb, 0xf5, 0xaf),
        Rgb(0xb3, 0xf5, 0xcd),
        Rgb(0xb9, 0xed, 0xf0),
        Rgb(0xb9, 0xb9, 0xb9),
        Rgb(0x00, 0x00, 0x00),
        Rgb(0x00, 0x00, 0x00)
    ]
}

/// The colour that palette entry value `val` selects; values past the table
/// select nothing.
pub open spec fn system_colour(val: u8) -> Result<Colour, Fault> {
    if val < 64 {
        Ok(Colour::Rgb(palette_table()[val as int]))
    } else {
        Err(Fault::OutOfBounds)
    }
}

fn system_colour_lookup(val: u8) -> (r: Result<Colour, Fault>)
    ensures
        r == system_colour(val),
{
    let table: [Rgb; 64] = [
        Rgb(0x69, 0x69, 0x69),
        Rgb(0x00, 0x14, 0x8f),
        Rgb(0x1e, 0x02, 0x9b),
        Rgb(0x3f, 0x00, 0x8a),
        Rgb(0x60, 0x00, 0x60),
        Rgb(0x66, 0x00, 0x17),
        Rgb(0x57, 0x0d, 0x00),
        Rgb(0x45, 0x1b, 0x00),
        Rgb(0x24, 0x34, 0x00),
        Rgb(0x00, 0x42, 0x00),
        Rgb(0x00, 0x45, 0x00),
        Rgb(0x00, 0x3c, 0x1f),
        Rgb(0x00, 0x31, 0x5c),
        Rgb(0x00, 0x00, 0x00),
        Rgb(0x00, 0x00, 0x00),
        Rgb(0x00, 0x00, 0x00),
        Rgb(0xaf, 0xaf, 0xaf),
        Rgb(0x0f, 0x51, 0xdd),
        Rgb(0x44, 0x2f, 0xf3),
        Rgb(0x72, 0x20, 0xe2),
        Rgb(0xa3, 0x19, 0xb3),
        Rgb(0xae, 0x1c, 0x51),
        Rgb(0xa4, 0x34, 0x00),
        Rgb(0x88, 0x4d, 0x00),
        Rgb(0x67, 0x6d, 0x00),
        Rgb(0x20, 0x80, 0x00),
        Rgb(0x00, 0x8b, 0x00),
        Rgb(0x00, 0x7f, 0x42),
        Rgb(0x00, 0x6c, 0x97),
        Rgb(0x01, 0x01, 0x01),
        Rgb(0x00, 0x00, 0x00),
        Rgb(0x00, 0x00, 0x00),
        Rgb(0xff, 0xff, 0xff),
        Rgb(0x65, 0xaa, 0xff),
        Rgb(0x8c, 0x96, 0xff),
        Rgb(0xb9, 0x83, 0xff),
        Rgb(0xdd, 0x6f, 0xff),
        Rgb(0xea, 0x6f, 0xbd),
        Rgb(0xeb, 0x84, 0x66),
        Rgb(0xdc, 0xa2, 0x1f),
        Rgb(0xba, 0xb4, 0x03),
        Rgb(0x7e, 0xcb, 0x07),
        Rgb(0x54, 0xd3, 0x3e),
        Rgb(0x3c, 0xd2, 0x84),
        Rgb(0x3e, 0xc7, 0xcc),
        Rgb(0x4b, 0x4b, 0x4b),
        Rgb(0x00, 0x00, 0x00),
        Rgb(0x00, 0x00, 0x00),
        Rgb(0xff, 0xff, 0xff),
        Rgb(0xbd, 0xe2, 0xff),
        Rgb(0xce, 0xcf, 0xff),
        Rgb(0xe6, 0xc2, 0xff),
        Rgb(0xf6, 0xbc, 0xff),
        Rgb(0xf9, 0xc2, 0xed),
        Rgb(0xfa, 0xcf, 0xc6),
        Rgb(0xf8, 0xde, 0xac),
        Rgb(0xee, 0xe9, 0xa1),
        Rgb(0xd0, 0xf5, 0x9f),
        Rgb(0xbb, 0xf5, 0xaf),
        Rgb(0xb3, 0xf5, 0xcd),
        Rgb(0xb9, 0xed, 0xf0),
        Rgb(0xb9, 0xb9, 0xb9),
        Rgb(0x00, 0x00, 0x00),
        Rgb(0x00, 0x00, 0x00)
    ];
    assert(table@ =~= palette_table());
    if val < 64 {
        Ok(Colour::Rgb(table[val as usize]))
    } else {
        Err(Fault::OutOfBounds)
    }
}

/// Palette RAM: four palettes of four entries. Entry 0 of each palette is
/// its transparent colour, shared by the background and sprite palettes;
/// entries 1 to 3 hold a background and a sprite colour each.
pub struct PaletteRam {
    pub transparent: [u8; 4],
    pub colours: [(u8, u8); 12],
}

pub struct PaletteView {
    pub transparent: Seq<u8>,
    pub colours: Seq<(u8, u8)>,
}

impl View for PaletteRam {
    type V = PaletteView;

    open spec fn view(&self) -> PaletteView {
        PaletteView { transparent: self.transparent@, colours: self.colours@ }
    }
}

/// Which palette the palette RAM address `loc` selects.
pub open spec fn palette_id(loc: usize) -> int {
    ((loc & 0b01100) >> 2usize) as int
}

/// Which entry of its palette the palette RAM address `loc` selects.
pub open spec fn colour_id(loc: usize) -> int {
    (loc & 0b00011) as int
}

/// Whether the palette RAM address `loc` lies in the sprite half.
pub open spec fn is_sprite(loc: usize) -> bool {
    loc & 0b10000 != 0
}

/// The value stored at palette RAM address `loc`.
pub open spec fn palette_get(p: PaletteView, loc: usize) -> u8 {
    if colour_id(loc) == 0 {
        p.transparent[palette_id(loc)]
    } else {
        let pair = p.colours[palette_id(loc) * 3 + colour_id(loc) - 1];
        if is_sprite(loc) {
            pair.1
        } else {
            pair.0
        }
    }
}

/// Palette RAM after storing `val` at address `loc`.
pub open spec fn palette_set(p: PaletteView, loc: usize, val: u8) -> PaletteView {
    if colour_id(loc) == 0 {
        PaletteView { transparent: p.transparent.update(palette_id(loc), val), ..p }
    } else {
        let i = palette_id(loc) * 3 + colour_id(loc) - 1;
        let pair = p.colours[i];
        PaletteView {
            colours: p.colours.update(i, if is_sprite(loc) { (pair.0, val) } else { (val, pair.1) }),
            ..p
        }
    }
}

/// The colour of entry `colour` of palette `palette`, for sprites or the
/// background; entry 0 is transparent.
pub open spec fn rgb_lookup_spec(p: PaletteView, palette: int, colour: int, sprite: bool) -> Result<Colour, Fault> {
    if colour == 0 {
        Ok(Colour::Transparent)
    } else {
        let pair = p.colours[palette * 3 + colour - 1];
        system_colour(if sprite { pair.1 } else { pair.0 })
    }
}

/// The backdrop: the colour of the transparent entry of palette 0.
pub open spec fn background_colour_spec(p: PaletteView) -> Result<Rgb, Fault> {
    match system_colour(p.transparent[0]) {
        Ok(c) => Ok(c->Rgb_0),
        Err(e) => Err(e),
    }
}

proof fn lemma_palette_index(loc: usize)
    ensures
        0 <= palette_id(loc) < 4,
        0 <= colour_id(loc) < 4,
{
    assert((loc & 0b01100) >> 2usize < 4 && loc & 0b00011 < 4) by (bit_vector);
}

/// Whether two palette RAM addresses name the same stored byte: the same
/// entry of the same palette, and for entries 1 to 3 the same half.
pub open spec fn same_palette_cell(a: usize, b: usize) -> bool {
    &&& palette_id(a) == palette_id(b)
    &&& colour_id(a) == colour_id(b)
    &&& (colour_id(a) == 0 || is_sprite(a) == is_sprite(b))
}

/// A read of palette RAM gives back what the last write to the same byte
/// stored, and a write leaves every other byte as it was.
pub proof fn lemma_palette_read_after_write(p: PaletteView, a: usize, b: usize, val: u8)
    requires
        p.transparent.len() == 4,
        p.colours.len() == 12,
    ensures
        palette_get(palette_set(p, a, val), a) == val,
        same_palette_cell(a, b) ==> palette_get(palette_set(p, a, val), b) == val,
        !same_palette_cell(a, b) ==> palette_get(palette_set(p, a, val), b) == palette_get(p, b),
{
    lemma_palette_index(a);
    lemma_palette_index(b);
}

/// The transparent entry of each palette is one byte seen from both halves:
/// addresses that differ only in the sprite bit and select entry 0 read the
/// same value.
pub proof fn lemma_palette_transparent_shared(p: PaletteView, a: usize)
    requires
        p.transparent.len() == 4,
        p.colours.len() == 12,
        colour_id(a) == 0,
    ensures
        palette_get(p, a) == palette_get(p, a ^ 0x10),
        same_palette_cell(a, a ^ 0x10),
{
    assert((a & 0b00011) == 0 ==> ((a ^ 0x10) & 0b00011) == 0 && ((a ^ 0x10) & 0b01100) >> 2usize == (a & 0b01100)
        >> 2usize) by (bit_vector);
}

impl PaletteRam {
    pub fn new() -> (r: Self)
        ensures
            r@.transparent == seq![0u8, 0, 0, 0],
            r@.colours == Seq::new(12, |i: int| (0u8, 0u8)),
    {
        let r = PaletteRam { transparent: [0; 4], colours: [(0, 0); 12] };
        assert(r@.transparent =~= seq![0u8, 0, 0, 0]);
        assert(r@.colours =~= Seq::new(12, |i: int| (0u8, 0u8)));
        r
    }

    pub fn set(&mut self, loc: usize, val: u8)
        ensures
            final(self)@ == palette_set(old(self)@, loc, val),
    {
        proof {
            lemma_palette_index(loc);
        }
        let colour_id = loc & 0b00011;
        let palette_id = (loc & 0b01100) >> 2usize;
        let is_sprite = loc & 0b10000 != 0;
        if colour_id == 0 {
            self.transparent[palette_id] = val;
        } else {
            let i = palette_id * 3 + colour_id - 1;
            let (bg_col, sprite_col) = self.colours[i];
            if is_sprite {
                self.colours[i] = (bg_col, val);
            } else {
                self.colours[i] = (val, sprite_col);
            }
        }
        assert(final(self)@.transparent =~= palette_set(old(self)@, loc, val).transparent);
        assert(final(self)@.colours =~= palette_set(old(self)@, loc, val).colours);
    }

    pub fn get(&self, loc: usize) -> (r: u8)
        ensures
            r == palette_get(self@, loc),
    {
        proof {
            lemma_palette_index(loc);
        }
        let colour_id = loc & 0b00011;
        let palette_id = (loc & 0b01100) >> 2usize;
        let is_sprite = loc & 0b10000 != 0;
        if colour_id == 0 {
            self.transparent[palette_id]
        } else {
            let (bg_col, sprite_col) = self.colours[palette_id * 3 + colour_id - 1];
            if is_sprite {
                sprite_col
            } else {
                bg_col
            }
        }
    }

    pub fn rgb_lookup(&self, palette_id: usize, colour_id: usize, is_sprite: bool) -> (r: Result<Colour, Fault>)
        requires
            palette_id < 4,
            colour_id < 4,
        ensures
            r == rgb_lookup_spec(self@, palette_id as int, colour_id as int, is_sprite),
    {
        if colour_id == 0 {
            Ok(Colour::Transparent)
        } else {
            let (bg_col, sprite_col) = self.colours[palette_id * 3 + colour_id - 1];
            system_colour_lookup(if is_sprite { sprite_col } else { bg_col })
        }
    }

    pub fn background_colour(&self) -> (r: Result<Rgb, Fault>)
        ensures
            r == background_colour_spec(self@),
    {
        let colour = system_colour_lookup(self.transparent[0])?;
        Ok(colour.unwrap_rgb())
    }
}

} // verus!
