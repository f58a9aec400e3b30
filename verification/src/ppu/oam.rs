use vstd::prelude::*;
use arrayvec::ArrayVec;
use crate::system::Fault;
use crate::mapper::{Cartridge, CartridgeView, Mapper};
use super::palette::{Colour, PaletteRam, PaletteView, rgb_lookup_spec, sprite0_spec, combine_spec};

verus! {

/// Sprite attribute: palette select, low bit.
pub const PALETTE_0: u8 = 1 << 0;
/// Sprite attribute: palette select, high bit.
pub const PALETTE_1: u8 = 1 << 1;
/// Sprite attribute: draw behind the background.
pub const PRIORITY: u8 = 1 << 5;
/// Sprite attribute: mirror left to right.
pub const FLIP_HORIZONTALLY: u8 = 1 << 6;
/// Sprite attribute: mirror top to bottom.
pub const FLIP_VERTICALLY: u8 = 1 << 7;
/// The attribute bits a sprite keeps.
pub const ATTRIBUTE_BITS: u8 = 0xe3;

/// One entry of object attribute memory.
#[derive(Clone, Copy, Debug, PartialEq, Eq, Structural)]
pub struct Sprite {
    pub y_pos: u8,
    pub tile_index: u8,
    pub attributes: u8,
    pub x_pos: u8,
}

#[verifier::external_type_specification]
#[verifier::external_body]
#[verifier::reject_recursive_types(T)]
pub struct ExArrayVec<T, const CAP: usize>(ArrayVec<T, CAP>);

/// The sprites, with their indices in primary OAM, that an `ArrayVec` of
/// secondary OAM holds, in order.
pub uninterp spec fn secondary_items(v: ArrayVec<(Sprite, usize), 8>) -> Seq<(Sprite, usize)>;

/// `ArrayVec::new`: an empty vector.
#[verifier::external_body]
fn secondary_new() -> (r: ArrayVec<(Sprite, usize), 8>)
    ensures
        secondary_items(r) == Seq::<(Sprite, usize)>::empty(),
{
    ArrayVec::new()
}

/// `ArrayVec::clear`: removes every item.
#[verifier::external_body]
fn secondary_clear(v: &mut ArrayVec<(Sprite, usize), 8>)
    ensures
        secondary_items(*final(v)) == Seq::<(Sprite, usize)>::empty(),
{
    v.clear()
}

/// `ArrayVec::try_push`: appends `item` when fewer than eight items are
/// held, and reports whether it did; a full vector stays as it was.
#[verifier::external_body]
fn secondary_try_push(v: &mut ArrayVec<(Sprite, usize), 8>, item: (Sprite, usize)) -> (r: bool)
    ensures
        secondary_items(*old(v)).len() < 8 ==> r && secondary_items(*final(v)) == secondary_items(*old(v)).push(item),
        secondary_items(*old(v)).len() >= 8 ==> !r && secondary_items(*final(v)) == secondary_items(*old(v)),
{
    match v.try_push(item) {
        Ok(()) => true,
        Err(_) => false,
    }
}

/// `ArrayVec::len`: the number of items held.
#[verifier::external_body]
fn secondary_len(v: &ArrayVec<(Sprite, usize), 8>) -> (r: usize)
    ensures
        r == secondary_items(*v).len(),
{
    v.len()
}

/// Indexing an `ArrayVec` through its slice: item `i`.
#[verifier::external_body]
fn secondary_get(v: &ArrayVec<(Sprite, usize), 8>, i: usize) -> (r: (Sprite, usize))
    requires
        i < secondary_items(*v).len(),
    ensures
        r == secondary_items(*v)[i as int],
{
    v[i]
}

/// Object attribute memory: 64 sprites, and the up to eight of them that
/// cover the current scanline.
pub struct Oam {
    pub primary: [Sprite; 64],
    pub secondary: ArrayVec<(Sprite, usize), 8>,
}

pub struct OamView {
    pub primary: Seq<Sprite>,
    pub secondary: Seq<(Sprite, usize)>,
}

impl View for Oam {
    type V = OamView;

    open spec fn view(&self) -> OamView {
        OamView { primary: self.primary@, secondary: secondary_items(self.secondary) }
    }
}

/// Byte `part` of a sprite's four.
pub open spec fn sprite_byte(s: Sprite, part: int) -> u8 {
    if part == 0 {
        s.y_pos
    } else if part == 1 {
        s.tile_index
    } else if part == 2 {
        s.attributes
    } else {
        s.x_pos
    }
}

/// A sprite with byte `part` replaced; attributes keep only their defined bits.
pub open spec fn with_sprite_byte(s: Sprite, part: int, val: u8) -> Sprite {
    if part == 0 {
        Sprite { y_pos: val, ..s }
    } else if part == 1 {
        Sprite { tile_index: val, ..s }
    } else if part == 2 {
        Sprite { attributes: val & ATTRIBUTE_BITS, ..s }
    } else {
        Sprite { x_pos: val, ..s }
    }
}

/// The OAM byte at address `addr`, wrapped to 256 bytes.
pub open spec fn oam_read(o: OamView, addr: usize) -> u8 {
    let a = addr & 0xff;
    sprite_byte(o.primary[(a / 4) as int], (a % 4) as int)
}

/// OAM after a write of `val` at `addr`, wrapped to 256 bytes.
pub open spec fn oam_write(o: OamView, addr: usize, val: u8) -> OamView {
    let a = addr & 0xff;
    OamView {
        primary: o.primary.update((a / 4) as int, with_sprite_byte(o.primary[(a / 4) as int], (a % 4) as int, val)),
        ..o
    }
}

/// Whether the sprite covers scanline `y`: its eight rows start at `y_pos`.
/// The end of the rows is computed in eight bits.
pub open spec fn on_scanline_spec(s: Sprite, y: u8) -> Result<bool, Fault> {
    if y >= s.y_pos {
        if s.y_pos + 8 > 0xff {
            Err(Fault::Overflow)
        } else {
            Ok(y < s.y_pos + 8)
        }
    } else {
        Ok(false)
    }
}

/// Secondary OAM after scanning primary OAM from sprite `i` on: each sprite
/// on scanline `y` is appended; the scan ends with overflow reported at the
/// first such sprite that finds secondary OAM full.
pub open spec fn populate_from(primary: Seq<Sprite>, sec: Seq<(Sprite, usize)>, y: u8, i: int) -> Result<
    (Seq<(Sprite, usize)>, bool),
    Fault,
>
    decreases primary.len() - i,
{
    if i < 0 || i >= primary.len() {
        Ok((sec, false))
    } else {
        match on_scanline_spec(primary[i], y) {
            Err(e) => Err(e),
            Ok(on) => if !on {
                populate_from(primary, sec, y, i + 1)
            } else if sec.len() < 8 {
                populate_from(primary, sec.push((primary[i], i as usize)), y, i + 1)
            } else {
                Ok((sec, true))
            },
        }
    }
}

/// The 16 pattern bytes of a tile starting at `start`, read from `i` on and
/// appended to `acc`.
pub open spec fn pattern_from(m: CartridgeView, start: usize, i: int, acc: Seq<u8>) -> Result<Seq<u8>, Fault>
    decreases 16 - i,
{
    if i >= 16 {
        Ok(acc)
    } else {
        match Cartridge::ppu_get_spec(m, (start + i) as usize) {
            Err(e) => Err(e),
            Ok(b) => pattern_from(m, start, i + 1, acc.push(b)),
        }
    }
}

/// The colour sprite `s` (number `num`) gives pixel `x` of chunk
/// `x_course`, on row `sprite_y` of its pattern `pat`.
pub open spec fn sprite_pixel(
    p: PaletteView,
    s: Sprite,
    num: usize,
    pat: Seq<u8>,
    sprite_y: int,
    x_course: int,
    x: int,
) -> Result<Colour, Fault> {
    let flip_x = s.attributes & FLIP_HORIZONTALLY != 0;
    let palette_id = (s.attributes & (PALETTE_0 | PALETTE_1)) as int;
    let sx = x_course * 8 + x - s.x_pos;
    if 0 <= sx < 8 {
        let col = if !flip_x { 7 - sx } else { sx };
        let bit0 = pat[sprite_y] & (1u8 << (col as u8)) != 0;
        let bit1 = pat[sprite_y + 8] & (1u8 << (col as u8)) != 0;
        let colour_id = (if bit0 { 1int } else { 0int }) + (if bit1 { 2int } else { 0int });
        match rgb_lookup_spec(p, palette_id, colour_id, true) {
            Err(e) => Err(e),
            Ok(c) => Ok(if num == 0 { sprite0_spec(c) } else { c }),
        }
    } else {
        Ok(Colour::Transparent)
    }
}

/// The chunk after layering one sprite's pixels from `x` on under it.
pub open spec fn draw_pixels_from(
    pixels: Seq<Colour>,
    p: PaletteView,
    s: Sprite,
    num: usize,
    pat: Seq<u8>,
    sprite_y: int,
    x_course: int,
    x: int,
) -> Result<Seq<Colour>, Fault>
    decreases 8 - x,
{
    if x >= 8 {
        Ok(pixels)
    } else {
        match sprite_pixel(p, s, num, pat, sprite_y, x_course, x) {
            Err(e) => Err(e),
            Ok(c) => draw_pixels_from(
                pixels.update(x, combine_spec(pixels[x], c)),
                p,
                s,
                num,
                pat,
                sprite_y,
                x_course,
                x + 1,
            ),
        }
    }
}

/// The pattern address of a sprite's tile in the selected table.
pub open spec fn tile_addr(s: Sprite, bank_sel: bool) -> usize {
    ((s.tile_index as usize) << 4usize) | ((if bank_sel { 1usize } else { 0usize }) << 12usize)
}

/// The chunk after layering one secondary OAM entry under it.
pub open spec fn draw_sprite(
    pixels: Seq<Colour>,
    m: CartridgeView,
    p: PaletteView,
    bank_sel: bool,
    y: int,
    x_course: int,
    entry: (Sprite, usize),
) -> Result<Seq<Colour>, Fault> {
    let s = entry.0;
    let sy0 = y - s.y_pos;
    let sprite_y = if s.attributes & FLIP_VERTICALLY != 0 { 7 - sy0 } else { sy0 };
    match pattern_from(m, tile_addr(s, bank_sel), 0, Seq::empty()) {
        Err(e) => Err(e),
        Ok(pat) => if !(0 <= sprite_y < 8) {
            Err(Fault::SpriteRow)
        } else {
            draw_pixels_from(pixels, p, s, entry.1, pat, sprite_y, x_course, 0)
        },
    }
}

/// The chunk after layering secondary OAM entries from `k` on.
pub open spec fn draw_from(
    pixels: Seq<Colour>,
    m: CartridgeView,
    p: PaletteView,
    bank_sel: bool,
    y: int,
    x_course: int,
    sec: Seq<(Sprite, usize)>,
    k: int,
) -> Result<Seq<Colour>, Fault>
    decreases sec.len() - k,
{
    if k < 0 || k >= sec.len() {
        Ok(pixels)
    } else {
        match draw_sprite(pixels, m, p, bank_sel, y, x_course, sec[k]) {
            Err(e) => Err(e),
            Ok(px) => draw_from(px, m, p, bank_sel, y, x_course, sec, k + 1),
        }
    }
}

/// Eight transparent pixels.
pub open spec fn transparent_chunk() -> Seq<Colour> {
    Seq::new(8, |i: int| Colour::Transparent)
}

/// The sprite chunk at `x_course` on scanline `y`: secondary OAM drawn in
/// order, earlier sprites in front.
pub open spec fn draw_chunk_spec(
    o: OamView,
    m: CartridgeView,
    p: PaletteView,
    bank_sel: bool,
    y: usize,
    x_course: usize,
) -> Result<Seq<Colour>, Fault> {
    draw_from(transparent_chunk(), m, p, bank_sel, (y & 0xff) as int, (x_course & 0x1f) as int, o.secondary, 0)
}

/// An OAM read gives back what the last write to the same byte stored
/// (attribute bytes keep only their defined bits); a write leaves every
/// other byte of the 256 as it was.
pub proof fn lemma_oam_read_after_write(o: OamView, a: usize, b: usize, val: u8)
    requires
        o.primary.len() == 64,
    ensures
        oam_read(oam_write(o, a, val), a) == (if a & 3 == 2 { val & ATTRIBUTE_BITS } else { val }),
        a & 0xff != b & 0xff ==> oam_read(oam_write(o, a, val), b) == oam_read(o, b),
{
    lemma_oam_index(a);
    lemma_oam_index(b);
}

/// An OAM address wraps to its low byte: entry `(addr & 0xff) / 4`, byte
/// `addr & 3` of it.
proof fn lemma_oam_index(addr: usize)
    ensures
        0xff & addr == addr & 0xff,
        addr & 0xff < 256,
        (addr & 0xff) % 4 == addr & 3,
{
    assert(0xff & addr == addr & 0xff && addr & 0xff < 256 && (addr & 0xff) % 4 == addr & 3) by (bit_vector);
}

/// Filling secondary OAM never holds more than eight sprites, and overflow
/// is reported only once it is full.
pub proof fn lemma_populate_bounded(primary: Seq<Sprite>, sec: Seq<(Sprite, usize)>, y: u8, i: int)
    requires
        sec.len() <= 8,
    ensures
        match populate_from(primary, sec, y, i) {
            Ok((out, overflow)) => out.len() <= 8 && (overflow ==> out.len() == 8) && sec.len() <= out.len(),
            Err(_) => true,
        },
    decreases primary.len() - i,
{
    if 0 <= i < primary.len() {
        match on_scanline_spec(primary[i], y) {
            Err(_) => {},
            Ok(on) => {
                if !on {
                    lemma_populate_bounded(primary, sec, y, i + 1);
                } else if sec.len() < 8 {
                    lemma_populate_bounded(primary, sec.push((primary[i], i as usize)), y, i + 1);
                }
            },
        }
    }
}

/// The sprites of primary OAM from index `i` on that cover scanline `y`,
/// with their indices, in OAM order.
pub open spec fn sprites_on_line(primary: Seq<Sprite>, y: u8, i: int) -> Seq<(Sprite, usize)>
    decreases primary.len() - i,
{
    if i < 0 || i >= primary.len() {
        Seq::empty()
    } else if on_scanline_spec(primary[i], y) == Ok::<bool, Fault>(true) {
        seq![(primary[i], i as usize)] + sprites_on_line(primary, y, i + 1)
    } else {
        sprites_on_line(primary, y, i + 1)
    }
}

/// The scan from `i` on appends the sprites on the line to what secondary
/// OAM holds, keeping the first eight, and reports overflow exactly when
/// there are more.
proof fn lemma_populate_from_closed(primary: Seq<Sprite>, sec: Seq<(Sprite, usize)>, y: u8, i: int)
    requires
        sec.len() <= 8,
        0 <= i,
    ensures
        match populate_from(primary, sec, y, i) {
            Ok((out, overflow)) => {
                let all = sec + sprites_on_line(primary, y, i);
                &&& overflow == (all.len() > 8)
                &&& out == all.take(if all.len() > 8 { 8 } else { all.len() as int })
            },
            Err(_) => true,
        },
    decreases primary.len() - i,
{
    if i >= primary.len() {
        assert(sec + sprites_on_line(primary, y, i) =~= sec);
    } else {
        let rest = sprites_on_line(primary, y, i + 1);
        match on_scanline_spec(primary[i], y) {
            Err(_) => {},
            Ok(on) => {
                if !on {
                    lemma_populate_from_closed(primary, sec, y, i + 1);
                } else if sec.len() < 8 {
                    let e = (primary[i], i as usize);
                    lemma_populate_from_closed(primary, sec.push(e), y, i + 1);
                    assert(sec.push(e) + rest =~= sec + (seq![e] + rest));
                } else {
                    let all = sec + (seq![(primary[i], i as usize)] + rest);
                    assert(all.take(8) =~= sec);
                }
            },
        }
    }
}

/// Sprite evaluation from an empty secondary OAM, when it completes: the
/// first eight sprites of primary OAM that cover the scanline, in OAM order
/// and with their indices, and overflow exactly when more than eight cover
/// it.
pub proof fn lemma_sprite_evaluation(primary: Seq<Sprite>, y: u8)
    ensures
        match populate_from(primary, Seq::empty(), y, 0) {
            Ok((out, overflow)) => {
                let on = sprites_on_line(primary, y, 0);
                &&& overflow == (on.len() > 8)
                &&& out == on.take(if on.len() > 8 { 8 } else { on.len() as int })
            },
            Err(_) => true,
        },
{
    lemma_populate_from_closed(primary, Seq::empty(), y, 0);
    assert(Seq::<(Sprite, usize)>::empty() + sprites_on_line(primary, y, 0) =~= sprites_on_line(primary, y, 0));
}

/// The pixel that secondary OAM entry `e` gives at column `x` of chunk
/// `x_course` on scanline `y`, when its pattern can be fetched and the line
/// lies within its eight rows.
pub open spec fn entry_pixel(
    m: CartridgeView,
    p: PaletteView,
    bank_sel: bool,
    y: int,
    x_course: int,
    e: (Sprite, usize),
    x: int,
) -> Option<Colour> {
    let s = e.0;
    let sy0 = y - s.y_pos;
    let sprite_y = if s.attributes & FLIP_VERTICALLY != 0 { 7 - sy0 } else { sy0 };
    match pattern_from(m, tile_addr(s, bank_sel), 0, Seq::empty()) {
        Ok(pat) => if 0 <= sprite_y < 8 {
            match sprite_pixel(p, s, e.1, pat, sprite_y, x_course, x) {
                Ok(c) => Some(c),
                Err(_) => None,
            }
        } else {
            None
        },
        Err(_) => None,
    }
}

/// Drawing one sprite's pixels from `x0` on layers each pixel under what is
/// already there and leaves the pixels before `x0` alone.
proof fn lemma_draw_pixels_at(
    pixels: Seq<Colour>,
    p: PaletteView,
    s: Sprite,
    num: usize,
    pat: Seq<u8>,
    sprite_y: int,
    x_course: int,
    x0: int,
    x: int,
)
    requires
        pixels.len() == 8,
        0 <= x0,
        0 <= x < 8,
        draw_pixels_from(pixels, p, s, num, pat, sprite_y, x_course, x0) is Ok,
    ensures
        ({
            let out = draw_pixels_from(pixels, p, s, num, pat, sprite_y, x_course, x0)->Ok_0;
            &&& out.len() == 8
            &&& x < x0 ==> out[x] == pixels[x]
            &&& x0 <= x ==> sprite_pixel(p, s, num, pat, sprite_y, x_course, x) is Ok && out[x] == combine_spec(
                pixels[x],
                sprite_pixel(p, s, num, pat, sprite_y, x_course, x)->Ok_0,
            )
        }),
    decreases 8 - x0,
{
    if x0 < 8 {
        let c = sprite_pixel(p, s, num, pat, sprite_y, x_course, x0)->Ok_0;
        let next = pixels.update(x0, combine_spec(pixels[x0], c));
        lemma_draw_pixels_at(next, p, s, num, pat, sprite_y, x_course, x0 + 1, x);
    }
}

/// Layering one entry under a chunk: an opaque pixel stays, and a
/// transparent one takes the entry's pixel.
proof fn lemma_draw_sprite_at(
    pixels: Seq<Colour>,
    m: CartridgeView,
    p: PaletteView,
    bank_sel: bool,
    y: int,
    x_course: int,
    e: (Sprite, usize),
    x: int,
)
    requires
        pixels.len() == 8,
        0 <= x < 8,
        draw_sprite(pixels, m, p, bank_sel, y, x_course, e) is Ok,
    ensures
        ({
            let out = draw_sprite(pixels, m, p, bank_sel, y, x_course, e)->Ok_0;
            &&& out.len() == 8
            &&& entry_pixel(m, p, bank_sel, y, x_course, e, x) is Some
            &&& out[x] == combine_spec(pixels[x], entry_pixel(m, p, bank_sel, y, x_course, e, x)->Some_0)
        }),
{
    let s = e.0;
    let sy0 = y - s.y_pos;
    let sprite_y = if s.attributes & FLIP_VERTICALLY != 0 { 7 - sy0 } else { sy0 };
    let pat = pattern_from(m, tile_addr(s, bank_sel), 0, Seq::empty())->Ok_0;
    lemma_draw_pixels_at(pixels, p, s, e.1, pat, sprite_y, x_course, 0, x);
}

/// Layering entries from `k` on keeps every opaque pixel.
proof fn lemma_draw_from_keeps(
    pixels: Seq<Colour>,
    m: CartridgeView,
    p: PaletteView,
    bank_sel: bool,
    y: int,
    x_course: int,
    sec: Seq<(Sprite, usize)>,
    k: int,
    x: int,
)
    requires
        pixels.len() == 8,
        0 <= x < 8,
        0 <= k,
        !(pixels[x] is Transparent),
        draw_from(pixels, m, p, bank_sel, y, x_course, sec, k) is Ok,
    ensures
        draw_from(pixels, m, p, bank_sel, y, x_course, sec, k)->Ok_0[x] == pixels[x],
        draw_from(pixels, m, p, bank_sel, y, x_course, sec, k)->Ok_0.len() == 8,
    decreases sec.len() - k,
{
    if k < sec.len() {
        lemma_draw_sprite_at(pixels, m, p, bank_sel, y, x_course, sec[k], x);
        let px = draw_sprite(pixels, m, p, bank_sel, y, x_course, sec[k])->Ok_0;
        lemma_draw_from_keeps(px, m, p, bank_sel, y, x_course, sec, k + 1, x);
    }
}

/// Layering entries from `k` on, over a transparent pixel: the first entry
/// from `k` on that is opaque at the pixel decides it.
proof fn lemma_draw_from_first(
    pixels: Seq<Colour>,
    m: CartridgeView,
    p: PaletteView,
    bank_sel: bool,
    y: int,
    x_course: int,
    sec: Seq<(Sprite, usize)>,
    k: int,
    x: int,
    j: int,
)
    requires
        pixels.len() == 8,
        0 <= x < 8,
        0 <= k <= j < sec.len(),
        pixels[x] is Transparent,
        entry_pixel(m, p, bank_sel, y, x_course, sec[j], x) matches Some(c) && !(c is Transparent),
        forall|i: int|
            k <= i < j ==> #[trigger] entry_pixel(m, p, bank_sel, y, x_course, sec[i], x) == Some(Colour::Transparent),
        draw_from(pixels, m, p, bank_sel, y, x_course, sec, k) is Ok,
    ensures
        Some(draw_from(pixels, m, p, bank_sel, y, x_course, sec, k)->Ok_0[x]) == entry_pixel(
            m,
            p,
            bank_sel,
            y,
            x_course,
            sec[j],
            x,
        ),
    decreases sec.len() - k,
{
    lemma_draw_sprite_at(pixels, m, p, bank_sel, y, x_course, sec[k], x);
    let px = draw_sprite(pixels, m, p, bank_sel, y, x_course, sec[k])->Ok_0;
    if k == j {
        lemma_draw_from_keeps(px, m, p, bank_sel, y, x_course, sec, k + 1, x);
    } else {
        assert(entry_pixel(m, p, bank_sel, y, x_course, sec[k], x) == Some(Colour::Transparent));
        lemma_draw_from_first(px, m, p, bank_sel, y, x_course, sec, k + 1, x, j);
    }
}

/// Sprite priority: at each pixel of a sprite chunk, the first secondary
/// OAM entry in order (the lowest OAM index) that is opaque there is the
/// one shown; later entries are behind it.
pub proof fn lemma_sprite_priority(
    o: OamView,
    m: CartridgeView,
    p: PaletteView,
    bank_sel: bool,
    y: usize,
    x_course: usize,
    x: int,
    j: int,
)
    requires
        0 <= x < 8,
        0 <= j < o.secondary.len(),
        entry_pixel(m, p, bank_sel, (y & 0xff) as int, (x_course & 0x1f) as int, o.secondary[j], x) matches Some(c)
            && !(c is Transparent),
        forall|i: int|
            0 <= i < j ==> #[trigger] entry_pixel(
                m,
                p,
                bank_sel,
                (y & 0xff) as int,
                (x_course & 0x1f) as int,
                o.secondary[i],
                x,
            ) == Some(Colour::Transparent),
    ensures
        match draw_chunk_spec(o, m, p, bank_sel, y, x_course) {
            Ok(px) => Some(px[x]) == entry_pixel(
                m,
                p,
                bank_sel,
                (y & 0xff) as int,
                (x_course & 0x1f) as int,
                o.secondary[j],
                x,
            ),
            Err(_) => true,
        },
{
    if draw_chunk_spec(o, m, p, bank_sel, y, x_course) is Ok {
        lemma_draw_from_first(
            transparent_chunk(),
            m,
            p,
            bank_sel,
            (y & 0xff) as int,
            (x_course & 0x1f) as int,
            o.secondary,
            0,
            x,
            j,
        );
    }
}

impl Sprite {
    pub fn new() -> (r: Self)
        ensures
            r == (Sprite { y_pos: 0, tile_index: 0, attributes: 0, x_pos: 0 }),
    {
        Sprite { y_pos: 0, tile_index: 0, attributes: 0, x_pos: 0 }
    }

    fn on_scanline(&self, y: u8) -> (r: Result<bool, Fault>)
        ensures
            r == on_scanline_spec(*self, y),
    {
        if y >= self.y_pos {
            if self.y_pos > 0xff - 8 {
                return Err(Fault::Overflow);
            }
            Ok(y < self.y_pos + 8)
        } else {
            Ok(false)
        }
    }
}

impl Oam {
    pub fn new() -> (r: Self)
        ensures
            r@.primary == Seq::new(64, |i: int| Sprite { y_pos: 0, tile_index: 0, attributes: 0, x_pos: 0 }),
            r@.secondary == Seq::<(Sprite, usize)>::empty(),
    {
        let r = Self { primary: [Sprite::new(); 64], secondary: secondary_new() };
        assert(r@.primary =~= Seq::new(64, |i: int| Sprite { y_pos: 0, tile_index: 0, attributes: 0, x_pos: 0 }));
        r
    }

    pub fn write(&mut self, addr: usize, val: u8)
        ensures
            final(self)@ == oam_write(old(self)@, addr, val),
    {
        let a = 0xff & addr;
        proof {
            lemma_oam_index(addr);
        }
        let entry_index = a / 4;
        let mut entry = self.primary[entry_index];
        let part = a % 4;
        if part == 0 {
            entry.y_pos = val;
        } else if part == 1 {
            entry.tile_index = val;
        } else if part == 2 {
            entry.attributes = val & ATTRIBUTE_BITS;
        } else {
            entry.x_pos = val;
        }
        self.primary[entry_index] = entry;
        assert(final(self)@.primary =~= oam_write(old(self)@, addr, val).primary);
    }

    pub fn read(&self, addr: usize) -> (r: u8)
        ensures
            r == oam_read(self@, addr),
    {
        let a = 0xff & addr;
        proof {
            lemma_oam_index(addr);
        }
        let entry = self.primary[a / 4];
        let part = a % 4;
        if part == 0 {
            entry.y_pos
        } else if part == 1 {
            entry.tile_index
        } else if part == 2 {
            entry.attributes
        } else {
            entry.x_pos
        }
    }

    pub fn clear_secondary_oam(&mut self)
        ensures
            final(self)@.primary == old(self)@.primary,
            final(self)@.secondary == Seq::<(Sprite, usize)>::empty(),
    {
        secondary_clear(&mut self.secondary);
    }

    /// Adds the sprites on scanline `y` to secondary OAM and reports whether
    /// more were found than it holds.
    pub fn populate_secondary_oam(&mut self, y: usize) -> (r: Result<bool, Fault>)
        ensures
            final(self)@.primary == old(self)@.primary,
            match populate_from(old(self)@.primary, old(self)@.secondary, y as u8, 0) {
                Ok((sec, overflow)) => r == Ok::<bool, Fault>(overflow) && final(self)@.secondary == sec,
                Err(e) => r == Err::<bool, Fault>(e),
            },
    {
        let ghost init = old(self)@;
        let mut i: usize = 0;
        while i < 64
            invariant
                0 <= i <= 64,
                init == old(self)@,
                self@.primary == init.primary,
                init.primary.len() == 64,
                populate_from(init.primary, init.secondary, y as u8, 0) == populate_from(
                    init.primary,
                    self@.secondary,
                    y as u8,
                    i as int,
                ),
            decreases 64 - i,
        {
            let sprite = self.primary[i];
            if sprite.on_scanline(y as u8)? {
                if !secondary_try_push(&mut self.secondary, (sprite, i)) {
                    return Ok(true);
                }
            }
            i = i + 1;
        }
        Ok(false)
    }

    fn get_pattern(&self, mapper: &mut Cartridge, start_addr: usize) -> (r: Result<[u8; 16], Fault>)
        requires
            start_addr <= 0xffff,
        ensures
            final(mapper)@ == old(mapper)@,
            match pattern_from(old(mapper)@, start_addr, 0, Seq::empty()) {
                Ok(pat) => r is Ok && r->Ok_0@ == pat,
                Err(e) => r == Err::<[u8; 16], Fault>(e),
            },
    {
        let mut pattern: [u8; 16] = [0; 16];
        let mut i: usize = 0;
        assert(pattern@.take(0) =~= Seq::<u8>::empty());
        while i < 16
            invariant
                0 <= i <= 16,
                start_addr <= 0xffff,
                mapper@ == old(mapper)@,
                pattern_from(old(mapper)@, start_addr, 0, Seq::empty()) == pattern_from(
                    old(mapper)@,
                    start_addr,
                    i as int,
                    pattern@.take(i as int),
                ),
            decreases 16 - i,
        {
            let b = mapper.ppu_get(start_addr + i)?;
            assert(pattern@.take(i as int).push(b) =~= pattern@.update(i as int, b).take(i + 1));
            pattern[i] = b;
            i = i + 1;
        }
        assert(pattern@.take(16) =~= pattern@);
        Ok(pattern)
    }

    /// Draws the sprites of secondary OAM over an 8-pixel chunk of scanline
    /// `y`, aligned with the background chunk `x_course`.
    pub fn draw_chunk(
        &self,
        mapper: &mut Cartridge,
        palette_ram: &PaletteRam,
        bank_sel: bool,
        y: usize,
        x_course: usize,
    ) -> (r: Result<[Colour; 8], Fault>)
        ensures
            final(mapper)@ == old(mapper)@,
            match draw_chunk_spec(self@, old(mapper)@, palette_ram@, bank_sel, y, x_course) {
                Ok(px) => r is Ok && r->Ok_0@ == px,
                Err(e) => r == Err::<[Colour; 8], Fault>(e),
            },
    {
        let yi = (y & 0xff) as i32;
        let xci = (x_course & 0x1f) as i32;
        assert((y & 0xff) < 256 && (x_course & 0x1f) < 32) by (bit_vector);
        let mut pixels = [Colour::new(); 8];
        assert(pixels@ =~= transparent_chunk());
        let n = secondary_len(&self.secondary);
        let mut k: usize = 0;
        while k < n
            invariant
                0 <= k <= n,
                n == self@.secondary.len(),
                mapper@ == old(mapper)@,
                yi == (y & 0xff) as int,
                xci == (x_course & 0x1f) as int,
                0 <= yi < 256,
                0 <= xci < 32,
                draw_chunk_spec(self@, old(mapper)@, palette_ram@, bank_sel, y, x_course) == draw_from(
                    pixels@,
                    old(mapper)@,
                    palette_ram@,
                    bank_sel,
                    yi as int,
                    xci as int,
                    self@.secondary,
                    k as int,
                ),
            decreases n - k,
        {
            let (sprite, sprite_num) = secondary_get(&self.secondary, k);
            let flip_x = sprite.attributes & FLIP_HORIZONTALLY != 0;
            let flip_y = sprite.attributes & FLIP_VERTICALLY != 0;
            let mut sprite_y = yi - sprite.y_pos as i32;
            if flip_y {
                sprite_y = 7 - sprite_y;
            }
            let tile_index = sprite.tile_index as usize;
            let bank: usize = if bank_sel { 1 } else { 0 };
            let addr = (tile_index << 4usize) | (bank << 12usize);
            assert(addr <= 0xffff) by (bit_vector)
                requires
                    addr == (tile_index << 4usize) | (bank << 12usize),
                    tile_index < 256,
                    bank < 2,
            ;
            let pattern = self.get_pattern(mapper, addr)?;
            if !(sprite_y >= 0 && sprite_y < 8) {
                return Err(Fault::SpriteRow);
            }
            let attributes = sprite.attributes;
            let palette_id = (attributes & (PALETTE_0 | PALETTE_1)) as usize;
            assert(attributes & (PALETTE_0 | PALETTE_1) < 4) by (bit_vector);
            let ghost before = pixels@;
            assert(draw_sprite(before, old(mapper)@, palette_ram@, bank_sel, yi as int, xci as int, self@.secondary[k as int])
                == draw_pixels_from(before, palette_ram@, sprite, sprite_num, pattern@, sprite_y as int, xci as int, 0));
            let mut x: usize = 0;
            while x < 8
                invariant
                    0 <= x <= 8,
                    flip_x == (sprite.attributes & FLIP_HORIZONTALLY != 0),
                    palette_id == (sprite.attributes & (PALETTE_0 | PALETTE_1)) as usize,
                    k < n,
                    n == self@.secondary.len(),
                    mapper@ == old(mapper)@,
                    yi == (y & 0xff) as int,
                    xci == (x_course & 0x1f) as int,
                    0 <= yi < 256,
                    draw_chunk_spec(self@, old(mapper)@, palette_ram@, bank_sel, y, x_course) == draw_from(
                        before,
                        old(mapper)@,
                        palette_ram@,
                        bank_sel,
                        yi as int,
                        xci as int,
                        self@.secondary,
                        k as int,
                    ),
                    draw_sprite(before, old(mapper)@, palette_ram@, bank_sel, yi as int, xci as int, self@.secondary[k as int])
                        == draw_pixels_from(before, palette_ram@, sprite, sprite_num, pattern@, sprite_y as int, xci as int, 0),
                    0 <= sprite_y < 8,
                    pattern@.len() == 16,
                    palette_id < 4,
                    0 <= xci < 32,
                    draw_pixels_from(
                        before,
                        palette_ram@,
                        sprite,
                        sprite_num,
                        pattern@,
                        sprite_y as int,
                        xci as int,
                        0,
                    ) == draw_pixels_from(
                        pixels@,
                        palette_ram@,
                        sprite,
                        sprite_num,
                        pattern@,
                        sprite_y as int,
                        xci as int,
                        x as int,
                    ),
                decreases 8 - x,
            {
                let mut sprite_x = (xci * 8) + (x as i32) - sprite.x_pos as i32;
                let new_pixel = if sprite_x >= 0 && sprite_x < 8 {
                    if !flip_x {
                        sprite_x = 7 - sprite_x;
                    }
                    let sy = sprite_y as usize;
                    let mask = 1u8 << (sprite_x as u8);
                    let bit0 = pattern[sy] & mask != 0;
                    let bit1 = pattern[sy + 8] & mask != 0;
                    let colour_id: usize = (if bit0 { 1 } else { 0 }) + (if bit1 { 2 } else { 0 });
                    let mut colour = palette_ram.rgb_lookup(palette_id, colour_id, true)?;
                    if sprite_num == 0 {
                        colour = colour.to_sprite0();
                    }
                    colour
                } else {
                    Colour::Transparent
                };
                assert(sprite_pixel(palette_ram@, sprite, sprite_num, pattern@, sprite_y as int, xci as int, x as int)
                    == Ok::<Colour, Fault>(new_pixel));
                pixels[x] = pixels[x].combine(new_pixel);
                x = x + 1;
            }
            k = k + 1;
        }
        Ok(pixels)
    }
}

} // verus!
