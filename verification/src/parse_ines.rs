use vstd::prelude::*;
use crate::system::Fault;

verus! {

/// The contents of an iNES ROM image.
pub struct INes {
    pub prg_rom: Vec<u8>,
    pub mapper: u16,
    pub submapper: u8,
    pub trainer: Option<Vec<u8>>,
    pub chr_rom: Option<Vec<u8>>,
}

/// Flags 6: a 512-byte trainer follows the header.
pub const TRAINER_PRESENT: u8 = 1 << 2;
/// Flags 7: the two NES 2.0 identification bits.
pub const NES_VERSION_BIT0: u8 = 1 << 2;
pub const NES_VERSION_BIT1: u8 = 1 << 3;

/// Whether the image starts with the iNES magic "NES\x1a".
pub open spec fn has_magic(raw: Seq<u8>) -> bool {
    raw.len() >= 4 && raw[0] == 0x4e && raw[1] == 0x45 && raw[2] == 0x53 && raw[3] == 0x1a
}

/// The header's NES 2.0 test: bit 3 of flags 7.
pub open spec fn nes2(raw: Seq<u8>) -> bool {
    (raw[7] & 0x0f) & NES_VERSION_BIT1 == NES_VERSION_BIT1
}

pub open spec fn trainer_used(raw: Seq<u8>) -> bool {
    (raw[6] & 0x0f) & TRAINER_PRESENT == TRAINER_PRESENT
}

/// Where the PRG ROM starts: after the 16-byte header and the trainer.
pub open spec fn prg_start(raw: Seq<u8>) -> int {
    16 + if trainer_used(raw) { 512int } else { 0int }
}

/// PRG ROM size in bytes: 16 kB units, with four more bits from byte 9 in
/// NES 2.0 images.
pub open spec fn prg_size(raw: Seq<u8>) -> int {
    ((if nes2(raw) { ((raw[9] & 0x0f) as int) * 256 } else { 0int }) + raw[4] as int) * 16384
}

/// CHR ROM size in bytes: 8 kB units; NES 2.0 images OR in the high nibble
/// of byte 9 unshifted.
pub open spec fn chr_size(raw: Seq<u8>) -> int {
    ((raw[5] | if nes2(raw) { raw[9] & 0xf0 } else { 0 }) as int) * 8192
}

pub open spec fn prg_end(raw: Seq<u8>) -> int {
    prg_start(raw) + prg_size(raw)
}

pub open spec fn chr_end(raw: Seq<u8>) -> int {
    prg_end(raw) + chr_size(raw)
}

/// An image with the magic holds every part that its header announces.
pub open spec fn complete(raw: Seq<u8>) -> bool {
    &&& raw.len() >= 8
    &&& raw.len() >= prg_end(raw)
    &&& chr_size(raw) != 0 ==> raw.len() >= chr_end(raw)
}

/// The mapper number as the header is read here: the high nibble of byte 8
/// above a low byte that is always zero, because flags 6 shifted down is
/// masked with the high nibble of flags 7.
pub open spec fn mapper_number(raw: Seq<u8>) -> u16 {
    (((raw[8] & 0x0f) as u16) << 8u16) | ((((raw[6] & 0xf0) >> 4u8) & (raw[7] & 0xf0)) as u16)
}

fn copy_range(raw: &[u8], start: usize, end: usize) -> (r: Vec<u8>)
    requires
        start <= end <= raw@.len(),
    ensures
        r@ == raw@.subrange(start as int, end as int),
{
    let mut out: Vec<u8> = Vec::new();
    let mut i = start;
    while i < end
        invariant
            start <= i <= end,
            end <= raw@.len(),
            out@ == raw@.subrange(start as int, i as int),
        decreases end - i,
    {
        out.push(raw[i]);
        i = i + 1;
        assert(out@ =~= raw@.subrange(start as int, i as int));
    }
    out
}

/// Reads an iNES image. No magic gives `None`; an image shorter than its
/// header says is an out-of-bounds fault.
pub fn parse_ines(raw: &[u8]) -> (r: Result<Option<INes>, Fault>)
    ensures
        r is Err <==> raw@.len() < 4 || (has_magic(raw@) && !complete(raw@)),
        r == Ok::<Option<INes>, Fault>(None) <==> raw@.len() >= 4 && !has_magic(raw@),
        r matches Ok(Some(ines)) ==> {
            &&& ines.prg_rom@ == raw@.subrange(prg_start(raw@), prg_end(raw@))
            &&& ines.mapper == mapper_number(raw@)
            &&& ines.submapper == (raw@[8] & 0xf0) >> 4u8
            &&& trainer_used(raw@) ==> ines.trainer is Some && ines.trainer.unwrap()@ == raw@.subrange(16, 528)
            &&& !trainer_used(raw@) ==> ines.trainer is None
            &&& chr_size(raw@) != 0 ==> ines.chr_rom is Some && ines.chr_rom.unwrap()@ == raw@.subrange(
                prg_end(raw@),
                chr_end(raw@),
            )
            &&& chr_size(raw@) == 0 ==> ines.chr_rom is None
        },
{
    // Check that the image starts with the magic sequence
    if raw.len() < 4 {
        return Err(Fault::OutOfBounds);
    }
    if !(raw[0] == 0x4e && raw[1] == 0x45 && raw[2] == 0x53 && raw[3] == 0x1a) {
        return Ok(None);
    }
    if raw.len() < 16 {
        proof {
            assert(prg_start(raw@) >= 16);
            assert(prg_size(raw@) >= 0) by (nonlinear_arith)
                requires
                    prg_size(raw@) == ((if nes2(raw@) { ((raw@[9] & 0x0f) as int) * 256 } else { 0int }) + raw@[4] as int) * 16384,
                    (if nes2(raw@) { ((raw@[9] & 0x0f) as int) * 256 } else { 0int }) >= 0,
            ;
        }
        return Err(Fault::OutOfBounds);
    }
    let flags6 = raw[6] & 0x0f;
    let flags7 = raw[7] & 0x0f;
    let nes2 = flags7 & NES_VERSION_BIT1 == NES_VERSION_BIT1;

    let trainer_used = flags6 & TRAINER_PRESENT == TRAINER_PRESENT;
    let trainer_size: usize = if trainer_used { 512 } else { 0 };
    let trainer_start: usize = 16;
    let trainer_end = trainer_start + trainer_size;
    if raw.len() < trainer_end {
        return Err(Fault::OutOfBounds);
    }
    let trainer = if trainer_used {
        Some(copy_range(raw, trainer_start, trainer_end))
    } else {
        None
    };

    let b9 = raw[9];
    let prg_rom_size_lsb = raw[4] as usize;
    let prg_rom_size_msb = if nes2 { ((b9 & 0x0f) as usize) << 8usize } else { 0 };
    assert(prg_rom_size_msb <= 0xf00 && prg_rom_size_msb & 0xff == 0 && (nes2 ==> prg_rom_size_msb == (b9 & 0x0f)
        as usize * 256)) by (bit_vector)
        requires
            !nes2 ==> prg_rom_size_msb == 0,
            nes2 ==> prg_rom_size_msb == ((b9 & 0x0f) as usize) << 8usize,
    ;
    assert(prg_rom_size_msb | prg_rom_size_lsb == prg_rom_size_msb + prg_rom_size_lsb) by (bit_vector)
        requires
            prg_rom_size_msb & 0xff == 0,
            prg_rom_size_lsb < 256,
    ;
    let prg_rom_size = (prg_rom_size_msb | prg_rom_size_lsb) * 16384;
    let prg_rom_start = trainer_end;
    let prg_rom_end = prg_rom_start + prg_rom_size;
    if raw.len() < prg_rom_end {
        return Err(Fault::OutOfBounds);
    }
    let prg_rom = copy_range(raw, prg_rom_start, prg_rom_end);

    let chr_rom_size_lsb = raw[5] as usize;
    let chr_rom_size_msb = if nes2 { (b9 & 0xf0) as usize } else { 0 };
    assert(chr_rom_size_lsb | chr_rom_size_msb < 256) by (bit_vector)
        requires
            chr_rom_size_lsb < 256,
            chr_rom_size_msb < 256,
    ;
    let chr_rom_size = (chr_rom_size_lsb | chr_rom_size_msb) * 8192;
    let chr_rom_start = prg_rom_end;
    let chr_rom_end = match chr_rom_start.checked_add(chr_rom_size) {
        Some(e) => e,
        None => return Err(Fault::Overflow),
    };
    let chr_rom = if chr_rom_size != 0 {
        if raw.len() < chr_rom_end {
            return Err(Fault::OutOfBounds);
        }
        Some(copy_range(raw, chr_rom_start, chr_rom_end))
    } else {
        None
    };

    let mapper_lo = (raw[6] & 0xf0) >> 4u8 & (raw[7] & 0xf0);
    let mapper_hi = raw[8] & 0x0f;
    let mapper = (mapper_hi as u16) << 8u16 | (mapper_lo as u16);
    let submapper = (raw[8] & 0xf0) >> 4u8;

    Ok(Some(INes { prg_rom: prg_rom, mapper: mapper, submapper: submapper, trainer: trainer, chr_rom: chr_rom }))
}

} // verus!
