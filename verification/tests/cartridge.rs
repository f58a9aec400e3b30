use rnes::mapper::{generate_mapper, try_generate_mapper, Cartridge, Mapper};
use rnes::parse_ines::{parse_ines, INes};
use rnes::system::Fault;

fn header(prg_units: u8, chr_units: u8, flags6: u8, flags7: u8, b8: u8, b9: u8) -> Vec<u8> {
    let mut raw = vec![0x4e, 0x45, 0x53, 0x1a, prg_units, chr_units, flags6, flags7, b8, b9];
    raw.resize(16, 0);
    raw
}

fn image(prg_units: u8, chr_units: u8, flags6: u8) -> Vec<u8> {
    let mut raw = header(prg_units, chr_units, flags6, 0, 0, 0);
    if flags6 & 0x04 != 0 {
        raw.extend(std::iter::repeat(0x77).take(512));
    }
    raw.extend(std::iter::repeat(0x11).take(prg_units as usize * 16384));
    raw.extend(std::iter::repeat(0x22).take(chr_units as usize * 8192));
    raw
}

#[test]
fn parse_plain_image() {
    let raw = image(1, 1, 0);
    let ines = parse_ines(&raw).unwrap().unwrap();
    assert_eq!(ines.prg_rom.len(), 16384);
    assert!(ines.prg_rom.iter().all(|&b| b == 0x11));
    assert_eq!(ines.chr_rom.as_ref().unwrap().len(), 8192);
    assert!(ines.chr_rom.unwrap().iter().all(|&b| b == 0x22));
    assert!(ines.trainer.is_none());
    assert_eq!(ines.mapper, 0);
    assert_eq!(ines.submapper, 0);
}

#[test]
fn parse_trainer_and_no_chr() {
    let raw = image(2, 0, 0x04);
    let ines = parse_ines(&raw).unwrap().unwrap();
    assert_eq!(ines.trainer.as_ref().unwrap().len(), 512);
    assert!(ines.trainer.unwrap().iter().all(|&b| b == 0x77));
    assert_eq!(ines.prg_rom.len(), 32768);
    assert!(ines.prg_rom.iter().all(|&b| b == 0x11));
    assert!(ines.chr_rom.is_none());
}

#[test]
fn parse_mapper_and_submapper_bytes() {
    // The low byte of the mapper number is flags 6's high nibble masked
    // with flags 7's high nibble, which is always zero; byte 8 gives the
    // high bits and the submapper.
    let mut raw = header(1, 0, 0x10, 0x10, 0x52, 0);
    raw.extend(std::iter::repeat(0).take(16384));
    let ines = parse_ines(&raw).unwrap().unwrap();
    assert_eq!(ines.mapper, 0x200);
    assert_eq!(ines.submapper, 5);
}

#[test]
fn parse_nes2_chr_size() {
    // NES 2.0: the high nibble of byte 9 is ORed into the CHR size.
    let mut raw = header(1, 0, 0, 0x08, 0, 0x10);
    raw.extend(std::iter::repeat(0).take(16384 + 16 * 8192));
    let ines = parse_ines(&raw).unwrap().unwrap();
    assert_eq!(ines.chr_rom.unwrap().len(), 16 * 8192);
}

#[test]
fn parse_without_magic_is_none() {
    let mut raw = image(1, 1, 0);
    raw[3] = 0;
    assert!(matches!(parse_ines(&raw), Ok(None)));
}

#[test]
fn parse_truncated_image_faults() {
    let mut raw = image(1, 1, 0);
    raw.truncate(16 + 16384 + 100);
    assert!(matches!(parse_ines(&raw), Err(Fault::OutOfBounds)));
    assert!(matches!(parse_ines(&[0x4e, 0x45]), Err(Fault::OutOfBounds)));
    assert!(matches!(parse_ines(&raw[..12]), Err(Fault::OutOfBounds)));
}

fn mapper0(prg_len: usize) -> Cartridge {
    let prg_rom: Vec<u8> = (0..prg_len).map(|i| (i % 251) as u8).collect();
    generate_mapper(INes { prg_rom, mapper: 0, submapper: 0, trainer: None, chr_rom: Some(vec![0; 8192]) })
}

#[test]
fn mapper0_mirrors_16k_rom() {
    let mut m = mapper0(16384);
    for i in [0usize, 1, 0x1234, 0x3fff] {
        assert_eq!(m.get(0x8000 + i), m.get(0xc000 + i));
    }
    assert_eq!(m.get(0x8005), Ok(5));
}

#[test]
fn mapper0_32k_rom_is_not_mirrored() {
    let mut m = mapper0(32768);
    assert_eq!(m.get(0xc000), Ok((0x4000 % 251) as u8));
    assert_eq!(m.get(0x8000), Ok(0));
}

#[test]
fn mapper0_ram_and_name_tables() {
    let mut m = mapper0(16384);
    m.set(0x6010, 0xaa).unwrap();
    assert_eq!(m.get(0x6010), Ok(0xaa));
    // PRG RAM is 2 kB, mirrored.
    assert_eq!(m.get(0x6810), Ok(0xaa));
    m.ppu_set(0x2005, 0x44).unwrap();
    assert_eq!(m.ppu_get(0x2005), Ok(0x44));
    // 0x3000 and up mirror 0x2000.
    assert_eq!(m.ppu_get(0x3005), Ok(0x44));
    // The second kilobyte pair past 2 kB has no RAM behind it.
    assert_eq!(m.ppu_get(0x2800), Err(Fault::OutOfBounds));
    // Outside the mapped ranges reads give 0.
    assert_eq!(m.get(0x5000), Ok(0));
    assert_eq!(m.ppu_get(0x3f00), Ok(0));
}

#[test]
fn mapper0_chr_round_trip() {
    let mut m = mapper0(16384);
    m.ppu_set(0x0123, 0x5c).unwrap();
    assert_eq!(m.ppu_get(0x0123), Ok(0x5c));
}

fn mapper1() -> Cartridge {
    let prg_rom: Vec<u8> = (0..8 * 16384).map(|i| (i / 16384) as u8).collect();
    generate_mapper(INes { prg_rom, mapper: 1, submapper: 0, trainer: None, chr_rom: None })
}

fn serial_write(m: &mut Cartridge, loc: usize, value: u8) {
    for i in 0..5 {
        m.set(loc, (value >> i) & 1).unwrap();
    }
}

#[test]
fn mapper1_fixes_last_bank_at_c000() {
    let mut m = mapper1();
    // Control 0x0c: switch 16 kB at 0x8000, last bank fixed at 0xc000.
    assert_eq!(m.get(0xc000), Ok(7));
    assert_eq!(m.get(0x8000), Ok(0));
}

#[test]
fn mapper1_serial_load_selects_prg_bank() {
    let mut m = mapper1();
    serial_write(&mut m, 0xe000, 5);
    match &m {
        Cartridge::Mapper1(v) => {
            assert_eq!(v.prg_bank, 5);
            assert_eq!(v.shift_reg, 0);
            assert_eq!(v.shift_reg_count, 0);
        },
        _ => panic!("expected mapper 1"),
    }
    assert_eq!(m.get(0x8000), Ok(5));
    assert_eq!(m.get(0xffff), Ok(7));
}

#[test]
fn mapper1_reset_write_clears_shift_register() {
    let mut m = mapper1();
    m.set(0x8000, 1).unwrap();
    m.set(0x8000, 1).unwrap();
    m.set(0x8000, 0x80).unwrap();
    match &m {
        Cartridge::Mapper1(v) => {
            assert_eq!(v.shift_reg, 0);
            assert_eq!(v.shift_reg_count, 0);
            assert_eq!(v.control, 0x0c);
        },
        _ => panic!("expected mapper 1"),
    }
}

#[test]
fn mapper1_32k_mode_and_control() {
    let mut m = mapper1();
    // Control 0x00: one 32 kB bank, one-screen name tables.
    serial_write(&mut m, 0x8000, 0x00);
    serial_write(&mut m, 0xe000, 0x03);
    // Bank number 3 with its low bit dropped: 16 kB banks 2 and 3.
    assert_eq!(m.get(0x8000), Ok(2));
    assert_eq!(m.get(0xc000), Ok(3));
}

#[test]
fn mapper1_name_table_mirroring() {
    let mut m = mapper1();
    // Control 0x03: horizontal mirroring.
    serial_write(&mut m, 0x8000, 0x03);
    m.ppu_set(0x2001, 0x99).unwrap();
    assert_eq!(m.ppu_get(0x2401), Ok(0x99));
    assert_eq!(m.ppu_get(0x2801), Ok(0));
    // Control 0x02: vertical mirroring.
    serial_write(&mut m, 0x8000, 0x02);
    assert_eq!(m.ppu_get(0x2801), Ok(0x99));
}

#[test]
fn mapper1_prg_ram() {
    let mut m = mapper1();
    m.set(0x7fff, 0x31).unwrap();
    assert_eq!(m.get(0x7fff), Ok(0x31));
}

#[test]
fn try_generate_mapper_checks_the_image() {
    let ok = INes { prg_rom: vec![0; 32768], mapper: 0, submapper: 0, trainer: None, chr_rom: Some(vec![0; 8192]) };
    assert!(try_generate_mapper(ok).is_some());
    let bad_prg = INes { prg_rom: vec![0; 8192], mapper: 0, submapper: 0, trainer: None, chr_rom: Some(vec![0; 8192]) };
    assert!(try_generate_mapper(bad_prg).is_none());
    let no_chr = INes { prg_rom: vec![0; 16384], mapper: 0, submapper: 0, trainer: None, chr_rom: None };
    assert!(try_generate_mapper(no_chr).is_none());
    let mmc1 = INes { prg_rom: vec![0; 16384], mapper: 1, submapper: 0, trainer: None, chr_rom: None };
    assert!(matches!(try_generate_mapper(mmc1), Some(Cartridge::Mapper1(_))));
    let other = INes { prg_rom: vec![0; 16384], mapper: 4, submapper: 0, trainer: None, chr_rom: None };
    assert!(try_generate_mapper(other).is_none());
}

#[test]
fn mapper1_serial_load_register_from_fifth_address() {
    let mut m = mapper1();
    // The first four writes go to the control range; the fifth picks the
    // PRG bank register.
    for (i, loc) in [0x8000usize, 0xa000, 0xc000, 0x9fff].iter().enumerate() {
        m.set(*loc, (6u8 >> i) & 1).unwrap();
    }
    m.set(0xe000, 0).unwrap();
    match &m {
        Cartridge::Mapper1(v) => {
            assert_eq!(v.prg_bank, 6);
            assert_eq!(v.control, 0x0c);
        },
        _ => panic!("expected mapper 1"),
    }
}

#[test]
fn mapper1_first_bank_fixed_mode() {
    let mut m = mapper1();
    // Control 0x08: first bank fixed at 0x8000, selected bank at 0xc000.
    serial_write(&mut m, 0x8000, 0x08);
    serial_write(&mut m, 0xe000, 0x04);
    assert_eq!(m.get(0x8000), Ok(0));
    assert_eq!(m.get(0xc000), Ok(4));
    assert_eq!(m.get(0xffff), Ok(4));
}

#[test]
fn mapper1_chr_and_name_tables_stay_in_range() {
    let mut m = mapper1();
    // 4 kB CHR mode with the highest banks.
    serial_write(&mut m, 0x8000, 0x1f);
    serial_write(&mut m, 0xa000, 0x1f);
    serial_write(&mut m, 0xc000, 0x1f);
    m.ppu_set(0x1fff, 0x5a).unwrap();
    assert_eq!(m.ppu_get(0x1fff), Ok(0x5a));
    assert_eq!(m.ppu_get(0x0fff), Ok(0x5a));
    m.ppu_set(0x3eff, 0x33).unwrap();
    assert_eq!(m.ppu_get(0x3eff), Ok(0x33));
}
