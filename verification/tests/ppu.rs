use rnes::mapper::{generate_mapper, Cartridge};
use rnes::parse_ines::INes;
use rnes::ppu::oam::Oam;
use rnes::ppu::palette::{Colour, PaletteRam, Rgb};
use rnes::ppu::{Ppu, RgbFrame, VramAddr};

fn mapper0_cartridge() -> Cartridge {
    let ines = INes {
        prg_rom: vec![0; 16 * 1024],
        mapper: 0,
        submapper: 0,
        trainer: None,
        chr_rom: Some(vec![0; 8 * 1024]),
    };
    generate_mapper(ines)
}

#[test]
fn test_vram_x_incr_1() {
    let vram = VramAddr(0x1062);
    let vram = vram.x_course_increment();
    assert_eq!(vram.0, 0x1063);
}

#[test]
fn test_vram_x_incr_2() {
    let vram = VramAddr(0x05ff);
    let vram = vram.x_course_increment();
    assert_eq!(vram.0, 0x01e0);
}

#[test]
fn test_vram_y_incr_1() {
    let vram = VramAddr(0x73a2);
    let vram = vram.y_increment();
    assert_eq!(vram.0, 0x0802);
}

#[test]
fn test_vram_y_incr_2() {
    let vram = VramAddr(0x7002);
    let vram = vram.y_increment();
    assert_eq!(vram.0, 0x0022);
}

#[test]
fn test_vram_y_incr_3() {
    let vram = VramAddr(0x0802);
    let vram = vram.y_increment();
    assert_eq!(vram.0, 0x1802);
}

#[test]
fn x_increment_wraps_across_name_tables() {
    // Coarse X 31 of the left table goes to coarse X 0 of the right one.
    assert_eq!(VramAddr(0x001f).x_course_increment().0, 0x0400);
    // Fine Y and coarse Y are kept.
    assert_eq!(VramAddr(0x73ff).x_course_increment().0, 0x77e0);
    // Coarse X 31 of the right table wraps back to the left one.
    assert_eq!(VramAddr(0x041f).x_course_increment().0, 0x0000);
}

#[test]
fn y_increment_coarse_y_31_wraps_without_switching() {
    // Fine Y 7, coarse Y 31: both wrap to 0 and the name table stays.
    assert_eq!(VramAddr(0x73e0).y_increment().0, 0x0000);
    assert_eq!(VramAddr(0x7be0).y_increment().0, 0x0800);
    // Coarse Y 30 moves on to 31.
    assert_eq!(VramAddr(0x73c0).y_increment().0, 0x03e0);
    // Coarse Y 29 wraps and switches the name table.
    assert_eq!(VramAddr(0x7ba0).y_increment().0, 0x0000);
}

#[test]
fn y_increment_fine_y_below_seven() {
    assert_eq!(VramAddr(0x0000).y_increment().0, 0x1000);
    assert_eq!(VramAddr(0x601f).y_increment().0, 0x701f);
}

#[test]
fn set_x_and_set_y_write_scroll_bits() {
    // Coarse X from the top five bits of the scroll value.
    assert_eq!(VramAddr(0).set_x(0xff).0, 0x001f);
    // Coarse Y from the top five bits, fine Y from the low three.
    assert_eq!(VramAddr(0).set_y(0x5e).0, 0x6160);
    // Past 240 the vertical name table is selected.
    assert_eq!(VramAddr(0).set_y(0xff).0, 0x7820);
}

#[test]
fn set_raw_copies_horizontal_and_vertical_bits() {
    let v = VramAddr(0x0000);
    let t = VramAddr(0x7fff);
    assert_eq!(v.set_x_raw(t).0, 0x041f);
    assert_eq!(v.set_y_raw(t).0, 0x7be0);
}

#[test]
fn ppuaddr_then_ppudata_reads_are_buffered() {
    let mut mapper = mapper0_cartridge();
    let mut ppu = Ppu::new();
    // Write 0xab and 0xcd at 0x2000 and 0x2001 through PPUDATA.
    ppu.set_reg(&mut mapper, 6, 0x20).unwrap();
    ppu.set_reg(&mut mapper, 6, 0x00).unwrap();
    assert_eq!(ppu.v_reg.0, 0x2000);
    ppu.set_reg(&mut mapper, 7, 0xab).unwrap();
    ppu.set_reg(&mut mapper, 7, 0xcd).unwrap();
    assert_eq!(ppu.v_reg.0, 0x2002);
    // Read them back: the first read gives the stale buffer.
    ppu.set_reg(&mut mapper, 6, 0x20).unwrap();
    ppu.set_reg(&mut mapper, 6, 0x00).unwrap();
    assert_eq!(ppu.get_reg(&mut mapper, 7).unwrap(), 0);
    assert_eq!(ppu.get_reg(&mut mapper, 7).unwrap(), 0xab);
    assert_eq!(ppu.get_reg(&mut mapper, 7).unwrap(), 0xcd);
}

#[test]
fn ppudata_increment_by_32_with_ctrl_bit() {
    let mut mapper = mapper0_cartridge();
    let mut ppu = Ppu::new();
    ppu.set_reg(&mut mapper, 0, 0x04).unwrap();
    ppu.set_reg(&mut mapper, 6, 0x21).unwrap();
    ppu.set_reg(&mut mapper, 6, 0x00).unwrap();
    ppu.set_reg(&mut mapper, 7, 1).unwrap();
    assert_eq!(ppu.v_reg.0, 0x2120);
}

#[test]
fn ppuaddr_keeps_six_bits_of_high_byte() {
    let mut mapper = mapper0_cartridge();
    let mut ppu = Ppu::new();
    ppu.set_reg(&mut mapper, 6, 0xff).unwrap();
    ppu.set_reg(&mut mapper, 6, 0x34).unwrap();
    assert_eq!(ppu.v_reg.0, 0x3f34);
    assert_eq!(ppu.t_reg.0, 0x3f34);
    assert!(!ppu.write_toggle);
}

#[test]
fn ppuscroll_sets_fine_x_and_t() {
    let mut mapper = mapper0_cartridge();
    let mut ppu = Ppu::new();
    ppu.set_reg(&mut mapper, 5, 0x7d).unwrap();
    assert_eq!(ppu.x_fine_reg, 5);
    assert!(ppu.write_toggle);
    ppu.set_reg(&mut mapper, 5, 0x5e).unwrap();
    assert!(!ppu.write_toggle);
    assert_eq!(ppu.t_reg.0, 0x616f);
}

#[test]
fn status_read_resets_write_toggle() {
    let mut mapper = mapper0_cartridge();
    let mut ppu = Ppu::new();
    ppu.ppu_status = 0x80;
    ppu.set_reg(&mut mapper, 5, 0x10).unwrap();
    assert!(ppu.write_toggle);
    assert_eq!(ppu.get_reg(&mut mapper, 2).unwrap(), 0x80);
    assert!(!ppu.write_toggle);
}

#[test]
fn ppuctrl_selects_name_table_in_t() {
    let mut mapper = mapper0_cartridge();
    let mut ppu = Ppu::new();
    ppu.set_reg(&mut mapper, 0, 0x03).unwrap();
    assert_eq!(ppu.t_reg.0, 0x0c00);
}

#[test]
fn nmi_request_needs_vblank_and_enable() {
    let mut ppu = Ppu::new();
    assert!(!ppu.nmi_request());
    ppu.ppu_status = 0x80;
    assert!(!ppu.nmi_request());
    ppu.ppu_ctrl = 0x80;
    assert!(ppu.nmi_request());
}

#[test]
fn oamaddr_and_oamdata() {
    let mut mapper = mapper0_cartridge();
    let mut ppu = Ppu::new();
    ppu.set_reg(&mut mapper, 3, 0x05).unwrap();
    ppu.set_reg(&mut mapper, 4, 0x99).unwrap();
    assert_eq!(ppu.oam_addr, 6);
    ppu.set_reg(&mut mapper, 3, 0x05).unwrap();
    assert_eq!(ppu.get_reg(&mut mapper, 4).unwrap(), 0x99);
}

#[test]
fn palette_through_ppudata() {
    let mut mapper = mapper0_cartridge();
    let mut ppu = Ppu::new();
    ppu.set_reg(&mut mapper, 6, 0x3f).unwrap();
    ppu.set_reg(&mut mapper, 6, 0x10).unwrap();
    ppu.set_reg(&mut mapper, 7, 0x21).unwrap();
    // 0x3f10 is the transparent entry of palette 0, shared with 0x3f00.
    assert_eq!(ppu.palette_ram.get(0x00), 0x21);
    assert_eq!(ppu.palette_ram.get(0x10), 0x21);
}

#[test]
fn palette_read_after_write() {
    let mut p = PaletteRam::new();
    p.set(0x05, 0x11);
    p.set(0x15, 0x22);
    assert_eq!(p.get(0x05), 0x11);
    assert_eq!(p.get(0x15), 0x22);
    p.set(0x04, 0x33);
    assert_eq!(p.get(0x14), 0x33);
    assert_eq!(p.get(0x05), 0x11);
}

#[test]
fn palette_lookup_colours() {
    let mut p = PaletteRam::new();
    p.set(0x01, 0x01);
    p.set(0x11, 0x30);
    assert!(matches!(p.rgb_lookup(0, 0, false), Ok(Colour::Transparent)));
    match p.rgb_lookup(0, 1, false) {
        Ok(Colour::Rgb(Rgb(r, g, b))) => assert_eq!((r, g, b), (0x00, 0x14, 0x8f)),
        _ => panic!("expected a colour"),
    }
    match p.rgb_lookup(0, 1, true) {
        Ok(Colour::Rgb(Rgb(r, g, b))) => assert_eq!((r, g, b), (0xff, 0xff, 0xff)),
        _ => panic!("expected a colour"),
    }
}

#[test]
fn palette_value_out_of_range_faults() {
    let mut p = PaletteRam::new();
    p.set(0x01, 0x40);
    assert!(matches!(p.rgb_lookup(0, 1, false), Err(rnes::system::Fault::OutOfBounds)));
    p.set(0x00, 0x40);
    assert!(matches!(p.background_colour(), Err(rnes::system::Fault::OutOfBounds)));
}

#[test]
fn background_colour_is_palette_zero_entry_zero() {
    let mut p = PaletteRam::new();
    p.set(0x00, 0x0f);
    let c = p.background_colour().unwrap();
    assert_eq!((c.0, c.1, c.2), (0, 0, 0));
}

#[test]
fn oam_read_after_write_masks_attributes() {
    let mut oam = Oam::new();
    oam.write(0x02, 0xff);
    assert_eq!(oam.read(0x02), 0xe3);
    oam.write(0x100, 0x42);
    assert_eq!(oam.read(0x00), 0x42);
    assert_eq!(oam.read(0x03), 0);
}

#[test]
fn secondary_oam_holds_eight_sprites() {
    let mut oam = Oam::new();
    // Ten sprites on scanline 20.
    for i in 0..10 {
        oam.write(i * 4, 16);
    }
    // Move the others out of the way.
    for i in 10..64 {
        oam.write(i * 4, 100);
    }
    oam.clear_secondary_oam();
    assert_eq!(oam.populate_secondary_oam(20).unwrap(), true);
    oam.clear_secondary_oam();
    assert_eq!(oam.populate_secondary_oam(40).unwrap(), false);
}

#[test]
fn sprite_at_bottom_overflows() {
    let mut oam = Oam::new();
    oam.write(0, 0xfc);
    assert!(matches!(oam.populate_secondary_oam(0xfd), Err(rnes::system::Fault::Overflow)));
}

#[test]
fn rgb_frame_chunks_and_bytes() {
    let mut frame = RgbFrame::new();
    assert_eq!(frame.to_rgb_frame().len(), 256 * 240 * 4);
    let chunk = [Rgb(1, 2, 3); 8];
    frame.write_chunk(1, 2, chunk);
    let bytes = frame.to_rgb_frame();
    assert_eq!(bytes.len(), 256 * 240 * 4);
    let i = (256 + 16) * 4;
    assert_eq!(&bytes[i..i + 4], &[1, 2, 3, 0xff]);
    assert_eq!(&bytes[i - 4..i], &[0, 0, 0, 0xff]);
    assert_eq!(&bytes[i + 32..i + 36], &[0, 0, 0, 0xff]);
}

#[test]
fn colour_combination_prefers_opaque() {
    let bg = Colour::Rgb(Rgb(1, 1, 1));
    assert!(matches!(Colour::Transparent.combine(bg), Colour::Rgb(Rgb(1, 1, 1))));
    assert!(matches!(bg.combine(Colour::Transparent), Colour::Rgb(Rgb(1, 1, 1))));
}

fn cartridge_with_chr(chr: Vec<u8>) -> Cartridge {
    let ines = INes { prg_rom: vec![0; 16 * 1024], mapper: 0, submapper: 0, trainer: None, chr_rom: Some(chr) };
    generate_mapper(ines)
}

#[test]
fn sprite_chunk_drawn_from_pattern() {
    let mut chr = vec![0; 8 * 1024];
    // Tile 1, row 0: the leftmost pixel has colour 1.
    chr[16] = 0x80;
    let mut mapper = cartridge_with_chr(chr);
    let mut palette = PaletteRam::new();
    palette.set(0x11, 0x30);
    let mut oam = Oam::new();
    for i in 1..64 {
        oam.write(i * 4, 200);
    }
    oam.write(0, 10);
    oam.write(1, 1);
    oam.write(2, 0);
    oam.write(3, 16);
    oam.clear_secondary_oam();
    assert_eq!(oam.populate_secondary_oam(10).unwrap(), false);
    let chunk = oam.draw_chunk(&mut mapper, &palette, false, 10, 2).unwrap();
    assert!(matches!(chunk[0], Colour::Sprite(Rgb(0xff, 0xff, 0xff), true, false)));
    for px in &chunk[1..] {
        assert!(matches!(px, Colour::Transparent));
    }
    // Flipped horizontally the pixel moves to the right end.
    oam.write(2, 0x40);
    oam.clear_secondary_oam();
    oam.populate_secondary_oam(10).unwrap();
    let chunk = oam.draw_chunk(&mut mapper, &palette, false, 10, 2).unwrap();
    assert!(matches!(chunk[7], Colour::Sprite(Rgb(0xff, 0xff, 0xff), true, false)));
    assert!(matches!(chunk[0], Colour::Transparent));
}

#[test]
fn sprite_off_its_rows_faults() {
    let mut mapper = cartridge_with_chr(vec![0; 8 * 1024]);
    let palette = PaletteRam::new();
    let mut oam = Oam::new();
    oam.write(0, 10);
    oam.populate_secondary_oam(10).unwrap();
    assert!(matches!(
        oam.draw_chunk(&mut mapper, &palette, false, 30, 0),
        Err(rnes::system::Fault::SpriteRow)
    ));
}

#[test]
fn sprite_evaluation_keeps_first_eight_in_order() {
    let mut oam = Oam::new();
    for i in 0..64 {
        oam.write(i * 4, 200);
    }
    // Sprites 3, 5, 7, ..., 21 (ten of them) cover scanline 50.
    for k in 0..10 {
        let i = 3 + 2 * k;
        oam.write(i * 4, 46);
        oam.write(i * 4 + 1, i as u8);
    }
    oam.clear_secondary_oam();
    assert_eq!(oam.populate_secondary_oam(50).unwrap(), true);
    // Exactly eight: no overflow.
    oam.write(19 * 4, 200);
    oam.write(21 * 4, 200);
    oam.clear_secondary_oam();
    assert_eq!(oam.populate_secondary_oam(50).unwrap(), false);
}
