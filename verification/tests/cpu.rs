use rnes::chip::Chip;
use rnes::instructions::execute;
use rnes::mapper::generate_mapper;
use rnes::parse_ines::INes;
use rnes::ppu::Ppu;
use rnes::system::{Cpu, Fault, CARRY, NEGATIVE, OVERFLOW, ZERO};

/// A CPU on a 16 kB mapper 0 cartridge whose program starts at 0xc000.
fn cpu_with_program(program: &[u8]) -> Cpu {
    let mut prg_rom = vec![0xea; 16 * 1024];
    prg_rom[..program.len()].copy_from_slice(program);
    let ines = INes { prg_rom, mapper: 0, submapper: 0, trainer: None, chr_rom: Some(vec![0; 8 * 1024]) };
    Cpu::new(generate_mapper(ines), Chip::new(), Ppu::new())
}

fn flag(cpu: &Cpu, f: u8) -> bool {
    cpu.registers.sr.contains(f)
}

#[test]
fn reset_state() {
    let cpu = cpu_with_program(&[]);
    assert_eq!(cpu.registers.pc, 0xc000);
    assert_eq!(cpu.registers.sp, 0xfd);
    assert_eq!(cpu.registers.sr.bits(), 0x24);
}

#[test]
fn lda_immediate_sets_flags() {
    let mut cpu = cpu_with_program(&[0xa9, 0x00, 0xa9, 0x80]);
    assert_eq!(cpu.run_step(), Ok(2));
    assert_eq!(cpu.registers.ac, 0);
    assert!(flag(&cpu, ZERO));
    assert!(!flag(&cpu, NEGATIVE));
    assert_eq!(cpu.registers.pc, 0xc002);
    assert_eq!(cpu.run_step(), Ok(2));
    assert_eq!(cpu.registers.ac, 0x80);
    assert!(!flag(&cpu, ZERO));
    assert!(flag(&cpu, NEGATIVE));
}

#[test]
fn adc_signed_overflow() {
    // LDA #$50; ADC #$50: 80 + 80 = 160, a signed overflow without carry.
    let mut cpu = cpu_with_program(&[0xa9, 0x50, 0x69, 0x50]);
    cpu.run_step().unwrap();
    assert_eq!(cpu.run_step(), Ok(2));
    assert_eq!(cpu.registers.ac, 0xa0);
    assert!(flag(&cpu, OVERFLOW));
    assert!(!flag(&cpu, CARRY));
    assert!(flag(&cpu, NEGATIVE));
}

#[test]
fn adc_carry_out_and_in() {
    // SEC; LDA #$ff; ADC #$01: 255 + 1 + 1 = 257.
    let mut cpu = cpu_with_program(&[0x38, 0xa9, 0xff, 0x69, 0x01]);
    cpu.run_step().unwrap();
    cpu.run_step().unwrap();
    cpu.run_step().unwrap();
    assert_eq!(cpu.registers.ac, 0x01);
    assert!(flag(&cpu, CARRY));
    assert!(!flag(&cpu, OVERFLOW));
    assert!(!flag(&cpu, ZERO));
}

#[test]
fn sbc_with_borrow() {
    // SEC; LDA #$50; SBC #$f0: 80 - 240 borrows.
    let mut cpu = cpu_with_program(&[0x38, 0xa9, 0x50, 0xe9, 0xf0]);
    cpu.run_step().unwrap();
    cpu.run_step().unwrap();
    assert_eq!(cpu.run_step(), Ok(2));
    assert_eq!(cpu.registers.ac, 0x60);
    assert!(!flag(&cpu, CARRY));
    assert!(!flag(&cpu, OVERFLOW));
}

#[test]
fn sbc_without_borrow_and_overflow() {
    // SEC; LDA #$50; SBC #$b0: 80 - (-80) = 160 overflows.
    let mut cpu = cpu_with_program(&[0x38, 0xa9, 0x50, 0xe9, 0xb0]);
    cpu.run_step().unwrap();
    cpu.run_step().unwrap();
    cpu.run_step().unwrap();
    assert_eq!(cpu.registers.ac, 0xa0);
    assert!(!flag(&cpu, CARRY));
    assert!(flag(&cpu, OVERFLOW));
    // CLC subtracts one more.
    let mut cpu = cpu_with_program(&[0x18, 0xa9, 0x05, 0xe9, 0x02]);
    cpu.run_step().unwrap();
    cpu.run_step().unwrap();
    cpu.run_step().unwrap();
    assert_eq!(cpu.registers.ac, 0x02);
    assert!(flag(&cpu, CARRY));
}

#[test]
fn push_and_pull_round_trip() {
    // LDA #$42; PHA; LDA #$00; PLA
    let mut cpu = cpu_with_program(&[0xa9, 0x42, 0x48, 0xa9, 0x00, 0x68]);
    cpu.run_step().unwrap();
    assert_eq!(cpu.run_step(), Ok(3));
    assert_eq!(cpu.registers.sp, 0xfc);
    assert_eq!(cpu.ram[0x1fd], 0x42);
    cpu.run_step().unwrap();
    assert!(flag(&cpu, ZERO));
    assert_eq!(cpu.run_step(), Ok(4));
    assert_eq!(cpu.registers.ac, 0x42);
    assert_eq!(cpu.registers.sp, 0xfd);
    assert!(!flag(&cpu, ZERO));
}

#[test]
fn jsr_then_rts_returns_after_call() {
    let mut program = vec![0x20, 0x10, 0xc0];
    program.resize(0x10, 0xea);
    program.push(0x60);
    let mut cpu = cpu_with_program(&program);
    assert_eq!(cpu.run_step(), Ok(6));
    assert_eq!(cpu.registers.pc, 0xc010);
    assert_eq!(cpu.registers.sp, 0xfb);
    assert_eq!(cpu.ram[0x1fd], 0xc0);
    assert_eq!(cpu.ram[0x1fc], 0x02);
    assert_eq!(cpu.run_step(), Ok(6));
    assert_eq!(cpu.registers.pc, 0xc003);
    assert_eq!(cpu.registers.sp, 0xfd);
}

#[test]
fn branch_taken_and_not_taken() {
    // LDA #$00 sets Z; BEQ +4 is taken; BNE +4 is not.
    let mut cpu = cpu_with_program(&[0xa9, 0x00, 0xf0, 0x04, 0xea, 0xea, 0xea, 0xea, 0xd0, 0x04]);
    cpu.run_step().unwrap();
    assert_eq!(cpu.run_step(), Ok(3));
    assert_eq!(cpu.registers.pc, 0xc008);
    assert_eq!(cpu.run_step(), Ok(2));
    assert_eq!(cpu.registers.pc, 0xc00a);
}

#[test]
fn store_and_load_ram() {
    // LDA #$37; STA $0123; LDA #$00; LDA $0123
    let mut cpu = cpu_with_program(&[0xa9, 0x37, 0x8d, 0x23, 0x01, 0xa9, 0x00, 0xad, 0x23, 0x01]);
    cpu.run_step().unwrap();
    assert_eq!(cpu.run_step(), Ok(4));
    assert_eq!(cpu.ram[0x123], 0x37);
    cpu.run_step().unwrap();
    assert_eq!(cpu.run_step(), Ok(4));
    assert_eq!(cpu.registers.ac, 0x37);
}

#[test]
fn transfers_and_increments() {
    // LDA #$ff; TAX; INX
    let mut cpu = cpu_with_program(&[0xa9, 0xff, 0xaa, 0xe8]);
    cpu.run_step().unwrap();
    cpu.run_step().unwrap();
    assert_eq!(cpu.registers.x, 0xff);
    cpu.run_step().unwrap();
    assert_eq!(cpu.registers.x, 0x00);
    assert!(flag(&cpu, ZERO));
}

#[test]
fn compare_sets_carry_when_not_less() {
    // LDA #$10; CMP #$10; CMP #$20
    let mut cpu = cpu_with_program(&[0xa9, 0x10, 0xc9, 0x10, 0xc9, 0x20]);
    cpu.run_step().unwrap();
    cpu.run_step().unwrap();
    assert!(flag(&cpu, CARRY));
    assert!(flag(&cpu, ZERO));
    cpu.run_step().unwrap();
    assert!(!flag(&cpu, CARRY));
    assert!(!flag(&cpu, ZERO));
    assert!(flag(&cpu, NEGATIVE));
}

#[test]
fn jmp_absolute() {
    let mut cpu = cpu_with_program(&[0x4c, 0x34, 0xc1]);
    assert_eq!(cpu.run_step(), Ok(3));
    assert_eq!(cpu.registers.pc, 0xc134);
}

#[test]
fn brk_is_unimplemented() {
    let mut cpu = cpu_with_program(&[0x00]);
    assert_eq!(cpu.run_step(), Err(Fault::Unimplemented(0x00)));
}

#[test]
fn unknown_opcode_is_unimplemented() {
    let mut cpu = cpu_with_program(&[]);
    assert_eq!(execute(&mut cpu, 0x02), Err(Fault::Unimplemented(0x02)));
}

#[test]
fn unmapped_address_faults() {
    // LDA $5000
    let mut cpu = cpu_with_program(&[0xad, 0x00, 0x50]);
    assert_eq!(cpu.run_step(), Err(Fault::Unmapped(0x5000)));
}

#[test]
fn ram_mirror_index_past_two_kilobytes_faults() {
    // LDA $0800: RAM is indexed with twelve address bits into 2 kB.
    let mut cpu = cpu_with_program(&[0xad, 0x00, 0x08]);
    assert_eq!(cpu.run_step(), Err(Fault::OutOfBounds));
}

#[test]
fn stack_underflow_faults() {
    // PLA with an empty stack pointer at 0xff.
    let mut cpu = cpu_with_program(&[0x68]);
    cpu.registers.sp = 0xff;
    assert_eq!(cpu.run_step(), Err(Fault::Overflow));
}

#[test]
fn mmu_reaches_ppu_and_apu() {
    let mut cpu = cpu_with_program(&[]);
    // PPUADDR twice then PPUDATA through the mirrors at 0x2008 and up.
    cpu.mmu_store(0x200e, 0x21).unwrap();
    cpu.mmu_store(0x200e, 0x00).unwrap();
    assert_eq!(cpu.ppu.v_reg.0, 0x2100);
    // APU status register reads the enabled channels.
    cpu.mmu_store(0x4015, 0x01).unwrap();
    assert_eq!(cpu.mmu_load(0x4015), Ok(0x01));
    // The OAM DMA port reads 0.
    assert_eq!(cpu.mmu_load(0x4014), Ok(0));
}

#[test]
fn oam_dma_copies_a_page() {
    let mut cpu = cpu_with_program(&[]);
    for i in 0..256usize {
        cpu.ram[0x200 + i] = i as u8;
    }
    cpu.mmu_store(0x4014, 0x02).unwrap();
    assert_eq!(cpu.ppu.oam.read(0x00), 0x00);
    assert_eq!(cpu.ppu.oam.read(0x01), 0x01);
    assert_eq!(cpu.ppu.oam.read(0x02), 0x02 & 0xe3);
    assert_eq!(cpu.ppu.oam.read(0xff), 0xff);
}

#[test]
fn cartridge_ram_round_trip() {
    let mut cpu = cpu_with_program(&[]);
    cpu.mmu_store(0x6001, 0x5a).unwrap();
    assert_eq!(cpu.mmu_load(0x6001), Ok(0x5a));
}

#[test]
fn adc_post_indexed_through_execute() {
    // ADC ($10),Y with the pointer at 0x10 holding 0x0300 and Y = 2.
    let mut cpu = cpu_with_program(&[0x71, 0x10]);
    cpu.registers.ac = 0x01;
    cpu.registers.y = 0x02;
    cpu.mmu_store(0x0010, 0x00).unwrap();
    cpu.mmu_store(0x0011, 0x03).unwrap();
    cpu.mmu_store(0x0302, 0x41).unwrap();
    assert!(execute(&mut cpu, 0x71).is_ok());
    assert_eq!(cpu.registers.ac, 0x42);
    assert_eq!(cpu.registers.pc, 0xc002);
    assert!(!flag(&cpu, CARRY) && !flag(&cpu, ZERO) && !flag(&cpu, NEGATIVE) && !flag(&cpu, OVERFLOW));
    assert_eq!((cpu.registers.x, cpu.registers.y), (0x00, 0x02));
}

#[test]
fn jmp_indirect_does_not_carry_into_the_pointer_page() {
    // JMP ($02FF): the high byte comes from 0x0200, not 0x0300.
    let mut cpu = cpu_with_program(&[0x6c, 0xff, 0x02]);
    cpu.mmu_store(0x02ff, 0x34).unwrap();
    cpu.mmu_store(0x0200, 0x12).unwrap();
    cpu.mmu_store(0x0300, 0x56).unwrap();
    assert_eq!(cpu.run_step(), Ok(5));
    assert_eq!(cpu.registers.pc, 0x1234);
}

#[test]
fn php_then_plp_restores_status() {
    // SEC; PHP; CLC; PLP
    let mut cpu = cpu_with_program(&[0x38, 0x08, 0x18, 0x28]);
    cpu.run_step().unwrap();
    let sr = cpu.registers.sr.bits();
    assert_eq!(cpu.run_step(), Ok(3));
    assert_eq!(cpu.ram[0x1fd], sr | 0x30);
    cpu.run_step().unwrap();
    assert!(!flag(&cpu, CARRY));
    assert_eq!(cpu.run_step(), Ok(4));
    assert_eq!(cpu.registers.sr.bits(), sr);
    assert_eq!(cpu.registers.sp, 0xfd);
}

#[test]
fn cartridge_reads_through_the_bus() {
    let mut cpu = cpu_with_program(&[0xa9, 0x77]);
    assert_eq!(cpu.mmu_load(0xc001), Ok(0x77));
    assert_eq!(cpu.mmu_load(0x8001), Ok(0x77));
}
