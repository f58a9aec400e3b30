pub mod address_modes;
pub mod dest;
pub mod source;

use vstd::prelude::*;
use crate::system::{
    BusView, lemma_ram_access, lemma_load_keeps_memory, Cpu, CpuView, Fault, Registers, StatusRegister, returned, with_flag, mem_load, mem_store,
    CARRY, ZERO, DECIMAL, INTERRUPT, BREAK, IGNORED, OVERFLOW, NEGATIVE, STANDARD_FLAGS,
    UNUSED_FLAGS,
};
use address_modes::{
    AccessType, AddrMode, Implied, Immediate, Absolute, ZeroPage, IndexedX, IndexedY, ZPIndexedX,
    ZPIndexedY, Indirect, PreIndexed, PostIndexed, Relative, operand,
};
use dest::{Dest, with_registers};
use source::Source;

verus! {

// Building blocks of the instruction semantics.

/// `c` with `flag` of the status register set to `value`.
pub open spec fn set_flag(c: CpuView, flag: u8, value: bool) -> CpuView {
    with_registers(
        c,
        Registers { sr: StatusRegister { bits: with_flag(c.registers.sr.bits, flag, value) }, ..c.registers },
    )
}

/// Zero and negative flags set from `val`.
pub open spec fn set_zn(c: CpuView, val: u8) -> CpuView {
    set_flag(set_flag(c, ZERO, val == 0), NEGATIVE, val & 0x80 != 0)
}

/// Whether `flag` is set in `c`'s status register.
pub open spec fn flag(c: CpuView, flag: u8) -> bool {
    c.registers.sr.bits & flag == flag
}

/// The program counter moved past an instruction of mode `A`.
pub open spec fn bump_pc_spec<A: AddrMode>(c: CpuView) -> Result<CpuView, Fault> {
    if c.registers.pc + A::size_spec() > 0xffff {
        Err(Fault::Overflow)
    } else {
        Ok(with_registers(c, Registers { pc: (c.registers.pc + A::size_spec()) as u16, ..c.registers }))
    }
}

/// A state change outcome without a result value.
pub open spec fn done(r: Result<(), Fault>, c: CpuView) -> Result<CpuView, Fault> {
    match r {
        Ok(_) => Ok(c),
        Err(e) => Err(e),
    }
}

/// Finishes an instruction: the program counter moves past it and it takes
/// `n` cycles.
pub open spec fn finish<A: AddrMode>(c: CpuView, n: u64) -> Result<(CpuView, u64), Fault> {
    match bump_pc_spec::<A>(c) {
        Err(e) => Err(e),
        Ok(c1) => Ok((c1, n)),
    }
}

fn bump_pc<A: AddrMode>(sys: &mut Cpu) -> (r: Result<(), Fault>)
    ensures
        bump_pc_spec::<A>(old(sys)@) == done(r, final(sys)@),
{
    match sys.registers.pc.checked_add(A::size()) {
        Some(pc) => {
            sys.registers.pc = pc;
            Ok(())
        },
        None => Err(Fault::Overflow),
    }
}

fn update_zero_status(sys: &mut Cpu, val: u8)
    ensures
        final(sys)@ == set_flag(old(sys)@, ZERO, val == 0),
{
    sys.registers.sr.set(ZERO, val == 0);
}

fn update_negative_status(sys: &mut Cpu, val: u8)
    ensures
        final(sys)@ == set_flag(old(sys)@, NEGATIVE, val & 0x80 != 0),
{
    sys.registers.sr.set(NEGATIVE, val & 0x80 != 0);
}

fn set_status(sys: &mut Cpu, flag: u8, value: bool)
    ensures
        final(sys)@ == set_flag(old(sys)@, flag, value),
{
    sys.registers.sr.set(flag, value);
}

// No operation

pub open spec fn nop_op(c: CpuView) -> Result<(CpuView, u64), Fault> {
    finish::<Implied>(c, 2)
}

fn nop(sys: &mut Cpu) -> (r: Result<u64, Fault>)
    ensures
        nop_op(old(sys)@) == returned(r, final(sys)@),
{
    bump_pc::<Implied>(sys)?;
    Ok(2)
}

// Transfers

pub open spec fn load_op<A: AddrMode, D: Dest<A>, S: Source<A>>(c: CpuView) -> Result<(CpuView, u64), Fault> {
    match S::get_spec(c, A::initial()) {
        Err(e) => Err(e),
        Ok((c1, a1, val)) => match D::set_spec(c1, a1, val) {
            Err(e) => Err(e),
            Ok((c2, a2)) => finish::<A>(set_zn(c2, val), a2.cycles_spec(AccessType::Read)),
        },
    }
}

fn load<A: AddrMode, D: Dest<A>, S: Source<A>>(sys: &mut Cpu) -> (r: Result<u64, Fault>)
    requires
        A::cycles_ok(AccessType::Read),
    ensures
        load_op::<A, D, S>(old(sys)@) == returned(r, final(sys)@),
{
    let mut addr_mode = A::new();
    let val = S::get(sys, &mut addr_mode)?;
    D::set(sys, &mut addr_mode, val)?;
    update_zero_status(sys, val);
    update_negative_status(sys, val);
    bump_pc::<A>(sys)?;
    Ok(addr_mode.cycles(AccessType::Read))
}

pub open spec fn store_op<A: AddrMode, D: Dest<A>, S: Source<A>>(c: CpuView) -> Result<(CpuView, u64), Fault> {
    match S::get_spec(c, A::initial()) {
        Err(e) => Err(e),
        Ok((c1, a1, val)) => match D::set_spec(c1, a1, val) {
            Err(e) => Err(e),
            Ok((c2, a2)) => finish::<A>(c2, a2.cycles_spec(AccessType::Write)),
        },
    }
}

fn store<A: AddrMode, D: Dest<A>, S: Source<A>>(sys: &mut Cpu) -> (r: Result<u64, Fault>)
    requires
        A::cycles_ok(AccessType::Write),
    ensures
        store_op::<A, D, S>(old(sys)@) == returned(r, final(sys)@),
{
    let mut addr_mode = A::new();
    let val = S::get(sys, &mut addr_mode)?;
    D::set(sys, &mut addr_mode, val)?;
    bump_pc::<A>(sys)?;
    Ok(addr_mode.cycles(AccessType::Write))
}

pub open spec fn trans_op<D: Dest<Immediate>, S: Source<Immediate>>(c: CpuView) -> Result<(CpuView, u64), Fault> {
    match S::get_spec(c, Immediate) {
        Err(e) => Err(e),
        Ok((c1, a1, val)) => match D::set_spec(c1, a1, val) {
            Err(e) => Err(e),
            Ok((c2, a2)) => finish::<Implied>(set_zn(c2, val), 2),
        },
    }
}

fn trans<D: Dest<Immediate>, S: Source<Immediate>>(sys: &mut Cpu) -> (r: Result<u64, Fault>)
    ensures
        trans_op::<D, S>(old(sys)@) == returned(r, final(sys)@),
{
    let mut addr_mode = Immediate::new();
    let val = S::get(sys, &mut addr_mode)?;
    D::set(sys, &mut addr_mode, val)?;
    update_zero_status(sys, val);
    update_negative_status(sys, val);
    bump_pc::<Implied>(sys)?;
    Ok(2)
}

pub open spec fn txs_op(c: CpuView) -> Result<(CpuView, u64), Fault> {
    finish::<Implied>(with_registers(c, Registers { sp: c.registers.x, ..c.registers }), 2)
}

fn txs(sys: &mut Cpu) -> (r: Result<u64, Fault>)
    ensures
        txs_op(old(sys)@) == returned(r, final(sys)@),
{
    sys.registers.sp = sys.registers.x;
    bump_pc::<Implied>(sys)?;
    Ok(2)
}

// Stack

/// Stores `val` at the stack pointer in page one, then moves the stack
/// pointer down. The stack pointer does not wrap below zero.
pub open spec fn push_spec(c: CpuView, val: u8) -> Result<CpuView, Fault> {
    match mem_store(c, (0x0100 + c.registers.sp) as u16, val) {
        Err(e) => Err(e),
        Ok(c1) => if c1.registers.sp == 0 {
            Err(Fault::Overflow)
        } else {
            Ok(with_registers(c1, Registers { sp: (c1.registers.sp - 1) as u8, ..c1.registers }))
        },
    }
}

fn push_raw(sys: &mut Cpu, val: u8) -> (r: Result<(), Fault>)
    ensures
        push_spec(old(sys)@, val) == done(r, final(sys)@),
{
    let sp = sys.registers.sp as u16;
    sys.mmu_store(0x0100 + sp, val)?;
    if sys.registers.sp == 0 {
        return Err(Fault::Overflow);
    }
    sys.registers.sp = sys.registers.sp - 1;
    Ok(())
}

/// Moves the stack pointer up, then loads the byte it points at in page one.
/// The stack pointer does not wrap above 0xff.
pub open spec fn pull_spec(c: CpuView) -> Result<(CpuView, u8), Fault> {
    if c.registers.sp == 0xff {
        Err(Fault::Overflow)
    } else {
        let c1 = with_registers(c, Registers { sp: (c.registers.sp + 1) as u8, ..c.registers });
        mem_load(c1, (0x0100 + c1.registers.sp) as u16)
    }
}

fn pull_raw(sys: &mut Cpu) -> (r: Result<u8, Fault>)
    ensures
        pull_spec(old(sys)@) == returned(r, final(sys)@),
{
    if sys.registers.sp == 0xff {
        return Err(Fault::Overflow);
    }
    sys.registers.sp = sys.registers.sp + 1;
    sys.mmu_load(0x0100 + sys.registers.sp as u16)
}

pub open spec fn php_op(c: CpuView) -> Result<(CpuView, u64), Fault> {
    match push_spec(c, c.registers.sr.bits | BREAK | IGNORED) {
        Err(e) => Err(e),
        Ok(c1) => finish::<Implied>(c1, 3),
    }
}

fn php(sys: &mut Cpu) -> (r: Result<u64, Fault>)
    ensures
        php_op(old(sys)@) == returned(r, final(sys)@),
{
    let p = sys.registers.sr.bits() | BREAK | IGNORED;
    push_raw(sys, p)?;
    bump_pc::<Implied>(sys)?;
    Ok(3)
}

pub open spec fn pha_op(c: CpuView) -> Result<(CpuView, u64), Fault> {
    match push_spec(c, c.registers.ac) {
        Err(e) => Err(e),
        Ok(c1) => finish::<Implied>(c1, 3),
    }
}

fn pha(sys: &mut Cpu) -> (r: Result<u64, Fault>)
    ensures
        pha_op(old(sys)@) == returned(r, final(sys)@),
{
    let ac = sys.registers.ac;
    push_raw(sys, ac)?;
    bump_pc::<Implied>(sys)?;
    Ok(3)
}

pub open spec fn pla_op(c: CpuView) -> Result<(CpuView, u64), Fault> {
    match pull_spec(c) {
        Err(e) => Err(e),
        Ok((c1, val)) => {
            let c2 = set_zn(c1, val);
            finish::<Implied>(with_registers(c2, Registers { ac: val, ..c2.registers }), 4)
        },
    }
}

fn pla(sys: &mut Cpu) -> (r: Result<u64, Fault>)
    ensures
        pla_op(old(sys)@) == returned(r, final(sys)@),
{
    let val = pull_raw(sys)?;
    update_zero_status(sys, val);
    update_negative_status(sys, val);
    sys.registers.ac = val;
    bump_pc::<Implied>(sys)?;
    Ok(4)
}

/// The status register after pulling `val`: the flags it really holds come
/// from `val`, the two stack-only bits stay as they were.
pub open spec fn pulled_status(val: u8, sr: u8) -> u8 {
    val & STANDARD_FLAGS | sr & UNUSED_FLAGS
}

pub open spec fn plp_op(c: CpuView) -> Result<(CpuView, u64), Fault> {
    match pull_spec(c) {
        Err(e) => Err(e),
        Ok((c1, val)) => finish::<Implied>(
            with_registers(
                c1,
                Registers { sr: StatusRegister { bits: pulled_status(val, c1.registers.sr.bits) }, ..c1.registers },
            ),
            4,
        ),
    }
}

fn plp(sys: &mut Cpu) -> (r: Result<u64, Fault>)
    ensures
        plp_op(old(sys)@) == returned(r, final(sys)@),
{
    let val = pull_raw(sys)?;
    let sr = sys.registers.sr.bits();
    sys.registers.sr = StatusRegister::from_bits_retain(val & STANDARD_FLAGS | sr & UNUSED_FLAGS);
    bump_pc::<Implied>(sys)?;
    Ok(4)
}

// Increments and decrements

/// Read, transform with `f`, set zero and negative, write back.
pub open spec fn modify_op<A: AddrMode, D: Dest<A>, S: Source<A>>(c: CpuView, f: spec_fn(u8) -> u8) -> Result<(CpuView, u64), Fault> {
    match S::get_spec(c, A::initial()) {
        Err(e) => Err(e),
        Ok((c1, a1, val)) => match D::set_spec(set_zn(c1, f(val)), a1, f(val)) {
            Err(e) => Err(e),
            Ok((c2, a2)) => finish::<A>(c2, a2.cycles_spec(AccessType::ReadModifyWrite)),
        },
    }
}

pub open spec fn incr_op<A: AddrMode, D: Dest<A>, S: Source<A>>(c: CpuView) -> Result<(CpuView, u64), Fault> {
    modify_op::<A, D, S>(c, |v: u8| v.wrapping_add(1))
}

fn incr<A: AddrMode, D: Dest<A>, S: Source<A>>(sys: &mut Cpu) -> (r: Result<u64, Fault>)
    requires
        A::cycles_ok(AccessType::ReadModifyWrite),
    ensures
        incr_op::<A, D, S>(old(sys)@) == returned(r, final(sys)@),
{
    let mut addr_mode = A::new();
    let result = S::get(sys, &mut addr_mode)?.wrapping_add(1);
    update_zero_status(sys, result);
    update_negative_status(sys, result);
    D::set(sys, &mut addr_mode, result)?;
    bump_pc::<A>(sys)?;
    Ok(addr_mode.cycles(AccessType::ReadModifyWrite))
}

pub open spec fn decr_op<A: AddrMode, D: Dest<A>, S: Source<A>>(c: CpuView) -> Result<(CpuView, u64), Fault> {
    modify_op::<A, D, S>(c, |v: u8| v.wrapping_sub(1))
}

fn decr<A: AddrMode, D: Dest<A>, S: Source<A>>(sys: &mut Cpu) -> (r: Result<u64, Fault>)
    requires
        A::cycles_ok(AccessType::ReadModifyWrite),
    ensures
        decr_op::<A, D, S>(old(sys)@) == returned(r, final(sys)@),
{
    let mut addr_mode = A::new();
    let result = S::get(sys, &mut addr_mode)?.wrapping_sub(1);
    update_zero_status(sys, result);
    update_negative_status(sys, result);
    D::set(sys, &mut addr_mode, result)?;
    bump_pc::<A>(sys)?;
    Ok(addr_mode.cycles(AccessType::ReadModifyWrite))
}

// Arithmetic

/// The accumulator plus `val` plus the carry, as a nine-bit sum.
pub open spec fn adc_total(ac: u8, val: u8, carry: bool) -> u16 {
    (ac + val + if carry { 1int } else { 0int }) as u16
}

/// The accumulator minus `val` minus the borrow (a clear carry).
pub open spec fn sbc_total(ac: u8, val: u8, carry: bool) -> i16 {
    (ac - val - if carry { 0int } else { 1int }) as i16
}

/// The registers after an addition or subtraction whose wide result is
/// `total`, with carry `c_out` and overflow `v_out`.
pub open spec fn arith_result(c: CpuView, total8: u8, c_out: bool, v_out: bool) -> CpuView {
    let c2 = set_zn(set_flag(set_flag(c, CARRY, c_out), OVERFLOW, v_out), total8);
    with_registers(c2, Registers { ac: total8, ..c2.registers })
}

pub open spec fn adc_op<A: AddrMode, S: Source<A>>(c: CpuView) -> Result<(CpuView, u64), Fault> {
    match S::get_spec(c, A::initial()) {
        Err(e) => Err(e),
        Ok((c1, a1, v)) => {
            let val = v as u16;
            let ac = c1.registers.ac as u16;
            let total = adc_total(c1.registers.ac, v, flag(c1, CARRY));
            let overflow = (total ^ ac) & (total ^ val) & 0x80 != 0;
            finish::<A>(
                arith_result(c1, total as u8, total & 0x100 != 0, overflow),
                a1.cycles_spec(AccessType::Read),
            )
        },
    }
}

fn adc<A: AddrMode, S: Source<A>>(sys: &mut Cpu) -> (r: Result<u64, Fault>)
    requires
        A::cycles_ok(AccessType::Read),
    ensures
        adc_op::<A, S>(old(sys)@) == returned(r, final(sys)@),
{
    let mut addr_mode = A::new();
    let val = S::get(sys, &mut addr_mode)? as u16;
    let carry = sys.registers.sr.contains(CARRY) as u16;
    let ac = sys.registers.ac as u16;
    let total = ac + val + carry;
    let overflow = (total ^ ac) & (total ^ val) & 0x80 != 0;
    set_status(sys, CARRY, total & 0x100 != 0);
    set_status(sys, OVERFLOW, overflow);
    update_zero_status(sys, total as u8);
    update_negative_status(sys, total as u8);
    sys.registers.ac = total as u8;
    bump_pc::<A>(sys)?;
    Ok(addr_mode.cycles(AccessType::Read))
}

pub open spec fn sbc_op<A: AddrMode, S: Source<A>>(c: CpuView) -> Result<(CpuView, u64), Fault> {
    match S::get_spec(c, A::initial()) {
        Err(e) => Err(e),
        Ok((c1, a1, v)) => {
            let val = v as i16;
            let ac = c1.registers.ac as i16;
            let total = sbc_total(c1.registers.ac, v, flag(c1, CARRY));
            let overflow = (total ^ ac) & (total ^ !val) & 0x80 != 0;
            finish::<A>(
                arith_result(c1, total as u8, total & 0x100 == 0, overflow),
                a1.cycles_spec(AccessType::Read),
            )
        },
    }
}

fn sbc<A: AddrMode, S: Source<A>>(sys: &mut Cpu) -> (r: Result<u64, Fault>)
    requires
        A::cycles_ok(AccessType::Read),
    ensures
        sbc_op::<A, S>(old(sys)@) == returned(r, final(sys)@),
{
    let mut addr_mode = A::new();
    let val = S::get(sys, &mut addr_mode)? as i16;
    let carry = !sys.registers.sr.contains(CARRY) as i16;
    let ac = sys.registers.ac as i16;
    let total = ac - val - carry;
    let overflow = (total ^ ac) & (total ^ !val) & 0x80 != 0;
    set_status(sys, CARRY, total & 0x100 == 0);
    set_status(sys, OVERFLOW, overflow);
    update_zero_status(sys, total as u8);
    update_negative_status(sys, total as u8);
    sys.registers.ac = total as u8;
    bump_pc::<A>(sys)?;
    Ok(addr_mode.cycles(AccessType::Read))
}

// Logical operations

/// Combine the operand with the accumulator by `f`, set zero and negative,
/// write the result.
pub open spec fn logic_op<A: AddrMode, D: Dest<A>, S: Source<A>>(c: CpuView, f: spec_fn(u8, u8) -> u8) -> Result<(CpuView, u64), Fault> {
    match S::get_spec(c, A::initial()) {
        Err(e) => Err(e),
        Ok((c1, a1, val)) => {
            let result = f(val, c1.registers.ac);
            match D::set_spec(set_zn(c1, result), a1, result) {
                Err(e) => Err(e),
                Ok((c2, a2)) => finish::<A>(c2, a2.cycles_spec(AccessType::Read)),
            }
        },
    }
}

pub open spec fn and_op<A: AddrMode, D: Dest<A>, S: Source<A>>(c: CpuView) -> Result<(CpuView, u64), Fault> {
    logic_op::<A, D, S>(c, |v: u8, ac: u8| v & ac)
}

fn and<A: AddrMode, D: Dest<A>, S: Source<A>>(sys: &mut Cpu) -> (r: Result<u64, Fault>)
    requires
        A::cycles_ok(AccessType::Read),
    ensures
        and_op::<A, D, S>(old(sys)@) == returned(r, final(sys)@),
{
    let mut addr_mode = A::new();
    let val = S::get(sys, &mut addr_mode)?;
    let result = val & sys.registers.ac;
    update_zero_status(sys, result);
    update_negative_status(sys, result);
    D::set(sys, &mut addr_mode, result)?;
    bump_pc::<A>(sys)?;
    Ok(addr_mode.cycles(AccessType::Read))
}

pub open spec fn eor_op<A: AddrMode, D: Dest<A>, S: Source<A>>(c: CpuView) -> Result<(CpuView, u64), Fault> {
    logic_op::<A, D, S>(c, |v: u8, ac: u8| v ^ ac)
}

fn eor<A: AddrMode, D: Dest<A>, S: Source<A>>(sys: &mut Cpu) -> (r: Result<u64, Fault>)
    requires
        A::cycles_ok(AccessType::Read),
    ensures
        eor_op::<A, D, S>(old(sys)@) == returned(r, final(sys)@),
{
    let mut addr_mode = A::new();
    let val = S::get(sys, &mut addr_mode)?;
    let result = val ^ sys.registers.ac;
    update_zero_status(sys, result);
    update_negative_status(sys, result);
    D::set(sys, &mut addr_mode, result)?;
    bump_pc::<A>(sys)?;
    Ok(addr_mode.cycles(AccessType::Read))
}

pub open spec fn or_op<A: AddrMode, D: Dest<A>, S: Source<A>>(c: CpuView) -> Result<(CpuView, u64), Fault> {
    logic_op::<A, D, S>(c, |v: u8, ac: u8| v | ac)
}

fn or<A: AddrMode, D: Dest<A>, S: Source<A>>(sys: &mut Cpu) -> (r: Result<u64, Fault>)
    requires
        A::cycles_ok(AccessType::Read),
    ensures
        or_op::<A, D, S>(old(sys)@) == returned(r, final(sys)@),
{
    let mut addr_mode = A::new();
    let val = S::get(sys, &mut addr_mode)?;
    let result = val | sys.registers.ac;
    update_zero_status(sys, result);
    update_negative_status(sys, result);
    D::set(sys, &mut addr_mode, result)?;
    bump_pc::<A>(sys)?;
    Ok(addr_mode.cycles(AccessType::Read))
}

// Shifts and rotations

/// Shift the operand: `f` gives the result from the operand and the old
/// carry, `carry_out` the new carry from the operand.
pub open spec fn shift_op<A: AddrMode, D: Dest<A>, S: Source<A>>(
    c: CpuView,
    f: spec_fn(u8, bool) -> u8,
    carry_out: spec_fn(u8) -> bool,
) -> Result<(CpuView, u64), Fault> {
    match S::get_spec(c, A::initial()) {
        Err(e) => Err(e),
        Ok((c1, a1, val)) => {
            let result = f(val, flag(c1, CARRY));
            match D::set_spec(set_flag(set_zn(c1, result), CARRY, carry_out(val)), a1, result) {
                Err(e) => Err(e),
                Ok((c2, a2)) => finish::<A>(c2, a2.cycles_spec(AccessType::ReadModifyWrite)),
            }
        },
    }
}

pub open spec fn asl_op<A: AddrMode, D: Dest<A>, S: Source<A>>(c: CpuView) -> Result<(CpuView, u64), Fault> {
    shift_op::<A, D, S>(c, |v: u8, cin: bool| (v << 1u8) as u8, |v: u8| v & 0x80 != 0)
}

fn asl<A: AddrMode, D: Dest<A>, S: Source<A>>(sys: &mut Cpu) -> (r: Result<u64, Fault>)
    requires
        A::cycles_ok(AccessType::ReadModifyWrite),
    ensures
        asl_op::<A, D, S>(old(sys)@) == returned(r, final(sys)@),
{
    let mut addr_mode = A::new();
    let val = S::get(sys, &mut addr_mode)?;
    let result = val << 1u8;
    let carry = val & 0x80 != 0;
    update_zero_status(sys, result);
    update_negative_status(sys, result);
    set_status(sys, CARRY, carry);
    D::set(sys, &mut addr_mode, result as u8)?;
    bump_pc::<A>(sys)?;
    Ok(addr_mode.cycles(AccessType::ReadModifyWrite))
}

pub open spec fn lsr_op<A: AddrMode, D: Dest<A>, S: Source<A>>(c: CpuView) -> Result<(CpuView, u64), Fault> {
    shift_op::<A, D, S>(c, |v: u8, cin: bool| (v >> 1u8) as u8, |v: u8| v & 0x01 != 0)
}

fn lsr<A: AddrMode, D: Dest<A>, S: Source<A>>(sys: &mut Cpu) -> (r: Result<u64, Fault>)
    requires
        A::cycles_ok(AccessType::ReadModifyWrite),
    ensures
        lsr_op::<A, D, S>(old(sys)@) == returned(r, final(sys)@),
{
    let mut addr_mode = A::new();
    let val = S::get(sys, &mut addr_mode)?;
    let result = val >> 1u8;
    let carry = val & 0x01 != 0;
    update_zero_status(sys, result);
    update_negative_status(sys, result);
    set_status(sys, CARRY, carry);
    D::set(sys, &mut addr_mode, result as u8)?;
    bump_pc::<A>(sys)?;
    Ok(addr_mode.cycles(AccessType::ReadModifyWrite))
}

pub open spec fn rol_op<A: AddrMode, D: Dest<A>, S: Source<A>>(c: CpuView) -> Result<(CpuView, u64), Fault> {
    shift_op::<A, D, S>(
        c,
        |v: u8, cin: bool| ((v << 1u8) as u8) | (if cin { 1u8 } else { 0u8 }),
        |v: u8| v & 0x80 != 0,
    )
}

fn rol<A: AddrMode, D: Dest<A>, S: Source<A>>(sys: &mut Cpu) -> (r: Result<u64, Fault>)
    requires
        A::cycles_ok(AccessType::ReadModifyWrite),
    ensures
        rol_op::<A, D, S>(old(sys)@) == returned(r, final(sys)@),
{
    let mut addr_mode = A::new();
    let val = S::get(sys, &mut addr_mode)?;
    let old_carry = sys.registers.sr.contains(CARRY) as u8;
    let new_carry = val & 0x80 != 0;
    let mut result = val << 1u8;
    result |= old_carry;
    update_zero_status(sys, result);
    update_negative_status(sys, result);
    set_status(sys, CARRY, new_carry);
    D::set(sys, &mut addr_mode, result as u8)?;
    bump_pc::<A>(sys)?;
    Ok(addr_mode.cycles(AccessType::ReadModifyWrite))
}

pub open spec fn ror_op<A: AddrMode, D: Dest<A>, S: Source<A>>(c: CpuView) -> Result<(CpuView, u64), Fault> {
    shift_op::<A, D, S>(
        c,
        |v: u8, cin: bool| ((v >> 1u8) as u8) | (if cin { 0x80u8 } else { 0u8 }),
        |v: u8| v & 0x01 != 0,
    )
}

fn ror<A: AddrMode, D: Dest<A>, S: Source<A>>(sys: &mut Cpu) -> (r: Result<u64, Fault>)
    requires
        A::cycles_ok(AccessType::ReadModifyWrite),
    ensures
        ror_op::<A, D, S>(old(sys)@) == returned(r, final(sys)@),
{
    let mut addr_mode = A::new();
    let val = S::get(sys, &mut addr_mode)?;
    let old_carry: u8 = if sys.registers.sr.contains(CARRY) { 0x80 } else { 0x00 };
    let new_carry = val & 0x01 != 0;
    let mut result = val >> 1u8;
    result |= old_carry;
    update_zero_status(sys, result);
    update_negative_status(sys, result);
    set_status(sys, CARRY, new_carry);
    D::set(sys, &mut addr_mode, result as u8)?;
    bump_pc::<A>(sys)?;
    Ok(addr_mode.cycles(AccessType::ReadModifyWrite))
}

// Flag instructions

/// Sets `flag` to `value` in a two-cycle implied instruction.
pub open spec fn flag_op(c: CpuView, flag: u8, value: bool) -> Result<(CpuView, u64), Fault> {
    finish::<Implied>(set_flag(c, flag, value), 2)
}

fn flag_instruction(sys: &mut Cpu, flag: u8, value: bool) -> (r: Result<u64, Fault>)
    ensures
        flag_op(old(sys)@, flag, value) == returned(r, final(sys)@),
{
    set_status(sys, flag, value);
    bump_pc::<Implied>(sys)?;
    Ok(2)
}

fn clc(sys: &mut Cpu) -> (r: Result<u64, Fault>)
    ensures
        flag_op(old(sys)@, CARRY, false) == returned(r, final(sys)@),
{
    flag_instruction(sys, CARRY, false)
}

fn cld(sys: &mut Cpu) -> (r: Result<u64, Fault>)
    ensures
        flag_op(old(sys)@, DECIMAL, false) == returned(r, final(sys)@),
{
    flag_instruction(sys, DECIMAL, false)
}

fn cli(sys: &mut Cpu) -> (r: Result<u64, Fault>)
    ensures
        flag_op(old(sys)@, INTERRUPT, false) == returned(r, final(sys)@),
{
    flag_instruction(sys, INTERRUPT, false)
}

fn clv(sys: &mut Cpu) -> (r: Result<u64, Fault>)
    ensures
        flag_op(old(sys)@, OVERFLOW, false) == returned(r, final(sys)@),
{
    flag_instruction(sys, OVERFLOW, false)
}

fn sec(sys: &mut Cpu) -> (r: Result<u64, Fault>)
    ensures
        flag_op(old(sys)@, CARRY, true) == returned(r, final(sys)@),
{
    flag_instruction(sys, CARRY, true)
}

fn sed(sys: &mut Cpu) -> (r: Result<u64, Fault>)
    ensures
        flag_op(old(sys)@, DECIMAL, true) == returned(r, final(sys)@),
{
    flag_instruction(sys, DECIMAL, true)
}

fn sei(sys: &mut Cpu) -> (r: Result<u64, Fault>)
    ensures
        flag_op(old(sys)@, INTERRUPT, true) == returned(r, final(sys)@),
{
    flag_instruction(sys, INTERRUPT, true)
}

// Compare

pub open spec fn cp_op<A: AddrMode, R: Source<A>, S: Source<A>>(c: CpuView) -> Result<(CpuView, u64), Fault> {
    match R::get_spec(c, A::initial()) {
        Err(e) => Err(e),
        Ok((c1, a1, reg)) => match S::get_spec(c1, a1) {
            Err(e) => Err(e),
            Ok((c2, a2, operand)) => {
                let c3 = set_flag(set_flag(c2, ZERO, reg == operand), CARRY, reg >= operand);
                finish::<A>(
                    set_flag(c3, NEGATIVE, reg.wrapping_sub(operand) & 0x80 != 0),
                    a2.cycles_spec(AccessType::Read),
                )
            },
        },
    }
}

fn cp<A: AddrMode, R: Source<A>, S: Source<A>>(sys: &mut Cpu) -> (r: Result<u64, Fault>)
    requires
        A::cycles_ok(AccessType::Read),
    ensures
        cp_op::<A, R, S>(old(sys)@) == returned(r, final(sys)@),
{
    let mut addr_mode = A::new();
    let reg = R::get(sys, &mut addr_mode)?;
    let operand = S::get(sys, &mut addr_mode)?;
    if reg < operand {
        set_status(sys, ZERO, false);
        set_status(sys, CARRY, false);
    } else if reg == operand {
        set_status(sys, ZERO, true);
        set_status(sys, CARRY, true);
    } else {
        set_status(sys, ZERO, false);
        set_status(sys, CARRY, true);
    }
    update_negative_status(sys, reg.wrapping_sub(operand));
    bump_pc::<A>(sys)?;
    Ok(addr_mode.cycles(AccessType::Read))
}

// Bit test

pub open spec fn bit_op<A: AddrMode, S: Source<A>>(c: CpuView) -> Result<(CpuView, u64), Fault> {
    match S::get_spec(c, A::initial()) {
        Err(e) => Err(e),
        Ok((c1, a1, operand)) => {
            let c2 = set_flag(c1, ZERO, c.registers.ac & operand == 0);
            let c3 = set_flag(set_flag(c2, OVERFLOW, operand & 0x40 != 0), NEGATIVE, operand & 0x80 != 0);
            finish::<A>(c3, a1.cycles_spec(AccessType::Read))
        },
    }
}

fn bit<A: AddrMode, S: Source<A>>(sys: &mut Cpu) -> (r: Result<u64, Fault>)
    requires
        A::cycles_ok(AccessType::Read),
    ensures
        bit_op::<A, S>(old(sys)@) == returned(r, final(sys)@),
{
    let mut addr_mode = A::new();
    let reg = sys.registers.ac;
    let operand = S::get(sys, &mut addr_mode)?;
    let result = reg & operand;
    set_status(sys, ZERO, result == 0);
    set_status(sys, OVERFLOW, operand & 0x40 != 0);
    set_status(sys, NEGATIVE, operand & 0x80 != 0);
    bump_pc::<A>(sys)?;
    Ok(addr_mode.cycles(AccessType::Read))
}

// Branches

/// A conditional branch: when `taken`, the program counter moves to the
/// target before it moves past the instruction. A taken branch costs one
/// extra cycle, and with `page_penalty` one more when it crosses a page.
pub open spec fn branch_op<A: AddrMode>(c: CpuView, taken: bool, page_penalty: bool) -> Result<(CpuView, u64), Fault> {
    match A::initial().addr_spec(c) {
        Err(e) => Err(e),
        Ok((c1, a1, dest)) => {
            let c2 = if taken {
                with_registers(c1, Registers { pc: dest, ..c1.registers })
            } else {
                c1
            };
            let extra: u64 = if !taken {
                0
            } else if page_penalty && a1.crossed() {
                2
            } else {
                1
            };
            finish::<A>(c2, (a1.cycles_spec(AccessType::Read) + extra) as u64)
        },
    }
}

fn branch<A: AddrMode>(sys: &mut Cpu, test_bit: bool, page_penalty: bool) -> (r: Result<u64, Fault>)
    requires
        A::cycles_ok(AccessType::Read),
        forall|a: A| #[trigger] a.cycles_spec(AccessType::Read) <= 6,
    ensures
        branch_op::<A>(old(sys)@, test_bit, page_penalty) == returned(r, final(sys)@),
{
    let mut addr_mode = A::new();
    let dest = addr_mode.get_addr(sys)?;
    let mut extra_cycles: u64 = 0;
    if test_bit {
        sys.registers.pc = dest;
        extra_cycles = 1;
        if page_penalty {
            extra_cycles = 1 + addr_mode.page_crossed() as u64;
        }
    }
    bump_pc::<A>(sys)?;
    Ok(addr_mode.cycles(AccessType::Read) + extra_cycles)
}

fn bcc<A: AddrMode>(sys: &mut Cpu) -> (r: Result<u64, Fault>)
    requires
        A::cycles_ok(AccessType::Read),
        forall|a: A| #[trigger] a.cycles_spec(AccessType::Read) <= 6,
    ensures
        branch_op::<A>(old(sys)@, !flag(old(sys)@, CARRY), false) == returned(r, final(sys)@),
{
    let test_bit = !sys.registers.sr.contains(CARRY);
    branch::<A>(sys, test_bit, false)
}

fn bcs<A: AddrMode>(sys: &mut Cpu) -> (r: Result<u64, Fault>)
    requires
        A::cycles_ok(AccessType::Read),
        forall|a: A| #[trigger] a.cycles_spec(AccessType::Read) <= 6,
    ensures
        branch_op::<A>(old(sys)@, flag(old(sys)@, CARRY), false) == returned(r, final(sys)@),
{
    let test_bit = sys.registers.sr.contains(CARRY);
    branch::<A>(sys, test_bit, false)
}

fn beq<A: AddrMode>(sys: &mut Cpu) -> (r: Result<u64, Fault>)
    requires
        A::cycles_ok(AccessType::Read),
        forall|a: A| #[trigger] a.cycles_spec(AccessType::Read) <= 6,
    ensures
        branch_op::<A>(old(sys)@, flag(old(sys)@, ZERO), false) == returned(r, final(sys)@),
{
    let test_bit = sys.registers.sr.contains(ZERO);
    branch::<A>(sys, test_bit, false)
}

fn bmi<A: AddrMode>(sys: &mut Cpu) -> (r: Result<u64, Fault>)
    requires
        A::cycles_ok(AccessType::Read),
        forall|a: A| #[trigger] a.cycles_spec(AccessType::Read) <= 6,
    ensures
        branch_op::<A>(old(sys)@, flag(old(sys)@, NEGATIVE), false) == returned(r, final(sys)@),
{
    let test_bit = sys.registers.sr.contains(NEGATIVE);
    branch::<A>(sys, test_bit, false)
}

fn bne<A: AddrMode>(sys: &mut Cpu) -> (r: Result<u64, Fault>)
    requires
        A::cycles_ok(AccessType::Read),
        forall|a: A| #[trigger] a.cycles_spec(AccessType::Read) <= 6,
    ensures
        branch_op::<A>(old(sys)@, !flag(old(sys)@, ZERO), true) == returned(r, final(sys)@),
{
    let test_bit = !sys.registers.sr.contains(ZERO);
    branch::<A>(sys, test_bit, true)
}

fn bpl<A: AddrMode>(sys: &mut Cpu) -> (r: Result<u64, Fault>)
    requires
        A::cycles_ok(AccessType::Read),
        forall|a: A| #[trigger] a.cycles_spec(AccessType::Read) <= 6,
    ensures
        branch_op::<A>(old(sys)@, !flag(old(sys)@, NEGATIVE), true) == returned(r, final(sys)@),
{
    let test_bit = !sys.registers.sr.contains(NEGATIVE);
    branch::<A>(sys, test_bit, true)
}

fn bvc<A: AddrMode>(sys: &mut Cpu) -> (r: Result<u64, Fault>)
    requires
        A::cycles_ok(AccessType::Read),
        forall|a: A| #[trigger] a.cycles_spec(AccessType::Read) <= 6,
    ensures
        branch_op::<A>(old(sys)@, !flag(old(sys)@, OVERFLOW), true) == returned(r, final(sys)@),
{
    let test_bit = !sys.registers.sr.contains(OVERFLOW);
    branch::<A>(sys, test_bit, true)
}

fn bvs<A: AddrMode>(sys: &mut Cpu) -> (r: Result<u64, Fault>)
    requires
        A::cycles_ok(AccessType::Read),
        forall|a: A| #[trigger] a.cycles_spec(AccessType::Read) <= 6,
    ensures
        branch_op::<A>(old(sys)@, flag(old(sys)@, OVERFLOW), true) == returned(r, final(sys)@),
{
    let test_bit = sys.registers.sr.contains(OVERFLOW);
    branch::<A>(sys, test_bit, true)
}

// Jumps and subroutines

pub open spec fn jmp_op<A: AddrMode>(c: CpuView) -> Result<(CpuView, u64), Fault> {
    match A::initial().addr_spec(c) {
        Err(e) => Err(e),
        Ok((c1, a1, dest)) => Ok(
            (with_registers(c1, Registers { pc: dest, ..c1.registers }), a1.cycles_spec(AccessType::Jump)),
        ),
    }
}

fn jmp<A: AddrMode>(sys: &mut Cpu) -> (r: Result<u64, Fault>)
    requires
        A::cycles_ok(AccessType::Jump),
    ensures
        jmp_op::<A>(old(sys)@) == returned(r, final(sys)@),
{
    let mut addr_mode = A::new();
    let dest = addr_mode.get_addr(sys)?;
    sys.registers.pc = dest;
    Ok(addr_mode.cycles(AccessType::Jump))
}

/// Pushes the address of the instruction's last byte, high byte first, and
/// jumps.
pub open spec fn jsr_op<A: AddrMode>(c: CpuView) -> Result<(CpuView, u64), Fault> {
    match A::initial().addr_spec(c) {
        Err(e) => Err(e),
        Ok((c1, a1, dest)) => if c1.registers.pc + 2 > 0xffff {
            Err(Fault::Overflow)
        } else {
            let ret_addr = (c1.registers.pc + 2) as u16;
            match push_spec(c1, ((ret_addr & 0xff00) >> 8u16) as u8) {
                Err(e) => Err(e),
                Ok(c2) => match push_spec(c2, ret_addr as u8) {
                    Err(e) => Err(e),
                    Ok(c3) => Ok((with_registers(c3, Registers { pc: dest, ..c3.registers }), 6)),
                },
            }
        },
    }
}

fn jsr<A: AddrMode>(sys: &mut Cpu) -> (r: Result<u64, Fault>)
    ensures
        jsr_op::<A>(old(sys)@) == returned(r, final(sys)@),
{
    let mut addr_mode = A::new();
    let dest = addr_mode.get_addr(sys)?;
    let ret_addr = match sys.registers.pc.checked_add(2) {
        Some(a) => a,
        None => return Err(Fault::Overflow),
    };
    let ret_addr_hi = ((ret_addr & 0xff00) >> 8u16) as u8;
    let ret_addr_lo = ret_addr as u8;
    push_raw(sys, ret_addr_hi)?;
    push_raw(sys, ret_addr_lo)?;
    sys.registers.pc = dest;
    Ok(6)
}

/// Pulls the return address, low byte first, and continues after it.
pub open spec fn rts_op(c: CpuView) -> Result<(CpuView, u64), Fault> {
    match pull_spec(c) {
        Err(e) => Err(e),
        Ok((c1, lo)) => match pull_spec(c1) {
            Err(e) => Err(e),
            Ok((c2, hi)) => finish::<Implied>(
                with_registers(c2, Registers { pc: (lo as u16) | ((hi as u16) << 8u16), ..c2.registers }),
                6,
            ),
        },
    }
}

fn rts(sys: &mut Cpu) -> (r: Result<u64, Fault>)
    ensures
        rts_op(old(sys)@) == returned(r, final(sys)@),
{
    let ret_addr_lo = pull_raw(sys)? as u16;
    let ret_addr_hi = pull_raw(sys)? as u16;
    let ret_addr = ret_addr_lo | (ret_addr_hi << 8u16);
    sys.registers.pc = ret_addr;
    bump_pc::<Implied>(sys)?;
    Ok(6)
}

// Interrupts

/// BRK has no implementation.
pub open spec fn brk_op(c: CpuView) -> Result<(CpuView, u64), Fault> {
    Err(Fault::Unimplemented(0x00))
}

fn brk(sys: &mut Cpu) -> (r: Result<u64, Fault>)
    ensures
        brk_op(old(sys)@) == returned(r, final(sys)@),
{
    Err(Fault::Unimplemented(0x00))
}

/// The status register after returning from an interrupt that pushed
/// `flags`: the standard flags come from `flags`, the others stay.
pub open spec fn returned_status(sr: u8, flags: u8) -> u8 {
    (sr | (flags & STANDARD_FLAGS)) & !(!flags & STANDARD_FLAGS)
}

/// Pulls the status register, then the return address, low byte first.
pub open spec fn rti_op(c: CpuView) -> Result<(CpuView, u64), Fault> {
    match pull_spec(c) {
        Err(e) => Err(e),
        Ok((c1, flags)) => match pull_spec(c1) {
            Err(e) => Err(e),
            Ok((c2, lo)) => match pull_spec(c2) {
                Err(e) => Err(e),
                Ok((c3, hi)) => Ok(
                    (
                        with_registers(
                            c3,
                            Registers {
                                sr: StatusRegister { bits: returned_status(c.registers.sr.bits, flags) },
                                pc: (lo as u16) | ((hi as u16) << 8u16),
                                ..c3.registers
                            },
                        ),
                        6,
                    ),
                ),
            },
        },
    }
}

fn rti(sys: &mut Cpu) -> (r: Result<u64, Fault>)
    ensures
        rti_op(old(sys)@) == returned(r, final(sys)@),
{
    let mut sr = sys.registers.sr.bits();
    let flags = pull_raw(sys)?;
    sr = sr | (flags & STANDARD_FLAGS);
    sr = sr & !(!flags & STANDARD_FLAGS);
    let ret_addr_lo = pull_raw(sys)? as u16;
    let ret_addr_hi = pull_raw(sys)? as u16;
    let ret_addr = ret_addr_lo | (ret_addr_hi << 8u16);
    sys.registers.sr = StatusRegister::from_bits_retain(sr);
    sys.registers.pc = ret_addr;
    Ok(6)
}

/// What executing `instruction` does to the CPU, and the cycles it takes,
/// or the fault that stops it.
#[verifier::opaque]
pub open spec fn step(c: CpuView, instruction: u8) -> Result<(CpuView, u64), Fault> {
    match instruction {
        0x00 => brk_op(c),
        0x01 => or_op::<PreIndexed, dest::Accumulator, source::Memory>(c),
        0x05 => or_op::<ZeroPage, dest::Accumulator, source::Memory>(c),
        0x06 => asl_op::<ZeroPage, dest::Memory, source::Memory>(c),
        0x08 => php_op(c),
        0x09 => or_op::<Immediate, dest::Accumulator, source::Memory>(c),
        0x0A => asl_op::<Implied, dest::Accumulator, source::Accumulator>(c),
        0x0D => or_op::<Absolute, dest::Accumulator, source::Memory>(c),
        0x0E => asl_op::<Absolute, dest::Memory, source::Memory>(c),
        0x10 => branch_op::<Relative>(c, !flag(c, NEGATIVE), true),
        0x11 => or_op::<PostIndexed, dest::Accumulator, source::Memory>(c),
        0x15 => or_op::<ZPIndexedX, dest::Accumulator, source::Memory>(c),
        0x16 => asl_op::<ZPIndexedX, dest::Memory, source::Memory>(c),
        0x18 => flag_op(c, CARRY, false),
        0x19 => or_op::<IndexedY, dest::Accumulator, source::Memory>(c),
        0x1D => or_op::<IndexedX, dest::Accumulator, source::Memory>(c),
        0x1E => asl_op::<IndexedX, dest::Memory, source::Memory>(c),
        0x20 => jsr_op::<Absolute>(c),
        0x21 => and_op::<PreIndexed, dest::Accumulator, source::Memory>(c),
        0x24 => bit_op::<ZeroPage, source::Memory>(c),
        0x25 => and_op::<ZeroPage, dest::Accumulator, source::Memory>(c),
        0x26 => rol_op::<ZeroPage, dest::Memory, source::Memory>(c),
        0x28 => plp_op(c),
        0x29 => and_op::<Immediate, dest::Accumulator, source::Memory>(c),
        0x2A => rol_op::<Implied, dest::Accumulator, source::Accumulator>(c),
        0x2C => bit_op::<Absolute, source::Memory>(c),
        0x2D => and_op::<Absolute, dest::Accumulator, source::Memory>(c),
        0x2E => rol_op::<Absolute, dest::Memory, source::Memory>(c),
        0x30 => branch_op::<Relative>(c, flag(c, NEGATIVE), false),
        0x31 => and_op::<PostIndexed, dest::Accumulator, source::Memory>(c),
        0x35 => and_op::<ZPIndexedX, dest::Accumulator, source::Memory>(c),
        0x36 => rol_op::<ZPIndexedX, dest::Memory, source::Memory>(c),
        0x38 => flag_op(c, CARRY, true),
        0x39 => and_op::<IndexedY, dest::Accumulator, source::Memory>(c),
        0x3D => and_op::<IndexedX, dest::Accumulator, source::Memory>(c),
        0x3E => rol_op::<IndexedX, dest::Memory, source::Memory>(c),
        0x40 => rti_op(c),
        0x41 => eor_op::<PreIndexed, dest::Accumulator, source::Memory>(c),
        0x45 => eor_op::<ZeroPage, dest::Accumulator, source::Memory>(c),
        0x46 => lsr_op::<ZeroPage, dest::Memory, source::Memory>(c),
        0x48 => pha_op(c),
        0x49 => eor_op::<Immediate, dest::Accumulator, source::Memory>(c),
        0x4A => lsr_op::<Implied, dest::Accumulator, source::Accumulator>(c),
        0x4C => jmp_op::<Absolute>(c),
        0x4D => eor_op::<Absolute, dest::Accumulator, source::Memory>(c),
        0x4E => lsr_op::<Absolute, dest::Memory, source::Memory>(c),
        0x50 => branch_op::<Relative>(c, !flag(c, OVERFLOW), true),
        0x51 => eor_op::<PostIndexed, dest::Accumulator, source::Memory>(c),
        0x55 => eor_op::<ZPIndexedX, dest::Accumulator, source::Memory>(c),
        0x56 => lsr_op::<ZPIndexedX, dest::Memory, source::Memory>(c),
        0x58 => flag_op(c, INTERRUPT, false),
        0x59 => eor_op::<IndexedY, dest::Accumulator, source::Memory>(c),
        0x5D => eor_op::<IndexedX, dest::Accumulator, source::Memory>(c),
        0x5E => lsr_op::<IndexedX, dest::Memory, source::Memory>(c),
        0x60 => rts_op(c),
        0x61 => adc_op::<PreIndexed, source::Memory>(c),
        0x65 => adc_op::<ZeroPage, source::Memory>(c),
        0x66 => ror_op::<ZeroPage, dest::Memory, source::Memory>(c),
        0x68 => pla_op(c),
        0x69 => adc_op::<Immediate, source::Memory>(c),
        0x6A => ror_op::<Implied, dest::Accumulator, source::Accumulator>(c),
        0x6C => jmp_op::<Indirect>(c),
        0x6D => adc_op::<Absolute, source::Memory>(c),
        0x6E => ror_op::<Absolute, dest::Memory, source::Memory>(c),
        0x70 => branch_op::<Relative>(c, flag(c, OVERFLOW), true),
        0x71 => adc_op::<PostIndexed, source::Memory>(c),
        0x75 => adc_op::<ZPIndexedX, source::Memory>(c),
        0x76 => ror_op::<ZPIndexedX, dest::Memory, source::Memory>(c),
        0x78 => flag_op(c, INTERRUPT, true),
        0x79 => adc_op::<IndexedY, source::Memory>(c),
        0x7D => adc_op::<IndexedX, source::Memory>(c),
        0x7E => ror_op::<IndexedX, dest::Memory, source::Memory>(c),
        0x81 => store_op::<PreIndexed, dest::Memory, source::Accumulator>(c),
        0x84 => store_op::<ZeroPage, dest::Memory, source::IndexY>(c),
        0x85 => store_op::<ZeroPage, dest::Memory, source::Accumulator>(c),
        0x86 => store_op::<ZeroPage, dest::Memory, source::IndexX>(c),
        0x88 => decr_op::<Implied, dest::IndexY, source::IndexY>(c),
        0x8A => trans_op::<dest::Accumulator, source::IndexX>(c),
        0x8C => store_op::<Absolute, dest::Memory, source::IndexY>(c),
        0x8D => store_op::<Absolute, dest::Memory, source::Accumulator>(c),
        0x8E => store_op::<Absolute, dest::Memory, source::IndexX>(c),
        0x90 => branch_op::<Relative>(c, !flag(c, CARRY), false),
        0x91 => store_op::<PostIndexed, dest::Memory, source::Accumulator>(c),
        0x94 => store_op::<ZPIndexedX, dest::Memory, source::IndexY>(c),
        0x95 => store_op::<ZPIndexedX, dest::Memory, source::Accumulator>(c),
        0x96 => store_op::<ZPIndexedY, dest::Memory, source::IndexX>(c),
        0x98 => trans_op::<dest::Accumulator, source::IndexY>(c),
        0x99 => store_op::<IndexedY, dest::Memory, source::Accumulator>(c),
        0x9A => txs_op(c),
        0x9D => store_op::<IndexedX, dest::Memory, source::Accumulator>(c),
        0xA0 => load_op::<Immediate, dest::IndexY, source::Memory>(c),
        0xA1 => load_op::<PreIndexed, dest::Accumulator, source::Memory>(c),
        0xA2 => load_op::<Immediate, dest::IndexX, source::Memory>(c),
        0xA4 => load_op::<ZeroPage, dest::IndexY, source::Memory>(c),
        0xA5 => load_op::<ZeroPage, dest::Accumulator, source::Memory>(c),
        0xA6 => load_op::<ZeroPage, dest::IndexX, source::Memory>(c),
        0xA8 => trans_op::<dest::IndexY, source::Accumulator>(c),
        0xA9 => load_op::<Immediate, dest::Accumulator, source::Memory>(c),
        0xAA => trans_op::<dest::IndexX, source::Accumulator>(c),
        0xAC => load_op::<Absolute, dest::IndexY, source::Memory>(c),
        0xAD => load_op::<Absolute, dest::Accumulator, source::Memory>(c),
        0xAE => load_op::<Absolute, dest::IndexX, source::Memory>(c),
        0xB0 => branch_op::<Relative>(c, flag(c, CARRY), false),
        0xB1 => load_op::<PostIndexed, dest::Accumulator, source::Memory>(c),
        0xB4 => load_op::<ZPIndexedX, dest::IndexY, source::Memory>(c),
        0xB5 => load_op::<ZPIndexedX, dest::Accumulator, source::Memory>(c),
        0xB6 => load_op::<ZPIndexedY, dest::IndexX, source::Memory>(c),
        0xB8 => flag_op(c, OVERFLOW, false),
        0xB9 => load_op::<IndexedY, dest::Accumulator, source::Memory>(c),
        0xBA => trans_op::<dest::IndexX, source::StackPointer>(c),
        0xBC => load_op::<IndexedX, dest::IndexY, source::Memory>(c),
        0xBD => load_op::<IndexedX, dest::Accumulator, source::Memory>(c),
        0xBE => load_op::<IndexedY, dest::IndexX, source::Memory>(c),
        0xC0 => cp_op::<Immediate, source::IndexY, source::Memory>(c),
        0xC1 => cp_op::<PreIndexed, source::Accumulator, source::Memory>(c),
        0xC4 => cp_op::<ZeroPage, source::IndexY, source::Memory>(c),
        0xC5 => cp_op::<ZeroPage, source::Accumulator, source::Memory>(c),
        0xC6 => decr_op::<ZeroPage, dest::Memory, source::Memory>(c),
        0xC8 => incr_op::<Implied, dest::IndexY, source::IndexY>(c),
        0xC9 => cp_op::<Immediate, source::Accumulator, source::Memory>(c),
        0xCA => decr_op::<Implied, dest::IndexX, source::IndexX>(c),
        0xCC => cp_op::<Absolute, source::IndexY, source::Memory>(c),
        0xCD => cp_op::<Absolute, source::Accumulator, source::Memory>(c),
        0xCE => decr_op::<Absolute, dest::Memory, source::Memory>(c),
        0xD0 => branch_op::<Relative>(c, !flag(c, ZERO), true),
        0xD1 => cp_op::<PostIndexed, source::Accumulator, source::Memory>(c),
        0xD5 => cp_op::<ZPIndexedX, source::Accumulator, source::Memory>(c),
        0xD6 => decr_op::<ZPIndexedX, dest::Memory, source::Memory>(c),
        0xD8 => flag_op(c, DECIMAL, false),
        0xD9 => cp_op::<IndexedY, source::Accumulator, source::Memory>(c),
        0xDD => cp_op::<IndexedX, source::Accumulator, source::Memory>(c),
        0xDE => decr_op::<IndexedX, dest::Memory, source::Memory>(c),
        0xE0 => cp_op::<Immediate, source::IndexX, source::Memory>(c),
        0xE1 => sbc_op::<PreIndexed, source::Memory>(c),
        0xE4 => cp_op::<ZeroPage, source::IndexX, source::Memory>(c),
        0xE5 => sbc_op::<ZeroPage, source::Memory>(c),
        0xE6 => incr_op::<ZeroPage, dest::Memory, source::Memory>(c),
        0xE8 => incr_op::<Implied, dest::IndexX, source::IndexX>(c),
        0xE9 => sbc_op::<Immediate, source::Memory>(c),
        0xEA => nop_op(c),
        0xEC => cp_op::<Absolute, source::IndexX, source::Memory>(c),
        0xED => sbc_op::<Absolute, source::Memory>(c),
        0xEE => incr_op::<Absolute, dest::Memory, source::Memory>(c),
        0xF0 => branch_op::<Relative>(c, flag(c, ZERO), false),
        0xF1 => sbc_op::<PostIndexed, source::Memory>(c),
        0xF5 => sbc_op::<ZPIndexedX, source::Memory>(c),
        0xF6 => incr_op::<ZPIndexedX, dest::Memory, source::Memory>(c),
        0xF8 => flag_op(c, DECIMAL, true),
        0xF9 => sbc_op::<IndexedY, source::Memory>(c),
        0xFD => sbc_op::<IndexedX, source::Memory>(c),
        0xFE => incr_op::<IndexedX, dest::Memory, source::Memory>(c),
        _ => Err(Fault::Unimplemented(instruction)),
    }
}

/// Executes one instruction whose opcode is `instruction`, with the program
/// counter at it. Returns the number of cycles it takes.
#[verifier::rlimit(60)]
pub fn execute(sys: &mut Cpu, instruction: u8) -> (r: Result<u64, Fault>)
    ensures
        step(old(sys)@, instruction) == returned(r, final(sys)@),
{
    proof {
        reveal(step);
    }
    match instruction {
        0x00 => brk(sys),
        0x01 => or::<PreIndexed, dest::Accumulator, source::Memory>(sys),
        0x05 => or::<ZeroPage, dest::Accumulator, source::Memory>(sys),
        0x06 => asl::<ZeroPage, dest::Memory, source::Memory>(sys),
        0x08 => php(sys),
        0x09 => or::<Immediate, dest::Accumulator, source::Memory>(sys),
        0x0A => asl::<Implied, dest::Accumulator, source::Accumulator>(sys),
        0x0D => or::<Absolute, dest::Accumulator, source::Memory>(sys),
        0x0E => asl::<Absolute, dest::Memory, source::Memory>(sys),
        0x10 => bpl::<Relative>(sys),
        0x11 => or::<PostIndexed, dest::Accumulator, source::Memory>(sys),
        0x15 => or::<ZPIndexedX, dest::Accumulator, source::Memory>(sys),
        0x16 => asl::<ZPIndexedX, dest::Memory, source::Memory>(sys),
        0x18 => clc(sys),
        0x19 => or::<IndexedY, dest::Accumulator, source::Memory>(sys),
        0x1D => or::<IndexedX, dest::Accumulator, source::Memory>(sys),
        0x1E => asl::<IndexedX, dest::Memory, source::Memory>(sys),
        0x20 => jsr::<Absolute>(sys),
        0x21 => and::<PreIndexed, dest::Accumulator, source::Memory>(sys),
        0x24 => bit::<ZeroPage, source::Memory>(sys),
        0x25 => and::<ZeroPage, dest::Accumulator, source::Memory>(sys),
        0x26 => rol::<ZeroPage, dest::Memory, source::Memory>(sys),
        0x28 => plp(sys),
        0x29 => and::<Immediate, dest::Accumulator, source::Memory>(sys),
        0x2A => rol::<Implied, dest::Accumulator, source::Accumulator>(sys),
        0x2C => bit::<Absolute, source::Memory>(sys),
        0x2D => and::<Absolute, dest::Accumulator, source::Memory>(sys),
        0x2E => rol::<Absolute, dest::Memory, source::Memory>(sys),
        0x30 => bmi::<Relative>(sys),
        0x31 => and::<PostIndexed, dest::Accumulator, source::Memory>(sys),
        0x35 => and::<ZPIndexedX, dest::Accumulator, source::Memory>(sys),
        0x36 => rol::<ZPIndexedX, dest::Memory, source::Memory>(sys),
        0x38 => sec(sys),
        0x39 => and::<IndexedY, dest::Accumulator, source::Memory>(sys),
        0x3D => and::<IndexedX, dest::Accumulator, source::Memory>(sys),
        0x3E => rol::<IndexedX, dest::Memory, source::Memory>(sys),
        0x40 => rti(sys),
        0x41 => eor::<PreIndexed, dest::Accumulator, source::Memory>(sys),
        0x45 => eor::<ZeroPage, dest::Accumulator, source::Memory>(sys),
        0x46 => lsr::<ZeroPage, dest::Memory, source::Memory>(sys),
        0x48 => pha(sys),
        0x49 => eor::<Immediate, dest::Accumulator, source::Memory>(sys),
        0x4A => lsr::<Implied, dest::Accumulator, source::Accumulator>(sys),
        0x4C => jmp::<Absolute>(sys),
        0x4D => eor::<Absolute, dest::Accumulator, source::Memory>(sys),
        0x4E => lsr::<Absolute, dest::Memory, source::Memory>(sys),
        0x50 => bvc::<Relative>(sys),
        0x51 => eor::<PostIndexed, dest::Accumulator, source::Memory>(sys),
        0x55 => eor::<ZPIndexedX, dest::Accumulator, source::Memory>(sys),
        0x56 => lsr::<ZPIndexedX, dest::Memory, source::Memory>(sys),
        0x58 => cli(sys),
        0x59 => eor::<IndexedY, dest::Accumulator, source::Memory>(sys),
        0x5D => eor::<IndexedX, dest::Accumulator, source::Memory>(sys),
        0x5E => lsr::<IndexedX, dest::Memory, source::Memory>(sys),
        0x60 => rts(sys),
        0x61 => adc::<PreIndexed, source::Memory>(sys),
        0x65 => adc::<ZeroPage, source::Memory>(sys),
        0x66 => ror::<ZeroPage, dest::Memory, source::Memory>(sys),
        0x68 => pla(sys),
        0x69 => adc::<Immediate, source::Memory>(sys),
        0x6A => ror::<Implied, dest::Accumulator, source::Accumulator>(sys),
        0x6C => jmp::<Indirect>(sys),
        0x6D => adc::<Absolute, source::Memory>(sys),
        0x6E => ror::<Absolute, dest::Memory, source::Memory>(sys),
        0x70 => bvs::<Relative>(sys),
        0x71 => adc::<PostIndexed, source::Memory>(sys),
        0x75 => adc::<ZPIndexedX, source::Memory>(sys),
        0x76 => ror::<ZPIndexedX, dest::Memory, source::Memory>(sys),
        0x78 => sei(sys),
        0x79 => adc::<IndexedY, source::Memory>(sys),
        0x7D => adc::<IndexedX, source::Memory>(sys),
        0x7E => ror::<IndexedX, dest::Memory, source::Memory>(sys),
        0x81 => store::<PreIndexed, dest::Memory, source::Accumulator>(sys),
        0x84 => store::<ZeroPage, dest::Memory, source::IndexY>(sys),
        0x85 => store::<ZeroPage, dest::Memory, source::Accumulator>(sys),
        0x86 => store::<ZeroPage, dest::Memory, source::IndexX>(sys),
        0x88 => decr::<Implied, dest::IndexY, source::IndexY>(sys),
        0x8A => trans::<dest::Accumulator, source::IndexX>(sys),
        0x8C => store::<Absolute, dest::Memory, source::IndexY>(sys),
        0x8D => store::<Absolute, dest::Memory, source::Accumulator>(sys),
        0x8E => store::<Absolute, dest::Memory, source::IndexX>(sys),
        0x90 => bcc::<Relative>(sys),
        0x91 => store::<PostIndexed, dest::Memory, source::Accumulator>(sys),
        0x94 => store::<ZPIndexedX, dest::Memory, source::IndexY>(sys),
        0x95 => store::<ZPIndexedX, dest::Memory, source::Accumulator>(sys),
        0x96 => store::<ZPIndexedY, dest::Memory, source::IndexX>(sys),
        0x98 => trans::<dest::Accumulator, source::IndexY>(sys),
        0x99 => store::<IndexedY, dest::Memory, source::Accumulator>(sys),
        0x9A => txs(sys),
        0x9D => store::<IndexedX, dest::Memory, source::Accumulator>(sys),
        0xA0 => load::<Immediate, dest::IndexY, source::Memory>(sys),
        0xA1 => load::<PreIndexed, dest::Accumulator, source::Memory>(sys),
        0xA2 => load::<Immediate, dest::IndexX, source::Memory>(sys),
        0xA4 => load::<ZeroPage, dest::IndexY, source::Memory>(sys),
        0xA5 => load::<ZeroPage, dest::Accumulator, source::Memory>(sys),
        0xA6 => load::<ZeroPage, dest::IndexX, source::Memory>(sys),
        0xA8 => trans::<dest::IndexY, source::Accumulator>(sys),
        0xA9 => load::<Immediate, dest::Accumulator, source::Memory>(sys),
        0xAA => trans::<dest::IndexX, source::Accumulator>(sys),
        0xAC => load::<Absolute, dest::IndexY, source::Memory>(sys),
        0xAD => load::<Absolute, dest::Accumulator, source::Memory>(sys),
        0xAE => load::<Absolute, dest::IndexX, source::Memory>(sys),
        0xB0 => bcs::<Relative>(sys),
        0xB1 => load::<PostIndexed, dest::Accumulator, source::Memory>(sys),
        0xB4 => load::<ZPIndexedX, dest::IndexY, source::Memory>(sys),
        0xB5 => load::<ZPIndexedX, dest::Accumulator, source::Memory>(sys),
        0xB6 => load::<ZPIndexedY, dest::IndexX, source::Memory>(sys),
        0xB8 => clv(sys),
        0xB9 => load::<IndexedY, dest::Accumulator, source::Memory>(sys),
        0xBA => trans::<dest::IndexX, source::StackPointer>(sys),
        0xBC => load::<IndexedX, dest::IndexY, source::Memory>(sys),
        0xBD => load::<IndexedX, dest::Accumulator, source::Memory>(sys),
        0xBE => load::<IndexedY, dest::IndexX, source::Memory>(sys),
        0xC0 => cp::<Immediate, source::IndexY, source::Memory>(sys),
        0xC1 => cp::<PreIndexed, source::Accumulator, source::Memory>(sys),
        0xC4 => cp::<ZeroPage, source::IndexY, source::Memory>(sys),
        0xC5 => cp::<ZeroPage, source::Accumulator, source::Memory>(sys),
        0xC6 => decr::<ZeroPage, dest::Memory, source::Memory>(sys),
        0xC8 => incr::<Implied, dest::IndexY, source::IndexY>(sys),
        0xC9 => cp::<Immediate, source::Accumulator, source::Memory>(sys),
        0xCA => decr::<Implied, dest::IndexX, source::IndexX>(sys),
        0xCC => cp::<Absolute, source::IndexY, source::Memory>(sys),
        0xCD => cp::<Absolute, source::Accumulator, source::Memory>(sys),
        0xCE => decr::<Absolute, dest::Memory, source::Memory>(sys),
        0xD0 => bne::<Relative>(sys),
        0xD1 => cp::<PostIndexed, source::Accumulator, source::Memory>(sys),
        0xD5 => cp::<ZPIndexedX, source::Accumulator, source::Memory>(sys),
        0xD6 => decr::<ZPIndexedX, dest::Memory, source::Memory>(sys),
        0xD8 => cld(sys),
        0xD9 => cp::<IndexedY, source::Accumulator, source::Memory>(sys),
        0xDD => cp::<IndexedX, source::Accumulator, source::Memory>(sys),
        0xDE => decr::<IndexedX, dest::Memory, source::Memory>(sys),
        0xE0 => cp::<Immediate, source::IndexX, source::Memory>(sys),
        0xE1 => sbc::<PreIndexed, source::Memory>(sys),
        0xE4 => cp::<ZeroPage, source::IndexX, source::Memory>(sys),
        0xE5 => sbc::<ZeroPage, source::Memory>(sys),
        0xE6 => incr::<ZeroPage, dest::Memory, source::Memory>(sys),
        0xE8 => incr::<Implied, dest::IndexX, source::IndexX>(sys),
        0xE9 => sbc::<Immediate, source::Memory>(sys),
        0xEA => nop(sys),
        0xEC => cp::<Absolute, source::IndexX, source::Memory>(sys),
        0xED => sbc::<Absolute, source::Memory>(sys),
        0xEE => incr::<Absolute, dest::Memory, source::Memory>(sys),
        0xF0 => beq::<Relative>(sys),
        0xF1 => sbc::<PostIndexed, source::Memory>(sys),
        0xF5 => sbc::<ZPIndexedX, source::Memory>(sys),
        0xF6 => incr::<ZPIndexedX, dest::Memory, source::Memory>(sys),
        0xF8 => sed(sys),
        0xF9 => sbc::<IndexedY, source::Memory>(sys),
        0xFD => sbc::<IndexedX, source::Memory>(sys),
        0xFE => incr::<IndexedX, dest::Memory, source::Memory>(sys),
        _ => Err(Fault::Unimplemented(instruction)),
    }
}

/// One step of the CPU: the opcode at the program counter, then its
/// execution.
pub open spec fn fetch_step(c: CpuView) -> Result<(CpuView, u64), Fault> {
    match mem_load(c, c.registers.pc) {
        Err(e) => Err(e),
        Ok((c1, op)) => step(c1, op),
    }
}

impl Cpu {
    /// Fetches the instruction at the program counter and executes it;
    /// returns the cycles it takes.
    pub fn run_step(&mut self) -> (r: Result<u64, Fault>)
        ensures
            fetch_step(old(self)@) == returned(r, final(self)@),
    {
        let pc = self.registers.pc;
        let next_instruction = self.mmu_load(pc)?;
        execute(self, next_instruction)
    }
}


/// A byte read as a two's complement number.
pub open spec fn signed(x: u8) -> int {
    if x < 128 {
        x as int
    } else {
        x - 256
    }
}

/// Addition with carry computes the full sum: the new accumulator plus 256
/// for the carry out equals accumulator plus operand plus carry in, and the
/// overflow flag is set exactly when the signed sum leaves -128..=127.
pub proof fn lemma_adc_arithmetic(ac: u8, val: u8, carry: bool)
    ensures
        ({
            let total = adc_total(ac, val, carry);
            &&& (total as u8) + (if total & 0x100 != 0 { 256int } else { 0 }) == ac + val + (if carry { 1int } else { 0 })
            &&& ((total ^ (ac as u16)) & (total ^ (val as u16)) & 0x80 != 0) <==> !(-128 <= signed(ac) + signed(val) + (
            if carry { 1int } else { 0 }) <= 127)
        }),
{
    let total = adc_total(ac, val, carry);
    if carry {
        assert((total as u8) + (if total & 0x100 != 0 { 256int } else { 0 }) == ac + val + 1 && (((total ^ (ac as u16))
            & (total ^ (val as u16)) & 0x80 != 0) <==> !(-128 <= (if ac < 128 { ac as int } else { ac - 256 }) + (
        if val < 128 { val as int } else { val - 256 }) + 1 <= 127))) by (bit_vector)
            requires
                total == (ac + val + 1) as u16,
        ;
    } else {
        assert((total as u8) + (if total & 0x100 != 0 { 256int } else { 0 }) == ac + val && (((total ^ (ac as u16)) & (
        total ^ (val as u16)) & 0x80 != 0) <==> !(-128 <= (if ac < 128 { ac as int } else { ac - 256 }) + (if val
            < 128 { val as int } else { val - 256 }) <= 127))) by (bit_vector)
            requires
                total == (ac + val) as u16,
        ;
    }
}

/// Subtraction with borrow computes the full difference: the carry out is
/// set exactly when no borrow was needed, the new accumulator is the
/// difference modulo 256, and the overflow flag is set exactly when the
/// signed difference leaves -128..=127.
pub proof fn lemma_sbc_arithmetic(ac: u8, val: u8, carry: bool)
    ensures
        ({
            let total = sbc_total(ac, val, carry);
            let borrow = if carry { 0int } else { 1int };
            &&& (total & 0x100 == 0) <==> ac - val - borrow >= 0
            &&& (total as u8) == (ac - val - borrow) % 256
            &&& ((total ^ (ac as i16)) & (total ^ !(val as i16)) & 0x80 != 0) <==> !(-128 <= signed(ac) - signed(val)
                - borrow <= 127)
        }),
{
    let total = sbc_total(ac, val, carry);
    if carry {
        assert(((total & 0x100 == 0) <==> ac - val >= 0) && (total as u8) == (ac - val) % 256 && (((total ^ (ac as i16)) & (total ^ !(val as i16)) & 0x80 != 0) <==> !(-128 <= (if ac < 128 {
            ac as int
        } else {
            ac - 256
        }) - (if val < 128 { val as int } else { val - 256 }) <= 127))) by (bit_vector)
            requires
                total == (ac - val) as i16,
        ;
    } else {
        assert(((total & 0x100 == 0) <==> ac - val - 1 >= 0) && (total as u8) == (ac - val - 1) % 256 && (((total ^ (ac as i16)) & (total ^ !(val as i16)) & 0x80 != 0) <==> !(-128 <= (if ac < 128 {
            ac as int
        } else {
            ac - 256
        }) - (if val < 128 { val as int } else { val - 256 }) - 1 <= 127))) by (bit_vector)
            requires
                total == (ac - val - 1) as i16,
        ;
    }
}

/// The stack address for stack pointer `sp`: page one, below 0x2000.
proof fn lemma_stack_address(sp: u8)
    ensures
        (0x0100 + sp) < 0x2000,
        ((0x0100 + sp) as u16) & 0xfff == 0x0100 + sp,
{
    assert(((0x0100 + sp) as u16) & 0xfff == 0x0100 + sp) by (bit_vector);
}

/// A push stores the byte at the stack pointer in page one and moves the
/// stack pointer down; it fails at stack pointer 0, or where RAM ends
/// before the stack address.
proof fn lemma_push(c: CpuView, val: u8)
    ensures
        ({
            let sp = c.registers.sp;
            let i = 0x0100 + sp;
            &&& i < c.bus.ram.len() && sp != 0 ==> push_spec(c, val) == Ok::<CpuView, Fault>(
                CpuView {
                    registers: Registers { sp: (sp - 1) as u8, ..c.registers },
                    bus: BusView { ram: c.bus.ram.update(i, val), ..c.bus },
                },
            )
            &&& i < c.bus.ram.len() && sp == 0 ==> push_spec(c, val) == Err::<CpuView, Fault>(Fault::Overflow)
            &&& i >= c.bus.ram.len() ==> push_spec(c, val) == Err::<CpuView, Fault>(Fault::OutOfBounds)
        }),
{
    lemma_stack_address(c.registers.sp);
    lemma_ram_access(c.bus, (0x0100 + c.registers.sp) as u16, val);
}

/// A pull moves the stack pointer up and reads the byte of page one it
/// then points at.
proof fn lemma_pull(c: CpuView)
    requires
        0x0100 + c.registers.sp + 1 < c.bus.ram.len(),
        c.registers.sp != 0xff,
    ensures
        pull_spec(c) == Ok::<(CpuView, u8), Fault>(
            (
                with_registers(c, Registers { sp: (c.registers.sp + 1) as u8, ..c.registers }),
                c.bus.ram[0x0100 + c.registers.sp + 1],
            ),
        ),
{
    lemma_stack_address((c.registers.sp + 1) as u8);
    lemma_ram_access(c.bus, (0x0100 + c.registers.sp + 1) as u16, 0);
}

/// A pull after a push gives back the pushed byte and the stack pointer it
/// started from; the byte stays in page one of RAM. A push fails only at
/// stack pointer 0 or where RAM ends before the stack address.
pub proof fn lemma_push_pull(c: CpuView, val: u8)
    ensures
        match push_spec(c, val) {
            Ok(c1) => {
                &&& c1.registers == Registers { sp: (c.registers.sp - 1) as u8, ..c.registers }
                &&& c1.bus.ram == c.bus.ram.update(0x0100 + c.registers.sp, val)
                &&& pull_spec(c1) == Ok::<(CpuView, u8), Fault>(
                    (CpuView { registers: c.registers, bus: c1.bus }, val),
                )
            },
            Err(e) => {
                ||| e == Fault::Overflow && c.registers.sp == 0
                ||| e == Fault::OutOfBounds && 0x0100 + c.registers.sp >= c.bus.ram.len()
            },
        },
{
    lemma_push(c, val);
    match push_spec(c, val) {
        Ok(c1) => {
            lemma_pull(c1);
        },
        Err(_) => {},
    }
}

/// Two pushes, a jump anywhere, and two pulls give back the two bytes in
/// reverse order, and every register but the program counter as before.
proof fn lemma_push2_pull2(c: CpuView, hi: u8, lo: u8, pc: u16)
    ensures
        match push_spec(c, hi) {
            Ok(c2) => match push_spec(c2, lo) {
                Ok(c3) => match pull_spec(with_registers(c3, Registers { pc, ..c3.registers })) {
                    Ok((c5, l)) => l == lo && match pull_spec(c5) {
                        Ok((c6, h)) => h == hi && c6.registers == Registers { pc, ..c.registers },
                        Err(_) => false,
                    },
                    Err(_) => false,
                },
                Err(_) => true,
            },
            Err(_) => true,
        },
{
    lemma_push(c, hi);
    match push_spec(c, hi) {
        Ok(c2) => {
            lemma_push(c2, lo);
            match push_spec(c2, lo) {
                Ok(c3) => {
                    let c4 = with_registers(c3, Registers { pc, ..c3.registers });
                    lemma_pull(c4);
                    let c5 = pull_spec(c4)->Ok_0.0;
                    lemma_pull(c5);
                },
                Err(_) => {},
            }
        },
        Err(_) => {},
    }
}

/// The absolute operand read leaves the registers and RAM as they were.
proof fn lemma_absolute_keeps(c: CpuView)
    ensures
        match Absolute.addr_spec(c) {
            Ok((c1, _, _)) => c1.registers == c.registers && c1.bus.ram == c.bus.ram,
            Err(_) => true,
        },
{
    match operand(c, 1) {
        Err(_) => {},
        Ok((ca, lo)) => {
            lemma_load_keeps_memory(c.bus, (c.registers.pc + 1) as u16);
            lemma_load_keeps_memory(ca.bus, (ca.registers.pc + 2) as u16);
        },
    }
}

/// A subroutine call to an absolute address followed by a return comes back
/// to the instruction after the call, with the stack pointer and every other
/// register but the program counter as before.
pub proof fn lemma_jsr_then_rts(c: CpuView)
    ensures
        match jsr_op::<Absolute>(c) {
            Ok((c1, _)) => match rts_op(c1) {
                Ok((c2, _)) => c2.registers == Registers { pc: (c.registers.pc + 3) as u16, ..c.registers },
                Err(e) => c.registers.pc + 3 > 0xffff && e == Fault::Overflow,
            },
            Err(_) => true,
        },
{
    lemma_absolute_keeps(c);
    match Absolute.addr_spec(c) {
        Err(_) => {},
        Ok((c1, _, dest)) => {
            if c1.registers.pc + 2 <= 0xffff {
                let ret = (c1.registers.pc + 2) as u16;
                let hi = (#[verifier::truncate] (((ret & 0xff00) >> 8u16) as u8));
                let lo = (#[verifier::truncate] (ret as u8));
                lemma_push2_pull2(c1, hi, lo, dest);
                assert(((lo as u16) | ((hi as u16) << 8u16)) == ret) by (bit_vector)
                    requires
                        hi == ((ret & 0xff00) >> 8u16) as u8,
                        lo == ret as u8,
                ;
            }
        },
    }
}

/// Whether `f` is one of the eight status bits.
pub open spec fn is_status_bit(f: u8) -> bool {
    f == CARRY || f == ZERO || f == INTERRUPT || f == DECIMAL || f == BREAK || f == IGNORED || f == OVERFLOW
        || f == NEGATIVE
}

/// Setting one status bit gives that bit the value and keeps the others.
proof fn lemma_set_flag(c: CpuView, f: u8, g: u8, v: bool)
    requires
        is_status_bit(f),
        is_status_bit(g),
    ensures
        flag(set_flag(c, f, v), f) == v,
        f != g ==> flag(set_flag(c, f, v), g) == flag(c, g),
        set_flag(c, f, v).bus == c.bus,
        set_flag(c, f, v).registers == (Registers { sr: set_flag(c, f, v).registers.sr, ..c.registers }),
{
    let b = c.registers.sr.bits;
    if v {
        assert((b | f) & f == f && (f != g ==> (((b | f) & g == g) == (b & g == g)))) by (bit_vector)
            requires
                f == 1 || f == 2 || f == 4 || f == 8 || f == 16 || f == 32 || f == 64 || f == 128,
                g == 1 || g == 2 || g == 4 || g == 8 || g == 16 || g == 32 || g == 64 || g == 128,
        ;
    } else {
        assert((b & !f) & f != f && (f != g ==> (((b & !f) & g == g) == (b & g == g)))) by (bit_vector)
            requires
                f == 1 || f == 2 || f == 4 || f == 8 || f == 16 || f == 32 || f == 64 || f == 128,
                g == 1 || g == 2 || g == 4 || g == 8 || g == 16 || g == 32 || g == 64 || g == 128,
        ;
    }
}

/// The flags after an addition or subtraction: carry, overflow, zero and
/// negative take the given values; interrupt and decimal stay.
proof fn lemma_arith_flags(c: CpuView, total8: u8, c_out: bool, v_out: bool)
    ensures
        ({
            let r = arith_result(c, total8, c_out, v_out);
            &&& r.registers == (Registers { ac: total8, sr: r.registers.sr, ..c.registers })
            &&& r.bus == c.bus
            &&& flag(r, CARRY) == c_out
            &&& flag(r, OVERFLOW) == v_out
            &&& flag(r, ZERO) == (total8 == 0)
            &&& flag(r, NEGATIVE) == (total8 & 0x80 != 0)
            &&& flag(r, INTERRUPT) == flag(c, INTERRUPT)
            &&& flag(r, DECIMAL) == flag(c, DECIMAL)
        }),
{
    let c1 = set_flag(c, CARRY, c_out);
    let c2 = set_flag(c1, OVERFLOW, v_out);
    let c3 = set_flag(c2, ZERO, total8 == 0);
    let c4 = set_flag(c3, NEGATIVE, total8 & 0x80 != 0);
    lemma_set_flag(c, CARRY, OVERFLOW, c_out);
    lemma_set_flag(c, CARRY, ZERO, c_out);
    lemma_set_flag(c, CARRY, NEGATIVE, c_out);
    lemma_set_flag(c, CARRY, INTERRUPT, c_out);
    lemma_set_flag(c, CARRY, DECIMAL, c_out);
    lemma_set_flag(c1, OVERFLOW, CARRY, v_out);
    lemma_set_flag(c1, OVERFLOW, ZERO, v_out);
    lemma_set_flag(c1, OVERFLOW, NEGATIVE, v_out);
    lemma_set_flag(c1, OVERFLOW, INTERRUPT, v_out);
    lemma_set_flag(c1, OVERFLOW, DECIMAL, v_out);
    lemma_set_flag(c2, ZERO, CARRY, total8 == 0);
    lemma_set_flag(c2, ZERO, OVERFLOW, total8 == 0);
    lemma_set_flag(c2, ZERO, NEGATIVE, total8 == 0);
    lemma_set_flag(c2, ZERO, INTERRUPT, total8 == 0);
    lemma_set_flag(c2, ZERO, DECIMAL, total8 == 0);
    lemma_set_flag(c3, NEGATIVE, CARRY, total8 & 0x80 != 0);
    lemma_set_flag(c3, NEGATIVE, OVERFLOW, total8 & 0x80 != 0);
    lemma_set_flag(c3, NEGATIVE, ZERO, total8 & 0x80 != 0);
    lemma_set_flag(c3, NEGATIVE, INTERRUPT, total8 & 0x80 != 0);
    lemma_set_flag(c3, NEGATIVE, DECIMAL, total8 & 0x80 != 0);
}

/// ADC through memory in any addressing mode: the accumulator becomes the
/// low byte of accumulator + operand + carry, carry is set when that sum
/// passes 0xff, overflow when the signed sum leaves -128..=127, zero and
/// negative follow the result; interrupt, decimal, X, Y and the stack
/// pointer stay, and the program counter moves past the instruction. It
/// fails where the operand read fails, or where the program counter would
/// pass 0xffff.
pub proof fn lemma_adc_effect<A: AddrMode>(c: CpuView)
    ensures
        match source::Memory::get_spec(c, A::initial()) {
            Err(e) => adc_op::<A, source::Memory>(c) == Err::<(CpuView, u64), Fault>(e),
            Ok((c1, _, m)) => {
                let cin: int = if flag(c, CARRY) { 1 } else { 0 };
                let t = c.registers.ac + m + cin;
                match adc_op::<A, source::Memory>(c) {
                    Ok((c2, _)) => {
                        &&& c2.registers.ac == t % 256
                        &&& flag(c2, CARRY) == (t > 0xff)
                        &&& flag(c2, OVERFLOW) == !(-128 <= signed(c.registers.ac) + signed(m) + cin <= 127)
                        &&& flag(c2, ZERO) == (c2.registers.ac == 0)
                        &&& flag(c2, NEGATIVE) == (c2.registers.ac & 0x80 != 0)
                        &&& flag(c2, INTERRUPT) == flag(c, INTERRUPT)
                        &&& flag(c2, DECIMAL) == flag(c, DECIMAL)
                        &&& c2.registers.x == c.registers.x
                        &&& c2.registers.y == c.registers.y
                        &&& c2.registers.sp == c.registers.sp
                        &&& c2.registers.pc == c.registers.pc + A::size_spec()
                        &&& c2.bus == c1.bus
                    },
                    Err(e) => e == Fault::Overflow && c.registers.pc + A::size_spec() > 0xffff,
                }
            },
        },
{
    A::initial().lemma_keeps_registers(c);
    match source::Memory::get_spec(c, A::initial()) {
        Err(_) => {},
        Ok((c1, _, m)) => {
            let carry = flag(c1, CARRY);
            lemma_adc_arithmetic(c1.registers.ac, m, carry);
            let total = adc_total(c1.registers.ac, m, carry);
            let val = m as u16;
            let ac = c1.registers.ac as u16;
            let overflow = (total ^ ac) & (total ^ val) & 0x80 != 0;
            lemma_arith_flags(c1, total as u8, total & 0x100 != 0, overflow);
        },
    }
}

/// SBC through memory in any addressing mode: the accumulator becomes
/// accumulator - operand - borrow (a clear carry) modulo 256, carry is set
/// when no borrow was needed, overflow when the signed difference leaves
/// -128..=127, zero and negative follow the result; interrupt, decimal, X,
/// Y and the stack pointer stay, and the program counter moves past the
/// instruction.
pub proof fn lemma_sbc_effect<A: AddrMode>(c: CpuView)
    ensures
        match source::Memory::get_spec(c, A::initial()) {
            Err(e) => sbc_op::<A, source::Memory>(c) == Err::<(CpuView, u64), Fault>(e),
            Ok((c1, _, m)) => {
                let borrow: int = if flag(c, CARRY) { 0 } else { 1 };
                let d = c.registers.ac - m - borrow;
                match sbc_op::<A, source::Memory>(c) {
                    Ok((c2, _)) => {
                        &&& c2.registers.ac == d % 256
                        &&& flag(c2, CARRY) == (d >= 0)
                        &&& flag(c2, OVERFLOW) == !(-128 <= signed(c.registers.ac) - signed(m) - borrow <= 127)
                        &&& flag(c2, ZERO) == (c2.registers.ac == 0)
                        &&& flag(c2, NEGATIVE) == (c2.registers.ac & 0x80 != 0)
                        &&& flag(c2, INTERRUPT) == flag(c, INTERRUPT)
                        &&& flag(c2, DECIMAL) == flag(c, DECIMAL)
                        &&& c2.registers.x == c.registers.x
                        &&& c2.registers.y == c.registers.y
                        &&& c2.registers.sp == c.registers.sp
                        &&& c2.registers.pc == c.registers.pc + A::size_spec()
                        &&& c2.bus == c1.bus
                    },
                    Err(e) => e == Fault::Overflow && c.registers.pc + A::size_spec() > 0xffff,
                }
            },
        },
{
    A::initial().lemma_keeps_registers(c);
    match source::Memory::get_spec(c, A::initial()) {
        Err(_) => {},
        Ok((c1, _, m)) => {
            let carry = flag(c1, CARRY);
            lemma_sbc_arithmetic(c1.registers.ac, m, carry);
            let total = sbc_total(c1.registers.ac, m, carry);
            let val = m as i16;
            let ac = c1.registers.ac as i16;
            let overflow = (total ^ ac) & (total ^ !val) & 0x80 != 0;
            lemma_arith_flags(c1, total as u8, total & 0x100 == 0, overflow);
        },
    }
}

/// Compare through memory in any addressing mode, against a register
/// whose value `r` the source reads without side effects (the accumulator,
/// X or Y): carry is set when `r` is not below the operand, zero when they
/// are equal, negative from bit 7 of `r` - operand; overflow, interrupt,
/// decimal and every register stay, and the program counter moves past the
/// instruction.
pub proof fn lemma_cp_effect<A: AddrMode, R: Source<A>>(c: CpuView, r: u8)
    requires
        R::get_spec(c, A::initial()) == Ok::<(CpuView, A, u8), Fault>((c, A::initial(), r)),
    ensures
        match source::Memory::get_spec(c, A::initial()) {
            Err(e) => cp_op::<A, R, source::Memory>(c) == Err::<(CpuView, u64), Fault>(e),
            Ok((c1, _, m)) => match cp_op::<A, R, source::Memory>(c) {
                Ok((c2, _)) => {
                    &&& flag(c2, CARRY) == (r >= m)
                    &&& flag(c2, ZERO) == (r == m)
                    &&& flag(c2, NEGATIVE) == ((r - m) as u8 & 0x80 != 0)
                    &&& flag(c2, OVERFLOW) == flag(c, OVERFLOW)
                    &&& flag(c2, INTERRUPT) == flag(c, INTERRUPT)
                    &&& flag(c2, DECIMAL) == flag(c, DECIMAL)
                    &&& c2.registers.ac == c.registers.ac
                    &&& c2.registers.x == c.registers.x
                    &&& c2.registers.y == c.registers.y
                    &&& c2.registers.sp == c.registers.sp
                    &&& c2.registers.pc == c.registers.pc + A::size_spec()
                    &&& c2.bus == c1.bus
                },
                Err(e) => e == Fault::Overflow && c.registers.pc + A::size_spec() > 0xffff,
            },
        },
{
    A::initial().lemma_keeps_registers(c);
    match source::Memory::get_spec(c, A::initial()) {
        Err(_) => {},
        Ok((c1, _, m)) => {
            let d1 = set_flag(c1, ZERO, r == m);
            let d2 = set_flag(d1, CARRY, r >= m);
            let neg = r.wrapping_sub(m) & 0x80 != 0;
            assert(r.wrapping_sub(m) == (r - m) as u8) by (bit_vector);
            lemma_set_flag(c1, ZERO, CARRY, r == m);
            lemma_set_flag(c1, ZERO, NEGATIVE, r == m);
            lemma_set_flag(c1, ZERO, OVERFLOW, r == m);
            lemma_set_flag(c1, ZERO, INTERRUPT, r == m);
            lemma_set_flag(c1, ZERO, DECIMAL, r == m);
            lemma_set_flag(d1, CARRY, ZERO, r >= m);
            lemma_set_flag(d1, CARRY, NEGATIVE, r >= m);
            lemma_set_flag(d1, CARRY, OVERFLOW, r >= m);
            lemma_set_flag(d1, CARRY, INTERRUPT, r >= m);
            lemma_set_flag(d1, CARRY, DECIMAL, r >= m);
            lemma_set_flag(d2, NEGATIVE, ZERO, neg);
            lemma_set_flag(d2, NEGATIVE, CARRY, neg);
            lemma_set_flag(d2, NEGATIVE, OVERFLOW, neg);
            lemma_set_flag(d2, NEGATIVE, INTERRUPT, neg);
            lemma_set_flag(d2, NEGATIVE, DECIMAL, neg);
        },
    }
}

/// PHP followed by PLP restores the status register exactly (the break and
/// unused bits that PHP pushes do not come back) and the stack pointer; the
/// program counter moves past both one-byte instructions.
pub proof fn lemma_php_then_plp(c: CpuView)
    ensures
        match php_op(c) {
            Ok((c1, _)) => match plp_op(c1) {
                Ok((c2, _)) => c2.registers == (Registers { pc: (c.registers.pc + 2) as u16, ..c.registers }),
                Err(e) => e == Fault::Overflow && c.registers.pc + 2 > 0xffff,
            },
            Err(_) => true,
        },
{
    let sr = c.registers.sr.bits;
    let pushed = sr | BREAK | IGNORED;
    lemma_push_pull(c, pushed);
    assert(pulled_status(pushed, sr) == sr) by (bit_vector)
        requires
            pushed == sr | BREAK | IGNORED,
    ;
}

/// ROR in any addressing mode and to any destination: the byte written is
/// the operand halved with the old carry as its new bit 7; the new carry is
/// the operand's old bit 0, negative is the old carry, and zero says
/// whether the byte written is 0.
pub proof fn lemma_ror_effect<A: AddrMode, D: Dest<A>, S: Source<A>>(c: CpuView)
    ensures
        match S::get_spec(c, A::initial()) {
            Err(e) => ror_op::<A, D, S>(c) == Err::<(CpuView, u64), Fault>(e),
            Ok((c1, a1, v)) => {
                let cin = flag(c1, CARRY);
                let r = (v / 2 + if cin { 128int } else { 0int }) as u8;
                ror_op::<A, D, S>(c) == match D::set_spec(
                    set_flag(set_flag(set_flag(c1, ZERO, r == 0), NEGATIVE, cin), CARRY, v % 2 == 1),
                    a1,
                    r,
                ) {
                    Err(e) => Err(e),
                    Ok((c2, a2)) => finish::<A>(c2, a2.cycles_spec(AccessType::ReadModifyWrite)),
                }
            },
        },
{
    match S::get_spec(c, A::initial()) {
        Err(_) => {},
        Ok((c1, a1, v)) => {
            let cin = flag(c1, CARRY);
            let f = ((v >> 1u8) as u8) | (if cin { 0x80u8 } else { 0u8 });
            assert(f == (v / 2 + if cin { 128int } else { 0int }) as u8 && ((f & 0x80 != 0) == cin) && ((v & 0x01
                != 0) == (v % 2 == 1))) by (bit_vector)
                requires
                    f == ((v >> 1u8) as u8) | (if cin { 0x80u8 } else { 0u8 }),
            ;
        },
    }
}

/// ROR A (opcode 0x6a): the accumulator becomes itself halved with the old
/// carry as bit 7; carry takes the old bit 0, negative the old carry, zero
/// says whether the result is 0; the other flags and registers stay and the
/// instruction is one byte and two cycles long.
pub proof fn lemma_ror_accumulator(c: CpuView)
    ensures
        ({
            let cin = flag(c, CARRY);
            let a = c.registers.ac;
            match step(c, 0x6a) {
                Ok((c2, n)) => {
                    &&& c2.registers.ac == a / 2 + if cin { 128int } else { 0int }
                    &&& flag(c2, CARRY) == (a % 2 == 1)
                    &&& flag(c2, NEGATIVE) == cin
                    &&& flag(c2, ZERO) == (c2.registers.ac == 0)
                    &&& flag(c2, OVERFLOW) == flag(c, OVERFLOW)
                    &&& flag(c2, INTERRUPT) == flag(c, INTERRUPT)
                    &&& flag(c2, DECIMAL) == flag(c, DECIMAL)
                    &&& c2.registers.x == c.registers.x
                    &&& c2.registers.y == c.registers.y
                    &&& c2.registers.sp == c.registers.sp
                    &&& c2.registers.pc == c.registers.pc + 1
                    &&& c2.bus == c.bus
                    &&& n == 2
                },
                Err(e) => e == Fault::Overflow && c.registers.pc + 1 > 0xffff,
            }
        }),
{
    reveal(step);
    lemma_ror_effect::<Implied, dest::Accumulator, source::Accumulator>(c);
    let cin = flag(c, CARRY);
    let v = c.registers.ac;
    let r = (v / 2 + if cin { 128int } else { 0int }) as u8;
    assert(v / 2 + (if cin { 128int } else { 0int }) < 256);
    let c1 = set_flag(c, ZERO, r == 0);
    let c2 = set_flag(c1, NEGATIVE, cin);
    let c3 = set_flag(c2, CARRY, v % 2 == 1);
    lemma_set_flag(c, ZERO, NEGATIVE, r == 0);
    lemma_set_flag(c, ZERO, CARRY, r == 0);
    lemma_set_flag(c, ZERO, OVERFLOW, r == 0);
    lemma_set_flag(c, ZERO, INTERRUPT, r == 0);
    lemma_set_flag(c, ZERO, DECIMAL, r == 0);
    lemma_set_flag(c1, NEGATIVE, ZERO, cin);
    lemma_set_flag(c1, NEGATIVE, CARRY, cin);
    lemma_set_flag(c1, NEGATIVE, OVERFLOW, cin);
    lemma_set_flag(c1, NEGATIVE, INTERRUPT, cin);
    lemma_set_flag(c1, NEGATIVE, DECIMAL, cin);
    lemma_set_flag(c2, CARRY, ZERO, v % 2 == 1);
    lemma_set_flag(c2, CARRY, NEGATIVE, v % 2 == 1);
    lemma_set_flag(c2, CARRY, OVERFLOW, v % 2 == 1);
    lemma_set_flag(c2, CARRY, INTERRUPT, v % 2 == 1);
    lemma_set_flag(c2, CARRY, DECIMAL, v % 2 == 1);
}

} // verus!
