//! Emitting binary RISC-V machine code.

use vstd::prelude::*;
use crate::binemit::{le_bytes4, sink_capacity, CodeSink, Relocation, RelocTarget, Reloc};
use crate::ir::{Encoding, InstructionData};
use crate::isa::registers::RegUnit;
use crate::predicates::signed_int_fits;
use crate::regalloc::{diverted, Diversion, RegDiversions, ValueLoc};

verus! {

/// The base opcode field of an instruction word: `opcode[6:2]` from the encoding bits, with the
/// two low bits set.
pub open spec fn opcode_field(bits: u16) -> u32 {
    0x3u32 | (((bits as u32) & 0x1f) << 2u32)
}

/// R-type word: `funct7 rs2 rs1 funct3 rd opcode`.
pub open spec fn r_type(bits: u16, rs1: RegUnit, rs2: RegUnit, rd: RegUnit) -> u32 {
    0x3u32 | (((bits as u32) & 0x1f) << 2u32) | (((rd as u32) & 0x1f) << 7u32) | ((((
    bits as u32) >> 5u32) & 0x7) << 12u32) | (((rs1 as u32) & 0x1f) << 15u32) | (((rs2 as u32)
        & 0x1f) << 20u32) | ((((bits as u32) >> 8u32) & 0x7f) << 25u32)
}

/// R-type word with a shift amount in place of `rs2`: `funct7 shamt rs1 funct3 rd opcode`.
pub open spec fn rshamt_type(bits: u16, rs1: RegUnit, shamt: i64, rd: RegUnit) -> u32 {
    0x3u32 | (((bits as u32) & 0x1f) << 2u32) | (((rd as u32) & 0x1f) << 7u32) | ((((
    bits as u32) >> 5u32) & 0x7) << 12u32) | (((rs1 as u32) & 0x1f) << 15u32) | (((shamt as u32)
        & 0x3f) << 20u32) | ((((bits as u32) >> 8u32) & 0x7f) << 25u32)
}

/// I-type word: `imm rs1 funct3 rd opcode`.
pub open spec fn i_type(bits: u16, rs1: RegUnit, imm: i64, rd: RegUnit) -> u32 {
    0x3u32 | (((bits as u32) & 0x1f) << 2u32) | (((rd as u32) & 0x1f) << 7u32) | ((((
    bits as u32) >> 5u32) & 0x7) << 12u32) | (((rs1 as u32) & 0x1f) << 15u32) | ((imm as u32)
        << 20u32)
}

/// U-type word: `imm rd opcode`, the immediate's low 12 bits dropped.
pub open spec fn u_type(bits: u16, imm: i64, rd: RegUnit) -> u32 {
    0x3u32 | (((bits as u32) & 0x1f) << 2u32) | (((rd as u32) & 0x1f) << 7u32) | ((imm as u32)
        & 0xfffff000u32)
}

/// SB-type branch word: `imm[12|10:5] rs2 rs1 funct3 imm[4:1|11] opcode`.
pub open spec fn sb_type(bits: u16, imm: i64, rs1: RegUnit, rs2: RegUnit) -> u32 {
    0x3u32 | (((bits as u32) & 0x1f) << 2u32) | ((((bits as u32) >> 5u32) & 0x7) << 12u32) | (((
    rs1 as u32) & 0x1f) << 15u32) | (((rs2 as u32) & 0x1f) << 20u32) | ((((imm as u32) >> 11u32)
        & 0x1) << 7u32) | ((((imm as u32) >> 1u32) & 0xf) << 8u32) | ((((imm as u32) >> 5u32)
        & 0x3f) << 25u32) | ((((imm as u32) >> 12u32) & 0x1) << 31u32)
}

/// UJ-type jump word: `imm[20|10:1|11|19:12] rd opcode`.
pub open spec fn uj_type(bits: u16, imm: i64, rd: RegUnit) -> u32 {
    0x3u32 | (((bits as u32) & 0x1f) << 2u32) | (((rd as u32) & 0x1f) << 7u32) | ((imm as u32)
        & 0xff000u32) | ((((imm as u32) >> 11u32) & 0x1) << 20u32) | ((((imm as u32) >> 1u32)
        & 0x3ff) << 21u32) | ((((imm as u32) >> 20u32) & 0x1) << 31u32)
}

/// R-type instructions.
///
///   31     24  19  14     11 6
///   funct7 rs2 rs1 funct3 rd opcode
///       25  20  15     12  7      0
///
/// Encoding bits: `opcode[6:2] | (funct3 << 5) | (funct7 << 8)`.
fn put_r(bits: u16, rs1: RegUnit, rs2: RegUnit, rd: RegUnit, sink: &mut CodeSink)
    ensures
        final(sink).bytes() == old(sink).bytes() + le_bytes4(r_type(bits, rs1, rs2, rd)),
        final(sink).relocs() == old(sink).relocs(),
        final(sink).traps() == old(sink).traps(),
{
    let bits = bits as u32;
    let opcode5 = bits & 0x1f;
    let funct3 = (bits >> 5u32) & 0x7;
    let funct7 = (bits >> 8u32) & 0x7f;
    let rs1 = (rs1 as u32) & 0x1f;
    let rs2 = (rs2 as u32) & 0x1f;
    let rd = (rd as u32) & 0x1f;

    // 0-6: opcode
    let mut i: u32 = 0x3;
    i |= opcode5 << 2u32;
    i |= rd << 7u32;
    i |= funct3 << 12u32;
    i |= rs1 << 15u32;
    i |= rs2 << 20u32;
    i |= funct7 << 25u32;

    sink.put4(i);
}

/// R-type instructions with a shift amount instead of rs2.
///
///   31     25    19  14     11 6
///   funct7 shamt rs1 funct3 rd opcode
///       25    20  15     12  7      0
///
/// Both funct7 and shamt contribute to bit 25. In RV64, shamt uses it for shifts > 31.
///
/// Encoding bits: `opcode[6:2] | (funct3 << 5) | (funct7 << 8)`.
fn put_rshamt(bits: u16, rs1: RegUnit, shamt: i64, rd: RegUnit, sink: &mut CodeSink)
    ensures
        final(sink).bytes() == old(sink).bytes() + le_bytes4(rshamt_type(bits, rs1, shamt, rd)),
        final(sink).relocs() == old(sink).relocs(),
        final(sink).traps() == old(sink).traps(),
{
    let bits = bits as u32;
    let opcode5 = bits & 0x1f;
    let funct3 = (bits >> 5u32) & 0x7;
    let funct7 = (bits >> 8u32) & 0x7f;
    let rs1 = (rs1 as u32) & 0x1f;
    let shamt = shamt as u32 & 0x3f;
    let rd = (rd as u32) & 0x1f;

    // 0-6: opcode
    let mut i: u32 = 0x3;
    i |= opcode5 << 2u32;
    i |= rd << 7u32;
    i |= funct3 << 12u32;
    i |= rs1 << 15u32;
    i |= shamt << 20u32;
    i |= funct7 << 25u32;

    sink.put4(i);
}

/// I-type instructions.
///
///   31  19  14     11 6
///   imm rs1 funct3 rd opcode
///    20  15     12  7      0
///
/// Encoding bits: `opcode[6:2] | (funct3 << 5)`
fn put_i(bits: u16, rs1: RegUnit, imm: i64, rd: RegUnit, sink: &mut CodeSink)
    ensures
        final(sink).bytes() == old(sink).bytes() + le_bytes4(i_type(bits, rs1, imm, rd)),
        final(sink).relocs() == old(sink).relocs(),
        final(sink).traps() == old(sink).traps(),
{
    let bits = bits as u32;
    let opcode5 = bits & 0x1f;
    let funct3 = (bits >> 5u32) & 0x7;
    let rs1 = (rs1 as u32) & 0x1f;
    let rd = (rd as u32) & 0x1f;

    // 0-6: opcode
    let mut i: u32 = 0x3;
    i |= opcode5 << 2u32;
    i |= rd << 7u32;
    i |= funct3 << 12u32;
    i |= rs1 << 15u32;
    i |= (imm as u32) << 20u32;

    sink.put4(i);
}

/// U-type instructions.
///
///   31  11 6
///   imm rd opcode
///    12  7      0
///
/// Encoding bits: `opcode[6:2] | (funct3 << 5)`
fn put_u(bits: u16, imm: i64, rd: RegUnit, sink: &mut CodeSink)
    ensures
        final(sink).bytes() == old(sink).bytes() + le_bytes4(u_type(bits, imm, rd)),
        final(sink).relocs() == old(sink).relocs(),
        final(sink).traps() == old(sink).traps(),
{
    let bits = bits as u32;
    let opcode5 = bits & 0x1f;
    let rd = (rd as u32) & 0x1f;

    // 0-6: opcode
    let mut i: u32 = 0x3;
    i |= opcode5 << 2u32;
    i |= rd << 7u32;
    i |= imm as u32 & 0xfffff000u32;

    sink.put4(i);
}

/// SB-type branch instructions.
///
///   31  24  19  14     11  6
///   imm rs2 rs1 funct3 imm opcode
///    25  20  15     12   7      0
///
/// Encoding bits: `opcode[6:2] | (funct3 << 5)`
fn put_sb(bits: u16, imm: i64, rs1: RegUnit, rs2: RegUnit, sink: &mut CodeSink)
    requires
        signed_int_fits(imm, 13, 1),
    ensures
        final(sink).bytes() == old(sink).bytes() + le_bytes4(sb_type(bits, imm, rs1, rs2)),
        final(sink).relocs() == old(sink).relocs(),
        final(sink).traps() == old(sink).traps(),
{
    let bits = bits as u32;
    let opcode5 = bits & 0x1f;
    let funct3 = (bits >> 5u32) & 0x7;
    let rs1 = (rs1 as u32) & 0x1f;
    let rs2 = (rs2 as u32) & 0x1f;

    let imm = imm as u32;

    // 0-6: opcode
    let mut i: u32 = 0x3;
    i |= opcode5 << 2u32;
    i |= funct3 << 12u32;
    i |= rs1 << 15u32;
    i |= rs2 << 20u32;

    // The displacement is completely hashed up.
    i |= ((imm >> 11u32) & 0x1) << 7u32;
    i |= ((imm >> 1u32) & 0xf) << 8u32;
    i |= ((imm >> 5u32) & 0x3f) << 25u32;
    i |= ((imm >> 12u32) & 0x1) << 31u32;

    sink.put4(i);
}

/// UJ-type jump instructions.
///
///   31  11 6
///   imm rd opcode
///    12  7      0
///
/// Encoding bits: `opcode[6:2]`
fn put_uj(bits: u16, imm: i64, rd: RegUnit, sink: &mut CodeSink)
    requires
        signed_int_fits(imm, 21, 1),
    ensures
        final(sink).bytes() == old(sink).bytes() + le_bytes4(uj_type(bits, imm, rd)),
        final(sink).relocs() == old(sink).relocs(),
        final(sink).traps() == old(sink).traps(),
{
    let bits = bits as u32;
    let opcode5 = bits & 0x1f;
    let rd = (rd as u32) & 0x1f;

    let imm = imm as u32;

    // 0-6: opcode
    let mut i: u32 = 0x3;
    i |= opcode5 << 2u32;
    i |= rd << 7u32;

    // The displacement is completely hashed up.
    i |= imm & 0xff000u32;
    i |= ((imm >> 11u32) & 0x1) << 20u32;
    i |= ((imm >> 1u32) & 0x3ff) << 21u32;
    i |= ((imm >> 20u32) & 0x1) << 31u32;

    sink.put4(i);
}

} // verus!

verus! {

/// The immediate of a B-type (SB) branch word, sign-extended, as the processor decodes it.
pub open spec fn sb_displacement(w: u32) -> i64 {
    let v: u32 = (((w >> 31u32) & 1) << 12u32) | (((w >> 7u32) & 1) << 11u32) | (((w >> 25u32)
        & 0x3f) << 5u32) | (((w >> 8u32) & 0xf) << 1u32);
    (((v << 19u32) as i32) >> 19i32) as i64
}

/// The immediate of a J-type (UJ) jump word, sign-extended, as the processor decodes it.
pub open spec fn uj_displacement(w: u32) -> i64 {
    let v: u32 = (((w >> 31u32) & 1) << 20u32) | (((w >> 12u32) & 0xff) << 12u32) | (((w
        >> 20u32) & 1) << 11u32) | (((w >> 21u32) & 0x3ff) << 1u32);
    (((v << 11u32) as i32) >> 11i32) as i64
}

/// Each field of an R-type word holds the corresponding operand: opcode and function bits from
/// the encoding bits, and the low five bits of each register.
pub proof fn law_r_type_fields(bits: u16, rs1: RegUnit, rs2: RegUnit, rd: RegUnit)
    ensures
        r_type(bits, rs1, rs2, rd) & 0x7f == opcode_field(bits),
        (r_type(bits, rs1, rs2, rd) >> 7u32) & 0x1f == (rd as u32) & 0x1f,
        (r_type(bits, rs1, rs2, rd) >> 12u32) & 0x7 == ((bits as u32) >> 5u32) & 0x7,
        (r_type(bits, rs1, rs2, rd) >> 15u32) & 0x1f == (rs1 as u32) & 0x1f,
        (r_type(bits, rs1, rs2, rd) >> 20u32) & 0x1f == (rs2 as u32) & 0x1f,
        r_type(bits, rs1, rs2, rd) >> 25u32 == ((bits as u32) >> 8u32) & 0x7f,
{
    let w = r_type(bits, rs1, rs2, rd);
    let b = bits as u32;
    let s1 = rs1 as u32;
    let s2 = rs2 as u32;
    let d = rd as u32;
    assert({
        &&& w & 0x7f == 0x3u32 | ((b & 0x1f) << 2u32)
        &&& (w >> 7u32) & 0x1f == d & 0x1f
        &&& (w >> 12u32) & 0x7 == (b >> 5u32) & 0x7
        &&& (w >> 15u32) & 0x1f == s1 & 0x1f
        &&& (w >> 20u32) & 0x1f == s2 & 0x1f
        &&& w >> 25u32 == (b >> 8u32) & 0x7f
    }) by (bit_vector)
        requires
            w == 0x3u32 | ((b & 0x1f) << 2u32) | ((d & 0x1f) << 7u32) | (((b >> 5u32) & 0x7)
                << 12u32) | ((s1 & 0x1f) << 15u32) | ((s2 & 0x1f) << 20u32) | (((b >> 8u32) & 0x7f)
                << 25u32),
            b < 0x10000,
    ;
}

/// An I-type word keeps the low 20 bits of its opcode, register and function fields, and its
/// top 12 bits sign-extend back to the immediate when the immediate fits in 12 signed bits.
pub proof fn law_i_type_immediate(bits: u16, rs1: RegUnit, imm: i64, rd: RegUnit)
    requires
        -2048 <= imm < 2048,
    ensures
        (((i_type(bits, rs1, imm, rd) as i32) >> 20i32) as i64) == imm,
        i_type(bits, rs1, imm, rd) & 0xfffff == i_type(bits, rs1, 0, rd),
        (i_type(bits, rs1, imm, rd) >> 15u32) & 0x1f == (rs1 as u32) & 0x1f,
        (i_type(bits, rs1, imm, rd) >> 7u32) & 0x1f == (rd as u32) & 0x1f,
{
    let w = i_type(bits, rs1, imm, rd);
    let w0 = i_type(bits, rs1, 0, rd);
    let b = bits as u32;
    let s1 = rs1 as u32;
    let d = rd as u32;
    let lo: u32 = 0x3u32 | ((b & 0x1f) << 2u32) | ((d & 0x1f) << 7u32) | (((b >> 5u32) & 0x7)
        << 12u32) | ((s1 & 0x1f) << 15u32);
    assert(w0 == lo | ((0i64 as u32) << 20u32));
    assert({
        &&& (((w as i32) >> 20i32) as i64) == imm
        &&& w & 0xfffff == w0
        &&& (w >> 15u32) & 0x1f == s1 & 0x1f
        &&& (w >> 7u32) & 0x1f == d & 0x1f
    }) by (bit_vector)
        requires
            -2048 <= imm < 2048,
            lo == 0x3u32 | ((b & 0x1f) << 2u32) | ((d & 0x1f) << 7u32) | (((b >> 5u32) & 0x7)
                << 12u32) | ((s1 & 0x1f) << 15u32),
            w == lo | ((imm as u32) << 20u32),
            w0 == lo | ((0i64 as u32) << 20u32),
            b < 0x10000,
    ;
}

/// A U-type word holds the upper 20 bits of the immediate.
pub proof fn law_u_type_immediate(bits: u16, imm: i64, rd: RegUnit)
    ensures
        u_type(bits, imm, rd) & 0xfffff000u32 == (imm as u32) & 0xfffff000u32,
        (u_type(bits, imm, rd) >> 7u32) & 0x1f == (rd as u32) & 0x1f,
{
    let w = u_type(bits, imm, rd);
    let b = bits as u32;
    let d = rd as u32;
    let x = imm as u32;
    assert(w & 0xfffff000u32 == x & 0xfffff000u32 && (w >> 7u32) & 0x1f == d & 0x1f) by (bit_vector)
        requires
            w == 0x3u32 | ((b & 0x1f) << 2u32) | ((d & 0x1f) << 7u32) | (x & 0xfffff000u32),
            b < 0x10000,
    ;
}

/// The branch displacement scattered over an SB-type word decodes back to the displacement.
pub proof fn law_sb_type_displacement(bits: u16, imm: i64, rs1: RegUnit, rs2: RegUnit)
    requires
        -4096 <= imm < 4096,
        imm % 2 == 0,
    ensures
        sb_displacement(sb_type(bits, imm, rs1, rs2)) == imm,
{
    let w = sb_type(bits, imm, rs1, rs2);
    let x = imm as u32;
    let b = bits as u32;
    let s1 = rs1 as u32;
    let s2 = rs2 as u32;
    let v: u32 = (((w >> 31u32) & 1) << 12u32) | (((w >> 7u32) & 1) << 11u32) | (((w >> 25u32)
        & 0x3f) << 5u32) | (((w >> 8u32) & 0xf) << 1u32);
    assert((((v << 19u32) as i32) >> 19i32) as i64 == imm) by (bit_vector)
        requires
            -4096 <= imm < 4096,
            imm % 2 == 0,
            x == imm as u32,
            w == 0x3u32 | ((b & 0x1f) << 2u32) | (((b >> 5u32) & 0x7) << 12u32) | ((s1 & 0x1f)
                << 15u32) | ((s2 & 0x1f) << 20u32) | (((x >> 11u32) & 0x1) << 7u32) | (((x
                >> 1u32) & 0xf) << 8u32) | (((x >> 5u32) & 0x3f) << 25u32) | (((x >> 12u32) & 0x1)
                << 31u32),
            v == (((w >> 31u32) & 1) << 12u32) | (((w >> 7u32) & 1) << 11u32) | (((w >> 25u32)
                & 0x3f) << 5u32) | (((w >> 8u32) & 0xf) << 1u32),
    ;
}

/// The jump displacement scattered over a UJ-type word decodes back to the displacement.
pub proof fn law_uj_type_displacement(bits: u16, imm: i64, rd: RegUnit)
    requires
        -0x100000 <= imm < 0x100000,
        imm % 2 == 0,
    ensures
        uj_displacement(uj_type(bits, imm, rd)) == imm,
{
    let w = uj_type(bits, imm, rd);
    let x = imm as u32;
    let b = bits as u32;
    let d = rd as u32;
    let v: u32 = (((w >> 31u32) & 1) << 20u32) | (((w >> 12u32) & 0xff) << 12u32) | (((w
        >> 20u32) & 1) << 11u32) | (((w >> 21u32) & 0x3ff) << 1u32);
    assert((((v << 11u32) as i32) >> 11i32) as i64 == imm) by (bit_vector)
        requires
            -0x100000 <= imm < 0x100000,
            imm % 2 == 0,
            x == imm as u32,
            w == 0x3u32 | ((b & 0x1f) << 2u32) | ((d & 0x1f) << 7u32) | (x & 0xff000u32) | (((x
                >> 11u32) & 0x1) << 20u32) | (((x >> 1u32) & 0x3ff) << 21u32) | (((x >> 20u32)
                & 0x1) << 31u32),
            v == (((w >> 31u32) & 1) << 20u32) | (((w >> 12u32) & 0xff) << 12u32) | (((w
                >> 20u32) & 1) << 11u32) | (((w >> 21u32) & 0x3ff) << 1u32),
    ;
}

} // verus!

verus! {

/// The branch displacement from the current offset to a destination offset.
pub open spec fn displacement(destination: u32, offset: int) -> i64 {
    (destination - offset) as i64
}

/// The inputs for which `emit_inst` emits: the recipe's instruction format matches, a branch
/// displacement fits its field, and the recipe is implemented; or the encoding is the illegal
/// placeholder, for which nothing is emitted.
pub open spec fn emit_accepts(enc: Encoding, inst: InstructionData, offset: int) -> bool {
    let r = enc.recipe;
    if r >= 20 {
        !enc.spec_is_legal()
    } else {
        match inst {
            InstructionData::Binary { .. } => r == 0,
            InstructionData::BinaryImm { .. } => r == 1 || r == 3,
            InstructionData::IntCompare { .. } => r == 2,
            InstructionData::UnaryImm { .. } => r == 4 || r == 11,
            InstructionData::IntCompareImm { .. } => r == 5,
            InstructionData::MultiAry { .. } => r == 6,
            InstructionData::CallIndirect { args } => r == 7 && args@.len() >= 1,
            InstructionData::Unary { .. } => r == 8 || r == 18 || r == 19,
            InstructionData::RegMove { .. } => r == 9,
            InstructionData::CopyToSsa { .. } => r == 10,
            InstructionData::Jump { destination } => r == 12 && signed_int_fits(
                displacement(destination, offset),
                21,
                1,
            ),
            InstructionData::Call { .. } => r == 13,
            InstructionData::BranchIntCompare { destination, .. } => r == 14 && signed_int_fits(
                displacement(destination, offset),
                13,
                1,
            ),
            InstructionData::Branch { destination, .. } => r == 15 && signed_int_fits(
                displacement(destination, offset),
                13,
                1,
            ),
        }
    }
}

/// The instruction word a recipe emits for an instruction at `offset`, if it emits one.
pub open spec fn emitted_word(enc: Encoding, inst: InstructionData, offset: int) -> Option<u32> {
    let bits = enc.bits;
    match inst {
        InstructionData::Binary { args, result } => Some(
            r_type(bits, args[0].reg, args[1].reg, result.reg),
        ),
        InstructionData::BinaryImm { arg, imm, result } => if enc.recipe == 1 {
            Some(rshamt_type(bits, arg.reg, imm, result.reg))
        } else {
            Some(i_type(bits, arg.reg, imm, result.reg))
        },
        InstructionData::IntCompare { args, result, .. } => Some(
            r_type(bits, args[0].reg, args[1].reg, result.reg),
        ),
        InstructionData::UnaryImm { imm, result } => if enc.recipe == 4 {
            Some(i_type(bits, 0, imm, result.reg))
        } else {
            Some(u_type(bits, imm, result.reg))
        },
        InstructionData::IntCompareImm { arg, imm, result, .. } => Some(
            i_type(bits, arg.reg, imm, result.reg),
        ),
        InstructionData::MultiAry { .. } => Some(i_type(bits, 1, 0, 0)),
        InstructionData::CallIndirect { args } => Some(i_type(bits, args@[0].reg, 0, 1)),
        InstructionData::Unary { arg, result } => if enc.recipe == 8 {
            Some(i_type(bits, arg.reg, 0, result.reg))
        } else {
            None
        },
        InstructionData::RegMove { src, dst, .. } => Some(i_type(bits, src, 0, dst)),
        InstructionData::CopyToSsa { src, result } => Some(i_type(bits, src, 0, result.reg)),
        InstructionData::Jump { destination } => Some(
            uj_type(bits, displacement(destination, offset), 0),
        ),
        InstructionData::Call { .. } => Some(uj_type(bits, 0, 1)),
        InstructionData::BranchIntCompare { args, destination, .. } => Some(
            sb_type(bits, displacement(destination, offset), args[0].reg, args[1].reg),
        ),
        InstructionData::Branch { arg, destination } => Some(
            sb_type(bits, displacement(destination, offset), arg.reg, 0),
        ),
    }
}

/// The bytes emitted for an accepted instruction.
pub open spec fn emitted(enc: Encoding, inst: InstructionData, offset: int) -> Seq<u8> {
    if enc.recipe >= 20 {
        Seq::empty()
    } else {
        match emitted_word(enc, inst, offset) {
            Some(w) => le_bytes4(w),
            None => Seq::empty(),
        }
    }
}

/// The relocations recorded for an accepted instruction: a call records where its target goes.
pub open spec fn emitted_relocs(enc: Encoding, inst: InstructionData, offset: int) -> Seq<
    Relocation,
> {
    match inst {
        InstructionData::Call { func_ref, .. } => if enc.recipe == 13 {
            seq![Relocation { offset: offset as u32, kind: Reloc::RiscvCall, target: RelocTarget::External(func_ref), addend: 0 }]
        } else {
            Seq::empty()
        },
        _ => Seq::empty(),
    }
}

/// The diversions after emitting: the register move recipe diverts the value it moves.
pub open spec fn diversions_after(enc: Encoding, inst: InstructionData, m: Map<u32, Diversion>) -> Map<u32, Diversion> {
    match inst {
        InstructionData::RegMove { value, src, dst, .. } => if enc.recipe == 9 {
            diverted(m, value, ValueLoc::Reg(src), ValueLoc::Reg(dst))
        } else {
            m
        },
        _ => m,
    }
}

/// A moved value that is already diverted lives in the register the move takes it from.
pub open spec fn diversion_consistent(enc: Encoding, inst: InstructionData, m: Map<u32, Diversion>) -> bool {
    match inst {
        InstructionData::RegMove { value, src, .. } => m.contains_key(value) ==> m[value].to
            == ValueLoc::Reg(src),
        _ => true,
    }
}

/// Emit binary machine code for `inst` for the riscv ISA.
pub fn emit_inst(encoding: Encoding, inst: &InstructionData, divert: &mut RegDiversions, sink: &mut CodeSink)
    requires
        old(sink).bytes().len() <= sink_capacity(),
        emit_accepts(encoding, *inst, old(sink).bytes().len() as int),
        diversion_consistent(encoding, *inst, old(divert)@),
    ensures
        final(sink).bytes() == old(sink).bytes() + emitted(
            encoding,
            *inst,
            old(sink).bytes().len() as int,
        ),
        final(sink).relocs() == old(sink).relocs() + emitted_relocs(
            encoding,
            *inst,
            old(sink).bytes().len() as int,
        ),
        final(sink).traps() == old(sink).traps(),
        final(divert)@ == diversions_after(encoding, *inst, old(divert)@),
{
    let bits = encoding.bits;
    let ghost off = old(sink).bytes().len() as int;
    if encoding.recipe >= 20 {
        // Only the illegal placeholder encoding gets here, and nothing is emitted for it.
        assert(old(sink).bytes() + emitted(encoding, *inst, off) =~= old(sink).bytes());
        assert(old(sink).relocs() + emitted_relocs(encoding, *inst, off) =~= old(sink).relocs());
        return;
    }
    match inst {
        // Recipe R (0) and Ricmp (2).
        InstructionData::Binary { args, result } => {
            put_r(bits, args[0].reg, args[1].reg, result.reg, sink);
        },
        InstructionData::IntCompare { args, result, .. } => {
            put_r(bits, args[0].reg, args[1].reg, result.reg, sink);
        },
        // Recipe Rshamt (1) and Ii (3).
        InstructionData::BinaryImm { arg, imm, result } => {
            if encoding.recipe == 1 {
                put_rshamt(bits, arg.reg, *imm, result.reg, sink);
            } else {
                put_i(bits, arg.reg, *imm, result.reg, sink);
            }
        },
        // Recipe Iz (4) and U (11).
        InstructionData::UnaryImm { imm, result } => {
            if encoding.recipe == 4 {
                put_i(bits, 0, *imm, result.reg, sink);
            } else {
                put_u(bits, *imm, result.reg, sink);
            }
        },
        // Recipe Iicmp (5).
        InstructionData::IntCompareImm { arg, imm, result, .. } => {
            put_i(bits, arg.reg, *imm, result.reg, sink);
        },
        // Recipe Iret (6).
        InstructionData::MultiAry { .. } => {
            // Return instructions are always a jalr to %x1.
            // The return address is provided as a special-purpose link argument.
            put_i(
                bits,
                1,  // rs1 = %x1
                0,  // no offset.
                0,  // rd = %x0: no address written.
                sink,
            );
        },
        // Recipe Icall (7).
        InstructionData::CallIndirect { args } => {
            // call_indirect instructions are jalr with rd=%x1.
            put_i(
                bits,
                args[0].reg,
                0,  // no offset.
                1,  // rd = %x1: link register.
                sink,
            );
        },
        // Recipe Icopy (8), stacknull (18) and fillnull (19).
        InstructionData::Unary { arg, result } => {
            if encoding.recipe == 8 {
                put_i(bits, arg.reg, 0, result.reg, sink);
            } else {
                assert(old(sink).bytes() + emitted(encoding, *inst, off) =~= old(sink).bytes());
            }
        },
        // Recipe Irmov (9).
        InstructionData::RegMove { value, src, dst, .. } => {
            divert.regmove(*value, *src, *dst);
            put_i(bits, *src, 0, *dst, sink);
        },
        // Recipe copytossa (10).
        InstructionData::CopyToSsa { src, result } => {
            put_i(bits, *src, 0, result.reg, sink);
        },
        // Recipe UJ (12).
        InstructionData::Jump { destination } => {
            let dest = *destination as i64;
            let disp = dest - (sink.offset() as i64);
            put_uj(bits, disp, 0, sink);
        },
        // Recipe UJcall (13).
        InstructionData::Call { func_ref, .. } => {
            sink.reloc_external(Reloc::RiscvCall, *func_ref, 0);
            // rd=%x1 is the standard link register.
            assert(signed_int_fits(0, 21, 1)) by (bit_vector);
            put_uj(bits, 0, 1, sink);
        },
        // Recipe SB (14).
        InstructionData::BranchIntCompare { args, destination, .. } => {
            let dest = *destination as i64;
            let disp = dest - (sink.offset() as i64);
            put_sb(bits, disp, args[0].reg, args[1].reg, sink);
        },
        // Recipe SBzero (15).
        InstructionData::Branch { arg, destination } => {
            let dest = *destination as i64;
            let disp = dest - (sink.offset() as i64);
            put_sb(bits, disp, arg.reg, 0, sink);
        },
    }
    assert(final(sink).relocs() =~= old(sink).relocs() + emitted_relocs(encoding, *inst, off));
}

} // verus!

verus! {

/// The `rd` field of an instruction word (bits 7 to 11).
pub open spec fn rd_field(w: u32) -> u32 {
    (w >> 7u32) & 0x1f
}

/// The `rs1` field of an instruction word (bits 15 to 19).
pub open spec fn rs1_field(w: u32) -> u32 {
    (w >> 15u32) & 0x1f
}

/// The `rs2` field of an instruction word (bits 20 to 24).
pub open spec fn rs2_field(w: u32) -> u32 {
    (w >> 20u32) & 0x1f
}

/// The register and immediate fields of the I-type, shift and SB-type words, for any immediate.
proof fn lemma_word_fields(bits: u16, rs1: RegUnit, rs2: RegUnit, imm: i64, rd: RegUnit)
    by (bit_vector)
    ensures
        (i_type(bits, rs1, imm, rd) >> 15u32) & 0x1f == (rs1 as u32) & 0x1f,
        (i_type(bits, rs1, imm, rd) >> 7u32) & 0x1f == (rd as u32) & 0x1f,
        i_type(bits, rs1, imm, rd) >> 20u32 == (imm as u32) & 0xfff,
        (rshamt_type(bits, rs1, imm, rd) >> 15u32) & 0x1f == (rs1 as u32) & 0x1f,
        (rshamt_type(bits, rs1, imm, rd) >> 7u32) & 0x1f == (rd as u32) & 0x1f,
        (rshamt_type(bits, rs1, imm, rd) >> 20u32) & 0x1f == (imm as u32) & 0x1f,
        (sb_type(bits, imm, rs1, rs2) >> 15u32) & 0x1f == (rs1 as u32) & 0x1f,
        (sb_type(bits, imm, rs1, rs2) >> 20u32) & 0x1f == (rs2 as u32) & 0x1f,
        (uj_type(bits, imm, rd) >> 7u32) & 0x1f == (rd as u32) & 0x1f,
        (0u16 as u32) & 0x1f == 0,
        (1u16 as u32) & 0x1f == 1,
{
}

/// The operands land in the fields the RISC-V formats give them: the first register argument
/// in `rs1`, the second in `rs2`, the result in `rd`, and an immediate in the top bits (the low
/// five bits of a shift amount in bits 20 to 24, the upper 20 bits of a `lui` constant in bits 12 to 31). A register
/// move reads `src` and writes `dst`; a branch compares its first argument (`rs1`) with its
/// second (`rs2`), or with `x0`; calls link through `x1`.
pub proof fn law_emitted_operands(enc: Encoding, inst: InstructionData, offset: int)
    ensures
        emitted_word(enc, inst, offset) matches Some(w) ==> match inst {
            InstructionData::Binary { args, result } => rs1_field(w) == (args[0].reg as u32) & 0x1f
                && rs2_field(w) == (args[1].reg as u32) & 0x1f && rd_field(w) == (result.reg as u32)
                & 0x1f,
            InstructionData::IntCompare { args, result, .. } => rs1_field(w) == (args[0].reg as u32)
                & 0x1f && rs2_field(w) == (args[1].reg as u32) & 0x1f && rd_field(w) == (
            result.reg as u32) & 0x1f,
            InstructionData::BinaryImm { arg, imm, result } => rs1_field(w) == (arg.reg as u32)
                & 0x1f && rd_field(w) == (result.reg as u32) & 0x1f && if enc.recipe == 1 {
                (w >> 20u32) & 0x1f == (imm as u32) & 0x1f
            } else {
                w >> 20u32 == (imm as u32) & 0xfff
            },
            InstructionData::IntCompareImm { arg, imm, result, .. } => rs1_field(w) == (arg.reg as u32)
                & 0x1f && rd_field(w) == (result.reg as u32) & 0x1f && w >> 20u32 == (imm as u32)
                & 0xfff,
            InstructionData::UnaryImm { imm, result } => rd_field(w) == (result.reg as u32) & 0x1f
                && if enc.recipe == 4 {
                rs1_field(w) == 0 && w >> 20u32 == (imm as u32) & 0xfff
            } else {
                w & 0xfffff000u32 == (imm as u32) & 0xfffff000u32
            },
            InstructionData::CallIndirect { args } => rs1_field(w) == (args@[0].reg as u32) & 0x1f
                && rd_field(w) == 1,
            InstructionData::Unary { arg, result } => rs1_field(w) == (arg.reg as u32) & 0x1f
                && rd_field(w) == (result.reg as u32) & 0x1f,
            InstructionData::RegMove { src, dst, .. } => rs1_field(w) == (src as u32) & 0x1f
                && rd_field(w) == (dst as u32) & 0x1f,
            InstructionData::CopyToSsa { src, result } => rs1_field(w) == (src as u32) & 0x1f
                && rd_field(w) == (result.reg as u32) & 0x1f,
            InstructionData::Jump { .. } => rd_field(w) == 0,
            InstructionData::Call { .. } => rd_field(w) == 1,
            InstructionData::BranchIntCompare { args, .. } => rs1_field(w) == (args[0].reg as u32)
                & 0x1f && rs2_field(w) == (args[1].reg as u32) & 0x1f,
            InstructionData::Branch { arg, .. } => rs1_field(w) == (arg.reg as u32) & 0x1f
                && rs2_field(w) == 0,
            InstructionData::MultiAry { .. } => rs1_field(w) == 1 && rd_field(w) == 0,
        },
{
    let bits = enc.bits;
    match inst {
        InstructionData::Binary { args, result } => {
            law_r_type_fields(bits, args[0].reg, args[1].reg, result.reg);
        },
        InstructionData::IntCompare { args, result, .. } => {
            law_r_type_fields(bits, args[0].reg, args[1].reg, result.reg);
        },
        InstructionData::BinaryImm { arg, imm, result } => {
            lemma_word_fields(bits, arg.reg, 0, imm, result.reg);
        },
        InstructionData::IntCompareImm { arg, imm, result, .. } => {
            lemma_word_fields(bits, arg.reg, 0, imm, result.reg);
        },
        InstructionData::UnaryImm { imm, result } => {
            lemma_word_fields(bits, 0, 0, imm, result.reg);
            law_u_type_immediate(bits, imm, result.reg);
        },
        InstructionData::CallIndirect { args } => {
            lemma_word_fields(bits, args@[0].reg, 0, 0, 1);
        },
        InstructionData::Unary { arg, result } => {
            lemma_word_fields(bits, arg.reg, 0, 0, result.reg);
        },
        InstructionData::RegMove { src, dst, .. } => {
            lemma_word_fields(bits, src, 0, 0, dst);
        },
        InstructionData::CopyToSsa { src, result } => {
            lemma_word_fields(bits, src, 0, 0, result.reg);
        },
        InstructionData::Jump { destination } => {
            lemma_word_fields(bits, 0, 0, displacement(destination, offset), 0);
        },
        InstructionData::Call { .. } => {
            lemma_word_fields(bits, 0, 0, 0, 1);
        },
        InstructionData::BranchIntCompare { args, destination, .. } => {
            lemma_word_fields(bits, args[0].reg, args[1].reg, displacement(destination, offset), 0);
        },
        InstructionData::Branch { arg, destination } => {
            lemma_word_fields(bits, arg.reg, 0, displacement(destination, offset), 0);
        },
        InstructionData::MultiAry { .. } => {
            lemma_word_fields(bits, 1, 0, 0, 0);
        },
    }
}

} // verus!
