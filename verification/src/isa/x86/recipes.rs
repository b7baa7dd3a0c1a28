//! The x86 encoding recipes: for each, what it requires of an instruction and the bytes,
//! relocations and traps it emits.

use vstd::prelude::*;
use crate::binemit::{extends, le_bytes4, le_bytes8, sink_capacity, with_bytes, with_reloc, with_stackmap, with_trap, CodeSink, Reloc, RelocTarget, SinkContents};
use crate::ir::{floatcc_inverse, intcc_inverse, is_rounding, InstructionFormat, Opcode, TrapCode};
use crate::isa::registers::RegUnit;
use crate::isa::x86::binemit::{BASE_REX, InstOperands, OpForm, RU_R15, RU_RSP, StackBase, const_disp4, disp1, disp4, fcc2opc, fcc_opcode, fcc_supported, fcscc_byte, fcscc_setcc, icc2opc, icc_opcode, jt_disp4, modrm_byte, modrm_disp32, modrm_disp8, modrm_r_bits, modrm_riprel, modrm_rm, modrm_rr, modrm_sib, modrm_sib_disp32, modrm_sib_disp8, needs_offset, needs_sib_byte, offset_needed, opcode_bytes, opcode_ok, put_opcode, rex1, rex1_value, rex2, rex2_value, rex3, rex3_value, rounding_bits, rounding_mode, sib, sib_byte, sib_byte_needed, sib_noindex, stack_base_reg, stk_base};

verus! {

/// What the recipes get_pinned_reg, null, null_fpr require of an instruction.
pub open spec fn get_pinned_reg_ok(form: OpForm, bits: u16, ops: InstOperands) -> bool {
    true
}

/// What the recipes get_pinned_reg, null, null_fpr emit: the sink contents `s` with the instruction
/// appended.
pub open spec fn get_pinned_reg_emits(form: OpForm, bits: u16, ops: InstOperands, s: SinkContents) -> SinkContents {
    s
}

/// Emit an instruction with the recipes get_pinned_reg, null, null_fpr.
fn get_pinned_reg(form: OpForm, bits: u16, ops: &InstOperands, sink: &mut CodeSink)
    requires
        get_pinned_reg_ok(form, bits, *ops),
        old(sink).bytes().len() + 32 <= sink_capacity(),
    ensures
        final(sink)@ == get_pinned_reg_emits(form, bits, *ops, old(sink)@),
{
}

/// What the recipes get_pinned_reg, null, null_fpr emit only extends the sink contents.
proof fn get_pinned_reg_appends(form: OpForm, bits: u16, ops: InstOperands, s: SinkContents)
    ensures
        extends(s, get_pinned_reg_emits(form, bits, ops, s)),
{
}

/// What the recipe RexOp1set_pinned_reg requires of an instruction.
pub open spec fn set_pinned_reg_ok(form: OpForm, bits: u16, ops: InstOperands) -> bool {
    let in_reg0 = ops.arg0;
    let r15 = RU_R15;
    &&& opcode_ok(form, bits, rex2_value(r15, in_reg0))
}

/// What the recipe RexOp1set_pinned_reg emits: the sink contents `s` with the instruction appended.
pub open spec fn set_pinned_reg_emits(form: OpForm, bits: u16, ops: InstOperands, s: SinkContents) -> SinkContents {
    let in_reg0 = ops.arg0;
    let r15 = RU_R15;
    let s = with_bytes(s, opcode_bytes(form, bits, rex2_value(r15, in_reg0)));
    let s = with_bytes(s, seq![modrm_byte(0b11, (in_reg0) as u8, (r15) as u8)]);
    s
}

/// Emit an instruction with the recipe RexOp1set_pinned_reg.
fn set_pinned_reg(form: OpForm, bits: u16, ops: &InstOperands, sink: &mut CodeSink)
    requires
        set_pinned_reg_ok(form, bits, *ops),
        old(sink).bytes().len() + 32 <= sink_capacity(),
    ensures
        final(sink)@ == set_pinned_reg_emits(form, bits, *ops, old(sink)@),
{
    let in_reg0 = ops.arg0;
    let r15: RegUnit = RU_R15;
    put_opcode(form, bits, rex2(r15, in_reg0), sink);
    modrm_rr(r15, in_reg0, sink);
}

/// What the recipe RexOp1set_pinned_reg emits only extends the sink contents.
proof fn set_pinned_reg_appends(form: OpForm, bits: u16, ops: InstOperands, s: SinkContents)
    ensures
        extends(s, set_pinned_reg_emits(form, bits, ops, s)),
{
}

/// What the recipes Op1rr, RexOp1rr, Op1rout, RexOp1rout, Op1rcmp, RexOp1rcmp, Op2fax, RexOp2fax,
/// Mp2fax, Op1rin, RexOp1rin, Op1rio, RexOp1rio require of an instruction.
pub open spec fn rr_ok(form: OpForm, bits: u16, ops: InstOperands) -> bool {
    let in_reg0 = ops.arg0;
    let in_reg1 = ops.arg1;
    &&& opcode_ok(form, bits, rex2_value(in_reg0, in_reg1))
}

/// What the recipes Op1rr, RexOp1rr, Op1rout, RexOp1rout, Op1rcmp, RexOp1rcmp, Op2fax, RexOp2fax,
/// Mp2fax, Op1rin, RexOp1rin, Op1rio, RexOp1rio emit: the sink contents `s` with the instruction
/// appended.
pub open spec fn rr_emits(form: OpForm, bits: u16, ops: InstOperands, s: SinkContents) -> SinkContents {
    let in_reg0 = ops.arg0;
    let in_reg1 = ops.arg1;
    let s = with_bytes(s, opcode_bytes(form, bits, rex2_value(in_reg0, in_reg1)));
    let s = with_bytes(s, seq![modrm_byte(0b11, (in_reg1) as u8, (in_reg0) as u8)]);
    s
}

/// Emit an instruction with the recipes Op1rr, RexOp1rr, Op1rout, RexOp1rout, Op1rcmp, RexOp1rcmp,
/// Op2fax, RexOp2fax, Mp2fax, Op1rin, RexOp1rin, Op1rio, RexOp1rio.
fn rr(form: OpForm, bits: u16, ops: &InstOperands, sink: &mut CodeSink)
    requires
        rr_ok(form, bits, *ops),
        old(sink).bytes().len() + 32 <= sink_capacity(),
    ensures
        final(sink)@ == rr_emits(form, bits, *ops, old(sink)@),
{
    let in_reg0 = ops.arg0;
    let in_reg1 = ops.arg1;
    put_opcode(form, bits, rex2(in_reg0, in_reg1), sink);
    modrm_rr(in_reg0, in_reg1, sink);
}

/// What the recipes emit only extends the sink contents.
proof fn rr_appends(form: OpForm, bits: u16, ops: InstOperands, s: SinkContents)
    ensures
        extends(s, rr_emits(form, bits, ops, s)),
{
}

/// What the recipes Op1ur, RexOp1ur, Op1rc, RexOp1rc, RexOp1indirect_jmp, Op1indirect_jmp require
/// of an instruction.
pub open spec fn ur_ok(form: OpForm, bits: u16, ops: InstOperands) -> bool {
    let in_reg0 = ops.arg0;
    &&& opcode_ok(form, bits, rex1_value(in_reg0))
}

/// What the recipes Op1ur, RexOp1ur, Op1rc, RexOp1rc, RexOp1indirect_jmp, Op1indirect_jmp emit: the
/// sink contents `s` with the instruction appended.
pub open spec fn ur_emits(form: OpForm, bits: u16, ops: InstOperands, s: SinkContents) -> SinkContents {
    let in_reg0 = ops.arg0;
    let s = with_bytes(s, opcode_bytes(form, bits, rex1_value(in_reg0)));
    let s = with_bytes(s, seq![modrm_byte(0b11, (bits >> 12u16) as u8, (in_reg0) as u8)]);
    s
}

/// Emit an instruction with the recipes Op1ur, RexOp1ur, Op1rc, RexOp1rc, RexOp1indirect_jmp,
/// Op1indirect_jmp.
fn ur(form: OpForm, bits: u16, ops: &InstOperands, sink: &mut CodeSink)
    requires
        ur_ok(form, bits, *ops),
        old(sink).bytes().len() + 32 <= sink_capacity(),
    ensures
        final(sink)@ == ur_emits(form, bits, *ops, old(sink)@),
{
    let in_reg0 = ops.arg0;
    put_opcode(form, bits, rex1(in_reg0), sink);
    modrm_r_bits(in_reg0, bits, sink);
}

/// What the recipes emit only extends the sink contents.
proof fn ur_appends(form: OpForm, bits: u16, ops: InstOperands, s: SinkContents)
    ensures
        extends(s, ur_emits(form, bits, ops, s)),
{
}

/// What the recipes Op2rrx, RexOp2rrx, Mp2fa, RexMp2fa, Op2fa, RexOp2fa, Op2fcmp, RexOp2fcmp,
/// Mp2fcmp, RexMp2fcmp, Mp3fa, Mp3fcmp require of an instruction.
pub open spec fn rrx_ok(form: OpForm, bits: u16, ops: InstOperands) -> bool {
    let in_reg0 = ops.arg0;
    let in_reg1 = ops.arg1;
    &&& opcode_ok(form, bits, rex2_value(in_reg1, in_reg0))
}

/// What the recipes Op2rrx, RexOp2rrx, Mp2fa, RexMp2fa, Op2fa, RexOp2fa, Op2fcmp, RexOp2fcmp,
/// Mp2fcmp, RexMp2fcmp, Mp3fa, Mp3fcmp emit: the sink contents `s` with the instruction appended.
pub open spec fn rrx_emits(form: OpForm, bits: u16, ops: InstOperands, s: SinkContents) -> SinkContents {
    let in_reg0 = ops.arg0;
    let in_reg1 = ops.arg1;
    let s = with_bytes(s, opcode_bytes(form, bits, rex2_value(in_reg1, in_reg0)));
    let s = with_bytes(s, seq![modrm_byte(0b11, (in_reg0) as u8, (in_reg1) as u8)]);
    s
}

/// Emit an instruction with the recipes Op2rrx, RexOp2rrx, Mp2fa, RexMp2fa, Op2fa, RexOp2fa,
/// Op2fcmp, RexOp2fcmp, Mp2fcmp, RexMp2fcmp, Mp3fa, Mp3fcmp.
fn rrx(form: OpForm, bits: u16, ops: &InstOperands, sink: &mut CodeSink)
    requires
        rrx_ok(form, bits, *ops),
        old(sink).bytes().len() + 32 <= sink_capacity(),
    ensures
        final(sink)@ == rrx_emits(form, bits, *ops, old(sink)@),
{
    let in_reg0 = ops.arg0;
    let in_reg1 = ops.arg1;
    put_opcode(form, bits, rex2(in_reg1, in_reg0), sink);
    modrm_rr(in_reg1, in_reg0, sink);
}

/// What the recipes emit only extends the sink contents.
proof fn rrx_appends(form: OpForm, bits: u16, ops: InstOperands, s: SinkContents)
    ensures
        extends(s, rrx_emits(form, bits, ops, s)),
{
}

/// What the recipes Op1div, RexOp1div require of an instruction.
pub open spec fn div_ok(form: OpForm, bits: u16, ops: InstOperands) -> bool {
    let in_reg2 = ops.arg2;
    &&& opcode_ok(form, bits, rex1_value(in_reg2))
}

/// What the recipes Op1div, RexOp1div emit: the sink contents `s` with the instruction appended.
pub open spec fn div_emits(form: OpForm, bits: u16, ops: InstOperands, s: SinkContents) -> SinkContents {
    let in_reg2 = ops.arg2;
    let s = with_trap(s, TrapCode::IntegerDivisionByZero, ops.srcloc);
    let s = with_bytes(s, opcode_bytes(form, bits, rex1_value(in_reg2)));
    let s = with_bytes(s, seq![modrm_byte(0b11, (bits >> 12u16) as u8, (in_reg2) as u8)]);
    s
}

/// Emit an instruction with the recipes Op1div, RexOp1div.
fn div(form: OpForm, bits: u16, ops: &InstOperands, sink: &mut CodeSink)
    requires
        div_ok(form, bits, *ops),
        old(sink).bytes().len() + 32 <= sink_capacity(),
    ensures
        final(sink)@ == div_emits(form, bits, *ops, old(sink)@),
{
    let in_reg2 = ops.arg2;
    sink.trap(TrapCode::IntegerDivisionByZero, ops.srcloc);
    put_opcode(form, bits, rex1(in_reg2), sink);
    modrm_r_bits(in_reg2, bits, sink);
}

/// What the recipes Op1div, RexOp1div emit only extends the sink contents.
proof fn div_appends(form: OpForm, bits: u16, ops: InstOperands, s: SinkContents)
    ensures
        extends(s, div_emits(form, bits, ops, s)),
{
}

/// What the recipes Op1mulx, RexOp1mulx require of an instruction.
pub open spec fn mulx_ok(form: OpForm, bits: u16, ops: InstOperands) -> bool {
    let in_reg1 = ops.arg1;
    &&& opcode_ok(form, bits, rex1_value(in_reg1))
}

/// What the recipes Op1mulx, RexOp1mulx emit: the sink contents `s` with the instruction appended.
pub open spec fn mulx_emits(form: OpForm, bits: u16, ops: InstOperands, s: SinkContents) -> SinkContents {
    let in_reg1 = ops.arg1;
    let s = with_bytes(s, opcode_bytes(form, bits, rex1_value(in_reg1)));
    let s = with_bytes(s, seq![modrm_byte(0b11, (bits >> 12u16) as u8, (in_reg1) as u8)]);
    s
}

/// Emit an instruction with the recipes Op1mulx, RexOp1mulx.
fn mulx(form: OpForm, bits: u16, ops: &InstOperands, sink: &mut CodeSink)
    requires
        mulx_ok(form, bits, *ops),
        old(sink).bytes().len() + 32 <= sink_capacity(),
    ensures
        final(sink)@ == mulx_emits(form, bits, *ops, old(sink)@),
{
    let in_reg1 = ops.arg1;
    put_opcode(form, bits, rex1(in_reg1), sink);
    modrm_r_bits(in_reg1, bits, sink);
}

/// What the recipes Op1mulx, RexOp1mulx emit only extends the sink contents.
proof fn mulx_appends(form: OpForm, bits: u16, ops: InstOperands, s: SinkContents)
    ensures
        extends(s, mulx_emits(form, bits, ops, s)),
{
}

/// What the recipes Op1umr, RexOp1umr, Mp2rfumr, RexMp2rfumr require of an instruction.
pub open spec fn umr_ok(form: OpForm, bits: u16, ops: InstOperands) -> bool {
    let in_reg0 = ops.arg0;
    let out_reg0 = ops.result;
    &&& opcode_ok(form, bits, rex2_value(out_reg0, in_reg0))
}

/// What the recipes Op1umr, RexOp1umr, Mp2rfumr, RexMp2rfumr emit: the sink contents `s` with the
/// instruction appended.
pub open spec fn umr_emits(form: OpForm, bits: u16, ops: InstOperands, s: SinkContents) -> SinkContents {
    let in_reg0 = ops.arg0;
    let out_reg0 = ops.result;
    let s = with_bytes(s, opcode_bytes(form, bits, rex2_value(out_reg0, in_reg0)));
    let s = with_bytes(s, seq![modrm_byte(0b11, (in_reg0) as u8, (out_reg0) as u8)]);
    s
}

/// Emit an instruction with the recipes Op1umr, RexOp1umr, Mp2rfumr, RexMp2rfumr.
fn umr(form: OpForm, bits: u16, ops: &InstOperands, sink: &mut CodeSink)
    requires
        umr_ok(form, bits, *ops),
        old(sink).bytes().len() + 32 <= sink_capacity(),
    ensures
        final(sink)@ == umr_emits(form, bits, *ops, old(sink)@),
{
    let in_reg0 = ops.arg0;
    let out_reg0 = ops.result;
    put_opcode(form, bits, rex2(out_reg0, in_reg0), sink);
    modrm_rr(out_reg0, in_reg0, sink);
}

/// What the recipes Op1umr, RexOp1umr, Mp2rfumr, RexMp2rfumr emit only extends the sink contents.
proof fn umr_appends(form: OpForm, bits: u16, ops: InstOperands, s: SinkContents)
    ensures
        extends(s, umr_emits(form, bits, ops, s)),
{
}

/// What the recipes Op1rmov, RexOp1rmov require of an instruction.
pub open spec fn rmov_ok(form: OpForm, bits: u16, ops: InstOperands) -> bool {
    let src = ops.src;
    let dst = ops.dst;
    &&& opcode_ok(form, bits, rex2_value(dst, src))
}

/// What the recipes Op1rmov, RexOp1rmov emit: the sink contents `s` with the instruction appended.
pub open spec fn rmov_emits(form: OpForm, bits: u16, ops: InstOperands, s: SinkContents) -> SinkContents {
    let src = ops.src;
    let dst = ops.dst;
    let s = with_bytes(s, opcode_bytes(form, bits, rex2_value(dst, src)));
    let s = with_bytes(s, seq![modrm_byte(0b11, (src) as u8, (dst) as u8)]);
    s
}

/// Emit an instruction with the recipes Op1rmov, RexOp1rmov.
fn rmov(form: OpForm, bits: u16, ops: &InstOperands, sink: &mut CodeSink)
    requires
        rmov_ok(form, bits, *ops),
        old(sink).bytes().len() + 32 <= sink_capacity(),
    ensures
        final(sink)@ == rmov_emits(form, bits, *ops, old(sink)@),
{
    let src = ops.src;
    let dst = ops.dst;
    // The diversion this instruction makes is recorded by `emit_inst`.
    put_opcode(form, bits, rex2(dst, src), sink);
    modrm_rr(dst, src, sink);
}

/// What the recipes Op1rmov, RexOp1rmov emit only extends the sink contents.
proof fn rmov_appends(form: OpForm, bits: u16, ops: InstOperands, s: SinkContents)
    ensures
        extends(s, rmov_emits(form, bits, ops, s)),
{
}

/// What the recipes Op1r_ib, RexOp1r_ib, Op1rcmp_ib, RexOp1rcmp_ib require of an instruction.
pub open spec fn r_ib_ok(form: OpForm, bits: u16, ops: InstOperands) -> bool {
    let in_reg0 = ops.arg0;
    &&& opcode_ok(form, bits, rex1_value(in_reg0))
}

/// What the recipes Op1r_ib, RexOp1r_ib, Op1rcmp_ib, RexOp1rcmp_ib emit: the sink contents `s` with
/// the instruction appended.
pub open spec fn r_ib_emits(form: OpForm, bits: u16, ops: InstOperands, s: SinkContents) -> SinkContents {
    let in_reg0 = ops.arg0;
    let s = with_bytes(s, opcode_bytes(form, bits, rex1_value(in_reg0)));
    let s = with_bytes(s, seq![modrm_byte(0b11, (bits >> 12u16) as u8, (in_reg0) as u8)]);
    let imm = ops.imm;
    let s = with_bytes(s, seq![(imm as u8) as u8]);
    s
}

/// Emit an instruction with the recipes Op1r_ib, RexOp1r_ib, Op1rcmp_ib, RexOp1rcmp_ib.
fn r_ib(form: OpForm, bits: u16, ops: &InstOperands, sink: &mut CodeSink)
    requires
        r_ib_ok(form, bits, *ops),
        old(sink).bytes().len() + 32 <= sink_capacity(),
    ensures
        final(sink)@ == r_ib_emits(form, bits, *ops, old(sink)@),
{
    let in_reg0 = ops.arg0;
    put_opcode(form, bits, rex1(in_reg0), sink);
    modrm_r_bits(in_reg0, bits, sink);
    let imm: i64 = ops.imm;
    sink.put1(imm as u8);
}

/// What the recipes Op1r_ib, RexOp1r_ib, Op1rcmp_ib, RexOp1rcmp_ib emit only extends the sink contents.
proof fn r_ib_appends(form: OpForm, bits: u16, ops: InstOperands, s: SinkContents)
    ensures
        extends(s, r_ib_emits(form, bits, ops, s)),
{
}

/// What the recipes Op1r_id, RexOp1r_id, Op1rcmp_id, RexOp1rcmp_id require of an instruction.
pub open spec fn r_id_ok(form: OpForm, bits: u16, ops: InstOperands) -> bool {
    let in_reg0 = ops.arg0;
    &&& opcode_ok(form, bits, rex1_value(in_reg0))
}

/// What the recipes Op1r_id, RexOp1r_id, Op1rcmp_id, RexOp1rcmp_id emit: the sink contents `s` with
/// the instruction appended.
pub open spec fn r_id_emits(form: OpForm, bits: u16, ops: InstOperands, s: SinkContents) -> SinkContents {
    let in_reg0 = ops.arg0;
    let s = with_bytes(s, opcode_bytes(form, bits, rex1_value(in_reg0)));
    let s = with_bytes(s, seq![modrm_byte(0b11, (bits >> 12u16) as u8, (in_reg0) as u8)]);
    let imm = ops.imm;
    let s = with_bytes(s, le_bytes4((imm as u32) as u32));
    s
}

/// Emit an instruction with the recipes Op1r_id, RexOp1r_id, Op1rcmp_id, RexOp1rcmp_id.
fn r_id(form: OpForm, bits: u16, ops: &InstOperands, sink: &mut CodeSink)
    requires
        r_id_ok(form, bits, *ops),
        old(sink).bytes().len() + 32 <= sink_capacity(),
    ensures
        final(sink)@ == r_id_emits(form, bits, *ops, old(sink)@),
{
    let in_reg0 = ops.arg0;
    put_opcode(form, bits, rex1(in_reg0), sink);
    modrm_r_bits(in_reg0, bits, sink);
    let imm: i64 = ops.imm;
    sink.put4(imm as u32);
}

/// What the recipes Op1r_id, RexOp1r_id, Op1rcmp_id, RexOp1rcmp_id emit only extends the sink contents.
proof fn r_id_appends(form: OpForm, bits: u16, ops: InstOperands, s: SinkContents)
    ensures
        extends(s, r_id_emits(form, bits, ops, s)),
{
}

/// What the recipes Op1pu_id, RexOp1pu_id require of an instruction.
pub open spec fn pu_id_ok(form: OpForm, bits: u16, ops: InstOperands) -> bool {
    let out_reg0 = ops.result;
    &&& opcode_ok(form, bits | (out_reg0 & 7), rex1_value(out_reg0))
}

/// What the recipes Op1pu_id, RexOp1pu_id emit: the sink contents `s` with the instruction
/// appended.
pub open spec fn pu_id_emits(form: OpForm, bits: u16, ops: InstOperands, s: SinkContents) -> SinkContents {
    let out_reg0 = ops.result;
    let opcode = ops.opcode;
    let s = with_bytes(s, opcode_bytes(form, bits | (out_reg0 & 7), rex1_value(out_reg0)));
    let imm = ops.imm;
    let s = with_bytes(s, le_bytes4((imm as u32) as u32));
    s
}

/// Emit an instruction with the recipes Op1pu_id, RexOp1pu_id.
fn pu_id(form: OpForm, bits: u16, ops: &InstOperands, sink: &mut CodeSink)
    requires
        pu_id_ok(form, bits, *ops),
        old(sink).bytes().len() + 32 <= sink_capacity(),
    ensures
        final(sink)@ == pu_id_emits(form, bits, *ops, old(sink)@),
{
    let out_reg0 = ops.result;
    let opcode = ops.opcode;
    // The destination register is encoded in the low bits of the opcode.
    // No ModR/M.
    put_opcode(form, bits | (out_reg0 & 7), rex1(out_reg0), sink);
    let imm: i64 = ops.imm;
    sink.put4(imm as u32);
}

/// What the recipes Op1pu_id, RexOp1pu_id emit only extends the sink contents.
proof fn pu_id_appends(form: OpForm, bits: u16, ops: InstOperands, s: SinkContents)
    ensures
        extends(s, pu_id_emits(form, bits, ops, s)),
{
}

/// What the recipe RexOp1u_id requires of an instruction.
pub open spec fn u_id_ok(form: OpForm, bits: u16, ops: InstOperands) -> bool {
    let out_reg0 = ops.result;
    &&& opcode_ok(form, bits, rex1_value(out_reg0))
}

/// What the recipe RexOp1u_id emits: the sink contents `s` with the instruction appended.
pub open spec fn u_id_emits(form: OpForm, bits: u16, ops: InstOperands, s: SinkContents) -> SinkContents {
    let out_reg0 = ops.result;
    let s = with_bytes(s, opcode_bytes(form, bits, rex1_value(out_reg0)));
    let s = with_bytes(s, seq![modrm_byte(0b11, (bits >> 12u16) as u8, (out_reg0) as u8)]);
    let imm = ops.imm;
    let s = with_bytes(s, le_bytes4((imm as u32) as u32));
    s
}

/// Emit an instruction with the recipe RexOp1u_id.
fn u_id(form: OpForm, bits: u16, ops: &InstOperands, sink: &mut CodeSink)
    requires
        u_id_ok(form, bits, *ops),
        old(sink).bytes().len() + 32 <= sink_capacity(),
    ensures
        final(sink)@ == u_id_emits(form, bits, *ops, old(sink)@),
{
    let out_reg0 = ops.result;
    put_opcode(form, bits, rex1(out_reg0), sink);
    modrm_r_bits(out_reg0, bits, sink);
    let imm: i64 = ops.imm;
    sink.put4(imm as u32);
}

/// What the recipe RexOp1u_id emits only extends the sink contents.
proof fn u_id_appends(form: OpForm, bits: u16, ops: InstOperands, s: SinkContents)
    ensures
        extends(s, u_id_emits(form, bits, ops, s)),
{
}

/// What the recipe RexOp1pu_iq requires of an instruction.
pub open spec fn pu_iq_ok(form: OpForm, bits: u16, ops: InstOperands) -> bool {
    let out_reg0 = ops.result;
    &&& opcode_ok(form, bits | (out_reg0 & 7), rex1_value(out_reg0))
}

/// What the recipe RexOp1pu_iq emits: the sink contents `s` with the instruction appended.
pub open spec fn pu_iq_emits(form: OpForm, bits: u16, ops: InstOperands, s: SinkContents) -> SinkContents {
    let out_reg0 = ops.result;
    let s = with_bytes(s, opcode_bytes(form, bits | (out_reg0 & 7), rex1_value(out_reg0)));
    let imm = ops.imm;
    let s = with_bytes(s, le_bytes8((imm as u64) as u64));
    s
}

/// Emit an instruction with the recipe RexOp1pu_iq.
fn pu_iq(form: OpForm, bits: u16, ops: &InstOperands, sink: &mut CodeSink)
    requires
        pu_iq_ok(form, bits, *ops),
        old(sink).bytes().len() + 32 <= sink_capacity(),
    ensures
        final(sink)@ == pu_iq_emits(form, bits, *ops, old(sink)@),
{
    let out_reg0 = ops.result;
    put_opcode(form, bits | (out_reg0 & 7), rex1(out_reg0), sink);
    let imm: i64 = ops.imm;
    sink.put8(imm as u64);
}

/// What the recipe RexOp1pu_iq emits only extends the sink contents.
proof fn pu_iq_appends(form: OpForm, bits: u16, ops: InstOperands, s: SinkContents)
    ensures
        extends(s, pu_iq_emits(form, bits, ops, s)),
{
}

/// What the recipes Op1pu_id_bool, RexOp1pu_id_bool require of an instruction.
pub open spec fn pu_id_bool_ok(form: OpForm, bits: u16, ops: InstOperands) -> bool {
    let out_reg0 = ops.result;
    &&& opcode_ok(form, bits | (out_reg0 & 7), rex1_value(out_reg0))
}

/// What the recipes Op1pu_id_bool, RexOp1pu_id_bool emit: the sink contents `s` with the
/// instruction appended.
pub open spec fn pu_id_bool_emits(form: OpForm, bits: u16, ops: InstOperands, s: SinkContents) -> SinkContents {
    let out_reg0 = ops.result;
    let opcode = ops.opcode;
    let s = with_bytes(s, opcode_bytes(form, bits | (out_reg0 & 7), rex1_value(out_reg0)));
    let imm = if ops.bool_imm { 1u32 } else { 0u32 };
    let s = with_bytes(s, le_bytes4((imm) as u32));
    s
}

/// Emit an instruction with the recipes Op1pu_id_bool, RexOp1pu_id_bool.
fn pu_id_bool(form: OpForm, bits: u16, ops: &InstOperands, sink: &mut CodeSink)
    requires
        pu_id_bool_ok(form, bits, *ops),
        old(sink).bytes().len() + 32 <= sink_capacity(),
    ensures
        final(sink)@ == pu_id_bool_emits(form, bits, *ops, old(sink)@),
{
    let out_reg0 = ops.result;
    let opcode = ops.opcode;
    // The destination register is encoded in the low bits of the opcode.
    // No ModR/M.
    put_opcode(form, bits | (out_reg0 & 7), rex1(out_reg0), sink);
    let imm: u32 = if ops.bool_imm { 1 } else { 0 };
    sink.put4(imm);
}

/// What the recipes Op1pu_id_bool, RexOp1pu_id_bool emit only extends the sink contents.
proof fn pu_id_bool_appends(form: OpForm, bits: u16, ops: InstOperands, s: SinkContents)
    ensures
        extends(s, pu_id_bool_emits(form, bits, ops, s)),
{
}

/// What the recipes Op1u_id_z, RexOp1u_id_z, Op2f32imm_z, RexOp2f32imm_z, Mp2f64imm_z,
/// RexMp2f64imm_z, Mp2vconst_optimized require of an instruction.
pub open spec fn u_id_z_ok(form: OpForm, bits: u16, ops: InstOperands) -> bool {
    let out_reg0 = ops.result;
    &&& opcode_ok(form, bits, rex2_value(out_reg0, out_reg0))
}

/// What the recipes Op1u_id_z, RexOp1u_id_z, Op2f32imm_z, RexOp2f32imm_z, Mp2f64imm_z,
/// RexMp2f64imm_z, Mp2vconst_optimized emit: the sink contents `s` with the instruction appended.
pub open spec fn u_id_z_emits(form: OpForm, bits: u16, ops: InstOperands, s: SinkContents) -> SinkContents {
    let out_reg0 = ops.result;
    let s = with_bytes(s, opcode_bytes(form, bits, rex2_value(out_reg0, out_reg0)));
    let s = with_bytes(s, seq![modrm_byte(0b11, (out_reg0) as u8, (out_reg0) as u8)]);
    s
}

/// Emit an instruction with the recipes Op1u_id_z, RexOp1u_id_z, Op2f32imm_z, RexOp2f32imm_z,
/// Mp2f64imm_z, RexMp2f64imm_z, Mp2vconst_optimized.
fn u_id_z(form: OpForm, bits: u16, ops: &InstOperands, sink: &mut CodeSink)
    requires
        u_id_z_ok(form, bits, *ops),
        old(sink).bytes().len() + 32 <= sink_capacity(),
    ensures
        final(sink)@ == u_id_z_emits(form, bits, *ops, old(sink)@),
{
    let out_reg0 = ops.result;
    put_opcode(form, bits, rex2(out_reg0, out_reg0), sink);
    modrm_rr(out_reg0, out_reg0, sink);
}

/// What the recipes emit only extends the sink contents.
proof fn u_id_z_appends(form: OpForm, bits: u16, ops: InstOperands, s: SinkContents)
    ensures
        extends(s, u_id_z_emits(form, bits, ops, s)),
{
}

/// What the recipes Mp2urm, RexMp2urm, Op2bsf_and_bsr, RexOp2bsf_and_bsr, RexOp2urm_noflags,
/// Op2urm_noflags_abcd, Op2urm_noflags, RexOp1urm_noflags, Mp2frurm, RexMp2frurm, Op2furm,
/// RexOp2furm, Mp2furm, RexMp2furm, Mp2rfurm, RexMp2rfurm require of an instruction.
pub open spec fn urm_ok(form: OpForm, bits: u16, ops: InstOperands) -> bool {
    let in_reg0 = ops.arg0;
    let out_reg0 = ops.result;
    &&& opcode_ok(form, bits, rex2_value(in_reg0, out_reg0))
}

/// What the recipes Mp2urm, RexMp2urm, Op2bsf_and_bsr, RexOp2bsf_and_bsr, RexOp2urm_noflags,
/// Op2urm_noflags_abcd, Op2urm_noflags, RexOp1urm_noflags, Mp2frurm, RexMp2frurm, Op2furm,
/// RexOp2furm, Mp2furm, RexMp2furm, Mp2rfurm, RexMp2rfurm emit: the sink contents `s` with the
/// instruction appended.
pub open spec fn urm_emits(form: OpForm, bits: u16, ops: InstOperands, s: SinkContents) -> SinkContents {
    let in_reg0 = ops.arg0;
    let out_reg0 = ops.result;
    let s = with_bytes(s, opcode_bytes(form, bits, rex2_value(in_reg0, out_reg0)));
    let s = with_bytes(s, seq![modrm_byte(0b11, (out_reg0) as u8, (in_reg0) as u8)]);
    s
}

/// Emit an instruction with the recipes Mp2urm, RexMp2urm, Op2bsf_and_bsr, RexOp2bsf_and_bsr,
/// RexOp2urm_noflags, Op2urm_noflags_abcd, Op2urm_noflags, RexOp1urm_noflags, Mp2frurm,
/// RexMp2frurm, Op2furm, RexOp2furm, Mp2furm, RexMp2furm, Mp2rfurm, RexMp2rfurm.
fn urm(form: OpForm, bits: u16, ops: &InstOperands, sink: &mut CodeSink)
    requires
        urm_ok(form, bits, *ops),
        old(sink).bytes().len() + 32 <= sink_capacity(),
    ensures
        final(sink)@ == urm_emits(form, bits, *ops, old(sink)@),
{
    let in_reg0 = ops.arg0;
    let out_reg0 = ops.result;
    put_opcode(form, bits, rex2(in_reg0, out_reg0), sink);
    modrm_rr(in_reg0, out_reg0, sink);
}

/// What the recipes emit only extends the sink contents.
proof fn urm_appends(form: OpForm, bits: u16, ops: InstOperands, s: SinkContents)
    ensures
        extends(s, urm_emits(form, bits, ops, s)),
{
}

/// What the recipes Op1ldWithIndex, RexOp1ldWithIndex, Op2ldWithIndex, RexOp2ldWithIndex,
/// Mp2fldWithIndex, RexMp2fldWithIndex require of an instruction.
pub open spec fn ld_with_index_ok(form: OpForm, bits: u16, ops: InstOperands) -> bool {
    let in_reg0 = ops.arg0;
    let in_reg1 = ops.arg1;
    let out_reg0 = ops.result;
    &&& opcode_ok(form, bits, rex3_value(in_reg0, out_reg0, in_reg1))
}

/// What the recipes Op1ldWithIndex, RexOp1ldWithIndex, Op2ldWithIndex, RexOp2ldWithIndex,
/// Mp2fldWithIndex, RexMp2fldWithIndex emit: the sink contents `s` with the instruction appended.
pub open spec fn ld_with_index_emits(form: OpForm, bits: u16, ops: InstOperands, s: SinkContents) -> SinkContents {
    let in_reg0 = ops.arg0;
    let in_reg1 = ops.arg1;
    let out_reg0 = ops.result;
    let s = if !ops.notrap {
        let s = with_trap(s, TrapCode::HeapOutOfBounds, ops.srcloc);
        s
    } else {
        s
    };
    let s = with_bytes(s, opcode_bytes(form, bits, rex3_value(in_reg0, out_reg0, in_reg1)));
    let s = if offset_needed(in_reg0) {
        let s = with_bytes(s, seq![modrm_byte(0b01, (out_reg0) as u8, 0b100)]);
        let s = with_bytes(s, seq![sib_byte(0u8, (in_reg1) as u8, (in_reg0) as u8)]);
        let s = with_bytes(s, seq![(0) as u8]);
        s
    } else {
        let s = with_bytes(s, seq![modrm_byte(0b00, (out_reg0) as u8, 0b100)]);
        let s = with_bytes(s, seq![sib_byte(0u8, (in_reg1) as u8, (in_reg0) as u8)]);
        s
    };
    s
}

/// Emit an instruction with the recipes Op1ldWithIndex, RexOp1ldWithIndex, Op2ldWithIndex,
/// RexOp2ldWithIndex, Mp2fldWithIndex, RexMp2fldWithIndex.
fn ld_with_index(form: OpForm, bits: u16, ops: &InstOperands, sink: &mut CodeSink)
    requires
        ld_with_index_ok(form, bits, *ops),
        old(sink).bytes().len() + 32 <= sink_capacity(),
    ensures
        final(sink)@ == ld_with_index_emits(form, bits, *ops, old(sink)@),
{
    let in_reg0 = ops.arg0;
    let in_reg1 = ops.arg1;
    let out_reg0 = ops.result;
    if !ops.notrap {
        sink.trap(TrapCode::HeapOutOfBounds, ops.srcloc);
    }
    put_opcode(form, bits, rex3(in_reg0, out_reg0, in_reg1), sink);
    // The else branch always inserts an SIB byte.
    if needs_offset(in_reg0) {
        modrm_sib_disp8(out_reg0, sink);
        sib(0, in_reg1, in_reg0, sink);
        sink.put1(0);
    } else {
        modrm_sib(out_reg0, sink);
        sib(0, in_reg1, in_reg0, sink);
    }
}

/// What the recipes emit only extends the sink contents.
proof fn ld_with_index_appends(form: OpForm, bits: u16, ops: InstOperands, s: SinkContents)
    ensures
        extends(s, ld_with_index_emits(form, bits, ops, s)),
{
}

/// What the recipes Op1ldWithIndexDisp8, RexOp1ldWithIndexDisp8, Op2ldWithIndexDisp8,
/// RexOp2ldWithIndexDisp8, Mp2fldWithIndexDisp8, RexMp2fldWithIndexDisp8 require of an instruction.
pub open spec fn ld_with_index_disp8_ok(form: OpForm, bits: u16, ops: InstOperands) -> bool {
    let in_reg0 = ops.arg0;
    let in_reg1 = ops.arg1;
    let out_reg0 = ops.result;
    &&& opcode_ok(form, bits, rex3_value(in_reg0, out_reg0, in_reg1))
}

/// What the recipes Op1ldWithIndexDisp8, RexOp1ldWithIndexDisp8, Op2ldWithIndexDisp8,
/// RexOp2ldWithIndexDisp8, Mp2fldWithIndexDisp8, RexMp2fldWithIndexDisp8 emit: the sink contents
/// `s` with the instruction appended.
pub open spec fn ld_with_index_disp8_emits(form: OpForm, bits: u16, ops: InstOperands, s: SinkContents) -> SinkContents {
    let in_reg0 = ops.arg0;
    let in_reg1 = ops.arg1;
    let out_reg0 = ops.result;
    let s = if !ops.notrap {
        let s = with_trap(s, TrapCode::HeapOutOfBounds, ops.srcloc);
        s
    } else {
        s
    };
    let s = with_bytes(s, opcode_bytes(form, bits, rex3_value(in_reg0, out_reg0, in_reg1)));
    let s = with_bytes(s, seq![modrm_byte(0b01, (out_reg0) as u8, 0b100)]);
    let s = with_bytes(s, seq![sib_byte(0u8, (in_reg1) as u8, (in_reg0) as u8)]);
    let offset = ops.offset;
    let s = with_bytes(s, seq![(offset as u8) as u8]);
    s
}

/// Emit an instruction with the recipes Op1ldWithIndexDisp8, RexOp1ldWithIndexDisp8,
/// Op2ldWithIndexDisp8, RexOp2ldWithIndexDisp8, Mp2fldWithIndexDisp8, RexMp2fldWithIndexDisp8.
fn ld_with_index_disp8(form: OpForm, bits: u16, ops: &InstOperands, sink: &mut CodeSink)
    requires
        ld_with_index_disp8_ok(form, bits, *ops),
        old(sink).bytes().len() + 32 <= sink_capacity(),
    ensures
        final(sink)@ == ld_with_index_disp8_emits(form, bits, *ops, old(sink)@),
{
    let in_reg0 = ops.arg0;
    let in_reg1 = ops.arg1;
    let out_reg0 = ops.result;
    if !ops.notrap {
        sink.trap(TrapCode::HeapOutOfBounds, ops.srcloc);
    }
    put_opcode(form, bits, rex3(in_reg0, out_reg0, in_reg1), sink);
    modrm_sib_disp8(out_reg0, sink);
    sib(0, in_reg1, in_reg0, sink);
    let offset: i32 = ops.offset;
    sink.put1(offset as u8);
}

/// What the recipes emit only extends the sink contents.
proof fn ld_with_index_disp8_appends(form: OpForm, bits: u16, ops: InstOperands, s: SinkContents)
    ensures
        extends(s, ld_with_index_disp8_emits(form, bits, ops, s)),
{
}

/// What the recipes Op1ldWithIndexDisp32, RexOp1ldWithIndexDisp32, Op2ldWithIndexDisp32,
/// RexOp2ldWithIndexDisp32, Mp2fldWithIndexDisp32, RexMp2fldWithIndexDisp32 require of an
/// instruction.
pub open spec fn ld_with_index_disp32_ok(form: OpForm, bits: u16, ops: InstOperands) -> bool {
    let in_reg0 = ops.arg0;
    let in_reg1 = ops.arg1;
    let out_reg0 = ops.result;
    &&& opcode_ok(form, bits, rex3_value(in_reg0, out_reg0, in_reg1))
}

/// What the recipes Op1ldWithIndexDisp32, RexOp1ldWithIndexDisp32, Op2ldWithIndexDisp32,
/// RexOp2ldWithIndexDisp32, Mp2fldWithIndexDisp32, RexMp2fldWithIndexDisp32 emit: the sink contents
/// `s` with the instruction appended.
pub open spec fn ld_with_index_disp32_emits(form: OpForm, bits: u16, ops: InstOperands, s: SinkContents) -> SinkContents {
    let in_reg0 = ops.arg0;
    let in_reg1 = ops.arg1;
    let out_reg0 = ops.result;
    let s = if !ops.notrap {
        let s = with_trap(s, TrapCode::HeapOutOfBounds, ops.srcloc);
        s
    } else {
        s
    };
    let s = with_bytes(s, opcode_bytes(form, bits, rex3_value(in_reg0, out_reg0, in_reg1)));
    let s = with_bytes(s, seq![modrm_byte(0b10, (out_reg0) as u8, 0b100)]);
    let s = with_bytes(s, seq![sib_byte(0u8, (in_reg1) as u8, (in_reg0) as u8)]);
    let offset = ops.offset;
    let s = with_bytes(s, le_bytes4((offset as u32) as u32));
    s
}

/// Emit an instruction with the recipes Op1ldWithIndexDisp32, RexOp1ldWithIndexDisp32,
/// Op2ldWithIndexDisp32, RexOp2ldWithIndexDisp32, Mp2fldWithIndexDisp32, RexMp2fldWithIndexDisp32.
fn ld_with_index_disp32(form: OpForm, bits: u16, ops: &InstOperands, sink: &mut CodeSink)
    requires
        ld_with_index_disp32_ok(form, bits, *ops),
        old(sink).bytes().len() + 32 <= sink_capacity(),
    ensures
        final(sink)@ == ld_with_index_disp32_emits(form, bits, *ops, old(sink)@),
{
    let in_reg0 = ops.arg0;
    let in_reg1 = ops.arg1;
    let out_reg0 = ops.result;
    if !ops.notrap {
        sink.trap(TrapCode::HeapOutOfBounds, ops.srcloc);
    }
    put_opcode(form, bits, rex3(in_reg0, out_reg0, in_reg1), sink);
    modrm_sib_disp32(out_reg0, sink);
    sib(0, in_reg1, in_reg0, sink);
    let offset: i32 = ops.offset;
    sink.put4(offset as u32);
}

/// What the recipes emit only extends the sink contents.
proof fn ld_with_index_disp32_appends(form: OpForm, bits: u16, ops: InstOperands, s: SinkContents)
    ensures
        extends(s, ld_with_index_disp32_emits(form, bits, ops, s)),
{
}

/// What the recipes Op1stWithIndex, RexOp1stWithIndex, Mp1stWithIndex, RexMp1stWithIndex,
/// Op1stWithIndex_abcd, RexOp1stWithIndex_abcd, Mp2fstWithIndex, RexMp2fstWithIndex require of an
/// instruction.
pub open spec fn st_with_index_ok(form: OpForm, bits: u16, ops: InstOperands) -> bool {
    let in_reg0 = ops.arg0;
    let in_reg1 = ops.arg1;
    let in_reg2 = ops.arg2;
    &&& opcode_ok(form, bits, rex3_value(in_reg1, in_reg0, in_reg2))
}

/// What the recipes Op1stWithIndex, RexOp1stWithIndex, Mp1stWithIndex, RexMp1stWithIndex,
/// Op1stWithIndex_abcd, RexOp1stWithIndex_abcd, Mp2fstWithIndex, RexMp2fstWithIndex emit: the sink
/// contents `s` with the instruction appended.
pub open spec fn st_with_index_emits(form: OpForm, bits: u16, ops: InstOperands, s: SinkContents) -> SinkContents {
    let in_reg0 = ops.arg0;
    let in_reg1 = ops.arg1;
    let in_reg2 = ops.arg2;
    let s = if !ops.notrap {
        let s = with_trap(s, TrapCode::HeapOutOfBounds, ops.srcloc);
        s
    } else {
        s
    };
    let s = with_bytes(s, opcode_bytes(form, bits, rex3_value(in_reg1, in_reg0, in_reg2)));
    let s = if offset_needed(in_reg1) {
        let s = with_bytes(s, seq![modrm_byte(0b01, (in_reg0) as u8, 0b100)]);
        let s = with_bytes(s, seq![sib_byte(0u8, (in_reg2) as u8, (in_reg1) as u8)]);
        let s = with_bytes(s, seq![(0) as u8]);
        s
    } else {
        let s = with_bytes(s, seq![modrm_byte(0b00, (in_reg0) as u8, 0b100)]);
        let s = with_bytes(s, seq![sib_byte(0u8, (in_reg2) as u8, (in_reg1) as u8)]);
        s
    };
    s
}

/// Emit an instruction with the recipes Op1stWithIndex, RexOp1stWithIndex, Mp1stWithIndex,
/// RexMp1stWithIndex, Op1stWithIndex_abcd, RexOp1stWithIndex_abcd, Mp2fstWithIndex,
/// RexMp2fstWithIndex.
fn st_with_index(form: OpForm, bits: u16, ops: &InstOperands, sink: &mut CodeSink)
    requires
        st_with_index_ok(form, bits, *ops),
        old(sink).bytes().len() + 32 <= sink_capacity(),
    ensures
        final(sink)@ == st_with_index_emits(form, bits, *ops, old(sink)@),
{
    let in_reg0 = ops.arg0;
    let in_reg1 = ops.arg1;
    let in_reg2 = ops.arg2;
    if !ops.notrap {
        sink.trap(TrapCode::HeapOutOfBounds, ops.srcloc);
    }
    put_opcode(form, bits, rex3(in_reg1, in_reg0, in_reg2), sink);
    // The else branch always inserts an SIB byte.
    if needs_offset(in_reg1) {
        modrm_sib_disp8(in_reg0, sink);
        sib(0, in_reg2, in_reg1, sink);
        sink.put1(0);
    } else {
        modrm_sib(in_reg0, sink);
        sib(0, in_reg2, in_reg1, sink);
    }
}

/// What the recipes emit only extends the sink contents.
proof fn st_with_index_appends(form: OpForm, bits: u16, ops: InstOperands, s: SinkContents)
    ensures
        extends(s, st_with_index_emits(form, bits, ops, s)),
{
}

/// What the recipes Op1stWithIndexDisp8, RexOp1stWithIndexDisp8, Mp1stWithIndexDisp8,
/// RexMp1stWithIndexDisp8, Op1stWithIndexDisp8_abcd, RexOp1stWithIndexDisp8_abcd,
/// Mp2fstWithIndexDisp8, RexMp2fstWithIndexDisp8 require of an instruction.
pub open spec fn st_with_index_disp8_ok(form: OpForm, bits: u16, ops: InstOperands) -> bool {
    let in_reg0 = ops.arg0;
    let in_reg1 = ops.arg1;
    let in_reg2 = ops.arg2;
    &&& opcode_ok(form, bits, rex3_value(in_reg1, in_reg0, in_reg2))
}

/// What the recipes Op1stWithIndexDisp8, RexOp1stWithIndexDisp8, Mp1stWithIndexDisp8,
/// RexMp1stWithIndexDisp8, Op1stWithIndexDisp8_abcd, RexOp1stWithIndexDisp8_abcd,
/// Mp2fstWithIndexDisp8, RexMp2fstWithIndexDisp8 emit: the sink contents `s` with the instruction
/// appended.
pub open spec fn st_with_index_disp8_emits(form: OpForm, bits: u16, ops: InstOperands, s: SinkContents) -> SinkContents {
    let in_reg0 = ops.arg0;
    let in_reg1 = ops.arg1;
    let in_reg2 = ops.arg2;
    let s = if !ops.notrap {
        let s = with_trap(s, TrapCode::HeapOutOfBounds, ops.srcloc);
        s
    } else {
        s
    };
    let s = with_bytes(s, opcode_bytes(form, bits, rex3_value(in_reg1, in_reg0, in_reg2)));
    let s = with_bytes(s, seq![modrm_byte(0b01, (in_reg0) as u8, 0b100)]);
    let s = with_bytes(s, seq![sib_byte(0u8, (in_reg2) as u8, (in_reg1) as u8)]);
    let offset = ops.offset;
    let s = with_bytes(s, seq![(offset as u8) as u8]);
    s
}

/// Emit an instruction with the recipes Op1stWithIndexDisp8, RexOp1stWithIndexDisp8,
/// Mp1stWithIndexDisp8, RexMp1stWithIndexDisp8, Op1stWithIndexDisp8_abcd,
/// RexOp1stWithIndexDisp8_abcd, Mp2fstWithIndexDisp8, RexMp2fstWithIndexDisp8.
fn st_with_index_disp8(form: OpForm, bits: u16, ops: &InstOperands, sink: &mut CodeSink)
    requires
        st_with_index_disp8_ok(form, bits, *ops),
        old(sink).bytes().len() + 32 <= sink_capacity(),
    ensures
        final(sink)@ == st_with_index_disp8_emits(form, bits, *ops, old(sink)@),
{
    let in_reg0 = ops.arg0;
    let in_reg1 = ops.arg1;
    let in_reg2 = ops.arg2;
    if !ops.notrap {
        sink.trap(TrapCode::HeapOutOfBounds, ops.srcloc);
    }
    put_opcode(form, bits, rex3(in_reg1, in_reg0, in_reg2), sink);
    modrm_sib_disp8(in_reg0, sink);
    sib(0, in_reg2, in_reg1, sink);
    let offset: i32 = ops.offset;
    sink.put1(offset as u8);
}

/// What the recipes emit only extends the sink contents.
proof fn st_with_index_disp8_appends(form: OpForm, bits: u16, ops: InstOperands, s: SinkContents)
    ensures
        extends(s, st_with_index_disp8_emits(form, bits, ops, s)),
{
}

/// What the recipes Op1stWithIndexDisp32, RexOp1stWithIndexDisp32, Mp1stWithIndexDisp32,
/// RexMp1stWithIndexDisp32, Op1stWithIndexDisp32_abcd, RexOp1stWithIndexDisp32_abcd,
/// Mp2fstWithIndexDisp32, RexMp2fstWithIndexDisp32 require of an instruction.
pub open spec fn st_with_index_disp32_ok(form: OpForm, bits: u16, ops: InstOperands) -> bool {
    let in_reg0 = ops.arg0;
    let in_reg1 = ops.arg1;
    let in_reg2 = ops.arg2;
    &&& opcode_ok(form, bits, rex3_value(in_reg1, in_reg0, in_reg2))
}

/// What the recipes Op1stWithIndexDisp32, RexOp1stWithIndexDisp32, Mp1stWithIndexDisp32,
/// RexMp1stWithIndexDisp32, Op1stWithIndexDisp32_abcd, RexOp1stWithIndexDisp32_abcd,
/// Mp2fstWithIndexDisp32, RexMp2fstWithIndexDisp32 emit: the sink contents `s` with the instruction
/// appended.
pub open spec fn st_with_index_disp32_emits(form: OpForm, bits: u16, ops: InstOperands, s: SinkContents) -> SinkContents {
    let in_reg0 = ops.arg0;
    let in_reg1 = ops.arg1;
    let in_reg2 = ops.arg2;
    let s = if !ops.notrap {
        let s = with_trap(s, TrapCode::HeapOutOfBounds, ops.srcloc);
        s
    } else {
        s
    };
    let s = with_bytes(s, opcode_bytes(form, bits, rex3_value(in_reg1, in_reg0, in_reg2)));
    let s = with_bytes(s, seq![modrm_byte(0b10, (in_reg0) as u8, 0b100)]);
    let s = with_bytes(s, seq![sib_byte(0u8, (in_reg2) as u8, (in_reg1) as u8)]);
    let offset = ops.offset;
    let s = with_bytes(s, le_bytes4((offset as u32) as u32));
    s
}

/// Emit an instruction with the recipes Op1stWithIndexDisp32, RexOp1stWithIndexDisp32,
/// Mp1stWithIndexDisp32, RexMp1stWithIndexDisp32, Op1stWithIndexDisp32_abcd,
/// RexOp1stWithIndexDisp32_abcd, Mp2fstWithIndexDisp32, RexMp2fstWithIndexDisp32.
fn st_with_index_disp32(form: OpForm, bits: u16, ops: &InstOperands, sink: &mut CodeSink)
    requires
        st_with_index_disp32_ok(form, bits, *ops),
        old(sink).bytes().len() + 32 <= sink_capacity(),
    ensures
        final(sink)@ == st_with_index_disp32_emits(form, bits, *ops, old(sink)@),
{
    let in_reg0 = ops.arg0;
    let in_reg1 = ops.arg1;
    let in_reg2 = ops.arg2;
    if !ops.notrap {
        sink.trap(TrapCode::HeapOutOfBounds, ops.srcloc);
    }
    put_opcode(form, bits, rex3(in_reg1, in_reg0, in_reg2), sink);
    modrm_sib_disp32(in_reg0, sink);
    sib(0, in_reg2, in_reg1, sink);
    let offset: i32 = ops.offset;
    sink.put4(offset as u32);
}

/// What the recipes emit only extends the sink contents.
proof fn st_with_index_disp32_appends(form: OpForm, bits: u16, ops: InstOperands, s: SinkContents)
    ensures
        extends(s, st_with_index_disp32_emits(form, bits, ops, s)),
{
}

/// What the recipes Op1st, RexOp1st, Mp1st, RexMp1st, Op1st_abcd, Mp2fst, RexMp2fst, Op2fst require
/// of an instruction.
pub open spec fn st_ok(form: OpForm, bits: u16, ops: InstOperands) -> bool {
    let in_reg0 = ops.arg0;
    let in_reg1 = ops.arg1;
    &&& opcode_ok(form, bits, rex2_value(in_reg1, in_reg0))
}

/// What the recipes Op1st, RexOp1st, Mp1st, RexMp1st, Op1st_abcd, Mp2fst, RexMp2fst, Op2fst emit:
/// the sink contents `s` with the instruction appended.
pub open spec fn st_emits(form: OpForm, bits: u16, ops: InstOperands, s: SinkContents) -> SinkContents {
    let in_reg0 = ops.arg0;
    let in_reg1 = ops.arg1;
    let s = if !ops.notrap {
        let s = with_trap(s, TrapCode::HeapOutOfBounds, ops.srcloc);
        s
    } else {
        s
    };
    let s = with_bytes(s, opcode_bytes(form, bits, rex2_value(in_reg1, in_reg0)));
    let s = if sib_byte_needed(in_reg1) {
        let s = with_bytes(s, seq![modrm_byte(0b00, (in_reg0) as u8, 0b100)]);
        let s = with_bytes(s, seq![sib_byte(0, 0b100, (in_reg1) as u8)]);
        s
    } else if offset_needed(in_reg1) {
        let s = with_bytes(s, seq![modrm_byte(0b01, (in_reg0) as u8, (in_reg1) as u8)]);
        let s = with_bytes(s, seq![(0) as u8]);
        s
    } else {
        let s = with_bytes(s, seq![modrm_byte(0b00, (in_reg0) as u8, (in_reg1) as u8)]);
        s
    };
    s
}

/// Emit an instruction with the recipes Op1st, RexOp1st, Mp1st, RexMp1st, Op1st_abcd, Mp2fst,
/// RexMp2fst, Op2fst.
fn st(form: OpForm, bits: u16, ops: &InstOperands, sink: &mut CodeSink)
    requires
        st_ok(form, bits, *ops),
        old(sink).bytes().len() + 32 <= sink_capacity(),
    ensures
        final(sink)@ == st_emits(form, bits, *ops, old(sink)@),
{
    let in_reg0 = ops.arg0;
    let in_reg1 = ops.arg1;
    if !ops.notrap {
        sink.trap(TrapCode::HeapOutOfBounds, ops.srcloc);
    }
    put_opcode(form, bits, rex2(in_reg1, in_reg0), sink);
    if needs_sib_byte(in_reg1) {
        modrm_sib(in_reg0, sink);
        sib_noindex(in_reg1, sink);
    } else if needs_offset(in_reg1) {
        modrm_disp8(in_reg1, in_reg0, sink);
        sink.put1(0);
    } else {
        modrm_rm(in_reg1, in_reg0, sink);
    }
}

/// What the recipes emit only extends the sink contents.
proof fn st_appends(form: OpForm, bits: u16, ops: InstOperands, s: SinkContents)
    ensures
        extends(s, st_emits(form, bits, ops, s)),
{
}

/// What the recipes Op1stDisp8, RexOp1stDisp8, Mp1stDisp8, RexMp1stDisp8, Op1stDisp8_abcd,
/// Mp2fstDisp8, RexMp2fstDisp8, Op2fstDisp8 require of an instruction.
pub open spec fn st_disp8_ok(form: OpForm, bits: u16, ops: InstOperands) -> bool {
    let in_reg0 = ops.arg0;
    let in_reg1 = ops.arg1;
    &&& opcode_ok(form, bits, rex2_value(in_reg1, in_reg0))
}

/// What the recipes Op1stDisp8, RexOp1stDisp8, Mp1stDisp8, RexMp1stDisp8, Op1stDisp8_abcd,
/// Mp2fstDisp8, RexMp2fstDisp8, Op2fstDisp8 emit: the sink contents `s` with the instruction
/// appended.
pub open spec fn st_disp8_emits(form: OpForm, bits: u16, ops: InstOperands, s: SinkContents) -> SinkContents {
    let in_reg0 = ops.arg0;
    let in_reg1 = ops.arg1;
    let s = if !ops.notrap {
        let s = with_trap(s, TrapCode::HeapOutOfBounds, ops.srcloc);
        s
    } else {
        s
    };
    let s = with_bytes(s, opcode_bytes(form, bits, rex2_value(in_reg1, in_reg0)));
    let s = if sib_byte_needed(in_reg1) {
        let s = with_bytes(s, seq![modrm_byte(0b01, (in_reg0) as u8, 0b100)]);
        let s = with_bytes(s, seq![sib_byte(0, 0b100, (in_reg1) as u8)]);
        s
    } else {
        let s = with_bytes(s, seq![modrm_byte(0b01, (in_reg0) as u8, (in_reg1) as u8)]);
        s
    };
    let offset = ops.offset;
    let s = with_bytes(s, seq![(offset as u8) as u8]);
    s
}

/// Emit an instruction with the recipes Op1stDisp8, RexOp1stDisp8, Mp1stDisp8, RexMp1stDisp8,
/// Op1stDisp8_abcd, Mp2fstDisp8, RexMp2fstDisp8, Op2fstDisp8.
fn st_disp8(form: OpForm, bits: u16, ops: &InstOperands, sink: &mut CodeSink)
    requires
        st_disp8_ok(form, bits, *ops),
        old(sink).bytes().len() + 32 <= sink_capacity(),
    ensures
        final(sink)@ == st_disp8_emits(form, bits, *ops, old(sink)@),
{
    let in_reg0 = ops.arg0;
    let in_reg1 = ops.arg1;
    if !ops.notrap {
        sink.trap(TrapCode::HeapOutOfBounds, ops.srcloc);
    }
    put_opcode(form, bits, rex2(in_reg1, in_reg0), sink);
    if needs_sib_byte(in_reg1) {
        modrm_sib_disp8(in_reg0, sink);
        sib_noindex(in_reg1, sink);
    } else {
        modrm_disp8(in_reg1, in_reg0, sink);
    }
    let offset: i32 = ops.offset;
    sink.put1(offset as u8);
}

/// What the recipes emit only extends the sink contents.
proof fn st_disp8_appends(form: OpForm, bits: u16, ops: InstOperands, s: SinkContents)
    ensures
        extends(s, st_disp8_emits(form, bits, ops, s)),
{
}

/// What the recipes Op1stDisp32, RexOp1stDisp32, Mp1stDisp32, RexMp1stDisp32, Op1stDisp32_abcd,
/// Mp2fstDisp32, RexMp2fstDisp32, Op2fstDisp32 require of an instruction.
pub open spec fn st_disp32_ok(form: OpForm, bits: u16, ops: InstOperands) -> bool {
    let in_reg0 = ops.arg0;
    let in_reg1 = ops.arg1;
    &&& opcode_ok(form, bits, rex2_value(in_reg1, in_reg0))
}

/// What the recipes Op1stDisp32, RexOp1stDisp32, Mp1stDisp32, RexMp1stDisp32, Op1stDisp32_abcd,
/// Mp2fstDisp32, RexMp2fstDisp32, Op2fstDisp32 emit: the sink contents `s` with the instruction
/// appended.
pub open spec fn st_disp32_emits(form: OpForm, bits: u16, ops: InstOperands, s: SinkContents) -> SinkContents {
    let in_reg0 = ops.arg0;
    let in_reg1 = ops.arg1;
    let s = if !ops.notrap {
        let s = with_trap(s, TrapCode::HeapOutOfBounds, ops.srcloc);
        s
    } else {
        s
    };
    let s = with_bytes(s, opcode_bytes(form, bits, rex2_value(in_reg1, in_reg0)));
    let s = if sib_byte_needed(in_reg1) {
        let s = with_bytes(s, seq![modrm_byte(0b10, (in_reg0) as u8, 0b100)]);
        let s = with_bytes(s, seq![sib_byte(0, 0b100, (in_reg1) as u8)]);
        s
    } else {
        let s = with_bytes(s, seq![modrm_byte(0b10, (in_reg0) as u8, (in_reg1) as u8)]);
        s
    };
    let offset = ops.offset;
    let s = with_bytes(s, le_bytes4((offset as u32) as u32));
    s
}

/// Emit an instruction with the recipes Op1stDisp32, RexOp1stDisp32, Mp1stDisp32, RexMp1stDisp32,
/// Op1stDisp32_abcd, Mp2fstDisp32, RexMp2fstDisp32, Op2fstDisp32.
fn st_disp32(form: OpForm, bits: u16, ops: &InstOperands, sink: &mut CodeSink)
    requires
        st_disp32_ok(form, bits, *ops),
        old(sink).bytes().len() + 32 <= sink_capacity(),
    ensures
        final(sink)@ == st_disp32_emits(form, bits, *ops, old(sink)@),
{
    let in_reg0 = ops.arg0;
    let in_reg1 = ops.arg1;
    if !ops.notrap {
        sink.trap(TrapCode::HeapOutOfBounds, ops.srcloc);
    }
    put_opcode(form, bits, rex2(in_reg1, in_reg0), sink);
    if needs_sib_byte(in_reg1) {
        modrm_sib_disp32(in_reg0, sink);
        sib_noindex(in_reg1, sink);
    } else {
        modrm_disp32(in_reg1, in_reg0, sink);
    }
    let offset: i32 = ops.offset;
    sink.put4(offset as u32);
}

/// What the recipes emit only extends the sink contents.
proof fn st_disp32_appends(form: OpForm, bits: u16, ops: InstOperands, s: SinkContents)
    ensures
        extends(s, st_disp32_emits(form, bits, ops, s)),
{
}

/// What the recipes Op1spillSib32, RexOp1spillSib32, Mp2fspillSib32, RexMp2fspillSib32,
/// Op2fspillSib32 require of an instruction.
pub open spec fn spill_sib32_ok(form: OpForm, bits: u16, ops: InstOperands) -> bool {
    let in_reg0 = ops.arg0;
    let out_stk0 = ops.result_slot;
    let base = stack_base_reg(out_stk0.base);
    &&& ops.result_slot.base == StackBase::SP
    &&& out_stk0.base != StackBase::Zone
    &&& opcode_ok(form, bits, rex2_value(base, in_reg0))
}

/// What the recipes Op1spillSib32, RexOp1spillSib32, Mp2fspillSib32, RexMp2fspillSib32,
/// Op2fspillSib32 emit: the sink contents `s` with the instruction appended.
pub open spec fn spill_sib32_emits(form: OpForm, bits: u16, ops: InstOperands, s: SinkContents) -> SinkContents {
    let in_reg0 = ops.arg0;
    let out_stk0 = ops.result_slot;
    let s = with_trap(s, TrapCode::StackOverflow, ops.srcloc);
    let base = stack_base_reg(out_stk0.base);
    let s = with_bytes(s, opcode_bytes(form, bits, rex2_value(base, in_reg0)));
    let s = with_bytes(s, seq![modrm_byte(0b10, (in_reg0) as u8, 0b100)]);
    let s = with_bytes(s, seq![sib_byte(0, 0b100, (base) as u8)]);
    let s = with_bytes(s, le_bytes4((out_stk0.offset as u32) as u32));
    s
}

/// Emit an instruction with the recipes Op1spillSib32, RexOp1spillSib32, Mp2fspillSib32,
/// RexMp2fspillSib32, Op2fspillSib32.
fn spill_sib32(form: OpForm, bits: u16, ops: &InstOperands, sink: &mut CodeSink)
    requires
        spill_sib32_ok(form, bits, *ops),
        old(sink).bytes().len() + 32 <= sink_capacity(),
    ensures
        final(sink)@ == spill_sib32_emits(form, bits, *ops, old(sink)@),
{
    let in_reg0 = ops.arg0;
    let out_stk0 = ops.result_slot;
    sink.trap(TrapCode::StackOverflow, ops.srcloc);
    let base = stk_base(out_stk0.base);
    put_opcode(form, bits, rex2(base, in_reg0), sink);
    modrm_sib_disp32(in_reg0, sink);
    sib_noindex(base, sink);
    sink.put4(out_stk0.offset as u32);
}

/// What the recipes emit only extends the sink contents.
proof fn spill_sib32_appends(form: OpForm, bits: u16, ops: InstOperands, s: SinkContents)
    ensures
        extends(s, spill_sib32_emits(form, bits, ops, s)),
{
}

/// What the recipes Op1regspill32, RexOp1regspill32, Mp2fregspill32, RexMp2fregspill32,
/// Op2fregspill32 require of an instruction.
pub open spec fn regspill32_ok(form: OpForm, bits: u16, ops: InstOperands) -> bool {
    let src = ops.src;
    let dst = ops.result_slot;
    let base = stack_base_reg(dst.base);
    &&& ops.result_slot.base == StackBase::SP
    &&& dst.base != StackBase::Zone
    &&& opcode_ok(form, bits, rex2_value(base, src))
}

/// What the recipes Op1regspill32, RexOp1regspill32, Mp2fregspill32, RexMp2fregspill32,
/// Op2fregspill32 emit: the sink contents `s` with the instruction appended.
pub open spec fn regspill32_emits(form: OpForm, bits: u16, ops: InstOperands, s: SinkContents) -> SinkContents {
    let src = ops.src;
    let s = with_trap(s, TrapCode::StackOverflow, ops.srcloc);
    let dst = ops.result_slot;
    let base = stack_base_reg(dst.base);
    let s = with_bytes(s, opcode_bytes(form, bits, rex2_value(base, src)));
    let s = with_bytes(s, seq![modrm_byte(0b10, (src) as u8, 0b100)]);
    let s = with_bytes(s, seq![sib_byte(0, 0b100, (base) as u8)]);
    let s = with_bytes(s, le_bytes4((dst.offset as u32) as u32));
    s
}

/// Emit an instruction with the recipes Op1regspill32, RexOp1regspill32, Mp2fregspill32,
/// RexMp2fregspill32, Op2fregspill32.
fn regspill32(form: OpForm, bits: u16, ops: &InstOperands, sink: &mut CodeSink)
    requires
        regspill32_ok(form, bits, *ops),
        old(sink).bytes().len() + 32 <= sink_capacity(),
    ensures
        final(sink)@ == regspill32_emits(form, bits, *ops, old(sink)@),
{
    let src = ops.src;
    // The diversion this instruction makes is recorded by `emit_inst`.
    sink.trap(TrapCode::StackOverflow, ops.srcloc);
    let dst = ops.result_slot;
    let base = stk_base(dst.base);
    put_opcode(form, bits, rex2(base, src), sink);
    modrm_sib_disp32(src, sink);
    sib_noindex(base, sink);
    sink.put4(dst.offset as u32);
}

/// What the recipes emit only extends the sink contents.
proof fn regspill32_appends(form: OpForm, bits: u16, ops: InstOperands, s: SinkContents)
    ensures
        extends(s, regspill32_emits(form, bits, ops, s)),
{
}

/// What the recipes Op1ld, RexOp1ld, Op2ld, RexOp2ld, Mp2fld, RexMp2fld, Op2fld require of an
/// instruction.
pub open spec fn ld_ok(form: OpForm, bits: u16, ops: InstOperands) -> bool {
    let in_reg0 = ops.arg0;
    let out_reg0 = ops.result;
    &&& opcode_ok(form, bits, rex2_value(in_reg0, out_reg0))
}

/// What the recipes Op1ld, RexOp1ld, Op2ld, RexOp2ld, Mp2fld, RexMp2fld, Op2fld emit: the sink
/// contents `s` with the instruction appended.
pub open spec fn ld_emits(form: OpForm, bits: u16, ops: InstOperands, s: SinkContents) -> SinkContents {
    let in_reg0 = ops.arg0;
    let out_reg0 = ops.result;
    let s = if !ops.notrap {
        let s = with_trap(s, TrapCode::HeapOutOfBounds, ops.srcloc);
        s
    } else {
        s
    };
    let s = with_bytes(s, opcode_bytes(form, bits, rex2_value(in_reg0, out_reg0)));
    let s = if sib_byte_needed(in_reg0) {
        let s = with_bytes(s, seq![modrm_byte(0b00, (out_reg0) as u8, 0b100)]);
        let s = with_bytes(s, seq![sib_byte(0, 0b100, (in_reg0) as u8)]);
        s
    } else if offset_needed(in_reg0) {
        let s = with_bytes(s, seq![modrm_byte(0b01, (out_reg0) as u8, (in_reg0) as u8)]);
        let s = with_bytes(s, seq![(0) as u8]);
        s
    } else {
        let s = with_bytes(s, seq![modrm_byte(0b00, (out_reg0) as u8, (in_reg0) as u8)]);
        s
    };
    s
}

/// Emit an instruction with the recipes Op1ld, RexOp1ld, Op2ld, RexOp2ld, Mp2fld, RexMp2fld,
/// Op2fld.
fn ld(form: OpForm, bits: u16, ops: &InstOperands, sink: &mut CodeSink)
    requires
        ld_ok(form, bits, *ops),
        old(sink).bytes().len() + 32 <= sink_capacity(),
    ensures
        final(sink)@ == ld_emits(form, bits, *ops, old(sink)@),
{
    let in_reg0 = ops.arg0;
    let out_reg0 = ops.result;
    if !ops.notrap {
        sink.trap(TrapCode::HeapOutOfBounds, ops.srcloc);
    }
    put_opcode(form, bits, rex2(in_reg0, out_reg0), sink);
    if needs_sib_byte(in_reg0) {
        modrm_sib(out_reg0, sink);
        sib_noindex(in_reg0, sink);
    } else if needs_offset(in_reg0) {
        modrm_disp8(in_reg0, out_reg0, sink);
        sink.put1(0);
    } else {
        modrm_rm(in_reg0, out_reg0, sink);
    }
}

/// What the recipes Op1ld, RexOp1ld, Op2ld, RexOp2ld, Mp2fld, RexMp2fld, Op2fld emit only extends the sink contents.
proof fn ld_appends(form: OpForm, bits: u16, ops: InstOperands, s: SinkContents)
    ensures
        extends(s, ld_emits(form, bits, ops, s)),
{
}

/// What the recipes Op1ldDisp8, RexOp1ldDisp8, Op2ldDisp8, RexOp2ldDisp8, Mp2fldDisp8,
/// RexMp2fldDisp8, Op2fldDisp8 require of an instruction.
pub open spec fn ld_disp8_ok(form: OpForm, bits: u16, ops: InstOperands) -> bool {
    let in_reg0 = ops.arg0;
    let out_reg0 = ops.result;
    &&& opcode_ok(form, bits, rex2_value(in_reg0, out_reg0))
}

/// What the recipes Op1ldDisp8, RexOp1ldDisp8, Op2ldDisp8, RexOp2ldDisp8, Mp2fldDisp8,
/// RexMp2fldDisp8, Op2fldDisp8 emit: the sink contents `s` with the instruction appended.
pub open spec fn ld_disp8_emits(form: OpForm, bits: u16, ops: InstOperands, s: SinkContents) -> SinkContents {
    let in_reg0 = ops.arg0;
    let out_reg0 = ops.result;
    let s = if !ops.notrap {
        let s = with_trap(s, TrapCode::HeapOutOfBounds, ops.srcloc);
        s
    } else {
        s
    };
    let s = with_bytes(s, opcode_bytes(form, bits, rex2_value(in_reg0, out_reg0)));
    let s = if sib_byte_needed(in_reg0) {
        let s = with_bytes(s, seq![modrm_byte(0b01, (out_reg0) as u8, 0b100)]);
        let s = with_bytes(s, seq![sib_byte(0, 0b100, (in_reg0) as u8)]);
        s
    } else {
        let s = with_bytes(s, seq![modrm_byte(0b01, (out_reg0) as u8, (in_reg0) as u8)]);
        s
    };
    let offset = ops.offset;
    let s = with_bytes(s, seq![(offset as u8) as u8]);
    s
}

/// Emit an instruction with the recipes Op1ldDisp8, RexOp1ldDisp8, Op2ldDisp8, RexOp2ldDisp8,
/// Mp2fldDisp8, RexMp2fldDisp8, Op2fldDisp8.
fn ld_disp8(form: OpForm, bits: u16, ops: &InstOperands, sink: &mut CodeSink)
    requires
        ld_disp8_ok(form, bits, *ops),
        old(sink).bytes().len() + 32 <= sink_capacity(),
    ensures
        final(sink)@ == ld_disp8_emits(form, bits, *ops, old(sink)@),
{
    let in_reg0 = ops.arg0;
    let out_reg0 = ops.result;
    if !ops.notrap {
        sink.trap(TrapCode::HeapOutOfBounds, ops.srcloc);
    }
    put_opcode(form, bits, rex2(in_reg0, out_reg0), sink);
    if needs_sib_byte(in_reg0) {
        modrm_sib_disp8(out_reg0, sink);
        sib_noindex(in_reg0, sink);
    } else {
        modrm_disp8(in_reg0, out_reg0, sink);
    }
    let offset: i32 = ops.offset;
    sink.put1(offset as u8);
}

/// What the recipes emit only extends the sink contents.
proof fn ld_disp8_appends(form: OpForm, bits: u16, ops: InstOperands, s: SinkContents)
    ensures
        extends(s, ld_disp8_emits(form, bits, ops, s)),
{
}

/// What the recipes Op1ldDisp32, RexOp1ldDisp32, Op2ldDisp32, RexOp2ldDisp32, Mp2fldDisp32,
/// RexMp2fldDisp32, Op2fldDisp32 require of an instruction.
pub open spec fn ld_disp32_ok(form: OpForm, bits: u16, ops: InstOperands) -> bool {
    let in_reg0 = ops.arg0;
    let out_reg0 = ops.result;
    &&& opcode_ok(form, bits, rex2_value(in_reg0, out_reg0))
}

/// What the recipes Op1ldDisp32, RexOp1ldDisp32, Op2ldDisp32, RexOp2ldDisp32, Mp2fldDisp32,
/// RexMp2fldDisp32, Op2fldDisp32 emit: the sink contents `s` with the instruction appended.
pub open spec fn ld_disp32_emits(form: OpForm, bits: u16, ops: InstOperands, s: SinkContents) -> SinkContents {
    let in_reg0 = ops.arg0;
    let out_reg0 = ops.result;
    let s = if !ops.notrap {
        let s = with_trap(s, TrapCode::HeapOutOfBounds, ops.srcloc);
        s
    } else {
        s
    };
    let s = with_bytes(s, opcode_bytes(form, bits, rex2_value(in_reg0, out_reg0)));
    let s = if sib_byte_needed(in_reg0) {
        let s = with_bytes(s, seq![modrm_byte(0b10, (out_reg0) as u8, 0b100)]);
        let s = with_bytes(s, seq![sib_byte(0, 0b100, (in_reg0) as u8)]);
        s
    } else {
        let s = with_bytes(s, seq![modrm_byte(0b10, (out_reg0) as u8, (in_reg0) as u8)]);
        s
    };
    let offset = ops.offset;
    let s = with_bytes(s, le_bytes4((offset as u32) as u32));
    s
}

/// Emit an instruction with the recipes Op1ldDisp32, RexOp1ldDisp32, Op2ldDisp32, RexOp2ldDisp32,
/// Mp2fldDisp32, RexMp2fldDisp32, Op2fldDisp32.
fn ld_disp32(form: OpForm, bits: u16, ops: &InstOperands, sink: &mut CodeSink)
    requires
        ld_disp32_ok(form, bits, *ops),
        old(sink).bytes().len() + 32 <= sink_capacity(),
    ensures
        final(sink)@ == ld_disp32_emits(form, bits, *ops, old(sink)@),
{
    let in_reg0 = ops.arg0;
    let out_reg0 = ops.result;
    if !ops.notrap {
        sink.trap(TrapCode::HeapOutOfBounds, ops.srcloc);
    }
    put_opcode(form, bits, rex2(in_reg0, out_reg0), sink);
    if needs_sib_byte(in_reg0) {
        modrm_sib_disp32(out_reg0, sink);
        sib_noindex(in_reg0, sink);
    } else {
        modrm_disp32(in_reg0, out_reg0, sink);
    }
    let offset: i32 = ops.offset;
    sink.put4(offset as u32);
}

/// What the recipes emit only extends the sink contents.
proof fn ld_disp32_appends(form: OpForm, bits: u16, ops: InstOperands, s: SinkContents)
    ensures
        extends(s, ld_disp32_emits(form, bits, ops, s)),
{
}

/// What the recipes Op1fillSib32, RexOp1fillSib32, Mp2ffillSib32, RexMp2ffillSib32, Op2ffillSib32
/// require of an instruction.
pub open spec fn fill_sib32_ok(form: OpForm, bits: u16, ops: InstOperands) -> bool {
    let out_reg0 = ops.result;
    let in_stk0 = ops.arg_slot;
    let base = stack_base_reg(in_stk0.base);
    &&& ops.arg_slot.base == StackBase::SP
    &&& in_stk0.base != StackBase::Zone
    &&& opcode_ok(form, bits, rex2_value(base, out_reg0))
}

/// What the recipes Op1fillSib32, RexOp1fillSib32, Mp2ffillSib32, RexMp2ffillSib32, Op2ffillSib32
/// emit: the sink contents `s` with the instruction appended.
pub open spec fn fill_sib32_emits(form: OpForm, bits: u16, ops: InstOperands, s: SinkContents) -> SinkContents {
    let out_reg0 = ops.result;
    let in_stk0 = ops.arg_slot;
    let base = stack_base_reg(in_stk0.base);
    let s = with_bytes(s, opcode_bytes(form, bits, rex2_value(base, out_reg0)));
    let s = with_bytes(s, seq![modrm_byte(0b10, (out_reg0) as u8, 0b100)]);
    let s = with_bytes(s, seq![sib_byte(0, 0b100, (base) as u8)]);
    let s = with_bytes(s, le_bytes4((in_stk0.offset as u32) as u32));
    s
}

/// Emit an instruction with the recipes Op1fillSib32, RexOp1fillSib32, Mp2ffillSib32,
/// RexMp2ffillSib32, Op2ffillSib32.
fn fill_sib32(form: OpForm, bits: u16, ops: &InstOperands, sink: &mut CodeSink)
    requires
        fill_sib32_ok(form, bits, *ops),
        old(sink).bytes().len() + 32 <= sink_capacity(),
    ensures
        final(sink)@ == fill_sib32_emits(form, bits, *ops, old(sink)@),
{
    let out_reg0 = ops.result;
    let in_stk0 = ops.arg_slot;
    let base = stk_base(in_stk0.base);
    put_opcode(form, bits, rex2(base, out_reg0), sink);
    modrm_sib_disp32(out_reg0, sink);
    sib_noindex(base, sink);
    sink.put4(in_stk0.offset as u32);
}

/// What the recipes emit only extends the sink contents.
proof fn fill_sib32_appends(form: OpForm, bits: u16, ops: InstOperands, s: SinkContents)
    ensures
        extends(s, fill_sib32_emits(form, bits, ops, s)),
{
}

/// What the recipes Op1regfill32, RexOp1regfill32, Mp2fregfill32, RexMp2fregfill32, Op2fregfill32
/// require of an instruction.
pub open spec fn regfill32_ok(form: OpForm, bits: u16, ops: InstOperands) -> bool {
    let dst = ops.dst;
    let src = ops.arg_slot;
    let base = stack_base_reg(src.base);
    &&& ops.arg_slot.base == StackBase::SP
    &&& src.base != StackBase::Zone
    &&& opcode_ok(form, bits, rex2_value(base, dst))
}

/// What the recipes Op1regfill32, RexOp1regfill32, Mp2fregfill32, RexMp2fregfill32, Op2fregfill32
/// emit: the sink contents `s` with the instruction appended.
pub open spec fn regfill32_emits(form: OpForm, bits: u16, ops: InstOperands, s: SinkContents) -> SinkContents {
    let dst = ops.dst;
    let src = ops.arg_slot;
    let base = stack_base_reg(src.base);
    let s = with_bytes(s, opcode_bytes(form, bits, rex2_value(base, dst)));
    let s = with_bytes(s, seq![modrm_byte(0b10, (dst) as u8, 0b100)]);
    let s = with_bytes(s, seq![sib_byte(0, 0b100, (base) as u8)]);
    let s = with_bytes(s, le_bytes4((src.offset as u32) as u32));
    s
}

/// Emit an instruction with the recipes Op1regfill32, RexOp1regfill32, Mp2fregfill32,
/// RexMp2fregfill32, Op2fregfill32.
fn regfill32(form: OpForm, bits: u16, ops: &InstOperands, sink: &mut CodeSink)
    requires
        regfill32_ok(form, bits, *ops),
        old(sink).bytes().len() + 32 <= sink_capacity(),
    ensures
        final(sink)@ == regfill32_emits(form, bits, *ops, old(sink)@),
{
    let dst = ops.dst;
    // The diversion this instruction makes is recorded by `emit_inst`.
    let src = ops.arg_slot;
    let base = stk_base(src.base);
    put_opcode(form, bits, rex2(base, dst), sink);
    modrm_sib_disp32(dst, sink);
    sib_noindex(base, sink);
    sink.put4(src.offset as u32);
}

/// What the recipes emit only extends the sink contents.
proof fn regfill32_appends(form: OpForm, bits: u16, ops: InstOperands, s: SinkContents)
    ensures
        extends(s, regfill32_emits(form, bits, ops, s)),
{
}

/// What the recipes fillnull, ffillnull require of an instruction.
pub open spec fn fillnull_ok(form: OpForm, bits: u16, ops: InstOperands) -> bool {
    &&& ops.arg_slot.base == StackBase::SP
}

/// What the recipes fillnull, ffillnull emit: the sink contents `s` with the instruction appended.
pub open spec fn fillnull_emits(form: OpForm, bits: u16, ops: InstOperands, s: SinkContents) -> SinkContents {
    let in_stk0 = ops.arg_slot;
    s
}

/// Emit an instruction with the recipes fillnull, ffillnull.
fn fillnull(form: OpForm, bits: u16, ops: &InstOperands, sink: &mut CodeSink)
    requires
        fillnull_ok(form, bits, *ops),
        old(sink).bytes().len() + 32 <= sink_capacity(),
    ensures
        final(sink)@ == fillnull_emits(form, bits, *ops, old(sink)@),
{
    let in_stk0 = ops.arg_slot;
}

/// What the recipes fillnull, ffillnull emit only extends the sink contents.
proof fn fillnull_appends(form: OpForm, bits: u16, ops: InstOperands, s: SinkContents)
    ensures
        extends(s, fillnull_emits(form, bits, ops, s)),
{
}

/// What the recipes Op1pushq, RexOp1pushq require of an instruction.
pub open spec fn pushq_ok(form: OpForm, bits: u16, ops: InstOperands) -> bool {
    let in_reg0 = ops.arg0;
    &&& opcode_ok(form, bits | (in_reg0 & 7), rex1_value(in_reg0))
}

/// What the recipes Op1pushq, RexOp1pushq emit: the sink contents `s` with the instruction
/// appended.
pub open spec fn pushq_emits(form: OpForm, bits: u16, ops: InstOperands, s: SinkContents) -> SinkContents {
    let in_reg0 = ops.arg0;
    let s = with_trap(s, TrapCode::StackOverflow, ops.srcloc);
    let s = with_bytes(s, opcode_bytes(form, bits | (in_reg0 & 7), rex1_value(in_reg0)));
    s
}

/// Emit an instruction with the recipes Op1pushq, RexOp1pushq.
fn pushq(form: OpForm, bits: u16, ops: &InstOperands, sink: &mut CodeSink)
    requires
        pushq_ok(form, bits, *ops),
        old(sink).bytes().len() + 32 <= sink_capacity(),
    ensures
        final(sink)@ == pushq_emits(form, bits, *ops, old(sink)@),
{
    let in_reg0 = ops.arg0;
    sink.trap(TrapCode::StackOverflow, ops.srcloc);
    put_opcode(form, bits | (in_reg0 & 7), rex1(in_reg0), sink);
}

/// What the recipes Op1pushq, RexOp1pushq emit only extends the sink contents.
proof fn pushq_appends(form: OpForm, bits: u16, ops: InstOperands, s: SinkContents)
    ensures
        extends(s, pushq_emits(form, bits, ops, s)),
{
}

/// What the recipes Op1popq, RexOp1popq require of an instruction.
pub open spec fn popq_ok(form: OpForm, bits: u16, ops: InstOperands) -> bool {
    let out_reg0 = ops.result;
    &&& opcode_ok(form, bits | (out_reg0 & 7), rex1_value(out_reg0))
}

/// What the recipes Op1popq, RexOp1popq emit: the sink contents `s` with the instruction appended.
pub open spec fn popq_emits(form: OpForm, bits: u16, ops: InstOperands, s: SinkContents) -> SinkContents {
    let out_reg0 = ops.result;
    let s = with_bytes(s, opcode_bytes(form, bits | (out_reg0 & 7), rex1_value(out_reg0)));
    s
}

/// Emit an instruction with the recipes Op1popq, RexOp1popq.
fn popq(form: OpForm, bits: u16, ops: &InstOperands, sink: &mut CodeSink)
    requires
        popq_ok(form, bits, *ops),
        old(sink).bytes().len() + 32 <= sink_capacity(),
    ensures
        final(sink)@ == popq_emits(form, bits, *ops, old(sink)@),
{
    let out_reg0 = ops.result;
    put_opcode(form, bits | (out_reg0 & 7), rex1(out_reg0), sink);
}

/// What the recipes Op1popq, RexOp1popq emit only extends the sink contents.
proof fn popq_appends(form: OpForm, bits: u16, ops: InstOperands, s: SinkContents)
    ensures
        extends(s, popq_emits(form, bits, ops, s)),
{
}

/// What the recipes RexOp1copysp, Op1copysp require of an instruction.
pub open spec fn copysp_ok(form: OpForm, bits: u16, ops: InstOperands) -> bool {
    let src = ops.src;
    let dst = ops.dst;
    &&& opcode_ok(form, bits, rex2_value(dst, src))
}

/// What the recipes RexOp1copysp, Op1copysp emit: the sink contents `s` with the instruction
/// appended.
pub open spec fn copysp_emits(form: OpForm, bits: u16, ops: InstOperands, s: SinkContents) -> SinkContents {
    let src = ops.src;
    let dst = ops.dst;
    let s = with_bytes(s, opcode_bytes(form, bits, rex2_value(dst, src)));
    let s = with_bytes(s, seq![modrm_byte(0b11, (src) as u8, (dst) as u8)]);
    s
}

/// Emit an instruction with the recipes RexOp1copysp, Op1copysp.
fn copysp(form: OpForm, bits: u16, ops: &InstOperands, sink: &mut CodeSink)
    requires
        copysp_ok(form, bits, *ops),
        old(sink).bytes().len() + 32 <= sink_capacity(),
    ensures
        final(sink)@ == copysp_emits(form, bits, *ops, old(sink)@),
{
    let src = ops.src;
    let dst = ops.dst;
    put_opcode(form, bits, rex2(dst, src), sink);
    modrm_rr(dst, src, sink);
}

/// What the recipes RexOp1copysp, Op1copysp emit only extends the sink contents.
proof fn copysp_appends(form: OpForm, bits: u16, ops: InstOperands, s: SinkContents)
    ensures
        extends(s, copysp_emits(form, bits, ops, s)),
{
}

/// What the recipes Op1umr_reg_to_ssa, RexOp1umr_reg_to_ssa require of an instruction.
pub open spec fn umr_reg_to_ssa_ok(form: OpForm, bits: u16, ops: InstOperands) -> bool {
    let out_reg0 = ops.result;
    let src = ops.src;
    &&& opcode_ok(form, bits, rex2_value(out_reg0, src))
}

/// What the recipes Op1umr_reg_to_ssa, RexOp1umr_reg_to_ssa emit: the sink contents `s` with the
/// instruction appended.
pub open spec fn umr_reg_to_ssa_emits(form: OpForm, bits: u16, ops: InstOperands, s: SinkContents) -> SinkContents {
    let out_reg0 = ops.result;
    let src = ops.src;
    let s = with_bytes(s, opcode_bytes(form, bits, rex2_value(out_reg0, src)));
    let s = with_bytes(s, seq![modrm_byte(0b11, (src) as u8, (out_reg0) as u8)]);
    s
}

/// Emit an instruction with the recipes Op1umr_reg_to_ssa, RexOp1umr_reg_to_ssa.
fn umr_reg_to_ssa(form: OpForm, bits: u16, ops: &InstOperands, sink: &mut CodeSink)
    requires
        umr_reg_to_ssa_ok(form, bits, *ops),
        old(sink).bytes().len() + 32 <= sink_capacity(),
    ensures
        final(sink)@ == umr_reg_to_ssa_emits(form, bits, *ops, old(sink)@),
{
    let out_reg0 = ops.result;
    let src = ops.src;
    put_opcode(form, bits, rex2(out_reg0, src), sink);
    modrm_rr(out_reg0, src, sink);
}

/// What the recipes Op1umr_reg_to_ssa, RexOp1umr_reg_to_ssa emit only extends the sink contents.
proof fn umr_reg_to_ssa_appends(form: OpForm, bits: u16, ops: InstOperands, s: SinkContents)
    ensures
        extends(s, umr_reg_to_ssa_emits(form, bits, ops, s)),
{
}

/// What the recipes Mp2furm_reg_to_ssa, RexMp2furm_reg_to_ssa require of an instruction.
pub open spec fn furm_reg_to_ssa_ok(form: OpForm, bits: u16, ops: InstOperands) -> bool {
    let out_reg0 = ops.result;
    let src = ops.src;
    &&& opcode_ok(form, bits, rex2_value(src, out_reg0))
}

/// What the recipes Mp2furm_reg_to_ssa, RexMp2furm_reg_to_ssa emit: the sink contents `s` with the
/// instruction appended.
pub open spec fn furm_reg_to_ssa_emits(form: OpForm, bits: u16, ops: InstOperands, s: SinkContents) -> SinkContents {
    let out_reg0 = ops.result;
    let src = ops.src;
    let s = with_bytes(s, opcode_bytes(form, bits, rex2_value(src, out_reg0)));
    let s = with_bytes(s, seq![modrm_byte(0b11, (out_reg0) as u8, (src) as u8)]);
    s
}

/// Emit an instruction with the recipes Mp2furm_reg_to_ssa, RexMp2furm_reg_to_ssa.
fn furm_reg_to_ssa(form: OpForm, bits: u16, ops: &InstOperands, sink: &mut CodeSink)
    requires
        furm_reg_to_ssa_ok(form, bits, *ops),
        old(sink).bytes().len() + 32 <= sink_capacity(),
    ensures
        final(sink)@ == furm_reg_to_ssa_emits(form, bits, *ops, old(sink)@),
{
    let out_reg0 = ops.result;
    let src = ops.src;
    put_opcode(form, bits, rex2(src, out_reg0), sink);
    modrm_rr(src, out_reg0, sink);
}

/// What the recipes Mp2furm_reg_to_ssa, RexMp2furm_reg_to_ssa emit only extends the sink contents.
proof fn furm_reg_to_ssa_appends(form: OpForm, bits: u16, ops: InstOperands, s: SinkContents)
    ensures
        extends(s, furm_reg_to_ssa_emits(form, bits, ops, s)),
{
}

/// What the recipe stacknull requires of an instruction.
pub open spec fn stacknull_ok(form: OpForm, bits: u16, ops: InstOperands) -> bool {
    &&& ops.arg_slot.base == StackBase::SP
    &&& ops.result_slot.base == StackBase::SP
}

/// What the recipe stacknull emits: the sink contents `s` with the instruction appended.
pub open spec fn stacknull_emits(form: OpForm, bits: u16, ops: InstOperands, s: SinkContents) -> SinkContents {
    let in_stk0 = ops.arg_slot;
    let out_stk0 = ops.result_slot;
    s
}

/// Emit an instruction with the recipe stacknull.
fn stacknull(form: OpForm, bits: u16, ops: &InstOperands, sink: &mut CodeSink)
    requires
        stacknull_ok(form, bits, *ops),
        old(sink).bytes().len() + 32 <= sink_capacity(),
    ensures
        final(sink)@ == stacknull_emits(form, bits, *ops, old(sink)@),
{
    let in_stk0 = ops.arg_slot;
    let out_stk0 = ops.result_slot;
}

/// What the recipe stacknull emits only extends the sink contents.
proof fn stacknull_appends(form: OpForm, bits: u16, ops: InstOperands, s: SinkContents)
    ensures
        extends(s, stacknull_emits(form, bits, ops, s)),
{
}

/// What the recipes Op1adjustsp, RexOp1adjustsp require of an instruction.
pub open spec fn adjustsp_ok(form: OpForm, bits: u16, ops: InstOperands) -> bool {
    let in_reg0 = ops.arg0;
    &&& opcode_ok(form, bits, rex2_value(RU_RSP, in_reg0))
}

/// What the recipes Op1adjustsp, RexOp1adjustsp emit: the sink contents `s` with the instruction
/// appended.
pub open spec fn adjustsp_emits(form: OpForm, bits: u16, ops: InstOperands, s: SinkContents) -> SinkContents {
    let in_reg0 = ops.arg0;
    let s = with_bytes(s, opcode_bytes(form, bits, rex2_value(RU_RSP, in_reg0)));
    let s = with_bytes(s, seq![modrm_byte(0b11, (in_reg0) as u8, (RU_RSP) as u8)]);
    s
}

/// Emit an instruction with the recipes Op1adjustsp, RexOp1adjustsp.
fn adjustsp(form: OpForm, bits: u16, ops: &InstOperands, sink: &mut CodeSink)
    requires
        adjustsp_ok(form, bits, *ops),
        old(sink).bytes().len() + 32 <= sink_capacity(),
    ensures
        final(sink)@ == adjustsp_emits(form, bits, *ops, old(sink)@),
{
    let in_reg0 = ops.arg0;
    put_opcode(form, bits, rex2(RU_RSP, in_reg0), sink);
    modrm_rr(RU_RSP, in_reg0, sink);
}

/// What the recipes Op1adjustsp, RexOp1adjustsp emit only extends the sink contents.
proof fn adjustsp_appends(form: OpForm, bits: u16, ops: InstOperands, s: SinkContents)
    ensures
        extends(s, adjustsp_emits(form, bits, ops, s)),
{
}

/// What the recipes Op1adjustsp_ib, RexOp1adjustsp_ib require of an instruction.
pub open spec fn adjustsp_ib_ok(form: OpForm, bits: u16, ops: InstOperands) -> bool {
    &&& opcode_ok(form, bits, rex1_value(RU_RSP))
}

/// What the recipes Op1adjustsp_ib, RexOp1adjustsp_ib emit: the sink contents `s` with the
/// instruction appended.
pub open spec fn adjustsp_ib_emits(form: OpForm, bits: u16, ops: InstOperands, s: SinkContents) -> SinkContents {
    let s = with_bytes(s, opcode_bytes(form, bits, rex1_value(RU_RSP)));
    let s = with_bytes(s, seq![modrm_byte(0b11, (bits >> 12u16) as u8, (RU_RSP) as u8)]);
    let imm = ops.imm;
    let s = with_bytes(s, seq![(imm as u8) as u8]);
    s
}

/// Emit an instruction with the recipes Op1adjustsp_ib, RexOp1adjustsp_ib.
fn adjustsp_ib(form: OpForm, bits: u16, ops: &InstOperands, sink: &mut CodeSink)
    requires
        adjustsp_ib_ok(form, bits, *ops),
        old(sink).bytes().len() + 32 <= sink_capacity(),
    ensures
        final(sink)@ == adjustsp_ib_emits(form, bits, *ops, old(sink)@),
{
    put_opcode(form, bits, rex1(RU_RSP), sink);
    modrm_r_bits(RU_RSP, bits, sink);
    let imm: i64 = ops.imm;
    sink.put1(imm as u8);
}

/// What the recipes Op1adjustsp_ib, RexOp1adjustsp_ib emit only extends the sink contents.
proof fn adjustsp_ib_appends(form: OpForm, bits: u16, ops: InstOperands, s: SinkContents)
    ensures
        extends(s, adjustsp_ib_emits(form, bits, ops, s)),
{
}

/// What the recipes Op1adjustsp_id, RexOp1adjustsp_id require of an instruction.
pub open spec fn adjustsp_id_ok(form: OpForm, bits: u16, ops: InstOperands) -> bool {
    &&& opcode_ok(form, bits, rex1_value(RU_RSP))
}

/// What the recipes Op1adjustsp_id, RexOp1adjustsp_id emit: the sink contents `s` with the
/// instruction appended.
pub open spec fn adjustsp_id_emits(form: OpForm, bits: u16, ops: InstOperands, s: SinkContents) -> SinkContents {
    let s = with_bytes(s, opcode_bytes(form, bits, rex1_value(RU_RSP)));
    let s = with_bytes(s, seq![modrm_byte(0b11, (bits >> 12u16) as u8, (RU_RSP) as u8)]);
    let imm = ops.imm;
    let s = with_bytes(s, le_bytes4((imm as u32) as u32));
    s
}

/// Emit an instruction with the recipes Op1adjustsp_id, RexOp1adjustsp_id.
fn adjustsp_id(form: OpForm, bits: u16, ops: &InstOperands, sink: &mut CodeSink)
    requires
        adjustsp_id_ok(form, bits, *ops),
        old(sink).bytes().len() + 32 <= sink_capacity(),
    ensures
        final(sink)@ == adjustsp_id_emits(form, bits, *ops, old(sink)@),
{
    put_opcode(form, bits, rex1(RU_RSP), sink);
    modrm_r_bits(RU_RSP, bits, sink);
    let imm: i64 = ops.imm;
    sink.put4(imm as u32);
}

/// What the recipes Op1adjustsp_id, RexOp1adjustsp_id emit only extends the sink contents.
proof fn adjustsp_id_appends(form: OpForm, bits: u16, ops: InstOperands, s: SinkContents)
    ensures
        extends(s, adjustsp_id_emits(form, bits, ops, s)),
{
}

/// What the recipes Op1fnaddr4, Op1gvaddr4 require of an instruction.
pub open spec fn fnaddr4_ok(form: OpForm, bits: u16, ops: InstOperands) -> bool {
    let out_reg0 = ops.result;
    &&& opcode_ok(form, bits | (out_reg0 & 7), rex1_value(out_reg0))
}

/// What the recipes Op1fnaddr4, Op1gvaddr4 emit: the sink contents `s` with the instruction
/// appended.
pub open spec fn fnaddr4_emits(form: OpForm, bits: u16, ops: InstOperands, s: SinkContents) -> SinkContents {
    let out_reg0 = ops.result;
    let s = with_bytes(s, opcode_bytes(form, bits | (out_reg0 & 7), rex1_value(out_reg0)));
    let s = with_reloc(s, Reloc::Abs4, RelocTarget::External(ops.symbol), 0i64);
    let s = with_bytes(s, le_bytes4((0) as u32));
    s
}

/// Emit an instruction with the recipes Op1fnaddr4, Op1gvaddr4.
fn fnaddr4(form: OpForm, bits: u16, ops: &InstOperands, sink: &mut CodeSink)
    requires
        fnaddr4_ok(form, bits, *ops),
        old(sink).bytes().len() + 32 <= sink_capacity(),
    ensures
        final(sink)@ == fnaddr4_emits(form, bits, *ops, old(sink)@),
{
    let out_reg0 = ops.result;
    put_opcode(form, bits | (out_reg0 & 7), rex1(out_reg0), sink);
    sink.reloc_external(Reloc::Abs4, ops.symbol, 0);
    sink.put4(0);
}

/// What the recipes Op1fnaddr4, Op1gvaddr4 emit only extends the sink contents.
proof fn fnaddr4_appends(form: OpForm, bits: u16, ops: InstOperands, s: SinkContents)
    ensures
        extends(s, fnaddr4_emits(form, bits, ops, s)),
{
}

/// What the recipes RexOp1fnaddr8, RexOp1gvaddr8 require of an instruction.
pub open spec fn fnaddr8_ok(form: OpForm, bits: u16, ops: InstOperands) -> bool {
    let out_reg0 = ops.result;
    &&& opcode_ok(form, bits | (out_reg0 & 7), rex1_value(out_reg0))
}

/// What the recipes RexOp1fnaddr8, RexOp1gvaddr8 emit: the sink contents `s` with the instruction
/// appended.
pub open spec fn fnaddr8_emits(form: OpForm, bits: u16, ops: InstOperands, s: SinkContents) -> SinkContents {
    let out_reg0 = ops.result;
    let s = with_bytes(s, opcode_bytes(form, bits | (out_reg0 & 7), rex1_value(out_reg0)));
    let s = with_reloc(s, Reloc::Abs8, RelocTarget::External(ops.symbol), 0i64);
    let s = with_bytes(s, le_bytes8((0) as u64));
    s
}

/// Emit an instruction with the recipes RexOp1fnaddr8, RexOp1gvaddr8.
fn fnaddr8(form: OpForm, bits: u16, ops: &InstOperands, sink: &mut CodeSink)
    requires
        fnaddr8_ok(form, bits, *ops),
        old(sink).bytes().len() + 32 <= sink_capacity(),
    ensures
        final(sink)@ == fnaddr8_emits(form, bits, *ops, old(sink)@),
{
    let out_reg0 = ops.result;
    put_opcode(form, bits | (out_reg0 & 7), rex1(out_reg0), sink);
    sink.reloc_external(Reloc::Abs8, ops.symbol, 0);
    sink.put8(0);
}

/// What the recipes RexOp1fnaddr8, RexOp1gvaddr8 emit only extends the sink contents.
proof fn fnaddr8_appends(form: OpForm, bits: u16, ops: InstOperands, s: SinkContents)
    ensures
        extends(s, fnaddr8_emits(form, bits, ops, s)),
{
}

/// What the recipe Op1allones_fnaddr4 requires of an instruction.
pub open spec fn allones_fnaddr4_ok(form: OpForm, bits: u16, ops: InstOperands) -> bool {
    let out_reg0 = ops.result;
    &&& opcode_ok(form, bits | (out_reg0 & 7), rex1_value(out_reg0))
}

/// What the recipe Op1allones_fnaddr4 emits: the sink contents `s` with the instruction appended.
pub open spec fn allones_fnaddr4_emits(form: OpForm, bits: u16, ops: InstOperands, s: SinkContents) -> SinkContents {
    let out_reg0 = ops.result;
    let s = with_bytes(s, opcode_bytes(form, bits | (out_reg0 & 7), rex1_value(out_reg0)));
    let s = with_reloc(s, Reloc::Abs4, RelocTarget::External(ops.symbol), 0i64);
    let s = with_bytes(s, le_bytes4(!0u32));
    s
}

/// Emit an instruction with the recipe Op1allones_fnaddr4.
fn allones_fnaddr4(form: OpForm, bits: u16, ops: &InstOperands, sink: &mut CodeSink)
    requires
        allones_fnaddr4_ok(form, bits, *ops),
        old(sink).bytes().len() + 32 <= sink_capacity(),
    ensures
        final(sink)@ == allones_fnaddr4_emits(form, bits, *ops, old(sink)@),
{
    let out_reg0 = ops.result;
    put_opcode(form, bits | (out_reg0 & 7), rex1(out_reg0), sink);
    sink.reloc_external(Reloc::Abs4, ops.symbol, 0);
    // Write the immediate as `!0` for the benefit of BaldrMonkey.
    sink.put4(!0);
}

/// What the recipe Op1allones_fnaddr4 emits only extends the sink contents.
proof fn allones_fnaddr4_appends(form: OpForm, bits: u16, ops: InstOperands, s: SinkContents)
    ensures
        extends(s, allones_fnaddr4_emits(form, bits, ops, s)),
{
}

/// What the recipe RexOp1allones_fnaddr8 requires of an instruction.
pub open spec fn allones_fnaddr8_ok(form: OpForm, bits: u16, ops: InstOperands) -> bool {
    let out_reg0 = ops.result;
    &&& opcode_ok(form, bits | (out_reg0 & 7), rex1_value(out_reg0))
}

/// What the recipe RexOp1allones_fnaddr8 emits: the sink contents `s` with the instruction
/// appended.
pub open spec fn allones_fnaddr8_emits(form: OpForm, bits: u16, ops: InstOperands, s: SinkContents) -> SinkContents {
    let out_reg0 = ops.result;
    let s = with_bytes(s, opcode_bytes(form, bits | (out_reg0 & 7), rex1_value(out_reg0)));
    let s = with_reloc(s, Reloc::Abs8, RelocTarget::External(ops.symbol), 0i64);
    let s = with_bytes(s, le_bytes8(!0u64));
    s
}

/// Emit an instruction with the recipe RexOp1allones_fnaddr8.
fn allones_fnaddr8(form: OpForm, bits: u16, ops: &InstOperands, sink: &mut CodeSink)
    requires
        allones_fnaddr8_ok(form, bits, *ops),
        old(sink).bytes().len() + 32 <= sink_capacity(),
    ensures
        final(sink)@ == allones_fnaddr8_emits(form, bits, *ops, old(sink)@),
{
    let out_reg0 = ops.result;
    put_opcode(form, bits | (out_reg0 & 7), rex1(out_reg0), sink);
    sink.reloc_external(Reloc::Abs8, ops.symbol, 0);
    // Write the immediate as `!0` for the benefit of BaldrMonkey.
    sink.put8(!0);
}

/// What the recipe RexOp1allones_fnaddr8 emits only extends the sink contents.
proof fn allones_fnaddr8_appends(form: OpForm, bits: u16, ops: InstOperands, s: SinkContents)
    ensures
        extends(s, allones_fnaddr8_emits(form, bits, ops, s)),
{
}

/// What the recipe RexOp1pcrel_fnaddr8 requires of an instruction.
pub open spec fn pcrel_fnaddr8_ok(form: OpForm, bits: u16, ops: InstOperands) -> bool {
    let out_reg0 = ops.result;
    &&& opcode_ok(form, bits, rex2_value(0, out_reg0))
}

/// What the recipe RexOp1pcrel_fnaddr8 emits: the sink contents `s` with the instruction appended.
pub open spec fn pcrel_fnaddr8_emits(form: OpForm, bits: u16, ops: InstOperands, s: SinkContents) -> SinkContents {
    let out_reg0 = ops.result;
    let s = with_bytes(s, opcode_bytes(form, bits, rex2_value(0, out_reg0)));
    let s = with_bytes(s, seq![modrm_byte(0b00, (out_reg0) as u8, 0b101)]);
    let s = with_reloc(s, Reloc::X86PCRel4, RelocTarget::External(ops.symbol), -4i64);
    let s = with_bytes(s, le_bytes4((0) as u32));
    s
}

/// Emit an instruction with the recipe RexOp1pcrel_fnaddr8.
fn pcrel_fnaddr8(form: OpForm, bits: u16, ops: &InstOperands, sink: &mut CodeSink)
    requires
        pcrel_fnaddr8_ok(form, bits, *ops),
        old(sink).bytes().len() + 32 <= sink_capacity(),
    ensures
        final(sink)@ == pcrel_fnaddr8_emits(form, bits, *ops, old(sink)@),
{
    let out_reg0 = ops.result;
    put_opcode(form, bits, rex2(0, out_reg0), sink);
    modrm_riprel(out_reg0, sink);
    // The addend adjusts for the difference between the end of the
    // instruction and the beginning of the immediate field.
    sink.reloc_external(Reloc::X86PCRel4, ops.symbol, -4);
    sink.put4(0);
}

/// What the recipe RexOp1pcrel_fnaddr8 emits only extends the sink contents.
proof fn pcrel_fnaddr8_appends(form: OpForm, bits: u16, ops: InstOperands, s: SinkContents)
    ensures
        extends(s, pcrel_fnaddr8_emits(form, bits, ops, s)),
{
}

/// What the recipe RexOp1got_fnaddr8 requires of an instruction.
pub open spec fn got_fnaddr8_ok(form: OpForm, bits: u16, ops: InstOperands) -> bool {
    let out_reg0 = ops.result;
    &&& opcode_ok(form, bits, rex2_value(0, out_reg0))
}

/// What the recipe RexOp1got_fnaddr8 emits: the sink contents `s` with the instruction appended.
pub open spec fn got_fnaddr8_emits(form: OpForm, bits: u16, ops: InstOperands, s: SinkContents) -> SinkContents {
    let out_reg0 = ops.result;
    let s = with_bytes(s, opcode_bytes(form, bits, rex2_value(0, out_reg0)));
    let s = with_bytes(s, seq![modrm_byte(0b00, (out_reg0) as u8, 0b101)]);
    let s = with_reloc(s, Reloc::X86GOTPCRel4, RelocTarget::External(ops.symbol), -4i64);
    let s = with_bytes(s, le_bytes4((0) as u32));
    s
}

/// Emit an instruction with the recipe RexOp1got_fnaddr8.
fn got_fnaddr8(form: OpForm, bits: u16, ops: &InstOperands, sink: &mut CodeSink)
    requires
        got_fnaddr8_ok(form, bits, *ops),
        old(sink).bytes().len() + 32 <= sink_capacity(),
    ensures
        final(sink)@ == got_fnaddr8_emits(form, bits, *ops, old(sink)@),
{
    let out_reg0 = ops.result;
    put_opcode(form, bits, rex2(0, out_reg0), sink);
    modrm_riprel(out_reg0, sink);
    // The addend adjusts for the difference between the end of the
    // instruction and the beginning of the immediate field.
    sink.reloc_external(Reloc::X86GOTPCRel4, ops.symbol, -4);
    sink.put4(0);
}

/// What the recipe RexOp1got_fnaddr8 emits only extends the sink contents.
proof fn got_fnaddr8_appends(form: OpForm, bits: u16, ops: InstOperands, s: SinkContents)
    ensures
        extends(s, got_fnaddr8_emits(form, bits, ops, s)),
{
}

/// What the recipe RexOp1pcrel_gvaddr8 requires of an instruction.
pub open spec fn pcrel_gvaddr8_ok(form: OpForm, bits: u16, ops: InstOperands) -> bool {
    let out_reg0 = ops.result;
    &&& opcode_ok(form, bits, rex2_value(0, out_reg0))
}

/// What the recipe RexOp1pcrel_gvaddr8 emits: the sink contents `s` with the instruction appended.
pub open spec fn pcrel_gvaddr8_emits(form: OpForm, bits: u16, ops: InstOperands, s: SinkContents) -> SinkContents {
    let out_reg0 = ops.result;
    let s = with_bytes(s, opcode_bytes(form, bits, rex2_value(0, out_reg0)));
    let s = with_bytes(s, seq![modrm_byte(0b00, (out_reg0) as u8, (5) as u8)]);
    let s = with_reloc(s, Reloc::X86PCRel4, RelocTarget::External(ops.symbol), -4i64);
    let s = with_bytes(s, le_bytes4((0) as u32));
    s
}

/// Emit an instruction with the recipe RexOp1pcrel_gvaddr8.
fn pcrel_gvaddr8(form: OpForm, bits: u16, ops: &InstOperands, sink: &mut CodeSink)
    requires
        pcrel_gvaddr8_ok(form, bits, *ops),
        old(sink).bytes().len() + 32 <= sink_capacity(),
    ensures
        final(sink)@ == pcrel_gvaddr8_emits(form, bits, *ops, old(sink)@),
{
    let out_reg0 = ops.result;
    put_opcode(form, bits, rex2(0, out_reg0), sink);
    modrm_rm(5, out_reg0, sink);
    // The addend adjusts for the difference between the end of the
    // instruction and the beginning of the immediate field.
    sink.reloc_external(Reloc::X86PCRel4, ops.symbol, -4);
    sink.put4(0);
}

/// What the recipe RexOp1pcrel_gvaddr8 emits only extends the sink contents.
proof fn pcrel_gvaddr8_appends(form: OpForm, bits: u16, ops: InstOperands, s: SinkContents)
    ensures
        extends(s, pcrel_gvaddr8_emits(form, bits, ops, s)),
{
}

/// What the recipe RexOp1got_gvaddr8 requires of an instruction.
pub open spec fn got_gvaddr8_ok(form: OpForm, bits: u16, ops: InstOperands) -> bool {
    let out_reg0 = ops.result;
    &&& opcode_ok(form, bits, rex2_value(0, out_reg0))
}

/// What the recipe RexOp1got_gvaddr8 emits: the sink contents `s` with the instruction appended.
pub open spec fn got_gvaddr8_emits(form: OpForm, bits: u16, ops: InstOperands, s: SinkContents) -> SinkContents {
    let out_reg0 = ops.result;
    let s = with_bytes(s, opcode_bytes(form, bits, rex2_value(0, out_reg0)));
    let s = with_bytes(s, seq![modrm_byte(0b00, (out_reg0) as u8, (5) as u8)]);
    let s = with_reloc(s, Reloc::X86GOTPCRel4, RelocTarget::External(ops.symbol), -4i64);
    let s = with_bytes(s, le_bytes4((0) as u32));
    s
}

/// Emit an instruction with the recipe RexOp1got_gvaddr8.
fn got_gvaddr8(form: OpForm, bits: u16, ops: &InstOperands, sink: &mut CodeSink)
    requires
        got_gvaddr8_ok(form, bits, *ops),
        old(sink).bytes().len() + 32 <= sink_capacity(),
    ensures
        final(sink)@ == got_gvaddr8_emits(form, bits, *ops, old(sink)@),
{
    let out_reg0 = ops.result;
    put_opcode(form, bits, rex2(0, out_reg0), sink);
    modrm_rm(5, out_reg0, sink);
    // The addend adjusts for the difference between the end of the
    // instruction and the beginning of the immediate field.
    sink.reloc_external(Reloc::X86GOTPCRel4, ops.symbol, -4);
    sink.put4(0);
}

/// What the recipe RexOp1got_gvaddr8 emits only extends the sink contents.
proof fn got_gvaddr8_appends(form: OpForm, bits: u16, ops: InstOperands, s: SinkContents)
    ensures
        extends(s, got_gvaddr8_emits(form, bits, ops, s)),
{
}

/// What the recipe Op1spaddr4_id requires of an instruction.
pub open spec fn spaddr4_id_ok(form: OpForm, bits: u16, ops: InstOperands) -> bool {
    let out_reg0 = ops.result;
    let sp = ops.arg_slot;
    let base = stack_base_reg(sp.base);
    let imm = ops.offset;
    &&& ops.arg_slot.base == StackBase::SP
    &&& sp.base != StackBase::Zone
    &&& opcode_ok(form, bits, rex2_value(out_reg0, base))
    &&& i32::MIN <= sp.offset + imm <= i32::MAX
}

/// What the recipe Op1spaddr4_id emits: the sink contents `s` with the instruction appended.
pub open spec fn spaddr4_id_emits(form: OpForm, bits: u16, ops: InstOperands, s: SinkContents) -> SinkContents {
    let out_reg0 = ops.result;
    let sp = ops.arg_slot;
    let base = stack_base_reg(sp.base);
    let s = with_bytes(s, opcode_bytes(form, bits, rex2_value(out_reg0, base)));
    let s = with_bytes(s, seq![modrm_byte(0b01, (out_reg0) as u8, 0b100)]);
    let s = with_bytes(s, seq![sib_byte(0, 0b100, (base) as u8)]);
    let imm = ops.offset;
    let s = with_bytes(s, le_bytes4((sp.offset + imm) as u32));
    s
}

/// Emit an instruction with the recipe Op1spaddr4_id.
fn spaddr4_id(form: OpForm, bits: u16, ops: &InstOperands, sink: &mut CodeSink)
    requires
        spaddr4_id_ok(form, bits, *ops),
        old(sink).bytes().len() + 32 <= sink_capacity(),
    ensures
        final(sink)@ == spaddr4_id_emits(form, bits, *ops, old(sink)@),
{
    let out_reg0 = ops.result;
    let sp = ops.arg_slot;
    let base = stk_base(sp.base);
    put_opcode(form, bits, rex2(out_reg0, base), sink);
    modrm_sib_disp8(out_reg0, sink);
    sib_noindex(base, sink);
    let imm: i32 = ops.offset;
    sink.put4((sp.offset + imm) as u32);
}

/// What the recipe Op1spaddr4_id emits only extends the sink contents.
proof fn spaddr4_id_appends(form: OpForm, bits: u16, ops: InstOperands, s: SinkContents)
    ensures
        extends(s, spaddr4_id_emits(form, bits, ops, s)),
{
}

/// What the recipe RexOp1spaddr8_id requires of an instruction.
pub open spec fn spaddr8_id_ok(form: OpForm, bits: u16, ops: InstOperands) -> bool {
    let out_reg0 = ops.result;
    let sp = ops.arg_slot;
    let base = stack_base_reg(sp.base);
    let imm = ops.offset;
    &&& ops.arg_slot.base == StackBase::SP
    &&& sp.base != StackBase::Zone
    &&& opcode_ok(form, bits, rex2_value(base, out_reg0))
    &&& i32::MIN <= sp.offset + imm <= i32::MAX
}

/// What the recipe RexOp1spaddr8_id emits: the sink contents `s` with the instruction appended.
pub open spec fn spaddr8_id_emits(form: OpForm, bits: u16, ops: InstOperands, s: SinkContents) -> SinkContents {
    let out_reg0 = ops.result;
    let sp = ops.arg_slot;
    let base = stack_base_reg(sp.base);
    let s = with_bytes(s, opcode_bytes(form, bits, rex2_value(base, out_reg0)));
    let s = with_bytes(s, seq![modrm_byte(0b10, (out_reg0) as u8, 0b100)]);
    let s = with_bytes(s, seq![sib_byte(0, 0b100, (base) as u8)]);
    let imm = ops.offset;
    let s = with_bytes(s, le_bytes4((sp.offset + imm) as u32));
    s
}

/// Emit an instruction with the recipe RexOp1spaddr8_id.
fn spaddr8_id(form: OpForm, bits: u16, ops: &InstOperands, sink: &mut CodeSink)
    requires
        spaddr8_id_ok(form, bits, *ops),
        old(sink).bytes().len() + 32 <= sink_capacity(),
    ensures
        final(sink)@ == spaddr8_id_emits(form, bits, *ops, old(sink)@),
{
    let out_reg0 = ops.result;
    let sp = ops.arg_slot;
    let base = stk_base(sp.base);
    put_opcode(form, bits, rex2(base, out_reg0), sink);
    modrm_sib_disp32(out_reg0, sink);
    sib_noindex(base, sink);
    let imm: i32 = ops.offset;
    sink.put4((sp.offset + imm) as u32);
}

/// What the recipe RexOp1spaddr8_id emits only extends the sink contents.
proof fn spaddr8_id_appends(form: OpForm, bits: u16, ops: InstOperands, s: SinkContents)
    ensures
        extends(s, spaddr8_id_emits(form, bits, ops, s)),
{
}

/// What the recipe Op1call_id requires of an instruction.
pub open spec fn call_id_ok(form: OpForm, bits: u16, ops: InstOperands) -> bool {
    &&& opcode_ok(form, bits, BASE_REX)
}

/// What the recipe Op1call_id emits: the sink contents `s` with the instruction appended.
pub open spec fn call_id_emits(form: OpForm, bits: u16, ops: InstOperands, s: SinkContents) -> SinkContents {
    let s = with_trap(s, TrapCode::StackOverflow, ops.srcloc);
    let s = with_bytes(s, opcode_bytes(form, bits, BASE_REX));
    let s = with_reloc(s, Reloc::X86CallPCRel4, RelocTarget::External(ops.symbol), -4i64);
    let s = with_bytes(s, le_bytes4((0) as u32));
    s
}

/// Emit an instruction with the recipe Op1call_id.
fn call_id(form: OpForm, bits: u16, ops: &InstOperands, sink: &mut CodeSink)
    requires
        call_id_ok(form, bits, *ops),
        old(sink).bytes().len() + 32 <= sink_capacity(),
    ensures
        final(sink)@ == call_id_emits(form, bits, *ops, old(sink)@),
{
    sink.trap(TrapCode::StackOverflow, ops.srcloc);
    put_opcode(form, bits, BASE_REX, sink);
    // The addend adjusts for the difference between the end of the
    // instruction and the beginning of the immediate field.
    sink.reloc_external(Reloc::X86CallPCRel4, ops.symbol, -4);
    sink.put4(0);
}

/// What the recipe Op1call_id emits only extends the sink contents.
proof fn call_id_appends(form: OpForm, bits: u16, ops: InstOperands, s: SinkContents)
    ensures
        extends(s, call_id_emits(form, bits, ops, s)),
{
}

/// What the recipe Op1call_plt_id requires of an instruction.
pub open spec fn call_plt_id_ok(form: OpForm, bits: u16, ops: InstOperands) -> bool {
    &&& opcode_ok(form, bits, BASE_REX)
}

/// What the recipe Op1call_plt_id emits: the sink contents `s` with the instruction appended.
pub open spec fn call_plt_id_emits(form: OpForm, bits: u16, ops: InstOperands, s: SinkContents) -> SinkContents {
    let s = with_trap(s, TrapCode::StackOverflow, ops.srcloc);
    let s = with_bytes(s, opcode_bytes(form, bits, BASE_REX));
    let s = with_reloc(s, Reloc::X86CallPLTRel4, RelocTarget::External(ops.symbol), -4i64);
    let s = with_bytes(s, le_bytes4((0) as u32));
    s
}

/// Emit an instruction with the recipe Op1call_plt_id.
fn call_plt_id(form: OpForm, bits: u16, ops: &InstOperands, sink: &mut CodeSink)
    requires
        call_plt_id_ok(form, bits, *ops),
        old(sink).bytes().len() + 32 <= sink_capacity(),
    ensures
        final(sink)@ == call_plt_id_emits(form, bits, *ops, old(sink)@),
{
    sink.trap(TrapCode::StackOverflow, ops.srcloc);
    put_opcode(form, bits, BASE_REX, sink);
    sink.reloc_external(Reloc::X86CallPLTRel4, ops.symbol, -4);
    sink.put4(0);
}

/// What the recipe Op1call_plt_id emits only extends the sink contents.
proof fn call_plt_id_appends(form: OpForm, bits: u16, ops: InstOperands, s: SinkContents)
    ensures
        extends(s, call_plt_id_emits(form, bits, ops, s)),
{
}

/// What the recipes Op1call_r, RexOp1call_r require of an instruction.
pub open spec fn call_r_ok(form: OpForm, bits: u16, ops: InstOperands) -> bool {
    let in_reg0 = ops.arg0;
    &&& opcode_ok(form, bits, rex1_value(in_reg0))
}

/// What the recipes Op1call_r, RexOp1call_r emit: the sink contents `s` with the instruction
/// appended.
pub open spec fn call_r_emits(form: OpForm, bits: u16, ops: InstOperands, s: SinkContents) -> SinkContents {
    let in_reg0 = ops.arg0;
    let s = with_trap(s, TrapCode::StackOverflow, ops.srcloc);
    let s = with_bytes(s, opcode_bytes(form, bits, rex1_value(in_reg0)));
    let s = with_bytes(s, seq![modrm_byte(0b11, (bits >> 12u16) as u8, (in_reg0) as u8)]);
    s
}

/// Emit an instruction with the recipes Op1call_r, RexOp1call_r.
fn call_r(form: OpForm, bits: u16, ops: &InstOperands, sink: &mut CodeSink)
    requires
        call_r_ok(form, bits, *ops),
        old(sink).bytes().len() + 32 <= sink_capacity(),
    ensures
        final(sink)@ == call_r_emits(form, bits, *ops, old(sink)@),
{
    let in_reg0 = ops.arg0;
    sink.trap(TrapCode::StackOverflow, ops.srcloc);
    put_opcode(form, bits, rex1(in_reg0), sink);
    modrm_r_bits(in_reg0, bits, sink);
}

/// What the recipes Op1call_r, RexOp1call_r emit only extends the sink contents.
proof fn call_r_appends(form: OpForm, bits: u16, ops: InstOperands, s: SinkContents)
    ensures
        extends(s, call_r_emits(form, bits, ops, s)),
{
}

/// What the recipe Op1ret requires of an instruction.
pub open spec fn ret_ok(form: OpForm, bits: u16, ops: InstOperands) -> bool {
    &&& opcode_ok(form, bits, BASE_REX)
}

/// What the recipe Op1ret emits: the sink contents `s` with the instruction appended.
pub open spec fn ret_emits(form: OpForm, bits: u16, ops: InstOperands, s: SinkContents) -> SinkContents {
    let s = with_bytes(s, opcode_bytes(form, bits, BASE_REX));
    s
}

/// Emit an instruction with the recipe Op1ret.
fn ret(form: OpForm, bits: u16, ops: &InstOperands, sink: &mut CodeSink)
    requires
        ret_ok(form, bits, *ops),
        old(sink).bytes().len() + 32 <= sink_capacity(),
    ensures
        final(sink)@ == ret_emits(form, bits, *ops, old(sink)@),
{
    put_opcode(form, bits, BASE_REX, sink);
}

/// What the recipe Op1ret emits only extends the sink contents.
proof fn ret_appends(form: OpForm, bits: u16, ops: InstOperands, s: SinkContents)
    ensures
        extends(s, ret_emits(form, bits, ops, s)),
{
}

/// What the recipe Op1jmpb requires of an instruction.
pub open spec fn jmpb_ok(form: OpForm, bits: u16, ops: InstOperands) -> bool {
    &&& opcode_ok(form, bits, BASE_REX)
}

/// What the recipe Op1jmpb emits: the sink contents `s` with the instruction appended.
pub open spec fn jmpb_emits(form: OpForm, bits: u16, ops: InstOperands, s: SinkContents) -> SinkContents {
    let s = with_bytes(s, opcode_bytes(form, bits, BASE_REX));
    let s = with_bytes(s, seq![ops.destination.wrapping_sub((s.0.len() + 1) as u32) as u8]);
    s
}

/// Emit an instruction with the recipe Op1jmpb.
fn jmpb(form: OpForm, bits: u16, ops: &InstOperands, sink: &mut CodeSink)
    requires
        jmpb_ok(form, bits, *ops),
        old(sink).bytes().len() + 32 <= sink_capacity(),
    ensures
        final(sink)@ == jmpb_emits(form, bits, *ops, old(sink)@),
{
    put_opcode(form, bits, BASE_REX, sink);
    disp1(ops.destination, sink);
}

/// What the recipe Op1jmpb emits only extends the sink contents.
proof fn jmpb_appends(form: OpForm, bits: u16, ops: InstOperands, s: SinkContents)
    ensures
        extends(s, jmpb_emits(form, bits, ops, s)),
{
}

/// What the recipe Op1jmpd requires of an instruction.
pub open spec fn jmpd_ok(form: OpForm, bits: u16, ops: InstOperands) -> bool {
    &&& opcode_ok(form, bits, BASE_REX)
}

/// What the recipe Op1jmpd emits: the sink contents `s` with the instruction appended.
pub open spec fn jmpd_emits(form: OpForm, bits: u16, ops: InstOperands, s: SinkContents) -> SinkContents {
    let s = with_bytes(s, opcode_bytes(form, bits, BASE_REX));
    let s = with_bytes(s, le_bytes4(ops.destination.wrapping_sub((s.0.len() + 4) as u32)));
    s
}

/// Emit an instruction with the recipe Op1jmpd.
fn jmpd(form: OpForm, bits: u16, ops: &InstOperands, sink: &mut CodeSink)
    requires
        jmpd_ok(form, bits, *ops),
        old(sink).bytes().len() + 32 <= sink_capacity(),
    ensures
        final(sink)@ == jmpd_emits(form, bits, *ops, old(sink)@),
{
    put_opcode(form, bits, BASE_REX, sink);
    disp4(ops.destination, sink);
}

/// What the recipe Op1jmpd emits only extends the sink contents.
proof fn jmpd_appends(form: OpForm, bits: u16, ops: InstOperands, s: SinkContents)
    ensures
        extends(s, jmpd_emits(form, bits, ops, s)),
{
}

/// What the recipes Op1brib, RexOp1brib require of an instruction.
pub open spec fn brib_ok(form: OpForm, bits: u16, ops: InstOperands) -> bool {
    let cond = ops.intcc;
    &&& opcode_ok(form, bits | icc_opcode(cond), BASE_REX)
}

/// What the recipes Op1brib, RexOp1brib emit: the sink contents `s` with the instruction appended.
pub open spec fn brib_emits(form: OpForm, bits: u16, ops: InstOperands, s: SinkContents) -> SinkContents {
    let cond = ops.intcc;
    let s = with_bytes(s, opcode_bytes(form, bits | icc_opcode(cond), BASE_REX));
    let s = with_bytes(s, seq![ops.destination.wrapping_sub((s.0.len() + 1) as u32) as u8]);
    s
}

/// Emit an instruction with the recipes Op1brib, RexOp1brib.
fn brib(form: OpForm, bits: u16, ops: &InstOperands, sink: &mut CodeSink)
    requires
        brib_ok(form, bits, *ops),
        old(sink).bytes().len() + 32 <= sink_capacity(),
    ensures
        final(sink)@ == brib_emits(form, bits, *ops, old(sink)@),
{
    let cond = ops.intcc;
    put_opcode(form, bits | icc2opc(cond), BASE_REX, sink);
    disp1(ops.destination, sink);
}

/// What the recipes Op1brib, RexOp1brib emit only extends the sink contents.
proof fn brib_appends(form: OpForm, bits: u16, ops: InstOperands, s: SinkContents)
    ensures
        extends(s, brib_emits(form, bits, ops, s)),
{
}

/// What the recipes Op2brid, RexOp2brid require of an instruction.
pub open spec fn brid_ok(form: OpForm, bits: u16, ops: InstOperands) -> bool {
    let cond = ops.intcc;
    &&& opcode_ok(form, bits | icc_opcode(cond), BASE_REX)
}

/// What the recipes Op2brid, RexOp2brid emit: the sink contents `s` with the instruction appended.
pub open spec fn brid_emits(form: OpForm, bits: u16, ops: InstOperands, s: SinkContents) -> SinkContents {
    let cond = ops.intcc;
    let s = with_bytes(s, opcode_bytes(form, bits | icc_opcode(cond), BASE_REX));
    let s = with_bytes(s, le_bytes4(ops.destination.wrapping_sub((s.0.len() + 4) as u32)));
    s
}

/// Emit an instruction with the recipes Op2brid, RexOp2brid.
fn brid(form: OpForm, bits: u16, ops: &InstOperands, sink: &mut CodeSink)
    requires
        brid_ok(form, bits, *ops),
        old(sink).bytes().len() + 32 <= sink_capacity(),
    ensures
        final(sink)@ == brid_emits(form, bits, *ops, old(sink)@),
{
    let cond = ops.intcc;
    put_opcode(form, bits | icc2opc(cond), BASE_REX, sink);
    disp4(ops.destination, sink);
}

/// What the recipes Op2brid, RexOp2brid emit only extends the sink contents.
proof fn brid_appends(form: OpForm, bits: u16, ops: InstOperands, s: SinkContents)
    ensures
        extends(s, brid_emits(form, bits, ops, s)),
{
}

/// What the recipes Op1brfb, RexOp1brfb require of an instruction.
pub open spec fn brfb_ok(form: OpForm, bits: u16, ops: InstOperands) -> bool {
    let cond = ops.floatcc;
    &&& fcc_supported(cond)
    &&& opcode_ok(form, bits | fcc_opcode(cond), BASE_REX)
}

/// What the recipes Op1brfb, RexOp1brfb emit: the sink contents `s` with the instruction appended.
pub open spec fn brfb_emits(form: OpForm, bits: u16, ops: InstOperands, s: SinkContents) -> SinkContents {
    let cond = ops.floatcc;
    let s = with_bytes(s, opcode_bytes(form, bits | fcc_opcode(cond), BASE_REX));
    let s = with_bytes(s, seq![ops.destination.wrapping_sub((s.0.len() + 1) as u32) as u8]);
    s
}

/// Emit an instruction with the recipes Op1brfb, RexOp1brfb.
fn brfb(form: OpForm, bits: u16, ops: &InstOperands, sink: &mut CodeSink)
    requires
        brfb_ok(form, bits, *ops),
        old(sink).bytes().len() + 32 <= sink_capacity(),
    ensures
        final(sink)@ == brfb_emits(form, bits, *ops, old(sink)@),
{
    let cond = ops.floatcc;
    put_opcode(form, bits | fcc2opc(cond), BASE_REX, sink);
    disp1(ops.destination, sink);
}

/// What the recipes Op1brfb, RexOp1brfb emit only extends the sink contents.
proof fn brfb_appends(form: OpForm, bits: u16, ops: InstOperands, s: SinkContents)
    ensures
        extends(s, brfb_emits(form, bits, ops, s)),
{
}

/// What the recipes Op2brfd, RexOp2brfd require of an instruction.
pub open spec fn brfd_ok(form: OpForm, bits: u16, ops: InstOperands) -> bool {
    let cond = ops.floatcc;
    &&& fcc_supported(cond)
    &&& opcode_ok(form, bits | fcc_opcode(cond), BASE_REX)
}

/// What the recipes Op2brfd, RexOp2brfd emit: the sink contents `s` with the instruction appended.
pub open spec fn brfd_emits(form: OpForm, bits: u16, ops: InstOperands, s: SinkContents) -> SinkContents {
    let cond = ops.floatcc;
    let s = with_bytes(s, opcode_bytes(form, bits | fcc_opcode(cond), BASE_REX));
    let s = with_bytes(s, le_bytes4(ops.destination.wrapping_sub((s.0.len() + 4) as u32)));
    s
}

/// Emit an instruction with the recipes Op2brfd, RexOp2brfd.
fn brfd(form: OpForm, bits: u16, ops: &InstOperands, sink: &mut CodeSink)
    requires
        brfd_ok(form, bits, *ops),
        old(sink).bytes().len() + 32 <= sink_capacity(),
    ensures
        final(sink)@ == brfd_emits(form, bits, *ops, old(sink)@),
{
    let cond = ops.floatcc;
    put_opcode(form, bits | fcc2opc(cond), BASE_REX, sink);
    disp4(ops.destination, sink);
}

/// What the recipes Op2brfd, RexOp2brfd emit only extends the sink contents.
proof fn brfd_appends(form: OpForm, bits: u16, ops: InstOperands, s: SinkContents)
    ensures
        extends(s, brfd_emits(form, bits, ops, s)),
{
}

/// What the recipes Op1tjccb, RexOp1tjccb require of an instruction.
pub open spec fn tjccb_ok(form: OpForm, bits: u16, ops: InstOperands) -> bool {
    let in_reg0 = ops.arg0;
    &&& opcode_ok(form, (bits & 0xff00) | 0x85, rex2_value(in_reg0, in_reg0))
}

/// What the recipes Op1tjccb, RexOp1tjccb emit: the sink contents `s` with the instruction
/// appended.
pub open spec fn tjccb_emits(form: OpForm, bits: u16, ops: InstOperands, s: SinkContents) -> SinkContents {
    let in_reg0 = ops.arg0;
    let s = with_bytes(s, opcode_bytes(form, (bits & 0xff00) | 0x85, rex2_value(in_reg0, in_reg0)));
    let s = with_bytes(s, seq![modrm_byte(0b11, (in_reg0) as u8, (in_reg0) as u8)]);
    let s = with_bytes(s, seq![(bits as u8) as u8]);
    let s = with_bytes(s, seq![ops.destination.wrapping_sub((s.0.len() + 1) as u32) as u8]);
    s
}

/// Emit an instruction with the recipes Op1tjccb, RexOp1tjccb.
fn tjccb(form: OpForm, bits: u16, ops: &InstOperands, sink: &mut CodeSink)
    requires
        tjccb_ok(form, bits, *ops),
        old(sink).bytes().len() + 32 <= sink_capacity(),
    ensures
        final(sink)@ == tjccb_emits(form, bits, *ops, old(sink)@),
{
    let in_reg0 = ops.arg0;
    // test r, r.
    put_opcode(form, (bits & 0xff00) | 0x85, rex2(in_reg0, in_reg0), sink);
    modrm_rr(in_reg0, in_reg0, sink);
    // Jcc instruction.
    sink.put1(bits as u8);
    disp1(ops.destination, sink);
}

/// What the recipes Op1tjccb, RexOp1tjccb emit only extends the sink contents.
proof fn tjccb_appends(form: OpForm, bits: u16, ops: InstOperands, s: SinkContents)
    ensures
        extends(s, tjccb_emits(form, bits, ops, s)),
{
}

/// What the recipes Op1tjccd, RexOp1tjccd require of an instruction.
pub open spec fn tjccd_ok(form: OpForm, bits: u16, ops: InstOperands) -> bool {
    let in_reg0 = ops.arg0;
    &&& opcode_ok(form, (bits & 0xff00) | 0x85, rex2_value(in_reg0, in_reg0))
}

/// What the recipes Op1tjccd, RexOp1tjccd emit: the sink contents `s` with the instruction
/// appended.
pub open spec fn tjccd_emits(form: OpForm, bits: u16, ops: InstOperands, s: SinkContents) -> SinkContents {
    let in_reg0 = ops.arg0;
    let s = with_bytes(s, opcode_bytes(form, (bits & 0xff00) | 0x85, rex2_value(in_reg0, in_reg0)));
    let s = with_bytes(s, seq![modrm_byte(0b11, (in_reg0) as u8, (in_reg0) as u8)]);
    let s = with_bytes(s, seq![(0x0f) as u8]);
    let s = with_bytes(s, seq![(bits as u8) as u8]);
    let s = with_bytes(s, le_bytes4(ops.destination.wrapping_sub((s.0.len() + 4) as u32)));
    s
}

/// Emit an instruction with the recipes Op1tjccd, RexOp1tjccd.
fn tjccd(form: OpForm, bits: u16, ops: &InstOperands, sink: &mut CodeSink)
    requires
        tjccd_ok(form, bits, *ops),
        old(sink).bytes().len() + 32 <= sink_capacity(),
    ensures
        final(sink)@ == tjccd_emits(form, bits, *ops, old(sink)@),
{
    let in_reg0 = ops.arg0;
    // test r, r.
    put_opcode(form, (bits & 0xff00) | 0x85, rex2(in_reg0, in_reg0), sink);
    modrm_rr(in_reg0, in_reg0, sink);
    // Jcc instruction.
    sink.put1(0x0f);
    sink.put1(bits as u8);
    disp4(ops.destination, sink);
}

/// What the recipes Op1tjccd, RexOp1tjccd emit only extends the sink contents.
proof fn tjccd_appends(form: OpForm, bits: u16, ops: InstOperands, s: SinkContents)
    ensures
        extends(s, tjccd_emits(form, bits, ops, s)),
{
}

/// What the recipe Op1t8jccd_long requires of an instruction.
pub open spec fn t8jccd_long_ok(form: OpForm, bits: u16, ops: InstOperands) -> bool {
    let in_reg0 = ops.arg0;
    &&& opcode_ok(form, (bits & 0xff00) | 0xf7, rex1_value(in_reg0))
}

/// What the recipe Op1t8jccd_long emits: the sink contents `s` with the instruction appended.
pub open spec fn t8jccd_long_emits(form: OpForm, bits: u16, ops: InstOperands, s: SinkContents) -> SinkContents {
    let in_reg0 = ops.arg0;
    let s = with_bytes(s, opcode_bytes(form, (bits & 0xff00) | 0xf7, rex1_value(in_reg0)));
    let s = with_bytes(s, seq![modrm_byte(0b11, (bits >> 12u16) as u8, (in_reg0) as u8)]);
    let s = with_bytes(s, le_bytes4((0xff) as u32));
    let s = with_bytes(s, seq![(0x0f) as u8]);
    let s = with_bytes(s, seq![(bits as u8) as u8]);
    let s = with_bytes(s, le_bytes4(ops.destination.wrapping_sub((s.0.len() + 4) as u32)));
    s
}

/// Emit an instruction with the recipe Op1t8jccd_long.
fn t8jccd_long(form: OpForm, bits: u16, ops: &InstOperands, sink: &mut CodeSink)
    requires
        t8jccd_long_ok(form, bits, *ops),
        old(sink).bytes().len() + 32 <= sink_capacity(),
    ensures
        final(sink)@ == t8jccd_long_emits(form, bits, *ops, old(sink)@),
{
    let in_reg0 = ops.arg0;
    // test32 r, 0xff.
    put_opcode(form, (bits & 0xff00) | 0xf7, rex1(in_reg0), sink);
    modrm_r_bits(in_reg0, bits, sink);
    sink.put4(0xff);
    // Jcc instruction.
    sink.put1(0x0f);
    sink.put1(bits as u8);
    disp4(ops.destination, sink);
}

/// What the recipe Op1t8jccd_long emits only extends the sink contents.
proof fn t8jccd_long_appends(form: OpForm, bits: u16, ops: InstOperands, s: SinkContents)
    ensures
        extends(s, t8jccd_long_emits(form, bits, ops, s)),
{
}

/// What the recipes Op1t8jccb_abcd, RexOp1t8jccb require of an instruction.
pub open spec fn t8jccb_abcd_ok(form: OpForm, bits: u16, ops: InstOperands) -> bool {
    let in_reg0 = ops.arg0;
    &&& opcode_ok(form, (bits & 0xff00) | 0x84, rex2_value(in_reg0, in_reg0))
}

/// What the recipes Op1t8jccb_abcd, RexOp1t8jccb emit: the sink contents `s` with the instruction
/// appended.
pub open spec fn t8jccb_abcd_emits(form: OpForm, bits: u16, ops: InstOperands, s: SinkContents) -> SinkContents {
    let in_reg0 = ops.arg0;
    let s = with_bytes(s, opcode_bytes(form, (bits & 0xff00) | 0x84, rex2_value(in_reg0, in_reg0)));
    let s = with_bytes(s, seq![modrm_byte(0b11, (in_reg0) as u8, (in_reg0) as u8)]);
    let s = with_bytes(s, seq![(bits as u8) as u8]);
    let s = with_bytes(s, seq![ops.destination.wrapping_sub((s.0.len() + 1) as u32) as u8]);
    s
}

/// Emit an instruction with the recipes Op1t8jccb_abcd, RexOp1t8jccb.
fn t8jccb_abcd(form: OpForm, bits: u16, ops: &InstOperands, sink: &mut CodeSink)
    requires
        t8jccb_abcd_ok(form, bits, *ops),
        old(sink).bytes().len() + 32 <= sink_capacity(),
    ensures
        final(sink)@ == t8jccb_abcd_emits(form, bits, *ops, old(sink)@),
{
    let in_reg0 = ops.arg0;
    // test8 r, r.
    put_opcode(form, (bits & 0xff00) | 0x84, rex2(in_reg0, in_reg0), sink);
    modrm_rr(in_reg0, in_reg0, sink);
    // Jcc instruction.
    sink.put1(bits as u8);
    disp1(ops.destination, sink);
}

/// What the recipes Op1t8jccb_abcd, RexOp1t8jccb emit only extends the sink contents.
proof fn t8jccb_abcd_appends(form: OpForm, bits: u16, ops: InstOperands, s: SinkContents)
    ensures
        extends(s, t8jccb_abcd_emits(form, bits, ops, s)),
{
}

/// What the recipes Op1t8jccd_abcd, RexOp1t8jccd require of an instruction.
pub open spec fn t8jccd_abcd_ok(form: OpForm, bits: u16, ops: InstOperands) -> bool {
    let in_reg0 = ops.arg0;
    &&& opcode_ok(form, (bits & 0xff00) | 0x84, rex2_value(in_reg0, in_reg0))
}

/// What the recipes Op1t8jccd_abcd, RexOp1t8jccd emit: the sink contents `s` with the instruction
/// appended.
pub open spec fn t8jccd_abcd_emits(form: OpForm, bits: u16, ops: InstOperands, s: SinkContents) -> SinkContents {
    let in_reg0 = ops.arg0;
    let s = with_bytes(s, opcode_bytes(form, (bits & 0xff00) | 0x84, rex2_value(in_reg0, in_reg0)));
    let s = with_bytes(s, seq![modrm_byte(0b11, (in_reg0) as u8, (in_reg0) as u8)]);
    let s = with_bytes(s, seq![(0x0f) as u8]);
    let s = with_bytes(s, seq![(bits as u8) as u8]);
    let s = with_bytes(s, le_bytes4(ops.destination.wrapping_sub((s.0.len() + 4) as u32)));
    s
}

/// Emit an instruction with the recipes Op1t8jccd_abcd, RexOp1t8jccd.
fn t8jccd_abcd(form: OpForm, bits: u16, ops: &InstOperands, sink: &mut CodeSink)
    requires
        t8jccd_abcd_ok(form, bits, *ops),
        old(sink).bytes().len() + 32 <= sink_capacity(),
    ensures
        final(sink)@ == t8jccd_abcd_emits(form, bits, *ops, old(sink)@),
{
    let in_reg0 = ops.arg0;
    // test8 r, r.
    put_opcode(form, (bits & 0xff00) | 0x84, rex2(in_reg0, in_reg0), sink);
    modrm_rr(in_reg0, in_reg0, sink);
    // Jcc instruction.
    sink.put1(0x0f);
    sink.put1(bits as u8);
    disp4(ops.destination, sink);
}

/// What the recipes Op1t8jccd_abcd, RexOp1t8jccd emit only extends the sink contents.
proof fn t8jccd_abcd_appends(form: OpForm, bits: u16, ops: InstOperands, s: SinkContents)
    ensures
        extends(s, t8jccd_abcd_emits(form, bits, ops, s)),
{
}

/// What the recipes RexOp1jt_entry, Op1jt_entry require of an instruction.
pub open spec fn jt_entry_ok(form: OpForm, bits: u16, ops: InstOperands) -> bool {
    let in_reg0 = ops.arg0;
    let in_reg1 = ops.arg1;
    let out_reg0 = ops.result;
    let imm = ops.imm as u8;
    &&& opcode_ok(form, bits, rex3_value(in_reg1, out_reg0, in_reg0))
    &&& (offset_needed(in_reg1)) ==> (imm.trailing_zeros() as u8) < 4
    &&& (!(offset_needed(in_reg1))) ==> (imm.trailing_zeros() as u8) < 4
}

/// What the recipes RexOp1jt_entry, Op1jt_entry emit: the sink contents `s` with the instruction
/// appended.
pub open spec fn jt_entry_emits(form: OpForm, bits: u16, ops: InstOperands, s: SinkContents) -> SinkContents {
    let in_reg0 = ops.arg0;
    let in_reg1 = ops.arg1;
    let out_reg0 = ops.result;
    let imm = ops.imm as u8;
    let s = with_bytes(s, opcode_bytes(form, bits, rex3_value(in_reg1, out_reg0, in_reg0)));
    let s = if offset_needed(in_reg1) {
        let s = with_bytes(s, seq![modrm_byte(0b01, (out_reg0) as u8, 0b100)]);
        let s = with_bytes(s, seq![sib_byte(imm.trailing_zeros() as u8, (in_reg0) as u8, (in_reg1) as u8)]);
        let s = with_bytes(s, seq![(0) as u8]);
        s
    } else {
        let s = with_bytes(s, seq![modrm_byte(0b00, (out_reg0) as u8, 0b100)]);
        let s = with_bytes(s, seq![sib_byte(imm.trailing_zeros() as u8, (in_reg0) as u8, (in_reg1) as u8)]);
        s
    };
    s
}

/// Emit an instruction with the recipes RexOp1jt_entry, Op1jt_entry.
fn jt_entry(form: OpForm, bits: u16, ops: &InstOperands, sink: &mut CodeSink)
    requires
        jt_entry_ok(form, bits, *ops),
        old(sink).bytes().len() + 32 <= sink_capacity(),
    ensures
        final(sink)@ == jt_entry_emits(form, bits, *ops, old(sink)@),
{
    let in_reg0 = ops.arg0;
    let in_reg1 = ops.arg1;
    let out_reg0 = ops.result;
    let imm = ops.imm as u8;
    put_opcode(form, bits, rex3(in_reg1, out_reg0, in_reg0), sink);
    if needs_offset(in_reg1) {
        modrm_sib_disp8(out_reg0, sink);
        sib(imm.trailing_zeros() as u8, in_reg0, in_reg1, sink);
        sink.put1(0);
    } else {
        modrm_sib(out_reg0, sink);
        sib(imm.trailing_zeros() as u8, in_reg0, in_reg1, sink);
    }
}

/// What the recipes RexOp1jt_entry, Op1jt_entry emit only extends the sink contents.
proof fn jt_entry_appends(form: OpForm, bits: u16, ops: InstOperands, s: SinkContents)
    ensures
        extends(s, jt_entry_emits(form, bits, ops, s)),
{
}

/// What the recipes RexOp1jt_base, Op1jt_base require of an instruction.
pub open spec fn jt_base_ok(form: OpForm, bits: u16, ops: InstOperands) -> bool {
    let out_reg0 = ops.result;
    &&& opcode_ok(form, bits, rex2_value(0, out_reg0))
}

/// What the recipes RexOp1jt_base, Op1jt_base emit: the sink contents `s` with the instruction
/// appended.
pub open spec fn jt_base_emits(form: OpForm, bits: u16, ops: InstOperands, s: SinkContents) -> SinkContents {
    let out_reg0 = ops.result;
    let s = with_bytes(s, opcode_bytes(form, bits, rex2_value(0, out_reg0)));
    let s = with_bytes(s, seq![modrm_byte(0b00, (out_reg0) as u8, 0b101)]);
    let s = with_reloc(with_bytes(s, le_bytes4(ops.table_offset.wrapping_sub((s.0.len() + 4) as u32))), Reloc::X86PCRelRodata4, RelocTarget::JumpTable(ops.table), 0);
    s
}

/// Emit an instruction with the recipes RexOp1jt_base, Op1jt_base.
fn jt_base(form: OpForm, bits: u16, ops: &InstOperands, sink: &mut CodeSink)
    requires
        jt_base_ok(form, bits, *ops),
        old(sink).bytes().len() + 32 <= sink_capacity(),
    ensures
        final(sink)@ == jt_base_emits(form, bits, *ops, old(sink)@),
{
    let out_reg0 = ops.result;
    put_opcode(form, bits, rex2(0, out_reg0), sink);
    modrm_riprel(out_reg0, sink);
    // No reloc is needed here as the jump table is emitted directly after
    // the function body.
    jt_disp4(ops.table, ops.table_offset, sink);
}

/// What the recipes RexOp1jt_base, Op1jt_base emit only extends the sink contents.
proof fn jt_base_appends(form: OpForm, bits: u16, ops: InstOperands, s: SinkContents)
    ensures
        extends(s, jt_base_emits(form, bits, ops, s)),
{
}

/// What the recipe Op2trap requires of an instruction.
pub open spec fn trap_ok(form: OpForm, bits: u16, ops: InstOperands) -> bool {
    &&& opcode_ok(form, bits, BASE_REX)
}

/// What the recipe Op2trap emits: the sink contents `s` with the instruction appended.
pub open spec fn trap_emits(form: OpForm, bits: u16, ops: InstOperands, s: SinkContents) -> SinkContents {
    let code = ops.trap_code;
    let s = with_trap(s, code, ops.srcloc);
    let s = with_bytes(s, opcode_bytes(form, bits, BASE_REX));
    s
}

/// Emit an instruction with the recipe Op2trap.
fn trap(form: OpForm, bits: u16, ops: &InstOperands, sink: &mut CodeSink)
    requires
        trap_ok(form, bits, *ops),
        old(sink).bytes().len() + 32 <= sink_capacity(),
    ensures
        final(sink)@ == trap_emits(form, bits, *ops, old(sink)@),
{
    let code = ops.trap_code;
    sink.trap(code, ops.srcloc);
    put_opcode(form, bits, BASE_REX, sink);
}

/// What the recipe Op2trap emits only extends the sink contents.
proof fn trap_appends(form: OpForm, bits: u16, ops: InstOperands, s: SinkContents)
    ensures
        extends(s, trap_emits(form, bits, ops, s)),
{
}

/// What the recipe debugtrap requires of an instruction.
pub open spec fn debugtrap_ok(form: OpForm, bits: u16, ops: InstOperands) -> bool {
    true
}

/// What the recipe debugtrap emits: the sink contents `s` with the instruction appended.
pub open spec fn debugtrap_emits(form: OpForm, bits: u16, ops: InstOperands, s: SinkContents) -> SinkContents {
    let s = with_bytes(s, seq![(0xcc) as u8]);
    s
}

/// Emit an instruction with the recipe debugtrap.
fn debugtrap(form: OpForm, bits: u16, ops: &InstOperands, sink: &mut CodeSink)
    requires
        debugtrap_ok(form, bits, *ops),
        old(sink).bytes().len() + 32 <= sink_capacity(),
    ensures
        final(sink)@ == debugtrap_emits(form, bits, *ops, old(sink)@),
{
    sink.put1(0xcc);
}

/// What the recipe debugtrap emits only extends the sink contents.
proof fn debugtrap_appends(form: OpForm, bits: u16, ops: InstOperands, s: SinkContents)
    ensures
        extends(s, debugtrap_emits(form, bits, ops, s)),
{
}

/// What the recipe trapif requires of an instruction.
pub open spec fn trapif_ok(form: OpForm, bits: u16, ops: InstOperands) -> bool {
    true
}

/// What the recipe trapif emits: the sink contents `s` with the instruction appended.
pub open spec fn trapif_emits(form: OpForm, bits: u16, ops: InstOperands, s: SinkContents) -> SinkContents {
    let cond = ops.intcc;
    let code = ops.trap_code;
    let s = with_bytes(s, seq![(0x70 | (icc_opcode(intcc_inverse(cond)) as u8)) as u8]);
    let s = with_bytes(s, seq![(2) as u8]);
    let s = with_trap(s, code, ops.srcloc);
    let s = with_bytes(s, seq![(0x0f) as u8]);
    let s = with_bytes(s, seq![(0x0b) as u8]);
    s
}

/// Emit an instruction with the recipe trapif.
fn trapif(form: OpForm, bits: u16, ops: &InstOperands, sink: &mut CodeSink)
    requires
        trapif_ok(form, bits, *ops),
        old(sink).bytes().len() + 32 <= sink_capacity(),
    ensures
        final(sink)@ == trapif_emits(form, bits, *ops, old(sink)@),
{
    let cond = ops.intcc;
    let code = ops.trap_code;
    // Jump over a 2-byte ud2.
    sink.put1(0x70 | (icc2opc(cond.inverse()) as u8));
    sink.put1(2);
    // ud2.
    sink.trap(code, ops.srcloc);
    sink.put1(0x0f);
    sink.put1(0x0b);
}

/// What the recipe trapif emits only extends the sink contents.
proof fn trapif_appends(form: OpForm, bits: u16, ops: InstOperands, s: SinkContents)
    ensures
        extends(s, trapif_emits(form, bits, ops, s)),
{
}

/// What the recipe trapff requires of an instruction.
pub open spec fn trapff_ok(form: OpForm, bits: u16, ops: InstOperands) -> bool {
    let cond = ops.floatcc;
    &&& fcc_supported(floatcc_inverse(cond))
}

/// What the recipe trapff emits: the sink contents `s` with the instruction appended.
pub open spec fn trapff_emits(form: OpForm, bits: u16, ops: InstOperands, s: SinkContents) -> SinkContents {
    let cond = ops.floatcc;
    let code = ops.trap_code;
    let s = with_bytes(s, seq![(0x70 | (fcc_opcode(floatcc_inverse(cond)) as u8)) as u8]);
    let s = with_bytes(s, seq![(2) as u8]);
    let s = with_trap(s, code, ops.srcloc);
    let s = with_bytes(s, seq![(0x0f) as u8]);
    let s = with_bytes(s, seq![(0x0b) as u8]);
    s
}

/// Emit an instruction with the recipe trapff.
fn trapff(form: OpForm, bits: u16, ops: &InstOperands, sink: &mut CodeSink)
    requires
        trapff_ok(form, bits, *ops),
        old(sink).bytes().len() + 32 <= sink_capacity(),
    ensures
        final(sink)@ == trapff_emits(form, bits, *ops, old(sink)@),
{
    let cond = ops.floatcc;
    let code = ops.trap_code;
    // Jump over a 2-byte ud2.
    sink.put1(0x70 | (fcc2opc(cond.inverse()) as u8));
    sink.put1(2);
    // ud2.
    sink.trap(code, ops.srcloc);
    sink.put1(0x0f);
    sink.put1(0x0b);
}

/// What the recipe trapff emits only extends the sink contents.
proof fn trapff_appends(form: OpForm, bits: u16, ops: InstOperands, s: SinkContents)
    ensures
        extends(s, trapff_emits(form, bits, ops, s)),
{
}

/// What the recipes Op1icscc, RexOp1icscc require of an instruction.
pub open spec fn icscc_ok(form: OpForm, bits: u16, ops: InstOperands) -> bool {
    let in_reg0 = ops.arg0;
    let in_reg1 = ops.arg1;
    &&& opcode_ok(form, bits, rex2_value(in_reg0, in_reg1))
}

/// What the recipes Op1icscc, RexOp1icscc emit: the sink contents `s` with the instruction
/// appended.
pub open spec fn icscc_emits(form: OpForm, bits: u16, ops: InstOperands, s: SinkContents) -> SinkContents {
    let in_reg0 = ops.arg0;
    let in_reg1 = ops.arg1;
    let out_reg0 = ops.result;
    let cond = ops.intcc;
    let s = with_bytes(s, opcode_bytes(form, bits, rex2_value(in_reg0, in_reg1)));
    let s = with_bytes(s, seq![modrm_byte(0b11, (in_reg1) as u8, (in_reg0) as u8)]);
    let setcc = 0x90u16 | icc_opcode(cond);
    let s = with_bytes(s, seq![(0x0f) as u8]);
    let s = with_bytes(s, seq![(setcc as u8) as u8]);
    let s = with_bytes(s, seq![modrm_byte(0b11, (0) as u8, (out_reg0) as u8)]);
    s
}

/// Emit an instruction with the recipes Op1icscc, RexOp1icscc.
fn icscc(form: OpForm, bits: u16, ops: &InstOperands, sink: &mut CodeSink)
    requires
        icscc_ok(form, bits, *ops),
        old(sink).bytes().len() + 32 <= sink_capacity(),
    ensures
        final(sink)@ == icscc_emits(form, bits, *ops, old(sink)@),
{
    let in_reg0 = ops.arg0;
    let in_reg1 = ops.arg1;
    let out_reg0 = ops.result;
    let cond = ops.intcc;
    // Comparison instruction.
    put_opcode(form, bits, rex2(in_reg0, in_reg1), sink);
    modrm_rr(in_reg0, in_reg1, sink);
    // `setCC` instruction, no REX.
    let setcc = 0x90 | icc2opc(cond);
    sink.put1(0x0f);
    sink.put1(setcc as u8);
    modrm_rr(out_reg0, 0, sink);
}

/// What the recipes Op1icscc, RexOp1icscc emit only extends the sink contents.
proof fn icscc_appends(form: OpForm, bits: u16, ops: InstOperands, s: SinkContents)
    ensures
        extends(s, icscc_emits(form, bits, ops, s)),
{
}

/// What the recipes Op1icscc_ib, RexOp1icscc_ib require of an instruction.
pub open spec fn icscc_ib_ok(form: OpForm, bits: u16, ops: InstOperands) -> bool {
    let in_reg0 = ops.arg0;
    &&& opcode_ok(form, bits, rex1_value(in_reg0))
}

/// What the recipes Op1icscc_ib, RexOp1icscc_ib emit: the sink contents `s` with the instruction
/// appended.
pub open spec fn icscc_ib_emits(form: OpForm, bits: u16, ops: InstOperands, s: SinkContents) -> SinkContents {
    let in_reg0 = ops.arg0;
    let out_reg0 = ops.result;
    let cond = ops.intcc;
    let s = with_bytes(s, opcode_bytes(form, bits, rex1_value(in_reg0)));
    let s = with_bytes(s, seq![modrm_byte(0b11, (bits >> 12u16) as u8, (in_reg0) as u8)]);
    let imm = ops.imm;
    let s = with_bytes(s, seq![(imm as u8) as u8]);
    let setcc = 0x90u16 | icc_opcode(cond);
    let s = with_bytes(s, seq![(0x0f) as u8]);
    let s = with_bytes(s, seq![(setcc as u8) as u8]);
    let s = with_bytes(s, seq![modrm_byte(0b11, (0) as u8, (out_reg0) as u8)]);
    s
}

/// Emit an instruction with the recipes Op1icscc_ib, RexOp1icscc_ib.
fn icscc_ib(form: OpForm, bits: u16, ops: &InstOperands, sink: &mut CodeSink)
    requires
        icscc_ib_ok(form, bits, *ops),
        old(sink).bytes().len() + 32 <= sink_capacity(),
    ensures
        final(sink)@ == icscc_ib_emits(form, bits, *ops, old(sink)@),
{
    let in_reg0 = ops.arg0;
    let out_reg0 = ops.result;
    let cond = ops.intcc;
    // Comparison instruction.
    put_opcode(form, bits, rex1(in_reg0), sink);
    modrm_r_bits(in_reg0, bits, sink);
    let imm: i64 = ops.imm;
    sink.put1(imm as u8);
    // `setCC` instruction, no REX.
    let setcc = 0x90 | icc2opc(cond);
    sink.put1(0x0f);
    sink.put1(setcc as u8);
    modrm_rr(out_reg0, 0, sink);
}

/// What the recipes Op1icscc_ib, RexOp1icscc_ib emit only extends the sink contents.
proof fn icscc_ib_appends(form: OpForm, bits: u16, ops: InstOperands, s: SinkContents)
    ensures
        extends(s, icscc_ib_emits(form, bits, ops, s)),
{
}

/// What the recipes Op1icscc_id, RexOp1icscc_id require of an instruction.
pub open spec fn icscc_id_ok(form: OpForm, bits: u16, ops: InstOperands) -> bool {
    let in_reg0 = ops.arg0;
    &&& opcode_ok(form, bits, rex1_value(in_reg0))
}

/// What the recipes Op1icscc_id, RexOp1icscc_id emit: the sink contents `s` with the instruction
/// appended.
pub open spec fn icscc_id_emits(form: OpForm, bits: u16, ops: InstOperands, s: SinkContents) -> SinkContents {
    let in_reg0 = ops.arg0;
    let out_reg0 = ops.result;
    let cond = ops.intcc;
    let s = with_bytes(s, opcode_bytes(form, bits, rex1_value(in_reg0)));
    let s = with_bytes(s, seq![modrm_byte(0b11, (bits >> 12u16) as u8, (in_reg0) as u8)]);
    let imm = ops.imm;
    let s = with_bytes(s, le_bytes4((imm as u32) as u32));
    let setcc = 0x90u16 | icc_opcode(cond);
    let s = with_bytes(s, seq![(0x0f) as u8]);
    let s = with_bytes(s, seq![(setcc as u8) as u8]);
    let s = with_bytes(s, seq![modrm_byte(0b11, (0) as u8, (out_reg0) as u8)]);
    s
}

/// Emit an instruction with the recipes Op1icscc_id, RexOp1icscc_id.
fn icscc_id(form: OpForm, bits: u16, ops: &InstOperands, sink: &mut CodeSink)
    requires
        icscc_id_ok(form, bits, *ops),
        old(sink).bytes().len() + 32 <= sink_capacity(),
    ensures
        final(sink)@ == icscc_id_emits(form, bits, *ops, old(sink)@),
{
    let in_reg0 = ops.arg0;
    let out_reg0 = ops.result;
    let cond = ops.intcc;
    // Comparison instruction.
    put_opcode(form, bits, rex1(in_reg0), sink);
    modrm_r_bits(in_reg0, bits, sink);
    let imm: i64 = ops.imm;
    sink.put4(imm as u32);
    // `setCC` instruction, no REX.
    let setcc = 0x90 | icc2opc(cond);
    sink.put1(0x0f);
    sink.put1(setcc as u8);
    modrm_rr(out_reg0, 0, sink);
}

/// What the recipes Op1icscc_id, RexOp1icscc_id emit only extends the sink contents.
proof fn icscc_id_appends(form: OpForm, bits: u16, ops: InstOperands, s: SinkContents)
    ensures
        extends(s, icscc_id_emits(form, bits, ops, s)),
{
}

/// What the recipes Op1rcmp_sp, RexOp1rcmp_sp require of an instruction.
pub open spec fn rcompare_sp_ok(form: OpForm, bits: u16, ops: InstOperands) -> bool {
    let in_reg0 = ops.arg0;
    &&& opcode_ok(form, bits, rex2_value(in_reg0, RU_RSP))
}

/// What the recipes Op1rcmp_sp, RexOp1rcmp_sp emit: the sink contents `s` with the instruction
/// appended.
pub open spec fn rcompare_sp_emits(form: OpForm, bits: u16, ops: InstOperands, s: SinkContents) -> SinkContents {
    let in_reg0 = ops.arg0;
    let s = with_bytes(s, opcode_bytes(form, bits, rex2_value(in_reg0, RU_RSP)));
    let s = with_bytes(s, seq![modrm_byte(0b11, (RU_RSP) as u8, (in_reg0) as u8)]);
    s
}

/// Emit an instruction with the recipes Op1rcmp_sp, RexOp1rcmp_sp.
fn rcompare_sp(form: OpForm, bits: u16, ops: &InstOperands, sink: &mut CodeSink)
    requires
        rcompare_sp_ok(form, bits, *ops),
        old(sink).bytes().len() + 32 <= sink_capacity(),
    ensures
        final(sink)@ == rcompare_sp_emits(form, bits, *ops, old(sink)@),
{
    let in_reg0 = ops.arg0;
    put_opcode(form, bits, rex2(in_reg0, RU_RSP), sink);
    modrm_rr(in_reg0, RU_RSP, sink);
}

/// What the recipes Op1rcmp_sp, RexOp1rcmp_sp emit only extends the sink contents.
proof fn rcompare_sp_appends(form: OpForm, bits: u16, ops: InstOperands, s: SinkContents)
    ensures
        extends(s, rcompare_sp_emits(form, bits, ops, s)),
{
}

/// What the recipes Op2seti_abcd, RexOp2seti require of an instruction.
pub open spec fn seti_abcd_ok(form: OpForm, bits: u16, ops: InstOperands) -> bool {
    let out_reg0 = ops.result;
    let cond = ops.intcc;
    &&& opcode_ok(form, bits | icc_opcode(cond), rex1_value(out_reg0))
}

/// What the recipes Op2seti_abcd, RexOp2seti emit: the sink contents `s` with the instruction
/// appended.
pub open spec fn seti_abcd_emits(form: OpForm, bits: u16, ops: InstOperands, s: SinkContents) -> SinkContents {
    let out_reg0 = ops.result;
    let cond = ops.intcc;
    let s = with_bytes(s, opcode_bytes(form, bits | icc_opcode(cond), rex1_value(out_reg0)));
    let s = with_bytes(s, seq![modrm_byte(0b11, (bits >> 12u16) as u8, (out_reg0) as u8)]);
    s
}

/// Emit an instruction with the recipes Op2seti_abcd, RexOp2seti.
fn seti_abcd(form: OpForm, bits: u16, ops: &InstOperands, sink: &mut CodeSink)
    requires
        seti_abcd_ok(form, bits, *ops),
        old(sink).bytes().len() + 32 <= sink_capacity(),
    ensures
        final(sink)@ == seti_abcd_emits(form, bits, *ops, old(sink)@),
{
    let out_reg0 = ops.result;
    let cond = ops.intcc;
    put_opcode(form, bits | icc2opc(cond), rex1(out_reg0), sink);
    modrm_r_bits(out_reg0, bits, sink);
}

/// What the recipes Op2seti_abcd, RexOp2seti emit only extends the sink contents.
proof fn seti_abcd_appends(form: OpForm, bits: u16, ops: InstOperands, s: SinkContents)
    ensures
        extends(s, seti_abcd_emits(form, bits, ops, s)),
{
}

/// What the recipes Op2setf_abcd, RexOp2setf require of an instruction.
pub open spec fn setf_abcd_ok(form: OpForm, bits: u16, ops: InstOperands) -> bool {
    let out_reg0 = ops.result;
    let cond = ops.floatcc;
    &&& fcc_supported(cond)
    &&& opcode_ok(form, bits | fcc_opcode(cond), rex1_value(out_reg0))
}

/// What the recipes Op2setf_abcd, RexOp2setf emit: the sink contents `s` with the instruction
/// appended.
pub open spec fn setf_abcd_emits(form: OpForm, bits: u16, ops: InstOperands, s: SinkContents) -> SinkContents {
    let out_reg0 = ops.result;
    let cond = ops.floatcc;
    let s = with_bytes(s, opcode_bytes(form, bits | fcc_opcode(cond), rex1_value(out_reg0)));
    let s = with_bytes(s, seq![modrm_byte(0b11, (bits >> 12u16) as u8, (out_reg0) as u8)]);
    s
}

/// Emit an instruction with the recipes Op2setf_abcd, RexOp2setf.
fn setf_abcd(form: OpForm, bits: u16, ops: &InstOperands, sink: &mut CodeSink)
    requires
        setf_abcd_ok(form, bits, *ops),
        old(sink).bytes().len() + 32 <= sink_capacity(),
    ensures
        final(sink)@ == setf_abcd_emits(form, bits, *ops, old(sink)@),
{
    let out_reg0 = ops.result;
    let cond = ops.floatcc;
    put_opcode(form, bits | fcc2opc(cond), rex1(out_reg0), sink);
    modrm_r_bits(out_reg0, bits, sink);
}

/// What the recipes Op2setf_abcd, RexOp2setf emit only extends the sink contents.
proof fn setf_abcd_appends(form: OpForm, bits: u16, ops: InstOperands, s: SinkContents)
    ensures
        extends(s, setf_abcd_emits(form, bits, ops, s)),
{
}

/// What the recipes Op2cmov, RexOp2cmov require of an instruction.
pub open spec fn cmov_ok(form: OpForm, bits: u16, ops: InstOperands) -> bool {
    let in_reg1 = ops.arg1;
    let in_reg2 = ops.arg2;
    let cond = ops.intcc;
    &&& opcode_ok(form, bits | icc_opcode(cond), rex2_value(in_reg1, in_reg2))
}

/// What the recipes Op2cmov, RexOp2cmov emit: the sink contents `s` with the instruction appended.
pub open spec fn cmov_emits(form: OpForm, bits: u16, ops: InstOperands, s: SinkContents) -> SinkContents {
    let in_reg1 = ops.arg1;
    let in_reg2 = ops.arg2;
    let cond = ops.intcc;
    let s = with_bytes(s, opcode_bytes(form, bits | icc_opcode(cond), rex2_value(in_reg1, in_reg2)));
    let s = with_bytes(s, seq![modrm_byte(0b11, (in_reg2) as u8, (in_reg1) as u8)]);
    s
}

/// Emit an instruction with the recipes Op2cmov, RexOp2cmov.
fn cmov(form: OpForm, bits: u16, ops: &InstOperands, sink: &mut CodeSink)
    requires
        cmov_ok(form, bits, *ops),
        old(sink).bytes().len() + 32 <= sink_capacity(),
    ensures
        final(sink)@ == cmov_emits(form, bits, *ops, old(sink)@),
{
    let in_reg1 = ops.arg1;
    let in_reg2 = ops.arg2;
    let cond = ops.intcc;
    put_opcode(form, bits | icc2opc(cond), rex2(in_reg1, in_reg2), sink);
    modrm_rr(in_reg1, in_reg2, sink);
}

/// What the recipes Op2cmov, RexOp2cmov emit only extends the sink contents.
proof fn cmov_appends(form: OpForm, bits: u16, ops: InstOperands, s: SinkContents)
    ensures
        extends(s, cmov_emits(form, bits, ops, s)),
{
}

/// What the recipes Op2frmov, RexOp2frmov require of an instruction.
pub open spec fn frmov_ok(form: OpForm, bits: u16, ops: InstOperands) -> bool {
    let src = ops.src;
    let dst = ops.dst;
    &&& opcode_ok(form, bits, rex2_value(src, dst))
}

/// What the recipes Op2frmov, RexOp2frmov emit: the sink contents `s` with the instruction
/// appended.
pub open spec fn frmov_emits(form: OpForm, bits: u16, ops: InstOperands, s: SinkContents) -> SinkContents {
    let src = ops.src;
    let dst = ops.dst;
    let s = with_bytes(s, opcode_bytes(form, bits, rex2_value(src, dst)));
    let s = with_bytes(s, seq![modrm_byte(0b11, (dst) as u8, (src) as u8)]);
    s
}

/// Emit an instruction with the recipes Op2frmov, RexOp2frmov.
fn frmov(form: OpForm, bits: u16, ops: &InstOperands, sink: &mut CodeSink)
    requires
        frmov_ok(form, bits, *ops),
        old(sink).bytes().len() + 32 <= sink_capacity(),
    ensures
        final(sink)@ == frmov_emits(form, bits, *ops, old(sink)@),
{
    let src = ops.src;
    let dst = ops.dst;
    // The diversion this instruction makes is recorded by `emit_inst`.
    put_opcode(form, bits, rex2(src, dst), sink);
    modrm_rr(src, dst, sink);
}

/// What the recipes Op2frmov, RexOp2frmov emit only extends the sink contents.
proof fn frmov_appends(form: OpForm, bits: u16, ops: InstOperands, s: SinkContents)
    ensures
        extends(s, frmov_emits(form, bits, ops, s)),
{
}

/// What the recipes Mp3furmi_rnd, RexMp3furmi_rnd require of an instruction.
pub open spec fn furmi_rnd_ok(form: OpForm, bits: u16, ops: InstOperands) -> bool {
    let in_reg0 = ops.arg0;
    let out_reg0 = ops.result;
    let opcode = ops.opcode;
    &&& opcode_ok(form, bits, rex2_value(in_reg0, out_reg0))
    &&& is_rounding(opcode)
}

/// What the recipes Mp3furmi_rnd, RexMp3furmi_rnd emit: the sink contents `s` with the instruction
/// appended.
pub open spec fn furmi_rnd_emits(form: OpForm, bits: u16, ops: InstOperands, s: SinkContents) -> SinkContents {
    let in_reg0 = ops.arg0;
    let out_reg0 = ops.result;
    let opcode = ops.opcode;
    let s = with_bytes(s, opcode_bytes(form, bits, rex2_value(in_reg0, out_reg0)));
    let s = with_bytes(s, seq![modrm_byte(0b11, (out_reg0) as u8, (in_reg0) as u8)]);
    let s = with_bytes(s, seq![rounding_bits(opcode)]);
    s
}

/// Emit an instruction with the recipes Mp3furmi_rnd, RexMp3furmi_rnd.
fn furmi_rnd(form: OpForm, bits: u16, ops: &InstOperands, sink: &mut CodeSink)
    requires
        furmi_rnd_ok(form, bits, *ops),
        old(sink).bytes().len() + 32 <= sink_capacity(),
    ensures
        final(sink)@ == furmi_rnd_emits(form, bits, *ops, old(sink)@),
{
    let in_reg0 = ops.arg0;
    let out_reg0 = ops.result;
    let opcode = ops.opcode;
    put_opcode(form, bits, rex2(in_reg0, out_reg0), sink);
    modrm_rr(in_reg0, out_reg0, sink);
    sink.put1(rounding_mode(opcode));
}

/// What the recipes Mp3furmi_rnd, RexMp3furmi_rnd emit only extends the sink contents.
proof fn furmi_rnd_appends(form: OpForm, bits: u16, ops: InstOperands, s: SinkContents)
    ensures
        extends(s, furmi_rnd_emits(form, bits, ops, s)),
{
}

/// What the recipes Op2fcscc, RexOp2fcscc, Mp2fcscc, RexMp2fcscc require of an instruction.
pub open spec fn fcscc_ok(form: OpForm, bits: u16, ops: InstOperands) -> bool {
    let in_reg0 = ops.arg0;
    let in_reg1 = ops.arg1;
    let cond = ops.floatcc;
    &&& opcode_ok(form, bits, rex2_value(in_reg1, in_reg0))
    &&& fcc_supported(cond)
}

/// What the recipes Op2fcscc, RexOp2fcscc, Mp2fcscc, RexMp2fcscc emit: the sink contents `s` with
/// the instruction appended.
pub open spec fn fcscc_emits(form: OpForm, bits: u16, ops: InstOperands, s: SinkContents) -> SinkContents {
    let in_reg0 = ops.arg0;
    let in_reg1 = ops.arg1;
    let out_reg0 = ops.result;
    let cond = ops.floatcc;
    let s = with_bytes(s, opcode_bytes(form, bits, rex2_value(in_reg1, in_reg0)));
    let s = with_bytes(s, seq![modrm_byte(0b11, (in_reg0) as u8, (in_reg1) as u8)]);
    let setcc = fcscc_byte(cond);
    let s = with_bytes(s, seq![(0x0f) as u8]);
    let s = with_bytes(s, seq![(setcc) as u8]);
    let s = with_bytes(s, seq![modrm_byte(0b11, (0) as u8, (out_reg0) as u8)]);
    s
}

/// Emit an instruction with the recipes Op2fcscc, RexOp2fcscc, Mp2fcscc, RexMp2fcscc.
fn fcscc(form: OpForm, bits: u16, ops: &InstOperands, sink: &mut CodeSink)
    requires
        fcscc_ok(form, bits, *ops),
        old(sink).bytes().len() + 32 <= sink_capacity(),
    ensures
        final(sink)@ == fcscc_emits(form, bits, *ops, old(sink)@),
{
    let in_reg0 = ops.arg0;
    let in_reg1 = ops.arg1;
    let out_reg0 = ops.result;
    let cond = ops.floatcc;
    // Comparison instruction.
    put_opcode(form, bits, rex2(in_reg1, in_reg0), sink);
    modrm_rr(in_reg1, in_reg0, sink);
    // `setCC` instruction, no REX.
    let setcc = fcscc_setcc(cond);
    sink.put1(0x0f);
    sink.put1(setcc);
    modrm_rr(out_reg0, 0, sink);
}

/// What the recipes Op2fcscc, RexOp2fcscc, Mp2fcscc, RexMp2fcscc emit only extends the sink contents.
proof fn fcscc_appends(form: OpForm, bits: u16, ops: InstOperands, s: SinkContents)
    ensures
        extends(s, fcscc_emits(form, bits, ops, s)),
{
}

/// What the recipe Mp2r_ib_unsigned_fpr requires of an instruction.
pub open spec fn r_ib_unsigned_fpr_ok(form: OpForm, bits: u16, ops: InstOperands) -> bool {
    let in_reg0 = ops.arg0;
    let out_reg0 = ops.result;
    &&& opcode_ok(form, bits, rex2_value(in_reg0, out_reg0))
}

/// What the recipe Mp2r_ib_unsigned_fpr emits: the sink contents `s` with the instruction appended.
pub open spec fn r_ib_unsigned_fpr_emits(form: OpForm, bits: u16, ops: InstOperands, s: SinkContents) -> SinkContents {
    let in_reg0 = ops.arg0;
    let out_reg0 = ops.result;
    let s = with_bytes(s, opcode_bytes(form, bits, rex2_value(in_reg0, out_reg0)));
    let s = with_bytes(s, seq![modrm_byte(0b11, (out_reg0) as u8, (in_reg0) as u8)]);
    let imm = ops.lane as i64;
    let s = with_bytes(s, seq![(imm as u8) as u8]);
    s
}

/// Emit an instruction with the recipe Mp2r_ib_unsigned_fpr.
fn r_ib_unsigned_fpr(form: OpForm, bits: u16, ops: &InstOperands, sink: &mut CodeSink)
    requires
        r_ib_unsigned_fpr_ok(form, bits, *ops),
        old(sink).bytes().len() + 32 <= sink_capacity(),
    ensures
        final(sink)@ == r_ib_unsigned_fpr_emits(form, bits, *ops, old(sink)@),
{
    let in_reg0 = ops.arg0;
    let out_reg0 = ops.result;
    put_opcode(form, bits, rex2(in_reg0, out_reg0), sink);
    modrm_rr(in_reg0, out_reg0, sink);
    let imm: i64 = ops.lane as i64;
    sink.put1(imm as u8);
}

/// What the recipe Mp2r_ib_unsigned_fpr emits only extends the sink contents.
proof fn r_ib_unsigned_fpr_appends(form: OpForm, bits: u16, ops: InstOperands, s: SinkContents)
    ensures
        extends(s, r_ib_unsigned_fpr_emits(form, bits, ops, s)),
{
}

/// What the recipes Mp3r_ib_unsigned_r, Mp2r_ib_unsigned_r, RexMp3r_ib_unsigned_r, Mp3fa_ib require
/// of an instruction.
pub open spec fn r_ib_unsigned_r_ok(form: OpForm, bits: u16, ops: InstOperands) -> bool {
    let in_reg0 = ops.arg0;
    let in_reg1 = ops.arg1;
    &&& opcode_ok(form, bits, rex2_value(in_reg1, in_reg0))
}

/// What the recipes Mp3r_ib_unsigned_r, Mp2r_ib_unsigned_r, RexMp3r_ib_unsigned_r, Mp3fa_ib emit:
/// the sink contents `s` with the instruction appended.
pub open spec fn r_ib_unsigned_r_emits(form: OpForm, bits: u16, ops: InstOperands, s: SinkContents) -> SinkContents {
    let in_reg0 = ops.arg0;
    let in_reg1 = ops.arg1;
    let s = with_bytes(s, opcode_bytes(form, bits, rex2_value(in_reg1, in_reg0)));
    let s = with_bytes(s, seq![modrm_byte(0b11, (in_reg0) as u8, (in_reg1) as u8)]);
    let imm = ops.lane as i64;
    let s = with_bytes(s, seq![(imm as u8) as u8]);
    s
}

/// Emit an instruction with the recipes Mp3r_ib_unsigned_r, Mp2r_ib_unsigned_r,
/// RexMp3r_ib_unsigned_r, Mp3fa_ib.
fn r_ib_unsigned_r(form: OpForm, bits: u16, ops: &InstOperands, sink: &mut CodeSink)
    requires
        r_ib_unsigned_r_ok(form, bits, *ops),
        old(sink).bytes().len() + 32 <= sink_capacity(),
    ensures
        final(sink)@ == r_ib_unsigned_r_emits(form, bits, *ops, old(sink)@),
{
    let in_reg0 = ops.arg0;
    let in_reg1 = ops.arg1;
    put_opcode(form, bits, rex2(in_reg1, in_reg0), sink);
    modrm_rr(in_reg1, in_reg0, sink);
    let imm: i64 = ops.lane as i64;
    sink.put1(imm as u8);
}

/// What the recipes emit only extends the sink contents.
proof fn r_ib_unsigned_r_appends(form: OpForm, bits: u16, ops: InstOperands, s: SinkContents)
    ensures
        extends(s, r_ib_unsigned_r_emits(form, bits, ops, s)),
{
}

/// What the recipes Mp3r_ib_unsigned_gpr, RexMp3r_ib_unsigned_gpr require of an instruction.
pub open spec fn r_ib_unsigned_gpr_ok(form: OpForm, bits: u16, ops: InstOperands) -> bool {
    let in_reg0 = ops.arg0;
    let out_reg0 = ops.result;
    &&& opcode_ok(form, bits, rex2_value(in_reg0, out_reg0))
}

/// What the recipes Mp3r_ib_unsigned_gpr, RexMp3r_ib_unsigned_gpr emit: the sink contents `s` with
/// the instruction appended.
pub open spec fn r_ib_unsigned_gpr_emits(form: OpForm, bits: u16, ops: InstOperands, s: SinkContents) -> SinkContents {
    let in_reg0 = ops.arg0;
    let out_reg0 = ops.result;
    let s = with_bytes(s, opcode_bytes(form, bits, rex2_value(in_reg0, out_reg0)));
    let s = with_bytes(s, seq![modrm_byte(0b11, (in_reg0) as u8, (out_reg0) as u8)]);
    let imm = ops.lane as i64;
    let s = with_bytes(s, seq![(imm as u8) as u8]);
    s
}

/// Emit an instruction with the recipes Mp3r_ib_unsigned_gpr, RexMp3r_ib_unsigned_gpr.
fn r_ib_unsigned_gpr(form: OpForm, bits: u16, ops: &InstOperands, sink: &mut CodeSink)
    requires
        r_ib_unsigned_gpr_ok(form, bits, *ops),
        old(sink).bytes().len() + 32 <= sink_capacity(),
    ensures
        final(sink)@ == r_ib_unsigned_gpr_emits(form, bits, *ops, old(sink)@),
{
    let in_reg0 = ops.arg0;
    let out_reg0 = ops.result;
    put_opcode(form, bits, rex2(in_reg0, out_reg0), sink);
    modrm_rr(out_reg0, in_reg0, sink);
    let imm: i64 = ops.lane as i64;
    sink.put1(imm as u8);
}

/// What the recipes Mp3r_ib_unsigned_gpr, RexMp3r_ib_unsigned_gpr emit only extends the sink contents.
proof fn r_ib_unsigned_gpr_appends(form: OpForm, bits: u16, ops: InstOperands, s: SinkContents)
    ensures
        extends(s, r_ib_unsigned_gpr_emits(form, bits, ops, s)),
{
}

/// What the recipe Op2vconst requires of an instruction.
pub open spec fn vconst_ok(form: OpForm, bits: u16, ops: InstOperands) -> bool {
    let out_reg0 = ops.result;
    &&& opcode_ok(form, bits, rex2_value(0, out_reg0))
}

/// What the recipe Op2vconst emits: the sink contents `s` with the instruction appended.
pub open spec fn vconst_emits(form: OpForm, bits: u16, ops: InstOperands, s: SinkContents) -> SinkContents {
    let out_reg0 = ops.result;
    let s = with_bytes(s, opcode_bytes(form, bits, rex2_value(0, out_reg0)));
    let s = with_bytes(s, seq![modrm_byte(0b00, (out_reg0) as u8, 0b101)]);
    let s = with_reloc(with_bytes(s, le_bytes4(ops.constant_offset.wrapping_sub((s.0.len() + 4) as u32))), Reloc::X86PCRelRodata4, RelocTarget::Constant(ops.constant_offset), 0);
    s
}

/// Emit an instruction with the recipe Op2vconst.
fn vconst(form: OpForm, bits: u16, ops: &InstOperands, sink: &mut CodeSink)
    requires
        vconst_ok(form, bits, *ops),
        old(sink).bytes().len() + 32 <= sink_capacity(),
    ensures
        final(sink)@ == vconst_emits(form, bits, *ops, old(sink)@),
{
    let out_reg0 = ops.result;
    put_opcode(form, bits, rex2(0, out_reg0), sink);
    modrm_riprel(out_reg0, sink);
    const_disp4(ops.constant_offset, sink);
}

/// What the recipe Op2vconst emits only extends the sink contents.
proof fn vconst_appends(form: OpForm, bits: u16, ops: InstOperands, s: SinkContents)
    ensures
        extends(s, vconst_emits(form, bits, ops, s)),
{
}

/// What the recipes Mp2icscc_fpr, Mp3icscc_fpr require of an instruction.
pub open spec fn icscc_fpr_ok(form: OpForm, bits: u16, ops: InstOperands) -> bool {
    let in_reg0 = ops.arg0;
    let in_reg1 = ops.arg1;
    &&& opcode_ok(form, bits, rex2_value(in_reg1, in_reg0))
}

/// What the recipes Mp2icscc_fpr, Mp3icscc_fpr emit: the sink contents `s` with the instruction
/// appended.
pub open spec fn icscc_fpr_emits(form: OpForm, bits: u16, ops: InstOperands, s: SinkContents) -> SinkContents {
    let in_reg0 = ops.arg0;
    let in_reg1 = ops.arg1;
    let s = with_bytes(s, opcode_bytes(form, bits, rex2_value(in_reg1, in_reg0)));
    let s = with_bytes(s, seq![modrm_byte(0b11, (in_reg0) as u8, (in_reg1) as u8)]);
    s
}

/// Emit an instruction with the recipes Mp2icscc_fpr, Mp3icscc_fpr.
fn icscc_fpr(form: OpForm, bits: u16, ops: &InstOperands, sink: &mut CodeSink)
    requires
        icscc_fpr_ok(form, bits, *ops),
        old(sink).bytes().len() + 32 <= sink_capacity(),
    ensures
        final(sink)@ == icscc_fpr_emits(form, bits, *ops, old(sink)@),
{
    let in_reg0 = ops.arg0;
    let in_reg1 = ops.arg1;
    // Comparison instruction.
    put_opcode(form, bits, rex2(in_reg1, in_reg0), sink);
    modrm_rr(in_reg1, in_reg0, sink);
}

/// What the recipes Mp2icscc_fpr, Mp3icscc_fpr emit only extends the sink contents.
proof fn icscc_fpr_appends(form: OpForm, bits: u16, ops: InstOperands, s: SinkContents)
    ensures
        extends(s, icscc_fpr_emits(form, bits, ops, s)),
{
}

/// What the recipes Op1pu_id_ref, RexOp1pu_id_ref require of an instruction.
pub open spec fn pu_id_ref_ok(form: OpForm, bits: u16, ops: InstOperands) -> bool {
    let out_reg0 = ops.result;
    &&& opcode_ok(form, bits | (out_reg0 & 7), rex1_value(out_reg0))
}

/// What the recipes Op1pu_id_ref, RexOp1pu_id_ref emit: the sink contents `s` with the instruction
/// appended.
pub open spec fn pu_id_ref_emits(form: OpForm, bits: u16, ops: InstOperands, s: SinkContents) -> SinkContents {
    let out_reg0 = ops.result;
    let opcode = ops.opcode;
    let s = with_bytes(s, opcode_bytes(form, bits | (out_reg0 & 7), rex1_value(out_reg0)));
    let s = with_bytes(s, le_bytes4((0) as u32));
    s
}

/// Emit an instruction with the recipes Op1pu_id_ref, RexOp1pu_id_ref.
fn pu_id_ref(form: OpForm, bits: u16, ops: &InstOperands, sink: &mut CodeSink)
    requires
        pu_id_ref_ok(form, bits, *ops),
        old(sink).bytes().len() + 32 <= sink_capacity(),
    ensures
        final(sink)@ == pu_id_ref_emits(form, bits, *ops, old(sink)@),
{
    let out_reg0 = ops.result;
    let opcode = ops.opcode;
    // The destination register is encoded in the low bits of the opcode.
    // No ModR/M.
    put_opcode(form, bits | (out_reg0 & 7), rex1(out_reg0), sink);
    sink.put4(0);
}

/// What the recipes Op1pu_id_ref, RexOp1pu_id_ref emit only extends the sink contents.
proof fn pu_id_ref_appends(form: OpForm, bits: u16, ops: InstOperands, s: SinkContents)
    ensures
        extends(s, pu_id_ref_emits(form, bits, ops, s)),
{
}

/// What the recipes Op1is_zero, RexOp1is_zero require of an instruction.
pub open spec fn is_zero_ok(form: OpForm, bits: u16, ops: InstOperands) -> bool {
    let in_reg0 = ops.arg0;
    &&& opcode_ok(form, bits, rex2_value(in_reg0, in_reg0))
}

/// What the recipes Op1is_zero, RexOp1is_zero emit: the sink contents `s` with the instruction
/// appended.
pub open spec fn is_zero_emits(form: OpForm, bits: u16, ops: InstOperands, s: SinkContents) -> SinkContents {
    let in_reg0 = ops.arg0;
    let out_reg0 = ops.result;
    let s = with_bytes(s, opcode_bytes(form, bits, rex2_value(in_reg0, in_reg0)));
    let s = with_bytes(s, seq![modrm_byte(0b11, (in_reg0) as u8, (in_reg0) as u8)]);
    let s = with_bytes(s, seq![(0x0f) as u8]);
    let s = with_bytes(s, seq![(0x94) as u8]);
    let s = with_bytes(s, seq![modrm_byte(0b11, (0) as u8, (out_reg0) as u8)]);
    s
}

/// Emit an instruction with the recipes Op1is_zero, RexOp1is_zero.
fn is_zero(form: OpForm, bits: u16, ops: &InstOperands, sink: &mut CodeSink)
    requires
        is_zero_ok(form, bits, *ops),
        old(sink).bytes().len() + 32 <= sink_capacity(),
    ensures
        final(sink)@ == is_zero_emits(form, bits, *ops, old(sink)@),
{
    let in_reg0 = ops.arg0;
    let out_reg0 = ops.result;
    // Test instruction.
    put_opcode(form, bits, rex2(in_reg0, in_reg0), sink);
    modrm_rr(in_reg0, in_reg0, sink);
    // Check ZF = 1 flag to see if register holds 0.
    sink.put1(0x0f);
    sink.put1(0x94);
    modrm_rr(out_reg0, 0, sink);
}

/// What the recipes Op1is_zero, RexOp1is_zero emit only extends the sink contents.
proof fn is_zero_appends(form: OpForm, bits: u16, ops: InstOperands, s: SinkContents)
    ensures
        extends(s, is_zero_emits(form, bits, ops, s)),
{
}

/// What the recipe safepoint requires of an instruction.
pub open spec fn safepoint_ok(form: OpForm, bits: u16, ops: InstOperands) -> bool {
    true
}

/// What the recipe safepoint emits: the sink contents `s` with the instruction appended.
pub open spec fn safepoint_emits(form: OpForm, bits: u16, ops: InstOperands, s: SinkContents) -> SinkContents {
    let s = with_stackmap(s);
    s
}

/// Emit an instruction with the recipe safepoint.
fn safepoint(form: OpForm, bits: u16, ops: &InstOperands, sink: &mut CodeSink)
    requires
        safepoint_ok(form, bits, *ops),
        old(sink).bytes().len() + 32 <= sink_capacity(),
    ensures
        final(sink)@ == safepoint_emits(form, bits, *ops, old(sink)@),
{
    sink.add_stackmap();
}

/// What the recipe safepoint emits only extends the sink contents.
proof fn safepoint_appends(form: OpForm, bits: u16, ops: InstOperands, s: SinkContents)
    ensures
        extends(s, safepoint_emits(form, bits, ops, s)),
{
}

} // verus!

verus! {

/// The number of x86 recipes.
pub const NUM_RECIPES: u16 = 289;

/// The instruction format that each recipe reads.
pub open spec fn recipe_format(recipe: u16) -> InstructionFormat {
    match recipe {
        0 => InstructionFormat::NullAry,
        1 => InstructionFormat::Unary,
        2 => InstructionFormat::Binary,
        3 => InstructionFormat::Binary,
        4 => InstructionFormat::Binary,
        5 => InstructionFormat::Binary,
        6 => InstructionFormat::Ternary,
        7 => InstructionFormat::Ternary,
        8 => InstructionFormat::Ternary,
        9 => InstructionFormat::Ternary,
        10 => InstructionFormat::Unary,
        11 => InstructionFormat::Unary,
        12 => InstructionFormat::Binary,
        13 => InstructionFormat::Binary,
        14 => InstructionFormat::Ternary,
        15 => InstructionFormat::Ternary,
        16 => InstructionFormat::Binary,
        17 => InstructionFormat::Binary,
        18 => InstructionFormat::Unary,
        19 => InstructionFormat::Unary,
        20 => InstructionFormat::RegMove,
        21 => InstructionFormat::RegMove,
        22 => InstructionFormat::BinaryImm,
        23 => InstructionFormat::BinaryImm,
        24 => InstructionFormat::BinaryImm,
        25 => InstructionFormat::BinaryImm,
        26 => InstructionFormat::UnaryImm,
        27 => InstructionFormat::UnaryImm,
        28 => InstructionFormat::UnaryImm,
        29 => InstructionFormat::UnaryImm,
        30 => InstructionFormat::UnaryBool,
        31 => InstructionFormat::UnaryBool,
        32 => InstructionFormat::UnaryImm,
        33 => InstructionFormat::UnaryImm,
        34 => InstructionFormat::Binary,
        35 => InstructionFormat::Binary,
        36 => InstructionFormat::Unary,
        37 => InstructionFormat::Unary,
        38 => InstructionFormat::LoadComplex,
        39 => InstructionFormat::LoadComplex,
        40 => InstructionFormat::LoadComplex,
        41 => InstructionFormat::LoadComplex,
        42 => InstructionFormat::LoadComplex,
        43 => InstructionFormat::LoadComplex,
        44 => InstructionFormat::LoadComplex,
        45 => InstructionFormat::LoadComplex,
        46 => InstructionFormat::LoadComplex,
        47 => InstructionFormat::LoadComplex,
        48 => InstructionFormat::LoadComplex,
        49 => InstructionFormat::LoadComplex,
        50 => InstructionFormat::StoreComplex,
        51 => InstructionFormat::StoreComplex,
        52 => InstructionFormat::StoreComplex,
        53 => InstructionFormat::StoreComplex,
        54 => InstructionFormat::StoreComplex,
        55 => InstructionFormat::StoreComplex,
        56 => InstructionFormat::StoreComplex,
        57 => InstructionFormat::StoreComplex,
        58 => InstructionFormat::StoreComplex,
        59 => InstructionFormat::StoreComplex,
        60 => InstructionFormat::StoreComplex,
        61 => InstructionFormat::StoreComplex,
        62 => InstructionFormat::StoreComplex,
        63 => InstructionFormat::StoreComplex,
        64 => InstructionFormat::StoreComplex,
        65 => InstructionFormat::StoreComplex,
        66 => InstructionFormat::StoreComplex,
        67 => InstructionFormat::StoreComplex,
        68 => InstructionFormat::Store,
        69 => InstructionFormat::Store,
        70 => InstructionFormat::Store,
        71 => InstructionFormat::Store,
        72 => InstructionFormat::Store,
        73 => InstructionFormat::Store,
        74 => InstructionFormat::Store,
        75 => InstructionFormat::Store,
        76 => InstructionFormat::Store,
        77 => InstructionFormat::Store,
        78 => InstructionFormat::Store,
        79 => InstructionFormat::Store,
        80 => InstructionFormat::Store,
        81 => InstructionFormat::Store,
        82 => InstructionFormat::Store,
        83 => InstructionFormat::Unary,
        84 => InstructionFormat::Unary,
        85 => InstructionFormat::RegSpill,
        86 => InstructionFormat::RegSpill,
        87 => InstructionFormat::Load,
        88 => InstructionFormat::Load,
        89 => InstructionFormat::Load,
        90 => InstructionFormat::Load,
        91 => InstructionFormat::Load,
        92 => InstructionFormat::Load,
        93 => InstructionFormat::Load,
        94 => InstructionFormat::Load,
        95 => InstructionFormat::Load,
        96 => InstructionFormat::Load,
        97 => InstructionFormat::Load,
        98 => InstructionFormat::Load,
        99 => InstructionFormat::Unary,
        100 => InstructionFormat::Unary,
        101 => InstructionFormat::RegFill,
        102 => InstructionFormat::RegFill,
        103 => InstructionFormat::Unary,
        104 => InstructionFormat::Unary,
        105 => InstructionFormat::Unary,
        106 => InstructionFormat::Unary,
        107 => InstructionFormat::NullAry,
        108 => InstructionFormat::NullAry,
        109 => InstructionFormat::CopySpecial,
        110 => InstructionFormat::CopySpecial,
        111 => InstructionFormat::CopyToSsa,
        112 => InstructionFormat::CopyToSsa,
        113 => InstructionFormat::CopyToSsa,
        114 => InstructionFormat::CopyToSsa,
        115 => InstructionFormat::Unary,
        116 => InstructionFormat::Unary,
        117 => InstructionFormat::Unary,
        118 => InstructionFormat::UnaryImm,
        119 => InstructionFormat::UnaryImm,
        120 => InstructionFormat::UnaryImm,
        121 => InstructionFormat::UnaryImm,
        122 => InstructionFormat::Load,
        123 => InstructionFormat::Load,
        124 => InstructionFormat::Load,
        125 => InstructionFormat::Load,
        126 => InstructionFormat::Load,
        127 => InstructionFormat::Load,
        128 => InstructionFormat::LoadComplex,
        129 => InstructionFormat::LoadComplex,
        130 => InstructionFormat::LoadComplex,
        131 => InstructionFormat::LoadComplex,
        132 => InstructionFormat::LoadComplex,
        133 => InstructionFormat::LoadComplex,
        134 => InstructionFormat::Store,
        135 => InstructionFormat::Store,
        136 => InstructionFormat::Store,
        137 => InstructionFormat::Store,
        138 => InstructionFormat::Store,
        139 => InstructionFormat::Store,
        140 => InstructionFormat::StoreComplex,
        141 => InstructionFormat::StoreComplex,
        142 => InstructionFormat::StoreComplex,
        143 => InstructionFormat::StoreComplex,
        144 => InstructionFormat::StoreComplex,
        145 => InstructionFormat::StoreComplex,
        146 => InstructionFormat::Unary,
        147 => InstructionFormat::Unary,
        148 => InstructionFormat::RegFill,
        149 => InstructionFormat::RegFill,
        150 => InstructionFormat::Unary,
        151 => InstructionFormat::Unary,
        152 => InstructionFormat::RegSpill,
        153 => InstructionFormat::RegSpill,
        154 => InstructionFormat::FuncAddr,
        155 => InstructionFormat::FuncAddr,
        156 => InstructionFormat::FuncAddr,
        157 => InstructionFormat::FuncAddr,
        158 => InstructionFormat::FuncAddr,
        159 => InstructionFormat::FuncAddr,
        160 => InstructionFormat::UnaryGlobalValue,
        161 => InstructionFormat::UnaryGlobalValue,
        162 => InstructionFormat::UnaryGlobalValue,
        163 => InstructionFormat::UnaryGlobalValue,
        164 => InstructionFormat::StackLoad,
        165 => InstructionFormat::StackLoad,
        166 => InstructionFormat::Call,
        167 => InstructionFormat::Call,
        168 => InstructionFormat::CallIndirect,
        169 => InstructionFormat::CallIndirect,
        170 => InstructionFormat::MultiAry,
        171 => InstructionFormat::Jump,
        172 => InstructionFormat::Jump,
        173 => InstructionFormat::BranchInt,
        174 => InstructionFormat::BranchInt,
        175 => InstructionFormat::BranchInt,
        176 => InstructionFormat::BranchInt,
        177 => InstructionFormat::BranchFloat,
        178 => InstructionFormat::BranchFloat,
        179 => InstructionFormat::BranchFloat,
        180 => InstructionFormat::BranchFloat,
        181 => InstructionFormat::Branch,
        182 => InstructionFormat::Branch,
        183 => InstructionFormat::Branch,
        184 => InstructionFormat::Branch,
        185 => InstructionFormat::Branch,
        186 => InstructionFormat::Branch,
        187 => InstructionFormat::Branch,
        188 => InstructionFormat::Branch,
        189 => InstructionFormat::Branch,
        190 => InstructionFormat::BranchTableEntry,
        191 => InstructionFormat::BranchTableEntry,
        192 => InstructionFormat::BranchTableBase,
        193 => InstructionFormat::BranchTableBase,
        194 => InstructionFormat::IndirectJump,
        195 => InstructionFormat::IndirectJump,
        196 => InstructionFormat::Trap,
        197 => InstructionFormat::NullAry,
        198 => InstructionFormat::IntCondTrap,
        199 => InstructionFormat::FloatCondTrap,
        200 => InstructionFormat::IntCompare,
        201 => InstructionFormat::IntCompare,
        202 => InstructionFormat::IntCompareImm,
        203 => InstructionFormat::IntCompareImm,
        204 => InstructionFormat::IntCompareImm,
        205 => InstructionFormat::IntCompareImm,
        206 => InstructionFormat::Binary,
        207 => InstructionFormat::Binary,
        208 => InstructionFormat::BinaryImm,
        209 => InstructionFormat::BinaryImm,
        210 => InstructionFormat::BinaryImm,
        211 => InstructionFormat::BinaryImm,
        212 => InstructionFormat::Unary,
        213 => InstructionFormat::Unary,
        214 => InstructionFormat::IntCond,
        215 => InstructionFormat::IntCond,
        216 => InstructionFormat::FloatCond,
        217 => InstructionFormat::FloatCond,
        218 => InstructionFormat::IntSelect,
        219 => InstructionFormat::IntSelect,
        220 => InstructionFormat::Unary,
        221 => InstructionFormat::Unary,
        222 => InstructionFormat::Unary,
        223 => InstructionFormat::Unary,
        224 => InstructionFormat::Unary,
        225 => InstructionFormat::Unary,
        226 => InstructionFormat::Unary,
        227 => InstructionFormat::UnaryIeee32,
        228 => InstructionFormat::UnaryIeee64,
        229 => InstructionFormat::UnaryIeee32,
        230 => InstructionFormat::UnaryIeee64,
        231 => InstructionFormat::Unary,
        232 => InstructionFormat::Unary,
        233 => InstructionFormat::Unary,
        234 => InstructionFormat::Unary,
        235 => InstructionFormat::Unary,
        236 => InstructionFormat::Unary,
        237 => InstructionFormat::RegMove,
        238 => InstructionFormat::RegMove,
        239 => InstructionFormat::Unary,
        240 => InstructionFormat::Unary,
        241 => InstructionFormat::Unary,
        242 => InstructionFormat::Unary,
        243 => InstructionFormat::Unary,
        244 => InstructionFormat::Unary,
        245 => InstructionFormat::Binary,
        246 => InstructionFormat::Binary,
        247 => InstructionFormat::Binary,
        248 => InstructionFormat::Binary,
        249 => InstructionFormat::Binary,
        250 => InstructionFormat::Binary,
        251 => InstructionFormat::FloatCompare,
        252 => InstructionFormat::FloatCompare,
        253 => InstructionFormat::FloatCompare,
        254 => InstructionFormat::FloatCompare,
        255 => InstructionFormat::Binary,
        256 => InstructionFormat::Binary,
        257 => InstructionFormat::Binary,
        258 => InstructionFormat::Binary,
        259 => InstructionFormat::Binary,
        260 => InstructionFormat::ExtractLane,
        261 => InstructionFormat::Unary,
        262 => InstructionFormat::InsertLane,
        263 => InstructionFormat::InsertLane,
        264 => InstructionFormat::InsertLane,
        265 => InstructionFormat::InsertLane,
        266 => InstructionFormat::ExtractLane,
        267 => InstructionFormat::ExtractLane,
        268 => InstructionFormat::UnaryConst,
        269 => InstructionFormat::UnaryConst,
        270 => InstructionFormat::Store,
        271 => InstructionFormat::Store,
        272 => InstructionFormat::Store,
        273 => InstructionFormat::Load,
        274 => InstructionFormat::Load,
        275 => InstructionFormat::Load,
        276 => InstructionFormat::Unary,
        277 => InstructionFormat::RegSpill,
        278 => InstructionFormat::Unary,
        279 => InstructionFormat::RegFill,
        280 => InstructionFormat::Binary,
        281 => InstructionFormat::Binary,
        282 => InstructionFormat::IntCompare,
        283 => InstructionFormat::IntCompare,
        284 => InstructionFormat::NullAry,
        285 => InstructionFormat::NullAry,
        286 => InstructionFormat::Unary,
        287 => InstructionFormat::Unary,
        288 => InstructionFormat::MultiAry,
        _ => InstructionFormat::NullAry,
    }
}

/// What the recipes 0 to 15 require of an instruction with encoding bits `bits`.
pub open spec fn recipe_ok_0(recipe: u16, bits: u16, ops: InstOperands) -> bool {
    match recipe {
        0 => get_pinned_reg_ok(OpForm::Op1, bits, ops),
        1 => set_pinned_reg_ok(OpForm::RexOp1, bits, ops),
        2 => rr_ok(OpForm::Op1, bits, ops),
        3 => rr_ok(OpForm::RexOp1, bits, ops),
        4 => rr_ok(OpForm::Op1, bits, ops),
        5 => rr_ok(OpForm::RexOp1, bits, ops),
        6 => rr_ok(OpForm::Op1, bits, ops),
        7 => rr_ok(OpForm::RexOp1, bits, ops),
        8 => rr_ok(OpForm::Op1, bits, ops),
        9 => rr_ok(OpForm::RexOp1, bits, ops),
        10 => ur_ok(OpForm::Op1, bits, ops),
        11 => ur_ok(OpForm::RexOp1, bits, ops),
        12 => rrx_ok(OpForm::Op2, bits, ops),
        13 => rrx_ok(OpForm::RexOp2, bits, ops),
        14 => div_ok(OpForm::Op1, bits, ops),
        15 => div_ok(OpForm::RexOp1, bits, ops),
        _ => false,
    }
}

/// What the recipes 0 to 15 emit for an instruction with encoding bits `bits`.
pub open spec fn recipe_emits_0(recipe: u16, bits: u16, ops: InstOperands, s: SinkContents) -> SinkContents {
    match recipe {
        0 => get_pinned_reg_emits(OpForm::Op1, bits, ops, s),
        1 => set_pinned_reg_emits(OpForm::RexOp1, bits, ops, s),
        2 => rr_emits(OpForm::Op1, bits, ops, s),
        3 => rr_emits(OpForm::RexOp1, bits, ops, s),
        4 => rr_emits(OpForm::Op1, bits, ops, s),
        5 => rr_emits(OpForm::RexOp1, bits, ops, s),
        6 => rr_emits(OpForm::Op1, bits, ops, s),
        7 => rr_emits(OpForm::RexOp1, bits, ops, s),
        8 => rr_emits(OpForm::Op1, bits, ops, s),
        9 => rr_emits(OpForm::RexOp1, bits, ops, s),
        10 => ur_emits(OpForm::Op1, bits, ops, s),
        11 => ur_emits(OpForm::RexOp1, bits, ops, s),
        12 => rrx_emits(OpForm::Op2, bits, ops, s),
        13 => rrx_emits(OpForm::RexOp2, bits, ops, s),
        14 => div_emits(OpForm::Op1, bits, ops, s),
        15 => div_emits(OpForm::RexOp1, bits, ops, s),
        _ => s,
    }
}

/// What the recipes 0 to 15 emit only extends the sink contents.
proof fn recipe_appends_0(recipe: u16, bits: u16, ops: InstOperands, s: SinkContents)
    requires
        0 <= recipe <= 15,
    ensures
        extends(s, recipe_emits_0(recipe, bits, ops, s)),
{
    match recipe {
        0 => get_pinned_reg_appends(OpForm::Op1, bits, ops, s),
        1 => set_pinned_reg_appends(OpForm::RexOp1, bits, ops, s),
        2 => rr_appends(OpForm::Op1, bits, ops, s),
        3 => rr_appends(OpForm::RexOp1, bits, ops, s),
        4 => rr_appends(OpForm::Op1, bits, ops, s),
        5 => rr_appends(OpForm::RexOp1, bits, ops, s),
        6 => rr_appends(OpForm::Op1, bits, ops, s),
        7 => rr_appends(OpForm::RexOp1, bits, ops, s),
        8 => rr_appends(OpForm::Op1, bits, ops, s),
        9 => rr_appends(OpForm::RexOp1, bits, ops, s),
        10 => ur_appends(OpForm::Op1, bits, ops, s),
        11 => ur_appends(OpForm::RexOp1, bits, ops, s),
        12 => rrx_appends(OpForm::Op2, bits, ops, s),
        13 => rrx_appends(OpForm::RexOp2, bits, ops, s),
        14 => div_appends(OpForm::Op1, bits, ops, s),
        15 => div_appends(OpForm::RexOp1, bits, ops, s),
        _ => {},
    }
}

/// Emit an instruction with one of the recipes 0 to 15.
fn emit_recipe_0(recipe: u16, bits: u16, ops: &InstOperands, sink: &mut CodeSink)
    requires
        0 <= recipe <= 15,
        recipe_ok_0(recipe, bits, *ops),
        old(sink).bytes().len() + 32 <= sink_capacity(),
    ensures
        final(sink)@ == recipe_emits_0(recipe, bits, *ops, old(sink)@),
{
    match recipe {
        // Recipe get_pinned_reg
        0 => get_pinned_reg(OpForm::Op1, bits, ops, sink),
        // Recipe RexOp1set_pinned_reg
        1 => set_pinned_reg(OpForm::RexOp1, bits, ops, sink),
        // Recipe Op1rr
        2 => rr(OpForm::Op1, bits, ops, sink),
        // Recipe RexOp1rr
        3 => rr(OpForm::RexOp1, bits, ops, sink),
        // Recipe Op1rout
        4 => rr(OpForm::Op1, bits, ops, sink),
        // Recipe RexOp1rout
        5 => rr(OpForm::RexOp1, bits, ops, sink),
        // Recipe Op1rin
        6 => rr(OpForm::Op1, bits, ops, sink),
        // Recipe RexOp1rin
        7 => rr(OpForm::RexOp1, bits, ops, sink),
        // Recipe Op1rio
        8 => rr(OpForm::Op1, bits, ops, sink),
        // Recipe RexOp1rio
        9 => rr(OpForm::RexOp1, bits, ops, sink),
        // Recipe Op1ur
        10 => ur(OpForm::Op1, bits, ops, sink),
        // Recipe RexOp1ur
        11 => ur(OpForm::RexOp1, bits, ops, sink),
        // Recipe Op2rrx
        12 => rrx(OpForm::Op2, bits, ops, sink),
        // Recipe RexOp2rrx
        13 => rrx(OpForm::RexOp2, bits, ops, sink),
        // Recipe Op1div
        14 => div(OpForm::Op1, bits, ops, sink),
        // Recipe RexOp1div
        15 => div(OpForm::RexOp1, bits, ops, sink),
        _ => {},
    }
}

/// What the recipes 16 to 31 require of an instruction with encoding bits `bits`.
pub open spec fn recipe_ok_1(recipe: u16, bits: u16, ops: InstOperands) -> bool {
    match recipe {
        16 => mulx_ok(OpForm::Op1, bits, ops),
        17 => mulx_ok(OpForm::RexOp1, bits, ops),
        18 => umr_ok(OpForm::Op1, bits, ops),
        19 => umr_ok(OpForm::RexOp1, bits, ops),
        20 => rmov_ok(OpForm::Op1, bits, ops),
        21 => rmov_ok(OpForm::RexOp1, bits, ops),
        22 => r_ib_ok(OpForm::Op1, bits, ops),
        23 => r_ib_ok(OpForm::RexOp1, bits, ops),
        24 => r_id_ok(OpForm::Op1, bits, ops),
        25 => r_id_ok(OpForm::RexOp1, bits, ops),
        26 => pu_id_ok(OpForm::Op1, bits, ops),
        27 => pu_id_ok(OpForm::RexOp1, bits, ops),
        28 => u_id_ok(OpForm::RexOp1, bits, ops),
        29 => pu_iq_ok(OpForm::RexOp1, bits, ops),
        30 => pu_id_bool_ok(OpForm::Op1, bits, ops),
        31 => pu_id_bool_ok(OpForm::RexOp1, bits, ops),
        _ => false,
    }
}

/// What the recipes 16 to 31 emit for an instruction with encoding bits `bits`.
pub open spec fn recipe_emits_1(recipe: u16, bits: u16, ops: InstOperands, s: SinkContents) -> SinkContents {
    match recipe {
        16 => mulx_emits(OpForm::Op1, bits, ops, s),
        17 => mulx_emits(OpForm::RexOp1, bits, ops, s),
        18 => umr_emits(OpForm::Op1, bits, ops, s),
        19 => umr_emits(OpForm::RexOp1, bits, ops, s),
        20 => rmov_emits(OpForm::Op1, bits, ops, s),
        21 => rmov_emits(OpForm::RexOp1, bits, ops, s),
        22 => r_ib_emits(OpForm::Op1, bits, ops, s),
        23 => r_ib_emits(OpForm::RexOp1, bits, ops, s),
        24 => r_id_emits(OpForm::Op1, bits, ops, s),
        25 => r_id_emits(OpForm::RexOp1, bits, ops, s),
        26 => pu_id_emits(OpForm::Op1, bits, ops, s),
        27 => pu_id_emits(OpForm::RexOp1, bits, ops, s),
        28 => u_id_emits(OpForm::RexOp1, bits, ops, s),
        29 => pu_iq_emits(OpForm::RexOp1, bits, ops, s),
        30 => pu_id_bool_emits(OpForm::Op1, bits, ops, s),
        31 => pu_id_bool_emits(OpForm::RexOp1, bits, ops, s),
        _ => s,
    }
}

/// What the recipes 16 to 31 emit only extends the sink contents.
proof fn recipe_appends_1(recipe: u16, bits: u16, ops: InstOperands, s: SinkContents)
    requires
        16 <= recipe <= 31,
    ensures
        extends(s, recipe_emits_1(recipe, bits, ops, s)),
{
    match recipe {
        16 => mulx_appends(OpForm::Op1, bits, ops, s),
        17 => mulx_appends(OpForm::RexOp1, bits, ops, s),
        18 => umr_appends(OpForm::Op1, bits, ops, s),
        19 => umr_appends(OpForm::RexOp1, bits, ops, s),
        20 => rmov_appends(OpForm::Op1, bits, ops, s),
        21 => rmov_appends(OpForm::RexOp1, bits, ops, s),
        22 => r_ib_appends(OpForm::Op1, bits, ops, s),
        23 => r_ib_appends(OpForm::RexOp1, bits, ops, s),
        24 => r_id_appends(OpForm::Op1, bits, ops, s),
        25 => r_id_appends(OpForm::RexOp1, bits, ops, s),
        26 => pu_id_appends(OpForm::Op1, bits, ops, s),
        27 => pu_id_appends(OpForm::RexOp1, bits, ops, s),
        28 => u_id_appends(OpForm::RexOp1, bits, ops, s),
        29 => pu_iq_appends(OpForm::RexOp1, bits, ops, s),
        30 => pu_id_bool_appends(OpForm::Op1, bits, ops, s),
        31 => pu_id_bool_appends(OpForm::RexOp1, bits, ops, s),
        _ => {},
    }
}

/// Emit an instruction with one of the recipes 16 to 31.
fn emit_recipe_1(recipe: u16, bits: u16, ops: &InstOperands, sink: &mut CodeSink)
    requires
        16 <= recipe <= 31,
        recipe_ok_1(recipe, bits, *ops),
        old(sink).bytes().len() + 32 <= sink_capacity(),
    ensures
        final(sink)@ == recipe_emits_1(recipe, bits, *ops, old(sink)@),
{
    match recipe {
        // Recipe Op1mulx
        16 => mulx(OpForm::Op1, bits, ops, sink),
        // Recipe RexOp1mulx
        17 => mulx(OpForm::RexOp1, bits, ops, sink),
        // Recipe Op1umr
        18 => umr(OpForm::Op1, bits, ops, sink),
        // Recipe RexOp1umr
        19 => umr(OpForm::RexOp1, bits, ops, sink),
        // Recipe Op1rmov
        20 => rmov(OpForm::Op1, bits, ops, sink),
        // Recipe RexOp1rmov
        21 => rmov(OpForm::RexOp1, bits, ops, sink),
        // Recipe Op1r_ib
        22 => r_ib(OpForm::Op1, bits, ops, sink),
        // Recipe RexOp1r_ib
        23 => r_ib(OpForm::RexOp1, bits, ops, sink),
        // Recipe Op1r_id
        24 => r_id(OpForm::Op1, bits, ops, sink),
        // Recipe RexOp1r_id
        25 => r_id(OpForm::RexOp1, bits, ops, sink),
        // Recipe Op1pu_id
        26 => pu_id(OpForm::Op1, bits, ops, sink),
        // Recipe RexOp1pu_id
        27 => pu_id(OpForm::RexOp1, bits, ops, sink),
        // Recipe RexOp1u_id
        28 => u_id(OpForm::RexOp1, bits, ops, sink),
        // Recipe RexOp1pu_iq
        29 => pu_iq(OpForm::RexOp1, bits, ops, sink),
        // Recipe Op1pu_id_bool
        30 => pu_id_bool(OpForm::Op1, bits, ops, sink),
        // Recipe RexOp1pu_id_bool
        31 => pu_id_bool(OpForm::RexOp1, bits, ops, sink),
        _ => {},
    }
}

/// What the recipes 32 to 47 require of an instruction with encoding bits `bits`.
pub open spec fn recipe_ok_2(recipe: u16, bits: u16, ops: InstOperands) -> bool {
    match recipe {
        32 => u_id_z_ok(OpForm::Op1, bits, ops),
        33 => u_id_z_ok(OpForm::RexOp1, bits, ops),
        34 => ur_ok(OpForm::Op1, bits, ops),
        35 => ur_ok(OpForm::RexOp1, bits, ops),
        36 => urm_ok(OpForm::Mp2, bits, ops),
        37 => urm_ok(OpForm::RexMp2, bits, ops),
        38 => ld_with_index_ok(OpForm::Op1, bits, ops),
        39 => ld_with_index_ok(OpForm::RexOp1, bits, ops),
        40 => ld_with_index_ok(OpForm::Op2, bits, ops),
        41 => ld_with_index_ok(OpForm::RexOp2, bits, ops),
        42 => ld_with_index_disp8_ok(OpForm::Op1, bits, ops),
        43 => ld_with_index_disp8_ok(OpForm::RexOp1, bits, ops),
        44 => ld_with_index_disp8_ok(OpForm::Op2, bits, ops),
        45 => ld_with_index_disp8_ok(OpForm::RexOp2, bits, ops),
        46 => ld_with_index_disp32_ok(OpForm::Op1, bits, ops),
        47 => ld_with_index_disp32_ok(OpForm::RexOp1, bits, ops),
        _ => false,
    }
}

/// What the recipes 32 to 47 emit for an instruction with encoding bits `bits`.
pub open spec fn recipe_emits_2(recipe: u16, bits: u16, ops: InstOperands, s: SinkContents) -> SinkContents {
    match recipe {
        32 => u_id_z_emits(OpForm::Op1, bits, ops, s),
        33 => u_id_z_emits(OpForm::RexOp1, bits, ops, s),
        34 => ur_emits(OpForm::Op1, bits, ops, s),
        35 => ur_emits(OpForm::RexOp1, bits, ops, s),
        36 => urm_emits(OpForm::Mp2, bits, ops, s),
        37 => urm_emits(OpForm::RexMp2, bits, ops, s),
        38 => ld_with_index_emits(OpForm::Op1, bits, ops, s),
        39 => ld_with_index_emits(OpForm::RexOp1, bits, ops, s),
        40 => ld_with_index_emits(OpForm::Op2, bits, ops, s),
        41 => ld_with_index_emits(OpForm::RexOp2, bits, ops, s),
        42 => ld_with_index_disp8_emits(OpForm::Op1, bits, ops, s),
        43 => ld_with_index_disp8_emits(OpForm::RexOp1, bits, ops, s),
        44 => ld_with_index_disp8_emits(OpForm::Op2, bits, ops, s),
        45 => ld_with_index_disp8_emits(OpForm::RexOp2, bits, ops, s),
        46 => ld_with_index_disp32_emits(OpForm::Op1, bits, ops, s),
        47 => ld_with_index_disp32_emits(OpForm::RexOp1, bits, ops, s),
        _ => s,
    }
}

/// What the recipes 32 to 47 emit only extends the sink contents.
proof fn recipe_appends_2(recipe: u16, bits: u16, ops: InstOperands, s: SinkContents)
    requires
        32 <= recipe <= 47,
    ensures
        extends(s, recipe_emits_2(recipe, bits, ops, s)),
{
    match recipe {
        32 => u_id_z_appends(OpForm::Op1, bits, ops, s),
        33 => u_id_z_appends(OpForm::RexOp1, bits, ops, s),
        34 => ur_appends(OpForm::Op1, bits, ops, s),
        35 => ur_appends(OpForm::RexOp1, bits, ops, s),
        36 => urm_appends(OpForm::Mp2, bits, ops, s),
        37 => urm_appends(OpForm::RexMp2, bits, ops, s),
        38 => ld_with_index_appends(OpForm::Op1, bits, ops, s),
        39 => ld_with_index_appends(OpForm::RexOp1, bits, ops, s),
        40 => ld_with_index_appends(OpForm::Op2, bits, ops, s),
        41 => ld_with_index_appends(OpForm::RexOp2, bits, ops, s),
        42 => ld_with_index_disp8_appends(OpForm::Op1, bits, ops, s),
        43 => ld_with_index_disp8_appends(OpForm::RexOp1, bits, ops, s),
        44 => ld_with_index_disp8_appends(OpForm::Op2, bits, ops, s),
        45 => ld_with_index_disp8_appends(OpForm::RexOp2, bits, ops, s),
        46 => ld_with_index_disp32_appends(OpForm::Op1, bits, ops, s),
        47 => ld_with_index_disp32_appends(OpForm::RexOp1, bits, ops, s),
        _ => {},
    }
}

/// Emit an instruction with one of the recipes 32 to 47.
fn emit_recipe_2(recipe: u16, bits: u16, ops: &InstOperands, sink: &mut CodeSink)
    requires
        32 <= recipe <= 47,
        recipe_ok_2(recipe, bits, *ops),
        old(sink).bytes().len() + 32 <= sink_capacity(),
    ensures
        final(sink)@ == recipe_emits_2(recipe, bits, *ops, old(sink)@),
{
    match recipe {
        // Recipe Op1u_id_z
        32 => u_id_z(OpForm::Op1, bits, ops, sink),
        // Recipe RexOp1u_id_z
        33 => u_id_z(OpForm::RexOp1, bits, ops, sink),
        // Recipe Op1rc
        34 => ur(OpForm::Op1, bits, ops, sink),
        // Recipe RexOp1rc
        35 => ur(OpForm::RexOp1, bits, ops, sink),
        // Recipe Mp2urm
        36 => urm(OpForm::Mp2, bits, ops, sink),
        // Recipe RexMp2urm
        37 => urm(OpForm::RexMp2, bits, ops, sink),
        // Recipe Op1ldWithIndex
        38 => ld_with_index(OpForm::Op1, bits, ops, sink),
        // Recipe RexOp1ldWithIndex
        39 => ld_with_index(OpForm::RexOp1, bits, ops, sink),
        // Recipe Op2ldWithIndex
        40 => ld_with_index(OpForm::Op2, bits, ops, sink),
        // Recipe RexOp2ldWithIndex
        41 => ld_with_index(OpForm::RexOp2, bits, ops, sink),
        // Recipe Op1ldWithIndexDisp8
        42 => ld_with_index_disp8(OpForm::Op1, bits, ops, sink),
        // Recipe RexOp1ldWithIndexDisp8
        43 => ld_with_index_disp8(OpForm::RexOp1, bits, ops, sink),
        // Recipe Op2ldWithIndexDisp8
        44 => ld_with_index_disp8(OpForm::Op2, bits, ops, sink),
        // Recipe RexOp2ldWithIndexDisp8
        45 => ld_with_index_disp8(OpForm::RexOp2, bits, ops, sink),
        // Recipe Op1ldWithIndexDisp32
        46 => ld_with_index_disp32(OpForm::Op1, bits, ops, sink),
        // Recipe RexOp1ldWithIndexDisp32
        47 => ld_with_index_disp32(OpForm::RexOp1, bits, ops, sink),
        _ => {},
    }
}

/// What the recipes 48 to 63 require of an instruction with encoding bits `bits`.
pub open spec fn recipe_ok_3(recipe: u16, bits: u16, ops: InstOperands) -> bool {
    match recipe {
        48 => ld_with_index_disp32_ok(OpForm::Op2, bits, ops),
        49 => ld_with_index_disp32_ok(OpForm::RexOp2, bits, ops),
        50 => st_with_index_ok(OpForm::Op1, bits, ops),
        51 => st_with_index_ok(OpForm::RexOp1, bits, ops),
        52 => st_with_index_ok(OpForm::Mp1, bits, ops),
        53 => st_with_index_ok(OpForm::RexMp1, bits, ops),
        54 => st_with_index_disp8_ok(OpForm::Op1, bits, ops),
        55 => st_with_index_disp8_ok(OpForm::RexOp1, bits, ops),
        56 => st_with_index_disp8_ok(OpForm::Mp1, bits, ops),
        57 => st_with_index_disp8_ok(OpForm::RexMp1, bits, ops),
        58 => st_with_index_disp32_ok(OpForm::Op1, bits, ops),
        59 => st_with_index_disp32_ok(OpForm::RexOp1, bits, ops),
        60 => st_with_index_disp32_ok(OpForm::Mp1, bits, ops),
        61 => st_with_index_disp32_ok(OpForm::RexMp1, bits, ops),
        62 => st_with_index_ok(OpForm::Op1, bits, ops),
        63 => st_with_index_ok(OpForm::RexOp1, bits, ops),
        _ => false,
    }
}

/// What the recipes 48 to 63 emit for an instruction with encoding bits `bits`.
pub open spec fn recipe_emits_3(recipe: u16, bits: u16, ops: InstOperands, s: SinkContents) -> SinkContents {
    match recipe {
        48 => ld_with_index_disp32_emits(OpForm::Op2, bits, ops, s),
        49 => ld_with_index_disp32_emits(OpForm::RexOp2, bits, ops, s),
        50 => st_with_index_emits(OpForm::Op1, bits, ops, s),
        51 => st_with_index_emits(OpForm::RexOp1, bits, ops, s),
        52 => st_with_index_emits(OpForm::Mp1, bits, ops, s),
        53 => st_with_index_emits(OpForm::RexMp1, bits, ops, s),
        54 => st_with_index_disp8_emits(OpForm::Op1, bits, ops, s),
        55 => st_with_index_disp8_emits(OpForm::RexOp1, bits, ops, s),
        56 => st_with_index_disp8_emits(OpForm::Mp1, bits, ops, s),
        57 => st_with_index_disp8_emits(OpForm::RexMp1, bits, ops, s),
        58 => st_with_index_disp32_emits(OpForm::Op1, bits, ops, s),
        59 => st_with_index_disp32_emits(OpForm::RexOp1, bits, ops, s),
        60 => st_with_index_disp32_emits(OpForm::Mp1, bits, ops, s),
        61 => st_with_index_disp32_emits(OpForm::RexMp1, bits, ops, s),
        62 => st_with_index_emits(OpForm::Op1, bits, ops, s),
        63 => st_with_index_emits(OpForm::RexOp1, bits, ops, s),
        _ => s,
    }
}

/// What the recipes 48 to 63 emit only extends the sink contents.
proof fn recipe_appends_3(recipe: u16, bits: u16, ops: InstOperands, s: SinkContents)
    requires
        48 <= recipe <= 63,
    ensures
        extends(s, recipe_emits_3(recipe, bits, ops, s)),
{
    match recipe {
        48 => ld_with_index_disp32_appends(OpForm::Op2, bits, ops, s),
        49 => ld_with_index_disp32_appends(OpForm::RexOp2, bits, ops, s),
        50 => st_with_index_appends(OpForm::Op1, bits, ops, s),
        51 => st_with_index_appends(OpForm::RexOp1, bits, ops, s),
        52 => st_with_index_appends(OpForm::Mp1, bits, ops, s),
        53 => st_with_index_appends(OpForm::RexMp1, bits, ops, s),
        54 => st_with_index_disp8_appends(OpForm::Op1, bits, ops, s),
        55 => st_with_index_disp8_appends(OpForm::RexOp1, bits, ops, s),
        56 => st_with_index_disp8_appends(OpForm::Mp1, bits, ops, s),
        57 => st_with_index_disp8_appends(OpForm::RexMp1, bits, ops, s),
        58 => st_with_index_disp32_appends(OpForm::Op1, bits, ops, s),
        59 => st_with_index_disp32_appends(OpForm::RexOp1, bits, ops, s),
        60 => st_with_index_disp32_appends(OpForm::Mp1, bits, ops, s),
        61 => st_with_index_disp32_appends(OpForm::RexMp1, bits, ops, s),
        62 => st_with_index_appends(OpForm::Op1, bits, ops, s),
        63 => st_with_index_appends(OpForm::RexOp1, bits, ops, s),
        _ => {},
    }
}

/// Emit an instruction with one of the recipes 48 to 63.
fn emit_recipe_3(recipe: u16, bits: u16, ops: &InstOperands, sink: &mut CodeSink)
    requires
        48 <= recipe <= 63,
        recipe_ok_3(recipe, bits, *ops),
        old(sink).bytes().len() + 32 <= sink_capacity(),
    ensures
        final(sink)@ == recipe_emits_3(recipe, bits, *ops, old(sink)@),
{
    match recipe {
        // Recipe Op2ldWithIndexDisp32
        48 => ld_with_index_disp32(OpForm::Op2, bits, ops, sink),
        // Recipe RexOp2ldWithIndexDisp32
        49 => ld_with_index_disp32(OpForm::RexOp2, bits, ops, sink),
        // Recipe Op1stWithIndex
        50 => st_with_index(OpForm::Op1, bits, ops, sink),
        // Recipe RexOp1stWithIndex
        51 => st_with_index(OpForm::RexOp1, bits, ops, sink),
        // Recipe Mp1stWithIndex
        52 => st_with_index(OpForm::Mp1, bits, ops, sink),
        // Recipe RexMp1stWithIndex
        53 => st_with_index(OpForm::RexMp1, bits, ops, sink),
        // Recipe Op1stWithIndexDisp8
        54 => st_with_index_disp8(OpForm::Op1, bits, ops, sink),
        // Recipe RexOp1stWithIndexDisp8
        55 => st_with_index_disp8(OpForm::RexOp1, bits, ops, sink),
        // Recipe Mp1stWithIndexDisp8
        56 => st_with_index_disp8(OpForm::Mp1, bits, ops, sink),
        // Recipe RexMp1stWithIndexDisp8
        57 => st_with_index_disp8(OpForm::RexMp1, bits, ops, sink),
        // Recipe Op1stWithIndexDisp32
        58 => st_with_index_disp32(OpForm::Op1, bits, ops, sink),
        // Recipe RexOp1stWithIndexDisp32
        59 => st_with_index_disp32(OpForm::RexOp1, bits, ops, sink),
        // Recipe Mp1stWithIndexDisp32
        60 => st_with_index_disp32(OpForm::Mp1, bits, ops, sink),
        // Recipe RexMp1stWithIndexDisp32
        61 => st_with_index_disp32(OpForm::RexMp1, bits, ops, sink),
        // Recipe Op1stWithIndex_abcd
        62 => st_with_index(OpForm::Op1, bits, ops, sink),
        // Recipe RexOp1stWithIndex_abcd
        63 => st_with_index(OpForm::RexOp1, bits, ops, sink),
        _ => {},
    }
}

/// What the recipes 64 to 79 require of an instruction with encoding bits `bits`.
pub open spec fn recipe_ok_4(recipe: u16, bits: u16, ops: InstOperands) -> bool {
    match recipe {
        64 => st_with_index_disp8_ok(OpForm::Op1, bits, ops),
        65 => st_with_index_disp8_ok(OpForm::RexOp1, bits, ops),
        66 => st_with_index_disp32_ok(OpForm::Op1, bits, ops),
        67 => st_with_index_disp32_ok(OpForm::RexOp1, bits, ops),
        68 => st_ok(OpForm::Op1, bits, ops),
        69 => st_ok(OpForm::RexOp1, bits, ops),
        70 => st_ok(OpForm::Mp1, bits, ops),
        71 => st_ok(OpForm::RexMp1, bits, ops),
        72 => st_disp8_ok(OpForm::Op1, bits, ops),
        73 => st_disp8_ok(OpForm::RexOp1, bits, ops),
        74 => st_disp8_ok(OpForm::Mp1, bits, ops),
        75 => st_disp8_ok(OpForm::RexMp1, bits, ops),
        76 => st_disp32_ok(OpForm::Op1, bits, ops),
        77 => st_disp32_ok(OpForm::RexOp1, bits, ops),
        78 => st_disp32_ok(OpForm::Mp1, bits, ops),
        79 => st_disp32_ok(OpForm::RexMp1, bits, ops),
        _ => false,
    }
}

/// What the recipes 64 to 79 emit for an instruction with encoding bits `bits`.
pub open spec fn recipe_emits_4(recipe: u16, bits: u16, ops: InstOperands, s: SinkContents) -> SinkContents {
    match recipe {
        64 => st_with_index_disp8_emits(OpForm::Op1, bits, ops, s),
        65 => st_with_index_disp8_emits(OpForm::RexOp1, bits, ops, s),
        66 => st_with_index_disp32_emits(OpForm::Op1, bits, ops, s),
        67 => st_with_index_disp32_emits(OpForm::RexOp1, bits, ops, s),
        68 => st_emits(OpForm::Op1, bits, ops, s),
        69 => st_emits(OpForm::RexOp1, bits, ops, s),
        70 => st_emits(OpForm::Mp1, bits, ops, s),
        71 => st_emits(OpForm::RexMp1, bits, ops, s),
        72 => st_disp8_emits(OpForm::Op1, bits, ops, s),
        73 => st_disp8_emits(OpForm::RexOp1, bits, ops, s),
        74 => st_disp8_emits(OpForm::Mp1, bits, ops, s),
        75 => st_disp8_emits(OpForm::RexMp1, bits, ops, s),
        76 => st_disp32_emits(OpForm::Op1, bits, ops, s),
        77 => st_disp32_emits(OpForm::RexOp1, bits, ops, s),
        78 => st_disp32_emits(OpForm::Mp1, bits, ops, s),
        79 => st_disp32_emits(OpForm::RexMp1, bits, ops, s),
        _ => s,
    }
}

/// What the recipes 64 to 79 emit only extends the sink contents.
proof fn recipe_appends_4(recipe: u16, bits: u16, ops: InstOperands, s: SinkContents)
    requires
        64 <= recipe <= 79,
    ensures
        extends(s, recipe_emits_4(recipe, bits, ops, s)),
{
    match recipe {
        64 => st_with_index_disp8_appends(OpForm::Op1, bits, ops, s),
        65 => st_with_index_disp8_appends(OpForm::RexOp1, bits, ops, s),
        66 => st_with_index_disp32_appends(OpForm::Op1, bits, ops, s),
        67 => st_with_index_disp32_appends(OpForm::RexOp1, bits, ops, s),
        68 => st_appends(OpForm::Op1, bits, ops, s),
        69 => st_appends(OpForm::RexOp1, bits, ops, s),
        70 => st_appends(OpForm::Mp1, bits, ops, s),
        71 => st_appends(OpForm::RexMp1, bits, ops, s),
        72 => st_disp8_appends(OpForm::Op1, bits, ops, s),
        73 => st_disp8_appends(OpForm::RexOp1, bits, ops, s),
        74 => st_disp8_appends(OpForm::Mp1, bits, ops, s),
        75 => st_disp8_appends(OpForm::RexMp1, bits, ops, s),
        76 => st_disp32_appends(OpForm::Op1, bits, ops, s),
        77 => st_disp32_appends(OpForm::RexOp1, bits, ops, s),
        78 => st_disp32_appends(OpForm::Mp1, bits, ops, s),
        79 => st_disp32_appends(OpForm::RexMp1, bits, ops, s),
        _ => {},
    }
}

/// Emit an instruction with one of the recipes 64 to 79.
fn emit_recipe_4(recipe: u16, bits: u16, ops: &InstOperands, sink: &mut CodeSink)
    requires
        64 <= recipe <= 79,
        recipe_ok_4(recipe, bits, *ops),
        old(sink).bytes().len() + 32 <= sink_capacity(),
    ensures
        final(sink)@ == recipe_emits_4(recipe, bits, *ops, old(sink)@),
{
    match recipe {
        // Recipe Op1stWithIndexDisp8_abcd
        64 => st_with_index_disp8(OpForm::Op1, bits, ops, sink),
        // Recipe RexOp1stWithIndexDisp8_abcd
        65 => st_with_index_disp8(OpForm::RexOp1, bits, ops, sink),
        // Recipe Op1stWithIndexDisp32_abcd
        66 => st_with_index_disp32(OpForm::Op1, bits, ops, sink),
        // Recipe RexOp1stWithIndexDisp32_abcd
        67 => st_with_index_disp32(OpForm::RexOp1, bits, ops, sink),
        // Recipe Op1st
        68 => st(OpForm::Op1, bits, ops, sink),
        // Recipe RexOp1st
        69 => st(OpForm::RexOp1, bits, ops, sink),
        // Recipe Mp1st
        70 => st(OpForm::Mp1, bits, ops, sink),
        // Recipe RexMp1st
        71 => st(OpForm::RexMp1, bits, ops, sink),
        // Recipe Op1stDisp8
        72 => st_disp8(OpForm::Op1, bits, ops, sink),
        // Recipe RexOp1stDisp8
        73 => st_disp8(OpForm::RexOp1, bits, ops, sink),
        // Recipe Mp1stDisp8
        74 => st_disp8(OpForm::Mp1, bits, ops, sink),
        // Recipe RexMp1stDisp8
        75 => st_disp8(OpForm::RexMp1, bits, ops, sink),
        // Recipe Op1stDisp32
        76 => st_disp32(OpForm::Op1, bits, ops, sink),
        // Recipe RexOp1stDisp32
        77 => st_disp32(OpForm::RexOp1, bits, ops, sink),
        // Recipe Mp1stDisp32
        78 => st_disp32(OpForm::Mp1, bits, ops, sink),
        // Recipe RexMp1stDisp32
        79 => st_disp32(OpForm::RexMp1, bits, ops, sink),
        _ => {},
    }
}

/// What the recipes 80 to 95 require of an instruction with encoding bits `bits`.
pub open spec fn recipe_ok_5(recipe: u16, bits: u16, ops: InstOperands) -> bool {
    match recipe {
        80 => st_ok(OpForm::Op1, bits, ops),
        81 => st_disp8_ok(OpForm::Op1, bits, ops),
        82 => st_disp32_ok(OpForm::Op1, bits, ops),
        83 => spill_sib32_ok(OpForm::Op1, bits, ops),
        84 => spill_sib32_ok(OpForm::RexOp1, bits, ops),
        85 => regspill32_ok(OpForm::Op1, bits, ops),
        86 => regspill32_ok(OpForm::RexOp1, bits, ops),
        87 => ld_ok(OpForm::Op1, bits, ops),
        88 => ld_ok(OpForm::RexOp1, bits, ops),
        89 => ld_ok(OpForm::Op2, bits, ops),
        90 => ld_ok(OpForm::RexOp2, bits, ops),
        91 => ld_disp8_ok(OpForm::Op1, bits, ops),
        92 => ld_disp8_ok(OpForm::RexOp1, bits, ops),
        93 => ld_disp8_ok(OpForm::Op2, bits, ops),
        94 => ld_disp8_ok(OpForm::RexOp2, bits, ops),
        95 => ld_disp32_ok(OpForm::Op1, bits, ops),
        _ => false,
    }
}

/// What the recipes 80 to 95 emit for an instruction with encoding bits `bits`.
pub open spec fn recipe_emits_5(recipe: u16, bits: u16, ops: InstOperands, s: SinkContents) -> SinkContents {
    match recipe {
        80 => st_emits(OpForm::Op1, bits, ops, s),
        81 => st_disp8_emits(OpForm::Op1, bits, ops, s),
        82 => st_disp32_emits(OpForm::Op1, bits, ops, s),
        83 => spill_sib32_emits(OpForm::Op1, bits, ops, s),
        84 => spill_sib32_emits(OpForm::RexOp1, bits, ops, s),
        85 => regspill32_emits(OpForm::Op1, bits, ops, s),
        86 => regspill32_emits(OpForm::RexOp1, bits, ops, s),
        87 => ld_emits(OpForm::Op1, bits, ops, s),
        88 => ld_emits(OpForm::RexOp1, bits, ops, s),
        89 => ld_emits(OpForm::Op2, bits, ops, s),
        90 => ld_emits(OpForm::RexOp2, bits, ops, s),
        91 => ld_disp8_emits(OpForm::Op1, bits, ops, s),
        92 => ld_disp8_emits(OpForm::RexOp1, bits, ops, s),
        93 => ld_disp8_emits(OpForm::Op2, bits, ops, s),
        94 => ld_disp8_emits(OpForm::RexOp2, bits, ops, s),
        95 => ld_disp32_emits(OpForm::Op1, bits, ops, s),
        _ => s,
    }
}

/// What the recipes 80 to 95 emit only extends the sink contents.
proof fn recipe_appends_5(recipe: u16, bits: u16, ops: InstOperands, s: SinkContents)
    requires
        80 <= recipe <= 95,
    ensures
        extends(s, recipe_emits_5(recipe, bits, ops, s)),
{
    match recipe {
        80 => st_appends(OpForm::Op1, bits, ops, s),
        81 => st_disp8_appends(OpForm::Op1, bits, ops, s),
        82 => st_disp32_appends(OpForm::Op1, bits, ops, s),
        83 => spill_sib32_appends(OpForm::Op1, bits, ops, s),
        84 => spill_sib32_appends(OpForm::RexOp1, bits, ops, s),
        85 => regspill32_appends(OpForm::Op1, bits, ops, s),
        86 => regspill32_appends(OpForm::RexOp1, bits, ops, s),
        87 => ld_appends(OpForm::Op1, bits, ops, s),
        88 => ld_appends(OpForm::RexOp1, bits, ops, s),
        89 => ld_appends(OpForm::Op2, bits, ops, s),
        90 => ld_appends(OpForm::RexOp2, bits, ops, s),
        91 => ld_disp8_appends(OpForm::Op1, bits, ops, s),
        92 => ld_disp8_appends(OpForm::RexOp1, bits, ops, s),
        93 => ld_disp8_appends(OpForm::Op2, bits, ops, s),
        94 => ld_disp8_appends(OpForm::RexOp2, bits, ops, s),
        95 => ld_disp32_appends(OpForm::Op1, bits, ops, s),
        _ => {},
    }
}

/// Emit an instruction with one of the recipes 80 to 95.
fn emit_recipe_5(recipe: u16, bits: u16, ops: &InstOperands, sink: &mut CodeSink)
    requires
        80 <= recipe <= 95,
        recipe_ok_5(recipe, bits, *ops),
        old(sink).bytes().len() + 32 <= sink_capacity(),
    ensures
        final(sink)@ == recipe_emits_5(recipe, bits, *ops, old(sink)@),
{
    match recipe {
        // Recipe Op1st_abcd
        80 => st(OpForm::Op1, bits, ops, sink),
        // Recipe Op1stDisp8_abcd
        81 => st_disp8(OpForm::Op1, bits, ops, sink),
        // Recipe Op1stDisp32_abcd
        82 => st_disp32(OpForm::Op1, bits, ops, sink),
        // Recipe Op1spillSib32
        83 => spill_sib32(OpForm::Op1, bits, ops, sink),
        // Recipe RexOp1spillSib32
        84 => spill_sib32(OpForm::RexOp1, bits, ops, sink),
        // Recipe Op1regspill32
        85 => regspill32(OpForm::Op1, bits, ops, sink),
        // Recipe RexOp1regspill32
        86 => regspill32(OpForm::RexOp1, bits, ops, sink),
        // Recipe Op1ld
        87 => ld(OpForm::Op1, bits, ops, sink),
        // Recipe RexOp1ld
        88 => ld(OpForm::RexOp1, bits, ops, sink),
        // Recipe Op2ld
        89 => ld(OpForm::Op2, bits, ops, sink),
        // Recipe RexOp2ld
        90 => ld(OpForm::RexOp2, bits, ops, sink),
        // Recipe Op1ldDisp8
        91 => ld_disp8(OpForm::Op1, bits, ops, sink),
        // Recipe RexOp1ldDisp8
        92 => ld_disp8(OpForm::RexOp1, bits, ops, sink),
        // Recipe Op2ldDisp8
        93 => ld_disp8(OpForm::Op2, bits, ops, sink),
        // Recipe RexOp2ldDisp8
        94 => ld_disp8(OpForm::RexOp2, bits, ops, sink),
        // Recipe Op1ldDisp32
        95 => ld_disp32(OpForm::Op1, bits, ops, sink),
        _ => {},
    }
}

/// What the recipes 96 to 111 require of an instruction with encoding bits `bits`.
pub open spec fn recipe_ok_6(recipe: u16, bits: u16, ops: InstOperands) -> bool {
    match recipe {
        96 => ld_disp32_ok(OpForm::RexOp1, bits, ops),
        97 => ld_disp32_ok(OpForm::Op2, bits, ops),
        98 => ld_disp32_ok(OpForm::RexOp2, bits, ops),
        99 => fill_sib32_ok(OpForm::Op1, bits, ops),
        100 => fill_sib32_ok(OpForm::RexOp1, bits, ops),
        101 => regfill32_ok(OpForm::Op1, bits, ops),
        102 => regfill32_ok(OpForm::RexOp1, bits, ops),
        103 => fillnull_ok(OpForm::Op1, bits, ops),
        104 => fillnull_ok(OpForm::Op1, bits, ops),
        105 => pushq_ok(OpForm::Op1, bits, ops),
        106 => pushq_ok(OpForm::RexOp1, bits, ops),
        107 => popq_ok(OpForm::Op1, bits, ops),
        108 => popq_ok(OpForm::RexOp1, bits, ops),
        109 => copysp_ok(OpForm::RexOp1, bits, ops),
        110 => copysp_ok(OpForm::Op1, bits, ops),
        111 => umr_reg_to_ssa_ok(OpForm::Op1, bits, ops),
        _ => false,
    }
}

/// What the recipes 96 to 111 emit for an instruction with encoding bits `bits`.
pub open spec fn recipe_emits_6(recipe: u16, bits: u16, ops: InstOperands, s: SinkContents) -> SinkContents {
    match recipe {
        96 => ld_disp32_emits(OpForm::RexOp1, bits, ops, s),
        97 => ld_disp32_emits(OpForm::Op2, bits, ops, s),
        98 => ld_disp32_emits(OpForm::RexOp2, bits, ops, s),
        99 => fill_sib32_emits(OpForm::Op1, bits, ops, s),
        100 => fill_sib32_emits(OpForm::RexOp1, bits, ops, s),
        101 => regfill32_emits(OpForm::Op1, bits, ops, s),
        102 => regfill32_emits(OpForm::RexOp1, bits, ops, s),
        103 => fillnull_emits(OpForm::Op1, bits, ops, s),
        104 => fillnull_emits(OpForm::Op1, bits, ops, s),
        105 => pushq_emits(OpForm::Op1, bits, ops, s),
        106 => pushq_emits(OpForm::RexOp1, bits, ops, s),
        107 => popq_emits(OpForm::Op1, bits, ops, s),
        108 => popq_emits(OpForm::RexOp1, bits, ops, s),
        109 => copysp_emits(OpForm::RexOp1, bits, ops, s),
        110 => copysp_emits(OpForm::Op1, bits, ops, s),
        111 => umr_reg_to_ssa_emits(OpForm::Op1, bits, ops, s),
        _ => s,
    }
}

/// What the recipes 96 to 111 emit only extends the sink contents.
proof fn recipe_appends_6(recipe: u16, bits: u16, ops: InstOperands, s: SinkContents)
    requires
        96 <= recipe <= 111,
    ensures
        extends(s, recipe_emits_6(recipe, bits, ops, s)),
{
    match recipe {
        96 => ld_disp32_appends(OpForm::RexOp1, bits, ops, s),
        97 => ld_disp32_appends(OpForm::Op2, bits, ops, s),
        98 => ld_disp32_appends(OpForm::RexOp2, bits, ops, s),
        99 => fill_sib32_appends(OpForm::Op1, bits, ops, s),
        100 => fill_sib32_appends(OpForm::RexOp1, bits, ops, s),
        101 => regfill32_appends(OpForm::Op1, bits, ops, s),
        102 => regfill32_appends(OpForm::RexOp1, bits, ops, s),
        103 => fillnull_appends(OpForm::Op1, bits, ops, s),
        104 => fillnull_appends(OpForm::Op1, bits, ops, s),
        105 => pushq_appends(OpForm::Op1, bits, ops, s),
        106 => pushq_appends(OpForm::RexOp1, bits, ops, s),
        107 => popq_appends(OpForm::Op1, bits, ops, s),
        108 => popq_appends(OpForm::RexOp1, bits, ops, s),
        109 => copysp_appends(OpForm::RexOp1, bits, ops, s),
        110 => copysp_appends(OpForm::Op1, bits, ops, s),
        111 => umr_reg_to_ssa_appends(OpForm::Op1, bits, ops, s),
        _ => {},
    }
}

/// Emit an instruction with one of the recipes 96 to 111.
fn emit_recipe_6(recipe: u16, bits: u16, ops: &InstOperands, sink: &mut CodeSink)
    requires
        96 <= recipe <= 111,
        recipe_ok_6(recipe, bits, *ops),
        old(sink).bytes().len() + 32 <= sink_capacity(),
    ensures
        final(sink)@ == recipe_emits_6(recipe, bits, *ops, old(sink)@),
{
    match recipe {
        // Recipe RexOp1ldDisp32
        96 => ld_disp32(OpForm::RexOp1, bits, ops, sink),
        // Recipe Op2ldDisp32
        97 => ld_disp32(OpForm::Op2, bits, ops, sink),
        // Recipe RexOp2ldDisp32
        98 => ld_disp32(OpForm::RexOp2, bits, ops, sink),
        // Recipe Op1fillSib32
        99 => fill_sib32(OpForm::Op1, bits, ops, sink),
        // Recipe RexOp1fillSib32
        100 => fill_sib32(OpForm::RexOp1, bits, ops, sink),
        // Recipe Op1regfill32
        101 => regfill32(OpForm::Op1, bits, ops, sink),
        // Recipe RexOp1regfill32
        102 => regfill32(OpForm::RexOp1, bits, ops, sink),
        // Recipe fillnull
        103 => fillnull(OpForm::Op1, bits, ops, sink),
        // Recipe ffillnull
        104 => fillnull(OpForm::Op1, bits, ops, sink),
        // Recipe Op1pushq
        105 => pushq(OpForm::Op1, bits, ops, sink),
        // Recipe RexOp1pushq
        106 => pushq(OpForm::RexOp1, bits, ops, sink),
        // Recipe Op1popq
        107 => popq(OpForm::Op1, bits, ops, sink),
        // Recipe RexOp1popq
        108 => popq(OpForm::RexOp1, bits, ops, sink),
        // Recipe RexOp1copysp
        109 => copysp(OpForm::RexOp1, bits, ops, sink),
        // Recipe Op1copysp
        110 => copysp(OpForm::Op1, bits, ops, sink),
        // Recipe Op1umr_reg_to_ssa
        111 => umr_reg_to_ssa(OpForm::Op1, bits, ops, sink),
        _ => {},
    }
}

/// What the recipes 112 to 127 require of an instruction with encoding bits `bits`.
pub open spec fn recipe_ok_7(recipe: u16, bits: u16, ops: InstOperands) -> bool {
    match recipe {
        112 => umr_reg_to_ssa_ok(OpForm::RexOp1, bits, ops),
        113 => furm_reg_to_ssa_ok(OpForm::Mp2, bits, ops),
        114 => furm_reg_to_ssa_ok(OpForm::RexMp2, bits, ops),
        115 => stacknull_ok(OpForm::Op1, bits, ops),
        116 => adjustsp_ok(OpForm::Op1, bits, ops),
        117 => adjustsp_ok(OpForm::RexOp1, bits, ops),
        118 => adjustsp_ib_ok(OpForm::Op1, bits, ops),
        119 => adjustsp_id_ok(OpForm::Op1, bits, ops),
        120 => adjustsp_ib_ok(OpForm::RexOp1, bits, ops),
        121 => adjustsp_id_ok(OpForm::RexOp1, bits, ops),
        122 => ld_ok(OpForm::Mp2, bits, ops),
        123 => ld_ok(OpForm::RexMp2, bits, ops),
        124 => ld_disp8_ok(OpForm::Mp2, bits, ops),
        125 => ld_disp8_ok(OpForm::RexMp2, bits, ops),
        126 => ld_disp32_ok(OpForm::Mp2, bits, ops),
        127 => ld_disp32_ok(OpForm::RexMp2, bits, ops),
        _ => false,
    }
}

/// What the recipes 112 to 127 emit for an instruction with encoding bits `bits`.
pub open spec fn recipe_emits_7(recipe: u16, bits: u16, ops: InstOperands, s: SinkContents) -> SinkContents {
    match recipe {
        112 => umr_reg_to_ssa_emits(OpForm::RexOp1, bits, ops, s),
        113 => furm_reg_to_ssa_emits(OpForm::Mp2, bits, ops, s),
        114 => furm_reg_to_ssa_emits(OpForm::RexMp2, bits, ops, s),
        115 => stacknull_emits(OpForm::Op1, bits, ops, s),
        116 => adjustsp_emits(OpForm::Op1, bits, ops, s),
        117 => adjustsp_emits(OpForm::RexOp1, bits, ops, s),
        118 => adjustsp_ib_emits(OpForm::Op1, bits, ops, s),
        119 => adjustsp_id_emits(OpForm::Op1, bits, ops, s),
        120 => adjustsp_ib_emits(OpForm::RexOp1, bits, ops, s),
        121 => adjustsp_id_emits(OpForm::RexOp1, bits, ops, s),
        122 => ld_emits(OpForm::Mp2, bits, ops, s),
        123 => ld_emits(OpForm::RexMp2, bits, ops, s),
        124 => ld_disp8_emits(OpForm::Mp2, bits, ops, s),
        125 => ld_disp8_emits(OpForm::RexMp2, bits, ops, s),
        126 => ld_disp32_emits(OpForm::Mp2, bits, ops, s),
        127 => ld_disp32_emits(OpForm::RexMp2, bits, ops, s),
        _ => s,
    }
}

/// What the recipes 112 to 127 emit only extends the sink contents.
proof fn recipe_appends_7(recipe: u16, bits: u16, ops: InstOperands, s: SinkContents)
    requires
        112 <= recipe <= 127,
    ensures
        extends(s, recipe_emits_7(recipe, bits, ops, s)),
{
    match recipe {
        112 => umr_reg_to_ssa_appends(OpForm::RexOp1, bits, ops, s),
        113 => furm_reg_to_ssa_appends(OpForm::Mp2, bits, ops, s),
        114 => furm_reg_to_ssa_appends(OpForm::RexMp2, bits, ops, s),
        115 => stacknull_appends(OpForm::Op1, bits, ops, s),
        116 => adjustsp_appends(OpForm::Op1, bits, ops, s),
        117 => adjustsp_appends(OpForm::RexOp1, bits, ops, s),
        118 => adjustsp_ib_appends(OpForm::Op1, bits, ops, s),
        119 => adjustsp_id_appends(OpForm::Op1, bits, ops, s),
        120 => adjustsp_ib_appends(OpForm::RexOp1, bits, ops, s),
        121 => adjustsp_id_appends(OpForm::RexOp1, bits, ops, s),
        122 => ld_appends(OpForm::Mp2, bits, ops, s),
        123 => ld_appends(OpForm::RexMp2, bits, ops, s),
        124 => ld_disp8_appends(OpForm::Mp2, bits, ops, s),
        125 => ld_disp8_appends(OpForm::RexMp2, bits, ops, s),
        126 => ld_disp32_appends(OpForm::Mp2, bits, ops, s),
        127 => ld_disp32_appends(OpForm::RexMp2, bits, ops, s),
        _ => {},
    }
}

/// Emit an instruction with one of the recipes 112 to 127.
fn emit_recipe_7(recipe: u16, bits: u16, ops: &InstOperands, sink: &mut CodeSink)
    requires
        112 <= recipe <= 127,
        recipe_ok_7(recipe, bits, *ops),
        old(sink).bytes().len() + 32 <= sink_capacity(),
    ensures
        final(sink)@ == recipe_emits_7(recipe, bits, *ops, old(sink)@),
{
    match recipe {
        // Recipe RexOp1umr_reg_to_ssa
        112 => umr_reg_to_ssa(OpForm::RexOp1, bits, ops, sink),
        // Recipe Mp2furm_reg_to_ssa
        113 => furm_reg_to_ssa(OpForm::Mp2, bits, ops, sink),
        // Recipe RexMp2furm_reg_to_ssa
        114 => furm_reg_to_ssa(OpForm::RexMp2, bits, ops, sink),
        // Recipe stacknull
        115 => stacknull(OpForm::Op1, bits, ops, sink),
        // Recipe Op1adjustsp
        116 => adjustsp(OpForm::Op1, bits, ops, sink),
        // Recipe RexOp1adjustsp
        117 => adjustsp(OpForm::RexOp1, bits, ops, sink),
        // Recipe Op1adjustsp_ib
        118 => adjustsp_ib(OpForm::Op1, bits, ops, sink),
        // Recipe Op1adjustsp_id
        119 => adjustsp_id(OpForm::Op1, bits, ops, sink),
        // Recipe RexOp1adjustsp_ib
        120 => adjustsp_ib(OpForm::RexOp1, bits, ops, sink),
        // Recipe RexOp1adjustsp_id
        121 => adjustsp_id(OpForm::RexOp1, bits, ops, sink),
        // Recipe Mp2fld
        122 => ld(OpForm::Mp2, bits, ops, sink),
        // Recipe RexMp2fld
        123 => ld(OpForm::RexMp2, bits, ops, sink),
        // Recipe Mp2fldDisp8
        124 => ld_disp8(OpForm::Mp2, bits, ops, sink),
        // Recipe RexMp2fldDisp8
        125 => ld_disp8(OpForm::RexMp2, bits, ops, sink),
        // Recipe Mp2fldDisp32
        126 => ld_disp32(OpForm::Mp2, bits, ops, sink),
        // Recipe RexMp2fldDisp32
        127 => ld_disp32(OpForm::RexMp2, bits, ops, sink),
        _ => {},
    }
}

/// What the recipes 128 to 143 require of an instruction with encoding bits `bits`.
pub open spec fn recipe_ok_8(recipe: u16, bits: u16, ops: InstOperands) -> bool {
    match recipe {
        128 => ld_with_index_ok(OpForm::Mp2, bits, ops),
        129 => ld_with_index_ok(OpForm::RexMp2, bits, ops),
        130 => ld_with_index_disp8_ok(OpForm::Mp2, bits, ops),
        131 => ld_with_index_disp8_ok(OpForm::RexMp2, bits, ops),
        132 => ld_with_index_disp32_ok(OpForm::Mp2, bits, ops),
        133 => ld_with_index_disp32_ok(OpForm::RexMp2, bits, ops),
        134 => st_ok(OpForm::Mp2, bits, ops),
        135 => st_ok(OpForm::RexMp2, bits, ops),
        136 => st_disp8_ok(OpForm::Mp2, bits, ops),
        137 => st_disp8_ok(OpForm::RexMp2, bits, ops),
        138 => st_disp32_ok(OpForm::Mp2, bits, ops),
        139 => st_disp32_ok(OpForm::RexMp2, bits, ops),
        140 => st_with_index_ok(OpForm::Mp2, bits, ops),
        141 => st_with_index_ok(OpForm::RexMp2, bits, ops),
        142 => st_with_index_disp8_ok(OpForm::Mp2, bits, ops),
        143 => st_with_index_disp8_ok(OpForm::RexMp2, bits, ops),
        _ => false,
    }
}

/// What the recipes 128 to 143 emit for an instruction with encoding bits `bits`.
pub open spec fn recipe_emits_8(recipe: u16, bits: u16, ops: InstOperands, s: SinkContents) -> SinkContents {
    match recipe {
        128 => ld_with_index_emits(OpForm::Mp2, bits, ops, s),
        129 => ld_with_index_emits(OpForm::RexMp2, bits, ops, s),
        130 => ld_with_index_disp8_emits(OpForm::Mp2, bits, ops, s),
        131 => ld_with_index_disp8_emits(OpForm::RexMp2, bits, ops, s),
        132 => ld_with_index_disp32_emits(OpForm::Mp2, bits, ops, s),
        133 => ld_with_index_disp32_emits(OpForm::RexMp2, bits, ops, s),
        134 => st_emits(OpForm::Mp2, bits, ops, s),
        135 => st_emits(OpForm::RexMp2, bits, ops, s),
        136 => st_disp8_emits(OpForm::Mp2, bits, ops, s),
        137 => st_disp8_emits(OpForm::RexMp2, bits, ops, s),
        138 => st_disp32_emits(OpForm::Mp2, bits, ops, s),
        139 => st_disp32_emits(OpForm::RexMp2, bits, ops, s),
        140 => st_with_index_emits(OpForm::Mp2, bits, ops, s),
        141 => st_with_index_emits(OpForm::RexMp2, bits, ops, s),
        142 => st_with_index_disp8_emits(OpForm::Mp2, bits, ops, s),
        143 => st_with_index_disp8_emits(OpForm::RexMp2, bits, ops, s),
        _ => s,
    }
}

/// What the recipes 128 to 143 emit only extends the sink contents.
proof fn recipe_appends_8(recipe: u16, bits: u16, ops: InstOperands, s: SinkContents)
    requires
        128 <= recipe <= 143,
    ensures
        extends(s, recipe_emits_8(recipe, bits, ops, s)),
{
    match recipe {
        128 => ld_with_index_appends(OpForm::Mp2, bits, ops, s),
        129 => ld_with_index_appends(OpForm::RexMp2, bits, ops, s),
        130 => ld_with_index_disp8_appends(OpForm::Mp2, bits, ops, s),
        131 => ld_with_index_disp8_appends(OpForm::RexMp2, bits, ops, s),
        132 => ld_with_index_disp32_appends(OpForm::Mp2, bits, ops, s),
        133 => ld_with_index_disp32_appends(OpForm::RexMp2, bits, ops, s),
        134 => st_appends(OpForm::Mp2, bits, ops, s),
        135 => st_appends(OpForm::RexMp2, bits, ops, s),
        136 => st_disp8_appends(OpForm::Mp2, bits, ops, s),
        137 => st_disp8_appends(OpForm::RexMp2, bits, ops, s),
        138 => st_disp32_appends(OpForm::Mp2, bits, ops, s),
        139 => st_disp32_appends(OpForm::RexMp2, bits, ops, s),
        140 => st_with_index_appends(OpForm::Mp2, bits, ops, s),
        141 => st_with_index_appends(OpForm::RexMp2, bits, ops, s),
        142 => st_with_index_disp8_appends(OpForm::Mp2, bits, ops, s),
        143 => st_with_index_disp8_appends(OpForm::RexMp2, bits, ops, s),
        _ => {},
    }
}

/// Emit an instruction with one of the recipes 128 to 143.
fn emit_recipe_8(recipe: u16, bits: u16, ops: &InstOperands, sink: &mut CodeSink)
    requires
        128 <= recipe <= 143,
        recipe_ok_8(recipe, bits, *ops),
        old(sink).bytes().len() + 32 <= sink_capacity(),
    ensures
        final(sink)@ == recipe_emits_8(recipe, bits, *ops, old(sink)@),
{
    match recipe {
        // Recipe Mp2fldWithIndex
        128 => ld_with_index(OpForm::Mp2, bits, ops, sink),
        // Recipe RexMp2fldWithIndex
        129 => ld_with_index(OpForm::RexMp2, bits, ops, sink),
        // Recipe Mp2fldWithIndexDisp8
        130 => ld_with_index_disp8(OpForm::Mp2, bits, ops, sink),
        // Recipe RexMp2fldWithIndexDisp8
        131 => ld_with_index_disp8(OpForm::RexMp2, bits, ops, sink),
        // Recipe Mp2fldWithIndexDisp32
        132 => ld_with_index_disp32(OpForm::Mp2, bits, ops, sink),
        // Recipe RexMp2fldWithIndexDisp32
        133 => ld_with_index_disp32(OpForm::RexMp2, bits, ops, sink),
        // Recipe Mp2fst
        134 => st(OpForm::Mp2, bits, ops, sink),
        // Recipe RexMp2fst
        135 => st(OpForm::RexMp2, bits, ops, sink),
        // Recipe Mp2fstDisp8
        136 => st_disp8(OpForm::Mp2, bits, ops, sink),
        // Recipe RexMp2fstDisp8
        137 => st_disp8(OpForm::RexMp2, bits, ops, sink),
        // Recipe Mp2fstDisp32
        138 => st_disp32(OpForm::Mp2, bits, ops, sink),
        // Recipe RexMp2fstDisp32
        139 => st_disp32(OpForm::RexMp2, bits, ops, sink),
        // Recipe Mp2fstWithIndex
        140 => st_with_index(OpForm::Mp2, bits, ops, sink),
        // Recipe RexMp2fstWithIndex
        141 => st_with_index(OpForm::RexMp2, bits, ops, sink),
        // Recipe Mp2fstWithIndexDisp8
        142 => st_with_index_disp8(OpForm::Mp2, bits, ops, sink),
        // Recipe RexMp2fstWithIndexDisp8
        143 => st_with_index_disp8(OpForm::RexMp2, bits, ops, sink),
        _ => {},
    }
}

/// What the recipes 144 to 159 require of an instruction with encoding bits `bits`.
pub open spec fn recipe_ok_9(recipe: u16, bits: u16, ops: InstOperands) -> bool {
    match recipe {
        144 => st_with_index_disp32_ok(OpForm::Mp2, bits, ops),
        145 => st_with_index_disp32_ok(OpForm::RexMp2, bits, ops),
        146 => fill_sib32_ok(OpForm::Mp2, bits, ops),
        147 => fill_sib32_ok(OpForm::RexMp2, bits, ops),
        148 => regfill32_ok(OpForm::Mp2, bits, ops),
        149 => regfill32_ok(OpForm::RexMp2, bits, ops),
        150 => spill_sib32_ok(OpForm::Mp2, bits, ops),
        151 => spill_sib32_ok(OpForm::RexMp2, bits, ops),
        152 => regspill32_ok(OpForm::Mp2, bits, ops),
        153 => regspill32_ok(OpForm::RexMp2, bits, ops),
        154 => fnaddr4_ok(OpForm::Op1, bits, ops),
        155 => fnaddr8_ok(OpForm::RexOp1, bits, ops),
        156 => allones_fnaddr4_ok(OpForm::Op1, bits, ops),
        157 => allones_fnaddr8_ok(OpForm::RexOp1, bits, ops),
        158 => pcrel_fnaddr8_ok(OpForm::RexOp1, bits, ops),
        159 => got_fnaddr8_ok(OpForm::RexOp1, bits, ops),
        _ => false,
    }
}

/// What the recipes 144 to 159 emit for an instruction with encoding bits `bits`.
pub open spec fn recipe_emits_9(recipe: u16, bits: u16, ops: InstOperands, s: SinkContents) -> SinkContents {
    match recipe {
        144 => st_with_index_disp32_emits(OpForm::Mp2, bits, ops, s),
        145 => st_with_index_disp32_emits(OpForm::RexMp2, bits, ops, s),
        146 => fill_sib32_emits(OpForm::Mp2, bits, ops, s),
        147 => fill_sib32_emits(OpForm::RexMp2, bits, ops, s),
        148 => regfill32_emits(OpForm::Mp2, bits, ops, s),
        149 => regfill32_emits(OpForm::RexMp2, bits, ops, s),
        150 => spill_sib32_emits(OpForm::Mp2, bits, ops, s),
        151 => spill_sib32_emits(OpForm::RexMp2, bits, ops, s),
        152 => regspill32_emits(OpForm::Mp2, bits, ops, s),
        153 => regspill32_emits(OpForm::RexMp2, bits, ops, s),
        154 => fnaddr4_emits(OpForm::Op1, bits, ops, s),
        155 => fnaddr8_emits(OpForm::RexOp1, bits, ops, s),
        156 => allones_fnaddr4_emits(OpForm::Op1, bits, ops, s),
        157 => allones_fnaddr8_emits(OpForm::RexOp1, bits, ops, s),
        158 => pcrel_fnaddr8_emits(OpForm::RexOp1, bits, ops, s),
        159 => got_fnaddr8_emits(OpForm::RexOp1, bits, ops, s),
        _ => s,
    }
}

/// What the recipes 144 to 159 emit only extends the sink contents.
proof fn recipe_appends_9(recipe: u16, bits: u16, ops: InstOperands, s: SinkContents)
    requires
        144 <= recipe <= 159,
    ensures
        extends(s, recipe_emits_9(recipe, bits, ops, s)),
{
    match recipe {
        144 => st_with_index_disp32_appends(OpForm::Mp2, bits, ops, s),
        145 => st_with_index_disp32_appends(OpForm::RexMp2, bits, ops, s),
        146 => fill_sib32_appends(OpForm::Mp2, bits, ops, s),
        147 => fill_sib32_appends(OpForm::RexMp2, bits, ops, s),
        148 => regfill32_appends(OpForm::Mp2, bits, ops, s),
        149 => regfill32_appends(OpForm::RexMp2, bits, ops, s),
        150 => spill_sib32_appends(OpForm::Mp2, bits, ops, s),
        151 => spill_sib32_appends(OpForm::RexMp2, bits, ops, s),
        152 => regspill32_appends(OpForm::Mp2, bits, ops, s),
        153 => regspill32_appends(OpForm::RexMp2, bits, ops, s),
        154 => fnaddr4_appends(OpForm::Op1, bits, ops, s),
        155 => fnaddr8_appends(OpForm::RexOp1, bits, ops, s),
        156 => allones_fnaddr4_appends(OpForm::Op1, bits, ops, s),
        157 => allones_fnaddr8_appends(OpForm::RexOp1, bits, ops, s),
        158 => pcrel_fnaddr8_appends(OpForm::RexOp1, bits, ops, s),
        159 => got_fnaddr8_appends(OpForm::RexOp1, bits, ops, s),
        _ => {},
    }
}

/// Emit an instruction with one of the recipes 144 to 159.
fn emit_recipe_9(recipe: u16, bits: u16, ops: &InstOperands, sink: &mut CodeSink)
    requires
        144 <= recipe <= 159,
        recipe_ok_9(recipe, bits, *ops),
        old(sink).bytes().len() + 32 <= sink_capacity(),
    ensures
        final(sink)@ == recipe_emits_9(recipe, bits, *ops, old(sink)@),
{
    match recipe {
        // Recipe Mp2fstWithIndexDisp32
        144 => st_with_index_disp32(OpForm::Mp2, bits, ops, sink),
        // Recipe RexMp2fstWithIndexDisp32
        145 => st_with_index_disp32(OpForm::RexMp2, bits, ops, sink),
        // Recipe Mp2ffillSib32
        146 => fill_sib32(OpForm::Mp2, bits, ops, sink),
        // Recipe RexMp2ffillSib32
        147 => fill_sib32(OpForm::RexMp2, bits, ops, sink),
        // Recipe Mp2fregfill32
        148 => regfill32(OpForm::Mp2, bits, ops, sink),
        // Recipe RexMp2fregfill32
        149 => regfill32(OpForm::RexMp2, bits, ops, sink),
        // Recipe Mp2fspillSib32
        150 => spill_sib32(OpForm::Mp2, bits, ops, sink),
        // Recipe RexMp2fspillSib32
        151 => spill_sib32(OpForm::RexMp2, bits, ops, sink),
        // Recipe Mp2fregspill32
        152 => regspill32(OpForm::Mp2, bits, ops, sink),
        // Recipe RexMp2fregspill32
        153 => regspill32(OpForm::RexMp2, bits, ops, sink),
        // Recipe Op1fnaddr4
        154 => fnaddr4(OpForm::Op1, bits, ops, sink),
        // Recipe RexOp1fnaddr8
        155 => fnaddr8(OpForm::RexOp1, bits, ops, sink),
        // Recipe Op1allones_fnaddr4
        156 => allones_fnaddr4(OpForm::Op1, bits, ops, sink),
        // Recipe RexOp1allones_fnaddr8
        157 => allones_fnaddr8(OpForm::RexOp1, bits, ops, sink),
        // Recipe RexOp1pcrel_fnaddr8
        158 => pcrel_fnaddr8(OpForm::RexOp1, bits, ops, sink),
        // Recipe RexOp1got_fnaddr8
        159 => got_fnaddr8(OpForm::RexOp1, bits, ops, sink),
        _ => {},
    }
}

/// What the recipes 160 to 175 require of an instruction with encoding bits `bits`.
pub open spec fn recipe_ok_10(recipe: u16, bits: u16, ops: InstOperands) -> bool {
    match recipe {
        160 => fnaddr4_ok(OpForm::Op1, bits, ops),
        161 => fnaddr8_ok(OpForm::RexOp1, bits, ops),
        162 => pcrel_gvaddr8_ok(OpForm::RexOp1, bits, ops),
        163 => got_gvaddr8_ok(OpForm::RexOp1, bits, ops),
        164 => spaddr4_id_ok(OpForm::Op1, bits, ops),
        165 => spaddr8_id_ok(OpForm::RexOp1, bits, ops),
        166 => call_id_ok(OpForm::Op1, bits, ops),
        167 => call_plt_id_ok(OpForm::Op1, bits, ops),
        168 => call_r_ok(OpForm::Op1, bits, ops),
        169 => call_r_ok(OpForm::RexOp1, bits, ops),
        170 => ret_ok(OpForm::Op1, bits, ops),
        171 => jmpb_ok(OpForm::Op1, bits, ops),
        172 => jmpd_ok(OpForm::Op1, bits, ops),
        173 => brib_ok(OpForm::Op1, bits, ops),
        174 => brib_ok(OpForm::RexOp1, bits, ops),
        175 => brid_ok(OpForm::Op2, bits, ops),
        _ => false,
    }
}

/// What the recipes 160 to 175 emit for an instruction with encoding bits `bits`.
pub open spec fn recipe_emits_10(recipe: u16, bits: u16, ops: InstOperands, s: SinkContents) -> SinkContents {
    match recipe {
        160 => fnaddr4_emits(OpForm::Op1, bits, ops, s),
        161 => fnaddr8_emits(OpForm::RexOp1, bits, ops, s),
        162 => pcrel_gvaddr8_emits(OpForm::RexOp1, bits, ops, s),
        163 => got_gvaddr8_emits(OpForm::RexOp1, bits, ops, s),
        164 => spaddr4_id_emits(OpForm::Op1, bits, ops, s),
        165 => spaddr8_id_emits(OpForm::RexOp1, bits, ops, s),
        166 => call_id_emits(OpForm::Op1, bits, ops, s),
        167 => call_plt_id_emits(OpForm::Op1, bits, ops, s),
        168 => call_r_emits(OpForm::Op1, bits, ops, s),
        169 => call_r_emits(OpForm::RexOp1, bits, ops, s),
        170 => ret_emits(OpForm::Op1, bits, ops, s),
        171 => jmpb_emits(OpForm::Op1, bits, ops, s),
        172 => jmpd_emits(OpForm::Op1, bits, ops, s),
        173 => brib_emits(OpForm::Op1, bits, ops, s),
        174 => brib_emits(OpForm::RexOp1, bits, ops, s),
        175 => brid_emits(OpForm::Op2, bits, ops, s),
        _ => s,
    }
}

/// What the recipes 160 to 175 emit only extends the sink contents.
proof fn recipe_appends_10(recipe: u16, bits: u16, ops: InstOperands, s: SinkContents)
    requires
        160 <= recipe <= 175,
    ensures
        extends(s, recipe_emits_10(recipe, bits, ops, s)),
{
    match recipe {
        160 => fnaddr4_appends(OpForm::Op1, bits, ops, s),
        161 => fnaddr8_appends(OpForm::RexOp1, bits, ops, s),
        162 => pcrel_gvaddr8_appends(OpForm::RexOp1, bits, ops, s),
        163 => got_gvaddr8_appends(OpForm::RexOp1, bits, ops, s),
        164 => spaddr4_id_appends(OpForm::Op1, bits, ops, s),
        165 => spaddr8_id_appends(OpForm::RexOp1, bits, ops, s),
        166 => call_id_appends(OpForm::Op1, bits, ops, s),
        167 => call_plt_id_appends(OpForm::Op1, bits, ops, s),
        168 => call_r_appends(OpForm::Op1, bits, ops, s),
        169 => call_r_appends(OpForm::RexOp1, bits, ops, s),
        170 => ret_appends(OpForm::Op1, bits, ops, s),
        171 => jmpb_appends(OpForm::Op1, bits, ops, s),
        172 => jmpd_appends(OpForm::Op1, bits, ops, s),
        173 => brib_appends(OpForm::Op1, bits, ops, s),
        174 => brib_appends(OpForm::RexOp1, bits, ops, s),
        175 => brid_appends(OpForm::Op2, bits, ops, s),
        _ => {},
    }
}

/// Emit an instruction with one of the recipes 160 to 175.
fn emit_recipe_10(recipe: u16, bits: u16, ops: &InstOperands, sink: &mut CodeSink)
    requires
        160 <= recipe <= 175,
        recipe_ok_10(recipe, bits, *ops),
        old(sink).bytes().len() + 32 <= sink_capacity(),
    ensures
        final(sink)@ == recipe_emits_10(recipe, bits, *ops, old(sink)@),
{
    match recipe {
        // Recipe Op1gvaddr4
        160 => fnaddr4(OpForm::Op1, bits, ops, sink),
        // Recipe RexOp1gvaddr8
        161 => fnaddr8(OpForm::RexOp1, bits, ops, sink),
        // Recipe RexOp1pcrel_gvaddr8
        162 => pcrel_gvaddr8(OpForm::RexOp1, bits, ops, sink),
        // Recipe RexOp1got_gvaddr8
        163 => got_gvaddr8(OpForm::RexOp1, bits, ops, sink),
        // Recipe Op1spaddr4_id
        164 => spaddr4_id(OpForm::Op1, bits, ops, sink),
        // Recipe RexOp1spaddr8_id
        165 => spaddr8_id(OpForm::RexOp1, bits, ops, sink),
        // Recipe Op1call_id
        166 => call_id(OpForm::Op1, bits, ops, sink),
        // Recipe Op1call_plt_id
        167 => call_plt_id(OpForm::Op1, bits, ops, sink),
        // Recipe Op1call_r
        168 => call_r(OpForm::Op1, bits, ops, sink),
        // Recipe RexOp1call_r
        169 => call_r(OpForm::RexOp1, bits, ops, sink),
        // Recipe Op1ret
        170 => ret(OpForm::Op1, bits, ops, sink),
        // Recipe Op1jmpb
        171 => jmpb(OpForm::Op1, bits, ops, sink),
        // Recipe Op1jmpd
        172 => jmpd(OpForm::Op1, bits, ops, sink),
        // Recipe Op1brib
        173 => brib(OpForm::Op1, bits, ops, sink),
        // Recipe RexOp1brib
        174 => brib(OpForm::RexOp1, bits, ops, sink),
        // Recipe Op2brid
        175 => brid(OpForm::Op2, bits, ops, sink),
        _ => {},
    }
}

/// What the recipes 176 to 191 require of an instruction with encoding bits `bits`.
pub open spec fn recipe_ok_11(recipe: u16, bits: u16, ops: InstOperands) -> bool {
    match recipe {
        176 => brid_ok(OpForm::RexOp2, bits, ops),
        177 => brfb_ok(OpForm::Op1, bits, ops),
        178 => brfb_ok(OpForm::RexOp1, bits, ops),
        179 => brfd_ok(OpForm::Op2, bits, ops),
        180 => brfd_ok(OpForm::RexOp2, bits, ops),
        181 => tjccb_ok(OpForm::Op1, bits, ops),
        182 => tjccb_ok(OpForm::RexOp1, bits, ops),
        183 => tjccd_ok(OpForm::Op1, bits, ops),
        184 => tjccd_ok(OpForm::RexOp1, bits, ops),
        185 => t8jccd_long_ok(OpForm::Op1, bits, ops),
        186 => t8jccb_abcd_ok(OpForm::Op1, bits, ops),
        187 => t8jccb_abcd_ok(OpForm::RexOp1, bits, ops),
        188 => t8jccd_abcd_ok(OpForm::Op1, bits, ops),
        189 => t8jccd_abcd_ok(OpForm::RexOp1, bits, ops),
        190 => jt_entry_ok(OpForm::RexOp1, bits, ops),
        191 => jt_entry_ok(OpForm::Op1, bits, ops),
        _ => false,
    }
}

/// What the recipes 176 to 191 emit for an instruction with encoding bits `bits`.
pub open spec fn recipe_emits_11(recipe: u16, bits: u16, ops: InstOperands, s: SinkContents) -> SinkContents {
    match recipe {
        176 => brid_emits(OpForm::RexOp2, bits, ops, s),
        177 => brfb_emits(OpForm::Op1, bits, ops, s),
        178 => brfb_emits(OpForm::RexOp1, bits, ops, s),
        179 => brfd_emits(OpForm::Op2, bits, ops, s),
        180 => brfd_emits(OpForm::RexOp2, bits, ops, s),
        181 => tjccb_emits(OpForm::Op1, bits, ops, s),
        182 => tjccb_emits(OpForm::RexOp1, bits, ops, s),
        183 => tjccd_emits(OpForm::Op1, bits, ops, s),
        184 => tjccd_emits(OpForm::RexOp1, bits, ops, s),
        185 => t8jccd_long_emits(OpForm::Op1, bits, ops, s),
        186 => t8jccb_abcd_emits(OpForm::Op1, bits, ops, s),
        187 => t8jccb_abcd_emits(OpForm::RexOp1, bits, ops, s),
        188 => t8jccd_abcd_emits(OpForm::Op1, bits, ops, s),
        189 => t8jccd_abcd_emits(OpForm::RexOp1, bits, ops, s),
        190 => jt_entry_emits(OpForm::RexOp1, bits, ops, s),
        191 => jt_entry_emits(OpForm::Op1, bits, ops, s),
        _ => s,
    }
}

/// What the recipes 176 to 191 emit only extends the sink contents.
proof fn recipe_appends_11(recipe: u16, bits: u16, ops: InstOperands, s: SinkContents)
    requires
        176 <= recipe <= 191,
    ensures
        extends(s, recipe_emits_11(recipe, bits, ops, s)),
{
    match recipe {
        176 => brid_appends(OpForm::RexOp2, bits, ops, s),
        177 => brfb_appends(OpForm::Op1, bits, ops, s),
        178 => brfb_appends(OpForm::RexOp1, bits, ops, s),
        179 => brfd_appends(OpForm::Op2, bits, ops, s),
        180 => brfd_appends(OpForm::RexOp2, bits, ops, s),
        181 => tjccb_appends(OpForm::Op1, bits, ops, s),
        182 => tjccb_appends(OpForm::RexOp1, bits, ops, s),
        183 => tjccd_appends(OpForm::Op1, bits, ops, s),
        184 => tjccd_appends(OpForm::RexOp1, bits, ops, s),
        185 => t8jccd_long_appends(OpForm::Op1, bits, ops, s),
        186 => t8jccb_abcd_appends(OpForm::Op1, bits, ops, s),
        187 => t8jccb_abcd_appends(OpForm::RexOp1, bits, ops, s),
        188 => t8jccd_abcd_appends(OpForm::Op1, bits, ops, s),
        189 => t8jccd_abcd_appends(OpForm::RexOp1, bits, ops, s),
        190 => jt_entry_appends(OpForm::RexOp1, bits, ops, s),
        191 => jt_entry_appends(OpForm::Op1, bits, ops, s),
        _ => {},
    }
}

/// Emit an instruction with one of the recipes 176 to 191.
fn emit_recipe_11(recipe: u16, bits: u16, ops: &InstOperands, sink: &mut CodeSink)
    requires
        176 <= recipe <= 191,
        recipe_ok_11(recipe, bits, *ops),
        old(sink).bytes().len() + 32 <= sink_capacity(),
    ensures
        final(sink)@ == recipe_emits_11(recipe, bits, *ops, old(sink)@),
{
    match recipe {
        // Recipe RexOp2brid
        176 => brid(OpForm::RexOp2, bits, ops, sink),
        // Recipe Op1brfb
        177 => brfb(OpForm::Op1, bits, ops, sink),
        // Recipe RexOp1brfb
        178 => brfb(OpForm::RexOp1, bits, ops, sink),
        // Recipe Op2brfd
        179 => brfd(OpForm::Op2, bits, ops, sink),
        // Recipe RexOp2brfd
        180 => brfd(OpForm::RexOp2, bits, ops, sink),
        // Recipe Op1tjccb
        181 => tjccb(OpForm::Op1, bits, ops, sink),
        // Recipe RexOp1tjccb
        182 => tjccb(OpForm::RexOp1, bits, ops, sink),
        // Recipe Op1tjccd
        183 => tjccd(OpForm::Op1, bits, ops, sink),
        // Recipe RexOp1tjccd
        184 => tjccd(OpForm::RexOp1, bits, ops, sink),
        // Recipe Op1t8jccd_long
        185 => t8jccd_long(OpForm::Op1, bits, ops, sink),
        // Recipe Op1t8jccb_abcd
        186 => t8jccb_abcd(OpForm::Op1, bits, ops, sink),
        // Recipe RexOp1t8jccb
        187 => t8jccb_abcd(OpForm::RexOp1, bits, ops, sink),
        // Recipe Op1t8jccd_abcd
        188 => t8jccd_abcd(OpForm::Op1, bits, ops, sink),
        // Recipe RexOp1t8jccd
        189 => t8jccd_abcd(OpForm::RexOp1, bits, ops, sink),
        // Recipe RexOp1jt_entry
        190 => jt_entry(OpForm::RexOp1, bits, ops, sink),
        // Recipe Op1jt_entry
        191 => jt_entry(OpForm::Op1, bits, ops, sink),
        _ => {},
    }
}

/// What the recipes 192 to 207 require of an instruction with encoding bits `bits`.
pub open spec fn recipe_ok_12(recipe: u16, bits: u16, ops: InstOperands) -> bool {
    match recipe {
        192 => jt_base_ok(OpForm::RexOp1, bits, ops),
        193 => jt_base_ok(OpForm::Op1, bits, ops),
        194 => ur_ok(OpForm::RexOp1, bits, ops),
        195 => ur_ok(OpForm::Op1, bits, ops),
        196 => trap_ok(OpForm::Op2, bits, ops),
        197 => debugtrap_ok(OpForm::Op1, bits, ops),
        198 => trapif_ok(OpForm::Op1, bits, ops),
        199 => trapff_ok(OpForm::Op1, bits, ops),
        200 => icscc_ok(OpForm::Op1, bits, ops),
        201 => icscc_ok(OpForm::RexOp1, bits, ops),
        202 => icscc_ib_ok(OpForm::Op1, bits, ops),
        203 => icscc_ib_ok(OpForm::RexOp1, bits, ops),
        204 => icscc_id_ok(OpForm::Op1, bits, ops),
        205 => icscc_id_ok(OpForm::RexOp1, bits, ops),
        206 => rr_ok(OpForm::Op1, bits, ops),
        207 => rr_ok(OpForm::RexOp1, bits, ops),
        _ => false,
    }
}

/// What the recipes 192 to 207 emit for an instruction with encoding bits `bits`.
pub open spec fn recipe_emits_12(recipe: u16, bits: u16, ops: InstOperands, s: SinkContents) -> SinkContents {
    match recipe {
        192 => jt_base_emits(OpForm::RexOp1, bits, ops, s),
        193 => jt_base_emits(OpForm::Op1, bits, ops, s),
        194 => ur_emits(OpForm::RexOp1, bits, ops, s),
        195 => ur_emits(OpForm::Op1, bits, ops, s),
        196 => trap_emits(OpForm::Op2, bits, ops, s),
        197 => debugtrap_emits(OpForm::Op1, bits, ops, s),
        198 => trapif_emits(OpForm::Op1, bits, ops, s),
        199 => trapff_emits(OpForm::Op1, bits, ops, s),
        200 => icscc_emits(OpForm::Op1, bits, ops, s),
        201 => icscc_emits(OpForm::RexOp1, bits, ops, s),
        202 => icscc_ib_emits(OpForm::Op1, bits, ops, s),
        203 => icscc_ib_emits(OpForm::RexOp1, bits, ops, s),
        204 => icscc_id_emits(OpForm::Op1, bits, ops, s),
        205 => icscc_id_emits(OpForm::RexOp1, bits, ops, s),
        206 => rr_emits(OpForm::Op1, bits, ops, s),
        207 => rr_emits(OpForm::RexOp1, bits, ops, s),
        _ => s,
    }
}

/// What the recipes 192 to 207 emit only extends the sink contents.
proof fn recipe_appends_12(recipe: u16, bits: u16, ops: InstOperands, s: SinkContents)
    requires
        192 <= recipe <= 207,
    ensures
        extends(s, recipe_emits_12(recipe, bits, ops, s)),
{
    match recipe {
        192 => jt_base_appends(OpForm::RexOp1, bits, ops, s),
        193 => jt_base_appends(OpForm::Op1, bits, ops, s),
        194 => ur_appends(OpForm::RexOp1, bits, ops, s),
        195 => ur_appends(OpForm::Op1, bits, ops, s),
        196 => trap_appends(OpForm::Op2, bits, ops, s),
        197 => debugtrap_appends(OpForm::Op1, bits, ops, s),
        198 => trapif_appends(OpForm::Op1, bits, ops, s),
        199 => trapff_appends(OpForm::Op1, bits, ops, s),
        200 => icscc_appends(OpForm::Op1, bits, ops, s),
        201 => icscc_appends(OpForm::RexOp1, bits, ops, s),
        202 => icscc_ib_appends(OpForm::Op1, bits, ops, s),
        203 => icscc_ib_appends(OpForm::RexOp1, bits, ops, s),
        204 => icscc_id_appends(OpForm::Op1, bits, ops, s),
        205 => icscc_id_appends(OpForm::RexOp1, bits, ops, s),
        206 => rr_appends(OpForm::Op1, bits, ops, s),
        207 => rr_appends(OpForm::RexOp1, bits, ops, s),
        _ => {},
    }
}

/// Emit an instruction with one of the recipes 192 to 207.
fn emit_recipe_12(recipe: u16, bits: u16, ops: &InstOperands, sink: &mut CodeSink)
    requires
        192 <= recipe <= 207,
        recipe_ok_12(recipe, bits, *ops),
        old(sink).bytes().len() + 32 <= sink_capacity(),
    ensures
        final(sink)@ == recipe_emits_12(recipe, bits, *ops, old(sink)@),
{
    match recipe {
        // Recipe RexOp1jt_base
        192 => jt_base(OpForm::RexOp1, bits, ops, sink),
        // Recipe Op1jt_base
        193 => jt_base(OpForm::Op1, bits, ops, sink),
        // Recipe RexOp1indirect_jmp
        194 => ur(OpForm::RexOp1, bits, ops, sink),
        // Recipe Op1indirect_jmp
        195 => ur(OpForm::Op1, bits, ops, sink),
        // Recipe Op2trap
        196 => trap(OpForm::Op2, bits, ops, sink),
        // Recipe debugtrap
        197 => debugtrap(OpForm::Op1, bits, ops, sink),
        // Recipe trapif
        198 => trapif(OpForm::Op1, bits, ops, sink),
        // Recipe trapff
        199 => trapff(OpForm::Op1, bits, ops, sink),
        // Recipe Op1icscc
        200 => icscc(OpForm::Op1, bits, ops, sink),
        // Recipe RexOp1icscc
        201 => icscc(OpForm::RexOp1, bits, ops, sink),
        // Recipe Op1icscc_ib
        202 => icscc_ib(OpForm::Op1, bits, ops, sink),
        // Recipe RexOp1icscc_ib
        203 => icscc_ib(OpForm::RexOp1, bits, ops, sink),
        // Recipe Op1icscc_id
        204 => icscc_id(OpForm::Op1, bits, ops, sink),
        // Recipe RexOp1icscc_id
        205 => icscc_id(OpForm::RexOp1, bits, ops, sink),
        // Recipe Op1rcmp
        206 => rr(OpForm::Op1, bits, ops, sink),
        // Recipe RexOp1rcmp
        207 => rr(OpForm::RexOp1, bits, ops, sink),
        _ => {},
    }
}

/// What the recipes 208 to 223 require of an instruction with encoding bits `bits`.
pub open spec fn recipe_ok_13(recipe: u16, bits: u16, ops: InstOperands) -> bool {
    match recipe {
        208 => r_ib_ok(OpForm::Op1, bits, ops),
        209 => r_ib_ok(OpForm::RexOp1, bits, ops),
        210 => r_id_ok(OpForm::Op1, bits, ops),
        211 => r_id_ok(OpForm::RexOp1, bits, ops),
        212 => rcompare_sp_ok(OpForm::Op1, bits, ops),
        213 => rcompare_sp_ok(OpForm::RexOp1, bits, ops),
        214 => seti_abcd_ok(OpForm::Op2, bits, ops),
        215 => seti_abcd_ok(OpForm::RexOp2, bits, ops),
        216 => setf_abcd_ok(OpForm::Op2, bits, ops),
        217 => setf_abcd_ok(OpForm::RexOp2, bits, ops),
        218 => cmov_ok(OpForm::Op2, bits, ops),
        219 => cmov_ok(OpForm::RexOp2, bits, ops),
        220 => urm_ok(OpForm::Op2, bits, ops),
        221 => urm_ok(OpForm::RexOp2, bits, ops),
        222 => urm_ok(OpForm::RexOp2, bits, ops),
        223 => urm_ok(OpForm::Op2, bits, ops),
        _ => false,
    }
}

/// What the recipes 208 to 223 emit for an instruction with encoding bits `bits`.
pub open spec fn recipe_emits_13(recipe: u16, bits: u16, ops: InstOperands, s: SinkContents) -> SinkContents {
    match recipe {
        208 => r_ib_emits(OpForm::Op1, bits, ops, s),
        209 => r_ib_emits(OpForm::RexOp1, bits, ops, s),
        210 => r_id_emits(OpForm::Op1, bits, ops, s),
        211 => r_id_emits(OpForm::RexOp1, bits, ops, s),
        212 => rcompare_sp_emits(OpForm::Op1, bits, ops, s),
        213 => rcompare_sp_emits(OpForm::RexOp1, bits, ops, s),
        214 => seti_abcd_emits(OpForm::Op2, bits, ops, s),
        215 => seti_abcd_emits(OpForm::RexOp2, bits, ops, s),
        216 => setf_abcd_emits(OpForm::Op2, bits, ops, s),
        217 => setf_abcd_emits(OpForm::RexOp2, bits, ops, s),
        218 => cmov_emits(OpForm::Op2, bits, ops, s),
        219 => cmov_emits(OpForm::RexOp2, bits, ops, s),
        220 => urm_emits(OpForm::Op2, bits, ops, s),
        221 => urm_emits(OpForm::RexOp2, bits, ops, s),
        222 => urm_emits(OpForm::RexOp2, bits, ops, s),
        223 => urm_emits(OpForm::Op2, bits, ops, s),
        _ => s,
    }
}

/// What the recipes 208 to 223 emit only extends the sink contents.
proof fn recipe_appends_13(recipe: u16, bits: u16, ops: InstOperands, s: SinkContents)
    requires
        208 <= recipe <= 223,
    ensures
        extends(s, recipe_emits_13(recipe, bits, ops, s)),
{
    match recipe {
        208 => r_ib_appends(OpForm::Op1, bits, ops, s),
        209 => r_ib_appends(OpForm::RexOp1, bits, ops, s),
        210 => r_id_appends(OpForm::Op1, bits, ops, s),
        211 => r_id_appends(OpForm::RexOp1, bits, ops, s),
        212 => rcompare_sp_appends(OpForm::Op1, bits, ops, s),
        213 => rcompare_sp_appends(OpForm::RexOp1, bits, ops, s),
        214 => seti_abcd_appends(OpForm::Op2, bits, ops, s),
        215 => seti_abcd_appends(OpForm::RexOp2, bits, ops, s),
        216 => setf_abcd_appends(OpForm::Op2, bits, ops, s),
        217 => setf_abcd_appends(OpForm::RexOp2, bits, ops, s),
        218 => cmov_appends(OpForm::Op2, bits, ops, s),
        219 => cmov_appends(OpForm::RexOp2, bits, ops, s),
        220 => urm_appends(OpForm::Op2, bits, ops, s),
        221 => urm_appends(OpForm::RexOp2, bits, ops, s),
        222 => urm_appends(OpForm::RexOp2, bits, ops, s),
        223 => urm_appends(OpForm::Op2, bits, ops, s),
        _ => {},
    }
}

/// Emit an instruction with one of the recipes 208 to 223.
fn emit_recipe_13(recipe: u16, bits: u16, ops: &InstOperands, sink: &mut CodeSink)
    requires
        208 <= recipe <= 223,
        recipe_ok_13(recipe, bits, *ops),
        old(sink).bytes().len() + 32 <= sink_capacity(),
    ensures
        final(sink)@ == recipe_emits_13(recipe, bits, *ops, old(sink)@),
{
    match recipe {
        // Recipe Op1rcmp_ib
        208 => r_ib(OpForm::Op1, bits, ops, sink),
        // Recipe RexOp1rcmp_ib
        209 => r_ib(OpForm::RexOp1, bits, ops, sink),
        // Recipe Op1rcmp_id
        210 => r_id(OpForm::Op1, bits, ops, sink),
        // Recipe RexOp1rcmp_id
        211 => r_id(OpForm::RexOp1, bits, ops, sink),
        // Recipe Op1rcmp_sp
        212 => rcompare_sp(OpForm::Op1, bits, ops, sink),
        // Recipe RexOp1rcmp_sp
        213 => rcompare_sp(OpForm::RexOp1, bits, ops, sink),
        // Recipe Op2seti_abcd
        214 => seti_abcd(OpForm::Op2, bits, ops, sink),
        // Recipe RexOp2seti
        215 => seti_abcd(OpForm::RexOp2, bits, ops, sink),
        // Recipe Op2setf_abcd
        216 => setf_abcd(OpForm::Op2, bits, ops, sink),
        // Recipe RexOp2setf
        217 => setf_abcd(OpForm::RexOp2, bits, ops, sink),
        // Recipe Op2cmov
        218 => cmov(OpForm::Op2, bits, ops, sink),
        // Recipe RexOp2cmov
        219 => cmov(OpForm::RexOp2, bits, ops, sink),
        // Recipe Op2bsf_and_bsr
        220 => urm(OpForm::Op2, bits, ops, sink),
        // Recipe RexOp2bsf_and_bsr
        221 => urm(OpForm::RexOp2, bits, ops, sink),
        // Recipe RexOp2urm_noflags
        222 => urm(OpForm::RexOp2, bits, ops, sink),
        // Recipe Op2urm_noflags_abcd
        223 => urm(OpForm::Op2, bits, ops, sink),
        _ => {},
    }
}

/// What the recipes 224 to 239 require of an instruction with encoding bits `bits`.
pub open spec fn recipe_ok_14(recipe: u16, bits: u16, ops: InstOperands) -> bool {
    match recipe {
        224 => get_pinned_reg_ok(OpForm::Op1, bits, ops),
        225 => urm_ok(OpForm::Op2, bits, ops),
        226 => urm_ok(OpForm::RexOp1, bits, ops),
        227 => u_id_z_ok(OpForm::Op2, bits, ops),
        228 => u_id_z_ok(OpForm::Mp2, bits, ops),
        229 => u_id_z_ok(OpForm::RexOp2, bits, ops),
        230 => u_id_z_ok(OpForm::RexMp2, bits, ops),
        231 => urm_ok(OpForm::Mp2, bits, ops),
        232 => urm_ok(OpForm::RexMp2, bits, ops),
        233 => umr_ok(OpForm::Mp2, bits, ops),
        234 => umr_ok(OpForm::RexMp2, bits, ops),
        235 => urm_ok(OpForm::Op2, bits, ops),
        236 => urm_ok(OpForm::RexOp2, bits, ops),
        237 => frmov_ok(OpForm::Op2, bits, ops),
        238 => frmov_ok(OpForm::RexOp2, bits, ops),
        239 => urm_ok(OpForm::Mp2, bits, ops),
        _ => false,
    }
}

/// What the recipes 224 to 239 emit for an instruction with encoding bits `bits`.
pub open spec fn recipe_emits_14(recipe: u16, bits: u16, ops: InstOperands, s: SinkContents) -> SinkContents {
    match recipe {
        224 => get_pinned_reg_emits(OpForm::Op1, bits, ops, s),
        225 => urm_emits(OpForm::Op2, bits, ops, s),
        226 => urm_emits(OpForm::RexOp1, bits, ops, s),
        227 => u_id_z_emits(OpForm::Op2, bits, ops, s),
        228 => u_id_z_emits(OpForm::Mp2, bits, ops, s),
        229 => u_id_z_emits(OpForm::RexOp2, bits, ops, s),
        230 => u_id_z_emits(OpForm::RexMp2, bits, ops, s),
        231 => urm_emits(OpForm::Mp2, bits, ops, s),
        232 => urm_emits(OpForm::RexMp2, bits, ops, s),
        233 => umr_emits(OpForm::Mp2, bits, ops, s),
        234 => umr_emits(OpForm::RexMp2, bits, ops, s),
        235 => urm_emits(OpForm::Op2, bits, ops, s),
        236 => urm_emits(OpForm::RexOp2, bits, ops, s),
        237 => frmov_emits(OpForm::Op2, bits, ops, s),
        238 => frmov_emits(OpForm::RexOp2, bits, ops, s),
        239 => urm_emits(OpForm::Mp2, bits, ops, s),
        _ => s,
    }
}

/// What the recipes 224 to 239 emit only extends the sink contents.
proof fn recipe_appends_14(recipe: u16, bits: u16, ops: InstOperands, s: SinkContents)
    requires
        224 <= recipe <= 239,
    ensures
        extends(s, recipe_emits_14(recipe, bits, ops, s)),
{
    match recipe {
        224 => get_pinned_reg_appends(OpForm::Op1, bits, ops, s),
        225 => urm_appends(OpForm::Op2, bits, ops, s),
        226 => urm_appends(OpForm::RexOp1, bits, ops, s),
        227 => u_id_z_appends(OpForm::Op2, bits, ops, s),
        228 => u_id_z_appends(OpForm::Mp2, bits, ops, s),
        229 => u_id_z_appends(OpForm::RexOp2, bits, ops, s),
        230 => u_id_z_appends(OpForm::RexMp2, bits, ops, s),
        231 => urm_appends(OpForm::Mp2, bits, ops, s),
        232 => urm_appends(OpForm::RexMp2, bits, ops, s),
        233 => umr_appends(OpForm::Mp2, bits, ops, s),
        234 => umr_appends(OpForm::RexMp2, bits, ops, s),
        235 => urm_appends(OpForm::Op2, bits, ops, s),
        236 => urm_appends(OpForm::RexOp2, bits, ops, s),
        237 => frmov_appends(OpForm::Op2, bits, ops, s),
        238 => frmov_appends(OpForm::RexOp2, bits, ops, s),
        239 => urm_appends(OpForm::Mp2, bits, ops, s),
        _ => {},
    }
}

/// Emit an instruction with one of the recipes 224 to 239.
fn emit_recipe_14(recipe: u16, bits: u16, ops: &InstOperands, sink: &mut CodeSink)
    requires
        224 <= recipe <= 239,
        recipe_ok_14(recipe, bits, *ops),
        old(sink).bytes().len() + 32 <= sink_capacity(),
    ensures
        final(sink)@ == recipe_emits_14(recipe, bits, *ops, old(sink)@),
{
    match recipe {
        // Recipe null
        224 => get_pinned_reg(OpForm::Op1, bits, ops, sink),
        // Recipe Op2urm_noflags
        225 => urm(OpForm::Op2, bits, ops, sink),
        // Recipe RexOp1urm_noflags
        226 => urm(OpForm::RexOp1, bits, ops, sink),
        // Recipe Op2f32imm_z
        227 => u_id_z(OpForm::Op2, bits, ops, sink),
        // Recipe Mp2f64imm_z
        228 => u_id_z(OpForm::Mp2, bits, ops, sink),
        // Recipe RexOp2f32imm_z
        229 => u_id_z(OpForm::RexOp2, bits, ops, sink),
        // Recipe RexMp2f64imm_z
        230 => u_id_z(OpForm::RexMp2, bits, ops, sink),
        // Recipe Mp2frurm
        231 => urm(OpForm::Mp2, bits, ops, sink),
        // Recipe RexMp2frurm
        232 => urm(OpForm::RexMp2, bits, ops, sink),
        // Recipe Mp2rfumr
        233 => umr(OpForm::Mp2, bits, ops, sink),
        // Recipe RexMp2rfumr
        234 => umr(OpForm::RexMp2, bits, ops, sink),
        // Recipe Op2furm
        235 => urm(OpForm::Op2, bits, ops, sink),
        // Recipe RexOp2furm
        236 => urm(OpForm::RexOp2, bits, ops, sink),
        // Recipe Op2frmov
        237 => frmov(OpForm::Op2, bits, ops, sink),
        // Recipe RexOp2frmov
        238 => frmov(OpForm::RexOp2, bits, ops, sink),
        // Recipe Mp2furm
        239 => urm(OpForm::Mp2, bits, ops, sink),
        _ => {},
    }
}

/// What the recipes 240 to 255 require of an instruction with encoding bits `bits`.
pub open spec fn recipe_ok_15(recipe: u16, bits: u16, ops: InstOperands) -> bool {
    match recipe {
        240 => urm_ok(OpForm::RexMp2, bits, ops),
        241 => urm_ok(OpForm::Mp2, bits, ops),
        242 => urm_ok(OpForm::RexMp2, bits, ops),
        243 => furmi_rnd_ok(OpForm::Mp3, bits, ops),
        244 => furmi_rnd_ok(OpForm::RexMp3, bits, ops),
        245 => rrx_ok(OpForm::Mp2, bits, ops),
        246 => rrx_ok(OpForm::RexMp2, bits, ops),
        247 => rrx_ok(OpForm::Op2, bits, ops),
        248 => rrx_ok(OpForm::RexOp2, bits, ops),
        249 => rr_ok(OpForm::Op2, bits, ops),
        250 => rr_ok(OpForm::RexOp2, bits, ops),
        251 => fcscc_ok(OpForm::Op2, bits, ops),
        252 => fcscc_ok(OpForm::RexOp2, bits, ops),
        253 => fcscc_ok(OpForm::Mp2, bits, ops),
        254 => fcscc_ok(OpForm::RexMp2, bits, ops),
        255 => rrx_ok(OpForm::Op2, bits, ops),
        _ => false,
    }
}

/// What the recipes 240 to 255 emit for an instruction with encoding bits `bits`.
pub open spec fn recipe_emits_15(recipe: u16, bits: u16, ops: InstOperands, s: SinkContents) -> SinkContents {
    match recipe {
        240 => urm_emits(OpForm::RexMp2, bits, ops, s),
        241 => urm_emits(OpForm::Mp2, bits, ops, s),
        242 => urm_emits(OpForm::RexMp2, bits, ops, s),
        243 => furmi_rnd_emits(OpForm::Mp3, bits, ops, s),
        244 => furmi_rnd_emits(OpForm::RexMp3, bits, ops, s),
        245 => rrx_emits(OpForm::Mp2, bits, ops, s),
        246 => rrx_emits(OpForm::RexMp2, bits, ops, s),
        247 => rrx_emits(OpForm::Op2, bits, ops, s),
        248 => rrx_emits(OpForm::RexOp2, bits, ops, s),
        249 => rr_emits(OpForm::Op2, bits, ops, s),
        250 => rr_emits(OpForm::RexOp2, bits, ops, s),
        251 => fcscc_emits(OpForm::Op2, bits, ops, s),
        252 => fcscc_emits(OpForm::RexOp2, bits, ops, s),
        253 => fcscc_emits(OpForm::Mp2, bits, ops, s),
        254 => fcscc_emits(OpForm::RexMp2, bits, ops, s),
        255 => rrx_emits(OpForm::Op2, bits, ops, s),
        _ => s,
    }
}

/// What the recipes 240 to 255 emit only extends the sink contents.
proof fn recipe_appends_15(recipe: u16, bits: u16, ops: InstOperands, s: SinkContents)
    requires
        240 <= recipe <= 255,
    ensures
        extends(s, recipe_emits_15(recipe, bits, ops, s)),
{
    match recipe {
        240 => urm_appends(OpForm::RexMp2, bits, ops, s),
        241 => urm_appends(OpForm::Mp2, bits, ops, s),
        242 => urm_appends(OpForm::RexMp2, bits, ops, s),
        243 => furmi_rnd_appends(OpForm::Mp3, bits, ops, s),
        244 => furmi_rnd_appends(OpForm::RexMp3, bits, ops, s),
        245 => rrx_appends(OpForm::Mp2, bits, ops, s),
        246 => rrx_appends(OpForm::RexMp2, bits, ops, s),
        247 => rrx_appends(OpForm::Op2, bits, ops, s),
        248 => rrx_appends(OpForm::RexOp2, bits, ops, s),
        249 => rr_appends(OpForm::Op2, bits, ops, s),
        250 => rr_appends(OpForm::RexOp2, bits, ops, s),
        251 => fcscc_appends(OpForm::Op2, bits, ops, s),
        252 => fcscc_appends(OpForm::RexOp2, bits, ops, s),
        253 => fcscc_appends(OpForm::Mp2, bits, ops, s),
        254 => fcscc_appends(OpForm::RexMp2, bits, ops, s),
        255 => rrx_appends(OpForm::Op2, bits, ops, s),
        _ => {},
    }
}

/// Emit an instruction with one of the recipes 240 to 255.
fn emit_recipe_15(recipe: u16, bits: u16, ops: &InstOperands, sink: &mut CodeSink)
    requires
        240 <= recipe <= 255,
        recipe_ok_15(recipe, bits, *ops),
        old(sink).bytes().len() + 32 <= sink_capacity(),
    ensures
        final(sink)@ == recipe_emits_15(recipe, bits, *ops, old(sink)@),
{
    match recipe {
        // Recipe RexMp2furm
        240 => urm(OpForm::RexMp2, bits, ops, sink),
        // Recipe Mp2rfurm
        241 => urm(OpForm::Mp2, bits, ops, sink),
        // Recipe RexMp2rfurm
        242 => urm(OpForm::RexMp2, bits, ops, sink),
        // Recipe Mp3furmi_rnd
        243 => furmi_rnd(OpForm::Mp3, bits, ops, sink),
        // Recipe RexMp3furmi_rnd
        244 => furmi_rnd(OpForm::RexMp3, bits, ops, sink),
        // Recipe Mp2fa
        245 => rrx(OpForm::Mp2, bits, ops, sink),
        // Recipe RexMp2fa
        246 => rrx(OpForm::RexMp2, bits, ops, sink),
        // Recipe Op2fa
        247 => rrx(OpForm::Op2, bits, ops, sink),
        // Recipe RexOp2fa
        248 => rrx(OpForm::RexOp2, bits, ops, sink),
        // Recipe Op2fax
        249 => rr(OpForm::Op2, bits, ops, sink),
        // Recipe RexOp2fax
        250 => rr(OpForm::RexOp2, bits, ops, sink),
        // Recipe Op2fcscc
        251 => fcscc(OpForm::Op2, bits, ops, sink),
        // Recipe RexOp2fcscc
        252 => fcscc(OpForm::RexOp2, bits, ops, sink),
        // Recipe Mp2fcscc
        253 => fcscc(OpForm::Mp2, bits, ops, sink),
        // Recipe RexMp2fcscc
        254 => fcscc(OpForm::RexMp2, bits, ops, sink),
        // Recipe Op2fcmp
        255 => rrx(OpForm::Op2, bits, ops, sink),
        _ => {},
    }
}

/// What the recipes 256 to 271 require of an instruction with encoding bits `bits`.
pub open spec fn recipe_ok_16(recipe: u16, bits: u16, ops: InstOperands) -> bool {
    match recipe {
        256 => rrx_ok(OpForm::RexOp2, bits, ops),
        257 => rrx_ok(OpForm::Mp2, bits, ops),
        258 => rrx_ok(OpForm::RexMp2, bits, ops),
        259 => rrx_ok(OpForm::Mp3, bits, ops),
        260 => r_ib_unsigned_fpr_ok(OpForm::Mp2, bits, ops),
        261 => get_pinned_reg_ok(OpForm::Op1, bits, ops),
        262 => r_ib_unsigned_r_ok(OpForm::Mp3, bits, ops),
        263 => r_ib_unsigned_r_ok(OpForm::Mp2, bits, ops),
        264 => r_ib_unsigned_r_ok(OpForm::RexMp3, bits, ops),
        265 => r_ib_unsigned_r_ok(OpForm::Mp3, bits, ops),
        266 => r_ib_unsigned_gpr_ok(OpForm::Mp3, bits, ops),
        267 => r_ib_unsigned_gpr_ok(OpForm::RexMp3, bits, ops),
        268 => u_id_z_ok(OpForm::Mp2, bits, ops),
        269 => vconst_ok(OpForm::Op2, bits, ops),
        270 => st_ok(OpForm::Op2, bits, ops),
        271 => st_disp8_ok(OpForm::Op2, bits, ops),
        _ => false,
    }
}

/// What the recipes 256 to 271 emit for an instruction with encoding bits `bits`.
pub open spec fn recipe_emits_16(recipe: u16, bits: u16, ops: InstOperands, s: SinkContents) -> SinkContents {
    match recipe {
        256 => rrx_emits(OpForm::RexOp2, bits, ops, s),
        257 => rrx_emits(OpForm::Mp2, bits, ops, s),
        258 => rrx_emits(OpForm::RexMp2, bits, ops, s),
        259 => rrx_emits(OpForm::Mp3, bits, ops, s),
        260 => r_ib_unsigned_fpr_emits(OpForm::Mp2, bits, ops, s),
        261 => get_pinned_reg_emits(OpForm::Op1, bits, ops, s),
        262 => r_ib_unsigned_r_emits(OpForm::Mp3, bits, ops, s),
        263 => r_ib_unsigned_r_emits(OpForm::Mp2, bits, ops, s),
        264 => r_ib_unsigned_r_emits(OpForm::RexMp3, bits, ops, s),
        265 => r_ib_unsigned_r_emits(OpForm::Mp3, bits, ops, s),
        266 => r_ib_unsigned_gpr_emits(OpForm::Mp3, bits, ops, s),
        267 => r_ib_unsigned_gpr_emits(OpForm::RexMp3, bits, ops, s),
        268 => u_id_z_emits(OpForm::Mp2, bits, ops, s),
        269 => vconst_emits(OpForm::Op2, bits, ops, s),
        270 => st_emits(OpForm::Op2, bits, ops, s),
        271 => st_disp8_emits(OpForm::Op2, bits, ops, s),
        _ => s,
    }
}

/// What the recipes 256 to 271 emit only extends the sink contents.
proof fn recipe_appends_16(recipe: u16, bits: u16, ops: InstOperands, s: SinkContents)
    requires
        256 <= recipe <= 271,
    ensures
        extends(s, recipe_emits_16(recipe, bits, ops, s)),
{
    match recipe {
        256 => rrx_appends(OpForm::RexOp2, bits, ops, s),
        257 => rrx_appends(OpForm::Mp2, bits, ops, s),
        258 => rrx_appends(OpForm::RexMp2, bits, ops, s),
        259 => rrx_appends(OpForm::Mp3, bits, ops, s),
        260 => r_ib_unsigned_fpr_appends(OpForm::Mp2, bits, ops, s),
        261 => get_pinned_reg_appends(OpForm::Op1, bits, ops, s),
        262 => r_ib_unsigned_r_appends(OpForm::Mp3, bits, ops, s),
        263 => r_ib_unsigned_r_appends(OpForm::Mp2, bits, ops, s),
        264 => r_ib_unsigned_r_appends(OpForm::RexMp3, bits, ops, s),
        265 => r_ib_unsigned_r_appends(OpForm::Mp3, bits, ops, s),
        266 => r_ib_unsigned_gpr_appends(OpForm::Mp3, bits, ops, s),
        267 => r_ib_unsigned_gpr_appends(OpForm::RexMp3, bits, ops, s),
        268 => u_id_z_appends(OpForm::Mp2, bits, ops, s),
        269 => vconst_appends(OpForm::Op2, bits, ops, s),
        270 => st_appends(OpForm::Op2, bits, ops, s),
        271 => st_disp8_appends(OpForm::Op2, bits, ops, s),
        _ => {},
    }
}

/// Emit an instruction with one of the recipes 256 to 271.
fn emit_recipe_16(recipe: u16, bits: u16, ops: &InstOperands, sink: &mut CodeSink)
    requires
        256 <= recipe <= 271,
        recipe_ok_16(recipe, bits, *ops),
        old(sink).bytes().len() + 32 <= sink_capacity(),
    ensures
        final(sink)@ == recipe_emits_16(recipe, bits, *ops, old(sink)@),
{
    match recipe {
        // Recipe RexOp2fcmp
        256 => rrx(OpForm::RexOp2, bits, ops, sink),
        // Recipe Mp2fcmp
        257 => rrx(OpForm::Mp2, bits, ops, sink),
        // Recipe RexMp2fcmp
        258 => rrx(OpForm::RexMp2, bits, ops, sink),
        // Recipe Mp3fa
        259 => rrx(OpForm::Mp3, bits, ops, sink),
        // Recipe Mp2r_ib_unsigned_fpr
        260 => r_ib_unsigned_fpr(OpForm::Mp2, bits, ops, sink),
        // Recipe null_fpr
        261 => get_pinned_reg(OpForm::Op1, bits, ops, sink),
        // Recipe Mp3r_ib_unsigned_r
        262 => r_ib_unsigned_r(OpForm::Mp3, bits, ops, sink),
        // Recipe Mp2r_ib_unsigned_r
        263 => r_ib_unsigned_r(OpForm::Mp2, bits, ops, sink),
        // Recipe RexMp3r_ib_unsigned_r
        264 => r_ib_unsigned_r(OpForm::RexMp3, bits, ops, sink),
        // Recipe Mp3fa_ib
        265 => r_ib_unsigned_r(OpForm::Mp3, bits, ops, sink),
        // Recipe Mp3r_ib_unsigned_gpr
        266 => r_ib_unsigned_gpr(OpForm::Mp3, bits, ops, sink),
        // Recipe RexMp3r_ib_unsigned_gpr
        267 => r_ib_unsigned_gpr(OpForm::RexMp3, bits, ops, sink),
        // Recipe Mp2vconst_optimized
        268 => u_id_z(OpForm::Mp2, bits, ops, sink),
        // Recipe Op2vconst
        269 => vconst(OpForm::Op2, bits, ops, sink),
        // Recipe Op2fst
        270 => st(OpForm::Op2, bits, ops, sink),
        // Recipe Op2fstDisp8
        271 => st_disp8(OpForm::Op2, bits, ops, sink),
        _ => {},
    }
}

/// What the recipes 272 to 287 require of an instruction with encoding bits `bits`.
pub open spec fn recipe_ok_17(recipe: u16, bits: u16, ops: InstOperands) -> bool {
    match recipe {
        272 => st_disp32_ok(OpForm::Op2, bits, ops),
        273 => ld_ok(OpForm::Op2, bits, ops),
        274 => ld_disp8_ok(OpForm::Op2, bits, ops),
        275 => ld_disp32_ok(OpForm::Op2, bits, ops),
        276 => spill_sib32_ok(OpForm::Op2, bits, ops),
        277 => regspill32_ok(OpForm::Op2, bits, ops),
        278 => fill_sib32_ok(OpForm::Op2, bits, ops),
        279 => regfill32_ok(OpForm::Op2, bits, ops),
        280 => rr_ok(OpForm::Mp2, bits, ops),
        281 => rrx_ok(OpForm::Mp3, bits, ops),
        282 => icscc_fpr_ok(OpForm::Mp2, bits, ops),
        283 => icscc_fpr_ok(OpForm::Mp3, bits, ops),
        284 => pu_id_ref_ok(OpForm::Op1, bits, ops),
        285 => pu_id_ref_ok(OpForm::RexOp1, bits, ops),
        286 => is_zero_ok(OpForm::Op1, bits, ops),
        287 => is_zero_ok(OpForm::RexOp1, bits, ops),
        _ => false,
    }
}

/// What the recipes 272 to 287 emit for an instruction with encoding bits `bits`.
pub open spec fn recipe_emits_17(recipe: u16, bits: u16, ops: InstOperands, s: SinkContents) -> SinkContents {
    match recipe {
        272 => st_disp32_emits(OpForm::Op2, bits, ops, s),
        273 => ld_emits(OpForm::Op2, bits, ops, s),
        274 => ld_disp8_emits(OpForm::Op2, bits, ops, s),
        275 => ld_disp32_emits(OpForm::Op2, bits, ops, s),
        276 => spill_sib32_emits(OpForm::Op2, bits, ops, s),
        277 => regspill32_emits(OpForm::Op2, bits, ops, s),
        278 => fill_sib32_emits(OpForm::Op2, bits, ops, s),
        279 => regfill32_emits(OpForm::Op2, bits, ops, s),
        280 => rr_emits(OpForm::Mp2, bits, ops, s),
        281 => rrx_emits(OpForm::Mp3, bits, ops, s),
        282 => icscc_fpr_emits(OpForm::Mp2, bits, ops, s),
        283 => icscc_fpr_emits(OpForm::Mp3, bits, ops, s),
        284 => pu_id_ref_emits(OpForm::Op1, bits, ops, s),
        285 => pu_id_ref_emits(OpForm::RexOp1, bits, ops, s),
        286 => is_zero_emits(OpForm::Op1, bits, ops, s),
        287 => is_zero_emits(OpForm::RexOp1, bits, ops, s),
        _ => s,
    }
}

/// What the recipes 272 to 287 emit only extends the sink contents.
proof fn recipe_appends_17(recipe: u16, bits: u16, ops: InstOperands, s: SinkContents)
    requires
        272 <= recipe <= 287,
    ensures
        extends(s, recipe_emits_17(recipe, bits, ops, s)),
{
    match recipe {
        272 => st_disp32_appends(OpForm::Op2, bits, ops, s),
        273 => ld_appends(OpForm::Op2, bits, ops, s),
        274 => ld_disp8_appends(OpForm::Op2, bits, ops, s),
        275 => ld_disp32_appends(OpForm::Op2, bits, ops, s),
        276 => spill_sib32_appends(OpForm::Op2, bits, ops, s),
        277 => regspill32_appends(OpForm::Op2, bits, ops, s),
        278 => fill_sib32_appends(OpForm::Op2, bits, ops, s),
        279 => regfill32_appends(OpForm::Op2, bits, ops, s),
        280 => rr_appends(OpForm::Mp2, bits, ops, s),
        281 => rrx_appends(OpForm::Mp3, bits, ops, s),
        282 => icscc_fpr_appends(OpForm::Mp2, bits, ops, s),
        283 => icscc_fpr_appends(OpForm::Mp3, bits, ops, s),
        284 => pu_id_ref_appends(OpForm::Op1, bits, ops, s),
        285 => pu_id_ref_appends(OpForm::RexOp1, bits, ops, s),
        286 => is_zero_appends(OpForm::Op1, bits, ops, s),
        287 => is_zero_appends(OpForm::RexOp1, bits, ops, s),
        _ => {},
    }
}

/// Emit an instruction with one of the recipes 272 to 287.
fn emit_recipe_17(recipe: u16, bits: u16, ops: &InstOperands, sink: &mut CodeSink)
    requires
        272 <= recipe <= 287,
        recipe_ok_17(recipe, bits, *ops),
        old(sink).bytes().len() + 32 <= sink_capacity(),
    ensures
        final(sink)@ == recipe_emits_17(recipe, bits, *ops, old(sink)@),
{
    match recipe {
        // Recipe Op2fstDisp32
        272 => st_disp32(OpForm::Op2, bits, ops, sink),
        // Recipe Op2fld
        273 => ld(OpForm::Op2, bits, ops, sink),
        // Recipe Op2fldDisp8
        274 => ld_disp8(OpForm::Op2, bits, ops, sink),
        // Recipe Op2fldDisp32
        275 => ld_disp32(OpForm::Op2, bits, ops, sink),
        // Recipe Op2fspillSib32
        276 => spill_sib32(OpForm::Op2, bits, ops, sink),
        // Recipe Op2fregspill32
        277 => regspill32(OpForm::Op2, bits, ops, sink),
        // Recipe Op2ffillSib32
        278 => fill_sib32(OpForm::Op2, bits, ops, sink),
        // Recipe Op2fregfill32
        279 => regfill32(OpForm::Op2, bits, ops, sink),
        // Recipe Mp2fax
        280 => rr(OpForm::Mp2, bits, ops, sink),
        // Recipe Mp3fcmp
        281 => rrx(OpForm::Mp3, bits, ops, sink),
        // Recipe Mp2icscc_fpr
        282 => icscc_fpr(OpForm::Mp2, bits, ops, sink),
        // Recipe Mp3icscc_fpr
        283 => icscc_fpr(OpForm::Mp3, bits, ops, sink),
        // Recipe Op1pu_id_ref
        284 => pu_id_ref(OpForm::Op1, bits, ops, sink),
        // Recipe RexOp1pu_id_ref
        285 => pu_id_ref(OpForm::RexOp1, bits, ops, sink),
        // Recipe Op1is_zero
        286 => is_zero(OpForm::Op1, bits, ops, sink),
        // Recipe RexOp1is_zero
        287 => is_zero(OpForm::RexOp1, bits, ops, sink),
        _ => {},
    }
}

/// What the recipes 288 to 288 require of an instruction with encoding bits `bits`.
pub open spec fn recipe_ok_18(recipe: u16, bits: u16, ops: InstOperands) -> bool {
    match recipe {
        288 => safepoint_ok(OpForm::Op1, bits, ops),
        _ => false,
    }
}

/// What the recipes 288 to 288 emit for an instruction with encoding bits `bits`.
pub open spec fn recipe_emits_18(recipe: u16, bits: u16, ops: InstOperands, s: SinkContents) -> SinkContents {
    match recipe {
        288 => safepoint_emits(OpForm::Op1, bits, ops, s),
        _ => s,
    }
}

/// What the recipes 288 to 288 emit only extends the sink contents.
proof fn recipe_appends_18(recipe: u16, bits: u16, ops: InstOperands, s: SinkContents)
    requires
        288 <= recipe <= 288,
    ensures
        extends(s, recipe_emits_18(recipe, bits, ops, s)),
{
    match recipe {
        288 => safepoint_appends(OpForm::Op1, bits, ops, s),
        _ => {},
    }
}

/// Emit an instruction with one of the recipes 288 to 288.
fn emit_recipe_18(recipe: u16, bits: u16, ops: &InstOperands, sink: &mut CodeSink)
    requires
        288 <= recipe <= 288,
        recipe_ok_18(recipe, bits, *ops),
        old(sink).bytes().len() + 32 <= sink_capacity(),
    ensures
        final(sink)@ == recipe_emits_18(recipe, bits, *ops, old(sink)@),
{
    match recipe {
        // Recipe safepoint
        288 => safepoint(OpForm::Op1, bits, ops, sink),
        _ => {},
    }
}

/// What a recipe requires of an instruction with encoding bits `bits`.
pub open spec fn recipe_ok(recipe: u16, bits: u16, ops: InstOperands) -> bool {
    if recipe <= 15 {
        recipe_ok_0(recipe, bits, ops)
    } else if recipe <= 31 {
        recipe_ok_1(recipe, bits, ops)
    } else if recipe <= 47 {
        recipe_ok_2(recipe, bits, ops)
    } else if recipe <= 63 {
        recipe_ok_3(recipe, bits, ops)
    } else if recipe <= 79 {
        recipe_ok_4(recipe, bits, ops)
    } else if recipe <= 95 {
        recipe_ok_5(recipe, bits, ops)
    } else if recipe <= 111 {
        recipe_ok_6(recipe, bits, ops)
    } else if recipe <= 127 {
        recipe_ok_7(recipe, bits, ops)
    } else if recipe <= 143 {
        recipe_ok_8(recipe, bits, ops)
    } else if recipe <= 159 {
        recipe_ok_9(recipe, bits, ops)
    } else if recipe <= 175 {
        recipe_ok_10(recipe, bits, ops)
    } else if recipe <= 191 {
        recipe_ok_11(recipe, bits, ops)
    } else if recipe <= 207 {
        recipe_ok_12(recipe, bits, ops)
    } else if recipe <= 223 {
        recipe_ok_13(recipe, bits, ops)
    } else if recipe <= 239 {
        recipe_ok_14(recipe, bits, ops)
    } else if recipe <= 255 {
        recipe_ok_15(recipe, bits, ops)
    } else if recipe <= 271 {
        recipe_ok_16(recipe, bits, ops)
    } else if recipe <= 287 {
        recipe_ok_17(recipe, bits, ops)
    } else if recipe < NUM_RECIPES {
        recipe_ok_18(recipe, bits, ops)
    } else {
        false
    }
}

/// What a recipe emits for an instruction with encoding bits `bits`: the sink contents `s` with
/// the instruction appended.
pub open spec fn recipe_emits(recipe: u16, bits: u16, ops: InstOperands, s: SinkContents) -> SinkContents {
    if recipe <= 15 {
        recipe_emits_0(recipe, bits, ops, s)
    } else if recipe <= 31 {
        recipe_emits_1(recipe, bits, ops, s)
    } else if recipe <= 47 {
        recipe_emits_2(recipe, bits, ops, s)
    } else if recipe <= 63 {
        recipe_emits_3(recipe, bits, ops, s)
    } else if recipe <= 79 {
        recipe_emits_4(recipe, bits, ops, s)
    } else if recipe <= 95 {
        recipe_emits_5(recipe, bits, ops, s)
    } else if recipe <= 111 {
        recipe_emits_6(recipe, bits, ops, s)
    } else if recipe <= 127 {
        recipe_emits_7(recipe, bits, ops, s)
    } else if recipe <= 143 {
        recipe_emits_8(recipe, bits, ops, s)
    } else if recipe <= 159 {
        recipe_emits_9(recipe, bits, ops, s)
    } else if recipe <= 175 {
        recipe_emits_10(recipe, bits, ops, s)
    } else if recipe <= 191 {
        recipe_emits_11(recipe, bits, ops, s)
    } else if recipe <= 207 {
        recipe_emits_12(recipe, bits, ops, s)
    } else if recipe <= 223 {
        recipe_emits_13(recipe, bits, ops, s)
    } else if recipe <= 239 {
        recipe_emits_14(recipe, bits, ops, s)
    } else if recipe <= 255 {
        recipe_emits_15(recipe, bits, ops, s)
    } else if recipe <= 271 {
        recipe_emits_16(recipe, bits, ops, s)
    } else if recipe <= 287 {
        recipe_emits_17(recipe, bits, ops, s)
    } else if recipe < NUM_RECIPES {
        recipe_emits_18(recipe, bits, ops, s)
    } else {
        s
    }
}

/// What any recipe emits only extends the sink contents.
pub proof fn recipe_appends(recipe: u16, bits: u16, ops: InstOperands, s: SinkContents)
    ensures
        extends(s, recipe_emits(recipe, bits, ops, s)),
{
    if recipe <= 15 {
        recipe_appends_0(recipe, bits, ops, s);
    } else if recipe <= 31 {
        recipe_appends_1(recipe, bits, ops, s);
    } else if recipe <= 47 {
        recipe_appends_2(recipe, bits, ops, s);
    } else if recipe <= 63 {
        recipe_appends_3(recipe, bits, ops, s);
    } else if recipe <= 79 {
        recipe_appends_4(recipe, bits, ops, s);
    } else if recipe <= 95 {
        recipe_appends_5(recipe, bits, ops, s);
    } else if recipe <= 111 {
        recipe_appends_6(recipe, bits, ops, s);
    } else if recipe <= 127 {
        recipe_appends_7(recipe, bits, ops, s);
    } else if recipe <= 143 {
        recipe_appends_8(recipe, bits, ops, s);
    } else if recipe <= 159 {
        recipe_appends_9(recipe, bits, ops, s);
    } else if recipe <= 175 {
        recipe_appends_10(recipe, bits, ops, s);
    } else if recipe <= 191 {
        recipe_appends_11(recipe, bits, ops, s);
    } else if recipe <= 207 {
        recipe_appends_12(recipe, bits, ops, s);
    } else if recipe <= 223 {
        recipe_appends_13(recipe, bits, ops, s);
    } else if recipe <= 239 {
        recipe_appends_14(recipe, bits, ops, s);
    } else if recipe <= 255 {
        recipe_appends_15(recipe, bits, ops, s);
    } else if recipe <= 271 {
        recipe_appends_16(recipe, bits, ops, s);
    } else if recipe <= 287 {
        recipe_appends_17(recipe, bits, ops, s);
    } else if recipe <= 288 {
        recipe_appends_18(recipe, bits, ops, s);
    } else {
        assert(extends(s, s));
    }
}

/// Emit an instruction with the given recipe.
pub fn emit_recipe(recipe: u16, bits: u16, ops: &InstOperands, sink: &mut CodeSink)
    requires
        recipe < NUM_RECIPES,
        recipe_ok(recipe, bits, *ops),
        old(sink).bytes().len() + 32 <= sink_capacity(),
    ensures
        final(sink)@ == recipe_emits(recipe, bits, *ops, old(sink)@),
{
    if recipe <= 15 {
        emit_recipe_0(recipe, bits, ops, sink);
    } else if recipe <= 31 {
        emit_recipe_1(recipe, bits, ops, sink);
    } else if recipe <= 47 {
        emit_recipe_2(recipe, bits, ops, sink);
    } else if recipe <= 63 {
        emit_recipe_3(recipe, bits, ops, sink);
    } else if recipe <= 79 {
        emit_recipe_4(recipe, bits, ops, sink);
    } else if recipe <= 95 {
        emit_recipe_5(recipe, bits, ops, sink);
    } else if recipe <= 111 {
        emit_recipe_6(recipe, bits, ops, sink);
    } else if recipe <= 127 {
        emit_recipe_7(recipe, bits, ops, sink);
    } else if recipe <= 143 {
        emit_recipe_8(recipe, bits, ops, sink);
    } else if recipe <= 159 {
        emit_recipe_9(recipe, bits, ops, sink);
    } else if recipe <= 175 {
        emit_recipe_10(recipe, bits, ops, sink);
    } else if recipe <= 191 {
        emit_recipe_11(recipe, bits, ops, sink);
    } else if recipe <= 207 {
        emit_recipe_12(recipe, bits, ops, sink);
    } else if recipe <= 223 {
        emit_recipe_13(recipe, bits, ops, sink);
    } else if recipe <= 239 {
        emit_recipe_14(recipe, bits, ops, sink);
    } else if recipe <= 255 {
        emit_recipe_15(recipe, bits, ops, sink);
    } else if recipe <= 271 {
        emit_recipe_16(recipe, bits, ops, sink);
    } else if recipe <= 287 {
        emit_recipe_17(recipe, bits, ops, sink);
    } else {
        emit_recipe_18(recipe, bits, ops, sink);
    }
}

} // verus!
