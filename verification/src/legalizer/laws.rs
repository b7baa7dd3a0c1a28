//! What the legalization rewrites compute: the forms that expansion gives instructions with an
//! immediate, and the halves that narrowing compares and addresses, which stand for the wide
//! values they replace.

use vstd::prelude::*;
use crate::legalizer::{I16, I32, I64};
use crate::ir::{Opcode, ValueType};
use crate::legalizer::{value_type_of, I8};
use crate::legalizer::{attach_results, inst_pos, s_split, s_split_results, FuncView, Inst};
use crate::legalizer::patterns::{
    widen_iadd_spec, widen_isub_spec, widen_imul_spec, widen_band_spec, widen_bor_spec, widen_bxor_spec, widen_sdiv_spec, widen_udiv_spec, widen_srem_spec, widen_urem_spec, widen_ishl_spec, widen_ushr_spec, widen_sshr_spec, widen_spec,
    narrow_spec, narrow_band_spec, narrow_bor_spec, narrow_bxor_spec, narrow_band_not_spec, narrow_bor_not_spec, narrow_bxor_not_spec,
    expand_rotl_imm_spec, expand_rotr_imm_spec, expand_int_compare_imm_spec, expand_int_flags_compare_imm_spec,
    expand_band_not_spec, expand_bor_not_spec, expand_bxor_not_spec,
    narrow_flags_spec, narrow_no_flags_spec, narrow_flags_iadd_spec, narrow_flags_isub_spec,
    narrow_no_flags_iadd_spec, narrow_no_flags_isub_spec, type_set_holds,
    compare_imm_high, compare_imm_low, int_bytes, legalizable, expand_spec, IsaInfo, expand_iadd_imm_spec, expand_imul_imm_spec, expand_band_imm_spec, expand_bor_imm_spec, expand_bxor_imm_spec, expand_ishl_imm_spec, expand_ushr_imm_spec, expand_sshr_imm_spec, expand_sdiv_imm_spec, expand_udiv_imm_spec, expand_srem_imm_spec, expand_urem_imm_spec, expand_irsub_imm_spec,
};

verus! {

proof fn lemma_split_compare(x16: u16, x32: u32, x64: u64, imm: i64)
    by (bit_vector)
    ensures
        (x16 == imm as u16) == ((x16 as u8) == ((imm & 0xff) as u8) && ((x16 >> 8u16) as u8)
            == ((imm >> 8u64) as u8)),
        (x32 == imm as u32) == ((x32 as u16) == ((imm & 0xffff) as u16) && ((x32 >> 16u32) as u16)
            == ((imm >> 16u64) as u16)),
        (x64 == imm as u64) == ((x64 as u32) == ((imm & 0xffff_ffff) as u32) && ((x64 >> 32u64)
            as u32) == ((imm >> 32u64) as u32)),
{
}

/// Narrowing an integer comparison with an immediate, for equality, compares the halves of the argument with the immediates it gives
/// the halves: a value of 16, 32 or 64 bits equals the immediate, taken at its width, exactly
/// when its low half equals the low immediate and its high half the high immediate, each taken
/// at the half's width. (The comparison for inequality is the negation.)
pub proof fn law_narrow_compare_imm_halves(x16: u16, x32: u32, x64: u64, imm: i64)
    ensures
        (x16 == imm as u16) == ((x16 as u8) == (compare_imm_low(imm, ValueType(0x76)) as u8) && ((x16
            >> 8u16) as u8) == (compare_imm_high(imm, ValueType(0x76)) as u8)),
        (x32 == imm as u32) == ((x32 as u16) == (compare_imm_low(imm, ValueType(I16)) as u16) && ((x32
            >> 16u32) as u16) == (compare_imm_high(imm, ValueType(I16)) as u16)),
        (x64 == imm as u64) == ((x64 as u32) == (compare_imm_low(imm, ValueType(I32)) as u32) && ((x64
            >> 32u64) as u32) == (compare_imm_high(imm, ValueType(I32)) as u32)),
{
    lemma_split_compare(x16, x32, x64, imm);
}

/// The little-endian value of bytes.
pub open spec fn le_value(b: Seq<u8>) -> nat
    decreases b.len(),
{
    if b.len() == 0 {
        0
    } else {
        b[0] as nat + 256 * le_value(b.drop_first())
    }
}

/// `256` to the power `k`.
pub open spec fn pow256(k: nat) -> nat
    decreases k,
{
    if k == 0 {
        1
    } else {
        256 * pow256((k - 1) as nat)
    }
}

proof fn lemma_le_value_split(b: Seq<u8>, k: nat)
    requires
        k <= b.len(),
    ensures
        le_value(b) == le_value(b.subrange(0, k as int)) + pow256(k) * le_value(
            b.subrange(k as int, b.len() as int),
        ),
    decreases k,
{
    if k == 0 {
        assert(b.subrange(0, 0) =~= Seq::<u8>::empty());
        assert(b.subrange(0, b.len() as int) =~= b);
        assert(le_value(b.subrange(0, 0)) == 0);
        assert(pow256(0) == 1);
    } else {
        let t = b.drop_first();
        lemma_le_value_split(t, (k - 1) as nat);
        assert(b.subrange(0, k as int).drop_first() =~= t.subrange(0, k - 1));
        assert(t.subrange(k - 1, t.len() as int) =~= b.subrange(k as int, b.len() as int));
        let a = le_value(t.subrange(0, k - 1));
        let c = le_value(b.subrange(k as int, b.len() as int));
        let lo = b.subrange(0, k as int);
        assert(lo.len() > 0);
        assert(lo[0] == b[0]);
        assert(le_value(lo) == lo[0] as nat + 256 * le_value(lo.drop_first()));
        assert(le_value(lo) == b[0] as nat + 256 * a);
        assert(le_value(b) == b[0] as nat + 256 * le_value(t));
        assert(le_value(t) == a + pow256((k - 1) as nat) * c);
        assert(pow256(k) == 256 * pow256((k - 1) as nat));
        assert(256 * (a + pow256((k - 1) as nat) * c) == 256 * a + (256 * pow256((k - 1) as nat))
            * c) by (nonlinear_arith);
        assert(le_value(b) == le_value(lo) + pow256(k) * c);
    }
}

/// Narrowing a `load` or `store` of a wide integer addresses its low half at the offset and its
/// high half just after it: in little-endian memory, the wide value held by the bytes at the
/// offset is the low half's value plus the high half's value shifted by the half's width.
pub proof fn law_narrow_memory_halves(mem: Seq<u8>, offset: int, half: ValueType)
    requires
        half.0 == 0x76 || half.0 == I16 || half.0 == I32 || half.0 == I64,
        0 <= offset,
        offset + 2 * int_bytes(half) <= mem.len(),
    ensures
        le_value(mem.subrange(offset, offset + 2 * int_bytes(half))) == le_value(
            mem.subrange(offset, offset + int_bytes(half)),
        ) + pow256(int_bytes(half) as nat) * le_value(
            mem.subrange(offset + int_bytes(half), offset + 2 * int_bytes(half)),
        ),
{
    let n = int_bytes(half) as int;
    let w = mem.subrange(offset, offset + 2 * n);
    lemma_le_value_split(w, n as nat);
    assert(w.subrange(0, n) =~= mem.subrange(offset, offset + n));
    assert(w.subrange(n, w.len() as int) =~= mem.subrange(offset + n, offset + 2 * n));
}

} // verus!

verus! {

/// Narrowing an addition into an addition of the low halves with a carry out, and an addition of
/// the high halves with that carry in, computes the wide sum: for halves of `b` bits (`w` is
/// `2^b`), the low result is the low sum modulo `w`, the carry is whether the low sum reached
/// `w`, and the high result is the high sum plus the carry, modulo `w`; together they are the
/// wide sum modulo `w * w`.
pub proof fn law_narrow_add_with_carry(xl: int, xh: int, yl: int, yh: int, w: int)
    requires
        w > 1,
        0 <= xl < w,
        0 <= xh < w,
        0 <= yl < w,
        0 <= yh < w,
    ensures
        ({
            let carry: int = if xl + yl >= w { 1 } else { 0 };
            let low = (xl + yl) % w;
            let high = (xh + yh + carry) % w;
            (xh * w + xl + yh * w + yl) % (w * w) == high * w + low
        }),
{
    let carry: int = if xl + yl >= w { 1 } else { 0 };
    let low = xl + yl - carry * w;
    assert(0 <= low < w);
    assert((xl + yl) % w == low) by {
        vstd::arithmetic::div_mod::lemma_fundamental_div_mod_converse(xl + yl, w, carry, low);
    }
    let hs = xh + yh + carry;
    let hq: int = if hs >= w { 1 } else { 0 };
    let high = hs - hq * w;
    assert(0 <= high < w);
    assert(hs % w == high) by {
        vstd::arithmetic::div_mod::lemma_fundamental_div_mod_converse(hs, w, hq, high);
    }
    let total = xh * w + xl + yh * w + yl;
    assert(total == hq * (w * w) + (high * w + low)) by (nonlinear_arith)
        requires
            total == xh * w + xl + yh * w + yl,
            low == xl + yl - carry * w,
            high == xh + yh + carry - hq * w,
    ;
    assert(0 <= high * w + low < w * w) by (nonlinear_arith)
        requires
            0 <= high < w,
            0 <= low < w,
    ;
    assert(total % (w * w) == high * w + low) by {
        vstd::arithmetic::div_mod::lemma_fundamental_div_mod_converse(total, w * w, hq, high * w + low);
    }
}

} // verus!

verus! {

/// Does the operation take its immediate as a 32-bit shift or rotate amount?
pub open spec fn amount_immediate(op: Opcode) -> bool {
    op == Opcode::IshlImm || op == Opcode::UshrImm || op == Opcode::SshrImm || op == Opcode::RotlImm
        || op == Opcode::RotrImm
}

/// The register form of an instruction with an immediate operand: `iadd_imm` is `iadd` with the
/// immediate as its second operand, `icmp_imm` is `icmp`, and so on; `irsub_imm` is `isub` with
/// the immediate as its first operand.
pub open spec fn register_form(op: Opcode) -> Option<Opcode> {
    match op {
        Opcode::IaddImm => Some(Opcode::Iadd),
        Opcode::ImulImm => Some(Opcode::Imul),
        Opcode::BandImm => Some(Opcode::Band),
        Opcode::BorImm => Some(Opcode::Bor),
        Opcode::BxorImm => Some(Opcode::Bxor),
        Opcode::IshlImm => Some(Opcode::Ishl),
        Opcode::UshrImm => Some(Opcode::Ushr),
        Opcode::SshrImm => Some(Opcode::Sshr),
        Opcode::SdivImm => Some(Opcode::Sdiv),
        Opcode::UdivImm => Some(Opcode::Udiv),
        Opcode::SremImm => Some(Opcode::Srem),
        Opcode::UremImm => Some(Opcode::Urem),
        Opcode::IrsubImm => Some(Opcode::Isub),
        Opcode::RotlImm => Some(Opcode::Rotl),
        Opcode::RotrImm => Some(Opcode::Rotr),
        Opcode::IntCompareImm => Some(Opcode::IntCompare),
        Opcode::IntFlagsCompareImm => Some(Opcode::IntFlagsCompare),
        _ => None,
    }
}

/// Expanding `a = op_imm x, imm` puts a constant `c = iconst imm` (of the type of `x`, or 32 bits
/// for a shift or rotate amount) just before the instruction and
/// turns the instruction into the register form of the operation, keeping its result: `a = op x,
/// c`, so that the immediate is the second operand, except for the reversed subtraction
/// `irsub_imm`, which becomes `a = isub c, x` and so computes `imm - x`.
pub proof fn law_expand_immediate_forms(v: FuncView, inst: Inst, isa: IsaInfo)
    requires
        legalizable(v, inst),
        register_form(v.0[inst as int].opcode) is Some,
        v.0[inst as int].num_results == 1,
    ensures
        expand_spec(v, inst, isa) matches Some(w) && {
            let d = v.0[inst as int];
            let n = v.0.len();
            let c = w.0[n as int];
            let e = w.0[inst as int];
            &&& w.1 == v.1.insert(inst_pos(v, inst), n as Inst)
            &&& c.opcode == Opcode::Iconst
            &&& c.imm == d.imm
            &&& c.ctrl == if amount_immediate(d.opcode) { ValueType(I32) } else { value_type_of(v, d.arg0) }
            &&& c.num_results == 1
            &&& c.res0 == v.2.len()
            &&& e.opcode == register_form(d.opcode).unwrap()
            &&& e.num_results == 1
            &&& e.res0 == d.res0
            &&& d.opcode == Opcode::IntCompareImm ==> e.cond == d.cond
            &&& if d.opcode == Opcode::IrsubImm {
                e.arg0 == c.res0 && e.arg1 == d.arg0
            } else {
                e.arg0 == d.arg0 && e.arg1 == c.res0
            }
        },
{
    reveal(attach_results);
    reveal(expand_iadd_imm_spec);
    reveal(expand_imul_imm_spec);
    reveal(expand_band_imm_spec);
    reveal(expand_bor_imm_spec);
    reveal(expand_bxor_imm_spec);
    reveal(expand_ishl_imm_spec);
    reveal(expand_ushr_imm_spec);
    reveal(expand_sshr_imm_spec);
    reveal(expand_sdiv_imm_spec);
    reveal(expand_udiv_imm_spec);
    reveal(expand_srem_imm_spec);
    reveal(expand_urem_imm_spec);
    reveal(expand_irsub_imm_spec);
    reveal(expand_rotl_imm_spec);
    reveal(expand_rotr_imm_spec);
    reveal(expand_int_compare_imm_spec);
    reveal(expand_int_flags_compare_imm_spec);
}

} // verus!

verus! {

/// The extension that widening applies to the operands of an integer operation on 8 or 16 bits:
/// sign extension for signed division and remainder and arithmetic shift right, zero extension
/// for the others.
pub open spec fn widening_extension(op: Opcode) -> Option<Opcode> {
    match op {
        Opcode::Iadd | Opcode::Isub | Opcode::Imul | Opcode::Band | Opcode::Bor | Opcode::Bxor
        | Opcode::Udiv | Opcode::Urem | Opcode::Ishl | Opcode::Ushr => Some(Opcode::Uextend),
        Opcode::Sdiv | Opcode::Srem | Opcode::Sshr => Some(Opcode::Sextend),
        _ => None,
    }
}

/// Is the operation a shift, whose amount is used as it is?
pub open spec fn is_shift(op: Opcode) -> bool {
    op == Opcode::Ishl || op == Opcode::Ushr || op == Opcode::Sshr
}

/// Widening `a = op x, y` on 8 or 16 bits extends `x` (and `y`, except for a shift, whose amount
/// is used as it is) to 32 bits, applies the same operation to the extended operands in the same
/// order, and reduces the 32-bit result back to the original type as `a`: the first operand of
/// the wide operation comes from `x` and the second from `y`.
pub proof fn law_widen_binary(v: FuncView, inst: Inst, isa: IsaInfo)
    requires
        legalizable(v, inst),
        widening_extension(v.0[inst as int].opcode) is Some,
        value_type_of(v, v.0[inst as int].arg0) == ValueType(I8) || value_type_of(v, v.0[inst as int].arg0) == ValueType(I16),
        v.0[inst as int].num_results == 1,
    ensures
        widen_spec(v, inst, isa) matches Some(w) && {
            let d = v.0[inst as int];
            let n = v.0.len() as int;
            let pos = inst_pos(v, inst);
            let x = w.0[n];
            let (y, z) = if is_shift(d.opcode) { (x, w.0[n + 1]) } else { (w.0[n + 1], w.0[n + 2]) };
            let e = w.0[inst as int];
            &&& x.opcode == widening_extension(d.opcode).unwrap()
            &&& x.arg0 == d.arg0
            &&& x.ctrl == ValueType(I32)
            &&& !is_shift(d.opcode) ==> y.opcode == widening_extension(d.opcode).unwrap() && y.arg0 == d.arg1
            &&& z.opcode == d.opcode
            &&& z.arg0 == x.res0
            &&& z.arg1 == if is_shift(d.opcode) { d.arg1 } else { y.res0 }
            &&& e.opcode == Opcode::Ireduce
            &&& e.arg0 == z.res0
            &&& e.ctrl == value_type_of(v, d.arg0)
            &&& e.num_results == 1
            &&& e.res0 == d.res0
            &&& if is_shift(d.opcode) {
                w.1 == v.1.insert(pos, n as Inst).insert(pos + 1, (n + 1) as Inst)
            } else {
                w.1 == v.1.insert(pos, n as Inst).insert(pos + 1, (n + 1) as Inst).insert(pos + 2, (n + 2) as Inst)
            }
        },
{
    reveal(attach_results);
    reveal(widen_iadd_spec);
    reveal(widen_isub_spec);
    reveal(widen_imul_spec);
    reveal(widen_band_spec);
    reveal(widen_bor_spec);
    reveal(widen_bxor_spec);
    reveal(widen_sdiv_spec);
    reveal(widen_udiv_spec);
    reveal(widen_srem_spec);
    reveal(widen_urem_spec);
    reveal(widen_ishl_spec);
    reveal(widen_ushr_spec);
    reveal(widen_sshr_spec);
}

} // verus!

verus! {

/// The instructions that narrowing chains for an addition or subtraction: one on the low halves
/// that produces a carry or borrow, and one on the high halves that consumes it; as flags where
/// `flags`, else as a boolean.
pub open spec fn carry_chain(op: Opcode, flags: bool) -> (Opcode, Opcode) {
    if op == Opcode::Iadd {
        if flags { (Opcode::IaddIfcout, Opcode::IaddIfcin) } else { (Opcode::IaddCout, Opcode::IaddCin) }
    } else {
        if flags { (Opcode::IsubIfbout, Opcode::IsubIfbin) } else { (Opcode::IsubBout, Opcode::IsubBin) }
    }
}

/// Narrowing `a = iadd x, y` or `a = isub x, y` on 16 to 128 bits computes `lo = op x.lo, y.lo`
/// with a carry (or borrow) out, then `hi = op x.hi, y.hi` with that carry in, and makes `a` the
/// concatenation of `lo` and `hi`: the operands keep their order in both halves, so `x - y`
/// stays `x - y`.
pub proof fn law_narrow_add_sub(v: FuncView, inst: Inst, isa: IsaInfo, flags: bool)
    requires
        legalizable(v, inst),
        v.0[inst as int].opcode == Opcode::Iadd || v.0[inst as int].opcode == Opcode::Isub,
        type_set_holds(3, value_type_of(v, v.0[inst as int].arg0)),
        v.0[inst as int].num_results == 1,
    ensures
        (if flags { narrow_flags_spec(v, inst, isa) } else { narrow_no_flags_spec(v, inst, isa) }) matches Some(w) && {
            let d = v.0[inst as int];
            let pos = inst_pos(v, inst);
            let (xl, xh, k1) = s_split_results(v, d.arg0);
            let (yl, yh, k2) = s_split_results(s_split(v, pos, d.arg0), d.arg1);
            let (low_op, high_op) = carry_chain(d.opcode, flags);
            let m = w.0.len() as int;
            let lo = w.0[m - 2];
            let hi = w.0[m - 1];
            let e = w.0[inst as int];
            &&& lo.opcode == low_op
            &&& lo.arg0 == xl
            &&& lo.arg1 == yl
            &&& hi.opcode == high_op
            &&& hi.arg0 == xh
            &&& hi.arg1 == yh
            &&& hi.arg2 == lo.res1
            &&& e.opcode == Opcode::Iconcat
            &&& e.arg0 == lo.res0
            &&& e.arg1 == hi.res0
            &&& e.res0 == d.res0
        },
{
    reveal(attach_results);
    reveal(narrow_flags_iadd_spec);
    reveal(narrow_flags_isub_spec);
    reveal(narrow_no_flags_iadd_spec);
    reveal(narrow_no_flags_isub_spec);
}

} // verus!

verus! {

/// The plain form of a logical operation with an inverted second operand.
pub open spec fn not_form(op: Opcode) -> Option<Opcode> {
    match op {
        Opcode::BandNot => Some(Opcode::Band),
        Opcode::BorNot => Some(Opcode::Bor),
        Opcode::BxorNot => Some(Opcode::Bxor),
        _ => None,
    }
}

/// Expanding `a = band_not x, y` (and `bor_not`, `bxor_not`) inverts the second operand, `t = bnot
/// y`, just before the instruction, and turns it into `a = band x, t`: it is `y` that is
/// inverted, never `x`.
pub proof fn law_expand_not_forms(v: FuncView, inst: Inst, isa: IsaInfo)
    requires
        legalizable(v, inst),
        not_form(v.0[inst as int].opcode) is Some,
        v.0[inst as int].num_results == 1,
    ensures
        expand_spec(v, inst, isa) matches Some(w) && {
            let d = v.0[inst as int];
            let n = v.0.len();
            let t = w.0[n as int];
            let e = w.0[inst as int];
            &&& w.1 == v.1.insert(inst_pos(v, inst), n as Inst)
            &&& t.opcode == Opcode::Bnot
            &&& t.arg0 == d.arg1
            &&& e.opcode == not_form(d.opcode).unwrap()
            &&& e.arg0 == d.arg0
            &&& e.arg1 == t.res0
            &&& e.res0 == d.res0
        },
{
    reveal(attach_results);
    reveal(expand_band_not_spec);
    reveal(expand_bor_not_spec);
    reveal(expand_bxor_not_spec);
}

} // verus!

verus! {

/// Is the operation a bitwise one that works on each bit of its operands alone?
pub open spec fn is_bitwise(op: Opcode) -> bool {
    op == Opcode::Band || op == Opcode::Bor || op == Opcode::Bxor || op == Opcode::BandNot || op
        == Opcode::BorNot || op == Opcode::BxorNot
}

/// Narrowing a bitwise operation `a = op x, y` on 16 to 128 bits applies the same operation to
/// the low halves, `lo = op x.lo, y.lo`, and to the high halves, `hi = op x.hi, y.hi`, keeping
/// the operands in order, and makes `a` the concatenation of `lo` and `hi`.
pub proof fn law_narrow_bitwise(v: FuncView, inst: Inst, isa: IsaInfo)
    requires
        legalizable(v, inst),
        is_bitwise(v.0[inst as int].opcode),
        type_set_holds(2, value_type_of(v, v.0[inst as int].arg0)),
        v.0[inst as int].num_results == 1,
    ensures
        narrow_spec(v, inst, isa) matches Some(w) && {
            let d = v.0[inst as int];
            let pos = inst_pos(v, inst);
            let (xl, xh, k1) = s_split_results(v, d.arg0);
            let (yl, yh, k2) = s_split_results(s_split(v, pos, d.arg0), d.arg1);
            let m = w.0.len() as int;
            let lo = w.0[m - 2];
            let hi = w.0[m - 1];
            let e = w.0[inst as int];
            &&& lo.opcode == d.opcode
            &&& lo.arg0 == xl
            &&& lo.arg1 == yl
            &&& hi.opcode == d.opcode
            &&& hi.arg0 == xh
            &&& hi.arg1 == yh
            &&& e.opcode == Opcode::Iconcat
            &&& e.arg0 == lo.res0
            &&& e.arg1 == hi.res0
            &&& e.res0 == d.res0
        },
{
    reveal(attach_results);
    reveal(narrow_band_spec);
    reveal(narrow_bor_spec);
    reveal(narrow_bxor_spec);
    reveal(narrow_band_not_spec);
    reveal(narrow_bor_not_spec);
    reveal(narrow_bxor_not_spec);
}

} // verus!
