//! Where the x86 recipes put their operands: which register a ModR/M byte names in its `reg`
//! field, and which one it addresses memory through.

use vstd::prelude::*;
use crate::binemit::SinkContents;
use crate::isa::registers::RegUnit;
use crate::isa::x86::binemit::{
    icc_opcode, law_modrm_fields, law_sib_fields, modrm_byte, offset_needed, opcode_bytes, rex1_value, rex2_value, rex3_value, sib_byte,
    sib_byte_needed, InstOperands, OpForm,
};
use crate::isa::x86::recipes::{
    ld_disp32_emits, ld_disp8_emits, ld_emits, ld_with_index_disp32_emits, ld_with_index_disp8_emits,
    ld_with_index_emits, st_with_index_disp32_emits, st_with_index_disp8_emits, st_with_index_emits, r_ib_emits, r_id_emits, rmov_emits, rr_emits,
    rrx_emits, icscc_emits, cmov_emits, st_disp32_emits, st_disp8_emits, st_emits, umr_emits, ur_emits, urm_emits,
};

verus! {

/// The ModR/M byte at `k` names `reg` in its `reg` field and addresses memory through the base
/// register `base` in mode `mode`: its `rm` field holds the low three bits of `base`, or, for a
/// base that needs a SIB byte (`%rsp`, `%r12`), `rm` is `0b100` and the SIB byte that follows has
/// no index (`0b100`) and `base` in its base field.
pub open spec fn addresses(t: Seq<u8>, k: int, mode: u8, reg: RegUnit, base: RegUnit) -> bool {
    let m = t[k];
    &&& m >> 6u8 == mode
    &&& (m >> 3u8) & 7 == (reg as u8) & 7
    &&& if sib_byte_needed(base) {
        &&& m & 7 == 4
        &&& t[k + 1] >> 6u8 == 0
        &&& (t[k + 1] >> 3u8) & 7 == 4
        &&& t[k + 1] & 7 == (base as u8) & 7
    } else {
        m & 7 == (base as u8) & 7
    }
}

/// The bytes `t` continue `s` with the prefix and opcode bytes of a two-register instruction
/// whose ModR/M `rm` register is `rm` and whose `reg` register is `reg` (so that the REX prefix
/// carries bit 3 of `rm` in B and bit 3 of `reg` in R), and the ModR/M byte follows at `k`.
pub open spec fn opcode_then_modrm(s: Seq<u8>, t: Seq<u8>, form: OpForm, bits: u16, rm: RegUnit, reg: RegUnit, k: int) -> bool {
    &&& k == s.len() + opcode_bytes(form, bits, rex2_value(rm, reg)).len()
    &&& k < t.len()
    &&& t.subrange(0, s.len() as int) == s
    &&& t.subrange(s.len() as int, k) == opcode_bytes(form, bits, rex2_value(rm, reg))
}

proof fn lemma_const_fields()
    by (bit_vector)
    ensures
        0b100u8 & 7 == 4,
        (0b100u8 & 7) >> 0u8 == 4,
{
}

proof fn lemma_memory_modrm(mode: u8, reg: RegUnit, base: RegUnit)
    requires
        mode < 4,
    ensures
        addresses(
            if sib_byte_needed(base) {
                seq![modrm_byte(mode, reg as u8, 0b100), sib_byte(0, 0b100, base as u8)]
            } else {
                seq![modrm_byte(mode, reg as u8, base as u8)]
            },
            0,
            mode,
            reg,
            base,
        ),
{
    lemma_const_fields();
    law_modrm_fields(mode, reg as u8, base as u8);
    law_modrm_fields(mode, reg as u8, 0b100);
    law_sib_fields(0, 0b100, base as u8);
}

/// A store (recipes `st`, `stDisp8`, `stDisp32` in every opcode form) names the stored value
/// (`arg0`) in the ModR/M `reg` field and addresses memory through the address register
/// (`arg1`), with no displacement (a zero byte for `%rbp` and `%r13`), an 8-bit one or a 32-bit
/// one.
pub proof fn law_store_operands(form: OpForm, bits: u16, ops: InstOperands, s: SinkContents)
    ensures
        ({
            let k: int = (s.0.len() + opcode_bytes(form, bits, rex2_value(ops.arg1, ops.arg0)).len()) as int;
            let mode: u8 = if offset_needed(ops.arg1) && !sib_byte_needed(ops.arg1) { 1 } else { 0 };
            let t = st_emits(form, bits, ops, s).0;
            opcode_then_modrm(s.0, t, form, bits, ops.arg1, ops.arg0, k) && addresses(t, k, mode, ops.arg0, ops.arg1)
        }),
        ({
            let k: int = (s.0.len() + opcode_bytes(form, bits, rex2_value(ops.arg1, ops.arg0)).len()) as int;
            let t = st_disp8_emits(form, bits, ops, s).0;
            opcode_then_modrm(s.0, t, form, bits, ops.arg1, ops.arg0, k) && addresses(t, k, 1, ops.arg0, ops.arg1)
        }),
        ({
            let k: int = (s.0.len() + opcode_bytes(form, bits, rex2_value(ops.arg1, ops.arg0)).len()) as int;
            let t = st_disp32_emits(form, bits, ops, s).0;
            opcode_then_modrm(s.0, t, form, bits, ops.arg1, ops.arg0, k) && addresses(t, k, 2, ops.arg0, ops.arg1)
        }),
{
    let k: int = (s.0.len() + opcode_bytes(form, bits, rex2_value(ops.arg1, ops.arg0)).len()) as int;
    let mode: u8 = if offset_needed(ops.arg1) && !sib_byte_needed(ops.arg1) { 1 } else { 0 };
    lemma_memory_modrm(mode, ops.arg0, ops.arg1);
    lemma_memory_modrm(1, ops.arg0, ops.arg1);
    lemma_memory_modrm(2, ops.arg0, ops.arg1);
    let o = opcode_bytes(form, bits, rex2_value(ops.arg1, ops.arg0));
    let t = st_emits(form, bits, ops, s).0;
    assert(t.subrange(0, s.0.len() as int) =~= s.0);
    assert(t.subrange(s.0.len() as int, k) =~= o);
    let t = st_disp8_emits(form, bits, ops, s).0;
    assert(t.subrange(0, s.0.len() as int) =~= s.0);
    assert(t.subrange(s.0.len() as int, k) =~= o);
    let t = st_disp32_emits(form, bits, ops, s).0;
    assert(t.subrange(0, s.0.len() as int) =~= s.0);
    assert(t.subrange(s.0.len() as int, k) =~= o);
}

/// A load (recipes `ld`, `ldDisp8`, `ldDisp32` in every opcode form) names the result in the
/// ModR/M `reg` field and addresses memory through the address register (`arg0`).
pub proof fn law_load_operands(form: OpForm, bits: u16, ops: InstOperands, s: SinkContents)
    ensures
        ({
            let k: int = (s.0.len() + opcode_bytes(form, bits, rex2_value(ops.arg0, ops.result)).len()) as int;
            let mode: u8 = if offset_needed(ops.arg0) && !sib_byte_needed(ops.arg0) { 1 } else { 0 };
            let t = ld_emits(form, bits, ops, s).0;
            opcode_then_modrm(s.0, t, form, bits, ops.arg0, ops.result, k) && addresses(t, k, mode, ops.result, ops.arg0)
        }),
        ({
            let k: int = (s.0.len() + opcode_bytes(form, bits, rex2_value(ops.arg0, ops.result)).len()) as int;
            let t = ld_disp8_emits(form, bits, ops, s).0;
            opcode_then_modrm(s.0, t, form, bits, ops.arg0, ops.result, k) && addresses(t, k, 1, ops.result, ops.arg0)
        }),
        ({
            let k: int = (s.0.len() + opcode_bytes(form, bits, rex2_value(ops.arg0, ops.result)).len()) as int;
            let t = ld_disp32_emits(form, bits, ops, s).0;
            opcode_then_modrm(s.0, t, form, bits, ops.arg0, ops.result, k) && addresses(t, k, 2, ops.result, ops.arg0)
        }),
{
    let k: int = (s.0.len() + opcode_bytes(form, bits, rex2_value(ops.arg0, ops.result)).len()) as int;
    let mode: u8 = if offset_needed(ops.arg0) && !sib_byte_needed(ops.arg0) { 1 } else { 0 };
    lemma_memory_modrm(mode, ops.result, ops.arg0);
    lemma_memory_modrm(1, ops.result, ops.arg0);
    lemma_memory_modrm(2, ops.result, ops.arg0);
    let o = opcode_bytes(form, bits, rex2_value(ops.arg0, ops.result));
    let t = ld_emits(form, bits, ops, s).0;
    assert(t.subrange(0, s.0.len() as int) =~= s.0);
    assert(t.subrange(s.0.len() as int, k) =~= o);
    let t = ld_disp8_emits(form, bits, ops, s).0;
    assert(t.subrange(0, s.0.len() as int) =~= s.0);
    assert(t.subrange(s.0.len() as int, k) =~= o);
    let t = ld_disp32_emits(form, bits, ops, s).0;
    assert(t.subrange(0, s.0.len() as int) =~= s.0);
    assert(t.subrange(s.0.len() as int, k) =~= o);
}

/// A register-register operation (recipe `rr` in every opcode form: `add`, `sub`, `and`, ... with
/// the destination first) names its second argument in the ModR/M `reg` field and its first in
/// the `rm` field, register to register (mode `0b11`), and is the last byte it emits.
pub proof fn law_rr_operands(form: OpForm, bits: u16, ops: InstOperands, s: SinkContents)
    ensures
        ({
            let k: int = (s.0.len() + opcode_bytes(form, bits, rex2_value(ops.arg0, ops.arg1)).len()) as int;
            let t = rr_emits(form, bits, ops, s).0;
            &&& opcode_then_modrm(s.0, t, form, bits, ops.arg0, ops.arg1, k)
            &&& t.len() == k + 1
            &&& t[k] >> 6u8 == 3
            &&& (t[k] >> 3u8) & 7 == (ops.arg1 as u8) & 7
            &&& t[k] & 7 == (ops.arg0 as u8) & 7
        }),
{
    let k: int = (s.0.len() + opcode_bytes(form, bits, rex2_value(ops.arg0, ops.arg1)).len()) as int;
    law_modrm_fields(3, ops.arg1 as u8, ops.arg0 as u8);
    let o = opcode_bytes(form, bits, rex2_value(ops.arg0, ops.arg1));
    let t = rr_emits(form, bits, ops, s).0;
    assert(t.subrange(0, s.0.len() as int) =~= s.0);
    assert(t.subrange(s.0.len() as int, k) =~= o);
}

/// The bytes `t` continue `s` with the opcode bytes of a two-register instruction (REX B from
/// `rm`, R from `reg`) and then a register-to-register ModR/M byte (mode `0b11`) with `reg` in its
/// `reg` field and `rm` in its `rm` field, which ends the instruction.
pub open spec fn register_pair(s: Seq<u8>, t: Seq<u8>, form: OpForm, bits: u16, rm: RegUnit, reg: RegUnit) -> bool {
    let k: int = (s.len() + opcode_bytes(form, bits, rex2_value(rm, reg)).len()) as int;
    &&& opcode_then_modrm(s, t, form, bits, rm, reg, k)
    &&& t.len() == k + 1
    &&& t[k] >> 6u8 == 3
    &&& (t[k] >> 3u8) & 7 == (reg as u8) & 7
    &&& t[k] & 7 == (rm as u8) & 7
}

/// The bytes `t` continue `s` with the opcode bytes of a one-register instruction (REX B from
/// `rm`) and then a register ModR/M byte (mode `0b11`) with the opcode extension `ext` in its
/// `reg` field and `rm` in its `rm` field.
pub open spec fn register_with_extension(s: Seq<u8>, t: Seq<u8>, form: OpForm, bits: u16, rm: RegUnit, ext: u8) -> bool {
    let o = opcode_bytes(form, bits, rex1_value(rm));
    let k = s.len() + o.len();
    &&& k < t.len()
    &&& t.subrange(0, s.len() as int) == s
    &&& t.subrange(s.len() as int, k as int) == o
    &&& t[k as int] >> 6u8 == 3
    &&& (t[k as int] >> 3u8) & 7 == ext & 7
    &&& t[k as int] & 7 == (rm as u8) & 7
}

/// Which register each register-to-register recipe puts where: `rrx` (and the SSE arithmetic
/// and comparisons that share it) operates on its first argument with its second (`reg` is
/// `arg0`, `rm` is `arg1`); `umr` moves its argument into its result (`reg` is `arg0`, `rm` the
/// result); `urm` reads its argument into its result (`reg` is the result, `rm` is `arg0`); a
/// register move `rmov` copies `src` into `dst` (`reg` is `src`, `rm` is `dst`); the one-register
/// recipes `ur`, `r_ib` and `r_id` name their argument in `rm` and the opcode extension (bits 12
/// to 14 of the encoding) in `reg`, followed by nothing, an 8-bit or a 32-bit immediate.
pub proof fn law_register_operands(form: OpForm, bits: u16, ops: InstOperands, s: SinkContents)
    ensures
        register_pair(s.0, rrx_emits(form, bits, ops, s).0, form, bits, ops.arg1, ops.arg0),
        register_pair(s.0, umr_emits(form, bits, ops, s).0, form, bits, ops.result, ops.arg0),
        register_pair(s.0, urm_emits(form, bits, ops, s).0, form, bits, ops.arg0, ops.result),
        register_pair(s.0, rmov_emits(form, bits, ops, s).0, form, bits, ops.dst, ops.src),
        register_with_extension(s.0, ur_emits(form, bits, ops, s).0, form, bits, ops.arg0, (bits >> 12u16) as u8),
        ur_emits(form, bits, ops, s).0.len() == s.0.len() + opcode_bytes(form, bits, rex1_value(ops.arg0)).len() + 1,
        register_with_extension(s.0, r_ib_emits(form, bits, ops, s).0, form, bits, ops.arg0, (bits >> 12u16) as u8),
        register_with_extension(s.0, r_id_emits(form, bits, ops, s).0, form, bits, ops.arg0, (bits >> 12u16) as u8),
{
    law_modrm_fields(3, ops.arg0 as u8, ops.arg1 as u8);
    law_modrm_fields(3, ops.arg0 as u8, ops.result as u8);
    law_modrm_fields(3, ops.result as u8, ops.arg0 as u8);
    law_modrm_fields(3, ops.src as u8, ops.dst as u8);
    law_modrm_fields(3, (bits >> 12u16) as u8, ops.arg0 as u8);
    let t = rrx_emits(form, bits, ops, s).0;
    assert(t.subrange(0, s.0.len() as int) =~= s.0);
    assert(t.subrange(s.0.len() as int, t.len() - 1) =~= opcode_bytes(form, bits, rex2_value(ops.arg1, ops.arg0)));
    let t = umr_emits(form, bits, ops, s).0;
    assert(t.subrange(0, s.0.len() as int) =~= s.0);
    assert(t.subrange(s.0.len() as int, t.len() - 1) =~= opcode_bytes(form, bits, rex2_value(ops.result, ops.arg0)));
    let t = urm_emits(form, bits, ops, s).0;
    assert(t.subrange(0, s.0.len() as int) =~= s.0);
    assert(t.subrange(s.0.len() as int, t.len() - 1) =~= opcode_bytes(form, bits, rex2_value(ops.arg0, ops.result)));
    let t = rmov_emits(form, bits, ops, s).0;
    assert(t.subrange(0, s.0.len() as int) =~= s.0);
    assert(t.subrange(s.0.len() as int, t.len() - 1) =~= opcode_bytes(form, bits, rex2_value(ops.dst, ops.src)));
    let o = opcode_bytes(form, bits, rex1_value(ops.arg0));
    let k = s.0.len() + o.len();
    let t = ur_emits(form, bits, ops, s).0;
    assert(t.subrange(0, s.0.len() as int) =~= s.0);
    assert(t.subrange(s.0.len() as int, k as int) =~= o);
    let t = r_ib_emits(form, bits, ops, s).0;
    assert(t.subrange(0, s.0.len() as int) =~= s.0);
    assert(t.subrange(s.0.len() as int, k as int) =~= o);
    let t = r_id_emits(form, bits, ops, s).0;
    assert(t.subrange(0, s.0.len() as int) =~= s.0);
    assert(t.subrange(s.0.len() as int, k as int) =~= o);
}

/// The bytes `t` continue `s` with the opcode bytes `o` and then a ModR/M byte in mode `mode`
/// that names `reg` in its `reg` field and selects a SIB byte (`rm` is `0b100`), and a SIB byte
/// with scale 1, `index` in its index field and `base` in its base field.
pub open spec fn indexed(s: Seq<u8>, t: Seq<u8>, o: Seq<u8>, mode: u8, reg: RegUnit, base: RegUnit, index: RegUnit) -> bool {
    let k = (s.len() + o.len()) as int;
    &&& k + 1 < t.len()
    &&& t.subrange(0, s.len() as int) == s
    &&& t.subrange(s.len() as int, k) == o
    &&& t[k] >> 6u8 == mode
    &&& (t[k] >> 3u8) & 7 == (reg as u8) & 7
    &&& t[k] & 7 == 4
    &&& t[k + 1] >> 6u8 == 0
    &&& (t[k + 1] >> 3u8) & 7 == (index as u8) & 7
    &&& t[k + 1] & 7 == (base as u8) & 7
}

/// Loads and stores through a base and an index register (`ldWithIndex`, `stWithIndex` and
/// their 8-bit and 32-bit displacement forms) name the loaded result or the stored value
/// (`arg0`) in the ModR/M `reg` field, the base (`arg0` of a load, `arg1` of a store) in the SIB
/// base field and the index (`arg1` of a load, `arg2` of a store) in the SIB index field, with the
/// REX prefix carrying bit 3 of each (B, R, X).
#[verifier::rlimit(100)]
#[verifier::spinoff_prover]
pub proof fn law_indexed_operands(form: OpForm, bits: u16, ops: InstOperands, s: SinkContents)
    ensures
        ({
            let o = opcode_bytes(form, bits, rex3_value(ops.arg0, ops.result, ops.arg1));
            let t = ld_with_index_emits(form, bits, ops, s).0;
            indexed(s.0, t, o, if offset_needed(ops.arg0) { 1u8 } else { 0u8 }, ops.result, ops.arg0, ops.arg1)
        }),
        ({
            let o = opcode_bytes(form, bits, rex3_value(ops.arg0, ops.result, ops.arg1));
            let t = ld_with_index_disp8_emits(form, bits, ops, s).0;
            indexed(s.0, t, o, 1u8, ops.result, ops.arg0, ops.arg1)
        }),
        ({
            let o = opcode_bytes(form, bits, rex3_value(ops.arg0, ops.result, ops.arg1));
            let t = ld_with_index_disp32_emits(form, bits, ops, s).0;
            indexed(s.0, t, o, 2u8, ops.result, ops.arg0, ops.arg1)
        }),
        ({
            let o = opcode_bytes(form, bits, rex3_value(ops.arg1, ops.arg0, ops.arg2));
            let t = st_with_index_emits(form, bits, ops, s).0;
            indexed(s.0, t, o, if offset_needed(ops.arg1) { 1u8 } else { 0u8 }, ops.arg0, ops.arg1, ops.arg2)
        }),
        ({
            let o = opcode_bytes(form, bits, rex3_value(ops.arg1, ops.arg0, ops.arg2));
            let t = st_with_index_disp8_emits(form, bits, ops, s).0;
            indexed(s.0, t, o, 1u8, ops.arg0, ops.arg1, ops.arg2)
        }),
        ({
            let o = opcode_bytes(form, bits, rex3_value(ops.arg1, ops.arg0, ops.arg2));
            let t = st_with_index_disp32_emits(form, bits, ops, s).0;
            indexed(s.0, t, o, 2u8, ops.arg0, ops.arg1, ops.arg2)
        }),
{
    lemma_const_fields();
    law_modrm_fields(0, ops.result as u8, 0b100);
    law_modrm_fields(1, ops.result as u8, 0b100);
    law_modrm_fields(2, ops.result as u8, 0b100);
    law_modrm_fields(0, ops.arg0 as u8, 0b100);
    law_modrm_fields(1, ops.arg0 as u8, 0b100);
    law_modrm_fields(2, ops.arg0 as u8, 0b100);
    law_sib_fields(0, ops.arg1 as u8, ops.arg0 as u8);
    law_sib_fields(0, ops.arg2 as u8, ops.arg1 as u8);
    let o = opcode_bytes(form, bits, rex3_value(ops.arg0, ops.result, ops.arg1));
    let t = ld_with_index_emits(form, bits, ops, s).0;
    assert(t.subrange(0, s.0.len() as int) =~= s.0);
    assert(t.subrange(s.0.len() as int, (s.0.len() + o.len()) as int) =~= o);
    let o = opcode_bytes(form, bits, rex3_value(ops.arg0, ops.result, ops.arg1));
    let t = ld_with_index_disp8_emits(form, bits, ops, s).0;
    assert(t.subrange(0, s.0.len() as int) =~= s.0);
    assert(t.subrange(s.0.len() as int, (s.0.len() + o.len()) as int) =~= o);
    let o = opcode_bytes(form, bits, rex3_value(ops.arg0, ops.result, ops.arg1));
    let t = ld_with_index_disp32_emits(form, bits, ops, s).0;
    assert(t.subrange(0, s.0.len() as int) =~= s.0);
    assert(t.subrange(s.0.len() as int, (s.0.len() + o.len()) as int) =~= o);
    let o = opcode_bytes(form, bits, rex3_value(ops.arg1, ops.arg0, ops.arg2));
    let t = st_with_index_emits(form, bits, ops, s).0;
    assert(t.subrange(0, s.0.len() as int) =~= s.0);
    assert(t.subrange(s.0.len() as int, (s.0.len() + o.len()) as int) =~= o);
    let o = opcode_bytes(form, bits, rex3_value(ops.arg1, ops.arg0, ops.arg2));
    let t = st_with_index_disp8_emits(form, bits, ops, s).0;
    assert(t.subrange(0, s.0.len() as int) =~= s.0);
    assert(t.subrange(s.0.len() as int, (s.0.len() + o.len()) as int) =~= o);
    let o = opcode_bytes(form, bits, rex3_value(ops.arg1, ops.arg0, ops.arg2));
    let t = st_with_index_disp32_emits(form, bits, ops, s).0;
    assert(t.subrange(0, s.0.len() as int) =~= s.0);
    assert(t.subrange(s.0.len() as int, (s.0.len() + o.len()) as int) =~= o);
}

/// A comparison that sets a register (`icscc`) compares its first argument (ModR/M `rm`) with its
/// second (`reg`), then sets the low byte of its result (`rm` of the `setcc` ModR/M byte, after
/// `0x0f` and the `setcc` opcode for the condition); a conditional move (`cmov`) moves its third
/// argument (`reg`) into its second (`rm`), the condition's code added to the opcode.
pub proof fn law_compare_select_operands(form: OpForm, bits: u16, ops: InstOperands, s: SinkContents)
    ensures
        ({
            let k = (s.0.len() + opcode_bytes(form, bits, rex2_value(ops.arg0, ops.arg1)).len()) as int;
            let t = icscc_emits(form, bits, ops, s).0;
            &&& opcode_then_modrm(s.0, t, form, bits, ops.arg0, ops.arg1, k)
            &&& t.len() == k + 4
            &&& t[k] >> 6u8 == 3
            &&& (t[k] >> 3u8) & 7 == (ops.arg1 as u8) & 7
            &&& t[k] & 7 == (ops.arg0 as u8) & 7
            &&& t[k + 1] == 0x0f
            &&& t[k + 2] == (0x90u16 | icc_opcode(ops.intcc)) as u8
            &&& t[k + 3] >> 6u8 == 3
            &&& t[k + 3] & 7 == (ops.result as u8) & 7
        }),
        register_pair(s.0, cmov_emits(form, bits, ops, s).0, form, bits | icc_opcode(ops.intcc), ops.arg1, ops.arg2),
{
    law_modrm_fields(3, ops.arg1 as u8, ops.arg0 as u8);
    law_modrm_fields(3, 0, ops.result as u8);
    law_modrm_fields(3, ops.arg2 as u8, ops.arg1 as u8);
    let k = (s.0.len() + opcode_bytes(form, bits, rex2_value(ops.arg0, ops.arg1)).len()) as int;
    let t = icscc_emits(form, bits, ops, s).0;
    assert(t.subrange(0, s.0.len() as int) =~= s.0);
    assert(t.subrange(s.0.len() as int, k) =~= opcode_bytes(form, bits, rex2_value(ops.arg0, ops.arg1)));
    let t = cmov_emits(form, bits, ops, s).0;
    assert(t.subrange(0, s.0.len() as int) =~= s.0);
    assert(t.subrange(s.0.len() as int, t.len() - 1) =~= opcode_bytes(form, bits | icc_opcode(ops.intcc), rex2_value(ops.arg1, ops.arg2)));
}

} // verus!
