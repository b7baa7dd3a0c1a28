//! Emitting binary x86 machine code.

use vstd::prelude::*;
use crate::binemit::{le_bytes4, sink_capacity, with_bytes, with_reloc, CodeOffset, CodeSink, Reloc, RelocTarget, SinkContents, extends};
use crate::ir::{is_rounding, Encoding, FloatCC, InstructionFormat, IntCC, Opcode, TrapCode};
use crate::isa::x86::recipes::{emit_recipe, recipe_appends, recipe_emits, recipe_format, recipe_ok, NUM_RECIPES};
use crate::isa::registers::RegUnit;
use crate::regalloc::{current_location, diverted, Diversion, RegDiversions, ValueLoc};

verus! {

/// The base of a stack reference.
#[derive(Copy, Clone, Debug, PartialEq, Eq, Structural)]
pub enum StackBase {
    /// Use the stack pointer.
    SP,
    /// Use the frame pointer.
    FP,
    /// Use an explicit zone pointer in a general-purpose register.
    Zone,
}

/// Register unit of `%rsp`.
pub const RU_RSP: RegUnit = 4;

/// Register unit of `%rbp`.
pub const RU_RBP: RegUnit = 5;

/// Register unit of `%r15`, the pinned register.
pub const RU_R15: RegUnit = 15;

/// The register that a stack base other than a zone pointer names.
pub open spec fn stack_base_reg(base: StackBase) -> RegUnit {
    if base == StackBase::SP {
        RU_RSP
    } else {
        RU_RBP
    }
}

/// Convert a stack base to the corresponding register.
pub fn stk_base(base: StackBase) -> (r: RegUnit)
    requires
        base != StackBase::Zone,
    ensures
        r == stack_base_reg(base),
{
    let ru = match base {
        StackBase::SP => RU_RSP,
        StackBase::FP => RU_RBP,
        StackBase::Zone => RU_RBP,
    };
    ru
}

/// A reference to a stack slot: a base register and an offset from it.
#[derive(Copy, Clone, Debug, PartialEq, Eq, Structural)]
pub struct StackRef {
    /// The base register of the reference.
    pub base: StackBase,
    /// The offset from the base register.
    pub offset: i32,
}

/// Does the register need a SIB byte to be used as a base address (`%rsp` and `%r12`)?
pub open spec fn sib_byte_needed(reg: RegUnit) -> bool {
    reg == RU_RSP || reg == 12
}

/// Does the register need an explicit offset to be used as a base address (`%rbp` and `%r13`)?
pub open spec fn offset_needed(reg: RegUnit) -> bool {
    reg == RU_RBP || reg == 13
}

/// Is a SIB byte needed to use `reg` as a base register in an address?
pub fn needs_sib_byte(reg: RegUnit) -> (r: bool)
    ensures
        r == sib_byte_needed(reg),
{
    reg == RU_RSP || reg == 12
}

/// Is an explicit offset needed to use `reg` as a base register in an address?
pub fn needs_offset(reg: RegUnit) -> (r: bool)
    ensures
        r == offset_needed(reg),
{
    reg == RU_RBP || reg == 13
}

/// The operands of an instruction as the x86 recipes read them: its format and opcode; the
/// registers and stack slots the register allocator assigned to its values, diversions applied;
/// its immediates, condition codes and memory flags; and what the function's layout gives it:
/// branch destination offsets, jump table and constant offsets, the symbol it refers to, and its
/// source location.
#[derive(Copy, Clone, Debug, PartialEq, Eq, Structural)]
pub struct InstOperands {
    /// The instruction format.
    pub format: InstructionFormat,
    /// The opcode, as far as a recipe tells opcodes apart.
    pub opcode: Opcode,
    /// Register of the first value argument.
    pub arg0: RegUnit,
    /// Register of the second value argument.
    pub arg1: RegUnit,
    /// Register of the third value argument.
    pub arg2: RegUnit,
    /// Register of the first result.
    pub result: RegUnit,
    /// The value a register move, spill or fill moves.
    pub value: u32,
    /// The stack slot a spill writes or a fill reads.
    pub slot: u32,
    /// Source register of a register move, copy or spill.
    pub src: RegUnit,
    /// Destination register of a register move, copy or fill.
    pub dst: RegUnit,
    /// Stack slot of the argument: a spilled argument, the source of a fill, or the slot whose
    /// address is taken.
    pub arg_slot: StackRef,
    /// Stack slot of the result: a spilled result or the destination of a spill.
    pub result_slot: StackRef,
    /// Integer immediate.
    pub imm: i64,
    /// Address offset of a memory access or stack address.
    pub offset: i32,
    /// Lane index.
    pub lane: u8,
    /// Boolean immediate.
    pub bool_imm: bool,
    /// The memory access cannot trap.
    pub notrap: bool,
    /// Integer condition code.
    pub intcc: IntCC,
    /// Floating point condition code.
    pub floatcc: FloatCC,
    /// Trap code of a trapping instruction.
    pub trap_code: TrapCode,
    /// Code offset of the branch destination.
    pub destination: CodeOffset,
    /// The jump table referred to.
    pub table: u32,
    /// Offset of the jump table.
    pub table_offset: CodeOffset,
    /// Offset of the constant in the constant pool.
    pub constant_offset: CodeOffset,
    /// The external symbol referred to, by index.
    pub symbol: u32,
    /// Source location of the instruction.
    pub srcloc: u32,
}

/// Operands of the given format with every register, immediate and offset zero, stack slots at
/// offset zero from the stack pointer, and no trap flags.
pub open spec fn plain_operands(format: InstructionFormat) -> InstOperands {
    InstOperands {
        format,
        opcode: Opcode::Other,
        arg0: 0,
        arg1: 0,
        arg2: 0,
        result: 0,
        value: 0,
        slot: 0,
        src: 0,
        dst: 0,
        arg_slot: StackRef { base: StackBase::SP, offset: 0 },
        result_slot: StackRef { base: StackBase::SP, offset: 0 },
        imm: 0,
        offset: 0,
        lane: 0,
        bool_imm: false,
        notrap: false,
        intcc: IntCC::Equal,
        floatcc: FloatCC::Equal,
        trap_code: TrapCode::User(0),
        destination: 0,
        table: 0,
        table_offset: 0,
        constant_offset: 0,
        symbol: 0,
        srcloc: 0,
    }
}

impl InstOperands {
    /// Operands of the given format, all zero; the caller fills in what the instruction has.
    pub fn new(format: InstructionFormat) -> (r: Self)
        ensures
            r == plain_operands(format),
    {
        InstOperands {
            format,
            opcode: Opcode::Other,
            arg0: 0,
            arg1: 0,
            arg2: 0,
            result: 0,
            value: 0,
            slot: 0,
            src: 0,
            dst: 0,
            arg_slot: StackRef { base: StackBase::SP, offset: 0 },
            result_slot: StackRef { base: StackBase::SP, offset: 0 },
            imm: 0,
            offset: 0,
            lane: 0,
            bool_imm: false,
            notrap: false,
            intcc: IntCC::Equal,
            floatcc: FloatCC::Equal,
            trap_code: TrapCode::User(0),
            destination: 0,
            table: 0,
            table_offset: 0,
            constant_offset: 0,
            symbol: 0,
            srcloc: 0,
        }
    }

    /// These operands with the registers that the value arguments `args` (up to three) and the
    /// result `result` live in now, after the diversions `divert`, as `locations` assigned them.
    pub fn with_registers(
        self,
        args: &Vec<u32>,
        result: Option<u32>,
        locations: &Vec<ValueLoc>,
        divert: &RegDiversions,
    ) -> (r: Self)
        requires
            args@.len() <= 3,
            forall|i: int| 0 <= i < args@.len() ==> #[trigger] args@[i] < locations@.len()
                && current_location(divert@, locations@, args@[i]) is Reg,
            result matches Some(x) ==> x < locations@.len() && current_location(divert@, locations@, x) is Reg,
        ensures
            r == (InstOperands {
                arg0: if args@.len() > 0 { current_location(divert@, locations@, args@[0])->Reg_0 } else { self.arg0 },
                arg1: if args@.len() > 1 { current_location(divert@, locations@, args@[1])->Reg_0 } else { self.arg1 },
                arg2: if args@.len() > 2 { current_location(divert@, locations@, args@[2])->Reg_0 } else { self.arg2 },
                result: match result {
                    Some(x) => current_location(divert@, locations@, x)->Reg_0,
                    None => self.result,
                },
                ..self
            }),
    {
        let mut r = self;
        if args.len() > 0 {
            r.arg0 = divert.reg(args[0], locations);
        }
        if args.len() > 1 {
            r.arg1 = divert.reg(args[1], locations);
        }
        if args.len() > 2 {
            r.arg2 = divert.reg(args[2], locations);
        }
        match result {
            Some(x) => {
                r.result = divert.reg(x, locations);
            },
            None => {},
        }
        r
    }
}

/// The `setCC` opcode byte that tests a supported floating point condition code.
pub open spec fn fcscc_byte(cond: FloatCC) -> u8 {
    match cond {
        FloatCC::Ordered => 0x9b,
        FloatCC::Unordered => 0x9a,
        FloatCC::OrderedNotEqual => 0x95,
        FloatCC::UnorderedOrEqual => 0x94,
        FloatCC::GreaterThan => 0x97,
        FloatCC::GreaterThanOrEqual => 0x93,
        FloatCC::UnorderedOrLessThan => 0x92,
        _ => 0x96,
    }
}

/// The `setCC` opcode byte for a floating point comparison.
pub fn fcscc_setcc(cond: FloatCC) -> (r: u8)
    requires
        fcc_supported(cond),
    ensures
        r == fcscc_byte(cond),
{
    let r: u8 = match cond {
        FloatCC::Ordered => 0x9b,  // EQ|LT|GT => setnp (P=0)
        FloatCC::Unordered => 0x9a,  // UN       => setp  (P=1)
        FloatCC::OrderedNotEqual => 0x95,  // LT|GT    => setne (Z=0),
        FloatCC::UnorderedOrEqual => 0x94,  // UN|EQ    => sete  (Z=1)
        FloatCC::GreaterThan => 0x97,  // GT       => seta  (C=0&Z=0)
        FloatCC::GreaterThanOrEqual => 0x93,  // GT|EQ    => setae (C=0)
        FloatCC::UnorderedOrLessThan => 0x92,  // UN|LT    => setb  (C=1)
        _ => 0x96,  // UN|LT|EQ => setbe (Z=1|C=1)
    };
    r
}

/// The rounding-mode immediate of a rounding opcode.
pub open spec fn rounding_bits(opcode: Opcode) -> u8 {
    match opcode {
        Opcode::Nearest => 0b00,
        Opcode::Floor => 0b01,
        Opcode::Ceil => 0b10,
        _ => 0b11,
    }
}

/// The rounding-mode immediate of `roundss`/`roundsd` for a rounding opcode.
pub fn rounding_mode(opcode: Opcode) -> (r: u8)
    requires
        is_rounding(opcode),
    ensures
        r == rounding_bits(opcode),
{
    match opcode {
        Opcode::Nearest => 0b00,
        Opcode::Floor => 0b01,
        Opcode::Ceil => 0b10,
        _ => 0b11,
    }
}

/// Mandatory prefix bytes for Mp* opcodes, for `pp` = 1, 2, 3.
pub open spec fn prefix_byte(pp: u16) -> u8 {
    if pp == 1 {
        0x66
    } else if pp == 2 {
        0xf3
    } else {
        0xf2
    }
}

pub(crate) fn prefix(pp: u16) -> (r: u8)
    requires
        1 <= pp <= 3,
    ensures
        r == prefix_byte(pp),
{
    let table: [u8; 3] = [0x66, 0xf3, 0xf2];
    table[(pp - 1) as usize]
}

/// Second byte for three-byte opcodes for mm=0b10 and mm=0b11.
pub open spec fn op3_byte2(mm: u16) -> u8 {
    if mm == 2 {
        0x38
    } else {
        0x3a
    }
}

pub(crate) fn op3_byte(mm: u16) -> (r: u8)
    requires
        2 <= mm <= 3,
    ensures
        r == op3_byte2(mm),
{
    let table: [u8; 2] = [0x38, 0x3a];
    table[(mm - 2) as usize]
}

/// A REX prefix with no bits set: 0b0100WRXB.
pub const BASE_REX: u8 = 0b0100_0000;

/// Bit 3 of a register unit, as a byte.
pub open spec fn high_bit(r: RegUnit) -> u8 {
    ((r >> 3u16) & 1) as u8
}

/// The single-register REX prefix: the B bit is bit 3 of `reg_b`.
pub open spec fn rex1_value(reg_b: RegUnit) -> u8 {
    BASE_REX | high_bit(reg_b)
}

/// The dual-register REX prefix: B from the r/m register, R from the reg register.
pub open spec fn rex2_value(rm: RegUnit, reg: RegUnit) -> u8 {
    BASE_REX | high_bit(rm) | (high_bit(reg) << 2u8)
}

/// The three-register REX prefix: B from the r/m register, X from the index register, R from
/// the reg register.
pub open spec fn rex3_value(rm: RegUnit, reg: RegUnit, index: RegUnit) -> u8 {
    BASE_REX | high_bit(rm) | (high_bit(index) << 1u8) | (high_bit(reg) << 2u8)
}

/// Create a single-register REX prefix, setting the B bit to bit 3 of the register.
/// This is used for instructions that encode a register in the low 3 bits of the opcode and for
/// instructions that use the ModR/M `reg` field for something else.
pub fn rex1(reg_b: RegUnit) -> (r: u8)
    ensures
        r == rex1_value(reg_b),
{
    let b = ((reg_b >> 3u16) & 1) as u8;
    BASE_REX | b
}

/// Create a dual-register REX prefix, setting:
///
/// REX.B = bit 3 of r/m register, or SIB base register when a SIB byte is present.
/// REX.R = bit 3 of reg register.
pub fn rex2(rm: RegUnit, reg: RegUnit) -> (r: u8)
    ensures
        r == rex2_value(rm, reg),
{
    let b = ((rm >> 3u16) & 1) as u8;
    let r = ((reg >> 3u16) & 1) as u8;
    BASE_REX | b | (r << 2u8)
}

/// Create a three-register REX prefix, setting:
///
/// REX.B = bit 3 of r/m register, or SIB base register when a SIB byte is present.
/// REX.R = bit 3 of reg register.
/// REX.X = bit 3 of SIB index register.
pub fn rex3(rm: RegUnit, reg: RegUnit, index: RegUnit) -> (r: u8)
    ensures
        r == rex3_value(rm, reg, index),
{
    let b = ((rm >> 3u16) & 1) as u8;
    let r = ((reg >> 3u16) & 1) as u8;
    let x = ((index >> 3u16) & 1) as u8;
    BASE_REX | b | (x << 1u8) | (r << 2u8)
}

/// The REX byte emitted for `rex` with the W bit taken from bit 15 of `bits`.
pub open spec fn rex_byte(bits: u16, rex: u8) -> u8 {
    rex | ((((bits >> 15u16) & 1) as u8) << 3u8)
}

/// The low byte of the encoding bits: the opcode byte.
pub open spec fn opcode_byte(bits: u16) -> u8 {
    bits as u8
}

/// Emit a REX prefix.
///
/// The R, X, and B bits are computed from registers using the functions above. The W bit is
/// extracted from `bits`.
pub(crate) fn rex_prefix(bits: u16, rex: u8, sink: &mut CodeSink)
    requires
        rex & 0xf8 == BASE_REX,
    ensures
        final(sink)@ == with_bytes(old(sink)@, seq![rex_byte(bits, rex)]),
{
    let w = ((bits >> 15u16) & 1) as u8;
    sink.put1(rex | (w << 3u8));
}

/// Emit a single-byte opcode with no REX prefix.
pub(crate) fn put_op1(bits: u16, rex: u8, sink: &mut CodeSink)
    requires
        bits & 0x8f00 == 0,
        rex == BASE_REX,
    ensures
        final(sink)@ == with_bytes(old(sink)@, seq![opcode_byte(bits)]),
{
    sink.put1(bits as u8);
}

/// Emit a single-byte opcode with REX prefix.
pub(crate) fn put_rexop1(bits: u16, rex: u8, sink: &mut CodeSink)
    requires
        bits & 0x0f00 == 0,
        rex & 0xf8 == BASE_REX,
    ensures
        final(sink)@ == with_bytes(old(sink)@, seq![rex_byte(bits, rex), opcode_byte(bits)]),
{
    rex_prefix(bits, rex, sink);
    sink.put1(bits as u8);
    assert(sink.bytes() =~= old(sink).bytes() + seq![rex_byte(bits, rex), opcode_byte(bits)]);
}

/// Emit two-byte opcode: 0F XX
pub(crate) fn put_op2(bits: u16, rex: u8, sink: &mut CodeSink)
    requires
        bits & 0x8f00 == 0x0400,
        rex == BASE_REX,
    ensures
        final(sink)@ == with_bytes(old(sink)@, seq![0x0fu8, opcode_byte(bits)]),
{
    sink.put1(0x0f);
    sink.put1(bits as u8);
    assert(sink.bytes() =~= old(sink).bytes() + seq![0x0fu8, opcode_byte(bits)]);
}

/// Emit two-byte opcode: 0F XX with REX prefix.
pub(crate) fn put_rexop2(bits: u16, rex: u8, sink: &mut CodeSink)
    requires
        bits & 0x0f00 == 0x0400,
        rex & 0xf8 == BASE_REX,
    ensures
        final(sink)@ == with_bytes(old(sink)@, seq![
            rex_byte(bits, rex),
            0x0fu8,
            opcode_byte(bits),
        ]),
{
    rex_prefix(bits, rex, sink);
    sink.put1(0x0f);
    sink.put1(bits as u8);
    assert(sink.bytes() =~= old(sink).bytes() + seq![
        rex_byte(bits, rex),
        0x0fu8,
        opcode_byte(bits),
    ]);
}

/// The `pp` field of the encoding bits, selecting a mandatory prefix.
pub open spec fn pp_field(bits: u16) -> u16 {
    (bits >> 8u16) & 3
}

/// The `mm` field of the encoding bits, selecting the opcode map.
pub open spec fn mm_field(bits: u16) -> u16 {
    (bits >> 10u16) & 3
}

/// The `pp` and `mm` fields have two bits each.
proof fn lemma_fields(bits: u16)
    ensures
        pp_field(bits) <= 3,
        mm_field(bits) <= 3,
{
    assert((bits >> 8u16) & 3 <= 3 && (bits >> 10u16) & 3 <= 3) by (bit_vector);
}

/// Emit single-byte opcode with mandatory prefix.
pub(crate) fn put_mp1(bits: u16, rex: u8, sink: &mut CodeSink)
    requires
        bits & 0x8c00 == 0,
        pp_field(bits) != 0,
        rex == BASE_REX,
    ensures
        final(sink)@ == with_bytes(old(sink)@, seq![
            prefix_byte(pp_field(bits)),
            opcode_byte(bits),
        ]),
{
    let pp = (bits >> 8u16) & 3;
    proof {
        lemma_fields(bits);
    }
    sink.put1(prefix(pp));
    sink.put1(bits as u8);
    assert(sink.bytes() =~= old(sink).bytes() + seq![
        prefix_byte(pp_field(bits)),
        opcode_byte(bits),
    ]);
}

/// Emit single-byte opcode with mandatory prefix and REX.
pub(crate) fn put_rexmp1(bits: u16, rex: u8, sink: &mut CodeSink)
    requires
        bits & 0x0c00 == 0,
        pp_field(bits) != 0,
        rex & 0xf8 == BASE_REX,
    ensures
        final(sink)@ == with_bytes(old(sink)@, seq![
            prefix_byte(pp_field(bits)),
            rex_byte(bits, rex),
            opcode_byte(bits),
        ]),
{
    let pp = (bits >> 8u16) & 3;
    proof {
        lemma_fields(bits);
    }
    sink.put1(prefix(pp));
    rex_prefix(bits, rex, sink);
    sink.put1(bits as u8);
    assert(sink.bytes() =~= old(sink).bytes() + seq![
        prefix_byte(pp_field(bits)),
        rex_byte(bits, rex),
        opcode_byte(bits),
    ]);
}

/// Emit two-byte opcode (0F XX) with mandatory prefix.
pub(crate) fn put_mp2(bits: u16, rex: u8, sink: &mut CodeSink)
    requires
        bits & 0x8c00 == 0x0400,
        pp_field(bits) != 0,
        rex == BASE_REX,
    ensures
        final(sink)@ == with_bytes(old(sink)@, seq![
            prefix_byte(pp_field(bits)),
            0x0fu8,
            opcode_byte(bits),
        ]),
{
    let pp = (bits >> 8u16) & 3;
    proof {
        lemma_fields(bits);
    }
    sink.put1(prefix(pp));
    sink.put1(0x0f);
    sink.put1(bits as u8);
    assert(sink.bytes() =~= old(sink).bytes() + seq![
        prefix_byte(pp_field(bits)),
        0x0fu8,
        opcode_byte(bits),
    ]);
}

/// Emit two-byte opcode (0F XX) with mandatory prefix and REX.
pub(crate) fn put_rexmp2(bits: u16, rex: u8, sink: &mut CodeSink)
    requires
        bits & 0x0c00 == 0x0400,
        pp_field(bits) != 0,
        rex & 0xf8 == BASE_REX,
    ensures
        final(sink)@ == with_bytes(old(sink)@, seq![
            prefix_byte(pp_field(bits)),
            rex_byte(bits, rex),
            0x0fu8,
            opcode_byte(bits),
        ]),
{
    let pp = (bits >> 8u16) & 3;
    proof {
        lemma_fields(bits);
    }
    sink.put1(prefix(pp));
    rex_prefix(bits, rex, sink);
    sink.put1(0x0f);
    sink.put1(bits as u8);
    assert(sink.bytes() =~= old(sink).bytes() + seq![
        prefix_byte(pp_field(bits)),
        rex_byte(bits, rex),
        0x0fu8,
        opcode_byte(bits),
    ]);
}

/// Emit three-byte opcode (0F 3[8A] XX) with mandatory prefix.
pub(crate) fn put_mp3(bits: u16, rex: u8, sink: &mut CodeSink)
    requires
        bits & 0x8800 == 0x0800,
        pp_field(bits) != 0,
        rex == BASE_REX,
    ensures
        final(sink)@ == with_bytes(old(sink)@, seq![
            prefix_byte(pp_field(bits)),
            0x0fu8,
            op3_byte2(mm_field(bits)),
            opcode_byte(bits),
        ]),
{
    let pp = (bits >> 8u16) & 3;
    proof {
        lemma_fields(bits);
    }
    sink.put1(prefix(pp));
    let mm = (bits >> 10u16) & 3;
    assert(mm >= 2) by (bit_vector)
        requires
            bits & 0x8800 == 0x0800,
            mm == (bits >> 10u16) & 3,
    ;
    sink.put1(0x0f);
    sink.put1(op3_byte(mm));
    sink.put1(bits as u8);
    assert(sink.bytes() =~= old(sink).bytes() + seq![
        prefix_byte(pp_field(bits)),
        0x0fu8,
        op3_byte2(mm_field(bits)),
        opcode_byte(bits),
    ]);
}

/// Emit three-byte opcode (0F 3[8A] XX) with mandatory prefix and REX
pub(crate) fn put_rexmp3(bits: u16, rex: u8, sink: &mut CodeSink)
    requires
        bits & 0x0800 == 0x0800,
        pp_field(bits) != 0,
        rex & 0xf8 == BASE_REX,
    ensures
        final(sink)@ == with_bytes(old(sink)@, seq![
            prefix_byte(pp_field(bits)),
            rex_byte(bits, rex),
            0x0fu8,
            op3_byte2(mm_field(bits)),
            opcode_byte(bits),
        ]),
{
    let pp = (bits >> 8u16) & 3;
    proof {
        lemma_fields(bits);
    }
    sink.put1(prefix(pp));
    rex_prefix(bits, rex, sink);
    let mm = (bits >> 10u16) & 3;
    assert(mm >= 2) by (bit_vector)
        requires
            bits & 0x0800 == 0x0800,
            mm == (bits >> 10u16) & 3,
    ;
    sink.put1(0x0f);
    sink.put1(op3_byte(mm));
    sink.put1(bits as u8);
    assert(sink.bytes() =~= old(sink).bytes() + seq![
        prefix_byte(pp_field(bits)),
        rex_byte(bits, rex),
        0x0fu8,
        op3_byte2(mm_field(bits)),
        opcode_byte(bits),
    ]);
}

/// The ways an opcode is emitted: with one, two or three opcode bytes, with or without a
/// mandatory prefix, with or without a REX prefix.
#[derive(Copy, Clone, Debug, PartialEq, Eq, Structural)]
pub enum OpForm {
    /// Single-byte opcode.
    Op1,
    /// Single-byte opcode with REX prefix.
    RexOp1,
    /// Two-byte opcode `0F XX`.
    Op2,
    /// Two-byte opcode with REX prefix.
    RexOp2,
    /// Single-byte opcode with mandatory prefix.
    Mp1,
    /// Single-byte opcode with mandatory prefix and REX.
    RexMp1,
    /// Two-byte opcode with mandatory prefix.
    Mp2,
    /// Two-byte opcode with mandatory prefix and REX.
    RexMp2,
    /// Three-byte opcode with mandatory prefix.
    Mp3,
    /// Three-byte opcode with mandatory prefix and REX.
    RexMp3,
}

/// The encoding bits and REX prefix that an opcode form accepts.
pub open spec fn opcode_ok(form: OpForm, bits: u16, rex: u8) -> bool {
    match form {
        OpForm::Op1 => bits & 0x8f00 == 0 && rex == BASE_REX,
        OpForm::RexOp1 => bits & 0x0f00 == 0 && rex & 0xf8 == BASE_REX,
        OpForm::Op2 => bits & 0x8f00 == 0x0400 && rex == BASE_REX,
        OpForm::RexOp2 => bits & 0x0f00 == 0x0400 && rex & 0xf8 == BASE_REX,
        OpForm::Mp1 => bits & 0x8c00 == 0 && pp_field(bits) != 0 && rex == BASE_REX,
        OpForm::RexMp1 => bits & 0x0c00 == 0 && pp_field(bits) != 0 && rex & 0xf8 == BASE_REX,
        OpForm::Mp2 => bits & 0x8c00 == 0x0400 && pp_field(bits) != 0 && rex == BASE_REX,
        OpForm::RexMp2 => bits & 0x0c00 == 0x0400 && pp_field(bits) != 0 && rex & 0xf8
            == BASE_REX,
        OpForm::Mp3 => bits & 0x8800 == 0x0800 && pp_field(bits) != 0 && rex == BASE_REX,
        OpForm::RexMp3 => bits & 0x0800 == 0x0800 && pp_field(bits) != 0 && rex & 0xf8
            == BASE_REX,
    }
}

/// The prefix and opcode bytes an opcode form emits.
pub open spec fn opcode_bytes(form: OpForm, bits: u16, rex: u8) -> Seq<u8> {
    match form {
        OpForm::Op1 => seq![opcode_byte(bits)],
        OpForm::RexOp1 => seq![rex_byte(bits, rex), opcode_byte(bits)],
        OpForm::Op2 => seq![0x0fu8, opcode_byte(bits)],
        OpForm::RexOp2 => seq![rex_byte(bits, rex), 0x0fu8, opcode_byte(bits)],
        OpForm::Mp1 => seq![prefix_byte(pp_field(bits)), opcode_byte(bits)],
        OpForm::RexMp1 => seq![prefix_byte(pp_field(bits)), rex_byte(bits, rex), opcode_byte(bits)],
        OpForm::Mp2 => seq![prefix_byte(pp_field(bits)), 0x0fu8, opcode_byte(bits)],
        OpForm::RexMp2 => seq![
            prefix_byte(pp_field(bits)),
            rex_byte(bits, rex),
            0x0fu8,
            opcode_byte(bits),
        ],
        OpForm::Mp3 => seq![
            prefix_byte(pp_field(bits)),
            0x0fu8,
            op3_byte2(mm_field(bits)),
            opcode_byte(bits),
        ],
        OpForm::RexMp3 => seq![
            prefix_byte(pp_field(bits)),
            rex_byte(bits, rex),
            0x0fu8,
            op3_byte2(mm_field(bits)),
            opcode_byte(bits),
        ],
    }
}

/// Emit the opcode of `bits` in the given form.
pub(crate) fn put_opcode(form: OpForm, bits: u16, rex: u8, sink: &mut CodeSink)
    requires
        opcode_ok(form, bits, rex),
    ensures
        final(sink)@ == with_bytes(old(sink)@, opcode_bytes(form, bits, rex)),
{
    match form {
        OpForm::Op1 => put_op1(bits, rex, sink),
        OpForm::RexOp1 => put_rexop1(bits, rex, sink),
        OpForm::Op2 => put_op2(bits, rex, sink),
        OpForm::RexOp2 => put_rexop2(bits, rex, sink),
        OpForm::Mp1 => put_mp1(bits, rex, sink),
        OpForm::RexMp1 => put_rexmp1(bits, rex, sink),
        OpForm::Mp2 => put_mp2(bits, rex, sink),
        OpForm::RexMp2 => put_rexmp2(bits, rex, sink),
        OpForm::Mp3 => put_mp3(bits, rex, sink),
        OpForm::RexMp3 => put_rexmp3(bits, rex, sink),
    }
}

/// A ModR/M byte: `mod` in bits 7-6, `reg` in bits 5-3, `rm` in bits 2-0.
pub open spec fn modrm_byte(mode: u8, reg: u8, rm: u8) -> u8 {
    (mode << 6u8) | ((reg & 7) << 3u8) | (rm & 7)
}

/// Emit a ModR/M byte for reg-reg operands.
pub(crate) fn modrm_rr(rm: RegUnit, reg: RegUnit, sink: &mut CodeSink)
    ensures
        final(sink)@ == with_bytes(old(sink)@, seq![modrm_byte(0b11, reg as u8, rm as u8)]),
{
    let reg7 = reg as u8 & 7;
    let rm7 = rm as u8 & 7;
    let mut b: u8 = 0b11000000;
    b |= reg7 << 3u8;
    b |= rm7;
    assert(b == modrm_byte(0b11, reg as u8, rm as u8)) by (bit_vector)
        requires
            reg7 == (reg as u8) & 7,
            rm7 == (rm as u8) & 7,
            b == (0b11000000u8 | (reg7 << 3u8)) | rm7,
    ;
    sink.put1(b);
}

/// Emit a ModR/M byte where the reg bits are part of the opcode.
pub(crate) fn modrm_r_bits(rm: RegUnit, bits: u16, sink: &mut CodeSink)
    ensures
        final(sink)@ == with_bytes(old(sink)@, seq![modrm_byte(0b11, (bits >> 12u16) as u8, rm as u8)]),
{
    let reg7 = (bits >> 12u16) as u8 & 7;
    let rm7 = rm as u8 & 7;
    let mut b: u8 = 0b11000000;
    b |= reg7 << 3u8;
    b |= rm7;
    assert(b == modrm_byte(0b11, (bits >> 12u16) as u8, rm as u8)) by (bit_vector)
        requires
            reg7 == ((bits >> 12u16) as u8) & 7,
            rm7 == (rm as u8) & 7,
            b == (0b11000000u8 | (reg7 << 3u8)) | rm7,
    ;
    sink.put1(b);
}

/// Emit a mode 00 ModR/M byte. This is a register-indirect addressing mode with no offset.
/// Registers %rsp and %rbp are invalid for `rm`, %rsp indicates a SIB byte, and %rbp indicates an
/// absolute immediate 32-bit address.
pub(crate) fn modrm_rm(rm: RegUnit, reg: RegUnit, sink: &mut CodeSink)
    ensures
        final(sink)@ == with_bytes(old(sink)@, seq![modrm_byte(0b00, reg as u8, rm as u8)]),
{
    let reg7 = reg as u8 & 7;
    let rm7 = rm as u8 & 7;
    let mut b: u8 = 0b00000000;
    b |= reg7 << 3u8;
    b |= rm7;
    assert(b == modrm_byte(0b00, reg as u8, rm as u8)) by (bit_vector)
        requires
            reg7 == (reg as u8) & 7,
            rm7 == (rm as u8) & 7,
            b == (0b00000000u8 | (reg7 << 3u8)) | rm7,
    ;
    sink.put1(b);
}

/// Emit a mode 00 Mod/RM byte, with a rip-relative displacement in 64-bit mode. Effective address
/// is calculated by adding displacement to 64-bit rip of next instruction. See intel Sw dev manual
/// section 2.2.1.6.
pub(crate) fn modrm_riprel(reg: RegUnit, sink: &mut CodeSink)
    ensures
        final(sink)@ == with_bytes(old(sink)@, seq![modrm_byte(0b00, reg as u8, 0b101)]),
{
    modrm_rm(0b101, reg, sink)
}

/// Emit a mode 01 ModR/M byte. This is a register-indirect addressing mode with 8-bit
/// displacement.
/// Register %rsp is invalid for `rm`. It indicates the presence of a SIB byte.
pub(crate) fn modrm_disp8(rm: RegUnit, reg: RegUnit, sink: &mut CodeSink)
    ensures
        final(sink)@ == with_bytes(old(sink)@, seq![modrm_byte(0b01, reg as u8, rm as u8)]),
{
    let reg7 = reg as u8 & 7;
    let rm7 = rm as u8 & 7;
    let mut b: u8 = 0b01000000;
    b |= reg7 << 3u8;
    b |= rm7;
    assert(b == modrm_byte(0b01, reg as u8, rm as u8)) by (bit_vector)
        requires
            reg7 == (reg as u8) & 7,
            rm7 == (rm as u8) & 7,
            b == (0b01000000u8 | (reg7 << 3u8)) | rm7,
    ;
    sink.put1(b);
}

/// Emit a mode 10 ModR/M byte. This is a register-indirect addressing mode with 32-bit
/// displacement.
/// Register %rsp is invalid for `rm`. It indicates the presence of a SIB byte.
pub(crate) fn modrm_disp32(rm: RegUnit, reg: RegUnit, sink: &mut CodeSink)
    ensures
        final(sink)@ == with_bytes(old(sink)@, seq![modrm_byte(0b10, reg as u8, rm as u8)]),
{
    let reg7 = reg as u8 & 7;
    let rm7 = rm as u8 & 7;
    let mut b: u8 = 0b10000000;
    b |= reg7 << 3u8;
    b |= rm7;
    assert(b == modrm_byte(0b10, reg as u8, rm as u8)) by (bit_vector)
        requires
            reg7 == (reg as u8) & 7,
            rm7 == (rm as u8) & 7,
            b == (0b10000000u8 | (reg7 << 3u8)) | rm7,
    ;
    sink.put1(b);
}

/// Emit a mode 00 ModR/M with a 100 RM indicating a SIB byte is present.
pub(crate) fn modrm_sib(reg: RegUnit, sink: &mut CodeSink)
    ensures
        final(sink)@ == with_bytes(old(sink)@, seq![modrm_byte(0b00, reg as u8, 0b100)]),
{
    modrm_rm(0b100, reg, sink);
}

/// Emit a mode 01 ModR/M with a 100 RM indicating a SIB byte and 8-bit
/// displacement are present.
pub(crate) fn modrm_sib_disp8(reg: RegUnit, sink: &mut CodeSink)
    ensures
        final(sink)@ == with_bytes(old(sink)@, seq![modrm_byte(0b01, reg as u8, 0b100)]),
{
    modrm_disp8(0b100, reg, sink);
}

/// Emit a mode 10 ModR/M with a 100 RM indicating a SIB byte and 32-bit
/// displacement are present.
pub(crate) fn modrm_sib_disp32(reg: RegUnit, sink: &mut CodeSink)
    ensures
        final(sink)@ == with_bytes(old(sink)@, seq![modrm_byte(0b10, reg as u8, 0b100)]),
{
    modrm_disp32(0b100, reg, sink);
}

/// A SIB byte: scale in bits 7-6, index in bits 5-3, base in bits 2-0.
pub open spec fn sib_byte(scale: u8, index: u8, base: u8) -> u8 {
    ((scale & 3) << 6u8) | ((index & 7) << 3u8) | (base & 7)
}

/// Emit a SIB byte with a base register and no scale+index.
pub(crate) fn sib_noindex(base: RegUnit, sink: &mut CodeSink)
    ensures
        final(sink)@ == with_bytes(old(sink)@, seq![sib_byte(0, 0b100, base as u8)]),
{
    let base7 = base as u8 & 7;
    // SIB        SS_III_BBB.
    let mut b: u8 = 0b00_100_000;
    b |= base7;
    assert(b == sib_byte(0, 0b100, base as u8)) by (bit_vector)
        requires
            base7 == (base as u8) & 7,
            b == 0b00_100_000u8 | base7,
    ;
    sink.put1(b);
}

/// Emit a SIB byte with a scale, base, and index.
pub(crate) fn sib(scale: u8, index: RegUnit, base: RegUnit, sink: &mut CodeSink)
    requires
        scale < 4,
    ensures
        final(sink)@ == with_bytes(old(sink)@, seq![sib_byte(scale, index as u8, base as u8)]),
{
    // SIB        SS_III_BBB.
    let scale3 = scale & 3;
    let index7 = index as u8 & 7;
    let base7 = base as u8 & 7;
    let b: u8 = (scale3 << 6u8) | (index7 << 3u8) | base7;
    sink.put1(b);
}

/// The low 4 bits of an opcode for an integer condition code.
pub open spec fn icc_opcode(cond: IntCC) -> u16 {
    match cond {
        IntCC::Overflow => 0x0,
        IntCC::NotOverflow => 0x1,
        IntCC::UnsignedLessThan => 0x2,
        IntCC::UnsignedGreaterThanOrEqual => 0x3,
        IntCC::Equal => 0x4,
        IntCC::NotEqual => 0x5,
        IntCC::UnsignedLessThanOrEqual => 0x6,
        IntCC::UnsignedGreaterThan => 0x7,
        IntCC::SignedLessThan => 0xc,
        IntCC::SignedGreaterThanOrEqual => 0xd,
        IntCC::SignedLessThanOrEqual => 0xe,
        IntCC::SignedGreaterThan => 0xf,
    }
}

/// Get the low 4 bits of an opcode for an integer condition code.
///
/// Add this offset to a base opcode for:
///
/// ---- 0x70: Short conditional branch.
/// 0x0f 0x80: Long conditional branch.
/// 0x0f 0x90: SetCC.
///
pub fn icc2opc(cond: IntCC) -> (r: u16)
    ensures
        r == icc_opcode(cond),
{
    match cond {
        IntCC::Overflow => 0x0,
        IntCC::NotOverflow => 0x1,
        IntCC::UnsignedLessThan => 0x2,
        IntCC::UnsignedGreaterThanOrEqual => 0x3,
        IntCC::Equal => 0x4,
        IntCC::NotEqual => 0x5,
        IntCC::UnsignedLessThanOrEqual => 0x6,
        IntCC::UnsignedGreaterThan => 0x7,
        // 0x8 = Sign.
        // 0x9 = !Sign.
        // 0xa = Parity even.
        // 0xb = Parity odd.
        IntCC::SignedLessThan => 0xc,
        IntCC::SignedGreaterThanOrEqual => 0xd,
        IntCC::SignedLessThanOrEqual => 0xe,
        IntCC::SignedGreaterThan => 0xf,
    }
}

/// The floating point condition codes that the ucomiss/ucomisd flags can test directly.
pub open spec fn fcc_supported(cond: FloatCC) -> bool {
    match cond {
        FloatCC::Ordered | FloatCC::Unordered | FloatCC::OrderedNotEqual
        | FloatCC::UnorderedOrEqual | FloatCC::GreaterThan | FloatCC::GreaterThanOrEqual
        | FloatCC::UnorderedOrLessThan | FloatCC::UnorderedOrLessThanOrEqual => true,
        _ => false,
    }
}

/// The low 4 bits of an opcode for a supported floating point condition code.
pub open spec fn fcc_opcode(cond: FloatCC) -> u16 {
    match cond {
        FloatCC::Ordered => 0xb,
        FloatCC::Unordered => 0xa,
        FloatCC::OrderedNotEqual => 0x5,
        FloatCC::UnorderedOrEqual => 0x4,
        FloatCC::GreaterThan => 0x7,
        FloatCC::GreaterThanOrEqual => 0x3,
        FloatCC::UnorderedOrLessThan => 0x2,
        _ => 0x6,
    }
}

/// Get the low 4 bits of an opcode for a floating point condition code.
///
/// The ucomiss/ucomisd instructions set the FLAGS bits CF/PF/CF like this:
///
///    ZPC OSA
/// UN 111 000
/// GT 000 000
/// LT 001 000
/// EQ 100 000
///
/// Not all floating point condition codes are supported.
pub fn fcc2opc(cond: FloatCC) -> (r: u16)
    requires
        fcc_supported(cond),
    ensures
        r == fcc_opcode(cond),
{
    match cond {
        FloatCC::Ordered => 0xb,  // EQ|LT|GT => *np (P=0)
        FloatCC::Unordered => 0xa,  // UN       => *p  (P=1)
        FloatCC::OrderedNotEqual => 0x5,  // LT|GT    => *ne (Z=0),
        FloatCC::UnorderedOrEqual => 0x4,  // UN|EQ    => *e  (Z=1)
        FloatCC::GreaterThan => 0x7,  // GT       => *a  (C=0&Z=0)
        FloatCC::GreaterThanOrEqual => 0x3,  // GT|EQ    => *ae (C=0)
        FloatCC::UnorderedOrLessThan => 0x2,  // UN|LT    => *b  (C=1)
        _ => 0x6,  // UN|LT|EQ => *be (Z=1|C=1)
    }
}

/// Emit a single-byte branch displacement to `destination`.
pub(crate) fn disp1(destination: CodeOffset, sink: &mut CodeSink)
    requires
        old(sink).bytes().len() + 4 <= sink_capacity(),
    ensures
        final(sink)@ == with_bytes(old(sink)@, seq![
            destination.wrapping_sub((old(sink).bytes().len() + 1) as u32) as u8,
        ]),
{
    let delta = destination.wrapping_sub(sink.offset() + 1);
    sink.put1(delta as u8);
}

/// Emit a four-byte branch displacement to `destination`.
pub(crate) fn disp4(destination: CodeOffset, sink: &mut CodeSink)
    requires
        old(sink).bytes().len() + 4 <= sink_capacity(),
    ensures
        final(sink)@ == with_bytes(old(sink)@, le_bytes4(
            destination.wrapping_sub((old(sink).bytes().len() + 4) as u32),
        )),
{
    let delta = destination.wrapping_sub(sink.offset() + 4);
    sink.put4(delta);
}

/// Emit a four-byte displacement to jump table `jt`, which starts at offset `jt_offset`.
pub(crate) fn jt_disp4(jt: u32, jt_offset: CodeOffset, sink: &mut CodeSink)
    requires
        old(sink).bytes().len() + 4 <= sink_capacity(),
    ensures
        final(sink)@ == with_reloc(
            with_bytes(old(sink)@, le_bytes4(jt_offset.wrapping_sub((old(sink).bytes().len() + 4) as u32))),
            Reloc::X86PCRelRodata4,
            RelocTarget::JumpTable(jt),
            0,
        ),
{
    let delta = jt_offset.wrapping_sub(sink.offset() + 4);
    sink.put4(delta);
    sink.reloc_jt(Reloc::X86PCRelRodata4, jt);
}

/// Emit a four-byte displacement to a constant at offset `offset` of the constant pool.
pub(crate) fn const_disp4(offset: CodeOffset, sink: &mut CodeSink)
    requires
        old(sink).bytes().len() + 4 <= sink_capacity(),
    ensures
        final(sink)@ == with_reloc(
            with_bytes(old(sink)@, le_bytes4(offset.wrapping_sub((old(sink).bytes().len() + 4) as u32))),
            Reloc::X86PCRelRodata4,
            RelocTarget::Constant(offset),
            0,
        ),
{
    let delta = offset.wrapping_sub(sink.offset() + 4);
    sink.put4(delta);
    sink.reloc_constant(Reloc::X86PCRelRodata4, offset);
}

} // verus!

verus! {

/// The REX prefixes built from registers have the fixed `0100` high nibble and no W bit, as
/// `rex_prefix` requires.
pub proof fn law_rex_base(rm: RegUnit, reg: RegUnit, index: RegUnit)
    ensures
        (BASE_REX | high_bit(rm)) & 0xf8 == BASE_REX,
        (BASE_REX | high_bit(rm) | (high_bit(reg) << 2u8)) & 0xf8 == BASE_REX,
        (BASE_REX | high_bit(rm) | (high_bit(index) << 1u8) | (high_bit(reg) << 2u8)) & 0xf8
            == BASE_REX,
{
    let b = high_bit(rm);
    let r = high_bit(reg);
    let x = high_bit(index);
    assert(b <= 1 && r <= 1 && x <= 1) by (bit_vector)
        requires
            b == ((rm >> 3u16) & 1) as u8,
            r == ((reg >> 3u16) & 1) as u8,
            x == ((index >> 3u16) & 1) as u8,
    ;
    assert({
        &&& (0x40u8 | b) & 0xf8 == 0x40u8
        &&& (0x40u8 | b | (r << 2u8)) & 0xf8 == 0x40u8
        &&& (0x40u8 | b | (x << 1u8) | (r << 2u8)) & 0xf8 == 0x40u8
    }) by (bit_vector)
        requires
            b <= 1,
            r <= 1,
            x <= 1,
    ;
}

/// An emitted three-register REX byte holds W from bit 15 of the encoding bits and bit 3 of
/// each register in R, X and B.
pub proof fn law_rex_fields(bits: u16, rm: RegUnit, reg: RegUnit, index: RegUnit)
    ensures
        ({
            let rex = rex_byte(
                bits,
                BASE_REX | high_bit(rm) | (high_bit(index) << 1u8) | (high_bit(reg) << 2u8),
            );
            &&& rex >> 4u8 == 0b0100
            &&& (rex >> 3u8) & 1 == ((bits >> 15u16) & 1) as u8
            &&& (rex >> 2u8) & 1 == high_bit(reg)
            &&& (rex >> 1u8) & 1 == high_bit(index)
            &&& rex & 1 == high_bit(rm)
        }),
{
    let b = high_bit(rm);
    let r = high_bit(reg);
    let x = high_bit(index);
    let w = ((bits >> 15u16) & 1) as u8;
    assert(b <= 1 && r <= 1 && x <= 1 && w <= 1) by (bit_vector)
        requires
            b == ((rm >> 3u16) & 1) as u8,
            r == ((reg >> 3u16) & 1) as u8,
            x == ((index >> 3u16) & 1) as u8,
            w == ((bits >> 15u16) & 1) as u8,
    ;
    let rex = (0x40u8 | b | (x << 1u8) | (r << 2u8)) | (w << 3u8);
    assert({
        &&& rex >> 4u8 == 0b0100
        &&& (rex >> 3u8) & 1 == w
        &&& (rex >> 2u8) & 1 == r
        &&& (rex >> 1u8) & 1 == x
        &&& rex & 1 == b
    }) by (bit_vector)
        requires
            b <= 1,
            r <= 1,
            x <= 1,
            w <= 1,
            rex == (0x40u8 | b | (x << 1u8) | (r << 2u8)) | (w << 3u8),
    ;
}

/// A ModR/M byte holds the mode in its top two bits, the low three bits of `reg` in the middle
/// and the low three bits of `rm` at the bottom.
pub proof fn law_modrm_fields(mode: u8, reg: u8, rm: u8)
    requires
        mode < 4,
    ensures
        modrm_byte(mode, reg, rm) >> 6u8 == mode,
        (modrm_byte(mode, reg, rm) >> 3u8) & 7 == reg & 7,
        modrm_byte(mode, reg, rm) & 7 == rm & 7,
{
    assert({
        &&& ((mode << 6u8) | ((reg & 7) << 3u8) | (rm & 7)) >> 6u8 == mode
        &&& (((mode << 6u8) | ((reg & 7) << 3u8) | (rm & 7)) >> 3u8) & 7 == reg & 7
        &&& ((mode << 6u8) | ((reg & 7) << 3u8) | (rm & 7)) & 7 == rm & 7
    }) by (bit_vector)
        requires
            mode < 4,
    ;
}

/// Together, the REX.B bit and the ModR/M `rm` field name any of the sixteen registers: they
/// hold the low four bits of the register unit.
pub proof fn law_rex_modrm_register(mode: u8, rm: RegUnit, reg: RegUnit)
    ensures
        (((BASE_REX | high_bit(rm) | (high_bit(reg) << 2u8)) & 1) << 3u8) | (modrm_byte(
            mode,
            reg as u8,
            rm as u8,
        ) & 7) == ((rm & 15) as u8),
        (((BASE_REX | high_bit(rm) | (high_bit(reg) << 2u8)) >> 2u8) & 1) << 3u8 | ((modrm_byte(
            mode,
            reg as u8,
            rm as u8,
        ) >> 3u8) & 7) == ((reg & 15) as u8),
{
    let b = high_bit(rm);
    let r = high_bit(reg);
    let m = rm as u8;
    let g = reg as u8;
    assert({
        &&& (((0x40u8 | b | (r << 2u8)) & 1) << 3u8) | (((mode << 6u8) | ((g & 7) << 3u8) | (m
            & 7)) & 7) == ((rm & 15) as u8)
        &&& ((((0x40u8 | b | (r << 2u8)) >> 2u8) & 1) << 3u8) | ((((mode << 6u8) | ((g & 7)
            << 3u8) | (m & 7)) >> 3u8) & 7) == ((reg & 15) as u8)
    }) by (bit_vector)
        requires
            b == ((rm >> 3u16) & 1) as u8,
            r == ((reg >> 3u16) & 1) as u8,
            m == rm as u8,
            g == reg as u8,
    ;
}

/// A SIB byte holds the scale, the low three bits of the index register and the low three bits
/// of the base register.
pub proof fn law_sib_fields(scale: u8, index: u8, base: u8)
    requires
        scale < 4,
    ensures
        sib_byte(scale, index, base) >> 6u8 == scale,
        (sib_byte(scale, index, base) >> 3u8) & 7 == index & 7,
        sib_byte(scale, index, base) & 7 == base & 7,
{
    assert({
        &&& (((scale & 3) << 6u8) | ((index & 7) << 3u8) | (base & 7)) >> 6u8 == scale
        &&& ((((scale & 3) << 6u8) | ((index & 7) << 3u8) | (base & 7)) >> 3u8) & 7 == index & 7
        &&& (((scale & 3) << 6u8) | ((index & 7) << 3u8) | (base & 7)) & 7 == base & 7
    }) by (bit_vector)
        requires
            scale < 4,
    ;
}

/// The opcodes of a condition and of its inverse differ only in the lowest bit, so inverting a
/// branch flips one bit of its opcode.
pub proof fn law_icc_inverse(cc: IntCC)
    ensures
        icc_opcode(crate::ir::intcc_inverse(cc)) == icc_opcode(cc) ^ 1,
{
    assert(0u16 ^ 1 == 1 && 1u16 ^ 1 == 0 && 2u16 ^ 1 == 3 && 3u16 ^ 1 == 2 && 4u16 ^ 1 == 5
        && 5u16 ^ 1 == 4 && 6u16 ^ 1 == 7 && 7u16 ^ 1 == 6 && 0xcu16 ^ 1 == 0xd && 0xdu16 ^ 1
        == 0xc && 0xeu16 ^ 1 == 0xf && 0xfu16 ^ 1 == 0xe) by (bit_vector);
}

/// The floating point condition codes that the flags can test are closed under inversion, and
/// the inverse condition's opcode differs from the condition's in the low bit only, so that a
/// branch over a trap (`trapff`) can always test the inverted condition.
pub proof fn law_fcc_inverse(cc: FloatCC)
    requires
        fcc_supported(cc),
    ensures
        fcc_supported(crate::ir::floatcc_inverse(cc)),
        fcc_opcode(crate::ir::floatcc_inverse(cc)) == fcc_opcode(cc) ^ 1,
{
    assert(0xbu16 ^ 1 == 0xa && 0xau16 ^ 1 == 0xb && 5u16 ^ 1 == 4 && 4u16 ^ 1 == 5 && 7u16 ^ 1
        == 6 && 6u16 ^ 1 == 7 && 3u16 ^ 1 == 2 && 2u16 ^ 1 == 3) by (bit_vector);
}

} // verus!

verus! {

/// The inputs for which `emit_inst` emits: the recipe is one of the x86 recipes, the
/// instruction has the format that the recipe reads and meets what the recipe requires; or the
/// encoding is the illegal placeholder, for which nothing is emitted.
pub open spec fn emit_accepts(enc: Encoding, ops: InstOperands) -> bool {
    if enc.recipe < NUM_RECIPES {
        ops.format == recipe_format(enc.recipe) && recipe_ok(enc.recipe, enc.bits, ops)
    } else {
        !enc.spec_is_legal()
    }
}

/// The sink contents after emitting an accepted instruction into a sink holding `s`.
pub open spec fn emitted(enc: Encoding, ops: InstOperands, s: SinkContents) -> SinkContents {
    if enc.recipe < NUM_RECIPES {
        recipe_emits(enc.recipe, enc.bits, ops, s)
    } else {
        s
    }
}

/// The diversions after emitting an instruction: a register move, spill or fill diverts the
/// value it moves; other instructions leave the diversions as they are.
pub open spec fn diversions_after(enc: Encoding, ops: InstOperands, m: Map<u32, Diversion>) -> Map<u32, Diversion> {
    if enc.recipe < NUM_RECIPES {
        match ops.format {
            InstructionFormat::RegMove => diverted(m, ops.value, ValueLoc::Reg(ops.src), ValueLoc::Reg(ops.dst)),
            InstructionFormat::RegSpill => diverted(m, ops.value, ValueLoc::Reg(ops.src), ValueLoc::Stack(ops.slot)),
            InstructionFormat::RegFill => diverted(m, ops.value, ValueLoc::Stack(ops.slot), ValueLoc::Reg(ops.dst)),
            _ => m,
        }
    } else {
        m
    }
}

/// A moved value that is already diverted lives where the move takes it from.
pub open spec fn diversion_consistent(ops: InstOperands, m: Map<u32, Diversion>) -> bool {
    m.contains_key(ops.value) ==> match ops.format {
        InstructionFormat::RegMove | InstructionFormat::RegSpill => m[ops.value].to == ValueLoc::Reg(ops.src),
        InstructionFormat::RegFill => m[ops.value].to == ValueLoc::Stack(ops.slot),
        _ => true,
    }
}

/// Emitting an instruction only appends to a sink: the bytes, relocations and trap sites it held
/// before are prefixes of those it holds after.
pub proof fn law_emit_appends(enc: Encoding, ops: InstOperands, s: SinkContents)
    ensures
        extends(s, emitted(enc, ops, s)),
{
    recipe_appends(enc.recipe, enc.bits, ops, s);
}

/// Emit binary machine code for an instruction for the x86 ISA.
pub fn emit_inst(encoding: Encoding, ops: &InstOperands, divert: &mut RegDiversions, sink: &mut CodeSink)
    requires
        old(sink).bytes().len() + 32 <= sink_capacity(),
        emit_accepts(encoding, *ops),
        diversion_consistent(*ops, old(divert)@),
    ensures
        final(sink)@ == emitted(encoding, *ops, old(sink)@),
        final(divert)@ == diversions_after(encoding, *ops, old(divert)@),
{
    if encoding.recipe < NUM_RECIPES {
        // A register move, spill or fill diverts the value it moves.
        match ops.format {
            InstructionFormat::RegMove => divert.regmove(ops.value, ops.src, ops.dst),
            InstructionFormat::RegSpill => divert.regspill(ops.value, ops.src, ops.slot),
            InstructionFormat::RegFill => divert.regfill(ops.value, ops.slot, ops.dst),
            _ => {},
        }
        emit_recipe(encoding.recipe, encoding.bits, ops, sink);
    }
}

} // verus!
