//! The parts of the intermediate representation that the encoders and predicates read:
//! value types, condition codes, encodings, and instruction operands after register allocation.

use vstd::prelude::*;
use crate::binemit::CodeOffset;
use crate::isa::registers::RegUnit;

verus! {

/// The type of an SSA value, by its type code.
#[derive(Copy, Clone, Debug, PartialEq, Eq, Hash, Structural)]
pub struct ValueType(pub u8);

/// Type code of "not a valid type".
pub const INVALID: u8 = 0;

/// Type code of the integer type with 32 bits.
pub const I32: u8 = 0x78;

/// Type code of the integer type with 64 bits.
pub const I64: u8 = 0x79;

/// Type code of the IEEE single precision floating point type.
pub const FLOAT32: u8 = 0x7b;

/// Type code of the IEEE double precision floating point type.
pub const FLOAT64: u8 = 0x7c;

/// Condition code for comparing integers.
#[derive(Copy, Clone, Debug, PartialEq, Eq, Structural)]
pub enum IntCC {
    /// `==`.
    Equal,
    /// `!=`.
    NotEqual,
    /// Signed `<`.
    SignedLessThan,
    /// Signed `>=`.
    SignedGreaterThanOrEqual,
    /// Signed `>`.
    SignedGreaterThan,
    /// Signed `<=`.
    SignedLessThanOrEqual,
    /// Unsigned `<`.
    UnsignedLessThan,
    /// Unsigned `>=`.
    UnsignedGreaterThanOrEqual,
    /// Unsigned `>`.
    UnsignedGreaterThan,
    /// Unsigned `<=`.
    UnsignedLessThanOrEqual,
    /// Signed Overflow.
    Overflow,
    /// Signed No Overflow.
    NotOverflow,
}

/// Condition code for comparing floating point numbers.
#[derive(Copy, Clone, Debug, PartialEq, Eq, Structural)]
pub enum FloatCC {
    /// EQ | LT | GT
    Ordered,
    /// UN
    Unordered,
    /// EQ
    Equal,
    /// UN | LT | GT
    NotEqual,
    /// LT | GT
    OrderedNotEqual,
    /// UN | EQ
    UnorderedOrEqual,
    /// LT
    LessThan,
    /// LT | EQ
    LessThanOrEqual,
    /// GT
    GreaterThan,
    /// GT | EQ
    GreaterThanOrEqual,
    /// UN | LT
    UnorderedOrLessThan,
    /// UN | LT | EQ
    UnorderedOrLessThanOrEqual,
    /// UN | GT
    UnorderedOrGreaterThan,
    /// UN | GT | EQ
    UnorderedOrGreaterThanOrEqual,
}

/// Bits needed to encode an instruction: the recipe that emits it and the opcode bits the
/// recipe reads.
#[derive(Copy, Clone, Debug, PartialEq, Eq, Structural)]
pub struct Encoding {
    /// Recipe number.
    pub recipe: u16,
    /// Opcode bits and other encoding details, as the recipe reads them.
    pub bits: u16,
}

impl Encoding {
    /// The encoding that marks an instruction without a legal encoding.
    pub open spec fn spec_is_legal(self) -> bool {
        !(self.recipe == 0xffff && self.bits == 0xffff)
    }

    /// Is this a legal encoding, or the default placeholder?
    pub fn is_legal(self) -> (r: bool)
        ensures
            r == self.spec_is_legal(),
    {
        !(self.recipe == 0xffff && self.bits == 0xffff)
    }
}

/// A value operand of an instruction after register allocation: the register unit it lives in
/// (after any register diversion) and its type.
#[derive(Copy, Clone, Debug, PartialEq, Eq, Structural)]
pub struct Operand {
    /// The register holding the value.
    pub reg: RegUnit,
    /// The type of the value.
    pub ty: ValueType,
}

/// The operands of an instruction as the encoders read them, by instruction format. Branch
/// destinations are the code offsets of their target blocks; external functions are given by
/// their symbol index.
#[allow(inconsistent_fields)]
pub enum InstructionData {
    /// One value argument, one result.
    Unary { arg: Operand, result: Operand },
    /// An immediate, one result.
    UnaryImm { imm: i64, result: Operand },
    /// Two value arguments, one result.
    Binary { args: [Operand; 2], result: Operand },
    /// One value argument and an immediate, one result.
    BinaryImm { arg: Operand, imm: i64, result: Operand },
    /// Integer comparison of two values.
    IntCompare { cond: IntCC, args: [Operand; 2], result: Operand },
    /// Integer comparison of a value with an immediate.
    IntCompareImm { cond: IntCC, arg: Operand, imm: i64, result: Operand },
    /// Any number of value arguments, no result (returns).
    MultiAry { args: Vec<Operand> },
    /// An indirect call: the callee is the first argument.
    CallIndirect { args: Vec<Operand> },
    /// A direct call of an external function.
    Call { func_ref: u32, args: Vec<Operand> },
    /// An unconditional jump.
    Jump { destination: CodeOffset },
    /// A branch on one value.
    Branch { arg: Operand, destination: CodeOffset },
    /// A branch on the comparison of two values.
    BranchIntCompare { cond: IntCC, args: [Operand; 2], destination: CodeOffset },
    /// A register move of value number `value`, held in `arg`, from `src` to `dst`.
    RegMove { arg: Operand, value: u32, src: RegUnit, dst: RegUnit },
    /// A copy from a register into a new SSA value.
    CopyToSsa { src: RegUnit, result: Operand },
}

/// The value arguments of an instruction, in order.
pub open spec fn spec_arguments(inst: InstructionData) -> Seq<Operand> {
    match inst {
        InstructionData::Unary { arg, .. } => seq![arg],
        InstructionData::UnaryImm { .. } => Seq::empty(),
        InstructionData::Binary { args, .. } => seq![args[0], args[1]],
        InstructionData::BinaryImm { arg, .. } => seq![arg],
        InstructionData::IntCompare { args, .. } => seq![args[0], args[1]],
        InstructionData::IntCompareImm { arg, .. } => seq![arg],
        InstructionData::MultiAry { args } => args@,
        InstructionData::CallIndirect { args } => args@,
        InstructionData::Call { args, .. } => args@,
        InstructionData::Jump { .. } => Seq::empty(),
        InstructionData::Branch { arg, .. } => seq![arg],
        InstructionData::BranchIntCompare { args, .. } => seq![args[0], args[1]],
        InstructionData::RegMove { arg, .. } => seq![arg],
        InstructionData::CopyToSsa { .. } => Seq::empty(),
    }
}

impl InstructionData {
    /// Get the value arguments to this instruction.
    pub fn arguments(&self) -> (r: Vec<Operand>)
        ensures
            r@ == spec_arguments(*self),
    {
        match self {
            InstructionData::Unary { arg, .. } => vec![*arg],
            InstructionData::UnaryImm { .. } => Vec::new(),
            InstructionData::Binary { args, .. } => vec![args[0], args[1]],
            InstructionData::BinaryImm { arg, .. } => vec![*arg],
            InstructionData::IntCompare { args, .. } => vec![args[0], args[1]],
            InstructionData::IntCompareImm { arg, .. } => vec![*arg],
            InstructionData::MultiAry { args } => vstd::slice::slice_to_vec(args.as_slice()),
            InstructionData::CallIndirect { args } => vstd::slice::slice_to_vec(args.as_slice()),
            InstructionData::Call { args, .. } => vstd::slice::slice_to_vec(args.as_slice()),
            InstructionData::Jump { .. } => Vec::new(),
            InstructionData::Branch { arg, .. } => vec![*arg],
            InstructionData::BranchIntCompare { args, .. } => vec![args[0], args[1]],
            InstructionData::RegMove { arg, .. } => vec![*arg],
            InstructionData::CopyToSsa { .. } => Vec::new(),
        }
    }
}

/// Check whether an integer condition code equals another.
pub fn is_equal(x: IntCC, y: IntCC) -> (r: bool)
    ensures
        r == (x == y),
{
    x == y
}

} // verus!

verus! {

/// A value label: a source-level variable that values can be tracked for.
#[derive(Copy, Clone, Debug, PartialEq, Eq, Hash, Structural)]
pub struct ValueLabel(u32);

impl ValueLabel {
    /// The number of the label.
    pub closed spec fn spec_as_u32(&self) -> u32 {
        self.0
    }

    /// Create a label from its number.
    pub fn from_u32(x: u32) -> (r: Self)
        ensures
            r.spec_as_u32() == x,
    {
        ValueLabel(x)
    }

    /// The number of the label.
    pub fn as_u32(self) -> (r: u32)
        ensures
            r == self.spec_as_u32(),
    {
        self.0
    }
}

/// An IEEE binary32 immediate floating point value, represented as its bits.
#[derive(Copy, Clone, Debug, PartialEq, Eq, Hash, Structural)]
pub struct IeeeSingle(u32);

impl IeeeSingle {
    /// The bits of the value.
    pub closed spec fn spec_bits(&self) -> u32 {
        self.0
    }

    /// Create a new `IeeeSingle` containing the bits of `x`.
    pub fn with_bits(x: u32) -> (r: Self)
        ensures
            r.spec_bits() == x,
    {
        IeeeSingle(x)
    }

    /// Get the bitwise representation.
    pub fn bits(self) -> (r: u32)
        ensures
            r == self.spec_bits(),
    {
        self.0
    }
}

/// An IEEE binary64 immediate floating point value, represented as its bits.
#[derive(Copy, Clone, Debug, PartialEq, Eq, Hash, Structural)]
pub struct IeeeDouble(u64);

impl IeeeDouble {
    /// The bits of the value.
    pub closed spec fn spec_bits(&self) -> u64 {
        self.0
    }

    /// Create a new `IeeeDouble` containing the bits of `x`.
    pub fn with_bits(x: u64) -> (r: Self)
        ensures
            r.spec_bits() == x,
    {
        IeeeDouble(x)
    }

    /// Get the bitwise representation.
    pub fn bits(self) -> (r: u64)
        ensures
            r == self.spec_bits(),
    {
        self.0
    }
}

} // verus!

verus! {

/// The condition code that holds exactly when `cc` does not.
pub open spec fn intcc_inverse(cc: IntCC) -> IntCC {
    match cc {
        IntCC::Equal => IntCC::NotEqual,
        IntCC::NotEqual => IntCC::Equal,
        IntCC::SignedLessThan => IntCC::SignedGreaterThanOrEqual,
        IntCC::SignedGreaterThanOrEqual => IntCC::SignedLessThan,
        IntCC::SignedGreaterThan => IntCC::SignedLessThanOrEqual,
        IntCC::SignedLessThanOrEqual => IntCC::SignedGreaterThan,
        IntCC::UnsignedLessThan => IntCC::UnsignedGreaterThanOrEqual,
        IntCC::UnsignedGreaterThanOrEqual => IntCC::UnsignedLessThan,
        IntCC::UnsignedGreaterThan => IntCC::UnsignedLessThanOrEqual,
        IntCC::UnsignedLessThanOrEqual => IntCC::UnsignedGreaterThan,
        IntCC::Overflow => IntCC::NotOverflow,
        IntCC::NotOverflow => IntCC::Overflow,
    }
}

} // verus!

verus! {

/// The reason for a trap.
#[derive(Copy, Clone, Debug, PartialEq, Eq, Structural)]
pub enum TrapCode {
    /// The current stack space was exhausted.
    StackOverflow,
    /// A `heap_addr` instruction detected an out-of-bounds error.
    HeapOutOfBounds,
    /// A `table_addr` instruction detected an out-of-bounds error.
    TableOutOfBounds,
    /// Other bounds checking error.
    OutOfBounds,
    /// Indirect call to a null table entry.
    IndirectCallToNull,
    /// Signature mismatch on indirect call.
    BadSignature,
    /// An integer arithmetic operation caused an overflow.
    IntegerOverflow,
    /// An integer division by zero.
    IntegerDivisionByZero,
    /// Failed float-to-int conversion.
    BadConversionToInteger,
    /// Code that was supposed to have been unreachable was reached.
    UnreachableCodeReached,
    /// Execution has potentially run too long and may be interrupted.
    Interrupt,
    /// A user-defined trap code.
    User(u16),
}

/// The condition code that holds exactly when `cc` does not, for floating point comparisons.
pub open spec fn floatcc_inverse(cc: FloatCC) -> FloatCC {
    match cc {
        FloatCC::Ordered => FloatCC::Unordered,
        FloatCC::Unordered => FloatCC::Ordered,
        FloatCC::Equal => FloatCC::NotEqual,
        FloatCC::NotEqual => FloatCC::Equal,
        FloatCC::OrderedNotEqual => FloatCC::UnorderedOrEqual,
        FloatCC::UnorderedOrEqual => FloatCC::OrderedNotEqual,
        FloatCC::LessThan => FloatCC::UnorderedOrGreaterThanOrEqual,
        FloatCC::LessThanOrEqual => FloatCC::UnorderedOrGreaterThan,
        FloatCC::GreaterThan => FloatCC::UnorderedOrLessThanOrEqual,
        FloatCC::GreaterThanOrEqual => FloatCC::UnorderedOrLessThan,
        FloatCC::UnorderedOrLessThan => FloatCC::GreaterThanOrEqual,
        FloatCC::UnorderedOrLessThanOrEqual => FloatCC::GreaterThan,
        FloatCC::UnorderedOrGreaterThan => FloatCC::LessThanOrEqual,
        FloatCC::UnorderedOrGreaterThanOrEqual => FloatCC::LessThan,
    }
}

impl IntCC {
    /// Get the inverse condition code of `self`: the condition that holds exactly when `self`
    /// does not.
    pub fn inverse(self) -> (r: IntCC)
        ensures
            r == intcc_inverse(self),
    {
        match self {
            IntCC::Equal => IntCC::NotEqual,
            IntCC::NotEqual => IntCC::Equal,
            IntCC::SignedLessThan => IntCC::SignedGreaterThanOrEqual,
            IntCC::SignedGreaterThanOrEqual => IntCC::SignedLessThan,
            IntCC::SignedGreaterThan => IntCC::SignedLessThanOrEqual,
            IntCC::SignedLessThanOrEqual => IntCC::SignedGreaterThan,
            IntCC::UnsignedLessThan => IntCC::UnsignedGreaterThanOrEqual,
            IntCC::UnsignedGreaterThanOrEqual => IntCC::UnsignedLessThan,
            IntCC::UnsignedGreaterThan => IntCC::UnsignedLessThanOrEqual,
            IntCC::UnsignedLessThanOrEqual => IntCC::UnsignedGreaterThan,
            IntCC::Overflow => IntCC::NotOverflow,
            IntCC::NotOverflow => IntCC::Overflow,
        }
    }
}

impl FloatCC {
    /// Get the inverse condition code of `self`: the condition that holds exactly when `self`
    /// does not.
    pub fn inverse(self) -> (r: FloatCC)
        ensures
            r == floatcc_inverse(self),
    {
        match self {
            FloatCC::Ordered => FloatCC::Unordered,
            FloatCC::Unordered => FloatCC::Ordered,
            FloatCC::Equal => FloatCC::NotEqual,
            FloatCC::NotEqual => FloatCC::Equal,
            FloatCC::OrderedNotEqual => FloatCC::UnorderedOrEqual,
            FloatCC::UnorderedOrEqual => FloatCC::OrderedNotEqual,
            FloatCC::LessThan => FloatCC::UnorderedOrGreaterThanOrEqual,
            FloatCC::LessThanOrEqual => FloatCC::UnorderedOrGreaterThan,
            FloatCC::GreaterThan => FloatCC::UnorderedOrLessThanOrEqual,
            FloatCC::GreaterThanOrEqual => FloatCC::UnorderedOrLessThan,
            FloatCC::UnorderedOrLessThan => FloatCC::GreaterThanOrEqual,
            FloatCC::UnorderedOrLessThanOrEqual => FloatCC::GreaterThan,
            FloatCC::UnorderedOrGreaterThan => FloatCC::LessThanOrEqual,
            FloatCC::UnorderedOrGreaterThanOrEqual => FloatCC::LessThan,
        }
    }
}

/// Inverting a condition code twice gives it back.
pub proof fn law_inverse_involutive(icc: IntCC, fcc: FloatCC)
    ensures
        intcc_inverse(intcc_inverse(icc)) == icc,
        floatcc_inverse(floatcc_inverse(fcc)) == fcc,
{
}

} // verus!

verus! {

/// The format of an instruction: which operands and immediates it carries.
#[derive(Copy, Clone, Debug, PartialEq, Eq, Structural)]
pub enum InstructionFormat {
    /// No value arguments.
    NullAry,
    /// One value argument.
    Unary,
    /// An integer immediate.
    UnaryImm,
    /// A 32-bit floating point immediate.
    UnaryIeee32,
    /// A 64-bit floating point immediate.
    UnaryIeee64,
    /// A boolean immediate.
    UnaryBool,
    /// A constant from the constant pool.
    UnaryConst,
    /// A global value.
    UnaryGlobalValue,
    /// Two value arguments.
    Binary,
    /// One value argument and an immediate.
    BinaryImm,
    /// Three value arguments.
    Ternary,
    /// A vector and a lane index.
    ExtractLane,
    /// A vector, a lane index and a value for the lane.
    InsertLane,
    /// Integer comparison of two values.
    IntCompare,
    /// Integer comparison of a value and an immediate.
    IntCompareImm,
    /// Integer condition on flags.
    IntCond,
    /// Floating point comparison of two values.
    FloatCompare,
    /// Floating point condition on flags.
    FloatCond,
    /// Select on integer flags.
    IntSelect,
    /// Unconditional jump.
    Jump,
    /// Branch on a value.
    Branch,
    /// Branch on integer flags.
    BranchInt,
    /// Branch on floating point flags.
    BranchFloat,
    /// Load of a jump table entry.
    BranchTableEntry,
    /// Address of a jump table.
    BranchTableBase,
    /// Indirect jump through a jump table.
    IndirectJump,
    /// Direct call.
    Call,
    /// Indirect call.
    CallIndirect,
    /// Address of an external function.
    FuncAddr,
    /// Any number of value arguments.
    MultiAry,
    /// Load from an address plus offset.
    Load,
    /// Load from the sum of addresses plus offset.
    LoadComplex,
    /// Store to an address plus offset.
    Store,
    /// Store to the sum of addresses plus offset.
    StoreComplex,
    /// Address of a stack slot.
    StackLoad,
    /// Register move.
    RegMove,
    /// Copy between special registers.
    CopySpecial,
    /// Copy of a register into a new value.
    CopyToSsa,
    /// Spill of a register to a stack slot.
    RegSpill,
    /// Fill of a register from a stack slot.
    RegFill,
    /// Unconditional trap.
    Trap,
    /// Trap on integer flags.
    IntCondTrap,
    /// Trap on floating point flags.
    FloatCondTrap,
}

/// Instruction opcodes: those the encoders and the legalizer tell apart; every other opcode is
/// `Other`.
#[derive(Copy, Clone, Debug, PartialEq, Eq, Structural)]
pub enum Opcode {
    /// `band`.
    Band,
    /// `band_imm`.
    BandImm,
    /// `band_not`.
    BandNot,
    /// `bint`.
    Bint,
    /// `bitcast`.
    Bitcast,
    /// `bitrev`.
    Bitrev,
    /// `bnot`.
    Bnot,
    /// `bor`.
    Bor,
    /// `bor_imm`.
    BorImm,
    /// `bor_not`.
    BorNot,
    /// `br_int_compare`.
    BrIntCompare,
    /// `br_table`.
    BrTable,
    /// `brnz`.
    Brnz,
    /// `bxor`.
    Bxor,
    /// `bxor_imm`.
    BxorImm,
    /// `bxor_not`.
    BxorNot,
    /// `call`.
    Call,
    /// `cls`.
    Cls,
    /// `clz`.
    Clz,
    /// `ctz`.
    Ctz,
    /// `f32const`.
    F32const,
    /// `f64const`.
    F64const,
    /// `fabs`.
    Fabs,
    /// `fcopysign`.
    Fcopysign,
    /// `fcvt_from_sint`.
    FcvtFromSint,
    /// `fneg`.
    Fneg,
    /// `global_value`.
    GlobalValue,
    /// `heap_addr`.
    HeapAddr,
    /// `iadd`.
    Iadd,
    /// `iadd_carry`.
    IaddCarry,
    /// `iadd_cin`.
    IaddCin,
    /// `iadd_cout`.
    IaddCout,
    /// `iadd_imm`.
    IaddImm,
    /// `int_compare`.
    IntCompare,
    /// `int_compare_imm`.
    IntCompareImm,
    /// `iconst`.
    Iconst,
    /// `int_flags_compare`.
    IntFlagsCompare,
    /// `int_flags_compare_imm`.
    IntFlagsCompareImm,
    /// `imul`.
    Imul,
    /// `imul_imm`.
    ImulImm,
    /// `ireduce`.
    Ireduce,
    /// `irsub_imm`.
    IrsubImm,
    /// `ishl`.
    Ishl,
    /// `ishl_imm`.
    IshlImm,
    /// `istore16`.
    Istore16,
    /// `istore8`.
    Istore8,
    /// `isub`.
    Isub,
    /// `isub_bin`.
    IsubBin,
    /// `isub_borrow`.
    IsubBorrow,
    /// `isub_bout`.
    IsubBout,
    /// `load`.
    Load,
    /// `popcnt`.
    Popcnt,
    /// `rotl`.
    Rotl,
    /// `rotl_imm`.
    RotlImm,
    /// `rotr`.
    Rotr,
    /// `rotr_imm`.
    RotrImm,
    /// `sdiv`.
    Sdiv,
    /// `sdiv_imm`.
    SdivImm,
    /// `select`.
    Select,
    /// `sextend`.
    Sextend,
    /// `srem`.
    Srem,
    /// `srem_imm`.
    SremImm,
    /// `sshr`.
    Sshr,
    /// `sshr_imm`.
    SshrImm,
    /// `stack_addr`.
    StackAddr,
    /// `stack_load`.
    StackLoad,
    /// `stack_store`.
    StackStore,
    /// `store`.
    Store,
    /// `table_addr`.
    TableAddr,
    /// `trapif`.
    Trapif,
    /// `trapnz`.
    Trapnz,
    /// `trap`.
    Trap,
    /// The header of an extended basic block: the block starts here, and its results are the
    /// block's parameters.
    Block,
    /// The base address of a jump table.
    JumpTableBase,
    /// An entry of a jump table, relative to its base.
    JumpTableEntry,
    /// An indirect jump through a jump table entry.
    IndirectJumpTableBr,
    /// `trapz`.
    Trapz,
    /// `udiv`.
    Udiv,
    /// `udiv_imm`.
    UdivImm,
    /// `uextend`.
    Uextend,
    /// `uload16`.
    Uload16,
    /// `uload8`.
    Uload8,
    /// `urem`.
    Urem,
    /// `urem_imm`.
    UremImm,
    /// `ushr`.
    Ushr,
    /// `ushr_imm`.
    UshrImm,
    /// `brz`.
    Brz,
    /// `iadd_ifcin`.
    IaddIfcin,
    /// `iadd_ifcout`.
    IaddIfcout,
    /// `iconcat`.
    Iconcat,
    /// `isplit`.
    Isplit,
    /// `isub_ifbin`.
    IsubIfbin,
    /// `isub_ifbout`.
    IsubIfbout,
    /// `jump`.
    Jump,
    /// `umulhi`.
    Umulhi,
    /// Round to nearest, ties to even.
    Nearest,
    /// Round towards negative infinity.
    Floor,
    /// Round towards positive infinity.
    Ceil,
    /// Round towards zero.
    Trunc,
    /// Any other opcode.
    Other,
}

/// The rounding opcodes.
pub open spec fn is_rounding(op: Opcode) -> bool {
    op == Opcode::Nearest || op == Opcode::Floor || op == Opcode::Ceil || op == Opcode::Trunc
}

} // verus!
