//! Encoding tables for RISC-V: the predicates that guard recipes and encodings.

use vstd::prelude::*;
use crate::ir::{is_equal, spec_arguments, InstructionData, IntCC, ValueType, I32, I64};
use crate::predicates::{is_signed_int, signed_int_fits};
use crate::settings::PredicateView;

verus! {

// riscv recipe predicates.
fn recipe_predicate_ii(_view: PredicateView, inst: &InstructionData) -> (r: bool)
    requires
        inst is BinaryImm,
    ensures
        r == signed_int_fits(inst->BinaryImm_imm, 12, 0),
{
    if let InstructionData::BinaryImm { imm, .. } = inst {
        return is_signed_int(*imm, 12, 0);
    }
    false
}

fn recipe_predicate_iz(_view: PredicateView, inst: &InstructionData) -> (r: bool)
    requires
        inst is UnaryImm,
    ensures
        r == signed_int_fits(inst->UnaryImm_imm, 12, 0),
{
    if let InstructionData::UnaryImm { imm, .. } = inst {
        return is_signed_int(*imm, 12, 0);
    }
    false
}

fn recipe_predicate_iicmp(_view: PredicateView, inst: &InstructionData) -> (r: bool)
    requires
        inst is IntCompareImm,
    ensures
        r == signed_int_fits(inst->IntCompareImm_imm, 12, 0),
{
    if let InstructionData::IntCompareImm { imm, .. } = inst {
        return is_signed_int(*imm, 12, 0);
    }
    false
}

fn recipe_predicate_u(_view: PredicateView, inst: &InstructionData) -> (r: bool)
    requires
        inst is UnaryImm,
    ensures
        r == signed_int_fits(inst->UnaryImm_imm, 32, 12),
{
    if let InstructionData::UnaryImm { imm, .. } = inst {
        return is_signed_int(*imm, 32, 12);
    }
    false
}

/// Which instruction format each recipe predicate reads.
pub open spec fn recipe_predicate_format(recipe: usize, inst: InstructionData) -> bool {
    if recipe == 3 {
        inst is BinaryImm
    } else if recipe == 4 || recipe == 11 {
        inst is UnaryImm
    } else if recipe == 5 {
        inst is IntCompareImm
    } else {
        true
    }
}

/// What the riscv recipe predicate table says of an instruction: `None` where the recipe has no
/// predicate, otherwise whether the predicate holds.
pub open spec fn spec_recipe_predicate(recipe: usize, inst: InstructionData) -> Option<bool> {
    if recipe == 3 {
        Some(signed_int_fits(inst->BinaryImm_imm, 12, 0))
    } else if recipe == 4 {
        Some(signed_int_fits(inst->UnaryImm_imm, 12, 0))
    } else if recipe == 5 {
        Some(signed_int_fits(inst->IntCompareImm_imm, 12, 0))
    } else if recipe == 11 {
        Some(signed_int_fits(inst->UnaryImm_imm, 32, 12))
    } else {
        None
    }
}

/// riscv recipe predicate table.
///
/// One entry per recipe, set to Some only when the recipe is guarded by a predicate; this looks
/// up the entry of `recipe` and applies it.
pub fn recipe_predicate(recipe: usize, view: PredicateView, inst: &InstructionData) -> (r: Option<
    bool,
>)
    requires
        recipe < 20,
        recipe_predicate_format(recipe, *inst),
    ensures
        r == spec_recipe_predicate(recipe, *inst),
{
    if recipe == 3 {
        Some(recipe_predicate_ii(view, inst))
    } else if recipe == 4 {
        Some(recipe_predicate_iz(view, inst))
    } else if recipe == 5 {
        Some(recipe_predicate_iicmp(view, inst))
    } else if recipe == 11 {
        Some(recipe_predicate_u(view, inst))
    } else {
        None
    }
}

// riscv instruction predicates.
fn inst_predicate_0(inst: &InstructionData) -> (r: bool)
    requires
        spec_arguments(*inst).len() >= 2,
    ensures
        r == (spec_arguments(*inst)[1].ty == ValueType(I32)),
{
    let args = inst.arguments();
    args[1].ty.0 == I32
}

fn inst_predicate_1(inst: &InstructionData) -> (r: bool)
    requires
        spec_arguments(*inst).len() >= 2,
    ensures
        r == (spec_arguments(*inst)[1].ty == ValueType(I64)),
{
    let args = inst.arguments();
    args[1].ty.0 == I64
}

fn inst_predicate_2(inst: &InstructionData) -> (r: bool)
    requires
        inst is IntCompare,
    ensures
        r == (inst->IntCompare_cond == IntCC::SignedLessThan),
{
    if let InstructionData::IntCompare { cond, .. } = inst {
        return is_equal(*cond, IntCC::SignedLessThan);
    }
    false
}

fn inst_predicate_3(inst: &InstructionData) -> (r: bool)
    requires
        inst is IntCompare,
    ensures
        r == (inst->IntCompare_cond == IntCC::UnsignedLessThan),
{
    if let InstructionData::IntCompare { cond, .. } = inst {
        return is_equal(*cond, IntCC::UnsignedLessThan);
    }
    false
}

fn inst_predicate_4(inst: &InstructionData) -> (r: bool)
    requires
        inst is IntCompareImm,
    ensures
        r == (inst->IntCompareImm_cond == IntCC::SignedLessThan),
{
    if let InstructionData::IntCompareImm { cond, .. } = inst {
        return is_equal(*cond, IntCC::SignedLessThan);
    }
    false
}

fn inst_predicate_5(inst: &InstructionData) -> (r: bool)
    requires
        inst is IntCompareImm,
    ensures
        r == (inst->IntCompareImm_cond == IntCC::UnsignedLessThan),
{
    if let InstructionData::IntCompareImm { cond, .. } = inst {
        return is_equal(*cond, IntCC::UnsignedLessThan);
    }
    false
}

fn inst_predicate_6(inst: &InstructionData) -> (r: bool)
    requires
        inst is BranchIntCompare,
    ensures
        r == (inst->BranchIntCompare_cond == IntCC::Equal),
{
    if let InstructionData::BranchIntCompare { cond, .. } = inst {
        return is_equal(*cond, IntCC::Equal);
    }
    false
}

fn inst_predicate_7(inst: &InstructionData) -> (r: bool)
    requires
        inst is BranchIntCompare,
    ensures
        r == (inst->BranchIntCompare_cond == IntCC::NotEqual),
{
    if let InstructionData::BranchIntCompare { cond, .. } = inst {
        return is_equal(*cond, IntCC::NotEqual);
    }
    false
}

fn inst_predicate_8(inst: &InstructionData) -> (r: bool)
    requires
        inst is BranchIntCompare,
    ensures
        r == (inst->BranchIntCompare_cond == IntCC::SignedLessThan),
{
    if let InstructionData::BranchIntCompare { cond, .. } = inst {
        return is_equal(*cond, IntCC::SignedLessThan);
    }
    false
}

fn inst_predicate_9(inst: &InstructionData) -> (r: bool)
    requires
        inst is BranchIntCompare,
    ensures
        r == (inst->BranchIntCompare_cond == IntCC::SignedGreaterThanOrEqual),
{
    if let InstructionData::BranchIntCompare { cond, .. } = inst {
        return is_equal(*cond, IntCC::SignedGreaterThanOrEqual);
    }
    false
}

fn inst_predicate_10(inst: &InstructionData) -> (r: bool)
    requires
        inst is BranchIntCompare,
    ensures
        r == (inst->BranchIntCompare_cond == IntCC::UnsignedLessThan),
{
    if let InstructionData::BranchIntCompare { cond, .. } = inst {
        return is_equal(*cond, IntCC::UnsignedLessThan);
    }
    false
}

fn inst_predicate_11(inst: &InstructionData) -> (r: bool)
    requires
        inst is BranchIntCompare,
    ensures
        r == (inst->BranchIntCompare_cond == IntCC::UnsignedGreaterThanOrEqual),
{
    if let InstructionData::BranchIntCompare { cond, .. } = inst {
        return is_equal(*cond, IntCC::UnsignedGreaterThanOrEqual);
    }
    false
}

/// Which instruction format each instruction predicate reads.
pub open spec fn inst_predicate_format(p: int, inst: InstructionData) -> bool {
    if p == 0 || p == 1 {
        spec_arguments(inst).len() >= 2
    } else if p == 2 || p == 3 {
        inst is IntCompare
    } else if p == 4 || p == 5 {
        inst is IntCompareImm
    } else {
        inst is BranchIntCompare
    }
}

/// What instruction predicate `p` of the riscv table says of an instruction.
pub open spec fn spec_inst_predicate(p: int, inst: InstructionData) -> bool {
    if p == 0 {
        spec_arguments(inst)[1].ty == ValueType(I32)
    } else if p == 1 {
        spec_arguments(inst)[1].ty == ValueType(I64)
    } else if p == 2 {
        inst->IntCompare_cond == IntCC::SignedLessThan
    } else if p == 3 {
        inst->IntCompare_cond == IntCC::UnsignedLessThan
    } else if p == 4 {
        inst->IntCompareImm_cond == IntCC::SignedLessThan
    } else if p == 5 {
        inst->IntCompareImm_cond == IntCC::UnsignedLessThan
    } else if p == 6 {
        inst->BranchIntCompare_cond == IntCC::Equal
    } else if p == 7 {
        inst->BranchIntCompare_cond == IntCC::NotEqual
    } else if p == 8 {
        inst->BranchIntCompare_cond == IntCC::SignedLessThan
    } else if p == 9 {
        inst->BranchIntCompare_cond == IntCC::SignedGreaterThanOrEqual
    } else if p == 10 {
        inst->BranchIntCompare_cond == IntCC::UnsignedLessThan
    } else if p == 11 {
        inst->BranchIntCompare_cond == IntCC::UnsignedGreaterThanOrEqual
    } else {
        false
    }
}

/// riscv instruction predicate table.
///
/// One entry per instruction predicate, so the encoding bytecode can embed indexes into this
/// table; this applies entry `p`.
pub fn inst_predicate(p: usize, inst: &InstructionData) -> (r: bool)
    requires
        p < 12,
        inst_predicate_format(p as int, *inst),
    ensures
        r == spec_inst_predicate(p as int, *inst),
{
    if p == 0 {
        inst_predicate_0(inst)
    } else if p == 1 {
        inst_predicate_1(inst)
    } else if p == 2 {
        inst_predicate_2(inst)
    } else if p == 3 {
        inst_predicate_3(inst)
    } else if p == 4 {
        inst_predicate_4(inst)
    } else if p == 5 {
        inst_predicate_5(inst)
    } else if p == 6 {
        inst_predicate_6(inst)
    } else if p == 7 {
        inst_predicate_7(inst)
    } else if p == 8 {
        inst_predicate_8(inst)
    } else if p == 9 {
        inst_predicate_9(inst)
    } else if p == 10 {
        inst_predicate_10(inst)
    } else if p == 11 {
        inst_predicate_11(inst)
    } else {
        false
    }
}

} // verus!

verus! {

/// The instruction predicates guard the encodings by what an instruction compares or the type
/// it works on: predicates 0 and 1 hold of a two-operand instruction whose second operand is a
/// 32-bit or a 64-bit integer; 2 and 3 of an integer comparison that is signed or unsigned
/// less-than (`slt`, `sltu`); 4 and 5 of a comparison with an immediate that is signed or
/// unsigned less-than (`slti`, `sltiu`); 6 to 11 of a compare-and-branch on equal, not equal,
/// signed less-than, signed greater-or-equal, unsigned less-than and unsigned greater-or-equal
/// (`beq`, `bne`, `blt`, `bge`, `bltu`, `bgeu`).
pub proof fn law_inst_predicates(inst: InstructionData)
    ensures
        inst matches InstructionData::Binary { args, .. } ==> (spec_inst_predicate(0, inst) == (
        args[1].ty == ValueType(I32)) && spec_inst_predicate(1, inst) == (args[1].ty == ValueType(
        I64))),
        inst matches InstructionData::IntCompare { args, .. } ==> (spec_inst_predicate(0, inst)
            == (args[1].ty == ValueType(I32)) && spec_inst_predicate(1, inst) == (args[1].ty
            == ValueType(I64))),
        inst matches InstructionData::IntCompare { cond, .. } ==> {
            &&& spec_inst_predicate(2, inst) == (cond == IntCC::SignedLessThan)
            &&& spec_inst_predicate(3, inst) == (cond == IntCC::UnsignedLessThan)
        },
        inst matches InstructionData::IntCompareImm { cond, .. } ==> {
            &&& spec_inst_predicate(4, inst) == (cond == IntCC::SignedLessThan)
            &&& spec_inst_predicate(5, inst) == (cond == IntCC::UnsignedLessThan)
        },
        inst matches InstructionData::BranchIntCompare { cond, .. } ==> {
            &&& spec_inst_predicate(6, inst) == (cond == IntCC::Equal)
            &&& spec_inst_predicate(7, inst) == (cond == IntCC::NotEqual)
            &&& spec_inst_predicate(8, inst) == (cond == IntCC::SignedLessThan)
            &&& spec_inst_predicate(9, inst) == (cond == IntCC::SignedGreaterThanOrEqual)
            &&& spec_inst_predicate(10, inst) == (cond == IntCC::UnsignedLessThan)
            &&& spec_inst_predicate(11, inst) == (cond == IntCC::UnsignedGreaterThanOrEqual)
        },
        forall|p: int| p < 0 || p >= 12 ==> !#[trigger] spec_inst_predicate(p, inst),
{
}

} // verus!
