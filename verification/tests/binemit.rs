use cranelift::regalloc::{Diversion, RegDiversions, ValueLoc};
use cranelift::binemit::{CodeSink, Reloc, RelocTarget, Relocation};
use cranelift::ir::{Encoding, InstructionData, IntCC, Operand, ValueType, I32, I64};
use cranelift::isa::riscv::binemit::emit_inst;
use cranelift::isa::riscv::enc_tables::{inst_predicate, recipe_predicate};
use cranelift::isa::x86::binemit::{fcc2opc, icc2opc, rex1, rex2, rex3, stk_base, StackBase};
use cranelift::ir::FloatCC;
use cranelift::predicates::is_signed_int;
use cranelift::settings::{builder, Flags};

fn reg(r: u16) -> Operand {
    Operand { reg: r, ty: ValueType(I32) }
}

fn word(sink: &CodeSink) -> u32 {
    let b = sink.as_bytes();
    assert_eq!(b.len() % 4, 0);
    let n = b.len();
    u32::from_le_bytes([b[n - 4], b[n - 3], b[n - 2], b[n - 1]])
}

#[test]
fn riscv_r_type_add() {
    // add x3, x1, x2
    let mut sink = CodeSink::new();
    let inst = InstructionData::Binary { args: [reg(1), reg(2)], result: reg(3) };
    emit_inst(Encoding { recipe: 0, bits: 0x0c }, &inst, &mut RegDiversions::new(), &mut sink);
    assert_eq!(sink.as_bytes(), &[0xb3, 0x81, 0x20, 0x00]);
}

#[test]
fn riscv_i_type_negative_immediate() {
    // addi x5, x6, -1
    let mut sink = CodeSink::new();
    let inst = InstructionData::BinaryImm { arg: reg(6), imm: -1, result: reg(5) };
    emit_inst(Encoding { recipe: 3, bits: 0x04 }, &inst, &mut RegDiversions::new(), &mut sink);
    assert_eq!(word(&sink), 0xfff30293);
}

#[test]
fn riscv_u_type_lui() {
    // lui x7, 0x12345
    let mut sink = CodeSink::new();
    let inst = InstructionData::UnaryImm { imm: 0x12345000, result: reg(7) };
    emit_inst(Encoding { recipe: 11, bits: 0x0d }, &inst, &mut RegDiversions::new(), &mut sink);
    assert_eq!(word(&sink), 0x123453b7);
}

#[test]
fn riscv_branch_forward() {
    // beq x1, x2, +8
    let mut sink = CodeSink::new();
    let inst = InstructionData::BranchIntCompare {
        cond: IntCC::Equal,
        args: [reg(1), reg(2)],
        destination: 8,
    };
    emit_inst(Encoding { recipe: 14, bits: 0x18 }, &inst, &mut RegDiversions::new(), &mut sink);
    assert_eq!(word(&sink), 0x00208463);
}

#[test]
fn riscv_jump_backward() {
    // jal x0, -4, emitted at offset 4.
    let mut sink = CodeSink::new();
    let nop = InstructionData::BinaryImm { arg: reg(0), imm: 0, result: reg(0) };
    emit_inst(Encoding { recipe: 3, bits: 0x04 }, &nop, &mut RegDiversions::new(), &mut sink);
    assert_eq!(word(&sink), 0x00000013);
    let inst = InstructionData::Jump { destination: 0 };
    emit_inst(Encoding { recipe: 12, bits: 0x1b }, &inst, &mut RegDiversions::new(), &mut sink);
    assert_eq!(sink.as_bytes().len(), 8);
    assert_eq!(word(&sink), 0xffdff06f);
}

#[test]
fn riscv_call_records_relocation() {
    let mut sink = CodeSink::new();
    let inst = InstructionData::Call { func_ref: 7, args: Vec::new() };
    emit_inst(Encoding { recipe: 13, bits: 0x1b }, &inst, &mut RegDiversions::new(), &mut sink);
    assert_eq!(word(&sink), 0x000000ef);
    assert_eq!(
        sink.relocations(),
        &[Relocation { offset: 0, kind: Reloc::RiscvCall, target: RelocTarget::External(7), addend: 0 }]
    );
}

#[test]
fn riscv_return_and_indirect_call() {
    let mut sink = CodeSink::new();
    // jalr x0, 0(x1)
    let ret = InstructionData::MultiAry { args: Vec::new() };
    emit_inst(Encoding { recipe: 6, bits: 0x19 }, &ret, &mut RegDiversions::new(), &mut sink);
    assert_eq!(word(&sink), 0x00008067);
    // jalr x1, 0(x10)
    let call = InstructionData::CallIndirect { args: vec![reg(10)] };
    emit_inst(Encoding { recipe: 7, bits: 0x19 }, &call, &mut RegDiversions::new(), &mut sink);
    assert_eq!(word(&sink), 0x000500e7);
}

#[test]
fn riscv_illegal_and_null_recipes_emit_nothing() {
    let mut sink = CodeSink::new();
    let inst = InstructionData::Unary { arg: reg(1), result: reg(2) };
    emit_inst(Encoding { recipe: 0xffff, bits: 0xffff }, &inst, &mut RegDiversions::new(), &mut sink);
    emit_inst(Encoding { recipe: 18, bits: 0 }, &inst, &mut RegDiversions::new(), &mut sink);
    emit_inst(Encoding { recipe: 19, bits: 0 }, &inst, &mut RegDiversions::new(), &mut sink);
    assert!(sink.as_bytes().is_empty());
}

#[test]
fn signed_int_ranges() {
    assert!(is_signed_int(2047, 12, 0));
    assert!(!is_signed_int(2048, 12, 0));
    assert!(is_signed_int(-2048, 12, 0));
    assert!(!is_signed_int(-2049, 12, 0));
    assert!(is_signed_int(0x12345000, 32, 12));
    assert!(!is_signed_int(0x12345001, 32, 12));
    assert!(!is_signed_int(0x80000000, 32, 12));
    assert!(is_signed_int(-4096, 13, 1));
    assert!(!is_signed_int(3, 13, 1));
    assert!(is_signed_int(i64::MIN, 64, 0));
}

#[test]
fn riscv_predicates() {
    let flags = Flags::new(builder());
    let view = flags.predicate_view();
    let small = InstructionData::BinaryImm { arg: reg(1), imm: 100, result: reg(2) };
    let big = InstructionData::BinaryImm { arg: reg(1), imm: 4096, result: reg(2) };
    assert_eq!(recipe_predicate(3, view, &small), Some(true));
    assert_eq!(recipe_predicate(3, view, &big), Some(false));
    assert_eq!(recipe_predicate(0, view, &small), None);
    let upper = InstructionData::UnaryImm { imm: 0x7000, result: reg(2) };
    assert_eq!(recipe_predicate(11, view, &upper), Some(true));
    assert_eq!(recipe_predicate(4, view, &upper), Some(false));

    let shift = InstructionData::Binary {
        args: [reg(1), Operand { reg: 2, ty: ValueType(I64) }],
        result: reg(3),
    };
    assert!(!inst_predicate(0, &shift));
    assert!(inst_predicate(1, &shift));
    let lt = InstructionData::IntCompare {
        cond: IntCC::SignedLessThan,
        args: [reg(1), reg(2)],
        result: reg(3),
    };
    assert!(inst_predicate(2, &lt));
    assert!(!inst_predicate(3, &lt));
    let bge = InstructionData::BranchIntCompare {
        cond: IntCC::SignedGreaterThanOrEqual,
        args: [reg(1), reg(2)],
        destination: 0,
    };
    assert!(inst_predicate(9, &bge));
    assert!(!inst_predicate(8, &bge));
}

#[test]
fn x86_prefixes_and_condition_codes() {
    assert_eq!(rex1(9), 0x41);
    assert_eq!(rex1(7), 0x40);
    assert_eq!(rex2(8, 1), 0x41);
    assert_eq!(rex2(1, 12), 0x44);
    assert_eq!(rex3(1, 9, 10), 0x46);
    assert_eq!(icc2opc(IntCC::Equal), 0x4);
    assert_eq!(icc2opc(IntCC::NotEqual), 0x5);
    assert_eq!(icc2opc(IntCC::SignedGreaterThan), 0xf);
    assert_eq!(fcc2opc(FloatCC::Ordered), 0xb);
    assert_eq!(fcc2opc(FloatCC::UnorderedOrLessThanOrEqual), 0x6);
    assert_eq!(stk_base(StackBase::SP), 4);
    assert_eq!(stk_base(StackBase::FP), 5);
}

#[test]
fn riscv_register_move_records_diversion() {
    let inst = InstructionData::RegMove { arg: reg(10), value: 5, src: 10, dst: 11 };
    let mut divert = RegDiversions::new();
    let mut sink = CodeSink::new();
    emit_inst(Encoding { recipe: 9, bits: 0x04 }, &inst, &mut divert, &mut sink);
    assert_eq!(word(&sink), 0x0005_0593);
    assert_eq!(
        divert.diversion(5),
        Some(Diversion { from: ValueLoc::Reg(10), to: ValueLoc::Reg(11) })
    );
}
