use cranelift::regalloc::{Diversion, RegDiversions, ValueLoc};
use cranelift::binemit::{CodeSink, Reloc, RelocTarget, Relocation, TrapSite};
use cranelift::ir::{Encoding, FloatCC, InstructionFormat, IntCC, TrapCode};
use cranelift::isa::x86::binemit::{emit_inst, fcc2opc, icc2opc, InstOperands, StackBase, StackRef};

fn enc(recipe: u16, bits: u16) -> Encoding {
    Encoding { recipe, bits }
}

#[test]
fn x86_add_registers() {
    // Op1rr: add %ecx, %eax.
    let mut ops = InstOperands::new(InstructionFormat::Binary);
    ops.arg0 = 0;
    ops.arg1 = 1;
    let mut sink = CodeSink::new();
    emit_inst(enc(2, 0x01), &ops, &mut RegDiversions::new(), &mut sink);
    assert_eq!(sink.as_bytes(), &[0x01, 0xc8]);
    assert!(sink.relocations().is_empty());
    assert!(sink.trap_sites().is_empty());
}

#[test]
fn x86_add_registers_rex_w() {
    // RexOp1rr: add %rcx, %r8.
    let mut ops = InstOperands::new(InstructionFormat::Binary);
    ops.arg0 = 8;
    ops.arg1 = 1;
    let mut sink = CodeSink::new();
    emit_inst(enc(3, 0x8001), &ops, &mut RegDiversions::new(), &mut sink);
    assert_eq!(sink.as_bytes(), &[0x49, 0x01, 0xc8]);
}

#[test]
fn x86_load_through_rsp_needs_sib() {
    // Op1ld: mov (%rsp), %eax, with a trap site for the heap access.
    let mut ops = InstOperands::new(InstructionFormat::Load);
    ops.arg0 = 4;
    ops.result = 0;
    ops.srcloc = 7;
    let mut sink = CodeSink::new();
    emit_inst(enc(87, 0x8b), &ops, &mut RegDiversions::new(), &mut sink);
    assert_eq!(sink.as_bytes(), &[0x8b, 0x04, 0x24]);
    assert_eq!(
        sink.trap_sites(),
        &[TrapSite { offset: 0, code: TrapCode::HeapOutOfBounds, srcloc: 7 }]
    );
}

#[test]
fn x86_load_through_rbp_needs_offset() {
    // Op1ld: mov 0(%rbp), %eax; no trap site when the access cannot trap.
    let mut ops = InstOperands::new(InstructionFormat::Load);
    ops.arg0 = 5;
    ops.result = 0;
    ops.notrap = true;
    let mut sink = CodeSink::new();
    emit_inst(enc(87, 0x8b), &ops, &mut RegDiversions::new(), &mut sink);
    assert_eq!(sink.as_bytes(), &[0x8b, 0x45, 0x00]);
    assert!(sink.trap_sites().is_empty());
}

#[test]
fn x86_call_records_reloc_and_trap() {
    // Op1call_id: call to an external symbol.
    let mut ops = InstOperands::new(InstructionFormat::Call);
    ops.symbol = 3;
    ops.srcloc = 11;
    let mut sink = CodeSink::new();
    sink.put1(0x90);
    emit_inst(enc(166, 0xe8), &ops, &mut RegDiversions::new(), &mut sink);
    assert_eq!(sink.as_bytes(), &[0x90, 0xe8, 0, 0, 0, 0]);
    assert_eq!(
        sink.relocations(),
        &[Relocation {
            offset: 2,
            kind: Reloc::X86CallPCRel4,
            target: RelocTarget::External(3),
            addend: -4,
        }]
    );
    assert_eq!(
        sink.trap_sites(),
        &[TrapSite { offset: 1, code: TrapCode::StackOverflow, srcloc: 11 }]
    );
}

#[test]
fn x86_short_and_near_jumps() {
    // Op1jmpb: the displacement is relative to the end of the instruction.
    let mut ops = InstOperands::new(InstructionFormat::Jump);
    ops.destination = 0x10;
    let mut sink = CodeSink::new();
    emit_inst(enc(171, 0xeb), &ops, &mut RegDiversions::new(), &mut sink);
    assert_eq!(sink.as_bytes(), &[0xeb, 0x0e]);
    // Op1jmpd: a backward jump to offset 0.
    ops.destination = 0;
    emit_inst(enc(172, 0xe9), &ops, &mut RegDiversions::new(), &mut sink);
    assert_eq!(sink.as_bytes(), &[0xeb, 0x0e, 0xe9, 0xf9, 0xff, 0xff, 0xff]);
}

#[test]
fn x86_trapif_jumps_over_ud2() {
    let mut ops = InstOperands::new(InstructionFormat::IntCondTrap);
    ops.intcc = IntCC::Equal;
    ops.trap_code = TrapCode::IntegerOverflow;
    let mut sink = CodeSink::new();
    emit_inst(enc(198, 0), &ops, &mut RegDiversions::new(), &mut sink);
    assert_eq!(sink.as_bytes(), &[0x75, 0x02, 0x0f, 0x0b]);
    assert_eq!(
        sink.trap_sites(),
        &[TrapSite { offset: 2, code: TrapCode::IntegerOverflow, srcloc: 0 }]
    );
}

#[test]
fn x86_move_imm64() {
    // RexOp1pu_iq: movabs $imm, %r9.
    let mut ops = InstOperands::new(InstructionFormat::UnaryImm);
    ops.result = 9;
    ops.imm = 0x1122_3344_5566_7788;
    let mut sink = CodeSink::new();
    emit_inst(enc(29, 0x80b8), &ops, &mut RegDiversions::new(), &mut sink);
    assert_eq!(
        sink.as_bytes(),
        &[0x49, 0xb9, 0x88, 0x77, 0x66, 0x55, 0x44, 0x33, 0x22, 0x11]
    );
}

#[test]
fn x86_float_compare_and_set() {
    // Op2fcscc: ucomiss %xmm1, %xmm2; seta %al.
    let mut ops = InstOperands::new(InstructionFormat::FloatCompare);
    ops.arg0 = 1;
    ops.arg1 = 2;
    ops.result = 0;
    ops.floatcc = FloatCC::GreaterThan;
    let mut sink = CodeSink::new();
    emit_inst(enc(251, 0x2e), &ops, &mut RegDiversions::new(), &mut sink);
    assert_eq!(sink.as_bytes(), &[0x0f, 0x2e, 0xca, 0x0f, 0x97, 0xc0]);
}

#[test]
fn x86_jump_table_base() {
    // Op1jt_base: lea of a jump table placed after the function.
    let mut ops = InstOperands::new(InstructionFormat::BranchTableBase);
    ops.result = 0;
    ops.table = 3;
    ops.table_offset = 0x100;
    let mut sink = CodeSink::new();
    emit_inst(enc(193, 0x8d), &ops, &mut RegDiversions::new(), &mut sink);
    assert_eq!(sink.as_bytes(), &[0x8d, 0x05, 0xfa, 0x00, 0x00, 0x00]);
    assert_eq!(
        sink.relocations(),
        &[Relocation {
            offset: 6,
            kind: Reloc::X86PCRelRodata4,
            target: RelocTarget::JumpTable(3),
            addend: 0,
        }]
    );
}

#[test]
fn x86_spill_to_stack_slot() {
    // RexOp1spillSib32: mov %rax, 0x20(%rsp).
    let mut ops = InstOperands::new(InstructionFormat::Unary);
    ops.arg0 = 0;
    ops.result_slot = StackRef { base: StackBase::SP, offset: 0x20 };
    let mut sink = CodeSink::new();
    emit_inst(enc(84, 0x8089), &ops, &mut RegDiversions::new(), &mut sink);
    assert_eq!(sink.as_bytes(), &[0x48, 0x89, 0x84, 0x24, 0x20, 0x00, 0x00, 0x00]);
    assert_eq!(
        sink.trap_sites(),
        &[TrapSite { offset: 0, code: TrapCode::StackOverflow, srcloc: 0 }]
    );
}

#[test]
fn x86_illegal_encoding_emits_nothing() {
    let ops = InstOperands::new(InstructionFormat::NullAry);
    let mut sink = CodeSink::new();
    emit_inst(enc(0xffff, 0xffff), &ops, &mut RegDiversions::new(), &mut sink);
    assert!(sink.as_bytes().is_empty());
}

#[test]
fn condition_inverse_twice_and_opcodes() {
    for cc in [IntCC::Equal, IntCC::SignedLessThan, IntCC::UnsignedGreaterThan, IntCC::Overflow] {
        assert_eq!(cc.inverse().inverse(), cc);
        assert_eq!(icc2opc(cc.inverse()), icc2opc(cc) ^ 1);
    }
    for cc in [FloatCC::Ordered, FloatCC::GreaterThan, FloatCC::UnorderedOrLessThan] {
        assert_eq!(cc.inverse().inverse(), cc);
        assert_eq!(fcc2opc(cc.inverse()), fcc2opc(cc) ^ 1);
    }
    assert_eq!(FloatCC::LessThan.inverse(), FloatCC::UnorderedOrGreaterThanOrEqual);
}

#[test]
fn x86_safepoint_records_stack_map() {
    let ops = InstOperands::new(InstructionFormat::MultiAry);
    let mut sink = CodeSink::new();
    sink.put4(0x9090_9090);
    emit_inst(enc(288, 0), &ops, &mut RegDiversions::new(), &mut sink);
    assert_eq!(sink.as_bytes().len(), 4);
    assert_eq!(sink.stackmap_offsets(), &[4]);
    assert!(sink.relocations().is_empty());
    assert!(sink.trap_sites().is_empty());
}

#[test]
fn x86_fill_of_null_emits_nothing() {
    // fillnull: a fill whose value needs no code.
    let ops = InstOperands::new(InstructionFormat::Unary);
    let mut sink = CodeSink::new();
    emit_inst(enc(103, 0), &ops, &mut RegDiversions::new(), &mut sink);
    assert!(sink.as_bytes().is_empty());
    assert!(sink.stackmap_offsets().is_empty());
}

#[test]
fn x86_register_move_records_diversion() {
    // Op1rmov: mov %rax, %rcx, moving value 7.
    let mut ops = InstOperands::new(InstructionFormat::RegMove);
    ops.value = 7;
    ops.src = 0;
    ops.dst = 1;
    let mut divert = RegDiversions::new();
    let mut sink = CodeSink::new();
    emit_inst(enc(20, 0x89), &ops, &mut divert, &mut sink);
    assert_eq!(sink.as_bytes(), &[0x89, 0xc1]);
    assert_eq!(
        divert.diversion(7),
        Some(Diversion { from: ValueLoc::Reg(0), to: ValueLoc::Reg(1) })
    );
    // Moving it back undoes the diversion.
    ops.src = 1;
    ops.dst = 0;
    emit_inst(enc(20, 0x89), &ops, &mut divert, &mut sink);
    assert_eq!(divert.diversion(7), None);
}

#[test]
fn x86_spill_then_fill_diversions() {
    let mut divert = RegDiversions::new();
    let mut sink = CodeSink::new();
    // Op1regspill32: value 3 from %rdx to slot 2.
    let mut ops = InstOperands::new(InstructionFormat::RegSpill);
    ops.value = 3;
    ops.src = 2;
    ops.slot = 2;
    ops.result_slot = StackRef { base: StackBase::SP, offset: 8 };
    emit_inst(enc(85, 0x89), &ops, &mut divert, &mut sink);
    assert_eq!(
        divert.diversion(3),
        Some(Diversion { from: ValueLoc::Reg(2), to: ValueLoc::Stack(2) })
    );
    // Op1regfill32: value 3 from slot 2 to %rbx.
    let mut ops = InstOperands::new(InstructionFormat::RegFill);
    ops.value = 3;
    ops.slot = 2;
    ops.dst = 3;
    ops.arg_slot = StackRef { base: StackBase::SP, offset: 8 };
    emit_inst(enc(101, 0x8b), &ops, &mut divert, &mut sink);
    assert_eq!(
        divert.diversion(3),
        Some(Diversion { from: ValueLoc::Reg(2), to: ValueLoc::Reg(3) })
    );
}

#[test]
fn operands_follow_register_diversions() {
    let locations = vec![ValueLoc::Reg(1), ValueLoc::Reg(2), ValueLoc::Stack(0)];
    let mut divert = RegDiversions::new();
    divert.regmove(1, 2, 5);
    assert_eq!(divert.location(2, &locations), ValueLoc::Stack(0));
    assert_eq!(divert.reg(0, &locations), 1);
    let ops = InstOperands::new(InstructionFormat::Binary).with_registers(&vec![0, 1], Some(0), &locations, &divert);
    assert_eq!((ops.arg0, ops.arg1, ops.arg2, ops.result), (1, 5, 0, 1));
}
