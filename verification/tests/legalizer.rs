use cranelift::ir::{Encoding, IntCC, Opcode, TrapCode, ValueType};
use cranelift::legalizer::patterns::{
    expand, expand_flags, in_type_set, narrow, narrow_no_flags, widen, EncodingEntry, IsaInfo,
    LegalizeAction, TypeAction,
};
use cranelift::legalizer::{legalize_function, legalize_inst, make_inst, Function, InstData, LegalizeInstResult, I16, I32, I64, I8, IFLAGS};

fn inst(opcode: Opcode, ctrl: u8, a0: u32, a1: u32, imm: i64, res: u32) -> InstData {
    let mut d = make_inst(opcode, ValueType(ctrl), a0, a1, 0, imm, IntCC::Equal, TrapCode::User(0), 0, 0, 0, 0);
    d.res0 = res;
    d.num_results = 1;
    d
}

fn isa() -> IsaInfo {
    IsaInfo {
        pointer_type: ValueType(I64),
        encodings: vec![EncodingEntry { opcode: Opcode::Band, ctrl: ValueType(I32), encoding: Encoding { recipe: 3, bits: 0x21 } }],
        actions: vec![TypeAction { ctrl: ValueType(I8), action: LegalizeAction::Widen }],
        default_action: LegalizeAction::Expand,
        jump_tables_enabled: false,
    }
}

fn band_i8() -> Function {
    Function {
        insts: vec![inst(Opcode::Band, I8, 0, 1, 0, 2)],
        layout: vec![0],
        value_types: vec![ValueType(I8), ValueType(I8), ValueType(I8)],
        encodings: vec![Encoding { recipe: 0xffff, bits: 0xffff }],
        jump_tables: vec![],
    }
}

#[test]
fn widen_band_i8_through_i32() {
    let mut f = band_i8();
    assert!(widen(0, &mut f, &isa()));
    assert_eq!(f.layout, vec![1, 2, 3, 0]);
    assert_eq!(f.insts[1].opcode, Opcode::Uextend);
    assert_eq!((f.insts[1].arg0, f.insts[1].res0, f.insts[1].ctrl), (0, 3, ValueType(I32)));
    assert_eq!(f.insts[2].opcode, Opcode::Uextend);
    assert_eq!((f.insts[2].arg0, f.insts[2].res0), (1, 4));
    assert_eq!(f.insts[3].opcode, Opcode::Band);
    assert_eq!((f.insts[3].arg0, f.insts[3].arg1, f.insts[3].res0), (3, 4, 5));
    // The original instruction keeps its result and now reduces the wide result.
    assert_eq!(f.insts[0].opcode, Opcode::Ireduce);
    assert_eq!((f.insts[0].arg0, f.insts[0].res0, f.insts[0].ctrl), (5, 2, ValueType(I8)));
    assert_eq!(f.value_types.len(), 6);
    assert_eq!(f.value_types[5], ValueType(I32));
}

#[test]
fn widen_leaves_wide_types_alone() {
    let mut f = band_i8();
    f.value_types = vec![ValueType(I64), ValueType(I64), ValueType(I64)];
    f.insts[0].ctrl = ValueType(I64);
    assert!(!widen(0, &mut f, &isa()));
    assert_eq!(f.layout, vec![0]);
    assert_eq!(f.insts.len(), 1);
}

#[test]
fn expand_iadd_imm_into_constant_and_add() {
    let mut f = Function {
        insts: vec![inst(Opcode::IaddImm, I32, 0, 0, 5, 1)],
        layout: vec![0],
        value_types: vec![ValueType(I32), ValueType(I32)],
        encodings: vec![Encoding { recipe: 0xffff, bits: 0xffff }],
        jump_tables: vec![],
    };
    assert!(expand(0, &mut f, &isa()));
    assert_eq!(f.layout, vec![1, 0]);
    assert_eq!((f.insts[1].opcode, f.insts[1].imm, f.insts[1].res0), (Opcode::Iconst, 5, 2));
    assert_eq!((f.insts[0].opcode, f.insts[0].arg0, f.insts[0].arg1, f.insts[0].res0), (Opcode::Iadd, 0, 2, 1));
}

#[test]
fn expand_flags_trapz_compares_with_zero() {
    let mut d = make_inst(Opcode::Trapz, ValueType(I32), 0, 0, 0, 0, IntCC::Equal, TrapCode::HeapOutOfBounds, 0, 0, 0, 0);
    d.num_results = 0;
    let mut f = Function {
        insts: vec![d],
        layout: vec![0],
        value_types: vec![ValueType(I32)],
        encodings: vec![Encoding { recipe: 0xffff, bits: 0xffff }],
        jump_tables: vec![],
    };
    assert!(in_type_set(1, ValueType(I32)));
    assert!(expand_flags(0, &mut f, &isa()));
    assert_eq!(f.layout, vec![1, 2]);
    assert_eq!((f.insts[1].opcode, f.insts[1].arg0, f.insts[1].imm, f.insts[1].res0), (Opcode::IntFlagsCompareImm, 0, 0, 1));
    assert_eq!(f.value_types[1], ValueType(IFLAGS));
    assert_eq!((f.insts[2].opcode, f.insts[2].cond, f.insts[2].arg0, f.insts[2].code), (Opcode::Trapif, IntCC::Equal, 1, TrapCode::HeapOutOfBounds));
}

#[test]
fn legalize_inst_records_encoding_or_legalizes() {
    let isa = isa();
    // No encoding for band.i8: the ISA widens it.
    let mut f = band_i8();
    assert_eq!(legalize_inst(0, &mut f, &isa), LegalizeInstResult::Legalized);
    assert_eq!(f.layout, vec![1, 2, 3, 0]);
    // The widened band.i32 has an encoding, which is recorded.
    f.encodings = vec![Encoding { recipe: 0xffff, bits: 0xffff }; 4];
    assert_eq!(legalize_inst(3, &mut f, &isa), LegalizeInstResult::Done);
    assert_eq!(f.encodings[3], Encoding { recipe: 3, bits: 0x21 });
}

#[test]
fn type_sets() {
    assert!(in_type_set(0, ValueType(I8)));
    assert!(!in_type_set(2, ValueType(I8)));
    assert!(in_type_set(3, ValueType(I16)));
    // i32x4 is a vector: in set 0 but not in the scalar set 1.
    assert!(in_type_set(0, ValueType(0x98)));
    assert!(!in_type_set(1, ValueType(0x98)));
    assert!(!in_type_set(0, ValueType(0x7b)));
}

#[test]
fn narrow_iadd_i64_into_halves_with_carry() {
    // v0 is an iconcat of v3 and v4, so its halves are reused; v1 gets an isplit.
    let mut concat = inst(Opcode::Iconcat, I32, 3, 4, 0, 0);
    concat.num_results = 1;
    let mut f = Function {
        insts: vec![inst(Opcode::Iadd, I64, 0, 1, 0, 2), concat],
        layout: vec![1, 0],
        value_types: vec![ValueType(I64), ValueType(I64), ValueType(I64), ValueType(I32), ValueType(I32)],
        encodings: vec![Encoding { recipe: 0xffff, bits: 0xffff }; 2],
        jump_tables: vec![],
    };
    assert!(narrow_no_flags(0, &mut f, &isa()));
    assert_eq!(f.layout, vec![1, 2, 3, 4, 0]);
    assert_eq!((f.insts[2].opcode, f.insts[2].arg0, f.insts[2].res0, f.insts[2].res1), (Opcode::Isplit, 1, 5, 6));
    assert_eq!(f.value_types[5], ValueType(I32));
    assert_eq!((f.insts[3].opcode, f.insts[3].arg0, f.insts[3].arg1, f.insts[3].res0, f.insts[3].res1), (Opcode::IaddCout, 3, 5, 7, 8));
    assert_eq!((f.insts[4].opcode, f.insts[4].arg0, f.insts[4].arg1, f.insts[4].arg2, f.insts[4].res0), (Opcode::IaddCin, 4, 6, 8, 9));
    assert_eq!((f.insts[0].opcode, f.insts[0].arg0, f.insts[0].arg1, f.insts[0].res0), (Opcode::Iconcat, 7, 9, 2));
}

#[test]
fn narrow_icmp_imm_i64_compares_halves() {
    let mut d = inst(Opcode::IntCompareImm, I64, 0, 0, 0x1_0000_0005, 1);
    d.cond = IntCC::Equal;
    let mut f = Function {
        insts: vec![d],
        layout: vec![0],
        value_types: vec![ValueType(I64), ValueType(0x70)],
        encodings: vec![Encoding { recipe: 0xffff, bits: 0xffff }],
        jump_tables: vec![],
    };
    assert!(narrow(0, &mut f, &isa()));
    assert_eq!(f.layout, vec![1, 2, 3, 4, 5, 0]);
    // The low immediate is the low 32 bits; the high one is the upper 32 bits.
    assert_eq!((f.insts[1].opcode, f.insts[1].imm, f.insts[1].ctrl), (Opcode::Iconst, 5, ValueType(I32)));
    assert_eq!((f.insts[2].opcode, f.insts[2].imm), (Opcode::Iconst, 1));
    assert_eq!((f.insts[3].opcode, f.insts[3].res0, f.insts[3].res1), (Opcode::Isplit, 4, 5));
    assert_eq!((f.insts[4].arg0, f.insts[4].arg1, f.insts[4].res0), (4, 2, 6));
    assert_eq!((f.insts[5].arg0, f.insts[5].arg1, f.insts[5].res0), (5, 3, 7));
    assert_eq!((f.insts[0].opcode, f.insts[0].arg0, f.insts[0].arg1, f.insts[0].res0), (Opcode::Band, 6, 7, 1));
}

#[test]
fn narrow_load_i64_reads_halves_four_bytes_apart() {
    let mut d = inst(Opcode::Load, I64, 0, 0, 0, 1);
    d.offset = 16;
    let mut f = Function {
        insts: vec![d],
        layout: vec![0],
        value_types: vec![ValueType(I32), ValueType(I64)],
        encodings: vec![Encoding { recipe: 0xffff, bits: 0xffff }],
        jump_tables: vec![],
    };
    assert!(narrow(0, &mut f, &isa()));
    assert_eq!(f.layout, vec![1, 2, 0]);
    assert_eq!((f.insts[1].opcode, f.insts[1].offset, f.insts[1].ctrl), (Opcode::Load, 16, ValueType(I32)));
    assert_eq!((f.insts[2].opcode, f.insts[2].offset, f.insts[2].ctrl), (Opcode::Load, 20, ValueType(I32)));
    assert_eq!((f.insts[0].opcode, f.insts[0].arg0, f.insts[0].arg1, f.insts[0].res0), (Opcode::Iconcat, 2, 3, 1));
}

fn two_results(opcode: Opcode, ctrl: u8, a0: u32, r0: u32, r1: u32) -> InstData {
    let mut d = make_inst(opcode, ValueType(ctrl), a0, 0, 0, 0, IntCC::Equal, TrapCode::User(0), 0, 0, 0, 0);
    d.res0 = r0;
    d.res1 = r1;
    d.num_results = 2;
    d
}

#[test]
fn legalize_inst_leaves_split_of_unknown_value_pending() {
    let mut f = Function {
        insts: vec![inst(Opcode::Iadd, I64, 0, 1, 0, 2), two_results(Opcode::Isplit, I64, 2, 3, 4)],
        layout: vec![0, 1],
        value_types: vec![ValueType(I64), ValueType(I64), ValueType(I64), ValueType(I32), ValueType(I32)],
        encodings: vec![Encoding { recipe: 0xffff, bits: 0xffff }; 2],
        jump_tables: vec![],
    };
    assert_eq!(legalize_inst(1, &mut f, &isa()), LegalizeInstResult::SplitLegalizePending);
    assert_eq!(f.layout, vec![0, 1]);
    assert_eq!(f.insts.len(), 2);
}

#[test]
fn legalize_inst_resolves_split_of_concatenation() {
    let mut f = Function {
        insts: vec![
            inst(Opcode::Iconcat, I32, 0, 1, 0, 2),
            two_results(Opcode::Isplit, I64, 2, 3, 4),
            inst(Opcode::Iadd, I32, 3, 4, 0, 5),
        ],
        layout: vec![0, 1, 2],
        value_types: vec![ValueType(I32), ValueType(I32), ValueType(I64), ValueType(I32), ValueType(I32), ValueType(I32)],
        encodings: vec![Encoding { recipe: 0xffff, bits: 0xffff }; 3],
        jump_tables: vec![],
    };
    assert_eq!(legalize_inst(1, &mut f, &isa()), LegalizeInstResult::Legalized);
    // The split is gone and its results now stand for the halves of the concatenation.
    assert_eq!(f.layout, vec![0, 2]);
    assert_eq!(f.insts.len(), 3);
    assert_eq!((f.insts[2].arg0, f.insts[2].arg1), (0, 1));
}

#[test]
fn legalize_function_widens_and_records_encodings() {
    let mut f = band_i8();
    assert!(legalize_function(&mut f, &isa()));
    assert_eq!(f.layout, vec![1, 2, 3, 0]);
    assert_eq!(f.encodings.len(), 4);
    // The widened `band` has the ISA's encoding; the extensions have none.
    assert_eq!(f.encodings[3], Encoding { recipe: 3, bits: 0x21 });
    assert_eq!(f.encodings[1], Encoding { recipe: 0xffff, bits: 0xffff });
}

#[test]
fn narrow_brz_i128_tests_both_halves() {
    let mut d = make_inst(Opcode::Brz, ValueType(0x7a), 0, 0, 0, 0, IntCC::Equal, TrapCode::User(0), 0, 0, 7, 0);
    d.num_results = 0;
    let mut f = Function {
        insts: vec![d],
        layout: vec![0],
        value_types: vec![ValueType(0x7a)],
        encodings: vec![Encoding { recipe: 0xffff, bits: 0xffff }],
        jump_tables: vec![],
    };
    assert!(narrow(0, &mut f, &isa()));
    assert_eq!(f.layout, vec![1, 2, 3, 4, 5]);
    assert_eq!((f.insts[1].opcode, f.insts[1].res0, f.insts[1].res1), (Opcode::Isplit, 1, 2));
    assert_eq!((f.insts[2].opcode, f.insts[2].arg0, f.insts[2].imm, f.insts[2].res0), (Opcode::IntCompareImm, 1, 0, 3));
    assert_eq!((f.insts[3].opcode, f.insts[3].arg0, f.insts[3].imm, f.insts[3].res0), (Opcode::IntCompareImm, 2, 0, 4));
    assert_eq!((f.insts[4].opcode, f.insts[4].arg0, f.insts[4].arg1, f.insts[4].res0), (Opcode::Band, 3, 4, 5));
    assert_eq!((f.insts[5].opcode, f.insts[5].arg0, f.insts[5].dest), (Opcode::Brnz, 5, 7));
}

#[test]
fn expand_trapz_branches_over_a_trap_block() {
    let mut d = make_inst(Opcode::Trapz, ValueType(I32), 0, 0, 0, 0, IntCC::Equal, TrapCode::User(3), 0, 0, 0, 0);
    d.num_results = 0;
    let mut f = Function {
        insts: vec![d],
        layout: vec![0],
        value_types: vec![ValueType(I32)],
        encodings: vec![Encoding { recipe: 0xffff, bits: 0xffff }],
        jump_tables: vec![],
    };
    assert!(expand(0, &mut f, &isa()));
    assert_eq!(f.layout, vec![0, 1, 2, 3, 4]);
    // trapz x  =>  brnz x, resume; jump trap; trap: trap; resume:
    assert_eq!((f.insts[0].opcode, f.insts[0].arg0, f.insts[0].dest), (Opcode::Brnz, 0, 4));
    assert_eq!((f.insts[1].opcode, f.insts[1].dest), (Opcode::Jump, 2));
    assert_eq!(f.insts[2].opcode, Opcode::Block);
    assert_eq!((f.insts[3].opcode, f.insts[3].code), (Opcode::Trap, TrapCode::User(3)));
    assert_eq!(f.insts[4].opcode, Opcode::Block);
}

#[test]
fn expand_select_through_a_block_parameter() {
    let mut d = make_inst(Opcode::Select, ValueType(I32), 0, 1, 2, 0, IntCC::Equal, TrapCode::User(0), 0, 0, 0, 0);
    d.res0 = 3;
    d.num_results = 1;
    let mut f = Function {
        insts: vec![d],
        layout: vec![0],
        value_types: vec![ValueType(0x70), ValueType(I32), ValueType(I32), ValueType(I32)],
        encodings: vec![Encoding { recipe: 0xffff, bits: 0xffff }],
        jump_tables: vec![],
    };
    assert!(expand(0, &mut f, &isa()));
    assert_eq!(f.layout, vec![0, 1, 2]);
    assert_eq!((f.insts[0].opcode, f.insts[0].arg0, f.insts[0].arg1, f.insts[0].block_args, f.insts[0].dest), (Opcode::Brnz, 0, 1, 1, 2));
    assert_eq!((f.insts[1].opcode, f.insts[1].arg0, f.insts[1].block_args, f.insts[1].dest), (Opcode::Jump, 2, 1, 2));
    assert_eq!((f.insts[2].opcode, f.insts[2].num_results, f.insts[2].res0), (Opcode::Block, 1, 3));
    assert_eq!(f.insts[0].num_results, 0);
}

#[test]
fn expand_br_table_conds_compares_each_entry() {
    let mut d = make_inst(Opcode::BrTable, ValueType(I32), 0, 0, 0, 0, IntCC::Equal, TrapCode::User(0), 0, 0, 9, 0);
    d.num_results = 0;
    let mut f = Function {
        insts: vec![d],
        layout: vec![0],
        value_types: vec![ValueType(I32)],
        encodings: vec![Encoding { recipe: 0xffff, bits: 0xffff }],
        jump_tables: vec![vec![20, 30]],
    };
    assert!(expand(0, &mut f, &isa()));
    // icmp_imm eq x, 0; brnz 20; jump b; b: icmp_imm eq x, 1; brnz 30; jump 9
    assert_eq!(f.layout, vec![1, 2, 3, 4, 5, 6, 7]);
    assert_eq!((f.insts[1].opcode, f.insts[1].arg0, f.insts[1].imm, f.insts[1].res0), (Opcode::IntCompareImm, 0, 0, 1));
    assert_eq!((f.insts[2].opcode, f.insts[2].arg0, f.insts[2].dest), (Opcode::Brnz, 1, 20));
    assert_eq!((f.insts[3].opcode, f.insts[3].dest), (Opcode::Jump, 4));
    assert_eq!(f.insts[4].opcode, Opcode::Block);
    assert_eq!((f.insts[5].opcode, f.insts[5].imm, f.insts[5].res0), (Opcode::IntCompareImm, 1, 2));
    assert_eq!((f.insts[6].opcode, f.insts[6].arg0, f.insts[6].dest), (Opcode::Brnz, 2, 30));
    assert_eq!((f.insts[7].opcode, f.insts[7].dest), (Opcode::Jump, 9));
}

#[test]
fn expand_br_table_through_jump_table() {
    let mut d = make_inst(Opcode::BrTable, ValueType(I32), 0, 0, 0, 0, IntCC::Equal, TrapCode::User(0), 0, 0, 9, 0);
    d.num_results = 0;
    let mut f = Function {
        insts: vec![d],
        layout: vec![0],
        value_types: vec![ValueType(I32)],
        encodings: vec![Encoding { recipe: 0xffff, bits: 0xffff }],
        jump_tables: vec![vec![20, 30, 40]],
    };
    let mut i = isa();
    i.jump_tables_enabled = true;
    assert!(expand(0, &mut f, &i));
    assert_eq!(f.layout, vec![1, 2, 3, 4, 5, 6, 7, 8, 9]);
    assert_eq!((f.insts[1].opcode, f.insts[1].imm, f.insts[1].cond), (Opcode::IntCompareImm, 3, IntCC::UnsignedGreaterThanOrEqual));
    assert_eq!((f.insts[2].opcode, f.insts[2].dest), (Opcode::Brnz, 9));
    assert_eq!((f.insts[3].opcode, f.insts[3].dest), (Opcode::Jump, 4));
    assert_eq!(f.insts[4].opcode, Opcode::Block);
    assert_eq!((f.insts[5].opcode, f.insts[5].ctrl), (Opcode::Uextend, ValueType(I64)));
    assert_eq!(f.insts[6].opcode, Opcode::JumpTableBase);
    assert_eq!((f.insts[7].opcode, f.insts[7].imm), (Opcode::JumpTableEntry, 4));
    assert_eq!(f.insts[8].opcode, Opcode::Iadd);
    assert_eq!(f.insts[9].opcode, Opcode::IndirectJumpTableBr);
}

#[test]
fn legalize_function_stops_at_a_call() {
    let mut f = Function {
        insts: vec![inst(Opcode::Call, I32, 0, 0, 0, 1)],
        layout: vec![0],
        value_types: vec![ValueType(I32), ValueType(I32)],
        encodings: vec![],
        jump_tables: vec![],
    };
    assert!(!legalize_function(&mut f, &isa()));
    assert_eq!(f.layout, vec![0]);
}
