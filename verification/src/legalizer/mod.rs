//! Legalize instructions.
//!
//! A legal instruction is one that can be mapped directly to a machine code instruction for the
//! target ISA. The pattern groups (`expand`, `expand_flags`, `narrow`, `narrow_flags`,
//! `narrow_no_flags` and `widen`) rewrite an instruction in terms of other instructions, on a
//! straight-line function: a layout of instructions, each with its opcode, controlling type,
//! operands and result values.

use vstd::prelude::*;
use crate::ir::{Encoding, IntCC, Opcode, TrapCode, ValueType, INVALID};

pub mod laws;
pub mod patterns;

use self::patterns::{
    expand, expand_flags, expand_flags_spec, expand_spec, expansion_in_model,
    expansion_with_flags_in_model, legalizable, narrow, narrow_flags, narrow_flags_spec,
    narrow_no_flags, narrow_no_flags_spec, narrow_spec, narrowing_in_model, pattern_outcome, widen,
    widen_spec, EncodingEntry, IsaInfo, LegalizeAction, TypeAction,
};

verus! {

/// A value, by number.
pub type Value = u32;

/// An instruction, by number.
pub type Inst = u32;

/// Type code of the boolean type with one bit.
pub const B1: u8 = 0x70;

/// Type code of the integer flags.
pub const IFLAGS: u8 = 0x01;

/// Type code of the integer type with 8 bits.
pub const I8: u8 = 0x76;

/// Type code of the integer type with 16 bits.
pub const I16: u8 = 0x77;

/// Type code of the integer type with 32 bits.
pub const I32: u8 = 0x78;

/// Type code of the integer type with 64 bits.
pub const I64: u8 = 0x79;

/// Type code of the integer type with 128 bits.
pub const I128: u8 = 0x7a;

/// Type code of the 32-bit floating point type.
pub const F32: u8 = 0x7b;

/// Type code of the 64-bit floating point type.
pub const F64: u8 = 0x7c;

/// The data of an instruction: its opcode, controlling type, value arguments, result values and
/// immediate fields. Fields an opcode does not use are zero.
#[derive(Copy, Clone, Debug, PartialEq, Eq, Structural)]
pub struct InstData {
    /// The opcode.
    pub opcode: Opcode,
    /// The controlling type variable.
    pub ctrl: ValueType,
    /// First value argument.
    pub arg0: Value,
    /// Second value argument.
    pub arg1: Value,
    /// Third value argument.
    pub arg2: Value,
    /// First result value.
    pub res0: Value,
    /// Second result value.
    pub res1: Value,
    /// Number of result values attached.
    pub num_results: u8,
    /// Integer immediate (or the bits of a floating point immediate).
    pub imm: i64,
    /// Integer condition code.
    pub cond: IntCC,
    /// Trap code.
    pub code: TrapCode,
    /// Memory flags.
    pub flags: u8,
    /// Address offset.
    pub offset: i32,
    /// Branch destination block.
    pub dest: u32,
    /// Jump table or stack slot.
    pub table: u32,
    /// For a branch, how many of its value arguments, the last ones, go to the destination
    /// block.
    pub block_args: u8,
}

/// A function: instruction data by number, the layout order of the instructions (where an
/// extended basic block starts with its `Block` header, and a block is named by the number of
/// its header), the type of each value, and the jump tables (lists of blocks).
pub struct Function {
    /// Instruction data, indexed by instruction number.
    pub insts: Vec<InstData>,
    /// The instructions in layout order.
    pub layout: Vec<Inst>,
    /// Value types, indexed by value number.
    pub value_types: Vec<ValueType>,
    /// The encoding chosen for each instruction, indexed by instruction number.
    pub encodings: Vec<Encoding>,
    /// The jump tables, by number: the blocks they branch to.
    pub jump_tables: Vec<Vec<Inst>>,
}

/// The contents of a function: instruction data, layout, value types and jump tables.
pub type FuncView = (Seq<InstData>, Seq<Inst>, Seq<ValueType>, Seq<Vec<Inst>>);

impl View for Function {
    type V = FuncView;

    open spec fn view(&self) -> FuncView {
        (self.insts@, self.layout@, self.value_types@, self.jump_tables@)
    }
}

/// The most instructions and values a function holds, so that new numbers fit.
pub open spec fn func_capacity() -> nat {
    0xffff_0000
}

/// Instruction data with the given fields and no results.
pub open spec fn inst_of(
    opcode: Opcode,
    ctrl: ValueType,
    arg0: Value,
    arg1: Value,
    arg2: Value,
    imm: i64,
    cond: IntCC,
    code: TrapCode,
    flags: u8,
    offset: i32,
    dest: u32,
    table: u32,
) -> InstData {
    InstData {
        opcode,
        ctrl,
        arg0,
        arg1,
        arg2,
        res0: 0,
        res1: 0,
        num_results: 0,
        imm,
        cond,
        code,
        flags,
        offset,
        dest,
        table,
        block_args: 0,
    }
}

/// Build instruction data with the given fields and no results.
pub fn make_inst(
    opcode: Opcode,
    ctrl: ValueType,
    arg0: Value,
    arg1: Value,
    arg2: Value,
    imm: i64,
    cond: IntCC,
    code: TrapCode,
    flags: u8,
    offset: i32,
    dest: u32,
    table: u32,
) -> (r: InstData)
    ensures
        r == inst_of(opcode, ctrl, arg0, arg1, arg2, imm, cond, code, flags, offset, dest, table),
{
    InstData {
        opcode,
        ctrl,
        arg0,
        arg1,
        arg2,
        res0: 0,
        res1: 0,
        num_results: 0,
        imm,
        cond,
        code,
        flags,
        offset,
        dest,
        table,
        block_args: 0,
    }
}

/// The number of results an opcode has.
pub open spec fn result_count(op: Opcode) -> u8 {
    match op {
        Opcode::Trapif | Opcode::Istore8 | Opcode::Istore16 | Opcode::Store | Opcode::StackStore
        | Opcode::BrTable | Opcode::Brnz | Opcode::BrIntCompare | Opcode::Trapz | Opcode::Trapnz
        | Opcode::Brz | Opcode::Jump | Opcode::Trap | Opcode::Block | Opcode::IndirectJumpTableBr => 0,
        Opcode::IaddCout | Opcode::IsubBout | Opcode::IaddCarry | Opcode::IsubBorrow
        | Opcode::IaddIfcout | Opcode::IsubIfbout | Opcode::Isplit => 2,
        _ => 1,
    }
}

/// The integer type with half the bits of `t` (lanes kept).
pub open spec fn half_width(t: ValueType) -> ValueType {
    ValueType(t.0.wrapping_sub(1))
}

/// The integer type with twice the bits of `t` (lanes kept).
pub open spec fn double_width(t: ValueType) -> ValueType {
    ValueType(t.0.wrapping_add(1))
}

/// The type of result `k` of an opcode with controlling type `ctrl`.
pub open spec fn result_type(op: Opcode, ctrl: ValueType, k: int) -> ValueType {
    match op {
        Opcode::IntCompare | Opcode::IntCompareImm => ValueType(B1),
        Opcode::IntFlagsCompare | Opcode::IntFlagsCompareImm => ValueType(IFLAGS),
        Opcode::IaddCout | Opcode::IsubBout | Opcode::IaddCarry | Opcode::IsubBorrow => if k == 0 {
            ctrl
        } else {
            ValueType(B1)
        },
        Opcode::IaddIfcout | Opcode::IsubIfbout => if k == 0 {
            ctrl
        } else {
            ValueType(IFLAGS)
        },
        Opcode::Isplit => half_width(ctrl),
        Opcode::Iconcat => double_width(ctrl),
        _ => ctrl,
    }
}

/// The number of results an opcode has.
pub fn num_results_of(op: Opcode) -> (r: u8)
    ensures
        r == result_count(op),
{
    match op {
        Opcode::Trapif | Opcode::Istore8 | Opcode::Istore16 | Opcode::Store | Opcode::StackStore
        | Opcode::BrTable | Opcode::Brnz | Opcode::BrIntCompare | Opcode::Trapz | Opcode::Trapnz
        | Opcode::Brz | Opcode::Jump | Opcode::Trap | Opcode::Block | Opcode::IndirectJumpTableBr => 0,
        Opcode::IaddCout | Opcode::IsubBout | Opcode::IaddCarry | Opcode::IsubBorrow
        | Opcode::IaddIfcout | Opcode::IsubIfbout | Opcode::Isplit => 2,
        _ => 1,
    }
}

/// The type of result `k` of an opcode with controlling type `ctrl`.
pub fn result_type_of(op: Opcode, ctrl: ValueType, k: u8) -> (r: ValueType)
    ensures
        r == result_type(op, ctrl, k as int),
{
    match op {
        Opcode::IntCompare | Opcode::IntCompareImm => ValueType(B1),
        Opcode::IntFlagsCompare | Opcode::IntFlagsCompareImm => ValueType(IFLAGS),
        Opcode::IaddCout | Opcode::IsubBout | Opcode::IaddCarry | Opcode::IsubBorrow => if k == 0 {
            ctrl
        } else {
            ValueType(B1)
        },
        Opcode::IaddIfcout | Opcode::IsubIfbout => if k == 0 {
            ctrl
        } else {
            ValueType(IFLAGS)
        },
        Opcode::Isplit => ValueType(ctrl.0.wrapping_sub(1)),
        Opcode::Iconcat => ValueType(ctrl.0.wrapping_add(1)),
        _ => ctrl,
    }
}

/// The value numbers and types after attaching the results of `d` to the value table `vt`: a
/// result given in `pre` keeps its value, every other gets the next new value.
#[verifier::opaque]
pub open spec fn attach_results(
    d: InstData,
    vt: Seq<ValueType>,
    pre0: Option<Value>,
    pre1: Option<Value>,
) -> (InstData, Seq<ValueType>) {
    let n = result_count(d.opcode);
    let vt1 = if n >= 1 && pre0 is None {
        vt.push(result_type(d.opcode, d.ctrl, 0))
    } else {
        vt
    };
    let r0 = match pre0 {
        Some(v) => v,
        None => vt.len() as u32,
    };
    let vt2 = if n >= 2 && pre1 is None {
        vt1.push(result_type(d.opcode, d.ctrl, 1))
    } else {
        vt1
    };
    let r1 = match pre1 {
        Some(v) => v,
        None => vt1.len() as u32,
    };
    (
        InstData {
            res0: if n >= 1 { r0 } else { 0 },
            res1: if n >= 2 { r1 } else { 0 },
            num_results: n,
            ..d
        },
        vt2,
    )
}

/// The function after inserting `d` before layout position `pos`, with its results attached.
pub open spec fn s_ins(v: FuncView, pos: int, d: InstData, pre0: Option<Value>, pre1: Option<Value>) -> FuncView {
    let (d2, vt) = attach_results(d, v.2, pre0, pre1);
    (v.0.push(d2), v.1.insert(pos, v.0.len() as u32), vt, v.3)
}

/// The results of the instruction that `s_ins` inserts.
pub open spec fn s_ins_results(v: FuncView, d: InstData, pre0: Option<Value>, pre1: Option<Value>) -> (Value, Value) {
    let (d2, vt) = attach_results(d, v.2, pre0, pre1);
    (d2.res0, d2.res1)
}

/// The function after replacing the data of `inst` by `d`, keeping its results, or attaching
/// new ones where it has none.
pub open spec fn s_replace(v: FuncView, inst: Inst, d: InstData) -> FuncView {
    let old = v.0[inst as int];
    if old.num_results == 0 {
        let (d2, vt) = attach_results(d, v.2, None, None);
        (v.0.update(inst as int, d2), v.1, vt, v.3)
    } else {
        (
            v.0.update(
                inst as int,
                InstData { res0: old.res0, res1: old.res1, num_results: old.num_results, ..d },
            ),
            v.1,
            v.2,
            v.3,
        )
    }
}

/// The results of `inst` after `s_replace`.
pub open spec fn s_replace_results(v: FuncView, inst: Inst, d: InstData) -> (Value, Value) {
    let w = s_replace(v, inst, d);
    (w.0[inst as int].res0, w.0[inst as int].res1)
}

/// The function with the instruction at layout position `pos` removed from the layout.
pub open spec fn s_remove(v: FuncView, pos: int) -> FuncView {
    (v.0, v.1.remove(pos), v.2, v.3)
}

/// The function with the results of `inst` detached.
pub open spec fn s_clear_results(v: FuncView, inst: Inst) -> FuncView {
    (v.0.update(inst as int, InstData { num_results: 0, ..v.0[inst as int] }), v.1, v.2, v.3)
}

/// The function with `x` attached as the parameter of the block whose header is `inst`.
pub open spec fn s_attach_param(v: FuncView, inst: Inst, x: Value) -> FuncView {
    (v.0.update(inst as int, InstData { num_results: 1, res0: x, ..v.0[inst as int] }), v.1, v.2, v.3)
}

/// The function is well formed enough to legalize: every instruction in the layout exists,
/// the layout holds each at most once, and there is room for new instructions and values.
pub open spec fn func_wf(v: FuncView) -> bool {
    &&& v.0.len() <= func_capacity()
    &&& v.2.len() <= func_capacity()
    &&& v.1.len() <= func_capacity()
    &&& forall|i: int| 0 <= i < v.1.len() ==> (#[trigger] v.1[i]) < v.0.len()
    &&& v.1.no_duplicates()
}

/// `inst` is in the layout of a well-formed function and its arguments and results are values
/// of it.
pub open spec fn legal_input(v: FuncView, inst: Inst) -> bool {
    &&& func_wf(v)
    &&& v.1.contains(inst)
    &&& v.0[inst as int].arg0 < v.2.len()
    &&& v.0[inst as int].arg1 < v.2.len()
    &&& v.0[inst as int].arg2 < v.2.len()
    &&& v.0[inst as int].res0 < v.2.len()
    &&& v.0[inst as int].res1 < v.2.len()
}

/// The type of value `x`, or the invalid type where the function holds no such value.
pub open spec fn value_type_of(v: FuncView, x: Value) -> ValueType {
    if (x as int) < v.2.len() {
        v.2[x as int]
    } else {
        ValueType(INVALID)
    }
}

/// The first instruction among `insts[i..]` that has `x` among its results.
pub open spec fn first_def(insts: Seq<InstData>, x: Value, i: int) -> Option<int>
    decreases insts.len() - i,
{
    if i < 0 || i >= insts.len() {
        None
    } else if (insts[i].num_results >= 1 && insts[i].res0 == x) || (insts[i].num_results >= 2
        && insts[i].res1 == x) {
        Some(i)
    } else {
        first_def(insts, x, i + 1)
    }
}

/// The halves of `x` where the instruction defining it is an `iconcat` of them.
pub open spec fn concat_halves(v: FuncView, x: Value) -> Option<(Value, Value)> {
    match first_def(v.0, x, 0) {
        Some(i) => if v.0[i].opcode == Opcode::Iconcat && v.0[i].res0 == x {
            Some((v.0[i].arg0, v.0[i].arg1))
        } else {
            None
        },
        None => None,
    }
}

/// The `isplit` of `x`.
pub open spec fn isplit_of(v: FuncView, x: Value) -> InstData {
    inst_of(Opcode::Isplit, value_type_of(v, x), x, 0u32, 0u32, 0i64, IntCC::Equal, TrapCode::User(0), 0u8, 0i32, 0u32, 0u32)
}

/// The function after splitting `x` before layout position `pos`: unchanged where `x` is an
/// `iconcat` of its halves, else with an `isplit` of `x` inserted.
pub open spec fn s_split(v: FuncView, pos: int, x: Value) -> FuncView {
    match concat_halves(v, x) {
        Some(_) => v,
        None => s_ins(v, pos, isplit_of(v, x), None, None),
    }
}

/// The halves of `x` after `s_split`, and the number of instructions it inserted.
pub open spec fn s_split_results(v: FuncView, x: Value) -> (Value, Value, int) {
    match concat_halves(v, x) {
        Some((l, h)) => (l, h, 0),
        None => {
            let (l, h) = s_ins_results(v, isplit_of(v, x), None, None);
            (l, h, 1)
        },
    }
}

/// `new` differs from `old` only in the data of `inst`: every other instruction keeps its data,
/// instructions are only added, and every value keeps its type.
pub open spec fn unchanged_except(old: FuncView, new: FuncView, inst: Inst) -> bool {
    &&& old.0.len() <= new.0.len()
    &&& forall|i: int| 0 <= i < old.0.len() && i != inst ==> #[trigger] new.0[i] == old.0[i]
    &&& old.2.len() <= new.2.len()
    &&& forall|x: int| 0 <= x < old.2.len() ==> #[trigger] new.2[x] == old.2[x]
}

/// `new` keeps what comes before layout position `pos` of `old`, and the opcode and controlling
/// type of every instruction of `old` but `inst`; instructions are only added.
pub open spec fn keeps_before(old: FuncView, new: FuncView, inst: Inst, pos: int) -> bool {
    &&& 0 <= pos <= new.1.len()
    &&& pos <= old.1.len()
    &&& forall|j: int| 0 <= j < pos ==> #[trigger] new.1[j] == old.1[j]
    &&& old.0.len() <= new.0.len()
    &&& forall|i: int|
        0 <= i < old.0.len() && i != inst ==> (#[trigger] new.0[i]).opcode == old.0[i].opcode
            && new.0[i].ctrl == old.0[i].ctrl
}

/// Inserting a new instruction number into the layout keeps the function well formed.
proof fn lemma_insert_wf(v: FuncView, pos: int, d: InstData, pre0: Option<Value>, pre1: Option<Value>)
    requires
        func_wf(v),
        0 <= pos <= v.1.len(),
        v.0.len() < func_capacity(),
        v.1.len() < func_capacity(),
        v.2.len() + 2 <= func_capacity(),
    ensures
        func_wf(s_ins(v, pos, d, pre0, pre1)),
{
    reveal(attach_results);
    let w = s_ins(v, pos, d, pre0, pre1);
    let id = v.0.len() as u32;
    assert(w.1 =~= v.1.insert(pos, id));
    assert forall|i: int| 0 <= i < w.1.len() implies (#[trigger] w.1[i]) < w.0.len() by {
        if i < pos {
            assert(w.1[i] == v.1[i]);
        } else if i > pos {
            assert(w.1[i] == v.1[i - 1]);
        }
    }
    assert forall|i: int, j: int| 0 <= i < w.1.len() && 0 <= j < w.1.len() && i != j implies w.1[i] != w.1[j] by {
        let oi = if i < pos { i } else { i - 1 };
        let oj = if j < pos { j } else { j - 1 };
        if i != pos && j != pos {
            assert(w.1[i] == v.1[oi]);
            assert(w.1[j] == v.1[oj]);
        } else if i == pos {
            assert(w.1[j] == v.1[oj]);
            assert(v.1[oj] < v.0.len());
        } else {
            assert(w.1[i] == v.1[oi]);
            assert(v.1[oi] < v.0.len());
        }
    }
}

/// Removing a layout position keeps the function well formed.
proof fn lemma_remove_wf(v: FuncView, pos: int)
    requires
        func_wf(v),
        0 <= pos < v.1.len(),
    ensures
        func_wf(s_remove(v, pos)),
{
    let w = s_remove(v, pos);
    assert forall|i: int| 0 <= i < w.1.len() implies (#[trigger] w.1[i]) < w.0.len() by {
        if i < pos {
            assert(w.1[i] == v.1[i]);
        } else {
            assert(w.1[i] == v.1[i + 1]);
        }
    }
    assert forall|i: int, j: int| 0 <= i < w.1.len() && 0 <= j < w.1.len() && i != j implies w.1[i] != w.1[j] by {
        let oi = if i < pos { i } else { i + 1 };
        let oj = if j < pos { j } else { j + 1 };
        assert(w.1[i] == v.1[oi]);
        assert(w.1[j] == v.1[oj]);
    }
}

/// The layout position of `inst`.
pub open spec fn inst_pos(v: FuncView, inst: Inst) -> int {
    v.1.index_of(inst)
}

impl Function {
    /// The type of a value; a value the function does not hold has the invalid type.
    pub fn value_type(&self, x: Value) -> (r: ValueType)
        ensures
            r == value_type_of(self@, x),
    {
        if (x as usize) < self.value_types.len() {
            self.value_types[x as usize]
        } else {
            ValueType(INVALID)
        }
    }

    /// The halves of `x`: the arguments of the `iconcat` that defines it, or the results of an
    /// `isplit` of it inserted before layout position `pos`. Also returns how many instructions
    /// were inserted.
    pub fn split_value(&mut self, pos: usize, x: Value) -> (r: (Value, Value, usize))
        requires
            pos <= old(self)@.1.len(),
            old(self)@.0.len() < func_capacity(),
            old(self)@.1.len() < func_capacity(),
            old(self)@.2.len() + 2 <= func_capacity(),
        ensures
            final(self)@ == s_split(old(self)@, pos as int, x),
            (r.0, r.1, r.2 as int) == s_split_results(old(self)@, x),
            final(self).encodings@ == old(self).encodings@,
            final(self)@.0.len() == old(self)@.0.len() + r.2,
            final(self)@.1.len() == old(self)@.1.len() + r.2,
            old(self)@.2.len() <= final(self)@.2.len() <= old(self)@.2.len() + 2,
            r.2 <= 1,
            func_wf(old(self)@) ==> func_wf(final(self)@),
            forall|k: Inst| unchanged_except(old(self)@, final(self)@, k),
    {
        let n = self.insts.len();
        let mut i: usize = 0;
        let mut def: Option<usize> = None;
        while i < n && def.is_none()
            invariant
                n == self@.0.len(),
                i <= n,
                match def {
                    Some(k) => k < n && first_def(self@.0, x, 0) == Some(k as int),
                    None => first_def(self@.0, x, 0) == first_def(self@.0, x, i as int),
                },
            decreases n - i + (if def is None { 1int } else { 0int }),
        {
            let d = self.insts[i];
            if (d.num_results >= 1 && d.res0 == x) || (d.num_results >= 2 && d.res1 == x) {
                def = Some(i);
            } else {
                i += 1;
            }
        }
        let halves = match def {
            Some(k) => {
                let d = self.insts[k];
                if d.opcode == Opcode::Iconcat && d.res0 == x {
                    Some((d.arg0, d.arg1))
                } else {
                    None
                }
            },
            None => None,
        };
        proof {
            if def is None {
                assert(first_def(self@.0, x, n as int) is None);
            }
        }
        assert(halves == concat_halves(self@, x));
        match halves {
            Some((l, h)) => (l, h, 0),
            None => {
                let t = self.value_type(x);
                let (l, h) = self.ins(pos, make_inst(Opcode::Isplit, t, x, 0u32, 0u32, 0i64, IntCC::Equal, TrapCode::User(0), 0u8, 0i32, 0u32, 0u32), None, None);
                (l, h, 1)
            },
        }
    }

    /// The data of an instruction.
    pub fn inst_data(&self, inst: Inst) -> (r: InstData)
        requires
            inst < self@.0.len(),
        ensures
            r == self@.0[inst as int],
    {
        self.insts[inst as usize]
    }

    /// The layout position of an instruction in the layout.
    pub fn position(&self, inst: Inst) -> (r: usize)
        requires
            func_wf(self@),
            self@.1.contains(inst),
        ensures
            r == inst_pos(self@, inst),
            r < self@.1.len(),
            self@.1[r as int] == inst,
    {
        let n = self.layout.len();
        let mut i: usize = 0;
        while i < n
            invariant
                n == self@.1.len(),
                i <= n,
                forall|j: int| 0 <= j < i ==> self@.1[j] != inst,
                self@.1.contains(inst),
                func_wf(self@),
            decreases n - i,
        {
            if self.layout[i] == inst {
                proof {
                    let k = self@.1.index_of(inst);
                    assert(self@.1[k] == inst);
                    assert(self@.1.no_duplicates());
                }
                return i;
            }
            i += 1;
        }
        proof {
            let k = choose|k: int| 0 <= k < self@.1.len() && self@.1[k] == inst;
            assert(self@.1[k] == inst);
        }
        0
    }

    /// Insert `d` before layout position `pos`, attaching its results: those given in `pre0` and
    /// `pre1` reuse those values, the others are new values.
    pub fn ins(&mut self, pos: usize, d: InstData, pre0: Option<Value>, pre1: Option<Value>) -> (r: (Value, Value))
        requires
            pos <= old(self)@.1.len(),
            old(self)@.0.len() < func_capacity(),
            old(self)@.1.len() < func_capacity(),
            old(self)@.2.len() + 2 <= func_capacity(),
        ensures
            final(self)@ == s_ins(old(self)@, pos as int, d, pre0, pre1),
            final(self).encodings@ == old(self).encodings@,
            r == s_ins_results(old(self)@, d, pre0, pre1),
            final(self)@.0.len() == old(self)@.0.len() + 1,
            final(self)@.1.len() == old(self)@.1.len() + 1,
            old(self)@.2.len() <= final(self)@.2.len() <= old(self)@.2.len() + 2,
            result_count(d.opcode) >= 1 && (pre0 is None || pre0.unwrap() < old(self)@.2.len())
                ==> r.0 < final(self)@.2.len(),
            pre0 is None && pre1 is None ==> final(self)@.2.len() == old(self)@.2.len() + result_count(d.opcode),
            result_count(d.opcode) >= 2 && (pre1 is None || pre1.unwrap() < old(self)@.2.len())
                ==> r.1 < final(self)@.2.len(),
            func_wf(old(self)@) ==> func_wf(final(self)@),
            forall|k: Inst| unchanged_except(old(self)@, final(self)@, k),
    {
        proof {
            reveal(attach_results);
            if func_wf(old(self)@) {
                lemma_insert_wf(old(self)@, pos as int, d, pre0, pre1);
            }
        }
        let n = num_results_of(d.opcode);
        let mut d2 = d;
        d2.num_results = n;
        d2.res0 = 0;
        d2.res1 = 0;
        if n >= 1 {
            match pre0 {
                Some(v) => {
                    d2.res0 = v;
                },
                None => {
                    d2.res0 = self.value_types.len() as u32;
                    self.value_types.push(result_type_of(d.opcode, d.ctrl, 0));
                },
            }
        } else {
            match pre0 {
                Some(v) => {},
                None => {},
            }
        }
        if n >= 2 {
            match pre1 {
                Some(v) => {
                    d2.res1 = v;
                },
                None => {
                    d2.res1 = self.value_types.len() as u32;
                    self.value_types.push(result_type_of(d.opcode, d.ctrl, 1));
                },
            }
        }
        let id = self.insts.len() as u32;
        self.insts.push(d2);
        self.layout.insert(pos, id);
        proof {
            let (e2, vt) = attach_results(d, old(self)@.2, pre0, pre1);
            assert(d2 == e2);
            assert(self@.2 =~= vt);
        }
        (d2.res0, d2.res1)
    }

    /// Replace the data of `inst` by `d`, keeping its results, or attaching new results where
    /// it has none.
    pub fn replace(&mut self, inst: Inst, d: InstData) -> (r: (Value, Value))
        requires
            inst < old(self)@.0.len(),
            old(self)@.2.len() + 2 <= func_capacity(),
        ensures
            final(self)@ == s_replace(old(self)@, inst, d),
            final(self).encodings@ == old(self).encodings@,
            r == s_replace_results(old(self)@, inst, d),
            final(self)@.0.len() == old(self)@.0.len(),
            final(self)@.1 == old(self)@.1,
            old(self)@.2.len() <= final(self)@.2.len() <= old(self)@.2.len() + 2,
            old(self)@.0[inst as int].num_results == 0 && result_count(d.opcode) >= 1
                ==> r.0 < final(self)@.2.len(),
            func_wf(old(self)@) ==> func_wf(final(self)@),
            unchanged_except(old(self)@, final(self)@, inst),
    {
        proof {
            reveal(attach_results);
        }
        let old_data = self.insts[inst as usize];
        if old_data.num_results == 0 {
            let n = num_results_of(d.opcode);
            let mut d2 = d;
            d2.num_results = n;
            d2.res0 = 0;
            d2.res1 = 0;
            if n >= 1 {
                d2.res0 = self.value_types.len() as u32;
                self.value_types.push(result_type_of(d.opcode, d.ctrl, 0));
            }
            if n >= 2 {
                d2.res1 = self.value_types.len() as u32;
                self.value_types.push(result_type_of(d.opcode, d.ctrl, 1));
            }
            self.insts.set(inst as usize, d2);
            proof {
                let (e2, vt) = attach_results(d, old(self)@.2, None, None);
                assert(d2 == e2);
                assert(self@.2 =~= vt);
            }
            (d2.res0, d2.res1)
        } else {
            let mut d2 = d;
            d2.res0 = old_data.res0;
            d2.res1 = old_data.res1;
            d2.num_results = old_data.num_results;
            self.insts.set(inst as usize, d2);
            (d2.res0, d2.res1)
        }
    }

    /// Remove the instruction at layout position `pos` from the layout.
    pub fn remove_inst(&mut self, pos: usize) -> (r: Inst)
        requires
            pos < old(self)@.1.len(),
        ensures
            final(self)@ == s_remove(old(self)@, pos as int),
            final(self).encodings@ == old(self).encodings@,
            r == old(self)@.1[pos as int],
            func_wf(old(self)@) ==> func_wf(final(self)@),
            forall|k: Inst| unchanged_except(old(self)@, final(self)@, k),
    {
        proof {
            if func_wf(old(self)@) {
                lemma_remove_wf(old(self)@, pos as int);
            }
        }
        self.layout.remove(pos)
    }

    /// Make `x` the parameter of the block whose header is `inst`.
    pub fn attach_param(&mut self, inst: Inst, x: Value)
        requires
            inst < old(self)@.0.len(),
        ensures
            final(self)@ == s_attach_param(old(self)@, inst, x),
            final(self).encodings@ == old(self).encodings@,
            func_wf(old(self)@) ==> func_wf(final(self)@),
    {
        let mut d = self.insts[inst as usize];
        d.num_results = 1;
        d.res0 = x;
        self.insts.set(inst as usize, d);
    }

    /// Detach the results of `inst`, so that they can be defined by other instructions.
    pub fn clear_results(&mut self, inst: Inst)
        requires
            inst < old(self)@.0.len(),
        ensures
            final(self)@ == s_clear_results(old(self)@, inst),
            final(self).encodings@ == old(self).encodings@,
            func_wf(old(self)@) ==> func_wf(final(self)@),
            unchanged_except(old(self)@, final(self)@, inst),
    {
        let mut d = self.insts[inst as usize];
        d.num_results = 0;
        self.insts.set(inst as usize, d);
    }

    /// The instruction that defines `x`, if any instruction has it among its results.
    pub fn value_def(&self, x: Value) -> (r: Option<usize>)
        ensures
            match r {
                Some(k) => k < self@.0.len() && first_def(self@.0, x, 0) == Some(k as int),
                None => first_def(self@.0, x, 0) is None,
            },
    {
        let n = self.insts.len();
        let mut i: usize = 0;
        while i < n
            invariant
                n == self@.0.len(),
                i <= n,
                first_def(self@.0, x, 0) == first_def(self@.0, x, i as int),
            decreases n - i,
        {
            let d = self.insts[i];
            if (d.num_results >= 1 && d.res0 == x) || (d.num_results >= 2 && d.res1 == x) {
                return Some(i);
            }
            i += 1;
        }
        None
    }

    /// Make `a0` an alias of `b0` and `a1` an alias of `b1`: every use of them as an argument
    /// becomes a use of the value they stand for.
    pub fn change_to_aliases(&mut self, a0: Value, b0: Value, a1: Value, b1: Value)
        ensures
            final(self)@ == s_alias(old(self)@, a0, b0, a1, b1),
            final(self).encodings@ == old(self).encodings@,
    {
        let n = self.insts.len();
        let mut i: usize = 0;
        while i < n
            invariant
                n == self@.0.len(),
                i <= n,
                self@.1 == old(self)@.1,
                self@.2 == old(self)@.2,
                self@.3 == old(self)@.3,
                self.encodings@ == old(self).encodings@,
                old(self)@.0.len() == n,
                forall|j: int| 0 <= j < i ==> self@.0[j] == alias_data(old(self)@.0[j], a0, b0, a1, b1),
                forall|j: int| i <= j < n ==> self@.0[j] == old(self)@.0[j],
            decreases n - i,
        {
            let mut d = self.insts[i];
            d.arg0 = alias_value(d.arg0, a0, b0, a1, b1);
            d.arg1 = alias_value(d.arg1, a0, b0, a1, b1);
            d.arg2 = alias_value(d.arg2, a0, b0, a1, b1);
            self.insts.set(i, d);
            i += 1;
        }
        assert(self@.0 =~= s_alias(old(self)@, a0, b0, a1, b1).0);
    }
}

/// `x`, or the value it is an alias of.
pub open spec fn alias_of(x: Value, a0: Value, b0: Value, a1: Value, b1: Value) -> Value {
    if x == a0 {
        b0
    } else if x == a1 {
        b1
    } else {
        x
    }
}

/// `x`, or the value it is an alias of.
pub fn alias_value(x: Value, a0: Value, b0: Value, a1: Value, b1: Value) -> (r: Value)
    ensures
        r == alias_of(x, a0, b0, a1, b1),
{
    if x == a0 {
        b0
    } else if x == a1 {
        b1
    } else {
        x
    }
}

/// Instruction data with its arguments resolved through the aliases `a0 -> b0`, `a1 -> b1`.
pub open spec fn alias_data(d: InstData, a0: Value, b0: Value, a1: Value, b1: Value) -> InstData {
    InstData {
        arg0: alias_of(d.arg0, a0, b0, a1, b1),
        arg1: alias_of(d.arg1, a0, b0, a1, b1),
        arg2: alias_of(d.arg2, a0, b0, a1, b1),
        ..d
    }
}

/// The function after `a0` and `a1` become aliases of `b0` and `b1`.
pub open spec fn s_alias(v: FuncView, a0: Value, b0: Value, a1: Value, b1: Value) -> FuncView {
    (Seq::new(v.0.len(), |i: int| alias_data(v.0[i], a0, b0, a1, b1)), v.1, v.2, v.3)
}

/// A split of `x` cannot be resolved yet: an instruction other than an `iconcat` defines `x`.
pub open spec fn split_pending(v: FuncView, x: Value) -> bool {
    match first_def(v.0, x, 0) {
        Some(i) => v.0[i].opcode != Opcode::Iconcat,
        None => false,
    }
}

/// The function after resolving the `isplit` `inst` (at layout position `pos`) whose argument is
/// a concatenation or a parameter: the `isplit` is removed, its argument is split where it stood,
/// and its results become aliases of the halves.
pub open spec fn s_resolve_split(v: FuncView, inst: Inst, pos: int) -> FuncView {
    let d = v.0[inst as int];
    let w = s_remove(s_clear_results(v, inst), pos);
    let (xl, xh, _n) = s_split_results(w, d.arg0);
    s_alias(s_split(w, pos, d.arg0), d.res0, xl, d.res1, xh)
}

} // verus!

verus! {

/// What legalizing one instruction did.
#[derive(Copy, Clone, Debug, PartialEq, Eq, Structural)]
pub enum LegalizeInstResult {
    /// The instruction has an encoding, or nothing could be done with it.
    Done,
    /// The instruction was replaced; the new instructions need legalizing in turn.
    Legalized,
    /// A split whose argument is not yet known to be a concatenation; to be tried again later.
    SplitLegalizePending,
}

/// The first encoding among `entries[i..]` for `op` with controlling type `ctrl`.
pub open spec fn first_encoding(entries: Seq<EncodingEntry>, op: Opcode, ctrl: ValueType, i: int) -> Option<Encoding>
    decreases entries.len() - i,
{
    if i < 0 || i >= entries.len() {
        None
    } else if entries[i].opcode == op && entries[i].ctrl == ctrl {
        Some(entries[i].encoding)
    } else {
        first_encoding(entries, op, ctrl, i + 1)
    }
}

/// The first action among `actions[i..]` for controlling type `ctrl`, or `default`.
pub open spec fn first_action(actions: Seq<TypeAction>, ctrl: ValueType, default: LegalizeAction, i: int) -> LegalizeAction
    decreases actions.len() - i,
{
    if i < 0 || i >= actions.len() {
        default
    } else if actions[i].ctrl == ctrl {
        actions[i].action
    } else {
        first_action(actions, ctrl, default, i + 1)
    }
}

impl IsaInfo {
    /// The encoding the ISA has for `op` with controlling type `ctrl`, if any.
    pub open spec fn spec_encoding(&self, op: Opcode, ctrl: ValueType) -> Option<Encoding> {
        first_encoding(self.encodings@, op, ctrl, 0)
    }

    /// How the ISA legalizes an instruction with controlling type `ctrl` that it cannot encode.
    pub open spec fn spec_action(&self, ctrl: ValueType) -> LegalizeAction {
        first_action(self.actions@, ctrl, self.default_action, 0)
    }

    /// Look up the encoding for `op` with controlling type `ctrl`, or the legalization action for
    /// it where there is none.
    pub fn encode(&self, op: Opcode, ctrl: ValueType) -> (r: Result<Encoding, LegalizeAction>)
        ensures
            r == match self.spec_encoding(op, ctrl) {
                Some(e) => Ok::<Encoding, LegalizeAction>(e),
                None => Err(self.spec_action(ctrl)),
            },
    {
        let n = self.encodings.len();
        let mut i: usize = 0;
        while i < n
            invariant
                n == self.encodings@.len(),
                i <= n,
                first_encoding(self.encodings@, op, ctrl, 0) == first_encoding(
                    self.encodings@,
                    op,
                    ctrl,
                    i as int,
                ),
            decreases n - i,
        {
            let e = self.encodings[i];
            if e.opcode == op && e.ctrl == ctrl {
                return Ok(e.encoding);
            }
            i += 1;
        }
        assert(first_encoding(self.encodings@, op, ctrl, n as int) is None);
        let m = self.actions.len();
        let mut j: usize = 0;
        while j < m
            invariant
                m == self.actions@.len(),
                j <= m,
                first_encoding(self.encodings@, op, ctrl, 0) is None,
                first_action(self.actions@, ctrl, self.default_action, 0) == first_action(
                    self.actions@,
                    ctrl,
                    self.default_action,
                    j as int,
                ),
            decreases m - j,
        {
            let a = self.actions[j];
            if a.ctrl == ctrl {
                return Err(a.action);
            }
            j += 1;
        }
        Err(self.default_action)
    }
}

/// What the ISA's legalization action does to the function, or `None` where no pattern applies.
pub open spec fn action_spec(action: LegalizeAction, v: FuncView, inst: Inst, isa: IsaInfo) -> Option<FuncView> {
    match action {
        LegalizeAction::Expand => expand_spec(v, inst, isa),
        LegalizeAction::ExpandFlags => expand_flags_spec(v, inst, isa),
        LegalizeAction::Widen => widen_spec(v, inst, isa),
        LegalizeAction::Narrow => narrow_spec(v, inst, isa),
        LegalizeAction::NarrowFlags => narrow_flags_spec(v, inst, isa),
        LegalizeAction::NarrowNoFlags => narrow_no_flags_spec(v, inst, isa),
    }
}

/// The action can be taken within this function model (see `expansion_in_model`).
pub open spec fn action_in_model(action: LegalizeAction, v: FuncView, inst: Inst, pointer_type: ValueType) -> bool {
    match action {
        LegalizeAction::Expand => expansion_in_model(v.0[inst as int].opcode),
        LegalizeAction::ExpandFlags => expansion_with_flags_in_model(v, inst),
        LegalizeAction::Widen => true,
        _ => narrowing_in_model(v, inst, pointer_type),
    }
}

/// Legalize `inst` for `isa`.
///
/// An `isplit` is resolved first: where an instruction other than an `iconcat` defines its
/// argument, it is left for later (`SplitLegalizePending`); otherwise it is removed, its argument
/// is split where it stood, and its results become aliases of the halves (`Legalized`).
/// Any other instruction gets its encoding recorded where the ISA has one; otherwise it is
/// rewritten with the ISA's legalization action, reporting `Legalized` where a pattern applied
/// and `Done` where none did.
pub fn legalize_inst(inst: Inst, func: &mut Function, isa: &IsaInfo) -> (r: LegalizeInstResult)
    requires
        legalizable(old(func)@, inst),
        inst < old(func).encodings@.len(),
        old(func)@.0[inst as int].opcode == Opcode::Isplit ==> old(func)@.0[inst as int].num_results == 2,
        old(func)@.0[inst as int].opcode != Opcode::Isplit && isa.spec_encoding(
            old(func)@.0[inst as int].opcode,
            old(func)@.0[inst as int].ctrl,
        ) is None ==> action_in_model(isa.spec_action(old(func)@.0[inst as int].ctrl), old(func)@, inst, isa.pointer_type),
    ensures
        func_wf(final(func)@),
        keeps_before(old(func)@, final(func)@, inst, inst_pos(old(func)@, inst)),
        r != LegalizeInstResult::Legalized ==> final(func)@ == old(func)@,
        r == LegalizeInstResult::Legalized ==> old(func)@.0.len() < final(func)@.0.len() || (old(
            func,
        )@.0.len() == final(func)@.0.len() && final(func)@.1.len() < old(func)@.1.len()),
        final(func).encodings@.len() == old(func).encodings@.len(),
        (r == LegalizeInstResult::SplitLegalizePending) == (old(func)@.0[inst as int].opcode == Opcode::Isplit
            && split_pending(old(func)@, old(func)@.0[inst as int].arg0)),
        old(func)@.0[inst as int].opcode == Opcode::Isplit ==> {
            &&& final(func).encodings@ == old(func).encodings@
            &&& if split_pending(old(func)@, old(func)@.0[inst as int].arg0) {
                final(func)@ == old(func)@
            } else {
                &&& r == LegalizeInstResult::Legalized
                &&& final(func)@ == s_resolve_split(old(func)@, inst, inst_pos(old(func)@, inst))
            }
        },
        old(func)@.0[inst as int].opcode != Opcode::Isplit ==> match isa.spec_encoding(
            old(func)@.0[inst as int].opcode,
            old(func)@.0[inst as int].ctrl,
        ) {
            Some(e) => {
                &&& r == LegalizeInstResult::Done
                &&& final(func)@ == old(func)@
                &&& final(func).encodings@ == old(func).encodings@.update(inst as int, e)
            },
            None => {
                &&& final(func).encodings@ == old(func).encodings@
                &&& pattern_outcome(
                    old(func)@,
                    final(func)@,
                    r == LegalizeInstResult::Legalized,
                    action_spec(isa.spec_action(old(func)@.0[inst as int].ctrl), old(func)@, inst, *isa),
                )
            },
        },
{
    let d = func.inst_data(inst);
    if d.opcode == Opcode::Isplit {
        let arg = d.arg0;
        match func.value_def(arg) {
            Some(k) => {
                if func.insts[k].opcode != Opcode::Iconcat {
                    // Not created by an `iconcat`: resolving it now would insert the same split
                    // again.
                    return LegalizeInstResult::SplitLegalizePending;
                }
            },
            None => {},
        }
        let ghost v0 = func@;
        let pos = func.position(inst);
        func.clear_results(inst);
        let ghost v1 = func@;
        func.remove_inst(pos);
        let ghost v2 = func@;
        let (xl, xh, _n) = func.split_value(pos, arg);
        let ghost v3 = func@;
        func.change_to_aliases(d.res0, xl, d.res1, xh);
        proof {
            assert(func@ == s_resolve_split(v0, inst, pos as int));
            assert forall|j: int| 0 <= j < pos implies #[trigger] func@.1[j] == v0.1[j] by {
                assert(v2.1[j] == v0.1[j]);
                assert(v3.1[j] == v2.1[j]);
            }
            assert forall|i: int| 0 <= i < v0.0.len() && i != inst implies (#[trigger] func@.0[i]).opcode
                == v0.0[i].opcode && func@.0[i].ctrl == v0.0[i].ctrl by {
                assert(v1.0[i] == v0.0[i]);
                assert(v3.0[i] == v2.0[i]);
                assert(func@.0[i] == alias_data(v3.0[i], d.res0, xl, d.res1, xh));
            }
        }
        return LegalizeInstResult::Legalized;
    }
    match isa.encode(d.opcode, d.ctrl) {
        Ok(e) => {
            func.encodings.set(inst as usize, e);
            LegalizeInstResult::Done
        },
        Err(action) => {
            // We should transform the instruction into legal equivalents.
            let done = match action {
                LegalizeAction::Expand => expand(inst, func, isa),
                LegalizeAction::ExpandFlags => expand_flags(inst, func, isa),
                LegalizeAction::Widen => widen(inst, func, isa),
                LegalizeAction::Narrow => narrow(inst, func, isa),
                LegalizeAction::NarrowFlags => narrow_flags(inst, func, isa),
                LegalizeAction::NarrowNoFlags => narrow_no_flags(inst, func, isa),
            };
            if done {
                LegalizeInstResult::Legalized
            } else {
                LegalizeInstResult::Done
            }
        },
    }
}

/// The encoding placeholder of an instruction that has none yet.
pub open spec fn no_encoding() -> Encoding {
    Encoding { recipe: 0xffff, bits: 0xffff }
}

/// `inst` has the encoding the ISA gives it, where the ISA has one for its opcode and controlling
/// type; an `isplit` left unresolved is not counted.
pub open spec fn encoded_where_possible(v: FuncView, encodings: Seq<Encoding>, isa: IsaInfo, inst: Inst) -> bool {
    let d = v.0[inst as int];
    d.opcode != Opcode::Isplit ==> match isa.spec_encoding(d.opcode, d.ctrl) {
        Some(e) => inst < encodings.len() && encodings[inst as int] == e,
        None => true,
    }
}

/// What legalizing `inst` needs of the function: room for what a rewrite adds, operands that
/// are values of the function, an `isplit` with its two results, and a rewrite the model holds.
pub open spec fn can_legalize(v: FuncView, inst: Inst, isa: IsaInfo) -> bool {
    let d = v.0[inst as int];
    &&& legalizable(v, inst)
    &&& d.opcode == Opcode::Isplit ==> d.num_results == 2
    &&& d.opcode != Opcode::Isplit && isa.spec_encoding(d.opcode, d.ctrl) is None ==> action_in_model(
        isa.spec_action(d.ctrl),
        v,
        inst,
        isa.pointer_type,
    )
}

/// Whether `can_legalize` holds of the instruction at layout position `c`.
fn check_can_legalize(func: &Function, c: usize, isa: &IsaInfo) -> (r: bool)
    requires
        func_wf(func@),
        c < func@.1.len(),
    ensures
        r == can_legalize(func@, func@.1[c as int], *isa),
{
    let inst = func.layout[c];
    let d = func.insts[inst as usize];
    let nv = func.value_types.len();
    if !(func.insts.len() <= 0xffff_0000 - 64 && func.layout.len() <= 0xffff_0000 - 64 && nv
        <= 0xffff_0000 - 128) {
        return false;
    }
    if !((d.arg0 as usize) < nv && (d.arg1 as usize) < nv && (d.arg2 as usize) < nv
        && (d.res0 as usize) < nv && (d.res1 as usize) < nv) {
        return false;
    }
    proof {
        assert(func@.1.contains(inst)) by {
            assert(func@.1[c as int] == inst);
        }
    }
    if d.opcode == Opcode::Isplit {
        return d.num_results == 2;
    }
    match isa.encode(d.opcode, d.ctrl) {
        Ok(_) => true,
        Err(action) => match action {
            LegalizeAction::Expand | LegalizeAction::ExpandFlags => !(d.opcode == Opcode::Call
                || d.opcode == Opcode::GlobalValue || d.opcode == Opcode::HeapAddr || d.opcode
                == Opcode::TableAddr),
            LegalizeAction::Widen => true,
            _ => {
                let compare_ok = d.opcode != Opcode::IntCompareImm || ((d.ctrl.0 == I16 || d.ctrl.0
                    == I32 || d.ctrl.0 == I64 || d.ctrl.0 == I128) && d.cond != IntCC::Overflow
                    && d.cond != IntCC::NotOverflow);
                let const_ok = d.opcode != Opcode::Iconst || (isa.pointer_type == ValueType(I32)
                    && d.ctrl == ValueType(I64));
                let mem_ok = !(d.opcode == Opcode::Load || d.opcode == Opcode::Store) || d.offset
                    <= i32::MAX - 8;
                compare_ok && const_ok && mem_ok
            },
        },
    }
}

/// Give every instruction number an encoding slot, the placeholder for new ones.
fn grow_encodings(func: &mut Function)
    ensures
        final(func)@ == old(func)@,
        final(func).encodings@.len() >= final(func)@.0.len(),
        final(func).encodings@.len() >= old(func).encodings@.len(),
        forall|i: int| 0 <= i < old(func).encodings@.len() ==> #[trigger] final(func).encodings@[i] == old(func).encodings@[i],
{
    while func.encodings.len() < func.insts.len()
        invariant
            func@ == old(func)@,
            func.encodings@.len() >= old(func).encodings@.len(),
            forall|i: int| 0 <= i < old(func).encodings@.len() ==> #[trigger] func.encodings@[i] == old(func).encodings@[i],
        decreases func@.0.len() - func.encodings@.len(),
    {
        func.encodings.push(Encoding { recipe: 0xffff, bits: 0xffff });
    }
}

/// After resolving a split, each instruction in the layout is a new `isplit` or was in the
/// layout before, other than the split itself.
proof fn lemma_resolve_split_layout(v: FuncView, p: Inst, pos: int)
    requires
        func_wf(v),
        0 <= pos < v.1.len(),
        v.1[pos] == p,
    ensures
        ({
            let w = s_resolve_split(v, p, pos);
            forall|k: int|
                0 <= k < w.1.len() ==> (v.0.len() <= #[trigger] w.1[k] && w.0[w.1[k] as int].opcode
                    == Opcode::Isplit) || (v.1.contains(w.1[k]) && w.1[k] != p)
        }),
{
    reveal(attach_results);
    let d = v.0[p as int];
    let u = s_remove(s_clear_results(v, p), pos);
    let w = s_resolve_split(v, p, pos);
    assert(u.1 =~= v.1.remove(pos));
    assert forall|k: int| 0 <= k < w.1.len() implies (v.0.len() <= #[trigger] w.1[k] && w.0[w.1[k] as int].opcode
        == Opcode::Isplit) || (v.1.contains(w.1[k]) && w.1[k] != p) by {
        let src = if k < pos { k } else { k + 1 };
        match concat_halves(u, d.arg0) {
            Some(_) => {
                assert(w.1[k] == u.1[k]);
                assert(u.1[k] == v.1[src]);
                assert(v.1.contains(v.1[src]));
                assert(v.1.no_duplicates());
            },
            None => {
                let t = s_ins(u, pos, isplit_of(u, d.arg0), None, None);
                assert(w.1 == t.1);
                if k == pos {
                    assert(w.1[k] == u.0.len());
                    assert(t.0[u.0.len() as int].opcode == Opcode::Isplit);
                } else {
                    let j = if k < pos { k } else { k - 1 };
                    assert(t.1[k] == u.1[j]);
                    let srcj = if j < pos { j } else { j + 1 };
                    assert(u.1[j] == v.1[srcj]);
                    assert(v.1.contains(v.1[srcj]));
                    assert(v.1.no_duplicates());
                }
            },
        }
    }
}

/// Legalize `func` for `isa`: transform the instructions that have no legal representation and
/// fill out the encodings.
///
/// The layout is walked in order; after an instruction is rewritten, the walk goes on with the
/// instructions that took its place. `isplit`s whose argument is not yet known to be a
/// concatenation are tried again, in instruction order, at the end. Where the ISA does not enable
/// jump tables, they are cleared once every `br_table` has been lowered. Returns `false`, and stops,
/// where an instruction cannot be legalized within the model (see `can_legalize`); otherwise
/// every instruction that the ISA can encode has its encoding.
pub fn legalize_function(func: &mut Function, isa: &IsaInfo) -> (r: bool)
    requires
        func_wf(old(func)@),
    ensures
        func_wf(final(func)@),
        final(func).encodings@.len() >= final(func)@.0.len(),
        r && !isa.jump_tables_enabled ==> final(func)@.3.len() == 0,
        !r ==> exists|k: int|
            0 <= k < final(func)@.1.len() && !can_legalize(final(func)@, #[trigger] final(func)@.1[k], *isa),
        r ==> forall|k: int|
            0 <= k < final(func)@.1.len() ==> encoded_where_possible(
                final(func)@,
                final(func).encodings@,
                *isa,
                #[trigger] final(func)@.1[k],
            ),
{
    grow_encodings(func);
    let mut c: usize = 0;
    let mut pending: Vec<Inst> = Vec::new();
    while c < func.layout.len()
        invariant
            func_wf(func@),
            func.encodings@.len() >= func@.0.len(),
            c <= func@.1.len(),
            forall|k: int|
                0 <= k < c ==> encoded_where_possible(func@, func.encodings@, *isa, #[trigger] func@.1[k]),
        decreases func_capacity() - func@.0.len(), func@.1.len() - c,
    {
        if !check_can_legalize(func, c, isa) {
            proof {
                assert(!can_legalize(func@, func@.1[c as int], *isa));
            }
            return false;
        }
        let inst = func.layout[c];
        let ghost v0 = func@;
        let ghost e0 = func.encodings@;
        proof {
            assert(v0.1.contains(inst)) by {
                assert(v0.1[c as int] == inst);
            }
            let p = inst_pos(v0, inst);
            assert(v0.1[p] == inst);
            assert(v0.1.no_duplicates());
            assert(p == c);
        }
        let res = legalize_inst(inst, func, isa);
        proof {
            assert forall|k: int| 0 <= k < c implies encoded_where_possible(
                func@,
                func.encodings@,
                *isa,
                #[trigger] func@.1[k],
            ) by {
                let i = v0.1[k];
                assert(func@.1[k] == i);
                assert(i != inst) by {
                    assert(v0.1[c as int] == inst);
                    assert(v0.1.no_duplicates());
                }
                assert(encoded_where_possible(v0, e0, *isa, v0.1[k]));
                assert(i < v0.0.len());
                assert(func@.0[i as int].opcode == v0.0[i as int].opcode);
                assert(func@.0[i as int].ctrl == v0.0[i as int].ctrl);
            }
        }
        match res {
            LegalizeInstResult::Done => {
                c = c + 1;
            },
            LegalizeInstResult::Legalized => {},
            LegalizeInstResult::SplitLegalizePending => {
                pending.push(inst);
                c = c + 1;
            },
        }
        let ghost e1 = func.encodings@;
        grow_encodings(func);
        proof {
            assert forall|k: int| 0 <= k < c implies encoded_where_possible(
                func@,
                func.encodings@,
                *isa,
                #[trigger] func@.1[k],
            ) by {
                assert(encoded_where_possible(func@, e1, *isa, func@.1[k]));
            }
        }
    }
    // Try the splits that could not be resolved before, in instruction order.
    let mut done_below: u64 = 0;
    loop
        invariant
            func_wf(func@),
            func.encodings@.len() >= func@.0.len(),
            done_below <= 0x1_0000_0000,
            forall|k: int|
                0 <= k < func@.1.len() ==> encoded_where_possible(func@, func.encodings@, *isa, #[trigger] func@.1[k]),
        decreases 0x1_0000_0000 - done_below,
    {
        // The smallest pending instruction not tried yet.
        let mut next: Option<Inst> = None;
        let mut j: usize = 0;
        while j < pending.len()
            invariant
                j <= pending@.len(),
                next matches Some(q) ==> q as u64 >= done_below,
            decreases pending@.len() - j,
        {
            let q = pending[j];
            if q as u64 >= done_below {
                match next {
                    Some(m) => {
                        if q < m {
                            next = Some(q);
                        }
                    },
                    None => {
                        next = Some(q);
                    },
                }
            }
            j += 1;
        }
        let p = match next {
            Some(q) => q,
            None => {
                break;
            },
        };
        done_below = p as u64 + 1;
        // Find it in the layout.
        let n = func.layout.len();
        let mut pos: usize = 0;
        while pos < n && func.layout[pos] != p
            invariant
                n == func@.1.len(),
                pos <= n,
            decreases n - pos,
        {
            pos += 1;
        }
        if pos >= n || func.insts[p as usize].opcode != Opcode::Isplit {
            // No longer a split in the layout: nothing to retry.
            continue;
        }
        if !check_can_legalize(func, pos, isa) {
            proof {
                assert(!can_legalize(func@, func@.1[pos as int], *isa));
            }
            return false;
        }
        let ghost v0 = func@;
        let ghost e0 = func.encodings@;
        proof {
            assert(v0.1.contains(p)) by {
                assert(v0.1[pos as int] == p);
            }
            let q = inst_pos(v0, p);
            assert(v0.1[q] == p);
            assert(v0.1.no_duplicates());
            assert(q == pos);
        }
        let res = legalize_inst(p, func, isa);
        proof {
            if res == LegalizeInstResult::Legalized {
                lemma_resolve_split_layout(v0, p, pos as int);
                assert forall|k: int| 0 <= k < func@.1.len() implies encoded_where_possible(
                    func@,
                    func.encodings@,
                    *isa,
                    #[trigger] func@.1[k],
                ) by {
                    let i = func@.1[k];
                    if !(v0.0.len() <= i && func@.0[i as int].opcode == Opcode::Isplit) {
                        assert(v0.1.contains(i) && i != p);
                        let k2 = choose|k2: int| 0 <= k2 < v0.1.len() && v0.1[k2] == i;
                        assert(encoded_where_possible(v0, e0, *isa, v0.1[k2]));
                        assert(i < v0.0.len());
                        assert(func@.0[i as int].opcode == v0.0[i as int].opcode);
                        assert(func@.0[i as int].ctrl == v0.0[i as int].ctrl);
                    }
                }
            }
        }
        let ghost e1 = func.encodings@;
        grow_encodings(func);
        proof {
            assert forall|k: int| 0 <= k < func@.1.len() implies encoded_where_possible(
                func@,
                func.encodings@,
                *isa,
                #[trigger] func@.1[k],
            ) by {
                assert(encoded_where_possible(func@, e1, *isa, func@.1[k]));
            }
        }
    }
    // Every `br_table` has been lowered, so the jump tables are only needed where they are used.
    if !isa.jump_tables_enabled {
        let ghost v1 = func@;
        func.jump_tables.clear();
        proof {
            assert forall|k: int| 0 <= k < func@.1.len() implies encoded_where_possible(
                func@,
                func.encodings@,
                *isa,
                #[trigger] func@.1[k],
            ) by {
                assert(func@.1[k] == v1.1[k]);
                assert(encoded_where_possible(v1, func.encodings@, *isa, v1.1[k]));
            }
        }
    }
    true
}

} // verus!
