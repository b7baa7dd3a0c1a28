//! The legalization patterns: each rewrites one instruction in terms of other instructions.

use vstd::prelude::*;
use crate::ir::{intcc_inverse, is_equal, Encoding, IntCC, Opcode, TrapCode, ValueType, INVALID};
use crate::legalizer::{
    func_capacity, inst_of, inst_pos, legal_input, make_inst, s_clear_results, s_ins, s_split,
    s_split_results, value_type_of, half_width, func_wf, keeps_before, s_attach_param,
    s_ins_results, s_remove, s_replace, FuncView, Function, Inst, InstData, Value, attach_results, F32, F64, I16, I32,
    I64, I8, I128,
};

verus! {

/// How an instruction without an encoding is legalized.
#[derive(Copy, Clone, Debug, PartialEq, Eq, Structural)]
pub enum LegalizeAction {
    /// By `expand`.
    Expand,
    /// By `expand_flags`.
    ExpandFlags,
    /// By `widen`.
    Widen,
    /// By `narrow`.
    Narrow,
    /// By `narrow_flags`.
    NarrowFlags,
    /// By `narrow_no_flags`.
    NarrowNoFlags,
}

/// An encoding the ISA has for an opcode with a controlling type.
#[derive(Copy, Clone, Debug, PartialEq, Eq, Structural)]
pub struct EncodingEntry {
    /// The opcode.
    pub opcode: Opcode,
    /// The controlling type.
    pub ctrl: ValueType,
    /// The encoding.
    pub encoding: Encoding,
}

/// The legalization action the ISA takes for instructions of a controlling type that it cannot
/// encode.
#[derive(Copy, Clone, Debug, PartialEq, Eq, Structural)]
pub struct TypeAction {
    /// The controlling type.
    pub ctrl: ValueType,
    /// The action.
    pub action: LegalizeAction,
}

/// What the target ISA tells the legalizer: the type of a pointer, the encodings it has, and
/// how it legalizes what it cannot encode (by controlling type, else by default).
pub struct IsaInfo {
    /// The type of a pointer.
    pub pointer_type: ValueType,
    /// The encodings, searched in order.
    pub encodings: Vec<EncodingEntry>,
    /// The legalization actions by controlling type, searched in order.
    pub actions: Vec<TypeAction>,
    /// The legalization action for other types.
    pub default_action: LegalizeAction,
    /// Whether `br_table` is lowered through a jump table rather than a chain of comparisons.
    pub jump_tables_enabled: bool,
}

/// Memory flags of an access that cannot trap and is aligned.
pub const MEMFLAGS_TRUSTED: u8 = 3;

/// What a pattern is given: a legalizable instruction `inst` with data `d` at layout position
/// `pos`, in a function with room for the instructions and values the pattern adds.
pub open spec fn pattern_input(v: FuncView, inst: Inst, pos: int, d: InstData) -> bool {
    &&& legal_input(v, inst)
    &&& pos == inst_pos(v, inst)
    &&& 0 <= pos < v.1.len()
    &&& v.1[pos] == inst
    &&& d == v.0[inst as int]
    &&& v.0.len() + 64 <= func_capacity()
    &&& v.1.len() + 64 <= func_capacity()
    &&& v.2.len() + 128 <= func_capacity()
}

/// A pattern's outcome: where the pattern applies (`o` is `Some`), the function becomes its
/// result and `true` is returned; elsewhere the function is unchanged and `false` is returned.
pub open spec fn pattern_outcome(old: FuncView, new: FuncView, r: bool, o: Option<FuncView>) -> bool {
    match o {
        Some(w) => r && new == w,
        None => !r && new == old,
    }
}

/// The lane type code of a type: its low four bits with the lane base.
pub open spec fn lane_code(t: ValueType) -> u8 {
    0x70u8 | (t.0 & 0x0f)
}

/// Is `t` in type set `k`: `0` holds integer scalars and vectors of 8 to 128 bits, `1` the
/// integer scalars of 8 to 128 bits, `2` integer scalars and vectors of 16 to 128 bits, `3` the
/// integer scalars of 16 to 128 bits.
pub open spec fn type_set_holds(k: u8, t: ValueType) -> bool {
    let lane = lane_code(t);
    let scalar = 0x70 <= t.0 < 0x80;
    let lanes_ok = t.0 >= 0x70;
    let narrowest: u8 = if k == 0 || k == 1 {
        I8
    } else {
        I16
    };
    &&& lanes_ok
    &&& narrowest <= lane <= 0x7a
    &&& (k == 1 || k == 3) ==> scalar
}

/// Is `t` in type set `k` (see `type_set_holds`)?
pub fn in_type_set(k: u8, t: ValueType) -> (r: bool)
    ensures
        r == type_set_holds(k, t),
{
    let lane = 0x70u8 | (t.0 & 0x0f);
    let scalar = 0x70 <= t.0 && t.0 < 0x80;
    let lanes_ok = t.0 >= 0x70;
    let narrowest: u8 = if k == 0 || k == 1 {
        I8
    } else {
        I16
    };
    lanes_ok && narrowest <= lane && lane <= 0x7a && (!(k == 1 || k == 3) || scalar)
}

/// `inst` can be legalized in this function: it is in the layout of a well-formed function, its
/// operands are values of the function, and there is room for what a pattern adds.
pub open spec fn legalizable(v: FuncView, inst: Inst) -> bool {
    &&& legal_input(v, inst)
    &&& v.0.len() + 64 <= func_capacity()
    &&& v.1.len() + 64 <= func_capacity()
    &&& v.2.len() + 128 <= func_capacity()
}

/// The opcodes whose expansion stays within this function model. Expanding a call, a global
/// value, a heap address or a table address needs the function's signatures, globals, heaps or
/// tables, none of which the model holds.
pub open spec fn expansion_in_model(op: Opcode) -> bool {
    !(op == Opcode::Call || op == Opcode::GlobalValue || op == Opcode::HeapAddr || op
        == Opcode::TableAddr)
}

/// The instructions whose expansion with flags stays within this function model: those of
/// `expansion_in_model`.
pub open spec fn expansion_with_flags_in_model(v: FuncView, inst: Inst) -> bool {
    expansion_in_model(v.0[inst as int].opcode)
}

/// The instructions whose narrowing meets what the narrowing requires. A 64-bit `iconst` is split
/// only for a target with 32-bit pointers; a `load` or `store` only where its offset plus eight
/// fits; an `icmp_imm` only on an integer of 16 to 128 bits, with a condition other than
/// overflow.
pub open spec fn narrowing_in_model(v: FuncView, inst: Inst, pointer_type: ValueType) -> bool {
    let d = v.0[inst as int];
    &&& d.opcode == Opcode::IntCompareImm ==> (d.ctrl.0 == I16 || d.ctrl.0 == I32 || d.ctrl.0
        == I64 || d.ctrl.0 == I128) && d.cond != IntCC::Overflow && d.cond != IntCC::NotOverflow
    &&& d.opcode == Opcode::Iconst ==> pointer_type == ValueType(I32) && d.ctrl == ValueType(I64)
    &&& (d.opcode == Opcode::Load || d.opcode == Opcode::Store) ==> d.offset + 8 <= i32::MAX
}

/// The function after expanding a `br_int_compare` into a comparison, replacing it, and a
/// branch on the comparison's result after it.
#[verifier::opaque]
pub open spec fn expand_br_int_compare_spec(v: FuncView, inst: Inst, pos: int, d: InstData) -> Option<FuncView> {
    let v = s_clear_results(v, inst);
    let c = inst_of(Opcode::IntCompare, value_type_of(v, d.arg0), d.arg0, d.arg1, 0u32, 0i64, d.cond, TrapCode::User(0), 0u8, 0i32, 0u32, 0u32);
    let w = s_replace(v, inst, c);
    let res = w.0[inst as int].res0;
    let b = inst_of(Opcode::Brnz, value_type_of(w, res), res, 0u32, 0u32, 0i64, IntCC::Equal, TrapCode::User(0), 0u8, 0i32, d.dest, 0u32);
    Some(s_ins(w, pos + 1, b, None, None))
}

/// Expand a `br_int_compare` into a comparison and a branch on its result.
fn expand_br_int_compare(inst: Inst, pos: usize, d: InstData, func: &mut Function) -> (r: bool)
    requires
        pattern_input(old(func)@, inst, pos as int, d),
    ensures
        pattern_outcome(old(func)@, final(func)@, r, expand_br_int_compare_spec(old(func)@, inst, pos as int, d)),
        final(func).encodings@ == old(func).encodings@,
        func_wf(final(func)@),
        r ==> final(func)@.0.len() > old(func)@.0.len(),
        keeps_before(old(func)@, final(func)@, inst, pos as int),
{
    proof {
        reveal(expand_br_int_compare_spec);
    }
    func.clear_results(inst);
    let t = func.value_type(d.arg0);
    let (res, _r1) = func.replace(inst, make_inst(Opcode::IntCompare, t, d.arg0, d.arg1, 0u32, 0i64, d.cond, TrapCode::User(0), 0u8, 0i32, 0u32, 0u32));
    let tb = func.value_type(res);
    func.ins(pos + 1, make_inst(Opcode::Brnz, tb, res, 0u32, 0u32, 0i64, IntCC::Equal, TrapCode::User(0), 0u8, 0i32, d.dest, 0u32), None, None);
    true
}

/// The function after expanding an `f32const` or `f64const` into an integer constant of its
/// bits and a bit cast of that constant.
#[verifier::opaque]
pub open spec fn expand_fconst_spec(v: FuncView, inst: Inst, pos: int, d: InstData) -> Option<FuncView> {
    let ty = value_type_of(v, d.res0);
    let it = if d.opcode == Opcode::F32const {
        ValueType(I32)
    } else {
        ValueType(I64)
    };
    let k = inst_of(Opcode::Iconst, it, 0u32, 0u32, 0u32, d.imm, IntCC::Equal, TrapCode::User(0), 0u8, 0i32, 0u32, 0u32);
    let (ival, _r1) = s_ins_results(v, k, None, None);
    let v = s_ins(v, pos, k, None, None);
    Some(s_replace(v, inst, inst_of(Opcode::Bitcast, ty, ival, 0u32, 0u32, 0i64, IntCC::Equal, TrapCode::User(0), 0u8, 0i32, 0u32, 0u32)))
}

/// Expand an `f32const` or `f64const` into an integer constant and a bit cast.
fn expand_fconst(inst: Inst, pos: usize, d: InstData, func: &mut Function) -> (r: bool)
    requires
        pattern_input(old(func)@, inst, pos as int, d),
        d.opcode == Opcode::F32const || d.opcode == Opcode::F64const,
    ensures
        pattern_outcome(old(func)@, final(func)@, r, expand_fconst_spec(old(func)@, inst, pos as int, d)),
        final(func).encodings@ == old(func).encodings@,
        func_wf(final(func)@),
        r ==> final(func)@.0.len() > old(func)@.0.len(),
        keeps_before(old(func)@, final(func)@, inst, pos as int),
{
    proof {
        reveal(expand_fconst_spec);
    }
    let ty = func.value_type(d.res0);
    let it = if d.opcode == Opcode::F32const {
        ValueType(I32)
    } else {
        ValueType(I64)
    };
    let (ival, _r1) = func.ins(pos, make_inst(Opcode::Iconst, it, 0u32, 0u32, 0u32, d.imm, IntCC::Equal, TrapCode::User(0), 0u8, 0i32, 0u32, 0u32), None, None);
    func.replace(inst, make_inst(Opcode::Bitcast, ty, ival, 0u32, 0u32, 0i64, IntCC::Equal, TrapCode::User(0), 0u8, 0i32, 0u32, 0u32));
    true
}

/// The function after expanding a `stack_load` into the address of the slot and a trusted load
/// from it.
#[verifier::opaque]
pub open spec fn expand_stack_load_spec(v: FuncView, inst: Inst, pos: int, d: InstData, isa: IsaInfo) -> Option<FuncView> {
    let ty = value_type_of(v, d.res0);
    let k = inst_of(Opcode::StackAddr, isa.pointer_type, 0u32, 0u32, 0u32, 0i64, IntCC::Equal, TrapCode::User(0), 0u8, d.offset, 0u32, d.table);
    let (addr, _r1) = s_ins_results(v, k, None, None);
    let v = s_ins(v, pos, k, None, None);
    Some(s_replace(v, inst, inst_of(Opcode::Load, ty, addr, 0u32, 0u32, 0i64, IntCC::Equal, TrapCode::User(0), MEMFLAGS_TRUSTED, 0i32, 0u32, 0u32)))
}

/// Expand a `stack_load` into a `stack_addr` and a `load`.
fn expand_stack_load(inst: Inst, pos: usize, d: InstData, func: &mut Function, isa: &IsaInfo) -> (r: bool)
    requires
        pattern_input(old(func)@, inst, pos as int, d),
    ensures
        pattern_outcome(old(func)@, final(func)@, r, expand_stack_load_spec(old(func)@, inst, pos as int, d, *isa)),
        final(func).encodings@ == old(func).encodings@,
        func_wf(final(func)@),
        r ==> final(func)@.0.len() > old(func)@.0.len(),
        keeps_before(old(func)@, final(func)@, inst, pos as int),
{
    proof {
        reveal(expand_stack_load_spec);
    }
    let ty = func.value_type(d.res0);
    let (addr, _r1) = func.ins(pos, make_inst(Opcode::StackAddr, isa.pointer_type, 0u32, 0u32, 0u32, 0i64, IntCC::Equal, TrapCode::User(0), 0u8, d.offset, 0u32, d.table), None, None);
    // Stack slots are required to be accessible and aligned.
    func.replace(inst, make_inst(Opcode::Load, ty, addr, 0u32, 0u32, 0i64, IntCC::Equal, TrapCode::User(0), MEMFLAGS_TRUSTED, 0i32, 0u32, 0u32));
    true
}

/// The function after expanding a `stack_store` into the address of the slot and a trusted
/// store to it.
#[verifier::opaque]
pub open spec fn expand_stack_store_spec(v: FuncView, inst: Inst, pos: int, d: InstData, isa: IsaInfo) -> Option<FuncView> {
    let k = inst_of(Opcode::StackAddr, isa.pointer_type, 0u32, 0u32, 0u32, 0i64, IntCC::Equal, TrapCode::User(0), 0u8, d.offset, 0u32, d.table);
    let (addr, _r1) = s_ins_results(v, k, None, None);
    let v = s_ins(v, pos, k, None, None);
    Some(s_replace(v, inst, inst_of(Opcode::Store, value_type_of(v, d.arg0), d.arg0, addr, 0u32, 0i64, IntCC::Equal, TrapCode::User(0), MEMFLAGS_TRUSTED, 0i32, 0u32, 0u32)))
}

/// Expand a `stack_store` into a `stack_addr` and a `store`.
fn expand_stack_store(inst: Inst, pos: usize, d: InstData, func: &mut Function, isa: &IsaInfo) -> (r: bool)
    requires
        pattern_input(old(func)@, inst, pos as int, d),
    ensures
        pattern_outcome(old(func)@, final(func)@, r, expand_stack_store_spec(old(func)@, inst, pos as int, d, *isa)),
        final(func).encodings@ == old(func).encodings@,
        func_wf(final(func)@),
        r ==> final(func)@.0.len() > old(func)@.0.len(),
        keeps_before(old(func)@, final(func)@, inst, pos as int),
{
    proof {
        reveal(expand_stack_store_spec);
    }
    let (addr, _r1) = func.ins(pos, make_inst(Opcode::StackAddr, isa.pointer_type, 0u32, 0u32, 0u32, 0i64, IntCC::Equal, TrapCode::User(0), 0u8, d.offset, 0u32, d.table), None, None);
    let t = func.value_type(d.arg0);
    // Stack slots are required to be accessible and aligned.
    func.replace(inst, make_inst(Opcode::Store, t, d.arg0, addr, 0u32, 0i64, IntCC::Equal, TrapCode::User(0), MEMFLAGS_TRUSTED, 0i32, 0u32, 0u32));
    true
}

/// The size in bytes of an integer scalar type (`I8` to `I64`).
pub open spec fn int_bytes(t: ValueType) -> i32 {
    if t.0 == I8 {
        1
    } else if t.0 == I16 {
        2
    } else if t.0 == I32 {
        4
    } else {
        8
    }
}

/// The size in bytes of an integer scalar type (`I8` to `I64`).
fn int_bytes_of(t: ValueType) -> (r: i32)
    ensures
        r == int_bytes(t),
        1 <= r <= 8,
{
    if t.0 == I8 {
        1
    } else if t.0 == I16 {
        2
    } else if t.0 == I32 {
        4
    } else {
        8
    }
}

/// The function after narrowing a `load` into loads of its low half at the offset and its high
/// half just after it, concatenated.
#[verifier::opaque]
pub open spec fn narrow_load_spec(v: FuncView, inst: Inst, pos: int, d: InstData) -> Option<FuncView> {
    let small = half_width(d.ctrl);
    let kl = inst_of(Opcode::Load, small, d.arg0, 0u32, 0u32, 0i64, IntCC::Equal, TrapCode::User(0), d.flags, d.offset, 0u32, 0u32);
    let (al, _r1) = s_ins_results(v, kl, None, None);
    let v = s_ins(v, pos, kl, None, None);
    let kh = inst_of(Opcode::Load, small, d.arg0, 0u32, 0u32, 0i64, IntCC::Equal, TrapCode::User(0), d.flags, (d.offset + int_bytes(small)) as i32, 0u32, 0u32);
    let (ah, _r2) = s_ins_results(v, kh, None, None);
    let v = s_ins(v, pos + 1, kh, None, None);
    Some(s_replace(v, inst, inst_of(Opcode::Iconcat, value_type_of(v, al), al, ah, 0u32, 0i64, IntCC::Equal, TrapCode::User(0), 0u8, 0i32, 0u32, 0u32)))
}

/// Split a load into two parts before `iconcat`ing the result together.
fn narrow_load(inst: Inst, pos: usize, d: InstData, func: &mut Function) -> (r: bool)
    requires
        pattern_input(old(func)@, inst, pos as int, d),
        d.offset + 8 <= i32::MAX,
    ensures
        pattern_outcome(old(func)@, final(func)@, r, narrow_load_spec(old(func)@, inst, pos as int, d)),
        final(func).encodings@ == old(func).encodings@,
        func_wf(final(func)@),
        r ==> final(func)@.0.len() > old(func)@.0.len(),
        keeps_before(old(func)@, final(func)@, inst, pos as int),
{
    proof {
        reveal(narrow_load_spec);
    }
    let small = ValueType(d.ctrl.0.wrapping_sub(1));
    let (al, _r1) = func.ins(pos, make_inst(Opcode::Load, small, d.arg0, 0u32, 0u32, 0i64, IntCC::Equal, TrapCode::User(0), d.flags, d.offset, 0u32, 0u32), None, None);
    let hi = d.offset + int_bytes_of(small);
    let (ah, _r2) = func.ins(pos + 1, make_inst(Opcode::Load, small, d.arg0, 0u32, 0u32, 0i64, IntCC::Equal, TrapCode::User(0), d.flags, hi, 0u32, 0u32), None, None);
    let t = func.value_type(al);
    func.replace(inst, make_inst(Opcode::Iconcat, t, al, ah, 0u32, 0i64, IntCC::Equal, TrapCode::User(0), 0u8, 0i32, 0u32, 0u32));
    true
}

/// The function after narrowing a `store` into an `isplit` of the value and stores of its low
/// half at the offset and its high half just after it.
#[verifier::opaque]
pub open spec fn narrow_store_spec(v: FuncView, inst: Inst, pos: int, d: InstData) -> Option<FuncView> {
    let ks = inst_of(Opcode::Isplit, value_type_of(v, d.arg0), d.arg0, 0u32, 0u32, 0i64, IntCC::Equal, TrapCode::User(0), 0u8, 0i32, 0u32, 0u32);
    let (al, ah) = s_ins_results(v, ks, None, None);
    let v = s_ins(v, pos, ks, None, None);
    let kl = inst_of(Opcode::Store, value_type_of(v, al), al, d.arg1, 0u32, 0i64, IntCC::Equal, TrapCode::User(0), d.flags, d.offset, 0u32, 0u32);
    let v = s_ins(v, pos + 1, kl, None, None);
    let kh = inst_of(Opcode::Store, value_type_of(v, ah), ah, d.arg1, 0u32, 0i64, IntCC::Equal, TrapCode::User(0), d.flags, (d.offset + int_bytes(value_type_of(v, ah))) as i32, 0u32, 0u32);
    let v = s_ins(v, pos + 2, kh, None, None);
    Some(s_remove(v, pos + 3))
}

/// Split a store into two parts after `isplit`ing the value.
fn narrow_store(inst: Inst, pos: usize, d: InstData, func: &mut Function) -> (r: bool)
    requires
        pattern_input(old(func)@, inst, pos as int, d),
        d.offset + 8 <= i32::MAX,
    ensures
        pattern_outcome(old(func)@, final(func)@, r, narrow_store_spec(old(func)@, inst, pos as int, d)),
        final(func).encodings@ == old(func).encodings@,
        func_wf(final(func)@),
        r ==> final(func)@.0.len() > old(func)@.0.len(),
        keeps_before(old(func)@, final(func)@, inst, pos as int),
{
    proof {
        reveal(narrow_store_spec);
    }
    let t = func.value_type(d.arg0);
    let (al, ah) = func.ins(pos, make_inst(Opcode::Isplit, t, d.arg0, 0u32, 0u32, 0i64, IntCC::Equal, TrapCode::User(0), 0u8, 0i32, 0u32, 0u32), None, None);
    let tl = func.value_type(al);
    func.ins(pos + 1, make_inst(Opcode::Store, tl, al, d.arg1, 0u32, 0i64, IntCC::Equal, TrapCode::User(0), d.flags, d.offset, 0u32, 0u32), None, None);
    let th = func.value_type(ah);
    let hi = d.offset + int_bytes_of(th);
    func.ins(pos + 2, make_inst(Opcode::Store, th, ah, d.arg1, 0u32, 0i64, IntCC::Equal, TrapCode::User(0), d.flags, hi, 0u32, 0u32), None, None);
    func.remove_inst(pos + 3);
    true
}

/// The function after splitting a 64-bit `iconst`, on a target with 32-bit pointers, into
/// constants of its low and high 32 bits, concatenated.
#[verifier::opaque]
pub open spec fn narrow_iconst_spec(v: FuncView, inst: Inst, pos: int, d: InstData) -> Option<FuncView> {
    let kl = inst_of(Opcode::Iconst, ValueType(I32), 0u32, 0u32, 0u32, d.imm & 0xffffffff, IntCC::Equal, TrapCode::User(0), 0u8, 0i32, 0u32, 0u32);
    let (low, _r1) = s_ins_results(v, kl, None, None);
    let v = s_ins(v, pos, kl, None, None);
    let kh = inst_of(Opcode::Iconst, ValueType(I32), 0u32, 0u32, 0u32, d.imm >> 32u64, IntCC::Equal, TrapCode::User(0), 0u8, 0i32, 0u32, 0u32);
    let (high, _r2) = s_ins_results(v, kh, None, None);
    let v = s_ins(v, pos + 1, kh, None, None);
    Some(s_replace(v, inst, inst_of(Opcode::Iconcat, ValueType(I32), low, high, 0u32, 0i64, IntCC::Equal, TrapCode::User(0), 0u8, 0i32, 0u32, 0u32)))
}

/// Expand an illegal `iconst` value by splitting it into two.
fn narrow_iconst(inst: Inst, pos: usize, d: InstData, func: &mut Function) -> (r: bool)
    requires
        pattern_input(old(func)@, inst, pos as int, d),
    ensures
        pattern_outcome(old(func)@, final(func)@, r, narrow_iconst_spec(old(func)@, inst, pos as int, d)),
        final(func).encodings@ == old(func).encodings@,
        func_wf(final(func)@),
        r ==> final(func)@.0.len() > old(func)@.0.len(),
        keeps_before(old(func)@, final(func)@, inst, pos as int),
{
    proof {
        reveal(narrow_iconst_spec);
    }
    let (low, _r1) = func.ins(pos, make_inst(Opcode::Iconst, ValueType(I32), 0u32, 0u32, 0u32, d.imm & 0xffffffff, IntCC::Equal, TrapCode::User(0), 0u8, 0i32, 0u32, 0u32), None, None);
    let (high, _r2) = func.ins(pos + 1, make_inst(Opcode::Iconst, ValueType(I32), 0u32, 0u32, 0u32, d.imm >> 32u64, IntCC::Equal, TrapCode::User(0), 0u8, 0i32, 0u32, 0u32), None, None);
    // The instruction has as many results as iconcat, so no need to replace them.
    func.replace(inst, make_inst(Opcode::Iconcat, ValueType(I32), low, high, 0u32, 0i64, IntCC::Equal, TrapCode::User(0), 0u8, 0i32, 0u32, 0u32));
    true
}

/// The condition code without its equality part.
pub open spec fn without_equal(cc: IntCC) -> IntCC {
    match cc {
        IntCC::SignedGreaterThanOrEqual => IntCC::SignedGreaterThan,
        IntCC::SignedLessThanOrEqual => IntCC::SignedLessThan,
        IntCC::UnsignedGreaterThanOrEqual => IntCC::UnsignedGreaterThan,
        IntCC::UnsignedLessThanOrEqual => IntCC::UnsignedLessThan,
        _ => cc,
    }
}

/// The unsigned version of a condition code.
pub open spec fn unsigned_cc(cc: IntCC) -> IntCC {
    match cc {
        IntCC::SignedGreaterThanOrEqual => IntCC::UnsignedGreaterThanOrEqual,
        IntCC::SignedGreaterThan => IntCC::UnsignedGreaterThan,
        IntCC::SignedLessThanOrEqual => IntCC::UnsignedLessThanOrEqual,
        IntCC::SignedLessThan => IntCC::UnsignedLessThan,
        _ => cc,
    }
}

/// Get the condition code without its equality part.
pub fn cc_without_equal(cc: IntCC) -> (r: IntCC)
    ensures
        r == without_equal(cc),
{
    match cc {
        IntCC::SignedGreaterThanOrEqual => IntCC::SignedGreaterThan,
        IntCC::SignedLessThanOrEqual => IntCC::SignedLessThan,
        IntCC::UnsignedGreaterThanOrEqual => IntCC::UnsignedGreaterThan,
        IntCC::UnsignedLessThanOrEqual => IntCC::UnsignedLessThan,
        _ => cc,
    }
}

/// Get the unsigned version of a condition code.
pub fn cc_unsigned(cc: IntCC) -> (r: IntCC)
    ensures
        r == unsigned_cc(cc),
{
    match cc {
        IntCC::SignedGreaterThanOrEqual => IntCC::UnsignedGreaterThanOrEqual,
        IntCC::SignedGreaterThan => IntCC::UnsignedGreaterThan,
        IntCC::SignedLessThanOrEqual => IntCC::UnsignedLessThanOrEqual,
        IntCC::SignedLessThan => IntCC::UnsignedLessThan,
        _ => cc,
    }
}

/// The number of bits of an integer scalar type (`I8` to `I64`).
pub open spec fn int_bits(t: ValueType) -> u32 {
    if t.0 == I8 {
        8
    } else if t.0 == I16 {
        16
    } else if t.0 == I32 {
        32
    } else {
        64
    }
}

/// The immediate of the low half: the low bits of `imm`, as many as the half type has.
pub open spec fn compare_imm_low(imm: i64, half: ValueType) -> i64 {
    let bits = int_bits(half);
    if bits == 8 {
        imm & 0xff
    } else if bits == 16 {
        imm & 0xffff
    } else if bits == 32 {
        imm & 0xffff_ffff
    } else {
        imm
    }
}

/// The immediate of the high half: `imm` shifted right, with its sign, by the half's bits (for
/// a 64-bit half, the sign of `imm` in every bit).
pub open spec fn compare_imm_high(imm: i64, half: ValueType) -> i64 {
    let bits = int_bits(half);
    if bits == 64 {
        imm >> 63
    } else {
        imm >> bits
    }
}

/// The function after narrowing an `icmp_imm` into comparisons of the halves of its argument
/// with the halves of its immediate.
#[verifier::opaque]
pub open spec fn narrow_int_compare_imm_spec(v: FuncView, inst: Inst, pos: int, d: InstData) -> Option<FuncView> {
    let cond = d.cond;
    let half = half_width(d.ctrl);
    let kl = inst_of(Opcode::Iconst, half, 0u32, 0u32, 0u32, compare_imm_low(d.imm, half), IntCC::Equal, TrapCode::User(0), 0u8, 0i32, 0u32, 0u32);
    let (imm_low, _u0) = s_ins_results(v, kl, None, None);
    let v = s_ins(v, pos, kl, None, None);
    let kh = inst_of(Opcode::Iconst, half, 0u32, 0u32, 0u32, compare_imm_high(d.imm, half), IntCC::Equal, TrapCode::User(0), 0u8, 0i32, 0u32, 0u32);
    let (imm_high, _u1) = s_ins_results(v, kh, None, None);
    let v = s_ins(v, pos + 1, kh, None, None);
    let ks = inst_of(Opcode::Isplit, value_type_of(v, d.arg0), d.arg0, 0u32, 0u32, 0i64, IntCC::Equal, TrapCode::User(0), 0u8, 0i32, 0u32, 0u32);
    let (arg_low, arg_high) = s_ins_results(v, ks, None, None);
    let v = s_ins(v, pos + 2, ks, None, None);
    if cond == IntCC::Equal || cond == IntCC::NotEqual {
        let k1 = inst_of(Opcode::IntCompare, value_type_of(v, arg_low), arg_low, imm_low, 0u32, 0i64, cond, TrapCode::User(0), 0u8, 0i32, 0u32, 0u32);
        let (res_low, _u2) = s_ins_results(v, k1, None, None);
        let v = s_ins(v, pos + 3, k1, None, None);
        let k2 = inst_of(Opcode::IntCompare, value_type_of(v, arg_high), arg_high, imm_high, 0u32, 0i64, cond, TrapCode::User(0), 0u8, 0i32, 0u32, 0u32);
        let (res_high, _u3) = s_ins_results(v, k2, None, None);
        let v = s_ins(v, pos + 4, k2, None, None);
        let op = if cond == IntCC::Equal {
            Opcode::Band
        } else {
            Opcode::Bor
        };
        Some(s_replace(v, inst, inst_of(op, value_type_of(v, res_low), res_low, res_high, 0u32, 0i64, IntCC::Equal, TrapCode::User(0), 0u8, 0i32, 0u32, 0u32)))
    } else {
        let k1 = inst_of(Opcode::IntCompare, value_type_of(v, arg_high), arg_high, imm_high, 0u32, 0i64, without_equal(cond), TrapCode::User(0), 0u8, 0i32, 0u32, 0u32);
        let (b1, _u2) = s_ins_results(v, k1, None, None);
        let v = s_ins(v, pos + 3, k1, None, None);
        let k2 = inst_of(Opcode::IntCompare, value_type_of(v, arg_high), arg_high, imm_high, 0u32, 0i64, without_equal(intcc_inverse(cond)), TrapCode::User(0), 0u8, 0i32, 0u32, 0u32);
        let (b2, _u3) = s_ins_results(v, k2, None, None);
        let v = s_ins(v, pos + 4, k2, None, None);
        let k3 = inst_of(Opcode::IntCompare, value_type_of(v, arg_low), arg_low, imm_low, 0u32, 0i64, unsigned_cc(cond), TrapCode::User(0), 0u8, 0i32, 0u32, 0u32);
        let (b3, _u4) = s_ins_results(v, k3, None, None);
        let v = s_ins(v, pos + 5, k3, None, None);
        let k4 = inst_of(Opcode::Bnot, value_type_of(v, b2), b2, 0u32, 0u32, 0i64, IntCC::Equal, TrapCode::User(0), 0u8, 0i32, 0u32, 0u32);
        let (c1, _u5) = s_ins_results(v, k4, None, None);
        let v = s_ins(v, pos + 6, k4, None, None);
        let k5 = inst_of(Opcode::Band, value_type_of(v, c1), c1, b3, 0u32, 0i64, IntCC::Equal, TrapCode::User(0), 0u8, 0i32, 0u32, 0u32);
        let (c2, _u6) = s_ins_results(v, k5, None, None);
        let v = s_ins(v, pos + 7, k5, None, None);
        Some(s_replace(v, inst, inst_of(Opcode::Bor, value_type_of(v, b1), b1, c2, 0u32, 0i64, IntCC::Equal, TrapCode::User(0), 0u8, 0i32, 0u32, 0u32)))
    }
}

/// Narrow an `icmp_imm` into comparisons of the halves of its argument with the halves of its
/// immediate.
#[verifier::rlimit(100)]
fn narrow_int_compare_imm(inst: Inst, pos: usize, d: InstData, func: &mut Function) -> (r: bool)
    requires
        pattern_input(old(func)@, inst, pos as int, d),
        d.ctrl.0 == I16 || d.ctrl.0 == I32 || d.ctrl.0 == I64 || d.ctrl.0 == I128,
        d.cond != IntCC::Overflow && d.cond != IntCC::NotOverflow,
    ensures
        pattern_outcome(old(func)@, final(func)@, r, narrow_int_compare_imm_spec(old(func)@, inst, pos as int, d)),
        final(func).encodings@ == old(func).encodings@,
        func_wf(final(func)@),
        r ==> final(func)@.0.len() > old(func)@.0.len(),
        keeps_before(old(func)@, final(func)@, inst, pos as int),
{
    proof {
        reveal(narrow_int_compare_imm_spec);
    }
    let cond = d.cond;
    let imm = d.imm;
    let half = ValueType(d.ctrl.0 - 1);
    let low: i64 = if half.0 == I8 {
        imm & 0xff
    } else if half.0 == I16 {
        imm & 0xffff
    } else if half.0 == I32 {
        imm & 0xffff_ffff
    } else {
        imm
    };
    let high: i64 = if half.0 == I64 {
        imm >> 63u32
    } else if half.0 == I8 {
        imm >> 8u32
    } else if half.0 == I16 {
        imm >> 16u32
    } else {
        imm >> 32u32
    };
    let (imm_low, _u0) = func.ins(pos, make_inst(Opcode::Iconst, half, 0u32, 0u32, 0u32, low, IntCC::Equal, TrapCode::User(0), 0u8, 0i32, 0u32, 0u32), None, None);
    let (imm_high, _u1) = func.ins(pos + 1, make_inst(Opcode::Iconst, half, 0u32, 0u32, 0u32, high, IntCC::Equal, TrapCode::User(0), 0u8, 0i32, 0u32, 0u32), None, None);
    let ta = func.value_type(d.arg0);
    let (arg_low, arg_high) = func.ins(pos + 2, make_inst(Opcode::Isplit, ta, d.arg0, 0u32, 0u32, 0i64, IntCC::Equal, TrapCode::User(0), 0u8, 0i32, 0u32, 0u32), None, None);
    if cond == IntCC::Equal || cond == IntCC::NotEqual {
        let tl = func.value_type(arg_low);
        let (res_low, _u2) = func.ins(pos + 3, make_inst(Opcode::IntCompare, tl, arg_low, imm_low, 0u32, 0i64, cond, TrapCode::User(0), 0u8, 0i32, 0u32, 0u32), None, None);
        let th = func.value_type(arg_high);
        let (res_high, _u3) = func.ins(pos + 4, make_inst(Opcode::IntCompare, th, arg_high, imm_high, 0u32, 0i64, cond, TrapCode::User(0), 0u8, 0i32, 0u32, 0u32), None, None);
        let op = if cond == IntCC::Equal {
            Opcode::Band
        } else {
            Opcode::Bor
        };
        let tr = func.value_type(res_low);
        func.replace(inst, make_inst(op, tr, res_low, res_high, 0u32, 0i64, IntCC::Equal, TrapCode::User(0), 0u8, 0i32, 0u32, 0u32));
    } else {
        let th = func.value_type(arg_high);
        let (b1, _u2) = func.ins(pos + 3, make_inst(Opcode::IntCompare, th, arg_high, imm_high, 0u32, 0i64, cc_without_equal(cond), TrapCode::User(0), 0u8, 0i32, 0u32, 0u32), None, None);
        let th2 = func.value_type(arg_high);
        let (b2, _u3) = func.ins(pos + 4, make_inst(Opcode::IntCompare, th2, arg_high, imm_high, 0u32, 0i64, cc_without_equal(cond.inverse()), TrapCode::User(0), 0u8, 0i32, 0u32, 0u32), None, None);
        let tl = func.value_type(arg_low);
        let (b3, _u4) = func.ins(pos + 5, make_inst(Opcode::IntCompare, tl, arg_low, imm_low, 0u32, 0i64, cc_unsigned(cond), TrapCode::User(0), 0u8, 0i32, 0u32, 0u32), None, None);
        let tb2 = func.value_type(b2);
        let (c1, _u5) = func.ins(pos + 6, make_inst(Opcode::Bnot, tb2, b2, 0u32, 0u32, 0i64, IntCC::Equal, TrapCode::User(0), 0u8, 0i32, 0u32, 0u32), None, None);
        let tc1 = func.value_type(c1);
        let (c2, _u6) = func.ins(pos + 7, make_inst(Opcode::Band, tc1, c1, b3, 0u32, 0i64, IntCC::Equal, TrapCode::User(0), 0u8, 0i32, 0u32, 0u32), None, None);
        let tb1 = func.value_type(b1);
        func.replace(inst, make_inst(Opcode::Bor, tb1, b1, c2, 0u32, 0i64, IntCC::Equal, TrapCode::User(0), 0u8, 0i32, 0u32, 0u32));
    }
    true
}

/// The function after narrowing a `brz` on a 128-bit integer: both halves are compared with
/// zero, and a `brnz` on their conjunction replaces it.
#[verifier::opaque]
pub open spec fn narrow_brz_spec(v: FuncView, inst: Inst, pos: int, d: InstData) -> Option<FuncView> {
    if value_type_of(v, d.arg0) == ValueType(I128) {
        let v1 = s_clear_results(v, inst);
        let (xl, xh, n) = s_split_results(v1, d.arg0);
        let v2 = s_split(v1, pos, d.arg0);
        let ka = inst_of(Opcode::IntCompareImm, value_type_of(v2, xl), xl, 0u32, 0u32, 0i64, IntCC::Equal, TrapCode::User(0), 0u8, 0i32, 0u32, 0u32);
        let (a, _r1) = s_ins_results(v2, ka, None, None);
        let v3 = s_ins(v2, pos + n, ka, None, None);
        let kb = inst_of(Opcode::IntCompareImm, value_type_of(v3, xh), xh, 0u32, 0u32, 0i64, IntCC::Equal, TrapCode::User(0), 0u8, 0i32, 0u32, 0u32);
        let (b, _r2) = s_ins_results(v3, kb, None, None);
        let v4 = s_ins(v3, pos + n + 1, kb, None, None);
        let kc = inst_of(Opcode::Band, value_type_of(v4, a), a, b, 0u32, 0i64, IntCC::Equal, TrapCode::User(0), 0u8, 0i32, 0u32, 0u32);
        let (c, _r3) = s_ins_results(v4, kc, None, None);
        let v5 = s_ins(v4, pos + n + 2, kc, None, None);
        let kd = inst_of(Opcode::Brnz, value_type_of(v5, c), c, 0u32, 0u32, 0i64, IntCC::Equal, TrapCode::User(0), 0u8, 0i32, d.dest, 0u32);
        let v6 = s_ins(v5, pos + n + 3, kd, None, None);
        Some(s_remove(v6, pos + n + 4))
    } else {
        None
    }
}

/// Narrow a `brz` on a 128-bit integer into tests of its halves.
#[verifier::rlimit(100)]
fn narrow_brz(inst: Inst, pos: usize, d: InstData, func: &mut Function) -> (r: bool)
    requires
        pattern_input(old(func)@, inst, pos as int, d),
    ensures
        pattern_outcome(old(func)@, final(func)@, r, narrow_brz_spec(old(func)@, inst, pos as int, d)),
        final(func).encodings@ == old(func).encodings@,
        func_wf(final(func)@),
        r ==> final(func)@.0.len() > old(func)@.0.len(),
        keeps_before(old(func)@, final(func)@, inst, pos as int),
{
    proof {
        reveal(narrow_brz_spec);
    }
    if func.value_type(d.arg0) != ValueType(I128) {
        return false;
    }
    func.clear_results(inst);
    let (xl, xh, n) = func.split_value(pos, d.arg0);
    let p = pos + n;
    let tl = func.value_type(xl);
    let (a, _r1) = func.ins(p, make_inst(Opcode::IntCompareImm, tl, xl, 0u32, 0u32, 0i64, IntCC::Equal, TrapCode::User(0), 0u8, 0i32, 0u32, 0u32), None, None);
    let th = func.value_type(xh);
    let (b, _r2) = func.ins(p + 1, make_inst(Opcode::IntCompareImm, th, xh, 0u32, 0u32, 0i64, IntCC::Equal, TrapCode::User(0), 0u8, 0i32, 0u32, 0u32), None, None);
    let ta = func.value_type(a);
    let (c, _r3) = func.ins(p + 2, make_inst(Opcode::Band, ta, a, b, 0u32, 0i64, IntCC::Equal, TrapCode::User(0), 0u8, 0i32, 0u32, 0u32), None, None);
    let tc = func.value_type(c);
    func.ins(p + 3, make_inst(Opcode::Brnz, tc, c, 0u32, 0u32, 0i64, IntCC::Equal, TrapCode::User(0), 0u8, 0i32, d.dest, 0u32), None, None);
    func.remove_inst(p + 4);
    true
}

/// The header of a new block.
pub open spec fn block_header() -> InstData {
    inst_of(Opcode::Block, ValueType(INVALID), 0u32, 0u32, 0u32, 0i64, IntCC::Equal, TrapCode::User(0), 0u8, 0i32, 0u32, 0u32)
}

/// A jump to block `dest`.
pub open spec fn jump_to(dest: Inst) -> InstData {
    inst_of(Opcode::Jump, ValueType(INVALID), 0u32, 0u32, 0u32, 0i64, IntCC::Equal, TrapCode::User(0), 0u8, 0i32, dest, 0u32)
}

/// The function after expanding a conditional trap: the trap becomes a branch, on the inverted
/// condition, over a new block holding an unconditional trap, to a new block where execution
/// resumes.
#[verifier::opaque]
pub open spec fn expand_cond_trap_spec(v: FuncView, inst: Inst, pos: int, d: InstData) -> Option<FuncView> {
    let n = v.0.len();
    let op = if d.opcode == Opcode::Trapz { Opcode::Brnz } else { Opcode::Brz };
    let v1 = s_replace(v, inst, inst_of(op, value_type_of(v, d.arg0), d.arg0, 0u32, 0u32, 0i64, IntCC::Equal, TrapCode::User(0), 0u8, 0i32, (n + 3) as u32, 0u32));
    let v2 = s_ins(v1, pos + 1, jump_to((n + 1) as u32), None, None);
    let v3 = s_ins(v2, pos + 2, block_header(), None, None);
    let v4 = s_ins(v3, pos + 3, inst_of(Opcode::Trap, ValueType(INVALID), 0u32, 0u32, 0u32, 0i64, IntCC::Equal, d.code, 0u8, 0i32, 0u32, 0u32), None, None);
    Some(s_ins(v4, pos + 4, block_header(), None, None))
}

/// Split the block after a conditional trap: branch over an unconditional trap in a block of its
/// own.
fn expand_cond_trap(inst: Inst, pos: usize, d: InstData, func: &mut Function) -> (r: bool)
    requires
        pattern_input(old(func)@, inst, pos as int, d),
        d.opcode == Opcode::Trapz || d.opcode == Opcode::Trapnz,
    ensures
        pattern_outcome(old(func)@, final(func)@, r, expand_cond_trap_spec(old(func)@, inst, pos as int, d)),
        final(func).encodings@ == old(func).encodings@,
        func_wf(final(func)@),
        r ==> final(func)@.0.len() > old(func)@.0.len(),
        keeps_before(old(func)@, final(func)@, inst, pos as int),
{
    proof {
        reveal(expand_cond_trap_spec);
    }
    let n = func.insts.len() as u32;
    let op = if d.opcode == Opcode::Trapz { Opcode::Brnz } else { Opcode::Brz };
    let t = func.value_type(d.arg0);
    func.replace(inst, make_inst(op, t, d.arg0, 0u32, 0u32, 0i64, IntCC::Equal, TrapCode::User(0), 0u8, 0i32, n + 3, 0u32));
    func.ins(pos + 1, make_inst(Opcode::Jump, ValueType(INVALID), 0u32, 0u32, 0u32, 0i64, IntCC::Equal, TrapCode::User(0), 0u8, 0i32, n + 1, 0u32), None, None);
    func.ins(pos + 2, make_inst(Opcode::Block, ValueType(INVALID), 0u32, 0u32, 0u32, 0i64, IntCC::Equal, TrapCode::User(0), 0u8, 0i32, 0u32, 0u32), None, None);
    func.ins(pos + 3, make_inst(Opcode::Trap, ValueType(INVALID), 0u32, 0u32, 0u32, 0i64, IntCC::Equal, d.code, 0u8, 0i32, 0u32, 0u32), None, None);
    func.ins(pos + 4, make_inst(Opcode::Block, ValueType(INVALID), 0u32, 0u32, 0u32, 0i64, IntCC::Equal, TrapCode::User(0), 0u8, 0i32, 0u32, 0u32), None, None);
    true
}

/// The function after expanding a `select` into a branch: `brnz` on the condition to a new
/// block with the true value, else a jump to it with the false value; the block's parameter is
/// the select's result.
#[verifier::opaque]
pub open spec fn expand_select_spec(v: FuncView, inst: Inst, pos: int, d: InstData) -> Option<FuncView> {
    if d.num_results == 0 {
        None
    } else {
        let n = v.0.len();
        let v1 = s_clear_results(v, inst);
        let br = InstData { block_args: 1, ..inst_of(Opcode::Brnz, value_type_of(v, d.arg0), d.arg0, d.arg1, 0u32, 0i64, IntCC::Equal, TrapCode::User(0), 0u8, 0i32, (n + 1) as u32, 0u32) };
        let v2 = s_replace(v1, inst, br);
        let j = InstData { block_args: 1, ..inst_of(Opcode::Jump, ValueType(INVALID), d.arg2, 0u32, 0u32, 0i64, IntCC::Equal, TrapCode::User(0), 0u8, 0i32, (n + 1) as u32, 0u32) };
        let v3 = s_ins(v2, pos + 1, j, None, None);
        let v4 = s_ins(v3, pos + 2, block_header(), None, None);
        Some(s_attach_param(v4, (n + 1) as u32, d.res0))
    }
}

/// Expand a `select` into a branch to a new block whose parameter is the result.
fn expand_select(inst: Inst, pos: usize, d: InstData, func: &mut Function) -> (r: bool)
    requires
        pattern_input(old(func)@, inst, pos as int, d),
    ensures
        pattern_outcome(old(func)@, final(func)@, r, expand_select_spec(old(func)@, inst, pos as int, d)),
        final(func).encodings@ == old(func).encodings@,
        func_wf(final(func)@),
        r ==> final(func)@.0.len() > old(func)@.0.len(),
        keeps_before(old(func)@, final(func)@, inst, pos as int),
{
    proof {
        reveal(expand_select_spec);
    }
    if d.num_results == 0 {
        return false;
    }
    let n = func.insts.len() as u32;
    let t = func.value_type(d.arg0);
    func.clear_results(inst);
    let mut br = make_inst(Opcode::Brnz, t, d.arg0, d.arg1, 0u32, 0i64, IntCC::Equal, TrapCode::User(0), 0u8, 0i32, n + 1, 0u32);
    br.block_args = 1;
    func.replace(inst, br);
    let mut j = make_inst(Opcode::Jump, ValueType(INVALID), d.arg2, 0u32, 0u32, 0i64, IntCC::Equal, TrapCode::User(0), 0u8, 0i32, n + 1, 0u32);
    j.block_args = 1;
    func.ins(pos + 1, j, None, None);
    func.ins(pos + 2, make_inst(Opcode::Block, ValueType(INVALID), 0u32, 0u32, 0u32, 0i64, IntCC::Equal, TrapCode::User(0), 0u8, 0i32, 0u32, 0u32), None, None);
    func.attach_param(n + 1, d.res0);
    true
}

/// The function after narrowing a `brnz` on a 128-bit integer: a `brnz` on the low half, else a
/// jump to a new block with a `brnz` on the high half.
#[verifier::opaque]
pub open spec fn narrow_brnz_spec(v: FuncView, inst: Inst, pos: int, d: InstData) -> Option<FuncView> {
    if value_type_of(v, d.arg0) == ValueType(I128) {
        let v1 = s_clear_results(v, inst);
        let (xl, xh, n) = s_split_results(v1, d.arg0);
        let v2 = s_split(v1, pos, d.arg0);
        let m = v2.0.len();
        let v3 = s_ins(v2, pos + n, inst_of(Opcode::Brnz, value_type_of(v2, xl), xl, 0u32, 0u32, 0i64, IntCC::Equal, TrapCode::User(0), 0u8, 0i32, d.dest, 0u32), None, None);
        let v4 = s_ins(v3, pos + n + 1, jump_to((m + 2) as u32), None, None);
        let v5 = s_ins(v4, pos + n + 2, block_header(), None, None);
        let v6 = s_ins(v5, pos + n + 3, inst_of(Opcode::Brnz, value_type_of(v5, xh), xh, 0u32, 0u32, 0i64, IntCC::Equal, TrapCode::User(0), 0u8, 0i32, d.dest, 0u32), None, None);
        Some(s_remove(v6, pos + n + 4))
    } else {
        None
    }
}

/// Narrow a `brnz` on a 128-bit integer into branches on its halves.
#[verifier::rlimit(100)]
fn narrow_brnz(inst: Inst, pos: usize, d: InstData, func: &mut Function) -> (r: bool)
    requires
        pattern_input(old(func)@, inst, pos as int, d),
    ensures
        pattern_outcome(old(func)@, final(func)@, r, narrow_brnz_spec(old(func)@, inst, pos as int, d)),
        final(func).encodings@ == old(func).encodings@,
        func_wf(final(func)@),
        r ==> final(func)@.0.len() > old(func)@.0.len(),
        keeps_before(old(func)@, final(func)@, inst, pos as int),
{
    proof {
        reveal(narrow_brnz_spec);
    }
    if func.value_type(d.arg0) != ValueType(I128) {
        return false;
    }
    func.clear_results(inst);
    let (xl, xh, n) = func.split_value(pos, d.arg0);
    let p = pos + n;
    let m = func.insts.len() as u32;
    let tl = func.value_type(xl);
    func.ins(p, make_inst(Opcode::Brnz, tl, xl, 0u32, 0u32, 0i64, IntCC::Equal, TrapCode::User(0), 0u8, 0i32, d.dest, 0u32), None, None);
    func.ins(p + 1, make_inst(Opcode::Jump, ValueType(INVALID), 0u32, 0u32, 0u32, 0i64, IntCC::Equal, TrapCode::User(0), 0u8, 0i32, m + 2, 0u32), None, None);
    func.ins(p + 2, make_inst(Opcode::Block, ValueType(INVALID), 0u32, 0u32, 0u32, 0i64, IntCC::Equal, TrapCode::User(0), 0u8, 0i32, 0u32, 0u32), None, None);
    let th = func.value_type(xh);
    func.ins(p + 3, make_inst(Opcode::Brnz, th, xh, 0u32, 0u32, 0i64, IntCC::Equal, TrapCode::User(0), 0u8, 0i32, d.dest, 0u32), None, None);
    func.remove_inst(p + 4);
    true
}

/// One case of the comparison chain of a `br_table`: compare the index with `k` and branch to
/// entry `k` of the table where they are equal; unless it is the last case, jump on to a new
/// block, where the next case follows.
pub open spec fn br_conds_case(w: FuncView, p: int, d: InstData, k: nat) -> FuncView {
    let tbl = w.3[d.table as int]@;
    let kc = inst_of(Opcode::IntCompareImm, value_type_of(w, d.arg0), d.arg0, 0u32, 0u32, k as i64, IntCC::Equal, TrapCode::User(0), 0u8, 0i32, 0u32, 0u32);
    let (t, _r1) = s_ins_results(w, kc, None, None);
    let w1 = s_ins(w, p, kc, None, None);
    let w2 = s_ins(w1, p + 1, inst_of(Opcode::Brnz, value_type_of(w1, t), t, 0u32, 0u32, 0i64, IntCC::Equal, TrapCode::User(0), 0u8, 0i32, tbl[k as int], 0u32), None, None);
    if k + 1 < tbl.len() {
        let m = w2.0.len();
        let w3 = s_ins(w2, p + 2, jump_to((m + 1) as u32), None, None);
        s_ins(w3, p + 3, block_header(), None, None)
    } else {
        w2
    }
}

/// The function after the first `i` cases of the comparison chain, inserted before layout
/// position `pos`.
pub open spec fn br_conds_prefix(v: FuncView, pos: int, d: InstData, i: nat) -> FuncView
    decreases i,
{
    if i == 0 {
        v
    } else {
        br_conds_case(br_conds_prefix(v, pos, d, (i - 1) as nat), pos + 4 * (i - 1), d, (i - 1) as nat)
    }
}

/// A jump table that is a table of the function, with room for the instructions that lowering
/// a branch through it adds.
pub open spec fn br_table_fits(v: FuncView, d: InstData) -> bool {
    &&& (d.table as int) < v.3.len()
    &&& v.0.len() + 4 * v.3[d.table as int]@.len() + 64 <= func_capacity()
    &&& v.1.len() + 4 * v.3[d.table as int]@.len() + 64 <= func_capacity()
    &&& v.2.len() + v.3[d.table as int]@.len() + 128 <= func_capacity()
}

/// The function after lowering a `br_table` to a chain of comparisons: for each entry, a
/// comparison of the index with its number and a branch to it, each in a block of its own after
/// the first, and finally a jump to the default block.
#[verifier::opaque]
pub open spec fn expand_br_table_conds_spec(v: FuncView, inst: Inst, pos: int, d: InstData) -> Option<FuncView> {
    if br_table_fits(v, d) {
        let size = v.3[d.table as int]@.len();
        let w = br_conds_prefix(v, pos, d, size);
        let p = if size == 0 { pos } else { pos + 4 * (size - 1) + 2 };
        let w2 = s_ins(w, p, jump_to(d.dest), None, None);
        Some(s_remove(w2, p + 1))
    } else {
        None
    }
}

/// Expand `br_table` to a series of conditionals.
#[verifier::rlimit(100)]
fn expand_br_table_conds(inst: Inst, pos: usize, d: InstData, func: &mut Function) -> (r: bool)
    requires
        pattern_input(old(func)@, inst, pos as int, d),
        d.opcode == Opcode::BrTable,
    ensures
        pattern_outcome(old(func)@, final(func)@, r, expand_br_table_conds_spec(old(func)@, inst, pos as int, d)),
        final(func).encodings@ == old(func).encodings@,
        func_wf(final(func)@),
        r ==> final(func)@.0.len() > old(func)@.0.len(),
        keeps_before(old(func)@, final(func)@, inst, pos as int),
{
    proof {
        reveal(expand_br_table_conds_spec);
        reveal(attach_results);
    }
    let ghost v0 = func@;
    let t = d.table as usize;
    if t >= func.jump_tables.len() {
        return false;
    }
    let size = func.jump_tables[t].len();
    if !(size <= 0x4000_0000 && func.insts.len() as u64 + 4 * size as u64 + 64 <= 0xffff_0000
        && func.layout.len() as u64 + 4 * size as u64 + 64 <= 0xffff_0000
        && func.value_types.len() as u64 + size as u64 + 128 <= 0xffff_0000) {
        return false;
    }
    let mut i: usize = 0;
    while i < size
        invariant
            0 <= i <= size,
            size == v0.3[t as int]@.len(),
            t == d.table,
            pattern_input(v0, inst, pos as int, d),
            br_table_fits(v0, d),
            func@ == br_conds_prefix(v0, pos as int, d, i as nat),
            func.encodings@ == old(func).encodings@,
            old(func)@ == v0,
            func_wf(func@),
            func@.3 == v0.3,
            i < size ==> func@.0.len() == v0.0.len() + 4 * i && func@.1.len() == v0.1.len() + 4 * i,
            i == size && size > 0 ==> func@.0.len() == v0.0.len() + 4 * i - 2 && func@.1.len() == v0.1.len() + 4 * i - 2,
            func@.2.len() == v0.2.len() + i,
            forall|j: int| 0 <= j < pos ==> #[trigger] func@.1[j] == v0.1[j],
            forall|j: int| 0 <= j < v0.0.len() ==> #[trigger] func@.0[j] == v0.0[j],
            i < size ==> func@.1[pos + 4 * i] == inst,
            i == size && size > 0 ==> func@.1[pos + 4 * i - 2] == inst,
        decreases size - i,
    {
        let p = pos + 4 * i;
        let ta = func.value_type(d.arg0);
        let (c, _r1) = func.ins(p, make_inst(Opcode::IntCompareImm, ta, d.arg0, 0u32, 0u32, i as i64, IntCC::Equal, TrapCode::User(0), 0u8, 0i32, 0u32, 0u32), None, None);
        let tc = func.value_type(c);
        let dest = func.jump_tables[t][i];
        func.ins(p + 1, make_inst(Opcode::Brnz, tc, c, 0u32, 0u32, 0i64, IntCC::Equal, TrapCode::User(0), 0u8, 0i32, dest, 0u32), None, None);
        if i + 1 < size {
            let m = func.insts.len() as u32;
            func.ins(p + 2, make_inst(Opcode::Jump, ValueType(INVALID), 0u32, 0u32, 0u32, 0i64, IntCC::Equal, TrapCode::User(0), 0u8, 0i32, m + 1, 0u32), None, None);
            func.ins(p + 3, make_inst(Opcode::Block, ValueType(INVALID), 0u32, 0u32, 0u32, 0i64, IntCC::Equal, TrapCode::User(0), 0u8, 0i32, 0u32, 0u32), None, None);
        }
        i = i + 1;
    }
    let p = if size == 0 { pos } else { pos + 4 * (size - 1) + 2 };
    func.ins(p, make_inst(Opcode::Jump, ValueType(INVALID), 0u32, 0u32, 0u32, 0i64, IntCC::Equal, TrapCode::User(0), 0u8, 0i32, d.dest, 0u32), None, None);
    func.remove_inst(p + 1);
    true
}

/// The rest of lowering a `br_table` through its jump table, from layout position `p` with the
/// index `a` of pointer type: the table's base, the entry, their sum, and the indirect branch.
pub open spec fn br_jt_rest(w: FuncView, p: int, d: InstData, a: Value, pointer_type: ValueType) -> FuncView {
    let kb = inst_of(Opcode::JumpTableBase, pointer_type, 0u32, 0u32, 0u32, 0i64, IntCC::Equal, TrapCode::User(0), 0u8, 0i32, 0u32, d.table);
    let (base, _r1) = s_ins_results(w, kb, None, None);
    let w1 = s_ins(w, p, kb, None, None);
    let ke = inst_of(Opcode::JumpTableEntry, value_type_of(w1, base), a, base, 0u32, 4i64, IntCC::Equal, TrapCode::User(0), 0u8, 0i32, 0u32, d.table);
    let (entry, _r2) = s_ins_results(w1, ke, None, None);
    let w2 = s_ins(w1, p + 1, ke, None, None);
    let ka = inst_of(Opcode::Iadd, value_type_of(w2, base), base, entry, 0u32, 0i64, IntCC::Equal, TrapCode::User(0), 0u8, 0i32, 0u32, 0u32);
    let (addr, _r3) = s_ins_results(w2, ka, None, None);
    let w3 = s_ins(w2, p + 2, ka, None, None);
    let w4 = s_ins(w3, p + 3, inst_of(Opcode::IndirectJumpTableBr, value_type_of(w3, addr), addr, 0u32, 0u32, 0i64, IntCC::Equal, TrapCode::User(0), 0u8, 0i32, 0u32, d.table), None, None);
    s_remove(w4, p + 4)
}

/// The function after lowering a `br_table` through its jump table: a bounds check that
/// branches to the default block, then, in a new block, the index extended to pointer width
/// where it is narrower, the address of its entry, and an indirect branch.
#[verifier::opaque]
pub open spec fn expand_br_table_jt_spec(v: FuncView, inst: Inst, pos: int, d: InstData, pointer_type: ValueType) -> Option<FuncView> {
    if br_table_fits(v, d) {
        let size = v.3[d.table as int]@.len();
        let k1 = inst_of(Opcode::IntCompareImm, value_type_of(v, d.arg0), d.arg0, 0u32, 0u32, size as i64, IntCC::UnsignedGreaterThanOrEqual, TrapCode::User(0), 0u8, 0i32, 0u32, 0u32);
        let (oob, _r1) = s_ins_results(v, k1, None, None);
        let v1 = s_ins(v, pos, k1, None, None);
        let v2 = s_ins(v1, pos + 1, inst_of(Opcode::Brnz, value_type_of(v1, oob), oob, 0u32, 0u32, 0i64, IntCC::Equal, TrapCode::User(0), 0u8, 0i32, d.dest, 0u32), None, None);
        let m = v2.0.len();
        let v3 = s_ins(v2, pos + 2, jump_to((m + 1) as u32), None, None);
        let v4 = s_ins(v3, pos + 3, block_header(), None, None);
        if value_type_of(v4, d.arg0) == pointer_type {
            Some(br_jt_rest(v4, pos + 4, d, d.arg0, pointer_type))
        } else {
            let ku = inst_of(Opcode::Uextend, pointer_type, d.arg0, 0u32, 0u32, 0i64, IntCC::Equal, TrapCode::User(0), 0u8, 0i32, 0u32, 0u32);
            let (a2, _r2) = s_ins_results(v4, ku, None, None);
            let v5 = s_ins(v4, pos + 4, ku, None, None);
            Some(br_jt_rest(v5, pos + 5, d, a2, pointer_type))
        }
    } else {
        None
    }
}

/// Expand `br_table` to a jump table.
#[verifier::rlimit(100)]
fn expand_br_table_jt(inst: Inst, pos: usize, d: InstData, func: &mut Function, isa: &IsaInfo) -> (r: bool)
    requires
        pattern_input(old(func)@, inst, pos as int, d),
        d.opcode == Opcode::BrTable,
    ensures
        pattern_outcome(old(func)@, final(func)@, r, expand_br_table_jt_spec(old(func)@, inst, pos as int, d, isa.pointer_type)),
        final(func).encodings@ == old(func).encodings@,
        func_wf(final(func)@),
        r ==> final(func)@.0.len() > old(func)@.0.len(),
        keeps_before(old(func)@, final(func)@, inst, pos as int),
{
    proof {
        reveal(expand_br_table_jt_spec);
    }
    let t = d.table as usize;
    if t >= func.jump_tables.len() {
        return false;
    }
    let size = func.jump_tables[t].len();
    if !(size <= 0x4000_0000 && func.insts.len() as u64 + 4 * size as u64 + 64 <= 0xffff_0000
        && func.layout.len() as u64 + 4 * size as u64 + 64 <= 0xffff_0000
        && func.value_types.len() as u64 + size as u64 + 128 <= 0xffff_0000) {
        return false;
    }
    let ta = func.value_type(d.arg0);
    let (oob, _r1) = func.ins(pos, make_inst(Opcode::IntCompareImm, ta, d.arg0, 0u32, 0u32, size as i64, IntCC::UnsignedGreaterThanOrEqual, TrapCode::User(0), 0u8, 0i32, 0u32, 0u32), None, None);
    let to = func.value_type(oob);
    func.ins(pos + 1, make_inst(Opcode::Brnz, to, oob, 0u32, 0u32, 0i64, IntCC::Equal, TrapCode::User(0), 0u8, 0i32, d.dest, 0u32), None, None);
    let m = func.insts.len() as u32;
    func.ins(pos + 2, make_inst(Opcode::Jump, ValueType(INVALID), 0u32, 0u32, 0u32, 0i64, IntCC::Equal, TrapCode::User(0), 0u8, 0i32, m + 1, 0u32), None, None);
    func.ins(pos + 3, make_inst(Opcode::Block, ValueType(INVALID), 0u32, 0u32, 0u32, 0i64, IntCC::Equal, TrapCode::User(0), 0u8, 0i32, 0u32, 0u32), None, None);
    let mut p = pos + 4;
    let mut a = d.arg0;
    if func.value_type(d.arg0) != isa.pointer_type {
        let (a2, _r2) = func.ins(p, make_inst(Opcode::Uextend, isa.pointer_type, d.arg0, 0u32, 0u32, 0i64, IntCC::Equal, TrapCode::User(0), 0u8, 0i32, 0u32, 0u32), None, None);
        a = a2;
        p = p + 1;
    }
    let (base, _r3) = func.ins(p, make_inst(Opcode::JumpTableBase, isa.pointer_type, 0u32, 0u32, 0u32, 0i64, IntCC::Equal, TrapCode::User(0), 0u8, 0i32, 0u32, d.table), None, None);
    let tb = func.value_type(base);
    let (entry, _r4) = func.ins(p + 1, make_inst(Opcode::JumpTableEntry, tb, a, base, 0u32, 4i64, IntCC::Equal, TrapCode::User(0), 0u8, 0i32, 0u32, d.table), None, None);
    let tb2 = func.value_type(base);
    let (addr, _r5) = func.ins(p + 2, make_inst(Opcode::Iadd, tb2, base, entry, 0u32, 0i64, IntCC::Equal, TrapCode::User(0), 0u8, 0i32, 0u32, 0u32), None, None);
    let tad = func.value_type(addr);
    func.ins(p + 3, make_inst(Opcode::IndirectJumpTableBr, tad, addr, 0u32, 0u32, 0i64, IntCC::Equal, TrapCode::User(0), 0u8, 0i32, 0u32, d.table), None, None);
    func.remove_inst(p + 4);
    true
}

/// The function after expanding a `br_table`: through its jump table where the ISA enables
/// them, else as a chain of comparisons.
pub open spec fn expand_br_table_spec(v: FuncView, inst: Inst, pos: int, d: InstData, isa: IsaInfo) -> Option<FuncView> {
    if isa.jump_tables_enabled {
        expand_br_table_jt_spec(v, inst, pos, d, isa.pointer_type)
    } else {
        expand_br_table_conds_spec(v, inst, pos, d)
    }
}

/// Expand `br_table`, through its jump table where the ISA enables them, else as a chain of
/// comparisons.
fn expand_br_table(inst: Inst, pos: usize, d: InstData, func: &mut Function, isa: &IsaInfo) -> (r: bool)
    requires
        pattern_input(old(func)@, inst, pos as int, d),
        d.opcode == Opcode::BrTable,
    ensures
        pattern_outcome(old(func)@, final(func)@, r, expand_br_table_spec(old(func)@, inst, pos as int, d, *isa)),
        final(func).encodings@ == old(func).encodings@,
        func_wf(final(func)@),
        r ==> final(func)@.0.len() > old(func)@.0.len(),
        keeps_before(old(func)@, final(func)@, inst, pos as int),
{
    if isa.jump_tables_enabled {
        expand_br_table_jt(inst, pos, d, func, isa)
    } else {
        expand_br_table_conds(inst, pos, d, func)
    }
}
/// The function after the expansion of a `band_imm` instruction, or `None` where no pattern applies.
#[verifier::opaque]
pub open spec fn expand_band_imm_spec(v: FuncView, inst: Inst, pos: int, d: InstData) -> Option<FuncView> {
    let p = pos;
    let x = d.arg0;
    let y = d.imm;
    let typeof_x = value_type_of(v, x);
    let (new0, new1) = s_ins_results(v, inst_of(Opcode::Iconst, typeof_x, 0u32, 0u32, 0u32, y, IntCC::Equal, TrapCode::User(0), 0u8, 0i32, 0u32, 0u32), None, None);
    let v = s_ins(v, p, inst_of(Opcode::Iconst, typeof_x, 0u32, 0u32, 0u32, y, IntCC::Equal, TrapCode::User(0), 0u8, 0i32, 0u32, 0u32), None, None);
    let (a1, _r1) = (new0, new1);
    let p = p + 1;
    let v = s_replace(v, inst, inst_of(Opcode::Band, value_type_of(v, x), x, a1, 0u32, 0i64, IntCC::Equal, TrapCode::User(0), 0u8, 0i32, 0u32, 0u32));
    Some(v)
}

/// Legalize a `band_imm` instruction by expansion.
fn expand_band_imm(inst: Inst, pos: usize, d: InstData, func: &mut Function) -> (r: bool)
    requires
        pattern_input(old(func)@, inst, pos as int, d),
    ensures
        pattern_outcome(old(func)@, final(func)@, r, expand_band_imm_spec(old(func)@, inst, pos as int, d)),
        final(func).encodings@ == old(func).encodings@,
        func_wf(final(func)@),
        r ==> final(func)@.0.len() > old(func)@.0.len(),
        keeps_before(old(func)@, final(func)@, inst, pos as int),
{
    proof {
        reveal(expand_band_imm_spec);
    }
    let mut p = pos;
    let x = d.arg0;
    let y = d.imm;
    let typeof_x = func.value_type(x);
    let (a1, _r1) = func.ins(p, make_inst(Opcode::Iconst, typeof_x, 0u32, 0u32, 0u32, y, IntCC::Equal, TrapCode::User(0), 0u8, 0i32, 0u32, 0u32), None, None);
    p = p + 1;
    let ty1 = func.value_type(x);
    func.replace(inst, make_inst(Opcode::Band, ty1, x, a1, 0u32, 0i64, IntCC::Equal, TrapCode::User(0), 0u8, 0i32, 0u32, 0u32));
    return true;
}

/// The function after the expansion of a `band_not` instruction, or `None` where no pattern applies.
#[verifier::opaque]
pub open spec fn expand_band_not_spec(v: FuncView, inst: Inst, pos: int, d: InstData) -> Option<FuncView> {
    let p = pos;
    let x = d.arg0;
    let y = d.arg1;
    let typeof_x = value_type_of(v, x);
    let (new0, new1) = s_ins_results(v, inst_of(Opcode::Bnot, value_type_of(v, y), y, 0u32, 0u32, 0i64, IntCC::Equal, TrapCode::User(0), 0u8, 0i32, 0u32, 0u32), None, None);
    let v = s_ins(v, p, inst_of(Opcode::Bnot, value_type_of(v, y), y, 0u32, 0u32, 0i64, IntCC::Equal, TrapCode::User(0), 0u8, 0i32, 0u32, 0u32), None, None);
    let (a1, _r1) = (new0, new1);
    let p = p + 1;
    let v = s_replace(v, inst, inst_of(Opcode::Band, value_type_of(v, x), x, a1, 0u32, 0i64, IntCC::Equal, TrapCode::User(0), 0u8, 0i32, 0u32, 0u32));
    Some(v)
}

/// Legalize a `band_not` instruction by expansion.
fn expand_band_not(inst: Inst, pos: usize, d: InstData, func: &mut Function) -> (r: bool)
    requires
        pattern_input(old(func)@, inst, pos as int, d),
    ensures
        pattern_outcome(old(func)@, final(func)@, r, expand_band_not_spec(old(func)@, inst, pos as int, d)),
        final(func).encodings@ == old(func).encodings@,
        func_wf(final(func)@),
        r ==> final(func)@.0.len() > old(func)@.0.len(),
        keeps_before(old(func)@, final(func)@, inst, pos as int),
{
    proof {
        reveal(expand_band_not_spec);
    }
    let mut p = pos;
    let x = d.arg0;
    let y = d.arg1;
    let typeof_x = func.value_type(x);
    let ty1 = func.value_type(y);
    let (a1, _r1) = func.ins(p, make_inst(Opcode::Bnot, ty1, y, 0u32, 0u32, 0i64, IntCC::Equal, TrapCode::User(0), 0u8, 0i32, 0u32, 0u32), None, None);
    p = p + 1;
    let ty2 = func.value_type(x);
    func.replace(inst, make_inst(Opcode::Band, ty2, x, a1, 0u32, 0i64, IntCC::Equal, TrapCode::User(0), 0u8, 0i32, 0u32, 0u32));
    return true;
}

/// The function after the expansion of a `bitrev` instruction by its pattern number 0.
#[verifier::opaque]
pub open spec fn expand_bitrev_0_spec(v: FuncView, inst: Inst, pos: int, d: InstData) -> Option<FuncView> {
    let p = pos;
    let x = d.arg0;
    let (new0, new1) = s_ins_results(v, inst_of(Opcode::BandImm, value_type_of(v, x), x, 0u32, 0u32, 2863311530i64, IntCC::Equal, TrapCode::User(0), 0u8, 0i32, 0u32, 0u32), None, None);
    let v = s_ins(v, p, inst_of(Opcode::BandImm, value_type_of(v, x), x, 0u32, 0u32, 2863311530i64, IntCC::Equal, TrapCode::User(0), 0u8, 0i32, 0u32, 0u32), None, None);
    let (a1, _r1) = (new0, new1);
    let p = p + 1;
    let (new0, new1) = s_ins_results(v, inst_of(Opcode::UshrImm, value_type_of(v, a1), a1, 0u32, 0u32, 1i64, IntCC::Equal, TrapCode::User(0), 0u8, 0i32, 0u32, 0u32), None, None);
    let v = s_ins(v, p, inst_of(Opcode::UshrImm, value_type_of(v, a1), a1, 0u32, 0u32, 1i64, IntCC::Equal, TrapCode::User(0), 0u8, 0i32, 0u32, 0u32), None, None);
    let (a2, _r1) = (new0, new1);
    let p = p + 1;
    let (new0, new1) = s_ins_results(v, inst_of(Opcode::BandImm, value_type_of(v, x), x, 0u32, 0u32, 1431655765i64, IntCC::Equal, TrapCode::User(0), 0u8, 0i32, 0u32, 0u32), None, None);
    let v = s_ins(v, p, inst_of(Opcode::BandImm, value_type_of(v, x), x, 0u32, 0u32, 1431655765i64, IntCC::Equal, TrapCode::User(0), 0u8, 0i32, 0u32, 0u32), None, None);
    let (a3, _r1) = (new0, new1);
    let p = p + 1;
    let (new0, new1) = s_ins_results(v, inst_of(Opcode::IshlImm, value_type_of(v, a3), a3, 0u32, 0u32, 1i64, IntCC::Equal, TrapCode::User(0), 0u8, 0i32, 0u32, 0u32), None, None);
    let v = s_ins(v, p, inst_of(Opcode::IshlImm, value_type_of(v, a3), a3, 0u32, 0u32, 1i64, IntCC::Equal, TrapCode::User(0), 0u8, 0i32, 0u32, 0u32), None, None);
    let (a4, _r1) = (new0, new1);
    let p = p + 1;
    let (new0, new1) = s_ins_results(v, inst_of(Opcode::Bor, value_type_of(v, a2), a2, a4, 0u32, 0i64, IntCC::Equal, TrapCode::User(0), 0u8, 0i32, 0u32, 0u32), None, None);
    let v = s_ins(v, p, inst_of(Opcode::Bor, value_type_of(v, a2), a2, a4, 0u32, 0i64, IntCC::Equal, TrapCode::User(0), 0u8, 0i32, 0u32, 0u32), None, None);
    let (b, _r1) = (new0, new1);
    let p = p + 1;
    let (new0, new1) = s_ins_results(v, inst_of(Opcode::BandImm, value_type_of(v, b), b, 0u32, 0u32, 3435973836i64, IntCC::Equal, TrapCode::User(0), 0u8, 0i32, 0u32, 0u32), None, None);
    let v = s_ins(v, p, inst_of(Opcode::BandImm, value_type_of(v, b), b, 0u32, 0u32, 3435973836i64, IntCC::Equal, TrapCode::User(0), 0u8, 0i32, 0u32, 0u32), None, None);
    let (b1, _r1) = (new0, new1);
    let p = p + 1;
    let (new0, new1) = s_ins_results(v, inst_of(Opcode::UshrImm, value_type_of(v, b1), b1, 0u32, 0u32, 2i64, IntCC::Equal, TrapCode::User(0), 0u8, 0i32, 0u32, 0u32), None, None);
    let v = s_ins(v, p, inst_of(Opcode::UshrImm, value_type_of(v, b1), b1, 0u32, 0u32, 2i64, IntCC::Equal, TrapCode::User(0), 0u8, 0i32, 0u32, 0u32), None, None);
    let (b2, _r1) = (new0, new1);
    let p = p + 1;
    let (new0, new1) = s_ins_results(v, inst_of(Opcode::BandImm, value_type_of(v, b), b, 0u32, 0u32, 858993459i64, IntCC::Equal, TrapCode::User(0), 0u8, 0i32, 0u32, 0u32), None, None);
    let v = s_ins(v, p, inst_of(Opcode::BandImm, value_type_of(v, b), b, 0u32, 0u32, 858993459i64, IntCC::Equal, TrapCode::User(0), 0u8, 0i32, 0u32, 0u32), None, None);
    let (b3, _r1) = (new0, new1);
    let p = p + 1;
    let (new0, new1) = s_ins_results(v, inst_of(Opcode::IshlImm, value_type_of(v, b3), b3, 0u32, 0u32, 2i64, IntCC::Equal, TrapCode::User(0), 0u8, 0i32, 0u32, 0u32), None, None);
    let v = s_ins(v, p, inst_of(Opcode::IshlImm, value_type_of(v, b3), b3, 0u32, 0u32, 2i64, IntCC::Equal, TrapCode::User(0), 0u8, 0i32, 0u32, 0u32), None, None);
    let (b4, _r1) = (new0, new1);
    let p = p + 1;
    let (new0, new1) = s_ins_results(v, inst_of(Opcode::Bor, value_type_of(v, b2), b2, b4, 0u32, 0i64, IntCC::Equal, TrapCode::User(0), 0u8, 0i32, 0u32, 0u32), None, None);
    let v = s_ins(v, p, inst_of(Opcode::Bor, value_type_of(v, b2), b2, b4, 0u32, 0i64, IntCC::Equal, TrapCode::User(0), 0u8, 0i32, 0u32, 0u32), None, None);
    let (c, _r1) = (new0, new1);
    let p = p + 1;
    let (new0, new1) = s_ins_results(v, inst_of(Opcode::BandImm, value_type_of(v, c), c, 0u32, 0u32, 4042322160i64, IntCC::Equal, TrapCode::User(0), 0u8, 0i32, 0u32, 0u32), None, None);
    let v = s_ins(v, p, inst_of(Opcode::BandImm, value_type_of(v, c), c, 0u32, 0u32, 4042322160i64, IntCC::Equal, TrapCode::User(0), 0u8, 0i32, 0u32, 0u32), None, None);
    let (c1, _r1) = (new0, new1);
    let p = p + 1;
    let (new0, new1) = s_ins_results(v, inst_of(Opcode::UshrImm, value_type_of(v, c1), c1, 0u32, 0u32, 4i64, IntCC::Equal, TrapCode::User(0), 0u8, 0i32, 0u32, 0u32), None, None);
    let v = s_ins(v, p, inst_of(Opcode::UshrImm, value_type_of(v, c1), c1, 0u32, 0u32, 4i64, IntCC::Equal, TrapCode::User(0), 0u8, 0i32, 0u32, 0u32), None, None);
    let (c2, _r1) = (new0, new1);
    let p = p + 1;
    let (new0, new1) = s_ins_results(v, inst_of(Opcode::BandImm, value_type_of(v, c), c, 0u32, 0u32, 252645135i64, IntCC::Equal, TrapCode::User(0), 0u8, 0i32, 0u32, 0u32), None, None);
    let v = s_ins(v, p, inst_of(Opcode::BandImm, value_type_of(v, c), c, 0u32, 0u32, 252645135i64, IntCC::Equal, TrapCode::User(0), 0u8, 0i32, 0u32, 0u32), None, None);
    let (c3, _r1) = (new0, new1);
    let p = p + 1;
    let (new0, new1) = s_ins_results(v, inst_of(Opcode::IshlImm, value_type_of(v, c3), c3, 0u32, 0u32, 4i64, IntCC::Equal, TrapCode::User(0), 0u8, 0i32, 0u32, 0u32), None, None);
    let v = s_ins(v, p, inst_of(Opcode::IshlImm, value_type_of(v, c3), c3, 0u32, 0u32, 4i64, IntCC::Equal, TrapCode::User(0), 0u8, 0i32, 0u32, 0u32), None, None);
    let (c4, _r1) = (new0, new1);
    let p = p + 1;
    let (new0, new1) = s_ins_results(v, inst_of(Opcode::Bor, value_type_of(v, c2), c2, c4, 0u32, 0i64, IntCC::Equal, TrapCode::User(0), 0u8, 0i32, 0u32, 0u32), None, None);
    let v = s_ins(v, p, inst_of(Opcode::Bor, value_type_of(v, c2), c2, c4, 0u32, 0i64, IntCC::Equal, TrapCode::User(0), 0u8, 0i32, 0u32, 0u32), None, None);
    let (d, _r1) = (new0, new1);
    let p = p + 1;
    let (new0, new1) = s_ins_results(v, inst_of(Opcode::BandImm, value_type_of(v, d), d, 0u32, 0u32, 4278255360i64, IntCC::Equal, TrapCode::User(0), 0u8, 0i32, 0u32, 0u32), None, None);
    let v = s_ins(v, p, inst_of(Opcode::BandImm, value_type_of(v, d), d, 0u32, 0u32, 4278255360i64, IntCC::Equal, TrapCode::User(0), 0u8, 0i32, 0u32, 0u32), None, None);
    let (d1, _r1) = (new0, new1);
    let p = p + 1;
    let (new0, new1) = s_ins_results(v, inst_of(Opcode::UshrImm, value_type_of(v, d1), d1, 0u32, 0u32, 8i64, IntCC::Equal, TrapCode::User(0), 0u8, 0i32, 0u32, 0u32), None, None);
    let v = s_ins(v, p, inst_of(Opcode::UshrImm, value_type_of(v, d1), d1, 0u32, 0u32, 8i64, IntCC::Equal, TrapCode::User(0), 0u8, 0i32, 0u32, 0u32), None, None);
    let (d2, _r1) = (new0, new1);
    let p = p + 1;
    let (new0, new1) = s_ins_results(v, inst_of(Opcode::BandImm, value_type_of(v, d), d, 0u32, 0u32, 16711935i64, IntCC::Equal, TrapCode::User(0), 0u8, 0i32, 0u32, 0u32), None, None);
    let v = s_ins(v, p, inst_of(Opcode::BandImm, value_type_of(v, d), d, 0u32, 0u32, 16711935i64, IntCC::Equal, TrapCode::User(0), 0u8, 0i32, 0u32, 0u32), None, None);
    let (d3, _r1) = (new0, new1);
    let p = p + 1;
    let (new0, new1) = s_ins_results(v, inst_of(Opcode::IshlImm, value_type_of(v, d3), d3, 0u32, 0u32, 8i64, IntCC::Equal, TrapCode::User(0), 0u8, 0i32, 0u32, 0u32), None, None);
    let v = s_ins(v, p, inst_of(Opcode::IshlImm, value_type_of(v, d3), d3, 0u32, 0u32, 8i64, IntCC::Equal, TrapCode::User(0), 0u8, 0i32, 0u32, 0u32), None, None);
    let (d4, _r1) = (new0, new1);
    let p = p + 1;
    let (new0, new1) = s_ins_results(v, inst_of(Opcode::Bor, value_type_of(v, d2), d2, d4, 0u32, 0i64, IntCC::Equal, TrapCode::User(0), 0u8, 0i32, 0u32, 0u32), None, None);
    let v = s_ins(v, p, inst_of(Opcode::Bor, value_type_of(v, d2), d2, d4, 0u32, 0i64, IntCC::Equal, TrapCode::User(0), 0u8, 0i32, 0u32, 0u32), None, None);
    let (e, _r1) = (new0, new1);
    let p = p + 1;
    let (new0, new1) = s_ins_results(v, inst_of(Opcode::UshrImm, value_type_of(v, e), e, 0u32, 0u32, 16i64, IntCC::Equal, TrapCode::User(0), 0u8, 0i32, 0u32, 0u32), None, None);
    let v = s_ins(v, p, inst_of(Opcode::UshrImm, value_type_of(v, e), e, 0u32, 0u32, 16i64, IntCC::Equal, TrapCode::User(0), 0u8, 0i32, 0u32, 0u32), None, None);
    let (e1, _r1) = (new0, new1);
    let p = p + 1;
    let (new0, new1) = s_ins_results(v, inst_of(Opcode::IshlImm, value_type_of(v, e), e, 0u32, 0u32, 16i64, IntCC::Equal, TrapCode::User(0), 0u8, 0i32, 0u32, 0u32), None, None);
    let v = s_ins(v, p, inst_of(Opcode::IshlImm, value_type_of(v, e), e, 0u32, 0u32, 16i64, IntCC::Equal, TrapCode::User(0), 0u8, 0i32, 0u32, 0u32), None, None);
    let (e2, _r1) = (new0, new1);
    let p = p + 1;
    let v = s_replace(v, inst, inst_of(Opcode::Bor, value_type_of(v, e1), e1, e2, 0u32, 0i64, IntCC::Equal, TrapCode::User(0), 0u8, 0i32, 0u32, 0u32));
    Some(v)
}

/// Legalize a `bitrev` instruction by expansion, with its pattern number 0.
#[verifier::rlimit(100)]
fn expand_bitrev_0(inst: Inst, pos: usize, d: InstData, func: &mut Function) -> (r: bool)
    requires
        pattern_input(old(func)@, inst, pos as int, d),
    ensures
        pattern_outcome(old(func)@, final(func)@, r, expand_bitrev_0_spec(old(func)@, inst, pos as int, d)),
        final(func).encodings@ == old(func).encodings@,
        func_wf(final(func)@),
        r ==> final(func)@.0.len() > old(func)@.0.len(),
        keeps_before(old(func)@, final(func)@, inst, pos as int),
{
    proof {
        reveal(expand_bitrev_0_spec);
    }
    let mut p = pos;
    let x = d.arg0;
    let ty1 = func.value_type(x);
    let (a1, _r1) = func.ins(p, make_inst(Opcode::BandImm, ty1, x, 0u32, 0u32, 2863311530i64, IntCC::Equal, TrapCode::User(0), 0u8, 0i32, 0u32, 0u32), None, None);
    p = p + 1;
    let ty2 = func.value_type(a1);
    let (a2, _r1) = func.ins(p, make_inst(Opcode::UshrImm, ty2, a1, 0u32, 0u32, 1i64, IntCC::Equal, TrapCode::User(0), 0u8, 0i32, 0u32, 0u32), None, None);
    p = p + 1;
    let ty3 = func.value_type(x);
    let (a3, _r1) = func.ins(p, make_inst(Opcode::BandImm, ty3, x, 0u32, 0u32, 1431655765i64, IntCC::Equal, TrapCode::User(0), 0u8, 0i32, 0u32, 0u32), None, None);
    p = p + 1;
    let ty4 = func.value_type(a3);
    let (a4, _r1) = func.ins(p, make_inst(Opcode::IshlImm, ty4, a3, 0u32, 0u32, 1i64, IntCC::Equal, TrapCode::User(0), 0u8, 0i32, 0u32, 0u32), None, None);
    p = p + 1;
    let ty5 = func.value_type(a2);
    let (b, _r1) = func.ins(p, make_inst(Opcode::Bor, ty5, a2, a4, 0u32, 0i64, IntCC::Equal, TrapCode::User(0), 0u8, 0i32, 0u32, 0u32), None, None);
    p = p + 1;
    let ty6 = func.value_type(b);
    let (b1, _r1) = func.ins(p, make_inst(Opcode::BandImm, ty6, b, 0u32, 0u32, 3435973836i64, IntCC::Equal, TrapCode::User(0), 0u8, 0i32, 0u32, 0u32), None, None);
    p = p + 1;
    let ty7 = func.value_type(b1);
    let (b2, _r1) = func.ins(p, make_inst(Opcode::UshrImm, ty7, b1, 0u32, 0u32, 2i64, IntCC::Equal, TrapCode::User(0), 0u8, 0i32, 0u32, 0u32), None, None);
    p = p + 1;
    let ty8 = func.value_type(b);
    let (b3, _r1) = func.ins(p, make_inst(Opcode::BandImm, ty8, b, 0u32, 0u32, 858993459i64, IntCC::Equal, TrapCode::User(0), 0u8, 0i32, 0u32, 0u32), None, None);
    p = p + 1;
    let ty9 = func.value_type(b3);
    let (b4, _r1) = func.ins(p, make_inst(Opcode::IshlImm, ty9, b3, 0u32, 0u32, 2i64, IntCC::Equal, TrapCode::User(0), 0u8, 0i32, 0u32, 0u32), None, None);
    p = p + 1;
    let ty10 = func.value_type(b2);
    let (c, _r1) = func.ins(p, make_inst(Opcode::Bor, ty10, b2, b4, 0u32, 0i64, IntCC::Equal, TrapCode::User(0), 0u8, 0i32, 0u32, 0u32), None, None);
    p = p + 1;
    let ty11 = func.value_type(c);
    let (c1, _r1) = func.ins(p, make_inst(Opcode::BandImm, ty11, c, 0u32, 0u32, 4042322160i64, IntCC::Equal, TrapCode::User(0), 0u8, 0i32, 0u32, 0u32), None, None);
    p = p + 1;
    let ty12 = func.value_type(c1);
    let (c2, _r1) = func.ins(p, make_inst(Opcode::UshrImm, ty12, c1, 0u32, 0u32, 4i64, IntCC::Equal, TrapCode::User(0), 0u8, 0i32, 0u32, 0u32), None, None);
    p = p + 1;
    let ty13 = func.value_type(c);
    let (c3, _r1) = func.ins(p, make_inst(Opcode::BandImm, ty13, c, 0u32, 0u32, 252645135i64, IntCC::Equal, TrapCode::User(0), 0u8, 0i32, 0u32, 0u32), None, None);
    p = p + 1;
    let ty14 = func.value_type(c3);
    let (c4, _r1) = func.ins(p, make_inst(Opcode::IshlImm, ty14, c3, 0u32, 0u32, 4i64, IntCC::Equal, TrapCode::User(0), 0u8, 0i32, 0u32, 0u32), None, None);
    p = p + 1;
    let ty15 = func.value_type(c2);
    let (d, _r1) = func.ins(p, make_inst(Opcode::Bor, ty15, c2, c4, 0u32, 0i64, IntCC::Equal, TrapCode::User(0), 0u8, 0i32, 0u32, 0u32), None, None);
    p = p + 1;
    let ty16 = func.value_type(d);
    let (d1, _r1) = func.ins(p, make_inst(Opcode::BandImm, ty16, d, 0u32, 0u32, 4278255360i64, IntCC::Equal, TrapCode::User(0), 0u8, 0i32, 0u32, 0u32), None, None);
    p = p + 1;
    let ty17 = func.value_type(d1);
    let (d2, _r1) = func.ins(p, make_inst(Opcode::UshrImm, ty17, d1, 0u32, 0u32, 8i64, IntCC::Equal, TrapCode::User(0), 0u8, 0i32, 0u32, 0u32), None, None);
    p = p + 1;
    let ty18 = func.value_type(d);
    let (d3, _r1) = func.ins(p, make_inst(Opcode::BandImm, ty18, d, 0u32, 0u32, 16711935i64, IntCC::Equal, TrapCode::User(0), 0u8, 0i32, 0u32, 0u32), None, None);
    p = p + 1;
    let ty19 = func.value_type(d3);
    let (d4, _r1) = func.ins(p, make_inst(Opcode::IshlImm, ty19, d3, 0u32, 0u32, 8i64, IntCC::Equal, TrapCode::User(0), 0u8, 0i32, 0u32, 0u32), None, None);
    p = p + 1;
    let ty20 = func.value_type(d2);
    let (e, _r1) = func.ins(p, make_inst(Opcode::Bor, ty20, d2, d4, 0u32, 0i64, IntCC::Equal, TrapCode::User(0), 0u8, 0i32, 0u32, 0u32), None, None);
    p = p + 1;
    let ty21 = func.value_type(e);
    let (e1, _r1) = func.ins(p, make_inst(Opcode::UshrImm, ty21, e, 0u32, 0u32, 16i64, IntCC::Equal, TrapCode::User(0), 0u8, 0i32, 0u32, 0u32), None, None);
    p = p + 1;
    let ty22 = func.value_type(e);
    let (e2, _r1) = func.ins(p, make_inst(Opcode::IshlImm, ty22, e, 0u32, 0u32, 16i64, IntCC::Equal, TrapCode::User(0), 0u8, 0i32, 0u32, 0u32), None, None);
    p = p + 1;
    let ty23 = func.value_type(e1);
    func.replace(inst, make_inst(Opcode::Bor, ty23, e1, e2, 0u32, 0i64, IntCC::Equal, TrapCode::User(0), 0u8, 0i32, 0u32, 0u32));
    return true;
}

/// The function after the expansion of a `bitrev` instruction by its pattern number 1.
#[verifier::opaque]
pub open spec fn expand_bitrev_1_spec(v: FuncView, inst: Inst, pos: int, d: InstData) -> Option<FuncView> {
    let p = pos;
    let x = d.arg0;
    let (new0, new1) = s_ins_results(v, inst_of(Opcode::BandImm, value_type_of(v, x), x, 0u32, 0u32, -6148914691236517206i64, IntCC::Equal, TrapCode::User(0), 0u8, 0i32, 0u32, 0u32), None, None);
    let v = s_ins(v, p, inst_of(Opcode::BandImm, value_type_of(v, x), x, 0u32, 0u32, -6148914691236517206i64, IntCC::Equal, TrapCode::User(0), 0u8, 0i32, 0u32, 0u32), None, None);
    let (a1, _r1) = (new0, new1);
    let p = p + 1;
    let (new0, new1) = s_ins_results(v, inst_of(Opcode::UshrImm, value_type_of(v, a1), a1, 0u32, 0u32, 1i64, IntCC::Equal, TrapCode::User(0), 0u8, 0i32, 0u32, 0u32), None, None);
    let v = s_ins(v, p, inst_of(Opcode::UshrImm, value_type_of(v, a1), a1, 0u32, 0u32, 1i64, IntCC::Equal, TrapCode::User(0), 0u8, 0i32, 0u32, 0u32), None, None);
    let (a2, _r1) = (new0, new1);
    let p = p + 1;
    let (new0, new1) = s_ins_results(v, inst_of(Opcode::BandImm, value_type_of(v, x), x, 0u32, 0u32, 6148914691236517205i64, IntCC::Equal, TrapCode::User(0), 0u8, 0i32, 0u32, 0u32), None, None);
    let v = s_ins(v, p, inst_of(Opcode::BandImm, value_type_of(v, x), x, 0u32, 0u32, 6148914691236517205i64, IntCC::Equal, TrapCode::User(0), 0u8, 0i32, 0u32, 0u32), None, None);
    let (a3, _r1) = (new0, new1);
    let p = p + 1;
    let (new0, new1) = s_ins_results(v, inst_of(Opcode::IshlImm, value_type_of(v, a3), a3, 0u32, 0u32, 1i64, IntCC::Equal, TrapCode::User(0), 0u8, 0i32, 0u32, 0u32), None, None);
    let v = s_ins(v, p, inst_of(Opcode::IshlImm, value_type_of(v, a3), a3, 0u32, 0u32, 1i64, IntCC::Equal, TrapCode::User(0), 0u8, 0i32, 0u32, 0u32), None, None);
    let (a4, _r1) = (new0, new1);
    let p = p + 1;
    let (new0, new1) = s_ins_results(v, inst_of(Opcode::Bor, value_type_of(v, a2), a2, a4, 0u32, 0i64, IntCC::Equal, TrapCode::User(0), 0u8, 0i32, 0u32, 0u32), None, None);
    let v = s_ins(v, p, inst_of(Opcode::Bor, value_type_of(v, a2), a2, a4, 0u32, 0i64, IntCC::Equal, TrapCode::User(0), 0u8, 0i32, 0u32, 0u32), None, None);
    let (b, _r1) = (new0, new1);
    let p = p + 1;
    let (new0, new1) = s_ins_results(v, inst_of(Opcode::BandImm, value_type_of(v, b), b, 0u32, 0u32, -3689348814741910324i64, IntCC::Equal, TrapCode::User(0), 0u8, 0i32, 0u32, 0u32), None, None);
    let v = s_ins(v, p, inst_of(Opcode::BandImm, value_type_of(v, b), b, 0u32, 0u32, -3689348814741910324i64, IntCC::Equal, TrapCode::User(0), 0u8, 0i32, 0u32, 0u32), None, None);
    let (b1, _r1) = (new0, new1);
    let p = p + 1;
    let (new0, new1) = s_ins_results(v, inst_of(Opcode::UshrImm, value_type_of(v, b1), b1, 0u32, 0u32, 2i64, IntCC::Equal, TrapCode::User(0), 0u8, 0i32, 0u32, 0u32), None, None);
    let v = s_ins(v, p, inst_of(Opcode::UshrImm, value_type_of(v, b1), b1, 0u32, 0u32, 2i64, IntCC::Equal, TrapCode::User(0), 0u8, 0i32, 0u32, 0u32), None, None);
    let (b2, _r1) = (new0, new1);
    let p = p + 1;
    let (new0, new1) = s_ins_results(v, inst_of(Opcode::BandImm, value_type_of(v, b), b, 0u32, 0u32, 3689348814741910323i64, IntCC::Equal, TrapCode::User(0), 0u8, 0i32, 0u32, 0u32), None, None);
    let v = s_ins(v, p, inst_of(Opcode::BandImm, value_type_of(v, b), b, 0u32, 0u32, 3689348814741910323i64, IntCC::Equal, TrapCode::User(0), 0u8, 0i32, 0u32, 0u32), None, None);
    let (b3, _r1) = (new0, new1);
    let p = p + 1;
    let (new0, new1) = s_ins_results(v, inst_of(Opcode::IshlImm, value_type_of(v, b3), b3, 0u32, 0u32, 2i64, IntCC::Equal, TrapCode::User(0), 0u8, 0i32, 0u32, 0u32), None, None);
    let v = s_ins(v, p, inst_of(Opcode::IshlImm, value_type_of(v, b3), b3, 0u32, 0u32, 2i64, IntCC::Equal, TrapCode::User(0), 0u8, 0i32, 0u32, 0u32), None, None);
    let (b4, _r1) = (new0, new1);
    let p = p + 1;
    let (new0, new1) = s_ins_results(v, inst_of(Opcode::Bor, value_type_of(v, b2), b2, b4, 0u32, 0i64, IntCC::Equal, TrapCode::User(0), 0u8, 0i32, 0u32, 0u32), None, None);
    let v = s_ins(v, p, inst_of(Opcode::Bor, value_type_of(v, b2), b2, b4, 0u32, 0i64, IntCC::Equal, TrapCode::User(0), 0u8, 0i32, 0u32, 0u32), None, None);
    let (c, _r1) = (new0, new1);
    let p = p + 1;
    let (new0, new1) = s_ins_results(v, inst_of(Opcode::BandImm, value_type_of(v, c), c, 0u32, 0u32, -1085102592571150096i64, IntCC::Equal, TrapCode::User(0), 0u8, 0i32, 0u32, 0u32), None, None);
    let v = s_ins(v, p, inst_of(Opcode::BandImm, value_type_of(v, c), c, 0u32, 0u32, -1085102592571150096i64, IntCC::Equal, TrapCode::User(0), 0u8, 0i32, 0u32, 0u32), None, None);
    let (c1, _r1) = (new0, new1);
    let p = p + 1;
    let (new0, new1) = s_ins_results(v, inst_of(Opcode::UshrImm, value_type_of(v, c1), c1, 0u32, 0u32, 4i64, IntCC::Equal, TrapCode::User(0), 0u8, 0i32, 0u32, 0u32), None, None);
    let v = s_ins(v, p, inst_of(Opcode::UshrImm, value_type_of(v, c1), c1, 0u32, 0u32, 4i64, IntCC::Equal, TrapCode::User(0), 0u8, 0i32, 0u32, 0u32), None, None);
    let (c2, _r1) = (new0, new1);
    let p = p + 1;
    let (new0, new1) = s_ins_results(v, inst_of(Opcode::BandImm, value_type_of(v, c), c, 0u32, 0u32, 1085102592571150095i64, IntCC::Equal, TrapCode::User(0), 0u8, 0i32, 0u32, 0u32), None, None);
    let v = s_ins(v, p, inst_of(Opcode::BandImm, value_type_of(v, c), c, 0u32, 0u32, 1085102592571150095i64, IntCC::Equal, TrapCode::User(0), 0u8, 0i32, 0u32, 0u32), None, None);
    let (c3, _r1) = (new0, new1);
    let p = p + 1;
    let (new0, new1) = s_ins_results(v, inst_of(Opcode::IshlImm, value_type_of(v, c3), c3, 0u32, 0u32, 4i64, IntCC::Equal, TrapCode::User(0), 0u8, 0i32, 0u32, 0u32), None, None);
    let v = s_ins(v, p, inst_of(Opcode::IshlImm, value_type_of(v, c3), c3, 0u32, 0u32, 4i64, IntCC::Equal, TrapCode::User(0), 0u8, 0i32, 0u32, 0u32), None, None);
    let (c4, _r1) = (new0, new1);
    let p = p + 1;
    let (new0, new1) = s_ins_results(v, inst_of(Opcode::Bor, value_type_of(v, c2), c2, c4, 0u32, 0i64, IntCC::Equal, TrapCode::User(0), 0u8, 0i32, 0u32, 0u32), None, None);
    let v = s_ins(v, p, inst_of(Opcode::Bor, value_type_of(v, c2), c2, c4, 0u32, 0i64, IntCC::Equal, TrapCode::User(0), 0u8, 0i32, 0u32, 0u32), None, None);
    let (d, _r1) = (new0, new1);
    let p = p + 1;
    let (new0, new1) = s_ins_results(v, inst_of(Opcode::BandImm, value_type_of(v, d), d, 0u32, 0u32, -71777214294589696i64, IntCC::Equal, TrapCode::User(0), 0u8, 0i32, 0u32, 0u32), None, None);
    let v = s_ins(v, p, inst_of(Opcode::BandImm, value_type_of(v, d), d, 0u32, 0u32, -71777214294589696i64, IntCC::Equal, TrapCode::User(0), 0u8, 0i32, 0u32, 0u32), None, None);
    let (d1, _r1) = (new0, new1);
    let p = p + 1;
    let (new0, new1) = s_ins_results(v, inst_of(Opcode::UshrImm, value_type_of(v, d1), d1, 0u32, 0u32, 8i64, IntCC::Equal, TrapCode::User(0), 0u8, 0i32, 0u32, 0u32), None, None);
    let v = s_ins(v, p, inst_of(Opcode::UshrImm, value_type_of(v, d1), d1, 0u32, 0u32, 8i64, IntCC::Equal, TrapCode::User(0), 0u8, 0i32, 0u32, 0u32), None, None);
    let (d2, _r1) = (new0, new1);
    let p = p + 1;
    let (new0, new1) = s_ins_results(v, inst_of(Opcode::BandImm, value_type_of(v, d), d, 0u32, 0u32, 71777214294589695i64, IntCC::Equal, TrapCode::User(0), 0u8, 0i32, 0u32, 0u32), None, None);
    let v = s_ins(v, p, inst_of(Opcode::BandImm, value_type_of(v, d), d, 0u32, 0u32, 71777214294589695i64, IntCC::Equal, TrapCode::User(0), 0u8, 0i32, 0u32, 0u32), None, None);
    let (d3, _r1) = (new0, new1);
    let p = p + 1;
    let (new0, new1) = s_ins_results(v, inst_of(Opcode::IshlImm, value_type_of(v, d3), d3, 0u32, 0u32, 8i64, IntCC::Equal, TrapCode::User(0), 0u8, 0i32, 0u32, 0u32), None, None);
    let v = s_ins(v, p, inst_of(Opcode::IshlImm, value_type_of(v, d3), d3, 0u32, 0u32, 8i64, IntCC::Equal, TrapCode::User(0), 0u8, 0i32, 0u32, 0u32), None, None);
    let (d4, _r1) = (new0, new1);
    let p = p + 1;
    let (new0, new1) = s_ins_results(v, inst_of(Opcode::Bor, value_type_of(v, d2), d2, d4, 0u32, 0i64, IntCC::Equal, TrapCode::User(0), 0u8, 0i32, 0u32, 0u32), None, None);
    let v = s_ins(v, p, inst_of(Opcode::Bor, value_type_of(v, d2), d2, d4, 0u32, 0i64, IntCC::Equal, TrapCode::User(0), 0u8, 0i32, 0u32, 0u32), None, None);
    let (e, _r1) = (new0, new1);
    let p = p + 1;
    let (new0, new1) = s_ins_results(v, inst_of(Opcode::BandImm, value_type_of(v, e), e, 0u32, 0u32, -281470681808896i64, IntCC::Equal, TrapCode::User(0), 0u8, 0i32, 0u32, 0u32), None, None);
    let v = s_ins(v, p, inst_of(Opcode::BandImm, value_type_of(v, e), e, 0u32, 0u32, -281470681808896i64, IntCC::Equal, TrapCode::User(0), 0u8, 0i32, 0u32, 0u32), None, None);
    let (e1, _r1) = (new0, new1);
    let p = p + 1;
    let (new0, new1) = s_ins_results(v, inst_of(Opcode::UshrImm, value_type_of(v, e1), e1, 0u32, 0u32, 16i64, IntCC::Equal, TrapCode::User(0), 0u8, 0i32, 0u32, 0u32), None, None);
    let v = s_ins(v, p, inst_of(Opcode::UshrImm, value_type_of(v, e1), e1, 0u32, 0u32, 16i64, IntCC::Equal, TrapCode::User(0), 0u8, 0i32, 0u32, 0u32), None, None);
    let (e2, _r1) = (new0, new1);
    let p = p + 1;
    let (new0, new1) = s_ins_results(v, inst_of(Opcode::BandImm, value_type_of(v, e), e, 0u32, 0u32, 281470681808895i64, IntCC::Equal, TrapCode::User(0), 0u8, 0i32, 0u32, 0u32), None, None);
    let v = s_ins(v, p, inst_of(Opcode::BandImm, value_type_of(v, e), e, 0u32, 0u32, 281470681808895i64, IntCC::Equal, TrapCode::User(0), 0u8, 0i32, 0u32, 0u32), None, None);
    let (e3, _r1) = (new0, new1);
    let p = p + 1;
    let (new0, new1) = s_ins_results(v, inst_of(Opcode::IshlImm, value_type_of(v, e3), e3, 0u32, 0u32, 16i64, IntCC::Equal, TrapCode::User(0), 0u8, 0i32, 0u32, 0u32), None, None);
    let v = s_ins(v, p, inst_of(Opcode::IshlImm, value_type_of(v, e3), e3, 0u32, 0u32, 16i64, IntCC::Equal, TrapCode::User(0), 0u8, 0i32, 0u32, 0u32), None, None);
    let (e4, _r1) = (new0, new1);
    let p = p + 1;
    let (new0, new1) = s_ins_results(v, inst_of(Opcode::Bor, value_type_of(v, e2), e2, e4, 0u32, 0i64, IntCC::Equal, TrapCode::User(0), 0u8, 0i32, 0u32, 0u32), None, None);
    let v = s_ins(v, p, inst_of(Opcode::Bor, value_type_of(v, e2), e2, e4, 0u32, 0i64, IntCC::Equal, TrapCode::User(0), 0u8, 0i32, 0u32, 0u32), None, None);
    let (f, _r1) = (new0, new1);
    let p = p + 1;
    let (new0, new1) = s_ins_results(v, inst_of(Opcode::UshrImm, value_type_of(v, f), f, 0u32, 0u32, 32i64, IntCC::Equal, TrapCode::User(0), 0u8, 0i32, 0u32, 0u32), None, None);
    let v = s_ins(v, p, inst_of(Opcode::UshrImm, value_type_of(v, f), f, 0u32, 0u32, 32i64, IntCC::Equal, TrapCode::User(0), 0u8, 0i32, 0u32, 0u32), None, None);
    let (f1, _r1) = (new0, new1);
    let p = p + 1;
    let (new0, new1) = s_ins_results(v, inst_of(Opcode::IshlImm, value_type_of(v, f), f, 0u32, 0u32, 32i64, IntCC::Equal, TrapCode::User(0), 0u8, 0i32, 0u32, 0u32), None, None);
    let v = s_ins(v, p, inst_of(Opcode::IshlImm, value_type_of(v, f), f, 0u32, 0u32, 32i64, IntCC::Equal, TrapCode::User(0), 0u8, 0i32, 0u32, 0u32), None, None);
    let (f2, _r1) = (new0, new1);
    let p = p + 1;
    let v = s_replace(v, inst, inst_of(Opcode::Bor, value_type_of(v, f1), f1, f2, 0u32, 0i64, IntCC::Equal, TrapCode::User(0), 0u8, 0i32, 0u32, 0u32));
    Some(v)
}

/// Legalize a `bitrev` instruction by expansion, with its pattern number 1.
#[verifier::rlimit(100)]
fn expand_bitrev_1(inst: Inst, pos: usize, d: InstData, func: &mut Function) -> (r: bool)
    requires
        pattern_input(old(func)@, inst, pos as int, d),
    ensures
        pattern_outcome(old(func)@, final(func)@, r, expand_bitrev_1_spec(old(func)@, inst, pos as int, d)),
        final(func).encodings@ == old(func).encodings@,
        func_wf(final(func)@),
        r ==> final(func)@.0.len() > old(func)@.0.len(),
        keeps_before(old(func)@, final(func)@, inst, pos as int),
{
    proof {
        reveal(expand_bitrev_1_spec);
    }
    let mut p = pos;
    let x = d.arg0;
    let ty24 = func.value_type(x);
    let (a1, _r1) = func.ins(p, make_inst(Opcode::BandImm, ty24, x, 0u32, 0u32, -6148914691236517206i64, IntCC::Equal, TrapCode::User(0), 0u8, 0i32, 0u32, 0u32), None, None);
    p = p + 1;
    let ty25 = func.value_type(a1);
    let (a2, _r1) = func.ins(p, make_inst(Opcode::UshrImm, ty25, a1, 0u32, 0u32, 1i64, IntCC::Equal, TrapCode::User(0), 0u8, 0i32, 0u32, 0u32), None, None);
    p = p + 1;
    let ty26 = func.value_type(x);
    let (a3, _r1) = func.ins(p, make_inst(Opcode::BandImm, ty26, x, 0u32, 0u32, 6148914691236517205i64, IntCC::Equal, TrapCode::User(0), 0u8, 0i32, 0u32, 0u32), None, None);
    p = p + 1;
    let ty27 = func.value_type(a3);
    let (a4, _r1) = func.ins(p, make_inst(Opcode::IshlImm, ty27, a3, 0u32, 0u32, 1i64, IntCC::Equal, TrapCode::User(0), 0u8, 0i32, 0u32, 0u32), None, None);
    p = p + 1;
    let ty28 = func.value_type(a2);
    let (b, _r1) = func.ins(p, make_inst(Opcode::Bor, ty28, a2, a4, 0u32, 0i64, IntCC::Equal, TrapCode::User(0), 0u8, 0i32, 0u32, 0u32), None, None);
    p = p + 1;
    let ty29 = func.value_type(b);
    let (b1, _r1) = func.ins(p, make_inst(Opcode::BandImm, ty29, b, 0u32, 0u32, -3689348814741910324i64, IntCC::Equal, TrapCode::User(0), 0u8, 0i32, 0u32, 0u32), None, None);
    p = p + 1;
    let ty30 = func.value_type(b1);
    let (b2, _r1) = func.ins(p, make_inst(Opcode::UshrImm, ty30, b1, 0u32, 0u32, 2i64, IntCC::Equal, TrapCode::User(0), 0u8, 0i32, 0u32, 0u32), None, None);
    p = p + 1;
    let ty31 = func.value_type(b);
    let (b3, _r1) = func.ins(p, make_inst(Opcode::BandImm, ty31, b, 0u32, 0u32, 3689348814741910323i64, IntCC::Equal, TrapCode::User(0), 0u8, 0i32, 0u32, 0u32), None, None);
    p = p + 1;
    let ty32 = func.value_type(b3);
    let (b4, _r1) = func.ins(p, make_inst(Opcode::IshlImm, ty32, b3, 0u32, 0u32, 2i64, IntCC::Equal, TrapCode::User(0), 0u8, 0i32, 0u32, 0u32), None, None);
    p = p + 1;
    let ty33 = func.value_type(b2);
    let (c, _r1) = func.ins(p, make_inst(Opcode::Bor, ty33, b2, b4, 0u32, 0i64, IntCC::Equal, TrapCode::User(0), 0u8, 0i32, 0u32, 0u32), None, None);
    p = p + 1;
    let ty34 = func.value_type(c);
    let (c1, _r1) = func.ins(p, make_inst(Opcode::BandImm, ty34, c, 0u32, 0u32, -1085102592571150096i64, IntCC::Equal, TrapCode::User(0), 0u8, 0i32, 0u32, 0u32), None, None);
    p = p + 1;
    let ty35 = func.value_type(c1);
    let (c2, _r1) = func.ins(p, make_inst(Opcode::UshrImm, ty35, c1, 0u32, 0u32, 4i64, IntCC::Equal, TrapCode::User(0), 0u8, 0i32, 0u32, 0u32), None, None);
    p = p + 1;
    let ty36 = func.value_type(c);
    let (c3, _r1) = func.ins(p, make_inst(Opcode::BandImm, ty36, c, 0u32, 0u32, 1085102592571150095i64, IntCC::Equal, TrapCode::User(0), 0u8, 0i32, 0u32, 0u32), None, None);
    p = p + 1;
    let ty37 = func.value_type(c3);
    let (c4, _r1) = func.ins(p, make_inst(Opcode::IshlImm, ty37, c3, 0u32, 0u32, 4i64, IntCC::Equal, TrapCode::User(0), 0u8, 0i32, 0u32, 0u32), None, None);
    p = p + 1;
    let ty38 = func.value_type(c2);
    let (d, _r1) = func.ins(p, make_inst(Opcode::Bor, ty38, c2, c4, 0u32, 0i64, IntCC::Equal, TrapCode::User(0), 0u8, 0i32, 0u32, 0u32), None, None);
    p = p + 1;
    let ty39 = func.value_type(d);
    let (d1, _r1) = func.ins(p, make_inst(Opcode::BandImm, ty39, d, 0u32, 0u32, -71777214294589696i64, IntCC::Equal, TrapCode::User(0), 0u8, 0i32, 0u32, 0u32), None, None);
    p = p + 1;
    let ty40 = func.value_type(d1);
    let (d2, _r1) = func.ins(p, make_inst(Opcode::UshrImm, ty40, d1, 0u32, 0u32, 8i64, IntCC::Equal, TrapCode::User(0), 0u8, 0i32, 0u32, 0u32), None, None);
    p = p + 1;
    let ty41 = func.value_type(d);
    let (d3, _r1) = func.ins(p, make_inst(Opcode::BandImm, ty41, d, 0u32, 0u32, 71777214294589695i64, IntCC::Equal, TrapCode::User(0), 0u8, 0i32, 0u32, 0u32), None, None);
    p = p + 1;
    let ty42 = func.value_type(d3);
    let (d4, _r1) = func.ins(p, make_inst(Opcode::IshlImm, ty42, d3, 0u32, 0u32, 8i64, IntCC::Equal, TrapCode::User(0), 0u8, 0i32, 0u32, 0u32), None, None);
    p = p + 1;
    let ty43 = func.value_type(d2);
    let (e, _r1) = func.ins(p, make_inst(Opcode::Bor, ty43, d2, d4, 0u32, 0i64, IntCC::Equal, TrapCode::User(0), 0u8, 0i32, 0u32, 0u32), None, None);
    p = p + 1;
    let ty44 = func.value_type(e);
    let (e1, _r1) = func.ins(p, make_inst(Opcode::BandImm, ty44, e, 0u32, 0u32, -281470681808896i64, IntCC::Equal, TrapCode::User(0), 0u8, 0i32, 0u32, 0u32), None, None);
    p = p + 1;
    let ty45 = func.value_type(e1);
    let (e2, _r1) = func.ins(p, make_inst(Opcode::UshrImm, ty45, e1, 0u32, 0u32, 16i64, IntCC::Equal, TrapCode::User(0), 0u8, 0i32, 0u32, 0u32), None, None);
    p = p + 1;
    let ty46 = func.value_type(e);
    let (e3, _r1) = func.ins(p, make_inst(Opcode::BandImm, ty46, e, 0u32, 0u32, 281470681808895i64, IntCC::Equal, TrapCode::User(0), 0u8, 0i32, 0u32, 0u32), None, None);
    p = p + 1;
    let ty47 = func.value_type(e3);
    let (e4, _r1) = func.ins(p, make_inst(Opcode::IshlImm, ty47, e3, 0u32, 0u32, 16i64, IntCC::Equal, TrapCode::User(0), 0u8, 0i32, 0u32, 0u32), None, None);
    p = p + 1;
    let ty48 = func.value_type(e2);
    let (f, _r1) = func.ins(p, make_inst(Opcode::Bor, ty48, e2, e4, 0u32, 0i64, IntCC::Equal, TrapCode::User(0), 0u8, 0i32, 0u32, 0u32), None, None);
    p = p + 1;
    let ty49 = func.value_type(f);
    let (f1, _r1) = func.ins(p, make_inst(Opcode::UshrImm, ty49, f, 0u32, 0u32, 32i64, IntCC::Equal, TrapCode::User(0), 0u8, 0i32, 0u32, 0u32), None, None);
    p = p + 1;
    let ty50 = func.value_type(f);
    let (f2, _r1) = func.ins(p, make_inst(Opcode::IshlImm, ty50, f, 0u32, 0u32, 32i64, IntCC::Equal, TrapCode::User(0), 0u8, 0i32, 0u32, 0u32), None, None);
    p = p + 1;
    let ty51 = func.value_type(f1);
    func.replace(inst, make_inst(Opcode::Bor, ty51, f1, f2, 0u32, 0i64, IntCC::Equal, TrapCode::User(0), 0u8, 0i32, 0u32, 0u32));
    return true;
}

/// The function after the expansion of a `bitrev` instruction, or `None` where no pattern applies.
#[verifier::opaque]
pub open spec fn expand_bitrev_spec(v: FuncView, inst: Inst, pos: int, d: InstData) -> Option<FuncView> {
    let p = pos;
    let x = d.arg0;
    if value_type_of(v, d.arg0) == ValueType(I32) {
        expand_bitrev_0_spec(v, inst, pos, d)
    } else if value_type_of(v, d.arg0) == ValueType(I64) {
        expand_bitrev_1_spec(v, inst, pos, d)
    } else {
        None
    }
}

/// Legalize a `bitrev` instruction by expansion.
fn expand_bitrev(inst: Inst, pos: usize, d: InstData, func: &mut Function) -> (r: bool)
    requires
        pattern_input(old(func)@, inst, pos as int, d),
    ensures
        pattern_outcome(old(func)@, final(func)@, r, expand_bitrev_spec(old(func)@, inst, pos as int, d)),
        final(func).encodings@ == old(func).encodings@,
        func_wf(final(func)@),
        r ==> final(func)@.0.len() > old(func)@.0.len(),
        keeps_before(old(func)@, final(func)@, inst, pos as int),
{
    proof {
        reveal(expand_bitrev_spec);
    }
    let mut p = pos;
    let x = d.arg0;
    if func.value_type(d.arg0) == ValueType(I32) {
        return expand_bitrev_0(inst, pos, d, func);
    }
    if func.value_type(d.arg0) == ValueType(I64) {
        return expand_bitrev_1(inst, pos, d, func);
    }
    false
}

/// The function after the expansion of a `bnot` instruction, or `None` where no pattern applies.
#[verifier::opaque]
pub open spec fn expand_bnot_spec(v: FuncView, inst: Inst, pos: int, d: InstData) -> Option<FuncView> {
    let p = pos;
    let x = d.arg0;
    let typeof_x = value_type_of(v, x);
    let predicate = true;
    let predicate = predicate && type_set_holds(0, typeof_x);
    if predicate {
        let (new0, new1) = s_ins_results(v, inst_of(Opcode::Iconst, typeof_x, 0u32, 0u32, 0u32, -1i64, IntCC::Equal, TrapCode::User(0), 0u8, 0i32, 0u32, 0u32), None, None);
        let v = s_ins(v, p, inst_of(Opcode::Iconst, typeof_x, 0u32, 0u32, 0u32, -1i64, IntCC::Equal, TrapCode::User(0), 0u8, 0i32, 0u32, 0u32), None, None);
        let (y, _r1) = (new0, new1);
        let p = p + 1;
        let v = s_replace(v, inst, inst_of(Opcode::Bxor, value_type_of(v, x), x, y, 0u32, 0i64, IntCC::Equal, TrapCode::User(0), 0u8, 0i32, 0u32, 0u32));
        Some(v)
} else {
    None
}
}

/// Legalize a `bnot` instruction by expansion.
fn expand_bnot(inst: Inst, pos: usize, d: InstData, func: &mut Function) -> (r: bool)
    requires
        pattern_input(old(func)@, inst, pos as int, d),
    ensures
        pattern_outcome(old(func)@, final(func)@, r, expand_bnot_spec(old(func)@, inst, pos as int, d)),
        final(func).encodings@ == old(func).encodings@,
        func_wf(final(func)@),
        r ==> final(func)@.0.len() > old(func)@.0.len(),
        keeps_before(old(func)@, final(func)@, inst, pos as int),
{
    proof {
        reveal(expand_bnot_spec);
    }
    let mut p = pos;
    let x = d.arg0;
    let typeof_x = func.value_type(x);
    let predicate = true;
    let predicate = predicate && in_type_set(0, typeof_x);
    if predicate {
        let (y, _r1) = func.ins(p, make_inst(Opcode::Iconst, typeof_x, 0u32, 0u32, 0u32, -1i64, IntCC::Equal, TrapCode::User(0), 0u8, 0i32, 0u32, 0u32), None, None);
        p = p + 1;
        let ty1 = func.value_type(x);
        func.replace(inst, make_inst(Opcode::Bxor, ty1, x, y, 0u32, 0i64, IntCC::Equal, TrapCode::User(0), 0u8, 0i32, 0u32, 0u32));
        return true;
    }
    false
}

/// The function after the expansion of a `bor_imm` instruction, or `None` where no pattern applies.
#[verifier::opaque]
pub open spec fn expand_bor_imm_spec(v: FuncView, inst: Inst, pos: int, d: InstData) -> Option<FuncView> {
    let p = pos;
    let x = d.arg0;
    let y = d.imm;
    let typeof_x = value_type_of(v, x);
    let (new0, new1) = s_ins_results(v, inst_of(Opcode::Iconst, typeof_x, 0u32, 0u32, 0u32, y, IntCC::Equal, TrapCode::User(0), 0u8, 0i32, 0u32, 0u32), None, None);
    let v = s_ins(v, p, inst_of(Opcode::Iconst, typeof_x, 0u32, 0u32, 0u32, y, IntCC::Equal, TrapCode::User(0), 0u8, 0i32, 0u32, 0u32), None, None);
    let (a1, _r1) = (new0, new1);
    let p = p + 1;
    let v = s_replace(v, inst, inst_of(Opcode::Bor, value_type_of(v, x), x, a1, 0u32, 0i64, IntCC::Equal, TrapCode::User(0), 0u8, 0i32, 0u32, 0u32));
    Some(v)
}

/// Legalize a `bor_imm` instruction by expansion.
fn expand_bor_imm(inst: Inst, pos: usize, d: InstData, func: &mut Function) -> (r: bool)
    requires
        pattern_input(old(func)@, inst, pos as int, d),
    ensures
        pattern_outcome(old(func)@, final(func)@, r, expand_bor_imm_spec(old(func)@, inst, pos as int, d)),
        final(func).encodings@ == old(func).encodings@,
        func_wf(final(func)@),
        r ==> final(func)@.0.len() > old(func)@.0.len(),
        keeps_before(old(func)@, final(func)@, inst, pos as int),
{
    proof {
        reveal(expand_bor_imm_spec);
    }
    let mut p = pos;
    let x = d.arg0;
    let y = d.imm;
    let typeof_x = func.value_type(x);
    let (a1, _r1) = func.ins(p, make_inst(Opcode::Iconst, typeof_x, 0u32, 0u32, 0u32, y, IntCC::Equal, TrapCode::User(0), 0u8, 0i32, 0u32, 0u32), None, None);
    p = p + 1;
    let ty1 = func.value_type(x);
    func.replace(inst, make_inst(Opcode::Bor, ty1, x, a1, 0u32, 0i64, IntCC::Equal, TrapCode::User(0), 0u8, 0i32, 0u32, 0u32));
    return true;
}

/// The function after the expansion of a `bor_not` instruction, or `None` where no pattern applies.
#[verifier::opaque]
pub open spec fn expand_bor_not_spec(v: FuncView, inst: Inst, pos: int, d: InstData) -> Option<FuncView> {
    let p = pos;
    let x = d.arg0;
    let y = d.arg1;
    let typeof_x = value_type_of(v, x);
    let (new0, new1) = s_ins_results(v, inst_of(Opcode::Bnot, value_type_of(v, y), y, 0u32, 0u32, 0i64, IntCC::Equal, TrapCode::User(0), 0u8, 0i32, 0u32, 0u32), None, None);
    let v = s_ins(v, p, inst_of(Opcode::Bnot, value_type_of(v, y), y, 0u32, 0u32, 0i64, IntCC::Equal, TrapCode::User(0), 0u8, 0i32, 0u32, 0u32), None, None);
    let (a1, _r1) = (new0, new1);
    let p = p + 1;
    let v = s_replace(v, inst, inst_of(Opcode::Bor, value_type_of(v, x), x, a1, 0u32, 0i64, IntCC::Equal, TrapCode::User(0), 0u8, 0i32, 0u32, 0u32));
    Some(v)
}

/// Legalize a `bor_not` instruction by expansion.
fn expand_bor_not(inst: Inst, pos: usize, d: InstData, func: &mut Function) -> (r: bool)
    requires
        pattern_input(old(func)@, inst, pos as int, d),
    ensures
        pattern_outcome(old(func)@, final(func)@, r, expand_bor_not_spec(old(func)@, inst, pos as int, d)),
        final(func).encodings@ == old(func).encodings@,
        func_wf(final(func)@),
        r ==> final(func)@.0.len() > old(func)@.0.len(),
        keeps_before(old(func)@, final(func)@, inst, pos as int),
{
    proof {
        reveal(expand_bor_not_spec);
    }
    let mut p = pos;
    let x = d.arg0;
    let y = d.arg1;
    let typeof_x = func.value_type(x);
    let ty1 = func.value_type(y);
    let (a1, _r1) = func.ins(p, make_inst(Opcode::Bnot, ty1, y, 0u32, 0u32, 0i64, IntCC::Equal, TrapCode::User(0), 0u8, 0i32, 0u32, 0u32), None, None);
    p = p + 1;
    let ty2 = func.value_type(x);
    func.replace(inst, make_inst(Opcode::Bor, ty2, x, a1, 0u32, 0i64, IntCC::Equal, TrapCode::User(0), 0u8, 0i32, 0u32, 0u32));
    return true;
}

/// The function after the expansion of a `bxor_imm` instruction, or `None` where no pattern applies.
#[verifier::opaque]
pub open spec fn expand_bxor_imm_spec(v: FuncView, inst: Inst, pos: int, d: InstData) -> Option<FuncView> {
    let p = pos;
    let x = d.arg0;
    let y = d.imm;
    let typeof_x = value_type_of(v, x);
    let (new0, new1) = s_ins_results(v, inst_of(Opcode::Iconst, typeof_x, 0u32, 0u32, 0u32, y, IntCC::Equal, TrapCode::User(0), 0u8, 0i32, 0u32, 0u32), None, None);
    let v = s_ins(v, p, inst_of(Opcode::Iconst, typeof_x, 0u32, 0u32, 0u32, y, IntCC::Equal, TrapCode::User(0), 0u8, 0i32, 0u32, 0u32), None, None);
    let (a1, _r1) = (new0, new1);
    let p = p + 1;
    let v = s_replace(v, inst, inst_of(Opcode::Bxor, value_type_of(v, x), x, a1, 0u32, 0i64, IntCC::Equal, TrapCode::User(0), 0u8, 0i32, 0u32, 0u32));
    Some(v)
}

/// Legalize a `bxor_imm` instruction by expansion.
fn expand_bxor_imm(inst: Inst, pos: usize, d: InstData, func: &mut Function) -> (r: bool)
    requires
        pattern_input(old(func)@, inst, pos as int, d),
    ensures
        pattern_outcome(old(func)@, final(func)@, r, expand_bxor_imm_spec(old(func)@, inst, pos as int, d)),
        final(func).encodings@ == old(func).encodings@,
        func_wf(final(func)@),
        r ==> final(func)@.0.len() > old(func)@.0.len(),
        keeps_before(old(func)@, final(func)@, inst, pos as int),
{
    proof {
        reveal(expand_bxor_imm_spec);
    }
    let mut p = pos;
    let x = d.arg0;
    let y = d.imm;
    let typeof_x = func.value_type(x);
    let (a1, _r1) = func.ins(p, make_inst(Opcode::Iconst, typeof_x, 0u32, 0u32, 0u32, y, IntCC::Equal, TrapCode::User(0), 0u8, 0i32, 0u32, 0u32), None, None);
    p = p + 1;
    let ty1 = func.value_type(x);
    func.replace(inst, make_inst(Opcode::Bxor, ty1, x, a1, 0u32, 0i64, IntCC::Equal, TrapCode::User(0), 0u8, 0i32, 0u32, 0u32));
    return true;
}

/// The function after the expansion of a `bxor_not` instruction, or `None` where no pattern applies.
#[verifier::opaque]
pub open spec fn expand_bxor_not_spec(v: FuncView, inst: Inst, pos: int, d: InstData) -> Option<FuncView> {
    let p = pos;
    let x = d.arg0;
    let y = d.arg1;
    let typeof_x = value_type_of(v, x);
    let (new0, new1) = s_ins_results(v, inst_of(Opcode::Bnot, value_type_of(v, y), y, 0u32, 0u32, 0i64, IntCC::Equal, TrapCode::User(0), 0u8, 0i32, 0u32, 0u32), None, None);
    let v = s_ins(v, p, inst_of(Opcode::Bnot, value_type_of(v, y), y, 0u32, 0u32, 0i64, IntCC::Equal, TrapCode::User(0), 0u8, 0i32, 0u32, 0u32), None, None);
    let (a1, _r1) = (new0, new1);
    let p = p + 1;
    let v = s_replace(v, inst, inst_of(Opcode::Bxor, value_type_of(v, x), x, a1, 0u32, 0i64, IntCC::Equal, TrapCode::User(0), 0u8, 0i32, 0u32, 0u32));
    Some(v)
}

/// Legalize a `bxor_not` instruction by expansion.
fn expand_bxor_not(inst: Inst, pos: usize, d: InstData, func: &mut Function) -> (r: bool)
    requires
        pattern_input(old(func)@, inst, pos as int, d),
    ensures
        pattern_outcome(old(func)@, final(func)@, r, expand_bxor_not_spec(old(func)@, inst, pos as int, d)),
        final(func).encodings@ == old(func).encodings@,
        func_wf(final(func)@),
        r ==> final(func)@.0.len() > old(func)@.0.len(),
        keeps_before(old(func)@, final(func)@, inst, pos as int),
{
    proof {
        reveal(expand_bxor_not_spec);
    }
    let mut p = pos;
    let x = d.arg0;
    let y = d.arg1;
    let typeof_x = func.value_type(x);
    let ty1 = func.value_type(y);
    let (a1, _r1) = func.ins(p, make_inst(Opcode::Bnot, ty1, y, 0u32, 0u32, 0i64, IntCC::Equal, TrapCode::User(0), 0u8, 0i32, 0u32, 0u32), None, None);
    p = p + 1;
    let ty2 = func.value_type(x);
    func.replace(inst, make_inst(Opcode::Bxor, ty2, x, a1, 0u32, 0i64, IntCC::Equal, TrapCode::User(0), 0u8, 0i32, 0u32, 0u32));
    return true;
}

/// The function after the expansion of a `fabs` instruction, or `None` where no pattern applies.
#[verifier::opaque]
pub open spec fn expand_fabs_spec(v: FuncView, inst: Inst, pos: int, d: InstData) -> Option<FuncView> {
    let p = pos;
    let x = d.arg0;
    if value_type_of(v, d.arg0) == ValueType(F32) {
        let (new0, new1) = s_ins_results(v, inst_of(Opcode::F32const, ValueType(F32), 0u32, 0u32, 0u32, (0x80000000u64 as i64), IntCC::Equal, TrapCode::User(0), 0u8, 0i32, 0u32, 0u32), None, None);
        let v = s_ins(v, p, inst_of(Opcode::F32const, ValueType(F32), 0u32, 0u32, 0u32, (0x80000000u64 as i64), IntCC::Equal, TrapCode::User(0), 0u8, 0i32, 0u32, 0u32), None, None);
        let (b, _r1) = (new0, new1);
        let p = p + 1;
        let v = s_replace(v, inst, inst_of(Opcode::BandNot, value_type_of(v, x), x, b, 0u32, 0i64, IntCC::Equal, TrapCode::User(0), 0u8, 0i32, 0u32, 0u32));
        Some(v)
} else {
    if value_type_of(v, d.arg0) == ValueType(F64) {
        let (new0, new1) = s_ins_results(v, inst_of(Opcode::F64const, ValueType(F64), 0u32, 0u32, 0u32, (0x8000000000000000u64 as i64), IntCC::Equal, TrapCode::User(0), 0u8, 0i32, 0u32, 0u32), None, None);
        let v = s_ins(v, p, inst_of(Opcode::F64const, ValueType(F64), 0u32, 0u32, 0u32, (0x8000000000000000u64 as i64), IntCC::Equal, TrapCode::User(0), 0u8, 0i32, 0u32, 0u32), None, None);
        let (b, _r1) = (new0, new1);
        let p = p + 1;
        let v = s_replace(v, inst, inst_of(Opcode::BandNot, value_type_of(v, x), x, b, 0u32, 0i64, IntCC::Equal, TrapCode::User(0), 0u8, 0i32, 0u32, 0u32));
        Some(v)
} else {
    None
}
}
}

/// Legalize a `fabs` instruction by expansion.
fn expand_fabs(inst: Inst, pos: usize, d: InstData, func: &mut Function) -> (r: bool)
    requires
        pattern_input(old(func)@, inst, pos as int, d),
    ensures
        pattern_outcome(old(func)@, final(func)@, r, expand_fabs_spec(old(func)@, inst, pos as int, d)),
        final(func).encodings@ == old(func).encodings@,
        func_wf(final(func)@),
        r ==> final(func)@.0.len() > old(func)@.0.len(),
        keeps_before(old(func)@, final(func)@, inst, pos as int),
{
    proof {
        reveal(expand_fabs_spec);
    }
    let mut p = pos;
    let x = d.arg0;
    if func.value_type(d.arg0) == ValueType(F32) {
        let (b, _r1) = func.ins(p, make_inst(Opcode::F32const, ValueType(F32), 0u32, 0u32, 0u32, (0x80000000u64 as i64), IntCC::Equal, TrapCode::User(0), 0u8, 0i32, 0u32, 0u32), None, None);
        p = p + 1;
        let ty1 = func.value_type(x);
        func.replace(inst, make_inst(Opcode::BandNot, ty1, x, b, 0u32, 0i64, IntCC::Equal, TrapCode::User(0), 0u8, 0i32, 0u32, 0u32));
        return true;
    }
    if func.value_type(d.arg0) == ValueType(F64) {
        let (b, _r1) = func.ins(p, make_inst(Opcode::F64const, ValueType(F64), 0u32, 0u32, 0u32, (0x8000000000000000u64 as i64), IntCC::Equal, TrapCode::User(0), 0u8, 0i32, 0u32, 0u32), None, None);
        p = p + 1;
        let ty2 = func.value_type(x);
        func.replace(inst, make_inst(Opcode::BandNot, ty2, x, b, 0u32, 0i64, IntCC::Equal, TrapCode::User(0), 0u8, 0i32, 0u32, 0u32));
        return true;
    }
    false
}

/// The function after the expansion of a `fcopysign` instruction, or `None` where no pattern applies.
#[verifier::opaque]
pub open spec fn expand_fcopysign_spec(v: FuncView, inst: Inst, pos: int, d: InstData) -> Option<FuncView> {
    let p = pos;
    let x = d.arg0;
    let y = d.arg1;
    if value_type_of(v, d.arg0) == ValueType(F32) {
        let (new0, new1) = s_ins_results(v, inst_of(Opcode::F32const, ValueType(F32), 0u32, 0u32, 0u32, (0x80000000u64 as i64), IntCC::Equal, TrapCode::User(0), 0u8, 0i32, 0u32, 0u32), None, None);
        let v = s_ins(v, p, inst_of(Opcode::F32const, ValueType(F32), 0u32, 0u32, 0u32, (0x80000000u64 as i64), IntCC::Equal, TrapCode::User(0), 0u8, 0i32, 0u32, 0u32), None, None);
        let (b, _r1) = (new0, new1);
        let p = p + 1;
        let (new0, new1) = s_ins_results(v, inst_of(Opcode::BandNot, value_type_of(v, x), x, b, 0u32, 0i64, IntCC::Equal, TrapCode::User(0), 0u8, 0i32, 0u32, 0u32), None, None);
        let v = s_ins(v, p, inst_of(Opcode::BandNot, value_type_of(v, x), x, b, 0u32, 0i64, IntCC::Equal, TrapCode::User(0), 0u8, 0i32, 0u32, 0u32), None, None);
        let (a1, _r1) = (new0, new1);
        let p = p + 1;
        let (new0, new1) = s_ins_results(v, inst_of(Opcode::Band, value_type_of(v, y), y, b, 0u32, 0i64, IntCC::Equal, TrapCode::User(0), 0u8, 0i32, 0u32, 0u32), None, None);
        let v = s_ins(v, p, inst_of(Opcode::Band, value_type_of(v, y), y, b, 0u32, 0i64, IntCC::Equal, TrapCode::User(0), 0u8, 0i32, 0u32, 0u32), None, None);
        let (a2, _r1) = (new0, new1);
        let p = p + 1;
        let v = s_replace(v, inst, inst_of(Opcode::Bor, value_type_of(v, a1), a1, a2, 0u32, 0i64, IntCC::Equal, TrapCode::User(0), 0u8, 0i32, 0u32, 0u32));
        Some(v)
} else {
    if value_type_of(v, d.arg0) == ValueType(F64) {
        let (new0, new1) = s_ins_results(v, inst_of(Opcode::F64const, ValueType(F64), 0u32, 0u32, 0u32, (0x8000000000000000u64 as i64), IntCC::Equal, TrapCode::User(0), 0u8, 0i32, 0u32, 0u32), None, None);
        let v = s_ins(v, p, inst_of(Opcode::F64const, ValueType(F64), 0u32, 0u32, 0u32, (0x8000000000000000u64 as i64), IntCC::Equal, TrapCode::User(0), 0u8, 0i32, 0u32, 0u32), None, None);
        let (b, _r1) = (new0, new1);
        let p = p + 1;
        let (new0, new1) = s_ins_results(v, inst_of(Opcode::BandNot, value_type_of(v, x), x, b, 0u32, 0i64, IntCC::Equal, TrapCode::User(0), 0u8, 0i32, 0u32, 0u32), None, None);
        let v = s_ins(v, p, inst_of(Opcode::BandNot, value_type_of(v, x), x, b, 0u32, 0i64, IntCC::Equal, TrapCode::User(0), 0u8, 0i32, 0u32, 0u32), None, None);
        let (a1, _r1) = (new0, new1);
        let p = p + 1;
        let (new0, new1) = s_ins_results(v, inst_of(Opcode::Band, value_type_of(v, y), y, b, 0u32, 0i64, IntCC::Equal, TrapCode::User(0), 0u8, 0i32, 0u32, 0u32), None, None);
        let v = s_ins(v, p, inst_of(Opcode::Band, value_type_of(v, y), y, b, 0u32, 0i64, IntCC::Equal, TrapCode::User(0), 0u8, 0i32, 0u32, 0u32), None, None);
        let (a2, _r1) = (new0, new1);
        let p = p + 1;
        let v = s_replace(v, inst, inst_of(Opcode::Bor, value_type_of(v, a1), a1, a2, 0u32, 0i64, IntCC::Equal, TrapCode::User(0), 0u8, 0i32, 0u32, 0u32));
        Some(v)
} else {
    None
}
}
}

/// Legalize a `fcopysign` instruction by expansion.
fn expand_fcopysign(inst: Inst, pos: usize, d: InstData, func: &mut Function) -> (r: bool)
    requires
        pattern_input(old(func)@, inst, pos as int, d),
    ensures
        pattern_outcome(old(func)@, final(func)@, r, expand_fcopysign_spec(old(func)@, inst, pos as int, d)),
        final(func).encodings@ == old(func).encodings@,
        func_wf(final(func)@),
        r ==> final(func)@.0.len() > old(func)@.0.len(),
        keeps_before(old(func)@, final(func)@, inst, pos as int),
{
    proof {
        reveal(expand_fcopysign_spec);
    }
    let mut p = pos;
    let x = d.arg0;
    let y = d.arg1;
    if func.value_type(d.arg0) == ValueType(F32) {
        let (b, _r1) = func.ins(p, make_inst(Opcode::F32const, ValueType(F32), 0u32, 0u32, 0u32, (0x80000000u64 as i64), IntCC::Equal, TrapCode::User(0), 0u8, 0i32, 0u32, 0u32), None, None);
        p = p + 1;
        let ty1 = func.value_type(x);
        let (a1, _r1) = func.ins(p, make_inst(Opcode::BandNot, ty1, x, b, 0u32, 0i64, IntCC::Equal, TrapCode::User(0), 0u8, 0i32, 0u32, 0u32), None, None);
        p = p + 1;
        let ty2 = func.value_type(y);
        let (a2, _r1) = func.ins(p, make_inst(Opcode::Band, ty2, y, b, 0u32, 0i64, IntCC::Equal, TrapCode::User(0), 0u8, 0i32, 0u32, 0u32), None, None);
        p = p + 1;
        let ty3 = func.value_type(a1);
        func.replace(inst, make_inst(Opcode::Bor, ty3, a1, a2, 0u32, 0i64, IntCC::Equal, TrapCode::User(0), 0u8, 0i32, 0u32, 0u32));
        return true;
    }
    if func.value_type(d.arg0) == ValueType(F64) {
        let (b, _r1) = func.ins(p, make_inst(Opcode::F64const, ValueType(F64), 0u32, 0u32, 0u32, (0x8000000000000000u64 as i64), IntCC::Equal, TrapCode::User(0), 0u8, 0i32, 0u32, 0u32), None, None);
        p = p + 1;
        let ty4 = func.value_type(x);
        let (a1, _r1) = func.ins(p, make_inst(Opcode::BandNot, ty4, x, b, 0u32, 0i64, IntCC::Equal, TrapCode::User(0), 0u8, 0i32, 0u32, 0u32), None, None);
        p = p + 1;
        let ty5 = func.value_type(y);
        let (a2, _r1) = func.ins(p, make_inst(Opcode::Band, ty5, y, b, 0u32, 0i64, IntCC::Equal, TrapCode::User(0), 0u8, 0i32, 0u32, 0u32), None, None);
        p = p + 1;
        let ty6 = func.value_type(a1);
        func.replace(inst, make_inst(Opcode::Bor, ty6, a1, a2, 0u32, 0i64, IntCC::Equal, TrapCode::User(0), 0u8, 0i32, 0u32, 0u32));
        return true;
    }
    false
}

/// The function after the expansion of a `fcvt_from_sint` instruction, or `None` where no pattern applies.
#[verifier::opaque]
pub open spec fn expand_fcvt_from_sint_spec(v: FuncView, inst: Inst, pos: int, d: InstData) -> Option<FuncView> {
    let p = pos;
    let b = d.arg0;
    if value_type_of(v, d.arg0) == ValueType(I8) && d.ctrl == ValueType(F32) {
        let (new0, new1) = s_ins_results(v, inst_of(Opcode::Sextend, ValueType(I32), b, 0u32, 0u32, 0i64, IntCC::Equal, TrapCode::User(0), 0u8, 0i32, 0u32, 0u32), None, None);
        let v = s_ins(v, p, inst_of(Opcode::Sextend, ValueType(I32), b, 0u32, 0u32, 0i64, IntCC::Equal, TrapCode::User(0), 0u8, 0i32, 0u32, 0u32), None, None);
        let (x, _r1) = (new0, new1);
        let p = p + 1;
        let v = s_replace(v, inst, inst_of(Opcode::FcvtFromSint, ValueType(F32), x, 0u32, 0u32, 0i64, IntCC::Equal, TrapCode::User(0), 0u8, 0i32, 0u32, 0u32));
        Some(v)
} else {
    if value_type_of(v, d.arg0) == ValueType(I16) && d.ctrl == ValueType(F32) {
        let (new0, new1) = s_ins_results(v, inst_of(Opcode::Sextend, ValueType(I32), b, 0u32, 0u32, 0i64, IntCC::Equal, TrapCode::User(0), 0u8, 0i32, 0u32, 0u32), None, None);
        let v = s_ins(v, p, inst_of(Opcode::Sextend, ValueType(I32), b, 0u32, 0u32, 0i64, IntCC::Equal, TrapCode::User(0), 0u8, 0i32, 0u32, 0u32), None, None);
        let (x, _r1) = (new0, new1);
        let p = p + 1;
        let v = s_replace(v, inst, inst_of(Opcode::FcvtFromSint, ValueType(F32), x, 0u32, 0u32, 0i64, IntCC::Equal, TrapCode::User(0), 0u8, 0i32, 0u32, 0u32));
        Some(v)
} else {
    if value_type_of(v, d.arg0) == ValueType(I8) && d.ctrl == ValueType(F64) {
        let (new0, new1) = s_ins_results(v, inst_of(Opcode::Sextend, ValueType(I32), b, 0u32, 0u32, 0i64, IntCC::Equal, TrapCode::User(0), 0u8, 0i32, 0u32, 0u32), None, None);
        let v = s_ins(v, p, inst_of(Opcode::Sextend, ValueType(I32), b, 0u32, 0u32, 0i64, IntCC::Equal, TrapCode::User(0), 0u8, 0i32, 0u32, 0u32), None, None);
        let (x, _r1) = (new0, new1);
        let p = p + 1;
        let v = s_replace(v, inst, inst_of(Opcode::FcvtFromSint, ValueType(F64), x, 0u32, 0u32, 0i64, IntCC::Equal, TrapCode::User(0), 0u8, 0i32, 0u32, 0u32));
        Some(v)
} else {
    if value_type_of(v, d.arg0) == ValueType(I16) && d.ctrl == ValueType(F64) {
        let (new0, new1) = s_ins_results(v, inst_of(Opcode::Sextend, ValueType(I32), b, 0u32, 0u32, 0i64, IntCC::Equal, TrapCode::User(0), 0u8, 0i32, 0u32, 0u32), None, None);
        let v = s_ins(v, p, inst_of(Opcode::Sextend, ValueType(I32), b, 0u32, 0u32, 0i64, IntCC::Equal, TrapCode::User(0), 0u8, 0i32, 0u32, 0u32), None, None);
        let (x, _r1) = (new0, new1);
        let p = p + 1;
        let v = s_replace(v, inst, inst_of(Opcode::FcvtFromSint, ValueType(F64), x, 0u32, 0u32, 0i64, IntCC::Equal, TrapCode::User(0), 0u8, 0i32, 0u32, 0u32));
        Some(v)
} else {
    None
}
}
}
}
}

/// Legalize a `fcvt_from_sint` instruction by expansion.
fn expand_fcvt_from_sint(inst: Inst, pos: usize, d: InstData, func: &mut Function) -> (r: bool)
    requires
        pattern_input(old(func)@, inst, pos as int, d),
    ensures
        pattern_outcome(old(func)@, final(func)@, r, expand_fcvt_from_sint_spec(old(func)@, inst, pos as int, d)),
        final(func).encodings@ == old(func).encodings@,
        func_wf(final(func)@),
        r ==> final(func)@.0.len() > old(func)@.0.len(),
        keeps_before(old(func)@, final(func)@, inst, pos as int),
{
    proof {
        reveal(expand_fcvt_from_sint_spec);
    }
    let mut p = pos;
    let b = d.arg0;
    if func.value_type(d.arg0) == ValueType(I8) && d.ctrl == ValueType(F32) {
        let (x, _r1) = func.ins(p, make_inst(Opcode::Sextend, ValueType(I32), b, 0u32, 0u32, 0i64, IntCC::Equal, TrapCode::User(0), 0u8, 0i32, 0u32, 0u32), None, None);
        p = p + 1;
        func.replace(inst, make_inst(Opcode::FcvtFromSint, ValueType(F32), x, 0u32, 0u32, 0i64, IntCC::Equal, TrapCode::User(0), 0u8, 0i32, 0u32, 0u32));
        return true;
    }
    if func.value_type(d.arg0) == ValueType(I16) && d.ctrl == ValueType(F32) {
        let (x, _r1) = func.ins(p, make_inst(Opcode::Sextend, ValueType(I32), b, 0u32, 0u32, 0i64, IntCC::Equal, TrapCode::User(0), 0u8, 0i32, 0u32, 0u32), None, None);
        p = p + 1;
        func.replace(inst, make_inst(Opcode::FcvtFromSint, ValueType(F32), x, 0u32, 0u32, 0i64, IntCC::Equal, TrapCode::User(0), 0u8, 0i32, 0u32, 0u32));
        return true;
    }
    if func.value_type(d.arg0) == ValueType(I8) && d.ctrl == ValueType(F64) {
        let (x, _r1) = func.ins(p, make_inst(Opcode::Sextend, ValueType(I32), b, 0u32, 0u32, 0i64, IntCC::Equal, TrapCode::User(0), 0u8, 0i32, 0u32, 0u32), None, None);
        p = p + 1;
        func.replace(inst, make_inst(Opcode::FcvtFromSint, ValueType(F64), x, 0u32, 0u32, 0i64, IntCC::Equal, TrapCode::User(0), 0u8, 0i32, 0u32, 0u32));
        return true;
    }
    if func.value_type(d.arg0) == ValueType(I16) && d.ctrl == ValueType(F64) {
        let (x, _r1) = func.ins(p, make_inst(Opcode::Sextend, ValueType(I32), b, 0u32, 0u32, 0i64, IntCC::Equal, TrapCode::User(0), 0u8, 0i32, 0u32, 0u32), None, None);
        p = p + 1;
        func.replace(inst, make_inst(Opcode::FcvtFromSint, ValueType(F64), x, 0u32, 0u32, 0i64, IntCC::Equal, TrapCode::User(0), 0u8, 0i32, 0u32, 0u32));
        return true;
    }
    false
}

/// The function after the expansion of a `fneg` instruction, or `None` where no pattern applies.
#[verifier::opaque]
pub open spec fn expand_fneg_spec(v: FuncView, inst: Inst, pos: int, d: InstData) -> Option<FuncView> {
    let p = pos;
    let x = d.arg0;
    if value_type_of(v, d.arg0) == ValueType(F32) {
        let (new0, new1) = s_ins_results(v, inst_of(Opcode::F32const, ValueType(F32), 0u32, 0u32, 0u32, (0x80000000u64 as i64), IntCC::Equal, TrapCode::User(0), 0u8, 0i32, 0u32, 0u32), None, None);
        let v = s_ins(v, p, inst_of(Opcode::F32const, ValueType(F32), 0u32, 0u32, 0u32, (0x80000000u64 as i64), IntCC::Equal, TrapCode::User(0), 0u8, 0i32, 0u32, 0u32), None, None);
        let (b, _r1) = (new0, new1);
        let p = p + 1;
        let v = s_replace(v, inst, inst_of(Opcode::Bxor, value_type_of(v, x), x, b, 0u32, 0i64, IntCC::Equal, TrapCode::User(0), 0u8, 0i32, 0u32, 0u32));
        Some(v)
} else {
    if value_type_of(v, d.arg0) == ValueType(F64) {
        let (new0, new1) = s_ins_results(v, inst_of(Opcode::F64const, ValueType(F64), 0u32, 0u32, 0u32, (0x8000000000000000u64 as i64), IntCC::Equal, TrapCode::User(0), 0u8, 0i32, 0u32, 0u32), None, None);
        let v = s_ins(v, p, inst_of(Opcode::F64const, ValueType(F64), 0u32, 0u32, 0u32, (0x8000000000000000u64 as i64), IntCC::Equal, TrapCode::User(0), 0u8, 0i32, 0u32, 0u32), None, None);
        let (b, _r1) = (new0, new1);
        let p = p + 1;
        let v = s_replace(v, inst, inst_of(Opcode::Bxor, value_type_of(v, x), x, b, 0u32, 0i64, IntCC::Equal, TrapCode::User(0), 0u8, 0i32, 0u32, 0u32));
        Some(v)
} else {
    None
}
}
}

/// Legalize a `fneg` instruction by expansion.
fn expand_fneg(inst: Inst, pos: usize, d: InstData, func: &mut Function) -> (r: bool)
    requires
        pattern_input(old(func)@, inst, pos as int, d),
    ensures
        pattern_outcome(old(func)@, final(func)@, r, expand_fneg_spec(old(func)@, inst, pos as int, d)),
        final(func).encodings@ == old(func).encodings@,
        func_wf(final(func)@),
        r ==> final(func)@.0.len() > old(func)@.0.len(),
        keeps_before(old(func)@, final(func)@, inst, pos as int),
{
    proof {
        reveal(expand_fneg_spec);
    }
    let mut p = pos;
    let x = d.arg0;
    if func.value_type(d.arg0) == ValueType(F32) {
        let (b, _r1) = func.ins(p, make_inst(Opcode::F32const, ValueType(F32), 0u32, 0u32, 0u32, (0x80000000u64 as i64), IntCC::Equal, TrapCode::User(0), 0u8, 0i32, 0u32, 0u32), None, None);
        p = p + 1;
        let ty1 = func.value_type(x);
        func.replace(inst, make_inst(Opcode::Bxor, ty1, x, b, 0u32, 0i64, IntCC::Equal, TrapCode::User(0), 0u8, 0i32, 0u32, 0u32));
        return true;
    }
    if func.value_type(d.arg0) == ValueType(F64) {
        let (b, _r1) = func.ins(p, make_inst(Opcode::F64const, ValueType(F64), 0u32, 0u32, 0u32, (0x8000000000000000u64 as i64), IntCC::Equal, TrapCode::User(0), 0u8, 0i32, 0u32, 0u32), None, None);
        p = p + 1;
        let ty2 = func.value_type(x);
        func.replace(inst, make_inst(Opcode::Bxor, ty2, x, b, 0u32, 0i64, IntCC::Equal, TrapCode::User(0), 0u8, 0i32, 0u32, 0u32));
        return true;
    }
    false
}

/// The function after the expansion of a `iadd_carry` instruction, or `None` where no pattern applies.
#[verifier::opaque]
pub open spec fn expand_iadd_carry_spec(v: FuncView, inst: Inst, pos: int, d: InstData) -> Option<FuncView> {
    let p = pos;
    let x = d.arg0;
    let y = d.arg1;
    let c_in = d.arg2;
    let typeof_x = value_type_of(v, x);
    let a = d.res0;
    let c = d.res1;
    let v = s_clear_results(v, inst);
    let (new0, new1) = s_ins_results(v, inst_of(Opcode::IaddCout, value_type_of(v, x), x, y, 0u32, 0i64, IntCC::Equal, TrapCode::User(0), 0u8, 0i32, 0u32, 0u32), None, None);
    let v = s_ins(v, p, inst_of(Opcode::IaddCout, value_type_of(v, x), x, y, 0u32, 0i64, IntCC::Equal, TrapCode::User(0), 0u8, 0i32, 0u32, 0u32), None, None);
    let (a1, c1) = (new0, new1);
    let p = p + 1;
    let (new0, new1) = s_ins_results(v, inst_of(Opcode::Bint, typeof_x, c_in, 0u32, 0u32, 0i64, IntCC::Equal, TrapCode::User(0), 0u8, 0i32, 0u32, 0u32), None, None);
    let v = s_ins(v, p, inst_of(Opcode::Bint, typeof_x, c_in, 0u32, 0u32, 0i64, IntCC::Equal, TrapCode::User(0), 0u8, 0i32, 0u32, 0u32), None, None);
    let (c_int, _r1) = (new0, new1);
    let p = p + 1;
    let (new0, new1) = s_ins_results(v, inst_of(Opcode::IaddCout, value_type_of(v, a1), a1, c_int, 0u32, 0i64, IntCC::Equal, TrapCode::User(0), 0u8, 0i32, 0u32, 0u32), Some(a), None);
    let v = s_ins(v, p, inst_of(Opcode::IaddCout, value_type_of(v, a1), a1, c_int, 0u32, 0i64, IntCC::Equal, TrapCode::User(0), 0u8, 0i32, 0u32, 0u32), Some(a), None);
    let (a, c2) = (new0, new1);
    let p = p + 1;
    let (new0, new1) = s_ins_results(v, inst_of(Opcode::Bor, value_type_of(v, c1), c1, c2, 0u32, 0i64, IntCC::Equal, TrapCode::User(0), 0u8, 0i32, 0u32, 0u32), Some(c), None);
    let v = s_ins(v, p, inst_of(Opcode::Bor, value_type_of(v, c1), c1, c2, 0u32, 0i64, IntCC::Equal, TrapCode::User(0), 0u8, 0i32, 0u32, 0u32), Some(c), None);
    let (c, _r1) = (new0, new1);
    let p = p + 1;
    let v = s_remove(v, p);
    Some(v)
}

/// Legalize a `iadd_carry` instruction by expansion.
fn expand_iadd_carry(inst: Inst, pos: usize, d: InstData, func: &mut Function) -> (r: bool)
    requires
        pattern_input(old(func)@, inst, pos as int, d),
    ensures
        pattern_outcome(old(func)@, final(func)@, r, expand_iadd_carry_spec(old(func)@, inst, pos as int, d)),
        final(func).encodings@ == old(func).encodings@,
        func_wf(final(func)@),
        r ==> final(func)@.0.len() > old(func)@.0.len(),
        keeps_before(old(func)@, final(func)@, inst, pos as int),
{
    proof {
        reveal(expand_iadd_carry_spec);
    }
    let mut p = pos;
    let x = d.arg0;
    let y = d.arg1;
    let c_in = d.arg2;
    let typeof_x = func.value_type(x);
    let a = d.res0;
    let c = d.res1;
    func.clear_results(inst);
    let ty1 = func.value_type(x);
    let (a1, c1) = func.ins(p, make_inst(Opcode::IaddCout, ty1, x, y, 0u32, 0i64, IntCC::Equal, TrapCode::User(0), 0u8, 0i32, 0u32, 0u32), None, None);
    p = p + 1;
    let (c_int, _r1) = func.ins(p, make_inst(Opcode::Bint, typeof_x, c_in, 0u32, 0u32, 0i64, IntCC::Equal, TrapCode::User(0), 0u8, 0i32, 0u32, 0u32), None, None);
    p = p + 1;
    let ty2 = func.value_type(a1);
    let (a, c2) = func.ins(p, make_inst(Opcode::IaddCout, ty2, a1, c_int, 0u32, 0i64, IntCC::Equal, TrapCode::User(0), 0u8, 0i32, 0u32, 0u32), Some(a), None);
    p = p + 1;
    let ty3 = func.value_type(c1);
    let (c, _r1) = func.ins(p, make_inst(Opcode::Bor, ty3, c1, c2, 0u32, 0i64, IntCC::Equal, TrapCode::User(0), 0u8, 0i32, 0u32, 0u32), Some(c), None);
    p = p + 1;
    func.remove_inst(p);
    return true;
}

/// The function after the expansion of a `iadd_cin` instruction, or `None` where no pattern applies.
#[verifier::opaque]
pub open spec fn expand_iadd_cin_spec(v: FuncView, inst: Inst, pos: int, d: InstData) -> Option<FuncView> {
    let p = pos;
    let x = d.arg0;
    let y = d.arg1;
    let c = d.arg2;
    let typeof_x = value_type_of(v, x);
    let (new0, new1) = s_ins_results(v, inst_of(Opcode::Iadd, value_type_of(v, x), x, y, 0u32, 0i64, IntCC::Equal, TrapCode::User(0), 0u8, 0i32, 0u32, 0u32), None, None);
    let v = s_ins(v, p, inst_of(Opcode::Iadd, value_type_of(v, x), x, y, 0u32, 0i64, IntCC::Equal, TrapCode::User(0), 0u8, 0i32, 0u32, 0u32), None, None);
    let (a1, _r1) = (new0, new1);
    let p = p + 1;
    let (new0, new1) = s_ins_results(v, inst_of(Opcode::Bint, typeof_x, c, 0u32, 0u32, 0i64, IntCC::Equal, TrapCode::User(0), 0u8, 0i32, 0u32, 0u32), None, None);
    let v = s_ins(v, p, inst_of(Opcode::Bint, typeof_x, c, 0u32, 0u32, 0i64, IntCC::Equal, TrapCode::User(0), 0u8, 0i32, 0u32, 0u32), None, None);
    let (c_int, _r1) = (new0, new1);
    let p = p + 1;
    let v = s_replace(v, inst, inst_of(Opcode::Iadd, value_type_of(v, a1), a1, c_int, 0u32, 0i64, IntCC::Equal, TrapCode::User(0), 0u8, 0i32, 0u32, 0u32));
    Some(v)
}

/// Legalize a `iadd_cin` instruction by expansion.
fn expand_iadd_cin(inst: Inst, pos: usize, d: InstData, func: &mut Function) -> (r: bool)
    requires
        pattern_input(old(func)@, inst, pos as int, d),
    ensures
        pattern_outcome(old(func)@, final(func)@, r, expand_iadd_cin_spec(old(func)@, inst, pos as int, d)),
        final(func).encodings@ == old(func).encodings@,
        func_wf(final(func)@),
        r ==> final(func)@.0.len() > old(func)@.0.len(),
        keeps_before(old(func)@, final(func)@, inst, pos as int),
{
    proof {
        reveal(expand_iadd_cin_spec);
    }
    let mut p = pos;
    let x = d.arg0;
    let y = d.arg1;
    let c = d.arg2;
    let typeof_x = func.value_type(x);
    let ty1 = func.value_type(x);
    let (a1, _r1) = func.ins(p, make_inst(Opcode::Iadd, ty1, x, y, 0u32, 0i64, IntCC::Equal, TrapCode::User(0), 0u8, 0i32, 0u32, 0u32), None, None);
    p = p + 1;
    let (c_int, _r1) = func.ins(p, make_inst(Opcode::Bint, typeof_x, c, 0u32, 0u32, 0i64, IntCC::Equal, TrapCode::User(0), 0u8, 0i32, 0u32, 0u32), None, None);
    p = p + 1;
    let ty2 = func.value_type(a1);
    func.replace(inst, make_inst(Opcode::Iadd, ty2, a1, c_int, 0u32, 0i64, IntCC::Equal, TrapCode::User(0), 0u8, 0i32, 0u32, 0u32));
    return true;
}

/// The function after the expansion of a `iadd_cout` instruction, or `None` where no pattern applies.
#[verifier::opaque]
pub open spec fn expand_iadd_cout_spec(v: FuncView, inst: Inst, pos: int, d: InstData) -> Option<FuncView> {
    let p = pos;
    let x = d.arg0;
    let y = d.arg1;
    let typeof_x = value_type_of(v, x);
    let a = d.res0;
    let c = d.res1;
    let v = s_clear_results(v, inst);
    let (new0, new1) = s_ins_results(v, inst_of(Opcode::Iadd, value_type_of(v, x), x, y, 0u32, 0i64, IntCC::Equal, TrapCode::User(0), 0u8, 0i32, 0u32, 0u32), Some(a), None);
    let v = s_ins(v, p, inst_of(Opcode::Iadd, value_type_of(v, x), x, y, 0u32, 0i64, IntCC::Equal, TrapCode::User(0), 0u8, 0i32, 0u32, 0u32), Some(a), None);
    let (a, _r1) = (new0, new1);
    let p = p + 1;
    let (new0, new1) = s_ins_results(v, inst_of(Opcode::IntCompare, value_type_of(v, a), a, x, 0u32, 0i64, IntCC::UnsignedLessThan, TrapCode::User(0), 0u8, 0i32, 0u32, 0u32), Some(c), None);
    let v = s_ins(v, p, inst_of(Opcode::IntCompare, value_type_of(v, a), a, x, 0u32, 0i64, IntCC::UnsignedLessThan, TrapCode::User(0), 0u8, 0i32, 0u32, 0u32), Some(c), None);
    let (c, _r1) = (new0, new1);
    let p = p + 1;
    let v = s_remove(v, p);
    Some(v)
}

/// Legalize a `iadd_cout` instruction by expansion.
fn expand_iadd_cout(inst: Inst, pos: usize, d: InstData, func: &mut Function) -> (r: bool)
    requires
        pattern_input(old(func)@, inst, pos as int, d),
    ensures
        pattern_outcome(old(func)@, final(func)@, r, expand_iadd_cout_spec(old(func)@, inst, pos as int, d)),
        final(func).encodings@ == old(func).encodings@,
        func_wf(final(func)@),
        r ==> final(func)@.0.len() > old(func)@.0.len(),
        keeps_before(old(func)@, final(func)@, inst, pos as int),
{
    proof {
        reveal(expand_iadd_cout_spec);
    }
    let mut p = pos;
    let x = d.arg0;
    let y = d.arg1;
    let typeof_x = func.value_type(x);
    let a = d.res0;
    let c = d.res1;
    func.clear_results(inst);
    let ty1 = func.value_type(x);
    let (a, _r1) = func.ins(p, make_inst(Opcode::Iadd, ty1, x, y, 0u32, 0i64, IntCC::Equal, TrapCode::User(0), 0u8, 0i32, 0u32, 0u32), Some(a), None);
    p = p + 1;
    let ty2 = func.value_type(a);
    let (c, _r1) = func.ins(p, make_inst(Opcode::IntCompare, ty2, a, x, 0u32, 0i64, IntCC::UnsignedLessThan, TrapCode::User(0), 0u8, 0i32, 0u32, 0u32), Some(c), None);
    p = p + 1;
    func.remove_inst(p);
    return true;
}

/// The function after the expansion of a `iadd_imm` instruction, or `None` where no pattern applies.
#[verifier::opaque]
pub open spec fn expand_iadd_imm_spec(v: FuncView, inst: Inst, pos: int, d: InstData) -> Option<FuncView> {
    let p = pos;
    let x = d.arg0;
    let y = d.imm;
    let typeof_x = value_type_of(v, x);
    let (new0, new1) = s_ins_results(v, inst_of(Opcode::Iconst, typeof_x, 0u32, 0u32, 0u32, y, IntCC::Equal, TrapCode::User(0), 0u8, 0i32, 0u32, 0u32), None, None);
    let v = s_ins(v, p, inst_of(Opcode::Iconst, typeof_x, 0u32, 0u32, 0u32, y, IntCC::Equal, TrapCode::User(0), 0u8, 0i32, 0u32, 0u32), None, None);
    let (a1, _r1) = (new0, new1);
    let p = p + 1;
    let v = s_replace(v, inst, inst_of(Opcode::Iadd, value_type_of(v, x), x, a1, 0u32, 0i64, IntCC::Equal, TrapCode::User(0), 0u8, 0i32, 0u32, 0u32));
    Some(v)
}

/// Legalize a `iadd_imm` instruction by expansion.
fn expand_iadd_imm(inst: Inst, pos: usize, d: InstData, func: &mut Function) -> (r: bool)
    requires
        pattern_input(old(func)@, inst, pos as int, d),
    ensures
        pattern_outcome(old(func)@, final(func)@, r, expand_iadd_imm_spec(old(func)@, inst, pos as int, d)),
        final(func).encodings@ == old(func).encodings@,
        func_wf(final(func)@),
        r ==> final(func)@.0.len() > old(func)@.0.len(),
        keeps_before(old(func)@, final(func)@, inst, pos as int),
{
    proof {
        reveal(expand_iadd_imm_spec);
    }
    let mut p = pos;
    let x = d.arg0;
    let y = d.imm;
    let typeof_x = func.value_type(x);
    let (a1, _r1) = func.ins(p, make_inst(Opcode::Iconst, typeof_x, 0u32, 0u32, 0u32, y, IntCC::Equal, TrapCode::User(0), 0u8, 0i32, 0u32, 0u32), None, None);
    p = p + 1;
    let ty1 = func.value_type(x);
    func.replace(inst, make_inst(Opcode::Iadd, ty1, x, a1, 0u32, 0i64, IntCC::Equal, TrapCode::User(0), 0u8, 0i32, 0u32, 0u32));
    return true;
}

/// The function after the expansion of a `int_compare_imm` instruction, or `None` where no pattern applies.
#[verifier::opaque]
pub open spec fn expand_int_compare_imm_spec(v: FuncView, inst: Inst, pos: int, d: InstData) -> Option<FuncView> {
    let p = pos;
    let cc = d.cond;
    let x = d.arg0;
    let y = d.imm;
    let typeof_x = value_type_of(v, x);
    let (new0, new1) = s_ins_results(v, inst_of(Opcode::Iconst, typeof_x, 0u32, 0u32, 0u32, y, IntCC::Equal, TrapCode::User(0), 0u8, 0i32, 0u32, 0u32), None, None);
    let v = s_ins(v, p, inst_of(Opcode::Iconst, typeof_x, 0u32, 0u32, 0u32, y, IntCC::Equal, TrapCode::User(0), 0u8, 0i32, 0u32, 0u32), None, None);
    let (a1, _r1) = (new0, new1);
    let p = p + 1;
    let v = s_replace(v, inst, inst_of(Opcode::IntCompare, value_type_of(v, x), x, a1, 0u32, 0i64, cc, TrapCode::User(0), 0u8, 0i32, 0u32, 0u32));
    Some(v)
}

/// Legalize a `int_compare_imm` instruction by expansion.
fn expand_int_compare_imm(inst: Inst, pos: usize, d: InstData, func: &mut Function) -> (r: bool)
    requires
        pattern_input(old(func)@, inst, pos as int, d),
    ensures
        pattern_outcome(old(func)@, final(func)@, r, expand_int_compare_imm_spec(old(func)@, inst, pos as int, d)),
        final(func).encodings@ == old(func).encodings@,
        func_wf(final(func)@),
        r ==> final(func)@.0.len() > old(func)@.0.len(),
        keeps_before(old(func)@, final(func)@, inst, pos as int),
{
    proof {
        reveal(expand_int_compare_imm_spec);
    }
    let mut p = pos;
    let cc = d.cond;
    let x = d.arg0;
    let y = d.imm;
    let typeof_x = func.value_type(x);
    let (a1, _r1) = func.ins(p, make_inst(Opcode::Iconst, typeof_x, 0u32, 0u32, 0u32, y, IntCC::Equal, TrapCode::User(0), 0u8, 0i32, 0u32, 0u32), None, None);
    p = p + 1;
    let ty1 = func.value_type(x);
    func.replace(inst, make_inst(Opcode::IntCompare, ty1, x, a1, 0u32, 0i64, cc, TrapCode::User(0), 0u8, 0i32, 0u32, 0u32));
    return true;
}

/// The function after the expansion of a `int_flags_compare_imm` instruction, or `None` where no pattern applies.
#[verifier::opaque]
pub open spec fn expand_int_flags_compare_imm_spec(v: FuncView, inst: Inst, pos: int, d: InstData) -> Option<FuncView> {
    let p = pos;
    let x = d.arg0;
    let y = d.imm;
    let typeof_x = value_type_of(v, x);
    let (new0, new1) = s_ins_results(v, inst_of(Opcode::Iconst, typeof_x, 0u32, 0u32, 0u32, y, IntCC::Equal, TrapCode::User(0), 0u8, 0i32, 0u32, 0u32), None, None);
    let v = s_ins(v, p, inst_of(Opcode::Iconst, typeof_x, 0u32, 0u32, 0u32, y, IntCC::Equal, TrapCode::User(0), 0u8, 0i32, 0u32, 0u32), None, None);
    let (a1, _r1) = (new0, new1);
    let p = p + 1;
    let v = s_replace(v, inst, inst_of(Opcode::IntFlagsCompare, value_type_of(v, x), x, a1, 0u32, 0i64, IntCC::Equal, TrapCode::User(0), 0u8, 0i32, 0u32, 0u32));
    Some(v)
}

/// Legalize a `int_flags_compare_imm` instruction by expansion.
fn expand_int_flags_compare_imm(inst: Inst, pos: usize, d: InstData, func: &mut Function) -> (r: bool)
    requires
        pattern_input(old(func)@, inst, pos as int, d),
    ensures
        pattern_outcome(old(func)@, final(func)@, r, expand_int_flags_compare_imm_spec(old(func)@, inst, pos as int, d)),
        final(func).encodings@ == old(func).encodings@,
        func_wf(final(func)@),
        r ==> final(func)@.0.len() > old(func)@.0.len(),
        keeps_before(old(func)@, final(func)@, inst, pos as int),
{
    proof {
        reveal(expand_int_flags_compare_imm_spec);
    }
    let mut p = pos;
    let x = d.arg0;
    let y = d.imm;
    let typeof_x = func.value_type(x);
    let (a1, _r1) = func.ins(p, make_inst(Opcode::Iconst, typeof_x, 0u32, 0u32, 0u32, y, IntCC::Equal, TrapCode::User(0), 0u8, 0i32, 0u32, 0u32), None, None);
    p = p + 1;
    let ty1 = func.value_type(x);
    func.replace(inst, make_inst(Opcode::IntFlagsCompare, ty1, x, a1, 0u32, 0i64, IntCC::Equal, TrapCode::User(0), 0u8, 0i32, 0u32, 0u32));
    return true;
}

/// The function after the expansion of a `imul_imm` instruction, or `None` where no pattern applies.
#[verifier::opaque]
pub open spec fn expand_imul_imm_spec(v: FuncView, inst: Inst, pos: int, d: InstData) -> Option<FuncView> {
    let p = pos;
    let x = d.arg0;
    let y = d.imm;
    let typeof_x = value_type_of(v, x);
    let (new0, new1) = s_ins_results(v, inst_of(Opcode::Iconst, typeof_x, 0u32, 0u32, 0u32, y, IntCC::Equal, TrapCode::User(0), 0u8, 0i32, 0u32, 0u32), None, None);
    let v = s_ins(v, p, inst_of(Opcode::Iconst, typeof_x, 0u32, 0u32, 0u32, y, IntCC::Equal, TrapCode::User(0), 0u8, 0i32, 0u32, 0u32), None, None);
    let (a1, _r1) = (new0, new1);
    let p = p + 1;
    let v = s_replace(v, inst, inst_of(Opcode::Imul, value_type_of(v, x), x, a1, 0u32, 0i64, IntCC::Equal, TrapCode::User(0), 0u8, 0i32, 0u32, 0u32));
    Some(v)
}

/// Legalize a `imul_imm` instruction by expansion.
fn expand_imul_imm(inst: Inst, pos: usize, d: InstData, func: &mut Function) -> (r: bool)
    requires
        pattern_input(old(func)@, inst, pos as int, d),
    ensures
        pattern_outcome(old(func)@, final(func)@, r, expand_imul_imm_spec(old(func)@, inst, pos as int, d)),
        final(func).encodings@ == old(func).encodings@,
        func_wf(final(func)@),
        r ==> final(func)@.0.len() > old(func)@.0.len(),
        keeps_before(old(func)@, final(func)@, inst, pos as int),
{
    proof {
        reveal(expand_imul_imm_spec);
    }
    let mut p = pos;
    let x = d.arg0;
    let y = d.imm;
    let typeof_x = func.value_type(x);
    let (a1, _r1) = func.ins(p, make_inst(Opcode::Iconst, typeof_x, 0u32, 0u32, 0u32, y, IntCC::Equal, TrapCode::User(0), 0u8, 0i32, 0u32, 0u32), None, None);
    p = p + 1;
    let ty1 = func.value_type(x);
    func.replace(inst, make_inst(Opcode::Imul, ty1, x, a1, 0u32, 0i64, IntCC::Equal, TrapCode::User(0), 0u8, 0i32, 0u32, 0u32));
    return true;
}

/// The function after the expansion of a `irsub_imm` instruction, or `None` where no pattern applies.
#[verifier::opaque]
pub open spec fn expand_irsub_imm_spec(v: FuncView, inst: Inst, pos: int, d: InstData) -> Option<FuncView> {
    let p = pos;
    let y = d.arg0;
    let x = d.imm;
    let typeof_y = value_type_of(v, y);
    let (new0, new1) = s_ins_results(v, inst_of(Opcode::Iconst, typeof_y, 0u32, 0u32, 0u32, x, IntCC::Equal, TrapCode::User(0), 0u8, 0i32, 0u32, 0u32), None, None);
    let v = s_ins(v, p, inst_of(Opcode::Iconst, typeof_y, 0u32, 0u32, 0u32, x, IntCC::Equal, TrapCode::User(0), 0u8, 0i32, 0u32, 0u32), None, None);
    let (a1, _r1) = (new0, new1);
    let p = p + 1;
    let v = s_replace(v, inst, inst_of(Opcode::Isub, value_type_of(v, a1), a1, y, 0u32, 0i64, IntCC::Equal, TrapCode::User(0), 0u8, 0i32, 0u32, 0u32));
    Some(v)
}

/// Legalize a `irsub_imm` instruction by expansion.
fn expand_irsub_imm(inst: Inst, pos: usize, d: InstData, func: &mut Function) -> (r: bool)
    requires
        pattern_input(old(func)@, inst, pos as int, d),
    ensures
        pattern_outcome(old(func)@, final(func)@, r, expand_irsub_imm_spec(old(func)@, inst, pos as int, d)),
        final(func).encodings@ == old(func).encodings@,
        func_wf(final(func)@),
        r ==> final(func)@.0.len() > old(func)@.0.len(),
        keeps_before(old(func)@, final(func)@, inst, pos as int),
{
    proof {
        reveal(expand_irsub_imm_spec);
    }
    let mut p = pos;
    let y = d.arg0;
    let x = d.imm;
    let typeof_y = func.value_type(y);
    let (a1, _r1) = func.ins(p, make_inst(Opcode::Iconst, typeof_y, 0u32, 0u32, 0u32, x, IntCC::Equal, TrapCode::User(0), 0u8, 0i32, 0u32, 0u32), None, None);
    p = p + 1;
    let ty1 = func.value_type(a1);
    func.replace(inst, make_inst(Opcode::Isub, ty1, a1, y, 0u32, 0i64, IntCC::Equal, TrapCode::User(0), 0u8, 0i32, 0u32, 0u32));
    return true;
}

/// The function after the expansion of a `ishl_imm` instruction, or `None` where no pattern applies.
#[verifier::opaque]
pub open spec fn expand_ishl_imm_spec(v: FuncView, inst: Inst, pos: int, d: InstData) -> Option<FuncView> {
    let p = pos;
    let x = d.arg0;
    let y = d.imm;
    let typeof_x = value_type_of(v, x);
    let (new0, new1) = s_ins_results(v, inst_of(Opcode::Iconst, ValueType(I32), 0u32, 0u32, 0u32, y, IntCC::Equal, TrapCode::User(0), 0u8, 0i32, 0u32, 0u32), None, None);
    let v = s_ins(v, p, inst_of(Opcode::Iconst, ValueType(I32), 0u32, 0u32, 0u32, y, IntCC::Equal, TrapCode::User(0), 0u8, 0i32, 0u32, 0u32), None, None);
    let (a1, _r1) = (new0, new1);
    let p = p + 1;
    let v = s_replace(v, inst, inst_of(Opcode::Ishl, value_type_of(v, x), x, a1, 0u32, 0i64, IntCC::Equal, TrapCode::User(0), 0u8, 0i32, 0u32, 0u32));
    Some(v)
}

/// Legalize a `ishl_imm` instruction by expansion.
fn expand_ishl_imm(inst: Inst, pos: usize, d: InstData, func: &mut Function) -> (r: bool)
    requires
        pattern_input(old(func)@, inst, pos as int, d),
    ensures
        pattern_outcome(old(func)@, final(func)@, r, expand_ishl_imm_spec(old(func)@, inst, pos as int, d)),
        final(func).encodings@ == old(func).encodings@,
        func_wf(final(func)@),
        r ==> final(func)@.0.len() > old(func)@.0.len(),
        keeps_before(old(func)@, final(func)@, inst, pos as int),
{
    proof {
        reveal(expand_ishl_imm_spec);
    }
    let mut p = pos;
    let x = d.arg0;
    let y = d.imm;
    let typeof_x = func.value_type(x);
    let (a1, _r1) = func.ins(p, make_inst(Opcode::Iconst, ValueType(I32), 0u32, 0u32, 0u32, y, IntCC::Equal, TrapCode::User(0), 0u8, 0i32, 0u32, 0u32), None, None);
    p = p + 1;
    let ty1 = func.value_type(x);
    func.replace(inst, make_inst(Opcode::Ishl, ty1, x, a1, 0u32, 0i64, IntCC::Equal, TrapCode::User(0), 0u8, 0i32, 0u32, 0u32));
    return true;
}

/// The function after the expansion of a `isub_bin` instruction, or `None` where no pattern applies.
#[verifier::opaque]
pub open spec fn expand_isub_bin_spec(v: FuncView, inst: Inst, pos: int, d: InstData) -> Option<FuncView> {
    let p = pos;
    let x = d.arg0;
    let y = d.arg1;
    let b = d.arg2;
    let typeof_x = value_type_of(v, x);
    let (new0, new1) = s_ins_results(v, inst_of(Opcode::Isub, value_type_of(v, x), x, y, 0u32, 0i64, IntCC::Equal, TrapCode::User(0), 0u8, 0i32, 0u32, 0u32), None, None);
    let v = s_ins(v, p, inst_of(Opcode::Isub, value_type_of(v, x), x, y, 0u32, 0i64, IntCC::Equal, TrapCode::User(0), 0u8, 0i32, 0u32, 0u32), None, None);
    let (a1, _r1) = (new0, new1);
    let p = p + 1;
    let (new0, new1) = s_ins_results(v, inst_of(Opcode::Bint, typeof_x, b, 0u32, 0u32, 0i64, IntCC::Equal, TrapCode::User(0), 0u8, 0i32, 0u32, 0u32), None, None);
    let v = s_ins(v, p, inst_of(Opcode::Bint, typeof_x, b, 0u32, 0u32, 0i64, IntCC::Equal, TrapCode::User(0), 0u8, 0i32, 0u32, 0u32), None, None);
    let (b_int, _r1) = (new0, new1);
    let p = p + 1;
    let v = s_replace(v, inst, inst_of(Opcode::Isub, value_type_of(v, a1), a1, b_int, 0u32, 0i64, IntCC::Equal, TrapCode::User(0), 0u8, 0i32, 0u32, 0u32));
    Some(v)
}

/// Legalize a `isub_bin` instruction by expansion.
fn expand_isub_bin(inst: Inst, pos: usize, d: InstData, func: &mut Function) -> (r: bool)
    requires
        pattern_input(old(func)@, inst, pos as int, d),
    ensures
        pattern_outcome(old(func)@, final(func)@, r, expand_isub_bin_spec(old(func)@, inst, pos as int, d)),
        final(func).encodings@ == old(func).encodings@,
        func_wf(final(func)@),
        r ==> final(func)@.0.len() > old(func)@.0.len(),
        keeps_before(old(func)@, final(func)@, inst, pos as int),
{
    proof {
        reveal(expand_isub_bin_spec);
    }
    let mut p = pos;
    let x = d.arg0;
    let y = d.arg1;
    let b = d.arg2;
    let typeof_x = func.value_type(x);
    let ty1 = func.value_type(x);
    let (a1, _r1) = func.ins(p, make_inst(Opcode::Isub, ty1, x, y, 0u32, 0i64, IntCC::Equal, TrapCode::User(0), 0u8, 0i32, 0u32, 0u32), None, None);
    p = p + 1;
    let (b_int, _r1) = func.ins(p, make_inst(Opcode::Bint, typeof_x, b, 0u32, 0u32, 0i64, IntCC::Equal, TrapCode::User(0), 0u8, 0i32, 0u32, 0u32), None, None);
    p = p + 1;
    let ty2 = func.value_type(a1);
    func.replace(inst, make_inst(Opcode::Isub, ty2, a1, b_int, 0u32, 0i64, IntCC::Equal, TrapCode::User(0), 0u8, 0i32, 0u32, 0u32));
    return true;
}

/// The function after the expansion of a `isub_borrow` instruction, or `None` where no pattern applies.
#[verifier::opaque]
pub open spec fn expand_isub_borrow_spec(v: FuncView, inst: Inst, pos: int, d: InstData) -> Option<FuncView> {
    let p = pos;
    let x = d.arg0;
    let y = d.arg1;
    let b_in = d.arg2;
    let typeof_x = value_type_of(v, x);
    let a = d.res0;
    let b = d.res1;
    let v = s_clear_results(v, inst);
    let (new0, new1) = s_ins_results(v, inst_of(Opcode::IsubBout, value_type_of(v, x), x, y, 0u32, 0i64, IntCC::Equal, TrapCode::User(0), 0u8, 0i32, 0u32, 0u32), None, None);
    let v = s_ins(v, p, inst_of(Opcode::IsubBout, value_type_of(v, x), x, y, 0u32, 0i64, IntCC::Equal, TrapCode::User(0), 0u8, 0i32, 0u32, 0u32), None, None);
    let (a1, b1) = (new0, new1);
    let p = p + 1;
    let (new0, new1) = s_ins_results(v, inst_of(Opcode::Bint, typeof_x, b_in, 0u32, 0u32, 0i64, IntCC::Equal, TrapCode::User(0), 0u8, 0i32, 0u32, 0u32), None, None);
    let v = s_ins(v, p, inst_of(Opcode::Bint, typeof_x, b_in, 0u32, 0u32, 0i64, IntCC::Equal, TrapCode::User(0), 0u8, 0i32, 0u32, 0u32), None, None);
    let (b_int, _r1) = (new0, new1);
    let p = p + 1;
    let (new0, new1) = s_ins_results(v, inst_of(Opcode::IsubBout, value_type_of(v, a1), a1, b_int, 0u32, 0i64, IntCC::Equal, TrapCode::User(0), 0u8, 0i32, 0u32, 0u32), Some(a), None);
    let v = s_ins(v, p, inst_of(Opcode::IsubBout, value_type_of(v, a1), a1, b_int, 0u32, 0i64, IntCC::Equal, TrapCode::User(0), 0u8, 0i32, 0u32, 0u32), Some(a), None);
    let (a, b2) = (new0, new1);
    let p = p + 1;
    let (new0, new1) = s_ins_results(v, inst_of(Opcode::Bor, value_type_of(v, b1), b1, b2, 0u32, 0i64, IntCC::Equal, TrapCode::User(0), 0u8, 0i32, 0u32, 0u32), Some(b), None);
    let v = s_ins(v, p, inst_of(Opcode::Bor, value_type_of(v, b1), b1, b2, 0u32, 0i64, IntCC::Equal, TrapCode::User(0), 0u8, 0i32, 0u32, 0u32), Some(b), None);
    let (b, _r1) = (new0, new1);
    let p = p + 1;
    let v = s_remove(v, p);
    Some(v)
}

/// Legalize a `isub_borrow` instruction by expansion.
fn expand_isub_borrow(inst: Inst, pos: usize, d: InstData, func: &mut Function) -> (r: bool)
    requires
        pattern_input(old(func)@, inst, pos as int, d),
    ensures
        pattern_outcome(old(func)@, final(func)@, r, expand_isub_borrow_spec(old(func)@, inst, pos as int, d)),
        final(func).encodings@ == old(func).encodings@,
        func_wf(final(func)@),
        r ==> final(func)@.0.len() > old(func)@.0.len(),
        keeps_before(old(func)@, final(func)@, inst, pos as int),
{
    proof {
        reveal(expand_isub_borrow_spec);
    }
    let mut p = pos;
    let x = d.arg0;
    let y = d.arg1;
    let b_in = d.arg2;
    let typeof_x = func.value_type(x);
    let a = d.res0;
    let b = d.res1;
    func.clear_results(inst);
    let ty1 = func.value_type(x);
    let (a1, b1) = func.ins(p, make_inst(Opcode::IsubBout, ty1, x, y, 0u32, 0i64, IntCC::Equal, TrapCode::User(0), 0u8, 0i32, 0u32, 0u32), None, None);
    p = p + 1;
    let (b_int, _r1) = func.ins(p, make_inst(Opcode::Bint, typeof_x, b_in, 0u32, 0u32, 0i64, IntCC::Equal, TrapCode::User(0), 0u8, 0i32, 0u32, 0u32), None, None);
    p = p + 1;
    let ty2 = func.value_type(a1);
    let (a, b2) = func.ins(p, make_inst(Opcode::IsubBout, ty2, a1, b_int, 0u32, 0i64, IntCC::Equal, TrapCode::User(0), 0u8, 0i32, 0u32, 0u32), Some(a), None);
    p = p + 1;
    let ty3 = func.value_type(b1);
    let (b, _r1) = func.ins(p, make_inst(Opcode::Bor, ty3, b1, b2, 0u32, 0i64, IntCC::Equal, TrapCode::User(0), 0u8, 0i32, 0u32, 0u32), Some(b), None);
    p = p + 1;
    func.remove_inst(p);
    return true;
}

/// The function after the expansion of a `isub_bout` instruction, or `None` where no pattern applies.
#[verifier::opaque]
pub open spec fn expand_isub_bout_spec(v: FuncView, inst: Inst, pos: int, d: InstData) -> Option<FuncView> {
    let p = pos;
    let x = d.arg0;
    let y = d.arg1;
    let typeof_x = value_type_of(v, x);
    let a = d.res0;
    let b = d.res1;
    let v = s_clear_results(v, inst);
    let (new0, new1) = s_ins_results(v, inst_of(Opcode::Isub, value_type_of(v, x), x, y, 0u32, 0i64, IntCC::Equal, TrapCode::User(0), 0u8, 0i32, 0u32, 0u32), Some(a), None);
    let v = s_ins(v, p, inst_of(Opcode::Isub, value_type_of(v, x), x, y, 0u32, 0i64, IntCC::Equal, TrapCode::User(0), 0u8, 0i32, 0u32, 0u32), Some(a), None);
    let (a, _r1) = (new0, new1);
    let p = p + 1;
    let (new0, new1) = s_ins_results(v, inst_of(Opcode::IntCompare, value_type_of(v, a), a, x, 0u32, 0i64, IntCC::UnsignedGreaterThan, TrapCode::User(0), 0u8, 0i32, 0u32, 0u32), Some(b), None);
    let v = s_ins(v, p, inst_of(Opcode::IntCompare, value_type_of(v, a), a, x, 0u32, 0i64, IntCC::UnsignedGreaterThan, TrapCode::User(0), 0u8, 0i32, 0u32, 0u32), Some(b), None);
    let (b, _r1) = (new0, new1);
    let p = p + 1;
    let v = s_remove(v, p);
    Some(v)
}

/// Legalize a `isub_bout` instruction by expansion.
fn expand_isub_bout(inst: Inst, pos: usize, d: InstData, func: &mut Function) -> (r: bool)
    requires
        pattern_input(old(func)@, inst, pos as int, d),
    ensures
        pattern_outcome(old(func)@, final(func)@, r, expand_isub_bout_spec(old(func)@, inst, pos as int, d)),
        final(func).encodings@ == old(func).encodings@,
        func_wf(final(func)@),
        r ==> final(func)@.0.len() > old(func)@.0.len(),
        keeps_before(old(func)@, final(func)@, inst, pos as int),
{
    proof {
        reveal(expand_isub_bout_spec);
    }
    let mut p = pos;
    let x = d.arg0;
    let y = d.arg1;
    let typeof_x = func.value_type(x);
    let a = d.res0;
    let b = d.res1;
    func.clear_results(inst);
    let ty1 = func.value_type(x);
    let (a, _r1) = func.ins(p, make_inst(Opcode::Isub, ty1, x, y, 0u32, 0i64, IntCC::Equal, TrapCode::User(0), 0u8, 0i32, 0u32, 0u32), Some(a), None);
    p = p + 1;
    let ty2 = func.value_type(a);
    let (b, _r1) = func.ins(p, make_inst(Opcode::IntCompare, ty2, a, x, 0u32, 0i64, IntCC::UnsignedGreaterThan, TrapCode::User(0), 0u8, 0i32, 0u32, 0u32), Some(b), None);
    p = p + 1;
    func.remove_inst(p);
    return true;
}

/// The function after the expansion of a `rotl_imm` instruction, or `None` where no pattern applies.
#[verifier::opaque]
pub open spec fn expand_rotl_imm_spec(v: FuncView, inst: Inst, pos: int, d: InstData) -> Option<FuncView> {
    let p = pos;
    let x = d.arg0;
    let y = d.imm;
    let typeof_x = value_type_of(v, x);
    let (new0, new1) = s_ins_results(v, inst_of(Opcode::Iconst, ValueType(I32), 0u32, 0u32, 0u32, y, IntCC::Equal, TrapCode::User(0), 0u8, 0i32, 0u32, 0u32), None, None);
    let v = s_ins(v, p, inst_of(Opcode::Iconst, ValueType(I32), 0u32, 0u32, 0u32, y, IntCC::Equal, TrapCode::User(0), 0u8, 0i32, 0u32, 0u32), None, None);
    let (a1, _r1) = (new0, new1);
    let p = p + 1;
    let v = s_replace(v, inst, inst_of(Opcode::Rotl, value_type_of(v, x), x, a1, 0u32, 0i64, IntCC::Equal, TrapCode::User(0), 0u8, 0i32, 0u32, 0u32));
    Some(v)
}

/// Legalize a `rotl_imm` instruction by expansion.
fn expand_rotl_imm(inst: Inst, pos: usize, d: InstData, func: &mut Function) -> (r: bool)
    requires
        pattern_input(old(func)@, inst, pos as int, d),
    ensures
        pattern_outcome(old(func)@, final(func)@, r, expand_rotl_imm_spec(old(func)@, inst, pos as int, d)),
        final(func).encodings@ == old(func).encodings@,
        func_wf(final(func)@),
        r ==> final(func)@.0.len() > old(func)@.0.len(),
        keeps_before(old(func)@, final(func)@, inst, pos as int),
{
    proof {
        reveal(expand_rotl_imm_spec);
    }
    let mut p = pos;
    let x = d.arg0;
    let y = d.imm;
    let typeof_x = func.value_type(x);
    let (a1, _r1) = func.ins(p, make_inst(Opcode::Iconst, ValueType(I32), 0u32, 0u32, 0u32, y, IntCC::Equal, TrapCode::User(0), 0u8, 0i32, 0u32, 0u32), None, None);
    p = p + 1;
    let ty1 = func.value_type(x);
    func.replace(inst, make_inst(Opcode::Rotl, ty1, x, a1, 0u32, 0i64, IntCC::Equal, TrapCode::User(0), 0u8, 0i32, 0u32, 0u32));
    return true;
}

/// The function after the expansion of a `rotr_imm` instruction, or `None` where no pattern applies.
#[verifier::opaque]
pub open spec fn expand_rotr_imm_spec(v: FuncView, inst: Inst, pos: int, d: InstData) -> Option<FuncView> {
    let p = pos;
    let x = d.arg0;
    let y = d.imm;
    let typeof_x = value_type_of(v, x);
    let (new0, new1) = s_ins_results(v, inst_of(Opcode::Iconst, ValueType(I32), 0u32, 0u32, 0u32, y, IntCC::Equal, TrapCode::User(0), 0u8, 0i32, 0u32, 0u32), None, None);
    let v = s_ins(v, p, inst_of(Opcode::Iconst, ValueType(I32), 0u32, 0u32, 0u32, y, IntCC::Equal, TrapCode::User(0), 0u8, 0i32, 0u32, 0u32), None, None);
    let (a1, _r1) = (new0, new1);
    let p = p + 1;
    let v = s_replace(v, inst, inst_of(Opcode::Rotr, value_type_of(v, x), x, a1, 0u32, 0i64, IntCC::Equal, TrapCode::User(0), 0u8, 0i32, 0u32, 0u32));
    Some(v)
}

/// Legalize a `rotr_imm` instruction by expansion.
fn expand_rotr_imm(inst: Inst, pos: usize, d: InstData, func: &mut Function) -> (r: bool)
    requires
        pattern_input(old(func)@, inst, pos as int, d),
    ensures
        pattern_outcome(old(func)@, final(func)@, r, expand_rotr_imm_spec(old(func)@, inst, pos as int, d)),
        final(func).encodings@ == old(func).encodings@,
        func_wf(final(func)@),
        r ==> final(func)@.0.len() > old(func)@.0.len(),
        keeps_before(old(func)@, final(func)@, inst, pos as int),
{
    proof {
        reveal(expand_rotr_imm_spec);
    }
    let mut p = pos;
    let x = d.arg0;
    let y = d.imm;
    let typeof_x = func.value_type(x);
    let (a1, _r1) = func.ins(p, make_inst(Opcode::Iconst, ValueType(I32), 0u32, 0u32, 0u32, y, IntCC::Equal, TrapCode::User(0), 0u8, 0i32, 0u32, 0u32), None, None);
    p = p + 1;
    let ty1 = func.value_type(x);
    func.replace(inst, make_inst(Opcode::Rotr, ty1, x, a1, 0u32, 0i64, IntCC::Equal, TrapCode::User(0), 0u8, 0i32, 0u32, 0u32));
    return true;
}

/// The function after the expansion of a `sdiv_imm` instruction, or `None` where no pattern applies.
#[verifier::opaque]
pub open spec fn expand_sdiv_imm_spec(v: FuncView, inst: Inst, pos: int, d: InstData) -> Option<FuncView> {
    let p = pos;
    let x = d.arg0;
    let y = d.imm;
    let typeof_x = value_type_of(v, x);
    let (new0, new1) = s_ins_results(v, inst_of(Opcode::Iconst, typeof_x, 0u32, 0u32, 0u32, y, IntCC::Equal, TrapCode::User(0), 0u8, 0i32, 0u32, 0u32), None, None);
    let v = s_ins(v, p, inst_of(Opcode::Iconst, typeof_x, 0u32, 0u32, 0u32, y, IntCC::Equal, TrapCode::User(0), 0u8, 0i32, 0u32, 0u32), None, None);
    let (a1, _r1) = (new0, new1);
    let p = p + 1;
    let v = s_replace(v, inst, inst_of(Opcode::Sdiv, value_type_of(v, x), x, a1, 0u32, 0i64, IntCC::Equal, TrapCode::User(0), 0u8, 0i32, 0u32, 0u32));
    Some(v)
}

/// Legalize a `sdiv_imm` instruction by expansion.
fn expand_sdiv_imm(inst: Inst, pos: usize, d: InstData, func: &mut Function) -> (r: bool)
    requires
        pattern_input(old(func)@, inst, pos as int, d),
    ensures
        pattern_outcome(old(func)@, final(func)@, r, expand_sdiv_imm_spec(old(func)@, inst, pos as int, d)),
        final(func).encodings@ == old(func).encodings@,
        func_wf(final(func)@),
        r ==> final(func)@.0.len() > old(func)@.0.len(),
        keeps_before(old(func)@, final(func)@, inst, pos as int),
{
    proof {
        reveal(expand_sdiv_imm_spec);
    }
    let mut p = pos;
    let x = d.arg0;
    let y = d.imm;
    let typeof_x = func.value_type(x);
    let (a1, _r1) = func.ins(p, make_inst(Opcode::Iconst, typeof_x, 0u32, 0u32, 0u32, y, IntCC::Equal, TrapCode::User(0), 0u8, 0i32, 0u32, 0u32), None, None);
    p = p + 1;
    let ty1 = func.value_type(x);
    func.replace(inst, make_inst(Opcode::Sdiv, ty1, x, a1, 0u32, 0i64, IntCC::Equal, TrapCode::User(0), 0u8, 0i32, 0u32, 0u32));
    return true;
}

/// The function after the expansion of a `srem_imm` instruction, or `None` where no pattern applies.
#[verifier::opaque]
pub open spec fn expand_srem_imm_spec(v: FuncView, inst: Inst, pos: int, d: InstData) -> Option<FuncView> {
    let p = pos;
    let x = d.arg0;
    let y = d.imm;
    let typeof_x = value_type_of(v, x);
    let (new0, new1) = s_ins_results(v, inst_of(Opcode::Iconst, typeof_x, 0u32, 0u32, 0u32, y, IntCC::Equal, TrapCode::User(0), 0u8, 0i32, 0u32, 0u32), None, None);
    let v = s_ins(v, p, inst_of(Opcode::Iconst, typeof_x, 0u32, 0u32, 0u32, y, IntCC::Equal, TrapCode::User(0), 0u8, 0i32, 0u32, 0u32), None, None);
    let (a1, _r1) = (new0, new1);
    let p = p + 1;
    let v = s_replace(v, inst, inst_of(Opcode::Srem, value_type_of(v, x), x, a1, 0u32, 0i64, IntCC::Equal, TrapCode::User(0), 0u8, 0i32, 0u32, 0u32));
    Some(v)
}

/// Legalize a `srem_imm` instruction by expansion.
fn expand_srem_imm(inst: Inst, pos: usize, d: InstData, func: &mut Function) -> (r: bool)
    requires
        pattern_input(old(func)@, inst, pos as int, d),
    ensures
        pattern_outcome(old(func)@, final(func)@, r, expand_srem_imm_spec(old(func)@, inst, pos as int, d)),
        final(func).encodings@ == old(func).encodings@,
        func_wf(final(func)@),
        r ==> final(func)@.0.len() > old(func)@.0.len(),
        keeps_before(old(func)@, final(func)@, inst, pos as int),
{
    proof {
        reveal(expand_srem_imm_spec);
    }
    let mut p = pos;
    let x = d.arg0;
    let y = d.imm;
    let typeof_x = func.value_type(x);
    let (a1, _r1) = func.ins(p, make_inst(Opcode::Iconst, typeof_x, 0u32, 0u32, 0u32, y, IntCC::Equal, TrapCode::User(0), 0u8, 0i32, 0u32, 0u32), None, None);
    p = p + 1;
    let ty1 = func.value_type(x);
    func.replace(inst, make_inst(Opcode::Srem, ty1, x, a1, 0u32, 0i64, IntCC::Equal, TrapCode::User(0), 0u8, 0i32, 0u32, 0u32));
    return true;
}

/// The function after the expansion of a `sshr_imm` instruction, or `None` where no pattern applies.
#[verifier::opaque]
pub open spec fn expand_sshr_imm_spec(v: FuncView, inst: Inst, pos: int, d: InstData) -> Option<FuncView> {
    let p = pos;
    let x = d.arg0;
    let y = d.imm;
    let typeof_x = value_type_of(v, x);
    let (new0, new1) = s_ins_results(v, inst_of(Opcode::Iconst, ValueType(I32), 0u32, 0u32, 0u32, y, IntCC::Equal, TrapCode::User(0), 0u8, 0i32, 0u32, 0u32), None, None);
    let v = s_ins(v, p, inst_of(Opcode::Iconst, ValueType(I32), 0u32, 0u32, 0u32, y, IntCC::Equal, TrapCode::User(0), 0u8, 0i32, 0u32, 0u32), None, None);
    let (a1, _r1) = (new0, new1);
    let p = p + 1;
    let v = s_replace(v, inst, inst_of(Opcode::Sshr, value_type_of(v, x), x, a1, 0u32, 0i64, IntCC::Equal, TrapCode::User(0), 0u8, 0i32, 0u32, 0u32));
    Some(v)
}

/// Legalize a `sshr_imm` instruction by expansion.
fn expand_sshr_imm(inst: Inst, pos: usize, d: InstData, func: &mut Function) -> (r: bool)
    requires
        pattern_input(old(func)@, inst, pos as int, d),
    ensures
        pattern_outcome(old(func)@, final(func)@, r, expand_sshr_imm_spec(old(func)@, inst, pos as int, d)),
        final(func).encodings@ == old(func).encodings@,
        func_wf(final(func)@),
        r ==> final(func)@.0.len() > old(func)@.0.len(),
        keeps_before(old(func)@, final(func)@, inst, pos as int),
{
    proof {
        reveal(expand_sshr_imm_spec);
    }
    let mut p = pos;
    let x = d.arg0;
    let y = d.imm;
    let typeof_x = func.value_type(x);
    let (a1, _r1) = func.ins(p, make_inst(Opcode::Iconst, ValueType(I32), 0u32, 0u32, 0u32, y, IntCC::Equal, TrapCode::User(0), 0u8, 0i32, 0u32, 0u32), None, None);
    p = p + 1;
    let ty1 = func.value_type(x);
    func.replace(inst, make_inst(Opcode::Sshr, ty1, x, a1, 0u32, 0i64, IntCC::Equal, TrapCode::User(0), 0u8, 0i32, 0u32, 0u32));
    return true;
}

/// The function after the expansion of a `udiv_imm` instruction, or `None` where no pattern applies.
#[verifier::opaque]
pub open spec fn expand_udiv_imm_spec(v: FuncView, inst: Inst, pos: int, d: InstData) -> Option<FuncView> {
    let p = pos;
    let x = d.arg0;
    let y = d.imm;
    let typeof_x = value_type_of(v, x);
    let (new0, new1) = s_ins_results(v, inst_of(Opcode::Iconst, typeof_x, 0u32, 0u32, 0u32, y, IntCC::Equal, TrapCode::User(0), 0u8, 0i32, 0u32, 0u32), None, None);
    let v = s_ins(v, p, inst_of(Opcode::Iconst, typeof_x, 0u32, 0u32, 0u32, y, IntCC::Equal, TrapCode::User(0), 0u8, 0i32, 0u32, 0u32), None, None);
    let (a1, _r1) = (new0, new1);
    let p = p + 1;
    let v = s_replace(v, inst, inst_of(Opcode::Udiv, value_type_of(v, x), x, a1, 0u32, 0i64, IntCC::Equal, TrapCode::User(0), 0u8, 0i32, 0u32, 0u32));
    Some(v)
}

/// Legalize a `udiv_imm` instruction by expansion.
fn expand_udiv_imm(inst: Inst, pos: usize, d: InstData, func: &mut Function) -> (r: bool)
    requires
        pattern_input(old(func)@, inst, pos as int, d),
    ensures
        pattern_outcome(old(func)@, final(func)@, r, expand_udiv_imm_spec(old(func)@, inst, pos as int, d)),
        final(func).encodings@ == old(func).encodings@,
        func_wf(final(func)@),
        r ==> final(func)@.0.len() > old(func)@.0.len(),
        keeps_before(old(func)@, final(func)@, inst, pos as int),
{
    proof {
        reveal(expand_udiv_imm_spec);
    }
    let mut p = pos;
    let x = d.arg0;
    let y = d.imm;
    let typeof_x = func.value_type(x);
    let (a1, _r1) = func.ins(p, make_inst(Opcode::Iconst, typeof_x, 0u32, 0u32, 0u32, y, IntCC::Equal, TrapCode::User(0), 0u8, 0i32, 0u32, 0u32), None, None);
    p = p + 1;
    let ty1 = func.value_type(x);
    func.replace(inst, make_inst(Opcode::Udiv, ty1, x, a1, 0u32, 0i64, IntCC::Equal, TrapCode::User(0), 0u8, 0i32, 0u32, 0u32));
    return true;
}

/// The function after the expansion of a `urem_imm` instruction, or `None` where no pattern applies.
#[verifier::opaque]
pub open spec fn expand_urem_imm_spec(v: FuncView, inst: Inst, pos: int, d: InstData) -> Option<FuncView> {
    let p = pos;
    let x = d.arg0;
    let y = d.imm;
    let typeof_x = value_type_of(v, x);
    let (new0, new1) = s_ins_results(v, inst_of(Opcode::Iconst, typeof_x, 0u32, 0u32, 0u32, y, IntCC::Equal, TrapCode::User(0), 0u8, 0i32, 0u32, 0u32), None, None);
    let v = s_ins(v, p, inst_of(Opcode::Iconst, typeof_x, 0u32, 0u32, 0u32, y, IntCC::Equal, TrapCode::User(0), 0u8, 0i32, 0u32, 0u32), None, None);
    let (a1, _r1) = (new0, new1);
    let p = p + 1;
    let v = s_replace(v, inst, inst_of(Opcode::Urem, value_type_of(v, x), x, a1, 0u32, 0i64, IntCC::Equal, TrapCode::User(0), 0u8, 0i32, 0u32, 0u32));
    Some(v)
}

/// Legalize a `urem_imm` instruction by expansion.
fn expand_urem_imm(inst: Inst, pos: usize, d: InstData, func: &mut Function) -> (r: bool)
    requires
        pattern_input(old(func)@, inst, pos as int, d),
    ensures
        pattern_outcome(old(func)@, final(func)@, r, expand_urem_imm_spec(old(func)@, inst, pos as int, d)),
        final(func).encodings@ == old(func).encodings@,
        func_wf(final(func)@),
        r ==> final(func)@.0.len() > old(func)@.0.len(),
        keeps_before(old(func)@, final(func)@, inst, pos as int),
{
    proof {
        reveal(expand_urem_imm_spec);
    }
    let mut p = pos;
    let x = d.arg0;
    let y = d.imm;
    let typeof_x = func.value_type(x);
    let (a1, _r1) = func.ins(p, make_inst(Opcode::Iconst, typeof_x, 0u32, 0u32, 0u32, y, IntCC::Equal, TrapCode::User(0), 0u8, 0i32, 0u32, 0u32), None, None);
    p = p + 1;
    let ty1 = func.value_type(x);
    func.replace(inst, make_inst(Opcode::Urem, ty1, x, a1, 0u32, 0i64, IntCC::Equal, TrapCode::User(0), 0u8, 0i32, 0u32, 0u32));
    return true;
}

/// The function after the expansion of a `ushr_imm` instruction, or `None` where no pattern applies.
#[verifier::opaque]
pub open spec fn expand_ushr_imm_spec(v: FuncView, inst: Inst, pos: int, d: InstData) -> Option<FuncView> {
    let p = pos;
    let x = d.arg0;
    let y = d.imm;
    let typeof_x = value_type_of(v, x);
    let (new0, new1) = s_ins_results(v, inst_of(Opcode::Iconst, ValueType(I32), 0u32, 0u32, 0u32, y, IntCC::Equal, TrapCode::User(0), 0u8, 0i32, 0u32, 0u32), None, None);
    let v = s_ins(v, p, inst_of(Opcode::Iconst, ValueType(I32), 0u32, 0u32, 0u32, y, IntCC::Equal, TrapCode::User(0), 0u8, 0i32, 0u32, 0u32), None, None);
    let (a1, _r1) = (new0, new1);
    let p = p + 1;
    let v = s_replace(v, inst, inst_of(Opcode::Ushr, value_type_of(v, x), x, a1, 0u32, 0i64, IntCC::Equal, TrapCode::User(0), 0u8, 0i32, 0u32, 0u32));
    Some(v)
}

/// Legalize a `ushr_imm` instruction by expansion.
fn expand_ushr_imm(inst: Inst, pos: usize, d: InstData, func: &mut Function) -> (r: bool)
    requires
        pattern_input(old(func)@, inst, pos as int, d),
    ensures
        pattern_outcome(old(func)@, final(func)@, r, expand_ushr_imm_spec(old(func)@, inst, pos as int, d)),
        final(func).encodings@ == old(func).encodings@,
        func_wf(final(func)@),
        r ==> final(func)@.0.len() > old(func)@.0.len(),
        keeps_before(old(func)@, final(func)@, inst, pos as int),
{
    proof {
        reveal(expand_ushr_imm_spec);
    }
    let mut p = pos;
    let x = d.arg0;
    let y = d.imm;
    let typeof_x = func.value_type(x);
    let (a1, _r1) = func.ins(p, make_inst(Opcode::Iconst, ValueType(I32), 0u32, 0u32, 0u32, y, IntCC::Equal, TrapCode::User(0), 0u8, 0i32, 0u32, 0u32), None, None);
    p = p + 1;
    let ty1 = func.value_type(x);
    func.replace(inst, make_inst(Opcode::Ushr, ty1, x, a1, 0u32, 0i64, IntCC::Equal, TrapCode::User(0), 0u8, 0i32, 0u32, 0u32));
    return true;
}

/// The function after the expansion with flags of a `trapnz` instruction, or `None` where no pattern applies.
#[verifier::opaque]
pub open spec fn expand_flags_trapnz_spec(v: FuncView, inst: Inst, pos: int, d: InstData) -> Option<FuncView> {
    let p = pos;
    let x = d.arg0;
    let c = d.code;
    let typeof_x = value_type_of(v, x);
    let predicate = true;
    let predicate = predicate && type_set_holds(1, typeof_x);
    if predicate {
        let v = s_clear_results(v, inst);
        let (new0, new1) = s_ins_results(v, inst_of(Opcode::IntFlagsCompareImm, value_type_of(v, x), x, 0u32, 0u32, 0i64, IntCC::Equal, TrapCode::User(0), 0u8, 0i32, 0u32, 0u32), None, None);
        let v = s_ins(v, p, inst_of(Opcode::IntFlagsCompareImm, value_type_of(v, x), x, 0u32, 0u32, 0i64, IntCC::Equal, TrapCode::User(0), 0u8, 0i32, 0u32, 0u32), None, None);
        let (a, _r1) = (new0, new1);
        let p = p + 1;
        let (new0, new1) = s_ins_results(v, inst_of(Opcode::Trapif, value_type_of(v, a), a, 0u32, 0u32, 0i64, IntCC::NotEqual, c, 0u8, 0i32, 0u32, 0u32), None, None);
        let v = s_ins(v, p, inst_of(Opcode::Trapif, value_type_of(v, a), a, 0u32, 0u32, 0i64, IntCC::NotEqual, c, 0u8, 0i32, 0u32, 0u32), None, None);
        let (_r0, _r1) = (new0, new1);
        let p = p + 1;
        let v = s_remove(v, p);
        Some(v)
} else {
    None
}
}

/// Legalize a `trapnz` instruction by expansion with flags.
fn expand_flags_trapnz(inst: Inst, pos: usize, d: InstData, func: &mut Function) -> (r: bool)
    requires
        pattern_input(old(func)@, inst, pos as int, d),
    ensures
        pattern_outcome(old(func)@, final(func)@, r, expand_flags_trapnz_spec(old(func)@, inst, pos as int, d)),
        final(func).encodings@ == old(func).encodings@,
        func_wf(final(func)@),
        r ==> final(func)@.0.len() > old(func)@.0.len(),
        keeps_before(old(func)@, final(func)@, inst, pos as int),
{
    proof {
        reveal(expand_flags_trapnz_spec);
    }
    let mut p = pos;
    let x = d.arg0;
    let c = d.code;
    let typeof_x = func.value_type(x);
    let predicate = true;
    let predicate = predicate && in_type_set(1, typeof_x);
    if predicate {
        func.clear_results(inst);
        let ty1 = func.value_type(x);
        let (a, _r1) = func.ins(p, make_inst(Opcode::IntFlagsCompareImm, ty1, x, 0u32, 0u32, 0i64, IntCC::Equal, TrapCode::User(0), 0u8, 0i32, 0u32, 0u32), None, None);
        p = p + 1;
        let ty2 = func.value_type(a);
        let (_r0, _r1) = func.ins(p, make_inst(Opcode::Trapif, ty2, a, 0u32, 0u32, 0i64, IntCC::NotEqual, c, 0u8, 0i32, 0u32, 0u32), None, None);
        p = p + 1;
        func.remove_inst(p);
        return true;
    }
    false
}

/// The function after the expansion with flags of a `trapz` instruction, or `None` where no pattern applies.
#[verifier::opaque]
pub open spec fn expand_flags_trapz_spec(v: FuncView, inst: Inst, pos: int, d: InstData) -> Option<FuncView> {
    let p = pos;
    let x = d.arg0;
    let c = d.code;
    let typeof_x = value_type_of(v, x);
    let predicate = true;
    let predicate = predicate && type_set_holds(1, typeof_x);
    if predicate {
        let v = s_clear_results(v, inst);
        let (new0, new1) = s_ins_results(v, inst_of(Opcode::IntFlagsCompareImm, value_type_of(v, x), x, 0u32, 0u32, 0i64, IntCC::Equal, TrapCode::User(0), 0u8, 0i32, 0u32, 0u32), None, None);
        let v = s_ins(v, p, inst_of(Opcode::IntFlagsCompareImm, value_type_of(v, x), x, 0u32, 0u32, 0i64, IntCC::Equal, TrapCode::User(0), 0u8, 0i32, 0u32, 0u32), None, None);
        let (a, _r1) = (new0, new1);
        let p = p + 1;
        let (new0, new1) = s_ins_results(v, inst_of(Opcode::Trapif, value_type_of(v, a), a, 0u32, 0u32, 0i64, IntCC::Equal, c, 0u8, 0i32, 0u32, 0u32), None, None);
        let v = s_ins(v, p, inst_of(Opcode::Trapif, value_type_of(v, a), a, 0u32, 0u32, 0i64, IntCC::Equal, c, 0u8, 0i32, 0u32, 0u32), None, None);
        let (_r0, _r1) = (new0, new1);
        let p = p + 1;
        let v = s_remove(v, p);
        Some(v)
} else {
    None
}
}

/// Legalize a `trapz` instruction by expansion with flags.
fn expand_flags_trapz(inst: Inst, pos: usize, d: InstData, func: &mut Function) -> (r: bool)
    requires
        pattern_input(old(func)@, inst, pos as int, d),
    ensures
        pattern_outcome(old(func)@, final(func)@, r, expand_flags_trapz_spec(old(func)@, inst, pos as int, d)),
        final(func).encodings@ == old(func).encodings@,
        func_wf(final(func)@),
        r ==> final(func)@.0.len() > old(func)@.0.len(),
        keeps_before(old(func)@, final(func)@, inst, pos as int),
{
    proof {
        reveal(expand_flags_trapz_spec);
    }
    let mut p = pos;
    let x = d.arg0;
    let c = d.code;
    let typeof_x = func.value_type(x);
    let predicate = true;
    let predicate = predicate && in_type_set(1, typeof_x);
    if predicate {
        func.clear_results(inst);
        let ty1 = func.value_type(x);
        let (a, _r1) = func.ins(p, make_inst(Opcode::IntFlagsCompareImm, ty1, x, 0u32, 0u32, 0i64, IntCC::Equal, TrapCode::User(0), 0u8, 0i32, 0u32, 0u32), None, None);
        p = p + 1;
        let ty2 = func.value_type(a);
        let (_r0, _r1) = func.ins(p, make_inst(Opcode::Trapif, ty2, a, 0u32, 0u32, 0i64, IntCC::Equal, c, 0u8, 0i32, 0u32, 0u32), None, None);
        p = p + 1;
        func.remove_inst(p);
        return true;
    }
    false
}

/// The function after the widening of a `band` instruction, or `None` where no pattern applies.
#[verifier::opaque]
pub open spec fn widen_band_spec(v: FuncView, inst: Inst, pos: int, d: InstData) -> Option<FuncView> {
    let p = pos;
    let b = d.arg0;
    let c = d.arg1;
    if value_type_of(v, d.arg0) == ValueType(I8) {
        let (new0, new1) = s_ins_results(v, inst_of(Opcode::Uextend, ValueType(I32), b, 0u32, 0u32, 0i64, IntCC::Equal, TrapCode::User(0), 0u8, 0i32, 0u32, 0u32), None, None);
        let v = s_ins(v, p, inst_of(Opcode::Uextend, ValueType(I32), b, 0u32, 0u32, 0i64, IntCC::Equal, TrapCode::User(0), 0u8, 0i32, 0u32, 0u32), None, None);
        let (x, _r1) = (new0, new1);
        let p = p + 1;
        let (new0, new1) = s_ins_results(v, inst_of(Opcode::Uextend, ValueType(I32), c, 0u32, 0u32, 0i64, IntCC::Equal, TrapCode::User(0), 0u8, 0i32, 0u32, 0u32), None, None);
        let v = s_ins(v, p, inst_of(Opcode::Uextend, ValueType(I32), c, 0u32, 0u32, 0i64, IntCC::Equal, TrapCode::User(0), 0u8, 0i32, 0u32, 0u32), None, None);
        let (y, _r1) = (new0, new1);
        let p = p + 1;
        let (new0, new1) = s_ins_results(v, inst_of(Opcode::Band, value_type_of(v, x), x, y, 0u32, 0i64, IntCC::Equal, TrapCode::User(0), 0u8, 0i32, 0u32, 0u32), None, None);
        let v = s_ins(v, p, inst_of(Opcode::Band, value_type_of(v, x), x, y, 0u32, 0i64, IntCC::Equal, TrapCode::User(0), 0u8, 0i32, 0u32, 0u32), None, None);
        let (z, _r1) = (new0, new1);
        let p = p + 1;
        let v = s_replace(v, inst, inst_of(Opcode::Ireduce, ValueType(I8), z, 0u32, 0u32, 0i64, IntCC::Equal, TrapCode::User(0), 0u8, 0i32, 0u32, 0u32));
        Some(v)
} else {
    if value_type_of(v, d.arg0) == ValueType(I16) {
        let (new0, new1) = s_ins_results(v, inst_of(Opcode::Uextend, ValueType(I32), b, 0u32, 0u32, 0i64, IntCC::Equal, TrapCode::User(0), 0u8, 0i32, 0u32, 0u32), None, None);
        let v = s_ins(v, p, inst_of(Opcode::Uextend, ValueType(I32), b, 0u32, 0u32, 0i64, IntCC::Equal, TrapCode::User(0), 0u8, 0i32, 0u32, 0u32), None, None);
        let (x, _r1) = (new0, new1);
        let p = p + 1;
        let (new0, new1) = s_ins_results(v, inst_of(Opcode::Uextend, ValueType(I32), c, 0u32, 0u32, 0i64, IntCC::Equal, TrapCode::User(0), 0u8, 0i32, 0u32, 0u32), None, None);
        let v = s_ins(v, p, inst_of(Opcode::Uextend, ValueType(I32), c, 0u32, 0u32, 0i64, IntCC::Equal, TrapCode::User(0), 0u8, 0i32, 0u32, 0u32), None, None);
        let (y, _r1) = (new0, new1);
        let p = p + 1;
        let (new0, new1) = s_ins_results(v, inst_of(Opcode::Band, value_type_of(v, x), x, y, 0u32, 0i64, IntCC::Equal, TrapCode::User(0), 0u8, 0i32, 0u32, 0u32), None, None);
        let v = s_ins(v, p, inst_of(Opcode::Band, value_type_of(v, x), x, y, 0u32, 0i64, IntCC::Equal, TrapCode::User(0), 0u8, 0i32, 0u32, 0u32), None, None);
        let (z, _r1) = (new0, new1);
        let p = p + 1;
        let v = s_replace(v, inst, inst_of(Opcode::Ireduce, ValueType(I16), z, 0u32, 0u32, 0i64, IntCC::Equal, TrapCode::User(0), 0u8, 0i32, 0u32, 0u32));
        Some(v)
} else {
    None
}
}
}

/// Legalize a `band` instruction by widening.
fn widen_band(inst: Inst, pos: usize, d: InstData, func: &mut Function) -> (r: bool)
    requires
        pattern_input(old(func)@, inst, pos as int, d),
    ensures
        pattern_outcome(old(func)@, final(func)@, r, widen_band_spec(old(func)@, inst, pos as int, d)),
        final(func).encodings@ == old(func).encodings@,
        func_wf(final(func)@),
        r ==> final(func)@.0.len() > old(func)@.0.len(),
        keeps_before(old(func)@, final(func)@, inst, pos as int),
{
    proof {
        reveal(widen_band_spec);
    }
    let mut p = pos;
    let b = d.arg0;
    let c = d.arg1;
    if func.value_type(d.arg0) == ValueType(I8) {
        let (x, _r1) = func.ins(p, make_inst(Opcode::Uextend, ValueType(I32), b, 0u32, 0u32, 0i64, IntCC::Equal, TrapCode::User(0), 0u8, 0i32, 0u32, 0u32), None, None);
        p = p + 1;
        let (y, _r1) = func.ins(p, make_inst(Opcode::Uextend, ValueType(I32), c, 0u32, 0u32, 0i64, IntCC::Equal, TrapCode::User(0), 0u8, 0i32, 0u32, 0u32), None, None);
        p = p + 1;
        let ty1 = func.value_type(x);
        let (z, _r1) = func.ins(p, make_inst(Opcode::Band, ty1, x, y, 0u32, 0i64, IntCC::Equal, TrapCode::User(0), 0u8, 0i32, 0u32, 0u32), None, None);
        p = p + 1;
        func.replace(inst, make_inst(Opcode::Ireduce, ValueType(I8), z, 0u32, 0u32, 0i64, IntCC::Equal, TrapCode::User(0), 0u8, 0i32, 0u32, 0u32));
        return true;
    }
    if func.value_type(d.arg0) == ValueType(I16) {
        let (x, _r1) = func.ins(p, make_inst(Opcode::Uextend, ValueType(I32), b, 0u32, 0u32, 0i64, IntCC::Equal, TrapCode::User(0), 0u8, 0i32, 0u32, 0u32), None, None);
        p = p + 1;
        let (y, _r1) = func.ins(p, make_inst(Opcode::Uextend, ValueType(I32), c, 0u32, 0u32, 0i64, IntCC::Equal, TrapCode::User(0), 0u8, 0i32, 0u32, 0u32), None, None);
        p = p + 1;
        let ty2 = func.value_type(x);
        let (z, _r1) = func.ins(p, make_inst(Opcode::Band, ty2, x, y, 0u32, 0i64, IntCC::Equal, TrapCode::User(0), 0u8, 0i32, 0u32, 0u32), None, None);
        p = p + 1;
        func.replace(inst, make_inst(Opcode::Ireduce, ValueType(I16), z, 0u32, 0u32, 0i64, IntCC::Equal, TrapCode::User(0), 0u8, 0i32, 0u32, 0u32));
        return true;
    }
    false
}

/// The function after the widening of a `band_imm` instruction, or `None` where no pattern applies.
#[verifier::opaque]
pub open spec fn widen_band_imm_spec(v: FuncView, inst: Inst, pos: int, d: InstData) -> Option<FuncView> {
    let p = pos;
    let b = d.arg0;
    let c = d.imm;
    if value_type_of(v, d.arg0) == ValueType(I8) {
        let (new0, new1) = s_ins_results(v, inst_of(Opcode::Uextend, ValueType(I32), b, 0u32, 0u32, 0i64, IntCC::Equal, TrapCode::User(0), 0u8, 0i32, 0u32, 0u32), None, None);
        let v = s_ins(v, p, inst_of(Opcode::Uextend, ValueType(I32), b, 0u32, 0u32, 0i64, IntCC::Equal, TrapCode::User(0), 0u8, 0i32, 0u32, 0u32), None, None);
        let (x, _r1) = (new0, new1);
        let p = p + 1;
        let (new0, new1) = s_ins_results(v, inst_of(Opcode::BandImm, value_type_of(v, x), x, 0u32, 0u32, c, IntCC::Equal, TrapCode::User(0), 0u8, 0i32, 0u32, 0u32), None, None);
        let v = s_ins(v, p, inst_of(Opcode::BandImm, value_type_of(v, x), x, 0u32, 0u32, c, IntCC::Equal, TrapCode::User(0), 0u8, 0i32, 0u32, 0u32), None, None);
        let (z, _r1) = (new0, new1);
        let p = p + 1;
        let v = s_replace(v, inst, inst_of(Opcode::Ireduce, ValueType(I8), z, 0u32, 0u32, 0i64, IntCC::Equal, TrapCode::User(0), 0u8, 0i32, 0u32, 0u32));
        Some(v)
} else {
    if value_type_of(v, d.arg0) == ValueType(I16) {
        let (new0, new1) = s_ins_results(v, inst_of(Opcode::Uextend, ValueType(I32), b, 0u32, 0u32, 0i64, IntCC::Equal, TrapCode::User(0), 0u8, 0i32, 0u32, 0u32), None, None);
        let v = s_ins(v, p, inst_of(Opcode::Uextend, ValueType(I32), b, 0u32, 0u32, 0i64, IntCC::Equal, TrapCode::User(0), 0u8, 0i32, 0u32, 0u32), None, None);
        let (x, _r1) = (new0, new1);
        let p = p + 1;
        let (new0, new1) = s_ins_results(v, inst_of(Opcode::BandImm, value_type_of(v, x), x, 0u32, 0u32, c, IntCC::Equal, TrapCode::User(0), 0u8, 0i32, 0u32, 0u32), None, None);
        let v = s_ins(v, p, inst_of(Opcode::BandImm, value_type_of(v, x), x, 0u32, 0u32, c, IntCC::Equal, TrapCode::User(0), 0u8, 0i32, 0u32, 0u32), None, None);
        let (z, _r1) = (new0, new1);
        let p = p + 1;
        let v = s_replace(v, inst, inst_of(Opcode::Ireduce, ValueType(I16), z, 0u32, 0u32, 0i64, IntCC::Equal, TrapCode::User(0), 0u8, 0i32, 0u32, 0u32));
        Some(v)
} else {
    None
}
}
}

/// Legalize a `band_imm` instruction by widening.
fn widen_band_imm(inst: Inst, pos: usize, d: InstData, func: &mut Function) -> (r: bool)
    requires
        pattern_input(old(func)@, inst, pos as int, d),
    ensures
        pattern_outcome(old(func)@, final(func)@, r, widen_band_imm_spec(old(func)@, inst, pos as int, d)),
        final(func).encodings@ == old(func).encodings@,
        func_wf(final(func)@),
        r ==> final(func)@.0.len() > old(func)@.0.len(),
        keeps_before(old(func)@, final(func)@, inst, pos as int),
{
    proof {
        reveal(widen_band_imm_spec);
    }
    let mut p = pos;
    let b = d.arg0;
    let c = d.imm;
    if func.value_type(d.arg0) == ValueType(I8) {
        let (x, _r1) = func.ins(p, make_inst(Opcode::Uextend, ValueType(I32), b, 0u32, 0u32, 0i64, IntCC::Equal, TrapCode::User(0), 0u8, 0i32, 0u32, 0u32), None, None);
        p = p + 1;
        let ty1 = func.value_type(x);
        let (z, _r1) = func.ins(p, make_inst(Opcode::BandImm, ty1, x, 0u32, 0u32, c, IntCC::Equal, TrapCode::User(0), 0u8, 0i32, 0u32, 0u32), None, None);
        p = p + 1;
        func.replace(inst, make_inst(Opcode::Ireduce, ValueType(I8), z, 0u32, 0u32, 0i64, IntCC::Equal, TrapCode::User(0), 0u8, 0i32, 0u32, 0u32));
        return true;
    }
    if func.value_type(d.arg0) == ValueType(I16) {
        let (x, _r1) = func.ins(p, make_inst(Opcode::Uextend, ValueType(I32), b, 0u32, 0u32, 0i64, IntCC::Equal, TrapCode::User(0), 0u8, 0i32, 0u32, 0u32), None, None);
        p = p + 1;
        let ty2 = func.value_type(x);
        let (z, _r1) = func.ins(p, make_inst(Opcode::BandImm, ty2, x, 0u32, 0u32, c, IntCC::Equal, TrapCode::User(0), 0u8, 0i32, 0u32, 0u32), None, None);
        p = p + 1;
        func.replace(inst, make_inst(Opcode::Ireduce, ValueType(I16), z, 0u32, 0u32, 0i64, IntCC::Equal, TrapCode::User(0), 0u8, 0i32, 0u32, 0u32));
        return true;
    }
    false
}

/// The function after the widening of a `band_not` instruction, or `None` where no pattern applies.
#[verifier::opaque]
pub open spec fn widen_band_not_spec(v: FuncView, inst: Inst, pos: int, d: InstData) -> Option<FuncView> {
    let p = pos;
    let b = d.arg0;
    let c = d.arg1;
    if value_type_of(v, d.arg0) == ValueType(I8) {
        let (new0, new1) = s_ins_results(v, inst_of(Opcode::Uextend, ValueType(I32), b, 0u32, 0u32, 0i64, IntCC::Equal, TrapCode::User(0), 0u8, 0i32, 0u32, 0u32), None, None);
        let v = s_ins(v, p, inst_of(Opcode::Uextend, ValueType(I32), b, 0u32, 0u32, 0i64, IntCC::Equal, TrapCode::User(0), 0u8, 0i32, 0u32, 0u32), None, None);
        let (x, _r1) = (new0, new1);
        let p = p + 1;
        let (new0, new1) = s_ins_results(v, inst_of(Opcode::Uextend, ValueType(I32), c, 0u32, 0u32, 0i64, IntCC::Equal, TrapCode::User(0), 0u8, 0i32, 0u32, 0u32), None, None);
        let v = s_ins(v, p, inst_of(Opcode::Uextend, ValueType(I32), c, 0u32, 0u32, 0i64, IntCC::Equal, TrapCode::User(0), 0u8, 0i32, 0u32, 0u32), None, None);
        let (y, _r1) = (new0, new1);
        let p = p + 1;
        let (new0, new1) = s_ins_results(v, inst_of(Opcode::BandNot, value_type_of(v, x), x, y, 0u32, 0i64, IntCC::Equal, TrapCode::User(0), 0u8, 0i32, 0u32, 0u32), None, None);
        let v = s_ins(v, p, inst_of(Opcode::BandNot, value_type_of(v, x), x, y, 0u32, 0i64, IntCC::Equal, TrapCode::User(0), 0u8, 0i32, 0u32, 0u32), None, None);
        let (z, _r1) = (new0, new1);
        let p = p + 1;
        let v = s_replace(v, inst, inst_of(Opcode::Ireduce, ValueType(I8), z, 0u32, 0u32, 0i64, IntCC::Equal, TrapCode::User(0), 0u8, 0i32, 0u32, 0u32));
        Some(v)
} else {
    if value_type_of(v, d.arg0) == ValueType(I16) {
        let (new0, new1) = s_ins_results(v, inst_of(Opcode::Uextend, ValueType(I32), b, 0u32, 0u32, 0i64, IntCC::Equal, TrapCode::User(0), 0u8, 0i32, 0u32, 0u32), None, None);
        let v = s_ins(v, p, inst_of(Opcode::Uextend, ValueType(I32), b, 0u32, 0u32, 0i64, IntCC::Equal, TrapCode::User(0), 0u8, 0i32, 0u32, 0u32), None, None);
        let (x, _r1) = (new0, new1);
        let p = p + 1;
        let (new0, new1) = s_ins_results(v, inst_of(Opcode::Uextend, ValueType(I32), c, 0u32, 0u32, 0i64, IntCC::Equal, TrapCode::User(0), 0u8, 0i32, 0u32, 0u32), None, None);
        let v = s_ins(v, p, inst_of(Opcode::Uextend, ValueType(I32), c, 0u32, 0u32, 0i64, IntCC::Equal, TrapCode::User(0), 0u8, 0i32, 0u32, 0u32), None, None);
        let (y, _r1) = (new0, new1);
        let p = p + 1;
        let (new0, new1) = s_ins_results(v, inst_of(Opcode::BandNot, value_type_of(v, x), x, y, 0u32, 0i64, IntCC::Equal, TrapCode::User(0), 0u8, 0i32, 0u32, 0u32), None, None);
        let v = s_ins(v, p, inst_of(Opcode::BandNot, value_type_of(v, x), x, y, 0u32, 0i64, IntCC::Equal, TrapCode::User(0), 0u8, 0i32, 0u32, 0u32), None, None);
        let (z, _r1) = (new0, new1);
        let p = p + 1;
        let v = s_replace(v, inst, inst_of(Opcode::Ireduce, ValueType(I16), z, 0u32, 0u32, 0i64, IntCC::Equal, TrapCode::User(0), 0u8, 0i32, 0u32, 0u32));
        Some(v)
} else {
    None
}
}
}

/// Legalize a `band_not` instruction by widening.
fn widen_band_not(inst: Inst, pos: usize, d: InstData, func: &mut Function) -> (r: bool)
    requires
        pattern_input(old(func)@, inst, pos as int, d),
    ensures
        pattern_outcome(old(func)@, final(func)@, r, widen_band_not_spec(old(func)@, inst, pos as int, d)),
        final(func).encodings@ == old(func).encodings@,
        func_wf(final(func)@),
        r ==> final(func)@.0.len() > old(func)@.0.len(),
        keeps_before(old(func)@, final(func)@, inst, pos as int),
{
    proof {
        reveal(widen_band_not_spec);
    }
    let mut p = pos;
    let b = d.arg0;
    let c = d.arg1;
    if func.value_type(d.arg0) == ValueType(I8) {
        let (x, _r1) = func.ins(p, make_inst(Opcode::Uextend, ValueType(I32), b, 0u32, 0u32, 0i64, IntCC::Equal, TrapCode::User(0), 0u8, 0i32, 0u32, 0u32), None, None);
        p = p + 1;
        let (y, _r1) = func.ins(p, make_inst(Opcode::Uextend, ValueType(I32), c, 0u32, 0u32, 0i64, IntCC::Equal, TrapCode::User(0), 0u8, 0i32, 0u32, 0u32), None, None);
        p = p + 1;
        let ty1 = func.value_type(x);
        let (z, _r1) = func.ins(p, make_inst(Opcode::BandNot, ty1, x, y, 0u32, 0i64, IntCC::Equal, TrapCode::User(0), 0u8, 0i32, 0u32, 0u32), None, None);
        p = p + 1;
        func.replace(inst, make_inst(Opcode::Ireduce, ValueType(I8), z, 0u32, 0u32, 0i64, IntCC::Equal, TrapCode::User(0), 0u8, 0i32, 0u32, 0u32));
        return true;
    }
    if func.value_type(d.arg0) == ValueType(I16) {
        let (x, _r1) = func.ins(p, make_inst(Opcode::Uextend, ValueType(I32), b, 0u32, 0u32, 0i64, IntCC::Equal, TrapCode::User(0), 0u8, 0i32, 0u32, 0u32), None, None);
        p = p + 1;
        let (y, _r1) = func.ins(p, make_inst(Opcode::Uextend, ValueType(I32), c, 0u32, 0u32, 0i64, IntCC::Equal, TrapCode::User(0), 0u8, 0i32, 0u32, 0u32), None, None);
        p = p + 1;
        let ty2 = func.value_type(x);
        let (z, _r1) = func.ins(p, make_inst(Opcode::BandNot, ty2, x, y, 0u32, 0i64, IntCC::Equal, TrapCode::User(0), 0u8, 0i32, 0u32, 0u32), None, None);
        p = p + 1;
        func.replace(inst, make_inst(Opcode::Ireduce, ValueType(I16), z, 0u32, 0u32, 0i64, IntCC::Equal, TrapCode::User(0), 0u8, 0i32, 0u32, 0u32));
        return true;
    }
    false
}

/// The function after the widening of a `bint` instruction, or `None` where no pattern applies.
#[verifier::opaque]
pub open spec fn widen_bint_spec(v: FuncView, inst: Inst, pos: int, d: InstData) -> Option<FuncView> {
    let p = pos;
    let b = d.arg0;
    let typeof_b = value_type_of(v, b);
    if d.ctrl == ValueType(I8) {
        let (new0, new1) = s_ins_results(v, inst_of(Opcode::Bint, ValueType(I32), b, 0u32, 0u32, 0i64, IntCC::Equal, TrapCode::User(0), 0u8, 0i32, 0u32, 0u32), None, None);
        let v = s_ins(v, p, inst_of(Opcode::Bint, ValueType(I32), b, 0u32, 0u32, 0i64, IntCC::Equal, TrapCode::User(0), 0u8, 0i32, 0u32, 0u32), None, None);
        let (x, _r1) = (new0, new1);
        let p = p + 1;
        let v = s_replace(v, inst, inst_of(Opcode::Ireduce, ValueType(I8), x, 0u32, 0u32, 0i64, IntCC::Equal, TrapCode::User(0), 0u8, 0i32, 0u32, 0u32));
        Some(v)
} else {
    if d.ctrl == ValueType(I16) {
        let (new0, new1) = s_ins_results(v, inst_of(Opcode::Bint, ValueType(I32), b, 0u32, 0u32, 0i64, IntCC::Equal, TrapCode::User(0), 0u8, 0i32, 0u32, 0u32), None, None);
        let v = s_ins(v, p, inst_of(Opcode::Bint, ValueType(I32), b, 0u32, 0u32, 0i64, IntCC::Equal, TrapCode::User(0), 0u8, 0i32, 0u32, 0u32), None, None);
        let (x, _r1) = (new0, new1);
        let p = p + 1;
        let v = s_replace(v, inst, inst_of(Opcode::Ireduce, ValueType(I16), x, 0u32, 0u32, 0i64, IntCC::Equal, TrapCode::User(0), 0u8, 0i32, 0u32, 0u32));
        Some(v)
} else {
    None
}
}
}

/// Legalize a `bint` instruction by widening.
fn widen_bint(inst: Inst, pos: usize, d: InstData, func: &mut Function) -> (r: bool)
    requires
        pattern_input(old(func)@, inst, pos as int, d),
    ensures
        pattern_outcome(old(func)@, final(func)@, r, widen_bint_spec(old(func)@, inst, pos as int, d)),
        final(func).encodings@ == old(func).encodings@,
        func_wf(final(func)@),
        r ==> final(func)@.0.len() > old(func)@.0.len(),
        keeps_before(old(func)@, final(func)@, inst, pos as int),
{
    proof {
        reveal(widen_bint_spec);
    }
    let mut p = pos;
    let b = d.arg0;
    let typeof_b = func.value_type(b);
    if d.ctrl == ValueType(I8) {
        let (x, _r1) = func.ins(p, make_inst(Opcode::Bint, ValueType(I32), b, 0u32, 0u32, 0i64, IntCC::Equal, TrapCode::User(0), 0u8, 0i32, 0u32, 0u32), None, None);
        p = p + 1;
        func.replace(inst, make_inst(Opcode::Ireduce, ValueType(I8), x, 0u32, 0u32, 0i64, IntCC::Equal, TrapCode::User(0), 0u8, 0i32, 0u32, 0u32));
        return true;
    }
    if d.ctrl == ValueType(I16) {
        let (x, _r1) = func.ins(p, make_inst(Opcode::Bint, ValueType(I32), b, 0u32, 0u32, 0i64, IntCC::Equal, TrapCode::User(0), 0u8, 0i32, 0u32, 0u32), None, None);
        p = p + 1;
        func.replace(inst, make_inst(Opcode::Ireduce, ValueType(I16), x, 0u32, 0u32, 0i64, IntCC::Equal, TrapCode::User(0), 0u8, 0i32, 0u32, 0u32));
        return true;
    }
    false
}

/// The function after the widening of a `bitrev` instruction by its pattern number 0.
#[verifier::opaque]
pub open spec fn widen_bitrev_0_spec(v: FuncView, inst: Inst, pos: int, d: InstData) -> Option<FuncView> {
    let p = pos;
    let x = d.arg0;
    let (new0, new1) = s_ins_results(v, inst_of(Opcode::BandImm, value_type_of(v, x), x, 0u32, 0u32, 170i64, IntCC::Equal, TrapCode::User(0), 0u8, 0i32, 0u32, 0u32), None, None);
    let v = s_ins(v, p, inst_of(Opcode::BandImm, value_type_of(v, x), x, 0u32, 0u32, 170i64, IntCC::Equal, TrapCode::User(0), 0u8, 0i32, 0u32, 0u32), None, None);
    let (a1, _r1) = (new0, new1);
    let p = p + 1;
    let (new0, new1) = s_ins_results(v, inst_of(Opcode::UshrImm, value_type_of(v, a1), a1, 0u32, 0u32, 1i64, IntCC::Equal, TrapCode::User(0), 0u8, 0i32, 0u32, 0u32), None, None);
    let v = s_ins(v, p, inst_of(Opcode::UshrImm, value_type_of(v, a1), a1, 0u32, 0u32, 1i64, IntCC::Equal, TrapCode::User(0), 0u8, 0i32, 0u32, 0u32), None, None);
    let (a2, _r1) = (new0, new1);
    let p = p + 1;
    let (new0, new1) = s_ins_results(v, inst_of(Opcode::BandImm, value_type_of(v, x), x, 0u32, 0u32, 85i64, IntCC::Equal, TrapCode::User(0), 0u8, 0i32, 0u32, 0u32), None, None);
    let v = s_ins(v, p, inst_of(Opcode::BandImm, value_type_of(v, x), x, 0u32, 0u32, 85i64, IntCC::Equal, TrapCode::User(0), 0u8, 0i32, 0u32, 0u32), None, None);
    let (a3, _r1) = (new0, new1);
    let p = p + 1;
    let (new0, new1) = s_ins_results(v, inst_of(Opcode::IshlImm, value_type_of(v, a3), a3, 0u32, 0u32, 1i64, IntCC::Equal, TrapCode::User(0), 0u8, 0i32, 0u32, 0u32), None, None);
    let v = s_ins(v, p, inst_of(Opcode::IshlImm, value_type_of(v, a3), a3, 0u32, 0u32, 1i64, IntCC::Equal, TrapCode::User(0), 0u8, 0i32, 0u32, 0u32), None, None);
    let (a4, _r1) = (new0, new1);
    let p = p + 1;
    let (new0, new1) = s_ins_results(v, inst_of(Opcode::Bor, value_type_of(v, a2), a2, a4, 0u32, 0i64, IntCC::Equal, TrapCode::User(0), 0u8, 0i32, 0u32, 0u32), None, None);
    let v = s_ins(v, p, inst_of(Opcode::Bor, value_type_of(v, a2), a2, a4, 0u32, 0i64, IntCC::Equal, TrapCode::User(0), 0u8, 0i32, 0u32, 0u32), None, None);
    let (b, _r1) = (new0, new1);
    let p = p + 1;
    let (new0, new1) = s_ins_results(v, inst_of(Opcode::BandImm, value_type_of(v, b), b, 0u32, 0u32, 204i64, IntCC::Equal, TrapCode::User(0), 0u8, 0i32, 0u32, 0u32), None, None);
    let v = s_ins(v, p, inst_of(Opcode::BandImm, value_type_of(v, b), b, 0u32, 0u32, 204i64, IntCC::Equal, TrapCode::User(0), 0u8, 0i32, 0u32, 0u32), None, None);
    let (b1, _r1) = (new0, new1);
    let p = p + 1;
    let (new0, new1) = s_ins_results(v, inst_of(Opcode::UshrImm, value_type_of(v, b1), b1, 0u32, 0u32, 2i64, IntCC::Equal, TrapCode::User(0), 0u8, 0i32, 0u32, 0u32), None, None);
    let v = s_ins(v, p, inst_of(Opcode::UshrImm, value_type_of(v, b1), b1, 0u32, 0u32, 2i64, IntCC::Equal, TrapCode::User(0), 0u8, 0i32, 0u32, 0u32), None, None);
    let (b2, _r1) = (new0, new1);
    let p = p + 1;
    let (new0, new1) = s_ins_results(v, inst_of(Opcode::BandImm, value_type_of(v, b), b, 0u32, 0u32, 51i64, IntCC::Equal, TrapCode::User(0), 0u8, 0i32, 0u32, 0u32), None, None);
    let v = s_ins(v, p, inst_of(Opcode::BandImm, value_type_of(v, b), b, 0u32, 0u32, 51i64, IntCC::Equal, TrapCode::User(0), 0u8, 0i32, 0u32, 0u32), None, None);
    let (b3, _r1) = (new0, new1);
    let p = p + 1;
    let (new0, new1) = s_ins_results(v, inst_of(Opcode::IshlImm, value_type_of(v, b3), b3, 0u32, 0u32, 2i64, IntCC::Equal, TrapCode::User(0), 0u8, 0i32, 0u32, 0u32), None, None);
    let v = s_ins(v, p, inst_of(Opcode::IshlImm, value_type_of(v, b3), b3, 0u32, 0u32, 2i64, IntCC::Equal, TrapCode::User(0), 0u8, 0i32, 0u32, 0u32), None, None);
    let (b4, _r1) = (new0, new1);
    let p = p + 1;
    let (new0, new1) = s_ins_results(v, inst_of(Opcode::Bor, value_type_of(v, b2), b2, b4, 0u32, 0i64, IntCC::Equal, TrapCode::User(0), 0u8, 0i32, 0u32, 0u32), None, None);
    let v = s_ins(v, p, inst_of(Opcode::Bor, value_type_of(v, b2), b2, b4, 0u32, 0i64, IntCC::Equal, TrapCode::User(0), 0u8, 0i32, 0u32, 0u32), None, None);
    let (c, _r1) = (new0, new1);
    let p = p + 1;
    let (new0, new1) = s_ins_results(v, inst_of(Opcode::BandImm, value_type_of(v, c), c, 0u32, 0u32, 240i64, IntCC::Equal, TrapCode::User(0), 0u8, 0i32, 0u32, 0u32), None, None);
    let v = s_ins(v, p, inst_of(Opcode::BandImm, value_type_of(v, c), c, 0u32, 0u32, 240i64, IntCC::Equal, TrapCode::User(0), 0u8, 0i32, 0u32, 0u32), None, None);
    let (c1, _r1) = (new0, new1);
    let p = p + 1;
    let (new0, new1) = s_ins_results(v, inst_of(Opcode::UshrImm, value_type_of(v, c1), c1, 0u32, 0u32, 4i64, IntCC::Equal, TrapCode::User(0), 0u8, 0i32, 0u32, 0u32), None, None);
    let v = s_ins(v, p, inst_of(Opcode::UshrImm, value_type_of(v, c1), c1, 0u32, 0u32, 4i64, IntCC::Equal, TrapCode::User(0), 0u8, 0i32, 0u32, 0u32), None, None);
    let (c2, _r1) = (new0, new1);
    let p = p + 1;
    let (new0, new1) = s_ins_results(v, inst_of(Opcode::BandImm, value_type_of(v, c), c, 0u32, 0u32, 15i64, IntCC::Equal, TrapCode::User(0), 0u8, 0i32, 0u32, 0u32), None, None);
    let v = s_ins(v, p, inst_of(Opcode::BandImm, value_type_of(v, c), c, 0u32, 0u32, 15i64, IntCC::Equal, TrapCode::User(0), 0u8, 0i32, 0u32, 0u32), None, None);
    let (c3, _r1) = (new0, new1);
    let p = p + 1;
    let (new0, new1) = s_ins_results(v, inst_of(Opcode::IshlImm, value_type_of(v, c3), c3, 0u32, 0u32, 4i64, IntCC::Equal, TrapCode::User(0), 0u8, 0i32, 0u32, 0u32), None, None);
    let v = s_ins(v, p, inst_of(Opcode::IshlImm, value_type_of(v, c3), c3, 0u32, 0u32, 4i64, IntCC::Equal, TrapCode::User(0), 0u8, 0i32, 0u32, 0u32), None, None);
    let (c4, _r1) = (new0, new1);
    let p = p + 1;
    let v = s_replace(v, inst, inst_of(Opcode::Bor, value_type_of(v, c2), c2, c4, 0u32, 0i64, IntCC::Equal, TrapCode::User(0), 0u8, 0i32, 0u32, 0u32));
    Some(v)
}

/// Legalize a `bitrev` instruction by widening, with its pattern number 0.
#[verifier::rlimit(100)]
fn widen_bitrev_0(inst: Inst, pos: usize, d: InstData, func: &mut Function) -> (r: bool)
    requires
        pattern_input(old(func)@, inst, pos as int, d),
    ensures
        pattern_outcome(old(func)@, final(func)@, r, widen_bitrev_0_spec(old(func)@, inst, pos as int, d)),
        final(func).encodings@ == old(func).encodings@,
        func_wf(final(func)@),
        r ==> final(func)@.0.len() > old(func)@.0.len(),
        keeps_before(old(func)@, final(func)@, inst, pos as int),
{
    proof {
        reveal(widen_bitrev_0_spec);
    }
    let mut p = pos;
    let x = d.arg0;
    let ty1 = func.value_type(x);
    let (a1, _r1) = func.ins(p, make_inst(Opcode::BandImm, ty1, x, 0u32, 0u32, 170i64, IntCC::Equal, TrapCode::User(0), 0u8, 0i32, 0u32, 0u32), None, None);
    p = p + 1;
    let ty2 = func.value_type(a1);
    let (a2, _r1) = func.ins(p, make_inst(Opcode::UshrImm, ty2, a1, 0u32, 0u32, 1i64, IntCC::Equal, TrapCode::User(0), 0u8, 0i32, 0u32, 0u32), None, None);
    p = p + 1;
    let ty3 = func.value_type(x);
    let (a3, _r1) = func.ins(p, make_inst(Opcode::BandImm, ty3, x, 0u32, 0u32, 85i64, IntCC::Equal, TrapCode::User(0), 0u8, 0i32, 0u32, 0u32), None, None);
    p = p + 1;
    let ty4 = func.value_type(a3);
    let (a4, _r1) = func.ins(p, make_inst(Opcode::IshlImm, ty4, a3, 0u32, 0u32, 1i64, IntCC::Equal, TrapCode::User(0), 0u8, 0i32, 0u32, 0u32), None, None);
    p = p + 1;
    let ty5 = func.value_type(a2);
    let (b, _r1) = func.ins(p, make_inst(Opcode::Bor, ty5, a2, a4, 0u32, 0i64, IntCC::Equal, TrapCode::User(0), 0u8, 0i32, 0u32, 0u32), None, None);
    p = p + 1;
    let ty6 = func.value_type(b);
    let (b1, _r1) = func.ins(p, make_inst(Opcode::BandImm, ty6, b, 0u32, 0u32, 204i64, IntCC::Equal, TrapCode::User(0), 0u8, 0i32, 0u32, 0u32), None, None);
    p = p + 1;
    let ty7 = func.value_type(b1);
    let (b2, _r1) = func.ins(p, make_inst(Opcode::UshrImm, ty7, b1, 0u32, 0u32, 2i64, IntCC::Equal, TrapCode::User(0), 0u8, 0i32, 0u32, 0u32), None, None);
    p = p + 1;
    let ty8 = func.value_type(b);
    let (b3, _r1) = func.ins(p, make_inst(Opcode::BandImm, ty8, b, 0u32, 0u32, 51i64, IntCC::Equal, TrapCode::User(0), 0u8, 0i32, 0u32, 0u32), None, None);
    p = p + 1;
    let ty9 = func.value_type(b3);
    let (b4, _r1) = func.ins(p, make_inst(Opcode::IshlImm, ty9, b3, 0u32, 0u32, 2i64, IntCC::Equal, TrapCode::User(0), 0u8, 0i32, 0u32, 0u32), None, None);
    p = p + 1;
    let ty10 = func.value_type(b2);
    let (c, _r1) = func.ins(p, make_inst(Opcode::Bor, ty10, b2, b4, 0u32, 0i64, IntCC::Equal, TrapCode::User(0), 0u8, 0i32, 0u32, 0u32), None, None);
    p = p + 1;
    let ty11 = func.value_type(c);
    let (c1, _r1) = func.ins(p, make_inst(Opcode::BandImm, ty11, c, 0u32, 0u32, 240i64, IntCC::Equal, TrapCode::User(0), 0u8, 0i32, 0u32, 0u32), None, None);
    p = p + 1;
    let ty12 = func.value_type(c1);
    let (c2, _r1) = func.ins(p, make_inst(Opcode::UshrImm, ty12, c1, 0u32, 0u32, 4i64, IntCC::Equal, TrapCode::User(0), 0u8, 0i32, 0u32, 0u32), None, None);
    p = p + 1;
    let ty13 = func.value_type(c);
    let (c3, _r1) = func.ins(p, make_inst(Opcode::BandImm, ty13, c, 0u32, 0u32, 15i64, IntCC::Equal, TrapCode::User(0), 0u8, 0i32, 0u32, 0u32), None, None);
    p = p + 1;
    let ty14 = func.value_type(c3);
    let (c4, _r1) = func.ins(p, make_inst(Opcode::IshlImm, ty14, c3, 0u32, 0u32, 4i64, IntCC::Equal, TrapCode::User(0), 0u8, 0i32, 0u32, 0u32), None, None);
    p = p + 1;
    let ty15 = func.value_type(c2);
    func.replace(inst, make_inst(Opcode::Bor, ty15, c2, c4, 0u32, 0i64, IntCC::Equal, TrapCode::User(0), 0u8, 0i32, 0u32, 0u32));
    return true;
}

/// The function after the widening of a `bitrev` instruction by its pattern number 1.
#[verifier::opaque]
pub open spec fn widen_bitrev_1_spec(v: FuncView, inst: Inst, pos: int, d: InstData) -> Option<FuncView> {
    let p = pos;
    let x = d.arg0;
    let (new0, new1) = s_ins_results(v, inst_of(Opcode::BandImm, value_type_of(v, x), x, 0u32, 0u32, 43690i64, IntCC::Equal, TrapCode::User(0), 0u8, 0i32, 0u32, 0u32), None, None);
    let v = s_ins(v, p, inst_of(Opcode::BandImm, value_type_of(v, x), x, 0u32, 0u32, 43690i64, IntCC::Equal, TrapCode::User(0), 0u8, 0i32, 0u32, 0u32), None, None);
    let (a1, _r1) = (new0, new1);
    let p = p + 1;
    let (new0, new1) = s_ins_results(v, inst_of(Opcode::UshrImm, value_type_of(v, a1), a1, 0u32, 0u32, 1i64, IntCC::Equal, TrapCode::User(0), 0u8, 0i32, 0u32, 0u32), None, None);
    let v = s_ins(v, p, inst_of(Opcode::UshrImm, value_type_of(v, a1), a1, 0u32, 0u32, 1i64, IntCC::Equal, TrapCode::User(0), 0u8, 0i32, 0u32, 0u32), None, None);
    let (a2, _r1) = (new0, new1);
    let p = p + 1;
    let (new0, new1) = s_ins_results(v, inst_of(Opcode::BandImm, value_type_of(v, x), x, 0u32, 0u32, 21845i64, IntCC::Equal, TrapCode::User(0), 0u8, 0i32, 0u32, 0u32), None, None);
    let v = s_ins(v, p, inst_of(Opcode::BandImm, value_type_of(v, x), x, 0u32, 0u32, 21845i64, IntCC::Equal, TrapCode::User(0), 0u8, 0i32, 0u32, 0u32), None, None);
    let (a3, _r1) = (new0, new1);
    let p = p + 1;
    let (new0, new1) = s_ins_results(v, inst_of(Opcode::IshlImm, value_type_of(v, a3), a3, 0u32, 0u32, 1i64, IntCC::Equal, TrapCode::User(0), 0u8, 0i32, 0u32, 0u32), None, None);
    let v = s_ins(v, p, inst_of(Opcode::IshlImm, value_type_of(v, a3), a3, 0u32, 0u32, 1i64, IntCC::Equal, TrapCode::User(0), 0u8, 0i32, 0u32, 0u32), None, None);
    let (a4, _r1) = (new0, new1);
    let p = p + 1;
    let (new0, new1) = s_ins_results(v, inst_of(Opcode::Bor, value_type_of(v, a2), a2, a4, 0u32, 0i64, IntCC::Equal, TrapCode::User(0), 0u8, 0i32, 0u32, 0u32), None, None);
    let v = s_ins(v, p, inst_of(Opcode::Bor, value_type_of(v, a2), a2, a4, 0u32, 0i64, IntCC::Equal, TrapCode::User(0), 0u8, 0i32, 0u32, 0u32), None, None);
    let (b, _r1) = (new0, new1);
    let p = p + 1;
    let (new0, new1) = s_ins_results(v, inst_of(Opcode::BandImm, value_type_of(v, b), b, 0u32, 0u32, 52428i64, IntCC::Equal, TrapCode::User(0), 0u8, 0i32, 0u32, 0u32), None, None);
    let v = s_ins(v, p, inst_of(Opcode::BandImm, value_type_of(v, b), b, 0u32, 0u32, 52428i64, IntCC::Equal, TrapCode::User(0), 0u8, 0i32, 0u32, 0u32), None, None);
    let (b1, _r1) = (new0, new1);
    let p = p + 1;
    let (new0, new1) = s_ins_results(v, inst_of(Opcode::UshrImm, value_type_of(v, b1), b1, 0u32, 0u32, 2i64, IntCC::Equal, TrapCode::User(0), 0u8, 0i32, 0u32, 0u32), None, None);
    let v = s_ins(v, p, inst_of(Opcode::UshrImm, value_type_of(v, b1), b1, 0u32, 0u32, 2i64, IntCC::Equal, TrapCode::User(0), 0u8, 0i32, 0u32, 0u32), None, None);
    let (b2, _r1) = (new0, new1);
    let p = p + 1;
    let (new0, new1) = s_ins_results(v, inst_of(Opcode::BandImm, value_type_of(v, b), b, 0u32, 0u32, 13107i64, IntCC::Equal, TrapCode::User(0), 0u8, 0i32, 0u32, 0u32), None, None);
    let v = s_ins(v, p, inst_of(Opcode::BandImm, value_type_of(v, b), b, 0u32, 0u32, 13107i64, IntCC::Equal, TrapCode::User(0), 0u8, 0i32, 0u32, 0u32), None, None);
    let (b3, _r1) = (new0, new1);
    let p = p + 1;
    let (new0, new1) = s_ins_results(v, inst_of(Opcode::IshlImm, value_type_of(v, b3), b3, 0u32, 0u32, 2i64, IntCC::Equal, TrapCode::User(0), 0u8, 0i32, 0u32, 0u32), None, None);
    let v = s_ins(v, p, inst_of(Opcode::IshlImm, value_type_of(v, b3), b3, 0u32, 0u32, 2i64, IntCC::Equal, TrapCode::User(0), 0u8, 0i32, 0u32, 0u32), None, None);
    let (b4, _r1) = (new0, new1);
    let p = p + 1;
    let (new0, new1) = s_ins_results(v, inst_of(Opcode::Bor, value_type_of(v, b2), b2, b4, 0u32, 0i64, IntCC::Equal, TrapCode::User(0), 0u8, 0i32, 0u32, 0u32), None, None);
    let v = s_ins(v, p, inst_of(Opcode::Bor, value_type_of(v, b2), b2, b4, 0u32, 0i64, IntCC::Equal, TrapCode::User(0), 0u8, 0i32, 0u32, 0u32), None, None);
    let (c, _r1) = (new0, new1);
    let p = p + 1;
    let (new0, new1) = s_ins_results(v, inst_of(Opcode::BandImm, value_type_of(v, c), c, 0u32, 0u32, 61680i64, IntCC::Equal, TrapCode::User(0), 0u8, 0i32, 0u32, 0u32), None, None);
    let v = s_ins(v, p, inst_of(Opcode::BandImm, value_type_of(v, c), c, 0u32, 0u32, 61680i64, IntCC::Equal, TrapCode::User(0), 0u8, 0i32, 0u32, 0u32), None, None);
    let (c1, _r1) = (new0, new1);
    let p = p + 1;
    let (new0, new1) = s_ins_results(v, inst_of(Opcode::UshrImm, value_type_of(v, c1), c1, 0u32, 0u32, 4i64, IntCC::Equal, TrapCode::User(0), 0u8, 0i32, 0u32, 0u32), None, None);
    let v = s_ins(v, p, inst_of(Opcode::UshrImm, value_type_of(v, c1), c1, 0u32, 0u32, 4i64, IntCC::Equal, TrapCode::User(0), 0u8, 0i32, 0u32, 0u32), None, None);
    let (c2, _r1) = (new0, new1);
    let p = p + 1;
    let (new0, new1) = s_ins_results(v, inst_of(Opcode::BandImm, value_type_of(v, c), c, 0u32, 0u32, 3855i64, IntCC::Equal, TrapCode::User(0), 0u8, 0i32, 0u32, 0u32), None, None);
    let v = s_ins(v, p, inst_of(Opcode::BandImm, value_type_of(v, c), c, 0u32, 0u32, 3855i64, IntCC::Equal, TrapCode::User(0), 0u8, 0i32, 0u32, 0u32), None, None);
    let (c3, _r1) = (new0, new1);
    let p = p + 1;
    let (new0, new1) = s_ins_results(v, inst_of(Opcode::IshlImm, value_type_of(v, c3), c3, 0u32, 0u32, 4i64, IntCC::Equal, TrapCode::User(0), 0u8, 0i32, 0u32, 0u32), None, None);
    let v = s_ins(v, p, inst_of(Opcode::IshlImm, value_type_of(v, c3), c3, 0u32, 0u32, 4i64, IntCC::Equal, TrapCode::User(0), 0u8, 0i32, 0u32, 0u32), None, None);
    let (c4, _r1) = (new0, new1);
    let p = p + 1;
    let (new0, new1) = s_ins_results(v, inst_of(Opcode::Bor, value_type_of(v, c2), c2, c4, 0u32, 0i64, IntCC::Equal, TrapCode::User(0), 0u8, 0i32, 0u32, 0u32), None, None);
    let v = s_ins(v, p, inst_of(Opcode::Bor, value_type_of(v, c2), c2, c4, 0u32, 0i64, IntCC::Equal, TrapCode::User(0), 0u8, 0i32, 0u32, 0u32), None, None);
    let (d, _r1) = (new0, new1);
    let p = p + 1;
    let (new0, new1) = s_ins_results(v, inst_of(Opcode::BandImm, value_type_of(v, d), d, 0u32, 0u32, 65280i64, IntCC::Equal, TrapCode::User(0), 0u8, 0i32, 0u32, 0u32), None, None);
    let v = s_ins(v, p, inst_of(Opcode::BandImm, value_type_of(v, d), d, 0u32, 0u32, 65280i64, IntCC::Equal, TrapCode::User(0), 0u8, 0i32, 0u32, 0u32), None, None);
    let (d1, _r1) = (new0, new1);
    let p = p + 1;
    let (new0, new1) = s_ins_results(v, inst_of(Opcode::UshrImm, value_type_of(v, d1), d1, 0u32, 0u32, 8i64, IntCC::Equal, TrapCode::User(0), 0u8, 0i32, 0u32, 0u32), None, None);
    let v = s_ins(v, p, inst_of(Opcode::UshrImm, value_type_of(v, d1), d1, 0u32, 0u32, 8i64, IntCC::Equal, TrapCode::User(0), 0u8, 0i32, 0u32, 0u32), None, None);
    let (d2, _r1) = (new0, new1);
    let p = p + 1;
    let (new0, new1) = s_ins_results(v, inst_of(Opcode::BandImm, value_type_of(v, d), d, 0u32, 0u32, 255i64, IntCC::Equal, TrapCode::User(0), 0u8, 0i32, 0u32, 0u32), None, None);
    let v = s_ins(v, p, inst_of(Opcode::BandImm, value_type_of(v, d), d, 0u32, 0u32, 255i64, IntCC::Equal, TrapCode::User(0), 0u8, 0i32, 0u32, 0u32), None, None);
    let (d3, _r1) = (new0, new1);
    let p = p + 1;
    let (new0, new1) = s_ins_results(v, inst_of(Opcode::IshlImm, value_type_of(v, d3), d3, 0u32, 0u32, 8i64, IntCC::Equal, TrapCode::User(0), 0u8, 0i32, 0u32, 0u32), None, None);
    let v = s_ins(v, p, inst_of(Opcode::IshlImm, value_type_of(v, d3), d3, 0u32, 0u32, 8i64, IntCC::Equal, TrapCode::User(0), 0u8, 0i32, 0u32, 0u32), None, None);
    let (d4, _r1) = (new0, new1);
    let p = p + 1;
    let v = s_replace(v, inst, inst_of(Opcode::Bor, value_type_of(v, d2), d2, d4, 0u32, 0i64, IntCC::Equal, TrapCode::User(0), 0u8, 0i32, 0u32, 0u32));
    Some(v)
}

/// Legalize a `bitrev` instruction by widening, with its pattern number 1.
#[verifier::rlimit(100)]
fn widen_bitrev_1(inst: Inst, pos: usize, d: InstData, func: &mut Function) -> (r: bool)
    requires
        pattern_input(old(func)@, inst, pos as int, d),
    ensures
        pattern_outcome(old(func)@, final(func)@, r, widen_bitrev_1_spec(old(func)@, inst, pos as int, d)),
        final(func).encodings@ == old(func).encodings@,
        func_wf(final(func)@),
        r ==> final(func)@.0.len() > old(func)@.0.len(),
        keeps_before(old(func)@, final(func)@, inst, pos as int),
{
    proof {
        reveal(widen_bitrev_1_spec);
    }
    let mut p = pos;
    let x = d.arg0;
    let ty16 = func.value_type(x);
    let (a1, _r1) = func.ins(p, make_inst(Opcode::BandImm, ty16, x, 0u32, 0u32, 43690i64, IntCC::Equal, TrapCode::User(0), 0u8, 0i32, 0u32, 0u32), None, None);
    p = p + 1;
    let ty17 = func.value_type(a1);
    let (a2, _r1) = func.ins(p, make_inst(Opcode::UshrImm, ty17, a1, 0u32, 0u32, 1i64, IntCC::Equal, TrapCode::User(0), 0u8, 0i32, 0u32, 0u32), None, None);
    p = p + 1;
    let ty18 = func.value_type(x);
    let (a3, _r1) = func.ins(p, make_inst(Opcode::BandImm, ty18, x, 0u32, 0u32, 21845i64, IntCC::Equal, TrapCode::User(0), 0u8, 0i32, 0u32, 0u32), None, None);
    p = p + 1;
    let ty19 = func.value_type(a3);
    let (a4, _r1) = func.ins(p, make_inst(Opcode::IshlImm, ty19, a3, 0u32, 0u32, 1i64, IntCC::Equal, TrapCode::User(0), 0u8, 0i32, 0u32, 0u32), None, None);
    p = p + 1;
    let ty20 = func.value_type(a2);
    let (b, _r1) = func.ins(p, make_inst(Opcode::Bor, ty20, a2, a4, 0u32, 0i64, IntCC::Equal, TrapCode::User(0), 0u8, 0i32, 0u32, 0u32), None, None);
    p = p + 1;
    let ty21 = func.value_type(b);
    let (b1, _r1) = func.ins(p, make_inst(Opcode::BandImm, ty21, b, 0u32, 0u32, 52428i64, IntCC::Equal, TrapCode::User(0), 0u8, 0i32, 0u32, 0u32), None, None);
    p = p + 1;
    let ty22 = func.value_type(b1);
    let (b2, _r1) = func.ins(p, make_inst(Opcode::UshrImm, ty22, b1, 0u32, 0u32, 2i64, IntCC::Equal, TrapCode::User(0), 0u8, 0i32, 0u32, 0u32), None, None);
    p = p + 1;
    let ty23 = func.value_type(b);
    let (b3, _r1) = func.ins(p, make_inst(Opcode::BandImm, ty23, b, 0u32, 0u32, 13107i64, IntCC::Equal, TrapCode::User(0), 0u8, 0i32, 0u32, 0u32), None, None);
    p = p + 1;
    let ty24 = func.value_type(b3);
    let (b4, _r1) = func.ins(p, make_inst(Opcode::IshlImm, ty24, b3, 0u32, 0u32, 2i64, IntCC::Equal, TrapCode::User(0), 0u8, 0i32, 0u32, 0u32), None, None);
    p = p + 1;
    let ty25 = func.value_type(b2);
    let (c, _r1) = func.ins(p, make_inst(Opcode::Bor, ty25, b2, b4, 0u32, 0i64, IntCC::Equal, TrapCode::User(0), 0u8, 0i32, 0u32, 0u32), None, None);
    p = p + 1;
    let ty26 = func.value_type(c);
    let (c1, _r1) = func.ins(p, make_inst(Opcode::BandImm, ty26, c, 0u32, 0u32, 61680i64, IntCC::Equal, TrapCode::User(0), 0u8, 0i32, 0u32, 0u32), None, None);
    p = p + 1;
    let ty27 = func.value_type(c1);
    let (c2, _r1) = func.ins(p, make_inst(Opcode::UshrImm, ty27, c1, 0u32, 0u32, 4i64, IntCC::Equal, TrapCode::User(0), 0u8, 0i32, 0u32, 0u32), None, None);
    p = p + 1;
    let ty28 = func.value_type(c);
    let (c3, _r1) = func.ins(p, make_inst(Opcode::BandImm, ty28, c, 0u32, 0u32, 3855i64, IntCC::Equal, TrapCode::User(0), 0u8, 0i32, 0u32, 0u32), None, None);
    p = p + 1;
    let ty29 = func.value_type(c3);
    let (c4, _r1) = func.ins(p, make_inst(Opcode::IshlImm, ty29, c3, 0u32, 0u32, 4i64, IntCC::Equal, TrapCode::User(0), 0u8, 0i32, 0u32, 0u32), None, None);
    p = p + 1;
    let ty30 = func.value_type(c2);
    let (d, _r1) = func.ins(p, make_inst(Opcode::Bor, ty30, c2, c4, 0u32, 0i64, IntCC::Equal, TrapCode::User(0), 0u8, 0i32, 0u32, 0u32), None, None);
    p = p + 1;
    let ty31 = func.value_type(d);
    let (d1, _r1) = func.ins(p, make_inst(Opcode::BandImm, ty31, d, 0u32, 0u32, 65280i64, IntCC::Equal, TrapCode::User(0), 0u8, 0i32, 0u32, 0u32), None, None);
    p = p + 1;
    let ty32 = func.value_type(d1);
    let (d2, _r1) = func.ins(p, make_inst(Opcode::UshrImm, ty32, d1, 0u32, 0u32, 8i64, IntCC::Equal, TrapCode::User(0), 0u8, 0i32, 0u32, 0u32), None, None);
    p = p + 1;
    let ty33 = func.value_type(d);
    let (d3, _r1) = func.ins(p, make_inst(Opcode::BandImm, ty33, d, 0u32, 0u32, 255i64, IntCC::Equal, TrapCode::User(0), 0u8, 0i32, 0u32, 0u32), None, None);
    p = p + 1;
    let ty34 = func.value_type(d3);
    let (d4, _r1) = func.ins(p, make_inst(Opcode::IshlImm, ty34, d3, 0u32, 0u32, 8i64, IntCC::Equal, TrapCode::User(0), 0u8, 0i32, 0u32, 0u32), None, None);
    p = p + 1;
    let ty35 = func.value_type(d2);
    func.replace(inst, make_inst(Opcode::Bor, ty35, d2, d4, 0u32, 0i64, IntCC::Equal, TrapCode::User(0), 0u8, 0i32, 0u32, 0u32));
    return true;
}

/// The function after the widening of a `bitrev` instruction, or `None` where no pattern applies.
#[verifier::opaque]
pub open spec fn widen_bitrev_spec(v: FuncView, inst: Inst, pos: int, d: InstData) -> Option<FuncView> {
    let p = pos;
    let x = d.arg0;
    if value_type_of(v, d.arg0) == ValueType(I8) {
        widen_bitrev_0_spec(v, inst, pos, d)
    } else if value_type_of(v, d.arg0) == ValueType(I16) {
        widen_bitrev_1_spec(v, inst, pos, d)
    } else {
        None
    }
}

/// Legalize a `bitrev` instruction by widening.
fn widen_bitrev(inst: Inst, pos: usize, d: InstData, func: &mut Function) -> (r: bool)
    requires
        pattern_input(old(func)@, inst, pos as int, d),
    ensures
        pattern_outcome(old(func)@, final(func)@, r, widen_bitrev_spec(old(func)@, inst, pos as int, d)),
        final(func).encodings@ == old(func).encodings@,
        func_wf(final(func)@),
        r ==> final(func)@.0.len() > old(func)@.0.len(),
        keeps_before(old(func)@, final(func)@, inst, pos as int),
{
    proof {
        reveal(widen_bitrev_spec);
    }
    let mut p = pos;
    let x = d.arg0;
    if func.value_type(d.arg0) == ValueType(I8) {
        return widen_bitrev_0(inst, pos, d, func);
    }
    if func.value_type(d.arg0) == ValueType(I16) {
        return widen_bitrev_1(inst, pos, d, func);
    }
    false
}

/// The function after the widening of a `bnot` instruction, or `None` where no pattern applies.
#[verifier::opaque]
pub open spec fn widen_bnot_spec(v: FuncView, inst: Inst, pos: int, d: InstData) -> Option<FuncView> {
    let p = pos;
    let b = d.arg0;
    if value_type_of(v, d.arg0) == ValueType(I8) {
        let (new0, new1) = s_ins_results(v, inst_of(Opcode::Uextend, ValueType(I32), b, 0u32, 0u32, 0i64, IntCC::Equal, TrapCode::User(0), 0u8, 0i32, 0u32, 0u32), None, None);
        let v = s_ins(v, p, inst_of(Opcode::Uextend, ValueType(I32), b, 0u32, 0u32, 0i64, IntCC::Equal, TrapCode::User(0), 0u8, 0i32, 0u32, 0u32), None, None);
        let (x, _r1) = (new0, new1);
        let p = p + 1;
        let (new0, new1) = s_ins_results(v, inst_of(Opcode::Bnot, value_type_of(v, x), x, 0u32, 0u32, 0i64, IntCC::Equal, TrapCode::User(0), 0u8, 0i32, 0u32, 0u32), None, None);
        let v = s_ins(v, p, inst_of(Opcode::Bnot, value_type_of(v, x), x, 0u32, 0u32, 0i64, IntCC::Equal, TrapCode::User(0), 0u8, 0i32, 0u32, 0u32), None, None);
        let (z, _r1) = (new0, new1);
        let p = p + 1;
        let v = s_replace(v, inst, inst_of(Opcode::Ireduce, ValueType(I8), z, 0u32, 0u32, 0i64, IntCC::Equal, TrapCode::User(0), 0u8, 0i32, 0u32, 0u32));
        Some(v)
} else {
    if value_type_of(v, d.arg0) == ValueType(I16) {
        let (new0, new1) = s_ins_results(v, inst_of(Opcode::Uextend, ValueType(I32), b, 0u32, 0u32, 0i64, IntCC::Equal, TrapCode::User(0), 0u8, 0i32, 0u32, 0u32), None, None);
        let v = s_ins(v, p, inst_of(Opcode::Uextend, ValueType(I32), b, 0u32, 0u32, 0i64, IntCC::Equal, TrapCode::User(0), 0u8, 0i32, 0u32, 0u32), None, None);
        let (x, _r1) = (new0, new1);
        let p = p + 1;
        let (new0, new1) = s_ins_results(v, inst_of(Opcode::Bnot, value_type_of(v, x), x, 0u32, 0u32, 0i64, IntCC::Equal, TrapCode::User(0), 0u8, 0i32, 0u32, 0u32), None, None);
        let v = s_ins(v, p, inst_of(Opcode::Bnot, value_type_of(v, x), x, 0u32, 0u32, 0i64, IntCC::Equal, TrapCode::User(0), 0u8, 0i32, 0u32, 0u32), None, None);
        let (z, _r1) = (new0, new1);
        let p = p + 1;
        let v = s_replace(v, inst, inst_of(Opcode::Ireduce, ValueType(I16), z, 0u32, 0u32, 0i64, IntCC::Equal, TrapCode::User(0), 0u8, 0i32, 0u32, 0u32));
        Some(v)
} else {
    None
}
}
}

/// Legalize a `bnot` instruction by widening.
fn widen_bnot(inst: Inst, pos: usize, d: InstData, func: &mut Function) -> (r: bool)
    requires
        pattern_input(old(func)@, inst, pos as int, d),
    ensures
        pattern_outcome(old(func)@, final(func)@, r, widen_bnot_spec(old(func)@, inst, pos as int, d)),
        final(func).encodings@ == old(func).encodings@,
        func_wf(final(func)@),
        r ==> final(func)@.0.len() > old(func)@.0.len(),
        keeps_before(old(func)@, final(func)@, inst, pos as int),
{
    proof {
        reveal(widen_bnot_spec);
    }
    let mut p = pos;
    let b = d.arg0;
    if func.value_type(d.arg0) == ValueType(I8) {
        let (x, _r1) = func.ins(p, make_inst(Opcode::Uextend, ValueType(I32), b, 0u32, 0u32, 0i64, IntCC::Equal, TrapCode::User(0), 0u8, 0i32, 0u32, 0u32), None, None);
        p = p + 1;
        let ty1 = func.value_type(x);
        let (z, _r1) = func.ins(p, make_inst(Opcode::Bnot, ty1, x, 0u32, 0u32, 0i64, IntCC::Equal, TrapCode::User(0), 0u8, 0i32, 0u32, 0u32), None, None);
        p = p + 1;
        func.replace(inst, make_inst(Opcode::Ireduce, ValueType(I8), z, 0u32, 0u32, 0i64, IntCC::Equal, TrapCode::User(0), 0u8, 0i32, 0u32, 0u32));
        return true;
    }
    if func.value_type(d.arg0) == ValueType(I16) {
        let (x, _r1) = func.ins(p, make_inst(Opcode::Uextend, ValueType(I32), b, 0u32, 0u32, 0i64, IntCC::Equal, TrapCode::User(0), 0u8, 0i32, 0u32, 0u32), None, None);
        p = p + 1;
        let ty2 = func.value_type(x);
        let (z, _r1) = func.ins(p, make_inst(Opcode::Bnot, ty2, x, 0u32, 0u32, 0i64, IntCC::Equal, TrapCode::User(0), 0u8, 0i32, 0u32, 0u32), None, None);
        p = p + 1;
        func.replace(inst, make_inst(Opcode::Ireduce, ValueType(I16), z, 0u32, 0u32, 0i64, IntCC::Equal, TrapCode::User(0), 0u8, 0i32, 0u32, 0u32));
        return true;
    }
    false
}

/// The function after the widening of a `bor` instruction, or `None` where no pattern applies.
#[verifier::opaque]
pub open spec fn widen_bor_spec(v: FuncView, inst: Inst, pos: int, d: InstData) -> Option<FuncView> {
    let p = pos;
    let b = d.arg0;
    let c = d.arg1;
    if value_type_of(v, d.arg0) == ValueType(I8) {
        let (new0, new1) = s_ins_results(v, inst_of(Opcode::Uextend, ValueType(I32), b, 0u32, 0u32, 0i64, IntCC::Equal, TrapCode::User(0), 0u8, 0i32, 0u32, 0u32), None, None);
        let v = s_ins(v, p, inst_of(Opcode::Uextend, ValueType(I32), b, 0u32, 0u32, 0i64, IntCC::Equal, TrapCode::User(0), 0u8, 0i32, 0u32, 0u32), None, None);
        let (x, _r1) = (new0, new1);
        let p = p + 1;
        let (new0, new1) = s_ins_results(v, inst_of(Opcode::Uextend, ValueType(I32), c, 0u32, 0u32, 0i64, IntCC::Equal, TrapCode::User(0), 0u8, 0i32, 0u32, 0u32), None, None);
        let v = s_ins(v, p, inst_of(Opcode::Uextend, ValueType(I32), c, 0u32, 0u32, 0i64, IntCC::Equal, TrapCode::User(0), 0u8, 0i32, 0u32, 0u32), None, None);
        let (y, _r1) = (new0, new1);
        let p = p + 1;
        let (new0, new1) = s_ins_results(v, inst_of(Opcode::Bor, value_type_of(v, x), x, y, 0u32, 0i64, IntCC::Equal, TrapCode::User(0), 0u8, 0i32, 0u32, 0u32), None, None);
        let v = s_ins(v, p, inst_of(Opcode::Bor, value_type_of(v, x), x, y, 0u32, 0i64, IntCC::Equal, TrapCode::User(0), 0u8, 0i32, 0u32, 0u32), None, None);
        let (z, _r1) = (new0, new1);
        let p = p + 1;
        let v = s_replace(v, inst, inst_of(Opcode::Ireduce, ValueType(I8), z, 0u32, 0u32, 0i64, IntCC::Equal, TrapCode::User(0), 0u8, 0i32, 0u32, 0u32));
        Some(v)
} else {
    if value_type_of(v, d.arg0) == ValueType(I16) {
        let (new0, new1) = s_ins_results(v, inst_of(Opcode::Uextend, ValueType(I32), b, 0u32, 0u32, 0i64, IntCC::Equal, TrapCode::User(0), 0u8, 0i32, 0u32, 0u32), None, None);
        let v = s_ins(v, p, inst_of(Opcode::Uextend, ValueType(I32), b, 0u32, 0u32, 0i64, IntCC::Equal, TrapCode::User(0), 0u8, 0i32, 0u32, 0u32), None, None);
        let (x, _r1) = (new0, new1);
        let p = p + 1;
        let (new0, new1) = s_ins_results(v, inst_of(Opcode::Uextend, ValueType(I32), c, 0u32, 0u32, 0i64, IntCC::Equal, TrapCode::User(0), 0u8, 0i32, 0u32, 0u32), None, None);
        let v = s_ins(v, p, inst_of(Opcode::Uextend, ValueType(I32), c, 0u32, 0u32, 0i64, IntCC::Equal, TrapCode::User(0), 0u8, 0i32, 0u32, 0u32), None, None);
        let (y, _r1) = (new0, new1);
        let p = p + 1;
        let (new0, new1) = s_ins_results(v, inst_of(Opcode::Bor, value_type_of(v, x), x, y, 0u32, 0i64, IntCC::Equal, TrapCode::User(0), 0u8, 0i32, 0u32, 0u32), None, None);
        let v = s_ins(v, p, inst_of(Opcode::Bor, value_type_of(v, x), x, y, 0u32, 0i64, IntCC::Equal, TrapCode::User(0), 0u8, 0i32, 0u32, 0u32), None, None);
        let (z, _r1) = (new0, new1);
        let p = p + 1;
        let v = s_replace(v, inst, inst_of(Opcode::Ireduce, ValueType(I16), z, 0u32, 0u32, 0i64, IntCC::Equal, TrapCode::User(0), 0u8, 0i32, 0u32, 0u32));
        Some(v)
} else {
    None
}
}
}

/// Legalize a `bor` instruction by widening.
fn widen_bor(inst: Inst, pos: usize, d: InstData, func: &mut Function) -> (r: bool)
    requires
        pattern_input(old(func)@, inst, pos as int, d),
    ensures
        pattern_outcome(old(func)@, final(func)@, r, widen_bor_spec(old(func)@, inst, pos as int, d)),
        final(func).encodings@ == old(func).encodings@,
        func_wf(final(func)@),
        r ==> final(func)@.0.len() > old(func)@.0.len(),
        keeps_before(old(func)@, final(func)@, inst, pos as int),
{
    proof {
        reveal(widen_bor_spec);
    }
    let mut p = pos;
    let b = d.arg0;
    let c = d.arg1;
    if func.value_type(d.arg0) == ValueType(I8) {
        let (x, _r1) = func.ins(p, make_inst(Opcode::Uextend, ValueType(I32), b, 0u32, 0u32, 0i64, IntCC::Equal, TrapCode::User(0), 0u8, 0i32, 0u32, 0u32), None, None);
        p = p + 1;
        let (y, _r1) = func.ins(p, make_inst(Opcode::Uextend, ValueType(I32), c, 0u32, 0u32, 0i64, IntCC::Equal, TrapCode::User(0), 0u8, 0i32, 0u32, 0u32), None, None);
        p = p + 1;
        let ty1 = func.value_type(x);
        let (z, _r1) = func.ins(p, make_inst(Opcode::Bor, ty1, x, y, 0u32, 0i64, IntCC::Equal, TrapCode::User(0), 0u8, 0i32, 0u32, 0u32), None, None);
        p = p + 1;
        func.replace(inst, make_inst(Opcode::Ireduce, ValueType(I8), z, 0u32, 0u32, 0i64, IntCC::Equal, TrapCode::User(0), 0u8, 0i32, 0u32, 0u32));
        return true;
    }
    if func.value_type(d.arg0) == ValueType(I16) {
        let (x, _r1) = func.ins(p, make_inst(Opcode::Uextend, ValueType(I32), b, 0u32, 0u32, 0i64, IntCC::Equal, TrapCode::User(0), 0u8, 0i32, 0u32, 0u32), None, None);
        p = p + 1;
        let (y, _r1) = func.ins(p, make_inst(Opcode::Uextend, ValueType(I32), c, 0u32, 0u32, 0i64, IntCC::Equal, TrapCode::User(0), 0u8, 0i32, 0u32, 0u32), None, None);
        p = p + 1;
        let ty2 = func.value_type(x);
        let (z, _r1) = func.ins(p, make_inst(Opcode::Bor, ty2, x, y, 0u32, 0i64, IntCC::Equal, TrapCode::User(0), 0u8, 0i32, 0u32, 0u32), None, None);
        p = p + 1;
        func.replace(inst, make_inst(Opcode::Ireduce, ValueType(I16), z, 0u32, 0u32, 0i64, IntCC::Equal, TrapCode::User(0), 0u8, 0i32, 0u32, 0u32));
        return true;
    }
    false
}

/// The function after the widening of a `bor_imm` instruction, or `None` where no pattern applies.
#[verifier::opaque]
pub open spec fn widen_bor_imm_spec(v: FuncView, inst: Inst, pos: int, d: InstData) -> Option<FuncView> {
    let p = pos;
    let b = d.arg0;
    let c = d.imm;
    if value_type_of(v, d.arg0) == ValueType(I8) {
        let (new0, new1) = s_ins_results(v, inst_of(Opcode::Uextend, ValueType(I32), b, 0u32, 0u32, 0i64, IntCC::Equal, TrapCode::User(0), 0u8, 0i32, 0u32, 0u32), None, None);
        let v = s_ins(v, p, inst_of(Opcode::Uextend, ValueType(I32), b, 0u32, 0u32, 0i64, IntCC::Equal, TrapCode::User(0), 0u8, 0i32, 0u32, 0u32), None, None);
        let (x, _r1) = (new0, new1);
        let p = p + 1;
        let (new0, new1) = s_ins_results(v, inst_of(Opcode::BorImm, value_type_of(v, x), x, 0u32, 0u32, c, IntCC::Equal, TrapCode::User(0), 0u8, 0i32, 0u32, 0u32), None, None);
        let v = s_ins(v, p, inst_of(Opcode::BorImm, value_type_of(v, x), x, 0u32, 0u32, c, IntCC::Equal, TrapCode::User(0), 0u8, 0i32, 0u32, 0u32), None, None);
        let (z, _r1) = (new0, new1);
        let p = p + 1;
        let v = s_replace(v, inst, inst_of(Opcode::Ireduce, ValueType(I8), z, 0u32, 0u32, 0i64, IntCC::Equal, TrapCode::User(0), 0u8, 0i32, 0u32, 0u32));
        Some(v)
} else {
    if value_type_of(v, d.arg0) == ValueType(I16) {
        let (new0, new1) = s_ins_results(v, inst_of(Opcode::Uextend, ValueType(I32), b, 0u32, 0u32, 0i64, IntCC::Equal, TrapCode::User(0), 0u8, 0i32, 0u32, 0u32), None, None);
        let v = s_ins(v, p, inst_of(Opcode::Uextend, ValueType(I32), b, 0u32, 0u32, 0i64, IntCC::Equal, TrapCode::User(0), 0u8, 0i32, 0u32, 0u32), None, None);
        let (x, _r1) = (new0, new1);
        let p = p + 1;
        let (new0, new1) = s_ins_results(v, inst_of(Opcode::BorImm, value_type_of(v, x), x, 0u32, 0u32, c, IntCC::Equal, TrapCode::User(0), 0u8, 0i32, 0u32, 0u32), None, None);
        let v = s_ins(v, p, inst_of(Opcode::BorImm, value_type_of(v, x), x, 0u32, 0u32, c, IntCC::Equal, TrapCode::User(0), 0u8, 0i32, 0u32, 0u32), None, None);
        let (z, _r1) = (new0, new1);
        let p = p + 1;
        let v = s_replace(v, inst, inst_of(Opcode::Ireduce, ValueType(I16), z, 0u32, 0u32, 0i64, IntCC::Equal, TrapCode::User(0), 0u8, 0i32, 0u32, 0u32));
        Some(v)
} else {
    None
}
}
}

/// Legalize a `bor_imm` instruction by widening.
fn widen_bor_imm(inst: Inst, pos: usize, d: InstData, func: &mut Function) -> (r: bool)
    requires
        pattern_input(old(func)@, inst, pos as int, d),
    ensures
        pattern_outcome(old(func)@, final(func)@, r, widen_bor_imm_spec(old(func)@, inst, pos as int, d)),
        final(func).encodings@ == old(func).encodings@,
        func_wf(final(func)@),
        r ==> final(func)@.0.len() > old(func)@.0.len(),
        keeps_before(old(func)@, final(func)@, inst, pos as int),
{
    proof {
        reveal(widen_bor_imm_spec);
    }
    let mut p = pos;
    let b = d.arg0;
    let c = d.imm;
    if func.value_type(d.arg0) == ValueType(I8) {
        let (x, _r1) = func.ins(p, make_inst(Opcode::Uextend, ValueType(I32), b, 0u32, 0u32, 0i64, IntCC::Equal, TrapCode::User(0), 0u8, 0i32, 0u32, 0u32), None, None);
        p = p + 1;
        let ty1 = func.value_type(x);
        let (z, _r1) = func.ins(p, make_inst(Opcode::BorImm, ty1, x, 0u32, 0u32, c, IntCC::Equal, TrapCode::User(0), 0u8, 0i32, 0u32, 0u32), None, None);
        p = p + 1;
        func.replace(inst, make_inst(Opcode::Ireduce, ValueType(I8), z, 0u32, 0u32, 0i64, IntCC::Equal, TrapCode::User(0), 0u8, 0i32, 0u32, 0u32));
        return true;
    }
    if func.value_type(d.arg0) == ValueType(I16) {
        let (x, _r1) = func.ins(p, make_inst(Opcode::Uextend, ValueType(I32), b, 0u32, 0u32, 0i64, IntCC::Equal, TrapCode::User(0), 0u8, 0i32, 0u32, 0u32), None, None);
        p = p + 1;
        let ty2 = func.value_type(x);
        let (z, _r1) = func.ins(p, make_inst(Opcode::BorImm, ty2, x, 0u32, 0u32, c, IntCC::Equal, TrapCode::User(0), 0u8, 0i32, 0u32, 0u32), None, None);
        p = p + 1;
        func.replace(inst, make_inst(Opcode::Ireduce, ValueType(I16), z, 0u32, 0u32, 0i64, IntCC::Equal, TrapCode::User(0), 0u8, 0i32, 0u32, 0u32));
        return true;
    }
    false
}

/// The function after the widening of a `bor_not` instruction, or `None` where no pattern applies.
#[verifier::opaque]
pub open spec fn widen_bor_not_spec(v: FuncView, inst: Inst, pos: int, d: InstData) -> Option<FuncView> {
    let p = pos;
    let b = d.arg0;
    let c = d.arg1;
    if value_type_of(v, d.arg0) == ValueType(I8) {
        let (new0, new1) = s_ins_results(v, inst_of(Opcode::Uextend, ValueType(I32), b, 0u32, 0u32, 0i64, IntCC::Equal, TrapCode::User(0), 0u8, 0i32, 0u32, 0u32), None, None);
        let v = s_ins(v, p, inst_of(Opcode::Uextend, ValueType(I32), b, 0u32, 0u32, 0i64, IntCC::Equal, TrapCode::User(0), 0u8, 0i32, 0u32, 0u32), None, None);
        let (x, _r1) = (new0, new1);
        let p = p + 1;
        let (new0, new1) = s_ins_results(v, inst_of(Opcode::Uextend, ValueType(I32), c, 0u32, 0u32, 0i64, IntCC::Equal, TrapCode::User(0), 0u8, 0i32, 0u32, 0u32), None, None);
        let v = s_ins(v, p, inst_of(Opcode::Uextend, ValueType(I32), c, 0u32, 0u32, 0i64, IntCC::Equal, TrapCode::User(0), 0u8, 0i32, 0u32, 0u32), None, None);
        let (y, _r1) = (new0, new1);
        let p = p + 1;
        let (new0, new1) = s_ins_results(v, inst_of(Opcode::BorNot, value_type_of(v, x), x, y, 0u32, 0i64, IntCC::Equal, TrapCode::User(0), 0u8, 0i32, 0u32, 0u32), None, None);
        let v = s_ins(v, p, inst_of(Opcode::BorNot, value_type_of(v, x), x, y, 0u32, 0i64, IntCC::Equal, TrapCode::User(0), 0u8, 0i32, 0u32, 0u32), None, None);
        let (z, _r1) = (new0, new1);
        let p = p + 1;
        let v = s_replace(v, inst, inst_of(Opcode::Ireduce, ValueType(I8), z, 0u32, 0u32, 0i64, IntCC::Equal, TrapCode::User(0), 0u8, 0i32, 0u32, 0u32));
        Some(v)
} else {
    if value_type_of(v, d.arg0) == ValueType(I16) {
        let (new0, new1) = s_ins_results(v, inst_of(Opcode::Uextend, ValueType(I32), b, 0u32, 0u32, 0i64, IntCC::Equal, TrapCode::User(0), 0u8, 0i32, 0u32, 0u32), None, None);
        let v = s_ins(v, p, inst_of(Opcode::Uextend, ValueType(I32), b, 0u32, 0u32, 0i64, IntCC::Equal, TrapCode::User(0), 0u8, 0i32, 0u32, 0u32), None, None);
        let (x, _r1) = (new0, new1);
        let p = p + 1;
        let (new0, new1) = s_ins_results(v, inst_of(Opcode::Uextend, ValueType(I32), c, 0u32, 0u32, 0i64, IntCC::Equal, TrapCode::User(0), 0u8, 0i32, 0u32, 0u32), None, None);
        let v = s_ins(v, p, inst_of(Opcode::Uextend, ValueType(I32), c, 0u32, 0u32, 0i64, IntCC::Equal, TrapCode::User(0), 0u8, 0i32, 0u32, 0u32), None, None);
        let (y, _r1) = (new0, new1);
        let p = p + 1;
        let (new0, new1) = s_ins_results(v, inst_of(Opcode::BorNot, value_type_of(v, x), x, y, 0u32, 0i64, IntCC::Equal, TrapCode::User(0), 0u8, 0i32, 0u32, 0u32), None, None);
        let v = s_ins(v, p, inst_of(Opcode::BorNot, value_type_of(v, x), x, y, 0u32, 0i64, IntCC::Equal, TrapCode::User(0), 0u8, 0i32, 0u32, 0u32), None, None);
        let (z, _r1) = (new0, new1);
        let p = p + 1;
        let v = s_replace(v, inst, inst_of(Opcode::Ireduce, ValueType(I16), z, 0u32, 0u32, 0i64, IntCC::Equal, TrapCode::User(0), 0u8, 0i32, 0u32, 0u32));
        Some(v)
} else {
    None
}
}
}

/// Legalize a `bor_not` instruction by widening.
fn widen_bor_not(inst: Inst, pos: usize, d: InstData, func: &mut Function) -> (r: bool)
    requires
        pattern_input(old(func)@, inst, pos as int, d),
    ensures
        pattern_outcome(old(func)@, final(func)@, r, widen_bor_not_spec(old(func)@, inst, pos as int, d)),
        final(func).encodings@ == old(func).encodings@,
        func_wf(final(func)@),
        r ==> final(func)@.0.len() > old(func)@.0.len(),
        keeps_before(old(func)@, final(func)@, inst, pos as int),
{
    proof {
        reveal(widen_bor_not_spec);
    }
    let mut p = pos;
    let b = d.arg0;
    let c = d.arg1;
    if func.value_type(d.arg0) == ValueType(I8) {
        let (x, _r1) = func.ins(p, make_inst(Opcode::Uextend, ValueType(I32), b, 0u32, 0u32, 0i64, IntCC::Equal, TrapCode::User(0), 0u8, 0i32, 0u32, 0u32), None, None);
        p = p + 1;
        let (y, _r1) = func.ins(p, make_inst(Opcode::Uextend, ValueType(I32), c, 0u32, 0u32, 0i64, IntCC::Equal, TrapCode::User(0), 0u8, 0i32, 0u32, 0u32), None, None);
        p = p + 1;
        let ty1 = func.value_type(x);
        let (z, _r1) = func.ins(p, make_inst(Opcode::BorNot, ty1, x, y, 0u32, 0i64, IntCC::Equal, TrapCode::User(0), 0u8, 0i32, 0u32, 0u32), None, None);
        p = p + 1;
        func.replace(inst, make_inst(Opcode::Ireduce, ValueType(I8), z, 0u32, 0u32, 0i64, IntCC::Equal, TrapCode::User(0), 0u8, 0i32, 0u32, 0u32));
        return true;
    }
    if func.value_type(d.arg0) == ValueType(I16) {
        let (x, _r1) = func.ins(p, make_inst(Opcode::Uextend, ValueType(I32), b, 0u32, 0u32, 0i64, IntCC::Equal, TrapCode::User(0), 0u8, 0i32, 0u32, 0u32), None, None);
        p = p + 1;
        let (y, _r1) = func.ins(p, make_inst(Opcode::Uextend, ValueType(I32), c, 0u32, 0u32, 0i64, IntCC::Equal, TrapCode::User(0), 0u8, 0i32, 0u32, 0u32), None, None);
        p = p + 1;
        let ty2 = func.value_type(x);
        let (z, _r1) = func.ins(p, make_inst(Opcode::BorNot, ty2, x, y, 0u32, 0i64, IntCC::Equal, TrapCode::User(0), 0u8, 0i32, 0u32, 0u32), None, None);
        p = p + 1;
        func.replace(inst, make_inst(Opcode::Ireduce, ValueType(I16), z, 0u32, 0u32, 0i64, IntCC::Equal, TrapCode::User(0), 0u8, 0i32, 0u32, 0u32));
        return true;
    }
    false
}

/// The function after the widening of a `br_table` instruction, or `None` where no pattern applies.
#[verifier::opaque]
pub open spec fn widen_br_table_spec(v: FuncView, inst: Inst, pos: int, d: InstData) -> Option<FuncView> {
    let p = pos;
    let x = d.arg0;
    let y = d.dest;
    let z = d.table;
    if value_type_of(v, d.arg0) == ValueType(I8) {
        let v = s_clear_results(v, inst);
        let (new0, new1) = s_ins_results(v, inst_of(Opcode::Uextend, ValueType(I32), x, 0u32, 0u32, 0i64, IntCC::Equal, TrapCode::User(0), 0u8, 0i32, 0u32, 0u32), None, None);
        let v = s_ins(v, p, inst_of(Opcode::Uextend, ValueType(I32), x, 0u32, 0u32, 0i64, IntCC::Equal, TrapCode::User(0), 0u8, 0i32, 0u32, 0u32), None, None);
        let (b, _r1) = (new0, new1);
        let p = p + 1;
        let (new0, new1) = s_ins_results(v, inst_of(Opcode::BrTable, value_type_of(v, b), b, 0u32, 0u32, 0i64, IntCC::Equal, TrapCode::User(0), 0u8, 0i32, y, z), None, None);
        let v = s_ins(v, p, inst_of(Opcode::BrTable, value_type_of(v, b), b, 0u32, 0u32, 0i64, IntCC::Equal, TrapCode::User(0), 0u8, 0i32, y, z), None, None);
        let (_r0, _r1) = (new0, new1);
        let p = p + 1;
        let v = s_remove(v, p);
        Some(v)
} else {
    if value_type_of(v, d.arg0) == ValueType(I16) {
        let v = s_clear_results(v, inst);
        let (new0, new1) = s_ins_results(v, inst_of(Opcode::Uextend, ValueType(I32), x, 0u32, 0u32, 0i64, IntCC::Equal, TrapCode::User(0), 0u8, 0i32, 0u32, 0u32), None, None);
        let v = s_ins(v, p, inst_of(Opcode::Uextend, ValueType(I32), x, 0u32, 0u32, 0i64, IntCC::Equal, TrapCode::User(0), 0u8, 0i32, 0u32, 0u32), None, None);
        let (b, _r1) = (new0, new1);
        let p = p + 1;
        let (new0, new1) = s_ins_results(v, inst_of(Opcode::BrTable, value_type_of(v, b), b, 0u32, 0u32, 0i64, IntCC::Equal, TrapCode::User(0), 0u8, 0i32, y, z), None, None);
        let v = s_ins(v, p, inst_of(Opcode::BrTable, value_type_of(v, b), b, 0u32, 0u32, 0i64, IntCC::Equal, TrapCode::User(0), 0u8, 0i32, y, z), None, None);
        let (_r0, _r1) = (new0, new1);
        let p = p + 1;
        let v = s_remove(v, p);
        Some(v)
} else {
    None
}
}
}

/// Legalize a `br_table` instruction by widening.
fn widen_br_table(inst: Inst, pos: usize, d: InstData, func: &mut Function) -> (r: bool)
    requires
        pattern_input(old(func)@, inst, pos as int, d),
    ensures
        pattern_outcome(old(func)@, final(func)@, r, widen_br_table_spec(old(func)@, inst, pos as int, d)),
        final(func).encodings@ == old(func).encodings@,
        func_wf(final(func)@),
        r ==> final(func)@.0.len() > old(func)@.0.len(),
        keeps_before(old(func)@, final(func)@, inst, pos as int),
{
    proof {
        reveal(widen_br_table_spec);
    }
    let mut p = pos;
    let x = d.arg0;
    let y = d.dest;
    let z = d.table;
    if func.value_type(d.arg0) == ValueType(I8) {
        func.clear_results(inst);
        let (b, _r1) = func.ins(p, make_inst(Opcode::Uextend, ValueType(I32), x, 0u32, 0u32, 0i64, IntCC::Equal, TrapCode::User(0), 0u8, 0i32, 0u32, 0u32), None, None);
        p = p + 1;
        let ty1 = func.value_type(b);
        let (_r0, _r1) = func.ins(p, make_inst(Opcode::BrTable, ty1, b, 0u32, 0u32, 0i64, IntCC::Equal, TrapCode::User(0), 0u8, 0i32, y, z), None, None);
        p = p + 1;
        func.remove_inst(p);
        return true;
    }
    if func.value_type(d.arg0) == ValueType(I16) {
        func.clear_results(inst);
        let (b, _r1) = func.ins(p, make_inst(Opcode::Uextend, ValueType(I32), x, 0u32, 0u32, 0i64, IntCC::Equal, TrapCode::User(0), 0u8, 0i32, 0u32, 0u32), None, None);
        p = p + 1;
        let ty2 = func.value_type(b);
        let (_r0, _r1) = func.ins(p, make_inst(Opcode::BrTable, ty2, b, 0u32, 0u32, 0i64, IntCC::Equal, TrapCode::User(0), 0u8, 0i32, y, z), None, None);
        p = p + 1;
        func.remove_inst(p);
        return true;
    }
    false
}

/// The function after the widening of a `bxor` instruction, or `None` where no pattern applies.
#[verifier::opaque]
pub open spec fn widen_bxor_spec(v: FuncView, inst: Inst, pos: int, d: InstData) -> Option<FuncView> {
    let p = pos;
    let b = d.arg0;
    let c = d.arg1;
    if value_type_of(v, d.arg0) == ValueType(I8) {
        let (new0, new1) = s_ins_results(v, inst_of(Opcode::Uextend, ValueType(I32), b, 0u32, 0u32, 0i64, IntCC::Equal, TrapCode::User(0), 0u8, 0i32, 0u32, 0u32), None, None);
        let v = s_ins(v, p, inst_of(Opcode::Uextend, ValueType(I32), b, 0u32, 0u32, 0i64, IntCC::Equal, TrapCode::User(0), 0u8, 0i32, 0u32, 0u32), None, None);
        let (x, _r1) = (new0, new1);
        let p = p + 1;
        let (new0, new1) = s_ins_results(v, inst_of(Opcode::Uextend, ValueType(I32), c, 0u32, 0u32, 0i64, IntCC::Equal, TrapCode::User(0), 0u8, 0i32, 0u32, 0u32), None, None);
        let v = s_ins(v, p, inst_of(Opcode::Uextend, ValueType(I32), c, 0u32, 0u32, 0i64, IntCC::Equal, TrapCode::User(0), 0u8, 0i32, 0u32, 0u32), None, None);
        let (y, _r1) = (new0, new1);
        let p = p + 1;
        let (new0, new1) = s_ins_results(v, inst_of(Opcode::Bxor, value_type_of(v, x), x, y, 0u32, 0i64, IntCC::Equal, TrapCode::User(0), 0u8, 0i32, 0u32, 0u32), None, None);
        let v = s_ins(v, p, inst_of(Opcode::Bxor, value_type_of(v, x), x, y, 0u32, 0i64, IntCC::Equal, TrapCode::User(0), 0u8, 0i32, 0u32, 0u32), None, None);
        let (z, _r1) = (new0, new1);
        let p = p + 1;
        let v = s_replace(v, inst, inst_of(Opcode::Ireduce, ValueType(I8), z, 0u32, 0u32, 0i64, IntCC::Equal, TrapCode::User(0), 0u8, 0i32, 0u32, 0u32));
        Some(v)
} else {
    if value_type_of(v, d.arg0) == ValueType(I16) {
        let (new0, new1) = s_ins_results(v, inst_of(Opcode::Uextend, ValueType(I32), b, 0u32, 0u32, 0i64, IntCC::Equal, TrapCode::User(0), 0u8, 0i32, 0u32, 0u32), None, None);
        let v = s_ins(v, p, inst_of(Opcode::Uextend, ValueType(I32), b, 0u32, 0u32, 0i64, IntCC::Equal, TrapCode::User(0), 0u8, 0i32, 0u32, 0u32), None, None);
        let (x, _r1) = (new0, new1);
        let p = p + 1;
        let (new0, new1) = s_ins_results(v, inst_of(Opcode::Uextend, ValueType(I32), c, 0u32, 0u32, 0i64, IntCC::Equal, TrapCode::User(0), 0u8, 0i32, 0u32, 0u32), None, None);
        let v = s_ins(v, p, inst_of(Opcode::Uextend, ValueType(I32), c, 0u32, 0u32, 0i64, IntCC::Equal, TrapCode::User(0), 0u8, 0i32, 0u32, 0u32), None, None);
        let (y, _r1) = (new0, new1);
        let p = p + 1;
        let (new0, new1) = s_ins_results(v, inst_of(Opcode::Bxor, value_type_of(v, x), x, y, 0u32, 0i64, IntCC::Equal, TrapCode::User(0), 0u8, 0i32, 0u32, 0u32), None, None);
        let v = s_ins(v, p, inst_of(Opcode::Bxor, value_type_of(v, x), x, y, 0u32, 0i64, IntCC::Equal, TrapCode::User(0), 0u8, 0i32, 0u32, 0u32), None, None);
        let (z, _r1) = (new0, new1);
        let p = p + 1;
        let v = s_replace(v, inst, inst_of(Opcode::Ireduce, ValueType(I16), z, 0u32, 0u32, 0i64, IntCC::Equal, TrapCode::User(0), 0u8, 0i32, 0u32, 0u32));
        Some(v)
} else {
    None
}
}
}

/// Legalize a `bxor` instruction by widening.
fn widen_bxor(inst: Inst, pos: usize, d: InstData, func: &mut Function) -> (r: bool)
    requires
        pattern_input(old(func)@, inst, pos as int, d),
    ensures
        pattern_outcome(old(func)@, final(func)@, r, widen_bxor_spec(old(func)@, inst, pos as int, d)),
        final(func).encodings@ == old(func).encodings@,
        func_wf(final(func)@),
        r ==> final(func)@.0.len() > old(func)@.0.len(),
        keeps_before(old(func)@, final(func)@, inst, pos as int),
{
    proof {
        reveal(widen_bxor_spec);
    }
    let mut p = pos;
    let b = d.arg0;
    let c = d.arg1;
    if func.value_type(d.arg0) == ValueType(I8) {
        let (x, _r1) = func.ins(p, make_inst(Opcode::Uextend, ValueType(I32), b, 0u32, 0u32, 0i64, IntCC::Equal, TrapCode::User(0), 0u8, 0i32, 0u32, 0u32), None, None);
        p = p + 1;
        let (y, _r1) = func.ins(p, make_inst(Opcode::Uextend, ValueType(I32), c, 0u32, 0u32, 0i64, IntCC::Equal, TrapCode::User(0), 0u8, 0i32, 0u32, 0u32), None, None);
        p = p + 1;
        let ty1 = func.value_type(x);
        let (z, _r1) = func.ins(p, make_inst(Opcode::Bxor, ty1, x, y, 0u32, 0i64, IntCC::Equal, TrapCode::User(0), 0u8, 0i32, 0u32, 0u32), None, None);
        p = p + 1;
        func.replace(inst, make_inst(Opcode::Ireduce, ValueType(I8), z, 0u32, 0u32, 0i64, IntCC::Equal, TrapCode::User(0), 0u8, 0i32, 0u32, 0u32));
        return true;
    }
    if func.value_type(d.arg0) == ValueType(I16) {
        let (x, _r1) = func.ins(p, make_inst(Opcode::Uextend, ValueType(I32), b, 0u32, 0u32, 0i64, IntCC::Equal, TrapCode::User(0), 0u8, 0i32, 0u32, 0u32), None, None);
        p = p + 1;
        let (y, _r1) = func.ins(p, make_inst(Opcode::Uextend, ValueType(I32), c, 0u32, 0u32, 0i64, IntCC::Equal, TrapCode::User(0), 0u8, 0i32, 0u32, 0u32), None, None);
        p = p + 1;
        let ty2 = func.value_type(x);
        let (z, _r1) = func.ins(p, make_inst(Opcode::Bxor, ty2, x, y, 0u32, 0i64, IntCC::Equal, TrapCode::User(0), 0u8, 0i32, 0u32, 0u32), None, None);
        p = p + 1;
        func.replace(inst, make_inst(Opcode::Ireduce, ValueType(I16), z, 0u32, 0u32, 0i64, IntCC::Equal, TrapCode::User(0), 0u8, 0i32, 0u32, 0u32));
        return true;
    }
    false
}

/// The function after the widening of a `bxor_imm` instruction, or `None` where no pattern applies.
#[verifier::opaque]
pub open spec fn widen_bxor_imm_spec(v: FuncView, inst: Inst, pos: int, d: InstData) -> Option<FuncView> {
    let p = pos;
    let b = d.arg0;
    let c = d.imm;
    if value_type_of(v, d.arg0) == ValueType(I8) {
        let (new0, new1) = s_ins_results(v, inst_of(Opcode::Uextend, ValueType(I32), b, 0u32, 0u32, 0i64, IntCC::Equal, TrapCode::User(0), 0u8, 0i32, 0u32, 0u32), None, None);
        let v = s_ins(v, p, inst_of(Opcode::Uextend, ValueType(I32), b, 0u32, 0u32, 0i64, IntCC::Equal, TrapCode::User(0), 0u8, 0i32, 0u32, 0u32), None, None);
        let (x, _r1) = (new0, new1);
        let p = p + 1;
        let (new0, new1) = s_ins_results(v, inst_of(Opcode::BxorImm, value_type_of(v, x), x, 0u32, 0u32, c, IntCC::Equal, TrapCode::User(0), 0u8, 0i32, 0u32, 0u32), None, None);
        let v = s_ins(v, p, inst_of(Opcode::BxorImm, value_type_of(v, x), x, 0u32, 0u32, c, IntCC::Equal, TrapCode::User(0), 0u8, 0i32, 0u32, 0u32), None, None);
        let (z, _r1) = (new0, new1);
        let p = p + 1;
        let v = s_replace(v, inst, inst_of(Opcode::Ireduce, ValueType(I8), z, 0u32, 0u32, 0i64, IntCC::Equal, TrapCode::User(0), 0u8, 0i32, 0u32, 0u32));
        Some(v)
} else {
    if value_type_of(v, d.arg0) == ValueType(I16) {
        let (new0, new1) = s_ins_results(v, inst_of(Opcode::Uextend, ValueType(I32), b, 0u32, 0u32, 0i64, IntCC::Equal, TrapCode::User(0), 0u8, 0i32, 0u32, 0u32), None, None);
        let v = s_ins(v, p, inst_of(Opcode::Uextend, ValueType(I32), b, 0u32, 0u32, 0i64, IntCC::Equal, TrapCode::User(0), 0u8, 0i32, 0u32, 0u32), None, None);
        let (x, _r1) = (new0, new1);
        let p = p + 1;
        let (new0, new1) = s_ins_results(v, inst_of(Opcode::BxorImm, value_type_of(v, x), x, 0u32, 0u32, c, IntCC::Equal, TrapCode::User(0), 0u8, 0i32, 0u32, 0u32), None, None);
        let v = s_ins(v, p, inst_of(Opcode::BxorImm, value_type_of(v, x), x, 0u32, 0u32, c, IntCC::Equal, TrapCode::User(0), 0u8, 0i32, 0u32, 0u32), None, None);
        let (z, _r1) = (new0, new1);
        let p = p + 1;
        let v = s_replace(v, inst, inst_of(Opcode::Ireduce, ValueType(I16), z, 0u32, 0u32, 0i64, IntCC::Equal, TrapCode::User(0), 0u8, 0i32, 0u32, 0u32));
        Some(v)
} else {
    None
}
}
}

/// Legalize a `bxor_imm` instruction by widening.
fn widen_bxor_imm(inst: Inst, pos: usize, d: InstData, func: &mut Function) -> (r: bool)
    requires
        pattern_input(old(func)@, inst, pos as int, d),
    ensures
        pattern_outcome(old(func)@, final(func)@, r, widen_bxor_imm_spec(old(func)@, inst, pos as int, d)),
        final(func).encodings@ == old(func).encodings@,
        func_wf(final(func)@),
        r ==> final(func)@.0.len() > old(func)@.0.len(),
        keeps_before(old(func)@, final(func)@, inst, pos as int),
{
    proof {
        reveal(widen_bxor_imm_spec);
    }
    let mut p = pos;
    let b = d.arg0;
    let c = d.imm;
    if func.value_type(d.arg0) == ValueType(I8) {
        let (x, _r1) = func.ins(p, make_inst(Opcode::Uextend, ValueType(I32), b, 0u32, 0u32, 0i64, IntCC::Equal, TrapCode::User(0), 0u8, 0i32, 0u32, 0u32), None, None);
        p = p + 1;
        let ty1 = func.value_type(x);
        let (z, _r1) = func.ins(p, make_inst(Opcode::BxorImm, ty1, x, 0u32, 0u32, c, IntCC::Equal, TrapCode::User(0), 0u8, 0i32, 0u32, 0u32), None, None);
        p = p + 1;
        func.replace(inst, make_inst(Opcode::Ireduce, ValueType(I8), z, 0u32, 0u32, 0i64, IntCC::Equal, TrapCode::User(0), 0u8, 0i32, 0u32, 0u32));
        return true;
    }
    if func.value_type(d.arg0) == ValueType(I16) {
        let (x, _r1) = func.ins(p, make_inst(Opcode::Uextend, ValueType(I32), b, 0u32, 0u32, 0i64, IntCC::Equal, TrapCode::User(0), 0u8, 0i32, 0u32, 0u32), None, None);
        p = p + 1;
        let ty2 = func.value_type(x);
        let (z, _r1) = func.ins(p, make_inst(Opcode::BxorImm, ty2, x, 0u32, 0u32, c, IntCC::Equal, TrapCode::User(0), 0u8, 0i32, 0u32, 0u32), None, None);
        p = p + 1;
        func.replace(inst, make_inst(Opcode::Ireduce, ValueType(I16), z, 0u32, 0u32, 0i64, IntCC::Equal, TrapCode::User(0), 0u8, 0i32, 0u32, 0u32));
        return true;
    }
    false
}

/// The function after the widening of a `bxor_not` instruction, or `None` where no pattern applies.
#[verifier::opaque]
pub open spec fn widen_bxor_not_spec(v: FuncView, inst: Inst, pos: int, d: InstData) -> Option<FuncView> {
    let p = pos;
    let b = d.arg0;
    let c = d.arg1;
    if value_type_of(v, d.arg0) == ValueType(I8) {
        let (new0, new1) = s_ins_results(v, inst_of(Opcode::Uextend, ValueType(I32), b, 0u32, 0u32, 0i64, IntCC::Equal, TrapCode::User(0), 0u8, 0i32, 0u32, 0u32), None, None);
        let v = s_ins(v, p, inst_of(Opcode::Uextend, ValueType(I32), b, 0u32, 0u32, 0i64, IntCC::Equal, TrapCode::User(0), 0u8, 0i32, 0u32, 0u32), None, None);
        let (x, _r1) = (new0, new1);
        let p = p + 1;
        let (new0, new1) = s_ins_results(v, inst_of(Opcode::Uextend, ValueType(I32), c, 0u32, 0u32, 0i64, IntCC::Equal, TrapCode::User(0), 0u8, 0i32, 0u32, 0u32), None, None);
        let v = s_ins(v, p, inst_of(Opcode::Uextend, ValueType(I32), c, 0u32, 0u32, 0i64, IntCC::Equal, TrapCode::User(0), 0u8, 0i32, 0u32, 0u32), None, None);
        let (y, _r1) = (new0, new1);
        let p = p + 1;
        let (new0, new1) = s_ins_results(v, inst_of(Opcode::BxorNot, value_type_of(v, x), x, y, 0u32, 0i64, IntCC::Equal, TrapCode::User(0), 0u8, 0i32, 0u32, 0u32), None, None);
        let v = s_ins(v, p, inst_of(Opcode::BxorNot, value_type_of(v, x), x, y, 0u32, 0i64, IntCC::Equal, TrapCode::User(0), 0u8, 0i32, 0u32, 0u32), None, None);
        let (z, _r1) = (new0, new1);
        let p = p + 1;
        let v = s_replace(v, inst, inst_of(Opcode::Ireduce, ValueType(I8), z, 0u32, 0u32, 0i64, IntCC::Equal, TrapCode::User(0), 0u8, 0i32, 0u32, 0u32));
        Some(v)
} else {
    if value_type_of(v, d.arg0) == ValueType(I16) {
        let (new0, new1) = s_ins_results(v, inst_of(Opcode::Uextend, ValueType(I32), b, 0u32, 0u32, 0i64, IntCC::Equal, TrapCode::User(0), 0u8, 0i32, 0u32, 0u32), None, None);
        let v = s_ins(v, p, inst_of(Opcode::Uextend, ValueType(I32), b, 0u32, 0u32, 0i64, IntCC::Equal, TrapCode::User(0), 0u8, 0i32, 0u32, 0u32), None, None);
        let (x, _r1) = (new0, new1);
        let p = p + 1;
        let (new0, new1) = s_ins_results(v, inst_of(Opcode::Uextend, ValueType(I32), c, 0u32, 0u32, 0i64, IntCC::Equal, TrapCode::User(0), 0u8, 0i32, 0u32, 0u32), None, None);
        let v = s_ins(v, p, inst_of(Opcode::Uextend, ValueType(I32), c, 0u32, 0u32, 0i64, IntCC::Equal, TrapCode::User(0), 0u8, 0i32, 0u32, 0u32), None, None);
        let (y, _r1) = (new0, new1);
        let p = p + 1;
        let (new0, new1) = s_ins_results(v, inst_of(Opcode::BxorNot, value_type_of(v, x), x, y, 0u32, 0i64, IntCC::Equal, TrapCode::User(0), 0u8, 0i32, 0u32, 0u32), None, None);
        let v = s_ins(v, p, inst_of(Opcode::BxorNot, value_type_of(v, x), x, y, 0u32, 0i64, IntCC::Equal, TrapCode::User(0), 0u8, 0i32, 0u32, 0u32), None, None);
        let (z, _r1) = (new0, new1);
        let p = p + 1;
        let v = s_replace(v, inst, inst_of(Opcode::Ireduce, ValueType(I16), z, 0u32, 0u32, 0i64, IntCC::Equal, TrapCode::User(0), 0u8, 0i32, 0u32, 0u32));
        Some(v)
} else {
    None
}
}
}

/// Legalize a `bxor_not` instruction by widening.
fn widen_bxor_not(inst: Inst, pos: usize, d: InstData, func: &mut Function) -> (r: bool)
    requires
        pattern_input(old(func)@, inst, pos as int, d),
    ensures
        pattern_outcome(old(func)@, final(func)@, r, widen_bxor_not_spec(old(func)@, inst, pos as int, d)),
        final(func).encodings@ == old(func).encodings@,
        func_wf(final(func)@),
        r ==> final(func)@.0.len() > old(func)@.0.len(),
        keeps_before(old(func)@, final(func)@, inst, pos as int),
{
    proof {
        reveal(widen_bxor_not_spec);
    }
    let mut p = pos;
    let b = d.arg0;
    let c = d.arg1;
    if func.value_type(d.arg0) == ValueType(I8) {
        let (x, _r1) = func.ins(p, make_inst(Opcode::Uextend, ValueType(I32), b, 0u32, 0u32, 0i64, IntCC::Equal, TrapCode::User(0), 0u8, 0i32, 0u32, 0u32), None, None);
        p = p + 1;
        let (y, _r1) = func.ins(p, make_inst(Opcode::Uextend, ValueType(I32), c, 0u32, 0u32, 0i64, IntCC::Equal, TrapCode::User(0), 0u8, 0i32, 0u32, 0u32), None, None);
        p = p + 1;
        let ty1 = func.value_type(x);
        let (z, _r1) = func.ins(p, make_inst(Opcode::BxorNot, ty1, x, y, 0u32, 0i64, IntCC::Equal, TrapCode::User(0), 0u8, 0i32, 0u32, 0u32), None, None);
        p = p + 1;
        func.replace(inst, make_inst(Opcode::Ireduce, ValueType(I8), z, 0u32, 0u32, 0i64, IntCC::Equal, TrapCode::User(0), 0u8, 0i32, 0u32, 0u32));
        return true;
    }
    if func.value_type(d.arg0) == ValueType(I16) {
        let (x, _r1) = func.ins(p, make_inst(Opcode::Uextend, ValueType(I32), b, 0u32, 0u32, 0i64, IntCC::Equal, TrapCode::User(0), 0u8, 0i32, 0u32, 0u32), None, None);
        p = p + 1;
        let (y, _r1) = func.ins(p, make_inst(Opcode::Uextend, ValueType(I32), c, 0u32, 0u32, 0i64, IntCC::Equal, TrapCode::User(0), 0u8, 0i32, 0u32, 0u32), None, None);
        p = p + 1;
        let ty2 = func.value_type(x);
        let (z, _r1) = func.ins(p, make_inst(Opcode::BxorNot, ty2, x, y, 0u32, 0i64, IntCC::Equal, TrapCode::User(0), 0u8, 0i32, 0u32, 0u32), None, None);
        p = p + 1;
        func.replace(inst, make_inst(Opcode::Ireduce, ValueType(I16), z, 0u32, 0u32, 0i64, IntCC::Equal, TrapCode::User(0), 0u8, 0i32, 0u32, 0u32));
        return true;
    }
    false
}

/// The function after the widening of a `cls` instruction, or `None` where no pattern applies.
#[verifier::opaque]
pub open spec fn widen_cls_spec(v: FuncView, inst: Inst, pos: int, d: InstData) -> Option<FuncView> {
    let p = pos;
    let b = d.arg0;
    if value_type_of(v, d.arg0) == ValueType(I8) {
        let (new0, new1) = s_ins_results(v, inst_of(Opcode::Sextend, ValueType(I32), b, 0u32, 0u32, 0i64, IntCC::Equal, TrapCode::User(0), 0u8, 0i32, 0u32, 0u32), None, None);
        let v = s_ins(v, p, inst_of(Opcode::Sextend, ValueType(I32), b, 0u32, 0u32, 0i64, IntCC::Equal, TrapCode::User(0), 0u8, 0i32, 0u32, 0u32), None, None);
        let (c, _r1) = (new0, new1);
        let p = p + 1;
        let (new0, new1) = s_ins_results(v, inst_of(Opcode::Cls, value_type_of(v, c), c, 0u32, 0u32, 0i64, IntCC::Equal, TrapCode::User(0), 0u8, 0i32, 0u32, 0u32), None, None);
        let v = s_ins(v, p, inst_of(Opcode::Cls, value_type_of(v, c), c, 0u32, 0u32, 0i64, IntCC::Equal, TrapCode::User(0), 0u8, 0i32, 0u32, 0u32), None, None);
        let (d, _r1) = (new0, new1);
        let p = p + 1;
        let (new0, new1) = s_ins_results(v, inst_of(Opcode::IaddImm, value_type_of(v, d), d, 0u32, 0u32, -24i64, IntCC::Equal, TrapCode::User(0), 0u8, 0i32, 0u32, 0u32), None, None);
        let v = s_ins(v, p, inst_of(Opcode::IaddImm, value_type_of(v, d), d, 0u32, 0u32, -24i64, IntCC::Equal, TrapCode::User(0), 0u8, 0i32, 0u32, 0u32), None, None);
        let (e, _r1) = (new0, new1);
        let p = p + 1;
        let v = s_replace(v, inst, inst_of(Opcode::Ireduce, ValueType(I8), e, 0u32, 0u32, 0i64, IntCC::Equal, TrapCode::User(0), 0u8, 0i32, 0u32, 0u32));
        Some(v)
} else {
    if value_type_of(v, d.arg0) == ValueType(I16) {
        let (new0, new1) = s_ins_results(v, inst_of(Opcode::Sextend, ValueType(I32), b, 0u32, 0u32, 0i64, IntCC::Equal, TrapCode::User(0), 0u8, 0i32, 0u32, 0u32), None, None);
        let v = s_ins(v, p, inst_of(Opcode::Sextend, ValueType(I32), b, 0u32, 0u32, 0i64, IntCC::Equal, TrapCode::User(0), 0u8, 0i32, 0u32, 0u32), None, None);
        let (c, _r1) = (new0, new1);
        let p = p + 1;
        let (new0, new1) = s_ins_results(v, inst_of(Opcode::Cls, value_type_of(v, c), c, 0u32, 0u32, 0i64, IntCC::Equal, TrapCode::User(0), 0u8, 0i32, 0u32, 0u32), None, None);
        let v = s_ins(v, p, inst_of(Opcode::Cls, value_type_of(v, c), c, 0u32, 0u32, 0i64, IntCC::Equal, TrapCode::User(0), 0u8, 0i32, 0u32, 0u32), None, None);
        let (d, _r1) = (new0, new1);
        let p = p + 1;
        let (new0, new1) = s_ins_results(v, inst_of(Opcode::IaddImm, value_type_of(v, d), d, 0u32, 0u32, -16i64, IntCC::Equal, TrapCode::User(0), 0u8, 0i32, 0u32, 0u32), None, None);
        let v = s_ins(v, p, inst_of(Opcode::IaddImm, value_type_of(v, d), d, 0u32, 0u32, -16i64, IntCC::Equal, TrapCode::User(0), 0u8, 0i32, 0u32, 0u32), None, None);
        let (e, _r1) = (new0, new1);
        let p = p + 1;
        let v = s_replace(v, inst, inst_of(Opcode::Ireduce, ValueType(I16), e, 0u32, 0u32, 0i64, IntCC::Equal, TrapCode::User(0), 0u8, 0i32, 0u32, 0u32));
        Some(v)
} else {
    None
}
}
}

/// Legalize a `cls` instruction by widening.
fn widen_cls(inst: Inst, pos: usize, d: InstData, func: &mut Function) -> (r: bool)
    requires
        pattern_input(old(func)@, inst, pos as int, d),
    ensures
        pattern_outcome(old(func)@, final(func)@, r, widen_cls_spec(old(func)@, inst, pos as int, d)),
        final(func).encodings@ == old(func).encodings@,
        func_wf(final(func)@),
        r ==> final(func)@.0.len() > old(func)@.0.len(),
        keeps_before(old(func)@, final(func)@, inst, pos as int),
{
    proof {
        reveal(widen_cls_spec);
    }
    let mut p = pos;
    let b = d.arg0;
    if func.value_type(d.arg0) == ValueType(I8) {
        let (c, _r1) = func.ins(p, make_inst(Opcode::Sextend, ValueType(I32), b, 0u32, 0u32, 0i64, IntCC::Equal, TrapCode::User(0), 0u8, 0i32, 0u32, 0u32), None, None);
        p = p + 1;
        let ty1 = func.value_type(c);
        let (d, _r1) = func.ins(p, make_inst(Opcode::Cls, ty1, c, 0u32, 0u32, 0i64, IntCC::Equal, TrapCode::User(0), 0u8, 0i32, 0u32, 0u32), None, None);
        p = p + 1;
        let ty2 = func.value_type(d);
        let (e, _r1) = func.ins(p, make_inst(Opcode::IaddImm, ty2, d, 0u32, 0u32, -24i64, IntCC::Equal, TrapCode::User(0), 0u8, 0i32, 0u32, 0u32), None, None);
        p = p + 1;
        func.replace(inst, make_inst(Opcode::Ireduce, ValueType(I8), e, 0u32, 0u32, 0i64, IntCC::Equal, TrapCode::User(0), 0u8, 0i32, 0u32, 0u32));
        return true;
    }
    if func.value_type(d.arg0) == ValueType(I16) {
        let (c, _r1) = func.ins(p, make_inst(Opcode::Sextend, ValueType(I32), b, 0u32, 0u32, 0i64, IntCC::Equal, TrapCode::User(0), 0u8, 0i32, 0u32, 0u32), None, None);
        p = p + 1;
        let ty3 = func.value_type(c);
        let (d, _r1) = func.ins(p, make_inst(Opcode::Cls, ty3, c, 0u32, 0u32, 0i64, IntCC::Equal, TrapCode::User(0), 0u8, 0i32, 0u32, 0u32), None, None);
        p = p + 1;
        let ty4 = func.value_type(d);
        let (e, _r1) = func.ins(p, make_inst(Opcode::IaddImm, ty4, d, 0u32, 0u32, -16i64, IntCC::Equal, TrapCode::User(0), 0u8, 0i32, 0u32, 0u32), None, None);
        p = p + 1;
        func.replace(inst, make_inst(Opcode::Ireduce, ValueType(I16), e, 0u32, 0u32, 0i64, IntCC::Equal, TrapCode::User(0), 0u8, 0i32, 0u32, 0u32));
        return true;
    }
    false
}

/// The function after the widening of a `clz` instruction, or `None` where no pattern applies.
#[verifier::opaque]
pub open spec fn widen_clz_spec(v: FuncView, inst: Inst, pos: int, d: InstData) -> Option<FuncView> {
    let p = pos;
    let b = d.arg0;
    if value_type_of(v, d.arg0) == ValueType(I8) {
        let (new0, new1) = s_ins_results(v, inst_of(Opcode::Uextend, ValueType(I32), b, 0u32, 0u32, 0i64, IntCC::Equal, TrapCode::User(0), 0u8, 0i32, 0u32, 0u32), None, None);
        let v = s_ins(v, p, inst_of(Opcode::Uextend, ValueType(I32), b, 0u32, 0u32, 0i64, IntCC::Equal, TrapCode::User(0), 0u8, 0i32, 0u32, 0u32), None, None);
        let (c, _r1) = (new0, new1);
        let p = p + 1;
        let (new0, new1) = s_ins_results(v, inst_of(Opcode::Clz, value_type_of(v, c), c, 0u32, 0u32, 0i64, IntCC::Equal, TrapCode::User(0), 0u8, 0i32, 0u32, 0u32), None, None);
        let v = s_ins(v, p, inst_of(Opcode::Clz, value_type_of(v, c), c, 0u32, 0u32, 0i64, IntCC::Equal, TrapCode::User(0), 0u8, 0i32, 0u32, 0u32), None, None);
        let (d, _r1) = (new0, new1);
        let p = p + 1;
        let (new0, new1) = s_ins_results(v, inst_of(Opcode::IaddImm, value_type_of(v, d), d, 0u32, 0u32, -24i64, IntCC::Equal, TrapCode::User(0), 0u8, 0i32, 0u32, 0u32), None, None);
        let v = s_ins(v, p, inst_of(Opcode::IaddImm, value_type_of(v, d), d, 0u32, 0u32, -24i64, IntCC::Equal, TrapCode::User(0), 0u8, 0i32, 0u32, 0u32), None, None);
        let (e, _r1) = (new0, new1);
        let p = p + 1;
        let v = s_replace(v, inst, inst_of(Opcode::Ireduce, ValueType(I8), e, 0u32, 0u32, 0i64, IntCC::Equal, TrapCode::User(0), 0u8, 0i32, 0u32, 0u32));
        Some(v)
} else {
    if value_type_of(v, d.arg0) == ValueType(I16) {
        let (new0, new1) = s_ins_results(v, inst_of(Opcode::Uextend, ValueType(I32), b, 0u32, 0u32, 0i64, IntCC::Equal, TrapCode::User(0), 0u8, 0i32, 0u32, 0u32), None, None);
        let v = s_ins(v, p, inst_of(Opcode::Uextend, ValueType(I32), b, 0u32, 0u32, 0i64, IntCC::Equal, TrapCode::User(0), 0u8, 0i32, 0u32, 0u32), None, None);
        let (c, _r1) = (new0, new1);
        let p = p + 1;
        let (new0, new1) = s_ins_results(v, inst_of(Opcode::Clz, value_type_of(v, c), c, 0u32, 0u32, 0i64, IntCC::Equal, TrapCode::User(0), 0u8, 0i32, 0u32, 0u32), None, None);
        let v = s_ins(v, p, inst_of(Opcode::Clz, value_type_of(v, c), c, 0u32, 0u32, 0i64, IntCC::Equal, TrapCode::User(0), 0u8, 0i32, 0u32, 0u32), None, None);
        let (d, _r1) = (new0, new1);
        let p = p + 1;
        let (new0, new1) = s_ins_results(v, inst_of(Opcode::IaddImm, value_type_of(v, d), d, 0u32, 0u32, -16i64, IntCC::Equal, TrapCode::User(0), 0u8, 0i32, 0u32, 0u32), None, None);
        let v = s_ins(v, p, inst_of(Opcode::IaddImm, value_type_of(v, d), d, 0u32, 0u32, -16i64, IntCC::Equal, TrapCode::User(0), 0u8, 0i32, 0u32, 0u32), None, None);
        let (e, _r1) = (new0, new1);
        let p = p + 1;
        let v = s_replace(v, inst, inst_of(Opcode::Ireduce, ValueType(I16), e, 0u32, 0u32, 0i64, IntCC::Equal, TrapCode::User(0), 0u8, 0i32, 0u32, 0u32));
        Some(v)
} else {
    None
}
}
}

/// Legalize a `clz` instruction by widening.
fn widen_clz(inst: Inst, pos: usize, d: InstData, func: &mut Function) -> (r: bool)
    requires
        pattern_input(old(func)@, inst, pos as int, d),
    ensures
        pattern_outcome(old(func)@, final(func)@, r, widen_clz_spec(old(func)@, inst, pos as int, d)),
        final(func).encodings@ == old(func).encodings@,
        func_wf(final(func)@),
        r ==> final(func)@.0.len() > old(func)@.0.len(),
        keeps_before(old(func)@, final(func)@, inst, pos as int),
{
    proof {
        reveal(widen_clz_spec);
    }
    let mut p = pos;
    let b = d.arg0;
    if func.value_type(d.arg0) == ValueType(I8) {
        let (c, _r1) = func.ins(p, make_inst(Opcode::Uextend, ValueType(I32), b, 0u32, 0u32, 0i64, IntCC::Equal, TrapCode::User(0), 0u8, 0i32, 0u32, 0u32), None, None);
        p = p + 1;
        let ty1 = func.value_type(c);
        let (d, _r1) = func.ins(p, make_inst(Opcode::Clz, ty1, c, 0u32, 0u32, 0i64, IntCC::Equal, TrapCode::User(0), 0u8, 0i32, 0u32, 0u32), None, None);
        p = p + 1;
        let ty2 = func.value_type(d);
        let (e, _r1) = func.ins(p, make_inst(Opcode::IaddImm, ty2, d, 0u32, 0u32, -24i64, IntCC::Equal, TrapCode::User(0), 0u8, 0i32, 0u32, 0u32), None, None);
        p = p + 1;
        func.replace(inst, make_inst(Opcode::Ireduce, ValueType(I8), e, 0u32, 0u32, 0i64, IntCC::Equal, TrapCode::User(0), 0u8, 0i32, 0u32, 0u32));
        return true;
    }
    if func.value_type(d.arg0) == ValueType(I16) {
        let (c, _r1) = func.ins(p, make_inst(Opcode::Uextend, ValueType(I32), b, 0u32, 0u32, 0i64, IntCC::Equal, TrapCode::User(0), 0u8, 0i32, 0u32, 0u32), None, None);
        p = p + 1;
        let ty3 = func.value_type(c);
        let (d, _r1) = func.ins(p, make_inst(Opcode::Clz, ty3, c, 0u32, 0u32, 0i64, IntCC::Equal, TrapCode::User(0), 0u8, 0i32, 0u32, 0u32), None, None);
        p = p + 1;
        let ty4 = func.value_type(d);
        let (e, _r1) = func.ins(p, make_inst(Opcode::IaddImm, ty4, d, 0u32, 0u32, -16i64, IntCC::Equal, TrapCode::User(0), 0u8, 0i32, 0u32, 0u32), None, None);
        p = p + 1;
        func.replace(inst, make_inst(Opcode::Ireduce, ValueType(I16), e, 0u32, 0u32, 0i64, IntCC::Equal, TrapCode::User(0), 0u8, 0i32, 0u32, 0u32));
        return true;
    }
    false
}

/// The function after the widening of a `ctz` instruction, or `None` where no pattern applies.
#[verifier::opaque]
pub open spec fn widen_ctz_spec(v: FuncView, inst: Inst, pos: int, d: InstData) -> Option<FuncView> {
    let p = pos;
    let b = d.arg0;
    if value_type_of(v, d.arg0) == ValueType(I8) {
        let (new0, new1) = s_ins_results(v, inst_of(Opcode::Uextend, ValueType(I32), b, 0u32, 0u32, 0i64, IntCC::Equal, TrapCode::User(0), 0u8, 0i32, 0u32, 0u32), None, None);
        let v = s_ins(v, p, inst_of(Opcode::Uextend, ValueType(I32), b, 0u32, 0u32, 0i64, IntCC::Equal, TrapCode::User(0), 0u8, 0i32, 0u32, 0u32), None, None);
        let (c, _r1) = (new0, new1);
        let p = p + 1;
        let (new0, new1) = s_ins_results(v, inst_of(Opcode::BorImm, value_type_of(v, c), c, 0u32, 0u32, 256i64, IntCC::Equal, TrapCode::User(0), 0u8, 0i32, 0u32, 0u32), None, None);
        let v = s_ins(v, p, inst_of(Opcode::BorImm, value_type_of(v, c), c, 0u32, 0u32, 256i64, IntCC::Equal, TrapCode::User(0), 0u8, 0i32, 0u32, 0u32), None, None);
        let (d, _r1) = (new0, new1);
        let p = p + 1;
        let (new0, new1) = s_ins_results(v, inst_of(Opcode::Ctz, value_type_of(v, d), d, 0u32, 0u32, 0i64, IntCC::Equal, TrapCode::User(0), 0u8, 0i32, 0u32, 0u32), None, None);
        let v = s_ins(v, p, inst_of(Opcode::Ctz, value_type_of(v, d), d, 0u32, 0u32, 0i64, IntCC::Equal, TrapCode::User(0), 0u8, 0i32, 0u32, 0u32), None, None);
        let (e, _r1) = (new0, new1);
        let p = p + 1;
        let v = s_replace(v, inst, inst_of(Opcode::Ireduce, ValueType(I8), e, 0u32, 0u32, 0i64, IntCC::Equal, TrapCode::User(0), 0u8, 0i32, 0u32, 0u32));
        Some(v)
} else {
    if value_type_of(v, d.arg0) == ValueType(I16) {
        let (new0, new1) = s_ins_results(v, inst_of(Opcode::Uextend, ValueType(I32), b, 0u32, 0u32, 0i64, IntCC::Equal, TrapCode::User(0), 0u8, 0i32, 0u32, 0u32), None, None);
        let v = s_ins(v, p, inst_of(Opcode::Uextend, ValueType(I32), b, 0u32, 0u32, 0i64, IntCC::Equal, TrapCode::User(0), 0u8, 0i32, 0u32, 0u32), None, None);
        let (c, _r1) = (new0, new1);
        let p = p + 1;
        let (new0, new1) = s_ins_results(v, inst_of(Opcode::BorImm, value_type_of(v, c), c, 0u32, 0u32, 65536i64, IntCC::Equal, TrapCode::User(0), 0u8, 0i32, 0u32, 0u32), None, None);
        let v = s_ins(v, p, inst_of(Opcode::BorImm, value_type_of(v, c), c, 0u32, 0u32, 65536i64, IntCC::Equal, TrapCode::User(0), 0u8, 0i32, 0u32, 0u32), None, None);
        let (d, _r1) = (new0, new1);
        let p = p + 1;
        let (new0, new1) = s_ins_results(v, inst_of(Opcode::Ctz, value_type_of(v, d), d, 0u32, 0u32, 0i64, IntCC::Equal, TrapCode::User(0), 0u8, 0i32, 0u32, 0u32), None, None);
        let v = s_ins(v, p, inst_of(Opcode::Ctz, value_type_of(v, d), d, 0u32, 0u32, 0i64, IntCC::Equal, TrapCode::User(0), 0u8, 0i32, 0u32, 0u32), None, None);
        let (e, _r1) = (new0, new1);
        let p = p + 1;
        let v = s_replace(v, inst, inst_of(Opcode::Ireduce, ValueType(I16), e, 0u32, 0u32, 0i64, IntCC::Equal, TrapCode::User(0), 0u8, 0i32, 0u32, 0u32));
        Some(v)
} else {
    None
}
}
}

/// Legalize a `ctz` instruction by widening.
fn widen_ctz(inst: Inst, pos: usize, d: InstData, func: &mut Function) -> (r: bool)
    requires
        pattern_input(old(func)@, inst, pos as int, d),
    ensures
        pattern_outcome(old(func)@, final(func)@, r, widen_ctz_spec(old(func)@, inst, pos as int, d)),
        final(func).encodings@ == old(func).encodings@,
        func_wf(final(func)@),
        r ==> final(func)@.0.len() > old(func)@.0.len(),
        keeps_before(old(func)@, final(func)@, inst, pos as int),
{
    proof {
        reveal(widen_ctz_spec);
    }
    let mut p = pos;
    let b = d.arg0;
    if func.value_type(d.arg0) == ValueType(I8) {
        let (c, _r1) = func.ins(p, make_inst(Opcode::Uextend, ValueType(I32), b, 0u32, 0u32, 0i64, IntCC::Equal, TrapCode::User(0), 0u8, 0i32, 0u32, 0u32), None, None);
        p = p + 1;
        let ty1 = func.value_type(c);
        let (d, _r1) = func.ins(p, make_inst(Opcode::BorImm, ty1, c, 0u32, 0u32, 256i64, IntCC::Equal, TrapCode::User(0), 0u8, 0i32, 0u32, 0u32), None, None);
        p = p + 1;
        let ty2 = func.value_type(d);
        let (e, _r1) = func.ins(p, make_inst(Opcode::Ctz, ty2, d, 0u32, 0u32, 0i64, IntCC::Equal, TrapCode::User(0), 0u8, 0i32, 0u32, 0u32), None, None);
        p = p + 1;
        func.replace(inst, make_inst(Opcode::Ireduce, ValueType(I8), e, 0u32, 0u32, 0i64, IntCC::Equal, TrapCode::User(0), 0u8, 0i32, 0u32, 0u32));
        return true;
    }
    if func.value_type(d.arg0) == ValueType(I16) {
        let (c, _r1) = func.ins(p, make_inst(Opcode::Uextend, ValueType(I32), b, 0u32, 0u32, 0i64, IntCC::Equal, TrapCode::User(0), 0u8, 0i32, 0u32, 0u32), None, None);
        p = p + 1;
        let ty3 = func.value_type(c);
        let (d, _r1) = func.ins(p, make_inst(Opcode::BorImm, ty3, c, 0u32, 0u32, 65536i64, IntCC::Equal, TrapCode::User(0), 0u8, 0i32, 0u32, 0u32), None, None);
        p = p + 1;
        let ty4 = func.value_type(d);
        let (e, _r1) = func.ins(p, make_inst(Opcode::Ctz, ty4, d, 0u32, 0u32, 0i64, IntCC::Equal, TrapCode::User(0), 0u8, 0i32, 0u32, 0u32), None, None);
        p = p + 1;
        func.replace(inst, make_inst(Opcode::Ireduce, ValueType(I16), e, 0u32, 0u32, 0i64, IntCC::Equal, TrapCode::User(0), 0u8, 0i32, 0u32, 0u32));
        return true;
    }
    false
}

/// The function after the widening of a `iadd` instruction, or `None` where no pattern applies.
#[verifier::opaque]
pub open spec fn widen_iadd_spec(v: FuncView, inst: Inst, pos: int, d: InstData) -> Option<FuncView> {
    let p = pos;
    let b = d.arg0;
    let c = d.arg1;
    if value_type_of(v, d.arg0) == ValueType(I8) {
        let (new0, new1) = s_ins_results(v, inst_of(Opcode::Uextend, ValueType(I32), b, 0u32, 0u32, 0i64, IntCC::Equal, TrapCode::User(0), 0u8, 0i32, 0u32, 0u32), None, None);
        let v = s_ins(v, p, inst_of(Opcode::Uextend, ValueType(I32), b, 0u32, 0u32, 0i64, IntCC::Equal, TrapCode::User(0), 0u8, 0i32, 0u32, 0u32), None, None);
        let (x, _r1) = (new0, new1);
        let p = p + 1;
        let (new0, new1) = s_ins_results(v, inst_of(Opcode::Uextend, ValueType(I32), c, 0u32, 0u32, 0i64, IntCC::Equal, TrapCode::User(0), 0u8, 0i32, 0u32, 0u32), None, None);
        let v = s_ins(v, p, inst_of(Opcode::Uextend, ValueType(I32), c, 0u32, 0u32, 0i64, IntCC::Equal, TrapCode::User(0), 0u8, 0i32, 0u32, 0u32), None, None);
        let (y, _r1) = (new0, new1);
        let p = p + 1;
        let (new0, new1) = s_ins_results(v, inst_of(Opcode::Iadd, value_type_of(v, x), x, y, 0u32, 0i64, IntCC::Equal, TrapCode::User(0), 0u8, 0i32, 0u32, 0u32), None, None);
        let v = s_ins(v, p, inst_of(Opcode::Iadd, value_type_of(v, x), x, y, 0u32, 0i64, IntCC::Equal, TrapCode::User(0), 0u8, 0i32, 0u32, 0u32), None, None);
        let (z, _r1) = (new0, new1);
        let p = p + 1;
        let v = s_replace(v, inst, inst_of(Opcode::Ireduce, ValueType(I8), z, 0u32, 0u32, 0i64, IntCC::Equal, TrapCode::User(0), 0u8, 0i32, 0u32, 0u32));
        Some(v)
} else {
    if value_type_of(v, d.arg0) == ValueType(I16) {
        let (new0, new1) = s_ins_results(v, inst_of(Opcode::Uextend, ValueType(I32), b, 0u32, 0u32, 0i64, IntCC::Equal, TrapCode::User(0), 0u8, 0i32, 0u32, 0u32), None, None);
        let v = s_ins(v, p, inst_of(Opcode::Uextend, ValueType(I32), b, 0u32, 0u32, 0i64, IntCC::Equal, TrapCode::User(0), 0u8, 0i32, 0u32, 0u32), None, None);
        let (x, _r1) = (new0, new1);
        let p = p + 1;
        let (new0, new1) = s_ins_results(v, inst_of(Opcode::Uextend, ValueType(I32), c, 0u32, 0u32, 0i64, IntCC::Equal, TrapCode::User(0), 0u8, 0i32, 0u32, 0u32), None, None);
        let v = s_ins(v, p, inst_of(Opcode::Uextend, ValueType(I32), c, 0u32, 0u32, 0i64, IntCC::Equal, TrapCode::User(0), 0u8, 0i32, 0u32, 0u32), None, None);
        let (y, _r1) = (new0, new1);
        let p = p + 1;
        let (new0, new1) = s_ins_results(v, inst_of(Opcode::Iadd, value_type_of(v, x), x, y, 0u32, 0i64, IntCC::Equal, TrapCode::User(0), 0u8, 0i32, 0u32, 0u32), None, None);
        let v = s_ins(v, p, inst_of(Opcode::Iadd, value_type_of(v, x), x, y, 0u32, 0i64, IntCC::Equal, TrapCode::User(0), 0u8, 0i32, 0u32, 0u32), None, None);
        let (z, _r1) = (new0, new1);
        let p = p + 1;
        let v = s_replace(v, inst, inst_of(Opcode::Ireduce, ValueType(I16), z, 0u32, 0u32, 0i64, IntCC::Equal, TrapCode::User(0), 0u8, 0i32, 0u32, 0u32));
        Some(v)
} else {
    None
}
}
}

/// Legalize a `iadd` instruction by widening.
fn widen_iadd(inst: Inst, pos: usize, d: InstData, func: &mut Function) -> (r: bool)
    requires
        pattern_input(old(func)@, inst, pos as int, d),
    ensures
        pattern_outcome(old(func)@, final(func)@, r, widen_iadd_spec(old(func)@, inst, pos as int, d)),
        final(func).encodings@ == old(func).encodings@,
        func_wf(final(func)@),
        r ==> final(func)@.0.len() > old(func)@.0.len(),
        keeps_before(old(func)@, final(func)@, inst, pos as int),
{
    proof {
        reveal(widen_iadd_spec);
    }
    let mut p = pos;
    let b = d.arg0;
    let c = d.arg1;
    if func.value_type(d.arg0) == ValueType(I8) {
        let (x, _r1) = func.ins(p, make_inst(Opcode::Uextend, ValueType(I32), b, 0u32, 0u32, 0i64, IntCC::Equal, TrapCode::User(0), 0u8, 0i32, 0u32, 0u32), None, None);
        p = p + 1;
        let (y, _r1) = func.ins(p, make_inst(Opcode::Uextend, ValueType(I32), c, 0u32, 0u32, 0i64, IntCC::Equal, TrapCode::User(0), 0u8, 0i32, 0u32, 0u32), None, None);
        p = p + 1;
        let ty1 = func.value_type(x);
        let (z, _r1) = func.ins(p, make_inst(Opcode::Iadd, ty1, x, y, 0u32, 0i64, IntCC::Equal, TrapCode::User(0), 0u8, 0i32, 0u32, 0u32), None, None);
        p = p + 1;
        func.replace(inst, make_inst(Opcode::Ireduce, ValueType(I8), z, 0u32, 0u32, 0i64, IntCC::Equal, TrapCode::User(0), 0u8, 0i32, 0u32, 0u32));
        return true;
    }
    if func.value_type(d.arg0) == ValueType(I16) {
        let (x, _r1) = func.ins(p, make_inst(Opcode::Uextend, ValueType(I32), b, 0u32, 0u32, 0i64, IntCC::Equal, TrapCode::User(0), 0u8, 0i32, 0u32, 0u32), None, None);
        p = p + 1;
        let (y, _r1) = func.ins(p, make_inst(Opcode::Uextend, ValueType(I32), c, 0u32, 0u32, 0i64, IntCC::Equal, TrapCode::User(0), 0u8, 0i32, 0u32, 0u32), None, None);
        p = p + 1;
        let ty2 = func.value_type(x);
        let (z, _r1) = func.ins(p, make_inst(Opcode::Iadd, ty2, x, y, 0u32, 0i64, IntCC::Equal, TrapCode::User(0), 0u8, 0i32, 0u32, 0u32), None, None);
        p = p + 1;
        func.replace(inst, make_inst(Opcode::Ireduce, ValueType(I16), z, 0u32, 0u32, 0i64, IntCC::Equal, TrapCode::User(0), 0u8, 0i32, 0u32, 0u32));
        return true;
    }
    false
}

/// The function after the widening of a `iadd_imm` instruction, or `None` where no pattern applies.
#[verifier::opaque]
pub open spec fn widen_iadd_imm_spec(v: FuncView, inst: Inst, pos: int, d: InstData) -> Option<FuncView> {
    let p = pos;
    let b = d.arg0;
    let c = d.imm;
    if value_type_of(v, d.arg0) == ValueType(I8) {
        let (new0, new1) = s_ins_results(v, inst_of(Opcode::Uextend, ValueType(I32), b, 0u32, 0u32, 0i64, IntCC::Equal, TrapCode::User(0), 0u8, 0i32, 0u32, 0u32), None, None);
        let v = s_ins(v, p, inst_of(Opcode::Uextend, ValueType(I32), b, 0u32, 0u32, 0i64, IntCC::Equal, TrapCode::User(0), 0u8, 0i32, 0u32, 0u32), None, None);
        let (x, _r1) = (new0, new1);
        let p = p + 1;
        let (new0, new1) = s_ins_results(v, inst_of(Opcode::IaddImm, value_type_of(v, x), x, 0u32, 0u32, c, IntCC::Equal, TrapCode::User(0), 0u8, 0i32, 0u32, 0u32), None, None);
        let v = s_ins(v, p, inst_of(Opcode::IaddImm, value_type_of(v, x), x, 0u32, 0u32, c, IntCC::Equal, TrapCode::User(0), 0u8, 0i32, 0u32, 0u32), None, None);
        let (z, _r1) = (new0, new1);
        let p = p + 1;
        let v = s_replace(v, inst, inst_of(Opcode::Ireduce, ValueType(I8), z, 0u32, 0u32, 0i64, IntCC::Equal, TrapCode::User(0), 0u8, 0i32, 0u32, 0u32));
        Some(v)
} else {
    if value_type_of(v, d.arg0) == ValueType(I16) {
        let (new0, new1) = s_ins_results(v, inst_of(Opcode::Uextend, ValueType(I32), b, 0u32, 0u32, 0i64, IntCC::Equal, TrapCode::User(0), 0u8, 0i32, 0u32, 0u32), None, None);
        let v = s_ins(v, p, inst_of(Opcode::Uextend, ValueType(I32), b, 0u32, 0u32, 0i64, IntCC::Equal, TrapCode::User(0), 0u8, 0i32, 0u32, 0u32), None, None);
        let (x, _r1) = (new0, new1);
        let p = p + 1;
        let (new0, new1) = s_ins_results(v, inst_of(Opcode::IaddImm, value_type_of(v, x), x, 0u32, 0u32, c, IntCC::Equal, TrapCode::User(0), 0u8, 0i32, 0u32, 0u32), None, None);
        let v = s_ins(v, p, inst_of(Opcode::IaddImm, value_type_of(v, x), x, 0u32, 0u32, c, IntCC::Equal, TrapCode::User(0), 0u8, 0i32, 0u32, 0u32), None, None);
        let (z, _r1) = (new0, new1);
        let p = p + 1;
        let v = s_replace(v, inst, inst_of(Opcode::Ireduce, ValueType(I16), z, 0u32, 0u32, 0i64, IntCC::Equal, TrapCode::User(0), 0u8, 0i32, 0u32, 0u32));
        Some(v)
} else {
    None
}
}
}

/// Legalize a `iadd_imm` instruction by widening.
fn widen_iadd_imm(inst: Inst, pos: usize, d: InstData, func: &mut Function) -> (r: bool)
    requires
        pattern_input(old(func)@, inst, pos as int, d),
    ensures
        pattern_outcome(old(func)@, final(func)@, r, widen_iadd_imm_spec(old(func)@, inst, pos as int, d)),
        final(func).encodings@ == old(func).encodings@,
        func_wf(final(func)@),
        r ==> final(func)@.0.len() > old(func)@.0.len(),
        keeps_before(old(func)@, final(func)@, inst, pos as int),
{
    proof {
        reveal(widen_iadd_imm_spec);
    }
    let mut p = pos;
    let b = d.arg0;
    let c = d.imm;
    if func.value_type(d.arg0) == ValueType(I8) {
        let (x, _r1) = func.ins(p, make_inst(Opcode::Uextend, ValueType(I32), b, 0u32, 0u32, 0i64, IntCC::Equal, TrapCode::User(0), 0u8, 0i32, 0u32, 0u32), None, None);
        p = p + 1;
        let ty1 = func.value_type(x);
        let (z, _r1) = func.ins(p, make_inst(Opcode::IaddImm, ty1, x, 0u32, 0u32, c, IntCC::Equal, TrapCode::User(0), 0u8, 0i32, 0u32, 0u32), None, None);
        p = p + 1;
        func.replace(inst, make_inst(Opcode::Ireduce, ValueType(I8), z, 0u32, 0u32, 0i64, IntCC::Equal, TrapCode::User(0), 0u8, 0i32, 0u32, 0u32));
        return true;
    }
    if func.value_type(d.arg0) == ValueType(I16) {
        let (x, _r1) = func.ins(p, make_inst(Opcode::Uextend, ValueType(I32), b, 0u32, 0u32, 0i64, IntCC::Equal, TrapCode::User(0), 0u8, 0i32, 0u32, 0u32), None, None);
        p = p + 1;
        let ty2 = func.value_type(x);
        let (z, _r1) = func.ins(p, make_inst(Opcode::IaddImm, ty2, x, 0u32, 0u32, c, IntCC::Equal, TrapCode::User(0), 0u8, 0i32, 0u32, 0u32), None, None);
        p = p + 1;
        func.replace(inst, make_inst(Opcode::Ireduce, ValueType(I16), z, 0u32, 0u32, 0i64, IntCC::Equal, TrapCode::User(0), 0u8, 0i32, 0u32, 0u32));
        return true;
    }
    false
}

/// The function after the widening of a `int_compare` instruction by its pattern number 0.
#[verifier::opaque]
pub open spec fn widen_int_compare_0_spec(v: FuncView, inst: Inst, pos: int, d: InstData) -> Option<FuncView> {
    let p = pos;
    let cond = d.cond;
    let b = d.arg0;
    let c = d.arg1;
    let (new0, new1) = s_ins_results(v, inst_of(Opcode::Uextend, ValueType(I32), b, 0u32, 0u32, 0i64, IntCC::Equal, TrapCode::User(0), 0u8, 0i32, 0u32, 0u32), None, None);
    let v = s_ins(v, p, inst_of(Opcode::Uextend, ValueType(I32), b, 0u32, 0u32, 0i64, IntCC::Equal, TrapCode::User(0), 0u8, 0i32, 0u32, 0u32), None, None);
    let (x, _r1) = (new0, new1);
    let p = p + 1;
    let (new0, new1) = s_ins_results(v, inst_of(Opcode::Uextend, ValueType(I32), c, 0u32, 0u32, 0i64, IntCC::Equal, TrapCode::User(0), 0u8, 0i32, 0u32, 0u32), None, None);
    let v = s_ins(v, p, inst_of(Opcode::Uextend, ValueType(I32), c, 0u32, 0u32, 0i64, IntCC::Equal, TrapCode::User(0), 0u8, 0i32, 0u32, 0u32), None, None);
    let (y, _r1) = (new0, new1);
    let p = p + 1;
    let v = s_replace(v, inst, inst_of(Opcode::IntCompare, value_type_of(v, x), x, y, 0u32, 0i64, IntCC::Equal, TrapCode::User(0), 0u8, 0i32, 0u32, 0u32));
    Some(v)
}

/// Legalize a `int_compare` instruction by widening, with its pattern number 0.
#[verifier::rlimit(100)]
fn widen_int_compare_0(inst: Inst, pos: usize, d: InstData, func: &mut Function) -> (r: bool)
    requires
        pattern_input(old(func)@, inst, pos as int, d),
    ensures
        pattern_outcome(old(func)@, final(func)@, r, widen_int_compare_0_spec(old(func)@, inst, pos as int, d)),
        final(func).encodings@ == old(func).encodings@,
        func_wf(final(func)@),
        r ==> final(func)@.0.len() > old(func)@.0.len(),
        keeps_before(old(func)@, final(func)@, inst, pos as int),
{
    proof {
        reveal(widen_int_compare_0_spec);
    }
    let mut p = pos;
    let cond = d.cond;
    let b = d.arg0;
    let c = d.arg1;
    let (x, _r1) = func.ins(p, make_inst(Opcode::Uextend, ValueType(I32), b, 0u32, 0u32, 0i64, IntCC::Equal, TrapCode::User(0), 0u8, 0i32, 0u32, 0u32), None, None);
    p = p + 1;
    let (y, _r1) = func.ins(p, make_inst(Opcode::Uextend, ValueType(I32), c, 0u32, 0u32, 0i64, IntCC::Equal, TrapCode::User(0), 0u8, 0i32, 0u32, 0u32), None, None);
    p = p + 1;
    let ty1 = func.value_type(x);
    func.replace(inst, make_inst(Opcode::IntCompare, ty1, x, y, 0u32, 0i64, IntCC::Equal, TrapCode::User(0), 0u8, 0i32, 0u32, 0u32));
    return true;
}

/// The function after the widening of a `int_compare` instruction by its pattern number 1.
#[verifier::opaque]
pub open spec fn widen_int_compare_1_spec(v: FuncView, inst: Inst, pos: int, d: InstData) -> Option<FuncView> {
    let p = pos;
    let cond = d.cond;
    let b = d.arg0;
    let c = d.arg1;
    let (new0, new1) = s_ins_results(v, inst_of(Opcode::Uextend, ValueType(I32), b, 0u32, 0u32, 0i64, IntCC::Equal, TrapCode::User(0), 0u8, 0i32, 0u32, 0u32), None, None);
    let v = s_ins(v, p, inst_of(Opcode::Uextend, ValueType(I32), b, 0u32, 0u32, 0i64, IntCC::Equal, TrapCode::User(0), 0u8, 0i32, 0u32, 0u32), None, None);
    let (x, _r1) = (new0, new1);
    let p = p + 1;
    let (new0, new1) = s_ins_results(v, inst_of(Opcode::Uextend, ValueType(I32), c, 0u32, 0u32, 0i64, IntCC::Equal, TrapCode::User(0), 0u8, 0i32, 0u32, 0u32), None, None);
    let v = s_ins(v, p, inst_of(Opcode::Uextend, ValueType(I32), c, 0u32, 0u32, 0i64, IntCC::Equal, TrapCode::User(0), 0u8, 0i32, 0u32, 0u32), None, None);
    let (y, _r1) = (new0, new1);
    let p = p + 1;
    let v = s_replace(v, inst, inst_of(Opcode::IntCompare, value_type_of(v, x), x, y, 0u32, 0i64, IntCC::NotEqual, TrapCode::User(0), 0u8, 0i32, 0u32, 0u32));
    Some(v)
}

/// Legalize a `int_compare` instruction by widening, with its pattern number 1.
#[verifier::rlimit(100)]
fn widen_int_compare_1(inst: Inst, pos: usize, d: InstData, func: &mut Function) -> (r: bool)
    requires
        pattern_input(old(func)@, inst, pos as int, d),
    ensures
        pattern_outcome(old(func)@, final(func)@, r, widen_int_compare_1_spec(old(func)@, inst, pos as int, d)),
        final(func).encodings@ == old(func).encodings@,
        func_wf(final(func)@),
        r ==> final(func)@.0.len() > old(func)@.0.len(),
        keeps_before(old(func)@, final(func)@, inst, pos as int),
{
    proof {
        reveal(widen_int_compare_1_spec);
    }
    let mut p = pos;
    let cond = d.cond;
    let b = d.arg0;
    let c = d.arg1;
    let (x, _r1) = func.ins(p, make_inst(Opcode::Uextend, ValueType(I32), b, 0u32, 0u32, 0i64, IntCC::Equal, TrapCode::User(0), 0u8, 0i32, 0u32, 0u32), None, None);
    p = p + 1;
    let (y, _r1) = func.ins(p, make_inst(Opcode::Uextend, ValueType(I32), c, 0u32, 0u32, 0i64, IntCC::Equal, TrapCode::User(0), 0u8, 0i32, 0u32, 0u32), None, None);
    p = p + 1;
    let ty2 = func.value_type(x);
    func.replace(inst, make_inst(Opcode::IntCompare, ty2, x, y, 0u32, 0i64, IntCC::NotEqual, TrapCode::User(0), 0u8, 0i32, 0u32, 0u32));
    return true;
}

/// The function after the widening of a `int_compare` instruction by its pattern number 2.
#[verifier::opaque]
pub open spec fn widen_int_compare_2_spec(v: FuncView, inst: Inst, pos: int, d: InstData) -> Option<FuncView> {
    let p = pos;
    let cond = d.cond;
    let b = d.arg0;
    let c = d.arg1;
    let (new0, new1) = s_ins_results(v, inst_of(Opcode::Uextend, ValueType(I32), b, 0u32, 0u32, 0i64, IntCC::Equal, TrapCode::User(0), 0u8, 0i32, 0u32, 0u32), None, None);
    let v = s_ins(v, p, inst_of(Opcode::Uextend, ValueType(I32), b, 0u32, 0u32, 0i64, IntCC::Equal, TrapCode::User(0), 0u8, 0i32, 0u32, 0u32), None, None);
    let (x, _r1) = (new0, new1);
    let p = p + 1;
    let (new0, new1) = s_ins_results(v, inst_of(Opcode::Uextend, ValueType(I32), c, 0u32, 0u32, 0i64, IntCC::Equal, TrapCode::User(0), 0u8, 0i32, 0u32, 0u32), None, None);
    let v = s_ins(v, p, inst_of(Opcode::Uextend, ValueType(I32), c, 0u32, 0u32, 0i64, IntCC::Equal, TrapCode::User(0), 0u8, 0i32, 0u32, 0u32), None, None);
    let (y, _r1) = (new0, new1);
    let p = p + 1;
    let v = s_replace(v, inst, inst_of(Opcode::IntCompare, value_type_of(v, x), x, y, 0u32, 0i64, IntCC::UnsignedGreaterThan, TrapCode::User(0), 0u8, 0i32, 0u32, 0u32));
    Some(v)
}

/// Legalize a `int_compare` instruction by widening, with its pattern number 2.
#[verifier::rlimit(100)]
fn widen_int_compare_2(inst: Inst, pos: usize, d: InstData, func: &mut Function) -> (r: bool)
    requires
        pattern_input(old(func)@, inst, pos as int, d),
    ensures
        pattern_outcome(old(func)@, final(func)@, r, widen_int_compare_2_spec(old(func)@, inst, pos as int, d)),
        final(func).encodings@ == old(func).encodings@,
        func_wf(final(func)@),
        r ==> final(func)@.0.len() > old(func)@.0.len(),
        keeps_before(old(func)@, final(func)@, inst, pos as int),
{
    proof {
        reveal(widen_int_compare_2_spec);
    }
    let mut p = pos;
    let cond = d.cond;
    let b = d.arg0;
    let c = d.arg1;
    let (x, _r1) = func.ins(p, make_inst(Opcode::Uextend, ValueType(I32), b, 0u32, 0u32, 0i64, IntCC::Equal, TrapCode::User(0), 0u8, 0i32, 0u32, 0u32), None, None);
    p = p + 1;
    let (y, _r1) = func.ins(p, make_inst(Opcode::Uextend, ValueType(I32), c, 0u32, 0u32, 0i64, IntCC::Equal, TrapCode::User(0), 0u8, 0i32, 0u32, 0u32), None, None);
    p = p + 1;
    let ty3 = func.value_type(x);
    func.replace(inst, make_inst(Opcode::IntCompare, ty3, x, y, 0u32, 0i64, IntCC::UnsignedGreaterThan, TrapCode::User(0), 0u8, 0i32, 0u32, 0u32));
    return true;
}

/// The function after the widening of a `int_compare` instruction by its pattern number 3.
#[verifier::opaque]
pub open spec fn widen_int_compare_3_spec(v: FuncView, inst: Inst, pos: int, d: InstData) -> Option<FuncView> {
    let p = pos;
    let cond = d.cond;
    let b = d.arg0;
    let c = d.arg1;
    let (new0, new1) = s_ins_results(v, inst_of(Opcode::Uextend, ValueType(I32), b, 0u32, 0u32, 0i64, IntCC::Equal, TrapCode::User(0), 0u8, 0i32, 0u32, 0u32), None, None);
    let v = s_ins(v, p, inst_of(Opcode::Uextend, ValueType(I32), b, 0u32, 0u32, 0i64, IntCC::Equal, TrapCode::User(0), 0u8, 0i32, 0u32, 0u32), None, None);
    let (x, _r1) = (new0, new1);
    let p = p + 1;
    let (new0, new1) = s_ins_results(v, inst_of(Opcode::Uextend, ValueType(I32), c, 0u32, 0u32, 0i64, IntCC::Equal, TrapCode::User(0), 0u8, 0i32, 0u32, 0u32), None, None);
    let v = s_ins(v, p, inst_of(Opcode::Uextend, ValueType(I32), c, 0u32, 0u32, 0i64, IntCC::Equal, TrapCode::User(0), 0u8, 0i32, 0u32, 0u32), None, None);
    let (y, _r1) = (new0, new1);
    let p = p + 1;
    let v = s_replace(v, inst, inst_of(Opcode::IntCompare, value_type_of(v, x), x, y, 0u32, 0i64, IntCC::UnsignedLessThan, TrapCode::User(0), 0u8, 0i32, 0u32, 0u32));
    Some(v)
}

/// Legalize a `int_compare` instruction by widening, with its pattern number 3.
#[verifier::rlimit(100)]
fn widen_int_compare_3(inst: Inst, pos: usize, d: InstData, func: &mut Function) -> (r: bool)
    requires
        pattern_input(old(func)@, inst, pos as int, d),
    ensures
        pattern_outcome(old(func)@, final(func)@, r, widen_int_compare_3_spec(old(func)@, inst, pos as int, d)),
        final(func).encodings@ == old(func).encodings@,
        func_wf(final(func)@),
        r ==> final(func)@.0.len() > old(func)@.0.len(),
        keeps_before(old(func)@, final(func)@, inst, pos as int),
{
    proof {
        reveal(widen_int_compare_3_spec);
    }
    let mut p = pos;
    let cond = d.cond;
    let b = d.arg0;
    let c = d.arg1;
    let (x, _r1) = func.ins(p, make_inst(Opcode::Uextend, ValueType(I32), b, 0u32, 0u32, 0i64, IntCC::Equal, TrapCode::User(0), 0u8, 0i32, 0u32, 0u32), None, None);
    p = p + 1;
    let (y, _r1) = func.ins(p, make_inst(Opcode::Uextend, ValueType(I32), c, 0u32, 0u32, 0i64, IntCC::Equal, TrapCode::User(0), 0u8, 0i32, 0u32, 0u32), None, None);
    p = p + 1;
    let ty4 = func.value_type(x);
    func.replace(inst, make_inst(Opcode::IntCompare, ty4, x, y, 0u32, 0i64, IntCC::UnsignedLessThan, TrapCode::User(0), 0u8, 0i32, 0u32, 0u32));
    return true;
}

/// The function after the widening of a `int_compare` instruction by its pattern number 4.
#[verifier::opaque]
pub open spec fn widen_int_compare_4_spec(v: FuncView, inst: Inst, pos: int, d: InstData) -> Option<FuncView> {
    let p = pos;
    let cond = d.cond;
    let b = d.arg0;
    let c = d.arg1;
    let (new0, new1) = s_ins_results(v, inst_of(Opcode::Uextend, ValueType(I32), b, 0u32, 0u32, 0i64, IntCC::Equal, TrapCode::User(0), 0u8, 0i32, 0u32, 0u32), None, None);
    let v = s_ins(v, p, inst_of(Opcode::Uextend, ValueType(I32), b, 0u32, 0u32, 0i64, IntCC::Equal, TrapCode::User(0), 0u8, 0i32, 0u32, 0u32), None, None);
    let (x, _r1) = (new0, new1);
    let p = p + 1;
    let (new0, new1) = s_ins_results(v, inst_of(Opcode::Uextend, ValueType(I32), c, 0u32, 0u32, 0i64, IntCC::Equal, TrapCode::User(0), 0u8, 0i32, 0u32, 0u32), None, None);
    let v = s_ins(v, p, inst_of(Opcode::Uextend, ValueType(I32), c, 0u32, 0u32, 0i64, IntCC::Equal, TrapCode::User(0), 0u8, 0i32, 0u32, 0u32), None, None);
    let (y, _r1) = (new0, new1);
    let p = p + 1;
    let v = s_replace(v, inst, inst_of(Opcode::IntCompare, value_type_of(v, x), x, y, 0u32, 0i64, IntCC::UnsignedGreaterThanOrEqual, TrapCode::User(0), 0u8, 0i32, 0u32, 0u32));
    Some(v)
}

/// Legalize a `int_compare` instruction by widening, with its pattern number 4.
#[verifier::rlimit(100)]
fn widen_int_compare_4(inst: Inst, pos: usize, d: InstData, func: &mut Function) -> (r: bool)
    requires
        pattern_input(old(func)@, inst, pos as int, d),
    ensures
        pattern_outcome(old(func)@, final(func)@, r, widen_int_compare_4_spec(old(func)@, inst, pos as int, d)),
        final(func).encodings@ == old(func).encodings@,
        func_wf(final(func)@),
        r ==> final(func)@.0.len() > old(func)@.0.len(),
        keeps_before(old(func)@, final(func)@, inst, pos as int),
{
    proof {
        reveal(widen_int_compare_4_spec);
    }
    let mut p = pos;
    let cond = d.cond;
    let b = d.arg0;
    let c = d.arg1;
    let (x, _r1) = func.ins(p, make_inst(Opcode::Uextend, ValueType(I32), b, 0u32, 0u32, 0i64, IntCC::Equal, TrapCode::User(0), 0u8, 0i32, 0u32, 0u32), None, None);
    p = p + 1;
    let (y, _r1) = func.ins(p, make_inst(Opcode::Uextend, ValueType(I32), c, 0u32, 0u32, 0i64, IntCC::Equal, TrapCode::User(0), 0u8, 0i32, 0u32, 0u32), None, None);
    p = p + 1;
    let ty5 = func.value_type(x);
    func.replace(inst, make_inst(Opcode::IntCompare, ty5, x, y, 0u32, 0i64, IntCC::UnsignedGreaterThanOrEqual, TrapCode::User(0), 0u8, 0i32, 0u32, 0u32));
    return true;
}

/// The function after the widening of a `int_compare` instruction by its pattern number 5.
#[verifier::opaque]
pub open spec fn widen_int_compare_5_spec(v: FuncView, inst: Inst, pos: int, d: InstData) -> Option<FuncView> {
    let p = pos;
    let cond = d.cond;
    let b = d.arg0;
    let c = d.arg1;
    let (new0, new1) = s_ins_results(v, inst_of(Opcode::Uextend, ValueType(I32), b, 0u32, 0u32, 0i64, IntCC::Equal, TrapCode::User(0), 0u8, 0i32, 0u32, 0u32), None, None);
    let v = s_ins(v, p, inst_of(Opcode::Uextend, ValueType(I32), b, 0u32, 0u32, 0i64, IntCC::Equal, TrapCode::User(0), 0u8, 0i32, 0u32, 0u32), None, None);
    let (x, _r1) = (new0, new1);
    let p = p + 1;
    let (new0, new1) = s_ins_results(v, inst_of(Opcode::Uextend, ValueType(I32), c, 0u32, 0u32, 0i64, IntCC::Equal, TrapCode::User(0), 0u8, 0i32, 0u32, 0u32), None, None);
    let v = s_ins(v, p, inst_of(Opcode::Uextend, ValueType(I32), c, 0u32, 0u32, 0i64, IntCC::Equal, TrapCode::User(0), 0u8, 0i32, 0u32, 0u32), None, None);
    let (y, _r1) = (new0, new1);
    let p = p + 1;
    let v = s_replace(v, inst, inst_of(Opcode::IntCompare, value_type_of(v, x), x, y, 0u32, 0i64, IntCC::UnsignedLessThanOrEqual, TrapCode::User(0), 0u8, 0i32, 0u32, 0u32));
    Some(v)
}

/// Legalize a `int_compare` instruction by widening, with its pattern number 5.
#[verifier::rlimit(100)]
fn widen_int_compare_5(inst: Inst, pos: usize, d: InstData, func: &mut Function) -> (r: bool)
    requires
        pattern_input(old(func)@, inst, pos as int, d),
    ensures
        pattern_outcome(old(func)@, final(func)@, r, widen_int_compare_5_spec(old(func)@, inst, pos as int, d)),
        final(func).encodings@ == old(func).encodings@,
        func_wf(final(func)@),
        r ==> final(func)@.0.len() > old(func)@.0.len(),
        keeps_before(old(func)@, final(func)@, inst, pos as int),
{
    proof {
        reveal(widen_int_compare_5_spec);
    }
    let mut p = pos;
    let cond = d.cond;
    let b = d.arg0;
    let c = d.arg1;
    let (x, _r1) = func.ins(p, make_inst(Opcode::Uextend, ValueType(I32), b, 0u32, 0u32, 0i64, IntCC::Equal, TrapCode::User(0), 0u8, 0i32, 0u32, 0u32), None, None);
    p = p + 1;
    let (y, _r1) = func.ins(p, make_inst(Opcode::Uextend, ValueType(I32), c, 0u32, 0u32, 0i64, IntCC::Equal, TrapCode::User(0), 0u8, 0i32, 0u32, 0u32), None, None);
    p = p + 1;
    let ty6 = func.value_type(x);
    func.replace(inst, make_inst(Opcode::IntCompare, ty6, x, y, 0u32, 0i64, IntCC::UnsignedLessThanOrEqual, TrapCode::User(0), 0u8, 0i32, 0u32, 0u32));
    return true;
}

/// The function after the widening of a `int_compare` instruction by its pattern number 6.
#[verifier::opaque]
pub open spec fn widen_int_compare_6_spec(v: FuncView, inst: Inst, pos: int, d: InstData) -> Option<FuncView> {
    let p = pos;
    let cond = d.cond;
    let b = d.arg0;
    let c = d.arg1;
    let (new0, new1) = s_ins_results(v, inst_of(Opcode::Sextend, ValueType(I32), b, 0u32, 0u32, 0i64, IntCC::Equal, TrapCode::User(0), 0u8, 0i32, 0u32, 0u32), None, None);
    let v = s_ins(v, p, inst_of(Opcode::Sextend, ValueType(I32), b, 0u32, 0u32, 0i64, IntCC::Equal, TrapCode::User(0), 0u8, 0i32, 0u32, 0u32), None, None);
    let (x, _r1) = (new0, new1);
    let p = p + 1;
    let (new0, new1) = s_ins_results(v, inst_of(Opcode::Sextend, ValueType(I32), c, 0u32, 0u32, 0i64, IntCC::Equal, TrapCode::User(0), 0u8, 0i32, 0u32, 0u32), None, None);
    let v = s_ins(v, p, inst_of(Opcode::Sextend, ValueType(I32), c, 0u32, 0u32, 0i64, IntCC::Equal, TrapCode::User(0), 0u8, 0i32, 0u32, 0u32), None, None);
    let (y, _r1) = (new0, new1);
    let p = p + 1;
    let v = s_replace(v, inst, inst_of(Opcode::IntCompare, value_type_of(v, x), x, y, 0u32, 0i64, IntCC::SignedGreaterThan, TrapCode::User(0), 0u8, 0i32, 0u32, 0u32));
    Some(v)
}

/// Legalize a `int_compare` instruction by widening, with its pattern number 6.
#[verifier::rlimit(100)]
fn widen_int_compare_6(inst: Inst, pos: usize, d: InstData, func: &mut Function) -> (r: bool)
    requires
        pattern_input(old(func)@, inst, pos as int, d),
    ensures
        pattern_outcome(old(func)@, final(func)@, r, widen_int_compare_6_spec(old(func)@, inst, pos as int, d)),
        final(func).encodings@ == old(func).encodings@,
        func_wf(final(func)@),
        r ==> final(func)@.0.len() > old(func)@.0.len(),
        keeps_before(old(func)@, final(func)@, inst, pos as int),
{
    proof {
        reveal(widen_int_compare_6_spec);
    }
    let mut p = pos;
    let cond = d.cond;
    let b = d.arg0;
    let c = d.arg1;
    let (x, _r1) = func.ins(p, make_inst(Opcode::Sextend, ValueType(I32), b, 0u32, 0u32, 0i64, IntCC::Equal, TrapCode::User(0), 0u8, 0i32, 0u32, 0u32), None, None);
    p = p + 1;
    let (y, _r1) = func.ins(p, make_inst(Opcode::Sextend, ValueType(I32), c, 0u32, 0u32, 0i64, IntCC::Equal, TrapCode::User(0), 0u8, 0i32, 0u32, 0u32), None, None);
    p = p + 1;
    let ty7 = func.value_type(x);
    func.replace(inst, make_inst(Opcode::IntCompare, ty7, x, y, 0u32, 0i64, IntCC::SignedGreaterThan, TrapCode::User(0), 0u8, 0i32, 0u32, 0u32));
    return true;
}

/// The function after the widening of a `int_compare` instruction by its pattern number 7.
#[verifier::opaque]
pub open spec fn widen_int_compare_7_spec(v: FuncView, inst: Inst, pos: int, d: InstData) -> Option<FuncView> {
    let p = pos;
    let cond = d.cond;
    let b = d.arg0;
    let c = d.arg1;
    let (new0, new1) = s_ins_results(v, inst_of(Opcode::Sextend, ValueType(I32), b, 0u32, 0u32, 0i64, IntCC::Equal, TrapCode::User(0), 0u8, 0i32, 0u32, 0u32), None, None);
    let v = s_ins(v, p, inst_of(Opcode::Sextend, ValueType(I32), b, 0u32, 0u32, 0i64, IntCC::Equal, TrapCode::User(0), 0u8, 0i32, 0u32, 0u32), None, None);
    let (x, _r1) = (new0, new1);
    let p = p + 1;
    let (new0, new1) = s_ins_results(v, inst_of(Opcode::Sextend, ValueType(I32), c, 0u32, 0u32, 0i64, IntCC::Equal, TrapCode::User(0), 0u8, 0i32, 0u32, 0u32), None, None);
    let v = s_ins(v, p, inst_of(Opcode::Sextend, ValueType(I32), c, 0u32, 0u32, 0i64, IntCC::Equal, TrapCode::User(0), 0u8, 0i32, 0u32, 0u32), None, None);
    let (y, _r1) = (new0, new1);
    let p = p + 1;
    let v = s_replace(v, inst, inst_of(Opcode::IntCompare, value_type_of(v, x), x, y, 0u32, 0i64, IntCC::SignedLessThan, TrapCode::User(0), 0u8, 0i32, 0u32, 0u32));
    Some(v)
}

/// Legalize a `int_compare` instruction by widening, with its pattern number 7.
#[verifier::rlimit(100)]
fn widen_int_compare_7(inst: Inst, pos: usize, d: InstData, func: &mut Function) -> (r: bool)
    requires
        pattern_input(old(func)@, inst, pos as int, d),
    ensures
        pattern_outcome(old(func)@, final(func)@, r, widen_int_compare_7_spec(old(func)@, inst, pos as int, d)),
        final(func).encodings@ == old(func).encodings@,
        func_wf(final(func)@),
        r ==> final(func)@.0.len() > old(func)@.0.len(),
        keeps_before(old(func)@, final(func)@, inst, pos as int),
{
    proof {
        reveal(widen_int_compare_7_spec);
    }
    let mut p = pos;
    let cond = d.cond;
    let b = d.arg0;
    let c = d.arg1;
    let (x, _r1) = func.ins(p, make_inst(Opcode::Sextend, ValueType(I32), b, 0u32, 0u32, 0i64, IntCC::Equal, TrapCode::User(0), 0u8, 0i32, 0u32, 0u32), None, None);
    p = p + 1;
    let (y, _r1) = func.ins(p, make_inst(Opcode::Sextend, ValueType(I32), c, 0u32, 0u32, 0i64, IntCC::Equal, TrapCode::User(0), 0u8, 0i32, 0u32, 0u32), None, None);
    p = p + 1;
    let ty8 = func.value_type(x);
    func.replace(inst, make_inst(Opcode::IntCompare, ty8, x, y, 0u32, 0i64, IntCC::SignedLessThan, TrapCode::User(0), 0u8, 0i32, 0u32, 0u32));
    return true;
}

/// The function after the widening of a `int_compare` instruction by its pattern number 8.
#[verifier::opaque]
pub open spec fn widen_int_compare_8_spec(v: FuncView, inst: Inst, pos: int, d: InstData) -> Option<FuncView> {
    let p = pos;
    let cond = d.cond;
    let b = d.arg0;
    let c = d.arg1;
    let (new0, new1) = s_ins_results(v, inst_of(Opcode::Sextend, ValueType(I32), b, 0u32, 0u32, 0i64, IntCC::Equal, TrapCode::User(0), 0u8, 0i32, 0u32, 0u32), None, None);
    let v = s_ins(v, p, inst_of(Opcode::Sextend, ValueType(I32), b, 0u32, 0u32, 0i64, IntCC::Equal, TrapCode::User(0), 0u8, 0i32, 0u32, 0u32), None, None);
    let (x, _r1) = (new0, new1);
    let p = p + 1;
    let (new0, new1) = s_ins_results(v, inst_of(Opcode::Sextend, ValueType(I32), c, 0u32, 0u32, 0i64, IntCC::Equal, TrapCode::User(0), 0u8, 0i32, 0u32, 0u32), None, None);
    let v = s_ins(v, p, inst_of(Opcode::Sextend, ValueType(I32), c, 0u32, 0u32, 0i64, IntCC::Equal, TrapCode::User(0), 0u8, 0i32, 0u32, 0u32), None, None);
    let (y, _r1) = (new0, new1);
    let p = p + 1;
    let v = s_replace(v, inst, inst_of(Opcode::IntCompare, value_type_of(v, x), x, y, 0u32, 0i64, IntCC::SignedGreaterThanOrEqual, TrapCode::User(0), 0u8, 0i32, 0u32, 0u32));
    Some(v)
}

/// Legalize a `int_compare` instruction by widening, with its pattern number 8.
#[verifier::rlimit(100)]
fn widen_int_compare_8(inst: Inst, pos: usize, d: InstData, func: &mut Function) -> (r: bool)
    requires
        pattern_input(old(func)@, inst, pos as int, d),
    ensures
        pattern_outcome(old(func)@, final(func)@, r, widen_int_compare_8_spec(old(func)@, inst, pos as int, d)),
        final(func).encodings@ == old(func).encodings@,
        func_wf(final(func)@),
        r ==> final(func)@.0.len() > old(func)@.0.len(),
        keeps_before(old(func)@, final(func)@, inst, pos as int),
{
    proof {
        reveal(widen_int_compare_8_spec);
    }
    let mut p = pos;
    let cond = d.cond;
    let b = d.arg0;
    let c = d.arg1;
    let (x, _r1) = func.ins(p, make_inst(Opcode::Sextend, ValueType(I32), b, 0u32, 0u32, 0i64, IntCC::Equal, TrapCode::User(0), 0u8, 0i32, 0u32, 0u32), None, None);
    p = p + 1;
    let (y, _r1) = func.ins(p, make_inst(Opcode::Sextend, ValueType(I32), c, 0u32, 0u32, 0i64, IntCC::Equal, TrapCode::User(0), 0u8, 0i32, 0u32, 0u32), None, None);
    p = p + 1;
    let ty9 = func.value_type(x);
    func.replace(inst, make_inst(Opcode::IntCompare, ty9, x, y, 0u32, 0i64, IntCC::SignedGreaterThanOrEqual, TrapCode::User(0), 0u8, 0i32, 0u32, 0u32));
    return true;
}

/// The function after the widening of a `int_compare` instruction by its pattern number 9.
#[verifier::opaque]
pub open spec fn widen_int_compare_9_spec(v: FuncView, inst: Inst, pos: int, d: InstData) -> Option<FuncView> {
    let p = pos;
    let cond = d.cond;
    let b = d.arg0;
    let c = d.arg1;
    let (new0, new1) = s_ins_results(v, inst_of(Opcode::Sextend, ValueType(I32), b, 0u32, 0u32, 0i64, IntCC::Equal, TrapCode::User(0), 0u8, 0i32, 0u32, 0u32), None, None);
    let v = s_ins(v, p, inst_of(Opcode::Sextend, ValueType(I32), b, 0u32, 0u32, 0i64, IntCC::Equal, TrapCode::User(0), 0u8, 0i32, 0u32, 0u32), None, None);
    let (x, _r1) = (new0, new1);
    let p = p + 1;
    let (new0, new1) = s_ins_results(v, inst_of(Opcode::Sextend, ValueType(I32), c, 0u32, 0u32, 0i64, IntCC::Equal, TrapCode::User(0), 0u8, 0i32, 0u32, 0u32), None, None);
    let v = s_ins(v, p, inst_of(Opcode::Sextend, ValueType(I32), c, 0u32, 0u32, 0i64, IntCC::Equal, TrapCode::User(0), 0u8, 0i32, 0u32, 0u32), None, None);
    let (y, _r1) = (new0, new1);
    let p = p + 1;
    let v = s_replace(v, inst, inst_of(Opcode::IntCompare, value_type_of(v, x), x, y, 0u32, 0i64, IntCC::SignedLessThanOrEqual, TrapCode::User(0), 0u8, 0i32, 0u32, 0u32));
    Some(v)
}

/// Legalize a `int_compare` instruction by widening, with its pattern number 9.
#[verifier::rlimit(100)]
fn widen_int_compare_9(inst: Inst, pos: usize, d: InstData, func: &mut Function) -> (r: bool)
    requires
        pattern_input(old(func)@, inst, pos as int, d),
    ensures
        pattern_outcome(old(func)@, final(func)@, r, widen_int_compare_9_spec(old(func)@, inst, pos as int, d)),
        final(func).encodings@ == old(func).encodings@,
        func_wf(final(func)@),
        r ==> final(func)@.0.len() > old(func)@.0.len(),
        keeps_before(old(func)@, final(func)@, inst, pos as int),
{
    proof {
        reveal(widen_int_compare_9_spec);
    }
    let mut p = pos;
    let cond = d.cond;
    let b = d.arg0;
    let c = d.arg1;
    let (x, _r1) = func.ins(p, make_inst(Opcode::Sextend, ValueType(I32), b, 0u32, 0u32, 0i64, IntCC::Equal, TrapCode::User(0), 0u8, 0i32, 0u32, 0u32), None, None);
    p = p + 1;
    let (y, _r1) = func.ins(p, make_inst(Opcode::Sextend, ValueType(I32), c, 0u32, 0u32, 0i64, IntCC::Equal, TrapCode::User(0), 0u8, 0i32, 0u32, 0u32), None, None);
    p = p + 1;
    let ty10 = func.value_type(x);
    func.replace(inst, make_inst(Opcode::IntCompare, ty10, x, y, 0u32, 0i64, IntCC::SignedLessThanOrEqual, TrapCode::User(0), 0u8, 0i32, 0u32, 0u32));
    return true;
}

/// The function after the widening of a `int_compare` instruction by its pattern number 10.
#[verifier::opaque]
pub open spec fn widen_int_compare_10_spec(v: FuncView, inst: Inst, pos: int, d: InstData) -> Option<FuncView> {
    let p = pos;
    let cond = d.cond;
    let b = d.arg0;
    let c = d.arg1;
    let (new0, new1) = s_ins_results(v, inst_of(Opcode::Uextend, ValueType(I32), b, 0u32, 0u32, 0i64, IntCC::Equal, TrapCode::User(0), 0u8, 0i32, 0u32, 0u32), None, None);
    let v = s_ins(v, p, inst_of(Opcode::Uextend, ValueType(I32), b, 0u32, 0u32, 0i64, IntCC::Equal, TrapCode::User(0), 0u8, 0i32, 0u32, 0u32), None, None);
    let (x, _r1) = (new0, new1);
    let p = p + 1;
    let (new0, new1) = s_ins_results(v, inst_of(Opcode::Uextend, ValueType(I32), c, 0u32, 0u32, 0i64, IntCC::Equal, TrapCode::User(0), 0u8, 0i32, 0u32, 0u32), None, None);
    let v = s_ins(v, p, inst_of(Opcode::Uextend, ValueType(I32), c, 0u32, 0u32, 0i64, IntCC::Equal, TrapCode::User(0), 0u8, 0i32, 0u32, 0u32), None, None);
    let (y, _r1) = (new0, new1);
    let p = p + 1;
    let v = s_replace(v, inst, inst_of(Opcode::IntCompare, value_type_of(v, x), x, y, 0u32, 0i64, IntCC::Equal, TrapCode::User(0), 0u8, 0i32, 0u32, 0u32));
    Some(v)
}

/// Legalize a `int_compare` instruction by widening, with its pattern number 10.
#[verifier::rlimit(100)]
fn widen_int_compare_10(inst: Inst, pos: usize, d: InstData, func: &mut Function) -> (r: bool)
    requires
        pattern_input(old(func)@, inst, pos as int, d),
    ensures
        pattern_outcome(old(func)@, final(func)@, r, widen_int_compare_10_spec(old(func)@, inst, pos as int, d)),
        final(func).encodings@ == old(func).encodings@,
        func_wf(final(func)@),
        r ==> final(func)@.0.len() > old(func)@.0.len(),
        keeps_before(old(func)@, final(func)@, inst, pos as int),
{
    proof {
        reveal(widen_int_compare_10_spec);
    }
    let mut p = pos;
    let cond = d.cond;
    let b = d.arg0;
    let c = d.arg1;
    let (x, _r1) = func.ins(p, make_inst(Opcode::Uextend, ValueType(I32), b, 0u32, 0u32, 0i64, IntCC::Equal, TrapCode::User(0), 0u8, 0i32, 0u32, 0u32), None, None);
    p = p + 1;
    let (y, _r1) = func.ins(p, make_inst(Opcode::Uextend, ValueType(I32), c, 0u32, 0u32, 0i64, IntCC::Equal, TrapCode::User(0), 0u8, 0i32, 0u32, 0u32), None, None);
    p = p + 1;
    let ty11 = func.value_type(x);
    func.replace(inst, make_inst(Opcode::IntCompare, ty11, x, y, 0u32, 0i64, IntCC::Equal, TrapCode::User(0), 0u8, 0i32, 0u32, 0u32));
    return true;
}

/// The function after the widening of a `int_compare` instruction by its pattern number 11.
#[verifier::opaque]
pub open spec fn widen_int_compare_11_spec(v: FuncView, inst: Inst, pos: int, d: InstData) -> Option<FuncView> {
    let p = pos;
    let cond = d.cond;
    let b = d.arg0;
    let c = d.arg1;
    let (new0, new1) = s_ins_results(v, inst_of(Opcode::Uextend, ValueType(I32), b, 0u32, 0u32, 0i64, IntCC::Equal, TrapCode::User(0), 0u8, 0i32, 0u32, 0u32), None, None);
    let v = s_ins(v, p, inst_of(Opcode::Uextend, ValueType(I32), b, 0u32, 0u32, 0i64, IntCC::Equal, TrapCode::User(0), 0u8, 0i32, 0u32, 0u32), None, None);
    let (x, _r1) = (new0, new1);
    let p = p + 1;
    let (new0, new1) = s_ins_results(v, inst_of(Opcode::Uextend, ValueType(I32), c, 0u32, 0u32, 0i64, IntCC::Equal, TrapCode::User(0), 0u8, 0i32, 0u32, 0u32), None, None);
    let v = s_ins(v, p, inst_of(Opcode::Uextend, ValueType(I32), c, 0u32, 0u32, 0i64, IntCC::Equal, TrapCode::User(0), 0u8, 0i32, 0u32, 0u32), None, None);
    let (y, _r1) = (new0, new1);
    let p = p + 1;
    let v = s_replace(v, inst, inst_of(Opcode::IntCompare, value_type_of(v, x), x, y, 0u32, 0i64, IntCC::NotEqual, TrapCode::User(0), 0u8, 0i32, 0u32, 0u32));
    Some(v)
}

/// Legalize a `int_compare` instruction by widening, with its pattern number 11.
#[verifier::rlimit(100)]
fn widen_int_compare_11(inst: Inst, pos: usize, d: InstData, func: &mut Function) -> (r: bool)
    requires
        pattern_input(old(func)@, inst, pos as int, d),
    ensures
        pattern_outcome(old(func)@, final(func)@, r, widen_int_compare_11_spec(old(func)@, inst, pos as int, d)),
        final(func).encodings@ == old(func).encodings@,
        func_wf(final(func)@),
        r ==> final(func)@.0.len() > old(func)@.0.len(),
        keeps_before(old(func)@, final(func)@, inst, pos as int),
{
    proof {
        reveal(widen_int_compare_11_spec);
    }
    let mut p = pos;
    let cond = d.cond;
    let b = d.arg0;
    let c = d.arg1;
    let (x, _r1) = func.ins(p, make_inst(Opcode::Uextend, ValueType(I32), b, 0u32, 0u32, 0i64, IntCC::Equal, TrapCode::User(0), 0u8, 0i32, 0u32, 0u32), None, None);
    p = p + 1;
    let (y, _r1) = func.ins(p, make_inst(Opcode::Uextend, ValueType(I32), c, 0u32, 0u32, 0i64, IntCC::Equal, TrapCode::User(0), 0u8, 0i32, 0u32, 0u32), None, None);
    p = p + 1;
    let ty12 = func.value_type(x);
    func.replace(inst, make_inst(Opcode::IntCompare, ty12, x, y, 0u32, 0i64, IntCC::NotEqual, TrapCode::User(0), 0u8, 0i32, 0u32, 0u32));
    return true;
}

/// The function after the widening of a `int_compare` instruction by its pattern number 12.
#[verifier::opaque]
pub open spec fn widen_int_compare_12_spec(v: FuncView, inst: Inst, pos: int, d: InstData) -> Option<FuncView> {
    let p = pos;
    let cond = d.cond;
    let b = d.arg0;
    let c = d.arg1;
    let (new0, new1) = s_ins_results(v, inst_of(Opcode::Uextend, ValueType(I32), b, 0u32, 0u32, 0i64, IntCC::Equal, TrapCode::User(0), 0u8, 0i32, 0u32, 0u32), None, None);
    let v = s_ins(v, p, inst_of(Opcode::Uextend, ValueType(I32), b, 0u32, 0u32, 0i64, IntCC::Equal, TrapCode::User(0), 0u8, 0i32, 0u32, 0u32), None, None);
    let (x, _r1) = (new0, new1);
    let p = p + 1;
    let (new0, new1) = s_ins_results(v, inst_of(Opcode::Uextend, ValueType(I32), c, 0u32, 0u32, 0i64, IntCC::Equal, TrapCode::User(0), 0u8, 0i32, 0u32, 0u32), None, None);
    let v = s_ins(v, p, inst_of(Opcode::Uextend, ValueType(I32), c, 0u32, 0u32, 0i64, IntCC::Equal, TrapCode::User(0), 0u8, 0i32, 0u32, 0u32), None, None);
    let (y, _r1) = (new0, new1);
    let p = p + 1;
    let v = s_replace(v, inst, inst_of(Opcode::IntCompare, value_type_of(v, x), x, y, 0u32, 0i64, IntCC::UnsignedGreaterThan, TrapCode::User(0), 0u8, 0i32, 0u32, 0u32));
    Some(v)
}

/// Legalize a `int_compare` instruction by widening, with its pattern number 12.
#[verifier::rlimit(100)]
fn widen_int_compare_12(inst: Inst, pos: usize, d: InstData, func: &mut Function) -> (r: bool)
    requires
        pattern_input(old(func)@, inst, pos as int, d),
    ensures
        pattern_outcome(old(func)@, final(func)@, r, widen_int_compare_12_spec(old(func)@, inst, pos as int, d)),
        final(func).encodings@ == old(func).encodings@,
        func_wf(final(func)@),
        r ==> final(func)@.0.len() > old(func)@.0.len(),
        keeps_before(old(func)@, final(func)@, inst, pos as int),
{
    proof {
        reveal(widen_int_compare_12_spec);
    }
    let mut p = pos;
    let cond = d.cond;
    let b = d.arg0;
    let c = d.arg1;
    let (x, _r1) = func.ins(p, make_inst(Opcode::Uextend, ValueType(I32), b, 0u32, 0u32, 0i64, IntCC::Equal, TrapCode::User(0), 0u8, 0i32, 0u32, 0u32), None, None);
    p = p + 1;
    let (y, _r1) = func.ins(p, make_inst(Opcode::Uextend, ValueType(I32), c, 0u32, 0u32, 0i64, IntCC::Equal, TrapCode::User(0), 0u8, 0i32, 0u32, 0u32), None, None);
    p = p + 1;
    let ty13 = func.value_type(x);
    func.replace(inst, make_inst(Opcode::IntCompare, ty13, x, y, 0u32, 0i64, IntCC::UnsignedGreaterThan, TrapCode::User(0), 0u8, 0i32, 0u32, 0u32));
    return true;
}

/// The function after the widening of a `int_compare` instruction by its pattern number 13.
#[verifier::opaque]
pub open spec fn widen_int_compare_13_spec(v: FuncView, inst: Inst, pos: int, d: InstData) -> Option<FuncView> {
    let p = pos;
    let cond = d.cond;
    let b = d.arg0;
    let c = d.arg1;
    let (new0, new1) = s_ins_results(v, inst_of(Opcode::Uextend, ValueType(I32), b, 0u32, 0u32, 0i64, IntCC::Equal, TrapCode::User(0), 0u8, 0i32, 0u32, 0u32), None, None);
    let v = s_ins(v, p, inst_of(Opcode::Uextend, ValueType(I32), b, 0u32, 0u32, 0i64, IntCC::Equal, TrapCode::User(0), 0u8, 0i32, 0u32, 0u32), None, None);
    let (x, _r1) = (new0, new1);
    let p = p + 1;
    let (new0, new1) = s_ins_results(v, inst_of(Opcode::Uextend, ValueType(I32), c, 0u32, 0u32, 0i64, IntCC::Equal, TrapCode::User(0), 0u8, 0i32, 0u32, 0u32), None, None);
    let v = s_ins(v, p, inst_of(Opcode::Uextend, ValueType(I32), c, 0u32, 0u32, 0i64, IntCC::Equal, TrapCode::User(0), 0u8, 0i32, 0u32, 0u32), None, None);
    let (y, _r1) = (new0, new1);
    let p = p + 1;
    let v = s_replace(v, inst, inst_of(Opcode::IntCompare, value_type_of(v, x), x, y, 0u32, 0i64, IntCC::UnsignedLessThan, TrapCode::User(0), 0u8, 0i32, 0u32, 0u32));
    Some(v)
}

/// Legalize a `int_compare` instruction by widening, with its pattern number 13.
#[verifier::rlimit(100)]
fn widen_int_compare_13(inst: Inst, pos: usize, d: InstData, func: &mut Function) -> (r: bool)
    requires
        pattern_input(old(func)@, inst, pos as int, d),
    ensures
        pattern_outcome(old(func)@, final(func)@, r, widen_int_compare_13_spec(old(func)@, inst, pos as int, d)),
        final(func).encodings@ == old(func).encodings@,
        func_wf(final(func)@),
        r ==> final(func)@.0.len() > old(func)@.0.len(),
        keeps_before(old(func)@, final(func)@, inst, pos as int),
{
    proof {
        reveal(widen_int_compare_13_spec);
    }
    let mut p = pos;
    let cond = d.cond;
    let b = d.arg0;
    let c = d.arg1;
    let (x, _r1) = func.ins(p, make_inst(Opcode::Uextend, ValueType(I32), b, 0u32, 0u32, 0i64, IntCC::Equal, TrapCode::User(0), 0u8, 0i32, 0u32, 0u32), None, None);
    p = p + 1;
    let (y, _r1) = func.ins(p, make_inst(Opcode::Uextend, ValueType(I32), c, 0u32, 0u32, 0i64, IntCC::Equal, TrapCode::User(0), 0u8, 0i32, 0u32, 0u32), None, None);
    p = p + 1;
    let ty14 = func.value_type(x);
    func.replace(inst, make_inst(Opcode::IntCompare, ty14, x, y, 0u32, 0i64, IntCC::UnsignedLessThan, TrapCode::User(0), 0u8, 0i32, 0u32, 0u32));
    return true;
}

/// The function after the widening of a `int_compare` instruction by its pattern number 14.
#[verifier::opaque]
pub open spec fn widen_int_compare_14_spec(v: FuncView, inst: Inst, pos: int, d: InstData) -> Option<FuncView> {
    let p = pos;
    let cond = d.cond;
    let b = d.arg0;
    let c = d.arg1;
    let (new0, new1) = s_ins_results(v, inst_of(Opcode::Uextend, ValueType(I32), b, 0u32, 0u32, 0i64, IntCC::Equal, TrapCode::User(0), 0u8, 0i32, 0u32, 0u32), None, None);
    let v = s_ins(v, p, inst_of(Opcode::Uextend, ValueType(I32), b, 0u32, 0u32, 0i64, IntCC::Equal, TrapCode::User(0), 0u8, 0i32, 0u32, 0u32), None, None);
    let (x, _r1) = (new0, new1);
    let p = p + 1;
    let (new0, new1) = s_ins_results(v, inst_of(Opcode::Uextend, ValueType(I32), c, 0u32, 0u32, 0i64, IntCC::Equal, TrapCode::User(0), 0u8, 0i32, 0u32, 0u32), None, None);
    let v = s_ins(v, p, inst_of(Opcode::Uextend, ValueType(I32), c, 0u32, 0u32, 0i64, IntCC::Equal, TrapCode::User(0), 0u8, 0i32, 0u32, 0u32), None, None);
    let (y, _r1) = (new0, new1);
    let p = p + 1;
    let v = s_replace(v, inst, inst_of(Opcode::IntCompare, value_type_of(v, x), x, y, 0u32, 0i64, IntCC::UnsignedGreaterThanOrEqual, TrapCode::User(0), 0u8, 0i32, 0u32, 0u32));
    Some(v)
}

/// Legalize a `int_compare` instruction by widening, with its pattern number 14.
#[verifier::rlimit(100)]
fn widen_int_compare_14(inst: Inst, pos: usize, d: InstData, func: &mut Function) -> (r: bool)
    requires
        pattern_input(old(func)@, inst, pos as int, d),
    ensures
        pattern_outcome(old(func)@, final(func)@, r, widen_int_compare_14_spec(old(func)@, inst, pos as int, d)),
        final(func).encodings@ == old(func).encodings@,
        func_wf(final(func)@),
        r ==> final(func)@.0.len() > old(func)@.0.len(),
        keeps_before(old(func)@, final(func)@, inst, pos as int),
{
    proof {
        reveal(widen_int_compare_14_spec);
    }
    let mut p = pos;
    let cond = d.cond;
    let b = d.arg0;
    let c = d.arg1;
    let (x, _r1) = func.ins(p, make_inst(Opcode::Uextend, ValueType(I32), b, 0u32, 0u32, 0i64, IntCC::Equal, TrapCode::User(0), 0u8, 0i32, 0u32, 0u32), None, None);
    p = p + 1;
    let (y, _r1) = func.ins(p, make_inst(Opcode::Uextend, ValueType(I32), c, 0u32, 0u32, 0i64, IntCC::Equal, TrapCode::User(0), 0u8, 0i32, 0u32, 0u32), None, None);
    p = p + 1;
    let ty15 = func.value_type(x);
    func.replace(inst, make_inst(Opcode::IntCompare, ty15, x, y, 0u32, 0i64, IntCC::UnsignedGreaterThanOrEqual, TrapCode::User(0), 0u8, 0i32, 0u32, 0u32));
    return true;
}

/// The function after the widening of a `int_compare` instruction by its pattern number 15.
#[verifier::opaque]
pub open spec fn widen_int_compare_15_spec(v: FuncView, inst: Inst, pos: int, d: InstData) -> Option<FuncView> {
    let p = pos;
    let cond = d.cond;
    let b = d.arg0;
    let c = d.arg1;
    let (new0, new1) = s_ins_results(v, inst_of(Opcode::Uextend, ValueType(I32), b, 0u32, 0u32, 0i64, IntCC::Equal, TrapCode::User(0), 0u8, 0i32, 0u32, 0u32), None, None);
    let v = s_ins(v, p, inst_of(Opcode::Uextend, ValueType(I32), b, 0u32, 0u32, 0i64, IntCC::Equal, TrapCode::User(0), 0u8, 0i32, 0u32, 0u32), None, None);
    let (x, _r1) = (new0, new1);
    let p = p + 1;
    let (new0, new1) = s_ins_results(v, inst_of(Opcode::Uextend, ValueType(I32), c, 0u32, 0u32, 0i64, IntCC::Equal, TrapCode::User(0), 0u8, 0i32, 0u32, 0u32), None, None);
    let v = s_ins(v, p, inst_of(Opcode::Uextend, ValueType(I32), c, 0u32, 0u32, 0i64, IntCC::Equal, TrapCode::User(0), 0u8, 0i32, 0u32, 0u32), None, None);
    let (y, _r1) = (new0, new1);
    let p = p + 1;
    let v = s_replace(v, inst, inst_of(Opcode::IntCompare, value_type_of(v, x), x, y, 0u32, 0i64, IntCC::UnsignedLessThanOrEqual, TrapCode::User(0), 0u8, 0i32, 0u32, 0u32));
    Some(v)
}

/// Legalize a `int_compare` instruction by widening, with its pattern number 15.
#[verifier::rlimit(100)]
fn widen_int_compare_15(inst: Inst, pos: usize, d: InstData, func: &mut Function) -> (r: bool)
    requires
        pattern_input(old(func)@, inst, pos as int, d),
    ensures
        pattern_outcome(old(func)@, final(func)@, r, widen_int_compare_15_spec(old(func)@, inst, pos as int, d)),
        final(func).encodings@ == old(func).encodings@,
        func_wf(final(func)@),
        r ==> final(func)@.0.len() > old(func)@.0.len(),
        keeps_before(old(func)@, final(func)@, inst, pos as int),
{
    proof {
        reveal(widen_int_compare_15_spec);
    }
    let mut p = pos;
    let cond = d.cond;
    let b = d.arg0;
    let c = d.arg1;
    let (x, _r1) = func.ins(p, make_inst(Opcode::Uextend, ValueType(I32), b, 0u32, 0u32, 0i64, IntCC::Equal, TrapCode::User(0), 0u8, 0i32, 0u32, 0u32), None, None);
    p = p + 1;
    let (y, _r1) = func.ins(p, make_inst(Opcode::Uextend, ValueType(I32), c, 0u32, 0u32, 0i64, IntCC::Equal, TrapCode::User(0), 0u8, 0i32, 0u32, 0u32), None, None);
    p = p + 1;
    let ty16 = func.value_type(x);
    func.replace(inst, make_inst(Opcode::IntCompare, ty16, x, y, 0u32, 0i64, IntCC::UnsignedLessThanOrEqual, TrapCode::User(0), 0u8, 0i32, 0u32, 0u32));
    return true;
}

/// The function after the widening of a `int_compare` instruction by its pattern number 16.
#[verifier::opaque]
pub open spec fn widen_int_compare_16_spec(v: FuncView, inst: Inst, pos: int, d: InstData) -> Option<FuncView> {
    let p = pos;
    let cond = d.cond;
    let b = d.arg0;
    let c = d.arg1;
    let (new0, new1) = s_ins_results(v, inst_of(Opcode::Sextend, ValueType(I32), b, 0u32, 0u32, 0i64, IntCC::Equal, TrapCode::User(0), 0u8, 0i32, 0u32, 0u32), None, None);
    let v = s_ins(v, p, inst_of(Opcode::Sextend, ValueType(I32), b, 0u32, 0u32, 0i64, IntCC::Equal, TrapCode::User(0), 0u8, 0i32, 0u32, 0u32), None, None);
    let (x, _r1) = (new0, new1);
    let p = p + 1;
    let (new0, new1) = s_ins_results(v, inst_of(Opcode::Sextend, ValueType(I32), c, 0u32, 0u32, 0i64, IntCC::Equal, TrapCode::User(0), 0u8, 0i32, 0u32, 0u32), None, None);
    let v = s_ins(v, p, inst_of(Opcode::Sextend, ValueType(I32), c, 0u32, 0u32, 0i64, IntCC::Equal, TrapCode::User(0), 0u8, 0i32, 0u32, 0u32), None, None);
    let (y, _r1) = (new0, new1);
    let p = p + 1;
    let v = s_replace(v, inst, inst_of(Opcode::IntCompare, value_type_of(v, x), x, y, 0u32, 0i64, IntCC::SignedGreaterThan, TrapCode::User(0), 0u8, 0i32, 0u32, 0u32));
    Some(v)
}

/// Legalize a `int_compare` instruction by widening, with its pattern number 16.
#[verifier::rlimit(100)]
fn widen_int_compare_16(inst: Inst, pos: usize, d: InstData, func: &mut Function) -> (r: bool)
    requires
        pattern_input(old(func)@, inst, pos as int, d),
    ensures
        pattern_outcome(old(func)@, final(func)@, r, widen_int_compare_16_spec(old(func)@, inst, pos as int, d)),
        final(func).encodings@ == old(func).encodings@,
        func_wf(final(func)@),
        r ==> final(func)@.0.len() > old(func)@.0.len(),
        keeps_before(old(func)@, final(func)@, inst, pos as int),
{
    proof {
        reveal(widen_int_compare_16_spec);
    }
    let mut p = pos;
    let cond = d.cond;
    let b = d.arg0;
    let c = d.arg1;
    let (x, _r1) = func.ins(p, make_inst(Opcode::Sextend, ValueType(I32), b, 0u32, 0u32, 0i64, IntCC::Equal, TrapCode::User(0), 0u8, 0i32, 0u32, 0u32), None, None);
    p = p + 1;
    let (y, _r1) = func.ins(p, make_inst(Opcode::Sextend, ValueType(I32), c, 0u32, 0u32, 0i64, IntCC::Equal, TrapCode::User(0), 0u8, 0i32, 0u32, 0u32), None, None);
    p = p + 1;
    let ty17 = func.value_type(x);
    func.replace(inst, make_inst(Opcode::IntCompare, ty17, x, y, 0u32, 0i64, IntCC::SignedGreaterThan, TrapCode::User(0), 0u8, 0i32, 0u32, 0u32));
    return true;
}

/// The function after the widening of a `int_compare` instruction by its pattern number 17.
#[verifier::opaque]
pub open spec fn widen_int_compare_17_spec(v: FuncView, inst: Inst, pos: int, d: InstData) -> Option<FuncView> {
    let p = pos;
    let cond = d.cond;
    let b = d.arg0;
    let c = d.arg1;
    let (new0, new1) = s_ins_results(v, inst_of(Opcode::Sextend, ValueType(I32), b, 0u32, 0u32, 0i64, IntCC::Equal, TrapCode::User(0), 0u8, 0i32, 0u32, 0u32), None, None);
    let v = s_ins(v, p, inst_of(Opcode::Sextend, ValueType(I32), b, 0u32, 0u32, 0i64, IntCC::Equal, TrapCode::User(0), 0u8, 0i32, 0u32, 0u32), None, None);
    let (x, _r1) = (new0, new1);
    let p = p + 1;
    let (new0, new1) = s_ins_results(v, inst_of(Opcode::Sextend, ValueType(I32), c, 0u32, 0u32, 0i64, IntCC::Equal, TrapCode::User(0), 0u8, 0i32, 0u32, 0u32), None, None);
    let v = s_ins(v, p, inst_of(Opcode::Sextend, ValueType(I32), c, 0u32, 0u32, 0i64, IntCC::Equal, TrapCode::User(0), 0u8, 0i32, 0u32, 0u32), None, None);
    let (y, _r1) = (new0, new1);
    let p = p + 1;
    let v = s_replace(v, inst, inst_of(Opcode::IntCompare, value_type_of(v, x), x, y, 0u32, 0i64, IntCC::SignedLessThan, TrapCode::User(0), 0u8, 0i32, 0u32, 0u32));
    Some(v)
}

/// Legalize a `int_compare` instruction by widening, with its pattern number 17.
#[verifier::rlimit(100)]
fn widen_int_compare_17(inst: Inst, pos: usize, d: InstData, func: &mut Function) -> (r: bool)
    requires
        pattern_input(old(func)@, inst, pos as int, d),
    ensures
        pattern_outcome(old(func)@, final(func)@, r, widen_int_compare_17_spec(old(func)@, inst, pos as int, d)),
        final(func).encodings@ == old(func).encodings@,
        func_wf(final(func)@),
        r ==> final(func)@.0.len() > old(func)@.0.len(),
        keeps_before(old(func)@, final(func)@, inst, pos as int),
{
    proof {
        reveal(widen_int_compare_17_spec);
    }
    let mut p = pos;
    let cond = d.cond;
    let b = d.arg0;
    let c = d.arg1;
    let (x, _r1) = func.ins(p, make_inst(Opcode::Sextend, ValueType(I32), b, 0u32, 0u32, 0i64, IntCC::Equal, TrapCode::User(0), 0u8, 0i32, 0u32, 0u32), None, None);
    p = p + 1;
    let (y, _r1) = func.ins(p, make_inst(Opcode::Sextend, ValueType(I32), c, 0u32, 0u32, 0i64, IntCC::Equal, TrapCode::User(0), 0u8, 0i32, 0u32, 0u32), None, None);
    p = p + 1;
    let ty18 = func.value_type(x);
    func.replace(inst, make_inst(Opcode::IntCompare, ty18, x, y, 0u32, 0i64, IntCC::SignedLessThan, TrapCode::User(0), 0u8, 0i32, 0u32, 0u32));
    return true;
}

/// The function after the widening of a `int_compare` instruction by its pattern number 18.
#[verifier::opaque]
pub open spec fn widen_int_compare_18_spec(v: FuncView, inst: Inst, pos: int, d: InstData) -> Option<FuncView> {
    let p = pos;
    let cond = d.cond;
    let b = d.arg0;
    let c = d.arg1;
    let (new0, new1) = s_ins_results(v, inst_of(Opcode::Sextend, ValueType(I32), b, 0u32, 0u32, 0i64, IntCC::Equal, TrapCode::User(0), 0u8, 0i32, 0u32, 0u32), None, None);
    let v = s_ins(v, p, inst_of(Opcode::Sextend, ValueType(I32), b, 0u32, 0u32, 0i64, IntCC::Equal, TrapCode::User(0), 0u8, 0i32, 0u32, 0u32), None, None);
    let (x, _r1) = (new0, new1);
    let p = p + 1;
    let (new0, new1) = s_ins_results(v, inst_of(Opcode::Sextend, ValueType(I32), c, 0u32, 0u32, 0i64, IntCC::Equal, TrapCode::User(0), 0u8, 0i32, 0u32, 0u32), None, None);
    let v = s_ins(v, p, inst_of(Opcode::Sextend, ValueType(I32), c, 0u32, 0u32, 0i64, IntCC::Equal, TrapCode::User(0), 0u8, 0i32, 0u32, 0u32), None, None);
    let (y, _r1) = (new0, new1);
    let p = p + 1;
    let v = s_replace(v, inst, inst_of(Opcode::IntCompare, value_type_of(v, x), x, y, 0u32, 0i64, IntCC::SignedGreaterThanOrEqual, TrapCode::User(0), 0u8, 0i32, 0u32, 0u32));
    Some(v)
}

/// Legalize a `int_compare` instruction by widening, with its pattern number 18.
#[verifier::rlimit(100)]
fn widen_int_compare_18(inst: Inst, pos: usize, d: InstData, func: &mut Function) -> (r: bool)
    requires
        pattern_input(old(func)@, inst, pos as int, d),
    ensures
        pattern_outcome(old(func)@, final(func)@, r, widen_int_compare_18_spec(old(func)@, inst, pos as int, d)),
        final(func).encodings@ == old(func).encodings@,
        func_wf(final(func)@),
        r ==> final(func)@.0.len() > old(func)@.0.len(),
        keeps_before(old(func)@, final(func)@, inst, pos as int),
{
    proof {
        reveal(widen_int_compare_18_spec);
    }
    let mut p = pos;
    let cond = d.cond;
    let b = d.arg0;
    let c = d.arg1;
    let (x, _r1) = func.ins(p, make_inst(Opcode::Sextend, ValueType(I32), b, 0u32, 0u32, 0i64, IntCC::Equal, TrapCode::User(0), 0u8, 0i32, 0u32, 0u32), None, None);
    p = p + 1;
    let (y, _r1) = func.ins(p, make_inst(Opcode::Sextend, ValueType(I32), c, 0u32, 0u32, 0i64, IntCC::Equal, TrapCode::User(0), 0u8, 0i32, 0u32, 0u32), None, None);
    p = p + 1;
    let ty19 = func.value_type(x);
    func.replace(inst, make_inst(Opcode::IntCompare, ty19, x, y, 0u32, 0i64, IntCC::SignedGreaterThanOrEqual, TrapCode::User(0), 0u8, 0i32, 0u32, 0u32));
    return true;
}

/// The function after the widening of a `int_compare` instruction by its pattern number 19.
#[verifier::opaque]
pub open spec fn widen_int_compare_19_spec(v: FuncView, inst: Inst, pos: int, d: InstData) -> Option<FuncView> {
    let p = pos;
    let cond = d.cond;
    let b = d.arg0;
    let c = d.arg1;
    let (new0, new1) = s_ins_results(v, inst_of(Opcode::Sextend, ValueType(I32), b, 0u32, 0u32, 0i64, IntCC::Equal, TrapCode::User(0), 0u8, 0i32, 0u32, 0u32), None, None);
    let v = s_ins(v, p, inst_of(Opcode::Sextend, ValueType(I32), b, 0u32, 0u32, 0i64, IntCC::Equal, TrapCode::User(0), 0u8, 0i32, 0u32, 0u32), None, None);
    let (x, _r1) = (new0, new1);
    let p = p + 1;
    let (new0, new1) = s_ins_results(v, inst_of(Opcode::Sextend, ValueType(I32), c, 0u32, 0u32, 0i64, IntCC::Equal, TrapCode::User(0), 0u8, 0i32, 0u32, 0u32), None, None);
    let v = s_ins(v, p, inst_of(Opcode::Sextend, ValueType(I32), c, 0u32, 0u32, 0i64, IntCC::Equal, TrapCode::User(0), 0u8, 0i32, 0u32, 0u32), None, None);
    let (y, _r1) = (new0, new1);
    let p = p + 1;
    let v = s_replace(v, inst, inst_of(Opcode::IntCompare, value_type_of(v, x), x, y, 0u32, 0i64, IntCC::SignedLessThanOrEqual, TrapCode::User(0), 0u8, 0i32, 0u32, 0u32));
    Some(v)
}

/// Legalize a `int_compare` instruction by widening, with its pattern number 19.
#[verifier::rlimit(100)]
fn widen_int_compare_19(inst: Inst, pos: usize, d: InstData, func: &mut Function) -> (r: bool)
    requires
        pattern_input(old(func)@, inst, pos as int, d),
    ensures
        pattern_outcome(old(func)@, final(func)@, r, widen_int_compare_19_spec(old(func)@, inst, pos as int, d)),
        final(func).encodings@ == old(func).encodings@,
        func_wf(final(func)@),
        r ==> final(func)@.0.len() > old(func)@.0.len(),
        keeps_before(old(func)@, final(func)@, inst, pos as int),
{
    proof {
        reveal(widen_int_compare_19_spec);
    }
    let mut p = pos;
    let cond = d.cond;
    let b = d.arg0;
    let c = d.arg1;
    let (x, _r1) = func.ins(p, make_inst(Opcode::Sextend, ValueType(I32), b, 0u32, 0u32, 0i64, IntCC::Equal, TrapCode::User(0), 0u8, 0i32, 0u32, 0u32), None, None);
    p = p + 1;
    let (y, _r1) = func.ins(p, make_inst(Opcode::Sextend, ValueType(I32), c, 0u32, 0u32, 0i64, IntCC::Equal, TrapCode::User(0), 0u8, 0i32, 0u32, 0u32), None, None);
    p = p + 1;
    let ty20 = func.value_type(x);
    func.replace(inst, make_inst(Opcode::IntCompare, ty20, x, y, 0u32, 0i64, IntCC::SignedLessThanOrEqual, TrapCode::User(0), 0u8, 0i32, 0u32, 0u32));
    return true;
}

/// The function after the widening of a `int_compare` instruction, or `None` where no pattern applies.
#[verifier::opaque]
pub open spec fn widen_int_compare_spec(v: FuncView, inst: Inst, pos: int, d: InstData) -> Option<FuncView> {
    let p = pos;
    let cond = d.cond;
    let b = d.arg0;
    let c = d.arg1;
    if cond == IntCC::Equal && value_type_of(v, d.arg0) == ValueType(I8) {
        widen_int_compare_0_spec(v, inst, pos, d)
    } else if cond == IntCC::NotEqual && value_type_of(v, d.arg0) == ValueType(I8) {
        widen_int_compare_1_spec(v, inst, pos, d)
    } else if cond == IntCC::UnsignedGreaterThan && value_type_of(v, d.arg0) == ValueType(I8) {
        widen_int_compare_2_spec(v, inst, pos, d)
    } else if cond == IntCC::UnsignedLessThan && value_type_of(v, d.arg0) == ValueType(I8) {
        widen_int_compare_3_spec(v, inst, pos, d)
    } else if cond == IntCC::UnsignedGreaterThanOrEqual && value_type_of(v, d.arg0) == ValueType(I8) {
        widen_int_compare_4_spec(v, inst, pos, d)
    } else if cond == IntCC::UnsignedLessThanOrEqual && value_type_of(v, d.arg0) == ValueType(I8) {
        widen_int_compare_5_spec(v, inst, pos, d)
    } else if cond == IntCC::SignedGreaterThan && value_type_of(v, d.arg0) == ValueType(I8) {
        widen_int_compare_6_spec(v, inst, pos, d)
    } else if cond == IntCC::SignedLessThan && value_type_of(v, d.arg0) == ValueType(I8) {
        widen_int_compare_7_spec(v, inst, pos, d)
    } else if cond == IntCC::SignedGreaterThanOrEqual && value_type_of(v, d.arg0) == ValueType(I8) {
        widen_int_compare_8_spec(v, inst, pos, d)
    } else if cond == IntCC::SignedLessThanOrEqual && value_type_of(v, d.arg0) == ValueType(I8) {
        widen_int_compare_9_spec(v, inst, pos, d)
    } else if cond == IntCC::Equal && value_type_of(v, d.arg0) == ValueType(I16) {
        widen_int_compare_10_spec(v, inst, pos, d)
    } else if cond == IntCC::NotEqual && value_type_of(v, d.arg0) == ValueType(I16) {
        widen_int_compare_11_spec(v, inst, pos, d)
    } else if cond == IntCC::UnsignedGreaterThan && value_type_of(v, d.arg0) == ValueType(I16) {
        widen_int_compare_12_spec(v, inst, pos, d)
    } else if cond == IntCC::UnsignedLessThan && value_type_of(v, d.arg0) == ValueType(I16) {
        widen_int_compare_13_spec(v, inst, pos, d)
    } else if cond == IntCC::UnsignedGreaterThanOrEqual && value_type_of(v, d.arg0) == ValueType(I16) {
        widen_int_compare_14_spec(v, inst, pos, d)
    } else if cond == IntCC::UnsignedLessThanOrEqual && value_type_of(v, d.arg0) == ValueType(I16) {
        widen_int_compare_15_spec(v, inst, pos, d)
    } else if cond == IntCC::SignedGreaterThan && value_type_of(v, d.arg0) == ValueType(I16) {
        widen_int_compare_16_spec(v, inst, pos, d)
    } else if cond == IntCC::SignedLessThan && value_type_of(v, d.arg0) == ValueType(I16) {
        widen_int_compare_17_spec(v, inst, pos, d)
    } else if cond == IntCC::SignedGreaterThanOrEqual && value_type_of(v, d.arg0) == ValueType(I16) {
        widen_int_compare_18_spec(v, inst, pos, d)
    } else if cond == IntCC::SignedLessThanOrEqual && value_type_of(v, d.arg0) == ValueType(I16) {
        widen_int_compare_19_spec(v, inst, pos, d)
    } else {
        None
    }
}

/// Legalize a `int_compare` instruction by widening.
fn widen_int_compare(inst: Inst, pos: usize, d: InstData, func: &mut Function) -> (r: bool)
    requires
        pattern_input(old(func)@, inst, pos as int, d),
    ensures
        pattern_outcome(old(func)@, final(func)@, r, widen_int_compare_spec(old(func)@, inst, pos as int, d)),
        final(func).encodings@ == old(func).encodings@,
        func_wf(final(func)@),
        r ==> final(func)@.0.len() > old(func)@.0.len(),
        keeps_before(old(func)@, final(func)@, inst, pos as int),
{
    proof {
        reveal(widen_int_compare_spec);
    }
    let mut p = pos;
    let cond = d.cond;
    let b = d.arg0;
    let c = d.arg1;
    if is_equal(cond, IntCC::Equal) && func.value_type(d.arg0) == ValueType(I8) {
        return widen_int_compare_0(inst, pos, d, func);
    }
    if is_equal(cond, IntCC::NotEqual) && func.value_type(d.arg0) == ValueType(I8) {
        return widen_int_compare_1(inst, pos, d, func);
    }
    if is_equal(cond, IntCC::UnsignedGreaterThan) && func.value_type(d.arg0) == ValueType(I8) {
        return widen_int_compare_2(inst, pos, d, func);
    }
    if is_equal(cond, IntCC::UnsignedLessThan) && func.value_type(d.arg0) == ValueType(I8) {
        return widen_int_compare_3(inst, pos, d, func);
    }
    if is_equal(cond, IntCC::UnsignedGreaterThanOrEqual) && func.value_type(d.arg0) == ValueType(I8) {
        return widen_int_compare_4(inst, pos, d, func);
    }
    if is_equal(cond, IntCC::UnsignedLessThanOrEqual) && func.value_type(d.arg0) == ValueType(I8) {
        return widen_int_compare_5(inst, pos, d, func);
    }
    if is_equal(cond, IntCC::SignedGreaterThan) && func.value_type(d.arg0) == ValueType(I8) {
        return widen_int_compare_6(inst, pos, d, func);
    }
    if is_equal(cond, IntCC::SignedLessThan) && func.value_type(d.arg0) == ValueType(I8) {
        return widen_int_compare_7(inst, pos, d, func);
    }
    if is_equal(cond, IntCC::SignedGreaterThanOrEqual) && func.value_type(d.arg0) == ValueType(I8) {
        return widen_int_compare_8(inst, pos, d, func);
    }
    if is_equal(cond, IntCC::SignedLessThanOrEqual) && func.value_type(d.arg0) == ValueType(I8) {
        return widen_int_compare_9(inst, pos, d, func);
    }
    if is_equal(cond, IntCC::Equal) && func.value_type(d.arg0) == ValueType(I16) {
        return widen_int_compare_10(inst, pos, d, func);
    }
    if is_equal(cond, IntCC::NotEqual) && func.value_type(d.arg0) == ValueType(I16) {
        return widen_int_compare_11(inst, pos, d, func);
    }
    if is_equal(cond, IntCC::UnsignedGreaterThan) && func.value_type(d.arg0) == ValueType(I16) {
        return widen_int_compare_12(inst, pos, d, func);
    }
    if is_equal(cond, IntCC::UnsignedLessThan) && func.value_type(d.arg0) == ValueType(I16) {
        return widen_int_compare_13(inst, pos, d, func);
    }
    if is_equal(cond, IntCC::UnsignedGreaterThanOrEqual) && func.value_type(d.arg0) == ValueType(I16) {
        return widen_int_compare_14(inst, pos, d, func);
    }
    if is_equal(cond, IntCC::UnsignedLessThanOrEqual) && func.value_type(d.arg0) == ValueType(I16) {
        return widen_int_compare_15(inst, pos, d, func);
    }
    if is_equal(cond, IntCC::SignedGreaterThan) && func.value_type(d.arg0) == ValueType(I16) {
        return widen_int_compare_16(inst, pos, d, func);
    }
    if is_equal(cond, IntCC::SignedLessThan) && func.value_type(d.arg0) == ValueType(I16) {
        return widen_int_compare_17(inst, pos, d, func);
    }
    if is_equal(cond, IntCC::SignedGreaterThanOrEqual) && func.value_type(d.arg0) == ValueType(I16) {
        return widen_int_compare_18(inst, pos, d, func);
    }
    if is_equal(cond, IntCC::SignedLessThanOrEqual) && func.value_type(d.arg0) == ValueType(I16) {
        return widen_int_compare_19(inst, pos, d, func);
    }
    false
}

/// The function after the widening of a `int_compare_imm` instruction by its pattern number 0.
#[verifier::opaque]
pub open spec fn widen_int_compare_imm_0_spec(v: FuncView, inst: Inst, pos: int, d: InstData) -> Option<FuncView> {
    let p = pos;
    let cond = d.cond;
    let b = d.arg0;
    let c = d.imm;
    let (new0, new1) = s_ins_results(v, inst_of(Opcode::Uextend, ValueType(I32), b, 0u32, 0u32, 0i64, IntCC::Equal, TrapCode::User(0), 0u8, 0i32, 0u32, 0u32), None, None);
    let v = s_ins(v, p, inst_of(Opcode::Uextend, ValueType(I32), b, 0u32, 0u32, 0i64, IntCC::Equal, TrapCode::User(0), 0u8, 0i32, 0u32, 0u32), None, None);
    let (x, _r1) = (new0, new1);
    let p = p + 1;
    let v = s_replace(v, inst, inst_of(Opcode::IntCompareImm, value_type_of(v, x), x, 0u32, 0u32, c, IntCC::Equal, TrapCode::User(0), 0u8, 0i32, 0u32, 0u32));
    Some(v)
}

/// Legalize a `int_compare_imm` instruction by widening, with its pattern number 0.
#[verifier::rlimit(100)]
fn widen_int_compare_imm_0(inst: Inst, pos: usize, d: InstData, func: &mut Function) -> (r: bool)
    requires
        pattern_input(old(func)@, inst, pos as int, d),
    ensures
        pattern_outcome(old(func)@, final(func)@, r, widen_int_compare_imm_0_spec(old(func)@, inst, pos as int, d)),
        final(func).encodings@ == old(func).encodings@,
        func_wf(final(func)@),
        r ==> final(func)@.0.len() > old(func)@.0.len(),
        keeps_before(old(func)@, final(func)@, inst, pos as int),
{
    proof {
        reveal(widen_int_compare_imm_0_spec);
    }
    let mut p = pos;
    let cond = d.cond;
    let b = d.arg0;
    let c = d.imm;
    let (x, _r1) = func.ins(p, make_inst(Opcode::Uextend, ValueType(I32), b, 0u32, 0u32, 0i64, IntCC::Equal, TrapCode::User(0), 0u8, 0i32, 0u32, 0u32), None, None);
    p = p + 1;
    let ty1 = func.value_type(x);
    func.replace(inst, make_inst(Opcode::IntCompareImm, ty1, x, 0u32, 0u32, c, IntCC::Equal, TrapCode::User(0), 0u8, 0i32, 0u32, 0u32));
    return true;
}

/// The function after the widening of a `int_compare_imm` instruction by its pattern number 1.
#[verifier::opaque]
pub open spec fn widen_int_compare_imm_1_spec(v: FuncView, inst: Inst, pos: int, d: InstData) -> Option<FuncView> {
    let p = pos;
    let cond = d.cond;
    let b = d.arg0;
    let c = d.imm;
    let (new0, new1) = s_ins_results(v, inst_of(Opcode::Uextend, ValueType(I32), b, 0u32, 0u32, 0i64, IntCC::Equal, TrapCode::User(0), 0u8, 0i32, 0u32, 0u32), None, None);
    let v = s_ins(v, p, inst_of(Opcode::Uextend, ValueType(I32), b, 0u32, 0u32, 0i64, IntCC::Equal, TrapCode::User(0), 0u8, 0i32, 0u32, 0u32), None, None);
    let (x, _r1) = (new0, new1);
    let p = p + 1;
    let v = s_replace(v, inst, inst_of(Opcode::IntCompareImm, value_type_of(v, x), x, 0u32, 0u32, c, IntCC::NotEqual, TrapCode::User(0), 0u8, 0i32, 0u32, 0u32));
    Some(v)
}

/// Legalize a `int_compare_imm` instruction by widening, with its pattern number 1.
#[verifier::rlimit(100)]
fn widen_int_compare_imm_1(inst: Inst, pos: usize, d: InstData, func: &mut Function) -> (r: bool)
    requires
        pattern_input(old(func)@, inst, pos as int, d),
    ensures
        pattern_outcome(old(func)@, final(func)@, r, widen_int_compare_imm_1_spec(old(func)@, inst, pos as int, d)),
        final(func).encodings@ == old(func).encodings@,
        func_wf(final(func)@),
        r ==> final(func)@.0.len() > old(func)@.0.len(),
        keeps_before(old(func)@, final(func)@, inst, pos as int),
{
    proof {
        reveal(widen_int_compare_imm_1_spec);
    }
    let mut p = pos;
    let cond = d.cond;
    let b = d.arg0;
    let c = d.imm;
    let (x, _r1) = func.ins(p, make_inst(Opcode::Uextend, ValueType(I32), b, 0u32, 0u32, 0i64, IntCC::Equal, TrapCode::User(0), 0u8, 0i32, 0u32, 0u32), None, None);
    p = p + 1;
    let ty2 = func.value_type(x);
    func.replace(inst, make_inst(Opcode::IntCompareImm, ty2, x, 0u32, 0u32, c, IntCC::NotEqual, TrapCode::User(0), 0u8, 0i32, 0u32, 0u32));
    return true;
}

/// The function after the widening of a `int_compare_imm` instruction by its pattern number 2.
#[verifier::opaque]
pub open spec fn widen_int_compare_imm_2_spec(v: FuncView, inst: Inst, pos: int, d: InstData) -> Option<FuncView> {
    let p = pos;
    let cond = d.cond;
    let b = d.arg0;
    let c = d.imm;
    let (new0, new1) = s_ins_results(v, inst_of(Opcode::Uextend, ValueType(I32), b, 0u32, 0u32, 0i64, IntCC::Equal, TrapCode::User(0), 0u8, 0i32, 0u32, 0u32), None, None);
    let v = s_ins(v, p, inst_of(Opcode::Uextend, ValueType(I32), b, 0u32, 0u32, 0i64, IntCC::Equal, TrapCode::User(0), 0u8, 0i32, 0u32, 0u32), None, None);
    let (x, _r1) = (new0, new1);
    let p = p + 1;
    let v = s_replace(v, inst, inst_of(Opcode::IntCompareImm, value_type_of(v, x), x, 0u32, 0u32, c, IntCC::UnsignedGreaterThan, TrapCode::User(0), 0u8, 0i32, 0u32, 0u32));
    Some(v)
}

/// Legalize a `int_compare_imm` instruction by widening, with its pattern number 2.
#[verifier::rlimit(100)]
fn widen_int_compare_imm_2(inst: Inst, pos: usize, d: InstData, func: &mut Function) -> (r: bool)
    requires
        pattern_input(old(func)@, inst, pos as int, d),
    ensures
        pattern_outcome(old(func)@, final(func)@, r, widen_int_compare_imm_2_spec(old(func)@, inst, pos as int, d)),
        final(func).encodings@ == old(func).encodings@,
        func_wf(final(func)@),
        r ==> final(func)@.0.len() > old(func)@.0.len(),
        keeps_before(old(func)@, final(func)@, inst, pos as int),
{
    proof {
        reveal(widen_int_compare_imm_2_spec);
    }
    let mut p = pos;
    let cond = d.cond;
    let b = d.arg0;
    let c = d.imm;
    let (x, _r1) = func.ins(p, make_inst(Opcode::Uextend, ValueType(I32), b, 0u32, 0u32, 0i64, IntCC::Equal, TrapCode::User(0), 0u8, 0i32, 0u32, 0u32), None, None);
    p = p + 1;
    let ty3 = func.value_type(x);
    func.replace(inst, make_inst(Opcode::IntCompareImm, ty3, x, 0u32, 0u32, c, IntCC::UnsignedGreaterThan, TrapCode::User(0), 0u8, 0i32, 0u32, 0u32));
    return true;
}

/// The function after the widening of a `int_compare_imm` instruction by its pattern number 3.
#[verifier::opaque]
pub open spec fn widen_int_compare_imm_3_spec(v: FuncView, inst: Inst, pos: int, d: InstData) -> Option<FuncView> {
    let p = pos;
    let cond = d.cond;
    let b = d.arg0;
    let c = d.imm;
    let (new0, new1) = s_ins_results(v, inst_of(Opcode::Uextend, ValueType(I32), b, 0u32, 0u32, 0i64, IntCC::Equal, TrapCode::User(0), 0u8, 0i32, 0u32, 0u32), None, None);
    let v = s_ins(v, p, inst_of(Opcode::Uextend, ValueType(I32), b, 0u32, 0u32, 0i64, IntCC::Equal, TrapCode::User(0), 0u8, 0i32, 0u32, 0u32), None, None);
    let (x, _r1) = (new0, new1);
    let p = p + 1;
    let v = s_replace(v, inst, inst_of(Opcode::IntCompareImm, value_type_of(v, x), x, 0u32, 0u32, c, IntCC::UnsignedLessThan, TrapCode::User(0), 0u8, 0i32, 0u32, 0u32));
    Some(v)
}

/// Legalize a `int_compare_imm` instruction by widening, with its pattern number 3.
#[verifier::rlimit(100)]
fn widen_int_compare_imm_3(inst: Inst, pos: usize, d: InstData, func: &mut Function) -> (r: bool)
    requires
        pattern_input(old(func)@, inst, pos as int, d),
    ensures
        pattern_outcome(old(func)@, final(func)@, r, widen_int_compare_imm_3_spec(old(func)@, inst, pos as int, d)),
        final(func).encodings@ == old(func).encodings@,
        func_wf(final(func)@),
        r ==> final(func)@.0.len() > old(func)@.0.len(),
        keeps_before(old(func)@, final(func)@, inst, pos as int),
{
    proof {
        reveal(widen_int_compare_imm_3_spec);
    }
    let mut p = pos;
    let cond = d.cond;
    let b = d.arg0;
    let c = d.imm;
    let (x, _r1) = func.ins(p, make_inst(Opcode::Uextend, ValueType(I32), b, 0u32, 0u32, 0i64, IntCC::Equal, TrapCode::User(0), 0u8, 0i32, 0u32, 0u32), None, None);
    p = p + 1;
    let ty4 = func.value_type(x);
    func.replace(inst, make_inst(Opcode::IntCompareImm, ty4, x, 0u32, 0u32, c, IntCC::UnsignedLessThan, TrapCode::User(0), 0u8, 0i32, 0u32, 0u32));
    return true;
}

/// The function after the widening of a `int_compare_imm` instruction by its pattern number 4.
#[verifier::opaque]
pub open spec fn widen_int_compare_imm_4_spec(v: FuncView, inst: Inst, pos: int, d: InstData) -> Option<FuncView> {
    let p = pos;
    let cond = d.cond;
    let b = d.arg0;
    let c = d.imm;
    let (new0, new1) = s_ins_results(v, inst_of(Opcode::Uextend, ValueType(I32), b, 0u32, 0u32, 0i64, IntCC::Equal, TrapCode::User(0), 0u8, 0i32, 0u32, 0u32), None, None);
    let v = s_ins(v, p, inst_of(Opcode::Uextend, ValueType(I32), b, 0u32, 0u32, 0i64, IntCC::Equal, TrapCode::User(0), 0u8, 0i32, 0u32, 0u32), None, None);
    let (x, _r1) = (new0, new1);
    let p = p + 1;
    let v = s_replace(v, inst, inst_of(Opcode::IntCompareImm, value_type_of(v, x), x, 0u32, 0u32, c, IntCC::UnsignedGreaterThanOrEqual, TrapCode::User(0), 0u8, 0i32, 0u32, 0u32));
    Some(v)
}

/// Legalize a `int_compare_imm` instruction by widening, with its pattern number 4.
#[verifier::rlimit(100)]
fn widen_int_compare_imm_4(inst: Inst, pos: usize, d: InstData, func: &mut Function) -> (r: bool)
    requires
        pattern_input(old(func)@, inst, pos as int, d),
    ensures
        pattern_outcome(old(func)@, final(func)@, r, widen_int_compare_imm_4_spec(old(func)@, inst, pos as int, d)),
        final(func).encodings@ == old(func).encodings@,
        func_wf(final(func)@),
        r ==> final(func)@.0.len() > old(func)@.0.len(),
        keeps_before(old(func)@, final(func)@, inst, pos as int),
{
    proof {
        reveal(widen_int_compare_imm_4_spec);
    }
    let mut p = pos;
    let cond = d.cond;
    let b = d.arg0;
    let c = d.imm;
    let (x, _r1) = func.ins(p, make_inst(Opcode::Uextend, ValueType(I32), b, 0u32, 0u32, 0i64, IntCC::Equal, TrapCode::User(0), 0u8, 0i32, 0u32, 0u32), None, None);
    p = p + 1;
    let ty5 = func.value_type(x);
    func.replace(inst, make_inst(Opcode::IntCompareImm, ty5, x, 0u32, 0u32, c, IntCC::UnsignedGreaterThanOrEqual, TrapCode::User(0), 0u8, 0i32, 0u32, 0u32));
    return true;
}

/// The function after the widening of a `int_compare_imm` instruction by its pattern number 5.
#[verifier::opaque]
pub open spec fn widen_int_compare_imm_5_spec(v: FuncView, inst: Inst, pos: int, d: InstData) -> Option<FuncView> {
    let p = pos;
    let cond = d.cond;
    let b = d.arg0;
    let c = d.imm;
    let (new0, new1) = s_ins_results(v, inst_of(Opcode::Uextend, ValueType(I32), b, 0u32, 0u32, 0i64, IntCC::Equal, TrapCode::User(0), 0u8, 0i32, 0u32, 0u32), None, None);
    let v = s_ins(v, p, inst_of(Opcode::Uextend, ValueType(I32), b, 0u32, 0u32, 0i64, IntCC::Equal, TrapCode::User(0), 0u8, 0i32, 0u32, 0u32), None, None);
    let (x, _r1) = (new0, new1);
    let p = p + 1;
    let v = s_replace(v, inst, inst_of(Opcode::IntCompareImm, value_type_of(v, x), x, 0u32, 0u32, c, IntCC::UnsignedLessThanOrEqual, TrapCode::User(0), 0u8, 0i32, 0u32, 0u32));
    Some(v)
}

/// Legalize a `int_compare_imm` instruction by widening, with its pattern number 5.
#[verifier::rlimit(100)]
fn widen_int_compare_imm_5(inst: Inst, pos: usize, d: InstData, func: &mut Function) -> (r: bool)
    requires
        pattern_input(old(func)@, inst, pos as int, d),
    ensures
        pattern_outcome(old(func)@, final(func)@, r, widen_int_compare_imm_5_spec(old(func)@, inst, pos as int, d)),
        final(func).encodings@ == old(func).encodings@,
        func_wf(final(func)@),
        r ==> final(func)@.0.len() > old(func)@.0.len(),
        keeps_before(old(func)@, final(func)@, inst, pos as int),
{
    proof {
        reveal(widen_int_compare_imm_5_spec);
    }
    let mut p = pos;
    let cond = d.cond;
    let b = d.arg0;
    let c = d.imm;
    let (x, _r1) = func.ins(p, make_inst(Opcode::Uextend, ValueType(I32), b, 0u32, 0u32, 0i64, IntCC::Equal, TrapCode::User(0), 0u8, 0i32, 0u32, 0u32), None, None);
    p = p + 1;
    let ty6 = func.value_type(x);
    func.replace(inst, make_inst(Opcode::IntCompareImm, ty6, x, 0u32, 0u32, c, IntCC::UnsignedLessThanOrEqual, TrapCode::User(0), 0u8, 0i32, 0u32, 0u32));
    return true;
}

/// The function after the widening of a `int_compare_imm` instruction by its pattern number 6.
#[verifier::opaque]
pub open spec fn widen_int_compare_imm_6_spec(v: FuncView, inst: Inst, pos: int, d: InstData) -> Option<FuncView> {
    let p = pos;
    let cond = d.cond;
    let b = d.arg0;
    let c = d.imm;
    let (new0, new1) = s_ins_results(v, inst_of(Opcode::Sextend, ValueType(I32), b, 0u32, 0u32, 0i64, IntCC::Equal, TrapCode::User(0), 0u8, 0i32, 0u32, 0u32), None, None);
    let v = s_ins(v, p, inst_of(Opcode::Sextend, ValueType(I32), b, 0u32, 0u32, 0i64, IntCC::Equal, TrapCode::User(0), 0u8, 0i32, 0u32, 0u32), None, None);
    let (x, _r1) = (new0, new1);
    let p = p + 1;
    let v = s_replace(v, inst, inst_of(Opcode::IntCompareImm, value_type_of(v, x), x, 0u32, 0u32, c, IntCC::SignedGreaterThan, TrapCode::User(0), 0u8, 0i32, 0u32, 0u32));
    Some(v)
}

/// Legalize a `int_compare_imm` instruction by widening, with its pattern number 6.
#[verifier::rlimit(100)]
fn widen_int_compare_imm_6(inst: Inst, pos: usize, d: InstData, func: &mut Function) -> (r: bool)
    requires
        pattern_input(old(func)@, inst, pos as int, d),
    ensures
        pattern_outcome(old(func)@, final(func)@, r, widen_int_compare_imm_6_spec(old(func)@, inst, pos as int, d)),
        final(func).encodings@ == old(func).encodings@,
        func_wf(final(func)@),
        r ==> final(func)@.0.len() > old(func)@.0.len(),
        keeps_before(old(func)@, final(func)@, inst, pos as int),
{
    proof {
        reveal(widen_int_compare_imm_6_spec);
    }
    let mut p = pos;
    let cond = d.cond;
    let b = d.arg0;
    let c = d.imm;
    let (x, _r1) = func.ins(p, make_inst(Opcode::Sextend, ValueType(I32), b, 0u32, 0u32, 0i64, IntCC::Equal, TrapCode::User(0), 0u8, 0i32, 0u32, 0u32), None, None);
    p = p + 1;
    let ty7 = func.value_type(x);
    func.replace(inst, make_inst(Opcode::IntCompareImm, ty7, x, 0u32, 0u32, c, IntCC::SignedGreaterThan, TrapCode::User(0), 0u8, 0i32, 0u32, 0u32));
    return true;
}

/// The function after the widening of a `int_compare_imm` instruction by its pattern number 7.
#[verifier::opaque]
pub open spec fn widen_int_compare_imm_7_spec(v: FuncView, inst: Inst, pos: int, d: InstData) -> Option<FuncView> {
    let p = pos;
    let cond = d.cond;
    let b = d.arg0;
    let c = d.imm;
    let (new0, new1) = s_ins_results(v, inst_of(Opcode::Sextend, ValueType(I32), b, 0u32, 0u32, 0i64, IntCC::Equal, TrapCode::User(0), 0u8, 0i32, 0u32, 0u32), None, None);
    let v = s_ins(v, p, inst_of(Opcode::Sextend, ValueType(I32), b, 0u32, 0u32, 0i64, IntCC::Equal, TrapCode::User(0), 0u8, 0i32, 0u32, 0u32), None, None);
    let (x, _r1) = (new0, new1);
    let p = p + 1;
    let v = s_replace(v, inst, inst_of(Opcode::IntCompareImm, value_type_of(v, x), x, 0u32, 0u32, c, IntCC::SignedLessThan, TrapCode::User(0), 0u8, 0i32, 0u32, 0u32));
    Some(v)
}

/// Legalize a `int_compare_imm` instruction by widening, with its pattern number 7.
#[verifier::rlimit(100)]
fn widen_int_compare_imm_7(inst: Inst, pos: usize, d: InstData, func: &mut Function) -> (r: bool)
    requires
        pattern_input(old(func)@, inst, pos as int, d),
    ensures
        pattern_outcome(old(func)@, final(func)@, r, widen_int_compare_imm_7_spec(old(func)@, inst, pos as int, d)),
        final(func).encodings@ == old(func).encodings@,
        func_wf(final(func)@),
        r ==> final(func)@.0.len() > old(func)@.0.len(),
        keeps_before(old(func)@, final(func)@, inst, pos as int),
{
    proof {
        reveal(widen_int_compare_imm_7_spec);
    }
    let mut p = pos;
    let cond = d.cond;
    let b = d.arg0;
    let c = d.imm;
    let (x, _r1) = func.ins(p, make_inst(Opcode::Sextend, ValueType(I32), b, 0u32, 0u32, 0i64, IntCC::Equal, TrapCode::User(0), 0u8, 0i32, 0u32, 0u32), None, None);
    p = p + 1;
    let ty8 = func.value_type(x);
    func.replace(inst, make_inst(Opcode::IntCompareImm, ty8, x, 0u32, 0u32, c, IntCC::SignedLessThan, TrapCode::User(0), 0u8, 0i32, 0u32, 0u32));
    return true;
}

/// The function after the widening of a `int_compare_imm` instruction by its pattern number 8.
#[verifier::opaque]
pub open spec fn widen_int_compare_imm_8_spec(v: FuncView, inst: Inst, pos: int, d: InstData) -> Option<FuncView> {
    let p = pos;
    let cond = d.cond;
    let b = d.arg0;
    let c = d.imm;
    let (new0, new1) = s_ins_results(v, inst_of(Opcode::Sextend, ValueType(I32), b, 0u32, 0u32, 0i64, IntCC::Equal, TrapCode::User(0), 0u8, 0i32, 0u32, 0u32), None, None);
    let v = s_ins(v, p, inst_of(Opcode::Sextend, ValueType(I32), b, 0u32, 0u32, 0i64, IntCC::Equal, TrapCode::User(0), 0u8, 0i32, 0u32, 0u32), None, None);
    let (x, _r1) = (new0, new1);
    let p = p + 1;
    let v = s_replace(v, inst, inst_of(Opcode::IntCompareImm, value_type_of(v, x), x, 0u32, 0u32, c, IntCC::SignedGreaterThanOrEqual, TrapCode::User(0), 0u8, 0i32, 0u32, 0u32));
    Some(v)
}

/// Legalize a `int_compare_imm` instruction by widening, with its pattern number 8.
#[verifier::rlimit(100)]
fn widen_int_compare_imm_8(inst: Inst, pos: usize, d: InstData, func: &mut Function) -> (r: bool)
    requires
        pattern_input(old(func)@, inst, pos as int, d),
    ensures
        pattern_outcome(old(func)@, final(func)@, r, widen_int_compare_imm_8_spec(old(func)@, inst, pos as int, d)),
        final(func).encodings@ == old(func).encodings@,
        func_wf(final(func)@),
        r ==> final(func)@.0.len() > old(func)@.0.len(),
        keeps_before(old(func)@, final(func)@, inst, pos as int),
{
    proof {
        reveal(widen_int_compare_imm_8_spec);
    }
    let mut p = pos;
    let cond = d.cond;
    let b = d.arg0;
    let c = d.imm;
    let (x, _r1) = func.ins(p, make_inst(Opcode::Sextend, ValueType(I32), b, 0u32, 0u32, 0i64, IntCC::Equal, TrapCode::User(0), 0u8, 0i32, 0u32, 0u32), None, None);
    p = p + 1;
    let ty9 = func.value_type(x);
    func.replace(inst, make_inst(Opcode::IntCompareImm, ty9, x, 0u32, 0u32, c, IntCC::SignedGreaterThanOrEqual, TrapCode::User(0), 0u8, 0i32, 0u32, 0u32));
    return true;
}

/// The function after the widening of a `int_compare_imm` instruction by its pattern number 9.
#[verifier::opaque]
pub open spec fn widen_int_compare_imm_9_spec(v: FuncView, inst: Inst, pos: int, d: InstData) -> Option<FuncView> {
    let p = pos;
    let cond = d.cond;
    let b = d.arg0;
    let c = d.imm;
    let (new0, new1) = s_ins_results(v, inst_of(Opcode::Sextend, ValueType(I32), b, 0u32, 0u32, 0i64, IntCC::Equal, TrapCode::User(0), 0u8, 0i32, 0u32, 0u32), None, None);
    let v = s_ins(v, p, inst_of(Opcode::Sextend, ValueType(I32), b, 0u32, 0u32, 0i64, IntCC::Equal, TrapCode::User(0), 0u8, 0i32, 0u32, 0u32), None, None);
    let (x, _r1) = (new0, new1);
    let p = p + 1;
    let v = s_replace(v, inst, inst_of(Opcode::IntCompareImm, value_type_of(v, x), x, 0u32, 0u32, c, IntCC::SignedLessThanOrEqual, TrapCode::User(0), 0u8, 0i32, 0u32, 0u32));
    Some(v)
}

/// Legalize a `int_compare_imm` instruction by widening, with its pattern number 9.
#[verifier::rlimit(100)]
fn widen_int_compare_imm_9(inst: Inst, pos: usize, d: InstData, func: &mut Function) -> (r: bool)
    requires
        pattern_input(old(func)@, inst, pos as int, d),
    ensures
        pattern_outcome(old(func)@, final(func)@, r, widen_int_compare_imm_9_spec(old(func)@, inst, pos as int, d)),
        final(func).encodings@ == old(func).encodings@,
        func_wf(final(func)@),
        r ==> final(func)@.0.len() > old(func)@.0.len(),
        keeps_before(old(func)@, final(func)@, inst, pos as int),
{
    proof {
        reveal(widen_int_compare_imm_9_spec);
    }
    let mut p = pos;
    let cond = d.cond;
    let b = d.arg0;
    let c = d.imm;
    let (x, _r1) = func.ins(p, make_inst(Opcode::Sextend, ValueType(I32), b, 0u32, 0u32, 0i64, IntCC::Equal, TrapCode::User(0), 0u8, 0i32, 0u32, 0u32), None, None);
    p = p + 1;
    let ty10 = func.value_type(x);
    func.replace(inst, make_inst(Opcode::IntCompareImm, ty10, x, 0u32, 0u32, c, IntCC::SignedLessThanOrEqual, TrapCode::User(0), 0u8, 0i32, 0u32, 0u32));
    return true;
}

/// The function after the widening of a `int_compare_imm` instruction by its pattern number 10.
#[verifier::opaque]
pub open spec fn widen_int_compare_imm_10_spec(v: FuncView, inst: Inst, pos: int, d: InstData) -> Option<FuncView> {
    let p = pos;
    let cond = d.cond;
    let b = d.arg0;
    let c = d.imm;
    let (new0, new1) = s_ins_results(v, inst_of(Opcode::Uextend, ValueType(I32), b, 0u32, 0u32, 0i64, IntCC::Equal, TrapCode::User(0), 0u8, 0i32, 0u32, 0u32), None, None);
    let v = s_ins(v, p, inst_of(Opcode::Uextend, ValueType(I32), b, 0u32, 0u32, 0i64, IntCC::Equal, TrapCode::User(0), 0u8, 0i32, 0u32, 0u32), None, None);
    let (x, _r1) = (new0, new1);
    let p = p + 1;
    let v = s_replace(v, inst, inst_of(Opcode::IntCompareImm, value_type_of(v, x), x, 0u32, 0u32, c, IntCC::Equal, TrapCode::User(0), 0u8, 0i32, 0u32, 0u32));
    Some(v)
}

/// Legalize a `int_compare_imm` instruction by widening, with its pattern number 10.
#[verifier::rlimit(100)]
fn widen_int_compare_imm_10(inst: Inst, pos: usize, d: InstData, func: &mut Function) -> (r: bool)
    requires
        pattern_input(old(func)@, inst, pos as int, d),
    ensures
        pattern_outcome(old(func)@, final(func)@, r, widen_int_compare_imm_10_spec(old(func)@, inst, pos as int, d)),
        final(func).encodings@ == old(func).encodings@,
        func_wf(final(func)@),
        r ==> final(func)@.0.len() > old(func)@.0.len(),
        keeps_before(old(func)@, final(func)@, inst, pos as int),
{
    proof {
        reveal(widen_int_compare_imm_10_spec);
    }
    let mut p = pos;
    let cond = d.cond;
    let b = d.arg0;
    let c = d.imm;
    let (x, _r1) = func.ins(p, make_inst(Opcode::Uextend, ValueType(I32), b, 0u32, 0u32, 0i64, IntCC::Equal, TrapCode::User(0), 0u8, 0i32, 0u32, 0u32), None, None);
    p = p + 1;
    let ty11 = func.value_type(x);
    func.replace(inst, make_inst(Opcode::IntCompareImm, ty11, x, 0u32, 0u32, c, IntCC::Equal, TrapCode::User(0), 0u8, 0i32, 0u32, 0u32));
    return true;
}

/// The function after the widening of a `int_compare_imm` instruction by its pattern number 11.
#[verifier::opaque]
pub open spec fn widen_int_compare_imm_11_spec(v: FuncView, inst: Inst, pos: int, d: InstData) -> Option<FuncView> {
    let p = pos;
    let cond = d.cond;
    let b = d.arg0;
    let c = d.imm;
    let (new0, new1) = s_ins_results(v, inst_of(Opcode::Uextend, ValueType(I32), b, 0u32, 0u32, 0i64, IntCC::Equal, TrapCode::User(0), 0u8, 0i32, 0u32, 0u32), None, None);
    let v = s_ins(v, p, inst_of(Opcode::Uextend, ValueType(I32), b, 0u32, 0u32, 0i64, IntCC::Equal, TrapCode::User(0), 0u8, 0i32, 0u32, 0u32), None, None);
    let (x, _r1) = (new0, new1);
    let p = p + 1;
    let v = s_replace(v, inst, inst_of(Opcode::IntCompareImm, value_type_of(v, x), x, 0u32, 0u32, c, IntCC::NotEqual, TrapCode::User(0), 0u8, 0i32, 0u32, 0u32));
    Some(v)
}

/// Legalize a `int_compare_imm` instruction by widening, with its pattern number 11.
#[verifier::rlimit(100)]
fn widen_int_compare_imm_11(inst: Inst, pos: usize, d: InstData, func: &mut Function) -> (r: bool)
    requires
        pattern_input(old(func)@, inst, pos as int, d),
    ensures
        pattern_outcome(old(func)@, final(func)@, r, widen_int_compare_imm_11_spec(old(func)@, inst, pos as int, d)),
        final(func).encodings@ == old(func).encodings@,
        func_wf(final(func)@),
        r ==> final(func)@.0.len() > old(func)@.0.len(),
        keeps_before(old(func)@, final(func)@, inst, pos as int),
{
    proof {
        reveal(widen_int_compare_imm_11_spec);
    }
    let mut p = pos;
    let cond = d.cond;
    let b = d.arg0;
    let c = d.imm;
    let (x, _r1) = func.ins(p, make_inst(Opcode::Uextend, ValueType(I32), b, 0u32, 0u32, 0i64, IntCC::Equal, TrapCode::User(0), 0u8, 0i32, 0u32, 0u32), None, None);
    p = p + 1;
    let ty12 = func.value_type(x);
    func.replace(inst, make_inst(Opcode::IntCompareImm, ty12, x, 0u32, 0u32, c, IntCC::NotEqual, TrapCode::User(0), 0u8, 0i32, 0u32, 0u32));
    return true;
}

/// The function after the widening of a `int_compare_imm` instruction by its pattern number 12.
#[verifier::opaque]
pub open spec fn widen_int_compare_imm_12_spec(v: FuncView, inst: Inst, pos: int, d: InstData) -> Option<FuncView> {
    let p = pos;
    let cond = d.cond;
    let b = d.arg0;
    let c = d.imm;
    let (new0, new1) = s_ins_results(v, inst_of(Opcode::Uextend, ValueType(I32), b, 0u32, 0u32, 0i64, IntCC::Equal, TrapCode::User(0), 0u8, 0i32, 0u32, 0u32), None, None);
    let v = s_ins(v, p, inst_of(Opcode::Uextend, ValueType(I32), b, 0u32, 0u32, 0i64, IntCC::Equal, TrapCode::User(0), 0u8, 0i32, 0u32, 0u32), None, None);
    let (x, _r1) = (new0, new1);
    let p = p + 1;
    let v = s_replace(v, inst, inst_of(Opcode::IntCompareImm, value_type_of(v, x), x, 0u32, 0u32, c, IntCC::UnsignedGreaterThan, TrapCode::User(0), 0u8, 0i32, 0u32, 0u32));
    Some(v)
}

/// Legalize a `int_compare_imm` instruction by widening, with its pattern number 12.
#[verifier::rlimit(100)]
fn widen_int_compare_imm_12(inst: Inst, pos: usize, d: InstData, func: &mut Function) -> (r: bool)
    requires
        pattern_input(old(func)@, inst, pos as int, d),
    ensures
        pattern_outcome(old(func)@, final(func)@, r, widen_int_compare_imm_12_spec(old(func)@, inst, pos as int, d)),
        final(func).encodings@ == old(func).encodings@,
        func_wf(final(func)@),
        r ==> final(func)@.0.len() > old(func)@.0.len(),
        keeps_before(old(func)@, final(func)@, inst, pos as int),
{
    proof {
        reveal(widen_int_compare_imm_12_spec);
    }
    let mut p = pos;
    let cond = d.cond;
    let b = d.arg0;
    let c = d.imm;
    let (x, _r1) = func.ins(p, make_inst(Opcode::Uextend, ValueType(I32), b, 0u32, 0u32, 0i64, IntCC::Equal, TrapCode::User(0), 0u8, 0i32, 0u32, 0u32), None, None);
    p = p + 1;
    let ty13 = func.value_type(x);
    func.replace(inst, make_inst(Opcode::IntCompareImm, ty13, x, 0u32, 0u32, c, IntCC::UnsignedGreaterThan, TrapCode::User(0), 0u8, 0i32, 0u32, 0u32));
    return true;
}

/// The function after the widening of a `int_compare_imm` instruction by its pattern number 13.
#[verifier::opaque]
pub open spec fn widen_int_compare_imm_13_spec(v: FuncView, inst: Inst, pos: int, d: InstData) -> Option<FuncView> {
    let p = pos;
    let cond = d.cond;
    let b = d.arg0;
    let c = d.imm;
    let (new0, new1) = s_ins_results(v, inst_of(Opcode::Uextend, ValueType(I32), b, 0u32, 0u32, 0i64, IntCC::Equal, TrapCode::User(0), 0u8, 0i32, 0u32, 0u32), None, None);
    let v = s_ins(v, p, inst_of(Opcode::Uextend, ValueType(I32), b, 0u32, 0u32, 0i64, IntCC::Equal, TrapCode::User(0), 0u8, 0i32, 0u32, 0u32), None, None);
    let (x, _r1) = (new0, new1);
    let p = p + 1;
    let v = s_replace(v, inst, inst_of(Opcode::IntCompareImm, value_type_of(v, x), x, 0u32, 0u32, c, IntCC::UnsignedLessThan, TrapCode::User(0), 0u8, 0i32, 0u32, 0u32));
    Some(v)
}

/// Legalize a `int_compare_imm` instruction by widening, with its pattern number 13.
#[verifier::rlimit(100)]
fn widen_int_compare_imm_13(inst: Inst, pos: usize, d: InstData, func: &mut Function) -> (r: bool)
    requires
        pattern_input(old(func)@, inst, pos as int, d),
    ensures
        pattern_outcome(old(func)@, final(func)@, r, widen_int_compare_imm_13_spec(old(func)@, inst, pos as int, d)),
        final(func).encodings@ == old(func).encodings@,
        func_wf(final(func)@),
        r ==> final(func)@.0.len() > old(func)@.0.len(),
        keeps_before(old(func)@, final(func)@, inst, pos as int),
{
    proof {
        reveal(widen_int_compare_imm_13_spec);
    }
    let mut p = pos;
    let cond = d.cond;
    let b = d.arg0;
    let c = d.imm;
    let (x, _r1) = func.ins(p, make_inst(Opcode::Uextend, ValueType(I32), b, 0u32, 0u32, 0i64, IntCC::Equal, TrapCode::User(0), 0u8, 0i32, 0u32, 0u32), None, None);
    p = p + 1;
    let ty14 = func.value_type(x);
    func.replace(inst, make_inst(Opcode::IntCompareImm, ty14, x, 0u32, 0u32, c, IntCC::UnsignedLessThan, TrapCode::User(0), 0u8, 0i32, 0u32, 0u32));
    return true;
}

/// The function after the widening of a `int_compare_imm` instruction by its pattern number 14.
#[verifier::opaque]
pub open spec fn widen_int_compare_imm_14_spec(v: FuncView, inst: Inst, pos: int, d: InstData) -> Option<FuncView> {
    let p = pos;
    let cond = d.cond;
    let b = d.arg0;
    let c = d.imm;
    let (new0, new1) = s_ins_results(v, inst_of(Opcode::Uextend, ValueType(I32), b, 0u32, 0u32, 0i64, IntCC::Equal, TrapCode::User(0), 0u8, 0i32, 0u32, 0u32), None, None);
    let v = s_ins(v, p, inst_of(Opcode::Uextend, ValueType(I32), b, 0u32, 0u32, 0i64, IntCC::Equal, TrapCode::User(0), 0u8, 0i32, 0u32, 0u32), None, None);
    let (x, _r1) = (new0, new1);
    let p = p + 1;
    let v = s_replace(v, inst, inst_of(Opcode::IntCompareImm, value_type_of(v, x), x, 0u32, 0u32, c, IntCC::UnsignedGreaterThanOrEqual, TrapCode::User(0), 0u8, 0i32, 0u32, 0u32));
    Some(v)
}

/// Legalize a `int_compare_imm` instruction by widening, with its pattern number 14.
#[verifier::rlimit(100)]
fn widen_int_compare_imm_14(inst: Inst, pos: usize, d: InstData, func: &mut Function) -> (r: bool)
    requires
        pattern_input(old(func)@, inst, pos as int, d),
    ensures
        pattern_outcome(old(func)@, final(func)@, r, widen_int_compare_imm_14_spec(old(func)@, inst, pos as int, d)),
        final(func).encodings@ == old(func).encodings@,
        func_wf(final(func)@),
        r ==> final(func)@.0.len() > old(func)@.0.len(),
        keeps_before(old(func)@, final(func)@, inst, pos as int),
{
    proof {
        reveal(widen_int_compare_imm_14_spec);
    }
    let mut p = pos;
    let cond = d.cond;
    let b = d.arg0;
    let c = d.imm;
    let (x, _r1) = func.ins(p, make_inst(Opcode::Uextend, ValueType(I32), b, 0u32, 0u32, 0i64, IntCC::Equal, TrapCode::User(0), 0u8, 0i32, 0u32, 0u32), None, None);
    p = p + 1;
    let ty15 = func.value_type(x);
    func.replace(inst, make_inst(Opcode::IntCompareImm, ty15, x, 0u32, 0u32, c, IntCC::UnsignedGreaterThanOrEqual, TrapCode::User(0), 0u8, 0i32, 0u32, 0u32));
    return true;
}

/// The function after the widening of a `int_compare_imm` instruction by its pattern number 15.
#[verifier::opaque]
pub open spec fn widen_int_compare_imm_15_spec(v: FuncView, inst: Inst, pos: int, d: InstData) -> Option<FuncView> {
    let p = pos;
    let cond = d.cond;
    let b = d.arg0;
    let c = d.imm;
    let (new0, new1) = s_ins_results(v, inst_of(Opcode::Uextend, ValueType(I32), b, 0u32, 0u32, 0i64, IntCC::Equal, TrapCode::User(0), 0u8, 0i32, 0u32, 0u32), None, None);
    let v = s_ins(v, p, inst_of(Opcode::Uextend, ValueType(I32), b, 0u32, 0u32, 0i64, IntCC::Equal, TrapCode::User(0), 0u8, 0i32, 0u32, 0u32), None, None);
    let (x, _r1) = (new0, new1);
    let p = p + 1;
    let v = s_replace(v, inst, inst_of(Opcode::IntCompareImm, value_type_of(v, x), x, 0u32, 0u32, c, IntCC::UnsignedLessThanOrEqual, TrapCode::User(0), 0u8, 0i32, 0u32, 0u32));
    Some(v)
}

/// Legalize a `int_compare_imm` instruction by widening, with its pattern number 15.
#[verifier::rlimit(100)]
fn widen_int_compare_imm_15(inst: Inst, pos: usize, d: InstData, func: &mut Function) -> (r: bool)
    requires
        pattern_input(old(func)@, inst, pos as int, d),
    ensures
        pattern_outcome(old(func)@, final(func)@, r, widen_int_compare_imm_15_spec(old(func)@, inst, pos as int, d)),
        final(func).encodings@ == old(func).encodings@,
        func_wf(final(func)@),
        r ==> final(func)@.0.len() > old(func)@.0.len(),
        keeps_before(old(func)@, final(func)@, inst, pos as int),
{
    proof {
        reveal(widen_int_compare_imm_15_spec);
    }
    let mut p = pos;
    let cond = d.cond;
    let b = d.arg0;
    let c = d.imm;
    let (x, _r1) = func.ins(p, make_inst(Opcode::Uextend, ValueType(I32), b, 0u32, 0u32, 0i64, IntCC::Equal, TrapCode::User(0), 0u8, 0i32, 0u32, 0u32), None, None);
    p = p + 1;
    let ty16 = func.value_type(x);
    func.replace(inst, make_inst(Opcode::IntCompareImm, ty16, x, 0u32, 0u32, c, IntCC::UnsignedLessThanOrEqual, TrapCode::User(0), 0u8, 0i32, 0u32, 0u32));
    return true;
}

/// The function after the widening of a `int_compare_imm` instruction by its pattern number 16.
#[verifier::opaque]
pub open spec fn widen_int_compare_imm_16_spec(v: FuncView, inst: Inst, pos: int, d: InstData) -> Option<FuncView> {
    let p = pos;
    let cond = d.cond;
    let b = d.arg0;
    let c = d.imm;
    let (new0, new1) = s_ins_results(v, inst_of(Opcode::Sextend, ValueType(I32), b, 0u32, 0u32, 0i64, IntCC::Equal, TrapCode::User(0), 0u8, 0i32, 0u32, 0u32), None, None);
    let v = s_ins(v, p, inst_of(Opcode::Sextend, ValueType(I32), b, 0u32, 0u32, 0i64, IntCC::Equal, TrapCode::User(0), 0u8, 0i32, 0u32, 0u32), None, None);
    let (x, _r1) = (new0, new1);
    let p = p + 1;
    let v = s_replace(v, inst, inst_of(Opcode::IntCompareImm, value_type_of(v, x), x, 0u32, 0u32, c, IntCC::SignedGreaterThan, TrapCode::User(0), 0u8, 0i32, 0u32, 0u32));
    Some(v)
}

/// Legalize a `int_compare_imm` instruction by widening, with its pattern number 16.
#[verifier::rlimit(100)]
fn widen_int_compare_imm_16(inst: Inst, pos: usize, d: InstData, func: &mut Function) -> (r: bool)
    requires
        pattern_input(old(func)@, inst, pos as int, d),
    ensures
        pattern_outcome(old(func)@, final(func)@, r, widen_int_compare_imm_16_spec(old(func)@, inst, pos as int, d)),
        final(func).encodings@ == old(func).encodings@,
        func_wf(final(func)@),
        r ==> final(func)@.0.len() > old(func)@.0.len(),
        keeps_before(old(func)@, final(func)@, inst, pos as int),
{
    proof {
        reveal(widen_int_compare_imm_16_spec);
    }
    let mut p = pos;
    let cond = d.cond;
    let b = d.arg0;
    let c = d.imm;
    let (x, _r1) = func.ins(p, make_inst(Opcode::Sextend, ValueType(I32), b, 0u32, 0u32, 0i64, IntCC::Equal, TrapCode::User(0), 0u8, 0i32, 0u32, 0u32), None, None);
    p = p + 1;
    let ty17 = func.value_type(x);
    func.replace(inst, make_inst(Opcode::IntCompareImm, ty17, x, 0u32, 0u32, c, IntCC::SignedGreaterThan, TrapCode::User(0), 0u8, 0i32, 0u32, 0u32));
    return true;
}

/// The function after the widening of a `int_compare_imm` instruction by its pattern number 17.
#[verifier::opaque]
pub open spec fn widen_int_compare_imm_17_spec(v: FuncView, inst: Inst, pos: int, d: InstData) -> Option<FuncView> {
    let p = pos;
    let cond = d.cond;
    let b = d.arg0;
    let c = d.imm;
    let (new0, new1) = s_ins_results(v, inst_of(Opcode::Sextend, ValueType(I32), b, 0u32, 0u32, 0i64, IntCC::Equal, TrapCode::User(0), 0u8, 0i32, 0u32, 0u32), None, None);
    let v = s_ins(v, p, inst_of(Opcode::Sextend, ValueType(I32), b, 0u32, 0u32, 0i64, IntCC::Equal, TrapCode::User(0), 0u8, 0i32, 0u32, 0u32), None, None);
    let (x, _r1) = (new0, new1);
    let p = p + 1;
    let v = s_replace(v, inst, inst_of(Opcode::IntCompareImm, value_type_of(v, x), x, 0u32, 0u32, c, IntCC::SignedLessThan, TrapCode::User(0), 0u8, 0i32, 0u32, 0u32));
    Some(v)
}

/// Legalize a `int_compare_imm` instruction by widening, with its pattern number 17.
#[verifier::rlimit(100)]
fn widen_int_compare_imm_17(inst: Inst, pos: usize, d: InstData, func: &mut Function) -> (r: bool)
    requires
        pattern_input(old(func)@, inst, pos as int, d),
    ensures
        pattern_outcome(old(func)@, final(func)@, r, widen_int_compare_imm_17_spec(old(func)@, inst, pos as int, d)),
        final(func).encodings@ == old(func).encodings@,
        func_wf(final(func)@),
        r ==> final(func)@.0.len() > old(func)@.0.len(),
        keeps_before(old(func)@, final(func)@, inst, pos as int),
{
    proof {
        reveal(widen_int_compare_imm_17_spec);
    }
    let mut p = pos;
    let cond = d.cond;
    let b = d.arg0;
    let c = d.imm;
    let (x, _r1) = func.ins(p, make_inst(Opcode::Sextend, ValueType(I32), b, 0u32, 0u32, 0i64, IntCC::Equal, TrapCode::User(0), 0u8, 0i32, 0u32, 0u32), None, None);
    p = p + 1;
    let ty18 = func.value_type(x);
    func.replace(inst, make_inst(Opcode::IntCompareImm, ty18, x, 0u32, 0u32, c, IntCC::SignedLessThan, TrapCode::User(0), 0u8, 0i32, 0u32, 0u32));
    return true;
}

/// The function after the widening of a `int_compare_imm` instruction by its pattern number 18.
#[verifier::opaque]
pub open spec fn widen_int_compare_imm_18_spec(v: FuncView, inst: Inst, pos: int, d: InstData) -> Option<FuncView> {
    let p = pos;
    let cond = d.cond;
    let b = d.arg0;
    let c = d.imm;
    let (new0, new1) = s_ins_results(v, inst_of(Opcode::Sextend, ValueType(I32), b, 0u32, 0u32, 0i64, IntCC::Equal, TrapCode::User(0), 0u8, 0i32, 0u32, 0u32), None, None);
    let v = s_ins(v, p, inst_of(Opcode::Sextend, ValueType(I32), b, 0u32, 0u32, 0i64, IntCC::Equal, TrapCode::User(0), 0u8, 0i32, 0u32, 0u32), None, None);
    let (x, _r1) = (new0, new1);
    let p = p + 1;
    let v = s_replace(v, inst, inst_of(Opcode::IntCompareImm, value_type_of(v, x), x, 0u32, 0u32, c, IntCC::SignedGreaterThanOrEqual, TrapCode::User(0), 0u8, 0i32, 0u32, 0u32));
    Some(v)
}

/// Legalize a `int_compare_imm` instruction by widening, with its pattern number 18.
#[verifier::rlimit(100)]
fn widen_int_compare_imm_18(inst: Inst, pos: usize, d: InstData, func: &mut Function) -> (r: bool)
    requires
        pattern_input(old(func)@, inst, pos as int, d),
    ensures
        pattern_outcome(old(func)@, final(func)@, r, widen_int_compare_imm_18_spec(old(func)@, inst, pos as int, d)),
        final(func).encodings@ == old(func).encodings@,
        func_wf(final(func)@),
        r ==> final(func)@.0.len() > old(func)@.0.len(),
        keeps_before(old(func)@, final(func)@, inst, pos as int),
{
    proof {
        reveal(widen_int_compare_imm_18_spec);
    }
    let mut p = pos;
    let cond = d.cond;
    let b = d.arg0;
    let c = d.imm;
    let (x, _r1) = func.ins(p, make_inst(Opcode::Sextend, ValueType(I32), b, 0u32, 0u32, 0i64, IntCC::Equal, TrapCode::User(0), 0u8, 0i32, 0u32, 0u32), None, None);
    p = p + 1;
    let ty19 = func.value_type(x);
    func.replace(inst, make_inst(Opcode::IntCompareImm, ty19, x, 0u32, 0u32, c, IntCC::SignedGreaterThanOrEqual, TrapCode::User(0), 0u8, 0i32, 0u32, 0u32));
    return true;
}

/// The function after the widening of a `int_compare_imm` instruction by its pattern number 19.
#[verifier::opaque]
pub open spec fn widen_int_compare_imm_19_spec(v: FuncView, inst: Inst, pos: int, d: InstData) -> Option<FuncView> {
    let p = pos;
    let cond = d.cond;
    let b = d.arg0;
    let c = d.imm;
    let (new0, new1) = s_ins_results(v, inst_of(Opcode::Sextend, ValueType(I32), b, 0u32, 0u32, 0i64, IntCC::Equal, TrapCode::User(0), 0u8, 0i32, 0u32, 0u32), None, None);
    let v = s_ins(v, p, inst_of(Opcode::Sextend, ValueType(I32), b, 0u32, 0u32, 0i64, IntCC::Equal, TrapCode::User(0), 0u8, 0i32, 0u32, 0u32), None, None);
    let (x, _r1) = (new0, new1);
    let p = p + 1;
    let v = s_replace(v, inst, inst_of(Opcode::IntCompareImm, value_type_of(v, x), x, 0u32, 0u32, c, IntCC::SignedLessThanOrEqual, TrapCode::User(0), 0u8, 0i32, 0u32, 0u32));
    Some(v)
}

/// Legalize a `int_compare_imm` instruction by widening, with its pattern number 19.
#[verifier::rlimit(100)]
fn widen_int_compare_imm_19(inst: Inst, pos: usize, d: InstData, func: &mut Function) -> (r: bool)
    requires
        pattern_input(old(func)@, inst, pos as int, d),
    ensures
        pattern_outcome(old(func)@, final(func)@, r, widen_int_compare_imm_19_spec(old(func)@, inst, pos as int, d)),
        final(func).encodings@ == old(func).encodings@,
        func_wf(final(func)@),
        r ==> final(func)@.0.len() > old(func)@.0.len(),
        keeps_before(old(func)@, final(func)@, inst, pos as int),
{
    proof {
        reveal(widen_int_compare_imm_19_spec);
    }
    let mut p = pos;
    let cond = d.cond;
    let b = d.arg0;
    let c = d.imm;
    let (x, _r1) = func.ins(p, make_inst(Opcode::Sextend, ValueType(I32), b, 0u32, 0u32, 0i64, IntCC::Equal, TrapCode::User(0), 0u8, 0i32, 0u32, 0u32), None, None);
    p = p + 1;
    let ty20 = func.value_type(x);
    func.replace(inst, make_inst(Opcode::IntCompareImm, ty20, x, 0u32, 0u32, c, IntCC::SignedLessThanOrEqual, TrapCode::User(0), 0u8, 0i32, 0u32, 0u32));
    return true;
}

/// The function after the widening of a `int_compare_imm` instruction, or `None` where no pattern applies.
#[verifier::opaque]
pub open spec fn widen_int_compare_imm_spec(v: FuncView, inst: Inst, pos: int, d: InstData) -> Option<FuncView> {
    let p = pos;
    let cond = d.cond;
    let b = d.arg0;
    let c = d.imm;
    if cond == IntCC::Equal && value_type_of(v, d.arg0) == ValueType(I8) {
        widen_int_compare_imm_0_spec(v, inst, pos, d)
    } else if cond == IntCC::NotEqual && value_type_of(v, d.arg0) == ValueType(I8) {
        widen_int_compare_imm_1_spec(v, inst, pos, d)
    } else if cond == IntCC::UnsignedGreaterThan && value_type_of(v, d.arg0) == ValueType(I8) {
        widen_int_compare_imm_2_spec(v, inst, pos, d)
    } else if cond == IntCC::UnsignedLessThan && value_type_of(v, d.arg0) == ValueType(I8) {
        widen_int_compare_imm_3_spec(v, inst, pos, d)
    } else if cond == IntCC::UnsignedGreaterThanOrEqual && value_type_of(v, d.arg0) == ValueType(I8) {
        widen_int_compare_imm_4_spec(v, inst, pos, d)
    } else if cond == IntCC::UnsignedLessThanOrEqual && value_type_of(v, d.arg0) == ValueType(I8) {
        widen_int_compare_imm_5_spec(v, inst, pos, d)
    } else if cond == IntCC::SignedGreaterThan && value_type_of(v, d.arg0) == ValueType(I8) {
        widen_int_compare_imm_6_spec(v, inst, pos, d)
    } else if cond == IntCC::SignedLessThan && value_type_of(v, d.arg0) == ValueType(I8) {
        widen_int_compare_imm_7_spec(v, inst, pos, d)
    } else if cond == IntCC::SignedGreaterThanOrEqual && value_type_of(v, d.arg0) == ValueType(I8) {
        widen_int_compare_imm_8_spec(v, inst, pos, d)
    } else if cond == IntCC::SignedLessThanOrEqual && value_type_of(v, d.arg0) == ValueType(I8) {
        widen_int_compare_imm_9_spec(v, inst, pos, d)
    } else if cond == IntCC::Equal && value_type_of(v, d.arg0) == ValueType(I16) {
        widen_int_compare_imm_10_spec(v, inst, pos, d)
    } else if cond == IntCC::NotEqual && value_type_of(v, d.arg0) == ValueType(I16) {
        widen_int_compare_imm_11_spec(v, inst, pos, d)
    } else if cond == IntCC::UnsignedGreaterThan && value_type_of(v, d.arg0) == ValueType(I16) {
        widen_int_compare_imm_12_spec(v, inst, pos, d)
    } else if cond == IntCC::UnsignedLessThan && value_type_of(v, d.arg0) == ValueType(I16) {
        widen_int_compare_imm_13_spec(v, inst, pos, d)
    } else if cond == IntCC::UnsignedGreaterThanOrEqual && value_type_of(v, d.arg0) == ValueType(I16) {
        widen_int_compare_imm_14_spec(v, inst, pos, d)
    } else if cond == IntCC::UnsignedLessThanOrEqual && value_type_of(v, d.arg0) == ValueType(I16) {
        widen_int_compare_imm_15_spec(v, inst, pos, d)
    } else if cond == IntCC::SignedGreaterThan && value_type_of(v, d.arg0) == ValueType(I16) {
        widen_int_compare_imm_16_spec(v, inst, pos, d)
    } else if cond == IntCC::SignedLessThan && value_type_of(v, d.arg0) == ValueType(I16) {
        widen_int_compare_imm_17_spec(v, inst, pos, d)
    } else if cond == IntCC::SignedGreaterThanOrEqual && value_type_of(v, d.arg0) == ValueType(I16) {
        widen_int_compare_imm_18_spec(v, inst, pos, d)
    } else if cond == IntCC::SignedLessThanOrEqual && value_type_of(v, d.arg0) == ValueType(I16) {
        widen_int_compare_imm_19_spec(v, inst, pos, d)
    } else {
        None
    }
}

/// Legalize a `int_compare_imm` instruction by widening.
fn widen_int_compare_imm(inst: Inst, pos: usize, d: InstData, func: &mut Function) -> (r: bool)
    requires
        pattern_input(old(func)@, inst, pos as int, d),
    ensures
        pattern_outcome(old(func)@, final(func)@, r, widen_int_compare_imm_spec(old(func)@, inst, pos as int, d)),
        final(func).encodings@ == old(func).encodings@,
        func_wf(final(func)@),
        r ==> final(func)@.0.len() > old(func)@.0.len(),
        keeps_before(old(func)@, final(func)@, inst, pos as int),
{
    proof {
        reveal(widen_int_compare_imm_spec);
    }
    let mut p = pos;
    let cond = d.cond;
    let b = d.arg0;
    let c = d.imm;
    if is_equal(cond, IntCC::Equal) && func.value_type(d.arg0) == ValueType(I8) {
        return widen_int_compare_imm_0(inst, pos, d, func);
    }
    if is_equal(cond, IntCC::NotEqual) && func.value_type(d.arg0) == ValueType(I8) {
        return widen_int_compare_imm_1(inst, pos, d, func);
    }
    if is_equal(cond, IntCC::UnsignedGreaterThan) && func.value_type(d.arg0) == ValueType(I8) {
        return widen_int_compare_imm_2(inst, pos, d, func);
    }
    if is_equal(cond, IntCC::UnsignedLessThan) && func.value_type(d.arg0) == ValueType(I8) {
        return widen_int_compare_imm_3(inst, pos, d, func);
    }
    if is_equal(cond, IntCC::UnsignedGreaterThanOrEqual) && func.value_type(d.arg0) == ValueType(I8) {
        return widen_int_compare_imm_4(inst, pos, d, func);
    }
    if is_equal(cond, IntCC::UnsignedLessThanOrEqual) && func.value_type(d.arg0) == ValueType(I8) {
        return widen_int_compare_imm_5(inst, pos, d, func);
    }
    if is_equal(cond, IntCC::SignedGreaterThan) && func.value_type(d.arg0) == ValueType(I8) {
        return widen_int_compare_imm_6(inst, pos, d, func);
    }
    if is_equal(cond, IntCC::SignedLessThan) && func.value_type(d.arg0) == ValueType(I8) {
        return widen_int_compare_imm_7(inst, pos, d, func);
    }
    if is_equal(cond, IntCC::SignedGreaterThanOrEqual) && func.value_type(d.arg0) == ValueType(I8) {
        return widen_int_compare_imm_8(inst, pos, d, func);
    }
    if is_equal(cond, IntCC::SignedLessThanOrEqual) && func.value_type(d.arg0) == ValueType(I8) {
        return widen_int_compare_imm_9(inst, pos, d, func);
    }
    if is_equal(cond, IntCC::Equal) && func.value_type(d.arg0) == ValueType(I16) {
        return widen_int_compare_imm_10(inst, pos, d, func);
    }
    if is_equal(cond, IntCC::NotEqual) && func.value_type(d.arg0) == ValueType(I16) {
        return widen_int_compare_imm_11(inst, pos, d, func);
    }
    if is_equal(cond, IntCC::UnsignedGreaterThan) && func.value_type(d.arg0) == ValueType(I16) {
        return widen_int_compare_imm_12(inst, pos, d, func);
    }
    if is_equal(cond, IntCC::UnsignedLessThan) && func.value_type(d.arg0) == ValueType(I16) {
        return widen_int_compare_imm_13(inst, pos, d, func);
    }
    if is_equal(cond, IntCC::UnsignedGreaterThanOrEqual) && func.value_type(d.arg0) == ValueType(I16) {
        return widen_int_compare_imm_14(inst, pos, d, func);
    }
    if is_equal(cond, IntCC::UnsignedLessThanOrEqual) && func.value_type(d.arg0) == ValueType(I16) {
        return widen_int_compare_imm_15(inst, pos, d, func);
    }
    if is_equal(cond, IntCC::SignedGreaterThan) && func.value_type(d.arg0) == ValueType(I16) {
        return widen_int_compare_imm_16(inst, pos, d, func);
    }
    if is_equal(cond, IntCC::SignedLessThan) && func.value_type(d.arg0) == ValueType(I16) {
        return widen_int_compare_imm_17(inst, pos, d, func);
    }
    if is_equal(cond, IntCC::SignedGreaterThanOrEqual) && func.value_type(d.arg0) == ValueType(I16) {
        return widen_int_compare_imm_18(inst, pos, d, func);
    }
    if is_equal(cond, IntCC::SignedLessThanOrEqual) && func.value_type(d.arg0) == ValueType(I16) {
        return widen_int_compare_imm_19(inst, pos, d, func);
    }
    false
}

/// The function after the widening of a `iconst` instruction, or `None` where no pattern applies.
#[verifier::opaque]
pub open spec fn widen_iconst_spec(v: FuncView, inst: Inst, pos: int, d: InstData) -> Option<FuncView> {
    let p = pos;
    let b = d.imm;
    if d.ctrl == ValueType(I8) {
        let (new0, new1) = s_ins_results(v, inst_of(Opcode::Iconst, ValueType(I32), 0u32, 0u32, 0u32, b, IntCC::Equal, TrapCode::User(0), 0u8, 0i32, 0u32, 0u32), None, None);
        let v = s_ins(v, p, inst_of(Opcode::Iconst, ValueType(I32), 0u32, 0u32, 0u32, b, IntCC::Equal, TrapCode::User(0), 0u8, 0i32, 0u32, 0u32), None, None);
        let (c, _r1) = (new0, new1);
        let p = p + 1;
        let v = s_replace(v, inst, inst_of(Opcode::Ireduce, ValueType(I8), c, 0u32, 0u32, 0i64, IntCC::Equal, TrapCode::User(0), 0u8, 0i32, 0u32, 0u32));
        Some(v)
} else {
    if d.ctrl == ValueType(I16) {
        let (new0, new1) = s_ins_results(v, inst_of(Opcode::Iconst, ValueType(I32), 0u32, 0u32, 0u32, b, IntCC::Equal, TrapCode::User(0), 0u8, 0i32, 0u32, 0u32), None, None);
        let v = s_ins(v, p, inst_of(Opcode::Iconst, ValueType(I32), 0u32, 0u32, 0u32, b, IntCC::Equal, TrapCode::User(0), 0u8, 0i32, 0u32, 0u32), None, None);
        let (c, _r1) = (new0, new1);
        let p = p + 1;
        let v = s_replace(v, inst, inst_of(Opcode::Ireduce, ValueType(I16), c, 0u32, 0u32, 0i64, IntCC::Equal, TrapCode::User(0), 0u8, 0i32, 0u32, 0u32));
        Some(v)
} else {
    None
}
}
}

/// Legalize a `iconst` instruction by widening.
fn widen_iconst(inst: Inst, pos: usize, d: InstData, func: &mut Function) -> (r: bool)
    requires
        pattern_input(old(func)@, inst, pos as int, d),
    ensures
        pattern_outcome(old(func)@, final(func)@, r, widen_iconst_spec(old(func)@, inst, pos as int, d)),
        final(func).encodings@ == old(func).encodings@,
        func_wf(final(func)@),
        r ==> final(func)@.0.len() > old(func)@.0.len(),
        keeps_before(old(func)@, final(func)@, inst, pos as int),
{
    proof {
        reveal(widen_iconst_spec);
    }
    let mut p = pos;
    let b = d.imm;
    if d.ctrl == ValueType(I8) {
        let (c, _r1) = func.ins(p, make_inst(Opcode::Iconst, ValueType(I32), 0u32, 0u32, 0u32, b, IntCC::Equal, TrapCode::User(0), 0u8, 0i32, 0u32, 0u32), None, None);
        p = p + 1;
        func.replace(inst, make_inst(Opcode::Ireduce, ValueType(I8), c, 0u32, 0u32, 0i64, IntCC::Equal, TrapCode::User(0), 0u8, 0i32, 0u32, 0u32));
        return true;
    }
    if d.ctrl == ValueType(I16) {
        let (c, _r1) = func.ins(p, make_inst(Opcode::Iconst, ValueType(I32), 0u32, 0u32, 0u32, b, IntCC::Equal, TrapCode::User(0), 0u8, 0i32, 0u32, 0u32), None, None);
        p = p + 1;
        func.replace(inst, make_inst(Opcode::Ireduce, ValueType(I16), c, 0u32, 0u32, 0i64, IntCC::Equal, TrapCode::User(0), 0u8, 0i32, 0u32, 0u32));
        return true;
    }
    false
}

/// The function after the widening of a `imul` instruction, or `None` where no pattern applies.
#[verifier::opaque]
pub open spec fn widen_imul_spec(v: FuncView, inst: Inst, pos: int, d: InstData) -> Option<FuncView> {
    let p = pos;
    let b = d.arg0;
    let c = d.arg1;
    if value_type_of(v, d.arg0) == ValueType(I8) {
        let (new0, new1) = s_ins_results(v, inst_of(Opcode::Uextend, ValueType(I32), b, 0u32, 0u32, 0i64, IntCC::Equal, TrapCode::User(0), 0u8, 0i32, 0u32, 0u32), None, None);
        let v = s_ins(v, p, inst_of(Opcode::Uextend, ValueType(I32), b, 0u32, 0u32, 0i64, IntCC::Equal, TrapCode::User(0), 0u8, 0i32, 0u32, 0u32), None, None);
        let (x, _r1) = (new0, new1);
        let p = p + 1;
        let (new0, new1) = s_ins_results(v, inst_of(Opcode::Uextend, ValueType(I32), c, 0u32, 0u32, 0i64, IntCC::Equal, TrapCode::User(0), 0u8, 0i32, 0u32, 0u32), None, None);
        let v = s_ins(v, p, inst_of(Opcode::Uextend, ValueType(I32), c, 0u32, 0u32, 0i64, IntCC::Equal, TrapCode::User(0), 0u8, 0i32, 0u32, 0u32), None, None);
        let (y, _r1) = (new0, new1);
        let p = p + 1;
        let (new0, new1) = s_ins_results(v, inst_of(Opcode::Imul, value_type_of(v, x), x, y, 0u32, 0i64, IntCC::Equal, TrapCode::User(0), 0u8, 0i32, 0u32, 0u32), None, None);
        let v = s_ins(v, p, inst_of(Opcode::Imul, value_type_of(v, x), x, y, 0u32, 0i64, IntCC::Equal, TrapCode::User(0), 0u8, 0i32, 0u32, 0u32), None, None);
        let (z, _r1) = (new0, new1);
        let p = p + 1;
        let v = s_replace(v, inst, inst_of(Opcode::Ireduce, ValueType(I8), z, 0u32, 0u32, 0i64, IntCC::Equal, TrapCode::User(0), 0u8, 0i32, 0u32, 0u32));
        Some(v)
} else {
    if value_type_of(v, d.arg0) == ValueType(I16) {
        let (new0, new1) = s_ins_results(v, inst_of(Opcode::Uextend, ValueType(I32), b, 0u32, 0u32, 0i64, IntCC::Equal, TrapCode::User(0), 0u8, 0i32, 0u32, 0u32), None, None);
        let v = s_ins(v, p, inst_of(Opcode::Uextend, ValueType(I32), b, 0u32, 0u32, 0i64, IntCC::Equal, TrapCode::User(0), 0u8, 0i32, 0u32, 0u32), None, None);
        let (x, _r1) = (new0, new1);
        let p = p + 1;
        let (new0, new1) = s_ins_results(v, inst_of(Opcode::Uextend, ValueType(I32), c, 0u32, 0u32, 0i64, IntCC::Equal, TrapCode::User(0), 0u8, 0i32, 0u32, 0u32), None, None);
        let v = s_ins(v, p, inst_of(Opcode::Uextend, ValueType(I32), c, 0u32, 0u32, 0i64, IntCC::Equal, TrapCode::User(0), 0u8, 0i32, 0u32, 0u32), None, None);
        let (y, _r1) = (new0, new1);
        let p = p + 1;
        let (new0, new1) = s_ins_results(v, inst_of(Opcode::Imul, value_type_of(v, x), x, y, 0u32, 0i64, IntCC::Equal, TrapCode::User(0), 0u8, 0i32, 0u32, 0u32), None, None);
        let v = s_ins(v, p, inst_of(Opcode::Imul, value_type_of(v, x), x, y, 0u32, 0i64, IntCC::Equal, TrapCode::User(0), 0u8, 0i32, 0u32, 0u32), None, None);
        let (z, _r1) = (new0, new1);
        let p = p + 1;
        let v = s_replace(v, inst, inst_of(Opcode::Ireduce, ValueType(I16), z, 0u32, 0u32, 0i64, IntCC::Equal, TrapCode::User(0), 0u8, 0i32, 0u32, 0u32));
        Some(v)
} else {
    None
}
}
}

/// Legalize a `imul` instruction by widening.
fn widen_imul(inst: Inst, pos: usize, d: InstData, func: &mut Function) -> (r: bool)
    requires
        pattern_input(old(func)@, inst, pos as int, d),
    ensures
        pattern_outcome(old(func)@, final(func)@, r, widen_imul_spec(old(func)@, inst, pos as int, d)),
        final(func).encodings@ == old(func).encodings@,
        func_wf(final(func)@),
        r ==> final(func)@.0.len() > old(func)@.0.len(),
        keeps_before(old(func)@, final(func)@, inst, pos as int),
{
    proof {
        reveal(widen_imul_spec);
    }
    let mut p = pos;
    let b = d.arg0;
    let c = d.arg1;
    if func.value_type(d.arg0) == ValueType(I8) {
        let (x, _r1) = func.ins(p, make_inst(Opcode::Uextend, ValueType(I32), b, 0u32, 0u32, 0i64, IntCC::Equal, TrapCode::User(0), 0u8, 0i32, 0u32, 0u32), None, None);
        p = p + 1;
        let (y, _r1) = func.ins(p, make_inst(Opcode::Uextend, ValueType(I32), c, 0u32, 0u32, 0i64, IntCC::Equal, TrapCode::User(0), 0u8, 0i32, 0u32, 0u32), None, None);
        p = p + 1;
        let ty1 = func.value_type(x);
        let (z, _r1) = func.ins(p, make_inst(Opcode::Imul, ty1, x, y, 0u32, 0i64, IntCC::Equal, TrapCode::User(0), 0u8, 0i32, 0u32, 0u32), None, None);
        p = p + 1;
        func.replace(inst, make_inst(Opcode::Ireduce, ValueType(I8), z, 0u32, 0u32, 0i64, IntCC::Equal, TrapCode::User(0), 0u8, 0i32, 0u32, 0u32));
        return true;
    }
    if func.value_type(d.arg0) == ValueType(I16) {
        let (x, _r1) = func.ins(p, make_inst(Opcode::Uextend, ValueType(I32), b, 0u32, 0u32, 0i64, IntCC::Equal, TrapCode::User(0), 0u8, 0i32, 0u32, 0u32), None, None);
        p = p + 1;
        let (y, _r1) = func.ins(p, make_inst(Opcode::Uextend, ValueType(I32), c, 0u32, 0u32, 0i64, IntCC::Equal, TrapCode::User(0), 0u8, 0i32, 0u32, 0u32), None, None);
        p = p + 1;
        let ty2 = func.value_type(x);
        let (z, _r1) = func.ins(p, make_inst(Opcode::Imul, ty2, x, y, 0u32, 0i64, IntCC::Equal, TrapCode::User(0), 0u8, 0i32, 0u32, 0u32), None, None);
        p = p + 1;
        func.replace(inst, make_inst(Opcode::Ireduce, ValueType(I16), z, 0u32, 0u32, 0i64, IntCC::Equal, TrapCode::User(0), 0u8, 0i32, 0u32, 0u32));
        return true;
    }
    false
}

/// The function after the widening of a `imul_imm` instruction, or `None` where no pattern applies.
#[verifier::opaque]
pub open spec fn widen_imul_imm_spec(v: FuncView, inst: Inst, pos: int, d: InstData) -> Option<FuncView> {
    let p = pos;
    let b = d.arg0;
    let c = d.imm;
    if value_type_of(v, d.arg0) == ValueType(I8) {
        let (new0, new1) = s_ins_results(v, inst_of(Opcode::Uextend, ValueType(I32), b, 0u32, 0u32, 0i64, IntCC::Equal, TrapCode::User(0), 0u8, 0i32, 0u32, 0u32), None, None);
        let v = s_ins(v, p, inst_of(Opcode::Uextend, ValueType(I32), b, 0u32, 0u32, 0i64, IntCC::Equal, TrapCode::User(0), 0u8, 0i32, 0u32, 0u32), None, None);
        let (x, _r1) = (new0, new1);
        let p = p + 1;
        let (new0, new1) = s_ins_results(v, inst_of(Opcode::ImulImm, value_type_of(v, x), x, 0u32, 0u32, c, IntCC::Equal, TrapCode::User(0), 0u8, 0i32, 0u32, 0u32), None, None);
        let v = s_ins(v, p, inst_of(Opcode::ImulImm, value_type_of(v, x), x, 0u32, 0u32, c, IntCC::Equal, TrapCode::User(0), 0u8, 0i32, 0u32, 0u32), None, None);
        let (z, _r1) = (new0, new1);
        let p = p + 1;
        let v = s_replace(v, inst, inst_of(Opcode::Ireduce, ValueType(I8), z, 0u32, 0u32, 0i64, IntCC::Equal, TrapCode::User(0), 0u8, 0i32, 0u32, 0u32));
        Some(v)
} else {
    if value_type_of(v, d.arg0) == ValueType(I16) {
        let (new0, new1) = s_ins_results(v, inst_of(Opcode::Uextend, ValueType(I32), b, 0u32, 0u32, 0i64, IntCC::Equal, TrapCode::User(0), 0u8, 0i32, 0u32, 0u32), None, None);
        let v = s_ins(v, p, inst_of(Opcode::Uextend, ValueType(I32), b, 0u32, 0u32, 0i64, IntCC::Equal, TrapCode::User(0), 0u8, 0i32, 0u32, 0u32), None, None);
        let (x, _r1) = (new0, new1);
        let p = p + 1;
        let (new0, new1) = s_ins_results(v, inst_of(Opcode::ImulImm, value_type_of(v, x), x, 0u32, 0u32, c, IntCC::Equal, TrapCode::User(0), 0u8, 0i32, 0u32, 0u32), None, None);
        let v = s_ins(v, p, inst_of(Opcode::ImulImm, value_type_of(v, x), x, 0u32, 0u32, c, IntCC::Equal, TrapCode::User(0), 0u8, 0i32, 0u32, 0u32), None, None);
        let (z, _r1) = (new0, new1);
        let p = p + 1;
        let v = s_replace(v, inst, inst_of(Opcode::Ireduce, ValueType(I16), z, 0u32, 0u32, 0i64, IntCC::Equal, TrapCode::User(0), 0u8, 0i32, 0u32, 0u32));
        Some(v)
} else {
    None
}
}
}

/// Legalize a `imul_imm` instruction by widening.
fn widen_imul_imm(inst: Inst, pos: usize, d: InstData, func: &mut Function) -> (r: bool)
    requires
        pattern_input(old(func)@, inst, pos as int, d),
    ensures
        pattern_outcome(old(func)@, final(func)@, r, widen_imul_imm_spec(old(func)@, inst, pos as int, d)),
        final(func).encodings@ == old(func).encodings@,
        func_wf(final(func)@),
        r ==> final(func)@.0.len() > old(func)@.0.len(),
        keeps_before(old(func)@, final(func)@, inst, pos as int),
{
    proof {
        reveal(widen_imul_imm_spec);
    }
    let mut p = pos;
    let b = d.arg0;
    let c = d.imm;
    if func.value_type(d.arg0) == ValueType(I8) {
        let (x, _r1) = func.ins(p, make_inst(Opcode::Uextend, ValueType(I32), b, 0u32, 0u32, 0i64, IntCC::Equal, TrapCode::User(0), 0u8, 0i32, 0u32, 0u32), None, None);
        p = p + 1;
        let ty1 = func.value_type(x);
        let (z, _r1) = func.ins(p, make_inst(Opcode::ImulImm, ty1, x, 0u32, 0u32, c, IntCC::Equal, TrapCode::User(0), 0u8, 0i32, 0u32, 0u32), None, None);
        p = p + 1;
        func.replace(inst, make_inst(Opcode::Ireduce, ValueType(I8), z, 0u32, 0u32, 0i64, IntCC::Equal, TrapCode::User(0), 0u8, 0i32, 0u32, 0u32));
        return true;
    }
    if func.value_type(d.arg0) == ValueType(I16) {
        let (x, _r1) = func.ins(p, make_inst(Opcode::Uextend, ValueType(I32), b, 0u32, 0u32, 0i64, IntCC::Equal, TrapCode::User(0), 0u8, 0i32, 0u32, 0u32), None, None);
        p = p + 1;
        let ty2 = func.value_type(x);
        let (z, _r1) = func.ins(p, make_inst(Opcode::ImulImm, ty2, x, 0u32, 0u32, c, IntCC::Equal, TrapCode::User(0), 0u8, 0i32, 0u32, 0u32), None, None);
        p = p + 1;
        func.replace(inst, make_inst(Opcode::Ireduce, ValueType(I16), z, 0u32, 0u32, 0i64, IntCC::Equal, TrapCode::User(0), 0u8, 0i32, 0u32, 0u32));
        return true;
    }
    false
}

/// The function after the widening of a `irsub_imm` instruction, or `None` where no pattern applies.
#[verifier::opaque]
pub open spec fn widen_irsub_imm_spec(v: FuncView, inst: Inst, pos: int, d: InstData) -> Option<FuncView> {
    let p = pos;
    let b = d.arg0;
    let c = d.imm;
    if value_type_of(v, d.arg0) == ValueType(I8) {
        let (new0, new1) = s_ins_results(v, inst_of(Opcode::Uextend, ValueType(I32), b, 0u32, 0u32, 0i64, IntCC::Equal, TrapCode::User(0), 0u8, 0i32, 0u32, 0u32), None, None);
        let v = s_ins(v, p, inst_of(Opcode::Uextend, ValueType(I32), b, 0u32, 0u32, 0i64, IntCC::Equal, TrapCode::User(0), 0u8, 0i32, 0u32, 0u32), None, None);
        let (x, _r1) = (new0, new1);
        let p = p + 1;
        let (new0, new1) = s_ins_results(v, inst_of(Opcode::IrsubImm, value_type_of(v, x), x, 0u32, 0u32, c, IntCC::Equal, TrapCode::User(0), 0u8, 0i32, 0u32, 0u32), None, None);
        let v = s_ins(v, p, inst_of(Opcode::IrsubImm, value_type_of(v, x), x, 0u32, 0u32, c, IntCC::Equal, TrapCode::User(0), 0u8, 0i32, 0u32, 0u32), None, None);
        let (z, _r1) = (new0, new1);
        let p = p + 1;
        let v = s_replace(v, inst, inst_of(Opcode::Ireduce, ValueType(I8), z, 0u32, 0u32, 0i64, IntCC::Equal, TrapCode::User(0), 0u8, 0i32, 0u32, 0u32));
        Some(v)
} else {
    if value_type_of(v, d.arg0) == ValueType(I16) {
        let (new0, new1) = s_ins_results(v, inst_of(Opcode::Uextend, ValueType(I32), b, 0u32, 0u32, 0i64, IntCC::Equal, TrapCode::User(0), 0u8, 0i32, 0u32, 0u32), None, None);
        let v = s_ins(v, p, inst_of(Opcode::Uextend, ValueType(I32), b, 0u32, 0u32, 0i64, IntCC::Equal, TrapCode::User(0), 0u8, 0i32, 0u32, 0u32), None, None);
        let (x, _r1) = (new0, new1);
        let p = p + 1;
        let (new0, new1) = s_ins_results(v, inst_of(Opcode::IrsubImm, value_type_of(v, x), x, 0u32, 0u32, c, IntCC::Equal, TrapCode::User(0), 0u8, 0i32, 0u32, 0u32), None, None);
        let v = s_ins(v, p, inst_of(Opcode::IrsubImm, value_type_of(v, x), x, 0u32, 0u32, c, IntCC::Equal, TrapCode::User(0), 0u8, 0i32, 0u32, 0u32), None, None);
        let (z, _r1) = (new0, new1);
        let p = p + 1;
        let v = s_replace(v, inst, inst_of(Opcode::Ireduce, ValueType(I16), z, 0u32, 0u32, 0i64, IntCC::Equal, TrapCode::User(0), 0u8, 0i32, 0u32, 0u32));
        Some(v)
} else {
    None
}
}
}

/// Legalize a `irsub_imm` instruction by widening.
fn widen_irsub_imm(inst: Inst, pos: usize, d: InstData, func: &mut Function) -> (r: bool)
    requires
        pattern_input(old(func)@, inst, pos as int, d),
    ensures
        pattern_outcome(old(func)@, final(func)@, r, widen_irsub_imm_spec(old(func)@, inst, pos as int, d)),
        final(func).encodings@ == old(func).encodings@,
        func_wf(final(func)@),
        r ==> final(func)@.0.len() > old(func)@.0.len(),
        keeps_before(old(func)@, final(func)@, inst, pos as int),
{
    proof {
        reveal(widen_irsub_imm_spec);
    }
    let mut p = pos;
    let b = d.arg0;
    let c = d.imm;
    if func.value_type(d.arg0) == ValueType(I8) {
        let (x, _r1) = func.ins(p, make_inst(Opcode::Uextend, ValueType(I32), b, 0u32, 0u32, 0i64, IntCC::Equal, TrapCode::User(0), 0u8, 0i32, 0u32, 0u32), None, None);
        p = p + 1;
        let ty1 = func.value_type(x);
        let (z, _r1) = func.ins(p, make_inst(Opcode::IrsubImm, ty1, x, 0u32, 0u32, c, IntCC::Equal, TrapCode::User(0), 0u8, 0i32, 0u32, 0u32), None, None);
        p = p + 1;
        func.replace(inst, make_inst(Opcode::Ireduce, ValueType(I8), z, 0u32, 0u32, 0i64, IntCC::Equal, TrapCode::User(0), 0u8, 0i32, 0u32, 0u32));
        return true;
    }
    if func.value_type(d.arg0) == ValueType(I16) {
        let (x, _r1) = func.ins(p, make_inst(Opcode::Uextend, ValueType(I32), b, 0u32, 0u32, 0i64, IntCC::Equal, TrapCode::User(0), 0u8, 0i32, 0u32, 0u32), None, None);
        p = p + 1;
        let ty2 = func.value_type(x);
        let (z, _r1) = func.ins(p, make_inst(Opcode::IrsubImm, ty2, x, 0u32, 0u32, c, IntCC::Equal, TrapCode::User(0), 0u8, 0i32, 0u32, 0u32), None, None);
        p = p + 1;
        func.replace(inst, make_inst(Opcode::Ireduce, ValueType(I16), z, 0u32, 0u32, 0i64, IntCC::Equal, TrapCode::User(0), 0u8, 0i32, 0u32, 0u32));
        return true;
    }
    false
}

/// The function after the widening of a `ishl` instruction, or `None` where no pattern applies.
#[verifier::opaque]
pub open spec fn widen_ishl_spec(v: FuncView, inst: Inst, pos: int, d: InstData) -> Option<FuncView> {
    let p = pos;
    let b = d.arg0;
    let c = d.arg1;
    let typeof_c = value_type_of(v, c);
    if value_type_of(v, d.arg0) == ValueType(I8) {
        let (new0, new1) = s_ins_results(v, inst_of(Opcode::Uextend, ValueType(I32), b, 0u32, 0u32, 0i64, IntCC::Equal, TrapCode::User(0), 0u8, 0i32, 0u32, 0u32), None, None);
        let v = s_ins(v, p, inst_of(Opcode::Uextend, ValueType(I32), b, 0u32, 0u32, 0i64, IntCC::Equal, TrapCode::User(0), 0u8, 0i32, 0u32, 0u32), None, None);
        let (x, _r1) = (new0, new1);
        let p = p + 1;
        let (new0, new1) = s_ins_results(v, inst_of(Opcode::Ishl, value_type_of(v, x), x, c, 0u32, 0i64, IntCC::Equal, TrapCode::User(0), 0u8, 0i32, 0u32, 0u32), None, None);
        let v = s_ins(v, p, inst_of(Opcode::Ishl, value_type_of(v, x), x, c, 0u32, 0i64, IntCC::Equal, TrapCode::User(0), 0u8, 0i32, 0u32, 0u32), None, None);
        let (z, _r1) = (new0, new1);
        let p = p + 1;
        let v = s_replace(v, inst, inst_of(Opcode::Ireduce, ValueType(I8), z, 0u32, 0u32, 0i64, IntCC::Equal, TrapCode::User(0), 0u8, 0i32, 0u32, 0u32));
        Some(v)
} else {
    if value_type_of(v, d.arg0) == ValueType(I16) {
        let (new0, new1) = s_ins_results(v, inst_of(Opcode::Uextend, ValueType(I32), b, 0u32, 0u32, 0i64, IntCC::Equal, TrapCode::User(0), 0u8, 0i32, 0u32, 0u32), None, None);
        let v = s_ins(v, p, inst_of(Opcode::Uextend, ValueType(I32), b, 0u32, 0u32, 0i64, IntCC::Equal, TrapCode::User(0), 0u8, 0i32, 0u32, 0u32), None, None);
        let (x, _r1) = (new0, new1);
        let p = p + 1;
        let (new0, new1) = s_ins_results(v, inst_of(Opcode::Ishl, value_type_of(v, x), x, c, 0u32, 0i64, IntCC::Equal, TrapCode::User(0), 0u8, 0i32, 0u32, 0u32), None, None);
        let v = s_ins(v, p, inst_of(Opcode::Ishl, value_type_of(v, x), x, c, 0u32, 0i64, IntCC::Equal, TrapCode::User(0), 0u8, 0i32, 0u32, 0u32), None, None);
        let (z, _r1) = (new0, new1);
        let p = p + 1;
        let v = s_replace(v, inst, inst_of(Opcode::Ireduce, ValueType(I16), z, 0u32, 0u32, 0i64, IntCC::Equal, TrapCode::User(0), 0u8, 0i32, 0u32, 0u32));
        Some(v)
} else {
    None
}
}
}

/// Legalize a `ishl` instruction by widening.
fn widen_ishl(inst: Inst, pos: usize, d: InstData, func: &mut Function) -> (r: bool)
    requires
        pattern_input(old(func)@, inst, pos as int, d),
    ensures
        pattern_outcome(old(func)@, final(func)@, r, widen_ishl_spec(old(func)@, inst, pos as int, d)),
        final(func).encodings@ == old(func).encodings@,
        func_wf(final(func)@),
        r ==> final(func)@.0.len() > old(func)@.0.len(),
        keeps_before(old(func)@, final(func)@, inst, pos as int),
{
    proof {
        reveal(widen_ishl_spec);
    }
    let mut p = pos;
    let b = d.arg0;
    let c = d.arg1;
    let typeof_c = func.value_type(c);
    if func.value_type(d.arg0) == ValueType(I8) {
        let (x, _r1) = func.ins(p, make_inst(Opcode::Uextend, ValueType(I32), b, 0u32, 0u32, 0i64, IntCC::Equal, TrapCode::User(0), 0u8, 0i32, 0u32, 0u32), None, None);
        p = p + 1;
        let ty1 = func.value_type(x);
        let (z, _r1) = func.ins(p, make_inst(Opcode::Ishl, ty1, x, c, 0u32, 0i64, IntCC::Equal, TrapCode::User(0), 0u8, 0i32, 0u32, 0u32), None, None);
        p = p + 1;
        func.replace(inst, make_inst(Opcode::Ireduce, ValueType(I8), z, 0u32, 0u32, 0i64, IntCC::Equal, TrapCode::User(0), 0u8, 0i32, 0u32, 0u32));
        return true;
    }
    if func.value_type(d.arg0) == ValueType(I16) {
        let (x, _r1) = func.ins(p, make_inst(Opcode::Uextend, ValueType(I32), b, 0u32, 0u32, 0i64, IntCC::Equal, TrapCode::User(0), 0u8, 0i32, 0u32, 0u32), None, None);
        p = p + 1;
        let ty2 = func.value_type(x);
        let (z, _r1) = func.ins(p, make_inst(Opcode::Ishl, ty2, x, c, 0u32, 0i64, IntCC::Equal, TrapCode::User(0), 0u8, 0i32, 0u32, 0u32), None, None);
        p = p + 1;
        func.replace(inst, make_inst(Opcode::Ireduce, ValueType(I16), z, 0u32, 0u32, 0i64, IntCC::Equal, TrapCode::User(0), 0u8, 0i32, 0u32, 0u32));
        return true;
    }
    false
}

/// The function after the widening of a `ishl_imm` instruction, or `None` where no pattern applies.
#[verifier::opaque]
pub open spec fn widen_ishl_imm_spec(v: FuncView, inst: Inst, pos: int, d: InstData) -> Option<FuncView> {
    let p = pos;
    let b = d.arg0;
    let c = d.imm;
    if value_type_of(v, d.arg0) == ValueType(I8) {
        let (new0, new1) = s_ins_results(v, inst_of(Opcode::Uextend, ValueType(I32), b, 0u32, 0u32, 0i64, IntCC::Equal, TrapCode::User(0), 0u8, 0i32, 0u32, 0u32), None, None);
        let v = s_ins(v, p, inst_of(Opcode::Uextend, ValueType(I32), b, 0u32, 0u32, 0i64, IntCC::Equal, TrapCode::User(0), 0u8, 0i32, 0u32, 0u32), None, None);
        let (x, _r1) = (new0, new1);
        let p = p + 1;
        let (new0, new1) = s_ins_results(v, inst_of(Opcode::IshlImm, value_type_of(v, x), x, 0u32, 0u32, c, IntCC::Equal, TrapCode::User(0), 0u8, 0i32, 0u32, 0u32), None, None);
        let v = s_ins(v, p, inst_of(Opcode::IshlImm, value_type_of(v, x), x, 0u32, 0u32, c, IntCC::Equal, TrapCode::User(0), 0u8, 0i32, 0u32, 0u32), None, None);
        let (z, _r1) = (new0, new1);
        let p = p + 1;
        let v = s_replace(v, inst, inst_of(Opcode::Ireduce, ValueType(I8), z, 0u32, 0u32, 0i64, IntCC::Equal, TrapCode::User(0), 0u8, 0i32, 0u32, 0u32));
        Some(v)
} else {
    if value_type_of(v, d.arg0) == ValueType(I16) {
        let (new0, new1) = s_ins_results(v, inst_of(Opcode::Uextend, ValueType(I32), b, 0u32, 0u32, 0i64, IntCC::Equal, TrapCode::User(0), 0u8, 0i32, 0u32, 0u32), None, None);
        let v = s_ins(v, p, inst_of(Opcode::Uextend, ValueType(I32), b, 0u32, 0u32, 0i64, IntCC::Equal, TrapCode::User(0), 0u8, 0i32, 0u32, 0u32), None, None);
        let (x, _r1) = (new0, new1);
        let p = p + 1;
        let (new0, new1) = s_ins_results(v, inst_of(Opcode::IshlImm, value_type_of(v, x), x, 0u32, 0u32, c, IntCC::Equal, TrapCode::User(0), 0u8, 0i32, 0u32, 0u32), None, None);
        let v = s_ins(v, p, inst_of(Opcode::IshlImm, value_type_of(v, x), x, 0u32, 0u32, c, IntCC::Equal, TrapCode::User(0), 0u8, 0i32, 0u32, 0u32), None, None);
        let (z, _r1) = (new0, new1);
        let p = p + 1;
        let v = s_replace(v, inst, inst_of(Opcode::Ireduce, ValueType(I16), z, 0u32, 0u32, 0i64, IntCC::Equal, TrapCode::User(0), 0u8, 0i32, 0u32, 0u32));
        Some(v)
} else {
    None
}
}
}

/// Legalize a `ishl_imm` instruction by widening.
fn widen_ishl_imm(inst: Inst, pos: usize, d: InstData, func: &mut Function) -> (r: bool)
    requires
        pattern_input(old(func)@, inst, pos as int, d),
    ensures
        pattern_outcome(old(func)@, final(func)@, r, widen_ishl_imm_spec(old(func)@, inst, pos as int, d)),
        final(func).encodings@ == old(func).encodings@,
        func_wf(final(func)@),
        r ==> final(func)@.0.len() > old(func)@.0.len(),
        keeps_before(old(func)@, final(func)@, inst, pos as int),
{
    proof {
        reveal(widen_ishl_imm_spec);
    }
    let mut p = pos;
    let b = d.arg0;
    let c = d.imm;
    if func.value_type(d.arg0) == ValueType(I8) {
        let (x, _r1) = func.ins(p, make_inst(Opcode::Uextend, ValueType(I32), b, 0u32, 0u32, 0i64, IntCC::Equal, TrapCode::User(0), 0u8, 0i32, 0u32, 0u32), None, None);
        p = p + 1;
        let ty1 = func.value_type(x);
        let (z, _r1) = func.ins(p, make_inst(Opcode::IshlImm, ty1, x, 0u32, 0u32, c, IntCC::Equal, TrapCode::User(0), 0u8, 0i32, 0u32, 0u32), None, None);
        p = p + 1;
        func.replace(inst, make_inst(Opcode::Ireduce, ValueType(I8), z, 0u32, 0u32, 0i64, IntCC::Equal, TrapCode::User(0), 0u8, 0i32, 0u32, 0u32));
        return true;
    }
    if func.value_type(d.arg0) == ValueType(I16) {
        let (x, _r1) = func.ins(p, make_inst(Opcode::Uextend, ValueType(I32), b, 0u32, 0u32, 0i64, IntCC::Equal, TrapCode::User(0), 0u8, 0i32, 0u32, 0u32), None, None);
        p = p + 1;
        let ty2 = func.value_type(x);
        let (z, _r1) = func.ins(p, make_inst(Opcode::IshlImm, ty2, x, 0u32, 0u32, c, IntCC::Equal, TrapCode::User(0), 0u8, 0i32, 0u32, 0u32), None, None);
        p = p + 1;
        func.replace(inst, make_inst(Opcode::Ireduce, ValueType(I16), z, 0u32, 0u32, 0i64, IntCC::Equal, TrapCode::User(0), 0u8, 0i32, 0u32, 0u32));
        return true;
    }
    false
}

/// The function after the widening of a `isub` instruction, or `None` where no pattern applies.
#[verifier::opaque]
pub open spec fn widen_isub_spec(v: FuncView, inst: Inst, pos: int, d: InstData) -> Option<FuncView> {
    let p = pos;
    let b = d.arg0;
    let c = d.arg1;
    if value_type_of(v, d.arg0) == ValueType(I8) {
        let (new0, new1) = s_ins_results(v, inst_of(Opcode::Uextend, ValueType(I32), b, 0u32, 0u32, 0i64, IntCC::Equal, TrapCode::User(0), 0u8, 0i32, 0u32, 0u32), None, None);
        let v = s_ins(v, p, inst_of(Opcode::Uextend, ValueType(I32), b, 0u32, 0u32, 0i64, IntCC::Equal, TrapCode::User(0), 0u8, 0i32, 0u32, 0u32), None, None);
        let (x, _r1) = (new0, new1);
        let p = p + 1;
        let (new0, new1) = s_ins_results(v, inst_of(Opcode::Uextend, ValueType(I32), c, 0u32, 0u32, 0i64, IntCC::Equal, TrapCode::User(0), 0u8, 0i32, 0u32, 0u32), None, None);
        let v = s_ins(v, p, inst_of(Opcode::Uextend, ValueType(I32), c, 0u32, 0u32, 0i64, IntCC::Equal, TrapCode::User(0), 0u8, 0i32, 0u32, 0u32), None, None);
        let (y, _r1) = (new0, new1);
        let p = p + 1;
        let (new0, new1) = s_ins_results(v, inst_of(Opcode::Isub, value_type_of(v, x), x, y, 0u32, 0i64, IntCC::Equal, TrapCode::User(0), 0u8, 0i32, 0u32, 0u32), None, None);
        let v = s_ins(v, p, inst_of(Opcode::Isub, value_type_of(v, x), x, y, 0u32, 0i64, IntCC::Equal, TrapCode::User(0), 0u8, 0i32, 0u32, 0u32), None, None);
        let (z, _r1) = (new0, new1);
        let p = p + 1;
        let v = s_replace(v, inst, inst_of(Opcode::Ireduce, ValueType(I8), z, 0u32, 0u32, 0i64, IntCC::Equal, TrapCode::User(0), 0u8, 0i32, 0u32, 0u32));
        Some(v)
} else {
    if value_type_of(v, d.arg0) == ValueType(I16) {
        let (new0, new1) = s_ins_results(v, inst_of(Opcode::Uextend, ValueType(I32), b, 0u32, 0u32, 0i64, IntCC::Equal, TrapCode::User(0), 0u8, 0i32, 0u32, 0u32), None, None);
        let v = s_ins(v, p, inst_of(Opcode::Uextend, ValueType(I32), b, 0u32, 0u32, 0i64, IntCC::Equal, TrapCode::User(0), 0u8, 0i32, 0u32, 0u32), None, None);
        let (x, _r1) = (new0, new1);
        let p = p + 1;
        let (new0, new1) = s_ins_results(v, inst_of(Opcode::Uextend, ValueType(I32), c, 0u32, 0u32, 0i64, IntCC::Equal, TrapCode::User(0), 0u8, 0i32, 0u32, 0u32), None, None);
        let v = s_ins(v, p, inst_of(Opcode::Uextend, ValueType(I32), c, 0u32, 0u32, 0i64, IntCC::Equal, TrapCode::User(0), 0u8, 0i32, 0u32, 0u32), None, None);
        let (y, _r1) = (new0, new1);
        let p = p + 1;
        let (new0, new1) = s_ins_results(v, inst_of(Opcode::Isub, value_type_of(v, x), x, y, 0u32, 0i64, IntCC::Equal, TrapCode::User(0), 0u8, 0i32, 0u32, 0u32), None, None);
        let v = s_ins(v, p, inst_of(Opcode::Isub, value_type_of(v, x), x, y, 0u32, 0i64, IntCC::Equal, TrapCode::User(0), 0u8, 0i32, 0u32, 0u32), None, None);
        let (z, _r1) = (new0, new1);
        let p = p + 1;
        let v = s_replace(v, inst, inst_of(Opcode::Ireduce, ValueType(I16), z, 0u32, 0u32, 0i64, IntCC::Equal, TrapCode::User(0), 0u8, 0i32, 0u32, 0u32));
        Some(v)
} else {
    None
}
}
}

/// Legalize a `isub` instruction by widening.
fn widen_isub(inst: Inst, pos: usize, d: InstData, func: &mut Function) -> (r: bool)
    requires
        pattern_input(old(func)@, inst, pos as int, d),
    ensures
        pattern_outcome(old(func)@, final(func)@, r, widen_isub_spec(old(func)@, inst, pos as int, d)),
        final(func).encodings@ == old(func).encodings@,
        func_wf(final(func)@),
        r ==> final(func)@.0.len() > old(func)@.0.len(),
        keeps_before(old(func)@, final(func)@, inst, pos as int),
{
    proof {
        reveal(widen_isub_spec);
    }
    let mut p = pos;
    let b = d.arg0;
    let c = d.arg1;
    if func.value_type(d.arg0) == ValueType(I8) {
        let (x, _r1) = func.ins(p, make_inst(Opcode::Uextend, ValueType(I32), b, 0u32, 0u32, 0i64, IntCC::Equal, TrapCode::User(0), 0u8, 0i32, 0u32, 0u32), None, None);
        p = p + 1;
        let (y, _r1) = func.ins(p, make_inst(Opcode::Uextend, ValueType(I32), c, 0u32, 0u32, 0i64, IntCC::Equal, TrapCode::User(0), 0u8, 0i32, 0u32, 0u32), None, None);
        p = p + 1;
        let ty1 = func.value_type(x);
        let (z, _r1) = func.ins(p, make_inst(Opcode::Isub, ty1, x, y, 0u32, 0i64, IntCC::Equal, TrapCode::User(0), 0u8, 0i32, 0u32, 0u32), None, None);
        p = p + 1;
        func.replace(inst, make_inst(Opcode::Ireduce, ValueType(I8), z, 0u32, 0u32, 0i64, IntCC::Equal, TrapCode::User(0), 0u8, 0i32, 0u32, 0u32));
        return true;
    }
    if func.value_type(d.arg0) == ValueType(I16) {
        let (x, _r1) = func.ins(p, make_inst(Opcode::Uextend, ValueType(I32), b, 0u32, 0u32, 0i64, IntCC::Equal, TrapCode::User(0), 0u8, 0i32, 0u32, 0u32), None, None);
        p = p + 1;
        let (y, _r1) = func.ins(p, make_inst(Opcode::Uextend, ValueType(I32), c, 0u32, 0u32, 0i64, IntCC::Equal, TrapCode::User(0), 0u8, 0i32, 0u32, 0u32), None, None);
        p = p + 1;
        let ty2 = func.value_type(x);
        let (z, _r1) = func.ins(p, make_inst(Opcode::Isub, ty2, x, y, 0u32, 0i64, IntCC::Equal, TrapCode::User(0), 0u8, 0i32, 0u32, 0u32), None, None);
        p = p + 1;
        func.replace(inst, make_inst(Opcode::Ireduce, ValueType(I16), z, 0u32, 0u32, 0i64, IntCC::Equal, TrapCode::User(0), 0u8, 0i32, 0u32, 0u32));
        return true;
    }
    false
}

/// The function after the widening of a `load` instruction, or `None` where no pattern applies.
#[verifier::opaque]
pub open spec fn widen_load_spec(v: FuncView, inst: Inst, pos: int, d: InstData) -> Option<FuncView> {
    let p = pos;
    let flags = d.flags;
    let ptr = d.arg0;
    let off = d.offset;
    let typeof_ptr = value_type_of(v, ptr);
    if d.ctrl == ValueType(I8) {
        let (new0, new1) = s_ins_results(v, inst_of(Opcode::Uload8, ValueType(I32), ptr, 0u32, 0u32, 0i64, IntCC::Equal, TrapCode::User(0), flags, off, 0u32, 0u32), None, None);
        let v = s_ins(v, p, inst_of(Opcode::Uload8, ValueType(I32), ptr, 0u32, 0u32, 0i64, IntCC::Equal, TrapCode::User(0), flags, off, 0u32, 0u32), None, None);
        let (b, _r1) = (new0, new1);
        let p = p + 1;
        let v = s_replace(v, inst, inst_of(Opcode::Ireduce, ValueType(I8), b, 0u32, 0u32, 0i64, IntCC::Equal, TrapCode::User(0), 0u8, 0i32, 0u32, 0u32));
        Some(v)
} else {
    if d.ctrl == ValueType(I16) {
        let (new0, new1) = s_ins_results(v, inst_of(Opcode::Uload16, ValueType(I32), ptr, 0u32, 0u32, 0i64, IntCC::Equal, TrapCode::User(0), flags, off, 0u32, 0u32), None, None);
        let v = s_ins(v, p, inst_of(Opcode::Uload16, ValueType(I32), ptr, 0u32, 0u32, 0i64, IntCC::Equal, TrapCode::User(0), flags, off, 0u32, 0u32), None, None);
        let (b, _r1) = (new0, new1);
        let p = p + 1;
        let v = s_replace(v, inst, inst_of(Opcode::Ireduce, ValueType(I16), b, 0u32, 0u32, 0i64, IntCC::Equal, TrapCode::User(0), 0u8, 0i32, 0u32, 0u32));
        Some(v)
} else {
    None
}
}
}

/// Legalize a `load` instruction by widening.
fn widen_load(inst: Inst, pos: usize, d: InstData, func: &mut Function) -> (r: bool)
    requires
        pattern_input(old(func)@, inst, pos as int, d),
    ensures
        pattern_outcome(old(func)@, final(func)@, r, widen_load_spec(old(func)@, inst, pos as int, d)),
        final(func).encodings@ == old(func).encodings@,
        func_wf(final(func)@),
        r ==> final(func)@.0.len() > old(func)@.0.len(),
        keeps_before(old(func)@, final(func)@, inst, pos as int),
{
    proof {
        reveal(widen_load_spec);
    }
    let mut p = pos;
    let flags = d.flags;
    let ptr = d.arg0;
    let off = d.offset;
    let typeof_ptr = func.value_type(ptr);
    if d.ctrl == ValueType(I8) {
        let (b, _r1) = func.ins(p, make_inst(Opcode::Uload8, ValueType(I32), ptr, 0u32, 0u32, 0i64, IntCC::Equal, TrapCode::User(0), flags, off, 0u32, 0u32), None, None);
        p = p + 1;
        func.replace(inst, make_inst(Opcode::Ireduce, ValueType(I8), b, 0u32, 0u32, 0i64, IntCC::Equal, TrapCode::User(0), 0u8, 0i32, 0u32, 0u32));
        return true;
    }
    if d.ctrl == ValueType(I16) {
        let (b, _r1) = func.ins(p, make_inst(Opcode::Uload16, ValueType(I32), ptr, 0u32, 0u32, 0i64, IntCC::Equal, TrapCode::User(0), flags, off, 0u32, 0u32), None, None);
        p = p + 1;
        func.replace(inst, make_inst(Opcode::Ireduce, ValueType(I16), b, 0u32, 0u32, 0i64, IntCC::Equal, TrapCode::User(0), 0u8, 0i32, 0u32, 0u32));
        return true;
    }
    false
}

/// The function after the widening of a `popcnt` instruction, or `None` where no pattern applies.
#[verifier::opaque]
pub open spec fn widen_popcnt_spec(v: FuncView, inst: Inst, pos: int, d: InstData) -> Option<FuncView> {
    let p = pos;
    let b = d.arg0;
    if value_type_of(v, d.arg0) == ValueType(I8) {
        let (new0, new1) = s_ins_results(v, inst_of(Opcode::Uextend, ValueType(I32), b, 0u32, 0u32, 0i64, IntCC::Equal, TrapCode::User(0), 0u8, 0i32, 0u32, 0u32), None, None);
        let v = s_ins(v, p, inst_of(Opcode::Uextend, ValueType(I32), b, 0u32, 0u32, 0i64, IntCC::Equal, TrapCode::User(0), 0u8, 0i32, 0u32, 0u32), None, None);
        let (x, _r1) = (new0, new1);
        let p = p + 1;
        let (new0, new1) = s_ins_results(v, inst_of(Opcode::Popcnt, value_type_of(v, x), x, 0u32, 0u32, 0i64, IntCC::Equal, TrapCode::User(0), 0u8, 0i32, 0u32, 0u32), None, None);
        let v = s_ins(v, p, inst_of(Opcode::Popcnt, value_type_of(v, x), x, 0u32, 0u32, 0i64, IntCC::Equal, TrapCode::User(0), 0u8, 0i32, 0u32, 0u32), None, None);
        let (z, _r1) = (new0, new1);
        let p = p + 1;
        let v = s_replace(v, inst, inst_of(Opcode::Ireduce, ValueType(I8), z, 0u32, 0u32, 0i64, IntCC::Equal, TrapCode::User(0), 0u8, 0i32, 0u32, 0u32));
        Some(v)
} else {
    if value_type_of(v, d.arg0) == ValueType(I16) {
        let (new0, new1) = s_ins_results(v, inst_of(Opcode::Uextend, ValueType(I32), b, 0u32, 0u32, 0i64, IntCC::Equal, TrapCode::User(0), 0u8, 0i32, 0u32, 0u32), None, None);
        let v = s_ins(v, p, inst_of(Opcode::Uextend, ValueType(I32), b, 0u32, 0u32, 0i64, IntCC::Equal, TrapCode::User(0), 0u8, 0i32, 0u32, 0u32), None, None);
        let (x, _r1) = (new0, new1);
        let p = p + 1;
        let (new0, new1) = s_ins_results(v, inst_of(Opcode::Popcnt, value_type_of(v, x), x, 0u32, 0u32, 0i64, IntCC::Equal, TrapCode::User(0), 0u8, 0i32, 0u32, 0u32), None, None);
        let v = s_ins(v, p, inst_of(Opcode::Popcnt, value_type_of(v, x), x, 0u32, 0u32, 0i64, IntCC::Equal, TrapCode::User(0), 0u8, 0i32, 0u32, 0u32), None, None);
        let (z, _r1) = (new0, new1);
        let p = p + 1;
        let v = s_replace(v, inst, inst_of(Opcode::Ireduce, ValueType(I16), z, 0u32, 0u32, 0i64, IntCC::Equal, TrapCode::User(0), 0u8, 0i32, 0u32, 0u32));
        Some(v)
} else {
    None
}
}
}

/// Legalize a `popcnt` instruction by widening.
fn widen_popcnt(inst: Inst, pos: usize, d: InstData, func: &mut Function) -> (r: bool)
    requires
        pattern_input(old(func)@, inst, pos as int, d),
    ensures
        pattern_outcome(old(func)@, final(func)@, r, widen_popcnt_spec(old(func)@, inst, pos as int, d)),
        final(func).encodings@ == old(func).encodings@,
        func_wf(final(func)@),
        r ==> final(func)@.0.len() > old(func)@.0.len(),
        keeps_before(old(func)@, final(func)@, inst, pos as int),
{
    proof {
        reveal(widen_popcnt_spec);
    }
    let mut p = pos;
    let b = d.arg0;
    if func.value_type(d.arg0) == ValueType(I8) {
        let (x, _r1) = func.ins(p, make_inst(Opcode::Uextend, ValueType(I32), b, 0u32, 0u32, 0i64, IntCC::Equal, TrapCode::User(0), 0u8, 0i32, 0u32, 0u32), None, None);
        p = p + 1;
        let ty1 = func.value_type(x);
        let (z, _r1) = func.ins(p, make_inst(Opcode::Popcnt, ty1, x, 0u32, 0u32, 0i64, IntCC::Equal, TrapCode::User(0), 0u8, 0i32, 0u32, 0u32), None, None);
        p = p + 1;
        func.replace(inst, make_inst(Opcode::Ireduce, ValueType(I8), z, 0u32, 0u32, 0i64, IntCC::Equal, TrapCode::User(0), 0u8, 0i32, 0u32, 0u32));
        return true;
    }
    if func.value_type(d.arg0) == ValueType(I16) {
        let (x, _r1) = func.ins(p, make_inst(Opcode::Uextend, ValueType(I32), b, 0u32, 0u32, 0i64, IntCC::Equal, TrapCode::User(0), 0u8, 0i32, 0u32, 0u32), None, None);
        p = p + 1;
        let ty2 = func.value_type(x);
        let (z, _r1) = func.ins(p, make_inst(Opcode::Popcnt, ty2, x, 0u32, 0u32, 0i64, IntCC::Equal, TrapCode::User(0), 0u8, 0i32, 0u32, 0u32), None, None);
        p = p + 1;
        func.replace(inst, make_inst(Opcode::Ireduce, ValueType(I16), z, 0u32, 0u32, 0i64, IntCC::Equal, TrapCode::User(0), 0u8, 0i32, 0u32, 0u32));
        return true;
    }
    false
}

/// The function after the widening of a `sdiv` instruction, or `None` where no pattern applies.
#[verifier::opaque]
pub open spec fn widen_sdiv_spec(v: FuncView, inst: Inst, pos: int, d: InstData) -> Option<FuncView> {
    let p = pos;
    let b = d.arg0;
    let c = d.arg1;
    if value_type_of(v, d.arg0) == ValueType(I8) {
        let (new0, new1) = s_ins_results(v, inst_of(Opcode::Sextend, ValueType(I32), b, 0u32, 0u32, 0i64, IntCC::Equal, TrapCode::User(0), 0u8, 0i32, 0u32, 0u32), None, None);
        let v = s_ins(v, p, inst_of(Opcode::Sextend, ValueType(I32), b, 0u32, 0u32, 0i64, IntCC::Equal, TrapCode::User(0), 0u8, 0i32, 0u32, 0u32), None, None);
        let (x, _r1) = (new0, new1);
        let p = p + 1;
        let (new0, new1) = s_ins_results(v, inst_of(Opcode::Sextend, ValueType(I32), c, 0u32, 0u32, 0i64, IntCC::Equal, TrapCode::User(0), 0u8, 0i32, 0u32, 0u32), None, None);
        let v = s_ins(v, p, inst_of(Opcode::Sextend, ValueType(I32), c, 0u32, 0u32, 0i64, IntCC::Equal, TrapCode::User(0), 0u8, 0i32, 0u32, 0u32), None, None);
        let (y, _r1) = (new0, new1);
        let p = p + 1;
        let (new0, new1) = s_ins_results(v, inst_of(Opcode::Sdiv, value_type_of(v, x), x, y, 0u32, 0i64, IntCC::Equal, TrapCode::User(0), 0u8, 0i32, 0u32, 0u32), None, None);
        let v = s_ins(v, p, inst_of(Opcode::Sdiv, value_type_of(v, x), x, y, 0u32, 0i64, IntCC::Equal, TrapCode::User(0), 0u8, 0i32, 0u32, 0u32), None, None);
        let (z, _r1) = (new0, new1);
        let p = p + 1;
        let v = s_replace(v, inst, inst_of(Opcode::Ireduce, ValueType(I8), z, 0u32, 0u32, 0i64, IntCC::Equal, TrapCode::User(0), 0u8, 0i32, 0u32, 0u32));
        Some(v)
} else {
    if value_type_of(v, d.arg0) == ValueType(I16) {
        let (new0, new1) = s_ins_results(v, inst_of(Opcode::Sextend, ValueType(I32), b, 0u32, 0u32, 0i64, IntCC::Equal, TrapCode::User(0), 0u8, 0i32, 0u32, 0u32), None, None);
        let v = s_ins(v, p, inst_of(Opcode::Sextend, ValueType(I32), b, 0u32, 0u32, 0i64, IntCC::Equal, TrapCode::User(0), 0u8, 0i32, 0u32, 0u32), None, None);
        let (x, _r1) = (new0, new1);
        let p = p + 1;
        let (new0, new1) = s_ins_results(v, inst_of(Opcode::Sextend, ValueType(I32), c, 0u32, 0u32, 0i64, IntCC::Equal, TrapCode::User(0), 0u8, 0i32, 0u32, 0u32), None, None);
        let v = s_ins(v, p, inst_of(Opcode::Sextend, ValueType(I32), c, 0u32, 0u32, 0i64, IntCC::Equal, TrapCode::User(0), 0u8, 0i32, 0u32, 0u32), None, None);
        let (y, _r1) = (new0, new1);
        let p = p + 1;
        let (new0, new1) = s_ins_results(v, inst_of(Opcode::Sdiv, value_type_of(v, x), x, y, 0u32, 0i64, IntCC::Equal, TrapCode::User(0), 0u8, 0i32, 0u32, 0u32), None, None);
        let v = s_ins(v, p, inst_of(Opcode::Sdiv, value_type_of(v, x), x, y, 0u32, 0i64, IntCC::Equal, TrapCode::User(0), 0u8, 0i32, 0u32, 0u32), None, None);
        let (z, _r1) = (new0, new1);
        let p = p + 1;
        let v = s_replace(v, inst, inst_of(Opcode::Ireduce, ValueType(I16), z, 0u32, 0u32, 0i64, IntCC::Equal, TrapCode::User(0), 0u8, 0i32, 0u32, 0u32));
        Some(v)
} else {
    None
}
}
}

/// Legalize a `sdiv` instruction by widening.
fn widen_sdiv(inst: Inst, pos: usize, d: InstData, func: &mut Function) -> (r: bool)
    requires
        pattern_input(old(func)@, inst, pos as int, d),
    ensures
        pattern_outcome(old(func)@, final(func)@, r, widen_sdiv_spec(old(func)@, inst, pos as int, d)),
        final(func).encodings@ == old(func).encodings@,
        func_wf(final(func)@),
        r ==> final(func)@.0.len() > old(func)@.0.len(),
        keeps_before(old(func)@, final(func)@, inst, pos as int),
{
    proof {
        reveal(widen_sdiv_spec);
    }
    let mut p = pos;
    let b = d.arg0;
    let c = d.arg1;
    if func.value_type(d.arg0) == ValueType(I8) {
        let (x, _r1) = func.ins(p, make_inst(Opcode::Sextend, ValueType(I32), b, 0u32, 0u32, 0i64, IntCC::Equal, TrapCode::User(0), 0u8, 0i32, 0u32, 0u32), None, None);
        p = p + 1;
        let (y, _r1) = func.ins(p, make_inst(Opcode::Sextend, ValueType(I32), c, 0u32, 0u32, 0i64, IntCC::Equal, TrapCode::User(0), 0u8, 0i32, 0u32, 0u32), None, None);
        p = p + 1;
        let ty1 = func.value_type(x);
        let (z, _r1) = func.ins(p, make_inst(Opcode::Sdiv, ty1, x, y, 0u32, 0i64, IntCC::Equal, TrapCode::User(0), 0u8, 0i32, 0u32, 0u32), None, None);
        p = p + 1;
        func.replace(inst, make_inst(Opcode::Ireduce, ValueType(I8), z, 0u32, 0u32, 0i64, IntCC::Equal, TrapCode::User(0), 0u8, 0i32, 0u32, 0u32));
        return true;
    }
    if func.value_type(d.arg0) == ValueType(I16) {
        let (x, _r1) = func.ins(p, make_inst(Opcode::Sextend, ValueType(I32), b, 0u32, 0u32, 0i64, IntCC::Equal, TrapCode::User(0), 0u8, 0i32, 0u32, 0u32), None, None);
        p = p + 1;
        let (y, _r1) = func.ins(p, make_inst(Opcode::Sextend, ValueType(I32), c, 0u32, 0u32, 0i64, IntCC::Equal, TrapCode::User(0), 0u8, 0i32, 0u32, 0u32), None, None);
        p = p + 1;
        let ty2 = func.value_type(x);
        let (z, _r1) = func.ins(p, make_inst(Opcode::Sdiv, ty2, x, y, 0u32, 0i64, IntCC::Equal, TrapCode::User(0), 0u8, 0i32, 0u32, 0u32), None, None);
        p = p + 1;
        func.replace(inst, make_inst(Opcode::Ireduce, ValueType(I16), z, 0u32, 0u32, 0i64, IntCC::Equal, TrapCode::User(0), 0u8, 0i32, 0u32, 0u32));
        return true;
    }
    false
}

/// The function after the widening of a `sdiv_imm` instruction, or `None` where no pattern applies.
#[verifier::opaque]
pub open spec fn widen_sdiv_imm_spec(v: FuncView, inst: Inst, pos: int, d: InstData) -> Option<FuncView> {
    let p = pos;
    let b = d.arg0;
    let c = d.imm;
    if value_type_of(v, d.arg0) == ValueType(I8) {
        let (new0, new1) = s_ins_results(v, inst_of(Opcode::Sextend, ValueType(I32), b, 0u32, 0u32, 0i64, IntCC::Equal, TrapCode::User(0), 0u8, 0i32, 0u32, 0u32), None, None);
        let v = s_ins(v, p, inst_of(Opcode::Sextend, ValueType(I32), b, 0u32, 0u32, 0i64, IntCC::Equal, TrapCode::User(0), 0u8, 0i32, 0u32, 0u32), None, None);
        let (x, _r1) = (new0, new1);
        let p = p + 1;
        let (new0, new1) = s_ins_results(v, inst_of(Opcode::SdivImm, value_type_of(v, x), x, 0u32, 0u32, c, IntCC::Equal, TrapCode::User(0), 0u8, 0i32, 0u32, 0u32), None, None);
        let v = s_ins(v, p, inst_of(Opcode::SdivImm, value_type_of(v, x), x, 0u32, 0u32, c, IntCC::Equal, TrapCode::User(0), 0u8, 0i32, 0u32, 0u32), None, None);
        let (z, _r1) = (new0, new1);
        let p = p + 1;
        let v = s_replace(v, inst, inst_of(Opcode::Ireduce, ValueType(I8), z, 0u32, 0u32, 0i64, IntCC::Equal, TrapCode::User(0), 0u8, 0i32, 0u32, 0u32));
        Some(v)
} else {
    if value_type_of(v, d.arg0) == ValueType(I16) {
        let (new0, new1) = s_ins_results(v, inst_of(Opcode::Sextend, ValueType(I32), b, 0u32, 0u32, 0i64, IntCC::Equal, TrapCode::User(0), 0u8, 0i32, 0u32, 0u32), None, None);
        let v = s_ins(v, p, inst_of(Opcode::Sextend, ValueType(I32), b, 0u32, 0u32, 0i64, IntCC::Equal, TrapCode::User(0), 0u8, 0i32, 0u32, 0u32), None, None);
        let (x, _r1) = (new0, new1);
        let p = p + 1;
        let (new0, new1) = s_ins_results(v, inst_of(Opcode::SdivImm, value_type_of(v, x), x, 0u32, 0u32, c, IntCC::Equal, TrapCode::User(0), 0u8, 0i32, 0u32, 0u32), None, None);
        let v = s_ins(v, p, inst_of(Opcode::SdivImm, value_type_of(v, x), x, 0u32, 0u32, c, IntCC::Equal, TrapCode::User(0), 0u8, 0i32, 0u32, 0u32), None, None);
        let (z, _r1) = (new0, new1);
        let p = p + 1;
        let v = s_replace(v, inst, inst_of(Opcode::Ireduce, ValueType(I16), z, 0u32, 0u32, 0i64, IntCC::Equal, TrapCode::User(0), 0u8, 0i32, 0u32, 0u32));
        Some(v)
} else {
    None
}
}
}

/// Legalize a `sdiv_imm` instruction by widening.
fn widen_sdiv_imm(inst: Inst, pos: usize, d: InstData, func: &mut Function) -> (r: bool)
    requires
        pattern_input(old(func)@, inst, pos as int, d),
    ensures
        pattern_outcome(old(func)@, final(func)@, r, widen_sdiv_imm_spec(old(func)@, inst, pos as int, d)),
        final(func).encodings@ == old(func).encodings@,
        func_wf(final(func)@),
        r ==> final(func)@.0.len() > old(func)@.0.len(),
        keeps_before(old(func)@, final(func)@, inst, pos as int),
{
    proof {
        reveal(widen_sdiv_imm_spec);
    }
    let mut p = pos;
    let b = d.arg0;
    let c = d.imm;
    if func.value_type(d.arg0) == ValueType(I8) {
        let (x, _r1) = func.ins(p, make_inst(Opcode::Sextend, ValueType(I32), b, 0u32, 0u32, 0i64, IntCC::Equal, TrapCode::User(0), 0u8, 0i32, 0u32, 0u32), None, None);
        p = p + 1;
        let ty1 = func.value_type(x);
        let (z, _r1) = func.ins(p, make_inst(Opcode::SdivImm, ty1, x, 0u32, 0u32, c, IntCC::Equal, TrapCode::User(0), 0u8, 0i32, 0u32, 0u32), None, None);
        p = p + 1;
        func.replace(inst, make_inst(Opcode::Ireduce, ValueType(I8), z, 0u32, 0u32, 0i64, IntCC::Equal, TrapCode::User(0), 0u8, 0i32, 0u32, 0u32));
        return true;
    }
    if func.value_type(d.arg0) == ValueType(I16) {
        let (x, _r1) = func.ins(p, make_inst(Opcode::Sextend, ValueType(I32), b, 0u32, 0u32, 0i64, IntCC::Equal, TrapCode::User(0), 0u8, 0i32, 0u32, 0u32), None, None);
        p = p + 1;
        let ty2 = func.value_type(x);
        let (z, _r1) = func.ins(p, make_inst(Opcode::SdivImm, ty2, x, 0u32, 0u32, c, IntCC::Equal, TrapCode::User(0), 0u8, 0i32, 0u32, 0u32), None, None);
        p = p + 1;
        func.replace(inst, make_inst(Opcode::Ireduce, ValueType(I16), z, 0u32, 0u32, 0i64, IntCC::Equal, TrapCode::User(0), 0u8, 0i32, 0u32, 0u32));
        return true;
    }
    false
}

/// The function after the widening of a `sextend` instruction, or `None` where no pattern applies.
#[verifier::opaque]
pub open spec fn widen_sextend_spec(v: FuncView, inst: Inst, pos: int, d: InstData) -> Option<FuncView> {
    let p = pos;
    let b = d.arg0;
    if value_type_of(v, d.arg0) == ValueType(I8) && d.ctrl == ValueType(I16) {
        let (new0, new1) = s_ins_results(v, inst_of(Opcode::Sextend, ValueType(I32), b, 0u32, 0u32, 0i64, IntCC::Equal, TrapCode::User(0), 0u8, 0i32, 0u32, 0u32), None, None);
        let v = s_ins(v, p, inst_of(Opcode::Sextend, ValueType(I32), b, 0u32, 0u32, 0i64, IntCC::Equal, TrapCode::User(0), 0u8, 0i32, 0u32, 0u32), None, None);
        let (c, _r1) = (new0, new1);
        let p = p + 1;
        let v = s_replace(v, inst, inst_of(Opcode::Ireduce, ValueType(I16), c, 0u32, 0u32, 0i64, IntCC::Equal, TrapCode::User(0), 0u8, 0i32, 0u32, 0u32));
        Some(v)
} else {
    None
}
}

/// Legalize a `sextend` instruction by widening.
fn widen_sextend(inst: Inst, pos: usize, d: InstData, func: &mut Function) -> (r: bool)
    requires
        pattern_input(old(func)@, inst, pos as int, d),
    ensures
        pattern_outcome(old(func)@, final(func)@, r, widen_sextend_spec(old(func)@, inst, pos as int, d)),
        final(func).encodings@ == old(func).encodings@,
        func_wf(final(func)@),
        r ==> final(func)@.0.len() > old(func)@.0.len(),
        keeps_before(old(func)@, final(func)@, inst, pos as int),
{
    proof {
        reveal(widen_sextend_spec);
    }
    let mut p = pos;
    let b = d.arg0;
    if func.value_type(d.arg0) == ValueType(I8) && d.ctrl == ValueType(I16) {
        let (c, _r1) = func.ins(p, make_inst(Opcode::Sextend, ValueType(I32), b, 0u32, 0u32, 0i64, IntCC::Equal, TrapCode::User(0), 0u8, 0i32, 0u32, 0u32), None, None);
        p = p + 1;
        func.replace(inst, make_inst(Opcode::Ireduce, ValueType(I16), c, 0u32, 0u32, 0i64, IntCC::Equal, TrapCode::User(0), 0u8, 0i32, 0u32, 0u32));
        return true;
    }
    false
}

/// The function after the widening of a `srem` instruction, or `None` where no pattern applies.
#[verifier::opaque]
pub open spec fn widen_srem_spec(v: FuncView, inst: Inst, pos: int, d: InstData) -> Option<FuncView> {
    let p = pos;
    let b = d.arg0;
    let c = d.arg1;
    if value_type_of(v, d.arg0) == ValueType(I8) {
        let (new0, new1) = s_ins_results(v, inst_of(Opcode::Sextend, ValueType(I32), b, 0u32, 0u32, 0i64, IntCC::Equal, TrapCode::User(0), 0u8, 0i32, 0u32, 0u32), None, None);
        let v = s_ins(v, p, inst_of(Opcode::Sextend, ValueType(I32), b, 0u32, 0u32, 0i64, IntCC::Equal, TrapCode::User(0), 0u8, 0i32, 0u32, 0u32), None, None);
        let (x, _r1) = (new0, new1);
        let p = p + 1;
        let (new0, new1) = s_ins_results(v, inst_of(Opcode::Sextend, ValueType(I32), c, 0u32, 0u32, 0i64, IntCC::Equal, TrapCode::User(0), 0u8, 0i32, 0u32, 0u32), None, None);
        let v = s_ins(v, p, inst_of(Opcode::Sextend, ValueType(I32), c, 0u32, 0u32, 0i64, IntCC::Equal, TrapCode::User(0), 0u8, 0i32, 0u32, 0u32), None, None);
        let (y, _r1) = (new0, new1);
        let p = p + 1;
        let (new0, new1) = s_ins_results(v, inst_of(Opcode::Srem, value_type_of(v, x), x, y, 0u32, 0i64, IntCC::Equal, TrapCode::User(0), 0u8, 0i32, 0u32, 0u32), None, None);
        let v = s_ins(v, p, inst_of(Opcode::Srem, value_type_of(v, x), x, y, 0u32, 0i64, IntCC::Equal, TrapCode::User(0), 0u8, 0i32, 0u32, 0u32), None, None);
        let (z, _r1) = (new0, new1);
        let p = p + 1;
        let v = s_replace(v, inst, inst_of(Opcode::Ireduce, ValueType(I8), z, 0u32, 0u32, 0i64, IntCC::Equal, TrapCode::User(0), 0u8, 0i32, 0u32, 0u32));
        Some(v)
} else {
    if value_type_of(v, d.arg0) == ValueType(I16) {
        let (new0, new1) = s_ins_results(v, inst_of(Opcode::Sextend, ValueType(I32), b, 0u32, 0u32, 0i64, IntCC::Equal, TrapCode::User(0), 0u8, 0i32, 0u32, 0u32), None, None);
        let v = s_ins(v, p, inst_of(Opcode::Sextend, ValueType(I32), b, 0u32, 0u32, 0i64, IntCC::Equal, TrapCode::User(0), 0u8, 0i32, 0u32, 0u32), None, None);
        let (x, _r1) = (new0, new1);
        let p = p + 1;
        let (new0, new1) = s_ins_results(v, inst_of(Opcode::Sextend, ValueType(I32), c, 0u32, 0u32, 0i64, IntCC::Equal, TrapCode::User(0), 0u8, 0i32, 0u32, 0u32), None, None);
        let v = s_ins(v, p, inst_of(Opcode::Sextend, ValueType(I32), c, 0u32, 0u32, 0i64, IntCC::Equal, TrapCode::User(0), 0u8, 0i32, 0u32, 0u32), None, None);
        let (y, _r1) = (new0, new1);
        let p = p + 1;
        let (new0, new1) = s_ins_results(v, inst_of(Opcode::Srem, value_type_of(v, x), x, y, 0u32, 0i64, IntCC::Equal, TrapCode::User(0), 0u8, 0i32, 0u32, 0u32), None, None);
        let v = s_ins(v, p, inst_of(Opcode::Srem, value_type_of(v, x), x, y, 0u32, 0i64, IntCC::Equal, TrapCode::User(0), 0u8, 0i32, 0u32, 0u32), None, None);
        let (z, _r1) = (new0, new1);
        let p = p + 1;
        let v = s_replace(v, inst, inst_of(Opcode::Ireduce, ValueType(I16), z, 0u32, 0u32, 0i64, IntCC::Equal, TrapCode::User(0), 0u8, 0i32, 0u32, 0u32));
        Some(v)
} else {
    None
}
}
}

/// Legalize a `srem` instruction by widening.
fn widen_srem(inst: Inst, pos: usize, d: InstData, func: &mut Function) -> (r: bool)
    requires
        pattern_input(old(func)@, inst, pos as int, d),
    ensures
        pattern_outcome(old(func)@, final(func)@, r, widen_srem_spec(old(func)@, inst, pos as int, d)),
        final(func).encodings@ == old(func).encodings@,
        func_wf(final(func)@),
        r ==> final(func)@.0.len() > old(func)@.0.len(),
        keeps_before(old(func)@, final(func)@, inst, pos as int),
{
    proof {
        reveal(widen_srem_spec);
    }
    let mut p = pos;
    let b = d.arg0;
    let c = d.arg1;
    if func.value_type(d.arg0) == ValueType(I8) {
        let (x, _r1) = func.ins(p, make_inst(Opcode::Sextend, ValueType(I32), b, 0u32, 0u32, 0i64, IntCC::Equal, TrapCode::User(0), 0u8, 0i32, 0u32, 0u32), None, None);
        p = p + 1;
        let (y, _r1) = func.ins(p, make_inst(Opcode::Sextend, ValueType(I32), c, 0u32, 0u32, 0i64, IntCC::Equal, TrapCode::User(0), 0u8, 0i32, 0u32, 0u32), None, None);
        p = p + 1;
        let ty1 = func.value_type(x);
        let (z, _r1) = func.ins(p, make_inst(Opcode::Srem, ty1, x, y, 0u32, 0i64, IntCC::Equal, TrapCode::User(0), 0u8, 0i32, 0u32, 0u32), None, None);
        p = p + 1;
        func.replace(inst, make_inst(Opcode::Ireduce, ValueType(I8), z, 0u32, 0u32, 0i64, IntCC::Equal, TrapCode::User(0), 0u8, 0i32, 0u32, 0u32));
        return true;
    }
    if func.value_type(d.arg0) == ValueType(I16) {
        let (x, _r1) = func.ins(p, make_inst(Opcode::Sextend, ValueType(I32), b, 0u32, 0u32, 0i64, IntCC::Equal, TrapCode::User(0), 0u8, 0i32, 0u32, 0u32), None, None);
        p = p + 1;
        let (y, _r1) = func.ins(p, make_inst(Opcode::Sextend, ValueType(I32), c, 0u32, 0u32, 0i64, IntCC::Equal, TrapCode::User(0), 0u8, 0i32, 0u32, 0u32), None, None);
        p = p + 1;
        let ty2 = func.value_type(x);
        let (z, _r1) = func.ins(p, make_inst(Opcode::Srem, ty2, x, y, 0u32, 0i64, IntCC::Equal, TrapCode::User(0), 0u8, 0i32, 0u32, 0u32), None, None);
        p = p + 1;
        func.replace(inst, make_inst(Opcode::Ireduce, ValueType(I16), z, 0u32, 0u32, 0i64, IntCC::Equal, TrapCode::User(0), 0u8, 0i32, 0u32, 0u32));
        return true;
    }
    false
}

/// The function after the widening of a `srem_imm` instruction, or `None` where no pattern applies.
#[verifier::opaque]
pub open spec fn widen_srem_imm_spec(v: FuncView, inst: Inst, pos: int, d: InstData) -> Option<FuncView> {
    let p = pos;
    let b = d.arg0;
    let c = d.imm;
    if value_type_of(v, d.arg0) == ValueType(I8) {
        let (new0, new1) = s_ins_results(v, inst_of(Opcode::Sextend, ValueType(I32), b, 0u32, 0u32, 0i64, IntCC::Equal, TrapCode::User(0), 0u8, 0i32, 0u32, 0u32), None, None);
        let v = s_ins(v, p, inst_of(Opcode::Sextend, ValueType(I32), b, 0u32, 0u32, 0i64, IntCC::Equal, TrapCode::User(0), 0u8, 0i32, 0u32, 0u32), None, None);
        let (x, _r1) = (new0, new1);
        let p = p + 1;
        let (new0, new1) = s_ins_results(v, inst_of(Opcode::SremImm, value_type_of(v, x), x, 0u32, 0u32, c, IntCC::Equal, TrapCode::User(0), 0u8, 0i32, 0u32, 0u32), None, None);
        let v = s_ins(v, p, inst_of(Opcode::SremImm, value_type_of(v, x), x, 0u32, 0u32, c, IntCC::Equal, TrapCode::User(0), 0u8, 0i32, 0u32, 0u32), None, None);
        let (z, _r1) = (new0, new1);
        let p = p + 1;
        let v = s_replace(v, inst, inst_of(Opcode::Ireduce, ValueType(I8), z, 0u32, 0u32, 0i64, IntCC::Equal, TrapCode::User(0), 0u8, 0i32, 0u32, 0u32));
        Some(v)
} else {
    if value_type_of(v, d.arg0) == ValueType(I16) {
        let (new0, new1) = s_ins_results(v, inst_of(Opcode::Sextend, ValueType(I32), b, 0u32, 0u32, 0i64, IntCC::Equal, TrapCode::User(0), 0u8, 0i32, 0u32, 0u32), None, None);
        let v = s_ins(v, p, inst_of(Opcode::Sextend, ValueType(I32), b, 0u32, 0u32, 0i64, IntCC::Equal, TrapCode::User(0), 0u8, 0i32, 0u32, 0u32), None, None);
        let (x, _r1) = (new0, new1);
        let p = p + 1;
        let (new0, new1) = s_ins_results(v, inst_of(Opcode::SremImm, value_type_of(v, x), x, 0u32, 0u32, c, IntCC::Equal, TrapCode::User(0), 0u8, 0i32, 0u32, 0u32), None, None);
        let v = s_ins(v, p, inst_of(Opcode::SremImm, value_type_of(v, x), x, 0u32, 0u32, c, IntCC::Equal, TrapCode::User(0), 0u8, 0i32, 0u32, 0u32), None, None);
        let (z, _r1) = (new0, new1);
        let p = p + 1;
        let v = s_replace(v, inst, inst_of(Opcode::Ireduce, ValueType(I16), z, 0u32, 0u32, 0i64, IntCC::Equal, TrapCode::User(0), 0u8, 0i32, 0u32, 0u32));
        Some(v)
} else {
    None
}
}
}

/// Legalize a `srem_imm` instruction by widening.
fn widen_srem_imm(inst: Inst, pos: usize, d: InstData, func: &mut Function) -> (r: bool)
    requires
        pattern_input(old(func)@, inst, pos as int, d),
    ensures
        pattern_outcome(old(func)@, final(func)@, r, widen_srem_imm_spec(old(func)@, inst, pos as int, d)),
        final(func).encodings@ == old(func).encodings@,
        func_wf(final(func)@),
        r ==> final(func)@.0.len() > old(func)@.0.len(),
        keeps_before(old(func)@, final(func)@, inst, pos as int),
{
    proof {
        reveal(widen_srem_imm_spec);
    }
    let mut p = pos;
    let b = d.arg0;
    let c = d.imm;
    if func.value_type(d.arg0) == ValueType(I8) {
        let (x, _r1) = func.ins(p, make_inst(Opcode::Sextend, ValueType(I32), b, 0u32, 0u32, 0i64, IntCC::Equal, TrapCode::User(0), 0u8, 0i32, 0u32, 0u32), None, None);
        p = p + 1;
        let ty1 = func.value_type(x);
        let (z, _r1) = func.ins(p, make_inst(Opcode::SremImm, ty1, x, 0u32, 0u32, c, IntCC::Equal, TrapCode::User(0), 0u8, 0i32, 0u32, 0u32), None, None);
        p = p + 1;
        func.replace(inst, make_inst(Opcode::Ireduce, ValueType(I8), z, 0u32, 0u32, 0i64, IntCC::Equal, TrapCode::User(0), 0u8, 0i32, 0u32, 0u32));
        return true;
    }
    if func.value_type(d.arg0) == ValueType(I16) {
        let (x, _r1) = func.ins(p, make_inst(Opcode::Sextend, ValueType(I32), b, 0u32, 0u32, 0i64, IntCC::Equal, TrapCode::User(0), 0u8, 0i32, 0u32, 0u32), None, None);
        p = p + 1;
        let ty2 = func.value_type(x);
        let (z, _r1) = func.ins(p, make_inst(Opcode::SremImm, ty2, x, 0u32, 0u32, c, IntCC::Equal, TrapCode::User(0), 0u8, 0i32, 0u32, 0u32), None, None);
        p = p + 1;
        func.replace(inst, make_inst(Opcode::Ireduce, ValueType(I16), z, 0u32, 0u32, 0i64, IntCC::Equal, TrapCode::User(0), 0u8, 0i32, 0u32, 0u32));
        return true;
    }
    false
}

/// The function after the widening of a `sshr` instruction, or `None` where no pattern applies.
#[verifier::opaque]
pub open spec fn widen_sshr_spec(v: FuncView, inst: Inst, pos: int, d: InstData) -> Option<FuncView> {
    let p = pos;
    let b = d.arg0;
    let c = d.arg1;
    let typeof_c = value_type_of(v, c);
    if value_type_of(v, d.arg0) == ValueType(I8) {
        let (new0, new1) = s_ins_results(v, inst_of(Opcode::Sextend, ValueType(I32), b, 0u32, 0u32, 0i64, IntCC::Equal, TrapCode::User(0), 0u8, 0i32, 0u32, 0u32), None, None);
        let v = s_ins(v, p, inst_of(Opcode::Sextend, ValueType(I32), b, 0u32, 0u32, 0i64, IntCC::Equal, TrapCode::User(0), 0u8, 0i32, 0u32, 0u32), None, None);
        let (x, _r1) = (new0, new1);
        let p = p + 1;
        let (new0, new1) = s_ins_results(v, inst_of(Opcode::Sshr, value_type_of(v, x), x, c, 0u32, 0i64, IntCC::Equal, TrapCode::User(0), 0u8, 0i32, 0u32, 0u32), None, None);
        let v = s_ins(v, p, inst_of(Opcode::Sshr, value_type_of(v, x), x, c, 0u32, 0i64, IntCC::Equal, TrapCode::User(0), 0u8, 0i32, 0u32, 0u32), None, None);
        let (z, _r1) = (new0, new1);
        let p = p + 1;
        let v = s_replace(v, inst, inst_of(Opcode::Ireduce, ValueType(I8), z, 0u32, 0u32, 0i64, IntCC::Equal, TrapCode::User(0), 0u8, 0i32, 0u32, 0u32));
        Some(v)
} else {
    if value_type_of(v, d.arg0) == ValueType(I16) {
        let (new0, new1) = s_ins_results(v, inst_of(Opcode::Sextend, ValueType(I32), b, 0u32, 0u32, 0i64, IntCC::Equal, TrapCode::User(0), 0u8, 0i32, 0u32, 0u32), None, None);
        let v = s_ins(v, p, inst_of(Opcode::Sextend, ValueType(I32), b, 0u32, 0u32, 0i64, IntCC::Equal, TrapCode::User(0), 0u8, 0i32, 0u32, 0u32), None, None);
        let (x, _r1) = (new0, new1);
        let p = p + 1;
        let (new0, new1) = s_ins_results(v, inst_of(Opcode::Sshr, value_type_of(v, x), x, c, 0u32, 0i64, IntCC::Equal, TrapCode::User(0), 0u8, 0i32, 0u32, 0u32), None, None);
        let v = s_ins(v, p, inst_of(Opcode::Sshr, value_type_of(v, x), x, c, 0u32, 0i64, IntCC::Equal, TrapCode::User(0), 0u8, 0i32, 0u32, 0u32), None, None);
        let (z, _r1) = (new0, new1);
        let p = p + 1;
        let v = s_replace(v, inst, inst_of(Opcode::Ireduce, ValueType(I16), z, 0u32, 0u32, 0i64, IntCC::Equal, TrapCode::User(0), 0u8, 0i32, 0u32, 0u32));
        Some(v)
} else {
    None
}
}
}

/// Legalize a `sshr` instruction by widening.
fn widen_sshr(inst: Inst, pos: usize, d: InstData, func: &mut Function) -> (r: bool)
    requires
        pattern_input(old(func)@, inst, pos as int, d),
    ensures
        pattern_outcome(old(func)@, final(func)@, r, widen_sshr_spec(old(func)@, inst, pos as int, d)),
        final(func).encodings@ == old(func).encodings@,
        func_wf(final(func)@),
        r ==> final(func)@.0.len() > old(func)@.0.len(),
        keeps_before(old(func)@, final(func)@, inst, pos as int),
{
    proof {
        reveal(widen_sshr_spec);
    }
    let mut p = pos;
    let b = d.arg0;
    let c = d.arg1;
    let typeof_c = func.value_type(c);
    if func.value_type(d.arg0) == ValueType(I8) {
        let (x, _r1) = func.ins(p, make_inst(Opcode::Sextend, ValueType(I32), b, 0u32, 0u32, 0i64, IntCC::Equal, TrapCode::User(0), 0u8, 0i32, 0u32, 0u32), None, None);
        p = p + 1;
        let ty1 = func.value_type(x);
        let (z, _r1) = func.ins(p, make_inst(Opcode::Sshr, ty1, x, c, 0u32, 0i64, IntCC::Equal, TrapCode::User(0), 0u8, 0i32, 0u32, 0u32), None, None);
        p = p + 1;
        func.replace(inst, make_inst(Opcode::Ireduce, ValueType(I8), z, 0u32, 0u32, 0i64, IntCC::Equal, TrapCode::User(0), 0u8, 0i32, 0u32, 0u32));
        return true;
    }
    if func.value_type(d.arg0) == ValueType(I16) {
        let (x, _r1) = func.ins(p, make_inst(Opcode::Sextend, ValueType(I32), b, 0u32, 0u32, 0i64, IntCC::Equal, TrapCode::User(0), 0u8, 0i32, 0u32, 0u32), None, None);
        p = p + 1;
        let ty2 = func.value_type(x);
        let (z, _r1) = func.ins(p, make_inst(Opcode::Sshr, ty2, x, c, 0u32, 0i64, IntCC::Equal, TrapCode::User(0), 0u8, 0i32, 0u32, 0u32), None, None);
        p = p + 1;
        func.replace(inst, make_inst(Opcode::Ireduce, ValueType(I16), z, 0u32, 0u32, 0i64, IntCC::Equal, TrapCode::User(0), 0u8, 0i32, 0u32, 0u32));
        return true;
    }
    false
}

/// The function after the widening of a `sshr_imm` instruction, or `None` where no pattern applies.
#[verifier::opaque]
pub open spec fn widen_sshr_imm_spec(v: FuncView, inst: Inst, pos: int, d: InstData) -> Option<FuncView> {
    let p = pos;
    let b = d.arg0;
    let c = d.imm;
    if value_type_of(v, d.arg0) == ValueType(I8) {
        let (new0, new1) = s_ins_results(v, inst_of(Opcode::Sextend, ValueType(I32), b, 0u32, 0u32, 0i64, IntCC::Equal, TrapCode::User(0), 0u8, 0i32, 0u32, 0u32), None, None);
        let v = s_ins(v, p, inst_of(Opcode::Sextend, ValueType(I32), b, 0u32, 0u32, 0i64, IntCC::Equal, TrapCode::User(0), 0u8, 0i32, 0u32, 0u32), None, None);
        let (x, _r1) = (new0, new1);
        let p = p + 1;
        let (new0, new1) = s_ins_results(v, inst_of(Opcode::SshrImm, value_type_of(v, x), x, 0u32, 0u32, c, IntCC::Equal, TrapCode::User(0), 0u8, 0i32, 0u32, 0u32), None, None);
        let v = s_ins(v, p, inst_of(Opcode::SshrImm, value_type_of(v, x), x, 0u32, 0u32, c, IntCC::Equal, TrapCode::User(0), 0u8, 0i32, 0u32, 0u32), None, None);
        let (z, _r1) = (new0, new1);
        let p = p + 1;
        let v = s_replace(v, inst, inst_of(Opcode::Ireduce, ValueType(I8), z, 0u32, 0u32, 0i64, IntCC::Equal, TrapCode::User(0), 0u8, 0i32, 0u32, 0u32));
        Some(v)
} else {
    if value_type_of(v, d.arg0) == ValueType(I16) {
        let (new0, new1) = s_ins_results(v, inst_of(Opcode::Sextend, ValueType(I32), b, 0u32, 0u32, 0i64, IntCC::Equal, TrapCode::User(0), 0u8, 0i32, 0u32, 0u32), None, None);
        let v = s_ins(v, p, inst_of(Opcode::Sextend, ValueType(I32), b, 0u32, 0u32, 0i64, IntCC::Equal, TrapCode::User(0), 0u8, 0i32, 0u32, 0u32), None, None);
        let (x, _r1) = (new0, new1);
        let p = p + 1;
        let (new0, new1) = s_ins_results(v, inst_of(Opcode::SshrImm, value_type_of(v, x), x, 0u32, 0u32, c, IntCC::Equal, TrapCode::User(0), 0u8, 0i32, 0u32, 0u32), None, None);
        let v = s_ins(v, p, inst_of(Opcode::SshrImm, value_type_of(v, x), x, 0u32, 0u32, c, IntCC::Equal, TrapCode::User(0), 0u8, 0i32, 0u32, 0u32), None, None);
        let (z, _r1) = (new0, new1);
        let p = p + 1;
        let v = s_replace(v, inst, inst_of(Opcode::Ireduce, ValueType(I16), z, 0u32, 0u32, 0i64, IntCC::Equal, TrapCode::User(0), 0u8, 0i32, 0u32, 0u32));
        Some(v)
} else {
    None
}
}
}

/// Legalize a `sshr_imm` instruction by widening.
fn widen_sshr_imm(inst: Inst, pos: usize, d: InstData, func: &mut Function) -> (r: bool)
    requires
        pattern_input(old(func)@, inst, pos as int, d),
    ensures
        pattern_outcome(old(func)@, final(func)@, r, widen_sshr_imm_spec(old(func)@, inst, pos as int, d)),
        final(func).encodings@ == old(func).encodings@,
        func_wf(final(func)@),
        r ==> final(func)@.0.len() > old(func)@.0.len(),
        keeps_before(old(func)@, final(func)@, inst, pos as int),
{
    proof {
        reveal(widen_sshr_imm_spec);
    }
    let mut p = pos;
    let b = d.arg0;
    let c = d.imm;
    if func.value_type(d.arg0) == ValueType(I8) {
        let (x, _r1) = func.ins(p, make_inst(Opcode::Sextend, ValueType(I32), b, 0u32, 0u32, 0i64, IntCC::Equal, TrapCode::User(0), 0u8, 0i32, 0u32, 0u32), None, None);
        p = p + 1;
        let ty1 = func.value_type(x);
        let (z, _r1) = func.ins(p, make_inst(Opcode::SshrImm, ty1, x, 0u32, 0u32, c, IntCC::Equal, TrapCode::User(0), 0u8, 0i32, 0u32, 0u32), None, None);
        p = p + 1;
        func.replace(inst, make_inst(Opcode::Ireduce, ValueType(I8), z, 0u32, 0u32, 0i64, IntCC::Equal, TrapCode::User(0), 0u8, 0i32, 0u32, 0u32));
        return true;
    }
    if func.value_type(d.arg0) == ValueType(I16) {
        let (x, _r1) = func.ins(p, make_inst(Opcode::Sextend, ValueType(I32), b, 0u32, 0u32, 0i64, IntCC::Equal, TrapCode::User(0), 0u8, 0i32, 0u32, 0u32), None, None);
        p = p + 1;
        let ty2 = func.value_type(x);
        let (z, _r1) = func.ins(p, make_inst(Opcode::SshrImm, ty2, x, 0u32, 0u32, c, IntCC::Equal, TrapCode::User(0), 0u8, 0i32, 0u32, 0u32), None, None);
        p = p + 1;
        func.replace(inst, make_inst(Opcode::Ireduce, ValueType(I16), z, 0u32, 0u32, 0i64, IntCC::Equal, TrapCode::User(0), 0u8, 0i32, 0u32, 0u32));
        return true;
    }
    false
}

/// The function after the widening of a `store` instruction, or `None` where no pattern applies.
#[verifier::opaque]
pub open spec fn widen_store_spec(v: FuncView, inst: Inst, pos: int, d: InstData) -> Option<FuncView> {
    let p = pos;
    let flags = d.flags;
    let a = d.arg0;
    let ptr = d.arg1;
    let off = d.offset;
    let typeof_ptr = value_type_of(v, ptr);
    if value_type_of(v, d.arg0) == ValueType(I8) {
        let v = s_clear_results(v, inst);
        let (new0, new1) = s_ins_results(v, inst_of(Opcode::Uextend, ValueType(I32), a, 0u32, 0u32, 0i64, IntCC::Equal, TrapCode::User(0), 0u8, 0i32, 0u32, 0u32), None, None);
        let v = s_ins(v, p, inst_of(Opcode::Uextend, ValueType(I32), a, 0u32, 0u32, 0i64, IntCC::Equal, TrapCode::User(0), 0u8, 0i32, 0u32, 0u32), None, None);
        let (b, _r1) = (new0, new1);
        let p = p + 1;
        let (new0, new1) = s_ins_results(v, inst_of(Opcode::Istore8, value_type_of(v, b), b, ptr, 0u32, 0i64, IntCC::Equal, TrapCode::User(0), flags, off, 0u32, 0u32), None, None);
        let v = s_ins(v, p, inst_of(Opcode::Istore8, value_type_of(v, b), b, ptr, 0u32, 0i64, IntCC::Equal, TrapCode::User(0), flags, off, 0u32, 0u32), None, None);
        let (_r0, _r1) = (new0, new1);
        let p = p + 1;
        let v = s_remove(v, p);
        Some(v)
} else {
    if value_type_of(v, d.arg0) == ValueType(I16) {
        let v = s_clear_results(v, inst);
        let (new0, new1) = s_ins_results(v, inst_of(Opcode::Uextend, ValueType(I32), a, 0u32, 0u32, 0i64, IntCC::Equal, TrapCode::User(0), 0u8, 0i32, 0u32, 0u32), None, None);
        let v = s_ins(v, p, inst_of(Opcode::Uextend, ValueType(I32), a, 0u32, 0u32, 0i64, IntCC::Equal, TrapCode::User(0), 0u8, 0i32, 0u32, 0u32), None, None);
        let (b, _r1) = (new0, new1);
        let p = p + 1;
        let (new0, new1) = s_ins_results(v, inst_of(Opcode::Istore16, value_type_of(v, b), b, ptr, 0u32, 0i64, IntCC::Equal, TrapCode::User(0), flags, off, 0u32, 0u32), None, None);
        let v = s_ins(v, p, inst_of(Opcode::Istore16, value_type_of(v, b), b, ptr, 0u32, 0i64, IntCC::Equal, TrapCode::User(0), flags, off, 0u32, 0u32), None, None);
        let (_r0, _r1) = (new0, new1);
        let p = p + 1;
        let v = s_remove(v, p);
        Some(v)
} else {
    None
}
}
}

/// Legalize a `store` instruction by widening.
fn widen_store(inst: Inst, pos: usize, d: InstData, func: &mut Function) -> (r: bool)
    requires
        pattern_input(old(func)@, inst, pos as int, d),
    ensures
        pattern_outcome(old(func)@, final(func)@, r, widen_store_spec(old(func)@, inst, pos as int, d)),
        final(func).encodings@ == old(func).encodings@,
        func_wf(final(func)@),
        r ==> final(func)@.0.len() > old(func)@.0.len(),
        keeps_before(old(func)@, final(func)@, inst, pos as int),
{
    proof {
        reveal(widen_store_spec);
    }
    let mut p = pos;
    let flags = d.flags;
    let a = d.arg0;
    let ptr = d.arg1;
    let off = d.offset;
    let typeof_ptr = func.value_type(ptr);
    if func.value_type(d.arg0) == ValueType(I8) {
        func.clear_results(inst);
        let (b, _r1) = func.ins(p, make_inst(Opcode::Uextend, ValueType(I32), a, 0u32, 0u32, 0i64, IntCC::Equal, TrapCode::User(0), 0u8, 0i32, 0u32, 0u32), None, None);
        p = p + 1;
        let ty1 = func.value_type(b);
        let (_r0, _r1) = func.ins(p, make_inst(Opcode::Istore8, ty1, b, ptr, 0u32, 0i64, IntCC::Equal, TrapCode::User(0), flags, off, 0u32, 0u32), None, None);
        p = p + 1;
        func.remove_inst(p);
        return true;
    }
    if func.value_type(d.arg0) == ValueType(I16) {
        func.clear_results(inst);
        let (b, _r1) = func.ins(p, make_inst(Opcode::Uextend, ValueType(I32), a, 0u32, 0u32, 0i64, IntCC::Equal, TrapCode::User(0), 0u8, 0i32, 0u32, 0u32), None, None);
        p = p + 1;
        let ty2 = func.value_type(b);
        let (_r0, _r1) = func.ins(p, make_inst(Opcode::Istore16, ty2, b, ptr, 0u32, 0i64, IntCC::Equal, TrapCode::User(0), flags, off, 0u32, 0u32), None, None);
        p = p + 1;
        func.remove_inst(p);
        return true;
    }
    false
}

/// The function after the widening of a `udiv` instruction, or `None` where no pattern applies.
#[verifier::opaque]
pub open spec fn widen_udiv_spec(v: FuncView, inst: Inst, pos: int, d: InstData) -> Option<FuncView> {
    let p = pos;
    let b = d.arg0;
    let c = d.arg1;
    if value_type_of(v, d.arg0) == ValueType(I8) {
        let (new0, new1) = s_ins_results(v, inst_of(Opcode::Uextend, ValueType(I32), b, 0u32, 0u32, 0i64, IntCC::Equal, TrapCode::User(0), 0u8, 0i32, 0u32, 0u32), None, None);
        let v = s_ins(v, p, inst_of(Opcode::Uextend, ValueType(I32), b, 0u32, 0u32, 0i64, IntCC::Equal, TrapCode::User(0), 0u8, 0i32, 0u32, 0u32), None, None);
        let (x, _r1) = (new0, new1);
        let p = p + 1;
        let (new0, new1) = s_ins_results(v, inst_of(Opcode::Uextend, ValueType(I32), c, 0u32, 0u32, 0i64, IntCC::Equal, TrapCode::User(0), 0u8, 0i32, 0u32, 0u32), None, None);
        let v = s_ins(v, p, inst_of(Opcode::Uextend, ValueType(I32), c, 0u32, 0u32, 0i64, IntCC::Equal, TrapCode::User(0), 0u8, 0i32, 0u32, 0u32), None, None);
        let (y, _r1) = (new0, new1);
        let p = p + 1;
        let (new0, new1) = s_ins_results(v, inst_of(Opcode::Udiv, value_type_of(v, x), x, y, 0u32, 0i64, IntCC::Equal, TrapCode::User(0), 0u8, 0i32, 0u32, 0u32), None, None);
        let v = s_ins(v, p, inst_of(Opcode::Udiv, value_type_of(v, x), x, y, 0u32, 0i64, IntCC::Equal, TrapCode::User(0), 0u8, 0i32, 0u32, 0u32), None, None);
        let (z, _r1) = (new0, new1);
        let p = p + 1;
        let v = s_replace(v, inst, inst_of(Opcode::Ireduce, ValueType(I8), z, 0u32, 0u32, 0i64, IntCC::Equal, TrapCode::User(0), 0u8, 0i32, 0u32, 0u32));
        Some(v)
} else {
    if value_type_of(v, d.arg0) == ValueType(I16) {
        let (new0, new1) = s_ins_results(v, inst_of(Opcode::Uextend, ValueType(I32), b, 0u32, 0u32, 0i64, IntCC::Equal, TrapCode::User(0), 0u8, 0i32, 0u32, 0u32), None, None);
        let v = s_ins(v, p, inst_of(Opcode::Uextend, ValueType(I32), b, 0u32, 0u32, 0i64, IntCC::Equal, TrapCode::User(0), 0u8, 0i32, 0u32, 0u32), None, None);
        let (x, _r1) = (new0, new1);
        let p = p + 1;
        let (new0, new1) = s_ins_results(v, inst_of(Opcode::Uextend, ValueType(I32), c, 0u32, 0u32, 0i64, IntCC::Equal, TrapCode::User(0), 0u8, 0i32, 0u32, 0u32), None, None);
        let v = s_ins(v, p, inst_of(Opcode::Uextend, ValueType(I32), c, 0u32, 0u32, 0i64, IntCC::Equal, TrapCode::User(0), 0u8, 0i32, 0u32, 0u32), None, None);
        let (y, _r1) = (new0, new1);
        let p = p + 1;
        let (new0, new1) = s_ins_results(v, inst_of(Opcode::Udiv, value_type_of(v, x), x, y, 0u32, 0i64, IntCC::Equal, TrapCode::User(0), 0u8, 0i32, 0u32, 0u32), None, None);
        let v = s_ins(v, p, inst_of(Opcode::Udiv, value_type_of(v, x), x, y, 0u32, 0i64, IntCC::Equal, TrapCode::User(0), 0u8, 0i32, 0u32, 0u32), None, None);
        let (z, _r1) = (new0, new1);
        let p = p + 1;
        let v = s_replace(v, inst, inst_of(Opcode::Ireduce, ValueType(I16), z, 0u32, 0u32, 0i64, IntCC::Equal, TrapCode::User(0), 0u8, 0i32, 0u32, 0u32));
        Some(v)
} else {
    None
}
}
}

/// Legalize a `udiv` instruction by widening.
fn widen_udiv(inst: Inst, pos: usize, d: InstData, func: &mut Function) -> (r: bool)
    requires
        pattern_input(old(func)@, inst, pos as int, d),
    ensures
        pattern_outcome(old(func)@, final(func)@, r, widen_udiv_spec(old(func)@, inst, pos as int, d)),
        final(func).encodings@ == old(func).encodings@,
        func_wf(final(func)@),
        r ==> final(func)@.0.len() > old(func)@.0.len(),
        keeps_before(old(func)@, final(func)@, inst, pos as int),
{
    proof {
        reveal(widen_udiv_spec);
    }
    let mut p = pos;
    let b = d.arg0;
    let c = d.arg1;
    if func.value_type(d.arg0) == ValueType(I8) {
        let (x, _r1) = func.ins(p, make_inst(Opcode::Uextend, ValueType(I32), b, 0u32, 0u32, 0i64, IntCC::Equal, TrapCode::User(0), 0u8, 0i32, 0u32, 0u32), None, None);
        p = p + 1;
        let (y, _r1) = func.ins(p, make_inst(Opcode::Uextend, ValueType(I32), c, 0u32, 0u32, 0i64, IntCC::Equal, TrapCode::User(0), 0u8, 0i32, 0u32, 0u32), None, None);
        p = p + 1;
        let ty1 = func.value_type(x);
        let (z, _r1) = func.ins(p, make_inst(Opcode::Udiv, ty1, x, y, 0u32, 0i64, IntCC::Equal, TrapCode::User(0), 0u8, 0i32, 0u32, 0u32), None, None);
        p = p + 1;
        func.replace(inst, make_inst(Opcode::Ireduce, ValueType(I8), z, 0u32, 0u32, 0i64, IntCC::Equal, TrapCode::User(0), 0u8, 0i32, 0u32, 0u32));
        return true;
    }
    if func.value_type(d.arg0) == ValueType(I16) {
        let (x, _r1) = func.ins(p, make_inst(Opcode::Uextend, ValueType(I32), b, 0u32, 0u32, 0i64, IntCC::Equal, TrapCode::User(0), 0u8, 0i32, 0u32, 0u32), None, None);
        p = p + 1;
        let (y, _r1) = func.ins(p, make_inst(Opcode::Uextend, ValueType(I32), c, 0u32, 0u32, 0i64, IntCC::Equal, TrapCode::User(0), 0u8, 0i32, 0u32, 0u32), None, None);
        p = p + 1;
        let ty2 = func.value_type(x);
        let (z, _r1) = func.ins(p, make_inst(Opcode::Udiv, ty2, x, y, 0u32, 0i64, IntCC::Equal, TrapCode::User(0), 0u8, 0i32, 0u32, 0u32), None, None);
        p = p + 1;
        func.replace(inst, make_inst(Opcode::Ireduce, ValueType(I16), z, 0u32, 0u32, 0i64, IntCC::Equal, TrapCode::User(0), 0u8, 0i32, 0u32, 0u32));
        return true;
    }
    false
}

/// The function after the widening of a `udiv_imm` instruction, or `None` where no pattern applies.
#[verifier::opaque]
pub open spec fn widen_udiv_imm_spec(v: FuncView, inst: Inst, pos: int, d: InstData) -> Option<FuncView> {
    let p = pos;
    let b = d.arg0;
    let c = d.imm;
    if value_type_of(v, d.arg0) == ValueType(I8) {
        let (new0, new1) = s_ins_results(v, inst_of(Opcode::Uextend, ValueType(I32), b, 0u32, 0u32, 0i64, IntCC::Equal, TrapCode::User(0), 0u8, 0i32, 0u32, 0u32), None, None);
        let v = s_ins(v, p, inst_of(Opcode::Uextend, ValueType(I32), b, 0u32, 0u32, 0i64, IntCC::Equal, TrapCode::User(0), 0u8, 0i32, 0u32, 0u32), None, None);
        let (x, _r1) = (new0, new1);
        let p = p + 1;
        let (new0, new1) = s_ins_results(v, inst_of(Opcode::UdivImm, value_type_of(v, x), x, 0u32, 0u32, c, IntCC::Equal, TrapCode::User(0), 0u8, 0i32, 0u32, 0u32), None, None);
        let v = s_ins(v, p, inst_of(Opcode::UdivImm, value_type_of(v, x), x, 0u32, 0u32, c, IntCC::Equal, TrapCode::User(0), 0u8, 0i32, 0u32, 0u32), None, None);
        let (z, _r1) = (new0, new1);
        let p = p + 1;
        let v = s_replace(v, inst, inst_of(Opcode::Ireduce, ValueType(I8), z, 0u32, 0u32, 0i64, IntCC::Equal, TrapCode::User(0), 0u8, 0i32, 0u32, 0u32));
        Some(v)
} else {
    if value_type_of(v, d.arg0) == ValueType(I16) {
        let (new0, new1) = s_ins_results(v, inst_of(Opcode::Uextend, ValueType(I32), b, 0u32, 0u32, 0i64, IntCC::Equal, TrapCode::User(0), 0u8, 0i32, 0u32, 0u32), None, None);
        let v = s_ins(v, p, inst_of(Opcode::Uextend, ValueType(I32), b, 0u32, 0u32, 0i64, IntCC::Equal, TrapCode::User(0), 0u8, 0i32, 0u32, 0u32), None, None);
        let (x, _r1) = (new0, new1);
        let p = p + 1;
        let (new0, new1) = s_ins_results(v, inst_of(Opcode::UdivImm, value_type_of(v, x), x, 0u32, 0u32, c, IntCC::Equal, TrapCode::User(0), 0u8, 0i32, 0u32, 0u32), None, None);
        let v = s_ins(v, p, inst_of(Opcode::UdivImm, value_type_of(v, x), x, 0u32, 0u32, c, IntCC::Equal, TrapCode::User(0), 0u8, 0i32, 0u32, 0u32), None, None);
        let (z, _r1) = (new0, new1);
        let p = p + 1;
        let v = s_replace(v, inst, inst_of(Opcode::Ireduce, ValueType(I16), z, 0u32, 0u32, 0i64, IntCC::Equal, TrapCode::User(0), 0u8, 0i32, 0u32, 0u32));
        Some(v)
} else {
    None
}
}
}

/// Legalize a `udiv_imm` instruction by widening.
fn widen_udiv_imm(inst: Inst, pos: usize, d: InstData, func: &mut Function) -> (r: bool)
    requires
        pattern_input(old(func)@, inst, pos as int, d),
    ensures
        pattern_outcome(old(func)@, final(func)@, r, widen_udiv_imm_spec(old(func)@, inst, pos as int, d)),
        final(func).encodings@ == old(func).encodings@,
        func_wf(final(func)@),
        r ==> final(func)@.0.len() > old(func)@.0.len(),
        keeps_before(old(func)@, final(func)@, inst, pos as int),
{
    proof {
        reveal(widen_udiv_imm_spec);
    }
    let mut p = pos;
    let b = d.arg0;
    let c = d.imm;
    if func.value_type(d.arg0) == ValueType(I8) {
        let (x, _r1) = func.ins(p, make_inst(Opcode::Uextend, ValueType(I32), b, 0u32, 0u32, 0i64, IntCC::Equal, TrapCode::User(0), 0u8, 0i32, 0u32, 0u32), None, None);
        p = p + 1;
        let ty1 = func.value_type(x);
        let (z, _r1) = func.ins(p, make_inst(Opcode::UdivImm, ty1, x, 0u32, 0u32, c, IntCC::Equal, TrapCode::User(0), 0u8, 0i32, 0u32, 0u32), None, None);
        p = p + 1;
        func.replace(inst, make_inst(Opcode::Ireduce, ValueType(I8), z, 0u32, 0u32, 0i64, IntCC::Equal, TrapCode::User(0), 0u8, 0i32, 0u32, 0u32));
        return true;
    }
    if func.value_type(d.arg0) == ValueType(I16) {
        let (x, _r1) = func.ins(p, make_inst(Opcode::Uextend, ValueType(I32), b, 0u32, 0u32, 0i64, IntCC::Equal, TrapCode::User(0), 0u8, 0i32, 0u32, 0u32), None, None);
        p = p + 1;
        let ty2 = func.value_type(x);
        let (z, _r1) = func.ins(p, make_inst(Opcode::UdivImm, ty2, x, 0u32, 0u32, c, IntCC::Equal, TrapCode::User(0), 0u8, 0i32, 0u32, 0u32), None, None);
        p = p + 1;
        func.replace(inst, make_inst(Opcode::Ireduce, ValueType(I16), z, 0u32, 0u32, 0i64, IntCC::Equal, TrapCode::User(0), 0u8, 0i32, 0u32, 0u32));
        return true;
    }
    false
}

/// The function after the widening of a `uextend` instruction, or `None` where no pattern applies.
#[verifier::opaque]
pub open spec fn widen_uextend_spec(v: FuncView, inst: Inst, pos: int, d: InstData) -> Option<FuncView> {
    let p = pos;
    let b = d.arg0;
    if value_type_of(v, d.arg0) == ValueType(I8) && d.ctrl == ValueType(I16) {
        let (new0, new1) = s_ins_results(v, inst_of(Opcode::Uextend, ValueType(I32), b, 0u32, 0u32, 0i64, IntCC::Equal, TrapCode::User(0), 0u8, 0i32, 0u32, 0u32), None, None);
        let v = s_ins(v, p, inst_of(Opcode::Uextend, ValueType(I32), b, 0u32, 0u32, 0i64, IntCC::Equal, TrapCode::User(0), 0u8, 0i32, 0u32, 0u32), None, None);
        let (c, _r1) = (new0, new1);
        let p = p + 1;
        let v = s_replace(v, inst, inst_of(Opcode::Ireduce, ValueType(I16), c, 0u32, 0u32, 0i64, IntCC::Equal, TrapCode::User(0), 0u8, 0i32, 0u32, 0u32));
        Some(v)
} else {
    None
}
}

/// Legalize a `uextend` instruction by widening.
fn widen_uextend(inst: Inst, pos: usize, d: InstData, func: &mut Function) -> (r: bool)
    requires
        pattern_input(old(func)@, inst, pos as int, d),
    ensures
        pattern_outcome(old(func)@, final(func)@, r, widen_uextend_spec(old(func)@, inst, pos as int, d)),
        final(func).encodings@ == old(func).encodings@,
        func_wf(final(func)@),
        r ==> final(func)@.0.len() > old(func)@.0.len(),
        keeps_before(old(func)@, final(func)@, inst, pos as int),
{
    proof {
        reveal(widen_uextend_spec);
    }
    let mut p = pos;
    let b = d.arg0;
    if func.value_type(d.arg0) == ValueType(I8) && d.ctrl == ValueType(I16) {
        let (c, _r1) = func.ins(p, make_inst(Opcode::Uextend, ValueType(I32), b, 0u32, 0u32, 0i64, IntCC::Equal, TrapCode::User(0), 0u8, 0i32, 0u32, 0u32), None, None);
        p = p + 1;
        func.replace(inst, make_inst(Opcode::Ireduce, ValueType(I16), c, 0u32, 0u32, 0i64, IntCC::Equal, TrapCode::User(0), 0u8, 0i32, 0u32, 0u32));
        return true;
    }
    false
}

/// The function after the widening of a `urem` instruction, or `None` where no pattern applies.
#[verifier::opaque]
pub open spec fn widen_urem_spec(v: FuncView, inst: Inst, pos: int, d: InstData) -> Option<FuncView> {
    let p = pos;
    let b = d.arg0;
    let c = d.arg1;
    if value_type_of(v, d.arg0) == ValueType(I8) {
        let (new0, new1) = s_ins_results(v, inst_of(Opcode::Uextend, ValueType(I32), b, 0u32, 0u32, 0i64, IntCC::Equal, TrapCode::User(0), 0u8, 0i32, 0u32, 0u32), None, None);
        let v = s_ins(v, p, inst_of(Opcode::Uextend, ValueType(I32), b, 0u32, 0u32, 0i64, IntCC::Equal, TrapCode::User(0), 0u8, 0i32, 0u32, 0u32), None, None);
        let (x, _r1) = (new0, new1);
        let p = p + 1;
        let (new0, new1) = s_ins_results(v, inst_of(Opcode::Uextend, ValueType(I32), c, 0u32, 0u32, 0i64, IntCC::Equal, TrapCode::User(0), 0u8, 0i32, 0u32, 0u32), None, None);
        let v = s_ins(v, p, inst_of(Opcode::Uextend, ValueType(I32), c, 0u32, 0u32, 0i64, IntCC::Equal, TrapCode::User(0), 0u8, 0i32, 0u32, 0u32), None, None);
        let (y, _r1) = (new0, new1);
        let p = p + 1;
        let (new0, new1) = s_ins_results(v, inst_of(Opcode::Urem, value_type_of(v, x), x, y, 0u32, 0i64, IntCC::Equal, TrapCode::User(0), 0u8, 0i32, 0u32, 0u32), None, None);
        let v = s_ins(v, p, inst_of(Opcode::Urem, value_type_of(v, x), x, y, 0u32, 0i64, IntCC::Equal, TrapCode::User(0), 0u8, 0i32, 0u32, 0u32), None, None);
        let (z, _r1) = (new0, new1);
        let p = p + 1;
        let v = s_replace(v, inst, inst_of(Opcode::Ireduce, ValueType(I8), z, 0u32, 0u32, 0i64, IntCC::Equal, TrapCode::User(0), 0u8, 0i32, 0u32, 0u32));
        Some(v)
} else {
    if value_type_of(v, d.arg0) == ValueType(I16) {
        let (new0, new1) = s_ins_results(v, inst_of(Opcode::Uextend, ValueType(I32), b, 0u32, 0u32, 0i64, IntCC::Equal, TrapCode::User(0), 0u8, 0i32, 0u32, 0u32), None, None);
        let v = s_ins(v, p, inst_of(Opcode::Uextend, ValueType(I32), b, 0u32, 0u32, 0i64, IntCC::Equal, TrapCode::User(0), 0u8, 0i32, 0u32, 0u32), None, None);
        let (x, _r1) = (new0, new1);
        let p = p + 1;
        let (new0, new1) = s_ins_results(v, inst_of(Opcode::Uextend, ValueType(I32), c, 0u32, 0u32, 0i64, IntCC::Equal, TrapCode::User(0), 0u8, 0i32, 0u32, 0u32), None, None);
        let v = s_ins(v, p, inst_of(Opcode::Uextend, ValueType(I32), c, 0u32, 0u32, 0i64, IntCC::Equal, TrapCode::User(0), 0u8, 0i32, 0u32, 0u32), None, None);
        let (y, _r1) = (new0, new1);
        let p = p + 1;
        let (new0, new1) = s_ins_results(v, inst_of(Opcode::Urem, value_type_of(v, x), x, y, 0u32, 0i64, IntCC::Equal, TrapCode::User(0), 0u8, 0i32, 0u32, 0u32), None, None);
        let v = s_ins(v, p, inst_of(Opcode::Urem, value_type_of(v, x), x, y, 0u32, 0i64, IntCC::Equal, TrapCode::User(0), 0u8, 0i32, 0u32, 0u32), None, None);
        let (z, _r1) = (new0, new1);
        let p = p + 1;
        let v = s_replace(v, inst, inst_of(Opcode::Ireduce, ValueType(I16), z, 0u32, 0u32, 0i64, IntCC::Equal, TrapCode::User(0), 0u8, 0i32, 0u32, 0u32));
        Some(v)
} else {
    None
}
}
}

/// Legalize a `urem` instruction by widening.
fn widen_urem(inst: Inst, pos: usize, d: InstData, func: &mut Function) -> (r: bool)
    requires
        pattern_input(old(func)@, inst, pos as int, d),
    ensures
        pattern_outcome(old(func)@, final(func)@, r, widen_urem_spec(old(func)@, inst, pos as int, d)),
        final(func).encodings@ == old(func).encodings@,
        func_wf(final(func)@),
        r ==> final(func)@.0.len() > old(func)@.0.len(),
        keeps_before(old(func)@, final(func)@, inst, pos as int),
{
    proof {
        reveal(widen_urem_spec);
    }
    let mut p = pos;
    let b = d.arg0;
    let c = d.arg1;
    if func.value_type(d.arg0) == ValueType(I8) {
        let (x, _r1) = func.ins(p, make_inst(Opcode::Uextend, ValueType(I32), b, 0u32, 0u32, 0i64, IntCC::Equal, TrapCode::User(0), 0u8, 0i32, 0u32, 0u32), None, None);
        p = p + 1;
        let (y, _r1) = func.ins(p, make_inst(Opcode::Uextend, ValueType(I32), c, 0u32, 0u32, 0i64, IntCC::Equal, TrapCode::User(0), 0u8, 0i32, 0u32, 0u32), None, None);
        p = p + 1;
        let ty1 = func.value_type(x);
        let (z, _r1) = func.ins(p, make_inst(Opcode::Urem, ty1, x, y, 0u32, 0i64, IntCC::Equal, TrapCode::User(0), 0u8, 0i32, 0u32, 0u32), None, None);
        p = p + 1;
        func.replace(inst, make_inst(Opcode::Ireduce, ValueType(I8), z, 0u32, 0u32, 0i64, IntCC::Equal, TrapCode::User(0), 0u8, 0i32, 0u32, 0u32));
        return true;
    }
    if func.value_type(d.arg0) == ValueType(I16) {
        let (x, _r1) = func.ins(p, make_inst(Opcode::Uextend, ValueType(I32), b, 0u32, 0u32, 0i64, IntCC::Equal, TrapCode::User(0), 0u8, 0i32, 0u32, 0u32), None, None);
        p = p + 1;
        let (y, _r1) = func.ins(p, make_inst(Opcode::Uextend, ValueType(I32), c, 0u32, 0u32, 0i64, IntCC::Equal, TrapCode::User(0), 0u8, 0i32, 0u32, 0u32), None, None);
        p = p + 1;
        let ty2 = func.value_type(x);
        let (z, _r1) = func.ins(p, make_inst(Opcode::Urem, ty2, x, y, 0u32, 0i64, IntCC::Equal, TrapCode::User(0), 0u8, 0i32, 0u32, 0u32), None, None);
        p = p + 1;
        func.replace(inst, make_inst(Opcode::Ireduce, ValueType(I16), z, 0u32, 0u32, 0i64, IntCC::Equal, TrapCode::User(0), 0u8, 0i32, 0u32, 0u32));
        return true;
    }
    false
}

/// The function after the widening of a `urem_imm` instruction, or `None` where no pattern applies.
#[verifier::opaque]
pub open spec fn widen_urem_imm_spec(v: FuncView, inst: Inst, pos: int, d: InstData) -> Option<FuncView> {
    let p = pos;
    let b = d.arg0;
    let c = d.imm;
    if value_type_of(v, d.arg0) == ValueType(I8) {
        let (new0, new1) = s_ins_results(v, inst_of(Opcode::Uextend, ValueType(I32), b, 0u32, 0u32, 0i64, IntCC::Equal, TrapCode::User(0), 0u8, 0i32, 0u32, 0u32), None, None);
        let v = s_ins(v, p, inst_of(Opcode::Uextend, ValueType(I32), b, 0u32, 0u32, 0i64, IntCC::Equal, TrapCode::User(0), 0u8, 0i32, 0u32, 0u32), None, None);
        let (x, _r1) = (new0, new1);
        let p = p + 1;
        let (new0, new1) = s_ins_results(v, inst_of(Opcode::UremImm, value_type_of(v, x), x, 0u32, 0u32, c, IntCC::Equal, TrapCode::User(0), 0u8, 0i32, 0u32, 0u32), None, None);
        let v = s_ins(v, p, inst_of(Opcode::UremImm, value_type_of(v, x), x, 0u32, 0u32, c, IntCC::Equal, TrapCode::User(0), 0u8, 0i32, 0u32, 0u32), None, None);
        let (z, _r1) = (new0, new1);
        let p = p + 1;
        let v = s_replace(v, inst, inst_of(Opcode::Ireduce, ValueType(I8), z, 0u32, 0u32, 0i64, IntCC::Equal, TrapCode::User(0), 0u8, 0i32, 0u32, 0u32));
        Some(v)
} else {
    if value_type_of(v, d.arg0) == ValueType(I16) {
        let (new0, new1) = s_ins_results(v, inst_of(Opcode::Uextend, ValueType(I32), b, 0u32, 0u32, 0i64, IntCC::Equal, TrapCode::User(0), 0u8, 0i32, 0u32, 0u32), None, None);
        let v = s_ins(v, p, inst_of(Opcode::Uextend, ValueType(I32), b, 0u32, 0u32, 0i64, IntCC::Equal, TrapCode::User(0), 0u8, 0i32, 0u32, 0u32), None, None);
        let (x, _r1) = (new0, new1);
        let p = p + 1;
        let (new0, new1) = s_ins_results(v, inst_of(Opcode::UremImm, value_type_of(v, x), x, 0u32, 0u32, c, IntCC::Equal, TrapCode::User(0), 0u8, 0i32, 0u32, 0u32), None, None);
        let v = s_ins(v, p, inst_of(Opcode::UremImm, value_type_of(v, x), x, 0u32, 0u32, c, IntCC::Equal, TrapCode::User(0), 0u8, 0i32, 0u32, 0u32), None, None);
        let (z, _r1) = (new0, new1);
        let p = p + 1;
        let v = s_replace(v, inst, inst_of(Opcode::Ireduce, ValueType(I16), z, 0u32, 0u32, 0i64, IntCC::Equal, TrapCode::User(0), 0u8, 0i32, 0u32, 0u32));
        Some(v)
} else {
    None
}
}
}

/// Legalize a `urem_imm` instruction by widening.
fn widen_urem_imm(inst: Inst, pos: usize, d: InstData, func: &mut Function) -> (r: bool)
    requires
        pattern_input(old(func)@, inst, pos as int, d),
    ensures
        pattern_outcome(old(func)@, final(func)@, r, widen_urem_imm_spec(old(func)@, inst, pos as int, d)),
        final(func).encodings@ == old(func).encodings@,
        func_wf(final(func)@),
        r ==> final(func)@.0.len() > old(func)@.0.len(),
        keeps_before(old(func)@, final(func)@, inst, pos as int),
{
    proof {
        reveal(widen_urem_imm_spec);
    }
    let mut p = pos;
    let b = d.arg0;
    let c = d.imm;
    if func.value_type(d.arg0) == ValueType(I8) {
        let (x, _r1) = func.ins(p, make_inst(Opcode::Uextend, ValueType(I32), b, 0u32, 0u32, 0i64, IntCC::Equal, TrapCode::User(0), 0u8, 0i32, 0u32, 0u32), None, None);
        p = p + 1;
        let ty1 = func.value_type(x);
        let (z, _r1) = func.ins(p, make_inst(Opcode::UremImm, ty1, x, 0u32, 0u32, c, IntCC::Equal, TrapCode::User(0), 0u8, 0i32, 0u32, 0u32), None, None);
        p = p + 1;
        func.replace(inst, make_inst(Opcode::Ireduce, ValueType(I8), z, 0u32, 0u32, 0i64, IntCC::Equal, TrapCode::User(0), 0u8, 0i32, 0u32, 0u32));
        return true;
    }
    if func.value_type(d.arg0) == ValueType(I16) {
        let (x, _r1) = func.ins(p, make_inst(Opcode::Uextend, ValueType(I32), b, 0u32, 0u32, 0i64, IntCC::Equal, TrapCode::User(0), 0u8, 0i32, 0u32, 0u32), None, None);
        p = p + 1;
        let ty2 = func.value_type(x);
        let (z, _r1) = func.ins(p, make_inst(Opcode::UremImm, ty2, x, 0u32, 0u32, c, IntCC::Equal, TrapCode::User(0), 0u8, 0i32, 0u32, 0u32), None, None);
        p = p + 1;
        func.replace(inst, make_inst(Opcode::Ireduce, ValueType(I16), z, 0u32, 0u32, 0i64, IntCC::Equal, TrapCode::User(0), 0u8, 0i32, 0u32, 0u32));
        return true;
    }
    false
}

/// The function after the widening of a `ushr` instruction, or `None` where no pattern applies.
#[verifier::opaque]
pub open spec fn widen_ushr_spec(v: FuncView, inst: Inst, pos: int, d: InstData) -> Option<FuncView> {
    let p = pos;
    let b = d.arg0;
    let c = d.arg1;
    let typeof_c = value_type_of(v, c);
    if value_type_of(v, d.arg0) == ValueType(I8) {
        let (new0, new1) = s_ins_results(v, inst_of(Opcode::Uextend, ValueType(I32), b, 0u32, 0u32, 0i64, IntCC::Equal, TrapCode::User(0), 0u8, 0i32, 0u32, 0u32), None, None);
        let v = s_ins(v, p, inst_of(Opcode::Uextend, ValueType(I32), b, 0u32, 0u32, 0i64, IntCC::Equal, TrapCode::User(0), 0u8, 0i32, 0u32, 0u32), None, None);
        let (x, _r1) = (new0, new1);
        let p = p + 1;
        let (new0, new1) = s_ins_results(v, inst_of(Opcode::Ushr, value_type_of(v, x), x, c, 0u32, 0i64, IntCC::Equal, TrapCode::User(0), 0u8, 0i32, 0u32, 0u32), None, None);
        let v = s_ins(v, p, inst_of(Opcode::Ushr, value_type_of(v, x), x, c, 0u32, 0i64, IntCC::Equal, TrapCode::User(0), 0u8, 0i32, 0u32, 0u32), None, None);
        let (z, _r1) = (new0, new1);
        let p = p + 1;
        let v = s_replace(v, inst, inst_of(Opcode::Ireduce, ValueType(I8), z, 0u32, 0u32, 0i64, IntCC::Equal, TrapCode::User(0), 0u8, 0i32, 0u32, 0u32));
        Some(v)
} else {
    if value_type_of(v, d.arg0) == ValueType(I16) {
        let (new0, new1) = s_ins_results(v, inst_of(Opcode::Uextend, ValueType(I32), b, 0u32, 0u32, 0i64, IntCC::Equal, TrapCode::User(0), 0u8, 0i32, 0u32, 0u32), None, None);
        let v = s_ins(v, p, inst_of(Opcode::Uextend, ValueType(I32), b, 0u32, 0u32, 0i64, IntCC::Equal, TrapCode::User(0), 0u8, 0i32, 0u32, 0u32), None, None);
        let (x, _r1) = (new0, new1);
        let p = p + 1;
        let (new0, new1) = s_ins_results(v, inst_of(Opcode::Ushr, value_type_of(v, x), x, c, 0u32, 0i64, IntCC::Equal, TrapCode::User(0), 0u8, 0i32, 0u32, 0u32), None, None);
        let v = s_ins(v, p, inst_of(Opcode::Ushr, value_type_of(v, x), x, c, 0u32, 0i64, IntCC::Equal, TrapCode::User(0), 0u8, 0i32, 0u32, 0u32), None, None);
        let (z, _r1) = (new0, new1);
        let p = p + 1;
        let v = s_replace(v, inst, inst_of(Opcode::Ireduce, ValueType(I16), z, 0u32, 0u32, 0i64, IntCC::Equal, TrapCode::User(0), 0u8, 0i32, 0u32, 0u32));
        Some(v)
} else {
    None
}
}
}

/// Legalize a `ushr` instruction by widening.
fn widen_ushr(inst: Inst, pos: usize, d: InstData, func: &mut Function) -> (r: bool)
    requires
        pattern_input(old(func)@, inst, pos as int, d),
    ensures
        pattern_outcome(old(func)@, final(func)@, r, widen_ushr_spec(old(func)@, inst, pos as int, d)),
        final(func).encodings@ == old(func).encodings@,
        func_wf(final(func)@),
        r ==> final(func)@.0.len() > old(func)@.0.len(),
        keeps_before(old(func)@, final(func)@, inst, pos as int),
{
    proof {
        reveal(widen_ushr_spec);
    }
    let mut p = pos;
    let b = d.arg0;
    let c = d.arg1;
    let typeof_c = func.value_type(c);
    if func.value_type(d.arg0) == ValueType(I8) {
        let (x, _r1) = func.ins(p, make_inst(Opcode::Uextend, ValueType(I32), b, 0u32, 0u32, 0i64, IntCC::Equal, TrapCode::User(0), 0u8, 0i32, 0u32, 0u32), None, None);
        p = p + 1;
        let ty1 = func.value_type(x);
        let (z, _r1) = func.ins(p, make_inst(Opcode::Ushr, ty1, x, c, 0u32, 0i64, IntCC::Equal, TrapCode::User(0), 0u8, 0i32, 0u32, 0u32), None, None);
        p = p + 1;
        func.replace(inst, make_inst(Opcode::Ireduce, ValueType(I8), z, 0u32, 0u32, 0i64, IntCC::Equal, TrapCode::User(0), 0u8, 0i32, 0u32, 0u32));
        return true;
    }
    if func.value_type(d.arg0) == ValueType(I16) {
        let (x, _r1) = func.ins(p, make_inst(Opcode::Uextend, ValueType(I32), b, 0u32, 0u32, 0i64, IntCC::Equal, TrapCode::User(0), 0u8, 0i32, 0u32, 0u32), None, None);
        p = p + 1;
        let ty2 = func.value_type(x);
        let (z, _r1) = func.ins(p, make_inst(Opcode::Ushr, ty2, x, c, 0u32, 0i64, IntCC::Equal, TrapCode::User(0), 0u8, 0i32, 0u32, 0u32), None, None);
        p = p + 1;
        func.replace(inst, make_inst(Opcode::Ireduce, ValueType(I16), z, 0u32, 0u32, 0i64, IntCC::Equal, TrapCode::User(0), 0u8, 0i32, 0u32, 0u32));
        return true;
    }
    false
}

/// The function after the widening of a `ushr_imm` instruction, or `None` where no pattern applies.
#[verifier::opaque]
pub open spec fn widen_ushr_imm_spec(v: FuncView, inst: Inst, pos: int, d: InstData) -> Option<FuncView> {
    let p = pos;
    let b = d.arg0;
    let c = d.imm;
    if value_type_of(v, d.arg0) == ValueType(I8) {
        let (new0, new1) = s_ins_results(v, inst_of(Opcode::Uextend, ValueType(I32), b, 0u32, 0u32, 0i64, IntCC::Equal, TrapCode::User(0), 0u8, 0i32, 0u32, 0u32), None, None);
        let v = s_ins(v, p, inst_of(Opcode::Uextend, ValueType(I32), b, 0u32, 0u32, 0i64, IntCC::Equal, TrapCode::User(0), 0u8, 0i32, 0u32, 0u32), None, None);
        let (x, _r1) = (new0, new1);
        let p = p + 1;
        let (new0, new1) = s_ins_results(v, inst_of(Opcode::UshrImm, value_type_of(v, x), x, 0u32, 0u32, c, IntCC::Equal, TrapCode::User(0), 0u8, 0i32, 0u32, 0u32), None, None);
        let v = s_ins(v, p, inst_of(Opcode::UshrImm, value_type_of(v, x), x, 0u32, 0u32, c, IntCC::Equal, TrapCode::User(0), 0u8, 0i32, 0u32, 0u32), None, None);
        let (z, _r1) = (new0, new1);
        let p = p + 1;
        let v = s_replace(v, inst, inst_of(Opcode::Ireduce, ValueType(I8), z, 0u32, 0u32, 0i64, IntCC::Equal, TrapCode::User(0), 0u8, 0i32, 0u32, 0u32));
        Some(v)
} else {
    if value_type_of(v, d.arg0) == ValueType(I16) {
        let (new0, new1) = s_ins_results(v, inst_of(Opcode::Uextend, ValueType(I32), b, 0u32, 0u32, 0i64, IntCC::Equal, TrapCode::User(0), 0u8, 0i32, 0u32, 0u32), None, None);
        let v = s_ins(v, p, inst_of(Opcode::Uextend, ValueType(I32), b, 0u32, 0u32, 0i64, IntCC::Equal, TrapCode::User(0), 0u8, 0i32, 0u32, 0u32), None, None);
        let (x, _r1) = (new0, new1);
        let p = p + 1;
        let (new0, new1) = s_ins_results(v, inst_of(Opcode::UshrImm, value_type_of(v, x), x, 0u32, 0u32, c, IntCC::Equal, TrapCode::User(0), 0u8, 0i32, 0u32, 0u32), None, None);
        let v = s_ins(v, p, inst_of(Opcode::UshrImm, value_type_of(v, x), x, 0u32, 0u32, c, IntCC::Equal, TrapCode::User(0), 0u8, 0i32, 0u32, 0u32), None, None);
        let (z, _r1) = (new0, new1);
        let p = p + 1;
        let v = s_replace(v, inst, inst_of(Opcode::Ireduce, ValueType(I16), z, 0u32, 0u32, 0i64, IntCC::Equal, TrapCode::User(0), 0u8, 0i32, 0u32, 0u32));
        Some(v)
} else {
    None
}
}
}

/// Legalize a `ushr_imm` instruction by widening.
fn widen_ushr_imm(inst: Inst, pos: usize, d: InstData, func: &mut Function) -> (r: bool)
    requires
        pattern_input(old(func)@, inst, pos as int, d),
    ensures
        pattern_outcome(old(func)@, final(func)@, r, widen_ushr_imm_spec(old(func)@, inst, pos as int, d)),
        final(func).encodings@ == old(func).encodings@,
        func_wf(final(func)@),
        r ==> final(func)@.0.len() > old(func)@.0.len(),
        keeps_before(old(func)@, final(func)@, inst, pos as int),
{
    proof {
        reveal(widen_ushr_imm_spec);
    }
    let mut p = pos;
    let b = d.arg0;
    let c = d.imm;
    if func.value_type(d.arg0) == ValueType(I8) {
        let (x, _r1) = func.ins(p, make_inst(Opcode::Uextend, ValueType(I32), b, 0u32, 0u32, 0i64, IntCC::Equal, TrapCode::User(0), 0u8, 0i32, 0u32, 0u32), None, None);
        p = p + 1;
        let ty1 = func.value_type(x);
        let (z, _r1) = func.ins(p, make_inst(Opcode::UshrImm, ty1, x, 0u32, 0u32, c, IntCC::Equal, TrapCode::User(0), 0u8, 0i32, 0u32, 0u32), None, None);
        p = p + 1;
        func.replace(inst, make_inst(Opcode::Ireduce, ValueType(I8), z, 0u32, 0u32, 0i64, IntCC::Equal, TrapCode::User(0), 0u8, 0i32, 0u32, 0u32));
        return true;
    }
    if func.value_type(d.arg0) == ValueType(I16) {
        let (x, _r1) = func.ins(p, make_inst(Opcode::Uextend, ValueType(I32), b, 0u32, 0u32, 0i64, IntCC::Equal, TrapCode::User(0), 0u8, 0i32, 0u32, 0u32), None, None);
        p = p + 1;
        let ty2 = func.value_type(x);
        let (z, _r1) = func.ins(p, make_inst(Opcode::UshrImm, ty2, x, 0u32, 0u32, c, IntCC::Equal, TrapCode::User(0), 0u8, 0i32, 0u32, 0u32), None, None);
        p = p + 1;
        func.replace(inst, make_inst(Opcode::Ireduce, ValueType(I16), z, 0u32, 0u32, 0i64, IntCC::Equal, TrapCode::User(0), 0u8, 0i32, 0u32, 0u32));
        return true;
    }
    false
}

/// The function after the narrowing of a `band` instruction, or `None` where no pattern applies.
#[verifier::opaque]
pub open spec fn narrow_band_spec(v: FuncView, inst: Inst, pos: int, d: InstData) -> Option<FuncView> {
    let p = pos;
    let x = d.arg0;
    let y = d.arg1;
    let typeof_x = value_type_of(v, x);
    let predicate = true;
    let predicate = predicate && type_set_holds(2, typeof_x);
    if predicate {
        let (new0, new1, newk) = s_split_results(v, x);
        let v = s_split(v, p, x);
        let (xl, xh) = (new0, new1);
        let p = p + newk;
        let (new0, new1, newk) = s_split_results(v, y);
        let v = s_split(v, p, y);
        let (yl, yh) = (new0, new1);
        let p = p + newk;
        let (new0, new1) = s_ins_results(v, inst_of(Opcode::Band, value_type_of(v, xl), xl, yl, 0u32, 0i64, IntCC::Equal, TrapCode::User(0), 0u8, 0i32, 0u32, 0u32), None, None);
        let v = s_ins(v, p, inst_of(Opcode::Band, value_type_of(v, xl), xl, yl, 0u32, 0i64, IntCC::Equal, TrapCode::User(0), 0u8, 0i32, 0u32, 0u32), None, None);
        let (al, _r1) = (new0, new1);
        let p = p + 1;
        let (new0, new1) = s_ins_results(v, inst_of(Opcode::Band, value_type_of(v, xh), xh, yh, 0u32, 0i64, IntCC::Equal, TrapCode::User(0), 0u8, 0i32, 0u32, 0u32), None, None);
        let v = s_ins(v, p, inst_of(Opcode::Band, value_type_of(v, xh), xh, yh, 0u32, 0i64, IntCC::Equal, TrapCode::User(0), 0u8, 0i32, 0u32, 0u32), None, None);
        let (ah, _r1) = (new0, new1);
        let p = p + 1;
        let v = s_replace(v, inst, inst_of(Opcode::Iconcat, value_type_of(v, al), al, ah, 0u32, 0i64, IntCC::Equal, TrapCode::User(0), 0u8, 0i32, 0u32, 0u32));
        Some(v)
} else {
    None
}
}

/// Legalize a `band` instruction by narrowing.
fn narrow_band(inst: Inst, pos: usize, d: InstData, func: &mut Function) -> (r: bool)
    requires
        pattern_input(old(func)@, inst, pos as int, d),
    ensures
        pattern_outcome(old(func)@, final(func)@, r, narrow_band_spec(old(func)@, inst, pos as int, d)),
        final(func).encodings@ == old(func).encodings@,
        func_wf(final(func)@),
        r ==> final(func)@.0.len() > old(func)@.0.len(),
        keeps_before(old(func)@, final(func)@, inst, pos as int),
{
    proof {
        reveal(narrow_band_spec);
    }
    let mut p = pos;
    let x = d.arg0;
    let y = d.arg1;
    let typeof_x = func.value_type(x);
    let predicate = true;
    let predicate = predicate && in_type_set(2, typeof_x);
    if predicate {
        let (xl, xh, k) = func.split_value(p, x);
        p = p + k;
        let (yl, yh, k) = func.split_value(p, y);
        p = p + k;
        let ty1 = func.value_type(xl);
        let (al, _r1) = func.ins(p, make_inst(Opcode::Band, ty1, xl, yl, 0u32, 0i64, IntCC::Equal, TrapCode::User(0), 0u8, 0i32, 0u32, 0u32), None, None);
        p = p + 1;
        let ty2 = func.value_type(xh);
        let (ah, _r1) = func.ins(p, make_inst(Opcode::Band, ty2, xh, yh, 0u32, 0i64, IntCC::Equal, TrapCode::User(0), 0u8, 0i32, 0u32, 0u32), None, None);
        p = p + 1;
        let ty3 = func.value_type(al);
        func.replace(inst, make_inst(Opcode::Iconcat, ty3, al, ah, 0u32, 0i64, IntCC::Equal, TrapCode::User(0), 0u8, 0i32, 0u32, 0u32));
        return true;
    }
    false
}

/// The function after the narrowing of a `band_not` instruction, or `None` where no pattern applies.
#[verifier::opaque]
pub open spec fn narrow_band_not_spec(v: FuncView, inst: Inst, pos: int, d: InstData) -> Option<FuncView> {
    let p = pos;
    let x = d.arg0;
    let y = d.arg1;
    let typeof_x = value_type_of(v, x);
    let predicate = true;
    let predicate = predicate && type_set_holds(2, typeof_x);
    if predicate {
        let (new0, new1, newk) = s_split_results(v, x);
        let v = s_split(v, p, x);
        let (xl, xh) = (new0, new1);
        let p = p + newk;
        let (new0, new1, newk) = s_split_results(v, y);
        let v = s_split(v, p, y);
        let (yl, yh) = (new0, new1);
        let p = p + newk;
        let (new0, new1) = s_ins_results(v, inst_of(Opcode::BandNot, value_type_of(v, xl), xl, yl, 0u32, 0i64, IntCC::Equal, TrapCode::User(0), 0u8, 0i32, 0u32, 0u32), None, None);
        let v = s_ins(v, p, inst_of(Opcode::BandNot, value_type_of(v, xl), xl, yl, 0u32, 0i64, IntCC::Equal, TrapCode::User(0), 0u8, 0i32, 0u32, 0u32), None, None);
        let (al, _r1) = (new0, new1);
        let p = p + 1;
        let (new0, new1) = s_ins_results(v, inst_of(Opcode::BandNot, value_type_of(v, xh), xh, yh, 0u32, 0i64, IntCC::Equal, TrapCode::User(0), 0u8, 0i32, 0u32, 0u32), None, None);
        let v = s_ins(v, p, inst_of(Opcode::BandNot, value_type_of(v, xh), xh, yh, 0u32, 0i64, IntCC::Equal, TrapCode::User(0), 0u8, 0i32, 0u32, 0u32), None, None);
        let (ah, _r1) = (new0, new1);
        let p = p + 1;
        let v = s_replace(v, inst, inst_of(Opcode::Iconcat, value_type_of(v, al), al, ah, 0u32, 0i64, IntCC::Equal, TrapCode::User(0), 0u8, 0i32, 0u32, 0u32));
        Some(v)
} else {
    None
}
}

/// Legalize a `band_not` instruction by narrowing.
fn narrow_band_not(inst: Inst, pos: usize, d: InstData, func: &mut Function) -> (r: bool)
    requires
        pattern_input(old(func)@, inst, pos as int, d),
    ensures
        pattern_outcome(old(func)@, final(func)@, r, narrow_band_not_spec(old(func)@, inst, pos as int, d)),
        final(func).encodings@ == old(func).encodings@,
        func_wf(final(func)@),
        r ==> final(func)@.0.len() > old(func)@.0.len(),
        keeps_before(old(func)@, final(func)@, inst, pos as int),
{
    proof {
        reveal(narrow_band_not_spec);
    }
    let mut p = pos;
    let x = d.arg0;
    let y = d.arg1;
    let typeof_x = func.value_type(x);
    let predicate = true;
    let predicate = predicate && in_type_set(2, typeof_x);
    if predicate {
        let (xl, xh, k) = func.split_value(p, x);
        p = p + k;
        let (yl, yh, k) = func.split_value(p, y);
        p = p + k;
        let ty1 = func.value_type(xl);
        let (al, _r1) = func.ins(p, make_inst(Opcode::BandNot, ty1, xl, yl, 0u32, 0i64, IntCC::Equal, TrapCode::User(0), 0u8, 0i32, 0u32, 0u32), None, None);
        p = p + 1;
        let ty2 = func.value_type(xh);
        let (ah, _r1) = func.ins(p, make_inst(Opcode::BandNot, ty2, xh, yh, 0u32, 0i64, IntCC::Equal, TrapCode::User(0), 0u8, 0i32, 0u32, 0u32), None, None);
        p = p + 1;
        let ty3 = func.value_type(al);
        func.replace(inst, make_inst(Opcode::Iconcat, ty3, al, ah, 0u32, 0i64, IntCC::Equal, TrapCode::User(0), 0u8, 0i32, 0u32, 0u32));
        return true;
    }
    false
}

/// The function after the narrowing of a `bnot` instruction, or `None` where no pattern applies.
#[verifier::opaque]
pub open spec fn narrow_bnot_spec(v: FuncView, inst: Inst, pos: int, d: InstData) -> Option<FuncView> {
    let p = pos;
    let x = d.arg0;
    let typeof_x = value_type_of(v, x);
    let predicate = true;
    let predicate = predicate && type_set_holds(2, typeof_x);
    if predicate {
        let (new0, new1, newk) = s_split_results(v, x);
        let v = s_split(v, p, x);
        let (xl, xh) = (new0, new1);
        let p = p + newk;
        let (new0, new1) = s_ins_results(v, inst_of(Opcode::Bnot, value_type_of(v, xl), xl, 0u32, 0u32, 0i64, IntCC::Equal, TrapCode::User(0), 0u8, 0i32, 0u32, 0u32), None, None);
        let v = s_ins(v, p, inst_of(Opcode::Bnot, value_type_of(v, xl), xl, 0u32, 0u32, 0i64, IntCC::Equal, TrapCode::User(0), 0u8, 0i32, 0u32, 0u32), None, None);
        let (al, _r1) = (new0, new1);
        let p = p + 1;
        let (new0, new1) = s_ins_results(v, inst_of(Opcode::Bnot, value_type_of(v, xh), xh, 0u32, 0u32, 0i64, IntCC::Equal, TrapCode::User(0), 0u8, 0i32, 0u32, 0u32), None, None);
        let v = s_ins(v, p, inst_of(Opcode::Bnot, value_type_of(v, xh), xh, 0u32, 0u32, 0i64, IntCC::Equal, TrapCode::User(0), 0u8, 0i32, 0u32, 0u32), None, None);
        let (ah, _r1) = (new0, new1);
        let p = p + 1;
        let v = s_replace(v, inst, inst_of(Opcode::Iconcat, value_type_of(v, al), al, ah, 0u32, 0i64, IntCC::Equal, TrapCode::User(0), 0u8, 0i32, 0u32, 0u32));
        Some(v)
} else {
    None
}
}

/// Legalize a `bnot` instruction by narrowing.
fn narrow_bnot(inst: Inst, pos: usize, d: InstData, func: &mut Function) -> (r: bool)
    requires
        pattern_input(old(func)@, inst, pos as int, d),
    ensures
        pattern_outcome(old(func)@, final(func)@, r, narrow_bnot_spec(old(func)@, inst, pos as int, d)),
        final(func).encodings@ == old(func).encodings@,
        func_wf(final(func)@),
        r ==> final(func)@.0.len() > old(func)@.0.len(),
        keeps_before(old(func)@, final(func)@, inst, pos as int),
{
    proof {
        reveal(narrow_bnot_spec);
    }
    let mut p = pos;
    let x = d.arg0;
    let typeof_x = func.value_type(x);
    let predicate = true;
    let predicate = predicate && in_type_set(2, typeof_x);
    if predicate {
        let (xl, xh, k) = func.split_value(p, x);
        p = p + k;
        let ty1 = func.value_type(xl);
        let (al, _r1) = func.ins(p, make_inst(Opcode::Bnot, ty1, xl, 0u32, 0u32, 0i64, IntCC::Equal, TrapCode::User(0), 0u8, 0i32, 0u32, 0u32), None, None);
        p = p + 1;
        let ty2 = func.value_type(xh);
        let (ah, _r1) = func.ins(p, make_inst(Opcode::Bnot, ty2, xh, 0u32, 0u32, 0i64, IntCC::Equal, TrapCode::User(0), 0u8, 0i32, 0u32, 0u32), None, None);
        p = p + 1;
        let ty3 = func.value_type(al);
        func.replace(inst, make_inst(Opcode::Iconcat, ty3, al, ah, 0u32, 0i64, IntCC::Equal, TrapCode::User(0), 0u8, 0i32, 0u32, 0u32));
        return true;
    }
    false
}

/// The function after the narrowing of a `bor` instruction, or `None` where no pattern applies.
#[verifier::opaque]
pub open spec fn narrow_bor_spec(v: FuncView, inst: Inst, pos: int, d: InstData) -> Option<FuncView> {
    let p = pos;
    let x = d.arg0;
    let y = d.arg1;
    let typeof_x = value_type_of(v, x);
    let predicate = true;
    let predicate = predicate && type_set_holds(2, typeof_x);
    if predicate {
        let (new0, new1, newk) = s_split_results(v, x);
        let v = s_split(v, p, x);
        let (xl, xh) = (new0, new1);
        let p = p + newk;
        let (new0, new1, newk) = s_split_results(v, y);
        let v = s_split(v, p, y);
        let (yl, yh) = (new0, new1);
        let p = p + newk;
        let (new0, new1) = s_ins_results(v, inst_of(Opcode::Bor, value_type_of(v, xl), xl, yl, 0u32, 0i64, IntCC::Equal, TrapCode::User(0), 0u8, 0i32, 0u32, 0u32), None, None);
        let v = s_ins(v, p, inst_of(Opcode::Bor, value_type_of(v, xl), xl, yl, 0u32, 0i64, IntCC::Equal, TrapCode::User(0), 0u8, 0i32, 0u32, 0u32), None, None);
        let (al, _r1) = (new0, new1);
        let p = p + 1;
        let (new0, new1) = s_ins_results(v, inst_of(Opcode::Bor, value_type_of(v, xh), xh, yh, 0u32, 0i64, IntCC::Equal, TrapCode::User(0), 0u8, 0i32, 0u32, 0u32), None, None);
        let v = s_ins(v, p, inst_of(Opcode::Bor, value_type_of(v, xh), xh, yh, 0u32, 0i64, IntCC::Equal, TrapCode::User(0), 0u8, 0i32, 0u32, 0u32), None, None);
        let (ah, _r1) = (new0, new1);
        let p = p + 1;
        let v = s_replace(v, inst, inst_of(Opcode::Iconcat, value_type_of(v, al), al, ah, 0u32, 0i64, IntCC::Equal, TrapCode::User(0), 0u8, 0i32, 0u32, 0u32));
        Some(v)
} else {
    None
}
}

/// Legalize a `bor` instruction by narrowing.
fn narrow_bor(inst: Inst, pos: usize, d: InstData, func: &mut Function) -> (r: bool)
    requires
        pattern_input(old(func)@, inst, pos as int, d),
    ensures
        pattern_outcome(old(func)@, final(func)@, r, narrow_bor_spec(old(func)@, inst, pos as int, d)),
        final(func).encodings@ == old(func).encodings@,
        func_wf(final(func)@),
        r ==> final(func)@.0.len() > old(func)@.0.len(),
        keeps_before(old(func)@, final(func)@, inst, pos as int),
{
    proof {
        reveal(narrow_bor_spec);
    }
    let mut p = pos;
    let x = d.arg0;
    let y = d.arg1;
    let typeof_x = func.value_type(x);
    let predicate = true;
    let predicate = predicate && in_type_set(2, typeof_x);
    if predicate {
        let (xl, xh, k) = func.split_value(p, x);
        p = p + k;
        let (yl, yh, k) = func.split_value(p, y);
        p = p + k;
        let ty1 = func.value_type(xl);
        let (al, _r1) = func.ins(p, make_inst(Opcode::Bor, ty1, xl, yl, 0u32, 0i64, IntCC::Equal, TrapCode::User(0), 0u8, 0i32, 0u32, 0u32), None, None);
        p = p + 1;
        let ty2 = func.value_type(xh);
        let (ah, _r1) = func.ins(p, make_inst(Opcode::Bor, ty2, xh, yh, 0u32, 0i64, IntCC::Equal, TrapCode::User(0), 0u8, 0i32, 0u32, 0u32), None, None);
        p = p + 1;
        let ty3 = func.value_type(al);
        func.replace(inst, make_inst(Opcode::Iconcat, ty3, al, ah, 0u32, 0i64, IntCC::Equal, TrapCode::User(0), 0u8, 0i32, 0u32, 0u32));
        return true;
    }
    false
}

/// The function after the narrowing of a `bor_not` instruction, or `None` where no pattern applies.
#[verifier::opaque]
pub open spec fn narrow_bor_not_spec(v: FuncView, inst: Inst, pos: int, d: InstData) -> Option<FuncView> {
    let p = pos;
    let x = d.arg0;
    let y = d.arg1;
    let typeof_x = value_type_of(v, x);
    let predicate = true;
    let predicate = predicate && type_set_holds(2, typeof_x);
    if predicate {
        let (new0, new1, newk) = s_split_results(v, x);
        let v = s_split(v, p, x);
        let (xl, xh) = (new0, new1);
        let p = p + newk;
        let (new0, new1, newk) = s_split_results(v, y);
        let v = s_split(v, p, y);
        let (yl, yh) = (new0, new1);
        let p = p + newk;
        let (new0, new1) = s_ins_results(v, inst_of(Opcode::BorNot, value_type_of(v, xl), xl, yl, 0u32, 0i64, IntCC::Equal, TrapCode::User(0), 0u8, 0i32, 0u32, 0u32), None, None);
        let v = s_ins(v, p, inst_of(Opcode::BorNot, value_type_of(v, xl), xl, yl, 0u32, 0i64, IntCC::Equal, TrapCode::User(0), 0u8, 0i32, 0u32, 0u32), None, None);
        let (al, _r1) = (new0, new1);
        let p = p + 1;
        let (new0, new1) = s_ins_results(v, inst_of(Opcode::BorNot, value_type_of(v, xh), xh, yh, 0u32, 0i64, IntCC::Equal, TrapCode::User(0), 0u8, 0i32, 0u32, 0u32), None, None);
        let v = s_ins(v, p, inst_of(Opcode::BorNot, value_type_of(v, xh), xh, yh, 0u32, 0i64, IntCC::Equal, TrapCode::User(0), 0u8, 0i32, 0u32, 0u32), None, None);
        let (ah, _r1) = (new0, new1);
        let p = p + 1;
        let v = s_replace(v, inst, inst_of(Opcode::Iconcat, value_type_of(v, al), al, ah, 0u32, 0i64, IntCC::Equal, TrapCode::User(0), 0u8, 0i32, 0u32, 0u32));
        Some(v)
} else {
    None
}
}

/// Legalize a `bor_not` instruction by narrowing.
fn narrow_bor_not(inst: Inst, pos: usize, d: InstData, func: &mut Function) -> (r: bool)
    requires
        pattern_input(old(func)@, inst, pos as int, d),
    ensures
        pattern_outcome(old(func)@, final(func)@, r, narrow_bor_not_spec(old(func)@, inst, pos as int, d)),
        final(func).encodings@ == old(func).encodings@,
        func_wf(final(func)@),
        r ==> final(func)@.0.len() > old(func)@.0.len(),
        keeps_before(old(func)@, final(func)@, inst, pos as int),
{
    proof {
        reveal(narrow_bor_not_spec);
    }
    let mut p = pos;
    let x = d.arg0;
    let y = d.arg1;
    let typeof_x = func.value_type(x);
    let predicate = true;
    let predicate = predicate && in_type_set(2, typeof_x);
    if predicate {
        let (xl, xh, k) = func.split_value(p, x);
        p = p + k;
        let (yl, yh, k) = func.split_value(p, y);
        p = p + k;
        let ty1 = func.value_type(xl);
        let (al, _r1) = func.ins(p, make_inst(Opcode::BorNot, ty1, xl, yl, 0u32, 0i64, IntCC::Equal, TrapCode::User(0), 0u8, 0i32, 0u32, 0u32), None, None);
        p = p + 1;
        let ty2 = func.value_type(xh);
        let (ah, _r1) = func.ins(p, make_inst(Opcode::BorNot, ty2, xh, yh, 0u32, 0i64, IntCC::Equal, TrapCode::User(0), 0u8, 0i32, 0u32, 0u32), None, None);
        p = p + 1;
        let ty3 = func.value_type(al);
        func.replace(inst, make_inst(Opcode::Iconcat, ty3, al, ah, 0u32, 0i64, IntCC::Equal, TrapCode::User(0), 0u8, 0i32, 0u32, 0u32));
        return true;
    }
    false
}

/// The function after the narrowing of a `bxor` instruction, or `None` where no pattern applies.
#[verifier::opaque]
pub open spec fn narrow_bxor_spec(v: FuncView, inst: Inst, pos: int, d: InstData) -> Option<FuncView> {
    let p = pos;
    let x = d.arg0;
    let y = d.arg1;
    let typeof_x = value_type_of(v, x);
    let predicate = true;
    let predicate = predicate && type_set_holds(2, typeof_x);
    if predicate {
        let (new0, new1, newk) = s_split_results(v, x);
        let v = s_split(v, p, x);
        let (xl, xh) = (new0, new1);
        let p = p + newk;
        let (new0, new1, newk) = s_split_results(v, y);
        let v = s_split(v, p, y);
        let (yl, yh) = (new0, new1);
        let p = p + newk;
        let (new0, new1) = s_ins_results(v, inst_of(Opcode::Bxor, value_type_of(v, xl), xl, yl, 0u32, 0i64, IntCC::Equal, TrapCode::User(0), 0u8, 0i32, 0u32, 0u32), None, None);
        let v = s_ins(v, p, inst_of(Opcode::Bxor, value_type_of(v, xl), xl, yl, 0u32, 0i64, IntCC::Equal, TrapCode::User(0), 0u8, 0i32, 0u32, 0u32), None, None);
        let (al, _r1) = (new0, new1);
        let p = p + 1;
        let (new0, new1) = s_ins_results(v, inst_of(Opcode::Bxor, value_type_of(v, xh), xh, yh, 0u32, 0i64, IntCC::Equal, TrapCode::User(0), 0u8, 0i32, 0u32, 0u32), None, None);
        let v = s_ins(v, p, inst_of(Opcode::Bxor, value_type_of(v, xh), xh, yh, 0u32, 0i64, IntCC::Equal, TrapCode::User(0), 0u8, 0i32, 0u32, 0u32), None, None);
        let (ah, _r1) = (new0, new1);
        let p = p + 1;
        let v = s_replace(v, inst, inst_of(Opcode::Iconcat, value_type_of(v, al), al, ah, 0u32, 0i64, IntCC::Equal, TrapCode::User(0), 0u8, 0i32, 0u32, 0u32));
        Some(v)
} else {
    None
}
}

/// Legalize a `bxor` instruction by narrowing.
fn narrow_bxor(inst: Inst, pos: usize, d: InstData, func: &mut Function) -> (r: bool)
    requires
        pattern_input(old(func)@, inst, pos as int, d),
    ensures
        pattern_outcome(old(func)@, final(func)@, r, narrow_bxor_spec(old(func)@, inst, pos as int, d)),
        final(func).encodings@ == old(func).encodings@,
        func_wf(final(func)@),
        r ==> final(func)@.0.len() > old(func)@.0.len(),
        keeps_before(old(func)@, final(func)@, inst, pos as int),
{
    proof {
        reveal(narrow_bxor_spec);
    }
    let mut p = pos;
    let x = d.arg0;
    let y = d.arg1;
    let typeof_x = func.value_type(x);
    let predicate = true;
    let predicate = predicate && in_type_set(2, typeof_x);
    if predicate {
        let (xl, xh, k) = func.split_value(p, x);
        p = p + k;
        let (yl, yh, k) = func.split_value(p, y);
        p = p + k;
        let ty1 = func.value_type(xl);
        let (al, _r1) = func.ins(p, make_inst(Opcode::Bxor, ty1, xl, yl, 0u32, 0i64, IntCC::Equal, TrapCode::User(0), 0u8, 0i32, 0u32, 0u32), None, None);
        p = p + 1;
        let ty2 = func.value_type(xh);
        let (ah, _r1) = func.ins(p, make_inst(Opcode::Bxor, ty2, xh, yh, 0u32, 0i64, IntCC::Equal, TrapCode::User(0), 0u8, 0i32, 0u32, 0u32), None, None);
        p = p + 1;
        let ty3 = func.value_type(al);
        func.replace(inst, make_inst(Opcode::Iconcat, ty3, al, ah, 0u32, 0i64, IntCC::Equal, TrapCode::User(0), 0u8, 0i32, 0u32, 0u32));
        return true;
    }
    false
}

/// The function after the narrowing of a `bxor_not` instruction, or `None` where no pattern applies.
#[verifier::opaque]
pub open spec fn narrow_bxor_not_spec(v: FuncView, inst: Inst, pos: int, d: InstData) -> Option<FuncView> {
    let p = pos;
    let x = d.arg0;
    let y = d.arg1;
    let typeof_x = value_type_of(v, x);
    let predicate = true;
    let predicate = predicate && type_set_holds(2, typeof_x);
    if predicate {
        let (new0, new1, newk) = s_split_results(v, x);
        let v = s_split(v, p, x);
        let (xl, xh) = (new0, new1);
        let p = p + newk;
        let (new0, new1, newk) = s_split_results(v, y);
        let v = s_split(v, p, y);
        let (yl, yh) = (new0, new1);
        let p = p + newk;
        let (new0, new1) = s_ins_results(v, inst_of(Opcode::BxorNot, value_type_of(v, xl), xl, yl, 0u32, 0i64, IntCC::Equal, TrapCode::User(0), 0u8, 0i32, 0u32, 0u32), None, None);
        let v = s_ins(v, p, inst_of(Opcode::BxorNot, value_type_of(v, xl), xl, yl, 0u32, 0i64, IntCC::Equal, TrapCode::User(0), 0u8, 0i32, 0u32, 0u32), None, None);
        let (al, _r1) = (new0, new1);
        let p = p + 1;
        let (new0, new1) = s_ins_results(v, inst_of(Opcode::BxorNot, value_type_of(v, xh), xh, yh, 0u32, 0i64, IntCC::Equal, TrapCode::User(0), 0u8, 0i32, 0u32, 0u32), None, None);
        let v = s_ins(v, p, inst_of(Opcode::BxorNot, value_type_of(v, xh), xh, yh, 0u32, 0i64, IntCC::Equal, TrapCode::User(0), 0u8, 0i32, 0u32, 0u32), None, None);
        let (ah, _r1) = (new0, new1);
        let p = p + 1;
        let v = s_replace(v, inst, inst_of(Opcode::Iconcat, value_type_of(v, al), al, ah, 0u32, 0i64, IntCC::Equal, TrapCode::User(0), 0u8, 0i32, 0u32, 0u32));
        Some(v)
} else {
    None
}
}

/// Legalize a `bxor_not` instruction by narrowing.
fn narrow_bxor_not(inst: Inst, pos: usize, d: InstData, func: &mut Function) -> (r: bool)
    requires
        pattern_input(old(func)@, inst, pos as int, d),
    ensures
        pattern_outcome(old(func)@, final(func)@, r, narrow_bxor_not_spec(old(func)@, inst, pos as int, d)),
        final(func).encodings@ == old(func).encodings@,
        func_wf(final(func)@),
        r ==> final(func)@.0.len() > old(func)@.0.len(),
        keeps_before(old(func)@, final(func)@, inst, pos as int),
{
    proof {
        reveal(narrow_bxor_not_spec);
    }
    let mut p = pos;
    let x = d.arg0;
    let y = d.arg1;
    let typeof_x = func.value_type(x);
    let predicate = true;
    let predicate = predicate && in_type_set(2, typeof_x);
    if predicate {
        let (xl, xh, k) = func.split_value(p, x);
        p = p + k;
        let (yl, yh, k) = func.split_value(p, y);
        p = p + k;
        let ty1 = func.value_type(xl);
        let (al, _r1) = func.ins(p, make_inst(Opcode::BxorNot, ty1, xl, yl, 0u32, 0i64, IntCC::Equal, TrapCode::User(0), 0u8, 0i32, 0u32, 0u32), None, None);
        p = p + 1;
        let ty2 = func.value_type(xh);
        let (ah, _r1) = func.ins(p, make_inst(Opcode::BxorNot, ty2, xh, yh, 0u32, 0i64, IntCC::Equal, TrapCode::User(0), 0u8, 0i32, 0u32, 0u32), None, None);
        p = p + 1;
        let ty3 = func.value_type(al);
        func.replace(inst, make_inst(Opcode::Iconcat, ty3, al, ah, 0u32, 0i64, IntCC::Equal, TrapCode::User(0), 0u8, 0i32, 0u32, 0u32));
        return true;
    }
    false
}

/// The function after the narrowing of a `int_compare` instruction by its pattern number 0.
#[verifier::opaque]
pub open spec fn narrow_int_compare_0_spec(v: FuncView, inst: Inst, pos: int, d: InstData) -> Option<FuncView> {
    let p = pos;
    let cond = d.cond;
    let x = d.arg0;
    let y = d.arg1;
    let (new0, new1, newk) = s_split_results(v, x);
    let v = s_split(v, p, x);
    let (xl, xh) = (new0, new1);
    let p = p + newk;
    let (new0, new1, newk) = s_split_results(v, y);
    let v = s_split(v, p, y);
    let (yl, yh) = (new0, new1);
    let p = p + newk;
    let (new0, new1) = s_ins_results(v, inst_of(Opcode::IntCompare, value_type_of(v, xl), xl, yl, 0u32, 0i64, IntCC::Equal, TrapCode::User(0), 0u8, 0i32, 0u32, 0u32), None, None);
    let v = s_ins(v, p, inst_of(Opcode::IntCompare, value_type_of(v, xl), xl, yl, 0u32, 0i64, IntCC::Equal, TrapCode::User(0), 0u8, 0i32, 0u32, 0u32), None, None);
    let (b1, _r1) = (new0, new1);
    let p = p + 1;
    let (new0, new1) = s_ins_results(v, inst_of(Opcode::IntCompare, value_type_of(v, xh), xh, yh, 0u32, 0i64, IntCC::Equal, TrapCode::User(0), 0u8, 0i32, 0u32, 0u32), None, None);
    let v = s_ins(v, p, inst_of(Opcode::IntCompare, value_type_of(v, xh), xh, yh, 0u32, 0i64, IntCC::Equal, TrapCode::User(0), 0u8, 0i32, 0u32, 0u32), None, None);
    let (b2, _r1) = (new0, new1);
    let p = p + 1;
    let v = s_replace(v, inst, inst_of(Opcode::Band, value_type_of(v, b1), b1, b2, 0u32, 0i64, IntCC::Equal, TrapCode::User(0), 0u8, 0i32, 0u32, 0u32));
    Some(v)
}

/// Legalize a `int_compare` instruction by narrowing, with its pattern number 0.
#[verifier::rlimit(100)]
fn narrow_int_compare_0(inst: Inst, pos: usize, d: InstData, func: &mut Function) -> (r: bool)
    requires
        pattern_input(old(func)@, inst, pos as int, d),
    ensures
        pattern_outcome(old(func)@, final(func)@, r, narrow_int_compare_0_spec(old(func)@, inst, pos as int, d)),
        final(func).encodings@ == old(func).encodings@,
        func_wf(final(func)@),
        r ==> final(func)@.0.len() > old(func)@.0.len(),
        keeps_before(old(func)@, final(func)@, inst, pos as int),
{
    proof {
        reveal(narrow_int_compare_0_spec);
    }
    let mut p = pos;
    let cond = d.cond;
    let x = d.arg0;
    let y = d.arg1;
    let (xl, xh, k) = func.split_value(p, x);
    p = p + k;
    let (yl, yh, k) = func.split_value(p, y);
    p = p + k;
    let ty1 = func.value_type(xl);
    let (b1, _r1) = func.ins(p, make_inst(Opcode::IntCompare, ty1, xl, yl, 0u32, 0i64, IntCC::Equal, TrapCode::User(0), 0u8, 0i32, 0u32, 0u32), None, None);
    p = p + 1;
    let ty2 = func.value_type(xh);
    let (b2, _r1) = func.ins(p, make_inst(Opcode::IntCompare, ty2, xh, yh, 0u32, 0i64, IntCC::Equal, TrapCode::User(0), 0u8, 0i32, 0u32, 0u32), None, None);
    p = p + 1;
    let ty3 = func.value_type(b1);
    func.replace(inst, make_inst(Opcode::Band, ty3, b1, b2, 0u32, 0i64, IntCC::Equal, TrapCode::User(0), 0u8, 0i32, 0u32, 0u32));
    return true;
}

/// The function after the narrowing of a `int_compare` instruction by its pattern number 1.
#[verifier::opaque]
pub open spec fn narrow_int_compare_1_spec(v: FuncView, inst: Inst, pos: int, d: InstData) -> Option<FuncView> {
    let p = pos;
    let cond = d.cond;
    let x = d.arg0;
    let y = d.arg1;
    let (new0, new1, newk) = s_split_results(v, x);
    let v = s_split(v, p, x);
    let (xl, xh) = (new0, new1);
    let p = p + newk;
    let (new0, new1, newk) = s_split_results(v, y);
    let v = s_split(v, p, y);
    let (yl, yh) = (new0, new1);
    let p = p + newk;
    let (new0, new1) = s_ins_results(v, inst_of(Opcode::IntCompare, value_type_of(v, xl), xl, yl, 0u32, 0i64, IntCC::NotEqual, TrapCode::User(0), 0u8, 0i32, 0u32, 0u32), None, None);
    let v = s_ins(v, p, inst_of(Opcode::IntCompare, value_type_of(v, xl), xl, yl, 0u32, 0i64, IntCC::NotEqual, TrapCode::User(0), 0u8, 0i32, 0u32, 0u32), None, None);
    let (b1, _r1) = (new0, new1);
    let p = p + 1;
    let (new0, new1) = s_ins_results(v, inst_of(Opcode::IntCompare, value_type_of(v, xh), xh, yh, 0u32, 0i64, IntCC::NotEqual, TrapCode::User(0), 0u8, 0i32, 0u32, 0u32), None, None);
    let v = s_ins(v, p, inst_of(Opcode::IntCompare, value_type_of(v, xh), xh, yh, 0u32, 0i64, IntCC::NotEqual, TrapCode::User(0), 0u8, 0i32, 0u32, 0u32), None, None);
    let (b2, _r1) = (new0, new1);
    let p = p + 1;
    let v = s_replace(v, inst, inst_of(Opcode::Bor, value_type_of(v, b1), b1, b2, 0u32, 0i64, IntCC::Equal, TrapCode::User(0), 0u8, 0i32, 0u32, 0u32));
    Some(v)
}

/// Legalize a `int_compare` instruction by narrowing, with its pattern number 1.
#[verifier::rlimit(100)]
fn narrow_int_compare_1(inst: Inst, pos: usize, d: InstData, func: &mut Function) -> (r: bool)
    requires
        pattern_input(old(func)@, inst, pos as int, d),
    ensures
        pattern_outcome(old(func)@, final(func)@, r, narrow_int_compare_1_spec(old(func)@, inst, pos as int, d)),
        final(func).encodings@ == old(func).encodings@,
        func_wf(final(func)@),
        r ==> final(func)@.0.len() > old(func)@.0.len(),
        keeps_before(old(func)@, final(func)@, inst, pos as int),
{
    proof {
        reveal(narrow_int_compare_1_spec);
    }
    let mut p = pos;
    let cond = d.cond;
    let x = d.arg0;
    let y = d.arg1;
    let (xl, xh, k) = func.split_value(p, x);
    p = p + k;
    let (yl, yh, k) = func.split_value(p, y);
    p = p + k;
    let ty4 = func.value_type(xl);
    let (b1, _r1) = func.ins(p, make_inst(Opcode::IntCompare, ty4, xl, yl, 0u32, 0i64, IntCC::NotEqual, TrapCode::User(0), 0u8, 0i32, 0u32, 0u32), None, None);
    p = p + 1;
    let ty5 = func.value_type(xh);
    let (b2, _r1) = func.ins(p, make_inst(Opcode::IntCompare, ty5, xh, yh, 0u32, 0i64, IntCC::NotEqual, TrapCode::User(0), 0u8, 0i32, 0u32, 0u32), None, None);
    p = p + 1;
    let ty6 = func.value_type(b1);
    func.replace(inst, make_inst(Opcode::Bor, ty6, b1, b2, 0u32, 0i64, IntCC::Equal, TrapCode::User(0), 0u8, 0i32, 0u32, 0u32));
    return true;
}

/// The function after the narrowing of a `int_compare` instruction by its pattern number 2.
#[verifier::opaque]
pub open spec fn narrow_int_compare_2_spec(v: FuncView, inst: Inst, pos: int, d: InstData) -> Option<FuncView> {
    let p = pos;
    let cond = d.cond;
    let x = d.arg0;
    let y = d.arg1;
    let (new0, new1, newk) = s_split_results(v, x);
    let v = s_split(v, p, x);
    let (xl, xh) = (new0, new1);
    let p = p + newk;
    let (new0, new1, newk) = s_split_results(v, y);
    let v = s_split(v, p, y);
    let (yl, yh) = (new0, new1);
    let p = p + newk;
    let (new0, new1) = s_ins_results(v, inst_of(Opcode::IntCompare, value_type_of(v, xh), xh, yh, 0u32, 0i64, IntCC::SignedGreaterThan, TrapCode::User(0), 0u8, 0i32, 0u32, 0u32), None, None);
    let v = s_ins(v, p, inst_of(Opcode::IntCompare, value_type_of(v, xh), xh, yh, 0u32, 0i64, IntCC::SignedGreaterThan, TrapCode::User(0), 0u8, 0i32, 0u32, 0u32), None, None);
    let (b1, _r1) = (new0, new1);
    let p = p + 1;
    let (new0, new1) = s_ins_results(v, inst_of(Opcode::IntCompare, value_type_of(v, xh), xh, yh, 0u32, 0i64, IntCC::SignedLessThan, TrapCode::User(0), 0u8, 0i32, 0u32, 0u32), None, None);
    let v = s_ins(v, p, inst_of(Opcode::IntCompare, value_type_of(v, xh), xh, yh, 0u32, 0i64, IntCC::SignedLessThan, TrapCode::User(0), 0u8, 0i32, 0u32, 0u32), None, None);
    let (b2, _r1) = (new0, new1);
    let p = p + 1;
    let (new0, new1) = s_ins_results(v, inst_of(Opcode::IntCompare, value_type_of(v, xl), xl, yl, 0u32, 0i64, IntCC::UnsignedGreaterThan, TrapCode::User(0), 0u8, 0i32, 0u32, 0u32), None, None);
    let v = s_ins(v, p, inst_of(Opcode::IntCompare, value_type_of(v, xl), xl, yl, 0u32, 0i64, IntCC::UnsignedGreaterThan, TrapCode::User(0), 0u8, 0i32, 0u32, 0u32), None, None);
    let (b3, _r1) = (new0, new1);
    let p = p + 1;
    let (new0, new1) = s_ins_results(v, inst_of(Opcode::Bnot, value_type_of(v, b2), b2, 0u32, 0u32, 0i64, IntCC::Equal, TrapCode::User(0), 0u8, 0i32, 0u32, 0u32), None, None);
    let v = s_ins(v, p, inst_of(Opcode::Bnot, value_type_of(v, b2), b2, 0u32, 0u32, 0i64, IntCC::Equal, TrapCode::User(0), 0u8, 0i32, 0u32, 0u32), None, None);
    let (c1, _r1) = (new0, new1);
    let p = p + 1;
    let (new0, new1) = s_ins_results(v, inst_of(Opcode::Band, value_type_of(v, c1), c1, b3, 0u32, 0i64, IntCC::Equal, TrapCode::User(0), 0u8, 0i32, 0u32, 0u32), None, None);
    let v = s_ins(v, p, inst_of(Opcode::Band, value_type_of(v, c1), c1, b3, 0u32, 0i64, IntCC::Equal, TrapCode::User(0), 0u8, 0i32, 0u32, 0u32), None, None);
    let (c2, _r1) = (new0, new1);
    let p = p + 1;
    let v = s_replace(v, inst, inst_of(Opcode::Bor, value_type_of(v, b1), b1, c2, 0u32, 0i64, IntCC::Equal, TrapCode::User(0), 0u8, 0i32, 0u32, 0u32));
    Some(v)
}

/// Legalize a `int_compare` instruction by narrowing, with its pattern number 2.
#[verifier::rlimit(100)]
fn narrow_int_compare_2(inst: Inst, pos: usize, d: InstData, func: &mut Function) -> (r: bool)
    requires
        pattern_input(old(func)@, inst, pos as int, d),
    ensures
        pattern_outcome(old(func)@, final(func)@, r, narrow_int_compare_2_spec(old(func)@, inst, pos as int, d)),
        final(func).encodings@ == old(func).encodings@,
        func_wf(final(func)@),
        r ==> final(func)@.0.len() > old(func)@.0.len(),
        keeps_before(old(func)@, final(func)@, inst, pos as int),
{
    proof {
        reveal(narrow_int_compare_2_spec);
    }
    let mut p = pos;
    let cond = d.cond;
    let x = d.arg0;
    let y = d.arg1;
    let (xl, xh, k) = func.split_value(p, x);
    p = p + k;
    let (yl, yh, k) = func.split_value(p, y);
    p = p + k;
    let ty7 = func.value_type(xh);
    let (b1, _r1) = func.ins(p, make_inst(Opcode::IntCompare, ty7, xh, yh, 0u32, 0i64, IntCC::SignedGreaterThan, TrapCode::User(0), 0u8, 0i32, 0u32, 0u32), None, None);
    p = p + 1;
    let ty8 = func.value_type(xh);
    let (b2, _r1) = func.ins(p, make_inst(Opcode::IntCompare, ty8, xh, yh, 0u32, 0i64, IntCC::SignedLessThan, TrapCode::User(0), 0u8, 0i32, 0u32, 0u32), None, None);
    p = p + 1;
    let ty9 = func.value_type(xl);
    let (b3, _r1) = func.ins(p, make_inst(Opcode::IntCompare, ty9, xl, yl, 0u32, 0i64, IntCC::UnsignedGreaterThan, TrapCode::User(0), 0u8, 0i32, 0u32, 0u32), None, None);
    p = p + 1;
    let ty10 = func.value_type(b2);
    let (c1, _r1) = func.ins(p, make_inst(Opcode::Bnot, ty10, b2, 0u32, 0u32, 0i64, IntCC::Equal, TrapCode::User(0), 0u8, 0i32, 0u32, 0u32), None, None);
    p = p + 1;
    let ty11 = func.value_type(c1);
    let (c2, _r1) = func.ins(p, make_inst(Opcode::Band, ty11, c1, b3, 0u32, 0i64, IntCC::Equal, TrapCode::User(0), 0u8, 0i32, 0u32, 0u32), None, None);
    p = p + 1;
    let ty12 = func.value_type(b1);
    func.replace(inst, make_inst(Opcode::Bor, ty12, b1, c2, 0u32, 0i64, IntCC::Equal, TrapCode::User(0), 0u8, 0i32, 0u32, 0u32));
    return true;
}

/// The function after the narrowing of a `int_compare` instruction by its pattern number 3.
#[verifier::opaque]
pub open spec fn narrow_int_compare_3_spec(v: FuncView, inst: Inst, pos: int, d: InstData) -> Option<FuncView> {
    let p = pos;
    let cond = d.cond;
    let x = d.arg0;
    let y = d.arg1;
    let (new0, new1, newk) = s_split_results(v, x);
    let v = s_split(v, p, x);
    let (xl, xh) = (new0, new1);
    let p = p + newk;
    let (new0, new1, newk) = s_split_results(v, y);
    let v = s_split(v, p, y);
    let (yl, yh) = (new0, new1);
    let p = p + newk;
    let (new0, new1) = s_ins_results(v, inst_of(Opcode::IntCompare, value_type_of(v, xh), xh, yh, 0u32, 0i64, IntCC::SignedGreaterThan, TrapCode::User(0), 0u8, 0i32, 0u32, 0u32), None, None);
    let v = s_ins(v, p, inst_of(Opcode::IntCompare, value_type_of(v, xh), xh, yh, 0u32, 0i64, IntCC::SignedGreaterThan, TrapCode::User(0), 0u8, 0i32, 0u32, 0u32), None, None);
    let (b1, _r1) = (new0, new1);
    let p = p + 1;
    let (new0, new1) = s_ins_results(v, inst_of(Opcode::IntCompare, value_type_of(v, xh), xh, yh, 0u32, 0i64, IntCC::SignedLessThan, TrapCode::User(0), 0u8, 0i32, 0u32, 0u32), None, None);
    let v = s_ins(v, p, inst_of(Opcode::IntCompare, value_type_of(v, xh), xh, yh, 0u32, 0i64, IntCC::SignedLessThan, TrapCode::User(0), 0u8, 0i32, 0u32, 0u32), None, None);
    let (b2, _r1) = (new0, new1);
    let p = p + 1;
    let (new0, new1) = s_ins_results(v, inst_of(Opcode::IntCompare, value_type_of(v, xl), xl, yl, 0u32, 0i64, IntCC::UnsignedGreaterThanOrEqual, TrapCode::User(0), 0u8, 0i32, 0u32, 0u32), None, None);
    let v = s_ins(v, p, inst_of(Opcode::IntCompare, value_type_of(v, xl), xl, yl, 0u32, 0i64, IntCC::UnsignedGreaterThanOrEqual, TrapCode::User(0), 0u8, 0i32, 0u32, 0u32), None, None);
    let (b3, _r1) = (new0, new1);
    let p = p + 1;
    let (new0, new1) = s_ins_results(v, inst_of(Opcode::Bnot, value_type_of(v, b2), b2, 0u32, 0u32, 0i64, IntCC::Equal, TrapCode::User(0), 0u8, 0i32, 0u32, 0u32), None, None);
    let v = s_ins(v, p, inst_of(Opcode::Bnot, value_type_of(v, b2), b2, 0u32, 0u32, 0i64, IntCC::Equal, TrapCode::User(0), 0u8, 0i32, 0u32, 0u32), None, None);
    let (c1, _r1) = (new0, new1);
    let p = p + 1;
    let (new0, new1) = s_ins_results(v, inst_of(Opcode::Band, value_type_of(v, c1), c1, b3, 0u32, 0i64, IntCC::Equal, TrapCode::User(0), 0u8, 0i32, 0u32, 0u32), None, None);
    let v = s_ins(v, p, inst_of(Opcode::Band, value_type_of(v, c1), c1, b3, 0u32, 0i64, IntCC::Equal, TrapCode::User(0), 0u8, 0i32, 0u32, 0u32), None, None);
    let (c2, _r1) = (new0, new1);
    let p = p + 1;
    let v = s_replace(v, inst, inst_of(Opcode::Bor, value_type_of(v, b1), b1, c2, 0u32, 0i64, IntCC::Equal, TrapCode::User(0), 0u8, 0i32, 0u32, 0u32));
    Some(v)
}

/// Legalize a `int_compare` instruction by narrowing, with its pattern number 3.
#[verifier::rlimit(100)]
fn narrow_int_compare_3(inst: Inst, pos: usize, d: InstData, func: &mut Function) -> (r: bool)
    requires
        pattern_input(old(func)@, inst, pos as int, d),
    ensures
        pattern_outcome(old(func)@, final(func)@, r, narrow_int_compare_3_spec(old(func)@, inst, pos as int, d)),
        final(func).encodings@ == old(func).encodings@,
        func_wf(final(func)@),
        r ==> final(func)@.0.len() > old(func)@.0.len(),
        keeps_before(old(func)@, final(func)@, inst, pos as int),
{
    proof {
        reveal(narrow_int_compare_3_spec);
    }
    let mut p = pos;
    let cond = d.cond;
    let x = d.arg0;
    let y = d.arg1;
    let (xl, xh, k) = func.split_value(p, x);
    p = p + k;
    let (yl, yh, k) = func.split_value(p, y);
    p = p + k;
    let ty13 = func.value_type(xh);
    let (b1, _r1) = func.ins(p, make_inst(Opcode::IntCompare, ty13, xh, yh, 0u32, 0i64, IntCC::SignedGreaterThan, TrapCode::User(0), 0u8, 0i32, 0u32, 0u32), None, None);
    p = p + 1;
    let ty14 = func.value_type(xh);
    let (b2, _r1) = func.ins(p, make_inst(Opcode::IntCompare, ty14, xh, yh, 0u32, 0i64, IntCC::SignedLessThan, TrapCode::User(0), 0u8, 0i32, 0u32, 0u32), None, None);
    p = p + 1;
    let ty15 = func.value_type(xl);
    let (b3, _r1) = func.ins(p, make_inst(Opcode::IntCompare, ty15, xl, yl, 0u32, 0i64, IntCC::UnsignedGreaterThanOrEqual, TrapCode::User(0), 0u8, 0i32, 0u32, 0u32), None, None);
    p = p + 1;
    let ty16 = func.value_type(b2);
    let (c1, _r1) = func.ins(p, make_inst(Opcode::Bnot, ty16, b2, 0u32, 0u32, 0i64, IntCC::Equal, TrapCode::User(0), 0u8, 0i32, 0u32, 0u32), None, None);
    p = p + 1;
    let ty17 = func.value_type(c1);
    let (c2, _r1) = func.ins(p, make_inst(Opcode::Band, ty17, c1, b3, 0u32, 0i64, IntCC::Equal, TrapCode::User(0), 0u8, 0i32, 0u32, 0u32), None, None);
    p = p + 1;
    let ty18 = func.value_type(b1);
    func.replace(inst, make_inst(Opcode::Bor, ty18, b1, c2, 0u32, 0i64, IntCC::Equal, TrapCode::User(0), 0u8, 0i32, 0u32, 0u32));
    return true;
}

/// The function after the narrowing of a `int_compare` instruction by its pattern number 4.
#[verifier::opaque]
pub open spec fn narrow_int_compare_4_spec(v: FuncView, inst: Inst, pos: int, d: InstData) -> Option<FuncView> {
    let p = pos;
    let cond = d.cond;
    let x = d.arg0;
    let y = d.arg1;
    let (new0, new1, newk) = s_split_results(v, x);
    let v = s_split(v, p, x);
    let (xl, xh) = (new0, new1);
    let p = p + newk;
    let (new0, new1, newk) = s_split_results(v, y);
    let v = s_split(v, p, y);
    let (yl, yh) = (new0, new1);
    let p = p + newk;
    let (new0, new1) = s_ins_results(v, inst_of(Opcode::IntCompare, value_type_of(v, xh), xh, yh, 0u32, 0i64, IntCC::SignedLessThan, TrapCode::User(0), 0u8, 0i32, 0u32, 0u32), None, None);
    let v = s_ins(v, p, inst_of(Opcode::IntCompare, value_type_of(v, xh), xh, yh, 0u32, 0i64, IntCC::SignedLessThan, TrapCode::User(0), 0u8, 0i32, 0u32, 0u32), None, None);
    let (b1, _r1) = (new0, new1);
    let p = p + 1;
    let (new0, new1) = s_ins_results(v, inst_of(Opcode::IntCompare, value_type_of(v, xh), xh, yh, 0u32, 0i64, IntCC::SignedGreaterThan, TrapCode::User(0), 0u8, 0i32, 0u32, 0u32), None, None);
    let v = s_ins(v, p, inst_of(Opcode::IntCompare, value_type_of(v, xh), xh, yh, 0u32, 0i64, IntCC::SignedGreaterThan, TrapCode::User(0), 0u8, 0i32, 0u32, 0u32), None, None);
    let (b2, _r1) = (new0, new1);
    let p = p + 1;
    let (new0, new1) = s_ins_results(v, inst_of(Opcode::IntCompare, value_type_of(v, xl), xl, yl, 0u32, 0i64, IntCC::UnsignedLessThan, TrapCode::User(0), 0u8, 0i32, 0u32, 0u32), None, None);
    let v = s_ins(v, p, inst_of(Opcode::IntCompare, value_type_of(v, xl), xl, yl, 0u32, 0i64, IntCC::UnsignedLessThan, TrapCode::User(0), 0u8, 0i32, 0u32, 0u32), None, None);
    let (b3, _r1) = (new0, new1);
    let p = p + 1;
    let (new0, new1) = s_ins_results(v, inst_of(Opcode::Bnot, value_type_of(v, b2), b2, 0u32, 0u32, 0i64, IntCC::Equal, TrapCode::User(0), 0u8, 0i32, 0u32, 0u32), None, None);
    let v = s_ins(v, p, inst_of(Opcode::Bnot, value_type_of(v, b2), b2, 0u32, 0u32, 0i64, IntCC::Equal, TrapCode::User(0), 0u8, 0i32, 0u32, 0u32), None, None);
    let (c1, _r1) = (new0, new1);
    let p = p + 1;
    let (new0, new1) = s_ins_results(v, inst_of(Opcode::Band, value_type_of(v, c1), c1, b3, 0u32, 0i64, IntCC::Equal, TrapCode::User(0), 0u8, 0i32, 0u32, 0u32), None, None);
    let v = s_ins(v, p, inst_of(Opcode::Band, value_type_of(v, c1), c1, b3, 0u32, 0i64, IntCC::Equal, TrapCode::User(0), 0u8, 0i32, 0u32, 0u32), None, None);
    let (c2, _r1) = (new0, new1);
    let p = p + 1;
    let v = s_replace(v, inst, inst_of(Opcode::Bor, value_type_of(v, b1), b1, c2, 0u32, 0i64, IntCC::Equal, TrapCode::User(0), 0u8, 0i32, 0u32, 0u32));
    Some(v)
}

/// Legalize a `int_compare` instruction by narrowing, with its pattern number 4.
#[verifier::rlimit(100)]
fn narrow_int_compare_4(inst: Inst, pos: usize, d: InstData, func: &mut Function) -> (r: bool)
    requires
        pattern_input(old(func)@, inst, pos as int, d),
    ensures
        pattern_outcome(old(func)@, final(func)@, r, narrow_int_compare_4_spec(old(func)@, inst, pos as int, d)),
        final(func).encodings@ == old(func).encodings@,
        func_wf(final(func)@),
        r ==> final(func)@.0.len() > old(func)@.0.len(),
        keeps_before(old(func)@, final(func)@, inst, pos as int),
{
    proof {
        reveal(narrow_int_compare_4_spec);
    }
    let mut p = pos;
    let cond = d.cond;
    let x = d.arg0;
    let y = d.arg1;
    let (xl, xh, k) = func.split_value(p, x);
    p = p + k;
    let (yl, yh, k) = func.split_value(p, y);
    p = p + k;
    let ty19 = func.value_type(xh);
    let (b1, _r1) = func.ins(p, make_inst(Opcode::IntCompare, ty19, xh, yh, 0u32, 0i64, IntCC::SignedLessThan, TrapCode::User(0), 0u8, 0i32, 0u32, 0u32), None, None);
    p = p + 1;
    let ty20 = func.value_type(xh);
    let (b2, _r1) = func.ins(p, make_inst(Opcode::IntCompare, ty20, xh, yh, 0u32, 0i64, IntCC::SignedGreaterThan, TrapCode::User(0), 0u8, 0i32, 0u32, 0u32), None, None);
    p = p + 1;
    let ty21 = func.value_type(xl);
    let (b3, _r1) = func.ins(p, make_inst(Opcode::IntCompare, ty21, xl, yl, 0u32, 0i64, IntCC::UnsignedLessThan, TrapCode::User(0), 0u8, 0i32, 0u32, 0u32), None, None);
    p = p + 1;
    let ty22 = func.value_type(b2);
    let (c1, _r1) = func.ins(p, make_inst(Opcode::Bnot, ty22, b2, 0u32, 0u32, 0i64, IntCC::Equal, TrapCode::User(0), 0u8, 0i32, 0u32, 0u32), None, None);
    p = p + 1;
    let ty23 = func.value_type(c1);
    let (c2, _r1) = func.ins(p, make_inst(Opcode::Band, ty23, c1, b3, 0u32, 0i64, IntCC::Equal, TrapCode::User(0), 0u8, 0i32, 0u32, 0u32), None, None);
    p = p + 1;
    let ty24 = func.value_type(b1);
    func.replace(inst, make_inst(Opcode::Bor, ty24, b1, c2, 0u32, 0i64, IntCC::Equal, TrapCode::User(0), 0u8, 0i32, 0u32, 0u32));
    return true;
}

/// The function after the narrowing of a `int_compare` instruction by its pattern number 5.
#[verifier::opaque]
pub open spec fn narrow_int_compare_5_spec(v: FuncView, inst: Inst, pos: int, d: InstData) -> Option<FuncView> {
    let p = pos;
    let cond = d.cond;
    let x = d.arg0;
    let y = d.arg1;
    let (new0, new1, newk) = s_split_results(v, x);
    let v = s_split(v, p, x);
    let (xl, xh) = (new0, new1);
    let p = p + newk;
    let (new0, new1, newk) = s_split_results(v, y);
    let v = s_split(v, p, y);
    let (yl, yh) = (new0, new1);
    let p = p + newk;
    let (new0, new1) = s_ins_results(v, inst_of(Opcode::IntCompare, value_type_of(v, xh), xh, yh, 0u32, 0i64, IntCC::SignedLessThan, TrapCode::User(0), 0u8, 0i32, 0u32, 0u32), None, None);
    let v = s_ins(v, p, inst_of(Opcode::IntCompare, value_type_of(v, xh), xh, yh, 0u32, 0i64, IntCC::SignedLessThan, TrapCode::User(0), 0u8, 0i32, 0u32, 0u32), None, None);
    let (b1, _r1) = (new0, new1);
    let p = p + 1;
    let (new0, new1) = s_ins_results(v, inst_of(Opcode::IntCompare, value_type_of(v, xh), xh, yh, 0u32, 0i64, IntCC::SignedGreaterThan, TrapCode::User(0), 0u8, 0i32, 0u32, 0u32), None, None);
    let v = s_ins(v, p, inst_of(Opcode::IntCompare, value_type_of(v, xh), xh, yh, 0u32, 0i64, IntCC::SignedGreaterThan, TrapCode::User(0), 0u8, 0i32, 0u32, 0u32), None, None);
    let (b2, _r1) = (new0, new1);
    let p = p + 1;
    let (new0, new1) = s_ins_results(v, inst_of(Opcode::IntCompare, value_type_of(v, xl), xl, yl, 0u32, 0i64, IntCC::UnsignedLessThanOrEqual, TrapCode::User(0), 0u8, 0i32, 0u32, 0u32), None, None);
    let v = s_ins(v, p, inst_of(Opcode::IntCompare, value_type_of(v, xl), xl, yl, 0u32, 0i64, IntCC::UnsignedLessThanOrEqual, TrapCode::User(0), 0u8, 0i32, 0u32, 0u32), None, None);
    let (b3, _r1) = (new0, new1);
    let p = p + 1;
    let (new0, new1) = s_ins_results(v, inst_of(Opcode::Bnot, value_type_of(v, b2), b2, 0u32, 0u32, 0i64, IntCC::Equal, TrapCode::User(0), 0u8, 0i32, 0u32, 0u32), None, None);
    let v = s_ins(v, p, inst_of(Opcode::Bnot, value_type_of(v, b2), b2, 0u32, 0u32, 0i64, IntCC::Equal, TrapCode::User(0), 0u8, 0i32, 0u32, 0u32), None, None);
    let (c1, _r1) = (new0, new1);
    let p = p + 1;
    let (new0, new1) = s_ins_results(v, inst_of(Opcode::Band, value_type_of(v, c1), c1, b3, 0u32, 0i64, IntCC::Equal, TrapCode::User(0), 0u8, 0i32, 0u32, 0u32), None, None);
    let v = s_ins(v, p, inst_of(Opcode::Band, value_type_of(v, c1), c1, b3, 0u32, 0i64, IntCC::Equal, TrapCode::User(0), 0u8, 0i32, 0u32, 0u32), None, None);
    let (c2, _r1) = (new0, new1);
    let p = p + 1;
    let v = s_replace(v, inst, inst_of(Opcode::Bor, value_type_of(v, b1), b1, c2, 0u32, 0i64, IntCC::Equal, TrapCode::User(0), 0u8, 0i32, 0u32, 0u32));
    Some(v)
}

/// Legalize a `int_compare` instruction by narrowing, with its pattern number 5.
#[verifier::rlimit(100)]
fn narrow_int_compare_5(inst: Inst, pos: usize, d: InstData, func: &mut Function) -> (r: bool)
    requires
        pattern_input(old(func)@, inst, pos as int, d),
    ensures
        pattern_outcome(old(func)@, final(func)@, r, narrow_int_compare_5_spec(old(func)@, inst, pos as int, d)),
        final(func).encodings@ == old(func).encodings@,
        func_wf(final(func)@),
        r ==> final(func)@.0.len() > old(func)@.0.len(),
        keeps_before(old(func)@, final(func)@, inst, pos as int),
{
    proof {
        reveal(narrow_int_compare_5_spec);
    }
    let mut p = pos;
    let cond = d.cond;
    let x = d.arg0;
    let y = d.arg1;
    let (xl, xh, k) = func.split_value(p, x);
    p = p + k;
    let (yl, yh, k) = func.split_value(p, y);
    p = p + k;
    let ty25 = func.value_type(xh);
    let (b1, _r1) = func.ins(p, make_inst(Opcode::IntCompare, ty25, xh, yh, 0u32, 0i64, IntCC::SignedLessThan, TrapCode::User(0), 0u8, 0i32, 0u32, 0u32), None, None);
    p = p + 1;
    let ty26 = func.value_type(xh);
    let (b2, _r1) = func.ins(p, make_inst(Opcode::IntCompare, ty26, xh, yh, 0u32, 0i64, IntCC::SignedGreaterThan, TrapCode::User(0), 0u8, 0i32, 0u32, 0u32), None, None);
    p = p + 1;
    let ty27 = func.value_type(xl);
    let (b3, _r1) = func.ins(p, make_inst(Opcode::IntCompare, ty27, xl, yl, 0u32, 0i64, IntCC::UnsignedLessThanOrEqual, TrapCode::User(0), 0u8, 0i32, 0u32, 0u32), None, None);
    p = p + 1;
    let ty28 = func.value_type(b2);
    let (c1, _r1) = func.ins(p, make_inst(Opcode::Bnot, ty28, b2, 0u32, 0u32, 0i64, IntCC::Equal, TrapCode::User(0), 0u8, 0i32, 0u32, 0u32), None, None);
    p = p + 1;
    let ty29 = func.value_type(c1);
    let (c2, _r1) = func.ins(p, make_inst(Opcode::Band, ty29, c1, b3, 0u32, 0i64, IntCC::Equal, TrapCode::User(0), 0u8, 0i32, 0u32, 0u32), None, None);
    p = p + 1;
    let ty30 = func.value_type(b1);
    func.replace(inst, make_inst(Opcode::Bor, ty30, b1, c2, 0u32, 0i64, IntCC::Equal, TrapCode::User(0), 0u8, 0i32, 0u32, 0u32));
    return true;
}

/// The function after the narrowing of a `int_compare` instruction by its pattern number 6.
#[verifier::opaque]
pub open spec fn narrow_int_compare_6_spec(v: FuncView, inst: Inst, pos: int, d: InstData) -> Option<FuncView> {
    let p = pos;
    let cond = d.cond;
    let x = d.arg0;
    let y = d.arg1;
    let (new0, new1, newk) = s_split_results(v, x);
    let v = s_split(v, p, x);
    let (xl, xh) = (new0, new1);
    let p = p + newk;
    let (new0, new1, newk) = s_split_results(v, y);
    let v = s_split(v, p, y);
    let (yl, yh) = (new0, new1);
    let p = p + newk;
    let (new0, new1) = s_ins_results(v, inst_of(Opcode::IntCompare, value_type_of(v, xh), xh, yh, 0u32, 0i64, IntCC::UnsignedGreaterThan, TrapCode::User(0), 0u8, 0i32, 0u32, 0u32), None, None);
    let v = s_ins(v, p, inst_of(Opcode::IntCompare, value_type_of(v, xh), xh, yh, 0u32, 0i64, IntCC::UnsignedGreaterThan, TrapCode::User(0), 0u8, 0i32, 0u32, 0u32), None, None);
    let (b1, _r1) = (new0, new1);
    let p = p + 1;
    let (new0, new1) = s_ins_results(v, inst_of(Opcode::IntCompare, value_type_of(v, xh), xh, yh, 0u32, 0i64, IntCC::UnsignedLessThan, TrapCode::User(0), 0u8, 0i32, 0u32, 0u32), None, None);
    let v = s_ins(v, p, inst_of(Opcode::IntCompare, value_type_of(v, xh), xh, yh, 0u32, 0i64, IntCC::UnsignedLessThan, TrapCode::User(0), 0u8, 0i32, 0u32, 0u32), None, None);
    let (b2, _r1) = (new0, new1);
    let p = p + 1;
    let (new0, new1) = s_ins_results(v, inst_of(Opcode::IntCompare, value_type_of(v, xl), xl, yl, 0u32, 0i64, IntCC::UnsignedGreaterThan, TrapCode::User(0), 0u8, 0i32, 0u32, 0u32), None, None);
    let v = s_ins(v, p, inst_of(Opcode::IntCompare, value_type_of(v, xl), xl, yl, 0u32, 0i64, IntCC::UnsignedGreaterThan, TrapCode::User(0), 0u8, 0i32, 0u32, 0u32), None, None);
    let (b3, _r1) = (new0, new1);
    let p = p + 1;
    let (new0, new1) = s_ins_results(v, inst_of(Opcode::Bnot, value_type_of(v, b2), b2, 0u32, 0u32, 0i64, IntCC::Equal, TrapCode::User(0), 0u8, 0i32, 0u32, 0u32), None, None);
    let v = s_ins(v, p, inst_of(Opcode::Bnot, value_type_of(v, b2), b2, 0u32, 0u32, 0i64, IntCC::Equal, TrapCode::User(0), 0u8, 0i32, 0u32, 0u32), None, None);
    let (c1, _r1) = (new0, new1);
    let p = p + 1;
    let (new0, new1) = s_ins_results(v, inst_of(Opcode::Band, value_type_of(v, c1), c1, b3, 0u32, 0i64, IntCC::Equal, TrapCode::User(0), 0u8, 0i32, 0u32, 0u32), None, None);
    let v = s_ins(v, p, inst_of(Opcode::Band, value_type_of(v, c1), c1, b3, 0u32, 0i64, IntCC::Equal, TrapCode::User(0), 0u8, 0i32, 0u32, 0u32), None, None);
    let (c2, _r1) = (new0, new1);
    let p = p + 1;
    let v = s_replace(v, inst, inst_of(Opcode::Bor, value_type_of(v, b1), b1, c2, 0u32, 0i64, IntCC::Equal, TrapCode::User(0), 0u8, 0i32, 0u32, 0u32));
    Some(v)
}

/// Legalize a `int_compare` instruction by narrowing, with its pattern number 6.
#[verifier::rlimit(100)]
fn narrow_int_compare_6(inst: Inst, pos: usize, d: InstData, func: &mut Function) -> (r: bool)
    requires
        pattern_input(old(func)@, inst, pos as int, d),
    ensures
        pattern_outcome(old(func)@, final(func)@, r, narrow_int_compare_6_spec(old(func)@, inst, pos as int, d)),
        final(func).encodings@ == old(func).encodings@,
        func_wf(final(func)@),
        r ==> final(func)@.0.len() > old(func)@.0.len(),
        keeps_before(old(func)@, final(func)@, inst, pos as int),
{
    proof {
        reveal(narrow_int_compare_6_spec);
    }
    let mut p = pos;
    let cond = d.cond;
    let x = d.arg0;
    let y = d.arg1;
    let (xl, xh, k) = func.split_value(p, x);
    p = p + k;
    let (yl, yh, k) = func.split_value(p, y);
    p = p + k;
    let ty31 = func.value_type(xh);
    let (b1, _r1) = func.ins(p, make_inst(Opcode::IntCompare, ty31, xh, yh, 0u32, 0i64, IntCC::UnsignedGreaterThan, TrapCode::User(0), 0u8, 0i32, 0u32, 0u32), None, None);
    p = p + 1;
    let ty32 = func.value_type(xh);
    let (b2, _r1) = func.ins(p, make_inst(Opcode::IntCompare, ty32, xh, yh, 0u32, 0i64, IntCC::UnsignedLessThan, TrapCode::User(0), 0u8, 0i32, 0u32, 0u32), None, None);
    p = p + 1;
    let ty33 = func.value_type(xl);
    let (b3, _r1) = func.ins(p, make_inst(Opcode::IntCompare, ty33, xl, yl, 0u32, 0i64, IntCC::UnsignedGreaterThan, TrapCode::User(0), 0u8, 0i32, 0u32, 0u32), None, None);
    p = p + 1;
    let ty34 = func.value_type(b2);
    let (c1, _r1) = func.ins(p, make_inst(Opcode::Bnot, ty34, b2, 0u32, 0u32, 0i64, IntCC::Equal, TrapCode::User(0), 0u8, 0i32, 0u32, 0u32), None, None);
    p = p + 1;
    let ty35 = func.value_type(c1);
    let (c2, _r1) = func.ins(p, make_inst(Opcode::Band, ty35, c1, b3, 0u32, 0i64, IntCC::Equal, TrapCode::User(0), 0u8, 0i32, 0u32, 0u32), None, None);
    p = p + 1;
    let ty36 = func.value_type(b1);
    func.replace(inst, make_inst(Opcode::Bor, ty36, b1, c2, 0u32, 0i64, IntCC::Equal, TrapCode::User(0), 0u8, 0i32, 0u32, 0u32));
    return true;
}

/// The function after the narrowing of a `int_compare` instruction by its pattern number 7.
#[verifier::opaque]
pub open spec fn narrow_int_compare_7_spec(v: FuncView, inst: Inst, pos: int, d: InstData) -> Option<FuncView> {
    let p = pos;
    let cond = d.cond;
    let x = d.arg0;
    let y = d.arg1;
    let (new0, new1, newk) = s_split_results(v, x);
    let v = s_split(v, p, x);
    let (xl, xh) = (new0, new1);
    let p = p + newk;
    let (new0, new1, newk) = s_split_results(v, y);
    let v = s_split(v, p, y);
    let (yl, yh) = (new0, new1);
    let p = p + newk;
    let (new0, new1) = s_ins_results(v, inst_of(Opcode::IntCompare, value_type_of(v, xh), xh, yh, 0u32, 0i64, IntCC::UnsignedGreaterThan, TrapCode::User(0), 0u8, 0i32, 0u32, 0u32), None, None);
    let v = s_ins(v, p, inst_of(Opcode::IntCompare, value_type_of(v, xh), xh, yh, 0u32, 0i64, IntCC::UnsignedGreaterThan, TrapCode::User(0), 0u8, 0i32, 0u32, 0u32), None, None);
    let (b1, _r1) = (new0, new1);
    let p = p + 1;
    let (new0, new1) = s_ins_results(v, inst_of(Opcode::IntCompare, value_type_of(v, xh), xh, yh, 0u32, 0i64, IntCC::UnsignedLessThan, TrapCode::User(0), 0u8, 0i32, 0u32, 0u32), None, None);
    let v = s_ins(v, p, inst_of(Opcode::IntCompare, value_type_of(v, xh), xh, yh, 0u32, 0i64, IntCC::UnsignedLessThan, TrapCode::User(0), 0u8, 0i32, 0u32, 0u32), None, None);
    let (b2, _r1) = (new0, new1);
    let p = p + 1;
    let (new0, new1) = s_ins_results(v, inst_of(Opcode::IntCompare, value_type_of(v, xl), xl, yl, 0u32, 0i64, IntCC::UnsignedGreaterThanOrEqual, TrapCode::User(0), 0u8, 0i32, 0u32, 0u32), None, None);
    let v = s_ins(v, p, inst_of(Opcode::IntCompare, value_type_of(v, xl), xl, yl, 0u32, 0i64, IntCC::UnsignedGreaterThanOrEqual, TrapCode::User(0), 0u8, 0i32, 0u32, 0u32), None, None);
    let (b3, _r1) = (new0, new1);
    let p = p + 1;
    let (new0, new1) = s_ins_results(v, inst_of(Opcode::Bnot, value_type_of(v, b2), b2, 0u32, 0u32, 0i64, IntCC::Equal, TrapCode::User(0), 0u8, 0i32, 0u32, 0u32), None, None);
    let v = s_ins(v, p, inst_of(Opcode::Bnot, value_type_of(v, b2), b2, 0u32, 0u32, 0i64, IntCC::Equal, TrapCode::User(0), 0u8, 0i32, 0u32, 0u32), None, None);
    let (c1, _r1) = (new0, new1);
    let p = p + 1;
    let (new0, new1) = s_ins_results(v, inst_of(Opcode::Band, value_type_of(v, c1), c1, b3, 0u32, 0i64, IntCC::Equal, TrapCode::User(0), 0u8, 0i32, 0u32, 0u32), None, None);
    let v = s_ins(v, p, inst_of(Opcode::Band, value_type_of(v, c1), c1, b3, 0u32, 0i64, IntCC::Equal, TrapCode::User(0), 0u8, 0i32, 0u32, 0u32), None, None);
    let (c2, _r1) = (new0, new1);
    let p = p + 1;
    let v = s_replace(v, inst, inst_of(Opcode::Bor, value_type_of(v, b1), b1, c2, 0u32, 0i64, IntCC::Equal, TrapCode::User(0), 0u8, 0i32, 0u32, 0u32));
    Some(v)
}

/// Legalize a `int_compare` instruction by narrowing, with its pattern number 7.
#[verifier::rlimit(100)]
fn narrow_int_compare_7(inst: Inst, pos: usize, d: InstData, func: &mut Function) -> (r: bool)
    requires
        pattern_input(old(func)@, inst, pos as int, d),
    ensures
        pattern_outcome(old(func)@, final(func)@, r, narrow_int_compare_7_spec(old(func)@, inst, pos as int, d)),
        final(func).encodings@ == old(func).encodings@,
        func_wf(final(func)@),
        r ==> final(func)@.0.len() > old(func)@.0.len(),
        keeps_before(old(func)@, final(func)@, inst, pos as int),
{
    proof {
        reveal(narrow_int_compare_7_spec);
    }
    let mut p = pos;
    let cond = d.cond;
    let x = d.arg0;
    let y = d.arg1;
    let (xl, xh, k) = func.split_value(p, x);
    p = p + k;
    let (yl, yh, k) = func.split_value(p, y);
    p = p + k;
    let ty37 = func.value_type(xh);
    let (b1, _r1) = func.ins(p, make_inst(Opcode::IntCompare, ty37, xh, yh, 0u32, 0i64, IntCC::UnsignedGreaterThan, TrapCode::User(0), 0u8, 0i32, 0u32, 0u32), None, None);
    p = p + 1;
    let ty38 = func.value_type(xh);
    let (b2, _r1) = func.ins(p, make_inst(Opcode::IntCompare, ty38, xh, yh, 0u32, 0i64, IntCC::UnsignedLessThan, TrapCode::User(0), 0u8, 0i32, 0u32, 0u32), None, None);
    p = p + 1;
    let ty39 = func.value_type(xl);
    let (b3, _r1) = func.ins(p, make_inst(Opcode::IntCompare, ty39, xl, yl, 0u32, 0i64, IntCC::UnsignedGreaterThanOrEqual, TrapCode::User(0), 0u8, 0i32, 0u32, 0u32), None, None);
    p = p + 1;
    let ty40 = func.value_type(b2);
    let (c1, _r1) = func.ins(p, make_inst(Opcode::Bnot, ty40, b2, 0u32, 0u32, 0i64, IntCC::Equal, TrapCode::User(0), 0u8, 0i32, 0u32, 0u32), None, None);
    p = p + 1;
    let ty41 = func.value_type(c1);
    let (c2, _r1) = func.ins(p, make_inst(Opcode::Band, ty41, c1, b3, 0u32, 0i64, IntCC::Equal, TrapCode::User(0), 0u8, 0i32, 0u32, 0u32), None, None);
    p = p + 1;
    let ty42 = func.value_type(b1);
    func.replace(inst, make_inst(Opcode::Bor, ty42, b1, c2, 0u32, 0i64, IntCC::Equal, TrapCode::User(0), 0u8, 0i32, 0u32, 0u32));
    return true;
}

/// The function after the narrowing of a `int_compare` instruction by its pattern number 8.
#[verifier::opaque]
pub open spec fn narrow_int_compare_8_spec(v: FuncView, inst: Inst, pos: int, d: InstData) -> Option<FuncView> {
    let p = pos;
    let cond = d.cond;
    let x = d.arg0;
    let y = d.arg1;
    let (new0, new1, newk) = s_split_results(v, x);
    let v = s_split(v, p, x);
    let (xl, xh) = (new0, new1);
    let p = p + newk;
    let (new0, new1, newk) = s_split_results(v, y);
    let v = s_split(v, p, y);
    let (yl, yh) = (new0, new1);
    let p = p + newk;
    let (new0, new1) = s_ins_results(v, inst_of(Opcode::IntCompare, value_type_of(v, xh), xh, yh, 0u32, 0i64, IntCC::UnsignedLessThan, TrapCode::User(0), 0u8, 0i32, 0u32, 0u32), None, None);
    let v = s_ins(v, p, inst_of(Opcode::IntCompare, value_type_of(v, xh), xh, yh, 0u32, 0i64, IntCC::UnsignedLessThan, TrapCode::User(0), 0u8, 0i32, 0u32, 0u32), None, None);
    let (b1, _r1) = (new0, new1);
    let p = p + 1;
    let (new0, new1) = s_ins_results(v, inst_of(Opcode::IntCompare, value_type_of(v, xh), xh, yh, 0u32, 0i64, IntCC::UnsignedGreaterThan, TrapCode::User(0), 0u8, 0i32, 0u32, 0u32), None, None);
    let v = s_ins(v, p, inst_of(Opcode::IntCompare, value_type_of(v, xh), xh, yh, 0u32, 0i64, IntCC::UnsignedGreaterThan, TrapCode::User(0), 0u8, 0i32, 0u32, 0u32), None, None);
    let (b2, _r1) = (new0, new1);
    let p = p + 1;
    let (new0, new1) = s_ins_results(v, inst_of(Opcode::IntCompare, value_type_of(v, xl), xl, yl, 0u32, 0i64, IntCC::UnsignedLessThan, TrapCode::User(0), 0u8, 0i32, 0u32, 0u32), None, None);
    let v = s_ins(v, p, inst_of(Opcode::IntCompare, value_type_of(v, xl), xl, yl, 0u32, 0i64, IntCC::UnsignedLessThan, TrapCode::User(0), 0u8, 0i32, 0u32, 0u32), None, None);
    let (b3, _r1) = (new0, new1);
    let p = p + 1;
    let (new0, new1) = s_ins_results(v, inst_of(Opcode::Bnot, value_type_of(v, b2), b2, 0u32, 0u32, 0i64, IntCC::Equal, TrapCode::User(0), 0u8, 0i32, 0u32, 0u32), None, None);
    let v = s_ins(v, p, inst_of(Opcode::Bnot, value_type_of(v, b2), b2, 0u32, 0u32, 0i64, IntCC::Equal, TrapCode::User(0), 0u8, 0i32, 0u32, 0u32), None, None);
    let (c1, _r1) = (new0, new1);
    let p = p + 1;
    let (new0, new1) = s_ins_results(v, inst_of(Opcode::Band, value_type_of(v, c1), c1, b3, 0u32, 0i64, IntCC::Equal, TrapCode::User(0), 0u8, 0i32, 0u32, 0u32), None, None);
    let v = s_ins(v, p, inst_of(Opcode::Band, value_type_of(v, c1), c1, b3, 0u32, 0i64, IntCC::Equal, TrapCode::User(0), 0u8, 0i32, 0u32, 0u32), None, None);
    let (c2, _r1) = (new0, new1);
    let p = p + 1;
    let v = s_replace(v, inst, inst_of(Opcode::Bor, value_type_of(v, b1), b1, c2, 0u32, 0i64, IntCC::Equal, TrapCode::User(0), 0u8, 0i32, 0u32, 0u32));
    Some(v)
}

/// Legalize a `int_compare` instruction by narrowing, with its pattern number 8.
#[verifier::rlimit(100)]
fn narrow_int_compare_8(inst: Inst, pos: usize, d: InstData, func: &mut Function) -> (r: bool)
    requires
        pattern_input(old(func)@, inst, pos as int, d),
    ensures
        pattern_outcome(old(func)@, final(func)@, r, narrow_int_compare_8_spec(old(func)@, inst, pos as int, d)),
        final(func).encodings@ == old(func).encodings@,
        func_wf(final(func)@),
        r ==> final(func)@.0.len() > old(func)@.0.len(),
        keeps_before(old(func)@, final(func)@, inst, pos as int),
{
    proof {
        reveal(narrow_int_compare_8_spec);
    }
    let mut p = pos;
    let cond = d.cond;
    let x = d.arg0;
    let y = d.arg1;
    let (xl, xh, k) = func.split_value(p, x);
    p = p + k;
    let (yl, yh, k) = func.split_value(p, y);
    p = p + k;
    let ty43 = func.value_type(xh);
    let (b1, _r1) = func.ins(p, make_inst(Opcode::IntCompare, ty43, xh, yh, 0u32, 0i64, IntCC::UnsignedLessThan, TrapCode::User(0), 0u8, 0i32, 0u32, 0u32), None, None);
    p = p + 1;
    let ty44 = func.value_type(xh);
    let (b2, _r1) = func.ins(p, make_inst(Opcode::IntCompare, ty44, xh, yh, 0u32, 0i64, IntCC::UnsignedGreaterThan, TrapCode::User(0), 0u8, 0i32, 0u32, 0u32), None, None);
    p = p + 1;
    let ty45 = func.value_type(xl);
    let (b3, _r1) = func.ins(p, make_inst(Opcode::IntCompare, ty45, xl, yl, 0u32, 0i64, IntCC::UnsignedLessThan, TrapCode::User(0), 0u8, 0i32, 0u32, 0u32), None, None);
    p = p + 1;
    let ty46 = func.value_type(b2);
    let (c1, _r1) = func.ins(p, make_inst(Opcode::Bnot, ty46, b2, 0u32, 0u32, 0i64, IntCC::Equal, TrapCode::User(0), 0u8, 0i32, 0u32, 0u32), None, None);
    p = p + 1;
    let ty47 = func.value_type(c1);
    let (c2, _r1) = func.ins(p, make_inst(Opcode::Band, ty47, c1, b3, 0u32, 0i64, IntCC::Equal, TrapCode::User(0), 0u8, 0i32, 0u32, 0u32), None, None);
    p = p + 1;
    let ty48 = func.value_type(b1);
    func.replace(inst, make_inst(Opcode::Bor, ty48, b1, c2, 0u32, 0i64, IntCC::Equal, TrapCode::User(0), 0u8, 0i32, 0u32, 0u32));
    return true;
}

/// The function after the narrowing of a `int_compare` instruction by its pattern number 9.
#[verifier::opaque]
pub open spec fn narrow_int_compare_9_spec(v: FuncView, inst: Inst, pos: int, d: InstData) -> Option<FuncView> {
    let p = pos;
    let cond = d.cond;
    let x = d.arg0;
    let y = d.arg1;
    let (new0, new1, newk) = s_split_results(v, x);
    let v = s_split(v, p, x);
    let (xl, xh) = (new0, new1);
    let p = p + newk;
    let (new0, new1, newk) = s_split_results(v, y);
    let v = s_split(v, p, y);
    let (yl, yh) = (new0, new1);
    let p = p + newk;
    let (new0, new1) = s_ins_results(v, inst_of(Opcode::IntCompare, value_type_of(v, xh), xh, yh, 0u32, 0i64, IntCC::UnsignedLessThan, TrapCode::User(0), 0u8, 0i32, 0u32, 0u32), None, None);
    let v = s_ins(v, p, inst_of(Opcode::IntCompare, value_type_of(v, xh), xh, yh, 0u32, 0i64, IntCC::UnsignedLessThan, TrapCode::User(0), 0u8, 0i32, 0u32, 0u32), None, None);
    let (b1, _r1) = (new0, new1);
    let p = p + 1;
    let (new0, new1) = s_ins_results(v, inst_of(Opcode::IntCompare, value_type_of(v, xh), xh, yh, 0u32, 0i64, IntCC::UnsignedGreaterThan, TrapCode::User(0), 0u8, 0i32, 0u32, 0u32), None, None);
    let v = s_ins(v, p, inst_of(Opcode::IntCompare, value_type_of(v, xh), xh, yh, 0u32, 0i64, IntCC::UnsignedGreaterThan, TrapCode::User(0), 0u8, 0i32, 0u32, 0u32), None, None);
    let (b2, _r1) = (new0, new1);
    let p = p + 1;
    let (new0, new1) = s_ins_results(v, inst_of(Opcode::IntCompare, value_type_of(v, xl), xl, yl, 0u32, 0i64, IntCC::UnsignedLessThanOrEqual, TrapCode::User(0), 0u8, 0i32, 0u32, 0u32), None, None);
    let v = s_ins(v, p, inst_of(Opcode::IntCompare, value_type_of(v, xl), xl, yl, 0u32, 0i64, IntCC::UnsignedLessThanOrEqual, TrapCode::User(0), 0u8, 0i32, 0u32, 0u32), None, None);
    let (b3, _r1) = (new0, new1);
    let p = p + 1;
    let (new0, new1) = s_ins_results(v, inst_of(Opcode::Bnot, value_type_of(v, b2), b2, 0u32, 0u32, 0i64, IntCC::Equal, TrapCode::User(0), 0u8, 0i32, 0u32, 0u32), None, None);
    let v = s_ins(v, p, inst_of(Opcode::Bnot, value_type_of(v, b2), b2, 0u32, 0u32, 0i64, IntCC::Equal, TrapCode::User(0), 0u8, 0i32, 0u32, 0u32), None, None);
    let (c1, _r1) = (new0, new1);
    let p = p + 1;
    let (new0, new1) = s_ins_results(v, inst_of(Opcode::Band, value_type_of(v, c1), c1, b3, 0u32, 0i64, IntCC::Equal, TrapCode::User(0), 0u8, 0i32, 0u32, 0u32), None, None);
    let v = s_ins(v, p, inst_of(Opcode::Band, value_type_of(v, c1), c1, b3, 0u32, 0i64, IntCC::Equal, TrapCode::User(0), 0u8, 0i32, 0u32, 0u32), None, None);
    let (c2, _r1) = (new0, new1);
    let p = p + 1;
    let v = s_replace(v, inst, inst_of(Opcode::Bor, value_type_of(v, b1), b1, c2, 0u32, 0i64, IntCC::Equal, TrapCode::User(0), 0u8, 0i32, 0u32, 0u32));
    Some(v)
}

/// Legalize a `int_compare` instruction by narrowing, with its pattern number 9.
#[verifier::rlimit(100)]
fn narrow_int_compare_9(inst: Inst, pos: usize, d: InstData, func: &mut Function) -> (r: bool)
    requires
        pattern_input(old(func)@, inst, pos as int, d),
    ensures
        pattern_outcome(old(func)@, final(func)@, r, narrow_int_compare_9_spec(old(func)@, inst, pos as int, d)),
        final(func).encodings@ == old(func).encodings@,
        func_wf(final(func)@),
        r ==> final(func)@.0.len() > old(func)@.0.len(),
        keeps_before(old(func)@, final(func)@, inst, pos as int),
{
    proof {
        reveal(narrow_int_compare_9_spec);
    }
    let mut p = pos;
    let cond = d.cond;
    let x = d.arg0;
    let y = d.arg1;
    let (xl, xh, k) = func.split_value(p, x);
    p = p + k;
    let (yl, yh, k) = func.split_value(p, y);
    p = p + k;
    let ty49 = func.value_type(xh);
    let (b1, _r1) = func.ins(p, make_inst(Opcode::IntCompare, ty49, xh, yh, 0u32, 0i64, IntCC::UnsignedLessThan, TrapCode::User(0), 0u8, 0i32, 0u32, 0u32), None, None);
    p = p + 1;
    let ty50 = func.value_type(xh);
    let (b2, _r1) = func.ins(p, make_inst(Opcode::IntCompare, ty50, xh, yh, 0u32, 0i64, IntCC::UnsignedGreaterThan, TrapCode::User(0), 0u8, 0i32, 0u32, 0u32), None, None);
    p = p + 1;
    let ty51 = func.value_type(xl);
    let (b3, _r1) = func.ins(p, make_inst(Opcode::IntCompare, ty51, xl, yl, 0u32, 0i64, IntCC::UnsignedLessThanOrEqual, TrapCode::User(0), 0u8, 0i32, 0u32, 0u32), None, None);
    p = p + 1;
    let ty52 = func.value_type(b2);
    let (c1, _r1) = func.ins(p, make_inst(Opcode::Bnot, ty52, b2, 0u32, 0u32, 0i64, IntCC::Equal, TrapCode::User(0), 0u8, 0i32, 0u32, 0u32), None, None);
    p = p + 1;
    let ty53 = func.value_type(c1);
    let (c2, _r1) = func.ins(p, make_inst(Opcode::Band, ty53, c1, b3, 0u32, 0i64, IntCC::Equal, TrapCode::User(0), 0u8, 0i32, 0u32, 0u32), None, None);
    p = p + 1;
    let ty54 = func.value_type(b1);
    func.replace(inst, make_inst(Opcode::Bor, ty54, b1, c2, 0u32, 0i64, IntCC::Equal, TrapCode::User(0), 0u8, 0i32, 0u32, 0u32));
    return true;
}

/// The function after the narrowing of a `int_compare` instruction by its pattern number 10.
#[verifier::opaque]
pub open spec fn narrow_int_compare_10_spec(v: FuncView, inst: Inst, pos: int, d: InstData) -> Option<FuncView> {
    let p = pos;
    let cond = d.cond;
    let x = d.arg0;
    let y = d.arg1;
    let (new0, new1, newk) = s_split_results(v, x);
    let v = s_split(v, p, x);
    let (xl, xh) = (new0, new1);
    let p = p + newk;
    let (new0, new1, newk) = s_split_results(v, y);
    let v = s_split(v, p, y);
    let (yl, yh) = (new0, new1);
    let p = p + newk;
    let (new0, new1) = s_ins_results(v, inst_of(Opcode::IntCompare, value_type_of(v, xl), xl, yl, 0u32, 0i64, IntCC::Equal, TrapCode::User(0), 0u8, 0i32, 0u32, 0u32), None, None);
    let v = s_ins(v, p, inst_of(Opcode::IntCompare, value_type_of(v, xl), xl, yl, 0u32, 0i64, IntCC::Equal, TrapCode::User(0), 0u8, 0i32, 0u32, 0u32), None, None);
    let (b1, _r1) = (new0, new1);
    let p = p + 1;
    let (new0, new1) = s_ins_results(v, inst_of(Opcode::IntCompare, value_type_of(v, xh), xh, yh, 0u32, 0i64, IntCC::Equal, TrapCode::User(0), 0u8, 0i32, 0u32, 0u32), None, None);
    let v = s_ins(v, p, inst_of(Opcode::IntCompare, value_type_of(v, xh), xh, yh, 0u32, 0i64, IntCC::Equal, TrapCode::User(0), 0u8, 0i32, 0u32, 0u32), None, None);
    let (b2, _r1) = (new0, new1);
    let p = p + 1;
    let v = s_replace(v, inst, inst_of(Opcode::Band, value_type_of(v, b1), b1, b2, 0u32, 0i64, IntCC::Equal, TrapCode::User(0), 0u8, 0i32, 0u32, 0u32));
    Some(v)
}

/// Legalize a `int_compare` instruction by narrowing, with its pattern number 10.
#[verifier::rlimit(100)]
fn narrow_int_compare_10(inst: Inst, pos: usize, d: InstData, func: &mut Function) -> (r: bool)
    requires
        pattern_input(old(func)@, inst, pos as int, d),
    ensures
        pattern_outcome(old(func)@, final(func)@, r, narrow_int_compare_10_spec(old(func)@, inst, pos as int, d)),
        final(func).encodings@ == old(func).encodings@,
        func_wf(final(func)@),
        r ==> final(func)@.0.len() > old(func)@.0.len(),
        keeps_before(old(func)@, final(func)@, inst, pos as int),
{
    proof {
        reveal(narrow_int_compare_10_spec);
    }
    let mut p = pos;
    let cond = d.cond;
    let x = d.arg0;
    let y = d.arg1;
    let (xl, xh, k) = func.split_value(p, x);
    p = p + k;
    let (yl, yh, k) = func.split_value(p, y);
    p = p + k;
    let ty55 = func.value_type(xl);
    let (b1, _r1) = func.ins(p, make_inst(Opcode::IntCompare, ty55, xl, yl, 0u32, 0i64, IntCC::Equal, TrapCode::User(0), 0u8, 0i32, 0u32, 0u32), None, None);
    p = p + 1;
    let ty56 = func.value_type(xh);
    let (b2, _r1) = func.ins(p, make_inst(Opcode::IntCompare, ty56, xh, yh, 0u32, 0i64, IntCC::Equal, TrapCode::User(0), 0u8, 0i32, 0u32, 0u32), None, None);
    p = p + 1;
    let ty57 = func.value_type(b1);
    func.replace(inst, make_inst(Opcode::Band, ty57, b1, b2, 0u32, 0i64, IntCC::Equal, TrapCode::User(0), 0u8, 0i32, 0u32, 0u32));
    return true;
}

/// The function after the narrowing of a `int_compare` instruction by its pattern number 11.
#[verifier::opaque]
pub open spec fn narrow_int_compare_11_spec(v: FuncView, inst: Inst, pos: int, d: InstData) -> Option<FuncView> {
    let p = pos;
    let cond = d.cond;
    let x = d.arg0;
    let y = d.arg1;
    let (new0, new1, newk) = s_split_results(v, x);
    let v = s_split(v, p, x);
    let (xl, xh) = (new0, new1);
    let p = p + newk;
    let (new0, new1, newk) = s_split_results(v, y);
    let v = s_split(v, p, y);
    let (yl, yh) = (new0, new1);
    let p = p + newk;
    let (new0, new1) = s_ins_results(v, inst_of(Opcode::IntCompare, value_type_of(v, xl), xl, yl, 0u32, 0i64, IntCC::NotEqual, TrapCode::User(0), 0u8, 0i32, 0u32, 0u32), None, None);
    let v = s_ins(v, p, inst_of(Opcode::IntCompare, value_type_of(v, xl), xl, yl, 0u32, 0i64, IntCC::NotEqual, TrapCode::User(0), 0u8, 0i32, 0u32, 0u32), None, None);
    let (b1, _r1) = (new0, new1);
    let p = p + 1;
    let (new0, new1) = s_ins_results(v, inst_of(Opcode::IntCompare, value_type_of(v, xh), xh, yh, 0u32, 0i64, IntCC::NotEqual, TrapCode::User(0), 0u8, 0i32, 0u32, 0u32), None, None);
    let v = s_ins(v, p, inst_of(Opcode::IntCompare, value_type_of(v, xh), xh, yh, 0u32, 0i64, IntCC::NotEqual, TrapCode::User(0), 0u8, 0i32, 0u32, 0u32), None, None);
    let (b2, _r1) = (new0, new1);
    let p = p + 1;
    let v = s_replace(v, inst, inst_of(Opcode::Bor, value_type_of(v, b1), b1, b2, 0u32, 0i64, IntCC::Equal, TrapCode::User(0), 0u8, 0i32, 0u32, 0u32));
    Some(v)
}

/// Legalize a `int_compare` instruction by narrowing, with its pattern number 11.
#[verifier::rlimit(100)]
fn narrow_int_compare_11(inst: Inst, pos: usize, d: InstData, func: &mut Function) -> (r: bool)
    requires
        pattern_input(old(func)@, inst, pos as int, d),
    ensures
        pattern_outcome(old(func)@, final(func)@, r, narrow_int_compare_11_spec(old(func)@, inst, pos as int, d)),
        final(func).encodings@ == old(func).encodings@,
        func_wf(final(func)@),
        r ==> final(func)@.0.len() > old(func)@.0.len(),
        keeps_before(old(func)@, final(func)@, inst, pos as int),
{
    proof {
        reveal(narrow_int_compare_11_spec);
    }
    let mut p = pos;
    let cond = d.cond;
    let x = d.arg0;
    let y = d.arg1;
    let (xl, xh, k) = func.split_value(p, x);
    p = p + k;
    let (yl, yh, k) = func.split_value(p, y);
    p = p + k;
    let ty58 = func.value_type(xl);
    let (b1, _r1) = func.ins(p, make_inst(Opcode::IntCompare, ty58, xl, yl, 0u32, 0i64, IntCC::NotEqual, TrapCode::User(0), 0u8, 0i32, 0u32, 0u32), None, None);
    p = p + 1;
    let ty59 = func.value_type(xh);
    let (b2, _r1) = func.ins(p, make_inst(Opcode::IntCompare, ty59, xh, yh, 0u32, 0i64, IntCC::NotEqual, TrapCode::User(0), 0u8, 0i32, 0u32, 0u32), None, None);
    p = p + 1;
    let ty60 = func.value_type(b1);
    func.replace(inst, make_inst(Opcode::Bor, ty60, b1, b2, 0u32, 0i64, IntCC::Equal, TrapCode::User(0), 0u8, 0i32, 0u32, 0u32));
    return true;
}

/// The function after the narrowing of a `int_compare` instruction by its pattern number 12.
#[verifier::opaque]
pub open spec fn narrow_int_compare_12_spec(v: FuncView, inst: Inst, pos: int, d: InstData) -> Option<FuncView> {
    let p = pos;
    let cond = d.cond;
    let x = d.arg0;
    let y = d.arg1;
    let (new0, new1, newk) = s_split_results(v, x);
    let v = s_split(v, p, x);
    let (xl, xh) = (new0, new1);
    let p = p + newk;
    let (new0, new1, newk) = s_split_results(v, y);
    let v = s_split(v, p, y);
    let (yl, yh) = (new0, new1);
    let p = p + newk;
    let (new0, new1) = s_ins_results(v, inst_of(Opcode::IntCompare, value_type_of(v, xh), xh, yh, 0u32, 0i64, IntCC::SignedGreaterThan, TrapCode::User(0), 0u8, 0i32, 0u32, 0u32), None, None);
    let v = s_ins(v, p, inst_of(Opcode::IntCompare, value_type_of(v, xh), xh, yh, 0u32, 0i64, IntCC::SignedGreaterThan, TrapCode::User(0), 0u8, 0i32, 0u32, 0u32), None, None);
    let (b1, _r1) = (new0, new1);
    let p = p + 1;
    let (new0, new1) = s_ins_results(v, inst_of(Opcode::IntCompare, value_type_of(v, xh), xh, yh, 0u32, 0i64, IntCC::SignedLessThan, TrapCode::User(0), 0u8, 0i32, 0u32, 0u32), None, None);
    let v = s_ins(v, p, inst_of(Opcode::IntCompare, value_type_of(v, xh), xh, yh, 0u32, 0i64, IntCC::SignedLessThan, TrapCode::User(0), 0u8, 0i32, 0u32, 0u32), None, None);
    let (b2, _r1) = (new0, new1);
    let p = p + 1;
    let (new0, new1) = s_ins_results(v, inst_of(Opcode::IntCompare, value_type_of(v, xl), xl, yl, 0u32, 0i64, IntCC::UnsignedGreaterThan, TrapCode::User(0), 0u8, 0i32, 0u32, 0u32), None, None);
    let v = s_ins(v, p, inst_of(Opcode::IntCompare, value_type_of(v, xl), xl, yl, 0u32, 0i64, IntCC::UnsignedGreaterThan, TrapCode::User(0), 0u8, 0i32, 0u32, 0u32), None, None);
    let (b3, _r1) = (new0, new1);
    let p = p + 1;
    let (new0, new1) = s_ins_results(v, inst_of(Opcode::Bnot, value_type_of(v, b2), b2, 0u32, 0u32, 0i64, IntCC::Equal, TrapCode::User(0), 0u8, 0i32, 0u32, 0u32), None, None);
    let v = s_ins(v, p, inst_of(Opcode::Bnot, value_type_of(v, b2), b2, 0u32, 0u32, 0i64, IntCC::Equal, TrapCode::User(0), 0u8, 0i32, 0u32, 0u32), None, None);
    let (c1, _r1) = (new0, new1);
    let p = p + 1;
    let (new0, new1) = s_ins_results(v, inst_of(Opcode::Band, value_type_of(v, c1), c1, b3, 0u32, 0i64, IntCC::Equal, TrapCode::User(0), 0u8, 0i32, 0u32, 0u32), None, None);
    let v = s_ins(v, p, inst_of(Opcode::Band, value_type_of(v, c1), c1, b3, 0u32, 0i64, IntCC::Equal, TrapCode::User(0), 0u8, 0i32, 0u32, 0u32), None, None);
    let (c2, _r1) = (new0, new1);
    let p = p + 1;
    let v = s_replace(v, inst, inst_of(Opcode::Bor, value_type_of(v, b1), b1, c2, 0u32, 0i64, IntCC::Equal, TrapCode::User(0), 0u8, 0i32, 0u32, 0u32));
    Some(v)
}

/// Legalize a `int_compare` instruction by narrowing, with its pattern number 12.
#[verifier::rlimit(100)]
fn narrow_int_compare_12(inst: Inst, pos: usize, d: InstData, func: &mut Function) -> (r: bool)
    requires
        pattern_input(old(func)@, inst, pos as int, d),
    ensures
        pattern_outcome(old(func)@, final(func)@, r, narrow_int_compare_12_spec(old(func)@, inst, pos as int, d)),
        final(func).encodings@ == old(func).encodings@,
        func_wf(final(func)@),
        r ==> final(func)@.0.len() > old(func)@.0.len(),
        keeps_before(old(func)@, final(func)@, inst, pos as int),
{
    proof {
        reveal(narrow_int_compare_12_spec);
    }
    let mut p = pos;
    let cond = d.cond;
    let x = d.arg0;
    let y = d.arg1;
    let (xl, xh, k) = func.split_value(p, x);
    p = p + k;
    let (yl, yh, k) = func.split_value(p, y);
    p = p + k;
    let ty61 = func.value_type(xh);
    let (b1, _r1) = func.ins(p, make_inst(Opcode::IntCompare, ty61, xh, yh, 0u32, 0i64, IntCC::SignedGreaterThan, TrapCode::User(0), 0u8, 0i32, 0u32, 0u32), None, None);
    p = p + 1;
    let ty62 = func.value_type(xh);
    let (b2, _r1) = func.ins(p, make_inst(Opcode::IntCompare, ty62, xh, yh, 0u32, 0i64, IntCC::SignedLessThan, TrapCode::User(0), 0u8, 0i32, 0u32, 0u32), None, None);
    p = p + 1;
    let ty63 = func.value_type(xl);
    let (b3, _r1) = func.ins(p, make_inst(Opcode::IntCompare, ty63, xl, yl, 0u32, 0i64, IntCC::UnsignedGreaterThan, TrapCode::User(0), 0u8, 0i32, 0u32, 0u32), None, None);
    p = p + 1;
    let ty64 = func.value_type(b2);
    let (c1, _r1) = func.ins(p, make_inst(Opcode::Bnot, ty64, b2, 0u32, 0u32, 0i64, IntCC::Equal, TrapCode::User(0), 0u8, 0i32, 0u32, 0u32), None, None);
    p = p + 1;
    let ty65 = func.value_type(c1);
    let (c2, _r1) = func.ins(p, make_inst(Opcode::Band, ty65, c1, b3, 0u32, 0i64, IntCC::Equal, TrapCode::User(0), 0u8, 0i32, 0u32, 0u32), None, None);
    p = p + 1;
    let ty66 = func.value_type(b1);
    func.replace(inst, make_inst(Opcode::Bor, ty66, b1, c2, 0u32, 0i64, IntCC::Equal, TrapCode::User(0), 0u8, 0i32, 0u32, 0u32));
    return true;
}

/// The function after the narrowing of a `int_compare` instruction by its pattern number 13.
#[verifier::opaque]
pub open spec fn narrow_int_compare_13_spec(v: FuncView, inst: Inst, pos: int, d: InstData) -> Option<FuncView> {
    let p = pos;
    let cond = d.cond;
    let x = d.arg0;
    let y = d.arg1;
    let (new0, new1, newk) = s_split_results(v, x);
    let v = s_split(v, p, x);
    let (xl, xh) = (new0, new1);
    let p = p + newk;
    let (new0, new1, newk) = s_split_results(v, y);
    let v = s_split(v, p, y);
    let (yl, yh) = (new0, new1);
    let p = p + newk;
    let (new0, new1) = s_ins_results(v, inst_of(Opcode::IntCompare, value_type_of(v, xh), xh, yh, 0u32, 0i64, IntCC::SignedGreaterThan, TrapCode::User(0), 0u8, 0i32, 0u32, 0u32), None, None);
    let v = s_ins(v, p, inst_of(Opcode::IntCompare, value_type_of(v, xh), xh, yh, 0u32, 0i64, IntCC::SignedGreaterThan, TrapCode::User(0), 0u8, 0i32, 0u32, 0u32), None, None);
    let (b1, _r1) = (new0, new1);
    let p = p + 1;
    let (new0, new1) = s_ins_results(v, inst_of(Opcode::IntCompare, value_type_of(v, xh), xh, yh, 0u32, 0i64, IntCC::SignedLessThan, TrapCode::User(0), 0u8, 0i32, 0u32, 0u32), None, None);
    let v = s_ins(v, p, inst_of(Opcode::IntCompare, value_type_of(v, xh), xh, yh, 0u32, 0i64, IntCC::SignedLessThan, TrapCode::User(0), 0u8, 0i32, 0u32, 0u32), None, None);
    let (b2, _r1) = (new0, new1);
    let p = p + 1;
    let (new0, new1) = s_ins_results(v, inst_of(Opcode::IntCompare, value_type_of(v, xl), xl, yl, 0u32, 0i64, IntCC::UnsignedGreaterThanOrEqual, TrapCode::User(0), 0u8, 0i32, 0u32, 0u32), None, None);
    let v = s_ins(v, p, inst_of(Opcode::IntCompare, value_type_of(v, xl), xl, yl, 0u32, 0i64, IntCC::UnsignedGreaterThanOrEqual, TrapCode::User(0), 0u8, 0i32, 0u32, 0u32), None, None);
    let (b3, _r1) = (new0, new1);
    let p = p + 1;
    let (new0, new1) = s_ins_results(v, inst_of(Opcode::Bnot, value_type_of(v, b2), b2, 0u32, 0u32, 0i64, IntCC::Equal, TrapCode::User(0), 0u8, 0i32, 0u32, 0u32), None, None);
    let v = s_ins(v, p, inst_of(Opcode::Bnot, value_type_of(v, b2), b2, 0u32, 0u32, 0i64, IntCC::Equal, TrapCode::User(0), 0u8, 0i32, 0u32, 0u32), None, None);
    let (c1, _r1) = (new0, new1);
    let p = p + 1;
    let (new0, new1) = s_ins_results(v, inst_of(Opcode::Band, value_type_of(v, c1), c1, b3, 0u32, 0i64, IntCC::Equal, TrapCode::User(0), 0u8, 0i32, 0u32, 0u32), None, None);
    let v = s_ins(v, p, inst_of(Opcode::Band, value_type_of(v, c1), c1, b3, 0u32, 0i64, IntCC::Equal, TrapCode::User(0), 0u8, 0i32, 0u32, 0u32), None, None);
    let (c2, _r1) = (new0, new1);
    let p = p + 1;
    let v = s_replace(v, inst, inst_of(Opcode::Bor, value_type_of(v, b1), b1, c2, 0u32, 0i64, IntCC::Equal, TrapCode::User(0), 0u8, 0i32, 0u32, 0u32));
    Some(v)
}

/// Legalize a `int_compare` instruction by narrowing, with its pattern number 13.
#[verifier::rlimit(100)]
fn narrow_int_compare_13(inst: Inst, pos: usize, d: InstData, func: &mut Function) -> (r: bool)
    requires
        pattern_input(old(func)@, inst, pos as int, d),
    ensures
        pattern_outcome(old(func)@, final(func)@, r, narrow_int_compare_13_spec(old(func)@, inst, pos as int, d)),
        final(func).encodings@ == old(func).encodings@,
        func_wf(final(func)@),
        r ==> final(func)@.0.len() > old(func)@.0.len(),
        keeps_before(old(func)@, final(func)@, inst, pos as int),
{
    proof {
        reveal(narrow_int_compare_13_spec);
    }
    let mut p = pos;
    let cond = d.cond;
    let x = d.arg0;
    let y = d.arg1;
    let (xl, xh, k) = func.split_value(p, x);
    p = p + k;
    let (yl, yh, k) = func.split_value(p, y);
    p = p + k;
    let ty67 = func.value_type(xh);
    let (b1, _r1) = func.ins(p, make_inst(Opcode::IntCompare, ty67, xh, yh, 0u32, 0i64, IntCC::SignedGreaterThan, TrapCode::User(0), 0u8, 0i32, 0u32, 0u32), None, None);
    p = p + 1;
    let ty68 = func.value_type(xh);
    let (b2, _r1) = func.ins(p, make_inst(Opcode::IntCompare, ty68, xh, yh, 0u32, 0i64, IntCC::SignedLessThan, TrapCode::User(0), 0u8, 0i32, 0u32, 0u32), None, None);
    p = p + 1;
    let ty69 = func.value_type(xl);
    let (b3, _r1) = func.ins(p, make_inst(Opcode::IntCompare, ty69, xl, yl, 0u32, 0i64, IntCC::UnsignedGreaterThanOrEqual, TrapCode::User(0), 0u8, 0i32, 0u32, 0u32), None, None);
    p = p + 1;
    let ty70 = func.value_type(b2);
    let (c1, _r1) = func.ins(p, make_inst(Opcode::Bnot, ty70, b2, 0u32, 0u32, 0i64, IntCC::Equal, TrapCode::User(0), 0u8, 0i32, 0u32, 0u32), None, None);
    p = p + 1;
    let ty71 = func.value_type(c1);
    let (c2, _r1) = func.ins(p, make_inst(Opcode::Band, ty71, c1, b3, 0u32, 0i64, IntCC::Equal, TrapCode::User(0), 0u8, 0i32, 0u32, 0u32), None, None);
    p = p + 1;
    let ty72 = func.value_type(b1);
    func.replace(inst, make_inst(Opcode::Bor, ty72, b1, c2, 0u32, 0i64, IntCC::Equal, TrapCode::User(0), 0u8, 0i32, 0u32, 0u32));
    return true;
}

/// The function after the narrowing of a `int_compare` instruction by its pattern number 14.
#[verifier::opaque]
pub open spec fn narrow_int_compare_14_spec(v: FuncView, inst: Inst, pos: int, d: InstData) -> Option<FuncView> {
    let p = pos;
    let cond = d.cond;
    let x = d.arg0;
    let y = d.arg1;
    let (new0, new1, newk) = s_split_results(v, x);
    let v = s_split(v, p, x);
    let (xl, xh) = (new0, new1);
    let p = p + newk;
    let (new0, new1, newk) = s_split_results(v, y);
    let v = s_split(v, p, y);
    let (yl, yh) = (new0, new1);
    let p = p + newk;
    let (new0, new1) = s_ins_results(v, inst_of(Opcode::IntCompare, value_type_of(v, xh), xh, yh, 0u32, 0i64, IntCC::SignedLessThan, TrapCode::User(0), 0u8, 0i32, 0u32, 0u32), None, None);
    let v = s_ins(v, p, inst_of(Opcode::IntCompare, value_type_of(v, xh), xh, yh, 0u32, 0i64, IntCC::SignedLessThan, TrapCode::User(0), 0u8, 0i32, 0u32, 0u32), None, None);
    let (b1, _r1) = (new0, new1);
    let p = p + 1;
    let (new0, new1) = s_ins_results(v, inst_of(Opcode::IntCompare, value_type_of(v, xh), xh, yh, 0u32, 0i64, IntCC::SignedGreaterThan, TrapCode::User(0), 0u8, 0i32, 0u32, 0u32), None, None);
    let v = s_ins(v, p, inst_of(Opcode::IntCompare, value_type_of(v, xh), xh, yh, 0u32, 0i64, IntCC::SignedGreaterThan, TrapCode::User(0), 0u8, 0i32, 0u32, 0u32), None, None);
    let (b2, _r1) = (new0, new1);
    let p = p + 1;
    let (new0, new1) = s_ins_results(v, inst_of(Opcode::IntCompare, value_type_of(v, xl), xl, yl, 0u32, 0i64, IntCC::UnsignedLessThan, TrapCode::User(0), 0u8, 0i32, 0u32, 0u32), None, None);
    let v = s_ins(v, p, inst_of(Opcode::IntCompare, value_type_of(v, xl), xl, yl, 0u32, 0i64, IntCC::UnsignedLessThan, TrapCode::User(0), 0u8, 0i32, 0u32, 0u32), None, None);
    let (b3, _r1) = (new0, new1);
    let p = p + 1;
    let (new0, new1) = s_ins_results(v, inst_of(Opcode::Bnot, value_type_of(v, b2), b2, 0u32, 0u32, 0i64, IntCC::Equal, TrapCode::User(0), 0u8, 0i32, 0u32, 0u32), None, None);
    let v = s_ins(v, p, inst_of(Opcode::Bnot, value_type_of(v, b2), b2, 0u32, 0u32, 0i64, IntCC::Equal, TrapCode::User(0), 0u8, 0i32, 0u32, 0u32), None, None);
    let (c1, _r1) = (new0, new1);
    let p = p + 1;
    let (new0, new1) = s_ins_results(v, inst_of(Opcode::Band, value_type_of(v, c1), c1, b3, 0u32, 0i64, IntCC::Equal, TrapCode::User(0), 0u8, 0i32, 0u32, 0u32), None, None);
    let v = s_ins(v, p, inst_of(Opcode::Band, value_type_of(v, c1), c1, b3, 0u32, 0i64, IntCC::Equal, TrapCode::User(0), 0u8, 0i32, 0u32, 0u32), None, None);
    let (c2, _r1) = (new0, new1);
    let p = p + 1;
    let v = s_replace(v, inst, inst_of(Opcode::Bor, value_type_of(v, b1), b1, c2, 0u32, 0i64, IntCC::Equal, TrapCode::User(0), 0u8, 0i32, 0u32, 0u32));
    Some(v)
}

/// Legalize a `int_compare` instruction by narrowing, with its pattern number 14.
#[verifier::rlimit(100)]
fn narrow_int_compare_14(inst: Inst, pos: usize, d: InstData, func: &mut Function) -> (r: bool)
    requires
        pattern_input(old(func)@, inst, pos as int, d),
    ensures
        pattern_outcome(old(func)@, final(func)@, r, narrow_int_compare_14_spec(old(func)@, inst, pos as int, d)),
        final(func).encodings@ == old(func).encodings@,
        func_wf(final(func)@),
        r ==> final(func)@.0.len() > old(func)@.0.len(),
        keeps_before(old(func)@, final(func)@, inst, pos as int),
{
    proof {
        reveal(narrow_int_compare_14_spec);
    }
    let mut p = pos;
    let cond = d.cond;
    let x = d.arg0;
    let y = d.arg1;
    let (xl, xh, k) = func.split_value(p, x);
    p = p + k;
    let (yl, yh, k) = func.split_value(p, y);
    p = p + k;
    let ty73 = func.value_type(xh);
    let (b1, _r1) = func.ins(p, make_inst(Opcode::IntCompare, ty73, xh, yh, 0u32, 0i64, IntCC::SignedLessThan, TrapCode::User(0), 0u8, 0i32, 0u32, 0u32), None, None);
    p = p + 1;
    let ty74 = func.value_type(xh);
    let (b2, _r1) = func.ins(p, make_inst(Opcode::IntCompare, ty74, xh, yh, 0u32, 0i64, IntCC::SignedGreaterThan, TrapCode::User(0), 0u8, 0i32, 0u32, 0u32), None, None);
    p = p + 1;
    let ty75 = func.value_type(xl);
    let (b3, _r1) = func.ins(p, make_inst(Opcode::IntCompare, ty75, xl, yl, 0u32, 0i64, IntCC::UnsignedLessThan, TrapCode::User(0), 0u8, 0i32, 0u32, 0u32), None, None);
    p = p + 1;
    let ty76 = func.value_type(b2);
    let (c1, _r1) = func.ins(p, make_inst(Opcode::Bnot, ty76, b2, 0u32, 0u32, 0i64, IntCC::Equal, TrapCode::User(0), 0u8, 0i32, 0u32, 0u32), None, None);
    p = p + 1;
    let ty77 = func.value_type(c1);
    let (c2, _r1) = func.ins(p, make_inst(Opcode::Band, ty77, c1, b3, 0u32, 0i64, IntCC::Equal, TrapCode::User(0), 0u8, 0i32, 0u32, 0u32), None, None);
    p = p + 1;
    let ty78 = func.value_type(b1);
    func.replace(inst, make_inst(Opcode::Bor, ty78, b1, c2, 0u32, 0i64, IntCC::Equal, TrapCode::User(0), 0u8, 0i32, 0u32, 0u32));
    return true;
}

/// The function after the narrowing of a `int_compare` instruction by its pattern number 15.
#[verifier::opaque]
pub open spec fn narrow_int_compare_15_spec(v: FuncView, inst: Inst, pos: int, d: InstData) -> Option<FuncView> {
    let p = pos;
    let cond = d.cond;
    let x = d.arg0;
    let y = d.arg1;
    let (new0, new1, newk) = s_split_results(v, x);
    let v = s_split(v, p, x);
    let (xl, xh) = (new0, new1);
    let p = p + newk;
    let (new0, new1, newk) = s_split_results(v, y);
    let v = s_split(v, p, y);
    let (yl, yh) = (new0, new1);
    let p = p + newk;
    let (new0, new1) = s_ins_results(v, inst_of(Opcode::IntCompare, value_type_of(v, xh), xh, yh, 0u32, 0i64, IntCC::SignedLessThan, TrapCode::User(0), 0u8, 0i32, 0u32, 0u32), None, None);
    let v = s_ins(v, p, inst_of(Opcode::IntCompare, value_type_of(v, xh), xh, yh, 0u32, 0i64, IntCC::SignedLessThan, TrapCode::User(0), 0u8, 0i32, 0u32, 0u32), None, None);
    let (b1, _r1) = (new0, new1);
    let p = p + 1;
    let (new0, new1) = s_ins_results(v, inst_of(Opcode::IntCompare, value_type_of(v, xh), xh, yh, 0u32, 0i64, IntCC::SignedGreaterThan, TrapCode::User(0), 0u8, 0i32, 0u32, 0u32), None, None);
    let v = s_ins(v, p, inst_of(Opcode::IntCompare, value_type_of(v, xh), xh, yh, 0u32, 0i64, IntCC::SignedGreaterThan, TrapCode::User(0), 0u8, 0i32, 0u32, 0u32), None, None);
    let (b2, _r1) = (new0, new1);
    let p = p + 1;
    let (new0, new1) = s_ins_results(v, inst_of(Opcode::IntCompare, value_type_of(v, xl), xl, yl, 0u32, 0i64, IntCC::UnsignedLessThanOrEqual, TrapCode::User(0), 0u8, 0i32, 0u32, 0u32), None, None);
    let v = s_ins(v, p, inst_of(Opcode::IntCompare, value_type_of(v, xl), xl, yl, 0u32, 0i64, IntCC::UnsignedLessThanOrEqual, TrapCode::User(0), 0u8, 0i32, 0u32, 0u32), None, None);
    let (b3, _r1) = (new0, new1);
    let p = p + 1;
    let (new0, new1) = s_ins_results(v, inst_of(Opcode::Bnot, value_type_of(v, b2), b2, 0u32, 0u32, 0i64, IntCC::Equal, TrapCode::User(0), 0u8, 0i32, 0u32, 0u32), None, None);
    let v = s_ins(v, p, inst_of(Opcode::Bnot, value_type_of(v, b2), b2, 0u32, 0u32, 0i64, IntCC::Equal, TrapCode::User(0), 0u8, 0i32, 0u32, 0u32), None, None);
    let (c1, _r1) = (new0, new1);
    let p = p + 1;
    let (new0, new1) = s_ins_results(v, inst_of(Opcode::Band, value_type_of(v, c1), c1, b3, 0u32, 0i64, IntCC::Equal, TrapCode::User(0), 0u8, 0i32, 0u32, 0u32), None, None);
    let v = s_ins(v, p, inst_of(Opcode::Band, value_type_of(v, c1), c1, b3, 0u32, 0i64, IntCC::Equal, TrapCode::User(0), 0u8, 0i32, 0u32, 0u32), None, None);
    let (c2, _r1) = (new0, new1);
    let p = p + 1;
    let v = s_replace(v, inst, inst_of(Opcode::Bor, value_type_of(v, b1), b1, c2, 0u32, 0i64, IntCC::Equal, TrapCode::User(0), 0u8, 0i32, 0u32, 0u32));
    Some(v)
}

/// Legalize a `int_compare` instruction by narrowing, with its pattern number 15.
#[verifier::rlimit(100)]
fn narrow_int_compare_15(inst: Inst, pos: usize, d: InstData, func: &mut Function) -> (r: bool)
    requires
        pattern_input(old(func)@, inst, pos as int, d),
    ensures
        pattern_outcome(old(func)@, final(func)@, r, narrow_int_compare_15_spec(old(func)@, inst, pos as int, d)),
        final(func).encodings@ == old(func).encodings@,
        func_wf(final(func)@),
        r ==> final(func)@.0.len() > old(func)@.0.len(),
        keeps_before(old(func)@, final(func)@, inst, pos as int),
{
    proof {
        reveal(narrow_int_compare_15_spec);
    }
    let mut p = pos;
    let cond = d.cond;
    let x = d.arg0;
    let y = d.arg1;
    let (xl, xh, k) = func.split_value(p, x);
    p = p + k;
    let (yl, yh, k) = func.split_value(p, y);
    p = p + k;
    let ty79 = func.value_type(xh);
    let (b1, _r1) = func.ins(p, make_inst(Opcode::IntCompare, ty79, xh, yh, 0u32, 0i64, IntCC::SignedLessThan, TrapCode::User(0), 0u8, 0i32, 0u32, 0u32), None, None);
    p = p + 1;
    let ty80 = func.value_type(xh);
    let (b2, _r1) = func.ins(p, make_inst(Opcode::IntCompare, ty80, xh, yh, 0u32, 0i64, IntCC::SignedGreaterThan, TrapCode::User(0), 0u8, 0i32, 0u32, 0u32), None, None);
    p = p + 1;
    let ty81 = func.value_type(xl);
    let (b3, _r1) = func.ins(p, make_inst(Opcode::IntCompare, ty81, xl, yl, 0u32, 0i64, IntCC::UnsignedLessThanOrEqual, TrapCode::User(0), 0u8, 0i32, 0u32, 0u32), None, None);
    p = p + 1;
    let ty82 = func.value_type(b2);
    let (c1, _r1) = func.ins(p, make_inst(Opcode::Bnot, ty82, b2, 0u32, 0u32, 0i64, IntCC::Equal, TrapCode::User(0), 0u8, 0i32, 0u32, 0u32), None, None);
    p = p + 1;
    let ty83 = func.value_type(c1);
    let (c2, _r1) = func.ins(p, make_inst(Opcode::Band, ty83, c1, b3, 0u32, 0i64, IntCC::Equal, TrapCode::User(0), 0u8, 0i32, 0u32, 0u32), None, None);
    p = p + 1;
    let ty84 = func.value_type(b1);
    func.replace(inst, make_inst(Opcode::Bor, ty84, b1, c2, 0u32, 0i64, IntCC::Equal, TrapCode::User(0), 0u8, 0i32, 0u32, 0u32));
    return true;
}

/// The function after the narrowing of a `int_compare` instruction by its pattern number 16.
#[verifier::opaque]
pub open spec fn narrow_int_compare_16_spec(v: FuncView, inst: Inst, pos: int, d: InstData) -> Option<FuncView> {
    let p = pos;
    let cond = d.cond;
    let x = d.arg0;
    let y = d.arg1;
    let (new0, new1, newk) = s_split_results(v, x);
    let v = s_split(v, p, x);
    let (xl, xh) = (new0, new1);
    let p = p + newk;
    let (new0, new1, newk) = s_split_results(v, y);
    let v = s_split(v, p, y);
    let (yl, yh) = (new0, new1);
    let p = p + newk;
    let (new0, new1) = s_ins_results(v, inst_of(Opcode::IntCompare, value_type_of(v, xh), xh, yh, 0u32, 0i64, IntCC::UnsignedGreaterThan, TrapCode::User(0), 0u8, 0i32, 0u32, 0u32), None, None);
    let v = s_ins(v, p, inst_of(Opcode::IntCompare, value_type_of(v, xh), xh, yh, 0u32, 0i64, IntCC::UnsignedGreaterThan, TrapCode::User(0), 0u8, 0i32, 0u32, 0u32), None, None);
    let (b1, _r1) = (new0, new1);
    let p = p + 1;
    let (new0, new1) = s_ins_results(v, inst_of(Opcode::IntCompare, value_type_of(v, xh), xh, yh, 0u32, 0i64, IntCC::UnsignedLessThan, TrapCode::User(0), 0u8, 0i32, 0u32, 0u32), None, None);
    let v = s_ins(v, p, inst_of(Opcode::IntCompare, value_type_of(v, xh), xh, yh, 0u32, 0i64, IntCC::UnsignedLessThan, TrapCode::User(0), 0u8, 0i32, 0u32, 0u32), None, None);
    let (b2, _r1) = (new0, new1);
    let p = p + 1;
    let (new0, new1) = s_ins_results(v, inst_of(Opcode::IntCompare, value_type_of(v, xl), xl, yl, 0u32, 0i64, IntCC::UnsignedGreaterThan, TrapCode::User(0), 0u8, 0i32, 0u32, 0u32), None, None);
    let v = s_ins(v, p, inst_of(Opcode::IntCompare, value_type_of(v, xl), xl, yl, 0u32, 0i64, IntCC::UnsignedGreaterThan, TrapCode::User(0), 0u8, 0i32, 0u32, 0u32), None, None);
    let (b3, _r1) = (new0, new1);
    let p = p + 1;
    let (new0, new1) = s_ins_results(v, inst_of(Opcode::Bnot, value_type_of(v, b2), b2, 0u32, 0u32, 0i64, IntCC::Equal, TrapCode::User(0), 0u8, 0i32, 0u32, 0u32), None, None);
    let v = s_ins(v, p, inst_of(Opcode::Bnot, value_type_of(v, b2), b2, 0u32, 0u32, 0i64, IntCC::Equal, TrapCode::User(0), 0u8, 0i32, 0u32, 0u32), None, None);
    let (c1, _r1) = (new0, new1);
    let p = p + 1;
    let (new0, new1) = s_ins_results(v, inst_of(Opcode::Band, value_type_of(v, c1), c1, b3, 0u32, 0i64, IntCC::Equal, TrapCode::User(0), 0u8, 0i32, 0u32, 0u32), None, None);
    let v = s_ins(v, p, inst_of(Opcode::Band, value_type_of(v, c1), c1, b3, 0u32, 0i64, IntCC::Equal, TrapCode::User(0), 0u8, 0i32, 0u32, 0u32), None, None);
    let (c2, _r1) = (new0, new1);
    let p = p + 1;
    let v = s_replace(v, inst, inst_of(Opcode::Bor, value_type_of(v, b1), b1, c2, 0u32, 0i64, IntCC::Equal, TrapCode::User(0), 0u8, 0i32, 0u32, 0u32));
    Some(v)
}

/// Legalize a `int_compare` instruction by narrowing, with its pattern number 16.
#[verifier::rlimit(100)]
fn narrow_int_compare_16(inst: Inst, pos: usize, d: InstData, func: &mut Function) -> (r: bool)
    requires
        pattern_input(old(func)@, inst, pos as int, d),
    ensures
        pattern_outcome(old(func)@, final(func)@, r, narrow_int_compare_16_spec(old(func)@, inst, pos as int, d)),
        final(func).encodings@ == old(func).encodings@,
        func_wf(final(func)@),
        r ==> final(func)@.0.len() > old(func)@.0.len(),
        keeps_before(old(func)@, final(func)@, inst, pos as int),
{
    proof {
        reveal(narrow_int_compare_16_spec);
    }
    let mut p = pos;
    let cond = d.cond;
    let x = d.arg0;
    let y = d.arg1;
    let (xl, xh, k) = func.split_value(p, x);
    p = p + k;
    let (yl, yh, k) = func.split_value(p, y);
    p = p + k;
    let ty85 = func.value_type(xh);
    let (b1, _r1) = func.ins(p, make_inst(Opcode::IntCompare, ty85, xh, yh, 0u32, 0i64, IntCC::UnsignedGreaterThan, TrapCode::User(0), 0u8, 0i32, 0u32, 0u32), None, None);
    p = p + 1;
    let ty86 = func.value_type(xh);
    let (b2, _r1) = func.ins(p, make_inst(Opcode::IntCompare, ty86, xh, yh, 0u32, 0i64, IntCC::UnsignedLessThan, TrapCode::User(0), 0u8, 0i32, 0u32, 0u32), None, None);
    p = p + 1;
    let ty87 = func.value_type(xl);
    let (b3, _r1) = func.ins(p, make_inst(Opcode::IntCompare, ty87, xl, yl, 0u32, 0i64, IntCC::UnsignedGreaterThan, TrapCode::User(0), 0u8, 0i32, 0u32, 0u32), None, None);
    p = p + 1;
    let ty88 = func.value_type(b2);
    let (c1, _r1) = func.ins(p, make_inst(Opcode::Bnot, ty88, b2, 0u32, 0u32, 0i64, IntCC::Equal, TrapCode::User(0), 0u8, 0i32, 0u32, 0u32), None, None);
    p = p + 1;
    let ty89 = func.value_type(c1);
    let (c2, _r1) = func.ins(p, make_inst(Opcode::Band, ty89, c1, b3, 0u32, 0i64, IntCC::Equal, TrapCode::User(0), 0u8, 0i32, 0u32, 0u32), None, None);
    p = p + 1;
    let ty90 = func.value_type(b1);
    func.replace(inst, make_inst(Opcode::Bor, ty90, b1, c2, 0u32, 0i64, IntCC::Equal, TrapCode::User(0), 0u8, 0i32, 0u32, 0u32));
    return true;
}

/// The function after the narrowing of a `int_compare` instruction by its pattern number 17.
#[verifier::opaque]
pub open spec fn narrow_int_compare_17_spec(v: FuncView, inst: Inst, pos: int, d: InstData) -> Option<FuncView> {
    let p = pos;
    let cond = d.cond;
    let x = d.arg0;
    let y = d.arg1;
    let (new0, new1, newk) = s_split_results(v, x);
    let v = s_split(v, p, x);
    let (xl, xh) = (new0, new1);
    let p = p + newk;
    let (new0, new1, newk) = s_split_results(v, y);
    let v = s_split(v, p, y);
    let (yl, yh) = (new0, new1);
    let p = p + newk;
    let (new0, new1) = s_ins_results(v, inst_of(Opcode::IntCompare, value_type_of(v, xh), xh, yh, 0u32, 0i64, IntCC::UnsignedGreaterThan, TrapCode::User(0), 0u8, 0i32, 0u32, 0u32), None, None);
    let v = s_ins(v, p, inst_of(Opcode::IntCompare, value_type_of(v, xh), xh, yh, 0u32, 0i64, IntCC::UnsignedGreaterThan, TrapCode::User(0), 0u8, 0i32, 0u32, 0u32), None, None);
    let (b1, _r1) = (new0, new1);
    let p = p + 1;
    let (new0, new1) = s_ins_results(v, inst_of(Opcode::IntCompare, value_type_of(v, xh), xh, yh, 0u32, 0i64, IntCC::UnsignedLessThan, TrapCode::User(0), 0u8, 0i32, 0u32, 0u32), None, None);
    let v = s_ins(v, p, inst_of(Opcode::IntCompare, value_type_of(v, xh), xh, yh, 0u32, 0i64, IntCC::UnsignedLessThan, TrapCode::User(0), 0u8, 0i32, 0u32, 0u32), None, None);
    let (b2, _r1) = (new0, new1);
    let p = p + 1;
    let (new0, new1) = s_ins_results(v, inst_of(Opcode::IntCompare, value_type_of(v, xl), xl, yl, 0u32, 0i64, IntCC::UnsignedGreaterThanOrEqual, TrapCode::User(0), 0u8, 0i32, 0u32, 0u32), None, None);
    let v = s_ins(v, p, inst_of(Opcode::IntCompare, value_type_of(v, xl), xl, yl, 0u32, 0i64, IntCC::UnsignedGreaterThanOrEqual, TrapCode::User(0), 0u8, 0i32, 0u32, 0u32), None, None);
    let (b3, _r1) = (new0, new1);
    let p = p + 1;
    let (new0, new1) = s_ins_results(v, inst_of(Opcode::Bnot, value_type_of(v, b2), b2, 0u32, 0u32, 0i64, IntCC::Equal, TrapCode::User(0), 0u8, 0i32, 0u32, 0u32), None, None);
    let v = s_ins(v, p, inst_of(Opcode::Bnot, value_type_of(v, b2), b2, 0u32, 0u32, 0i64, IntCC::Equal, TrapCode::User(0), 0u8, 0i32, 0u32, 0u32), None, None);
    let (c1, _r1) = (new0, new1);
    let p = p + 1;
    let (new0, new1) = s_ins_results(v, inst_of(Opcode::Band, value_type_of(v, c1), c1, b3, 0u32, 0i64, IntCC::Equal, TrapCode::User(0), 0u8, 0i32, 0u32, 0u32), None, None);
    let v = s_ins(v, p, inst_of(Opcode::Band, value_type_of(v, c1), c1, b3, 0u32, 0i64, IntCC::Equal, TrapCode::User(0), 0u8, 0i32, 0u32, 0u32), None, None);
    let (c2, _r1) = (new0, new1);
    let p = p + 1;
    let v = s_replace(v, inst, inst_of(Opcode::Bor, value_type_of(v, b1), b1, c2, 0u32, 0i64, IntCC::Equal, TrapCode::User(0), 0u8, 0i32, 0u32, 0u32));
    Some(v)
}

/// Legalize a `int_compare` instruction by narrowing, with its pattern number 17.
#[verifier::rlimit(100)]
fn narrow_int_compare_17(inst: Inst, pos: usize, d: InstData, func: &mut Function) -> (r: bool)
    requires
        pattern_input(old(func)@, inst, pos as int, d),
    ensures
        pattern_outcome(old(func)@, final(func)@, r, narrow_int_compare_17_spec(old(func)@, inst, pos as int, d)),
        final(func).encodings@ == old(func).encodings@,
        func_wf(final(func)@),
        r ==> final(func)@.0.len() > old(func)@.0.len(),
        keeps_before(old(func)@, final(func)@, inst, pos as int),
{
    proof {
        reveal(narrow_int_compare_17_spec);
    }
    let mut p = pos;
    let cond = d.cond;
    let x = d.arg0;
    let y = d.arg1;
    let (xl, xh, k) = func.split_value(p, x);
    p = p + k;
    let (yl, yh, k) = func.split_value(p, y);
    p = p + k;
    let ty91 = func.value_type(xh);
    let (b1, _r1) = func.ins(p, make_inst(Opcode::IntCompare, ty91, xh, yh, 0u32, 0i64, IntCC::UnsignedGreaterThan, TrapCode::User(0), 0u8, 0i32, 0u32, 0u32), None, None);
    p = p + 1;
    let ty92 = func.value_type(xh);
    let (b2, _r1) = func.ins(p, make_inst(Opcode::IntCompare, ty92, xh, yh, 0u32, 0i64, IntCC::UnsignedLessThan, TrapCode::User(0), 0u8, 0i32, 0u32, 0u32), None, None);
    p = p + 1;
    let ty93 = func.value_type(xl);
    let (b3, _r1) = func.ins(p, make_inst(Opcode::IntCompare, ty93, xl, yl, 0u32, 0i64, IntCC::UnsignedGreaterThanOrEqual, TrapCode::User(0), 0u8, 0i32, 0u32, 0u32), None, None);
    p = p + 1;
    let ty94 = func.value_type(b2);
    let (c1, _r1) = func.ins(p, make_inst(Opcode::Bnot, ty94, b2, 0u32, 0u32, 0i64, IntCC::Equal, TrapCode::User(0), 0u8, 0i32, 0u32, 0u32), None, None);
    p = p + 1;
    let ty95 = func.value_type(c1);
    let (c2, _r1) = func.ins(p, make_inst(Opcode::Band, ty95, c1, b3, 0u32, 0i64, IntCC::Equal, TrapCode::User(0), 0u8, 0i32, 0u32, 0u32), None, None);
    p = p + 1;
    let ty96 = func.value_type(b1);
    func.replace(inst, make_inst(Opcode::Bor, ty96, b1, c2, 0u32, 0i64, IntCC::Equal, TrapCode::User(0), 0u8, 0i32, 0u32, 0u32));
    return true;
}

/// The function after the narrowing of a `int_compare` instruction by its pattern number 18.
#[verifier::opaque]
pub open spec fn narrow_int_compare_18_spec(v: FuncView, inst: Inst, pos: int, d: InstData) -> Option<FuncView> {
    let p = pos;
    let cond = d.cond;
    let x = d.arg0;
    let y = d.arg1;
    let (new0, new1, newk) = s_split_results(v, x);
    let v = s_split(v, p, x);
    let (xl, xh) = (new0, new1);
    let p = p + newk;
    let (new0, new1, newk) = s_split_results(v, y);
    let v = s_split(v, p, y);
    let (yl, yh) = (new0, new1);
    let p = p + newk;
    let (new0, new1) = s_ins_results(v, inst_of(Opcode::IntCompare, value_type_of(v, xh), xh, yh, 0u32, 0i64, IntCC::UnsignedLessThan, TrapCode::User(0), 0u8, 0i32, 0u32, 0u32), None, None);
    let v = s_ins(v, p, inst_of(Opcode::IntCompare, value_type_of(v, xh), xh, yh, 0u32, 0i64, IntCC::UnsignedLessThan, TrapCode::User(0), 0u8, 0i32, 0u32, 0u32), None, None);
    let (b1, _r1) = (new0, new1);
    let p = p + 1;
    let (new0, new1) = s_ins_results(v, inst_of(Opcode::IntCompare, value_type_of(v, xh), xh, yh, 0u32, 0i64, IntCC::UnsignedGreaterThan, TrapCode::User(0), 0u8, 0i32, 0u32, 0u32), None, None);
    let v = s_ins(v, p, inst_of(Opcode::IntCompare, value_type_of(v, xh), xh, yh, 0u32, 0i64, IntCC::UnsignedGreaterThan, TrapCode::User(0), 0u8, 0i32, 0u32, 0u32), None, None);
    let (b2, _r1) = (new0, new1);
    let p = p + 1;
    let (new0, new1) = s_ins_results(v, inst_of(Opcode::IntCompare, value_type_of(v, xl), xl, yl, 0u32, 0i64, IntCC::UnsignedLessThan, TrapCode::User(0), 0u8, 0i32, 0u32, 0u32), None, None);
    let v = s_ins(v, p, inst_of(Opcode::IntCompare, value_type_of(v, xl), xl, yl, 0u32, 0i64, IntCC::UnsignedLessThan, TrapCode::User(0), 0u8, 0i32, 0u32, 0u32), None, None);
    let (b3, _r1) = (new0, new1);
    let p = p + 1;
    let (new0, new1) = s_ins_results(v, inst_of(Opcode::Bnot, value_type_of(v, b2), b2, 0u32, 0u32, 0i64, IntCC::Equal, TrapCode::User(0), 0u8, 0i32, 0u32, 0u32), None, None);
    let v = s_ins(v, p, inst_of(Opcode::Bnot, value_type_of(v, b2), b2, 0u32, 0u32, 0i64, IntCC::Equal, TrapCode::User(0), 0u8, 0i32, 0u32, 0u32), None, None);
    let (c1, _r1) = (new0, new1);
    let p = p + 1;
    let (new0, new1) = s_ins_results(v, inst_of(Opcode::Band, value_type_of(v, c1), c1, b3, 0u32, 0i64, IntCC::Equal, TrapCode::User(0), 0u8, 0i32, 0u32, 0u32), None, None);
    let v = s_ins(v, p, inst_of(Opcode::Band, value_type_of(v, c1), c1, b3, 0u32, 0i64, IntCC::Equal, TrapCode::User(0), 0u8, 0i32, 0u32, 0u32), None, None);
    let (c2, _r1) = (new0, new1);
    let p = p + 1;
    let v = s_replace(v, inst, inst_of(Opcode::Bor, value_type_of(v, b1), b1, c2, 0u32, 0i64, IntCC::Equal, TrapCode::User(0), 0u8, 0i32, 0u32, 0u32));
    Some(v)
}

/// Legalize a `int_compare` instruction by narrowing, with its pattern number 18.
#[verifier::rlimit(100)]
fn narrow_int_compare_18(inst: Inst, pos: usize, d: InstData, func: &mut Function) -> (r: bool)
    requires
        pattern_input(old(func)@, inst, pos as int, d),
    ensures
        pattern_outcome(old(func)@, final(func)@, r, narrow_int_compare_18_spec(old(func)@, inst, pos as int, d)),
        final(func).encodings@ == old(func).encodings@,
        func_wf(final(func)@),
        r ==> final(func)@.0.len() > old(func)@.0.len(),
        keeps_before(old(func)@, final(func)@, inst, pos as int),
{
    proof {
        reveal(narrow_int_compare_18_spec);
    }
    let mut p = pos;
    let cond = d.cond;
    let x = d.arg0;
    let y = d.arg1;
    let (xl, xh, k) = func.split_value(p, x);
    p = p + k;
    let (yl, yh, k) = func.split_value(p, y);
    p = p + k;
    let ty97 = func.value_type(xh);
    let (b1, _r1) = func.ins(p, make_inst(Opcode::IntCompare, ty97, xh, yh, 0u32, 0i64, IntCC::UnsignedLessThan, TrapCode::User(0), 0u8, 0i32, 0u32, 0u32), None, None);
    p = p + 1;
    let ty98 = func.value_type(xh);
    let (b2, _r1) = func.ins(p, make_inst(Opcode::IntCompare, ty98, xh, yh, 0u32, 0i64, IntCC::UnsignedGreaterThan, TrapCode::User(0), 0u8, 0i32, 0u32, 0u32), None, None);
    p = p + 1;
    let ty99 = func.value_type(xl);
    let (b3, _r1) = func.ins(p, make_inst(Opcode::IntCompare, ty99, xl, yl, 0u32, 0i64, IntCC::UnsignedLessThan, TrapCode::User(0), 0u8, 0i32, 0u32, 0u32), None, None);
    p = p + 1;
    let ty100 = func.value_type(b2);
    let (c1, _r1) = func.ins(p, make_inst(Opcode::Bnot, ty100, b2, 0u32, 0u32, 0i64, IntCC::Equal, TrapCode::User(0), 0u8, 0i32, 0u32, 0u32), None, None);
    p = p + 1;
    let ty101 = func.value_type(c1);
    let (c2, _r1) = func.ins(p, make_inst(Opcode::Band, ty101, c1, b3, 0u32, 0i64, IntCC::Equal, TrapCode::User(0), 0u8, 0i32, 0u32, 0u32), None, None);
    p = p + 1;
    let ty102 = func.value_type(b1);
    func.replace(inst, make_inst(Opcode::Bor, ty102, b1, c2, 0u32, 0i64, IntCC::Equal, TrapCode::User(0), 0u8, 0i32, 0u32, 0u32));
    return true;
}

/// The function after the narrowing of a `int_compare` instruction by its pattern number 19.
#[verifier::opaque]
pub open spec fn narrow_int_compare_19_spec(v: FuncView, inst: Inst, pos: int, d: InstData) -> Option<FuncView> {
    let p = pos;
    let cond = d.cond;
    let x = d.arg0;
    let y = d.arg1;
    let (new0, new1, newk) = s_split_results(v, x);
    let v = s_split(v, p, x);
    let (xl, xh) = (new0, new1);
    let p = p + newk;
    let (new0, new1, newk) = s_split_results(v, y);
    let v = s_split(v, p, y);
    let (yl, yh) = (new0, new1);
    let p = p + newk;
    let (new0, new1) = s_ins_results(v, inst_of(Opcode::IntCompare, value_type_of(v, xh), xh, yh, 0u32, 0i64, IntCC::UnsignedLessThan, TrapCode::User(0), 0u8, 0i32, 0u32, 0u32), None, None);
    let v = s_ins(v, p, inst_of(Opcode::IntCompare, value_type_of(v, xh), xh, yh, 0u32, 0i64, IntCC::UnsignedLessThan, TrapCode::User(0), 0u8, 0i32, 0u32, 0u32), None, None);
    let (b1, _r1) = (new0, new1);
    let p = p + 1;
    let (new0, new1) = s_ins_results(v, inst_of(Opcode::IntCompare, value_type_of(v, xh), xh, yh, 0u32, 0i64, IntCC::UnsignedGreaterThan, TrapCode::User(0), 0u8, 0i32, 0u32, 0u32), None, None);
    let v = s_ins(v, p, inst_of(Opcode::IntCompare, value_type_of(v, xh), xh, yh, 0u32, 0i64, IntCC::UnsignedGreaterThan, TrapCode::User(0), 0u8, 0i32, 0u32, 0u32), None, None);
    let (b2, _r1) = (new0, new1);
    let p = p + 1;
    let (new0, new1) = s_ins_results(v, inst_of(Opcode::IntCompare, value_type_of(v, xl), xl, yl, 0u32, 0i64, IntCC::UnsignedLessThanOrEqual, TrapCode::User(0), 0u8, 0i32, 0u32, 0u32), None, None);
    let v = s_ins(v, p, inst_of(Opcode::IntCompare, value_type_of(v, xl), xl, yl, 0u32, 0i64, IntCC::UnsignedLessThanOrEqual, TrapCode::User(0), 0u8, 0i32, 0u32, 0u32), None, None);
    let (b3, _r1) = (new0, new1);
    let p = p + 1;
    let (new0, new1) = s_ins_results(v, inst_of(Opcode::Bnot, value_type_of(v, b2), b2, 0u32, 0u32, 0i64, IntCC::Equal, TrapCode::User(0), 0u8, 0i32, 0u32, 0u32), None, None);
    let v = s_ins(v, p, inst_of(Opcode::Bnot, value_type_of(v, b2), b2, 0u32, 0u32, 0i64, IntCC::Equal, TrapCode::User(0), 0u8, 0i32, 0u32, 0u32), None, None);
    let (c1, _r1) = (new0, new1);
    let p = p + 1;
    let (new0, new1) = s_ins_results(v, inst_of(Opcode::Band, value_type_of(v, c1), c1, b3, 0u32, 0i64, IntCC::Equal, TrapCode::User(0), 0u8, 0i32, 0u32, 0u32), None, None);
    let v = s_ins(v, p, inst_of(Opcode::Band, value_type_of(v, c1), c1, b3, 0u32, 0i64, IntCC::Equal, TrapCode::User(0), 0u8, 0i32, 0u32, 0u32), None, None);
    let (c2, _r1) = (new0, new1);
    let p = p + 1;
    let v = s_replace(v, inst, inst_of(Opcode::Bor, value_type_of(v, b1), b1, c2, 0u32, 0i64, IntCC::Equal, TrapCode::User(0), 0u8, 0i32, 0u32, 0u32));
    Some(v)
}

/// Legalize a `int_compare` instruction by narrowing, with its pattern number 19.
#[verifier::rlimit(100)]
fn narrow_int_compare_19(inst: Inst, pos: usize, d: InstData, func: &mut Function) -> (r: bool)
    requires
        pattern_input(old(func)@, inst, pos as int, d),
    ensures
        pattern_outcome(old(func)@, final(func)@, r, narrow_int_compare_19_spec(old(func)@, inst, pos as int, d)),
        final(func).encodings@ == old(func).encodings@,
        func_wf(final(func)@),
        r ==> final(func)@.0.len() > old(func)@.0.len(),
        keeps_before(old(func)@, final(func)@, inst, pos as int),
{
    proof {
        reveal(narrow_int_compare_19_spec);
    }
    let mut p = pos;
    let cond = d.cond;
    let x = d.arg0;
    let y = d.arg1;
    let (xl, xh, k) = func.split_value(p, x);
    p = p + k;
    let (yl, yh, k) = func.split_value(p, y);
    p = p + k;
    let ty103 = func.value_type(xh);
    let (b1, _r1) = func.ins(p, make_inst(Opcode::IntCompare, ty103, xh, yh, 0u32, 0i64, IntCC::UnsignedLessThan, TrapCode::User(0), 0u8, 0i32, 0u32, 0u32), None, None);
    p = p + 1;
    let ty104 = func.value_type(xh);
    let (b2, _r1) = func.ins(p, make_inst(Opcode::IntCompare, ty104, xh, yh, 0u32, 0i64, IntCC::UnsignedGreaterThan, TrapCode::User(0), 0u8, 0i32, 0u32, 0u32), None, None);
    p = p + 1;
    let ty105 = func.value_type(xl);
    let (b3, _r1) = func.ins(p, make_inst(Opcode::IntCompare, ty105, xl, yl, 0u32, 0i64, IntCC::UnsignedLessThanOrEqual, TrapCode::User(0), 0u8, 0i32, 0u32, 0u32), None, None);
    p = p + 1;
    let ty106 = func.value_type(b2);
    let (c1, _r1) = func.ins(p, make_inst(Opcode::Bnot, ty106, b2, 0u32, 0u32, 0i64, IntCC::Equal, TrapCode::User(0), 0u8, 0i32, 0u32, 0u32), None, None);
    p = p + 1;
    let ty107 = func.value_type(c1);
    let (c2, _r1) = func.ins(p, make_inst(Opcode::Band, ty107, c1, b3, 0u32, 0i64, IntCC::Equal, TrapCode::User(0), 0u8, 0i32, 0u32, 0u32), None, None);
    p = p + 1;
    let ty108 = func.value_type(b1);
    func.replace(inst, make_inst(Opcode::Bor, ty108, b1, c2, 0u32, 0i64, IntCC::Equal, TrapCode::User(0), 0u8, 0i32, 0u32, 0u32));
    return true;
}

/// The function after the narrowing of a `int_compare` instruction, or `None` where no pattern applies.
#[verifier::opaque]
pub open spec fn narrow_int_compare_spec(v: FuncView, inst: Inst, pos: int, d: InstData) -> Option<FuncView> {
    let p = pos;
    let cond = d.cond;
    let x = d.arg0;
    let y = d.arg1;
    if cond == IntCC::Equal && value_type_of(v, d.arg0) == ValueType(I64) {
        narrow_int_compare_0_spec(v, inst, pos, d)
    } else if cond == IntCC::NotEqual && value_type_of(v, d.arg0) == ValueType(I64) {
        narrow_int_compare_1_spec(v, inst, pos, d)
    } else if cond == IntCC::SignedGreaterThan && value_type_of(v, d.arg0) == ValueType(I64) {
        narrow_int_compare_2_spec(v, inst, pos, d)
    } else if cond == IntCC::SignedGreaterThanOrEqual && value_type_of(v, d.arg0) == ValueType(I64) {
        narrow_int_compare_3_spec(v, inst, pos, d)
    } else if cond == IntCC::SignedLessThan && value_type_of(v, d.arg0) == ValueType(I64) {
        narrow_int_compare_4_spec(v, inst, pos, d)
    } else if cond == IntCC::SignedLessThanOrEqual && value_type_of(v, d.arg0) == ValueType(I64) {
        narrow_int_compare_5_spec(v, inst, pos, d)
    } else if cond == IntCC::UnsignedGreaterThan && value_type_of(v, d.arg0) == ValueType(I64) {
        narrow_int_compare_6_spec(v, inst, pos, d)
    } else if cond == IntCC::UnsignedGreaterThanOrEqual && value_type_of(v, d.arg0) == ValueType(I64) {
        narrow_int_compare_7_spec(v, inst, pos, d)
    } else if cond == IntCC::UnsignedLessThan && value_type_of(v, d.arg0) == ValueType(I64) {
        narrow_int_compare_8_spec(v, inst, pos, d)
    } else if cond == IntCC::UnsignedLessThanOrEqual && value_type_of(v, d.arg0) == ValueType(I64) {
        narrow_int_compare_9_spec(v, inst, pos, d)
    } else if cond == IntCC::Equal && value_type_of(v, d.arg0) == ValueType(I128) {
        narrow_int_compare_10_spec(v, inst, pos, d)
    } else if cond == IntCC::NotEqual && value_type_of(v, d.arg0) == ValueType(I128) {
        narrow_int_compare_11_spec(v, inst, pos, d)
    } else if cond == IntCC::SignedGreaterThan && value_type_of(v, d.arg0) == ValueType(I128) {
        narrow_int_compare_12_spec(v, inst, pos, d)
    } else if cond == IntCC::SignedGreaterThanOrEqual && value_type_of(v, d.arg0) == ValueType(I128) {
        narrow_int_compare_13_spec(v, inst, pos, d)
    } else if cond == IntCC::SignedLessThan && value_type_of(v, d.arg0) == ValueType(I128) {
        narrow_int_compare_14_spec(v, inst, pos, d)
    } else if cond == IntCC::SignedLessThanOrEqual && value_type_of(v, d.arg0) == ValueType(I128) {
        narrow_int_compare_15_spec(v, inst, pos, d)
    } else if cond == IntCC::UnsignedGreaterThan && value_type_of(v, d.arg0) == ValueType(I128) {
        narrow_int_compare_16_spec(v, inst, pos, d)
    } else if cond == IntCC::UnsignedGreaterThanOrEqual && value_type_of(v, d.arg0) == ValueType(I128) {
        narrow_int_compare_17_spec(v, inst, pos, d)
    } else if cond == IntCC::UnsignedLessThan && value_type_of(v, d.arg0) == ValueType(I128) {
        narrow_int_compare_18_spec(v, inst, pos, d)
    } else if cond == IntCC::UnsignedLessThanOrEqual && value_type_of(v, d.arg0) == ValueType(I128) {
        narrow_int_compare_19_spec(v, inst, pos, d)
    } else {
        None
    }
}

/// Legalize a `int_compare` instruction by narrowing.
fn narrow_int_compare(inst: Inst, pos: usize, d: InstData, func: &mut Function) -> (r: bool)
    requires
        pattern_input(old(func)@, inst, pos as int, d),
    ensures
        pattern_outcome(old(func)@, final(func)@, r, narrow_int_compare_spec(old(func)@, inst, pos as int, d)),
        final(func).encodings@ == old(func).encodings@,
        func_wf(final(func)@),
        r ==> final(func)@.0.len() > old(func)@.0.len(),
        keeps_before(old(func)@, final(func)@, inst, pos as int),
{
    proof {
        reveal(narrow_int_compare_spec);
    }
    let mut p = pos;
    let cond = d.cond;
    let x = d.arg0;
    let y = d.arg1;
    if is_equal(cond, IntCC::Equal) && func.value_type(d.arg0) == ValueType(I64) {
        return narrow_int_compare_0(inst, pos, d, func);
    }
    if is_equal(cond, IntCC::NotEqual) && func.value_type(d.arg0) == ValueType(I64) {
        return narrow_int_compare_1(inst, pos, d, func);
    }
    if is_equal(cond, IntCC::SignedGreaterThan) && func.value_type(d.arg0) == ValueType(I64) {
        return narrow_int_compare_2(inst, pos, d, func);
    }
    if is_equal(cond, IntCC::SignedGreaterThanOrEqual) && func.value_type(d.arg0) == ValueType(I64) {
        return narrow_int_compare_3(inst, pos, d, func);
    }
    if is_equal(cond, IntCC::SignedLessThan) && func.value_type(d.arg0) == ValueType(I64) {
        return narrow_int_compare_4(inst, pos, d, func);
    }
    if is_equal(cond, IntCC::SignedLessThanOrEqual) && func.value_type(d.arg0) == ValueType(I64) {
        return narrow_int_compare_5(inst, pos, d, func);
    }
    if is_equal(cond, IntCC::UnsignedGreaterThan) && func.value_type(d.arg0) == ValueType(I64) {
        return narrow_int_compare_6(inst, pos, d, func);
    }
    if is_equal(cond, IntCC::UnsignedGreaterThanOrEqual) && func.value_type(d.arg0) == ValueType(I64) {
        return narrow_int_compare_7(inst, pos, d, func);
    }
    if is_equal(cond, IntCC::UnsignedLessThan) && func.value_type(d.arg0) == ValueType(I64) {
        return narrow_int_compare_8(inst, pos, d, func);
    }
    if is_equal(cond, IntCC::UnsignedLessThanOrEqual) && func.value_type(d.arg0) == ValueType(I64) {
        return narrow_int_compare_9(inst, pos, d, func);
    }
    if is_equal(cond, IntCC::Equal) && func.value_type(d.arg0) == ValueType(I128) {
        return narrow_int_compare_10(inst, pos, d, func);
    }
    if is_equal(cond, IntCC::NotEqual) && func.value_type(d.arg0) == ValueType(I128) {
        return narrow_int_compare_11(inst, pos, d, func);
    }
    if is_equal(cond, IntCC::SignedGreaterThan) && func.value_type(d.arg0) == ValueType(I128) {
        return narrow_int_compare_12(inst, pos, d, func);
    }
    if is_equal(cond, IntCC::SignedGreaterThanOrEqual) && func.value_type(d.arg0) == ValueType(I128) {
        return narrow_int_compare_13(inst, pos, d, func);
    }
    if is_equal(cond, IntCC::SignedLessThan) && func.value_type(d.arg0) == ValueType(I128) {
        return narrow_int_compare_14(inst, pos, d, func);
    }
    if is_equal(cond, IntCC::SignedLessThanOrEqual) && func.value_type(d.arg0) == ValueType(I128) {
        return narrow_int_compare_15(inst, pos, d, func);
    }
    if is_equal(cond, IntCC::UnsignedGreaterThan) && func.value_type(d.arg0) == ValueType(I128) {
        return narrow_int_compare_16(inst, pos, d, func);
    }
    if is_equal(cond, IntCC::UnsignedGreaterThanOrEqual) && func.value_type(d.arg0) == ValueType(I128) {
        return narrow_int_compare_17(inst, pos, d, func);
    }
    if is_equal(cond, IntCC::UnsignedLessThan) && func.value_type(d.arg0) == ValueType(I128) {
        return narrow_int_compare_18(inst, pos, d, func);
    }
    if is_equal(cond, IntCC::UnsignedLessThanOrEqual) && func.value_type(d.arg0) == ValueType(I128) {
        return narrow_int_compare_19(inst, pos, d, func);
    }
    false
}

/// The function after the narrowing of a `imul` instruction, or `None` where no pattern applies.
#[verifier::opaque]
pub open spec fn narrow_imul_spec(v: FuncView, inst: Inst, pos: int, d: InstData) -> Option<FuncView> {
    let p = pos;
    let x = d.arg0;
    let y = d.arg1;
    if value_type_of(v, d.arg0) == ValueType(I64) {
        let (new0, new1, newk) = s_split_results(v, x);
        let v = s_split(v, p, x);
        let (xl, xh) = (new0, new1);
        let p = p + newk;
        let (new0, new1, newk) = s_split_results(v, y);
        let v = s_split(v, p, y);
        let (yl, yh) = (new0, new1);
        let p = p + newk;
        let (new0, new1) = s_ins_results(v, inst_of(Opcode::Imul, value_type_of(v, xh), xh, yl, 0u32, 0i64, IntCC::Equal, TrapCode::User(0), 0u8, 0i32, 0u32, 0u32), None, None);
        let v = s_ins(v, p, inst_of(Opcode::Imul, value_type_of(v, xh), xh, yl, 0u32, 0i64, IntCC::Equal, TrapCode::User(0), 0u8, 0i32, 0u32, 0u32), None, None);
        let (a1, _r1) = (new0, new1);
        let p = p + 1;
        let (new0, new1) = s_ins_results(v, inst_of(Opcode::Imul, value_type_of(v, xl), xl, yh, 0u32, 0i64, IntCC::Equal, TrapCode::User(0), 0u8, 0i32, 0u32, 0u32), None, None);
        let v = s_ins(v, p, inst_of(Opcode::Imul, value_type_of(v, xl), xl, yh, 0u32, 0i64, IntCC::Equal, TrapCode::User(0), 0u8, 0i32, 0u32, 0u32), None, None);
        let (a2, _r1) = (new0, new1);
        let p = p + 1;
        let (new0, new1) = s_ins_results(v, inst_of(Opcode::Iadd, value_type_of(v, a1), a1, a2, 0u32, 0i64, IntCC::Equal, TrapCode::User(0), 0u8, 0i32, 0u32, 0u32), None, None);
        let v = s_ins(v, p, inst_of(Opcode::Iadd, value_type_of(v, a1), a1, a2, 0u32, 0i64, IntCC::Equal, TrapCode::User(0), 0u8, 0i32, 0u32, 0u32), None, None);
        let (a3, _r1) = (new0, new1);
        let p = p + 1;
        let (new0, new1) = s_ins_results(v, inst_of(Opcode::Umulhi, value_type_of(v, xl), xl, yl, 0u32, 0i64, IntCC::Equal, TrapCode::User(0), 0u8, 0i32, 0u32, 0u32), None, None);
        let v = s_ins(v, p, inst_of(Opcode::Umulhi, value_type_of(v, xl), xl, yl, 0u32, 0i64, IntCC::Equal, TrapCode::User(0), 0u8, 0i32, 0u32, 0u32), None, None);
        let (a4, _r1) = (new0, new1);
        let p = p + 1;
        let (new0, new1) = s_ins_results(v, inst_of(Opcode::Iadd, value_type_of(v, a3), a3, a4, 0u32, 0i64, IntCC::Equal, TrapCode::User(0), 0u8, 0i32, 0u32, 0u32), None, None);
        let v = s_ins(v, p, inst_of(Opcode::Iadd, value_type_of(v, a3), a3, a4, 0u32, 0i64, IntCC::Equal, TrapCode::User(0), 0u8, 0i32, 0u32, 0u32), None, None);
        let (ah, _r1) = (new0, new1);
        let p = p + 1;
        let (new0, new1) = s_ins_results(v, inst_of(Opcode::Imul, value_type_of(v, xl), xl, yl, 0u32, 0i64, IntCC::Equal, TrapCode::User(0), 0u8, 0i32, 0u32, 0u32), None, None);
        let v = s_ins(v, p, inst_of(Opcode::Imul, value_type_of(v, xl), xl, yl, 0u32, 0i64, IntCC::Equal, TrapCode::User(0), 0u8, 0i32, 0u32, 0u32), None, None);
        let (al, _r1) = (new0, new1);
        let p = p + 1;
        let v = s_replace(v, inst, inst_of(Opcode::Iconcat, value_type_of(v, al), al, ah, 0u32, 0i64, IntCC::Equal, TrapCode::User(0), 0u8, 0i32, 0u32, 0u32));
        Some(v)
} else {
    if value_type_of(v, d.arg0) == ValueType(I128) {
        let (new0, new1, newk) = s_split_results(v, x);
        let v = s_split(v, p, x);
        let (xl, xh) = (new0, new1);
        let p = p + newk;
        let (new0, new1, newk) = s_split_results(v, y);
        let v = s_split(v, p, y);
        let (yl, yh) = (new0, new1);
        let p = p + newk;
        let (new0, new1) = s_ins_results(v, inst_of(Opcode::Imul, value_type_of(v, xh), xh, yl, 0u32, 0i64, IntCC::Equal, TrapCode::User(0), 0u8, 0i32, 0u32, 0u32), None, None);
        let v = s_ins(v, p, inst_of(Opcode::Imul, value_type_of(v, xh), xh, yl, 0u32, 0i64, IntCC::Equal, TrapCode::User(0), 0u8, 0i32, 0u32, 0u32), None, None);
        let (a1, _r1) = (new0, new1);
        let p = p + 1;
        let (new0, new1) = s_ins_results(v, inst_of(Opcode::Imul, value_type_of(v, xl), xl, yh, 0u32, 0i64, IntCC::Equal, TrapCode::User(0), 0u8, 0i32, 0u32, 0u32), None, None);
        let v = s_ins(v, p, inst_of(Opcode::Imul, value_type_of(v, xl), xl, yh, 0u32, 0i64, IntCC::Equal, TrapCode::User(0), 0u8, 0i32, 0u32, 0u32), None, None);
        let (a2, _r1) = (new0, new1);
        let p = p + 1;
        let (new0, new1) = s_ins_results(v, inst_of(Opcode::Iadd, value_type_of(v, a1), a1, a2, 0u32, 0i64, IntCC::Equal, TrapCode::User(0), 0u8, 0i32, 0u32, 0u32), None, None);
        let v = s_ins(v, p, inst_of(Opcode::Iadd, value_type_of(v, a1), a1, a2, 0u32, 0i64, IntCC::Equal, TrapCode::User(0), 0u8, 0i32, 0u32, 0u32), None, None);
        let (a3, _r1) = (new0, new1);
        let p = p + 1;
        let (new0, new1) = s_ins_results(v, inst_of(Opcode::Umulhi, value_type_of(v, xl), xl, yl, 0u32, 0i64, IntCC::Equal, TrapCode::User(0), 0u8, 0i32, 0u32, 0u32), None, None);
        let v = s_ins(v, p, inst_of(Opcode::Umulhi, value_type_of(v, xl), xl, yl, 0u32, 0i64, IntCC::Equal, TrapCode::User(0), 0u8, 0i32, 0u32, 0u32), None, None);
        let (a4, _r1) = (new0, new1);
        let p = p + 1;
        let (new0, new1) = s_ins_results(v, inst_of(Opcode::Iadd, value_type_of(v, a3), a3, a4, 0u32, 0i64, IntCC::Equal, TrapCode::User(0), 0u8, 0i32, 0u32, 0u32), None, None);
        let v = s_ins(v, p, inst_of(Opcode::Iadd, value_type_of(v, a3), a3, a4, 0u32, 0i64, IntCC::Equal, TrapCode::User(0), 0u8, 0i32, 0u32, 0u32), None, None);
        let (ah, _r1) = (new0, new1);
        let p = p + 1;
        let (new0, new1) = s_ins_results(v, inst_of(Opcode::Imul, value_type_of(v, xl), xl, yl, 0u32, 0i64, IntCC::Equal, TrapCode::User(0), 0u8, 0i32, 0u32, 0u32), None, None);
        let v = s_ins(v, p, inst_of(Opcode::Imul, value_type_of(v, xl), xl, yl, 0u32, 0i64, IntCC::Equal, TrapCode::User(0), 0u8, 0i32, 0u32, 0u32), None, None);
        let (al, _r1) = (new0, new1);
        let p = p + 1;
        let v = s_replace(v, inst, inst_of(Opcode::Iconcat, value_type_of(v, al), al, ah, 0u32, 0i64, IntCC::Equal, TrapCode::User(0), 0u8, 0i32, 0u32, 0u32));
        Some(v)
} else {
    None
}
}
}

/// Legalize a `imul` instruction by narrowing.
#[verifier::rlimit(100)]
fn narrow_imul(inst: Inst, pos: usize, d: InstData, func: &mut Function) -> (r: bool)
    requires
        pattern_input(old(func)@, inst, pos as int, d),
    ensures
        pattern_outcome(old(func)@, final(func)@, r, narrow_imul_spec(old(func)@, inst, pos as int, d)),
        final(func).encodings@ == old(func).encodings@,
        func_wf(final(func)@),
        r ==> final(func)@.0.len() > old(func)@.0.len(),
        keeps_before(old(func)@, final(func)@, inst, pos as int),
{
    proof {
        reveal(narrow_imul_spec);
    }
    let mut p = pos;
    let x = d.arg0;
    let y = d.arg1;
    if func.value_type(d.arg0) == ValueType(I64) {
        let (xl, xh, k) = func.split_value(p, x);
        p = p + k;
        let (yl, yh, k) = func.split_value(p, y);
        p = p + k;
        let ty1 = func.value_type(xh);
        let (a1, _r1) = func.ins(p, make_inst(Opcode::Imul, ty1, xh, yl, 0u32, 0i64, IntCC::Equal, TrapCode::User(0), 0u8, 0i32, 0u32, 0u32), None, None);
        p = p + 1;
        let ty2 = func.value_type(xl);
        let (a2, _r1) = func.ins(p, make_inst(Opcode::Imul, ty2, xl, yh, 0u32, 0i64, IntCC::Equal, TrapCode::User(0), 0u8, 0i32, 0u32, 0u32), None, None);
        p = p + 1;
        let ty3 = func.value_type(a1);
        let (a3, _r1) = func.ins(p, make_inst(Opcode::Iadd, ty3, a1, a2, 0u32, 0i64, IntCC::Equal, TrapCode::User(0), 0u8, 0i32, 0u32, 0u32), None, None);
        p = p + 1;
        let ty4 = func.value_type(xl);
        let (a4, _r1) = func.ins(p, make_inst(Opcode::Umulhi, ty4, xl, yl, 0u32, 0i64, IntCC::Equal, TrapCode::User(0), 0u8, 0i32, 0u32, 0u32), None, None);
        p = p + 1;
        let ty5 = func.value_type(a3);
        let (ah, _r1) = func.ins(p, make_inst(Opcode::Iadd, ty5, a3, a4, 0u32, 0i64, IntCC::Equal, TrapCode::User(0), 0u8, 0i32, 0u32, 0u32), None, None);
        p = p + 1;
        let ty6 = func.value_type(xl);
        let (al, _r1) = func.ins(p, make_inst(Opcode::Imul, ty6, xl, yl, 0u32, 0i64, IntCC::Equal, TrapCode::User(0), 0u8, 0i32, 0u32, 0u32), None, None);
        p = p + 1;
        let ty7 = func.value_type(al);
        func.replace(inst, make_inst(Opcode::Iconcat, ty7, al, ah, 0u32, 0i64, IntCC::Equal, TrapCode::User(0), 0u8, 0i32, 0u32, 0u32));
        return true;
    }
    if func.value_type(d.arg0) == ValueType(I128) {
        let (xl, xh, k) = func.split_value(p, x);
        p = p + k;
        let (yl, yh, k) = func.split_value(p, y);
        p = p + k;
        let ty8 = func.value_type(xh);
        let (a1, _r1) = func.ins(p, make_inst(Opcode::Imul, ty8, xh, yl, 0u32, 0i64, IntCC::Equal, TrapCode::User(0), 0u8, 0i32, 0u32, 0u32), None, None);
        p = p + 1;
        let ty9 = func.value_type(xl);
        let (a2, _r1) = func.ins(p, make_inst(Opcode::Imul, ty9, xl, yh, 0u32, 0i64, IntCC::Equal, TrapCode::User(0), 0u8, 0i32, 0u32, 0u32), None, None);
        p = p + 1;
        let ty10 = func.value_type(a1);
        let (a3, _r1) = func.ins(p, make_inst(Opcode::Iadd, ty10, a1, a2, 0u32, 0i64, IntCC::Equal, TrapCode::User(0), 0u8, 0i32, 0u32, 0u32), None, None);
        p = p + 1;
        let ty11 = func.value_type(xl);
        let (a4, _r1) = func.ins(p, make_inst(Opcode::Umulhi, ty11, xl, yl, 0u32, 0i64, IntCC::Equal, TrapCode::User(0), 0u8, 0i32, 0u32, 0u32), None, None);
        p = p + 1;
        let ty12 = func.value_type(a3);
        let (ah, _r1) = func.ins(p, make_inst(Opcode::Iadd, ty12, a3, a4, 0u32, 0i64, IntCC::Equal, TrapCode::User(0), 0u8, 0i32, 0u32, 0u32), None, None);
        p = p + 1;
        let ty13 = func.value_type(xl);
        let (al, _r1) = func.ins(p, make_inst(Opcode::Imul, ty13, xl, yl, 0u32, 0i64, IntCC::Equal, TrapCode::User(0), 0u8, 0i32, 0u32, 0u32), None, None);
        p = p + 1;
        let ty14 = func.value_type(al);
        func.replace(inst, make_inst(Opcode::Iconcat, ty14, al, ah, 0u32, 0i64, IntCC::Equal, TrapCode::User(0), 0u8, 0i32, 0u32, 0u32));
        return true;
    }
    false
}

/// The function after the narrowing of a `select` instruction, or `None` where no pattern applies.
#[verifier::opaque]
pub open spec fn narrow_select_spec(v: FuncView, inst: Inst, pos: int, d: InstData) -> Option<FuncView> {
    let p = pos;
    let c = d.arg0;
    let x = d.arg1;
    let y = d.arg2;
    let typeof_c = value_type_of(v, c);
    let typeof_x = value_type_of(v, x);
    let predicate = true;
    let predicate = predicate && type_set_holds(2, typeof_x);
    if predicate {
        let (new0, new1, newk) = s_split_results(v, x);
        let v = s_split(v, p, x);
        let (xl, xh) = (new0, new1);
        let p = p + newk;
        let (new0, new1, newk) = s_split_results(v, y);
        let v = s_split(v, p, y);
        let (yl, yh) = (new0, new1);
        let p = p + newk;
        let (new0, new1) = s_ins_results(v, inst_of(Opcode::Select, value_type_of(v, xl), c, xl, yl, 0i64, IntCC::Equal, TrapCode::User(0), 0u8, 0i32, 0u32, 0u32), None, None);
        let v = s_ins(v, p, inst_of(Opcode::Select, value_type_of(v, xl), c, xl, yl, 0i64, IntCC::Equal, TrapCode::User(0), 0u8, 0i32, 0u32, 0u32), None, None);
        let (al, _r1) = (new0, new1);
        let p = p + 1;
        let (new0, new1) = s_ins_results(v, inst_of(Opcode::Select, value_type_of(v, xh), c, xh, yh, 0i64, IntCC::Equal, TrapCode::User(0), 0u8, 0i32, 0u32, 0u32), None, None);
        let v = s_ins(v, p, inst_of(Opcode::Select, value_type_of(v, xh), c, xh, yh, 0i64, IntCC::Equal, TrapCode::User(0), 0u8, 0i32, 0u32, 0u32), None, None);
        let (ah, _r1) = (new0, new1);
        let p = p + 1;
        let v = s_replace(v, inst, inst_of(Opcode::Iconcat, value_type_of(v, al), al, ah, 0u32, 0i64, IntCC::Equal, TrapCode::User(0), 0u8, 0i32, 0u32, 0u32));
        Some(v)
} else {
    None
}
}

/// Legalize a `select` instruction by narrowing.
fn narrow_select(inst: Inst, pos: usize, d: InstData, func: &mut Function) -> (r: bool)
    requires
        pattern_input(old(func)@, inst, pos as int, d),
    ensures
        pattern_outcome(old(func)@, final(func)@, r, narrow_select_spec(old(func)@, inst, pos as int, d)),
        final(func).encodings@ == old(func).encodings@,
        func_wf(final(func)@),
        r ==> final(func)@.0.len() > old(func)@.0.len(),
        keeps_before(old(func)@, final(func)@, inst, pos as int),
{
    proof {
        reveal(narrow_select_spec);
    }
    let mut p = pos;
    let c = d.arg0;
    let x = d.arg1;
    let y = d.arg2;
    let typeof_c = func.value_type(c);
    let typeof_x = func.value_type(x);
    let predicate = true;
    let predicate = predicate && in_type_set(2, typeof_x);
    if predicate {
        let (xl, xh, k) = func.split_value(p, x);
        p = p + k;
        let (yl, yh, k) = func.split_value(p, y);
        p = p + k;
        let ty1 = func.value_type(xl);
        let (al, _r1) = func.ins(p, make_inst(Opcode::Select, ty1, c, xl, yl, 0i64, IntCC::Equal, TrapCode::User(0), 0u8, 0i32, 0u32, 0u32), None, None);
        p = p + 1;
        let ty2 = func.value_type(xh);
        let (ah, _r1) = func.ins(p, make_inst(Opcode::Select, ty2, c, xh, yh, 0i64, IntCC::Equal, TrapCode::User(0), 0u8, 0i32, 0u32, 0u32), None, None);
        p = p + 1;
        let ty3 = func.value_type(al);
        func.replace(inst, make_inst(Opcode::Iconcat, ty3, al, ah, 0u32, 0i64, IntCC::Equal, TrapCode::User(0), 0u8, 0i32, 0u32, 0u32));
        return true;
    }
    false
}

/// The function after the narrowing with flags of a `iadd` instruction, or `None` where no pattern applies.
#[verifier::opaque]
pub open spec fn narrow_flags_iadd_spec(v: FuncView, inst: Inst, pos: int, d: InstData) -> Option<FuncView> {
    let p = pos;
    let x = d.arg0;
    let y = d.arg1;
    let typeof_x = value_type_of(v, x);
    let predicate = true;
    let predicate = predicate && type_set_holds(3, typeof_x);
    if predicate {
        let (new0, new1, newk) = s_split_results(v, x);
        let v = s_split(v, p, x);
        let (xl, xh) = (new0, new1);
        let p = p + newk;
        let (new0, new1, newk) = s_split_results(v, y);
        let v = s_split(v, p, y);
        let (yl, yh) = (new0, new1);
        let p = p + newk;
        let (new0, new1) = s_ins_results(v, inst_of(Opcode::IaddIfcout, value_type_of(v, xl), xl, yl, 0u32, 0i64, IntCC::Equal, TrapCode::User(0), 0u8, 0i32, 0u32, 0u32), None, None);
        let v = s_ins(v, p, inst_of(Opcode::IaddIfcout, value_type_of(v, xl), xl, yl, 0u32, 0i64, IntCC::Equal, TrapCode::User(0), 0u8, 0i32, 0u32, 0u32), None, None);
        let (al, c) = (new0, new1);
        let p = p + 1;
        let (new0, new1) = s_ins_results(v, inst_of(Opcode::IaddIfcin, value_type_of(v, xh), xh, yh, c, 0i64, IntCC::Equal, TrapCode::User(0), 0u8, 0i32, 0u32, 0u32), None, None);
        let v = s_ins(v, p, inst_of(Opcode::IaddIfcin, value_type_of(v, xh), xh, yh, c, 0i64, IntCC::Equal, TrapCode::User(0), 0u8, 0i32, 0u32, 0u32), None, None);
        let (ah, _r1) = (new0, new1);
        let p = p + 1;
        let v = s_replace(v, inst, inst_of(Opcode::Iconcat, value_type_of(v, al), al, ah, 0u32, 0i64, IntCC::Equal, TrapCode::User(0), 0u8, 0i32, 0u32, 0u32));
        Some(v)
} else {
    None
}
}

/// Legalize a `iadd` instruction by narrowing with flags.
fn narrow_flags_iadd(inst: Inst, pos: usize, d: InstData, func: &mut Function) -> (r: bool)
    requires
        pattern_input(old(func)@, inst, pos as int, d),
    ensures
        pattern_outcome(old(func)@, final(func)@, r, narrow_flags_iadd_spec(old(func)@, inst, pos as int, d)),
        final(func).encodings@ == old(func).encodings@,
        func_wf(final(func)@),
        r ==> final(func)@.0.len() > old(func)@.0.len(),
        keeps_before(old(func)@, final(func)@, inst, pos as int),
{
    proof {
        reveal(narrow_flags_iadd_spec);
    }
    let mut p = pos;
    let x = d.arg0;
    let y = d.arg1;
    let typeof_x = func.value_type(x);
    let predicate = true;
    let predicate = predicate && in_type_set(3, typeof_x);
    if predicate {
        let (xl, xh, k) = func.split_value(p, x);
        p = p + k;
        let (yl, yh, k) = func.split_value(p, y);
        p = p + k;
        let ty1 = func.value_type(xl);
        let (al, c) = func.ins(p, make_inst(Opcode::IaddIfcout, ty1, xl, yl, 0u32, 0i64, IntCC::Equal, TrapCode::User(0), 0u8, 0i32, 0u32, 0u32), None, None);
        p = p + 1;
        let ty2 = func.value_type(xh);
        let (ah, _r1) = func.ins(p, make_inst(Opcode::IaddIfcin, ty2, xh, yh, c, 0i64, IntCC::Equal, TrapCode::User(0), 0u8, 0i32, 0u32, 0u32), None, None);
        p = p + 1;
        let ty3 = func.value_type(al);
        func.replace(inst, make_inst(Opcode::Iconcat, ty3, al, ah, 0u32, 0i64, IntCC::Equal, TrapCode::User(0), 0u8, 0i32, 0u32, 0u32));
        return true;
    }
    false
}

/// The function after the narrowing with flags of a `isub` instruction, or `None` where no pattern applies.
#[verifier::opaque]
pub open spec fn narrow_flags_isub_spec(v: FuncView, inst: Inst, pos: int, d: InstData) -> Option<FuncView> {
    let p = pos;
    let x = d.arg0;
    let y = d.arg1;
    let typeof_x = value_type_of(v, x);
    let predicate = true;
    let predicate = predicate && type_set_holds(3, typeof_x);
    if predicate {
        let (new0, new1, newk) = s_split_results(v, x);
        let v = s_split(v, p, x);
        let (xl, xh) = (new0, new1);
        let p = p + newk;
        let (new0, new1, newk) = s_split_results(v, y);
        let v = s_split(v, p, y);
        let (yl, yh) = (new0, new1);
        let p = p + newk;
        let (new0, new1) = s_ins_results(v, inst_of(Opcode::IsubIfbout, value_type_of(v, xl), xl, yl, 0u32, 0i64, IntCC::Equal, TrapCode::User(0), 0u8, 0i32, 0u32, 0u32), None, None);
        let v = s_ins(v, p, inst_of(Opcode::IsubIfbout, value_type_of(v, xl), xl, yl, 0u32, 0i64, IntCC::Equal, TrapCode::User(0), 0u8, 0i32, 0u32, 0u32), None, None);
        let (al, b) = (new0, new1);
        let p = p + 1;
        let (new0, new1) = s_ins_results(v, inst_of(Opcode::IsubIfbin, value_type_of(v, xh), xh, yh, b, 0i64, IntCC::Equal, TrapCode::User(0), 0u8, 0i32, 0u32, 0u32), None, None);
        let v = s_ins(v, p, inst_of(Opcode::IsubIfbin, value_type_of(v, xh), xh, yh, b, 0i64, IntCC::Equal, TrapCode::User(0), 0u8, 0i32, 0u32, 0u32), None, None);
        let (ah, _r1) = (new0, new1);
        let p = p + 1;
        let v = s_replace(v, inst, inst_of(Opcode::Iconcat, value_type_of(v, al), al, ah, 0u32, 0i64, IntCC::Equal, TrapCode::User(0), 0u8, 0i32, 0u32, 0u32));
        Some(v)
} else {
    None
}
}

/// Legalize a `isub` instruction by narrowing with flags.
fn narrow_flags_isub(inst: Inst, pos: usize, d: InstData, func: &mut Function) -> (r: bool)
    requires
        pattern_input(old(func)@, inst, pos as int, d),
    ensures
        pattern_outcome(old(func)@, final(func)@, r, narrow_flags_isub_spec(old(func)@, inst, pos as int, d)),
        final(func).encodings@ == old(func).encodings@,
        func_wf(final(func)@),
        r ==> final(func)@.0.len() > old(func)@.0.len(),
        keeps_before(old(func)@, final(func)@, inst, pos as int),
{
    proof {
        reveal(narrow_flags_isub_spec);
    }
    let mut p = pos;
    let x = d.arg0;
    let y = d.arg1;
    let typeof_x = func.value_type(x);
    let predicate = true;
    let predicate = predicate && in_type_set(3, typeof_x);
    if predicate {
        let (xl, xh, k) = func.split_value(p, x);
        p = p + k;
        let (yl, yh, k) = func.split_value(p, y);
        p = p + k;
        let ty1 = func.value_type(xl);
        let (al, b) = func.ins(p, make_inst(Opcode::IsubIfbout, ty1, xl, yl, 0u32, 0i64, IntCC::Equal, TrapCode::User(0), 0u8, 0i32, 0u32, 0u32), None, None);
        p = p + 1;
        let ty2 = func.value_type(xh);
        let (ah, _r1) = func.ins(p, make_inst(Opcode::IsubIfbin, ty2, xh, yh, b, 0i64, IntCC::Equal, TrapCode::User(0), 0u8, 0i32, 0u32, 0u32), None, None);
        p = p + 1;
        let ty3 = func.value_type(al);
        func.replace(inst, make_inst(Opcode::Iconcat, ty3, al, ah, 0u32, 0i64, IntCC::Equal, TrapCode::User(0), 0u8, 0i32, 0u32, 0u32));
        return true;
    }
    false
}

/// The function after the narrowing without flags of a `iadd` instruction, or `None` where no pattern applies.
#[verifier::opaque]
pub open spec fn narrow_no_flags_iadd_spec(v: FuncView, inst: Inst, pos: int, d: InstData) -> Option<FuncView> {
    let p = pos;
    let x = d.arg0;
    let y = d.arg1;
    let typeof_x = value_type_of(v, x);
    let predicate = true;
    let predicate = predicate && type_set_holds(3, typeof_x);
    if predicate {
        let (new0, new1, newk) = s_split_results(v, x);
        let v = s_split(v, p, x);
        let (xl, xh) = (new0, new1);
        let p = p + newk;
        let (new0, new1, newk) = s_split_results(v, y);
        let v = s_split(v, p, y);
        let (yl, yh) = (new0, new1);
        let p = p + newk;
        let (new0, new1) = s_ins_results(v, inst_of(Opcode::IaddCout, value_type_of(v, xl), xl, yl, 0u32, 0i64, IntCC::Equal, TrapCode::User(0), 0u8, 0i32, 0u32, 0u32), None, None);
        let v = s_ins(v, p, inst_of(Opcode::IaddCout, value_type_of(v, xl), xl, yl, 0u32, 0i64, IntCC::Equal, TrapCode::User(0), 0u8, 0i32, 0u32, 0u32), None, None);
        let (al, c) = (new0, new1);
        let p = p + 1;
        let (new0, new1) = s_ins_results(v, inst_of(Opcode::IaddCin, value_type_of(v, xh), xh, yh, c, 0i64, IntCC::Equal, TrapCode::User(0), 0u8, 0i32, 0u32, 0u32), None, None);
        let v = s_ins(v, p, inst_of(Opcode::IaddCin, value_type_of(v, xh), xh, yh, c, 0i64, IntCC::Equal, TrapCode::User(0), 0u8, 0i32, 0u32, 0u32), None, None);
        let (ah, _r1) = (new0, new1);
        let p = p + 1;
        let v = s_replace(v, inst, inst_of(Opcode::Iconcat, value_type_of(v, al), al, ah, 0u32, 0i64, IntCC::Equal, TrapCode::User(0), 0u8, 0i32, 0u32, 0u32));
        Some(v)
} else {
    None
}
}

/// Legalize a `iadd` instruction by narrowing without flags.
fn narrow_no_flags_iadd(inst: Inst, pos: usize, d: InstData, func: &mut Function) -> (r: bool)
    requires
        pattern_input(old(func)@, inst, pos as int, d),
    ensures
        pattern_outcome(old(func)@, final(func)@, r, narrow_no_flags_iadd_spec(old(func)@, inst, pos as int, d)),
        final(func).encodings@ == old(func).encodings@,
        func_wf(final(func)@),
        r ==> final(func)@.0.len() > old(func)@.0.len(),
        keeps_before(old(func)@, final(func)@, inst, pos as int),
{
    proof {
        reveal(narrow_no_flags_iadd_spec);
    }
    let mut p = pos;
    let x = d.arg0;
    let y = d.arg1;
    let typeof_x = func.value_type(x);
    let predicate = true;
    let predicate = predicate && in_type_set(3, typeof_x);
    if predicate {
        let (xl, xh, k) = func.split_value(p, x);
        p = p + k;
        let (yl, yh, k) = func.split_value(p, y);
        p = p + k;
        let ty1 = func.value_type(xl);
        let (al, c) = func.ins(p, make_inst(Opcode::IaddCout, ty1, xl, yl, 0u32, 0i64, IntCC::Equal, TrapCode::User(0), 0u8, 0i32, 0u32, 0u32), None, None);
        p = p + 1;
        let ty2 = func.value_type(xh);
        let (ah, _r1) = func.ins(p, make_inst(Opcode::IaddCin, ty2, xh, yh, c, 0i64, IntCC::Equal, TrapCode::User(0), 0u8, 0i32, 0u32, 0u32), None, None);
        p = p + 1;
        let ty3 = func.value_type(al);
        func.replace(inst, make_inst(Opcode::Iconcat, ty3, al, ah, 0u32, 0i64, IntCC::Equal, TrapCode::User(0), 0u8, 0i32, 0u32, 0u32));
        return true;
    }
    false
}

/// The function after the narrowing without flags of a `isub` instruction, or `None` where no pattern applies.
#[verifier::opaque]
pub open spec fn narrow_no_flags_isub_spec(v: FuncView, inst: Inst, pos: int, d: InstData) -> Option<FuncView> {
    let p = pos;
    let x = d.arg0;
    let y = d.arg1;
    let typeof_x = value_type_of(v, x);
    let predicate = true;
    let predicate = predicate && type_set_holds(3, typeof_x);
    if predicate {
        let (new0, new1, newk) = s_split_results(v, x);
        let v = s_split(v, p, x);
        let (xl, xh) = (new0, new1);
        let p = p + newk;
        let (new0, new1, newk) = s_split_results(v, y);
        let v = s_split(v, p, y);
        let (yl, yh) = (new0, new1);
        let p = p + newk;
        let (new0, new1) = s_ins_results(v, inst_of(Opcode::IsubBout, value_type_of(v, xl), xl, yl, 0u32, 0i64, IntCC::Equal, TrapCode::User(0), 0u8, 0i32, 0u32, 0u32), None, None);
        let v = s_ins(v, p, inst_of(Opcode::IsubBout, value_type_of(v, xl), xl, yl, 0u32, 0i64, IntCC::Equal, TrapCode::User(0), 0u8, 0i32, 0u32, 0u32), None, None);
        let (al, b) = (new0, new1);
        let p = p + 1;
        let (new0, new1) = s_ins_results(v, inst_of(Opcode::IsubBin, value_type_of(v, xh), xh, yh, b, 0i64, IntCC::Equal, TrapCode::User(0), 0u8, 0i32, 0u32, 0u32), None, None);
        let v = s_ins(v, p, inst_of(Opcode::IsubBin, value_type_of(v, xh), xh, yh, b, 0i64, IntCC::Equal, TrapCode::User(0), 0u8, 0i32, 0u32, 0u32), None, None);
        let (ah, _r1) = (new0, new1);
        let p = p + 1;
        let v = s_replace(v, inst, inst_of(Opcode::Iconcat, value_type_of(v, al), al, ah, 0u32, 0i64, IntCC::Equal, TrapCode::User(0), 0u8, 0i32, 0u32, 0u32));
        Some(v)
} else {
    None
}
}

/// Legalize a `isub` instruction by narrowing without flags.
fn narrow_no_flags_isub(inst: Inst, pos: usize, d: InstData, func: &mut Function) -> (r: bool)
    requires
        pattern_input(old(func)@, inst, pos as int, d),
    ensures
        pattern_outcome(old(func)@, final(func)@, r, narrow_no_flags_isub_spec(old(func)@, inst, pos as int, d)),
        final(func).encodings@ == old(func).encodings@,
        func_wf(final(func)@),
        r ==> final(func)@.0.len() > old(func)@.0.len(),
        keeps_before(old(func)@, final(func)@, inst, pos as int),
{
    proof {
        reveal(narrow_no_flags_isub_spec);
    }
    let mut p = pos;
    let x = d.arg0;
    let y = d.arg1;
    let typeof_x = func.value_type(x);
    let predicate = true;
    let predicate = predicate && in_type_set(3, typeof_x);
    if predicate {
        let (xl, xh, k) = func.split_value(p, x);
        p = p + k;
        let (yl, yh, k) = func.split_value(p, y);
        p = p + k;
        let ty1 = func.value_type(xl);
        let (al, b) = func.ins(p, make_inst(Opcode::IsubBout, ty1, xl, yl, 0u32, 0i64, IntCC::Equal, TrapCode::User(0), 0u8, 0i32, 0u32, 0u32), None, None);
        p = p + 1;
        let ty2 = func.value_type(xh);
        let (ah, _r1) = func.ins(p, make_inst(Opcode::IsubBin, ty2, xh, yh, b, 0i64, IntCC::Equal, TrapCode::User(0), 0u8, 0i32, 0u32, 0u32), None, None);
        p = p + 1;
        let ty3 = func.value_type(al);
        func.replace(inst, make_inst(Opcode::Iconcat, ty3, al, ah, 0u32, 0i64, IntCC::Equal, TrapCode::User(0), 0u8, 0i32, 0u32, 0u32));
        return true;
    }
    false
}

/// The function after legalizing `inst` by expansion, or `None` where no pattern applies.
pub open spec fn expand_spec(v: FuncView, inst: Inst, isa: IsaInfo) -> Option<FuncView> {
    let d = v.0[inst as int];
    let pos = inst_pos(v, inst);
    match d.opcode {
        Opcode::BandImm => expand_band_imm_spec(v, inst, pos, d),
        Opcode::BandNot => expand_band_not_spec(v, inst, pos, d),
        Opcode::Bitrev => expand_bitrev_spec(v, inst, pos, d),
        Opcode::Bnot => expand_bnot_spec(v, inst, pos, d),
        Opcode::BorImm => expand_bor_imm_spec(v, inst, pos, d),
        Opcode::BorNot => expand_bor_not_spec(v, inst, pos, d),
        Opcode::BxorImm => expand_bxor_imm_spec(v, inst, pos, d),
        Opcode::BxorNot => expand_bxor_not_spec(v, inst, pos, d),
        Opcode::Fabs => expand_fabs_spec(v, inst, pos, d),
        Opcode::Fcopysign => expand_fcopysign_spec(v, inst, pos, d),
        Opcode::FcvtFromSint => expand_fcvt_from_sint_spec(v, inst, pos, d),
        Opcode::Fneg => expand_fneg_spec(v, inst, pos, d),
        Opcode::IaddCarry => expand_iadd_carry_spec(v, inst, pos, d),
        Opcode::IaddCin => expand_iadd_cin_spec(v, inst, pos, d),
        Opcode::IaddCout => expand_iadd_cout_spec(v, inst, pos, d),
        Opcode::IaddImm => expand_iadd_imm_spec(v, inst, pos, d),
        Opcode::IntCompareImm => expand_int_compare_imm_spec(v, inst, pos, d),
        Opcode::IntFlagsCompareImm => expand_int_flags_compare_imm_spec(v, inst, pos, d),
        Opcode::ImulImm => expand_imul_imm_spec(v, inst, pos, d),
        Opcode::IrsubImm => expand_irsub_imm_spec(v, inst, pos, d),
        Opcode::IshlImm => expand_ishl_imm_spec(v, inst, pos, d),
        Opcode::IsubBin => expand_isub_bin_spec(v, inst, pos, d),
        Opcode::IsubBorrow => expand_isub_borrow_spec(v, inst, pos, d),
        Opcode::IsubBout => expand_isub_bout_spec(v, inst, pos, d),
        Opcode::RotlImm => expand_rotl_imm_spec(v, inst, pos, d),
        Opcode::RotrImm => expand_rotr_imm_spec(v, inst, pos, d),
        Opcode::SdivImm => expand_sdiv_imm_spec(v, inst, pos, d),
        Opcode::SremImm => expand_srem_imm_spec(v, inst, pos, d),
        Opcode::SshrImm => expand_sshr_imm_spec(v, inst, pos, d),
        Opcode::UdivImm => expand_udiv_imm_spec(v, inst, pos, d),
        Opcode::UremImm => expand_urem_imm_spec(v, inst, pos, d),
        Opcode::UshrImm => expand_ushr_imm_spec(v, inst, pos, d),
        Opcode::BrIntCompare => expand_br_int_compare_spec(v, inst, pos, d),
        Opcode::BrTable => expand_br_table_spec(v, inst, pos, d, isa),
        Opcode::F32const => expand_fconst_spec(v, inst, pos, d),
        Opcode::F64const => expand_fconst_spec(v, inst, pos, d),
        Opcode::Select => expand_select_spec(v, inst, pos, d),
        Opcode::StackLoad => expand_stack_load_spec(v, inst, pos, d, isa),
        Opcode::StackStore => expand_stack_store_spec(v, inst, pos, d, isa),
        Opcode::Trapnz => expand_cond_trap_spec(v, inst, pos, d),
        Opcode::Trapz => expand_cond_trap_spec(v, inst, pos, d),
        _ => None,
    }
}

/// Legalize instructions by expansion: rewrite an instruction in terms of other instructions,
/// generally operating on the same types as the original instruction.
pub fn expand(inst: Inst, func: &mut Function, isa: &IsaInfo) -> (r: bool)
    requires
        legalizable(old(func)@, inst),
        expansion_in_model(old(func)@.0[inst as int].opcode),
    ensures
        pattern_outcome(old(func)@, final(func)@, r, expand_spec(old(func)@, inst, *isa)),
        final(func).encodings@ == old(func).encodings@,
        func_wf(final(func)@),
        r ==> final(func)@.0.len() > old(func)@.0.len(),
        keeps_before(old(func)@, final(func)@, inst, inst_pos(old(func)@, inst)),
{
    let d = func.inst_data(inst);
    let pos = func.position(inst);
    match d.opcode {
        Opcode::BandImm => expand_band_imm(inst, pos, d, func),
        Opcode::BandNot => expand_band_not(inst, pos, d, func),
        Opcode::Bitrev => expand_bitrev(inst, pos, d, func),
        Opcode::Bnot => expand_bnot(inst, pos, d, func),
        Opcode::BorImm => expand_bor_imm(inst, pos, d, func),
        Opcode::BorNot => expand_bor_not(inst, pos, d, func),
        Opcode::BxorImm => expand_bxor_imm(inst, pos, d, func),
        Opcode::BxorNot => expand_bxor_not(inst, pos, d, func),
        Opcode::Fabs => expand_fabs(inst, pos, d, func),
        Opcode::Fcopysign => expand_fcopysign(inst, pos, d, func),
        Opcode::FcvtFromSint => expand_fcvt_from_sint(inst, pos, d, func),
        Opcode::Fneg => expand_fneg(inst, pos, d, func),
        Opcode::IaddCarry => expand_iadd_carry(inst, pos, d, func),
        Opcode::IaddCin => expand_iadd_cin(inst, pos, d, func),
        Opcode::IaddCout => expand_iadd_cout(inst, pos, d, func),
        Opcode::IaddImm => expand_iadd_imm(inst, pos, d, func),
        Opcode::IntCompareImm => expand_int_compare_imm(inst, pos, d, func),
        Opcode::IntFlagsCompareImm => expand_int_flags_compare_imm(inst, pos, d, func),
        Opcode::ImulImm => expand_imul_imm(inst, pos, d, func),
        Opcode::IrsubImm => expand_irsub_imm(inst, pos, d, func),
        Opcode::IshlImm => expand_ishl_imm(inst, pos, d, func),
        Opcode::IsubBin => expand_isub_bin(inst, pos, d, func),
        Opcode::IsubBorrow => expand_isub_borrow(inst, pos, d, func),
        Opcode::IsubBout => expand_isub_bout(inst, pos, d, func),
        Opcode::RotlImm => expand_rotl_imm(inst, pos, d, func),
        Opcode::RotrImm => expand_rotr_imm(inst, pos, d, func),
        Opcode::SdivImm => expand_sdiv_imm(inst, pos, d, func),
        Opcode::SremImm => expand_srem_imm(inst, pos, d, func),
        Opcode::SshrImm => expand_sshr_imm(inst, pos, d, func),
        Opcode::UdivImm => expand_udiv_imm(inst, pos, d, func),
        Opcode::UremImm => expand_urem_imm(inst, pos, d, func),
        Opcode::UshrImm => expand_ushr_imm(inst, pos, d, func),
        Opcode::BrIntCompare => expand_br_int_compare(inst, pos, d, func),
        Opcode::BrTable => expand_br_table(inst, pos, d, func, isa),
        Opcode::F32const => expand_fconst(inst, pos, d, func),
        Opcode::F64const => expand_fconst(inst, pos, d, func),
        Opcode::Select => expand_select(inst, pos, d, func),
        Opcode::StackLoad => expand_stack_load(inst, pos, d, func, isa),
        Opcode::StackStore => expand_stack_store(inst, pos, d, func, isa),
        Opcode::Trapnz => expand_cond_trap(inst, pos, d, func),
        Opcode::Trapz => expand_cond_trap(inst, pos, d, func),
        _ => false,
    }
}

/// The function after legalizing `inst` by expansion with flags, or `None` where no pattern applies.
pub open spec fn expand_flags_spec(v: FuncView, inst: Inst, isa: IsaInfo) -> Option<FuncView> {
    let d = v.0[inst as int];
    let pos = inst_pos(v, inst);
    match d.opcode {
        Opcode::Trapnz => match expand_flags_trapnz_spec(v, inst, pos, d) {
            Some(w) => Some(w),
            None => expand_spec(v, inst, isa),
        },
        Opcode::Trapz => match expand_flags_trapz_spec(v, inst, pos, d) {
            Some(w) => Some(w),
            None => expand_spec(v, inst, isa),
        },
        _ => expand_spec(v, inst, isa),
    }
}

/// Legalize instructions by expansion, using CPU flags for conditional traps; other
/// instructions are expanded as `expand` does.
pub fn expand_flags(inst: Inst, func: &mut Function, isa: &IsaInfo) -> (r: bool)
    requires
        legalizable(old(func)@, inst),
        expansion_with_flags_in_model(old(func)@, inst),
    ensures
        pattern_outcome(old(func)@, final(func)@, r, expand_flags_spec(old(func)@, inst, *isa)),
        final(func).encodings@ == old(func).encodings@,
        func_wf(final(func)@),
        r ==> final(func)@.0.len() > old(func)@.0.len(),
        keeps_before(old(func)@, final(func)@, inst, inst_pos(old(func)@, inst)),
{
    proof {
        reveal(expand_flags_trapnz_spec);
        reveal(expand_flags_trapz_spec);
    }
    let d = func.inst_data(inst);
    let pos = func.position(inst);
    match d.opcode {
        Opcode::Trapnz => {
            if expand_flags_trapnz(inst, pos, d, func) {
                true
            } else {
                expand(inst, func, isa)
            }
        },
        Opcode::Trapz => {
            if expand_flags_trapz(inst, pos, d, func) {
                true
            } else {
                expand(inst, func, isa)
            }
        },
        _ => expand(inst, func, isa),
    }
}

/// The function after legalizing `inst` by narrowing, or `None` where no pattern applies.
pub open spec fn narrow_spec(v: FuncView, inst: Inst, isa: IsaInfo) -> Option<FuncView> {
    let d = v.0[inst as int];
    let pos = inst_pos(v, inst);
    match d.opcode {
        Opcode::Band => narrow_band_spec(v, inst, pos, d),
        Opcode::BandNot => narrow_band_not_spec(v, inst, pos, d),
        Opcode::Bnot => narrow_bnot_spec(v, inst, pos, d),
        Opcode::Bor => narrow_bor_spec(v, inst, pos, d),
        Opcode::BorNot => narrow_bor_not_spec(v, inst, pos, d),
        Opcode::Brnz => narrow_brnz_spec(v, inst, pos, d),
        Opcode::Brz => narrow_brz_spec(v, inst, pos, d),
        Opcode::Bxor => narrow_bxor_spec(v, inst, pos, d),
        Opcode::BxorNot => narrow_bxor_not_spec(v, inst, pos, d),
        Opcode::IntCompare => narrow_int_compare_spec(v, inst, pos, d),
        Opcode::Imul => narrow_imul_spec(v, inst, pos, d),
        Opcode::Select => narrow_select_spec(v, inst, pos, d),
        Opcode::IntCompareImm => narrow_int_compare_imm_spec(v, inst, pos, d),
        Opcode::Iconst => narrow_iconst_spec(v, inst, pos, d),
        Opcode::Load => narrow_load_spec(v, inst, pos, d),
        Opcode::Store => narrow_store_spec(v, inst, pos, d),
        _ => None,
    }
}

/// Legalize instructions by narrowing: express operations on wide integer types in terms of
/// their halves.
pub fn narrow(inst: Inst, func: &mut Function, isa: &IsaInfo) -> (r: bool)
    requires
        legalizable(old(func)@, inst),
        narrowing_in_model(old(func)@, inst, isa.pointer_type),
    ensures
        pattern_outcome(old(func)@, final(func)@, r, narrow_spec(old(func)@, inst, *isa)),
        final(func).encodings@ == old(func).encodings@,
        func_wf(final(func)@),
        r ==> final(func)@.0.len() > old(func)@.0.len(),
        keeps_before(old(func)@, final(func)@, inst, inst_pos(old(func)@, inst)),
{
    let d = func.inst_data(inst);
    let pos = func.position(inst);
    match d.opcode {
        Opcode::Band => narrow_band(inst, pos, d, func),
        Opcode::BandNot => narrow_band_not(inst, pos, d, func),
        Opcode::Bnot => narrow_bnot(inst, pos, d, func),
        Opcode::Bor => narrow_bor(inst, pos, d, func),
        Opcode::BorNot => narrow_bor_not(inst, pos, d, func),
        Opcode::Brnz => narrow_brnz(inst, pos, d, func),
        Opcode::Brz => narrow_brz(inst, pos, d, func),
        Opcode::Bxor => narrow_bxor(inst, pos, d, func),
        Opcode::BxorNot => narrow_bxor_not(inst, pos, d, func),
        Opcode::IntCompare => narrow_int_compare(inst, pos, d, func),
        Opcode::Imul => narrow_imul(inst, pos, d, func),
        Opcode::Select => narrow_select(inst, pos, d, func),
        Opcode::IntCompareImm => narrow_int_compare_imm(inst, pos, d, func),
        Opcode::Iconst => narrow_iconst(inst, pos, d, func),
        Opcode::Load => narrow_load(inst, pos, d, func),
        Opcode::Store => narrow_store(inst, pos, d, func),
        _ => false,
    }
}

/// The function after legalizing `inst` by narrowing with flags, or `None` where no pattern applies.
pub open spec fn narrow_flags_spec(v: FuncView, inst: Inst, isa: IsaInfo) -> Option<FuncView> {
    let d = v.0[inst as int];
    let pos = inst_pos(v, inst);
    match d.opcode {
        Opcode::Iadd => match narrow_flags_iadd_spec(v, inst, pos, d) {
            Some(w) => Some(w),
            None => narrow_spec(v, inst, isa),
        },
        Opcode::Isub => match narrow_flags_isub_spec(v, inst, pos, d) {
            Some(w) => Some(w),
            None => narrow_spec(v, inst, isa),
        },
        _ => narrow_spec(v, inst, isa),
    }
}

/// Legalize instructions by narrowing, carrying through CPU flags; other instructions are
/// narrowed as `narrow` does.
pub fn narrow_flags(inst: Inst, func: &mut Function, isa: &IsaInfo) -> (r: bool)
    requires
        legalizable(old(func)@, inst),
        narrowing_in_model(old(func)@, inst, isa.pointer_type),
    ensures
        pattern_outcome(old(func)@, final(func)@, r, narrow_flags_spec(old(func)@, inst, *isa)),
        final(func).encodings@ == old(func).encodings@,
        func_wf(final(func)@),
        r ==> final(func)@.0.len() > old(func)@.0.len(),
        keeps_before(old(func)@, final(func)@, inst, inst_pos(old(func)@, inst)),
{
    proof {
        reveal(narrow_flags_iadd_spec);
        reveal(narrow_flags_isub_spec);
    }
    let d = func.inst_data(inst);
    let pos = func.position(inst);
    match d.opcode {
        Opcode::Iadd => {
            if narrow_flags_iadd(inst, pos, d, func) {
                true
            } else {
                narrow(inst, func, isa)
            }
        },
        Opcode::Isub => {
            if narrow_flags_isub(inst, pos, d, func) {
                true
            } else {
                narrow(inst, func, isa)
            }
        },
        _ => narrow(inst, func, isa),
    }
}

/// The function after legalizing `inst` by narrowing without flags, or `None` where no pattern applies.
pub open spec fn narrow_no_flags_spec(v: FuncView, inst: Inst, isa: IsaInfo) -> Option<FuncView> {
    let d = v.0[inst as int];
    let pos = inst_pos(v, inst);
    match d.opcode {
        Opcode::Iadd => match narrow_no_flags_iadd_spec(v, inst, pos, d) {
            Some(w) => Some(w),
            None => narrow_spec(v, inst, isa),
        },
        Opcode::Isub => match narrow_no_flags_isub_spec(v, inst, pos, d) {
            Some(w) => Some(w),
            None => narrow_spec(v, inst, isa),
        },
        _ => narrow_spec(v, inst, isa),
    }
}

/// Legalize instructions by narrowing, carrying through boolean carries; other instructions
/// are narrowed as `narrow` does.
pub fn narrow_no_flags(inst: Inst, func: &mut Function, isa: &IsaInfo) -> (r: bool)
    requires
        legalizable(old(func)@, inst),
        narrowing_in_model(old(func)@, inst, isa.pointer_type),
    ensures
        pattern_outcome(old(func)@, final(func)@, r, narrow_no_flags_spec(old(func)@, inst, *isa)),
        final(func).encodings@ == old(func).encodings@,
        func_wf(final(func)@),
        r ==> final(func)@.0.len() > old(func)@.0.len(),
        keeps_before(old(func)@, final(func)@, inst, inst_pos(old(func)@, inst)),
{
    proof {
        reveal(narrow_no_flags_iadd_spec);
        reveal(narrow_no_flags_isub_spec);
    }
    let d = func.inst_data(inst);
    let pos = func.position(inst);
    match d.opcode {
        Opcode::Iadd => {
            if narrow_no_flags_iadd(inst, pos, d, func) {
                true
            } else {
                narrow(inst, func, isa)
            }
        },
        Opcode::Isub => {
            if narrow_no_flags_isub(inst, pos, d, func) {
                true
            } else {
                narrow(inst, func, isa)
            }
        },
        _ => narrow(inst, func, isa),
    }
}

/// The function after legalizing `inst` by widening, or `None` where no pattern applies.
pub open spec fn widen_spec(v: FuncView, inst: Inst, isa: IsaInfo) -> Option<FuncView> {
    let d = v.0[inst as int];
    let pos = inst_pos(v, inst);
    match d.opcode {
        Opcode::Band => widen_band_spec(v, inst, pos, d),
        Opcode::BandImm => widen_band_imm_spec(v, inst, pos, d),
        Opcode::BandNot => widen_band_not_spec(v, inst, pos, d),
        Opcode::Bint => widen_bint_spec(v, inst, pos, d),
        Opcode::Bitrev => widen_bitrev_spec(v, inst, pos, d),
        Opcode::Bnot => widen_bnot_spec(v, inst, pos, d),
        Opcode::Bor => widen_bor_spec(v, inst, pos, d),
        Opcode::BorImm => widen_bor_imm_spec(v, inst, pos, d),
        Opcode::BorNot => widen_bor_not_spec(v, inst, pos, d),
        Opcode::BrTable => widen_br_table_spec(v, inst, pos, d),
        Opcode::Bxor => widen_bxor_spec(v, inst, pos, d),
        Opcode::BxorImm => widen_bxor_imm_spec(v, inst, pos, d),
        Opcode::BxorNot => widen_bxor_not_spec(v, inst, pos, d),
        Opcode::Cls => widen_cls_spec(v, inst, pos, d),
        Opcode::Clz => widen_clz_spec(v, inst, pos, d),
        Opcode::Ctz => widen_ctz_spec(v, inst, pos, d),
        Opcode::Iadd => widen_iadd_spec(v, inst, pos, d),
        Opcode::IaddImm => widen_iadd_imm_spec(v, inst, pos, d),
        Opcode::IntCompare => widen_int_compare_spec(v, inst, pos, d),
        Opcode::IntCompareImm => widen_int_compare_imm_spec(v, inst, pos, d),
        Opcode::Iconst => widen_iconst_spec(v, inst, pos, d),
        Opcode::Imul => widen_imul_spec(v, inst, pos, d),
        Opcode::ImulImm => widen_imul_imm_spec(v, inst, pos, d),
        Opcode::IrsubImm => widen_irsub_imm_spec(v, inst, pos, d),
        Opcode::Ishl => widen_ishl_spec(v, inst, pos, d),
        Opcode::IshlImm => widen_ishl_imm_spec(v, inst, pos, d),
        Opcode::Isub => widen_isub_spec(v, inst, pos, d),
        Opcode::Load => widen_load_spec(v, inst, pos, d),
        Opcode::Popcnt => widen_popcnt_spec(v, inst, pos, d),
        Opcode::Sdiv => widen_sdiv_spec(v, inst, pos, d),
        Opcode::SdivImm => widen_sdiv_imm_spec(v, inst, pos, d),
        Opcode::Sextend => widen_sextend_spec(v, inst, pos, d),
        Opcode::Srem => widen_srem_spec(v, inst, pos, d),
        Opcode::SremImm => widen_srem_imm_spec(v, inst, pos, d),
        Opcode::Sshr => widen_sshr_spec(v, inst, pos, d),
        Opcode::SshrImm => widen_sshr_imm_spec(v, inst, pos, d),
        Opcode::Store => widen_store_spec(v, inst, pos, d),
        Opcode::Udiv => widen_udiv_spec(v, inst, pos, d),
        Opcode::UdivImm => widen_udiv_imm_spec(v, inst, pos, d),
        Opcode::Uextend => widen_uextend_spec(v, inst, pos, d),
        Opcode::Urem => widen_urem_spec(v, inst, pos, d),
        Opcode::UremImm => widen_urem_imm_spec(v, inst, pos, d),
        Opcode::Ushr => widen_ushr_spec(v, inst, pos, d),
        Opcode::UshrImm => widen_ushr_imm_spec(v, inst, pos, d),
        _ => None,
    }
}

/// Legalize instructions by widening: express operations on narrow integer types in terms of
/// wider types.
pub fn widen(inst: Inst, func: &mut Function, isa: &IsaInfo) -> (r: bool)
    requires
        legalizable(old(func)@, inst),
    ensures
        pattern_outcome(old(func)@, final(func)@, r, widen_spec(old(func)@, inst, *isa)),
        final(func).encodings@ == old(func).encodings@,
        func_wf(final(func)@),
        r ==> final(func)@.0.len() > old(func)@.0.len(),
        keeps_before(old(func)@, final(func)@, inst, inst_pos(old(func)@, inst)),
{
    let d = func.inst_data(inst);
    let pos = func.position(inst);
    match d.opcode {
        Opcode::Band => widen_band(inst, pos, d, func),
        Opcode::BandImm => widen_band_imm(inst, pos, d, func),
        Opcode::BandNot => widen_band_not(inst, pos, d, func),
        Opcode::Bint => widen_bint(inst, pos, d, func),
        Opcode::Bitrev => widen_bitrev(inst, pos, d, func),
        Opcode::Bnot => widen_bnot(inst, pos, d, func),
        Opcode::Bor => widen_bor(inst, pos, d, func),
        Opcode::BorImm => widen_bor_imm(inst, pos, d, func),
        Opcode::BorNot => widen_bor_not(inst, pos, d, func),
        Opcode::BrTable => widen_br_table(inst, pos, d, func),
        Opcode::Bxor => widen_bxor(inst, pos, d, func),
        Opcode::BxorImm => widen_bxor_imm(inst, pos, d, func),
        Opcode::BxorNot => widen_bxor_not(inst, pos, d, func),
        Opcode::Cls => widen_cls(inst, pos, d, func),
        Opcode::Clz => widen_clz(inst, pos, d, func),
        Opcode::Ctz => widen_ctz(inst, pos, d, func),
        Opcode::Iadd => widen_iadd(inst, pos, d, func),
        Opcode::IaddImm => widen_iadd_imm(inst, pos, d, func),
        Opcode::IntCompare => widen_int_compare(inst, pos, d, func),
        Opcode::IntCompareImm => widen_int_compare_imm(inst, pos, d, func),
        Opcode::Iconst => widen_iconst(inst, pos, d, func),
        Opcode::Imul => widen_imul(inst, pos, d, func),
        Opcode::ImulImm => widen_imul_imm(inst, pos, d, func),
        Opcode::IrsubImm => widen_irsub_imm(inst, pos, d, func),
        Opcode::Ishl => widen_ishl(inst, pos, d, func),
        Opcode::IshlImm => widen_ishl_imm(inst, pos, d, func),
        Opcode::Isub => widen_isub(inst, pos, d, func),
        Opcode::Load => widen_load(inst, pos, d, func),
        Opcode::Popcnt => widen_popcnt(inst, pos, d, func),
        Opcode::Sdiv => widen_sdiv(inst, pos, d, func),
        Opcode::SdivImm => widen_sdiv_imm(inst, pos, d, func),
        Opcode::Sextend => widen_sextend(inst, pos, d, func),
        Opcode::Srem => widen_srem(inst, pos, d, func),
        Opcode::SremImm => widen_srem_imm(inst, pos, d, func),
        Opcode::Sshr => widen_sshr(inst, pos, d, func),
        Opcode::SshrImm => widen_sshr_imm(inst, pos, d, func),
        Opcode::Store => widen_store(inst, pos, d, func),
        Opcode::Udiv => widen_udiv(inst, pos, d, func),
        Opcode::UdivImm => widen_udiv_imm(inst, pos, d, func),
        Opcode::Uextend => widen_uextend(inst, pos, d, func),
        Opcode::Urem => widen_urem(inst, pos, d, func),
        Opcode::UremImm => widen_urem_imm(inst, pos, d, func),
        Opcode::Ushr => widen_ushr(inst, pos, d, func),
        Opcode::UshrImm => widen_ushr_imm(inst, pos, d, func),
        _ => false,
    }
}

} // verus!
