//! ARM32 register descriptions.

use vstd::prelude::*;
use crate::isa::registers::{
    bank_contains, bank_index_of, bank_names, bank_parse, info_parse, law_display_parse_round_trip,
    prefix_distinguishes, regunit_text, class_contains, lemma_mask_bits, RegBank, RegClassData, RegInfo, RegUnit,
};
use crate::text::{decimal, position};

verus! {

/// The register banks of this ISA, as their fields read.
pub open spec fn banks_spec(banks: Seq<RegBank>) -> bool {
    &&& banks.len() == 3
    &&& banks[0].first_unit == 0
    &&& banks[0].units == 64
    &&& banks[0].prefix@ == seq!['s']
    &&& bank_names(banks[0]) == Seq::<Seq<char>>::empty()
    &&& banks[1].first_unit == 64
    &&& banks[1].units == 16
    &&& banks[1].prefix@ == seq!['r']
    &&& bank_names(banks[1]) == Seq::<Seq<char>>::empty()
    &&& banks[2].first_unit == 80
    &&& banks[2].units == 1
    &&& banks[2].prefix@ == Seq::<char>::empty()
    &&& bank_names(banks[2]) == seq![seq!['n', 'z', 'c', 'v']]
}

/// The register description of this ISA.
pub fn info() -> (r: RegInfo)
    ensures
        r.wf(),
        banks_spec(r.banks@),
{
    proof {
        reveal_strlit("");
        reveal_strlit("FlagRegs");
        reveal_strlit("FloatRegs");
        reveal_strlit("IntRegs");
        reveal_strlit("nzcv");
        reveal_strlit("r");
        reveal_strlit("s");
    }
    let banks = vec![
        RegBank {
            name: "FloatRegs",
            first_unit: 0,
            units: 64,
            names: Vec::new(),
            prefix: "s",
            first_toprc: 0,
            num_toprcs: 3,
            pressure_tracking: true,
        },
        RegBank {
            name: "IntRegs",
            first_unit: 64,
            units: 16,
            names: Vec::new(),
            prefix: "r",
            first_toprc: 3,
            num_toprcs: 1,
            pressure_tracking: true,
        },
        RegBank {
            name: "FlagRegs",
            first_unit: 80,
            units: 1,
            names: vec!["nzcv"],
            prefix: "",
            first_toprc: 4,
            num_toprcs: 1,
            pressure_tracking: false,
        },
    ];
    let classes = vec![s_data(), d_data(), q_data(), gpr_data(), flag_data()];
    let r = RegInfo { banks, classes };
    proof {
        assert(r.banks@[0].prefix@ =~= seq!['s']);
        assert(bank_names(r.banks@[0]) =~= Seq::<Seq<char>>::empty());
        assert(r.banks@[1].prefix@ =~= seq!['r']);
        assert(bank_names(r.banks@[1]) =~= Seq::<Seq<char>>::empty());
        assert(r.banks@[2].prefix@ =~= Seq::<char>::empty());
        assert(r.banks@[2].names@[0]@ =~= seq!['n', 'z', 'c', 'v']);
        assert(bank_names(r.banks@[2]) =~= seq![seq!['n', 'z', 'c', 'v']]);
        assert(forall|i: int| 0 <= i < r.banks@.len() ==> #[trigger] r.banks@[i].wf());
    }
    r
}

/// Register class `S`.
pub fn s_data() -> (r: RegClassData)
    ensures
        r.index == 0,
        r.width == 1,
        r.first == 0,
        r.mask == [0xffffffffu32, 0x00000000, 0x00000000],
{
    RegClassData {
        name: "S",
        index: 0,
        width: 1,
        bank: 0,
        toprc: 0,
        first: 0,
        subclasses: 0x1,
        mask: [0xffffffff, 0x00000000, 0x00000000],
        pinned_reg: None,
    }
}

/// Register class `D`.
pub fn d_data() -> (r: RegClassData)
    ensures
        r.index == 1,
        r.width == 2,
        r.first == 0,
        r.mask == [0x55555555u32, 0x55555555, 0x00000000],
{
    RegClassData {
        name: "D",
        index: 1,
        width: 2,
        bank: 0,
        toprc: 1,
        first: 0,
        subclasses: 0x2,
        mask: [0x55555555, 0x55555555, 0x00000000],
        pinned_reg: None,
    }
}

/// Register class `Q`.
pub fn q_data() -> (r: RegClassData)
    ensures
        r.index == 2,
        r.width == 4,
        r.first == 0,
        r.mask == [0x11111111u32, 0x11111111, 0x00000000],
{
    RegClassData {
        name: "Q",
        index: 2,
        width: 4,
        bank: 0,
        toprc: 2,
        first: 0,
        subclasses: 0x4,
        mask: [0x11111111, 0x11111111, 0x00000000],
        pinned_reg: None,
    }
}

/// Register class `GPR`.
pub fn gpr_data() -> (r: RegClassData)
    ensures
        r.index == 3,
        r.width == 1,
        r.first == 64,
        r.mask == [0x00000000u32, 0x00000000, 0x0000ffff],
{
    RegClassData {
        name: "GPR",
        index: 3,
        width: 1,
        bank: 1,
        toprc: 3,
        first: 64,
        subclasses: 0x8,
        mask: [0x00000000, 0x00000000, 0x0000ffff],
        pinned_reg: None,
    }
}

/// Register class `FLAG`.
pub fn flag_data() -> (r: RegClassData)
    ensures
        r.index == 4,
        r.width == 1,
        r.first == 80,
        r.mask == [0x00000000u32, 0x00000000, 0x00010000],
{
    RegClassData {
        name: "FLAG",
        index: 4,
        width: 1,
        bank: 2,
        toprc: 4,
        first: 80,
        subclasses: 0x10,
        mask: [0x00000000, 0x00000000, 0x00010000],
        pinned_reg: None,
    }
}

/// The register units of this ISA, by name.
#[allow(non_camel_case_types)]
#[derive(Clone, Copy, PartialEq, Eq, Structural)]
pub enum RU {
    s0,
    s1,
    s2,
    s3,
    s4,
    s5,
    s6,
    s7,
    s8,
    s9,
    s10,
    s11,
    s12,
    s13,
    s14,
    s15,
    s16,
    s17,
    s18,
    s19,
    s20,
    s21,
    s22,
    s23,
    s24,
    s25,
    s26,
    s27,
    s28,
    s29,
    s30,
    s31,
    s32,
    s33,
    s34,
    s35,
    s36,
    s37,
    s38,
    s39,
    s40,
    s41,
    s42,
    s43,
    s44,
    s45,
    s46,
    s47,
    s48,
    s49,
    s50,
    s51,
    s52,
    s53,
    s54,
    s55,
    s56,
    s57,
    s58,
    s59,
    s60,
    s61,
    s62,
    s63,
    r0,
    r1,
    r2,
    r3,
    r4,
    r5,
    r6,
    r7,
    r8,
    r9,
    r10,
    r11,
    r12,
    r13,
    r14,
    r15,
    nzcv,
}

impl RU {
    /// The register unit number.
    pub open spec fn unit(self) -> RegUnit {
        match self {
            RU::s0 => 0,
            RU::s1 => 1,
            RU::s2 => 2,
            RU::s3 => 3,
            RU::s4 => 4,
            RU::s5 => 5,
            RU::s6 => 6,
            RU::s7 => 7,
            RU::s8 => 8,
            RU::s9 => 9,
            RU::s10 => 10,
            RU::s11 => 11,
            RU::s12 => 12,
            RU::s13 => 13,
            RU::s14 => 14,
            RU::s15 => 15,
            RU::s16 => 16,
            RU::s17 => 17,
            RU::s18 => 18,
            RU::s19 => 19,
            RU::s20 => 20,
            RU::s21 => 21,
            RU::s22 => 22,
            RU::s23 => 23,
            RU::s24 => 24,
            RU::s25 => 25,
            RU::s26 => 26,
            RU::s27 => 27,
            RU::s28 => 28,
            RU::s29 => 29,
            RU::s30 => 30,
            RU::s31 => 31,
            RU::s32 => 32,
            RU::s33 => 33,
            RU::s34 => 34,
            RU::s35 => 35,
            RU::s36 => 36,
            RU::s37 => 37,
            RU::s38 => 38,
            RU::s39 => 39,
            RU::s40 => 40,
            RU::s41 => 41,
            RU::s42 => 42,
            RU::s43 => 43,
            RU::s44 => 44,
            RU::s45 => 45,
            RU::s46 => 46,
            RU::s47 => 47,
            RU::s48 => 48,
            RU::s49 => 49,
            RU::s50 => 50,
            RU::s51 => 51,
            RU::s52 => 52,
            RU::s53 => 53,
            RU::s54 => 54,
            RU::s55 => 55,
            RU::s56 => 56,
            RU::s57 => 57,
            RU::s58 => 58,
            RU::s59 => 59,
            RU::s60 => 60,
            RU::s61 => 61,
            RU::s62 => 62,
            RU::s63 => 63,
            RU::r0 => 64,
            RU::r1 => 65,
            RU::r2 => 66,
            RU::r3 => 67,
            RU::r4 => 68,
            RU::r5 => 69,
            RU::r6 => 70,
            RU::r7 => 71,
            RU::r8 => 72,
            RU::r9 => 73,
            RU::r10 => 74,
            RU::r11 => 75,
            RU::r12 => 76,
            RU::r13 => 77,
            RU::r14 => 78,
            RU::r15 => 79,
            RU::nzcv => 80,
        }
    }

    /// Convert to the register unit number.
    pub fn into(self) -> (r: RegUnit)
        ensures
            r == self.unit(),
    {
        match self {
            RU::s0 => 0,
            RU::s1 => 1,
            RU::s2 => 2,
            RU::s3 => 3,
            RU::s4 => 4,
            RU::s5 => 5,
            RU::s6 => 6,
            RU::s7 => 7,
            RU::s8 => 8,
            RU::s9 => 9,
            RU::s10 => 10,
            RU::s11 => 11,
            RU::s12 => 12,
            RU::s13 => 13,
            RU::s14 => 14,
            RU::s15 => 15,
            RU::s16 => 16,
            RU::s17 => 17,
            RU::s18 => 18,
            RU::s19 => 19,
            RU::s20 => 20,
            RU::s21 => 21,
            RU::s22 => 22,
            RU::s23 => 23,
            RU::s24 => 24,
            RU::s25 => 25,
            RU::s26 => 26,
            RU::s27 => 27,
            RU::s28 => 28,
            RU::s29 => 29,
            RU::s30 => 30,
            RU::s31 => 31,
            RU::s32 => 32,
            RU::s33 => 33,
            RU::s34 => 34,
            RU::s35 => 35,
            RU::s36 => 36,
            RU::s37 => 37,
            RU::s38 => 38,
            RU::s39 => 39,
            RU::s40 => 40,
            RU::s41 => 41,
            RU::s42 => 42,
            RU::s43 => 43,
            RU::s44 => 44,
            RU::s45 => 45,
            RU::s46 => 46,
            RU::s47 => 47,
            RU::s48 => 48,
            RU::s49 => 49,
            RU::s50 => 50,
            RU::s51 => 51,
            RU::s52 => 52,
            RU::s53 => 53,
            RU::s54 => 54,
            RU::s55 => 55,
            RU::s56 => 56,
            RU::s57 => 57,
            RU::s58 => 58,
            RU::s59 => 59,
            RU::s60 => 60,
            RU::s61 => 61,
            RU::s62 => 62,
            RU::s63 => 63,
            RU::r0 => 64,
            RU::r1 => 65,
            RU::r2 => 66,
            RU::r3 => 67,
            RU::r4 => 68,
            RU::r5 => 69,
            RU::r6 => 70,
            RU::r7 => 71,
            RU::r8 => 72,
            RU::r9 => 73,
            RU::r10 => 74,
            RU::r11 => 75,
            RU::r12 => 76,
            RU::r13 => 77,
            RU::r14 => 78,
            RU::r15 => 79,
            RU::nzcv => 80,
        }
    }
}

} // verus!

verus! {

/// Every register unit of this ISA is read back from the name it is displayed with (without
/// the `%` sigil); units outside every bank display as invalid.
pub proof fn law_regunit_names_round_trip(banks: Seq<RegBank>, ru: int)
    requires
        banks_spec(banks),
        0 <= ru < 81,
    ensures
        info_parse(banks, regunit_text(banks, ru).drop_first()) == Some(ru as nat),
{
    reveal_with_fuel(bank_index_of, 4);
    if 0 <= ru < 64 {
        assert(bank_index_of(banks, ru) == Some(0nat));
        assert(banks[0].wf());
        assert(banks[0].names@.len() == 0);
        assert(prefix_distinguishes(banks, 0));
        law_display_parse_round_trip(banks, ru);
    }
    if 64 <= ru < 80 {
        assert(bank_index_of(banks, ru) == Some(1nat));
        assert(banks[1].wf());
        assert(banks[1].names@.len() == 0);
        assert(prefix_distinguishes(banks, 1));
        law_display_parse_round_trip(banks, ru);
    }
    if 80 <= ru < 81 {
        assert(bank_index_of(banks, ru) == Some(2nat));
        reveal_strlit("%");
        let name = seq!['n', 'z', 'c', 'v'];
        assert(banks[2].names@.len() == 1);
        assert(banks[2].names@[0]@ == bank_names(banks[2])[0]);
        assert(regunit_text(banks, ru).drop_first() =~= name);
        reveal_with_fuel(info_parse, 4);
        reveal_with_fuel(position, 2);
        assert(bank_names(banks[0]).len() == 0);
        assert(!(name.subrange(0, 1) == banks[0].prefix@)) by { assert(name.subrange(0, 1)[0] != banks[0].prefix@[0]); }
        assert(bank_names(banks[1]).len() == 0);
        assert(!(name.subrange(0, 1) == banks[1].prefix@)) by { assert(name.subrange(0, 1)[0] != banks[1].prefix@[0]); }
        assert(bank_parse(banks[2], name) == Some(ru as nat));
        assert(banks.drop_first()[1] == banks[2]);
        assert(banks.drop_first().drop_first()[0] == banks[2]);
    }
}

} // verus!

verus! {

/// Register class `S` holds exactly the units with u < 32.
pub proof fn law_s_units(rc: RegClassData, u: int)
    requires
        rc.mask == [0xffffffffu32, 0x00000000, 0x00000000],
        0 <= u < 96,
    ensures
        class_contains(rc, u) == (u < 32),
{
    lemma_mask_bits((u % 32) as u32);
}

/// Register class `D` holds exactly the units with u < 64 && u % 2 == 0.
pub proof fn law_d_units(rc: RegClassData, u: int)
    requires
        rc.mask == [0x55555555u32, 0x55555555, 0x00000000],
        0 <= u < 96,
    ensures
        class_contains(rc, u) == (u < 64 && u % 2 == 0),
{
    lemma_mask_bits((u % 32) as u32);
}

/// Register class `Q` holds exactly the units with u < 64 && u % 4 == 0.
pub proof fn law_q_units(rc: RegClassData, u: int)
    requires
        rc.mask == [0x11111111u32, 0x11111111, 0x00000000],
        0 <= u < 96,
    ensures
        class_contains(rc, u) == (u < 64 && u % 4 == 0),
{
    lemma_mask_bits((u % 32) as u32);
}

/// Register class `GPR` holds exactly the units with 64 <= u < 80.
pub proof fn law_gpr_units(rc: RegClassData, u: int)
    requires
        rc.mask == [0x00000000u32, 0x00000000, 0x0000ffff],
        0 <= u < 96,
    ensures
        class_contains(rc, u) == (64 <= u < 80),
{
    lemma_mask_bits((u % 32) as u32);
}

/// Register class `FLAG` holds exactly the units with u == 80.
pub proof fn law_flag_units(rc: RegClassData, u: int)
    requires
        rc.mask == [0x00000000u32, 0x00000000, 0x00010000],
        0 <= u < 96,
    ensures
        class_contains(rc, u) == (u == 80),
{
    lemma_mask_bits((u % 32) as u32);
}

} // verus!

verus! {

/// The name a register unit variant carries.
pub open spec fn ru_name(r: RU) -> Seq<char> {
    match r {
        RU::s0 => seq!['s', '0'],
        RU::s1 => seq!['s', '1'],
        RU::s2 => seq!['s', '2'],
        RU::s3 => seq!['s', '3'],
        RU::s4 => seq!['s', '4'],
        RU::s5 => seq!['s', '5'],
        RU::s6 => seq!['s', '6'],
        RU::s7 => seq!['s', '7'],
        RU::s8 => seq!['s', '8'],
        RU::s9 => seq!['s', '9'],
        RU::s10 => seq!['s', '1', '0'],
        RU::s11 => seq!['s', '1', '1'],
        RU::s12 => seq!['s', '1', '2'],
        RU::s13 => seq!['s', '1', '3'],
        RU::s14 => seq!['s', '1', '4'],
        RU::s15 => seq!['s', '1', '5'],
        RU::s16 => seq!['s', '1', '6'],
        RU::s17 => seq!['s', '1', '7'],
        RU::s18 => seq!['s', '1', '8'],
        RU::s19 => seq!['s', '1', '9'],
        RU::s20 => seq!['s', '2', '0'],
        RU::s21 => seq!['s', '2', '1'],
        RU::s22 => seq!['s', '2', '2'],
        RU::s23 => seq!['s', '2', '3'],
        RU::s24 => seq!['s', '2', '4'],
        RU::s25 => seq!['s', '2', '5'],
        RU::s26 => seq!['s', '2', '6'],
        RU::s27 => seq!['s', '2', '7'],
        RU::s28 => seq!['s', '2', '8'],
        RU::s29 => seq!['s', '2', '9'],
        RU::s30 => seq!['s', '3', '0'],
        RU::s31 => seq!['s', '3', '1'],
        RU::s32 => seq!['s', '3', '2'],
        RU::s33 => seq!['s', '3', '3'],
        RU::s34 => seq!['s', '3', '4'],
        RU::s35 => seq!['s', '3', '5'],
        RU::s36 => seq!['s', '3', '6'],
        RU::s37 => seq!['s', '3', '7'],
        RU::s38 => seq!['s', '3', '8'],
        RU::s39 => seq!['s', '3', '9'],
        RU::s40 => seq!['s', '4', '0'],
        RU::s41 => seq!['s', '4', '1'],
        RU::s42 => seq!['s', '4', '2'],
        RU::s43 => seq!['s', '4', '3'],
        RU::s44 => seq!['s', '4', '4'],
        RU::s45 => seq!['s', '4', '5'],
        RU::s46 => seq!['s', '4', '6'],
        RU::s47 => seq!['s', '4', '7'],
        RU::s48 => seq!['s', '4', '8'],
        RU::s49 => seq!['s', '4', '9'],
        RU::s50 => seq!['s', '5', '0'],
        RU::s51 => seq!['s', '5', '1'],
        RU::s52 => seq!['s', '5', '2'],
        RU::s53 => seq!['s', '5', '3'],
        RU::s54 => seq!['s', '5', '4'],
        RU::s55 => seq!['s', '5', '5'],
        RU::s56 => seq!['s', '5', '6'],
        RU::s57 => seq!['s', '5', '7'],
        RU::s58 => seq!['s', '5', '8'],
        RU::s59 => seq!['s', '5', '9'],
        RU::s60 => seq!['s', '6', '0'],
        RU::s61 => seq!['s', '6', '1'],
        RU::s62 => seq!['s', '6', '2'],
        RU::s63 => seq!['s', '6', '3'],
        RU::r0 => seq!['r', '0'],
        RU::r1 => seq!['r', '1'],
        RU::r2 => seq!['r', '2'],
        RU::r3 => seq!['r', '3'],
        RU::r4 => seq!['r', '4'],
        RU::r5 => seq!['r', '5'],
        RU::r6 => seq!['r', '6'],
        RU::r7 => seq!['r', '7'],
        RU::r8 => seq!['r', '8'],
        RU::r9 => seq!['r', '9'],
        RU::r10 => seq!['r', '1', '0'],
        RU::r11 => seq!['r', '1', '1'],
        RU::r12 => seq!['r', '1', '2'],
        RU::r13 => seq!['r', '1', '3'],
        RU::r14 => seq!['r', '1', '4'],
        RU::r15 => seq!['r', '1', '5'],
        RU::nzcv => seq!['n', 'z', 'c', 'v'],
    }
}

/// The name a register unit displays with: `%`, then its bank's prefix and its index in the
/// bank, or the flags register's own name.
proof fn lemma_unit_text(banks: Seq<RegBank>, u: int)
    requires
        banks_spec(banks),
        0 <= u <= 80,
    ensures
        0 <= u < 64 ==> regunit_text(banks, u) == seq!['%', 's'] + decimal((u - 0) as nat),
        64 <= u < 80 ==> regunit_text(banks, u) == seq!['%', 'r'] + decimal((u - 64) as nat),
        u == 80 ==> regunit_text(banks, u) == seq!['%', 'n', 'z', 'c', 'v'],
{
    reveal_with_fuel(bank_index_of, 4);
    reveal_strlit("%");
    if 0 <= u < 64 {
        assert(bank_index_of(banks, u) == Some(0nat));
        assert(banks[0].names@.len() == 0) by {
            assert(bank_names(banks[0]).len() == banks[0].names@.len());
        }
        assert(regunit_text(banks, u) =~= seq!['%', 's'] + decimal((u - 0) as nat));
    }
    if 64 <= u < 80 {
        assert(bank_index_of(banks, u) == Some(1nat));
        assert(banks[1].names@.len() == 0) by {
            assert(bank_names(banks[1]).len() == banks[1].names@.len());
        }
        assert(regunit_text(banks, u) =~= seq!['%', 'r'] + decimal((u - 64) as nat));
    }
    if u == 80 {
        assert(bank_index_of(banks, u) == Some(2nat));
        assert(banks[2].names@.len() == 1) by {
            assert(bank_names(banks[2]).len() == banks[2].names@.len());
        }
        assert(banks[2].names@[0]@ == bank_names(banks[2])[0]);
        assert(regunit_text(banks, u) =~= seq!['%', 'n', 'z', 'c', 'v']);
    }
}

/// Each register unit variant converts to the unit its name denotes: the unit displays as `%`
/// and the variant's name, and parsing the name gives the unit back.
#[verifier::rlimit(100)]
pub proof fn law_ru_names(banks: Seq<RegBank>, r: RU)
    requires
        banks_spec(banks),
    ensures
        regunit_text(banks, r.unit() as int) == seq!['%'] + ru_name(r),
        info_parse(banks, ru_name(r)) == Some(r.unit() as nat),
{
    let u = r.unit() as int;
    lemma_unit_text(banks, u);
    match r {
        RU::s0 => {
            assert(decimal(0nat) =~= seq!['0']) by {
                reveal_with_fuel(decimal, 3);
            }
        },
        RU::s1 => {
            assert(decimal(1nat) =~= seq!['1']) by {
                reveal_with_fuel(decimal, 3);
            }
        },
        RU::s2 => {
            assert(decimal(2nat) =~= seq!['2']) by {
                reveal_with_fuel(decimal, 3);
            }
        },
        RU::s3 => {
            assert(decimal(3nat) =~= seq!['3']) by {
                reveal_with_fuel(decimal, 3);
            }
        },
        RU::s4 => {
            assert(decimal(4nat) =~= seq!['4']) by {
                reveal_with_fuel(decimal, 3);
            }
        },
        RU::s5 => {
            assert(decimal(5nat) =~= seq!['5']) by {
                reveal_with_fuel(decimal, 3);
            }
        },
        RU::s6 => {
            assert(decimal(6nat) =~= seq!['6']) by {
                reveal_with_fuel(decimal, 3);
            }
        },
        RU::s7 => {
            assert(decimal(7nat) =~= seq!['7']) by {
                reveal_with_fuel(decimal, 3);
            }
        },
        RU::s8 => {
            assert(decimal(8nat) =~= seq!['8']) by {
                reveal_with_fuel(decimal, 3);
            }
        },
        RU::s9 => {
            assert(decimal(9nat) =~= seq!['9']) by {
                reveal_with_fuel(decimal, 3);
            }
        },
        RU::s10 => {
            assert(decimal(10nat) =~= seq!['1', '0']) by {
                reveal_with_fuel(decimal, 3);
            }
        },
        RU::s11 => {
            assert(decimal(11nat) =~= seq!['1', '1']) by {
                reveal_with_fuel(decimal, 3);
            }
        },
        RU::s12 => {
            assert(decimal(12nat) =~= seq!['1', '2']) by {
                reveal_with_fuel(decimal, 3);
            }
        },
        RU::s13 => {
            assert(decimal(13nat) =~= seq!['1', '3']) by {
                reveal_with_fuel(decimal, 3);
            }
        },
        RU::s14 => {
            assert(decimal(14nat) =~= seq!['1', '4']) by {
                reveal_with_fuel(decimal, 3);
            }
        },
        RU::s15 => {
            assert(decimal(15nat) =~= seq!['1', '5']) by {
                reveal_with_fuel(decimal, 3);
            }
        },
        RU::s16 => {
            assert(decimal(16nat) =~= seq!['1', '6']) by {
                reveal_with_fuel(decimal, 3);
            }
        },
        RU::s17 => {
            assert(decimal(17nat) =~= seq!['1', '7']) by {
                reveal_with_fuel(decimal, 3);
            }
        },
        RU::s18 => {
            assert(decimal(18nat) =~= seq!['1', '8']) by {
                reveal_with_fuel(decimal, 3);
            }
        },
        RU::s19 => {
            assert(decimal(19nat) =~= seq!['1', '9']) by {
                reveal_with_fuel(decimal, 3);
            }
        },
        RU::s20 => {
            assert(decimal(20nat) =~= seq!['2', '0']) by {
                reveal_with_fuel(decimal, 3);
            }
        },
        RU::s21 => {
            assert(decimal(21nat) =~= seq!['2', '1']) by {
                reveal_with_fuel(decimal, 3);
            }
        },
        RU::s22 => {
            assert(decimal(22nat) =~= seq!['2', '2']) by {
                reveal_with_fuel(decimal, 3);
            }
        },
        RU::s23 => {
            assert(decimal(23nat) =~= seq!['2', '3']) by {
                reveal_with_fuel(decimal, 3);
            }
        },
        RU::s24 => {
            assert(decimal(24nat) =~= seq!['2', '4']) by {
                reveal_with_fuel(decimal, 3);
            }
        },
        RU::s25 => {
            assert(decimal(25nat) =~= seq!['2', '5']) by {
                reveal_with_fuel(decimal, 3);
            }
        },
        RU::s26 => {
            assert(decimal(26nat) =~= seq!['2', '6']) by {
                reveal_with_fuel(decimal, 3);
            }
        },
        RU::s27 => {
            assert(decimal(27nat) =~= seq!['2', '7']) by {
                reveal_with_fuel(decimal, 3);
            }
        },
        RU::s28 => {
            assert(decimal(28nat) =~= seq!['2', '8']) by {
                reveal_with_fuel(decimal, 3);
            }
        },
        RU::s29 => {
            assert(decimal(29nat) =~= seq!['2', '9']) by {
                reveal_with_fuel(decimal, 3);
            }
        },
        RU::s30 => {
            assert(decimal(30nat) =~= seq!['3', '0']) by {
                reveal_with_fuel(decimal, 3);
            }
        },
        RU::s31 => {
            assert(decimal(31nat) =~= seq!['3', '1']) by {
                reveal_with_fuel(decimal, 3);
            }
        },
        RU::s32 => {
            assert(decimal(32nat) =~= seq!['3', '2']) by {
                reveal_with_fuel(decimal, 3);
            }
        },
        RU::s33 => {
            assert(decimal(33nat) =~= seq!['3', '3']) by {
                reveal_with_fuel(decimal, 3);
            }
        },
        RU::s34 => {
            assert(decimal(34nat) =~= seq!['3', '4']) by {
                reveal_with_fuel(decimal, 3);
            }
        },
        RU::s35 => {
            assert(decimal(35nat) =~= seq!['3', '5']) by {
                reveal_with_fuel(decimal, 3);
            }
        },
        RU::s36 => {
            assert(decimal(36nat) =~= seq!['3', '6']) by {
                reveal_with_fuel(decimal, 3);
            }
        },
        RU::s37 => {
            assert(decimal(37nat) =~= seq!['3', '7']) by {
                reveal_with_fuel(decimal, 3);
            }
        },
        RU::s38 => {
            assert(decimal(38nat) =~= seq!['3', '8']) by {
                reveal_with_fuel(decimal, 3);
            }
        },
        RU::s39 => {
            assert(decimal(39nat) =~= seq!['3', '9']) by {
                reveal_with_fuel(decimal, 3);
            }
        },
        RU::s40 => {
            assert(decimal(40nat) =~= seq!['4', '0']) by {
                reveal_with_fuel(decimal, 3);
            }
        },
        RU::s41 => {
            assert(decimal(41nat) =~= seq!['4', '1']) by {
                reveal_with_fuel(decimal, 3);
            }
        },
        RU::s42 => {
            assert(decimal(42nat) =~= seq!['4', '2']) by {
                reveal_with_fuel(decimal, 3);
            }
        },
        RU::s43 => {
            assert(decimal(43nat) =~= seq!['4', '3']) by {
                reveal_with_fuel(decimal, 3);
            }
        },
        RU::s44 => {
            assert(decimal(44nat) =~= seq!['4', '4']) by {
                reveal_with_fuel(decimal, 3);
            }
        },
        RU::s45 => {
            assert(decimal(45nat) =~= seq!['4', '5']) by {
                reveal_with_fuel(decimal, 3);
            }
        },
        RU::s46 => {
            assert(decimal(46nat) =~= seq!['4', '6']) by {
                reveal_with_fuel(decimal, 3);
            }
        },
        RU::s47 => {
            assert(decimal(47nat) =~= seq!['4', '7']) by {
                reveal_with_fuel(decimal, 3);
            }
        },
        RU::s48 => {
            assert(decimal(48nat) =~= seq!['4', '8']) by {
                reveal_with_fuel(decimal, 3);
            }
        },
        RU::s49 => {
            assert(decimal(49nat) =~= seq!['4', '9']) by {
                reveal_with_fuel(decimal, 3);
            }
        },
        RU::s50 => {
            assert(decimal(50nat) =~= seq!['5', '0']) by {
                reveal_with_fuel(decimal, 3);
            }
        },
        RU::s51 => {
            assert(decimal(51nat) =~= seq!['5', '1']) by {
                reveal_with_fuel(decimal, 3);
            }
        },
        RU::s52 => {
            assert(decimal(52nat) =~= seq!['5', '2']) by {
                reveal_with_fuel(decimal, 3);
            }
        },
        RU::s53 => {
            assert(decimal(53nat) =~= seq!['5', '3']) by {
                reveal_with_fuel(decimal, 3);
            }
        },
        RU::s54 => {
            assert(decimal(54nat) =~= seq!['5', '4']) by {
                reveal_with_fuel(decimal, 3);
            }
        },
        RU::s55 => {
            assert(decimal(55nat) =~= seq!['5', '5']) by {
                reveal_with_fuel(decimal, 3);
            }
        },
        RU::s56 => {
            assert(decimal(56nat) =~= seq!['5', '6']) by {
                reveal_with_fuel(decimal, 3);
            }
        },
        RU::s57 => {
            assert(decimal(57nat) =~= seq!['5', '7']) by {
                reveal_with_fuel(decimal, 3);
            }
        },
        RU::s58 => {
            assert(decimal(58nat) =~= seq!['5', '8']) by {
                reveal_with_fuel(decimal, 3);
            }
        },
        RU::s59 => {
            assert(decimal(59nat) =~= seq!['5', '9']) by {
                reveal_with_fuel(decimal, 3);
            }
        },
        RU::s60 => {
            assert(decimal(60nat) =~= seq!['6', '0']) by {
                reveal_with_fuel(decimal, 3);
            }
        },
        RU::s61 => {
            assert(decimal(61nat) =~= seq!['6', '1']) by {
                reveal_with_fuel(decimal, 3);
            }
        },
        RU::s62 => {
            assert(decimal(62nat) =~= seq!['6', '2']) by {
                reveal_with_fuel(decimal, 3);
            }
        },
        RU::s63 => {
            assert(decimal(63nat) =~= seq!['6', '3']) by {
                reveal_with_fuel(decimal, 3);
            }
        },
        RU::r0 => {
            assert(decimal(0nat) =~= seq!['0']) by {
                reveal_with_fuel(decimal, 3);
            }
        },
        RU::r1 => {
            assert(decimal(1nat) =~= seq!['1']) by {
                reveal_with_fuel(decimal, 3);
            }
        },
        RU::r2 => {
            assert(decimal(2nat) =~= seq!['2']) by {
                reveal_with_fuel(decimal, 3);
            }
        },
        RU::r3 => {
            assert(decimal(3nat) =~= seq!['3']) by {
                reveal_with_fuel(decimal, 3);
            }
        },
        RU::r4 => {
            assert(decimal(4nat) =~= seq!['4']) by {
                reveal_with_fuel(decimal, 3);
            }
        },
        RU::r5 => {
            assert(decimal(5nat) =~= seq!['5']) by {
                reveal_with_fuel(decimal, 3);
            }
        },
        RU::r6 => {
            assert(decimal(6nat) =~= seq!['6']) by {
                reveal_with_fuel(decimal, 3);
            }
        },
        RU::r7 => {
            assert(decimal(7nat) =~= seq!['7']) by {
                reveal_with_fuel(decimal, 3);
            }
        },
        RU::r8 => {
            assert(decimal(8nat) =~= seq!['8']) by {
                reveal_with_fuel(decimal, 3);
            }
        },
        RU::r9 => {
            assert(decimal(9nat) =~= seq!['9']) by {
                reveal_with_fuel(decimal, 3);
            }
        },
        RU::r10 => {
            assert(decimal(10nat) =~= seq!['1', '0']) by {
                reveal_with_fuel(decimal, 3);
            }
        },
        RU::r11 => {
            assert(decimal(11nat) =~= seq!['1', '1']) by {
                reveal_with_fuel(decimal, 3);
            }
        },
        RU::r12 => {
            assert(decimal(12nat) =~= seq!['1', '2']) by {
                reveal_with_fuel(decimal, 3);
            }
        },
        RU::r13 => {
            assert(decimal(13nat) =~= seq!['1', '3']) by {
                reveal_with_fuel(decimal, 3);
            }
        },
        RU::r14 => {
            assert(decimal(14nat) =~= seq!['1', '4']) by {
                reveal_with_fuel(decimal, 3);
            }
        },
        RU::r15 => {
            assert(decimal(15nat) =~= seq!['1', '5']) by {
                reveal_with_fuel(decimal, 3);
            }
        },
        RU::nzcv => {},
    }
    assert(regunit_text(banks, u) =~= seq!['%'] + ru_name(r));
    law_regunit_names_round_trip(banks, u);
    assert(regunit_text(banks, u).drop_first() =~= ru_name(r));
}

} // verus!
