//! RISC-V register descriptions.

use vstd::prelude::*;
use crate::isa::registers::{
    bank_contains, bank_index_of, bank_names, bank_parse, info_parse, law_display_parse_round_trip,
    prefix_distinguishes, regunit_text, class_contains, lemma_mask_bits, RegBank, RegClassData, RegInfo, RegUnit,
};
use crate::text::{decimal, position};

verus! {

/// The register banks of this ISA, as their fields read.
pub open spec fn banks_spec(banks: Seq<RegBank>) -> bool {
    &&& banks.len() == 2
    &&& banks[0].first_unit == 0
    &&& banks[0].units == 32
    &&& banks[0].prefix@ == seq!['x']
    &&& bank_names(banks[0]) == Seq::<Seq<char>>::empty()
    &&& banks[1].first_unit == 32
    &&& banks[1].units == 32
    &&& banks[1].prefix@ == seq!['f']
    &&& bank_names(banks[1]) == Seq::<Seq<char>>::empty()
}

/// The register description of this ISA.
pub fn info() -> (r: RegInfo)
    ensures
        r.wf(),
        banks_spec(r.banks@),
{
    proof {
        reveal_strlit("FloatRegs");
        reveal_strlit("IntRegs");
        reveal_strlit("f");
        reveal_strlit("x");
    }
    let banks = vec![
        RegBank {
            name: "IntRegs",
            first_unit: 0,
            units: 32,
            names: Vec::new(),
            prefix: "x",
            first_toprc: 0,
            num_toprcs: 1,
            pressure_tracking: true,
        },
        RegBank {
            name: "FloatRegs",
            first_unit: 32,
            units: 32,
            names: Vec::new(),
            prefix: "f",
            first_toprc: 1,
            num_toprcs: 1,
            pressure_tracking: true,
        },
    ];
    let classes = vec![gpr_data(), fpr_data()];
    let r = RegInfo { banks, classes };
    proof {
        assert(r.banks@[0].prefix@ =~= seq!['x']);
        assert(bank_names(r.banks@[0]) =~= Seq::<Seq<char>>::empty());
        assert(r.banks@[1].prefix@ =~= seq!['f']);
        assert(bank_names(r.banks@[1]) =~= Seq::<Seq<char>>::empty());
        assert(forall|i: int| 0 <= i < r.banks@.len() ==> #[trigger] r.banks@[i].wf());
    }
    r
}

/// Register class `GPR`.
pub fn gpr_data() -> (r: RegClassData)
    ensures
        r.index == 0,
        r.width == 1,
        r.first == 0,
        r.mask == [0xffffffffu32, 0x00000000, 0x00000000],
{
    RegClassData {
        name: "GPR",
        index: 0,
        width: 1,
        bank: 0,
        toprc: 0,
        first: 0,
        subclasses: 0x1,
        mask: [0xffffffff, 0x00000000, 0x00000000],
        pinned_reg: None,
    }
}

/// Register class `FPR`.
pub fn fpr_data() -> (r: RegClassData)
    ensures
        r.index == 1,
        r.width == 1,
        r.first == 32,
        r.mask == [0x00000000u32, 0xffffffff, 0x00000000],
{
    RegClassData {
        name: "FPR",
        index: 1,
        width: 1,
        bank: 1,
        toprc: 1,
        first: 32,
        subclasses: 0x2,
        mask: [0x00000000, 0xffffffff, 0x00000000],
        pinned_reg: None,
    }
}

/// The register units of this ISA, by name.
#[allow(non_camel_case_types)]
#[derive(Clone, Copy, PartialEq, Eq, Structural)]
pub enum RU {
    x0,
    x1,
    x2,
    x3,
    x4,
    x5,
    x6,
    x7,
    x8,
    x9,
    x10,
    x11,
    x12,
    x13,
    x14,
    x15,
    x16,
    x17,
    x18,
    x19,
    x20,
    x21,
    x22,
    x23,
    x24,
    x25,
    x26,
    x27,
    x28,
    x29,
    x30,
    x31,
    f0,
    f1,
    f2,
    f3,
    f4,
    f5,
    f6,
    f7,
    f8,
    f9,
    f10,
    f11,
    f12,
    f13,
    f14,
    f15,
    f16_,
    f17,
    f18,
    f19,
    f20,
    f21,
    f22,
    f23,
    f24,
    f25,
    f26,
    f27,
    f28,
    f29,
    f30,
    f31,
}

impl RU {
    /// The register unit number.
    pub open spec fn unit(self) -> RegUnit {
        match self {
            RU::x0 => 0,
            RU::x1 => 1,
            RU::x2 => 2,
            RU::x3 => 3,
            RU::x4 => 4,
            RU::x5 => 5,
            RU::x6 => 6,
            RU::x7 => 7,
            RU::x8 => 8,
            RU::x9 => 9,
            RU::x10 => 10,
            RU::x11 => 11,
            RU::x12 => 12,
            RU::x13 => 13,
            RU::x14 => 14,
            RU::x15 => 15,
            RU::x16 => 16,
            RU::x17 => 17,
            RU::x18 => 18,
            RU::x19 => 19,
            RU::x20 => 20,
            RU::x21 => 21,
            RU::x22 => 22,
            RU::x23 => 23,
            RU::x24 => 24,
            RU::x25 => 25,
            RU::x26 => 26,
            RU::x27 => 27,
            RU::x28 => 28,
            RU::x29 => 29,
            RU::x30 => 30,
            RU::x31 => 31,
            RU::f0 => 32,
            RU::f1 => 33,
            RU::f2 => 34,
            RU::f3 => 35,
            RU::f4 => 36,
            RU::f5 => 37,
            RU::f6 => 38,
            RU::f7 => 39,
            RU::f8 => 40,
            RU::f9 => 41,
            RU::f10 => 42,
            RU::f11 => 43,
            RU::f12 => 44,
            RU::f13 => 45,
            RU::f14 => 46,
            RU::f15 => 47,
            RU::f16_ => 48,
            RU::f17 => 49,
            RU::f18 => 50,
            RU::f19 => 51,
            RU::f20 => 52,
            RU::f21 => 53,
            RU::f22 => 54,
            RU::f23 => 55,
            RU::f24 => 56,
            RU::f25 => 57,
            RU::f26 => 58,
            RU::f27 => 59,
            RU::f28 => 60,
            RU::f29 => 61,
            RU::f30 => 62,
            RU::f31 => 63,
        }
    }

    /// Convert to the register unit number.
    pub fn into(self) -> (r: RegUnit)
        ensures
            r == self.unit(),
    {
        match self {
            RU::x0 => 0,
            RU::x1 => 1,
            RU::x2 => 2,
            RU::x3 => 3,
            RU::x4 => 4,
            RU::x5 => 5,
            RU::x6 => 6,
            RU::x7 => 7,
            RU::x8 => 8,
            RU::x9 => 9,
            RU::x10 => 10,
            RU::x11 => 11,
            RU::x12 => 12,
            RU::x13 => 13,
            RU::x14 => 14,
            RU::x15 => 15,
            RU::x16 => 16,
            RU::x17 => 17,
            RU::x18 => 18,
            RU::x19 => 19,
            RU::x20 => 20,
            RU::x21 => 21,
            RU::x22 => 22,
            RU::x23 => 23,
            RU::x24 => 24,
            RU::x25 => 25,
            RU::x26 => 26,
            RU::x27 => 27,
            RU::x28 => 28,
            RU::x29 => 29,
            RU::x30 => 30,
            RU::x31 => 31,
            RU::f0 => 32,
            RU::f1 => 33,
            RU::f2 => 34,
            RU::f3 => 35,
            RU::f4 => 36,
            RU::f5 => 37,
            RU::f6 => 38,
            RU::f7 => 39,
            RU::f8 => 40,
            RU::f9 => 41,
            RU::f10 => 42,
            RU::f11 => 43,
            RU::f12 => 44,
            RU::f13 => 45,
            RU::f14 => 46,
            RU::f15 => 47,
            RU::f16_ => 48,
            RU::f17 => 49,
            RU::f18 => 50,
            RU::f19 => 51,
            RU::f20 => 52,
            RU::f21 => 53,
            RU::f22 => 54,
            RU::f23 => 55,
            RU::f24 => 56,
            RU::f25 => 57,
            RU::f26 => 58,
            RU::f27 => 59,
            RU::f28 => 60,
            RU::f29 => 61,
            RU::f30 => 62,
            RU::f31 => 63,
        }
    }
}

} // verus!

verus! {

/// Every register unit of this ISA is read back from the name it is displayed with (without
/// the `%` sigil); units outside every bank display as invalid.
pub proof fn law_regunit_names_round_trip(banks: Seq<RegBank>, ru: int)
    requires
        banks_spec(banks),
        0 <= ru < 64,
    ensures
        info_parse(banks, regunit_text(banks, ru).drop_first()) == Some(ru as nat),
{
    reveal_with_fuel(bank_index_of, 3);
    if 0 <= ru < 32 {
        assert(bank_index_of(banks, ru) == Some(0nat));
        assert(banks[0].wf());
        assert(banks[0].names@.len() == 0);
        assert(prefix_distinguishes(banks, 0));
        law_display_parse_round_trip(banks, ru);
    }
    if 32 <= ru < 64 {
        assert(bank_index_of(banks, ru) == Some(1nat));
        assert(banks[1].wf());
        assert(banks[1].names@.len() == 0);
        assert(prefix_distinguishes(banks, 1));
        law_display_parse_round_trip(banks, ru);
    }
}

} // verus!

verus! {

/// Register class `GPR` holds exactly the units with u < 32.
pub proof fn law_gpr_units(rc: RegClassData, u: int)
    requires
        rc.mask == [0xffffffffu32, 0x00000000, 0x00000000],
        0 <= u < 96,
    ensures
        class_contains(rc, u) == (u < 32),
{
    lemma_mask_bits((u % 32) as u32);
}

/// Register class `FPR` holds exactly the units with 32 <= u < 64.
pub proof fn law_fpr_units(rc: RegClassData, u: int)
    requires
        rc.mask == [0x00000000u32, 0xffffffff, 0x00000000],
        0 <= u < 96,
    ensures
        class_contains(rc, u) == (32 <= u < 64),
{
    lemma_mask_bits((u % 32) as u32);
}

} // verus!

verus! {

/// The name a register unit variant carries (`f16_` is `f16`).
pub open spec fn ru_name(r: RU) -> Seq<char> {
    match r {
        RU::x0 => seq!['x', '0'],
        RU::x1 => seq!['x', '1'],
        RU::x2 => seq!['x', '2'],
        RU::x3 => seq!['x', '3'],
        RU::x4 => seq!['x', '4'],
        RU::x5 => seq!['x', '5'],
        RU::x6 => seq!['x', '6'],
        RU::x7 => seq!['x', '7'],
        RU::x8 => seq!['x', '8'],
        RU::x9 => seq!['x', '9'],
        RU::x10 => seq!['x', '1', '0'],
        RU::x11 => seq!['x', '1', '1'],
        RU::x12 => seq!['x', '1', '2'],
        RU::x13 => seq!['x', '1', '3'],
        RU::x14 => seq!['x', '1', '4'],
        RU::x15 => seq!['x', '1', '5'],
        RU::x16 => seq!['x', '1', '6'],
        RU::x17 => seq!['x', '1', '7'],
        RU::x18 => seq!['x', '1', '8'],
        RU::x19 => seq!['x', '1', '9'],
        RU::x20 => seq!['x', '2', '0'],
        RU::x21 => seq!['x', '2', '1'],
        RU::x22 => seq!['x', '2', '2'],
        RU::x23 => seq!['x', '2', '3'],
        RU::x24 => seq!['x', '2', '4'],
        RU::x25 => seq!['x', '2', '5'],
        RU::x26 => seq!['x', '2', '6'],
        RU::x27 => seq!['x', '2', '7'],
        RU::x28 => seq!['x', '2', '8'],
        RU::x29 => seq!['x', '2', '9'],
        RU::x30 => seq!['x', '3', '0'],
        RU::x31 => seq!['x', '3', '1'],
        RU::f0 => seq!['f', '0'],
        RU::f1 => seq!['f', '1'],
        RU::f2 => seq!['f', '2'],
        RU::f3 => seq!['f', '3'],
        RU::f4 => seq!['f', '4'],
        RU::f5 => seq!['f', '5'],
        RU::f6 => seq!['f', '6'],
        RU::f7 => seq!['f', '7'],
        RU::f8 => seq!['f', '8'],
        RU::f9 => seq!['f', '9'],
        RU::f10 => seq!['f', '1', '0'],
        RU::f11 => seq!['f', '1', '1'],
        RU::f12 => seq!['f', '1', '2'],
        RU::f13 => seq!['f', '1', '3'],
        RU::f14 => seq!['f', '1', '4'],
        RU::f15 => seq!['f', '1', '5'],
        RU::f16_ => seq!['f', '1', '6'],
        RU::f17 => seq!['f', '1', '7'],
        RU::f18 => seq!['f', '1', '8'],
        RU::f19 => seq!['f', '1', '9'],
        RU::f20 => seq!['f', '2', '0'],
        RU::f21 => seq!['f', '2', '1'],
        RU::f22 => seq!['f', '2', '2'],
        RU::f23 => seq!['f', '2', '3'],
        RU::f24 => seq!['f', '2', '4'],
        RU::f25 => seq!['f', '2', '5'],
        RU::f26 => seq!['f', '2', '6'],
        RU::f27 => seq!['f', '2', '7'],
        RU::f28 => seq!['f', '2', '8'],
        RU::f29 => seq!['f', '2', '9'],
        RU::f30 => seq!['f', '3', '0'],
        RU::f31 => seq!['f', '3', '1'],
    }
}

/// The name a register unit displays with, after the `%` sigil, is its bank's prefix and its
/// index in the bank.
proof fn lemma_unit_text(banks: Seq<RegBank>, u: int)
    requires
        banks_spec(banks),
        0 <= u < 64,
    ensures
        u < 32 ==> regunit_text(banks, u) == seq!['%', 'x'] + decimal(u as nat),
        32 <= u ==> regunit_text(banks, u) == seq!['%', 'f'] + decimal((u - 32) as nat),
{
    reveal_with_fuel(bank_index_of, 3);
    reveal_strlit("%");
    assert(banks[0].names@.len() == 0) by {
        assert(bank_names(banks[0]).len() == banks[0].names@.len());
    }
    assert(banks[1].names@.len() == 0) by {
        assert(bank_names(banks[1]).len() == banks[1].names@.len());
    }
    if u < 32 {
        assert(bank_index_of(banks, u) == Some(0nat));
        assert(regunit_text(banks, u) =~= seq!['%', 'x'] + decimal(u as nat));
    } else {
        assert(bank_index_of(banks, u) == Some(1nat));
        assert(regunit_text(banks, u) =~= seq!['%', 'f'] + decimal((u - 32) as nat));
    }
}

/// Each register unit variant converts to the unit its name denotes: the unit displays as `%`
/// and the variant's name, and parsing the name gives the unit back (`x0` to `x31` are units 0
/// to 31, `f0` to `f31` units 32 to 63).
#[verifier::rlimit(100)]
pub proof fn law_ru_names(banks: Seq<RegBank>, r: RU)
    requires
        banks_spec(banks),
    ensures
        regunit_text(banks, r.unit() as int) == seq!['%'] + ru_name(r),
        info_parse(banks, ru_name(r)) == Some(r.unit() as nat),
{
    let u = r.unit() as int;
    lemma_unit_text(banks, u);
    match r {
        RU::x0 => {
            assert(decimal(0nat) =~= seq!['0']) by {
                reveal_with_fuel(decimal, 3);
            }
        },
        RU::x1 => {
            assert(decimal(1nat) =~= seq!['1']) by {
                reveal_with_fuel(decimal, 3);
            }
        },
        RU::x2 => {
            assert(decimal(2nat) =~= seq!['2']) by {
                reveal_with_fuel(decimal, 3);
            }
        },
        RU::x3 => {
            assert(decimal(3nat) =~= seq!['3']) by {
                reveal_with_fuel(decimal, 3);
            }
        },
        RU::x4 => {
            assert(decimal(4nat) =~= seq!['4']) by {
                reveal_with_fuel(decimal, 3);
            }
        },
        RU::x5 => {
            assert(decimal(5nat) =~= seq!['5']) by {
                reveal_with_fuel(decimal, 3);
            }
        },
        RU::x6 => {
            assert(decimal(6nat) =~= seq!['6']) by {
                reveal_with_fuel(decimal, 3);
            }
        },
        RU::x7 => {
            assert(decimal(7nat) =~= seq!['7']) by {
                reveal_with_fuel(decimal, 3);
            }
        },
        RU::x8 => {
            assert(decimal(8nat) =~= seq!['8']) by {
                reveal_with_fuel(decimal, 3);
            }
        },
        RU::x9 => {
            assert(decimal(9nat) =~= seq!['9']) by {
                reveal_with_fuel(decimal, 3);
            }
        },
        RU::x10 => {
            assert(decimal(10nat) =~= seq!['1', '0']) by {
                reveal_with_fuel(decimal, 3);
            }
        },
        RU::x11 => {
            assert(decimal(11nat) =~= seq!['1', '1']) by {
                reveal_with_fuel(decimal, 3);
            }
        },
        RU::x12 => {
            assert(decimal(12nat) =~= seq!['1', '2']) by {
                reveal_with_fuel(decimal, 3);
            }
        },
        RU::x13 => {
            assert(decimal(13nat) =~= seq!['1', '3']) by {
                reveal_with_fuel(decimal, 3);
            }
        },
        RU::x14 => {
            assert(decimal(14nat) =~= seq!['1', '4']) by {
                reveal_with_fuel(decimal, 3);
            }
        },
        RU::x15 => {
            assert(decimal(15nat) =~= seq!['1', '5']) by {
                reveal_with_fuel(decimal, 3);
            }
        },
        RU::x16 => {
            assert(decimal(16nat) =~= seq!['1', '6']) by {
                reveal_with_fuel(decimal, 3);
            }
        },
        RU::x17 => {
            assert(decimal(17nat) =~= seq!['1', '7']) by {
                reveal_with_fuel(decimal, 3);
            }
        },
        RU::x18 => {
            assert(decimal(18nat) =~= seq!['1', '8']) by {
                reveal_with_fuel(decimal, 3);
            }
        },
        RU::x19 => {
            assert(decimal(19nat) =~= seq!['1', '9']) by {
                reveal_with_fuel(decimal, 3);
            }
        },
        RU::x20 => {
            assert(decimal(20nat) =~= seq!['2', '0']) by {
                reveal_with_fuel(decimal, 3);
            }
        },
        RU::x21 => {
            assert(decimal(21nat) =~= seq!['2', '1']) by {
                reveal_with_fuel(decimal, 3);
            }
        },
        RU::x22 => {
            assert(decimal(22nat) =~= seq!['2', '2']) by {
                reveal_with_fuel(decimal, 3);
            }
        },
        RU::x23 => {
            assert(decimal(23nat) =~= seq!['2', '3']) by {
                reveal_with_fuel(decimal, 3);
            }
        },
        RU::x24 => {
            assert(decimal(24nat) =~= seq!['2', '4']) by {
                reveal_with_fuel(decimal, 3);
            }
        },
        RU::x25 => {
            assert(decimal(25nat) =~= seq!['2', '5']) by {
                reveal_with_fuel(decimal, 3);
            }
        },
        RU::x26 => {
            assert(decimal(26nat) =~= seq!['2', '6']) by {
                reveal_with_fuel(decimal, 3);
            }
        },
        RU::x27 => {
            assert(decimal(27nat) =~= seq!['2', '7']) by {
                reveal_with_fuel(decimal, 3);
            }
        },
        RU::x28 => {
            assert(decimal(28nat) =~= seq!['2', '8']) by {
                reveal_with_fuel(decimal, 3);
            }
        },
        RU::x29 => {
            assert(decimal(29nat) =~= seq!['2', '9']) by {
                reveal_with_fuel(decimal, 3);
            }
        },
        RU::x30 => {
            assert(decimal(30nat) =~= seq!['3', '0']) by {
                reveal_with_fuel(decimal, 3);
            }
        },
        RU::x31 => {
            assert(decimal(31nat) =~= seq!['3', '1']) by {
                reveal_with_fuel(decimal, 3);
            }
        },
        RU::f0 => {
            assert(decimal(0nat) =~= seq!['0']) by {
                reveal_with_fuel(decimal, 3);
            }
        },
        RU::f1 => {
            assert(decimal(1nat) =~= seq!['1']) by {
                reveal_with_fuel(decimal, 3);
            }
        },
        RU::f2 => {
            assert(decimal(2nat) =~= seq!['2']) by {
                reveal_with_fuel(decimal, 3);
            }
        },
        RU::f3 => {
            assert(decimal(3nat) =~= seq!['3']) by {
                reveal_with_fuel(decimal, 3);
            }
        },
        RU::f4 => {
            assert(decimal(4nat) =~= seq!['4']) by {
                reveal_with_fuel(decimal, 3);
            }
        },
        RU::f5 => {
            assert(decimal(5nat) =~= seq!['5']) by {
                reveal_with_fuel(decimal, 3);
            }
        },
        RU::f6 => {
            assert(decimal(6nat) =~= seq!['6']) by {
                reveal_with_fuel(decimal, 3);
            }
        },
        RU::f7 => {
            assert(decimal(7nat) =~= seq!['7']) by {
                reveal_with_fuel(decimal, 3);
            }
        },
        RU::f8 => {
            assert(decimal(8nat) =~= seq!['8']) by {
                reveal_with_fuel(decimal, 3);
            }
        },
        RU::f9 => {
            assert(decimal(9nat) =~= seq!['9']) by {
                reveal_with_fuel(decimal, 3);
            }
        },
        RU::f10 => {
            assert(decimal(10nat) =~= seq!['1', '0']) by {
                reveal_with_fuel(decimal, 3);
            }
        },
        RU::f11 => {
            assert(decimal(11nat) =~= seq!['1', '1']) by {
                reveal_with_fuel(decimal, 3);
            }
        },
        RU::f12 => {
            assert(decimal(12nat) =~= seq!['1', '2']) by {
                reveal_with_fuel(decimal, 3);
            }
        },
        RU::f13 => {
            assert(decimal(13nat) =~= seq!['1', '3']) by {
                reveal_with_fuel(decimal, 3);
            }
        },
        RU::f14 => {
            assert(decimal(14nat) =~= seq!['1', '4']) by {
                reveal_with_fuel(decimal, 3);
            }
        },
        RU::f15 => {
            assert(decimal(15nat) =~= seq!['1', '5']) by {
                reveal_with_fuel(decimal, 3);
            }
        },
        RU::f16_ => {
            assert(decimal(16nat) =~= seq!['1', '6']) by {
                reveal_with_fuel(decimal, 3);
            }
        },
        RU::f17 => {
            assert(decimal(17nat) =~= seq!['1', '7']) by {
                reveal_with_fuel(decimal, 3);
            }
        },
        RU::f18 => {
            assert(decimal(18nat) =~= seq!['1', '8']) by {
                reveal_with_fuel(decimal, 3);
            }
        },
        RU::f19 => {
            assert(decimal(19nat) =~= seq!['1', '9']) by {
                reveal_with_fuel(decimal, 3);
            }
        },
        RU::f20 => {
            assert(decimal(20nat) =~= seq!['2', '0']) by {
                reveal_with_fuel(decimal, 3);
            }
        },
        RU::f21 => {
            assert(decimal(21nat) =~= seq!['2', '1']) by {
                reveal_with_fuel(decimal, 3);
            }
        },
        RU::f22 => {
            assert(decimal(22nat) =~= seq!['2', '2']) by {
                reveal_with_fuel(decimal, 3);
            }
        },
        RU::f23 => {
            assert(decimal(23nat) =~= seq!['2', '3']) by {
                reveal_with_fuel(decimal, 3);
            }
        },
        RU::f24 => {
            assert(decimal(24nat) =~= seq!['2', '4']) by {
                reveal_with_fuel(decimal, 3);
            }
        },
        RU::f25 => {
            assert(decimal(25nat) =~= seq!['2', '5']) by {
                reveal_with_fuel(decimal, 3);
            }
        },
        RU::f26 => {
            assert(decimal(26nat) =~= seq!['2', '6']) by {
                reveal_with_fuel(decimal, 3);
            }
        },
        RU::f27 => {
            assert(decimal(27nat) =~= seq!['2', '7']) by {
                reveal_with_fuel(decimal, 3);
            }
        },
        RU::f28 => {
            assert(decimal(28nat) =~= seq!['2', '8']) by {
                reveal_with_fuel(decimal, 3);
            }
        },
        RU::f29 => {
            assert(decimal(29nat) =~= seq!['2', '9']) by {
                reveal_with_fuel(decimal, 3);
            }
        },
        RU::f30 => {
            assert(decimal(30nat) =~= seq!['3', '0']) by {
                reveal_with_fuel(decimal, 3);
            }
        },
        RU::f31 => {
            assert(decimal(31nat) =~= seq!['3', '1']) by {
                reveal_with_fuel(decimal, 3);
            }
        },
    }
    assert(regunit_text(banks, u) =~= seq!['%'] + ru_name(r));
    law_regunit_names_round_trip(banks, u);
    assert(regunit_text(banks, u).drop_first() =~= ru_name(r));
}

} // verus!
