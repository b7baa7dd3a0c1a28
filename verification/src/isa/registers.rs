//! Data structures describing the registers of an ISA.

use vstd::prelude::*;
use crate::text::{all_digits, decimal, lemma_decimal_digits, lemma_position_skip, parse_u16, parse_unsigned, position, push_decimal, starts_with, str_eq};

verus! {

/// Register units are the smallest units of register allocation.
pub type RegUnit = u16;

/// A bit mask indexed by register units.
pub type RegUnitMask = [u32; 3];

/// A bit mask indexed by register classes.
pub type RegClassMask = u32;

/// The register units in a target ISA are divided into disjoint register banks. Each bank covers
/// a contiguous range of register units.
pub struct RegBank {
    /// The name of this register bank as defined in the ISA's DSL definition.
    pub name: &'static str,
    /// The first register unit in this bank.
    pub first_unit: RegUnit,
    /// The total number of register units in this bank.
    pub units: RegUnit,
    /// Array of specially named register units. This array can be shorter than the number of
    /// units in the bank.
    pub names: Vec<&'static str>,
    /// Name prefix to use for those register units in [first_unit; units) that don't have
    /// special names.
    pub prefix: &'static str,
    /// Index of the first top-level register class in this bank.
    pub first_toprc: usize,
    /// Number of top-level register classes in this bank.
    pub num_toprcs: usize,
    /// Is register pressure tracking enabled for this bank?
    pub pressure_tracking: bool,
}

/// The special names of a bank.
pub open spec fn bank_names(b: RegBank) -> Seq<Seq<char>> {
    b.names@.map_values(|s: &'static str| s@)
}

/// Whether a bank covers a register unit.
pub open spec fn bank_contains(b: RegBank, regunit: int) -> bool {
    b.first_unit <= regunit < b.first_unit + b.units
}

/// The unit offset a bank reads from a register name, before the range check.
pub open spec fn bank_name_offset(b: RegBank, name: Seq<char>) -> Option<nat> {
    match position(bank_names(b), name) {
        Some(i) => Some(i),
        None => if b.prefix@.len() <= name.len() && name.subrange(0, b.prefix@.len() as int)
            == b.prefix@ {
            parse_unsigned(name.subrange(b.prefix@.len() as int, name.len() as int), 65535)
        } else {
            None
        },
    }
}

/// The register unit a bank reads from a register name.
pub open spec fn bank_parse(b: RegBank, name: Seq<char>) -> Option<nat> {
    match bank_name_offset(b, name) {
        Some(o) => if o < b.units {
            Some((o + b.first_unit) as nat)
        } else {
            None
        },
        None => None,
    }
}

/// The name a bank gives one of its register units, with the `%` sigil.
pub open spec fn bank_unit_name(b: RegBank, regunit: int) -> Seq<char> {
    let offset = regunit - b.first_unit;
    if offset < b.names@.len() {
        "%"@ + b.names@[offset]@
    } else {
        "%"@ + b.prefix@ + decimal(offset as nat)
    }
}

impl RegBank {
    /// Banks are small enough that unit numbers and name indexes stay in range.
    pub open spec fn wf(&self) -> bool {
        &&& self.first_unit + self.units <= 0xffff
        &&& self.names@.len() <= self.units
    }

    /// Does this bank contain `regunit`?
    pub fn contains(&self, regunit: RegUnit) -> (r: bool)
        ensures
            r == bank_contains(*self, regunit as int),
    {
        regunit >= self.first_unit && regunit - self.first_unit < self.units
    }

    /// Try to parse a regunit name. The name is not expected to begin with `%`.
    pub fn parse_regunit(&self, name: &str) -> (r: Option<RegUnit>)
        requires
            self.wf(),
        ensures
            match r {
                Some(u) => bank_parse(*self, name@) == Some(u as nat),
                None => bank_parse(*self, name@) is None,
            },
    {
        let mut i: usize = 0;
        let ghost names = bank_names(*self);
        while i < self.names.len()
            invariant
                self.wf(),
                names == bank_names(*self),
                i <= self.names@.len(),
                forall|j: int| 0 <= j < i ==> names[j] != name@,
            decreases self.names@.len() - i,
        {
            if str_eq(self.names[i], name) {
                proof {
                    lemma_position_skip(names, name@, i as int);
                    assert(names.skip(i as int)[0] == name@);
                }
                let o = i as RegUnit;
                if o < self.units {
                    return Some(o + self.first_unit);
                } else {
                    return None;
                }
            }
            i = i + 1;
        }
        proof {
            lemma_position_skip(names, name@, i as int);
            assert(names.skip(i as int).len() == 0);
        }
        let offset = if starts_with(name, self.prefix) {
            let plen = self.prefix.unicode_len();
            let nlen = name.unicode_len();
            let rest = name.substring_char(plen, nlen);
            parse_u16(rest)
        } else {
            None
        };
        match offset {
            Some(o) => {
                if o < self.units {
                    Some(o + self.first_unit)
                } else {
                    None
                }
            },
            None => None,
        }
    }

    /// Write the name of `regunit`, which must belong to this bank.
    fn write_regunit(&self, f: &mut String, regunit: RegUnit)
        requires
            bank_contains(*self, regunit as int),
        ensures
            final(f)@ == old(f)@ + bank_unit_name(*self, regunit as int),
    {
        let offset = regunit - self.first_unit;
        if (offset as usize) < self.names.len() {
            f.append("%");
            f.append(self.names[offset as usize]);
        } else {
            f.append("%");
            f.append(self.prefix);
            push_decimal(f, offset as u32);
        }
        assert(final(f)@ =~= old(f)@ + bank_unit_name(*self, regunit as int));
    }
}

/// A register class is a subset of register units in a RegBank along with a set of
/// restrictions on the register units in the class.
pub struct RegClassData {
    /// The name of the register class.
    pub name: &'static str,
    /// The index of this class in the ISA's RegInfo description.
    pub index: u8,
    /// How many register units to allocate per register.
    pub width: u8,
    /// Index of the register bank this class belongs to.
    pub bank: u8,
    /// Index of the top-level register class contains this one.
    pub toprc: u8,
    /// The first register unit in this class.
    pub first: RegUnit,
    /// Bit-mask of sub-classes of this register class, including itself.
    pub subclasses: RegClassMask,
    /// Mask of register units in the class.
    pub mask: RegUnitMask,
    /// The global `RegInfo` instance containing this register class.
    pub pinned_reg: Option<RegUnit>,
}

/// The register unit of register number `offset` of a class.
pub open spec fn class_unit(rc: RegClassData, offset: int) -> int {
    rc.first + offset * rc.width
}

/// Whether a class mask has the bit of a register unit.
pub open spec fn class_contains(rc: RegClassData, regunit: int) -> bool {
    rc.mask[regunit / 32] & (1u32 << ((regunit % 32) as u32)) != 0
}

impl RegClassData {
    /// Get a specific register unit in this class.
    pub fn unit(&self, offset: usize) -> (r: RegUnit)
        requires
            self.first + offset * self.width <= 0xffff,
        ensures
            r == class_unit(*self, offset as int),
    {
        proof {
            assert(offset * self.width <= 0xffff) by (nonlinear_arith)
                requires
                    self.first + offset * self.width <= 0xffff,
                    self.first >= 0,
            ;
        }
        let uoffset = offset * (self.width as usize);
        self.first + uoffset as RegUnit
    }

    /// Does this register class contain `regunit`?
    pub fn contains(&self, regunit: RegUnit) -> (r: bool)
        requires
            regunit < 96,
        ensures
            r == class_contains(*self, regunit as int),
    {
        self.mask[(regunit / 32) as usize] & (1u32 << ((regunit % 32) as u32)) != 0
    }
}

/// Whether two registers, given by class and first unit, share a register unit.
pub open spec fn spec_regs_overlap(rc1: RegClassData, reg1: int, rc2: RegClassData, reg2: int) -> bool {
    !(reg1 + rc1.width <= reg2 || reg2 + rc2.width <= reg1)
}

/// Test of two registers overlap.
///
/// A register is identified as a `(RegClass, RegUnit)` pair. The register class is needed to
/// determine the width (in regunits) of the register.
pub fn regs_overlap(rc1: &RegClassData, reg1: RegUnit, rc2: &RegClassData, reg2: RegUnit) -> (r: bool)
    requires
        reg1 + rc1.width <= 0xffff,
        reg2 + rc2.width <= 0xffff,
    ensures
        r == spec_regs_overlap(*rc1, reg1 as int, *rc2, reg2 as int),
{
    let end1 = reg1 + rc1.width as RegUnit;
    let end2 = reg2 + rc2.width as RegUnit;
    !(end1 <= reg2 || end2 <= reg1)
}

/// Information about the registers in an ISA.
pub struct RegInfo {
    /// All register banks, ordered by their `first_unit`. The register banks are disjoint, but
    /// there may be holes of unused register unit numbers between banks due to alignment.
    pub banks: Vec<RegBank>,
    /// All register classes ordered topologically so a sub-class always follows its parent.
    pub classes: Vec<RegClassData>,
}

/// The first of `banks` that reads a register unit from `name`.
pub open spec fn info_parse(banks: Seq<RegBank>, name: Seq<char>) -> Option<nat>
    decreases banks.len(),
{
    if banks.len() == 0 {
        None
    } else {
        match bank_parse(banks[0], name) {
            Some(u) => Some(u),
            None => info_parse(banks.drop_first(), name),
        }
    }
}

/// The index of the first of `banks` that contains `regunit`.
pub open spec fn bank_index_of(banks: Seq<RegBank>, regunit: int) -> Option<nat>
    decreases banks.len(),
{
    if banks.len() == 0 {
        None
    } else if bank_contains(banks[0], regunit) {
        Some(0)
    } else {
        match bank_index_of(banks.drop_first(), regunit) {
            Some(i) => Some(i + 1),
            None => None,
        }
    }
}

/// How a register unit is displayed: by the first bank that contains it, or as invalid.
pub open spec fn regunit_text(banks: Seq<RegBank>, regunit: int) -> Seq<char> {
    match bank_index_of(banks, regunit) {
        Some(i) => bank_unit_name(banks[i as int], regunit),
        None => "%INVALID"@ + decimal(regunit as nat),
    }
}

/// The bank found for a register unit contains it.
pub proof fn lemma_bank_index_of(banks: Seq<RegBank>, regunit: int)
    ensures
        bank_index_of(banks, regunit) matches Some(i) ==> i < banks.len() && bank_contains(
            banks[i as int],
            regunit,
        ),
    decreases banks.len(),
{
    if banks.len() > 0 && !bank_contains(banks[0], regunit) {
        lemma_bank_index_of(banks.drop_first(), regunit);
    }
}

impl RegInfo {
    /// All banks are well formed.
    pub open spec fn wf(&self) -> bool {
        forall|i: int| 0 <= i < self.banks@.len() ==> #[trigger] self.banks@[i].wf()
    }

    /// Get the register bank holding `regunit`.
    pub fn bank_containing_regunit(&self, regunit: RegUnit) -> (r: Option<&RegBank>)
        ensures
            match bank_index_of(self.banks@, regunit as int) {
                Some(i) => r == Some(&self.banks@[i as int]),
                None => r is None,
            },
    {
        let mut i: usize = 0;
        assert(self.banks@.skip(0) =~= self.banks@);
        while i < self.banks.len()
            invariant
                i <= self.banks@.len(),
                bank_index_of(self.banks@, regunit as int) == match bank_index_of(
                    self.banks@.skip(i as int),
                    regunit as int,
                ) {
                    Some(k) => Some((k + i) as nat),
                    None => None::<nat>,
                },
            decreases self.banks@.len() - i,
        {
            assert(self.banks@.skip(i as int).drop_first() =~= self.banks@.skip(i + 1));
            if self.banks[i].contains(regunit) {
                return Some(&self.banks[i]);
            }
            i = i + 1;
        }
        None
    }

    /// Try to parse a regunit name. The name is not expected to begin with `%`.
    pub fn parse_regunit(&self, name: &str) -> (r: Option<RegUnit>)
        requires
            self.wf(),
        ensures
            match r {
                Some(u) => info_parse(self.banks@, name@) == Some(u as nat),
                None => info_parse(self.banks@, name@) is None,
            },
    {
        let mut i: usize = 0;
        assert(self.banks@.skip(0) =~= self.banks@);
        while i < self.banks.len()
            invariant
                self.wf(),
                i <= self.banks@.len(),
                info_parse(self.banks@, name@) == info_parse(self.banks@.skip(i as int), name@),
            decreases self.banks@.len() - i,
        {
            assert(self.banks@.skip(i as int).drop_first() =~= self.banks@.skip(i + 1));
            assert(self.banks@[i as int].wf());
            match self.banks[i].parse_regunit(name) {
                Some(u) => {
                    return Some(u);
                },
                None => {},
            }
            i = i + 1;
        }
        None
    }

    /// Make a temporary object that can display a register unit.
    pub fn display_regunit(&self, regunit: RegUnit) -> (s: String)
        ensures
            s@ == regunit_text(self.banks@, regunit as int),
    {
        let mut s = String::new();
        proof {
            lemma_bank_index_of(self.banks@, regunit as int);
        }
        match self.bank_containing_regunit(regunit) {
            Some(b) => {
                b.write_regunit(&mut s, regunit);
            },
            None => {
                s.append("%INVALID");
                push_decimal(&mut s, regunit as u32);
            },
        }
        s
    }
}

} // verus!

verus! {

/// Whether `regs_overlap` says two registers share a unit does not depend on the order in which
/// they are given.
pub proof fn law_regs_overlap_symmetric(rc1: RegClassData, reg1: int, rc2: RegClassData, reg2: int)
    ensures
        spec_regs_overlap(rc1, reg1, rc2, reg2) == spec_regs_overlap(rc2, reg2, rc1, reg1),
{
}

/// A register of nonzero width overlaps itself.
pub proof fn law_regs_overlap_reflexive(rc: RegClassData, reg: int)
    requires
        rc.width > 0,
    ensures
        spec_regs_overlap(rc, reg, rc, reg),
{
}

/// Two registers of width `w1` and `w2` at `reg1 <= reg2` overlap exactly when the second one
/// starts before the first one ends.
pub proof fn law_regs_overlap_intervals(rc1: RegClassData, reg1: int, rc2: RegClassData, reg2: int)
    requires
        reg1 <= reg2,
        rc2.width > 0,
    ensures
        spec_regs_overlap(rc1, reg1, rc2, reg2) == (reg2 < reg1 + rc1.width),
{
}

/// A name the register description does not read as a register unit: it cannot be a special
/// name or start with the prefix of any bank before `k`, nor with a digit or `+`.
pub open spec fn prefix_distinguishes(banks: Seq<RegBank>, k: int) -> bool {
    let c = banks[k].prefix@[0];
    &&& banks[k].prefix@.len() > 0
    &&& !('0' <= c <= '9')
    &&& c != '+'
    &&& forall|j: int|
        0 <= j < k ==> (banks[j].prefix@.len() == 0 || #[trigger] banks[j].prefix@[0] != c)
    &&& forall|j: int, i: int|
        0 <= j <= k && 0 <= i < banks[j].names@.len() ==> (#[trigger] banks[j].names@[i])@.len()
            == 0 || banks[j].names@[i]@[0] != c
}

proof fn lemma_position_none(choices: Seq<Seq<char>>, v: Seq<char>)
    requires
        forall|i: int| 0 <= i < choices.len() ==> choices[i] != v,
    ensures
        position(choices, v) is None,
    decreases choices.len(),
{
    if choices.len() > 0 {
        lemma_position_none(choices.drop_first(), v);
    }
}

proof fn lemma_info_parse_skip(banks: Seq<RegBank>, name: Seq<char>, k: int)
    requires
        0 <= k <= banks.len(),
        forall|j: int| 0 <= j < k ==> bank_parse(#[trigger] banks[j], name) is None,
    ensures
        info_parse(banks, name) == info_parse(banks.skip(k), name),
    decreases k,
{
    if k > 0 {
        assert(bank_parse(banks[0], name) is None);
        assert(banks.drop_first().skip(k - 1) =~= banks.skip(k));
        lemma_info_parse_skip(banks.drop_first(), name, k - 1);
    } else {
        assert(banks.skip(0) =~= banks);
    }
}

/// Reading back the displayed name of a register unit (without its `%` sigil) gives the unit,
/// for a unit with a prefixed name in a bank whose prefix tells it apart from the other banks.
pub proof fn law_display_parse_round_trip(banks: Seq<RegBank>, ru: int)
    requires
        bank_index_of(banks, ru) is Some,
        ({
            let k = bank_index_of(banks, ru).unwrap() as int;
            &&& prefix_distinguishes(banks, k)
            &&& banks[k].wf()
            &&& ru - banks[k].first_unit >= banks[k].names@.len()
        }),
    ensures
        info_parse(banks, regunit_text(banks, ru).drop_first()) == Some(ru as nat),
{
    lemma_bank_index_of(banks, ru);
    let k = bank_index_of(banks, ru).unwrap() as int;
    let b = banks[k];
    let off = (ru - b.first_unit) as nat;
    let text = regunit_text(banks, ru);
    let name = b.prefix@ + decimal(off);
    assert(text == "%"@ + name);
    reveal_strlit("%");
    assert(text.drop_first() =~= name);
    let c = b.prefix@[0];
    assert(name[0] == c);
    lemma_decimal_digits(off);
    assert forall|j: int| 0 <= j < k implies bank_parse(#[trigger] banks[j], name) is None by {
        let bj = banks[j];
        assert forall|i: int| 0 <= i < bank_names(bj).len() implies bank_names(bj)[i] != name by {
            assert(bank_names(bj)[i] == bj.names@[i]@);
        }
        lemma_position_none(bank_names(bj), name);
        if bj.prefix@.len() > 0 {
            assert(bj.prefix@.len() <= name.len() ==> name.subrange(0, bj.prefix@.len() as int)[0]
                != bj.prefix@[0]);
        } else {
            assert(name.subrange(0, 0) =~= bj.prefix@);
            assert(name.subrange(0, name.len() as int) =~= name);
            assert(!all_digits(name)) by {
                assert(!('0' <= name[0] <= '9'));
            }
        }
    }
    lemma_info_parse_skip(banks, name, k);
    assert(banks.skip(k)[0] == b);
    assert forall|i: int| 0 <= i < bank_names(b).len() implies bank_names(b)[i] != name by {
        assert(bank_names(b)[i] == b.names@[i]@);
    }
    lemma_position_none(bank_names(b), name);
    assert(name.subrange(0, b.prefix@.len() as int) =~= b.prefix@);
    assert(name.subrange(b.prefix@.len() as int, name.len() as int) =~= decimal(off));
}

} // verus!

verus! {

/// Which bits of the class masks used by the register descriptions are set.
pub proof fn lemma_mask_bits(x: u32)
    requires
        x < 32,
    ensures
        (0xffffffffu32 & (1u32 << x)) != 0,
        (0u32 & (1u32 << x)) == 0,
        ((0x55555555u32 & (1u32 << x)) != 0) == (x % 2 == 0),
        ((0x11111111u32 & (1u32 << x)) != 0) == (x % 4 == 0),
        ((0xffffu32 & (1u32 << x)) != 0) == (x < 16),
        ((0x10000u32 & (1u32 << x)) != 0) == (x == 16),
        ((1u32 & (1u32 << x)) != 0) == (x == 0),
{
    assert({
        &&& (0xffffffffu32 & (1u32 << x)) != 0
        &&& (0u32 & (1u32 << x)) == 0
        &&& ((0x55555555u32 & (1u32 << x)) != 0) == (x % 2 == 0)
        &&& ((0x11111111u32 & (1u32 << x)) != 0) == (x % 4 == 0)
        &&& ((0xffffu32 & (1u32 << x)) != 0) == (x < 16)
        &&& ((0x10000u32 & (1u32 << x)) != 0) == (x == 16)
        &&& ((1u32 & (1u32 << x)) != 0) == (x == 0)
    }) by (bit_vector)
        requires
            x < 32,
    ;
}

} // verus!
