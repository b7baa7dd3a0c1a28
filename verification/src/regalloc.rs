//! Register diversions: values that a register move, spill or fill has temporarily moved away
//! from the location the register allocator assigned them.

use vstd::prelude::*;
use crate::isa::registers::RegUnit;

verus! {

/// Where a value lives.
#[derive(Copy, Clone, Debug, PartialEq, Eq, Structural)]
pub enum ValueLoc {
    /// In a register unit.
    Reg(RegUnit),
    /// In a stack slot, by number.
    Stack(u32),
}

/// A diversion of a value from one location to another.
#[derive(Copy, Clone, Debug, PartialEq, Eq, Structural)]
pub struct Diversion {
    /// The location the value was assigned to.
    pub from: ValueLoc,
    /// The location the value now lives in.
    pub to: ValueLoc,
}

/// A diverted value, by number, with its diversion.
#[derive(Copy, Clone, Debug, PartialEq, Eq, Structural)]
pub struct DivertedValue {
    /// The value.
    pub value: u32,
    /// Its diversion.
    pub diversion: Diversion,
}

/// The current diversions: at most one per value.
pub struct RegDiversions {
    current: Vec<DivertedValue>,
}

/// The diversion map after diverting `value` from `from` to `to`: a value diverted back to where
/// it was assigned is no longer diverted.
pub open spec fn diverted(m: Map<u32, Diversion>, value: u32, from: ValueLoc, to: ValueLoc) -> Map<u32, Diversion> {
    if m.contains_key(value) {
        if m[value].from != to {
            m.insert(value, Diversion { from: m[value].from, to })
        } else {
            m.remove(value)
        }
    } else {
        m.insert(value, Diversion { from, to })
    }
}

/// Where `value` lives, given the diversions `m` and the allocator's assignment `locations`.
pub open spec fn current_location(m: Map<u32, Diversion>, locations: Seq<ValueLoc>, value: u32) -> ValueLoc {
    if m.contains_key(value) {
        m[value].to
    } else {
        locations[value as int]
    }
}

/// The entries hold each value at most once.
pub open spec fn entries_distinct(s: Seq<DivertedValue>) -> bool {
    forall|i: int, j: int| 0 <= i < j < s.len() ==> s[i].value != s[j].value
}

/// The map the entries describe.
pub open spec fn entries_map(s: Seq<DivertedValue>) -> Map<u32, Diversion> {
    Map::new(
        |v: u32| exists|i: int| 0 <= i < s.len() && s[i].value == v,
        |v: u32| s[choose|i: int| 0 <= i < s.len() && s[i].value == v].diversion,
    )
}

impl View for RegDiversions {
    type V = Map<u32, Diversion>;

    closed spec fn view(&self) -> Map<u32, Diversion> {
        entries_map(self.current@)
    }
}

impl RegDiversions {
    #[verifier::type_invariant]
    spec fn inv(self) -> bool {
        entries_distinct(self.current@)
    }

    /// No diversions.
    pub fn new() -> (r: Self)
        ensures
            r@ == Map::<u32, Diversion>::empty(),
    {
        let r = RegDiversions { current: Vec::new() };
        assert(r@ =~= Map::<u32, Diversion>::empty());
        r
    }

    /// The diversion of `value`, if it is diverted.
    pub fn diversion(&self, value: u32) -> (r: Option<Diversion>)
        ensures
            r == (if self@.contains_key(value) {
                Some(self@[value])
            } else {
                None
            }),
    {
        proof {
            use_type_invariant(self);
        }
        match self.find(value) {
            Some(i) => Some(self.current[i].diversion),
            None => None,
        }
    }

    /// The location `value` lives in now: where it was diverted to, or else where the register
    /// allocator assigned it.
    pub fn location(&self, value: u32, locations: &Vec<ValueLoc>) -> (r: ValueLoc)
        requires
            value < locations@.len(),
        ensures
            r == current_location(self@, locations@, value),
    {
        match self.diversion(value) {
            Some(d) => d.to,
            None => locations[value as usize],
        }
    }

    /// The register `value` lives in now. It must live in a register.
    pub fn reg(&self, value: u32, locations: &Vec<ValueLoc>) -> (r: RegUnit)
        requires
            value < locations@.len(),
            current_location(self@, locations@, value) is Reg,
        ensures
            current_location(self@, locations@, value) == ValueLoc::Reg(r),
    {
        match self.location(value, locations) {
            ValueLoc::Reg(r) => r,
            ValueLoc::Stack(_) => 0,
        }
    }

    /// The index of the entry of `value`.
    fn find(&self, value: u32) -> (r: Option<usize>)
        requires
            entries_distinct(self.current@),
        ensures
            match r {
                Some(i) => i < self.current@.len() && self.current@[i as int].value == value
                    && self@.contains_key(value) && self@[value] == self.current@[i as int].diversion,
                None => !self@.contains_key(value),
            },
    {
        let n = self.current.len();
        let mut i: usize = 0;
        while i < n
            invariant
                n == self.current@.len(),
                i <= n,
                forall|j: int| 0 <= j < i ==> self.current@[j].value != value,
                entries_distinct(self.current@),
            decreases n - i,
        {
            if self.current[i].value == value {
                proof {
                    let s = self.current@;
                    assert(exists|k: int| 0 <= k < s.len() && s[k].value == value);
                    let k = choose|k: int| 0 <= k < s.len() && s[k].value == value;
                    assert(k == i as int);
                }
                return Some(i);
            }
            i += 1;
        }
        None
    }

    /// Record that `value` moved from `from` to `to`. It must currently live in `from`.
    pub fn divert(&mut self, value: u32, from: ValueLoc, to: ValueLoc)
        requires
            old(self)@.contains_key(value) ==> old(self)@[value].to == from,
        ensures
            final(self)@ == diverted(old(self)@, value, from, to),
    {
        proof {
            use_type_invariant(&*self);
        }
        let ghost s0 = self.current@;
        let found = self.find(value);
        let mut cur: Vec<DivertedValue> = Vec::new();
        std::mem::swap(&mut cur, &mut self.current);
        match found {
            Some(i) => {
                let d = cur[i];
                if d.diversion.from != to {
                    let e = DivertedValue { value, diversion: Diversion { from: d.diversion.from, to } };
                    cur.set(i, e);
                    proof {
                        let s = cur@;
                        assert(s =~= s0.update(i as int, e));
                        assert forall|v: u32| #[trigger] entries_map(s).contains_key(v) == diverted(entries_map(s0), value, from, to).contains_key(v) by {
                            if v == value {
                                assert(s[i as int].value == v);
                            } else {
                                if exists|k: int| 0 <= k < s0.len() && s0[k].value == v {
                                    let k = choose|k: int| 0 <= k < s0.len() && s0[k].value == v;
                                    assert(s[k].value == v);
                                }
                            }
                        }
                        assert forall|v: u32| #[trigger] entries_map(s).contains_key(v) implies entries_map(s)[v] == diverted(entries_map(s0), value, from, to)[v] by {
                            let k = choose|k: int| 0 <= k < s.len() && s[k].value == v;
                            if v != value {
                                assert(s0[k].value == v);
                                let k0 = choose|k0: int| 0 <= k0 < s0.len() && s0[k0].value == v;
                                assert(k0 == k);
                            } else {
                                assert(k == i as int);
                            }
                        }
                        assert(entries_map(s) =~= diverted(entries_map(s0), value, from, to));
                    }
                } else {
                    cur.remove(i);
                    proof {
                        let s = cur@;
                        assert(s =~= s0.remove(i as int));
                        assert forall|v: u32| #[trigger] entries_map(s).contains_key(v) == diverted(entries_map(s0), value, from, to).contains_key(v) by {
                            if exists|k: int| 0 <= k < s0.len() && s0[k].value == v {
                                let k = choose|k: int| 0 <= k < s0.len() && s0[k].value == v;
                                if v != value {
                                    if k < i {
                                        assert(s[k].value == v);
                                    } else {
                                        assert(s[k - 1].value == v);
                                    }
                                }
                            }
                            if exists|k: int| 0 <= k < s.len() && s[k].value == v {
                                let k = choose|k: int| 0 <= k < s.len() && s[k].value == v;
                                if k < i {
                                    assert(s0[k].value == v);
                                } else {
                                    assert(s0[k + 1].value == v);
                                }
                            }
                        }
                        assert forall|v: u32| #[trigger] entries_map(s).contains_key(v) implies entries_map(s)[v] == diverted(entries_map(s0), value, from, to)[v] by {
                            let k = choose|k: int| 0 <= k < s.len() && s[k].value == v;
                            let k1 = if k < i { k } else { k + 1 };
                            assert(s0[k1].value == v);
                            let k0 = choose|k0: int| 0 <= k0 < s0.len() && s0[k0].value == v;
                            assert(k0 == k1);
                        }
                        assert(entries_map(s) =~= diverted(entries_map(s0), value, from, to));
                    }
                }
            },
            None => {
                let e = DivertedValue { value, diversion: Diversion { from, to } };
                cur.push(e);
                proof {
                    let s = cur@;
                    assert(s =~= s0.push(e));
                    assert forall|v: u32| #[trigger] entries_map(s).contains_key(v) == diverted(entries_map(s0), value, from, to).contains_key(v) by {
                        if v == value {
                            assert(s[s0.len() as int].value == v);
                        } else if exists|k: int| 0 <= k < s0.len() && s0[k].value == v {
                            let k = choose|k: int| 0 <= k < s0.len() && s0[k].value == v;
                            assert(s[k].value == v);
                        }
                    }
                    assert forall|v: u32| #[trigger] entries_map(s).contains_key(v) implies entries_map(s)[v] == diverted(entries_map(s0), value, from, to)[v] by {
                        let k = choose|k: int| 0 <= k < s.len() && s[k].value == v;
                        if v != value {
                            assert(k < s0.len());
                            assert(s0[k].value == v);
                            let k0 = choose|k0: int| 0 <= k0 < s0.len() && s0[k0].value == v;
                            assert(k0 == k);
                        } else {
                            assert(k == s0.len());
                        }
                    }
                    assert(entries_map(s) =~= diverted(entries_map(s0), value, from, to));
                }
            },
        }
        self.current = cur;
    }

    /// Record a register move of `value` from register `from` to register `to`.
    pub fn regmove(&mut self, value: u32, from: RegUnit, to: RegUnit)
        requires
            old(self)@.contains_key(value) ==> old(self)@[value].to == ValueLoc::Reg(from),
        ensures
            final(self)@ == diverted(old(self)@, value, ValueLoc::Reg(from), ValueLoc::Reg(to)),
    {
        self.divert(value, ValueLoc::Reg(from), ValueLoc::Reg(to));
    }

    /// Record a spill of `value` from register `from` to stack slot `to`.
    pub fn regspill(&mut self, value: u32, from: RegUnit, to: u32)
        requires
            old(self)@.contains_key(value) ==> old(self)@[value].to == ValueLoc::Reg(from),
        ensures
            final(self)@ == diverted(old(self)@, value, ValueLoc::Reg(from), ValueLoc::Stack(to)),
    {
        self.divert(value, ValueLoc::Reg(from), ValueLoc::Stack(to));
    }

    /// Record a fill of `value` from stack slot `from` to register `to`.
    pub fn regfill(&mut self, value: u32, from: u32, to: RegUnit)
        requires
            old(self)@.contains_key(value) ==> old(self)@[value].to == ValueLoc::Stack(from),
        ensures
            final(self)@ == diverted(old(self)@, value, ValueLoc::Stack(from), ValueLoc::Reg(to)),
    {
        self.divert(value, ValueLoc::Stack(from), ValueLoc::Reg(to));
    }
}

} // verus!
