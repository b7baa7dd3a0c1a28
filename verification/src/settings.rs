//! Shared settings module.
//!
//! Settings groups are described by a `Template`: the setting descriptors, the enumerator names,
//! a hash table for lookup by name, the default values and the presets. A `Builder` collects
//! values by name, and a finished `Flags` struct gives typed access to the `shared` group.

use vstd::prelude::*;
use crate::constant_hash::{probe, simple_hash, spec_simple_hash};
use crate::text::{join, lemma_position_skip, parse_unsigned, parse_u8, position, push_decimal, decimal, str_eq};
use vstd::slice::slice_subrange;

pub use crate::flags::{builder, setting_lines, Flags, FlagsOrIsa, OptLevel};

verus! {

/// An error produced when changing a setting.
#[derive(Debug, PartialEq, Eq)]
pub enum SetError {
    /// No setting by this name exists.
    BadName(String),
    /// Type mismatch for setting (e.g., setting an enum setting as a bool).
    BadType,
    /// This is not a valid value for this setting.
    BadValue(String),
}

/// The mathematical value of a `SetError`.
pub enum SetErrorSpec {
    BadName(Seq<char>),
    BadType,
    BadValue(Seq<char>),
}

impl View for SetError {
    type V = SetErrorSpec;

    open spec fn view(&self) -> SetErrorSpec {
        match self {
            SetError::BadName(s) => SetErrorSpec::BadName(s@),
            SetError::BadType => SetErrorSpec::BadType,
            SetError::BadValue(s) => SetErrorSpec::BadValue(s@),
        }
    }
}

impl SetError {
    /// The message of the error, as the error type displays it.
    pub fn message(&self) -> (s: String)
        ensures
            s@ == error_message(self@),
    {
        match self {
            SetError::BadName(name) => {
                let mut s = "No existing setting named '".to_owned();
                s.append(name.as_str());
                s.append("'");
                s
            },
            SetError::BadType => "Trying to set a setting with the wrong type".to_owned(),
            SetError::BadValue(v) => {
                let mut s = "Unexpected value for a setting, expected ".to_owned();
                s.append(v.as_str());
                s
            },
        }
    }
}

/// The message of an error.
pub open spec fn error_message(e: SetErrorSpec) -> Seq<char> {
    match e {
        SetErrorSpec::BadName(n) => "No existing setting named '"@ + n + "'"@,
        SetErrorSpec::BadType => "Trying to set a setting with the wrong type"@,
        SetErrorSpec::BadValue(v) => "Unexpected value for a setting, expected "@ + v,
    }
}

/// A result returned when changing a setting.
pub type SetResult<T> = Result<T, SetError>;

/// The different kind of settings along with descriptor bits that depend on the kind.
#[derive(Clone, Copy, PartialEq, Eq, Structural)]
pub enum Detail {
    /// A boolean setting only uses one bit, numbered from LSB.
    Bool {
        /// 0-7.
        bit: u8,
    },
    /// A numerical setting uses the whole byte.
    Num,
    /// An Enum setting uses a range of enumerators.
    Enum {
        /// Numerical value of last enumerator, allowing for 1-256 enumerators.
        last: u8,
        /// First enumerator in the ENUMERATORS table.
        enumerators: u16,
    },
    /// A preset is not an individual setting, it is a collection of settings applied at once.
    ///
    /// The `Descriptor::offset` field refers to the `PRESETS` table.
    Preset,
}

impl Detail {
    /// Check if a detail is a Detail::Preset. Useful because the Descriptor
    /// offset field has a different meaning when the detail is a preset.
    pub fn is_preset(self) -> (r: bool)
        ensures
            r == (self is Preset),
    {
        match self {
            Detail::Preset => true,
            _ => false,
        }
    }
}

/// A setting descriptor holds the information needed to generically set and print a setting.
#[derive(Clone)]
pub struct Descriptor {
    /// Lower snake-case name of setting as defined in meta.
    pub name: &'static str,
    /// Offset of byte containing this setting.
    pub offset: u32,
    /// Additional details, depending on the kind of setting.
    pub detail: Detail,
}

/// A settings group template.
#[derive(Clone)]
pub struct Template {
    /// Name of the settings group.
    pub name: &'static str,
    /// List of setting descriptors.
    pub descriptors: Vec<Descriptor>,
    /// Union of all enumerators.
    pub enumerators: Vec<&'static str>,
    /// Hash table of settings.
    pub hash_table: Vec<u16>,
    /// Default values.
    pub defaults: Vec<u8>,
    /// Pairs of (mask, value) for presets.
    pub presets: Vec<(u8, u8)>,
}

/// The value of a bit of a byte.
pub open spec fn bit_of(b: u8, bit: u8) -> bool {
    b & (1u8 << bit) != 0
}

/// A byte with one bit set or cleared.
pub open spec fn with_bit(b: u8, bit: u8, value: bool) -> u8 {
    if value {
        b | (1u8 << bit)
    } else {
        b & !(1u8 << bit)
    }
}

/// The position visited at step `k` of the quadratic probe that starts at slot `s` of a table
/// with `len` slots.
pub open spec fn probe_pos(len: nat, s: nat, k: nat) -> nat
    decreases k,
{
    if k == 0 {
        s
    } else {
        (probe_pos(len, s, (k - 1) as nat) + k) % len
    }
}

impl Template {
    /// Number of descriptors.
    pub open spec fn num_settings(&self) -> nat {
        self.descriptors@.len()
    }

    /// The name of descriptor `i`.
    pub open spec fn setting_name(&self, i: int) -> Seq<char> {
        self.descriptors@[i].name@
    }

    /// Whether a descriptor has this name.
    pub open spec fn has_setting(&self, name: Seq<char>) -> bool {
        exists|i: int| 0 <= i < self.num_settings() && #[trigger] self.setting_name(i) == name
    }

    /// The index of the descriptor with this name.
    pub open spec fn setting_index(&self, name: Seq<char>) -> int {
        choose|i: int| 0 <= i < self.num_settings() && #[trigger] self.setting_name(i) == name
    }

    /// The key stored in a hash table slot: the name of the descriptor it refers to, if any.
    pub open spec fn slot_key(&self, idx: int) -> Option<Seq<char>> {
        let e = self.hash_table@[idx] as int;
        if e < self.num_settings() {
            Some(self.setting_name(e))
        } else {
            None
        }
    }

    /// Slot visited at step `k` of the probe for `hash`.
    pub open spec fn probe_slot(&self, hash: nat, k: nat) -> int {
        probe_pos(self.hash_table@.len(), hash % self.hash_table@.len(), k) as int
    }

    /// Whether the probe for `hash` stops at step `k`: the slot is empty or holds `key`.
    pub open spec fn probe_stops(&self, key: Seq<char>, hash: nat, k: nat) -> bool {
        match self.slot_key(self.probe_slot(hash, k)) {
            None => true,
            Some(n) => n == key,
        }
    }

    /// The result of probing for `key` from step `k` on.
    pub open spec fn probe_from(&self, key: Seq<char>, hash: nat, k: nat) -> Result<usize, usize>
        decreases self.hash_table@.len() - k,
    {
        if k >= self.hash_table@.len() {
            Err(0)
        } else {
            let idx = self.probe_slot(hash, k);
            match self.slot_key(idx) {
                None => Err(idx as usize),
                Some(n) => if n == key {
                    Ok(idx as usize)
                } else {
                    self.probe_from(key, hash, k + 1)
                },
            }
        }
    }

    /// The result of probing the hash table for `key` with the given hash.
    pub open spec fn spec_probe(&self, key: Seq<char>, hash: nat) -> Result<usize, usize> {
        self.probe_from(key, hash, 0)
    }

    /// From start slot `s`, the probe meets an empty slot within `len` steps.
    pub open spec fn start_terminates(&self, s: nat) -> bool {
        exists|k: nat|
            k < self.hash_table@.len() && #[trigger] self.slot_key(
                probe_pos(self.hash_table@.len(), s, k) as int,
            ) is None
    }

    /// From every start slot, the probe meets an empty slot within `len` steps.
    pub open spec fn probe_terminates(&self) -> bool {
        forall|s: nat| s < self.hash_table@.len() ==> #[trigger] self.start_terminates(s)
    }

    /// Every descriptor is found by probing for its name.
    pub open spec fn probe_complete(&self) -> bool {
        forall|i: int|
            0 <= i < self.num_settings() ==> match #[trigger] self.spec_probe(
                self.setting_name(i),
                spec_simple_hash(self.setting_name(i)) as nat,
            ) {
                Ok(idx) => self.hash_table@[idx as int] as int == i,
                Err(_) => false,
            }
    }

    /// Descriptor names are distinct.
    pub open spec fn names_distinct(&self) -> bool {
        forall|i: int, j: int|
            0 <= i < self.num_settings() && 0 <= j < self.num_settings() && i != j
                ==> #[trigger] self.setting_name(i) != #[trigger] self.setting_name(j)
    }

    /// Descriptor `i` is consistent with the tables.
    pub open spec fn descriptor_wf(&self, i: int) -> bool {
        let d = self.descriptors@[i];
        match d.detail {
            Detail::Bool { bit } => d.offset < self.defaults@.len() && bit < 8,
            Detail::Num => d.offset < self.defaults@.len(),
            Detail::Enum { last, enumerators } => d.offset < self.defaults@.len()
                && enumerators + last + 1 <= self.enumerators@.len(),
            Detail::Preset => d.offset <= self.presets@.len(),
        }
    }

    /// The byte of an enum setting belongs to it alone, and no preset changes it.
    pub open spec fn enum_byte_exclusive(&self, i: int) -> bool {
        let d = self.descriptors@[i];
        d.detail is Enum ==> {
            &&& forall|j: int|
                0 <= j < self.num_settings() && j != i && !(self.descriptors@[j].detail is Preset)
                    ==> #[trigger] self.descriptors@[j].offset != d.offset
            &&& forall|j: int|
                0 <= j < self.num_settings() && #[trigger] self.descriptors@[j].detail is Preset
                    && self.descriptors@[j].offset + d.offset < self.presets@.len() ==> {
                    let p = self.presets@[self.descriptors@[j].offset + d.offset];
                    p.0 == 0 && p.1 == 0
                }
        }
    }

    /// Well-formed template.
    pub open spec fn wf(&self) -> bool {
        &&& 0 < self.hash_table@.len() <= 0x1000
        &&& self.num_settings() <= 0xffff
        &&& self.probe_terminates()
        &&& self.probe_complete()
        &&& self.names_distinct()
        &&& forall|i: int| 0 <= i < self.num_settings() ==> #[trigger] self.descriptor_wf(i)
        &&& forall|i: int| 0 <= i < self.num_settings() ==> #[trigger] self.enum_byte_exclusive(i)
    }

    /// The enumerator names of an enum setting.
    pub open spec fn spec_enums(&self, last: u8, enumerators: u16) -> Seq<Seq<char>> {
        self.enumerators@.subrange(enumerators as int, enumerators + last + 1).map_values(
            |s: &'static str| s@,
        )
    }

    /// Get enumerators corresponding to a `Details::Enum`.
    pub fn enums(&self, last: u8, enumerators: u16) -> (r: &[&'static str])
        requires
            enumerators + last + 1 <= self.enumerators@.len(),
        ensures
            r@ == self.enumerators@.subrange(enumerators as int, enumerators + last + 1),
    {
        let from = enumerators as usize;
        let len = last as usize + 1;
        slice_subrange(self.enumerators.as_slice(), from, from + len)
    }

    /// Number of slots of the hash table.
    pub fn len(&self) -> (r: usize)
        ensures
            r == self.hash_table@.len(),
    {
        self.hash_table.len()
    }

    /// The key in a slot of the hash table.
    pub fn key(&self, idx: usize) -> (r: Option<&'static str>)
        requires
            idx < self.hash_table@.len(),
        ensures
            match r {
                Some(k) => self.slot_key(idx as int) == Some(k@),
                None => self.slot_key(idx as int) is None,
            },
    {
        let e = self.hash_table[idx] as usize;
        if e < self.descriptors.len() {
            Some(self.descriptors[e].name)
        } else {
            None
        }
    }
}

} // verus!

verus! {

/// The value named by a boolean setting's text, if it names one.
pub open spec fn bool_word(v: Seq<char>) -> Option<bool> {
    if v == "true"@ || v == "on"@ || v == "yes"@ || v == "1"@ {
        Some(true)
    } else if v == "false"@ || v == "off"@ || v == "no"@ || v == "0"@ {
        Some(false)
    } else {
        None
    }
}

/// The message listing the accepted values of an enum setting.
pub open spec fn any_among(choices: Seq<Seq<char>>) -> Seq<char> {
    "any among "@ + join(choices, ", "@)
}

/// Every enum setting holds the index of one of its enumerators.
pub open spec fn enums_in_range(t: Template, bytes: Seq<u8>) -> bool {
    forall|i: int|
        0 <= i < t.num_settings() ==> match #[trigger] t.descriptors@[i].detail {
            Detail::Enum { last, .. } => bytes[t.descriptors@[i].offset as int] <= last,
            _ => true,
        }
}

/// A preset applied to the setting bytes: each byte is masked and or-ed with its (mask, value)
/// pair, as far as there are pairs.
pub open spec fn preset_applied(bytes: Seq<u8>, values: Seq<(u8, u8)>) -> Seq<u8> {
    Seq::new(
        bytes.len(),
        |i: int|
            if i < values.len() {
                (bytes[i] & !values[i].0) | values[i].1
            } else {
                bytes[i]
            },
    )
}

/// What `set(name, value)` does to the setting bytes of a builder for template `t`.
pub open spec fn spec_set(t: Template, bytes: Seq<u8>, name: Seq<char>, value: Seq<char>) -> Result<
    Seq<u8>,
    SetErrorSpec,
> {
    if !t.has_setting(name) {
        Err(SetErrorSpec::BadName(name))
    } else {
        let d = t.descriptors@[t.setting_index(name)];
        let off = d.offset as int;
        match d.detail {
            Detail::Bool { bit } => match bool_word(value) {
                Some(v) => Ok(bytes.update(off, with_bit(bytes[off], bit, v))),
                None => Err(SetErrorSpec::BadValue("bool"@)),
            },
            Detail::Num => match parse_unsigned(value, 255) {
                Some(n) => Ok(bytes.update(off, n as u8)),
                None => Err(SetErrorSpec::BadValue("number"@)),
            },
            Detail::Enum { last, enumerators } => match position(
                t.spec_enums(last, enumerators),
                value,
            ) {
                Some(i) => Ok(bytes.update(off, i as u8)),
                None => Err(SetErrorSpec::BadValue(any_among(t.spec_enums(last, enumerators)))),
            },
            Detail::Preset => Err(SetErrorSpec::BadName(name)),
        }
    }
}

/// What `enable(name)` does to the setting bytes of a builder for template `t`.
pub open spec fn spec_enable(t: Template, bytes: Seq<u8>, name: Seq<char>) -> Result<
    Seq<u8>,
    SetErrorSpec,
> {
    if !t.has_setting(name) {
        Err(SetErrorSpec::BadName(name))
    } else {
        let d = t.descriptors@[t.setting_index(name)];
        let off = d.offset as int;
        match d.detail {
            Detail::Bool { bit } => Ok(bytes.update(off, with_bit(bytes[off], bit, true))),
            Detail::Preset => Ok(preset_applied(bytes, t.presets@.subrange(off, t.presets@.len() as int))),
            _ => Err(SetErrorSpec::BadType),
        }
    }
}

/// A string-based configurator for settings groups.
///
/// The `Configurable` protocol allows settings to be modified by name before a finished `Flags`
/// struct is created.
pub trait Configurable {
    /// The configurator is in a consistent state.
    spec fn configurable_wf(&self) -> bool;

    /// Set the string value of any setting by name.
    ///
    /// This can set any type of setting whether it is numeric, boolean, or enumerated.
    fn set(&mut self, name: &str, value: &str) -> (r: SetResult<()>)
        requires
            old(self).configurable_wf(),
        ensures
            final(self).configurable_wf(),
    ;

    /// Enable a boolean setting or apply a preset.
    ///
    /// If the identified setting isn't a boolean or a preset, a `BadType` error is returned.
    fn enable(&mut self, name: &str) -> (r: SetResult<()>)
        requires
            old(self).configurable_wf(),
        ensures
            final(self).configurable_wf(),
    ;
}

/// Collect settings values based on a template.
#[derive(Clone)]
pub struct Builder {
    template: Template,
    bytes: Vec<u8>,
}

fn parse_bool_value(value: &str) -> (r: SetResult<bool>)
    ensures
        match r {
            Ok(b) => bool_word(value@) == Some(b),
            Err(e) => bool_word(value@) is None && e@ == SetErrorSpec::BadValue("bool"@),
        },
{
    if str_eq(value, "true") || str_eq(value, "on") || str_eq(value, "yes") || str_eq(value, "1") {
        Ok(true)
    } else if str_eq(value, "false") || str_eq(value, "off") || str_eq(value, "no") || str_eq(
        value,
        "0",
    ) {
        Ok(false)
    } else {
        Err(SetError::BadValue("bool".to_owned()))
    }
}

proof fn lemma_join_push(parts: Seq<Seq<char>>, sep: Seq<char>, p: Seq<char>)
    ensures
        join(parts.push(p), sep) == if parts.len() == 0 {
            p
        } else {
            join(parts, sep) + sep + p
        },
{
    assert(parts.push(p).drop_last() =~= parts);
}

fn parse_enum_value(value: &str, choices: &[&str]) -> (r: SetResult<u8>)
    requires
        choices@.len() <= 256,
    ensures
        match r {
            Ok(i) => position(choices@.map_values(|s: &str| s@), value@) == Some(i as nat),
            Err(e) => position(choices@.map_values(|s: &str| s@), value@) is None && e@
                == SetErrorSpec::BadValue(any_among(choices@.map_values(|s: &str| s@))),
        },
{
    let ghost names = choices@.map_values(|s: &str| s@);
    let mut i: usize = 0;
    while i < choices.len()
        invariant
            names == choices@.map_values(|s: &str| s@),
            choices@.len() <= 256,
            i <= choices@.len(),
            forall|j: int| 0 <= j < i ==> names[j] != value@,
        decreases choices@.len() - i,
    {
        if str_eq(choices[i], value) {
            proof {
                lemma_position_skip(names, value@, i as int);
                assert(names.skip(i as int)[0] == value@);
            }
            return Ok(i as u8);
        }
        i = i + 1;
    }
    proof {
        lemma_position_skip(names, value@, i as int);
        assert(names.skip(i as int).len() == 0);
    }
    let mut all_choices = String::new();
    let mut first = true;
    let mut k: usize = 0;
    while k < choices.len()
        invariant
            names == choices@.map_values(|s: &str| s@),
            k <= choices@.len(),
            first == (k == 0),
            all_choices@ == join(names.take(k as int), ", "@),
        decreases choices@.len() - k,
    {
        let choice = choices[k];
        proof {
            lemma_join_push(names.take(k as int), ", "@, names[k as int]);
            assert(names.take(k as int).push(names[k as int]) =~= names.take(k + 1));
        }
        if first {
            first = false;
        } else {
            all_choices.append(", ");
        }
        all_choices.append(choice);
        k = k + 1;
    }
    assert(names.take(k as int) =~= names);
    let mut msg = "any among ".to_owned();
    msg.append(all_choices.as_str());
    Err(SetError::BadValue(msg))
}

} // verus!

verus! {

impl Builder {
    /// The template of the settings group.
    pub closed spec fn spec_template(&self) -> Template {
        self.template
    }

    /// The setting bytes collected so far.
    pub closed spec fn spec_bytes(&self) -> Seq<u8> {
        self.bytes@
    }

    /// A builder is consistent with its template.
    pub open spec fn wf(&self) -> bool {
        &&& self.spec_template().wf()
        &&& self.spec_bytes().len() == self.spec_template().defaults@.len()
        &&& enums_in_range(self.spec_template(), self.spec_bytes())
    }

    /// Create a new builder with defaults and names from the given template.
    pub fn new(tmpl: Template) -> (b: Self)
        ensures
            b.spec_template() == tmpl,
            b.spec_bytes() == tmpl.defaults@,
    {
        let bytes = vstd::slice::slice_to_vec(tmpl.defaults.as_slice());
        Self { template: tmpl, bytes }
    }

    /// Extract contents of builder once everything is configured.
    pub fn state_for(self, name: &str) -> (r: Vec<u8>)
        requires
            name@ == self.spec_template().name@,
        ensures
            r@ == self.spec_bytes(),
    {
        self.bytes
    }

    /// Set the value of a single bit.
    fn set_bit(&mut self, offset: usize, bit: u8, value: bool)
        requires
            offset < old(self).bytes@.len(),
            bit < 8,
        ensures
            final(self).template == old(self).template,
            final(self).bytes@ == old(self).bytes@.update(
                offset as int,
                with_bit(old(self).bytes@[offset as int], bit, value),
            ),
    {
        let byte = self.bytes[offset];
        let mask: u8 = 1u8 << bit;
        if value {
            self.bytes.set(offset, byte | mask);
        } else {
            self.bytes.set(offset, byte & !mask);
        }
    }

    /// Apply a preset. The argument is a slice of (mask, value) bytes.
    fn apply_preset(bytes: &mut Vec<u8>, values: &[(u8, u8)])
        ensures
            final(bytes)@ == preset_applied(old(bytes)@, values@),
    {
        let n = bytes.len();
        let mut i: usize = 0;
        while i < n && i < values.len()
            invariant
                n == old(bytes)@.len(),
                bytes@.len() == n,
                i <= n,
                forall|j: int|
                    0 <= j < n ==> #[trigger] bytes@[j] == if j < i {
                        preset_applied(old(bytes)@, values@)[j]
                    } else {
                        old(bytes)@[j]
                    },
            decreases n - i,
        {
            let (mask, value) = values[i];
            let b = bytes[i];
            bytes.set(i, (b & !mask) | value);
            i = i + 1;
        }
        assert(bytes@ =~= preset_applied(old(bytes)@, values@));
    }

    /// Look up a descriptor by name.
    fn lookup(&self, name: &str) -> (r: SetResult<(usize, Detail)>)
        requires
            self.template.wf(),
        ensures
            match r {
                Ok((offset, detail)) => {
                    &&& self.template.has_setting(name@)
                    &&& offset == self.template.descriptors@[self.template.setting_index(
                        name@,
                    )].offset
                    &&& detail == self.template.descriptors@[self.template.setting_index(
                        name@,
                    )].detail
                },
                Err(e) => !self.template.has_setting(name@) && e@ == SetErrorSpec::BadName(name@),
            },
    {
        let h = simple_hash(name);
        match probe(&self.template, name, h) {
            Err(_) => {
                proof {
                    if self.template.has_setting(name@) {
                        let i = choose|i: int|
                            0 <= i < self.template.num_settings()
                                && #[trigger] self.template.setting_name(i) == name@;
                        assert(self.template.spec_probe(
                            self.template.setting_name(i),
                            spec_simple_hash(self.template.setting_name(i)) as nat,
                        ) is Ok);
                    }
                }
                Err(SetError::BadName(name.to_owned()))
            },
            Ok(entry) => {
                let e = self.template.hash_table[entry] as usize;
                let d = &self.template.descriptors[e];
                proof {
                    let i = self.template.setting_index(name@);
                    assert(self.template.setting_name(e as int) == name@);
                    assert(self.template.has_setting(name@));
                    assert(self.template.setting_name(i) == name@);
                    assert(i == e as int);
                }
                Ok((d.offset as usize, d.detail))
            },
        }
    }
}

} // verus!

verus! {

proof fn lemma_set_byte_keeps_enums(t: Template, bytes: Seq<u8>, i: int, b: u8)
    requires
        t.wf(),
        enums_in_range(t, bytes),
        bytes.len() == t.defaults@.len(),
        0 <= i < t.num_settings(),
        !(t.descriptors@[i].detail is Preset),
        match t.descriptors@[i].detail {
            Detail::Enum { last, .. } => b <= last,
            _ => true,
        },
    ensures
        enums_in_range(t, bytes.update(t.descriptors@[i].offset as int, b)),
{
    let off = t.descriptors@[i].offset as int;
    assert forall|j: int| 0 <= j < t.num_settings() implies match #[trigger] t.descriptors@[j].detail {
        Detail::Enum { last, .. } => bytes.update(off, b)[t.descriptors@[j].offset as int] <= last,
        _ => true,
    } by {
        assert(t.descriptor_wf(i));
        if let Detail::Enum { last, .. } = t.descriptors@[j].detail {
            assert(t.descriptor_wf(j));
            let oj = t.descriptors@[j].offset as int;
            if j != i {
                assert(t.enum_byte_exclusive(j));
                assert(t.descriptors@[i].offset != t.descriptors@[j].offset);
                assert(bytes.update(off, b)[oj] == bytes[oj]);
                assert(bytes[oj] <= last);
            } else {
                assert(bytes.update(off, b)[oj] == b);
            }
        }
    }
}

proof fn lemma_preset_keeps_enums(t: Template, bytes: Seq<u8>, p: int)
    requires
        t.wf(),
        enums_in_range(t, bytes),
        bytes.len() == t.defaults@.len(),
        0 <= p < t.num_settings(),
        t.descriptors@[p].detail is Preset,
    ensures
        enums_in_range(
            t,
            preset_applied(
                bytes,
                t.presets@.subrange(t.descriptors@[p].offset as int, t.presets@.len() as int),
            ),
        ),
{
    let off = t.descriptors@[p].offset as int;
    assert(t.descriptor_wf(p));
    let vals = t.presets@.subrange(off, t.presets@.len() as int);
    let nb = preset_applied(bytes, vals);
    assert forall|j: int| 0 <= j < t.num_settings() implies match #[trigger] t.descriptors@[j].detail {
        Detail::Enum { last, .. } => nb[t.descriptors@[j].offset as int] <= last,
        _ => true,
    } by {
        if let Detail::Enum { last, .. } = t.descriptors@[j].detail {
            assert(t.enum_byte_exclusive(j));
            assert(t.descriptor_wf(j));
            let o = t.descriptors@[j].offset as int;
            if o < vals.len() {
                assert(t.presets@[off + o] == vals[o]);
                let b = bytes[o];
                assert((b & !0u8) | 0u8 == b) by (bit_vector);
            }
        }
    }
}

impl Configurable for Builder {
    open spec fn configurable_wf(&self) -> bool {
        self.wf()
    }

    fn enable(&mut self, name: &str) -> (r: SetResult<()>)
        ensures
            final(self).spec_template() == old(self).spec_template(),
            match r {
                Ok(()) => spec_enable(
                    old(self).spec_template(),
                    old(self).spec_bytes(),
                    name@,
                ) == Ok::<Seq<u8>, SetErrorSpec>(final(self).spec_bytes()),
                Err(e) => spec_enable(old(self).spec_template(), old(self).spec_bytes(), name@)
                    == Err::<Seq<u8>, SetErrorSpec>(e@) && final(self).spec_bytes()
                    == old(self).spec_bytes(),
            },
    {
        let (offset, detail) = match self.lookup(name) {
            Ok(x) => x,
            Err(e) => {
                return Err(e);
            },
        };
        let ghost i = self.template.setting_index(name@);
        proof {
            assert(self.template.descriptor_wf(i));
        }
        match detail {
            Detail::Bool { bit } => {
                proof {
                    lemma_set_byte_keeps_enums(
                        self.template,
                        self.bytes@,
                        i,
                        with_bit(self.bytes@[offset as int], bit, true),
                    );
                }
                self.set_bit(offset, bit, true);
                Ok(())
            },
            Detail::Preset => {
                proof {
                    lemma_preset_keeps_enums(self.template, self.bytes@, i);
                }
                let values = slice_subrange(
                    self.template.presets.as_slice(),
                    offset,
                    self.template.presets.len(),
                );
                Self::apply_preset(&mut self.bytes, values);
                Ok(())
            },
            _ => Err(SetError::BadType),
        }
    }

    fn set(&mut self, name: &str, value: &str) -> (r: SetResult<()>)
        ensures
            final(self).spec_template() == old(self).spec_template(),
            match r {
                Ok(()) => spec_set(
                    old(self).spec_template(),
                    old(self).spec_bytes(),
                    name@,
                    value@,
                ) == Ok::<Seq<u8>, SetErrorSpec>(final(self).spec_bytes()),
                Err(e) => spec_set(
                    old(self).spec_template(),
                    old(self).spec_bytes(),
                    name@,
                    value@,
                ) == Err::<Seq<u8>, SetErrorSpec>(e@) && final(self).spec_bytes()
                    == old(self).spec_bytes(),
            },
    {
        let (offset, detail) = match self.lookup(name) {
            Ok(x) => x,
            Err(e) => {
                return Err(e);
            },
        };
        let ghost i = self.template.setting_index(name@);
        proof {
            assert(self.template.descriptor_wf(i));
        }
        match detail {
            Detail::Bool { bit } => {
                let v = match parse_bool_value(value) {
                    Ok(v) => v,
                    Err(e) => {
                        return Err(e);
                    },
                };
                proof {
                    lemma_set_byte_keeps_enums(
                        self.template,
                        self.bytes@,
                        i,
                        with_bit(self.bytes@[offset as int], bit, v),
                    );
                }
                self.set_bit(offset, bit, v);
            },
            Detail::Num => {
                match parse_u8(value) {
                    Some(n) => {
                        proof {
                            lemma_set_byte_keeps_enums(self.template, self.bytes@, i, n);
                        }
                        self.bytes.set(offset, n);
                    },
                    None => {
                        return Err(SetError::BadValue("number".to_owned()));
                    },
                }
            },
            Detail::Enum { last, enumerators } => {
                let choices = self.template.enums(last, enumerators);
                proof {
                    assert(choices@.map_values(|s: &str| s@) =~= self.template.spec_enums(
                        last,
                        enumerators,
                    ));
                }
                let n = match parse_enum_value(value, choices) {
                    Ok(n) => n,
                    Err(e) => {
                        return Err(e);
                    },
                };
                proof {
                    lemma_position_bound(self.template.spec_enums(last, enumerators), value@);
                    lemma_set_byte_keeps_enums(self.template, self.bytes@, i, n);
                }
                self.bytes.set(offset, n);
            },
            Detail::Preset => {
                return Err(SetError::BadName(name.to_owned()));
            },
        }
        Ok(())
    }
}

proof fn lemma_position_bound(choices: Seq<Seq<char>>, v: Seq<char>)
    ensures
        position(choices, v) matches Some(i) ==> i < choices.len() && choices[i as int] == v,
    decreases choices.len(),
{
    if choices.len() > 0 && choices[0] != v {
        lemma_position_bound(choices.drop_first(), v);
    }
}

} // verus!

verus! {

/// The text of a setting value in TOML syntax; presets print nothing.
pub open spec fn toml_value(t: Template, detail: Detail, byte: u8) -> Seq<char> {
    match detail {
        Detail::Bool { bit } => if bit_of(byte, bit) {
            "true"@
        } else {
            "false"@
        },
        Detail::Num => decimal(byte as nat),
        Detail::Enum { last, enumerators } => if byte <= last {
            "\""@ + t.spec_enums(last, enumerators)[byte as int] + "\""@
        } else {
            decimal(byte as nat)
        },
        Detail::Preset => Seq::empty(),
    }
}

impl Template {
    /// Format a setting value as a TOML string. This is mostly for use by the
    /// text form of the flags.
    pub fn format_toml_value(&self, detail: Detail, byte: u8, f: &mut String)
        requires
            match detail {
                Detail::Bool { bit } => bit < 8,
                Detail::Enum { last, enumerators } => enumerators + last + 1
                    <= self.enumerators@.len(),
                _ => true,
            },
        ensures
            final(f)@ == old(f)@ + toml_value(*self, detail, byte),
    {
        match detail {
            Detail::Bool { bit } => {
                if (byte & (1u8 << bit)) != 0 {
                    f.append("true");
                } else {
                    f.append("false");
                }
            },
            Detail::Num => {
                push_decimal(f, byte as u32);
            },
            Detail::Enum { last, enumerators } => {
                if byte <= last {
                    let tags = self.enums(last, enumerators);
                    f.append("\"");
                    f.append(tags[byte as usize]);
                    f.append("\"");
                    proof {
                        assert(self.spec_enums(last, enumerators)[byte as int] == tags@[
                            byte as int
                        ]@);
                        assert(final(f)@ =~= old(f)@ + toml_value(*self, detail, byte));
                    }
                } else {
                    push_decimal(f, byte as u32);
                }
            },
            Detail::Preset => {
                assert(old(f)@ + toml_value(*self, detail, byte) =~= old(f)@);
            },
        }
    }
}

/// A reference to just the boolean predicates of a settings object.
///
/// Each settings object provides a `predicate_view()` method that makes it possible to query
/// predicates by number.
#[derive(Clone, Copy)]
pub struct PredicateView<'a>(&'a [u8]);

impl<'a> PredicateView<'a> {
    /// The predicate bytes.
    pub closed spec fn bits(&self) -> Seq<u8> {
        self.0@
    }

    /// Create a new view of a precomputed predicate vector.
    pub fn new(bits: &'a [u8]) -> (r: Self)
        ensures
            r.bits() == bits@,
    {
        PredicateView(bits)
    }

    /// Check a numbered predicate.
    pub fn test(self, p: usize) -> (r: bool)
        requires
            p / 8 < self.bits().len(),
        ensures
            r == bit_of(self.bits()[(p / 8) as int], (p % 8) as u8),
    {
        self.0[p / 8] & (1u8 << ((p % 8) as u8)) != 0
    }
}

} // verus!
