//! Laws of the settings builder and of the `shared` flags.

use vstd::prelude::*;
use crate::flags::{opt_level_index, opt_level_name, opt_level_named, OptLevel};
use crate::settings::{
    bit_of, bool_word, spec_enable, spec_set, with_bit, Detail, SetErrorSpec, Template,
};
use crate::shared_flags::{is_shared_template, lemma_shared_template_wf};
use crate::text::{all_digits, decimal, digit_char, digits_value, lemma_decimal_digits, parse_unsigned, position};

verus! {

proof fn lemma_with_bit(b: u8, bit: u8, v: bool, other: u8)
    requires
        bit < 8,
        other < 8,
    ensures
        bit_of(with_bit(b, bit, v), bit) == v,
        other != bit ==> bit_of(with_bit(b, bit, v), other) == bit_of(b, other),
{
    if v {
        assert(((b | (1u8 << bit)) & (1u8 << bit)) != 0) by (bit_vector)
            requires
                bit < 8,
        ;
        assert(other != bit ==> (((b | (1u8 << bit)) & (1u8 << other)) != 0) == ((b & (1u8
            << other)) != 0)) by (bit_vector)
            requires
                bit < 8,
                other < 8,
        ;
    } else {
        assert(((b & !(1u8 << bit)) & (1u8 << bit)) == 0) by (bit_vector)
            requires
                bit < 8,
        ;
        assert(other != bit ==> (((b & !(1u8 << bit)) & (1u8 << other)) != 0) == ((b & (1u8
            << other)) != 0)) by (bit_vector)
            requires
                bit < 8,
                other < 8,
        ;
    }
}

/// Setting a boolean setting to a boolean word stores that value in the setting's bit, and
/// changes no other bit of any setting byte.
pub proof fn law_set_bool_reads_back(t: Template, bytes: Seq<u8>, i: int, value: Seq<char>)
    requires
        t.wf(),
        bytes.len() == t.defaults@.len(),
        0 <= i < t.num_settings(),
        t.descriptors@[i].detail is Bool,
        bool_word(value) is Some,
    ensures
        match spec_set(t, bytes, t.setting_name(i), value) {
            Ok(b2) => {
                let off = t.descriptors@[i].offset as int;
                let bit = t.descriptors@[i].detail->bit;
                &&& b2.len() == bytes.len()
                &&& bit_of(b2[off], bit) == bool_word(value).unwrap()
                &&& forall|other: u8| other < 8 && other != bit ==> bit_of(b2[off], other) == bit_of(bytes[off], other)
                &&& forall|j: int| 0 <= j < bytes.len() && j != off ==> b2[j] == bytes[j]
            },
            Err(_) => false,
        },
{
    let name = t.setting_name(i);
    assert(t.has_setting(name));
    assert(t.setting_index(name) == i) by {
        assert(t.names_distinct());
    }
    assert(t.descriptor_wf(i));
    let off = t.descriptors@[i].offset as int;
    let bit = t.descriptors@[i].detail->bit;
    let v = bool_word(value).unwrap();
    assert forall|other: u8| other < 8 && other != bit implies bit_of(
        with_bit(bytes[off], bit, v),
        other,
    ) == bit_of(bytes[off], other) by {
        lemma_with_bit(bytes[off], bit, v, other);
    }
    lemma_with_bit(bytes[off], bit, v, 0);
}

/// Enabling a boolean setting is the same as setting it to `"true"`.
pub proof fn law_enable_is_set_true(t: Template, bytes: Seq<u8>, name: Seq<char>)
    requires
        t.has_setting(name),
        t.descriptors@[t.setting_index(name)].detail is Bool,
    ensures
        spec_enable(t, bytes, name) == spec_set(t, bytes, name, "true"@),
{
}

/// Neither `set` nor `enable` accepts a name that no setting has; both answer `BadName` with
/// the name.
pub proof fn law_unknown_name(t: Template, bytes: Seq<u8>, name: Seq<char>, value: Seq<char>)
    requires
        !t.has_setting(name),
    ensures
        spec_set(t, bytes, name, value) == Err::<Seq<u8>, SetErrorSpec>(SetErrorSpec::BadName(name)),
        spec_enable(t, bytes, name) == Err::<Seq<u8>, SetErrorSpec>(SetErrorSpec::BadName(name)),
{
}

/// A successful `set` changes only the byte of the setting it names, and a failed one names
/// the reason; the name of a preset is refused as `BadName`.
pub proof fn law_set_changes_one_byte(t: Template, bytes: Seq<u8>, name: Seq<char>, value: Seq<char>)
    requires
        t.wf(),
        bytes.len() == t.defaults@.len(),
    ensures
        match spec_set(t, bytes, name, value) {
            Ok(b2) => {
                let off = t.descriptors@[t.setting_index(name)].offset as int;
                &&& t.has_setting(name)
                &&& b2.len() == bytes.len()
                &&& forall|j: int| 0 <= j < bytes.len() && j != off ==> b2[j] == bytes[j]
            },
            Err(_) => true,
        },
        t.has_setting(name) && t.descriptors@[t.setting_index(name)].detail is Preset ==> spec_set(
            t,
            bytes,
            name,
            value,
        ) == Err::<Seq<u8>, SetErrorSpec>(SetErrorSpec::BadName(name)),
{
    if t.has_setting(name) {
        assert(t.descriptor_wf(t.setting_index(name)));
    }
}

/// Setting a numeric setting to the decimal text of a byte value stores that value.
pub proof fn law_set_num_reads_back(t: Template, bytes: Seq<u8>, i: int, n: u8)
    requires
        t.wf(),
        bytes.len() == t.defaults@.len(),
        0 <= i < t.num_settings(),
        t.descriptors@[i].detail is Num,
    ensures
        spec_set(t, bytes, t.setting_name(i), decimal(n as nat)) == Ok::<Seq<u8>, SetErrorSpec>(
            bytes.update(t.descriptors@[i].offset as int, n),
        ),
{
    let name = t.setting_name(i);
    assert(t.has_setting(name));
    assert(t.setting_index(name) == i) by {
        assert(t.names_distinct());
    }
    lemma_decimal_digits(n as nat);
    assert(parse_unsigned(decimal(n as nat), 255) == Some(n as nat));
}

proof fn lemma_position_found(choices: Seq<Seq<char>>, v: Seq<char>)
    ensures
        position(choices, v) matches Some(k) ==> k < choices.len() && choices[k as int] == v,
    decreases choices.len(),
{
    if choices.len() > 0 && choices[0] != v {
        lemma_position_found(choices.drop_first(), v);
    }
}

/// After an enum setting has been set successfully, its byte is the index of an enumerator
/// whose name is the value that was given.
pub proof fn law_set_enum_reads_back(t: Template, bytes: Seq<u8>, i: int, value: Seq<char>)
    requires
        t.wf(),
        bytes.len() == t.defaults@.len(),
        0 <= i < t.num_settings(),
        t.descriptors@[i].detail is Enum,
    ensures
        spec_set(t, bytes, t.setting_name(i), value) matches Ok(b2) ==> {
            let off = t.descriptors@[i].offset as int;
            let d = t.descriptors@[i].detail;
            &&& b2[off] <= d->last
            &&& t.spec_enums(d->last, d->enumerators)[b2[off] as int] == value
        },
{
    let name = t.setting_name(i);
    assert(t.has_setting(name));
    assert(t.setting_index(name) == i) by {
        assert(t.names_distinct());
    }
    assert(t.descriptor_wf(i));
    let d = t.descriptors@[i].detail;
    lemma_position_found(t.spec_enums(d->last, d->enumerators), value);
}

/// Printing an optimization level and parsing the text gives the level back.
pub proof fn law_opt_level_name_round_trip(l: OptLevel)
    ensures
        opt_level_named(opt_level_name(l)) == Some(l),
{
    reveal_strlit("default");
    reveal_strlit("best");
    reveal_strlit("fastest");
    assert("default"@ != "best"@) by {
        assert("default"@.len() != "best"@.len());
    }
    assert("default"@ != "fastest"@) by {
        assert("default"@[0] != "fastest"@[0]);
    }
    assert("best"@ != "fastest"@) by {
        assert("best"@.len() != "fastest"@.len());
    }
}

/// In the `shared` group, setting `opt_level` to a level's name stores the byte that `Flags`
/// reads back as that level.
pub proof fn law_shared_opt_level_set(t: Template, bytes: Seq<u8>, l: OptLevel)
    requires
        is_shared_template(t),
        bytes.len() == 5,
    ensures
        spec_set(t, bytes, "opt_level"@, opt_level_name(l)) == Ok::<Seq<u8>, SetErrorSpec>(
            bytes.update(0, opt_level_index(l)),
        ),
{
    lemma_shared_template_wf(t);
    reveal_strlit("opt_level");
    reveal_strlit("default");
    reveal_strlit("best");
    reveal_strlit("fastest");
    assert("opt_level"@ =~= t.setting_name(0));
    assert(t.has_setting("opt_level"@));
    assert(t.setting_index("opt_level"@) == 0) by {
        assert(t.names_distinct());
    }
    let e = t.spec_enums(2, 0);
    assert("default"@ =~= seq!['d', 'e', 'f', 'a', 'u', 'l', 't']);
    assert("best"@ =~= seq!['b', 'e', 's', 't']);
    assert("fastest"@ =~= seq!['f', 'a', 's', 't', 'e', 's', 't']);
    assert(e =~= seq!["default"@, "best"@, "fastest"@]);
    law_opt_level_name_round_trip(l);
    reveal_with_fuel(position, 4);
    assert(e.drop_first() =~= seq!["best"@, "fastest"@]);
    assert(e.drop_first().drop_first() =~= seq!["fastest"@]);
}

/// In the `shared` group, the boolean predicate numbered `p` that `Flags` reads is the setting
/// described at index `3 + p`, which lives in bit `p % 8` of byte `3 + p / 8`.
pub proof fn law_shared_predicate_positions(t: Template, p: int)
    requires
        is_shared_template(t),
        0 <= p < 12,
    ensures
        t.descriptors@[3 + p].offset == 3 + p / 8,
        t.descriptors@[3 + p].detail == (Detail::Bool { bit: (p % 8) as u8 }),
{
}

} // verus!
