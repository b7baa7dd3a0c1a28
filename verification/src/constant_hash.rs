//! Hashing of setting names for the constant lookup tables.

use vstd::prelude::*;
use crate::settings::{Template, probe_pos};
use crate::text::str_eq;

verus! {

/// Rotation of a 32-bit word by six places to the right.
pub open spec fn rotr6(h: u32) -> u32 {
    ((h >> 6u32) | (h << 26u32)) as u32
}

/// One step of the string hash: mix in one character.
pub open spec fn hash_step(h: u32, c: u32) -> u32 {
    (h ^ c).wrapping_add(rotr6(h))
}

/// The hash of a string: fold `hash_step` over its characters, starting from `h`.
pub open spec fn spec_hash_from(h: u32, s: Seq<char>) -> u32
    decreases s.len(),
{
    if s.len() == 0 {
        h
    } else {
        hash_step(spec_hash_from(h, s.drop_last()), s.last() as u32)
    }
}

/// The hash of a string.
pub open spec fn spec_simple_hash(s: Seq<char>) -> u32 {
    spec_hash_from(5381u32, s)
}

/// A simple string hash (djb2 with a rotation) used by the constant hash tables.
pub fn simple_hash(s: &str) -> (h: usize)
    ensures
        h == spec_simple_hash(s@) as usize,
{
    let mut h: u32 = 5381;
    let n = s.unicode_len();
    let mut i: usize = 0;
    while i < n
        invariant
            n == s@.len(),
            i <= n,
            h == spec_hash_from(5381u32, s@.take(i as int)),
        decreases n - i,
    {
        let c = s.get_char(i);
        proof {
            assert(s@.take(i + 1).drop_last() =~= s@.take(i as int));
        }
        let rot: u32 = (h >> 6u32) | (h << 26u32);
        h = (h ^ (c as u32)).wrapping_add(rot);
        i = i + 1;
    }
    proof {
        assert(s@.take(n as int) =~= s@);
    }
    h as usize
}

} // verus!

verus! {

/// Look for `key` in a constant hash table by quadratic probing from `hash`.
///
/// Returns `Ok(idx)` with the slot that holds `key`, or `Err(idx)` with the empty slot where the
/// search ended.
pub fn probe(table: &Template, key: &str, hash: usize) -> (r: Result<usize, usize>)
    requires
        0 < table.hash_table@.len() <= 0x1000,
        table.probe_terminates(),
    ensures
        r == table.spec_probe(key@, hash as nat),
        match r {
            Ok(idx) => idx < table.hash_table@.len() && table.slot_key(idx as int) == Some(key@),
            Err(idx) => idx < table.hash_table@.len() && table.slot_key(idx as int) is None,
        },
{
    let len = table.len();
    let mut idx = hash % len;
    let mut step: usize = 0;
    let ghost s: nat = (hash % len) as nat;
    assert(table.start_terminates(s));
    let ghost kstop: nat = choose|k: nat|
        k < len && #[trigger] table.slot_key(probe_pos(len as nat, s, k) as int) is None;
    loop
        invariant
            len == table.hash_table@.len(),
            0 < len <= 0x1000,
            s == hash as nat % len as nat,
            step <= kstop,
            kstop < len,
            table.slot_key(probe_pos(len as nat, s, kstop) as int) is None,
            idx == probe_pos(len as nat, s, step as nat),
            idx < len,
            table.spec_probe(key@, hash as nat) == table.probe_from(key@, hash as nat, step as nat),
        decreases kstop - step,
    {
        match table.key(idx) {
            None => {
                return Err(idx);
            },
            Some(k) => {
                if str_eq(k, key) {
                    return Ok(idx);
                }
            },
        }
        step = step + 1;
        idx = (idx + step) % len;
    }
}

} // verus!
