//! The `shared` settings group: its template, the typed `Flags` view of its values, and the
//! proof that its lookup table finds every setting.

use vstd::prelude::*;
use crate::constant_hash::{hash_step, spec_hash_from, spec_simple_hash};
use crate::settings::{probe_pos, Builder, Descriptor, Detail, Template};

verus! {

/// Names of the settings of the `shared` group, in descriptor order.
pub open spec fn shared_names() -> Seq<Seq<char>> {
    seq![
        seq!['o', 'p', 't', '_', 'l', 'e', 'v', 'e', 'l'],
        seq!['b', 'a', 'l', 'd', 'r', 'd', 'a', 's', 'h', '_', 'p', 'r', 'o', 'l', 'o', 'g', 'u', 'e', '_', 'w', 'o', 'r', 'd', 's'],
        seq!['p', 'r', 'o', 'b', 'e', 's', 't', 'a', 'c', 'k', '_', 's', 'i', 'z', 'e', '_', 'l', 'o', 'g', '2'],
        seq!['e', 'n', 'a', 'b', 'l', 'e', '_', 'v', 'e', 'r', 'i', 'f', 'i', 'e', 'r'],
        seq!['i', 's', '_', 'p', 'i', 'c'],
        seq!['c', 'o', 'l', 'o', 'c', 'a', 't', 'e', 'd', '_', 'l', 'i', 'b', 'c', 'a', 'l', 'l', 's'],
        seq!['a', 'v', 'o', 'i', 'd', '_', 'd', 'i', 'v', '_', 't', 'r', 'a', 'p', 's'],
        seq!['e', 'n', 'a', 'b', 'l', 'e', '_', 'f', 'l', 'o', 'a', 't'],
        seq!['e', 'n', 'a', 'b', 'l', 'e', '_', 'n', 'a', 'n', '_', 'c', 'a', 'n', 'o', 'n', 'i', 'c', 'a', 'l', 'i', 'z', 'a', 't', 'i', 'o', 'n'],
        seq!['e', 'n', 'a', 'b', 'l', 'e', '_', 's', 'i', 'm', 'd'],
        seq!['e', 'n', 'a', 'b', 'l', 'e', '_', 'a', 't', 'o', 'm', 'i', 'c', 's'],
        seq!['a', 'l', 'l', 'o', 'n', 'e', 's', '_', 'f', 'u', 'n', 'c', 'a', 'd', 'd', 'r', 's'],
        seq!['p', 'r', 'o', 'b', 'e', 's', 't', 'a', 'c', 'k', '_', 'e', 'n', 'a', 'b', 'l', 'e', 'd'],
        seq!['p', 'r', 'o', 'b', 'e', 's', 't', 'a', 'c', 'k', '_', 'f', 'u', 'n', 'c', '_', 'a', 'd', 'j', 'u', 's', 't', 's', '_', 's', 'p'],
        seq!['j', 'u', 'm', 'p', '_', 't', 'a', 'b', 'l', 'e', 's', '_', 'e', 'n', 'a', 'b', 'l', 'e', 'd'],
    ]
}

/// Hash table of the `shared` group.
pub open spec fn shared_hash_table() -> Seq<u16> {
    seq![65535u16, 11, 65535, 8, 65535, 3, 10, 9, 65535, 13, 65535, 14, 2, 65535, 65535, 65535, 65535, 65535, 65535, 5, 6, 12, 65535, 65535, 65535, 65535, 65535, 65535, 0, 1, 7, 4]
}

/// The contents of the `shared` settings template.
pub open spec fn is_shared_template(t: Template) -> bool {
    &&& t.name@ == "shared"@
    &&& t.descriptors@.len() == 15
    &&& t.setting_name(0) == shared_names()[0]
    &&& t.descriptors@[0].offset == 0
    &&& t.descriptors@[0].detail == Detail::Enum { last: 2, enumerators: 0 }
    &&& t.setting_name(1) == shared_names()[1]
    &&& t.descriptors@[1].offset == 1
    &&& t.descriptors@[1].detail == Detail::Num
    &&& t.setting_name(2) == shared_names()[2]
    &&& t.descriptors@[2].offset == 2
    &&& t.descriptors@[2].detail == Detail::Num
    &&& t.setting_name(3) == shared_names()[3]
    &&& t.descriptors@[3].offset == 3
    &&& t.descriptors@[3].detail == Detail::Bool { bit: 0 }
    &&& t.setting_name(4) == shared_names()[4]
    &&& t.descriptors@[4].offset == 3
    &&& t.descriptors@[4].detail == Detail::Bool { bit: 1 }
    &&& t.setting_name(5) == shared_names()[5]
    &&& t.descriptors@[5].offset == 3
    &&& t.descriptors@[5].detail == Detail::Bool { bit: 2 }
    &&& t.setting_name(6) == shared_names()[6]
    &&& t.descriptors@[6].offset == 3
    &&& t.descriptors@[6].detail == Detail::Bool { bit: 3 }
    &&& t.setting_name(7) == shared_names()[7]
    &&& t.descriptors@[7].offset == 3
    &&& t.descriptors@[7].detail == Detail::Bool { bit: 4 }
    &&& t.setting_name(8) == shared_names()[8]
    &&& t.descriptors@[8].offset == 3
    &&& t.descriptors@[8].detail == Detail::Bool { bit: 5 }
    &&& t.setting_name(9) == shared_names()[9]
    &&& t.descriptors@[9].offset == 3
    &&& t.descriptors@[9].detail == Detail::Bool { bit: 6 }
    &&& t.setting_name(10) == shared_names()[10]
    &&& t.descriptors@[10].offset == 3
    &&& t.descriptors@[10].detail == Detail::Bool { bit: 7 }
    &&& t.setting_name(11) == shared_names()[11]
    &&& t.descriptors@[11].offset == 4
    &&& t.descriptors@[11].detail == Detail::Bool { bit: 0 }
    &&& t.setting_name(12) == shared_names()[12]
    &&& t.descriptors@[12].offset == 4
    &&& t.descriptors@[12].detail == Detail::Bool { bit: 1 }
    &&& t.setting_name(13) == shared_names()[13]
    &&& t.descriptors@[13].offset == 4
    &&& t.descriptors@[13].detail == Detail::Bool { bit: 2 }
    &&& t.setting_name(14) == shared_names()[14]
    &&& t.descriptors@[14].offset == 4
    &&& t.descriptors@[14].detail == Detail::Bool { bit: 3 }
    &&& t.enumerators@.len() == 3
    &&& t.enumerators@[0]@ == seq!['d', 'e', 'f', 'a', 'u', 'l', 't']
    &&& t.enumerators@[1]@ == seq!['b', 'e', 's', 't']
    &&& t.enumerators@[2]@ == seq!['f', 'a', 's', 't', 'e', 's', 't']
    &&& t.hash_table@ == shared_hash_table()
    &&& t.defaults@ == seq![0x00u8, 0x00, 0x0c, 0xd1, 0x0a]
    &&& t.presets@.len() == 0
}

proof fn lemma_hash_0()
    ensures
        spec_simple_hash(shared_names()[0]) == 0xb10ec81cu32,
{
    reveal_with_fuel(spec_hash_from, 10);
    assert(shared_names()[0] =~= seq!['o', 'p', 't', '_', 'l', 'e', 'v', 'e', 'l']);
    assert(spec_simple_hash(seq!['o', 'p', 't', '_', 'l', 'e', 'v', 'e', 'l']) == hash_step(hash_step(hash_step(hash_step(hash_step(hash_step(hash_step(hash_step(hash_step(5381u32, 111u32), 112u32), 116u32), 95u32), 108u32), 101u32), 118u32), 101u32), 108u32));
    assert(hash_step(hash_step(hash_step(hash_step(hash_step(hash_step(hash_step(hash_step(hash_step(5381u32, 111u32), 112u32), 116u32), 95u32), 108u32), 101u32), 118u32), 101u32), 108u32) == 0xb10ec81cu32) by (bit_vector);
}

proof fn lemma_hash_1()
    ensures
        spec_simple_hash(shared_names()[1]) == 0x23d3749cu32,
{
    reveal_with_fuel(spec_hash_from, 25);
    assert(shared_names()[1] =~= seq!['b', 'a', 'l', 'd', 'r', 'd', 'a', 's', 'h', '_', 'p', 'r', 'o', 'l', 'o', 'g', 'u', 'e', '_', 'w', 'o', 'r', 'd', 's']);
    assert(spec_simple_hash(seq!['b', 'a', 'l', 'd', 'r', 'd', 'a', 's', 'h', '_', 'p', 'r', 'o', 'l', 'o', 'g', 'u', 'e', '_', 'w', 'o', 'r', 'd', 's']) == hash_step(hash_step(hash_step(hash_step(hash_step(hash_step(hash_step(hash_step(hash_step(hash_step(hash_step(hash_step(hash_step(hash_step(hash_step(hash_step(hash_step(hash_step(hash_step(hash_step(hash_step(hash_step(hash_step(hash_step(5381u32, 98u32), 97u32), 108u32), 100u32), 114u32), 100u32), 97u32), 115u32), 104u32), 95u32), 112u32), 114u32), 111u32), 108u32), 111u32), 103u32), 117u32), 101u32), 95u32), 119u32), 111u32), 114u32), 100u32), 115u32));
    assert(hash_step(hash_step(hash_step(hash_step(hash_step(hash_step(hash_step(hash_step(hash_step(hash_step(hash_step(hash_step(hash_step(hash_step(hash_step(hash_step(hash_step(hash_step(hash_step(hash_step(hash_step(hash_step(hash_step(hash_step(5381u32, 98u32), 97u32), 108u32), 100u32), 114u32), 100u32), 97u32), 115u32), 104u32), 95u32), 112u32), 114u32), 111u32), 108u32), 111u32), 103u32), 117u32), 101u32), 95u32), 119u32), 111u32), 114u32), 100u32), 115u32) == 0x23d3749cu32) by (bit_vector);
}

proof fn lemma_hash_2()
    ensures
        spec_simple_hash(shared_names()[2]) == 0x7e76a5acu32,
{
    reveal_with_fuel(spec_hash_from, 21);
    assert(shared_names()[2] =~= seq!['p', 'r', 'o', 'b', 'e', 's', 't', 'a', 'c', 'k', '_', 's', 'i', 'z', 'e', '_', 'l', 'o', 'g', '2']);
    assert(spec_simple_hash(seq!['p', 'r', 'o', 'b', 'e', 's', 't', 'a', 'c', 'k', '_', 's', 'i', 'z', 'e', '_', 'l', 'o', 'g', '2']) == hash_step(hash_step(hash_step(hash_step(hash_step(hash_step(hash_step(hash_step(hash_step(hash_step(hash_step(hash_step(hash_step(hash_step(hash_step(hash_step(hash_step(hash_step(hash_step(hash_step(5381u32, 112u32), 114u32), 111u32), 98u32), 101u32), 115u32), 116u32), 97u32), 99u32), 107u32), 95u32), 115u32), 105u32), 122u32), 101u32), 95u32), 108u32), 111u32), 103u32), 50u32));
    assert(hash_step(hash_step(hash_step(hash_step(hash_step(hash_step(hash_step(hash_step(hash_step(hash_step(hash_step(hash_step(hash_step(hash_step(hash_step(hash_step(hash_step(hash_step(hash_step(hash_step(5381u32, 112u32), 114u32), 111u32), 98u32), 101u32), 115u32), 116u32), 97u32), 99u32), 107u32), 95u32), 115u32), 105u32), 122u32), 101u32), 95u32), 108u32), 111u32), 103u32), 50u32) == 0x7e76a5acu32) by (bit_vector);
}

proof fn lemma_hash_3()
    ensures
        spec_simple_hash(shared_names()[3]) == 0x5e1048a5u32,
{
    reveal_with_fuel(spec_hash_from, 16);
    assert(shared_names()[3] =~= seq!['e', 'n', 'a', 'b', 'l', 'e', '_', 'v', 'e', 'r', 'i', 'f', 'i', 'e', 'r']);
    assert(spec_simple_hash(seq!['e', 'n', 'a', 'b', 'l', 'e', '_', 'v', 'e', 'r', 'i', 'f', 'i', 'e', 'r']) == hash_step(hash_step(hash_step(hash_step(hash_step(hash_step(hash_step(hash_step(hash_step(hash_step(hash_step(hash_step(hash_step(hash_step(hash_step(5381u32, 101u32), 110u32), 97u32), 98u32), 108u32), 101u32), 95u32), 118u32), 101u32), 114u32), 105u32), 102u32), 105u32), 101u32), 114u32));
    assert(hash_step(hash_step(hash_step(hash_step(hash_step(hash_step(hash_step(hash_step(hash_step(hash_step(hash_step(hash_step(hash_step(hash_step(hash_step(5381u32, 101u32), 110u32), 97u32), 98u32), 108u32), 101u32), 95u32), 118u32), 101u32), 114u32), 105u32), 102u32), 105u32), 101u32), 114u32) == 0x5e1048a5u32) by (bit_vector);
}

proof fn lemma_hash_4()
    ensures
        spec_simple_hash(shared_names()[4]) == 0xc9f945cu32,
{
    reveal_with_fuel(spec_hash_from, 7);
    assert(shared_names()[4] =~= seq!['i', 's', '_', 'p', 'i', 'c']);
    assert(spec_simple_hash(seq!['i', 's', '_', 'p', 'i', 'c']) == hash_step(hash_step(hash_step(hash_step(hash_step(hash_step(5381u32, 105u32), 115u32), 95u32), 112u32), 105u32), 99u32));
    assert(hash_step(hash_step(hash_step(hash_step(hash_step(hash_step(5381u32, 105u32), 115u32), 95u32), 112u32), 105u32), 99u32) == 0xc9f945cu32) by (bit_vector);
}

proof fn lemma_hash_5()
    ensures
        spec_simple_hash(shared_names()[5]) == 0xf56bd53u32,
{
    reveal_with_fuel(spec_hash_from, 19);
    assert(shared_names()[5] =~= seq!['c', 'o', 'l', 'o', 'c', 'a', 't', 'e', 'd', '_', 'l', 'i', 'b', 'c', 'a', 'l', 'l', 's']);
    assert(spec_simple_hash(seq!['c', 'o', 'l', 'o', 'c', 'a', 't', 'e', 'd', '_', 'l', 'i', 'b', 'c', 'a', 'l', 'l', 's']) == hash_step(hash_step(hash_step(hash_step(hash_step(hash_step(hash_step(hash_step(hash_step(hash_step(hash_step(hash_step(hash_step(hash_step(hash_step(hash_step(hash_step(hash_step(5381u32, 99u32), 111u32), 108u32), 111u32), 99u32), 97u32), 116u32), 101u32), 100u32), 95u32), 108u32), 105u32), 98u32), 99u32), 97u32), 108u32), 108u32), 115u32));
    assert(hash_step(hash_step(hash_step(hash_step(hash_step(hash_step(hash_step(hash_step(hash_step(hash_step(hash_step(hash_step(hash_step(hash_step(hash_step(hash_step(hash_step(hash_step(5381u32, 99u32), 111u32), 108u32), 111u32), 99u32), 97u32), 116u32), 101u32), 100u32), 95u32), 108u32), 105u32), 98u32), 99u32), 97u32), 108u32), 108u32), 115u32) == 0xf56bd53u32) by (bit_vector);
}

proof fn lemma_hash_6()
    ensures
        spec_simple_hash(shared_names()[6]) == 0x8539da33u32,
{
    reveal_with_fuel(spec_hash_from, 16);
    assert(shared_names()[6] =~= seq!['a', 'v', 'o', 'i', 'd', '_', 'd', 'i', 'v', '_', 't', 'r', 'a', 'p', 's']);
    assert(spec_simple_hash(seq!['a', 'v', 'o', 'i', 'd', '_', 'd', 'i', 'v', '_', 't', 'r', 'a', 'p', 's']) == hash_step(hash_step(hash_step(hash_step(hash_step(hash_step(hash_step(hash_step(hash_step(hash_step(hash_step(hash_step(hash_step(hash_step(hash_step(5381u32, 97u32), 118u32), 111u32), 105u32), 100u32), 95u32), 100u32), 105u32), 118u32), 95u32), 116u32), 114u32), 97u32), 112u32), 115u32));
    assert(hash_step(hash_step(hash_step(hash_step(hash_step(hash_step(hash_step(hash_step(hash_step(hash_step(hash_step(hash_step(hash_step(hash_step(hash_step(5381u32, 97u32), 118u32), 111u32), 105u32), 100u32), 95u32), 100u32), 105u32), 118u32), 95u32), 116u32), 114u32), 97u32), 112u32), 115u32) == 0x8539da33u32) by (bit_vector);
}

proof fn lemma_hash_7()
    ensures
        spec_simple_hash(shared_names()[7]) == 0x9a9576beu32,
{
    reveal_with_fuel(spec_hash_from, 13);
    assert(shared_names()[7] =~= seq!['e', 'n', 'a', 'b', 'l', 'e', '_', 'f', 'l', 'o', 'a', 't']);
    assert(spec_simple_hash(seq!['e', 'n', 'a', 'b', 'l', 'e', '_', 'f', 'l', 'o', 'a', 't']) == hash_step(hash_step(hash_step(hash_step(hash_step(hash_step(hash_step(hash_step(hash_step(hash_step(hash_step(hash_step(5381u32, 101u32), 110u32), 97u32), 98u32), 108u32), 101u32), 95u32), 102u32), 108u32), 111u32), 97u32), 116u32));
    assert(hash_step(hash_step(hash_step(hash_step(hash_step(hash_step(hash_step(hash_step(hash_step(hash_step(hash_step(hash_step(5381u32, 101u32), 110u32), 97u32), 98u32), 108u32), 101u32), 95u32), 102u32), 108u32), 111u32), 97u32), 116u32) == 0x9a9576beu32) by (bit_vector);
}

proof fn lemma_hash_8()
    ensures
        spec_simple_hash(shared_names()[8]) == 0x5202f2e3u32,
{
    reveal_with_fuel(spec_hash_from, 28);
    assert(shared_names()[8] =~= seq!['e', 'n', 'a', 'b', 'l', 'e', '_', 'n', 'a', 'n', '_', 'c', 'a', 'n', 'o', 'n', 'i', 'c', 'a', 'l', 'i', 'z', 'a', 't', 'i', 'o', 'n']);
    assert(spec_simple_hash(seq!['e', 'n', 'a', 'b', 'l', 'e', '_', 'n', 'a', 'n', '_', 'c', 'a', 'n', 'o', 'n', 'i', 'c', 'a', 'l', 'i', 'z', 'a', 't', 'i', 'o', 'n']) == hash_step(hash_step(hash_step(hash_step(hash_step(hash_step(hash_step(hash_step(hash_step(hash_step(hash_step(hash_step(hash_step(hash_step(hash_step(hash_step(hash_step(hash_step(hash_step(hash_step(hash_step(hash_step(hash_step(hash_step(hash_step(hash_step(hash_step(5381u32, 101u32), 110u32), 97u32), 98u32), 108u32), 101u32), 95u32), 110u32), 97u32), 110u32), 95u32), 99u32), 97u32), 110u32), 111u32), 110u32), 105u32), 99u32), 97u32), 108u32), 105u32), 122u32), 97u32), 116u32), 105u32), 111u32), 110u32));
    assert(hash_step(hash_step(hash_step(hash_step(hash_step(hash_step(hash_step(hash_step(hash_step(hash_step(hash_step(hash_step(hash_step(hash_step(hash_step(hash_step(hash_step(hash_step(hash_step(hash_step(hash_step(hash_step(hash_step(hash_step(hash_step(hash_step(hash_step(5381u32, 101u32), 110u32), 97u32), 98u32), 108u32), 101u32), 95u32), 110u32), 97u32), 110u32), 95u32), 99u32), 97u32), 110u32), 111u32), 110u32), 105u32), 99u32), 97u32), 108u32), 105u32), 122u32), 97u32), 116u32), 105u32), 111u32), 110u32) == 0x5202f2e3u32) by (bit_vector);
}

proof fn lemma_hash_9()
    ensures
        spec_simple_hash(shared_names()[9]) == 0x760af787u32,
{
    reveal_with_fuel(spec_hash_from, 12);
    assert(shared_names()[9] =~= seq!['e', 'n', 'a', 'b', 'l', 'e', '_', 's', 'i', 'm', 'd']);
    assert(spec_simple_hash(seq!['e', 'n', 'a', 'b', 'l', 'e', '_', 's', 'i', 'm', 'd']) == hash_step(hash_step(hash_step(hash_step(hash_step(hash_step(hash_step(hash_step(hash_step(hash_step(hash_step(5381u32, 101u32), 110u32), 97u32), 98u32), 108u32), 101u32), 95u32), 115u32), 105u32), 109u32), 100u32));
    assert(hash_step(hash_step(hash_step(hash_step(hash_step(hash_step(hash_step(hash_step(hash_step(hash_step(hash_step(5381u32, 101u32), 110u32), 97u32), 98u32), 108u32), 101u32), 95u32), 115u32), 105u32), 109u32), 100u32) == 0x760af787u32) by (bit_vector);
}

proof fn lemma_hash_10()
    ensures
        spec_simple_hash(shared_names()[10]) == 0x5dee3e26u32,
{
    reveal_with_fuel(spec_hash_from, 15);
    assert(shared_names()[10] =~= seq!['e', 'n', 'a', 'b', 'l', 'e', '_', 'a', 't', 'o', 'm', 'i', 'c', 's']);
    assert(spec_simple_hash(seq!['e', 'n', 'a', 'b', 'l', 'e', '_', 'a', 't', 'o', 'm', 'i', 'c', 's']) == hash_step(hash_step(hash_step(hash_step(hash_step(hash_step(hash_step(hash_step(hash_step(hash_step(hash_step(hash_step(hash_step(hash_step(5381u32, 101u32), 110u32), 97u32), 98u32), 108u32), 101u32), 95u32), 97u32), 116u32), 111u32), 109u32), 105u32), 99u32), 115u32));
    assert(hash_step(hash_step(hash_step(hash_step(hash_step(hash_step(hash_step(hash_step(hash_step(hash_step(hash_step(hash_step(hash_step(hash_step(5381u32, 101u32), 110u32), 97u32), 98u32), 108u32), 101u32), 95u32), 97u32), 116u32), 111u32), 109u32), 105u32), 99u32), 115u32) == 0x5dee3e26u32) by (bit_vector);
}

proof fn lemma_hash_11()
    ensures
        spec_simple_hash(shared_names()[11]) == 0xadda8dfeu32,
{
    reveal_with_fuel(spec_hash_from, 18);
    assert(shared_names()[11] =~= seq!['a', 'l', 'l', 'o', 'n', 'e', 's', '_', 'f', 'u', 'n', 'c', 'a', 'd', 'd', 'r', 's']);
    assert(spec_simple_hash(seq!['a', 'l', 'l', 'o', 'n', 'e', 's', '_', 'f', 'u', 'n', 'c', 'a', 'd', 'd', 'r', 's']) == hash_step(hash_step(hash_step(hash_step(hash_step(hash_step(hash_step(hash_step(hash_step(hash_step(hash_step(hash_step(hash_step(hash_step(hash_step(hash_step(hash_step(5381u32, 97u32), 108u32), 108u32), 111u32), 110u32), 101u32), 115u32), 95u32), 102u32), 117u32), 110u32), 99u32), 97u32), 100u32), 100u32), 114u32), 115u32));
    assert(hash_step(hash_step(hash_step(hash_step(hash_step(hash_step(hash_step(hash_step(hash_step(hash_step(hash_step(hash_step(hash_step(hash_step(hash_step(hash_step(hash_step(5381u32, 97u32), 108u32), 108u32), 111u32), 110u32), 101u32), 115u32), 95u32), 102u32), 117u32), 110u32), 99u32), 97u32), 100u32), 100u32), 114u32), 115u32) == 0xadda8dfeu32) by (bit_vector);
}

proof fn lemma_hash_12()
    ensures
        spec_simple_hash(shared_names()[12]) == 0xefda7655u32,
{
    reveal_with_fuel(spec_hash_from, 19);
    assert(shared_names()[12] =~= seq!['p', 'r', 'o', 'b', 'e', 's', 't', 'a', 'c', 'k', '_', 'e', 'n', 'a', 'b', 'l', 'e', 'd']);
    assert(spec_simple_hash(seq!['p', 'r', 'o', 'b', 'e', 's', 't', 'a', 'c', 'k', '_', 'e', 'n', 'a', 'b', 'l', 'e', 'd']) == hash_step(hash_step(hash_step(hash_step(hash_step(hash_step(hash_step(hash_step(hash_step(hash_step(hash_step(hash_step(hash_step(hash_step(hash_step(hash_step(hash_step(hash_step(5381u32, 112u32), 114u32), 111u32), 98u32), 101u32), 115u32), 116u32), 97u32), 99u32), 107u32), 95u32), 101u32), 110u32), 97u32), 98u32), 108u32), 101u32), 100u32));
    assert(hash_step(hash_step(hash_step(hash_step(hash_step(hash_step(hash_step(hash_step(hash_step(hash_step(hash_step(hash_step(hash_step(hash_step(hash_step(hash_step(hash_step(hash_step(5381u32, 112u32), 114u32), 111u32), 98u32), 101u32), 115u32), 116u32), 97u32), 99u32), 107u32), 95u32), 101u32), 110u32), 97u32), 98u32), 108u32), 101u32), 100u32) == 0xefda7655u32) by (bit_vector);
}

proof fn lemma_hash_13()
    ensures
        spec_simple_hash(shared_names()[13]) == 0xdb1830c9u32,
{
    reveal_with_fuel(spec_hash_from, 27);
    assert(shared_names()[13] =~= seq!['p', 'r', 'o', 'b', 'e', 's', 't', 'a', 'c', 'k', '_', 'f', 'u', 'n', 'c', '_', 'a', 'd', 'j', 'u', 's', 't', 's', '_', 's', 'p']);
    assert(spec_simple_hash(seq!['p', 'r', 'o', 'b', 'e', 's', 't', 'a', 'c', 'k', '_', 'f', 'u', 'n', 'c', '_', 'a', 'd', 'j', 'u', 's', 't', 's', '_', 's', 'p']) == hash_step(hash_step(hash_step(hash_step(hash_step(hash_step(hash_step(hash_step(hash_step(hash_step(hash_step(hash_step(hash_step(hash_step(hash_step(hash_step(hash_step(hash_step(hash_step(hash_step(hash_step(hash_step(hash_step(hash_step(hash_step(hash_step(5381u32, 112u32), 114u32), 111u32), 98u32), 101u32), 115u32), 116u32), 97u32), 99u32), 107u32), 95u32), 102u32), 117u32), 110u32), 99u32), 95u32), 97u32), 100u32), 106u32), 117u32), 115u32), 116u32), 115u32), 95u32), 115u32), 112u32));
    assert(hash_step(hash_step(hash_step(hash_step(hash_step(hash_step(hash_step(hash_step(hash_step(hash_step(hash_step(hash_step(hash_step(hash_step(hash_step(hash_step(hash_step(hash_step(hash_step(hash_step(hash_step(hash_step(hash_step(hash_step(hash_step(hash_step(5381u32, 112u32), 114u32), 111u32), 98u32), 101u32), 115u32), 116u32), 97u32), 99u32), 107u32), 95u32), 102u32), 117u32), 110u32), 99u32), 95u32), 97u32), 100u32), 106u32), 117u32), 115u32), 116u32), 115u32), 95u32), 115u32), 112u32) == 0xdb1830c9u32) by (bit_vector);
}

proof fn lemma_hash_14()
    ensures
        spec_simple_hash(shared_names()[14]) == 0xc5620babu32,
{
    reveal_with_fuel(spec_hash_from, 20);
    assert(shared_names()[14] =~= seq!['j', 'u', 'm', 'p', '_', 't', 'a', 'b', 'l', 'e', 's', '_', 'e', 'n', 'a', 'b', 'l', 'e', 'd']);
    assert(spec_simple_hash(seq!['j', 'u', 'm', 'p', '_', 't', 'a', 'b', 'l', 'e', 's', '_', 'e', 'n', 'a', 'b', 'l', 'e', 'd']) == hash_step(hash_step(hash_step(hash_step(hash_step(hash_step(hash_step(hash_step(hash_step(hash_step(hash_step(hash_step(hash_step(hash_step(hash_step(hash_step(hash_step(hash_step(hash_step(5381u32, 106u32), 117u32), 109u32), 112u32), 95u32), 116u32), 97u32), 98u32), 108u32), 101u32), 115u32), 95u32), 101u32), 110u32), 97u32), 98u32), 108u32), 101u32), 100u32));
    assert(hash_step(hash_step(hash_step(hash_step(hash_step(hash_step(hash_step(hash_step(hash_step(hash_step(hash_step(hash_step(hash_step(hash_step(hash_step(hash_step(hash_step(hash_step(hash_step(5381u32, 106u32), 117u32), 109u32), 112u32), 95u32), 116u32), 97u32), 98u32), 108u32), 101u32), 115u32), 95u32), 101u32), 110u32), 97u32), 98u32), 108u32), 101u32), 100u32) == 0xc5620babu32) by (bit_vector);
}

proof fn lemma_shared_names_distinct()
    ensures
        forall|i: int, j: int|
            0 <= i < 15 && 0 <= j < 15 && i != j ==> #[trigger] shared_names()[i] != #[trigger] shared_names()[j],
{
    assert(shared_names()[0] =~= seq!['o', 'p', 't', '_', 'l', 'e', 'v', 'e', 'l']);
    assert(shared_names()[1] =~= seq!['b', 'a', 'l', 'd', 'r', 'd', 'a', 's', 'h', '_', 'p', 'r', 'o', 'l', 'o', 'g', 'u', 'e', '_', 'w', 'o', 'r', 'd', 's']);
    assert(shared_names()[2] =~= seq!['p', 'r', 'o', 'b', 'e', 's', 't', 'a', 'c', 'k', '_', 's', 'i', 'z', 'e', '_', 'l', 'o', 'g', '2']);
    assert(shared_names()[3] =~= seq!['e', 'n', 'a', 'b', 'l', 'e', '_', 'v', 'e', 'r', 'i', 'f', 'i', 'e', 'r']);
    assert(shared_names()[4] =~= seq!['i', 's', '_', 'p', 'i', 'c']);
    assert(shared_names()[5] =~= seq!['c', 'o', 'l', 'o', 'c', 'a', 't', 'e', 'd', '_', 'l', 'i', 'b', 'c', 'a', 'l', 'l', 's']);
    assert(shared_names()[6] =~= seq!['a', 'v', 'o', 'i', 'd', '_', 'd', 'i', 'v', '_', 't', 'r', 'a', 'p', 's']);
    assert(shared_names()[7] =~= seq!['e', 'n', 'a', 'b', 'l', 'e', '_', 'f', 'l', 'o', 'a', 't']);
    assert(shared_names()[8] =~= seq!['e', 'n', 'a', 'b', 'l', 'e', '_', 'n', 'a', 'n', '_', 'c', 'a', 'n', 'o', 'n', 'i', 'c', 'a', 'l', 'i', 'z', 'a', 't', 'i', 'o', 'n']);
    assert(shared_names()[9] =~= seq!['e', 'n', 'a', 'b', 'l', 'e', '_', 's', 'i', 'm', 'd']);
    assert(shared_names()[10] =~= seq!['e', 'n', 'a', 'b', 'l', 'e', '_', 'a', 't', 'o', 'm', 'i', 'c', 's']);
    assert(shared_names()[11] =~= seq!['a', 'l', 'l', 'o', 'n', 'e', 's', '_', 'f', 'u', 'n', 'c', 'a', 'd', 'd', 'r', 's']);
    assert(shared_names()[12] =~= seq!['p', 'r', 'o', 'b', 'e', 's', 't', 'a', 'c', 'k', '_', 'e', 'n', 'a', 'b', 'l', 'e', 'd']);
    assert(shared_names()[13] =~= seq!['p', 'r', 'o', 'b', 'e', 's', 't', 'a', 'c', 'k', '_', 'f', 'u', 'n', 'c', '_', 'a', 'd', 'j', 'u', 's', 't', 's', '_', 's', 'p']);
    assert(shared_names()[14] =~= seq!['j', 'u', 'm', 'p', '_', 't', 'a', 'b', 'l', 'e', 's', '_', 'e', 'n', 'a', 'b', 'l', 'e', 'd']);
    assert(shared_names()[0].len() != shared_names()[1].len());
    assert(shared_names()[0].len() != shared_names()[2].len());
    assert(shared_names()[0].len() != shared_names()[3].len());
    assert(shared_names()[0].len() != shared_names()[4].len());
    assert(shared_names()[0].len() != shared_names()[5].len());
    assert(shared_names()[0].len() != shared_names()[6].len());
    assert(shared_names()[0].len() != shared_names()[7].len());
    assert(shared_names()[0].len() != shared_names()[8].len());
    assert(shared_names()[0].len() != shared_names()[9].len());
    assert(shared_names()[0].len() != shared_names()[10].len());
    assert(shared_names()[0].len() != shared_names()[11].len());
    assert(shared_names()[0].len() != shared_names()[12].len());
    assert(shared_names()[0].len() != shared_names()[13].len());
    assert(shared_names()[0].len() != shared_names()[14].len());
    assert(shared_names()[1].len() != shared_names()[2].len());
    assert(shared_names()[1].len() != shared_names()[3].len());
    assert(shared_names()[1].len() != shared_names()[4].len());
    assert(shared_names()[1].len() != shared_names()[5].len());
    assert(shared_names()[1].len() != shared_names()[6].len());
    assert(shared_names()[1].len() != shared_names()[7].len());
    assert(shared_names()[1].len() != shared_names()[8].len());
    assert(shared_names()[1].len() != shared_names()[9].len());
    assert(shared_names()[1].len() != shared_names()[10].len());
    assert(shared_names()[1].len() != shared_names()[11].len());
    assert(shared_names()[1].len() != shared_names()[12].len());
    assert(shared_names()[1].len() != shared_names()[13].len());
    assert(shared_names()[1].len() != shared_names()[14].len());
    assert(shared_names()[2].len() != shared_names()[3].len());
    assert(shared_names()[2].len() != shared_names()[4].len());
    assert(shared_names()[2].len() != shared_names()[5].len());
    assert(shared_names()[2].len() != shared_names()[6].len());
    assert(shared_names()[2].len() != shared_names()[7].len());
    assert(shared_names()[2].len() != shared_names()[8].len());
    assert(shared_names()[2].len() != shared_names()[9].len());
    assert(shared_names()[2].len() != shared_names()[10].len());
    assert(shared_names()[2].len() != shared_names()[11].len());
    assert(shared_names()[2].len() != shared_names()[12].len());
    assert(shared_names()[2].len() != shared_names()[13].len());
    assert(shared_names()[2].len() != shared_names()[14].len());
    assert(shared_names()[3].len() != shared_names()[4].len());
    assert(shared_names()[3].len() != shared_names()[5].len());
    assert(shared_names()[3][0] != shared_names()[6][0]);
    assert(shared_names()[3].len() != shared_names()[7].len());
    assert(shared_names()[3].len() != shared_names()[8].len());
    assert(shared_names()[3].len() != shared_names()[9].len());
    assert(shared_names()[3].len() != shared_names()[10].len());
    assert(shared_names()[3].len() != shared_names()[11].len());
    assert(shared_names()[3].len() != shared_names()[12].len());
    assert(shared_names()[3].len() != shared_names()[13].len());
    assert(shared_names()[3].len() != shared_names()[14].len());
    assert(shared_names()[4].len() != shared_names()[5].len());
    assert(shared_names()[4].len() != shared_names()[6].len());
    assert(shared_names()[4].len() != shared_names()[7].len());
    assert(shared_names()[4].len() != shared_names()[8].len());
    assert(shared_names()[4].len() != shared_names()[9].len());
    assert(shared_names()[4].len() != shared_names()[10].len());
    assert(shared_names()[4].len() != shared_names()[11].len());
    assert(shared_names()[4].len() != shared_names()[12].len());
    assert(shared_names()[4].len() != shared_names()[13].len());
    assert(shared_names()[4].len() != shared_names()[14].len());
    assert(shared_names()[5].len() != shared_names()[6].len());
    assert(shared_names()[5].len() != shared_names()[7].len());
    assert(shared_names()[5].len() != shared_names()[8].len());
    assert(shared_names()[5].len() != shared_names()[9].len());
    assert(shared_names()[5].len() != shared_names()[10].len());
    assert(shared_names()[5].len() != shared_names()[11].len());
    assert(shared_names()[5][0] != shared_names()[12][0]);
    assert(shared_names()[5].len() != shared_names()[13].len());
    assert(shared_names()[5].len() != shared_names()[14].len());
    assert(shared_names()[6].len() != shared_names()[7].len());
    assert(shared_names()[6].len() != shared_names()[8].len());
    assert(shared_names()[6].len() != shared_names()[9].len());
    assert(shared_names()[6].len() != shared_names()[10].len());
    assert(shared_names()[6].len() != shared_names()[11].len());
    assert(shared_names()[6].len() != shared_names()[12].len());
    assert(shared_names()[6].len() != shared_names()[13].len());
    assert(shared_names()[6].len() != shared_names()[14].len());
    assert(shared_names()[7].len() != shared_names()[8].len());
    assert(shared_names()[7].len() != shared_names()[9].len());
    assert(shared_names()[7].len() != shared_names()[10].len());
    assert(shared_names()[7].len() != shared_names()[11].len());
    assert(shared_names()[7].len() != shared_names()[12].len());
    assert(shared_names()[7].len() != shared_names()[13].len());
    assert(shared_names()[7].len() != shared_names()[14].len());
    assert(shared_names()[8].len() != shared_names()[9].len());
    assert(shared_names()[8].len() != shared_names()[10].len());
    assert(shared_names()[8].len() != shared_names()[11].len());
    assert(shared_names()[8].len() != shared_names()[12].len());
    assert(shared_names()[8].len() != shared_names()[13].len());
    assert(shared_names()[8].len() != shared_names()[14].len());
    assert(shared_names()[9].len() != shared_names()[10].len());
    assert(shared_names()[9].len() != shared_names()[11].len());
    assert(shared_names()[9].len() != shared_names()[12].len());
    assert(shared_names()[9].len() != shared_names()[13].len());
    assert(shared_names()[9].len() != shared_names()[14].len());
    assert(shared_names()[10].len() != shared_names()[11].len());
    assert(shared_names()[10].len() != shared_names()[12].len());
    assert(shared_names()[10].len() != shared_names()[13].len());
    assert(shared_names()[10].len() != shared_names()[14].len());
    assert(shared_names()[11].len() != shared_names()[12].len());
    assert(shared_names()[11].len() != shared_names()[13].len());
    assert(shared_names()[11].len() != shared_names()[14].len());
    assert(shared_names()[12].len() != shared_names()[13].len());
    assert(shared_names()[12].len() != shared_names()[14].len());
    assert(shared_names()[13].len() != shared_names()[14].len());
}

proof fn lemma_shared_probe_terminates(t: Template)
    requires
        is_shared_template(t),
    ensures
        t.probe_terminates(),
{
    reveal_with_fuel(probe_pos, 5);
    assert forall|s: nat| s < t.hash_table@.len() implies #[trigger] t.start_terminates(s) by {
        if s == 0 {
            assert(probe_pos(32, 0, 0) == 0);
            assert(t.slot_key(0) is None);
        }
        if s == 1 {
            assert(probe_pos(32, 1, 1) == 2);
            assert(t.slot_key(2) is None);
        }
        if s == 2 {
            assert(probe_pos(32, 2, 0) == 2);
            assert(t.slot_key(2) is None);
        }
        if s == 3 {
            assert(probe_pos(32, 3, 1) == 4);
            assert(t.slot_key(4) is None);
        }
        if s == 4 {
            assert(probe_pos(32, 4, 0) == 4);
            assert(t.slot_key(4) is None);
        }
        if s == 5 {
            assert(probe_pos(32, 5, 2) == 8);
            assert(t.slot_key(8) is None);
        }
        if s == 6 {
            assert(probe_pos(32, 6, 4) == 16);
            assert(t.slot_key(16) is None);
        }
        if s == 7 {
            assert(probe_pos(32, 7, 1) == 8);
            assert(t.slot_key(8) is None);
        }
        if s == 8 {
            assert(probe_pos(32, 8, 0) == 8);
            assert(t.slot_key(8) is None);
        }
        if s == 9 {
            assert(probe_pos(32, 9, 1) == 10);
            assert(t.slot_key(10) is None);
        }
        if s == 10 {
            assert(probe_pos(32, 10, 0) == 10);
            assert(t.slot_key(10) is None);
        }
        if s == 11 {
            assert(probe_pos(32, 11, 2) == 14);
            assert(t.slot_key(14) is None);
        }
        if s == 12 {
            assert(probe_pos(32, 12, 1) == 13);
            assert(t.slot_key(13) is None);
        }
        if s == 13 {
            assert(probe_pos(32, 13, 0) == 13);
            assert(t.slot_key(13) is None);
        }
        if s == 14 {
            assert(probe_pos(32, 14, 0) == 14);
            assert(t.slot_key(14) is None);
        }
        if s == 15 {
            assert(probe_pos(32, 15, 0) == 15);
            assert(t.slot_key(15) is None);
        }
        if s == 16 {
            assert(probe_pos(32, 16, 0) == 16);
            assert(t.slot_key(16) is None);
        }
        if s == 17 {
            assert(probe_pos(32, 17, 0) == 17);
            assert(t.slot_key(17) is None);
        }
        if s == 18 {
            assert(probe_pos(32, 18, 0) == 18);
            assert(t.slot_key(18) is None);
        }
        if s == 19 {
            assert(probe_pos(32, 19, 2) == 22);
            assert(t.slot_key(22) is None);
        }
        if s == 20 {
            assert(probe_pos(32, 20, 2) == 23);
            assert(t.slot_key(23) is None);
        }
        if s == 21 {
            assert(probe_pos(32, 21, 1) == 22);
            assert(t.slot_key(22) is None);
        }
        if s == 22 {
            assert(probe_pos(32, 22, 0) == 22);
            assert(t.slot_key(22) is None);
        }
        if s == 23 {
            assert(probe_pos(32, 23, 0) == 23);
            assert(t.slot_key(23) is None);
        }
        if s == 24 {
            assert(probe_pos(32, 24, 0) == 24);
            assert(t.slot_key(24) is None);
        }
        if s == 25 {
            assert(probe_pos(32, 25, 0) == 25);
            assert(t.slot_key(25) is None);
        }
        if s == 26 {
            assert(probe_pos(32, 26, 0) == 26);
            assert(t.slot_key(26) is None);
        }
        if s == 27 {
            assert(probe_pos(32, 27, 0) == 27);
            assert(t.slot_key(27) is None);
        }
        if s == 28 {
            assert(probe_pos(32, 28, 3) == 2);
            assert(t.slot_key(2) is None);
        }
        if s == 29 {
            assert(probe_pos(32, 29, 2) == 0);
            assert(t.slot_key(0) is None);
        }
        if s == 30 {
            assert(probe_pos(32, 30, 3) == 4);
            assert(t.slot_key(4) is None);
        }
        if s == 31 {
            assert(probe_pos(32, 31, 1) == 0);
            assert(t.slot_key(0) is None);
        }
    }
}

proof fn lemma_shared_probe_complete(t: Template)
    requires
        is_shared_template(t),
    ensures
        t.probe_complete(),
{
    lemma_shared_names_distinct();
    lemma_hash_0();
    lemma_hash_1();
    lemma_hash_2();
    lemma_hash_3();
    lemma_hash_4();
    lemma_hash_5();
    lemma_hash_6();
    lemma_hash_7();
    lemma_hash_8();
    lemma_hash_9();
    lemma_hash_10();
    lemma_hash_11();
    lemma_hash_12();
    lemma_hash_13();
    lemma_hash_14();
    reveal_with_fuel(probe_pos, 4);
    assert forall|i: int| 0 <= i < t.num_settings() implies match #[trigger] t.spec_probe(
        t.setting_name(i),
        spec_simple_hash(t.setting_name(i)) as nat,
    ) {
        Ok(idx) => t.hash_table@[idx as int] as int == i,
        Err(_) => false,
    } by {
        if i == 0 {
            let key = t.setting_name(0);
            let hh = spec_simple_hash(key) as nat;
            assert(hh % 32 == 28);
            assert(t.probe_slot(hh, 0) == 28);
            assert(t.probe_from(key, hh, 0) == Ok::<usize, usize>(28));
        }
        if i == 1 {
            let key = t.setting_name(1);
            let hh = spec_simple_hash(key) as nat;
            assert(hh % 32 == 28);
            assert(t.probe_slot(hh, 0) == 28);
            assert(t.slot_key(28) == Some(t.setting_name(0)));
            assert(t.probe_slot(hh, 1) == 29);
            assert(t.probe_from(key, hh, 1) == Ok::<usize, usize>(29));
            assert(t.probe_from(key, hh, 0) == Ok::<usize, usize>(29));
        }
        if i == 2 {
            let key = t.setting_name(2);
            let hh = spec_simple_hash(key) as nat;
            assert(hh % 32 == 12);
            assert(t.probe_slot(hh, 0) == 12);
            assert(t.probe_from(key, hh, 0) == Ok::<usize, usize>(12));
        }
        if i == 3 {
            let key = t.setting_name(3);
            let hh = spec_simple_hash(key) as nat;
            assert(hh % 32 == 5);
            assert(t.probe_slot(hh, 0) == 5);
            assert(t.probe_from(key, hh, 0) == Ok::<usize, usize>(5));
        }
        if i == 4 {
            let key = t.setting_name(4);
            let hh = spec_simple_hash(key) as nat;
            assert(hh % 32 == 28);
            assert(t.probe_slot(hh, 0) == 28);
            assert(t.slot_key(28) == Some(t.setting_name(0)));
            assert(t.probe_slot(hh, 1) == 29);
            assert(t.slot_key(29) == Some(t.setting_name(1)));
            assert(t.probe_slot(hh, 2) == 31);
            assert(t.probe_from(key, hh, 2) == Ok::<usize, usize>(31));
            assert(t.probe_from(key, hh, 1) == Ok::<usize, usize>(31));
            assert(t.probe_from(key, hh, 0) == Ok::<usize, usize>(31));
        }
        if i == 5 {
            let key = t.setting_name(5);
            let hh = spec_simple_hash(key) as nat;
            assert(hh % 32 == 19);
            assert(t.probe_slot(hh, 0) == 19);
            assert(t.probe_from(key, hh, 0) == Ok::<usize, usize>(19));
        }
        if i == 6 {
            let key = t.setting_name(6);
            let hh = spec_simple_hash(key) as nat;
            assert(hh % 32 == 19);
            assert(t.probe_slot(hh, 0) == 19);
            assert(t.slot_key(19) == Some(t.setting_name(5)));
            assert(t.probe_slot(hh, 1) == 20);
            assert(t.probe_from(key, hh, 1) == Ok::<usize, usize>(20));
            assert(t.probe_from(key, hh, 0) == Ok::<usize, usize>(20));
        }
        if i == 7 {
            let key = t.setting_name(7);
            let hh = spec_simple_hash(key) as nat;
            assert(hh % 32 == 30);
            assert(t.probe_slot(hh, 0) == 30);
            assert(t.probe_from(key, hh, 0) == Ok::<usize, usize>(30));
        }
        if i == 8 {
            let key = t.setting_name(8);
            let hh = spec_simple_hash(key) as nat;
            assert(hh % 32 == 3);
            assert(t.probe_slot(hh, 0) == 3);
            assert(t.probe_from(key, hh, 0) == Ok::<usize, usize>(3));
        }
        if i == 9 {
            let key = t.setting_name(9);
            let hh = spec_simple_hash(key) as nat;
            assert(hh % 32 == 7);
            assert(t.probe_slot(hh, 0) == 7);
            assert(t.probe_from(key, hh, 0) == Ok::<usize, usize>(7));
        }
        if i == 10 {
            let key = t.setting_name(10);
            let hh = spec_simple_hash(key) as nat;
            assert(hh % 32 == 6);
            assert(t.probe_slot(hh, 0) == 6);
            assert(t.probe_from(key, hh, 0) == Ok::<usize, usize>(6));
        }
        if i == 11 {
            let key = t.setting_name(11);
            let hh = spec_simple_hash(key) as nat;
            assert(hh % 32 == 30);
            assert(t.probe_slot(hh, 0) == 30);
            assert(t.slot_key(30) == Some(t.setting_name(7)));
            assert(t.probe_slot(hh, 1) == 31);
            assert(t.slot_key(31) == Some(t.setting_name(4)));
            assert(t.probe_slot(hh, 2) == 1);
            assert(t.probe_from(key, hh, 2) == Ok::<usize, usize>(1));
            assert(t.probe_from(key, hh, 1) == Ok::<usize, usize>(1));
            assert(t.probe_from(key, hh, 0) == Ok::<usize, usize>(1));
        }
        if i == 12 {
            let key = t.setting_name(12);
            let hh = spec_simple_hash(key) as nat;
            assert(hh % 32 == 21);
            assert(t.probe_slot(hh, 0) == 21);
            assert(t.probe_from(key, hh, 0) == Ok::<usize, usize>(21));
        }
        if i == 13 {
            let key = t.setting_name(13);
            let hh = spec_simple_hash(key) as nat;
            assert(hh % 32 == 9);
            assert(t.probe_slot(hh, 0) == 9);
            assert(t.probe_from(key, hh, 0) == Ok::<usize, usize>(9));
        }
        if i == 14 {
            let key = t.setting_name(14);
            let hh = spec_simple_hash(key) as nat;
            assert(hh % 32 == 11);
            assert(t.probe_slot(hh, 0) == 11);
            assert(t.probe_from(key, hh, 0) == Ok::<usize, usize>(11));
        }
    }
}

/// The `shared` settings template is well formed: in particular, looking up any of its setting
/// names finds that setting.
pub proof fn lemma_shared_template_wf(t: Template)
    requires
        is_shared_template(t),
    ensures
        t.wf(),
{
    lemma_shared_probe_terminates(t);
    lemma_shared_probe_complete(t);
    lemma_shared_names_distinct();
    assert(t.names_distinct());
    assert forall|i: int| 0 <= i < t.num_settings() implies #[trigger] t.descriptor_wf(i) by {}
    assert forall|i: int| 0 <= i < t.num_settings() implies #[trigger] t.enum_byte_exclusive(i) by {}
}

/// The template of the `shared` settings group.
pub fn shared_template() -> (t: Template)
    ensures
        is_shared_template(t),
{
    proof {
        reveal_strlit("opt_level");
        reveal_strlit("baldrdash_prologue_words");
        reveal_strlit("probestack_size_log2");
        reveal_strlit("enable_verifier");
        reveal_strlit("is_pic");
        reveal_strlit("colocated_libcalls");
        reveal_strlit("avoid_div_traps");
        reveal_strlit("enable_float");
        reveal_strlit("enable_nan_canonicalization");
        reveal_strlit("enable_simd");
        reveal_strlit("enable_atomics");
        reveal_strlit("allones_funcaddrs");
        reveal_strlit("probestack_enabled");
        reveal_strlit("probestack_func_adjusts_sp");
        reveal_strlit("jump_tables_enabled");
        reveal_strlit("default");
        reveal_strlit("best");
        reveal_strlit("fastest");
    }
    let descriptors = vec![
        Descriptor { name: "opt_level", offset: 0, detail: Detail::Enum { last: 2, enumerators: 0 } },
        Descriptor { name: "baldrdash_prologue_words", offset: 1, detail: Detail::Num },
        Descriptor { name: "probestack_size_log2", offset: 2, detail: Detail::Num },
        Descriptor { name: "enable_verifier", offset: 3, detail: Detail::Bool { bit: 0 } },
        Descriptor { name: "is_pic", offset: 3, detail: Detail::Bool { bit: 1 } },
        Descriptor { name: "colocated_libcalls", offset: 3, detail: Detail::Bool { bit: 2 } },
        Descriptor { name: "avoid_div_traps", offset: 3, detail: Detail::Bool { bit: 3 } },
        Descriptor { name: "enable_float", offset: 3, detail: Detail::Bool { bit: 4 } },
        Descriptor { name: "enable_nan_canonicalization", offset: 3, detail: Detail::Bool { bit: 5 } },
        Descriptor { name: "enable_simd", offset: 3, detail: Detail::Bool { bit: 6 } },
        Descriptor { name: "enable_atomics", offset: 3, detail: Detail::Bool { bit: 7 } },
        Descriptor { name: "allones_funcaddrs", offset: 4, detail: Detail::Bool { bit: 0 } },
        Descriptor { name: "probestack_enabled", offset: 4, detail: Detail::Bool { bit: 1 } },
        Descriptor { name: "probestack_func_adjusts_sp", offset: 4, detail: Detail::Bool { bit: 2 } },
        Descriptor { name: "jump_tables_enabled", offset: 4, detail: Detail::Bool { bit: 3 } },
    ];
    let enumerators = vec!["default", "best", "fastest"];
    let hash_table: Vec<u16> = vec![0xffff, 0xb, 0xffff, 0x8, 0xffff, 0x3, 0xa, 0x9, 0xffff, 0xd, 0xffff, 0xe, 0x2, 0xffff, 0xffff, 0xffff, 0xffff, 0xffff, 0xffff, 0x5, 0x6, 0xc, 0xffff, 0xffff, 0xffff, 0xffff, 0xffff, 0xffff, 0x0, 0x1, 0x7, 0x4];
    let defaults: Vec<u8> = vec![0x00, 0x00, 0x0c, 0xd1, 0x0a];
    let presets: Vec<(u8, u8)> = Vec::new();
    let t = Template { name: "shared", descriptors, enumerators, hash_table, defaults, presets };
    proof {
        assert(t.setting_name(0) =~= seq!['o', 'p', 't', '_', 'l', 'e', 'v', 'e', 'l']);
        assert(t.setting_name(1) =~= seq!['b', 'a', 'l', 'd', 'r', 'd', 'a', 's', 'h', '_', 'p', 'r', 'o', 'l', 'o', 'g', 'u', 'e', '_', 'w', 'o', 'r', 'd', 's']);
        assert(t.setting_name(2) =~= seq!['p', 'r', 'o', 'b', 'e', 's', 't', 'a', 'c', 'k', '_', 's', 'i', 'z', 'e', '_', 'l', 'o', 'g', '2']);
        assert(t.setting_name(3) =~= seq!['e', 'n', 'a', 'b', 'l', 'e', '_', 'v', 'e', 'r', 'i', 'f', 'i', 'e', 'r']);
        assert(t.setting_name(4) =~= seq!['i', 's', '_', 'p', 'i', 'c']);
        assert(t.setting_name(5) =~= seq!['c', 'o', 'l', 'o', 'c', 'a', 't', 'e', 'd', '_', 'l', 'i', 'b', 'c', 'a', 'l', 'l', 's']);
        assert(t.setting_name(6) =~= seq!['a', 'v', 'o', 'i', 'd', '_', 'd', 'i', 'v', '_', 't', 'r', 'a', 'p', 's']);
        assert(t.setting_name(7) =~= seq!['e', 'n', 'a', 'b', 'l', 'e', '_', 'f', 'l', 'o', 'a', 't']);
        assert(t.setting_name(8) =~= seq!['e', 'n', 'a', 'b', 'l', 'e', '_', 'n', 'a', 'n', '_', 'c', 'a', 'n', 'o', 'n', 'i', 'c', 'a', 'l', 'i', 'z', 'a', 't', 'i', 'o', 'n']);
        assert(t.setting_name(9) =~= seq!['e', 'n', 'a', 'b', 'l', 'e', '_', 's', 'i', 'm', 'd']);
        assert(t.setting_name(10) =~= seq!['e', 'n', 'a', 'b', 'l', 'e', '_', 'a', 't', 'o', 'm', 'i', 'c', 's']);
        assert(t.setting_name(11) =~= seq!['a', 'l', 'l', 'o', 'n', 'e', 's', '_', 'f', 'u', 'n', 'c', 'a', 'd', 'd', 'r', 's']);
        assert(t.setting_name(12) =~= seq!['p', 'r', 'o', 'b', 'e', 's', 't', 'a', 'c', 'k', '_', 'e', 'n', 'a', 'b', 'l', 'e', 'd']);
        assert(t.setting_name(13) =~= seq!['p', 'r', 'o', 'b', 'e', 's', 't', 'a', 'c', 'k', '_', 'f', 'u', 'n', 'c', '_', 'a', 'd', 'j', 'u', 's', 't', 's', '_', 's', 'p']);
        assert(t.setting_name(14) =~= seq!['j', 'u', 'm', 'p', '_', 't', 'a', 'b', 'l', 'e', 's', '_', 'e', 'n', 'a', 'b', 'l', 'e', 'd']);
        assert(t.enumerators@[0]@ =~= seq!['d', 'e', 'f', 'a', 'u', 'l', 't']);
        assert(t.enumerators@[1]@ =~= seq!['b', 'e', 's', 't']);
        assert(t.enumerators@[2]@ =~= seq!['f', 'a', 's', 't', 'e', 's', 't']);
        assert(t.hash_table@ =~= shared_hash_table());
        assert(t.defaults@ =~= seq![0x00u8, 0x00, 0x0c, 0xd1, 0x0a]);
    }
    t
}

} // verus!
