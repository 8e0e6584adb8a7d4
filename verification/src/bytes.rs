//! Big-endian numbers.

use vstd::prelude::*;

verus! {

/// The number that `bytes` spell, most significant byte first.
pub open spec fn be_value(bytes: Seq<u8>) -> int
    decreases bytes.len(),
{
    if bytes.len() == 0 {
        0
    } else {
        0x100 * be_value(bytes.drop_last()) + bytes.last()
    }
}

/// The byte of `x` with the given number, counted from the most significant.
pub open spec fn be_byte(x: u64, i: int) -> u8 {
    if i == 0 {
        (x as int / 0x100_0000_0000_0000) as u8
    } else if i == 1 {
        (x as int / 0x1_0000_0000_0000 % 0x100) as u8
    } else if i == 2 {
        (x as int / 0x100_0000_0000 % 0x100) as u8
    } else if i == 3 {
        (x as int / 0x1_0000_0000 % 0x100) as u8
    } else if i == 4 {
        (x as int / 0x100_0000 % 0x100) as u8
    } else if i == 5 {
        (x as int / 0x1_0000 % 0x100) as u8
    } else if i == 6 {
        (x as int / 0x100 % 0x100) as u8
    } else {
        (x as int % 0x100) as u8
    }
}

/// The eight bytes of `x`, most significant byte first.
pub open spec fn be_u64(x: u64) -> Seq<u8> {
    Seq::new(8, |i: int| be_byte(x, i))
}

/// No bytes spell zero, and a byte behind others multiplies what they spell by 256
/// and adds itself.
pub proof fn law_be_value_push(bytes: Seq<u8>, byte: u8)
    ensures
        be_value(Seq::<u8>::empty()) == 0,
        be_value(bytes.push(byte)) == 256 * be_value(bytes) + byte,
{
    assert(bytes.push(byte).drop_last() =~= bytes);
}

/// The eight bytes of a number spell that number.
pub proof fn law_be_u64_value(x: u64)
    ensures
        be_u64(x).len() == 8,
        be_value(be_u64(x)) == x,
{
    let s = be_u64(x);
    reveal_with_fuel(be_value, 9);
    assert(s.drop_last().len() == 7);
    let v = x as int;
    let v1 = v / 0x100;
    let v2 = v1 / 0x100;
    let v3 = v2 / 0x100;
    let v4 = v3 / 0x100;
    let v5 = v4 / 0x100;
    let v6 = v5 / 0x100;
    let v7 = v6 / 0x100;
    assert(v2 == v / 0x1_0000);
    assert(v3 == v / 0x100_0000);
    assert(v4 == v / 0x1_0000_0000);
    assert(v5 == v / 0x100_0000_0000);
    assert(v6 == v / 0x1_0000_0000_0000);
    assert(v7 == v / 0x100_0000_0000_0000);
    let s1 = s.drop_last();
    let s2 = s1.drop_last();
    let s3 = s2.drop_last();
    let s4 = s3.drop_last();
    let s5 = s4.drop_last();
    let s6 = s5.drop_last();
    let s7 = s6.drop_last();
    let s8 = s7.drop_last();
    assert(be_value(s8) == 0);
    assert(be_value(s7) == v7);
    assert(be_value(s6) == v6);
    assert(be_value(s5) == v5);
    assert(be_value(s4) == v4);
    assert(be_value(s3) == v3);
    assert(be_value(s2) == v2);
    assert(be_value(s1) == v1);
}

/// The eight bytes of `x`, most significant byte first.
pub fn u64_to_be(x: u64) -> (bytes: Vec<u8>)
    ensures
        bytes@ == be_u64(x),
{
    let mut bytes: Vec<u8> = Vec::with_capacity(8);
    bytes.push((x / 0x100_0000_0000_0000) as u8);
    bytes.push((x / 0x1_0000_0000_0000 % 0x100) as u8);
    bytes.push((x / 0x100_0000_0000 % 0x100) as u8);
    bytes.push((x / 0x1_0000_0000 % 0x100) as u8);
    bytes.push((x / 0x100_0000 % 0x100) as u8);
    bytes.push((x / 0x1_0000 % 0x100) as u8);
    bytes.push((x / 0x100 % 0x100) as u8);
    bytes.push((x % 0x100) as u8);
    assert(bytes@ =~= be_u64(x));
    bytes
}

} // verus!
