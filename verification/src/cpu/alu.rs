use vstd::prelude::*;

verus! {

/// `a + b` modulo 256.
pub open spec fn add8(a: int, b: int) -> u8 {
    if a + b < 256 { (a + b) as u8 } else { (a + b - 256) as u8 }
}

/// `a - b` modulo 256.
pub open spec fn sub8(a: int, b: int) -> u8 {
    if a >= b { (a - b) as u8 } else { (a + 256 - b) as u8 }
}

/// `a + b` modulo 65536.
pub open spec fn add16(a: int, b: int) -> u16 {
    if a + b < 0x10000 { (a + b) as u16 } else { (a + b - 0x10000) as u16 }
}

/// `a - b` modulo 65536.
pub open spec fn sub16(a: int, b: int) -> u16 {
    if a >= b { (a - b) as u16 } else { (a + 0x10000 - b) as u16 }
}

/// A byte read as a two's complement signed offset.
pub open spec fn signed8(v: u8) -> int {
    if v < 128 { v as int } else { v as int - 256 }
}

/// `base` moved by the signed offset `offset`, modulo 65536.
pub open spec fn offset16(base: u16, offset: u8) -> u16 {
    if offset < 128 {
        add16(base as int, offset as int)
    } else {
        sub16(base as int, 256 - offset as int)
    }
}

/// Rotation one bit to the left.
pub open spec fn rotl8(v: u8) -> u8 {
    ((v as int % 128) * 2 + v as int / 128) as u8
}

/// Rotation one bit to the right.
pub open spec fn rotr8(v: u8) -> u8 {
    (v as int / 2 + (v as int % 2) * 128) as u8
}

/// Exchange of the two nibbles.
pub open spec fn swap8(v: u8) -> u8 {
    ((v as int % 16) * 16 + v as int / 16) as u8
}

pub fn wrapping_inc8(v: u8) -> (r: u8)
    ensures
        r == add8(v as int, 1),
{
    v.wrapping_add(1)
}

pub fn wrapping_dec8(v: u8) -> (r: u8)
    ensures
        r == sub8(v as int, 1),
{
    v.wrapping_sub(1)
}

pub fn wrapping_inc16(v: u16) -> (r: u16)
    ensures
        r == add16(v as int, 1),
{
    v.wrapping_add(1)
}

pub fn wrapping_add16(a: u16, b: u16) -> (r: u16)
    ensures
        r == add16(a as int, b as int),
{
    a.wrapping_add(b)
}

pub fn wrapping_dec16(v: u16) -> (r: u16)
    ensures
        r == sub16(v as int, 1),
{
    v.wrapping_sub(1)
}

/// Adds the signed offset `offset` to `base`, wrapping around 16 bits.
pub fn wrapping_offset16(base: u16, offset: u8) -> (r: u16)
    ensures
        r == offset16(base, offset),
{
    if offset < 128 {
        base.wrapping_add(offset as u16)
    } else {
        base.wrapping_sub(256 - offset as u16)
    }
}

/// Rotating right undoes rotating left, and rotating left undoes rotating right.
pub proof fn law_rotate_inverse(v: u8)
    ensures
        rotr8(rotl8(v)) == v,
        rotl8(rotr8(v)) == v,
{
}

/// Swapping the nibbles twice gives the byte back.
pub proof fn law_swap_involution(v: u8)
    ensures
        swap8(swap8(v)) == v,
{
}

/// Adding then subtracting the same byte modulo 256 gives the first operand back.
pub proof fn law_add_sub_inverse(a: u8, b: u8)
    ensures
        sub8(add8(a as int, b as int) as int, b as int) == a,
        add8(sub8(a as int, b as int) as int, b as int) == a,
{
}

} // verus!
