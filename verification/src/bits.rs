use vstd::prelude::*;
use crate::ppu::ppu::color_number;

verus! {

/// Facts about bit operations on bytes and words that the laws of the components rest on:
/// - a bit of `a | b` is set exactly when it is set in `a` or in `b`, of `a & b` when it is set
///   in both, of `a ^ b` when it is set in exactly one;
/// - keeping the low seven bits (the lowest bit) is taking the value modulo 128 (2);
/// - setting the low nibble keeps bits 5 and 4, and clearing exactly bit k of a byte whose
///   low nibble is all ones leaves bit k as the only clear bit of that nibble;
/// - the color number of a pixel takes its high bit from the second bit plane and its low
///   bit from the first.
pub proof fn lemma_bit_facts()
    by (bit_vector)
    ensures
        forall|a: u8, b: u8, i: u8|
            #![trigger (a | b) >> i]
            i < 8 ==> ((((a | b) >> i) & 1 == 1) <==> ((a >> i) & 1 == 1 || (b >> i) & 1 == 1)),
        forall|a: u8, b: u8, i: u8|
            #![trigger (a & b) >> i]
            i < 8 ==> ((((a & b) >> i) & 1 == 1) <==> ((a >> i) & 1 == 1 && (b >> i) & 1 == 1)),
        forall|a: u8, b: u8, i: u8|
            #![trigger (a ^ b) >> i]
            i < 8 ==> ((((a ^ b) >> i) & 1 == 1) <==> ((a >> i) & 1 == 1) != ((b >> i) & 1 == 1)),
        forall|v: u8| #![trigger v & 0x7F] v & 0x7F == v % 128,
        forall|v: u8| #![trigger v & 0x1] v & 0x1 == v % 2,
        forall|x: u8|
            #![trigger x | 0xF]
            (x | 0xF) & 0x20 == x & 0x20 && (x | 0xF) & 0x10 == x & 0x10,
        forall|x: u8|
            #![trigger x & 0x30]
            (x & 0x30 == 0x20) ==> (x & 0x20 != 0 && x & 0x10 == 0),
        forall|x: u8, j: u8|
            #![trigger ((x | 0xF) & !1u8) >> j]
            j < 4 ==> (((((x | 0xF) & !1u8) >> j) & 1 == 0) <==> j == 0),
        forall|x: u8, j: u8|
            #![trigger ((x | 0xF) & !2u8) >> j]
            j < 4 ==> (((((x | 0xF) & !2u8) >> j) & 1 == 0) <==> j == 1),
        forall|x: u8, j: u8|
            #![trigger ((x | 0xF) & !4u8) >> j]
            j < 4 ==> (((((x | 0xF) & !4u8) >> j) & 1 == 0) <==> j == 2),
        forall|x: u8, j: u8|
            #![trigger ((x | 0xF) & !8u8) >> j]
            j < 4 ==> (((((x | 0xF) & !8u8) >> j) & 1 == 0) <==> j == 3),
        1u8 | 0u8 | 0u8 | 0u8 == 1u8,
        0u8 | 2u8 | 0u8 | 0u8 == 2u8,
        0u8 | 0u8 | 4u8 | 0u8 == 4u8,
        0u8 | 0u8 | 0u8 | 8u8 == 8u8,
        forall|f: u8, s: u8, i: u8|
            #![trigger color_number(f, s, i)]
            i < 8 ==> color_number(f, s, i) == 2 * ((s >> i) & 1) + ((f >> i) & 1),
{
}

/// DIV bits 9, 3, 5 and 7 are the parity of DIV divided by 512, 8, 32 and 128, and a ninth
/// bit joined above a byte adds 256.
pub proof fn lemma_div_bits()
    by (bit_vector)
    ensures
        forall|d: u16| #![trigger d & 0x200u16] (d & 0x200u16 != 0) == ((d / 512u16) % 2u16 == 1u16),
        forall|d: u16| #![trigger d & 0x8u16] (d & 0x8u16 != 0) == ((d / 8u16) % 2u16 == 1u16),
        forall|d: u16| #![trigger d & 0x20u16] (d & 0x20u16 != 0) == ((d / 32u16) % 2u16 == 1u16),
        forall|d: u16| #![trigger d & 0x80u16] (d & 0x80u16 != 0) == ((d / 128u16) % 2u16 == 1u16),
        forall|h: u16, l: u16|
            #![trigger (h << 8u16) | l]
            h <= 1 && l < 256 ==> (h << 8u16) | l == h * 256 + l,
{
}

} // verus!
