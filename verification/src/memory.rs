use vstd::prelude::*;

verus! {

/// A byte buffer of `len` copies of `byte`.
pub fn filled(len: usize, byte: u8) -> (v: Vec<u8>)
    ensures
        v@ == Seq::new(len as nat, |i: int| byte),
{
    let mut v: Vec<u8> = Vec::with_capacity(len);
    let mut i: usize = 0;
    while i < len
        invariant
            i <= len,
            v@ == Seq::new(i as nat, |k: int| byte),
        decreases len - i,
    {
        v.push(byte);
        i = i + 1;
        assert(v@ =~= Seq::new(i as nat, |k: int| byte));
    }
    v
}

/// A copy of a byte slice.
pub fn copy_of(bytes: &[u8]) -> (v: Vec<u8>)
    ensures
        v@ == bytes@,
{
    vstd::slice::slice_to_vec(bytes)
}

/// `a` wrapped into a buffer of `len` bytes by masking with `len - 1`.
pub open spec fn masked(a: u32, len: nat) -> int {
    ((a as usize) & ((len - 1) as usize)) as int
}

/// Index of `a` masked with `len - 1`; always inside a buffer of `len > 0` bytes.
pub fn mask_index(a: u32, len: usize) -> (r: usize)
    requires
        len > 0,
    ensures
        r as int == masked(a, len as nat),
        r < len,
{
    let m: usize = len - 1;
    let r: usize = (a as usize) & m;
    assert(r <= m) by (bit_vector)
        requires
            r == (a as usize) & m,
    ;
    r
}

} // verus!
