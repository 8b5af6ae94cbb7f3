//! Padding and offset arithmetic shared by every layout operation.
//!
//! A buffer position is brought up to an alignment boundary by appending
//! zero bytes; these functions say exactly how many and characterize the
//! resulting offset.

use vstd::prelude::*;
use vstd::arithmetic::div_mod::{
    lemma_fundamental_div_mod, lemma_mod_division_less_than_divisor, lemma_mod_multiples_basic,
    lemma_mod_self_0, lemma_small_mod, lemma_sub_mod_noop,
};

verus! {

/// Number of zero bytes that bring a buffer of length `len` up to the next
/// multiple of `align`.
pub open spec fn pad_len(len: int, align: int) -> int
    recommends
        align >= 1,
        len >= 0,
{
    (align - len % align) % align
}

/// The smallest multiple of `align` that is at least `len`.
pub open spec fn round_up(len: int, align: int) -> int
    recommends
        align >= 1,
        len >= 0,
{
    len + pad_len(len, align)
}

/// A run of `n` zero bytes.
pub open spec fn zeros(n: int) -> Seq<u8> {
    Seq::new(n as nat, |i: int| 0u8)
}

/// `bytes` with trailing zeros appended up to the next multiple of `align`.
pub open spec fn padded_to(bytes: Seq<u8>, align: int) -> Seq<u8> {
    bytes + zeros(pad_len(bytes.len() as int, align))
}

/// The padding count is below the alignment, and the padded length lands
/// exactly on an alignment boundary.
pub proof fn lemma_pad_len(len: int, align: int)
    requires
        align >= 1,
        len >= 0,
    ensures
        0 <= pad_len(len, align) < align,
        (len + pad_len(len, align)) % align == 0,
{
    let r = len % align;
    lemma_mod_division_less_than_divisor(len, align);
    lemma_fundamental_div_mod(len, align);
    if r == 0 {
        lemma_mod_self_0(align);
        lemma_mod_multiples_basic(len / align, align);
    } else {
        lemma_small_mod((align - r) as nat, align as nat);
        assert(len + (align - r) == (len / align + 1) * align) by (nonlinear_arith)
            requires
                len == align * (len / align) + r,
        ;
        lemma_mod_multiples_basic(len / align + 1, align);
    }
}

/// The rounded-up offset is a multiple of the alignment and lies within one
/// alignment unit of the original length.
pub proof fn lemma_round_up(len: int, align: int)
    requires
        align >= 1,
        len >= 0,
    ensures
        round_up(len, align) % align == 0,
        len <= round_up(len, align) < len + align,
{
    lemma_pad_len(len, align);
}

/// Law: for every write, the start offset chosen for the data is the
/// smallest multiple of its alignment that is at least the buffer length
/// before the write: no multiple of `align` at or past `len` lies below it.
pub proof fn lemma_round_up_least(len: int, align: int, m: int)
    requires
        align >= 1,
        len >= 0,
        m % align == 0,
        len <= m,
    ensures
        round_up(len, align) <= m,
{
    lemma_round_up(len, align);
    let up = round_up(len, align);
    if m < up {
        lemma_sub_mod_noop(up, m, align);
        lemma_small_mod(0nat, align as nat);
        assert((up - m) % align == 0);
        lemma_small_mod((up - m) as nat, align as nat);
    }
}

/// A multiple of `align` is left unchanged by rounding up.
pub proof fn lemma_round_up_aligned(len: int, align: int)
    requires
        align >= 1,
        len >= 0,
        len % align == 0,
    ensures
        round_up(len, align) == len,
{
    lemma_round_up(len, align);
    lemma_round_up_least(len, align, len);
}

} // verus!
