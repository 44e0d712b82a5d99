//! Request layouts and the address arithmetic of alignment.

use vstd::arithmetic::div_mod::{
    lemma_fundamental_div_mod, lemma_mod_breakdown, lemma_mod_multiples_basic,
};
use vstd::arithmetic::power2::is_pow2;
use vstd::prelude::*;

verus! {

/// The size and alignment of a requested block, as plain numbers.
///
/// Any pair of numbers is a `Layout`; only those whose alignment is a power
/// of two are [`valid`](Layout::valid), and only those are ever served.
#[derive(Clone, Copy, Debug, PartialEq, Eq, Structural, Hash)]
pub struct Layout {
    pub size: usize,
    pub align: usize,
}

impl Layout {
    /// A layout can be served when its alignment is a power of two.
    pub open spec fn valid(self) -> bool {
        is_pow2(self.align as int)
    }

    pub fn new(size: usize, align: usize) -> (layout: Layout)
        ensures
            layout.size == size,
            layout.align == align,
    {
        Layout { size, align }
    }

    pub fn size(&self) -> (size: usize)
        ensures
            size == self.size,
    {
        self.size
    }

    pub fn align(&self) -> (align: usize)
        ensures
            align == self.align,
    {
        self.align
    }

    /// Tells whether the layout can be served.
    pub fn is_valid(&self) -> (ok: bool)
        ensures
            ok == self.valid(),
    {
        is_power_of_two(self.align)
    }
}

/// `x` has exactly one bit set.
pub open spec fn single_bit(x: usize) -> bool {
    x != 0 && x & ((x - 1) as usize) == 0
}

/// Having exactly one bit set is the same as being a power of two.
pub proof fn lemma_single_bit_is_pow2(x: usize)
    ensures
        single_bit(x) <==> is_pow2(x as int),
    decreases x,
{
    reveal(is_pow2);
    if x == 0 {
    } else if x == 1 {
        assert(1usize & ((1usize - 1) as usize) == 0) by (bit_vector);
    } else {
        let h: usize = x / 2;
        lemma_single_bit_is_pow2(h);
        assert(x >= 2 && x & ((x - 1) as usize) == 0 ==> x % 2 == 0 && (x / 2) != 0 && (x / 2) & ((x
            / 2 - 1) as usize) == 0) by (bit_vector);
        assert(x >= 2 && x % 2 == 0 && (x / 2) & ((x / 2 - 1) as usize) == 0 ==> x & ((x
            - 1) as usize) == 0) by (bit_vector);
    }
}

/// Masking with one less than a power of two takes the remainder.
pub proof fn lemma_mask_is_mod(x: usize, a: usize)
    requires
        single_bit(a),
    ensures
        x & ((a - 1) as usize) == x % a,
    decreases a,
{
    if a == 1 {
        assert(x & ((1usize - 1) as usize) == 0) by (bit_vector);
    } else {
        let h: usize = a / 2;
        assert(a != 0 && a != 1 && a & ((a - 1) as usize) == 0 ==> a % 2 == 0 && (a / 2) != 0 && (a
            / 2) & ((a / 2 - 1) as usize) == 0) by (bit_vector);
        lemma_mask_is_mod(x / 2, h);
        assert(a >= 2 && a % 2 == 0 ==> x & ((a - 1) as usize) == 2 * ((x / 2) & ((a / 2
            - 1) as usize)) + x % 2) by (bit_vector);
        lemma_mod_breakdown(x as int, 2, h as int);
    }
}

/// Tells whether `x` is a power of two.
pub fn is_power_of_two(x: usize) -> (b: bool)
    ensures
        b == is_pow2(x as int),
{
    proof {
        lemma_single_bit_is_pow2(x);
    }
    x != 0 && x & (x - 1) == 0
}

/// `addr` rounded up to a multiple of `align`.
pub open spec fn round_up(addr: int, align: int) -> int {
    ((addr + align - 1) / align) * align
}

/// `round_up(addr, align)` is the least multiple of `align` that is not below
/// `addr`.
pub proof fn lemma_round_up_least(addr: int, align: int, m: int)
    requires
        0 <= addr,
        0 < align,
    ensures
        round_up(addr, align) % align == 0,
        addr <= round_up(addr, align) < addr + align,
        (m % align == 0 && addr <= m) ==> round_up(addr, align) <= m,
{
    let s = addr + align - 1;
    lemma_fundamental_div_mod(s, align);
    lemma_mod_multiples_basic(s / align, align);
    let r = round_up(addr, align);
    assert(r == align * (s / align)) by (nonlinear_arith)
        requires
            r == (s / align) * align,
    ;
    assert(0 <= s % align < align) by (nonlinear_arith)
        requires
            0 < align,
    ;
    if m % align == 0 && addr <= m && m < r {
        // two multiples of `align` that differ by less than `align` are equal
        lemma_fundamental_div_mod(m, align);
        let q = m / align;
        let p = s / align;
        assert(q < p) by (nonlinear_arith)
            requires
                align * q < align * p,
                0 < align,
        ;
        assert(align * q + align <= align * p) by (nonlinear_arith)
            requires
                q + 1 <= p,
                0 < align,
        ;
        assert(false);
    }
}

/// Rounds `addr` up to a multiple of `align`, or reports that adding
/// `align - 1` to it leaves the address space.
pub fn align_up(addr: usize, align: usize) -> (aligned: Option<usize>)
    requires
        is_pow2(align as int),
    ensures
        aligned is None <==> addr + align - 1 > usize::MAX,
        aligned matches Some(a) ==> a == round_up(addr as int, align as int),
{
    proof {
        lemma_single_bit_is_pow2(align);
    }
    let mask: usize = align - 1;
    match addr.checked_add(mask) {
        None => None,
        Some(sum) => {
            let aligned: usize = sum & !mask;
            proof {
                lemma_mask_is_mod(sum, align);
                assert(sum & !mask == sum - (sum & mask)) by (bit_vector);
                lemma_fundamental_div_mod(sum as int, align as int);
                assert(round_up(addr as int, align as int) == align * (sum as int / align as int))
                    by (nonlinear_arith)
                    requires
                        round_up(addr as int, align as int) == (sum as int / align as int) * align,
                ;
            }
            Some(aligned)
        },
    }
}

} // verus!
