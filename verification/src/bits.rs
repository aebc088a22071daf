//! Mathematical model of bit packing: big-endian bit images of integers,
//! their numeric value, and the lemmas relating the two.

use vstd::prelude::*;
use vstd::arithmetic::power2::*;

verus! {

/// The `n` low bits of `v`, most significant bit first.
pub open spec fn bits_of(v: nat, n: nat) -> Seq<bool>
    decreases n,
{
    if n == 0 {
        Seq::empty()
    } else {
        bits_of(v / 2, (n - 1) as nat).push(v % 2 == 1)
    }
}

/// Numeric value of a bit sequence read most significant bit first.
pub open spec fn int_of(s: Seq<bool>) -> nat
    decreases s.len(),
{
    if s.len() == 0 {
        0
    } else {
        int_of(s.drop_last()) * 2 + (if s.last() {
            1nat
        } else {
            0nat
        })
    }
}

/// A run of `n` zero bits.
pub open spec fn zeros(n: nat) -> Seq<bool> {
    Seq::new(n, |i: int| false)
}

pub proof fn lemma_bits_of_len(v: nat, n: nat)
    ensures
        bits_of(v, n).len() == n,
    decreases n,
{
    if n > 0 {
        lemma_bits_of_len(v / 2, (n - 1) as nat);
    }
}

/// Reading back the bit image of a value below `pow2(n)` recovers the value.
pub proof fn lemma_int_of_bits_of(v: nat, n: nat)
    requires
        v < pow2(n),
    ensures
        int_of(bits_of(v, n)) == v,
    decreases n,
{
    if n == 0 {
        assert(pow2(0) == 1) by {
            lemma2_to64();
        }
    } else {
        lemma_pow2_unfold(n);
        lemma_bits_of_len(v / 2, (n - 1) as nat);
        lemma_int_of_bits_of(v / 2, (n - 1) as nat);
        assert(bits_of(v, n).drop_last() =~= bits_of(v / 2, (n - 1) as nat));
    }
}

} // verus!
