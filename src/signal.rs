//! Loudness of audio chunks.
//!
//! A sample is a signed 16-bit value: a normalized sample `x` in [-1, 1] is
//! held as `x * FULL_SCALE`. The root-mean-square level of a chunk is compared
//! with a threshold given as a fraction `num / den` of full scale, exactly,
//! by comparing sums of squares.

use vstd::prelude::*;

verus! {

/// The sample value that stands for a normalized level of 1.0.
pub const FULL_SCALE: u64 = 32767;

/// Largest square of a 16-bit sample.
pub const MAX_SQUARE: u64 = 1073741824;

/// Square of one sample.
pub open spec fn square(x: i16) -> nat {
    (x as int * x as int) as nat
}

/// Sum of the squares of the samples.
pub open spec fn energy(s: Seq<i16>) -> nat
    decreases s.len(),
{
    if s.len() == 0 {
        0
    } else {
        energy(s.drop_last()) + square(s.last())
    }
}

/// The chunk's RMS level, sqrt(energy / len) / FULL_SCALE, is at least
/// `num / den`. An empty chunk has no level and reaches no threshold.
pub open spec fn rms_reaches(s: Seq<i16>, num: nat, den: nat) -> bool {
    s.len() > 0 && den * den * energy(s) >= num * num * s.len() * (FULL_SCALE * FULL_SCALE)
}

proof fn lemma_square_bound(x: i16)
    ensures
        square(x) <= MAX_SQUARE,
{
    let v = x as int;
    assert(0 <= v * v <= 1073741824) by (nonlinear_arith)
        requires
            -32768 <= v <= 32767,
    ;
}

/// Sum of the squares of the samples of a chunk.
pub fn chunk_energy(s: &[i16]) -> (e: u128)
    ensures
        e == energy(s@),
        e <= s@.len() * MAX_SQUARE,
{
    let mut e: u128 = 0;
    let mut i: usize = 0;
    while i < s.len()
        invariant
            i <= s@.len(),
            e == energy(s@.take(i as int)),
            e <= i * MAX_SQUARE,
        decreases s@.len() - i,
    {
        let x = s[i];
        proof {
            lemma_square_bound(x);
            assert(s@.take(i as int + 1).drop_last() =~= s@.take(i as int));
            assert(0 <= (x as int) * (x as int) <= 1073741824) by (nonlinear_arith)
                requires
                    -32768 <= x as int <= 32767,
            ;
        }
        let sq = (x as i64) * (x as i64);
        e = e + sq as u128;
        i = i + 1;
    }
    assert(s@.take(s@.len() as int) =~= s@);
    e
}

/// Whether the RMS level of the chunk is at least `num / den` of full scale.
pub fn reaches_level(s: &[i16], num: u64, den: u64) -> (r: bool)
    requires
        0 < den <= 1000,
        num <= 1000,
    ensures
        r == rms_reaches(s@, num as nat, den as nat),
{
    if s.len() == 0 {
        return false;
    }
    let e = chunk_energy(s);
    let n = s.len() as u128;
    proof {
        assert((den as int) * (den as int) <= 1000000) by (nonlinear_arith)
            requires
                den <= 1000,
        ;
        assert((num as int) * (num as int) <= 1000000) by (nonlinear_arith)
            requires
                num <= 1000,
        ;
    }
    let d2 = (den as u128) * (den as u128);
    let n2 = (num as u128) * (num as u128);
    let fs2 = (FULL_SCALE as u128) * (FULL_SCALE as u128);
    proof {
        assert(d2 <= 1000000) by (nonlinear_arith)
            requires
                d2 == den * den,
                den <= 1000,
        ;
        assert(n2 <= 1000000) by (nonlinear_arith)
            requires
                n2 == num * num,
                num <= 1000,
        ;
        assert(d2 * e <= 1000000 * (n * MAX_SQUARE)) by (nonlinear_arith)
            requires
                d2 <= 1000000,
                e <= n * MAX_SQUARE,
        ;
        assert(n2 * n <= 1000000 * n) by (nonlinear_arith)
            requires
                n2 <= 1000000,
        ;
        assert(n2 * n * fs2 <= 1000000 * n * fs2) by (nonlinear_arith)
            requires
                n2 * n <= 1000000 * n,
        ;
    }
    d2 * e >= n2 * n * fs2
}

} // verus!
