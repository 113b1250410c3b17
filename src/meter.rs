//! Loudness of the audio being played: the RMS of each window of samples.

use vstd::prelude::*;
use crate::signal::{chunk_energy, energy, MAX_SQUARE};

verus! {

/// Samples per loudness window.
pub const LEVEL_WINDOW: usize = 1024;

/// `r` is the integer square root of `m`.
pub open spec fn is_isqrt(r: nat, m: nat) -> bool {
    r * r <= m < (r + 1) * (r + 1)
}

/// The RMS of a window, rounded down, on the 16-bit sample scale.
pub open spec fn window_level(w: Seq<i16>, r: nat) -> bool {
    is_isqrt(r, energy(w) / (w.len() as nat))
}

/// Integer square root, rounded down.
pub fn isqrt(m: u64) -> (r: u64)
    requires
        m <= MAX_SQUARE,
    ensures
        is_isqrt(r as nat, m as nat),
{
    let mut lo: u64 = 0;
    let mut hi: u64 = 32769;
    assert(32769 * 32769 > MAX_SQUARE);
    while hi - lo > 1
        invariant
            lo < hi <= 32769,
            lo * lo <= m,
            m < hi * hi,
        decreases hi - lo,
    {
        let mid = lo + (hi - lo) / 2;
        assert(mid * mid <= 32769 * 32769) by (nonlinear_arith)
            requires
                mid <= 32769,
        ;
        if mid * mid <= m {
            lo = mid;
        } else {
            hi = mid;
        }
    }
    lo
}

/// Collects played samples and yields the level of each full window.
pub struct LevelMeter {
    window: Vec<i16>,
}

impl View for LevelMeter {
    type V = Seq<i16>;

    closed spec fn view(&self) -> Seq<i16> {
        self.window@
    }
}

impl LevelMeter {
    /// The window is never full between samples.
    pub open spec fn wf(&self) -> bool {
        self@.len() < LEVEL_WINDOW
    }

    /// An empty window.
    pub fn new() -> (r: LevelMeter)
        ensures
            r@ == Seq::<i16>::empty(),
            r.wf(),
    {
        LevelMeter { window: Vec::new() }
    }

    /// Adds one played sample. When that fills the window, returns the
    /// window's level and starts a new window.
    pub fn push(&mut self, s: i16) -> (level: Option<u16>)
        requires
            old(self).wf(),
        ensures
            final(self).wf(),
            ({
                let w = old(self)@.push(s);
                if w.len() == LEVEL_WINDOW {
                    &&& final(self)@ == Seq::<i16>::empty()
                    &&& level matches Some(l) && window_level(w, l as nat)
                } else {
                    &&& final(self)@ == w
                    &&& level is None
                }
            }),
    {
        self.window.push(s);
        if self.window.len() == LEVEL_WINDOW {
            let e = chunk_energy(self.window.as_slice());
            let mean = e / (LEVEL_WINDOW as u128);
            assert(mean <= MAX_SQUARE) by (nonlinear_arith)
                requires
                    mean == e / 1024,
                    e <= 1024 * MAX_SQUARE,
            ;
            let r = isqrt(mean as u64);
            assert(r <= 32768) by (nonlinear_arith)
                requires
                    r * r <= MAX_SQUARE,
            ;
            self.window = Vec::new();
            Some(r as u16)
        } else {
            None
        }
    }
}

} // verus!
