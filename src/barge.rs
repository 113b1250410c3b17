//! Barge-in: noticing that the user talks over the system's own speech.

use vstd::prelude::*;
use crate::signal::{reaches_level, rms_reaches};

verus! {

/// A chunk is loud when its RMS level is at least 1/20 of full scale, five
/// times the speech threshold, so that the system's own voice leaking into the
/// microphone does not count.
pub const BARGE_IN_RMS_NUM: u64 = 1;

/// See `BARGE_IN_RMS_NUM`.
pub const BARGE_IN_RMS_DEN: u64 = 20;

/// Loud chunks in a row that make a barge-in.
pub const BARGE_IN_CHUNK_COUNT: u64 = 5;

/// Whether a chunk is loud enough to count towards a barge-in.
pub open spec fn is_loud(chunk: Seq<i16>) -> bool {
    rms_reaches(chunk, BARGE_IN_RMS_NUM as nat, BARGE_IN_RMS_DEN as nat)
}

/// One chunk of the detector: the new count of loud chunks in a row, and
/// whether the barge-in fires (after which the count starts over).
pub open spec fn barge_step(count: nat, chunk: Seq<i16>) -> (nat, bool) {
    let c = if is_loud(chunk) { count + 1 } else { 0 };
    if c >= BARGE_IN_CHUNK_COUNT { (0, true) } else { (c, false) }
}

/// The detector run over chunks in order: the final count, and for each chunk
/// whether the barge-in fired on it.
pub open spec fn barge_run(count: nat, chunks: Seq<Seq<i16>>) -> (nat, Seq<bool>)
    decreases chunks.len(),
{
    if chunks.len() == 0 {
        (count, Seq::empty())
    } else {
        let (c1, fired) = barge_step(count, chunks[0]);
        let (c2, rest) = barge_run(c1, chunks.drop_first());
        (c2, seq![fired] + rest)
    }
}

/// Counter of loud chunks in a row, for use while the system speaks.
pub struct BargeIn {
    loud_run: u64,
}

impl View for BargeIn {
    type V = nat;

    closed spec fn view(&self) -> nat {
        self.loud_run as nat
    }
}

impl BargeIn {
    /// The count stays below the firing point between chunks.
    pub open spec fn wf(&self) -> bool {
        self@ < BARGE_IN_CHUNK_COUNT
    }

    /// A detector with no loud chunk counted.
    pub fn new() -> (r: BargeIn)
        ensures
            r@ == 0,
            r.wf(),
    {
        BargeIn { loud_run: 0 }
    }

    /// Forgets the loud chunks counted so far.
    pub fn reset(&mut self)
        ensures
            final(self)@ == 0,
            final(self).wf(),
    {
        self.loud_run = 0;
    }

    /// Number of loud chunks in a row seen last.
    pub fn count(&self) -> (r: u64)
        ensures
            r == self@,
    {
        self.loud_run
    }

    /// Counts one chunk; returns whether the barge-in fires on it.
    pub fn feed(&mut self, chunk: &[i16]) -> (fired: bool)
        requires
            old(self).wf(),
        ensures
            (final(self)@, fired) == barge_step(old(self)@, chunk@),
            final(self).wf(),
    {
        if reaches_level(chunk, BARGE_IN_RMS_NUM, BARGE_IN_RMS_DEN) {
            self.loud_run = self.loud_run + 1;
        } else {
            self.loud_run = 0;
        }
        if self.loud_run >= BARGE_IN_CHUNK_COUNT {
            self.loud_run = 0;
            true
        } else {
            false
        }
    }
}

proof fn lemma_short_run_never_fires(count: nat, chunks: Seq<Seq<i16>>)
    requires
        count + chunks.len() < BARGE_IN_CHUNK_COUNT,
    ensures
        !barge_run(count, chunks).1.contains(true),
    decreases chunks.len(),
{
    if chunks.len() > 0 {
        let (c1, fired) = barge_step(count, chunks[0]);
        lemma_short_run_never_fires(c1, chunks.drop_first());
        let rest = barge_run(c1, chunks.drop_first()).1;
        assert(!fired);
        assert forall|i: int| 0 <= i < (seq![fired] + rest).len() implies (seq![fired]
            + rest)[i] != true by {
            if i > 0 {
                assert((seq![fired] + rest)[i] == rest[i - 1]);
            }
        }
    }
}

proof fn lemma_quiet_chunk_blocks(count: nat, chunks: Seq<Seq<i16>>, k: int)
    requires
        0 <= k < chunks.len(),
        !is_loud(chunks[k]),
        count + k < BARGE_IN_CHUNK_COUNT,
        chunks.len() - k - 1 < BARGE_IN_CHUNK_COUNT,
    ensures
        !barge_run(count, chunks).1.contains(true),
    decreases k,
{
    let (c1, fired) = barge_step(count, chunks[0]);
    let rest = barge_run(c1, chunks.drop_first()).1;
    if k == 0 {
        lemma_short_run_never_fires(c1, chunks.drop_first());
    } else {
        lemma_quiet_chunk_blocks(c1, chunks.drop_first(), k - 1);
    }
    assert(!fired);
    assert forall|i: int| 0 <= i < (seq![fired] + rest).len() implies (seq![fired] + rest)[i]
        != true by {
        if i > 0 {
            assert((seq![fired] + rest)[i] == rest[i - 1]);
        }
    }
}

/// A barge-in needs its loud chunks in a row: from a fresh count, a run of at
/// most `BARGE_IN_CHUNK_COUNT` chunks with a chunk below the threshold at any
/// position never fires.
pub proof fn law_quiet_chunk_prevents_barge_in(chunks: Seq<Seq<i16>>, k: int)
    requires
        chunks.len() <= BARGE_IN_CHUNK_COUNT,
        0 <= k < chunks.len(),
        !is_loud(chunks[k]),
    ensures
        !barge_run(0, chunks).1.contains(true),
{
    lemma_quiet_chunk_blocks(0, chunks, k);
}

/// From a fresh count, `BARGE_IN_CHUNK_COUNT` loud chunks in a row fire the
/// barge-in exactly once, on the last of them, and leave the count at zero.
pub proof fn law_full_loud_run_fires_once(chunks: Seq<Seq<i16>>)
    requires
        chunks.len() == BARGE_IN_CHUNK_COUNT,
        forall|i: int| 0 <= i < chunks.len() ==> is_loud(#[trigger] chunks[i]),
    ensures
        barge_run(0, chunks) == (0nat, seq![false, false, false, false, true]),
{
    let c1 = chunks.drop_first();
    let c2 = c1.drop_first();
    let c3 = c2.drop_first();
    let c4 = c3.drop_first();
    let c5 = c4.drop_first();
    assert(is_loud(chunks[0]));
    assert(is_loud(c1[0])) by { assert(c1[0] == chunks[1]); }
    assert(is_loud(c2[0])) by { assert(c2[0] == chunks[2]); }
    assert(is_loud(c3[0])) by { assert(c3[0] == chunks[3]); }
    assert(is_loud(c4[0])) by { assert(c4[0] == chunks[4]); }
    assert(c5.len() == 0);
    assert(barge_run(0, c5) == (0nat, Seq::<bool>::empty()));
    assert(barge_run(4, c4) == (0nat, seq![true])) by {
        assert(seq![true] + Seq::<bool>::empty() =~= seq![true]);
    }
    assert(barge_run(3, c3) == (0nat, seq![false, true])) by {
        assert(seq![false] + seq![true] =~= seq![false, true]);
    }
    assert(barge_run(2, c2) == (0nat, seq![false, false, true])) by {
        assert(seq![false] + seq![false, true] =~= seq![false, false, true]);
    }
    assert(barge_run(1, c1) == (0nat, seq![false, false, false, true])) by {
        assert(seq![false] + seq![false, false, true] =~= seq![false, false, false, true]);
    }
    assert(seq![false] + seq![false, false, false, true] =~= seq![false, false, false, false, true]);
}

} // verus!
