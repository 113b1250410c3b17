//! Endpointing: deciding, chunk by chunk, when a spoken utterance is over.

use vstd::prelude::*;
use crate::signal::{reaches_level, rms_reaches};

verus! {

/// A chunk is speech when its RMS level is at least 1/100 of full scale.
pub const SPEECH_RMS_NUM: u64 = 1;

/// See `SPEECH_RMS_NUM`.
pub const SPEECH_RMS_DEN: u64 = 100;

/// An utterance is complete only once more than this many samples are buffered.
pub const MIN_UTTERANCE_SAMPLES: usize = 16000;

/// An utterance is complete only once more than this many quiet chunks ran in a row.
pub const SILENCE_CHUNK_LIMIT: u64 = 90;

/// Whether a chunk counts as speech.
pub open spec fn is_speech(chunk: Seq<i16>) -> bool {
    rms_reaches(chunk, SPEECH_RMS_NUM as nat, SPEECH_RMS_DEN as nat)
}

/// What the endpointer holds for the current listening turn.
pub struct Listen {
    pub samples: Seq<i16>,
    pub silence_run: nat,
    pub has_speech: bool,
}

/// What one chunk decides.
pub enum Verdict {
    /// The utterance goes on.
    Pending,
    /// The turn held only silence: it was dropped and listening starts over.
    Silence,
    /// The utterance is over; these are all of its samples.
    Ready(Seq<i16>),
}

/// The state at the start of a listening turn.
pub open spec fn fresh_listen() -> Listen {
    Listen { samples: Seq::empty(), silence_run: 0, has_speech: false }
}

/// The silence counter after one more quiet chunk (it stops at the largest `u64`).
pub open spec fn bump(n: nat) -> nat {
    if n < u64::MAX { n + 1 } else { n }
}

/// The completion rule: enough audio, and a long enough silence at its end.
pub open spec fn complete(samples: Seq<i16>, silence_run: nat) -> bool {
    samples.len() > MIN_UTTERANCE_SAMPLES && silence_run > SILENCE_CHUNK_LIMIT
}

/// One chunk of the endpointing policy.
pub open spec fn listen_step(s: Listen, chunk: Seq<i16>) -> (Listen, Verdict) {
    let speech = is_speech(chunk);
    let run = if speech { 0 } else { bump(s.silence_run) };
    let has = s.has_speech || speech;
    let buf = s.samples + chunk;
    if complete(buf, run) {
        (fresh_listen(), if has { Verdict::Ready(buf) } else { Verdict::Silence })
    } else {
        (Listen { samples: buf, silence_run: run, has_speech: has }, Verdict::Pending)
    }
}

/// The endpointing policy run over chunks in order: the final state, and the
/// verdict on each chunk.
pub open spec fn listen_run(s: Listen, chunks: Seq<Seq<i16>>) -> (Listen, Seq<Verdict>)
    decreases chunks.len(),
{
    if chunks.len() == 0 {
        (s, Seq::empty())
    } else {
        let (s1, v) = listen_step(s, chunks[0]);
        let (s2, rest) = listen_run(s1, chunks.drop_first());
        (s2, seq![v] + rest)
    }
}

/// The samples of the chunks, one chunk after the other.
pub open spec fn joined(chunks: Seq<Seq<i16>>) -> Seq<i16>
    decreases chunks.len(),
{
    if chunks.len() == 0 {
        Seq::empty()
    } else {
        chunks[0] + joined(chunks.drop_first())
    }
}

proof fn lemma_run_len(s: Listen, chunks: Seq<Seq<i16>>)
    ensures
        listen_run(s, chunks).1.len() == chunks.len(),
    decreases chunks.len(),
{
    if chunks.len() > 0 {
        lemma_run_len(listen_step(s, chunks[0]).0, chunks.drop_first());
    }
}

/// A quiet chunk that completes a turn in which no speech was heard drops
/// the buffer and starts the turn over, handing nothing off.
pub proof fn law_silence_resets(s: Listen, chunk: Seq<i16>)
    requires
        !s.has_speech,
        !is_speech(chunk),
        complete(s.samples + chunk, bump(s.silence_run)),
    ensures
        listen_step(s, chunk) == (fresh_listen(), Verdict::Silence),
{
}

/// Silence is never handed off as an utterance: from a turn with no speech
/// heard, quiet chunks, however many, give no `Ready` verdict, and the turn
/// still has no speech at the end.
pub proof fn law_silence_never_hands_off(s: Listen, chunks: Seq<Seq<i16>>)
    requires
        !s.has_speech,
        forall|i: int| 0 <= i < chunks.len() ==> !is_speech(#[trigger] chunks[i]),
    ensures
        forall|i: int|
            0 <= i < chunks.len() ==> !(#[trigger] listen_run(s, chunks).1[i] is Ready),
        !listen_run(s, chunks).0.has_speech,
    decreases chunks.len(),
{
    if chunks.len() > 0 {
        let (s1, v) = listen_step(s, chunks[0]);
        let rest = chunks.drop_first();
        assert forall|i: int| 0 <= i < rest.len() implies !is_speech(#[trigger] rest[i]) by {
            assert(rest[i] == chunks[i + 1]);
        }
        law_silence_never_hands_off(s1, rest);
        lemma_run_len(s1, rest);
        let vs = listen_run(s1, rest).1;
        assert forall|i: int| 0 <= i < chunks.len() implies !(#[trigger] listen_run(
            s,
            chunks,
        ).1[i] is Ready) by {
            if i > 0 {
                assert((seq![v] + vs)[i] == vs[i - 1]);
            }
        }
    }
}

proof fn lemma_pending_run(s: Listen, chunks: Seq<Seq<i16>>)
    requires
        forall|i: int| 0 <= i < chunks.len() ==> (#[trigger] listen_run(s, chunks).1[i]) is Pending,
    ensures
        listen_run(s, chunks).0.samples == s.samples + joined(chunks),
        listen_run(s, chunks).0.has_speech == (s.has_speech || exists|i: int|
            0 <= i < chunks.len() && is_speech(#[trigger] chunks[i])),
    decreases chunks.len(),
{
    if chunks.len() == 0 {
        assert(s.samples + joined(chunks) =~= s.samples);
    } else {
        let (s1, v) = listen_step(s, chunks[0]);
        let rest = chunks.drop_first();
        let vs = listen_run(s1, rest).1;
        lemma_run_len(s1, rest);
        assert(listen_run(s, chunks).1 == seq![v] + vs);
        assert((seq![v] + vs)[0] == v);
        assert(listen_run(s, chunks).1[0] is Pending);
        assert forall|i: int| 0 <= i < rest.len() implies (#[trigger] listen_run(s1, rest).1[i]) is Pending by {
            assert((seq![v] + vs)[i + 1] == vs[i]);
            assert(listen_run(s, chunks).1[i + 1] is Pending);
        }
        lemma_pending_run(s1, rest);
        assert(s.samples + joined(chunks) =~= s1.samples + joined(rest));
        if s.has_speech || exists|i: int| 0 <= i < chunks.len() && is_speech(#[trigger] chunks[i]) {
            if !s.has_speech && !is_speech(chunks[0]) {
                let i = choose|i: int| 0 <= i < chunks.len() && is_speech(#[trigger] chunks[i]);
                assert(rest[i - 1] == chunks[i]);
            }
        } else {
            assert forall|i: int| 0 <= i < rest.len() implies !is_speech(#[trigger] rest[i]) by {
                assert(rest[i] == chunks[i + 1]);
            }
        }
    }
}

/// Speech followed by silence is handed off whole: if a turn goes on through
/// some chunks, at least one of them (or an earlier one) speech, and a quiet
/// chunk then meets the completion rule, the verdict is `Ready` with every
/// sample of the turn, and the next turn starts fresh.
pub proof fn law_speech_then_silence_hands_off(s: Listen, chunks: Seq<Seq<i16>>, last: Seq<i16>)
    requires
        forall|i: int| 0 <= i < chunks.len() ==> (#[trigger] listen_run(s, chunks).1[i]) is Pending,
        s.has_speech || exists|i: int| 0 <= i < chunks.len() && is_speech(#[trigger] chunks[i]),
        !is_speech(last),
        complete(
            s.samples + joined(chunks) + last,
            bump(listen_run(s, chunks).0.silence_run),
        ),
    ensures
        listen_run(s, chunks).0.has_speech,
        listen_step(listen_run(s, chunks).0, last) == (
        fresh_listen(),
        Verdict::Ready(s.samples + joined(chunks) + last),
        ),
{
    lemma_pending_run(s, chunks);
}

/// The outcome of feeding one chunk to an `Endpointer`.
pub enum Endpoint {
    Pending,
    Silence,
    Ready(Vec<i16>),
}

impl Endpoint {
    pub open spec fn view(&self) -> Verdict {
        match self {
            Endpoint::Pending => Verdict::Pending,
            Endpoint::Silence => Verdict::Silence,
            Endpoint::Ready(v) => Verdict::Ready(v@),
        }
    }
}

/// The utterance buffer of a listening turn, with its silence counter and
/// whether speech was heard in it.
pub struct Endpointer {
    samples: Vec<i16>,
    silence_run: u64,
    has_speech: bool,
}

impl View for Endpointer {
    type V = Listen;

    closed spec fn view(&self) -> Listen {
        Listen {
            samples: self.samples@,
            silence_run: self.silence_run as nat,
            has_speech: self.has_speech,
        }
    }
}

impl Endpointer {
    /// An empty buffer, no silence counted, no speech heard.
    pub fn new() -> (r: Endpointer)
        ensures
            r@ == fresh_listen(),
    {
        Endpointer { samples: Vec::new(), silence_run: 0, has_speech: false }
    }

    /// Starts the turn over: the buffer is emptied and the counter zeroed;
    /// `has_speech` is set as given.
    pub fn reset(&mut self, has_speech: bool)
        ensures
            final(self)@ == (Listen { has_speech, ..fresh_listen() }),
    {
        self.samples = Vec::new();
        self.silence_run = 0;
        self.has_speech = has_speech;
    }

    /// Number of buffered samples.
    pub fn len(&self) -> (r: usize)
        ensures
            r == self@.samples.len(),
    {
        self.samples.len()
    }

    /// Whether speech was heard since the turn started.
    pub fn has_speech(&self) -> (r: bool)
        ensures
            r == self@.has_speech,
    {
        self.has_speech
    }

    /// Number of quiet chunks in a row at the end of the buffer.
    pub fn silence_run(&self) -> (r: u64)
        ensures
            r == self@.silence_run,
    {
        self.silence_run
    }

    /// Applies the policy to one chunk: measures it, updates the counter and
    /// the speech flag, appends its samples, and says whether the utterance
    /// is over. On `Ready` the buffer is handed out and the turn starts over;
    /// on `Silence` the buffer is dropped and the turn starts over.
    pub fn feed(&mut self, chunk: &[i16]) -> (r: Endpoint)
        ensures
            (final(self)@, r@) == listen_step(old(self)@, chunk@),
    {
        let speech = reaches_level(chunk, SPEECH_RMS_NUM, SPEECH_RMS_DEN);
        if speech {
            self.has_speech = true;
            self.silence_run = 0;
        } else if self.silence_run < u64::MAX {
            self.silence_run = self.silence_run + 1;
        }
        self.samples.extend_from_slice(chunk);
        proof {
            assert(self.samples@ =~= old(self)@.samples + chunk@);
        }
        if self.samples.len() > MIN_UTTERANCE_SAMPLES && self.silence_run > SILENCE_CHUNK_LIMIT {
            let speech_heard = self.has_speech;
            let mut buf: Vec<i16> = Vec::new();
            buf.append(&mut self.samples);
            self.silence_run = 0;
            self.has_speech = false;
            proof {
                assert(self@ =~= fresh_listen());
                assert(buf@ =~= old(self)@.samples + chunk@);
            }
            if speech_heard {
                Endpoint::Ready(buf)
            } else {
                Endpoint::Silence
            }
        } else {
            Endpoint::Pending
        }
    }
}

} // verus!
