//! Framing an utterance as a 16-bit mono PCM WAV file.

use vstd::prelude::*;

verus! {

/// Little-endian bytes of a 16-bit value.
pub open spec fn le16(x: nat) -> Seq<u8> {
    seq![(x % 256) as u8, (x / 256 % 256) as u8]
}

/// Little-endian bytes of a 32-bit value.
pub open spec fn le32(x: nat) -> Seq<u8> {
    seq![
        (x % 256) as u8,
        (x / 256 % 256) as u8,
        (x / 65536 % 256) as u8,
        (x / 16777216 % 256) as u8,
    ]
}

/// Two's-complement bits of a sample.
pub open spec fn sample_bits(s: i16) -> nat {
    if s < 0 {
        (s + 65536) as nat
    } else {
        s as nat
    }
}

/// The ASCII bytes of "RIFF".
pub open spec fn riff_tag() -> Seq<u8> {
    seq![82u8, 73u8, 70u8, 70u8]
}

/// The ASCII bytes of "WAVE".
pub open spec fn wave_tag() -> Seq<u8> {
    seq![87u8, 65u8, 86u8, 69u8]
}

/// The ASCII bytes of "fmt ".
pub open spec fn fmt_tag() -> Seq<u8> {
    seq![102u8, 109u8, 116u8, 32u8]
}

/// The ASCII bytes of "data".
pub open spec fn data_tag() -> Seq<u8> {
    seq![100u8, 97u8, 116u8, 97u8]
}

/// The 44-byte header of a mono 16-bit PCM file of `n` samples at `rate` Hz.
pub open spec fn wav_header(n: nat, rate: nat) -> Seq<u8> {
    riff_tag() + le32(36 + 2 * n) + wave_tag() + fmt_tag() + le32(16) + le16(1) + le16(1) + le32(
        rate,
    ) + le32(2 * rate) + le16(2) + le16(16) + data_tag() + le32(2 * n)
}

/// The samples as little-endian 16-bit values.
pub open spec fn pcm_bytes(s: Seq<i16>) -> Seq<u8>
    decreases s.len(),
{
    if s.len() == 0 {
        Seq::empty()
    } else {
        pcm_bytes(s.drop_last()) + le16(sample_bits(s.last()))
    }
}

/// The whole file.
pub open spec fn wav_file(s: Seq<i16>, rate: nat) -> Seq<u8> {
    wav_header(s.len(), rate) + pcm_bytes(s)
}

fn push_tag(out: &mut Vec<u8>, a: u8, b: u8, c: u8, d: u8)
    ensures
        final(out)@ == old(out)@ + seq![a, b, c, d],
{
    out.push(a);
    out.push(b);
    out.push(c);
    out.push(d);
    assert(final(out)@ =~= old(out)@ + seq![a, b, c, d]);
}

fn push_u16(out: &mut Vec<u8>, x: u16)
    ensures
        final(out)@ == old(out)@ + le16(x as nat),
{
    out.push((x % 256) as u8);
    out.push((x / 256 % 256) as u8);
    assert(final(out)@ =~= old(out)@ + le16(x as nat));
}

fn push_u32(out: &mut Vec<u8>, x: u32)
    ensures
        final(out)@ == old(out)@ + le32(x as nat),
{
    out.push((x % 256) as u8);
    out.push((x / 256 % 256) as u8);
    out.push((x / 65536 % 256) as u8);
    out.push((x / 16777216 % 256) as u8);
    assert(final(out)@ =~= old(out)@ + le32(x as nat));
}

/// Encodes mono 16-bit samples at `sample_rate` Hz as a WAV file: the RIFF
/// header, the `fmt ` chunk of PCM, and the `data` chunk with each sample in
/// little-endian order. The sizes in the header are 32-bit, which bounds the
/// sample count and the rate.
pub fn encode_wav(samples: &[i16], sample_rate: u32) -> (r: Vec<u8>)
    requires
        36 + 2 * samples@.len() <= u32::MAX,
        2 * sample_rate <= u32::MAX,
    ensures
        r@ == wav_file(samples@, sample_rate as nat),
{
    let data_size = (samples.len() * 2) as u32;
    let mut wav: Vec<u8> = Vec::new();
    push_tag(&mut wav, 82, 73, 70, 70);
    push_u32(&mut wav, 36 + data_size);
    push_tag(&mut wav, 87, 65, 86, 69);
    push_tag(&mut wav, 102, 109, 116, 32);
    push_u32(&mut wav, 16);
    push_u16(&mut wav, 1);
    push_u16(&mut wav, 1);
    push_u32(&mut wav, sample_rate);
    push_u32(&mut wav, sample_rate * 2);
    push_u16(&mut wav, 2);
    push_u16(&mut wav, 16);
    push_tag(&mut wav, 100, 97, 116, 97);
    push_u32(&mut wav, data_size);
    assert(wav@ =~= wav_header(samples@.len(), sample_rate as nat));
    let ghost header = wav@;
    let mut i: usize = 0;
    while i < samples.len()
        invariant
            i <= samples@.len(),
            wav@ == header + pcm_bytes(samples@.take(i as int)),
        decreases samples@.len() - i,
    {
        let s = samples[i];
        let bits: u16 = if s < 0 {
            (s as i32 + 65536) as u16
        } else {
            s as u16
        };
        push_u16(&mut wav, bits);
        proof {
            assert(samples@.take(i as int + 1).drop_last() =~= samples@.take(i as int));
        }
        i = i + 1;
    }
    assert(samples@.take(samples@.len() as int) =~= samples@);
    wav
}

} // verus!
