use vui::wav::encode_wav;

#[test]
fn wav_header_and_samples() {
    let w = encode_wav(&[0, -1, 32767, -32768], 16000);
    assert_eq!(w.len(), 44 + 8);
    assert_eq!(&w[0..4], b"RIFF");
    assert_eq!(&w[4..8], &(36u32 + 8).to_le_bytes());
    assert_eq!(&w[8..12], b"WAVE");
    assert_eq!(&w[12..16], b"fmt ");
    assert_eq!(&w[16..20], &16u32.to_le_bytes());
    assert_eq!(&w[20..22], &1u16.to_le_bytes());
    assert_eq!(&w[22..24], &1u16.to_le_bytes());
    assert_eq!(&w[24..28], &16000u32.to_le_bytes());
    assert_eq!(&w[28..32], &32000u32.to_le_bytes());
    assert_eq!(&w[32..34], &2u16.to_le_bytes());
    assert_eq!(&w[34..36], &16u16.to_le_bytes());
    assert_eq!(&w[36..40], b"data");
    assert_eq!(&w[40..44], &8u32.to_le_bytes());
    assert_eq!(&w[44..], &[0, 0, 0xff, 0xff, 0xff, 0x7f, 0x00, 0x80]);
}

#[test]
fn wav_of_nothing_is_a_bare_header() {
    let w = encode_wav(&[], 44100);
    assert_eq!(w.len(), 44);
    assert_eq!(&w[40..44], &[0, 0, 0, 0]);
    assert_eq!(&w[24..28], &44100u32.to_le_bytes());
}
