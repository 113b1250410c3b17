use vui::endpoint::{Endpoint, Endpointer};
use vui::signal::{chunk_energy, reaches_level};

fn loud(n: usize) -> Vec<i16> {
    vec![16383; n]
}

#[test]
fn speech_threshold_is_exact() {
    // 0.01 of full scale is 327.67: 328 reaches it, 327 does not.
    assert!(reaches_level(&[328; 10], 1, 100));
    assert!(!reaches_level(&[327; 10], 1, 100));
    assert!(!reaches_level(&[], 1, 100));
}

#[test]
fn energy_sums_squares() {
    assert_eq!(chunk_energy(&[3, -4]), 25);
    assert_eq!(chunk_energy(&[-32768]), 1073741824);
    assert_eq!(chunk_energy(&[]), 0);
}

#[test]
fn silence_is_never_handed_off() {
    let mut ep = Endpointer::new();
    let zeros = vec![0i16; 1000];
    let mut resets = 0;
    for i in 0..300 {
        match ep.feed(&zeros) {
            Endpoint::Ready(_) => panic!("silence handed off at chunk {}", i),
            Endpoint::Silence => resets += 1,
            Endpoint::Pending => {}
        }
        assert!(!ep.has_speech());
    }
    assert!(resets >= 1);
}

#[test]
fn seventeen_thousand_zero_samples_never_hand_off() {
    let mut ep = Endpointer::new();
    let zeros = vec![0i16; 1000];
    for _ in 0..17 {
        assert!(matches!(ep.feed(&zeros), Endpoint::Pending));
    }
    assert_eq!(ep.len(), 17000);
    assert_eq!(ep.silence_run(), 17);
    assert!(!ep.has_speech());
}

#[test]
fn silence_reset_happens_on_the_ninety_first_quiet_chunk() {
    let mut ep = Endpointer::new();
    let zeros = vec![0i16; 1000];
    for _ in 0..90 {
        assert!(matches!(ep.feed(&zeros), Endpoint::Pending));
    }
    assert!(matches!(ep.feed(&zeros), Endpoint::Silence));
    assert_eq!(ep.len(), 0);
    assert_eq!(ep.silence_run(), 0);
}

#[test]
fn loud_start_then_silence_hands_off_everything() {
    let mut stream = loud(500);
    stream.extend(vec![0i16; 17000]);
    let mut ep = Endpointer::new();
    for chunk in stream.chunks(1000) {
        assert!(matches!(ep.feed(chunk), Endpoint::Pending));
    }
    assert!(ep.has_speech());
    assert_eq!(ep.len(), 17500);
    assert_eq!(ep.silence_run(), 17);
    let zeros = vec![0i16; 1000];
    let mut extra = 0;
    loop {
        extra += 1;
        match ep.feed(&zeros) {
            Endpoint::Pending => assert!(extra < 74),
            Endpoint::Silence => panic!("speech was heard"),
            Endpoint::Ready(buf) => {
                assert_eq!(extra, 74);
                assert_eq!(buf.len(), 17500 + 74 * 1000);
                assert_eq!(&buf[..17500], &stream[..]);
                break;
            }
        }
    }
    assert_eq!(ep.len(), 0);
    assert!(!ep.has_speech());
}

#[test]
fn no_hand_off_before_enough_samples() {
    let mut ep = Endpointer::new();
    assert!(matches!(ep.feed(&loud(100)), Endpoint::Pending));
    for _ in 0..200 {
        assert!(matches!(ep.feed(&[0i16; 10]), Endpoint::Pending));
    }
    assert_eq!(ep.len(), 2100);
    assert_eq!(ep.silence_run(), 200);
}

#[test]
fn empty_chunk_counts_as_quiet() {
    let mut ep = Endpointer::new();
    assert!(matches!(ep.feed(&[]), Endpoint::Pending));
    assert_eq!(ep.silence_run(), 1);
    assert_eq!(ep.len(), 0);
}

#[test]
fn reset_sets_speech_flag() {
    let mut ep = Endpointer::new();
    ep.feed(&loud(10));
    ep.reset(true);
    assert_eq!(ep.len(), 0);
    assert!(ep.has_speech());
    assert_eq!(ep.silence_run(), 0);
}
