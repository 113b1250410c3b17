use vui::barge::BargeIn;

fn chunk(v: i16) -> Vec<i16> {
    vec![v; 800]
}

#[test]
fn five_loud_chunks_fire_once() {
    let mut b = BargeIn::new();
    let fired: Vec<bool> = (0..5).map(|_| b.feed(&chunk(9830))).collect();
    assert_eq!(fired, vec![false, false, false, false, true]);
    assert_eq!(b.count(), 0);
}

#[test]
fn a_quiet_chunk_anywhere_in_the_run_prevents_firing() {
    for k in 0..5 {
        let mut b = BargeIn::new();
        for i in 0..5 {
            let c = if i == k { chunk(100) } else { chunk(9830) };
            assert!(!b.feed(&c), "fired with a quiet chunk at {}", k);
        }
    }
}

#[test]
fn quiet_chunk_resets_count() {
    let mut b = BargeIn::new();
    b.feed(&chunk(9830));
    b.feed(&chunk(9830));
    assert_eq!(b.count(), 2);
    b.feed(&chunk(1000));
    assert_eq!(b.count(), 0);
}

#[test]
fn barge_threshold_is_exact() {
    // 0.05 of full scale is 1638.35: 1639 is loud, 1638 is not.
    let mut b = BargeIn::new();
    b.feed(&chunk(1639));
    assert_eq!(b.count(), 1);
    b.feed(&chunk(1638));
    assert_eq!(b.count(), 0);
}

#[test]
fn speech_level_below_barge_threshold_does_not_count() {
    let mut b = BargeIn::new();
    for _ in 0..10 {
        assert!(!b.feed(&chunk(1000)));
    }
    assert_eq!(b.count(), 0);
}

#[test]
fn reset_forgets_count() {
    let mut b = BargeIn::new();
    b.feed(&chunk(9830));
    b.reset();
    assert_eq!(b.count(), 0);
}
