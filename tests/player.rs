use vui::player::{Command, Event, Output, Phase, Player, Status};

fn finished(out: &[Output]) -> usize {
    out.iter().filter(|o| matches!(o, Output::Report(Status::Finished))).count()
}

#[test]
fn play_then_stop_never_finishes() {
    let mut p = Player::new();
    let mut all = Vec::new();
    all.extend(p.step(Event::Command(Command::Play(vec![1, 2, 3]))));
    assert!(matches!(all[0], Output::Decode(ref b) if b == &vec![1, 2, 3]));
    all.extend(p.step(Event::Decoded(Ok(()))));
    all.extend(p.step(Event::Command(Command::Stop)));
    assert_eq!(p.phase(), Phase::Idle);
    all.extend(p.step(Event::Drained));
    all.extend(p.step(Event::Level(500)));
    assert_eq!(finished(&all), 0);
    assert!(matches!(all.last(), Some(Output::Stop)));
}

#[test]
fn played_to_end_finishes_once() {
    let mut p = Player::new();
    let mut all = Vec::new();
    all.extend(p.step(Event::Command(Command::Play(vec![9]))));
    all.extend(p.step(Event::Decoded(Ok(()))));
    assert_eq!(p.phase(), Phase::Streaming);
    all.extend(p.step(Event::Level(1200)));
    all.extend(p.step(Event::Command(Command::Pause)));
    assert_eq!(p.phase(), Phase::Paused);
    all.extend(p.step(Event::Level(1200)));
    all.extend(p.step(Event::Command(Command::Resume)));
    all.extend(p.step(Event::Drained));
    all.extend(p.step(Event::Drained));
    assert_eq!(finished(&all), 1);
    assert_eq!(p.phase(), Phase::Idle);
}

#[test]
fn levels_follow_phase() {
    let mut p = Player::new();
    assert!(p.step(Event::Level(7)).is_empty());
    p.step(Event::Command(Command::Play(vec![])));
    p.step(Event::Decoded(Ok(())));
    assert!(matches!(p.step(Event::Level(7)).as_slice(), [Output::Report(Status::Level(7))]));
    let out = p.step(Event::Command(Command::Pause));
    assert!(matches!(out.as_slice(), [Output::Pause, Output::Report(Status::Paused)]));
    assert!(matches!(p.step(Event::Level(7)).as_slice(), [Output::Report(Status::Level(0))]));
}

#[test]
fn decode_failure_reports_error() {
    let mut p = Player::new();
    p.step(Event::Command(Command::Play(vec![0])));
    let out = p.step(Event::Decoded(Err("bad data".to_string())));
    assert!(matches!(out.as_slice(), [Output::Report(Status::Error(m))] if m == "bad data"));
    assert_eq!(p.phase(), Phase::Idle);
}

#[test]
fn play_while_playing_is_ignored() {
    let mut p = Player::new();
    p.step(Event::Command(Command::Play(vec![1])));
    p.step(Event::Decoded(Ok(())));
    assert!(p.step(Event::Command(Command::Play(vec![2]))).is_empty());
    assert_eq!(p.phase(), Phase::Streaming);
}

#[test]
fn end_of_data_reports_silence_then_finished() {
    let mut p = Player::new();
    p.step(Event::Command(Command::Play(vec![1])));
    p.step(Event::Decoded(Ok(())));
    let out = p.step(Event::Drained);
    assert!(matches!(
        out.as_slice(),
        [Output::Report(Status::Level(0)), Output::Report(Status::Finished)]
    ));
}
