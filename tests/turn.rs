use vui::chat::{SendResult, ToolUse};
use vui::form::ToolInput;
use vui::player::Status;
use vui::turn::{noise, Action, Role, Turn, TurnState};

fn reply(text: &str) -> SendResult {
    SendResult { text: text.to_string(), tool_uses: vec![], stop_reason: "end_turn".to_string() }
}

fn form_call(id: &str, field: &str, action: &str, value: &str) -> ToolUse {
    ToolUse {
        id: id.to_string(),
        name: "update_form".to_string(),
        input: serde_json::Value::Null,
        request: Some(ToolInput::new(field.to_string(), action.to_string(), value.to_string())),
    }
}

/// Drives a machine from idle to the point where it waits for a transcript.
fn processing(can_speak: bool, can_play: bool) -> Turn {
    let mut t = Turn::new(can_speak, can_play);
    t.start();
    let mut acts = t.on_chunk(&vec![16383i16; 1000]);
    while acts.is_empty() {
        acts = t.on_chunk(&vec![0i16; 1000]);
    }
    assert!(matches!(acts.as_slice(), [Action::Transcribe(_)]));
    assert!(matches!(t.state(), TurnState::Processing { pending_text: None }));
    t
}

/// Drives a machine until the reply "Hi there" plays.
fn speaking() -> Turn {
    let mut t = processing(true, true);
    let acts = t.on_transcript(Ok("  hello there ".to_string()));
    assert!(matches!(acts.as_slice(), [Action::Generate]));
    let acts = t.on_reply(Ok(reply("Hi there")));
    assert!(matches!(acts.as_slice(), [Action::Synthesize(s)] if s == "Hi there"));
    let acts = t.on_speech(Ok(vec![1, 2, 3]));
    assert!(matches!(acts.as_slice(), [Action::Play(b)] if b == &vec![1, 2, 3]));
    assert!(matches!(t.state(), TurnState::Speaking { text } if text == "Hi there"));
    t
}

#[test]
fn start_listens() {
    let mut t = Turn::new(true, true);
    assert!(matches!(t.state(), TurnState::Idle));
    t.start();
    assert!(matches!(t.state(), TurnState::Listening));
    assert!(t.takes_audio());
}

#[test]
fn silence_keeps_listening() {
    let mut t = Turn::new(true, true);
    t.start();
    for _ in 0..200 {
        assert!(t.on_chunk(&vec![0i16; 1000]).is_empty());
        assert!(matches!(t.state(), TurnState::Listening));
        assert!(!t.has_speech());
    }
}

#[test]
fn hand_off_sends_whole_buffer() {
    let mut t = Turn::new(true, true);
    t.start();
    let mut sent = 500usize;
    t.on_chunk(&vec![16383i16; 500]);
    loop {
        let acts = t.on_chunk(&vec![0i16; 1000]);
        sent += 1000;
        if let [Action::Transcribe(buf)] = acts.as_slice() {
            assert_eq!(buf.len(), sent);
            assert_eq!(buf[0], 16383);
            break;
        }
    }
    assert_eq!(t.buffered(), 0);
}

#[test]
fn five_loud_chunks_while_speaking_barge_in() {
    let mut t = speaking();
    let mut pauses = 0;
    for i in 0..5 {
        let acts = t.on_chunk(&vec![9830i16; 1000]);
        pauses += acts.iter().filter(|a| matches!(a, Action::PausePlayback)).count();
        if i < 4 {
            assert!(acts.is_empty());
            assert!(matches!(t.state(), TurnState::Speaking { .. }));
        }
    }
    assert_eq!(pauses, 1);
    assert!(matches!(t.state(), TurnState::BargedIn));
    assert!(t.has_speech());
    assert_eq!(t.buffered(), 0);
}

#[test]
fn barged_in_noise_resumes_reply() {
    let mut t = speaking();
    for _ in 0..5 {
        t.on_chunk(&vec![9830i16; 1000]);
    }
    let mut acts = Vec::new();
    while acts.is_empty() {
        acts = t.on_chunk(&vec![0i16; 1000]);
    }
    assert!(matches!(acts.as_slice(), [Action::Transcribe(_)]));
    let acts = t.on_transcript(Ok("(coughs)".to_string()));
    assert!(matches!(acts.as_slice(), [Action::ResumePlayback]));
    assert!(matches!(t.state(), TurnState::Speaking { .. }));
}

#[test]
fn barged_in_speech_stops_reply() {
    let mut t = speaking();
    for _ in 0..5 {
        t.on_chunk(&vec![9830i16; 1000]);
    }
    let mut acts = Vec::new();
    while acts.is_empty() {
        acts = t.on_chunk(&vec![0i16; 1000]);
    }
    let acts = t.on_transcript(Ok("wait, stop".to_string()));
    assert!(matches!(acts.as_slice(), [Action::StopPlayback, Action::Generate]));
    assert_eq!(t.history().len(), 3);
}

#[test]
fn finished_playback_returns_to_listening() {
    let mut t = speaking();
    t.on_status(&Status::Level(300));
    assert!(matches!(t.state(), TurnState::Speaking { .. }));
    t.on_status(&Status::Finished);
    assert!(matches!(t.state(), TurnState::Listening));
    assert_eq!(t.buffered(), 0);
    assert!(!t.has_speech());
}

#[test]
fn playback_error_counts_as_finished() {
    let mut t = speaking();
    t.on_status(&Status::Error("decode".to_string()));
    assert!(matches!(t.state(), TurnState::Listening));
}

#[test]
fn noise_filter() {
    assert!(noise(""));
    assert!(noise("ok"));
    assert!(noise("(music)"));
    assert!(noise("Static noise"));
    assert!(noise("some STATIC here"));
    assert!(!noise("hello"));
    assert!(!noise("yes"));
    // Two characters, four bytes: not short.
    assert!(!noise("éé"));
}

#[test]
fn noise_transcript_listens_again() {
    let mut t = processing(true, true);
    let acts = t.on_transcript(Ok("   ".to_string()));
    assert!(acts.is_empty());
    assert!(matches!(t.state(), TurnState::Listening));
    assert!(t.history().is_empty());
}

#[test]
fn transcript_is_trimmed_into_history() {
    let mut t = processing(true, true);
    t.on_transcript(Ok("  hello there \n".to_string()));
    assert_eq!(t.transcript().len(), 1);
    assert_eq!(t.transcript()[0].role, Role::User);
    assert_eq!(t.transcript()[0].text, "hello there");
}

#[test]
fn transcription_error_ends_session() {
    let mut t = processing(true, true);
    let acts = t.on_transcript(Err("timeout".to_string()));
    assert!(acts.is_empty());
    assert!(matches!(t.state(), TurnState::Done));
    assert_eq!(t.transcript()[0].text, "Error: timeout");
}

#[test]
fn generation_error_ends_session() {
    let mut t = processing(true, true);
    t.on_transcript(Ok("hello there".to_string()));
    assert!(t.on_reply(Err("overloaded".to_string())).is_empty());
    assert!(matches!(t.state(), TurnState::Done));
    assert_eq!(t.transcript().last().unwrap().text, "Error: overloaded");
}

#[test]
fn synthesis_error_shows_text_and_ends() {
    let mut t = processing(true, true);
    t.on_transcript(Ok("hello there".to_string()));
    t.on_reply(Ok(reply("Hi")));
    assert!(t.on_speech(Err("quota".to_string())).is_empty());
    assert!(matches!(t.state(), TurnState::Done));
    let n = t.transcript().len();
    assert_eq!(t.transcript()[n - 2].text, "Hi");
    assert_eq!(t.transcript()[n - 1].text, "Error: quota");
}

#[test]
fn without_synthesis_reply_is_shown() {
    let mut t = processing(false, true);
    t.on_transcript(Ok("hello there".to_string()));
    assert!(t.on_reply(Ok(reply("Hi"))).is_empty());
    assert!(matches!(t.state(), TurnState::Listening));
    assert_eq!(t.transcript().last().unwrap().text, "Hi");
    assert_eq!(t.transcript().last().unwrap().role, Role::Assistant);
}

#[test]
fn empty_reply_listens_again() {
    let mut t = processing(true, true);
    t.on_transcript(Ok("hello there".to_string()));
    assert!(t.on_reply(Ok(reply(""))).is_empty());
    assert!(matches!(t.state(), TurnState::Listening));
    assert_eq!(t.history().len(), 1);
}

#[test]
fn tool_round_fills_form_and_asks_again() {
    let mut t = processing(true, true);
    t.on_transcript(Ok("I am Ada".to_string()));
    let r = SendResult {
        text: String::new(),
        tool_uses: vec![form_call("a", "name", "write", "Ada")],
        stop_reason: "tool_use".to_string(),
    };
    let acts = t.on_reply(Ok(r));
    assert!(matches!(acts.as_slice(), [Action::Generate]));
    assert_eq!(t.form().name, "Ada");
    // user, assistant tool call, tool result
    assert_eq!(t.history().len(), 3);
    assert!(matches!(t.state(), TurnState::Processing { .. }));
}

#[test]
fn submit_with_ready_form_submits() {
    let mut t = processing(true, true);
    t.on_transcript(Ok("submit it".to_string()));
    let r = SendResult {
        text: "Sending now".to_string(),
        tool_uses: vec![
            form_call("a", "name", "write", "Ada"),
            form_call("b", "email", "write", "ada@x.org"),
            form_call("c", "form", "submit", ""),
        ],
        stop_reason: "tool_use".to_string(),
    };
    let acts = t.on_reply(Ok(r));
    assert!(matches!(acts.as_slice(), [Action::Submit]));
    assert!(matches!(t.state(), TurnState::Submitted));
    assert_eq!(t.history().len(), 5);
    assert_eq!(t.transcript().last().unwrap().text, "Sending now");
    // The session is over: later completions change nothing.
    assert!(t.on_reply(Ok(reply("more"))).is_empty());
    assert!(t.on_chunk(&vec![9830i16; 1000]).is_empty());
    assert!(matches!(t.state(), TurnState::Submitted));
}

#[test]
fn submit_with_incomplete_form_asks_again() {
    let mut t = processing(true, true);
    t.on_transcript(Ok("submit it".to_string()));
    let r = SendResult {
        text: String::new(),
        tool_uses: vec![form_call("c", "form", "submit", "")],
        stop_reason: "tool_use".to_string(),
    };
    assert!(matches!(t.on_reply(Ok(r)).as_slice(), [Action::Generate]));
}

#[test]
fn invalid_tool_input_is_answered() {
    let mut t = processing(true, true);
    t.on_transcript(Ok("hello there".to_string()));
    let r = SendResult {
        text: String::new(),
        tool_uses: vec![ToolUse {
            id: "z".to_string(),
            name: "update_form".to_string(),
            input: serde_json::Value::Null,
            request: None,
        }],
        stop_reason: "tool_use".to_string(),
    };
    assert!(matches!(t.on_reply(Ok(r)).as_slice(), [Action::Generate]));
    assert_eq!(t.history().len(), 3);
}

#[test]
fn stale_completion_is_ignored() {
    let mut t = Turn::new(true, true);
    t.start();
    assert!(t.on_transcript(Ok("hello there".to_string())).is_empty());
    assert!(t.on_speech(Ok(vec![1])).is_empty());
    assert!(matches!(t.state(), TurnState::Listening));
    assert!(t.history().is_empty());
}

#[test]
fn without_playback_synthesized_reply_returns_to_listening() {
    let mut t = processing(true, false);
    t.on_transcript(Ok("hello there".to_string()));
    t.on_reply(Ok(reply("Hi")));
    assert!(t.on_speech(Ok(vec![1])).is_empty());
    assert!(matches!(t.state(), TurnState::Listening));
}

#[test]
fn manual_submit_needs_ready_form() {
    let mut t = Turn::new(true, true);
    t.start();
    assert!(t.submit().is_empty());
    assert!(matches!(t.state(), TurnState::Listening));
}

#[test]
fn manual_submit_ends_session_and_drops_buffer() {
    let mut t = processing(true, true);
    t.on_transcript(Ok("I am Ada".to_string()));
    let r = SendResult {
        text: String::new(),
        tool_uses: vec![
            form_call("a", "name", "write", "Ada"),
            form_call("b", "email", "write", "ada@x.org"),
        ],
        stop_reason: "tool_use".to_string(),
    };
    t.on_reply(Ok(r));
    t.on_reply(Ok(reply("")));
    assert!(matches!(t.state(), TurnState::Listening));
    t.on_chunk(&vec![16383i16; 100]);
    assert_eq!(t.buffered(), 100);
    assert!(matches!(t.submit().as_slice(), [Action::Submit]));
    assert!(matches!(t.state(), TurnState::Submitted));
    assert_eq!(t.buffered(), 0);
    assert!(t.submit().is_empty());
}
