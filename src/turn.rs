//! The turn state machine: it arbitrates between the user talking, the system
//! thinking and the system talking.
//!
//! The driver hands it, one at a time, the playback statuses and then the
//! capture chunks of each tick, and the completions of the backend calls; the
//! machine answers each with the actions the driver must carry out.

use vstd::prelude::*;
use vstd::string::*;
use vstd::utf8::encode_utf8;
use crate::barge::{barge_step, BargeIn, BARGE_IN_CHUNK_COUNT};
use crate::chat::{
    assistant_message, messages_view, tool_result_message, tool_uses_view, user_message,
    BlockView, ContentBlock, Message, MessageView, SendResult, ToolUseView,
};
use crate::endpoint::{fresh_listen, listen_step, Endpoint, Endpointer, Listen, Verdict};
use crate::form::{apply_spec, form_ready, Form, FormView};
use crate::player::{Status, StatusView};
use crate::text::{contains, lower_of, lowercase, occurs_in, text_is, trim, trimmed};

verus! {

/// Who said a line of the transcript.
#[derive(PartialEq, Eq, Structural, Clone, Copy, Debug)]
pub enum Role {
    User,
    Assistant,
}

/// A line of the transcript shown to the user.
pub struct Line {
    pub role: Role,
    pub text: String,
}

pub struct LineView {
    pub role: Role,
    pub text: Seq<char>,
}

impl Line {
    pub open spec fn view(&self) -> LineView {
        LineView { role: self.role, text: self.text@ }
    }
}

/// The views of the lines.
pub open spec fn lines_view(l: Seq<Line>) -> Seq<LineView> {
    l.map_values(|x: Line| x.view())
}

/// Where the conversation stands.
pub enum TurnState {
    Idle,
    Listening,
    /// The reply is playing; `text` is its text.
    Speaking { text: String },
    /// The user talks over the reply, which is paused.
    BargedIn,
    /// A backend call is under way; `pending_text` is a reply waiting for its audio.
    Processing { pending_text: Option<String> },
    Submitted,
    Done,
}

pub enum StateView {
    Idle,
    Listening,
    Speaking(Seq<char>),
    BargedIn,
    Processing(Option<Seq<char>>),
    Submitted,
    Done,
}

impl TurnState {
    pub open spec fn view(&self) -> StateView {
        match self {
            TurnState::Idle => StateView::Idle,
            TurnState::Listening => StateView::Listening,
            TurnState::Speaking { text } => StateView::Speaking(text@),
            TurnState::BargedIn => StateView::BargedIn,
            TurnState::Processing { pending_text } => StateView::Processing(
                match pending_text {
                    Some(t) => Some(t@),
                    None => None,
                },
            ),
            TurnState::Submitted => StateView::Submitted,
            TurnState::Done => StateView::Done,
        }
    }
}

/// What the driver must do.
pub enum Action {
    /// Send the utterance to the transcription backend.
    Transcribe(Vec<i16>),
    /// Send the history to the generation backend.
    Generate,
    /// Send the reply text to the synthesis backend.
    Synthesize(String),
    /// Play the synthesized audio.
    Play(Vec<u8>),
    PausePlayback,
    ResumePlayback,
    StopPlayback,
    /// Deliver the completed form.
    Submit,
}

pub enum ActionView {
    Transcribe(Seq<i16>),
    Generate,
    Synthesize(Seq<char>),
    Play(Seq<u8>),
    PausePlayback,
    ResumePlayback,
    StopPlayback,
    Submit,
}

impl Action {
    pub open spec fn view(&self) -> ActionView {
        match self {
            Action::Transcribe(s) => ActionView::Transcribe(s@),
            Action::Generate => ActionView::Generate,
            Action::Synthesize(t) => ActionView::Synthesize(t@),
            Action::Play(b) => ActionView::Play(b@),
            Action::PausePlayback => ActionView::PausePlayback,
            Action::ResumePlayback => ActionView::ResumePlayback,
            Action::StopPlayback => ActionView::StopPlayback,
            Action::Submit => ActionView::Submit,
        }
    }
}

/// The views of the actions.
pub open spec fn actions_view(a: Seq<Action>) -> Seq<ActionView> {
    a.map_values(|x: Action| x.view())
}

/// Everything the machine holds.
pub struct TurnView {
    pub state: StateView,
    /// The endpointer of the listening turn.
    pub listen: Listen,
    /// Loud chunks in a row while speaking.
    pub barge: nat,
    /// Playback was paused by a barge-in and may be resumed.
    pub tts_paused: bool,
    /// A synthesis backend is there.
    pub can_speak: bool,
    /// A playback device is there.
    pub can_play: bool,
    pub history: Seq<MessageView>,
    pub transcript: Seq<LineView>,
    pub form: FormView,
}

/// Entering `Listening`: the utterance buffer is emptied and no speech is heard yet.
pub open spec fn start_listening(v: TurnView) -> TurnView {
    TurnView { state: StateView::Listening, listen: fresh_listen(), ..v }
}

/// After an utterance that was only noise: resume a reply paused by a
/// barge-in, or else listen again.
pub open spec fn resume_after_noise(v: TurnView) -> (TurnView, Seq<ActionView>) {
    if v.tts_paused {
        (
            TurnView {
                state: StateView::Speaking(Seq::empty()),
                listen: fresh_listen(),
                barge: 0,
                tts_paused: false,
                ..v
            },
            if v.can_play {
                seq![ActionView::ResumePlayback]
            } else {
                Seq::empty()
            },
        )
    } else {
        (start_listening(v), Seq::empty())
    }
}

/// Session start.
pub open spec fn start_spec(v: TurnView) -> TurnView {
    if v.state is Idle {
        start_listening(v)
    } else {
        v
    }
}

/// A playback status. The end of playback, or a playback error, ends the
/// reply: from `Speaking` the machine listens again. Other statuses only
/// inform the display.
pub open spec fn status_spec(v: TurnView, s: StatusView) -> TurnView {
    if s is Finished || s is Error {
        let v1 = TurnView { tts_paused: false, ..v };
        if v.state is Speaking {
            start_listening(v1)
        } else {
            v1
        }
    } else {
        v
    }
}

/// The user's own request to submit: taken when the form is ready and the
/// session is not over. It ends the session, so the utterance buffer is
/// dropped.
pub open spec fn submit_spec(v: TurnView) -> (TurnView, Seq<ActionView>) {
    if form_ready(v.form) && !(v.state is Submitted) && !(v.state is Done) {
        (
            TurnView { state: StateView::Submitted, listen: fresh_listen(), ..v },
            seq![ActionView::Submit],
        )
    } else {
        (v, Seq::empty())
    }
}

/// A capture chunk: the barge-in detector while speaking, the endpointer while
/// listening or barged in; ignored otherwise.
pub open spec fn chunk_spec(v: TurnView, chunk: Seq<i16>) -> (TurnView, Seq<ActionView>) {
    if v.state is Speaking {
        let (c, fired) = barge_step(v.barge, chunk);
        if fired {
            (
                TurnView {
                    state: StateView::BargedIn,
                    listen: Listen { has_speech: true, ..fresh_listen() },
                    barge: 0,
                    tts_paused: true,
                    ..v
                },
                if v.can_play {
                    seq![ActionView::PausePlayback]
                } else {
                    Seq::empty()
                },
            )
        } else {
            (TurnView { barge: c, ..v }, Seq::empty())
        }
    } else if v.state is Listening || v.state is BargedIn {
        let (l, verdict) = listen_step(v.listen, chunk);
        let v1 = TurnView { listen: l, ..v };
        match verdict {
            Verdict::Pending => (v1, Seq::empty()),
            Verdict::Silence => if v.state is Listening {
                (v1, Seq::empty())
            } else {
                resume_after_noise(v1)
            },
            Verdict::Ready(buf) => (
                TurnView { state: StateView::Processing(None), ..v1 },
                seq![ActionView::Transcribe(buf)],
            ),
        }
    } else {
        (v, Seq::empty())
    }
}

/// A transcript that is only noise: empty, shorter than three bytes, a
/// parenthesized remark, or a mention of static.
pub open spec fn is_noise(t: Seq<char>) -> bool {
    t.len() == 0 || encode_utf8(t).len() < 3 || t[0] == '(' || occurs_in(lower_of(t), "static"@)
}

/// The transcript line that reports a backend error.
pub open spec fn error_line(e: Seq<char>) -> LineView {
    LineView { role: Role::Assistant, text: "Error: "@ + e }
}

/// A line of the assistant.
pub open spec fn assistant_line(t: Seq<char>) -> LineView {
    LineView { role: Role::Assistant, text: t }
}

/// Stopping a reply that a barge-in paused.
pub open spec fn stop_paused(v: TurnView) -> Seq<ActionView> {
    if v.tts_paused && v.can_play {
        seq![ActionView::StopPlayback]
    } else {
        Seq::empty()
    }
}

/// The transcription's answer, taken only while processing.
pub open spec fn transcript_spec(v: TurnView, r: Result<Seq<char>, Seq<char>>) -> (
    TurnView,
    Seq<ActionView>,
) {
    if !(v.state is Processing) {
        (v, Seq::empty())
    } else {
        match r {
            Ok(raw) => {
                let t = trimmed(raw);
                if is_noise(t) {
                    resume_after_noise(v)
                } else {
                    (
                        TurnView {
                            tts_paused: false,
                            history: v.history.push(user_message(t)),
                            transcript: v.transcript.push(LineView { role: Role::User, text: t }),
                            ..v
                        },
                        stop_paused(v) + seq![ActionView::Generate],
                    )
                }
            },
            Err(e) => (
                TurnView {
                    state: StateView::Done,
                    tts_paused: false,
                    transcript: v.transcript.push(error_line(e)),
                    ..v
                },
                stop_paused(v),
            ),
        }
    }
}

/// One tool call: the form after it, the answers it adds to the history, and
/// whether it asks for a submission that the form allows.
pub open spec fn tool_step(f: FormView, tu: ToolUseView) -> (FormView, Seq<MessageView>, bool) {
    if tu.name == "update_form"@ {
        match tu.request {
            Some(ti) => {
                let (f1, out) = apply_spec(f, ti.field, ti.action, ti.value);
                (f1, seq![tool_result_message(tu.id, out)], ti.action == "submit"@ && form_ready(f1))
            },
            None => (f, seq![tool_result_message(tu.id, "Error: invalid tool input"@)], false),
        }
    } else {
        (f, Seq::empty(), false)
    }
}

/// The tool calls in order.
pub open spec fn run_tools(f: FormView, tus: Seq<ToolUseView>) -> (FormView, Seq<MessageView>, bool)
    decreases tus.len(),
{
    if tus.len() == 0 {
        (f, Seq::empty(), false)
    } else {
        let (f1, m1, s1) = run_tools(f, tus.drop_last());
        let (f2, m2, s2) = tool_step(f1, tus.last());
        (f2, m1 + m2, s1 || s2)
    }
}

/// The block of a tool call.
pub open spec fn tool_block(t: ToolUseView) -> BlockView {
    BlockView::ToolUse(t.id, t.name, t.input, t.request)
}

/// The blocks of the assistant message that records a reply.
pub open spec fn reply_blocks(text: Seq<char>, tus: Seq<ToolUseView>) -> Seq<BlockView> {
    (if text.len() > 0 {
        seq![BlockView::Text(text)]
    } else {
        Seq::empty()
    }) + tus.map_values(|t: ToolUseView| tool_block(t))
}

/// The generation backend's answer, taken only while processing. A reply
/// that stops for tool use runs its calls on the form, and then submits or
/// asks again; a reply of text is spoken (or shown, with no synthesis
/// backend); an empty reply goes back to listening.
pub open spec fn reply_spec(v: TurnView, r: Result<SendResult, String>) -> (TurnView, Seq<ActionView>) {
    if !(v.state is Processing) {
        (v, Seq::empty())
    } else {
        match r {
            Err(e) => (
                TurnView { state: StateView::Done, transcript: v.transcript.push(error_line(e@)), ..v },
                Seq::empty(),
            ),
            Ok(res) => {
                let text = res.text@;
                let tus = tool_uses_view(res.tool_uses@);
                let blocks = reply_blocks(text, tus);
                let h1 = if blocks.len() > 0 {
                    v.history.push(assistant_message(blocks))
                } else {
                    v.history
                };
                if res.stop_reason@ == "tool_use"@ && tus.len() > 0 {
                    let (f, answers, submit) = run_tools(v.form, tus);
                    let v1 = TurnView { history: h1 + answers, form: f, ..v };
                    if submit {
                        (
                            TurnView {
                                state: StateView::Submitted,
                                transcript: if text.len() > 0 {
                                    v.transcript.push(assistant_line(text))
                                } else {
                                    v.transcript
                                },
                                ..v1
                            },
                            seq![ActionView::Submit],
                        )
                    } else {
                        (v1, seq![ActionView::Generate])
                    }
                } else if text.len() == 0 {
                    (start_listening(TurnView { history: h1, ..v }), Seq::empty())
                } else if v.can_speak {
                    (
                        TurnView { state: StateView::Processing(Some(text)), history: h1, ..v },
                        seq![ActionView::Synthesize(text)],
                    )
                } else {
                    (
                        start_listening(
                            TurnView {
                                history: h1,
                                transcript: v.transcript.push(assistant_line(text)),
                                ..v
                            },
                        ),
                        Seq::empty(),
                    )
                }
            },
        }
    }
}

/// The synthesis backend's answer, taken only while processing. The pending
/// reply text is shown either way; the audio is played, or an error ends the
/// session.
pub open spec fn speech_spec(v: TurnView, r: Result<Seq<u8>, Seq<char>>) -> (TurnView, Seq<ActionView>) {
    match v.state {
        StateView::Processing(pending) => {
            let shown = match pending {
                Some(t) => v.transcript.push(assistant_line(t)),
                None => v.transcript,
            };
            let text = match pending {
                Some(t) => t,
                None => Seq::empty(),
            };
            match r {
                Ok(audio) => if v.can_play {
                    (
                        TurnView {
                            state: StateView::Speaking(text),
                            barge: 0,
                            tts_paused: false,
                            transcript: shown,
                            ..v
                        },
                        seq![ActionView::Play(audio)],
                    )
                } else {
                    (start_listening(TurnView { transcript: shown, ..v }), Seq::empty())
                },
                Err(e) => (
                    TurnView { state: StateView::Done, transcript: shown.push(error_line(e)), ..v },
                    Seq::empty(),
                ),
            }
        },
        _ => (v, Seq::empty()),
    }
}

/// The turn state machine with the utterance buffer, the barge-in counter,
/// the conversation history, the transcript and the form.
pub struct Turn {
    state: TurnState,
    listen: Endpointer,
    barge: BargeIn,
    tts_paused: bool,
    can_speak: bool,
    can_play: bool,
    history: Vec<Message>,
    transcript: Vec<Line>,
    form: Form,
}

impl View for Turn {
    type V = TurnView;

    closed spec fn view(&self) -> TurnView {
        TurnView {
            state: self.state.view(),
            listen: self.listen@,
            barge: self.barge@,
            tts_paused: self.tts_paused,
            can_speak: self.can_speak,
            can_play: self.can_play,
            history: messages_view(self.history@),
            transcript: lines_view(self.transcript@),
            form: self.form@,
        }
    }
}

fn error_text(e: &str) -> (r: String)
    ensures
        r@ == "Error: "@ + e@,
{
    let mut m = String::from_str("Error: ");
    m.append(e);
    m
}

proof fn lemma_utf8_len(t: Seq<char>)
    ensures
        t.len() <= encode_utf8(t).len() <= 4 * t.len(),
    decreases t.len(),
{
    if t.len() > 0 {
        lemma_utf8_len(t.drop_first());
        assert(1 <= vstd::utf8::encode_scalar(t[0] as u32).len() <= 4);
    }
}

/// Whether a transcript is only noise.
pub fn noise(t: &str) -> (r: bool)
    ensures
        r == is_noise(t@),
{
    if t.is_empty() {
        return true;
    }
    proof {
        lemma_utf8_len(t@);
    }
    if t.unicode_len() < 3 && t.len() < 3 {
        return true;
    }
    if t.get_char(0) == '(' {
        return true;
    }
    let low = lowercase(t);
    contains(low.as_str(), "static")
}

impl Turn {
    /// Between events the barge-in count stays below its firing point.
    pub open spec fn wf(&self) -> bool {
        self@.barge < BARGE_IN_CHUNK_COUNT
    }

    /// An idle machine with an empty history, transcript and form;
    /// `can_speak` tells whether a synthesis backend is there, `can_play`
    /// whether a playback device is.
    pub fn new(can_speak: bool, can_play: bool) -> (r: Turn)
        ensures
            r.wf(),
            r@ == (TurnView {
                state: StateView::Idle,
                listen: fresh_listen(),
                barge: 0,
                tts_paused: false,
                can_speak,
                can_play,
                history: Seq::empty(),
                transcript: Seq::empty(),
                form: crate::form::blank_form(),
            }),
    {
        let r = Turn {
            state: TurnState::Idle,
            listen: Endpointer::new(),
            barge: BargeIn::new(),
            tts_paused: false,
            can_speak,
            can_play,
            history: Vec::new(),
            transcript: Vec::new(),
            form: Form::new(),
        };
        assert(messages_view(r.history@) =~= Seq::empty());
        assert(lines_view(r.transcript@) =~= Seq::empty());
        r
    }

    /// Where the conversation stands.
    pub fn state(&self) -> (r: &TurnState)
        ensures
            r.view() == self@.state,
    {
        &self.state
    }

    /// The conversation history, as sent to the generation backend.
    pub fn history(&self) -> (r: &Vec<Message>)
        ensures
            messages_view(r@) == self@.history,
    {
        &self.history
    }

    /// The transcript shown to the user.
    pub fn transcript(&self) -> (r: &Vec<Line>)
        ensures
            lines_view(r@) == self@.transcript,
    {
        &self.transcript
    }

    /// The form.
    pub fn form(&self) -> (r: &Form)
        ensures
            r@ == self@.form,
    {
        &self.form
    }

    /// Number of samples in the utterance buffer.
    pub fn buffered(&self) -> (r: usize)
        ensures
            r == self@.listen.samples.len(),
    {
        self.listen.len()
    }

    /// Whether speech was heard in the current listening turn.
    pub fn has_speech(&self) -> (r: bool)
        ensures
            r == self@.listen.has_speech,
    {
        self.listen.has_speech()
    }

    /// Whether capture chunks are read in the current state.
    pub fn takes_audio(&self) -> (r: bool)
        ensures
            r == (self@.state is Listening || self@.state is Speaking || self@.state is BargedIn),
    {
        matches!(self.state, TurnState::Listening | TurnState::Speaking { .. } | TurnState::BargedIn)
    }

    fn is_processing(&self) -> (r: bool)
        ensures
            r == (self@.state is Processing),
    {
        matches!(self.state, TurnState::Processing { .. })
    }

    fn start_listening(&mut self)
        ensures
            final(self)@ == start_listening(old(self)@),
            final(self).barge == old(self).barge,
    {
        self.state = TurnState::Listening;
        self.listen.reset(false);
    }

    fn resume_after_noise(&mut self) -> (acts: Vec<Action>)
        requires
            old(self).wf(),
        ensures
            final(self).wf(),
            (final(self)@, actions_view(acts@)) == resume_after_noise(old(self)@),
    {
        let mut acts: Vec<Action> = Vec::new();
        if self.tts_paused {
            if self.can_play {
                acts.push(Action::ResumePlayback);
            }
            self.state = TurnState::Speaking { text: String::new() };
            self.listen.reset(false);
            self.barge.reset();
            self.tts_paused = false;
        } else {
            self.start_listening();
        }
        assert(actions_view(acts@) =~= resume_after_noise(old(self)@).1);
        acts
    }

    /// Starts the session: from `Idle`, listening begins.
    pub fn start(&mut self)
        requires
            old(self).wf(),
        ensures
            final(self).wf(),
            final(self)@ == start_spec(old(self)@),
    {
        if matches!(self.state, TurnState::Idle) {
            self.start_listening();
        }
    }

    /// Takes one playback status.
    pub fn on_status(&mut self, s: &Status)
        requires
            old(self).wf(),
        ensures
            final(self).wf(),
            final(self)@ == status_spec(old(self)@, s.view()),
    {
        if matches!(s, Status::Finished | Status::Error(_)) {
            self.tts_paused = false;
            if matches!(self.state, TurnState::Speaking { .. }) {
                self.start_listening();
            }
        }
    }

    /// Takes one capture chunk.
    pub fn on_chunk(&mut self, chunk: &[i16]) -> (acts: Vec<Action>)
        requires
            old(self).wf(),
        ensures
            final(self).wf(),
            (final(self)@, actions_view(acts@)) == chunk_spec(old(self)@, chunk@),
    {
        let mut acts: Vec<Action> = Vec::new();
        if matches!(self.state, TurnState::Speaking { .. }) {
            let fired = self.barge.feed(chunk);
            if fired {
                if self.can_play {
                    acts.push(Action::PausePlayback);
                }
                self.tts_paused = true;
                self.state = TurnState::BargedIn;
                self.listen.reset(true);
            }
        } else if matches!(self.state, TurnState::Listening | TurnState::BargedIn) {
            let barged_in = matches!(self.state, TurnState::BargedIn);
            match self.listen.feed(chunk) {
                Endpoint::Pending => {},
                Endpoint::Silence => {
                    if barged_in {
                        let a = self.resume_after_noise();
                        return a;
                    }
                },
                Endpoint::Ready(buf) => {
                    self.state = TurnState::Processing { pending_text: None };
                    acts.push(Action::Transcribe(buf));
                },
            }
        }
        assert(actions_view(acts@) =~= chunk_spec(old(self)@, chunk@).1);
        acts
    }
}

impl Turn {
    /// Takes the transcription backend's answer.
    pub fn on_transcript(&mut self, r: Result<String, String>) -> (acts: Vec<Action>)
        requires
            old(self).wf(),
        ensures
            final(self).wf(),
            (final(self)@, actions_view(acts@)) == transcript_spec(
                old(self)@,
                match r {
                    Ok(t) => Ok(t@),
                    Err(e) => Err(e@),
                },
            ),
    {
        let mut acts: Vec<Action> = Vec::new();
        if !self.is_processing() {
            assert(actions_view(acts@) =~= Seq::empty());
            return acts;
        }
        let stop = self.tts_paused && self.can_play;
        if stop {
            acts.push(Action::StopPlayback);
        }
        match r {
            Ok(raw) => {
                let t = trim(raw.as_str());
                if noise(t) {
                    return self.resume_after_noise();
                }
                self.tts_paused = false;
                self.history.push(Message::user(t));
                self.transcript.push(Line { role: Role::User, text: String::from_str(t) });
                acts.push(Action::Generate);
                proof {
                    assert(messages_view(self.history@) =~= messages_view(old(self).history@).push(
                        user_message(trimmed(raw@)),
                    ));
                    assert(lines_view(self.transcript@) =~= lines_view(old(self).transcript@).push(
                        LineView { role: Role::User, text: trimmed(raw@) },
                    ));
                }
            },
            Err(e) => {
                self.tts_paused = false;
                self.transcript.push(Line { role: Role::Assistant, text: error_text(e.as_str()) });
                self.state = TurnState::Done;
                proof {
                    assert(lines_view(self.transcript@) =~= lines_view(old(self).transcript@).push(
                        error_line(e@),
                    ));
                }
            },
        }
        assert(actions_view(acts@) =~= transcript_spec(
            old(self)@,
            match r {
                Ok(t) => Ok(t@),
                Err(e) => Err(e@),
            },
        ).1);
        acts
    }

    /// Takes the synthesis backend's answer.
    pub fn on_speech(&mut self, r: Result<Vec<u8>, String>) -> (acts: Vec<Action>)
        requires
            old(self).wf(),
        ensures
            final(self).wf(),
            (final(self)@, actions_view(acts@)) == speech_spec(
                old(self)@,
                match r {
                    Ok(a) => Ok(a@),
                    Err(e) => Err(e@),
                },
            ),
    {
        let mut acts: Vec<Action> = Vec::new();
        if !self.is_processing() {
            assert(actions_view(acts@) =~= Seq::empty());
            return acts;
        }
        let pending = match &self.state {
            TurnState::Processing { pending_text } => match pending_text {
                Some(t) => Some(t.clone()),
                None => None,
            },
            _ => None,
        };
        let text = match &pending {
            Some(t) => {
                self.transcript.push(Line { role: Role::Assistant, text: t.clone() });
                t.clone()
            },
            None => String::new(),
        };
        let ghost shown = lines_view(self.transcript@);
        proof {
            match old(self)@.state {
                StateView::Processing(p) => {
                    assert(shown =~= match p {
                        Some(t) => lines_view(old(self).transcript@).push(assistant_line(t)),
                        None => lines_view(old(self).transcript@),
                    });
                },
                _ => {},
            }
        }
        match r {
            Ok(audio) => {
                if self.can_play {
                    acts.push(Action::Play(audio));
                    self.barge.reset();
                    self.tts_paused = false;
                    self.state = TurnState::Speaking { text };
                } else {
                    self.start_listening();
                }
            },
            Err(e) => {
                self.transcript.push(Line { role: Role::Assistant, text: error_text(e.as_str()) });
                self.state = TurnState::Done;
                proof {
                    assert(lines_view(self.transcript@) =~= shown.push(error_line(e@)));
                }
            },
        }
        assert(actions_view(acts@) =~= speech_spec(
            old(self)@,
            match r {
                Ok(a) => Ok(a@),
                Err(e) => Err(e@),
            },
        ).1);
        acts
    }
}

proof fn lemma_messages_push(h: Seq<Message>, m: Message)
    ensures
        messages_view(h.push(m)) == messages_view(h).push(m.view()),
{
    assert(messages_view(h.push(m)) =~= messages_view(h).push(m.view()));
}

proof fn lemma_messages_concat(a: Seq<Message>, b: Seq<Message>)
    ensures
        messages_view(a + b) == messages_view(a) + messages_view(b),
{
    assert(messages_view(a + b) =~= messages_view(a) + messages_view(b));
}

impl Turn {
    /// Runs one tool call on the form and adds its answer to `answers`.
    /// Returns whether it asks for a submission that the form allows.
    fn run_tool(&mut self, tu: &crate::chat::ToolUse, answers: &mut Vec<Message>) -> (submit: bool)
        ensures
            ({
                let (f, m, sub) = tool_step(old(self)@.form, tu.view());
                &&& final(self)@ == (TurnView { form: f, ..old(self)@ })
                &&& messages_view(final(answers)@) == messages_view(old(answers)@) + m
                &&& submit == sub
            }),
            final(self).barge == old(self).barge,
    {
        let ghost a0 = answers@;
        if text_is(&tu.name, "update_form") {
            match &tu.request {
                Some(ti) => {
                    let out = self.form.apply(ti);
                    let submit = text_is(&ti.action, "submit") && self.form.is_ready();
                    let m = Message::tool_result(tu.id.as_str(), out.as_str());
                    answers.push(m);
                    proof {
                        lemma_messages_push(a0, m);
                        assert(seq![m.view()] =~= seq![tool_result_message(tu.id@, out@)]);
                        assert(messages_view(a0).push(m.view()) =~= messages_view(a0) + seq![
                            m.view(),
                        ]);
                    }
                    submit
                },
                None => {
                    let m = Message::tool_result(tu.id.as_str(), "Error: invalid tool input");
                    answers.push(m);
                    proof {
                        lemma_messages_push(a0, m);
                        assert(messages_view(a0).push(m.view()) =~= messages_view(a0) + seq![
                            m.view(),
                        ]);
                    }
                    false
                },
            }
        } else {
            assert(messages_view(answers@) =~= messages_view(a0) + Seq::<MessageView>::empty());
            false
        }
    }

    fn take_reply(&mut self, res: SendResult) -> (acts: Vec<Action>)
        requires
            old(self).wf(),
            old(self)@.state is Processing,
        ensures
            final(self).wf(),
            (final(self)@, actions_view(acts@)) == reply_spec(old(self)@, Ok(res)),
    {
        let ghost v0 = self@;
        let ghost tus = tool_uses_view(res.tool_uses@);
        let ghost res0 = res;
        let SendResult { text, tool_uses, stop_reason } = res;
        let has_text = !text.as_str().is_empty();
        let tool_round = text_is(&stop_reason, "tool_use") && tool_uses.len() > 0;
        let mut blocks: Vec<ContentBlock> = Vec::new();
        if has_text {
            blocks.push(ContentBlock::Text { text: text.clone() });
        }
        let ghost b0 = crate::chat::blocks_view(blocks@);
        proof {
            assert(b0 =~= if text@.len() > 0 {
                seq![BlockView::Text(text@)]
            } else {
                Seq::empty()
            });
        }
        let mut answers: Vec<Message> = Vec::new();
        let mut submit = false;
        let mut rest = tool_uses;
        let n = rest.len();
        let mut i: usize = 0;
        proof {
            assert(rest@ =~= res0.tool_uses@.subrange(0, n as int));
            assert(tus.take(0).map_values(|t: ToolUseView| tool_block(t)) =~= Seq::empty());
            assert(b0 + Seq::<BlockView>::empty() =~= b0);
            assert(messages_view(answers@) =~= Seq::empty());
        }
        while i < n
            invariant
                n == res0.tool_uses@.len(),
                n == tus.len(),
                tus == tool_uses_view(res0.tool_uses@),
                i <= n,
                rest@ == res0.tool_uses@.subrange(i as int, n as int),
                crate::chat::blocks_view(blocks@) == b0 + tus.take(i as int).map_values(
                    |t: ToolUseView| tool_block(t),
                ),
                tool_round ==> ({
                    let (f, m, sub) = run_tools(v0.form, tus.take(i as int));
                    &&& self@ == (TurnView { form: f, ..v0 })
                    &&& messages_view(answers@) == m
                    &&& submit == sub
                }),
                !tool_round ==> self@ == v0 && answers@.len() == 0 && !submit,
                self.barge == old(self).barge,
            decreases n - i,
        {
            let tu = rest.remove(0);
            proof {
                assert(tu == res0.tool_uses@[i as int]);
                assert(tu.view() == tus[i as int]);
                assert(rest@ =~= res0.tool_uses@.subrange(i as int + 1, n as int));
                assert(tus.take(i as int + 1).drop_last() =~= tus.take(i as int));
                assert(tus.take(i as int + 1).last() == tus[i as int]);
            }
            if tool_round {
                let s = self.run_tool(&tu, &mut answers);
                submit = submit || s;
            }
            let ghost bv = crate::chat::blocks_view(blocks@);
            let b = ContentBlock::ToolUse {
                id: tu.id,
                name: tu.name,
                input: tu.input,
                request: tu.request,
            };
            blocks.push(b);
            proof {
                assert(b.view() == tool_block(tus[i as int]));
                assert(crate::chat::blocks_view(blocks@) =~= bv.push(b.view()));
                assert(tus.take(i as int + 1).map_values(|t: ToolUseView| tool_block(t))
                    =~= tus.take(i as int).map_values(|t: ToolUseView| tool_block(t)).push(
                    tool_block(tus[i as int]),
                ));
                assert(crate::chat::blocks_view(blocks@) =~= b0 + tus.take(i as int + 1).map_values(
                    |t: ToolUseView| tool_block(t),
                ));
            }
            i = i + 1;
        }
        proof {
            assert(tus.take(n as int) =~= tus);
        }
        let ghost blocks_v = crate::chat::blocks_view(blocks@);
        assert(blocks_v == reply_blocks(text@, tus));
        if blocks.len() > 0 {
            let m = Message::assistant_blocks(blocks);
            let ghost h = self.history@;
            self.history.push(m);
            proof {
                lemma_messages_push(h, m);
            }
        }
        let ghost h1 = messages_view(self.history@);
        let mut acts: Vec<Action> = Vec::new();
        if tool_round {
            let ghost h = self.history@;
            let ghost a = answers@;
            self.history.append(&mut answers);
            proof {
                lemma_messages_concat(h, a);
            }
            if submit {
                self.state = TurnState::Submitted;
                if has_text {
                    self.transcript.push(Line { role: Role::Assistant, text });
                    proof {
                        assert(lines_view(self.transcript@) =~= lines_view(old(self).transcript@).push(
                            assistant_line(res0.text@),
                        ));
                    }
                }
                acts.push(Action::Submit);
            } else {
                acts.push(Action::Generate);
            }
        } else if !has_text {
            self.start_listening();
        } else if self.can_speak {
            self.state = TurnState::Processing { pending_text: Some(text.clone()) };
            acts.push(Action::Synthesize(text));
        } else {
            self.transcript.push(Line { role: Role::Assistant, text });
            proof {
                assert(lines_view(self.transcript@) =~= lines_view(old(self).transcript@).push(
                    assistant_line(res0.text@),
                ));
            }
            self.start_listening();
        }
        assert(actions_view(acts@) =~= reply_spec(old(self)@, Ok(res0)).1);
        acts
    }

    /// Takes the generation backend's answer.
    pub fn on_reply(&mut self, r: Result<SendResult, String>) -> (acts: Vec<Action>)
        requires
            old(self).wf(),
        ensures
            final(self).wf(),
            (final(self)@, actions_view(acts@)) == reply_spec(old(self)@, r),
    {
        if !self.is_processing() {
            let acts: Vec<Action> = Vec::new();
            assert(actions_view(acts@) =~= Seq::empty());
            return acts;
        }
        match r {
            Ok(res) => self.take_reply(res),
            Err(e) => {
                self.transcript.push(Line { role: Role::Assistant, text: error_text(e.as_str()) });
                self.state = TurnState::Done;
                proof {
                    assert(lines_view(self.transcript@) =~= lines_view(old(self).transcript@).push(
                        error_line(e@),
                    ));
                }
                let acts: Vec<Action> = Vec::new();
                assert(actions_view(acts@) =~= Seq::empty());
                acts
            },
        }
    }
}

impl Turn {
    /// Submits the form at the user's request.
    pub fn submit(&mut self) -> (acts: Vec<Action>)
        requires
            old(self).wf(),
        ensures
            final(self).wf(),
            (final(self)@, actions_view(acts@)) == submit_spec(old(self)@),
    {
        let mut acts: Vec<Action> = Vec::new();
        let over = matches!(self.state, TurnState::Submitted | TurnState::Done);
        if self.form.is_ready() && !over {
            self.state = TurnState::Submitted;
            self.listen.reset(false);
            acts.push(Action::Submit);
        }
        assert(actions_view(acts@) =~= submit_spec(old(self)@).1);
        acts
    }
}

/// While listening with no speech heard, a quiet chunk never hands anything
/// off: the machine stays in `Listening` and asks for nothing; when the
/// completion rule is met the buffer is dropped.
pub proof fn law_quiet_chunk_keeps_listening(v: TurnView, chunk: Seq<i16>)
    requires
        v.state is Listening,
        !v.listen.has_speech,
        !crate::endpoint::is_speech(chunk),
    ensures
        chunk_spec(v, chunk).0.state is Listening,
        chunk_spec(v, chunk).1 == Seq::<ActionView>::empty(),
        !chunk_spec(v, chunk).0.listen.has_speech,
        crate::endpoint::complete(v.listen.samples + chunk, crate::endpoint::bump(v.listen.silence_run))
            ==> chunk_spec(v, chunk).0.listen == fresh_listen(),
{
}

/// While listening after speech was heard, a quiet chunk that meets the
/// completion rule moves the machine to `Processing` and sends the whole
/// buffer, this chunk included, to transcription.
pub proof fn law_speech_then_silence_processes(v: TurnView, chunk: Seq<i16>)
    requires
        v.state is Listening,
        v.listen.has_speech,
        !crate::endpoint::is_speech(chunk),
        crate::endpoint::complete(v.listen.samples + chunk, crate::endpoint::bump(v.listen.silence_run)),
    ensures
        chunk_spec(v, chunk).0.state == StateView::Processing(None),
        chunk_spec(v, chunk).1 == seq![ActionView::Transcribe(v.listen.samples + chunk)],
{
}

/// `Done` and `Submitted` end the session: no event leaves them.
pub proof fn law_terminal_states_absorb(
    v: TurnView,
    s: StatusView,
    chunk: Seq<i16>,
    t: Result<Seq<char>, Seq<char>>,
    g: Result<SendResult, String>,
    a: Result<Seq<u8>, Seq<char>>,
)
    requires
        v.state is Done || v.state is Submitted,
    ensures
        start_spec(v).state == v.state,
        status_spec(v, s).state == v.state,
        chunk_spec(v, chunk) == (v, Seq::<ActionView>::empty()),
        transcript_spec(v, t) == (v, Seq::<ActionView>::empty()),
        reply_spec(v, g) == (v, Seq::<ActionView>::empty()),
        speech_spec(v, a) == (v, Seq::<ActionView>::empty()),
        submit_spec(v) == (v, Seq::<ActionView>::empty()),
{
}

/// The utterance buffer holds samples only while listening or barged in.
pub open spec fn buffer_only_while_listening(v: TurnView) -> bool {
    !(v.state is Listening || v.state is BargedIn) ==> v.listen.samples.len() == 0
}

/// Every event keeps the utterance buffer empty outside `Listening` and
/// `BargedIn`; in particular it is empty on entry to `Processing`.
pub proof fn law_buffer_only_while_listening(
    v: TurnView,
    s: StatusView,
    chunk: Seq<i16>,
    t: Result<Seq<char>, Seq<char>>,
    g: Result<SendResult, String>,
    a: Result<Seq<u8>, Seq<char>>,
)
    requires
        buffer_only_while_listening(v),
    ensures
        buffer_only_while_listening(start_spec(v)),
        buffer_only_while_listening(status_spec(v, s)),
        buffer_only_while_listening(chunk_spec(v, chunk).0),
        buffer_only_while_listening(transcript_spec(v, t).0),
        buffer_only_while_listening(reply_spec(v, g).0),
        buffer_only_while_listening(speech_spec(v, a).0),
        buffer_only_while_listening(submit_spec(v).0),
{
}

} // verus!
