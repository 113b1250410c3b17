//! The playback engine's session machine.
//!
//! The worker that owns the output device reports what happens (a command
//! arrived, the decoder finished, the device ran dry, a loudness window was
//! measured) and carries out what the machine answers: device operations and
//! status reports for the turn machine.

use vstd::prelude::*;

verus! {

/// A request to the playback engine.
pub enum Command {
    Play(Vec<u8>),
    Stop,
    Pause,
    Resume,
}

/// A report of the playback engine. `Level` is the RMS of the last window of
/// played samples, on the 16-bit sample scale.
pub enum Status {
    Playing,
    Level(u16),
    Finished,
    Paused,
    Error(String),
}

/// Where a playback session stands.
#[derive(PartialEq, Eq, Structural, Clone, Copy, Debug)]
pub enum Phase {
    Idle,
    Decoding,
    Streaming,
    Paused,
}

/// What the worker reports to the machine.
pub enum Event {
    Command(Command),
    /// The decoder's answer for the bytes of the last `Decode`.
    Decoded(Result<(), String>),
    /// The device played the last sample of the session.
    Drained,
    /// The RMS of the last window of played samples.
    Level(u16),
}

/// What the machine asks of the worker.
pub enum Output {
    /// Decode these bytes and queue them on the device.
    Decode(Vec<u8>),
    Pause,
    Play,
    Stop,
    Report(Status),
}

pub enum StatusView {
    Playing,
    Level(u16),
    Finished,
    Paused,
    Error(Seq<char>),
}

pub enum EventView {
    Play(Seq<u8>),
    Stop,
    Pause,
    Resume,
    /// `None` when decoding succeeded, else the decoder's message.
    Decoded(Option<Seq<char>>),
    Drained,
    Level(u16),
}

pub enum OutputView {
    Decode(Seq<u8>),
    Pause,
    Play,
    Stop,
    Report(StatusView),
}

impl Status {
    pub open spec fn view(&self) -> StatusView {
        match self {
            Status::Playing => StatusView::Playing,
            Status::Level(l) => StatusView::Level(*l),
            Status::Finished => StatusView::Finished,
            Status::Paused => StatusView::Paused,
            Status::Error(e) => StatusView::Error(e@),
        }
    }
}

impl Event {
    pub open spec fn view(&self) -> EventView {
        match self {
            Event::Command(Command::Play(b)) => EventView::Play(b@),
            Event::Command(Command::Stop) => EventView::Stop,
            Event::Command(Command::Pause) => EventView::Pause,
            Event::Command(Command::Resume) => EventView::Resume,
            Event::Decoded(Ok(())) => EventView::Decoded(None),
            Event::Decoded(Err(e)) => EventView::Decoded(Some(e@)),
            Event::Drained => EventView::Drained,
            Event::Level(l) => EventView::Level(*l),
        }
    }
}

impl Output {
    pub open spec fn view(&self) -> OutputView {
        match self {
            Output::Decode(b) => OutputView::Decode(b@),
            Output::Pause => OutputView::Pause,
            Output::Play => OutputView::Play,
            Output::Stop => OutputView::Stop,
            Output::Report(s) => OutputView::Report(s.view()),
        }
    }
}

/// The views of a list of outputs.
pub open spec fn outputs_view(v: Seq<Output>) -> Seq<OutputView> {
    v.map_values(|o: Output| o.view())
}

/// Whether a session is under way on the device.
pub open spec fn sounding(p: Phase) -> bool {
    p == Phase::Streaming || p == Phase::Paused
}

/// One event of the session machine: the next phase and the outputs.
pub open spec fn player_step(p: Phase, e: EventView) -> (Phase, Seq<OutputView>) {
    match e {
        EventView::Play(b) => if p == Phase::Idle {
            (Phase::Decoding, seq![OutputView::Decode(b)])
        } else {
            (p, Seq::empty())
        },
        EventView::Stop => (Phase::Idle, seq![OutputView::Stop]),
        EventView::Pause => if sounding(p) {
            (Phase::Paused, seq![OutputView::Pause, OutputView::Report(StatusView::Paused)])
        } else {
            (p, Seq::empty())
        },
        EventView::Resume => if sounding(p) {
            (Phase::Streaming, seq![OutputView::Play])
        } else {
            (p, Seq::empty())
        },
        EventView::Decoded(r) => if p == Phase::Decoding {
            match r {
                None => (Phase::Streaming, seq![OutputView::Report(StatusView::Playing)]),
                Some(m) => (Phase::Idle, seq![OutputView::Report(StatusView::Error(m))]),
            }
        } else {
            (p, Seq::empty())
        },
        EventView::Drained => if sounding(p) {
            (
                Phase::Idle,
                seq![
                    OutputView::Report(StatusView::Level(0)),
                    OutputView::Report(StatusView::Finished),
                ],
            )
        } else {
            (p, Seq::empty())
        },
        EventView::Level(l) => if p == Phase::Streaming {
            (p, seq![OutputView::Report(StatusView::Level(l))])
        } else if p == Phase::Paused {
            (p, seq![OutputView::Report(StatusView::Level(0))])
        } else {
            (p, Seq::empty())
        },
    }
}

/// The session machine run over events in order: the final phase and all
/// outputs, in order.
pub open spec fn player_run(p: Phase, es: Seq<EventView>) -> (Phase, Seq<OutputView>)
    decreases es.len(),
{
    if es.len() == 0 {
        (p, Seq::empty())
    } else {
        let (p1, o1) = player_step(p, es[0]);
        let (p2, o2) = player_run(p1, es.drop_first());
        (p2, o1 + o2)
    }
}

/// How many `Finished` reports a list of outputs holds.
pub open spec fn finished_count(o: Seq<OutputView>) -> nat
    decreases o.len(),
{
    if o.len() == 0 {
        0
    } else {
        (if o[0] == OutputView::Report(StatusView::Finished) {
            1nat
        } else {
            0nat
        }) + finished_count(o.drop_first())
    }
}

/// The session machine of the playback worker.
pub struct Player {
    phase: Phase,
}

impl View for Player {
    type V = Phase;

    closed spec fn view(&self) -> Phase {
        self.phase
    }
}

impl Player {
    /// No session.
    pub fn new() -> (r: Player)
        ensures
            r@ == Phase::Idle,
    {
        Player { phase: Phase::Idle }
    }

    /// Where the session stands.
    pub fn phase(&self) -> (r: Phase)
        ensures
            r == self@,
    {
        self.phase
    }

    /// Takes one event and returns what the worker must do and report, in order.
    pub fn step(&mut self, e: Event) -> (out: Vec<Output>)
        ensures
            (final(self)@, outputs_view(out@)) == player_step(old(self)@, e.view()),
    {
        let p = self.phase;
        let sounding = p == Phase::Streaming || p == Phase::Paused;
        let mut out: Vec<Output> = Vec::new();
        match e {
            Event::Command(Command::Play(b)) => {
                if p == Phase::Idle {
                    self.phase = Phase::Decoding;
                    out.push(Output::Decode(b));
                }
            },
            Event::Command(Command::Stop) => {
                self.phase = Phase::Idle;
                out.push(Output::Stop);
            },
            Event::Command(Command::Pause) => {
                if sounding {
                    self.phase = Phase::Paused;
                    out.push(Output::Pause);
                    out.push(Output::Report(Status::Paused));
                }
            },
            Event::Command(Command::Resume) => {
                if sounding {
                    self.phase = Phase::Streaming;
                    out.push(Output::Play);
                }
            },
            Event::Decoded(r) => {
                if p == Phase::Decoding {
                    match r {
                        Ok(()) => {
                            self.phase = Phase::Streaming;
                            out.push(Output::Report(Status::Playing));
                        },
                        Err(m) => {
                            self.phase = Phase::Idle;
                            out.push(Output::Report(Status::Error(m)));
                        },
                    }
                }
            },
            Event::Drained => {
                if sounding {
                    self.phase = Phase::Idle;
                    out.push(Output::Report(Status::Level(0)));
                    out.push(Output::Report(Status::Finished));
                }
            },
            Event::Level(l) => {
                if p == Phase::Streaming {
                    out.push(Output::Report(Status::Level(l)));
                } else if p == Phase::Paused {
                    out.push(Output::Report(Status::Level(0)));
                }
            },
        }
        assert(outputs_view(out@) =~= player_step(old(self)@, e.view()).1);
        out
    }
}

proof fn lemma_finished_count_concat(a: Seq<OutputView>, b: Seq<OutputView>)
    ensures
        finished_count(a + b) == finished_count(a) + finished_count(b),
    decreases a.len(),
{
    if a.len() == 0 {
        assert(a + b =~= b);
    } else {
        assert((a + b).drop_first() =~= a.drop_first() + b);
        lemma_finished_count_concat(a.drop_first(), b);
    }
}

proof fn lemma_run_unfold(p: Phase, e: EventView, es: Seq<EventView>)
    ensures
        player_run(p, seq![e] + es) == (
        player_run(player_step(p, e).0, es).0,
        player_step(p, e).1 + player_run(player_step(p, e).0, es).1,
        ),
{
    assert((seq![e] + es)[0] == e);
    assert((seq![e] + es).drop_first() =~= es);
}

/// Whether no event of the list is a `Play` command.
pub open spec fn no_play(es: Seq<EventView>) -> bool {
    forall|i: int| 0 <= i < es.len() ==> !(#[trigger] es[i] is Play)
}

proof fn lemma_idle_stays_silent(p: Phase, es: Seq<EventView>)
    requires
        p == Phase::Idle,
        no_play(es),
    ensures
        player_run(p, es).0 == Phase::Idle,
        finished_count(player_run(p, es).1) == 0,
    decreases es.len(),
{
    if es.len() > 0 {
        let (p1, o1) = player_step(p, es[0]);
        let rest = es.drop_first();
        assert(no_play(rest)) by {
            assert forall|i: int| 0 <= i < rest.len() implies !(#[trigger] rest[i] is Play) by {
                assert(rest[i] == es[i + 1]);
            }
        }
        lemma_idle_stays_silent(p1, rest);
        lemma_finished_count_concat(o1, player_run(p1, rest).1);
        assert(finished_count(o1) == 0) by {
            reveal_with_fuel(finished_count, 3);
        }
    }
}

/// Whether every event of the list keeps a session under way: no `Play`,
/// `Stop`, decoder answer or end of data.
pub open spec fn keeps_sounding(es: Seq<EventView>) -> bool {
    forall|i: int|
        0 <= i < es.len() ==> (#[trigger] es[i] is Pause || es[i] is Resume || es[i] is Level)
}

proof fn lemma_sounding_run(p: Phase, es: Seq<EventView>)
    requires
        sounding(p),
        keeps_sounding(es),
    ensures
        sounding(player_run(p, es).0),
        finished_count(player_run(p, es).1) == 0,
    decreases es.len(),
{
    if es.len() > 0 {
        let (p1, o1) = player_step(p, es[0]);
        let rest = es.drop_first();
        assert(keeps_sounding(rest)) by {
            assert forall|i: int| 0 <= i < rest.len() implies (#[trigger] rest[i] is Pause
                || rest[i] is Resume || rest[i] is Level) by {
                assert(rest[i] == es[i + 1]);
            }
        }
        assert(es[0] is Pause || es[0] is Resume || es[0] is Level);
        lemma_sounding_run(p1, rest);
        lemma_finished_count_concat(o1, player_run(p1, rest).1);
        assert(finished_count(o1) == 0) by {
            reveal_with_fuel(finished_count, 3);
        }
    }
}

/// A session stopped right after it started never reports `Finished`: after
/// `Play`, a successful decode and `Stop`, whatever follows short of another
/// `Play` reports no `Finished`.
pub proof fn law_stopped_session_never_finishes(bytes: Seq<u8>, rest: Seq<EventView>)
    requires
        no_play(rest),
    ensures
        finished_count(
            player_run(
                Phase::Idle,
                seq![EventView::Play(bytes), EventView::Decoded(None), EventView::Stop] + rest,
            ).1,
        ) == 0,
{
    let s1 = player_step(Phase::Idle, EventView::Play(bytes));
    let s2 = player_step(s1.0, EventView::Decoded(None));
    let s3 = player_step(s2.0, EventView::Stop);
    assert(seq![EventView::Play(bytes), EventView::Decoded(None), EventView::Stop] + rest
        =~= seq![EventView::Play(bytes)] + (seq![EventView::Decoded(None)] + (seq![
        EventView::Stop,
    ] + rest)));
    lemma_run_unfold(Phase::Idle, EventView::Play(bytes), seq![EventView::Decoded(None)] + (seq![
        EventView::Stop,
    ] + rest));
    lemma_run_unfold(s1.0, EventView::Decoded(None), seq![EventView::Stop] + rest);
    lemma_run_unfold(s2.0, EventView::Stop, rest);
    lemma_idle_stays_silent(s3.0, rest);
    let tail = player_run(s3.0, rest).1;
    lemma_finished_count_concat(s3.1, tail);
    lemma_finished_count_concat(s2.1, s3.1 + tail);
    lemma_finished_count_concat(s1.1, s2.1 + (s3.1 + tail));
    assert(finished_count(s1.1) == 0) by {
        reveal_with_fuel(finished_count, 2);
    }
    assert(finished_count(s2.1) == 0) by {
        reveal_with_fuel(finished_count, 2);
    }
    assert(finished_count(s3.1) == 0) by {
        reveal_with_fuel(finished_count, 2);
    }
}

/// A session played to its end reports `Finished` exactly once: after
/// `Play` and a successful decode, any pauses, resumes and level windows,
/// then the end of data, and then anything short of another `Play`, there is
/// one `Finished` report in all.
pub proof fn law_completed_session_finishes_once(
    bytes: Seq<u8>,
    middle: Seq<EventView>,
    rest: Seq<EventView>,
)
    requires
        keeps_sounding(middle),
        no_play(rest),
    ensures
        finished_count(
            player_run(
                Phase::Idle,
                seq![EventView::Play(bytes), EventView::Decoded(None)] + middle + seq![
                    EventView::Drained,
                ] + rest,
            ).1,
        ) == 1,
{
    let s1 = player_step(Phase::Idle, EventView::Play(bytes));
    let s2 = player_step(s1.0, EventView::Decoded(None));
    let es = seq![EventView::Play(bytes), EventView::Decoded(None)] + middle + seq![
        EventView::Drained,
    ] + rest;
    let after_middle = seq![EventView::Drained] + rest;
    assert(es =~= seq![EventView::Play(bytes)] + (seq![EventView::Decoded(None)] + (middle
        + after_middle)));
    lemma_run_unfold(Phase::Idle, EventView::Play(bytes), seq![EventView::Decoded(None)] + (middle
        + after_middle));
    lemma_run_unfold(s1.0, EventView::Decoded(None), middle + after_middle);
    lemma_sounding_run(s2.0, middle);
    lemma_run_concat(s2.0, middle, after_middle);
    let pm = player_run(s2.0, middle).0;
    let s4 = player_step(pm, EventView::Drained);
    lemma_run_unfold(pm, EventView::Drained, rest);
    lemma_idle_stays_silent(s4.0, rest);
    let tail = player_run(s4.0, rest).1;
    let mid_out = player_run(s2.0, middle).1;
    lemma_finished_count_concat(s4.1, tail);
    lemma_finished_count_concat(mid_out, s4.1 + tail);
    lemma_finished_count_concat(s2.1, mid_out + (s4.1 + tail));
    lemma_finished_count_concat(s1.1, s2.1 + (mid_out + (s4.1 + tail)));
    assert(finished_count(s1.1) == 0) by {
        reveal_with_fuel(finished_count, 2);
    }
    assert(finished_count(s2.1) == 0) by {
        reveal_with_fuel(finished_count, 2);
    }
    assert(finished_count(s4.1) == 1) by {
        reveal_with_fuel(finished_count, 3);
    }
}

proof fn lemma_run_concat(p: Phase, a: Seq<EventView>, b: Seq<EventView>)
    ensures
        player_run(p, a + b) == (
        player_run(player_run(p, a).0, b).0,
        player_run(p, a).1 + player_run(player_run(p, a).0, b).1,
        ),
    decreases a.len(),
{
    if a.len() == 0 {
        assert(a + b =~= b);
        assert(player_run(p, a).1 + player_run(p, b).1 =~= player_run(p, b).1);
    } else {
        let (p1, o1) = player_step(p, a[0]);
        assert((a + b)[0] == a[0]);
        assert((a + b).drop_first() =~= a.drop_first() + b);
        lemma_run_concat(p1, a.drop_first(), b);
        let r = player_run(player_run(p1, a.drop_first()).0, b).1;
        assert(o1 + (player_run(p1, a.drop_first()).1 + r) =~= (o1 + player_run(
            p1,
            a.drop_first(),
        ).1) + r);
    }
}

} // verus!
