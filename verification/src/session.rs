//! The cancellable chat session: one request and the consumption of its
//! stream, as a machine that is told what happened and answers what to do.
//!
//! The caller sends the request, reads the stream, polls the cancellation flag
//! and renders; it hands each thing that happens to [`Session::step`] together
//! with the flag as it read it, and carries out the effects that come back.

use crate::json::{is_complete, object_of};
use crate::llm_provider::{ChatError, ChatFault};
use crate::sse::{Event, StreamEvent};
use crate::text::opt_text;
use vstd::prelude::*;
use vstd::string::StringExecFns;

verus! {

/// The milliseconds between two looks at the cancellation flag.
pub const CANCEL_POLL_MILLIS: u64 = 50;

/// The milliseconds for which the progress indicator shows one frame.
pub const PROGRESS_FRAME_MILLIS: u64 = 80;

/// How a session treats the text that arrives.
#[derive(Clone, Copy, Debug, PartialEq, Eq, Structural)]
pub enum SessionMode {
    /// Plain chat: each fragment is printed as it arrives.
    Chat,
    /// Agent chat: the text is held back until it is one JSON object, which
    /// ends the turn; a stream that ends before that is an error.
    Agent,
}

/// Something that happened in a turn.
#[derive(Debug, PartialEq, Eq)]
pub enum SessionInput {
    /// The endpoint accepted the request; the stream is open.
    Connected,
    /// The request failed.
    RequestFailed(ChatError),
    /// The stream yielded an event.
    Item(StreamEvent),
    /// Nothing but a look at the cancellation flag.
    Poll,
}

/// The mathematical value of a [`SessionInput`].
pub enum Input {
    Connected,
    RequestFailed(ChatFault),
    Item(Event),
    Poll,
}

impl View for SessionInput {
    type V = Input;

    open spec fn view(&self) -> Input {
        match *self {
            SessionInput::Connected => Input::Connected,
            SessionInput::RequestFailed(e) => Input::RequestFailed(e@),
            SessionInput::Item(e) => Input::Item(e@),
            SessionInput::Poll => Input::Poll,
        }
    }
}

/// Something for the caller to do.
#[derive(Debug, PartialEq, Eq)]
pub enum Effect {
    /// Start the progress indicator.
    StartProgress,
    /// Stop the progress indicator and wait until it has stopped rendering.
    StopProgress,
    /// Print text of the model.
    Print(String),
    /// Report an error of the stream.
    LogError(String),
    /// Tell the user that the turn was cancelled.
    NoticeCancelled,
    /// End the line of printed text.
    EndLine,
}

/// The mathematical value of an [`Effect`].
pub enum Act {
    StartProgress,
    StopProgress,
    Print(Seq<char>),
    LogError(Seq<char>),
    NoticeCancelled,
    EndLine,
}

impl View for Effect {
    type V = Act;

    open spec fn view(&self) -> Act {
        match *self {
            Effect::StartProgress => Act::StartProgress,
            Effect::StopProgress => Act::StopProgress,
            Effect::Print(t) => Act::Print(t@),
            Effect::LogError(m) => Act::LogError(m@),
            Effect::NoticeCancelled => Act::NoticeCancelled,
            Effect::EndLine => Act::EndLine,
        }
    }
}

/// Effects as mathematical values.
pub open spec fn acts(effects: Seq<Effect>) -> Seq<Act> {
    Seq::new(effects.len(), |i: int| effects[i]@)
}

/// How a turn ended.
#[derive(Debug, PartialEq, Eq)]
pub enum TurnEnd {
    /// The stream was consumed to its end.
    Completed,
    /// The user stopped the turn.
    Cancelled,
    /// The turn failed.
    Failed(ChatError),
}

/// The mathematical value of a [`TurnEnd`].
pub enum End {
    Completed,
    Cancelled,
    Failed(ChatFault),
}

impl View for TurnEnd {
    type V = End;

    open spec fn view(&self) -> End {
        match *self {
            TurnEnd::Completed => End::Completed,
            TurnEnd::Cancelled => End::Cancelled,
            TurnEnd::Failed(e) => End::Failed(e@),
        }
    }
}

/// Where a session stands.
pub enum Phase {
    /// The request is under way and the progress indicator runs.
    Requesting,
    /// The stream is being consumed.
    Streaming,
    /// The turn is over.
    Finished(End),
}

/// The state of a session as a mathematical value.
pub struct SessionState {
    pub mode: SessionMode,
    pub phase: Phase,
    /// The text accumulated so far, in the order in which it arrived.
    pub text: Seq<char>,
    /// The message of the error that ended the stream, where one did.
    pub stream_error: Option<Seq<char>>,
}

/// The state in which a session starts.
pub open spec fn initial(mode: SessionMode) -> SessionState {
    SessionState {
        mode,
        phase: Phase::Requesting,
        text: Seq::empty(),
        stream_error: None,
    }
}

/// The end of the stream, by its last event or by an error. A chat turn is
/// then complete. An agent turn is over as soon as its text is a JSON object,
/// so one whose stream ends has none: it fails with the text it has.
pub open spec fn end_of_stream(s: SessionState) -> (SessionState, Seq<Act>) {
    if s.mode == SessionMode::Agent {
        (
            SessionState {
                phase: Phase::Finished(End::Failed(ChatFault::InvalidReplyFormat { raw: s.text })),
                ..s
            },
            Seq::empty(),
        )
    } else {
        (SessionState { phase: Phase::Finished(End::Completed), ..s }, seq![Act::EndLine])
    }
}

/// The arrival of a fragment of text. An empty fragment changes nothing. A
/// chat turn prints the fragment. An agent turn holds the text back; as soon
/// as the text is one JSON object it prints the whole text, and the turn is
/// complete: nothing that comes later is added to it.
pub open spec fn take_text(s: SessionState, t: Seq<char>) -> (SessionState, Seq<Act>) {
    if t.len() == 0 {
        (s, Seq::empty())
    } else if s.mode == SessionMode::Chat {
        (SessionState { text: s.text + t, ..s }, seq![Act::Print(t)])
    } else if object_of(s.text + t) is Some {
        (
            SessionState { text: s.text + t, phase: Phase::Finished(End::Completed), ..s },
            seq![Act::Print(s.text + t), Act::EndLine],
        )
    } else {
        (SessionState { text: s.text + t, ..s }, Seq::empty())
    }
}

/// The cancellation of a turn that is not over: the text stays as it is.
pub open spec fn cancel(s: SessionState) -> (SessionState, Seq<Act>) {
    (
        SessionState { phase: Phase::Finished(End::Cancelled), ..s },
        if s.phase is Requesting {
            seq![Act::StopProgress, Act::NoticeCancelled]
        } else {
            seq![Act::NoticeCancelled]
        },
    )
}

/// One step of a session: the state after `input`, seen with the
/// cancellation flag at `running`, and what the caller has to do.
///
/// A finished session stays as it is. Otherwise a flag that is off cancels
/// the turn before the input is looked at. Otherwise the input is taken by
/// the phase; one that does not belong to the phase is ignored.
pub open spec fn step(s: SessionState, input: Input, running: bool) -> (SessionState, Seq<Act>) {
    if s.phase is Finished {
        (s, Seq::empty())
    } else if !running {
        cancel(s)
    } else {
        match (s.phase, input) {
            (Phase::Requesting, Input::Connected) => (
                SessionState { phase: Phase::Streaming, ..s },
                seq![Act::StopProgress],
            ),
            (Phase::Requesting, Input::RequestFailed(e)) => (
                SessionState { phase: Phase::Finished(End::Failed(e)), ..s },
                seq![Act::StopProgress],
            ),
            (Phase::Streaming, Input::Item(Event::TextDelta(t))) => take_text(s, t),
            (Phase::Streaming, Input::Item(Event::Error(m))) => (
                end_of_stream(SessionState { stream_error: Some(m), ..s }).0,
                seq![Act::LogError(m)] + end_of_stream(s).1,
            ),
            (Phase::Streaming, Input::Item(Event::Done)) => end_of_stream(s),
            _ => (s, Seq::empty()),
        }
    }
}

/// What a turn gave, for a caller that shows what text there is: nothing
/// while the turn is not over, the error where the turn failed, and else the
/// accumulated text, be it whole or partial.
pub open spec fn lenient_result(s: SessionState) -> Option<Result<Seq<char>, ChatFault>> {
    match s.phase {
        Phase::Finished(End::Failed(e)) => Some(Err(e)),
        Phase::Finished(_) => Some(Ok(s.text)),
        _ => None,
    }
}

/// What a turn gave, for a caller that tells a whole answer from a partial
/// one: the text only where the stream was consumed to its end without an
/// error; the vendor's error where one ended the stream; the cancellation,
/// with the partial text, where the user stopped the turn.
pub open spec fn strict_result(s: SessionState) -> Option<Result<Seq<char>, ChatFault>> {
    match s.phase {
        Phase::Finished(End::Failed(e)) => Some(Err(e)),
        Phase::Finished(End::Cancelled) => Some(
            Err(ChatFault::CancelledPartial { accumulated_text: s.text }),
        ),
        Phase::Finished(End::Completed) => match s.stream_error {
            Some(message) => Some(Err(ChatFault::Vendor { message })),
            None => Some(Ok(s.text)),
        },
        _ => None,
    }
}

/// The state after a run of inputs, each seen with the flag as it then was.
pub open spec fn run(s: SessionState, inputs: Seq<(Input, bool)>) -> SessionState
    decreases inputs.len(),
{
    if inputs.len() == 0 {
        s
    } else {
        run(step(s, inputs[0].0, inputs[0].1).0, inputs.drop_first())
    }
}

/// A finished session stays as it is, whatever comes.
pub proof fn lemma_finished_stays(s: SessionState, inputs: Seq<(Input, bool)>)
    requires
        s.phase is Finished,
    ensures
        run(s, inputs) == s,
    decreases inputs.len(),
{
    if inputs.len() > 0 {
        lemma_finished_stays(s, inputs.drop_first());
    }
}

/// A run over two stretches of inputs is the run over the second from where
/// the first led.
pub proof fn lemma_run_split(s: SessionState, first: Seq<(Input, bool)>, second: Seq<(Input, bool)>)
    ensures
        run(s, first + second) == run(run(s, first), second),
    decreases first.len(),
{
    if first.len() == 0 {
        assert(first + second =~= second);
    } else {
        assert((first + second).drop_first() =~= first.drop_first() + second);
        lemma_run_split(step(s, first[0].0, first[0].1).0, first.drop_first(), second);
    }
}

/// Cancellation keeps the text: once an input is seen with the flag off, the
/// session holds exactly the text that it had accumulated before, whatever the
/// input is and whatever comes after it, and it is over.
pub proof fn lemma_cancel_keeps_text(
    s: SessionState,
    before: Seq<(Input, bool)>,
    input: Input,
    after: Seq<(Input, bool)>,
)
    ensures
        run(s, before + seq![(input, false)] + after).text == run(s, before).text,
        run(s, before + seq![(input, false)] + after).phase is Finished,
        !(run(s, before).phase is Finished) ==> run(
            s,
            before + seq![(input, false)] + after,
        ).phase == Phase::Finished(End::Cancelled),
{
    let mid = run(s, before);
    let one = seq![(input, false)];
    lemma_run_split(s, before + one, after);
    lemma_run_split(s, before, one);
    let stopped = step(mid, input, false).0;
    assert(one.drop_first() =~= Seq::<(Input, bool)>::empty());
    assert(run(mid, one) == stopped) by {
        reveal_with_fuel(run, 2);
    }
    lemma_finished_stays(stopped, after);
}

/// A turn that is cancelled from the start yields no text.
pub proof fn lemma_cancelled_from_start(mode: SessionMode, input: Input, after: Seq<(Input, bool)>)
    ensures
        run(initial(mode), seq![(input, false)] + after).text == Seq::<char>::empty(),
        run(initial(mode), seq![(input, false)] + after).phase == Phase::Finished(End::Cancelled),
{
    let none = Seq::<(Input, bool)>::empty();
    assert(none + seq![(input, false)] + after =~= seq![(input, false)] + after);
    lemma_cancel_keeps_text(initial(mode), none, input, after);
}

/// A fragment without text changes nothing and asks for nothing, wherever
/// the session stands.
pub proof fn lemma_empty_text_changes_nothing(s: SessionState)
    ensures
        step(s, Input::Item(Event::TextDelta(Seq::empty())), true) == (s, Seq::<Act>::empty()),
{
}

/// The text of a session only grows by what arrives: a step either leaves
/// the text as it is or appends the fragment that came.
pub proof fn lemma_text_grows_in_order(s: SessionState, input: Input, running: bool)
    ensures
        step(s, input, running).0.text == s.text || (input matches Input::Item(Event::TextDelta(t))
            && step(s, input, running).0.text == s.text + t),
{
}

/// Every input of a run is seen with the cancellation flag at running.
pub open spec fn all_running(inputs: Seq<(Input, bool)>) -> bool {
    forall|i: int| 0 <= i < inputs.len() ==> (#[trigger] inputs[i]).1
}

/// What holds of an agent turn that was never cancelled: where it is
/// complete, its text is one JSON object.
pub open spec fn agent_sound(s: SessionState) -> bool {
    &&& s.mode == SessionMode::Agent
    &&& s.phase != Phase::Finished(End::Cancelled)
    &&& s.phase == Phase::Finished(End::Completed) ==> object_of(s.text) is Some
}

/// A run that is never cancelled keeps an agent turn sound.
pub proof fn lemma_agent_run_sound(s: SessionState, inputs: Seq<(Input, bool)>)
    requires
        agent_sound(s),
        all_running(inputs),
    ensures
        agent_sound(run(s, inputs)),
    decreases inputs.len(),
{
    if inputs.len() > 0 {
        assert(inputs[0].1);
        let rest = inputs.drop_first();
        assert forall|i: int| 0 <= i < rest.len() implies (#[trigger] rest[i]).1 by {
            assert(rest[i] == inputs[i + 1]);
        }
        lemma_agent_run_sound(step(s, inputs[0].0, inputs[0].1).0, rest);
    }
}

/// The text that an agent turn gives while the flag stays at running is one
/// JSON object: the turn ends as soon as its text is one, and it gives no
/// text where the stream ends before that.
pub proof fn lemma_agent_reply_is_object(inputs: Seq<(Input, bool)>)
    requires
        all_running(inputs),
    ensures
        lenient_result(run(initial(SessionMode::Agent), inputs)) matches Some(Ok(text))
            ==> object_of(text) is Some,
{
    lemma_agent_run_sound(initial(SessionMode::Agent), inputs);
}

/// The progress indicator runs exactly while the request is under way: a
/// step tells the caller to stop it exactly when it leaves that phase.
pub proof fn lemma_progress_stops(s: SessionState, input: Input, running: bool)
    ensures
        step(s, input, running).1.contains(Act::StopProgress) <==> (s.phase is Requesting && !(step(
            s,
            input,
            running,
        ).0.phase is Requesting)),
        !step(s, input, running).1.contains(Act::StartProgress),
{
    let (next, effects) = step(s, input, running);
    if effects.contains(Act::StopProgress) {
        let i = choose|i: int| 0 <= i < effects.len() && effects[i] == Act::StopProgress;
        assert(effects[i] == Act::StopProgress);
    }
    if effects.contains(Act::StartProgress) {
        let i = choose|i: int| 0 <= i < effects.len() && effects[i] == Act::StartProgress;
        assert(effects[i] == Act::StartProgress);
    }
    if s.phase is Requesting && !(next.phase is Requesting) {
        assert(effects[0] == Act::StopProgress);
    }
}

/// One turn of chat.
pub struct Session {
    mode: SessionMode,
    phase: SessionPhase,
    text: String,
    stream_error: Option<String>,
}

/// Where a session stands, with the error that ended it where one did.
#[derive(Debug, PartialEq, Eq)]
pub enum SessionPhase {
    Requesting,
    Streaming,
    Finished(TurnEnd),
}

impl View for SessionPhase {
    type V = Phase;

    open spec fn view(&self) -> Phase {
        match *self {
            SessionPhase::Requesting => Phase::Requesting,
            SessionPhase::Streaming => Phase::Streaming,
            SessionPhase::Finished(e) => Phase::Finished(e@),
        }
    }
}

impl View for Session {
    type V = SessionState;

    closed spec fn view(&self) -> SessionState {
        SessionState {
            mode: self.mode,
            phase: self.phase@,
            text: self.text@,
            stream_error: opt_text(self.stream_error),
        }
    }
}

impl Session {
    /// Starts a turn: the request is under way, and the caller starts the
    /// progress indicator.
    pub fn start(mode: SessionMode) -> (r: (Session, Vec<Effect>))
        ensures
            r.0@ == initial(mode),
            acts(r.1@) == seq![Act::StartProgress],
    {
        let s = Session {
            mode,
            phase: SessionPhase::Requesting,
            text: String::new(),
            stream_error: None,
        };
        let effects = vec![Effect::StartProgress];
        assert(acts(effects@) =~= seq![Act::StartProgress]);
        (s, effects)
    }

    /// Whether the turn is over.
    pub fn is_finished(&self) -> (b: bool)
        ensures
            b == (self@.phase is Finished),
    {
        match self.phase {
            SessionPhase::Finished(_) => true,
            _ => false,
        }
    }

    /// Whether the turn was cancelled.
    pub fn is_cancelled(&self) -> (b: bool)
        ensures
            b == (self@.phase == Phase::Finished(End::Cancelled)),
    {
        match self.phase {
            SessionPhase::Finished(TurnEnd::Cancelled) => true,
            _ => false,
        }
    }

    /// Whether the progress indicator runs.
    pub fn progress_running(&self) -> (b: bool)
        ensures
            b == (self@.phase is Requesting),
    {
        match self.phase {
            SessionPhase::Requesting => true,
            _ => false,
        }
    }

    /// The text accumulated so far.
    pub fn text(&self) -> (t: &str)
        ensures
            t@ == self@.text,
    {
        self.text.as_str()
    }

    /// The message of the error that ended the stream, where one did.
    pub fn stream_error(&self) -> (r: Option<&str>)
        ensures
            match r {
                Some(m) => self@.stream_error == Some(m@),
                None => self@.stream_error is None,
            },
    {
        match &self.stream_error {
            Some(m) => Some(m.as_str()),
            None => None,
        }
    }

    /// What the turn gave, for a caller that shows what text there is.
    pub fn into_result(self) -> (r: Option<Result<String, ChatError>>)
        ensures
            match r {
                Some(Ok(t)) => lenient_result(self@) == Some(Ok::<Seq<char>, ChatFault>(t@)),
                Some(Err(e)) => lenient_result(self@) == Some(Err::<Seq<char>, ChatFault>(e@)),
                None => lenient_result(self@) is None,
            },
    {
        match self.phase {
            SessionPhase::Finished(TurnEnd::Failed(e)) => Some(Err(e)),
            SessionPhase::Finished(_) => Some(Ok(self.text)),
            _ => None,
        }
    }

    /// What the turn gave, for a caller that tells a whole answer from a
    /// partial one.
    pub fn into_outcome(self) -> (r: Option<Result<String, ChatError>>)
        ensures
            match r {
                Some(Ok(t)) => strict_result(self@) == Some(Ok::<Seq<char>, ChatFault>(t@)),
                Some(Err(e)) => strict_result(self@) == Some(Err::<Seq<char>, ChatFault>(e@)),
                None => strict_result(self@) is None,
            },
    {
        match self.phase {
            SessionPhase::Finished(TurnEnd::Failed(e)) => Some(Err(e)),
            SessionPhase::Finished(TurnEnd::Cancelled) => Some(
                Err(ChatError::CancelledPartial { accumulated_text: self.text }),
            ),
            SessionPhase::Finished(TurnEnd::Completed) => match self.stream_error {
                Some(message) => Some(Err(ChatError::Vendor { message })),
                None => Some(Ok(self.text)),
            },
            _ => None,
        }
    }

    /// Ends the stream, by its last event or by an error.
    fn finish_stream(&mut self, effects: &mut Vec<Effect>)
        requires
            old(self)@.phase is Streaming,
        ensures
            final(self)@ == end_of_stream(old(self)@).0,
            acts(final(effects)@) == acts(old(effects)@) + end_of_stream(old(self)@).1,
    {
        let failed = match self.mode {
            SessionMode::Agent => true,
            SessionMode::Chat => false,
        };
        if failed {
            self.phase = SessionPhase::Finished(
                TurnEnd::Failed(ChatError::InvalidReplyFormat { raw: self.text.clone() }),
            );
            assert(acts(effects@) =~= acts(old(effects)@) + Seq::<Act>::empty());
        } else {
            self.phase = SessionPhase::Finished(TurnEnd::Completed);
            effects.push(Effect::EndLine);
            assert(acts(effects@) =~= acts(old(effects)@) + seq![Act::EndLine]);
        }
    }

    /// Takes `input`, seen with the cancellation flag at `running`, and
    /// answers what the caller has to do.
    pub fn step(&mut self, input: SessionInput, running: bool) -> (effects: Vec<Effect>)
        ensures
            final(self)@ == step(old(self)@, input@, running).0,
            acts(effects@) == step(old(self)@, input@, running).1,
    {
        let mut effects: Vec<Effect> = Vec::new();
        assert(acts(effects@) =~= Seq::<Act>::empty());
        if self.is_finished() {
            return effects;
        }
        if !running {
            if self.progress_running() {
                effects.push(Effect::StopProgress);
            }
            effects.push(Effect::NoticeCancelled);
            self.phase = SessionPhase::Finished(TurnEnd::Cancelled);
            assert(acts(effects@) =~= cancel(old(self)@).1);
            return effects;
        }
        match input {
            SessionInput::Connected => {
                if self.progress_running() {
                    self.phase = SessionPhase::Streaming;
                    effects.push(Effect::StopProgress);
                    assert(acts(effects@) =~= seq![Act::StopProgress]);
                }
            },
            SessionInput::RequestFailed(e) => {
                if self.progress_running() {
                    self.phase = SessionPhase::Finished(TurnEnd::Failed(e));
                    effects.push(Effect::StopProgress);
                    assert(acts(effects@) =~= seq![Act::StopProgress]);
                }
            },
            SessionInput::Item(event) => {
                if !self.progress_running() {
                    match event {
                        StreamEvent::TextDelta(t) => {
                            if !t.as_str().is_empty() {
                                self.text.append(t.as_str());
                                match self.mode {
                                    SessionMode::Chat => {
                                        effects.push(Effect::Print(t));
                                        assert(acts(effects@) =~= seq![Act::Print(t@)]);
                                    },
                                    SessionMode::Agent => {
                                        if is_complete(self.text.as_str()) {
                                            self.phase = SessionPhase::Finished(
                                                TurnEnd::Completed,
                                            );
                                            effects.push(Effect::Print(self.text.clone()));
                                            effects.push(Effect::EndLine);
                                            assert(acts(effects@) =~= seq![
                                                Act::Print(self.text@),
                                                Act::EndLine,
                                            ]);
                                        }
                                    },
                                }
                            }
                        },
                        StreamEvent::Error(m) => {
                            self.stream_error = Some(m.clone());
                            effects.push(Effect::LogError(m));
                            assert(acts(effects@) =~= seq![Act::LogError(m@)]);
                            self.finish_stream(&mut effects);
                        },
                        StreamEvent::Done => {
                            self.finish_stream(&mut effects);
                            assert(Seq::<Act>::empty() + end_of_stream(old(self)@).1 =~= end_of_stream(
                                old(self)@,
                            ).1);
                        },
                    }
                }
            },
            SessionInput::Poll => {},
        }
        effects
    }
}

} // verus!
