//! The streaming controller: what happens to the conversation when a prompt is
//! submitted and while its answer arrives. The controller decides; whoever
//! drives it talks to the chat engine and reports back what the engine did.

use crate::model::{ChatMessage, Elapsed, Turn, TurnUpdate, Update};
use crate::store::{with_last_updated, ConversationStore};
use crate::text::{blank, is_blank};
use vstd::prelude::*;
use vstd::string::StringExecFns;

verus! {

/// Where an exchange stands.
#[derive(Clone, Copy, Debug, PartialEq, Eq, Structural)]
pub enum Phase {
    /// No generation is in flight.
    Idle,
    /// A prompt was taken and the chat session is being acquired.
    AwaitingSession,
    /// The answer is arriving.
    Streaming,
}

/// Why a submission changed nothing.
#[derive(Clone, Copy, Debug, PartialEq, Eq, Structural)]
pub enum SubmitError {
    /// The prompt was empty or all whitespace.
    EmptySubmission,
    /// A generation is in flight.
    InFlight,
}

/// Why no chat session could be had.
#[derive(Debug, PartialEq, Eq)]
pub enum ModelUnavailable {
    /// The model is still loading.
    Loading,
    /// The model could not be loaded; the text is the engine's reason.
    LoadFailed(String),
}

/// `ModelUnavailable` as mathematics.
pub enum Unavailable {
    Loading,
    LoadFailed(Seq<char>),
}

impl View for ModelUnavailable {
    type V = Unavailable;

    open spec fn view(&self) -> Unavailable {
        match *self {
            ModelUnavailable::Loading => Unavailable::Loading,
            ModelUnavailable::LoadFailed(reason) => Unavailable::LoadFailed(reason@),
        }
    }
}

impl Unavailable {
    /// The text shown for the failure.
    pub open spec fn description(self) -> Seq<char> {
        match self {
            Unavailable::Loading => "Model is still loading, please wait..."@,
            Unavailable::LoadFailed(reason) => "Model failed to load - "@ + reason,
        }
    }
}

impl ModelUnavailable {
    /// The text shown for the failure.
    pub fn describe(&self) -> (text: String)
        ensures
            text@ == self@.description(),
    {
        match self {
            ModelUnavailable::Loading => String::from_str("Model is still loading, please wait..."),
            ModelUnavailable::LoadFailed(reason) => {
                String::from_str("Model failed to load - ").concat(reason.as_str())
            },
        }
    }
}

/// The stream failed before its end; the text is the engine's reason.
#[derive(Debug, PartialEq, Eq)]
pub struct GenerationError {
    pub reason: String,
}

/// The text shown for a failed stream.
pub open spec fn generation_failure(reason: Seq<char>) -> Seq<char> {
    "Model failed to respond - "@ + reason
}

impl GenerationError {
    /// The text shown for the failure.
    pub fn describe(&self) -> (text: String)
        ensures
            text@ == generation_failure(self.reason@),
    {
        String::from_str("Model failed to respond - ").concat(self.reason.as_str())
    }
}

/// What the chat engine or the user did.
#[derive(Debug, PartialEq, Eq)]
pub enum Event {
    /// The user submitted a prompt.
    Submit(String),
    /// The chat session is there.
    SessionReady,
    /// No chat session could be had.
    SessionFailed(ModelUnavailable),
    /// The stream produced a fragment.
    Delta(String),
    /// The stream ended after running this long.
    StreamEnded(Elapsed),
    /// The stream failed.
    StreamFailed(GenerationError),
}

/// An `Event` as mathematics.
pub enum Occurrence {
    Submit(Seq<char>),
    SessionReady,
    SessionFailed(Unavailable),
    Delta(Seq<char>),
    StreamEnded(Elapsed),
    /// The stream failed, for the reason given.
    StreamFailed(Seq<char>),
}

impl View for Event {
    type V = Occurrence;

    open spec fn view(&self) -> Occurrence {
        match *self {
            Event::Submit(prompt) => Occurrence::Submit(prompt@),
            Event::SessionReady => Occurrence::SessionReady,
            Event::SessionFailed(error) => Occurrence::SessionFailed(error@),
            Event::Delta(text) => Occurrence::Delta(text@),
            Event::StreamEnded(elapsed) => Occurrence::StreamEnded(elapsed),
            Event::StreamFailed(error) => Occurrence::StreamFailed(error.reason@),
        }
    }
}

/// What is to be done next with the chat engine.
#[derive(Debug, PartialEq, Eq)]
pub enum Action {
    /// Nothing: the event was ignored, or the exchange is over.
    Nothing,
    /// Acquire a chat session, then report `SessionReady` or `SessionFailed`.
    AcquireSession,
    /// Start the stream for this prompt and note the time, then report each
    /// fragment and the end of the stream.
    StartStream { prompt: String },
    /// Go on reading the stream.
    ContinueStream,
}

/// An `Action` as mathematics.
pub enum Step {
    Nothing,
    AcquireSession,
    StartStream { prompt: Seq<char> },
    ContinueStream,
}

impl View for Action {
    type V = Step;

    open spec fn view(&self) -> Step {
        match *self {
            Action::Nothing => Step::Nothing,
            Action::AcquireSession => Step::AcquireSession,
            Action::StartStream { prompt } => Step::StartStream { prompt: prompt@ },
            Action::ContinueStream => Step::ContinueStream,
        }
    }
}

/// `turns` with a failure made visible: the description takes the place of a
/// placeholder at the end, and is added as a turn of its own where the
/// conversation ends otherwise.
pub open spec fn with_failure(turns: Seq<Turn>, description: Seq<char>, now: Seq<char>) -> Seq<
    Turn,
> {
    if turns.len() > 0 && turns.last().is_placeholder() {
        with_last_updated(turns, Update::Fail(description))
    } else {
        turns.push(Turn::error(description, now))
    }
}

/// The controller and the conversation it writes to, as mathematics.
pub struct Chat {
    pub phase: Phase,
    /// The prompt for which a session is being acquired; empty in the other phases.
    pub pending: Seq<char>,
    pub turns: Seq<Turn>,
}

impl Chat {
    /// Whether a generation is in flight.
    pub open spec fn in_flight(self) -> bool {
        self.phase != Phase::Idle
    }

    /// Why `prompt` would not be taken, if it would not.
    pub open spec fn refuses(self, prompt: Seq<char>) -> Option<SubmitError> {
        if blank(prompt) {
            Some(SubmitError::EmptySubmission)
        } else if self.in_flight() {
            Some(SubmitError::InFlight)
        } else {
            None
        }
    }

    /// After a submission. A prompt that is taken adds the user's turn and the
    /// placeholder; one that is refused changes nothing.
    pub open spec fn submit(self, prompt: Seq<char>, now: Seq<char>) -> Chat {
        if self.refuses(prompt) is None {
            Chat {
                phase: Phase::AwaitingSession,
                pending: prompt,
                turns: self.turns.push(Turn::user(prompt, now)).push(Turn::placeholder(now)),
            }
        } else {
            self
        }
    }

    /// After the session arrived.
    pub open spec fn session_ready(self) -> Chat {
        if self.phase == Phase::AwaitingSession {
            Chat { phase: Phase::Streaming, pending: Seq::empty(), ..self }
        } else {
            self
        }
    }

    /// After the session could not be had.
    pub open spec fn session_failed(self, error: Unavailable, now: Seq<char>) -> Chat {
        if self.phase == Phase::AwaitingSession {
            Chat {
                phase: Phase::Idle,
                pending: Seq::empty(),
                turns: with_failure(self.turns, error.description(), now),
            }
        } else {
            self
        }
    }

    /// After a fragment arrived.
    pub open spec fn delta(self, text: Seq<char>) -> Chat {
        if self.phase == Phase::Streaming {
            Chat { turns: with_last_updated(self.turns, Update::Delta(text)), ..self }
        } else {
            self
        }
    }

    /// After the stream ended.
    pub open spec fn stream_ended(self, elapsed: Elapsed) -> Chat {
        if self.phase == Phase::Streaming {
            Chat {
                phase: Phase::Idle,
                turns: with_last_updated(self.turns, Update::Finish(elapsed)),
                ..self
            }
        } else {
            self
        }
    }

    /// After the stream failed.
    pub open spec fn stream_failed(self, reason: Seq<char>, now: Seq<char>) -> Chat {
        if self.phase == Phase::Streaming {
            Chat {
                phase: Phase::Idle,
                turns: with_failure(self.turns, generation_failure(reason), now),
                ..self
            }
        } else {
            self
        }
    }

    /// After `event`, whichever it is.
    pub open spec fn after(self, event: Occurrence, now: Seq<char>) -> Chat {
        match event {
            Occurrence::Submit(prompt) => self.submit(prompt, now),
            Occurrence::SessionReady => self.session_ready(),
            Occurrence::SessionFailed(error) => self.session_failed(error, now),
            Occurrence::Delta(text) => self.delta(text),
            Occurrence::StreamEnded(elapsed) => self.stream_ended(elapsed),
            Occurrence::StreamFailed(reason) => self.stream_failed(reason, now),
        }
    }

    /// What `event` asks of the one who drives the engine.
    pub open spec fn asks(self, event: Occurrence) -> Step {
        match event {
            Occurrence::Submit(prompt) => if self.refuses(prompt) is None {
                Step::AcquireSession
            } else {
                Step::Nothing
            },
            Occurrence::SessionReady => if self.phase == Phase::AwaitingSession {
                Step::StartStream { prompt: self.pending }
            } else {
                Step::Nothing
            },
            Occurrence::Delta(_) => if self.phase == Phase::Streaming {
                Step::ContinueStream
            } else {
                Step::Nothing
            },
            _ => Step::Nothing,
        }
    }
}

/// What the controller remembers between events, as mathematics.
pub struct ControllerState {
    pub phase: Phase,
    pub pending: Seq<char>,
}

impl ControllerState {
    /// The controller together with the conversation it is handed.
    pub open spec fn with(self, turns: Seq<Turn>) -> Chat {
        Chat { phase: self.phase, pending: self.pending, turns }
    }
}

/// The streaming controller. It holds the in-flight flag; the conversation
/// belongs to the caller and is handed in with each event.
#[derive(Debug, PartialEq, Eq)]
pub struct StreamingController {
    phase: Phase,
    pending: String,
}

impl View for StreamingController {
    type V = ControllerState;

    closed spec fn view(&self) -> ControllerState {
        ControllerState { phase: self.phase, pending: self.pending@ }
    }
}

/// What became of a fragment.
#[derive(Clone, Copy, Debug, PartialEq, Eq, Structural)]
pub enum DeltaOutcome {
    /// It stands behind the open turn's text.
    Applied,
    /// No stream is running: nothing was touched.
    NotStreaming,
    /// The conversation has no open turn at its end: the fragment was dropped.
    NoOpenTurn,
}

impl StreamingController {
    /// A controller with nothing in flight.
    pub fn new() -> (controller: Self)
        ensures
            controller@ == (ControllerState { phase: Phase::Idle, pending: Seq::empty() }),
    {
        StreamingController { phase: Phase::Idle, pending: String::new() }
    }

    pub fn phase(&self) -> (phase: Phase)
        ensures
            phase == self@.phase,
    {
        self.phase
    }

    /// Whether a generation is in flight.
    pub fn in_flight(&self) -> (busy: bool)
        ensures
            busy == (self@.phase != Phase::Idle),
    {
        match self.phase {
            Phase::Idle => false,
            _ => true,
        }
    }

    /// Takes a prompt. A blank prompt is refused, and so is any prompt while a
    /// generation is in flight; a refusal touches neither the conversation nor
    /// the flag. A prompt that is taken is added as the user's turn, the
    /// placeholder follows it, and the flag is set: the caller then acquires
    /// the chat session.
    pub fn submit(&mut self, store: &mut ConversationStore, prompt: &str, now: &str) -> (result:
        Result<(), SubmitError>)
        ensures
            result == (match old(self)@.with(old(store)@).refuses(prompt@) {
                Some(e) => Err::<(), SubmitError>(e),
                None => Ok::<(), SubmitError>(()),
            }),
            result is Ok ==> final(store)@ == old(store)@.push(Turn::user(prompt@, now@)).push(
                Turn::placeholder(now@),
            ) && final(self)@ == (ControllerState {
                phase: Phase::AwaitingSession,
                pending: prompt@,
            }),
            result is Err ==> final(store)@ == old(store)@ && final(self)@ == old(self)@,
            final(self)@.with(final(store)@) == old(self)@.with(old(store)@).submit(prompt@, now@),
    {
        if is_blank(prompt) {
            return Err(SubmitError::EmptySubmission);
        }
        if self.in_flight() {
            return Err(SubmitError::InFlight);
        }
        store.append(ChatMessage::user(prompt, now));
        store.append(ChatMessage::placeholder(now));
        self.phase = Phase::AwaitingSession;
        self.pending = String::from_str(prompt);
        Ok(())
    }

    /// The chat session is there. While a session is awaited this starts the
    /// streaming phase and hands back the prompt to generate for; at any other
    /// time it changes nothing and hands back nothing.
    pub fn session_ready(&mut self) -> (prompt: Option<String>)
        ensures
            match prompt {
                Some(p) => old(self)@.phase == Phase::AwaitingSession && p@ == old(self)@.pending,
                None => old(self)@.phase != Phase::AwaitingSession,
            },
            forall|turns: Seq<Turn>| #[trigger]
                final(self)@.with(turns) == old(self)@.with(turns).session_ready(),
    {
        match self.phase {
            Phase::AwaitingSession => {
                let mut prompt = String::new();
                std::mem::swap(&mut prompt, &mut self.pending);
                self.phase = Phase::Streaming;
                Some(prompt)
            },
            _ => None,
        }
    }

    /// No chat session could be had. While a session is awaited, the failure
    /// is made visible in the conversation and the flag is cleared; at any
    /// other time nothing changes. Says whether the event was taken.
    pub fn session_failed(
        &mut self,
        store: &mut ConversationStore,
        error: &ModelUnavailable,
        now: &str,
    ) -> (taken: bool)
        ensures
            taken == (old(self)@.phase == Phase::AwaitingSession),
            taken ==> final(self)@.phase == Phase::Idle && final(store)@ == with_failure(
                old(store)@,
                error@.description(),
                now@,
            ),
            !taken ==> final(self)@ == old(self)@ && final(store)@ == old(store)@,
            final(self)@.with(final(store)@) == old(self)@.with(old(store)@).session_failed(
                error@,
                now@,
            ),
    {
        match self.phase {
            Phase::AwaitingSession => {
                surface_failure(store, error.describe(), now);
                self.phase = Phase::Idle;
                self.pending = String::new();
                true
            },
            _ => false,
        }
    }

    /// The stream produced a fragment. While the stream runs, the fragment is
    /// put behind the text of the last turn and counted, if that turn is open;
    /// if the conversation has no open turn at its end, the fragment is
    /// dropped and nothing changes. Outside the streaming phase nothing is
    /// touched. The controller itself never changes here.
    pub fn delta(&self, store: &mut ConversationStore, text: &str) -> (outcome: DeltaOutcome)
        ensures
            outcome == (if self@.phase != Phase::Streaming {
                DeltaOutcome::NotStreaming
            } else if old(store)@.len() > 0 && old(store)@.last().is_open() {
                DeltaOutcome::Applied
            } else {
                DeltaOutcome::NoOpenTurn
            }),
            outcome == DeltaOutcome::Applied ==> final(store)@ == old(store)@.update(
                old(store)@.len() - 1,
                old(store)@.last().with_delta(text@),
            ),
            outcome != DeltaOutcome::Applied ==> final(store)@ == old(store)@,
            self@.with(final(store)@) == self@.with(old(store)@).delta(text@),
    {
        match self.phase {
            Phase::Streaming => {
                match store.mutate_last(TurnUpdate::Delta(String::from_str(text))) {
                    Ok(()) => DeltaOutcome::Applied,
                    Err(_) => DeltaOutcome::NoOpenTurn,
                }
            },
            _ => DeltaOutcome::NotStreaming,
        }
    }

    /// The stream ended after `elapsed`. While the stream runs, the open turn
    /// at the end of the conversation gets its duration, and with it its rate,
    /// and the flag is cleared; the flag is cleared also where there is no open
    /// turn to close. Outside the streaming phase nothing changes. Says whether
    /// the event was taken.
    pub fn stream_ended(&mut self, store: &mut ConversationStore, elapsed: Elapsed) -> (taken:
        bool)
        ensures
            taken == (old(self)@.phase == Phase::Streaming),
            taken ==> final(self)@.phase == Phase::Idle && final(self)@.pending == old(
                self,
            )@.pending && final(store)@ == with_last_updated(
                old(store)@,
                Update::Finish(elapsed),
            ),
            !taken ==> final(self)@ == old(self)@ && final(store)@ == old(store)@,
            final(self)@.with(final(store)@) == old(self)@.with(old(store)@).stream_ended(elapsed),
    {
        match self.phase {
            Phase::Streaming => {
                let _ = store.mutate_last(TurnUpdate::Finish(elapsed));
                self.phase = Phase::Idle;
                true
            },
            _ => false,
        }
    }

    /// The stream failed. While the stream runs, the failure is made visible
    /// behind whatever text has arrived, which stays, and the flag is cleared.
    /// Outside the streaming phase nothing changes. Says whether the event was
    /// taken.
    pub fn stream_failed(
        &mut self,
        store: &mut ConversationStore,
        error: &GenerationError,
        now: &str,
    ) -> (taken: bool)
        ensures
            taken == (old(self)@.phase == Phase::Streaming),
            taken ==> final(self)@.phase == Phase::Idle && final(self)@.pending == old(
                self,
            )@.pending && final(store)@ == with_failure(
                old(store)@,
                generation_failure(error.reason@),
                now@,
            ),
            !taken ==> final(self)@ == old(self)@ && final(store)@ == old(store)@,
            final(self)@.with(final(store)@) == old(self)@.with(old(store)@).stream_failed(
                error.reason@,
                now@,
            ),
    {
        match self.phase {
            Phase::Streaming => {
                surface_failure(store, error.describe(), now);
                self.phase = Phase::Idle;
                true
            },
            _ => false,
        }
    }

    /// Takes any event and says what to do next with the chat engine.
    pub fn handle(&mut self, store: &mut ConversationStore, event: &Event, now: &str) -> (action:
        Action)
        ensures
            final(self)@.with(final(store)@) == old(self)@.with(old(store)@).after(event@, now@),
            action@ == old(self)@.with(old(store)@).asks(event@),
    {
        match event {
            Event::Submit(prompt) => {
                match self.submit(store, prompt.as_str(), now) {
                    Ok(()) => Action::AcquireSession,
                    Err(_) => Action::Nothing,
                }
            },
            Event::SessionReady => {
                match self.session_ready() {
                    Some(prompt) => Action::StartStream { prompt },
                    None => Action::Nothing,
                }
            },
            Event::SessionFailed(error) => {
                self.session_failed(store, error, now);
                Action::Nothing
            },
            Event::Delta(text) => {
                match self.delta(store, text.as_str()) {
                    DeltaOutcome::NotStreaming => Action::Nothing,
                    _ => Action::ContinueStream,
                }
            },
            Event::StreamEnded(elapsed) => {
                self.stream_ended(store, *elapsed);
                Action::Nothing
            },
            Event::StreamFailed(error) => {
                self.stream_failed(store, error, now);
                Action::Nothing
            },
        }
    }
}

/// Makes a failure visible in the conversation.
fn surface_failure(store: &mut ConversationStore, description: String, now: &str)
    ensures
        final(store)@ == with_failure(old(store)@, description@, now@),
{
    let waiting = match store.last() {
        Some(turn) => turn.is_placeholder(),
        None => false,
    };
    if waiting {
        let _ = store.mutate_last(TurnUpdate::Fail(description));
    } else {
        store.append(ChatMessage::error(description.as_str(), now));
    }
}

} // verus!
