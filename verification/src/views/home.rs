//! The chat screen: the conversation as blocks, and the way from the input
//! line to the controller.

use crate::components::message::{block_of, message_html, Message, MessageProps, MessageView};
use crate::components::text_input::InputCapture;
use crate::controller::{Action, Phase, Step, StreamingController};
use crate::model::Turn;
use crate::store::{turns_of, ConversationStore};
use crate::text::{blank, trimmed};
use vstd::prelude::*;
use vstd::string::StringExecFns;

verus! {

/// The chat screen, ready to draw.
#[derive(Clone, Debug, PartialEq, Eq)]
pub struct HomeView {
    /// One block for each turn, in the conversation's order.
    pub messages: Vec<MessageView>,
    /// Whether the input line is frozen: it is while a generation is in flight.
    pub input_frozen: bool,
    /// Whether the list is to be scrolled to its end: it is once there is a turn.
    pub scroll_to_end: bool,
}

/// Whether the turn at `i` shows as the typing indicator: it does while a
/// generation is in flight, if it is the last turn and still the empty
/// placeholder.
pub open spec fn typing_at(turns: Seq<Turn>, in_flight: bool, i: int) -> bool {
    in_flight && i == turns.len() - 1 && turns[i].is_placeholder()
}

/// Lays out the chat screen. The conversation is only read.
#[allow(non_snake_case)]
pub fn Home(store: &ConversationStore, in_flight: bool) -> (view: HomeView)
    ensures
        view.messages@.len() == store@.len(),
        forall|i: int|
            0 <= i < store@.len() ==> (#[trigger] view.messages@[i])@ == block_of(
                store@[i],
                typing_at(store@, in_flight, i),
                message_html(store@[i].content),
            ),
        view.input_frozen == in_flight,
        view.scroll_to_end == (store@.len() > 0),
{
    let turns = store.snapshot();
    let n: usize = turns.len();
    let mut messages: Vec<MessageView> = Vec::new();
    let mut i: usize = 0;
    while i < n
        invariant
            i <= n,
            n == turns@.len(),
            turns_of(turns@) == store@,
            messages@.len() == i,
            forall|j: int|
                0 <= j < i ==> (#[trigger] messages@[j])@ == block_of(
                    store@[j],
                    typing_at(store@, in_flight, j),
                    message_html(store@[j].content),
                ),
        decreases n - i,
    {
        let turn = &turns[i];
        assert(turn@ == store@[i as int]);
        let is_typing = in_flight && i == n - 1 && turn.is_placeholder();
        let view = Message(MessageProps { chat: turn.clone(), is_typing });
        messages.push(view);
        i = i + 1;
    }
    HomeView { messages, input_frozen: in_flight, scroll_to_end: n > 0 }
}

/// The instruction with which the assistant of the given persona starts.
pub open spec fn persona_instruction(persona: Seq<char>) -> Seq<char> {
    if persona == "buddy"@ {
        "Hey! I'm your friendly chat buddy who loves having genuine conversations. I'm curious, supportive, and always up for a good chat about anything. I keep things real and fun while being genuinely helpful. Think of me as that friend who's always got your back!"@
    } else {
        "Hey! I'm your friendly chat buddy who's here to help and have great conversations with you."@
    }
}

/// The instruction with which the assistant of the given persona starts.
pub fn persona_prompt(persona: &str) -> (prompt: String)
    ensures
        prompt@ == persona_instruction(persona@),
{
    if String::from_str(persona) == String::from_str("buddy") {
        String::from_str(
            "Hey! I'm your friendly chat buddy who loves having genuine conversations. I'm curious, supportive, and always up for a good chat about anything. I keep things real and fun while being genuinely helpful. Think of me as that friend who's always got your back!",
        )
    } else {
        String::from_str(
            "Hey! I'm your friendly chat buddy who's here to help and have great conversations with you.",
        )
    }
}

/// The instruction to open a session with, from the description that the
/// setup gave: an empty description gives none.
pub fn session_prompt(description: &str) -> (prompt: Option<String>)
    ensures
        match prompt {
            Some(p) => p@ == description@ && description@.len() > 0,
            None => description@.len() == 0,
        },
{
    if description.is_empty() {
        None
    } else {
        Some(String::from_str(description))
    }
}

/// The user pressed enter or the send button. What the input line gives up
/// goes to the controller as a prompt. Where the line is blank or a generation
/// is in flight, nothing changes anywhere; otherwise the line is cleared, the
/// trimmed text becomes the user's turn, the placeholder follows, and the
/// caller is to acquire the session.
pub fn send(
    input: &mut InputCapture,
    controller: &mut StreamingController,
    store: &mut ConversationStore,
    now: &str,
) -> (action: Action)
    ensures
        action@ == (if blank(old(input)@) || old(controller)@.phase != Phase::Idle {
            Step::Nothing
        } else {
            Step::AcquireSession
        }),
        action@ == Step::Nothing ==> ({
            &&& final(input)@ == old(input)@
            &&& final(controller)@ == old(controller)@
            &&& final(store)@ == old(store)@
        }),
        action@ == Step::AcquireSession ==> ({
            let prompt = trimmed(old(input)@);
            let before = old(controller)@.with(old(store)@);
            &&& final(input)@ == Seq::<char>::empty()
            &&& final(controller)@.with(final(store)@) == before.submit(prompt, now@)
            &&& final(store)@ == old(store)@.push(Turn::user(prompt, now@)).push(
                Turn::placeholder(now@),
            )
        }),
{
    match input.take_submission(controller.in_flight()) {
        Some(prompt) => {
            let taken = controller.submit(store, prompt.as_str(), now);
            assert(taken is Ok);
            Action::AcquireSession
        },
        None => Action::Nothing,
    }
}

} // verus!
