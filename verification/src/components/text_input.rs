//! The line in which the user types, and what leaves it on a submit.

use crate::text::{blank, is_blank, lemma_trimmed_is_tight, trim, trimmed};
use vstd::prelude::*;
use vstd::string::StringExecFns;

verus! {

/// What the caller asks of the input line.
#[derive(Clone, Debug, PartialEq, Eq)]
pub struct TextInputProps {
    /// The hint shown while nothing is typed.
    pub placeholder: String,
}

impl Default for TextInputProps {
    fn default() -> (props: Self)
        ensures
            props.placeholder@ == "Ask anything..."@,
    {
        TextInputProps { placeholder: String::from_str("Ask anything...") }
    }
}

/// The text typed so far.
#[derive(Clone, Debug, PartialEq, Eq)]
pub struct InputCapture {
    buffer: String,
}

impl View for InputCapture {
    type V = Seq<char>;

    closed spec fn view(&self) -> Seq<char> {
        self.buffer@
    }
}

/// The input line, ready to draw.
#[derive(Clone, Debug, PartialEq, Eq)]
pub struct TextInputView {
    pub placeholder: String,
    pub value: String,
    /// Whether the send button shows: only while there is something to send.
    pub show_send: bool,
}

impl InputCapture {
    /// An empty line.
    pub fn new() -> (input: Self)
        ensures
            input@ == Seq::<char>::empty(),
    {
        InputCapture { buffer: String::new() }
    }

    /// The text typed so far.
    pub fn value(&self) -> (value: &str)
        ensures
            value@ == self@,
    {
        self.buffer.as_str()
    }

    /// Takes what the user typed. While a generation is in flight the line is
    /// frozen and the edit is dropped. Says whether the edit was taken.
    pub fn edit(&mut self, value: &str, in_flight: bool) -> (taken: bool)
        ensures
            taken == !in_flight,
            final(self)@ == (if in_flight {
                old(self)@
            } else {
                value@
            }),
    {
        if in_flight {
            false
        } else {
            self.buffer = String::from_str(value);
            true
        }
    }

    /// Whether there is something to send.
    pub fn can_send(&self) -> (ready: bool)
        ensures
            ready == !blank(self@),
    {
        !is_blank(self.buffer.as_str())
    }

    /// The user pressed enter or the send button. Where the line holds more
    /// than whitespace and no generation is in flight, the trimmed text leaves
    /// the line and the line is cleared. Otherwise nothing leaves and the line
    /// stays as it is.
    pub fn take_submission(&mut self, in_flight: bool) -> (message: Option<String>)
        ensures
            message is Some <==> !in_flight && !blank(old(self)@),
            message matches Some(m) ==> m@ == trimmed(old(self)@) && !blank(m@) && final(self)@
                == Seq::<char>::empty(),
            message is None ==> final(self)@ == old(self)@,
    {
        if in_flight || is_blank(self.buffer.as_str()) {
            return None;
        }
        let message = String::from_str(trim(self.buffer.as_str()));
        proof {
            lemma_trimmed_is_tight(self@);
        }
        self.buffer = String::new();
        Some(message)
    }
}

/// Lays out the input line.
#[allow(non_snake_case)]
pub fn TextInput(props: TextInputProps, input: &InputCapture) -> (view: TextInputView)
    ensures
        view.placeholder@ == props.placeholder@,
        view.value@ == input@,
        view.show_send == !blank(input@),
{
    TextInputView {
        placeholder: props.placeholder,
        value: String::from_str(input.value()),
        show_send: input.can_send(),
    }
}

} // verus!
