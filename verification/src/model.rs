//! The conversation's data: who speaks in a turn, what the turn holds, how many
//! fragments it took and how long the answer ran.

use vstd::prelude::*;
use vstd::string::StringExecFns;

verus! {

/// Who wrote a turn.
#[derive(Clone, Copy, Debug, PartialEq, Eq, Structural)]
pub enum Sender {
    Assistant,
    User,
}

impl Sender {
    /// The bubble's background class.
    pub fn background_color(&self) -> (class: &'static str)
        ensures
            class@ == (if *self == Sender::Assistant {
                "bg-gray-200"@
            } else {
                "bg-[#2B2A28]"@
            }),
    {
        match self {
            Sender::Assistant => "bg-gray-200",
            Sender::User => "bg-[#2B2A28]",
        }
    }

    /// The class of the bubble's text.
    pub fn text_color(&self) -> (class: &'static str)
        ensures
            class@ == (if *self == Sender::Assistant {
                "text-gray-800"@
            } else {
                "text-white"@
            }),
    {
        match self {
            Sender::Assistant => "text-gray-800",
            Sender::User => "text-white",
        }
    }

    /// The class of the line that shows the rate.
    pub fn token_color(&self) -> (class: &'static str)
        ensures
            class@ == (if *self == Sender::Assistant {
                "text-gray-500"@
            } else {
                "text-gray-400"@
            }),
    {
        match self {
            Sender::Assistant => "text-gray-500",
            Sender::User => "text-gray-400",
        }
    }
}

/// A span of time, in whole nanoseconds.
#[derive(Clone, Copy, Debug, PartialEq, Eq, Structural)]
pub struct Elapsed {
    pub nanos: u128,
}

pub const NANOS_PER_MILLI: u128 = 1_000_000;

pub const NANOS_PER_SEC: u128 = 1_000_000_000;

impl Elapsed {
    pub fn from_nanos(nanos: u128) -> (e: Elapsed)
        ensures
            e.nanos == nanos,
    {
        Elapsed { nanos }
    }

    pub fn from_millis(millis: u64) -> (e: Elapsed)
        ensures
            e.nanos == millis * NANOS_PER_MILLI,
    {
        let wide: u128 = millis as u128;
        Elapsed { nanos: wide * NANOS_PER_MILLI }
    }

    pub fn from_secs(secs: u64) -> (e: Elapsed)
        ensures
            e.nanos == secs * NANOS_PER_SEC,
    {
        let wide: u128 = secs as u128;
        Elapsed { nanos: wide * NANOS_PER_SEC }
    }

    pub fn as_nanos(&self) -> (nanos: u128)
        ensures
            nanos == self.nanos,
    {
        self.nanos
    }

    pub fn is_zero(&self) -> (zero: bool)
        ensures
            zero == (self.nanos == 0),
    {
        self.nanos == 0
    }
}

/// How fast an answer came: `tokens` fragments in `elapsed` time. The pair is
/// kept exact; the quotient is taken where it is shown.
#[derive(Clone, Copy, Debug, PartialEq, Eq, Structural)]
pub struct TokenRate {
    pub tokens: u64,
    pub elapsed: Elapsed,
}

/// Thousandths of a token per second in one token per nanosecond.
pub const MILLI_TOKENS_PER_SEC: u128 = 1_000_000_000_000;

impl TokenRate {
    /// The rate in thousandths of a token per second, rounded down. There is
    /// none where no time has passed.
    pub open spec fn milli_per_second(self) -> Option<int> {
        if self.elapsed.nanos == 0 {
            None
        } else {
            Some(self.tokens * MILLI_TOKENS_PER_SEC / (self.elapsed.nanos as int))
        }
    }

    /// The rate in thousandths of a token per second, rounded down.
    /// `None` where no time has passed.
    pub fn milli_tokens_per_second(&self) -> (rate: Option<u128>)
        ensures
            self.milli_per_second() == match rate {
                Some(r) => Some(r as int),
                None => None,
            },
            rate matches Some(r) ==> r * self.elapsed.nanos <= self.tokens * MILLI_TOKENS_PER_SEC
                < (r + 1) * self.elapsed.nanos,
    {
        if self.elapsed.nanos == 0 {
            None
        } else {
            let wide: u128 = self.tokens as u128;
            assert(wide * MILLI_TOKENS_PER_SEC <= u128::MAX) by (nonlinear_arith)
                requires
                    wide <= u64::MAX,
                    MILLI_TOKENS_PER_SEC == 1_000_000_000_000,
            ;
            let scaled: u128 = wide * MILLI_TOKENS_PER_SEC;
            let r: u128 = scaled / self.elapsed.nanos;
            proof {
                lemma_floor_brackets(scaled as int, self.elapsed.nanos as int);
            }
            Some(r)
        }
    }
}

/// Rounding a quotient down leaves it within one divisor of the dividend.
pub proof fn lemma_floor_brackets(n: int, d: int)
    requires
        0 <= n,
        0 < d,
    ensures
        (n / d) * d <= n < (n / d + 1) * d,
        0 <= n / d,
{
    vstd::arithmetic::div_mod::lemma_fundamental_div_mod(n, d);
    vstd::arithmetic::div_mod::lemma_mod_bound(n, d);
    vstd::arithmetic::div_mod::lemma_div_pos_is_pos(n, d);
    assert((n / d + 1) * d == (n / d) * d + d) by (nonlinear_arith);
    assert(d * (n / d) == (n / d) * d) by (nonlinear_arith);
}

/// The characters of an optional text.
pub open spec fn opt_text(o: Option<String>) -> Option<Seq<char>> {
    match o {
        Some(s) => Some(s@),
        None => None,
    }
}

/// What a turn holds. Exactly one variant is active.
#[derive(Debug, PartialEq, Eq)]
pub enum MessageContent {
    Text(String),
    Image { data: String, caption: Option<String>, analysis: Option<String> },
    Audio { data: String, duration: Option<Elapsed>, transcription: Option<String> },
    File { name: String, data: String, file_type: String, processed_content: Option<String> },
    GeneratedImage { data: String, prompt: String, model_used: String },
    WebScraping { url: String, title: Option<String>, content: String, summary: Option<String> },
    StructuredData { data: String, schema: Option<String> },
    Error(String),
}

/// A turn's content as mathematics: every text is its sequence of characters.
pub enum Content {
    Text(Seq<char>),
    Image { data: Seq<char>, caption: Option<Seq<char>>, analysis: Option<Seq<char>> },
    Audio { data: Seq<char>, duration: Option<Elapsed>, transcription: Option<Seq<char>> },
    File {
        name: Seq<char>,
        data: Seq<char>,
        file_type: Seq<char>,
        processed_content: Option<Seq<char>>,
    },
    GeneratedImage { data: Seq<char>, prompt: Seq<char>, model_used: Seq<char> },
    WebScraping {
        url: Seq<char>,
        title: Option<Seq<char>>,
        content: Seq<char>,
        summary: Option<Seq<char>>,
    },
    StructuredData { data: Seq<char>, schema: Option<Seq<char>> },
    Error(Seq<char>),
}

impl View for MessageContent {
    type V = Content;

    open spec fn view(&self) -> Content {
        match *self {
            MessageContent::Text(text) => Content::Text(text@),
            MessageContent::Image { data, caption, analysis } => Content::Image {
                data: data@,
                caption: opt_text(caption),
                analysis: opt_text(analysis),
            },
            MessageContent::Audio { data, duration, transcription } => Content::Audio {
                data: data@,
                duration,
                transcription: opt_text(transcription),
            },
            MessageContent::File { name, data, file_type, processed_content } => Content::File {
                name: name@,
                data: data@,
                file_type: file_type@,
                processed_content: opt_text(processed_content),
            },
            MessageContent::GeneratedImage { data, prompt, model_used } => Content::GeneratedImage {
                data: data@,
                prompt: prompt@,
                model_used: model_used@,
            },
            MessageContent::WebScraping { url, title, content, summary } => Content::WebScraping {
                url: url@,
                title: opt_text(title),
                content: content@,
                summary: opt_text(summary),
            },
            MessageContent::StructuredData { data, schema } => Content::StructuredData {
                data: data@,
                schema: opt_text(schema),
            },
            MessageContent::Error(description) => Content::Error(description@),
        }
    }
}

/// A copy of an optional text.
pub(crate) fn copy_opt_text(o: &Option<String>) -> (c: Option<String>)
    ensures
        opt_text(c) == opt_text(*o),
{
    match o {
        Some(s) => Some(s.clone()),
        None => None,
    }
}

impl Clone for MessageContent {
    fn clone(&self) -> (c: Self)
        ensures
            c@ == self@,
    {
        match self {
            MessageContent::Text(text) => MessageContent::Text(text.clone()),
            MessageContent::Image { data, caption, analysis } => MessageContent::Image {
                data: data.clone(),
                caption: copy_opt_text(caption),
                analysis: copy_opt_text(analysis),
            },
            MessageContent::Audio { data, duration, transcription } => MessageContent::Audio {
                data: data.clone(),
                duration: *duration,
                transcription: copy_opt_text(transcription),
            },
            MessageContent::File { name, data, file_type, processed_content } => MessageContent::File {
                name: name.clone(),
                data: data.clone(),
                file_type: file_type.clone(),
                processed_content: copy_opt_text(processed_content),
            },
            MessageContent::GeneratedImage { data, prompt, model_used } => MessageContent::GeneratedImage {
                data: data.clone(),
                prompt: prompt.clone(),
                model_used: model_used.clone(),
            },
            MessageContent::WebScraping { url, title, content, summary } => MessageContent::WebScraping {
                url: url.clone(),
                title: copy_opt_text(title),
                content: content.clone(),
                summary: copy_opt_text(summary),
            },
            MessageContent::StructuredData { data, schema } => MessageContent::StructuredData {
                data: data.clone(),
                schema: copy_opt_text(schema),
            },
            MessageContent::Error(description) => MessageContent::Error(description.clone()),
        }
    }
}


impl MessageContent {
    /// Puts `delta` behind a text; any other content stays as it is.
    fn push_text(&mut self, delta: &str)
        ensures
            final(self)@ == (match old(self)@ {
                Content::Text(text) => Content::Text(text + delta@),
                other => other,
            }),
    {
        match self {
            MessageContent::Text(text) => {
                text.append(delta);
            },
            _ => {},
        }
    }
}

/// A change to the turn that is still being written.
#[derive(Debug, PartialEq, Eq)]
pub enum TurnUpdate {
    /// One more fragment of the answer.
    Delta(String),
    /// The answer is complete and took this long.
    Finish(Elapsed),
    /// No answer will come; the text says why.
    Fail(String),
}

/// A `TurnUpdate` as mathematics.
pub enum Update {
    Delta(Seq<char>),
    Finish(Elapsed),
    Fail(Seq<char>),
}

impl View for TurnUpdate {
    type V = Update;

    open spec fn view(&self) -> Update {
        match *self {
            TurnUpdate::Delta(text) => Update::Delta(text@),
            TurnUpdate::Finish(elapsed) => Update::Finish(elapsed),
            TurnUpdate::Fail(description) => Update::Fail(description@),
        }
    }
}

/// One entry of the conversation, as mathematics.
pub struct Turn {
    pub content: Content,
    pub is_user: bool,
    pub timestamp: Seq<char>,
    pub token_count: u64,
    pub response_duration: Option<Elapsed>,
}

impl Turn {
    /// A turn as it is created: nothing counted, no duration.
    pub open spec fn fresh(content: Content, is_user: bool, timestamp: Seq<char>) -> Turn {
        Turn { content, is_user, timestamp, token_count: 0, response_duration: None }
    }

    /// The user's prompt as a turn.
    pub open spec fn user(text: Seq<char>, timestamp: Seq<char>) -> Turn {
        Turn::fresh(Content::Text(text), true, timestamp)
    }

    /// The empty assistant turn that waits for the answer.
    pub open spec fn placeholder(timestamp: Seq<char>) -> Turn {
        Turn::fresh(Content::Text(Seq::empty()), false, timestamp)
    }

    /// An assistant turn that reports a failure.
    pub open spec fn error(description: Seq<char>, timestamp: Seq<char>) -> Turn {
        Turn::fresh(Content::Error(description), false, timestamp)
    }

    pub open spec fn sender(self) -> Sender {
        if self.is_user {
            Sender::User
        } else {
            Sender::Assistant
        }
    }

    /// A user's turn carries no token data, and only a text has a duration.
    pub open spec fn wf(self) -> bool {
        &&& self.is_user ==> self.token_count == 0 && self.response_duration is None
        &&& self.response_duration is Some ==> self.content is Text
    }

    /// An assistant's text whose stream has not ended: the one kind of turn
    /// that can still change.
    pub open spec fn is_open(self) -> bool {
        !self.is_user && self.content is Text && self.response_duration is None
    }

    /// An open turn that has no text yet.
    pub open spec fn is_placeholder(self) -> bool {
        self.is_open() && self.content == Content::Text(Seq::empty())
    }

    /// The rate of the answer, known once its duration is.
    pub open spec fn tokens_per_second(self) -> Option<TokenRate> {
        match self.response_duration {
            Some(elapsed) => Some(TokenRate { tokens: self.token_count, elapsed }),
            None => None,
        }
    }

    /// Whether `update` applies to this turn. A fragment or an end needs an
    /// open turn; a failure takes the place of a placeholder only.
    pub open spec fn accepts(self, update: Update) -> bool {
        match update {
            Update::Delta(_) => self.is_open(),
            Update::Finish(_) => self.is_open(),
            Update::Fail(_) => self.is_placeholder(),
        }
    }

    /// The count after one more fragment. It stops at the largest `u64`.
    pub open spec fn counted(count: u64) -> u64 {
        if count < u64::MAX {
            (count + 1) as u64
        } else {
            count
        }
    }

    /// The turn with `delta` behind its text and one fragment more counted.
    pub open spec fn with_delta(self, delta: Seq<char>) -> Turn {
        Turn {
            content: Content::Text(self.content->Text_0 + delta),
            token_count: Turn::counted(self.token_count),
            ..self
        }
    }

    /// The turn with its duration set.
    pub open spec fn finished(self, elapsed: Elapsed) -> Turn {
        Turn { response_duration: Some(elapsed), ..self }
    }

    /// The turn with the failure's description in place of its content.
    pub open spec fn failed(self, description: Seq<char>) -> Turn {
        Turn { content: Content::Error(description), ..self }
    }

    /// The turn after `update`: changed where it accepts the update, the same
    /// turn where it does not.
    pub open spec fn updated(self, update: Update) -> Turn {
        if self.accepts(update) {
            match update {
                Update::Delta(delta) => self.with_delta(delta),
                Update::Finish(elapsed) => self.finished(elapsed),
                Update::Fail(description) => self.failed(description),
            }
        } else {
            self
        }
    }
}

/// One entry of the conversation.
#[derive(Debug, PartialEq, Eq)]
pub struct ChatMessage {
    content: MessageContent,
    is_user: bool,
    timestamp: String,
    token_count: u64,
    response_duration: Option<Elapsed>,
}

impl View for ChatMessage {
    type V = Turn;

    closed spec fn view(&self) -> Turn {
        Turn {
            content: self.content@,
            is_user: self.is_user,
            timestamp: self.timestamp@,
            token_count: self.token_count,
            response_duration: self.response_duration,
        }
    }
}

impl Clone for ChatMessage {
    fn clone(&self) -> (c: Self)
        ensures
            c@ == self@,
    {
        proof {
            use_type_invariant(self);
        }
        ChatMessage {
            content: self.content.clone(),
            is_user: self.is_user,
            timestamp: self.timestamp.clone(),
            token_count: self.token_count,
            response_duration: self.response_duration,
        }
    }
}

impl ChatMessage {
    #[verifier::type_invariant]
    pub closed spec fn well_formed(&self) -> bool {
        self@.wf()
    }

    /// A turn with the given content, nothing counted and no duration.
    pub fn new(content: MessageContent, is_user: bool, timestamp: String) -> (turn: Self)
        ensures
            turn@ == Turn::fresh(content@, is_user, timestamp@),
    {
        ChatMessage { content, is_user, timestamp, token_count: 0, response_duration: None }
    }

    /// The user's prompt as a turn.
    pub fn user(text: &str, timestamp: &str) -> (turn: Self)
        ensures
            turn@ == Turn::user(text@, timestamp@),
    {
        ChatMessage::new(
            MessageContent::Text(String::from_str(text)),
            true,
            String::from_str(timestamp),
        )
    }

    /// The empty assistant turn that waits for the answer.
    pub fn placeholder(timestamp: &str) -> (turn: Self)
        ensures
            turn@ == Turn::placeholder(timestamp@),
    {
        ChatMessage::new(MessageContent::Text(String::new()), false, String::from_str(timestamp))
    }

    /// An assistant turn that reports a failure.
    pub fn error(description: &str, timestamp: &str) -> (turn: Self)
        ensures
            turn@ == Turn::error(description@, timestamp@),
    {
        ChatMessage::new(
            MessageContent::Error(String::from_str(description)),
            false,
            String::from_str(timestamp),
        )
    }

    pub fn content(&self) -> (content: &MessageContent)
        ensures
            content@ == self@.content,
    {
        &self.content
    }

    pub fn is_user(&self) -> (is_user: bool)
        ensures
            is_user == self@.is_user,
    {
        self.is_user
    }

    pub fn sender(&self) -> (sender: Sender)
        ensures
            sender == self@.sender(),
    {
        if self.is_user {
            Sender::User
        } else {
            Sender::Assistant
        }
    }

    pub fn timestamp(&self) -> (timestamp: &str)
        ensures
            timestamp@ == self@.timestamp,
    {
        self.timestamp.as_str()
    }

    pub fn token_count(&self) -> (count: u64)
        ensures
            count == self@.token_count,
    {
        self.token_count
    }

    pub fn response_duration(&self) -> (duration: Option<Elapsed>)
        ensures
            duration == self@.response_duration,
            duration is Some ==> !self@.is_user && self@.content is Text,
    {
        proof {
            use_type_invariant(self);
        }
        self.response_duration
    }

    /// The rate of the answer: none until the stream has ended, then the
    /// fragments counted over the time the stream ran.
    pub fn tokens_per_second(&self) -> (rate: Option<TokenRate>)
        ensures
            rate == self@.tokens_per_second(),
            rate is Some <==> self@.response_duration is Some,
            rate matches Some(r) ==> r.tokens == self@.token_count && Some(r.elapsed)
                == self@.response_duration,
    {
        match self.response_duration {
            Some(elapsed) => Some(TokenRate { tokens: self.token_count, elapsed }),
            None => None,
        }
    }

    /// The text of a text turn.
    pub fn text(&self) -> (text: Option<&str>)
        ensures
            match text {
                Some(t) => self@.content == Content::Text(t@),
                None => !(self@.content is Text),
            },
    {
        match &self.content {
            MessageContent::Text(t) => Some(t.as_str()),
            _ => None,
        }
    }

    /// Applies `update` where the turn accepts it and says whether it did.
    /// A turn that does not accept the update is left exactly as it was. The
    /// sender and the timestamp never change.
    pub fn apply(&mut self, update: TurnUpdate) -> (applied: bool)
        ensures
            applied == old(self)@.accepts(update@),
            final(self)@ == old(self)@.updated(update@),
            final(self)@.is_user == old(self)@.is_user,
            final(self)@.timestamp == old(self)@.timestamp,
    {
        proof {
            use_type_invariant(&*self);
        }
        match update {
            TurnUpdate::Delta(delta) => {
                if !self.is_open() {
                    return false;
                }
                let mut content = MessageContent::Text(String::new());
                std::mem::swap(&mut content, &mut self.content);
                content.push_text(delta.as_str());
                self.content = content;
                if self.token_count < u64::MAX {
                    self.token_count = self.token_count + 1;
                }
                true
            },
            TurnUpdate::Finish(elapsed) => {
                if !self.is_open() {
                    return false;
                }
                self.response_duration = Some(elapsed);
                true
            },
            TurnUpdate::Fail(description) => {
                if !self.is_placeholder() {
                    return false;
                }
                self.content = MessageContent::Error(description);
                true
            },
        }
    }

    /// Whether the turn can still change.
    pub fn is_open(&self) -> (open: bool)
        ensures
            open == self@.is_open(),
    {
        !self.is_user && self.response_duration.is_none() && matches!(
            self.content,
            MessageContent::Text(_)
        )
    }

    /// Whether the turn is open and still without text.
    pub fn is_placeholder(&self) -> (waiting: bool)
        ensures
            waiting == self@.is_placeholder(),
    {
        if self.is_user || self.response_duration.is_some() {
            return false;
        }
        match &self.content {
            MessageContent::Text(t) => {
                let empty = t.as_str().is_empty();
                assert(empty ==> t@ =~= Seq::<char>::empty());
                empty
            },
            _ => false,
        }
    }
}

} // verus!
