//! The state behind a chat screen: the turns of a conversation, the controller
//! that writes a streamed answer into them, and the description of what the
//! screen shows of them.

pub mod components;
pub mod controller;
pub mod exchange;
pub mod markdown;
pub mod model;
pub mod store;
pub mod text;
pub mod views;

pub use components::avatar::{Avatar, AvatarImage, AvatarLabel, AvatarProps, AvatarView};
pub use components::message::{
    lay_out, Message, MessageBody, MessageProps, MessageView, MsgBubbles, TypingDots,
};
pub use components::text_input::{InputCapture, TextInput, TextInputProps, TextInputView};
pub use controller::{
    Action, DeltaOutcome, Event, GenerationError, ModelUnavailable, Phase, StreamingController,
    SubmitError,
};
pub use markdown::{render_markdown, HighlightTheme, MarkdownOptions};
pub use model::{ChatMessage, Elapsed, MessageContent, Sender, TokenRate, TurnUpdate};
pub use store::{ConversationStore, StoreError};
pub use views::home::{persona_prompt, send, session_prompt, Home, HomeView};
pub use views::setup::{ChatRoute, EnterOutcome, SetupField, SetupForm};
