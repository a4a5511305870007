//! One turn of the conversation as a block on the screen.

use crate::components::avatar::{AvatarImage, AvatarProps};
use crate::markdown::{markdown_html, render_markdown, HighlightTheme, MarkdownOptions};
use crate::model::{copy_opt_text, opt_text, Content, Elapsed, TokenRate, Turn};
pub use crate::model::{ChatMessage, MessageContent};
use vstd::prelude::*;
use vstd::string::StringExecFns;

verus! {

/// What to show of a turn, and whether to show the typing indicator in its place.
#[derive(Clone, Debug, PartialEq, Eq)]
pub struct MessageProps {
    pub chat: ChatMessage,
    pub is_typing: bool,
}

/// What stands inside the bubble.
#[derive(Clone, Debug, PartialEq, Eq)]
pub enum MessageBody {
    /// The typing indicator.
    Typing,
    /// A text, rendered from Markdown.
    Html(String),
    /// A failure, with its description.
    Error(String),
    /// A picture. `src` is a data URI.
    Image { src: String, caption: Option<String>, analysis: Option<String> },
    /// A recording.
    Audio { duration: Option<Elapsed>, transcription: Option<String> },
    /// A kind of content that has no renderer.
    Unsupported,
}

/// A `MessageBody` as mathematics.
pub enum Body {
    Typing,
    Html(Seq<char>),
    Error(Seq<char>),
    Image { src: Seq<char>, caption: Option<Seq<char>>, analysis: Option<Seq<char>> },
    Audio { duration: Option<Elapsed>, transcription: Option<Seq<char>> },
    Unsupported,
}

impl View for MessageBody {
    type V = Body;

    open spec fn view(&self) -> Body {
        match *self {
            MessageBody::Typing => Body::Typing,
            MessageBody::Html(html) => Body::Html(html@),
            MessageBody::Error(description) => Body::Error(description@),
            MessageBody::Image { src, caption, analysis } => Body::Image {
                src: src@,
                caption: opt_text(caption),
                analysis: opt_text(analysis),
            },
            MessageBody::Audio { duration, transcription } => Body::Audio {
                duration,
                transcription: opt_text(transcription),
            },
            MessageBody::Unsupported => Body::Unsupported,
        }
    }
}

/// One block on the screen: a turn, ready to draw.
#[derive(Clone, Debug, PartialEq, Eq)]
pub struct MessageView {
    pub is_user: bool,
    pub timestamp: String,
    pub body: MessageBody,
    /// The rate to show under the bubble. A user's turn shows none.
    pub rate: Option<TokenRate>,
}

/// A `MessageView` as mathematics.
pub struct Block {
    pub is_user: bool,
    pub timestamp: Seq<char>,
    pub body: Body,
    pub rate: Option<TokenRate>,
}

impl View for MessageView {
    type V = Block;

    open spec fn view(&self) -> Block {
        Block {
            is_user: self.is_user,
            timestamp: self.timestamp@,
            body: self.body@,
            rate: self.rate,
        }
    }
}

/// The inside of the bubble for `content`. The typing indicator stands in for
/// any content. A text shows as `html`, which is its rendering; a picture gets
/// its data as a PNG data URI; what has no renderer shows as unsupported.
pub open spec fn body_of(content: Content, is_typing: bool, html: Seq<char>) -> Body {
    if is_typing {
        Body::Typing
    } else {
        match content {
            Content::Text(_) => Body::Html(html),
            Content::Error(description) => Body::Error(description),
            Content::Image { data, caption, analysis } => Body::Image {
                src: "data:image/png;base64,"@ + data,
                caption,
                analysis,
            },
            Content::Audio { data, duration, transcription } => Body::Audio {
                duration,
                transcription,
            },
            _ => Body::Unsupported,
        }
    }
}

/// The block for `turn`, with `html` for the rendering of its text.
pub open spec fn block_of(turn: Turn, is_typing: bool, html: Seq<char>) -> Block {
    Block {
        is_user: turn.is_user,
        timestamp: turn.timestamp,
        body: body_of(turn.content, is_typing, html),
        rate: if turn.is_user {
            None
        } else {
            turn.tokens_per_second()
        },
    }
}

/// The rendering of a turn's text as a message shows it.
pub open spec fn message_html(content: Content) -> Seq<char> {
    markdown_html(
        content->Text_0,
        MarkdownOptions::for_chat(),
        HighlightTheme::Base16OceanDark.key(),
    )
}

/// Lays out a turn whose text, if it is one, has been rendered as `html`.
/// Where the turn is no text, or the typing indicator stands in for it, `html`
/// is not looked at.
pub fn lay_out(props: &MessageProps, html: String) -> (view: MessageView)
    ensures
        view@ == block_of(props.chat@, props.is_typing, html@),
{
    let body = if props.is_typing {
        MessageBody::Typing
    } else {
        match props.chat.content() {
            MessageContent::Text(_) => MessageBody::Html(html),
            MessageContent::Error(description) => MessageBody::Error(description.clone()),
            MessageContent::Image { data, caption, analysis } => MessageBody::Image {
                src: String::from_str("data:image/png;base64,").concat(data.as_str()),
                caption: copy_opt_text(caption),
                analysis: copy_opt_text(analysis),
            },
            MessageContent::Audio { data, duration, transcription } => MessageBody::Audio {
                duration: *duration,
                transcription: copy_opt_text(transcription),
            },
            _ => MessageBody::Unsupported,
        }
    };
    let rate = if props.chat.is_user() {
        None
    } else {
        props.chat.tokens_per_second()
    };
    MessageView {
        is_user: props.chat.is_user(),
        timestamp: String::from_str(props.chat.timestamp()),
        body,
        rate,
    }
}

/// Lays out a turn. A text is rendered from Markdown with the chat's switches
/// and the dark ocean theme, unless the typing indicator stands in for it.
#[allow(non_snake_case)]
pub fn Message(props: MessageProps) -> (view: MessageView)
    ensures
        view@ == block_of(props.chat@, props.is_typing, message_html(props.chat@.content)),
{
    let html = if props.is_typing {
        String::new()
    } else {
        match props.chat.text() {
            Some(text) => render_markdown(
                text,
                &MarkdownOptions::chat(),
                HighlightTheme::Base16OceanDark,
            ),
            None => String::new(),
        }
    };
    lay_out(&props, html)
}

impl MessageView {
    /// The side of the row on which the block stands.
    pub fn row_class(&self) -> (class: &'static str)
        ensures
            class@ == (if self.is_user {
                "justify-end"@
            } else {
                "justify-start"@
            }),
    {
        if self.is_user {
            "justify-end"
        } else {
            "justify-start"
        }
    }

    /// The side to which the block's column leans.
    pub fn column_class(&self) -> (class: &'static str)
        ensures
            class@ == (if self.is_user {
                "items-end"@
            } else {
                "items-start"@
            }),
    {
        if self.is_user {
            "items-end"
        } else {
            "items-start"
        }
    }

    /// The classes of the bubble.
    pub fn bubble_class(&self) -> (class: &'static str)
        ensures
            class@ == (if self.is_user {
                "rounded-xl px-4 py-2 shadow-sm text-sm break-words whitespace-pre-wrap bg-indigo-500 text-white ml-auto min-w-[80px] max-w-full"@
            } else {
                "rounded-xl px-4 py-2 shadow-sm text-sm break-words whitespace-pre-wrap bg-zinc-600 text-gray-100 mr-auto min-w-[80px] max-w-full"@
            }),
    {
        if self.is_user {
            "rounded-xl px-4 py-2 shadow-sm text-sm break-words whitespace-pre-wrap bg-indigo-500 text-white ml-auto min-w-[80px] max-w-full"
        } else {
            "rounded-xl px-4 py-2 shadow-sm text-sm break-words whitespace-pre-wrap bg-zinc-600 text-gray-100 mr-auto min-w-[80px] max-w-full"
        }
    }

    /// The name over the bubble.
    pub fn author(&self) -> (name: &'static str)
        ensures
            name@ == (if self.is_user {
                "You"@
            } else {
                "Bot"@
            }),
    {
        if self.is_user {
            "You"
        } else {
            "Bot"
        }
    }

    /// Whether the avatar stands behind the bubble. The assistant's stands
    /// before it.
    pub fn avatar_trails(&self) -> (trails: bool)
        ensures
            trails == self.is_user,
    {
        self.is_user
    }

    /// What to ask of the avatar that goes with the block.
    pub fn avatar(&self) -> (props: AvatarProps)
        ensures
            props.is_bot == !self.is_user,
            props.size is None,
            opt_text(props.class) == Some(
                if self.is_user {
                    "ring-2 ring-yellow-400"@
                } else {
                    "ring-2 bg-zinc-600 ring-gray-400"@
                },
            ),
            opt_text(props.style) == Some(
                if self.is_user {
                    "box-shadow: 0 0 6px rgba(255, 200, 0, 0.5);"@
                } else {
                    "box-shadow: 0 0 6px rgba(0, 0, 0, 0.5);"@
                },
            ),
            props.label matches Some(picture) && picture.class@
                == "w-full h-full object-cover rounded-full"@ && picture.src@ == (if self.is_user {
                "https://plus.unsplash.com/premium_photo-1664474619075-644dd191935f?fm=jpg&q=60&w=3000&ixlib=rb-4.1.0&ixid=M3wxMjA3fDB8MHxzZWFyY2h8MXx8aW1hZ2V8ZW58MHx8MHx8fDA%3D"@
            } else {
                "https://thumbs.wbm.im/pw/small/bae0a5cb7bbf94c7cbd8e7413c20d826.png"@
            }),
    {
        let class = if self.is_user {
            "ring-2 ring-yellow-400"
        } else {
            "ring-2 bg-zinc-600 ring-gray-400"
        };
        let style = if self.is_user {
            "box-shadow: 0 0 6px rgba(255, 200, 0, 0.5);"
        } else {
            "box-shadow: 0 0 6px rgba(0, 0, 0, 0.5);"
        };
        let src = if self.is_user {
            "https://plus.unsplash.com/premium_photo-1664474619075-644dd191935f?fm=jpg&q=60&w=3000&ixlib=rb-4.1.0&ixid=M3wxMjA3fDB8MHxzZWFyY2h8MXx8aW1hZ2V8ZW58MHx8MHx8fDA%3D"
        } else {
            "https://thumbs.wbm.im/pw/small/bae0a5cb7bbf94c7cbd8e7413c20d826.png"
        };
        AvatarProps {
            is_bot: !self.is_user,
            class: Some(String::from_str(class)),
            style: Some(String::from_str(style)),
            label: Some(
                AvatarImage {
                    class: String::from_str("w-full h-full object-cover rounded-full"),
                    src: String::from_str(src),
                },
            ),
            size: None,
        }
    }
}

/// The typing indicator: a row of dots of one look.
#[derive(Clone, Copy, Debug, PartialEq, Eq)]
pub struct TypingDots {
    pub dots: usize,
    pub dot_class: &'static str,
    pub dot_style: &'static str,
}

/// Lays out the typing indicator: three grey dots.
#[allow(non_snake_case)]
pub fn MsgBubbles() -> (view: TypingDots)
    ensures
        view.dots == 3,
        view.dot_class@ == "w-2 h-2 rounded-full typing-dot"@,
        view.dot_style@ == "background: #72767d;"@,
{
    TypingDots {
        dots: 3,
        dot_class: "w-2 h-2 rounded-full typing-dot",
        dot_style: "background: #72767d;",
    }
}

} // verus!
