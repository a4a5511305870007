//! The round picture beside a message.

use crate::model::opt_text;
use vstd::prelude::*;
use vstd::string::StringExecFns;

verus! {

/// A picture to show inside the avatar.
#[derive(Clone, Debug, PartialEq, Eq)]
pub struct AvatarImage {
    pub class: String,
    pub src: String,
}

/// What the caller asks of an avatar. Everything but `is_bot` may be left out.
#[derive(Clone, Debug, PartialEq, Eq)]
pub struct AvatarProps {
    pub is_bot: bool,
    pub class: Option<String>,
    pub style: Option<String>,
    pub label: Option<AvatarImage>,
    pub size: Option<String>,
}

/// What stands inside the avatar.
#[derive(Clone, Debug, PartialEq, Eq)]
pub enum AvatarLabel {
    /// The picture that the caller gave.
    Picture(AvatarImage),
    /// The assistant's own sign.
    Robot,
    /// The user's own sign.
    You,
}

/// An avatar, ready to draw.
#[derive(Clone, Debug, PartialEq, Eq)]
pub struct AvatarView {
    pub class: String,
    pub style: String,
    pub label: AvatarLabel,
}

/// `text` where there is one, `fallback` where there is none.
pub open spec fn text_or(text: Option<Seq<char>>, fallback: Seq<char>) -> Seq<char> {
    match text {
        Some(t) => t,
        None => fallback,
    }
}

/// The classes of an avatar: the fixed ones, then its size, a space, and the
/// caller's own classes.
pub open spec fn avatar_class(size: Option<Seq<char>>, class: Option<Seq<char>>) -> Seq<char> {
    "flex-shrink-0 rounded-full overflow-hidden flex items-center justify-center "@ + text_or(
        size,
        "w-10 h-10"@,
    ) + " "@ + text_or(class, Seq::empty())
}

/// The background that an avatar has by itself.
pub open spec fn avatar_background(is_bot: bool) -> Seq<char> {
    if is_bot {
        "background: #40444b;"@
    } else {
        "background: linear-gradient(135deg, #7289da, #5865f2);"@
    }
}

/// The style of an avatar: its own background, a space, and the caller's style.
pub open spec fn avatar_style(is_bot: bool, style: Option<Seq<char>>) -> Seq<char> {
    avatar_background(is_bot) + " "@ + text_or(style, Seq::empty())
}

/// What an avatar shows: the caller's picture, or the sender's own sign.
pub open spec fn avatar_label(is_bot: bool, label: Option<AvatarImage>) -> AvatarLabel {
    match label {
        Some(picture) => AvatarLabel::Picture(picture),
        None => if is_bot {
            AvatarLabel::Robot
        } else {
            AvatarLabel::You
        },
    }
}

/// Puts `text` behind `target` where there is a text.
fn append_opt(target: &mut String, text: &Option<String>)
    ensures
        final(target)@ == old(target)@ + text_or(opt_text(*text), Seq::empty()),
{
    match text {
        Some(t) => {
            target.append(t.as_str());
        },
        None => {
            assert(target@ + Seq::<char>::empty() =~= target@);
        },
    }
}

/// Lays out an avatar.
#[allow(non_snake_case)]
pub fn Avatar(props: AvatarProps) -> (view: AvatarView)
    ensures
        view.class@ == avatar_class(opt_text(props.size), opt_text(props.class)),
        view.style@ == avatar_style(props.is_bot, opt_text(props.style)),
        view.label == avatar_label(props.is_bot, props.label),
{
    let mut class = String::from_str(
        "flex-shrink-0 rounded-full overflow-hidden flex items-center justify-center ",
    );
    match &props.size {
        Some(size) => class.append(size.as_str()),
        None => class.append("w-10 h-10"),
    }
    class.append(" ");
    append_opt(&mut class, &props.class);

    let mut style = String::from_str(
        if props.is_bot {
            "background: #40444b;"
        } else {
            "background: linear-gradient(135deg, #7289da, #5865f2);"
        },
    );
    style.append(" ");
    append_opt(&mut style, &props.style);

    let label = match props.label {
        Some(picture) => AvatarLabel::Picture(picture),
        None => if props.is_bot {
            AvatarLabel::Robot
        } else {
            AvatarLabel::You
        },
    };
    AvatarView { class, style, label }
}

} // verus!
