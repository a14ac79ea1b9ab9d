//! How the transcript is dressed: the style classes of the chat area and
//! of each message. They depend on the colour mode and on who wrote the
//! message, and on nothing that the messages say.

use vstd::prelude::*;
use vstd::string::*;
use crate::message::Origin;

verus! {

/// The colour mode of the user interface.
#[derive(Clone, Copy, Debug, PartialEq, Eq, Structural)]
pub enum Theme {
    Light,
    Dark,
}

pub const USER_MESSAGE_CLASS: &'static str = "max-w-md p-4 mb-5 rounded-lg self-end";

pub const USER_MESSAGE_LIGHT_MODE_COLORS: &'static str = "bg-blue-700 text-white";

pub const USER_MESSAGE_DARK_MODE_COLORS: &'static str = "bg-blue-500 text-white";

pub const MODEL_MESSAGE_CLASS: &'static str = "max-w-md p-4 mb-5 rounded-lg self-start";

pub const MODEL_MESSAGE_LIGHT_MODE_COLORS: &'static str = "bg-gray-200 text-black";

pub const MODEL_MESSAGE_DARK_MODE_COLORS: &'static str = "bg-zinc-700 text-white";

pub const CHAT_AREA_CLASS: &'static str = "h-screen pb-24 w-full flex flex-col overflow-y-auto p-5";

pub const CHAT_AREA_LIGHT_MODE_COLORS: &'static str = "border-gray-300 bg-gray-100";

pub const CHAT_AREA_DARK_MODE_COLORS: &'static str = "border-zinc-700 bg-zinc-900";

/// A class list: the layout classes, a blank, the colour classes.
pub open spec fn class_list(layout: Seq<char>, colors: Seq<char>) -> Seq<char> {
    layout + " "@ + colors
}

/// The classes of a message: user messages sit at the end of the line,
/// assistant messages at its start, each in the colours of the mode.
pub open spec fn message_class_of(origin: Origin, theme: Theme) -> Seq<char> {
    match (origin, theme) {
        (Origin::User, Theme::Light) => class_list(
            USER_MESSAGE_CLASS@,
            USER_MESSAGE_LIGHT_MODE_COLORS@,
        ),
        (Origin::User, Theme::Dark) => class_list(
            USER_MESSAGE_CLASS@,
            USER_MESSAGE_DARK_MODE_COLORS@,
        ),
        (Origin::Assistant, Theme::Light) => class_list(
            MODEL_MESSAGE_CLASS@,
            MODEL_MESSAGE_LIGHT_MODE_COLORS@,
        ),
        (Origin::Assistant, Theme::Dark) => class_list(
            MODEL_MESSAGE_CLASS@,
            MODEL_MESSAGE_DARK_MODE_COLORS@,
        ),
    }
}

/// The classes of the area that holds the transcript.
pub open spec fn chat_area_class_of(theme: Theme) -> Seq<char> {
    match theme {
        Theme::Light => class_list(CHAT_AREA_CLASS@, CHAT_AREA_LIGHT_MODE_COLORS@),
        Theme::Dark => class_list(CHAT_AREA_CLASS@, CHAT_AREA_DARK_MODE_COLORS@),
    }
}

fn join(layout: &str, colors: &str) -> (class: String)
    ensures
        class@ == class_list(layout@, colors@),
{
    String::from_str(layout).concat(" ").concat(colors)
}

impl Theme {
    /// The mode that a dark-mode switch stands for.
    pub fn from_dark_mode(dark_mode: bool) -> (theme: Theme)
        ensures
            theme == if dark_mode {
                Theme::Dark
            } else {
                Theme::Light
            },
    {
        if dark_mode {
            Theme::Dark
        } else {
            Theme::Light
        }
    }
}

/// The classes of a message of the given origin, see [`message_class_of`].
pub fn message_class(origin: Origin, theme: Theme) -> (class: String)
    ensures
        class@ == message_class_of(origin, theme),
{
    match origin {
        Origin::User => match theme {
            Theme::Light => join(USER_MESSAGE_CLASS, USER_MESSAGE_LIGHT_MODE_COLORS),
            Theme::Dark => join(USER_MESSAGE_CLASS, USER_MESSAGE_DARK_MODE_COLORS),
        },
        Origin::Assistant => match theme {
            Theme::Light => join(MODEL_MESSAGE_CLASS, MODEL_MESSAGE_LIGHT_MODE_COLORS),
            Theme::Dark => join(MODEL_MESSAGE_CLASS, MODEL_MESSAGE_DARK_MODE_COLORS),
        },
    }
}

/// The classes of the chat area, see [`chat_area_class_of`].
pub fn chat_area_class(theme: Theme) -> (class: String)
    ensures
        class@ == chat_area_class_of(theme),
{
    match theme {
        Theme::Light => join(CHAT_AREA_CLASS, CHAT_AREA_LIGHT_MODE_COLORS),
        Theme::Dark => join(CHAT_AREA_CLASS, CHAT_AREA_DARK_MODE_COLORS),
    }
}

} // verus!
