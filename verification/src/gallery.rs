//! State and message handling for the gallery's demonstration pages.
//!
//! The dialog page tracks which of its four example dialogs is open; the
//! input page tracks the text of each of its example inputs. Both are plain
//! state machines: a message names the field it changes and carries the new
//! value.

use vstd::prelude::*;
use vstd::string::StringExecFns;

verus! {

/// Which of the dialog page's example dialogs are open.
#[derive(Debug, Clone, Copy, PartialEq, Eq, Structural)]
pub struct DialogState {
    pub show_basic: bool,
    pub show_custom_width: bool,
    pub show_no_header: bool,
    pub show_scroll: bool,
}

/// Messages opening and closing the dialog page's example dialogs.
#[derive(Debug, Clone, Copy, PartialEq, Eq, Structural)]
pub enum DialogMessage {
    OpenBasic,
    CloseBasic,
    OpenCustomWidth,
    CloseCustomWidth,
    OpenNoHeader,
    CloseNoHeader,
    OpenScroll,
    CloseScroll,
}

impl Default for DialogState {
    fn default() -> (r: Self)
        ensures
            r == (DialogState {
                show_basic: false,
                show_custom_width: false,
                show_no_header: false,
                show_scroll: false,
            }),
    {
        DialogState {
            show_basic: false,
            show_custom_width: false,
            show_no_header: false,
            show_scroll: false,
        }
    }
}

/// The dialog state after handling `message`: each message sets exactly one
/// flag and leaves the rest alone.
pub open spec fn dialog_step_spec(state: DialogState, message: DialogMessage) -> DialogState {
    match message {
        DialogMessage::OpenBasic => DialogState { show_basic: true, ..state },
        DialogMessage::CloseBasic => DialogState { show_basic: false, ..state },
        DialogMessage::OpenCustomWidth => DialogState { show_custom_width: true, ..state },
        DialogMessage::CloseCustomWidth => DialogState { show_custom_width: false, ..state },
        DialogMessage::OpenNoHeader => DialogState { show_no_header: true, ..state },
        DialogMessage::CloseNoHeader => DialogState { show_no_header: false, ..state },
        DialogMessage::OpenScroll => DialogState { show_scroll: true, ..state },
        DialogMessage::CloseScroll => DialogState { show_scroll: false, ..state },
    }
}

/// Handles one dialog message.
pub fn handle_dialog_message(state: &mut DialogState, message: DialogMessage)
    ensures
        *final(state) == dialog_step_spec(*old(state), message),
{
    match message {
        DialogMessage::OpenBasic => state.show_basic = true,
        DialogMessage::CloseBasic => state.show_basic = false,
        DialogMessage::OpenCustomWidth => state.show_custom_width = true,
        DialogMessage::CloseCustomWidth => state.show_custom_width = false,
        DialogMessage::OpenNoHeader => state.show_no_header = true,
        DialogMessage::CloseNoHeader => state.show_no_header = false,
        DialogMessage::OpenScroll => state.show_scroll = true,
        DialogMessage::CloseScroll => state.show_scroll = false,
    }
}

/// The current text of every example input on the input page.
#[derive(Debug, Clone)]
pub struct InputState {
    pub basic: String,
    pub name: String,
    pub email: String,
    pub password: String,
    pub small: String,
    pub medium: String,
    pub large: String,
    pub text: String,
    pub email_type: String,
    pub password_type: String,
    pub number: String,
    pub tel: String,
    pub url: String,
    pub filled: String,
    pub pill_standard: String,
    pub pill: String,
    pub first_name: String,
    pub last_name: String,
    pub search: String,
    pub combo: String,
}

/// Messages updating the example inputs, each carrying the new text.
#[derive(Debug, Clone)]
pub enum InputMessage {
    BasicChanged(String),
    NameChanged(String),
    EmailChanged(String),
    PasswordChanged(String),
    SmallChanged(String),
    MediumChanged(String),
    LargeChanged(String),
    TextChanged(String),
    EmailTypeChanged(String),
    PasswordTypeChanged(String),
    NumberChanged(String),
    TelChanged(String),
    UrlChanged(String),
    FilledChanged(String),
    PillStandardChanged(String),
    PillChanged(String),
    FirstNameChanged(String),
    LastNameChanged(String),
    SearchChanged(String),
    ComboChanged(String),
}

impl Default for InputState {
    /// Every input starts empty, except the email example, which starts with
    /// a sample address.
    fn default() -> (r: Self)
        ensures
            r.basic@.len() == 0,
            r.name@.len() == 0,
            r.email@ == "user@example.com"@,
            r.password@.len() == 0,
            r.small@.len() == 0,
            r.medium@.len() == 0,
            r.large@.len() == 0,
            r.text@.len() == 0,
            r.email_type@.len() == 0,
            r.password_type@.len() == 0,
            r.number@.len() == 0,
            r.tel@.len() == 0,
            r.url@.len() == 0,
            r.filled@.len() == 0,
            r.pill_standard@.len() == 0,
            r.pill@.len() == 0,
            r.first_name@.len() == 0,
            r.last_name@.len() == 0,
            r.search@.len() == 0,
            r.combo@.len() == 0,
    {
        proof {
            reveal_strlit("");
        }
        InputState {
            basic: String::new(),
            name: String::new(),
            email: String::from_str("user@example.com"),
            password: String::new(),
            small: String::new(),
            medium: String::new(),
            large: String::new(),
            text: String::new(),
            email_type: String::new(),
            password_type: String::new(),
            number: String::new(),
            tel: String::new(),
            url: String::new(),
            filled: String::new(),
            pill_standard: String::new(),
            pill: String::new(),
            first_name: String::new(),
            last_name: String::new(),
            search: String::new(),
            combo: String::new(),
        }
    }
}

/// The input state after handling `message`: each message replaces exactly
/// one field's text and leaves the rest alone.
pub open spec fn input_step_spec(state: InputState, message: InputMessage) -> InputState {
    match message {
        InputMessage::BasicChanged(value) => InputState { basic: value, ..state },
        InputMessage::NameChanged(value) => InputState { name: value, ..state },
        InputMessage::EmailChanged(value) => InputState { email: value, ..state },
        InputMessage::PasswordChanged(value) => InputState { password: value, ..state },
        InputMessage::SmallChanged(value) => InputState { small: value, ..state },
        InputMessage::MediumChanged(value) => InputState { medium: value, ..state },
        InputMessage::LargeChanged(value) => InputState { large: value, ..state },
        InputMessage::TextChanged(value) => InputState { text: value, ..state },
        InputMessage::EmailTypeChanged(value) => InputState { email_type: value, ..state },
        InputMessage::PasswordTypeChanged(value) => InputState { password_type: value, ..state },
        InputMessage::NumberChanged(value) => InputState { number: value, ..state },
        InputMessage::TelChanged(value) => InputState { tel: value, ..state },
        InputMessage::UrlChanged(value) => InputState { url: value, ..state },
        InputMessage::FilledChanged(value) => InputState { filled: value, ..state },
        InputMessage::PillStandardChanged(value) => InputState { pill_standard: value, ..state },
        InputMessage::PillChanged(value) => InputState { pill: value, ..state },
        InputMessage::FirstNameChanged(value) => InputState { first_name: value, ..state },
        InputMessage::LastNameChanged(value) => InputState { last_name: value, ..state },
        InputMessage::SearchChanged(value) => InputState { search: value, ..state },
        InputMessage::ComboChanged(value) => InputState { combo: value, ..state },
    }
}

/// Handles one input message.
pub fn handle_input_message(state: &mut InputState, message: InputMessage)
    ensures
        *final(state) == input_step_spec(*old(state), message),
{
    match message {
        InputMessage::BasicChanged(value) => state.basic = value,
        InputMessage::NameChanged(value) => state.name = value,
        InputMessage::EmailChanged(value) => state.email = value,
        InputMessage::PasswordChanged(value) => state.password = value,
        InputMessage::SmallChanged(value) => state.small = value,
        InputMessage::MediumChanged(value) => state.medium = value,
        InputMessage::LargeChanged(value) => state.large = value,
        InputMessage::TextChanged(value) => state.text = value,
        InputMessage::EmailTypeChanged(value) => state.email_type = value,
        InputMessage::PasswordTypeChanged(value) => state.password_type = value,
        InputMessage::NumberChanged(value) => state.number = value,
        InputMessage::TelChanged(value) => state.tel = value,
        InputMessage::UrlChanged(value) => state.url = value,
        InputMessage::FilledChanged(value) => state.filled = value,
        InputMessage::PillStandardChanged(value) => state.pill_standard = value,
        InputMessage::PillChanged(value) => state.pill = value,
        InputMessage::FirstNameChanged(value) => state.first_name = value,
        InputMessage::LastNameChanged(value) => state.last_name = value,
        InputMessage::SearchChanged(value) => state.search = value,
        InputMessage::ComboChanged(value) => state.combo = value,
    }
}

} // verus!
