//! Text input component configuration and its edit logic.

use vstd::prelude::*;
use vstd::pervasive::cloned;

verus! {

/// Size variants for inputs.
#[derive(Debug, Clone, Copy, PartialEq, Eq, Structural)]
pub enum InputSize {
    Small,
    Medium,
    Large,
}

/// Input type variants.
#[derive(Debug, Clone, Copy, PartialEq, Eq, Structural)]
pub enum InputType {
    Text,
    Email,
    Number,
    Password,
    Search,
    Tel,
    Url,
}

impl Default for InputSize {
    fn default() -> (r: Self)
        ensures
            r == InputSize::Medium,
    {
        InputSize::Medium
    }
}

impl Default for InputType {
    fn default() -> (r: Self)
        ensures
            r == InputType::Text,
    {
        InputType::Text
    }
}

/// The event an input reacts to: its text changed to the given value.
#[derive(Debug, Clone)]
pub enum Event {
    InputChanged(String),
}

/// Configuration and state of a text input.
#[derive(Debug, Clone)]
pub struct Input<Message> {
    pub label: Option<String>,
    pub value: String,
    pub placeholder: String,
    pub input_type: InputType,
    pub size: InputSize,
    pub disabled: bool,
    pub readonly: bool,
    pub filled: bool,
    pub pill: bool,
    pub help_text: Option<String>,
    pub required: bool,
    pub on_input: Option<Message>,
}

impl<Message> Input<Message> {
    /// Creates a new input with the given placeholder.
    pub fn new(placeholder: String) -> (r: Self)
        ensures
            r.label is None,
            r.value@.len() == 0,
            r.placeholder == placeholder,
            r.input_type == InputType::Text,
            r.size == InputSize::Medium,
            !r.disabled,
            !r.readonly,
            !r.filled,
            !r.pill,
            r.help_text is None,
            !r.required,
            r.on_input is None,
    {
        Input {
            label: None,
            value: String::new(),
            placeholder,
            input_type: InputType::Text,
            size: InputSize::Medium,
            disabled: false,
            readonly: false,
            filled: false,
            pill: false,
            help_text: None,
            required: false,
            on_input: None,
        }
    }

    /// Sets the current value of the input.
    pub fn value(self, value: String) -> (r: Self)
        ensures
            r == (Input { value, ..self }),
    {
        Input { value, ..self }
    }

    /// Sets the label shown above the input.
    pub fn label(self, label: String) -> (r: Self)
        ensures
            r == (Input { label: Some(label), ..self }),
    {
        Input { label: Some(label), ..self }
    }

    /// Sets the input type.
    pub fn input_type(self, input_type: InputType) -> (r: Self)
        ensures
            r == (Input { input_type, ..self }),
    {
        Input { input_type, ..self }
    }

    /// Sets the input size.
    pub fn size(self, size: InputSize) -> (r: Self)
        ensures
            r == (Input { size, ..self }),
    {
        Input { size, ..self }
    }

    /// Sets whether the input is disabled.
    pub fn disabled(self, disabled: bool) -> (r: Self)
        ensures
            r == (Input { disabled, ..self }),
    {
        Input { disabled, ..self }
    }

    /// Sets whether the input is read-only.
    pub fn readonly(self, readonly: bool) -> (r: Self)
        ensures
            r == (Input { readonly, ..self }),
    {
        Input { readonly, ..self }
    }

    /// Sets whether the input uses the filled style (solid background).
    pub fn filled(self, filled: bool) -> (r: Self)
        ensures
            r == (Input { filled, ..self }),
    {
        Input { filled, ..self }
    }

    /// Sets whether the input has fully rounded corners (pill style).
    pub fn pill(self, pill: bool) -> (r: Self)
        ensures
            r == (Input { pill, ..self }),
    {
        Input { pill, ..self }
    }

    /// Sets the help text shown below the input.
    pub fn help_text(self, help_text: String) -> (r: Self)
        ensures
            r == (Input { help_text: Some(help_text), ..self }),
    {
        Input { help_text: Some(help_text), ..self }
    }

    /// Sets the message produced when the input value changes.
    pub fn on_input(self, message: Message) -> (r: Self)
        ensures
            r == (Input { on_input: Some(message), ..self }),
    {
        Input { on_input: Some(message), ..self }
    }

    /// Sets whether the input is marked as required.
    pub fn required(self, required: bool) -> (r: Self)
        ensures
            r == (Input { required, ..self }),
    {
        Input { required, ..self }
    }
}

impl<Message: Clone> Input<Message> {
    /// Reacts to an edit: unless the input is disabled or read-only, it
    /// takes the new value and produces the configured message.
    pub fn update(&mut self, event: Event) -> (r: Option<Message>)
        ensures
            (event matches Event::InputChanged(new_value) ==> (if !old(self).disabled
                && !old(self).readonly {
                &&& *final(self) == (Input { value: new_value, ..*old(self) })
                &&& (r is Some <==> old(self).on_input is Some)
                &&& (r matches Some(m) ==> cloned(old(self).on_input.unwrap(), m))
            } else {
                *final(self) == *old(self) && r is None
            })),
    {
        match event {
            Event::InputChanged(new_value) => {
                if !self.disabled && !self.readonly {
                    self.value = new_value;
                    self.on_input.clone()
                } else {
                    None
                }
            },
        }
    }
}

/// Convenience function to create an input.
pub fn input<Message>(placeholder: String) -> (r: Input<Message>)
    ensures
        r.label is None,
        r.value@.len() == 0,
        r.placeholder == placeholder,
        r.input_type == InputType::Text,
        r.size == InputSize::Medium,
        !r.disabled,
        !r.readonly,
        !r.filled,
        !r.pill,
        r.help_text is None,
        !r.required,
        r.on_input is None,
{
    Input::new(placeholder)
}

} // verus!
