//! Button component configuration and its press logic.

use vstd::prelude::*;
use vstd::pervasive::cloned;

verus! {

/// Button variants.
#[derive(Debug, Clone, Copy, PartialEq, Eq, Structural)]
pub enum Variant {
    Default,
    Primary,
    Success,
    Neutral,
    Warning,
    Danger,
    Text,
}

/// Button sizes.
#[derive(Debug, Clone, Copy, PartialEq, Eq, Structural)]
pub enum Size {
    Small,
    Medium,
    Large,
}

/// The event a button reacts to.
#[derive(Debug, Clone, Copy, PartialEq, Eq, Structural)]
pub enum Event {
    Pressed,
}

impl Default for Variant {
    fn default() -> (r: Self)
        ensures
            r == Variant::Default,
    {
        Variant::Default
    }
}

impl Default for Size {
    fn default() -> (r: Self)
        ensures
            r == Size::Medium,
    {
        Size::Medium
    }
}

/// Configuration of a button: label, look, states, and the message a press
/// produces.
#[derive(Debug, Clone)]
pub struct Button<Message> {
    pub label: String,
    pub variant: Variant,
    pub size: Size,
    pub outline: bool,
    pub pill: bool,
    pub loading: bool,
    pub disabled: bool,
    pub prefix: Option<String>,
    pub suffix: Option<String>,
    pub on_press: Option<Message>,
}

impl<Message> Button<Message> {
    /// Creates a new button with the given label.
    pub fn new(label: String) -> (r: Self)
        ensures
            r.label == label,
            r.variant == Variant::Default,
            r.size == Size::Medium,
            !r.outline,
            !r.pill,
            !r.loading,
            !r.disabled,
            r.prefix is None,
            r.suffix is None,
            r.on_press is None,
    {
        Button {
            label,
            variant: Variant::Default,
            size: Size::Medium,
            outline: false,
            pill: false,
            loading: false,
            disabled: false,
            prefix: None,
            suffix: None,
            on_press: None,
        }
    }

    /// Sets the button variant.
    pub fn variant(self, variant: Variant) -> (r: Self)
        ensures
            r == (Button { variant, ..self }),
    {
        Button { variant, ..self }
    }

    /// Sets the button size.
    pub fn size(self, size: Size) -> (r: Self)
        ensures
            r == (Button { size, ..self }),
    {
        Button { size, ..self }
    }

    /// Sets whether the button is drawn in the outline style.
    pub fn outline(self, outline: bool) -> (r: Self)
        ensures
            r == (Button { outline, ..self }),
    {
        Button { outline, ..self }
    }

    /// Sets whether the button has fully rounded corners (pill style).
    pub fn pill(self, pill: bool) -> (r: Self)
        ensures
            r == (Button { pill, ..self }),
    {
        Button { pill, ..self }
    }

    /// Sets whether the button shows a loading indicator; a loading button
    /// does not react to presses.
    pub fn loading(self, loading: bool) -> (r: Self)
        ensures
            r == (Button { loading, ..self }),
    {
        Button { loading, ..self }
    }

    /// Sets whether the button is disabled.
    pub fn disabled(self, disabled: bool) -> (r: Self)
        ensures
            r == (Button { disabled, ..self }),
    {
        Button { disabled, ..self }
    }

    /// Sets the prefix content, displayed before the label.
    pub fn prefix(self, prefix: String) -> (r: Self)
        ensures
            r == (Button { prefix: Some(prefix), ..self }),
    {
        Button { prefix: Some(prefix), ..self }
    }

    /// Sets the suffix content, displayed after the label.
    pub fn suffix(self, suffix: String) -> (r: Self)
        ensures
            r == (Button { suffix: Some(suffix), ..self }),
    {
        Button { suffix: Some(suffix), ..self }
    }

    /// Sets the message produced when the button is pressed.
    pub fn on_press(self, message: Message) -> (r: Self)
        ensures
            r == (Button { on_press: Some(message), ..self }),
    {
        Button { on_press: Some(message), ..self }
    }
}

impl<Message: Clone> Button<Message> {
    /// Reacts to a press: the configured message is produced unless the
    /// button is loading or disabled.
    pub fn update(&self, event: Event) -> (r: Option<Message>)
        ensures
            (r is Some <==> (!self.loading && !self.disabled && self.on_press is Some)),
            (r matches Some(m) ==> cloned(self.on_press.unwrap(), m)),
    {
        match event {
            Event::Pressed => {
                if !self.loading && !self.disabled {
                    self.on_press.clone()
                } else {
                    None
                }
            },
        }
    }
}

} // verus!
