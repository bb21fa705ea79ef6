//! Checkbox component configuration and its toggle logic.

use vstd::prelude::*;
use vstd::pervasive::cloned;

verus! {

/// Size variants for checkboxes.
#[derive(Debug, Clone, Copy, PartialEq, Eq, Structural)]
pub enum CheckboxSize {
    Small,
    Medium,
    Large,
}

impl Default for CheckboxSize {
    fn default() -> (r: Self)
        ensures
            r == CheckboxSize::Medium,
    {
        CheckboxSize::Medium
    }
}

/// The event a checkbox reacts to: the user toggled it to the given state.
#[derive(Debug, Clone, Copy, PartialEq, Eq, Structural)]
pub enum Event {
    Toggled(bool),
}

/// Configuration and state of a checkbox: label, checked/indeterminate
/// state, size, disabled state, optional help text, and the message a toggle
/// produces.
#[derive(Debug, Clone)]
pub struct Checkbox<Message> {
    pub label: String,
    pub checked: bool,
    pub indeterminate: bool,
    pub size: CheckboxSize,
    pub disabled: bool,
    pub help_text: Option<String>,
    pub on_toggle: Option<Message>,
}

impl<Message> Checkbox<Message> {
    /// Creates a new checkbox with the given label and checked state.
    pub fn new(label: String, checked: bool) -> (r: Self)
        ensures
            r.label == label,
            r.checked == checked,
            !r.indeterminate,
            r.size == CheckboxSize::Medium,
            !r.disabled,
            r.help_text is None,
            r.on_toggle is None,
    {
        Checkbox {
            label,
            checked,
            indeterminate: false,
            size: CheckboxSize::Medium,
            disabled: false,
            help_text: None,
            on_toggle: None,
        }
    }

    /// Sets the checkbox size.
    pub fn size(self, size: CheckboxSize) -> (r: Self)
        ensures
            r == (Checkbox { size, ..self }),
    {
        Checkbox { size, ..self }
    }

    /// Sets whether the checkbox is disabled.
    pub fn disabled(self, disabled: bool) -> (r: Self)
        ensures
            r == (Checkbox { disabled, ..self }),
    {
        Checkbox { disabled, ..self }
    }

    /// Sets whether the checkbox is in the indeterminate state.
    pub fn indeterminate(self, indeterminate: bool) -> (r: Self)
        ensures
            r == (Checkbox { indeterminate, ..self }),
    {
        Checkbox { indeterminate, ..self }
    }

    /// Sets the help text shown below the checkbox.
    pub fn help_text(self, help_text: String) -> (r: Self)
        ensures
            r == (Checkbox { help_text: Some(help_text), ..self }),
    {
        Checkbox { help_text: Some(help_text), ..self }
    }

    /// Sets the message produced when the checkbox is toggled.
    pub fn on_toggle(self, message: Message) -> (r: Self)
        ensures
            r == (Checkbox { on_toggle: Some(message), ..self }),
    {
        Checkbox { on_toggle: Some(message), ..self }
    }
}

impl<Message: Clone> Checkbox<Message> {
    /// Reacts to a toggle: unless the checkbox is disabled, it takes the new
    /// checked state, leaves the indeterminate state, and produces the
    /// configured message.
    pub fn update(&mut self, event: Event) -> (r: Option<Message>)
        ensures
            (event matches Event::Toggled(new_state) ==> (if !old(self).disabled {
                &&& *final(self) == (Checkbox {
                    checked: new_state,
                    indeterminate: false,
                    ..*old(self)
                })
                &&& (r is Some <==> old(self).on_toggle is Some)
                &&& (r matches Some(m) ==> cloned(old(self).on_toggle.unwrap(), m))
            } else {
                *final(self) == *old(self) && r is None
            })),
    {
        match event {
            Event::Toggled(new_state) => {
                if !self.disabled {
                    self.checked = new_state;
                    self.indeterminate = false;
                    self.on_toggle.clone()
                } else {
                    None
                }
            },
        }
    }
}

/// Convenience function to create a checkbox.
pub fn checkbox<Message>(label: String, checked: bool) -> (r: Checkbox<Message>)
    ensures
        r.label == label,
        r.checked == checked,
        !r.indeterminate,
        r.size == CheckboxSize::Medium,
        !r.disabled,
        r.help_text is None,
        r.on_toggle is None,
{
    Checkbox::new(label, checked)
}

} // verus!
