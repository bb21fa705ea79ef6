//! Button group component configuration.
//!
//! A button group draws its buttons as one connected unit: the first button
//! keeps only its leading corners rounded, the last only its trailing ones,
//! the middle buttons none, and a lone button all four.

use vstd::prelude::*;

use crate::button::Button;

verus! {

/// Position of a button within a button group, which decides its corner
/// rounding.
#[derive(Debug, Clone, Copy, PartialEq, Eq, Structural)]
pub enum ButtonPosition {
    /// First button in the group (rounded leading corners).
    First,
    /// Middle button in the group (no rounded corners).
    Middle,
    /// Last button in the group (rounded trailing corners).
    Last,
    /// Only button in the group (all corners rounded).
    Only,
}

/// The position of the button at `index` in a group of `count` buttons.
pub open spec fn position_spec(index: int, count: int) -> ButtonPosition {
    if count == 1 {
        ButtonPosition::Only
    } else if index == 0 {
        ButtonPosition::First
    } else if index == count - 1 {
        ButtonPosition::Last
    } else {
        ButtonPosition::Middle
    }
}

/// The position of the button at `index` in a group of `count` buttons.
pub fn button_position(index: usize, count: usize) -> (r: ButtonPosition)
    requires
        index < count,
    ensures
        r == position_spec(index as int, count as int),
{
    if count == 1 {
        ButtonPosition::Only
    } else if index == 0 {
        ButtonPosition::First
    } else if index == count - 1 {
        ButtonPosition::Last
    } else {
        ButtonPosition::Middle
    }
}

/// Configuration of a button group.
pub struct ButtonGroup<Message> {
    pub buttons: Vec<Button<Message>>,
    pub label: Option<String>,
    /// Spacing between the buttons, in pixels; negative spacing overlaps
    /// their borders.
    pub spacing: i64,
}

impl<Message> ButtonGroup<Message> {
    /// Creates a new, empty button group with overlapped borders.
    pub fn new() -> (r: Self)
        ensures
            r.buttons@.len() == 0,
            r.label is None,
            r.spacing == -1,
    {
        ButtonGroup { buttons: Vec::new(), label: None, spacing: -1 }
    }

    /// Creates a button group holding the given buttons.
    pub fn with_buttons(buttons: Vec<Button<Message>>) -> (r: Self)
        ensures
            r.buttons == buttons,
            r.label is None,
            r.spacing == -1,
    {
        ButtonGroup { buttons, label: None, spacing: -1 }
    }

    /// Appends a button to the group.
    pub fn push(self, button: Button<Message>) -> (r: Self)
        ensures
            r.buttons@ == self.buttons@.push(button),
            r.label == self.label,
            r.spacing == self.spacing,
    {
        let mut this = self;
        this.buttons.push(button);
        this
    }

    /// Sets the label displayed above the button group.
    pub fn label(self, label: String) -> (r: Self)
        ensures
            r.buttons == self.buttons,
            r.label == Some(label),
            r.spacing == self.spacing,
    {
        ButtonGroup { label: Some(label), ..self }
    }

    /// Sets the spacing between the buttons, in pixels.
    pub fn spacing(self, spacing: i64) -> (r: Self)
        ensures
            r.buttons == self.buttons,
            r.label == self.label,
            r.spacing == spacing,
    {
        ButtonGroup { spacing, ..self }
    }

    /// The positions of all buttons of this group, in order: what corner
    /// rounding each one receives when the group is drawn.
    pub fn positions(&self) -> (r: Vec<ButtonPosition>)
        ensures
            r@.len() == self.buttons@.len(),
            forall|i: int|
                0 <= i < r@.len() ==> r@[i] == position_spec(i, self.buttons@.len() as int),
    {
        let count = self.buttons.len();
        let mut out: Vec<ButtonPosition> = Vec::new();
        let mut index: usize = 0;
        while index < count
            invariant
                index <= count,
                count == self.buttons@.len(),
                out@.len() == index,
                forall|i: int| 0 <= i < index ==> out@[i] == position_spec(i, count as int),
            decreases count - index,
        {
            out.push(button_position(index, count));
            index = index + 1;
        }
        out
    }
}

impl<Message> Default for ButtonGroup<Message> {
    fn default() -> (r: Self)
        ensures
            r.buttons@.len() == 0,
            r.label is None,
            r.spacing == -1,
    {
        ButtonGroup::new()
    }
}

/// Convenience function to create an empty button group.
pub fn button_group<Message>() -> (r: ButtonGroup<Message>)
    ensures
        r.buttons@.len() == 0,
        r.label is None,
        r.spacing == -1,
{
    ButtonGroup::new()
}

/// Convenience function to create a button group with buttons.
pub fn button_group_with<Message>(buttons: Vec<Button<Message>>) -> (r: ButtonGroup<Message>)
    ensures
        r.buttons == buttons,
        r.label is None,
        r.spacing == -1,
{
    ButtonGroup::with_buttons(buttons)
}

} // verus!
