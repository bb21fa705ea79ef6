//! Menu item component configuration and its selection logic.

use vstd::prelude::*;
use vstd::pervasive::cloned;

verus! {

/// The kind of a menu item.
#[derive(Debug, Clone, Copy, PartialEq, Eq, Structural)]
pub enum MenuItemType {
    /// A normal menu item.
    Normal,
    /// A checkbox menu item: selecting it toggles its checked state.
    Checkbox,
}

impl Default for MenuItemType {
    fn default() -> (r: Self)
        ensures
            r == MenuItemType::Normal,
    {
        MenuItemType::Normal
    }
}

/// The events a menu item reacts to.
#[derive(Debug, Clone, Copy, PartialEq, Eq, Structural)]
pub enum Event {
    /// The item was clicked.
    Selected,
    /// The pointer entered or left the item.
    Hovered(bool),
}

/// The per-instance interaction state of a menu item.
#[derive(Debug, Clone, Copy, PartialEq, Eq, Structural)]
pub struct MenuItemState {
    pub is_hovered: bool,
}

impl Default for MenuItemState {
    fn default() -> (r: Self)
        ensures
            r == (MenuItemState { is_hovered: false }),
    {
        MenuItemState { is_hovered: false }
    }
}

/// Configuration and state of a menu item.
#[derive(Debug, Clone)]
pub struct MenuItem<Message> {
    pub label: String,
    pub value: Option<String>,
    pub item_type: MenuItemType,
    pub checked: bool,
    pub disabled: bool,
    pub loading: bool,
    pub prefix: Option<String>,
    pub suffix: Option<String>,
    pub on_select: Option<Message>,
}

impl<Message> MenuItem<Message> {
    /// Creates a new menu item with the given label.
    pub fn new(label: String) -> (r: Self)
        ensures
            r.label == label,
            r.value is None,
            r.item_type == MenuItemType::Normal,
            !r.checked,
            !r.disabled,
            !r.loading,
            r.prefix is None,
            r.suffix is None,
            r.on_select is None,
    {
        MenuItem {
            label,
            value: None,
            item_type: MenuItemType::Normal,
            checked: false,
            disabled: false,
            loading: false,
            prefix: None,
            suffix: None,
            on_select: None,
        }
    }

    /// Sets the value property identifying this menu item.
    pub fn value(self, value: String) -> (r: Self)
        ensures
            r == (MenuItem { value: Some(value), ..self }),
    {
        MenuItem { value: Some(value), ..self }
    }

    /// Sets the kind of menu item.
    pub fn item_type(self, item_type: MenuItemType) -> (r: Self)
        ensures
            r == (MenuItem { item_type, ..self }),
    {
        MenuItem { item_type, ..self }
    }

    /// Sets whether the menu item is checked (for checkbox items).
    pub fn checked(self, checked: bool) -> (r: Self)
        ensures
            r == (MenuItem { checked, ..self }),
    {
        MenuItem { checked, ..self }
    }

    /// Sets whether the menu item is disabled.
    pub fn disabled(self, disabled: bool) -> (r: Self)
        ensures
            r == (MenuItem { disabled, ..self }),
    {
        MenuItem { disabled, ..self }
    }

    /// Sets whether the menu item shows a loading indicator; a loading item
    /// does not react to selection.
    pub fn loading(self, loading: bool) -> (r: Self)
        ensures
            r == (MenuItem { loading, ..self }),
    {
        MenuItem { loading, ..self }
    }

    /// Sets the prefix content, displayed before the label.
    pub fn prefix(self, prefix: String) -> (r: Self)
        ensures
            r == (MenuItem { prefix: Some(prefix), ..self }),
    {
        MenuItem { prefix: Some(prefix), ..self }
    }

    /// Sets the suffix content, displayed after the label.
    pub fn suffix(self, suffix: String) -> (r: Self)
        ensures
            r == (MenuItem { suffix: Some(suffix), ..self }),
    {
        MenuItem { suffix: Some(suffix), ..self }
    }

    /// Sets the message produced when the menu item is selected.
    pub fn on_select(self, message: Message) -> (r: Self)
        ensures
            r == (MenuItem { on_select: Some(message), ..self }),
    {
        MenuItem { on_select: Some(message), ..self }
    }
}

impl<Message: Clone> MenuItem<Message> {
    /// Reacts to one event. A selection of an enabled, non-loading item
    /// toggles checkbox items and produces the configured message; hovering
    /// only records the hover state.
    pub fn update(&mut self, state: &mut MenuItemState, event: Event) -> (r: Option<Message>)
        ensures
            (event == Event::Selected && !old(self).loading && !old(self).disabled) ==> ({
                &&& *final(self) == (MenuItem {
                    checked: (if old(self).item_type == MenuItemType::Checkbox {
                        !old(self).checked
                    } else {
                        old(self).checked
                    }),
                    ..*old(self)
                })
                &&& *final(state) == *old(state)
                &&& (r is Some <==> old(self).on_select is Some)
                &&& (r matches Some(m) ==> cloned(old(self).on_select.unwrap(), m))
            }),
            (event == Event::Selected && (old(self).loading || old(self).disabled)) ==> (
            *final(self) == *old(self) && *final(state) == *old(state) && r is None),
            (event matches Event::Hovered(is_hovered) ==> (*final(state) == (MenuItemState {
                is_hovered,
            }) && *final(self) == *old(self) && r is None)),
    {
        match event {
            Event::Selected => {
                if !self.loading && !self.disabled {
                    if self.item_type == MenuItemType::Checkbox {
                        self.checked = !self.checked;
                    }
                    self.on_select.clone()
                } else {
                    None
                }
            },
            Event::Hovered(is_hovered) => {
                state.is_hovered = is_hovered;
                None
            },
        }
    }
}

/// Convenience function to create a menu item.
pub fn menu_item<Message>(label: String) -> (r: MenuItem<Message>)
    ensures
        r.label == label,
        r.value is None,
        r.item_type == MenuItemType::Normal,
        !r.checked,
        !r.disabled,
        !r.loading,
        r.prefix is None,
        r.suffix is None,
        r.on_select is None,
{
    MenuItem::new(label)
}

} // verus!
