//! Breadcrumb component configuration.
//!
//! A breadcrumb shows a hierarchical navigation path: a list of items, each
//! optionally clickable, separated by a configurable separator string.

use vstd::prelude::*;
use vstd::string::StringExecFns;

verus! {

/// A single item in a breadcrumb trail: a label and, when the item is
/// clickable, the message a click produces.
#[derive(Debug, Clone)]
pub struct BreadcrumbItem<Message> {
    pub label: String,
    pub on_press: Option<Message>,
}

/// A breadcrumb trail.
#[derive(Debug, Clone)]
pub struct Breadcrumb<Message> {
    pub items: Vec<BreadcrumbItem<Message>>,
    pub separator: String,
}

impl<Message> BreadcrumbItem<Message> {
    /// Creates a new breadcrumb item with the given label; it is not
    /// clickable until a message is attached.
    pub fn new(label: String) -> (r: Self)
        ensures
            r.label == label,
            r.on_press is None,
    {
        BreadcrumbItem { label, on_press: None }
    }

    /// Sets the message produced when the item is clicked.
    pub fn on_press(self, message: Message) -> (r: Self)
        ensures
            r.label == self.label,
            r.on_press == Some(message),
    {
        BreadcrumbItem { on_press: Some(message), ..self }
    }
}

impl<Message> Breadcrumb<Message> {
    /// Creates an empty breadcrumb with the default separator.
    pub fn new() -> (r: Self)
        ensures
            r.items@.len() == 0,
            r.separator@ == "/"@,
    {
        Breadcrumb { items: Vec::new(), separator: String::from_str("/") }
    }

    /// Appends an item to the breadcrumb.
    pub fn push(self, item: BreadcrumbItem<Message>) -> (r: Self)
        ensures
            r.items@ == self.items@.push(item),
            r.separator == self.separator,
    {
        let mut this = self;
        this.items.push(item);
        this
    }

    /// Sets a custom separator.
    pub fn separator(self, separator: String) -> (r: Self)
        ensures
            r.items == self.items,
            r.separator == separator,
    {
        Breadcrumb { separator, ..self }
    }
}

impl<Message> Default for Breadcrumb<Message> {
    fn default() -> (r: Self)
        ensures
            r.items@.len() == 0,
            r.separator@ == "/"@,
    {
        Breadcrumb::new()
    }
}

} // verus!
