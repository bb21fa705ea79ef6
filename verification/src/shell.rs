//! The gallery application's top-level state: which page is shown, which
//! theme is active, and the dialog page's state. The host event loop feeds
//! messages in; everything here is a plain state transition.

use vstd::prelude::*;
use vstd::string::StringExecFns;

use crate::gallery::{dialog_step_spec, handle_dialog_message, DialogMessage, DialogState};
use crate::theme::Theme;

verus! {

/// The pages of the gallery.
#[derive(Debug, Clone, Copy, PartialEq, Eq, Structural)]
pub enum Page {
    Overview,
    Badges,
    Breadcrumbs,
    Buttons,
    ButtonGroups,
    Cards,
    Checkboxes,
    Dialogs,
    Dividers,
    MenuItems,
    MenuLabels,
    Menus,
    Scrollables,
    Tooltips,
}

impl Default for Page {
    fn default() -> (r: Self)
        ensures
            r == Page::Overview,
    {
        Page::Overview
    }
}

/// All pages, in the order the navigation sidebar lists them.
pub open spec fn all_pages_spec() -> Seq<Page> {
    seq![
        Page::Overview,
        Page::Badges,
        Page::Breadcrumbs,
        Page::Buttons,
        Page::ButtonGroups,
        Page::Cards,
        Page::Checkboxes,
        Page::Dialogs,
        Page::Dividers,
        Page::MenuItems,
        Page::MenuLabels,
        Page::Menus,
        Page::Scrollables,
        Page::Tooltips,
    ]
}

/// The display name of each page.
pub open spec fn page_name_spec(page: Page) -> Seq<char> {
    match page {
        Page::Overview => "Overview"@,
        Page::Badges => "Badges"@,
        Page::Breadcrumbs => "Breadcrumbs"@,
        Page::Buttons => "Buttons"@,
        Page::ButtonGroups => "Button Groups"@,
        Page::Cards => "Cards"@,
        Page::Checkboxes => "Checkboxes"@,
        Page::Dialogs => "Dialogs"@,
        Page::Dividers => "Dividers"@,
        Page::MenuItems => "Menu Items"@,
        Page::MenuLabels => "Menu Labels"@,
        Page::Menus => "Menus"@,
        Page::Scrollables => "Scrollables"@,
        Page::Tooltips => "Tooltips"@,
    }
}

impl Page {
    /// All pages, in the order the navigation sidebar lists them.
    pub fn all() -> (r: Vec<Page>)
        ensures
            r@ == all_pages_spec(),
    {
        let mut pages: Vec<Page> = Vec::new();
        pages.push(Page::Overview);
        pages.push(Page::Badges);
        pages.push(Page::Breadcrumbs);
        pages.push(Page::Buttons);
        pages.push(Page::ButtonGroups);
        pages.push(Page::Cards);
        pages.push(Page::Checkboxes);
        pages.push(Page::Dialogs);
        pages.push(Page::Dividers);
        pages.push(Page::MenuItems);
        pages.push(Page::MenuLabels);
        pages.push(Page::Menus);
        pages.push(Page::Scrollables);
        pages.push(Page::Tooltips);
        proof {
            assert(pages@ =~= all_pages_spec());
        }
        pages
    }

    /// The display name of this page.
    pub fn name(&self) -> (r: &'static str)
        ensures
            r@ == page_name_spec(*self),
    {
        match self {
            Page::Overview => "Overview",
            Page::Badges => "Badges",
            Page::Breadcrumbs => "Breadcrumbs",
            Page::Buttons => "Buttons",
            Page::ButtonGroups => "Button Groups",
            Page::Cards => "Cards",
            Page::Checkboxes => "Checkboxes",
            Page::Dialogs => "Dialogs",
            Page::Dividers => "Dividers",
            Page::MenuItems => "Menu Items",
            Page::MenuLabels => "Menu Labels",
            Page::Menus => "Menus",
            Page::Scrollables => "Scrollables",
            Page::Tooltips => "Tooltips",
        }
    }
}

/// The messages the gallery application reacts to.
#[derive(Debug, Clone)]
pub enum Message {
    /// A demonstration button was pressed; only logged by the host.
    ButtonPressed(String),
    /// A demonstration checkbox changed; only logged by the host.
    CheckboxChanged(String, bool),
    /// A demonstration menu item was selected; only logged by the host.
    MenuItemSelected,
    /// Switch the application theme.
    SwitchTheme(Theme),
    /// Navigate to another page.
    NavigateToPage(Page),
    /// A message for the dialog page.
    Dialog(DialogMessage),
}

/// The gallery application's state.
#[derive(Debug, Clone, Copy, PartialEq, Eq, Structural)]
pub struct Gallery {
    pub theme: Theme,
    pub current_page: Page,
    pub dialog_state: DialogState,
}

impl Default for Gallery {
    fn default() -> (r: Self)
        ensures
            r.theme == Theme::Dark,
            r.current_page == Page::Overview,
            r.dialog_state == (DialogState {
                show_basic: false,
                show_custom_width: false,
                show_no_header: false,
                show_scroll: false,
            }),
    {
        Gallery {
            theme: Theme::Dark,
            current_page: Page::Overview,
            dialog_state: DialogState {
                show_basic: false,
                show_custom_width: false,
                show_no_header: false,
                show_scroll: false,
            },
        }
    }
}

/// The gallery state after handling `message`. Demonstration messages only
/// produce a log line at the host; the state does not change.
pub open spec fn gallery_step_spec(state: Gallery, message: Message) -> Gallery {
    match message {
        Message::SwitchTheme(theme) => Gallery { theme, ..state },
        Message::NavigateToPage(page) => Gallery { current_page: page, ..state },
        Message::Dialog(m) => Gallery {
            dialog_state: dialog_step_spec(state.dialog_state, m),
            ..state
        },
        Message::ButtonPressed(_) => state,
        Message::CheckboxChanged(_, _) => state,
        Message::MenuItemSelected => state,
    }
}

impl Gallery {
    /// Handles one message. Logging the demonstration messages is the
    /// host's business; here they leave the state unchanged.
    pub fn update(&mut self, message: Message)
        ensures
            *final(self) == gallery_step_spec(*old(self), message),
    {
        match message {
            Message::ButtonPressed(_) => {},
            Message::CheckboxChanged(_, _) => {},
            Message::MenuItemSelected => {},
            Message::SwitchTheme(theme) => {
                self.theme = theme;
            },
            Message::NavigateToPage(page) => {
                self.current_page = page;
            },
            Message::Dialog(m) => {
                handle_dialog_message(&mut self.dialog_state, m);
            },
        }
    }

    /// The active theme.
    pub fn theme(&self) -> (r: Theme)
        ensures
            r == self.theme,
    {
        self.theme
    }

    /// The window title: the gallery's name and the current page's.
    pub fn title(&self) -> (r: String)
        ensures
            r@ == "Gallery - "@ + page_name_spec(self.current_page),
    {
        String::from_str("Gallery - ").concat(self.current_page.name())
    }
}

} // verus!
