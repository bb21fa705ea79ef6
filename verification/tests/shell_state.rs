use shoelace_ui::gallery::{
    handle_dialog_message, handle_input_message, DialogMessage, DialogState, InputMessage,
    InputState,
};
use shoelace_ui::shell::{Gallery, Message, Page};
use shoelace_ui::theme::Theme;

#[test]
fn all_pages_in_sidebar_order() {
    let pages = Page::all();
    assert_eq!(pages.len(), 14);
    assert_eq!(pages[0], Page::Overview);
    assert_eq!(pages[13], Page::Tooltips);
    assert_eq!(
        pages,
        vec![
            Page::Overview,
            Page::Badges,
            Page::Breadcrumbs,
            Page::Buttons,
            Page::ButtonGroups,
            Page::Cards,
            Page::Checkboxes,
            Page::Dialogs,
            Page::Dividers,
            Page::MenuItems,
            Page::MenuLabels,
            Page::Menus,
            Page::Scrollables,
            Page::Tooltips,
        ]
    );
}

#[test]
fn page_names() {
    assert_eq!(Page::Overview.name(), "Overview");
    assert_eq!(Page::ButtonGroups.name(), "Button Groups");
    assert_eq!(Page::MenuItems.name(), "Menu Items");
    assert_eq!(Page::Tooltips.name(), "Tooltips");
}

#[test]
fn gallery_defaults() {
    let g = Gallery::default();
    assert_eq!(g.theme, Theme::Dark);
    assert_eq!(g.current_page, Page::Overview);
    assert!(!g.dialog_state.show_basic);
}

#[test]
fn gallery_navigation_and_theme() {
    let mut g = Gallery::default();
    g.update(Message::SwitchTheme(Theme::Light));
    assert_eq!(g.theme(), Theme::Light);
    g.update(Message::NavigateToPage(Page::Dialogs));
    assert_eq!(g.current_page, Page::Dialogs);
    // Demonstration messages leave the state alone.
    g.update(Message::ButtonPressed(String::from("OK")));
    g.update(Message::CheckboxChanged(String::from("c"), true));
    g.update(Message::MenuItemSelected);
    assert_eq!(g.theme, Theme::Light);
    assert_eq!(g.current_page, Page::Dialogs);
}

#[test]
fn gallery_title_names_current_page() {
    let mut g = Gallery::default();
    assert_eq!(g.title(), "Gallery - Overview");
    g.update(Message::NavigateToPage(Page::Badges));
    assert_eq!(g.title(), "Gallery - Badges");
}

#[test]
fn dialog_messages_set_exactly_one_flag() {
    let mut state = DialogState::default();
    handle_dialog_message(&mut state, DialogMessage::OpenBasic);
    assert!(state.show_basic);
    assert!(!state.show_custom_width && !state.show_no_header && !state.show_scroll);

    handle_dialog_message(&mut state, DialogMessage::OpenScroll);
    assert!(state.show_basic && state.show_scroll);

    handle_dialog_message(&mut state, DialogMessage::CloseBasic);
    assert!(!state.show_basic && state.show_scroll);

    handle_dialog_message(&mut state, DialogMessage::OpenCustomWidth);
    handle_dialog_message(&mut state, DialogMessage::CloseCustomWidth);
    assert!(!state.show_custom_width);

    handle_dialog_message(&mut state, DialogMessage::OpenNoHeader);
    assert!(state.show_no_header);
    handle_dialog_message(&mut state, DialogMessage::CloseNoHeader);
    handle_dialog_message(&mut state, DialogMessage::CloseScroll);
    assert_eq!(state, DialogState::default());
}

#[test]
fn gallery_routes_dialog_messages() {
    let mut g = Gallery::default();
    g.update(Message::Dialog(DialogMessage::OpenNoHeader));
    assert!(g.dialog_state.show_no_header);
    g.update(Message::Dialog(DialogMessage::CloseNoHeader));
    assert!(!g.dialog_state.show_no_header);
}

#[test]
fn input_state_defaults() {
    let state = InputState::default();
    assert_eq!(state.basic, "");
    assert_eq!(state.email, "user@example.com");
    assert_eq!(state.combo, "");
}

#[test]
fn input_messages_replace_exactly_one_field() {
    let mut state = InputState::default();
    handle_input_message(&mut state, InputMessage::NameChanged(String::from("Ada")));
    assert_eq!(state.name, "Ada");
    assert_eq!(state.email, "user@example.com");

    handle_input_message(&mut state, InputMessage::EmailChanged(String::from("a@b.c")));
    assert_eq!(state.email, "a@b.c");
    assert_eq!(state.name, "Ada");

    handle_input_message(&mut state, InputMessage::SearchChanged(String::from("find")));
    handle_input_message(&mut state, InputMessage::ComboChanged(String::from("x")));
    handle_input_message(&mut state, InputMessage::UrlChanged(String::from("u")));
    handle_input_message(&mut state, InputMessage::TelChanged(String::from("t")));
    handle_input_message(&mut state, InputMessage::NumberChanged(String::from("9")));
    handle_input_message(&mut state, InputMessage::PasswordChanged(String::from("s")));
    handle_input_message(&mut state, InputMessage::BasicChanged(String::from("b")));
    handle_input_message(&mut state, InputMessage::SmallChanged(String::from("sm")));
    handle_input_message(&mut state, InputMessage::MediumChanged(String::from("md")));
    handle_input_message(&mut state, InputMessage::LargeChanged(String::from("lg")));
    handle_input_message(&mut state, InputMessage::TextChanged(String::from("tx")));
    handle_input_message(&mut state, InputMessage::EmailTypeChanged(String::from("et")));
    handle_input_message(&mut state, InputMessage::PasswordTypeChanged(String::from("pt")));
    handle_input_message(&mut state, InputMessage::FilledChanged(String::from("f")));
    handle_input_message(&mut state, InputMessage::PillStandardChanged(String::from("ps")));
    handle_input_message(&mut state, InputMessage::PillChanged(String::from("p")));
    handle_input_message(&mut state, InputMessage::FirstNameChanged(String::from("fn")));
    handle_input_message(&mut state, InputMessage::LastNameChanged(String::from("ln")));

    assert_eq!(state.search, "find");
    assert_eq!(state.combo, "x");
    assert_eq!(state.url, "u");
    assert_eq!(state.tel, "t");
    assert_eq!(state.number, "9");
    assert_eq!(state.password, "s");
    assert_eq!(state.basic, "b");
    assert_eq!(state.small, "sm");
    assert_eq!(state.medium, "md");
    assert_eq!(state.large, "lg");
    assert_eq!(state.text, "tx");
    assert_eq!(state.email_type, "et");
    assert_eq!(state.password_type, "pt");
    assert_eq!(state.filled, "f");
    assert_eq!(state.pill_standard, "ps");
    assert_eq!(state.pill, "p");
    assert_eq!(state.first_name, "fn");
    assert_eq!(state.last_name, "ln");
    assert_eq!(state.name, "Ada");
    assert_eq!(state.email, "a@b.c");
}

#[test]
fn theme_default_and_darkness() {
    assert_eq!(Theme::default(), Theme::Dark);
    assert!(Theme::Dark.is_dark());
    assert!(!Theme::Light.is_dark());
}
