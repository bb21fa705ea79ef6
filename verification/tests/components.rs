use shoelace_ui::badge::Badge;
use shoelace_ui::breadcrumb::{Breadcrumb, BreadcrumbItem};
use shoelace_ui::button::{Button, Event as ButtonEvent, Size, Variant};
use shoelace_ui::button_group::{button_group, button_group_with, button_position, ButtonGroup, ButtonPosition};
use shoelace_ui::checkbox::{checkbox, Checkbox, CheckboxSize, Event as CheckboxEvent};
use shoelace_ui::hovered::{hovered_update, Event as HoverAreaEvent, State as HoverAreaState};
use shoelace_ui::input::{input, Event as InputEvent, Input, InputSize, InputType};
use shoelace_ui::menu_item::{menu_item, Event as MenuItemEvent, MenuItem, MenuItemState, MenuItemType};
use shoelace_ui::menu_label::{menu_label, MenuLabel};
use shoelace_ui::scrollable::Direction;
use shoelace_ui::style::BadgeVariant;

#[derive(Debug, Clone, Copy, PartialEq, Eq)]
enum Msg {
    Toggled,
    Pressed,
    Selected,
    Edited,
}

#[test]
fn badge_builder() {
    let b = Badge::new(String::from("New")).variant(BadgeVariant::Danger).pill(true).pulse(true);
    assert_eq!(b.content, "New");
    assert_eq!(b.variant, BadgeVariant::Danger);
    assert!(b.pill);
    assert!(b.pulse);
}

#[test]
fn breadcrumb_builder() {
    let trail: Breadcrumb<Msg> = Breadcrumb::new()
        .push(BreadcrumbItem::new(String::from("Home")).on_press(Msg::Pressed))
        .push(BreadcrumbItem::new(String::from("Catalog")))
        .separator(String::from(">"));
    assert_eq!(trail.items.len(), 2);
    assert_eq!(trail.items[0].label, "Home");
    assert_eq!(trail.items[0].on_press, Some(Msg::Pressed));
    assert_eq!(trail.items[1].on_press, None);
    assert_eq!(trail.separator, ">");

    let empty: Breadcrumb<Msg> = Breadcrumb::default();
    assert_eq!(empty.items.len(), 0);
    assert_eq!(empty.separator, "/");
}

#[test]
fn button_press_produces_message_unless_blocked() {
    let b = Button::new(String::from("OK")).on_press(Msg::Pressed);
    assert_eq!(b.update(ButtonEvent::Pressed), Some(Msg::Pressed));

    let loading = Button::new(String::from("OK")).on_press(Msg::Pressed).loading(true);
    assert_eq!(loading.update(ButtonEvent::Pressed), None);

    let disabled = Button::new(String::from("OK")).on_press(Msg::Pressed).disabled(true);
    assert_eq!(disabled.update(ButtonEvent::Pressed), None);

    let silent: Button<Msg> = Button::new(String::from("OK"));
    assert_eq!(silent.update(ButtonEvent::Pressed), None);
    assert_eq!(silent.variant, Variant::Default);
    assert_eq!(silent.size, Size::Medium);
}

#[test]
fn button_group_positions() {
    assert_eq!(button_position(0, 1), ButtonPosition::Only);
    assert_eq!(button_position(0, 3), ButtonPosition::First);
    assert_eq!(button_position(1, 3), ButtonPosition::Middle);
    assert_eq!(button_position(2, 3), ButtonPosition::Last);

    let group: ButtonGroup<Msg> = button_group_with(vec![
        Button::new(String::from("a")),
        Button::new(String::from("b")),
        Button::new(String::from("c")),
    ]);
    assert_eq!(
        group.positions(),
        vec![ButtonPosition::First, ButtonPosition::Middle, ButtonPosition::Last]
    );

    let empty: ButtonGroup<Msg> = button_group();
    assert_eq!(empty.spacing, -1);
    assert_eq!(empty.positions(), Vec::new());

    let one = empty.push(Button::new(String::from("solo"))).label(String::from("group"));
    assert_eq!(one.positions(), vec![ButtonPosition::Only]);
    assert_eq!(one.label.as_deref(), Some("group"));
}

#[test]
fn checkbox_toggle_updates_state_and_emits() {
    let mut c = checkbox(String::from("Remember me"), false)
        .size(CheckboxSize::Large)
        .indeterminate(true)
        .on_toggle(Msg::Toggled);
    let out = c.update(CheckboxEvent::Toggled(true));
    assert_eq!(out, Some(Msg::Toggled));
    assert!(c.checked);
    // Toggling clears the indeterminate state.
    assert!(!c.indeterminate);
}

#[test]
fn disabled_checkbox_ignores_toggles() {
    let mut c: Checkbox<Msg> = Checkbox::new(String::from("Locked"), false).disabled(true);
    let out = c.update(CheckboxEvent::Toggled(true));
    assert_eq!(out, None);
    assert!(!c.checked);
}

#[test]
fn input_edit_updates_value_and_emits() {
    let mut i = input(String::from("Type here"))
        .label(String::from("Name"))
        .size(InputSize::Small)
        .input_type(InputType::Email)
        .required(true)
        .on_input(Msg::Edited);
    let out = i.update(InputEvent::InputChanged(String::from("hi")));
    assert_eq!(out, Some(Msg::Edited));
    assert_eq!(i.value, "hi");
}

#[test]
fn readonly_and_disabled_inputs_ignore_edits() {
    let mut ro: Input<Msg> = Input::new(String::from("p")).value(String::from("keep")).readonly(true);
    assert_eq!(ro.update(InputEvent::InputChanged(String::from("no"))), None);
    assert_eq!(ro.value, "keep");

    let mut dis: Input<Msg> = Input::new(String::from("p")).value(String::from("keep")).disabled(true);
    assert_eq!(dis.update(InputEvent::InputChanged(String::from("no"))), None);
    assert_eq!(dis.value, "keep");
}

#[test]
fn menu_item_selection_toggles_checkbox_items() {
    let mut item = menu_item(String::from("Enable feature"))
        .item_type(MenuItemType::Checkbox)
        .value(String::from("feature"))
        .on_select(Msg::Selected);
    let mut state = MenuItemState::default();

    let out = item.update(&mut state, MenuItemEvent::Selected);
    assert_eq!(out, Some(Msg::Selected));
    assert!(item.checked);

    let out = item.update(&mut state, MenuItemEvent::Selected);
    assert_eq!(out, Some(Msg::Selected));
    assert!(!item.checked);
}

#[test]
fn menu_item_hover_only_records_state() {
    let mut item: MenuItem<Msg> = MenuItem::new(String::from("Save")).on_select(Msg::Selected);
    let mut state = MenuItemState::default();
    let out = item.update(&mut state, MenuItemEvent::Hovered(true));
    assert_eq!(out, None);
    assert!(state.is_hovered);
}

#[test]
fn blocked_menu_items_ignore_selection() {
    let mut state = MenuItemState::default();
    let mut loading: MenuItem<Msg> =
        MenuItem::new(String::from("Busy")).loading(true).on_select(Msg::Selected);
    assert_eq!(loading.update(&mut state, MenuItemEvent::Selected), None);

    let mut disabled: MenuItem<Msg> = MenuItem::new(String::from("Off"))
        .item_type(MenuItemType::Checkbox)
        .disabled(true)
        .on_select(Msg::Selected);
    assert_eq!(disabled.update(&mut state, MenuItemEvent::Selected), None);
    assert!(!disabled.checked);
}

#[test]
fn menu_label_builder() {
    let l = menu_label(String::from("Fruits")).uppercase(true);
    assert_eq!(l.content, "Fruits");
    assert!(l.uppercase);
    assert_eq!(MenuLabel::default().content, "");
}

#[test]
fn hover_area_tracks_pointer_and_passes_messages() {
    let mut state = HoverAreaState::default();
    assert!(!state.hovered);

    let out: Option<Msg> = hovered_update(&mut state, HoverAreaEvent::Hovered);
    assert_eq!(out, None);
    assert!(state.hovered);

    let out: Option<Msg> = hovered_update(&mut state, HoverAreaEvent::Message(Msg::Pressed));
    assert_eq!(out, Some(Msg::Pressed));
    assert!(state.hovered);

    let out: Option<Msg> = hovered_update(&mut state, HoverAreaEvent::Exited);
    assert_eq!(out, None);
    assert!(!state.hovered);
}

#[test]
fn scroll_directions() {
    assert!(Direction::Vertical.scrolls_vertically());
    assert!(!Direction::Vertical.scrolls_horizontally());
    assert!(Direction::Horizontal.scrolls_horizontally());
    assert!(Direction::Both.scrolls_vertically() && Direction::Both.scrolls_horizontally());
}
